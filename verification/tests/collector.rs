use tracing_collector::render::{render_bytes, render_sanitized};
use tracing_collector::{CaptureBuffer, RenderError, TracingCollector};

#[test]
fn test_fresh_collector_renders_prefix_only() {
    let collector = TracingCollector::new();
    assert_eq!(collector.render().unwrap(), "\u{33d2}");
}

#[test]
fn test_render_is_destructive() {
    let collector = TracingCollector::new();
    collector.buffer().append(b"hello");
    assert_eq!(collector.render().unwrap(), "\u{33d2}hello");
    assert_eq!(collector.render().unwrap(), "\u{33d2}");
}

#[test]
fn test_render_twice_without_prefix_yields_empty_string() {
    let mut collector = TracingCollector::new();
    collector.remove_prefix();
    collector.buffer().append(b"hello");
    assert_eq!(collector.render().unwrap(), "hello");
    assert_eq!(collector.render().unwrap(), "");
}

#[test]
fn test_clear_discards_without_rendering() {
    let collector = TracingCollector::new();
    collector.buffer().append(b"forgotten text");
    collector.clear();
    assert_eq!(collector.render().unwrap(), "\u{33d2}");
}

#[test]
fn test_prefix_takes_effect_on_next_render() {
    let mut collector = TracingCollector::new();
    collector.buffer().append(b"hello");
    collector.set_prefix('>');
    assert_eq!(collector.render().unwrap(), ">hello");
    collector.buffer().append(b"world");
    collector.remove_prefix();
    assert_eq!(collector.render().unwrap(), "world");
}

#[test]
fn test_strip_round_trip() {
    let collector = TracingCollector::new();
    collector.buffer().append(b"\x1b[1m\x1b[32mgreen message\x1b[0m end");
    assert_eq!(collector.render().unwrap(), "\u{33d2}green message end");
}

#[test]
fn test_appends_are_kept_in_order() {
    let collector = TracingCollector::new();
    let buffer = collector.buffer();
    assert_eq!(buffer.append(b"First "), 6);
    assert_eq!(buffer.append(b"Second"), 6);
    assert_eq!(collector.render().unwrap(), "\u{33d2}First Second");
}

#[test]
fn test_duplicated_handles_share_one_buffer() {
    let collector = TracingCollector::new();
    let first = collector.buffer();
    let second = first.duplicate();
    first.append(b"one ");
    second.append(b"two");
    assert_eq!(collector.render().unwrap(), "\u{33d2}one two");
}

#[test]
fn test_invalid_utf8_fails_sanitized_render() {
    assert_eq!(render_sanitized(vec![0xff, 0xfe, 0xfd], None), Err(RenderError::InvalidUtf8));
    assert_eq!(
        render_sanitized(vec![b'a', 0x80], Some('\u{33d2}')),
        Err(RenderError::InvalidUtf8)
    );
}

#[test]
fn test_stripper_consumes_invalid_utf8() {
    // The control-sequence stripper decodes as it scans and consumes bytes
    // that are not valid UTF-8 text, so an end-to-end render of such bytes
    // succeeds without them; the valid text around them is kept.
    let collector = TracingCollector::new();
    collector.buffer().append(&[b'o', b'k', 0xff, 0xfe, b'!']);
    assert_eq!(collector.render().unwrap(), "\u{33d2}ok!");
}

#[test]
fn test_render_bytes_without_prefix_is_identity_on_plain_text() {
    let bytes: Vec<u8> = b"plain text".to_vec();
    assert_eq!(render_bytes(&bytes, None).unwrap(), "plain text");
    assert_eq!(render_bytes(&bytes, Some('\u{33d2}')).unwrap(), "\u{33d2}plain text");
}

#[test]
fn test_info_record_block_renders_exactly() {
    let collector = TracingCollector::new();
    collector
        .buffer()
        .append(b"   \x1b[32mINFO\x1b[0m  First log\n    \x1b[2mat\x1b[0m tests/test.rs:6\n\n");
    assert_eq!(
        collector.render().unwrap(),
        "\u{33d2}   INFO  First log\n    at tests/test.rs:6\n\n"
    );
}

#[test]
fn test_two_record_blocks_render_with_one_prefix() {
    let collector = TracingCollector::new();
    let buffer = collector.buffer();
    buffer.append(b"  \x1b[34mDEBUG\x1b[0m  Second log\n    at tests/test.rs:14\n\n");
    buffer.append(b"   \x1b[32mINFO\x1b[0m  Third log\n    at tests/test.rs:15\n\n");
    assert_eq!(
        collector.render().unwrap(),
        "\u{33d2}  DEBUG  Second log\n    at tests/test.rs:14\n\n   INFO  Third log\n    at tests/test.rs:15\n\n"
    );
}

#[test]
fn test_filtered_out_record_renders_prefix_only() {
    // A record below the collector's maximum severity never reaches the
    // buffer, so the next render yields the prefix alone.
    let collector = TracingCollector::new();
    assert_eq!(collector.render().unwrap(), "\u{33d2}");
}

#[test]
fn test_teardown_bounds_retained_memory() {
    let mut collector = TracingCollector::new();
    let buffer = collector.buffer();
    let big = vec![b'x'; 100_000];
    buffer.append(&big);
    collector.teardown();
    assert_eq!(buffer.retained_capacity(), 0);
    assert_eq!(collector.render().unwrap(), "\u{33d2}");
}

#[test]
fn test_guard_is_released_at_teardown() {
    let guard = tracing::subscriber::set_default(tracing::subscriber::NoSubscriber::new());
    let mut collector = TracingCollector::new();
    collector.set_guard(guard);
    collector.teardown();
}

#[test]
fn test_capture_buffer_starts_empty() {
    let buffer = CaptureBuffer::new();
    assert_eq!(buffer.drain(), Vec::<u8>::new());
    assert_eq!(buffer.append(b""), 0);
}
