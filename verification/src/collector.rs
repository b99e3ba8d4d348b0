//! The collector: owns a shared capture buffer, the prefix applied to each
//! render, and the handle that keeps this collector installed as the active
//! log sink until teardown.

use crate::buffer::CaptureBuffer;
use crate::render::{render_bytes, render_view, spec_render, RenderError};
use vstd::prelude::*;

verus! {

/// Declares tracing's `DefaultGuard`: the handle returned when a subscriber
/// is installed as the active one for the current scope. Dropping it restores
/// the subscriber that was active before.
#[verifier::external_type_specification]
#[verifier::external_body]
pub struct ExDefaultGuard(tracing::subscriber::DefaultGuard);

/// A collector of log output for test assertions.
///
/// It keeps a copy of every record written to its [`CaptureBuffer`] and
/// renders the copy on demand with [`TracingCollector::render`], which drains
/// the buffer, strips terminal control sequences, and prepends the configured
/// prefix. The default prefix is the `'㏒'` glyph, which sets log output
/// apart from surrounding test-fixture text; it can be changed or removed.
///
/// The buffer grows until it is drained, so a collector belongs in tests,
/// not in production code.
pub struct TracingCollector {
    buf: CaptureBuffer,
    trace_guard: Option<tracing::subscriber::DefaultGuard>,
    prefix: Option<char>,
}

impl TracingCollector {
    /// The capture buffer this collector drains.
    pub closed spec fn spec_buffer(&self) -> CaptureBuffer {
        self.buf
    }

    /// The prefix prepended to each rendered drain.
    pub closed spec fn spec_prefix(&self) -> Option<char> {
        self.prefix
    }

    /// Whether an installed-sink handle is currently held.
    pub closed spec fn sink_installed(&self) -> bool {
        self.trace_guard is Some
    }

    /// Creates a collector with a fresh, empty capture buffer, the default
    /// `'㏒'` prefix, and no sink installed yet.
    pub fn new() -> (r: Self)
        ensures
            r.spec_prefix() == Some('㏒'),
            !r.sink_installed(),
    {
        TracingCollector { buf: CaptureBuffer::new(), trace_guard: None, prefix: Some('㏒') }
    }

    /// Uses the given prefix for future renders. The change takes effect on
    /// the next render only; it does not reach back into rendered output.
    pub fn set_prefix(&mut self, prefix: char)
        ensures
            final(self).spec_prefix() == Some(prefix),
            final(self).spec_buffer() == old(self).spec_buffer(),
            final(self).sink_installed() == old(self).sink_installed(),
    {
        self.prefix = Some(prefix);
    }

    /// Removes the prefix: future renders yield the captured text alone.
    pub fn remove_prefix(&mut self)
        ensures
            final(self).spec_prefix() is None,
            final(self).spec_buffer() == old(self).spec_buffer(),
            final(self).sink_installed() == old(self).sink_installed(),
    {
        self.prefix = None;
    }

    /// Stores the installed-sink handle, so that it is released — and the
    /// previously active sink restored — at teardown.
    pub fn set_guard(&mut self, trace_guard: tracing::subscriber::DefaultGuard)
        ensures
            final(self).sink_installed(),
            final(self).spec_buffer() == old(self).spec_buffer(),
            final(self).spec_prefix() == old(self).spec_prefix(),
    {
        self.trace_guard = Some(trace_guard);
    }

    /// Another handle to this collector's capture buffer, for handing to the
    /// logging framework as a writer destination.
    pub fn buffer(&self) -> (r: CaptureBuffer)
        ensures
            r == self.spec_buffer(),
    {
        self.buf.duplicate()
    }

    /// Drains and discards the captured bytes without rendering them; used to
    /// reset state between assertions without producing output.
    pub fn clear(&self) {
        self.buf.clear();
    }

    /// Renders the capture: atomically swaps the buffer's contents out for an
    /// empty buffer, strips terminal control sequences from the drained
    /// bytes, decodes them as UTF-8 and prepends the prefix. Every render is
    /// destructive: it reflects only the bytes written since the previous
    /// render or clear, and concurrent writers at once begin filling the
    /// fresh, empty buffer.
    pub fn render(&self) -> (r: Result<String, RenderError>)
        ensures
            exists|drained: Seq<u8>| render_view(r) == spec_render(drained, self.spec_prefix()),
    {
        let drained = self.buf.drain();
        let r = render_bytes(&drained, self.prefix);
        proof {
            assert(render_view(r) == spec_render(drained@, self.spec_prefix()));
        }
        r
    }

    /// Tears the collector down: discards any remaining captured bytes,
    /// shrinks the buffer's storage to its minimum footprint, and releases
    /// the installed-sink handle so the previously active sink is restored.
    /// A torn-down collector is not re-activated.
    pub fn teardown(&mut self)
        ensures
            !final(self).sink_installed(),
            final(self).spec_prefix() == old(self).spec_prefix(),
            final(self).spec_buffer() == old(self).spec_buffer(),
    {
        self.buf.purge();
        self.trace_guard = None;
    }
}

} // verus!
