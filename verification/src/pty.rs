//! The boundary to the pseudo-terminal: terminal size and the capabilities
//! that the registry needs from the handles of a live session.

use vstd::prelude::*;

verus! {

/// Size of a terminal, in character cells and in pixels.
#[derive(Debug, Clone, Copy, PartialEq, Eq, Structural)]
pub struct PtySize {
    pub rows: u16,
    pub cols: u16,
    pub pixel_width: u16,
    pub pixel_height: u16,
}

impl PtySize {
    /// A size given in character cells only; the pixel dimensions are zero.
    pub fn cells(rows: u16, cols: u16) -> (r: PtySize)
        ensures
            r == (PtySize { rows, cols, pixel_width: 0, pixel_height: 0 }),
    {
        PtySize { rows, cols, pixel_width: 0, pixel_height: 0 }
    }
}

/// The handles of one live session: the writer bound to the terminal's
/// input, the master side of the terminal, and the child process.
///
/// The methods perform I/O and promise nothing about its outcome; on
/// failure they return the operating system's error text.
pub trait SessionHandle {
    /// Writes all of `data` to the terminal's input.
    fn write_all(&mut self, data: &[u8]) -> Result<(), String>;

    /// Flushes the writer.
    fn flush(&mut self) -> Result<(), String>;

    /// Tells the terminal its new size.
    fn resize(&self, size: PtySize) -> Result<(), String>;

    /// Terminates the child process.
    fn kill(&mut self) -> Result<(), String>;
}

/// `handle` is borrowed from a handle in the state `before`, and a call of
/// `write_all` on it with `data` can return `outcome`. What a type's
/// `write_all` can do is for that type to say; this names it. The state in
/// which the call leaves the handle is `mut_ref_future(handle)`.
#[verifier::inline]
pub open spec fn may_write<H: SessionHandle>(
    handle: &mut H,
    before: H,
    data: &[u8],
    outcome: Result<(), String>,
) -> bool {
    mut_ref_current(handle) == before && call_ensures(H::write_all, (handle, data), outcome)
}

/// `handle` is borrowed from a handle in the state `before`, and a call of
/// `flush` on it can return `outcome`. The state in which the call leaves
/// the handle is `mut_ref_future(handle)`.
#[verifier::inline]
pub open spec fn may_flush<H: SessionHandle>(handle: &mut H, before: H, outcome: Result<(), String>) -> bool {
    mut_ref_current(handle) == before && call_ensures(H::flush, (handle,), outcome)
}

/// A call of `resize` on `handle` with `size` can return `outcome`.
#[verifier::inline]
pub open spec fn may_resize<H: SessionHandle>(handle: &H, size: PtySize, outcome: Result<(), String>) -> bool {
    call_ensures(H::resize, (handle, size), outcome)
}

/// `handle` is borrowed from a handle in the state `before`, and a call of
/// `kill` on it can return `outcome`.
#[verifier::inline]
pub open spec fn may_kill<H: SessionHandle>(handle: &mut H, before: H, outcome: Result<(), String>) -> bool {
    mut_ref_current(handle) == before && call_ensures(H::kill, (handle,), outcome)
}

} // verus!
