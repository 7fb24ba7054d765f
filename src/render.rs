//! The buffer-growth protocol around a strftime-like rendering primitive.
//!
//! The primitive writes into a caller-owned buffer of a given size and
//! returns the number of bytes written, or zero both when the output does
//! not fit and when the pattern cannot be rendered at all. The protocol
//! tells those apart heuristically: a first call with a buffer as long as
//! the pattern, and on zero a single probe with ten times that size; zero
//! again means the pattern is treated as invalid.
//!
//! The driver calls [`Render::start`], performs each [`RenderAction::Call`]
//! and feeds the returned length to [`Render::step`] until it gets
//! [`RenderAction::Finish`] or [`RenderAction::Fail`]; then
//! [`take_output`] turns the buffer into the result.
use vstd::prelude::*;
use vstd::string::*;
use vstd::utf8::*;
use crate::error::Error;
use crate::text::decode_utf8;

verus! {

/// Which attempt the protocol is on.
#[derive(Debug, Clone, Copy, PartialEq, Eq, Structural)]
pub enum RenderPhase {
    /// The first call, with a buffer as long as the pattern.
    First,
    /// The enlarged retry that follows a first call returning zero.
    Probe,
}

/// The protocol's state: the phase and the size of the buffer handed to
/// the primitive in the call whose result comes next.
#[derive(Debug, Clone, Copy, PartialEq, Eq, Structural)]
pub struct Render {
    pub phase: RenderPhase,
    pub size: usize,
}

/// What the driver does next.
#[derive(Debug, Clone, Copy, PartialEq, Eq, Structural)]
pub enum RenderAction {
    /// Call the primitive with a zeroed buffer of this many bytes and hand
    /// the returned length to [`Render::step`].
    Call(usize),
    /// Done: the first this-many bytes of the last buffer are the output.
    Finish(usize),
    /// Give up with this error.
    Fail(Error),
}

/// How many times larger the probe buffer is than the first one.
pub const PROBE_FACTOR: usize = 10;

/// The state and action that follow a call which wrote `written` bytes.
pub open spec fn render_next(st: Render, written: usize) -> (Render, RenderAction) {
    if written > st.size {
        (st, RenderAction::Fail(Error::FormatError))
    } else if written > 0 {
        (st, RenderAction::Finish(written))
    } else {
        match st.phase {
            RenderPhase::First => {
                if st.size * PROBE_FACTOR <= usize::MAX {
                    let size = (st.size * PROBE_FACTOR) as usize;
                    (Render { phase: RenderPhase::Probe, size }, RenderAction::Call(size))
                } else {
                    (st, RenderAction::Fail(Error::FormatError))
                }
            },
            RenderPhase::Probe => (st, RenderAction::Fail(Error::InvalidFormatString)),
        }
    }
}

impl Render {
    /// Begin rendering `pattern`: the first call gets a buffer as long as the
    /// pattern's encoding.
    pub fn start(pattern: &str) -> (r: (Render, RenderAction))
        ensures
            r.0.phase == RenderPhase::First,
            r.0.size == pattern.len(),
            r.1 == RenderAction::Call(r.0.size),
    {
        let size = pattern.len();
        (Render { phase: RenderPhase::First, size }, RenderAction::Call(size))
    }

    /// Advance after the primitive, called with a buffer of `self.size`
    /// bytes, reported `written` bytes.
    pub fn step(self, written: usize) -> (r: (Render, RenderAction))
        ensures
            r == render_next(self, written),
    {
        if written > self.size {
            (self, RenderAction::Fail(Error::FormatError))
        } else if written > 0 {
            (self, RenderAction::Finish(written))
        } else {
            match self.phase {
                RenderPhase::First => match self.size.checked_mul(PROBE_FACTOR) {
                    Some(size) => (
                        Render { phase: RenderPhase::Probe, size },
                        RenderAction::Call(size),
                    ),
                    None => (self, RenderAction::Fail(Error::FormatError)),
                },
                RenderPhase::Probe => (self, RenderAction::Fail(Error::InvalidFormatString)),
            }
        }
    }
}

/// The protocol accepts a reported length only when it fits in the buffer
/// that the primitive was given, keeps exactly that many bytes, and stops
/// asking for calls after the probe: from the start, whatever the two
/// reported lengths, the second step never asks for a third call, and any
/// length it finishes with fits in the probe buffer.
pub proof fn rendering_never_outgrows_its_buffer(st: Render, written: usize, later: usize)
    ensures
        render_next(st, written).1 matches RenderAction::Finish(n) ==> n == written && 0 < n
            <= st.size,
        st.phase == RenderPhase::First ==> ({
            let (probe, action) = render_next(st, written);
            action is Call ==> {
                &&& action == RenderAction::Call(probe.size)
                &&& !(render_next(probe, later).1 is Call)
                &&& render_next(probe, later).1 matches RenderAction::Finish(n) ==> n == later
                    && 0 < n <= probe.size
            }
        }),
{
}

/// Keep the first `written` bytes of the buffer and decode them as UTF-8.
pub fn take_output(buf: Vec<u8>, written: usize) -> (r: Result<String, Error>)
    requires
        written <= buf@.len(),
    ensures
        r is Ok <==> valid_utf8(buf@.subrange(0, written as int)),
        r matches Ok(s) ==> encode_utf8(s@) == buf@.subrange(0, written as int),
        r matches Err(e) ==> e == Error::Utf8Error,
{
    let ghost whole = buf@;
    let mut buf = buf;
    buf.truncate(written);
    assert(buf@ =~= whole.subrange(0, written as int));
    match decode_utf8(buf) {
        Some(s) => Ok(s),
        None => Err(Error::Utf8Error),
    }
}

} // verus!
