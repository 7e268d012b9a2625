use crate::panic_data::PanicLocation;
use std::backtrace::Backtrace;
use vstd::prelude::*;

verus! {

/// Relies on `Backtrace::force_capture`: a backtrace taken whatever the environment says.
pub assume_specification[ Backtrace::force_capture ]() -> Backtrace;

/// Relies on `Backtrace::capture`: a backtrace taken only where `RUST_LIB_BACKTRACE` or
/// `RUST_BACKTRACE` enables it.
pub assume_specification[ Backtrace::capture ]() -> Backtrace;

/// Relies on `Backtrace::disabled`: a backtrace that holds no frames.
pub assume_specification[ Backtrace::disabled ]() -> Backtrace;

/// When the panic hook takes a backtrace for a catch frame.
#[derive(Debug, Clone, Copy, PartialEq, Eq, Structural, Hash)]
pub enum CaptureBacktrace {
    /// Always take one.
    Always,
    /// Take one where `RUST_LIB_BACKTRACE` or `RUST_BACKTRACE` enables it.
    Default,
    /// Never take one.
    Never,
}

/// One active catch boundary: what it asks of the panic hook, and what the hook left for it.
#[derive(Debug)]
pub struct CatchStackFrame {
    /// When to take a backtrace, as the boundary asked.
    pub capture_backtrace: CaptureBacktrace,
    /// The location of the latest panic that the hook reported to this frame.
    pub location: Option<PanicLocation>,
    /// The backtrace of the latest panic that the hook reported to this frame.
    pub backtrace: Backtrace,
}

impl CatchStackFrame {
    /// A frame with the given policy that no panic has been reported to yet.
    pub fn new(capture_backtrace: CaptureBacktrace) -> (r: Self)
        ensures
            r.capture_backtrace == capture_backtrace,
            r.location is None,
    {
        CatchStackFrame { capture_backtrace, location: None, backtrace: Backtrace::disabled() }
    }
}

/// Takes a backtrace as the policy asks.
fn take_backtrace(policy: CaptureBacktrace) -> Backtrace {
    match policy {
        CaptureBacktrace::Always => Backtrace::force_capture(),
        CaptureBacktrace::Default => Backtrace::capture(),
        CaptureBacktrace::Never => Backtrace::disabled(),
    }
}

/// What the panic hook does with a panic.
#[derive(Debug, Clone, Copy, PartialEq, Eq, Structural)]
pub enum HookOutcome {
    /// No boundary is active on this thread: hand the panic to the previous hook.
    Delegate,
    /// The top frame took the panic's location and backtrace; print nothing.
    Recorded,
}

/// `after` is `before` with one more frame on top, of the given policy and with no location.
pub open spec fn entered(
    before: Seq<CatchStackFrame>,
    after: Seq<CatchStackFrame>,
    policy: CaptureBacktrace,
) -> bool {
    &&& after.len() == before.len() + 1
    &&& after.drop_last() == before
    &&& after.last().capture_backtrace == policy
    &&& after.last().location is None
}

/// `after` is `before` with its top frame removed.
pub open spec fn left(before: Seq<CatchStackFrame>, after: Seq<CatchStackFrame>) -> bool {
    before.len() > 0 && after == before.drop_last()
}

/// `after` is `before` once the hook has reported a panic at `location`: nothing changes on
/// an empty stack; otherwise the top frame alone changes, keeping its policy and taking the
/// location.
pub open spec fn recorded(
    before: Seq<CatchStackFrame>,
    after: Seq<CatchStackFrame>,
    location: Option<PanicLocation>,
) -> bool {
    if before.len() == 0 {
        after == before
    } else {
        &&& after.len() == before.len()
        &&& after.drop_last() == before.drop_last()
        &&& after.last().capture_backtrace == before.last().capture_backtrace
        &&& after.last().location == location
    }
}

/// The frames of the catch boundaries active on one thread, innermost last.
pub struct CatchStack {
    frames: Vec<CatchStackFrame>,
}

impl View for CatchStack {
    type V = Seq<CatchStackFrame>;

    closed spec fn view(&self) -> Seq<CatchStackFrame> {
        self.frames@
    }
}

impl CatchStack {
    /// An empty stack: no boundary is active.
    pub fn new() -> (r: Self)
        ensures
            r@ == Seq::<CatchStackFrame>::empty(),
    {
        CatchStack { frames: Vec::new() }
    }

    /// The number of active boundaries.
    pub fn depth(&self) -> (r: usize)
        ensures
            r == self@.len(),
    {
        self.frames.len()
    }

    /// Starts a boundary: pushes a fresh frame with the given policy.
    pub fn push_frame(&mut self, policy: CaptureBacktrace)
        ensures
            entered(old(self)@, final(self)@, policy),
    {
        self.frames.push(CatchStackFrame::new(policy));
        proof {
            assert(final(self)@.drop_last() =~= old(self)@);
        }
    }

    /// Ends a boundary: removes and returns the top frame, or `None` on an empty stack.
    pub fn pop_frame(&mut self) -> (r: Option<CatchStackFrame>)
        ensures
            old(self)@.len() == 0 ==> r is None && final(self)@ == old(self)@,
            old(self)@.len() > 0 ==> r == Some(old(self)@.last()) && left(old(self)@, final(self)@),
    {
        self.frames.pop()
    }

    /// What the panic hook does on this thread's stack for a panic reported at `location`:
    /// with no active boundary it delegates; otherwise the top frame takes the location and a
    /// backtrace taken as its policy asks.
    pub fn record_panic(&mut self, location: Option<PanicLocation>) -> (r: HookOutcome)
        ensures
            r == HookOutcome::Delegate <==> old(self)@.len() == 0,
            recorded(old(self)@, final(self)@, location),
    {
        match self.frames.pop() {
            None => HookOutcome::Delegate,
            Some(top) => {
                let backtrace = take_backtrace(top.capture_backtrace);
                let frame = CatchStackFrame {
                    capture_backtrace: top.capture_backtrace,
                    location,
                    backtrace,
                };
                self.frames.push(frame);
                proof {
                    assert(final(self)@.drop_last() =~= old(self)@.drop_last());
                }
                HookOutcome::Recorded
            },
        }
    }
}

} // verus!
