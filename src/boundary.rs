use crate::catch_stack::{entered, left, recorded, CaptureBacktrace, CatchStackFrame};
use crate::panic_data::{PanicData, PanicLocation, Payload};
use vstd::prelude::*;

verus! {

/// What a boundary does about the process-wide panic hook before it pushes its frame.
#[derive(Debug, Clone, Copy, PartialEq, Eq, Structural)]
pub enum InstallStep {
    /// The hook is not installed yet and this thread may install it.
    Install,
    /// The hook is installed already: nothing to do, and nothing to check.
    Installed,
    /// The hook is not installed yet and this thread is unwinding: installing is refused.
    Refuse,
}

/// The install decision: only a call made before the hook was ever installed is held to the
/// thread not being in the middle of unwinding.
pub fn install_step(installed: bool, unwinding: bool) -> (r: InstallStep)
    ensures
        installed ==> r == InstallStep::Installed,
        !installed && unwinding ==> r == InstallStep::Refuse,
        !installed && !unwinding ==> r == InstallStep::Install,
{
    if installed {
        InstallStep::Installed
    } else if unwinding {
        InstallStep::Refuse
    } else {
        InstallStep::Install
    }
}

/// The result a boundary returns once its frame is popped: the computation's value as it
/// came, or a record of the caught payload with the location and backtrace that the hook
/// left in the boundary's own frame.
pub fn finish_catch<R, P>(
    outcome: Result<R, Payload<P>>,
    frame: CatchStackFrame,
) -> (r: Result<R, PanicData<P>>)
    ensures
        match outcome {
            Ok(v) => r == Ok::<R, PanicData<P>>(v),
            Err(p) => r == Err::<R, PanicData<P>>(
                (PanicData { payload: p, location: frame.location, backtrace: frame.backtrace }),
            ),
        },
{
    match outcome {
        Ok(v) => Ok(v),
        Err(payload) => Err(
            PanicData { payload, location: frame.location, backtrace: frame.backtrace },
        ),
    }
}

/// One thing that happens to a thread's catch stack.
pub enum StackEvent {
    /// A boundary starts with the given policy.
    Enter(CaptureBacktrace),
    /// The innermost boundary ends.
    Leave,
    /// The panic hook reports a panic at the given location.
    Panic(Option<PanicLocation>),
}

/// `after` follows from `before` by the event, as the stack's operations state it.
pub open spec fn step(before: Seq<CatchStackFrame>, event: StackEvent, after: Seq<CatchStackFrame>) -> bool {
    match event {
        StackEvent::Enter(policy) => entered(before, after, policy),
        StackEvent::Leave => left(before, after),
        StackEvent::Panic(location) => recorded(before, after, location),
    }
}

/// `stacks` are the states that a thread's catch stack passes through under `events`.
pub open spec fn is_run(stacks: Seq<Seq<CatchStackFrame>>, events: Seq<StackEvent>) -> bool {
    &&& stacks.len() == events.len() + 1
    &&& forall|k: int| #![trigger events[k]] 0 <= k < events.len() ==> step(stacks[k], events[k], stacks[k + 1])
}

/// The location of the latest panic among events `from` up to `to` (excluded) that came
/// while the stack was `depth` frames deep, or `initial` when none did.
pub open spec fn latest_panic_at(
    stacks: Seq<Seq<CatchStackFrame>>,
    events: Seq<StackEvent>,
    depth: int,
    from: int,
    to: int,
    initial: Option<PanicLocation>,
) -> Option<PanicLocation>
    decreases to - from,
{
    if to <= from {
        initial
    } else if events[to - 1] is Panic && stacks[to - 1].len() == depth {
        events[to - 1]->Panic_0
    } else {
        latest_panic_at(stacks, events, depth, from, to - 1, initial)
    }
}

proof fn lemma_frame_at_depth(
    stacks: Seq<Seq<CatchStackFrame>>,
    events: Seq<StackEvent>,
    depth: int,
    from: int,
    to: int,
)
    requires
        is_run(stacks, events),
        1 <= depth,
        0 <= from <= to <= events.len(),
        forall|k: int| from <= k <= to ==> #[trigger] stacks[k].len() >= depth,
    ensures
        stacks[to].subrange(0, depth - 1) == stacks[from].subrange(0, depth - 1),
        stacks[to][depth - 1].capture_backtrace == stacks[from][depth - 1].capture_backtrace,
        stacks[to][depth - 1].location == latest_panic_at(
            stacks,
            events,
            depth,
            from,
            to,
            stacks[from][depth - 1].location,
        ),
    decreases to - from,
{
    if to > from {
        let k = to - 1;
        lemma_frame_at_depth(stacks, events, depth, from, k);
        assert(stacks[k].len() >= depth);
        assert(stacks[to].len() >= depth);
        assert(step(stacks[k], events[k], stacks[k + 1]));
        let before = stacks[k];
        let after = stacks[to];
        match events[k] {
            StackEvent::Enter(_) => {
                assert(after.drop_last() == before);
                assert(after[depth - 1] == after.drop_last()[depth - 1]);
                assert(after.subrange(0, depth - 1) =~= before.subrange(0, depth - 1));
            },
            StackEvent::Leave => {
                assert(after == before.drop_last());
                assert(after.subrange(0, depth - 1) =~= before.subrange(0, depth - 1));
            },
            StackEvent::Panic(_) => {
                assert(after.drop_last() == before.drop_last());
                if before.len() > depth {
                    assert(after[depth - 1] == after.drop_last()[depth - 1]);
                    assert(before[depth - 1] == before.drop_last()[depth - 1]);
                }
                assert(after.subrange(0, depth - 1) =~= after.drop_last().subrange(0, depth - 1));
                assert(before.subrange(0, depth - 1) =~= before.drop_last().subrange(0, depth - 1));
            },
        }
    }
}

/// Panics are attributed to their own nesting depth: while a thread's stack stays at least
/// `depth` frames deep, the frames below the boundary at that depth are untouched, its own
/// frame keeps its policy, and it holds the location of the latest panic reported while it
/// was the innermost boundary, whatever boundaries nested in it recorded.
pub proof fn lemma_panics_stay_at_their_depth(
    stacks: Seq<Seq<CatchStackFrame>>,
    events: Seq<StackEvent>,
    depth: int,
)
    requires
        is_run(stacks, events),
        1 <= depth,
        forall|k: int| 0 <= k < stacks.len() ==> #[trigger] stacks[k].len() >= depth,
    ensures
        stacks.last().subrange(0, depth - 1) == stacks[0].subrange(0, depth - 1),
        stacks.last()[depth - 1].capture_backtrace == stacks[0][depth - 1].capture_backtrace,
        stacks.last()[depth - 1].location == latest_panic_at(
            stacks,
            events,
            depth,
            0,
            events.len() as int,
            stacks[0][depth - 1].location,
        ),
{
    lemma_frame_at_depth(stacks, events, depth, 0, events.len() as int);
}

/// Panics from before a boundary started do not reach it, even those that code caught and
/// threw away on its own: when a run opens with a boundary entering and the stack stays
/// above the depth it started from, the frames below are untouched and the new boundary's
/// frame holds the location of the latest panic reported while it was the innermost one,
/// or none if there was none.
pub proof fn lemma_fresh_boundary_sees_only_its_own_panics(
    stacks: Seq<Seq<CatchStackFrame>>,
    events: Seq<StackEvent>,
    policy: CaptureBacktrace,
)
    requires
        is_run(stacks, events),
        events.len() >= 1,
        events[0] == StackEvent::Enter(policy),
        forall|k: int| 1 <= k < stacks.len() ==> #[trigger] stacks[k].len() > stacks[0].len(),
    ensures
        ({
            let depth = stacks[0].len() as int + 1;
            &&& stacks.last().subrange(0, depth - 1) == stacks[0]
            &&& stacks.last()[depth - 1].capture_backtrace == policy
            &&& stacks.last()[depth - 1].location == latest_panic_at(
                stacks,
                events,
                depth,
                1,
                events.len() as int,
                None,
            )
        }),
{
    let depth = stacks[0].len() as int + 1;
    assert(step(stacks[0], events[0], stacks[1]));
    assert(stacks[1].subrange(0, depth - 1) =~= stacks[0]);
    lemma_frame_at_depth(stacks, events, depth, 1, events.len() as int);
}

} // verus!
