use vstd::prelude::*;
use crate::streamer::coordinator::{
    initial, reaped, running, spec_end, spec_play, spec_relaunched, spec_session_ended,
    spec_tell, well_formed, CoordinatorView, DirectiveView, SessionView, STOP_TIMEOUT_SECONDS,
};
use crate::streamer::message::MessageView;
use crate::streamer::streamer_loop::ExitView;

verus! {

/// The coordinator together with what it cannot see: the number of worker
/// threads that are alive.
pub struct World {
    pub front: CoordinatorView,
    pub alive: nat,
}

/// What can happen to the world: a call of the coordinator, with what the
/// tracked thread handle says at that moment, a report of the worker, or
/// the exit of a worker thread.
pub enum Step {
    IsRunning(bool),
    Play(Seq<char>, bool),
    Pause(bool),
    Stop(bool),
    End(bool),
    SessionEnded(ExitView),
    Relaunched(Seq<char>),
    WorkerExit,
}

/// What the tracked thread handle says, where the step asks it.
pub open spec fn observed(step: Step) -> Option<bool> {
    match step {
        Step::IsRunning(finished) => Some(finished),
        Step::Play(_, finished) => Some(finished),
        Step::Pause(finished) => Some(finished),
        Step::Stop(finished) => Some(finished),
        Step::End(finished) => Some(finished),
        _ => None,
    }
}

/// Whether the step can happen in that world: a tracked handle says
/// "finished" only of a thread that has exited, and only a thread that is
/// alive exits.
pub open spec fn admissible(w: World, step: Step) -> bool {
    &&& (w.front.worker && observed(step) == Some(true)) ==> w.alive == 0
    &&& step is WorkerExit ==> w.alive > 0
}

/// The coordinator after the step.
pub open spec fn front_after(c: CoordinatorView, step: Step) -> CoordinatorView {
    match step {
        Step::IsRunning(finished) => reaped(c, finished),
        Step::Play(uri, finished) => spec_play(c, uri, finished).0,
        Step::Pause(finished) => spec_tell(c, MessageView::Pause, finished).0,
        Step::Stop(finished) => spec_tell(c, MessageView::Stop, finished).0,
        Step::End(finished) => spec_end(c, finished).0,
        Step::SessionEnded(exit) => spec_session_ended(c, exit),
        Step::Relaunched(uri) => spec_relaunched(c, uri),
        Step::WorkerExit => c,
    }
}

/// Whether the step starts a worker thread: only a `play` that is answered
/// with `Spawn` does.
pub open spec fn spawns(c: CoordinatorView, step: Step) -> bool {
    match step {
        Step::Play(uri, finished) => spec_play(c, uri, finished).1 is Spawn,
        _ => false,
    }
}

/// The world after the step.
pub open spec fn advance(w: World, step: Step) -> World {
    World {
        front: front_after(w.front, step),
        alive: if spawns(w.front, step) {
            w.alive + 1
        } else if step is WorkerExit {
            (w.alive - 1) as nat
        } else {
            w.alive
        },
    }
}

/// The world before anything has happened.
pub open spec fn start() -> World {
    World { front: initial(), alive: 0 }
}

/// The world after the steps, taken in order.
pub open spec fn run(w: World, steps: Seq<Step>) -> World
    decreases steps.len(),
{
    if steps.len() == 0 {
        w
    } else {
        advance(run(w, steps.drop_last()), steps.last())
    }
}

/// Whether each of the steps can happen in the world that it finds.
pub open spec fn admissible_run(w: World, steps: Seq<Step>) -> bool
    decreases steps.len(),
{
    steps.len() == 0 || (admissible_run(w, steps.drop_last()) && admissible(
        run(w, steps.drop_last()),
        steps.last(),
    ))
}

/// What every reachable world satisfies: the coordinator is well formed, at
/// most one worker is alive, and a worker that is alive is tracked unless
/// the coordinator has ended.
pub open spec fn sound(w: World) -> bool {
    &&& well_formed(w.front)
    &&& w.alive <= 1
    &&& w.alive == 1 ==> (w.front.worker || w.front.session is Ended)
}

/// A step that can happen keeps the world sound.
pub proof fn lemma_step_keeps_sound(w: World, step: Step)
    requires
        sound(w),
        admissible(w, step),
    ensures
        sound(advance(w, step)),
{
}

/// Steps that can happen keep the world sound.
pub proof fn lemma_run_keeps_sound(w: World, steps: Seq<Step>)
    requires
        sound(w),
        admissible_run(w, steps),
    ensures
        sound(run(w, steps)),
    decreases steps.len(),
{
    if steps.len() > 0 {
        lemma_run_keeps_sound(w, steps.drop_last());
        lemma_step_keeps_sound(run(w, steps.drop_last()), steps.last());
    }
}

/// The first `k` of steps that can happen can happen.
pub proof fn lemma_prefix_admissible(w: World, steps: Seq<Step>, k: int)
    requires
        admissible_run(w, steps),
        0 <= k <= steps.len(),
    ensures
        admissible_run(w, steps.take(k)),
    decreases steps.len(),
{
    if k == steps.len() {
        assert(steps.take(k) == steps);
    } else {
        lemma_prefix_admissible(w, steps.drop_last(), k);
        assert(steps.drop_last().take(k) == steps.take(k));
    }
}

/// Whatever the commands, the reports and the exits, and in whatever
/// order: at no time is more than one worker thread alive.
pub proof fn lemma_at_most_one_worker(steps: Seq<Step>, k: int)
    requires
        admissible_run(start(), steps),
        0 <= k <= steps.len(),
    ensures
        run(start(), steps.take(k)).alive <= 1,
{
    lemma_prefix_admissible(start(), steps, k);
    lemma_run_keeps_sound(start(), steps.take(k));
}

/// A `play` that finds a running worker starts no thread: it sends `Next`
/// with the new URI to the worker that is there, and the number of threads
/// stays as it was.
pub proof fn lemma_no_respawn(w: World, uri: Seq<char>, finished: bool)
    requires
        well_formed(w.front),
        running(w.front, finished),
    ensures
        spec_play(w.front, uri, finished).1 == DirectiveView::Send(MessageView::Next(uri)),
        spec_play(w.front, uri, finished).0 == w.front,
        advance(w, Step::Play(uri, finished)).alive == w.alive,
{
}

/// A `pause` or a `stop` that finds no running worker sends nothing, and
/// on an idle coordinator changes nothing.
pub proof fn lemma_tell_without_worker(c: CoordinatorView, command: MessageView, finished: bool)
    requires
        !running(c, finished),
    ensures
        spec_tell(c, command, finished).1 == DirectiveView::Nothing,
        c == initial() ==> spec_tell(c, command, finished).0 == c,
{
}

/// The end asks for a wait of the fixed length and no longer, and leaves
/// the coordinator ended whether or not a worker was there to answer.
pub proof fn lemma_end_is_bounded(c: CoordinatorView, finished: bool)
    ensures
        spec_end(c, finished).1.timeout_seconds == STOP_TIMEOUT_SECONDS,
        spec_end(c, finished).0.session is Ended,
        !spec_end(c, finished).0.worker,
        spec_end(c, finished).1.join == running(c, finished),
        spec_end(c, finished).1.send_shutdown == running(c, finished),
{
}

/// The end is final: once the coordinator has ended, no step brings it
/// back, and none starts a thread.
pub proof fn lemma_ended_is_final(c: CoordinatorView, step: Step)
    requires
        well_formed(c),
        c.session is Ended,
    ensures
        front_after(c, step) == c,
        !spawns(c, step),
{
}

} // verus!
