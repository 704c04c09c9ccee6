//! Runs of several frames, and what a rollback may rely on.
//!
//! A rollback saves a snapshot, simulates ahead on predicted input, puts the
//! saved snapshot back and simulates again on corrected input. The laws of
//! this module say that this is safe: a step is a function of the snapshot and
//! the frame it is given, so a run can be cut, saved and resumed anywhere.

use crate::gameplay::{lemma_step_keeps_wf, Frame};
use crate::world::Snapshot;
use vstd::prelude::*;

verus! {

/// The snapshot after stepping through `frames` one after the other.
pub open spec fn run(start: Snapshot, frames: Seq<Frame>) -> Snapshot
    decreases frames.len(),
{
    if frames.len() == 0 {
        start
    } else {
        run(start, frames.drop_last()).after(frames.last())
    }
}

/// `states` is what one execution went through: it begins with `start`, and
/// each further state came out of a step from the state before it.
pub open spec fn is_execution(states: Seq<Snapshot>, start: Snapshot, frames: Seq<Frame>) -> bool {
    &&& states.len() == frames.len() + 1
    &&& states[0] == start
    &&& forall|i: int|
        0 <= i < frames.len() ==> states[i + 1] == states[i].after(#[trigger] frames[i])
}

proof fn lemma_execution_follows_run(
    states: Seq<Snapshot>,
    start: Snapshot,
    frames: Seq<Frame>,
    n: int,
)
    requires
        is_execution(states, start, frames),
        0 <= n <= frames.len(),
    ensures
        states[n] == run(start, frames.take(n)),
    decreases n,
{
    if n > 0 {
        lemma_execution_follows_run(states, start, frames, n - 1);
        let _ = frames[n - 1];
        assert(frames.take(n).drop_last() == frames.take(n - 1));
        assert(frames.take(n).last() == frames[n - 1]);
    }
}

/// Determinism. Two executions that start from the same snapshot and are
/// given the same frames go through the same snapshots, and so through the
/// same checksum inputs, frame by frame.
pub proof fn law_determinism(
    start: Snapshot,
    frames: Seq<Frame>,
    first: Seq<Snapshot>,
    second: Seq<Snapshot>,
)
    requires
        is_execution(first, start, frames),
        is_execution(second, start, frames),
    ensures
        first == second,
        forall|n: int|
            0 <= n <= frames.len() ==> (#[trigger] first[n]).checksum_input()
                == second[n].checksum_input(),
{
    assert forall|n: int| 0 <= n < first.len() implies first[n] == second[n] by {
        lemma_execution_follows_run(first, start, frames, n);
        lemma_execution_follows_run(second, start, frames, n);
    }
    assert(first =~= second);
}

/// Replay equivalence. Stop a run after `k` frames, save the snapshot, and
/// resume from the saved snapshot with the remaining frames, however often:
/// the result is the snapshot of the run that never stopped.
pub proof fn law_replay_equivalence(start: Snapshot, frames: Seq<Frame>, k: int)
    requires
        0 <= k <= frames.len(),
    ensures
        run(run(start, frames.take(k)), frames.skip(k)) == run(start, frames),
    decreases frames.len(),
{
    let saved = run(start, frames.take(k));
    if k == frames.len() {
        assert(frames.take(k) == frames);
        assert(frames.skip(k).len() == 0);
    } else {
        let shorter = frames.drop_last();
        law_replay_equivalence(start, shorter, k);
        assert(shorter.take(k) == frames.take(k));
        assert(frames.skip(k).drop_last() == shorter.skip(k));
        assert(frames.skip(k).last() == frames.last());
    }
}

/// The frame counter after a run is the counter before it plus the number of
/// frames stepped through.
pub proof fn law_frame_count(start: Snapshot, frames: Seq<Frame>)
    ensures
        run(start, frames).frame == start.frame + frames.len(),
    decreases frames.len(),
{
    if frames.len() > 0 {
        law_frame_count(start, frames.drop_last());
    }
}

/// Rollbacks do not show in the frame counter: after `n` frames from frame
/// 0 it reads `n`, also when the run was cut at `k`, some other frames were
/// simulated ahead from there and thrown away, and the run was resumed from
/// the snapshot saved at `k`.
pub proof fn law_frame_count_under_rollback(
    start: Snapshot,
    frames: Seq<Frame>,
    k: int,
    discarded: Seq<Frame>,
)
    requires
        start.frame == 0,
        0 <= k <= frames.len(),
    ensures
        run(start, frames.take(k)).frame == k,
        run(run(start, frames.take(k)), discarded).frame == k + discarded.len(),
        run(run(start, frames.take(k)), frames.skip(k)).frame == frames.len(),
{
    law_frame_count(start, frames.take(k));
    law_frame_count(run(start, frames.take(k)), discarded);
    law_replay_equivalence(start, frames, k);
    law_frame_count(start, frames);
}

/// What the rollback layer asks of the simulation, one request at a time.
pub enum Request {
    /// Keep a copy of the current snapshot under its frame number.
    Save,
    /// Put back the copy that is kept under `frame`.
    Load { frame: nat },
    /// Step forward with `events`.
    Advance { events: Frame },
}

/// The simulation under a rollback layer: the current snapshot, and the
/// copies kept so far.
pub struct Timeline {
    pub current: Snapshot,
    pub saved: Map<nat, Snapshot>,
}

impl Timeline {
    /// Nothing simulated and nothing saved.
    pub open spec fn begin(start: Snapshot) -> Timeline {
        Timeline { current: start, saved: Map::empty() }
    }

    /// The timeline after one request. Loading a frame of which no copy is
    /// kept changes nothing.
    pub open spec fn fulfil(self, request: Request) -> Timeline {
        match request {
            Request::Save => Timeline {
                saved: self.saved.insert(self.current.frame, self.current),
                ..self
            },
            Request::Load { frame } => if self.saved.dom().contains(frame) {
                Timeline { current: self.saved[frame], ..self }
            } else {
                self
            },
            Request::Advance { events } => Timeline { current: self.current.after(events), ..self },
        }
    }

    /// The timeline after a list of requests.
    pub open spec fn fulfil_all(start: Snapshot, requests: Seq<Request>) -> Timeline
        decreases requests.len(),
    {
        if requests.len() == 0 {
            Timeline::begin(start)
        } else {
            Timeline::fulfil_all(start, requests.drop_last()).fulfil(requests.last())
        }
    }
}

/// The frames that count after a list of requests: `live` are those that led
/// to the current snapshot, and `kept` holds, for each saved frame number,
/// those that led to the copy kept under it. A load throws away what was
/// stepped through since the copy was made.
pub struct Surviving {
    pub live: Seq<Frame>,
    pub kept: Map<nat, Seq<Frame>>,
}

pub open spec fn surviving(first_frame: nat, requests: Seq<Request>) -> Surviving
    decreases requests.len(),
{
    if requests.len() == 0 {
        Surviving { live: Seq::empty(), kept: Map::empty() }
    } else {
        let before = surviving(first_frame, requests.drop_last());
        match requests.last() {
            Request::Save => Surviving {
                kept: before.kept.insert(first_frame + before.live.len(), before.live),
                ..before
            },
            Request::Load { frame } => if before.kept.dom().contains(frame) {
                Surviving { live: before.kept[frame], ..before }
            } else {
                before
            },
            Request::Advance { events } => Surviving { live: before.live.push(events), ..before },
        }
    }
}

/// Rollbacks leave no trace. Whatever the rollback layer asks for, and however
/// often it saves, loads and resimulates, the current snapshot is the one
/// that a single forward run through the surviving frames gives; and so the
/// frame counter is the counter at the start plus the number of surviving
/// frames. The same holds of every copy that is kept.
pub proof fn law_rollbacks_leave_no_trace(start: Snapshot, requests: Seq<Request>)
    ensures
        Timeline::fulfil_all(start, requests).current == run(
            start,
            surviving(start.frame, requests).live,
        ),
        Timeline::fulfil_all(start, requests).current.frame == start.frame + surviving(
            start.frame,
            requests,
        ).live.len(),
        Timeline::fulfil_all(start, requests).saved.dom() == surviving(
            start.frame,
            requests,
        ).kept.dom(),
        forall|frame: nat| #[trigger]
            Timeline::fulfil_all(start, requests).saved.dom().contains(frame)
                ==> Timeline::fulfil_all(start, requests).saved[frame] == run(
                start,
                surviving(start.frame, requests).kept[frame],
            ),
    decreases requests.len(),
{
    if requests.len() > 0 {
        let earlier = requests.drop_last();
        law_rollbacks_leave_no_trace(start, earlier);
        let before = surviving(start.frame, earlier);
        law_frame_count(start, before.live);
        law_frame_count(start, surviving(start.frame, requests).live);
        match requests.last() {
            Request::Save => {},
            Request::Load { frame } => {},
            Request::Advance { events } => {
                assert(before.live.push(events).drop_last() == before.live);
                assert(before.live.push(events).last() == events);
            },
        }
        assert(Timeline::fulfil_all(start, requests).saved.dom() =~= surviving(
            start.frame,
            requests,
        ).kept.dom());
    }
}

/// A run keeps a snapshot well formed.
pub proof fn law_run_keeps_wf(start: Snapshot, frames: Seq<Frame>)
    requires
        start.wf(),
    ensures
        run(start, frames).wf(),
    decreases frames.len(),
{
    if frames.len() > 0 {
        law_run_keeps_wf(start, frames.drop_last());
        lemma_step_keeps_wf(run(start, frames.drop_last()), frames.last());
    }
}

/// One-time setup is idempotent. Building the arena or spawning the fighters
/// a second time changes nothing, in either order of the two; and on any
/// frame but frame 0 neither changes anything at all.
pub proof fn law_setup_is_idempotent(snapshot: Snapshot)
    ensures
        snapshot.with_scene().with_scene() == snapshot.with_scene(),
        snapshot.with_characters().with_characters() == snapshot.with_characters(),
        snapshot.with_scene().with_characters().with_scene().with_characters()
            == snapshot.with_scene().with_characters(),
        snapshot.frame != 0 ==> snapshot.with_scene() == snapshot && snapshot.with_characters()
            == snapshot,
{
}

} // verus!
