//! The queue engine as mathematics: the state of the queues and what one
//! step forward or backward makes of it.
//!
//! The lookahead queue is consumed from the front. Tracks that the user
//! queued by hand come before it and leave no trace in the history. The
//! history is a stack of the tracks that were current and came from the
//! lookahead queue; stepping back pops it and undoes the step forward.

use crate::model::track::Track;
use crate::playback::Repeat;
use vstd::prelude::*;

verus! {

/// The queues of the engine at one moment.
#[verifier::ext_equal]
pub struct QueueState {
    /// The play order in effect.
    pub working: Seq<Track>,
    /// The upcoming tracks, drawn from the working list.
    pub auto_queue: Seq<Track>,
    /// The tracks that the user queued; they are played first.
    pub manual_queue: Seq<Track>,
    /// The tracks that were current and came from the lookahead queue.
    pub history: Seq<Track>,
    /// The track that is handed to the audio thread.
    pub current: Option<Track>,
    /// Whether the current track came from the lookahead queue or the history.
    pub from_auto: bool,
    pub repeat: Repeat,
}

/// One navigation step.
pub enum Step {
    Advance,
    Retreat,
}

impl QueueState {
    /// Whether the current track is one that a step forward archives and a
    /// step backward puts back into the lookahead queue.
    pub open spec fn current_is_auto(self) -> bool {
        self.from_auto && self.current is Some
    }

    /// The history once the current track has left: it is archived exactly
    /// when it came from the lookahead queue.
    pub open spec fn archived(self) -> Seq<Track> {
        if self.current_is_auto() {
            self.history.push(self.current->0)
        } else {
            self.history
        }
    }

    /// The lookahead queue that a step forward pops: the queue itself, or the
    /// working list again once the queue is exhausted and a repeat mode is on.
    pub open spec fn upcoming(self) -> Seq<Track> {
        if self.auto_queue.len() > 0 || self.repeat == Repeat::Off {
            self.auto_queue
        } else {
            self.working
        }
    }

    /// The track that a step forward yields.
    pub open spec fn next_track(self) -> Option<Track> {
        if self.manual_queue.len() > 0 {
            Some(self.manual_queue[0])
        } else if self.upcoming().len() > 0 {
            Some(self.upcoming()[0])
        } else {
            None
        }
    }

    /// The state after a step forward. Where there is no next track the state
    /// stays as it is.
    pub open spec fn advance(self) -> QueueState {
        if self.manual_queue.len() > 0 {
            QueueState {
                manual_queue: self.manual_queue.drop_first(),
                current: Some(self.manual_queue[0]),
                from_auto: false,
                ..self
            }
        } else if self.upcoming().len() > 0 {
            QueueState {
                auto_queue: self.upcoming().drop_first(),
                history: self.archived(),
                current: Some(self.upcoming()[0]),
                from_auto: true,
                ..self
            }
        } else {
            self
        }
    }

    /// The track that a step backward yields.
    pub open spec fn prev_track(self) -> Option<Track> {
        if self.history.len() > 0 {
            Some(self.history.last())
        } else {
            None
        }
    }

    /// The state after a step backward. With an empty history the state
    /// stays as it is.
    pub open spec fn retreat(self) -> QueueState {
        if self.history.len() > 0 {
            QueueState {
                auto_queue: if self.current_is_auto() {
                    seq![self.current->0] + self.auto_queue
                } else {
                    self.auto_queue
                },
                history: self.history.drop_last(),
                current: Some(self.history.last()),
                from_auto: true,
                ..self
            }
        } else {
            self
        }
    }

    /// The state after `working` was split at `anchor`: what lies before the
    /// anchor is the history, the anchor and what follows is the lookahead
    /// queue.
    pub open spec fn split_at(self, working: Seq<Track>, anchor: int) -> QueueState {
        QueueState {
            working,
            history: working.subrange(0, anchor),
            auto_queue: working.subrange(anchor, working.len() as int),
            ..self
        }
    }

    /// The state after one step of either kind.
    pub open spec fn step(self, step: Step) -> QueueState {
        match step {
            Step::Advance => self.advance(),
            Step::Retreat => self.retreat(),
        }
    }

    /// The track that one step of either kind yields.
    pub open spec fn step_track(self, step: Step) -> Option<Track> {
        match step {
            Step::Advance => self.next_track(),
            Step::Retreat => self.prev_track(),
        }
    }

    /// The state after the steps given, one after the other.
    pub open spec fn run(self, steps: Seq<Step>) -> QueueState
        decreases steps.len(),
    {
        if steps.len() == 0 {
            self
        } else {
            self.run(steps.drop_last()).step(steps.last())
        }
    }

    /// The state after `n` steps forward.
    pub open spec fn advance_by(self, n: nat) -> QueueState
        decreases n,
    {
        if n == 0 {
            self
        } else {
            self.advance_by((n - 1) as nat).advance()
        }
    }

    /// Every track of the queues that navigation can hand out or archive
    /// comes from the working list.
    pub open spec fn drawn_from_working(self) -> bool {
        &&& forall|i: int|
            0 <= i < self.auto_queue.len() ==> self.working.contains(#[trigger] self.auto_queue[i])
        &&& forall|i: int|
            0 <= i < self.history.len() ==> self.working.contains(#[trigger] self.history[i])
        &&& self.current_is_auto() ==> self.working.contains(self.current->0)
    }

    /// Whether `track` is in one of the places from which navigation alone
    /// can bring a track into the history: the history itself, the
    /// lookahead queue, the working list, or the current track if it came
    /// from the lookahead queue. The manual queue is not among them.
    pub open spec fn may_reach_history(self, track: Track) -> bool {
        ||| self.history.contains(track)
        ||| self.auto_queue.contains(track)
        ||| self.working.contains(track)
        ||| (self.current_is_auto() && self.current->0 == track)
    }
}

/// Stepping forward or backward hands out tracks of the working list only,
/// and keeps the queues drawn from it, while the manual queue is empty.
pub proof fn lemma_step_stays_in_working(q: QueueState, step: Step)
    requires
        q.drawn_from_working(),
        q.manual_queue.len() == 0,
    ensures
        q.step(step).drawn_from_working(),
        q.step(step).manual_queue.len() == 0,
        q.step(step).working == q.working,
        q.step(step).repeat == q.repeat,
        q.step_track(step) matches Some(track) ==> q.working.contains(track),
{
    let next = q.step(step);
    match step {
        Step::Advance => {
            if q.upcoming().len() > 0 {
                let up = q.upcoming();
                assert forall|i: int| 0 <= i < up.len() implies q.working.contains(
                    #[trigger] up[i],
                ) by {
                    if q.auto_queue.len() > 0 || q.repeat == Repeat::Off {
                        assert(q.working.contains(q.auto_queue[i]));
                    }
                }
                assert(q.working.contains(up[0]));
                assert forall|i: int| 0 <= i < next.auto_queue.len() implies q.working.contains(
                    #[trigger] next.auto_queue[i],
                ) by {
                    assert(next.auto_queue[i] == up[i + 1]);
                }
                assert forall|i: int| 0 <= i < next.history.len() implies q.working.contains(
                    #[trigger] next.history[i],
                ) by {
                    if i < q.history.len() {
                        assert(next.history[i] == q.history[i]);
                    }
                }
            }
        },
        Step::Retreat => {
            if q.history.len() > 0 {
                assert(q.working.contains(q.history[q.history.len() - 1]));
                assert forall|i: int| 0 <= i < next.auto_queue.len() implies q.working.contains(
                    #[trigger] next.auto_queue[i],
                ) by {
                    if q.current_is_auto() {
                        if i > 0 {
                            assert(next.auto_queue[i] == q.auto_queue[i - 1]);
                        }
                    } else {
                        assert(next.auto_queue[i] == q.auto_queue[i]);
                    }
                }
                assert forall|i: int| 0 <= i < next.history.len() implies q.working.contains(
                    #[trigger] next.history[i],
                ) by {
                    assert(next.history[i] == q.history[i]);
                }
            }
        },
    }
}

/// With an empty manual queue and repeat off, whatever sequence of steps
/// forward and backward was taken: the next step yields a track of the
/// working list if it yields one; a step forward yields none exactly when the
/// lookahead queue is exhausted; and it then leaves the state as it is, so
/// further steps forward yield none either.
pub proof fn law_navigation_stays_in_working(q: QueueState, steps: Seq<Step>, next: Step)
    requires
        q.drawn_from_working(),
        q.manual_queue.len() == 0,
        q.repeat == Repeat::Off,
    ensures
        q.run(steps).drawn_from_working(),
        q.run(steps).manual_queue.len() == 0,
        q.run(steps).working == q.working,
        q.run(steps).repeat == Repeat::Off,
        q.run(steps).step_track(next) matches Some(track) ==> q.working.contains(track),
        q.run(steps).next_track() is None <==> q.run(steps).auto_queue.len() == 0,
        q.run(steps).auto_queue.len() == 0 ==> q.run(steps).advance() == q.run(steps),
    decreases steps.len(),
{
    if steps.len() > 0 {
        law_navigation_stays_in_working(q, steps.drop_last(), steps.last());
        lemma_step_stays_in_working(q.run(steps.drop_last()), steps.last());
    }
    lemma_step_stays_in_working(q.run(steps), next);
}

/// After the working list was split at `anchor`, and while the manual queue
/// is empty, the steps forward yield the working list in its order from the
/// anchor on: step number `i`, counted from zero, yields the track at
/// `anchor + i`. Under a repeat mode the order wraps round at the end of
/// the list; with repeat off the steps past the end yield nothing.
pub proof fn law_seeded_order(q: QueueState, working: Seq<Track>, anchor: int, i: nat)
    requires
        0 <= anchor <= working.len(),
        q.manual_queue.len() == 0,
    ensures
        anchor + i < working.len() ==> q.split_at(working, anchor).advance_by(i).next_track()
            == Some(working[anchor + i]),
        anchor + i >= working.len() && q.repeat == Repeat::Off ==> q.split_at(
            working,
            anchor,
        ).advance_by(i).next_track() is None,
        working.len() > 0 && q.repeat != Repeat::Off ==> q.split_at(working, anchor).advance_by(
            i,
        ).next_track() == Some(working[(anchor + i) % (working.len() as int)]),
{
    lemma_seeded_walk(q, working, anchor, i);
    let len = working.len() as int;
    if len > 0 {
        let k = (anchor + i) % len;
        assert(0 <= k < len) by (nonlinear_arith)
            requires
                len > 0,
                k == (anchor + i) % len,
        ;
        if anchor + i < len {
            assert(k == anchor + i) by (nonlinear_arith)
                requires
                    0 <= anchor + i < len,
                    k == (anchor + i) % len,
            ;
        } else if anchor + i == len {
            assert(k == 0) by (nonlinear_arith)
                requires
                    len > 0,
                    k == len % len,
            ;
        }
    }
}

/// Where the walk from the anchor stands after `i` steps forward.
proof fn lemma_seeded_walk(q: QueueState, working: Seq<Track>, anchor: int, i: nat)
    requires
        0 <= anchor <= working.len(),
        q.manual_queue.len() == 0,
    ensures
        ({
            let s = q.split_at(working, anchor).advance_by(i);
            let len = working.len() as int;
            &&& s.working == working
            &&& s.manual_queue.len() == 0
            &&& s.repeat == q.repeat
            &&& anchor + i <= len ==> s.auto_queue == working.subrange(anchor + i, len)
            &&& anchor + i > len && q.repeat == Repeat::Off ==> s.auto_queue.len() == 0
            &&& anchor + i > len && len > 0 && q.repeat != Repeat::Off ==> {
                let k = (anchor + i) % len;
                s.auto_queue == if k == 0 {
                    Seq::<Track>::empty()
                } else {
                    working.subrange(k, len)
                }
            }
        }),
    decreases i,
{
    let start = q.split_at(working, anchor);
    let len = working.len() as int;
    if i == 0 {
    } else {
        let j = (i - 1) as nat;
        lemma_seeded_walk(q, working, anchor, j);
        let before = start.advance_by(j);
        let s = start.advance_by(i);
        assert(s == before.advance());
        if anchor + j < len {
            // The queue still holds the rest of the list.
            assert(before.auto_queue == working.subrange(anchor + j, len));
            assert(s.auto_queue =~= working.subrange(anchor + i, len));
        } else if q.repeat == Repeat::Off {
            assert(before.auto_queue.len() == 0);
        } else if len > 0 {
            let kj = (anchor + j) % len;
            let ki = (anchor + i) % len;
            assert(ki == if kj + 1 == len {
                0
            } else {
                kj + 1
            }) by (nonlinear_arith)
                requires
                    len > 0,
                    kj == (anchor + j) % len,
                    ki == (anchor + j + 1) % len,
            ;
            if anchor + j == len {
                assert(before.auto_queue.len() == 0);
                assert(kj == 0) by (nonlinear_arith)
                    requires
                        len > 0,
                        kj == len % len,
                ;
            }
            if kj == 0 {
                // The queue was exhausted: the working list starts over.
                assert(before.auto_queue.len() == 0);
                assert(before.upcoming() == working);
                assert(s.auto_queue == working.drop_first());
                if len == 1 {
                    assert(s.auto_queue =~= Seq::<Track>::empty());
                } else {
                    assert(s.auto_queue =~= working.subrange(1, len));
                }
            } else {
                assert(before.auto_queue == working.subrange(kj, len));
                if kj + 1 == len {
                    assert(s.auto_queue =~= Seq::<Track>::empty());
                } else {
                    assert(s.auto_queue =~= working.subrange(kj + 1, len));
                }
            }
        }
    }
}

/// A step forward that pops the lookahead queue is undone by a step
/// backward, as long as the track that was current came from the lookahead
/// queue and the manual queue is empty: the step backward yields the track
/// that was current before, and the state is the one before the step
/// forward, so the next step forward yields the same track again.
pub proof fn law_advance_then_retreat(q: QueueState)
    requires
        q.manual_queue.len() == 0,
        q.current_is_auto(),
        q.auto_queue.len() > 0,
    ensures
        q.advance().prev_track() == q.current,
        q.advance().retreat() == q,
        q.advance().retreat().next_track() == q.next_track(),
{
    let a = q.advance();
    let r = a.retreat();
    assert(a.history.drop_last() =~= q.history);
    assert(r.auto_queue =~= q.auto_queue);
    assert(r =~= q);
}

/// The same when the step forward had to start the working list over under
/// a repeat mode: the step backward yields the track that was current
/// before, and the next step forward yields the same track as the first.
pub proof fn law_advance_then_retreat_at_wrap(q: QueueState)
    requires
        q.manual_queue.len() == 0,
        q.current_is_auto(),
        q.next_track() is Some,
    ensures
        q.advance().prev_track() == q.current,
        q.advance().retreat().current == q.current,
        q.advance().retreat().next_track() == q.next_track(),
{
    let a = q.advance();
    let r = a.retreat();
    assert(r.auto_queue[0] == q.upcoming()[0]);
}

/// A track taken from the manual queue leaves no trace: the step that
/// consumes it leaves the history as it is, and the step after it, forward or
/// backward, neither archives it nor puts it into the lookahead queue.
pub proof fn law_manual_track_is_not_archived(q: QueueState, after: Step)
    requires
        q.manual_queue.len() > 0,
    ensures
        q.advance().current == Some(q.manual_queue[0]),
        q.advance().history == q.history,
        q.advance().auto_queue == q.auto_queue,
        q.advance().step(after).history == q.history || q.advance().step(after).history
            == q.history.drop_last(),
        after == Step::Retreat ==> q.advance().step(after).auto_queue == q.auto_queue,
{
}

/// Navigation brings no track into the history that was not in the
/// history, the lookahead queue or the working list before, or was the
/// current track taken from the lookahead queue. So a track that stands in
/// the manual queue only is never found in the history, whatever steps are
/// taken.
pub proof fn law_manual_queue_isolation(q: QueueState, steps: Seq<Step>, track: Track)
    requires
        !q.may_reach_history(track),
    ensures
        !q.run(steps).may_reach_history(track),
        !q.run(steps).history.contains(track),
    decreases steps.len(),
{
    if steps.len() > 0 {
        let before = q.run(steps.drop_last());
        law_manual_queue_isolation(q, steps.drop_last(), track);
        lemma_step_keeps_sources(before, steps.last(), track);
    }
}

/// One step brings no track to where it may reach the history from.
proof fn lemma_step_keeps_sources(q: QueueState, step: Step, track: Track)
    requires
        !q.may_reach_history(track),
    ensures
        !q.step(step).may_reach_history(track),
{
    let next = q.step(step);
    match step {
        Step::Advance => {
            if q.manual_queue.len() > 0 {
            } else if q.upcoming().len() > 0 {
                let up = q.upcoming();
                assert(!up.contains(track));
                if next.auto_queue.contains(track) {
                    let i = choose|i: int|
                        0 <= i < next.auto_queue.len() && next.auto_queue[i] == track;
                    assert(up[i + 1] == track);
                }
                if next.history.contains(track) {
                    let i = choose|i: int| 0 <= i < next.history.len() && next.history[i] == track;
                    if i < q.history.len() {
                        assert(q.history[i] == track);
                    }
                }
                assert(up.contains(up[0]));
            }
        },
        Step::Retreat => {
            if q.history.len() > 0 {
                if next.history.contains(track) {
                    let i = choose|i: int| 0 <= i < next.history.len() && next.history[i] == track;
                    assert(q.history[i] == track);
                }
                if next.auto_queue.contains(track) {
                    let i = choose|i: int|
                        0 <= i < next.auto_queue.len() && next.auto_queue[i] == track;
                    if q.current_is_auto() {
                        if i > 0 {
                            assert(q.auto_queue[i - 1] == track);
                        }
                    } else {
                        assert(q.auto_queue[i] == track);
                    }
                }
                assert(q.history.contains(q.history.last()));
            }
        },
    }
}

} // verus!
