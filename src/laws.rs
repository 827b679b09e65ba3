use vstd::prelude::*;
use crate::segment::{Arc, Line, Segment};
use crate::trail::{continues, replay, stepped, Motion, Turn};

verus! {

/// A trail only grows: after any run of ticks it is at least as long as
/// before, and every segment but the last one it had is left unchanged.
pub proof fn lemma_replay_keeps_prefix<P, S>(segs: Seq<Segment<P, S>>, ticks: Seq<(P, Motion<P, S>)>)
    ensures
        replay(segs, ticks).len() >= segs.len(),
        replay(segs, ticks).len() <= segs.len() + ticks.len(),
        forall|i: int| 0 <= i < segs.len() - 1 ==> replay(segs, ticks)[i] == segs[i],
    decreases ticks.len(),
{
    if ticks.len() > 0 {
        lemma_replay_keeps_prefix(segs, ticks.drop_last());
    }
}

/// Straight travel starting on an empty trail leaves exactly one line, from
/// the first tick's starting point to the last tick's end point, however many
/// ticks there were.
pub proof fn lemma_straight_run<P, S>(ticks: Seq<(P, Motion<P, S>)>)
    requires
        ticks.len() > 0,
        forall|i: int| 0 <= i < ticks.len() ==> ticks[i].1 is Straight,
    ensures
        replay(Seq::<Segment<P, S>>::empty(), ticks) == seq![
            Segment::<P, S>::Line(Line { from: ticks[0].0, to: ticks.last().1->to }),
        ],
    decreases ticks.len(),
{
    let empty = Seq::<Segment<P, S>>::empty();
    if ticks.len() == 1 {
        assert(ticks.drop_last().len() == 0);
        assert(replay(empty, ticks.drop_last()) == empty);
        assert(stepped(empty, ticks[0].0, ticks[0].1) =~= seq![
            Segment::<P, S>::Line(Line { from: ticks[0].0, to: ticks[0].1->to }),
        ]);
    } else {
        let init = ticks.drop_last();
        assert forall|i: int| 0 <= i < init.len() implies init[i].1 is Straight by {
            assert(init[i] == ticks[i]);
        }
        lemma_straight_run(init);
        assert(init[0] == ticks[0]);
        let before = replay(empty, init);
        assert(stepped(before, ticks.last().0, ticks.last().1) =~= seq![
            Segment::<P, S>::Line(Line { from: ticks[0].0, to: ticks.last().1->to }),
        ]);
    }
}

/// A turn that reaches a full turn always starts a new arc from where the
/// tick started, so the trail grows by one segment.
pub proof fn lemma_full_turn_splits<P, S>(segs: Seq<Segment<P, S>>, prev: P, t: Turn<P, S>)
    requires
        t.full_turn,
    ensures
        stepped(segs, prev, Motion::Turn(t)).len() == segs.len() + 1,
        stepped(segs, prev, Motion::Turn(t)).last() == Segment::<P, S>::Arc(
            Arc { from: prev, center: t.center, radius: t.radius, angle: t.sweep },
        ),
{
}

/// Turning about one centre accumulates into a single arc: a run of turns
/// whose first tick starts a new arc and whose later ticks each keep the
/// centre without reaching a full turn adds exactly one arc, which starts
/// where the run started and carries the angle accumulated by the last tick.
pub proof fn lemma_turn_run<P, S>(segs: Seq<Segment<P, S>>, ticks: Seq<(P, Motion<P, S>)>)
    requires
        ticks.len() > 0,
        forall|i: int| 0 <= i < ticks.len() ==> ticks[i].1 is Turn,
        !continues(segs, ticks[0].1->Turn_0),
        forall|i: int|
            0 < i < ticks.len() ==> ticks[i].1->Turn_0.same_center && !ticks[i].1->Turn_0.full_turn,
    ensures
        ({
            let t0 = ticks[0].1->Turn_0;
            let angle = if ticks.len() == 1 { t0.sweep } else { ticks.last().1->Turn_0.total };
            replay(segs, ticks) == segs.push(
                Segment::Arc(Arc { from: ticks[0].0, center: t0.center, radius: t0.radius, angle }),
            )
        }),
    decreases ticks.len(),
{
    let t0 = ticks[0].1->Turn_0;
    if ticks.len() == 1 {
        assert(ticks.drop_last().len() == 0);
        assert(replay(segs, ticks.drop_last()) == segs);
    } else {
        let init = ticks.drop_last();
        assert forall|i: int| 0 <= i < init.len() implies init[i].1 is Turn by {
            assert(init[i] == ticks[i]);
        }
        assert forall|i: int| 0 < i < init.len() implies init[i].1->Turn_0.same_center
            && !init[i].1->Turn_0.full_turn by {
            assert(init[i] == ticks[i]);
        }
        assert(init[0] == ticks[0]);
        lemma_turn_run(segs, init);
        let before = replay(segs, init);
        let t = ticks.last().1->Turn_0;
        assert(continues(before, t));
        assert(stepped(before, ticks.last().0, ticks.last().1) =~= segs.push(
            Segment::Arc(Arc { from: ticks[0].0, center: t0.center, radius: t0.radius, angle: t.total }),
        ));
    }
}

} // verus!
