use vstd::prelude::*;
use crate::segment::{Arc, Line, Segment};

verus! {

/// A tick of circular motion, with what the geometry found when comparing it
/// to the trail's last segment (meaningful only when that segment is an arc).
#[derive(Clone, Copy, Debug)]
pub struct Turn<P, S> {
    /// Centre of the turning circle.
    pub center: P,
    /// Radius of the turning circle (its magnitude).
    pub radius: S,
    /// Signed angle swept during this tick.
    pub sweep: S,
    /// The turning circle's centre lies within tolerance of the last arc's centre.
    pub same_center: bool,
    /// The last arc's angle with `sweep` added.
    pub total: S,
    /// The magnitude of `total` reaches a full turn.
    pub full_turn: bool,
}

/// What the mover did during one tick.
#[derive(Clone, Copy, Debug)]
pub enum Motion<P, S> {
    /// No displacement (zero velocity).
    Still,
    /// Straight travel, ending at `to`.
    Straight { to: P },
    /// Circular travel.
    Turn(Turn<P, S>),
}

/// Whether a turn extends the last segment of `segs` instead of starting a new arc.
pub open spec fn continues<P, S>(segs: Seq<Segment<P, S>>, t: Turn<P, S>) -> bool {
    &&& segs.len() > 0
    &&& segs.last() is Arc
    &&& t.same_center
    &&& !t.full_turn
}

/// The segment sequence after one tick that started at `prev`.
pub open spec fn stepped<P, S>(segs: Seq<Segment<P, S>>, prev: P, m: Motion<P, S>) -> Seq<Segment<P, S>> {
    match m {
        Motion::Still => segs,
        Motion::Straight { to } => {
            if segs.len() > 0 && segs.last() is Line {
                let l = segs.last()->Line_0;
                segs.update(segs.len() - 1, Segment::Line(Line { from: l.from, to }))
            } else {
                segs.push(Segment::Line(Line { from: prev, to }))
            }
        },
        Motion::Turn(t) => {
            if continues(segs, t) {
                let a = segs.last()->Arc_0;
                segs.update(
                    segs.len() - 1,
                    Segment::Arc(Arc { from: a.from, center: a.center, radius: a.radius, angle: t.total }),
                )
            } else {
                segs.push(
                    Segment::Arc(Arc { from: prev, center: t.center, radius: t.radius, angle: t.sweep }),
                )
            }
        },
    }
}

/// The segment sequence after a run of ticks, each given as its starting
/// position and its motion, applied in order.
pub open spec fn replay<P, S>(segs: Seq<Segment<P, S>>, ticks: Seq<(P, Motion<P, S>)>) -> Seq<Segment<P, S>>
    decreases ticks.len(),
{
    if ticks.len() == 0 {
        segs
    } else {
        let t = ticks.last();
        stepped(replay(segs, ticks.drop_last()), t.0, t.1)
    }
}

/// The ordered, append-only sequence of segments left behind by one mover,
/// with a flag per segment telling whether a leading edge has touched it.
pub struct Trail<P, S> {
    segs: Vec<Segment<P, S>>,
    hit: Vec<bool>,
}

impl<P: Copy, S: Copy> View for Trail<P, S> {
    type V = Seq<Segment<P, S>>;

    closed spec fn view(&self) -> Seq<Segment<P, S>> {
        self.segs@
    }
}

impl<P: Copy, S: Copy> Trail<P, S> {
    /// The collided flags, one per segment.
    pub closed spec fn flags(&self) -> Seq<bool> {
        self.hit@
    }

    pub closed spec fn wf(&self) -> bool {
        self.segs@.len() == self.hit@.len()
    }

    /// An empty trail.
    pub fn new() -> (t: Self)
        ensures
            t.wf(),
            t@ == Seq::<Segment<P, S>>::empty(),
            t.flags() == Seq::<bool>::empty(),
    {
        Trail { segs: Vec::new(), hit: Vec::new() }
    }

    pub fn len(&self) -> (n: usize)
        ensures
            n == self@.len(),
    {
        self.segs.len()
    }

    /// The segment at index `i`.
    pub fn segment(&self, i: usize) -> (s: Segment<P, S>)
        requires
            i < self@.len(),
        ensures
            s == self@[i as int],
    {
        self.segs[i]
    }

    /// Whether the segment at index `i` has been touched.
    pub fn is_collided(&self, i: usize) -> (c: bool)
        requires
            self.wf(),
            i < self@.len(),
        ensures
            c == self.flags()[i as int],
    {
        self.hit[i]
    }

    /// Index of the last segment, the one the mover is currently extending.
    pub fn tail(&self) -> (r: Option<usize>)
        ensures
            r == (if self@.len() == 0 { None } else { Some((self@.len() - 1) as usize) }),
    {
        if self.segs.len() == 0 {
            None
        } else {
            Some(self.segs.len() - 1)
        }
    }

    /// The last segment, if any.
    pub fn last(&self) -> (r: Option<Segment<P, S>>)
        ensures
            r == (if self@.len() == 0 { None } else { Some(self@.last()) }),
    {
        if self.segs.len() == 0 {
            None
        } else {
            Some(self.segs[self.segs.len() - 1])
        }
    }

    /// Records one tick of motion that started at `prev`: a straight tick
    /// extends a last line or appends a new one; a turn extends a last arc with
    /// the same centre while it stays under a full turn, else appends a new arc.
    /// Only the last segment ever changes; earlier ones stay as they are.
    pub fn step(&mut self, prev: P, m: Motion<P, S>)
        requires
            old(self).wf(),
            old(self)@.len() < usize::MAX,
        ensures
            final(self).wf(),
            final(self)@ == stepped(old(self)@, prev, m),
            final(self)@.len() == old(self)@.len() || final(self)@.len() == old(self)@.len() + 1,
            forall|i: int| 0 <= i < old(self)@.len() - 1 ==> final(self)@[i] == old(self)@[i],
            final(self).flags().len() == final(self)@.len(),
            forall|i: int| 0 <= i < old(self)@.len() ==> final(self).flags()[i] == old(self).flags()[i],
            final(self)@.len() == old(self)@.len() + 1 ==> !final(self).flags().last(),
    {
        let n = self.segs.len();
        match m {
            Motion::Still => {},
            Motion::Straight { to } => {
                let mut extended = false;
                if n > 0 {
                    if let Segment::Line(l) = self.segs[n - 1] {
                        self.segs.set(n - 1, Segment::Line(Line { from: l.from, to }));
                        extended = true;
                    }
                }
                if !extended {
                    self.segs.push(Segment::Line(Line { from: prev, to }));
                    self.hit.push(false);
                }
            },
            Motion::Turn(t) => {
                let mut extended = false;
                if n > 0 && t.same_center && !t.full_turn {
                    if let Segment::Arc(a) = self.segs[n - 1] {
                        self.segs.set(
                            n - 1,
                            Segment::Arc(Arc { from: a.from, center: a.center, radius: a.radius, angle: t.total }),
                        );
                        extended = true;
                    }
                }
                if !extended {
                    self.segs.push(
                        Segment::Arc(Arc { from: prev, center: t.center, radius: t.radius, angle: t.sweep }),
                    );
                    self.hit.push(false);
                }
            },
        }
    }

    /// Indices, in increasing order, of the segments that `touches` accepts:
    /// every segment is tested once, independently of the others.
    pub fn touched<F: Fn(Segment<P, S>) -> bool>(&self, touches: F) -> (r: Vec<usize>)
        requires
            forall|s: Segment<P, S>| touches.requires((s,)),
        ensures
            forall|k: int, l: int| 0 <= k < l < r@.len() ==> r@[k] < r@[l],
            forall|k: int|
                0 <= k < r@.len() ==> r@[k] < self@.len() && touches.ensures((self@[r@[k] as int],), true),
            forall|i: int|
                0 <= i < self@.len() && !r@.contains(i as usize) ==> touches.ensures((self@[i],), false),
    {
        let mut r: Vec<usize> = Vec::new();
        let n = self.len();
        let mut i: usize = 0;
        while i < n
            invariant
                n == self@.len(),
                i <= n,
                forall|s: Segment<P, S>| touches.requires((s,)),
                forall|k: int, l: int| 0 <= k < l < r@.len() ==> r@[k] < r@[l],
                forall|k: int| 0 <= k < r@.len() ==> r@[k] < i,
                forall|k: int|
                    0 <= k < r@.len() ==> touches.ensures((self@[r@[k] as int],), true),
                forall|j: int|
                    0 <= j < i && !r@.contains(j as usize) ==> touches.ensures((self@[j],), false),
            decreases n - i,
        {
            let s = self.segment(i);
            let ghost r0 = r@;
            let b = touches(s);
            if b {
                r.push(i);
                assert(r@[r@.len() - 1] == i);
            }
            proof {
                assert forall|j: int|
                    0 <= j < i + 1 && !r@.contains(j as usize) implies touches.ensures(
                    (self@[j],),
                    false,
                ) by {
                    if j < i {
                        if r0.contains(j as usize) {
                            let k = choose|k: int| 0 <= k < r0.len() && r0[k] == j as usize;
                            assert(r@[k] == j as usize);
                        }
                    }
                }
            }
            i = i + 1;
        }
        r
    }

    /// Flags the segments at the given indices as collided. Flags are never
    /// cleared; indices past the end are ignored.
    pub fn mark_collided(&mut self, touched: &Vec<usize>)
        requires
            old(self).wf(),
        ensures
            final(self).wf(),
            final(self)@ == old(self)@,
            forall|i: int|
                0 <= i < final(self)@.len() ==> final(self).flags()[i] == (old(self).flags()[i]
                    || touched@.contains(i as usize)),
    {
        let mut k: usize = 0;
        while k < touched.len()
            invariant
                self.wf(),
                self@ == old(self)@,
                k <= touched@.len(),
                old(self).wf(),
                forall|i: int|
                    0 <= i < self@.len() ==> self.flags()[i] == (old(self).flags()[i] || exists|m: int|
                        0 <= m < k && touched@[m] == i),
            decreases touched@.len() - k,
        {
            let i = touched[k];
            if i < self.hit.len() {
                self.hit.set(i, true);
            }
            proof {
                assert forall|j: int| 0 <= j < self@.len() implies self.flags()[j] == (old(self).flags()[j]
                    || exists|m: int| 0 <= m < k + 1 && touched@[m] == j) by {
                    if j == i {
                        assert(touched@[k as int] == j);
                    } else {
                        if exists|m: int| 0 <= m < k + 1 && touched@[m] == j {
                            let m = choose|m: int| 0 <= m < k + 1 && touched@[m] == j;
                            assert(m < k);
                        }
                    }
                }
            }
            k = k + 1;
        }
        let n = self.segs.len();
        proof {
            assert forall|j: int| 0 <= j < self@.len() implies self.flags()[j] == (old(self).flags()[j]
                || touched@.contains(j as usize)) by {
                assert(j < n);
                if exists|m: int| 0 <= m < touched@.len() && touched@[m] == j {
                    let m = choose|m: int| 0 <= m < touched@.len() && touched@[m] == j;
                    assert(touched@[m] == j as usize);
                } else if touched@.contains(j as usize) {
                    let m = choose|m: int| 0 <= m < touched@.len() && touched@[m] == j as usize;
                    assert(touched@[m] == j);
                }
            }
        }
    }
}

} // verus!
