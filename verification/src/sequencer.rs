//! The sequencer: a lazy, forward-only, repeat-aware traversal of an
//! animation's clips, together with its mathematical model, the
//! repeat-expanded play sequence.

use vstd::prelude::*;
use crate::animation::{Animation, ClipMode, Part, PartView};

verus! {

/// Total number of plays a traversal yields: each clip plays repeat + 1
/// times, so the total is the sum of repeat_i + 1 over all clips.
pub open spec fn total_plays(parts: Seq<PartView>) -> nat
    decreases parts.len(),
{
    if parts.len() == 0 {
        0
    } else {
        parts[0].repeat + 1 + total_plays(parts.drop_first())
    }
}

/// The repeat-expanded traversal: clip i appears in an unbroken run of
/// repeat_i + 1 consecutive copies, and the runs come in declaration order.
pub open spec fn expand(parts: Seq<PartView>) -> Seq<PartView>
    decreases parts.len(),
{
    if parts.len() == 0 {
        Seq::empty()
    } else {
        Seq::new(parts[0].repeat + 1, |i: int| parts[0]) + expand(parts.drop_first())
    }
}

/// No clip replays forever, so the traversal is finite.
pub open spec fn no_forever(parts: Seq<PartView>) -> bool {
    forall|i: int| 0 <= i < parts.len() ==> parts[i].mode != ClipMode::Forever
}

/// The position of play j of clip i within the expanded traversal.
pub open spec fn play_index(parts: Seq<PartView>, i: int, j: int) -> int {
    total_plays(parts.take(i)) + j
}

/// The total play count splits at any clip boundary.
pub proof fn lemma_total_plays_split(parts: Seq<PartView>, i: int)
    requires
        0 <= i <= parts.len(),
    ensures
        total_plays(parts) == total_plays(parts.take(i)) + total_plays(parts.skip(i)),
    decreases i,
{
    if i == 0 {
        assert(parts.take(0) =~= Seq::<PartView>::empty());
        assert(parts.skip(0) =~= parts);
    } else {
        let rest = parts.drop_first();
        assert(parts.take(i).drop_first() =~= rest.take(i - 1));
        assert(parts.skip(i) =~= rest.skip(i - 1));
        lemma_total_plays_split(rest, i - 1);
    }
}

/// Extending a prefix by one clip adds that clip's plays to the count.
pub proof fn lemma_total_plays_take_succ(parts: Seq<PartView>, i: int)
    requires
        0 <= i < parts.len(),
    ensures
        total_plays(parts.take(i + 1)) == total_plays(parts.take(i)) + parts[i].repeat + 1,
    decreases i,
{
    if i == 0 {
        assert(parts.take(0) =~= Seq::<PartView>::empty());
        assert(parts.take(1).drop_first() =~= Seq::<PartView>::empty());
    } else {
        let rest = parts.drop_first();
        assert(parts.take(i + 1).drop_first() =~= rest.take(i));
        assert(parts.take(i).drop_first() =~= rest.take(i - 1));
        lemma_total_plays_take_succ(rest, i - 1);
    }
}

/// The expanded traversal holds exactly the total play count.
pub proof fn lemma_expand_len(parts: Seq<PartView>)
    ensures
        expand(parts).len() == total_plays(parts),
    decreases parts.len(),
{
    if parts.len() > 0 {
        lemma_expand_len(parts.drop_first());
    }
}

/// Play j of clip i stands at its play index within the expanded traversal.
pub proof fn lemma_expand_at(parts: Seq<PartView>, i: int, j: int)
    requires
        0 <= i < parts.len(),
        0 <= j <= parts[i].repeat,
    ensures
        0 <= play_index(parts, i, j) < expand(parts).len(),
        expand(parts)[play_index(parts, i, j)] == parts[i],
    decreases i,
{
    lemma_expand_len(parts);
    if i == 0 {
        assert(parts.take(0) =~= Seq::<PartView>::empty());
        lemma_total_plays_split(parts, 1);
        assert(parts.skip(1) =~= parts.drop_first());
        lemma_expand_len(parts.drop_first());
    } else {
        let rest = parts.drop_first();
        assert(parts.take(i).drop_first() =~= rest.take(i - 1));
        lemma_expand_at(rest, i - 1, j);
        lemma_expand_len(rest);
    }
}

/// The law of the sequencer's traversal: for clips with repeat counts
/// r_0..r_{n-1}, the expanded traversal yields exactly sum(r_i + 1) plays,
/// in declaration order, clip i filling the unbroken run of positions
/// play_index(parts, i, 0) through play_index(parts, i, r_i).
pub proof fn lemma_sequencer_expansion(parts: Seq<PartView>)
    ensures
        expand(parts).len() == total_plays(parts),
        forall|i: int, j: int|
            0 <= i < parts.len() && 0 <= j <= parts[i].repeat ==> {
                &&& 0 <= #[trigger] play_index(parts, i, j) < expand(parts).len()
                &&& expand(parts)[play_index(parts, i, j)] == parts[i]
            },
{
    lemma_expand_len(parts);
    assert forall|i: int, j: int|
        0 <= i < parts.len() && 0 <= j <= parts[i].repeat implies {
        &&& 0 <= #[trigger] play_index(parts, i, j) < expand(parts).len()
        &&& expand(parts)[play_index(parts, i, j)] == parts[i]
    } by {
        lemma_expand_at(parts, i, j);
    }
}

/// The state a fresh traversal of an animation begins in.
pub open spec fn fresh_iter<'a>(animation: &'a Animation) -> AnimationIter<'a> {
    AnimationIter {
        animation,
        current: 0,
        remaining: if animation@.len() > 0 {
            animation.parts@[0].repeat
        } else {
            0
        },
    }
}

/// A lazy, finite (absent a forever clip), forward-only traversal over an
/// animation's clips. Not restartable: each playback session constructs a
/// fresh sequencer.
pub struct AnimationIter<'a> {
    /// The animation being traversed; borrowed for the session's lifetime.
    pub animation: &'a Animation,
    /// Index of the clip the next play comes from.
    pub current: usize,
    /// Additional plays the current clip still owes after the next one.
    pub remaining: usize,
}

impl<'a> AnimationIter<'a> {
    /// The clips under traversal.
    pub open spec fn parts(self) -> Seq<PartView> {
        self.animation@
    }

    /// The cursor stays inside the clip list and the owed plays never
    /// exceed the current clip's repeat count.
    pub open spec fn wf(self) -> bool {
        &&& self.current <= self.parts().len()
        &&& self.current < self.parts().len() ==> self.remaining <= self.parts()[
            self.current as int
        ].repeat
    }

    /// How many plays have been yielded so far; the index into the expanded
    /// traversal of the play the next call yields.
    pub open spec fn pos(self) -> int {
        if self.current < self.parts().len() {
            total_plays(self.parts().take(self.current as int)) + (self.parts()[
                self.current as int
            ].repeat - self.remaining)
        } else {
            total_plays(self.parts()) as int
        }
    }

    /// The clip the next call yields.
    pub open spec fn peek(self) -> Option<PartView> {
        if self.current < self.parts().len() {
            Some(self.parts()[self.current as int])
        } else {
            None
        }
    }

    /// The sequencer state after one yield.
    pub open spec fn step(self) -> Self {
        if self.current >= self.parts().len() {
            self
        } else if self.parts()[self.current as int].mode == ClipMode::Forever {
            self
        } else if self.remaining > 0 {
            AnimationIter { remaining: (self.remaining - 1) as usize, ..self }
        } else if self.current + 1 < self.parts().len() {
            AnimationIter {
                current: (self.current + 1) as usize,
                remaining: self.animation.parts@[self.current + 1].repeat,
                ..self
            }
        } else {
            AnimationIter { current: (self.current + 1) as usize, remaining: 0, ..self }
        }
    }

    /// Yield the next play. A clip in the forever mode is yielded again and
    /// again with no state change; otherwise each call yields the play at
    /// the current position of the expanded traversal and advances by one,
    /// returning `None` exactly when the traversal is exhausted.
    pub fn next(&mut self) -> (r: Option<Part>)
        requires
            old(self).wf(),
        ensures
            final(self).wf(),
            final(self).animation == old(self).animation,
            *final(self) == old(self).step(),
            match r {
                Some(p) => old(self).peek() == Some(p@),
                None => old(self).peek() is None,
            },
            no_forever(old(self).parts()) ==> {
                &&& (r is Some <==> old(self).pos() < total_plays(old(self).parts()))
                &&& (r matches Some(p) ==> final(self).pos() == old(self).pos() + 1
                    && expand(old(self).parts())[old(self).pos()] == p@)
                &&& (r is None ==> old(self).pos() == total_plays(old(self).parts()))
            },
    {
        let ghost parts = self.parts();
        if self.current >= self.animation.parts.len() {
            return None;
        }
        let part = self.animation.parts[self.current].clone();
        let ghost c = self.current as int;
        match part.mode {
            ClipMode::Forever => {
                return Some(part);
            },
            _ => {},
        }
        proof {
            if no_forever(parts) {
                lemma_total_plays_split(parts, c);
                assert(parts.skip(c)[0] == parts[c]);
                assert(total_plays(parts.skip(c)) == parts[c].repeat + 1 + total_plays(
                    parts.skip(c).drop_first(),
                ));
                lemma_expand_at(parts, c, parts[c].repeat - self.remaining);
            }
        }
        if self.remaining > 0 {
            self.remaining = self.remaining - 1;
        } else {
            self.current = self.current + 1;
            if self.current < self.animation.parts.len() {
                self.remaining = self.animation.parts[self.current].repeat;
            } else {
                self.remaining = 0;
            }
            proof {
                if no_forever(parts) {
                    lemma_total_plays_take_succ(parts, c);
                    if c + 1 == parts.len() {
                        assert(parts.take(c + 1) =~= parts);
                    }
                }
            }
        }
        Some(part)
    }
}

impl Animation {
    /// Begin a traversal of this animation's plays, positioned at the first
    /// play of the first clip.
    pub fn into_iter(&self) -> (it: AnimationIter<'_>)
        ensures
            it == fresh_iter(self),
            it.wf(),
            it.animation == self,
            it.pos() == 0,
            it.peek() == (if self@.len() > 0 {
                Some(self@[0])
            } else {
                None::<PartView>
            }),
    {
        let remaining = if self.parts.len() > 0 {
            self.parts[0].repeat
        } else {
            0
        };
        proof {
            assert(self@.take(0) =~= Seq::<PartView>::empty());
        }
        AnimationIter { animation: self, current: 0, remaining }
    }
}

} // verus!
