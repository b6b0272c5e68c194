//! The discrete half of multi-touch gesture detection.
//!
//! A [`GestureTracker`] follows the touches that are down, by id, and
//! decides from their count which gesture a move or a lift can make: a
//! pinch with as many fingers as the configuration asks, a pan with one
//! finger once it has moved far enough, a tap or the end of a pan when the
//! last finger lifts. What each touch holds (positions, times) is a type
//! parameter that the tracker only stores and hands back; the distances and
//! durations that the thresholds compare are measured by the caller.

use vstd::prelude::*;
use crate::seq_search::{first_where, is_first_where, lemma_first_where_none, lemma_first_where_unique};

verus! {

/// A touch that is down, with its id.
pub struct TouchEntry<T> {
    pub id: u64,
    pub touch: T,
}

/// What a touch move makes.
#[derive(Debug, Clone, Copy, PartialEq, Eq, Structural)]
pub enum MoveGesture {
    /// No gesture.
    Nothing,
    /// The touches down make a pinch; it is measured on the first two.
    Pinch,
    /// A pan of the single touch.
    Pan,
}

/// What lifting a touch makes.
#[derive(Debug, Clone, Copy, PartialEq, Eq, Structural)]
pub enum EndGesture {
    /// Touches remain down: no gesture yet.
    Nothing,
    /// The last touch lifted after a pan: a flick or the end of the pan.
    PanEnd,
    /// The last touch lifted without a pan: a tap, if it was short and near.
    TapCandidate,
}

/// The test that accepts the touches with id `id`.
pub open spec fn touch_has_id<T>(id: u64) -> spec_fn(TouchEntry<T>) -> bool {
    |e: TouchEntry<T>| e.id == id
}

/// The gesture a move makes with `count` touches down, `pinch_count` of
/// which make a pinch, when a pan has or has not started and the single
/// touch has or has not moved far enough to start one.
pub open spec fn move_gesture_of(count: nat, pinch_count: nat, pan_started: bool, moved_far: bool) -> MoveGesture {
    if count == pinch_count {
        MoveGesture::Pinch
    } else if count == 1 && (pan_started || moved_far) {
        MoveGesture::Pan
    } else {
        MoveGesture::Nothing
    }
}

/// Tracks the touches that are down and whether a pan is under way.
pub struct GestureTracker<T> {
    touches: Vec<TouchEntry<T>>,
    tracking: bool,
    pan_started: bool,
    pinch_touch_count: usize,
}

impl<T> GestureTracker<T> {
    /// The touches that are down, in the order they came down.
    pub closed spec fn down(&self) -> Seq<TouchEntry<T>> {
        self.touches@
    }

    /// Whether a gesture is being tracked.
    pub closed spec fn tracks(&self) -> bool {
        self.tracking
    }

    /// Whether a pan has started.
    pub closed spec fn panning(&self) -> bool {
        self.pan_started
    }

    /// How many touches make a pinch.
    pub closed spec fn pinch_count(&self) -> nat {
        self.pinch_touch_count as nat
    }

    /// No touch down, where `pinch_touch_count` touches make a pinch.
    pub fn new(pinch_touch_count: usize) -> (r: Self)
        ensures
            r.down() == Seq::<TouchEntry<T>>::empty(),
            !r.tracks(),
            !r.panning(),
            r.pinch_count() == pinch_touch_count,
    {
        GestureTracker { touches: Vec::new(), tracking: false, pan_started: false, pinch_touch_count }
    }

    /// A touch came down. Returns whether the touches now down make a
    /// pinch, so that its starting distance is to be measured.
    pub fn start(&mut self, id: u64, touch: T) -> (r: bool)
        ensures
            final(self).down() == old(self).down().push(TouchEntry { id, touch }),
            final(self).tracks(),
            final(self).panning() == old(self).panning(),
            final(self).pinch_count() == old(self).pinch_count(),
            r == (final(self).down().len() == old(self).pinch_count()),
    {
        self.touches.push(TouchEntry { id, touch });
        self.tracking = true;
        self.touches.len() == self.pinch_touch_count
    }

    /// Position of the first touch with id `id`.
    pub fn find(&self, id: u64) -> (r: Option<usize>)
        ensures
            r matches Some(i) ==> i < self.down().len() && first_where(self.down(), touch_has_id::<T>(id)) == Some(i as int),
            r is None ==> first_where(self.down(), touch_has_id::<T>(id)) is None,
    {
        let ghost p = touch_has_id::<T>(id);
        let n = self.touches.len();
        let mut i: usize = 0;
        while i < n
            invariant
                n == self.touches@.len(),
                i <= n,
                p == touch_has_id::<T>(id),
                forall|j: int| 0 <= j < i ==> !p(#[trigger] self.touches@[j]),
            decreases n - i,
        {
            if self.touches[i].id == id {
                proof {
                    assert(is_first_where(self.touches@, p, i as int));
                    lemma_first_where_unique(self.touches@, p, i as int);
                }
                return Some(i);
            }
            i = i + 1;
        }
        proof {
            lemma_first_where_none(self.touches@, p);
        }
        None
    }

    /// The touches that are down, in the order they came down.
    pub fn touches(&self) -> (r: &[TouchEntry<T>])
        ensures
            r@ == self.down(),
    {
        self.touches.as_slice()
    }

    /// The touch at position `i`, to update it in place.
    pub fn touch_at_mut(&mut self, i: usize) -> (r: &mut T)
        requires
            i < old(self).down().len(),
        ensures
            *r == old(self).down()[i as int].touch,
            final(self).down() == old(self).down().update(
                i as int,
                TouchEntry { id: old(self).down()[i as int].id, touch: *final(r) },
            ),
            final(self).tracks() == old(self).tracks(),
            final(self).panning() == old(self).panning(),
            final(self).pinch_count() == old(self).pinch_count(),
    {
        &mut self.touches[i].touch
    }

    /// The gesture that a move of a touch that is down makes, where
    /// `moved_far` tells whether the first touch is now at least the pan
    /// distance from where it came down. A single touch that moved far
    /// enough starts a pan.
    pub fn move_gesture(&mut self, moved_far: bool) -> (r: MoveGesture)
        ensures
            r == move_gesture_of(old(self).down().len(), old(self).pinch_count(), old(self).panning(), moved_far),
            final(self).panning() == (old(self).panning() || r == MoveGesture::Pan),
            final(self).down() == old(self).down(),
            final(self).tracks() == old(self).tracks(),
            final(self).pinch_count() == old(self).pinch_count(),
    {
        let n = self.touches.len();
        if n == self.pinch_touch_count {
            MoveGesture::Pinch
        } else if n == 1 && !self.pan_started && moved_far {
            self.pan_started = true;
            MoveGesture::Pan
        } else if n == 1 && self.pan_started {
            MoveGesture::Pan
        } else {
            MoveGesture::Nothing
        }
    }

    /// The touch at position `i` lifted. Returns whether a pinch ended (the
    /// touches down made one), and the gesture the lift makes: none while
    /// touches remain down, otherwise the end of a pan if one had started
    /// and a tap candidate if not. Lifting the last touch ends the tracking
    /// and the pan.
    pub fn end_at(&mut self, i: usize) -> (r: (bool, EndGesture))
        requires
            i < old(self).down().len(),
        ensures
            r.0 == (old(self).down().len() == old(self).pinch_count()),
            final(self).down() == old(self).down().remove(i as int),
            final(self).pinch_count() == old(self).pinch_count(),
            final(self).down().len() == 0 ==> {
                &&& !final(self).tracks()
                &&& !final(self).panning()
                &&& r.1 == (if old(self).panning() { EndGesture::PanEnd } else { EndGesture::TapCandidate })
            },
            final(self).down().len() > 0 ==> {
                &&& final(self).tracks() == old(self).tracks()
                &&& final(self).panning() == old(self).panning()
                &&& r.1 == EndGesture::Nothing
            },
    {
        let pinch_ended = self.touches.len() == self.pinch_touch_count;
        self.touches.remove(i);
        if self.touches.len() == 0 {
            let g = if self.pan_started {
                EndGesture::PanEnd
            } else {
                EndGesture::TapCandidate
            };
            self.tracking = false;
            self.pan_started = false;
            (pinch_ended, g)
        } else {
            (pinch_ended, EndGesture::Nothing)
        }
    }

    /// Forget every touch and the pan.
    pub fn reset(&mut self)
        ensures
            final(self).down() == Seq::<TouchEntry<T>>::empty(),
            !final(self).tracks(),
            !final(self).panning(),
            final(self).pinch_count() == old(self).pinch_count(),
    {
        self.touches.clear();
        self.tracking = false;
        self.pan_started = false;
    }

    /// Number of touches down.
    pub fn touch_count(&self) -> (r: usize)
        ensures
            r == self.down().len(),
    {
        self.touches.len()
    }

    /// Whether a gesture is being tracked.
    pub fn is_tracking(&self) -> (r: bool)
        ensures
            r == self.tracks(),
    {
        self.tracking
    }

    /// Whether a pan has started.
    pub fn is_panning(&self) -> (r: bool)
        ensures
            r == self.panning(),
    {
        self.pan_started
    }
}

} // verus!
