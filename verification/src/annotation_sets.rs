//! The markers and price lines of a pane.
//!
//! A [`MarkerSet`] and a [`PriceLineSet`] keep their items in the order
//! they were added, each with what lookups read of it: its id, the price
//! scale it belongs to and, for a marker, its timestamp. The items
//! themselves (prices, colours, labels) are a type parameter that the sets
//! only store and hand back.

use vstd::prelude::*;
use crate::annotations::{MarkerId, PriceLineId};
use crate::seq_search::{
    first_where, is_first_where, lemma_first_where_none, lemma_first_where_push, lemma_first_where_unique,
    lemma_picked_take, picked,
};

verus! {

/// The price scale a marker or price line belongs to.
#[derive(Debug, Clone, Copy, PartialEq, Eq, Hash, Structural)]
pub enum PriceScaleId {
    Left,
    Right,
}

impl PriceScaleId {
    /// The scale items belong to unless they say otherwise.
    pub fn default_scale() -> (r: Self)
        ensures
            r == PriceScaleId::Right,
    {
        PriceScaleId::Right
    }
}

/// A marker in a set, with what lookups read of it.
pub struct MarkerEntry<M> {
    pub id: MarkerId,
    pub timestamp: u64,
    pub scale_id: PriceScaleId,
    pub marker: M,
}

/// A price line in a set, with what lookups read of it.
pub struct PriceLineEntry<L> {
    pub id: PriceLineId,
    pub scale_id: PriceScaleId,
    pub line: L,
}

/// The test that accepts the markers with id `id`.
pub open spec fn marker_has_id<M>(id: Seq<char>) -> spec_fn(MarkerEntry<M>) -> bool {
    |e: MarkerEntry<M>| e.id.0@ == id
}

/// The test that accepts the markers with a timestamp in `[start, end]`.
pub open spec fn marker_in_range<M>(start: u64, end: u64) -> spec_fn(MarkerEntry<M>) -> bool {
    |e: MarkerEntry<M>| start <= e.timestamp && e.timestamp <= end
}

/// The test that accepts the markers of scale `scale`.
pub open spec fn marker_on_scale<M>(scale: PriceScaleId) -> spec_fn(MarkerEntry<M>) -> bool {
    |e: MarkerEntry<M>| e.scale_id == scale
}

/// A marker entry as it is.
pub open spec fn whole_marker<M>() -> spec_fn(MarkerEntry<M>) -> MarkerEntry<M> {
    |e: MarkerEntry<M>| e
}

/// The test that accepts the price lines with id `id`.
pub open spec fn line_has_id<L>(id: Seq<char>) -> spec_fn(PriceLineEntry<L>) -> bool {
    |e: PriceLineEntry<L>| e.id.0@ == id
}

/// The test that accepts the price lines of scale `scale`.
pub open spec fn line_on_scale<L>(scale: PriceScaleId) -> spec_fn(PriceLineEntry<L>) -> bool {
    |e: PriceLineEntry<L>| e.scale_id == scale
}

/// A price line entry as it is.
pub open spec fn whole_line<L>() -> spec_fn(PriceLineEntry<L>) -> PriceLineEntry<L> {
    |e: PriceLineEntry<L>| e
}

/// A collection of markers for a pane, in the order they were added.
pub struct MarkerSet<M> {
    markers: Vec<MarkerEntry<M>>,
}

impl<M> View for MarkerSet<M> {
    type V = Seq<MarkerEntry<M>>;

    /// The entries, in the order they were added.
    closed spec fn view(&self) -> Seq<MarkerEntry<M>> {
        self.markers@
    }
}

impl<M> MarkerSet<M> {
    pub fn new() -> (r: Self)
        ensures
            r@ == Seq::<MarkerEntry<M>>::empty(),
    {
        MarkerSet { markers: Vec::new() }
    }

    /// Add a marker after the others.
    pub fn add(&mut self, entry: MarkerEntry<M>)
        ensures
            final(self)@ == old(self)@.push(entry),
    {
        self.markers.push(entry);
    }

    /// Position of the first marker with id `id`.
    fn position(&self, id: &MarkerId) -> (r: Option<usize>)
        ensures
            r matches Some(i) ==> i < self@.len() && first_where(self@, marker_has_id(id.0@)) == Some(i as int),
            r is None ==> first_where(self@, marker_has_id::<M>(id.0@)) is None,
    {
        let ghost p = marker_has_id::<M>(id.0@);
        let n = self.markers.len();
        let mut i: usize = 0;
        while i < n
            invariant
                n == self.markers@.len(),
                i <= n,
                p == marker_has_id::<M>(id.0@),
                forall|j: int| 0 <= j < i ==> !p(#[trigger] self.markers@[j]),
            decreases n - i,
        {
            if self.markers[i].id == *id {
                proof {
                    assert(is_first_where(self@, p, i as int));
                    lemma_first_where_unique(self@, p, i as int);
                }
                return Some(i);
            }
            i = i + 1;
        }
        proof {
            lemma_first_where_none(self@, p);
        }
        None
    }

    /// Remove the first marker with id `id`. Returns whether there was one.
    pub fn remove(&mut self, id: &MarkerId) -> (r: bool)
        ensures
            r == first_where(old(self)@, marker_has_id::<M>(id.0@)) is Some,
            final(self)@ == (match first_where(old(self)@, marker_has_id::<M>(id.0@)) {
                Some(i) => old(self)@.remove(i),
                None => old(self)@,
            }),
    {
        match self.position(id) {
            Some(pos) => {
                self.markers.remove(pos);
                true
            },
            None => false,
        }
    }

    /// The first marker with id `id`.
    pub fn get(&self, id: &MarkerId) -> (r: Option<&MarkerEntry<M>>)
        ensures
            r == (match first_where(self@, marker_has_id::<M>(id.0@)) {
                Some(i) => Some(&self@[i]),
                None => None,
            }),
    {
        match self.position(id) {
            Some(i) => Some(&self.markers[i]),
            None => None,
        }
    }

    /// All markers, in the order they were added.
    pub fn all(&self) -> (r: &[MarkerEntry<M>])
        ensures
            r@ == self@,
    {
        self.markers.as_slice()
    }

    /// The markers with a timestamp in `[start, end]`, in order.
    pub fn in_range(&self, start: u64, end: u64) -> (r: Vec<&MarkerEntry<M>>)
        ensures
            r@.map_values(|m: &MarkerEntry<M>| *m) == picked(self@, marker_in_range::<M>(start, end), whole_marker::<M>()),
    {
        let ghost p = marker_in_range::<M>(start, end);
        let ghost f = whole_marker::<M>();
        let mut out: Vec<&MarkerEntry<M>> = Vec::new();
        let n = self.markers.len();
        let mut i: usize = 0;
        while i < n
            invariant
                n == self.markers@.len(),
                i <= n,
                p == marker_in_range::<M>(start, end),
                f == whole_marker::<M>(),
                out@.map_values(|m: &MarkerEntry<M>| *m) == picked(self.markers@.take(i as int), p, f),
            decreases n - i,
        {
            proof {
                lemma_picked_take(self.markers@, p, f, i as int);
            }
            let e = &self.markers[i];
            if start <= e.timestamp && e.timestamp <= end {
                let ghost before = out@;
                out.push(e);
                assert(out@.map_values(|m: &MarkerEntry<M>| *m) =~= before.map_values(|m: &MarkerEntry<M>| *m).push(*e));
            }
            i = i + 1;
        }
        proof {
            assert(self.markers@.take(n as int) =~= self.markers@);
        }
        out
    }

    /// The markers of scale `scale_id`, in order.
    pub fn for_scale(&self, scale_id: &PriceScaleId) -> (r: Vec<&MarkerEntry<M>>)
        ensures
            r@.map_values(|m: &MarkerEntry<M>| *m) == picked(self@, marker_on_scale::<M>(*scale_id), whole_marker::<M>()),
    {
        let ghost p = marker_on_scale::<M>(*scale_id);
        let ghost f = whole_marker::<M>();
        let mut out: Vec<&MarkerEntry<M>> = Vec::new();
        let n = self.markers.len();
        let mut i: usize = 0;
        while i < n
            invariant
                n == self.markers@.len(),
                i <= n,
                p == marker_on_scale::<M>(*scale_id),
                f == whole_marker::<M>(),
                out@.map_values(|m: &MarkerEntry<M>| *m) == picked(self.markers@.take(i as int), p, f),
            decreases n - i,
        {
            proof {
                lemma_picked_take(self.markers@, p, f, i as int);
            }
            let e = &self.markers[i];
            if e.scale_id == *scale_id {
                let ghost before = out@;
                out.push(e);
                assert(out@.map_values(|m: &MarkerEntry<M>| *m) =~= before.map_values(|m: &MarkerEntry<M>| *m).push(*e));
            }
            i = i + 1;
        }
        proof {
            assert(self.markers@.take(n as int) =~= self.markers@);
        }
        out
    }

    /// Number of markers.
    pub fn len(&self) -> (r: usize)
        ensures
            r == self@.len(),
    {
        self.markers.len()
    }

    /// Whether the set holds no marker.
    pub fn is_empty(&self) -> (r: bool)
        ensures
            r == (self@.len() == 0),
    {
        self.markers.len() == 0
    }
}

impl<M> Default for MarkerSet<M> {
    fn default() -> (r: Self)
        ensures
            r@ == Seq::<MarkerEntry<M>>::empty(),
    {
        Self::new()
    }
}

/// A collection of price lines for a pane, in the order they were added.
pub struct PriceLineSet<L> {
    lines: Vec<PriceLineEntry<L>>,
}

impl<L> View for PriceLineSet<L> {
    type V = Seq<PriceLineEntry<L>>;

    /// The entries, in the order they were added.
    closed spec fn view(&self) -> Seq<PriceLineEntry<L>> {
        self.lines@
    }
}

impl<L> PriceLineSet<L> {
    pub fn new() -> (r: Self)
        ensures
            r@ == Seq::<PriceLineEntry<L>>::empty(),
    {
        PriceLineSet { lines: Vec::new() }
    }

    /// Add a price line after the others.
    pub fn add(&mut self, entry: PriceLineEntry<L>)
        ensures
            final(self)@ == old(self)@.push(entry),
    {
        self.lines.push(entry);
    }

    /// Position of the first price line with id `id`.
    fn position(&self, id: &PriceLineId) -> (r: Option<usize>)
        ensures
            r matches Some(i) ==> i < self@.len() && first_where(self@, line_has_id(id.0@)) == Some(i as int),
            r is None ==> first_where(self@, line_has_id::<L>(id.0@)) is None,
    {
        let ghost p = line_has_id::<L>(id.0@);
        let n = self.lines.len();
        let mut i: usize = 0;
        while i < n
            invariant
                n == self.lines@.len(),
                i <= n,
                p == line_has_id::<L>(id.0@),
                forall|j: int| 0 <= j < i ==> !p(#[trigger] self.lines@[j]),
            decreases n - i,
        {
            if self.lines[i].id == *id {
                proof {
                    assert(is_first_where(self@, p, i as int));
                    lemma_first_where_unique(self@, p, i as int);
                }
                return Some(i);
            }
            i = i + 1;
        }
        proof {
            lemma_first_where_none(self@, p);
        }
        None
    }

    /// Remove the first price line with id `id`. Returns whether there was one.
    pub fn remove(&mut self, id: &PriceLineId) -> (r: bool)
        ensures
            r == first_where(old(self)@, line_has_id::<L>(id.0@)) is Some,
            final(self)@ == (match first_where(old(self)@, line_has_id::<L>(id.0@)) {
                Some(i) => old(self)@.remove(i),
                None => old(self)@,
            }),
    {
        match self.position(id) {
            Some(pos) => {
                self.lines.remove(pos);
                true
            },
            None => false,
        }
    }

    /// The first price line with id `id`.
    pub fn get(&self, id: &PriceLineId) -> (r: Option<&PriceLineEntry<L>>)
        ensures
            r == (match first_where(self@, line_has_id::<L>(id.0@)) {
                Some(i) => Some(&self@[i]),
                None => None,
            }),
    {
        match self.position(id) {
            Some(i) => Some(&self.lines[i]),
            None => None,
        }
    }

    /// All price lines, in the order they were added.
    pub fn all(&self) -> (r: &[PriceLineEntry<L>])
        ensures
            r@ == self@,
    {
        self.lines.as_slice()
    }

    /// The price lines of scale `scale_id`, in order.
    pub fn for_scale(&self, scale_id: &PriceScaleId) -> (r: Vec<&PriceLineEntry<L>>)
        ensures
            r@.map_values(|l: &PriceLineEntry<L>| *l) == picked(self@, line_on_scale::<L>(*scale_id), whole_line::<L>()),
    {
        let ghost p = line_on_scale::<L>(*scale_id);
        let ghost f = whole_line::<L>();
        let mut out: Vec<&PriceLineEntry<L>> = Vec::new();
        let n = self.lines.len();
        let mut i: usize = 0;
        while i < n
            invariant
                n == self.lines@.len(),
                i <= n,
                p == line_on_scale::<L>(*scale_id),
                f == whole_line::<L>(),
                out@.map_values(|l: &PriceLineEntry<L>| *l) == picked(self.lines@.take(i as int), p, f),
            decreases n - i,
        {
            proof {
                lemma_picked_take(self.lines@, p, f, i as int);
            }
            let e = &self.lines[i];
            if e.scale_id == *scale_id {
                let ghost before = out@;
                out.push(e);
                assert(out@.map_values(|l: &PriceLineEntry<L>| *l) =~= before.map_values(|l: &PriceLineEntry<L>| *l).push(*e));
            }
            i = i + 1;
        }
        proof {
            assert(self.lines@.take(n as int) =~= self.lines@);
        }
        out
    }

    /// Number of price lines.
    pub fn len(&self) -> (r: usize)
        ensures
            r == self@.len(),
    {
        self.lines.len()
    }

    /// Whether the set holds no price line.
    pub fn is_empty(&self) -> (r: bool)
        ensures
            r == (self@.len() == 0),
    {
        self.lines.len() == 0
    }
}

impl<L> Default for PriceLineSet<L> {
    fn default() -> (r: Self)
        ensures
            r@ == Seq::<PriceLineEntry<L>>::empty(),
    {
        Self::new()
    }
}

/// Read after write: a marker added under an id that the set does not hold
/// yet is what looking that id up gives back.
pub proof fn law_marker_get_after_add<M>(s: Seq<MarkerEntry<M>>, e: MarkerEntry<M>)
    requires
        first_where(s, marker_has_id::<M>(e.id.0@)) is None,
    ensures
        first_where(s.push(e), marker_has_id::<M>(e.id.0@)) == Some(s.len() as int),
        s.push(e)[s.len() as int] == e,
{
    lemma_first_where_push(s, marker_has_id::<M>(e.id.0@), e);
}

/// Read after write: a price line added under an id that the set does not
/// hold yet is what looking that id up gives back.
pub proof fn law_price_line_get_after_add<L>(s: Seq<PriceLineEntry<L>>, e: PriceLineEntry<L>)
    requires
        first_where(s, line_has_id::<L>(e.id.0@)) is None,
    ensures
        first_where(s.push(e), line_has_id::<L>(e.id.0@)) == Some(s.len() as int),
        s.push(e)[s.len() as int] == e,
{
    lemma_first_where_push(s, line_has_id::<L>(e.id.0@), e);
}

} // verus!
