//! The collection of drawings on a chart pane.
//!
//! A [`DrawingSet`] keeps its drawings in the order they were added, each
//! tagged with its [`DrawingKind`] and its [`DrawingId`]. The drawings
//! themselves (points, prices, styles) are a type parameter that the set
//! only stores and hands back: it finds them by kind and id alone.

use vstd::prelude::*;
use crate::annotations::DrawingId;
use crate::seq_search::{
    first_where, is_first_where, lemma_first_where_none, lemma_first_where_push, lemma_first_where_unique,
    lemma_picked_take, picked,
};

verus! {

/// The kinds of drawing a chart pane holds.
#[derive(Debug, Clone, Copy, PartialEq, Eq, Structural)]
pub enum DrawingKind {
    TrendLine,
    Arrow,
    Ray,
    Segment,
    TextDrawing,
    ImageDrawing,
    LabelDrawing,
    HorizontalLine,
    VerticalLine,
    Rectangle,
    FibonacciRetracement,
    FibonacciExtension,
    Pitchfork,
    Ellipse,
    Path,
}

/// A drawing in a set, with its kind and id.
pub struct DrawingEntry<D> {
    pub kind: DrawingKind,
    pub id: DrawingId,
    pub drawing: D,
}

/// The test that accepts the entries with id `id` and, when `kind` is
/// given, that kind.
pub open spec fn entry_matches<D>(kind: Option<DrawingKind>, id: Seq<char>) -> spec_fn(DrawingEntry<D>) -> bool {
    |e: DrawingEntry<D>| e.id.0@ == id && (kind matches Some(k) ==> e.kind == k)
}

/// The position of the first entry of `s` that `kind` and `id` match, if any.
pub open spec fn first_entry<D>(s: Seq<DrawingEntry<D>>, kind: Option<DrawingKind>, id: Seq<char>) -> Option<int> {
    first_where(s, entry_matches::<D>(kind, id))
}

/// The test that accepts the entries of kind `kind`.
pub open spec fn of_kind<D>(kind: DrawingKind) -> spec_fn(DrawingEntry<D>) -> bool {
    |e: DrawingEntry<D>| e.kind == kind
}

/// An entry's drawing.
pub open spec fn drawing_of<D>() -> spec_fn(DrawingEntry<D>) -> D {
    |e: DrawingEntry<D>| e.drawing
}

/// The drawings of `s` of kind `kind`, in order.
pub open spec fn drawings_of_kind<D>(s: Seq<DrawingEntry<D>>, kind: DrawingKind) -> Seq<D> {
    picked(s, of_kind::<D>(kind), drawing_of::<D>())
}

/// Read after write: a drawing added under a kind and id that the set does
/// not hold yet is what looking that kind and id up gives back.
pub proof fn law_get_after_add<D>(s: Seq<DrawingEntry<D>>, e: DrawingEntry<D>)
    requires
        first_entry(s, Some(e.kind), e.id.0@) is None,
    ensures
        first_entry(s.push(e), Some(e.kind), e.id.0@) == Some(s.len() as int),
        s.push(e)[s.len() as int].drawing == e.drawing,
{
    lemma_first_where_push(s, entry_matches::<D>(Some(e.kind), e.id.0@), e);
}

/// Removing by id undoes adding a drawing whose id the set does not hold.
pub proof fn law_remove_undoes_add<D>(s: Seq<DrawingEntry<D>>, e: DrawingEntry<D>)
    requires
        first_entry(s, None, e.id.0@) is None,
    ensures
        first_entry(s.push(e), None, e.id.0@) == Some(s.len() as int),
        s.push(e).remove(s.len() as int) == s,
{
    lemma_first_where_push(s, entry_matches::<D>(None, e.id.0@), e);
    assert(s.push(e).remove(s.len() as int) =~= s);
}

/// A collection of drawings for a chart pane, in the order they were added.
pub struct DrawingSet<D> {
    drawings: Vec<DrawingEntry<D>>,
}

impl<D> View for DrawingSet<D> {
    type V = Seq<DrawingEntry<D>>;

    /// The entries, in the order they were added.
    closed spec fn view(&self) -> Seq<DrawingEntry<D>> {
        self.drawings@
    }
}

impl<D> DrawingSet<D> {
    /// Create an empty drawing set.
    pub fn new() -> (r: Self)
        ensures
            r@ == Seq::<DrawingEntry<D>>::empty(),
    {
        DrawingSet { drawings: Vec::new() }
    }

    /// Add a drawing of kind `kind` with id `id`, after the others.
    pub fn add(&mut self, kind: DrawingKind, id: DrawingId, drawing: D)
        ensures
            final(self)@ == old(self)@.push(DrawingEntry { kind, id, drawing }),
    {
        self.drawings.push(DrawingEntry { kind, id, drawing });
    }

    /// Position of the first entry that `kind` (any kind when `None`) and
    /// `id` match.
    fn position(&self, kind: Option<DrawingKind>, id: &DrawingId) -> (r: Option<usize>)
        ensures
            r matches Some(i) ==> i < self@.len() && first_entry(self@, kind, id.0@) == Some(i as int),
            r is None ==> first_entry(self@, kind, id.0@) is None,
    {
        let ghost p = entry_matches::<D>(kind, id.0@);
        let n = self.drawings.len();
        let mut i: usize = 0;
        while i < n
            invariant
                n == self.drawings@.len(),
                i <= n,
                p == entry_matches::<D>(kind, id.0@),
                forall|j: int| 0 <= j < i ==> !p(#[trigger] self.drawings@[j]),
            decreases n - i,
        {
            let e = &self.drawings[i];
            let kind_ok = match kind {
                Some(k) => e.kind == k,
                None => true,
            };
            if kind_ok && e.id == *id {
                proof {
                    assert(is_first_where(self@, p, i as int));
                    lemma_first_where_unique(self@, p, i as int);
                }
                return Some(i);
            }
            i = i + 1;
        }
        proof {
            lemma_first_where_none(self@, p);
        }
        None
    }

    /// The drawing of kind `kind` with id `id`; the first one if there are
    /// several.
    pub fn get(&self, kind: DrawingKind, id: &DrawingId) -> (r: Option<&D>)
        ensures
            r == (match first_entry(self@, Some(kind), id.0@) {
                Some(i) => Some(&self@[i].drawing),
                None => None,
            }),
    {
        match self.position(Some(kind), id) {
            Some(i) => Some(&self.drawings[i].drawing),
            None => None,
        }
    }

    /// Position of the first drawing with id `id`, whatever its kind.
    pub fn find(&self, id: &DrawingId) -> (r: Option<usize>)
        ensures
            r matches Some(i) ==> first_entry(self@, None, id.0@) == Some(i as int),
            r is None ==> first_entry(self@, None, id.0@) is None,
    {
        self.position(None, id)
    }

    /// All drawings of kind `kind`, in the order they were added.
    pub fn all(&self, kind: DrawingKind) -> (r: Vec<&D>)
        ensures
            r@.map_values(|d: &D| *d) == drawings_of_kind(self@, kind),
    {
        let ghost p = of_kind::<D>(kind);
        let ghost f = drawing_of::<D>();
        let mut out: Vec<&D> = Vec::new();
        let n = self.drawings.len();
        let mut i: usize = 0;
        while i < n
            invariant
                n == self.drawings@.len(),
                i <= n,
                p == of_kind::<D>(kind),
                f == drawing_of::<D>(),
                out@.map_values(|d: &D| *d) == picked(self.drawings@.take(i as int), p, f),
            decreases n - i,
        {
            proof {
                lemma_picked_take(self.drawings@, p, f, i as int);
            }
            let e = &self.drawings[i];
            if e.kind == kind {
                let ghost before = out@;
                out.push(&e.drawing);
                assert(out@.map_values(|d: &D| *d) =~= before.map_values(|d: &D| *d).push(e.drawing));
            }
            i = i + 1;
        }
        proof {
            assert(self.drawings@.take(n as int) =~= self.drawings@);
        }
        out
    }

    /// All entries, in the order they were added.
    pub fn all_raw(&self) -> (r: &[DrawingEntry<D>])
        ensures
            r@ == self@,
    {
        self.drawings.as_slice()
    }

    /// The drawing at position `i`, to change it in place.
    pub fn drawing_at_mut(&mut self, i: usize) -> (r: &mut D)
        requires
            i < old(self)@.len(),
        ensures
            *r == old(self)@[i as int].drawing,
            final(self)@ == old(self)@.update(
                i as int,
                DrawingEntry { kind: old(self)@[i as int].kind, id: old(self)@[i as int].id, drawing: *final(r) },
            ),
    {
        &mut self.drawings[i].drawing
    }

    /// Remove the first drawing with id `id`. Returns whether there was one.
    pub fn remove(&mut self, id: &DrawingId) -> (r: bool)
        ensures
            r == first_entry(old(self)@, None, id.0@) is Some,
            final(self)@ == (match first_entry(old(self)@, None, id.0@) {
                Some(i) => old(self)@.remove(i),
                None => old(self)@,
            }),
    {
        match self.position(None, id) {
            Some(pos) => {
                self.drawings.remove(pos);
                true
            },
            None => false,
        }
    }

    /// Total number of drawings.
    pub fn len(&self) -> (r: usize)
        ensures
            r == self@.len(),
    {
        self.drawings.len()
    }

    /// Whether the set holds no drawing.
    pub fn is_empty(&self) -> (r: bool)
        ensures
            r == (self@.len() == 0),
    {
        self.drawings.len() == 0
    }
}

impl<D> Default for DrawingSet<D> {
    fn default() -> (r: Self)
        ensures
            r@ == Seq::<DrawingEntry<D>>::empty(),
    {
        Self::new()
    }
}

} // verus!
