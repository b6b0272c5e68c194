//! Point & Figure columns.

use vstd::prelude::*;

verus! {

/// A column in a Point & Figure chart: a rise (X's) or a fall (O's) of a
/// number of fixed-size boxes.
#[derive(Debug, Clone, Copy, PartialEq, Eq, Structural)]
pub enum PfColumn {
    /// Rising column (X's): price increased.
    Rise { boxes: u32 },
    /// Falling column (O's): price decreased.
    Fall { boxes: u32 },
}

impl PfColumn {
    /// Number of boxes in the column, whatever its direction.
    pub open spec fn box_count(self) -> u32 {
        match self {
            PfColumn::Rise { boxes } => boxes,
            PfColumn::Fall { boxes } => boxes,
        }
    }

    pub fn is_rise(&self) -> (r: bool)
        ensures
            r == (*self is Rise),
    {
        match self {
            PfColumn::Rise { .. } => true,
            PfColumn::Fall { .. } => false,
        }
    }

    pub fn is_fall(&self) -> (r: bool)
        ensures
            r == (*self is Fall),
    {
        match self {
            PfColumn::Rise { .. } => false,
            PfColumn::Fall { .. } => true,
        }
    }

    pub fn boxes(&self) -> (r: u32)
        ensures
            r == self.box_count(),
    {
        match self {
            PfColumn::Rise { boxes } => *boxes,
            PfColumn::Fall { boxes } => *boxes,
        }
    }
}

/// The largest box count of `columns`, or 0 when there is none.
pub open spec fn max_box_count(columns: Seq<PfColumn>) -> u32
    decreases columns.len(),
{
    if columns.len() == 0 {
        0
    } else {
        let rest = max_box_count(columns.drop_last());
        let last = columns.last().box_count();
        if last > rest {
            last
        } else {
            rest
        }
    }
}

/// Maximum box count across all columns (0 for no column): the height, in
/// boxes, that a Point & Figure chart of these columns needs.
pub fn max_boxes(columns: &[PfColumn]) -> (r: u32)
    ensures
        r == max_box_count(columns@),
        forall|i: int| 0 <= i < columns@.len() ==> #[trigger] columns@[i].box_count() <= r,
        columns@.len() > 0 ==> exists|i: int| 0 <= i < columns@.len() && #[trigger] columns@[i].box_count() == r,
        columns@.len() == 0 ==> r == 0,
{
    let mut best: u32 = 0;
    let mut i: usize = 0;
    while i < columns.len()
        invariant
            i <= columns@.len(),
            best == max_box_count(columns@.take(i as int)),
            forall|j: int| 0 <= j < i ==> #[trigger] columns@[j].box_count() <= best,
            i > 0 ==> exists|j: int| 0 <= j < i && #[trigger] columns@[j].box_count() == best,
            i == 0 ==> best == 0,
        decreases columns@.len() - i,
    {
        proof {
            assert(columns@.take(i + 1).drop_last() =~= columns@.take(i as int));
        }
        let b = columns[i].boxes();
        if b > best {
            best = b;
        }
        i = i + 1;
    }
    proof {
        assert(columns@.take(columns@.len() as int) =~= columns@);
    }
    best
}

/// The column of `boxes` boxes in the direction given by `rising`.
pub open spec fn column_of(rising: bool, boxes: u32) -> PfColumn {
    if rising {
        PfColumn::Rise { boxes }
    } else {
        PfColumn::Fall { boxes }
    }
}

/// Columns as a Point & Figure chart draws them: the first one a rise, each
/// one in the other direction from the one before, each with a box at least.
pub open spec fn alternating(columns: Seq<PfColumn>) -> bool {
    forall|i: int|
        0 <= i < columns.len() ==> ((#[trigger] columns[i] is Rise) <==> i % 2 == 0) && columns[i].box_count() >= 1
}

/// What one more price bar does to the column being built, as the caller
/// measured it against the column's extreme prices.
#[derive(Debug, Clone, Copy, PartialEq, Eq, Structural)]
pub enum PfMove {
    /// The price went further in the column's direction, to this many boxes
    /// from the column's start (rounded down).
    Extend(u32),
    /// The price reversed by the reversal amount; the new column spans this
    /// many boxes (rounded down).
    Reverse(u32),
    /// Neither: the bar changes nothing.
    Stay,
}

/// The state of a Point & Figure chart being built bar by bar: the columns
/// completed so far, and the direction and box count of the current one.
pub struct PfBuilder {
    columns: Vec<PfColumn>,
    rising: bool,
    boxes: u32,
}

impl PfBuilder {
    /// The completed columns.
    pub closed spec fn completed(&self) -> Seq<PfColumn> {
        self.columns@
    }

    /// Whether the current column rises.
    pub closed spec fn is_rising(&self) -> bool {
        self.rising
    }

    /// The box count of the current column.
    pub closed spec fn current_boxes(&self) -> u32 {
        self.boxes
    }

    /// The builder's invariant: the completed columns alternate starting
    /// with a rise, the current column goes the other way from the last
    /// completed one, and it has a box at least.
    pub closed spec fn wf(&self) -> bool {
        &&& alternating(self.columns@)
        &&& self.rising == (self.columns@.len() % 2 == 0)
        &&& self.boxes >= 1
    }

    /// A builder at the first bar: a rising column of one box.
    pub fn new() -> (r: Self)
        ensures
            r.wf(),
            r.completed() == Seq::<PfColumn>::empty(),
            r.is_rising(),
            r.current_boxes() == 1,
    {
        PfBuilder { columns: Vec::new(), rising: true, boxes: 1 }
    }

    /// Whether the current column rises.
    pub fn rising(&self) -> (r: bool)
        ensures
            r == self.is_rising(),
    {
        self.rising
    }

    /// The box count of the current column.
    pub fn boxes(&self) -> (r: u32)
        ensures
            r == self.current_boxes(),
    {
        self.boxes
    }

    /// Apply one bar's move. Extending keeps the larger box count; a
    /// reversal completes the current column and starts one the other way
    /// with the given box count, one at least.
    pub fn step(&mut self, mv: PfMove)
        requires
            old(self).wf(),
        ensures
            final(self).wf(),
            mv is Stay ==> *final(self) == *old(self),
            mv matches PfMove::Extend(n) ==> {
                &&& final(self).completed() == old(self).completed()
                &&& final(self).is_rising() == old(self).is_rising()
                &&& final(self).current_boxes() == (if n > old(self).current_boxes() { n } else { old(self).current_boxes() })
            },
            mv matches PfMove::Reverse(n) ==> {
                &&& final(self).completed() == old(self).completed().push(
                    column_of(old(self).is_rising(), old(self).current_boxes()),
                )
                &&& final(self).is_rising() == !old(self).is_rising()
                &&& final(self).current_boxes() == (if n >= 1 { n } else { 1 })
            },
    {
        match mv {
            PfMove::Extend(n) => {
                if n > self.boxes {
                    self.boxes = n;
                }
            },
            PfMove::Reverse(n) => {
                let ghost old_cols = self.columns@;
                if self.boxes > 0 {
                    let col = if self.rising {
                        PfColumn::Rise { boxes: self.boxes }
                    } else {
                        PfColumn::Fall { boxes: self.boxes }
                    };
                    self.columns.push(col);
                }
                self.rising = !self.rising;
                self.boxes = if n >= 1 { n } else { 1 };
                assert(alternating(self.columns@)) by {
                    assert forall|i: int| 0 <= i < self.columns@.len() implies
                        ((#[trigger] self.columns@[i] is Rise) <==> i % 2 == 0) && self.columns@[i].box_count() >= 1 by {
                        if i < old_cols.len() {
                            assert(self.columns@[i] == old_cols[i]);
                        }
                    }
                }
            },
            PfMove::Stay => {},
        }
    }

    /// The columns of the chart: the completed ones, then the current one.
    /// They start with a rise, alternate, and each has a box at least.
    pub fn finish(self) -> (r: Vec<PfColumn>)
        requires
            self.wf(),
        ensures
            r@ == self.completed().push(column_of(self.is_rising(), self.current_boxes())),
            alternating(r@),
    {
        let ghost old_cols = self.columns@;
        let mut columns = self.columns;
        if self.boxes > 0 {
            if self.rising {
                columns.push(PfColumn::Rise { boxes: self.boxes });
            } else {
                columns.push(PfColumn::Fall { boxes: self.boxes });
            }
        }
        assert forall|i: int| 0 <= i < columns@.len() implies
            ((#[trigger] columns@[i] is Rise) <==> i % 2 == 0) && columns@[i].box_count() >= 1 by {
            if i < old_cols.len() {
                assert(columns@[i] == old_cols[i]);
            }
        }
        columns
    }
}

} // verus!
