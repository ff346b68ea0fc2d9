use vstd::prelude::*;

verus! {

/// A half-open interval of columns, `[left_column, left_column + width)`.
///
/// Its view is the set of the columns that it occupies. A footprint of width
/// zero occupies nothing, wherever it starts.
#[derive(Clone, Copy, Debug, PartialEq, Eq, Structural)]
pub struct Footprint {
    pub left_column: u32,
    pub width: u32,
}

impl View for Footprint {
    type V = Set<int>;

    open spec fn view(&self) -> Set<int> {
        Set::new(|c: int| self.left_column <= c < self.left_column + self.width)
    }
}

impl Footprint {
    /// The first column to the right of the footprint.
    pub open spec fn end(self) -> int {
        self.left_column + self.width
    }

    /// Whether every column of the footprint lies in a lane of `columns` columns.
    pub open spec fn within(self, columns: int) -> bool {
        self.end() <= columns
    }

    /// Whether every column of `self` is a column of `other`.
    pub open spec fn inside(self, other: Footprint) -> bool {
        other.left_column <= self.left_column && self.end() <= other.end()
    }

    /// The columns that `self` and `other` share, as a footprint, if there are any:
    /// from the greater of the two left edges to the lesser of the two right edges.
    pub open spec fn common(self, other: Footprint) -> Option<Footprint> {
        let left: int = if self.left_column >= other.left_column {
            self.left_column as int
        } else {
            other.left_column as int
        };
        let end: int = if self.end() <= other.end() {
            self.end()
        } else {
            other.end()
        };
        if left < end {
            Some(Footprint { left_column: left as u32, width: (end - left) as u32 })
        } else {
            None
        }
    }

    /// A footprint from its left column and its width.
    pub fn new(left_column: u32, width: u32) -> (footprint: Footprint)
        ensures
            footprint.left_column == left_column,
            footprint.width == width,
    {
        Footprint { left_column, width }
    }

    /// Intersects two footprints. The result is `None` exactly when they share no
    /// column; otherwise it is the footprint whose columns are the shared ones.
    pub fn overlap(&self, other: &Footprint) -> (shared: Option<Footprint>)
        ensures
            shared == self.common(*other),
            shared is None <==> self@.disjoint(other@),
            shared matches Some(f) ==> f.width >= 1 && f@ == self@.intersect(other@),
    {
        let left: u32 = if self.left_column >= other.left_column {
            self.left_column
        } else {
            other.left_column
        };
        let self_end: u64 = self.left_column as u64 + self.width as u64;
        let other_end: u64 = other.left_column as u64 + other.width as u64;
        let end: u64 = if self_end <= other_end {
            self_end
        } else {
            other_end
        };
        proof {
            lemma_common_is_intersection(*self, *other);
        }
        if (left as u64) < end {
            Some(Footprint { left_column: left, width: (end - left as u64) as u32 })
        } else {
            None
        }
    }
}

/// The footprint that `common` gives occupies exactly the columns that the two
/// footprints share, and `common` gives none exactly when they share no column.
pub proof fn lemma_common_is_intersection(a: Footprint, b: Footprint)
    ensures
        a.common(b) is None <==> a@.disjoint(b@),
        a.common(b) matches Some(f) ==> {
            &&& f.width >= 1
            &&& f@ == a@.intersect(b@)
            &&& f.inside(a)
            &&& f.inside(b)
        },
{
    match a.common(b) {
        Some(f) => {
            assert(f@ =~= a@.intersect(b@));
            assert(f@.contains(f.left_column as int));
            assert(a@.contains(f.left_column as int) && b@.contains(f.left_column as int));
        },
        None => {
            assert forall|c: int| !(a@.contains(c) && b@.contains(c)) by {}
        },
    }
}

} // verus!
