//! Paths into values: a sequence of field names and array indices,
//! optionally rooted at the event or at its metadata.

use vstd::prelude::*;

verus! {

broadcast use vstd::std_specs::vec::group_vec_axioms;

/// Whether a target path reads the event itself or its metadata.
#[derive(Clone, Copy, Debug, PartialEq, Eq, Hash, Structural)]
pub enum PathPrefix {
    Event,
    Metadata,
}

/// One step of an owned path.
#[derive(Debug, PartialEq, Eq, Hash)]
pub enum OwnedSegment {
    Field(String),
    Index(isize),
    Coalesce(Vec<String>),
}

/// The mathematical content of a segment: strings as character sequences.
pub enum SegmentView {
    Field(Seq<char>),
    Index(isize),
    Coalesce(Seq<Seq<char>>),
}

impl View for OwnedSegment {
    type V = SegmentView;

    open spec fn view(&self) -> SegmentView {
        match self {
            OwnedSegment::Field(f) => SegmentView::Field(f@),
            OwnedSegment::Index(i) => SegmentView::Index(*i),
            OwnedSegment::Coalesce(fs) => SegmentView::Coalesce(fs.deep_view()),
        }
    }
}

/// A path into a value, owning its segments.
#[derive(Debug, PartialEq, Eq, Hash)]
pub struct OwnedValuePath {
    pub segments: Vec<OwnedSegment>,
}

pub open spec fn segments_view(s: Seq<OwnedSegment>) -> Seq<SegmentView> {
    s.map_values(|seg: OwnedSegment| seg@)
}

impl View for OwnedValuePath {
    type V = Seq<SegmentView>;

    open spec fn view(&self) -> Seq<SegmentView> {
        segments_view(self.segments@)
    }
}

/// A value path together with the root it is read from.
#[derive(Debug, PartialEq, Eq, Hash)]
pub struct OwnedTargetPath {
    pub prefix: PathPrefix,
    pub path: OwnedValuePath,
}

pub struct TargetPathView {
    pub prefix: PathPrefix,
    pub path: Seq<SegmentView>,
}

impl View for OwnedTargetPath {
    type V = TargetPathView;

    open spec fn view(&self) -> TargetPathView {
        TargetPathView { prefix: self.prefix, path: self.path@ }
    }
}

fn strings_same(a: &Vec<String>, b: &Vec<String>) -> (r: bool)
    ensures
        r == (a.deep_view() == b.deep_view()),
{
    if a.len() != b.len() {
        assert(a.deep_view().len() != b.deep_view().len());
        return false;
    }
    let mut i: usize = 0;
    while i < a.len()
        invariant
            i <= a@.len(),
            a@.len() == b@.len(),
            forall|j: int| 0 <= j < i ==> #[trigger] a@[j]@ == b@[j]@,
        decreases a@.len() - i,
    {
        if a[i] != b[i] {
            assert(a.deep_view()[i as int] != b.deep_view()[i as int]);
            return false;
        }
        i += 1;
    }
    assert(a.deep_view() =~= b.deep_view());
    true
}

impl OwnedSegment {
    /// Whether two segments hold the same field names or index.
    pub fn same(&self, other: &OwnedSegment) -> (r: bool)
        ensures
            r == (self@ == other@),
    {
        match (self, other) {
            (OwnedSegment::Field(a), OwnedSegment::Field(b)) => *a == *b,
            (OwnedSegment::Index(a), OwnedSegment::Index(b)) => *a == *b,
            (OwnedSegment::Coalesce(a), OwnedSegment::Coalesce(b)) => strings_same(a, b),
            _ => false,
        }
    }
}

impl Clone for OwnedSegment {
    fn clone(&self) -> (r: Self)
        ensures
            r@ == self@,
    {
        match self {
            OwnedSegment::Field(f) => OwnedSegment::Field(f.clone()),
            OwnedSegment::Index(i) => OwnedSegment::Index(*i),
            OwnedSegment::Coalesce(fs) => {
                let c = fs.clone();
                assert(c.deep_view() =~= fs.deep_view());
                OwnedSegment::Coalesce(c)
            },
        }
    }
}

impl OwnedValuePath {
    /// The empty path, which denotes the whole value.
    pub fn root() -> (r: OwnedValuePath)
        ensures
            r@ == Seq::<SegmentView>::empty(),
    {
        let r = OwnedValuePath { segments: Vec::new() };
        assert(r@ =~= Seq::<SegmentView>::empty());
        r
    }

    /// Whether two paths have the same segments.
    pub fn same(&self, other: &OwnedValuePath) -> (r: bool)
        ensures
            r == (self@ == other@),
    {
        let a = &self.segments;
        let b = &other.segments;
        if a.len() != b.len() {
            assert(self@.len() != other@.len());
            return false;
        }
        let mut i: usize = 0;
        while i < a.len()
            invariant
                i <= a@.len(),
                a@.len() == b@.len(),
                a == self.segments,
                b == other.segments,
                forall|j: int| 0 <= j < i ==> #[trigger] a@[j]@ == b@[j]@,
            decreases a@.len() - i,
        {
            if !a[i].same(&b[i]) {
                assert(self@[i as int] != other@[i as int]);
                return false;
            }
            i += 1;
        }
        assert(self@ =~= other@);
        true
    }
}

impl Clone for OwnedValuePath {
    fn clone(&self) -> (r: Self)
        ensures
            r@ == self@,
    {
        let mut segments: Vec<OwnedSegment> = Vec::new();
        let mut i: usize = 0;
        while i < self.segments.len()
            invariant
                i <= self.segments@.len(),
                segments@.len() == i,
                forall|j: int| 0 <= j < i ==> #[trigger] segments@[j]@ == self.segments@[j]@,
            decreases self.segments@.len() - i,
        {
            segments.push(self.segments[i].clone());
            i += 1;
        }
        let r = OwnedValuePath { segments };
        assert(r@ =~= self@);
        r
    }
}

impl OwnedTargetPath {
    /// Whether two target paths have the same prefix and segments.
    pub fn same(&self, other: &OwnedTargetPath) -> (r: bool)
        ensures
            r == (self@ == other@),
    {
        self.prefix == other.prefix && self.path.same(&other.path)
    }
}

impl Clone for OwnedTargetPath {
    fn clone(&self) -> (r: Self)
        ensures
            r@ == self@,
    {
        OwnedTargetPath { prefix: self.prefix, path: self.path.clone() }
    }
}

} // verus!
