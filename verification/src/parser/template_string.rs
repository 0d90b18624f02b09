//! String literals that may embed `{{ template }}` segments.

use crate::diagnostic::Span;
use vstd::prelude::*;

verus! {

/// A piece of a string literal: plain text, or the name inside a
/// `{{ ... }}` template.
#[derive(Debug, PartialEq, Eq)]
pub enum StringSegment {
    Literal(String, Span),
    Template(String, Span),
}

pub enum StringSegmentView {
    Literal(Seq<char>, Span),
    Template(Seq<char>, Span),
}

impl View for StringSegment {
    type V = StringSegmentView;

    open spec fn view(&self) -> StringSegmentView {
        match self {
            StringSegment::Literal(s, span) => StringSegmentView::Literal(s@, *span),
            StringSegment::Template(s, span) => StringSegmentView::Template(s@, *span),
        }
    }
}

/// A string literal as a sequence of segments.
#[derive(Debug, PartialEq, Eq)]
pub struct TemplateString(pub Vec<StringSegment>);

impl View for TemplateString {
    type V = Seq<StringSegmentView>;

    open spec fn view(&self) -> Seq<StringSegmentView> {
        self.0@.map_values(|s: StringSegment| s@)
    }
}

/// The text a segment stands for: literal text as it is, a template as
/// `{{ name }}`.
pub open spec fn segment_text(s: StringSegmentView) -> Seq<char> {
    match s {
        StringSegmentView::Literal(t, _) => t,
        StringSegmentView::Template(t, _) => seq!['{', '{', ' '] + t + seq![' ', '}', '}'],
    }
}

/// The text of a whole template string: its segments' texts, in order.
pub open spec fn render(segments: Seq<StringSegmentView>) -> Seq<char>
    decreases segments.len(),
{
    if segments.len() == 0 {
        Seq::empty()
    } else {
        render(segments.drop_last()) + segment_text(segments.last())
    }
}

impl Clone for StringSegment {
    fn clone(&self) -> (r: Self)
        ensures
            r@ == self@,
    {
        match self {
            StringSegment::Literal(s, span) => StringSegment::Literal(s.clone(), *span),
            StringSegment::Template(s, span) => StringSegment::Template(s.clone(), *span),
        }
    }
}

impl Clone for TemplateString {
    fn clone(&self) -> (r: Self)
        ensures
            r@ == self@,
    {
        let mut out: Vec<StringSegment> = Vec::new();
        let mut i: usize = 0;
        while i < self.0.len()
            invariant
                i <= self.0@.len(),
                out@.len() == i,
                forall|j: int| 0 <= j < i ==> #[trigger] out@[j]@ == self.0@[j]@,
            decreases self.0@.len() - i,
        {
            out.push(self.0[i].clone());
            i += 1;
        }
        let r = TemplateString(out);
        assert(r@ =~= self@);
        r
    }
}

impl TemplateString {
    /// The text of the string, with each template written as `{{ name }}`.
    pub fn to_string(&self) -> (r: String)
        ensures
            r@ == render(self@),
    {
        let mut out = String::new();
        let mut i: usize = 0;
        while i < self.0.len()
            invariant
                i <= self.0@.len(),
                out@ == render(self@.take(i as int)),
            decreases self.0@.len() - i,
        {
            let ghost before = out@;
            match &self.0[i] {
                StringSegment::Literal(s, _) => {
                    out.append(s.as_str());
                },
                StringSegment::Template(s, _) => {
                    let open = "{{ ";
                    let close = " }}";
                    proof {
                        reveal_strlit("{{ ");
                        reveal_strlit(" }}");
                    }
                    out.append(open);
                    out.append(s.as_str());
                    out.append(close);
                    assert(out@ =~= before + segment_text(self@[i as int]));
                },
            }
            assert(self@.take(i + 1).drop_last() =~= self@.take(i as int));
            i += 1;
        }
        assert(self@.take(self.0@.len() as int) =~= self@);
        out
    }
}

} // verus!
