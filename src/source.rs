use vstd::prelude::*;

verus! {

/// A range of character positions in a source text, `low` included and `high` not.
#[derive(Debug, Clone, Copy, PartialEq, Eq, Structural)]
pub struct SourceSpan {
    pub low: usize,
    pub high: usize,
}

/// The text of one compilation unit.
pub struct Source {
    src: String,
}

impl View for Source {
    type V = Seq<char>;

    closed spec fn view(&self) -> Seq<char> {
        self.src@
    }
}

impl Source {
    pub fn new(src: String) -> (r: Source)
        ensures
            r@ == src@,
    {
        Source { src }
    }

    /// The text that `span` covers.
    pub fn get_spanned(&self, span: &SourceSpan) -> (r: &str)
        requires
            span.low <= span.high <= self@.len(),
        ensures
            r@ == self@.subrange(span.low as int, span.high as int),
    {
        self.src.as_str().substring_char(span.low, span.high)
    }

    /// The whole text.
    pub fn as_str(&self) -> (r: &str)
        ensures
            r@ == self@,
    {
        self.src.as_str()
    }
}

} // verus!
