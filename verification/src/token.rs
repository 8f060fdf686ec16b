//! Categorized tokens, spans and the text they cover.

use vstd::prelude::*;

verus! {

/// The coarse category of a lexeme.
#[derive(Clone, Copy, Debug, PartialEq, Eq, Structural)]
pub enum CatKind {
    /// A run of identifier-like letters.
    Text,
    /// A run of decimal digits.
    Digits,
    /// A single punctuation character.
    Symbol(char),
    /// A run of blanks.
    Whitespace,
    /// A line break.
    Newline,
    /// A line or block comment.
    Comment,
}

/// A region of one source text: the index of the source and a half-open
/// range of character positions in it.
#[derive(Clone, Copy, Debug, PartialEq, Eq, Structural)]
pub struct Span {
    pub source: usize,
    pub begin: usize,
    pub end: usize,
}

/// A lexeme as a lexer hands it over: its category and where it begins and
/// ends in the text that was categorized.
#[derive(Clone, Copy, Debug, PartialEq, Eq, Structural)]
pub struct Lexeme {
    pub kind: CatKind,
    pub begin: usize,
    pub end: usize,
}

/// A token of the preprocessor: a category and the span it came from.
#[derive(Clone, Copy, Debug, PartialEq, Eq, Structural)]
pub struct Token {
    pub kind: CatKind,
    pub span: Span,
}

/// The smaller of two positions.
pub open spec fn min_pos(a: usize, b: usize) -> usize {
    if a <= b {
        a
    } else {
        b
    }
}

/// The larger of two positions.
pub open spec fn max_pos(a: usize, b: usize) -> usize {
    if a >= b {
        a
    } else {
        b
    }
}

/// The smallest span that covers both spans. Spans of different sources have
/// no common cover: the first span is the result.
pub open spec fn span_union(a: Span, b: Span) -> Span {
    if a.source != b.source {
        a
    } else {
        Span { source: a.source, begin: min_pos(a.begin, b.begin), end: max_pos(a.end, b.end) }
    }
}

/// The span that marks no place in any source.
pub open spec fn invalid_span() -> Span {
    Span { source: usize::MAX, begin: 0, end: 0 }
}

/// The tokens that a list of lexemes of one source stands for.
pub open spec fn tokens_of(lexemes: Seq<Lexeme>, source: usize) -> Seq<Token> {
    lexemes.map_values(
        |l: Lexeme| Token { kind: l.kind, span: Span { source, begin: l.begin, end: l.end } },
    )
}

/// The characters that a span covers in a list of source texts. A span that
/// does not lie inside its source covers nothing.
pub open spec fn text_of(contents: Seq<Seq<char>>, span: Span) -> Seq<char> {
    if span.source < contents.len() && span.begin <= span.end && span.end
        <= contents[span.source as int].len() {
        contents[span.source as int].subrange(span.begin as int, span.end as int)
    } else {
        Seq::empty()
    }
}

/// The view of a list of source texts.
pub open spec fn contents_view(contents: Seq<Vec<char>>) -> Seq<Seq<char>> {
    contents.map_values(|v: Vec<char>| v@)
}

impl Span {
    /// The empty span at the start of this one.
    pub fn begin(&self) -> (r: Span)
        ensures
            r == (Span { source: self.source, begin: self.begin, end: self.begin }),
    {
        Span { source: self.source, begin: self.begin, end: self.begin }
    }

    /// The empty span at the end of this one.
    pub fn end(&self) -> (r: Span)
        ensures
            r == (Span { source: self.source, begin: self.end, end: self.end }),
    {
        Span { source: self.source, begin: self.end, end: self.end }
    }

    /// The span that marks no place in any source.
    pub fn invalid() -> (r: Span)
        ensures
            r == invalid_span(),
    {
        Span { source: usize::MAX, begin: 0, end: 0 }
    }

    /// The smallest span that covers both spans, or `a` where their sources
    /// differ.
    pub fn union(a: Span, b: Span) -> (r: Span)
        ensures
            r == span_union(a, b),
    {
        if a.source != b.source {
            return a;
        }
        Span {
            source: a.source,
            begin: if a.begin <= b.begin {
                a.begin
            } else {
                b.begin
            },
            end: if a.end >= b.end {
                a.end
            } else {
                b.end
            },
        }
    }

    /// Grows this span so that it covers `other` as well.
    pub fn expand(&mut self, other: Span)
        ensures
            *final(self) == span_union(*old(self), other),
    {
        let u = Span::union(*self, other);
        *self = u;
    }

    /// Copies out the characters that the span covers in `contents`.
    pub fn extract(&self, contents: &Vec<Vec<char>>) -> (r: Vec<char>)
        ensures
            r@ == text_of(contents_view(contents@), *self),
    {
        let mut out: Vec<char> = Vec::new();
        if self.source < contents.len() && self.begin <= self.end && self.end
            <= contents[self.source].len() {
            let text = &contents[self.source];
            let mut i: usize = self.begin;
            while i < self.end
                invariant
                    self.begin <= i <= self.end <= text.len(),
                    out@ == text@.subrange(self.begin as int, i as int),
                decreases self.end - i,
            {
                out.push(text[i]);
                i += 1;
            }
        }
        out
    }
}

/// Whether two texts hold the same characters.
pub fn same_text(a: &Vec<char>, b: &Vec<char>) -> (r: bool)
    ensures
        r == (a@ == b@),
{
    if a.len() != b.len() {
        return false;
    }
    let mut i: usize = 0;
    while i < a.len()
        invariant
            i <= a.len() == b.len(),
            a@.subrange(0, i as int) == b@.subrange(0, i as int),
        decreases a.len() - i,
    {
        if a[i] != b[i] {
            return false;
        }
        proof {
            assert(a@.subrange(0, i + 1) == a@.subrange(0, i as int).push(a@[i as int]));
            assert(b@.subrange(0, i + 1) == b@.subrange(0, i as int).push(b@[i as int]));
        }
        i += 1;
    }
    proof {
        assert(a@.subrange(0, a.len() as int) == a@);
        assert(b@.subrange(0, b.len() as int) == b@);
    }
    true
}

/// The characters of a string as a text.
pub fn text_from_str(s: &str) -> (r: Vec<char>)
    ensures
        r@ == s@,
{
    let mut out: Vec<char> = Vec::new();
    for c in it: s.chars()
        invariant
            it.seq() == s@,
            out@ == s@.subrange(0, it.index() as int),
    {
        out.push(c);
    }
    proof {
        assert(s@.subrange(0, s@.len() as int) == s@);
    }
    out
}

/// Whether a text holds exactly the characters of a string.
pub fn text_is(a: &Vec<char>, s: &str) -> (r: bool)
    ensures
        r == (a@ == s@),
{
    let other = text_from_str(s);
    same_text(a, &other)
}

} // verus!
