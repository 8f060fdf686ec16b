//! The lexer that cuts a source text into categorized lexemes.

use crate::token::{CatKind, Lexeme};
use vstd::prelude::*;

verus! {

/// The classes of characters that the lexer tells apart.
#[derive(Clone, Copy, Debug, PartialEq, Eq, Structural)]
pub enum CharClass {
    Newline,
    Blank,
    Digit,
    Symbol,
    Letter,
}

/// The class of a character: the line feed; blanks (space, tab, carriage
/// return, no-break space); decimal digits; the punctuation of ASCII; and
/// everything else, which counts as a letter.
pub open spec fn class_of(c: char) -> CharClass {
    let n = c as u32;
    if n == 0x0a {
        CharClass::Newline
    } else if n == 0x20 || n == 0x09 || n == 0x0d || n == 0xa0 {
        CharClass::Blank
    } else if 0x30 <= n <= 0x39 {
        CharClass::Digit
    } else if (0x21 <= n <= 0x2f) || (0x3a <= n <= 0x40) || (0x5b <= n <= 0x60) || (0x7b <= n
        <= 0x7e) {
        CharClass::Symbol
    } else {
        CharClass::Letter
    }
}

/// Whether a comment opens at a position: a slash followed by a slash or
/// a star.
pub open spec fn opens_comment(text: Seq<char>, at: int) -> bool {
    0 <= at && at + 1 < text.len() && text[at] == '/' && (text[at + 1] == '/' || text[at + 1]
        == '*')
}

/// Whether a block comment closes at a position: a star followed by a
/// slash.
pub open spec fn closes_comment(text: Seq<char>, at: int) -> bool {
    0 <= at && at + 1 < text.len() && text[at] == '*' && text[at + 1] == '/'
}

/// Whether a range is a run of one class that cannot be made longer.
pub open spec fn is_run(text: Seq<char>, begin: int, end: int, class: CharClass) -> bool {
    &&& 0 <= begin < end <= text.len()
    &&& forall|k: int| begin <= k < end ==> class_of(#[trigger] text[k]) == class
    &&& (end == text.len() || class_of(text[end]) != class)
}

/// Whether a range is a comment: a line comment runs up to the next line
/// feed, which it leaves out; a block comment runs up to the first closing
/// mark, which it takes in; both end with the text at the latest.
pub open spec fn is_comment(text: Seq<char>, begin: int, end: int) -> bool {
    &&& opens_comment(text, begin)
    &&& begin + 2 <= end <= text.len()
    &&& if text[begin + 1] == '/' {
        &&& forall|k: int| begin + 2 <= k < end ==> (#[trigger] text[k]) != '\n'
        &&& (end == text.len() || text[end] == '\n')
    } else {
        &&& forall|k: int| begin + 2 <= k < end - 2 ==> !closes_comment(text, k)
        &&& ((begin + 4 <= end && closes_comment(text, end - 2)) || (end == text.len()
            && forall|k: int| begin + 2 <= k < end ==> !closes_comment(text, k)))
    }
}

/// Whether a lexeme is what the lexer cuts at its position.
pub open spec fn lexeme_fits(text: Seq<char>, l: Lexeme) -> bool {
    let b = l.begin as int;
    let e = l.end as int;
    &&& 0 <= b < e <= text.len()
    &&& if opens_comment(text, b) {
        l.kind == CatKind::Comment && is_comment(text, b, e)
    } else {
        match class_of(text[b]) {
            CharClass::Newline => l.kind == CatKind::Newline && e == b + 1,
            CharClass::Symbol => l.kind == CatKind::Symbol(text[b]) && e == b + 1,
            CharClass::Blank => l.kind == CatKind::Whitespace && is_run(text, b, e, CharClass::Blank),
            CharClass::Digit => l.kind == CatKind::Digits && is_run(text, b, e, CharClass::Digit),
            CharClass::Letter => l.kind == CatKind::Text && is_run(text, b, e, CharClass::Letter),
        }
    }
}

/// Whether lexemes cover a prefix of a text without gap or overlap, each
/// being what the lexer cuts at its position.
pub open spec fn covers(text: Seq<char>, lexemes: Seq<Lexeme>, upto: int) -> bool {
    &&& forall|i: int| 0 <= i < lexemes.len() ==> lexeme_fits(text, #[trigger] lexemes[i])
    &&& forall|i: int|
        0 <= i < lexemes.len() ==> (#[trigger] lexemes[i]).begin == if i == 0 {
            0
        } else {
            lexemes[i - 1].end as int
        }
    &&& upto == if lexemes.len() == 0 {
        0
    } else {
        lexemes.last().end as int
    }
}

/// A cover grows by a lexeme that fits and begins where the cover ends.
proof fn lemma_covers_push(text: Seq<char>, lexemes: Seq<Lexeme>, l: Lexeme)
    requires
        covers(text, lexemes, l.begin as int),
        lexeme_fits(text, l),
    ensures
        covers(text, lexemes.push(l), l.end as int),
{
    let grown = lexemes.push(l);
    assert forall|i: int| 0 <= i < grown.len() implies lexeme_fits(text, #[trigger] grown[i]) by {
        if i < lexemes.len() {
            assert(grown[i] == lexemes[i]);
        }
    }
    assert forall|i: int| 0 <= i < grown.len() implies (#[trigger] grown[i]).begin == if i == 0 {
        0
    } else {
        grown[i - 1].end as int
    } by {
        if i < lexemes.len() {
            assert(grown[i] == lexemes[i]);
            if i > 0 {
                assert(grown[i - 1] == lexemes[i - 1]);
            }
        }
    }
}

/// The class of a character.
pub fn classify(c: char) -> (r: CharClass)
    ensures
        r == class_of(c),
{
    let n = c as u32;
    if n == 0x0a {
        CharClass::Newline
    } else if n == 0x20 || n == 0x09 || n == 0x0d || n == 0xa0 {
        CharClass::Blank
    } else if 0x30 <= n && n <= 0x39 {
        CharClass::Digit
    } else if (0x21 <= n && n <= 0x2f) || (0x3a <= n && n <= 0x40) || (0x5b <= n && n <= 0x60) || (
    0x7b <= n && n <= 0x7e) {
        CharClass::Symbol
    } else {
        CharClass::Letter
    }
}

/// The end of the run of one class that begins at a position.
fn run_end(text: &Vec<char>, begin: usize, class: CharClass) -> (end: usize)
    requires
        begin < text.len(),
        class_of(text@[begin as int]) == class,
    ensures
        is_run(text@, begin as int, end as int, class),
{
    let mut end = begin + 1;
    while end < text.len() && classify(text[end]) == class
        invariant
            begin < end <= text.len(),
            forall|k: int| begin <= k < end ==> class_of(#[trigger] text@[k]) == class,
        decreases text.len() - end,
    {
        end += 1;
    }
    end
}

/// The end of the comment that opens at a position.
fn comment_end(text: &Vec<char>, begin: usize) -> (end: usize)
    requires
        opens_comment(text@, begin as int),
    ensures
        is_comment(text@, begin as int, end as int),
{
    let n = text.len();
    let mut end = begin + 2;
    if text[begin + 1] == '/' {
        while end < n && text[end] != '\n'
            invariant
                n == text.len(),
                begin + 2 <= end <= text.len(),
                forall|k: int| begin + 2 <= k < end ==> (#[trigger] text@[k]) != '\n',
            decreases text.len() - end,
        {
            end += 1;
        }
        end
    } else {
        while n - end > 1 && !(text[end] == '*' && text[end + 1] == '/')
            invariant
                n == text.len(),
                begin + 2 <= end <= text.len(),
                forall|k: int| begin + 2 <= k < end ==> !closes_comment(text@, k),
            decreases text.len() - end,
        {
            end += 1;
        }
        if n - end > 1 {
            end + 2
        } else {
            n
        }
    }
}

/// Cuts a text into lexemes. They cover the text without gap or overlap,
/// and each one is what the rules of the lexer cut at its position.
pub fn categorize(text: &Vec<char>) -> (r: Vec<Lexeme>)
    ensures
        covers(text@, r@, text@.len() as int),
{
    let mut out: Vec<Lexeme> = Vec::new();
    let mut pos: usize = 0;
    while pos < text.len()
        invariant
            pos <= text.len(),
            covers(text@, out@, pos as int),
        decreases text.len() - pos,
    {
        let c = text[pos];
        let comment = c == '/' && pos + 1 < text.len() && (text[pos + 1] == '/' || text[pos + 1]
            == '*');
        let mut kind = CatKind::Comment;
        let mut end = pos + 1;
        if comment {
            end = comment_end(text, pos);
        } else {
            match classify(c) {
                CharClass::Newline => {
                    kind = CatKind::Newline;
                },
                CharClass::Symbol => {
                    kind = CatKind::Symbol(c);
                },
                CharClass::Blank => {
                    kind = CatKind::Whitespace;
                    end = run_end(text, pos, CharClass::Blank);
                },
                CharClass::Digit => {
                    kind = CatKind::Digits;
                    end = run_end(text, pos, CharClass::Digit);
                },
                CharClass::Letter => {
                    kind = CatKind::Text;
                    end = run_end(text, pos, CharClass::Letter);
                },
            }
        }
        let l = Lexeme { kind, begin: pos, end };
        proof {
            assert(lexeme_fits(text@, l));
            lemma_covers_push(text@, out@, l);
        }
        out.push(l);
        pos = end;
    }
    out
}

} // verus!
