use svlog_core::cat::{categorize, classify, CharClass};
use svlog_core::macros::{expand, find_binding, Macro, MacroArg, MacroTable};
use svlog_core::token::{same_text, text_from_str, text_is, CatKind, Lexeme, Span, Token};

fn cut(s: &str) -> Vec<(CatKind, usize, usize)> {
    let text: Vec<char> = s.chars().collect();
    categorize(&text).iter().map(|l| (l.kind, l.begin, l.end)).collect()
}

#[test]
fn lexemes_cover_the_text() {
    assert_eq!(
        cut("ab 12\n_x"),
        vec![
            (CatKind::Text, 0, 2),
            (CatKind::Whitespace, 2, 3),
            (CatKind::Digits, 3, 5),
            (CatKind::Newline, 5, 6),
            (CatKind::Symbol('_'), 6, 7),
            (CatKind::Text, 7, 8),
        ]
    );
    assert_eq!(cut(""), vec![]);
    assert_eq!(cut("\n\n"), vec![(CatKind::Newline, 0, 1), (CatKind::Newline, 1, 2)]);
    assert_eq!(cut(" \t\r"), vec![(CatKind::Whitespace, 0, 3)]);
}

#[test]
fn comments_are_one_lexeme() {
    assert_eq!(
        cut("// a b\nc"),
        vec![(CatKind::Comment, 0, 6), (CatKind::Newline, 6, 7), (CatKind::Text, 7, 8)]
    );
    assert_eq!(cut("/* a\n*/c"), vec![(CatKind::Comment, 0, 7), (CatKind::Text, 7, 8)]);
    assert_eq!(cut("/* a"), vec![(CatKind::Comment, 0, 4)]);
    assert_eq!(cut("/*/"), vec![(CatKind::Comment, 0, 3)]);
    assert_eq!(cut("/**/x"), vec![(CatKind::Comment, 0, 4), (CatKind::Text, 4, 5)]);
    assert_eq!(cut("//"), vec![(CatKind::Comment, 0, 2)]);
    assert_eq!(cut("a/b"), vec![(CatKind::Text, 0, 1), (CatKind::Symbol('/'), 1, 2), (CatKind::Text, 2, 3)]);
    assert_eq!(cut("/"), vec![(CatKind::Symbol('/'), 0, 1)]);
}

#[test]
fn character_classes() {
    assert_eq!(classify('\n'), CharClass::Newline);
    assert_eq!(classify(' '), CharClass::Blank);
    assert_eq!(classify('\u{a0}'), CharClass::Blank);
    assert_eq!(classify('7'), CharClass::Digit);
    assert_eq!(classify('`'), CharClass::Symbol);
    assert_eq!(classify('$'), CharClass::Symbol);
    assert_eq!(classify('~'), CharClass::Symbol);
    assert_eq!(classify('z'), CharClass::Letter);
    assert_eq!(classify('é'), CharClass::Letter);
}

#[test]
fn spans() {
    let a = Span { source: 1, begin: 4, end: 9 };
    let b = Span { source: 1, begin: 2, end: 6 };
    let c = Span { source: 2, begin: 0, end: 50 };
    assert_eq!(Span::union(a, b), Span { source: 1, begin: 2, end: 9 });
    assert_eq!(Span::union(a, c), a);
    assert_eq!(a.begin(), Span { source: 1, begin: 4, end: 4 });
    assert_eq!(a.end(), Span { source: 1, begin: 9, end: 9 });
    let mut d = a;
    d.expand(b);
    assert_eq!(d, Span { source: 1, begin: 2, end: 9 });
    let contents = vec![text_from_str("zero"), text_from_str("0123456789")];
    assert_eq!(a.extract(&contents), text_from_str("45678"));
    assert_eq!(c.extract(&contents), Vec::<char>::new());
    assert_eq!(Span { source: 1, begin: 8, end: 11 }.extract(&contents), Vec::<char>::new());
    assert_eq!(Span::invalid().extract(&contents), Vec::<char>::new());
    assert_eq!(Lexeme { kind: CatKind::Text, begin: 0, end: 1 }.end, 1);
}

#[test]
fn texts() {
    assert!(text_is(&text_from_str("none"), "none"));
    assert!(!text_is(&text_from_str("none"), "non"));
    assert!(!text_is(&text_from_str("none"), "nine"));
    assert!(same_text(&text_from_str("ab"), &text_from_str("ab")));
    assert!(!same_text(&text_from_str("ab"), &text_from_str("ac")));
}

#[test]
fn macro_table() {
    let name = |s: &str| text_from_str(s);
    let mut table = MacroTable::new();
    assert!(!table.contains_key(&name("A")));
    table.insert(Macro::new(name("A"), Span::invalid()));
    table.insert(Macro::new(name("B"), Span { source: 0, begin: 1, end: 2 }));
    table.insert(Macro::new(name("A"), Span { source: 0, begin: 5, end: 6 }));
    assert_eq!(table.get(&name("A")).unwrap().span.begin, 5);
    assert!(table.contains_key(&name("B")));
    table.remove(&name("A"));
    assert!(table.get(&name("A")).is_none());
    table.remove(&name("A"));
    assert!(table.contains_key(&name("B")));
    table.clear();
    assert!(!table.contains_key(&name("B")));
}

#[test]
fn expansion_substitutes_text_tokens_only() {
    let contents = vec![text_from_str("x_1y")];
    let tok = |kind, begin, end| Token { kind, span: Span { source: 0, begin, end } };
    let x = tok(CatKind::Text, 0, 1);
    let under = tok(CatKind::Symbol('_'), 1, 2);
    let one = tok(CatKind::Digits, 2, 3);
    let y = tok(CatKind::Text, 3, 4);
    let mut m = Macro::new(text_from_str("m"), Span::invalid());
    m.args.push(MacroArg::new(text_from_str("x"), Span::invalid()));
    m.args.push(MacroArg::new(text_from_str("y"), Span::invalid()));
    m.body = vec![x, under, y, x];
    let actuals = vec![vec![one, one], vec![]];
    assert_eq!(expand(&contents, &m, &actuals), vec![one, one, under, one, one]);
    assert_eq!(find_binding(&m, &actuals, &text_from_str("y")), Some(1));
    assert_eq!(find_binding(&m, &actuals, &text_from_str("z")), None);
    assert_eq!(expand(&contents, &m, &vec![vec![y]]), vec![y, under, y, y]);
    assert_eq!(expand(&contents, &m, &vec![]), vec![x, under, y, x]);
    assert_eq!(m.duplicate().body, m.body);
}
