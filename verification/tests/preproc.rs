use svlog_core::model::{Defcond, Directive, ErrorKind};
use svlog_core::preproc::{Diagnostic, Predefined, Preprocessor, SourceText, Step};
use svlog_core::token::{CatKind, Token};

fn text_of(chars: &[char]) -> String {
    chars.iter().collect()
}

fn drive(pp: &mut Preprocessor, files: &[(&str, &str)]) -> Result<Vec<Token>, Diagnostic> {
    let mut out = Vec::new();
    loop {
        match pp.next(10_000) {
            Step::Emitted(t) => out.push(t),
            Step::Skipped => return Ok(out),
            Step::Finished => return Ok(out),
            Step::Failed(d) => return Err(d),
            Step::Include(req) => {
                let name = text_of(&req.filename);
                match files.iter().find(|f| f.0 == name) {
                    Some(f) => pp.enter_include(SourceText::new(f.1)),
                    None => return Err(pp.fail_include(req)),
                }
            }
        }
    }
}

fn emitted(pp: &mut Preprocessor, files: &[(&str, &str)]) -> String {
    let tokens = match drive(pp, files) {
        Ok(t) => t,
        Err(d) => panic!("{:?}", d),
    };
    tokens.iter().map(|t| text_of(&pp.extract(t.span))).collect()
}

fn preproc(input: &str) -> Preprocessor {
    Preprocessor::new(SourceText::new(input), Vec::new())
}

fn check_str(input: &str, expected: &str) {
    let mut pp = preproc(input);
    let actual = emitted(&mut pp, &[]);
    assert_eq!(actual, expected);
}

fn failure(input: &str) -> Diagnostic {
    let mut pp = preproc(input);
    match drive(&mut pp, &[]) {
        Ok(_) => panic!("the stream did not fail"),
        Err(d) => d,
    }
}

#[test]
fn include_plain() {
    let files = [("other.sv", "bar\n")];
    let mut pp = preproc("foo\n`include \"other.sv\"\nbaz");
    let actual: Vec<CatKind> = drive(&mut pp, &files).unwrap().iter().map(|t| t.kind).collect();
    assert_eq!(
        actual,
        &[
            CatKind::Text,
            CatKind::Newline,
            CatKind::Text,
            CatKind::Newline,
            CatKind::Newline,
            CatKind::Text,
        ]
    );
}

#[test]
fn include_text() {
    let files = [("other.sv", "bar\n")];
    let mut pp = preproc("foo\n`include \"other.sv\"\nbaz");
    assert_eq!(emitted(&mut pp, &files), "foo\nbar\n\nbaz");
}

#[test]
fn include_and_define() {
    let files = [("other.sv", "/* World */\n`define foo 42\nbar")];
    let mut pp = preproc("// Hello\n`include \"other.sv\"\n`foo something\n");
    let actual = emitted(&mut pp, &files);
    assert_eq!(actual, "// Hello\n/* World */\nbar\n42 something\n");
}

#[test]
#[should_panic(expected = "unknown compiler directive")]
fn conditional_define() {
    let mut pp = preproc("`ifdef FOO\n`define BAR\n`endif\n`BAR");
    loop {
        match pp.next(10_000) {
            Step::Failed(d) => panic!("{}", text_of(&d.message())),
            Step::Finished => break,
            _ => {}
        }
    }
}

#[test]
fn conditional_define_names_the_macro() {
    let d = failure("`ifdef FOO\n`define BAR\n`endif\n`BAR");
    assert_eq!(d.kind, ErrorKind::UnknownDirective);
    assert_eq!(text_of(&d.text), "BAR");
    assert_eq!(d.span.map(|s| (s.source, s.begin, s.end)), Some((0, 30, 34)));
}

#[test]
fn macro_args() {
    check_str(
        "`define foo(x,y) {x + y _bar}\n`foo(12, foo)\n",
        "{12 +  foo _bar}\n",
    );
}

#[test]
fn macro_noargs_parentheses() {
    check_str(
        "`define FOO 4\n`define BAR (`FOO+$clog2(2))\n`BAR",
        "(4+$clog2(2))",
    );
}

#[test]
fn macro_name_with_digits_and_underscores() {
    check_str("`define AXI_BUS21_SV 42\n`AXI_BUS21_SV", "42");
}

#[test]
fn include_of_a_missing_file_fails() {
    let mut pp = preproc("`include \"nowhere.sv\"\n");
    let d = drive(&mut pp, &[]).unwrap_err();
    assert_eq!(d.kind, ErrorKind::IncludeNotFound);
    assert_eq!(text_of(&d.text), "nowhere.sv");
    assert!(matches!(pp.next(10), Step::Finished));
}

#[test]
fn include_with_angular_brackets() {
    let files = [("lib.svh", "x")];
    let mut pp = preproc("`include <lib.svh>\ny");
    assert_eq!(emitted(&mut pp, &files), "x\ny");
}

#[test]
fn include_errors() {
    assert_eq!(failure("`include other").kind, ErrorKind::MissingIncludeName);
    assert_eq!(failure("`include \"a\nb\"").kind, ErrorKind::IncludeNameLineBreak);
    assert_eq!(failure("`include \"a").kind, ErrorKind::IncludeNameEnd);
}

#[test]
fn define_errors() {
    assert_eq!(failure("`define 1").kind, ErrorKind::MissingDefineName);
    assert_eq!(failure("`define f(1) x\n").kind, ErrorKind::MissingArgumentName);
    assert_eq!(failure("`define f(a b) x\n").kind, ErrorKind::BadArgumentSeparator);
    assert_eq!(failure("`define f(a").kind, ErrorKind::UnclosedDefinition);
    assert_eq!(failure("`undef 1").kind, ErrorKind::MissingUndefName);
}

#[test]
fn conditional_errors() {
    assert_eq!(failure("`ifdef 1").kind, ErrorKind::MissingConditionName);
    assert_eq!(failure("`elsif A\n").kind, ErrorKind::StrayElsif);
    assert_eq!(failure("`else\n").kind, ErrorKind::StrayElse);
    assert_eq!(failure("`endif\n").kind, ErrorKind::StrayEndif);
    let d = failure("`ifndef +");
    assert_eq!(text_of(&d.text), "ifndef");
}

#[test]
fn macro_use_errors() {
    assert_eq!(failure("`define f(a) a\n`f x").kind, ErrorKind::MissingParameters);
    let d = failure("`define f(a) a\n`f(1,2)");
    assert_eq!(d.kind, ErrorKind::SuperfluousParameters);
    assert_eq!(d.span, None);
    assert_eq!(failure("`define f(a) a\n`f(1").kind, ErrorKind::UnclosedParameters);
    assert_eq!(failure("`default_nettype 1").kind, ErrorKind::MissingNettype);
    assert_eq!(failure("` x").kind, ErrorKind::BadBacktick);
}

#[test]
fn a_failure_ends_the_stream() {
    let mut pp = preproc("a `endif b");
    assert!(matches!(pp.next(10), Step::Emitted(_)));
    assert!(matches!(pp.next(10), Step::Emitted(_)));
    assert!(matches!(pp.next(10), Step::Failed(_)));
    assert!(matches!(pp.next(10), Step::Finished));
    assert!(matches!(pp.next(0), Step::Finished));
}

#[test]
fn escapes_after_a_backtick() {
    check_str("a`\"b`\\c``d", "a\"b\\cd");
}

#[test]
fn ifdef_takes_the_first_branch_that_holds() {
    let src = "`define B\n`ifdef A\na\n`elsif B\nb\n`elsif B\nc\n`else\nd\n`endif\ne";
    check_str(src, "\nb\n\ne");
    check_str("`ifndef A\na\n`else\nb\n`endif\n", "\na\n\n");
    check_str("`ifdef A\na\n`else\nb\n`endif\n", "\nb\n\n");
}

#[test]
fn nested_conditionals_stay_off_inside_a_dropped_branch() {
    let src = "`define X\n`ifdef A\n`ifdef X\nx\n`else\ny\n`endif\n`else\nz\n`endif\n";
    check_str(src, "\nz\n\n");
}

#[test]
fn depth_follows_the_open_groups() {
    let mut pp = preproc("`ifdef A\n`ifndef B\n");
    drive(&mut pp, &[]).unwrap();
    assert_eq!(pp.depth(), 2);
}

#[test]
fn undef_and_undefineall() {
    check_str("`define A 1\n`undef A\n`undef A\n`ifdef A\nyes\n`endif\nno", "\n\n\nno");
    let mut pp = preproc("`undefineall\n`define X V\n`undefineall\nrest");
    assert_eq!(emitted(&mut pp, &[]), "\n\nrest");
    assert!(!pp.is_defined(&"X".chars().collect()));
}

#[test]
fn define_replaces_an_earlier_definition() {
    check_str("`define A 1\n`define A 2\n`A", "2");
}

#[test]
fn body_continues_after_a_backslash() {
    check_str("`define A 1 \\\n+ 2\n`A;", "1 + 2;");
}

#[test]
fn arguments_may_hold_parentheses() {
    check_str("`define f(a,b) [a|b]\n`f((1,2),g(3))", "[(1,2)|g(3)]");
}

#[test]
fn fewer_arguments_leave_parameters_as_they_are() {
    check_str("`define f(a,b) a b\n`f(1)", "1 b");
}

#[test]
fn predefined_macros() {
    let pre = vec![Predefined::new("WIDTH", Some("8 + 1")), Predefined::new("FLAG", None)];
    let mut pp = Preprocessor::new(SourceText::new("`ifdef FLAG\n`WIDTH\n`endif\n"), pre);
    assert_eq!(emitted(&mut pp, &[]), "\n8 + 1\n\n");
}

#[test]
fn timescale_is_skipped() {
    check_str("`timescale 1ns/1ps\nx", "x");
    check_str("`timescale 1ns/1ps", "");
    check_str("`ifdef A\n`timescale 1ns\nx\n`endif\ny", "\ny");
}

#[test]
fn current_file_and_line_follow_the_lookahead() {
    let mut pp = preproc("`__FILE__ a");
    let tokens = drive(&mut pp, &[]).unwrap();
    let kinds: Vec<CatKind> = tokens.iter().map(|t| t.kind).collect();
    assert_eq!(kinds, &[CatKind::Whitespace, CatKind::Text, CatKind::Text]);
    assert_eq!(text_of(&pp.extract(tokens[1].span)), "`__FILE__");
    let mut pp = preproc("`__LINE__;");
    let tokens = drive(&mut pp, &[]).unwrap();
    let kinds: Vec<CatKind> = tokens.iter().map(|t| t.kind).collect();
    assert_eq!(kinds, &[CatKind::Symbol(';'), CatKind::Digits]);
}

#[test]
fn sticky_directives() {
    let mut pp = preproc("`celldefine\n`default_nettype wire\n");
    drive(&mut pp, &[]).unwrap();
    assert!(pp.directives().celldefine);
    let net = pp.directives().default_nettype.unwrap();
    assert_eq!(text_of(&pp.extract(net.span)), "wire");
    let mut pp = preproc("`celldefine\n`endcelldefine\n`default_nettype wire\n`default_nettype none\n");
    drive(&mut pp, &[]).unwrap();
    assert!(!pp.directives().celldefine);
    assert!(pp.directives().default_nettype.is_none());
    let mut pp = preproc("`celldefine\n`default_nettype wire\n`resetall\n");
    drive(&mut pp, &[]).unwrap();
    assert!(!pp.directives().celldefine);
    assert!(pp.directives().default_nettype.is_none());
}

#[test]
fn directives_are_known_by_name() {
    let name = |s: &str| Directive::lookup(&s.chars().collect());
    assert_eq!(name("include"), Directive::Include);
    assert_eq!(name("__LINE__"), Directive::CurrentLine);
    assert_eq!(name("default_nettype"), Directive::DefaultNettype);
    assert_eq!(name("foo"), Directive::Unknown);
    assert_eq!(Defcond::Done, Defcond::Done);
}

#[test]
fn a_silent_run_stops_at_its_limit() {
    let mut pp = preproc("`define A `A\n`A");
    assert!(matches!(pp.next(50), Step::Skipped));
    assert!(matches!(pp.next(50), Step::Skipped));
}

#[test]
fn diagnostics_say_what_went_wrong() {
    let say = |input: &str| text_of(&failure(input).message());
    assert_eq!(say("`BAR"), "unknown compiler directive '`BAR'");
    assert_eq!(say("`ifdef +"), "expected macro name after ifdef");
    assert_eq!(say("`define 1"), "expected macro name after \"`define\"");
    assert_eq!(say("`endif"), "found `endif without any preceeding `ifdef, `ifndef, `else, or `elsif directive");
    assert_eq!(say("`define f(a) a\n`f(1,2)"), "superfluous macro parameters");
    assert_eq!(say("` x"), "expected compiler directive after '`', or '``', '`\"', or '`\\'");
    let mut pp = preproc("`include \"nowhere.sv\"\n");
    let d = drive(&mut pp, &[]).unwrap_err();
    assert_eq!(text_of(&d.message()), "cannot open included file \"nowhere.sv\"");
    assert_eq!(ErrorKind::MissingNettype.head(), "expected nettype after `default_nettype");
    assert_eq!(ErrorKind::MissingNettype.tail(), "");
}

#[test]
fn directives_as_they_are_written() {
    assert_eq!(Directive::Include.text(), "`include");
    assert_eq!(Directive::CurrentFile.text(), "`__FILE__");
    assert_eq!(Directive::DefaultNettype.text(), "`default_nettype");
    assert_eq!(Directive::Unknown.text(), "unknown");
}
