//! The preprocessor as a mathematical state machine: its state, and what each
//! directive and each step does to it.

use crate::macros::{expansion, MacroArgModel, MacroModel};
use crate::token::{invalid_span, span_union, text_of, tokens_of, CatKind, Lexeme, Span, Token};
use vstd::prelude::*;

verus! {

/// The state of one level of conditional compilation.
#[derive(Clone, Copy, Debug, PartialEq, Eq, Structural)]
pub enum Defcond {
    /// An earlier branch of this group was taken: no later one can be.
    Done,
    /// Tokens are let through.
    Enabled,
    /// Tokens are dropped, and a later branch may still be taken.
    Disabled,
}

/// The directives whose effect lasts until they are reset.
#[derive(Clone, Copy, Debug)]
pub struct Directives {
    pub celldefine: bool,
    pub default_nettype: Option<Token>,
}

/// The directive set in which nothing is switched on.
pub open spec fn default_directives() -> Directives {
    Directives { celldefine: false, default_nettype: None }
}

/// The compiler directives that the preprocessor knows by name.
#[derive(Clone, Copy, Debug, PartialEq, Eq, Structural)]
pub enum Directive {
    Include,
    Define,
    Undef,
    Undefineall,
    Ifdef,
    Ifndef,
    Else,
    Elsif,
    Endif,
    Timescale,
    CurrentFile,
    CurrentLine,
    Resetall,
    Celldefine,
    Endcelldefine,
    DefaultNettype,
    Unknown,
}

/// The directive that a name stands for.
pub open spec fn directive_named(name: Seq<char>) -> Directive {
    if name == "include"@ {
        Directive::Include
    } else if name == "define"@ {
        Directive::Define
    } else if name == "undef"@ {
        Directive::Undef
    } else if name == "undefineall"@ {
        Directive::Undefineall
    } else if name == "ifdef"@ {
        Directive::Ifdef
    } else if name == "ifndef"@ {
        Directive::Ifndef
    } else if name == "else"@ {
        Directive::Else
    } else if name == "elsif"@ {
        Directive::Elsif
    } else if name == "endif"@ {
        Directive::Endif
    } else if name == "__FILE__"@ {
        Directive::CurrentFile
    } else if name == "__LINE__"@ {
        Directive::CurrentLine
    } else if name == "resetall"@ {
        Directive::Resetall
    } else if name == "celldefine"@ {
        Directive::Celldefine
    } else if name == "endcelldefine"@ {
        Directive::Endcelldefine
    } else if name == "default_nettype"@ {
        Directive::DefaultNettype
    } else if name == "timescale"@ {
        Directive::Timescale
    } else {
        Directive::Unknown
    }
}

/// How a directive is written.
pub open spec fn directive_text(dir: Directive) -> Seq<char> {
    match dir {
        Directive::Include => "`include"@,
        Directive::Define => "`define"@,
        Directive::Undef => "`undef"@,
        Directive::Undefineall => "`undefineall"@,
        Directive::Ifdef => "`ifdef"@,
        Directive::Ifndef => "`ifndef"@,
        Directive::Else => "`else"@,
        Directive::Elsif => "`elsif"@,
        Directive::Endif => "`endif"@,
        Directive::Timescale => "`timescale"@,
        Directive::CurrentFile => "`__FILE__"@,
        Directive::CurrentLine => "`__LINE__"@,
        Directive::Resetall => "`resetall"@,
        Directive::Celldefine => "`celldefine"@,
        Directive::Endcelldefine => "`endcelldefine"@,
        Directive::DefaultNettype => "`default_nettype"@,
        Directive::Unknown => "unknown"@,
    }
}

/// What went wrong when the preprocessor gave up.
#[derive(Clone, Copy, Debug, PartialEq, Eq, Structural)]
pub enum ErrorKind {
    /// No quoted or bracketed file name follows `include`.
    MissingIncludeName,
    /// A line break stands inside the name of an included file.
    IncludeNameLineBreak,
    /// The input ends inside the name of an included file.
    IncludeNameEnd,
    /// The included file cannot be opened.
    IncludeNotFound,
    /// No macro name follows `define`.
    MissingDefineName,
    /// A formal parameter of a macro definition is not a name.
    MissingArgumentName,
    /// Something other than `,` or `)` follows a formal parameter.
    BadArgumentSeparator,
    /// The input ends inside the parameter list of a macro definition.
    UnclosedDefinition,
    /// No macro name follows `undef`.
    MissingUndefName,
    /// No macro name follows `ifdef`, `ifndef` or `elsif`.
    MissingConditionName,
    /// `elsif` without an open conditional group.
    StrayElsif,
    /// `else` without an open conditional group.
    StrayElse,
    /// `endif` without an open conditional group.
    StrayEndif,
    /// A macro with parameters is used without an argument list.
    MissingParameters,
    /// A macro is used with more arguments than it has parameters.
    SuperfluousParameters,
    /// The input ends inside the argument list of a macro use.
    UnclosedParameters,
    /// No net type follows `default_nettype`.
    MissingNettype,
    /// The name after a backtick is neither a directive nor a macro.
    UnknownDirective,
    /// A backtick is followed by something that cannot follow one.
    BadBacktick,
}

/// The mathematical value of a fatal diagnostic.
pub struct DiagnosticModel {
    pub kind: ErrorKind,
    pub span: Option<Span>,
    pub text: Seq<char>,
}

/// What a diagnostic says before the name or file name it is about.
pub open spec fn message_head(kind: ErrorKind) -> Seq<char> {
    match kind {
        ErrorKind::MissingIncludeName =>
            "expected filename inside double quotes (\"...\") or angular brackets (<...>) after `include"@,
        ErrorKind::IncludeNameLineBreak =>
            "expected end of included file's name before line break"@,
        ErrorKind::IncludeNameEnd =>
            "expected filename after `include directive before the end of the input"@,
        ErrorKind::IncludeNotFound => "cannot open included file \""@,
        ErrorKind::MissingDefineName => "expected macro name after \"`define\""@,
        ErrorKind::MissingArgumentName => "expected macro argument name"@,
        ErrorKind::BadArgumentSeparator => "expected , or ) after macro argument name"@,
        ErrorKind::UnclosedDefinition =>
            "expected closing parenthesis at the end of the macro definition"@,
        ErrorKind::MissingUndefName => "expected macro name after \"`undef\""@,
        ErrorKind::MissingConditionName => "expected macro name after "@,
        ErrorKind::StrayElsif =>
            "found `elsif without any preceeding `ifdef, `ifndef, or `elsif directive"@,
        ErrorKind::StrayElse =>
            "found `else without any preceeding `ifdef, `ifndef, or `elsif directive"@,
        ErrorKind::StrayEndif =>
            "found `endif without any preceeding `ifdef, `ifndef, `else, or `elsif directive"@,
        ErrorKind::MissingParameters => "expected macro parameters in parentheses '(...)'"@,
        ErrorKind::SuperfluousParameters => "superfluous macro parameters"@,
        ErrorKind::UnclosedParameters => "expected closing parenthesis after macro parameters"@,
        ErrorKind::MissingNettype => "expected nettype after `default_nettype"@,
        ErrorKind::UnknownDirective => "unknown compiler directive '`"@,
        ErrorKind::BadBacktick =>
            "expected compiler directive after '`', or '``', '`\"', or '`\\'"@,
    }
}

/// What a diagnostic says after the name or file name it is about.
pub open spec fn message_tail(kind: ErrorKind) -> Seq<char> {
    match kind {
        ErrorKind::IncludeNotFound => "\""@,
        ErrorKind::UnknownDirective => "'"@,
        _ => ""@,
    }
}

/// What a diagnostic says.
pub open spec fn message_text(d: DiagnosticModel) -> Seq<char> {
    message_head(d.kind) + d.text + message_tail(d.kind)
}

/// The mathematical value of a request to open an included file.
pub struct IncludeModel {
    pub filename: Seq<char>,
    pub origin: usize,
    pub span: Span,
}

/// The mathematical value of what one step of the preprocessor yields.
pub enum StepModel {
    Emitted(Token),
    Skipped,
    Finished,
    Failed(DiagnosticModel),
    Include(IncludeModel),
}

/// A diagnostic of the given kind at a span, without further text.
pub open spec fn failure(kind: ErrorKind, span: Span) -> StepModel {
    StepModel::Failed(plain_diagnostic(kind, span))
}

/// A diagnostic of the given kind at a span, without further text.
pub open spec fn plain_diagnostic(kind: ErrorKind, span: Span) -> DiagnosticModel {
    DiagnosticModel { kind, span: Some(span), text: Seq::empty() }
}

/// Whether a token of this kind can begin a name.
pub open spec fn starts_name(kind: CatKind) -> bool {
    kind == CatKind::Text || kind == CatKind::Symbol('_')
}

/// Whether a token of this kind can continue a name.
pub open spec fn continues_name(kind: CatKind) -> bool {
    kind == CatKind::Text || kind == CatKind::Digits || kind == CatKind::Symbol('_')
}

/// The state that an `else` leaves a conditional level in.
pub open spec fn after_else(top: Defcond) -> Defcond {
    match top {
        Defcond::Disabled => Defcond::Enabled,
        _ => Defcond::Done,
    }
}

/// The nesting depth after a token of an actual macro argument.
pub open spec fn nesting_after(kind: CatKind, nesting: nat) -> nat {
    if kind == CatKind::Symbol('(') {
        nesting + 1
    } else if kind == CatKind::Symbol(')') && nesting > 0 {
        (nesting - 1) as nat
    } else {
        nesting
    }
}

/// The outcome of reading a list: a diagnostic if reading failed, what was
/// read, and the state it left.
pub struct Listed<T> {
    pub error: Option<DiagnosticModel>,
    pub items: Seq<T>,
    pub state: PreprocModel,
}

/// The outcome of reading one actual argument of a macro use.
pub struct Actual {
    pub error: Option<DiagnosticModel>,
    pub tokens: Seq<Token>,
    pub closed: bool,
    pub state: PreprocModel,
}

/// A name that was read, the span it covers, and the state after it.
pub struct Named {
    pub name: Seq<char>,
    pub span: Span,
    pub state: PreprocModel,
}

/// The state of the preprocessor.
pub struct PreprocModel {
    /// The token under inspection.
    pub token: Option<Token>,
    /// The tokens waiting for reinjection, in the order in which they are
    /// served.
    pub injected: Seq<Token>,
    /// The tokens left in the open sources, in the order in which they are
    /// served once nothing waits for reinjection.
    pub streamed: Seq<Token>,
    /// The texts of all sources seen so far.
    pub contents: Seq<Seq<char>>,
    /// The macros defined, by name.
    pub defs: Map<Seq<char>, MacroModel>,
    /// The open conditional groups, innermost last.
    pub conds: Seq<Defcond>,
    /// The sticky directives.
    pub dirs: Directives,
    /// Whether a fatal diagnostic has ended the stream.
    pub halted: bool,
}

impl PreprocModel {
    /// The number of tokens that are still to be inspected.
    pub open spec fn fuel(self) -> nat {
        self.injected.len() + self.streamed.len() + if self.token is Some {
            1nat
        } else {
            0nat
        }
    }

    /// Advances to the next token: a reinjected one if any waits, else one
    /// of the open sources, else none.
    pub open spec fn bump(self) -> PreprocModel {
        if self.injected.len() > 0 {
            PreprocModel {
                token: Some(self.injected[0]),
                injected: self.injected.drop_first(),
                ..self
            }
        } else if self.streamed.len() > 0 {
            PreprocModel {
                token: Some(self.streamed[0]),
                streamed: self.streamed.drop_first(),
                ..self
            }
        } else {
            PreprocModel { token: None, ..self }
        }
    }

    /// Fetches a token if none is under inspection.
    pub open spec fn primed(self) -> PreprocModel {
        if self.token is None {
            self.bump()
        } else {
            self
        }
    }

    /// Puts a token in front of everything that waits to be served.
    pub open spec fn inject(self, tok: Token) -> PreprocModel {
        PreprocModel { injected: seq![tok] + self.injected, ..self }
    }

    /// Whether tokens are currently dropped: some conditional group is open
    /// and the innermost one is not enabled.
    pub open spec fn is_inactive(self) -> bool {
        self.conds.len() > 0 && self.conds.last() != Defcond::Enabled
    }

    /// Whether the token under inspection has this kind.
    pub open spec fn at_kind(self, kind: CatKind) -> bool {
        self.token is Some && self.token->0.kind == kind
    }

    /// Whether the token under inspection is this symbol.
    pub open spec fn at_symbol(self, c: char) -> bool {
        self.at_kind(CatKind::Symbol(c))
    }

    /// The text that a span covers.
    pub open spec fn text(self, span: Span) -> Seq<char> {
        text_of(self.contents, span)
    }

    /// Skips one whitespace token if one is under inspection.
    pub open spec fn skip_blank(self) -> PreprocModel {
        if self.at_kind(CatKind::Whitespace) {
            self.bump()
        } else {
            self
        }
    }

    /// The state with another stack of conditional groups.
    pub open spec fn with_conds(self, conds: Seq<Defcond>) -> PreprocModel {
        PreprocModel { conds, ..self }
    }

    /// The state after a fatal diagnostic.
    pub open spec fn halt(self) -> PreprocModel {
        PreprocModel { halted: true, ..self }
    }

    /// Reads the rest of a name: every following token that can continue
    /// one, their texts joined and their spans united.
    pub open spec fn eat_name_rest(self, name: Seq<char>, span: Span) -> Named
        decreases self.fuel(),
    {
        if self.token is Some && continues_name(self.token->0.kind) {
            self.bump().eat_name_rest(
                name + self.text(self.token->0.span),
                span_union(span, self.token->0.span),
            )
        } else {
            Named { name, span, state: self }
        }
    }

    /// Reads a name if one begins at the token under inspection.
    pub open spec fn eat_name(self) -> Option<Named> {
        if self.token is Some && starts_name(self.token->0.kind) {
            Some(
                self.bump().eat_name_rest(self.text(self.token->0.span), self.token->0.span),
            )
        } else {
            None
        }
    }

    /// The state of a conditional level that opens here and whose guard
    /// holds or not.
    pub open spec fn guard(self, holds: bool) -> Defcond {
        if self.is_inactive() {
            Defcond::Done
        } else if holds {
            Defcond::Enabled
        } else {
            Defcond::Disabled
        }
    }

    /// Reads the name of an included file up to the closing symbol.
    pub open spec fn include_name(
        self,
        closing: char,
        span: Span,
        from: Span,
        name: Seq<char>,
    ) -> (StepModel, PreprocModel)
        decreases self.fuel(),
    {
        match self.token {
            None => (failure(ErrorKind::IncludeNameEnd, span), self),
            Some(t) => if t.kind == CatKind::Symbol(closing) {
                (
                    StepModel::Include(
                        IncludeModel {
                            filename: name,
                            origin: span.source,
                            span: span_union(
                                from,
                                Span { source: t.span.source, begin: t.span.begin, end: t.span.begin },
                            ),
                        },
                    ),
                    self,
                )
            } else if t.kind == CatKind::Newline {
                (failure(ErrorKind::IncludeNameLineBreak, t.span), self)
            } else {
                self.bump().include_name(closing, span, from, name + self.text(t.span))
            },
        }
    }

    /// The directive `include`: finds the name of the file to open.
    pub open spec fn handle_include(self, span: Span) -> (StepModel, PreprocModel) {
        if self.is_inactive() {
            (StepModel::Skipped, self)
        } else {
            let m = self.skip_blank();
            if m.at_symbol('"') || m.at_symbol('<') {
                let sp = m.token->0.span;
                m.bump().include_name(
                    if m.at_symbol('"') {
                        '"'
                    } else {
                        '>'
                    },
                    span,
                    Span { source: sp.source, begin: sp.end, end: sp.end },
                    Seq::empty(),
                )
            } else {
                (failure(ErrorKind::MissingIncludeName, span), m)
            }
        }
    }

    /// The state after a source was opened for a pending `include`.
    pub open spec fn enter_include(self, text: Seq<char>, tokens: Seq<Token>) -> PreprocModel {
        PreprocModel {
            contents: self.contents.push(text),
            streamed: tokens + self.streamed,
            ..self
        }.bump()
    }

    /// Reads the formal parameters of a macro definition up to the closing
    /// parenthesis, which stays under inspection.
    pub open spec fn define_args(self, span: Span, args: Seq<MacroArgModel>) -> Listed<
        MacroArgModel,
    >
        decreases self.fuel(),
    {
        if self.at_symbol(')') {
            Listed { error: None, items: args, state: self }
        } else {
            let m1 = self.skip_blank();
            match m1.eat_name() {
                None => Listed {
                    error: Some(plain_diagnostic(ErrorKind::MissingArgumentName, span)),
                    items: args,
                    state: m1,
                },
                Some(named) => {
                    let args2 = args.push(MacroArgModel { name: named.name, span: named.span });
                    let m3 = named.state.skip_blank();
                    if m3.at_symbol(',') {
                        proof {
                            lemma_eat_name_fuel(m1);
                        }
                        m3.bump().define_args(span, args2)
                    } else if m3.at_symbol(')') {
                        Listed { error: None, items: args2, state: m3 }
                    } else {
                        Listed {
                            error: Some(
                                match m3.token {
                                    Some(t) => plain_diagnostic(
                                        ErrorKind::BadArgumentSeparator,
                                        t.span,
                                    ),
                                    None => plain_diagnostic(ErrorKind::UnclosedDefinition, span),
                                },
                            ),
                            items: args2,
                            state: m3,
                        }
                    }
                },
            }
        }
    }

    /// Reads the body of a macro definition: the tokens up to the next line
    /// break. A backslash is dropped, and so is a line break right after it.
    pub open spec fn define_body(self, body: Seq<Token>) -> (Seq<Token>, PreprocModel)
        decreases self.fuel(),
    {
        match self.token {
            None => (body, self),
            Some(t) => if t.kind == CatKind::Newline {
                (body, self.bump())
            } else if t.kind == CatKind::Symbol('\\') {
                let m = self.bump();
                if m.at_kind(CatKind::Newline) {
                    m.bump().define_body(body)
                } else {
                    m.define_body(body)
                }
            } else {
                self.bump().define_body(body.push(t))
            },
        }
    }

    /// The directive `define`.
    pub open spec fn handle_define(self, span: Span) -> (StepModel, PreprocModel) {
        if self.is_inactive() {
            (StepModel::Skipped, self)
        } else {
            let m1 = self.skip_blank();
            match m1.eat_name() {
                None => (failure(ErrorKind::MissingDefineName, span), m1),
                Some(named) => {
                    let listed = if named.state.at_symbol('(') {
                        named.state.bump().define_args(span, Seq::empty())
                    } else {
                        Listed { error: None, items: Seq::empty(), state: named.state }
                    };
                    match listed.error {
                        Some(d) => (StepModel::Failed(d), listed.state),
                        None => {
                            let m2 = if named.state.at_symbol('(') {
                                listed.state.bump()
                            } else {
                                listed.state
                            };
                            let (body, m3) = m2.skip_blank().define_body(Seq::empty());
                            (
                                StepModel::Skipped,
                                PreprocModel {
                                    defs: m3.defs.insert(
                                        named.name,
                                        MacroModel {
                                            name: named.name,
                                            span: named.span,
                                            args: listed.items,
                                            body,
                                        },
                                    ),
                                    ..m3
                                },
                            )
                        },
                    }
                },
            }
        }
    }

    /// The directive `undef`.
    pub open spec fn handle_undef(self, span: Span) -> (StepModel, PreprocModel) {
        if self.is_inactive() {
            (StepModel::Skipped, self)
        } else {
            let m1 = self.skip_blank();
            match m1.eat_name() {
                None => (failure(ErrorKind::MissingUndefName, span), m1),
                Some(named) => (
                    StepModel::Skipped,
                    PreprocModel { defs: named.state.defs.remove(named.name), ..named.state },
                ),
            }
        }
    }

    /// The directive `undefineall`.
    pub open spec fn handle_undefineall(self) -> (StepModel, PreprocModel) {
        if self.is_inactive() {
            (StepModel::Skipped, self)
        } else {
            (StepModel::Skipped, PreprocModel { defs: Map::empty(), ..self })
        }
    }

    /// The directives `ifdef`, `ifndef` and `elsif`.
    pub open spec fn handle_conditional(self, dir: Directive, name: Seq<char>, span: Span) -> (
        StepModel,
        PreprocModel,
    ) {
        let m1 = self.skip_blank();
        match m1.eat_name() {
            None => (
                StepModel::Failed(
                    DiagnosticModel {
                        kind: ErrorKind::MissingConditionName,
                        span: Some(span),
                        text: name,
                    },
                ),
                m1,
            ),
            Some(named) => {
                let m2 = named.state;
                let exists = m2.defs.contains_key(named.name);
                if dir == Directive::Ifdef {
                    (StepModel::Skipped, m2.with_conds(m2.conds.push(m2.guard(exists))))
                } else if dir == Directive::Ifndef {
                    (StepModel::Skipped, m2.with_conds(m2.conds.push(m2.guard(!exists))))
                } else if m2.conds.len() == 0 {
                    (failure(ErrorKind::StrayElsif, span), m2)
                } else {
                    let outer = m2.with_conds(m2.conds.drop_last());
                    (
                        StepModel::Skipped,
                        outer.with_conds(
                            outer.conds.push(
                                if m2.conds.last() == Defcond::Disabled {
                                    outer.guard(exists)
                                } else {
                                    Defcond::Done
                                },
                            ),
                        ),
                    )
                }
            },
        }
    }

    /// The directive `else`.
    pub open spec fn handle_else(self, span: Span) -> (StepModel, PreprocModel) {
        if self.conds.len() == 0 {
            (failure(ErrorKind::StrayElse, span), self)
        } else {
            (
                StepModel::Skipped,
                self.with_conds(self.conds.drop_last().push(after_else(self.conds.last()))),
            )
        }
    }

    /// The directive `endif`.
    pub open spec fn handle_endif(self, span: Span) -> (StepModel, PreprocModel) {
        if self.conds.len() == 0 {
            (failure(ErrorKind::StrayEndif, span), self)
        } else {
            (StepModel::Skipped, self.with_conds(self.conds.drop_last()))
        }
    }

    /// Skips the tokens through the next line break.
    pub open spec fn skip_line(self) -> PreprocModel
        decreases self.fuel(),
    {
        if self.token is Some && self.token->0.kind != CatKind::Newline {
            self.bump().skip_line()
        } else if self.token is Some {
            self.bump()
        } else {
            self
        }
    }

    /// The directives that only touch the sticky set or reinject a token.
    pub open spec fn handle_simple(self, dir: Directive, span: Span) -> PreprocModel {
        if self.is_inactive() {
            self
        } else if dir == Directive::CurrentFile {
            self.inject(Token { kind: CatKind::Text, span })
        } else if dir == Directive::CurrentLine {
            self.inject(Token { kind: CatKind::Digits, span })
        } else if dir == Directive::Resetall {
            PreprocModel { dirs: default_directives(), ..self }
        } else if dir == Directive::Celldefine {
            PreprocModel { dirs: Directives { celldefine: true, ..self.dirs }, ..self }
        } else if dir == Directive::Endcelldefine {
            PreprocModel { dirs: Directives { celldefine: false, ..self.dirs }, ..self }
        } else {
            self
        }
    }

    /// The directive `default_nettype`.
    pub open spec fn handle_default_nettype(self, span: Span) -> (StepModel, PreprocModel) {
        if self.is_inactive() {
            (StepModel::Skipped, self)
        } else {
            let m1 = self.skip_blank();
            if m1.at_kind(CatKind::Text) {
                let t = m1.token->0;
                let m2 = m1.bump();
                (
                    StepModel::Skipped,
                    PreprocModel {
                        dirs: Directives {
                            default_nettype: if m2.text(t.span) == "none"@ {
                                None
                            } else {
                                Some(t)
                            },
                            ..m2.dirs
                        },
                        ..m2
                    },
                )
            } else {
                (failure(ErrorKind::MissingNettype, span), m1)
            }
        }
    }

    /// Reads one actual argument of a macro use: the tokens up to a comma or
    /// a closing parenthesis outside any inner parentheses. The comma is
    /// consumed; the closing parenthesis stays under inspection.
    pub open spec fn read_actual(self, span: Span, tokens: Seq<Token>, nesting: nat) -> Actual
        decreases self.fuel(),
    {
        match self.token {
            None => Actual {
                error: Some(plain_diagnostic(ErrorKind::UnclosedParameters, span)),
                tokens,
                closed: false,
                state: self,
            },
            Some(t) => if nesting == 0 && t.kind == CatKind::Symbol(',') {
                Actual { error: None, tokens, closed: false, state: self.bump() }
            } else if nesting == 0 && t.kind == CatKind::Symbol(')') {
                Actual { error: None, tokens, closed: true, state: self }
            } else {
                self.bump().read_actual(span, tokens.push(t), nesting_after(t.kind, nesting))
            },
        }
    }

    /// Reads the actual arguments of a macro use up to the closing
    /// parenthesis, which stays under inspection.
    pub open spec fn macro_actuals(self, arity: nat, span: Span, actuals: Seq<Seq<Token>>) -> Listed<
        Seq<Token>,
    >
        decreases self.fuel(),
    {
        if self.at_symbol(')') {
            Listed { error: None, items: actuals, state: self }
        } else if actuals.len() >= arity {
            Listed {
                error: Some(
                    DiagnosticModel {
                        kind: ErrorKind::SuperfluousParameters,
                        span: None,
                        text: Seq::empty(),
                    },
                ),
                items: actuals,
                state: self,
            }
        } else {
            let actual = self.read_actual(span, Seq::empty(), 0);
            if actual.error is Some {
                Listed { error: actual.error, items: actuals, state: actual.state }
            } else if actual.closed {
                Listed { error: None, items: actuals.push(actual.tokens), state: actual.state }
            } else {
                proof {
                    lemma_read_actual_fuel(self, span, Seq::empty(), 0);
                }
                actual.state.macro_actuals(arity, span, actuals.push(actual.tokens))
            }
        }
    }

    /// Puts the expansion of a macro in front of the token under inspection
    /// and of everything that waits, and advances to its first token.
    pub open spec fn inject_expansion(self, makro: MacroModel, actuals: Seq<Seq<Token>>)
        -> PreprocModel {
        PreprocModel {
            injected: expansion(self.contents, makro.args, actuals, makro.body) + (match self.token {
                Some(t) => seq![t],
                None => Seq::empty(),
            }) + self.injected,
            ..self
        }.bump()
    }

    /// The use of a macro: a name that is no directive.
    pub open spec fn handle_macro(self, name: Seq<char>, span: Span) -> (StepModel, PreprocModel) {
        if self.is_inactive() {
            (StepModel::Skipped, self)
        } else if !self.defs.contains_key(name) {
            (
                StepModel::Failed(
                    DiagnosticModel {
                        kind: ErrorKind::UnknownDirective,
                        span: Some(span),
                        text: name,
                    },
                ),
                self,
            )
        } else {
            let makro = self.defs[name];
            if makro.args.len() == 0 {
                (StepModel::Skipped, self.inject_expansion(makro, Seq::empty()))
            } else if !self.at_symbol('(') {
                (failure(ErrorKind::MissingParameters, span), self)
            } else {
                let listed = self.bump().macro_actuals(makro.args.len(), span, Seq::empty());
                match listed.error {
                    Some(d) => (StepModel::Failed(d), listed.state),
                    None => (
                        StepModel::Skipped,
                        listed.state.bump().inject_expansion(makro, listed.items),
                    ),
                }
            }
        }
    }

    /// What the directive of the given name does. The name has been read;
    /// `span` covers the backtick and the name.
    pub open spec fn handle_directive(self, name: Seq<char>, span: Span) -> (
        StepModel,
        PreprocModel,
    ) {
        let dir = directive_named(name);
        match dir {
            Directive::Include => self.handle_include(span),
            Directive::Define => self.handle_define(span),
            Directive::Undef => self.handle_undef(span),
            Directive::Undefineall => self.handle_undefineall(),
            Directive::Ifdef | Directive::Ifndef | Directive::Elsif => self.handle_conditional(
                dir,
                name,
                span,
            ),
            Directive::Else => self.handle_else(span),
            Directive::Endif => self.handle_endif(span),
            Directive::Timescale => (StepModel::Skipped, self.skip_line()),
            Directive::DefaultNettype => self.handle_default_nettype(span),
            Directive::Unknown => self.handle_macro(name, span),
            _ => (StepModel::Skipped, self.handle_simple(dir, span)),
        }
    }

    /// What follows a backtick that is not followed by a name: an escaped
    /// quote or backslash, a second backtick, or nothing acceptable.
    pub open spec fn handle_escape(self, backtick: Span) -> (StepModel, PreprocModel) {
        if self.at_symbol('"') || self.at_symbol('\\') {
            if self.bump().is_inactive() {
                (StepModel::Skipped, self.bump())
            } else {
                (StepModel::Emitted(self.token->0), self.bump())
            }
        } else if self.at_symbol('`') {
            (StepModel::Skipped, self.bump())
        } else {
            (failure(ErrorKind::BadBacktick, backtick), self)
        }
    }

    /// One step of the preprocessor before a failure is recorded.
    pub open spec fn advance(self) -> (StepModel, PreprocModel) {
        match self.token {
            None => (StepModel::Finished, self.bump()),
            Some(t) => if t.kind == CatKind::Symbol('`') {
                match self.bump().eat_name() {
                    Some(named) => named.state.handle_directive(
                        named.name,
                        span_union(t.span, named.span),
                    ),
                    None => self.bump().handle_escape(t.span),
                }
            } else if self.is_inactive() {
                (StepModel::Skipped, self.bump())
            } else {
                (StepModel::Emitted(t), self.bump())
            },
        }
    }

    /// One step of the preprocessor: a token is emitted, or something is
    /// consumed silently, or the input is at its end, or the stream fails
    /// for good, or an included file has to be opened.
    pub open spec fn step(self) -> (StepModel, PreprocModel) {
        if self.halted {
            (StepModel::Finished, self)
        } else {
            let (s, m) = self.advance();
            if s is Failed {
                (s, m.halt())
            } else {
                (s, m)
            }
        }
    }

    /// Steps until something other than a silent step happens, at most
    /// `limit` times.
    pub open spec fn run(self, limit: nat) -> (StepModel, PreprocModel)
        decreases limit,
    {
        if limit == 0 {
            (StepModel::Skipped, self)
        } else {
            let (s, m) = self.step();
            if s is Skipped {
                m.run((limit - 1) as nat)
            } else {
                (s, m)
            }
        }
    }
}

impl PreprocModel {
    /// What a request for the next token yields: after a fatal diagnostic
    /// nothing more; else a token is fetched if none is under inspection,
    /// and the machine steps until something is decided or `limit` silent
    /// steps have passed.
    pub open spec fn next(self, limit: nat) -> (StepModel, PreprocModel) {
        if self.halted {
            (StepModel::Finished, self)
        } else {
            self.primed().run(limit)
        }
    }
}

/// The mathematical value of a categorized source text.
pub struct SourceModel {
    pub text: Seq<char>,
    pub lexemes: Seq<Lexeme>,
}

/// The mathematical value of a macro that is defined from the start.
pub struct PredefinedModel {
    pub name: Seq<char>,
    pub body: Option<SourceModel>,
}

/// The text that a predefined macro brings along: that of its body, or
/// nothing.
pub open spec fn predefined_text(p: PredefinedModel) -> Seq<char> {
    match p.body {
        Some(s) => s.text,
        None => Seq::empty(),
    }
}

/// The macro that a predefined macro stands for once its body text is the
/// source of the given index: it has no parameters, and its body holds the
/// tokens of that text.
pub open spec fn predefined_macro(p: PredefinedModel, source: usize) -> MacroModel {
    MacroModel {
        name: p.name,
        span: invalid_span(),
        args: Seq::empty(),
        body: match p.body {
            Some(s) => tokens_of(s.lexemes, source),
            None => Seq::empty(),
        },
    }
}

/// The definitions that a list of predefined macros gives. The body text of
/// the macro at position `i` is the source of index `i + 1`.
pub open spec fn predefined_defs(pre: Seq<PredefinedModel>) -> Map<Seq<char>, MacroModel>
    decreases pre.len(),
{
    if pre.len() == 0 {
        Map::empty()
    } else {
        predefined_defs(pre.drop_last()).insert(
            pre.last().name,
            predefined_macro(pre.last(), pre.len() as usize),
        )
    }
}

/// The state in which a preprocessor starts on a root source.
pub open spec fn initial_model(root: SourceModel, pre: Seq<PredefinedModel>) -> PreprocModel {
    PreprocModel {
        token: None,
        injected: Seq::empty(),
        streamed: tokens_of(root.lexemes, 0),
        contents: seq![root.text] + pre.map_values(|p: PredefinedModel| predefined_text(p)),
        defs: predefined_defs(pre),
        conds: Seq::empty(),
        dirs: default_directives(),
        halted: false,
    }
}

/// Advancing leaves fewer tokens to inspect whenever one is under inspection.
pub proof fn lemma_bump_fuel(m: PreprocModel)
    ensures
        m.token is Some ==> m.bump().fuel() < m.fuel(),
        m.bump().fuel() <= m.fuel(),
{
}

/// Reading the rest of a name never leaves more tokens to inspect.
pub proof fn lemma_eat_name_rest_fuel(m: PreprocModel, name: Seq<char>, span: Span)
    ensures
        m.eat_name_rest(name, span).state.fuel() <= m.fuel(),
    decreases m.fuel(),
{
    if m.token is Some && continues_name(m.token->0.kind) {
        lemma_eat_name_rest_fuel(
            m.bump(),
            name + m.text(m.token->0.span),
            span_union(span, m.token->0.span),
        );
    }
}

/// Reading a name leaves fewer tokens to inspect.
pub proof fn lemma_eat_name_fuel(m: PreprocModel)
    ensures
        m.eat_name() is Some ==> m.eat_name()->0.state.fuel() < m.fuel(),
        m.skip_blank().fuel() <= m.fuel(),
{
    if m.token is Some && starts_name(m.token->0.kind) {
        lemma_eat_name_rest_fuel(m.bump(), m.text(m.token->0.span), m.token->0.span);
    }
}

/// Reading an actual argument that ends in a comma leaves fewer tokens to
/// inspect; one that ends the list leaves the closing parenthesis under
/// inspection.
pub proof fn lemma_read_actual_fuel(m: PreprocModel, span: Span, tokens: Seq<Token>, nesting: nat)
    ensures
        m.read_actual(span, tokens, nesting).state.fuel() <= m.fuel(),
        m.read_actual(span, tokens, nesting).closed ==> m.read_actual(
            span,
            tokens,
            nesting,
        ).state.at_symbol(')'),
        m.read_actual(span, tokens, nesting).error is None && !m.read_actual(
            span,
            tokens,
            nesting,
        ).closed ==> m.read_actual(span, tokens, nesting).state.fuel() < m.fuel(),
    decreases m.fuel(),
{
    match m.token {
        None => {},
        Some(t) => {
            if nesting == 0 && t.kind == CatKind::Symbol(',') {
            } else if nesting == 0 && t.kind == CatKind::Symbol(')') {
            } else {
                lemma_read_actual_fuel(
                    m.bump(),
                    span,
                    tokens.push(t),
                    nesting_after(t.kind, nesting),
                );
            }
        },
    }
}

} // verus!
