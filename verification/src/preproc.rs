//! The preprocessor: takes categorized tokens of one or more sources and
//! yields one flat token stream, with files included, macros expanded and
//! conditional blocks resolved.

use crate::macros::{actuals_view, copy_text, expand, Macro, MacroArg, MacroArgModel, MacroTable};
use crate::model::{
    continues_name, default_directives, directive_named, directive_text, initial_model,
    lemma_bump_fuel, message_head, message_tail, message_text, lemma_eat_name_fuel,
    lemma_read_actual_fuel, predefined_defs, predefined_macro, predefined_text, starts_name,
    Defcond, DiagnosticModel, Directive, Directives, ErrorKind, IncludeModel, PredefinedModel,
    PreprocModel, SourceModel, StepModel,
};
use crate::cat::{categorize, covers};
use crate::token::{
    contents_view, text_from_str, text_is, tokens_of, CatKind, Lexeme, Span, Token,
};
use vstd::prelude::*;

verus! {

/// A fatal diagnostic: what went wrong, where, and the name or file name it
/// is about, if any.
#[derive(Debug)]
pub struct Diagnostic {
    pub kind: ErrorKind,
    pub span: Option<Span>,
    pub text: Vec<char>,
}

impl View for Diagnostic {
    type V = DiagnosticModel;

    open spec fn view(&self) -> DiagnosticModel {
        DiagnosticModel { kind: self.kind, span: self.span, text: self.text@ }
    }
}

impl ErrorKind {
    /// What a diagnostic of this kind says before the name or file name it
    /// is about.
    pub fn head(&self) -> (r: &'static str)
        ensures
            r@ == message_head(*self),
    {
        match self {
            ErrorKind::MissingIncludeName =>
                "expected filename inside double quotes (\"...\") or angular brackets (<...>) after `include",
            ErrorKind::IncludeNameLineBreak =>
                "expected end of included file's name before line break",
            ErrorKind::IncludeNameEnd =>
                "expected filename after `include directive before the end of the input",
            ErrorKind::IncludeNotFound => "cannot open included file \"",
            ErrorKind::MissingDefineName => "expected macro name after \"`define\"",
            ErrorKind::MissingArgumentName => "expected macro argument name",
            ErrorKind::BadArgumentSeparator => "expected , or ) after macro argument name",
            ErrorKind::UnclosedDefinition =>
                "expected closing parenthesis at the end of the macro definition",
            ErrorKind::MissingUndefName => "expected macro name after \"`undef\"",
            ErrorKind::MissingConditionName => "expected macro name after ",
            ErrorKind::StrayElsif =>
                "found `elsif without any preceeding `ifdef, `ifndef, or `elsif directive",
            ErrorKind::StrayElse =>
                "found `else without any preceeding `ifdef, `ifndef, or `elsif directive",
            ErrorKind::StrayEndif =>
                "found `endif without any preceeding `ifdef, `ifndef, `else, or `elsif directive",
            ErrorKind::MissingParameters => "expected macro parameters in parentheses '(...)'",
            ErrorKind::SuperfluousParameters => "superfluous macro parameters",
            ErrorKind::UnclosedParameters => "expected closing parenthesis after macro parameters",
            ErrorKind::MissingNettype => "expected nettype after `default_nettype",
            ErrorKind::UnknownDirective => "unknown compiler directive '`",
            ErrorKind::BadBacktick =>
                "expected compiler directive after '`', or '``', '`\"', or '`\\'",
        }
    }

    /// What a diagnostic of this kind says after the name or file name it
    /// is about.
    pub fn tail(&self) -> (r: &'static str)
        ensures
            r@ == message_tail(*self),
    {
        match self {
            ErrorKind::IncludeNotFound => "\"",
            ErrorKind::UnknownDirective => "'",
            _ => "",
        }
    }
}

impl Diagnostic {
    /// What the diagnostic says.
    pub fn message(&self) -> (r: Vec<char>)
        ensures
            r@ == message_text(self@),
    {
        let mut out = text_from_str(self.kind.head());
        let mut middle = copy_text(&self.text);
        let mut end = text_from_str(self.kind.tail());
        out.append(&mut middle);
        out.append(&mut end);
        out
    }

    /// A diagnostic of the given kind at a span, without further text.
    pub fn plain(kind: ErrorKind, span: Span) -> (r: Diagnostic)
        ensures
            r@ == crate::model::plain_diagnostic(kind, span),
    {
        Diagnostic { kind, span: Some(span), text: Vec::new() }
    }
}

/// The view of a diagnostic that may be absent.
pub open spec fn diagnostic_view(d: Option<Diagnostic>) -> Option<DiagnosticModel> {
    match d {
        Some(d) => Some(d@),
        None => None,
    }
}

/// The view of a list of formal parameters.
pub open spec fn args_view(args: Seq<MacroArg>) -> Seq<MacroArgModel> {
    args.map_values(|a: MacroArg| a@)
}

/// A request to open an included file: its name as written, the index of
/// the source that holds the directive, and the span of the name.
#[derive(Debug)]
pub struct IncludeRequest {
    pub filename: Vec<char>,
    pub origin: usize,
    pub span: Span,
}

impl View for IncludeRequest {
    type V = IncludeModel;

    open spec fn view(&self) -> IncludeModel {
        IncludeModel { filename: self.filename@, origin: self.origin, span: self.span }
    }
}

/// What one step of the preprocessor yields.
#[derive(Debug)]
pub enum Step {
    /// A token of the output stream.
    Emitted(Token),
    /// Something was consumed without output.
    Skipped,
    /// The input is at its end.
    Finished,
    /// The stream has failed for good.
    Failed(Diagnostic),
    /// An included file has to be opened before the stream can go on.
    Include(IncludeRequest),
}

impl View for Step {
    type V = StepModel;

    open spec fn view(&self) -> StepModel {
        match self {
            Step::Emitted(t) => StepModel::Emitted(*t),
            Step::Skipped => StepModel::Skipped,
            Step::Finished => StepModel::Finished,
            Step::Failed(d) => StepModel::Failed(d@),
            Step::Include(r) => StepModel::Include(r@),
        }
    }
}

/// A source text together with its categorization.
#[derive(Debug)]
pub struct SourceText {
    pub text: Vec<char>,
    pub lexemes: Vec<Lexeme>,
}

impl View for SourceText {
    type V = SourceModel;

    open spec fn view(&self) -> SourceModel {
        SourceModel { text: self.text@, lexemes: self.lexemes@ }
    }
}

impl SourceText {
    /// Categorizes a text.
    pub fn new(text: &str) -> (r: SourceText)
        ensures
            r@.text == text@,
            covers(text@, r@.lexemes, text@.len() as int),
    {
        let chars = text_from_str(text);
        let lexemes = categorize(&chars);
        SourceText { text: chars, lexemes }
    }
}

/// A macro that is defined before the first token is read: its name and,
/// if it has one, the text of its body.
#[derive(Debug)]
pub struct Predefined {
    pub name: Vec<char>,
    pub body: Option<SourceText>,
}

impl View for Predefined {
    type V = PredefinedModel;

    open spec fn view(&self) -> PredefinedModel {
        PredefinedModel {
            name: self.name@,
            body: match self.body {
                Some(s) => Some(s@),
                None => None,
            },
        }
    }
}

impl Predefined {
    /// A predefined macro of the given name whose body, if it has one, is
    /// the categorization of the given text.
    pub fn new(name: &str, body: Option<&str>) -> (r: Predefined)
        ensures
            r@.name == name@,
            body is Some == r@.body is Some,
            body is Some ==> r@.body->0.text == body->0@ && covers(
                body->0@,
                r@.body->0.lexemes,
                body->0@.len() as int,
            ),
    {
        Predefined {
            name: text_from_str(name),
            body: match body {
                Some(b) => Some(SourceText::new(b)),
                None => None,
            },
        }
    }
}

impl Default for Directives {
    fn default() -> (r: Directives)
        ensures
            r == default_directives(),
    {
        Directives { celldefine: false, default_nettype: None }
    }
}

impl Directive {
    /// How the directive is written.
    pub fn text(&self) -> (r: &'static str)
        ensures
            r@ == directive_text(*self),
    {
        match self {
            Directive::Include => "`include",
            Directive::Define => "`define",
            Directive::Undef => "`undef",
            Directive::Undefineall => "`undefineall",
            Directive::Ifdef => "`ifdef",
            Directive::Ifndef => "`ifndef",
            Directive::Else => "`else",
            Directive::Elsif => "`elsif",
            Directive::Endif => "`endif",
            Directive::Timescale => "`timescale",
            Directive::CurrentFile => "`__FILE__",
            Directive::CurrentLine => "`__LINE__",
            Directive::Resetall => "`resetall",
            Directive::Celldefine => "`celldefine",
            Directive::Endcelldefine => "`endcelldefine",
            Directive::DefaultNettype => "`default_nettype",
            Directive::Unknown => "unknown",
        }
    }

    /// The directive that a name stands for.
    pub fn lookup(name: &Vec<char>) -> (r: Directive)
        ensures
            r == directive_named(name@),
    {
        if text_is(name, "include") {
            Directive::Include
        } else if text_is(name, "define") {
            Directive::Define
        } else if text_is(name, "undef") {
            Directive::Undef
        } else if text_is(name, "undefineall") {
            Directive::Undefineall
        } else if text_is(name, "ifdef") {
            Directive::Ifdef
        } else if text_is(name, "ifndef") {
            Directive::Ifndef
        } else if text_is(name, "else") {
            Directive::Else
        } else if text_is(name, "elsif") {
            Directive::Elsif
        } else if text_is(name, "endif") {
            Directive::Endif
        } else if text_is(name, "__FILE__") {
            Directive::CurrentFile
        } else if text_is(name, "__LINE__") {
            Directive::CurrentLine
        } else if text_is(name, "resetall") {
            Directive::Resetall
        } else if text_is(name, "celldefine") {
            Directive::Celldefine
        } else if text_is(name, "endcelldefine") {
            Directive::Endcelldefine
        } else if text_is(name, "default_nettype") {
            Directive::DefaultNettype
        } else if text_is(name, "timescale") {
            Directive::Timescale
        } else {
            Directive::Unknown
        }
    }
}

/// The tokens that a list of lexemes of one source stands for.
pub fn make_tokens(lexemes: &Vec<Lexeme>, source: usize) -> (r: Vec<Token>)
    ensures
        r@ == tokens_of(lexemes@, source),
{
    let mut out: Vec<Token> = Vec::new();
    let mut i: usize = 0;
    while i < lexemes.len()
        invariant
            i <= lexemes.len(),
            out@ =~= tokens_of(lexemes@, source).subrange(0, i as int),
        decreases lexemes.len() - i,
    {
        let l = lexemes[i];
        out.push(Token { kind: l.kind, span: Span { source, begin: l.begin, end: l.end } });
        i += 1;
    }
    out
}

/// A name that was read from the tokens, and the span it covers.
struct NameRead {
    text: Vec<char>,
    span: Span,
}

/// An open source: its index, its lexemes, and how many of them were served.
struct Stream {
    source: usize,
    lexemes: Vec<Lexeme>,
    pos: usize,
}

/// The tokens that an open source has not served yet.
spec fn frame_rest(f: Stream) -> Seq<Token> {
    if f.pos <= f.lexemes@.len() {
        tokens_of(f.lexemes@.subrange(f.pos as int, f.lexemes@.len() as int), f.source)
    } else {
        Seq::empty()
    }
}

/// The tokens that a stack of open sources will serve: those of the top
/// source first.
spec fn frames_tokens(frames: Seq<Stream>) -> Seq<Token>
    decreases frames.len(),
{
    if frames.len() == 0 {
        Seq::empty()
    } else {
        frame_rest(frames.last()) + frames_tokens(frames.drop_last())
    }
}

/// The preprocessor.
pub struct Preprocessor {
    /// The open sources. Tokens come from the topmost one until it is
    /// exhausted; then it is closed and the one below goes on.
    stack: Vec<Stream>,
    /// The texts of all sources that were ever opened, by index.
    contents: Vec<Vec<char>>,
    /// The token under inspection.
    token: Option<Token>,
    /// The macros defined.
    macro_defs: MacroTable,
    /// The tokens waiting for reinjection; the last one is served first.
    macro_stack: Vec<Token>,
    /// The open conditional groups, innermost last.
    defcond_stack: Vec<Defcond>,
    /// The sticky directives.
    dirs: Directives,
    /// Whether a fatal diagnostic has ended the stream.
    halted: bool,
}

impl View for Preprocessor {
    type V = PreprocModel;

    closed spec fn view(&self) -> PreprocModel {
        PreprocModel {
            token: self.token,
            injected: self.macro_stack@.reverse(),
            streamed: frames_tokens(self.stack@),
            contents: contents_view(self.contents@),
            defs: self.macro_defs@,
            conds: self.defcond_stack@,
            dirs: self.dirs,
            halted: self.halted,
        }
    }
}

impl Preprocessor {
    /// A preprocessor at the start of a root source, with the given macros
    /// defined. The root is the source of index 0; the body text of the
    /// predefined macro at position `i` is the source of index `i + 1`.
    pub fn new(root: SourceText, predefined: Vec<Predefined>) -> (r: Preprocessor)
        ensures
            r@ == initial_model(root@, predefined@.map_values(|p: Predefined| p@)),
    {
        let ghost pre = predefined@.map_values(|p: Predefined| p@);
        let ghost root_model = root@;
        let mut contents: Vec<Vec<char>> = Vec::new();
        contents.push(root.text);
        let mut defs = MacroTable::new();
        let mut i: usize = 0;
        while i < predefined.len()
            invariant
                i <= predefined.len(),
                pre == predefined@.map_values(|p: Predefined| p@),
                defs@ == predefined_defs(pre.subrange(0, i as int)),
                contents_view(contents@) =~= seq![root_model.text] + pre.subrange(
                    0,
                    i as int,
                ).map_values(|p: PredefinedModel| predefined_text(p)),
            decreases predefined.len() - i,
        {
            let p = &predefined[i];
            let mut makro = Macro::new(copy_text(&p.name), Span::invalid());
            let mut text: Vec<char> = Vec::new();
            match &p.body {
                Some(s) => {
                    makro.body = make_tokens(&s.lexemes, i + 1);
                    text = copy_text(&s.text);
                },
                None => {},
            }
            proof {
                let texts = pre.subrange(0, i as int).map_values(
                    |p: PredefinedModel| predefined_text(p),
                );
                assert(text@ =~= predefined_text(p@));
                assert(pre.subrange(0, i + 1).map_values(|p: PredefinedModel| predefined_text(p))
                    =~= texts.push(predefined_text(p@)));
                assert(contents_view(contents@.push(text)) =~= contents_view(contents@).push(
                    text@,
                ));
                assert(pre.subrange(0, i + 1).drop_last() =~= pre.subrange(0, i as int));
                assert(pre.subrange(0, i + 1).last() == p@);
                assert(makro@.args =~= Seq::<MacroArgModel>::empty());
                assert(makro@ == predefined_macro(p@, (i + 1) as usize));
            }
            contents.push(text);
            defs.insert(makro);
            i += 1;
        }
        let mut stack: Vec<Stream> = Vec::new();
        stack.push(Stream { source: 0, lexemes: root.lexemes, pos: 0 });
        proof {
            assert(pre.subrange(0, predefined.len() as int) =~= pre);
            assert(stack@.drop_last() =~= Seq::<Stream>::empty());
            assert(frames_tokens(stack@.drop_last()) =~= Seq::<Token>::empty());
            assert(root_model.lexemes.subrange(0, root_model.lexemes.len() as int)
                =~= root_model.lexemes);
            assert(frames_tokens(stack@) =~= tokens_of(root_model.lexemes, 0));
        }
        let r = Preprocessor {
            stack,
            contents,
            token: None,
            macro_defs: defs,
            macro_stack: Vec::new(),
            defcond_stack: Vec::new(),
            dirs: Directives::default(),
            halted: false,
        };
        proof {
            assert(r@.injected =~= Seq::<Token>::empty());
            assert(r@.conds =~= Seq::<Defcond>::empty());
        }
        r
    }

    /// Advances to the next token.
    #[verifier::loop_isolation(false)]
    fn bump(&mut self)
        ensures
            final(self)@ == old(self)@.bump(),
    {
        let ghost start = *self;
        let popped = self.macro_stack.pop();
        if popped.is_some() {
            self.token = popped;
            proof {
                assert(self.macro_stack@.reverse() =~= start.macro_stack@.reverse().drop_first());
            }
            return ;
        }
        proof {
            assert(start.macro_stack@.reverse().len() == 0);
        }
        loop
            invariant
                self.macro_stack@ == start.macro_stack@,
                self.macro_stack@.len() == 0,
                frames_tokens(self.stack@) == frames_tokens(start.stack@),
                self.contents == start.contents,
                self.macro_defs == start.macro_defs,
                self.defcond_stack == start.defcond_stack,
                self.dirs == start.dirs,
                self.halted == start.halted,
            decreases self.stack.len(),
        {
            let ghost before = self.stack@;
            match self.stack.pop() {
                None => {
                    self.token = None;
                    return ;
                },
                Some(frame) => {
                    proof {
                        assert(self.stack@ =~= before.drop_last());
                        assert(frame == before.last());
                    }
                    if frame.pos < frame.lexemes.len() {
                        let l = frame.lexemes[frame.pos];
                        let tok = Token {
                            kind: l.kind,
                            span: Span { source: frame.source, begin: l.begin, end: l.end },
                        };
                        let next = Stream {
                            source: frame.source,
                            lexemes: frame.lexemes,
                            pos: frame.pos + 1,
                        };
                        proof {
                            assert(frame_rest(frame).len() > 0);
                            assert(frame_rest(frame)[0] == tok);
                            assert(frame_rest(next) =~= frame_rest(frame).drop_first());
                            assert(self.stack@.push(next).drop_last() =~= self.stack@);
                            assert(frames_tokens(self.stack@.push(next)) =~= frames_tokens(
                                before,
                            ).drop_first());
                        }
                        self.stack.push(next);
                        self.token = Some(tok);
                        return ;
                    }
                    proof {
                        assert(frame_rest(frame) =~= Seq::<Token>::empty());
                        assert(frames_tokens(before) =~= frames_tokens(self.stack@));
                    }
                },
            }
        }
    }

    /// Whether tokens are currently dropped.
    fn is_inactive(&self) -> (r: bool)
        ensures
            r == self@.is_inactive(),
    {
        let n = self.defcond_stack.len();
        n > 0 && self.defcond_stack[n - 1] != Defcond::Enabled
    }

    /// Whether the token under inspection has this kind.
    fn at_kind(&self, kind: CatKind) -> (r: bool)
        ensures
            r == self@.at_kind(kind),
    {
        match self.token {
            Some(t) => t.kind == kind,
            None => false,
        }
    }

    /// Whether the token under inspection is this symbol.
    fn at_symbol(&self, c: char) -> (r: bool)
        ensures
            r == self@.at_symbol(c),
    {
        self.at_kind(CatKind::Symbol(c))
    }

    /// Whether the token under inspection can begin a name.
    fn at_name_start(&self) -> (r: bool)
        ensures
            r == (self@.token is Some && starts_name(self@.token->0.kind)),
    {
        self.at_kind(CatKind::Text) || self.at_symbol('_')
    }

    /// Whether the token under inspection can continue a name.
    fn at_name_part(&self) -> (r: bool)
        ensures
            r == (self@.token is Some && continues_name(self@.token->0.kind)),
    {
        self.at_kind(CatKind::Text) || self.at_kind(CatKind::Digits) || self.at_symbol('_')
    }

    /// Whether a token other than a line break is under inspection.
    fn in_line(&self) -> (r: bool)
        ensures
            r == (self@.token is Some && self@.token->0.kind != CatKind::Newline),
    {
        match self.token {
            Some(t) => t.kind != CatKind::Newline,
            None => false,
        }
    }

    /// Skips one whitespace token if one is under inspection.
    fn skip_blank(&mut self)
        ensures
            final(self)@ == old(self)@.skip_blank(),
    {
        if self.at_kind(CatKind::Whitespace) {
            self.bump();
        }
    }

    /// The text that a span covers.
    pub fn extract(&self, span: Span) -> (r: Vec<char>)
        ensures
            r@ == self@.text(span),
    {
        span.extract(&self.contents)
    }

    /// Reads a name if one begins at the token under inspection.
    #[verifier::loop_isolation(false)]
    fn try_eat_name(&mut self) -> (r: Option<NameRead>)
        ensures
            match old(self)@.eat_name() {
                Some(named) => r is Some && r->0.text@ == named.name && r->0.span == named.span
                    && final(self)@ == named.state,
                None => r is None && final(self)@ == old(self)@,
            },
    {
        if !self.at_name_start() {
            return None;
        }
        let first = self.token.unwrap();
        let mut name = first.span.extract(&self.contents);
        let mut span = first.span;
        let ghost goal = self@.eat_name()->0;
        self.bump();
        while self.at_name_part()
            invariant
                self@.eat_name_rest(name@, span) == goal,
            decreases self@.fuel(),
        {
            let t = self.token.unwrap();
            let mut piece = t.span.extract(&self.contents);
            name.append(&mut piece);
            span.expand(t.span);
            proof {
                lemma_bump_fuel(self@);
            }
            self.bump();
        }
        Some(NameRead { text: name, span })
    }

    /// Whether the token under inspection belongs to the name of an
    /// included file that the given symbol closes.
    fn in_include_name(&self, closing: char) -> (r: bool)
        ensures
            r == (self@.token is Some && self@.token->0.kind != CatKind::Symbol(closing)
                && self@.token->0.kind != CatKind::Newline),
    {
        match self.token {
            Some(t) => t.kind != CatKind::Symbol(closing) && t.kind != CatKind::Newline,
            None => false,
        }
    }

    /// The directive `include`.
    #[verifier::loop_isolation(false)]
    fn handle_include(&mut self, span: Span) -> (r: Step)
        ensures
            (r@, final(self)@) == old(self)@.handle_include(span),
    {
        if self.is_inactive() {
            return Step::Skipped;
        }
        self.skip_blank();
        let quoted = self.at_symbol('"');
        if !quoted && !self.at_symbol('<') {
            return Step::Failed(Diagnostic::plain(ErrorKind::MissingIncludeName, span));
        }
        let closing = if quoted {
            '"'
        } else {
            '>'
        };
        let from = self.token.unwrap().span.end();
        let ghost goal = old(self)@.handle_include(span);
        self.bump();
        let mut filename: Vec<char> = Vec::new();
        while self.in_include_name(closing)
            invariant
                self@.include_name(closing, span, from, filename@) == goal,
            decreases self@.fuel(),
        {
            let t = self.token.unwrap();
            let mut piece = t.span.extract(&self.contents);
            filename.append(&mut piece);
            proof {
                lemma_bump_fuel(self@);
            }
            self.bump();
        }
        match self.token {
            None => Step::Failed(Diagnostic::plain(ErrorKind::IncludeNameEnd, span)),
            Some(t) => {
                if t.kind == CatKind::Symbol(closing) {
                    Step::Include(
                        IncludeRequest {
                            filename,
                            origin: span.source,
                            span: Span::union(from, t.span.begin()),
                        },
                    )
                } else {
                    Step::Failed(Diagnostic::plain(ErrorKind::IncludeNameLineBreak, t.span))
                }
            },
        }
    }

    /// Reads the formal parameters of a macro definition.
    #[verifier::loop_isolation(false)]
    fn define_args(&mut self, span: Span) -> (r: (Option<Diagnostic>, Vec<MacroArg>))
        ensures
            diagnostic_view(r.0) == old(self)@.define_args(span, Seq::empty()).error,
            args_view(r.1@) == old(self)@.define_args(span, Seq::empty()).items,
            final(self)@ == old(self)@.define_args(span, Seq::empty()).state,
    {
        let mut args: Vec<MacroArg> = Vec::new();
        let ghost goal = self@.define_args(span, Seq::empty());
        proof {
            assert(args_view(args@) =~= Seq::<MacroArgModel>::empty());
        }
        while !self.at_symbol(')')
            invariant
                self@.define_args(span, args_view(args@)) == goal,
            decreases self@.fuel(),
        {
            self.skip_blank();
            let ghost m1 = self@;
            let named = match self.try_eat_name() {
                Some(x) => x,
                None => {
                    return (
                        Some(Diagnostic::plain(ErrorKind::MissingArgumentName, span)),
                        args,
                    );
                },
            };
            let arg = MacroArg::new(named.text, named.span);
            proof {
                assert(args_view(args@.push(arg)) =~= args_view(args@).push(arg@));
                lemma_eat_name_fuel(m1);
            }
            args.push(arg);
            self.skip_blank();
            if self.at_symbol(',') {
                self.bump();
            } else if self.at_symbol(')') {
                return (None, args);
            } else {
                return match self.token {
                    Some(t) => (
                        Some(Diagnostic::plain(ErrorKind::BadArgumentSeparator, t.span)),
                        args,
                    ),
                    None => (Some(Diagnostic::plain(ErrorKind::UnclosedDefinition, span)), args),
                };
            }
        }
        (None, args)
    }

    /// Reads the body of a macro definition.
    #[verifier::loop_isolation(false)]
    fn define_body(&mut self) -> (body: Vec<Token>)
        ensures
            (body@, final(self)@) == old(self)@.define_body(Seq::empty()),
    {
        let mut body: Vec<Token> = Vec::new();
        let ghost goal = self@.define_body(Seq::empty());
        while self.in_line()
            invariant
                self@.define_body(body@) == goal,
            decreases self@.fuel(),
        {
            proof {
                lemma_bump_fuel(self@);
                lemma_bump_fuel(self@.bump());
            }
            if self.at_symbol('\\') {
                self.bump();
                if self.at_kind(CatKind::Newline) {
                    self.bump();
                }
            } else {
                body.push(self.token.unwrap());
                self.bump();
            }
        }
        if self.token.is_some() {
            self.bump();
        }
        body
    }

    /// The directive `define`.
    fn handle_define(&mut self, span: Span) -> (r: Step)
        ensures
            (r@, final(self)@) == old(self)@.handle_define(span),
    {
        if self.is_inactive() {
            return Step::Skipped;
        }
        self.skip_blank();
        let named = match self.try_eat_name() {
            Some(x) => x,
            None => {
                return Step::Failed(Diagnostic::plain(ErrorKind::MissingDefineName, span));
            },
        };
        let mut args: Vec<MacroArg> = Vec::new();
        proof {
            assert(args_view(args@) =~= Seq::<MacroArgModel>::empty());
        }
        if self.at_symbol('(') {
            self.bump();
            let listed = self.define_args(span);
            match listed.0 {
                Some(d) => {
                    return Step::Failed(d);
                },
                None => {},
            }
            args = listed.1;
            self.bump();
        }
        self.skip_blank();
        let body = self.define_body();
        let makro = Macro { name: named.text, span: named.span, args, body };
        self.macro_defs.insert(makro);
        Step::Skipped
    }

    /// The directive `undef`.
    fn handle_undef(&mut self, span: Span) -> (r: Step)
        ensures
            (r@, final(self)@) == old(self)@.handle_undef(span),
    {
        if self.is_inactive() {
            return Step::Skipped;
        }
        self.skip_blank();
        let named = match self.try_eat_name() {
            Some(x) => x,
            None => {
                return Step::Failed(Diagnostic::plain(ErrorKind::MissingUndefName, span));
            },
        };
        self.macro_defs.remove(&named.text);
        Step::Skipped
    }

    /// The directive `undefineall`.
    fn handle_undefineall(&mut self) -> (r: Step)
        ensures
            (r@, final(self)@) == old(self)@.handle_undefineall(),
    {
        if !self.is_inactive() {
            self.macro_defs.clear();
        }
        Step::Skipped
    }

    /// The state of a conditional level that opens here.
    fn guard(&self, holds: bool) -> (r: Defcond)
        ensures
            r == self@.guard(holds),
    {
        if self.is_inactive() {
            Defcond::Done
        } else if holds {
            Defcond::Enabled
        } else {
            Defcond::Disabled
        }
    }

    /// The directives `ifdef`, `ifndef` and `elsif`.
    fn handle_conditional(&mut self, dir: Directive, name: Vec<char>, span: Span) -> (r: Step)
        requires
            dir == Directive::Ifdef || dir == Directive::Ifndef || dir == Directive::Elsif,
        ensures
            (r@, final(self)@) == old(self)@.handle_conditional(dir, name@, span),
    {
        self.skip_blank();
        let named = match self.try_eat_name() {
            Some(x) => x,
            None => {
                return Step::Failed(
                    Diagnostic {
                        kind: ErrorKind::MissingConditionName,
                        span: Some(span),
                        text: name,
                    },
                );
            },
        };
        let exists = self.macro_defs.contains_key(&named.text);
        match dir {
            Directive::Ifdef => {
                let g = self.guard(exists);
                self.defcond_stack.push(g);
                Step::Skipped
            },
            Directive::Ifndef => {
                let g = self.guard(!exists);
                self.defcond_stack.push(g);
                Step::Skipped
            },
            _ => {
                let ghost before = self.defcond_stack@;
                match self.defcond_stack.pop() {
                    None => Step::Failed(Diagnostic::plain(ErrorKind::StrayElsif, span)),
                    Some(top) => {
                        proof {
                            assert(self.defcond_stack@ =~= before.drop_last());
                        }
                        let g = if top == Defcond::Disabled {
                            self.guard(exists)
                        } else {
                            Defcond::Done
                        };
                        self.defcond_stack.push(g);
                        Step::Skipped
                    },
                }
            },
        }
    }

    /// The directive `else`.
    fn handle_else(&mut self, span: Span) -> (r: Step)
        ensures
            (r@, final(self)@) == old(self)@.handle_else(span),
    {
        let ghost before = self.defcond_stack@;
        match self.defcond_stack.pop() {
            None => Step::Failed(Diagnostic::plain(ErrorKind::StrayElse, span)),
            Some(top) => {
                proof {
                    assert(self.defcond_stack@ =~= before.drop_last());
                }
                let g = if top == Defcond::Disabled {
                    Defcond::Enabled
                } else {
                    Defcond::Done
                };
                self.defcond_stack.push(g);
                Step::Skipped
            },
        }
    }

    /// The directive `endif`.
    fn handle_endif(&mut self, span: Span) -> (r: Step)
        ensures
            (r@, final(self)@) == old(self)@.handle_endif(span),
    {
        let ghost before = self.defcond_stack@;
        match self.defcond_stack.pop() {
            None => Step::Failed(Diagnostic::plain(ErrorKind::StrayEndif, span)),
            Some(_) => {
                proof {
                    assert(self.defcond_stack@ =~= before.drop_last());
                }
                Step::Skipped
            },
        }
    }

    /// Skips the tokens through the next line break.
    #[verifier::loop_isolation(false)]
    fn skip_line(&mut self)
        ensures
            final(self)@ == old(self)@.skip_line(),
    {
        let ghost goal = self@.skip_line();
        while self.in_line()
            invariant
                self@.skip_line() == goal,
            decreases self@.fuel(),
        {
            proof {
                lemma_bump_fuel(self@);
            }
            self.bump();
        }
        if self.token.is_some() {
            self.bump();
        }
    }

    /// Puts a token in front of everything that waits to be served.
    fn inject(&mut self, tok: Token)
        ensures
            final(self)@ == old(self)@.inject(tok),
    {
        proof {
            assert(self.macro_stack@.push(tok).reverse() =~= seq![tok]
                + self.macro_stack@.reverse());
        }
        self.macro_stack.push(tok);
    }

    /// The directives that only touch the sticky set or reinject a token.
    fn handle_simple(&mut self, dir: Directive, span: Span)
        ensures
            final(self)@ == old(self)@.handle_simple(dir, span),
    {
        if self.is_inactive() {
            return ;
        }
        match dir {
            Directive::CurrentFile => {
                self.inject(Token { kind: CatKind::Text, span });
            },
            Directive::CurrentLine => {
                self.inject(Token { kind: CatKind::Digits, span });
            },
            Directive::Resetall => {
                self.dirs = Directives::default();
            },
            Directive::Celldefine => {
                self.dirs.celldefine = true;
            },
            Directive::Endcelldefine => {
                self.dirs.celldefine = false;
            },
            _ => {},
        }
    }

    /// The directive `default_nettype`.
    fn handle_default_nettype(&mut self, span: Span) -> (r: Step)
        ensures
            (r@, final(self)@) == old(self)@.handle_default_nettype(span),
    {
        if self.is_inactive() {
            return Step::Skipped;
        }
        self.skip_blank();
        if !self.at_kind(CatKind::Text) {
            return Step::Failed(Diagnostic::plain(ErrorKind::MissingNettype, span));
        }
        let t = self.token.unwrap();
        self.bump();
        let text = t.span.extract(&self.contents);
        if text_is(&text, "none") {
            self.dirs.default_nettype = None;
        } else {
            self.dirs.default_nettype = Some(t);
        }
        Step::Skipped
    }

    /// Whether the token under inspection belongs to an actual argument at
    /// the given nesting depth.
    fn in_actual(&self, nesting: usize) -> (r: bool)
        ensures
            r == (self@.token is Some && !(nesting == 0 && (self@.token->0.kind == CatKind::Symbol(
                ',',
            ) || self@.token->0.kind == CatKind::Symbol(')')))),
    {
        match self.token {
            Some(t) => !(nesting == 0 && (t.kind == CatKind::Symbol(',') || t.kind
                == CatKind::Symbol(')'))),
            None => false,
        }
    }

    /// Reads one actual argument of a macro use.
    #[verifier::loop_isolation(false)]
    fn read_actual(&mut self, span: Span) -> (r: (Option<Diagnostic>, Vec<Token>, bool))
        ensures
            diagnostic_view(r.0) == old(self)@.read_actual(span, Seq::empty(), 0).error,
            r.1@ == old(self)@.read_actual(span, Seq::empty(), 0).tokens,
            r.2 == old(self)@.read_actual(span, Seq::empty(), 0).closed,
            final(self)@ == old(self)@.read_actual(span, Seq::empty(), 0).state,
    {
        let mut tokens: Vec<Token> = Vec::new();
        let mut nesting: usize = 0;
        let ghost goal = self@.read_actual(span, Seq::empty(), 0);
        while self.in_actual(nesting)
            invariant
                nesting <= tokens@.len(),
                self@.read_actual(span, tokens@, nesting as nat) == goal,
            decreases self@.fuel(),
        {
            let t = self.token.unwrap();
            tokens.push(t);
            if t.kind == CatKind::Symbol('(') {
                assert(nesting < tokens.len());
                nesting += 1;
            } else if t.kind == CatKind::Symbol(')') && nesting > 0 {
                nesting -= 1;
            }
            proof {
                lemma_bump_fuel(self@);
            }
            self.bump();
        }
        match self.token {
            None => (Some(Diagnostic::plain(ErrorKind::UnclosedParameters, span)), tokens, false),
            Some(t) => {
                if t.kind == CatKind::Symbol(',') {
                    self.bump();
                    (None, tokens, false)
                } else {
                    (None, tokens, true)
                }
            },
        }
    }

    /// Puts the expansion of a macro in front of the token under inspection
    /// and advances to its first token.
    #[verifier::loop_isolation(false)]
    fn inject_expansion(&mut self, makro: &Macro, actuals: &Vec<Vec<Token>>)
        ensures
            final(self)@ == old(self)@.inject_expansion(makro@, actuals_view(actuals@)),
    {
        let ghost start = self@;
        let ghost lookahead = match self.token {
            Some(t) => seq![t],
            None => Seq::<Token>::empty(),
        };
        match self.token {
            Some(t) => {
                self.inject(t);
            },
            None => {},
        }
        let replacement = expand(&self.contents, makro, actuals);
        let mut i: usize = replacement.len();
        proof {
            assert(self@.injected =~= replacement@.subrange(i as int, replacement@.len() as int)
                + lookahead + start.injected);
        }
        while i > 0
            invariant
                i <= replacement.len(),
                self@ == (PreprocModel {
                    injected: replacement@.subrange(i as int, replacement@.len() as int) + lookahead
                        + start.injected,
                    ..start
                }),
            decreases i,
        {
            i -= 1;
            proof {
                assert(seq![replacement@[i as int]] + (replacement@.subrange(
                    i + 1,
                    replacement@.len() as int,
                ) + lookahead + start.injected) =~= replacement@.subrange(
                    i as int,
                    replacement@.len() as int,
                ) + lookahead + start.injected);
            }
            self.inject(replacement[i]);
        }
        proof {
            assert(replacement@.subrange(0, replacement@.len() as int) =~= replacement@);
        }
        self.bump();
    }

    /// The use of a macro.
    #[verifier::loop_isolation(false)]
    fn handle_macro(&mut self, name: Vec<char>, span: Span) -> (r: Step)
        ensures
            (r@, final(self)@) == old(self)@.handle_macro(name@, span),
    {
        if self.is_inactive() {
            return Step::Skipped;
        }
        let makro = match self.macro_defs.get(&name) {
            Some(m) => m,
            None => {
                return Step::Failed(
                    Diagnostic { kind: ErrorKind::UnknownDirective, span: Some(span), text: name },
                );
            },
        };
        let mut actuals: Vec<Vec<Token>> = Vec::new();
        proof {
            assert(actuals_view(actuals@) =~= Seq::<Seq<Token>>::empty());
        }
        if makro.args.len() > 0 {
            if !self.at_symbol('(') {
                return Step::Failed(Diagnostic::plain(ErrorKind::MissingParameters, span));
            }
            self.bump();
            let ghost goal = self@.macro_actuals(makro@.args.len(), span, Seq::empty());
            while !self.at_symbol(')')
                invariant
                    makro@.args.len() == makro.args.len(),
                    self@.macro_actuals(makro@.args.len(), span, actuals_view(actuals@)) == goal,
                decreases self@.fuel(),
            {
                if actuals.len() >= makro.args.len() {
                    return Step::Failed(
                        Diagnostic {
                            kind: ErrorKind::SuperfluousParameters,
                            span: None,
                            text: Vec::new(),
                        },
                    );
                }
                proof {
                    lemma_read_actual_fuel(self@, span, Seq::empty(), 0);
                }
                let actual = self.read_actual(span);
                match actual.0 {
                    Some(d) => {
                        return Step::Failed(d);
                    },
                    None => {},
                }
                proof {
                    assert(actuals_view(actuals@.push(actual.1)) =~= actuals_view(actuals@).push(
                        actual.1@,
                    ));
                }
                actuals.push(actual.1);
                if actual.2 {
                    break ;
                }
            }
            self.bump();
        }
        self.inject_expansion(&makro, &actuals);
        Step::Skipped
    }

    /// What the directive of the given name does.
    fn handle_directive(&mut self, name: Vec<char>, span: Span) -> (r: Step)
        ensures
            (r@, final(self)@) == old(self)@.handle_directive(name@, span),
    {
        let dir = Directive::lookup(&name);
        match dir {
            Directive::Include => self.handle_include(span),
            Directive::Define => self.handle_define(span),
            Directive::Undef => self.handle_undef(span),
            Directive::Undefineall => self.handle_undefineall(),
            Directive::Ifdef | Directive::Ifndef | Directive::Elsif => self.handle_conditional(
                dir,
                name,
                span,
            ),
            Directive::Else => self.handle_else(span),
            Directive::Endif => self.handle_endif(span),
            Directive::Timescale => {
                self.skip_line();
                Step::Skipped
            },
            Directive::DefaultNettype => self.handle_default_nettype(span),
            Directive::Unknown => self.handle_macro(name, span),
            _ => {
                self.handle_simple(dir, span);
                Step::Skipped
            },
        }
    }

    /// What follows a backtick that is not followed by a name.
    fn handle_escape(&mut self, backtick: Span) -> (r: Step)
        ensures
            (r@, final(self)@) == old(self)@.handle_escape(backtick),
    {
        if self.at_symbol('"') || self.at_symbol('\\') {
            let t = self.token.unwrap();
            self.bump();
            if self.is_inactive() {
                Step::Skipped
            } else {
                Step::Emitted(t)
            }
        } else if self.at_symbol('`') {
            self.bump();
            Step::Skipped
        } else {
            Step::Failed(Diagnostic::plain(ErrorKind::BadBacktick, backtick))
        }
    }

    /// One step before a failure is recorded.
    fn advance(&mut self) -> (r: Step)
        ensures
            (r@, final(self)@) == old(self)@.advance(),
    {
        match self.token {
            None => {
                self.bump();
                Step::Finished
            },
            Some(t) => {
                if t.kind == CatKind::Symbol('`') {
                    self.bump();
                    match self.try_eat_name() {
                        Some(named) => {
                            let span = Span::union(t.span, named.span);
                            self.handle_directive(named.text, span)
                        },
                        None => self.handle_escape(t.span),
                    }
                } else if self.is_inactive() {
                    self.bump();
                    Step::Skipped
                } else {
                    self.bump();
                    Step::Emitted(t)
                }
            },
        }
    }

    /// One step of the preprocessor.
    fn step(&mut self) -> (r: Step)
        ensures
            (r@, final(self)@) == old(self)@.step(),
    {
        if self.halted {
            return Step::Finished;
        }
        let r = self.advance();
        match r {
            Step::Failed(_) => {
                self.halted = true;
            },
            _ => {},
        }
        r
    }

    /// The next thing that the stream yields, after at most `limit` silent
    /// steps. `Step::Skipped` says that the limit ran out before anything
    /// was decided.
    #[verifier::loop_isolation(false)]
    pub fn next(&mut self, limit: usize) -> (r: Step)
        ensures
            (r@, final(self)@) == old(self)@.next(limit as nat),
    {
        if self.halted {
            return Step::Finished;
        }
        if self.token.is_none() {
            self.bump();
        }
        let ghost goal = self@.run(limit as nat);
        let mut left: usize = limit;
        while left > 0
            invariant
                self@.run(left as nat) == goal,
            decreases left,
        {
            let r = self.step();
            match r {
                Step::Skipped => {
                    left -= 1;
                },
                _ => {
                    return r;
                },
            }
        }
        Step::Skipped
    }

    /// Opens a source for a pending `include`: its tokens are served before
    /// those of the sources that are already open. The new source gets the
    /// next free index.
    pub fn enter_include(&mut self, source: SourceText)
        ensures
            final(self)@ == old(self)@.enter_include(
                source@.text,
                tokens_of(source@.lexemes, old(self)@.contents.len() as usize),
            ),
    {
        let index = self.contents.len();
        let ghost before = self.stack@;
        let ghost lexemes = source.lexemes@;
        let frame = Stream { source: index, lexemes: source.lexemes, pos: 0 };
        proof {
            assert(lexemes.subrange(0, lexemes.len() as int) =~= lexemes);
            assert(before.push(frame).drop_last() =~= before);
            assert(contents_view(self.contents@.push(source.text)) =~= contents_view(
                self.contents@,
            ).push(source.text@));
        }
        self.contents.push(source.text);
        self.stack.push(frame);
        self.bump();
    }

    /// Gives up on a pending `include` whose file cannot be opened.
    pub fn fail_include(&mut self, request: IncludeRequest) -> (r: Diagnostic)
        ensures
            r@ == (DiagnosticModel {
                kind: ErrorKind::IncludeNotFound,
                span: Some(request.span),
                text: request.filename@,
            }),
            final(self)@ == old(self)@.halt(),
    {
        self.halted = true;
        Diagnostic {
            kind: ErrorKind::IncludeNotFound,
            span: Some(request.span),
            text: request.filename,
        }
    }

    /// Whether a macro of this name is defined.
    pub fn is_defined(&self, name: &Vec<char>) -> (r: bool)
        ensures
            r == self@.defs.contains_key(name@),
    {
        self.macro_defs.contains_key(name)
    }

    /// The number of open conditional groups.
    pub fn depth(&self) -> (r: usize)
        ensures
            r == self@.conds.len(),
    {
        self.defcond_stack.len()
    }

    /// The sticky directives.
    pub fn directives(&self) -> (r: Directives)
        ensures
            r == self@.dirs,
    {
        self.dirs
    }
}

} // verus!
