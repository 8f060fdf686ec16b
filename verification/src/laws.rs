//! What holds of the preprocessor and of the evaluator in general.

use crate::eval::{all_some, any_error, child_folds, fold, unwrapped};
use crate::macros::{expansion, substitute, MacroArgModel, MacroModel};
use crate::mir::Rvalue;
use crate::model::{
    continues_name, directive_named, lemma_eat_name_fuel, lemma_read_actual_fuel, nesting_after,
    starts_name, Defcond, Directive, PreprocModel, StepModel,
};
use crate::token::{span_union, CatKind, Span, Token};
use crate::ty::{int_width, TypeModel};
use crate::value::{error_value, int_value, is_error_value, truncated};
use vstd::arithmetic::div_mod::{
    lemma_fundamental_div_mod, lemma_fundamental_div_mod_converse, lemma_mod_bound,
};
use vstd::arithmetic::power2::{lemma_pow2_pos, pow2};
use vstd::prelude::*;

verus! {

/// For a number that is not negative, or that is a multiple of two to the
/// width, the stored integer is the remainder of the number between zero
/// and two to the width.
pub proof fn lemma_truncated_is_residue(n: int, width: usize)
    requires
        n >= 0 || n % (pow2(width as nat) as int) == 0,
    ensures
        truncated(n, width) == n % (pow2(width as nat) as int),
        0 <= truncated(n, width) < pow2(width as nat),
{
    let m = pow2(width as nat) as int;
    lemma_pow2_pos(width as nat);
    lemma_mod_bound(n, m);
    if n < 0 {
        let k = n / m;
        lemma_fundamental_div_mod(n, m);
        assert(-n == m * (-k)) by (nonlinear_arith)
            requires
                n == m * k,
        ;
        lemma_fundamental_div_mod_converse(-n, m, -k, 0);
    }
}

/// An integer value that is made from a number that is not negative, or
/// that is a multiple of two to the width of its type, stores an integer
/// from zero up to, and not including, two to the width.
pub proof fn lemma_make_int_in_range(ty: TypeModel, n: int)
    requires
        int_width(ty) is Some,
        n >= 0 || n % (pow2(int_width(ty)->0 as nat) as int) == 0,
    ensures
        int_value(ty, n).kind is Int,
        0 <= int_value(ty, n).kind->Int_0 < pow2(int_width(ty)->0 as nat),
{
    lemma_truncated_is_residue(n, int_width(ty)->0);
}

/// An integer value that is made from such a number stores the number
/// reduced to the width of its type: `((n mod 2^w) + 2^w) mod 2^w`.
pub proof fn lemma_make_int_round_trip(ty: TypeModel, n: int)
    requires
        int_width(ty) is Some,
        n >= 0 || n % (pow2(int_width(ty)->0 as nat) as int) == 0,
    ensures
        int_value(ty, n).kind is Int,
        int_value(ty, n).kind->Int_0 == ((n % (pow2(int_width(ty)->0 as nat) as int)) + pow2(
            int_width(ty)->0 as nat,
        )) % (pow2(int_width(ty)->0 as nat) as int),
{
    let w = int_width(ty)->0;
    let m = pow2(w as nat) as int;
    lemma_truncated_is_residue(n, w);
    lemma_pow2_pos(w as nat);
    lemma_mod_bound(n, m);
    let r = n % m;
    lemma_fundamental_div_mod_converse(r + m, m, 1, r);
}

/// An expression with operands, one of which folds to a tombstone, folds
/// to the tombstone of its own type.
pub proof fn lemma_error_absorption(mir: &Rvalue, i: int)
    requires
        all_some(child_folds(mir)),
        0 <= i < child_folds(mir).len(),
        is_error_value(child_folds(mir)[i]->0),
    ensures
        fold(mir) == Some(error_value(mir.ty@)),
{
    let vals = unwrapped(child_folds(mir));
    assert(is_error_value(vals[i]));
    assert(any_error(vals));
}

/// Whether two states agree on everything but the tokens: the texts, the
/// macros, the conditional groups, the sticky directives and the halt.
pub open spec fn same_tables(a: PreprocModel, b: PreprocModel) -> bool {
    &&& a.contents == b.contents
    &&& a.defs == b.defs
    &&& a.conds == b.conds
    &&& a.dirs == b.dirs
    &&& a.halted == b.halted
}

/// Reading the rest of a name touches nothing but the tokens.
pub proof fn lemma_eat_name_rest_keeps(m: PreprocModel, name: Seq<char>, span: Span)
    ensures
        same_tables(m, m.eat_name_rest(name, span).state),
    decreases m.fuel(),
{
    if m.token is Some && continues_name(m.token->0.kind) {
        lemma_eat_name_rest_keeps(
            m.bump(),
            name + m.text(m.token->0.span),
            span_union(span, m.token->0.span),
        );
    }
}

/// Reading a name touches nothing but the tokens.
pub proof fn lemma_eat_name_keeps(m: PreprocModel)
    ensures
        m.eat_name() is Some ==> same_tables(m, m.eat_name()->0.state),
{
    if m.token is Some && starts_name(m.token->0.kind) {
        lemma_eat_name_rest_keeps(m.bump(), m.text(m.token->0.span), m.token->0.span);
    }
}

/// Reading the formal parameters of a definition touches nothing but the
/// tokens.
pub proof fn lemma_define_args_keeps(m: PreprocModel, span: Span, args: Seq<MacroArgModel>)
    ensures
        same_tables(m, m.define_args(span, args).state),
    decreases m.fuel(),
{
    if !m.at_symbol(')') {
        let m1 = m.skip_blank();
        lemma_eat_name_keeps(m1);
        lemma_eat_name_fuel(m1);
        match m1.eat_name() {
            None => {},
            Some(named) => {
                let m3 = named.state.skip_blank();
                if m3.at_symbol(',') {
                    lemma_define_args_keeps(
                        m3.bump(),
                        span,
                        args.push(MacroArgModel { name: named.name, span: named.span }),
                    );
                }
            },
        }
    }
}

/// Reading the body of a definition touches nothing but the tokens.
pub proof fn lemma_define_body_keeps(m: PreprocModel, body: Seq<Token>)
    ensures
        same_tables(m, m.define_body(body).1),
    decreases m.fuel(),
{
    match m.token {
        None => {},
        Some(t) => {
            if t.kind == CatKind::Newline {
            } else if t.kind == CatKind::Symbol('\\') {
                let n = m.bump();
                if n.at_kind(CatKind::Newline) {
                    lemma_define_body_keeps(n.bump(), body);
                } else {
                    lemma_define_body_keeps(n, body);
                }
            } else {
                lemma_define_body_keeps(m.bump(), body.push(t));
            }
        },
    }
}

/// Where directives are processed, `undefineall`, then a `define`, then
/// `undefineall` again leave no macro defined.
pub proof fn lemma_undefineall_idempotent(m: PreprocModel, span: Span)
    requires
        !m.is_inactive(),
    ensures
        m.handle_undefineall().1.handle_define(span).1.handle_undefineall().1.defs == Map::<
            Seq<char>,
            MacroModel,
        >::empty(),
        m.handle_undefineall().1.defs == Map::<Seq<char>, MacroModel>::empty(),
{
    lemma_define_keeps(m.handle_undefineall().1, span);
}

/// A step emits a token only where tokens are let through: no conditional
/// group is open, or the innermost one is enabled. It leaves the groups as
/// they are.
pub proof fn lemma_emission_only_when_active(m: PreprocModel)
    requires
        m.step().0 is Emitted,
    ensures
        !m.is_inactive(),
        m.step().1.conds == m.conds,
{
    let t = m.token->0;
    if t.kind == CatKind::Symbol('`') {
        lemma_eat_name_keeps(m.bump());
        match m.bump().eat_name() {
            Some(named) => {
                lemma_directive_never_emits(
                    named.state,
                    named.name,
                    span_union(t.span, named.span),
                );
            },
            None => {},
        }
    }
}

/// A directive emits no token by itself.
pub proof fn lemma_directive_never_emits(m: PreprocModel, name: Seq<char>, span: Span)
    ensures
        !(m.handle_directive(name, span).0 is Emitted),
        !(m.handle_directive(name, span).0 is Finished),
{
    lemma_include_never_emits(m, span);
}

/// Reading the name of an included file yields a request or a failure.
pub proof fn lemma_include_name_yields(
    m: PreprocModel,
    closing: char,
    span: Span,
    from: Span,
    name: Seq<char>,
)
    ensures
        m.include_name(closing, span, from, name).0 is Include || m.include_name(
            closing,
            span,
            from,
            name,
        ).0 is Failed,
    decreases m.fuel(),
{
    match m.token {
        None => {},
        Some(t) => {
            if t.kind != CatKind::Symbol(closing) && t.kind != CatKind::Newline {
                lemma_include_name_yields(m.bump(), closing, span, from, name + m.text(t.span));
            }
        },
    }
}

/// The directive `include` emits no token by itself.
pub proof fn lemma_include_never_emits(m: PreprocModel, span: Span)
    ensures
        !(m.handle_include(span).0 is Emitted),
        !(m.handle_include(span).0 is Finished),
{
    if !m.is_inactive() {
        let n = m.skip_blank();
        if n.at_symbol('"') || n.at_symbol('<') {
            let sp = n.token->0.span;
            lemma_include_name_yields(
                n.bump(),
                if n.at_symbol('"') {
                    '"'
                } else {
                    '>'
                },
                span,
                Span { source: sp.source, begin: sp.end, end: sp.end },
                Seq::empty(),
            );
        }
    }
}

/// Skipping to the end of a line touches nothing but the tokens.
pub proof fn lemma_skip_line_keeps(m: PreprocModel)
    ensures
        same_tables(m, m.skip_line()),
    decreases m.fuel(),
{
    if m.token is Some && m.token->0.kind != CatKind::Newline {
        lemma_skip_line_keeps(m.bump());
    }
}

/// Whether a directive belongs to conditional compilation.
pub open spec fn is_conditional(dir: Directive) -> bool {
    dir == Directive::Ifdef || dir == Directive::Ifndef || dir == Directive::Elsif || dir
        == Directive::Else || dir == Directive::Endif
}

/// Where tokens are dropped, only the directives of conditional compilation
/// are processed: any other directive is consumed silently and leaves the
/// macros, the conditional groups and the sticky directives as they are.
pub proof fn lemma_inactive_discards(m: PreprocModel, name: Seq<char>, span: Span)
    requires
        m.is_inactive(),
        !is_conditional(directive_named(name)),
    ensures
        m.handle_directive(name, span).0 is Skipped,
        same_tables(m, m.handle_directive(name, span).1),
{
    lemma_skip_line_keeps(m);
}

/// Where tokens are dropped, a token that is no backtick is consumed
/// silently.
pub proof fn lemma_inactive_drops_tokens(m: PreprocModel)
    requires
        m.is_inactive(),
        !m.halted,
        m.token is Some,
        m.token->0.kind != CatKind::Symbol('`'),
    ensures
        m.step() == (StepModel::Skipped, m.bump()),
{
}

/// A failure is final: the step that fails halts the stream, and a halted
/// stream yields nothing more and stays as it is.
pub proof fn lemma_failure_is_final(m: PreprocModel, limit: nat)
    ensures
        m.step().0 is Failed ==> m.step().1.halted,
        m.halted ==> m.next(limit) == (StepModel::Finished, m),
        m.halted ==> m.step() == (StepModel::Finished, m),
{
}

/// A conditional level is enabled when it opens exactly if tokens are let
/// through around it and its guard holds.
pub proof fn lemma_level_enabled_iff(m: PreprocModel, holds: bool)
    ensures
        m.guard(holds) == Defcond::Enabled <==> !m.is_inactive() && holds,
        m.is_inactive() ==> m.guard(holds) == Defcond::Done,
{
}

/// Once a branch of a conditional group was taken, no later branch of the
/// group is: `else` and `elsif` leave a level that is enabled or done as
/// done.
pub proof fn lemma_branch_taken_once(m: PreprocModel, name: Seq<char>, span: Span)
    requires
        m.conds.len() > 0,
        m.conds.last() != Defcond::Disabled,
    ensures
        m.handle_else(span).1.conds == m.conds.drop_last().push(Defcond::Done),
        m.handle_conditional(Directive::Elsif, name, span).0 is Skipped ==> m.handle_conditional(
            Directive::Elsif,
            name,
            span,
        ).1.conds == m.conds.drop_last().push(Defcond::Done),
{
    lemma_eat_name_keeps(m.skip_blank());
}

/// A balanced group leaves the conditional stack as it found it: after
/// `ifdef` or `ifndef`, an `else` and the `endif`, the open groups are
/// those from before.
pub proof fn lemma_balanced_group(m: PreprocModel, dir: Directive, name: Seq<char>, span: Span)
    requires
        dir == Directive::Ifdef || dir == Directive::Ifndef,
        m.handle_conditional(dir, name, span).0 is Skipped,
    ensures
        m.handle_conditional(dir, name, span).1.conds.len() == m.conds.len() + 1,
        m.handle_conditional(dir, name, span).1.handle_endif(span).1.conds == m.conds,
        m.handle_conditional(dir, name, span).1.handle_else(span).1.handle_endif(span).1.conds
            == m.conds,
{
    lemma_eat_name_keeps(m.skip_blank());
    let opened = m.handle_conditional(dir, name, span).1;
    assert(opened.conds.drop_last() =~= m.conds);
    let other = opened.handle_else(span).1;
    assert(other.conds.drop_last() =~= m.conds);
}

/// The expansion of a macro body is the concatenation of what its tokens
/// turn into, in order.
pub proof fn lemma_expansion_is_concatenation(
    contents: Seq<Seq<char>>,
    params: Seq<MacroArgModel>,
    actuals: Seq<Seq<Token>>,
    body: Seq<Token>,
)
    ensures
        expansion(contents, params, actuals, body) == body.map_values(
            |t: Token| substitute(contents, params, actuals, t),
        ).flatten(),
    decreases body.len(),
{
    let parts = body.map_values(|t: Token| substitute(contents, params, actuals, t));
    parts.lemma_flatten_and_flatten_alt_are_equivalent();
    if body.len() > 0 {
        lemma_expansion_is_concatenation(contents, params, actuals, body.drop_last());
        let shorter = body.drop_last().map_values(
            |t: Token| substitute(contents, params, actuals, t),
        );
        shorter.lemma_flatten_and_flatten_alt_are_equivalent();
        assert(parts.drop_last() =~= shorter);
    }
}

/// After the use of a macro the tokens that are served next are the
/// expansion of its body, then the token that followed the use, then what
/// waited before.
pub proof fn lemma_expansion_is_served(m: PreprocModel, makro: MacroModel, actuals: Seq<Seq<Token>>)
    ensures
        ({
            let after = m.inject_expansion(makro, actuals);
            let served = expansion(m.contents, makro.args, actuals, makro.body) + (match m.token {
                Some(t) => seq![t],
                None => Seq::empty(),
            }) + m.injected;
            &&& after.streamed == if served.len() > 0 {
                m.streamed
            } else {
                m.bump().streamed
            }
            &&& served.len() > 0 ==> after.token is Some && seq![after.token->0] + after.injected
                == served
        }),
{
    let served = expansion(m.contents, makro.args, actuals, makro.body) + (match m.token {
        Some(t) => seq![t],
        None => Seq::empty(),
    }) + m.injected;
    if served.len() > 0 {
        assert(seq![served[0]] + served.drop_first() =~= served);
    }
}

/// Reading the name of an included file touches nothing but the tokens.
pub proof fn lemma_include_name_keeps(
    m: PreprocModel,
    closing: char,
    span: Span,
    from: Span,
    name: Seq<char>,
)
    ensures
        same_tables(m, m.include_name(closing, span, from, name).1),
    decreases m.fuel(),
{
    match m.token {
        None => {},
        Some(t) => {
            if t.kind != CatKind::Symbol(closing) && t.kind != CatKind::Newline {
                lemma_include_name_keeps(m.bump(), closing, span, from, name + m.text(t.span));
            }
        },
    }
}

/// Reading an actual argument touches nothing but the tokens.
pub proof fn lemma_read_actual_keeps(m: PreprocModel, span: Span, tokens: Seq<Token>, nesting: nat)
    ensures
        same_tables(m, m.read_actual(span, tokens, nesting).state),
    decreases m.fuel(),
{
    match m.token {
        None => {},
        Some(t) => {
            if !(nesting == 0 && (t.kind == CatKind::Symbol(',') || t.kind == CatKind::Symbol(
                ')',
            ))) {
                lemma_read_actual_keeps(
                    m.bump(),
                    span,
                    tokens.push(t),
                    nesting_after(t.kind, nesting),
                );
            }
        },
    }
}

/// Reading the actual arguments of a macro use touches nothing but the
/// tokens.
pub proof fn lemma_macro_actuals_keeps(
    m: PreprocModel,
    arity: nat,
    span: Span,
    actuals: Seq<Seq<Token>>,
)
    ensures
        same_tables(m, m.macro_actuals(arity, span, actuals).state),
    decreases m.fuel(),
{
    if !m.at_symbol(')') && actuals.len() < arity {
        let actual = m.read_actual(span, Seq::empty(), 0);
        lemma_read_actual_keeps(m, span, Seq::empty(), 0);
        lemma_read_actual_fuel(m, span, Seq::empty(), 0);
        if actual.error is None && !actual.closed {
            lemma_macro_actuals_keeps(actual.state, arity, span, actuals.push(actual.tokens));
        }
    }
}

/// Whether two states hold the same source texts and the same conditional
/// groups.
pub open spec fn same_sources_and_groups(a: PreprocModel, b: PreprocModel) -> bool {
    a.contents == b.contents && a.conds == b.conds
}

/// The directive `include` keeps the source texts and the conditional
/// groups.
pub proof fn lemma_include_keeps(m: PreprocModel, span: Span)
    ensures
        same_sources_and_groups(m, m.handle_include(span).1),
{
    let n = m.skip_blank();
    if !m.is_inactive() && (n.at_symbol('"') || n.at_symbol('<')) {
        let sp = n.token->0.span;
        lemma_include_name_keeps(
            n.bump(),
            if n.at_symbol('"') {
                '"'
            } else {
                '>'
            },
            span,
            Span { source: sp.source, begin: sp.end, end: sp.end },
            Seq::empty(),
        );
    }
}

/// The directive `define` keeps the source texts and the conditional
/// groups.
pub proof fn lemma_define_keeps(m: PreprocModel, span: Span)
    ensures
        same_sources_and_groups(m, m.handle_define(span).1),
{
    if !m.is_inactive() {
        let m1 = m.skip_blank();
        lemma_eat_name_keeps(m1);
        match m1.eat_name() {
            None => {},
            Some(named) => {
                if named.state.at_symbol('(') {
                    lemma_define_args_keeps(named.state.bump(), span, Seq::empty());
                    let listed = named.state.bump().define_args(span, Seq::empty());
                    lemma_define_body_keeps(listed.state.bump().skip_blank(), Seq::empty());
                } else {
                    lemma_define_body_keeps(named.state.skip_blank(), Seq::empty());
                }
            },
        }
    }
}

/// The use of a macro keeps the source texts and the conditional groups.
pub proof fn lemma_macro_keeps(m: PreprocModel, name: Seq<char>, span: Span)
    ensures
        same_sources_and_groups(m, m.handle_macro(name, span).1),
{
    if !m.is_inactive() && m.defs.contains_key(name) {
        let makro = m.defs[name];
        if makro.args.len() > 0 && m.at_symbol('(') {
            lemma_macro_actuals_keeps(m.bump(), makro.args.len(), span, Seq::empty());
        }
    }
}

/// No directive forgets the text of a source, and only the directives of
/// conditional compilation touch the conditional groups.
pub proof fn lemma_directive_keeps_sources(m: PreprocModel, name: Seq<char>, span: Span)
    ensures
        m.handle_directive(name, span).1.contents == m.contents,
        !is_conditional(directive_named(name)) ==> m.handle_directive(name, span).1.conds
            == m.conds,
{
    let dir = directive_named(name);
    if dir == Directive::Include {
        lemma_include_keeps(m, span);
    } else if dir == Directive::Define {
        lemma_define_keeps(m, span);
    } else if dir == Directive::Unknown {
        lemma_macro_keeps(m, name, span);
    } else if dir == Directive::Timescale {
        lemma_skip_line_keeps(m);
    } else {
        lemma_eat_name_keeps(m.skip_blank());
    }
}

/// The conditional stack is as deep as there are open groups: `ifdef` and
/// `ifndef` open one, `endif` closes one, `else` and `elsif` keep the
/// depth.
pub proof fn lemma_conditional_depth(m: PreprocModel, name: Seq<char>, span: Span)
    requires
        is_conditional(directive_named(name)),
        m.handle_directive(name, span).0 is Skipped,
    ensures
        m.handle_directive(name, span).1.conds.len() == m.conds.len() + (match directive_named(
            name,
        ) {
            Directive::Ifdef => 1int,
            Directive::Ifndef => 1int,
            Directive::Endif => -1int,
            _ => 0int,
        }),
{
    lemma_eat_name_keeps(m.skip_blank());
}

/// No step forgets the text of a source: the spans of all tokens stay
/// valid.
pub proof fn lemma_step_keeps_sources(m: PreprocModel)
    ensures
        m.step().1.contents == m.contents,
{
    if !m.halted && m.token is Some && m.token->0.kind == CatKind::Symbol('`') {
        let t = m.token->0;
        lemma_eat_name_keeps(m.bump());
        match m.bump().eat_name() {
            Some(named) => {
                lemma_directive_keeps_sources(
                    named.state,
                    named.name,
                    span_union(t.span, named.span),
                );
            },
            None => {},
        }
    }
}

} // verus!
