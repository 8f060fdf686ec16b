//! Macro definitions, the table that holds them, and their expansion.

use crate::token::{same_text, text_of, CatKind, Span, Token};
use vstd::prelude::*;

verus! {

/// A formal parameter of a macro.
#[derive(Debug)]
pub struct MacroArg {
    pub name: Vec<char>,
    pub span: Span,
}

/// A macro definition: its name, where it was defined, its formal
/// parameters in order, and the tokens of its body.
#[derive(Debug)]
pub struct Macro {
    pub name: Vec<char>,
    pub span: Span,
    pub args: Vec<MacroArg>,
    pub body: Vec<Token>,
}

/// The mathematical value of a [`MacroArg`].
pub struct MacroArgModel {
    pub name: Seq<char>,
    pub span: Span,
}

/// The mathematical value of a [`Macro`].
pub struct MacroModel {
    pub name: Seq<char>,
    pub span: Span,
    pub args: Seq<MacroArgModel>,
    pub body: Seq<Token>,
}

impl View for MacroArg {
    type V = MacroArgModel;

    open spec fn view(&self) -> MacroArgModel {
        MacroArgModel { name: self.name@, span: self.span }
    }
}

impl View for Macro {
    type V = MacroModel;

    open spec fn view(&self) -> MacroModel {
        MacroModel {
            name: self.name@,
            span: self.span,
            args: self.args@.map_values(|a: MacroArg| a@),
            body: self.body@,
        }
    }
}

/// A copy of a text.
pub fn copy_text(v: &Vec<char>) -> (r: Vec<char>)
    ensures
        r@ == v@,
{
    let mut out: Vec<char> = Vec::new();
    let mut i: usize = 0;
    while i < v.len()
        invariant
            i <= v.len(),
            out@ == v@.subrange(0, i as int),
        decreases v.len() - i,
    {
        out.push(v[i]);
        i += 1;
    }
    proof {
        assert(v@.subrange(0, v.len() as int) == v@);
    }
    out
}

/// A copy of a token list.
pub fn copy_tokens(v: &Vec<Token>) -> (r: Vec<Token>)
    ensures
        r@ == v@,
{
    let mut out: Vec<Token> = Vec::new();
    let mut i: usize = 0;
    while i < v.len()
        invariant
            i <= v.len(),
            out@ == v@.subrange(0, i as int),
        decreases v.len() - i,
    {
        out.push(v[i]);
        i += 1;
    }
    proof {
        assert(v@.subrange(0, v.len() as int) == v@);
    }
    out
}

impl MacroArg {
    /// A parameter with the given name.
    pub fn new(name: Vec<char>, span: Span) -> (r: MacroArg)
        ensures
            r@ == (MacroArgModel { name: name@, span }),
    {
        MacroArg { name, span }
    }

    /// A copy of this parameter.
    pub fn duplicate(&self) -> (r: MacroArg)
        ensures
            r@ == self@,
    {
        MacroArg { name: copy_text(&self.name), span: self.span }
    }
}

impl Macro {
    /// A macro without parameters and with an empty body.
    pub fn new(name: Vec<char>, span: Span) -> (r: Macro)
        ensures
            r@ == (MacroModel { name: name@, span, args: Seq::empty(), body: Seq::empty() }),
    {
        let r = Macro { name, span, args: Vec::new(), body: Vec::new() };
        proof {
            assert(r@.args =~= Seq::empty());
        }
        r
    }

    /// A copy of this macro.
    pub fn duplicate(&self) -> (r: Macro)
        ensures
            r@ == self@,
    {
        let mut args: Vec<MacroArg> = Vec::new();
        let mut i: usize = 0;
        while i < self.args.len()
            invariant
                i <= self.args.len(),
                args@.map_values(|a: MacroArg| a@) == self.args@.map_values(|a: MacroArg| a@).subrange(
                    0,
                    i as int,
                ),
            decreases self.args.len() - i,
        {
            let a = self.args[i].duplicate();
            proof {
                assert(args@.push(a).map_values(|a: MacroArg| a@) =~= args@.map_values(
                    |a: MacroArg| a@,
                ).push(a@));
                assert(self.args@.map_values(|a: MacroArg| a@).subrange(0, i + 1)
                    =~= self.args@.map_values(|a: MacroArg| a@).subrange(0, i as int).push(
                    self.args@[i as int]@,
                ));
            }
            args.push(a);
            i += 1;
        }
        proof {
            let full = self.args@.map_values(|a: MacroArg| a@);
            assert(full.subrange(0, self.args.len() as int) == full);
        }
        Macro { name: copy_text(&self.name), span: self.span, args, body: copy_tokens(&self.body) }
    }
}

/// The definitions that a list of entries stands for: each entry binds its
/// name, and a later entry replaces an earlier one of the same name.
pub open spec fn table_map(entries: Seq<MacroModel>) -> Map<Seq<char>, MacroModel>
    decreases entries.len(),
{
    if entries.len() == 0 {
        Map::empty()
    } else {
        table_map(entries.drop_last()).insert(entries.last().name, entries.last())
    }
}

proof fn lemma_table_absent(entries: Seq<MacroModel>, name: Seq<char>)
    requires
        forall|j: int| 0 <= j < entries.len() ==> entries[j].name != name,
    ensures
        !table_map(entries).contains_key(name),
    decreases entries.len(),
{
    if entries.len() > 0 {
        lemma_table_absent(entries.drop_last(), name);
    }
}

proof fn lemma_table_last_match(entries: Seq<MacroModel>, i: int, name: Seq<char>)
    requires
        0 <= i < entries.len(),
        entries[i].name == name,
        forall|j: int| i < j < entries.len() ==> entries[j].name != name,
    ensures
        table_map(entries).contains_key(name),
        table_map(entries)[name] == entries[i],
    decreases entries.len(),
{
    if i < entries.len() - 1 {
        lemma_table_last_match(entries.drop_last(), i, name);
    }
}

proof fn lemma_table_remove(entries: Seq<MacroModel>, i: int, name: Seq<char>)
    requires
        0 <= i < entries.len(),
        entries[i].name == name,
    ensures
        table_map(entries.remove(i)).remove(name) == table_map(entries).remove(name),
    decreases entries.len(),
{
    let last = entries.last();
    if i == entries.len() - 1 {
        assert(entries.remove(i) =~= entries.drop_last());
        assert(table_map(entries).remove(name) =~= table_map(entries.drop_last()).remove(name));
    } else {
        lemma_table_remove(entries.drop_last(), i, name);
        let shorter = entries.remove(i);
        assert(shorter.drop_last() =~= entries.drop_last().remove(i));
        assert(shorter.last() == last);
        let a = table_map(entries.drop_last().remove(i));
        let b = table_map(entries.drop_last());
        assert(table_map(shorter) == a.insert(last.name, last));
        assert(table_map(entries) == b.insert(last.name, last));
        let l = a.insert(last.name, last).remove(name);
        let r = b.insert(last.name, last).remove(name);
        assert forall|k: Seq<char>| #[trigger]
            l.dom().contains(k) == r.dom().contains(k) && (l.dom().contains(k) ==> l[k] == r[k]) by {
            if k != name && k != last.name {
                assert(a.remove(name) == b.remove(name));
                assert(a.remove(name).contains_key(k) == a.contains_key(k));
                assert(b.remove(name).contains_key(k) == b.contains_key(k));
                if a.contains_key(k) {
                    assert(a.remove(name)[k] == a[k]);
                    assert(b.remove(name)[k] == b[k]);
                }
            }
        }
        assert(l =~= r);
    }
}

/// The macros that are currently defined, by name.
pub struct MacroTable {
    entries: Vec<Macro>,
}

impl View for MacroTable {
    type V = Map<Seq<char>, MacroModel>;

    closed spec fn view(&self) -> Map<Seq<char>, MacroModel> {
        table_map(self.entries@.map_values(|m: Macro| m@))
    }
}

impl MacroTable {
    /// A table without definitions.
    pub fn new() -> (r: MacroTable)
        ensures
            r@ == Map::<Seq<char>, MacroModel>::empty(),
    {
        MacroTable { entries: Vec::new() }
    }

    /// Forgets every definition.
    pub fn clear(&mut self)
        ensures
            final(self)@ == Map::<Seq<char>, MacroModel>::empty(),
    {
        self.entries = Vec::new();
    }

    /// The place of the entry that defines this name, if there is one.
    fn position(&self, name: &Vec<char>) -> (r: Option<usize>)
        ensures
            r is Some == self@.contains_key(name@),
            r is Some ==> r->0 < self.entries@.len() && self.entries@[r->0 as int]@ == self@[name@],
    {
        let ghost models = self.entries@.map_values(|m: Macro| m@);
        let mut i: usize = self.entries.len();
        while i > 0
            invariant
                i <= self.entries.len(),
                models == self.entries@.map_values(|m: Macro| m@),
                forall|j: int| i <= j < models.len() ==> models[j].name != name@,
            decreases i,
        {
            i -= 1;
            if same_text(&self.entries[i].name, name) {
                proof {
                    lemma_table_last_match(models, i as int, name@);
                }
                return Some(i);
            }
        }
        proof {
            lemma_table_absent(models, name@);
        }
        None
    }

    /// Whether a macro of this name is defined.
    pub fn contains_key(&self, name: &Vec<char>) -> (r: bool)
        ensures
            r == self@.contains_key(name@),
    {
        self.position(name).is_some()
    }

    /// A copy of the macro of this name, if one is defined.
    pub fn get(&self, name: &Vec<char>) -> (r: Option<Macro>)
        ensures
            r is Some == self@.contains_key(name@),
            r is Some ==> r->0@ == self@[name@],
    {
        match self.position(name) {
            Some(i) => Some(self.entries[i].duplicate()),
            None => None,
        }
    }

    /// Removes the macro of this name. Nothing happens if there is none.
    pub fn remove(&mut self, name: &Vec<char>)
        ensures
            final(self)@ == old(self)@.remove(name@),
    {
        let ghost before = self@;
        let mut i: usize = 0;
        while i < self.entries.len()
            invariant
                i <= self.entries.len(),
                self@.remove(name@) == before.remove(name@),
                forall|j: int| 0 <= j < i ==> self.entries@[j]@.name != name@,
            decreases self.entries.len() - i,
        {
            if same_text(&self.entries[i].name, name) {
                proof {
                    let models = self.entries@.map_values(|m: Macro| m@);
                    lemma_table_remove(models, i as int, name@);
                    assert(self.entries@.remove(i as int).map_values(|m: Macro| m@)
                        =~= models.remove(i as int));
                }
                self.entries.remove(i);
            } else {
                i += 1;
            }
        }
        proof {
            let models = self.entries@.map_values(|m: Macro| m@);
            lemma_table_absent(models, name@);
            assert(self@.remove(name@) =~= self@);
        }
    }

    /// Defines a macro, in place of any earlier one of the same name.
    pub fn insert(&mut self, makro: Macro)
        ensures
            final(self)@ == old(self)@.insert(makro@.name, makro@),
    {
        let ghost before = self@;
        self.remove(&makro.name);
        proof {
            let models = self.entries@.map_values(|m: Macro| m@);
            assert(self.entries@.push(makro).map_values(|m: Macro| m@) =~= models.push(makro@));
            assert(models.push(makro@).drop_last() =~= models);
            assert(before.remove(makro@.name).insert(makro@.name, makro@) =~= before.insert(
                makro@.name,
                makro@,
            ));
        }
        self.entries.push(makro);
    }
}

/// The tokens that the last actual argument bound to a parameter of this
/// name holds, if an argument was given for such a parameter.
pub open spec fn binding_for(
    params: Seq<MacroArgModel>,
    actuals: Seq<Seq<Token>>,
    name: Seq<char>,
) -> Option<Seq<Token>>
    decreases actuals.len(),
{
    if actuals.len() == 0 {
        None
    } else if actuals.len() <= params.len() && params[actuals.len() - 1].name == name {
        Some(actuals.last())
    } else {
        binding_for(params, actuals.drop_last(), name)
    }
}

/// What one body token turns into: the bound argument if the token is a
/// text token that spells a bound parameter, and the token itself otherwise.
pub open spec fn substitute(
    contents: Seq<Seq<char>>,
    params: Seq<MacroArgModel>,
    actuals: Seq<Seq<Token>>,
    tok: Token,
) -> Seq<Token> {
    if tok.kind == CatKind::Text {
        match binding_for(params, actuals, text_of(contents, tok.span)) {
            Some(s) => s,
            None => seq![tok],
        }
    } else {
        seq![tok]
    }
}

/// The expansion of a macro body: the substitutions of its tokens, in order.
pub open spec fn expansion(
    contents: Seq<Seq<char>>,
    params: Seq<MacroArgModel>,
    actuals: Seq<Seq<Token>>,
    body: Seq<Token>,
) -> Seq<Token>
    decreases body.len(),
{
    if body.len() == 0 {
        Seq::empty()
    } else {
        expansion(contents, params, actuals, body.drop_last()) + substitute(
            contents,
            params,
            actuals,
            body.last(),
        )
    }
}

/// The view of a list of actual arguments.
pub open spec fn actuals_view(actuals: Seq<Vec<Token>>) -> Seq<Seq<Token>> {
    actuals.map_values(|v: Vec<Token>| v@)
}

/// Looks up the actual argument bound to a parameter name.
pub fn find_binding(makro: &Macro, actuals: &Vec<Vec<Token>>, name: &Vec<char>) -> (r: Option<
    usize,
>)
    ensures
        match binding_for(makro@.args, actuals_view(actuals@), name@) {
            Some(s) => r is Some && r->0 < actuals.len() && actuals@[r->0 as int]@ == s,
            None => r is None,
        },
{
    let ghost acts = actuals_view(actuals@);
    let mut i: usize = actuals.len();
    proof {
        assert(acts.subrange(0, i as int) =~= acts);
    }
    while i > 0
        invariant
            i <= actuals.len(),
            acts == actuals_view(actuals@),
            binding_for(makro@.args, acts, name@) == binding_for(
                makro@.args,
                acts.subrange(0, i as int),
                name@,
            ),
        decreases i,
    {
        proof {
            assert(acts.subrange(0, i as int).drop_last() =~= acts.subrange(0, i - 1));
        }
        i -= 1;
        if i < makro.args.len() && same_text(&makro.args[i].name, name) {
            return Some(i);
        }
    }
    proof {
        assert(acts.subrange(0, 0).len() == 0);
    }
    None
}

/// Expands a macro body with the given actual arguments.
pub fn expand(contents: &Vec<Vec<char>>, makro: &Macro, actuals: &Vec<Vec<Token>>) -> (r: Vec<
    Token,
>)
    ensures
        r@ == expansion(
            crate::token::contents_view(contents@),
            makro@.args,
            actuals_view(actuals@),
            makro@.body,
        ),
{
    let ghost cv = crate::token::contents_view(contents@);
    let ghost acts = actuals_view(actuals@);
    let mut out: Vec<Token> = Vec::new();
    let mut i: usize = 0;
    while i < makro.body.len()
        invariant
            i <= makro.body.len(),
            cv == crate::token::contents_view(contents@),
            acts == actuals_view(actuals@),
            out@ == expansion(cv, makro@.args, acts, makro.body@.subrange(0, i as int)),
        decreases makro.body.len() - i,
    {
        let tok = makro.body[i];
        proof {
            assert(makro.body@.subrange(0, i + 1).drop_last() =~= makro.body@.subrange(
                0,
                i as int,
            ));
        }
        let mut bound: Option<usize> = None;
        if tok.kind == CatKind::Text {
            let text = tok.span.extract(contents);
            bound = find_binding(makro, actuals, &text);
        }
        match bound {
            Some(k) => {
                let mut copy = copy_tokens(&actuals[k]);
                out.append(&mut copy);
            },
            None => {
                out.push(tok);
                proof {
                    assert(out@ =~= expansion(
                        cv,
                        makro@.args,
                        acts,
                        makro.body@.subrange(0, i as int),
                    ) + seq![tok]);
                }
            },
        }
        i += 1;
    }
    proof {
        assert(makro.body@.subrange(0, makro.body.len() as int) == makro.body@);
    }
    out
}

} // verus!
