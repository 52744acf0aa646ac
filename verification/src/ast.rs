//! The abstract syntax tree: expressions, declarative entries, lexical
//! scopes and the parse result. Every type has a mathematical view over
//! sequences, which the parser's contracts are stated in.

use vstd::prelude::*;

use crate::token::Ident;
use crate::value::HugValue;
use crate::value::HugValueV;

verus! {

broadcast use vstd::std_specs::vec::axiom_vec_index_decreases, vstd::std_specs::vec::axiom_vec_decreases_to_view, vstd::seq::axiom_seq_index_decreases, vstd::seq::axiom_seq_subrange_decreases;

/// The mathematical shape of an expression.
pub enum ExpressionV {
    Literal(HugValueV),
    Variable(Ident),
    Call { function: Ident, args: Seq<ExpressionV> },
}

/// An expression: a literal value, a variable reference, or a call with
/// ordered argument expressions. Only literals are compile-time constant.
#[derive(Debug, PartialEq)]
pub enum Expression {
    Literal(HugValue),
    Variable(Ident),
    Call { function: Ident, args: Vec<Expression> },
}

/// The view of one expression.
pub open spec fn expr_view(e: Expression) -> ExpressionV
    decreases e,
{
    match e {
        Expression::Literal(v) => ExpressionV::Literal(v.deep_view()),
        Expression::Variable(id) => ExpressionV::Variable(id),
        Expression::Call { function, args } => ExpressionV::Call {
            function: function,
            args: exprs_view(args@),
        },
    }
}

/// The views of a sequence of expressions, in order.
pub open spec fn exprs_view(s: Seq<Expression>) -> Seq<ExpressionV>
    decreases s,
{
    if s.len() == 0 {
        Seq::empty()
    } else {
        seq![expr_view(s[0])] + exprs_view(s.subrange(1, s.len() as int))
    }
}

/// The element views of a sequence of expressions are taken pointwise.
pub proof fn lemma_exprs_view(s: Seq<Expression>)
    ensures
        exprs_view(s).len() == s.len(),
        forall|i: int| 0 <= i < s.len() ==> exprs_view(s)[i] == expr_view(#[trigger] s[i]),
    decreases s.len(),
{
    if s.len() > 0 {
        let tail = s.subrange(1, s.len() as int);
        lemma_exprs_view(tail);
        assert forall|i: int| 0 <= i < s.len() implies exprs_view(s)[i] == expr_view(
            #[trigger] s[i],
        ) by {
            if i > 0 {
                assert(exprs_view(s)[i] == exprs_view(tail)[i - 1]);
                assert(tail[i - 1] == s[i]);
            }
        }
    }
}

impl DeepView for Expression {
    type V = ExpressionV;

    open spec fn deep_view(&self) -> ExpressionV {
        expr_view(*self)
    }
}

impl Expression {
    /// Whether this expression is compile-time constant: only literals are.
    pub fn is_constant(&self) -> (r: bool)
        ensures
            r == (self.deep_view() matches ExpressionV::Literal(_)),
    {
        match self {
            Expression::Literal(_) => true,
            _ => false,
        }
    }

    /// The constant value of this expression, when it has one.
    pub fn get_constant_value(&self) -> (r: Option<HugValue>)
        ensures
            match r {
                Some(v) => self.deep_view() == ExpressionV::Literal(v.deep_view()),
                None => !(self.deep_view() matches ExpressionV::Literal(_)),
            },
    {
        match self {
            Expression::Literal(v) => Some(v.duplicate()),
            _ => None,
        }
    }
}

/// The mathematical shape of a function argument.
pub struct HugFunctionArgumentV {
    pub ident: Ident,
    pub default_value: Option<HugValueV>,
}

/// One declared function argument: its identifier and, optionally, a
/// constant default value.
#[derive(Debug, Clone, PartialEq)]
pub struct HugFunctionArgument {
    pub ident: Ident,
    pub default_value: Option<HugValue>,
}

impl DeepView for HugFunctionArgument {
    type V = HugFunctionArgumentV;

    open spec fn deep_view(&self) -> HugFunctionArgumentV {
        HugFunctionArgumentV {
            ident: self.ident,
            default_value: match self.default_value {
                Some(ref v) => Some(v.deep_view()),
                None => None,
            },
        }
    }
}

/// The element views of a sequence of function arguments, in order.
pub open spec fn args_view(s: Seq<HugFunctionArgument>) -> Seq<HugFunctionArgumentV> {
    Seq::new(s.len(), |i: int| s[i].deep_view())
}

/// The mathematical shape of one tree entry.
pub enum HugTreeEntryV {
    FunctionDefinition { ident: Ident, arguments: Seq<HugFunctionArgumentV> },
    VariableDefinition { variable: Ident, value: ExpressionV },
    ExternalModuleDefinition { location: Seq<char>, module: Ident },
    ExternalTypeDefinition { type_ident: Ident },
    Import { path: Seq<Ident> },
    Expression(ExpressionV),
}

/// One declarative unit of the tree, created once during parsing and
/// immutable thereafter.
#[derive(Debug, PartialEq)]
pub enum HugTreeEntry {
    FunctionDefinition { ident: Ident, arguments: Vec<HugFunctionArgument> },
    VariableDefinition { variable: Ident, value: Expression },
    ExternalModuleDefinition { location: String, module: Ident },
    ExternalTypeDefinition { type_ident: Ident },
    Import { path: Vec<Ident> },
    Expression(Expression),
}

impl DeepView for HugTreeEntry {
    type V = HugTreeEntryV;

    open spec fn deep_view(&self) -> HugTreeEntryV {
        match self {
            HugTreeEntry::FunctionDefinition { ident, arguments } => {
                HugTreeEntryV::FunctionDefinition {
                    ident: *ident,
                    arguments: Seq::new(arguments@.len(), |i: int| arguments@[i].deep_view()),
                }
            },
            HugTreeEntry::VariableDefinition { variable, value } => {
                HugTreeEntryV::VariableDefinition { variable: *variable, value: value.deep_view() }
            },
            HugTreeEntry::ExternalModuleDefinition { location, module } => {
                HugTreeEntryV::ExternalModuleDefinition { location: location@, module: *module }
            },
            HugTreeEntry::ExternalTypeDefinition { type_ident } => {
                HugTreeEntryV::ExternalTypeDefinition { type_ident: *type_ident }
            },
            HugTreeEntry::Import { path } => HugTreeEntryV::Import { path: path@ },
            HugTreeEntry::Expression(e) => HugTreeEntryV::Expression(e.deep_view()),
        }
    }
}

/// The mathematical shape of one scope member.
pub struct HugMemberV {
    pub ident: Ident,
    pub value: HugValueV,
    pub entries: Seq<HugTreeEntryV>,
}

/// One member of a scope: an identifier bound to its current value and the
/// accumulated entries tied to it. Entries accumulate: re-setting the
/// value never clears them.
#[derive(Debug, PartialEq)]
pub struct HugMember {
    pub ident: Ident,
    pub value: HugValue,
    pub entries: Vec<HugTreeEntry>,
}

impl DeepView for HugMember {
    type V = HugMemberV;

    open spec fn deep_view(&self) -> HugMemberV {
        HugMemberV {
            ident: self.ident,
            value: self.value.deep_view(),
            entries: Seq::new(self.entries@.len(), |i: int| self.entries@[i].deep_view()),
        }
    }
}

/// The mathematical shape of a scope.
pub struct HugScopeV {
    pub idents: Seq<Ident>,
    pub members: Seq<HugMemberV>,
}

/// A lexical container created per block: a scope-local identifier
/// registry and the ordered member bindings. Identifiers are never
/// retracted.
#[derive(Debug, PartialEq)]
pub struct HugScope {
    pub idents: Vec<Ident>,
    pub members: Vec<HugMember>,
}

impl DeepView for HugScope {
    type V = HugScopeV;

    open spec fn deep_view(&self) -> HugScopeV {
        HugScopeV {
            idents: self.idents@,
            members: Seq::new(self.members@.len(), |i: int| self.members@[i].deep_view()),
        }
    }
}

/// The mathematical shape of a tree.
pub struct HugTreeV {
    pub root: HugScopeV,
    pub entries: Seq<HugTreeEntryV>,
}

/// The parse result: a root scope for top-level declarations plus the
/// ordered top-level entries, in declaration order.
#[derive(Debug, PartialEq)]
pub struct HugTree {
    pub root: HugScope,
    pub entries: Vec<HugTreeEntry>,
}

impl DeepView for HugTree {
    type V = HugTreeV;

    open spec fn deep_view(&self) -> HugTreeV {
        HugTreeV {
            root: self.root.deep_view(),
            entries: Seq::new(self.entries@.len(), |i: int| self.entries@[i].deep_view()),
        }
    }
}

/// The empty scope view.
pub open spec fn empty_scope_v() -> HugScopeV {
    HugScopeV { idents: Seq::empty(), members: Seq::empty() }
}

/// The position of the first occurrence of `g` in `ids`.
pub open spec fn first_index_of_ident(ids: Seq<Ident>, g: Ident) -> Option<int>
    decreases ids.len(),
{
    if ids.len() == 0 {
        None
    } else if ids[0] == g {
        Some(0)
    } else {
        match first_index_of_ident(ids.drop_first(), g) {
            Some(j) => Some(j + 1),
            None => None,
        }
    }
}

/// The position of the first member bound to `id` in `ms`.
pub open spec fn first_index_of_member(ms: Seq<HugMemberV>, id: Ident) -> Option<int>
    decreases ms.len(),
{
    if ms.len() == 0 {
        None
    } else if ms[0].ident == id {
        Some(0)
    } else {
        match first_index_of_member(ms.drop_first(), id) {
            Some(j) => Some(j + 1),
            None => None,
        }
    }
}

/// A linear search that finds `g` at `i`, with no match before it, is the
/// first occurrence.
pub proof fn lemma_first_ident_found(ids: Seq<Ident>, g: Ident, i: int)
    requires
        0 <= i < ids.len(),
        ids[i] == g,
        forall|k: int| 0 <= k < i ==> ids[k] != g,
    ensures
        first_index_of_ident(ids, g) == Some(i),
    decreases i,
{
    if i == 0 {
    } else {
        lemma_first_ident_found(ids.drop_first(), g, i - 1);
    }
}

/// A linear search that finds no match has no first occurrence.
pub proof fn lemma_first_ident_none(ids: Seq<Ident>, g: Ident)
    requires
        forall|k: int| 0 <= k < ids.len() ==> ids[k] != g,
    ensures
        first_index_of_ident(ids, g) is None,
    decreases ids.len(),
{
    if ids.len() > 0 {
        lemma_first_ident_none(ids.drop_first(), g);
    }
}

/// A linear search that finds the member at `i`, with no match before it,
/// is the first occurrence.
pub proof fn lemma_first_member_found(ms: Seq<HugMemberV>, id: Ident, i: int)
    requires
        0 <= i < ms.len(),
        ms[i].ident == id,
        forall|k: int| 0 <= k < i ==> ms[k].ident != id,
    ensures
        first_index_of_member(ms, id) == Some(i),
    decreases i,
{
    if i == 0 {
    } else {
        lemma_first_member_found(ms.drop_first(), id, i - 1);
    }
}

/// A linear search that finds no member has no first occurrence.
pub proof fn lemma_first_member_none(ms: Seq<HugMemberV>, id: Ident)
    requires
        forall|k: int| 0 <= k < ms.len() ==> ms[k].ident != id,
    ensures
        first_index_of_member(ms, id) is None,
    decreases ms.len(),
{
    if ms.len() > 0 {
        lemma_first_member_none(ms.drop_first(), id);
    }
}

/// The first occurrence is a real occurrence, with none before it.
pub proof fn lemma_first_member_sound(ms: Seq<HugMemberV>, id: Ident)
    ensures
        match first_index_of_member(ms, id) {
            Some(j) => 0 <= j < ms.len() && ms[j].ident == id && (forall|k: int|
                0 <= k < j ==> (#[trigger] ms[k]).ident != id),
            None => forall|k: int| 0 <= k < ms.len() ==> (#[trigger] ms[k]).ident != id,
        },
    decreases ms.len(),
{
    if ms.len() > 0 && ms[0].ident != id {
        let tail = ms.drop_first();
        lemma_first_member_sound(tail, id);
        assert(forall|k: int| 0 <= k < tail.len() ==> (#[trigger] tail[k]) == ms[k + 1]);
        match first_index_of_member(tail, id) {
            Some(j) => {
                assert(first_index_of_member(ms, id) == Some(j + 1));
                assert(ms[j + 1].ident == id);
                assert forall|k: int| 0 <= k < j + 1 implies (#[trigger] ms[k]).ident != id by {
                    if k > 0 {
                        assert(tail[k - 1] == ms[k]);
                    }
                }
            },
            None => {
                assert forall|k: int| 0 <= k < ms.len() implies (#[trigger] ms[k]).ident != id by {
                    if k > 0 {
                        assert(tail[k - 1] == ms[k]);
                    }
                }
            },
        }
    }
}

/// After a value is installed for `id`, a member bound to `id` exists.
pub proof fn lemma_set_has_member(ms: Seq<HugMemberV>, id: Ident, v: HugValueV)
    ensures
        first_index_of_member(spec_set(ms, id, v), id) is Some,
{
    lemma_first_member_sound(ms, id);
    match first_index_of_member(ms, id) {
        Some(j) => {
            let ms2 = spec_set(ms, id, v);
            assert(ms2[j].ident == id);
            lemma_first_member_found(ms2, id, j);
        },
        None => {
            let ms2 = spec_set(ms, id, v);
            assert(ms2[ms.len() as int].ident == id);
            lemma_first_member_found(ms2, id, ms.len() as int);
        },
    }
}

/// Interning one identifier into a scope's registry: the scope-local
/// handle of the first occurrence, or a fresh handle at the end.
pub open spec fn spec_intern(ids: Seq<Ident>, g: Ident) -> (Seq<Ident>, Ident) {
    match first_index_of_ident(ids, g) {
        Some(j) => (ids, Ident(j as usize)),
        None => (ids.push(g), Ident(ids.len() as usize)),
    }
}

/// Installing a value for an identifier: the first member bound to it is
/// overwritten, keeping its accumulated entries; a new member is appended
/// otherwise.
pub open spec fn spec_set(ms: Seq<HugMemberV>, id: Ident, v: HugValueV) -> Seq<HugMemberV> {
    match first_index_of_member(ms, id) {
        Some(j) => ms.update(j, HugMemberV { ident: id, value: v, entries: ms[j].entries }),
        None => ms.push(HugMemberV { ident: id, value: v, entries: Seq::empty() }),
    }
}

/// Appending one more entry to the member bound to `id`.
pub open spec fn spec_push_entry(ms: Seq<HugMemberV>, id: Ident, e: HugTreeEntryV) -> Seq<
    HugMemberV,
>
    recommends
        first_index_of_member(ms, id) is Some,
{
    match first_index_of_member(ms, id) {
        Some(j) => ms.update(
            j,
            HugMemberV { ident: ms[j].ident, value: ms[j].value, entries: ms[j].entries.push(e) },
        ),
        None => ms,
    }
}

impl HugScope {
    /// Creates an empty scope.
    pub fn new() -> (s: HugScope)
        ensures
            s.deep_view() == empty_scope_v(),
    {
        let s = HugScope { idents: Vec::new(), members: Vec::new() };
        proof {
            assert(s.deep_view().idents =~= empty_scope_v().idents);
            assert(s.deep_view().members =~= empty_scope_v().members);
        }
        s
    }

    /// Interns an identifier into this scope's registry, returning the
    /// scope-local handle.
    pub fn ident(&mut self, global: Ident) -> (r: Ident)
        ensures
            (final(self).idents@, r) == spec_intern(old(self).idents@, global),
            final(self).members == old(self).members,
    {
        let n = self.idents.len();
        let mut i: usize = 0;
        while i < n
            invariant
                n == self.idents@.len(),
                i <= n,
                *self == *old(self),
                forall|k: int| 0 <= k < i ==> self.idents@[k] != global,
            decreases n - i,
        {
            if self.idents[i] == global {
                proof {
                    lemma_first_ident_found(self.idents@, global, i as int);
                }
                return Ident(i);
            }
            i = i + 1;
        }
        proof {
            lemma_first_ident_none(self.idents@, global);
        }
        self.idents.push(global);
        Ident(n)
    }

    /// Installs or overwrites the current value bound to an identifier;
    /// entries accumulated for it are kept.
    pub fn set(&mut self, ident: Ident, value: HugValue)
        ensures
            final(self).deep_view().members == spec_set(
                old(self).deep_view().members,
                ident,
                value.deep_view(),
            ),
            final(self).idents == old(self).idents,
    {
        let ghost ms0 = self.deep_view().members;
        let n = self.members.len();
        let mut i: usize = 0;
        while i < n
            invariant
                n == self.members@.len(),
                i <= n,
                *self == *old(self),
                ms0 == self.deep_view().members,
                forall|k: int| 0 <= k < i ==> ms0[k].ident != ident,
            decreases n - i,
        {
            proof {
                assert(ms0[i as int] == self.members@[i as int].deep_view());
            }
            if self.members[i].ident == ident {
                proof {
                    lemma_first_member_found(ms0, ident, i as int);
                }
                let m = vstd::std_specs::vec::vec_index_mut(&mut self.members, i);
                m.value = value;
                proof {
                    assert(final(self).deep_view().members =~= spec_set(
                        ms0,
                        ident,
                        value.deep_view(),
                    ));
                }
                return ;
            }
            i = i + 1;
        }
        proof {
            lemma_first_member_none(ms0, ident);
        }
        self.members.push(HugMember { ident, value, entries: Vec::new() });
        proof {
            assert(Seq::new(0nat, |i: int| self.members@[self.members@.len() - 1].entries@[i].deep_view())
                =~= Seq::<HugTreeEntryV>::empty());
            assert(final(self).deep_view().members =~= spec_set(ms0, ident, value.deep_view()));
        }
    }

    /// Appends one entry to the member bound to `ident`.
    pub fn push_entry(&mut self, ident: Ident, entry: HugTreeEntry)
        requires
            first_index_of_member(old(self).deep_view().members, ident) is Some,
        ensures
            final(self).deep_view().members == spec_push_entry(
                old(self).deep_view().members,
                ident,
                entry.deep_view(),
            ),
            final(self).idents == old(self).idents,
    {
        let ghost ms0 = self.deep_view().members;
        let n = self.members.len();
        let mut i: usize = 0;
        while i < n
            invariant
                n == self.members@.len(),
                i <= n,
                *self == *old(self),
                ms0 == self.deep_view().members,
                first_index_of_member(ms0, ident) is Some,
                forall|k: int| 0 <= k < i ==> ms0[k].ident != ident,
            decreases n - i,
        {
            proof {
                assert(ms0[i as int] == self.members@[i as int].deep_view());
            }
            if self.members[i].ident == ident {
                proof {
                    lemma_first_member_found(ms0, ident, i as int);
                }
                let m = vstd::std_specs::vec::vec_index_mut(&mut self.members, i);
                m.entries.push(entry);
                proof {
                    assert(final(self).deep_view().members[i as int].entries =~= ms0[i as int].entries.push(
                        entry.deep_view(),
                    ));
                    assert(final(self).deep_view().members =~= spec_push_entry(
                        ms0,
                        ident,
                        entry.deep_view(),
                    ));
                }
                return ;
            }
            i = i + 1;
        }
        proof {
            lemma_first_member_none(ms0, ident);
            assert(false);
        }
    }
}

impl HugTree {
    /// Creates an empty tree.
    pub fn new() -> (t: HugTree)
        ensures
            t.deep_view().root == empty_scope_v(),
            t.deep_view().entries == Seq::<HugTreeEntryV>::empty(),
    {
        let t = HugTree { root: HugScope::new(), entries: Vec::new() };
        proof {
            assert(t.deep_view().entries =~= Seq::<HugTreeEntryV>::empty());
        }
        t
    }
}

} // verus!
