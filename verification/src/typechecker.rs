//! The static type checker: an independent, non-executing pass over the
//! same statement tree, with the three-value lattice `{Number, Bool, Any}`.
//! `Any` is a deliberate unsoundness escape meaning "unknown, assume
//! compatible". Scope discipline mirrors the evaluator exactly: one scope
//! per block, a parameter scope plus the body's own scope per checked
//! function body. Issues are accumulated, never aborted on; the
//! branch-merge warning is advisory, never a hard error. Loop bodies and
//! function bodies are checked exactly once; that is a documented
//! limitation of the pass, not a defect.
//!
//! Like the evaluator, the pass is defined twice: as a pure checker over
//! the model (`sp_...` below) and as executable code proved to compute
//! exactly what the model names. The model of the scope chain keeps entry
//! order, so the checker's output order is fully determined.

use vstd::prelude::*;

use crate::ast::BinaryOp;
use crate::ast::ConstraintType;
use crate::ast::Expr;
use crate::ast::ExprNode;
use crate::ast::LhsExpr;
use crate::ast::Literal;
use crate::ast::LogicalUnaryOp;
use crate::ast::Parameter;
use crate::ast::SpanPos;
use crate::ast::Statement;
use crate::ast::StatementNode;
use crate::ast::UnaryOp;
use crate::ast::Variable;
use crate::builtins::sp_builtin;
use crate::value::SpecFunction;
use crate::value::view_strings;

verus! {

/// The checker's type lattice.
#[derive(Clone, Copy, Debug, PartialEq, Eq, Structural)]
pub enum Type {
    Number,
    Bool,
    Any,
}

/// One reported finding: an error the evaluator would raise, or the
/// advisory branch-merge warning.
pub enum TypeCheckerIssue {
    /// A name visible nowhere at this point.
    ReferenceError(String),
    /// Assignment to an undeclared name.
    UndeclaredAssignment(String),
    /// A void call result where a value is required; carries the callee
    /// name when the void producer is a direct call of a named function.
    NoneError(Option<String>),
    /// An operand type the unary operator rejects.
    UnaryTypeError(UnaryOp, Type),
    /// Operand types the binary operator rejects.
    BinaryTypeError(BinaryOp, Type, Type),
    /// A name whose type differs between two merged branches; advisory.
    MultipleTypesFromBranchWarning(String),
}

/// A finding with the source position it is about.
pub type TypeCheckerIssueWithPosition = (TypeCheckerIssue, SpanPos);

/// Model of a finding.
#[verifier::ext_equal]
pub enum SpIssue {
    Reference(Seq<char>),
    Undeclared(Seq<char>),
    NoneVal(Option<Seq<char>>),
    UnaryTypeError(UnaryOp, Type),
    BinaryTypeError(BinaryOp, Type, Type),
    BranchWarning(Seq<char>),
}

pub type SpIssuePos = (SpIssue, SpanPos);

pub open spec fn view_issue(i: TypeCheckerIssue) -> SpIssue {
    match i {
        TypeCheckerIssue::ReferenceError(n) => SpIssue::Reference(n@),
        TypeCheckerIssue::UndeclaredAssignment(n) => SpIssue::Undeclared(n@),
        TypeCheckerIssue::NoneError(n) => SpIssue::NoneVal(crate::runtime::view_opt_string(n)),
        TypeCheckerIssue::UnaryTypeError(op, t) => SpIssue::UnaryTypeError(op, t),
        TypeCheckerIssue::BinaryTypeError(op, t1, t2) => SpIssue::BinaryTypeError(op, t1, t2),
        TypeCheckerIssue::MultipleTypesFromBranchWarning(n) => SpIssue::BranchWarning(n@),
    }
}

pub open spec fn view_issues(s: Seq<TypeCheckerIssueWithPosition>) -> Seq<SpIssuePos> {
    s.map_values(|ip: TypeCheckerIssueWithPosition| (view_issue(ip.0), ip.1))
}

/// The scope chain of the checker: a stack of tables from names to types,
/// innermost last, mirroring the evaluator's scope nesting exactly.
pub struct TypeEnvironment {
    pub symbol_tables: Vec<Vec<(String, Type)>>,
}

/// The model of the chain: the tables with their entry order kept, each
/// entry a name with its type; within a table, later entries win.
pub type TTables = Seq<Seq<(Seq<char>, Type)>>;

pub open spec fn view_pairs(s: Seq<(String, Type)>) -> Seq<(Seq<char>, Type)> {
    s.map_values(|p: (String, Type)| (p.0@, p.1))
}

pub open spec fn view_tenv(t: TypeEnvironment) -> TTables {
    t.symbol_tables@.map_values(|v: Vec<(String, Type)>| view_pairs(v@))
}

/// Opening a scope pushes an empty table.
pub open spec fn sp_t_start(t: TTables) -> TTables {
    t.push(Seq::empty())
}

/// Closing a scope discards the innermost table.
pub open spec fn sp_t_end(t: TTables) -> TTables {
    if t.len() == 0 {
        t
    } else {
        t.drop_last()
    }
}

/// Declaration appends to the innermost table only (an appended entry
/// shadows an earlier one); with no open scope the chain is unchanged.
pub open spec fn sp_t_declare(t: TTables, name: Seq<char>, ty: Type) -> TTables {
    if t.len() == 0 {
        t
    } else {
        t.update(t.len() - 1, t.last().push((name, ty)))
    }
}

/// Index of the newest entry for `name` in one table.
pub open spec fn sp_pairs_find(s: Seq<(Seq<char>, Type)>, name: Seq<char>) -> Option<int>
    decreases s,
{
    if s.len() == 0 {
        Option::None
    } else if s.last().0 == name {
        Option::Some(s.len() - 1)
    } else {
        sp_pairs_find(s.drop_last(), name)
    }
}

/// The innermost table that holds the name.
pub open spec fn sp_t_resolve(t: TTables, name: Seq<char>) -> Option<int>
    decreases t,
{
    if t.len() == 0 {
        Option::None
    } else if sp_pairs_find(t.last(), name) is Some {
        Option::Some(t.len() - 1)
    } else {
        sp_t_resolve(t.drop_last(), name)
    }
}

/// Mutating update: overwrites the newest entry for the name in the
/// innermost table holding it, and reports whether one was found.
pub open spec fn sp_t_set(t: TTables, name: Seq<char>, ty: Type) -> (TTables, bool) {
    match sp_t_resolve(t, name) {
        Option::Some(i) => match sp_pairs_find(t[i], name) {
            Option::Some(j) => (t.update(i, t[i].update(j, (name, ty))), true),
            Option::None => (t, false),
        },
        Option::None => (t, false),
    }
}

/// Lookup, innermost scope first, newest entry first.
pub open spec fn sp_t_get(t: TTables, name: Seq<char>) -> Option<Type> {
    match sp_t_resolve(t, name) {
        Option::Some(i) => match sp_pairs_find(t[i], name) {
            Option::Some(j) => Option::Some(t[i][j].1),
            Option::None => Option::None,
        },
        Option::None => Option::None,
    }
}

/// Appends to `acc` every key of `ks` not already present, in order.
pub open spec fn sp_dedup_append(acc: Seq<Seq<char>>, ks: Seq<Seq<char>>) -> Seq<Seq<char>>
    decreases ks.len(),
{
    if ks.len() == 0 {
        acc
    } else {
        sp_dedup_append(
            if acc.contains(ks[0]) {
                acc
            } else {
                acc.push(ks[0])
            },
            ks.drop_first(),
        )
    }
}

/// The keys of one table, in entry order, first occurrence kept.
pub open spec fn sp_table_keys(entries: Seq<(Seq<char>, Type)>, acc: Seq<Seq<char>>) -> Seq<
    Seq<char>,
>
    decreases entries.len(),
{
    if entries.len() == 0 {
        acc
    } else {
        sp_table_keys(
            entries.drop_first(),
            if acc.contains(entries[0].0) {
                acc
            } else {
                acc.push(entries[0].0)
            },
        )
    }
}

/// Every name visible anywhere in the chain, outermost scope first, each
/// name once, in first-seen order.
pub open spec fn sp_all_keys_acc(tables: TTables, acc: Seq<Seq<char>>) -> Seq<Seq<char>>
    decreases tables.len(),
{
    if tables.len() == 0 {
        acc
    } else {
        sp_all_keys_acc(tables.drop_first(), sp_table_keys(tables[0], acc))
    }
}

pub open spec fn sp_all_keys(t: TTables) -> Seq<Seq<char>> {
    sp_all_keys_acc(t, Seq::empty())
}

/// The static type of a literal: strings (and every other non-numeric,
/// non-boolean value) are `Any` in this lattice.
pub open spec fn sp_literal_type(l: Literal) -> Type {
    match l {
        Literal::Integer(_) => Type::Number,
        Literal::Bool(_) => Type::Bool,
        Literal::Str(_) => Type::Any,
    }
}

/// The type a parameter constraint stands for.
pub open spec fn sp_constraint_type(c: Option<ConstraintType>) -> Type {
    match c {
        Option::Some(ConstraintType::Number) => Type::Number,
        Option::Some(ConstraintType::Bool) => Type::Bool,
        Option::None => Type::Any,
    }
}

proof fn lemma_pairs_find(s: Seq<(Seq<char>, Type)>, name: Seq<char>)
    ensures
        match sp_pairs_find(s, name) {
            Option::Some(i) => 0 <= i < s.len() && s[i].0 == name,
            Option::None => true,
        },
    decreases s,
{
    if s.len() > 0 && s.last().0 != name {
        lemma_pairs_find(s.drop_last(), name);
    }
}

fn find_in_table(entries: &Vec<(String, Type)>, name: &String) -> (r: Option<usize>)
    ensures
        match r {
            Option::Some(i) => sp_pairs_find(view_pairs(entries@), name@) == Option::Some(
                i as int,
            ) && i < entries@.len(),
            Option::None => sp_pairs_find(view_pairs(entries@), name@) == Option::None::<int>,
        },
{
    let mut i: usize = entries.len();
    proof {
        assert(view_pairs(entries@).subrange(0, entries@.len() as int) =~= view_pairs(entries@));
    }
    while i > 0
        invariant
            0 <= i <= entries@.len(),
            sp_pairs_find(view_pairs(entries@), name@) == sp_pairs_find(
                view_pairs(entries@).subrange(0, i as int),
                name@,
            ),
        decreases i,
    {
        i = i - 1;
        let hit = entries[i].0 == *name;
        proof {
            let sub = view_pairs(entries@).subrange(0, i + 1);
            assert(sub.last() == view_pairs(entries@)[i as int]);
            assert(sub.drop_last() =~= view_pairs(entries@).subrange(0, i as int));
        }
        if hit {
            return Option::Some(i);
        }
    }
    Option::None
}

impl TypeEnvironment {
    /// A fresh checker environment: no scopes open yet.
    pub fn new() -> (t: TypeEnvironment)
        ensures
            view_tenv(t) =~= Seq::<Seq<(Seq<char>, Type)>>::empty(),
    {
        TypeEnvironment { symbol_tables: Vec::new() }
    }

    /// Opens a scope.
    pub fn start_scope(&mut self)
        ensures
            view_tenv(*final(self)) =~= sp_t_start(view_tenv(*old(self))),
    {
        self.symbol_tables.push(Vec::new());
        proof {
            assert(view_pairs(Seq::<(String, Type)>::empty()) =~= Seq::<(Seq<char>, Type)>::empty());
        }
    }

    /// Closes the innermost scope; with none open this does nothing.
    pub fn end_scope(&mut self)
        ensures
            view_tenv(*final(self)) =~= sp_t_end(view_tenv(*old(self))),
    {
        if self.symbol_tables.len() > 0 {
            let _discarded = self.symbol_tables.pop();
        }
    }

    /// Declares (inserts, shadowing any earlier entry) in the innermost
    /// scope only; with no open scope this does nothing.
    pub fn declare(&mut self, variable: &Variable, typ: &Type)
        ensures
            view_tenv(*final(self)) =~= (match *variable {
                Variable::Identifier(_, name) => sp_t_declare(view_tenv(*old(self)), name@, *typ),
            }),
    {
        match variable {
            Variable::Identifier(_, name) => {
                self.declare_name(name, *typ);
            },
        }
    }

    /// Declares under a plain name, in the innermost scope only.
    pub fn declare_name(&mut self, name: &String, typ: Type)
        ensures
            view_tenv(*final(self)) =~= sp_t_declare(view_tenv(*old(self)), name@, typ),
    {
        let n = self.symbol_tables.len();
        if n > 0 {
            let ghost old_entries = self.symbol_tables@[n - 1]@;
            let table = &mut self.symbol_tables[n - 1];
            table.push((name.clone(), typ));
            proof {
                assert(view_pairs(table@) =~= view_pairs(old_entries).push((name@, typ)));
                assert(view_tenv(*self) =~= sp_t_declare(view_tenv(*old(self)), name@, typ));
            }
        }
    }

    /// Updates the innermost scope that declares the name; reports whether
    /// one was found. This never declares.
    pub fn set(&mut self, identifier: &String, typ: Type) -> (found: bool)
        ensures
            view_tenv(*final(self)) =~= sp_t_set(view_tenv(*old(self)), identifier@, typ).0,
            found == sp_t_set(view_tenv(*old(self)), identifier@, typ).1,
    {
        let mut k = self.symbol_tables.len();
        proof {
            assert(view_tenv(*self).subrange(0, view_tenv(*self).len() as int) =~= view_tenv(
                *self,
            ));
        }
        while k > 0
            invariant
                0 <= k <= self.symbol_tables@.len(),
                self == old(self),
                sp_t_resolve(view_tenv(*self), identifier@) == sp_t_resolve(
                    view_tenv(*self).subrange(0, k as int),
                    identifier@,
                ),
            decreases k,
        {
            k = k - 1;
            let found = find_in_table(&self.symbol_tables[k], identifier);
            proof {
                let sub = view_tenv(*self).subrange(0, k + 1);
                assert(sub.last() == view_tenv(*self)[k as int]);
                assert(sub.drop_last() =~= view_tenv(*self).subrange(0, k as int));
            }
            match found {
                Option::Some(i) => {
                    let ghost entries0 = self.symbol_tables@[k as int]@;
                    let table = &mut self.symbol_tables[k];
                    let key = table[i].0.clone();
                    table.set(i, (key, typ));
                    proof {
                        lemma_pairs_find(view_pairs(entries0), identifier@);
                        assert(view_pairs(entries0)[i as int].0 == identifier@);
                        assert(view_pairs(table@) =~= view_pairs(entries0).update(
                            i as int,
                            (identifier@, typ),
                        ));
                        assert(sp_t_resolve(view_tenv(*old(self)), identifier@) == Option::Some(
                            k as int,
                        ));
                        assert(view_tenv(*self) =~= sp_t_set(
                            view_tenv(*old(self)),
                            identifier@,
                            typ,
                        ).0);
                    }
                    return true;
                },
                Option::None => {},
            }
        }
        proof {
            assert(view_tenv(*self).subrange(0, 0) =~= Seq::<Seq<(Seq<char>, Type)>>::empty());
        }
        false
    }

    /// Looks a name up, innermost scope first.
    pub fn get_type(&self, identifier: &String) -> (r: Option<Type>)
        ensures
            r == sp_t_get(view_tenv(*self), identifier@),
    {
        let mut k = self.symbol_tables.len();
        proof {
            assert(view_tenv(*self).subrange(0, view_tenv(*self).len() as int) =~= view_tenv(
                *self,
            ));
        }
        while k > 0
            invariant
                0 <= k <= self.symbol_tables@.len(),
                sp_t_resolve(view_tenv(*self), identifier@) == sp_t_resolve(
                    view_tenv(*self).subrange(0, k as int),
                    identifier@,
                ),
            decreases k,
        {
            k = k - 1;
            let found = find_in_table(&self.symbol_tables[k], identifier);
            proof {
                let sub = view_tenv(*self).subrange(0, k + 1);
                assert(sub.last() == view_tenv(*self)[k as int]);
                assert(sub.drop_last() =~= view_tenv(*self).subrange(0, k as int));
            }
            match found {
                Option::Some(i) => {
                    proof {
                        assert(view_pairs(self.symbol_tables@[k as int]@)[i as int].1
                            == self.symbol_tables@[k as int]@[i as int].1);
                    }
                    return Option::Some(self.symbol_tables[k][i].1);
                },
                Option::None => {},
            }
        }
        proof {
            assert(view_tenv(*self).subrange(0, 0) =~= Seq::<Seq<(Seq<char>, Type)>>::empty());
        }
        Option::None
    }

    /// Every name visible anywhere in the chain, outermost scope first,
    /// each once, in first-seen order.
    pub fn get_all_keys(&self) -> (r: Vec<String>)
        ensures
            view_strings(r@) == sp_all_keys(view_tenv(*self)),
    {
        let ghost tables = view_tenv(*self);
        let mut keys: Vec<String> = Vec::new();
        let mut k: usize = 0;
        proof {
            assert(tables.subrange(0, tables.len() as int) =~= tables);
            assert(view_strings(keys@) =~= Seq::<Seq<char>>::empty());
        }
        while k < self.symbol_tables.len()
            invariant
                0 <= k <= self.symbol_tables@.len(),
                tables == view_tenv(*self),
                sp_all_keys(view_tenv(*self)) == sp_all_keys_acc(
                    tables.subrange(k as int, tables.len() as int),
                    view_strings(keys@),
                ),
            decreases self.symbol_tables@.len() - k,
        {
            let ghost trest = tables.subrange(k as int, tables.len() as int);
            let ghost entries = tables[k as int];
            let ghost keys0 = keys@;
            let mut j: usize = 0;
            proof {
                assert(trest[0] == tables[k as int]);
                assert(entries.subrange(0, entries.len() as int) =~= entries);
            }
            while j < self.symbol_tables[k].len()
                invariant
                    0 <= k < self.symbol_tables@.len(),
                    0 <= j <= entries.len(),
                    entries == view_pairs(self.symbol_tables@[k as int]@),
                    sp_table_keys(entries, view_strings(keys0)) == sp_table_keys(
                        entries.subrange(j as int, entries.len() as int),
                        view_strings(keys@),
                    ),
                decreases entries.len() - j,
            {
                let ghost erest = entries.subrange(j as int, entries.len() as int);
                proof {
                    assert(erest[0] == entries[j as int]);
                    assert(erest.drop_first() =~= entries.subrange(j + 1, entries.len() as int));
                }
                let name = &self.symbol_tables[k][j].0;
                let present = contains_string(&keys, name);
                if !present {
                    let ghost before = keys@;
                    keys.push(name.clone());
                    proof {
                        assert(view_strings(keys@) =~= view_strings(before).push(name@));
                    }
                }
                j = j + 1;
            }
            proof {
                assert(entries.subrange(entries.len() as int, entries.len() as int) =~= Seq::<
                    (Seq<char>, Type),
                >::empty());
                assert(trest.drop_first() =~= tables.subrange(k + 1, tables.len() as int));
            }
            k = k + 1;
        }
        proof {
            assert(tables.subrange(tables.len() as int, tables.len() as int) =~= Seq::<
                Seq<(Seq<char>, Type)>,
            >::empty());
        }
        keys
    }

    /// An independent copy of the chain: branch checking works on
    /// snapshots so neither branch's effects leak into the other.
    pub fn duplicate(&self) -> (r: TypeEnvironment)
        ensures
            view_tenv(r) =~= view_tenv(*self),
    {
        let mut tables: Vec<Vec<(String, Type)>> = Vec::new();
        let mut k: usize = 0;
        while k < self.symbol_tables.len()
            invariant
                0 <= k <= self.symbol_tables@.len(),
                tables@.len() == k,
                forall|a: int| 0 <= a < k ==> tables@[a]@ =~= self.symbol_tables@[a]@,
            decreases self.symbol_tables@.len() - k,
        {
            let src = &self.symbol_tables[k];
            let mut table: Vec<(String, Type)> = Vec::new();
            let mut j: usize = 0;
            while j < src.len()
                invariant
                    0 <= j <= src@.len(),
                    table@.len() == j,
                    forall|b: int| 0 <= b < j ==> table@[b] == src@[b],
                decreases src@.len() - j,
            {
                table.push((src[j].0.clone(), src[j].1));
                j = j + 1;
            }
            proof {
                assert(table@ =~= src@);
            }
            tables.push(table);
            k = k + 1;
        }
        let r = TypeEnvironment { symbol_tables: tables };
        proof {
            assert(view_tenv(r) =~= view_tenv(*self));
        }
        r
    }
}

fn contains_string(v: &Vec<String>, s: &String) -> (r: bool)
    ensures
        r == view_strings(v@).contains(s@),
{
    let mut i: usize = 0;
    while i < v.len()
        invariant
            0 <= i <= v@.len(),
            forall|j: int| 0 <= j < i ==> v@[j]@ != s@,
        decreases v@.len() - i,
    {
        if v[i] == *s {
            proof {
                assert(view_strings(v@)[i as int] == v@[i as int]@);
            }
            return true;
        }
        i = i + 1;
    }
    proof {
        assert(forall|j: int| 0 <= j < v@.len() ==> view_strings(v@)[j] == v@[j]@);
    }
    false
}

/// Unary minus statically accepts numbers (and `Any`).
pub open spec fn sp_check_unary_minus(typ: Type) -> Result<Type, SpIssue> {
    match typ {
        Type::Number => Result::Ok(Type::Number),
        Type::Any => Result::Ok(Type::Any),
        _ => Result::Err(SpIssue::UnaryTypeError(UnaryOp::Minus, typ)),
    }
}

/// Arithmetic statically demands numbers, with `Any` passing through.
pub open spec fn sp_check_binary_arith(op: BinaryOp, t1: Type, t2: Type) -> Result<Type, SpIssue> {
    match (t1, t2) {
        (Type::Number, Type::Number) => Result::Ok(Type::Number),
        (Type::Any, _) => Result::Ok(Type::Any),
        (_, Type::Any) => Result::Ok(Type::Any),
        _ => Result::Err(SpIssue::BinaryTypeError(op, t1, t2)),
    }
}

/// Comparison statically demands numbers and yields a boolean, with `Any`
/// passing through.
pub open spec fn sp_check_binary_cmp(op: BinaryOp, t1: Type, t2: Type) -> Result<Type, SpIssue> {
    match (t1, t2) {
        (Type::Number, Type::Number) => Result::Ok(Type::Bool),
        (Type::Any, _) => Result::Ok(Type::Any),
        (_, Type::Any) => Result::Ok(Type::Any),
        _ => Result::Err(SpIssue::BinaryTypeError(op, t1, t2)),
    }
}

pub open spec fn view_type_issue_res(r: Result<Type, TypeCheckerIssue>) -> Result<Type, SpIssue> {
    match r {
        Result::Ok(t) => Result::Ok(t),
        Result::Err(i) => Result::Err(view_issue(i)),
    }
}

/// Checks unary minus against an operand type.
pub fn check_unary_minus_for_type(typ: Type) -> (r: Result<Type, TypeCheckerIssue>)
    ensures
        view_type_issue_res(r) == sp_check_unary_minus(typ),
{
    match typ {
        Type::Number => Result::Ok(Type::Number),
        Type::Any => Result::Ok(Type::Any),
        _ => Result::Err(TypeCheckerIssue::UnaryTypeError(UnaryOp::Minus, typ)),
    }
}

/// Checks an arithmetic operator against two operand types.
pub fn check_binary_arithmetic_for_types(op: BinaryOp, t1: Type, t2: Type) -> (r: Result<
    Type,
    TypeCheckerIssue,
>)
    ensures
        view_type_issue_res(r) == sp_check_binary_arith(op, t1, t2),
{
    match (t1, t2) {
        (Type::Number, Type::Number) => Result::Ok(Type::Number),
        (Type::Any, _) => Result::Ok(Type::Any),
        (_, Type::Any) => Result::Ok(Type::Any),
        _ => Result::Err(TypeCheckerIssue::BinaryTypeError(op, t1, t2)),
    }
}

/// Checks a comparison operator against two operand types.
pub fn check_binary_comparison_for_types(op: BinaryOp, t1: Type, t2: Type) -> (r: Result<
    Type,
    TypeCheckerIssue,
>)
    ensures
        view_type_issue_res(r) == sp_check_binary_cmp(op, t1, t2),
{
    match (t1, t2) {
        (Type::Number, Type::Number) => Result::Ok(Type::Bool),
        (Type::Any, _) => Result::Ok(Type::Any),
        (_, Type::Any) => Result::Ok(Type::Any),
        _ => Result::Err(TypeCheckerIssue::BinaryTypeError(op, t1, t2)),
    }
}

/// Declares each parameter at its constraint's type (or `Any`).
pub open spec fn sp_t_declare_types(t: TTables, ps: Seq<Parameter>) -> TTables
    decreases ps.len(),
{
    if ps.len() == 0 {
        t
    } else {
        sp_t_declare_types(
            sp_t_declare(t, ps[0].name@, sp_constraint_type(ps[0].constraint)),
            ps.drop_first(),
        )
    }
}

/// The branch merge: for every listed name, a type on which both branch
/// snapshots agree is written back into the live chain; a disagreement
/// (including a name one snapshot lacks) forces `Any` and appends the
/// advisory warning.
pub open spec fn sp_merge(
    t: TTables,
    tt: TTables,
    et: TTables,
    keys: Seq<Seq<char>>,
    pos: SpanPos,
    acc: Seq<SpIssuePos>,
) -> (TTables, Seq<SpIssuePos>)
    decreases keys.len(),
{
    if keys.len() == 0 {
        (t, acc)
    } else {
        let k = keys[0];
        let same = match (sp_t_get(tt, k), sp_t_get(et, k)) {
            (Option::Some(a), Option::Some(b)) => if a == b {
                Option::Some(a)
            } else {
                Option::None
            },
            _ => Option::None,
        };
        match same {
            Option::Some(ty) => sp_merge(
                sp_t_set(t, k, ty).0,
                tt,
                et,
                keys.drop_first(),
                pos,
                acc,
            ),
            Option::None => sp_merge(
                sp_t_set(t, k, Type::Any).0,
                tt,
                et,
                keys.drop_first(),
                pos,
                acc.push((SpIssue::BranchWarning(k), pos)),
            ),
        }
    }
}

/// Whether the two branch snapshots agree on a name: both must know it,
/// with the same type.
pub open spec fn sp_branches_agree(tt: TTables, et: TTables, k: Seq<char>) -> bool {
    match (sp_t_get(tt, k), sp_t_get(et, k)) {
        (Option::Some(a), Option::Some(b)) => a == b,
        _ => false,
    }
}

/// How many of the listed names the two snapshots disagree on.
pub open spec fn sp_disagree_count(tt: TTables, et: TTables, keys: Seq<Seq<char>>) -> nat
    decreases keys.len(),
{
    if keys.len() == 0 {
        0
    } else {
        (if sp_branches_agree(tt, et, keys[0]) {
            0nat
        } else {
            1nat
        }) + sp_disagree_count(tt, et, keys.drop_first())
    }
}

/// The branch merge is advisory in exactly this measure: it appends one
/// `MultipleTypesFromBranchWarning` for each listed name the two branch
/// snapshots disagree on, and none for a name they agree on.
pub proof fn lemma_merge_warning_count(
    t: TTables,
    tt: TTables,
    et: TTables,
    keys: Seq<Seq<char>>,
    pos: SpanPos,
    acc: Seq<SpIssuePos>,
)
    ensures
        sp_merge(t, tt, et, keys, pos, acc).1.len() == acc.len() + sp_disagree_count(
            tt,
            et,
            keys,
        ),
    decreases keys.len(),
{
    if keys.len() > 0 {
        let k = keys[0];
        if sp_branches_agree(tt, et, k) {
            let ty = sp_t_get(tt, k)->Some_0;
            lemma_merge_warning_count(
                sp_t_set(t, k, ty).0,
                tt,
                et,
                keys.drop_first(),
                pos,
                acc,
            );
        } else {
            lemma_merge_warning_count(
                sp_t_set(t, k, Type::Any).0,
                tt,
                et,
                keys.drop_first(),
                pos,
                acc.push((SpIssue::BranchWarning(k), pos)),
            );
        }
    }
}

/// The "value-required" checking pattern: a failed subexpression gets the
/// fallback type `Any` so sibling checks proceed, its issues collected; a
/// void result gets `Any` and the `NoneError` finding.
pub open spec fn sp_checked_type(t: TTables, e: ExprNode) -> (TTables, Type, Seq<SpIssuePos>)
    decreases e, 1int,
{
    let (t1, r) = sp_check_expr(t, e);
    match r {
        Result::Err(iss) => (t1, Type::Any, iss),
        Result::Ok(Option::None) => (
            t1,
            Type::Any,
            seq![
                (
                    SpIssue::NoneVal(crate::ast_walk_interpreter::sp_callee_name(e)),
                    e.pos,
                ),
            ],
        ),
        Result::Ok(Option::Some(ty)) => (t1, ty, Seq::empty()),
    }
}

/// Checks a list of expressions in order, collecting every issue.
pub open spec fn sp_check_list(t: TTables, es: Seq<ExprNode>, acc: Seq<SpIssuePos>) -> (
    TTables,
    Seq<SpIssuePos>,
)
    decreases es, 2int,
{
    if es.len() == 0 {
        (t, acc)
    } else {
        let (t1, ty, iss) = sp_checked_type(t, es[0]);
        sp_check_list(t1, es.drop_first(), acc + iss)
    }
}

/// Checks one expression. `Ok(None)` is the static type of a void builtin
/// call; `Err` carries every finding about the expression.
pub open spec fn sp_check_expr(t: TTables, e: ExprNode) -> (
    TTables,
    Result<Option<Type>, Seq<SpIssuePos>>,
)
    decreases e, 0int,
{
    match e.data {
        Expr::Literal(l) => (t, Result::Ok(Option::Some(sp_literal_type(l)))),
        Expr::Identifier(id) => {
            match sp_t_get(t, id@) {
                Option::Some(ty) => (t, Result::Ok(Option::Some(ty))),
                Option::None => (t, Result::Err(seq![(SpIssue::Reference(id@), e.pos)])),
            }
        },
        Expr::Tuple(elems) => {
            let (t1, iss) = sp_check_list(t, elems@, Seq::empty());
            (
                t1,
                if iss.len() == 0 {
                    Result::Ok(Option::Some(Type::Any))
                } else {
                    Result::Err(iss)
                },
            )
        },
        Expr::UnaryExpression(op, inner) => {
            let (t1, r) = sp_check_expr(t, *inner);
            match r {
                Result::Err(iss) => (t1, Result::Err(iss)),
                Result::Ok(Option::None) => (
                    t1,
                    Result::Err(
                        seq![
                            (
                                SpIssue::NoneVal(
                                    crate::ast_walk_interpreter::sp_callee_name(*inner),
                                ),
                                inner.pos,
                            ),
                        ],
                    ),
                ),
                Result::Ok(Option::Some(ty)) => match op {
                    UnaryOp::Minus => match sp_check_unary_minus(ty) {
                        Result::Ok(rt) => (t1, Result::Ok(Option::Some(rt))),
                        Result::Err(i) => (t1, Result::Err(seq![(i, inner.pos)])),
                    },
                },
            }
        },
        Expr::UnaryLogicalExpression(op, inner) => {
            let (t1, r) = sp_check_expr(t, *inner);
            match r {
                Result::Err(iss) => (t1, Result::Err(iss)),
                Result::Ok(Option::None) => (
                    t1,
                    Result::Err(
                        seq![
                            (
                                SpIssue::NoneVal(
                                    crate::ast_walk_interpreter::sp_callee_name(*inner),
                                ),
                                inner.pos,
                            ),
                        ],
                    ),
                ),
                Result::Ok(Option::Some(_)) => match op {
                    LogicalUnaryOp::Not => (t1, Result::Ok(Option::Some(Type::Bool))),
                },
            }
        },
        Expr::BinaryExpression(e1, op, e2) => {
            let (t1, ty1, iss1) = sp_checked_type(t, *e1);
            let (t2, ty2, iss2) = sp_checked_type(t1, *e2);
            let iss = iss1 + iss2;
            let res = match op {
                BinaryOp::Add | BinaryOp::Sub | BinaryOp::Mul | BinaryOp::Div
                    | BinaryOp::FloorDiv => sp_check_binary_arith(op, ty1, ty2),
                BinaryOp::StrictEquals => Result::Ok(Type::Bool),
                _ => sp_check_binary_cmp(op, ty1, ty2),
            };
            match res {
                Result::Err(i) => (t2, Result::Err(iss.push((i, e.pos)))),
                Result::Ok(rt) => (
                    t2,
                    if iss.len() == 0 {
                        Result::Ok(Option::Some(rt))
                    } else {
                        Result::Err(iss)
                    },
                ),
            }
        },
        Expr::BinaryLogicalExpression(e1, _op, e2) => {
            let (t1, ty1, iss1) = sp_checked_type(t, *e1);
            let (t2, ty2, iss2) = sp_checked_type(t1, *e2);
            let iss = iss1 + iss2;
            (
                t2,
                if iss.len() == 0 {
                    Result::Ok(Option::Some(Type::Bool))
                } else {
                    Result::Err(iss)
                },
            )
        },
        Expr::MemberByIdx(obj, idx) => {
            let (t1, ty1, iss1) = sp_checked_type(t, *obj);
            let (t2, ty2, iss2) = sp_checked_type(t1, *idx);
            let iss = iss1 + iss2;
            (
                t2,
                if iss.len() == 0 {
                    Result::Ok(Option::Some(Type::Any))
                } else {
                    Result::Err(iss)
                },
            )
        },
        Expr::FunctionDefinition(maybe_name, params, body, _ret) => {
            let t1 = match maybe_name {
                Option::Some(n) => sp_t_declare(t, n@, Type::Any),
                Option::None => t,
            };
            let t2 = sp_t_start(t1);
            let t3 = sp_t_declare_types(t2, params@);
            let (t4, iss) = sp_check_stmt(t3, *body);
            let t5 = sp_t_end(t4);
            (
                t5,
                if iss.len() == 0 {
                    Result::Ok(Option::Some(Type::Any))
                } else {
                    Result::Err(iss)
                },
            )
        },
        Expr::FunctionCall(callee, args) => {
            match callee.data {
                Expr::Identifier(name) => {
                    match sp_builtin(name@) {
                        Option::Some(f) => {
                            let (t1, iss) = sp_check_list(t, args@, Seq::empty());
                            (
                                t1,
                                if iss.len() == 0 {
                                    match f {
                                        SpecFunction::NativeVoid(_, _) => Result::Ok(
                                            Option::None,
                                        ),
                                        _ => Result::Ok(Option::Some(Type::Any)),
                                    }
                                } else {
                                    Result::Err(iss)
                                },
                            )
                        },
                        Option::None => {
                            match sp_t_get(t, name@) {
                                Option::Some(_) => {
                                    let (t1, iss) = sp_check_list(t, args@, Seq::empty());
                                    (
                                        t1,
                                        if iss.len() == 0 {
                                            Result::Ok(Option::Some(Type::Any))
                                        } else {
                                            Result::Err(iss)
                                        },
                                    )
                                },
                                Option::None => (
                                    t,
                                    Result::Err(seq![(SpIssue::Reference(name@), e.pos)]),
                                ),
                            }
                        },
                    }
                },
                _ => {
                    let (t1, ty_c, iss_c) = sp_checked_type(t, *callee);
                    let (t2, iss) = sp_check_list(t1, args@, iss_c);
                    (
                        t2,
                        if iss.len() == 0 {
                            Result::Ok(Option::Some(Type::Any))
                        } else {
                            Result::Err(iss)
                        },
                    )
                },
            }
        },
    }
}

/// Checks one statement, yielding the updated chain and every finding, in
/// order.
pub open spec fn sp_check_stmt(t: TTables, s: StatementNode) -> (TTables, Seq<SpIssuePos>)
    decreases s, 2int,
{
    match s.data {
        Statement::VariableDeclaration(var, expr) => {
            let (t1, ty, iss) = sp_checked_type(t, expr);
            match var {
                Variable::Identifier(_, name) => (sp_t_declare(t1, name@, ty), iss),
            }
        },
        Statement::Assignment(lhs, expr) => {
            let (t1, ty, iss) = sp_checked_type(t, expr);
            match lhs {
                LhsExpr::Identifier(id) => {
                    let (t2, found) = sp_t_set(t1, id@, ty);
                    if found {
                        (t2, iss)
                    } else {
                        (t1, iss.push((SpIssue::Undeclared(id@), s.pos)))
                    }
                },
            }
        },
        Statement::Block(stmts) => {
            let (t1, iss) = sp_check_stmts_acc(sp_t_start(t), stmts@, Seq::empty());
            (sp_t_end(t1), iss)
        },
        Statement::Expression(expr) => {
            let (t1, r) = sp_check_expr(t, expr);
            (
                t1,
                match r {
                    Result::Err(iss) => iss,
                    Result::Ok(_) => Seq::empty(),
                },
            )
        },
        Statement::IfThen(cond, then_b) => {
            let (t1, _tyc, cond_iss) = sp_checked_type(t, cond);
            let (t2, iss2) = sp_check_stmt(t1, *then_b);
            (t2, cond_iss + iss2)
        },
        Statement::IfThenElse(cond, then_b, else_b) => {
            let (t1, _tyc, cond_iss) = sp_checked_type(t, cond);
            let (tt1, iss_then) = sp_check_stmt(t, *then_b);
            let (et1, iss_else) = sp_check_stmt(t, *else_b);
            let keys = sp_dedup_append(sp_all_keys(tt1), sp_all_keys(et1));
            let (t2, all_iss) = sp_merge(
                t1,
                tt1,
                et1,
                keys,
                s.pos,
                cond_iss + iss_then + iss_else,
            );
            (t2, all_iss)
        },
        Statement::Loop(body) => sp_check_stmt(t, *body),
        Statement::Return(Option::Some(expr)) => {
            let (t1, ty, iss) = sp_checked_type(t, expr);
            (t1, iss)
        },
        Statement::Return(Option::None) => (t, Seq::empty()),
        Statement::Break => (t, Seq::empty()),
        Statement::Empty => (t, Seq::empty()),
    }
}

/// Checks statements in order, collecting every finding.
pub open spec fn sp_check_stmts_acc(t: TTables, ss: Seq<StatementNode>, acc: Seq<SpIssuePos>)
    -> (TTables, Seq<SpIssuePos>)
    decreases ss, 2int,
{
    if ss.len() == 0 {
        (t, acc)
    } else {
        let (t1, iss) = sp_check_stmt(t, ss[0]);
        sp_check_stmts_acc(t1, ss.drop_first(), acc + iss)
    }
}

/// Checking a whole program: one root scope around its statements; the
/// findings, complete and in order.
pub open spec fn sp_check_program(ss: Seq<StatementNode>) -> Seq<SpIssuePos> {
    sp_check_stmts_acc(sp_t_start(Seq::empty()), ss, Seq::empty()).1
}

fn declare_param_types(env: &mut TypeEnvironment, params: &Vec<Parameter>, idx: usize)
    requires
        idx <= params@.len(),
    ensures
        view_tenv(*final(env)) == sp_t_declare_types(
            view_tenv(*old(env)),
            params@.subrange(idx as int, params@.len() as int),
        ),
    decreases params@.len() - idx,
{
    if idx < params.len() {
        let ghost rest = params@.subrange(idx as int, params@.len() as int);
        proof {
            assert(rest[0] == params@[idx as int]);
            assert(rest.drop_first() =~= params@.subrange(idx + 1, params@.len() as int));
        }
        let ty = match &params[idx].constraint {
            Option::Some(ConstraintType::Number) => Type::Number,
            Option::Some(ConstraintType::Bool) => Type::Bool,
            Option::None => Type::Any,
        };
        env.declare_name(&params[idx].name, ty);
        declare_param_types(env, params, idx + 1);
    }
}

fn dedup_append_keys(acc: Vec<String>, more: &Vec<String>) -> (r: Vec<String>)
    ensures
        view_strings(r@) == sp_dedup_append(view_strings(acc@), view_strings(more@)),
{
    let mut out = acc;
    let mut i: usize = 0;
    proof {
        assert(view_strings(more@).subrange(0, more@.len() as int) =~= view_strings(more@));
    }
    while i < more.len()
        invariant
            0 <= i <= more@.len(),
            sp_dedup_append(view_strings(out@), view_strings(more@).subrange(
                i as int,
                more@.len() as int,
            )) == sp_dedup_append(view_strings(acc@), view_strings(more@)),
        decreases more@.len() - i,
    {
        let ghost rest = view_strings(more@).subrange(i as int, more@.len() as int);
        proof {
            assert(rest[0] == more@[i as int]@);
            assert(rest.drop_first() =~= view_strings(more@).subrange(
                i + 1,
                more@.len() as int,
            ));
        }
        let present = contains_string(&out, &more[i]);
        if !present {
            let ghost before = out@;
            out.push(more[i].clone());
            proof {
                assert(view_strings(out@) =~= view_strings(before).push(more@[i as int]@));
            }
        }
        i = i + 1;
    }
    proof {
        assert(view_strings(more@).subrange(more@.len() as int, more@.len() as int) =~= Seq::<
            Seq<char>,
        >::empty());
    }
    out
}

fn merge_branches(
    env: &mut TypeEnvironment,
    then_env: &TypeEnvironment,
    else_env: &TypeEnvironment,
    keys: &Vec<String>,
    idx: usize,
    pos: SpanPos,
    acc: Vec<TypeCheckerIssueWithPosition>,
) -> (r: Vec<TypeCheckerIssueWithPosition>)
    requires
        idx <= keys@.len(),
    ensures
        view_tenv(*final(env)) == sp_merge(
            view_tenv(*old(env)),
            view_tenv(*then_env),
            view_tenv(*else_env),
            view_strings(keys@).subrange(idx as int, keys@.len() as int),
            pos,
            view_issues(acc@),
        ).0,
        view_issues(r@) == sp_merge(
            view_tenv(*old(env)),
            view_tenv(*then_env),
            view_tenv(*else_env),
            view_strings(keys@).subrange(idx as int, keys@.len() as int),
            pos,
            view_issues(acc@),
        ).1,
    decreases keys@.len() - idx,
{
    if idx == keys.len() {
        proof {
            assert(view_strings(keys@).subrange(keys@.len() as int, keys@.len() as int) =~= Seq::<
                Seq<char>,
            >::empty());
        }
        acc
    } else {
        let ghost rest = view_strings(keys@).subrange(idx as int, keys@.len() as int);
        proof {
            assert(rest[0] == keys@[idx as int]@);
            assert(rest.drop_first() =~= view_strings(keys@).subrange(
                idx + 1,
                keys@.len() as int,
            ));
        }
        let name = &keys[idx];
        let tt = then_env.get_type(name);
        let et = else_env.get_type(name);
        let same: Option<Type> = match (tt, et) {
            (Option::Some(a), Option::Some(b)) => if a == b {
                Option::Some(a)
            } else {
                Option::None
            },
            _ => Option::None,
        };
        match same {
            Option::Some(ty) => {
                let _found = env.set(name, ty);
                merge_branches(env, then_env, else_env, keys, idx + 1, pos, acc)
            },
            Option::None => {
                let _found = env.set(name, Type::Any);
                let mut acc2 = acc;
                let ghost before = acc2@;
                acc2.push(
                    (TypeCheckerIssue::MultipleTypesFromBranchWarning(name.clone()), pos),
                );
                proof {
                    assert(view_issues(acc2@) =~= view_issues(before).push(
                        (SpIssue::BranchWarning(name@), pos),
                    ));
                }
                merge_branches(env, then_env, else_env, keys, idx + 1, pos, acc2)
            },
        }
    }
}

/// The executable form of the value-required pattern: returns the checked
/// type (with `Any` as the fallback) and appends the findings.
fn checked_type(
    e: &ExprNode,
    env: &mut TypeEnvironment,
    issues: &mut Vec<TypeCheckerIssueWithPosition>,
) -> (ty: Type)
    ensures
        view_tenv(*final(env)) == sp_checked_type(view_tenv(*old(env)), *e).0,
        ty == sp_checked_type(view_tenv(*old(env)), *e).1,
        view_issues(final(issues)@) == view_issues(old(issues)@) + sp_checked_type(
            view_tenv(*old(env)),
            *e,
        ).2,
    decreases *e, 1int,
{
    match check_expr(e, env) {
        Result::Ok(Option::Some(t)) => {
            proof {
                assert(view_issues(issues@) =~= view_issues(issues@) + Seq::<
                    SpIssuePos,
                >::empty());
            }
            t
        },
        Result::Ok(Option::None) => {
            let ghost before = issues@;
            issues.push(
                (
                    TypeCheckerIssue::NoneError(crate::ast_walk_interpreter::callee_name(e)),
                    e.pos,
                ),
            );
            proof {
                assert(view_issues(issues@) =~= view_issues(before) + seq![
                    (
                        SpIssue::NoneVal(crate::ast_walk_interpreter::sp_callee_name(*e)),
                        e.pos,
                    ),
                ]);
            }
            Type::Any
        },
        Result::Err(mut v) => {
            let ghost before = issues@;
            let ghost adding = v@;
            issues.append(&mut v);
            proof {
                assert(view_issues(issues@) =~= view_issues(before) + view_issues(adding));
            }
            Type::Any
        },
    }
}

fn check_expr_list_from(
    es: &Vec<ExprNode>,
    idx: usize,
    env: &mut TypeEnvironment,
    acc: Vec<TypeCheckerIssueWithPosition>,
) -> (r: Vec<TypeCheckerIssueWithPosition>)
    requires
        idx <= es@.len(),
    ensures
        view_tenv(*final(env)) == sp_check_list(
            view_tenv(*old(env)),
            es@.subrange(idx as int, es@.len() as int),
            view_issues(acc@),
        ).0,
        view_issues(r@) == sp_check_list(
            view_tenv(*old(env)),
            es@.subrange(idx as int, es@.len() as int),
            view_issues(acc@),
        ).1,
    decreases es@.subrange(idx as int, es@.len() as int), 2int,
{
    let ghost rest = es@.subrange(idx as int, es@.len() as int);
    if idx == es.len() {
        acc
    } else {
        proof {
            assert(rest[0] == es@[idx as int]);
            assert(decreases_to!(rest => rest[0]));
            assert(rest.drop_first() =~= es@.subrange(idx + 1, es@.len() as int));
            assert(decreases_to!(rest => rest.drop_first()));
        }
        let mut acc2 = acc;
        let _ty = checked_type(&es[idx], env, &mut acc2);
        check_expr_list_from(es, idx + 1, env, acc2)
    }
}

/// Checks one expression: its static type (`Ok(None)` for a void builtin
/// call), or every finding about it.
#[verifier::rlimit(100)]
fn check_expr(e: &ExprNode, env: &mut TypeEnvironment) -> (r: Result<
    Option<Type>,
    Vec<TypeCheckerIssueWithPosition>,
>)
    ensures
        view_tenv(*final(env)) == sp_check_expr(view_tenv(*old(env)), *e).0,
        (match r {
            Result::Ok(ot) => sp_check_expr(view_tenv(*old(env)), *e).1 == Result::Ok::<
                Option<Type>,
                Seq<SpIssuePos>,
            >(ot),
            Result::Err(v) => sp_check_expr(view_tenv(*old(env)), *e).1 == Result::Err::<
                Option<Type>,
                Seq<SpIssuePos>,
            >(view_issues(v@)) && v@.len() > 0,
        }),
    decreases *e, 0int,
{
    match &e.data {
        Expr::Literal(l) => {
            let t = match l {
                Literal::Integer(_) => Type::Number,
                Literal::Bool(_) => Type::Bool,
                Literal::Str(_) => Type::Any,
            };
            Result::Ok(Option::Some(t))
        },
        Expr::Identifier(id) => {
            match env.get_type(id) {
                Option::Some(ty) => Result::Ok(Option::Some(ty)),
                Option::None => {
                    let mut v: Vec<TypeCheckerIssueWithPosition> = Vec::new();
                    v.push((TypeCheckerIssue::ReferenceError(id.clone()), e.pos));
                    proof {
                        assert(view_issues(v@) =~= seq![(SpIssue::Reference(id@), e.pos)]);
                    }
                    Result::Err(v)
                },
            }
        },
        Expr::Tuple(elems) => {
            proof {
                assert(*elems == e.data->Tuple_0);
                assert(decreases_to!(*e => e.data));
                assert(decreases_to!(e.data => e.data->Tuple_0));
                assert(decreases_to!(*elems => elems@));
                assert(elems@.subrange(0, elems@.len() as int) =~= elems@);
                assert(view_issues(Seq::<TypeCheckerIssueWithPosition>::empty()) =~= Seq::<
                    SpIssuePos,
                >::empty());
            }
            let iss = check_expr_list_from(elems, 0, env, Vec::new());
            if iss.len() == 0 {
                proof {
                    assert(view_issues(iss@) =~= Seq::<SpIssuePos>::empty());
                }
                Result::Ok(Option::Some(Type::Any))
            } else {
                Result::Err(iss)
            }
        },
        Expr::UnaryExpression(op, inner) => {
            match check_expr(inner, env) {
                Result::Err(v) => Result::Err(v),
                Result::Ok(Option::None) => {
                    let mut v: Vec<TypeCheckerIssueWithPosition> = Vec::new();
                    v.push(
                        (
                            TypeCheckerIssue::NoneError(
                                crate::ast_walk_interpreter::callee_name(inner),
                            ),
                            inner.pos,
                        ),
                    );
                    proof {
                        assert(view_issues(v@) =~= seq![
                            (
                                SpIssue::NoneVal(
                                    crate::ast_walk_interpreter::sp_callee_name(**inner),
                                ),
                                inner.pos,
                            ),
                        ]);
                    }
                    Result::Err(v)
                },
                Result::Ok(Option::Some(ty)) => match op {
                    UnaryOp::Minus => match check_unary_minus_for_type(ty) {
                        Result::Ok(rt) => Result::Ok(Option::Some(rt)),
                        Result::Err(i) => {
                            let mut v: Vec<TypeCheckerIssueWithPosition> = Vec::new();
                            let ghost iv = view_issue(i);
                            v.push((i, inner.pos));
                            proof {
                                assert(view_issues(v@) =~= seq![(iv, inner.pos)]);
                            }
                            Result::Err(v)
                        },
                    },
                },
            }
        },
        Expr::UnaryLogicalExpression(op, inner) => {
            match check_expr(inner, env) {
                Result::Err(v) => Result::Err(v),
                Result::Ok(Option::None) => {
                    let mut v: Vec<TypeCheckerIssueWithPosition> = Vec::new();
                    v.push(
                        (
                            TypeCheckerIssue::NoneError(
                                crate::ast_walk_interpreter::callee_name(inner),
                            ),
                            inner.pos,
                        ),
                    );
                    proof {
                        assert(view_issues(v@) =~= seq![
                            (
                                SpIssue::NoneVal(
                                    crate::ast_walk_interpreter::sp_callee_name(**inner),
                                ),
                                inner.pos,
                            ),
                        ]);
                    }
                    Result::Err(v)
                },
                Result::Ok(Option::Some(_)) => match op {
                    LogicalUnaryOp::Not => Result::Ok(Option::Some(Type::Bool)),
                },
            }
        },
        Expr::BinaryExpression(e1, op, e2) => {
            let mut issues: Vec<TypeCheckerIssueWithPosition> = Vec::new();
            proof {
                assert(view_issues(issues@) =~= Seq::<SpIssuePos>::empty());
                assert(view_issues(issues@) + Seq::<SpIssuePos>::empty() =~= view_issues(
                    issues@,
                ));
            }
            let ty1 = checked_type(e1, env, &mut issues);
            let ty2 = checked_type(e2, env, &mut issues);
            let res = match op {
                BinaryOp::Add | BinaryOp::Sub | BinaryOp::Mul | BinaryOp::Div
                    | BinaryOp::FloorDiv => check_binary_arithmetic_for_types(*op, ty1, ty2),
                BinaryOp::StrictEquals => Result::Ok(Type::Bool),
                _ => check_binary_comparison_for_types(*op, ty1, ty2),
            };
            match res {
                Result::Err(i) => {
                    let ghost before = issues@;
                    let ghost iv = view_issue(i);
                    issues.push((i, e.pos));
                    proof {
                        assert(view_issues(issues@) =~= view_issues(before).push((iv, e.pos)));
                    }
                    Result::Err(issues)
                },
                Result::Ok(rt) => {
                    if issues.len() == 0 {
                        proof {
                            assert(view_issues(issues@) =~= Seq::<SpIssuePos>::empty());
                        }
                        Result::Ok(Option::Some(rt))
                    } else {
                        Result::Err(issues)
                    }
                },
            }
        },
        Expr::BinaryLogicalExpression(e1, _op, e2) => {
            let mut issues: Vec<TypeCheckerIssueWithPosition> = Vec::new();
            proof {
                assert(view_issues(issues@) =~= Seq::<SpIssuePos>::empty());
            }
            let _ty1 = checked_type(e1, env, &mut issues);
            let _ty2 = checked_type(e2, env, &mut issues);
            if issues.len() == 0 {
                proof {
                    assert(view_issues(issues@) =~= Seq::<SpIssuePos>::empty());
                }
                Result::Ok(Option::Some(Type::Bool))
            } else {
                Result::Err(issues)
            }
        },
        Expr::MemberByIdx(obj, idx) => {
            let mut issues: Vec<TypeCheckerIssueWithPosition> = Vec::new();
            proof {
                assert(view_issues(issues@) =~= Seq::<SpIssuePos>::empty());
            }
            let _ty1 = checked_type(obj, env, &mut issues);
            let _ty2 = checked_type(idx, env, &mut issues);
            if issues.len() == 0 {
                proof {
                    assert(view_issues(issues@) =~= Seq::<SpIssuePos>::empty());
                }
                Result::Ok(Option::Some(Type::Any))
            } else {
                Result::Err(issues)
            }
        },
        Expr::FunctionDefinition(maybe_name, params, body, _ret) => {
            match maybe_name {
                Option::Some(n) => {
                    env.declare_name(n, Type::Any);
                },
                Option::None => {},
            }
            env.start_scope();
            proof {
                assert(params@.subrange(0, params@.len() as int) =~= params@);
            }
            declare_param_types(env, params, 0);
            let body_ref = crate::value::rc_as_ref(body);
            let iss = check_statement_issues(body_ref, env);
            env.end_scope();
            if iss.len() == 0 {
                proof {
                    assert(view_issues(iss@) =~= Seq::<SpIssuePos>::empty());
                }
                Result::Ok(Option::Some(Type::Any))
            } else {
                Result::Err(iss)
            }
        },
        Expr::FunctionCall(callee, args) => {
            proof {
                assert(*args == e.data->FunctionCall_1);
                assert(decreases_to!(*e => e.data));
                assert(decreases_to!(e.data => e.data->FunctionCall_1));
                assert(decreases_to!(*args => args@));
                assert(args@.subrange(0, args@.len() as int) =~= args@);
            }
            match &callee.data {
                Expr::Identifier(name) => {
                    match crate::builtins::get_builtin_from_name(name) {
                        Option::Some(f) => {
                            proof {
                                assert(view_issues(Seq::<
                                    TypeCheckerIssueWithPosition,
                                >::empty()) =~= Seq::<SpIssuePos>::empty());
                            }
                            let iss = check_expr_list_from(args, 0, env, Vec::new());
                            if iss.len() == 0 {
                                proof {
                                    assert(view_issues(iss@) =~= Seq::<SpIssuePos>::empty());
                                }
                                match f {
                                    crate::value::Function::NativeVoid(_, _) => Result::Ok(
                                        Option::None,
                                    ),
                                    _ => Result::Ok(Option::Some(Type::Any)),
                                }
                            } else {
                                Result::Err(iss)
                            }
                        },
                        Option::None => {
                            match env.get_type(name) {
                                Option::Some(_) => {
                                    proof {
                                        assert(view_issues(Seq::<
                                            TypeCheckerIssueWithPosition,
                                        >::empty()) =~= Seq::<SpIssuePos>::empty());
                                    }
                                    let iss = check_expr_list_from(args, 0, env, Vec::new());
                                    if iss.len() == 0 {
                                        proof {
                                            assert(view_issues(iss@) =~= Seq::<
                                                SpIssuePos,
                                            >::empty());
                                        }
                                        Result::Ok(Option::Some(Type::Any))
                                    } else {
                                        Result::Err(iss)
                                    }
                                },
                                Option::None => {
                                    let mut v: Vec<TypeCheckerIssueWithPosition> = Vec::new();
                                    v.push(
                                        (TypeCheckerIssue::ReferenceError(name.clone()), e.pos),
                                    );
                                    proof {
                                        assert(view_issues(v@) =~= seq![
                                            (SpIssue::Reference(name@), e.pos),
                                        ]);
                                    }
                                    Result::Err(v)
                                },
                            }
                        },
                    }
                },
                _ => {
                    let mut issues: Vec<TypeCheckerIssueWithPosition> = Vec::new();
                    proof {
                        assert(view_issues(issues@) =~= Seq::<SpIssuePos>::empty());
                    }
                    let _ty = checked_type(callee, env, &mut issues);
                    let iss = check_expr_list_from(args, 0, env, issues);
                    if iss.len() == 0 {
                        proof {
                            assert(view_issues(iss@) =~= Seq::<SpIssuePos>::empty());
                        }
                        Result::Ok(Option::Some(Type::Any))
                    } else {
                        Result::Err(iss)
                    }
                },
            }
        },
    }
}

/// Checks one statement, returning every finding about it, in order.
#[verifier::rlimit(100)]
fn check_statement_issues(s: &StatementNode, env: &mut TypeEnvironment) -> (r: Vec<
    TypeCheckerIssueWithPosition,
>)
    ensures
        view_tenv(*final(env)) == sp_check_stmt(view_tenv(*old(env)), *s).0,
        view_issues(r@) == sp_check_stmt(view_tenv(*old(env)), *s).1,
    decreases *s, 2int,
{
    match &s.data {
        Statement::VariableDeclaration(var, expr) => {
            let mut issues: Vec<TypeCheckerIssueWithPosition> = Vec::new();
            proof {
                assert(view_issues(issues@) =~= Seq::<SpIssuePos>::empty());
            }
            let ty = checked_type(expr, env, &mut issues);
            env.declare(var, &ty);
            issues
        },
        Statement::Assignment(lhs, expr) => {
            let mut issues: Vec<TypeCheckerIssueWithPosition> = Vec::new();
            proof {
                assert(view_issues(issues@) =~= Seq::<SpIssuePos>::empty());
            }
            let ty = checked_type(expr, env, &mut issues);
            match lhs {
                LhsExpr::Identifier(id) => {
                    if !env.set(id, ty) {
                        let ghost before = issues@;
                        issues.push(
                            (TypeCheckerIssue::UndeclaredAssignment(id.clone()), s.pos),
                        );
                        proof {
                            assert(view_issues(issues@) =~= view_issues(before).push(
                                (SpIssue::Undeclared(id@), s.pos),
                            ));
                        }
                    }
                },
            }
            issues
        },
        Statement::Block(stmts) => {
            proof {
                assert(*stmts == s.data->Block_0);
                assert(decreases_to!(*s => s.data));
                assert(decreases_to!(s.data => s.data->Block_0));
                assert(decreases_to!(*stmts => stmts@));
                assert(stmts@.subrange(0, stmts@.len() as int) =~= stmts@);
                assert(view_issues(Seq::<TypeCheckerIssueWithPosition>::empty()) =~= Seq::<
                    SpIssuePos,
                >::empty());
            }
            env.start_scope();
            let iss = check_stmts_from(stmts, 0, env, Vec::new());
            env.end_scope();
            iss
        },
        Statement::Expression(expr) => {
            match check_expr(expr, env) {
                Result::Err(v) => v,
                Result::Ok(_) => {
                    let v: Vec<TypeCheckerIssueWithPosition> = Vec::new();
                    proof {
                        assert(view_issues(v@) =~= Seq::<SpIssuePos>::empty());
                    }
                    v
                },
            }
        },
        Statement::IfThen(cond, then_b) => {
            let mut issues: Vec<TypeCheckerIssueWithPosition> = Vec::new();
            proof {
                assert(view_issues(issues@) =~= Seq::<SpIssuePos>::empty());
            }
            let _tyc = checked_type(cond, env, &mut issues);
            let mut iss2 = check_statement_issues(then_b, env);
            let ghost before = issues@;
            let ghost adding = iss2@;
            issues.append(&mut iss2);
            proof {
                assert(view_issues(issues@) =~= view_issues(before) + view_issues(adding));
            }
            issues
        },
        Statement::IfThenElse(cond, then_b, else_b) => {
            let mut then_env = env.duplicate();
            let mut else_env = env.duplicate();
            let mut issues: Vec<TypeCheckerIssueWithPosition> = Vec::new();
            proof {
                assert(view_issues(issues@) =~= Seq::<SpIssuePos>::empty());
            }
            let _tyc = checked_type(cond, env, &mut issues);
            let mut iss_then = check_statement_issues(then_b, &mut then_env);
            let mut iss_else = check_statement_issues(else_b, &mut else_env);
            let ghost i0 = issues@;
            let ghost i1 = iss_then@;
            let ghost i2 = iss_else@;
            issues.append(&mut iss_then);
            issues.append(&mut iss_else);
            proof {
                assert(view_issues(issues@) =~= view_issues(i0) + view_issues(i1)
                    + view_issues(i2));
            }
            let tk = then_env.get_all_keys();
            let ek = else_env.get_all_keys();
            let keys = dedup_append_keys(tk, &ek);
            proof {
                assert(view_strings(keys@).subrange(0, keys@.len() as int) =~= view_strings(
                    keys@,
                ));
            }
            merge_branches(env, &then_env, &else_env, &keys, 0, s.pos, issues)
        },
        Statement::Loop(body) => check_statement_issues(body, env),
        Statement::Return(Option::Some(expr)) => {
            let mut issues: Vec<TypeCheckerIssueWithPosition> = Vec::new();
            proof {
                assert(view_issues(issues@) =~= Seq::<SpIssuePos>::empty());
            }
            let _ty = checked_type(expr, env, &mut issues);
            issues
        },
        Statement::Return(Option::None) => {
            let v: Vec<TypeCheckerIssueWithPosition> = Vec::new();
            proof {
                assert(view_issues(v@) =~= Seq::<SpIssuePos>::empty());
            }
            v
        },
        Statement::Break => {
            let v: Vec<TypeCheckerIssueWithPosition> = Vec::new();
            proof {
                assert(view_issues(v@) =~= Seq::<SpIssuePos>::empty());
            }
            v
        },
        Statement::Empty => {
            let v: Vec<TypeCheckerIssueWithPosition> = Vec::new();
            proof {
                assert(view_issues(v@) =~= Seq::<SpIssuePos>::empty());
            }
            v
        },
    }
}

fn check_stmts_from(
    ss: &Vec<StatementNode>,
    idx: usize,
    env: &mut TypeEnvironment,
    acc: Vec<TypeCheckerIssueWithPosition>,
) -> (r: Vec<TypeCheckerIssueWithPosition>)
    requires
        idx <= ss@.len(),
    ensures
        view_tenv(*final(env)) == sp_check_stmts_acc(
            view_tenv(*old(env)),
            ss@.subrange(idx as int, ss@.len() as int),
            view_issues(acc@),
        ).0,
        view_issues(r@) == sp_check_stmts_acc(
            view_tenv(*old(env)),
            ss@.subrange(idx as int, ss@.len() as int),
            view_issues(acc@),
        ).1,
    decreases ss@.subrange(idx as int, ss@.len() as int), 2int,
{
    let ghost rest = ss@.subrange(idx as int, ss@.len() as int);
    if idx == ss.len() {
        acc
    } else {
        proof {
            assert(rest[0] == ss@[idx as int]);
            assert(decreases_to!(rest => rest[0]));
            assert(rest.drop_first() =~= ss@.subrange(idx + 1, ss@.len() as int));
            assert(decreases_to!(rest => rest.drop_first()));
        }
        let mut iss = check_statement_issues(&ss[idx], env);
        let mut acc2 = acc;
        let ghost before = acc2@;
        let ghost adding = iss@;
        acc2.append(&mut iss);
        proof {
            assert(view_issues(acc2@) =~= view_issues(before) + view_issues(adding));
        }
        check_stmts_from(ss, idx + 1, env, acc2)
    }
}

/// Checks one statement against the live environment: `Ok` when it is
/// clean, otherwise the complete ordered list of positioned findings.
pub fn check_statement(s: &StatementNode, env: &mut TypeEnvironment) -> (r: Result<
    (),
    Vec<TypeCheckerIssueWithPosition>,
>)
    ensures
        view_tenv(*final(env)) == sp_check_stmt(view_tenv(*old(env)), *s).0,
        (r is Ok) ==> sp_check_stmt(view_tenv(*old(env)), *s).1 == Seq::<SpIssuePos>::empty(),
        (r is Err) ==> view_issues(r->Err_0@) == sp_check_stmt(view_tenv(*old(env)), *s).1
            && r->Err_0@.len() > 0,
{
    let iss = check_statement_issues(s, env);
    if iss.len() == 0 {
        proof {
            assert(view_issues(iss@) =~= Seq::<SpIssuePos>::empty());
        }
        Result::Ok(())
    } else {
        Result::Err(iss)
    }
}

/// Checks statements in order against the live environment: `Ok` when all
/// are clean, otherwise the complete ordered list of positioned findings.
pub fn check_statements(ast: &Vec<StatementNode>, env: &mut TypeEnvironment) -> (r: Result<
    (),
    Vec<TypeCheckerIssueWithPosition>,
>)
    ensures
        view_tenv(*final(env)) == sp_check_stmts_acc(
            view_tenv(*old(env)),
            ast@,
            Seq::empty(),
        ).0,
        (r is Ok) ==> sp_check_stmts_acc(view_tenv(*old(env)), ast@, Seq::empty()).1 == Seq::<
            SpIssuePos,
        >::empty(),
        (r is Err) ==> view_issues(r->Err_0@) == sp_check_stmts_acc(
            view_tenv(*old(env)),
            ast@,
            Seq::empty(),
        ).1 && r->Err_0@.len() > 0,
{
    proof {
        assert(ast@.subrange(0, ast@.len() as int) =~= ast@);
        assert(view_issues(Seq::<TypeCheckerIssueWithPosition>::empty()) =~= Seq::<
            SpIssuePos,
        >::empty());
    }
    let iss = check_stmts_from(ast, 0, env, Vec::new());
    if iss.len() == 0 {
        proof {
            assert(view_issues(iss@) =~= Seq::<SpIssuePos>::empty());
        }
        Result::Ok(())
    } else {
        Result::Err(iss)
    }
}

/// Checks a whole program in one fresh root scope: `Ok`, or the complete
/// ordered list of positioned findings — never a partial result.
pub fn check_program(ast: &Vec<StatementNode>) -> (r: Result<
    (),
    Vec<TypeCheckerIssueWithPosition>,
>)
    ensures
        (r is Ok) ==> sp_check_program(ast@) == Seq::<SpIssuePos>::empty(),
        (r is Err) ==> view_issues(r->Err_0@) == sp_check_program(ast@) && r->Err_0@.len() > 0,
{
    let mut env = TypeEnvironment::new();
    env.start_scope();
    let result = check_statements(ast, &mut env);
    env.end_scope();
    result
}

} // verus!
