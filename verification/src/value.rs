//! Runtime values: a tagged union of numbers, booleans, strings, tuples and
//! functions, together with the mathematical model (`SpecValue`) that all
//! contracts speak of.
//!
//! Truthiness is total, by an explicit documented rule: a number is truthy
//! iff it is non-zero, a string or tuple iff it is non-empty, a boolean iff
//! it is `true`, and a function value is always truthy.
//!
//! Equality is structural and never fails; values of different kinds compare
//! unequal, and two function values always compare unequal.

use std::rc::Rc;
use vstd::prelude::*;

use crate::ast::ConstraintType;
use crate::ast::StatementNode;

verus! {

/// The numeric sub-kinds. Only exact integers are carried; the core keeps
/// the sub-kind tag so every operation dispatches on it explicitly.
pub enum Number {
    Integer(i64),
}

/// The call signature of a function: arity, variadic flag and per-parameter
/// optional type constraints.
pub struct CallSign {
    pub num_params: usize,
    pub variadic: bool,
    pub param_types: Vec<Option<ConstraintType>>,
}

/// The closed set of native callbacks the builtin registry can hand out.
pub enum NativeFn {
    /// Renders each argument and appends one line to the run's output.
    Println,
    /// Returns its single argument rendered as a string value.
    Text,
}

/// A callable value: a native callback (void or value-returning) or a
/// user-defined function. A user function's `env` is the index of its
/// captured defining scope in the environment arena: the closure.
pub enum Function {
    NativeVoid(CallSign, NativeFn),
    NativeReturning(CallSign, NativeFn),
    User {
        call_sign: CallSign,
        param_names: Vec<String>,
        body: Rc<StatementNode>,
        env: usize,
        ret_type: Option<ConstraintType>,
    },
}

/// A runtime value.
pub enum Value {
    Number(Number),
    Bool(bool),
    Str(String),
    Tuple(Vec<Value>),
    Function(Box<Function>),
}

/// The kind of a value, as reported in type errors.
#[derive(Clone, Copy)]
pub enum ValueType {
    Number,
    Bool,
    Str,
    Tuple,
    Function,
}

/// Model of a call signature.
#[verifier::ext_equal]
pub struct SpecCallSign {
    pub num_params: int,
    pub variadic: bool,
    pub param_types: Seq<Option<ConstraintType>>,
}

/// Model of a function value.
#[verifier::ext_equal]
pub enum SpecFunction {
    NativeVoid(SpecCallSign, NativeFn),
    NativeReturning(SpecCallSign, NativeFn),
    User {
        call_sign: SpecCallSign,
        params: Seq<Seq<char>>,
        body: StatementNode,
        env: int,
        ret_type: Option<ConstraintType>,
    },
}

/// Model of a runtime value.
#[verifier::ext_equal]
pub enum SpecValue {
    Int(i64),
    Bool(bool),
    Str(Seq<char>),
    Tuple(Seq<SpecValue>),
    Function(SpecFunction),
}

pub open spec fn view_call_sign(c: CallSign) -> SpecCallSign {
    SpecCallSign { num_params: c.num_params as int, variadic: c.variadic, param_types: c.param_types@ }
}

pub open spec fn view_strings(v: Seq<String>) -> Seq<Seq<char>> {
    v.map_values(|s: String| s@)
}

pub open spec fn view_function(f: Function) -> SpecFunction {
    match f {
        Function::NativeVoid(c, n) => SpecFunction::NativeVoid(view_call_sign(c), n),
        Function::NativeReturning(c, n) => SpecFunction::NativeReturning(view_call_sign(c), n),
        Function::User { call_sign, param_names, body, env, ret_type } => SpecFunction::User {
            call_sign: view_call_sign(call_sign),
            params: view_strings(param_names@),
            body: *body,
            env: env as int,
            ret_type: ret_type,
        },
    }
}

pub open spec fn view_val(v: Value) -> SpecValue
    decreases v,
{
    match v {
        Value::Number(Number::Integer(i)) => SpecValue::Int(i),
        Value::Bool(b) => SpecValue::Bool(b),
        Value::Str(s) => SpecValue::Str(s@),
        Value::Tuple(elems) => SpecValue::Tuple(view_vals(elems@)),
        Value::Function(f) => SpecValue::Function(view_function(*f)),
    }
}

pub open spec fn view_vals(s: Seq<Value>) -> Seq<SpecValue>
    decreases s,
{
    if s.len() == 0 {
        Seq::empty()
    } else {
        view_vals(s.drop_last()).push(view_val(s.last()))
    }
}

pub broadcast proof fn lemma_view_vals_len(s: Seq<Value>)
    ensures
        #[trigger] view_vals(s).len() == s.len(),
    decreases s,
{
    if s.len() > 0 {
        lemma_view_vals_len(s.drop_last());
    }
}

pub broadcast proof fn lemma_view_vals_index(s: Seq<Value>, i: int)
    requires
        0 <= i < s.len(),
    ensures
        #[trigger] view_vals(s)[i] == view_val(s[i]),
    decreases s,
{
    lemma_view_vals_len(s);
    if i < s.len() - 1 {
        lemma_view_vals_index(s.drop_last(), i);
    }
}

pub proof fn lemma_view_vals_push(s: Seq<Value>, v: Value)
    ensures
        view_vals(s.push(v)) == view_vals(s).push(view_val(v)),
{
    assert(s.push(v).drop_last() =~= s);
    assert(s.push(v).last() == v);
}

/// The documented total truthiness rule.
pub open spec fn sp_truthy(v: SpecValue) -> bool {
    match v {
        SpecValue::Int(i) => i != 0,
        SpecValue::Bool(b) => b,
        SpecValue::Str(s) => s.len() != 0,
        SpecValue::Tuple(t) => t.len() != 0,
        SpecValue::Function(_) => true,
    }
}

/// The kind of a modelled value.
pub open spec fn sp_type_of(v: SpecValue) -> ValueType {
    match v {
        SpecValue::Int(_) => ValueType::Number,
        SpecValue::Bool(_) => ValueType::Bool,
        SpecValue::Str(_) => ValueType::Str,
        SpecValue::Tuple(_) => ValueType::Tuple,
        SpecValue::Function(_) => ValueType::Function,
    }
}

/// Structural equality: kinds must match, numbers, booleans and strings
/// compare by content, tuples element-wise; function values never compare
/// equal.
pub open spec fn sp_val_eq(a: SpecValue, b: SpecValue) -> bool
    decreases a,
{
    match (a, b) {
        (SpecValue::Int(x), SpecValue::Int(y)) => x == y,
        (SpecValue::Bool(x), SpecValue::Bool(y)) => x == y,
        (SpecValue::Str(x), SpecValue::Str(y)) => x == y,
        (SpecValue::Tuple(x), SpecValue::Tuple(y)) => sp_vals_eq(x, y),
        _ => false,
    }
}

pub open spec fn sp_vals_eq(x: Seq<SpecValue>, y: Seq<SpecValue>) -> bool
    decreases x,
{
    if x.len() != y.len() {
        false
    } else if x.len() == 0 {
        true
    } else {
        sp_vals_eq(x.drop_last(), y.drop_last()) && sp_val_eq(x.last(), y.last())
    }
}

impl Function {
    /// The call signature this function is validated against.
    pub fn get_call_sign(&self) -> (c: &CallSign)
        ensures
            view_call_sign(*c) == match view_function(*self) {
                SpecFunction::NativeVoid(cs, _) => cs,
                SpecFunction::NativeReturning(cs, _) => cs,
                SpecFunction::User { call_sign, .. } => call_sign,
            },
    {
        match self {
            Function::NativeVoid(cs, _) => cs,
            Function::NativeReturning(cs, _) => cs,
            Function::User { call_sign, .. } => call_sign,
        }
    }
}

impl Value {
    /// Reports the kind of this value, for error messages.
    pub fn get_type(&self) -> (t: ValueType)
        ensures
            t == sp_type_of(view_val(*self)),
    {
        match self {
            Value::Number(_) => ValueType::Number,
            Value::Bool(_) => ValueType::Bool,
            Value::Str(_) => ValueType::Str,
            Value::Tuple(_) => ValueType::Tuple,
            Value::Function(_) => ValueType::Function,
        }
    }

    /// Total truthiness, by the documented rule.
    pub fn is_truthy(&self) -> (r: bool)
        ensures
            r == sp_truthy(view_val(*self)),
    {
        match self {
            Value::Number(Number::Integer(i)) => *i != 0,
            Value::Bool(b) => *b,
            Value::Str(s) => s.as_str().unicode_len() != 0,
            Value::Tuple(t) => t.len() != 0,
            Value::Function(_) => true,
        }
    }
}

/// Structural equality of two values; never fails, cross-kind comparisons
/// yield `false`, function values always compare unequal.
#[verifier::loop_isolation(false)]
pub fn value_eq(a: &Value, b: &Value) -> (r: bool)
    ensures
        r == sp_val_eq(view_val(*a), view_val(*b)),
    decreases *a,
{
    match (a, b) {
        (Value::Number(Number::Integer(x)), Value::Number(Number::Integer(y))) => *x == *y,
        (Value::Bool(x), Value::Bool(y)) => *x == *y,
        (Value::Str(x), Value::Str(y)) => *x == *y,
        (Value::Tuple(x), Value::Tuple(y)) => {
            if x.len() != y.len() {
                proof {
                    lemma_view_vals_len(x@);
                    lemma_view_vals_len(y@);
                }
                false
            } else {
                let n = x.len();
                let mut i: usize = 0;
                let mut all_eq = true;
                proof {
                    lemma_view_vals_len(x@);
                    lemma_view_vals_len(y@);
                }
                while i < n
                    invariant
                        n == x@.len() == y@.len(),
                        0 <= i <= n,
                        view_vals(x@).len() == n,
                        view_vals(y@).len() == n,
                        all_eq == sp_vals_eq(
                            view_vals(x@).subrange(0, i as int),
                            view_vals(y@).subrange(0, i as int),
                        ),
                    decreases n - i,
                {
                    proof {
                        assert(*x == a->Tuple_0);
                        assert(decreases_to!(*a => a->Tuple_0));
                        assert(decreases_to!(*x => x@));
                        assert(decreases_to!(x@ => x@[i as int]));
                    }
                    let e = value_eq(&x[i], &y[i]);
                    proof {
                        lemma_view_vals_index(x@, i as int);
                        lemma_view_vals_index(y@, i as int);
                        let px = view_vals(x@).subrange(0, i + 1);
                        let py = view_vals(y@).subrange(0, i + 1);
                        assert(px.drop_last() =~= view_vals(x@).subrange(0, i as int));
                        assert(py.drop_last() =~= view_vals(y@).subrange(0, i as int));
                        assert(px.last() == view_vals(x@)[i as int]);
                        assert(py.last() == view_vals(y@)[i as int]);
                    }
                    all_eq = all_eq && e;
                    i = i + 1;
                }
                proof {
                    assert(view_vals(x@).subrange(0, n as int) =~= view_vals(x@));
                    assert(view_vals(y@).subrange(0, n as int) =~= view_vals(y@));
                }
                all_eq
            }
        },
        _ => {
            proof {
                let va = view_val(*a);
                let vb = view_val(*b);
                assert(!sp_val_eq(va, vb));
            }
            false
        },
    }
}

/// Relies on `Rc::clone` from std: the result is a handle to the same
/// shared allocation, so it carries the same statement tree.
#[verifier::external_body]
pub fn rc_share(r: &Rc<StatementNode>) -> (res: Rc<StatementNode>)
    ensures
        res == *r,
{
    Rc::clone(r)
}

/// Relies on `Rc`'s `Deref` from std: a shared handle reads as the tree
/// it holds.
#[verifier::external_body]
pub(crate) fn rc_as_ref(r: &Rc<StatementNode>) -> (b: &StatementNode)
    ensures
        *b == **r,
{
    r
}

fn copy_strings(v: &Vec<String>) -> (r: Vec<String>)
    ensures
        r@ =~= v@,
{
    let mut r: Vec<String> = Vec::new();
    let mut i: usize = 0;
    while i < v.len()
        invariant
            0 <= i <= v@.len(),
            r@ =~= v@.subrange(0, i as int),
        decreases v@.len() - i,
    {
        r.push(v[i].clone());
        proof {
            assert(r@ =~= v@.subrange(0, i + 1));
        }
        i = i + 1;
    }
    proof {
        assert(v@.subrange(0, v@.len() as int) =~= v@);
    }
    r
}

fn copy_constraints(v: &Vec<Option<ConstraintType>>) -> (r: Vec<Option<ConstraintType>>)
    ensures
        r@ =~= v@,
{
    let mut r: Vec<Option<ConstraintType>> = Vec::new();
    let mut i: usize = 0;
    while i < v.len()
        invariant
            0 <= i <= v@.len(),
            r@ =~= v@.subrange(0, i as int),
        decreases v@.len() - i,
    {
        let c = match &v[i] {
            Option::Some(ConstraintType::Number) => Option::Some(ConstraintType::Number),
            Option::Some(ConstraintType::Bool) => Option::Some(ConstraintType::Bool),
            Option::None => Option::None,
        };
        r.push(c);
        proof {
            assert(r@ =~= v@.subrange(0, i + 1));
        }
        i = i + 1;
    }
    proof {
        assert(v@.subrange(0, v@.len() as int) =~= v@);
    }
    r
}

fn copy_call_sign(c: &CallSign) -> (r: CallSign)
    ensures
        view_call_sign(r) == view_call_sign(*c),
{
    CallSign { num_params: c.num_params, variadic: c.variadic, param_types: copy_constraints(&c.param_types) }
}

fn copy_function(f: &Function) -> (r: Function)
    ensures
        view_function(r) == view_function(*f),
{
    match f {
        Function::NativeVoid(c, n) => Function::NativeVoid(
            copy_call_sign(c),
            match n { NativeFn::Println => NativeFn::Println, NativeFn::Text => NativeFn::Text },
        ),
        Function::NativeReturning(c, n) => Function::NativeReturning(
            copy_call_sign(c),
            match n { NativeFn::Println => NativeFn::Println, NativeFn::Text => NativeFn::Text },
        ),
        Function::User { call_sign, param_names, body, env, ret_type } => Function::User {
            call_sign: copy_call_sign(call_sign),
            param_names: copy_strings(param_names),
            body: rc_share(body),
            env: *env,
            ret_type: match ret_type {
                Option::Some(ConstraintType::Number) => Option::Some(ConstraintType::Number),
                Option::Some(ConstraintType::Bool) => Option::Some(ConstraintType::Bool),
                Option::None => Option::None,
            },
        },
    }
}

/// A structural copy: the result has the same model as the argument.
/// Function values share their statement tree; everything else is rebuilt.
#[verifier::loop_isolation(false)]
pub fn copy_value(v: &Value) -> (r: Value)
    ensures
        view_val(r) == view_val(*v),
    decreases *v,
{
    match v {
        Value::Number(Number::Integer(i)) => Value::Number(Number::Integer(*i)),
        Value::Bool(b) => Value::Bool(*b),
        Value::Str(s) => Value::Str(s.clone()),
        Value::Tuple(elems) => {
            let mut out: Vec<Value> = Vec::new();
            let mut i: usize = 0;
            proof {
                lemma_view_vals_len(elems@);
            }
            while i < elems.len()
                invariant
                    0 <= i <= elems@.len(),
                    view_vals(out@) == view_vals(elems@.subrange(0, i as int)),
                decreases elems@.len() - i,
            {
                proof {
                    assert(*elems == v->Tuple_0);
                    assert(decreases_to!(*v => v->Tuple_0));
                    assert(decreases_to!(*elems => elems@));
                    assert(decreases_to!(elems@ => elems@[i as int]));
                }
                let c = copy_value(&elems[i]);
                proof {
                    lemma_view_vals_push(out@, c);
                    lemma_view_vals_push(elems@.subrange(0, i as int), elems@[i as int]);
                    assert(elems@.subrange(0, i as int).push(elems@[i as int]) =~= elems@.subrange(
                        0,
                        i + 1,
                    ));
                }
                out.push(c);
                i = i + 1;
            }
            proof {
                assert(elems@.subrange(0, elems@.len() as int) =~= elems@);
            }
            Value::Tuple(out)
        },
        Value::Function(f) => Value::Function(Box::new(copy_function(f))),
    }
}

} // verus!
