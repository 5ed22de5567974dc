//! The builtin registry: a fixed table from names to native functions,
//! consulted by the evaluator (which binds them in the root scope) and by
//! the type checker (which statically classifies builtin calls as void or
//! value-returning).

use vstd::prelude::*;
use vstd::string::StringExecFns;

use crate::render::sp_text;
use crate::render::text_of_value;
use crate::value::CallSign;
use crate::value::Function;
use crate::value::NativeFn;
use crate::value::SpecCallSign;
use crate::value::SpecFunction;
use crate::value::SpecValue;
use crate::value::Value;
use crate::value::view_function;

verus! {

pub open spec fn sp_println_name() -> Seq<char> {
    seq!['p', 'r', 'i', 'n', 't', 'l', 'n']
}

pub open spec fn sp_text_name() -> Seq<char> {
    seq!['t', 'e', 'x', 't']
}

/// The model of the `println` builtin: void, variadic.
pub open spec fn sp_println_fn() -> SpecFunction {
    SpecFunction::NativeVoid(
        SpecCallSign { num_params: 0, variadic: true, param_types: Seq::empty() },
        NativeFn::Println,
    )
}

/// The model of the `text` builtin: value-returning, one parameter.
pub open spec fn sp_text_fn() -> SpecFunction {
    SpecFunction::NativeReturning(
        SpecCallSign { num_params: 1, variadic: false, param_types: seq![Option::None] },
        NativeFn::Text,
    )
}

/// What the registry holds for a name.
pub open spec fn sp_builtin(name: Seq<char>) -> Option<SpecFunction> {
    if name == sp_println_name() {
        Option::Some(sp_println_fn())
    } else if name == sp_text_name() {
        Option::Some(sp_text_fn())
    } else {
        Option::None
    }
}

/// The one line `println` appends: its arguments rendered, separated by a
/// single space.
pub open spec fn sp_println_line(args: Seq<SpecValue>) -> Seq<char>
    decreases args,
{
    if args.len() == 0 {
        Seq::empty()
    } else if args.len() == 1 {
        sp_text(args.last())
    } else {
        sp_println_line(args.drop_last()) + seq![' '] + sp_text(args.last())
    }
}

/// Looks a name up in the registry.
pub fn get_builtin_from_name(name: &String) -> (r: Option<Function>)
    ensures
        match r {
            Option::Some(f) => sp_builtin(name@) == Option::Some(view_function(f)),
            Option::None => sp_builtin(name@) == Option::None::<SpecFunction>,
        },
{
    proof {
        reveal_strlit("println");
        reveal_strlit("text");
    }
    let println_key = String::from_str("println");
    let text_key = String::from_str("text");
    proof {
        assert(println_key@ =~= sp_println_name());
        assert(text_key@ =~= sp_text_name());
    }
    if *name == println_key {
        let f = Function::NativeVoid(
            CallSign { num_params: 0, variadic: true, param_types: Vec::new() },
            NativeFn::Println,
        );
        proof {
            assert(view_function(f) =~= sp_println_fn());
        }
        Option::Some(f)
    } else if *name == text_key {
        let mut param_types: Vec<Option<crate::ast::ConstraintType>> = Vec::new();
        param_types.push(Option::None);
        let f = Function::NativeReturning(
            CallSign { num_params: 1, variadic: false, param_types },
            NativeFn::Text,
        );
        proof {
            assert(view_function(f) =~= sp_text_fn());
        }
        Option::Some(f)
    } else {
        Option::None
    }
}

proof fn lemma_println_line_push(args: Seq<SpecValue>, v: SpecValue)
    ensures
        sp_println_line(args.push(v)) == if args.len() == 0 {
            sp_text(v)
        } else {
            sp_println_line(args) + seq![' '] + sp_text(v)
        },
{
    assert(args.push(v).drop_last() =~= args);
    assert(args.push(v).last() == v);
}

/// Renders the `println` arguments into the single line the model names.
#[verifier::loop_isolation(false)]
pub fn println_line(args: &Vec<Value>) -> (s: String)
    ensures
        s@ == sp_println_line(crate::value::view_vals(args@)),
{
    proof {
        crate::value::lemma_view_vals_len(args@);
        reveal_strlit(" ");
    }
    let mut s = String::new();
    let mut i: usize = 0;
    while i < args.len()
        invariant
            0 <= i <= args@.len(),
            s@ == sp_println_line(crate::value::view_vals(args@).subrange(0, i as int)),
        decreases args@.len() - i,
    {
        if i > 0 {
            s.append(" ");
        }
        let t = text_of_value(&args[i]);
        s.append(t.as_str());
        proof {
            crate::value::lemma_view_vals_index(args@, i as int);
            let pre = crate::value::view_vals(args@).subrange(0, i as int);
            lemma_println_line_push(pre, crate::value::view_vals(args@)[i as int]);
            assert(pre.push(crate::value::view_vals(args@)[i as int])
                =~= crate::value::view_vals(args@).subrange(0, i + 1));
            assert(s@ =~= sp_println_line(crate::value::view_vals(args@).subrange(0, i + 1)));
        }
        i = i + 1;
    }
    proof {
        assert(crate::value::view_vals(args@).subrange(0, args@.len() as int)
            =~= crate::value::view_vals(args@));
    }
    s
}

} // verus!
