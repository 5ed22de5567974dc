//! Rendering values to text: the decimal form of integers and the textual
//! form of every value kind. The evaluator uses this for string coercion
//! (`+` with a string operand) and the native callbacks use it for output.

use vstd::prelude::*;
use vstd::string::StringExecFns;
use vstd::string::StrSliceExecFns;

use crate::value::Number;
use crate::value::SpecValue;
use crate::value::Value;
use crate::value::view_val;
use crate::value::view_vals;
use crate::value::lemma_view_vals_len;
use crate::value::lemma_view_vals_index;

verus! {

/// The character for one decimal digit.
pub open spec fn sp_digit(d: int) -> char {
    if d == 0 { '0' }
    else if d == 1 { '1' }
    else if d == 2 { '2' }
    else if d == 3 { '3' }
    else if d == 4 { '4' }
    else if d == 5 { '5' }
    else if d == 6 { '6' }
    else if d == 7 { '7' }
    else if d == 8 { '8' }
    else { '9' }
}

/// Decimal digits of a non-negative integer, most significant first.
pub open spec fn sp_udec(n: nat) -> Seq<char>
    decreases n,
{
    if n < 10 {
        seq![sp_digit(n as int)]
    } else {
        sp_udec(n / 10).push(sp_digit((n % 10) as int))
    }
}

/// Decimal form of a signed integer: a leading minus sign when negative.
pub open spec fn sp_idec(i: int) -> Seq<char> {
    if i < 0 {
        seq!['-'] + sp_udec((-i) as nat)
    } else {
        sp_udec(i as nat)
    }
}

/// The textual form of a value: numbers in decimal, booleans as `true` /
/// `false`, strings as their own contents, tuples parenthesised with
/// elements separated by a comma and a space, function values as an opaque
/// marker.
pub open spec fn sp_text(v: SpecValue) -> Seq<char>
    decreases v,
{
    match v {
        SpecValue::Int(i) => sp_idec(i as int),
        SpecValue::Bool(b) => if b {
            seq!['t', 'r', 'u', 'e']
        } else {
            seq!['f', 'a', 'l', 's', 'e']
        },
        SpecValue::Str(s) => s,
        SpecValue::Tuple(elems) => seq!['('] + sp_texts(elems) + seq![')'],
        SpecValue::Function(_) => seq!['<', 'f', 'u', 'n', 'c', 't', 'i', 'o', 'n', '>'],
    }
}

/// Tuple elements rendered and joined by a comma and a space.
pub open spec fn sp_texts(elems: Seq<SpecValue>) -> Seq<char>
    decreases elems,
{
    if elems.len() == 0 {
        Seq::empty()
    } else if elems.len() == 1 {
        sp_text(elems.last())
    } else {
        sp_texts(elems.drop_last()) + seq![',', ' '] + sp_text(elems.last())
    }
}

fn digit_str(d: u64) -> (r: &'static str)
    requires
        d < 10,
    ensures
        r@ =~= seq![sp_digit(d as int)],
{
    proof {
        reveal_strlit("0");
        reveal_strlit("1");
        reveal_strlit("2");
        reveal_strlit("3");
        reveal_strlit("4");
        reveal_strlit("5");
        reveal_strlit("6");
        reveal_strlit("7");
        reveal_strlit("8");
        reveal_strlit("9");
    }
    if d == 0 { "0" }
    else if d == 1 { "1" }
    else if d == 2 { "2" }
    else if d == 3 { "3" }
    else if d == 4 { "4" }
    else if d == 5 { "5" }
    else if d == 6 { "6" }
    else if d == 7 { "7" }
    else if d == 8 { "8" }
    else { "9" }
}

/// The decimal form of an unsigned integer.
pub fn u64_dec(n: u64) -> (s: String)
    ensures
        s@ == sp_udec(n as nat),
    decreases n,
{
    if n < 10 {
        String::from_str(digit_str(n))
    } else {
        let mut s = u64_dec(n / 10);
        s.append(digit_str(n % 10));
        proof {
            assert(s@ =~= sp_udec(n as nat));
        }
        s
    }
}

/// The decimal form of a signed integer.
pub fn i64_dec(i: i64) -> (s: String)
    ensures
        s@ == sp_idec(i as int),
{
    if i >= 0 {
        u64_dec(i as u64)
    } else {
        let mut s = String::from_str("-");
        proof {
            reveal_strlit("-");
        }
        let m: u64 = ((-(i + 1)) as u64) + 1;
        assert(m as nat == (-(i as int)) as nat);
        let d = u64_dec(m);
        s.append(d.as_str());
        proof {
            assert(s@ =~= sp_idec(i as int));
        }
        s
    }
}

proof fn lemma_texts_push(elems: Seq<SpecValue>, v: SpecValue)
    ensures
        sp_texts(elems.push(v)) == if elems.len() == 0 {
            sp_text(v)
        } else {
            sp_texts(elems) + seq![',', ' '] + sp_text(v)
        },
{
    assert(elems.push(v).drop_last() =~= elems);
    assert(elems.push(v).last() == v);
}

/// Renders a value to text, exactly as `sp_text` describes.
#[verifier::loop_isolation(false)]
pub fn text_of_value(v: &Value) -> (s: String)
    ensures
        s@ == sp_text(view_val(*v)),
    decreases *v,
{
    match v {
        Value::Number(Number::Integer(i)) => i64_dec(*i),
        Value::Bool(b) => {
            proof {
                reveal_strlit("true");
                reveal_strlit("false");
            }
            if *b {
                let s = String::from_str("true");
                proof {
                    assert(s@ =~= sp_text(view_val(*v)));
                }
                s
            } else {
                let s = String::from_str("false");
                proof {
                    assert(s@ =~= sp_text(view_val(*v)));
                }
                s
            }
        },
        Value::Str(st) => st.clone(),
        Value::Function(_) => {
            proof {
                reveal_strlit("<function>");
            }
            let s = String::from_str("<function>");
            proof {
                assert(s@ =~= sp_text(view_val(*v)));
            }
            s
        },
        Value::Tuple(elems) => {
            proof {
                reveal_strlit("(");
                reveal_strlit(")");
                reveal_strlit(", ");
                lemma_view_vals_len(elems@);
            }
            let mut s = String::from_str("(");
            let mut i: usize = 0;
            while i < elems.len()
                invariant
                    0 <= i <= elems@.len(),
                    s@ == seq!['('] + sp_texts(view_vals(elems@).subrange(0, i as int)),
                decreases elems@.len() - i,
            {
                proof {
                    assert(*elems == v->Tuple_0);
                    assert(decreases_to!(*v => v->Tuple_0));
                    assert(decreases_to!(*elems => elems@));
                    assert(decreases_to!(elems@ => elems@[i as int]));
                }
                if i > 0 {
                    s.append(", ");
                }
                let t = text_of_value(&elems[i]);
                s.append(t.as_str());
                proof {
                    lemma_view_vals_index(elems@, i as int);
                    let pre = view_vals(elems@).subrange(0, i as int);
                    lemma_texts_push(pre, view_vals(elems@)[i as int]);
                    assert(pre.push(view_vals(elems@)[i as int]) =~= view_vals(elems@).subrange(
                        0,
                        i + 1,
                    ));
                    assert(s@ =~= seq!['('] + sp_texts(view_vals(elems@).subrange(0, i + 1)));
                }
                i = i + 1;
            }
            s.append(")");
            proof {
                assert(view_vals(elems@).subrange(0, elems@.len() as int) =~= view_vals(elems@));
                assert(s@ =~= sp_text(view_val(*v)));
            }
            s
        },
    }
}

} // verus!
