//! Small verified string builders: decimal rendering and the
//! deterministic names of the artifacts generated for a composable
//! function declaration.

use vstd::prelude::*;
use vstd::string::StringExecFns;

verus! {

/// The decimal digit character for `d < 10`.
pub open spec fn spec_digit(d: nat) -> char {
    if d == 0 {
        '0'
    } else if d == 1 {
        '1'
    } else if d == 2 {
        '2'
    } else if d == 3 {
        '3'
    } else if d == 4 {
        '4'
    } else if d == 5 {
        '5'
    } else if d == 6 {
        '6'
    } else if d == 7 {
        '7'
    } else if d == 8 {
        '8'
    } else {
        '9'
    }
}

/// The decimal rendering of `n`, most significant digit first, with no
/// leading zeros (except for `n == 0` itself).
pub open spec fn spec_decimal(n: nat) -> Seq<char>
    decreases n,
{
    if n < 10 {
        seq![spec_digit(n)]
    } else {
        spec_decimal(n / 10).push(spec_digit(n % 10))
    }
}

fn digit_str(d: u8) -> (r: &'static str)
    requires
        d < 10,
    ensures
        r@ == seq![spec_digit(d as nat)],
{
    let r: &'static str = if d == 0 {
        proof {
            reveal_strlit("0");
        }
        "0"
    } else if d == 1 {
        proof {
            reveal_strlit("1");
        }
        "1"
    } else if d == 2 {
        proof {
            reveal_strlit("2");
        }
        "2"
    } else if d == 3 {
        proof {
            reveal_strlit("3");
        }
        "3"
    } else if d == 4 {
        proof {
            reveal_strlit("4");
        }
        "4"
    } else if d == 5 {
        proof {
            reveal_strlit("5");
        }
        "5"
    } else if d == 6 {
        proof {
            reveal_strlit("6");
        }
        "6"
    } else if d == 7 {
        proof {
            reveal_strlit("7");
        }
        "7"
    } else if d == 8 {
        proof {
            reveal_strlit("8");
        }
        "8"
    } else {
        proof {
            reveal_strlit("9");
        }
        "9"
    };
    proof {
        assert(r@ =~= seq![spec_digit(d as nat)]);
    }
    r
}

/// Renders `n` in decimal.
pub fn decimal_u64(n: u64) -> (r: String)
    ensures
        r@ == spec_decimal(n as nat),
    decreases n,
{
    if n < 10 {
        let r = String::from_str(digit_str(n as u8));
        proof {
            assert(r@ =~= spec_decimal(n as nat));
        }
        r
    } else {
        let r = decimal_u64(n / 10).concat(digit_str((n % 10) as u8));
        proof {
            assert(r@ =~= spec_decimal(n as nat));
        }
        r
    }
}

/// Renders `n` in decimal.
pub fn decimal_u8(n: u8) -> (r: String)
    ensures
        r@ == spec_decimal(n as nat),
{
    decimal_u64(n as u64)
}

/// The characters `T{i}` naming the `i`-th type parameter.
pub open spec fn spec_type_param(i: nat) -> Seq<char> {
    seq!['T'] + spec_decimal(i)
}

/// The generic-parameter list `T1,T2,...,Tcount,` (with trailing comma).
pub open spec fn spec_generics_parameters(count: nat) -> Seq<char>
    decreases count,
{
    if count == 0 {
        Seq::<char>::empty()
    } else {
        spec_generics_parameters((count - 1) as nat) + spec_type_param(count) + seq![',']
    }
}

/// The name `T{index}` of a return-type parameter.
pub fn generate_return_type_param(index: u8) -> (r: String)
    ensures
        r@ == spec_type_param(index as nat),
{
    proof {
        reveal_strlit("T");
    }
    let r = String::from_str("T").concat(decimal_u8(index).as_str());
    proof {
        assert(r@ =~= spec_type_param(index as nat));
    }
    r
}

/// The comma-separated generic-parameter list `T1,` through `T{count},`.
pub fn generate_generics_parameters(count: u8) -> (r: String)
    ensures
        r@ == spec_generics_parameters(count as nat),
{
    let mut result = String::new();
    let mut i: u8 = 0;
    while i < count
        invariant
            i <= count,
            result@ == spec_generics_parameters(i as nat),
        decreases count - i,
    {
        let next = i + 1;
        result.append(generate_return_type_param(next).as_str());
        proof {
            reveal_strlit(",");
        }
        result.append(",");
        proof {
            assert(result@ =~= spec_generics_parameters(next as nat));
        }
        i = next;
    }
    result
}

/// Prefixes an identifier with the generated-artifact marker.
pub fn generate_ident_with_prefix(ident: &str) -> (r: String)
    ensures
        r@ == "fn_composer__"@ + ident@,
{
    String::from_str("fn_composer__").concat(ident)
}

/// The name of the generated lifter for the function named `name`.
pub fn lifted_fn_name(name: &str) -> (r: String)
    ensures
        r@ == "fn_composer__"@ + "lifted_fn_"@ + name@,
{
    let r = generate_ident_with_prefix("lifted_fn_").concat(name);
    proof {
        assert(r@ =~= "fn_composer__"@ + "lifted_fn_"@ + name@);
    }
    r
}

/// The name of the generated asynchrony probe for `name`.
pub fn async_probe_name(name: &str) -> (r: String)
    ensures
        r@ == "fn_composer__"@ + "is_async_"@ + name@,
{
    let r = generate_ident_with_prefix("is_async_").concat(name);
    proof {
        assert(r@ =~= "fn_composer__"@ + "is_async_"@ + name@);
    }
    r
}

/// The name of the generated retryability probe for `name`.
pub fn retryable_probe_name(name: &str) -> (r: String)
    ensures
        r@ == "fn_composer__"@ + "is_retryable_"@ + name@,
{
    let r = generate_ident_with_prefix("is_retryable_").concat(name);
    proof {
        assert(r@ =~= "fn_composer__"@ + "is_retryable_"@ + name@);
    }
    r
}

/// The name of the generated retry wrapper for `name`.
pub fn retry_fn_name(name: &str) -> (r: String)
    ensures
        r@ == "fn_composer__"@ + "retry_"@ + name@,
{
    let r = generate_ident_with_prefix("retry_").concat(name);
    proof {
        assert(r@ =~= "fn_composer__"@ + "retry_"@ + name@);
    }
    r
}

/// The name of the arity- and asynchrony-specific lift function a
/// declaration is bound to.
pub fn lift_target_name(arity: u8, is_async: bool) -> (r: String)
    ensures
        is_async ==> r@ == "lift_async_fn"@ + spec_decimal(arity as nat),
        !is_async ==> r@ == "lift_sync_fn"@ + spec_decimal(arity as nat),
{
    if is_async {
        String::from_str("lift_async_fn").concat(decimal_u8(arity).as_str())
    } else {
        String::from_str("lift_sync_fn").concat(decimal_u8(arity).as_str())
    }
}

/// The name of the arity- and asynchrony-specific boxed callable type.
pub fn boxed_type_name(arity: u8, is_async: bool) -> (r: String)
    ensures
        is_async ==> r@ == "BoxedAsyncFn"@ + spec_decimal(arity as nat),
        !is_async ==> r@ == "BoxedFn"@ + spec_decimal(arity as nat),
{
    if is_async {
        String::from_str("BoxedAsyncFn").concat(decimal_u8(arity).as_str())
    } else {
        String::from_str("BoxedFn").concat(decimal_u8(arity).as_str())
    }
}

} // verus!
