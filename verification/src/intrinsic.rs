//! The Rust math methods, functions and constants that kernels may use, and
//! their Slang spellings.
use vstd::prelude::*;
use crate::text::{spec_contains, spec_join, views, str_eq, contains, join};

verus! {

/// The Slang function that a one-operand Rust float method becomes
/// (`x.ln()` becomes `log(x)`; the others keep their name).
pub open spec fn spec_unary_method(name: Seq<char>) -> Option<Seq<char>> {
    if name == "sin"@ || name == "cos"@ || name == "tan"@ || name == "asin"@ || name == "acos"@
        || name == "atan"@ || name == "sinh"@ || name == "cosh"@ || name == "tanh"@
        || name == "sqrt"@ || name == "abs"@ || name == "floor"@ || name == "ceil"@
        || name == "round"@ || name == "log2"@ || name == "log10"@ || name == "exp"@
        || name == "exp2"@ {
        Some(name)
    } else if name == "ln"@ {
        Some("log"@)
    } else {
        None
    }
}

/// The Slang call that the method call `base.name(args)` becomes, if any.
pub open spec fn spec_map_method(name: Seq<char>, base: Seq<char>, args: Seq<Seq<char>>) -> Option<Seq<char>> {
    match spec_unary_method(name) {
        Some(f) => Some(f + "("@ + base + ")"@),
        None => if name == "powf"@ || name == "powi"@ {
            if args.len() == 1 { Some("pow("@ + base + ", "@ + args[0] + ")"@) } else { None }
        } else if name == "min"@ || name == "max"@ {
            if args.len() == 1 { Some(name + "("@ + base + ", "@ + args[0] + ")"@) } else { None }
        } else if name == "clamp"@ {
            if args.len() == 2 {
                Some("clamp("@ + base + ", "@ + args[0] + ", "@ + args[1] + ")"@)
            } else {
                None
            }
        } else {
            None
        },
    }
}

/// How many arguments the Rust free function `name` takes when kernels may
/// call it; `None` when kernels may not.
pub open spec fn spec_function_arity(name: Seq<char>) -> Option<nat> {
    if name == "sin"@ || name == "cos"@ || name == "tan"@ || name == "sqrt"@ || name == "abs"@
        || name == "floor"@ || name == "ceil"@ || name == "round"@ || name == "exp"@
        || name == "log"@ || name == "log2"@ || name == "log10"@ || name == "normalize"@
        || name == "length"@ {
        Some(1)
    } else if name == "pow"@ || name == "min"@ || name == "max"@ || name == "step"@
        || name == "dot"@ || name == "cross"@ || name == "distance"@ {
        Some(2)
    } else if name == "clamp"@ || name == "mix"@ || name == "lerp"@ {
        Some(3)
    } else {
        None
    }
}

/// The Slang call that `name(args)` becomes: the same name applied to the
/// same arguments, when the name is known and the argument count fits it.
pub open spec fn spec_map_function(name: Seq<char>, args: Seq<Seq<char>>) -> Option<Seq<char>> {
    match spec_function_arity(name) {
        Some(k) => if args.len() == k {
            Some(name + "("@ + spec_join(args, ", "@) + ")"@)
        } else {
            None
        },
        None => None,
    }
}

/// The Slang literal that a path to a float constant becomes, chosen by the
/// first of `PI`, `E`, `FRAC_1_PI`, `TAU` that the path contains.
pub open spec fn spec_map_constant(path: Seq<char>) -> Option<Seq<char>> {
    if spec_contains(path, "PI"@) {
        Some("3.14159265358979323846"@)
    } else if spec_contains(path, "E"@) {
        Some("2.7182818284590452354"@)
    } else if spec_contains(path, "FRAC_1_PI"@) {
        Some("0.31830988618379067154"@)
    } else if spec_contains(path, "TAU"@) {
        Some("6.28318530717958647692"@)
    } else {
        None
    }
}

fn unary_method(name: &str) -> (r: Option<&'static str>)
    ensures
        match (r, spec_unary_method(name@)) {
            (Some(a), Some(b)) => a@ == b,
            (None, None) => true,
            _ => false,
        },
{
    if str_eq(name, "sin") { Some("sin") }
    else if str_eq(name, "cos") { Some("cos") }
    else if str_eq(name, "tan") { Some("tan") }
    else if str_eq(name, "asin") { Some("asin") }
    else if str_eq(name, "acos") { Some("acos") }
    else if str_eq(name, "atan") { Some("atan") }
    else if str_eq(name, "sinh") { Some("sinh") }
    else if str_eq(name, "cosh") { Some("cosh") }
    else if str_eq(name, "tanh") { Some("tanh") }
    else if str_eq(name, "sqrt") { Some("sqrt") }
    else if str_eq(name, "abs") { Some("abs") }
    else if str_eq(name, "floor") { Some("floor") }
    else if str_eq(name, "ceil") { Some("ceil") }
    else if str_eq(name, "round") { Some("round") }
    else if str_eq(name, "log2") { Some("log2") }
    else if str_eq(name, "log10") { Some("log10") }
    else if str_eq(name, "exp") { Some("exp") }
    else if str_eq(name, "exp2") { Some("exp2") }
    else if str_eq(name, "ln") { Some("log") }
    else { None }
}

/// The Slang call that the Rust method call `base_expr.method_name(args)`
/// becomes, or `None` when kernels may not call that method with that many
/// arguments.
pub fn map_rust_method_to_slang(method_name: &str, base_expr: &str, args: &[String]) -> (r: Option<String>)
    ensures
        match (r, spec_map_method(method_name@, base_expr@, views(args@))) {
            (Some(a), Some(b)) => a@ == b,
            (None, None) => true,
            _ => false,
        },
{
    let ghost av = views(args@);
    match unary_method(method_name) {
        Some(f) => {
            let mut s = String::from_str(f);
            s.append("(");
            s.append(base_expr);
            s.append(")");
            Some(s)
        }
        None => {
            if str_eq(method_name, "powf") || str_eq(method_name, "powi") {
                if args.len() == 1 {
                    let mut s = String::from_str("pow(");
                    s.append(base_expr);
                    s.append(", ");
                    s.append(args[0].as_str());
                    s.append(")");
                    Some(s)
                } else {
                    None
                }
            } else if str_eq(method_name, "min") || str_eq(method_name, "max") {
                if args.len() == 1 {
                    let mut s = String::from_str(method_name);
                    s.append("(");
                    s.append(base_expr);
                    s.append(", ");
                    s.append(args[0].as_str());
                    s.append(")");
                    Some(s)
                } else {
                    None
                }
            } else if str_eq(method_name, "clamp") {
                if args.len() == 2 {
                    let mut s = String::from_str("clamp(");
                    s.append(base_expr);
                    s.append(", ");
                    s.append(args[0].as_str());
                    s.append(", ");
                    s.append(args[1].as_str());
                    s.append(")");
                    Some(s)
                } else {
                    None
                }
            } else {
                None
            }
        }
    }
}

fn function_arity(name: &str) -> (r: Option<usize>)
    ensures
        match (r, spec_function_arity(name@)) {
            (Some(a), Some(b)) => a == b,
            (None, None) => true,
            _ => false,
        },
{
    if str_eq(name, "sin") || str_eq(name, "cos") || str_eq(name, "tan") || str_eq(name, "sqrt")
        || str_eq(name, "abs") || str_eq(name, "floor") || str_eq(name, "ceil")
        || str_eq(name, "round") || str_eq(name, "exp") || str_eq(name, "log")
        || str_eq(name, "log2") || str_eq(name, "log10") || str_eq(name, "normalize")
        || str_eq(name, "length") {
        Some(1)
    } else if str_eq(name, "pow") || str_eq(name, "min") || str_eq(name, "max")
        || str_eq(name, "step") || str_eq(name, "dot") || str_eq(name, "cross")
        || str_eq(name, "distance") {
        Some(2)
    } else if str_eq(name, "clamp") || str_eq(name, "mix") || str_eq(name, "lerp") {
        Some(3)
    } else {
        None
    }
}

/// The Slang call that the Rust call `func_name(args)` becomes, or `None` when
/// kernels may not call that function with that many arguments.
pub fn map_rust_function_to_slang(func_name: &str, args: &[String]) -> (r: Option<String>)
    ensures
        match (r, spec_map_function(func_name@, views(args@))) {
            (Some(a), Some(b)) => a@ == b,
            (None, None) => true,
            _ => false,
        },
{
    match function_arity(func_name) {
        Some(k) => {
            if args.len() == k {
                let mut v: Vec<String> = Vec::new();
                let mut i: usize = 0;
                while i < args.len()
                    invariant
                        i <= args@.len(),
                        v@ == args@.subrange(0, i as int),
                    decreases args.len() - i,
                {
                    v.push(args[i].clone());
                    i += 1;
                }
                assert(v@ =~= args@);
                let joined = join(&v, ", ");
                let mut s = String::from_str(func_name);
                s.append("(");
                s.append(joined.as_str());
                s.append(")");
                Some(s)
            } else {
                None
            }
        }
        None => None,
    }
}

/// The Slang literal that a path to a Rust float constant becomes.
pub fn map_rust_constant_to_slang(const_path: &str) -> (r: Option<String>)
    ensures
        match (r, spec_map_constant(const_path@)) {
            (Some(a), Some(b)) => a@ == b,
            (None, None) => true,
            _ => false,
        },
{
    if contains(const_path, "PI") {
        Some(String::from_str("3.14159265358979323846"))
    } else if contains(const_path, "E") {
        Some(String::from_str("2.7182818284590452354"))
    } else if contains(const_path, "FRAC_1_PI") {
        Some(String::from_str("0.31830988618379067154"))
    } else if contains(const_path, "TAU") {
        Some(String::from_str("6.28318530717958647692"))
    } else {
        None
    }
}

proof fn lemma_unary_names(name: Seq<char>)
    ensures
        spec_unary_method(name) is Some ==> name.len() > 0 && name[0] != 'm' && name[0] != 'p'
            && (name[0] == 'c' ==> name.len() <= 4),
{
    reveal_strlit("sin");
    reveal_strlit("cos");
    reveal_strlit("tan");
    reveal_strlit("asin");
    reveal_strlit("acos");
    reveal_strlit("atan");
    reveal_strlit("sinh");
    reveal_strlit("cosh");
    reveal_strlit("tanh");
    reveal_strlit("sqrt");
    reveal_strlit("abs");
    reveal_strlit("floor");
    reveal_strlit("ceil");
    reveal_strlit("round");
    reveal_strlit("log2");
    reveal_strlit("log10");
    reveal_strlit("exp");
    reveal_strlit("exp2");
    reveal_strlit("ln");
}

/// A Rust method call on `base` becomes the Slang call of the same function on
/// `base` and the same arguments: `x.min(y)` is `min(x, y)` and `x.max(y)` is
/// `max(x, y)`; `x.powf(y)` and `x.powi(y)` are `pow(x, y)`; `x.clamp(a, b)` is
/// `clamp(x, a, b)`; a one-operand method keeps its name (`x.sqrt()` is
/// `sqrt(x)`), except that `x.ln()` is `log(x)`; any mapped method call begins
/// with a Slang name and then `(base`. A free function call keeps its name and
/// its arguments, in order.
pub proof fn lemma_calls_keep_names_and_operands(name: Seq<char>, base: Seq<char>, args: Seq<Seq<char>>)
    ensures
        args.len() == 1 ==> spec_map_method("min"@, base, args) == Some("min("@ + base + ", "@ + args[0] + ")"@),
        args.len() == 1 ==> spec_map_method("max"@, base, args) == Some("max("@ + base + ", "@ + args[0] + ")"@),
        args.len() == 1 ==> spec_map_method("powf"@, base, args) == Some("pow("@ + base + ", "@ + args[0] + ")"@),
        args.len() == 1 ==> spec_map_method("powi"@, base, args) == Some("pow("@ + base + ", "@ + args[0] + ")"@),
        args.len() == 2 ==> spec_map_method("clamp"@, base, args)
            == Some("clamp("@ + base + ", "@ + args[0] + ", "@ + args[1] + ")"@),
        spec_map_method("sqrt"@, base, args) == Some("sqrt("@ + base + ")"@),
        spec_map_method("ln"@, base, args) == Some("log("@ + base + ")"@),
        spec_unary_method(name) is Some && name != "ln"@ ==> spec_map_method(name, base, args) == Some(name + "("@ + base + ")"@),
        spec_map_method(name, base, args) matches Some(t) ==> exists|f: Seq<char>| #[trigger] (f + "("@ + base) == t.subrange(0, (f.len() + 1 + base.len()) as int),
        spec_map_function(name, args) matches Some(t) ==> t == name + "("@ + spec_join(args, ", "@) + ")"@,
{
    reveal_strlit("min");
    reveal_strlit("max");
    reveal_strlit("powf");
    reveal_strlit("powi");
    reveal_strlit("clamp");
    reveal_strlit("sqrt");
    reveal_strlit("ln");
    reveal_strlit("log");
    reveal_strlit("pow");
    reveal_strlit("sin");
    reveal_strlit("cos");
    reveal_strlit("tan");
    reveal_strlit("asin");
    reveal_strlit("acos");
    reveal_strlit("atan");
    reveal_strlit("sinh");
    reveal_strlit("cosh");
    reveal_strlit("tanh");
    reveal_strlit("abs");
    reveal_strlit("floor");
    reveal_strlit("ceil");
    reveal_strlit("round");
    reveal_strlit("log2");
    reveal_strlit("log10");
    reveal_strlit("exp");
    reveal_strlit("exp2");
    reveal_strlit("min(");
    reveal_strlit("max(");
    reveal_strlit("pow(");
    reveal_strlit("clamp(");
    reveal_strlit("sqrt(");
    reveal_strlit("log(");
    reveal_strlit("(");
    reveal_strlit(")");
    reveal_strlit(", ");
    lemma_unary_names("min"@);
    lemma_unary_names("max"@);
    lemma_unary_names("powf"@);
    lemma_unary_names("powi"@);
    lemma_unary_names("clamp"@);
    if args.len() == 1 {
        assert(spec_map_method("min"@, base, args)->0 =~= "min("@ + base + ", "@ + args[0] + ")"@);
        assert(spec_map_method("max"@, base, args)->0 =~= "max("@ + base + ", "@ + args[0] + ")"@);
        assert(spec_map_method("powf"@, base, args)->0 =~= "pow("@ + base + ", "@ + args[0] + ")"@);
        assert(spec_map_method("powi"@, base, args)->0 =~= "pow("@ + base + ", "@ + args[0] + ")"@);
    }
    if args.len() == 2 {
        assert(spec_map_method("clamp"@, base, args)->0 =~= "clamp("@ + base + ", "@ + args[0] + ", "@ + args[1] + ")"@);
    }
    assert(spec_map_method("sqrt"@, base, args)->0 =~= "sqrt("@ + base + ")"@);
    assert(spec_map_method("ln"@, base, args)->0 =~= "log("@ + base + ")"@);
    match spec_map_method(name, base, args) {
        Some(t) => {
            let f = match spec_unary_method(name) {
                Some(g) => g,
                None => if name == "powf"@ || name == "powi"@ { "pow"@ } else { name },
            };
            if spec_unary_method(name) is Some {
                assert(t == f + "("@ + base + ")"@);
            } else if name == "powf"@ || name == "powi"@ {
                assert(t == f + "("@ + base + ", "@ + args[0] + ")"@);
            } else if name == "min"@ || name == "max"@ {
                assert(t == f + "("@ + base + ", "@ + args[0] + ")"@);
            } else {
                assert(name == "clamp"@);
                assert(t =~= f + "("@ + base + ", "@ + args[0] + ", "@ + args[1] + ")"@);
            }
            assert((f + "("@ + base) =~= t.subrange(0, (f.len() + 1 + base.len()) as int));
        },
        None => {},
    }
}

} // verus!
