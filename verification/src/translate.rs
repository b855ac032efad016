//! Translation of kernel bodies, expression by expression and statement by
//! statement, into Slang source text.
use vstd::prelude::*;
use crate::ast::{BinOp, Expr, FieldValue, Lit, Member, Pattern, Stmt, UnOp};
use crate::error::{CodegenError, ErrorView, msg, message, cat, cat3};
use crate::intrinsic::{spec_map_function, spec_map_method, map_rust_function_to_slang, map_rust_method_to_slang};
use crate::ir::{FieldType, ParsedField, ParsedFunction, ParsedParam, ShaderType, StructRegistry, SystemValue, spec_lookup};
use crate::text::{spec_contains, spec_decimal, spec_ends_with_char, spec_join, views, contains, decimal, ends_with_char, join, str_eq};

verus! {

/// The Slang spelling of a binary operator; empty for operators that kernels
/// may not use.
pub open spec fn spec_bin_op(op: BinOp) -> Seq<char> {
    match op {
        BinOp::Add => "+"@,
        BinOp::Sub => "-"@,
        BinOp::Mul => "*"@,
        BinOp::Div => "/"@,
        BinOp::Rem => "%"@,
        BinOp::And => "&&"@,
        BinOp::Or => "||"@,
        BinOp::Eq => "=="@,
        BinOp::Lt => "<"@,
        BinOp::Le => "<="@,
        BinOp::Gt => ">"@,
        BinOp::Ge => ">="@,
        BinOp::Ne => "!="@,
        BinOp::AddAssign => "+="@,
        BinOp::SubAssign => "-="@,
        BinOp::MulAssign => "*="@,
        BinOp::DivAssign => "/="@,
        BinOp::RemAssign => "%="@,
        BinOp::Other => Seq::empty(),
    }
}

/// The index of the first name in `names[i..]` equal to `x`.
pub open spec fn spec_position_from(names: Seq<Seq<char>>, x: Seq<char>, i: int) -> Option<int>
    decreases names.len() - i,
{
    if i < 0 || i >= names.len() {
        None
    } else if names[i] == x {
        Some(i)
    } else {
        spec_position_from(names, x, i + 1)
    }
}

/// The index of the first name equal to `x`, if any.
pub open spec fn spec_position(names: Seq<Seq<char>>, x: Seq<char>) -> Option<int> {
    spec_position_from(names, x, 0)
}

/// The index of the first field value in `fvs[i..]` that names member `name`.
pub open spec fn spec_find_member_from(fvs: Seq<FieldValue>, name: Seq<char>, i: int) -> Option<int>
    decreases fvs.len() - i,
{
    if i < 0 || i >= fvs.len() {
        None
    } else if (fvs[i].member matches Member::Named(n) && n@ == name) {
        Some(i)
    } else {
        spec_find_member_from(fvs, name, i + 1)
    }
}

/// The translation of a path that names `id`: scalar parameters are read from
/// the push constants; in a compute kernel a buffer parameter is indexed by the
/// thread index through its binding slot.
pub open spec fn spec_translate_ident(id: Seq<char>, arrays: Seq<Seq<char>>, scalars: Seq<Seq<char>>, shader: ShaderType) -> Seq<char> {
    if spec_position(scalars, id) is Some {
        "pc."@ + id
    } else if spec_position(arrays, id) is Some {
        if shader == ShaderType::Compute {
            id + "["@ + spec_decimal(spec_position(arrays, id)->0 as nat) + "][index]"@
        } else {
            id
        }
    } else {
        id
    }
}

/// A field value of a struct literal after translation: a position field
/// declared with two or three components is widened to a homogeneous `float4`.
pub open spec fn spec_widen_position(f: ParsedField, v: Seq<char>) -> Seq<char> {
    if f.system_value == SystemValue::Position {
        match f.ty {
            FieldType::Float2 => "float4("@ + v + ", 0.0, 1.0)"@,
            FieldType::Float3 => "float4("@ + v + ", 1.0)"@,
            _ => v,
        }
    } else {
        v
    }
}

/// The Slang translation of a kernel expression, or the diagnostic that stops it.
pub open spec fn spec_translate_expr(e: Expr, arrays: Seq<Seq<char>>, scalars: Seq<Seq<char>>, shader: ShaderType, reg: StructRegistry) -> Result<Seq<char>, ErrorView>
    decreases e,
{
    match e {
        Expr::Path(None) => Err(msg("Invalid path"@)),
        Expr::Path(Some(id)) => Ok(spec_translate_ident(id@, arrays, scalars, shader)),
        Expr::Lit(Lit::Float(t)) => Ok(t@),
        Expr::Lit(Lit::Int(t)) => Ok(t@),
        Expr::Lit(Lit::Bool(b)) => Ok(if b { "true"@ } else { "false"@ }),
        Expr::Lit(Lit::Other) => Err(msg("Unsupported literal type on the GPU"@)),
        Expr::Binary(l, op, r) => match spec_translate_expr(*l, arrays, scalars, shader, reg) {
            Err(x) => Err(x),
            Ok(ls) => match spec_translate_expr(*r, arrays, scalars, shader, reg) {
                Err(x) => Err(x),
                Ok(rs) => if spec_bin_op(op).len() == 0 {
                    Err(msg("Unsupported binary operator on the GPU"@))
                } else {
                    Ok("("@ + ls + " "@ + spec_bin_op(op) + " "@ + rs + ")"@)
                },
            },
        },
        Expr::Field(b, m) => match spec_translate_expr(*b, arrays, scalars, shader, reg) {
            Err(x) => Err(x),
            Ok(bs) => match m {
                Member::Named(n) => Ok(bs + "."@ + n@),
                Member::Unnamed => Err(msg("Tuple indices are not supported on the GPU"@)),
            },
        },
        Expr::MethodCall(b, name, args) => match spec_translate_expr(*b, arrays, scalars, shader, reg) {
            Err(x) => Err(x),
            Ok(bs) => match spec_translate_list(args@, args@.len() as int, arrays, scalars, shader, reg) {
                Err(x) => Err(x),
                Ok(avs) => match spec_map_method(name@, bs, avs) {
                    Some(s) => Ok(s),
                    None => Err(msg("Unsupported GPU math method: '"@ + name@ + "'"@)),
                },
            },
        },
        Expr::Call(f, args) => match *f {
            Expr::Path(None) => Err(msg("Invalid function call path"@)),
            Expr::Path(Some(fname)) => match spec_translate_list(args@, args@.len() as int, arrays, scalars, shader, reg) {
                Err(x) => Err(x),
                Ok(avs) => match spec_map_function(fname@, avs) {
                    Some(s) => Ok(s),
                    None => Err(msg("Unsupported GPU math function: '"@ + fname@ + "'"@)),
                },
            },
            _ => Err(msg("Unsupported function call expression"@)),
        },
        Expr::Assign(l, r) => match spec_translate_expr(*l, arrays, scalars, shader, reg) {
            Err(x) => Err(x),
            Ok(ls) => match spec_translate_expr(*r, arrays, scalars, shader, reg) {
                Err(x) => Err(x),
                Ok(rs) => Ok(ls + " = "@ + rs + ";"@),
            },
        },
        Expr::Paren(x) => match spec_translate_expr(*x, arrays, scalars, shader, reg) {
            Err(y) => Err(y),
            Ok(xs) => Ok("("@ + xs + ")"@),
        },
        Expr::Unary(op, x) => match spec_translate_expr(*x, arrays, scalars, shader, reg) {
            Err(y) => Err(y),
            Ok(xs) => match op {
                UnOp::Neg => Ok("-"@ + xs),
                UnOp::Not => Ok("!"@ + xs),
                UnOp::Other => Err(msg("Unsupported unary operator on the GPU"@)),
            },
        },
        Expr::Index(b, i) => match spec_translate_expr(*b, arrays, scalars, shader, reg) {
            Err(x) => Err(x),
            Ok(bs) => match spec_translate_expr(*i, arrays, scalars, shader, reg) {
                Err(x) => Err(x),
                Ok(is) => Ok(bs + "["@ + is + "]"@),
            },
        },
        Expr::Array(elems) => match spec_translate_list(elems@, elems@.len() as int, arrays, scalars, shader, reg) {
            Err(x) => Err(x),
            Ok(evs) => Ok("float"@ + spec_decimal(evs.len()) + "("@ + spec_join(evs, ", "@) + ")"@),
        },
        Expr::Struct(None, _) => Err(msg("Invalid struct path"@)),
        Expr::Struct(Some(sname), fvs) => match spec_lookup(reg, sname@) {
            Err(x) => Err(x),
            Ok(ps) => match spec_struct_lines(ps.fields@, ps.fields@.len() as int, fvs@, arrays, scalars, shader, reg) {
                Err(x) => Err(x),
                Ok(lines) => Ok(spec_join(
                    seq!["    "@ + sname@ + " _tmp;"@] + lines + seq!["    return _tmp;"@],
                    "\n"@,
                )),
            },
        },
        Expr::Other => Err(msg(
            "This statement or expression is too complex to compile to the GPU. Keep math blocks simple."@,
        )),
    }
}

/// The translations of `es[0..k]`, or the first diagnostic among them.
pub open spec fn spec_translate_list(es: Seq<Expr>, k: int, arrays: Seq<Seq<char>>, scalars: Seq<Seq<char>>, shader: ShaderType, reg: StructRegistry) -> Result<Seq<Seq<char>>, ErrorView>
    decreases es, k,
{
    if k <= 0 || k > es.len() {
        Ok(Seq::empty())
    } else {
        match spec_translate_list(es, k - 1, arrays, scalars, shader, reg) {
            Err(x) => Err(x),
            Ok(prev) => match spec_translate_expr(es[k - 1], arrays, scalars, shader, reg) {
                Err(x) => Err(x),
                Ok(s) => Ok(prev.push(s)),
            },
        }
    }
}

/// The assignment lines of a struct literal for the layout fields `fields[0..k]`:
/// one line per layout field that the literal sets, in layout order.
pub open spec fn spec_struct_lines(fields: Seq<ParsedField>, k: int, fvs: Seq<FieldValue>, arrays: Seq<Seq<char>>, scalars: Seq<Seq<char>>, shader: ShaderType, reg: StructRegistry) -> Result<Seq<Seq<char>>, ErrorView>
    decreases fvs, k,
{
    if k <= 0 || k > fields.len() {
        Ok(Seq::empty())
    } else {
        match spec_struct_lines(fields, k - 1, fvs, arrays, scalars, shader, reg) {
            Err(x) => Err(x),
            Ok(prev) => {
                let f = fields[k - 1];
                match spec_find_member_from(fvs, f.name@, 0) {
                    None => Ok(prev),
                    Some(j) => if 0 <= j < fvs.len() {
                        match spec_translate_expr(fvs[j].expr, arrays, scalars, shader, reg) {
                            Err(x) => Err(x),
                            Ok(v) => Ok(prev.push("    _tmp."@ + f.name@ + " = "@ + spec_widen_position(f, v) + ";"@)),
                        }
                    } else {
                        Ok(prev)
                    },
                }
            },
        }
    }
}

/// The Slang line that a kernel statement becomes, or the diagnostic that stops it.
pub open spec fn spec_translate_stmt(s: Stmt, arrays: Seq<Seq<char>>, scalars: Seq<Seq<char>>, shader: ShaderType, reg: StructRegistry) -> Result<Seq<char>, ErrorView> {
    match s {
        Stmt::Local(Pattern::Ident(name, mutable), Some(init)) => match spec_translate_expr(init, arrays, scalars, shader, reg) {
            Err(x) => Err(x),
            Ok(xs) => Ok((if mutable { "var "@ } else { "let "@ }) + name@ + " = "@ + xs + ";"@),
        },
        Stmt::Local(Pattern::Ident(_, _), None) => Err(msg(
            "Variable declarations on the GPU must have an initial value (e.g., let x = 0.0;)."@,
        )),
        Stmt::Local(Pattern::Other, _) => Err(msg(
            "Unsupported variable pattern. Only simple variable names (e.g., let x = ... or let mut x = ...) are allowed on the GPU."@,
        )),
        Stmt::Expr(x, semi) => match spec_translate_expr(x, arrays, scalars, shader, reg) {
            Err(y) => Err(y),
            Ok(xs) => if !semi && shader != ShaderType::Compute {
                if spec_contains(xs, "return"@) { Ok(xs) } else { Ok("return "@ + xs + ";"@) }
            } else if spec_ends_with_char(xs, ';') {
                Ok(xs)
            } else {
                Ok(xs + ";"@)
            },
        },
        Stmt::Other => Err(msg(
            "Unsupported statement inside GPU mathematical blocks. Only local variables (let/let mut) and assignments are allowed."@,
        )),
    }
}

/// The names of the buffer parameters of a kernel, in order.
pub open spec fn spec_array_names(params: Seq<ParsedParam>) -> Seq<Seq<char>>
    decreases params.len(),
{
    if params.len() == 0 {
        Seq::empty()
    } else {
        let rest = spec_array_names(params.drop_last());
        match params.last() {
            ParsedParam::Array(n, _) => rest.push(n@),
            ParsedParam::Scalar(_, _) => rest,
        }
    }
}

/// The names of the scalar parameters of a kernel, in order.
pub open spec fn spec_scalar_names(params: Seq<ParsedParam>) -> Seq<Seq<char>>
    decreases params.len(),
{
    if params.len() == 0 {
        Seq::empty()
    } else {
        let rest = spec_scalar_names(params.drop_last());
        match params.last() {
            ParsedParam::Array(_, _) => rest,
            ParsedParam::Scalar(n, _) => rest.push(n@),
        }
    }
}

/// The indented Slang lines of `stmts[0..k]`, or the first diagnostic.
pub open spec fn spec_body_lines(stmts: Seq<Stmt>, k: int, arrays: Seq<Seq<char>>, scalars: Seq<Seq<char>>, shader: ShaderType, reg: StructRegistry) -> Result<Seq<Seq<char>>, ErrorView>
    decreases k,
{
    if k <= 0 || k > stmts.len() {
        Ok(Seq::empty())
    } else {
        match spec_body_lines(stmts, k - 1, arrays, scalars, shader, reg) {
            Err(x) => Err(x),
            Ok(prev) => match spec_translate_stmt(stmts[k - 1], arrays, scalars, shader, reg) {
                Err(x) => Err(x),
                Ok(line) => Ok(prev.push("    "@ + line)),
            },
        }
    }
}

/// The Slang body of a kernel: each statement on its own indented line.
pub open spec fn spec_translate_body(f: ParsedFunction, reg: StructRegistry) -> Result<Seq<char>, ErrorView> {
    match spec_body_lines(
        f.block@,
        f.block@.len() as int,
        spec_array_names(f.params@),
        spec_scalar_names(f.params@),
        f.shader_type,
        reg,
    ) {
        Err(x) => Err(x),
        Ok(lines) => Ok(spec_join(lines, "\n"@)),
    }
}

/// A diagnostic met among the first `k` list items is the outcome of every
/// longer prefix.
pub proof fn lemma_list_err_persists(es: Seq<Expr>, k: int, m: int, arrays: Seq<Seq<char>>, scalars: Seq<Seq<char>>, shader: ShaderType, reg: StructRegistry)
    requires
        0 <= k <= m <= es.len(),
        spec_translate_list(es, k, arrays, scalars, shader, reg) is Err,
    ensures
        spec_translate_list(es, m, arrays, scalars, shader, reg) == spec_translate_list(es, k, arrays, scalars, shader, reg),
    decreases m - k,
{
    if m > k {
        lemma_list_err_persists(es, k, m - 1, arrays, scalars, shader, reg);
    }
}

/// A diagnostic met among the first `k` layout fields is the outcome of every
/// longer prefix.
pub proof fn lemma_lines_err_persists(fields: Seq<ParsedField>, k: int, m: int, fvs: Seq<FieldValue>, arrays: Seq<Seq<char>>, scalars: Seq<Seq<char>>, shader: ShaderType, reg: StructRegistry)
    requires
        0 <= k <= m <= fields.len(),
        spec_struct_lines(fields, k, fvs, arrays, scalars, shader, reg) is Err,
    ensures
        spec_struct_lines(fields, m, fvs, arrays, scalars, shader, reg) == spec_struct_lines(fields, k, fvs, arrays, scalars, shader, reg),
    decreases m - k,
{
    if m > k {
        lemma_lines_err_persists(fields, k, m - 1, fvs, arrays, scalars, shader, reg);
    }
}

/// A diagnostic met among the first `k` statements is the outcome of every
/// longer prefix.
pub proof fn lemma_body_err_persists(stmts: Seq<Stmt>, k: int, m: int, arrays: Seq<Seq<char>>, scalars: Seq<Seq<char>>, shader: ShaderType, reg: StructRegistry)
    requires
        0 <= k <= m <= stmts.len(),
        spec_body_lines(stmts, k, arrays, scalars, shader, reg) is Err,
    ensures
        spec_body_lines(stmts, m, arrays, scalars, shader, reg) == spec_body_lines(stmts, k, arrays, scalars, shader, reg),
    decreases m - k,
{
    if m > k {
        lemma_body_err_persists(stmts, k, m - 1, arrays, scalars, shader, reg);
    }
}

/// Whether an outcome is a request for a struct layout not loaded yet.
pub open spec fn is_unresolved<T>(r: Result<T, ErrorView>) -> bool {
    r is Err && r->Err_0 is Unresolved
}

/// Whether `small`'s entries come first in `big`.
pub open spec fn registry_extends(small: StructRegistry, big: StructRegistry) -> bool {
    small.entries@.len() <= big.entries@.len() && big.entries@.subrange(0, small.entries@.len() as int) == small.entries@
}

/// A lookup that did not come out unresolved gives the same outcome in any
/// registry that extends the one it was made in.
pub proof fn lemma_lookup_stable(small: StructRegistry, big: StructRegistry, name: Seq<char>)
    requires
        registry_extends(small, big),
        !is_unresolved(spec_lookup(small, name)),
    ensures
        spec_lookup(big, name) == spec_lookup(small, name),
{
    let more = big.entries@.subrange(small.entries@.len() as int, big.entries@.len() as int);
    assert(big.entries@ =~= small.entries@ + more);
    crate::ir::lemma_lookup_extends(small.entries@, more, name, 0);
}

/// Loading more struct layouts never changes a translation that did not ask
/// for one: an expression's translation, once it is not unresolved, is the same
/// in every registry that extends the one it was made in.
pub proof fn lemma_translate_expr_stable(e: Expr, arrays: Seq<Seq<char>>, scalars: Seq<Seq<char>>, shader: ShaderType, small: StructRegistry, big: StructRegistry)
    requires
        registry_extends(small, big),
        !is_unresolved(spec_translate_expr(e, arrays, scalars, shader, small)),
    ensures
        spec_translate_expr(e, arrays, scalars, shader, big) == spec_translate_expr(e, arrays, scalars, shader, small),
    decreases e,
{
    match e {
        Expr::Binary(l, op, r) => {
            lemma_translate_expr_stable(*l, arrays, scalars, shader, small, big);
            if spec_translate_expr(*l, arrays, scalars, shader, small) is Ok {
                lemma_translate_expr_stable(*r, arrays, scalars, shader, small, big);
            }
        }
        Expr::Field(b, _) => {
            lemma_translate_expr_stable(*b, arrays, scalars, shader, small, big);
        }
        Expr::MethodCall(b, _, args) => {
            lemma_translate_expr_stable(*b, arrays, scalars, shader, small, big);
            if spec_translate_expr(*b, arrays, scalars, shader, small) is Ok {
                assert(decreases_to!(e => args));
                lemma_translate_list_stable(args@, args@.len() as int, arrays, scalars, shader, small, big);
            }
        }
        Expr::Call(f, args) => {
            if *f matches Expr::Path(Some(_)) {
                assert(decreases_to!(e => args));
                lemma_translate_list_stable(args@, args@.len() as int, arrays, scalars, shader, small, big);
            }
        }
        Expr::Assign(l, r) => {
            lemma_translate_expr_stable(*l, arrays, scalars, shader, small, big);
            if spec_translate_expr(*l, arrays, scalars, shader, small) is Ok {
                lemma_translate_expr_stable(*r, arrays, scalars, shader, small, big);
            }
        }
        Expr::Paren(x) => {
            lemma_translate_expr_stable(*x, arrays, scalars, shader, small, big);
        }
        Expr::Unary(_, x) => {
            lemma_translate_expr_stable(*x, arrays, scalars, shader, small, big);
        }
        Expr::Index(b, i) => {
            lemma_translate_expr_stable(*b, arrays, scalars, shader, small, big);
            if spec_translate_expr(*b, arrays, scalars, shader, small) is Ok {
                lemma_translate_expr_stable(*i, arrays, scalars, shader, small, big);
            }
        }
        Expr::Array(elems) => {
            assert(decreases_to!(e => elems));
            lemma_translate_list_stable(elems@, elems@.len() as int, arrays, scalars, shader, small, big);
        }
        Expr::Struct(Some(sname), fvs) => {
            lemma_lookup_stable(small, big, sname@);
            if let Ok(ps) = spec_lookup(small, sname@) {
                assert(decreases_to!(e => fvs));
                lemma_struct_lines_stable(ps.fields@, ps.fields@.len() as int, fvs@, arrays, scalars, shader, small, big);
            }
        }
        _ => {}
    }
}

/// The list form of `lemma_translate_expr_stable`.
pub proof fn lemma_translate_list_stable(es: Seq<Expr>, k: int, arrays: Seq<Seq<char>>, scalars: Seq<Seq<char>>, shader: ShaderType, small: StructRegistry, big: StructRegistry)
    requires
        registry_extends(small, big),
        !is_unresolved(spec_translate_list(es, k, arrays, scalars, shader, small)),
    ensures
        spec_translate_list(es, k, arrays, scalars, shader, big) == spec_translate_list(es, k, arrays, scalars, shader, small),
    decreases es, k,
{
    if 0 < k <= es.len() {
        lemma_translate_list_stable(es, k - 1, arrays, scalars, shader, small, big);
        if spec_translate_list(es, k - 1, arrays, scalars, shader, small) is Ok {
            lemma_translate_expr_stable(es[k - 1], arrays, scalars, shader, small, big);
        }
    }
}

/// The struct-literal form of `lemma_translate_expr_stable`.
pub proof fn lemma_struct_lines_stable(fields: Seq<ParsedField>, k: int, fvs: Seq<FieldValue>, arrays: Seq<Seq<char>>, scalars: Seq<Seq<char>>, shader: ShaderType, small: StructRegistry, big: StructRegistry)
    requires
        registry_extends(small, big),
        !is_unresolved(spec_struct_lines(fields, k, fvs, arrays, scalars, shader, small)),
    ensures
        spec_struct_lines(fields, k, fvs, arrays, scalars, shader, big) == spec_struct_lines(fields, k, fvs, arrays, scalars, shader, small),
    decreases fvs, k,
{
    if 0 < k <= fields.len() {
        lemma_struct_lines_stable(fields, k - 1, fvs, arrays, scalars, shader, small, big);
        if spec_struct_lines(fields, k - 1, fvs, arrays, scalars, shader, small) is Ok {
            match spec_find_member_from(fvs, fields[k - 1].name@, 0) {
                Some(j) => {
                    if 0 <= j < fvs.len() {
                        lemma_translate_expr_stable(fvs[j].expr, arrays, scalars, shader, small, big);
                    }
                }
                None => {}
            }
        }
    }
}

/// A statement's translation, once it is not unresolved, is the same in every
/// registry that extends the one it was made in.
pub proof fn lemma_translate_stmt_stable(st: Stmt, arrays: Seq<Seq<char>>, scalars: Seq<Seq<char>>, shader: ShaderType, small: StructRegistry, big: StructRegistry)
    requires
        registry_extends(small, big),
        !is_unresolved(spec_translate_stmt(st, arrays, scalars, shader, small)),
    ensures
        spec_translate_stmt(st, arrays, scalars, shader, big) == spec_translate_stmt(st, arrays, scalars, shader, small),
{
    match st {
        Stmt::Local(Pattern::Ident(_, _), Some(init)) => {
            lemma_translate_expr_stable(init, arrays, scalars, shader, small, big);
        }
        Stmt::Expr(x, _) => {
            lemma_translate_expr_stable(x, arrays, scalars, shader, small, big);
        }
        _ => {}
    }
}

/// The statement-list form of `lemma_translate_stmt_stable`.
pub proof fn lemma_body_lines_stable(stmts: Seq<Stmt>, k: int, arrays: Seq<Seq<char>>, scalars: Seq<Seq<char>>, shader: ShaderType, small: StructRegistry, big: StructRegistry)
    requires
        registry_extends(small, big),
        !is_unresolved(spec_body_lines(stmts, k, arrays, scalars, shader, small)),
    ensures
        spec_body_lines(stmts, k, arrays, scalars, shader, big) == spec_body_lines(stmts, k, arrays, scalars, shader, small),
    decreases k,
{
    if 0 < k <= stmts.len() {
        lemma_body_lines_stable(stmts, k - 1, arrays, scalars, shader, small, big);
        if spec_body_lines(stmts, k - 1, arrays, scalars, shader, small) is Ok {
            lemma_translate_stmt_stable(stmts[k - 1], arrays, scalars, shader, small, big);
        }
    }
}

/// Loading more struct layouts never changes a kernel body's translation that
/// did not ask for one; so the loop that loads each requested layout and
/// translates again ends with the translation that loading every layout up
/// front would give.
pub proof fn lemma_translate_body_stable(f: ParsedFunction, small: StructRegistry, big: StructRegistry)
    requires
        registry_extends(small, big),
        !is_unresolved(spec_translate_body(f, small)),
    ensures
        spec_translate_body(f, big) == spec_translate_body(f, small),
{
    lemma_body_lines_stable(
        f.block@,
        f.block@.len() as int,
        spec_array_names(f.params@),
        spec_scalar_names(f.params@),
        f.shader_type,
        small,
        big,
    );
}

/// Whether a translation result matches its specification.
pub open spec fn same_result(r: Result<String, CodegenError>, s: Result<Seq<char>, ErrorView>) -> bool {
    match (r, s) {
        (Ok(a), Ok(b)) => a@ == b,
        (Err(a), Err(b)) => a@ == b,
        _ => false,
    }
}

/// The Slang text of `l op r` when both operands translate to `ls` and `rs`
/// and `op` is spelled `sym`.
pub open spec fn binary_text(ls: Seq<char>, sym: Seq<char>, rs: Seq<char>) -> Seq<char> {
    "("@ + ls + " "@ + sym + " "@ + rs + ")"@
}

/// Every operator a kernel may use keeps its Rust spelling in Slang: for any
/// operands that translate to `ls` and `rs`, `l < r` becomes `(ls < rs)`,
/// `l > r` becomes `(ls > rs)`, and likewise for every arithmetic, logical,
/// comparison and compound-assignment operator; an operator outside these is
/// refused. No two usable operators share a spelling.
pub proof fn lemma_binary_operators_keep_their_spelling(
    l: Expr,
    r: Expr,
    arrays: Seq<Seq<char>>,
    scalars: Seq<Seq<char>>,
    shader: ShaderType,
    reg: StructRegistry,
)
    requires
        spec_translate_expr(l, arrays, scalars, shader, reg) is Ok,
        spec_translate_expr(r, arrays, scalars, shader, reg) is Ok,
    ensures
        ({
            let ls = ok_text(spec_translate_expr(l, arrays, scalars, shader, reg));
            let rs = ok_text(spec_translate_expr(r, arrays, scalars, shader, reg));
            let t = |op: BinOp| spec_translate_expr(Expr::Binary(Box::new(l), op, Box::new(r)), arrays, scalars, shader, reg);
            &&& t(BinOp::Add) == Ok::<Seq<char>, ErrorView>(binary_text(ls, "+"@, rs))
            &&& t(BinOp::Sub) == Ok::<Seq<char>, ErrorView>(binary_text(ls, "-"@, rs))
            &&& t(BinOp::Mul) == Ok::<Seq<char>, ErrorView>(binary_text(ls, "*"@, rs))
            &&& t(BinOp::Div) == Ok::<Seq<char>, ErrorView>(binary_text(ls, "/"@, rs))
            &&& t(BinOp::Rem) == Ok::<Seq<char>, ErrorView>(binary_text(ls, "%"@, rs))
            &&& t(BinOp::And) == Ok::<Seq<char>, ErrorView>(binary_text(ls, "&&"@, rs))
            &&& t(BinOp::Or) == Ok::<Seq<char>, ErrorView>(binary_text(ls, "||"@, rs))
            &&& t(BinOp::Eq) == Ok::<Seq<char>, ErrorView>(binary_text(ls, "=="@, rs))
            &&& t(BinOp::Lt) == Ok::<Seq<char>, ErrorView>(binary_text(ls, "<"@, rs))
            &&& t(BinOp::Le) == Ok::<Seq<char>, ErrorView>(binary_text(ls, "<="@, rs))
            &&& t(BinOp::Gt) == Ok::<Seq<char>, ErrorView>(binary_text(ls, ">"@, rs))
            &&& t(BinOp::Ge) == Ok::<Seq<char>, ErrorView>(binary_text(ls, ">="@, rs))
            &&& t(BinOp::Ne) == Ok::<Seq<char>, ErrorView>(binary_text(ls, "!="@, rs))
            &&& t(BinOp::AddAssign) == Ok::<Seq<char>, ErrorView>(binary_text(ls, "+="@, rs))
            &&& t(BinOp::SubAssign) == Ok::<Seq<char>, ErrorView>(binary_text(ls, "-="@, rs))
            &&& t(BinOp::MulAssign) == Ok::<Seq<char>, ErrorView>(binary_text(ls, "*="@, rs))
            &&& t(BinOp::DivAssign) == Ok::<Seq<char>, ErrorView>(binary_text(ls, "/="@, rs))
            &&& t(BinOp::RemAssign) == Ok::<Seq<char>, ErrorView>(binary_text(ls, "%="@, rs))
            &&& t(BinOp::Other) is Err
        }),
        forall|a: BinOp, b: BinOp| a != BinOp::Other && b != BinOp::Other && a != b
            ==> #[trigger] spec_bin_op(a) != #[trigger] spec_bin_op(b),
{
    reveal_strlit("+");
    reveal_strlit("-");
    reveal_strlit("*");
    reveal_strlit("/");
    reveal_strlit("%");
    reveal_strlit("&&");
    reveal_strlit("||");
    reveal_strlit("==");
    reveal_strlit("<");
    reveal_strlit("<=");
    reveal_strlit(">");
    reveal_strlit(">=");
    reveal_strlit("!=");
    reveal_strlit("+=");
    reveal_strlit("-=");
    reveal_strlit("*=");
    reveal_strlit("/=");
    reveal_strlit("%=");
    assert forall|a: BinOp, b: BinOp| a != BinOp::Other && b != BinOp::Other && a != b
        implies #[trigger] spec_bin_op(a) != #[trigger] spec_bin_op(b) by {
        let x = spec_bin_op(a);
        let y = spec_bin_op(b);
        if x == y {
            assert(x.len() == y.len());
            assert(x[0] == y[0]);
            if x.len() == 2 {
                assert(x[1] == y[1]);
            }
        }
    }
}

/// The text of a successful translation (empty for a diagnostic).
pub open spec fn ok_text(r: Result<Seq<char>, ErrorView>) -> Seq<char> {
    match r {
        Ok(t) => t,
        Err(_) => Seq::empty(),
    }
}

/// Whether every expression of `es` translates.
pub open spec fn all_translate(es: Seq<Expr>, arrays: Seq<Seq<char>>, scalars: Seq<Seq<char>>, shader: ShaderType, reg: StructRegistry) -> bool {
    forall|i: int| 0 <= i < es.len() ==> #[trigger] spec_translate_expr(es[i], arrays, scalars, shader, reg) is Ok
}

/// The translations of the expressions of `es`, one by one.
pub open spec fn translations(es: Seq<Expr>, arrays: Seq<Seq<char>>, scalars: Seq<Seq<char>>, shader: ShaderType, reg: StructRegistry) -> Seq<Seq<char>> {
    Seq::new(es.len(), |i: int| ok_text(spec_translate_expr(es[i], arrays, scalars, shader, reg)))
}

proof fn lemma_list_elementwise(es: Seq<Expr>, k: int, arrays: Seq<Seq<char>>, scalars: Seq<Seq<char>>, shader: ShaderType, reg: StructRegistry)
    requires
        0 <= k <= es.len(),
    ensures
        spec_translate_list(es, k, arrays, scalars, shader, reg) is Ok
            <==> all_translate(es.take(k), arrays, scalars, shader, reg),
        spec_translate_list(es, k, arrays, scalars, shader, reg) is Ok ==> spec_translate_list(es, k, arrays, scalars, shader, reg)
            == Ok::<Seq<Seq<char>>, ErrorView>(translations(es.take(k), arrays, scalars, shader, reg)),
    decreases k,
{
    if k > 0 {
        lemma_list_elementwise(es, k - 1, arrays, scalars, shader, reg);
        let pre = es.take(k - 1);
        let cur = es.take(k);
        assert forall|i: int| 0 <= i < k - 1 implies #[trigger] cur[i] == pre[i] by {}
        assert(cur[k - 1] == es[k - 1]);
        if all_translate(cur, arrays, scalars, shader, reg) {
            assert forall|i: int| 0 <= i < pre.len() implies #[trigger] spec_translate_expr(pre[i], arrays, scalars, shader, reg) is Ok by {
                assert(spec_translate_expr(cur[i], arrays, scalars, shader, reg) is Ok);
            }
            assert(spec_translate_expr(cur[k - 1], arrays, scalars, shader, reg) is Ok);
        }
        if spec_translate_list(es, k, arrays, scalars, shader, reg) is Ok {
            assert forall|i: int| 0 <= i < cur.len() implies #[trigger] spec_translate_expr(cur[i], arrays, scalars, shader, reg) is Ok by {
                if i < k - 1 {
                    assert(spec_translate_expr(pre[i], arrays, scalars, shader, reg) is Ok);
                }
            }
            assert(translations(pre, arrays, scalars, shader, reg).push(ok_text(spec_translate_expr(es[k - 1], arrays, scalars, shader, reg)))
                =~= translations(cur, arrays, scalars, shader, reg));
        }
    } else {
        assert(es.take(0) =~= Seq::<Expr>::empty());
        assert(translations(es.take(0), arrays, scalars, shader, reg) =~= Seq::<Seq<char>>::empty());
    }
}

/// A method call `receiver.m(a_1, .., a_n)` translates exactly when the
/// receiver and every argument translate and the method mapping of those
/// translations is defined, and then it is that mapping; a call `f(a_1, .., a_n)`
/// whose callee is a path ending in `f` translates exactly when every argument
/// translates and the function mapping of their translations is defined, and
/// then it is that mapping. Otherwise the translation is a diagnostic.
pub proof fn lemma_call_translation(e: Expr, arrays: Seq<Seq<char>>, scalars: Seq<Seq<char>>, shader: ShaderType, reg: StructRegistry)
    ensures
        e matches Expr::MethodCall(b, name, args) ==> {
            let rb = spec_translate_expr(*b, arrays, scalars, shader, reg);
            let mapped = spec_map_method(name@, ok_text(rb), translations(args@, arrays, scalars, shader, reg));
            &&& (spec_translate_expr(e, arrays, scalars, shader, reg) is Ok
                <==> rb is Ok && all_translate(args@, arrays, scalars, shader, reg) && mapped is Some)
            &&& (spec_translate_expr(e, arrays, scalars, shader, reg) is Ok
                ==> spec_translate_expr(e, arrays, scalars, shader, reg) == Ok::<Seq<char>, ErrorView>(mapped->0))
        },
        e matches Expr::Call(f, args) ==> (*f matches Expr::Path(Some(fname)) ==> {
            let mapped = spec_map_function(fname@, translations(args@, arrays, scalars, shader, reg));
            &&& (spec_translate_expr(e, arrays, scalars, shader, reg) is Ok
                <==> all_translate(args@, arrays, scalars, shader, reg) && mapped is Some)
            &&& (spec_translate_expr(e, arrays, scalars, shader, reg) is Ok
                ==> spec_translate_expr(e, arrays, scalars, shader, reg) == Ok::<Seq<char>, ErrorView>(mapped->0))
        }),
{
    match e {
        Expr::MethodCall(b, name, args) => {
            lemma_list_elementwise(args@, args@.len() as int, arrays, scalars, shader, reg);
            assert(args@.take(args@.len() as int) =~= args@);
        },
        Expr::Call(f, args) => {
            lemma_list_elementwise(args@, args@.len() as int, arrays, scalars, shader, reg);
            assert(args@.take(args@.len() as int) =~= args@);
        },
        _ => {},
    }
}

/// The Slang spelling of a binary operator; empty when kernels may not use it.
pub fn translate_bin_op(op: &BinOp) -> (r: &'static str)
    ensures
        r@ == spec_bin_op(*op),
{
    match op {
        BinOp::Add => "+",
        BinOp::Sub => "-",
        BinOp::Mul => "*",
        BinOp::Div => "/",
        BinOp::Rem => "%",
        BinOp::And => "&&",
        BinOp::Or => "||",
        BinOp::Eq => "==",
        BinOp::Lt => "<",
        BinOp::Le => "<=",
        BinOp::Gt => ">",
        BinOp::Ge => ">=",
        BinOp::Ne => "!=",
        BinOp::AddAssign => "+=",
        BinOp::SubAssign => "-=",
        BinOp::MulAssign => "*=",
        BinOp::DivAssign => "/=",
        BinOp::RemAssign => "%=",
        BinOp::Other => {
            proof {
                reveal_strlit("");
            }
            ""
        }
    }
}

/// The index of the first name equal to `x`.
pub fn position(names: &[String], x: &str) -> (r: Option<usize>)
    ensures
        match (r, spec_position(views(names@), x@)) {
            (Some(a), Some(b)) => a == b,
            (None, None) => true,
            _ => false,
        },
{
    let ghost nv = views(names@);
    let mut i: usize = 0;
    while i < names.len()
        invariant
            nv == views(names@),
            i <= names@.len(),
            spec_position(nv, x@) == spec_position_from(nv, x@, i as int),
        decreases names.len() - i,
    {
        if str_eq(names[i].as_str(), x) {
            return Some(i);
        }
        i += 1;
    }
    None
}

fn translate_ident(id: &String, array_params: &[String], scalar_params: &[String], shader_type: ShaderType) -> (r: String)
    ensures
        r@ == spec_translate_ident(id@, views(array_params@), views(scalar_params@), shader_type),
{
    if position(scalar_params, id.as_str()).is_some() {
        let mut s = String::from_str("pc.");
        s.append(id.as_str());
        s
    } else {
        match position(array_params, id.as_str()) {
            Some(slot) => {
                if shader_type == ShaderType::Compute {
                    let mut s = id.clone();
                    s.append("[");
                    let d = decimal(slot as u64);
                    s.append(d.as_str());
                    s.append("][index]");
                    s
                } else {
                    id.clone()
                }
            }
            None => id.clone(),
        }
    }
}

fn widen_position(f: &ParsedField, v: String) -> (r: String)
    ensures
        r@ == spec_widen_position(*f, v@),
{
    if f.system_value == SystemValue::Position {
        match f.ty {
            FieldType::Float2 => cat3("float4(", v.as_str(), ", 0.0, 1.0)"),
            FieldType::Float3 => cat3("float4(", v.as_str(), ", 1.0)"),
            _ => v,
        }
    } else {
        v
    }
}

fn find_member(fvs: &Vec<FieldValue>, name: &String) -> (r: Option<usize>)
    ensures
        match (r, spec_find_member_from(fvs@, name@, 0)) {
            (Some(a), Some(b)) => a == b && a < fvs@.len(),
            (None, None) => true,
            _ => false,
        },
{
    let mut j: usize = 0;
    while j < fvs.len()
        invariant
            j <= fvs@.len(),
            spec_find_member_from(fvs@, name@, 0) == spec_find_member_from(fvs@, name@, j as int),
        decreases fvs.len() - j,
    {
        match &fvs[j].member {
            Member::Named(n) => {
                if str_eq(n.as_str(), name.as_str()) {
                    return Some(j);
                }
            }
            Member::Unnamed => {}
        }
        j += 1;
    }
    None
}

/// Translates a kernel expression into Slang. Struct literals read their
/// layout from `registry`; a layout that is not there yet is reported as
/// `CodegenError::Unresolved`.
pub fn translate_expr(
    expr: &Expr,
    array_params: &[String],
    scalar_params: &[String],
    shader_type: ShaderType,
    registry: &StructRegistry,
) -> (r: Result<String, CodegenError>)
    ensures
        same_result(r, spec_translate_expr(*expr, views(array_params@), views(scalar_params@), shader_type, *registry)),
    decreases expr,
{
    let ghost av = views(array_params@);
    let ghost sv = views(scalar_params@);
    match expr {
        Expr::Path(None) => Err(message("Invalid path")),
        Expr::Path(Some(id)) => Ok(translate_ident(id, array_params, scalar_params, shader_type)),
        Expr::Lit(Lit::Float(t)) => Ok(t.clone()),
        Expr::Lit(Lit::Int(t)) => Ok(t.clone()),
        Expr::Lit(Lit::Bool(b)) => Ok(if *b { String::from_str("true") } else { String::from_str("false") }),
        Expr::Lit(Lit::Other) => Err(message("Unsupported literal type on the GPU")),
        Expr::Binary(l, op, r) => {
            let ls = translate_expr(l, array_params, scalar_params, shader_type, registry)?;
            let rs = translate_expr(r, array_params, scalar_params, shader_type, registry)?;
            let o = translate_bin_op(op);
            if o.unicode_len() == 0 {
                return Err(message("Unsupported binary operator on the GPU"));
            }
            let mut s = String::from_str("(");
            s.append(ls.as_str());
            s.append(" ");
            s.append(o);
            s.append(" ");
            s.append(rs.as_str());
            s.append(")");
            Ok(s)
        }
        Expr::Field(b, m) => {
            let bs = translate_expr(b, array_params, scalar_params, shader_type, registry)?;
            match m {
                Member::Named(n) => Ok(cat3(bs.as_str(), ".", n.as_str())),
                Member::Unnamed => Err(message("Tuple indices are not supported on the GPU")),
            }
        }
        Expr::MethodCall(b, name, args) => {
            let bs = translate_expr(b, array_params, scalar_params, shader_type, registry)?;
            let mut avs: Vec<String> = Vec::new();
            assert(views(avs@) =~= Seq::<Seq<char>>::empty());
            let mut i: usize = 0;
            while i < args.len()
                invariant
                    *expr == Expr::MethodCall(*b, *name, *args),
                    spec_translate_expr(**b, av, sv, shader_type, *registry) == Ok::<Seq<char>, ErrorView>(bs@),
                    av == views(array_params@),
                    sv == views(scalar_params@),
                    i <= args@.len(),
                    spec_translate_list(args@, i as int, av, sv, shader_type, *registry) == Ok::<Seq<Seq<char>>, ErrorView>(views(avs@)),
                decreases args.len() - i,
            {
                proof {
                    assert(decreases_to!(*args => args@));
                    assert(decreases_to!(args@ => args@[i as int]));
                    assert(decreases_to!(*expr => (*expr)->MethodCall_2));
                }
                let ra = translate_expr(&args[i], array_params, scalar_params, shader_type, registry);
                let a = match ra {
                    Ok(a) => a,
                    Err(e) => {
                        proof {
                            lemma_list_err_persists(args@, i + 1, args@.len() as int, av, sv, shader_type, *registry);
                        }
                        return Err(e);
                    }
                };
                let ghost before = views(avs@);
                avs.push(a);
                assert(views(avs@) =~= before.push(a@));
                i += 1;
            }
            match map_rust_method_to_slang(name.as_str(), bs.as_str(), avs.as_slice()) {
                Some(s) => Ok(s),
                None => Err(CodegenError::Message(cat3("Unsupported GPU math method: '", name.as_str(), "'"))),
            }
        }
        Expr::Call(f, args) => {
            let fname = match &**f {
                Expr::Path(None) => { return Err(message("Invalid function call path")); }
                Expr::Path(Some(n)) => n,
                _ => { return Err(message("Unsupported function call expression")); }
            };
            let mut avs: Vec<String> = Vec::new();
            assert(views(avs@) =~= Seq::<Seq<char>>::empty());
            let mut i: usize = 0;
            while i < args.len()
                invariant
                    *expr == Expr::Call(*f, *args),
                    **f == Expr::Path(Some(*fname)),
                    av == views(array_params@),
                    sv == views(scalar_params@),
                    i <= args@.len(),
                    spec_translate_list(args@, i as int, av, sv, shader_type, *registry) == Ok::<Seq<Seq<char>>, ErrorView>(views(avs@)),
                decreases args.len() - i,
            {
                proof {
                    assert(decreases_to!(*args => args@));
                    assert(decreases_to!(args@ => args@[i as int]));
                    assert(decreases_to!(*expr => (*expr)->Call_1));
                }
                let ra = translate_expr(&args[i], array_params, scalar_params, shader_type, registry);
                let a = match ra {
                    Ok(a) => a,
                    Err(e) => {
                        proof {
                            lemma_list_err_persists(args@, i + 1, args@.len() as int, av, sv, shader_type, *registry);
                        }
                        return Err(e);
                    }
                };
                let ghost before = views(avs@);
                avs.push(a);
                assert(views(avs@) =~= before.push(a@));
                i += 1;
            }
            match map_rust_function_to_slang(fname.as_str(), avs.as_slice()) {
                Some(s) => Ok(s),
                None => Err(CodegenError::Message(cat3("Unsupported GPU math function: '", fname.as_str(), "'"))),
            }
        }
        Expr::Assign(l, r) => {
            let ls = translate_expr(l, array_params, scalar_params, shader_type, registry)?;
            let rs = translate_expr(r, array_params, scalar_params, shader_type, registry)?;
            let mut s = ls;
            s.append(" = ");
            s.append(rs.as_str());
            s.append(";");
            Ok(s)
        }
        Expr::Paren(x) => {
            let xs = translate_expr(x, array_params, scalar_params, shader_type, registry)?;
            Ok(cat3("(", xs.as_str(), ")"))
        }
        Expr::Unary(op, x) => {
            let xs = translate_expr(x, array_params, scalar_params, shader_type, registry)?;
            match op {
                UnOp::Neg => Ok(cat("-", xs.as_str())),
                UnOp::Not => Ok(cat("!", xs.as_str())),
                UnOp::Other => Err(message("Unsupported unary operator on the GPU")),
            }
        }
        Expr::Index(b, i) => {
            let bs = translate_expr(b, array_params, scalar_params, shader_type, registry)?;
            let is = translate_expr(i, array_params, scalar_params, shader_type, registry)?;
            let mut s = bs;
            s.append("[");
            s.append(is.as_str());
            s.append("]");
            Ok(s)
        }
        Expr::Array(elems) => {
            let mut evs: Vec<String> = Vec::new();
            assert(views(evs@) =~= Seq::<Seq<char>>::empty());
            let mut i: usize = 0;
            while i < elems.len()
                invariant
                    *expr == Expr::Array(*elems),
                    av == views(array_params@),
                    sv == views(scalar_params@),
                    i <= elems@.len(),
                    evs@.len() == i,
                    spec_translate_list(elems@, i as int, av, sv, shader_type, *registry) == Ok::<Seq<Seq<char>>, ErrorView>(views(evs@)),
                decreases elems.len() - i,
            {
                proof {
                    assert(decreases_to!(*elems => elems@));
                    assert(decreases_to!(elems@ => elems@[i as int]));
                    assert(decreases_to!(*expr => (*expr)->Array_0));
                }
                let ra = translate_expr(&elems[i], array_params, scalar_params, shader_type, registry);
                let a = match ra {
                    Ok(a) => a,
                    Err(e) => {
                        proof {
                            lemma_list_err_persists(elems@, i + 1, elems@.len() as int, av, sv, shader_type, *registry);
                        }
                        return Err(e);
                    }
                };
                let ghost before = views(evs@);
                evs.push(a);
                assert(views(evs@) =~= before.push(a@));
                i += 1;
            }
            let mut s = String::from_str("float");
            let d = decimal(evs.len() as u64);
            s.append(d.as_str());
            s.append("(");
            let j = join(&evs, ", ");
            s.append(j.as_str());
            s.append(")");
            Ok(s)
        }
        Expr::Struct(None, _) => Err(message("Invalid struct path")),
        Expr::Struct(Some(sname), fvs) => {
            let ps = registry.lookup(sname.as_str())?;
            let mut lines: Vec<String> = Vec::new();
            lines.push(cat3("    ", sname.as_str(), " _tmp;"));
            let ghost first = "    "@ + sname@ + " _tmp;"@;
            assert(views(lines@).drop_first() =~= Seq::<Seq<char>>::empty());
            let mut k: usize = 0;
            while k < ps.fields.len()
                invariant
                    *expr == Expr::Struct(Some(*sname), *fvs),
                    spec_lookup(*registry, sname@) == Ok::<crate::ir::ParsedStruct, ErrorView>(*ps),
                    av == views(array_params@),
                    sv == views(scalar_params@),
                    k <= ps.fields@.len(),
                    views(lines@).len() >= 1,
                    views(lines@)[0] == first,
                    spec_struct_lines(ps.fields@, k as int, fvs@, av, sv, shader_type, *registry)
                        == Ok::<Seq<Seq<char>>, ErrorView>(views(lines@).drop_first()),
                decreases ps.fields.len() - k,
            {
                let f = &ps.fields[k];
                match find_member(fvs, &f.name) {
                    None => {}
                    Some(j) => {
                        proof {
                            assert(decreases_to!(*fvs => fvs@));
                            assert(decreases_to!(fvs@ => fvs@[j as int]));
                            assert(decreases_to!(fvs@[j as int] => fvs@[j as int].expr));
                            assert(decreases_to!(*expr => (*expr)->Struct_1));
                        }
                        let rv = translate_expr(&fvs[j].expr, array_params, scalar_params, shader_type, registry);
                        let v = match rv {
                            Ok(v) => v,
                            Err(e) => {
                                proof {
                                    lemma_lines_err_persists(ps.fields@, k + 1, ps.fields@.len() as int, fvs@, av, sv, shader_type, *registry);
                                }
                                return Err(e);
                            }
                        };
                        let w = widen_position(f, v);
                        let mut line = String::from_str("    _tmp.");
                        line.append(f.name.as_str());
                        line.append(" = ");
                        line.append(w.as_str());
                        line.append(";");
                        let ghost before = views(lines@);
                        lines.push(line);
                        assert(views(lines@) =~= before.push(line@));
                        assert(views(lines@).drop_first() =~= before.drop_first().push(line@));
                    }
                }
                k += 1;
            }
            let ghost before = views(lines@);
            lines.push(String::from_str("    return _tmp;"));
            assert(views(lines@) =~= seq![first] + before.drop_first() + seq!["    return _tmp;"@]);
            Ok(join(&lines, "\n"))
        }
        Expr::Other => Err(message(
            "This statement or expression is too complex to compile to the GPU. Keep math blocks simple.",
        )),
    }
}

/// Translates one kernel statement into one line of Slang.
pub fn translate_stmt(
    stmt: &Stmt,
    array_params: &[String],
    scalar_params: &[String],
    shader_type: ShaderType,
    registry: &StructRegistry,
) -> (r: Result<String, CodegenError>)
    ensures
        same_result(r, spec_translate_stmt(*stmt, views(array_params@), views(scalar_params@), shader_type, *registry)),
{
    match stmt {
        Stmt::Local(Pattern::Other, _) => Err(message(
            "Unsupported variable pattern. Only simple variable names (e.g., let x = ... or let mut x = ...) are allowed on the GPU.",
        )),
        Stmt::Local(Pattern::Ident(_, _), None) => Err(message(
            "Variable declarations on the GPU must have an initial value (e.g., let x = 0.0;).",
        )),
        Stmt::Local(Pattern::Ident(name, mutable), Some(init)) => {
            let xs = translate_expr(init, array_params, scalar_params, shader_type, registry)?;
            let mut s = if *mutable { String::from_str("var ") } else { String::from_str("let ") };
            s.append(name.as_str());
            s.append(" = ");
            s.append(xs.as_str());
            s.append(";");
            Ok(s)
        }
        Stmt::Expr(x, semi) => {
            let xs = translate_expr(x, array_params, scalar_params, shader_type, registry)?;
            if !*semi && shader_type != ShaderType::Compute {
                if contains(xs.as_str(), "return") {
                    Ok(xs)
                } else {
                    Ok(cat3("return ", xs.as_str(), ";"))
                }
            } else if ends_with_char(xs.as_str(), ';') {
                Ok(xs)
            } else {
                let mut s = xs;
                s.append(";");
                Ok(s)
            }
        }
        Stmt::Other => Err(message(
            "Unsupported statement inside GPU mathematical blocks. Only local variables (let/let mut) and assignments are allowed.",
        )),
    }
}

/// The names of the buffer parameters and of the scalar parameters, in order.
pub fn param_names(params: &Vec<ParsedParam>) -> (r: (Vec<String>, Vec<String>))
    ensures
        views(r.0@) == spec_array_names(params@),
        views(r.1@) == spec_scalar_names(params@),
{
    let mut arrays: Vec<String> = Vec::new();
    let mut scalars: Vec<String> = Vec::new();
    let mut i: usize = 0;
    while i < params.len()
        invariant
            i <= params@.len(),
            views(arrays@) == spec_array_names(params@.subrange(0, i as int)),
            views(scalars@) == spec_scalar_names(params@.subrange(0, i as int)),
        decreases params.len() - i,
    {
        assert(params@.subrange(0, i + 1).drop_last() =~= params@.subrange(0, i as int));
        match &params[i] {
            ParsedParam::Array(n, _) => {
                arrays.push(n.clone());
                assert(views(arrays@) =~= views(arrays@).drop_last().push(n@));
            }
            ParsedParam::Scalar(n, _) => {
                scalars.push(n.clone());
                assert(views(scalars@) =~= views(scalars@).drop_last().push(n@));
            }
        }
        i += 1;
    }
    assert(params@.subrange(0, params@.len() as int) =~= params@);
    (arrays, scalars)
}

/// Translates the body of a kernel: each statement becomes one line indented
/// by four spaces, and the lines are joined by newlines.
pub fn translate_function_body(func: &ParsedFunction, registry: &StructRegistry) -> (r: Result<String, CodegenError>)
    ensures
        same_result(r, spec_translate_body(*func, *registry)),
{
    let (arrays, scalars) = param_names(&func.params);
    let ghost av = views(arrays@);
    let ghost sv = views(scalars@);
    let mut lines: Vec<String> = Vec::new();
    assert(views(lines@) =~= Seq::<Seq<char>>::empty());
    let mut i: usize = 0;
    while i < func.block.len()
        invariant
            av == views(arrays@),
            sv == views(scalars@),
            av == spec_array_names(func.params@),
            sv == spec_scalar_names(func.params@),
            i <= func.block@.len(),
            spec_body_lines(func.block@, i as int, av, sv, func.shader_type, *registry)
                == Ok::<Seq<Seq<char>>, ErrorView>(views(lines@)),
        decreases func.block.len() - i,
    {
        let rl = translate_stmt(&func.block[i], arrays.as_slice(), scalars.as_slice(), func.shader_type, registry);
        let line = match rl {
            Ok(l) => l,
            Err(e) => {
                proof {
                    lemma_body_err_persists(func.block@, i + 1, func.block@.len() as int, av, sv, func.shader_type, *registry);
                }
                return Err(e);
            }
        };
        let ghost before = views(lines@);
        let indented = cat("    ", line.as_str());
        lines.push(indented);
        assert(views(lines@) =~= before.push(indented@));
        i += 1;
    }
    Ok(join(&lines, "\n"))
}

} // verus!
