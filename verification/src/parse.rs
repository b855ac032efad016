//! The front end: GPU struct declarations and kernel signatures, read into the
//! intermediate representation.
use vstd::prelude::*;
use crate::ast::{AttrInput, DataInput, DeriveInput, FieldInput, FnInput, LenAst, MetaItem, ParamInput, TypeAst};
use crate::error::{CodegenError, ErrorView, msg, message, cat3};
use crate::ir::{FieldType, ParsedField, ParsedFunction, ParsedParam, ParsedStruct, ShaderType, SystemValue};
use crate::text::str_eq;

verus! {

/// Whether every character of `s` is an ASCII digit.
pub open spec fn spec_all_digits(s: Seq<char>) -> bool {
    forall|i: int| 0 <= i < s.len() ==> '0' <= #[trigger] s[i] <= '9'
}

/// The number that the ASCII digits `s` denote in base 10.
pub open spec fn spec_digits_value(s: Seq<char>) -> nat
    decreases s.len(),
{
    if s.len() == 0 {
        0
    } else {
        spec_digits_value(s.drop_last()) * 10 + ((s.last() as nat) - ('0' as nat)) as nat
    }
}

/// What `s.parse::<usize>()` gives: an optional `+`, then at least one digit,
/// denoting a value that fits in `usize`.
pub open spec fn spec_parse_usize(s: Seq<char>) -> Option<nat> {
    let body = if s.len() > 0 && s[0] == '+' { s.drop_first() } else { s };
    if body.len() > 0 && spec_all_digits(body) && spec_digits_value(body) <= usize::MAX {
        Some(spec_digits_value(body))
    } else {
        None
    }
}

/// The text of the error that reading an integer literal too large for its
/// target type reports.
pub open spec fn spec_overflow_message() -> Seq<char> {
    "number too large to fit in target type"@
}

/// The vector type with `n` components of element type `et`, if GPU structs
/// support it.
pub open spec fn spec_vector_type(et: FieldType, n: nat) -> Option<FieldType> {
    match et {
        FieldType::Float => if n == 2 {
            Some(FieldType::Float2)
        } else if n == 3 {
            Some(FieldType::Float3)
        } else if n == 4 {
            Some(FieldType::Float4)
        } else {
            None
        },
        FieldType::Int => if n == 2 {
            Some(FieldType::Int2)
        } else if n == 3 {
            Some(FieldType::Int3)
        } else if n == 4 {
            Some(FieldType::Int4)
        } else {
            None
        },
        _ => None,
    }
}

/// The field type a struct field declares, or the diagnostic for a type that
/// GPU structs may not hold.
pub open spec fn spec_parse_type(ty: TypeAst) -> Result<FieldType, ErrorView>
    decreases ty,
{
    match ty {
        TypeAst::Path(None) => Err(msg("Invalid or empty type path"@)),
        TypeAst::Path(Some(n)) => if n@ == "f32"@ {
            Ok(FieldType::Float)
        } else if n@ == "i32"@ {
            Ok(FieldType::Int)
        } else if n@ == "u32"@ {
            Ok(FieldType::Uint)
        } else {
            Err(msg(
                "Unsupported primitive GPU type: '"@ + n@
                    + "'. Only f32, i32, and u32 are supported in EnkiStruct."@,
            ))
        },
        TypeAst::Array(elem, len) => match spec_parse_type(*elem) {
            Err(x) => Err(x),
            Ok(et) => match len {
                LenAst::Int(d) => match spec_parse_usize(d@) {
                    None => Err(msg(spec_overflow_message())),
                    Some(n) => match spec_vector_type(et, n) {
                        Some(v) => Ok(v),
                        None => Err(msg(
                            "Unsupported GPU vector dimensions. Supported array vector dimensions are 2, 3, or 4 (e.g., [f32; 3] or [i32; 4])."@,
                        )),
                    },
                },
                LenAst::OtherLit => Err(msg("Array dimensions length must be an integer literal."@)),
                LenAst::NotLit => Err(msg("Array dimensions length must be a constant literal."@)),
            },
        },
        TypeAst::Other => Err(msg(
            "Unsupported GPU memory type. GPU structures can only contain primitives (f32, i32, u32) or standard float/int vectors."@,
        )),
    }
}

/// The system value that a flag of `#[enki(...)]` names.
pub open spec fn spec_flag_value(name: Seq<char>) -> Option<SystemValue> {
    if name == "position"@ {
        Some(SystemValue::Position)
    } else if name == "depth"@ {
        Some(SystemValue::Depth)
    } else if name == "vertex_id"@ {
        Some(SystemValue::VertexId)
    } else if name == "instance_id"@ {
        Some(SystemValue::InstanceId)
    } else if name == "flat"@ {
        Some(SystemValue::Flat)
    } else if name == "point_size"@ {
        Some(SystemValue::PointSize)
    } else {
        None
    }
}

/// The system value after the items `items[0..k]` of one attribute, starting
/// from `sv`: each item replaces the value; an unknown item stops with a diagnostic.
pub open spec fn spec_apply_items(items: Seq<MetaItem>, k: int, sv: SystemValue) -> Result<SystemValue, ErrorView>
    decreases k,
{
    if k <= 0 || k > items.len() {
        Ok(sv)
    } else {
        match spec_apply_items(items, k - 1, sv) {
            Err(x) => Err(x),
            Ok(cur) => match items[k - 1] {
                MetaItem::Target(t) => Ok(SystemValue::Target(t)),
                MetaItem::Flag(n) => match spec_flag_value(n@) {
                    Some(v) => Ok(v),
                    None => Err(msg("Unsupported parameter inside #[enki(...)] attribute"@)),
                },
            },
        }
    }
}

/// The system value after one attribute, starting from `sv`.
pub open spec fn spec_apply_attr(a: AttrInput, sv: SystemValue) -> Result<SystemValue, ErrorView> {
    if !a.is_enki {
        Ok(sv)
    } else {
        match spec_apply_items(a.items@, a.items@.len() as int, sv) {
            Err(x) => Err(x),
            Ok(v) => match a.syntax_error {
                Some(m) => Err(msg(m@)),
                None => Ok(v),
            },
        }
    }
}

/// The system value that the attributes `attrs[0..k]` of a field give; the
/// last `enki` item wins, and a field without one is `Plain`.
pub open spec fn spec_parse_attrs(attrs: Seq<AttrInput>, k: int) -> Result<SystemValue, ErrorView>
    decreases k,
{
    if k <= 0 || k > attrs.len() {
        Ok(SystemValue::Plain)
    } else {
        match spec_parse_attrs(attrs, k - 1) {
            Err(x) => Err(x),
            Ok(sv) => spec_apply_attr(attrs[k - 1], sv),
        }
    }
}

/// The parsed form of one struct field.
pub open spec fn spec_parse_field(f: FieldInput) -> Result<ParsedField, ErrorView> {
    match f.ident {
        None => Err(msg("Field must have a valid identifier name"@)),
        Some(n) => match spec_parse_type(f.ty) {
            Err(x) => Err(x),
            Ok(t) => match spec_parse_attrs(f.attrs@, f.attrs@.len() as int) {
                Err(x) => Err(x),
                Ok(sv) => Ok(ParsedField { name: n, ty: t, system_value: sv }),
            },
        },
    }
}

/// The parsed forms of `fields[0..k]`, or the first diagnostic.
pub open spec fn spec_parse_fields(fields: Seq<FieldInput>, k: int) -> Result<Seq<ParsedField>, ErrorView>
    decreases k,
{
    if k <= 0 || k > fields.len() {
        Ok(Seq::empty())
    } else {
        match spec_parse_fields(fields, k - 1) {
            Err(x) => Err(x),
            Ok(prev) => match spec_parse_field(fields[k - 1]) {
                Err(x) => Err(x),
                Ok(pf) => Ok(prev.push(pf)),
            },
        }
    }
}

/// The fields of a GPU struct, or the diagnostic for an item the derive does not accept.
pub open spec fn spec_parse_struct(input: DeriveInput) -> Result<Seq<ParsedField>, ErrorView> {
    match input.data {
        DataInput::NotStruct => Err(msg(
            "EnkiStruct can only be derived on standard structs with named fields."@,
        )),
        DataInput::Unnamed => Err(msg(
            "EnkiStruct only supports standard structs with named fields (e.g., struct MyStruct { field: Type })."@,
        )),
        DataInput::Named(fields) => spec_parse_fields(fields@, fields@.len() as int),
    }
}

/// The kernel parameter that one signature input becomes.
pub open spec fn spec_parse_param(p: ParamInput) -> Result<ParsedParam, ErrorView> {
    match p {
        ParamInput::Receiver => Err(msg(
            "Enki GPU kernels do not support 'self' parameters. They must be regular static or global functions."@,
        )),
        ParamInput::Typed(None, _) => Err(msg(
            "Unsupported parameter pattern. Only simple, direct variable names are supported on the GPU."@,
        )),
        ParamInput::Typed(Some(n), ty) => match ty {
            TypeAst::Path(None) => Err(msg("Invalid or empty parameter type path"@)),
            TypeAst::Path(Some(t)) => if t@ == "f32"@ {
                Ok(ParsedParam::Scalar(n, FieldType::Float))
            } else if t@ == "i32"@ {
                Ok(ParsedParam::Scalar(n, FieldType::Int))
            } else if t@ == "u32"@ {
                Ok(ParsedParam::Scalar(n, FieldType::Uint))
            } else {
                Ok(ParsedParam::Array(n, t))
            },
            _ => Err(msg(
                "Unsupported GPU function parameter type. Must be a primitive (f32, i32, u32) or a custom EnkiStruct."@,
            )),
        },
    }
}

/// The kernel parameters of `inputs[0..k]`, or the first diagnostic.
pub open spec fn spec_parse_params(inputs: Seq<ParamInput>, k: int) -> Result<Seq<ParsedParam>, ErrorView>
    decreases k,
{
    if k <= 0 || k > inputs.len() {
        Ok(Seq::empty())
    } else {
        match spec_parse_params(inputs, k - 1) {
            Err(x) => Err(x),
            Ok(prev) => match spec_parse_param(inputs[k - 1]) {
                Err(x) => Err(x),
                Ok(p) => Ok(prev.push(p)),
            },
        }
    }
}

/// Whether a return type can be read: an array return type must name its
/// element type by a non-empty path.
pub open spec fn return_type_readable(output: Option<TypeAst>) -> bool {
    match output {
        Some(TypeAst::Array(elem, _)) => !(*elem matches TypeAst::Path(None)),
        _ => true,
    }
}

/// The name of the return type of a kernel: a path type gives its first
/// segment; `[f32; 2]`, `[f32; 3]`, `[f32; 4]` give `float2`, `float3`, `float4`;
/// anything else gives none.
pub open spec fn spec_parse_return(output: Option<TypeAst>) -> Result<Option<Seq<char>>, ErrorView> {
    match output {
        None => Ok(None),
        Some(TypeAst::Path(None)) => Err(msg("Invalid return type path"@)),
        Some(TypeAst::Path(Some(t))) => Ok(Some(t@)),
        Some(TypeAst::Array(elem, len)) => match *elem {
            TypeAst::Path(Some(en)) => if en@ == "f32"@ {
                match len {
                    LenAst::Int(d) => match spec_parse_usize(d@) {
                        Some(n) => if n == 2 {
                            Ok(Some("float2"@))
                        } else if n == 3 {
                            Ok(Some("float3"@))
                        } else if n == 4 {
                            Ok(Some("float4"@))
                        } else {
                            Ok(None)
                        },
                        None => Ok(None),
                    },
                    _ => Ok(None),
                }
            } else {
                Ok(None)
            },
            _ => Ok(None),
        },
        Some(TypeAst::Other) => Ok(None),
    }
}

/// Reads a string as `str::parse::<usize>` does.
pub fn parse_usize(s: &str) -> (r: Option<usize>)
    ensures
        match (r, spec_parse_usize(s@)) {
            (Some(a), Some(b)) => a == b,
            (None, None) => true,
            _ => false,
        },
{
    let cs = crate::text::chars_of(s);
    let n = cs.len();
    let start: usize = if n > 0 && cs[0] == '+' { 1 } else { 0 };
    let ghost body = if s@.len() > 0 && s@[0] == '+' { s@.drop_first() } else { s@ };
    assert(body =~= s@.subrange(start as int, n as int));
    if start == n {
        assert(body.len() == 0);
        return None;
    }
    let mut acc: usize = 0;
    let mut i: usize = start;
    while i < n
        invariant
            cs@ == s@,
            n == s@.len(),
            start <= i <= n,
            body == s@.subrange(start as int, n as int),
            body == (if s@.len() > 0 && s@[0] == '+' { s@.drop_first() } else { s@ }),
            spec_all_digits(s@.subrange(start as int, i as int)),
            acc == spec_digits_value(s@.subrange(start as int, i as int)),
        decreases n - i,
    {
        let c = cs[i];
        if !('0' <= c && c <= '9') {
            assert(!spec_all_digits(body)) by {
                assert(body[i - start] == c);
            }
            return None;
        }
        let ghost pre = s@.subrange(start as int, i as int);
        let ghost nxt = s@.subrange(start as int, i + 1);
        assert(nxt.drop_last() =~= pre);
        assert(nxt.last() == c);
        let d: usize = (c as u32 - '0' as u32) as usize;
        assert(d as nat == (c as nat) - ('0' as nat));
        if acc > (usize::MAX - d) / 10 {
            proof {
                assert(spec_digits_value(nxt) > usize::MAX) by (nonlinear_arith)
                    requires
                        spec_digits_value(nxt) == acc * 10 + d,
                        acc > (usize::MAX - d) / 10,
                        d <= 9,
                ;
                assert(spec_all_digits(nxt)) by {
                    assert forall|t: int| 0 <= t < nxt.len() implies '0' <= #[trigger] nxt[t] <= '9' by {
                        if t < nxt.len() - 1 {
                            assert(nxt[t] == pre[t]);
                        }
                    }
                }
                assert(body.subrange(0, i + 1 - start) =~= nxt);
                lemma_value_grows(body, i + 1 - start);
            }
            return None;
        }
        assert(acc * 10 + d <= usize::MAX) by (nonlinear_arith)
            requires
                acc <= (usize::MAX - d) / 10,
                d <= 9,
        ;
        acc = acc * 10 + d;
        i += 1;
    }
    assert(s@.subrange(start as int, n as int) =~= body);
    Some(acc)
}

/// The value of a digit string is at least the value of each of its prefixes.
pub proof fn lemma_value_grows(s: Seq<char>, k: int)
    requires
        0 <= k <= s.len(),
        spec_all_digits(s.subrange(0, k)),
    ensures
        spec_all_digits(s) ==> spec_digits_value(s) >= spec_digits_value(s.subrange(0, k)),
    decreases s.len() - k,
{
    if k < s.len() && spec_all_digits(s) {
        let t = s.subrange(0, k + 1);
        assert(t.drop_last() =~= s.subrange(0, k));
        assert(spec_all_digits(t));
        lemma_value_grows(s, k + 1);
    } else if k == s.len() {
        assert(s.subrange(0, k) =~= s);
    }
}

/// Reads the field type that a struct field declares.
pub fn parse_type(ty: &TypeAst) -> (r: Result<FieldType, CodegenError>)
    ensures
        match (r, spec_parse_type(*ty)) {
            (Ok(a), Ok(b)) => a == b,
            (Err(a), Err(b)) => a@ == b,
            _ => false,
        },
    decreases ty,
{
    match ty {
        TypeAst::Path(None) => Err(message("Invalid or empty type path")),
        TypeAst::Path(Some(n)) => {
            if str_eq(n.as_str(), "f32") {
                Ok(FieldType::Float)
            } else if str_eq(n.as_str(), "i32") {
                Ok(FieldType::Int)
            } else if str_eq(n.as_str(), "u32") {
                Ok(FieldType::Uint)
            } else {
                Err(CodegenError::Message(cat3(
                    "Unsupported primitive GPU type: '",
                    n.as_str(),
                    "'. Only f32, i32, and u32 are supported in EnkiStruct.",
                )))
            }
        }
        TypeAst::Array(elem, len) => {
            let et = parse_type(elem)?;
            let n = match len {
                LenAst::Int(d) => match parse_usize(d.as_str()) {
                    Some(n) => n,
                    None => { return Err(message("number too large to fit in target type")); }
                },
                LenAst::OtherLit => { return Err(message("Array dimensions length must be an integer literal.")); }
                LenAst::NotLit => { return Err(message("Array dimensions length must be a constant literal.")); }
            };
            match (et, n) {
                (FieldType::Float, 2) => Ok(FieldType::Float2),
                (FieldType::Float, 3) => Ok(FieldType::Float3),
                (FieldType::Float, 4) => Ok(FieldType::Float4),
                (FieldType::Int, 2) => Ok(FieldType::Int2),
                (FieldType::Int, 3) => Ok(FieldType::Int3),
                (FieldType::Int, 4) => Ok(FieldType::Int4),
                _ => Err(message(
                    "Unsupported GPU vector dimensions. Supported array vector dimensions are 2, 3, or 4 (e.g., [f32; 3] or [i32; 4]).",
                )),
            }
        }
        TypeAst::Other => Err(message(
            "Unsupported GPU memory type. GPU structures can only contain primitives (f32, i32, u32) or standard float/int vectors.",
        )),
    }
}

fn flag_value(name: &str) -> (r: Option<SystemValue>)
    ensures
        r == spec_flag_value(name@),
{
    if str_eq(name, "position") {
        Some(SystemValue::Position)
    } else if str_eq(name, "depth") {
        Some(SystemValue::Depth)
    } else if str_eq(name, "vertex_id") {
        Some(SystemValue::VertexId)
    } else if str_eq(name, "instance_id") {
        Some(SystemValue::InstanceId)
    } else if str_eq(name, "flat") {
        Some(SystemValue::Flat)
    } else if str_eq(name, "point_size") {
        Some(SystemValue::PointSize)
    } else {
        None
    }
}

/// Whether `name` is a flag that `#[enki(...)]` accepts without a value; the
/// one item that takes a value is `target`.
pub fn is_known_flag(name: &str) -> (r: bool)
    ensures
        r == (spec_flag_value(name@) is Some),
{
    flag_value(name).is_some()
}

proof fn lemma_items_err_persists(items: Seq<MetaItem>, k: int, m: int, sv: SystemValue)
    requires
        0 <= k <= m <= items.len(),
        spec_apply_items(items, k, sv) is Err,
    ensures
        spec_apply_items(items, m, sv) == spec_apply_items(items, k, sv),
    decreases m - k,
{
    if m > k {
        lemma_items_err_persists(items, k, m - 1, sv);
    }
}

proof fn lemma_attrs_err_persists(attrs: Seq<AttrInput>, k: int, m: int)
    requires
        0 <= k <= m <= attrs.len(),
        spec_parse_attrs(attrs, k) is Err,
    ensures
        spec_parse_attrs(attrs, m) == spec_parse_attrs(attrs, k),
    decreases m - k,
{
    if m > k {
        lemma_attrs_err_persists(attrs, k, m - 1);
    }
}

/// Reads the system value that the attributes of a struct field give it.
pub fn parse_field_attributes(attrs: &Vec<AttrInput>) -> (r: Result<SystemValue, CodegenError>)
    ensures
        match (r, spec_parse_attrs(attrs@, attrs@.len() as int)) {
            (Ok(a), Ok(b)) => a == b,
            (Err(a), Err(b)) => a@ == b,
            _ => false,
        },
{
    let mut sv = SystemValue::Plain;
    let mut i: usize = 0;
    while i < attrs.len()
        invariant
            i <= attrs@.len(),
            spec_parse_attrs(attrs@, i as int) == Ok::<SystemValue, ErrorView>(sv),
        decreases attrs.len() - i,
    {
        let a = &attrs[i];
        if a.is_enki {
            let ghost start = sv;
            let mut j: usize = 0;
            while j < a.items.len()
                invariant
                    i < attrs@.len(),
                    *a == attrs@[i as int],
                    a.is_enki,
                    spec_parse_attrs(attrs@, i as int) == Ok::<SystemValue, ErrorView>(start),
                    j <= a.items@.len(),
                    spec_apply_items(a.items@, j as int, start) == Ok::<SystemValue, ErrorView>(sv),
                decreases a.items.len() - j,
            {
                match &a.items[j] {
                    MetaItem::Target(t) => {
                        sv = SystemValue::Target(*t);
                    }
                    MetaItem::Flag(n) => match flag_value(n.as_str()) {
                        Some(v) => {
                            sv = v;
                        }
                        None => {
                            proof {
                                lemma_items_err_persists(a.items@, j + 1, a.items@.len() as int, start);
                                lemma_attrs_err_persists(attrs@, i + 1, attrs@.len() as int);
                            }
                            return Err(message("Unsupported parameter inside #[enki(...)] attribute"));
                        }
                    },
                }
                j += 1;
            }
            match &a.syntax_error {
                Some(m) => {
                    proof {
                        lemma_attrs_err_persists(attrs@, i + 1, attrs@.len() as int);
                    }
                    return Err(CodegenError::Message(m.clone()));
                }
                None => {}
            }
        }
        i += 1;
    }
    Ok(sv)
}

fn parse_field(f: &FieldInput) -> (r: Result<ParsedField, CodegenError>)
    ensures
        match (r, spec_parse_field(*f)) {
            (Ok(a), Ok(b)) => a == b,
            (Err(a), Err(b)) => a@ == b,
            _ => false,
        },
{
    let name = match &f.ident {
        Some(n) => n.clone(),
        None => { return Err(message("Field must have a valid identifier name")); }
    };
    let ty = parse_type(&f.ty)?;
    let system_value = parse_field_attributes(&f.attrs)?;
    Ok(ParsedField { name, ty, system_value })
}

proof fn lemma_fields_err_persists(fields: Seq<FieldInput>, k: int, m: int)
    requires
        0 <= k <= m <= fields.len(),
        spec_parse_fields(fields, k) is Err,
    ensures
        spec_parse_fields(fields, m) == spec_parse_fields(fields, k),
    decreases m - k,
{
    if m > k {
        lemma_fields_err_persists(fields, k, m - 1);
    }
}

/// Reads the layout of a GPU struct from its declaration.
pub fn parse_enki_struct(input: &DeriveInput) -> (r: Result<ParsedStruct, CodegenError>)
    ensures
        match (r, spec_parse_struct(*input)) {
            (Ok(a), Ok(b)) => a.name == input.name && a.fields@ == b,
            (Err(a), Err(b)) => a@ == b,
            _ => false,
        },
{
    let fields = match &input.data {
        DataInput::NotStruct => {
            return Err(message("EnkiStruct can only be derived on standard structs with named fields."));
        }
        DataInput::Unnamed => {
            return Err(message(
                "EnkiStruct only supports standard structs with named fields (e.g., struct MyStruct { field: Type }).",
            ));
        }
        DataInput::Named(fields) => fields,
    };
    let mut parsed: Vec<ParsedField> = Vec::new();
    let mut i: usize = 0;
    while i < fields.len()
        invariant
            input.data == DataInput::Named(*fields),
            i <= fields@.len(),
            spec_parse_fields(fields@, i as int) == Ok::<Seq<ParsedField>, ErrorView>(parsed@),
        decreases fields.len() - i,
    {
        let pf = match parse_field(&fields[i]) {
            Ok(pf) => pf,
            Err(e) => {
                proof {
                    lemma_fields_err_persists(fields@, i + 1, fields@.len() as int);
                }
                return Err(e);
            }
        };
        parsed.push(pf);
        i += 1;
    }
    Ok(ParsedStruct { name: input.name.clone(), fields: parsed })
}

fn parse_param(p: &ParamInput) -> (r: Result<ParsedParam, CodegenError>)
    ensures
        match (r, spec_parse_param(*p)) {
            (Ok(a), Ok(b)) => a == b,
            (Err(a), Err(b)) => a@ == b,
            _ => false,
        },
{
    match p {
        ParamInput::Receiver => Err(message(
            "Enki GPU kernels do not support 'self' parameters. They must be regular static or global functions.",
        )),
        ParamInput::Typed(None, _) => Err(message(
            "Unsupported parameter pattern. Only simple, direct variable names are supported on the GPU.",
        )),
        ParamInput::Typed(Some(n), ty) => match ty {
            TypeAst::Path(None) => Err(message("Invalid or empty parameter type path")),
            TypeAst::Path(Some(t)) => {
                if str_eq(t.as_str(), "f32") {
                    Ok(ParsedParam::Scalar(n.clone(), FieldType::Float))
                } else if str_eq(t.as_str(), "i32") {
                    Ok(ParsedParam::Scalar(n.clone(), FieldType::Int))
                } else if str_eq(t.as_str(), "u32") {
                    Ok(ParsedParam::Scalar(n.clone(), FieldType::Uint))
                } else {
                    Ok(ParsedParam::Array(n.clone(), t.clone()))
                }
            }
            _ => Err(message(
                "Unsupported GPU function parameter type. Must be a primitive (f32, i32, u32) or a custom EnkiStruct.",
            )),
        },
    }
}

proof fn lemma_params_err_persists(inputs: Seq<ParamInput>, k: int, m: int)
    requires
        0 <= k <= m <= inputs.len(),
        spec_parse_params(inputs, k) is Err,
    ensures
        spec_parse_params(inputs, m) == spec_parse_params(inputs, k),
    decreases m - k,
{
    if m > k {
        lemma_params_err_persists(inputs, k, m - 1);
    }
}

fn parse_return(output: &Option<TypeAst>) -> (r: Result<Option<String>, CodegenError>)
    requires
        return_type_readable(*output),
    ensures
        match (r, spec_parse_return(*output)) {
            (Ok(Some(a)), Ok(Some(b))) => a@ == b,
            (Ok(None), Ok(None)) => true,
            (Err(a), Err(b)) => a@ == b,
            _ => false,
        },
{
    match output {
        None => Ok(None),
        Some(TypeAst::Path(None)) => Err(message("Invalid return type path")),
        Some(TypeAst::Path(Some(t))) => Ok(Some(t.clone())),
        Some(TypeAst::Array(elem, len)) => match &**elem {
            TypeAst::Path(Some(en)) => {
                if str_eq(en.as_str(), "f32") {
                    match len {
                        LenAst::Int(d) => match parse_usize(d.as_str()) {
                            Some(2) => Ok(Some(String::from_str("float2"))),
                            Some(3) => Ok(Some(String::from_str("float3"))),
                            Some(4) => Ok(Some(String::from_str("float4"))),
                            _ => Ok(None),
                        },
                        _ => Ok(None),
                    }
                } else {
                    Ok(None)
                }
            }
            _ => Ok(None),
        },
        Some(TypeAst::Other) => Ok(None),
    }
}

/// Reads the parameters of a kernel signature, in order; the first parameter
/// that cannot be read decides the error.
pub fn parse_params(inputs: &Vec<ParamInput>) -> (r: Result<Vec<ParsedParam>, CodegenError>)
    ensures
        match (r, spec_parse_params(inputs@, inputs@.len() as int)) {
            (Ok(a), Ok(b)) => a@ == b,
            (Err(a), Err(b)) => a@ == b,
            _ => false,
        },
{
    let mut params: Vec<ParsedParam> = Vec::new();
    let mut i: usize = 0;
    while i < inputs.len()
        invariant
            i <= inputs@.len(),
            spec_parse_params(inputs@, i as int) == Ok::<Seq<ParsedParam>, ErrorView>(params@),
        decreases inputs.len() - i,
    {
        let p = match parse_param(&inputs[i]) {
            Ok(p) => p,
            Err(e) => {
                proof {
                    lemma_params_err_persists(inputs@, i + 1, inputs@.len() as int);
                }
                return Err(e);
            }
        };
        params.push(p);
        i += 1;
    }
    Ok(params)
}

/// Reads a kernel signature. The body is kept as written; it is translated later.
/// A signature whose parameters all read and whose return type is an array of
/// an element type with an empty path is not accepted.
pub fn parse_enki_function(item: FnInput, shader_type: ShaderType) -> (r: Result<ParsedFunction, CodegenError>)
    requires
        spec_parse_params(item.inputs@, item.inputs@.len() as int) is Err || return_type_readable(item.output),
    ensures
        match (spec_parse_params(item.inputs@, item.inputs@.len() as int), spec_parse_return(item.output)) {
            (Err(x), _) => r matches Err(e) && e@ == x,
            (Ok(_), Err(x)) => r matches Err(e) && e@ == x,
            (Ok(ps), Ok(ret)) => r matches Ok(f) && f.name == item.name && f.shader_type == shader_type
                && f.params@ == ps && f.block == item.body
                && match (f.return_type, ret) {
                    (Some(a), Some(b)) => a@ == b,
                    (None, None) => true,
                    _ => false,
                },
        },
{
    let params = parse_params(&item.inputs)?;
    let return_type = parse_return(&item.output)?;
    let FnInput { name, inputs: _, output: _, body } = item;
    Ok(ParsedFunction { name, shader_type, params, block: body, return_type })
}

/// A vector field declared `[f32; N]` or `[i32; N]` with `N` in 2..=4 reaches
/// Slang as `floatN` or `intN`.
pub proof fn lemma_vector_field_slang_type(ty: TypeAst, n: nat)
    requires
        ty matches TypeAst::Array(elem, LenAst::Int(d)) && spec_parse_usize(d@) == Some(n)
            && (*elem matches TypeAst::Path(Some(e)) && (e@ == "f32"@ || e@ == "i32"@)),
        2 <= n <= 4,
    ensures
        spec_parse_type(ty) is Ok,
        ({
            let elem_name = if (*ty->Array_0 matches TypeAst::Path(Some(e)) && e@ == "f32"@) { "float"@ } else { "int"@ };
            crate::ir::spec_slang_type(spec_parse_type(ty)->Ok_0) == elem_name + crate::text::spec_decimal(n)
        }),
{
    reveal_with_fuel(spec_parse_type, 2);
    reveal_strlit("f32");
    reveal_strlit("i32");
    reveal_strlit("u32");
    reveal_strlit("float");
    reveal_strlit("int");
    reveal_strlit("float2");
    reveal_strlit("float3");
    reveal_strlit("float4");
    reveal_strlit("int2");
    reveal_strlit("int3");
    reveal_strlit("int4");
    reveal_strlit("2");
    reveal_strlit("3");
    reveal_strlit("4");
    assert("float"@ + "2"@ =~= "float2"@);
    assert("float"@ + "3"@ =~= "float3"@);
    assert("float"@ + "4"@ =~= "float4"@);
    assert("int"@ + "2"@ =~= "int2"@);
    assert("int"@ + "3"@ =~= "int3"@);
    assert("int"@ + "4"@ =~= "int4"@);
}

/// A kernel that returns `[f32; N]` with `N` in 2..=4 names the same Slang type
/// as a struct field of that type.
pub proof fn lemma_vector_return_matches_field(output: Option<TypeAst>, n: nat)
    requires
        output matches Some(TypeAst::Array(elem, LenAst::Int(d))) && spec_parse_usize(d@) == Some(n)
            && (*elem matches TypeAst::Path(Some(e)) && e@ == "f32"@),
        2 <= n <= 4,
    ensures
        spec_parse_return(output) matches Ok(Some(rn)) && spec_parse_type(output->Some_0) matches Ok(t)
            && rn == crate::ir::spec_slang_type(t),
{
    reveal_with_fuel(spec_parse_type, 2);
    reveal_strlit("f32");
    reveal_strlit("i32");
    reveal_strlit("u32");
    reveal_strlit("float2");
    reveal_strlit("float3");
    reveal_strlit("float4");
}

/// Each `#[enki(..)]` flag gives the system value it names, and no two flags
/// give the same one: `position` gives `Position`, `depth` gives `Depth`,
/// `vertex_id` gives `VertexId`, `instance_id` gives `InstanceId`, `flat` gives
/// `Flat`, `point_size` gives `PointSize`. So in the generated interfaces a
/// flagged field gets the meaning its flag names: among flags, exactly `depth`
/// writes `SV_Depth` from a fragment, exactly `position` and `point_size` give a
/// vertex output `SV_Position` and `SV_PointSize`, and exactly `flat` turns off
/// perspective interpolation.
pub proof fn lemma_flags_name_their_system_values(n: Seq<char>, m: Seq<char>)
    ensures
        spec_flag_value("position"@) == Some(SystemValue::Position),
        spec_flag_value("depth"@) == Some(SystemValue::Depth),
        spec_flag_value("vertex_id"@) == Some(SystemValue::VertexId),
        spec_flag_value("instance_id"@) == Some(SystemValue::InstanceId),
        spec_flag_value("flat"@) == Some(SystemValue::Flat),
        spec_flag_value("point_size"@) == Some(SystemValue::PointSize),
        (spec_flag_value(n) is Some && spec_flag_value(n) == spec_flag_value(m)) ==> n == m,
        spec_flag_value(n) matches Some(v) ==> {
            &&& (crate::slang::spec_fragment_output_semantic(v) == " : SV_Depth"@ <==> n == "depth"@)
            &&& (crate::slang::spec_vertex_semantic(v) == " : SV_Position"@ <==> n == "position"@)
            &&& (crate::slang::spec_vertex_semantic(v) == " : SV_PointSize"@ <==> n == "point_size"@)
            &&& (crate::slang::spec_modifier(v) == "no_perspective "@ <==> n == "flat"@)
        },
{
    reveal_strlit("position");
    reveal_strlit("depth");
    reveal_strlit("vertex_id");
    reveal_strlit("instance_id");
    reveal_strlit("flat");
    reveal_strlit("point_size");
    reveal_strlit(" : SV_Depth");
    reveal_strlit(" : SV_Position");
    reveal_strlit(" : SV_PointSize");
    reveal_strlit(" : SV_Target0");
    reveal_strlit("no_perspective ");
    assert("position"@[0] == 'p' && "position"@.len() == 8);
    assert("depth"@[0] == 'd');
    assert("vertex_id"@[0] == 'v');
    assert("instance_id"@[0] == 'i');
    assert("flat"@[0] == 'f');
    assert("point_size"@[0] == 'p' && "point_size"@.len() == 10);
    assert(" : SV_Depth"@[6] != " : SV_Target0"@[6]);
    assert(" : SV_Position"@.len() != " : SV_PointSize"@.len());
    assert(" : SV_Position"@.len() > 0 && " : SV_PointSize"@.len() > 0 && "no_perspective "@.len() > 0);
}

} // verus!
