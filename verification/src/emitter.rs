//! The plan of the host-side Rust function that a compute kernel expands to:
//! which buffers it binds to which slots, and which scalars it passes as push
//! constants.
use vstd::prelude::*;
use crate::ir::{FieldType, ParsedFunction, ParsedParam, ShaderType};
use crate::text::views;
use crate::translate::{spec_array_names, spec_scalar_names, spec_position, spec_position_from, spec_translate_ident, param_names};
use crate::text::spec_decimal;
use crate::ast::{LenAst, ParamInput, TypeAst};
use crate::parse::{spec_parse_param, spec_parse_type, spec_parse_usize};

verus! {

/// The Rust spelling of a field type.
pub open spec fn spec_rust_type(t: FieldType) -> Seq<char> {
    match t {
        FieldType::Float => "f32"@,
        FieldType::Int => "i32"@,
        FieldType::Uint => "u32"@,
        FieldType::Float2 => "[f32; 2]"@,
        FieldType::Float3 => "[f32; 3]"@,
        FieldType::Float4 => "[f32; 4]"@,
        FieldType::Int2 => "[i32; 2]"@,
        FieldType::Int3 => "[i32; 3]"@,
        FieldType::Int4 => "[i32; 4]"@,
        FieldType::Custom(name) => name@,
    }
}

/// The struct names of the buffer parameters, in order.
pub open spec fn spec_array_structs(params: Seq<ParsedParam>) -> Seq<Seq<char>>
    decreases params.len(),
{
    if params.len() == 0 {
        Seq::empty()
    } else {
        let rest = spec_array_structs(params.drop_last());
        match params.last() {
            ParsedParam::Array(_, s) => rest.push(s@),
            ParsedParam::Scalar(_, _) => rest,
        }
    }
}

/// The Rust types of the scalar parameters, in order.
pub open spec fn spec_scalar_types(params: Seq<ParsedParam>) -> Seq<Seq<char>>
    decreases params.len(),
{
    if params.len() == 0 {
        Seq::empty()
    } else {
        let rest = spec_scalar_types(params.drop_last());
        match params.last() {
            ParsedParam::Array(_, _) => rest,
            ParsedParam::Scalar(_, t) => rest.push(spec_rust_type(t)),
        }
    }
}

/// Whether a kernel has a buffer parameter to size its dispatch by.
pub open spec fn has_buffer_param(params: Seq<ParsedParam>) -> bool {
    exists|j: int| 0 <= j < params.len() && #[trigger] params[j] is Array
}

/// What the host-side function of a compute kernel binds and passes.
pub struct WrapperPlan {
    /// The kernel's name, which the host function takes.
    pub func_name: String,
    /// The buffer parameters, in order.
    pub array_names: Vec<String>,
    /// The struct of each buffer parameter.
    pub array_structs: Vec<String>,
    /// The storage slot that each buffer parameter is bound to.
    pub array_indices: Vec<u32>,
    /// The scalar parameters, in order.
    pub scalar_names: Vec<String>,
    /// The Rust type of each scalar parameter.
    pub scalar_types: Vec<String>,
    /// The buffer whose element count sizes the dispatch.
    pub first_array_name: String,
    /// Whether the scalars are passed in a push-constant block.
    pub has_push_constants: bool,
    /// The threads per workgroup along x that the kernel was compiled with,
    /// which sizes the dispatch.
    pub workgroup_size: u32,
}

/// The Rust spelling of a field type.
pub fn map_field_type_to_rust_type(ty: &FieldType) -> (r: String)
    ensures
        r@ == spec_rust_type(*ty),
{
    match ty {
        FieldType::Float => String::from_str("f32"),
        FieldType::Int => String::from_str("i32"),
        FieldType::Uint => String::from_str("u32"),
        FieldType::Float2 => String::from_str("[f32; 2]"),
        FieldType::Float3 => String::from_str("[f32; 3]"),
        FieldType::Float4 => String::from_str("[f32; 4]"),
        FieldType::Int2 => String::from_str("[i32; 2]"),
        FieldType::Int3 => String::from_str("[i32; 3]"),
        FieldType::Int4 => String::from_str("[i32; 4]"),
        FieldType::Custom(name) => name.clone(),
    }
}

/// Plans the host-side function of a compute kernel: buffer parameter `i`
/// (counting buffers only) is bound to storage slot `i`; the scalars travel in
/// one push-constant block; the first buffer sizes the dispatch.
pub fn plan_rust_wrapper(func: &ParsedFunction) -> (r: WrapperPlan)
    requires
        has_buffer_param(func.params@),
        func.params@.len() <= u32::MAX,
    ensures
        r.func_name == func.name,
        views(r.array_names@) == spec_array_names(func.params@),
        views(r.array_structs@) == spec_array_structs(func.params@),
        r.array_indices@.len() == r.array_names@.len(),
        forall|i: int| 0 <= i < r.array_indices@.len() ==> #[trigger] r.array_indices@[i] == i,
        views(r.scalar_names@) == spec_scalar_names(func.params@),
        views(r.scalar_types@) == spec_scalar_types(func.params@),
        r.first_array_name@ == spec_array_names(func.params@)[0],
        r.has_push_constants == (spec_scalar_names(func.params@).len() > 0),
        r.workgroup_size == crate::slang::WORKGROUP_SIZE_X,
{
    let ps = &func.params;
    let (array_names, scalar_names) = param_names(ps);
    let mut array_structs: Vec<String> = Vec::new();
    let mut array_indices: Vec<u32> = Vec::new();
    let mut scalar_types: Vec<String> = Vec::new();
    let mut i: usize = 0;
    while i < ps.len()
        invariant
            ps@.len() <= u32::MAX,
            i <= ps@.len(),
            views(array_structs@) == spec_array_structs(ps@.subrange(0, i as int)),
            views(scalar_types@) == spec_scalar_types(ps@.subrange(0, i as int)),
            array_indices@.len() == array_structs@.len(),
            array_structs@.len() <= i,
            forall|t: int| 0 <= t < array_indices@.len() ==> #[trigger] array_indices@[t] == t,
        decreases ps.len() - i,
    {
        assert(ps@.subrange(0, i + 1).drop_last() =~= ps@.subrange(0, i as int));
        match &ps[i] {
            ParsedParam::Array(_, s) => {
                let ghost before = views(array_structs@);
                array_indices.push(array_structs.len() as u32);
                array_structs.push(s.clone());
                assert(views(array_structs@) =~= before.push(s@));
            }
            ParsedParam::Scalar(_, t) => {
                let ghost before = views(scalar_types@);
                let rt = map_field_type_to_rust_type(t);
                scalar_types.push(rt);
                assert(views(scalar_types@) =~= before.push(spec_rust_type(*t)));
            }
        }
        i += 1;
    }
    assert(ps@.subrange(0, ps@.len() as int) =~= ps@);
    proof {
        lemma_arrays_nonempty(ps@);
    }
    let first_array_name = array_names[0].clone();
    let has_push_constants = scalar_names.len() > 0;
    proof {
        lemma_names_structs_same_len(ps@);
    }
    WrapperPlan {
        func_name: func.name.clone(),
        array_names,
        array_structs,
        array_indices,
        scalar_names,
        scalar_types,
        first_array_name,
        has_push_constants,
        workgroup_size: crate::slang::WORKGROUP_SIZE_X,
    }
}

/// A kernel with a buffer parameter has a first buffer name.
pub proof fn lemma_arrays_nonempty(params: Seq<ParsedParam>)
    requires
        has_buffer_param(params),
    ensures
        spec_array_names(params).len() > 0,
    decreases params.len(),
{
    if params.last() is Array {
    } else {
        let j = choose|j: int| 0 <= j < params.len() && #[trigger] params[j] is Array;
        assert(params.drop_last()[j] == params[j]);
        lemma_arrays_nonempty(params.drop_last());
    }
}

/// There is one struct name per buffer name.
pub proof fn lemma_names_structs_same_len(params: Seq<ParsedParam>)
    ensures
        spec_array_names(params).len() == spec_array_structs(params).len(),
    decreases params.len(),
{
    if params.len() > 0 {
        lemma_names_structs_same_len(params.drop_last());
    }
}

/// The first match of a name found from `i` on is the first index from `i`
/// holding it.
proof fn lemma_position_is_first(names: Seq<Seq<char>>, x: Seq<char>, i: int, k: int)
    requires
        0 <= i <= k < names.len(),
        names[k] == x,
        forall|j: int| i <= j < k ==> #[trigger] names[j] != x,
    ensures
        spec_position_from(names, x, i) == Some(k),
    decreases k - i,
{
    if i < k {
        lemma_position_is_first(names, x, i + 1, k);
    }
}

/// In a compute kernel whose buffer parameters have distinct names, none of
/// them also a scalar's, the body reads buffer parameter `k` (counting buffers
/// only) through binding slot `k`, the slot that `plan_rust_wrapper` binds that
/// buffer to (`array_indices[k] == k`).
pub proof fn lemma_shader_reads_host_slot(f: ParsedFunction, k: int)
    requires
        0 <= k < spec_array_names(f.params@).len(),
        forall|j: int| 0 <= j < k ==> #[trigger] spec_array_names(f.params@)[j] != spec_array_names(f.params@)[k],
        spec_position(spec_scalar_names(f.params@), spec_array_names(f.params@)[k]) is None,
    ensures
        ({
            let arrays = spec_array_names(f.params@);
            spec_translate_ident(arrays[k], arrays, spec_scalar_names(f.params@), ShaderType::Compute)
                == arrays[k] + "["@ + spec_decimal(k as nat) + "][index]"@
        }),
{
    let arrays = spec_array_names(f.params@);
    lemma_position_is_first(arrays, arrays[k], 0, k);
}

/// The number of workgroups that covers `element_count` elements, one thread
/// per element, with `workgroup_size` threads per group: the element count
/// rounded up to whole groups.
pub fn dispatch_group_count(element_count: u32, workgroup_size: u32) -> (r: u32)
    requires
        workgroup_size > 0,
        element_count + workgroup_size - 1 <= u32::MAX,
    ensures
        r == (element_count + workgroup_size - 1) / (workgroup_size as int),
{
    (element_count + (workgroup_size - 1)) / workgroup_size
}

/// The dispatch of a compute kernel gives every element a thread of its own
/// and leaves no whole workgroup idle: with the workgroup size the kernel is
/// compiled with, the groups' threads number at least the elements and fewer
/// than the elements plus one group.
pub proof fn lemma_dispatch_covers_every_element(element_count: u32)
    requires
        element_count + crate::slang::WORKGROUP_SIZE_X - 1 <= u32::MAX,
    ensures
        ({
            let ws = crate::slang::WORKGROUP_SIZE_X as int;
            let groups = (element_count + ws - 1) / ws;
            &&& groups * ws >= element_count
            &&& groups * ws < element_count + ws
        }),
{
    let ws = crate::slang::WORKGROUP_SIZE_X as int;
    let n = element_count as int;
    assert(ws == 64);
    vstd::arithmetic::div_mod::lemma_fundamental_div_mod(n + ws - 1, ws);
    let q = (n + ws - 1) / ws;
    let m = (n + ws - 1) % ws;
    assert(0 <= m < ws);
    assert(q * ws == n + ws - 1 - m) by (nonlinear_arith)
        requires
            n + ws - 1 == ws * q + m,
    ;
}

/// The Rust type a host function gives a scalar or a field is the type it was
/// written with: a scalar parameter declared `x: i32` (or `f32`, `u32`) is
/// passed as `i32` (`f32`, `u32`); a field of primitive type `t` has Rust type
/// `t`; a field declared `[e; N]` has Rust type `[e; N]`, with `N` in base 10.
pub proof fn lemma_rust_type_is_the_written_type(p: ParamInput, ty: TypeAst)
    ensures
        spec_parse_param(p) matches Ok(ParsedParam::Scalar(_, t)) ==> (p matches ParamInput::Typed(_, TypeAst::Path(Some(n)))
            && spec_rust_type(t) == n@),
        spec_parse_type(ty) matches Ok(t) ==> (ty matches TypeAst::Path(Some(n)) ==> spec_rust_type(t) == n@),
        spec_parse_type(ty) matches Ok(t) ==> (ty matches TypeAst::Array(elem, LenAst::Int(d))
            ==> (*elem matches TypeAst::Path(Some(e)) && spec_parse_usize(d@) matches Some(len)
                && spec_rust_type(t) == "["@ + e@ + "; "@ + spec_decimal(len) + "]"@)),
{
    reveal_strlit("f32");
    reveal_strlit("i32");
    reveal_strlit("u32");
    reveal_strlit("[f32; 2]");
    reveal_strlit("[f32; 3]");
    reveal_strlit("[f32; 4]");
    reveal_strlit("[i32; 2]");
    reveal_strlit("[i32; 3]");
    reveal_strlit("[i32; 4]");
    reveal_strlit("[");
    reveal_strlit("; ");
    reveal_strlit("]");
    reveal_strlit("2");
    reveal_strlit("3");
    reveal_strlit("4");
    if let Ok(t) = spec_parse_type(ty) {
        if let TypeAst::Array(elem, LenAst::Int(d)) = ty {
            let et = spec_parse_type(*elem);
            if let TypeAst::Path(Some(e)) = *elem {
                if let Some(len) = spec_parse_usize(d@) {
                    assert(spec_decimal(2) == "2"@);
                    assert(spec_decimal(3) == "3"@);
                    assert(spec_decimal(4) == "4"@);
                    assert(spec_rust_type(t) =~= "["@ + e@ + "; "@ + spec_decimal(len) + "]"@);
                }
            }
        }
    }
}

} // verus!
