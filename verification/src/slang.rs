//! Generation of complete Slang shader sources for compute, vertex and
//! fragment kernels, around their translated bodies.
use vstd::prelude::*;
use crate::error::{CodegenError, ErrorView, msg, message};
use crate::ir::{ParsedField, ParsedFunction, ParsedParam, ParsedStruct, ShaderType, StructRegistry, SystemValue, spec_lookup, spec_slang_type};
use crate::text::{spec_decimal, decimal, str_eq};
use crate::translate::{registry_extends, lemma_lookup_stable};

verus! {

/// The number of threads in one compute workgroup along x: the kernel's
/// `[numthreads(..)]` and the host's dispatch size both use it.
pub const WORKGROUP_SIZE_X: u32 = 64;

/// How the fields of a struct are written in a shader interface.
#[derive(Debug, Clone, Copy, PartialEq, Eq, Structural)]
pub enum FieldStyle {
    /// `type name;`
    Plain,
    /// `[[vk::location(i)]] type name;`, for vertex inputs.
    Located,
    /// With interpolation modifier and output semantic, for vertex outputs.
    VertexOutput,
    /// With interpolation modifier and position semantic, for fragment inputs.
    FragmentInput,
    /// With render target or depth semantic, for fragment outputs.
    FragmentOutput,
}

/// The interpolation modifier of an interface field.
pub open spec fn spec_modifier(sv: SystemValue) -> Seq<char> {
    if sv == SystemValue::Flat { "no_perspective "@ } else { Seq::empty() }
}

/// The type of an interface field: a position is always a `float4`.
pub open spec fn spec_interface_type(f: ParsedField) -> Seq<char> {
    if f.system_value == SystemValue::Position { "float4"@ } else { spec_slang_type(f.ty) }
}

/// The semantic of a vertex output field.
pub open spec fn spec_vertex_semantic(sv: SystemValue) -> Seq<char> {
    match sv {
        SystemValue::Position => " : SV_Position"@,
        SystemValue::Target(i) => " : SV_Target"@ + spec_decimal(i as nat),
        SystemValue::Depth => " : SV_Depth"@,
        SystemValue::PointSize => " : SV_PointSize"@,
        _ => Seq::empty(),
    }
}

/// The semantic of a fragment input field.
pub open spec fn spec_fragment_input_semantic(sv: SystemValue) -> Seq<char> {
    if sv == SystemValue::Position { " : SV_Position"@ } else { Seq::empty() }
}

/// The semantic of a fragment output field: fields without a target or depth
/// meaning go to the first render target.
pub open spec fn spec_fragment_output_semantic(sv: SystemValue) -> Seq<char> {
    match sv {
        SystemValue::Target(i) => " : SV_Target"@ + spec_decimal(i as nat),
        SystemValue::Depth => " : SV_Depth"@,
        _ => " : SV_Target0"@,
    }
}

/// The line that declares field `f`, the `i`-th field of its struct.
pub open spec fn spec_field_line(f: ParsedField, i: nat, style: FieldStyle) -> Seq<char> {
    match style {
        FieldStyle::Plain => "    "@ + spec_slang_type(f.ty) + " "@ + f.name@ + ";\n"@,
        FieldStyle::Located => "    [[vk::location("@ + spec_decimal(i) + ")]] "@ + spec_slang_type(f.ty) + " "@
            + f.name@ + ";\n"@,
        FieldStyle::VertexOutput => "    "@ + spec_modifier(f.system_value) + spec_interface_type(f) + " "@ + f.name@
            + spec_vertex_semantic(f.system_value) + ";\n"@,
        FieldStyle::FragmentInput => "    "@ + spec_modifier(f.system_value) + spec_interface_type(f) + " "@ + f.name@
            + spec_fragment_input_semantic(f.system_value) + ";\n"@,
        FieldStyle::FragmentOutput => "    "@ + spec_slang_type(f.ty) + " "@ + f.name@
            + spec_fragment_output_semantic(f.system_value) + ";\n"@,
    }
}

/// The lines that declare `fields[0..k]`.
pub open spec fn spec_field_lines(fields: Seq<ParsedField>, k: int, style: FieldStyle) -> Seq<char>
    decreases k,
{
    if k <= 0 || k > fields.len() {
        Seq::empty()
    } else {
        spec_field_lines(fields, k - 1, style) + spec_field_line(fields[k - 1], (k - 1) as nat, style)
    }
}

/// The declaration of a struct in the given field style.
pub open spec fn spec_struct_decl(s: ParsedStruct, style: FieldStyle) -> Seq<char> {
    "struct "@ + s.name@ + " {\n"@ + spec_field_lines(s.fields@, s.fields@.len() as int, style) + "};\n\n"@
}

/// Whether a buffer parameter of struct `sn` occurs among `params[0..k]`.
pub open spec fn spec_declared_before(params: Seq<ParsedParam>, k: int, sn: Seq<char>) -> bool {
    exists|j: int| 0 <= j < k && (#[trigger] params[j] matches ParsedParam::Array(_, s) && s@ == sn)
}

/// The struct declarations of a compute kernel for `params[0..k]`: each struct
/// used by a buffer parameter is declared once, where it is first used.
pub open spec fn spec_compute_structs(params: Seq<ParsedParam>, k: int, reg: StructRegistry) -> Result<Seq<char>, ErrorView>
    decreases k,
{
    if k <= 0 || k > params.len() {
        Ok(Seq::empty())
    } else {
        match spec_compute_structs(params, k - 1, reg) {
            Err(x) => Err(x),
            Ok(prev) => match params[k - 1] {
                ParsedParam::Array(_, sn) => if spec_declared_before(params, k - 1, sn@) {
                    Ok(prev)
                } else {
                    match spec_lookup(reg, sn@) {
                        Err(x) => Err(x),
                        Ok(ps) => Ok(prev + spec_struct_decl(ps, FieldStyle::Plain)),
                    }
                },
                ParsedParam::Scalar(_, _) => Ok(prev),
            },
        }
    }
}

/// The storage buffer bindings of `params[0..k]`.
pub open spec fn spec_buffer_bindings(params: Seq<ParsedParam>, k: int) -> Seq<char>
    decreases k,
{
    if k <= 0 || k > params.len() {
        Seq::empty()
    } else {
        spec_buffer_bindings(params, k - 1) + match params[k - 1] {
            ParsedParam::Array(pn, sn) => "RWStructuredBuffer<"@ + sn@ + "> "@ + pn@ + "[] : register(u0);\n"@,
            ParsedParam::Scalar(_, _) => Seq::empty(),
        }
    }
}

/// The push-constant fields of `params[0..k]`.
pub open spec fn spec_push_constant_fields(params: Seq<ParsedParam>, k: int) -> Seq<char>
    decreases k,
{
    if k <= 0 || k > params.len() {
        Seq::empty()
    } else {
        spec_push_constant_fields(params, k - 1) + match params[k - 1] {
            ParsedParam::Array(_, _) => Seq::empty(),
            ParsedParam::Scalar(pn, t) => "    "@ + spec_slang_type(t) + " "@ + pn@ + ";\n"@,
        }
    }
}

/// Whether any parameter is a buffer.
pub open spec fn has_array(params: Seq<ParsedParam>) -> bool {
    exists|j: int| 0 <= j < params.len() && #[trigger] params[j] is Array
}

/// Whether any parameter is a scalar.
pub open spec fn has_scalar(params: Seq<ParsedParam>) -> bool {
    exists|j: int| 0 <= j < params.len() && #[trigger] params[j] is Scalar
}

/// The Slang source of a compute kernel.
pub open spec fn spec_compute_source(f: ParsedFunction, body: Seq<char>, reg: StructRegistry) -> Result<Seq<char>, ErrorView> {
    let ps = f.params@;
    match spec_compute_structs(ps, ps.len() as int, reg) {
        Err(x) => Err(x),
        Ok(structs) => Ok(
            structs + spec_buffer_bindings(ps, ps.len() as int)
                + (if has_array(ps) { "\n"@ } else { Seq::empty() })
                + (if has_scalar(ps) {
                    "struct PushConstants {\n"@ + spec_push_constant_fields(ps, ps.len() as int) + "};\n"@
                        + "ParameterBlock<PushConstants> pc;\n\n"@
                } else {
                    Seq::empty()
                })
                + "[shader(\"compute\")]\n"@ + "[numthreads("@ + spec_decimal(WORKGROUP_SIZE_X as nat) + ", 1, 1)]\n"@
                + "void main(uint3 thread_idx : SV_DispatchThreadID) {\n"@ + "    uint index = thread_idx.x;\n\n"@
                + body + "\n}\n"@,
        ),
    }
}

/// The uniform buffer declarations for the buffer parameters among
/// `params[1..k]`, with the number of them: each gets its struct declared and
/// the next uniform register.
pub open spec fn spec_uniforms(params: Seq<ParsedParam>, k: int, reg: StructRegistry) -> Result<(Seq<char>, nat), ErrorView>
    decreases k,
{
    if k <= 1 || k > params.len() {
        Ok((Seq::empty(), 0))
    } else {
        match spec_uniforms(params, k - 1, reg) {
            Err(x) => Err(x),
            Ok((prev, n)) => match params[k - 1] {
                ParsedParam::Array(pn, sn) => match spec_lookup(reg, sn@) {
                    Err(x) => Err(x),
                    Ok(s) => Ok((
                        prev + spec_struct_decl(s, FieldStyle::Plain) + "ConstantBuffer<"@ + sn@ + "> "@ + pn@
                            + " : register(b"@ + spec_decimal(n) + ");\n\n"@,
                        n + 1,
                    )),
                },
                ParsedParam::Scalar(_, _) => Ok((prev, n)),
            },
        }
    }
}

/// The Slang source of a vertex kernel.
pub open spec fn spec_vertex_source(f: ParsedFunction, body: Seq<char>, reg: StructRegistry) -> Result<Seq<char>, ErrorView> {
    let ps = f.params@;
    if ps.len() == 0 {
        Err(msg("[Vertex Generator] Vertex Shader must have at least one input parameter representing vertex attributes."@))
    } else {
        match ps[0] {
            ParsedParam::Scalar(_, _) => Err(msg(
                "[Vertex Generator] First parameter must be a custom struct representing vertex attributes."@,
            )),
            ParsedParam::Array(pn, sn) => match spec_lookup(reg, sn@) {
                Err(x) => Err(x),
                Ok(input) => match f.return_type {
                    None => Err(msg(
                        "[Vertex Generator] Vertex Shader must return a custom EnkiStruct containing position output."@,
                    )),
                    Some(rn) => match spec_lookup(reg, rn@) {
                        Err(x) => Err(x),
                        Ok(output) => match spec_uniforms(ps, ps.len() as int, reg) {
                            Err(x) => Err(x),
                            Ok((uniforms, _)) => Ok(
                                spec_struct_decl(input, FieldStyle::Located)
                                    + spec_struct_decl(output, FieldStyle::VertexOutput) + uniforms
                                    + "[shader(\"vertex\")]\n"@ + rn@ + " main("@ + sn@ + " "@ + pn@
                                    + ", uint vertex_id : SV_VertexID, uint instance_id : SV_InstanceID) {\n"@
                                    + body + "\n}\n"@,
                            ),
                        },
                    },
                },
            },
        }
    }
}

/// Whether a fragment return type names a float vector rather than a struct.
pub open spec fn is_vector_output(rn: Seq<char>) -> bool {
    rn == "float4"@ || rn == "float3"@ || rn == "float2"@
}

/// The Slang source of a fragment kernel.
pub open spec fn spec_fragment_source(f: ParsedFunction, body: Seq<char>, reg: StructRegistry) -> Result<Seq<char>, ErrorView> {
    let ps = f.params@;
    if ps.len() == 0 {
        Err(msg(
            "[Fragment Generator] Fragment Shader must have at least one input parameter representing varying attributes from vertex shader."@,
        ))
    } else {
        match ps[0] {
            ParsedParam::Scalar(_, _) => Err(msg(
                "[Fragment Generator] First parameter must be a custom struct representing varying vertex outputs."@,
            )),
            ParsedParam::Array(pn, sn) => match spec_lookup(reg, sn@) {
                Err(x) => Err(x),
                Ok(input) => match spec_uniforms(ps, ps.len() as int, reg) {
                    Err(x) => Err(x),
                    Ok((uniforms, _)) => {
                        let head = spec_struct_decl(input, FieldStyle::FragmentInput) + uniforms;
                        let tail = "[shader(\"fragment\")]\n"@;
                        match f.return_type {
                            None => Ok(head + tail + "float4"@ + " main("@ + sn@ + " "@ + pn@ + ") : SV_Target0 {\n"@
                                + body + "\n}\n"@),
                            Some(rn) => if is_vector_output(rn@) {
                                Ok(head + tail + rn@ + " main("@ + sn@ + " "@ + pn@ + ") : SV_Target0 {\n"@ + body
                                    + "\n}\n"@)
                            } else {
                                match spec_lookup(reg, rn@) {
                                    Err(x) => Err(x),
                                    Ok(output) => Ok(head + spec_struct_decl(output, FieldStyle::FragmentOutput) + tail
                                        + rn@ + " main("@ + sn@ + " "@ + pn@ + ") {\n"@ + body + "\n}\n"@),
                                }
                            },
                        }
                    },
                },
            },
        }
    }
}

/// The Slang source of a kernel of any stage.
pub open spec fn spec_slang_source(f: ParsedFunction, body: Seq<char>, reg: StructRegistry) -> Result<Seq<char>, ErrorView> {
    match f.shader_type {
        ShaderType::Compute => spec_compute_source(f, body, reg),
        ShaderType::Vertex => spec_vertex_source(f, body, reg),
        ShaderType::Fragment => spec_fragment_source(f, body, reg),
    }
}

/// Whether an outcome is a request for a struct layout not loaded yet.
pub open spec fn unresolved<T>(r: Result<T, ErrorView>) -> bool {
    r is Err && r->Err_0 is Unresolved
}

proof fn lemma_compute_structs_stable(params: Seq<ParsedParam>, k: int, small: StructRegistry, big: StructRegistry)
    requires
        registry_extends(small, big),
        !unresolved(spec_compute_structs(params, k, small)),
    ensures
        spec_compute_structs(params, k, big) == spec_compute_structs(params, k, small),
    decreases k,
{
    if 0 < k <= params.len() {
        lemma_compute_structs_stable(params, k - 1, small, big);
        if let ParsedParam::Array(_, sn) = params[k - 1] {
            if spec_compute_structs(params, k - 1, small) is Ok && !spec_declared_before(params, k - 1, sn@) {
                lemma_lookup_stable(small, big, sn@);
            }
        }
    }
}

proof fn lemma_uniforms_stable(params: Seq<ParsedParam>, k: int, small: StructRegistry, big: StructRegistry)
    requires
        registry_extends(small, big),
        !unresolved(spec_uniforms(params, k, small)),
    ensures
        spec_uniforms(params, k, big) == spec_uniforms(params, k, small),
    decreases k,
{
    if 1 < k <= params.len() {
        lemma_uniforms_stable(params, k - 1, small, big);
        if let ParsedParam::Array(_, sn) = params[k - 1] {
            if spec_uniforms(params, k - 1, small) is Ok {
                lemma_lookup_stable(small, big, sn@);
            }
        }
    }
}

/// Loading more struct layouts never changes a generated shader source that
/// did not ask for one.
pub proof fn lemma_slang_source_stable(f: ParsedFunction, body: Seq<char>, small: StructRegistry, big: StructRegistry)
    requires
        registry_extends(small, big),
        !unresolved(spec_slang_source(f, body, small)),
    ensures
        spec_slang_source(f, body, big) == spec_slang_source(f, body, small),
{
    let ps = f.params@;
    match f.shader_type {
        ShaderType::Compute => {
            lemma_compute_structs_stable(ps, ps.len() as int, small, big);
        }
        _ => {
            if ps.len() > 0 {
                if let ParsedParam::Array(_, sn) = ps[0] {
                    lemma_lookup_stable(small, big, sn@);
                    if spec_lookup(small, sn@) is Ok {
                        if f.shader_type == ShaderType::Vertex {
                            if let Some(rn) = f.return_type {
                                lemma_lookup_stable(small, big, rn@);
                                if spec_lookup(small, rn@) is Ok {
                                    lemma_uniforms_stable(ps, ps.len() as int, small, big);
                                }
                            }
                        } else {
                            lemma_uniforms_stable(ps, ps.len() as int, small, big);
                            if spec_uniforms(ps, ps.len() as int, small) is Ok {
                                if let Some(rn) = f.return_type {
                                    if !is_vector_output(rn@) {
                                        lemma_lookup_stable(small, big, rn@);
                                    }
                                }
                            }
                        }
                    }
                }
            }
        }
    }
}

/// Whether a generated source matches its specification.
pub open spec fn same_source(r: Result<String, CodegenError>, s: Result<Seq<char>, ErrorView>) -> bool {
    match (r, s) {
        (Ok(a), Ok(b)) => a@ == b,
        (Err(a), Err(b)) => a@ == b,
        _ => false,
    }
}

fn field_line(out: &mut String, f: &ParsedField, i: usize, style: FieldStyle)
    ensures
        final(out)@ == old(out)@ + spec_field_line(*f, i as nat, style),
{
    let ty = f.ty.to_slang_type();
    match style {
        FieldStyle::Plain => {
            out.append("    ");
            out.append(ty.as_str());
            out.append(" ");
            out.append(f.name.as_str());
            out.append(";\n");
        }
        FieldStyle::Located => {
            out.append("    [[vk::location(");
            let d = decimal(i as u64);
            out.append(d.as_str());
            out.append(")]] ");
            out.append(ty.as_str());
            out.append(" ");
            out.append(f.name.as_str());
            out.append(";\n");
        }
        FieldStyle::VertexOutput | FieldStyle::FragmentInput => {
            out.append("    ");
            if f.system_value == SystemValue::Flat {
                out.append("no_perspective ");
            }
            if f.system_value == SystemValue::Position {
                out.append("float4");
            } else {
                out.append(ty.as_str());
            }
            out.append(" ");
            out.append(f.name.as_str());
            if style == FieldStyle::VertexOutput {
                match f.system_value {
                    SystemValue::Position => out.append(" : SV_Position"),
                    SystemValue::Target(t) => {
                        out.append(" : SV_Target");
                        let d = decimal(t as u64);
                        out.append(d.as_str());
                    }
                    SystemValue::Depth => out.append(" : SV_Depth"),
                    SystemValue::PointSize => out.append(" : SV_PointSize"),
                    _ => {}
                }
            } else if f.system_value == SystemValue::Position {
                out.append(" : SV_Position");
            }
            out.append(";\n");
        }
        FieldStyle::FragmentOutput => {
            out.append("    ");
            out.append(ty.as_str());
            out.append(" ");
            out.append(f.name.as_str());
            match f.system_value {
                SystemValue::Target(t) => {
                    out.append(" : SV_Target");
                    let d = decimal(t as u64);
                    out.append(d.as_str());
                }
                SystemValue::Depth => out.append(" : SV_Depth"),
                _ => out.append(" : SV_Target0"),
            }
            out.append(";\n");
        }
    }
}

/// Appends the declaration of `s` in the given style.
fn struct_decl(out: &mut String, s: &ParsedStruct, style: FieldStyle)
    ensures
        final(out)@ == old(out)@ + spec_struct_decl(*s, style),
{
    let ghost start = out@;
    out.append("struct ");
    out.append(s.name.as_str());
    out.append(" {\n");
    let ghost head = out@;
    let mut i: usize = 0;
    while i < s.fields.len()
        invariant
            i <= s.fields@.len(),
            out@ == head + spec_field_lines(s.fields@, i as int, style),
        decreases s.fields.len() - i,
    {
        field_line(out, &s.fields[i], i, style);
        i += 1;
    }
    out.append("};\n\n");
}

proof fn lemma_structs_err_persists(params: Seq<ParsedParam>, k: int, m: int, reg: StructRegistry)
    requires
        0 <= k <= m <= params.len(),
        spec_compute_structs(params, k, reg) is Err,
    ensures
        spec_compute_structs(params, m, reg) == spec_compute_structs(params, k, reg),
    decreases m - k,
{
    if m > k {
        lemma_structs_err_persists(params, k, m - 1, reg);
    }
}

proof fn lemma_uniforms_err_persists(params: Seq<ParsedParam>, k: int, m: int, reg: StructRegistry)
    requires
        1 <= k <= m <= params.len(),
        spec_uniforms(params, k, reg) is Err,
    ensures
        spec_uniforms(params, m, reg) == spec_uniforms(params, k, reg),
    decreases m - k,
{
    if m > k {
        lemma_uniforms_err_persists(params, k, m - 1, reg);
    }
}

/// Whether the struct of a buffer parameter among `params[0..k]` is `sn`.
fn declared_before(params: &Vec<ParsedParam>, k: usize, sn: &String) -> (r: bool)
    requires
        k <= params@.len(),
    ensures
        r == spec_declared_before(params@, k as int, sn@),
{
    let mut j: usize = 0;
    while j < k
        invariant
            k <= params@.len(),
            j <= k,
            forall|t: int| 0 <= t < j ==> !(#[trigger] params@[t] matches ParsedParam::Array(_, s) && s@ == sn@),
        decreases k - j,
    {
        match &params[j] {
            ParsedParam::Array(_, s) => {
                if str_eq(s.as_str(), sn.as_str()) {
                    return true;
                }
            }
            ParsedParam::Scalar(_, _) => {}
        }
        j += 1;
    }
    false
}

fn generate_compute_slang(func: &ParsedFunction, translated_body: &str, registry: &StructRegistry) -> (r: Result<String, CodegenError>)
    ensures
        same_source(r, spec_compute_source(*func, translated_body@, *registry)),
{
    let ps = &func.params;
    let mut out = String::new();
    let mut k: usize = 0;
    while k < ps.len()
        invariant
            *ps == func.params,
            k <= ps@.len(),
            spec_compute_structs(ps@, k as int, *registry) == Ok::<Seq<char>, ErrorView>(out@),
        decreases ps.len() - k,
    {
        match &ps[k] {
            ParsedParam::Array(_, sn) => {
                if !declared_before(ps, k, sn) {
                    match registry.lookup(sn.as_str()) {
                        Ok(s) => {
                            struct_decl(&mut out, s, FieldStyle::Plain);
                        }
                        Err(e) => {
                            proof {
                                lemma_structs_err_persists(ps@, k + 1, ps@.len() as int, *registry);
                            }
                            return Err(e);
                        }
                    }
                }
            }
            ParsedParam::Scalar(_, _) => {}
        }
        k += 1;
    }
    let ghost structs = out@;
    let mut any_array = false;
    let mut i: usize = 0;
    while i < ps.len()
        invariant
            *ps == func.params,
            i <= ps@.len(),
            out@ == structs + spec_buffer_bindings(ps@, i as int),
            any_array == (exists|j: int| 0 <= j < i && #[trigger] ps@[j] is Array),
        decreases ps.len() - i,
    {
        match &ps[i] {
            ParsedParam::Array(pn, sn) => {
                out.append("RWStructuredBuffer<");
                out.append(sn.as_str());
                out.append("> ");
                out.append(pn.as_str());
                out.append("[] : register(u0);\n");
                any_array = true;
            }
            ParsedParam::Scalar(_, _) => {}
        }
        i += 1;
    }
    assert(any_array == has_array(ps@));
    let ghost s1 = out@;
    if any_array {
        out.append("\n");
    }
    assert(out@ == s1 + (if has_array(ps@) { "\n"@ } else { Seq::<char>::empty() }));
    let mut pc = String::new();
    let mut any_scalar = false;
    let mut i: usize = 0;
    while i < ps.len()
        invariant
            *ps == func.params,
            i <= ps@.len(),
            pc@ == spec_push_constant_fields(ps@, i as int),
            any_scalar == (exists|j: int| 0 <= j < i && #[trigger] ps@[j] is Scalar),
        decreases ps.len() - i,
    {
        match &ps[i] {
            ParsedParam::Scalar(pn, t) => {
                pc.append("    ");
                let ty = t.to_slang_type();
                pc.append(ty.as_str());
                pc.append(" ");
                pc.append(pn.as_str());
                pc.append(";\n");
                any_scalar = true;
            }
            ParsedParam::Array(_, _) => {}
        }
        i += 1;
    }
    assert(any_scalar == has_scalar(ps@));
    let ghost s2 = out@;
    if any_scalar {
        out.append("struct PushConstants {\n");
        out.append(pc.as_str());
        out.append("};\n");
        out.append("ParameterBlock<PushConstants> pc;\n\n");
    }
    assert(out@ == s2 + (if has_scalar(ps@) {
        "struct PushConstants {\n"@ + spec_push_constant_fields(ps@, ps@.len() as int) + "};\n"@
            + "ParameterBlock<PushConstants> pc;\n\n"@
    } else {
        Seq::<char>::empty()
    }));
    out.append("[shader(\"compute\")]\n");
    out.append("[numthreads(");
    let w = decimal(WORKGROUP_SIZE_X as u64);
    out.append(w.as_str());
    out.append(", 1, 1)]\n");
    out.append("void main(uint3 thread_idx : SV_DispatchThreadID) {\n");
    out.append("    uint index = thread_idx.x;\n\n");
    out.append(translated_body);
    out.append("\n}\n");
    Ok(out)
}

/// Appends the uniform buffer declarations of the buffer parameters after the first.
fn uniforms(out: &mut String, ps: &Vec<ParsedParam>, registry: &StructRegistry) -> (r: Result<(), CodegenError>)
    requires
        ps@.len() >= 1,
    ensures
        match (r, spec_uniforms(ps@, ps@.len() as int, *registry)) {
            (Ok(_), Ok((text, _))) => final(out)@ == old(out)@ + text,
            (Err(a), Err(b)) => a@ == b,
            _ => false,
        },
{
    let ghost start = out@;
    let mut n: u64 = 0;
    let mut k: usize = 1;
    while k < ps.len()
        invariant
            ps@.len() >= 1,
            1 <= k <= ps@.len(),
            n <= k,
            spec_uniforms(ps@, k as int, *registry) matches Ok((text, cnt)) && out@ == start + text && cnt == n,
        decreases ps.len() - k,
    {
        match &ps[k] {
            ParsedParam::Array(pn, sn) => match registry.lookup(sn.as_str()) {
                Ok(s) => {
                    struct_decl(out, s, FieldStyle::Plain);
                    out.append("ConstantBuffer<");
                    out.append(sn.as_str());
                    out.append("> ");
                    out.append(pn.as_str());
                    out.append(" : register(b");
                    let d = decimal(n);
                    out.append(d.as_str());
                    out.append(");\n\n");
                    n = n + 1;
                }
                Err(e) => {
                    proof {
                        lemma_uniforms_err_persists(ps@, k + 1, ps@.len() as int, *registry);
                    }
                    return Err(e);
                }
            },
            ParsedParam::Scalar(_, _) => {}
        }
        k += 1;
    }
    Ok(())
}

fn generate_vertex_slang(func: &ParsedFunction, translated_body: &str, registry: &StructRegistry) -> (r: Result<String, CodegenError>)
    ensures
        same_source(r, spec_vertex_source(*func, translated_body@, *registry)),
{
    let ps = &func.params;
    if ps.len() == 0 {
        return Err(message(
            "[Vertex Generator] Vertex Shader must have at least one input parameter representing vertex attributes.",
        ));
    }
    let (pn, sn) = match &ps[0] {
        ParsedParam::Array(pn, sn) => (pn, sn),
        ParsedParam::Scalar(_, _) => {
            return Err(message(
                "[Vertex Generator] First parameter must be a custom struct representing vertex attributes.",
            ));
        }
    };
    let input = registry.lookup(sn.as_str())?;
    let mut out = String::new();
    struct_decl(&mut out, input, FieldStyle::Located);
    let rn = match &func.return_type {
        Some(rn) => rn,
        None => {
            return Err(message(
                "[Vertex Generator] Vertex Shader must return a custom EnkiStruct containing position output.",
            ));
        }
    };
    let output = registry.lookup(rn.as_str())?;
    struct_decl(&mut out, output, FieldStyle::VertexOutput);
    uniforms(&mut out, ps, registry)?;
    out.append("[shader(\"vertex\")]\n");
    out.append(rn.as_str());
    out.append(" main(");
    out.append(sn.as_str());
    out.append(" ");
    out.append(pn.as_str());
    out.append(", uint vertex_id : SV_VertexID, uint instance_id : SV_InstanceID) {\n");
    out.append(translated_body);
    out.append("\n}\n");
    Ok(out)
}

fn generate_fragment_slang(func: &ParsedFunction, translated_body: &str, registry: &StructRegistry) -> (r: Result<String, CodegenError>)
    ensures
        same_source(r, spec_fragment_source(*func, translated_body@, *registry)),
{
    let ps = &func.params;
    if ps.len() == 0 {
        return Err(message(
            "[Fragment Generator] Fragment Shader must have at least one input parameter representing varying attributes from vertex shader.",
        ));
    }
    let (pn, sn) = match &ps[0] {
        ParsedParam::Array(pn, sn) => (pn, sn),
        ParsedParam::Scalar(_, _) => {
            return Err(message(
                "[Fragment Generator] First parameter must be a custom struct representing varying vertex outputs.",
            ));
        }
    };
    let input = registry.lookup(sn.as_str())?;
    let mut out = String::new();
    struct_decl(&mut out, input, FieldStyle::FragmentInput);
    uniforms(&mut out, ps, registry)?;
    let primitive: bool;
    let out_type: String;
    match &func.return_type {
        None => {
            primitive = true;
            out_type = String::from_str("float4");
        }
        Some(rn) => {
            if str_eq(rn.as_str(), "float4") || str_eq(rn.as_str(), "float3") || str_eq(rn.as_str(), "float2") {
                primitive = true;
                out_type = rn.clone();
            } else {
                let output = registry.lookup(rn.as_str())?;
                struct_decl(&mut out, output, FieldStyle::FragmentOutput);
                primitive = false;
                out_type = rn.clone();
            }
        }
    }
    out.append("[shader(\"fragment\")]\n");
    out.append(out_type.as_str());
    out.append(" main(");
    out.append(sn.as_str());
    out.append(" ");
    out.append(pn.as_str());
    if primitive {
        out.append(") : SV_Target0 {\n");
    } else {
        out.append(") {\n");
    }
    out.append(translated_body);
    out.append("\n}\n");
    Ok(out)
}

/// The complete Slang source of a kernel around its translated body. Struct
/// layouts come from `registry`; one not loaded yet is reported as
/// `CodegenError::Unresolved`.
pub fn generate_slang_source(func: &ParsedFunction, translated_body: &str, registry: &StructRegistry) -> (r: Result<String, CodegenError>)
    ensures
        same_source(r, spec_slang_source(*func, translated_body@, *registry)),
{
    match func.shader_type {
        ShaderType::Compute => generate_compute_slang(func, translated_body, registry),
        ShaderType::Vertex => generate_vertex_slang(func, translated_body, registry),
        ShaderType::Fragment => generate_fragment_slang(func, translated_body, registry),
    }
}

/// How many buffer parameters stand among `params[1..k]`.
pub open spec fn buffers_after_first(params: Seq<ParsedParam>, k: int) -> nat
    decreases k,
{
    if k <= 1 || k > params.len() {
        0
    } else {
        buffers_after_first(params, k - 1) + if params[k - 1] is Array { 1nat } else { 0nat }
    }
}

/// Whether `t` ends with `suffix`.
pub open spec fn text_ends_with(t: Seq<char>, suffix: Seq<char>) -> bool {
    t.len() >= suffix.len() && t.subrange(t.len() - suffix.len(), t.len() as int) == suffix
}

/// Uniform buffers get registers in order: the declarations for the buffer
/// parameters among `params[1..k]` number exactly those parameters, and the
/// uniform buffer of a buffer parameter `params[k - 1]` is bound to register
/// `b j`, where `j` counts the buffer parameters before it after the first. So
/// the `j`-th uniform buffer gets `b j` and no two share a register.
pub proof fn lemma_uniform_registers_in_order(params: Seq<ParsedParam>, k: int, reg: StructRegistry)
    requires
        0 <= k <= params.len(),
    ensures
        spec_uniforms(params, k, reg) matches Ok((text, n)) ==> {
            &&& n == buffers_after_first(params, k)
            &&& (k >= 2 && params[k - 1] is Array ==> text_ends_with(
                text,
                " : register(b"@ + spec_decimal(buffers_after_first(params, k - 1)) + ");\n\n"@,
            ))
        },
    decreases k,
{
    if k >= 2 {
        lemma_uniform_registers_in_order(params, k - 1, reg);
        if let Ok((text, n)) = spec_uniforms(params, k, reg) {
            if params[k - 1] is Array {
                let suffix = " : register(b"@ + spec_decimal(buffers_after_first(params, k - 1)) + ");\n\n"@;
                assert(text.subrange(text.len() - suffix.len(), text.len() as int) =~= suffix);
            }
        }
    }
}

} // verus!
