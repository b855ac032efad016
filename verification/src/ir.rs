//! The intermediate representation that the shader front end produces and the
//! code generators consume: struct layouts, field types, kernel signatures, and
//! the registry of struct layouts that earlier derives recorded.
use vstd::prelude::*;
use crate::ast::Stmt;
use crate::error::{CodegenError, ErrorView};

verus! {

/// The built-in meaning a field carries in a shader interface.
#[derive(Debug, Clone, Copy, PartialEq, Eq, Structural)]
pub enum SystemValue {
    Position,
    Target(u32),
    Depth,
    VertexId,
    InstanceId,
    Flat,
    PointSize,
    /// No built-in meaning.
    Plain,
}

/// The GPU type of a struct field or scalar parameter.
#[derive(Debug, Clone)]
pub enum FieldType {
    Float,
    Int,
    Uint,
    Float2,
    Float3,
    Float4,
    Int2,
    Int3,
    Int4,
    Custom(String),
}

/// The Slang spelling of a field type.
pub open spec fn spec_slang_type(t: FieldType) -> Seq<char> {
    match t {
        FieldType::Float => "float"@,
        FieldType::Int => "int"@,
        FieldType::Uint => "uint"@,
        FieldType::Float2 => "float2"@,
        FieldType::Float3 => "float3"@,
        FieldType::Float4 => "float4"@,
        FieldType::Int2 => "int2"@,
        FieldType::Int3 => "int3"@,
        FieldType::Int4 => "int4"@,
        FieldType::Custom(name) => name@,
    }
}

impl FieldType {
    /// The Slang spelling of this type.
    pub fn to_slang_type(&self) -> (r: String)
        ensures
            r@ == spec_slang_type(*self),
    {
        match self {
            FieldType::Float => String::from_str("float"),
            FieldType::Int => String::from_str("int"),
            FieldType::Uint => String::from_str("uint"),
            FieldType::Float2 => String::from_str("float2"),
            FieldType::Float3 => String::from_str("float3"),
            FieldType::Float4 => String::from_str("float4"),
            FieldType::Int2 => String::from_str("int2"),
            FieldType::Int3 => String::from_str("int3"),
            FieldType::Int4 => String::from_str("int4"),
            FieldType::Custom(name) => name.clone(),
        }
    }
}

/// One field of a GPU struct.
#[derive(Debug, Clone)]
pub struct ParsedField {
    pub name: String,
    pub ty: FieldType,
    pub system_value: SystemValue,
}

/// A GPU struct as the derive recorded it.
#[derive(Debug, Clone)]
pub struct ParsedStruct {
    pub name: String,
    pub fields: Vec<ParsedField>,
}

/// The pipeline stage a kernel is compiled for.
#[derive(Debug, Clone, Copy, PartialEq, Eq, Structural)]
pub enum ShaderType {
    Compute,
    Fragment,
    Vertex,
}

/// A kernel parameter: a buffer of structs (name, struct name) or a scalar.
#[derive(Debug, Clone)]
pub enum ParsedParam {
    Array(String, String),
    Scalar(String, FieldType),
}

/// A kernel as the front end parsed it.
pub struct ParsedFunction {
    pub name: String,
    pub shader_type: ShaderType,
    pub params: Vec<ParsedParam>,
    pub block: Vec<Stmt>,
    pub return_type: Option<String>,
}

/// What loading the recorded layout of one struct gave: the layout, or the
/// message that explains why it could not be read.
pub struct StructEntry {
    pub name: String,
    pub loaded: Result<ParsedStruct, String>,
}

/// The struct layouts loaded so far, searched front to back.
pub struct StructRegistry {
    pub entries: Vec<StructEntry>,
}

/// The text reported when no recorded layout of struct `name` exists.
pub open spec fn spec_missing_struct_message(name: Seq<char>) -> Seq<char> {
    "[Registry] Struct '"@ + name
        + "' metadata not found in compiler cache.\nHelp: Did you annotate the struct with #[derive(EnkiStruct)]?"@
}

/// The text reported when no recorded layout of struct `name` exists.
pub fn missing_struct_message(name: &str) -> (r: String)
    ensures
        r@ == spec_missing_struct_message(name@),
{
    crate::error::cat3(
        "[Registry] Struct '",
        name,
        "' metadata not found in compiler cache.\nHelp: Did you annotate the struct with #[derive(EnkiStruct)]?",
    )
}

/// The outcome of looking `name` up in `entries[i..]`.
pub open spec fn spec_lookup_from(entries: Seq<StructEntry>, name: Seq<char>, i: int) -> Result<ParsedStruct, ErrorView>
    decreases entries.len() - i,
{
    if i < 0 || i >= entries.len() {
        Err(ErrorView::Unresolved(name))
    } else if entries[i].name@ == name {
        match entries[i].loaded {
            Ok(s) => Ok(s),
            Err(m) => Err(ErrorView::Message(m@)),
        }
    } else {
        spec_lookup_from(entries, name, i + 1)
    }
}

/// The outcome of looking `name` up: the first entry of that name decides; a
/// name with no entry is reported as unresolved, so that the caller can load it.
pub open spec fn spec_lookup(reg: StructRegistry, name: Seq<char>) -> Result<ParsedStruct, ErrorView> {
    spec_lookup_from(reg.entries@, name, 0)
}

impl StructRegistry {
    /// An empty registry.
    pub fn new() -> (r: StructRegistry)
        ensures
            r.entries@.len() == 0,
    {
        StructRegistry { entries: Vec::new() }
    }

    /// Records what loading `name` gave. Earlier entries of the same name keep
    /// precedence.
    pub fn record(&mut self, name: String, loaded: Result<ParsedStruct, String>)
        ensures
            final(self).entries@ == old(self).entries@.push(StructEntry { name, loaded }),
    {
        self.entries.push(StructEntry { name, loaded });
    }

    /// Looks up the layout of the struct called `name`.
    pub fn lookup(&self, name: &str) -> (r: Result<&ParsedStruct, CodegenError>)
        ensures
            match (r, spec_lookup(*self, name@)) {
                (Ok(s), Ok(t)) => *s == t,
                (Err(e), Err(v)) => e.view() == v,
                _ => false,
            },
    {
        let mut i: usize = 0;
        while i < self.entries.len()
            invariant
                i <= self.entries@.len(),
                spec_lookup(*self, name@) == spec_lookup_from(self.entries@, name@, i as int),
            decreases self.entries.len() - i,
        {
            let e = &self.entries[i];
            if crate::text::str_eq(e.name.as_str(), name) {
                return match &e.loaded {
                    Ok(s) => Ok(s),
                    Err(m) => Err(CodegenError::Message(m.clone())),
                };
            }
            i += 1;
        }
        Err(CodegenError::Unresolved(String::from_str(name)))
    }
}

/// Looking a name up in a prefix of the entries gives the same outcome as in
/// all of them, unless the prefix has no entry of that name.
pub proof fn lemma_lookup_extends(entries: Seq<StructEntry>, more: Seq<StructEntry>, name: Seq<char>, i: int)
    requires
        0 <= i <= entries.len(),
        !(spec_lookup_from(entries, name, i) is Err && spec_lookup_from(entries, name, i)->Err_0 is Unresolved),
    ensures
        spec_lookup_from(entries + more, name, i) == spec_lookup_from(entries, name, i),
    decreases entries.len() - i,
{
    if i < entries.len() {
        assert((entries + more)[i] == entries[i]);
        if entries[i].name@ != name {
            lemma_lookup_extends(entries, more, name, i + 1);
        }
    }
}

/// Recording more struct layouts never changes a lookup that did not come out
/// unresolved: the first entry of a name decides for good.
pub proof fn lemma_record_keeps_resolved(reg: StructRegistry, name: Seq<char>, entry: StructEntry)
    requires
        !(spec_lookup(reg, name) is Err && spec_lookup(reg, name)->Err_0 is Unresolved),
    ensures
        spec_lookup_from(reg.entries@.push(entry), name, 0) == spec_lookup(reg, name),
{
    assert(reg.entries@.push(entry) =~= reg.entries@ + seq![entry]);
    lemma_lookup_extends(reg.entries@, seq![entry], name, 0);
}

/// A name is resolved once its layout has been recorded: after recording what
/// loading `name` gave, looking `name` up is no longer unresolved. So the loop
/// that records each unresolved name and tries again makes progress.
pub proof fn lemma_recorded_name_resolves(reg: StructRegistry, entry: StructEntry)
    ensures
        !(spec_lookup_from(reg.entries@.push(entry), entry.name@, 0) is Err
            && spec_lookup_from(reg.entries@.push(entry), entry.name@, 0)->Err_0 is Unresolved),
{
    lemma_lookup_reaches(reg.entries@.push(entry), entry.name@, 0, reg.entries@.len() as int);
}

/// A lookup that starts at or before an entry of the name finds an entry.
proof fn lemma_lookup_reaches(entries: Seq<StructEntry>, name: Seq<char>, i: int, k: int)
    requires
        0 <= i <= k < entries.len(),
        entries[k].name@ == name,
    ensures
        !(spec_lookup_from(entries, name, i) is Err && spec_lookup_from(entries, name, i)->Err_0 is Unresolved),
    decreases k - i,
{
    if entries[i].name@ != name {
        lemma_lookup_reaches(entries, name, i + 1, k);
    }
}

} // verus!
