//! What shader reflection yields: the entry points of a shader module, each
//! with the stage it runs in and its name as a C string.
use vstd::prelude::*;
use vstd::string::StringExecFns;

verus! {

/// A stage that a reflected entry point runs in.
#[derive(Clone, Copy, Debug, PartialEq, Eq, Structural)]
pub enum ShaderStage {
    Vertex,
    Fragment,
}

/// The `VkShaderStageFlags` of each stage.
pub open spec fn spec_shader_stage_flags(s: ShaderStage) -> u32 {
    match s {
        ShaderStage::Vertex => 0x1,
        ShaderStage::Fragment => 0x10,
    }
}

/// The `VkShaderStageFlags` of stage `s`.
pub fn shader_stage_flags(s: ShaderStage) -> (r: u32)
    ensures
        r == spec_shader_stage_flags(s),
{
    match s {
        ShaderStage::Vertex => 0x1,
        ShaderStage::Fragment => 0x10,
    }
}

/// The stage named `name` in reflection data: "vertex" or "fragment".
pub open spec fn spec_stage_named(name: Seq<char>) -> Option<ShaderStage> {
    if name == "vertex"@ {
        Some(ShaderStage::Vertex)
    } else if name == "fragment"@ {
        Some(ShaderStage::Fragment)
    } else {
        None
    }
}

/// The stage that reflection data names `name`, if it is one the renderer runs.
pub fn stage_named(name: &String) -> (r: Option<ShaderStage>)
    ensures
        r == spec_stage_named(name@),
{
    let vertex = String::from_str("vertex");
    let fragment = String::from_str("fragment");
    if *name == vertex {
        Some(ShaderStage::Vertex)
    } else if *name == fragment {
        Some(ShaderStage::Fragment)
    } else {
        None
    }
}

/// An input argument of an entry point.
pub struct Parameter {
    /// The argument's name.
    pub name: String,
    /// Its semantic, such as `SV_VERTEXID`.
    pub semantic_name: Option<String>,
    pub ty: ParameterType,
    pub stage: Option<String>,
    pub binding: Option<Binding>,
}

/// The value an entry point returns.
pub struct OutputParameter {
    pub ty: ParameterType,
    pub stage: Option<String>,
    pub binding: Option<Binding>,
}

/// Where a parameter is bound.
pub struct Binding {
    /// Such as `varyingInput` or `varyingOutput`.
    pub kind: String,
    pub index: Option<u32>,
    pub count: Option<u32>,
}

/// The type of a parameter.
pub struct ParameterType {
    /// `scalar`, `struct`, `vector` and so on.
    pub kind: String,
    /// For a scalar, the name of its type, such as `uint32`.
    pub scalar_type: Option<String>,
    /// For a struct, its name.
    pub name: Option<String>,
    /// For a struct, its fields.
    pub fields: Option<Vec<Parameter>>,
    /// For a vector, its number of elements.
    pub element_count: Option<u64>,
    /// For a vector, the type of its elements.
    pub element_type: Option<Box<ParameterType>>,
}

/// An entry point as reflection data lists it.
pub struct SREntryPoint {
    /// Its name, such as `vertMain`.
    pub name: String,
    /// Its stage, such as `vertex`.
    pub stage: String,
    pub parameters: Vec<Parameter>,
    pub result: OutputParameter,
}

impl SREntryPoint {
    /// The stage that the entry point runs in.
    pub fn shader_stage(&self) -> (r: ShaderStage)
        requires
            spec_stage_named(self.stage@) is Some,
        ensures
            Some(r) == spec_stage_named(self.stage@),
    {
        match stage_named(&self.stage) {
            Some(s) => s,
            None => vstd::pervasive::unreached(),
        }
    }
}

/// The reflection data of a shader module.
pub struct SR {
    pub entry_points: Vec<SREntryPoint>,
    pub bindless_space_index: u64,
}

/// What the renderer keeps of an entry point.
pub struct ShaderInfo {
    /// The entry point's name, with a terminating NUL byte.
    pub entry_point: Vec<u8>,
    pub stage: ShaderStage,
}

/// The UTF-8 bytes of a string.
pub open spec fn spec_utf8(s: Seq<char>) -> Seq<u8> {
    vstd::utf8::encode_utf8(s)
}

/// Whether a C string can be made of `bytes`: none of them is NUL.
pub open spec fn spec_c_string_ok(bytes: Seq<u8>) -> bool {
    forall|i: int| 0 <= i < bytes.len() ==> #[trigger] bytes[i] != 0
}

/// The C string of `bytes`: the bytes and a terminating NUL.
pub fn c_string(bytes: &[u8]) -> (r: Vec<u8>)
    requires
        spec_c_string_ok(bytes@),
    ensures
        r@ == bytes@.push(0),
{
    let mut out: Vec<u8> = Vec::new();
    let mut i: usize = 0;
    while i < bytes.len()
        invariant
            0 <= i <= bytes@.len(),
            out@ == bytes@.take(i as int),
        decreases bytes@.len() - i,
    {
        out.push(bytes[i]);
        i = i + 1;
        assert(out@ =~= bytes@.take(i as int));
    }
    out.push(0);
    assert(bytes@.take(bytes@.len() as int) =~= bytes@);
    out
}

/// Whether every entry point runs in a stage the renderer knows and has a
/// name that makes a C string.
pub open spec fn spec_entry_points_supported(eps: Seq<SREntryPoint>) -> bool {
    forall|i: int|
        0 <= i < eps.len() ==> spec_stage_named((#[trigger] eps[i]).stage@) is Some
            && spec_c_string_ok(spec_utf8(eps[i].name@))
}

/// Whether every entry point runs in a stage the renderer knows and has a
/// name that makes a C string.
pub fn entry_points_supported(eps: &Vec<SREntryPoint>) -> (r: bool)
    ensures
        r == spec_entry_points_supported(eps@),
{
    let mut i: usize = 0;
    while i < eps.len()
        invariant
            0 <= i <= eps@.len(),
            forall|k: int|
                0 <= k < i ==> spec_stage_named((#[trigger] eps@[k]).stage@) is Some
                    && spec_c_string_ok(spec_utf8(eps@[k].name@)),
        decreases eps@.len() - i,
    {
        let ep = &eps[i];
        if stage_named(&ep.stage).is_none() {
            return false;
        }
        let bytes = ep.name.as_str().as_bytes();
        let mut j: usize = 0;
        while j < bytes.len()
            invariant
                0 <= j <= bytes@.len(),
                i < eps@.len(),
                bytes@ == spec_utf8(eps@[i as int].name@),
                forall|k: int| 0 <= k < j ==> #[trigger] bytes@[k] != 0,
            decreases bytes@.len() - j,
        {
            if bytes[j] == 0 {
                assert(!spec_c_string_ok(spec_utf8(eps@[i as int].name@)));
                assert(!(spec_stage_named(eps@[i as int].stage@) is Some && spec_c_string_ok(
                    spec_utf8(eps@[i as int].name@),
                )));
                return false;
            }
            j = j + 1;
        }
        i = i + 1;
    }
    true
}

/// The shader of each entry point, in order: its name as a C string and its stage.
pub fn shader_infos(reflection: &SR) -> (r: Vec<ShaderInfo>)
    requires
        spec_entry_points_supported(reflection.entry_points@),
    ensures
        r@.len() == reflection.entry_points@.len(),
        forall|i: int|
            0 <= i < reflection.entry_points@.len() ==> (#[trigger] r@[i]).entry_point@ == spec_utf8(
                reflection.entry_points@[i].name@,
            ).push(0) && Some(r@[i].stage) == spec_stage_named(reflection.entry_points@[i].stage@),
{
    entry_point_infos(&reflection.entry_points)
}

fn entry_point_infos(eps: &Vec<SREntryPoint>) -> (r: Vec<ShaderInfo>)
    requires
        spec_entry_points_supported(eps@),
    ensures
        r@.len() == eps@.len(),
        forall|i: int|
            0 <= i < eps@.len() ==> (#[trigger] r@[i]).entry_point@ == spec_utf8(eps@[i].name@).push(
                0,
            ) && Some(r@[i].stage) == spec_stage_named(eps@[i].stage@),
{
    let mut out: Vec<ShaderInfo> = Vec::new();
    let mut i: usize = 0;
    while i < eps.len()
        invariant
            spec_entry_points_supported(eps@),
            0 <= i <= eps@.len(),
            out@.len() == i,
            forall|k: int|
                0 <= k < i ==> (#[trigger] out@[k]).entry_point@ == spec_utf8(eps@[k].name@).push(0)
                    && Some(out@[k].stage) == spec_stage_named(eps@[k].stage@),
        decreases eps@.len() - i,
    {
        let ep = &eps[i];
        let stage = ep.shader_stage();
        let entry_point = c_string(ep.name.as_str().as_bytes());
        out.push(ShaderInfo { entry_point, stage });
        i = i + 1;
    }
    out
}

} // verus!
