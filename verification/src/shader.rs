//! Compiled shader modules.
use vstd::prelude::*;
use crate::reflect::SR;

verus! {

/// SPIR-V code, as bytes.
pub struct SpirvModule {
    pub text: Vec<u8>,
}

/// A module that the shader compiler produced: its code and, when the
/// compiler's reflection data could be read, that too.
pub struct SlangModule {
    pub spirv: SpirvModule,
    pub reflection: Option<SR>,
}

/// Why a shader could not be made.
pub enum ShaderCreationError {
    IoError,
    /// The compiler's messages.
    SlangcError(Vec<String>),
}

} // verus!
