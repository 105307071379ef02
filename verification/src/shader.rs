//! What the shader program takes from outside, by name.

use vstd::prelude::*;

verus! {

/// The type of a uniform.
#[derive(Clone, Copy, Debug, PartialEq, Eq, Structural)]
pub enum UniformKind {
    Float1,
    Float2,
    Float3,
    Float4,
    Int1,
    Int2,
    Int3,
    Int4,
    Mat4,
}

/// One uniform of a shader program.
#[derive(Clone, Debug)]
pub struct Uniform {
    pub name: String,
    pub kind: UniformKind,
    /// How many values of that type it holds.
    pub array_count: usize,
}

/// The inputs of the shader program besides the vertices.
#[derive(Clone, Debug)]
pub struct ShaderInputs {
    /// The names of its texture samplers, in binding order.
    pub images: Vec<String>,
    /// Its uniforms, in layout order.
    pub uniforms: Vec<Uniform>,
}

/// The inputs of the quad's shader: one texture, named `tex`, and no uniform.
pub fn meta() -> (inputs: ShaderInputs)
    ensures
        inputs.images@.len() == 1,
        inputs.images@[0]@ == "tex"@,
        inputs.uniforms@.len() == 0,
{
    let mut images: Vec<String> = Vec::new();
    images.push("tex".to_owned());
    ShaderInputs { images, uniforms: Vec::new() }
}

} // verus!
