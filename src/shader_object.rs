use vstd::prelude::*;

verus! {

/// A drawable payload together with the names of the vertex and fragment
/// shaders it is drawn with.
pub struct ShaderObject<T> {
    vs: String,
    fs: String,
    data: T,
}

impl<T> ShaderObject<T> {
    /// The name of the vertex shader.
    pub closed spec fn vertex_shader_spec(&self) -> Seq<char> {
        self.vs@
    }

    /// The name of the fragment shader.
    pub closed spec fn fragment_shader_spec(&self) -> Seq<char> {
        self.fs@
    }

    /// The payload that is drawn.
    pub closed spec fn data_spec(&self) -> T {
        self.data
    }

    /// Pairs `data` with the shaders named `vs` and `fs`.
    pub fn new(vs: String, fs: String, data: T) -> (r: ShaderObject<T>)
        ensures
            r.vertex_shader_spec() == vs@,
            r.fragment_shader_spec() == fs@,
            r.data_spec() == data,
    {
        ShaderObject { vs, fs, data }
    }

    /// The payload to draw.
    pub fn draw(&self) -> (r: &T)
        ensures
            *r == self.data_spec(),
    {
        &self.data
    }

    /// The name of the vertex shader.
    pub fn vertex_shader(&self) -> (r: &str)
        ensures
            r@ == self.vertex_shader_spec(),
    {
        self.vs.as_str()
    }

    /// The name of the fragment shader.
    pub fn fragment_shader(&self) -> (r: &str)
        ensures
            r@ == self.fragment_shader_spec(),
    {
        self.fs.as_str()
    }
}

} // verus!
