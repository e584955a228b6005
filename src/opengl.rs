//! OpenGL objects as the library sees them: identifiers that the driver gave
//! out, tied to the context they belong to, and the judgement of the driver's
//! compile and link reports.
use vstd::prelude::*;
use vstd::string::StrSliceExecFns;
use vstd::string::StringExecFns;

verus! {

/// The OpenGL context that the objects below belong to.
pub struct OpenGlContext {}

impl OpenGlContext {
    pub fn new() -> OpenGlContext {
        OpenGlContext {}
    }
}

/// A draw session on a context: it lasts while the render guard is held.
pub struct OpenGlRenderer<'context> {
    context: &'context OpenGlContext,
}

impl<'context> OpenGlRenderer<'context> {
    pub fn new(context: &'context OpenGlContext) -> (r: OpenGlRenderer<'context>)
        ensures
            r.context() == context,
    {
        OpenGlRenderer { context }
    }

    /// The context that the session draws on.
    pub closed spec fn context(&self) -> &'context OpenGlContext {
        self.context
    }
}

/// A vertex buffer: the driver's identifier for it, and the index of the
/// next vertex to be written to it.
#[derive(Debug, Clone, Copy, PartialEq, Eq)]
pub struct VertexBuffer {
    pub id: u32,
    pub next_index: u32,
}

/// A polygon: a vertex buffer and the number of vertices drawn from it.
pub struct Polygon<'context> {
    vertex_buffer: VertexBuffer,
    vertexs_count: i32,
    context: &'context OpenGlContext,
}

impl<'context> Polygon<'context> {
    /// A polygon of `vertex_count` vertices held in `vertex_buffer`; the
    /// count must fit the driver's signed 32-bit vertex count.
    pub fn new(context: &'context OpenGlContext, vertex_buffer: VertexBuffer, vertex_count: usize) -> (r:
        Polygon<'context>)
        requires
            vertex_count <= i32::MAX,
        ensures
            r.buffer() == vertex_buffer,
            r.count() == vertex_count,
    {
        Polygon { vertex_buffer, vertexs_count: vertex_count as i32, context }
    }

    pub closed spec fn buffer(&self) -> VertexBuffer {
        self.vertex_buffer
    }

    pub closed spec fn count(&self) -> i32 {
        self.vertexs_count
    }

    /// The buffer that holds the vertices.
    pub fn vertex_buffer(&self) -> (r: VertexBuffer)
        ensures
            r == self.buffer(),
    {
        self.vertex_buffer
    }

    /// The number of vertices drawn.
    pub fn vertexs_count(&self) -> (r: i32)
        ensures
            r == self.count(),
    {
        self.vertexs_count
    }
}

/// The message for a shader object that the driver did not create.
pub const NO_SHADER_ID: &'static str = "Error al generar el id del shader";

/// Judges the driver's report on a shader: the object it created (zero for
/// none), whether the source compiled, and the compiler's log. A missing
/// object or a failed compile is an error with the message that explains
/// it; the log is handed on verbatim.
pub fn shader_outcome(shader_id: u32, compiled: bool, info_log: String) -> (r: Result<u32, String>)
    ensures
        shader_id == 0 ==> (r matches Err(m) && m@ == NO_SHADER_ID@),
        shader_id != 0 && !compiled ==> (r matches Err(m) && m@ == info_log@),
        shader_id != 0 && compiled ==> r == Ok::<u32, String>(shader_id),
{
    if shader_id == 0 {
        Err(String::from_str(NO_SHADER_ID))
    } else if !compiled {
        Err(info_log)
    } else {
        Ok(shader_id)
    }
}

/// A compiled fragment shader.
pub struct FragShader<'context> {
    pub id: u32,
    pub context: &'context OpenGlContext,
}

impl<'context> FragShader<'context> {
    /// The fragment shader that the driver reported on, or the error that
    /// its report makes.
    pub fn new(context: &'context OpenGlContext, shader_id: u32, compiled: bool, info_log: String) -> (r:
        Result<FragShader<'context>, String>)
        ensures
            shader_id == 0 ==> (r matches Err(m) && m@ == NO_SHADER_ID@),
            shader_id != 0 && !compiled ==> (r matches Err(m) && m@ == info_log@),
            shader_id != 0 && compiled ==> (r matches Ok(s) && s.id == shader_id),
    {
        match shader_outcome(shader_id, compiled, info_log) {
            Ok(id) => Ok(FragShader { id, context }),
            Err(m) => Err(m),
        }
    }
}

/// A compiled vertex shader.
pub struct VertShader<'context> {
    pub context: &'context OpenGlContext,
    pub id: u32,
}

impl<'context> VertShader<'context> {
    /// The vertex shader that the driver reported on, or the error that its
    /// report makes.
    pub fn new(context: &'context OpenGlContext, shader_id: u32, compiled: bool, info_log: String) -> (r:
        Result<VertShader<'context>, String>)
        ensures
            shader_id == 0 ==> (r matches Err(m) && m@ == NO_SHADER_ID@),
            shader_id != 0 && !compiled ==> (r matches Err(m) && m@ == info_log@),
            shader_id != 0 && compiled ==> (r matches Ok(s) && s.id == shader_id),
    {
        match shader_outcome(shader_id, compiled, info_log) {
            Ok(id) => Ok(VertShader { context, id }),
            Err(m) => Err(m),
        }
    }
}

/// A linked shader program and the two shaders it was linked from.
pub struct ShaderProgram<'vert_shader, 'frag_shader, 'context> {
    id: u32,
    context: &'context OpenGlContext,
    vert_shader: &'vert_shader VertShader<'context>,
    frag_shader: &'frag_shader FragShader<'context>,
}

impl<'vert_shader, 'frag_shader, 'context> ShaderProgram<'vert_shader, 'frag_shader, 'context> {
    /// The program that the driver linked from the two shaders, or, where the
    /// link failed, the linker's log verbatim.
    pub fn new(
        context: &'context OpenGlContext,
        vert_shader: &'vert_shader VertShader<'context>,
        frag_shader: &'frag_shader FragShader<'context>,
        program_id: u32,
        linked: bool,
        info_log: String,
    ) -> (r: Result<ShaderProgram<'vert_shader, 'frag_shader, 'context>, String>)
        ensures
            !linked ==> (r matches Err(m) && m@ == info_log@),
            linked ==> (r matches Ok(p) && p.program_id() == program_id && p.vert_shader_of()
                == vert_shader && p.frag_shader_of() == frag_shader && p.context_of() == context),
    {
        if linked {
            Ok(ShaderProgram { id: program_id, context, vert_shader, frag_shader })
        } else {
            Err(info_log)
        }
    }

    pub closed spec fn program_id(&self) -> u32 {
        self.id
    }

    /// The vertex shader that the program was linked from.
    pub closed spec fn vert_shader_of(&self) -> &'vert_shader VertShader<'context> {
        self.vert_shader
    }

    /// The fragment shader that the program was linked from.
    pub closed spec fn frag_shader_of(&self) -> &'frag_shader FragShader<'context> {
        self.frag_shader
    }

    /// The context that the program belongs to.
    pub closed spec fn context_of(&self) -> &'context OpenGlContext {
        self.context
    }

    /// The driver's identifier of the program.
    pub fn id(&self) -> (r: u32)
        ensures
            r == self.program_id(),
    {
        self.id
    }
}

} // verus!
