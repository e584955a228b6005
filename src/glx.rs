//! GLX decisions: the framebuffer attributes asked for, the choice of an
//! alpha-capable configuration, the extension check, and the checks that a
//! created rendering context must pass.
use vstd::prelude::*;
use vstd::string::StrSliceExecFns;

verus! {

/// A failure while setting up the rendering context. Each one ends the setup.
#[derive(Debug, Clone, Copy, PartialEq, Eq)]
pub enum GlxError {
    /// The server lacks `GLX_ARB_create_context`.
    MissingContextExtension,
    /// The driver lacks vertex array objects (OpenGL 3).
    NoGl3Support,
    /// The driver lacks shaders.
    NoShaderSupport,
    /// The driver lacks buffer objects.
    NoBufferSupport,
    /// No framebuffer configuration has an alpha channel.
    NoAlphaConfig,
    /// The context could not be created, or the server reported an error
    /// while it was.
    ContextCreationFailed,
    /// The context renders through the server, not directly.
    IndirectContext,
}

// Attribute names and values of the GLX protocol.
pub const GLX_WINDOW_BIT: i32 = 0x1;
pub const GLX_DOUBLEBUFFER: i32 = 0x5;
pub const GLX_RED_SIZE: i32 = 0x8;
pub const GLX_GREEN_SIZE: i32 = 0x9;
pub const GLX_BLUE_SIZE: i32 = 0xa;
pub const GLX_ALPHA_SIZE: i32 = 0xb;
pub const GLX_DEPTH_SIZE: i32 = 0xc;
pub const GLX_STENCIL_SIZE: i32 = 0xd;
pub const GLX_X_VISUAL_TYPE: i32 = 0x22;
pub const GLX_DRAWABLE_TYPE: i32 = 0x8010;
pub const GLX_RENDER_TYPE: i32 = 0x8011;
pub const GLX_X_RENDERABLE: i32 = 0x8012;
pub const GLX_RGBA_BIT: i32 = 0x1;
pub const GLX_TRUE_COLOR: i32 = 0x8002;
pub const GLX_CONTEXT_MAJOR_VERSION_ARB: i32 = 0x2091;
pub const GLX_CONTEXT_MINOR_VERSION_ARB: i32 = 0x2092;

/// The name of the extension that creates versioned contexts.
pub const CREATE_CONTEXT_EXTENSION: &'static str = "GLX_ARB_create_context";

/// The framebuffer attributes that a transparent window needs.
pub open spec fn spec_visual_attributes() -> Seq<i32> {
    seq![
        GLX_RENDER_TYPE, GLX_RGBA_BIT,
        GLX_DRAWABLE_TYPE, GLX_WINDOW_BIT,
        GLX_X_RENDERABLE, 1,
        GLX_X_VISUAL_TYPE, GLX_TRUE_COLOR,
        GLX_RED_SIZE, 8,
        GLX_GREEN_SIZE, 8,
        GLX_BLUE_SIZE, 8,
        GLX_ALPHA_SIZE, 8,
        GLX_DEPTH_SIZE, 16,
        GLX_STENCIL_SIZE, 8,
        GLX_DOUBLEBUFFER, 1,
        0,
    ]
}

/// The framebuffer attributes that a transparent window needs, as key and
/// value pairs ended by a zero: RGBA rendering to a window, with an X visual
/// of the true-colour kind, eight bits per colour and alpha channel, a 16-bit
/// depth buffer, an 8-bit stencil buffer, and double buffering.
pub fn visual_attributes() -> (r: Vec<i32>)
    ensures
        r@ == spec_visual_attributes(),
{
    let r = vec![
        GLX_RENDER_TYPE, GLX_RGBA_BIT,
        GLX_DRAWABLE_TYPE, GLX_WINDOW_BIT,
        GLX_X_RENDERABLE, 1,
        GLX_X_VISUAL_TYPE, GLX_TRUE_COLOR,
        GLX_RED_SIZE, 8,
        GLX_GREEN_SIZE, 8,
        GLX_BLUE_SIZE, 8,
        GLX_ALPHA_SIZE, 8,
        GLX_DEPTH_SIZE, 16,
        GLX_STENCIL_SIZE, 8,
        GLX_DOUBLEBUFFER, 1,
        0,
    ];
    assert(r@ =~= spec_visual_attributes());
    r
}

/// The attributes of a context of version `major.minor`, ended by a zero.
pub fn context_attributes(major: i32, minor: i32) -> (r: Vec<i32>)
    ensures
        r@ == seq![GLX_CONTEXT_MAJOR_VERSION_ARB, major, GLX_CONTEXT_MINOR_VERSION_ARB, minor, 0i32],
{
    let r = vec![GLX_CONTEXT_MAJOR_VERSION_ARB, major, GLX_CONTEXT_MINOR_VERSION_ARB, minor, 0];
    assert(r@ =~= seq![GLX_CONTEXT_MAJOR_VERSION_ARB, major, GLX_CONTEXT_MINOR_VERSION_ARB, minor, 0i32]);
    r
}

/// Whether `i` is the position of the first non-zero alpha mask.
pub open spec fn is_first_alpha(alpha_masks: Seq<i16>, i: int) -> bool {
    &&& 0 <= i < alpha_masks.len()
    &&& alpha_masks[i] != 0
    &&& forall|j: int| 0 <= j < i ==> alpha_masks[j] == 0
}

/// Picks, among the configurations that the driver reported (given by the
/// alpha masks of their visuals, in the driver's order), the first one with
/// an alpha channel. Without one the transparent window cannot be made.
pub fn select_fb_config(alpha_masks: &Vec<i16>) -> (r: Result<usize, GlxError>)
    ensures
        r matches Ok(i) ==> is_first_alpha(alpha_masks@, i as int),
        r is Err <==> forall|j: int| 0 <= j < alpha_masks@.len() ==> alpha_masks@[j] == 0,
        r is Err ==> r == Err::<usize, GlxError>(GlxError::NoAlphaConfig),
{
    let mut i: usize = 0;
    while i < alpha_masks.len()
        invariant
            i <= alpha_masks@.len(),
            forall|j: int| 0 <= j < i ==> alpha_masks@[j] == 0,
        decreases alpha_masks@.len() - i,
    {
        if alpha_masks[i] != 0 {
            return Ok(i);
        }
        i = i + 1;
    }
    Err(GlxError::NoAlphaConfig)
}

/// Whether `name` stands in `list` at `i` as a whole word: a run without
/// spaces, with a space or an end of the list on either side.
pub open spec fn is_word_at(list: Seq<char>, name: Seq<char>, i: int) -> bool {
    &&& 0 <= i
    &&& i + name.len() <= list.len()
    &&& list.subrange(i, i + name.len()) == name
    &&& (i == 0 || list[i - 1] == ' ')
    &&& (i + name.len() == list.len() || list[i + name.len()] == ' ')
    &&& forall|k: int| 0 <= k < name.len() ==> name[k] != ' '
}

/// Whether `name` is one of the space-separated words of `list`.
pub open spec fn has_word(list: Seq<char>, name: Seq<char>) -> bool {
    exists|i: int| is_word_at(list, name, i)
}

fn has_no_space(name: &str) -> (r: bool)
    ensures
        r == forall|k: int| 0 <= k < name@.len() ==> name@[k] != ' ',
{
    let n = name.unicode_len();
    let mut k: usize = 0;
    while k < n
        invariant
            n == name@.len(),
            k <= n,
            forall|j: int| 0 <= j < k ==> name@[j] != ' ',
        decreases n - k,
    {
        if name.get_char(k) == ' ' {
            return false;
        }
        k = k + 1;
    }
    true
}

fn word_at(list: &str, name: &str, i: usize) -> (r: bool)
    requires
        forall|k: int| 0 <= k < name@.len() ==> name@[k] != ' ',
        i + name@.len() <= list@.len(),
    ensures
        r == is_word_at(list@, name@, i as int),
{
    let n = list.unicode_len();
    let m = name.unicode_len();
    if i > 0 && list.get_char(i - 1) != ' ' {
        return false;
    }
    if i + m < n && list.get_char(i + m) != ' ' {
        return false;
    }
    let mut k: usize = 0;
    while k < m
        invariant
            n == list@.len(),
            m == name@.len(),
            i + m <= n,
            k <= m,
            list@.subrange(i as int, i + k) == name@.subrange(0, k as int),
        decreases m - k,
    {
        if list.get_char(i + k) != name.get_char(k) {
            assert(list@.subrange(i as int, i + m)[k as int] != name@[k as int]);
            return false;
        }
        assert(list@.subrange(i as int, i + k + 1) =~= list@.subrange(i as int, i + k).push(
            list@[i + k],
        ));
        assert(name@.subrange(0, k + 1) =~= name@.subrange(0, k as int).push(name@[k as int]));
        k = k + 1;
    }
    assert(name@.subrange(0, m as int) =~= name@);
    true
}

/// Whether `name` is one of the extensions that a space-separated extension
/// list names.
pub fn check_extension(extensions: &str, name: &str) -> (r: bool)
    ensures
        r == has_word(extensions@, name@),
{
    if !has_no_space(name) {
        assert(forall|i: int| !is_word_at(extensions@, name@, i));
        return false;
    }
    let n = extensions.unicode_len();
    let m = name.unicode_len();
    if m > n {
        assert(forall|i: int| !is_word_at(extensions@, name@, i));
        return false;
    }
    let last = n - m;
    let mut i: usize = 0;
    loop
        invariant
            n == extensions@.len(),
            m == name@.len(),
            last == n - m,
            i <= last,
            forall|k: int| 0 <= k < m ==> name@[k] != ' ',
            forall|j: int| 0 <= j < i ==> !is_word_at(extensions@, name@, j),
        decreases last - i,
    {
        if word_at(extensions, name, i) {
            return true;
        }
        if i == last {
            assert forall|j: int| !is_word_at(extensions@, name@, j) by {
                if 0 <= j < i {
                }
            }
            return false;
        }
        i = i + 1;
    }
}

/// What the driver offers that the renderer needs.
#[derive(Debug, Clone, Copy, PartialEq, Eq)]
pub struct GlSupport {
    pub create_context_extension: bool,
    pub vertex_arrays: bool,
    pub shaders: bool,
    pub buffers: bool,
}

/// Checks, in this order, the context extension, vertex arrays, shaders and
/// buffers; the first that is missing is the error.
pub fn check_gl_support(support: &GlSupport) -> (r: Result<(), GlxError>)
    ensures
        r == if !support.create_context_extension {
            Err(GlxError::MissingContextExtension)
        } else if !support.vertex_arrays {
            Err(GlxError::NoGl3Support)
        } else if !support.shaders {
            Err(GlxError::NoShaderSupport)
        } else if !support.buffers {
            Err(GlxError::NoBufferSupport)
        } else {
            Ok(())
        },
{
    if !support.create_context_extension {
        Err(GlxError::MissingContextExtension)
    } else if !support.vertex_arrays {
        Err(GlxError::NoGl3Support)
    } else if !support.shaders {
        Err(GlxError::NoShaderSupport)
    } else if !support.buffers {
        Err(GlxError::NoBufferSupport)
    } else {
        Ok(())
    }
}

/// Judges a context creation: it failed when no context came back or when
/// the server reported an error meanwhile; a context that does not render
/// directly is refused. `is_direct` is consulted only for a created context.
pub fn check_created_context(is_null: bool, error_reported: bool, is_direct: bool) -> (r: Result<
    (),
    GlxError,
>)
    ensures
        r == if is_null || error_reported {
            Err(GlxError::ContextCreationFailed)
        } else if !is_direct {
            Err(GlxError::IndirectContext)
        } else {
            Ok(())
        },
{
    if is_null || error_reported {
        Err(GlxError::ContextCreationFailed)
    } else if !is_direct {
        Err(GlxError::IndirectContext)
    } else {
        Ok(())
    }
}

} // verus!
