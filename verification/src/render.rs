//! The render backend's state trackers, modelled as pure state machines.
//!
//! The graphics API itself runs outside this library: instead of issuing a
//! raw graphics call, every method updates the tracked state and returns
//! the exact commands to issue, in order, as plain values; the embedding
//! loop performs them against the real context. Object names that only the
//! graphics API can mint (buffer and vertex array names) are taken as
//! arguments.

use vstd::prelude::*;

verus! {

/// Draw triangles (the standard primitive-mode value).
pub const GL_TRIANGLES: u32 = 0x0004;

/// Draw lines (the standard primitive-mode value).
pub const GL_LINES: u32 = 0x0001;

/// The blending capability flag.
pub const GL_BLEND: u32 = 0x0BE2;

/// The face-culling capability flag.
pub const GL_CULL_FACE: u32 = 0x0B44;

/// Additive blend equation.
pub const GL_FUNC_ADD: u32 = 0x8006;

/// Source-alpha blend factor.
pub const GL_SRC_ALPHA: u32 = 0x0302;

/// Destination-alpha blend factor.
pub const GL_DST_ALPHA: u32 = 0x0304;

/// Cull both faces.
pub const GL_FRONT_AND_BACK: u32 = 0x0408;

/// Counter-clockwise front-face winding.
pub const GL_CCW: u32 = 0x0901;

/// Clamp texture coordinates to the edge.
pub const GL_CLAMP_TO_EDGE: u32 = 0x812F;

/// Linear texture filtering.
pub const GL_LINEAR: u32 = 0x2601;

/// Nearest-texel filtering.
pub const GL_NEAREST: u32 = 0x2600;

/// The first texture unit's binding token.
pub const GL_TEXTURE0: u32 = 0x84C0;

/// One graphics call to issue, with its arguments.
#[derive(Clone, Copy, PartialEq, Eq, Structural, Debug)]
pub enum GlCommand {
    /// Switch a capability on.
    Enable(u32),
    /// Switch a capability off.
    Disable(u32),
    /// Select the blend equation.
    BlendEquation(u32),
    /// Select the blend factors (source, destination).
    BlendFunc(u32, u32),
    /// Select which faces to cull.
    CullFace(u32),
    /// Select the front-face winding.
    FrontFace(u32),
    /// Place the viewport (x, y, width, height).
    Viewport(i32, i32, u32, u32),
    /// Bind a buffer name to a target.
    BindBuffer(u32, u32),
    /// Bind a buffer name to an indexed binding point (target, point, name).
    BindBufferBase(u32, u32, u32),
    /// Upload the caller's data to the bound buffer (target, usage).
    BufferData(u32, u32),
    /// Bind a vertex array name.
    BindVertexArray(u32),
}

/// The position of a texture-unit binding token relative to the first unit.
pub fn texture_binding(binding: u32) -> (r: i32)
    requires
        binding >= GL_TEXTURE0,
        binding - GL_TEXTURE0 <= i32::MAX,
    ensures
        r == binding - GL_TEXTURE0,
{
    (binding - GL_TEXTURE0) as i32
}

/// Tracks the blending state: whether it is on, and the equation and
/// factors configured.
pub struct BlendState {
    /// Whether blending is switched on.
    pub enabled: bool,
    /// The configured blend equation.
    pub equation: u32,
    /// The configured source factor.
    pub blend_func_source: u32,
    /// The configured destination factor.
    pub blend_func_destination: u32,
}

impl BlendState {
    /// The initial state — blending off, additive over alpha — and the
    /// commands that put the context there.
    pub fn build_initialized() -> (r: (Self, Vec<GlCommand>))
        ensures
            !r.0.enabled,
            r.0.equation == GL_FUNC_ADD,
            r.0.blend_func_source == GL_SRC_ALPHA,
            r.0.blend_func_destination == GL_DST_ALPHA,
            r.1@ == seq![
                GlCommand::Disable(GL_BLEND),
                GlCommand::BlendEquation(GL_FUNC_ADD),
                GlCommand::BlendFunc(GL_SRC_ALPHA, GL_DST_ALPHA),
            ],
    {
        let mut state = BlendState {
            enabled: false,
            equation: GL_FUNC_ADD,
            blend_func_source: GL_SRC_ALPHA,
            blend_func_destination: GL_DST_ALPHA,
        };
        let mut cmds = state.set_enabled(false);
        let mut more = state.configure(GL_FUNC_ADD, GL_SRC_ALPHA, GL_DST_ALPHA);
        cmds.append(&mut more);
        proof {
            assert(cmds@ =~= seq![
                GlCommand::Disable(GL_BLEND),
                GlCommand::BlendEquation(GL_FUNC_ADD),
                GlCommand::BlendFunc(GL_SRC_ALPHA, GL_DST_ALPHA),
            ]);
        }
        (state, cmds)
    }

    /// Switches blending on or off.
    pub fn set_enabled(&mut self, enabled: bool) -> (cmds: Vec<GlCommand>)
        ensures
            final(self).enabled == enabled,
            final(self).equation == old(self).equation,
            final(self).blend_func_source == old(self).blend_func_source,
            final(self).blend_func_destination == old(self).blend_func_destination,
            cmds@ == seq![
                if enabled {
                    GlCommand::Enable(GL_BLEND)
                } else {
                    GlCommand::Disable(GL_BLEND)
                },
            ],
    {
        self.enabled = enabled;
        let mut cmds: Vec<GlCommand> = Vec::new();
        if enabled {
            cmds.push(GlCommand::Enable(GL_BLEND));
        } else {
            cmds.push(GlCommand::Disable(GL_BLEND));
        }
        proof {
            assert(cmds@ =~= seq![
                if enabled {
                    GlCommand::Enable(GL_BLEND)
                } else {
                    GlCommand::Disable(GL_BLEND)
                },
            ]);
        }
        cmds
    }

    /// Configures the blend equation and factors.
    pub fn configure(
        &mut self,
        equation: u32,
        blend_func_source: u32,
        blend_func_destination: u32,
    ) -> (cmds: Vec<GlCommand>)
        ensures
            final(self).enabled == old(self).enabled,
            final(self).equation == equation,
            final(self).blend_func_source == blend_func_source,
            final(self).blend_func_destination == blend_func_destination,
            cmds@ == seq![
                GlCommand::BlendEquation(equation),
                GlCommand::BlendFunc(blend_func_source, blend_func_destination),
            ],
    {
        self.equation = equation;
        self.blend_func_source = blend_func_source;
        self.blend_func_destination = blend_func_destination;
        let mut cmds: Vec<GlCommand> = Vec::new();
        cmds.push(GlCommand::BlendEquation(equation));
        cmds.push(GlCommand::BlendFunc(blend_func_source, blend_func_destination));
        proof {
            assert(cmds@ =~= seq![
                GlCommand::BlendEquation(equation),
                GlCommand::BlendFunc(blend_func_source, blend_func_destination),
            ]);
        }
        cmds
    }
}

/// Tracks the face-culling state: the culled face and whether culling is on.
pub struct CullFaceState {
    /// Which faces are culled.
    pub cull_face: u32,
    /// Whether culling is switched on.
    pub enabled: bool,
}

impl CullFaceState {
    /// The initial state — cull both faces, culling on — and the commands
    /// that put the context there.
    pub fn build_initialized() -> (r: (Self, Vec<GlCommand>))
        ensures
            r.0.cull_face == GL_FRONT_AND_BACK,
            r.0.enabled,
            r.1@ == seq![
                GlCommand::CullFace(GL_FRONT_AND_BACK),
                GlCommand::Enable(GL_CULL_FACE),
            ],
    {
        let state = CullFaceState { cull_face: GL_FRONT_AND_BACK, enabled: true };
        let cmds = state.upload();
        (state, cmds)
    }

    /// Selects which faces to cull.
    pub fn set_mode(&mut self, cull_face: u32) -> (cmds: Vec<GlCommand>)
        ensures
            final(self).cull_face == cull_face,
            final(self).enabled == old(self).enabled,
            cmds@ == seq![GlCommand::CullFace(cull_face)],
    {
        self.cull_face = cull_face;
        let mut cmds: Vec<GlCommand> = Vec::new();
        cmds.push(GlCommand::CullFace(cull_face));
        proof {
            assert(cmds@ =~= seq![GlCommand::CullFace(cull_face)]);
        }
        cmds
    }

    /// Switches culling on or off.
    pub fn set_enabled(&mut self, enabled: bool) -> (cmds: Vec<GlCommand>)
        ensures
            final(self).enabled == enabled,
            final(self).cull_face == old(self).cull_face,
            cmds@ == seq![
                if enabled {
                    GlCommand::Enable(GL_CULL_FACE)
                } else {
                    GlCommand::Disable(GL_CULL_FACE)
                },
            ],
    {
        self.enabled = enabled;
        let mut cmds: Vec<GlCommand> = Vec::new();
        if enabled {
            cmds.push(GlCommand::Enable(GL_CULL_FACE));
        } else {
            cmds.push(GlCommand::Disable(GL_CULL_FACE));
        }
        proof {
            assert(cmds@ =~= seq![
                if enabled {
                    GlCommand::Enable(GL_CULL_FACE)
                } else {
                    GlCommand::Disable(GL_CULL_FACE)
                },
            ]);
        }
        cmds
    }

    /// The commands that reproduce the whole tracked state on the context.
    pub fn upload(&self) -> (cmds: Vec<GlCommand>)
        ensures
            cmds@ == seq![
                GlCommand::CullFace(self.cull_face),
                if self.enabled {
                    GlCommand::Enable(GL_CULL_FACE)
                } else {
                    GlCommand::Disable(GL_CULL_FACE)
                },
            ],
    {
        let mut cmds: Vec<GlCommand> = Vec::new();
        cmds.push(GlCommand::CullFace(self.cull_face));
        if self.enabled {
            cmds.push(GlCommand::Enable(GL_CULL_FACE));
        } else {
            cmds.push(GlCommand::Disable(GL_CULL_FACE));
        }
        proof {
            assert(cmds@ =~= seq![
                GlCommand::CullFace(self.cull_face),
                if self.enabled {
                    GlCommand::Enable(GL_CULL_FACE)
                } else {
                    GlCommand::Disable(GL_CULL_FACE)
                },
            ]);
        }
        cmds
    }
}

/// Tracks the front-face winding.
pub struct FrontFaceState(pub u32);

impl FrontFaceState {
    /// The initial state — counter-clockwise winding — and the command that
    /// puts the context there.
    pub fn build_initialized() -> (r: (Self, Vec<GlCommand>))
        ensures
            r.0.0 == GL_CCW,
            r.1@ == seq![GlCommand::FrontFace(GL_CCW)],
    {
        let state = FrontFaceState(GL_CCW);
        let cmds = state.upload();
        (state, cmds)
    }

    /// Selects the winding that counts as front-facing.
    pub fn set(&mut self, face: u32) -> (cmds: Vec<GlCommand>)
        ensures
            final(self).0 == face,
            cmds@ == seq![GlCommand::FrontFace(face)],
    {
        self.0 = face;
        self.upload()
    }

    /// The command that reproduces the tracked winding on the context.
    fn upload(&self) -> (cmds: Vec<GlCommand>)
        ensures
            cmds@ == seq![GlCommand::FrontFace(self.0)],
    {
        let mut cmds: Vec<GlCommand> = Vec::new();
        cmds.push(GlCommand::FrontFace(self.0));
        proof {
            assert(cmds@ =~= seq![GlCommand::FrontFace(self.0)]);
        }
        cmds
    }
}

/// Tracks the viewport rectangle.
pub struct ViewportState {
    /// Left edge.
    pub x: i32,
    /// Bottom edge.
    pub y: i32,
    /// Width in pixels.
    pub width: u32,
    /// Height in pixels.
    pub height: u32,
}

impl ViewportState {
    /// The initial one-pixel viewport at the origin, and the command that
    /// puts the context there.
    pub fn build_initialized() -> (r: (Self, Vec<GlCommand>))
        ensures
            r.0 == (ViewportState { x: 0, y: 0, width: 1, height: 1 }),
            r.1@ == seq![GlCommand::Viewport(0, 0, 1, 1)],
    {
        let state = ViewportState { x: 0, y: 0, width: 1, height: 1 };
        let cmds = state.upload();
        (state, cmds)
    }

    /// Places the viewport.
    pub fn set(&mut self, x: i32, y: i32, width: u32, height: u32) -> (cmds: Vec<GlCommand>)
        ensures
            *final(self) == (ViewportState { x, y, width, height }),
            cmds@ == seq![GlCommand::Viewport(x, y, width, height)],
    {
        self.x = x;
        self.y = y;
        self.width = width;
        self.height = height;
        self.upload()
    }

    /// Resizes the viewport in place.
    pub fn resize(&mut self, width: u32, height: u32) -> (cmds: Vec<GlCommand>)
        ensures
            *final(self) == (ViewportState { x: old(self).x, y: old(self).y, width, height }),
            cmds@ == seq![GlCommand::Viewport(old(self).x, old(self).y, width, height)],
    {
        self.width = width;
        self.height = height;
        self.upload()
    }

    /// The command that reproduces the tracked rectangle on the context.
    fn upload(&self) -> (cmds: Vec<GlCommand>)
        ensures
            cmds@ == seq![GlCommand::Viewport(self.x, self.y, self.width, self.height)],
    {
        let mut cmds: Vec<GlCommand> = Vec::new();
        cmds.push(GlCommand::Viewport(self.x, self.y, self.width, self.height));
        proof {
            assert(cmds@ =~= seq![GlCommand::Viewport(self.x, self.y, self.width, self.height)]);
        }
        cmds
    }
}

/// A vertex array object, by the name the graphics API minted for it.
#[derive(Clone, Copy, PartialEq, Eq, Structural, Debug)]
pub struct GLVertexArray(pub u32);

/// Tracks which vertex array is bound.
pub struct VertexArrayState {
    /// The binding, once one was made.
    pub current_bound_buffer: Option<GLVertexArray>,
}

impl VertexArrayState {
    /// No binding tracked yet.
    pub fn build_initialized() -> (r: Self)
        ensures
            r.current_bound_buffer is None,
    {
        VertexArrayState { current_bound_buffer: None }
    }

    /// Wraps a vertex array name the caller had minted.
    pub fn create(&self, handle: u32) -> (r: GLVertexArray)
        ensures
            r.0 == handle,
    {
        GLVertexArray(handle)
    }

    /// Binds a vertex array and records the binding.
    pub fn bind(&mut self, buffer: &GLVertexArray) -> (cmds: Vec<GlCommand>)
        ensures
            final(self).current_bound_buffer == Some(*buffer),
            cmds@ == seq![GlCommand::BindVertexArray(buffer.0)],
    {
        self.current_bound_buffer = Some(GLVertexArray(buffer.0));
        let mut cmds: Vec<GlCommand> = Vec::new();
        cmds.push(GlCommand::BindVertexArray(buffer.0));
        proof {
            assert(cmds@ =~= seq![GlCommand::BindVertexArray(buffer.0)]);
        }
        cmds
    }
}

/// What a buffer binding needs to upload data: its target and usage.
#[derive(Clone, Copy, PartialEq, Eq, Structural, Debug)]
pub struct GLBufferBinding {
    /// The buffer target.
    pub target: u32,
    /// The upload usage hint.
    pub usage: u32,
}

/// A buffer object: target, usage, and the name the graphics API minted.
#[derive(Clone, Copy, PartialEq, Eq, Structural, Debug)]
pub struct GLBuffer {
    /// The buffer target.
    pub target: u32,
    /// The upload usage hint.
    pub usage: u32,
    /// The buffer's name.
    pub handle: u32,
}

/// Tracks which buffer binding is current, so uploads go to the right
/// target with the right usage.
pub struct BufferState {
    /// The current binding, once one was made.
    pub current_bound_buffer: Option<GLBufferBinding>,
}

impl BufferState {
    /// No binding tracked yet.
    pub fn build_initialized() -> (r: Self)
        ensures
            r.current_bound_buffer is None,
    {
        BufferState { current_bound_buffer: None }
    }

    /// Wraps a buffer name the caller had minted, with its target and usage.
    pub fn create_buffer(&self, target: u32, usage: u32, handle: u32) -> (r: GLBuffer)
        ensures
            r == (GLBuffer { target, usage, handle }),
    {
        GLBuffer { target, usage, handle }
    }

    /// Binds a buffer and records target and usage for later uploads.
    pub fn bind_buffer(&mut self, buffer: &GLBuffer) -> (cmds: Vec<GlCommand>)
        ensures
            final(self).current_bound_buffer == Some(
                GLBufferBinding { target: buffer.target, usage: buffer.usage },
            ),
            cmds@ == seq![GlCommand::BindBuffer(buffer.target, buffer.handle)],
    {
        self.current_bound_buffer = Some(
            GLBufferBinding { target: buffer.target, usage: buffer.usage },
        );
        let mut cmds: Vec<GlCommand> = Vec::new();
        cmds.push(GlCommand::BindBuffer(buffer.target, buffer.handle));
        proof {
            assert(cmds@ =~= seq![GlCommand::BindBuffer(buffer.target, buffer.handle)]);
        }
        cmds
    }

    /// Binds a buffer to an indexed binding point; the tracked current
    /// binding is unchanged.
    pub fn bind_buffer_base(&mut self, bind_point: u32, buffer: &GLBuffer) -> (cmds: Vec<
        GlCommand,
    >)
        ensures
            final(self).current_bound_buffer == old(self).current_bound_buffer,
            cmds@ == seq![GlCommand::BindBufferBase(buffer.target, bind_point, buffer.handle)],
    {
        let mut cmds: Vec<GlCommand> = Vec::new();
        cmds.push(GlCommand::BindBufferBase(buffer.target, bind_point, buffer.handle));
        proof {
            assert(cmds@ =~= seq![
                GlCommand::BindBufferBase(buffer.target, bind_point, buffer.handle),
            ]);
        }
        cmds
    }

    /// The upload command for the caller's data against the current binding:
    /// one upload to the bound target with the bound usage, and none when
    /// nothing is bound.
    pub fn set_data(&mut self) -> (cmds: Vec<GlCommand>)
        ensures
            final(self).current_bound_buffer == old(self).current_bound_buffer,
            cmds@ == match old(self).current_bound_buffer {
                Some(b) => seq![GlCommand::BufferData(b.target, b.usage)],
                None => Seq::<GlCommand>::empty(),
            },
    {
        let mut cmds: Vec<GlCommand> = Vec::new();
        match &self.current_bound_buffer {
            Some(b) => {
                cmds.push(GlCommand::BufferData(b.target, b.usage));
                proof {
                    assert(cmds@ =~= seq![
                        GlCommand::BufferData(
                            old(self).current_bound_buffer.unwrap().target,
                            old(self).current_bound_buffer.unwrap().usage,
                        ),
                    ]);
                }
            },
            None => {},
        }
        cmds
    }
}

/// How a mesh is drawn: whether it writes depth, and its primitive mode.
#[derive(Clone, Copy, PartialEq, Eq, Structural, Debug)]
pub struct MeshFlags {
    /// Whether drawing the mesh writes the depth buffer.
    pub depth_write: bool,
    /// The primitive mode the mesh is drawn with.
    pub mode: u32,
}

impl MeshFlags {
    /// Depth writes on, triangles.
    pub fn new() -> (r: Self)
        ensures
            r.depth_write,
            r.mode == GL_TRIANGLES,
    {
        MeshFlags { depth_write: true, mode: GL_TRIANGLES }
    }

    /// Switches depth writes off.
    pub fn no_depth(self) -> (r: MeshFlags)
        ensures
            !r.depth_write,
            r.mode == self.mode,
    {
        MeshFlags { depth_write: false, ..self }
    }

    /// Draw as triangles.
    pub fn triangles_mode(self) -> (r: MeshFlags)
        ensures
            r.depth_write == self.depth_write,
            r.mode == GL_TRIANGLES,
    {
        MeshFlags { mode: GL_TRIANGLES, ..self }
    }

    /// Draw as lines.
    pub fn lines_mode(self) -> (r: MeshFlags)
        ensures
            r.depth_write == self.depth_write,
            r.mode == GL_LINES,
    {
        MeshFlags { mode: GL_LINES, ..self }
    }

    /// Wraps the flags for an optional-flags parameter.
    pub fn opt(self) -> (r: Option<Self>)
        ensures
            r == Some(self),
    {
        Some(self)
    }
}

impl Default for MeshFlags {
    /// Depth writes on, triangles.
    fn default() -> (r: Self)
        ensures
            r.depth_write,
            r.mode == GL_TRIANGLES,
    {
        MeshFlags { depth_write: true, mode: GL_TRIANGLES }
    }
}

/// How texture coordinates outside the texture are treated.
#[derive(Clone, Copy, PartialEq, Eq, Structural, Debug)]
pub enum TextureWrapping {
    /// Clamp to the edge texel.
    ClampToEdge,
}

impl TextureWrapping {
    /// The graphics API's value for this wrapping.
    pub fn gl_value(&self) -> (r: u32)
        ensures
            r == match *self {
                TextureWrapping::ClampToEdge => GL_CLAMP_TO_EDGE,
            },
    {
        match self {
            TextureWrapping::ClampToEdge => GL_CLAMP_TO_EDGE,
        }
    }
}

/// How texels are sampled when the texture is scaled.
#[derive(Clone, Copy, PartialEq, Eq, Structural, Debug)]
pub enum TextureFiltering {
    /// Linear interpolation between texels.
    Smooth,
    /// The nearest texel.
    Pixelated,
}

impl TextureFiltering {
    /// The graphics API's value for this filtering.
    pub fn gl_value(&self) -> (r: u32)
        ensures
            r == match *self {
                TextureFiltering::Smooth => GL_LINEAR,
                TextureFiltering::Pixelated => GL_NEAREST,
            },
    {
        match self {
            TextureFiltering::Smooth => GL_LINEAR,
            TextureFiltering::Pixelated => GL_NEAREST,
        }
    }
}

} // verus!
