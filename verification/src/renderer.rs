//! The decisions of the render pipeline: what a shader's pipeline is made
//! of, what a frame does, when the render targets are made anew, and what an
//! export needs.

use vstd::prelude::*;
use crate::shader::UVector2;

verus! {

/// The number of vertices of the triangle that covers the screen.
pub const VERTEX_COUNT: u32 = 3;

/// The multiple that both sides of an exported image must be.
pub const EXPORT_ALIGNMENT: u32 = 64;

/// The bytes of one pixel of an exported image.
pub const BYTES_PER_PIXEL: u32 = 4;

/// What the pipeline of a shader is sized for.
#[derive(Clone, Copy, Debug, PartialEq, Eq, Structural)]
pub struct ShaderRenderPass {
    /// The length of the push constants
    pub push_constants_size: u32,
    /// The length of the parameter buffer; zero where the shader has no
    /// parameters
    pub params_buffer_size: u64,
}

impl ShaderRenderPass {
    /// The pipeline has a parameter buffer and its bind group: it has them
    /// exactly when the shader has parameters.
    pub open spec fn binds_params(self) -> bool {
        self.params_buffer_size > 0
    }

    /// The pipeline for a shader with push constants and a parameter buffer
    /// of these lengths.
    pub fn new(push_constants_size: u32, params_buffer_size: u64) -> (pass: ShaderRenderPass)
        ensures
            pass == (ShaderRenderPass { push_constants_size, params_buffer_size }),
    {
        ShaderRenderPass { push_constants_size, params_buffer_size }
    }

    /// The pipeline has a parameter buffer and its bind group.
    pub fn has_params(&self) -> (yes: bool)
        ensures
            yes == self.binds_params(),
    {
        self.params_buffer_size > 0
    }
}

/// What one frame does, in this order: write the parameters, draw the
/// shader into the render target, show the render target and the interface,
/// copy the render target to the texture of the last frame. The third step
/// is part of every frame.
#[derive(Clone, Copy, Debug, PartialEq, Eq, Structural)]
pub struct FramePlan {
    /// Write the parameters into their buffer
    pub write_params: bool,
    /// Draw the shader
    pub draw: bool,
    /// Bind the parameters for the draw
    pub bind_params: bool,
    /// The number of vertices to draw
    pub vertices: u32,
    /// Copy the render target to the texture of the last frame
    pub copy_to_last: bool,
}

/// Why a frame could not be drawn.
#[derive(Clone, Copy, Debug, PartialEq, Eq, Structural)]
pub enum RenderError {
    /// The parameters do not have the length that the pipeline was made
    /// for: the pipeline has to be made anew
    ParamsSize { expected: u64, got: u64 },
}

/// Why an image could not be exported.
#[derive(Clone, Copy, Debug, PartialEq, Eq, Structural)]
pub enum ExportError {
    /// A side of the image is no multiple of 64
    Size,
    /// A row of the image has more bytes than a row can have
    TooLarge,
    /// No shader is loaded
    NoShader,
}

impl ExportError {
    /// A sentence for the user.
    pub fn message(&self) -> (text: &'static str)
        ensures
            text@ == match *self {
                ExportError::Size => "Invalid render size"@,
                ExportError::TooLarge => "Render size too large"@,
                ExportError::NoShader => "No shader loaded"@,
            },
    {
        match self {
            ExportError::Size => "Invalid render size",
            ExportError::TooLarge => "Render size too large",
            ExportError::NoShader => "No shader loaded",
        }
    }
}

/// What the export of one image needs.
#[derive(Clone, Copy, Debug, PartialEq, Eq, Structural)]
pub struct ExportPlan {
    /// The size of the image
    pub size: UVector2,
    /// The length of the buffer that takes the image
    pub buffer_size: u64,
    /// The bytes of one row of the image
    pub bytes_per_row: u32,
    /// The pipeline made for this one image
    pub pass: ShaderRenderPass,
}

/// The state of the render pipeline: the size of the render target, and the
/// pipeline of the shader, if one is loaded.
#[derive(Clone, Copy, Debug, PartialEq, Eq, Structural)]
pub struct Renderer {
    pub render_size: UVector2,
    pub shader_rpass: Option<ShaderRenderPass>,
}

/// The frame of a pipeline: the parameters are written where the shader has
/// any; the shader is drawn where one is loaded and the frame is not
/// paused; the render target is copied in every frame that is not paused.
pub open spec fn frame_of(pass: Option<ShaderRenderPass>, should_render: bool) -> FramePlan {
    FramePlan {
        write_params: pass is Some && pass->Some_0.binds_params(),
        draw: should_render && pass is Some,
        bind_params: should_render && pass is Some && pass->Some_0.binds_params(),
        vertices: VERTEX_COUNT,
        copy_to_last: should_render,
    }
}

/// What the export of an image of a size needs, or why there is none.
pub open spec fn export_of(
    pass: Option<ShaderRenderPass>,
    size: UVector2,
    params_len: u64,
    push_constants_len: u32,
) -> Result<ExportPlan, ExportError> {
    if size.x % 64 != 0 || size.y % 64 != 0 {
        Err(ExportError::Size)
    } else if 4 * size.x > u32::MAX {
        Err(ExportError::TooLarge)
    } else if pass is None {
        Err(ExportError::NoShader)
    } else {
        Ok(
            ExportPlan {
                size,
                buffer_size: (4 * size.x * size.y) as u64,
                bytes_per_row: (4 * size.x) as u32,
                pass: ShaderRenderPass {
                    push_constants_size: push_constants_len,
                    params_buffer_size: params_len,
                },
            },
        )
    }
}

impl Renderer {
    /// A pipeline with a render target of a size and no shader.
    pub fn new(render_size: UVector2) -> (renderer: Renderer)
        ensures
            renderer == (Renderer { render_size, shader_rpass: None }),
    {
        Renderer { render_size, shader_rpass: None }
    }

    /// Installs the pipeline of a new shader in place of the one before.
    pub fn set_shader(&mut self, push_constant_size: u32, params_buffer_size: u64) -> (pass:
        ShaderRenderPass)
        ensures
            pass == (ShaderRenderPass {
                push_constants_size: push_constant_size,
                params_buffer_size,
            }),
            final(self).shader_rpass == Some(pass),
            final(self).render_size == old(self).render_size,
    {
        let pass = ShaderRenderPass::new(push_constant_size, params_buffer_size);
        self.shader_rpass = Some(pass);
        pass
    }

    /// The plan of one frame with parameters of the length `params_len`.
    /// Parameters of another length than the pipeline was made for are
    /// refused.
    pub open spec fn rendered(self, params_len: u64, should_render: bool) -> Result<
        FramePlan,
        RenderError,
    > {
        if self.shader_rpass is Some && self.shader_rpass->Some_0.params_buffer_size != params_len {
            Err(
                RenderError::ParamsSize {
                    expected: self.shader_rpass->Some_0.params_buffer_size,
                    got: params_len,
                },
            )
        } else {
            Ok(frame_of(self.shader_rpass, should_render))
        }
    }

    /// Plans one frame.
    pub fn render(&self, params_len: u64, should_render: bool) -> (r: Result<
        FramePlan,
        RenderError,
    >)
        ensures
            r == self.rendered(params_len, should_render),
    {
        match self.shader_rpass {
            Some(pass) => {
                if pass.params_buffer_size != params_len {
                    Err(
                        RenderError::ParamsSize {
                            expected: pass.params_buffer_size,
                            got: params_len,
                        },
                    )
                } else {
                    Ok(
                        FramePlan {
                            write_params: pass.has_params(),
                            draw: should_render,
                            bind_params: should_render && pass.has_params(),
                            vertices: VERTEX_COUNT,
                            copy_to_last: should_render,
                        },
                    )
                }
            },
            None => Ok(
                FramePlan {
                    write_params: false,
                    draw: false,
                    bind_params: false,
                    vertices: VERTEX_COUNT,
                    copy_to_last: should_render,
                },
            ),
        }
    }

    /// Plans the export of one image of the size `render_size`.
    pub fn render_to_buffer(
        &self,
        render_size: UVector2,
        params_len: u64,
        push_constants_len: u32,
    ) -> (r: Result<ExportPlan, ExportError>)
        ensures
            r == export_of(self.shader_rpass, render_size, params_len, push_constants_len),
            r is Ok ==> r->Ok_0.buffer_size == r->Ok_0.bytes_per_row * render_size.y,
    {
        if render_size.x % EXPORT_ALIGNMENT != 0 || render_size.y % EXPORT_ALIGNMENT != 0 {
            return Err(ExportError::Size);
        }
        if render_size.x > u32::MAX / BYTES_PER_PIXEL {
            return Err(ExportError::TooLarge);
        }
        if self.shader_rpass.is_none() {
            return Err(ExportError::NoShader);
        }
        let bytes_per_row: u32 = BYTES_PER_PIXEL * render_size.x;
        assert(bytes_per_row as u64 * render_size.y as u64 <= 0xffff_ffff * 0xffff_ffff)
            by (nonlinear_arith)
            requires
                bytes_per_row <= 0xffff_ffff,
                render_size.y <= 0xffff_ffff,
        ;
        let buffer_size: u64 = bytes_per_row as u64 * render_size.y as u64;
        assert(buffer_size == 4 * render_size.x * render_size.y) by (nonlinear_arith)
            requires
                buffer_size == bytes_per_row * render_size.y,
                bytes_per_row == 4 * render_size.x,
        ;
        Ok(
            ExportPlan {
                size: render_size,
                buffer_size,
                bytes_per_row,
                pass: ShaderRenderPass::new(push_constants_len, params_len),
            },
        )
    }

    /// Takes a new size for the render target. The render target and the
    /// texture of the last frame are made anew only where the size changes.
    pub fn resize_inner_canvas(&mut self, size: UVector2) -> (recreate: bool)
        ensures
            recreate == (size != old(self).render_size),
            final(self).render_size == size,
            final(self).shader_rpass == old(self).shader_rpass,
    {
        let recreate = size.x != self.render_size.x || size.y != self.render_size.y;
        self.render_size = size;
        recreate
    }
}

} // verus!
