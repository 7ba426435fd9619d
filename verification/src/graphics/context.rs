//! The graphics context: everything the renderer remembers between draw
//! calls, and the commands it has recorded for the backend.

use vstd::prelude::*;
use crate::conf::{FullscreenType, WindowMode, WindowSetup};
use crate::error::{GameError, GameResult};
use crate::graphics::backend::GlBackendSpec;
use crate::graphics::factory::{Factory, FactoryState, ResourceRequest, ResourceRequestView};
use crate::graphics::image::{is_raw_image, is_zero_size_error, raw_image, Image, ImageState};
use crate::graphics::matrix::{mat4_identity, mat4_is_identity, mat4_mul, mat4_product};
use crate::graphics::sampler::{cache_with, requests_with, sampler_position, SamplerCache};
use crate::graphics::shader::{is_no_pipeline, PixelShader, PixelShaderId, ShaderState};
use crate::graphics::stack::{popped, pushed, with_top};
use crate::graphics::types::{
    AaMode,
    BlendMode,
    BufferId,
    Command,
    FilterMode,
    InstanceProperties,
    PipelineData,
    RenderTarget,
    SamplerId,
    SamplerInfo,
    Slice,
    TextureId,
    WindowRequest,
    WrapMode,
};

verus! {

/// The name of the vertex buffer of the unit quad.
pub const QUAD_VERTEX_BUFFER: u64 = 0;

/// The name of the index buffer of the unit quad.
pub const QUAD_INDEX_BUFFER: u64 = 1;

/// The number of indices of the unit quad: two triangles.
pub const QUAD_INDEX_COUNT: u32 = 6;

/// What a graphics context stands for.
pub struct GraphicsState {
    /// The colour that `clear` fills the render target with.
    pub background_color: glam::Vec4,
    /// The model-view-projection matrix as last computed.
    pub mvp: glam::Mat4,
    /// The projection matrix.
    pub projection: glam::Mat4,
    /// The model matrices, the current one last.
    pub transforms: Seq<glam::Mat4>,
    /// The view matrices, the current one last.
    pub views: Seq<glam::Mat4>,
    /// The one-texel white image used for untextured geometry.
    pub white_image: ImageState,
    /// The rectangle of the coordinate system: x, y, w, h.
    pub screen_rect: glam::Vec4,
    /// The OpenGL version that was asked for.
    pub backend_spec: GlBackendSpec,
    /// The number of samples per pixel of the window's surface.
    pub multisample_samples: u8,
    /// The resource factory.
    pub factory: FactoryState,
    /// The commands recorded since the backend last collected them.
    pub commands: Seq<Command>,
    /// What the pipeline is bound to.
    pub data: PipelineData,
    /// The slice that draws the unit quad.
    pub quad_slice: Slice,
    /// The sampler descriptor that new images get.
    pub default_sampler_info: SamplerInfo,
    /// The descriptors of the samplers created so far.
    pub samplers: Seq<SamplerInfo>,
    /// The shader used when none is selected.
    pub default_shader: PixelShaderId,
    /// The selected shader, if any.
    pub current_shader: Option<PixelShaderId>,
    /// The registered shaders.
    pub shaders: Seq<ShaderState>,
}

impl GraphicsState {
    /// Both matrix stacks hold at least their base element, the shader ids
    /// name registered shaders, and no sampler descriptor occurs twice.
    pub open spec fn wf(self) -> bool {
        &&& self.transforms.len() >= 1
        &&& self.views.len() >= 1
        &&& self.default_shader < self.shaders.len()
        &&& match self.current_shader {
            Some(id) => id < self.shaders.len(),
            None => true,
        }
        &&& self.samplers.no_duplicates()
    }

    /// The shader that draws: the selected one, or else the default.
    pub open spec fn active_shader(self) -> PixelShaderId {
        match self.current_shader {
            Some(id) => id,
            None => self.default_shader,
        }
    }

    /// The blend mode of the active shader.
    pub open spec fn blend_mode(self) -> BlendMode {
        self.shaders[self.active_shader() as int].active
    }

    /// Whether the active shader has a pipeline for `mode`.
    pub open spec fn supports(self, mode: BlendMode) -> bool {
        self.shaders[self.active_shader() as int].modes.contains(mode)
    }

    /// The state with `mode` as the blend mode of the active shader.
    pub open spec fn with_blend_mode(self, mode: BlendMode) -> GraphicsState {
        GraphicsState {
            shaders: self.shaders.update(
                self.active_shader() as int,
                ShaderState { active: mode, ..self.shaders[self.active_shader() as int] },
            ),
            ..self
        }
    }

    /// The state with `command` recorded after the others.
    pub open spec fn with_command(self, command: Command) -> GraphicsState {
        GraphicsState { commands: self.commands.push(command), ..self }
    }

    /// The state with the unit quad, the texture and the sampler for
    /// `sampler_info` bound. The sampler is created if it is not in the cache.
    pub open spec fn with_texture(self, texture: TextureId, sampler_info: SamplerInfo) -> GraphicsState {
        GraphicsState {
            samplers: cache_with(self.samplers, sampler_info),
            factory: requests_with(self.factory, self.samplers, sampler_info),
            data: PipelineData {
                vbuf: BufferId(QUAD_VERTEX_BUFFER),
                texture,
                sampler: SamplerId(sampler_position(self.samplers, sampler_info) as usize),
                out: self.data.out,
            },
            ..self
        }
    }

    /// The state with `target` as the active render target.
    pub open spec fn with_target(self, target: RenderTarget) -> GraphicsState {
        GraphicsState { data: PipelineData { out: target, ..self.data }, ..self }
    }

    /// The draw call that this state records for `slice`.
    pub open spec fn draw_command(self, slice: Option<&Slice>) -> Command {
        Command::Draw {
            slice: match slice {
                Some(s) => *s,
                None => self.quad_slice,
            },
            shader: self.active_shader(),
            blend_mode: self.blend_mode(),
            data: self.data,
        }
    }

    /// The product of the projection, the current view and the current model
    /// matrix, in this order.
    pub open spec fn composed(self) -> glam::Mat4 {
        mat4_product(mat4_product(self.projection, self.views.last()), self.transforms.last())
    }
}

/// The blend modes that the default shader has a pipeline for.
pub open spec fn default_blend_modes() -> Seq<BlendMode> {
    seq![
        BlendMode::Alpha,
        BlendMode::Add,
        BlendMode::Subtract,
        BlendMode::Invert,
        BlendMode::Multiply,
        BlendMode::Replace,
        BlendMode::Lighten,
        BlendMode::Darken,
    ]
}

/// The sampler descriptor that images get unless told otherwise: linear
/// filtering, clamped on both axes.
pub open spec fn initial_sampler_info() -> SamplerInfo {
    SamplerInfo { filter: FilterMode::Linear, wrap_x: WrapMode::Clamp, wrap_y: WrapMode::Clamp }
}

/// What the window is created with: the OpenGL version of `backend`, 5 bits
/// each for red, green and blue and 8 for alpha, multisampling only if more
/// than one sample is asked for, and the size and flags of the configuration.
pub open spec fn window_request(
    window_setup: WindowSetup,
    window_mode: WindowMode,
    backend: GlBackendSpec,
) -> WindowRequest {
    WindowRequest {
        gl_major: backend.major,
        gl_minor: backend.minor,
        channel_bits: (5u8, 5u8, 5u8, 8u8),
        multisample: if window_setup.samples.count() > 1 {
            Some(window_setup.samples.count())
        } else {
            None
        },
        width: window_mode.width,
        height: window_mode.height,
        resizable: window_setup.resizable,
        allow_highdpi: window_setup.allow_highdpi,
    }
}

/// The commands that a new context starts with: create the window, set the
/// swap interval, apply the window mode, upload the globals.
pub open spec fn startup_commands(
    window_setup: WindowSetup,
    window_mode: WindowMode,
    backend: GlBackendSpec,
    mvp: glam::Mat4,
) -> Seq<Command> {
    seq![
        Command::CreateWindow { request: window_request(window_setup, window_mode, backend) },
        Command::SetSwapInterval { interval: if window_mode.vsync { 1i32 } else { 0i32 } },
    ] + window_mode_commands(window_mode) + seq![Command::UpdateGlobals { mvp }]
}

/// Whether `g` is the state of a context that was just created from the
/// given values.
pub open spec fn is_initial_state(
    g: GraphicsState,
    window_setup: WindowSetup,
    window_mode: WindowMode,
    backend: GlBackendSpec,
    background_color: glam::Vec4,
    screen_rect: glam::Vec4,
    projection: glam::Mat4,
) -> bool {
    &&& g.background_color == background_color
    &&& g.screen_rect == screen_rect
    &&& g.projection == projection
    &&& g.transforms.len() == 1 && mat4_is_identity(g.transforms[0])
    &&& g.views.len() == 1 && mat4_is_identity(g.views[0])
    &&& g.mvp == g.composed()
    &&& g.white_image == (ImageState {
        texture: TextureId(0),
        sampler_info: initial_sampler_info(),
        blend_mode: None,
        width: 1,
        height: 1,
    })
    &&& g.backend_spec == backend
    &&& g.multisample_samples == window_setup.samples.count()
    &&& g.factory == (FactoryState {
        next_texture: 1,
        requests: seq![
            ResourceRequestView::Sampler { sampler: SamplerId(0), info: initial_sampler_info() },
            ResourceRequestView::Texture {
                id: TextureId(0),
                width: 1,
                height: 1,
                pixels: seq![255u8, 255u8, 255u8, 255u8],
            },
        ],
    })
    &&& g.commands == startup_commands(window_setup, window_mode, backend, g.mvp)
    &&& g.data == (PipelineData {
        vbuf: BufferId(QUAD_VERTEX_BUFFER),
        texture: TextureId(0),
        sampler: SamplerId(0),
        out: RenderTarget::Screen,
    })
    &&& g.quad_slice == (Slice {
        start: 0,
        end: QUAD_INDEX_COUNT,
        base_vertex: 0,
        instances: Some((1u32, 0u32)),
        buffer: BufferId(QUAD_INDEX_BUFFER),
    })
    &&& g.default_sampler_info == initial_sampler_info()
    &&& g.samplers == seq![initial_sampler_info()]
    &&& g.default_shader == 0
    &&& g.current_shader == None::<PixelShaderId>
    &&& g.shaders == seq![ShaderState { modes: default_blend_modes(), active: BlendMode::Alpha }]
}

/// The sampler descriptor with the given filter, clamped on both axes.
pub open spec fn clamped(mode: FilterMode) -> SamplerInfo {
    SamplerInfo { filter: mode, wrap_x: WrapMode::Clamp, wrap_y: WrapMode::Clamp }
}

/// The commands that make the window take the given mode.
pub open spec fn window_mode_commands(mode: WindowMode) -> Seq<Command> {
    seq![
        Command::SetWindowSize { width: mode.width, height: mode.height },
        Command::SetBordered { bordered: !mode.borderless },
        Command::SetFullscreen { fullscreen: mode.fullscreen_type },
        Command::SetMinimumSize { width: mode.min_width, height: mode.min_height },
        Command::SetMaximumSize { width: mode.max_width, height: mode.max_height },
    ]
}

/// The description of the error returned when a shader id names no shader.
pub open spec fn unknown_shader_text() -> Seq<char> {
    "Tried to select a shader that does not exist"@
}

/// Whether `r` is the render error that reports an unknown shader id.
pub open spec fn is_unknown_shader(r: GameResult<()>) -> bool {
    match r {
        Err(GameError::RenderError(msg)) => msg@ == unknown_shader_text(),
        _ => false,
    }
}

/// The graphics context.
#[derive(Debug)]
pub struct GraphicsContext {
    pub(crate) background_color: glam::Vec4,
    pub(crate) mvp: glam::Mat4,
    pub(crate) projection: glam::Mat4,
    pub(crate) transform_stack: Vec<glam::Mat4>,
    pub(crate) view_stack: Vec<glam::Mat4>,
    pub(crate) white_image: Image,
    pub(crate) screen_rect: glam::Vec4,
    pub(crate) backend_spec: GlBackendSpec,
    pub(crate) multisample_samples: u8,
    pub(crate) factory: Factory,
    pub(crate) encoder: Vec<Command>,
    pub(crate) data: PipelineData,
    pub(crate) quad_slice: Slice,
    pub(crate) default_sampler_info: SamplerInfo,
    pub(crate) samplers: SamplerCache,
    pub(crate) default_shader: PixelShaderId,
    pub(crate) current_shader: Option<PixelShaderId>,
    pub(crate) shaders: Vec<PixelShader>,
}

impl View for GraphicsContext {
    type V = GraphicsState;

    closed spec fn view(&self) -> GraphicsState {
        GraphicsState {
            background_color: self.background_color,
            mvp: self.mvp,
            projection: self.projection,
            transforms: self.transform_stack@,
            views: self.view_stack@,
            white_image: self.white_image@,
            screen_rect: self.screen_rect,
            backend_spec: self.backend_spec,
            multisample_samples: self.multisample_samples,
            factory: self.factory@,
            commands: self.encoder@,
            data: self.data,
            quad_slice: self.quad_slice,
            default_sampler_info: self.default_sampler_info,
            samplers: self.samplers@,
            default_shader: self.default_shader,
            current_shader: self.current_shader,
            shaders: self.shaders.deep_view(),
        }
    }
}

impl GraphicsContext {
    /// Both matrix stacks hold at least their base element, the shader ids
    /// name registered shaders, and no sampler descriptor occurs twice.
    pub open spec fn wf(&self) -> bool {
        self@.wf()
    }

    /// What the window has to be created with.
    pub fn window_request(
        window_setup: WindowSetup,
        window_mode: WindowMode,
        backend: GlBackendSpec,
    ) -> (request: WindowRequest)
        ensures
            request == window_request(window_setup, window_mode, backend),
    {
        let samples: u8 = window_setup.samples.to_u8();
        let multisample: Option<u8> = if samples > 1 {
            Some(samples)
        } else {
            None
        };
        WindowRequest {
            gl_major: backend.major,
            gl_minor: backend.minor,
            channel_bits: (5, 5, 5, 8),
            multisample,
            width: window_mode.width,
            height: window_mode.height,
            resizable: window_setup.resizable,
            allow_highdpi: window_setup.allow_highdpi,
        }
    }

    /// Creates the graphics context.
    ///
    /// The new context asks for the window, registers the default shader with
    /// a pipeline for every blend mode, requests the default sampler and the
    /// white one-texel image, binds the unit quad to them and to the screen,
    /// starts both matrix stacks with the identity, applies the window mode,
    /// and records the upload of the first model-view-projection matrix.
    ///
    /// `background_color`, `screen_rect` and `projection` are what the caller
    /// derived from the window size.
    pub fn new(
        window_setup: WindowSetup,
        window_mode: WindowMode,
        backend: GlBackendSpec,
        background_color: glam::Vec4,
        screen_rect: glam::Vec4,
        projection: glam::Mat4,
    ) -> (r: GameResult<GraphicsContext>)
        ensures
            r is Ok,
            r->Ok_0.wf(),
            is_initial_state(
                r->Ok_0@,
                window_setup,
                window_mode,
                backend,
                background_color,
                screen_rect,
                projection,
            ),
    {
        let request = Self::window_request(window_setup, window_mode, backend);
        let samples: u8 = window_setup.samples.to_u8();
        let mut encoder: Vec<Command> = Vec::new();
        encoder.push(Command::CreateWindow { request });

        let mut blend_modes: Vec<BlendMode> = Vec::new();
        blend_modes.push(BlendMode::Alpha);
        blend_modes.push(BlendMode::Add);
        blend_modes.push(BlendMode::Subtract);
        blend_modes.push(BlendMode::Invert);
        blend_modes.push(BlendMode::Multiply);
        blend_modes.push(BlendMode::Replace);
        blend_modes.push(BlendMode::Lighten);
        blend_modes.push(BlendMode::Darken);
        assert(blend_modes@ =~= default_blend_modes());
        let draw = PixelShader::new(Some(blend_modes.as_slice()));
        let mut shaders: Vec<PixelShader> = Vec::new();
        shaders.push(draw);
        assert(shaders.deep_view() =~= seq![draw@]);

        let mut quad_slice = Slice {
            start: 0,
            end: QUAD_INDEX_COUNT,
            base_vertex: 0,
            instances: None,
            buffer: BufferId(QUAD_INDEX_BUFFER),
        };
        quad_slice.instances = Some((1, 0));

        let mut factory = Factory::new();
        let mut samplers = SamplerCache::new();
        let sampler_info = SamplerInfo::new(FilterMode::Linear, WrapMode::Clamp);
        assert(!samplers@.contains(sampler_info));
        let sampler = samplers.get_or_insert(sampler_info, &mut factory);
        assert(samplers@ =~= seq![sampler_info]);
        let mut white: Vec<u8> = Vec::new();
        white.push(255);
        white.push(255);
        white.push(255);
        white.push(255);
        assert(white@ =~= seq![255u8, 255u8, 255u8, 255u8]);
        let white_image = Image::make_raw(&mut factory, &sampler_info, 1, 1, white.as_slice())?;
        let texture = white_image.texture();

        let data = PipelineData {
            vbuf: BufferId(QUAD_VERTEX_BUFFER),
            texture,
            sampler,
            out: RenderTarget::Screen,
        };

        let initial_projection = mat4_identity();
        let initial_view = mat4_identity();
        let initial_transform = mat4_identity();
        let mut transform_stack: Vec<glam::Mat4> = Vec::new();
        transform_stack.push(initial_transform);
        let mut view_stack: Vec<glam::Mat4> = Vec::new();
        view_stack.push(initial_view);

        let mut gfx = GraphicsContext {
            background_color,
            mvp: initial_projection,
            projection: initial_projection,
            transform_stack,
            view_stack,
            white_image,
            screen_rect,
            backend_spec: backend,
            multisample_samples: samples,
            factory,
            encoder,
            data,
            quad_slice,
            default_sampler_info: sampler_info,
            samplers,
            default_shader: 0,
            current_shader: None,
            shaders,
        };
        gfx.set_vsync(window_mode.vsync);
        gfx.set_window_mode(window_mode)?;
        gfx.set_projection_rect(screen_rect, projection);
        gfx.calculate_transform_matrix();
        gfx.update_globals()?;
        assert(gfx@.commands =~= startup_commands(window_setup, window_mode, backend, gfx@.mvp));
        assert(gfx@.factory.requests =~= seq![
            ResourceRequestView::Sampler { sampler: SamplerId(0), info: initial_sampler_info() },
            ResourceRequestView::Texture {
                id: TextureId(0),
                width: 1,
                height: 1,
                pixels: seq![255u8, 255u8, 255u8, 255u8],
            },
        ]);
        Ok(gfx)
    }

    /// Pushes a matrix onto the model matrix stack.
    pub fn push_transform(&mut self, t: glam::Mat4)
        requires
            old(self).wf(),
        ensures
            final(self).wf(),
            final(self)@ == (GraphicsState {
                transforms: pushed(old(self)@.transforms, t),
                ..old(self)@
            }),
    {
        self.transform_stack.push(t);
    }

    /// Pops the model matrix stack, unless only its base element is left.
    pub fn pop_transform(&mut self)
        requires
            old(self).wf(),
        ensures
            final(self).wf(),
            final(self)@ == (GraphicsState {
                transforms: popped(old(self)@.transforms),
                ..old(self)@
            }),
    {
        if self.transform_stack.len() > 1 {
            self.transform_stack.pop();
        }
    }

    /// Replaces the current model matrix.
    pub fn set_transform(&mut self, t: glam::Mat4)
        requires
            old(self).wf(),
        ensures
            final(self).wf(),
            final(self)@ == (GraphicsState {
                transforms: with_top(old(self)@.transforms, t),
                ..old(self)@
            }),
    {
        let last: usize = self.transform_stack.len() - 1;
        self.transform_stack.set(last, t);
    }

    /// The current model matrix.
    pub fn get_transform(&self) -> (t: glam::Mat4)
        requires
            self.wf(),
        ensures
            t == self@.transforms.last(),
    {
        self.transform_stack[self.transform_stack.len() - 1]
    }

    /// Pushes a matrix onto the view matrix stack.
    pub fn push_view(&mut self, v: glam::Mat4)
        requires
            old(self).wf(),
        ensures
            final(self).wf(),
            final(self)@ == (GraphicsState { views: pushed(old(self)@.views, v), ..old(self)@ }),
    {
        self.view_stack.push(v);
    }

    /// Pops the view matrix stack, unless only its base element is left.
    pub fn pop_view(&mut self)
        requires
            old(self).wf(),
        ensures
            final(self).wf(),
            final(self)@ == (GraphicsState { views: popped(old(self)@.views), ..old(self)@ }),
    {
        if self.view_stack.len() > 1 {
            self.view_stack.pop();
        }
    }

    /// Replaces the current view matrix.
    pub fn set_view(&mut self, t: glam::Mat4)
        requires
            old(self).wf(),
        ensures
            final(self).wf(),
            final(self)@ == (GraphicsState { views: with_top(old(self)@.views, t), ..old(self)@ }),
    {
        let last: usize = self.view_stack.len() - 1;
        self.view_stack.set(last, t);
    }

    /// The current view matrix.
    pub fn get_view(&self) -> (t: glam::Mat4)
        requires
            self.wf(),
        ensures
            t == self@.views.last(),
    {
        self.view_stack[self.view_stack.len() - 1]
    }

    /// Recomputes the model-view-projection matrix from the projection and
    /// the tops of the two stacks. Nothing is sent to the backend.
    pub fn calculate_transform_matrix(&mut self)
        requires
            old(self).wf(),
        ensures
            final(self).wf(),
            final(self)@ == (GraphicsState { mvp: old(self)@.composed(), ..old(self)@ }),
    {
        let model = self.transform_stack[self.transform_stack.len() - 1];
        let view = self.view_stack[self.view_stack.len() - 1];
        let pv = mat4_mul(&self.projection, &view);
        self.mvp = mat4_mul(&pv, &model);
    }

    /// Records the upload of the model-view-projection matrix as it was last
    /// computed.
    pub fn update_globals(&mut self) -> (r: GameResult<()>)
        requires
            old(self).wf(),
        ensures
            final(self).wf(),
            r is Ok,
            final(self)@ == old(self)@.with_command(Command::UpdateGlobals { mvp: old(self)@.mvp }),
    {
        self.encoder.push(Command::UpdateGlobals { mvp: self.mvp });
        Ok(())
    }

    /// Records the upload of the record that the next draw call reads. Only
    /// one record is in flight at a time.
    pub fn update_instance_properties(&mut self, properties: InstanceProperties) -> (r: GameResult<
        (),
    >)
        requires
            old(self).wf(),
        ensures
            final(self).wf(),
            r is Ok,
            final(self)@ == old(self)@.with_command(Command::UpdateInstance { properties }),
    {
        self.encoder.push(Command::UpdateInstance { properties });
        Ok(())
    }

    /// The shader that draws: the selected one, or else the default.
    pub fn active_shader(&self) -> (id: PixelShaderId)
        requires
            self.wf(),
        ensures
            id == self@.active_shader(),
            id < self@.shaders.len(),
    {
        match self.current_shader {
            Some(id) => id,
            None => self.default_shader,
        }
    }

    /// Records a draw call of `slice`, or of the unit quad if none is given,
    /// with the active shader, its blend mode and the current bindings. Fails
    /// with a render error, recording nothing, if the active shader has no
    /// pipeline for its blend mode.
    pub fn draw(&mut self, slice: Option<&Slice>) -> (r: GameResult<()>)
        requires
            old(self).wf(),
        ensures
            final(self).wf(),
            old(self)@.supports(old(self)@.blend_mode()) ==> r is Ok && final(self)@ == old(self)@.with_command(old(self)@.draw_command(slice)),
            !old(self)@.supports(old(self)@.blend_mode()) ==> is_no_pipeline(r) && final(self)@
                == old(self)@,
    {
        let slice: Slice = match slice {
            Some(s) => *s,
            None => self.quad_slice,
        };
        let id = self.active_shader();
        assert(self.shaders.deep_view()[id as int] == self.shaders@[id as int]@);
        self.shaders[id].draw()?;
        let blend_mode = self.shaders[id].get_blend_mode();
        self.encoder.push(Command::Draw { slice, shader: id, blend_mode, data: self.data });
        Ok(())
    }

    /// The blend mode of the active shader.
    pub fn get_blend_mode(&self) -> (mode: BlendMode)
        requires
            self.wf(),
        ensures
            mode == self@.blend_mode(),
    {
        let id = self.active_shader();
        assert(self.shaders.deep_view()[id as int] == self.shaders@[id as int]@);
        self.shaders[id].get_blend_mode()
    }

    /// Sets the blend mode of the active shader. Fails with a render error,
    /// changing nothing, if that shader has no pipeline for `mode`.
    pub fn set_blend_mode(&mut self, mode: BlendMode) -> (r: GameResult<()>)
        requires
            old(self).wf(),
        ensures
            final(self).wf(),
            old(self)@.supports(mode) ==> r is Ok && final(self)@ == old(self)@.with_blend_mode(
                mode,
            ),
            !old(self)@.supports(mode) ==> is_no_pipeline(r) && final(self)@ == old(self)@,
    {
        let id = self.active_shader();
        assert(self.shaders.deep_view()[id as int] == self.shaders@[id as int]@);
        let r = self.shaders[id].set_blend_mode(mode);
        assert(self.shaders.deep_view() =~= old(self).shaders.deep_view().update(
            id as int,
            self.shaders@[id as int]@,
        ));
        if r.is_err() {
            assert(self.shaders.deep_view() =~= old(self).shaders.deep_view());
        }
        r
    }

    /// Makes `rect` the rectangle of the coordinate system and `projection`,
    /// the orthographic projection that the caller derived from it, the
    /// projection matrix. Takes effect with the next upload of the globals.
    pub fn set_projection_rect(&mut self, rect: glam::Vec4, projection: glam::Mat4)
        requires
            old(self).wf(),
        ensures
            final(self).wf(),
            final(self)@ == (GraphicsState { screen_rect: rect, projection, ..old(self)@ }),
    {
        self.screen_rect = rect;
        self.projection = projection;
    }

    /// Replaces the projection matrix. Takes effect with the next upload of
    /// the globals.
    pub fn set_projection(&mut self, mat: glam::Mat4)
        requires
            old(self).wf(),
        ensures
            final(self).wf(),
            final(self)@ == (GraphicsState { projection: mat, ..old(self)@ }),
    {
        self.projection = mat;
    }

    /// The projection matrix.
    pub fn get_projection(&self) -> (mat: glam::Mat4)
        ensures
            mat == self@.projection,
    {
        self.projection
    }

    /// Records what makes the window take the given mode: its size, its
    /// border (shown unless the mode is borderless), its fullscreen state and
    /// its size limits, in this order.
    pub fn set_window_mode(&mut self, mode: WindowMode) -> (r: GameResult<()>)
        requires
            old(self).wf(),
        ensures
            final(self).wf(),
            r is Ok,
            final(self)@ == (GraphicsState {
                commands: old(self)@.commands + window_mode_commands(mode),
                ..old(self)@
            }),
    {
        self.encoder.push(Command::SetWindowSize { width: mode.width, height: mode.height });
        self.encoder.push(Command::SetBordered { bordered: !mode.borderless });
        self.encoder.push(Command::SetFullscreen { fullscreen: mode.fullscreen_type });
        self.encoder.push(
            Command::SetMinimumSize { width: mode.min_width, height: mode.min_height },
        );
        self.encoder.push(
            Command::SetMaximumSize { width: mode.max_width, height: mode.max_height },
        );
        assert(self.encoder@ =~= old(self).encoder@ + window_mode_commands(mode));
        Ok(())
    }

    /// Records the swap interval: 1 with vsync, 0 without.
    pub fn set_vsync(&mut self, vsync: bool)
        requires
            old(self).wf(),
        ensures
            final(self).wf(),
            final(self)@ == old(self)@.with_command(
                Command::SetSwapInterval { interval: if vsync { 1i32 } else { 0i32 } },
            ),
    {
        let interval: i32 = if vsync {
            1
        } else {
            0
        };
        self.encoder.push(Command::SetSwapInterval { interval });
    }

    /// Records that the render target and depth views have to be taken from
    /// the window again, as after a resize.
    pub fn resize_viewport(&mut self)
        requires
            old(self).wf(),
        ensures
            final(self).wf(),
            final(self)@ == old(self)@.with_command(Command::UpdateViews),
    {
        self.encoder.push(Command::UpdateViews);
    }

    /// Registers a shader with one pipeline for each of the given blend modes,
    /// or for `Alpha` alone if none are given, and returns its id. The new
    /// shader draws with `Alpha`; it is not selected.
    pub fn create_shader(&mut self, blend_modes: Option<&[BlendMode]>) -> (id: PixelShaderId)
        requires
            old(self).wf(),
        ensures
            final(self).wf(),
            id == old(self)@.shaders.len(),
            final(self)@ == (GraphicsState {
                shaders: old(self)@.shaders.push(
                    ShaderState {
                        modes: match blend_modes {
                            Some(modes) => modes@,
                            None => seq![BlendMode::Alpha],
                        },
                        active: BlendMode::Alpha,
                    },
                ),
                ..old(self)@
            }),
    {
        let shader = PixelShader::new(blend_modes);
        let id: usize = self.shaders.len();
        self.shaders.push(shader);
        assert(self.shaders.deep_view() =~= old(self).shaders.deep_view().push(shader@));
        id
    }

    /// Selects the shader that draws from now on. Its own blend mode comes
    /// into force with it. An id that names no shader is refused with a
    /// render error.
    pub fn set_shader(&mut self, id: PixelShaderId) -> (r: GameResult<()>)
        requires
            old(self).wf(),
        ensures
            final(self).wf(),
            id < old(self)@.shaders.len() ==> r is Ok && final(self)@ == (GraphicsState {
                current_shader: Some(id),
                ..old(self)@
            }),
            id >= old(self)@.shaders.len() ==> is_unknown_shader(r) && final(self)@ == old(self)@,
    {
        if id >= self.shaders.len() {
            return Err(GameError::RenderError("Tried to select a shader that does not exist".to_owned()));
        }
        self.current_shader = Some(id);
        Ok(())
    }

    /// Goes back to the default shader.
    pub fn clear_shader(&mut self)
        requires
            old(self).wf(),
        ensures
            final(self).wf(),
            final(self)@ == (GraphicsState { current_shader: None, ..old(self)@ }),
    {
        self.current_shader = None;
    }

    /// Hands the recorded commands to the caller, oldest first, and forgets
    /// them.
    pub fn take_commands(&mut self) -> (taken: Vec<Command>)
        requires
            old(self).wf(),
        ensures
            final(self).wf(),
            taken@ == old(self)@.commands,
            final(self)@ == (GraphicsState { commands: Seq::empty(), ..old(self)@ }),
    {
        let mut taken: Vec<Command> = Vec::new();
        std::mem::swap(&mut taken, &mut self.encoder);
        taken
    }

    /// Hands the recorded resource requests to the caller, oldest first, and
    /// forgets them.
    pub fn take_requests(&mut self) -> (taken: Vec<ResourceRequest>)
        requires
            old(self).wf(),
        ensures
            final(self).wf(),
            taken.deep_view() == old(self)@.factory.requests,
            final(self)@ == (GraphicsState {
                factory: FactoryState { requests: Seq::empty(), ..old(self)@.factory },
                ..old(self)@
            }),
    {
        self.factory.take_requests()
    }

    /// Binds the unit quad and the given texture, read through the sampler
    /// for `sampler_info`. The sampler comes from the cache; it is created on
    /// first use.
    pub fn bind_texture(&mut self, texture: TextureId, sampler_info: SamplerInfo)
        requires
            old(self).wf(),
        ensures
            final(self).wf(),
            final(self)@ == old(self)@.with_texture(texture, sampler_info),
    {
        let sampler = self.samplers.get_or_insert(sampler_info, &mut self.factory);
        self.data.vbuf = BufferId(QUAD_VERTEX_BUFFER);
        self.data.texture = texture;
        self.data.sampler = sampler;
    }

    /// Creates an image of the given size from a buffer of RGBA8 values, with
    /// the default sampler descriptor.
    pub fn create_image(&mut self, width: u16, height: u16, rgba: &[u8]) -> (r: GameResult<Image>)
        requires
            old(self).wf(),
        ensures
            final(self).wf(),
            is_raw_image(r, old(self)@.factory, old(self)@.default_sampler_info, width, height, rgba@),
            final(self)@ == (GraphicsState {
                factory: raw_image(
                    old(self)@.factory,
                    old(self)@.default_sampler_info,
                    width,
                    height,
                    rgba@,
                ).1,
                ..old(self)@
            }),
            r is Ok ==> r->Ok_0@.width == width && r->Ok_0@.height == height,
            (width == 0 || height == 0) ==> is_zero_size_error(r, width, height),
    {
        let info = self.default_sampler_info;
        Image::make_raw(&mut self.factory, &info, width, height, rgba)
    }

    /// Requests a texture of the given size that can be rendered into. A side
    /// of zero is refused with a resource-load error; otherwise the call fails
    /// only if no texture name is left.
    pub fn create_render_texture(
        &mut self,
        width: u16,
        height: u16,
        aa: AaMode,
        format: gfx::format::Format,
    ) -> (r: GameResult<TextureId>)
        requires
            old(self).wf(),
        ensures
            final(self).wf(),
            (width == 0 || height == 0) ==> is_zero_size_error(r, width, height) && final(self)@
                == old(self)@,
            width != 0 && height != 0 && old(self)@.factory.next_texture == u64::MAX
                ==> crate::graphics::image::is_out_of_textures(r) && final(self)@ == old(self)@,
            width != 0 && height != 0 && old(self)@.factory.next_texture < u64::MAX ==> r
                == Ok::<TextureId, GameError>(TextureId(old(self)@.factory.next_texture))
                && final(self)@ == (GraphicsState {
                factory: FactoryState {
                    next_texture: (old(self)@.factory.next_texture + 1) as u64,
                    requests: old(self)@.factory.requests.push(
                        ResourceRequestView::RenderTexture {
                            id: TextureId(old(self)@.factory.next_texture),
                            width,
                            height,
                            aa,
                            format,
                        },
                    ),
                },
                ..old(self)@
            }),
    {
        if width == 0 || height == 0 {
            return Err(Image::zero_size_error(width, height));
        }
        self.factory.create_render_texture(width, height, aa, format)
    }

    /// The sampler descriptor that new images get.
    pub fn default_sampler_info(&self) -> (info: SamplerInfo)
        ensures
            info == self@.default_sampler_info,
    {
        self.default_sampler_info
    }

    /// Makes `target` the active render target.
    pub fn set_render_target(&mut self, target: RenderTarget)
        requires
            old(self).wf(),
        ensures
            final(self).wf(),
            final(self)@ == old(self)@.with_target(target),
    {
        self.data.out = target;
    }

    /// Records the clearing of the active render target to the background
    /// colour.
    pub fn clear(&mut self)
        requires
            old(self).wf(),
        ensures
            final(self).wf(),
            final(self)@ == old(self)@.with_command(
                Command::Clear {
                    target: old(self)@.data.out,
                    color: old(self)@.background_color,
                },
            ),
    {
        self.encoder.push(Command::Clear { target: self.data.out, color: self.background_color });
    }

    /// Records the end of the frame: the backend submits everything recorded
    /// so far, shows the result and releases what is no longer used.
    pub fn present(&mut self)
        requires
            old(self).wf(),
        ensures
            final(self).wf(),
            final(self)@ == old(self)@.with_command(Command::Present),
    {
        self.encoder.push(Command::Present);
    }

    /// The background colour.
    pub fn background_color(&self) -> (color: glam::Vec4)
        ensures
            color == self@.background_color,
    {
        self.background_color
    }

    /// Sets the background colour.
    pub fn set_background_color(&mut self, color: glam::Vec4)
        requires
            old(self).wf(),
        ensures
            final(self).wf(),
            final(self)@ == (GraphicsState { background_color: color, ..old(self)@ }),
    {
        self.background_color = color;
    }

    /// The rectangle of the coordinate system.
    pub fn screen_rect(&self) -> (rect: glam::Vec4)
        ensures
            rect == self@.screen_rect,
    {
        self.screen_rect
    }

    /// Makes `mode`, clamped on both axes, the filter of images created from
    /// now on. The sampler is created right away if it is not in the cache.
    pub fn set_default_filter(&mut self, mode: FilterMode)
        requires
            old(self).wf(),
        ensures
            final(self).wf(),
            final(self)@ == (GraphicsState {
                samplers: cache_with(old(self)@.samplers, clamped(mode)),
                factory: requests_with(old(self)@.factory, old(self)@.samplers, clamped(mode)),
                default_sampler_info: clamped(mode),
                ..old(self)@
            }),
    {
        let sampler_info = SamplerInfo::new(mode, WrapMode::Clamp);
        let _sampler = self.samplers.get_or_insert(sampler_info, &mut self.factory);
        self.default_sampler_info = sampler_info;
    }

    /// The OpenGL version that was asked for.
    pub fn backend_spec(&self) -> (spec: GlBackendSpec)
        ensures
            spec == self@.backend_spec,
    {
        self.backend_spec
    }

    /// The number of samples per pixel of the window's surface.
    pub fn multisample_samples(&self) -> (samples: u8)
        ensures
            samples == self@.multisample_samples,
    {
        self.multisample_samples
    }

    /// The one-texel white image.
    pub fn white_image(&self) -> (image: Image)
        ensures
            image@ == self@.white_image,
    {
        self.white_image
    }

    /// What the pipeline is bound to.
    pub fn data(&self) -> (data: PipelineData)
        ensures
            data == self@.data,
    {
        self.data
    }

    /// Records a change of the fullscreen state.
    pub fn set_fullscreen(&mut self, fullscreen: FullscreenType)
        requires
            old(self).wf(),
        ensures
            final(self).wf(),
            final(self)@ == old(self)@.with_command(Command::SetFullscreen { fullscreen }),
    {
        self.encoder.push(Command::SetFullscreen { fullscreen });
    }

    /// The number of matrices on the model matrix stack: at least 1.
    pub fn transform_stack_len(&self) -> (n: usize)
        requires
            self.wf(),
        ensures
            n == self@.transforms.len(),
            n >= 1,
    {
        self.transform_stack.len()
    }

    /// The number of matrices on the view matrix stack: at least 1.
    pub fn view_stack_len(&self) -> (n: usize)
        requires
            self.wf(),
        ensures
            n == self@.views.len(),
            n >= 1,
    {
        self.view_stack.len()
    }

    /// The model-view-projection matrix as last computed.
    pub fn mvp(&self) -> (mvp: glam::Mat4)
        ensures
            mvp == self@.mvp,
    {
        self.mvp
    }

    /// The selected shader, if any.
    pub fn current_shader(&self) -> (id: Option<PixelShaderId>)
        ensures
            id == self@.current_shader,
    {
        self.current_shader
    }

    /// The sampler cache.
    pub fn samplers(&self) -> (cache: &SamplerCache)
        ensures
            cache@ == self@.samplers,
    {
        &self.samplers
    }

    /// The slice that draws the unit quad.
    pub fn quad_slice(&self) -> (slice: Slice)
        ensures
            slice == self@.quad_slice,
    {
        self.quad_slice
    }
}

} // verus!
