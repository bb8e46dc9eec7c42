//! The order of a frame.
//!
//! A frame is a viewport and a projection for the current size, a clear,
//! the selected mesh, and last the skybox if it is shown. The renderer
//! writes the frame down as a list of commands and leaves it to the host to
//! issue them.

use vstd::prelude::*;
use crate::cube::SKYBOX_INDEX_COUNT;
use crate::draw_properties::DrawProperties;
use crate::model::Model;
use crate::pipeline::{
    group_run, lemma_run_concat, run, sound, Capability, Command, DepthFunc, PipelineState,
    PolygonMode, VertexArray,
};
use crate::shader::{flag_as_int, flag_value, Program, Subroutine, Uniform};

verus! {

/// What the graphics device can do, found out once when the renderer is
/// made.
#[derive(Clone, Copy, Debug, PartialEq, Eq, Structural)]
pub enum Backend {
    /// Subroutines select the lighting terms, and polygons can be drawn as
    /// lines.
    Desktop,
    /// Flags select the lighting terms, and polygons are always filled.
    Web,
}

/// The texture unit the cube map is bound to.
pub const SKYBOX_TEXTURE_UNIT: u32 = 0;

/// What the renderer sets once, before the first frame: alpha blending on,
/// face culling off.
pub open spec fn setup_commands() -> Seq<Command> {
    Seq::<Command>::empty()
        .push(Command::Enable(Capability::Blend))
        .push(Command::BlendByAlpha)
        .push(Command::Disable(Capability::CullFace))
}

/// Viewport and projection for a framebuffer of this size.
pub open spec fn resize_commands(width: u32, height: u32) -> Seq<Command> {
    Seq::<Command>::empty()
        .push(Command::Viewport { width: width as i32, height: height as i32 })
        .push(Command::SetProjection { physical_width: width, physical_height: height })
}

/// Depth testing on, then the clear.
pub open spec fn clear_commands() -> Seq<Command> {
    Seq::<Command>::empty()
        .push(Command::Enable(Capability::DepthTest))
        .push(Command::SetClearColor)
        .push(Command::Clear)
}

/// The model program and the mesh's vertex array, then the six uniforms
/// the model program takes on every backend.
pub open spec fn model_prologue(selected: usize) -> Seq<Command> {
    Seq::<Command>::empty()
        .push(Command::UseProgram(Program::Model))
        .push(Command::BindVertexArray(Some(VertexArray::Model(selected))))
        .push(Command::SetUniform(Uniform::Model))
        .push(Command::SetUniform(Uniform::Mvp))
        .push(Command::SetUniform(Uniform::NormalMatrix))
        .push(Command::SetUniform(Uniform::Color))
        .push(Command::SetUniform(Uniform::LightDirection))
        .push(Command::SetUniform(Uniform::ViewPos))
}

/// The polygon mode that stands for the wireframe setting.
pub open spec fn mode_for(wireframe: bool) -> PolygonMode {
    if wireframe {
        PolygonMode::Line
    } else {
        PolygonMode::Fill
    }
}

/// How the lighting terms and the polygon mode are selected before the
/// draw call.
pub open spec fn lighting_commands(
    backend: Backend,
    diffuse: bool,
    specular: bool,
    wireframe: bool,
) -> Seq<Command> {
    match backend {
        Backend::Desktop => Seq::<Command>::empty()
            .push(Command::SetSubroutines(Subroutine::for_diffuse(diffuse), Subroutine::for_specular(specular)))
            .push(Command::SetPolygonMode(mode_for(wireframe))),
        Backend::Web => Seq::<Command>::empty()
            .push(Command::SetUniformInt(Uniform::DiffuseEnabled, flag_value(diffuse)))
            .push(Command::SetUniformInt(Uniform::SpecularEnabled, flag_value(specular))),
    }
}

/// What follows the draw call of the mesh: polygons filled again where the
/// mode can change, and no vertex array bound.
pub open spec fn model_epilogue(backend: Backend) -> Seq<Command> {
    match backend {
        Backend::Desktop => Seq::<Command>::empty()
            .push(Command::SetPolygonMode(PolygonMode::Fill))
            .push(Command::BindVertexArray(None)),
        Backend::Web => Seq::<Command>::empty()
            .push(Command::BindVertexArray(None)),
    }
}

/// Everything that draws the mesh numbered `selected`, which has `count`
/// indices.
pub open spec fn model_commands(
    backend: Backend,
    selected: usize,
    count: i32,
    diffuse: bool,
    specular: bool,
    wireframe: bool,
) -> Seq<Command> {
    model_prologue(selected) + lighting_commands(backend, diffuse, specular, wireframe).push(
        Command::DrawElements { count },
    ) + model_epilogue(backend)
}

/// Everything that draws the skybox.
pub open spec fn skybox_commands() -> Seq<Command> {
    Seq::<Command>::empty()
        .push(Command::Disable(Capability::CullFace))
        .push(Command::SetDepthFunc(DepthFunc::LessEqual))
        .push(Command::UseProgram(Program::Skybox))
        .push(Command::BindVertexArray(Some(VertexArray::Skybox)))
        .push(Command::BindCubeMap { unit: SKYBOX_TEXTURE_UNIT })
        .push(Command::SetUniform(Uniform::ProjectionView))
        .push(Command::SetUniformInt(Uniform::SkyboxTexture, 0))
        .push(Command::DrawElements { count: SKYBOX_INDEX_COUNT })
        .push(Command::BindVertexArray(None))
        .push(Command::SetDepthFunc(DepthFunc::Less))
        .push(Command::Enable(Capability::CullFace))
}

/// The skybox if it is shown, else nothing.
pub open spec fn skybox_if(shown: bool) -> Seq<Command> {
    if shown {
        skybox_commands()
    } else {
        Seq::empty()
    }
}

/// A whole frame.
pub open spec fn frame_commands<S>(
    backend: Backend,
    width: u32,
    height: u32,
    draw_props: DrawProperties<S>,
    count: i32,
) -> Seq<Command> {
    resize_commands(width, height) + clear_commands() + model_commands(
        backend,
        draw_props.selected_model_index,
        count,
        draw_props.diffuse_enabled,
        draw_props.specular_enabled,
        draw_props.wireframe_mode_enabled,
    ) + skybox_if(draw_props.skybox_enabled)
}

/// Writes frames down for one backend, and remembers the size of the
/// framebuffer it last made a viewport for.
pub struct Renderer {
    backend: Backend,
    width: u32,
    height: u32,
}

impl Renderer {
    /// The backend the renderer was made for.
    pub closed spec fn backend(self) -> Backend {
        self.backend
    }

    /// Width and height of the framebuffer, as last told.
    pub closed spec fn size(self) -> (u32, u32) {
        (self.width, self.height)
    }

    /// A renderer for `backend`, with the commands to issue once before
    /// the first frame. No size is known yet: both sides are zero.
    pub fn new(backend: Backend) -> (made: (Renderer, Vec<Command>))
        ensures
            made.0.backend() == backend,
            made.0.size() == (0u32, 0u32),
            made.1@ == setup_commands(),
    {
        let mut setup: Vec<Command> = Vec::new();
        setup.push(Command::Enable(Capability::Blend));
        setup.push(Command::BlendByAlpha);
        setup.push(Command::Disable(Capability::CullFace));
        assert(setup@ =~= setup_commands());
        (Renderer { backend, width: 0, height: 0 }, setup)
    }

    /// The backend the renderer was made for.
    pub fn capability(&self) -> (backend: Backend)
        ensures
            backend == self.backend(),
    {
        self.backend
    }

    /// Width and height of the framebuffer, as last told.
    pub fn framebuffer_size(&self) -> (size: (u32, u32))
        ensures
            size == self.size(),
    {
        (self.width, self.height)
    }

    /// Takes note of the size of the framebuffer, in physical pixels, and
    /// gives the viewport and the projection for it. The viewport takes
    /// each side as a signed number of the same 32 bits.
    pub fn resize(&mut self, physical_width: u32, physical_height: u32) -> (commands: Vec<Command>)
        ensures
            commands@ == resize_commands(physical_width, physical_height),
            final(self).size() == (physical_width, physical_height),
            final(self).backend() == old(self).backend(),
    {
        self.width = physical_width;
        self.height = physical_height;
        let mut commands: Vec<Command> = Vec::new();
        commands.push(
            Command::Viewport {
                width: #[verifier::truncate]
                (physical_width as i32),
                height: #[verifier::truncate]
                (physical_height as i32),
            },
        );
        commands.push(Command::SetProjection { physical_width, physical_height });
        assert(commands@ =~= resize_commands(physical_width, physical_height));
        commands
    }

    /// One frame for a framebuffer of the given size: viewport and
    /// projection, the clear, the selected mesh, and the skybox if it is
    /// shown. The selected mesh must be one of `models`.
    pub fn draw<S>(
        &mut self,
        physical_width: u32,
        physical_height: u32,
        draw_props: &DrawProperties<S>,
        models: &Vec<Model>,
    ) -> (frame: Vec<Command>)
        requires
            draw_props.selects_within(models.len() as nat),
        ensures
            frame@ == frame_commands(
                old(self).backend(),
                physical_width,
                physical_height,
                *draw_props,
                models[draw_props.selected_model_index as int].indices().len() as i32,
            ),
            final(self).size() == (physical_width, physical_height),
            final(self).backend() == old(self).backend(),
    {
        let mut frame = self.resize(physical_width, physical_height);
        frame.push(Command::Enable(Capability::DepthTest));
        frame.push(Command::SetClearColor);
        frame.push(Command::Clear);
        assert(frame@ =~= resize_commands(physical_width, physical_height) + clear_commands());
        let mut model = self.draw_model(draw_props, models);
        frame.append(&mut model);
        if draw_props.skybox_enabled {
            let mut skybox = self.draw_skybox();
            frame.append(&mut skybox);
        } else {
            assert(frame@ + Seq::<Command>::empty() =~= frame@);
        }
        frame
    }

    /// Everything that draws the selected mesh: program and vertex array,
    /// the uniforms, the lighting terms, one call for all its indices, and
    /// the state put back.
    pub fn draw_model<S>(&self, draw_props: &DrawProperties<S>, models: &Vec<Model>) -> (commands:
        Vec<Command>)
        requires
            draw_props.selects_within(models.len() as nat),
        ensures
            commands@ == model_commands(
                self.backend(),
                draw_props.selected_model_index,
                models[draw_props.selected_model_index as int].indices().len() as i32,
                draw_props.diffuse_enabled,
                draw_props.specular_enabled,
                draw_props.wireframe_mode_enabled,
            ),
    {
        let selected: usize = draw_props.selected_model_index;
        let count: i32 = models[selected].index_count();
        let mut commands: Vec<Command> = Vec::new();
        commands.push(Command::UseProgram(Program::Model));
        commands.push(Command::BindVertexArray(Some(VertexArray::Model(selected))));
        commands.push(Command::SetUniform(Uniform::Model));
        commands.push(Command::SetUniform(Uniform::Mvp));
        commands.push(Command::SetUniform(Uniform::NormalMatrix));
        commands.push(Command::SetUniform(Uniform::Color));
        commands.push(Command::SetUniform(Uniform::LightDirection));
        commands.push(Command::SetUniform(Uniform::ViewPos));
        assert(commands@ =~= model_prologue(selected));
        match self.backend {
            Backend::Desktop => {
                commands.push(
                    Command::SetSubroutines(
                        Subroutine::diffuse(draw_props.diffuse_enabled),
                        Subroutine::specular(draw_props.specular_enabled),
                    ),
                );
                let mode = if draw_props.wireframe_mode_enabled {
                    PolygonMode::Line
                } else {
                    PolygonMode::Fill
                };
                commands.push(Command::SetPolygonMode(mode));
            },
            Backend::Web => {
                commands.push(
                    Command::SetUniformInt(
                        Uniform::DiffuseEnabled,
                        flag_as_int(draw_props.diffuse_enabled),
                    ),
                );
                commands.push(
                    Command::SetUniformInt(
                        Uniform::SpecularEnabled,
                        flag_as_int(draw_props.specular_enabled),
                    ),
                );
            },
        }
        commands.push(Command::DrawElements { count });
        match self.backend {
            Backend::Desktop => {
                commands.push(Command::SetPolygonMode(PolygonMode::Fill));
            },
            Backend::Web => {},
        }
        commands.push(Command::BindVertexArray(None));
        assert(commands@ =~= model_commands(
            self.backend(),
            selected,
            count,
            draw_props.diffuse_enabled,
            draw_props.specular_enabled,
            draw_props.wireframe_mode_enabled,
        ));
        commands
    }

    /// Everything that draws the skybox. It is drawn last and passes the
    /// depth test only where nothing was drawn before.
    pub fn draw_skybox(&self) -> (commands: Vec<Command>)
        ensures
            commands@ == skybox_commands(),
    {
        let mut commands: Vec<Command> = Vec::new();
        commands.push(Command::Disable(Capability::CullFace));
        commands.push(Command::SetDepthFunc(DepthFunc::LessEqual));
        commands.push(Command::UseProgram(Program::Skybox));
        commands.push(Command::BindVertexArray(Some(VertexArray::Skybox)));
        commands.push(Command::BindCubeMap { unit: SKYBOX_TEXTURE_UNIT });
        commands.push(Command::SetUniform(Uniform::ProjectionView));
        commands.push(Command::SetUniformInt(Uniform::SkyboxTexture, 0));
        commands.push(Command::DrawElements { count: SKYBOX_INDEX_COUNT });
        commands.push(Command::BindVertexArray(None));
        commands.push(Command::SetDepthFunc(DepthFunc::Less));
        commands.push(Command::Enable(Capability::CullFace));
        assert(commands@ =~= skybox_commands());
        commands
    }
}

/// The graphics state after the mesh was drawn, if it was `state` before.
pub open spec fn after_model(state: PipelineState, backend: Backend) -> PipelineState {
    PipelineState {
        program: Some(Program::Model),
        vertex_array: None,
        polygon_mode: match backend {
            Backend::Desktop => PolygonMode::Fill,
            Backend::Web => state.polygon_mode,
        },
        ..state
    }
}

/// The graphics state after the skybox was drawn, if it was `state` before.
pub open spec fn after_skybox(state: PipelineState) -> PipelineState {
    PipelineState {
        cull_face: true,
        depth_func: DepthFunc::Less,
        program: Some(Program::Skybox),
        vertex_array: None,
        cube_map_unit: Some(SKYBOX_TEXTURE_UNIT),
        cube_map_bound: true,
        ..state
    }
}

/// Whatever the graphics state was, the mesh is drawn with the model
/// program and its own vertex array, in the polygon mode that was asked
/// for where the mode can change.
pub proof fn lemma_model_is_drawn_as_asked(
    state: PipelineState,
    backend: Backend,
    selected: usize,
    diffuse: bool,
    specular: bool,
    wireframe: bool,
)
    ensures
        ({
            let before_draw = run(
                state,
                model_prologue(selected) + lighting_commands(backend, diffuse, specular, wireframe),
            );
            &&& before_draw.program == Some(Program::Model)
            &&& before_draw.vertex_array == Some(VertexArray::Model(selected))
            &&& backend == Backend::Desktop ==> before_draw.polygon_mode == mode_for(wireframe)
            &&& backend == Backend::Web ==> before_draw.polygon_mode == state.polygon_mode
        }),
{
    broadcast use group_run;

    lemma_run_concat(
        state,
        model_prologue(selected),
        lighting_commands(backend, diffuse, specular, wireframe),
    );
}

/// Drawing the mesh leaks no state: whatever the graphics state was, every
/// command makes sense where it stands, and afterwards no vertex array is
/// bound and polygons are filled again. Nothing else changes but the
/// program in use.
pub proof fn lemma_model_draw_restores(
    state: PipelineState,
    backend: Backend,
    selected: usize,
    count: i32,
    diffuse: bool,
    specular: bool,
    wireframe: bool,
)
    ensures
        sound(state, model_commands(backend, selected, count, diffuse, specular, wireframe)),
        run(state, model_commands(backend, selected, count, diffuse, specular, wireframe))
            == after_model(state, backend),
{
    broadcast use group_run;

    let prologue = model_prologue(selected);
    let lighting = lighting_commands(backend, diffuse, specular, wireframe).push(
        Command::DrawElements { count },
    );
    let epilogue = model_epilogue(backend);
    lemma_run_concat(state, prologue, lighting);
    lemma_run_concat(state, prologue + lighting, epilogue);
}

/// Whatever the graphics state was, the skybox is drawn with face culling
/// off and with a depth test that lets through what is as far away as the
/// cleared depth buffer, and nothing before the draw call touches the way
/// the cube map is sampled.
pub proof fn lemma_skybox_is_drawn_behind(state: PipelineState)
    ensures
        skybox_commands()[7] == (Command::DrawElements { count: SKYBOX_INDEX_COUNT }),
        !run(state, skybox_commands().take(7)).cull_face,
        run(state, skybox_commands().take(7)).depth_func == DepthFunc::LessEqual,
        run(state, skybox_commands().take(7)).program == Some(Program::Skybox),
        run(state, skybox_commands().take(7)).vertex_array == Some(VertexArray::Skybox),
        run(state, skybox_commands().take(7)).cube_map_unit == Some(SKYBOX_TEXTURE_UNIT),
        run(state, skybox_commands().take(7)).sampling == state.sampling,
{
    broadcast use group_run;

    assert(skybox_commands().take(7) =~= Seq::<Command>::empty()
        .push(Command::Disable(Capability::CullFace))
        .push(Command::SetDepthFunc(DepthFunc::LessEqual))
        .push(Command::UseProgram(Program::Skybox))
        .push(Command::BindVertexArray(Some(VertexArray::Skybox)))
        .push(Command::BindCubeMap { unit: SKYBOX_TEXTURE_UNIT })
        .push(Command::SetUniform(Uniform::ProjectionView))
        .push(Command::SetUniformInt(Uniform::SkyboxTexture, 0)));
}

/// Drawing the skybox leaks no state: whatever the graphics state was,
/// every command makes sense where it stands, and afterwards the depth test
/// is the usual one again, face culling is on and no vertex array is bound.
pub proof fn lemma_skybox_draw_restores(state: PipelineState)
    ensures
        sound(state, skybox_commands()),
        run(state, skybox_commands()) == after_skybox(state),
{
    broadcast use group_run;

}

/// A whole frame makes sense from any graphics state, and what it leaves
/// behind is known: the viewport of the given size, depth testing on, and
/// the state the last thing drawn puts back.
pub proof fn lemma_frame_is_sound<S>(
    state: PipelineState,
    backend: Backend,
    width: u32,
    height: u32,
    draw_props: DrawProperties<S>,
    count: i32,
)
    ensures
        sound(state, frame_commands(backend, width, height, draw_props, count)),
        ({
            let cleared = PipelineState {
                viewport: (width as i32, height as i32),
                depth_test: true,
                ..state
            };
            run(state, frame_commands(backend, width, height, draw_props, count)) == (
            if draw_props.skybox_enabled {
                after_skybox(after_model(cleared, backend))
            } else {
                after_model(cleared, backend)
            })
        }),
{
    broadcast use group_run;

    let resize = resize_commands(width, height);
    let clear = clear_commands();
    let model = model_commands(
        backend,
        draw_props.selected_model_index,
        count,
        draw_props.diffuse_enabled,
        draw_props.specular_enabled,
        draw_props.wireframe_mode_enabled,
    );
    let skybox = skybox_if(draw_props.skybox_enabled);
    lemma_run_concat(state, resize, clear);
    let cleared = run(state, resize + clear);
    lemma_model_draw_restores(
        cleared,
        backend,
        draw_props.selected_model_index,
        count,
        draw_props.diffuse_enabled,
        draw_props.specular_enabled,
        draw_props.wireframe_mode_enabled,
    );
    lemma_run_concat(state, resize + clear, model);
    lemma_skybox_draw_restores(run(state, resize + clear + model));
    lemma_run_concat(state, resize + clear + model, skybox);
}

/// Every frame begins with the viewport and the projection for its own
/// size: a change of the framebuffer is never missed, however it came
/// about.
pub proof fn lemma_frame_begins_with_its_size<S>(
    backend: Backend,
    width: u32,
    height: u32,
    draw_props: DrawProperties<S>,
    count: i32,
)
    ensures
        frame_commands(backend, width, height, draw_props, count).len() >= 2,
        frame_commands(backend, width, height, draw_props, count)[0] == (Command::Viewport {
            width: width as i32,
            height: height as i32,
        }),
        frame_commands(backend, width, height, draw_props, count)[1] == (Command::SetProjection {
            physical_width: width,
            physical_height: height,
        }),
{
}

} // verus!
