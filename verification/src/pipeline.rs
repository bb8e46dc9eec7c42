//! The commands a frame is made of, and a model of the graphics state they
//! act on.
//!
//! The renderer does not talk to the graphics device. It writes down, in
//! order, what the host is to tell it. The model of the state says what
//! each command changes, so that what a list of commands leaves behind can
//! be proved before anything is drawn.

use vstd::prelude::*;
use crate::model::VertexAttribute;
use crate::shader::{Program, Subroutine, Uniform};
use crate::skybox::CubeFace;

verus! {

/// A switch of the graphics device.
#[derive(Clone, Copy, Debug, PartialEq, Eq, Structural)]
pub enum Capability {
    Blend,
    CullFace,
    DepthTest,
}

/// How triangles are rasterised.
#[derive(Clone, Copy, Debug, PartialEq, Eq, Structural)]
pub enum PolygonMode {
    Fill,
    Line,
}

/// Which fragments pass the depth test.
#[derive(Clone, Copy, Debug, PartialEq, Eq, Structural)]
pub enum DepthFunc {
    /// Those nearer than what is there.
    Less,
    /// Those nearer than or as near as what is there.
    LessEqual,
}

/// A parameter of how a texture is sampled.
#[derive(Clone, Copy, Debug, PartialEq, Eq, Structural)]
pub enum TextureParameter {
    /// The filter where the texture is shown smaller than it is.
    MinFilter,
    /// The filter where the texture is shown larger than it is.
    MagFilter,
    /// What happens beyond the edge along the first axis.
    WrapS,
    /// What happens beyond the edge along the second axis.
    WrapT,
    /// What happens beyond the edge along the third axis.
    WrapR,
}

/// A value of a parameter of sampling.
#[derive(Clone, Copy, Debug, PartialEq, Eq, Structural)]
pub enum TextureSetting {
    /// Filter: the nearest texel.
    Nearest,
    /// Filter: the texels around, weighted.
    Linear,
    /// Beyond the edge the texture begins anew.
    Repeat,
    /// Beyond the edge the texel at the edge goes on.
    ClampToEdge,
}

/// How the pixels of an upload lie in memory.
#[derive(Clone, Copy, Debug, PartialEq, Eq, Structural)]
pub enum PixelFormat {
    /// Red, green and blue, one unsigned byte each, no padding.
    Rgb8,
}

/// How the bound cube map is sampled, as far as it was set since the cube
/// map was made.
#[derive(Clone, Copy, Debug, PartialEq, Eq, Structural)]
pub struct Sampling {
    pub min_filter: Option<TextureSetting>,
    pub mag_filter: Option<TextureSetting>,
    pub wrap_s: Option<TextureSetting>,
    pub wrap_t: Option<TextureSetting>,
    pub wrap_r: Option<TextureSetting>,
}

/// A vertex array of the viewer.
#[derive(Clone, Copy, Debug, PartialEq, Eq, Structural)]
pub enum VertexArray {
    /// That of the mesh with this number.
    Model(usize),
    /// That of the skybox cube.
    Skybox,
}

/// One thing the host tells the graphics device.
#[derive(Clone, Copy, Debug, PartialEq, Eq, Structural)]
pub enum Command {
    /// Draw into the rectangle of this size at the origin.
    Viewport { width: i32, height: i32 },
    /// Make the projection anew from the field of view and the aspect
    /// ratio of this size, with the near plane at 0.1 and the far one at 100.
    SetProjection { physical_width: u32, physical_height: u32 },
    Enable(Capability),
    Disable(Capability),
    /// Blend by the alpha of what is drawn.
    BlendByAlpha,
    /// Take the background colour, opaque, as the clear colour.
    SetClearColor,
    /// Clear colour and depth.
    Clear,
    UseProgram(Program),
    BindVertexArray(Option<VertexArray>),
    /// Upload the current value of a uniform.
    SetUniform(Uniform),
    /// Upload this integer as the value of a uniform.
    SetUniformInt(Uniform, i32),
    /// Select the subroutines of the fragment stage: the first for the
    /// diffuse term, the second for the specular one.
    SetSubroutines(Subroutine, Subroutine),
    SetPolygonMode(PolygonMode),
    SetDepthFunc(DepthFunc),
    /// Bind the cube map to this texture unit.
    BindCubeMap { unit: u32 },
    /// Draw this many indices as triangles.
    DrawElements { count: i32 },
    /// Make this vertex array and bind it.
    CreateVertexArray(VertexArray),
    /// Make a buffer, bind it as the vertex buffer and fill it with the
    /// vertices of what the bound vertex array stands for.
    UploadVertices,
    /// Make a buffer, bind it as the index buffer of the bound vertex array
    /// and fill it with the indices of what the vertex array stands for.
    UploadIndices,
    /// Switch an attribute on and say where the bound vertex buffer holds
    /// it.
    DescribeAttribute(VertexAttribute),
    /// Make a cube map and bind it.
    CreateCubeMap,
    /// Fill one face of the bound cube map with `side` by `side` pixels
    /// that lie in memory as `format` says.
    UploadFace { face: CubeFace, side: i32, format: PixelFormat },
    /// Set one parameter of how the bound cube map is sampled.
    SetCubeMapParameter(TextureParameter, TextureSetting),
}

/// The part of the graphics state that the viewer's commands change.
pub struct PipelineState {
    pub blend: bool,
    pub cull_face: bool,
    pub depth_test: bool,
    pub polygon_mode: PolygonMode,
    pub depth_func: DepthFunc,
    pub program: Option<Program>,
    pub vertex_array: Option<VertexArray>,
    pub cube_map_unit: Option<u32>,
    pub viewport: (i32, i32),
    /// Whether a vertex buffer was filled since the bound vertex array was
    /// made.
    pub vertex_buffer: bool,
    /// Whether a cube map is bound.
    pub cube_map_bound: bool,
    /// How the bound cube map is sampled.
    pub sampling: Sampling,
}

/// Sampling of which nothing was set.
pub open spec fn unset_sampling() -> Sampling {
    Sampling { min_filter: None, mag_filter: None, wrap_s: None, wrap_t: None, wrap_r: None }
}

/// Sampling with one parameter set.
pub open spec fn with_parameter(
    sampling: Sampling,
    parameter: TextureParameter,
    setting: TextureSetting,
) -> Sampling {
    match parameter {
        TextureParameter::MinFilter => Sampling { min_filter: Some(setting), ..sampling },
        TextureParameter::MagFilter => Sampling { mag_filter: Some(setting), ..sampling },
        TextureParameter::WrapS => Sampling { wrap_s: Some(setting), ..sampling },
        TextureParameter::WrapT => Sampling { wrap_t: Some(setting), ..sampling },
        TextureParameter::WrapR => Sampling { wrap_r: Some(setting), ..sampling },
    }
}

/// Whether a setting is one that the parameter takes: a filter for a
/// filter, a way of wrapping for an axis.
pub open spec fn takes(parameter: TextureParameter, setting: TextureSetting) -> bool {
    match parameter {
        TextureParameter::MinFilter | TextureParameter::MagFilter => setting
            == TextureSetting::Nearest || setting == TextureSetting::Linear,
        _ => setting == TextureSetting::Repeat || setting == TextureSetting::ClampToEdge,
    }
}

/// Bytes of one pixel in memory.
pub open spec fn bytes_per_pixel(format: PixelFormat) -> nat {
    match format {
        PixelFormat::Rgb8 => 3,
    }
}

/// Sampling that keeps each face of a cube map to itself: weighted
/// between the texels of one face, and along every axis the texel at the
/// edge goes on beyond the edge, so that no face bleeds into another.
pub open spec fn seamless() -> Sampling {
    Sampling {
        min_filter: Some(TextureSetting::Linear),
        mag_filter: Some(TextureSetting::Linear),
        wrap_s: Some(TextureSetting::ClampToEdge),
        wrap_t: Some(TextureSetting::ClampToEdge),
        wrap_r: Some(TextureSetting::ClampToEdge),
    }
}

/// The state with one switch set.
pub open spec fn with_switch(state: PipelineState, capability: Capability, on: bool) -> PipelineState {
    match capability {
        Capability::Blend => PipelineState { blend: on, ..state },
        Capability::CullFace => PipelineState { cull_face: on, ..state },
        Capability::DepthTest => PipelineState { depth_test: on, ..state },
    }
}

/// The state after one command.
pub open spec fn apply(state: PipelineState, command: Command) -> PipelineState {
    match command {
        Command::Viewport { width, height } => PipelineState { viewport: (width, height), ..state },
        Command::Enable(capability) => with_switch(state, capability, true),
        Command::Disable(capability) => with_switch(state, capability, false),
        Command::UseProgram(program) => PipelineState { program: Some(program), ..state },
        Command::BindVertexArray(array) => PipelineState { vertex_array: array, ..state },
        Command::SetPolygonMode(mode) => PipelineState { polygon_mode: mode, ..state },
        Command::SetDepthFunc(func) => PipelineState { depth_func: func, ..state },
        Command::BindCubeMap { unit } => PipelineState {
            cube_map_unit: Some(unit),
            cube_map_bound: true,
            ..state
        },
        Command::CreateVertexArray(array) => PipelineState {
            vertex_array: Some(array),
            vertex_buffer: false,
            ..state
        },
        Command::UploadVertices => PipelineState { vertex_buffer: true, ..state },
        Command::CreateCubeMap => PipelineState {
            cube_map_bound: true,
            sampling: unset_sampling(),
            ..state
        },
        Command::SetCubeMapParameter(parameter, setting) => PipelineState {
            sampling: with_parameter(state.sampling, parameter, setting),
            ..state
        },
        _ => state,
    }
}

/// Whether a command makes sense in a state: a uniform goes to the program
/// in use, subroutines are those of the model program, the skybox cube is
/// drawn with a cube map bound, and nothing is drawn without a program and
/// a vertex array. Buffers are filled for the vertex array that is bound,
/// an attribute is described once the vertex buffer holds it, and faces and
/// sampling go to the cube map that is bound, each parameter with a
/// setting it takes.
pub open spec fn admissible(state: PipelineState, command: Command) -> bool {
    match command {
        Command::SetUniform(uniform) => state.program == Some(uniform.owner()),
        Command::SetUniformInt(uniform, _) => state.program == Some(uniform.owner()),
        Command::SetSubroutines(_, _) => state.program == Some(Program::Model),
        Command::DrawElements { .. } => match state.vertex_array {
            Some(VertexArray::Model(_)) => state.program == Some(Program::Model),
            Some(VertexArray::Skybox) => state.program == Some(Program::Skybox)
                && state.cube_map_unit is Some,
            None => false,
        },
        Command::UploadVertices | Command::UploadIndices => state.vertex_array is Some,
        Command::DescribeAttribute(_) => state.vertex_array is Some && state.vertex_buffer,
        Command::UploadFace { .. } => state.cube_map_bound,
        Command::SetCubeMapParameter(parameter, setting) => state.cube_map_bound && takes(
            parameter,
            setting,
        ),
        _ => true,
    }
}

/// The state after a list of commands, one after the other.
pub open spec fn run(state: PipelineState, commands: Seq<Command>) -> PipelineState
    decreases commands.len(),
{
    if commands.len() == 0 {
        state
    } else {
        apply(run(state, commands.drop_last()), commands.last())
    }
}

/// Whether each command of a list makes sense in the state it meets.
pub open spec fn sound(state: PipelineState, commands: Seq<Command>) -> bool
    decreases commands.len(),
{
    if commands.len() == 0 {
        true
    } else {
        sound(state, commands.drop_last()) && admissible(
            run(state, commands.drop_last()),
            commands.last(),
        )
    }
}

/// Running no command changes nothing.
pub broadcast proof fn lemma_run_nothing(state: PipelineState)
    ensures
        #[trigger] run(state, Seq::<Command>::empty()) == state,
        #[trigger] sound(state, Seq::<Command>::empty()),
{
}

/// Running one command more is running the list, then the command.
pub broadcast proof fn lemma_run_push(state: PipelineState, commands: Seq<Command>, last: Command)
    ensures
        #[trigger] run(state, commands.push(last)) == apply(run(state, commands), last),
{
    assert(commands.push(last).drop_last() =~= commands);
}

/// A list with one command more is sound if the list is and the command
/// makes sense where the list ends.
pub broadcast proof fn lemma_sound_push(state: PipelineState, commands: Seq<Command>, last: Command)
    ensures
        #[trigger] sound(state, commands.push(last)) == (sound(state, commands) && admissible(
            run(state, commands),
            last,
        )),
{
    assert(commands.push(last).drop_last() =~= commands);
}

/// Running two lists one after the other is running the second where the
/// first ends.
pub proof fn lemma_run_concat(state: PipelineState, first: Seq<Command>, second: Seq<Command>)
    ensures
        run(state, first + second) == run(run(state, first), second),
        sound(state, first + second) == (sound(state, first) && sound(run(state, first), second)),
    decreases second.len(),
{
    if second.len() == 0 {
        assert(first + second =~= first);
    } else {
        lemma_run_concat(state, first, second.drop_last());
        assert((first + second).drop_last() =~= first + second.drop_last());
        assert((first + second).last() == second.last());
    }
}

pub broadcast group group_run {
    lemma_run_nothing,
    lemma_run_push,
    lemma_sound_push,
}

} // verus!
