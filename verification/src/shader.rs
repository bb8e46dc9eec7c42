//! What the viewer's two shader programs are given: named uniforms, and,
//! where the graphics device has them, subroutines that switch the terms of
//! the lighting on and off.

use vstd::prelude::*;

verus! {

/// One of the viewer's two shader programs.
#[derive(Clone, Copy, Debug, PartialEq, Eq, Structural)]
pub enum Program {
    /// Draws the selected mesh, lit.
    Model,
    /// Draws the skybox.
    Skybox,
}

/// The stage of a shader.
#[derive(Clone, Copy, Debug, PartialEq, Eq, Structural)]
pub enum ShaderStage {
    Vertex,
    Fragment,
}

/// How the value of a uniform is uploaded.
#[derive(Clone, Copy, Debug, PartialEq, Eq, Structural)]
pub enum UniformKind {
    /// One integer; a flag goes as 0 or 1.
    Int,
    /// Three scalars.
    Vec3,
    /// Nine scalars, column after column.
    Mat3,
    /// Sixteen scalars, column after column.
    Mat4,
}

/// A uniform of one of the two programs.
#[derive(Clone, Copy, Debug, PartialEq, Eq, Structural)]
pub enum Uniform {
    /// Model matrix.
    Model,
    /// Model, view and projection, multiplied once on the host.
    Mvp,
    /// Inverse transpose of the model matrix's upper left 3 by 3.
    NormalMatrix,
    /// Colour of the model's surface.
    Color,
    /// Direction in which the light travels.
    LightDirection,
    /// Position of the camera.
    ViewPos,
    /// Whether the diffuse term is on, where there are no subroutines.
    DiffuseEnabled,
    /// Whether the specular term is on, where there are no subroutines.
    SpecularEnabled,
    /// Projection times the view with the position of the camera taken out.
    ProjectionView,
    /// Texture unit of the cube map.
    SkyboxTexture,
}

/// A subroutine of the model program's fragment stage.
#[derive(Clone, Copy, Debug, PartialEq, Eq, Structural)]
pub enum Subroutine {
    DiffuseEnabled,
    SpecularEnabled,
    /// Stands in for either term when it is off.
    Disabled,
}

impl Uniform {
    /// The program the uniform belongs to.
    pub open spec fn owner(self) -> Program {
        match self {
            Uniform::ProjectionView | Uniform::SkyboxTexture => Program::Skybox,
            _ => Program::Model,
        }
    }

    /// How the uniform is uploaded.
    pub open spec fn upload(self) -> UniformKind {
        match self {
            Uniform::Model | Uniform::Mvp | Uniform::ProjectionView => UniformKind::Mat4,
            Uniform::NormalMatrix => UniformKind::Mat3,
            Uniform::Color | Uniform::LightDirection | Uniform::ViewPos => UniformKind::Vec3,
            Uniform::DiffuseEnabled | Uniform::SpecularEnabled | Uniform::SkyboxTexture =>
                UniformKind::Int,
        }
    }

    /// The name of the uniform in the shader source.
    pub open spec fn name_text(self) -> Seq<char> {
        match self {
            Uniform::Model => "u_model"@,
            Uniform::Mvp => "u_mvp"@,
            Uniform::NormalMatrix => "u_normalMatrix"@,
            Uniform::Color => "u_color"@,
            Uniform::LightDirection => "u_light.direction"@,
            Uniform::ViewPos => "u_viewPos"@,
            Uniform::DiffuseEnabled => "u_adsProps.diffuseEnabled"@,
            Uniform::SpecularEnabled => "u_adsProps.specularEnabled"@,
            Uniform::ProjectionView => "u_projectionView"@,
            Uniform::SkyboxTexture => "u_skyboxTexture"@,
        }
    }

    /// The program the uniform belongs to.
    pub fn program(self) -> (program: Program)
        ensures
            program == self.owner(),
    {
        match self {
            Uniform::ProjectionView | Uniform::SkyboxTexture => Program::Skybox,
            _ => Program::Model,
        }
    }

    /// How the uniform is uploaded.
    pub fn kind(self) -> (kind: UniformKind)
        ensures
            kind == self.upload(),
    {
        match self {
            Uniform::Model | Uniform::Mvp | Uniform::ProjectionView => UniformKind::Mat4,
            Uniform::NormalMatrix => UniformKind::Mat3,
            Uniform::Color | Uniform::LightDirection | Uniform::ViewPos => UniformKind::Vec3,
            Uniform::DiffuseEnabled | Uniform::SpecularEnabled | Uniform::SkyboxTexture =>
                UniformKind::Int,
        }
    }

    /// The name under which the location of the uniform is looked up.
    pub fn name(self) -> (name: &'static str)
        ensures
            name@ == self.name_text(),
    {
        match self {
            Uniform::Model => "u_model",
            Uniform::Mvp => "u_mvp",
            Uniform::NormalMatrix => "u_normalMatrix",
            Uniform::Color => "u_color",
            Uniform::LightDirection => "u_light.direction",
            Uniform::ViewPos => "u_viewPos",
            Uniform::DiffuseEnabled => "u_adsProps.diffuseEnabled",
            Uniform::SpecularEnabled => "u_adsProps.specularEnabled",
            Uniform::ProjectionView => "u_projectionView",
            Uniform::SkyboxTexture => "u_skyboxTexture",
        }
    }
}

/// How many scalars an upload of this kind takes; an integer counts as one.
pub open spec fn scalar_count(kind: UniformKind) -> nat {
    match kind {
        UniformKind::Int => 1,
        UniformKind::Vec3 => 3,
        UniformKind::Mat3 => 9,
        UniformKind::Mat4 => 16,
    }
}

impl UniformKind {
    /// How many scalars an upload of this kind takes.
    pub fn scalars(self) -> (count: usize)
        ensures
            count == scalar_count(self),
    {
        match self {
            UniformKind::Int => 1,
            UniformKind::Vec3 => 3,
            UniformKind::Mat3 => 9,
            UniformKind::Mat4 => 16,
        }
    }
}

/// The integer a flag is uploaded as.
pub open spec fn flag_value(flag: bool) -> i32 {
    if flag {
        1
    } else {
        0
    }
}

/// The integer a flag is uploaded as: 1 for on, 0 for off.
pub fn flag_as_int(flag: bool) -> (value: i32)
    ensures
        value == flag_value(flag),
{
    if flag {
        1
    } else {
        0
    }
}

impl Subroutine {
    /// The name of the subroutine in the shader source.
    pub open spec fn name_text(self) -> Seq<char> {
        match self {
            Subroutine::DiffuseEnabled => "DiffuseEnabled"@,
            Subroutine::SpecularEnabled => "SpecularEnabled"@,
            Subroutine::Disabled => "Disabled"@,
        }
    }

    /// The subroutine that stands for the diffuse term.
    pub open spec fn for_diffuse(enabled: bool) -> Subroutine {
        if enabled {
            Subroutine::DiffuseEnabled
        } else {
            Subroutine::Disabled
        }
    }

    /// The subroutine that stands for the specular term.
    pub open spec fn for_specular(enabled: bool) -> Subroutine {
        if enabled {
            Subroutine::SpecularEnabled
        } else {
            Subroutine::Disabled
        }
    }

    /// The name under which the index of the subroutine is looked up.
    pub fn name(self) -> (name: &'static str)
        ensures
            name@ == self.name_text(),
    {
        match self {
            Subroutine::DiffuseEnabled => "DiffuseEnabled",
            Subroutine::SpecularEnabled => "SpecularEnabled",
            Subroutine::Disabled => "Disabled",
        }
    }

    /// The subroutine that stands for the diffuse term.
    pub fn diffuse(enabled: bool) -> (subroutine: Subroutine)
        ensures
            subroutine == Self::for_diffuse(enabled),
    {
        if enabled {
            Subroutine::DiffuseEnabled
        } else {
            Subroutine::Disabled
        }
    }

    /// The subroutine that stands for the specular term.
    pub fn specular(enabled: bool) -> (subroutine: Subroutine)
        ensures
            subroutine == Self::for_specular(enabled),
    {
        if enabled {
            Subroutine::SpecularEnabled
        } else {
            Subroutine::Disabled
        }
    }
}

/// Why a shader program could not be made.
#[derive(Debug)]
pub enum ShaderError {
    /// The graphics device gave no shader object for this stage.
    CreateShader { stage: ShaderStage, text: String },
    /// The source of this stage did not compile; the device's log is
    /// attached.
    Compile { stage: ShaderStage, log: String },
    /// The graphics device gave no program object.
    CreateProgram { text: String },
    /// The two stages did not link; the device's log is attached.
    Link { log: String },
    /// The program has no subroutine of the name at this place of a
    /// selection.
    UnknownSubroutine { at: usize },
}

/// What the graphics device answers when asked for the index of a
/// subroutine that the program does not have.
pub const INVALID_INDEX: u32 = 0xffff_ffff;

/// The index at place `at` is the first that stands for no subroutine.
pub open spec fn first_unknown(indices: Seq<u32>, at: int) -> bool {
    &&& 0 <= at < indices.len()
    &&& indices[at] == INVALID_INDEX
    &&& forall|i: int| 0 <= i < at ==> (#[trigger] indices[i]) != INVALID_INDEX
}

/// What the host is to do next to make a program.
#[derive(Clone, Copy, Debug, PartialEq, Eq, Structural)]
pub enum BuildAction {
    /// Make a shader object for this stage, give it its source, compile it.
    Compile(ShaderStage),
    /// Make a program object, attach both shaders, link it.
    Link,
}

/// What came of an action.
#[derive(Debug)]
pub enum BuildReport {
    /// The graphics device gave no object to work on.
    Unavailable(String),
    /// The object is there and the action ran, well or not, and left this
    /// log.
    Finished { ok: bool, log: String },
}

/// Which of the objects of a build the host is to delete when the build
/// ends.
#[derive(Clone, Copy, Debug, PartialEq, Eq, Structural)]
pub struct Cleanup {
    pub vertex_shader: bool,
    pub fragment_shader: bool,
    pub program: bool,
}

/// How far a build has come: the stage that is being compiled, or linking.
#[derive(Clone, Copy, Debug, PartialEq, Eq, Structural)]
pub enum BuildPhase {
    Vertex,
    Fragment,
    Link,
}

/// A program of the viewer that compiled and linked, with the subroutine
/// indices last selected for it.
#[derive(Debug)]
pub struct Shader {
    program: Program,
    subroutine_indices: Vec<u32>,
}

/// A build under way. It ends with a program or with an error, never with
/// anything in between.
#[derive(Debug)]
pub struct ShaderBuild {
    program: Program,
    phase: BuildPhase,
}

/// What a build says to a report.
#[derive(Debug)]
pub enum BuildStep {
    /// The build goes on with this action.
    Continue { build: ShaderBuild, action: BuildAction },
    /// The build is over. The host deletes what `cleanup` names.
    Finish { cleanup: Cleanup, result: Result<Shader, ShaderError> },
}

/// The objects of a build that exist once `report` has come in at `phase`:
/// the shaders of the stages before, and the object the report speaks of
/// unless the device gave none.
pub open spec fn live_objects(phase: BuildPhase, report: BuildReport) -> Cleanup {
    let made = report is Finished;
    match phase {
        BuildPhase::Vertex => Cleanup { vertex_shader: made, fragment_shader: false, program: false },
        BuildPhase::Fragment => Cleanup {
            vertex_shader: true,
            fragment_shader: made,
            program: false,
        },
        BuildPhase::Link => Cleanup { vertex_shader: true, fragment_shader: true, program: made },
    }
}

/// Whether the action that `report` speaks of ran well.
pub open spec fn went_well(report: BuildReport) -> bool {
    report matches BuildReport::Finished { ok, .. } && ok
}

/// The error that `report` stands for at `phase`, if the action did not run
/// well.
pub open spec fn failure(phase: BuildPhase, report: BuildReport) -> ShaderError {
    match (phase, report) {
        (BuildPhase::Vertex, BuildReport::Unavailable(text)) => ShaderError::CreateShader {
            stage: ShaderStage::Vertex,
            text,
        },
        (BuildPhase::Vertex, BuildReport::Finished { log, .. }) => ShaderError::Compile {
            stage: ShaderStage::Vertex,
            log,
        },
        (BuildPhase::Fragment, BuildReport::Unavailable(text)) => ShaderError::CreateShader {
            stage: ShaderStage::Fragment,
            text,
        },
        (BuildPhase::Fragment, BuildReport::Finished { log, .. }) => ShaderError::Compile {
            stage: ShaderStage::Fragment,
            log,
        },
        (BuildPhase::Link, BuildReport::Unavailable(text)) => ShaderError::CreateProgram { text },
        (BuildPhase::Link, BuildReport::Finished { log, .. }) => ShaderError::Link { log },
    }
}

impl ShaderBuild {
    /// The program that is being built.
    pub closed spec fn target(self) -> Program {
        self.program
    }

    /// How far the build has come.
    pub closed spec fn phase(self) -> BuildPhase {
        self.phase
    }

    /// Starts the build of `program`. The first thing to do is to compile
    /// the vertex stage.
    pub fn begin(program: Program) -> (started: (ShaderBuild, BuildAction))
        ensures
            started.0.target() == program,
            started.0.phase() == BuildPhase::Vertex,
            started.1 == BuildAction::Compile(ShaderStage::Vertex),
    {
        (
            ShaderBuild { program, phase: BuildPhase::Vertex },
            BuildAction::Compile(ShaderStage::Vertex),
        )
    }

    /// Takes in what came of the action last asked for, and says how the
    /// build goes on or how it ends.
    pub fn step(self, report: BuildReport) -> (step: BuildStep)
        ensures
            step_matches(step, self.target(), self.phase(), report),
    {
        let program = self.program;
        match report {
            BuildReport::Unavailable(text) => {
                match self.phase {
                    BuildPhase::Vertex => BuildStep::Finish {
                        cleanup: Cleanup {
                            vertex_shader: false,
                            fragment_shader: false,
                            program: false,
                        },
                        result: Err(ShaderError::CreateShader { stage: ShaderStage::Vertex, text }),
                    },
                    BuildPhase::Fragment => BuildStep::Finish {
                        cleanup: Cleanup {
                            vertex_shader: true,
                            fragment_shader: false,
                            program: false,
                        },
                        result: Err(
                            ShaderError::CreateShader { stage: ShaderStage::Fragment, text },
                        ),
                    },
                    BuildPhase::Link => BuildStep::Finish {
                        cleanup: Cleanup {
                            vertex_shader: true,
                            fragment_shader: true,
                            program: false,
                        },
                        result: Err(ShaderError::CreateProgram { text }),
                    },
                }
            },
            BuildReport::Finished { ok, log } => {
                match self.phase {
                    BuildPhase::Vertex => {
                        if ok {
                            BuildStep::Continue {
                                build: ShaderBuild { program, phase: BuildPhase::Fragment },
                                action: BuildAction::Compile(ShaderStage::Fragment),
                            }
                        } else {
                            BuildStep::Finish {
                                cleanup: Cleanup {
                                    vertex_shader: true,
                                    fragment_shader: false,
                                    program: false,
                                },
                                result: Err(
                                    ShaderError::Compile { stage: ShaderStage::Vertex, log },
                                ),
                            }
                        }
                    },
                    BuildPhase::Fragment => {
                        if ok {
                            BuildStep::Continue {
                                build: ShaderBuild { program, phase: BuildPhase::Link },
                                action: BuildAction::Link,
                            }
                        } else {
                            BuildStep::Finish {
                                cleanup: Cleanup {
                                    vertex_shader: true,
                                    fragment_shader: true,
                                    program: false,
                                },
                                result: Err(
                                    ShaderError::Compile { stage: ShaderStage::Fragment, log },
                                ),
                            }
                        }
                    },
                    BuildPhase::Link => {
                        if ok {
                            BuildStep::Finish {
                                cleanup: Cleanup {
                                    vertex_shader: true,
                                    fragment_shader: true,
                                    program: false,
                                },
                                result: Ok(Shader { program, subroutine_indices: Vec::new() }),
                            }
                        } else {
                            BuildStep::Finish {
                                cleanup: Cleanup {
                                    vertex_shader: true,
                                    fragment_shader: true,
                                    program: true,
                                },
                                result: Err(ShaderError::Link { log }),
                            }
                        }
                    },
                }
            },
        }
    }
}

/// Whether `step` is what a build of `program` at `phase` says to `report`.
/// It goes on to the next stage while all goes well, and ends with the
/// linked program, which has no subroutine selected yet. The first thing
/// that goes wrong ends it with that error. Either way every shader object
/// that exists is to be deleted at the end, and so is the program object
/// unless the build went well.
pub open spec fn step_matches(
    step: BuildStep,
    program: Program,
    phase: BuildPhase,
    report: BuildReport,
) -> bool {
    let live = live_objects(phase, report);
    match step {
        BuildStep::Continue { build, action } => {
            &&& went_well(report)
            &&& build.target() == program
            &&& match phase {
                BuildPhase::Vertex => build.phase() == BuildPhase::Fragment && action
                    == BuildAction::Compile(ShaderStage::Fragment),
                BuildPhase::Fragment => build.phase() == BuildPhase::Link && action
                    == BuildAction::Link,
                BuildPhase::Link => false,
            }
        },
        BuildStep::Finish { cleanup, result: Ok(shader) } => {
            &&& went_well(report)
            &&& phase == BuildPhase::Link
            &&& cleanup == (Cleanup { program: false, ..live })
            &&& shader.kind() == program
            &&& shader.indices() == Seq::<u32>::empty()
        },
        BuildStep::Finish { cleanup, result: Err(error) } => {
            &&& !went_well(report)
            &&& cleanup == live
            &&& error == failure(phase, report)
        },
    }
}

impl Shader {
    /// Which of the viewer's programs this is.
    pub closed spec fn kind(self) -> Program {
        self.program
    }

    /// The subroutine indices last selected.
    pub closed spec fn indices(self) -> Seq<u32> {
        self.subroutine_indices@
    }

    /// Which of the viewer's programs this is.
    pub fn program(&self) -> (program: Program)
        ensures
            program == self.kind(),
    {
        self.program
    }

    /// Whether the program has `uniform`.
    pub fn has_uniform(&self, uniform: Uniform) -> (has: bool)
        ensures
            has == (uniform.owner() == self.kind()),
    {
        uniform.program() == self.program
    }

    /// Puts `indices`, as the graphics device gave them for the names of
    /// a selection, in the place of the subroutine indices selected before,
    /// all of them. A name the device did not know undoes the whole
    /// selection: the first such is reported and the indices selected before
    /// stay.
    pub fn update_subroutines(&mut self, indices: &Vec<u32>) -> (updated: Result<(), ShaderError>)
        ensures
            final(self).kind() == old(self).kind(),
            match updated {
                Ok(()) => {
                    &&& forall|i: int|
                        0 <= i < indices.len() ==> (#[trigger] indices[i]) != INVALID_INDEX
                    &&& final(self).indices() == indices@
                },
                Err(ShaderError::UnknownSubroutine { at }) => {
                    &&& first_unknown(indices@, at as int)
                    &&& final(self).indices() == old(self).indices()
                },
                Err(_) => false,
            },
    {
        let mut k: usize = 0;
        while k < indices.len()
            invariant
                0 <= k <= indices.len(),
                *self == *old(self),
                forall|i: int| 0 <= i < k ==> (#[trigger] indices[i]) != INVALID_INDEX,
            decreases indices.len() - k,
        {
            if indices[k] == INVALID_INDEX {
                return Err(ShaderError::UnknownSubroutine { at: k });
            }
            k = k + 1;
        }
        self.subroutine_indices.clear();
        let mut i: usize = 0;
        while i < indices.len()
            invariant
                0 <= i <= indices.len(),
                self.subroutine_indices@ == indices@.take(i as int),
                self.program == old(self).program,
            decreases indices.len() - i,
        {
            self.subroutine_indices.push(indices[i]);
            assert(self.subroutine_indices@ =~= indices@.take(i + 1));
            i = i + 1;
        }
        assert(indices@.take(indices.len() as int) =~= indices@);
        Ok(())
    }

    /// The subroutine indices last selected.
    pub fn subroutine_indices(&self) -> (indices: &Vec<u32>)
        ensures
            indices@ == self.indices(),
    {
        &self.subroutine_indices
    }
}

/// A build ends well only when linking went well, and then nothing is
/// left of it but the program: both shader objects are deleted. When it
/// ends badly nothing at all is left: every object that exists is deleted.
pub proof fn lemma_build_leaves_nothing_behind(
    step: BuildStep,
    program: Program,
    phase: BuildPhase,
    report: BuildReport,
)
    requires
        step_matches(step, program, phase, report),
    ensures
        step matches BuildStep::Finish { cleanup, result } ==> {
            &&& cleanup.vertex_shader == live_objects(phase, report).vertex_shader
            &&& cleanup.fragment_shader == live_objects(phase, report).fragment_shader
            &&& cleanup.program == (live_objects(phase, report).program && result is Err)
            &&& result is Ok ==> phase == BuildPhase::Link && went_well(report)
                && cleanup.vertex_shader && cleanup.fragment_shader
        },
        step is Continue ==> went_well(report) && phase != BuildPhase::Link,
{
}

} // verus!
