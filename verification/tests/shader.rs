use renderer_rust::shader::{flag_as_int, INVALID_INDEX};
use renderer_rust::{
    BuildAction, BuildReport, BuildStep, Cleanup, Program, Shader, ShaderBuild, ShaderError,
    ShaderStage, Subroutine, Uniform, UniformKind,
};

const UNIFORMS: [Uniform; 10] = [
    Uniform::Model,
    Uniform::Mvp,
    Uniform::NormalMatrix,
    Uniform::Color,
    Uniform::LightDirection,
    Uniform::ViewPos,
    Uniform::DiffuseEnabled,
    Uniform::SpecularEnabled,
    Uniform::ProjectionView,
    Uniform::SkyboxTexture,
];

fn ok() -> BuildReport {
    BuildReport::Finished { ok: true, log: String::new() }
}

fn failed(log: &str) -> BuildReport {
    BuildReport::Finished { ok: false, log: log.to_string() }
}

fn unavailable(text: &str) -> BuildReport {
    BuildReport::Unavailable(text.to_string())
}

fn go_on(step: BuildStep) -> (ShaderBuild, BuildAction) {
    match step {
        BuildStep::Continue { build, action } => (build, action),
        other => panic!("unexpected: {:?}", other),
    }
}

fn finish(step: BuildStep) -> (Cleanup, Result<Shader, ShaderError>) {
    match step {
        BuildStep::Finish { cleanup, result } => (cleanup, result),
        other => panic!("unexpected: {:?}", other),
    }
}

fn built(program: Program) -> Shader {
    let (build, _) = ShaderBuild::begin(program);
    let (build, _) = go_on(build.step(ok()));
    let (build, _) = go_on(build.step(ok()));
    finish(build.step(ok())).1.unwrap()
}

#[test]
fn uniform_names_are_those_of_the_shader_source() {
    let names = [
        "u_model",
        "u_mvp",
        "u_normalMatrix",
        "u_color",
        "u_light.direction",
        "u_viewPos",
        "u_adsProps.diffuseEnabled",
        "u_adsProps.specularEnabled",
        "u_projectionView",
        "u_skyboxTexture",
    ];
    for (uniform, name) in UNIFORMS.iter().zip(names) {
        assert_eq!(uniform.name(), name);
    }
}

#[test]
fn uniforms_are_uploaded_by_their_kind() {
    let kinds = [
        UniformKind::Mat4,
        UniformKind::Mat4,
        UniformKind::Mat3,
        UniformKind::Vec3,
        UniformKind::Vec3,
        UniformKind::Vec3,
        UniformKind::Int,
        UniformKind::Int,
        UniformKind::Mat4,
        UniformKind::Int,
    ];
    for (uniform, kind) in UNIFORMS.iter().zip(kinds) {
        assert_eq!(uniform.kind(), kind);
    }
    assert_eq!(UniformKind::Int.scalars(), 1);
    assert_eq!(UniformKind::Vec3.scalars(), 3);
    assert_eq!(UniformKind::Mat3.scalars(), 9);
    assert_eq!(UniformKind::Mat4.scalars(), 16);
}

#[test]
fn uniforms_belong_to_one_program() {
    for uniform in UNIFORMS {
        let skybox =
            matches!(uniform, Uniform::ProjectionView | Uniform::SkyboxTexture);
        assert_eq!(uniform.program(), if skybox { Program::Skybox } else { Program::Model });
    }
}

#[test]
fn flags_are_uploaded_as_zero_and_one() {
    assert_eq!(flag_as_int(false), 0);
    assert_eq!(flag_as_int(true), 1);
}

#[test]
fn subroutines_are_named_as_in_the_shader_source() {
    assert_eq!(Subroutine::DiffuseEnabled.name(), "DiffuseEnabled");
    assert_eq!(Subroutine::SpecularEnabled.name(), "SpecularEnabled");
    assert_eq!(Subroutine::Disabled.name(), "Disabled");
    assert_eq!(Subroutine::diffuse(true), Subroutine::DiffuseEnabled);
    assert_eq!(Subroutine::diffuse(false), Subroutine::Disabled);
    assert_eq!(Subroutine::specular(true), Subroutine::SpecularEnabled);
    assert_eq!(Subroutine::specular(false), Subroutine::Disabled);
}

#[test]
fn build_compiles_vertex_then_fragment_then_links() {
    let (build, action) = ShaderBuild::begin(Program::Skybox);
    assert_eq!(action, BuildAction::Compile(ShaderStage::Vertex));
    let (build, action) = go_on(build.step(ok()));
    assert_eq!(action, BuildAction::Compile(ShaderStage::Fragment));
    let (build, action) = go_on(build.step(ok()));
    assert_eq!(action, BuildAction::Link);
    let (cleanup, result) = finish(build.step(ok()));
    assert_eq!(cleanup, Cleanup { vertex_shader: true, fragment_shader: true, program: false });
    let shader = result.unwrap();
    assert_eq!(shader.program(), Program::Skybox);
    assert!(shader.subroutine_indices().is_empty());
}

#[test]
fn vertex_shader_that_cannot_be_made_ends_the_build() {
    let (build, _) = ShaderBuild::begin(Program::Model);
    let (cleanup, result) = finish(build.step(unavailable("no shader")));
    assert_eq!(cleanup, Cleanup { vertex_shader: false, fragment_shader: false, program: false });
    match result {
        Err(ShaderError::CreateShader { stage, text }) => {
            assert_eq!(stage, ShaderStage::Vertex);
            assert_eq!(text, "no shader");
        }
        other => panic!("unexpected: {:?}", other),
    }
}

#[test]
fn vertex_shader_that_does_not_compile_is_deleted() {
    let (build, _) = ShaderBuild::begin(Program::Model);
    let (cleanup, result) = finish(build.step(failed("0:1: syntax error")));
    assert_eq!(cleanup, Cleanup { vertex_shader: true, fragment_shader: false, program: false });
    match result {
        Err(ShaderError::Compile { stage, log }) => {
            assert_eq!(stage, ShaderStage::Vertex);
            assert_eq!(log, "0:1: syntax error");
        }
        other => panic!("unexpected: {:?}", other),
    }
}

#[test]
fn fragment_shader_that_cannot_be_made_deletes_the_vertex_shader() {
    let (build, _) = ShaderBuild::begin(Program::Model);
    let (build, _) = go_on(build.step(ok()));
    let (cleanup, result) = finish(build.step(unavailable("out of objects")));
    assert_eq!(cleanup, Cleanup { vertex_shader: true, fragment_shader: false, program: false });
    match result {
        Err(ShaderError::CreateShader { stage, text }) => {
            assert_eq!(stage, ShaderStage::Fragment);
            assert_eq!(text, "out of objects");
        }
        other => panic!("unexpected: {:?}", other),
    }
}

#[test]
fn fragment_shader_that_does_not_compile_deletes_both() {
    let (build, _) = ShaderBuild::begin(Program::Model);
    let (build, _) = go_on(build.step(ok()));
    let (cleanup, result) = finish(build.step(failed("undeclared identifier")));
    assert_eq!(cleanup, Cleanup { vertex_shader: true, fragment_shader: true, program: false });
    match result {
        Err(ShaderError::Compile { stage, log }) => {
            assert_eq!(stage, ShaderStage::Fragment);
            assert_eq!(log, "undeclared identifier");
        }
        other => panic!("unexpected: {:?}", other),
    }
}

#[test]
fn program_that_cannot_be_made_deletes_both_shaders() {
    let (build, _) = ShaderBuild::begin(Program::Model);
    let (build, _) = go_on(build.step(ok()));
    let (build, _) = go_on(build.step(ok()));
    let (cleanup, result) = finish(build.step(unavailable("no program")));
    assert_eq!(cleanup, Cleanup { vertex_shader: true, fragment_shader: true, program: false });
    match result {
        Err(ShaderError::CreateProgram { text }) => assert_eq!(text, "no program"),
        other => panic!("unexpected: {:?}", other),
    }
}

#[test]
fn program_that_does_not_link_is_deleted_with_its_shaders() {
    let (build, _) = ShaderBuild::begin(Program::Model);
    let (build, _) = go_on(build.step(ok()));
    let (build, _) = go_on(build.step(ok()));
    let (cleanup, result) = finish(build.step(failed("varying mismatch")));
    assert_eq!(cleanup, Cleanup { vertex_shader: true, fragment_shader: true, program: true });
    match result {
        Err(ShaderError::Link { log }) => assert_eq!(log, "varying mismatch"),
        other => panic!("unexpected: {:?}", other),
    }
}

#[test]
fn a_log_of_a_step_that_went_well_is_dropped() {
    let (build, _) = ShaderBuild::begin(Program::Model);
    let report = BuildReport::Finished { ok: true, log: "warning: unused".to_string() };
    let (_, action) = go_on(build.step(report));
    assert_eq!(action, BuildAction::Compile(ShaderStage::Fragment));
}

#[test]
fn shader_has_the_uniforms_of_its_program() {
    let model = built(Program::Model);
    let skybox = built(Program::Skybox);
    for uniform in UNIFORMS {
        assert_eq!(model.has_uniform(uniform), uniform.program() == Program::Model);
        assert_eq!(skybox.has_uniform(uniform), uniform.program() == Program::Skybox);
    }
}

#[test]
fn new_selection_replaces_the_old_one_whole() {
    let mut shader = built(Program::Model);
    assert!(shader.update_subroutines(&vec![4, 2]).is_ok());
    assert_eq!(shader.subroutine_indices(), &vec![4, 2]);
    assert!(shader.update_subroutines(&vec![7]).is_ok());
    assert_eq!(shader.subroutine_indices(), &vec![7]);
    assert!(shader.update_subroutines(&Vec::new()).is_ok());
    assert!(shader.subroutine_indices().is_empty());
    assert_eq!(shader.program(), Program::Model);
}

#[test]
fn unknown_subroutine_undoes_the_selection() {
    let mut shader = built(Program::Model);
    assert!(shader.update_subroutines(&vec![1, 0]).is_ok());
    assert_eq!(INVALID_INDEX, u32::MAX);
    match shader.update_subroutines(&vec![3, INVALID_INDEX, 5, INVALID_INDEX]) {
        Err(ShaderError::UnknownSubroutine { at }) => assert_eq!(at, 1),
        other => panic!("unexpected: {:?}", other),
    }
    assert_eq!(shader.subroutine_indices(), &vec![1, 0]);
    assert_eq!(shader.program(), Program::Model);
}
