use renderer_rust::renderer::SKYBOX_TEXTURE_UNIT;
use renderer_rust::{
    Backend, Capability, Command, DepthFunc, DrawProperties, Model, PolygonMode, Program,
    Renderer, Subroutine, Triple, Uniform, Vertex, VertexArray,
};

fn default_props_for_frame() -> DrawProperties<f32> {
    DrawProperties::new(
        [0.5, 0.5, 0.5],
        [0.0, 0.0, 0.0],
        [0.0, 0.8, 1.0],
        [-0.5, -1.0, 0.0],
        60.0,
    )
}

fn model(triangles: usize) -> Model {
    let corner = Triple { x: 0, y: 0, z: 0 };
    let vertices = vec![Vertex { position: corner, normal: corner }; 3];
    Model::new(vertices, [0, 1, 2].repeat(triangles)).unwrap()
}

fn models() -> Vec<Model> {
    vec![model(12), model(100), model(7)]
}

/// The part of the graphics state that the commands change.
#[derive(Clone, Debug, PartialEq)]
struct State {
    blend: bool,
    cull_face: bool,
    depth_test: bool,
    polygon_mode: PolygonMode,
    depth_func: DepthFunc,
    program: Option<Program>,
    vertex_array: Option<VertexArray>,
    cube_map_unit: Option<u32>,
    viewport: (i32, i32),
    draws: Vec<(Program, VertexArray, i32, PolygonMode, DepthFunc, bool)>,
}

fn fresh() -> State {
    State {
        blend: false,
        cull_face: false,
        depth_test: false,
        polygon_mode: PolygonMode::Fill,
        depth_func: DepthFunc::Less,
        program: None,
        vertex_array: None,
        cube_map_unit: None,
        viewport: (0, 0),
        draws: Vec::new(),
    }
}

/// Issues the commands to a graphics device that does nothing but keep its
/// state, and fails on a command that makes no sense where it stands.
fn issue(state: &mut State, commands: &[Command]) {
    for command in commands {
        match *command {
            Command::Viewport { width, height } => state.viewport = (width, height),
            Command::Enable(c) | Command::Disable(c) => {
                let on = matches!(command, Command::Enable(_));
                match c {
                    Capability::Blend => state.blend = on,
                    Capability::CullFace => state.cull_face = on,
                    Capability::DepthTest => state.depth_test = on,
                }
            }
            Command::UseProgram(p) => state.program = Some(p),
            Command::BindVertexArray(v) => state.vertex_array = v,
            Command::SetPolygonMode(m) => state.polygon_mode = m,
            Command::SetDepthFunc(f) => state.depth_func = f,
            Command::BindCubeMap { unit } => state.cube_map_unit = Some(unit),
            Command::SetUniform(u) | Command::SetUniformInt(u, _) => {
                assert_eq!(state.program, Some(u.program()));
            }
            Command::SetSubroutines(_, _) => assert_eq!(state.program, Some(Program::Model)),
            Command::DrawElements { count } => {
                let program = state.program.unwrap();
                let array = state.vertex_array.unwrap();
                match array {
                    VertexArray::Model(_) => assert_eq!(program, Program::Model),
                    VertexArray::Skybox => {
                        assert_eq!(program, Program::Skybox);
                        assert!(state.cube_map_unit.is_some());
                    }
                }
                state.draws.push((
                    program,
                    array,
                    count,
                    state.polygon_mode,
                    state.depth_func,
                    state.cull_face,
                ));
            }
            Command::SetProjection { .. }
            | Command::BlendByAlpha
            | Command::SetClearColor
            | Command::Clear => {}
            other => panic!("{:?} is no part of a frame", other),
        }
    }
}

#[test]
fn setup_blends_and_does_not_cull() {
    let (renderer, setup) = Renderer::new(Backend::Desktop);
    assert_eq!(renderer.capability(), Backend::Desktop);
    assert_eq!(renderer.framebuffer_size(), (0, 0));
    assert_eq!(
        setup,
        vec![
            Command::Enable(Capability::Blend),
            Command::BlendByAlpha,
            Command::Disable(Capability::CullFace),
        ]
    );
}

#[test]
fn resize_sets_viewport_and_projection() {
    let (mut renderer, _) = Renderer::new(Backend::Web);
    assert_eq!(
        renderer.resize(1024, 768),
        vec![
            Command::Viewport { width: 1024, height: 768 },
            Command::SetProjection { physical_width: 1024, physical_height: 768 },
        ]
    );
    assert_eq!(renderer.framebuffer_size(), (1024, 768));
    assert_eq!(renderer.capability(), Backend::Web);
    assert_eq!(
        renderer.resize(0, i32::MAX as u32),
        vec![
            Command::Viewport { width: 0, height: i32::MAX },
            Command::SetProjection { physical_width: 0, physical_height: i32::MAX as u32 },
        ]
    );
}

#[test]
fn desktop_frame_in_full() {
    let (mut renderer, _) = Renderer::new(Backend::Desktop);
    let frame = renderer.draw(1024, 768, &default_props_for_frame(), &models());
    assert_eq!(
        frame,
        vec![
            Command::Viewport { width: 1024, height: 768 },
            Command::SetProjection { physical_width: 1024, physical_height: 768 },
            Command::Enable(Capability::DepthTest),
            Command::SetClearColor,
            Command::Clear,
            Command::UseProgram(Program::Model),
            Command::BindVertexArray(Some(VertexArray::Model(2))),
            Command::SetUniform(Uniform::Model),
            Command::SetUniform(Uniform::Mvp),
            Command::SetUniform(Uniform::NormalMatrix),
            Command::SetUniform(Uniform::Color),
            Command::SetUniform(Uniform::LightDirection),
            Command::SetUniform(Uniform::ViewPos),
            Command::SetSubroutines(Subroutine::DiffuseEnabled, Subroutine::SpecularEnabled),
            Command::SetPolygonMode(PolygonMode::Fill),
            Command::DrawElements { count: 21 },
            Command::SetPolygonMode(PolygonMode::Fill),
            Command::BindVertexArray(None),
            Command::Disable(Capability::CullFace),
            Command::SetDepthFunc(DepthFunc::LessEqual),
            Command::UseProgram(Program::Skybox),
            Command::BindVertexArray(Some(VertexArray::Skybox)),
            Command::BindCubeMap { unit: 0 },
            Command::SetUniform(Uniform::ProjectionView),
            Command::SetUniformInt(Uniform::SkyboxTexture, 0),
            Command::DrawElements { count: 36 },
            Command::BindVertexArray(None),
            Command::SetDepthFunc(DepthFunc::Less),
            Command::Enable(Capability::CullFace),
        ]
    );
    assert_eq!(renderer.framebuffer_size(), (1024, 768));
    assert_eq!(SKYBOX_TEXTURE_UNIT, 0);
}

#[test]
fn web_frame_without_skybox() {
    let (mut renderer, _) = Renderer::new(Backend::Web);
    let mut draw_props = default_props_for_frame();
    draw_props.skybox_enabled = false;
    draw_props.specular_enabled = false;
    draw_props.wireframe_mode_enabled = true;
    draw_props.selected_model_index = 1;
    let frame = renderer.draw(640, 480, &draw_props, &models());
    assert_eq!(
        frame,
        vec![
            Command::Viewport { width: 640, height: 480 },
            Command::SetProjection { physical_width: 640, physical_height: 480 },
            Command::Enable(Capability::DepthTest),
            Command::SetClearColor,
            Command::Clear,
            Command::UseProgram(Program::Model),
            Command::BindVertexArray(Some(VertexArray::Model(1))),
            Command::SetUniform(Uniform::Model),
            Command::SetUniform(Uniform::Mvp),
            Command::SetUniform(Uniform::NormalMatrix),
            Command::SetUniform(Uniform::Color),
            Command::SetUniform(Uniform::LightDirection),
            Command::SetUniform(Uniform::ViewPos),
            Command::SetUniformInt(Uniform::DiffuseEnabled, 1),
            Command::SetUniformInt(Uniform::SpecularEnabled, 0),
            Command::DrawElements { count: 300 },
            Command::BindVertexArray(None),
        ]
    );
}

#[test]
fn lighting_terms_select_their_subroutines() {
    let (renderer, _) = Renderer::new(Backend::Desktop);
    for diffuse in [false, true] {
        for specular in [false, true] {
            let mut draw_props = default_props_for_frame();
            draw_props.diffuse_enabled = diffuse;
            draw_props.specular_enabled = specular;
            let commands = renderer.draw_model(&draw_props, &models());
            let expected = Command::SetSubroutines(
                if diffuse { Subroutine::DiffuseEnabled } else { Subroutine::Disabled },
                if specular { Subroutine::SpecularEnabled } else { Subroutine::Disabled },
            );
            assert_eq!(commands[8], expected);
        }
    }
}

#[test]
fn wireframe_is_drawn_as_lines_and_fill_is_put_back() {
    let (mut renderer, _) = Renderer::new(Backend::Desktop);
    let mut draw_props = default_props_for_frame();
    draw_props.wireframe_mode_enabled = true;
    draw_props.selected_model_index = 0;
    let frame = renderer.draw(800, 600, &draw_props, &models());
    let mut state = fresh();
    state.vertex_array = Some(VertexArray::Skybox);
    issue(&mut state, &frame);
    assert_eq!(
        state.draws,
        vec![
            (
                Program::Model,
                VertexArray::Model(0),
                36,
                PolygonMode::Line,
                DepthFunc::Less,
                false
            ),
            (
                Program::Skybox,
                VertexArray::Skybox,
                36,
                PolygonMode::Fill,
                DepthFunc::LessEqual,
                false
            ),
        ]
    );
    assert_eq!(state.polygon_mode, PolygonMode::Fill);
    assert_eq!(state.depth_func, DepthFunc::Less);
    assert_eq!(state.vertex_array, None);
    assert!(state.cull_face);
    assert!(state.depth_test);
    assert_eq!(state.viewport, (800, 600));
}

#[test]
fn every_frame_makes_sense_from_any_state_and_leaks_none() {
    for backend in [Backend::Desktop, Backend::Web] {
        for selected in 0..3 {
            for flags in 0..16u32 {
                let mut draw_props = default_props_for_frame();
                draw_props.selected_model_index = selected;
                draw_props.skybox_enabled = flags & 1 != 0;
                draw_props.wireframe_mode_enabled = flags & 2 != 0;
                draw_props.diffuse_enabled = flags & 4 != 0;
                draw_props.specular_enabled = flags & 8 != 0;
                let (mut renderer, setup) = Renderer::new(backend);
                let mut state = fresh();
                state.polygon_mode = PolygonMode::Line;
                state.depth_func = DepthFunc::LessEqual;
                state.cull_face = true;
                issue(&mut state, &setup);
                assert!(state.blend);
                assert!(!state.cull_face);
                for _ in 0..2 {
                    let frame = renderer.draw(320, 200, &draw_props, &models());
                    state.draws.clear();
                    issue(&mut state, &frame);
                    assert_eq!(state.vertex_array, None);
                    assert_eq!(state.draws.len(), if draw_props.skybox_enabled { 2 } else { 1 });
                    assert_eq!(state.draws[0].1, VertexArray::Model(selected));
                    assert_eq!(state.draws[0].2, models()[selected].index_count());
                    if backend == Backend::Desktop {
                        assert_eq!(state.polygon_mode, PolygonMode::Fill);
                        let mode = if draw_props.wireframe_mode_enabled {
                            PolygonMode::Line
                        } else {
                            PolygonMode::Fill
                        };
                        assert_eq!(state.draws[0].3, mode);
                    }
                    if draw_props.skybox_enabled {
                        assert_eq!(state.depth_func, DepthFunc::Less);
                        assert!(state.cull_face);
                        assert_eq!(state.draws[1].4, DepthFunc::LessEqual);
                        assert!(!state.draws[1].5);
                    }
                }
            }
        }
    }
}

#[test]
fn skybox_commands_do_not_depend_on_the_backend() {
    let (desktop, _) = Renderer::new(Backend::Desktop);
    let (web, _) = Renderer::new(Backend::Web);
    assert_eq!(desktop.draw_skybox(), web.draw_skybox());
    assert_eq!(desktop.draw_skybox().len(), 11);
}
