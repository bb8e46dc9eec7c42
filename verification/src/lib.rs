//! Verified core of an interactive real-time 3D viewer.
//!
//! The crate holds the discrete logic of the viewer: the fixed-step
//! scheduler, the input state, the decisions taken on window events, the
//! assembly and validation of mesh and cube-map data, the making of shader
//! programs, and the order of the commands that draw a frame. Everything
//! that touches a window or a graphics context, and every computation on
//! scalars, is left to the host program, which hands plain values in and
//! carries the answers out.

pub mod app;
pub mod cube;
pub mod draw_properties;
pub mod input;
pub mod model;
pub mod pipeline;
pub mod renderer;
pub mod shader;
pub mod skybox;
pub mod timing;
pub mod upload;
pub mod window_context;

pub use app::{
    App, DeviceEvent, KeyEvent, MouseButton, Response, UpdatePlan, WindowAction, WindowEvent,
};
pub use draw_properties::DrawProperties;
pub use input::{ElementState, InputEvent, InputState, KeyCode};
pub use model::{Model, ModelError, RawMesh, Triple, Vertex, VertexAttribute};
pub use pipeline::{
    Capability, Command, DepthFunc, PixelFormat, PolygonMode, TextureParameter, TextureSetting,
    VertexArray,
};
pub use renderer::{Backend, Renderer};
pub use shader::{
    BuildAction, BuildReport, BuildStep, Cleanup, Program, Shader, ShaderBuild, ShaderError,
    ShaderStage, Subroutine, Uniform, UniformKind,
};
pub use skybox::{
    CubeFace, FaceImage, Fault, Skybox, SkyboxBufferBuilder, SkyboxError,
    SkyboxFileBuilder,
};
pub use timing::{FixedStepClock, FrameRateInfo, FrameRateMeter};
pub use window_context::{gl_config_picker, ConfigInfo, GlutinWindowContext, SwapInterval};
