//! How meshes and the skybox get onto the graphics device.
//!
//! As with a frame, the library writes the commands down and the host
//! issues them, filling the buffers with the data of the mesh or skybox at
//! hand.

use vstd::prelude::*;
use crate::model::{model_attributes, model_layout, skybox_attributes, skybox_layout};
use crate::pipeline::{
    bytes_per_pixel, group_run, lemma_run_concat, run, seamless, sound, Command, PipelineState,
    PixelFormat, TextureParameter, TextureSetting, VertexArray,
};
use crate::skybox::{CubeFace, Skybox};

verus! {

/// Everything that puts the mesh numbered `number` on the graphics device:
/// its vertex array, its two buffers, the two attributes of a vertex, and
/// last the vertex array unbound.
pub open spec fn model_upload_commands(number: usize) -> Seq<Command> {
    Seq::<Command>::empty()
        .push(Command::CreateVertexArray(VertexArray::Model(number)))
        .push(Command::UploadVertices)
        .push(Command::UploadIndices)
        .push(Command::DescribeAttribute(model_layout()[0]))
        .push(Command::DescribeAttribute(model_layout()[1]))
        .push(Command::BindVertexArray(None))
}

/// The six faces of a cube map of the given side, in upload order, each
/// as unpadded red, green and blue bytes.
pub open spec fn face_uploads(side: i32) -> Seq<Command> {
    Seq::<Command>::empty()
        .push(Command::UploadFace { face: CubeFace::Right, side, format: PixelFormat::Rgb8 })
        .push(Command::UploadFace { face: CubeFace::Left, side, format: PixelFormat::Rgb8 })
        .push(Command::UploadFace { face: CubeFace::Top, side, format: PixelFormat::Rgb8 })
        .push(Command::UploadFace { face: CubeFace::Bottom, side, format: PixelFormat::Rgb8 })
        .push(Command::UploadFace { face: CubeFace::Front, side, format: PixelFormat::Rgb8 })
        .push(Command::UploadFace { face: CubeFace::Back, side, format: PixelFormat::Rgb8 })
}

/// The five parameters of sampling: both filters linear, and clamping to
/// the edge along all three axes.
pub open spec fn sampling_commands() -> Seq<Command> {
    Seq::<Command>::empty()
        .push(Command::SetCubeMapParameter(TextureParameter::MinFilter, TextureSetting::Linear))
        .push(Command::SetCubeMapParameter(TextureParameter::MagFilter, TextureSetting::Linear))
        .push(Command::SetCubeMapParameter(TextureParameter::WrapS, TextureSetting::ClampToEdge))
        .push(Command::SetCubeMapParameter(TextureParameter::WrapT, TextureSetting::ClampToEdge))
        .push(Command::SetCubeMapParameter(TextureParameter::WrapR, TextureSetting::ClampToEdge))
}

/// The unit cube: its vertex array, its two buffers, the one attribute of a
/// corner, and last the vertex array unbound.
pub open spec fn cube_upload_commands() -> Seq<Command> {
    Seq::<Command>::empty()
        .push(Command::CreateVertexArray(VertexArray::Skybox))
        .push(Command::UploadVertices)
        .push(Command::UploadIndices)
        .push(Command::DescribeAttribute(skybox_layout()[0]))
        .push(Command::BindVertexArray(None))
}

/// Everything that puts a skybox on the graphics device: the cube map with
/// its six faces and its sampling, then the unit cube.
pub open spec fn skybox_upload_commands(side: i32) -> Seq<Command> {
    Seq::<Command>::empty().push(Command::CreateCubeMap) + face_uploads(side)
        + sampling_commands() + cube_upload_commands()
}

/// The commands that put the mesh numbered `number` on the graphics
/// device.
pub fn model_upload(number: usize) -> (commands: Vec<Command>)
    ensures
        commands@ == model_upload_commands(number),
{
    let mut commands: Vec<Command> = Vec::new();
    commands.push(Command::CreateVertexArray(VertexArray::Model(number)));
    commands.push(Command::UploadVertices);
    commands.push(Command::UploadIndices);
    let attributes = model_attributes();
    commands.push(Command::DescribeAttribute(attributes[0]));
    commands.push(Command::DescribeAttribute(attributes[1]));
    commands.push(Command::BindVertexArray(None));
    assert(commands@ =~= model_upload_commands(number));
    commands
}

/// The commands that put `skybox` on the graphics device.
pub fn skybox_upload(skybox: &Skybox) -> (commands: Vec<Command>)
    ensures
        commands@ == skybox_upload_commands(skybox.faces()[0].width as i32),
{
    let side: i32 = skybox.side();
    let mut commands: Vec<Command> = Vec::new();
    commands.push(Command::CreateCubeMap);
    let format = PixelFormat::Rgb8;
    commands.push(Command::UploadFace { face: CubeFace::Right, side, format });
    commands.push(Command::UploadFace { face: CubeFace::Left, side, format });
    commands.push(Command::UploadFace { face: CubeFace::Top, side, format });
    commands.push(Command::UploadFace { face: CubeFace::Bottom, side, format });
    commands.push(Command::UploadFace { face: CubeFace::Front, side, format });
    commands.push(Command::UploadFace { face: CubeFace::Back, side, format });
    commands.push(
        Command::SetCubeMapParameter(TextureParameter::MinFilter, TextureSetting::Linear),
    );
    commands.push(
        Command::SetCubeMapParameter(TextureParameter::MagFilter, TextureSetting::Linear),
    );
    commands.push(
        Command::SetCubeMapParameter(TextureParameter::WrapS, TextureSetting::ClampToEdge),
    );
    commands.push(
        Command::SetCubeMapParameter(TextureParameter::WrapT, TextureSetting::ClampToEdge),
    );
    commands.push(
        Command::SetCubeMapParameter(TextureParameter::WrapR, TextureSetting::ClampToEdge),
    );
    commands.push(Command::CreateVertexArray(VertexArray::Skybox));
    commands.push(Command::UploadVertices);
    commands.push(Command::UploadIndices);
    let attributes = skybox_attributes();
    commands.push(Command::DescribeAttribute(attributes[0]));
    commands.push(Command::BindVertexArray(None));
    assert(commands@ =~= skybox_upload_commands(side));
    commands
}

/// Putting a mesh on the graphics device leaks no state: whatever the
/// graphics state was, every command makes sense where it stands, and
/// afterwards no vertex array is bound. Nothing else changes but the note
/// that a vertex buffer was filled.
pub proof fn lemma_model_upload_unbinds(state: PipelineState, number: usize)
    ensures
        sound(state, model_upload_commands(number)),
        run(state, model_upload_commands(number)) == (PipelineState {
            vertex_array: None,
            vertex_buffer: true,
            ..state
        }),
{
    broadcast use group_run;

}

/// The faces are uploaded in their order, each once: the `i`-th upload is
/// that of the face at place `i`, as unpadded red, green and blue bytes.
pub proof fn lemma_faces_are_uploaded_in_order(side: i32, i: int)
    requires
        0 <= i < 6,
    ensures
        face_uploads(side).len() == 6,
        face_uploads(side)[i] == (Command::UploadFace {
            face: CubeFace::at(i),
            side,
            format: PixelFormat::Rgb8,
        }),
{
}

/// Each upload of a face reads exactly the pixels the face holds: side
/// times side pixels of the bytes the format says are the whole buffer of
/// the face.
pub proof fn lemma_face_uploads_fit(skybox: Skybox, side: i32, i: int)
    requires
        0 <= i < 6,
        skybox.faces().len() == 6,
        skybox.faces()[i].width == side,
        skybox.faces()[i].height == side,
        skybox.faces()[i].pixels.len() == 3 * side * side,
    ensures
        face_uploads(side)[i] matches Command::UploadFace { format, side: s, .. }
            && skybox.faces()[i].pixels.len() == bytes_per_pixel(format) * s * s,
{
    assert(bytes_per_pixel(PixelFormat::Rgb8) * side * side == 3 * side * side) by (nonlinear_arith)
        requires
            bytes_per_pixel(PixelFormat::Rgb8) == 3,
    ;
}

/// Putting a skybox on the graphics device makes sense from any graphics
/// state: the faces and the sampling go to the cube map just made, the
/// buffers to the vertex array of the cube. Afterwards the cube map is
/// bound and sampled without a seam, linearly and clamped to the edge along
/// all three axes, and no vertex array is bound.
pub proof fn lemma_skybox_upload_unbinds(state: PipelineState, side: i32)
    ensures
        sound(state, skybox_upload_commands(side)),
        run(state, skybox_upload_commands(side)) == (PipelineState {
            vertex_array: None,
            vertex_buffer: true,
            cube_map_bound: true,
            sampling: seamless(),
            ..state
        }),
{
    broadcast use group_run;

    let make = Seq::<Command>::empty().push(Command::CreateCubeMap);
    let faces = face_uploads(side);
    let sampling = sampling_commands();
    lemma_run_concat(state, make, faces);
    lemma_run_concat(state, make + faces, sampling);
    lemma_run_concat(state, make + faces + sampling, cube_upload_commands());
}

} // verus!
