//! The skybox: a cube map of six square faces of one size, and the unit
//! cube it is drawn on.

use vstd::prelude::*;

verus! {

/// A face of the cube map. The order of the variants is the order in which
/// the faces are decoded and uploaded.
#[derive(Clone, Copy, Debug, PartialEq, Eq, Structural)]
pub enum CubeFace {
    Right,
    Left,
    Top,
    Bottom,
    Front,
    Back,
}

/// The target of the first face, `TEXTURE_CUBE_MAP_POSITIVE_X`; the other
/// five follow it one by one.
pub const FIRST_FACE_TARGET: u32 = 0x8515;

/// The constant `glow::TEXTURE_CUBE_MAP_POSITIVE_X`. The contract gives its
/// value as the crate's source has it.
#[verifier::external_body]
fn positive_x_target() -> (target: u32)
    ensures
        target == FIRST_FACE_TARGET,
{
    glow::TEXTURE_CUBE_MAP_POSITIVE_X
}

impl CubeFace {
    /// Place of the face in the upload order, from 0.
    pub open spec fn slot(self) -> int {
        match self {
            CubeFace::Right => 0,
            CubeFace::Left => 1,
            CubeFace::Top => 2,
            CubeFace::Bottom => 3,
            CubeFace::Front => 4,
            CubeFace::Back => 5,
        }
    }

    /// The face at a place of the upload order.
    pub open spec fn at(slot: int) -> CubeFace {
        if slot == 0 {
            CubeFace::Right
        } else if slot == 1 {
            CubeFace::Left
        } else if slot == 2 {
            CubeFace::Top
        } else if slot == 3 {
            CubeFace::Bottom
        } else if slot == 4 {
            CubeFace::Front
        } else {
            CubeFace::Back
        }
    }

    /// Place of the face in the upload order, from 0.
    pub fn index(self) -> (i: usize)
        ensures
            i == self.slot(),
            i < 6,
    {
        match self {
            CubeFace::Right => 0,
            CubeFace::Left => 1,
            CubeFace::Top => 2,
            CubeFace::Bottom => 3,
            CubeFace::Front => 4,
            CubeFace::Back => 5,
        }
    }

    /// The face at place `i` of the upload order, if `i` is below six.
    pub fn from_index(i: usize) -> (face: Option<CubeFace>)
        ensures
            face == (if i < 6 {
                Some(CubeFace::at(i as int))
            } else {
                None
            }),
    {
        if i == 0 {
            Some(CubeFace::Right)
        } else if i == 1 {
            Some(CubeFace::Left)
        } else if i == 2 {
            Some(CubeFace::Top)
        } else if i == 3 {
            Some(CubeFace::Bottom)
        } else if i == 4 {
            Some(CubeFace::Front)
        } else if i == 5 {
            Some(CubeFace::Back)
        } else {
            None
        }
    }

    /// The cube-map target the face is uploaded to.
    pub fn target(self) -> (target: u32)
        ensures
            target == FIRST_FACE_TARGET + self.slot(),
    {
        let first: u32 = positive_x_target();
        let offset: u32 = match self {
            CubeFace::Right => 0,
            CubeFace::Left => 1,
            CubeFace::Top => 2,
            CubeFace::Bottom => 3,
            CubeFace::Front => 4,
            CubeFace::Back => 5,
        };
        first + offset
    }
}

/// Each face has its own place in the upload order, and therefore its own
/// target.
pub proof fn lemma_faces_have_their_own_slot(a: CubeFace, b: CubeFace)
    ensures
        0 <= a.slot() < 6,
        CubeFace::at(a.slot()) == a,
        a.slot() == b.slot() ==> a == b,
{
}

/// One decoded face: interleaved red, green and blue, eight bits each, row
/// after row.
#[derive(Debug)]
pub struct FaceImage {
    pub width: u32,
    pub height: u32,
    pub pixels: Vec<u8>,
}

/// The contents of a [`FaceImage`].
pub ghost struct FaceData {
    pub width: u32,
    pub height: u32,
    pub pixels: Seq<u8>,
}

impl View for FaceImage {
    type V = FaceData;

    open spec fn view(&self) -> FaceData {
        FaceData { width: self.width, height: self.height, pixels: self.pixels@ }
    }
}

/// What is wrong with a decoded face.
#[derive(Clone, Copy, Debug, PartialEq, Eq, Structural)]
pub enum Fault {
    /// The pixel data is not three bytes for each pixel.
    PixelData,
    /// Width and height differ.
    NotSquare,
    /// The side is too long for the graphics device.
    TooLarge,
    /// The face is not of the size of the first face.
    SizeMismatch,
}

/// Why no cube map could be made.
#[derive(Debug)]
pub enum SkyboxError {
    /// The buffer of this face did not decode; the decoder's own
    /// description of what is wrong with it is attached.
    Decode { face: CubeFace, text: String },
    /// This face decoded, but cannot be a face of the cube map.
    Invalid { face: CubeFace, fault: Fault },
}

/// Longest side a face may have, in pixels.
pub const MAX_FACE_SIDE: u32 = 0x7fff_ffff;

/// What is wrong with `face` as a face of a cube map whose first face is
/// `first`, if anything is. Of several faults the first in the order of
/// [`Fault`] is named.
pub open spec fn fault_of(face: FaceData, first: FaceData) -> Option<Fault> {
    if face.pixels.len() != 3 * face.width * face.height {
        Some(Fault::PixelData)
    } else if face.width != face.height {
        Some(Fault::NotSquare)
    } else if face.width > MAX_FACE_SIDE {
        Some(Fault::TooLarge)
    } else if face.width != first.width {
        Some(Fault::SizeMismatch)
    } else {
        None
    }
}

/// What a buffer decodes to: the image as eight-bit RGB, or the decoder's
/// description of what is wrong with the buffer.
pub uninterp spec fn decoded_rgb8(data: Seq<u8>) -> Result<FaceData, Seq<char>>;

/// Decodes an image: `image::guess_format` tells the format from the first
/// bytes, `image::load_from_memory_with_format` decodes, and
/// `DynamicImage::to_rgb8` converts to eight-bit RGB. An error comes back
/// as its `Debug` text.
///
/// The contract gives the outcome its name, `decoded_rgb8`: it claims that
/// size and pixels, or else the text of the error, depend on nothing but
/// the bytes, and that the call returns for every buffer. It says nothing
/// of how many bytes of pixel data come back. The buffer is decoded in
/// memory, with the formats and limits the crate is built with, and none
/// of the three functions looks at decoding hooks that a process may have
/// registered. The JPEG decoder picks scalar or vector code by the
/// processor; the vector code is written to give the same bits: so says
/// zune-jpeg for the inverse transform (`idct/avx2.rs`, line 27), and colour
/// conversion (`color_convert/scalar.rs`, line 59, `color_convert/avx.rs`,
/// lines 204 to 226) and up-sampling (`upsampler/scalar.rs`, lines 38 to 42,
/// `upsampler/avx2.rs`, lines 52 to 55) use one integer formula on both
/// routes. The assertions in the decoders guard invariants of their own.
#[verifier::external_body]
fn decode_rgb8(data: &[u8]) -> (decoded: Result<FaceImage, String>)
    ensures
        decoding_view(decoded) == decoded_rgb8(data@),
{
    let loaded = match image::guess_format(data) {
        Ok(format) => image::load_from_memory_with_format(data, format),
        Err(e) => Err(e),
    };
    match loaded {
        Ok(img) => Ok(
            FaceImage { width: img.width(), height: img.height(), pixels: img.to_rgb8().into_raw() },
        ),
        Err(e) => Err(format!("{:?}", e)),
    }
}

/// The contents of each of `faces`.
pub open spec fn face_views(faces: Seq<FaceImage>) -> Seq<FaceData> {
    faces.map_values(|f: FaceImage| f@)
}

/// Six decoded faces that make a cube map: square, of one size, each with
/// three bytes for each of its pixels.
pub struct Skybox {
    faces: Vec<FaceImage>,
}

/// The outcome of decoding, by its contents.
pub open spec fn decoding_view(decoded: Result<FaceImage, String>) -> Result<FaceData, Seq<char>> {
    match decoded {
        Ok(image) => Ok(image@),
        Err(text) => Err(text@),
    }
}

/// Whether `built` is what six decoded buffers, in upload order, make: the
/// cube map of the six faces, or the first thing that is wrong. A buffer
/// that did not decode comes first, the earliest of them; then the earliest
/// face with a fault.
pub open spec fn skybox_from(
    decoded: Seq<Result<FaceData, Seq<char>>>,
    built: Result<Skybox, SkyboxError>,
) -> bool
    recommends
        decoded.len() == 6,
{
    match built {
        Ok(map) => {
            &&& forall|i: int| 0 <= i < 6 ==> (#[trigger] decoded[i]) is Ok
            &&& forall|i: int|
                0 <= i < 6 ==> fault_of((#[trigger] decoded[i])->Ok_0, decoded[0]->Ok_0) is None
            &&& map.faces().len() == 6
            &&& forall|i: int| 0 <= i < 6 ==> (#[trigger] map.faces()[i]) == decoded[i]->Ok_0
        },
        Err(SkyboxError::Decode { face, text }) => {
            &&& decoded[face.slot()] == Err::<FaceData, Seq<char>>(text@)
            &&& forall|j: int| 0 <= j < face.slot() ==> (#[trigger] decoded[j]) is Ok
        },
        Err(SkyboxError::Invalid { face, fault }) => {
            &&& forall|i: int| 0 <= i < 6 ==> (#[trigger] decoded[i]) is Ok
            &&& fault_of(decoded[face.slot()]->Ok_0, decoded[0]->Ok_0) == Some(fault)
            &&& forall|j: int|
                0 <= j < face.slot() ==> fault_of((#[trigger] decoded[j])->Ok_0, decoded[0]->Ok_0)
                    is None
        },
    }
}

fn check_face(face: &FaceImage, first_width: u32) -> (fault: Option<Fault>)
    ensures
        forall|first: FaceData| first.width == first_width ==> fault == fault_of(face@, first),
{
    let width: u128 = face.width as u128;
    let height: u128 = face.height as u128;
    assert(3 * width * height <= 3 * 0xffff_ffff * 0xffff_ffff) by (nonlinear_arith)
        requires
            width <= 0xffff_ffff,
            height <= 0xffff_ffff,
    ;
    let expected: u128 = 3u128 * width * height;
    if face.pixels.len() as u128 != expected {
        Some(Fault::PixelData)
    } else if face.width != face.height {
        Some(Fault::NotSquare)
    } else if face.width > MAX_FACE_SIDE {
        Some(Fault::TooLarge)
    } else if face.width != first_width {
        Some(Fault::SizeMismatch)
    } else {
        None
    }
}

impl Skybox {
    #[verifier::type_invariant]
    spec fn six_equal_squares(self) -> bool {
        &&& self.faces.len() == 6
        &&& forall|i: int| 0 <= i < 6 ==> fault_of((#[trigger] self.faces[i])@, self.faces[0]@) is None
    }

    /// The six faces, in upload order.
    pub closed spec fn faces(self) -> Seq<FaceData> {
        face_views(self.faces@)
    }

    /// Makes a cube map of what the six buffers decoded to.
    pub fn from_decoded(
        right: Result<FaceImage, String>,
        left: Result<FaceImage, String>,
        top: Result<FaceImage, String>,
        bottom: Result<FaceImage, String>,
        front: Result<FaceImage, String>,
        back: Result<FaceImage, String>,
    ) -> (built: Result<Skybox, SkyboxError>)
        ensures
            skybox_from(
                seq![
                    decoding_view(right),
                    decoding_view(left),
                    decoding_view(top),
                    decoding_view(bottom),
                    decoding_view(front),
                    decoding_view(back),
                ],
                built,
            ),
    {
        let right = match right {
            Ok(image) => image,
            Err(text) => {
                return Err(SkyboxError::Decode { face: CubeFace::Right, text });
            },
        };
        let left = match left {
            Ok(image) => image,
            Err(text) => {
                return Err(SkyboxError::Decode { face: CubeFace::Left, text });
            },
        };
        let top = match top {
            Ok(image) => image,
            Err(text) => {
                return Err(SkyboxError::Decode { face: CubeFace::Top, text });
            },
        };
        let bottom = match bottom {
            Ok(image) => image,
            Err(text) => {
                return Err(SkyboxError::Decode { face: CubeFace::Bottom, text });
            },
        };
        let front = match front {
            Ok(image) => image,
            Err(text) => {
                return Err(SkyboxError::Decode { face: CubeFace::Front, text });
            },
        };
        let back = match back {
            Ok(image) => image,
            Err(text) => {
                return Err(SkyboxError::Decode { face: CubeFace::Back, text });
            },
        };
        let ghost decoded = seq![
            Ok::<FaceData, Seq<char>>(right@),
            Ok::<FaceData, Seq<char>>(left@),
            Ok::<FaceData, Seq<char>>(top@),
            Ok::<FaceData, Seq<char>>(bottom@),
            Ok::<FaceData, Seq<char>>(front@),
            Ok::<FaceData, Seq<char>>(back@),
        ];
        let side: u32 = right.width;
        if let Some(fault) = check_face(&right, side) {
            return Err(SkyboxError::Invalid { face: CubeFace::Right, fault });
        }
        if let Some(fault) = check_face(&left, side) {
            return Err(SkyboxError::Invalid { face: CubeFace::Left, fault });
        }
        if let Some(fault) = check_face(&top, side) {
            return Err(SkyboxError::Invalid { face: CubeFace::Top, fault });
        }
        if let Some(fault) = check_face(&bottom, side) {
            return Err(SkyboxError::Invalid { face: CubeFace::Bottom, fault });
        }
        if let Some(fault) = check_face(&front, side) {
            return Err(SkyboxError::Invalid { face: CubeFace::Front, fault });
        }
        if let Some(fault) = check_face(&back, side) {
            return Err(SkyboxError::Invalid { face: CubeFace::Back, fault });
        }
        let mut faces: Vec<FaceImage> = Vec::new();
        faces.push(right);
        faces.push(left);
        faces.push(top);
        faces.push(bottom);
        faces.push(front);
        faces.push(back);
        assert(face_views(faces@).len() == 6);
        assert forall|i: int| 0 <= i < 6 implies (#[trigger] face_views(faces@)[i])
            == decoded[i]->Ok_0 by {}
        Ok(Skybox { faces })
    }

    /// Length of a face's side, in pixels, as the graphics device takes it.
    pub fn side(&self) -> (side: i32)
        ensures
            side as int == self.faces()[0].width,
            forall|i: int|
                0 <= i < 6 ==> {
                    &&& (#[trigger] self.faces()[i]).width == side
                    &&& self.faces()[i].height == side
                    &&& self.faces()[i].pixels.len() == 3 * side * side
                },
    {
        proof {
            use_type_invariant(self);
            assert forall|i: int| 0 <= i < 6 implies {
                &&& (#[trigger] self.faces()[i]).width == self.faces[0].width
                &&& self.faces()[i].height == self.faces[0].width
                &&& self.faces()[i].pixels.len() == 3 * self.faces[0].width * self.faces[0].width
            } by {
                assert(fault_of(self.faces[i]@, self.faces[0]@) is None);
            }
            assert(fault_of(self.faces[0]@, self.faces[0]@) is None);
        }
        self.faces[0].width as i32
    }

    /// One face of the map.
    pub fn face(&self, face: CubeFace) -> (image: &FaceImage)
        ensures
            image@ == self.faces()[face.slot()],
    {
        proof {
            use_type_invariant(self);
        }
        &self.faces[face.index()]
    }
}

/// Collects the six encoded faces of a skybox by name, then builds the
/// cube map in one step. A face that was never given is an empty buffer.
pub struct SkyboxBufferBuilder<'a> {
    right_face_data: &'a [u8],
    left_face_data: &'a [u8],
    top_face_data: &'a [u8],
    bottom_face_data: &'a [u8],
    front_face_data: &'a [u8],
    back_face_data: &'a [u8],
}

impl<'a> SkyboxBufferBuilder<'a> {
    /// The buffers collected so far, in upload order.
    pub closed spec fn buffers(self) -> Seq<Seq<u8>> {
        seq![
            self.right_face_data@,
            self.left_face_data@,
            self.top_face_data@,
            self.bottom_face_data@,
            self.front_face_data@,
            self.back_face_data@,
        ]
    }

    /// A builder that holds six empty buffers.
    pub fn new() -> (builder: Self)
        ensures
            builder.buffers() == Seq::new(6, |i: int| Seq::<u8>::empty()),
    {
        let empty: &'a [u8] = &[];
        assert(empty@.len() == 0);
        assert(empty@ =~= Seq::<u8>::empty());
        let builder = SkyboxBufferBuilder {
            right_face_data: empty,
            left_face_data: empty,
            top_face_data: empty,
            bottom_face_data: empty,
            front_face_data: empty,
            back_face_data: empty,
        };
        assert(builder.buffers() =~= Seq::new(6, |i: int| Seq::<u8>::empty()));
        builder
    }

    /// Sets the buffer of `face`.
    pub fn with_face(self, face: CubeFace, data: &'a [u8]) -> (builder: Self)
        ensures
            builder.buffers() == self.buffers().update(face.slot(), data@),
    {
        let mut builder = self;
        match face {
            CubeFace::Right => {
                builder.right_face_data = data;
            },
            CubeFace::Left => {
                builder.left_face_data = data;
            },
            CubeFace::Top => {
                builder.top_face_data = data;
            },
            CubeFace::Bottom => {
                builder.bottom_face_data = data;
            },
            CubeFace::Front => {
                builder.front_face_data = data;
            },
            CubeFace::Back => {
                builder.back_face_data = data;
            },
        }
        assert(builder.buffers() =~= self.buffers().update(face.slot(), data@));
        builder
    }

    /// Sets the buffer of the right face.
    pub fn with_right(self, right_face_data: &'a [u8]) -> (builder: Self)
        ensures
            builder.buffers() == self.buffers().update(CubeFace::Right.slot(), right_face_data@),
    {
        self.with_face(CubeFace::Right, right_face_data)
    }

    /// Sets the buffer of the left face.
    pub fn with_left(self, left_face_data: &'a [u8]) -> (builder: Self)
        ensures
            builder.buffers() == self.buffers().update(CubeFace::Left.slot(), left_face_data@),
    {
        self.with_face(CubeFace::Left, left_face_data)
    }

    /// Sets the buffer of the top face.
    pub fn with_top(self, top_face_data: &'a [u8]) -> (builder: Self)
        ensures
            builder.buffers() == self.buffers().update(CubeFace::Top.slot(), top_face_data@),
    {
        self.with_face(CubeFace::Top, top_face_data)
    }

    /// Sets the buffer of the bottom face.
    pub fn with_bottom(self, bottom_face_data: &'a [u8]) -> (builder: Self)
        ensures
            builder.buffers() == self.buffers().update(CubeFace::Bottom.slot(), bottom_face_data@),
    {
        self.with_face(CubeFace::Bottom, bottom_face_data)
    }

    /// Sets the buffer of the front face.
    pub fn with_front(self, front_face_data: &'a [u8]) -> (builder: Self)
        ensures
            builder.buffers() == self.buffers().update(CubeFace::Front.slot(), front_face_data@),
    {
        self.with_face(CubeFace::Front, front_face_data)
    }

    /// Sets the buffer of the back face.
    pub fn with_back(self, back_face_data: &'a [u8]) -> (builder: Self)
        ensures
            builder.buffers() == self.buffers().update(CubeFace::Back.slot(), back_face_data@),
    {
        self.with_face(CubeFace::Back, back_face_data)
    }

    /// Decodes the six buffers, each for its own face, and makes the cube
    /// map of them.
    pub fn build(self) -> (built: Result<Skybox, SkyboxError>)
        ensures
            skybox_from(self.buffers().map_values(|data: Seq<u8>| decoded_rgb8(data)), built),
    {
        let right = decode_rgb8(self.right_face_data);
        let left = decode_rgb8(self.left_face_data);
        let top = decode_rgb8(self.top_face_data);
        let bottom = decode_rgb8(self.bottom_face_data);
        let front = decode_rgb8(self.front_face_data);
        let back = decode_rgb8(self.back_face_data);
        assert(self.buffers().map_values(|data: Seq<u8>| decoded_rgb8(data)) =~= seq![
            decoding_view(right),
            decoding_view(left),
            decoding_view(top),
            decoding_view(bottom),
            decoding_view(front),
            decoding_view(back),
        ]);
        Skybox::from_decoded(right, left, top, bottom, front, back)
    }
}

/// Collects the paths of the six encoded faces of a skybox by name. A
/// face that was never given has the empty path.
pub struct SkyboxFileBuilder {
    right_face_path: String,
    left_face_path: String,
    top_face_path: String,
    bottom_face_path: String,
    front_face_path: String,
    back_face_path: String,
}

impl SkyboxFileBuilder {
    /// The paths collected so far, in upload order.
    pub closed spec fn paths(self) -> Seq<Seq<char>> {
        Seq::<Seq<char>>::empty()
            .push(self.right_face_path@)
            .push(self.left_face_path@)
            .push(self.top_face_path@)
            .push(self.bottom_face_path@)
            .push(self.front_face_path@)
            .push(self.back_face_path@)
    }

    /// A builder that holds six empty paths.
    pub fn new() -> (builder: Self)
        ensures
            builder.paths() == Seq::new(6, |i: int| Seq::<char>::empty()),
    {
        let builder = SkyboxFileBuilder {
            right_face_path: String::new(),
            left_face_path: String::new(),
            top_face_path: String::new(),
            bottom_face_path: String::new(),
            front_face_path: String::new(),
            back_face_path: String::new(),
        };
        assert(builder.paths() =~= Seq::new(6, |i: int| Seq::<char>::empty()));
        builder
    }

    /// Sets the path of `face`.
    pub fn with_face(self, face: CubeFace, path: &str) -> (builder: Self)
        ensures
            builder.paths() == self.paths().update(face.slot(), path@),
    {
        let mut builder = self;
        match face {
            CubeFace::Right => {
                builder.right_face_path = path.to_owned();
            },
            CubeFace::Left => {
                builder.left_face_path = path.to_owned();
            },
            CubeFace::Top => {
                builder.top_face_path = path.to_owned();
            },
            CubeFace::Bottom => {
                builder.bottom_face_path = path.to_owned();
            },
            CubeFace::Front => {
                builder.front_face_path = path.to_owned();
            },
            CubeFace::Back => {
                builder.back_face_path = path.to_owned();
            },
        }
        assert(builder.paths() =~= self.paths().update(face.slot(), path@));
        builder
    }

    /// Sets the path of the right face.
    pub fn with_right(self, right_face_path: &str) -> (builder: Self)
        ensures
            builder.paths() == self.paths().update(CubeFace::Right.slot(), right_face_path@),
    {
        self.with_face(CubeFace::Right, right_face_path)
    }

    /// Sets the path of the left face.
    pub fn with_left(self, left_face_path: &str) -> (builder: Self)
        ensures
            builder.paths() == self.paths().update(CubeFace::Left.slot(), left_face_path@),
    {
        self.with_face(CubeFace::Left, left_face_path)
    }

    /// Sets the path of the top face.
    pub fn with_top(self, top_face_path: &str) -> (builder: Self)
        ensures
            builder.paths() == self.paths().update(CubeFace::Top.slot(), top_face_path@),
    {
        self.with_face(CubeFace::Top, top_face_path)
    }

    /// Sets the path of the bottom face.
    pub fn with_bottom(self, bottom_face_path: &str) -> (builder: Self)
        ensures
            builder.paths() == self.paths().update(CubeFace::Bottom.slot(), bottom_face_path@),
    {
        self.with_face(CubeFace::Bottom, bottom_face_path)
    }

    /// Sets the path of the front face.
    pub fn with_front(self, front_face_path: &str) -> (builder: Self)
        ensures
            builder.paths() == self.paths().update(CubeFace::Front.slot(), front_face_path@),
    {
        self.with_face(CubeFace::Front, front_face_path)
    }

    /// Sets the path of the back face.
    pub fn with_back(self, back_face_path: &str) -> (builder: Self)
        ensures
            builder.paths() == self.paths().update(CubeFace::Back.slot(), back_face_path@),
    {
        self.with_face(CubeFace::Back, back_face_path)
    }

    /// The path of `face`.
    pub fn path(&self, face: CubeFace) -> (path: &str)
        ensures
            path@ == self.paths()[face.slot()],
    {
        match face {
            CubeFace::Right => self.right_face_path.as_str(),
            CubeFace::Left => self.left_face_path.as_str(),
            CubeFace::Top => self.top_face_path.as_str(),
            CubeFace::Bottom => self.bottom_face_path.as_str(),
            CubeFace::Front => self.front_face_path.as_str(),
            CubeFace::Back => self.back_face_path.as_str(),
        }
    }
}

} // verus!
