//! Mesh data: what a Wavefront OBJ buffer decodes to, and the vertex and
//! index lists that go to the graphics device.
//!
//! Scalars are kept in storage form, as the 32 bits of a single-precision
//! number. The library moves them from one list to another and never
//! computes with them.

use vstd::prelude::*;

verus! {

/// Scalars of one vertex: three of position, three of normal.
pub const SCALARS_PER_VERTEX: usize = 6;

/// Bytes of one vertex in the vertex buffer.
pub const VERTEX_STRIDE: i32 = 24;

/// Byte offset of the normal within a vertex.
pub const NORMAL_OFFSET: i32 = 12;

/// Most indices one draw call can take.
pub const MAX_INDEX_COUNT: usize = 0x7fff_ffff;

/// Three scalars in storage form.
#[derive(Clone, Copy, Debug, PartialEq, Eq, Structural)]
pub struct Triple {
    pub x: u32,
    pub y: u32,
    pub z: u32,
}

/// What the graphics device is given for one vertex. There are no texture
/// coordinates: no mesh of the viewer is textured.
#[derive(Clone, Copy, Debug, PartialEq, Eq, Structural)]
pub struct Vertex {
    pub position: Triple,
    pub normal: Triple,
}

/// One mesh as it was decoded: flattened positions and normals, three
/// scalars each, and the indices of its triangles' corners.
#[derive(Debug)]
pub struct RawMesh {
    pub positions: Vec<u32>,
    pub normals: Vec<u32>,
    pub indices: Vec<u32>,
}

/// The contents of a [`RawMesh`].
pub ghost struct MeshData {
    pub positions: Seq<u32>,
    pub normals: Seq<u32>,
    pub indices: Seq<u32>,
}

impl View for RawMesh {
    type V = MeshData;

    open spec fn view(&self) -> MeshData {
        MeshData { positions: self.positions@, normals: self.normals@, indices: self.indices@ }
    }
}

/// Why no model could be made.
#[derive(Debug)]
pub enum ModelError {
    /// The buffer is no well-formed OBJ text; the decoder's own name for
    /// what is wrong with it is attached.
    Load(String),
    /// The mesh with this number does not have one normal for each
    /// position.
    MissingNormals { mesh: usize },
    /// There are more indices than one draw call can take.
    TooManyIndices,
    /// The index at this place of the index list names no vertex.
    IndexOutOfRange { at: usize },
    /// The byte at this place of the text makes a line of faces that the
    /// decoder is not given: behind a slash an index of more than nine
    /// digits or a relative one that reaches before the start of its list,
    /// or a byte beyond ASCII.
    UnsupportedIndex { at: usize },
}

/// The contents of each of `meshes`.
pub open spec fn mesh_views(meshes: Seq<RawMesh>) -> Seq<MeshData> {
    meshes.map_values(|m: RawMesh| m@)
}

/// The `i`-th group of three in a flattened list.
pub open spec fn triple_at(scalars: Seq<u32>, i: int) -> Triple {
    Triple { x: scalars[3 * i], y: scalars[3 * i + 1], z: scalars[3 * i + 2] }
}

/// A mesh has one normal for each position.
pub open spec fn has_all_normals(mesh: MeshData) -> bool {
    mesh.normals.len() == mesh.positions.len()
}

/// How many vertices a mesh holds.
pub open spec fn vertex_count(mesh: MeshData) -> nat {
    (mesh.positions.len() / 3) as nat
}

/// The vertices of one mesh: the `i`-th takes the `i`-th position and the
/// `i`-th normal.
pub open spec fn mesh_vertices(mesh: MeshData) -> Seq<Vertex> {
    Seq::new(
        vertex_count(mesh),
        |i: int|
            Vertex { position: triple_at(mesh.positions, i), normal: triple_at(mesh.normals, i) },
    )
}

/// The vertices of the first `n` meshes, one mesh after the other.
pub open spec fn vertices_of(meshes: Seq<MeshData>, n: nat) -> Seq<Vertex>
    recommends
        n <= meshes.len(),
    decreases n,
{
    if n == 0 {
        Seq::empty()
    } else {
        vertices_of(meshes, (n - 1) as nat) + mesh_vertices(meshes[n - 1])
    }
}

/// The indices of the first `n` meshes, one mesh after the other, each as
/// it stands in its mesh.
pub open spec fn indices_of(meshes: Seq<MeshData>, n: nat) -> Seq<u32>
    recommends
        n <= meshes.len(),
    decreases n,
{
    if n == 0 {
        Seq::empty()
    } else {
        indices_of(meshes, (n - 1) as nat) + meshes[n - 1].indices
    }
}

/// Mesh `k` is the first that lacks normals.
pub open spec fn first_without_normals(meshes: Seq<MeshData>, k: int) -> bool {
    &&& 0 <= k < meshes.len()
    &&& !has_all_normals(meshes[k])
    &&& forall|j: int| 0 <= j < k ==> has_all_normals(#[trigger] meshes[j])
}

/// Every index names a vertex.
pub open spec fn indices_in_range(indices: Seq<u32>, vertex_count: nat) -> bool {
    forall|i: int| 0 <= i < indices.len() ==> (#[trigger] indices[i] as nat) < vertex_count
}

/// The index at place `at` is the first that names no vertex.
pub open spec fn first_out_of_range(indices: Seq<u32>, vertex_count: nat, at: int) -> bool {
    &&& 0 <= at < indices.len()
    &&& indices[at] as nat >= vertex_count
    &&& indices_in_range(indices.take(at), vertex_count)
}

/// Gathers the vertices and indices of all meshes of one file into one
/// vertex list and one index list, in the order of the meshes. Every mesh
/// must have one normal for each position: the first that does not is
/// reported and nothing is gathered.
pub fn process_obj(models: &Vec<RawMesh>) -> (gathered: Result<(Vec<Vertex>, Vec<u32>), ModelError>)
    ensures
        match gathered {
            Ok((vertices, indices)) => {
                &&& forall|k: int|
                    0 <= k < models.len() ==> has_all_normals(#[trigger] mesh_views(models@)[k])
                &&& vertices@ == vertices_of(mesh_views(models@), models.len() as nat)
                &&& indices@ == indices_of(mesh_views(models@), models.len() as nat)
            },
            Err(ModelError::MissingNormals { mesh }) => first_without_normals(
                mesh_views(models@),
                mesh as int,
            ),
            Err(_) => false,
        },
{
    let mut vertices: Vec<Vertex> = Vec::new();
    let mut indices: Vec<u32> = Vec::new();
    let ghost views = mesh_views(models@);
    let mut m: usize = 0;
    while m < models.len()
        invariant
            0 <= m <= models.len(),
            views == mesh_views(models@),
            forall|k: int| 0 <= k < m ==> has_all_normals(#[trigger] views[k]),
            vertices@ == vertices_of(views, m as nat),
            indices@ == indices_of(views, m as nat),
        decreases models.len() - m,
    {
        let mesh = &models[m];
        assert(views[m as int] == mesh@);
        if mesh.normals.len() != mesh.positions.len() {
            return Err(ModelError::MissingNormals { mesh: m });
        }
        let count: usize = mesh.positions.len() / 3;
        let ghost before = vertices@;
        let mut i: usize = 0;
        while i < count
            invariant
                0 <= i <= count,
                count == mesh.positions.len() / 3,
                mesh.normals.len() == mesh.positions.len(),
                vertices@ == before + mesh_vertices(mesh@).take(i as int),
            decreases count - i,
        {
            let vertex = Vertex {
                position: Triple {
                    x: mesh.positions[i * 3],
                    y: mesh.positions[i * 3 + 1],
                    z: mesh.positions[i * 3 + 2],
                },
                normal: Triple {
                    x: mesh.normals[i * 3],
                    y: mesh.normals[i * 3 + 1],
                    z: mesh.normals[i * 3 + 2],
                },
            };
            vertices.push(vertex);
            assert(vertices@ =~= before + mesh_vertices(mesh@).take(i + 1));
            i = i + 1;
        }
        assert(mesh_vertices(mesh@).take(count as int) =~= mesh_vertices(mesh@));
        let ghost indices_before = indices@;
        let mut j: usize = 0;
        while j < mesh.indices.len()
            invariant
                0 <= j <= mesh.indices.len(),
                indices@ == indices_before + mesh.indices@.take(j as int),
            decreases mesh.indices.len() - j,
        {
            indices.push(mesh.indices[j]);
            assert(indices@ =~= indices_before + mesh.indices@.take(j + 1));
            j = j + 1;
        }
        assert(mesh.indices@.take(mesh.indices.len() as int) =~= mesh.indices@);
        m = m + 1;
    }
    Ok((vertices, indices))
}

/// Bytes of ASCII that the look through OBJ text tells apart.
pub const TAB: u8 = 9;

pub const LINE_FEED: u8 = 10;

pub const VERTICAL_TAB: u8 = 11;

pub const FORM_FEED: u8 = 12;

pub const CARRIAGE_RETURN: u8 = 13;

pub const SPACE: u8 = 32;

pub const MINUS_SIGN: u8 = 45;

pub const SLASH: u8 = 47;

pub const DIGIT_ZERO: u8 = 48;

pub const DIGIT_NINE: u8 = 57;

pub const LETTER_F: u8 = 102;

pub const LETTER_L: u8 = 108;

pub const LETTER_N: u8 = 110;

pub const LETTER_T: u8 = 116;

pub const LETTER_V: u8 = 118;

/// Most digits an index behind a slash may have, zeros in front not
/// counted.
pub const MAX_INDEX_DIGITS: usize = 9;

/// White space of ASCII within a line.
pub open spec fn is_ascii_blank(byte: u8) -> bool {
    byte == TAB || byte == VERTICAL_TAB || byte == FORM_FEED || byte == CARRIAGE_RETURN || byte
        == SPACE
}

/// White space of ASCII within a line, or a byte of a character beyond
/// ASCII, which may be part of white space.
pub open spec fn may_be_blank(byte: u8) -> bool {
    is_ascii_blank(byte) || byte >= 128
}

/// An ASCII digit.
pub open spec fn is_digit(byte: u8) -> bool {
    DIGIT_ZERO <= byte <= DIGIT_NINE
}

/// Whether nothing but what may be white space stands between the start
/// of its line and place `i` of the text.
pub open spec fn at_line_head(data: Seq<u8>, i: int) -> bool
    decreases i,
{
    if i <= 0 {
        true
    } else {
        data[i - 1] == LINE_FEED || (may_be_blank(data[i - 1]) && at_line_head(data, i - 1))
    }
}

/// Whether nothing but white space of ASCII stands between the start of
/// its line and place `i` of the text.
pub open spec fn at_plain_head(data: Seq<u8>, i: int) -> bool
    decreases i,
{
    if i <= 0 {
        true
    } else {
        data[i - 1] == LINE_FEED || (is_ascii_blank(data[i - 1]) && at_plain_head(data, i - 1))
    }
}

/// Whether place `i` of the text lies in a line that may hold a face or a
/// polyline, behind the letter that says so: the first thing in the line
/// that cannot be white space is an `f` or an `l` before `i`.
pub open spec fn in_face_line(data: Seq<u8>, i: int) -> bool
    decreases i,
{
    if i <= 0 {
        false
    } else {
        data[i - 1] != LINE_FEED && ((at_line_head(data, i - 1) && (data[i - 1] == LETTER_F
            || data[i - 1] == LETTER_L)) || in_face_line(data, i - 1))
    }
}

/// Whether the white space at place `k` ends the word `v` and `letter` at
/// the head of a line: with `t` for the letter the line holds a texture
/// coordinate, with `n` a normal.
pub open spec fn list_line_opens(data: Seq<u8>, k: int, letter: u8) -> bool {
    &&& 2 <= k < data.len()
    &&& is_ascii_blank(data[k])
    &&& data[k - 1] == letter
    &&& data[k - 2] == LETTER_V
    &&& at_plain_head(data, k - 2)
}

/// How many lines of the list of `letter` are known to begin before place
/// `i`. The decoder has taken in at least as many entries of that list
/// when it comes to `i`.
pub open spec fn listed_before(data: Seq<u8>, i: int, letter: u8) -> nat
    decreases i,
{
    if i <= 0 {
        0
    } else {
        listed_before(data, i - 1, letter) + if list_line_opens(data, i - 1, letter) {
            1nat
        } else {
            0nat
        }
    }
}

/// How many slashes stand between the white space before place `i` and
/// `i`: which part of a corner `i` lies in, the position being part 0, the
/// texture coordinate part 1 and the normal part 2.
pub open spec fn slashes_before(data: Seq<u8>, i: int) -> nat
    decreases i,
{
    if i <= 0 || data[i - 1] == LINE_FEED || is_ascii_blank(data[i - 1]) {
        0
    } else if data[i - 1] == SLASH {
        slashes_before(data, i - 1) + 1
    } else {
        slashes_before(data, i - 1)
    }
}

/// Whether a minus sign stands in the part of a corner that place `i`
/// lies in, before `i`.
pub open spec fn minus_before(data: Seq<u8>, i: int) -> bool
    decreases i,
{
    if i <= 0 || data[i - 1] == LINE_FEED || is_ascii_blank(data[i - 1]) || data[i - 1] == SLASH {
        false
    } else {
        data[i - 1] == MINUS_SIGN || minus_before(data, i - 1)
    }
}

/// How many digits the run of digits that ends before place `i` has, zeros
/// in front not counted; zero where no digit stands before `i`.
pub open spec fn significant_digits(data: Seq<u8>, i: int) -> nat
    decreases i,
{
    if i <= 0 || !is_digit(data[i - 1]) {
        0
    } else if significant_digits(data, i - 1) == 0 && data[i - 1] == DIGIT_ZERO {
        0
    } else {
        significant_digits(data, i - 1) + 1
    }
}

/// The number that the run of digits that ends before place `i` spells;
/// zero where no digit stands before `i`.
pub open spec fn magnitude(data: Seq<u8>, i: int) -> nat
    decreases i,
{
    if i <= 0 || !is_digit(data[i - 1]) {
        0
    } else {
        magnitude(data, i - 1) * 10 + (data[i - 1] - DIGIT_ZERO) as nat
    }
}

/// How many entries the list has that an index at place `i` counts back
/// from: texture coordinates in part 1 of a corner, normals behind it.
pub open spec fn list_length(data: Seq<u8>, i: int) -> nat {
    if slashes_before(data, i) == 1 {
        listed_before(data, i, LETTER_T)
    } else {
        listed_before(data, i, LETTER_N)
    }
}

/// Whether the byte at place `i` makes a line of faces one that the
/// decoder is not given. The position of a corner may be any number. Behind
/// a slash a digit is refused if it makes an index longer than
/// `MAX_INDEX_DIGITS`, or a relative index that counts back further than
/// its list is known to be long. A byte beyond ASCII is refused anywhere in
/// the line.
pub open spec fn unsupported_at(data: Seq<u8>, i: int) -> bool {
    &&& 0 <= i < data.len()
    &&& in_face_line(data, i)
    &&& (data[i] >= 128 || (slashes_before(data, i) > 0 && is_digit(data[i]) && (
    significant_digits(data, i + 1) > MAX_INDEX_DIGITS || (minus_before(data, i) && magnitude(
        data,
        i + 1,
    ) > list_length(data, i)))))
}

/// Whether the decoder can be given the text: behind a slash no corner of
/// a face has an index of more than `MAX_INDEX_DIGITS` digits, nor a
/// relative one that reaches before the start of its list, and the lines of
/// faces are ASCII.
pub open spec fn has_plain_indices(data: Seq<u8>) -> bool {
    forall|i: int| 0 <= i < data.len() ==> !unsupported_at(data, i)
}

/// Place `at` is the first that the decoder is not given.
pub open spec fn first_unsupported(data: Seq<u8>, at: int) -> bool {
    &&& unsupported_at(data, at)
    &&& forall|j: int| 0 <= j < at ==> !unsupported_at(data, j)
}

/// Ten to the power of `n`.
pub open spec fn ten_to(n: nat) -> nat
    decreases n,
{
    if n == 0 {
        1
    } else {
        10 * ten_to((n - 1) as nat)
    }
}

/// A run of digits spells a number below ten to the number of its digits,
/// zeros in front not counted.
pub proof fn lemma_magnitude_is_bounded(data: Seq<u8>, i: int)
    ensures
        magnitude(data, i) < ten_to(significant_digits(data, i)),
    decreases i,
{
    if i <= 0 || !is_digit(data[i - 1]) {
    } else {
        lemma_magnitude_is_bounded(data, i - 1);
        let before = magnitude(data, i - 1);
        let digits = significant_digits(data, i - 1);
        if digits == 0 && data[i - 1] == DIGIT_ZERO {
            assert(before == 0);
        } else {
            assert(before * 10 + 9 < 10 * ten_to(digits)) by (nonlinear_arith)
                requires
                    before < ten_to(digits),
            ;
        }
    }
}

/// Looks through the text for what the decoder is not given, and gives
/// the place of the first such byte, if there is one.
pub fn first_unsupported_index(data: &[u8]) -> (found: Option<usize>)
    ensures
        match found {
            Some(at) => first_unsupported(data@, at as int),
            None => has_plain_indices(data@),
        },
{
    let mut head = true;
    let mut plain = true;
    let mut face = false;
    let mut after_v = false;
    let mut after_vt = false;
    let mut after_vn = false;
    let mut texcoords: usize = 0;
    let mut normals: usize = 0;
    let mut slashes: usize = 0;
    let mut minus = false;
    let mut digits: usize = 0;
    let mut value: u64 = 0;
    let mut i: usize = 0;
    while i < data.len()
        invariant
            0 <= i <= data.len(),
            head == at_line_head(data@, i as int),
            plain == at_plain_head(data@, i as int),
            face == in_face_line(data@, i as int),
            after_v == (i >= 1 && data@[i - 1] == LETTER_V && at_plain_head(data@, i - 1)),
            after_vt == (i >= 2 && data@[i - 1] == LETTER_T && data@[i - 2] == LETTER_V
                && at_plain_head(data@, i - 2)),
            after_vn == (i >= 2 && data@[i - 1] == LETTER_N && data@[i - 2] == LETTER_V
                && at_plain_head(data@, i - 2)),
            texcoords == listed_before(data@, i as int, LETTER_T),
            normals == listed_before(data@, i as int, LETTER_N),
            texcoords <= i,
            normals <= i,
            slashes == slashes_before(data@, i as int),
            slashes <= i,
            minus == minus_before(data@, i as int),
            digits == significant_digits(data@, i as int),
            digits <= i,
            digits <= MAX_INDEX_DIGITS ==> value == magnitude(data@, i as int),
            value <= 999_999_999,
            forall|j: int| 0 <= j < i ==> !unsupported_at(data@, j),
        decreases data.len() - i,
    {
        let byte = data[i];
        let blank = byte == TAB || byte == VERTICAL_TAB || byte == FORM_FEED || byte
            == CARRIAGE_RETURN || byte == SPACE;
        let digit = DIGIT_ZERO <= byte && byte <= DIGIT_NINE;
        let run: usize = if digit {
            if digits == 0 && byte == DIGIT_ZERO {
                0
            } else {
                digits + 1
            }
        } else {
            0
        };
        proof {
            lemma_magnitude_is_bounded(data@, i as int);
            lemma_magnitude_is_bounded(data@, i + 1);
            reveal_with_fuel(ten_to, 11);
        }
        let number: u64 = if digit && run <= MAX_INDEX_DIGITS {
            value * 10 + (byte - DIGIT_ZERO) as u64
        } else {
            0
        };
        assert(run == significant_digits(data@, i + 1));
        assert(run <= MAX_INDEX_DIGITS ==> number == magnitude(data@, i + 1));
        if face {
            if byte >= 128 {
                return Some(i);
            }
            if slashes > 0 && digit {
                if run > MAX_INDEX_DIGITS {
                    return Some(i);
                }
                let length: usize = if slashes == 1 {
                    texcoords
                } else {
                    normals
                };
                if minus && number > length as u64 {
                    return Some(i);
                }
            }
        }
        if blank && after_vt {
            texcoords = texcoords + 1;
        }
        if blank && after_vn {
            normals = normals + 1;
        }
        after_vt = byte == LETTER_T && after_v;
        after_vn = byte == LETTER_N && after_v;
        after_v = byte == LETTER_V && plain;
        let opens = head && (byte == LETTER_F || byte == LETTER_L);
        face = byte != LINE_FEED && (opens || face);
        head = byte == LINE_FEED || ((blank || byte >= 128) && head);
        plain = byte == LINE_FEED || (blank && plain);
        if byte == LINE_FEED || blank {
            slashes = 0;
            minus = false;
        } else if byte == SLASH {
            slashes = slashes + 1;
            minus = false;
        } else {
            minus = byte == MINUS_SIGN || minus;
        }
        digits = run;
        value = number;
        i = i + 1;
    }
    None
}

/// What a buffer of Wavefront OBJ text decodes to: the meshes of the file
/// in their order, each with a single index per corner and all faces cut
/// into triangles, or the decoder's name for what is wrong with the text.
pub uninterp spec fn obj_parse(data: Seq<u8>) -> Result<Seq<MeshData>, Seq<char>>;

/// Decodes OBJ text with `tobj::load_obj_buf` under `tobj::GPU_LOAD_OPTIONS`,
/// with no material library behind it. Each scalar is handed on as its 32
/// bits.
///
/// The decoder guards the position of a corner, but behind a slash it
/// multiplies an index without a guard, and a relative index that reaches
/// before the start of its list becomes a very large one; it does not
/// return on a text where that goes wrong. Such texts are left out: the
/// text must have plain indices. For the texts that are left the contract
/// only gives the outcome its name, `obj_parse`: it claims that the meshes,
/// or else the `Debug` text of the decoder's error, depend on nothing but
/// the bytes.
#[verifier::external_body]
fn parse_obj(data: &[u8]) -> (parsed: Result<Vec<RawMesh>, String>)
    requires
        has_plain_indices(data@),
    ensures
        match parsed {
            Ok(meshes) => obj_parse(data@) == Ok::<Seq<MeshData>, Seq<char>>(mesh_views(meshes@)),
            Err(text) => obj_parse(data@) == Err::<Seq<MeshData>, Seq<char>>(text@),
        },
{
    let mut reader = data;
    match tobj::load_obj_buf(&mut reader, &tobj::GPU_LOAD_OPTIONS, |_| Ok(Default::default())) {
        Ok((models, _)) => Ok(
            models.into_iter().map(|m| RawMesh {
                positions: m.mesh.positions.iter().map(|s| s.to_bits()).collect(),
                normals: m.mesh.normals.iter().map(|s| s.to_bits()).collect(),
                indices: m.mesh.indices,
            }).collect(),
        ),
        Err(e) => Err(format!("{:?}", e)),
    }
}

/// Decodes OBJ text and gathers its meshes into one vertex list and one
/// index list. A text without plain indices is refused before it is
/// decoded, with the place of the first byte that is not taken.
pub fn load_obj_from_buffer(data: &[u8]) -> (loaded: Result<(Vec<Vertex>, Vec<u32>), ModelError>)
    ensures
        match loaded {
            Ok((vertices, indices)) => {
                &&& has_plain_indices(data@)
                &&& obj_parse(data@) matches Ok(meshes) && {
                    &&& forall|k: int|
                        0 <= k < meshes.len() ==> has_all_normals(#[trigger] meshes[k])
                    &&& vertices@ == vertices_of(meshes, meshes.len())
                    &&& indices@ == indices_of(meshes, meshes.len())
                }
            },
            Err(ModelError::UnsupportedIndex { at }) => first_unsupported(data@, at as int),
            Err(ModelError::Load(text)) => {
                &&& has_plain_indices(data@)
                &&& obj_parse(data@) == Err::<Seq<MeshData>, Seq<char>>(text@)
            },
            Err(ModelError::MissingNormals { mesh }) => {
                &&& has_plain_indices(data@)
                &&& obj_parse(data@) matches Ok(meshes) && first_without_normals(
                    meshes,
                    mesh as int,
                )
            },
            Err(_) => false,
        },
{
    match first_unsupported_index(data) {
        Some(at) => Err(ModelError::UnsupportedIndex { at }),
        None => match parse_obj(data) {
            Ok(meshes) => process_obj(&meshes),
            Err(text) => Err(ModelError::Load(text)),
        },
    }
}

/// A mesh ready for the graphics device: vertices, and the indices of its
/// triangles' corners. Every index names a vertex, and there are no more
/// indices than one draw call can take.
pub struct Model {
    vertices: Vec<Vertex>,
    indices: Vec<u32>,
}

/// Whether `built` is what the decoded file `parsed` makes: the model of
/// all its meshes, or the first thing that is wrong with it. Text that did
/// not decode comes first, then a mesh without normals, then too many
/// indices, then an index that names no vertex.
pub open spec fn built_from(
    parsed: Result<Seq<MeshData>, Seq<char>>,
    built: Result<Model, ModelError>,
) -> bool {
    match built {
        Ok(model) => parsed matches Ok(meshes) && {
            &&& forall|k: int| 0 <= k < meshes.len() ==> has_all_normals(#[trigger] meshes[k])
            &&& model.vertices() == vertices_of(meshes, meshes.len())
            &&& model.indices() == indices_of(meshes, meshes.len())
            &&& model.indices().len() <= MAX_INDEX_COUNT
            &&& indices_in_range(model.indices(), model.vertices().len())
        },
        Err(ModelError::Load(text)) => parsed == Err::<Seq<MeshData>, Seq<char>>(text@),
        Err(ModelError::MissingNormals { mesh }) => parsed matches Ok(meshes)
            && first_without_normals(meshes, mesh as int),
        Err(ModelError::TooManyIndices) => parsed matches Ok(meshes) && {
            &&& forall|k: int| 0 <= k < meshes.len() ==> has_all_normals(#[trigger] meshes[k])
            &&& indices_of(meshes, meshes.len()).len() > MAX_INDEX_COUNT
        },
        Err(ModelError::UnsupportedIndex { .. }) => false,
        Err(ModelError::IndexOutOfRange { at }) => parsed matches Ok(meshes) && {
            &&& forall|k: int| 0 <= k < meshes.len() ==> has_all_normals(#[trigger] meshes[k])
            &&& indices_of(meshes, meshes.len()).len() <= MAX_INDEX_COUNT
            &&& first_out_of_range(
                indices_of(meshes, meshes.len()),
                vertices_of(meshes, meshes.len()).len(),
                at as int,
            )
        },
    }
}

impl Model {
    #[verifier::type_invariant]
    spec fn indices_name_vertices(self) -> bool {
        &&& self.indices.len() <= MAX_INDEX_COUNT
        &&& indices_in_range(self.indices@, self.vertices.len() as nat)
    }

    /// The vertices.
    pub closed spec fn vertices(self) -> Seq<Vertex> {
        self.vertices@
    }

    /// The indices.
    pub closed spec fn indices(self) -> Seq<u32> {
        self.indices@
    }

    /// Makes a model of a vertex list and an index list. There may be no
    /// more than `MAX_INDEX_COUNT` indices, and each must name a vertex: the
    /// first that does not is reported.
    pub fn new(vertices: Vec<Vertex>, indices: Vec<u32>) -> (made: Result<Model, ModelError>)
        ensures
            match made {
                Ok(model) => {
                    &&& model.vertices() == vertices@
                    &&& model.indices() == indices@
                    &&& indices.len() <= MAX_INDEX_COUNT
                    &&& indices_in_range(indices@, vertices.len() as nat)
                },
                Err(ModelError::TooManyIndices) => indices.len() > MAX_INDEX_COUNT,
                Err(ModelError::IndexOutOfRange { at }) => {
                    &&& indices.len() <= MAX_INDEX_COUNT
                    &&& first_out_of_range(indices@, vertices.len() as nat, at as int)
                },
                Err(_) => false,
            },
    {
        if indices.len() > MAX_INDEX_COUNT {
            return Err(ModelError::TooManyIndices);
        }
        let mut i: usize = 0;
        while i < indices.len()
            invariant
                0 <= i <= indices.len(),
                indices.len() <= MAX_INDEX_COUNT,
                indices_in_range(indices@.take(i as int), vertices.len() as nat),
            decreases indices.len() - i,
        {
            if indices[i] as usize >= vertices.len() {
                return Err(ModelError::IndexOutOfRange { at: i });
            }
            assert(indices_in_range(indices@.take(i + 1), vertices.len() as nat)) by {
                assert forall|k: int| 0 <= k < i + 1 implies (#[trigger] indices@.take(i + 1)[k]
                    as nat) < vertices.len() by {
                    if k < i {
                        assert(indices@.take(i as int)[k] == indices@[k]);
                    }
                }
            }
            i = i + 1;
        }
        assert(indices@.take(indices.len() as int) =~= indices@);
        Ok(Model { vertices, indices })
    }

    /// Makes a model of a decoded file: gathers its meshes and checks the
    /// indices.
    pub fn from_decoded(parsed: Result<Vec<RawMesh>, String>) -> (built: Result<Model, ModelError>)
        ensures
            built_from(
                match parsed {
                    Ok(meshes) => Ok(mesh_views(meshes@)),
                    Err(text) => Err(text@),
                },
                built,
            ),
    {
        match parsed {
            Ok(meshes) => {
                match process_obj(&meshes) {
                    Ok((vertices, indices)) => Model::new(vertices, indices),
                    Err(e) => Err(e),
                }
            },
            Err(text) => Err(ModelError::Load(text)),
        }
    }

    /// Makes a model of a buffer of OBJ text. A text without plain indices
    /// is refused before it is decoded, with the place of the first byte
    /// that is not taken.
    pub fn create_from_buffer(data: &[u8]) -> (built: Result<Model, ModelError>)
        ensures
            match built {
                Err(ModelError::UnsupportedIndex { at }) => first_unsupported(data@, at as int),
                _ => has_plain_indices(data@) && built_from(obj_parse(data@), built),
            },
    {
        match first_unsupported_index(data) {
            Some(at) => Err(ModelError::UnsupportedIndex { at }),
            None => Model::from_decoded(parse_obj(data)),
        }
    }

    /// The vertices, in the order in which the indices count them.
    pub fn vertex_list(&self) -> (vertices: &Vec<Vertex>)
        ensures
            vertices@ == self.vertices(),
    {
        &self.vertices
    }

    /// The indices, three for each triangle. Each names a vertex.
    pub fn index_list(&self) -> (indices: &Vec<u32>)
        ensures
            indices@ == self.indices(),
            indices_in_range(indices@, self.vertices().len()),
            indices.len() <= MAX_INDEX_COUNT,
    {
        proof {
            use_type_invariant(self);
        }
        &self.indices
    }

    /// The vertices as they lie in the vertex buffer: six scalars for each,
    /// its position first, then its normal.
    pub fn vertex_words(&self) -> (words: Vec<u32>)
        ensures
            words@ == interleaved(self.vertices()),
    {
        let mut words: Vec<u32> = Vec::new();
        let mut i: usize = 0;
        while i < self.vertices.len()
            invariant
                0 <= i <= self.vertices.len(),
                words@ == interleaved(self.vertices@.take(i as int)),
            decreases self.vertices.len() - i,
        {
            let vertex = self.vertices[i];
            let ghost before = words@;
            words.push(vertex.position.x);
            words.push(vertex.position.y);
            words.push(vertex.position.z);
            words.push(vertex.normal.x);
            words.push(vertex.normal.y);
            words.push(vertex.normal.z);
            assert(words@ =~= interleaved(self.vertices@.take(i + 1))) by {
                let more = self.vertices@.take(i + 1);
                assert(words@.len() == 6 * (i + 1));
                assert forall|w: int| 0 <= w < 6 * (i + 1) implies words@[w] == scalar_of(
                    more[w / 6],
                    w % 6,
                ) by {
                    if w < 6 * i {
                        assert(words@[w] == before[w]);
                        assert(more[w / 6] == self.vertices@.take(i as int)[w / 6]);
                    } else {
                        assert(w / 6 == i);
                        assert(more[i as int] == vertex);
                    }
                }
            }
            i = i + 1;
        }
        assert(self.vertices@.take(self.vertices.len() as int) =~= self.vertices@);
        words
    }

    /// How many indices a draw call for this model takes.
    pub fn index_count(&self) -> (count: i32)
        ensures
            count as int == self.indices().len(),
    {
        proof {
            use_type_invariant(self);
        }
        self.indices.len() as i32
    }
}

/// Scalar `k` of a vertex as it lies in the vertex buffer: the position is
/// scalars 0 to 2, the normal scalars 3 to 5.
pub open spec fn scalar_of(vertex: Vertex, k: int) -> u32 {
    if k == 0 {
        vertex.position.x
    } else if k == 1 {
        vertex.position.y
    } else if k == 2 {
        vertex.position.z
    } else if k == 3 {
        vertex.normal.x
    } else if k == 4 {
        vertex.normal.y
    } else {
        vertex.normal.z
    }
}

/// The contents of the vertex buffer: the scalars of the first vertex, then
/// those of the second, and so on.
pub open spec fn interleaved(vertices: Seq<Vertex>) -> Seq<u32> {
    Seq::new(
        (SCALARS_PER_VERTEX * vertices.len()) as nat,
        |w: int| scalar_of(vertices[w / (SCALARS_PER_VERTEX as int)], w % (SCALARS_PER_VERTEX as int)),
    )
}

/// Bytes of one scalar in a buffer.
pub const BYTES_PER_SCALAR: i32 = 4;

/// Where the graphics device finds one attribute of a vertex.
#[derive(Clone, Copy, Debug, PartialEq, Eq, Structural)]
pub struct VertexAttribute {
    /// The attribute's location in the vertex stage.
    pub location: u32,
    /// How many scalars the attribute has.
    pub components: i32,
    /// Bytes from one vertex to the next.
    pub stride: i32,
    /// Bytes from the start of a vertex to the attribute.
    pub offset: i32,
}

impl VertexAttribute {
    /// The first scalar of a vertex that the attribute covers, counted
    /// from the start of the vertex.
    pub open spec fn first_scalar(self) -> int {
        self.offset as int / BYTES_PER_SCALAR as int
    }

    /// The scalar after the last that the attribute covers.
    pub open spec fn end_scalar(self) -> int {
        self.first_scalar() + self.components
    }
}

/// The two attributes of a mesh vertex.
pub open spec fn model_layout() -> Seq<VertexAttribute> {
    Seq::<VertexAttribute>::empty()
        .push(VertexAttribute { location: 0, components: 3, stride: VERTEX_STRIDE, offset: 0 })
        .push(
            VertexAttribute {
                location: 1,
                components: 3,
                stride: VERTEX_STRIDE,
                offset: NORMAL_OFFSET,
            },
        )
}

/// The one attribute of a corner of the skybox cube.
pub open spec fn skybox_layout() -> Seq<VertexAttribute> {
    Seq::<VertexAttribute>::empty()
        .push(
            VertexAttribute {
                location: 0,
                components: 3,
                stride: (3 * BYTES_PER_SCALAR) as i32,
                offset: 0,
            },
        )
}

/// The attributes of a mesh vertex: the position at location 0, the normal
/// at location 1.
pub fn model_attributes() -> (attributes: [VertexAttribute; 2])
    ensures
        attributes@ =~= model_layout(),
{
    [
        VertexAttribute { location: 0, components: 3, stride: VERTEX_STRIDE, offset: 0 },
        VertexAttribute { location: 1, components: 3, stride: VERTEX_STRIDE, offset: NORMAL_OFFSET },
    ]
}

/// The attribute of a corner of the skybox cube: its position, at
/// location 0.
pub fn skybox_attributes() -> (attributes: [VertexAttribute; 1])
    ensures
        attributes@ =~= skybox_layout(),
{
    [VertexAttribute { location: 0, components: 3, stride: 3 * BYTES_PER_SCALAR, offset: 0 }]
}

/// The layout of a mesh vertex agrees with the vertex buffer: a vertex is
/// as long as its six scalars, the position covers the first three and the
/// normal the other three, so the two neither overlap nor leave a gap; and
/// in the buffer the attributes of vertex `i` hold its position and its
/// normal.
pub proof fn lemma_model_layout_fits(vertices: Seq<Vertex>, i: int)
    requires
        0 <= i < vertices.len(),
    ensures
        VERTEX_STRIDE == SCALARS_PER_VERTEX * BYTES_PER_SCALAR,
        model_layout().len() == 2,
        model_layout()[0].first_scalar() == 0,
        model_layout()[0].end_scalar() == model_layout()[1].first_scalar(),
        model_layout()[1].end_scalar() == SCALARS_PER_VERTEX,
        interleaved(vertices).len() == SCALARS_PER_VERTEX * vertices.len(),
        ({
            let buffer = interleaved(vertices);
            let position = SCALARS_PER_VERTEX * i + model_layout()[0].first_scalar();
            let normal = SCALARS_PER_VERTEX * i + model_layout()[1].first_scalar();
            &&& buffer[position] == vertices[i].position.x
            &&& buffer[position + 1] == vertices[i].position.y
            &&& buffer[position + 2] == vertices[i].position.z
            &&& buffer[normal] == vertices[i].normal.x
            &&& buffer[normal + 1] == vertices[i].normal.y
            &&& buffer[normal + 2] == vertices[i].normal.z
        }),
{
}

} // verus!
