use renderer_rust::model::{
    first_unsupported_index, load_obj_from_buffer, model_attributes, process_obj,
    skybox_attributes, MAX_INDEX_DIGITS, NORMAL_OFFSET, VERTEX_STRIDE,
};
use renderer_rust::{Model, ModelError, RawMesh, Triple, Vertex, VertexAttribute};

const ONE: u32 = 0x3f80_0000; // 1.0
const TWO: u32 = 0x4000_0000; // 2.0
const MINUS_ONE: u32 = 0xbf80_0000; // -1.0

const TRIANGLE: &str = "\
v 0 0 0
v 1 0 0
v 0 1 0
vn 0 0 1
f 1//1 2//1 3//1
";

const QUAD: &str = "\
v 0 0 0
v 1 0 0
v 1 1 0
v 0 1 0
vn 0 0 -1
f 1//1 2//1 3//1 4//1
";

const TWO_OBJECTS: &str = "\
o first
v 0 0 0
v 1 0 0
v 0 1 0
vn 0 0 1
f 1//1 2//1 3//1
o second
v 2 0 0
v 2 2 0
v 0 2 0
vn 0 1 0
f 4//2 5//2 6//2
";

fn vertex(p: [u32; 3], n: [u32; 3]) -> Vertex {
    Vertex {
        position: Triple { x: p[0], y: p[1], z: p[2] },
        normal: Triple { x: n[0], y: n[1], z: n[2] },
    }
}

#[test]
fn triangle_is_decoded_and_gathered() {
    let model = Model::create_from_buffer(TRIANGLE.as_bytes()).unwrap();
    assert_eq!(
        model.vertex_list(),
        &vec![
            vertex([0, 0, 0], [0, 0, ONE]),
            vertex([ONE, 0, 0], [0, 0, ONE]),
            vertex([0, ONE, 0], [0, 0, ONE]),
        ]
    );
    assert_eq!(model.index_list(), &vec![0, 1, 2]);
    assert_eq!(model.index_count(), 3);
}

#[test]
fn quad_is_cut_into_two_triangles_that_share_vertices() {
    let model = Model::create_from_buffer(QUAD.as_bytes()).unwrap();
    assert_eq!(model.vertex_list().len(), 4);
    assert_eq!(model.vertex_list()[2], vertex([ONE, ONE, 0], [0, 0, MINUS_ONE]));
    assert_eq!(model.index_list(), &vec![0, 1, 2, 0, 2, 3]);
    assert_eq!(model.index_count(), 6);
}

#[test]
fn meshes_of_one_file_are_gathered_in_order() {
    let (vertices, indices) = load_obj_from_buffer(TWO_OBJECTS.as_bytes()).unwrap();
    assert_eq!(
        vertices,
        vec![
            vertex([0, 0, 0], [0, 0, ONE]),
            vertex([ONE, 0, 0], [0, 0, ONE]),
            vertex([0, ONE, 0], [0, 0, ONE]),
            vertex([TWO, 0, 0], [0, ONE, 0]),
            vertex([TWO, TWO, 0], [0, ONE, 0]),
            vertex([0, TWO, 0], [0, ONE, 0]),
        ]
    );
    // Each mesh counts its own vertices from zero, and the indices are
    // taken as they stand.
    assert_eq!(indices, vec![0, 1, 2, 0, 1, 2]);
}

#[test]
fn empty_buffer_is_an_empty_model() {
    let model = Model::create_from_buffer(b"").unwrap();
    assert!(model.vertex_list().is_empty());
    assert!(model.index_list().is_empty());
    assert_eq!(model.index_count(), 0);
    assert!(model.vertex_words().is_empty());
}

#[test]
fn malformed_text_is_a_load_error() {
    match Model::create_from_buffer(b"v 1 2\n") {
        Err(ModelError::Load(text)) => assert_eq!(text, "PositionParseError"),
        other => panic!("unexpected: {:?}", other.map(|_| ())),
    }
    match load_obj_from_buffer(b"v 0 0 0\nf 1 2 3\n") {
        Err(ModelError::Load(text)) => assert_eq!(text, "FaceVertexOutOfBounds"),
        other => panic!("unexpected: {:?}", other),
    }
}

#[test]
fn mesh_without_normals_is_refused() {
    let text = "v 0 0 0\nv 1 0 0\nv 0 1 0\nf 1 2 3\n";
    match Model::create_from_buffer(text.as_bytes()) {
        Err(ModelError::MissingNormals { mesh }) => assert_eq!(mesh, 0),
        other => panic!("unexpected: {:?}", other.map(|_| ())),
    }
}

#[test]
fn first_mesh_without_normals_is_named() {
    let complete = || RawMesh {
        positions: vec![0, 0, 0],
        normals: vec![0, 0, ONE],
        indices: vec![0, 0, 0],
    };
    let short = || RawMesh { positions: vec![0, 0, 0, 0, 0, 0], normals: vec![0, 0, ONE], indices: vec![] };
    match process_obj(&vec![complete(), short(), complete(), short()]) {
        Err(ModelError::MissingNormals { mesh }) => assert_eq!(mesh, 1),
        other => panic!("unexpected: {:?}", other),
    }
    let long = RawMesh { positions: vec![0, 0, 0], normals: vec![0; 6], indices: vec![] };
    match process_obj(&vec![long]) {
        Err(ModelError::MissingNormals { mesh }) => assert_eq!(mesh, 0),
        other => panic!("unexpected: {:?}", other),
    }
}

#[test]
fn process_obj_groups_scalars_in_threes() {
    let mesh = RawMesh {
        positions: vec![1, 2, 3, 4, 5, 6],
        normals: vec![7, 8, 9, 10, 11, 12],
        indices: vec![1, 0, 1],
    };
    let (vertices, indices) = process_obj(&vec![mesh]).unwrap();
    assert_eq!(vertices, vec![vertex([1, 2, 3], [7, 8, 9]), vertex([4, 5, 6], [10, 11, 12])]);
    assert_eq!(indices, vec![1, 0, 1]);
    let (vertices, indices) = process_obj(&vec![]).unwrap();
    assert!(vertices.is_empty());
    assert!(indices.is_empty());
}

#[test]
fn scalars_beyond_the_last_whole_vertex_are_left_out() {
    let mesh = RawMesh {
        positions: vec![1, 2, 3, 4],
        normals: vec![7, 8, 9, 10],
        indices: vec![0],
    };
    let (vertices, _) = process_obj(&vec![mesh]).unwrap();
    assert_eq!(vertices, vec![vertex([1, 2, 3], [7, 8, 9])]);
}

#[test]
fn index_that_names_no_vertex_is_refused() {
    let vertices = vec![vertex([0, 0, 0], [0, 0, ONE]); 3];
    match Model::new(vertices.clone(), vec![0, 1, 2, 2, 3, 7]) {
        Err(ModelError::IndexOutOfRange { at }) => assert_eq!(at, 4),
        other => panic!("unexpected: {:?}", other.map(|_| ())),
    }
    match Model::new(Vec::new(), vec![0]) {
        Err(ModelError::IndexOutOfRange { at }) => assert_eq!(at, 0),
        other => panic!("unexpected: {:?}", other.map(|_| ())),
    }
    assert!(Model::new(vertices, vec![2, 2, 2]).is_ok());
}

#[test]
fn decoded_file_with_a_stray_index_is_refused() {
    let mesh = RawMesh { positions: vec![0; 3], normals: vec![0; 3], indices: vec![0, 1] };
    match Model::from_decoded(Ok(vec![mesh])) {
        Err(ModelError::IndexOutOfRange { at }) => assert_eq!(at, 1),
        other => panic!("unexpected: {:?}", other.map(|_| ())),
    }
}

#[test]
fn decoder_error_is_handed_on() {
    match Model::from_decoded(Err("ReadError".to_string())) {
        Err(ModelError::Load(text)) => assert_eq!(text, "ReadError"),
        other => panic!("unexpected: {:?}", other.map(|_| ())),
    }
}

#[test]
fn vertex_buffer_interleaves_position_and_normal() {
    let model = Model::new(
        vec![vertex([1, 2, 3], [4, 5, 6]), vertex([7, 8, 9], [10, 11, 12])],
        vec![0, 1, 0],
    )
    .unwrap();
    assert_eq!(model.vertex_words(), vec![1, 2, 3, 4, 5, 6, 7, 8, 9, 10, 11, 12]);
}

#[test]
fn attributes_describe_the_vertex_buffer() {
    assert_eq!(VERTEX_STRIDE, 24);
    assert_eq!(NORMAL_OFFSET, 12);
    assert_eq!(
        model_attributes(),
        [
            VertexAttribute { location: 0, components: 3, stride: 24, offset: 0 },
            VertexAttribute { location: 1, components: 3, stride: 24, offset: 12 },
        ]
    );
    assert_eq!(
        skybox_attributes(),
        [VertexAttribute { location: 0, components: 3, stride: 12, offset: 0 }]
    );
}

#[test]
fn index_that_would_overflow_is_refused_before_decoding() {
    let text = "v 0 0 0\nvn 0 0 1\nf 1//6148914691236517206 1//6148914691236517206 \
                1//6148914691236517206\n";
    // The tenth digit of the first long index is the first byte refused.
    let at = text.find("6148914691").unwrap() + 9;
    assert_eq!(first_unsupported_index(text.as_bytes()), Some(at));
    match Model::create_from_buffer(text.as_bytes()) {
        Err(ModelError::UnsupportedIndex { at: found }) => assert_eq!(found, at),
        other => panic!("unexpected: {:?}", other.map(|_| ())),
    }
    match load_obj_from_buffer(text.as_bytes()) {
        Err(ModelError::UnsupportedIndex { at: found }) => assert_eq!(found, at),
        other => panic!("unexpected: {:?}", other),
    }
}

#[test]
fn relative_index_before_the_start_of_its_list_is_refused() {
    // One texture coordinate, and a corner that counts back five.
    let text = "vt 0 0\nv 0 0 0\nf 1/-5 1/-5 1/-5\n";
    let at = text.find("-5").unwrap() + 1;
    assert_eq!(first_unsupported_index(text.as_bytes()), Some(at));
    match Model::create_from_buffer(text.as_bytes()) {
        Err(ModelError::UnsupportedIndex { at: found }) => assert_eq!(found, at),
        other => panic!("unexpected: {:?}", other.map(|_| ())),
    }
    // Two normals, and a corner that counts back three.
    let text = "v 0 0 0\nvn 0 0 1\nvn 0 1 0\nf 1//-2 1//-1 1//-3\n";
    let at = text.find("-3").unwrap() + 1;
    assert_eq!(first_unsupported_index(text.as_bytes()), Some(at));
    // A normal that comes after the face is not yet there to count back to.
    let text = "v 0 0 0\nf 1//-1 1//-1 1//-1\nvn 0 0 1\n";
    let at = text.find("-1").unwrap() + 1;
    assert_eq!(first_unsupported_index(text.as_bytes()), Some(at));
    // Counting back by twelve from a list of one: the first digit alone
    // would do, the second makes it too much.
    let text = "vn 0 0 1\nv 0 0 0\nf 1//-12\n";
    assert_eq!(first_unsupported_index(text.as_bytes()), Some(text.find("-12").unwrap() + 2));
}

#[test]
fn relative_indices_within_their_lists_are_decoded() {
    let text = "v 0 0 0\nv 1 0 0\nv 0 1 0\nvn 0 0 1\nf -3//-1 -2//-1 -1//-1\n";
    assert_eq!(first_unsupported_index(text.as_bytes()), None);
    let model = Model::create_from_buffer(text.as_bytes()).unwrap();
    assert_eq!(
        model.vertex_list(),
        &vec![
            vertex([0, 0, 0], [0, 0, ONE]),
            vertex([ONE, 0, 0], [0, 0, ONE]),
            vertex([0, ONE, 0], [0, 0, ONE]),
        ]
    );
    assert_eq!(model.index_list(), &vec![0, 1, 2]);
    // All three parts relative, the lists grown in between.
    let text = "v 0 0 0\nvt 0 0\nvn 0 0 1\nv 1 0 0\nvt 1 0\nvn 0 1 0\nv 0 1 0\nvt 0 1\n\
                f -3/-3/-2 -2/-2/-1 -1/-1/-0002\n";
    assert_eq!(first_unsupported_index(text.as_bytes()), None);
    let model = Model::create_from_buffer(text.as_bytes()).unwrap();
    assert_eq!(model.index_list(), &vec![0, 1, 2]);
    assert_eq!(model.vertex_list()[1], vertex([ONE, 0, 0], [0, ONE, 0]));
    assert_eq!(model.vertex_list()[2], vertex([0, ONE, 0], [0, 0, ONE]));
}

#[test]
fn position_of_a_corner_may_be_any_number() {
    // The decoder guards the position itself: a relative one that reaches
    // too far back and one far too large are its errors, not refusals.
    for text in [
        "v 0 0 0\nf -5 -5 -5\n",
        "v 0 0 0\nf 1000000000 1 1\n",
        "v 0 0 0\nf 99999999999999999 1 1\n",
        "v 0 0 0\nf -99999999999999999 1 1\n",
    ] {
        assert_eq!(first_unsupported_index(text.as_bytes()), None);
        match Model::create_from_buffer(text.as_bytes()) {
            Err(ModelError::Load(text)) => assert_eq!(text, "FaceVertexOutOfBounds"),
            other => panic!("unexpected: {:?}", other.map(|_| ())),
        }
    }
    // A number too long for the decoder to read is its error too.
    let text = "v 0 0 0\nf 99999999999999999999999999 1 1\n";
    assert_eq!(first_unsupported_index(text.as_bytes()), None);
    match Model::create_from_buffer(text.as_bytes()) {
        Err(ModelError::Load(text)) => assert_eq!(text, "FaceParseError"),
        other => panic!("unexpected: {:?}", other.map(|_| ())),
    }
}

#[test]
fn minus_signs_and_long_numbers_outside_faces_are_no_matter() {
    let text = "# made 2024-01-01, build 12345678901234567890\n\
                mtllib my-materials/0123456789012.mtl\n\
                v -1.5 -0.25 0.00000000000000000001\n\
                v 1 0 0\n\
                v 0 1 0\n\
                vn 0 0 -1\n\
                f 1//1 2//1 3//1\n";
    assert_eq!(first_unsupported_index(text.as_bytes()), None);
    let model = Model::create_from_buffer(text.as_bytes()).unwrap();
    assert_eq!(model.index_list(), &vec![0, 1, 2]);
    assert_eq!(model.vertex_list()[0].position.x, 0xbfc0_0000); // -1.5
    assert_eq!(model.vertex_list()[0].normal.z, MINUS_ONE);
}

#[test]
fn zeros_in_front_of_an_index_do_not_count() {
    let text = "v 0 0 0\nv 1 0 0\nv 0 1 0\nvn 0 0 1\n\
                f 00000000000001//0000000000001 2//1 +3//1\n";
    assert_eq!(first_unsupported_index(text.as_bytes()), None);
    let model = Model::create_from_buffer(text.as_bytes()).unwrap();
    assert_eq!(model.index_list(), &vec![0, 1, 2]);
}

#[test]
fn behind_a_slash_nine_digits_are_decoded_and_ten_are_not() {
    assert_eq!(MAX_INDEX_DIGITS, 9);
    let nine = "v 0 0 0\nvn 0 0 1\nf 1//999999999 1//1 1//1\n";
    assert_eq!(first_unsupported_index(nine.as_bytes()), None);
    match Model::create_from_buffer(nine.as_bytes()) {
        Err(ModelError::Load(text)) => assert_eq!(text, "FaceNormalOutOfBounds"),
        other => panic!("unexpected: {:?}", other.map(|_| ())),
    }
    let ten = "v 0 0 0\nvt 0 0\nf 1/1000000000 1 1\n";
    assert_eq!(first_unsupported_index(ten.as_bytes()), Some(ten.find("1000000000").unwrap() + 9));
    let padded = "v 0 0 0\nf 1 1//00001000000000 1\n";
    assert_eq!(
        first_unsupported_index(padded.as_bytes()),
        Some(padded.find("1000000000").unwrap() + 9)
    );
}

#[test]
fn a_line_of_faces_is_known_by_its_first_letter() {
    // White space in front, of ASCII or beyond, does not hide the letter.
    for text in ["  \tf 1/-1", "\u{a0}f 1/-1", "\u{2003}\u{3000} l 1//-1 2", "v 0 0 0\r\nf 1/-1\r\n"] {
        let at = text.find('-').unwrap() + 1;
        assert_eq!(first_unsupported_index(text.as_bytes()), Some(at));
    }
    // Other lines may hold what they like, and a line ends the matter.
    for text in ["vf 1/-1", "g f 1/-1", "usemtl f/-1", "o l 1/-1", "f 1 2 3\n1/-1", "f\n 1/-1"] {
        assert_eq!(first_unsupported_index(text.as_bytes()), None);
    }
    assert_eq!(first_unsupported_index(b""), None);
    assert_eq!(first_unsupported_index(b"f"), None);
    assert_eq!(first_unsupported_index(b"f-"), None);
    assert_eq!(first_unsupported_index(b"f/-"), None);
    assert_eq!(first_unsupported_index(b"f/-1"), Some(3));
    assert_eq!(first_unsupported_index(b"f/-0"), None);
}

#[test]
fn a_line_of_faces_is_ascii() {
    let text = "v 0 0 0\nf 1\u{a0}1 1\n";
    let at = text.find('\u{a0}').unwrap();
    assert_eq!(first_unsupported_index(text.as_bytes()), Some(at));
    match Model::create_from_buffer(text.as_bytes()) {
        Err(ModelError::UnsupportedIndex { at: found }) => assert_eq!(found, at),
        other => panic!("unexpected: {:?}", other.map(|_| ())),
    }
    // Elsewhere the text may be what it likes.
    let text = "# caf\u{e9}\no \u{4e16}\u{754c}\nv 0 0 0\nvn 0 0 1\nf 1//1 1//1 1//1\n";
    assert_eq!(first_unsupported_index(text.as_bytes()), None);
    assert!(Model::create_from_buffer(text.as_bytes()).is_ok());
}

#[test]
fn a_list_is_counted_by_the_lines_that_surely_hold_it() {
    // The parts of a corner count back from their own lists.
    let text = "vt 0 0\nvt 1 1\nvn 0 0 1\nv 0 0 0\nf 1/-2/-1 1/-1/-1 1/-2/-1\n";
    assert_eq!(first_unsupported_index(text.as_bytes()), None);
    let text = "vt 0 0\nvt 1 1\nvn 0 0 1\nv 0 0 0\nf 1/-2/-2\n";
    assert_eq!(first_unsupported_index(text.as_bytes()), Some(text.rfind("-2").unwrap() + 1));
    // White space of ASCII in front of the word is taken, other words and
    // white space beyond ASCII are not.
    let text = " \t vn 0 0 1\nv 0 0 0\nf 1//-1\n";
    assert_eq!(first_unsupported_index(text.as_bytes()), None);
    for text in [
        "\u{a0}vn 0 0 1\nv 0 0 0\nf 1//-1\n",
        "vnx 0 0 1\nv 0 0 0\nf 1//-1\n",
        "vn\nv 0 0 0\nf 1//-1\n",
        "vt 0 0\nv 0 0 0\nf 1//-1\n",
        "# vn 0 0 1\nv 0 0 0\nf 1//-1\n",
    ] {
        assert_eq!(first_unsupported_index(text.as_bytes()), Some(text.find("-1").unwrap() + 1));
    }
}
