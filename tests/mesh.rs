use rust_3d::context::ContextConfig;
use rust_3d::geometry::{buffer_byte_len, plan_upload, position_data, AttributeLayout, BufferUsage, UploadError};
use rust_3d::mesh::{load_mesh, Mesh, MeshError, Position3};
use rust_3d::obj_text::supported_obj_text;

const TRIANGLE: &str = "# one triangle\nv 0.0 0.0 0.0\nv 1.0 0.0 0.0\nv 0.0 1.0 0.5\nf 1 2 3\n";

fn p(x: f32, y: f32, z: f32) -> Position3 {
    Position3 { x: x.to_bits(), y: y.to_bits(), z: z.to_bits() }
}

#[test]
fn loads_a_triangle() {
    let mesh = load_mesh(&TRIANGLE.as_bytes().to_vec()).unwrap();
    assert_eq!(mesh.vertices(), &vec![p(0.0, 0.0, 0.0), p(1.0, 0.0, 0.0), p(0.0, 1.0, 0.5)]);
    assert_eq!(mesh.indices(), &vec![0u32, 1, 2]);
}

#[test]
fn loaded_mesh_is_never_empty() {
    assert_eq!(load_mesh(&b"v 1 2 3\n".to_vec()).unwrap_err(), MeshError::NoIndices);
    assert_eq!(load_mesh(&b"# nothing\n".to_vec()).unwrap_err(), MeshError::NoVertices);
    assert_eq!(load_mesh(&Vec::new()).unwrap_err(), MeshError::NoVertices);
}

#[test]
fn malformed_text_is_rejected() {
    assert_eq!(load_mesh(&b"v 1 x 3\n".to_vec()).unwrap_err(), MeshError::Malformed);
    let quad = "v 0 0 0\nv 1 0 0\nv 1 1 0\nv 0 1 0\nf 1 2 3 4\n";
    assert_eq!(load_mesh(&quad.as_bytes().to_vec()).unwrap_err(), MeshError::Malformed);
}

#[test]
fn unimplemented_statements_are_refused_before_parsing() {
    for text in [
        "v 0 0 0\nend\n",
        "cstype bezier\n",
        "deg 3\n",
        "  curv 0 1 1 2\n",
        "bmat u 1 0\n",
        "v 0 0 0 \\\n",
        "\u{3000}end\n",
        "v#\n",
        "\x0cend\n",
    ] {
        assert_eq!(load_mesh(&text.as_bytes().to_vec()).unwrap_err(), MeshError::Unsupported, "{:?}", text);
    }
}

#[test]
fn supported_text_check() {
    assert!(supported_obj_text(&Vec::new()));
    assert!(supported_obj_text(&TRIANGLE.as_bytes().to_vec()));
    assert!(supported_obj_text(&b"\t v 1 2 3\r\n\r\n  \n# end\ng x\nusemtl m\nmtllib a.mtl\ns off\nvt 0\n".to_vec()));
    assert!(!supported_obj_text(&b"usemtlx m\n".to_vec()));
    assert!(!supported_obj_text(&b"\rend\n".to_vec()));
    assert!(!supported_obj_text(&b"trace_obj x\n".to_vec()));
}

#[test]
fn crlf_text_loads() {
    let text = "v 0 0 0\r\nv 1 0 0\r\nv 0 1 0\r\n\r\nf 1 2 3\r\n";
    let mesh = load_mesh(&text.as_bytes().to_vec()).unwrap();
    assert_eq!(mesh.vertices().len(), 3);
    assert_eq!(mesh.indices(), &vec![0u32, 1, 2]);
}

#[test]
fn face_index_past_the_positions_is_malformed() {
    let text = "v 0 0 0\nv 1 0 0\nv 0 1 0\nf 1 2 4\n";
    assert_eq!(load_mesh(&text.as_bytes().to_vec()).unwrap_err(), MeshError::Malformed);
}

#[test]
fn from_parts_checks_index_range() {
    let vs = vec![p(0.0, 0.0, 0.0), p(1.0, 0.0, 0.0)];
    assert_eq!(Mesh::from_parts(vs.clone(), vec![0, 1, 2]).unwrap_err(), MeshError::IndexOutOfRange);
    assert!(Mesh::from_parts(vs, vec![0, 1, 1]).is_ok());
}

#[test]
fn from_parts_checks_both_lists() {
    assert_eq!(Mesh::from_parts(Vec::new(), vec![0]).unwrap_err(), MeshError::NoVertices);
    assert_eq!(Mesh::from_parts(vec![p(1.0, 2.0, 3.0)], Vec::new()).unwrap_err(), MeshError::NoIndices);
    let m = Mesh::from_parts(vec![p(1.0, 2.0, 3.0)], vec![0, 0, 0]).unwrap();
    assert_eq!(m.indices().len(), 3);
}

#[test]
fn triangle_upload_plan() {
    let mesh = load_mesh(&TRIANGLE.as_bytes().to_vec()).unwrap();
    let plan = plan_upload(&mesh).unwrap();
    let one = 1.0f32.to_bits();
    let half = 0.5f32.to_bits();
    let zero = 0.0f32.to_bits();
    assert_eq!(plan.data, vec![zero, zero, zero, one, zero, zero, zero, one, half]);
    assert_eq!(plan.byte_len, 36);
    assert_eq!(plan.usage, BufferUsage::StaticDraw);
    assert_eq!(plan.attribute, AttributeLayout { components: 2, normalized: false, stride: 0, offset: 0 });
    assert_eq!(plan.output_slot, 0);
}

#[test]
fn position_data_is_packed() {
    assert_eq!(position_data(&Vec::new()), Vec::<u32>::new());
    assert_eq!(position_data(&vec![Position3 { x: 1, y: 2, z: 3 }, Position3 { x: 4, y: 5, z: 6 }]), vec![
        1, 2, 3, 4, 5, 6
    ]);
}

#[test]
fn buffer_size_must_fit_a_signed_size() {
    assert_eq!(buffer_byte_len(0), Some(0));
    assert_eq!(buffer_byte_len(9), Some(36));
    let max_words = (isize::MAX as usize) / 4;
    assert_eq!(buffer_byte_len(max_words), Some(max_words * 4));
    assert_eq!(buffer_byte_len(max_words + 1), None);
    let _ = UploadError::TooLarge;
}

#[test]
fn standard_context_configuration() {
    let c = ContextConfig::standard();
    assert_eq!((c.major_version, c.minor_version), (3, 1));
    assert!(c.double_buffer);
    assert_eq!(c.depth_bits, 24);
    assert_eq!(c.title, "Rust SDL2 Window");
    assert_eq!((c.width, c.height), (800, 600));
    assert!(c.centered);
    assert_eq!(c.swap_interval, 1);
}
