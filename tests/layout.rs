use solar_system::hdr::{cube_dispatch, row_bytes};
use solar_system::layout::{
    instance_layout, pack_attributes, vertex_layout, AttrFormat, StepMode, VertexAttr,
};

#[test]
fn instance_layout_packs_two_matrices_and_a_layer() {
    let l = instance_layout();
    assert_eq!(l.array_stride, 128);
    assert_eq!(l.step_mode, StepMode::Instance);
    let offsets: Vec<u64> = l.attributes.iter().map(|a| a.offset).collect();
    assert_eq!(offsets, vec![0, 16, 32, 48, 64, 76, 88, 100]);
    let locations: Vec<u32> = l.attributes.iter().map(|a| a.shader_location).collect();
    assert_eq!(locations, (5..13).collect::<Vec<u32>>());
    assert_eq!(l.attributes[7].format, AttrFormat::Uint32);
}

#[test]
fn vertex_layout_packs_position_uv_normal() {
    let l = vertex_layout();
    assert_eq!(l.array_stride, 32);
    assert_eq!(l.step_mode, StepMode::Vertex);
    assert_eq!(
        l.attributes,
        vec![
            VertexAttr { offset: 0, shader_location: 0, format: AttrFormat::Float32x3 },
            VertexAttr { offset: 12, shader_location: 1, format: AttrFormat::Float32x2 },
            VertexAttr { offset: 20, shader_location: 2, format: AttrFormat::Float32x3 },
        ]
    );
}

#[test]
fn packing_nothing_gives_nothing() {
    assert!(pack_attributes(&vec![], 3).is_empty());
}

#[test]
fn cube_projection_dispatch() {
    assert_eq!(cube_dispatch(1080), (68, 68, 6));
    assert_eq!(cube_dispatch(1024), (64, 64, 6));
    assert_eq!(cube_dispatch(0), (0, 0, 6));
    assert_eq!(cube_dispatch(u32::MAX), (268_435_456, 268_435_456, 6));
}

#[test]
fn texel_rows() {
    assert_eq!(row_bytes(2048), Some(32_768));
    assert_eq!(row_bytes(u32::MAX / 16), Some(u32::MAX - 15));
    assert_eq!(row_bytes(u32::MAX / 16 + 1), None);
}
