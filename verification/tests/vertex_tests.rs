use wexp::bytes::{read_word, Endian};
use wexp::vertex::{
    attr_array, quad, read_attribute, vertex_bytes, Vertex, VertexAttribute, VertexFormat,
    VertexStepMode, HALF, MINUS_HALF, ONE, VERTEX_COUNT, VERTEX_STRIDE, ZERO,
};

fn native() -> Endian {
    if u32::from_ne_bytes([1, 0, 0, 0]) == 1 {
        Endian::Little
    } else {
        Endian::Big
    }
}

fn floats(v: &Vertex) -> [f32; 8] {
    [
        f32::from_bits(v.position[0]),
        f32::from_bits(v.position[1]),
        f32::from_bits(v.position[2]),
        f32::from_bits(v.color[0]),
        f32::from_bits(v.color[1]),
        f32::from_bits(v.color[2]),
        f32::from_bits(v.texture_coords[0]),
        f32::from_bits(v.texture_coords[1]),
    ]
}

#[test]
fn float_constants_are_the_bit_patterns_they_name() {
    assert_eq!(ZERO, 0.0f32.to_bits());
    assert_eq!(ONE, 1.0f32.to_bits());
    assert_eq!(HALF, 0.5f32.to_bits());
    assert_eq!(MINUS_HALF, (-0.5f32).to_bits());
}

#[test]
fn format_sizes() {
    assert_eq!(VertexFormat::Float32.byte_size(), 4);
    assert_eq!(VertexFormat::Float32x2.byte_size(), 8);
    assert_eq!(VertexFormat::Float32x3.byte_size(), 12);
    assert_eq!(VertexFormat::Float32x4.byte_size(), 16);
}

#[test]
fn vertex_layout_has_packed_offsets() {
    let layout = Vertex::desc();
    assert_eq!(layout.array_stride, 32);
    assert_eq!(layout.array_stride, VERTEX_STRIDE);
    assert_eq!(layout.array_stride, std::mem::size_of::<[f32; 8]>() as u64);
    assert_eq!(layout.step_mode, VertexStepMode::Vertex);
    assert_eq!(
        layout.attributes,
        vec![
            VertexAttribute { format: VertexFormat::Float32x3, offset: 0, shader_location: 0 },
            VertexAttribute { format: VertexFormat::Float32x3, offset: 12, shader_location: 1 },
            VertexAttribute { format: VertexFormat::Float32x2, offset: 24, shader_location: 2 },
        ]
    );
}

#[test]
fn attr_array_accumulates_sizes() {
    let attrs = attr_array(&[
        (7, VertexFormat::Float32),
        (3, VertexFormat::Float32x4),
        (5, VertexFormat::Float32x2),
        (0, VertexFormat::Float32x3),
    ])
    .unwrap();
    let offsets: Vec<u64> = attrs.iter().map(|a| a.offset).collect();
    let locations: Vec<u32> = attrs.iter().map(|a| a.shader_location).collect();
    assert_eq!(offsets, vec![0, 4, 20, 28]);
    assert_eq!(locations, vec![7, 3, 5, 0]);
    assert_eq!(attrs[1].format, VertexFormat::Float32x4);
}

#[test]
fn attr_array_leaves_no_padding() {
    let entries = [
        (0, VertexFormat::Float32x3),
        (1, VertexFormat::Float32x3),
        (2, VertexFormat::Float32x2),
        (3, VertexFormat::Float32x4),
        (4, VertexFormat::Float32),
    ];
    let attrs = attr_array(&entries).unwrap();
    assert_eq!(attrs[0].offset, 0);
    for i in 0..attrs.len() - 1 {
        assert_eq!(attrs[i + 1].offset, attrs[i].offset + attrs[i].format.byte_size());
    }
    assert_eq!(attrs[4].offset, 48);
}

#[test]
fn attr_array_of_nothing_is_empty() {
    assert_eq!(attr_array(&[]), Some(vec![]));
}

#[test]
fn quad_is_two_triangles() {
    let q = quad();
    assert_eq!(q.len(), 6);
    assert_eq!(q.len() as u32, VERTEX_COUNT);
    let expected: [[f32; 8]; 6] = [
        [-0.5, 0.5, 0.0, 1.0, 0.0, 0.0, 0.0, 1.0],
        [-0.5, -0.5, 0.0, 0.0, 1.0, 0.0, 0.0, 0.0],
        [0.5, -0.5, 0.0, 0.0, 0.0, 1.0, 1.0, 0.0],
        [-0.5, 0.5, 0.0, 1.0, 0.0, 0.0, 0.0, 1.0],
        [0.5, -0.5, 0.0, 0.0, 0.0, 1.0, 1.0, 0.0],
        [0.5, 0.5, 0.0, 0.0, 0.0, 1.0, 1.0, 1.0],
    ];
    for i in 0..6 {
        assert_eq!(floats(&q[i]), expected[i]);
    }
}

#[test]
fn vertex_bytes_are_the_floats_in_memory() {
    let q = quad();
    let as_floats: Vec<[f32; 8]> = q.iter().map(floats).collect();
    let expected: &[u8] = bytemuck::cast_slice(&as_floats);
    let bytes = vertex_bytes(&q);
    assert_eq!(bytes.len(), 6 * 32);
    assert_eq!(bytes, expected);
}

#[test]
fn vertex_bytes_of_one_vertex_in_this_machines_order() {
    let v = Vertex {
        position: [0x0102_0304, 0x0506_0708, 0x090A_0B0C],
        color: [0x1112_1314, 0x1516_1718, 0x191A_1B1C],
        texture_coords: [0x2122_2324, 0x2526_2728],
    };
    let bytes = vertex_bytes(&[v]);
    let mut expected: Vec<u8> = Vec::new();
    for w in [
        0x0102_0304u32,
        0x0506_0708,
        0x090A_0B0C,
        0x1112_1314,
        0x1516_1718,
        0x191A_1B1C,
        0x2122_2324,
        0x2526_2728,
    ] {
        expected.extend_from_slice(&w.to_ne_bytes());
    }
    assert_eq!(bytes, expected);
    assert_ne!(bytes[0], bytes[3]);
}

#[test]
fn vertex_bytes_of_nothing_is_empty() {
    assert_eq!(vertex_bytes(&[]), Vec::<u8>::new());
}

#[test]
fn quad_reads_back_bit_for_bit() {
    let q = quad();
    let bytes = vertex_bytes(&q);
    let layout = Vertex::desc();
    for (i, v) in q.iter().enumerate() {
        assert_eq!(read_attribute(&bytes, &layout, 0, i, native()), Some(v.position.to_vec()));
        assert_eq!(read_attribute(&bytes, &layout, 1, i, native()), Some(v.color.to_vec()));
        assert_eq!(
            read_attribute(&bytes, &layout, 2, i, native()),
            Some(v.texture_coords.to_vec())
        );
    }
}

#[test]
fn read_attribute_refuses_what_is_not_there() {
    let q = quad();
    let bytes = vertex_bytes(&q);
    let layout = Vertex::desc();
    assert_eq!(read_attribute(&bytes, &layout, 3, 0, native()), None);
    assert_eq!(read_attribute(&bytes, &layout, 0, 6, native()), None);
    assert_eq!(read_attribute(&bytes, &layout, 2, usize::MAX, native()), None);
    assert_eq!(read_attribute(&bytes[..31], &layout, 2, 0, native()), None);
    assert!(read_attribute(&bytes[..32], &layout, 2, 0, native()).is_some());
    assert!(read_attribute(&bytes, &layout, 2, 5, native()).is_some());
}

#[test]
fn read_word_in_both_orders() {
    let bytes = [0xAA, 0x01, 0x02, 0x03, 0x04, 0xBB];
    assert_eq!(read_word(&bytes, 1, Endian::Little), 0x0403_0201);
    assert_eq!(read_word(&bytes, 1, Endian::Big), 0x0102_0304);
    assert_eq!(read_word(&bytes, 0, Endian::Little), u32::from_le_bytes([0xAA, 1, 2, 3]));
    assert_eq!(read_word(&bytes, 2, Endian::Big), u32::from_be_bytes([2, 3, 4, 0xBB]));
}
