use pong::geometry::{Color, Rect, Vec2, Vec3, Vertex};
use pong::layout::{flatten, index_bytes, vertex_bytes, WORDS_PER_VERTEX};
use pong::renderer::{Renderer, Upload};

fn native(words: &[u32]) -> Vec<u8> {
    let mut bytes: Vec<u8> = Vec::new();
    for w in words {
        bytes.extend_from_slice(&w.to_ne_bytes());
    }
    bytes
}

fn sample() -> Vec<Vertex> {
    vec![
        Vertex {
            position: Vec3 { x: 0x0102_0304, y: 0x0506_0708, z: 0x090a_0b0c },
            color: Color { r: 0x0d0e_0f10, g: 0x1112_1314, b: 0x1516_1718 },
        },
        Vertex {
            position: Vec3 {
                x: (1.0f32).to_bits(),
                y: (-2.5f32).to_bits(),
                z: (0.0f32).to_bits(),
            },
            color: Color {
                r: (0.5f32).to_bits(),
                g: (0.25f32).to_bits(),
                b: (1.0f32).to_bits(),
            },
        },
    ]
}

#[test]
fn records_are_laid_out_number_by_number() {
    assert_eq!(WORDS_PER_VERTEX, 6);
    assert_eq!(
        flatten(&sample()),
        vec![
            0x0102_0304,
            0x0506_0708,
            0x090a_0b0c,
            0x0d0e_0f10,
            0x1112_1314,
            0x1516_1718,
            0x3f80_0000,
            0xc020_0000,
            0x0000_0000,
            0x3f00_0000,
            0x3e80_0000,
            0x3f80_0000,
        ]
    );
    assert_eq!(flatten(&[]), Vec::<u32>::new());
}

#[test]
fn vertex_bytes_are_the_records_in_memory_order() {
    let vertices: Vec<Vertex> = sample();
    let bytes: Vec<u8> = vertex_bytes(&vertices);
    assert_eq!(bytes.len(), 48);
    assert_eq!(bytes, native(&flatten(&vertices)));
    let first: [u8; 4] = [bytes[0], bytes[1], bytes[2], bytes[3]];
    assert_eq!(u32::from_ne_bytes(first), 0x0102_0304);
    assert!(first == [4, 3, 2, 1] || first == [1, 2, 3, 4]);
    let color: [u8; 4] = [bytes[12], bytes[13], bytes[14], bytes[15]];
    assert_eq!(u32::from_ne_bytes(color), 0x0d0e_0f10);
    assert_eq!(vertex_bytes(&[]), Vec::<u8>::new());
}

#[test]
fn vertex_bytes_read_back_as_floats() {
    let bytes: Vec<u8> = vertex_bytes(&sample());
    let y: [u8; 4] = [bytes[28], bytes[29], bytes[30], bytes[31]];
    assert_eq!(f32::from_ne_bytes(y), -2.5);
    let g: [u8; 4] = [bytes[40], bytes[41], bytes[42], bytes[43]];
    assert_eq!(f32::from_ne_bytes(g), 0.25);
}

#[test]
fn index_bytes_are_the_indices_in_memory_order() {
    let indices: Vec<u16> = vec![0, 1, 2, 2, 3, 0, 0x1234, 0xfffe];
    let bytes: Vec<u8> = index_bytes(&indices);
    assert_eq!(bytes.len(), 16);
    let mut expected: Vec<u8> = Vec::new();
    for i in indices.iter() {
        expected.extend_from_slice(&i.to_ne_bytes());
    }
    assert_eq!(bytes, expected);
    let wide: [u8; 2] = [bytes[12], bytes[13]];
    assert!(wide == [0x34, 0x12] || wide == [0x12, 0x34]);
    assert_eq!(index_bytes(&[]), Vec::<u8>::new());
}

#[test]
fn upload_carries_the_bytes_of_its_geometry() {
    let mut renderer: Renderer = Renderer::new();
    let rects: Vec<Rect> = vec![Rect {
        position: Vec3 { x: (0.5f32).to_bits(), y: (0.5f32).to_bits(), z: 0 },
        size: Vec2 { x: (0.25f32).to_bits(), y: (0.125f32).to_bits() },
        color: Color { r: (1.0f32).to_bits(), g: 0, b: (1.0f32).to_bits() },
    }];
    let upload: Upload = renderer
        .batch_rects(&rects, |p: Vec3, d: Vec3| Vec3 {
            x: (f32::from_bits(p.x) + f32::from_bits(d.x)).to_bits(),
            y: (f32::from_bits(p.y) + f32::from_bits(d.y)).to_bits(),
            z: (f32::from_bits(p.z) + f32::from_bits(d.z)).to_bits(),
        })
        .unwrap();
    assert_eq!(upload.vertex_bytes, vertex_bytes(&upload.vertices));
    assert_eq!(upload.index_bytes, index_bytes(&upload.indices));
    assert_eq!(upload.vertex_bytes.len(), 96);
    assert_eq!(upload.index_bytes.len(), 12);
    let x: [u8; 4] = [
        upload.vertex_bytes[48],
        upload.vertex_bytes[49],
        upload.vertex_bytes[50],
        upload.vertex_bytes[51],
    ];
    assert_eq!(f32::from_ne_bytes(x), 0.25);
    assert_eq!(upload.index_bytes, {
        let mut expected: Vec<u8> = Vec::new();
        for i in [0u16, 1, 2, 2, 3, 0] {
            expected.extend_from_slice(&i.to_ne_bytes());
        }
        expected
    });
}
