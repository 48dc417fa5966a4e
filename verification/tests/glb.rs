use voxel_build::color::Color;
use voxel_build::encoding::EncodingFailure;
use voxel_build::glb::{
    binary_buffer, buffer_layout, container, index_bytes, position_bounds, Bounds, BufferLayout,
    COLOR_OFFSET, INDEX_SIZE, VERTEX_STRIDE,
};
use voxel_build::mesh::Vertex;

fn at(x: u16, y: u16, z: u16) -> Vertex<Color> {
    Vertex { x, y, z, color: Color(1, 2, 3) }
}

#[test]
fn layout_counts_bytes() {
    assert_eq!(
        buffer_layout(5, 9),
        Ok(BufferLayout {
            vertex_count: 5,
            index_count: 9,
            vertex_bytes: 120,
            index_bytes: 36,
            buffer_bytes: 156,
        })
    );
    assert_eq!(
        buffer_layout(0, 0),
        Ok(BufferLayout {
            vertex_count: 0,
            index_count: 0,
            vertex_bytes: 0,
            index_bytes: 0,
            buffer_bytes: 0,
        })
    );
    assert_eq!(VERTEX_STRIDE, 24);
    assert_eq!(COLOR_OFFSET, 12);
    assert_eq!(INDEX_SIZE, 4);
}

#[test]
fn layout_refuses_what_32_bits_cannot_hold() {
    // 24 * 100_000_000 + 4 * 473_741_823 = 4_294_967_292
    assert_eq!(buffer_layout(100_000_000, 473_741_823).unwrap().buffer_bytes, 4_294_967_292);
    assert_eq!(buffer_layout(100_000_000, 473_741_824), Err(EncodingFailure::TooLarge));
    assert_eq!(buffer_layout(178_956_971, 0), Err(EncodingFailure::TooLarge));
    assert_eq!(buffer_layout(178_956_970, 0).unwrap().vertex_bytes, 4_294_967_280);
    assert_eq!(buffer_layout(0, 1_073_741_824), Err(EncodingFailure::TooLarge));
    assert_eq!(buffer_layout(usize::MAX, usize::MAX), Err(EncodingFailure::TooLarge));
}

#[test]
fn bounds_are_tight() {
    assert_eq!(position_bounds::<Color>(&[]), None);
    assert_eq!(
        position_bounds(&[at(3, 4, 5)]),
        Some(Bounds { min: (3, 4, 5), max: (3, 4, 5) })
    );
    assert_eq!(
        position_bounds(&[at(3, 4, 5), at(1, 9, 5), at(2, 0, 256), at(7, 1, 6)]),
        Some(Bounds { min: (1, 0, 5), max: (7, 9, 256) })
    );
}

#[test]
fn indices_are_little_endian() {
    assert_eq!(index_bytes(&[]), Vec::<u8>::new());
    assert_eq!(
        index_bytes(&[1, 0x0102_0304, u32::MAX, 256]),
        vec![1, 0, 0, 0, 4, 3, 2, 1, 255, 255, 255, 255, 0, 1, 0, 0]
    );
    let many: Vec<u32> = (0..1000).map(|i| i * 4_294_967).collect();
    let expected: Vec<u8> = many.iter().flat_map(|i| i.to_le_bytes()).collect();
    assert_eq!(index_bytes(&many), expected);
}

#[test]
fn buffer_is_vertices_then_indices() {
    assert_eq!(binary_buffer(&[9, 8, 7], &[2, 1]), vec![9, 8, 7, 2, 0, 0, 0, 1, 0, 0, 0]);
}

#[test]
fn container_bytes() {
    let file = container(b"{}", &[1, 2, 3, 4, 5]).unwrap();
    assert_eq!(
        file,
        vec![
            0x67, 0x6C, 0x54, 0x46, 2, 0, 0, 0, 40, 0, 0, 0, // header
            4, 0, 0, 0, 0x4A, 0x53, 0x4F, 0x4E, b'{', b'}', b' ', b' ', // JSON chunk
            8, 0, 0, 0, 0x42, 0x49, 0x4E, 0, 1, 2, 3, 4, 5, 0, 0, 0, // BIN chunk
        ]
    );
}

#[test]
fn container_without_padding() {
    let file = container(b"{  }", &[1, 2, 3, 4]).unwrap();
    assert_eq!(file.len(), 12 + 8 + 4 + 8 + 4);
    assert_eq!(&file[8..12], &[36, 0, 0, 0][..]);
    assert_eq!(&file[12..16], &[4, 0, 0, 0][..]);
    assert_eq!(&file[24..28], &[4, 0, 0, 0][..]);
    let empty = container(b"", &[]).unwrap();
    assert_eq!(
        empty,
        vec![
            0x67, 0x6C, 0x54, 0x46, 2, 0, 0, 0, 28, 0, 0, 0, 0, 0, 0, 0, 0x4A, 0x53, 0x4F,
            0x4E, 0, 0, 0, 0, 0x42, 0x49, 0x4E, 0,
        ]
    );
}

#[test]
fn container_is_read_back() {
    let json: Vec<u8> = b"{\"asset\":{\"version\":\"2.0\"}}".to_vec();
    let bin: Vec<u8> = (0..=254u8).collect();
    let file = container(&json, &bin).unwrap();
    assert_eq!(file.len() % 4, 0);
    let read = gltf::binary::Glb::from_slice(&file).unwrap();
    assert_eq!(read.header.version, 2);
    assert_eq!(read.header.length as usize, file.len());
    assert_eq!(&read.json[..json.len()], &json[..]);
    assert!(read.json[json.len()..].iter().all(|b| *b == b' '));
    let read_bin = read.bin.unwrap();
    assert_eq!(&read_bin[..bin.len()], &bin[..]);
    assert!(read_bin[bin.len()..].iter().all(|b| *b == 0));
    assert_eq!(container(&json, &bin).unwrap(), file);
}

fn written_by_gltf(json: &[u8], bin: &[u8]) -> Vec<u8> {
    let glb = gltf::binary::Glb {
        header: gltf::binary::Header { magic: *b"glTF", version: 2, length: 0 },
        json: std::borrow::Cow::Borrowed(json),
        bin: Some(std::borrow::Cow::Borrowed(bin)),
    };
    glb.to_vec().unwrap()
}

#[test]
fn container_is_what_the_gltf_writer_writes() {
    let json: Vec<u8> = (0..40u8).map(|i| b'a' + i % 26).collect();
    let bin: Vec<u8> = (0..40u8).collect();
    for json_len in 0..=json.len() {
        for bin_len in 0..=bin.len() {
            let ours = container(&json[..json_len], &bin[..bin_len]);
            assert_eq!(ours, Ok(written_by_gltf(&json[..json_len], &bin[..bin_len])));
        }
    }
}

#[test]
fn container_never_fails_below_the_length_limit() {
    let bin = vec![7u8; 1 << 20];
    let file = container(b"{\"scene\":0}", &bin).unwrap();
    assert_eq!(file.len(), 12 + 8 + 12 + 8 + (1 << 20));
    assert_eq!(&file[8..12], &(file.len() as u32).to_le_bytes()[..]);
    assert_eq!(container(b"{\"scene\":0}", &bin), Ok(file));
}
