use std::io::Read;

use voxel_build::block::{Block, Material};
use voxel_build::encoding::EncodingFailure;
use voxel_build::nbt::{compress, compressed, NbtWriter, TagType};
use voxel_build::schematic::Schematic;

fn gunzip(bytes: &[u8]) -> Vec<u8> {
    let mut out = Vec::new();
    flate2::read::GzDecoder::new(bytes).read_to_end(&mut out).unwrap();
    out
}

#[test]
fn tag_type_bytes() {
    let all = [
        TagType::End,
        TagType::Byte,
        TagType::Short,
        TagType::Int,
        TagType::Long,
        TagType::Float,
        TagType::Double,
        TagType::ByteArray,
        TagType::String,
        TagType::List,
        TagType::Compound,
        TagType::IntArray,
        TagType::LongArray,
    ];
    for (i, ty) in all.iter().enumerate() {
        assert_eq!(ty.id() as usize, i);
    }
}

#[test]
fn short_tag_is_big_endian() {
    let mut w = NbtWriter::new();
    w.write_short("Width", 0x0102);
    assert_eq!(w.stream(), &[2, 0, 5, b'W', b'i', b'd', b't', b'h', 1, 2][..]);
}

#[test]
fn negative_short_is_twos_complement() {
    let mut w = NbtWriter::new();
    w.write_short("", -2);
    w.write_short("", i16::MIN);
    w.write_short("", -1);
    w.write_short("", i16::MAX);
    assert_eq!(
        w.stream(),
        &[2, 0, 0, 0xFF, 0xFE, 2, 0, 0, 0x80, 0x00, 2, 0, 0, 0xFF, 0xFF, 2, 0, 0, 0x7F, 0xFF][..]
    );
}

#[test]
fn byte_array_tag_has_four_byte_length() {
    let mut w = NbtWriter::new();
    let payload: Vec<u8> = (0..=255u8).chain(0..=43u8).collect();
    w.write_byte_array("Blocks", &payload);
    let mut expected = vec![7, 0, 6, b'B', b'l', b'o', b'c', b'k', b's', 0, 0, 1, 44];
    expected.extend_from_slice(&payload);
    assert_eq!(w.stream(), &expected[..]);
}

#[test]
fn string_tag_counts_bytes() {
    let mut w = NbtWriter::new();
    w.write_string("Materials", "Alpha");
    w.write_string("\u{00A7}", "a\u{00A7}");
    assert_eq!(
        w.stream(),
        &[
            8, 0, 9, b'M', b'a', b't', b'e', b'r', b'i', b'a', b'l', b's', 0, 5, b'A', b'l',
            b'p', b'h', b'a', 8, 0, 2, 0xC2, 0xA7, 0, 3, b'a', 0xC2, 0xA7,
        ][..]
    );
}

#[test]
fn compound_opens_and_closes() {
    let mut w = NbtWriter::new();
    w.begin_compound("Schematic");
    w.end_compound();
    assert_eq!(
        w.stream(),
        &[10, 0, 9, b'S', b'c', b'h', b'e', b'm', b'a', b't', b'i', b'c', 0][..]
    );
}

#[test]
fn long_name_keeps_both_length_bytes() {
    let name = "n".repeat(0x0123);
    let mut w = NbtWriter::new();
    w.begin_compound(&name);
    assert_eq!(&w.stream()[..3], &[10, 0x01, 0x23][..]);
    assert_eq!(w.stream().len(), 3 + 0x0123);
}

#[test]
fn finish_compresses_the_stream() {
    let mut w = NbtWriter::new();
    w.begin_compound("Schematic");
    w.write_short("Width", 3);
    w.end_compound();
    let stream = w.stream().to_vec();
    let packed = w.finish().unwrap();
    assert_ne!(packed, stream);
    assert_eq!(&packed[..4], &[0x1f, 0x8b, 8, 0][..]);
    assert_eq!(&packed[4..8], &[0, 0, 0, 0][..]);
    assert_eq!(packed[9], 255);
    assert_eq!(gunzip(&packed), stream);
}

#[test]
fn equal_writers_hold_equal_files() {
    let mut a = NbtWriter::new();
    let mut b = NbtWriter::new();
    for w in [&mut a, &mut b] {
        w.begin_compound("Schematic");
        w.write_short("Width", 7);
        w.write_string("Materials", "Alpha");
        w.write_byte_array("Blocks", &[1, 2, 3]);
        w.end_compound();
    }
    let stream = a.stream().to_vec();
    assert_eq!(b.stream(), &stream[..]);
    let file_a = a.finish().unwrap();
    let file_b = b.finish().unwrap();
    assert_eq!(file_a, file_b);
    assert_eq!(gunzip(&file_a), stream);
}

#[test]
fn compress_is_repeatable() {
    let data: Vec<u8> = (0..2000u32).map(|i| (i * 7 % 251) as u8).collect();
    let a: Result<Vec<u8>, EncodingFailure> = compress(&data);
    let b = compress(&data);
    assert_eq!(a, b);
    assert_eq!(gunzip(&a.unwrap()), data);
    assert_eq!(gunzip(&compress(&[]).unwrap()), Vec::<u8>::new());
}

#[test]
fn block_grid_tag_stream() {
    let mut schem = Schematic::new(2, 1, 1);
    schem.set(0, 0, 0, Block::new(Material::stone)).unwrap();
    schem.set(1, 0, 0, Block::new_with_data(Material::wool, 14)).unwrap();
    let mut expected: Vec<u8> = Vec::new();
    expected.extend_from_slice(&[10, 0, 9]);
    expected.extend_from_slice(b"Schematic");
    expected.extend_from_slice(&[2, 0, 5]);
    expected.extend_from_slice(b"Width");
    expected.extend_from_slice(&[0, 2]);
    expected.extend_from_slice(&[2, 0, 6]);
    expected.extend_from_slice(b"Height");
    expected.extend_from_slice(&[0, 1]);
    expected.extend_from_slice(&[2, 0, 6]);
    expected.extend_from_slice(b"Length");
    expected.extend_from_slice(&[0, 1]);
    expected.extend_from_slice(&[8, 0, 9]);
    expected.extend_from_slice(b"Materials");
    expected.extend_from_slice(&[0, 5]);
    expected.extend_from_slice(b"Alpha");
    expected.extend_from_slice(&[7, 0, 6]);
    expected.extend_from_slice(b"Blocks");
    expected.extend_from_slice(&[0, 0, 0, 2, 1, 35]);
    expected.extend_from_slice(&[7, 0, 4]);
    expected.extend_from_slice(b"Data");
    expected.extend_from_slice(&[0, 0, 0, 2, 0, 14]);
    expected.push(0);
    assert_eq!(schem.tag_stream(), expected);
    let file = schem.serialize().unwrap();
    assert_eq!(gunzip(&file), expected);
    assert_eq!(schem.serialize().unwrap(), file);
}

#[test]
fn block_grid_sizes_go_to_their_tags() {
    let mut schem = Schematic::new(200, 3, 2);
    schem.set(199, 2, 1, Block::new(Material::structure_block)).unwrap();
    let stream = schem.tag_stream();
    // Width, Height, Length payloads.
    assert_eq!(&stream[12 + 8..12 + 10], &[0, 200][..]);
    assert_eq!(&stream[12 + 10 + 9..12 + 10 + 11], &[0, 3][..]);
    assert_eq!(&stream[12 + 10 + 11 + 9..12 + 10 + 11 + 11], &[0, 2][..]);
    let blocks_at = 12 + 10 + 11 + 11 + 19 + 9;
    assert_eq!(&stream[blocks_at..blocks_at + 4], &[0, 0, 0x04, 0xB0][..]);
    let ids = &stream[blocks_at + 4..blocks_at + 4 + 1200];
    assert_eq!(ids[1199], 255);
    assert!(ids[..1199].iter().all(|b| *b == 0));
    assert_eq!(stream.len(), blocks_at + 4 + 1200 + 7 + 4 + 1200 + 1);
    assert_eq!(*stream.last().unwrap(), 0);
}

#[test]
fn compressor_answers_are_passed_on() {
    assert_eq!(compressed(Ok(vec![1, 2, 3])), Ok(vec![1, 2, 3]));
    let failed = std::io::Error::new(std::io::ErrorKind::WriteZero, "sink is full");
    assert_eq!(compressed(Err(failed)), Err(EncodingFailure::Io));
}
