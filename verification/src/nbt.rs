//! The tag stream of the block format, and its gzip envelope.
//!
//! A tag is one type byte, the length of its name as two bytes, the name, and
//! a payload whose shape the type decides. All numbers are big-endian. A
//! compound is closed by a lone end byte. The finished stream is compressed
//! as a whole.

use crate::block::Block;
use crate::encoding::{append_be16, append_be32, append_bytes, be16, be32, EncodingFailure};
use crate::schematic::{GridView, Schematic};
use std::io::Write;
use vstd::prelude::*;
use vstd::string::*;

verus! {

/// The types a tag can have, in the order of their type bytes.
#[derive(Clone, Copy, Debug, PartialEq, Eq, Structural)]
pub enum TagType {
    End,
    Byte,
    Short,
    Int,
    Long,
    Float,
    Double,
    ByteArray,
    String,
    List,
    Compound,
    IntArray,
    LongArray,
}

impl TagType {
    /// The type byte: 0 for `End` up to 12 for `LongArray`.
    pub open spec fn id_spec(self) -> u8 {
        match self {
            TagType::End => 0,
            TagType::Byte => 1,
            TagType::Short => 2,
            TagType::Int => 3,
            TagType::Long => 4,
            TagType::Float => 5,
            TagType::Double => 6,
            TagType::ByteArray => 7,
            TagType::String => 8,
            TagType::List => 9,
            TagType::Compound => 10,
            TagType::IntArray => 11,
            TagType::LongArray => 12,
        }
    }

    pub fn id(self) -> (id: u8)
        ensures
            id == self.id_spec(),
    {
        match self {
            TagType::End => 0,
            TagType::Byte => 1,
            TagType::Short => 2,
            TagType::Int => 3,
            TagType::Long => 4,
            TagType::Float => 5,
            TagType::Double => 6,
            TagType::ByteArray => 7,
            TagType::String => 8,
            TagType::List => 9,
            TagType::Compound => 10,
            TagType::IntArray => 11,
            TagType::LongArray => 12,
        }
    }
}

/// A tag up to its payload: type byte, name length, name.
pub open spec fn tag_header(ty: TagType, name: Seq<u8>) -> Seq<u8> {
    seq![ty.id_spec()] + be16(name.len() as int) + name
}

/// A 16-bit signed number as the unsigned number with the same two bytes.
pub open spec fn unsigned16(value: i16) -> int {
    if value < 0 {
        value + 0x1_0000
    } else {
        value as int
    }
}

pub open spec fn short_tag(name: Seq<u8>, value: i16) -> Seq<u8> {
    tag_header(TagType::Short, name) + be16(unsigned16(value))
}

pub open spec fn byte_array_tag(name: Seq<u8>, value: Seq<u8>) -> Seq<u8> {
    tag_header(TagType::ByteArray, name) + be32(value.len() as int) + value
}

pub open spec fn string_tag(name: Seq<u8>, value: Seq<u8>) -> Seq<u8> {
    tag_header(TagType::String, name) + be16(value.len() as int) + value
}

pub open spec fn compound_start(name: Seq<u8>) -> Seq<u8> {
    tag_header(TagType::Compound, name)
}

pub open spec fn compound_end() -> Seq<u8> {
    seq![TagType::End.id_spec()]
}

/// The error of the compressor's sink. Nothing is read from it.
#[verifier::external_type_specification]
#[verifier::external_body]
pub struct ExIoError(std::io::Error);

/// The gzip stream that the compressor makes of `data` at its default level.
pub uninterp spec fn gzip_stream(data: Seq<u8>) -> Seq<u8>;

/// Runs `flate2::write::GzEncoder` at `Compression::default()` over an
/// in-memory sink: all of `data` in one `write_all`, then `finish`. The
/// stream it hands back is a function of `data` alone: the header carries no
/// time stamp, no file name and a fixed system byte. The call succeeds: the
/// encoder fails only where its sink refuses a write, which a vector never
/// does, or where the compressor is driven out of order, which one
/// `write_all` followed by one `finish` does not do.
#[verifier::external_body]
fn gzip(data: &[u8]) -> (packed: Result<Vec<u8>, std::io::Error>)
    ensures
        packed is Ok,
        packed->Ok_0@ == gzip_stream(data@),
{
    let mut encoder = flate2::write::GzEncoder::new(Vec::new(), flate2::Compression::default());
    encoder.write_all(data)?;
    encoder.finish()
}

/// What is made of the compressor's answer: its stream, or the report that it
/// failed.
pub fn compressed(answer: Result<Vec<u8>, std::io::Error>) -> (packed: Result<
    Vec<u8>,
    EncodingFailure,
>)
    ensures
        match answer {
            Ok(bytes) => packed == Ok::<Vec<u8>, EncodingFailure>(bytes),
            Err(_) => packed == Err::<Vec<u8>, EncodingFailure>(EncodingFailure::Io),
        },
{
    match answer {
        Ok(bytes) => Ok(bytes),
        Err(_) => Err(EncodingFailure::Io),
    }
}

/// Compresses a finished tag stream.
pub fn compress(stream: &[u8]) -> (packed: Result<Vec<u8>, EncodingFailure>)
    ensures
        packed is Ok,
        packed->Ok_0@ == gzip_stream(stream@),
{
    compressed(gzip(stream))
}

/// Writes tags into a stream that is compressed when the writer is finished.
pub struct NbtWriter {
    w: Vec<u8>,
}

impl View for NbtWriter {
    type V = Seq<u8>;

    /// The uncompressed stream written so far.
    closed spec fn view(&self) -> Seq<u8> {
        self.w@
    }
}

impl NbtWriter {
    /// A writer with an empty stream.
    pub fn new() -> (writer: NbtWriter)
        ensures
            writer@ == Seq::<u8>::empty(),
    {
        NbtWriter { w: Vec::new() }
    }

    fn write_tag(&mut self, value: TagType, name: &str)
        requires
            name.spec_bytes().len() <= 0xFFFF,
        ensures
            final(self)@ == old(self)@ + tag_header(value, name.spec_bytes()),
    {
        let ghost before = self.w@;
        self.w.push(value.id());
        let name_len: usize = name.len();
        append_be16(&mut self.w, name_len as u16);
        append_bytes(&mut self.w, name.as_bytes());
        assert(self.w@ =~= before + tag_header(value, name.spec_bytes()));
    }

    /// Writes a 16-bit signed number.
    pub fn write_short(&mut self, name: &str, value: i16)
        requires
            name.spec_bytes().len() <= 0xFFFF,
        ensures
            final(self)@ == old(self)@ + short_tag(name.spec_bytes(), value),
    {
        let ghost before = self.w@;
        self.write_tag(TagType::Short, name);
        let bits: u16 = if value < 0 {
            (value as i32 + 0x1_0000) as u16
        } else {
            value as u16
        };
        append_be16(&mut self.w, bits);
        assert(self.w@ =~= before + short_tag(name.spec_bytes(), value));
    }

    /// Writes a byte array with its length in front.
    pub fn write_byte_array(&mut self, name: &str, value: &[u8])
        requires
            name.spec_bytes().len() <= 0xFFFF,
            value@.len() <= 0x7FFF_FFFF,
        ensures
            final(self)@ == old(self)@ + byte_array_tag(name.spec_bytes(), value@),
    {
        let ghost before = self.w@;
        self.write_tag(TagType::ByteArray, name);
        append_be32(&mut self.w, value.len() as u32);
        append_bytes(&mut self.w, value);
        assert(self.w@ =~= before + byte_array_tag(name.spec_bytes(), value@));
    }

    /// Writes a string with its length in bytes in front.
    pub fn write_string(&mut self, name: &str, value: &str)
        requires
            name.spec_bytes().len() <= 0xFFFF,
            value.spec_bytes().len() <= 0xFFFF,
        ensures
            final(self)@ == old(self)@ + string_tag(name.spec_bytes(), value.spec_bytes()),
    {
        let ghost before = self.w@;
        self.write_tag(TagType::String, name);
        let value_len: usize = value.len();
        append_be16(&mut self.w, value_len as u16);
        append_bytes(&mut self.w, value.as_bytes());
        assert(self.w@ =~= before + string_tag(name.spec_bytes(), value.spec_bytes()));
    }

    /// Opens a compound.
    pub fn begin_compound(&mut self, name: &str)
        requires
            name.spec_bytes().len() <= 0xFFFF,
        ensures
            final(self)@ == old(self)@ + compound_start(name.spec_bytes()),
    {
        self.write_tag(TagType::Compound, name);
    }

    /// Closes the innermost compound.
    pub fn end_compound(&mut self)
        ensures
            final(self)@ == old(self)@ + compound_end(),
    {
        let ghost before = self.w@;
        self.w.push(TagType::End.id());
        assert(self.w@ =~= before + compound_end());
    }

    /// The uncompressed stream written so far.
    pub fn stream(&self) -> (bytes: &[u8])
        ensures
            bytes@ == self@,
    {
        self.w.as_slice()
    }

    /// Compresses the stream and hands it out.
    pub fn finish(self) -> (packed: Result<Vec<u8>, EncodingFailure>)
        ensures
            packed is Ok,
            packed->Ok_0@ == gzip_stream(self@),
    {
        compress(self.w.as_slice())
    }
}

/// The material id of every cell, in buffer order.
pub open spec fn material_ids(cells: Seq<Block>) -> Seq<u8> {
    Seq::new(cells.len(), |i: int| cells[i].material_spec().id_spec() as u8)
}

/// The auxiliary byte of every cell, in buffer order.
pub open spec fn aux_data(cells: Seq<Block>) -> Seq<u8> {
    Seq::new(cells.len(), |i: int| cells[i].data_spec())
}

/// The tag stream of a block grid: one compound named `Schematic` that holds
/// the three sizes, the name of the material table, and one byte array each
/// for the material ids and the auxiliary bytes.
pub open spec fn schematic_tags(g: GridView<Block>) -> Seq<u8> {
    compound_start("Schematic".spec_bytes()) + short_tag("Width".spec_bytes(), g.x_size as i16)
        + short_tag("Height".spec_bytes(), g.y_size as i16) + short_tag(
        "Length".spec_bytes(),
        g.z_size as i16,
    ) + string_tag("Materials".spec_bytes(), "Alpha".spec_bytes()) + byte_array_tag(
        "Blocks".spec_bytes(),
        material_ids(g.cells),
    ) + byte_array_tag("Data".spec_bytes(), aux_data(g.cells)) + compound_end()
}

/// A string of plain ASCII takes one byte for each character.
proof fn lemma_ascii_bytes(s: &str)
    requires
        is_ascii(s),
    ensures
        s.spec_bytes().len() == s@.len(),
{
    vstd::utf8::is_ascii_chars_encode_utf8(s@);
}

/// The tag names and the table name are short.
proof fn lemma_names_fit()
    ensures
        "Schematic".spec_bytes().len() <= 0xFFFF,
        "Width".spec_bytes().len() <= 0xFFFF,
        "Height".spec_bytes().len() <= 0xFFFF,
        "Length".spec_bytes().len() <= 0xFFFF,
        "Materials".spec_bytes().len() <= 0xFFFF,
        "Alpha".spec_bytes().len() <= 0xFFFF,
        "Blocks".spec_bytes().len() <= 0xFFFF,
        "Data".spec_bytes().len() <= 0xFFFF,
{
    reveal_strlit("Schematic");
    reveal_strlit("Width");
    reveal_strlit("Height");
    reveal_strlit("Length");
    reveal_strlit("Materials");
    reveal_strlit("Alpha");
    reveal_strlit("Blocks");
    reveal_strlit("Data");
    lemma_ascii_bytes("Schematic");
    lemma_ascii_bytes("Width");
    lemma_ascii_bytes("Height");
    lemma_ascii_bytes("Length");
    lemma_ascii_bytes("Materials");
    lemma_ascii_bytes("Alpha");
    lemma_ascii_bytes("Blocks");
    lemma_ascii_bytes("Data");
}

impl Schematic<Block> {
    /// The uncompressed tag stream of this grid.
    pub fn tag_stream(&self) -> (stream: Vec<u8>)
        ensures
            stream@ == schematic_tags(self@),
    {
        let cells = self.cells();
        let (x_size, y_size, z_size) = self.sizes();
        let mut ids: Vec<u8> = Vec::with_capacity(cells.len());
        let mut data: Vec<u8> = Vec::with_capacity(cells.len());
        let mut i: usize = 0;
        while i < cells.len()
            invariant
                i <= cells@.len(),
                ids@ == material_ids(cells@.take(i as int)),
                data@ == aux_data(cells@.take(i as int)),
            decreases cells@.len() - i,
        {
            let block = cells[i];
            ids.push(block.material().id());
            data.push(block.data());
            i += 1;
            assert(ids@ =~= material_ids(cells@.take(i as int)));
            assert(data@ =~= aux_data(cells@.take(i as int)));
        }
        proof {
            assert(cells@.take(cells@.len() as int) =~= cells@);
            lemma_names_fit();
            assert(cells@.len() <= 255 * 255 * 255) by (nonlinear_arith)
                requires
                    cells@.len() == self@.x_size * self@.y_size * self@.z_size,
                    0 <= self@.x_size <= 255,
                    0 <= self@.y_size <= 255,
                    0 <= self@.z_size <= 255,
            ;
        }
        let mut writer = NbtWriter::new();
        writer.begin_compound("Schematic");
        writer.write_short("Width", x_size as i16);
        writer.write_short("Height", y_size as i16);
        writer.write_short("Length", z_size as i16);
        writer.write_string("Materials", "Alpha");
        writer.write_byte_array("Blocks", ids.as_slice());
        writer.write_byte_array("Data", data.as_slice());
        writer.end_compound();
        assert(writer@ =~= schematic_tags(self@));
        writer.w
    }

    /// The block format file of this grid: its tag stream, compressed.
    pub fn serialize(&self) -> (file: Result<Vec<u8>, EncodingFailure>)
        ensures
            file is Ok,
            file->Ok_0@ == gzip_stream(schematic_tags(self@)),
    {
        let stream = self.tag_stream();
        compress(stream.as_slice())
    }
}

/// Equal grids have equal tag streams and equal files.
pub proof fn lemma_tag_stream_deterministic(a: GridView<Block>, b: GridView<Block>)
    requires
        a.x_size == b.x_size,
        a.y_size == b.y_size,
        a.z_size == b.z_size,
        a.cells =~= b.cells,
    ensures
        schematic_tags(a) == schematic_tags(b),
        gzip_stream(schematic_tags(a)) == gzip_stream(schematic_tags(b)),
{
}

} // verus!
