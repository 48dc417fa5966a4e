//! What a build script may do, and what is made of its outcome.
//!
//! A script creates one grid, writes cells and boxes of cells into it, asks
//! for its sizes, and returns it. Cell contents arrive as text. Every misuse
//! is a fault with a message for the script's author; a script that ends
//! without returning a grid is a fault as well.

use crate::block::{Block, Material, MaterialMap};
use crate::color::{
    first_invalid_hex, first_invalid_octal, hex_color, is_hex_color, is_octal_color, octal_color,
    Color, PackedColor,
};
use crate::schematic::{region_of, OutOfBounds, Schematic};
use crate::voxel::Voxel;
use vstd::prelude::*;
use vstd::string::*;

verus! {

/// The largest size on any axis that a script may ask for where grids become
/// meshes. Where a deployment sets no ceiling of its own, the ceiling is 255,
/// the largest size there is. The smallest size is 1 everywhere.
pub const MAX_AXIS_SIZE: u8 = 128;

/// The kinds of value a script can end with.
#[derive(Clone, Copy, Debug, PartialEq, Eq, Structural)]
pub enum ValueKind {
    Nil,
    Boolean,
    Number,
    Text,
    Table,
    Function,
    Schematic,
    Other,
}

/// What a script ended with: a grid, or something of another kind.
pub enum ScriptValue<C: Voxel> {
    Grid(Schematic<C>),
    Nil,
    Boolean,
    Number,
    Text,
    Table,
    Function,
    Other,
}

/// A fault raised to the script, or about it.
#[derive(Debug, PartialEq)]
pub enum SandboxFault {
    /// A grid was asked for with an axis longer than the ceiling.
    SizeLimitExceeded { x_size: u8, y_size: u8, z_size: u8 },
    /// A grid was asked for with an axis of size 0.
    EmptyAxis { x_size: u8, y_size: u8, z_size: u8 },
    /// A color that does not parse. Holds the text and, where one character
    /// is to blame, its position counted from zero.
    InvalidValueEncoding { input: String, position: Option<usize> },
    /// A name that no material bears.
    UnknownMaterial { input: String },
    /// A write to a position outside the grid.
    OutOfBounds { x: u8, y: u8, z: u8, cause: OutOfBounds },
    /// A fill whose walk left the grid.
    FillOutOfBounds { x1: u8, y1: u8, z1: u8, x2: u8, y2: u8, z2: u8, cause: OutOfBounds },
    /// The script ended with something that is no grid.
    NotASchematic { returned: ValueKind },
}

impl SandboxFault {
    /// Whether this fault says that the color `text` does not parse, and
    /// blames the character at `at` if any.
    pub open spec fn rejects_text(self, text: Seq<char>, at: Option<int>) -> bool {
        self matches SandboxFault::InvalidValueEncoding { input, position } && input@ == text && (
        match position {
            Some(p) => at == Some(p as int),
            None => at is None,
        })
    }

    /// Whether this fault says that no material is named `text`.
    pub open spec fn rejects_material(self, text: Seq<char>) -> bool {
        self matches SandboxFault::UnknownMaterial { input } && input@ == text
    }
}

/// A cell content that scripts write as text.
pub trait Encoded: Voxel {
    /// The content that `text` denotes, if it denotes one.
    spec fn decode(text: Seq<char>) -> Option<Self>;

    /// Where `text` first goes wrong, counted in characters from zero; `None`
    /// where no single character is to blame.
    spec fn offending(text: Seq<char>) -> Option<int>;

    fn parse(text: &str) -> (value: Result<Self, Option<usize>>)
        ensures
            match value {
                Ok(content) => Self::decode(text@) == Some(content),
                Err(Some(at)) => Self::decode(text@) is None && Self::offending(text@) == Some(
                    at as int,
                ),
                Err(None) => Self::decode(text@) is None && Self::offending(text@) is None,
            },
    ;
}

impl Encoded for Color {
    open spec fn decode(text: Seq<char>) -> Option<Self> {
        if is_hex_color(text) {
            Some(hex_color(text))
        } else {
            None
        }
    }

    open spec fn offending(text: Seq<char>) -> Option<int> {
        first_invalid_hex(text)
    }

    fn parse(text: &str) -> (value: Result<Self, Option<usize>>) {
        match Color::try_from_hex_string(text) {
            Ok(color) => Ok(color),
            Err(refused) => Err(refused.position()),
        }
    }
}

impl Encoded for PackedColor {
    open spec fn decode(text: Seq<char>) -> Option<Self> {
        if is_octal_color(text) {
            Some(octal_color(text))
        } else {
            None
        }
    }

    open spec fn offending(text: Seq<char>) -> Option<int> {
        match first_invalid_octal(text) {
            Some(digit) => Some(digit as int),
            None => None,
        }
    }

    fn parse(text: &str) -> (value: Result<Self, Option<usize>>) {
        match PackedColor::try_from_octal(text) {
            Ok(color) => Ok(color),
            Err(refused) => Err(
                match refused.digit {
                    Some(digit) => Some(digit as usize),
                    None => None,
                },
            ),
        }
    }
}

/// Whether every size lies between 1 and `ceiling`.
pub open spec fn within_limit(ceiling: u8, x_size: u8, y_size: u8, z_size: u8) -> bool {
    1 <= x_size <= ceiling && 1 <= y_size <= ceiling && 1 <= z_size <= ceiling
}

/// Whether some size lies above `ceiling`.
pub open spec fn above_limit(ceiling: u8, x_size: u8, y_size: u8, z_size: u8) -> bool {
    x_size > ceiling || y_size > ceiling || z_size > ceiling
}

/// What a request for a grid of these sizes is refused with, if it is
/// refused: an axis above the ceiling is named first, an axis of size 0 second.
pub open spec fn size_fault(ceiling: u8, x_size: u8, y_size: u8, z_size: u8) -> Option<
    SandboxFault,
> {
    if above_limit(ceiling, x_size, y_size, z_size) {
        Some(SandboxFault::SizeLimitExceeded { x_size, y_size, z_size })
    } else if x_size == 0 || y_size == 0 || z_size == 0 {
        Some(SandboxFault::EmptyAxis { x_size, y_size, z_size })
    } else {
        None
    }
}

/// A request is refused exactly when a size lies outside 1 to `ceiling`.
pub proof fn lemma_size_fault_iff_outside(ceiling: u8, x_size: u8, y_size: u8, z_size: u8)
    ensures
        size_fault(ceiling, x_size, y_size, z_size) is None <==> within_limit(
            ceiling,
            x_size,
            y_size,
            z_size,
        ),
{
}

/// Creates the grid a script asks for, all vacant, if every size lies between
/// 1 and `ceiling`.
pub fn new_schematic<C: Voxel>(ceiling: u8, x_size: u8, y_size: u8, z_size: u8) -> (made: Result<
    Schematic<C>,
    SandboxFault,
>)
    ensures
        within_limit(ceiling, x_size, y_size, z_size) <==> made is Ok,
        made is Ok ==> made->Ok_0@.wf() && made->Ok_0@.x_size == x_size && made->Ok_0@.y_size
            == y_size && made->Ok_0@.z_size == z_size && made->Ok_0@.uniform(C::empty_value()),
        made is Err ==> Some(made->Err_0) == size_fault(ceiling, x_size, y_size, z_size),
{
    if x_size > ceiling || y_size > ceiling || z_size > ceiling {
        return Err(SandboxFault::SizeLimitExceeded { x_size, y_size, z_size });
    }
    if x_size == 0 || y_size == 0 || z_size == 0 {
        return Err(SandboxFault::EmptyAxis { x_size, y_size, z_size });
    }
    Ok(Schematic::new(x_size, y_size, z_size))
}

/// Writes one cell on behalf of a script. A rejected position is a fault and
/// leaves the grid as it was.
pub fn write_cell<C: Voxel>(schem: &mut Schematic<C>, x: u8, y: u8, z: u8, content: C) -> (done:
    Result<(), SandboxFault>)
    ensures
        match old(schem)@.rejection(x, y, z) {
            None => done is Ok && final(schem)@ == old(schem)@.with_cell(
                x as int,
                y as int,
                z as int,
                content,
            ),
            Some(cause) => final(schem)@ == old(schem)@ && done == Err::<(), SandboxFault>(
                SandboxFault::OutOfBounds { x, y, z, cause },
            ),
        },
{
    match schem.set(x, y, z, content) {
        Ok(()) => Ok(()),
        Err(cause) => Err(SandboxFault::OutOfBounds { x, y, z, cause }),
    }
}

/// Fills a box on behalf of a script. The walk over the box stops where it
/// leaves the grid, which is a fault; what it wrote until then stays written.
pub fn write_box<C: Voxel>(
    schem: &mut Schematic<C>,
    x1: u8,
    y1: u8,
    z1: u8,
    x2: u8,
    y2: u8,
    z2: u8,
    content: C,
) -> (done: Result<(), SandboxFault>)
    ensures
        old(schem)@.filled_as(region_of(x1, y1, z1, x2, y2, z2), content, final(schem)@),
        match old(schem)@.first_outside(region_of(x1, y1, z1, x2, y2, z2)) {
            None => done is Ok,
            Some((fx, fy, fz)) => old(schem)@.rejection(fx as u8, fy as u8, fz as u8) is Some
                && done == Err::<(), SandboxFault>(
                SandboxFault::FillOutOfBounds {
                    x1,
                    y1,
                    z1,
                    x2,
                    y2,
                    z2,
                    cause: old(schem)@.rejection(fx as u8, fy as u8, fz as u8)->0,
                },
            ),
        },
{
    match schem.fill(x1, y1, z1, x2, y2, z2, content) {
        Ok(()) => Ok(()),
        Err(cause) => Err(SandboxFault::FillOutOfBounds { x1, y1, z1, x2, y2, z2, cause }),
    }
}

/// Writes one cell whose content is given as text. The text is judged first,
/// the position second; a fault leaves the grid as it was.
pub fn set_cell<C: Encoded>(schem: &mut Schematic<C>, x: u8, y: u8, z: u8, value: &str) -> (done:
    Result<(), SandboxFault>)
    ensures
        match C::decode(value@) {
            None => final(schem)@ == old(schem)@ && done is Err && done->Err_0.rejects_text(
                value@,
                C::offending(value@),
            ),
            Some(content) => match old(schem)@.rejection(x, y, z) {
                None => done is Ok && final(schem)@ == old(schem)@.with_cell(
                    x as int,
                    y as int,
                    z as int,
                    content,
                ),
                Some(cause) => final(schem)@ == old(schem)@ && done == Err::<(), SandboxFault>(
                    SandboxFault::OutOfBounds { x, y, z, cause },
                ),
            },
        },
{
    match C::parse(value) {
        Ok(content) => write_cell(schem, x, y, z, content),
        Err(position) => Err(
            SandboxFault::InvalidValueEncoding { input: value.to_owned(), position },
        ),
    }
}

/// Fills a box with a content given as text. The text is judged first; then
/// the box is filled as `write_box` fills it.
pub fn fill_box<C: Encoded>(
    schem: &mut Schematic<C>,
    x1: u8,
    y1: u8,
    z1: u8,
    x2: u8,
    y2: u8,
    z2: u8,
    value: &str,
) -> (done: Result<(), SandboxFault>)
    ensures
        match C::decode(value@) {
            None => final(schem)@ == old(schem)@ && done is Err && done->Err_0.rejects_text(
                value@,
                C::offending(value@),
            ),
            Some(content) => old(schem)@.filled_as(
                region_of(x1, y1, z1, x2, y2, z2),
                content,
                final(schem)@,
            ) && match old(schem)@.first_outside(region_of(x1, y1, z1, x2, y2, z2)) {
                None => done is Ok,
                Some((fx, fy, fz)) => old(schem)@.rejection(fx as u8, fy as u8, fz as u8)
                    is Some && done == Err::<(), SandboxFault>(
                    SandboxFault::FillOutOfBounds {
                        x1,
                        y1,
                        z1,
                        x2,
                        y2,
                        z2,
                        cause: old(schem)@.rejection(fx as u8, fy as u8, fz as u8)->0,
                    },
                ),
            },
        },
{
    match C::parse(value) {
        Ok(content) => write_box(schem, x1, y1, z1, x2, y2, z2, content),
        Err(position) => Err(
            SandboxFault::InvalidValueEncoding { input: value.to_owned(), position },
        ),
    }
}

/// The auxiliary byte of a block that a script names: 0 unless given.
pub open spec fn data_or_default(data: Option<u8>) -> u8 {
    match data {
        Some(d) => d,
        None => 0,
    }
}

/// Looks up the block that a script names: a material by its exact name, and
/// an auxiliary byte that defaults to 0.
pub fn parse_block(map: &MaterialMap, material: &str, data: Option<u8>) -> (block: Result<
    Block,
    SandboxFault,
>)
    ensures
        match block {
            Ok(b) => b.material_spec().name_spec() == material@ && (forall|o: Material|
                o.name_spec() == material@ ==> b.material_spec().ordinal_spec()
                    <= #[trigger] o.ordinal_spec()) && b.data_spec() == data_or_default(data),
            Err(fault) => (forall|o: Material| #[trigger] o.name_spec() != material@)
                && fault.rejects_material(material@),
        },
{
    match Material::try_from(map, material) {
        Ok(found) => Ok(
            match data {
                Some(d) => Block::new_with_data(found, d),
                None => Block::new(found),
            },
        ),
        Err(unknown) => Err(SandboxFault::UnknownMaterial { input: unknown.0 }),
    }
}

/// The kind of a script value.
pub open spec fn kind_of<C: Voxel>(value: ScriptValue<C>) -> ValueKind {
    match value {
        ScriptValue::Grid(_) => ValueKind::Schematic,
        ScriptValue::Nil => ValueKind::Nil,
        ScriptValue::Boolean => ValueKind::Boolean,
        ScriptValue::Number => ValueKind::Number,
        ScriptValue::Text => ValueKind::Text,
        ScriptValue::Table => ValueKind::Table,
        ScriptValue::Function => ValueKind::Function,
        ScriptValue::Other => ValueKind::Other,
    }
}

/// What is made of the value a script ended with: a grid is the build, and
/// anything else is a fault that names what came instead.
pub open spec fn accepted<C: Voxel>(value: ScriptValue<C>) -> Result<Schematic<C>, SandboxFault> {
    match value {
        ScriptValue::Grid(grid) => Ok(grid),
        other => Err(SandboxFault::NotASchematic { returned: kind_of(other) }),
    }
}

/// Judges what a script ended with.
pub fn accept<C: Voxel>(value: ScriptValue<C>) -> (outcome: Result<Schematic<C>, SandboxFault>)
    ensures
        outcome == accepted(value),
{
    match value {
        ScriptValue::Grid(grid) => Ok(grid),
        ScriptValue::Nil => Err(SandboxFault::NotASchematic { returned: ValueKind::Nil }),
        ScriptValue::Boolean => Err(SandboxFault::NotASchematic { returned: ValueKind::Boolean }),
        ScriptValue::Number => Err(SandboxFault::NotASchematic { returned: ValueKind::Number }),
        ScriptValue::Text => Err(SandboxFault::NotASchematic { returned: ValueKind::Text }),
        ScriptValue::Table => Err(SandboxFault::NotASchematic { returned: ValueKind::Table }),
        ScriptValue::Function => Err(
            SandboxFault::NotASchematic { returned: ValueKind::Function },
        ),
        ScriptValue::Other => Err(SandboxFault::NotASchematic { returned: ValueKind::Other }),
    }
}

/// Only a grid makes a build: a script that ends with nothing, or with a
/// value of any other kind, is refused and never taken for an empty build.
pub proof fn lemma_only_a_grid_is_accepted<C: Voxel>(value: ScriptValue<C>)
    ensures
        accepted(value) is Ok <==> value is Grid,
        value is Grid ==> accepted(value) == Ok::<Schematic<C>, SandboxFault>(value->Grid_0),
        !(value is Grid) ==> accepted(value) is Err && accepted(value)->Err_0 is NotASchematic,
{
}

/// The character of a decimal digit.
pub open spec fn digit_char(d: int) -> char {
    (d + 48) as char
}

/// A number in decimal, without leading zeros.
pub open spec fn decimal(n: int) -> Seq<char>
    decreases n,
{
    if n < 10 {
        seq![digit_char(n)]
    } else {
        decimal(n / 10) + seq![digit_char(n % 10)]
    }
}

/// How a message names a kind of value.
pub open spec fn kind_name(kind: ValueKind) -> Seq<char> {
    match kind {
        ValueKind::Nil => "nil"@,
        ValueKind::Boolean => "a boolean"@,
        ValueKind::Number => "a number"@,
        ValueKind::Text => "a string"@,
        ValueKind::Table => "a table"@,
        ValueKind::Function => "a function"@,
        ValueKind::Schematic => "a schematic"@,
        ValueKind::Other => "a foreign value"@,
    }
}

impl SandboxFault {
    /// What the script's author is told.
    pub open spec fn message_spec(self) -> Seq<char> {
        match self {
            SandboxFault::SizeLimitExceeded { x_size, y_size, z_size } => "schematic size "@
                + decimal(x_size as int) + "x"@ + decimal(y_size as int) + "x"@ + decimal(
                z_size as int,
            ) + " too big"@,
            SandboxFault::EmptyAxis { x_size, y_size, z_size } => "schematic size "@ + decimal(
                x_size as int,
            ) + "x"@ + decimal(y_size as int) + "x"@ + decimal(z_size as int) + " too small"@,
            SandboxFault::InvalidValueEncoding { input, position } => "color \""@ + input@
                + "\" is invalid"@,
            SandboxFault::UnknownMaterial { input } => "Material "@ + input@ + " not found"@,
            SandboxFault::OutOfBounds { x, y, z, cause } => decimal(x as int) + ", "@ + decimal(
                y as int,
            ) + ", "@ + decimal(z as int) + " is out of bounds"@,
            SandboxFault::FillOutOfBounds { x1, y1, z1, x2, y2, z2, cause } => "fill from "@
                + decimal(x1 as int) + ", "@ + decimal(y1 as int) + ", "@ + decimal(z1 as int)
                + " to "@ + decimal(x2 as int) + ", "@ + decimal(y2 as int) + ", "@ + decimal(
                z2 as int,
            ) + " overlaps an out-of-bounds area"@,
            SandboxFault::NotASchematic { returned } => "script returned "@ + kind_name(returned)
                + ", not a schematic"@,
        }
    }

    /// What the script's author is told.
    pub fn message(&self) -> (text: String)
        ensures
            text@ == self.message_spec(),
    {
        match self {
            SandboxFault::SizeLimitExceeded { x_size, y_size, z_size } => {
                let mut text = String::from_str("schematic size ");
                append_decimal(&mut text, *x_size);
                text.append("x");
                append_decimal(&mut text, *y_size);
                text.append("x");
                append_decimal(&mut text, *z_size);
                text.append(" too big");
                text
            },
            SandboxFault::EmptyAxis { x_size, y_size, z_size } => {
                let mut text = String::from_str("schematic size ");
                append_decimal(&mut text, *x_size);
                text.append("x");
                append_decimal(&mut text, *y_size);
                text.append("x");
                append_decimal(&mut text, *z_size);
                text.append(" too small");
                text
            },
            SandboxFault::InvalidValueEncoding { input, position } => {
                let mut text = String::from_str("color \"");
                text.append(input.as_str());
                text.append("\" is invalid");
                text
            },
            SandboxFault::UnknownMaterial { input } => {
                let mut text = String::from_str("Material ");
                text.append(input.as_str());
                text.append(" not found");
                text
            },
            SandboxFault::OutOfBounds { x, y, z, cause } => {
                let mut text = String::new();
                append_decimal(&mut text, *x);
                assert(text@ =~= decimal(*x as int));
                text.append(", ");
                append_decimal(&mut text, *y);
                text.append(", ");
                append_decimal(&mut text, *z);
                text.append(" is out of bounds");
                text
            },
            SandboxFault::FillOutOfBounds { x1, y1, z1, x2, y2, z2, cause } => {
                let mut text = String::from_str("fill from ");
                append_decimal(&mut text, *x1);
                text.append(", ");
                append_decimal(&mut text, *y1);
                text.append(", ");
                append_decimal(&mut text, *z1);
                text.append(" to ");
                append_decimal(&mut text, *x2);
                text.append(", ");
                append_decimal(&mut text, *y2);
                text.append(", ");
                append_decimal(&mut text, *z2);
                text.append(" overlaps an out-of-bounds area");
                text
            },
            SandboxFault::NotASchematic { returned } => {
                let mut text = String::from_str("script returned ");
                text.append(
                    match returned {
                        ValueKind::Nil => "nil",
                        ValueKind::Boolean => "a boolean",
                        ValueKind::Number => "a number",
                        ValueKind::Text => "a string",
                        ValueKind::Table => "a table",
                        ValueKind::Function => "a function",
                        ValueKind::Schematic => "a schematic",
                        ValueKind::Other => "a foreign value",
                    },
                );
                text.append(", not a schematic");
                text
            },
        }
    }
}

/// The text of one decimal digit.
fn digit_text(d: u8) -> (text: &'static str)
    requires
        d < 10,
    ensures
        text@ == seq![digit_char(d as int)],
{
    proof {
        reveal_strlit("0");
        reveal_strlit("1");
        reveal_strlit("2");
        reveal_strlit("3");
        reveal_strlit("4");
        reveal_strlit("5");
        reveal_strlit("6");
        reveal_strlit("7");
        reveal_strlit("8");
        reveal_strlit("9");
    }
    let text = match d {
        0 => "0",
        1 => "1",
        2 => "2",
        3 => "3",
        4 => "4",
        5 => "5",
        6 => "6",
        7 => "7",
        8 => "8",
        _ => "9",
    };
    assert(text@ =~= seq![digit_char(d as int)]);
    text
}

/// Appends a number in decimal.
fn append_decimal(text: &mut String, n: u8)
    ensures
        final(text)@ == old(text)@ + decimal(n as int),
{
    let ghost before = text@;
    if n >= 100 {
        text.append(digit_text(n / 100));
    }
    if n >= 10 {
        text.append(digit_text((n / 10) % 10));
    }
    text.append(digit_text(n % 10));
    proof {
        reveal_with_fuel(decimal, 3);
        assert(text@ =~= before + decimal(n as int));
    }
}

/// The opening of a fenced block of script code.
pub open spec fn fence_open() -> Seq<char> {
    seq!['`', '`', '`', 'l', 'u', 'a']
}

/// Whether `message` opens with a code fence.
pub open spec fn is_fenced(message: Seq<char>) -> bool {
    message.len() >= 6 && message.subrange(0, 6) == fence_open()
}

/// The script within `message`. A message that opens with a code fence loses
/// the six characters of the opening and the three of the closing; if fewer
/// than three characters follow the opening, nothing is left. Any other
/// message is the script as it stands.
pub open spec fn unfenced(message: Seq<char>) -> Seq<char> {
    if is_fenced(message) {
        if message.len() >= 9 {
            message.subrange(6, message.len() - 3)
        } else {
            Seq::empty()
        }
    } else {
        message
    }
}

/// Takes the script out of the reply of the code generator.
pub fn strip_code_fence(message: &str) -> (script: String)
    ensures
        script@ == unfenced(message@),
{
    let len = message.unicode_len();
    let fenced = len >= 6 && message.get_char(0) == '`' && message.get_char(1) == '`'
        && message.get_char(2) == '`' && message.get_char(3) == 'l' && message.get_char(4) == 'u'
        && message.get_char(5) == 'a';
    proof {
        if len >= 6 {
            let head = message@.subrange(0, 6);
            assert(head[0] == message@[0] && head[1] == message@[1] && head[2] == message@[2]
                && head[3] == message@[3] && head[4] == message@[4] && head[5] == message@[5]);
            if fenced {
                assert(head =~= fence_open());
            } else {
                assert(fence_open()[0] == '`' && fence_open()[1] == '`' && fence_open()[2] == '`'
                    && fence_open()[3] == 'l' && fence_open()[4] == 'u' && fence_open()[5]
                    == 'a');
            }
        }
    }
    if fenced {
        if len >= 9 {
            message.substring_char(6, len - 3).to_owned()
        } else {
            String::new()
        }
    } else {
        message.to_owned()
    }
}

} // verus!
