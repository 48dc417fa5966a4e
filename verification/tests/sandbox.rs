use voxel_build::block::{Block, Material};
use voxel_build::color::{Color, PackedColor};
use voxel_build::sandbox::{
    accept, fill_box, new_schematic, parse_block, set_cell, strip_code_fence, write_box,
    write_cell, SandboxFault, ScriptValue, ValueKind, MAX_AXIS_SIZE,
};
use voxel_build::schematic::{Axis, OutOfBounds, Schematic};

#[test]
fn constructor_enforces_the_ceiling() {
    assert_eq!(MAX_AXIS_SIZE, 128);
    let ok: Schematic<Color> = new_schematic(MAX_AXIS_SIZE, 128, 128, 128).unwrap();
    assert_eq!(ok.sizes(), (128, 128, 128));
    assert!(ok.cells().iter().all(|c| *c == Color(0, 0, 0)));
    let small: Schematic<Color> = new_schematic(MAX_AXIS_SIZE, 1, 1, 2).unwrap();
    assert_eq!(small.sizes(), (1, 1, 2));
    for (x, y, z) in [(129, 1, 1), (1, 129, 1), (1, 1, 129), (255, 255, 255)] {
        let refused = new_schematic::<Color>(MAX_AXIS_SIZE, x, y, z);
        let fault = SandboxFault::SizeLimitExceeded { x_size: x, y_size: y, z_size: z };
        assert_eq!(refused.err(), Some(fault));
    }
    let wide: Schematic<Block> = new_schematic(255, 255, 1, 200).unwrap();
    assert_eq!(wide.sizes(), (255, 1, 200));
    assert!(new_schematic::<Block>(10, 11, 1, 1).is_err());
}

#[test]
fn constructor_refuses_an_empty_axis() {
    for (x, y, z) in [(0, 1, 1), (1, 0, 1), (1, 1, 0), (0, 0, 0), (128, 0, 128)] {
        let refused = new_schematic::<Color>(MAX_AXIS_SIZE, x, y, z);
        let fault = SandboxFault::EmptyAxis { x_size: x, y_size: y, z_size: z };
        assert_eq!(refused.err(), Some(fault));
        assert!(new_schematic::<Block>(255, x, y, z).is_err());
    }
    // An axis above the ceiling is named first.
    assert_eq!(
        new_schematic::<Color>(MAX_AXIS_SIZE, 0, 129, 1).err(),
        Some(SandboxFault::SizeLimitExceeded { x_size: 0, y_size: 129, z_size: 1 })
    );
    // Every size from 1 to the ceiling is served.
    for n in 1..=MAX_AXIS_SIZE {
        assert!(new_schematic::<Color>(MAX_AXIS_SIZE, n, 1, 1).is_ok());
        assert!(new_schematic::<Color>(MAX_AXIS_SIZE, 1, n, 1).is_ok());
        assert!(new_schematic::<Color>(MAX_AXIS_SIZE, 1, 1, n).is_ok());
    }
    assert!(new_schematic::<Color>(0, 0, 0, 0).is_err());
    assert!(new_schematic::<Color>(0, 1, 1, 1).is_err());
}

#[test]
fn set_parses_then_writes() {
    let mut schem: Schematic<Color> = new_schematic(MAX_AXIS_SIZE, 4, 4, 4).unwrap();
    assert_eq!(set_cell(&mut schem, 1, 2, 3, "123ABC"), Ok(()));
    assert_eq!(schem.get(1, 2, 3), Ok(Color(0x12, 0x3A, 0xBC)));
    assert_eq!(
        set_cell(&mut schem, 1, 2, 3, "12345"),
        Err(SandboxFault::InvalidValueEncoding { input: "12345".to_owned(), position: None })
    );
    assert_eq!(schem.get(1, 2, 3), Ok(Color(0x12, 0x3A, 0xBC)));
    // A bad color is reported even where the position is bad too.
    assert_eq!(
        set_cell(&mut schem, 9, 9, 9, "zzzzzz"),
        Err(SandboxFault::InvalidValueEncoding { input: "zzzzzz".to_owned(), position: Some(0) })
    );
    assert_eq!(
        set_cell(&mut schem, 1, 4, 9, "ffffff"),
        Err(SandboxFault::OutOfBounds {
            x: 1,
            y: 4,
            z: 9,
            cause: OutOfBounds { axis: Axis::Y, value: 4 },
        })
    );
}

#[test]
fn set_takes_packed_colors_in_octal() {
    let mut schem: Schematic<PackedColor> = new_schematic(MAX_AXIS_SIZE, 2, 2, 2).unwrap();
    assert_eq!(set_cell(&mut schem, 0, 0, 0, "773"), Ok(()));
    assert_eq!(schem.get(0, 0, 0), Ok(PackedColor(255)));
    assert_eq!(
        set_cell(&mut schem, 0, 0, 0, "774"),
        Err(SandboxFault::InvalidValueEncoding { input: "774".to_owned(), position: Some(2) })
    );
}

#[test]
fn fill_parses_then_walks() {
    let mut schem: Schematic<Color> = new_schematic(MAX_AXIS_SIZE, 3, 3, 3).unwrap();
    assert_eq!(fill_box(&mut schem, 0, 0, 0, 1, 1, 1, "0000ff"), Ok(()));
    assert_eq!(schem.cells().iter().filter(|c| **c == Color(0, 0, 255)).count(), 8);
    assert_eq!(
        fill_box(&mut schem, 0, 0, 0, 2, 2, 2, "0000fg"),
        Err(SandboxFault::InvalidValueEncoding { input: "0000fg".to_owned(), position: Some(5) })
    );
    assert_eq!(
        fill_box(&mut schem, 2, 2, 2, 3, 3, 3, "ff0000"),
        Err(SandboxFault::FillOutOfBounds {
            x1: 2,
            y1: 2,
            z1: 2,
            x2: 3,
            y2: 3,
            z2: 3,
            cause: OutOfBounds { axis: Axis::Z, value: 3 },
        })
    );
    // The one cell the walk reached before it left the grid is written.
    assert_eq!(schem.get(2, 2, 2), Ok(Color(255, 0, 0)));
}

#[test]
fn blocks_are_named_by_material() {
    let map = Material::init_string_map();
    assert_eq!(parse_block(&map, "wool", Some(14)), Ok(Block::new_with_data(Material::wool, 14)));
    assert_eq!(parse_block(&map, "stone", None), Ok(Block::new(Material::stone)));
    assert_eq!(
        parse_block(&map, "Wool", None),
        Err(SandboxFault::UnknownMaterial { input: "Wool".to_owned() })
    );
}

#[test]
fn only_a_grid_is_a_build() {
    let mut schem: Schematic<Color> = new_schematic(MAX_AXIS_SIZE, 2, 2, 2).unwrap();
    set_cell(&mut schem, 1, 1, 1, "010203").unwrap();
    let built = accept(ScriptValue::Grid(schem)).unwrap();
    assert_eq!(built.get(1, 1, 1), Ok(Color(1, 2, 3)));
    let others: [(ScriptValue<Color>, ValueKind); 7] = [
        (ScriptValue::Nil, ValueKind::Nil),
        (ScriptValue::Boolean, ValueKind::Boolean),
        (ScriptValue::Number, ValueKind::Number),
        (ScriptValue::Text, ValueKind::Text),
        (ScriptValue::Table, ValueKind::Table),
        (ScriptValue::Function, ValueKind::Function),
        (ScriptValue::Other, ValueKind::Other),
    ];
    for (value, kind) in others {
        assert_eq!(accept(value).err(), Some(SandboxFault::NotASchematic { returned: kind }));
    }
}

#[test]
fn fault_messages() {
    assert_eq!(
        SandboxFault::SizeLimitExceeded { x_size: 129, y_size: 7, z_size: 0 }.message(),
        "schematic size 129x7x0 too big"
    );
    assert_eq!(
        SandboxFault::EmptyAxis { x_size: 0, y_size: 12, z_size: 128 }.message(),
        "schematic size 0x12x128 too small"
    );
    assert_eq!(
        SandboxFault::InvalidValueEncoding { input: "12 45".to_owned(), position: Some(2) }
            .message(),
        "color \"12 45\" is invalid"
    );
    assert_eq!(
        SandboxFault::UnknownMaterial { input: "Wool".to_owned() }.message(),
        "Material Wool not found"
    );
    let cause = OutOfBounds { axis: Axis::X, value: 10 };
    assert_eq!(
        SandboxFault::OutOfBounds { x: 10, y: 0, z: 255, cause }.message(),
        "10, 0, 255 is out of bounds"
    );
    assert_eq!(
        SandboxFault::FillOutOfBounds { x1: 1, y1: 20, z1: 100, x2: 9, y2: 99, z2: 200, cause }
            .message(),
        "fill from 1, 20, 100 to 9, 99, 200 overlaps an out-of-bounds area"
    );
    assert_eq!(
        SandboxFault::NotASchematic { returned: ValueKind::Nil }.message(),
        "script returned nil, not a schematic"
    );
    assert_eq!(
        SandboxFault::NotASchematic { returned: ValueKind::Table }.message(),
        "script returned a table, not a schematic"
    );
}

#[test]
fn every_byte_prints_in_decimal() {
    for n in 0..=255u8 {
        let text = SandboxFault::SizeLimitExceeded { x_size: n, y_size: n, z_size: n }.message();
        assert_eq!(text, format!("schematic size {}x{}x{} too big", n, n, n));
    }
}

#[test]
fn code_fence_is_stripped() {
    assert_eq!(strip_code_fence("return Schematic(1, 1, 1)"), "return Schematic(1, 1, 1)");
    assert_eq!(
        strip_code_fence("```lua\nreturn Schematic(1, 1, 1)\n```"),
        "\nreturn Schematic(1, 1, 1)\n"
    );
    assert_eq!(strip_code_fence("```lua```"), "");
    assert_eq!(strip_code_fence("```luaX```"), "X");
    assert_eq!(strip_code_fence("```lua"), "");
    assert_eq!(strip_code_fence("```lua`"), "");
    assert_eq!(strip_code_fence("```lu"), "```lu");
    assert_eq!(strip_code_fence("```Lua\nx\n```"), "```Lua\nx\n```");
    assert_eq!(strip_code_fence(" ```lua\nx\n```"), " ```lua\nx\n```");
    assert_eq!(strip_code_fence(""), "");
    assert_eq!(strip_code_fence("```lua\u{00A7}\u{00A7}abc"), "\u{00A7}\u{00A7}");
}

#[test]
fn blocks_are_written_like_colors() {
    let map = Material::init_string_map();
    let mut schem: Schematic<Block> = new_schematic(255, 3, 3, 3).unwrap();
    let wool = parse_block(&map, "wool", Some(4)).unwrap();
    assert_eq!(write_cell(&mut schem, 2, 2, 2, wool), Ok(()));
    assert_eq!(schem.get(2, 2, 2), Ok(wool));
    assert_eq!(
        write_cell(&mut schem, 2, 2, 3, wool),
        Err(SandboxFault::OutOfBounds {
            x: 2,
            y: 2,
            z: 3,
            cause: OutOfBounds { axis: Axis::Z, value: 3 },
        })
    );
    assert_eq!(write_box(&mut schem, 0, 0, 0, 1, 1, 1, wool), Ok(()));
    assert_eq!(schem.cells().iter().filter(|b| **b == wool).count(), 9);
    assert_eq!(
        write_box(&mut schem, 0, 3, 0, 0, 3, 0, wool),
        Err(SandboxFault::FillOutOfBounds {
            x1: 0,
            y1: 3,
            z1: 0,
            x2: 0,
            y2: 3,
            z2: 0,
            cause: OutOfBounds { axis: Axis::Y, value: 3 },
        })
    );
}
