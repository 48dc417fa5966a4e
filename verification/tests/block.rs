use std::mem::size_of;

use voxel_build::block::{Block, BlockData, Material, UnknownMaterial, MATERIAL_COUNT};
use voxel_build::voxel::Voxel;

#[test]
fn test_block_size() {
    assert_eq!(size_of::<Block>(), 2);
}

#[test]
fn block_test_block_size() {
    assert_eq!(size_of::<Block>(), 2);
}

#[test]
fn test_str_to_material() {
    let map = Material::init_string_map();

    for mat in Material::iter() {
        let mat_str: &'static str = mat.name();
        assert_eq!(mat, Material::try_from(&map, mat_str).unwrap());
    }
}

#[test]
fn block_test_str_to_material() {
    let map = Material::init_string_map();

    for mat in Material::iter() {
        let mat_str: &'static str = mat.name();
        assert_eq!(mat, Material::try_from(&map, mat_str).unwrap());
    }
}

#[test]
fn material_table_positions_and_ids() {
    let all = Material::iter();
    assert_eq!(all.len(), 254);
    assert_eq!(MATERIAL_COUNT, 254);
    for (i, mat) in all.iter().enumerate() {
        assert_eq!(mat.ordinal() as usize, i);
        assert_eq!(Material::from_ordinal(i as u8), Some(*mat));
        if *mat == Material::structure_block {
            assert_eq!(mat.id(), 255);
        } else {
            assert_eq!(mat.id() as usize, i);
        }
    }
    assert_eq!(Material::from_ordinal(254), None);
    assert_eq!(Material::from_ordinal(255), None);
    assert_eq!(Material::air.id(), 0);
    assert_eq!(Material::stone.id(), 1);
    assert_eq!(Material::wool.id(), 35);
    assert_eq!(Material::concrete_powder.id(), 252);
    assert_eq!(Material::structure_block.ordinal(), 253);
}

#[test]
fn material_names_are_exact() {
    let map = Material::init_string_map();
    assert_eq!(Material::air.name(), "air");
    assert_eq!(Material::light_blue_glazed_terracotta.name(), "light_blue_glazed_terracotta");
    assert_eq!(Material::try_from(&map, "stone"), Ok(Material::stone));
    assert_eq!(Material::try_from(&map, "log2"), Ok(Material::log2));
    assert_eq!(
        Material::try_from(&map, "Stone"),
        Err(UnknownMaterial("Stone".to_owned()))
    );
    assert_eq!(
        Material::try_from(&map, "stone "),
        Err(UnknownMaterial("stone ".to_owned()))
    );
    assert_eq!(Material::try_from(&map, ""), Err(UnknownMaterial(String::new())));
}

#[test]
fn material_names_are_distinct() {
    let all = Material::iter();
    for a in all.iter() {
        for b in all.iter() {
            assert_eq!(a.name() == b.name(), a == b);
        }
    }
}

#[test]
fn block_accessors() {
    let plain = Block::new(Material::wool);
    assert_eq!(plain.material(), Material::wool);
    assert_eq!(plain.data(), 0);
    let dyed = Block::new_with_data(Material::wool, 14);
    assert_eq!(dyed.material(), Material::wool);
    assert_eq!(dyed.data(), 14);
}

#[test]
fn blocks_are_their_two_parts() {
    for mat in Material::iter() {
        assert_eq!(Block::new_with_data(mat, 0), Block::new(mat));
        assert_ne!(Block::new_with_data(mat, 1), Block::new(mat));
    }
    assert_ne!(Block::new(Material::stone), Block::new(Material::dirt));
    assert_eq!(
        Block::new_with_data(Material::wool, 9),
        Block::new_with_data(Material::wool, 9)
    );
}

#[test]
fn air_is_the_vacant_block() {
    assert!(Block::new(Material::air).is_empty());
    assert!(Block::new_with_data(Material::air, 7).is_empty());
    assert!(!Block::new(Material::stone).is_empty());
    assert_eq!(Block::empty(), Block::new(Material::air));
}

#[test]
fn block_data_color_names() {
    let expected = [
        "White", "Orange", "Magenta", "LightBlue", "Yellow", "Lime", "Pink", "Gray", "LightGray",
        "Cyan", "Purple", "Blue", "Brown", "Green", "Red", "Black",
    ];
    for (value, name) in expected.iter().enumerate() {
        assert_eq!(BlockData::color_name(value as u8), Some(*name));
    }
    assert_eq!(BlockData::color_name(16), None);
    assert_eq!(BlockData::color_name(255), None);
}
