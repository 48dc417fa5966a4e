//! Block materials and the block voxel.
//!
//! A block is a material and one auxiliary byte. The material table is fixed:
//! each material has a position in the table, a numeric id that the block
//! format stores, and a name that build scripts use. `air` is the vacant
//! material.

use crate::voxel::Voxel;
use vstd::prelude::*;

verus! {

/// The materials a block can be made of, in table order.
#[allow(non_camel_case_types)]
#[derive(Clone, Copy, PartialEq, Eq, Debug, Structural)]
pub enum Material {
    air,
    stone,
    grass,
    dirt,
    cobblestone,
    planks,
    sapling,
    bedrock,
    flowing_water,
    water,
    flowing_lava,
    lava,
    sand,
    gravel,
    gold_ore,
    iron_ore,
    coal_ore,
    log,
    leaves,
    sponge,
    glass,
    lapis_ore,
    lapis_block,
    dispenser,
    sandstone,
    noteblock,
    bed,
    golden_rail,
    detector_rail,
    sticky_piston,
    web,
    tallgrass,
    deadbush,
    piston,
    piston_head,
    wool,
    piston_extension,
    yellow_flower,
    red_flower,
    brown_mushroom,
    red_mushroom,
    gold_block,
    iron_block,
    double_stone_slab,
    stone_slab,
    brick_block,
    tnt,
    bookshelf,
    mossy_cobblestone,
    obsidian,
    torch,
    fire,
    mob_spawner,
    oak_stairs,
    chest,
    redstone_wire,
    diamond_ore,
    diamond_block,
    crafting_table,
    wheat,
    farmland,
    furnace,
    lit_furnace,
    standing_sign,
    wooden_door,
    ladder,
    rail,
    stone_stairs,
    wall_sign,
    lever,
    stone_pressure_plate,
    iron_door,
    wooden_pressure_plate,
    redstone_ore,
    lit_redstone_ore,
    unlit_redstone_torch,
    redstone_torch,
    stone_button,
    snow_layer,
    ice,
    snow,
    cactus,
    clay,
    reeds,
    jukebox,
    fence,
    pumpkin,
    netherrack,
    soul_sand,
    glowstone,
    portal,
    lit_pumpkin,
    cake,
    unpowered_repeater,
    powered_repeater,
    stained_glass,
    trapdoor,
    monster_egg,
    stonebrick,
    brown_mushroom_block,
    red_mushroom_block,
    iron_bars,
    glass_pane,
    melon_block,
    pumpkin_stem,
    melon_stem,
    vine,
    fence_gate,
    brick_stairs,
    stone_brick_stairs,
    mycelium,
    waterlily,
    nether_brick,
    nether_brick_fence,
    nether_brick_stairs,
    nether_wart,
    enchanting_table,
    brewing_stand,
    cauldron,
    end_portal,
    end_portal_frame,
    end_stone,
    dragon_egg,
    redstone_lamp,
    lit_redstone_lamp,
    double_wooden_slab,
    wooden_slab,
    cocoa,
    sandstone_stairs,
    emerald_ore,
    ender_chest,
    tripwire_hook,
    tripwire,
    emerald_block,
    spruce_stairs,
    birch_stairs,
    jungle_stairs,
    command_block,
    beacon,
    cobblestone_wall,
    flower_pot,
    carrots,
    potatoes,
    wooden_button,
    skull,
    anvil,
    trapped_chest,
    light_weighted_pressure_plate,
    heavy_weighted_pressure_plate,
    unpowered_comparator,
    powered_comparator,
    daylight_detector,
    redstone_block,
    quartz_ore,
    hopper,
    quartz_block,
    quartz_stairs,
    activator_rail,
    dropper,
    stained_hardened_clay,
    stained_glass_pane,
    leaves2,
    log2,
    acacia_stairs,
    dark_oak_stairs,
    slime,
    barrier,
    iron_trapdoor,
    prismarine,
    sea_lantern,
    hay_block,
    carpet,
    hardened_clay,
    coal_block,
    packed_ice,
    double_plant,
    standing_banner,
    wall_banner,
    daylight_detector_inverted,
    red_sandstone,
    red_sandstone_stairs,
    double_stone_slab2,
    stone_slab2,
    spruce_fence_gate,
    birch_fence_gate,
    jungle_fence_gate,
    dark_oak_fence_gate,
    acacia_fence_gate,
    spruce_fence,
    birch_fence,
    jungle_fence,
    dark_oak_fence,
    acacia_fence,
    spruce_door,
    birch_door,
    jungle_door,
    acacia_door,
    dark_oak_door,
    end_rod,
    chorus_plant,
    chorus_flower,
    purpur_block,
    purpur_pillar,
    purpur_stairs,
    purpur_double_slab,
    purpur_slab,
    end_bricks,
    beetroots,
    grass_path,
    end_gateway,
    repeating_command_block,
    chain_command_block,
    frosted_ice,
    magma,
    nether_wart_block,
    red_nether_brick,
    bone_block,
    structure_void,
    observer,
    white_shulker_box,
    orange_shulker_box,
    magenta_shulker_box,
    light_blue_shulker_box,
    yellow_shulker_box,
    lime_shulker_box,
    pink_shulker_box,
    gray_shulker_box,
    light_gray_shulker_box,
    cyan_shulker_box,
    purple_shulker_box,
    blue_shulker_box,
    brown_shulker_box,
    green_shulker_box,
    red_shulker_box,
    black_shulker_box,
    white_glazed_terracotta,
    orange_glazed_terracotta,
    magenta_glazed_terracotta,
    light_blue_glazed_terracotta,
    yellow_glazed_terracotta,
    lime_glazed_terracotta,
    pink_glazed_terracotta,
    gray_glazed_terracotta,
    light_gray_glazed_terracotta,
    cyan_glazed_terracotta,
    purple_glazed_terracotta,
    blue_glazed_terracotta,
    brown_glazed_terracotta,
    green_glazed_terracotta,
    red_glazed_terracotta,
    black_glazed_terracotta,
    concrete,
    concrete_powder,
    structure_block,
}

/// The number of materials in the table.
pub const MATERIAL_COUNT: u8 = 254;

/// A block: a material and its auxiliary data byte.
#[derive(Clone, Copy, Debug, PartialEq, Eq, Structural)]
pub struct Block {
    material: Material,
    data: u8,
}

/// The named values that scripts may pass as auxiliary data.
pub struct BlockData;

/// A name that no material bears. Holds the rejected input.
#[derive(Debug, PartialEq)]
pub struct UnknownMaterial(pub String);

/// The material names, held ready for lookup.
pub struct MaterialMap {
    names: Vec<String>,
}

impl Material {
    /// The position of this material in the table.
    pub open spec fn ordinal_spec(self) -> int {
        match self {
            Material::air => 0,
            Material::stone => 1,
            Material::grass => 2,
            Material::dirt => 3,
            Material::cobblestone => 4,
            Material::planks => 5,
            Material::sapling => 6,
            Material::bedrock => 7,
            Material::flowing_water => 8,
            Material::water => 9,
            Material::flowing_lava => 10,
            Material::lava => 11,
            Material::sand => 12,
            Material::gravel => 13,
            Material::gold_ore => 14,
            Material::iron_ore => 15,
            Material::coal_ore => 16,
            Material::log => 17,
            Material::leaves => 18,
            Material::sponge => 19,
            Material::glass => 20,
            Material::lapis_ore => 21,
            Material::lapis_block => 22,
            Material::dispenser => 23,
            Material::sandstone => 24,
            Material::noteblock => 25,
            Material::bed => 26,
            Material::golden_rail => 27,
            Material::detector_rail => 28,
            Material::sticky_piston => 29,
            Material::web => 30,
            Material::tallgrass => 31,
            Material::deadbush => 32,
            Material::piston => 33,
            Material::piston_head => 34,
            Material::wool => 35,
            Material::piston_extension => 36,
            Material::yellow_flower => 37,
            Material::red_flower => 38,
            Material::brown_mushroom => 39,
            Material::red_mushroom => 40,
            Material::gold_block => 41,
            Material::iron_block => 42,
            Material::double_stone_slab => 43,
            Material::stone_slab => 44,
            Material::brick_block => 45,
            Material::tnt => 46,
            Material::bookshelf => 47,
            Material::mossy_cobblestone => 48,
            Material::obsidian => 49,
            Material::torch => 50,
            Material::fire => 51,
            Material::mob_spawner => 52,
            Material::oak_stairs => 53,
            Material::chest => 54,
            Material::redstone_wire => 55,
            Material::diamond_ore => 56,
            Material::diamond_block => 57,
            Material::crafting_table => 58,
            Material::wheat => 59,
            Material::farmland => 60,
            Material::furnace => 61,
            Material::lit_furnace => 62,
            Material::standing_sign => 63,
            Material::wooden_door => 64,
            Material::ladder => 65,
            Material::rail => 66,
            Material::stone_stairs => 67,
            Material::wall_sign => 68,
            Material::lever => 69,
            Material::stone_pressure_plate => 70,
            Material::iron_door => 71,
            Material::wooden_pressure_plate => 72,
            Material::redstone_ore => 73,
            Material::lit_redstone_ore => 74,
            Material::unlit_redstone_torch => 75,
            Material::redstone_torch => 76,
            Material::stone_button => 77,
            Material::snow_layer => 78,
            Material::ice => 79,
            Material::snow => 80,
            Material::cactus => 81,
            Material::clay => 82,
            Material::reeds => 83,
            Material::jukebox => 84,
            Material::fence => 85,
            Material::pumpkin => 86,
            Material::netherrack => 87,
            Material::soul_sand => 88,
            Material::glowstone => 89,
            Material::portal => 90,
            Material::lit_pumpkin => 91,
            Material::cake => 92,
            Material::unpowered_repeater => 93,
            Material::powered_repeater => 94,
            Material::stained_glass => 95,
            Material::trapdoor => 96,
            Material::monster_egg => 97,
            Material::stonebrick => 98,
            Material::brown_mushroom_block => 99,
            Material::red_mushroom_block => 100,
            Material::iron_bars => 101,
            Material::glass_pane => 102,
            Material::melon_block => 103,
            Material::pumpkin_stem => 104,
            Material::melon_stem => 105,
            Material::vine => 106,
            Material::fence_gate => 107,
            Material::brick_stairs => 108,
            Material::stone_brick_stairs => 109,
            Material::mycelium => 110,
            Material::waterlily => 111,
            Material::nether_brick => 112,
            Material::nether_brick_fence => 113,
            Material::nether_brick_stairs => 114,
            Material::nether_wart => 115,
            Material::enchanting_table => 116,
            Material::brewing_stand => 117,
            Material::cauldron => 118,
            Material::end_portal => 119,
            Material::end_portal_frame => 120,
            Material::end_stone => 121,
            Material::dragon_egg => 122,
            Material::redstone_lamp => 123,
            Material::lit_redstone_lamp => 124,
            Material::double_wooden_slab => 125,
            Material::wooden_slab => 126,
            Material::cocoa => 127,
            Material::sandstone_stairs => 128,
            Material::emerald_ore => 129,
            Material::ender_chest => 130,
            Material::tripwire_hook => 131,
            Material::tripwire => 132,
            Material::emerald_block => 133,
            Material::spruce_stairs => 134,
            Material::birch_stairs => 135,
            Material::jungle_stairs => 136,
            Material::command_block => 137,
            Material::beacon => 138,
            Material::cobblestone_wall => 139,
            Material::flower_pot => 140,
            Material::carrots => 141,
            Material::potatoes => 142,
            Material::wooden_button => 143,
            Material::skull => 144,
            Material::anvil => 145,
            Material::trapped_chest => 146,
            Material::light_weighted_pressure_plate => 147,
            Material::heavy_weighted_pressure_plate => 148,
            Material::unpowered_comparator => 149,
            Material::powered_comparator => 150,
            Material::daylight_detector => 151,
            Material::redstone_block => 152,
            Material::quartz_ore => 153,
            Material::hopper => 154,
            Material::quartz_block => 155,
            Material::quartz_stairs => 156,
            Material::activator_rail => 157,
            Material::dropper => 158,
            Material::stained_hardened_clay => 159,
            Material::stained_glass_pane => 160,
            Material::leaves2 => 161,
            Material::log2 => 162,
            Material::acacia_stairs => 163,
            Material::dark_oak_stairs => 164,
            Material::slime => 165,
            Material::barrier => 166,
            Material::iron_trapdoor => 167,
            Material::prismarine => 168,
            Material::sea_lantern => 169,
            Material::hay_block => 170,
            Material::carpet => 171,
            Material::hardened_clay => 172,
            Material::coal_block => 173,
            Material::packed_ice => 174,
            Material::double_plant => 175,
            Material::standing_banner => 176,
            Material::wall_banner => 177,
            Material::daylight_detector_inverted => 178,
            Material::red_sandstone => 179,
            Material::red_sandstone_stairs => 180,
            Material::double_stone_slab2 => 181,
            Material::stone_slab2 => 182,
            Material::spruce_fence_gate => 183,
            Material::birch_fence_gate => 184,
            Material::jungle_fence_gate => 185,
            Material::dark_oak_fence_gate => 186,
            Material::acacia_fence_gate => 187,
            Material::spruce_fence => 188,
            Material::birch_fence => 189,
            Material::jungle_fence => 190,
            Material::dark_oak_fence => 191,
            Material::acacia_fence => 192,
            Material::spruce_door => 193,
            Material::birch_door => 194,
            Material::jungle_door => 195,
            Material::acacia_door => 196,
            Material::dark_oak_door => 197,
            Material::end_rod => 198,
            Material::chorus_plant => 199,
            Material::chorus_flower => 200,
            Material::purpur_block => 201,
            Material::purpur_pillar => 202,
            Material::purpur_stairs => 203,
            Material::purpur_double_slab => 204,
            Material::purpur_slab => 205,
            Material::end_bricks => 206,
            Material::beetroots => 207,
            Material::grass_path => 208,
            Material::end_gateway => 209,
            Material::repeating_command_block => 210,
            Material::chain_command_block => 211,
            Material::frosted_ice => 212,
            Material::magma => 213,
            Material::nether_wart_block => 214,
            Material::red_nether_brick => 215,
            Material::bone_block => 216,
            Material::structure_void => 217,
            Material::observer => 218,
            Material::white_shulker_box => 219,
            Material::orange_shulker_box => 220,
            Material::magenta_shulker_box => 221,
            Material::light_blue_shulker_box => 222,
            Material::yellow_shulker_box => 223,
            Material::lime_shulker_box => 224,
            Material::pink_shulker_box => 225,
            Material::gray_shulker_box => 226,
            Material::light_gray_shulker_box => 227,
            Material::cyan_shulker_box => 228,
            Material::purple_shulker_box => 229,
            Material::blue_shulker_box => 230,
            Material::brown_shulker_box => 231,
            Material::green_shulker_box => 232,
            Material::red_shulker_box => 233,
            Material::black_shulker_box => 234,
            Material::white_glazed_terracotta => 235,
            Material::orange_glazed_terracotta => 236,
            Material::magenta_glazed_terracotta => 237,
            Material::light_blue_glazed_terracotta => 238,
            Material::yellow_glazed_terracotta => 239,
            Material::lime_glazed_terracotta => 240,
            Material::pink_glazed_terracotta => 241,
            Material::gray_glazed_terracotta => 242,
            Material::light_gray_glazed_terracotta => 243,
            Material::cyan_glazed_terracotta => 244,
            Material::purple_glazed_terracotta => 245,
            Material::blue_glazed_terracotta => 246,
            Material::brown_glazed_terracotta => 247,
            Material::green_glazed_terracotta => 248,
            Material::red_glazed_terracotta => 249,
            Material::black_glazed_terracotta => 250,
            Material::concrete => 251,
            Material::concrete_powder => 252,
            Material::structure_block => 253,
        }
    }

    /// The id that the block format stores for this material. Ids follow the
    /// table positions, except that `structure_block` has id 255.
    pub open spec fn id_spec(self) -> int {
        if self == Material::structure_block {
            255
        } else {
            self.ordinal_spec()
        }
    }

    /// The name of this material.
    pub open spec fn name_spec(self) -> Seq<char> {
        match self {
            Material::air => "air"@,
            Material::stone => "stone"@,
            Material::grass => "grass"@,
            Material::dirt => "dirt"@,
            Material::cobblestone => "cobblestone"@,
            Material::planks => "planks"@,
            Material::sapling => "sapling"@,
            Material::bedrock => "bedrock"@,
            Material::flowing_water => "flowing_water"@,
            Material::water => "water"@,
            Material::flowing_lava => "flowing_lava"@,
            Material::lava => "lava"@,
            Material::sand => "sand"@,
            Material::gravel => "gravel"@,
            Material::gold_ore => "gold_ore"@,
            Material::iron_ore => "iron_ore"@,
            Material::coal_ore => "coal_ore"@,
            Material::log => "log"@,
            Material::leaves => "leaves"@,
            Material::sponge => "sponge"@,
            Material::glass => "glass"@,
            Material::lapis_ore => "lapis_ore"@,
            Material::lapis_block => "lapis_block"@,
            Material::dispenser => "dispenser"@,
            Material::sandstone => "sandstone"@,
            Material::noteblock => "noteblock"@,
            Material::bed => "bed"@,
            Material::golden_rail => "golden_rail"@,
            Material::detector_rail => "detector_rail"@,
            Material::sticky_piston => "sticky_piston"@,
            Material::web => "web"@,
            Material::tallgrass => "tallgrass"@,
            Material::deadbush => "deadbush"@,
            Material::piston => "piston"@,
            Material::piston_head => "piston_head"@,
            Material::wool => "wool"@,
            Material::piston_extension => "piston_extension"@,
            Material::yellow_flower => "yellow_flower"@,
            Material::red_flower => "red_flower"@,
            Material::brown_mushroom => "brown_mushroom"@,
            Material::red_mushroom => "red_mushroom"@,
            Material::gold_block => "gold_block"@,
            Material::iron_block => "iron_block"@,
            Material::double_stone_slab => "double_stone_slab"@,
            Material::stone_slab => "stone_slab"@,
            Material::brick_block => "brick_block"@,
            Material::tnt => "tnt"@,
            Material::bookshelf => "bookshelf"@,
            Material::mossy_cobblestone => "mossy_cobblestone"@,
            Material::obsidian => "obsidian"@,
            Material::torch => "torch"@,
            Material::fire => "fire"@,
            Material::mob_spawner => "mob_spawner"@,
            Material::oak_stairs => "oak_stairs"@,
            Material::chest => "chest"@,
            Material::redstone_wire => "redstone_wire"@,
            Material::diamond_ore => "diamond_ore"@,
            Material::diamond_block => "diamond_block"@,
            Material::crafting_table => "crafting_table"@,
            Material::wheat => "wheat"@,
            Material::farmland => "farmland"@,
            Material::furnace => "furnace"@,
            Material::lit_furnace => "lit_furnace"@,
            Material::standing_sign => "standing_sign"@,
            Material::wooden_door => "wooden_door"@,
            Material::ladder => "ladder"@,
            Material::rail => "rail"@,
            Material::stone_stairs => "stone_stairs"@,
            Material::wall_sign => "wall_sign"@,
            Material::lever => "lever"@,
            Material::stone_pressure_plate => "stone_pressure_plate"@,
            Material::iron_door => "iron_door"@,
            Material::wooden_pressure_plate => "wooden_pressure_plate"@,
            Material::redstone_ore => "redstone_ore"@,
            Material::lit_redstone_ore => "lit_redstone_ore"@,
            Material::unlit_redstone_torch => "unlit_redstone_torch"@,
            Material::redstone_torch => "redstone_torch"@,
            Material::stone_button => "stone_button"@,
            Material::snow_layer => "snow_layer"@,
            Material::ice => "ice"@,
            Material::snow => "snow"@,
            Material::cactus => "cactus"@,
            Material::clay => "clay"@,
            Material::reeds => "reeds"@,
            Material::jukebox => "jukebox"@,
            Material::fence => "fence"@,
            Material::pumpkin => "pumpkin"@,
            Material::netherrack => "netherrack"@,
            Material::soul_sand => "soul_sand"@,
            Material::glowstone => "glowstone"@,
            Material::portal => "portal"@,
            Material::lit_pumpkin => "lit_pumpkin"@,
            Material::cake => "cake"@,
            Material::unpowered_repeater => "unpowered_repeater"@,
            Material::powered_repeater => "powered_repeater"@,
            Material::stained_glass => "stained_glass"@,
            Material::trapdoor => "trapdoor"@,
            Material::monster_egg => "monster_egg"@,
            Material::stonebrick => "stonebrick"@,
            Material::brown_mushroom_block => "brown_mushroom_block"@,
            Material::red_mushroom_block => "red_mushroom_block"@,
            Material::iron_bars => "iron_bars"@,
            Material::glass_pane => "glass_pane"@,
            Material::melon_block => "melon_block"@,
            Material::pumpkin_stem => "pumpkin_stem"@,
            Material::melon_stem => "melon_stem"@,
            Material::vine => "vine"@,
            Material::fence_gate => "fence_gate"@,
            Material::brick_stairs => "brick_stairs"@,
            Material::stone_brick_stairs => "stone_brick_stairs"@,
            Material::mycelium => "mycelium"@,
            Material::waterlily => "waterlily"@,
            Material::nether_brick => "nether_brick"@,
            Material::nether_brick_fence => "nether_brick_fence"@,
            Material::nether_brick_stairs => "nether_brick_stairs"@,
            Material::nether_wart => "nether_wart"@,
            Material::enchanting_table => "enchanting_table"@,
            Material::brewing_stand => "brewing_stand"@,
            Material::cauldron => "cauldron"@,
            Material::end_portal => "end_portal"@,
            Material::end_portal_frame => "end_portal_frame"@,
            Material::end_stone => "end_stone"@,
            Material::dragon_egg => "dragon_egg"@,
            Material::redstone_lamp => "redstone_lamp"@,
            Material::lit_redstone_lamp => "lit_redstone_lamp"@,
            Material::double_wooden_slab => "double_wooden_slab"@,
            Material::wooden_slab => "wooden_slab"@,
            Material::cocoa => "cocoa"@,
            Material::sandstone_stairs => "sandstone_stairs"@,
            Material::emerald_ore => "emerald_ore"@,
            Material::ender_chest => "ender_chest"@,
            Material::tripwire_hook => "tripwire_hook"@,
            Material::tripwire => "tripwire"@,
            Material::emerald_block => "emerald_block"@,
            Material::spruce_stairs => "spruce_stairs"@,
            Material::birch_stairs => "birch_stairs"@,
            Material::jungle_stairs => "jungle_stairs"@,
            Material::command_block => "command_block"@,
            Material::beacon => "beacon"@,
            Material::cobblestone_wall => "cobblestone_wall"@,
            Material::flower_pot => "flower_pot"@,
            Material::carrots => "carrots"@,
            Material::potatoes => "potatoes"@,
            Material::wooden_button => "wooden_button"@,
            Material::skull => "skull"@,
            Material::anvil => "anvil"@,
            Material::trapped_chest => "trapped_chest"@,
            Material::light_weighted_pressure_plate => "light_weighted_pressure_plate"@,
            Material::heavy_weighted_pressure_plate => "heavy_weighted_pressure_plate"@,
            Material::unpowered_comparator => "unpowered_comparator"@,
            Material::powered_comparator => "powered_comparator"@,
            Material::daylight_detector => "daylight_detector"@,
            Material::redstone_block => "redstone_block"@,
            Material::quartz_ore => "quartz_ore"@,
            Material::hopper => "hopper"@,
            Material::quartz_block => "quartz_block"@,
            Material::quartz_stairs => "quartz_stairs"@,
            Material::activator_rail => "activator_rail"@,
            Material::dropper => "dropper"@,
            Material::stained_hardened_clay => "stained_hardened_clay"@,
            Material::stained_glass_pane => "stained_glass_pane"@,
            Material::leaves2 => "leaves2"@,
            Material::log2 => "log2"@,
            Material::acacia_stairs => "acacia_stairs"@,
            Material::dark_oak_stairs => "dark_oak_stairs"@,
            Material::slime => "slime"@,
            Material::barrier => "barrier"@,
            Material::iron_trapdoor => "iron_trapdoor"@,
            Material::prismarine => "prismarine"@,
            Material::sea_lantern => "sea_lantern"@,
            Material::hay_block => "hay_block"@,
            Material::carpet => "carpet"@,
            Material::hardened_clay => "hardened_clay"@,
            Material::coal_block => "coal_block"@,
            Material::packed_ice => "packed_ice"@,
            Material::double_plant => "double_plant"@,
            Material::standing_banner => "standing_banner"@,
            Material::wall_banner => "wall_banner"@,
            Material::daylight_detector_inverted => "daylight_detector_inverted"@,
            Material::red_sandstone => "red_sandstone"@,
            Material::red_sandstone_stairs => "red_sandstone_stairs"@,
            Material::double_stone_slab2 => "double_stone_slab2"@,
            Material::stone_slab2 => "stone_slab2"@,
            Material::spruce_fence_gate => "spruce_fence_gate"@,
            Material::birch_fence_gate => "birch_fence_gate"@,
            Material::jungle_fence_gate => "jungle_fence_gate"@,
            Material::dark_oak_fence_gate => "dark_oak_fence_gate"@,
            Material::acacia_fence_gate => "acacia_fence_gate"@,
            Material::spruce_fence => "spruce_fence"@,
            Material::birch_fence => "birch_fence"@,
            Material::jungle_fence => "jungle_fence"@,
            Material::dark_oak_fence => "dark_oak_fence"@,
            Material::acacia_fence => "acacia_fence"@,
            Material::spruce_door => "spruce_door"@,
            Material::birch_door => "birch_door"@,
            Material::jungle_door => "jungle_door"@,
            Material::acacia_door => "acacia_door"@,
            Material::dark_oak_door => "dark_oak_door"@,
            Material::end_rod => "end_rod"@,
            Material::chorus_plant => "chorus_plant"@,
            Material::chorus_flower => "chorus_flower"@,
            Material::purpur_block => "purpur_block"@,
            Material::purpur_pillar => "purpur_pillar"@,
            Material::purpur_stairs => "purpur_stairs"@,
            Material::purpur_double_slab => "purpur_double_slab"@,
            Material::purpur_slab => "purpur_slab"@,
            Material::end_bricks => "end_bricks"@,
            Material::beetroots => "beetroots"@,
            Material::grass_path => "grass_path"@,
            Material::end_gateway => "end_gateway"@,
            Material::repeating_command_block => "repeating_command_block"@,
            Material::chain_command_block => "chain_command_block"@,
            Material::frosted_ice => "frosted_ice"@,
            Material::magma => "magma"@,
            Material::nether_wart_block => "nether_wart_block"@,
            Material::red_nether_brick => "red_nether_brick"@,
            Material::bone_block => "bone_block"@,
            Material::structure_void => "structure_void"@,
            Material::observer => "observer"@,
            Material::white_shulker_box => "white_shulker_box"@,
            Material::orange_shulker_box => "orange_shulker_box"@,
            Material::magenta_shulker_box => "magenta_shulker_box"@,
            Material::light_blue_shulker_box => "light_blue_shulker_box"@,
            Material::yellow_shulker_box => "yellow_shulker_box"@,
            Material::lime_shulker_box => "lime_shulker_box"@,
            Material::pink_shulker_box => "pink_shulker_box"@,
            Material::gray_shulker_box => "gray_shulker_box"@,
            Material::light_gray_shulker_box => "light_gray_shulker_box"@,
            Material::cyan_shulker_box => "cyan_shulker_box"@,
            Material::purple_shulker_box => "purple_shulker_box"@,
            Material::blue_shulker_box => "blue_shulker_box"@,
            Material::brown_shulker_box => "brown_shulker_box"@,
            Material::green_shulker_box => "green_shulker_box"@,
            Material::red_shulker_box => "red_shulker_box"@,
            Material::black_shulker_box => "black_shulker_box"@,
            Material::white_glazed_terracotta => "white_glazed_terracotta"@,
            Material::orange_glazed_terracotta => "orange_glazed_terracotta"@,
            Material::magenta_glazed_terracotta => "magenta_glazed_terracotta"@,
            Material::light_blue_glazed_terracotta => "light_blue_glazed_terracotta"@,
            Material::yellow_glazed_terracotta => "yellow_glazed_terracotta"@,
            Material::lime_glazed_terracotta => "lime_glazed_terracotta"@,
            Material::pink_glazed_terracotta => "pink_glazed_terracotta"@,
            Material::gray_glazed_terracotta => "gray_glazed_terracotta"@,
            Material::light_gray_glazed_terracotta => "light_gray_glazed_terracotta"@,
            Material::cyan_glazed_terracotta => "cyan_glazed_terracotta"@,
            Material::purple_glazed_terracotta => "purple_glazed_terracotta"@,
            Material::blue_glazed_terracotta => "blue_glazed_terracotta"@,
            Material::brown_glazed_terracotta => "brown_glazed_terracotta"@,
            Material::green_glazed_terracotta => "green_glazed_terracotta"@,
            Material::red_glazed_terracotta => "red_glazed_terracotta"@,
            Material::black_glazed_terracotta => "black_glazed_terracotta"@,
            Material::concrete => "concrete"@,
            Material::concrete_powder => "concrete_powder"@,
            Material::structure_block => "structure_block"@,
        }
    }

    /// The position of this material in the table.
    pub fn ordinal(self) -> (n: u8)
        ensures
            n == self.ordinal_spec(),
            n < MATERIAL_COUNT,
    {
        match self {
            Material::air => 0,
            Material::stone => 1,
            Material::grass => 2,
            Material::dirt => 3,
            Material::cobblestone => 4,
            Material::planks => 5,
            Material::sapling => 6,
            Material::bedrock => 7,
            Material::flowing_water => 8,
            Material::water => 9,
            Material::flowing_lava => 10,
            Material::lava => 11,
            Material::sand => 12,
            Material::gravel => 13,
            Material::gold_ore => 14,
            Material::iron_ore => 15,
            Material::coal_ore => 16,
            Material::log => 17,
            Material::leaves => 18,
            Material::sponge => 19,
            Material::glass => 20,
            Material::lapis_ore => 21,
            Material::lapis_block => 22,
            Material::dispenser => 23,
            Material::sandstone => 24,
            Material::noteblock => 25,
            Material::bed => 26,
            Material::golden_rail => 27,
            Material::detector_rail => 28,
            Material::sticky_piston => 29,
            Material::web => 30,
            Material::tallgrass => 31,
            Material::deadbush => 32,
            Material::piston => 33,
            Material::piston_head => 34,
            Material::wool => 35,
            Material::piston_extension => 36,
            Material::yellow_flower => 37,
            Material::red_flower => 38,
            Material::brown_mushroom => 39,
            Material::red_mushroom => 40,
            Material::gold_block => 41,
            Material::iron_block => 42,
            Material::double_stone_slab => 43,
            Material::stone_slab => 44,
            Material::brick_block => 45,
            Material::tnt => 46,
            Material::bookshelf => 47,
            Material::mossy_cobblestone => 48,
            Material::obsidian => 49,
            Material::torch => 50,
            Material::fire => 51,
            Material::mob_spawner => 52,
            Material::oak_stairs => 53,
            Material::chest => 54,
            Material::redstone_wire => 55,
            Material::diamond_ore => 56,
            Material::diamond_block => 57,
            Material::crafting_table => 58,
            Material::wheat => 59,
            Material::farmland => 60,
            Material::furnace => 61,
            Material::lit_furnace => 62,
            Material::standing_sign => 63,
            Material::wooden_door => 64,
            Material::ladder => 65,
            Material::rail => 66,
            Material::stone_stairs => 67,
            Material::wall_sign => 68,
            Material::lever => 69,
            Material::stone_pressure_plate => 70,
            Material::iron_door => 71,
            Material::wooden_pressure_plate => 72,
            Material::redstone_ore => 73,
            Material::lit_redstone_ore => 74,
            Material::unlit_redstone_torch => 75,
            Material::redstone_torch => 76,
            Material::stone_button => 77,
            Material::snow_layer => 78,
            Material::ice => 79,
            Material::snow => 80,
            Material::cactus => 81,
            Material::clay => 82,
            Material::reeds => 83,
            Material::jukebox => 84,
            Material::fence => 85,
            Material::pumpkin => 86,
            Material::netherrack => 87,
            Material::soul_sand => 88,
            Material::glowstone => 89,
            Material::portal => 90,
            Material::lit_pumpkin => 91,
            Material::cake => 92,
            Material::unpowered_repeater => 93,
            Material::powered_repeater => 94,
            Material::stained_glass => 95,
            Material::trapdoor => 96,
            Material::monster_egg => 97,
            Material::stonebrick => 98,
            Material::brown_mushroom_block => 99,
            Material::red_mushroom_block => 100,
            Material::iron_bars => 101,
            Material::glass_pane => 102,
            Material::melon_block => 103,
            Material::pumpkin_stem => 104,
            Material::melon_stem => 105,
            Material::vine => 106,
            Material::fence_gate => 107,
            Material::brick_stairs => 108,
            Material::stone_brick_stairs => 109,
            Material::mycelium => 110,
            Material::waterlily => 111,
            Material::nether_brick => 112,
            Material::nether_brick_fence => 113,
            Material::nether_brick_stairs => 114,
            Material::nether_wart => 115,
            Material::enchanting_table => 116,
            Material::brewing_stand => 117,
            Material::cauldron => 118,
            Material::end_portal => 119,
            Material::end_portal_frame => 120,
            Material::end_stone => 121,
            Material::dragon_egg => 122,
            Material::redstone_lamp => 123,
            Material::lit_redstone_lamp => 124,
            Material::double_wooden_slab => 125,
            Material::wooden_slab => 126,
            Material::cocoa => 127,
            Material::sandstone_stairs => 128,
            Material::emerald_ore => 129,
            Material::ender_chest => 130,
            Material::tripwire_hook => 131,
            Material::tripwire => 132,
            Material::emerald_block => 133,
            Material::spruce_stairs => 134,
            Material::birch_stairs => 135,
            Material::jungle_stairs => 136,
            Material::command_block => 137,
            Material::beacon => 138,
            Material::cobblestone_wall => 139,
            Material::flower_pot => 140,
            Material::carrots => 141,
            Material::potatoes => 142,
            Material::wooden_button => 143,
            Material::skull => 144,
            Material::anvil => 145,
            Material::trapped_chest => 146,
            Material::light_weighted_pressure_plate => 147,
            Material::heavy_weighted_pressure_plate => 148,
            Material::unpowered_comparator => 149,
            Material::powered_comparator => 150,
            Material::daylight_detector => 151,
            Material::redstone_block => 152,
            Material::quartz_ore => 153,
            Material::hopper => 154,
            Material::quartz_block => 155,
            Material::quartz_stairs => 156,
            Material::activator_rail => 157,
            Material::dropper => 158,
            Material::stained_hardened_clay => 159,
            Material::stained_glass_pane => 160,
            Material::leaves2 => 161,
            Material::log2 => 162,
            Material::acacia_stairs => 163,
            Material::dark_oak_stairs => 164,
            Material::slime => 165,
            Material::barrier => 166,
            Material::iron_trapdoor => 167,
            Material::prismarine => 168,
            Material::sea_lantern => 169,
            Material::hay_block => 170,
            Material::carpet => 171,
            Material::hardened_clay => 172,
            Material::coal_block => 173,
            Material::packed_ice => 174,
            Material::double_plant => 175,
            Material::standing_banner => 176,
            Material::wall_banner => 177,
            Material::daylight_detector_inverted => 178,
            Material::red_sandstone => 179,
            Material::red_sandstone_stairs => 180,
            Material::double_stone_slab2 => 181,
            Material::stone_slab2 => 182,
            Material::spruce_fence_gate => 183,
            Material::birch_fence_gate => 184,
            Material::jungle_fence_gate => 185,
            Material::dark_oak_fence_gate => 186,
            Material::acacia_fence_gate => 187,
            Material::spruce_fence => 188,
            Material::birch_fence => 189,
            Material::jungle_fence => 190,
            Material::dark_oak_fence => 191,
            Material::acacia_fence => 192,
            Material::spruce_door => 193,
            Material::birch_door => 194,
            Material::jungle_door => 195,
            Material::acacia_door => 196,
            Material::dark_oak_door => 197,
            Material::end_rod => 198,
            Material::chorus_plant => 199,
            Material::chorus_flower => 200,
            Material::purpur_block => 201,
            Material::purpur_pillar => 202,
            Material::purpur_stairs => 203,
            Material::purpur_double_slab => 204,
            Material::purpur_slab => 205,
            Material::end_bricks => 206,
            Material::beetroots => 207,
            Material::grass_path => 208,
            Material::end_gateway => 209,
            Material::repeating_command_block => 210,
            Material::chain_command_block => 211,
            Material::frosted_ice => 212,
            Material::magma => 213,
            Material::nether_wart_block => 214,
            Material::red_nether_brick => 215,
            Material::bone_block => 216,
            Material::structure_void => 217,
            Material::observer => 218,
            Material::white_shulker_box => 219,
            Material::orange_shulker_box => 220,
            Material::magenta_shulker_box => 221,
            Material::light_blue_shulker_box => 222,
            Material::yellow_shulker_box => 223,
            Material::lime_shulker_box => 224,
            Material::pink_shulker_box => 225,
            Material::gray_shulker_box => 226,
            Material::light_gray_shulker_box => 227,
            Material::cyan_shulker_box => 228,
            Material::purple_shulker_box => 229,
            Material::blue_shulker_box => 230,
            Material::brown_shulker_box => 231,
            Material::green_shulker_box => 232,
            Material::red_shulker_box => 233,
            Material::black_shulker_box => 234,
            Material::white_glazed_terracotta => 235,
            Material::orange_glazed_terracotta => 236,
            Material::magenta_glazed_terracotta => 237,
            Material::light_blue_glazed_terracotta => 238,
            Material::yellow_glazed_terracotta => 239,
            Material::lime_glazed_terracotta => 240,
            Material::pink_glazed_terracotta => 241,
            Material::gray_glazed_terracotta => 242,
            Material::light_gray_glazed_terracotta => 243,
            Material::cyan_glazed_terracotta => 244,
            Material::purple_glazed_terracotta => 245,
            Material::blue_glazed_terracotta => 246,
            Material::brown_glazed_terracotta => 247,
            Material::green_glazed_terracotta => 248,
            Material::red_glazed_terracotta => 249,
            Material::black_glazed_terracotta => 250,
            Material::concrete => 251,
            Material::concrete_powder => 252,
            Material::structure_block => 253,
        }
    }

    /// The id that the block format stores for this material.
    pub fn id(self) -> (id: u8)
        ensures
            id == self.id_spec(),
    {
        match self {
            Material::structure_block => 255,
            other => other.ordinal(),
        }
    }

    /// The name of this material.
    pub fn name(self) -> (name: &'static str)
        ensures
            name@ == self.name_spec(),
    {
        match self {
            Material::air => "air",
            Material::stone => "stone",
            Material::grass => "grass",
            Material::dirt => "dirt",
            Material::cobblestone => "cobblestone",
            Material::planks => "planks",
            Material::sapling => "sapling",
            Material::bedrock => "bedrock",
            Material::flowing_water => "flowing_water",
            Material::water => "water",
            Material::flowing_lava => "flowing_lava",
            Material::lava => "lava",
            Material::sand => "sand",
            Material::gravel => "gravel",
            Material::gold_ore => "gold_ore",
            Material::iron_ore => "iron_ore",
            Material::coal_ore => "coal_ore",
            Material::log => "log",
            Material::leaves => "leaves",
            Material::sponge => "sponge",
            Material::glass => "glass",
            Material::lapis_ore => "lapis_ore",
            Material::lapis_block => "lapis_block",
            Material::dispenser => "dispenser",
            Material::sandstone => "sandstone",
            Material::noteblock => "noteblock",
            Material::bed => "bed",
            Material::golden_rail => "golden_rail",
            Material::detector_rail => "detector_rail",
            Material::sticky_piston => "sticky_piston",
            Material::web => "web",
            Material::tallgrass => "tallgrass",
            Material::deadbush => "deadbush",
            Material::piston => "piston",
            Material::piston_head => "piston_head",
            Material::wool => "wool",
            Material::piston_extension => "piston_extension",
            Material::yellow_flower => "yellow_flower",
            Material::red_flower => "red_flower",
            Material::brown_mushroom => "brown_mushroom",
            Material::red_mushroom => "red_mushroom",
            Material::gold_block => "gold_block",
            Material::iron_block => "iron_block",
            Material::double_stone_slab => "double_stone_slab",
            Material::stone_slab => "stone_slab",
            Material::brick_block => "brick_block",
            Material::tnt => "tnt",
            Material::bookshelf => "bookshelf",
            Material::mossy_cobblestone => "mossy_cobblestone",
            Material::obsidian => "obsidian",
            Material::torch => "torch",
            Material::fire => "fire",
            Material::mob_spawner => "mob_spawner",
            Material::oak_stairs => "oak_stairs",
            Material::chest => "chest",
            Material::redstone_wire => "redstone_wire",
            Material::diamond_ore => "diamond_ore",
            Material::diamond_block => "diamond_block",
            Material::crafting_table => "crafting_table",
            Material::wheat => "wheat",
            Material::farmland => "farmland",
            Material::furnace => "furnace",
            Material::lit_furnace => "lit_furnace",
            Material::standing_sign => "standing_sign",
            Material::wooden_door => "wooden_door",
            Material::ladder => "ladder",
            Material::rail => "rail",
            Material::stone_stairs => "stone_stairs",
            Material::wall_sign => "wall_sign",
            Material::lever => "lever",
            Material::stone_pressure_plate => "stone_pressure_plate",
            Material::iron_door => "iron_door",
            Material::wooden_pressure_plate => "wooden_pressure_plate",
            Material::redstone_ore => "redstone_ore",
            Material::lit_redstone_ore => "lit_redstone_ore",
            Material::unlit_redstone_torch => "unlit_redstone_torch",
            Material::redstone_torch => "redstone_torch",
            Material::stone_button => "stone_button",
            Material::snow_layer => "snow_layer",
            Material::ice => "ice",
            Material::snow => "snow",
            Material::cactus => "cactus",
            Material::clay => "clay",
            Material::reeds => "reeds",
            Material::jukebox => "jukebox",
            Material::fence => "fence",
            Material::pumpkin => "pumpkin",
            Material::netherrack => "netherrack",
            Material::soul_sand => "soul_sand",
            Material::glowstone => "glowstone",
            Material::portal => "portal",
            Material::lit_pumpkin => "lit_pumpkin",
            Material::cake => "cake",
            Material::unpowered_repeater => "unpowered_repeater",
            Material::powered_repeater => "powered_repeater",
            Material::stained_glass => "stained_glass",
            Material::trapdoor => "trapdoor",
            Material::monster_egg => "monster_egg",
            Material::stonebrick => "stonebrick",
            Material::brown_mushroom_block => "brown_mushroom_block",
            Material::red_mushroom_block => "red_mushroom_block",
            Material::iron_bars => "iron_bars",
            Material::glass_pane => "glass_pane",
            Material::melon_block => "melon_block",
            Material::pumpkin_stem => "pumpkin_stem",
            Material::melon_stem => "melon_stem",
            Material::vine => "vine",
            Material::fence_gate => "fence_gate",
            Material::brick_stairs => "brick_stairs",
            Material::stone_brick_stairs => "stone_brick_stairs",
            Material::mycelium => "mycelium",
            Material::waterlily => "waterlily",
            Material::nether_brick => "nether_brick",
            Material::nether_brick_fence => "nether_brick_fence",
            Material::nether_brick_stairs => "nether_brick_stairs",
            Material::nether_wart => "nether_wart",
            Material::enchanting_table => "enchanting_table",
            Material::brewing_stand => "brewing_stand",
            Material::cauldron => "cauldron",
            Material::end_portal => "end_portal",
            Material::end_portal_frame => "end_portal_frame",
            Material::end_stone => "end_stone",
            Material::dragon_egg => "dragon_egg",
            Material::redstone_lamp => "redstone_lamp",
            Material::lit_redstone_lamp => "lit_redstone_lamp",
            Material::double_wooden_slab => "double_wooden_slab",
            Material::wooden_slab => "wooden_slab",
            Material::cocoa => "cocoa",
            Material::sandstone_stairs => "sandstone_stairs",
            Material::emerald_ore => "emerald_ore",
            Material::ender_chest => "ender_chest",
            Material::tripwire_hook => "tripwire_hook",
            Material::tripwire => "tripwire",
            Material::emerald_block => "emerald_block",
            Material::spruce_stairs => "spruce_stairs",
            Material::birch_stairs => "birch_stairs",
            Material::jungle_stairs => "jungle_stairs",
            Material::command_block => "command_block",
            Material::beacon => "beacon",
            Material::cobblestone_wall => "cobblestone_wall",
            Material::flower_pot => "flower_pot",
            Material::carrots => "carrots",
            Material::potatoes => "potatoes",
            Material::wooden_button => "wooden_button",
            Material::skull => "skull",
            Material::anvil => "anvil",
            Material::trapped_chest => "trapped_chest",
            Material::light_weighted_pressure_plate => "light_weighted_pressure_plate",
            Material::heavy_weighted_pressure_plate => "heavy_weighted_pressure_plate",
            Material::unpowered_comparator => "unpowered_comparator",
            Material::powered_comparator => "powered_comparator",
            Material::daylight_detector => "daylight_detector",
            Material::redstone_block => "redstone_block",
            Material::quartz_ore => "quartz_ore",
            Material::hopper => "hopper",
            Material::quartz_block => "quartz_block",
            Material::quartz_stairs => "quartz_stairs",
            Material::activator_rail => "activator_rail",
            Material::dropper => "dropper",
            Material::stained_hardened_clay => "stained_hardened_clay",
            Material::stained_glass_pane => "stained_glass_pane",
            Material::leaves2 => "leaves2",
            Material::log2 => "log2",
            Material::acacia_stairs => "acacia_stairs",
            Material::dark_oak_stairs => "dark_oak_stairs",
            Material::slime => "slime",
            Material::barrier => "barrier",
            Material::iron_trapdoor => "iron_trapdoor",
            Material::prismarine => "prismarine",
            Material::sea_lantern => "sea_lantern",
            Material::hay_block => "hay_block",
            Material::carpet => "carpet",
            Material::hardened_clay => "hardened_clay",
            Material::coal_block => "coal_block",
            Material::packed_ice => "packed_ice",
            Material::double_plant => "double_plant",
            Material::standing_banner => "standing_banner",
            Material::wall_banner => "wall_banner",
            Material::daylight_detector_inverted => "daylight_detector_inverted",
            Material::red_sandstone => "red_sandstone",
            Material::red_sandstone_stairs => "red_sandstone_stairs",
            Material::double_stone_slab2 => "double_stone_slab2",
            Material::stone_slab2 => "stone_slab2",
            Material::spruce_fence_gate => "spruce_fence_gate",
            Material::birch_fence_gate => "birch_fence_gate",
            Material::jungle_fence_gate => "jungle_fence_gate",
            Material::dark_oak_fence_gate => "dark_oak_fence_gate",
            Material::acacia_fence_gate => "acacia_fence_gate",
            Material::spruce_fence => "spruce_fence",
            Material::birch_fence => "birch_fence",
            Material::jungle_fence => "jungle_fence",
            Material::dark_oak_fence => "dark_oak_fence",
            Material::acacia_fence => "acacia_fence",
            Material::spruce_door => "spruce_door",
            Material::birch_door => "birch_door",
            Material::jungle_door => "jungle_door",
            Material::acacia_door => "acacia_door",
            Material::dark_oak_door => "dark_oak_door",
            Material::end_rod => "end_rod",
            Material::chorus_plant => "chorus_plant",
            Material::chorus_flower => "chorus_flower",
            Material::purpur_block => "purpur_block",
            Material::purpur_pillar => "purpur_pillar",
            Material::purpur_stairs => "purpur_stairs",
            Material::purpur_double_slab => "purpur_double_slab",
            Material::purpur_slab => "purpur_slab",
            Material::end_bricks => "end_bricks",
            Material::beetroots => "beetroots",
            Material::grass_path => "grass_path",
            Material::end_gateway => "end_gateway",
            Material::repeating_command_block => "repeating_command_block",
            Material::chain_command_block => "chain_command_block",
            Material::frosted_ice => "frosted_ice",
            Material::magma => "magma",
            Material::nether_wart_block => "nether_wart_block",
            Material::red_nether_brick => "red_nether_brick",
            Material::bone_block => "bone_block",
            Material::structure_void => "structure_void",
            Material::observer => "observer",
            Material::white_shulker_box => "white_shulker_box",
            Material::orange_shulker_box => "orange_shulker_box",
            Material::magenta_shulker_box => "magenta_shulker_box",
            Material::light_blue_shulker_box => "light_blue_shulker_box",
            Material::yellow_shulker_box => "yellow_shulker_box",
            Material::lime_shulker_box => "lime_shulker_box",
            Material::pink_shulker_box => "pink_shulker_box",
            Material::gray_shulker_box => "gray_shulker_box",
            Material::light_gray_shulker_box => "light_gray_shulker_box",
            Material::cyan_shulker_box => "cyan_shulker_box",
            Material::purple_shulker_box => "purple_shulker_box",
            Material::blue_shulker_box => "blue_shulker_box",
            Material::brown_shulker_box => "brown_shulker_box",
            Material::green_shulker_box => "green_shulker_box",
            Material::red_shulker_box => "red_shulker_box",
            Material::black_shulker_box => "black_shulker_box",
            Material::white_glazed_terracotta => "white_glazed_terracotta",
            Material::orange_glazed_terracotta => "orange_glazed_terracotta",
            Material::magenta_glazed_terracotta => "magenta_glazed_terracotta",
            Material::light_blue_glazed_terracotta => "light_blue_glazed_terracotta",
            Material::yellow_glazed_terracotta => "yellow_glazed_terracotta",
            Material::lime_glazed_terracotta => "lime_glazed_terracotta",
            Material::pink_glazed_terracotta => "pink_glazed_terracotta",
            Material::gray_glazed_terracotta => "gray_glazed_terracotta",
            Material::light_gray_glazed_terracotta => "light_gray_glazed_terracotta",
            Material::cyan_glazed_terracotta => "cyan_glazed_terracotta",
            Material::purple_glazed_terracotta => "purple_glazed_terracotta",
            Material::blue_glazed_terracotta => "blue_glazed_terracotta",
            Material::brown_glazed_terracotta => "brown_glazed_terracotta",
            Material::green_glazed_terracotta => "green_glazed_terracotta",
            Material::red_glazed_terracotta => "red_glazed_terracotta",
            Material::black_glazed_terracotta => "black_glazed_terracotta",
            Material::concrete => "concrete",
            Material::concrete_powder => "concrete_powder",
            Material::structure_block => "structure_block",
        }
    }

    /// The material at a table position, if the table is that long.
    #[verifier::rlimit(100)]
    pub fn from_ordinal(n: u8) -> (material: Option<Material>)
        ensures
            match material {
                Some(m) => m.ordinal_spec() == n,
                None => n >= MATERIAL_COUNT,
            },
    {
        match n {
            0 => Some(Material::air),
            1 => Some(Material::stone),
            2 => Some(Material::grass),
            3 => Some(Material::dirt),
            4 => Some(Material::cobblestone),
            5 => Some(Material::planks),
            6 => Some(Material::sapling),
            7 => Some(Material::bedrock),
            8 => Some(Material::flowing_water),
            9 => Some(Material::water),
            10 => Some(Material::flowing_lava),
            11 => Some(Material::lava),
            12 => Some(Material::sand),
            13 => Some(Material::gravel),
            14 => Some(Material::gold_ore),
            15 => Some(Material::iron_ore),
            16 => Some(Material::coal_ore),
            17 => Some(Material::log),
            18 => Some(Material::leaves),
            19 => Some(Material::sponge),
            20 => Some(Material::glass),
            21 => Some(Material::lapis_ore),
            22 => Some(Material::lapis_block),
            23 => Some(Material::dispenser),
            24 => Some(Material::sandstone),
            25 => Some(Material::noteblock),
            26 => Some(Material::bed),
            27 => Some(Material::golden_rail),
            28 => Some(Material::detector_rail),
            29 => Some(Material::sticky_piston),
            30 => Some(Material::web),
            31 => Some(Material::tallgrass),
            32 => Some(Material::deadbush),
            33 => Some(Material::piston),
            34 => Some(Material::piston_head),
            35 => Some(Material::wool),
            36 => Some(Material::piston_extension),
            37 => Some(Material::yellow_flower),
            38 => Some(Material::red_flower),
            39 => Some(Material::brown_mushroom),
            40 => Some(Material::red_mushroom),
            41 => Some(Material::gold_block),
            42 => Some(Material::iron_block),
            43 => Some(Material::double_stone_slab),
            44 => Some(Material::stone_slab),
            45 => Some(Material::brick_block),
            46 => Some(Material::tnt),
            47 => Some(Material::bookshelf),
            48 => Some(Material::mossy_cobblestone),
            49 => Some(Material::obsidian),
            50 => Some(Material::torch),
            51 => Some(Material::fire),
            52 => Some(Material::mob_spawner),
            53 => Some(Material::oak_stairs),
            54 => Some(Material::chest),
            55 => Some(Material::redstone_wire),
            56 => Some(Material::diamond_ore),
            57 => Some(Material::diamond_block),
            58 => Some(Material::crafting_table),
            59 => Some(Material::wheat),
            60 => Some(Material::farmland),
            61 => Some(Material::furnace),
            62 => Some(Material::lit_furnace),
            63 => Some(Material::standing_sign),
            64 => Some(Material::wooden_door),
            65 => Some(Material::ladder),
            66 => Some(Material::rail),
            67 => Some(Material::stone_stairs),
            68 => Some(Material::wall_sign),
            69 => Some(Material::lever),
            70 => Some(Material::stone_pressure_plate),
            71 => Some(Material::iron_door),
            72 => Some(Material::wooden_pressure_plate),
            73 => Some(Material::redstone_ore),
            74 => Some(Material::lit_redstone_ore),
            75 => Some(Material::unlit_redstone_torch),
            76 => Some(Material::redstone_torch),
            77 => Some(Material::stone_button),
            78 => Some(Material::snow_layer),
            79 => Some(Material::ice),
            80 => Some(Material::snow),
            81 => Some(Material::cactus),
            82 => Some(Material::clay),
            83 => Some(Material::reeds),
            84 => Some(Material::jukebox),
            85 => Some(Material::fence),
            86 => Some(Material::pumpkin),
            87 => Some(Material::netherrack),
            88 => Some(Material::soul_sand),
            89 => Some(Material::glowstone),
            90 => Some(Material::portal),
            91 => Some(Material::lit_pumpkin),
            92 => Some(Material::cake),
            93 => Some(Material::unpowered_repeater),
            94 => Some(Material::powered_repeater),
            95 => Some(Material::stained_glass),
            96 => Some(Material::trapdoor),
            97 => Some(Material::monster_egg),
            98 => Some(Material::stonebrick),
            99 => Some(Material::brown_mushroom_block),
            100 => Some(Material::red_mushroom_block),
            101 => Some(Material::iron_bars),
            102 => Some(Material::glass_pane),
            103 => Some(Material::melon_block),
            104 => Some(Material::pumpkin_stem),
            105 => Some(Material::melon_stem),
            106 => Some(Material::vine),
            107 => Some(Material::fence_gate),
            108 => Some(Material::brick_stairs),
            109 => Some(Material::stone_brick_stairs),
            110 => Some(Material::mycelium),
            111 => Some(Material::waterlily),
            112 => Some(Material::nether_brick),
            113 => Some(Material::nether_brick_fence),
            114 => Some(Material::nether_brick_stairs),
            115 => Some(Material::nether_wart),
            116 => Some(Material::enchanting_table),
            117 => Some(Material::brewing_stand),
            118 => Some(Material::cauldron),
            119 => Some(Material::end_portal),
            120 => Some(Material::end_portal_frame),
            121 => Some(Material::end_stone),
            122 => Some(Material::dragon_egg),
            123 => Some(Material::redstone_lamp),
            124 => Some(Material::lit_redstone_lamp),
            125 => Some(Material::double_wooden_slab),
            126 => Some(Material::wooden_slab),
            127 => Some(Material::cocoa),
            128 => Some(Material::sandstone_stairs),
            129 => Some(Material::emerald_ore),
            130 => Some(Material::ender_chest),
            131 => Some(Material::tripwire_hook),
            132 => Some(Material::tripwire),
            133 => Some(Material::emerald_block),
            134 => Some(Material::spruce_stairs),
            135 => Some(Material::birch_stairs),
            136 => Some(Material::jungle_stairs),
            137 => Some(Material::command_block),
            138 => Some(Material::beacon),
            139 => Some(Material::cobblestone_wall),
            140 => Some(Material::flower_pot),
            141 => Some(Material::carrots),
            142 => Some(Material::potatoes),
            143 => Some(Material::wooden_button),
            144 => Some(Material::skull),
            145 => Some(Material::anvil),
            146 => Some(Material::trapped_chest),
            147 => Some(Material::light_weighted_pressure_plate),
            148 => Some(Material::heavy_weighted_pressure_plate),
            149 => Some(Material::unpowered_comparator),
            150 => Some(Material::powered_comparator),
            151 => Some(Material::daylight_detector),
            152 => Some(Material::redstone_block),
            153 => Some(Material::quartz_ore),
            154 => Some(Material::hopper),
            155 => Some(Material::quartz_block),
            156 => Some(Material::quartz_stairs),
            157 => Some(Material::activator_rail),
            158 => Some(Material::dropper),
            159 => Some(Material::stained_hardened_clay),
            160 => Some(Material::stained_glass_pane),
            161 => Some(Material::leaves2),
            162 => Some(Material::log2),
            163 => Some(Material::acacia_stairs),
            164 => Some(Material::dark_oak_stairs),
            165 => Some(Material::slime),
            166 => Some(Material::barrier),
            167 => Some(Material::iron_trapdoor),
            168 => Some(Material::prismarine),
            169 => Some(Material::sea_lantern),
            170 => Some(Material::hay_block),
            171 => Some(Material::carpet),
            172 => Some(Material::hardened_clay),
            173 => Some(Material::coal_block),
            174 => Some(Material::packed_ice),
            175 => Some(Material::double_plant),
            176 => Some(Material::standing_banner),
            177 => Some(Material::wall_banner),
            178 => Some(Material::daylight_detector_inverted),
            179 => Some(Material::red_sandstone),
            180 => Some(Material::red_sandstone_stairs),
            181 => Some(Material::double_stone_slab2),
            182 => Some(Material::stone_slab2),
            183 => Some(Material::spruce_fence_gate),
            184 => Some(Material::birch_fence_gate),
            185 => Some(Material::jungle_fence_gate),
            186 => Some(Material::dark_oak_fence_gate),
            187 => Some(Material::acacia_fence_gate),
            188 => Some(Material::spruce_fence),
            189 => Some(Material::birch_fence),
            190 => Some(Material::jungle_fence),
            191 => Some(Material::dark_oak_fence),
            192 => Some(Material::acacia_fence),
            193 => Some(Material::spruce_door),
            194 => Some(Material::birch_door),
            195 => Some(Material::jungle_door),
            196 => Some(Material::acacia_door),
            197 => Some(Material::dark_oak_door),
            198 => Some(Material::end_rod),
            199 => Some(Material::chorus_plant),
            200 => Some(Material::chorus_flower),
            201 => Some(Material::purpur_block),
            202 => Some(Material::purpur_pillar),
            203 => Some(Material::purpur_stairs),
            204 => Some(Material::purpur_double_slab),
            205 => Some(Material::purpur_slab),
            206 => Some(Material::end_bricks),
            207 => Some(Material::beetroots),
            208 => Some(Material::grass_path),
            209 => Some(Material::end_gateway),
            210 => Some(Material::repeating_command_block),
            211 => Some(Material::chain_command_block),
            212 => Some(Material::frosted_ice),
            213 => Some(Material::magma),
            214 => Some(Material::nether_wart_block),
            215 => Some(Material::red_nether_brick),
            216 => Some(Material::bone_block),
            217 => Some(Material::structure_void),
            218 => Some(Material::observer),
            219 => Some(Material::white_shulker_box),
            220 => Some(Material::orange_shulker_box),
            221 => Some(Material::magenta_shulker_box),
            222 => Some(Material::light_blue_shulker_box),
            223 => Some(Material::yellow_shulker_box),
            224 => Some(Material::lime_shulker_box),
            225 => Some(Material::pink_shulker_box),
            226 => Some(Material::gray_shulker_box),
            227 => Some(Material::light_gray_shulker_box),
            228 => Some(Material::cyan_shulker_box),
            229 => Some(Material::purple_shulker_box),
            230 => Some(Material::blue_shulker_box),
            231 => Some(Material::brown_shulker_box),
            232 => Some(Material::green_shulker_box),
            233 => Some(Material::red_shulker_box),
            234 => Some(Material::black_shulker_box),
            235 => Some(Material::white_glazed_terracotta),
            236 => Some(Material::orange_glazed_terracotta),
            237 => Some(Material::magenta_glazed_terracotta),
            238 => Some(Material::light_blue_glazed_terracotta),
            239 => Some(Material::yellow_glazed_terracotta),
            240 => Some(Material::lime_glazed_terracotta),
            241 => Some(Material::pink_glazed_terracotta),
            242 => Some(Material::gray_glazed_terracotta),
            243 => Some(Material::light_gray_glazed_terracotta),
            244 => Some(Material::cyan_glazed_terracotta),
            245 => Some(Material::purple_glazed_terracotta),
            246 => Some(Material::blue_glazed_terracotta),
            247 => Some(Material::brown_glazed_terracotta),
            248 => Some(Material::green_glazed_terracotta),
            249 => Some(Material::red_glazed_terracotta),
            250 => Some(Material::black_glazed_terracotta),
            251 => Some(Material::concrete),
            252 => Some(Material::concrete_powder),
            253 => Some(Material::structure_block),
            _ => None,
        }
    }

    /// Every material, in table order.
    pub fn iter() -> (all: Vec<Material>)
        ensures
            all@.len() == MATERIAL_COUNT,
            forall|i: int| 0 <= i < all@.len() ==> (#[trigger] all@[i]).ordinal_spec() == i,
    {
        let mut all: Vec<Material> = Vec::with_capacity(MATERIAL_COUNT as usize);
        let mut n: u8 = 0;
        while n < MATERIAL_COUNT
            invariant
                n <= MATERIAL_COUNT,
                all@.len() == n,
                forall|i: int| 0 <= i < all@.len() ==> (#[trigger] all@[i]).ordinal_spec() == i,
            decreases MATERIAL_COUNT - n,
        {
            match Material::from_ordinal(n) {
                Some(m) => {
                    all.push(m);
                },
                None => {},
            }
            n += 1;
        }
        all
    }

    /// Builds the name table. Done once, before the first lookup.
    pub fn init_string_map() -> (map: MaterialMap)
        ensures
            map@.len() == MATERIAL_COUNT,
            forall|m: Material| map@[#[trigger] m.ordinal_spec()] == m.name_spec(),
    {
        let mut names: Vec<String> = Vec::with_capacity(MATERIAL_COUNT as usize);
        let mut n: u8 = 0;
        while n < MATERIAL_COUNT
            invariant
                n <= MATERIAL_COUNT,
                names@.len() == n,
                forall|m: Material|
                    0 <= #[trigger] m.ordinal_spec() < n ==> names@[m.ordinal_spec()]@
                        == m.name_spec(),
            decreases MATERIAL_COUNT - n,
        {
            match Material::from_ordinal(n) {
                Some(m) => {
                    names.push(m.name().to_owned());
                    proof {
                        lemma_ordinal_injective();
                    }
                },
                None => {},
            }
            n += 1;
        }
        proof {
            assert forall|m: Material| names@[#[trigger] m.ordinal_spec()]@ == m.name_spec() by {
                lemma_ordinal_in_range(m);
            }
        }
        MaterialMap { names }
    }

    /// Looks a material up by its exact name.
    pub fn try_from(map: &MaterialMap, value: &str) -> (found: Result<Material, UnknownMaterial>)
        ensures
            match found {
                Ok(m) => m.name_spec() == value@ && forall|o: Material|
                    o.name_spec() == value@ ==> m.ordinal_spec() <= #[trigger] o.ordinal_spec(),
                Err(e) => e.0@ == value@ && forall|o: Material| #[trigger]
                    o.name_spec() != value@,
            },
    {
        proof {
            use_type_invariant(map);
        }
        let wanted: String = value.to_owned();
        let mut n: u8 = 0;
        while n < MATERIAL_COUNT
            invariant
                n <= MATERIAL_COUNT,
                wanted@ == value@,
                map.names@.len() == MATERIAL_COUNT,
                forall|m: Material| #[trigger]
                    map.names@[m.ordinal_spec()]@ == m.name_spec(),
                forall|o: Material|
                    0 <= #[trigger] o.ordinal_spec() < n ==> o.name_spec() != value@,
            decreases MATERIAL_COUNT - n,
        {
            match Material::from_ordinal(n) {
                Some(m) => {
                    if map.names[n as usize] == wanted {
                        return Ok(m);
                    }
                    proof {
                        lemma_ordinal_injective();
                    }
                },
                None => {},
            }
            n += 1;
        }
        proof {
            assert forall|o: Material| #[trigger] o.name_spec() != value@ by {
                lemma_ordinal_in_range(o);
            }
        }
        Err(UnknownMaterial(wanted))
    }
}

/// Every material has a position within the table.
pub proof fn lemma_ordinal_in_range(m: Material)
    ensures
        0 <= m.ordinal_spec() < MATERIAL_COUNT,
{
}

/// No two materials share a table position.
pub proof fn lemma_ordinal_injective()
    ensures
        forall|a: Material, b: Material|
            #[trigger] a.ordinal_spec() == #[trigger] b.ordinal_spec() ==> a == b,
{
}

/// What tells the material names apart: the length, the first two
/// characters, the seventh, and the fourth from the end.
pub open spec fn name_marks(name: Seq<char>) -> (nat, char, char, char, char) {
    (
        name.len(),
        name[0],
        name[1],
        if name.len() > 6 {
            name[6]
        } else {
            ' '
        },
        if name.len() >= 4 {
            name[name.len() - 4]
        } else {
            ' '
        },
    )
}

/// No two materials share a name.
#[verifier::rlimit(100)]
pub proof fn lemma_names_distinct(a: Material, b: Material)
    requires
        a.name_spec() == b.name_spec(),
    ensures
        a == b,
{
    reveal_strlit("air");
    reveal_strlit("stone");
    reveal_strlit("grass");
    reveal_strlit("dirt");
    reveal_strlit("cobblestone");
    reveal_strlit("planks");
    reveal_strlit("sapling");
    reveal_strlit("bedrock");
    reveal_strlit("flowing_water");
    reveal_strlit("water");
    reveal_strlit("flowing_lava");
    reveal_strlit("lava");
    reveal_strlit("sand");
    reveal_strlit("gravel");
    reveal_strlit("gold_ore");
    reveal_strlit("iron_ore");
    reveal_strlit("coal_ore");
    reveal_strlit("log");
    reveal_strlit("leaves");
    reveal_strlit("sponge");
    reveal_strlit("glass");
    reveal_strlit("lapis_ore");
    reveal_strlit("lapis_block");
    reveal_strlit("dispenser");
    reveal_strlit("sandstone");
    reveal_strlit("noteblock");
    reveal_strlit("bed");
    reveal_strlit("golden_rail");
    reveal_strlit("detector_rail");
    reveal_strlit("sticky_piston");
    reveal_strlit("web");
    reveal_strlit("tallgrass");
    reveal_strlit("deadbush");
    reveal_strlit("piston");
    reveal_strlit("piston_head");
    reveal_strlit("wool");
    reveal_strlit("piston_extension");
    reveal_strlit("yellow_flower");
    reveal_strlit("red_flower");
    reveal_strlit("brown_mushroom");
    reveal_strlit("red_mushroom");
    reveal_strlit("gold_block");
    reveal_strlit("iron_block");
    reveal_strlit("double_stone_slab");
    reveal_strlit("stone_slab");
    reveal_strlit("brick_block");
    reveal_strlit("tnt");
    reveal_strlit("bookshelf");
    reveal_strlit("mossy_cobblestone");
    reveal_strlit("obsidian");
    reveal_strlit("torch");
    reveal_strlit("fire");
    reveal_strlit("mob_spawner");
    reveal_strlit("oak_stairs");
    reveal_strlit("chest");
    reveal_strlit("redstone_wire");
    reveal_strlit("diamond_ore");
    reveal_strlit("diamond_block");
    reveal_strlit("crafting_table");
    reveal_strlit("wheat");
    reveal_strlit("farmland");
    reveal_strlit("furnace");
    reveal_strlit("lit_furnace");
    reveal_strlit("standing_sign");
    reveal_strlit("wooden_door");
    reveal_strlit("ladder");
    reveal_strlit("rail");
    reveal_strlit("stone_stairs");
    reveal_strlit("wall_sign");
    reveal_strlit("lever");
    reveal_strlit("stone_pressure_plate");
    reveal_strlit("iron_door");
    reveal_strlit("wooden_pressure_plate");
    reveal_strlit("redstone_ore");
    reveal_strlit("lit_redstone_ore");
    reveal_strlit("unlit_redstone_torch");
    reveal_strlit("redstone_torch");
    reveal_strlit("stone_button");
    reveal_strlit("snow_layer");
    reveal_strlit("ice");
    reveal_strlit("snow");
    reveal_strlit("cactus");
    reveal_strlit("clay");
    reveal_strlit("reeds");
    reveal_strlit("jukebox");
    reveal_strlit("fence");
    reveal_strlit("pumpkin");
    reveal_strlit("netherrack");
    reveal_strlit("soul_sand");
    reveal_strlit("glowstone");
    reveal_strlit("portal");
    reveal_strlit("lit_pumpkin");
    reveal_strlit("cake");
    reveal_strlit("unpowered_repeater");
    reveal_strlit("powered_repeater");
    reveal_strlit("stained_glass");
    reveal_strlit("trapdoor");
    reveal_strlit("monster_egg");
    reveal_strlit("stonebrick");
    reveal_strlit("brown_mushroom_block");
    reveal_strlit("red_mushroom_block");
    reveal_strlit("iron_bars");
    reveal_strlit("glass_pane");
    reveal_strlit("melon_block");
    reveal_strlit("pumpkin_stem");
    reveal_strlit("melon_stem");
    reveal_strlit("vine");
    reveal_strlit("fence_gate");
    reveal_strlit("brick_stairs");
    reveal_strlit("stone_brick_stairs");
    reveal_strlit("mycelium");
    reveal_strlit("waterlily");
    reveal_strlit("nether_brick");
    reveal_strlit("nether_brick_fence");
    reveal_strlit("nether_brick_stairs");
    reveal_strlit("nether_wart");
    reveal_strlit("enchanting_table");
    reveal_strlit("brewing_stand");
    reveal_strlit("cauldron");
    reveal_strlit("end_portal");
    reveal_strlit("end_portal_frame");
    reveal_strlit("end_stone");
    reveal_strlit("dragon_egg");
    reveal_strlit("redstone_lamp");
    reveal_strlit("lit_redstone_lamp");
    reveal_strlit("double_wooden_slab");
    reveal_strlit("wooden_slab");
    reveal_strlit("cocoa");
    reveal_strlit("sandstone_stairs");
    reveal_strlit("emerald_ore");
    reveal_strlit("ender_chest");
    reveal_strlit("tripwire_hook");
    reveal_strlit("tripwire");
    reveal_strlit("emerald_block");
    reveal_strlit("spruce_stairs");
    reveal_strlit("birch_stairs");
    reveal_strlit("jungle_stairs");
    reveal_strlit("command_block");
    reveal_strlit("beacon");
    reveal_strlit("cobblestone_wall");
    reveal_strlit("flower_pot");
    reveal_strlit("carrots");
    reveal_strlit("potatoes");
    reveal_strlit("wooden_button");
    reveal_strlit("skull");
    reveal_strlit("anvil");
    reveal_strlit("trapped_chest");
    reveal_strlit("light_weighted_pressure_plate");
    reveal_strlit("heavy_weighted_pressure_plate");
    reveal_strlit("unpowered_comparator");
    reveal_strlit("powered_comparator");
    reveal_strlit("daylight_detector");
    reveal_strlit("redstone_block");
    reveal_strlit("quartz_ore");
    reveal_strlit("hopper");
    reveal_strlit("quartz_block");
    reveal_strlit("quartz_stairs");
    reveal_strlit("activator_rail");
    reveal_strlit("dropper");
    reveal_strlit("stained_hardened_clay");
    reveal_strlit("stained_glass_pane");
    reveal_strlit("leaves2");
    reveal_strlit("log2");
    reveal_strlit("acacia_stairs");
    reveal_strlit("dark_oak_stairs");
    reveal_strlit("slime");
    reveal_strlit("barrier");
    reveal_strlit("iron_trapdoor");
    reveal_strlit("prismarine");
    reveal_strlit("sea_lantern");
    reveal_strlit("hay_block");
    reveal_strlit("carpet");
    reveal_strlit("hardened_clay");
    reveal_strlit("coal_block");
    reveal_strlit("packed_ice");
    reveal_strlit("double_plant");
    reveal_strlit("standing_banner");
    reveal_strlit("wall_banner");
    reveal_strlit("daylight_detector_inverted");
    reveal_strlit("red_sandstone");
    reveal_strlit("red_sandstone_stairs");
    reveal_strlit("double_stone_slab2");
    reveal_strlit("stone_slab2");
    reveal_strlit("spruce_fence_gate");
    reveal_strlit("birch_fence_gate");
    reveal_strlit("jungle_fence_gate");
    reveal_strlit("dark_oak_fence_gate");
    reveal_strlit("acacia_fence_gate");
    reveal_strlit("spruce_fence");
    reveal_strlit("birch_fence");
    reveal_strlit("jungle_fence");
    reveal_strlit("dark_oak_fence");
    reveal_strlit("acacia_fence");
    reveal_strlit("spruce_door");
    reveal_strlit("birch_door");
    reveal_strlit("jungle_door");
    reveal_strlit("acacia_door");
    reveal_strlit("dark_oak_door");
    reveal_strlit("end_rod");
    reveal_strlit("chorus_plant");
    reveal_strlit("chorus_flower");
    reveal_strlit("purpur_block");
    reveal_strlit("purpur_pillar");
    reveal_strlit("purpur_stairs");
    reveal_strlit("purpur_double_slab");
    reveal_strlit("purpur_slab");
    reveal_strlit("end_bricks");
    reveal_strlit("beetroots");
    reveal_strlit("grass_path");
    reveal_strlit("end_gateway");
    reveal_strlit("repeating_command_block");
    reveal_strlit("chain_command_block");
    reveal_strlit("frosted_ice");
    reveal_strlit("magma");
    reveal_strlit("nether_wart_block");
    reveal_strlit("red_nether_brick");
    reveal_strlit("bone_block");
    reveal_strlit("structure_void");
    reveal_strlit("observer");
    reveal_strlit("white_shulker_box");
    reveal_strlit("orange_shulker_box");
    reveal_strlit("magenta_shulker_box");
    reveal_strlit("light_blue_shulker_box");
    reveal_strlit("yellow_shulker_box");
    reveal_strlit("lime_shulker_box");
    reveal_strlit("pink_shulker_box");
    reveal_strlit("gray_shulker_box");
    reveal_strlit("light_gray_shulker_box");
    reveal_strlit("cyan_shulker_box");
    reveal_strlit("purple_shulker_box");
    reveal_strlit("blue_shulker_box");
    reveal_strlit("brown_shulker_box");
    reveal_strlit("green_shulker_box");
    reveal_strlit("red_shulker_box");
    reveal_strlit("black_shulker_box");
    reveal_strlit("white_glazed_terracotta");
    reveal_strlit("orange_glazed_terracotta");
    reveal_strlit("magenta_glazed_terracotta");
    reveal_strlit("light_blue_glazed_terracotta");
    reveal_strlit("yellow_glazed_terracotta");
    reveal_strlit("lime_glazed_terracotta");
    reveal_strlit("pink_glazed_terracotta");
    reveal_strlit("gray_glazed_terracotta");
    reveal_strlit("light_gray_glazed_terracotta");
    reveal_strlit("cyan_glazed_terracotta");
    reveal_strlit("purple_glazed_terracotta");
    reveal_strlit("blue_glazed_terracotta");
    reveal_strlit("brown_glazed_terracotta");
    reveal_strlit("green_glazed_terracotta");
    reveal_strlit("red_glazed_terracotta");
    reveal_strlit("black_glazed_terracotta");
    reveal_strlit("concrete");
    reveal_strlit("concrete_powder");
    reveal_strlit("structure_block");
    assert(name_marks(a.name_spec()) == name_marks(b.name_spec()));
}

/// Looking a material up by its own name finds that material: a lookup that
/// answers with a material of that name, or with an error only if no material
/// bears the name, answers with the material itself.
pub proof fn lemma_name_round_trip(m: Material, found: Result<Material, UnknownMaterial>)
    requires
        found matches Ok(r) ==> r.name_spec() == m.name_spec(),
        found is Err ==> forall|o: Material| #[trigger] o.name_spec() != m.name_spec(),
    ensures
        found == Ok::<Material, UnknownMaterial>(m),
{
    match found {
        Ok(r) => {
            lemma_names_distinct(r, m);
        },
        Err(_) => {
            let name = m.name_spec();
            assert(name != m.name_spec());
        },
    }
}

impl View for MaterialMap {
    type V = Seq<Seq<char>>;

    /// The names, by table position.
    closed spec fn view(&self) -> Seq<Seq<char>> {
        Seq::new(self.names@.len(), |i: int| self.names@[i]@)
    }
}

impl MaterialMap {
    #[verifier::type_invariant]
    spec fn holds_every_name(self) -> bool {
        &&& self.names@.len() == MATERIAL_COUNT
        &&& forall|m: Material| #[trigger] self.names@[m.ordinal_spec()]@ == m.name_spec()
    }
}

impl Block {
    /// The block of `material` with auxiliary data `data`.
    pub closed spec fn made(material: Material, data: u8) -> Block {
        Block { material, data }
    }

    /// A block of `material` with auxiliary data 0.
    pub fn new(material: Material) -> (block: Block)
        ensures
            block == Block::made(material, 0),
            block.material_spec() == material,
            block.data_spec() == 0,
    {
        Block { material, data: 0 }
    }

    /// A block of `material` with the given auxiliary data.
    pub fn new_with_data(material: Material, data: u8) -> (block: Block)
        ensures
            block == Block::made(material, data),
            block.material_spec() == material,
            block.data_spec() == data,
    {
        Block { material, data }
    }

    pub closed spec fn material_spec(self) -> Material {
        self.material
    }

    pub closed spec fn data_spec(self) -> u8 {
        self.data
    }

    pub fn material(self) -> (material: Material)
        ensures
            material == self.material_spec(),
    {
        self.material
    }

    pub fn data(self) -> (data: u8)
        ensures
            data == self.data_spec(),
    {
        self.data
    }
}

/// A block is its material and its data: two blocks that agree in both are
/// the same block, and each block is the one made of its two parts.
pub proof fn lemma_block_extensional(a: Block, b: Block)
    ensures
        a.material_spec() == b.material_spec() && a.data_spec() == b.data_spec() <==> a == b,
        a == Block::made(a.material_spec(), a.data_spec()),
{
}

/// The parts of a made block are what it was made of.
pub proof fn lemma_block_parts(material: Material, data: u8)
    ensures
        Block::made(material, data).material_spec() == material,
        Block::made(material, data).data_spec() == data,
{
}

impl Voxel for Block {
    open spec fn vacant(&self) -> bool {
        self.material_spec() == Material::air
    }

    closed spec fn empty_value() -> Self {
        Block { material: Material::air, data: 0 }
    }

    proof fn empty_is_vacant() {
    }

    fn empty() -> (cell: Self) {
        Block { material: Material::air, data: 0 }
    }

    fn is_empty(&self) -> (vacant: bool) {
        match self.material {
            Material::air => true,
            _ => false,
        }
    }
}

/// The number of named auxiliary values.
pub const COLOR_NAME_COUNT: u8 = 16;

/// The name of the dye color that the auxiliary value `value` stands for.
pub open spec fn color_name_spec(value: int) -> Seq<char> {
    if value == 0 {
        "White"@
    } else if value == 1 {
        "Orange"@
    } else if value == 2 {
        "Magenta"@
    } else if value == 3 {
        "LightBlue"@
    } else if value == 4 {
        "Yellow"@
    } else if value == 5 {
        "Lime"@
    } else if value == 6 {
        "Pink"@
    } else if value == 7 {
        "Gray"@
    } else if value == 8 {
        "LightGray"@
    } else if value == 9 {
        "Cyan"@
    } else if value == 10 {
        "Purple"@
    } else if value == 11 {
        "Blue"@
    } else if value == 12 {
        "Brown"@
    } else if value == 13 {
        "Green"@
    } else if value == 14 {
        "Red"@
    } else {
        "Black"@
    }
}

impl BlockData {
    /// The name under which scripts find the auxiliary value `value`, for the
    /// sixteen dye colors 0 to 15.
    pub fn color_name(value: u8) -> (name: Option<&'static str>)
        ensures
            match name {
                Some(n) => value < COLOR_NAME_COUNT && n@ == color_name_spec(value as int),
                None => value >= COLOR_NAME_COUNT,
            },
    {
        match value {
            0 => Some("White"),
            1 => Some("Orange"),
            2 => Some("Magenta"),
            3 => Some("LightBlue"),
            4 => Some("Yellow"),
            5 => Some("Lime"),
            6 => Some("Pink"),
            7 => Some("Gray"),
            8 => Some("LightGray"),
            9 => Some("Cyan"),
            10 => Some("Purple"),
            11 => Some("Blue"),
            12 => Some("Brown"),
            13 => Some("Green"),
            14 => Some("Red"),
            15 => Some("Black"),
            _ => None,
        }
    }
}

} // verus!
