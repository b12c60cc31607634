//! The named palette: the colours of CSS by name, and the two special
//! colours.
use vstd::prelude::*;
use crate::color::Color;

verus! {

/// The fully opaque colour of three channels.
pub open spec fn opaque(red: u8, green: u8, blue: u8) -> Color {
    Color { red, green, blue, alpha: 255, valid: true }
}

/// The number of entries of the palette.
pub const PALETTE_LEN: usize = 149;

/// The colour of the palette's entry `i`.
pub open spec fn palette_color(i: int) -> Color {
    if i == 0 {
        Color { red: 0, green: 0, blue: 0, alpha: 0, valid: true }
    } else if i == 1 {
        opaque(240, 248, 255)
    } else if i == 2 {
        opaque(250, 235, 215)
    } else if i == 3 {
        opaque(0, 255, 255)
    } else if i == 4 {
        opaque(127, 255, 212)
    } else if i == 5 {
        opaque(240, 255, 255)
    } else if i == 6 {
        opaque(245, 245, 220)
    } else if i == 7 {
        opaque(255, 228, 196)
    } else if i == 8 {
        opaque(0, 0, 0)
    } else if i == 9 {
        opaque(255, 235, 205)
    } else if i == 10 {
        opaque(0, 0, 255)
    } else if i == 11 {
        opaque(138, 43, 226)
    } else if i == 12 {
        opaque(165, 42, 42)
    } else if i == 13 {
        opaque(222, 184, 135)
    } else if i == 14 {
        opaque(95, 158, 160)
    } else if i == 15 {
        opaque(127, 255, 0)
    } else if i == 16 {
        opaque(210, 105, 30)
    } else if i == 17 {
        opaque(255, 127, 80)
    } else if i == 18 {
        opaque(100, 149, 237)
    } else if i == 19 {
        opaque(255, 248, 220)
    } else if i == 20 {
        opaque(220, 20, 60)
    } else if i == 21 {
        opaque(0, 255, 255)
    } else if i == 22 {
        opaque(0, 0, 139)
    } else if i == 23 {
        opaque(0, 139, 139)
    } else if i == 24 {
        opaque(184, 134, 11)
    } else if i == 25 {
        opaque(169, 169, 169)
    } else if i == 26 {
        opaque(0, 100, 0)
    } else if i == 27 {
        opaque(169, 169, 169)
    } else if i == 28 {
        opaque(189, 183, 107)
    } else if i == 29 {
        opaque(139, 0, 139)
    } else if i == 30 {
        opaque(85, 107, 47)
    } else if i == 31 {
        opaque(255, 140, 0)
    } else if i == 32 {
        opaque(153, 50, 204)
    } else if i == 33 {
        opaque(139, 0, 0)
    } else if i == 34 {
        opaque(233, 150, 122)
    } else if i == 35 {
        opaque(143, 188, 143)
    } else if i == 36 {
        opaque(72, 61, 139)
    } else if i == 37 {
        opaque(47, 79, 79)
    } else if i == 38 {
        opaque(47, 79, 79)
    } else if i == 39 {
        opaque(0, 206, 209)
    } else if i == 40 {
        opaque(148, 0, 211)
    } else if i == 41 {
        opaque(255, 20, 147)
    } else if i == 42 {
        opaque(0, 191, 255)
    } else if i == 43 {
        opaque(105, 105, 105)
    } else if i == 44 {
        opaque(105, 105, 105)
    } else if i == 45 {
        opaque(30, 144, 255)
    } else if i == 46 {
        opaque(178, 34, 34)
    } else if i == 47 {
        opaque(255, 250, 240)
    } else if i == 48 {
        opaque(34, 139, 34)
    } else if i == 49 {
        opaque(255, 0, 255)
    } else if i == 50 {
        opaque(220, 220, 220)
    } else if i == 51 {
        opaque(248, 248, 255)
    } else if i == 52 {
        opaque(218, 165, 32)
    } else if i == 53 {
        opaque(255, 215, 0)
    } else if i == 54 {
        opaque(128, 128, 128)
    } else if i == 55 {
        opaque(0, 128, 0)
    } else if i == 56 {
        opaque(173, 255, 47)
    } else if i == 57 {
        opaque(128, 128, 128)
    } else if i == 58 {
        opaque(240, 255, 240)
    } else if i == 59 {
        opaque(255, 105, 180)
    } else if i == 60 {
        opaque(205, 92, 92)
    } else if i == 61 {
        opaque(75, 0, 130)
    } else if i == 62 {
        opaque(255, 255, 240)
    } else if i == 63 {
        opaque(240, 230, 140)
    } else if i == 64 {
        opaque(255, 240, 245)
    } else if i == 65 {
        opaque(230, 230, 250)
    } else if i == 66 {
        opaque(124, 252, 0)
    } else if i == 67 {
        opaque(255, 250, 205)
    } else if i == 68 {
        opaque(173, 216, 230)
    } else if i == 69 {
        opaque(240, 128, 128)
    } else if i == 70 {
        opaque(224, 255, 255)
    } else if i == 71 {
        opaque(250, 250, 210)
    } else if i == 72 {
        opaque(211, 211, 211)
    } else if i == 73 {
        opaque(144, 238, 144)
    } else if i == 74 {
        opaque(211, 211, 211)
    } else if i == 75 {
        opaque(255, 182, 193)
    } else if i == 76 {
        opaque(255, 160, 122)
    } else if i == 77 {
        opaque(32, 178, 170)
    } else if i == 78 {
        opaque(135, 206, 250)
    } else if i == 79 {
        opaque(119, 136, 153)
    } else if i == 80 {
        opaque(119, 136, 153)
    } else if i == 81 {
        opaque(176, 196, 222)
    } else if i == 82 {
        opaque(255, 255, 224)
    } else if i == 83 {
        opaque(0, 255, 0)
    } else if i == 84 {
        opaque(50, 205, 50)
    } else if i == 85 {
        opaque(250, 240, 230)
    } else if i == 86 {
        opaque(255, 0, 255)
    } else if i == 87 {
        opaque(128, 0, 0)
    } else if i == 88 {
        opaque(102, 205, 170)
    } else if i == 89 {
        opaque(0, 0, 205)
    } else if i == 90 {
        opaque(186, 85, 211)
    } else if i == 91 {
        opaque(147, 112, 219)
    } else if i == 92 {
        opaque(60, 179, 113)
    } else if i == 93 {
        opaque(123, 104, 238)
    } else if i == 94 {
        opaque(0, 250, 154)
    } else if i == 95 {
        opaque(72, 209, 204)
    } else if i == 96 {
        opaque(199, 21, 133)
    } else if i == 97 {
        opaque(25, 25, 112)
    } else if i == 98 {
        opaque(245, 255, 250)
    } else if i == 99 {
        opaque(255, 228, 225)
    } else if i == 100 {
        opaque(255, 228, 181)
    } else if i == 101 {
        opaque(255, 222, 173)
    } else if i == 102 {
        opaque(0, 0, 128)
    } else if i == 103 {
        opaque(253, 245, 230)
    } else if i == 104 {
        opaque(128, 128, 0)
    } else if i == 105 {
        opaque(107, 142, 35)
    } else if i == 106 {
        opaque(255, 165, 0)
    } else if i == 107 {
        opaque(255, 69, 0)
    } else if i == 108 {
        opaque(218, 112, 214)
    } else if i == 109 {
        opaque(238, 232, 170)
    } else if i == 110 {
        opaque(152, 251, 152)
    } else if i == 111 {
        opaque(175, 238, 238)
    } else if i == 112 {
        opaque(219, 112, 147)
    } else if i == 113 {
        opaque(255, 239, 213)
    } else if i == 114 {
        opaque(255, 218, 185)
    } else if i == 115 {
        opaque(205, 133, 63)
    } else if i == 116 {
        opaque(255, 192, 203)
    } else if i == 117 {
        opaque(221, 160, 221)
    } else if i == 118 {
        opaque(176, 224, 230)
    } else if i == 119 {
        opaque(128, 0, 128)
    } else if i == 120 {
        opaque(102, 51, 153)
    } else if i == 121 {
        opaque(255, 0, 0)
    } else if i == 122 {
        opaque(188, 143, 143)
    } else if i == 123 {
        opaque(65, 105, 225)
    } else if i == 124 {
        opaque(139, 69, 19)
    } else if i == 125 {
        opaque(250, 128, 114)
    } else if i == 126 {
        opaque(244, 164, 96)
    } else if i == 127 {
        opaque(46, 139, 87)
    } else if i == 128 {
        opaque(255, 245, 238)
    } else if i == 129 {
        opaque(160, 82, 45)
    } else if i == 130 {
        opaque(192, 192, 192)
    } else if i == 131 {
        opaque(135, 206, 235)
    } else if i == 132 {
        opaque(106, 90, 205)
    } else if i == 133 {
        opaque(112, 128, 144)
    } else if i == 134 {
        opaque(112, 128, 144)
    } else if i == 135 {
        opaque(255, 250, 250)
    } else if i == 136 {
        opaque(0, 255, 127)
    } else if i == 137 {
        opaque(70, 130, 180)
    } else if i == 138 {
        opaque(210, 180, 140)
    } else if i == 139 {
        opaque(0, 128, 128)
    } else if i == 140 {
        opaque(216, 191, 216)
    } else if i == 141 {
        opaque(255, 99, 71)
    } else if i == 142 {
        opaque(64, 224, 208)
    } else if i == 143 {
        opaque(238, 130, 238)
    } else if i == 144 {
        opaque(245, 222, 179)
    } else if i == 145 {
        opaque(255, 255, 255)
    } else if i == 146 {
        opaque(245, 245, 245)
    } else if i == 147 {
        opaque(154, 205, 50)
    } else {
        opaque(255, 255, 0)
    }
}

/// The canonical name of the palette's entry `i`.
pub open spec fn palette_name(i: int) -> Seq<char> {
    if i == 0 {
        "TRANSPARENT"@
    } else if i == 1 {
        "ALICE_BLUE"@
    } else if i == 2 {
        "ANTIQUE_WHITE"@
    } else if i == 3 {
        "AQUA"@
    } else if i == 4 {
        "AQUAMARINE"@
    } else if i == 5 {
        "AZURE"@
    } else if i == 6 {
        "BEIGE"@
    } else if i == 7 {
        "BISQUE"@
    } else if i == 8 {
        "BLACK"@
    } else if i == 9 {
        "BLANCHED_ALMOND"@
    } else if i == 10 {
        "BLUE"@
    } else if i == 11 {
        "BLUE_VIOLET"@
    } else if i == 12 {
        "BROWN"@
    } else if i == 13 {
        "BURLY_WOOD"@
    } else if i == 14 {
        "CADET_BLUE"@
    } else if i == 15 {
        "CHARTREUSE"@
    } else if i == 16 {
        "CHOCOLATE"@
    } else if i == 17 {
        "CORAL"@
    } else if i == 18 {
        "CORNFLOWER_BLUE"@
    } else if i == 19 {
        "CORN_SILK"@
    } else if i == 20 {
        "CRIMSON"@
    } else if i == 21 {
        "CYAN"@
    } else if i == 22 {
        "DARK_BLUE"@
    } else if i == 23 {
        "DARK_CYAN"@
    } else if i == 24 {
        "DARK_GOLDENROD"@
    } else if i == 25 {
        "DARK_GRAY"@
    } else if i == 26 {
        "DARK_GREEN"@
    } else if i == 27 {
        "DARK_GREY"@
    } else if i == 28 {
        "DARK_KHAKI"@
    } else if i == 29 {
        "DARK_MAGENTA"@
    } else if i == 30 {
        "DARK_OLIVE_GREEN"@
    } else if i == 31 {
        "DARK_ORANGE"@
    } else if i == 32 {
        "DARK_ORCHID"@
    } else if i == 33 {
        "DARK_RED"@
    } else if i == 34 {
        "DARK_SALMON"@
    } else if i == 35 {
        "DARK_SEA_GREEN"@
    } else if i == 36 {
        "DARK_SLATE_BLUE"@
    } else if i == 37 {
        "DARK_SLATE_GRAY"@
    } else if i == 38 {
        "DARK_SLATE_GREY"@
    } else if i == 39 {
        "DARK_TURQUOISE"@
    } else if i == 40 {
        "DARK_VIOLET"@
    } else if i == 41 {
        "DEEP_PINK"@
    } else if i == 42 {
        "DEEP_SKY_BLUE"@
    } else if i == 43 {
        "DIM_GRAY"@
    } else if i == 44 {
        "DIM_GREY"@
    } else if i == 45 {
        "DODGER_BLUE"@
    } else if i == 46 {
        "FIREBRICK"@
    } else if i == 47 {
        "FLORAL_WHITE"@
    } else if i == 48 {
        "FOREST_GREEN"@
    } else if i == 49 {
        "FUCHSIA"@
    } else if i == 50 {
        "GAINSBORO"@
    } else if i == 51 {
        "GHOST_WHITE"@
    } else if i == 52 {
        "GOLDENROD"@
    } else if i == 53 {
        "GOLD"@
    } else if i == 54 {
        "GRAY"@
    } else if i == 55 {
        "GREEN"@
    } else if i == 56 {
        "GREEN_YELLOW"@
    } else if i == 57 {
        "GREY"@
    } else if i == 58 {
        "HONEYDEW"@
    } else if i == 59 {
        "HOT_PINK"@
    } else if i == 60 {
        "INDIAN_RED"@
    } else if i == 61 {
        "INDIGO"@
    } else if i == 62 {
        "IVORY"@
    } else if i == 63 {
        "KHAKI"@
    } else if i == 64 {
        "LAVENDER_BLUSH"@
    } else if i == 65 {
        "LAVENDER"@
    } else if i == 66 {
        "LAWN_GREEN"@
    } else if i == 67 {
        "LEMON_CHIFFON"@
    } else if i == 68 {
        "LIGHT_BLUE"@
    } else if i == 69 {
        "LIGHT_CORAL"@
    } else if i == 70 {
        "LIGHT_CYAN"@
    } else if i == 71 {
        "LIGHT_GOLDENROD_YELLOW"@
    } else if i == 72 {
        "LIGHT_GRAY"@
    } else if i == 73 {
        "LIGHT_GREEN"@
    } else if i == 74 {
        "LIGHT_GREY"@
    } else if i == 75 {
        "LIGHT_PINK"@
    } else if i == 76 {
        "LIGHT_SALMON"@
    } else if i == 77 {
        "LIGHT_SEA_GREEN"@
    } else if i == 78 {
        "LIGHT_SKY_BLUE"@
    } else if i == 79 {
        "LIGHT_SLATE_GRAY"@
    } else if i == 80 {
        "LIGHT_SLATE_GREY"@
    } else if i == 81 {
        "LIGHT_STEEL_BLUE"@
    } else if i == 82 {
        "LIGHT_YELLOW"@
    } else if i == 83 {
        "LIME"@
    } else if i == 84 {
        "LIME_GREEN"@
    } else if i == 85 {
        "LINEN"@
    } else if i == 86 {
        "MAGENTA"@
    } else if i == 87 {
        "MAROON"@
    } else if i == 88 {
        "MEDIUM_AQUAMARINE"@
    } else if i == 89 {
        "MEDIUM_BLUE"@
    } else if i == 90 {
        "MEDIUM_ORCHID"@
    } else if i == 91 {
        "MEDIUM_PURPLE"@
    } else if i == 92 {
        "MEDIUM_SEA_GREEN"@
    } else if i == 93 {
        "MEDIUM_SLATE_BLUE"@
    } else if i == 94 {
        "MEDIUM_SPRING_GREEN"@
    } else if i == 95 {
        "MEDIUM_TURQUOISE"@
    } else if i == 96 {
        "MEDIUM_VIOLET_RED"@
    } else if i == 97 {
        "MIDNIGHT_BLUE"@
    } else if i == 98 {
        "MINT_CREAM"@
    } else if i == 99 {
        "MISTY_ROSE"@
    } else if i == 100 {
        "MOCCASIN"@
    } else if i == 101 {
        "NAVAJO_WHITE"@
    } else if i == 102 {
        "NAVY"@
    } else if i == 103 {
        "OLD_LACE"@
    } else if i == 104 {
        "OLIVE"@
    } else if i == 105 {
        "OLIVE_DRAB"@
    } else if i == 106 {
        "ORANGE"@
    } else if i == 107 {
        "ORANGE_RED"@
    } else if i == 108 {
        "ORCHID"@
    } else if i == 109 {
        "PALE_GOLDENROD"@
    } else if i == 110 {
        "PALE_GREEN"@
    } else if i == 111 {
        "PALE_TURQUOISE"@
    } else if i == 112 {
        "PALE_VIOLET_RED"@
    } else if i == 113 {
        "PAPAYA_WHIP"@
    } else if i == 114 {
        "PEACH_PUFF"@
    } else if i == 115 {
        "PERU"@
    } else if i == 116 {
        "PINK"@
    } else if i == 117 {
        "PLUM"@
    } else if i == 118 {
        "POWDER_BLUE"@
    } else if i == 119 {
        "PURPLE"@
    } else if i == 120 {
        "REBECCA_PURPLE"@
    } else if i == 121 {
        "RED"@
    } else if i == 122 {
        "ROSY_BROWN"@
    } else if i == 123 {
        "ROYAL_BLUE"@
    } else if i == 124 {
        "SADDLE_BROWN"@
    } else if i == 125 {
        "SALMON"@
    } else if i == 126 {
        "SANDY_BROWN"@
    } else if i == 127 {
        "SEA_GREEN"@
    } else if i == 128 {
        "SEASHELL"@
    } else if i == 129 {
        "SIENNA"@
    } else if i == 130 {
        "SILVER"@
    } else if i == 131 {
        "SKY_BLUE"@
    } else if i == 132 {
        "SLATE_BLUE"@
    } else if i == 133 {
        "SLATE_GRAY"@
    } else if i == 134 {
        "SLATE_GREY"@
    } else if i == 135 {
        "SNOW"@
    } else if i == 136 {
        "SPRING_GREEN"@
    } else if i == 137 {
        "STEEL_BLUE"@
    } else if i == 138 {
        "TAN"@
    } else if i == 139 {
        "TEAL"@
    } else if i == 140 {
        "THISTLE"@
    } else if i == 141 {
        "TOMATO"@
    } else if i == 142 {
        "TURQUOISE"@
    } else if i == 143 {
        "VIOLET"@
    } else if i == 144 {
        "WHEAT"@
    } else if i == 145 {
        "WHITE"@
    } else if i == 146 {
        "WHITE_SMOKE"@
    } else if i == 147 {
        "YELLOW_GREEN"@
    } else {
        "YELLOW"@
    }
}

/// The name and the colour of the palette's entry `i`.
pub fn palette_entry(i: usize) -> (e: (&'static str, Color))
    requires
        i < PALETTE_LEN,
    ensures
        e.0@ == palette_name(i as int),
        e.1 == palette_color(i as int),
{
    match i {
        0 => ("TRANSPARENT", Colors::TRANSPARENT()),
        1 => ("ALICE_BLUE", Colors::ALICE_BLUE()),
        2 => ("ANTIQUE_WHITE", Colors::ANTIQUE_WHITE()),
        3 => ("AQUA", Colors::AQUA()),
        4 => ("AQUAMARINE", Colors::AQUAMARINE()),
        5 => ("AZURE", Colors::AZURE()),
        6 => ("BEIGE", Colors::BEIGE()),
        7 => ("BISQUE", Colors::BISQUE()),
        8 => ("BLACK", Colors::BLACK()),
        9 => ("BLANCHED_ALMOND", Colors::BLANCHED_ALMOND()),
        10 => ("BLUE", Colors::BLUE()),
        11 => ("BLUE_VIOLET", Colors::BLUE_VIOLET()),
        12 => ("BROWN", Colors::BROWN()),
        13 => ("BURLY_WOOD", Colors::BURLY_WOOD()),
        14 => ("CADET_BLUE", Colors::CADET_BLUE()),
        15 => ("CHARTREUSE", Colors::CHARTREUSE()),
        16 => ("CHOCOLATE", Colors::CHOCOLATE()),
        17 => ("CORAL", Colors::CORAL()),
        18 => ("CORNFLOWER_BLUE", Colors::CORNFLOWER_BLUE()),
        19 => ("CORN_SILK", Colors::CORN_SILK()),
        20 => ("CRIMSON", Colors::CRIMSON()),
        21 => ("CYAN", Colors::CYAN()),
        22 => ("DARK_BLUE", Colors::DARK_BLUE()),
        23 => ("DARK_CYAN", Colors::DARK_CYAN()),
        24 => ("DARK_GOLDENROD", Colors::DARK_GOLDENROD()),
        25 => ("DARK_GRAY", Colors::DARK_GRAY()),
        26 => ("DARK_GREEN", Colors::DARK_GREEN()),
        27 => ("DARK_GREY", Colors::DARK_GREY()),
        28 => ("DARK_KHAKI", Colors::DARK_KHAKI()),
        29 => ("DARK_MAGENTA", Colors::DARK_MAGENTA()),
        30 => ("DARK_OLIVE_GREEN", Colors::DARK_OLIVE_GREEN()),
        31 => ("DARK_ORANGE", Colors::DARK_ORANGE()),
        32 => ("DARK_ORCHID", Colors::DARK_ORCHID()),
        33 => ("DARK_RED", Colors::DARK_RED()),
        34 => ("DARK_SALMON", Colors::DARK_SALMON()),
        35 => ("DARK_SEA_GREEN", Colors::DARK_SEA_GREEN()),
        36 => ("DARK_SLATE_BLUE", Colors::DARK_SLATE_BLUE()),
        37 => ("DARK_SLATE_GRAY", Colors::DARK_SLATE_GRAY()),
        38 => ("DARK_SLATE_GREY", Colors::DARK_SLATE_GREY()),
        39 => ("DARK_TURQUOISE", Colors::DARK_TURQUOISE()),
        40 => ("DARK_VIOLET", Colors::DARK_VIOLET()),
        41 => ("DEEP_PINK", Colors::DEEP_PINK()),
        42 => ("DEEP_SKY_BLUE", Colors::DEEP_SKY_BLUE()),
        43 => ("DIM_GRAY", Colors::DIM_GRAY()),
        44 => ("DIM_GREY", Colors::DIM_GREY()),
        45 => ("DODGER_BLUE", Colors::DODGER_BLUE()),
        46 => ("FIREBRICK", Colors::FIREBRICK()),
        47 => ("FLORAL_WHITE", Colors::FLORAL_WHITE()),
        48 => ("FOREST_GREEN", Colors::FOREST_GREEN()),
        49 => ("FUCHSIA", Colors::FUCHSIA()),
        50 => ("GAINSBORO", Colors::GAINSBORO()),
        51 => ("GHOST_WHITE", Colors::GHOST_WHITE()),
        52 => ("GOLDENROD", Colors::GOLDENROD()),
        53 => ("GOLD", Colors::GOLD()),
        54 => ("GRAY", Colors::GRAY()),
        55 => ("GREEN", Colors::GREEN()),
        56 => ("GREEN_YELLOW", Colors::GREEN_YELLOW()),
        57 => ("GREY", Colors::GREY()),
        58 => ("HONEYDEW", Colors::HONEYDEW()),
        59 => ("HOT_PINK", Colors::HOT_PINK()),
        60 => ("INDIAN_RED", Colors::INDIAN_RED()),
        61 => ("INDIGO", Colors::INDIGO()),
        62 => ("IVORY", Colors::IVORY()),
        63 => ("KHAKI", Colors::KHAKI()),
        64 => ("LAVENDER_BLUSH", Colors::LAVENDER_BLUSH()),
        65 => ("LAVENDER", Colors::LAVENDER()),
        66 => ("LAWN_GREEN", Colors::LAWN_GREEN()),
        67 => ("LEMON_CHIFFON", Colors::LEMON_CHIFFON()),
        68 => ("LIGHT_BLUE", Colors::LIGHT_BLUE()),
        69 => ("LIGHT_CORAL", Colors::LIGHT_CORAL()),
        70 => ("LIGHT_CYAN", Colors::LIGHT_CYAN()),
        71 => ("LIGHT_GOLDENROD_YELLOW", Colors::LIGHT_GOLDENROD_YELLOW()),
        72 => ("LIGHT_GRAY", Colors::LIGHT_GRAY()),
        73 => ("LIGHT_GREEN", Colors::LIGHT_GREEN()),
        74 => ("LIGHT_GREY", Colors::LIGHT_GREY()),
        75 => ("LIGHT_PINK", Colors::LIGHT_PINK()),
        76 => ("LIGHT_SALMON", Colors::LIGHT_SALMON()),
        77 => ("LIGHT_SEA_GREEN", Colors::LIGHT_SEA_GREEN()),
        78 => ("LIGHT_SKY_BLUE", Colors::LIGHT_SKY_BLUE()),
        79 => ("LIGHT_SLATE_GRAY", Colors::LIGHT_SLATE_GRAY()),
        80 => ("LIGHT_SLATE_GREY", Colors::LIGHT_SLATE_GREY()),
        81 => ("LIGHT_STEEL_BLUE", Colors::LIGHT_STEEL_BLUE()),
        82 => ("LIGHT_YELLOW", Colors::LIGHT_YELLOW()),
        83 => ("LIME", Colors::LIME()),
        84 => ("LIME_GREEN", Colors::LIME_GREEN()),
        85 => ("LINEN", Colors::LINEN()),
        86 => ("MAGENTA", Colors::MAGENTA()),
        87 => ("MAROON", Colors::MAROON()),
        88 => ("MEDIUM_AQUAMARINE", Colors::MEDIUM_AQUAMARINE()),
        89 => ("MEDIUM_BLUE", Colors::MEDIUM_BLUE()),
        90 => ("MEDIUM_ORCHID", Colors::MEDIUM_ORCHID()),
        91 => ("MEDIUM_PURPLE", Colors::MEDIUM_PURPLE()),
        92 => ("MEDIUM_SEA_GREEN", Colors::MEDIUM_SEA_GREEN()),
        93 => ("MEDIUM_SLATE_BLUE", Colors::MEDIUM_SLATE_BLUE()),
        94 => ("MEDIUM_SPRING_GREEN", Colors::MEDIUM_SPRING_GREEN()),
        95 => ("MEDIUM_TURQUOISE", Colors::MEDIUM_TURQUOISE()),
        96 => ("MEDIUM_VIOLET_RED", Colors::MEDIUM_VIOLET_RED()),
        97 => ("MIDNIGHT_BLUE", Colors::MIDNIGHT_BLUE()),
        98 => ("MINT_CREAM", Colors::MINT_CREAM()),
        99 => ("MISTY_ROSE", Colors::MISTY_ROSE()),
        100 => ("MOCCASIN", Colors::MOCCASIN()),
        101 => ("NAVAJO_WHITE", Colors::NAVAJO_WHITE()),
        102 => ("NAVY", Colors::NAVY()),
        103 => ("OLD_LACE", Colors::OLD_LACE()),
        104 => ("OLIVE", Colors::OLIVE()),
        105 => ("OLIVE_DRAB", Colors::OLIVE_DRAB()),
        106 => ("ORANGE", Colors::ORANGE()),
        107 => ("ORANGE_RED", Colors::ORANGE_RED()),
        108 => ("ORCHID", Colors::ORCHID()),
        109 => ("PALE_GOLDENROD", Colors::PALE_GOLDENROD()),
        110 => ("PALE_GREEN", Colors::PALE_GREEN()),
        111 => ("PALE_TURQUOISE", Colors::PALE_TURQUOISE()),
        112 => ("PALE_VIOLET_RED", Colors::PALE_VIOLET_RED()),
        113 => ("PAPAYA_WHIP", Colors::PAPAYA_WHIP()),
        114 => ("PEACH_PUFF", Colors::PEACH_PUFF()),
        115 => ("PERU", Colors::PERU()),
        116 => ("PINK", Colors::PINK()),
        117 => ("PLUM", Colors::PLUM()),
        118 => ("POWDER_BLUE", Colors::POWDER_BLUE()),
        119 => ("PURPLE", Colors::PURPLE()),
        120 => ("REBECCA_PURPLE", Colors::REBECCA_PURPLE()),
        121 => ("RED", Colors::RED()),
        122 => ("ROSY_BROWN", Colors::ROSY_BROWN()),
        123 => ("ROYAL_BLUE", Colors::ROYAL_BLUE()),
        124 => ("SADDLE_BROWN", Colors::SADDLE_BROWN()),
        125 => ("SALMON", Colors::SALMON()),
        126 => ("SANDY_BROWN", Colors::SANDY_BROWN()),
        127 => ("SEA_GREEN", Colors::SEA_GREEN()),
        128 => ("SEASHELL", Colors::SEASHELL()),
        129 => ("SIENNA", Colors::SIENNA()),
        130 => ("SILVER", Colors::SILVER()),
        131 => ("SKY_BLUE", Colors::SKY_BLUE()),
        132 => ("SLATE_BLUE", Colors::SLATE_BLUE()),
        133 => ("SLATE_GRAY", Colors::SLATE_GRAY()),
        134 => ("SLATE_GREY", Colors::SLATE_GREY()),
        135 => ("SNOW", Colors::SNOW()),
        136 => ("SPRING_GREEN", Colors::SPRING_GREEN()),
        137 => ("STEEL_BLUE", Colors::STEEL_BLUE()),
        138 => ("TAN", Colors::TAN()),
        139 => ("TEAL", Colors::TEAL()),
        140 => ("THISTLE", Colors::THISTLE()),
        141 => ("TOMATO", Colors::TOMATO()),
        142 => ("TURQUOISE", Colors::TURQUOISE()),
        143 => ("VIOLET", Colors::VIOLET()),
        144 => ("WHEAT", Colors::WHEAT()),
        145 => ("WHITE", Colors::WHITE()),
        146 => ("WHITE_SMOKE", Colors::WHITE_SMOKE()),
        147 => ("YELLOW_GREEN", Colors::YELLOW_GREEN()),
        _ => ("YELLOW", Colors::YELLOW()),
    }
}

/// The colours by name. Each is a function without arguments, named in
/// capitals as a constant would be.
pub struct Colors;

impl Colors {
    /// The invalid colour: no colour at all. It does not blend.
    #[allow(non_snake_case)]
    pub fn INVALID() -> (c: Color)
        ensures
            c == crate::color::invalid_color(),
    {
        Color { red: 0, green: 0, blue: 0, alpha: 0, valid: false }
    }

    /// Full transparency.
    #[allow(non_snake_case)]
    pub fn TRANSPARENT() -> (c: Color)
        ensures
            c == (Color { red: 0, green: 0, blue: 0, alpha: 0, valid: true }),
    {
        Color { red: 0, green: 0, blue: 0, alpha: 0, valid: true }
    }

    /// Alice Blue: #f0f8ff.
    #[allow(non_snake_case)]
    pub fn ALICE_BLUE() -> (c: Color)
        ensures
            c == opaque(240, 248, 255),
    {
        Color { red: 240, green: 248, blue: 255, alpha: 255, valid: true }
    }

    /// Antique White: #faebd7.
    #[allow(non_snake_case)]
    pub fn ANTIQUE_WHITE() -> (c: Color)
        ensures
            c == opaque(250, 235, 215),
    {
        Color { red: 250, green: 235, blue: 215, alpha: 255, valid: true }
    }

    /// Aqua: #00ffff.
    #[allow(non_snake_case)]
    pub fn AQUA() -> (c: Color)
        ensures
            c == opaque(0, 255, 255),
    {
        Color { red: 0, green: 255, blue: 255, alpha: 255, valid: true }
    }

    /// Aquamarine: #7fffd4.
    #[allow(non_snake_case)]
    pub fn AQUAMARINE() -> (c: Color)
        ensures
            c == opaque(127, 255, 212),
    {
        Color { red: 127, green: 255, blue: 212, alpha: 255, valid: true }
    }

    /// Azure: #f0ffff.
    #[allow(non_snake_case)]
    pub fn AZURE() -> (c: Color)
        ensures
            c == opaque(240, 255, 255),
    {
        Color { red: 240, green: 255, blue: 255, alpha: 255, valid: true }
    }

    /// Beige: #f5f5dc.
    #[allow(non_snake_case)]
    pub fn BEIGE() -> (c: Color)
        ensures
            c == opaque(245, 245, 220),
    {
        Color { red: 245, green: 245, blue: 220, alpha: 255, valid: true }
    }

    /// Bisque: #ffe4c4.
    #[allow(non_snake_case)]
    pub fn BISQUE() -> (c: Color)
        ensures
            c == opaque(255, 228, 196),
    {
        Color { red: 255, green: 228, blue: 196, alpha: 255, valid: true }
    }

    /// Black: #000000.
    #[allow(non_snake_case)]
    pub fn BLACK() -> (c: Color)
        ensures
            c == opaque(0, 0, 0),
    {
        Color { red: 0, green: 0, blue: 0, alpha: 255, valid: true }
    }

    /// Blanched Almond: #ffebcd.
    #[allow(non_snake_case)]
    pub fn BLANCHED_ALMOND() -> (c: Color)
        ensures
            c == opaque(255, 235, 205),
    {
        Color { red: 255, green: 235, blue: 205, alpha: 255, valid: true }
    }

    /// Blue: #0000ff.
    #[allow(non_snake_case)]
    pub fn BLUE() -> (c: Color)
        ensures
            c == opaque(0, 0, 255),
    {
        Color { red: 0, green: 0, blue: 255, alpha: 255, valid: true }
    }

    /// Blue Violet: #8a2be2.
    #[allow(non_snake_case)]
    pub fn BLUE_VIOLET() -> (c: Color)
        ensures
            c == opaque(138, 43, 226),
    {
        Color { red: 138, green: 43, blue: 226, alpha: 255, valid: true }
    }

    /// Brown: #a52a2a.
    #[allow(non_snake_case)]
    pub fn BROWN() -> (c: Color)
        ensures
            c == opaque(165, 42, 42),
    {
        Color { red: 165, green: 42, blue: 42, alpha: 255, valid: true }
    }

    /// Burly Wood: #deb887.
    #[allow(non_snake_case)]
    pub fn BURLY_WOOD() -> (c: Color)
        ensures
            c == opaque(222, 184, 135),
    {
        Color { red: 222, green: 184, blue: 135, alpha: 255, valid: true }
    }

    /// Cadet Blue: #5f9ea0.
    #[allow(non_snake_case)]
    pub fn CADET_BLUE() -> (c: Color)
        ensures
            c == opaque(95, 158, 160),
    {
        Color { red: 95, green: 158, blue: 160, alpha: 255, valid: true }
    }

    /// Chartreuse: #7fff00.
    #[allow(non_snake_case)]
    pub fn CHARTREUSE() -> (c: Color)
        ensures
            c == opaque(127, 255, 0),
    {
        Color { red: 127, green: 255, blue: 0, alpha: 255, valid: true }
    }

    /// Chocolate: #d2691e.
    #[allow(non_snake_case)]
    pub fn CHOCOLATE() -> (c: Color)
        ensures
            c == opaque(210, 105, 30),
    {
        Color { red: 210, green: 105, blue: 30, alpha: 255, valid: true }
    }

    /// Coral: #ff7f50.
    #[allow(non_snake_case)]
    pub fn CORAL() -> (c: Color)
        ensures
            c == opaque(255, 127, 80),
    {
        Color { red: 255, green: 127, blue: 80, alpha: 255, valid: true }
    }

    /// Cornflower Blue: #6495ed.
    #[allow(non_snake_case)]
    pub fn CORNFLOWER_BLUE() -> (c: Color)
        ensures
            c == opaque(100, 149, 237),
    {
        Color { red: 100, green: 149, blue: 237, alpha: 255, valid: true }
    }

    /// Corn Silk: #fff8dc.
    #[allow(non_snake_case)]
    pub fn CORN_SILK() -> (c: Color)
        ensures
            c == opaque(255, 248, 220),
    {
        Color { red: 255, green: 248, blue: 220, alpha: 255, valid: true }
    }

    /// Crimson: #dc143c.
    #[allow(non_snake_case)]
    pub fn CRIMSON() -> (c: Color)
        ensures
            c == opaque(220, 20, 60),
    {
        Color { red: 220, green: 20, blue: 60, alpha: 255, valid: true }
    }

    /// Cyan: #00ffff.
    #[allow(non_snake_case)]
    pub fn CYAN() -> (c: Color)
        ensures
            c == opaque(0, 255, 255),
    {
        Color { red: 0, green: 255, blue: 255, alpha: 255, valid: true }
    }

    /// Dark Blue: #00008b.
    #[allow(non_snake_case)]
    pub fn DARK_BLUE() -> (c: Color)
        ensures
            c == opaque(0, 0, 139),
    {
        Color { red: 0, green: 0, blue: 139, alpha: 255, valid: true }
    }

    /// Dark Cyan: #008b8b.
    #[allow(non_snake_case)]
    pub fn DARK_CYAN() -> (c: Color)
        ensures
            c == opaque(0, 139, 139),
    {
        Color { red: 0, green: 139, blue: 139, alpha: 255, valid: true }
    }

    /// Dark Goldenrod: #b8860b.
    #[allow(non_snake_case)]
    pub fn DARK_GOLDENROD() -> (c: Color)
        ensures
            c == opaque(184, 134, 11),
    {
        Color { red: 184, green: 134, blue: 11, alpha: 255, valid: true }
    }

    /// Dark Gray: #a9a9a9.
    #[allow(non_snake_case)]
    pub fn DARK_GRAY() -> (c: Color)
        ensures
            c == opaque(169, 169, 169),
    {
        Color { red: 169, green: 169, blue: 169, alpha: 255, valid: true }
    }

    /// Dark Green: #006400.
    #[allow(non_snake_case)]
    pub fn DARK_GREEN() -> (c: Color)
        ensures
            c == opaque(0, 100, 0),
    {
        Color { red: 0, green: 100, blue: 0, alpha: 255, valid: true }
    }

    /// Dark Grey: #a9a9a9.
    #[allow(non_snake_case)]
    pub fn DARK_GREY() -> (c: Color)
        ensures
            c == opaque(169, 169, 169),
    {
        Color { red: 169, green: 169, blue: 169, alpha: 255, valid: true }
    }

    /// Dark Khaki: #bdb76b.
    #[allow(non_snake_case)]
    pub fn DARK_KHAKI() -> (c: Color)
        ensures
            c == opaque(189, 183, 107),
    {
        Color { red: 189, green: 183, blue: 107, alpha: 255, valid: true }
    }

    /// Dark Magenta: #8b008b.
    #[allow(non_snake_case)]
    pub fn DARK_MAGENTA() -> (c: Color)
        ensures
            c == opaque(139, 0, 139),
    {
        Color { red: 139, green: 0, blue: 139, alpha: 255, valid: true }
    }

    /// Dark Olive Green: #556b2f.
    #[allow(non_snake_case)]
    pub fn DARK_OLIVE_GREEN() -> (c: Color)
        ensures
            c == opaque(85, 107, 47),
    {
        Color { red: 85, green: 107, blue: 47, alpha: 255, valid: true }
    }

    /// Dark Orange: #ff8c00.
    #[allow(non_snake_case)]
    pub fn DARK_ORANGE() -> (c: Color)
        ensures
            c == opaque(255, 140, 0),
    {
        Color { red: 255, green: 140, blue: 0, alpha: 255, valid: true }
    }

    /// Dark Orchid: #9932cc.
    #[allow(non_snake_case)]
    pub fn DARK_ORCHID() -> (c: Color)
        ensures
            c == opaque(153, 50, 204),
    {
        Color { red: 153, green: 50, blue: 204, alpha: 255, valid: true }
    }

    /// Dark Red: #8b0000.
    #[allow(non_snake_case)]
    pub fn DARK_RED() -> (c: Color)
        ensures
            c == opaque(139, 0, 0),
    {
        Color { red: 139, green: 0, blue: 0, alpha: 255, valid: true }
    }

    /// Dark Salmon: #e9967a.
    #[allow(non_snake_case)]
    pub fn DARK_SALMON() -> (c: Color)
        ensures
            c == opaque(233, 150, 122),
    {
        Color { red: 233, green: 150, blue: 122, alpha: 255, valid: true }
    }

    /// Dark Sea Green: #8fbc8f.
    #[allow(non_snake_case)]
    pub fn DARK_SEA_GREEN() -> (c: Color)
        ensures
            c == opaque(143, 188, 143),
    {
        Color { red: 143, green: 188, blue: 143, alpha: 255, valid: true }
    }

    /// Dark Slate Blue: #483d8b.
    #[allow(non_snake_case)]
    pub fn DARK_SLATE_BLUE() -> (c: Color)
        ensures
            c == opaque(72, 61, 139),
    {
        Color { red: 72, green: 61, blue: 139, alpha: 255, valid: true }
    }

    /// Dark Slate Gray: #2f4f4f.
    #[allow(non_snake_case)]
    pub fn DARK_SLATE_GRAY() -> (c: Color)
        ensures
            c == opaque(47, 79, 79),
    {
        Color { red: 47, green: 79, blue: 79, alpha: 255, valid: true }
    }

    /// Dark Slate Grey: #2f4f4f.
    #[allow(non_snake_case)]
    pub fn DARK_SLATE_GREY() -> (c: Color)
        ensures
            c == opaque(47, 79, 79),
    {
        Color { red: 47, green: 79, blue: 79, alpha: 255, valid: true }
    }

    /// Dark Turquoise: #00ced1.
    #[allow(non_snake_case)]
    pub fn DARK_TURQUOISE() -> (c: Color)
        ensures
            c == opaque(0, 206, 209),
    {
        Color { red: 0, green: 206, blue: 209, alpha: 255, valid: true }
    }

    /// Dark Violet: #9400d3.
    #[allow(non_snake_case)]
    pub fn DARK_VIOLET() -> (c: Color)
        ensures
            c == opaque(148, 0, 211),
    {
        Color { red: 148, green: 0, blue: 211, alpha: 255, valid: true }
    }

    /// Deep Pink: #ff1493.
    #[allow(non_snake_case)]
    pub fn DEEP_PINK() -> (c: Color)
        ensures
            c == opaque(255, 20, 147),
    {
        Color { red: 255, green: 20, blue: 147, alpha: 255, valid: true }
    }

    /// Deep Sky Blue: #00bfff.
    #[allow(non_snake_case)]
    pub fn DEEP_SKY_BLUE() -> (c: Color)
        ensures
            c == opaque(0, 191, 255),
    {
        Color { red: 0, green: 191, blue: 255, alpha: 255, valid: true }
    }

    /// Dim Gray: #696969.
    #[allow(non_snake_case)]
    pub fn DIM_GRAY() -> (c: Color)
        ensures
            c == opaque(105, 105, 105),
    {
        Color { red: 105, green: 105, blue: 105, alpha: 255, valid: true }
    }

    /// Dim Grey: #696969.
    #[allow(non_snake_case)]
    pub fn DIM_GREY() -> (c: Color)
        ensures
            c == opaque(105, 105, 105),
    {
        Color { red: 105, green: 105, blue: 105, alpha: 255, valid: true }
    }

    /// Dodger Blue: #1e90ff.
    #[allow(non_snake_case)]
    pub fn DODGER_BLUE() -> (c: Color)
        ensures
            c == opaque(30, 144, 255),
    {
        Color { red: 30, green: 144, blue: 255, alpha: 255, valid: true }
    }

    /// Firebrick: #b22222.
    #[allow(non_snake_case)]
    pub fn FIREBRICK() -> (c: Color)
        ensures
            c == opaque(178, 34, 34),
    {
        Color { red: 178, green: 34, blue: 34, alpha: 255, valid: true }
    }

    /// Floral White: #fffaf0.
    #[allow(non_snake_case)]
    pub fn FLORAL_WHITE() -> (c: Color)
        ensures
            c == opaque(255, 250, 240),
    {
        Color { red: 255, green: 250, blue: 240, alpha: 255, valid: true }
    }

    /// Forest Green: #228b22.
    #[allow(non_snake_case)]
    pub fn FOREST_GREEN() -> (c: Color)
        ensures
            c == opaque(34, 139, 34),
    {
        Color { red: 34, green: 139, blue: 34, alpha: 255, valid: true }
    }

    /// Fuchsia: #ff00ff.
    #[allow(non_snake_case)]
    pub fn FUCHSIA() -> (c: Color)
        ensures
            c == opaque(255, 0, 255),
    {
        Color { red: 255, green: 0, blue: 255, alpha: 255, valid: true }
    }

    /// Gainsboro: #dcdcdc.
    #[allow(non_snake_case)]
    pub fn GAINSBORO() -> (c: Color)
        ensures
            c == opaque(220, 220, 220),
    {
        Color { red: 220, green: 220, blue: 220, alpha: 255, valid: true }
    }

    /// Ghost White: #f8f8ff.
    #[allow(non_snake_case)]
    pub fn GHOST_WHITE() -> (c: Color)
        ensures
            c == opaque(248, 248, 255),
    {
        Color { red: 248, green: 248, blue: 255, alpha: 255, valid: true }
    }

    /// Goldenrod: #daa520.
    #[allow(non_snake_case)]
    pub fn GOLDENROD() -> (c: Color)
        ensures
            c == opaque(218, 165, 32),
    {
        Color { red: 218, green: 165, blue: 32, alpha: 255, valid: true }
    }

    /// Gold: #ffd700.
    #[allow(non_snake_case)]
    pub fn GOLD() -> (c: Color)
        ensures
            c == opaque(255, 215, 0),
    {
        Color { red: 255, green: 215, blue: 0, alpha: 255, valid: true }
    }

    /// Gray: #808080.
    #[allow(non_snake_case)]
    pub fn GRAY() -> (c: Color)
        ensures
            c == opaque(128, 128, 128),
    {
        Color { red: 128, green: 128, blue: 128, alpha: 255, valid: true }
    }

    /// Green: #008000.
    #[allow(non_snake_case)]
    pub fn GREEN() -> (c: Color)
        ensures
            c == opaque(0, 128, 0),
    {
        Color { red: 0, green: 128, blue: 0, alpha: 255, valid: true }
    }

    /// Green Yellow: #adff2f.
    #[allow(non_snake_case)]
    pub fn GREEN_YELLOW() -> (c: Color)
        ensures
            c == opaque(173, 255, 47),
    {
        Color { red: 173, green: 255, blue: 47, alpha: 255, valid: true }
    }

    /// Grey: #808080.
    #[allow(non_snake_case)]
    pub fn GREY() -> (c: Color)
        ensures
            c == opaque(128, 128, 128),
    {
        Color { red: 128, green: 128, blue: 128, alpha: 255, valid: true }
    }

    /// Honeydew: #f0fff0.
    #[allow(non_snake_case)]
    pub fn HONEYDEW() -> (c: Color)
        ensures
            c == opaque(240, 255, 240),
    {
        Color { red: 240, green: 255, blue: 240, alpha: 255, valid: true }
    }

    /// Hot Pink: #ff69b4.
    #[allow(non_snake_case)]
    pub fn HOT_PINK() -> (c: Color)
        ensures
            c == opaque(255, 105, 180),
    {
        Color { red: 255, green: 105, blue: 180, alpha: 255, valid: true }
    }

    /// Indian Red: #cd5c5c.
    #[allow(non_snake_case)]
    pub fn INDIAN_RED() -> (c: Color)
        ensures
            c == opaque(205, 92, 92),
    {
        Color { red: 205, green: 92, blue: 92, alpha: 255, valid: true }
    }

    /// Indigo: #4b0082.
    #[allow(non_snake_case)]
    pub fn INDIGO() -> (c: Color)
        ensures
            c == opaque(75, 0, 130),
    {
        Color { red: 75, green: 0, blue: 130, alpha: 255, valid: true }
    }

    /// Ivory: #fffff0.
    #[allow(non_snake_case)]
    pub fn IVORY() -> (c: Color)
        ensures
            c == opaque(255, 255, 240),
    {
        Color { red: 255, green: 255, blue: 240, alpha: 255, valid: true }
    }

    /// Khaki: #f0e68c.
    #[allow(non_snake_case)]
    pub fn KHAKI() -> (c: Color)
        ensures
            c == opaque(240, 230, 140),
    {
        Color { red: 240, green: 230, blue: 140, alpha: 255, valid: true }
    }

    /// Lavender Blush: #fff0f5.
    #[allow(non_snake_case)]
    pub fn LAVENDER_BLUSH() -> (c: Color)
        ensures
            c == opaque(255, 240, 245),
    {
        Color { red: 255, green: 240, blue: 245, alpha: 255, valid: true }
    }

    /// Lavender: #e6e6fa.
    #[allow(non_snake_case)]
    pub fn LAVENDER() -> (c: Color)
        ensures
            c == opaque(230, 230, 250),
    {
        Color { red: 230, green: 230, blue: 250, alpha: 255, valid: true }
    }

    /// Lawn Green: #7cfc00.
    #[allow(non_snake_case)]
    pub fn LAWN_GREEN() -> (c: Color)
        ensures
            c == opaque(124, 252, 0),
    {
        Color { red: 124, green: 252, blue: 0, alpha: 255, valid: true }
    }

    /// Lemon Chiffon: #fffacd.
    #[allow(non_snake_case)]
    pub fn LEMON_CHIFFON() -> (c: Color)
        ensures
            c == opaque(255, 250, 205),
    {
        Color { red: 255, green: 250, blue: 205, alpha: 255, valid: true }
    }

    /// Light Blue: #add8e6.
    #[allow(non_snake_case)]
    pub fn LIGHT_BLUE() -> (c: Color)
        ensures
            c == opaque(173, 216, 230),
    {
        Color { red: 173, green: 216, blue: 230, alpha: 255, valid: true }
    }

    /// Light Coral: #f08080.
    #[allow(non_snake_case)]
    pub fn LIGHT_CORAL() -> (c: Color)
        ensures
            c == opaque(240, 128, 128),
    {
        Color { red: 240, green: 128, blue: 128, alpha: 255, valid: true }
    }

    /// Light Cyan: #e0ffff.
    #[allow(non_snake_case)]
    pub fn LIGHT_CYAN() -> (c: Color)
        ensures
            c == opaque(224, 255, 255),
    {
        Color { red: 224, green: 255, blue: 255, alpha: 255, valid: true }
    }

    /// Light Goldenrod Yellow: #fafad2.
    #[allow(non_snake_case)]
    pub fn LIGHT_GOLDENROD_YELLOW() -> (c: Color)
        ensures
            c == opaque(250, 250, 210),
    {
        Color { red: 250, green: 250, blue: 210, alpha: 255, valid: true }
    }

    /// Light Gray: #d3d3d3.
    #[allow(non_snake_case)]
    pub fn LIGHT_GRAY() -> (c: Color)
        ensures
            c == opaque(211, 211, 211),
    {
        Color { red: 211, green: 211, blue: 211, alpha: 255, valid: true }
    }

    /// Light Green: #90ee90.
    #[allow(non_snake_case)]
    pub fn LIGHT_GREEN() -> (c: Color)
        ensures
            c == opaque(144, 238, 144),
    {
        Color { red: 144, green: 238, blue: 144, alpha: 255, valid: true }
    }

    /// Light Grey: #d3d3d3.
    #[allow(non_snake_case)]
    pub fn LIGHT_GREY() -> (c: Color)
        ensures
            c == opaque(211, 211, 211),
    {
        Color { red: 211, green: 211, blue: 211, alpha: 255, valid: true }
    }

    /// Light Pink: #ffb6c1.
    #[allow(non_snake_case)]
    pub fn LIGHT_PINK() -> (c: Color)
        ensures
            c == opaque(255, 182, 193),
    {
        Color { red: 255, green: 182, blue: 193, alpha: 255, valid: true }
    }

    /// Light Salmon: #ffa07a.
    #[allow(non_snake_case)]
    pub fn LIGHT_SALMON() -> (c: Color)
        ensures
            c == opaque(255, 160, 122),
    {
        Color { red: 255, green: 160, blue: 122, alpha: 255, valid: true }
    }

    /// Light Sea Green: #20b2aa.
    #[allow(non_snake_case)]
    pub fn LIGHT_SEA_GREEN() -> (c: Color)
        ensures
            c == opaque(32, 178, 170),
    {
        Color { red: 32, green: 178, blue: 170, alpha: 255, valid: true }
    }

    /// Light Sky Blue: #87cefa.
    #[allow(non_snake_case)]
    pub fn LIGHT_SKY_BLUE() -> (c: Color)
        ensures
            c == opaque(135, 206, 250),
    {
        Color { red: 135, green: 206, blue: 250, alpha: 255, valid: true }
    }

    /// Light Slate Gray: #778899.
    #[allow(non_snake_case)]
    pub fn LIGHT_SLATE_GRAY() -> (c: Color)
        ensures
            c == opaque(119, 136, 153),
    {
        Color { red: 119, green: 136, blue: 153, alpha: 255, valid: true }
    }

    /// Light Slate Grey: #778899.
    #[allow(non_snake_case)]
    pub fn LIGHT_SLATE_GREY() -> (c: Color)
        ensures
            c == opaque(119, 136, 153),
    {
        Color { red: 119, green: 136, blue: 153, alpha: 255, valid: true }
    }

    /// Light Steel Blue: #b0c4de.
    #[allow(non_snake_case)]
    pub fn LIGHT_STEEL_BLUE() -> (c: Color)
        ensures
            c == opaque(176, 196, 222),
    {
        Color { red: 176, green: 196, blue: 222, alpha: 255, valid: true }
    }

    /// Light Yellow: #ffffe0.
    #[allow(non_snake_case)]
    pub fn LIGHT_YELLOW() -> (c: Color)
        ensures
            c == opaque(255, 255, 224),
    {
        Color { red: 255, green: 255, blue: 224, alpha: 255, valid: true }
    }

    /// Lime: #00ff00.
    #[allow(non_snake_case)]
    pub fn LIME() -> (c: Color)
        ensures
            c == opaque(0, 255, 0),
    {
        Color { red: 0, green: 255, blue: 0, alpha: 255, valid: true }
    }

    /// Lime Green: #32cd32.
    #[allow(non_snake_case)]
    pub fn LIME_GREEN() -> (c: Color)
        ensures
            c == opaque(50, 205, 50),
    {
        Color { red: 50, green: 205, blue: 50, alpha: 255, valid: true }
    }

    /// Linen: #faf0e6.
    #[allow(non_snake_case)]
    pub fn LINEN() -> (c: Color)
        ensures
            c == opaque(250, 240, 230),
    {
        Color { red: 250, green: 240, blue: 230, alpha: 255, valid: true }
    }

    /// Magenta: #ff00ff.
    #[allow(non_snake_case)]
    pub fn MAGENTA() -> (c: Color)
        ensures
            c == opaque(255, 0, 255),
    {
        Color { red: 255, green: 0, blue: 255, alpha: 255, valid: true }
    }

    /// Maroon: #800000.
    #[allow(non_snake_case)]
    pub fn MAROON() -> (c: Color)
        ensures
            c == opaque(128, 0, 0),
    {
        Color { red: 128, green: 0, blue: 0, alpha: 255, valid: true }
    }

    /// Medium Aquamarine: #66cdaa.
    #[allow(non_snake_case)]
    pub fn MEDIUM_AQUAMARINE() -> (c: Color)
        ensures
            c == opaque(102, 205, 170),
    {
        Color { red: 102, green: 205, blue: 170, alpha: 255, valid: true }
    }

    /// Medium Blue: #0000cd.
    #[allow(non_snake_case)]
    pub fn MEDIUM_BLUE() -> (c: Color)
        ensures
            c == opaque(0, 0, 205),
    {
        Color { red: 0, green: 0, blue: 205, alpha: 255, valid: true }
    }

    /// Medium Orchid: #ba55d3.
    #[allow(non_snake_case)]
    pub fn MEDIUM_ORCHID() -> (c: Color)
        ensures
            c == opaque(186, 85, 211),
    {
        Color { red: 186, green: 85, blue: 211, alpha: 255, valid: true }
    }

    /// Medium Purple: #9370db.
    #[allow(non_snake_case)]
    pub fn MEDIUM_PURPLE() -> (c: Color)
        ensures
            c == opaque(147, 112, 219),
    {
        Color { red: 147, green: 112, blue: 219, alpha: 255, valid: true }
    }

    /// Medium Sea Green: #3cb371.
    #[allow(non_snake_case)]
    pub fn MEDIUM_SEA_GREEN() -> (c: Color)
        ensures
            c == opaque(60, 179, 113),
    {
        Color { red: 60, green: 179, blue: 113, alpha: 255, valid: true }
    }

    /// Medium Slate Blue: #7b68ee.
    #[allow(non_snake_case)]
    pub fn MEDIUM_SLATE_BLUE() -> (c: Color)
        ensures
            c == opaque(123, 104, 238),
    {
        Color { red: 123, green: 104, blue: 238, alpha: 255, valid: true }
    }

    /// Medium Spring Green: #00fa9a.
    #[allow(non_snake_case)]
    pub fn MEDIUM_SPRING_GREEN() -> (c: Color)
        ensures
            c == opaque(0, 250, 154),
    {
        Color { red: 0, green: 250, blue: 154, alpha: 255, valid: true }
    }

    /// Medium Turquoise: #48d1cc.
    #[allow(non_snake_case)]
    pub fn MEDIUM_TURQUOISE() -> (c: Color)
        ensures
            c == opaque(72, 209, 204),
    {
        Color { red: 72, green: 209, blue: 204, alpha: 255, valid: true }
    }

    /// Medium Violet Red: #c71585.
    #[allow(non_snake_case)]
    pub fn MEDIUM_VIOLET_RED() -> (c: Color)
        ensures
            c == opaque(199, 21, 133),
    {
        Color { red: 199, green: 21, blue: 133, alpha: 255, valid: true }
    }

    /// Midnight Blue: #191970.
    #[allow(non_snake_case)]
    pub fn MIDNIGHT_BLUE() -> (c: Color)
        ensures
            c == opaque(25, 25, 112),
    {
        Color { red: 25, green: 25, blue: 112, alpha: 255, valid: true }
    }

    /// Mint Cream: #f5fffa.
    #[allow(non_snake_case)]
    pub fn MINT_CREAM() -> (c: Color)
        ensures
            c == opaque(245, 255, 250),
    {
        Color { red: 245, green: 255, blue: 250, alpha: 255, valid: true }
    }

    /// Misty Rose: #ffe4e1.
    #[allow(non_snake_case)]
    pub fn MISTY_ROSE() -> (c: Color)
        ensures
            c == opaque(255, 228, 225),
    {
        Color { red: 255, green: 228, blue: 225, alpha: 255, valid: true }
    }

    /// Moccasin: #ffe4b5.
    #[allow(non_snake_case)]
    pub fn MOCCASIN() -> (c: Color)
        ensures
            c == opaque(255, 228, 181),
    {
        Color { red: 255, green: 228, blue: 181, alpha: 255, valid: true }
    }

    /// Navajo White: #ffdead.
    #[allow(non_snake_case)]
    pub fn NAVAJO_WHITE() -> (c: Color)
        ensures
            c == opaque(255, 222, 173),
    {
        Color { red: 255, green: 222, blue: 173, alpha: 255, valid: true }
    }

    /// Navy: #000080.
    #[allow(non_snake_case)]
    pub fn NAVY() -> (c: Color)
        ensures
            c == opaque(0, 0, 128),
    {
        Color { red: 0, green: 0, blue: 128, alpha: 255, valid: true }
    }

    /// Old Lace: #fdf5e6.
    #[allow(non_snake_case)]
    pub fn OLD_LACE() -> (c: Color)
        ensures
            c == opaque(253, 245, 230),
    {
        Color { red: 253, green: 245, blue: 230, alpha: 255, valid: true }
    }

    /// Olive: #808000.
    #[allow(non_snake_case)]
    pub fn OLIVE() -> (c: Color)
        ensures
            c == opaque(128, 128, 0),
    {
        Color { red: 128, green: 128, blue: 0, alpha: 255, valid: true }
    }

    /// Olive Drab: #6b8e23.
    #[allow(non_snake_case)]
    pub fn OLIVE_DRAB() -> (c: Color)
        ensures
            c == opaque(107, 142, 35),
    {
        Color { red: 107, green: 142, blue: 35, alpha: 255, valid: true }
    }

    /// Orange: #ffa500.
    #[allow(non_snake_case)]
    pub fn ORANGE() -> (c: Color)
        ensures
            c == opaque(255, 165, 0),
    {
        Color { red: 255, green: 165, blue: 0, alpha: 255, valid: true }
    }

    /// Orange Red: #ff4500.
    #[allow(non_snake_case)]
    pub fn ORANGE_RED() -> (c: Color)
        ensures
            c == opaque(255, 69, 0),
    {
        Color { red: 255, green: 69, blue: 0, alpha: 255, valid: true }
    }

    /// Orchid: #da70d6.
    #[allow(non_snake_case)]
    pub fn ORCHID() -> (c: Color)
        ensures
            c == opaque(218, 112, 214),
    {
        Color { red: 218, green: 112, blue: 214, alpha: 255, valid: true }
    }

    /// Pale Goldenrod: #eee8aa.
    #[allow(non_snake_case)]
    pub fn PALE_GOLDENROD() -> (c: Color)
        ensures
            c == opaque(238, 232, 170),
    {
        Color { red: 238, green: 232, blue: 170, alpha: 255, valid: true }
    }

    /// Pale Green: #98fb98.
    #[allow(non_snake_case)]
    pub fn PALE_GREEN() -> (c: Color)
        ensures
            c == opaque(152, 251, 152),
    {
        Color { red: 152, green: 251, blue: 152, alpha: 255, valid: true }
    }

    /// Pale Turquoise: #afeeee.
    #[allow(non_snake_case)]
    pub fn PALE_TURQUOISE() -> (c: Color)
        ensures
            c == opaque(175, 238, 238),
    {
        Color { red: 175, green: 238, blue: 238, alpha: 255, valid: true }
    }

    /// Pale Violet Red: #db7093.
    #[allow(non_snake_case)]
    pub fn PALE_VIOLET_RED() -> (c: Color)
        ensures
            c == opaque(219, 112, 147),
    {
        Color { red: 219, green: 112, blue: 147, alpha: 255, valid: true }
    }

    /// Papaya Whip: #ffefd5.
    #[allow(non_snake_case)]
    pub fn PAPAYA_WHIP() -> (c: Color)
        ensures
            c == opaque(255, 239, 213),
    {
        Color { red: 255, green: 239, blue: 213, alpha: 255, valid: true }
    }

    /// Peach Puff: #ffdab9.
    #[allow(non_snake_case)]
    pub fn PEACH_PUFF() -> (c: Color)
        ensures
            c == opaque(255, 218, 185),
    {
        Color { red: 255, green: 218, blue: 185, alpha: 255, valid: true }
    }

    /// Peru: #cd853f.
    #[allow(non_snake_case)]
    pub fn PERU() -> (c: Color)
        ensures
            c == opaque(205, 133, 63),
    {
        Color { red: 205, green: 133, blue: 63, alpha: 255, valid: true }
    }

    /// Pink: #ffc0cb.
    #[allow(non_snake_case)]
    pub fn PINK() -> (c: Color)
        ensures
            c == opaque(255, 192, 203),
    {
        Color { red: 255, green: 192, blue: 203, alpha: 255, valid: true }
    }

    /// Plum: #dda0dd.
    #[allow(non_snake_case)]
    pub fn PLUM() -> (c: Color)
        ensures
            c == opaque(221, 160, 221),
    {
        Color { red: 221, green: 160, blue: 221, alpha: 255, valid: true }
    }

    /// Powder Blue: #b0e0e6.
    #[allow(non_snake_case)]
    pub fn POWDER_BLUE() -> (c: Color)
        ensures
            c == opaque(176, 224, 230),
    {
        Color { red: 176, green: 224, blue: 230, alpha: 255, valid: true }
    }

    /// Purple: #800080.
    #[allow(non_snake_case)]
    pub fn PURPLE() -> (c: Color)
        ensures
            c == opaque(128, 0, 128),
    {
        Color { red: 128, green: 0, blue: 128, alpha: 255, valid: true }
    }

    /// Rebecca Purple: #663399.
    #[allow(non_snake_case)]
    pub fn REBECCA_PURPLE() -> (c: Color)
        ensures
            c == opaque(102, 51, 153),
    {
        Color { red: 102, green: 51, blue: 153, alpha: 255, valid: true }
    }

    /// Red: #ff0000.
    #[allow(non_snake_case)]
    pub fn RED() -> (c: Color)
        ensures
            c == opaque(255, 0, 0),
    {
        Color { red: 255, green: 0, blue: 0, alpha: 255, valid: true }
    }

    /// Rosy Brown: #bc8f8f.
    #[allow(non_snake_case)]
    pub fn ROSY_BROWN() -> (c: Color)
        ensures
            c == opaque(188, 143, 143),
    {
        Color { red: 188, green: 143, blue: 143, alpha: 255, valid: true }
    }

    /// Royal Blue: #4169e1.
    #[allow(non_snake_case)]
    pub fn ROYAL_BLUE() -> (c: Color)
        ensures
            c == opaque(65, 105, 225),
    {
        Color { red: 65, green: 105, blue: 225, alpha: 255, valid: true }
    }

    /// Saddle Brown: #8b4513.
    #[allow(non_snake_case)]
    pub fn SADDLE_BROWN() -> (c: Color)
        ensures
            c == opaque(139, 69, 19),
    {
        Color { red: 139, green: 69, blue: 19, alpha: 255, valid: true }
    }

    /// Salmon: #fa8072.
    #[allow(non_snake_case)]
    pub fn SALMON() -> (c: Color)
        ensures
            c == opaque(250, 128, 114),
    {
        Color { red: 250, green: 128, blue: 114, alpha: 255, valid: true }
    }

    /// Sandy Brown: #f4a460.
    #[allow(non_snake_case)]
    pub fn SANDY_BROWN() -> (c: Color)
        ensures
            c == opaque(244, 164, 96),
    {
        Color { red: 244, green: 164, blue: 96, alpha: 255, valid: true }
    }

    /// Sea Green: #2e8b57.
    #[allow(non_snake_case)]
    pub fn SEA_GREEN() -> (c: Color)
        ensures
            c == opaque(46, 139, 87),
    {
        Color { red: 46, green: 139, blue: 87, alpha: 255, valid: true }
    }

    /// Seashell: #fff5ee.
    #[allow(non_snake_case)]
    pub fn SEASHELL() -> (c: Color)
        ensures
            c == opaque(255, 245, 238),
    {
        Color { red: 255, green: 245, blue: 238, alpha: 255, valid: true }
    }

    /// Sienna: #a0522d.
    #[allow(non_snake_case)]
    pub fn SIENNA() -> (c: Color)
        ensures
            c == opaque(160, 82, 45),
    {
        Color { red: 160, green: 82, blue: 45, alpha: 255, valid: true }
    }

    /// Silver: #c0c0c0.
    #[allow(non_snake_case)]
    pub fn SILVER() -> (c: Color)
        ensures
            c == opaque(192, 192, 192),
    {
        Color { red: 192, green: 192, blue: 192, alpha: 255, valid: true }
    }

    /// Sky Blue: #87ceeb.
    #[allow(non_snake_case)]
    pub fn SKY_BLUE() -> (c: Color)
        ensures
            c == opaque(135, 206, 235),
    {
        Color { red: 135, green: 206, blue: 235, alpha: 255, valid: true }
    }

    /// Slate Blue: #6a5acd.
    #[allow(non_snake_case)]
    pub fn SLATE_BLUE() -> (c: Color)
        ensures
            c == opaque(106, 90, 205),
    {
        Color { red: 106, green: 90, blue: 205, alpha: 255, valid: true }
    }

    /// Slate Gray: #708090.
    #[allow(non_snake_case)]
    pub fn SLATE_GRAY() -> (c: Color)
        ensures
            c == opaque(112, 128, 144),
    {
        Color { red: 112, green: 128, blue: 144, alpha: 255, valid: true }
    }

    /// Slate Grey: #708090.
    #[allow(non_snake_case)]
    pub fn SLATE_GREY() -> (c: Color)
        ensures
            c == opaque(112, 128, 144),
    {
        Color { red: 112, green: 128, blue: 144, alpha: 255, valid: true }
    }

    /// Snow: #fffafa.
    #[allow(non_snake_case)]
    pub fn SNOW() -> (c: Color)
        ensures
            c == opaque(255, 250, 250),
    {
        Color { red: 255, green: 250, blue: 250, alpha: 255, valid: true }
    }

    /// Spring Green: #00ff7f.
    #[allow(non_snake_case)]
    pub fn SPRING_GREEN() -> (c: Color)
        ensures
            c == opaque(0, 255, 127),
    {
        Color { red: 0, green: 255, blue: 127, alpha: 255, valid: true }
    }

    /// Steel Blue: #4682b4.
    #[allow(non_snake_case)]
    pub fn STEEL_BLUE() -> (c: Color)
        ensures
            c == opaque(70, 130, 180),
    {
        Color { red: 70, green: 130, blue: 180, alpha: 255, valid: true }
    }

    /// Tan: #d2b48c.
    #[allow(non_snake_case)]
    pub fn TAN() -> (c: Color)
        ensures
            c == opaque(210, 180, 140),
    {
        Color { red: 210, green: 180, blue: 140, alpha: 255, valid: true }
    }

    /// Teal: #008080.
    #[allow(non_snake_case)]
    pub fn TEAL() -> (c: Color)
        ensures
            c == opaque(0, 128, 128),
    {
        Color { red: 0, green: 128, blue: 128, alpha: 255, valid: true }
    }

    /// Thistle: #d8bfd8.
    #[allow(non_snake_case)]
    pub fn THISTLE() -> (c: Color)
        ensures
            c == opaque(216, 191, 216),
    {
        Color { red: 216, green: 191, blue: 216, alpha: 255, valid: true }
    }

    /// Tomato: #ff6347.
    #[allow(non_snake_case)]
    pub fn TOMATO() -> (c: Color)
        ensures
            c == opaque(255, 99, 71),
    {
        Color { red: 255, green: 99, blue: 71, alpha: 255, valid: true }
    }

    /// Turquoise: #40e0d0.
    #[allow(non_snake_case)]
    pub fn TURQUOISE() -> (c: Color)
        ensures
            c == opaque(64, 224, 208),
    {
        Color { red: 64, green: 224, blue: 208, alpha: 255, valid: true }
    }

    /// Violet: #ee82ee.
    #[allow(non_snake_case)]
    pub fn VIOLET() -> (c: Color)
        ensures
            c == opaque(238, 130, 238),
    {
        Color { red: 238, green: 130, blue: 238, alpha: 255, valid: true }
    }

    /// Wheat: #f5deb3.
    #[allow(non_snake_case)]
    pub fn WHEAT() -> (c: Color)
        ensures
            c == opaque(245, 222, 179),
    {
        Color { red: 245, green: 222, blue: 179, alpha: 255, valid: true }
    }

    /// White: #ffffff.
    #[allow(non_snake_case)]
    pub fn WHITE() -> (c: Color)
        ensures
            c == opaque(255, 255, 255),
    {
        Color { red: 255, green: 255, blue: 255, alpha: 255, valid: true }
    }

    /// White Smoke: #f5f5f5.
    #[allow(non_snake_case)]
    pub fn WHITE_SMOKE() -> (c: Color)
        ensures
            c == opaque(245, 245, 245),
    {
        Color { red: 245, green: 245, blue: 245, alpha: 255, valid: true }
    }

    /// Yellow Green: #9acd32.
    #[allow(non_snake_case)]
    pub fn YELLOW_GREEN() -> (c: Color)
        ensures
            c == opaque(154, 205, 50),
    {
        Color { red: 154, green: 205, blue: 50, alpha: 255, valid: true }
    }

    /// Yellow: #ffff00.
    #[allow(non_snake_case)]
    pub fn YELLOW() -> (c: Color)
        ensures
            c == opaque(255, 255, 0),
    {
        Color { red: 255, green: 255, blue: 0, alpha: 255, valid: true }
    }
}

} // verus!
