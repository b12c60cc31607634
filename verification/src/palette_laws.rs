//! What holds of the palette: every name finds its colour, however it is
//! written, and the name of every colour of the palette finds the colour
//! again.
use vstd::prelude::*;
use crate::color::Color;
use crate::color_text::{color_name, first_colored, first_named, name_key, named_color};
use crate::colors::{palette_color, palette_name, PALETTE_LEN};
use crate::text::{back_spaces, lowered, skip_spaces, trimmed, without};

verus! {

/// The key of the palette's entry `i`: its name in lower case, without
/// underscores.
pub open spec fn palette_key(i: int) -> Seq<char> {
    if i == 0 {
        "transparent"@
    } else if i == 1 {
        "aliceblue"@
    } else if i == 2 {
        "antiquewhite"@
    } else if i == 3 {
        "aqua"@
    } else if i == 4 {
        "aquamarine"@
    } else if i == 5 {
        "azure"@
    } else if i == 6 {
        "beige"@
    } else if i == 7 {
        "bisque"@
    } else if i == 8 {
        "black"@
    } else if i == 9 {
        "blanchedalmond"@
    } else if i == 10 {
        "blue"@
    } else if i == 11 {
        "blueviolet"@
    } else if i == 12 {
        "brown"@
    } else if i == 13 {
        "burlywood"@
    } else if i == 14 {
        "cadetblue"@
    } else if i == 15 {
        "chartreuse"@
    } else if i == 16 {
        "chocolate"@
    } else if i == 17 {
        "coral"@
    } else if i == 18 {
        "cornflowerblue"@
    } else if i == 19 {
        "cornsilk"@
    } else if i == 20 {
        "crimson"@
    } else if i == 21 {
        "cyan"@
    } else if i == 22 {
        "darkblue"@
    } else if i == 23 {
        "darkcyan"@
    } else if i == 24 {
        "darkgoldenrod"@
    } else if i == 25 {
        "darkgray"@
    } else if i == 26 {
        "darkgreen"@
    } else if i == 27 {
        "darkgrey"@
    } else if i == 28 {
        "darkkhaki"@
    } else if i == 29 {
        "darkmagenta"@
    } else if i == 30 {
        "darkolivegreen"@
    } else if i == 31 {
        "darkorange"@
    } else if i == 32 {
        "darkorchid"@
    } else if i == 33 {
        "darkred"@
    } else if i == 34 {
        "darksalmon"@
    } else if i == 35 {
        "darkseagreen"@
    } else if i == 36 {
        "darkslateblue"@
    } else if i == 37 {
        "darkslategray"@
    } else if i == 38 {
        "darkslategrey"@
    } else if i == 39 {
        "darkturquoise"@
    } else if i == 40 {
        "darkviolet"@
    } else if i == 41 {
        "deeppink"@
    } else if i == 42 {
        "deepskyblue"@
    } else if i == 43 {
        "dimgray"@
    } else if i == 44 {
        "dimgrey"@
    } else if i == 45 {
        "dodgerblue"@
    } else if i == 46 {
        "firebrick"@
    } else if i == 47 {
        "floralwhite"@
    } else if i == 48 {
        "forestgreen"@
    } else if i == 49 {
        "fuchsia"@
    } else if i == 50 {
        "gainsboro"@
    } else if i == 51 {
        "ghostwhite"@
    } else if i == 52 {
        "goldenrod"@
    } else if i == 53 {
        "gold"@
    } else if i == 54 {
        "gray"@
    } else if i == 55 {
        "green"@
    } else if i == 56 {
        "greenyellow"@
    } else if i == 57 {
        "grey"@
    } else if i == 58 {
        "honeydew"@
    } else if i == 59 {
        "hotpink"@
    } else if i == 60 {
        "indianred"@
    } else if i == 61 {
        "indigo"@
    } else if i == 62 {
        "ivory"@
    } else if i == 63 {
        "khaki"@
    } else if i == 64 {
        "lavenderblush"@
    } else if i == 65 {
        "lavender"@
    } else if i == 66 {
        "lawngreen"@
    } else if i == 67 {
        "lemonchiffon"@
    } else if i == 68 {
        "lightblue"@
    } else if i == 69 {
        "lightcoral"@
    } else if i == 70 {
        "lightcyan"@
    } else if i == 71 {
        "lightgoldenrodyellow"@
    } else if i == 72 {
        "lightgray"@
    } else if i == 73 {
        "lightgreen"@
    } else if i == 74 {
        "lightgrey"@
    } else if i == 75 {
        "lightpink"@
    } else if i == 76 {
        "lightsalmon"@
    } else if i == 77 {
        "lightseagreen"@
    } else if i == 78 {
        "lightskyblue"@
    } else if i == 79 {
        "lightslategray"@
    } else if i == 80 {
        "lightslategrey"@
    } else if i == 81 {
        "lightsteelblue"@
    } else if i == 82 {
        "lightyellow"@
    } else if i == 83 {
        "lime"@
    } else if i == 84 {
        "limegreen"@
    } else if i == 85 {
        "linen"@
    } else if i == 86 {
        "magenta"@
    } else if i == 87 {
        "maroon"@
    } else if i == 88 {
        "mediumaquamarine"@
    } else if i == 89 {
        "mediumblue"@
    } else if i == 90 {
        "mediumorchid"@
    } else if i == 91 {
        "mediumpurple"@
    } else if i == 92 {
        "mediumseagreen"@
    } else if i == 93 {
        "mediumslateblue"@
    } else if i == 94 {
        "mediumspringgreen"@
    } else if i == 95 {
        "mediumturquoise"@
    } else if i == 96 {
        "mediumvioletred"@
    } else if i == 97 {
        "midnightblue"@
    } else if i == 98 {
        "mintcream"@
    } else if i == 99 {
        "mistyrose"@
    } else if i == 100 {
        "moccasin"@
    } else if i == 101 {
        "navajowhite"@
    } else if i == 102 {
        "navy"@
    } else if i == 103 {
        "oldlace"@
    } else if i == 104 {
        "olive"@
    } else if i == 105 {
        "olivedrab"@
    } else if i == 106 {
        "orange"@
    } else if i == 107 {
        "orangered"@
    } else if i == 108 {
        "orchid"@
    } else if i == 109 {
        "palegoldenrod"@
    } else if i == 110 {
        "palegreen"@
    } else if i == 111 {
        "paleturquoise"@
    } else if i == 112 {
        "palevioletred"@
    } else if i == 113 {
        "papayawhip"@
    } else if i == 114 {
        "peachpuff"@
    } else if i == 115 {
        "peru"@
    } else if i == 116 {
        "pink"@
    } else if i == 117 {
        "plum"@
    } else if i == 118 {
        "powderblue"@
    } else if i == 119 {
        "purple"@
    } else if i == 120 {
        "rebeccapurple"@
    } else if i == 121 {
        "red"@
    } else if i == 122 {
        "rosybrown"@
    } else if i == 123 {
        "royalblue"@
    } else if i == 124 {
        "saddlebrown"@
    } else if i == 125 {
        "salmon"@
    } else if i == 126 {
        "sandybrown"@
    } else if i == 127 {
        "seagreen"@
    } else if i == 128 {
        "seashell"@
    } else if i == 129 {
        "sienna"@
    } else if i == 130 {
        "silver"@
    } else if i == 131 {
        "skyblue"@
    } else if i == 132 {
        "slateblue"@
    } else if i == 133 {
        "slategray"@
    } else if i == 134 {
        "slategrey"@
    } else if i == 135 {
        "snow"@
    } else if i == 136 {
        "springgreen"@
    } else if i == 137 {
        "steelblue"@
    } else if i == 138 {
        "tan"@
    } else if i == 139 {
        "teal"@
    } else if i == 140 {
        "thistle"@
    } else if i == 141 {
        "tomato"@
    } else if i == 142 {
        "turquoise"@
    } else if i == 143 {
        "violet"@
    } else if i == 144 {
        "wheat"@
    } else if i == 145 {
        "white"@
    } else if i == 146 {
        "whitesmoke"@
    } else if i == 147 {
        "yellowgreen"@
    } else {
        "yellow"@
    }
}

/// A number made of the length of a key and of four of its characters: the
/// first, the second, the sixth and the last but one. No two keys of the
/// palette have the same.
pub open spec fn fingerprint(s: Seq<char>) -> int {
    let first = if s.len() > 0 {
        s[0] as int
    } else {
        0
    };
    let second = if s.len() > 1 {
        s[1] as int
    } else {
        0
    };
    let sixth = if s.len() > 5 {
        s[5] as int
    } else {
        0
    };
    let near_last = if s.len() >= 2 {
        s[s.len() - 2] as int
    } else {
        0
    };
    s.len() + 64 * (first + 128 * (second + 128 * (sixth + 128 * near_last)))
}

/// The fingerprint of the key of the palette's entry `i`.
pub open spec fn palette_fingerprint(i: int) -> int {
    if i == 0 {
        14882331915
    } else if i == 1 {
        15807125577
    } else if i == 2 {
        15692847180
    } else if i == 3 {
        15704406084
    } else if i == 4 {
        14866593866
    } else if i == 5 {
        15301826629
    } else if i == 6 {
        13825259653
    } else if i == 7 {
        15810246790
    } else if i == 8 {
        13288446085
    } else if i == 9 {
        14873893006
    } else if i == 10 {
        15704365188
    } else if i == 11 {
        13666982026
    } else if i == 12 {
        15972849797
    } else if i == 13 {
        15023913097
    } else if i == 14 {
        15807035593
    } else if i == 15 {
        15555434698
    } else if i == 16 {
        15683360969
    } else if i == 17 {
        13020035269
    } else if i == 18 {
        15817636046
    } else if i == 19 {
        14606530760
    } else if i == 20 {
        15015499975
    } else if i == 21 {
        13020117188
    } else if i == 22 {
        15817521416
    } else if i == 23 {
        13146798344
    } else if i == 24 {
        15015360781
    } else if i == 25 {
        13139458312
    } else if i == 26 {
        13676329225
    } else if i == 27 {
        13676329224
    } else if i == 28 {
        14471149833
    } else if i == 29 {
        15671769355
    } else if i == 30 {
        13670037774
    } else if i == 31 {
        13944764682
    } else if i == 32 {
        14213200138
    } else if i == 33 {
        13662697735
    } else if i == 34 {
        15000680714
    } else if i == 35 {
        13662697740
    } else if i == 36 {
        15817521421
    } else if i == 37 {
        13133166861
    } else if i == 38 {
        13670037773
    } else if i == 39 {
        15558523149
    } else if i == 40 {
        13666892042
    } else if i == 41 {
        14874884360
    } else if i == 42 {
        15816505611
    } else if i == 43 {
        13121698055
    } else if i == 44 {
        13662763271
    } else if i == 45 {
        15823927562
    } else if i == 46 {
        13407959433
    } else if i == 47 {
        15683393931
    } else if i == 48 {
        13678541195
    } else if i == 49 {
        14203926919
    } else if i == 50 {
        15404382665
    } else if i == 51 {
        15694895562
    } else if i == 52 {
        15014427081
    } else if i == 53 {
        14496430532
    } else if i == 54 {
        13020060100
    } else if i == 55 {
        13556931013
    } else if i == 56 {
        15025985995
    } else if i == 57 {
        13556931012
    } else if i == 58 {
        13661764104
    } else if i == 59 {
        14880209415
    } else if i == 60 {
        13672241737
    } else if i == 61 {
        13941725766
    } else if i == 62 {
        15301794373
    } else if i == 63 {
        14362155717
    } else if i == 64 {
        15540697869
    } else if i == 65 {
        13661649672
    } else if i == 66 {
        13676329737
    } else if i == 67 {
        15002811148
    } else if i == 68 {
        15807101705
    } else if i == 69 {
        13123795722
    } else if i == 70 {
        13123795721
    } else if i == 71 {
        15007038228
    } else if i == 72 {
        13127990025
    } else if i == 73 {
        13664860938
    } else if i == 74 {
        13664860937
    } else if i == 75 {
        14882257673
    } else if i == 76 {
        15019621131
    } else if i == 77 {
        13677443853
    } else if i == 78 {
        15824927500
    } else if i == 79 {
        13140572942
    } else if i == 80 {
        13677443854
    } else if i == 81 {
        15824927502
    } else if i == 82 {
        15025912587
    } else if i == 83 {
        14630599428
    } else if i == 84 {
        13676395273
    } else if i == 85 {
        13556857605
    } else if i == 86 {
        15691692871
    } else if i == 87 {
        15014312774
    } else if i == 88 {
        14879079248
    } else if i == 89 {
        15818603338
    } else if i == 90 {
        14207990604
    } else if i == 91 {
        14610643788
    } else if i == 92 {
        13671119694
    } else if i == 93 {
        15818603343
    } else if i == 94 {
        13671119697
    } else if i == 95 {
        15550167887
    } else if i == 96 {
        13671119695
    } else if i == 97 {
        15812344652
    } else if i == 98 {
        13139524425
    } else if i == 99 {
        15555443529
    } else if i == 100 {
        14214363976
    } else if i == 101 {
        15686450059
    } else if i == 102 {
        15838493572
    } else if i == 103 {
        13392255943
    } else if i == 104 {
        15838583749
    } else if i == 105 {
        13124869065
    } else if i == 106 {
        13931273158
    } else if i == 107 {
        13662837705
    } else if i == 108 {
        14198660038
    } else if i == 109 {
        15015361549
    } else if i == 110 {
        13676329993
    } else if i == 111 {
        15558523917
    } else if i == 112 {
        13666892813
    } else if i == 113 {
        14195375114
    } else if i == 114 {
        13808483337
    } else if i == 115 {
        15301655556
    } else if i == 116 {
        14764817412
    } else if i == 117 {
        15704366084
    } else if i == 118 {
        15823928330
    } else if i == 119 {
        14602386438
    } else if i == 120 {
        14600158349
    } else if i == 121 {
        13556825219
    } else if i == 122 {
        16092363913
    } else if i == 123 {
        15807151241
    } else if i == 124 {
        16078617803
    } else if i == 125 {
        15014313158
    } else if i == 126 {
        16075472074
    } else if i == 127 {
        13662731464
    } else if i == 128 {
        14602255560
    } else if i == 129 {
        14866529478
    } else if i == 130 {
        13676395718
    } else if i == 131 {
        15827041479
    } else if i == 132 {
        15807126729
    } else if i == 133 {
        13128015049
    } else if i == 134 {
        13664885961
    } else if i == 135 {
        14899076292
    } else if i == 136 {
        13664918731
    } else if i == 137 {
        15807192265
    } else if i == 138 {
        13019921667
    } else if i == 139 {
        13019954436
    } else if i == 140 {
        14609620231
    } else if i == 141 {
        15686565126
    } else if i == 142 {
        15552396553
    } else if i == 143 {
        13678493062
    } else if i == 144 {
        13019979205
    } else if i == 145 {
        15570116037
    } else if i == 146 {
        14482742730
    } else if i == 147 {
        13681606219
    } else {
        15023783494
    }
}

/// The entry of the palette whose key has the fingerprint `print`.
pub open spec fn slot(print: int) -> int {
    if print == 14882331915 {
        0
    } else if print == 15807125577 {
        1
    } else if print == 15692847180 {
        2
    } else if print == 15704406084 {
        3
    } else if print == 14866593866 {
        4
    } else if print == 15301826629 {
        5
    } else if print == 13825259653 {
        6
    } else if print == 15810246790 {
        7
    } else if print == 13288446085 {
        8
    } else if print == 14873893006 {
        9
    } else if print == 15704365188 {
        10
    } else if print == 13666982026 {
        11
    } else if print == 15972849797 {
        12
    } else if print == 15023913097 {
        13
    } else if print == 15807035593 {
        14
    } else if print == 15555434698 {
        15
    } else if print == 15683360969 {
        16
    } else if print == 13020035269 {
        17
    } else if print == 15817636046 {
        18
    } else if print == 14606530760 {
        19
    } else if print == 15015499975 {
        20
    } else if print == 13020117188 {
        21
    } else if print == 15817521416 {
        22
    } else if print == 13146798344 {
        23
    } else if print == 15015360781 {
        24
    } else if print == 13139458312 {
        25
    } else if print == 13676329225 {
        26
    } else if print == 13676329224 {
        27
    } else if print == 14471149833 {
        28
    } else if print == 15671769355 {
        29
    } else if print == 13670037774 {
        30
    } else if print == 13944764682 {
        31
    } else if print == 14213200138 {
        32
    } else if print == 13662697735 {
        33
    } else if print == 15000680714 {
        34
    } else if print == 13662697740 {
        35
    } else if print == 15817521421 {
        36
    } else if print == 13133166861 {
        37
    } else if print == 13670037773 {
        38
    } else if print == 15558523149 {
        39
    } else if print == 13666892042 {
        40
    } else if print == 14874884360 {
        41
    } else if print == 15816505611 {
        42
    } else if print == 13121698055 {
        43
    } else if print == 13662763271 {
        44
    } else if print == 15823927562 {
        45
    } else if print == 13407959433 {
        46
    } else if print == 15683393931 {
        47
    } else if print == 13678541195 {
        48
    } else if print == 14203926919 {
        49
    } else if print == 15404382665 {
        50
    } else if print == 15694895562 {
        51
    } else if print == 15014427081 {
        52
    } else if print == 14496430532 {
        53
    } else if print == 13020060100 {
        54
    } else if print == 13556931013 {
        55
    } else if print == 15025985995 {
        56
    } else if print == 13556931012 {
        57
    } else if print == 13661764104 {
        58
    } else if print == 14880209415 {
        59
    } else if print == 13672241737 {
        60
    } else if print == 13941725766 {
        61
    } else if print == 15301794373 {
        62
    } else if print == 14362155717 {
        63
    } else if print == 15540697869 {
        64
    } else if print == 13661649672 {
        65
    } else if print == 13676329737 {
        66
    } else if print == 15002811148 {
        67
    } else if print == 15807101705 {
        68
    } else if print == 13123795722 {
        69
    } else if print == 13123795721 {
        70
    } else if print == 15007038228 {
        71
    } else if print == 13127990025 {
        72
    } else if print == 13664860938 {
        73
    } else if print == 13664860937 {
        74
    } else if print == 14882257673 {
        75
    } else if print == 15019621131 {
        76
    } else if print == 13677443853 {
        77
    } else if print == 15824927500 {
        78
    } else if print == 13140572942 {
        79
    } else if print == 13677443854 {
        80
    } else if print == 15824927502 {
        81
    } else if print == 15025912587 {
        82
    } else if print == 14630599428 {
        83
    } else if print == 13676395273 {
        84
    } else if print == 13556857605 {
        85
    } else if print == 15691692871 {
        86
    } else if print == 15014312774 {
        87
    } else if print == 14879079248 {
        88
    } else if print == 15818603338 {
        89
    } else if print == 14207990604 {
        90
    } else if print == 14610643788 {
        91
    } else if print == 13671119694 {
        92
    } else if print == 15818603343 {
        93
    } else if print == 13671119697 {
        94
    } else if print == 15550167887 {
        95
    } else if print == 13671119695 {
        96
    } else if print == 15812344652 {
        97
    } else if print == 13139524425 {
        98
    } else if print == 15555443529 {
        99
    } else if print == 14214363976 {
        100
    } else if print == 15686450059 {
        101
    } else if print == 15838493572 {
        102
    } else if print == 13392255943 {
        103
    } else if print == 15838583749 {
        104
    } else if print == 13124869065 {
        105
    } else if print == 13931273158 {
        106
    } else if print == 13662837705 {
        107
    } else if print == 14198660038 {
        108
    } else if print == 15015361549 {
        109
    } else if print == 13676329993 {
        110
    } else if print == 15558523917 {
        111
    } else if print == 13666892813 {
        112
    } else if print == 14195375114 {
        113
    } else if print == 13808483337 {
        114
    } else if print == 15301655556 {
        115
    } else if print == 14764817412 {
        116
    } else if print == 15704366084 {
        117
    } else if print == 15823928330 {
        118
    } else if print == 14602386438 {
        119
    } else if print == 14600158349 {
        120
    } else if print == 13556825219 {
        121
    } else if print == 16092363913 {
        122
    } else if print == 15807151241 {
        123
    } else if print == 16078617803 {
        124
    } else if print == 15014313158 {
        125
    } else if print == 16075472074 {
        126
    } else if print == 13662731464 {
        127
    } else if print == 14602255560 {
        128
    } else if print == 14866529478 {
        129
    } else if print == 13676395718 {
        130
    } else if print == 15827041479 {
        131
    } else if print == 15807126729 {
        132
    } else if print == 13128015049 {
        133
    } else if print == 13664885961 {
        134
    } else if print == 14899076292 {
        135
    } else if print == 13664918731 {
        136
    } else if print == 15807192265 {
        137
    } else if print == 13019921667 {
        138
    } else if print == 13019954436 {
        139
    } else if print == 14609620231 {
        140
    } else if print == 15686565126 {
        141
    } else if print == 15552396553 {
        142
    } else if print == 13678493062 {
        143
    } else if print == 13019979205 {
        144
    } else if print == 15570116037 {
        145
    } else if print == 14482742730 {
        146
    } else if print == 13681606219 {
        147
    } else if print == 15023783494 {
        148
    } else {
        -1
    }
}

proof fn lemma_key_transparent()
    ensures
        name_key("TRANSPARENT"@) == "transparent"@,
        fingerprint("transparent"@) == 14882331915,
{
    reveal_strlit("TRANSPARENT");
    reveal_strlit("transparent");
    reveal_with_fuel(without, 13);
    let bare = without(lowered("TRANSPARENT"@), '_');
    assert(bare =~= "transparent"@);
    assert(skip_spaces(bare, 0) == 0);
    assert(back_spaces(bare, bare.len() as int) == bare.len());
    assert(trimmed(bare) =~= "transparent"@);
}

proof fn lemma_key_alice_blue()
    ensures
        name_key("ALICE_BLUE"@) == "aliceblue"@,
        fingerprint("aliceblue"@) == 15807125577,
{
    reveal_strlit("ALICE_BLUE");
    reveal_strlit("aliceblue");
    reveal_with_fuel(without, 12);
    let bare = without(lowered("ALICE_BLUE"@), '_');
    assert(bare =~= "aliceblue"@);
    assert(skip_spaces(bare, 0) == 0);
    assert(back_spaces(bare, bare.len() as int) == bare.len());
    assert(trimmed(bare) =~= "aliceblue"@);
}

proof fn lemma_key_antique_white()
    ensures
        name_key("ANTIQUE_WHITE"@) == "antiquewhite"@,
        fingerprint("antiquewhite"@) == 15692847180,
{
    reveal_strlit("ANTIQUE_WHITE");
    reveal_strlit("antiquewhite");
    reveal_with_fuel(without, 15);
    let bare = without(lowered("ANTIQUE_WHITE"@), '_');
    assert(bare =~= "antiquewhite"@);
    assert(skip_spaces(bare, 0) == 0);
    assert(back_spaces(bare, bare.len() as int) == bare.len());
    assert(trimmed(bare) =~= "antiquewhite"@);
}

proof fn lemma_key_aqua()
    ensures
        name_key("AQUA"@) == "aqua"@,
        fingerprint("aqua"@) == 15704406084,
{
    reveal_strlit("AQUA");
    reveal_strlit("aqua");
    reveal_with_fuel(without, 6);
    let bare = without(lowered("AQUA"@), '_');
    assert(bare =~= "aqua"@);
    assert(skip_spaces(bare, 0) == 0);
    assert(back_spaces(bare, bare.len() as int) == bare.len());
    assert(trimmed(bare) =~= "aqua"@);
}

proof fn lemma_key_aquamarine()
    ensures
        name_key("AQUAMARINE"@) == "aquamarine"@,
        fingerprint("aquamarine"@) == 14866593866,
{
    reveal_strlit("AQUAMARINE");
    reveal_strlit("aquamarine");
    reveal_with_fuel(without, 12);
    let bare = without(lowered("AQUAMARINE"@), '_');
    assert(bare =~= "aquamarine"@);
    assert(skip_spaces(bare, 0) == 0);
    assert(back_spaces(bare, bare.len() as int) == bare.len());
    assert(trimmed(bare) =~= "aquamarine"@);
}

proof fn lemma_key_azure()
    ensures
        name_key("AZURE"@) == "azure"@,
        fingerprint("azure"@) == 15301826629,
{
    reveal_strlit("AZURE");
    reveal_strlit("azure");
    reveal_with_fuel(without, 7);
    let bare = without(lowered("AZURE"@), '_');
    assert(bare =~= "azure"@);
    assert(skip_spaces(bare, 0) == 0);
    assert(back_spaces(bare, bare.len() as int) == bare.len());
    assert(trimmed(bare) =~= "azure"@);
}

proof fn lemma_key_beige()
    ensures
        name_key("BEIGE"@) == "beige"@,
        fingerprint("beige"@) == 13825259653,
{
    reveal_strlit("BEIGE");
    reveal_strlit("beige");
    reveal_with_fuel(without, 7);
    let bare = without(lowered("BEIGE"@), '_');
    assert(bare =~= "beige"@);
    assert(skip_spaces(bare, 0) == 0);
    assert(back_spaces(bare, bare.len() as int) == bare.len());
    assert(trimmed(bare) =~= "beige"@);
}

proof fn lemma_key_bisque()
    ensures
        name_key("BISQUE"@) == "bisque"@,
        fingerprint("bisque"@) == 15810246790,
{
    reveal_strlit("BISQUE");
    reveal_strlit("bisque");
    reveal_with_fuel(without, 8);
    let bare = without(lowered("BISQUE"@), '_');
    assert(bare =~= "bisque"@);
    assert(skip_spaces(bare, 0) == 0);
    assert(back_spaces(bare, bare.len() as int) == bare.len());
    assert(trimmed(bare) =~= "bisque"@);
}

proof fn lemma_key_black()
    ensures
        name_key("BLACK"@) == "black"@,
        fingerprint("black"@) == 13288446085,
{
    reveal_strlit("BLACK");
    reveal_strlit("black");
    reveal_with_fuel(without, 7);
    let bare = without(lowered("BLACK"@), '_');
    assert(bare =~= "black"@);
    assert(skip_spaces(bare, 0) == 0);
    assert(back_spaces(bare, bare.len() as int) == bare.len());
    assert(trimmed(bare) =~= "black"@);
}

proof fn lemma_key_blanched_almond()
    ensures
        name_key("BLANCHED_ALMOND"@) == "blanchedalmond"@,
        fingerprint("blanchedalmond"@) == 14873893006,
{
    reveal_strlit("BLANCHED_ALMOND");
    reveal_strlit("blanchedalmond");
    reveal_with_fuel(without, 17);
    let bare = without(lowered("BLANCHED_ALMOND"@), '_');
    assert(bare =~= "blanchedalmond"@);
    assert(skip_spaces(bare, 0) == 0);
    assert(back_spaces(bare, bare.len() as int) == bare.len());
    assert(trimmed(bare) =~= "blanchedalmond"@);
}

proof fn lemma_key_blue()
    ensures
        name_key("BLUE"@) == "blue"@,
        fingerprint("blue"@) == 15704365188,
{
    reveal_strlit("BLUE");
    reveal_strlit("blue");
    reveal_with_fuel(without, 6);
    let bare = without(lowered("BLUE"@), '_');
    assert(bare =~= "blue"@);
    assert(skip_spaces(bare, 0) == 0);
    assert(back_spaces(bare, bare.len() as int) == bare.len());
    assert(trimmed(bare) =~= "blue"@);
}

proof fn lemma_key_blue_violet()
    ensures
        name_key("BLUE_VIOLET"@) == "blueviolet"@,
        fingerprint("blueviolet"@) == 13666982026,
{
    reveal_strlit("BLUE_VIOLET");
    reveal_strlit("blueviolet");
    reveal_with_fuel(without, 13);
    let bare = without(lowered("BLUE_VIOLET"@), '_');
    assert(bare =~= "blueviolet"@);
    assert(skip_spaces(bare, 0) == 0);
    assert(back_spaces(bare, bare.len() as int) == bare.len());
    assert(trimmed(bare) =~= "blueviolet"@);
}

proof fn lemma_key_brown()
    ensures
        name_key("BROWN"@) == "brown"@,
        fingerprint("brown"@) == 15972849797,
{
    reveal_strlit("BROWN");
    reveal_strlit("brown");
    reveal_with_fuel(without, 7);
    let bare = without(lowered("BROWN"@), '_');
    assert(bare =~= "brown"@);
    assert(skip_spaces(bare, 0) == 0);
    assert(back_spaces(bare, bare.len() as int) == bare.len());
    assert(trimmed(bare) =~= "brown"@);
}

proof fn lemma_key_burly_wood()
    ensures
        name_key("BURLY_WOOD"@) == "burlywood"@,
        fingerprint("burlywood"@) == 15023913097,
{
    reveal_strlit("BURLY_WOOD");
    reveal_strlit("burlywood");
    reveal_with_fuel(without, 12);
    let bare = without(lowered("BURLY_WOOD"@), '_');
    assert(bare =~= "burlywood"@);
    assert(skip_spaces(bare, 0) == 0);
    assert(back_spaces(bare, bare.len() as int) == bare.len());
    assert(trimmed(bare) =~= "burlywood"@);
}

proof fn lemma_key_cadet_blue()
    ensures
        name_key("CADET_BLUE"@) == "cadetblue"@,
        fingerprint("cadetblue"@) == 15807035593,
{
    reveal_strlit("CADET_BLUE");
    reveal_strlit("cadetblue");
    reveal_with_fuel(without, 12);
    let bare = without(lowered("CADET_BLUE"@), '_');
    assert(bare =~= "cadetblue"@);
    assert(skip_spaces(bare, 0) == 0);
    assert(back_spaces(bare, bare.len() as int) == bare.len());
    assert(trimmed(bare) =~= "cadetblue"@);
}

proof fn lemma_key_chartreuse()
    ensures
        name_key("CHARTREUSE"@) == "chartreuse"@,
        fingerprint("chartreuse"@) == 15555434698,
{
    reveal_strlit("CHARTREUSE");
    reveal_strlit("chartreuse");
    reveal_with_fuel(without, 12);
    let bare = without(lowered("CHARTREUSE"@), '_');
    assert(bare =~= "chartreuse"@);
    assert(skip_spaces(bare, 0) == 0);
    assert(back_spaces(bare, bare.len() as int) == bare.len());
    assert(trimmed(bare) =~= "chartreuse"@);
}

proof fn lemma_key_chocolate()
    ensures
        name_key("CHOCOLATE"@) == "chocolate"@,
        fingerprint("chocolate"@) == 15683360969,
{
    reveal_strlit("CHOCOLATE");
    reveal_strlit("chocolate");
    reveal_with_fuel(without, 11);
    let bare = without(lowered("CHOCOLATE"@), '_');
    assert(bare =~= "chocolate"@);
    assert(skip_spaces(bare, 0) == 0);
    assert(back_spaces(bare, bare.len() as int) == bare.len());
    assert(trimmed(bare) =~= "chocolate"@);
}

proof fn lemma_key_coral()
    ensures
        name_key("CORAL"@) == "coral"@,
        fingerprint("coral"@) == 13020035269,
{
    reveal_strlit("CORAL");
    reveal_strlit("coral");
    reveal_with_fuel(without, 7);
    let bare = without(lowered("CORAL"@), '_');
    assert(bare =~= "coral"@);
    assert(skip_spaces(bare, 0) == 0);
    assert(back_spaces(bare, bare.len() as int) == bare.len());
    assert(trimmed(bare) =~= "coral"@);
}

proof fn lemma_key_cornflower_blue()
    ensures
        name_key("CORNFLOWER_BLUE"@) == "cornflowerblue"@,
        fingerprint("cornflowerblue"@) == 15817636046,
{
    reveal_strlit("CORNFLOWER_BLUE");
    reveal_strlit("cornflowerblue");
    reveal_with_fuel(without, 17);
    let bare = without(lowered("CORNFLOWER_BLUE"@), '_');
    assert(bare =~= "cornflowerblue"@);
    assert(skip_spaces(bare, 0) == 0);
    assert(back_spaces(bare, bare.len() as int) == bare.len());
    assert(trimmed(bare) =~= "cornflowerblue"@);
}

proof fn lemma_key_corn_silk()
    ensures
        name_key("CORN_SILK"@) == "cornsilk"@,
        fingerprint("cornsilk"@) == 14606530760,
{
    reveal_strlit("CORN_SILK");
    reveal_strlit("cornsilk");
    reveal_with_fuel(without, 11);
    let bare = without(lowered("CORN_SILK"@), '_');
    assert(bare =~= "cornsilk"@);
    assert(skip_spaces(bare, 0) == 0);
    assert(back_spaces(bare, bare.len() as int) == bare.len());
    assert(trimmed(bare) =~= "cornsilk"@);
}

proof fn lemma_key_crimson()
    ensures
        name_key("CRIMSON"@) == "crimson"@,
        fingerprint("crimson"@) == 15015499975,
{
    reveal_strlit("CRIMSON");
    reveal_strlit("crimson");
    reveal_with_fuel(without, 9);
    let bare = without(lowered("CRIMSON"@), '_');
    assert(bare =~= "crimson"@);
    assert(skip_spaces(bare, 0) == 0);
    assert(back_spaces(bare, bare.len() as int) == bare.len());
    assert(trimmed(bare) =~= "crimson"@);
}

proof fn lemma_key_cyan()
    ensures
        name_key("CYAN"@) == "cyan"@,
        fingerprint("cyan"@) == 13020117188,
{
    reveal_strlit("CYAN");
    reveal_strlit("cyan");
    reveal_with_fuel(without, 6);
    let bare = without(lowered("CYAN"@), '_');
    assert(bare =~= "cyan"@);
    assert(skip_spaces(bare, 0) == 0);
    assert(back_spaces(bare, bare.len() as int) == bare.len());
    assert(trimmed(bare) =~= "cyan"@);
}

proof fn lemma_key_dark_blue()
    ensures
        name_key("DARK_BLUE"@) == "darkblue"@,
        fingerprint("darkblue"@) == 15817521416,
{
    reveal_strlit("DARK_BLUE");
    reveal_strlit("darkblue");
    reveal_with_fuel(without, 11);
    let bare = without(lowered("DARK_BLUE"@), '_');
    assert(bare =~= "darkblue"@);
    assert(skip_spaces(bare, 0) == 0);
    assert(back_spaces(bare, bare.len() as int) == bare.len());
    assert(trimmed(bare) =~= "darkblue"@);
}

proof fn lemma_key_dark_cyan()
    ensures
        name_key("DARK_CYAN"@) == "darkcyan"@,
        fingerprint("darkcyan"@) == 13146798344,
{
    reveal_strlit("DARK_CYAN");
    reveal_strlit("darkcyan");
    reveal_with_fuel(without, 11);
    let bare = without(lowered("DARK_CYAN"@), '_');
    assert(bare =~= "darkcyan"@);
    assert(skip_spaces(bare, 0) == 0);
    assert(back_spaces(bare, bare.len() as int) == bare.len());
    assert(trimmed(bare) =~= "darkcyan"@);
}

proof fn lemma_key_dark_goldenrod()
    ensures
        name_key("DARK_GOLDENROD"@) == "darkgoldenrod"@,
        fingerprint("darkgoldenrod"@) == 15015360781,
{
    reveal_strlit("DARK_GOLDENROD");
    reveal_strlit("darkgoldenrod");
    reveal_with_fuel(without, 16);
    let bare = without(lowered("DARK_GOLDENROD"@), '_');
    assert(bare =~= "darkgoldenrod"@);
    assert(skip_spaces(bare, 0) == 0);
    assert(back_spaces(bare, bare.len() as int) == bare.len());
    assert(trimmed(bare) =~= "darkgoldenrod"@);
}

proof fn lemma_key_dark_gray()
    ensures
        name_key("DARK_GRAY"@) == "darkgray"@,
        fingerprint("darkgray"@) == 13139458312,
{
    reveal_strlit("DARK_GRAY");
    reveal_strlit("darkgray");
    reveal_with_fuel(without, 11);
    let bare = without(lowered("DARK_GRAY"@), '_');
    assert(bare =~= "darkgray"@);
    assert(skip_spaces(bare, 0) == 0);
    assert(back_spaces(bare, bare.len() as int) == bare.len());
    assert(trimmed(bare) =~= "darkgray"@);
}

proof fn lemma_key_dark_green()
    ensures
        name_key("DARK_GREEN"@) == "darkgreen"@,
        fingerprint("darkgreen"@) == 13676329225,
{
    reveal_strlit("DARK_GREEN");
    reveal_strlit("darkgreen");
    reveal_with_fuel(without, 12);
    let bare = without(lowered("DARK_GREEN"@), '_');
    assert(bare =~= "darkgreen"@);
    assert(skip_spaces(bare, 0) == 0);
    assert(back_spaces(bare, bare.len() as int) == bare.len());
    assert(trimmed(bare) =~= "darkgreen"@);
}

proof fn lemma_key_dark_grey()
    ensures
        name_key("DARK_GREY"@) == "darkgrey"@,
        fingerprint("darkgrey"@) == 13676329224,
{
    reveal_strlit("DARK_GREY");
    reveal_strlit("darkgrey");
    reveal_with_fuel(without, 11);
    let bare = without(lowered("DARK_GREY"@), '_');
    assert(bare =~= "darkgrey"@);
    assert(skip_spaces(bare, 0) == 0);
    assert(back_spaces(bare, bare.len() as int) == bare.len());
    assert(trimmed(bare) =~= "darkgrey"@);
}

proof fn lemma_key_dark_khaki()
    ensures
        name_key("DARK_KHAKI"@) == "darkkhaki"@,
        fingerprint("darkkhaki"@) == 14471149833,
{
    reveal_strlit("DARK_KHAKI");
    reveal_strlit("darkkhaki");
    reveal_with_fuel(without, 12);
    let bare = without(lowered("DARK_KHAKI"@), '_');
    assert(bare =~= "darkkhaki"@);
    assert(skip_spaces(bare, 0) == 0);
    assert(back_spaces(bare, bare.len() as int) == bare.len());
    assert(trimmed(bare) =~= "darkkhaki"@);
}

proof fn lemma_key_dark_magenta()
    ensures
        name_key("DARK_MAGENTA"@) == "darkmagenta"@,
        fingerprint("darkmagenta"@) == 15671769355,
{
    reveal_strlit("DARK_MAGENTA");
    reveal_strlit("darkmagenta");
    reveal_with_fuel(without, 14);
    let bare = without(lowered("DARK_MAGENTA"@), '_');
    assert(bare =~= "darkmagenta"@);
    assert(skip_spaces(bare, 0) == 0);
    assert(back_spaces(bare, bare.len() as int) == bare.len());
    assert(trimmed(bare) =~= "darkmagenta"@);
}

proof fn lemma_key_dark_olive_green()
    ensures
        name_key("DARK_OLIVE_GREEN"@) == "darkolivegreen"@,
        fingerprint("darkolivegreen"@) == 13670037774,
{
    reveal_strlit("DARK_OLIVE_GREEN");
    reveal_strlit("darkolivegreen");
    reveal_with_fuel(without, 18);
    let bare = without(lowered("DARK_OLIVE_GREEN"@), '_');
    assert(bare =~= "darkolivegreen"@);
    assert(skip_spaces(bare, 0) == 0);
    assert(back_spaces(bare, bare.len() as int) == bare.len());
    assert(trimmed(bare) =~= "darkolivegreen"@);
}

proof fn lemma_key_dark_orange()
    ensures
        name_key("DARK_ORANGE"@) == "darkorange"@,
        fingerprint("darkorange"@) == 13944764682,
{
    reveal_strlit("DARK_ORANGE");
    reveal_strlit("darkorange");
    reveal_with_fuel(without, 13);
    let bare = without(lowered("DARK_ORANGE"@), '_');
    assert(bare =~= "darkorange"@);
    assert(skip_spaces(bare, 0) == 0);
    assert(back_spaces(bare, bare.len() as int) == bare.len());
    assert(trimmed(bare) =~= "darkorange"@);
}

proof fn lemma_key_dark_orchid()
    ensures
        name_key("DARK_ORCHID"@) == "darkorchid"@,
        fingerprint("darkorchid"@) == 14213200138,
{
    reveal_strlit("DARK_ORCHID");
    reveal_strlit("darkorchid");
    reveal_with_fuel(without, 13);
    let bare = without(lowered("DARK_ORCHID"@), '_');
    assert(bare =~= "darkorchid"@);
    assert(skip_spaces(bare, 0) == 0);
    assert(back_spaces(bare, bare.len() as int) == bare.len());
    assert(trimmed(bare) =~= "darkorchid"@);
}

proof fn lemma_key_dark_red()
    ensures
        name_key("DARK_RED"@) == "darkred"@,
        fingerprint("darkred"@) == 13662697735,
{
    reveal_strlit("DARK_RED");
    reveal_strlit("darkred");
    reveal_with_fuel(without, 10);
    let bare = without(lowered("DARK_RED"@), '_');
    assert(bare =~= "darkred"@);
    assert(skip_spaces(bare, 0) == 0);
    assert(back_spaces(bare, bare.len() as int) == bare.len());
    assert(trimmed(bare) =~= "darkred"@);
}

proof fn lemma_key_dark_salmon()
    ensures
        name_key("DARK_SALMON"@) == "darksalmon"@,
        fingerprint("darksalmon"@) == 15000680714,
{
    reveal_strlit("DARK_SALMON");
    reveal_strlit("darksalmon");
    reveal_with_fuel(without, 13);
    let bare = without(lowered("DARK_SALMON"@), '_');
    assert(bare =~= "darksalmon"@);
    assert(skip_spaces(bare, 0) == 0);
    assert(back_spaces(bare, bare.len() as int) == bare.len());
    assert(trimmed(bare) =~= "darksalmon"@);
}

proof fn lemma_key_dark_sea_green()
    ensures
        name_key("DARK_SEA_GREEN"@) == "darkseagreen"@,
        fingerprint("darkseagreen"@) == 13662697740,
{
    reveal_strlit("DARK_SEA_GREEN");
    reveal_strlit("darkseagreen");
    reveal_with_fuel(without, 16);
    let bare = without(lowered("DARK_SEA_GREEN"@), '_');
    assert(bare =~= "darkseagreen"@);
    assert(skip_spaces(bare, 0) == 0);
    assert(back_spaces(bare, bare.len() as int) == bare.len());
    assert(trimmed(bare) =~= "darkseagreen"@);
}

proof fn lemma_key_dark_slate_blue()
    ensures
        name_key("DARK_SLATE_BLUE"@) == "darkslateblue"@,
        fingerprint("darkslateblue"@) == 15817521421,
{
    reveal_strlit("DARK_SLATE_BLUE");
    reveal_strlit("darkslateblue");
    reveal_with_fuel(without, 17);
    let bare = without(lowered("DARK_SLATE_BLUE"@), '_');
    assert(bare =~= "darkslateblue"@);
    assert(skip_spaces(bare, 0) == 0);
    assert(back_spaces(bare, bare.len() as int) == bare.len());
    assert(trimmed(bare) =~= "darkslateblue"@);
}

proof fn lemma_key_dark_slate_gray()
    ensures
        name_key("DARK_SLATE_GRAY"@) == "darkslategray"@,
        fingerprint("darkslategray"@) == 13133166861,
{
    reveal_strlit("DARK_SLATE_GRAY");
    reveal_strlit("darkslategray");
    reveal_with_fuel(without, 17);
    let bare = without(lowered("DARK_SLATE_GRAY"@), '_');
    assert(bare =~= "darkslategray"@);
    assert(skip_spaces(bare, 0) == 0);
    assert(back_spaces(bare, bare.len() as int) == bare.len());
    assert(trimmed(bare) =~= "darkslategray"@);
}

proof fn lemma_key_dark_slate_grey()
    ensures
        name_key("DARK_SLATE_GREY"@) == "darkslategrey"@,
        fingerprint("darkslategrey"@) == 13670037773,
{
    reveal_strlit("DARK_SLATE_GREY");
    reveal_strlit("darkslategrey");
    reveal_with_fuel(without, 17);
    let bare = without(lowered("DARK_SLATE_GREY"@), '_');
    assert(bare =~= "darkslategrey"@);
    assert(skip_spaces(bare, 0) == 0);
    assert(back_spaces(bare, bare.len() as int) == bare.len());
    assert(trimmed(bare) =~= "darkslategrey"@);
}

proof fn lemma_key_dark_turquoise()
    ensures
        name_key("DARK_TURQUOISE"@) == "darkturquoise"@,
        fingerprint("darkturquoise"@) == 15558523149,
{
    reveal_strlit("DARK_TURQUOISE");
    reveal_strlit("darkturquoise");
    reveal_with_fuel(without, 16);
    let bare = without(lowered("DARK_TURQUOISE"@), '_');
    assert(bare =~= "darkturquoise"@);
    assert(skip_spaces(bare, 0) == 0);
    assert(back_spaces(bare, bare.len() as int) == bare.len());
    assert(trimmed(bare) =~= "darkturquoise"@);
}

proof fn lemma_key_dark_violet()
    ensures
        name_key("DARK_VIOLET"@) == "darkviolet"@,
        fingerprint("darkviolet"@) == 13666892042,
{
    reveal_strlit("DARK_VIOLET");
    reveal_strlit("darkviolet");
    reveal_with_fuel(without, 13);
    let bare = without(lowered("DARK_VIOLET"@), '_');
    assert(bare =~= "darkviolet"@);
    assert(skip_spaces(bare, 0) == 0);
    assert(back_spaces(bare, bare.len() as int) == bare.len());
    assert(trimmed(bare) =~= "darkviolet"@);
}

proof fn lemma_key_deep_pink()
    ensures
        name_key("DEEP_PINK"@) == "deeppink"@,
        fingerprint("deeppink"@) == 14874884360,
{
    reveal_strlit("DEEP_PINK");
    reveal_strlit("deeppink");
    reveal_with_fuel(without, 11);
    let bare = without(lowered("DEEP_PINK"@), '_');
    assert(bare =~= "deeppink"@);
    assert(skip_spaces(bare, 0) == 0);
    assert(back_spaces(bare, bare.len() as int) == bare.len());
    assert(trimmed(bare) =~= "deeppink"@);
}

proof fn lemma_key_deep_sky_blue()
    ensures
        name_key("DEEP_SKY_BLUE"@) == "deepskyblue"@,
        fingerprint("deepskyblue"@) == 15816505611,
{
    reveal_strlit("DEEP_SKY_BLUE");
    reveal_strlit("deepskyblue");
    reveal_with_fuel(without, 15);
    let bare = without(lowered("DEEP_SKY_BLUE"@), '_');
    assert(bare =~= "deepskyblue"@);
    assert(skip_spaces(bare, 0) == 0);
    assert(back_spaces(bare, bare.len() as int) == bare.len());
    assert(trimmed(bare) =~= "deepskyblue"@);
}

proof fn lemma_key_dim_gray()
    ensures
        name_key("DIM_GRAY"@) == "dimgray"@,
        fingerprint("dimgray"@) == 13121698055,
{
    reveal_strlit("DIM_GRAY");
    reveal_strlit("dimgray");
    reveal_with_fuel(without, 10);
    let bare = without(lowered("DIM_GRAY"@), '_');
    assert(bare =~= "dimgray"@);
    assert(skip_spaces(bare, 0) == 0);
    assert(back_spaces(bare, bare.len() as int) == bare.len());
    assert(trimmed(bare) =~= "dimgray"@);
}

proof fn lemma_key_dim_grey()
    ensures
        name_key("DIM_GREY"@) == "dimgrey"@,
        fingerprint("dimgrey"@) == 13662763271,
{
    reveal_strlit("DIM_GREY");
    reveal_strlit("dimgrey");
    reveal_with_fuel(without, 10);
    let bare = without(lowered("DIM_GREY"@), '_');
    assert(bare =~= "dimgrey"@);
    assert(skip_spaces(bare, 0) == 0);
    assert(back_spaces(bare, bare.len() as int) == bare.len());
    assert(trimmed(bare) =~= "dimgrey"@);
}

proof fn lemma_key_dodger_blue()
    ensures
        name_key("DODGER_BLUE"@) == "dodgerblue"@,
        fingerprint("dodgerblue"@) == 15823927562,
{
    reveal_strlit("DODGER_BLUE");
    reveal_strlit("dodgerblue");
    reveal_with_fuel(without, 13);
    let bare = without(lowered("DODGER_BLUE"@), '_');
    assert(bare =~= "dodgerblue"@);
    assert(skip_spaces(bare, 0) == 0);
    assert(back_spaces(bare, bare.len() as int) == bare.len());
    assert(trimmed(bare) =~= "dodgerblue"@);
}

proof fn lemma_key_firebrick()
    ensures
        name_key("FIREBRICK"@) == "firebrick"@,
        fingerprint("firebrick"@) == 13407959433,
{
    reveal_strlit("FIREBRICK");
    reveal_strlit("firebrick");
    reveal_with_fuel(without, 11);
    let bare = without(lowered("FIREBRICK"@), '_');
    assert(bare =~= "firebrick"@);
    assert(skip_spaces(bare, 0) == 0);
    assert(back_spaces(bare, bare.len() as int) == bare.len());
    assert(trimmed(bare) =~= "firebrick"@);
}

proof fn lemma_key_floral_white()
    ensures
        name_key("FLORAL_WHITE"@) == "floralwhite"@,
        fingerprint("floralwhite"@) == 15683393931,
{
    reveal_strlit("FLORAL_WHITE");
    reveal_strlit("floralwhite");
    reveal_with_fuel(without, 14);
    let bare = without(lowered("FLORAL_WHITE"@), '_');
    assert(bare =~= "floralwhite"@);
    assert(skip_spaces(bare, 0) == 0);
    assert(back_spaces(bare, bare.len() as int) == bare.len());
    assert(trimmed(bare) =~= "floralwhite"@);
}

proof fn lemma_key_forest_green()
    ensures
        name_key("FOREST_GREEN"@) == "forestgreen"@,
        fingerprint("forestgreen"@) == 13678541195,
{
    reveal_strlit("FOREST_GREEN");
    reveal_strlit("forestgreen");
    reveal_with_fuel(without, 14);
    let bare = without(lowered("FOREST_GREEN"@), '_');
    assert(bare =~= "forestgreen"@);
    assert(skip_spaces(bare, 0) == 0);
    assert(back_spaces(bare, bare.len() as int) == bare.len());
    assert(trimmed(bare) =~= "forestgreen"@);
}

proof fn lemma_key_fuchsia()
    ensures
        name_key("FUCHSIA"@) == "fuchsia"@,
        fingerprint("fuchsia"@) == 14203926919,
{
    reveal_strlit("FUCHSIA");
    reveal_strlit("fuchsia");
    reveal_with_fuel(without, 9);
    let bare = without(lowered("FUCHSIA"@), '_');
    assert(bare =~= "fuchsia"@);
    assert(skip_spaces(bare, 0) == 0);
    assert(back_spaces(bare, bare.len() as int) == bare.len());
    assert(trimmed(bare) =~= "fuchsia"@);
}

proof fn lemma_key_gainsboro()
    ensures
        name_key("GAINSBORO"@) == "gainsboro"@,
        fingerprint("gainsboro"@) == 15404382665,
{
    reveal_strlit("GAINSBORO");
    reveal_strlit("gainsboro");
    reveal_with_fuel(without, 11);
    let bare = without(lowered("GAINSBORO"@), '_');
    assert(bare =~= "gainsboro"@);
    assert(skip_spaces(bare, 0) == 0);
    assert(back_spaces(bare, bare.len() as int) == bare.len());
    assert(trimmed(bare) =~= "gainsboro"@);
}

proof fn lemma_key_ghost_white()
    ensures
        name_key("GHOST_WHITE"@) == "ghostwhite"@,
        fingerprint("ghostwhite"@) == 15694895562,
{
    reveal_strlit("GHOST_WHITE");
    reveal_strlit("ghostwhite");
    reveal_with_fuel(without, 13);
    let bare = without(lowered("GHOST_WHITE"@), '_');
    assert(bare =~= "ghostwhite"@);
    assert(skip_spaces(bare, 0) == 0);
    assert(back_spaces(bare, bare.len() as int) == bare.len());
    assert(trimmed(bare) =~= "ghostwhite"@);
}

proof fn lemma_key_goldenrod()
    ensures
        name_key("GOLDENROD"@) == "goldenrod"@,
        fingerprint("goldenrod"@) == 15014427081,
{
    reveal_strlit("GOLDENROD");
    reveal_strlit("goldenrod");
    reveal_with_fuel(without, 11);
    let bare = without(lowered("GOLDENROD"@), '_');
    assert(bare =~= "goldenrod"@);
    assert(skip_spaces(bare, 0) == 0);
    assert(back_spaces(bare, bare.len() as int) == bare.len());
    assert(trimmed(bare) =~= "goldenrod"@);
}

proof fn lemma_key_gold()
    ensures
        name_key("GOLD"@) == "gold"@,
        fingerprint("gold"@) == 14496430532,
{
    reveal_strlit("GOLD");
    reveal_strlit("gold");
    reveal_with_fuel(without, 6);
    let bare = without(lowered("GOLD"@), '_');
    assert(bare =~= "gold"@);
    assert(skip_spaces(bare, 0) == 0);
    assert(back_spaces(bare, bare.len() as int) == bare.len());
    assert(trimmed(bare) =~= "gold"@);
}

proof fn lemma_key_gray()
    ensures
        name_key("GRAY"@) == "gray"@,
        fingerprint("gray"@) == 13020060100,
{
    reveal_strlit("GRAY");
    reveal_strlit("gray");
    reveal_with_fuel(without, 6);
    let bare = without(lowered("GRAY"@), '_');
    assert(bare =~= "gray"@);
    assert(skip_spaces(bare, 0) == 0);
    assert(back_spaces(bare, bare.len() as int) == bare.len());
    assert(trimmed(bare) =~= "gray"@);
}

proof fn lemma_key_green()
    ensures
        name_key("GREEN"@) == "green"@,
        fingerprint("green"@) == 13556931013,
{
    reveal_strlit("GREEN");
    reveal_strlit("green");
    reveal_with_fuel(without, 7);
    let bare = without(lowered("GREEN"@), '_');
    assert(bare =~= "green"@);
    assert(skip_spaces(bare, 0) == 0);
    assert(back_spaces(bare, bare.len() as int) == bare.len());
    assert(trimmed(bare) =~= "green"@);
}

proof fn lemma_key_green_yellow()
    ensures
        name_key("GREEN_YELLOW"@) == "greenyellow"@,
        fingerprint("greenyellow"@) == 15025985995,
{
    reveal_strlit("GREEN_YELLOW");
    reveal_strlit("greenyellow");
    reveal_with_fuel(without, 14);
    let bare = without(lowered("GREEN_YELLOW"@), '_');
    assert(bare =~= "greenyellow"@);
    assert(skip_spaces(bare, 0) == 0);
    assert(back_spaces(bare, bare.len() as int) == bare.len());
    assert(trimmed(bare) =~= "greenyellow"@);
}

proof fn lemma_key_grey()
    ensures
        name_key("GREY"@) == "grey"@,
        fingerprint("grey"@) == 13556931012,
{
    reveal_strlit("GREY");
    reveal_strlit("grey");
    reveal_with_fuel(without, 6);
    let bare = without(lowered("GREY"@), '_');
    assert(bare =~= "grey"@);
    assert(skip_spaces(bare, 0) == 0);
    assert(back_spaces(bare, bare.len() as int) == bare.len());
    assert(trimmed(bare) =~= "grey"@);
}

proof fn lemma_key_honeydew()
    ensures
        name_key("HONEYDEW"@) == "honeydew"@,
        fingerprint("honeydew"@) == 13661764104,
{
    reveal_strlit("HONEYDEW");
    reveal_strlit("honeydew");
    reveal_with_fuel(without, 10);
    let bare = without(lowered("HONEYDEW"@), '_');
    assert(bare =~= "honeydew"@);
    assert(skip_spaces(bare, 0) == 0);
    assert(back_spaces(bare, bare.len() as int) == bare.len());
    assert(trimmed(bare) =~= "honeydew"@);
}

proof fn lemma_key_hot_pink()
    ensures
        name_key("HOT_PINK"@) == "hotpink"@,
        fingerprint("hotpink"@) == 14880209415,
{
    reveal_strlit("HOT_PINK");
    reveal_strlit("hotpink");
    reveal_with_fuel(without, 10);
    let bare = without(lowered("HOT_PINK"@), '_');
    assert(bare =~= "hotpink"@);
    assert(skip_spaces(bare, 0) == 0);
    assert(back_spaces(bare, bare.len() as int) == bare.len());
    assert(trimmed(bare) =~= "hotpink"@);
}

proof fn lemma_key_indian_red()
    ensures
        name_key("INDIAN_RED"@) == "indianred"@,
        fingerprint("indianred"@) == 13672241737,
{
    reveal_strlit("INDIAN_RED");
    reveal_strlit("indianred");
    reveal_with_fuel(without, 12);
    let bare = without(lowered("INDIAN_RED"@), '_');
    assert(bare =~= "indianred"@);
    assert(skip_spaces(bare, 0) == 0);
    assert(back_spaces(bare, bare.len() as int) == bare.len());
    assert(trimmed(bare) =~= "indianred"@);
}

proof fn lemma_key_indigo()
    ensures
        name_key("INDIGO"@) == "indigo"@,
        fingerprint("indigo"@) == 13941725766,
{
    reveal_strlit("INDIGO");
    reveal_strlit("indigo");
    reveal_with_fuel(without, 8);
    let bare = without(lowered("INDIGO"@), '_');
    assert(bare =~= "indigo"@);
    assert(skip_spaces(bare, 0) == 0);
    assert(back_spaces(bare, bare.len() as int) == bare.len());
    assert(trimmed(bare) =~= "indigo"@);
}

proof fn lemma_key_ivory()
    ensures
        name_key("IVORY"@) == "ivory"@,
        fingerprint("ivory"@) == 15301794373,
{
    reveal_strlit("IVORY");
    reveal_strlit("ivory");
    reveal_with_fuel(without, 7);
    let bare = without(lowered("IVORY"@), '_');
    assert(bare =~= "ivory"@);
    assert(skip_spaces(bare, 0) == 0);
    assert(back_spaces(bare, bare.len() as int) == bare.len());
    assert(trimmed(bare) =~= "ivory"@);
}

proof fn lemma_key_khaki()
    ensures
        name_key("KHAKI"@) == "khaki"@,
        fingerprint("khaki"@) == 14362155717,
{
    reveal_strlit("KHAKI");
    reveal_strlit("khaki");
    reveal_with_fuel(without, 7);
    let bare = without(lowered("KHAKI"@), '_');
    assert(bare =~= "khaki"@);
    assert(skip_spaces(bare, 0) == 0);
    assert(back_spaces(bare, bare.len() as int) == bare.len());
    assert(trimmed(bare) =~= "khaki"@);
}

proof fn lemma_key_lavender_blush()
    ensures
        name_key("LAVENDER_BLUSH"@) == "lavenderblush"@,
        fingerprint("lavenderblush"@) == 15540697869,
{
    reveal_strlit("LAVENDER_BLUSH");
    reveal_strlit("lavenderblush");
    reveal_with_fuel(without, 16);
    let bare = without(lowered("LAVENDER_BLUSH"@), '_');
    assert(bare =~= "lavenderblush"@);
    assert(skip_spaces(bare, 0) == 0);
    assert(back_spaces(bare, bare.len() as int) == bare.len());
    assert(trimmed(bare) =~= "lavenderblush"@);
}

proof fn lemma_key_lavender()
    ensures
        name_key("LAVENDER"@) == "lavender"@,
        fingerprint("lavender"@) == 13661649672,
{
    reveal_strlit("LAVENDER");
    reveal_strlit("lavender");
    reveal_with_fuel(without, 10);
    let bare = without(lowered("LAVENDER"@), '_');
    assert(bare =~= "lavender"@);
    assert(skip_spaces(bare, 0) == 0);
    assert(back_spaces(bare, bare.len() as int) == bare.len());
    assert(trimmed(bare) =~= "lavender"@);
}

proof fn lemma_key_lawn_green()
    ensures
        name_key("LAWN_GREEN"@) == "lawngreen"@,
        fingerprint("lawngreen"@) == 13676329737,
{
    reveal_strlit("LAWN_GREEN");
    reveal_strlit("lawngreen");
    reveal_with_fuel(without, 12);
    let bare = without(lowered("LAWN_GREEN"@), '_');
    assert(bare =~= "lawngreen"@);
    assert(skip_spaces(bare, 0) == 0);
    assert(back_spaces(bare, bare.len() as int) == bare.len());
    assert(trimmed(bare) =~= "lawngreen"@);
}

proof fn lemma_key_lemon_chiffon()
    ensures
        name_key("LEMON_CHIFFON"@) == "lemonchiffon"@,
        fingerprint("lemonchiffon"@) == 15002811148,
{
    reveal_strlit("LEMON_CHIFFON");
    reveal_strlit("lemonchiffon");
    reveal_with_fuel(without, 15);
    let bare = without(lowered("LEMON_CHIFFON"@), '_');
    assert(bare =~= "lemonchiffon"@);
    assert(skip_spaces(bare, 0) == 0);
    assert(back_spaces(bare, bare.len() as int) == bare.len());
    assert(trimmed(bare) =~= "lemonchiffon"@);
}

proof fn lemma_key_light_blue()
    ensures
        name_key("LIGHT_BLUE"@) == "lightblue"@,
        fingerprint("lightblue"@) == 15807101705,
{
    reveal_strlit("LIGHT_BLUE");
    reveal_strlit("lightblue");
    reveal_with_fuel(without, 12);
    let bare = without(lowered("LIGHT_BLUE"@), '_');
    assert(bare =~= "lightblue"@);
    assert(skip_spaces(bare, 0) == 0);
    assert(back_spaces(bare, bare.len() as int) == bare.len());
    assert(trimmed(bare) =~= "lightblue"@);
}

proof fn lemma_key_light_coral()
    ensures
        name_key("LIGHT_CORAL"@) == "lightcoral"@,
        fingerprint("lightcoral"@) == 13123795722,
{
    reveal_strlit("LIGHT_CORAL");
    reveal_strlit("lightcoral");
    reveal_with_fuel(without, 13);
    let bare = without(lowered("LIGHT_CORAL"@), '_');
    assert(bare =~= "lightcoral"@);
    assert(skip_spaces(bare, 0) == 0);
    assert(back_spaces(bare, bare.len() as int) == bare.len());
    assert(trimmed(bare) =~= "lightcoral"@);
}

proof fn lemma_key_light_cyan()
    ensures
        name_key("LIGHT_CYAN"@) == "lightcyan"@,
        fingerprint("lightcyan"@) == 13123795721,
{
    reveal_strlit("LIGHT_CYAN");
    reveal_strlit("lightcyan");
    reveal_with_fuel(without, 12);
    let bare = without(lowered("LIGHT_CYAN"@), '_');
    assert(bare =~= "lightcyan"@);
    assert(skip_spaces(bare, 0) == 0);
    assert(back_spaces(bare, bare.len() as int) == bare.len());
    assert(trimmed(bare) =~= "lightcyan"@);
}

proof fn lemma_key_light_goldenrod_yellow()
    ensures
        name_key("LIGHT_GOLDENROD_YELLOW"@) == "lightgoldenrodyellow"@,
        fingerprint("lightgoldenrodyellow"@) == 15007038228,
{
    reveal_strlit("LIGHT_GOLDENROD_YELLOW");
    reveal_strlit("lightgoldenrodyellow");
    reveal_with_fuel(without, 24);
    let bare = without(lowered("LIGHT_GOLDENROD_YELLOW"@), '_');
    assert(bare =~= "lightgoldenrodyellow"@);
    assert(skip_spaces(bare, 0) == 0);
    assert(back_spaces(bare, bare.len() as int) == bare.len());
    assert(trimmed(bare) =~= "lightgoldenrodyellow"@);
}

proof fn lemma_key_light_gray()
    ensures
        name_key("LIGHT_GRAY"@) == "lightgray"@,
        fingerprint("lightgray"@) == 13127990025,
{
    reveal_strlit("LIGHT_GRAY");
    reveal_strlit("lightgray");
    reveal_with_fuel(without, 12);
    let bare = without(lowered("LIGHT_GRAY"@), '_');
    assert(bare =~= "lightgray"@);
    assert(skip_spaces(bare, 0) == 0);
    assert(back_spaces(bare, bare.len() as int) == bare.len());
    assert(trimmed(bare) =~= "lightgray"@);
}

proof fn lemma_key_light_green()
    ensures
        name_key("LIGHT_GREEN"@) == "lightgreen"@,
        fingerprint("lightgreen"@) == 13664860938,
{
    reveal_strlit("LIGHT_GREEN");
    reveal_strlit("lightgreen");
    reveal_with_fuel(without, 13);
    let bare = without(lowered("LIGHT_GREEN"@), '_');
    assert(bare =~= "lightgreen"@);
    assert(skip_spaces(bare, 0) == 0);
    assert(back_spaces(bare, bare.len() as int) == bare.len());
    assert(trimmed(bare) =~= "lightgreen"@);
}

proof fn lemma_key_light_grey()
    ensures
        name_key("LIGHT_GREY"@) == "lightgrey"@,
        fingerprint("lightgrey"@) == 13664860937,
{
    reveal_strlit("LIGHT_GREY");
    reveal_strlit("lightgrey");
    reveal_with_fuel(without, 12);
    let bare = without(lowered("LIGHT_GREY"@), '_');
    assert(bare =~= "lightgrey"@);
    assert(skip_spaces(bare, 0) == 0);
    assert(back_spaces(bare, bare.len() as int) == bare.len());
    assert(trimmed(bare) =~= "lightgrey"@);
}

proof fn lemma_key_light_pink()
    ensures
        name_key("LIGHT_PINK"@) == "lightpink"@,
        fingerprint("lightpink"@) == 14882257673,
{
    reveal_strlit("LIGHT_PINK");
    reveal_strlit("lightpink");
    reveal_with_fuel(without, 12);
    let bare = without(lowered("LIGHT_PINK"@), '_');
    assert(bare =~= "lightpink"@);
    assert(skip_spaces(bare, 0) == 0);
    assert(back_spaces(bare, bare.len() as int) == bare.len());
    assert(trimmed(bare) =~= "lightpink"@);
}

proof fn lemma_key_light_salmon()
    ensures
        name_key("LIGHT_SALMON"@) == "lightsalmon"@,
        fingerprint("lightsalmon"@) == 15019621131,
{
    reveal_strlit("LIGHT_SALMON");
    reveal_strlit("lightsalmon");
    reveal_with_fuel(without, 14);
    let bare = without(lowered("LIGHT_SALMON"@), '_');
    assert(bare =~= "lightsalmon"@);
    assert(skip_spaces(bare, 0) == 0);
    assert(back_spaces(bare, bare.len() as int) == bare.len());
    assert(trimmed(bare) =~= "lightsalmon"@);
}

proof fn lemma_key_light_sea_green()
    ensures
        name_key("LIGHT_SEA_GREEN"@) == "lightseagreen"@,
        fingerprint("lightseagreen"@) == 13677443853,
{
    reveal_strlit("LIGHT_SEA_GREEN");
    reveal_strlit("lightseagreen");
    reveal_with_fuel(without, 17);
    let bare = without(lowered("LIGHT_SEA_GREEN"@), '_');
    assert(bare =~= "lightseagreen"@);
    assert(skip_spaces(bare, 0) == 0);
    assert(back_spaces(bare, bare.len() as int) == bare.len());
    assert(trimmed(bare) =~= "lightseagreen"@);
}

proof fn lemma_key_light_sky_blue()
    ensures
        name_key("LIGHT_SKY_BLUE"@) == "lightskyblue"@,
        fingerprint("lightskyblue"@) == 15824927500,
{
    reveal_strlit("LIGHT_SKY_BLUE");
    reveal_strlit("lightskyblue");
    reveal_with_fuel(without, 16);
    let bare = without(lowered("LIGHT_SKY_BLUE"@), '_');
    assert(bare =~= "lightskyblue"@);
    assert(skip_spaces(bare, 0) == 0);
    assert(back_spaces(bare, bare.len() as int) == bare.len());
    assert(trimmed(bare) =~= "lightskyblue"@);
}

proof fn lemma_key_light_slate_gray()
    ensures
        name_key("LIGHT_SLATE_GRAY"@) == "lightslategray"@,
        fingerprint("lightslategray"@) == 13140572942,
{
    reveal_strlit("LIGHT_SLATE_GRAY");
    reveal_strlit("lightslategray");
    reveal_with_fuel(without, 18);
    let bare = without(lowered("LIGHT_SLATE_GRAY"@), '_');
    assert(bare =~= "lightslategray"@);
    assert(skip_spaces(bare, 0) == 0);
    assert(back_spaces(bare, bare.len() as int) == bare.len());
    assert(trimmed(bare) =~= "lightslategray"@);
}

proof fn lemma_key_light_slate_grey()
    ensures
        name_key("LIGHT_SLATE_GREY"@) == "lightslategrey"@,
        fingerprint("lightslategrey"@) == 13677443854,
{
    reveal_strlit("LIGHT_SLATE_GREY");
    reveal_strlit("lightslategrey");
    reveal_with_fuel(without, 18);
    let bare = without(lowered("LIGHT_SLATE_GREY"@), '_');
    assert(bare =~= "lightslategrey"@);
    assert(skip_spaces(bare, 0) == 0);
    assert(back_spaces(bare, bare.len() as int) == bare.len());
    assert(trimmed(bare) =~= "lightslategrey"@);
}

proof fn lemma_key_light_steel_blue()
    ensures
        name_key("LIGHT_STEEL_BLUE"@) == "lightsteelblue"@,
        fingerprint("lightsteelblue"@) == 15824927502,
{
    reveal_strlit("LIGHT_STEEL_BLUE");
    reveal_strlit("lightsteelblue");
    reveal_with_fuel(without, 18);
    let bare = without(lowered("LIGHT_STEEL_BLUE"@), '_');
    assert(bare =~= "lightsteelblue"@);
    assert(skip_spaces(bare, 0) == 0);
    assert(back_spaces(bare, bare.len() as int) == bare.len());
    assert(trimmed(bare) =~= "lightsteelblue"@);
}

proof fn lemma_key_light_yellow()
    ensures
        name_key("LIGHT_YELLOW"@) == "lightyellow"@,
        fingerprint("lightyellow"@) == 15025912587,
{
    reveal_strlit("LIGHT_YELLOW");
    reveal_strlit("lightyellow");
    reveal_with_fuel(without, 14);
    let bare = without(lowered("LIGHT_YELLOW"@), '_');
    assert(bare =~= "lightyellow"@);
    assert(skip_spaces(bare, 0) == 0);
    assert(back_spaces(bare, bare.len() as int) == bare.len());
    assert(trimmed(bare) =~= "lightyellow"@);
}

proof fn lemma_key_lime()
    ensures
        name_key("LIME"@) == "lime"@,
        fingerprint("lime"@) == 14630599428,
{
    reveal_strlit("LIME");
    reveal_strlit("lime");
    reveal_with_fuel(without, 6);
    let bare = without(lowered("LIME"@), '_');
    assert(bare =~= "lime"@);
    assert(skip_spaces(bare, 0) == 0);
    assert(back_spaces(bare, bare.len() as int) == bare.len());
    assert(trimmed(bare) =~= "lime"@);
}

proof fn lemma_key_lime_green()
    ensures
        name_key("LIME_GREEN"@) == "limegreen"@,
        fingerprint("limegreen"@) == 13676395273,
{
    reveal_strlit("LIME_GREEN");
    reveal_strlit("limegreen");
    reveal_with_fuel(without, 12);
    let bare = without(lowered("LIME_GREEN"@), '_');
    assert(bare =~= "limegreen"@);
    assert(skip_spaces(bare, 0) == 0);
    assert(back_spaces(bare, bare.len() as int) == bare.len());
    assert(trimmed(bare) =~= "limegreen"@);
}

proof fn lemma_key_linen()
    ensures
        name_key("LINEN"@) == "linen"@,
        fingerprint("linen"@) == 13556857605,
{
    reveal_strlit("LINEN");
    reveal_strlit("linen");
    reveal_with_fuel(without, 7);
    let bare = without(lowered("LINEN"@), '_');
    assert(bare =~= "linen"@);
    assert(skip_spaces(bare, 0) == 0);
    assert(back_spaces(bare, bare.len() as int) == bare.len());
    assert(trimmed(bare) =~= "linen"@);
}

proof fn lemma_key_magenta()
    ensures
        name_key("MAGENTA"@) == "magenta"@,
        fingerprint("magenta"@) == 15691692871,
{
    reveal_strlit("MAGENTA");
    reveal_strlit("magenta");
    reveal_with_fuel(without, 9);
    let bare = without(lowered("MAGENTA"@), '_');
    assert(bare =~= "magenta"@);
    assert(skip_spaces(bare, 0) == 0);
    assert(back_spaces(bare, bare.len() as int) == bare.len());
    assert(trimmed(bare) =~= "magenta"@);
}

proof fn lemma_key_maroon()
    ensures
        name_key("MAROON"@) == "maroon"@,
        fingerprint("maroon"@) == 15014312774,
{
    reveal_strlit("MAROON");
    reveal_strlit("maroon");
    reveal_with_fuel(without, 8);
    let bare = without(lowered("MAROON"@), '_');
    assert(bare =~= "maroon"@);
    assert(skip_spaces(bare, 0) == 0);
    assert(back_spaces(bare, bare.len() as int) == bare.len());
    assert(trimmed(bare) =~= "maroon"@);
}

proof fn lemma_key_medium_aquamarine()
    ensures
        name_key("MEDIUM_AQUAMARINE"@) == "mediumaquamarine"@,
        fingerprint("mediumaquamarine"@) == 14879079248,
{
    reveal_strlit("MEDIUM_AQUAMARINE");
    reveal_strlit("mediumaquamarine");
    reveal_with_fuel(without, 19);
    let bare = without(lowered("MEDIUM_AQUAMARINE"@), '_');
    assert(bare =~= "mediumaquamarine"@);
    assert(skip_spaces(bare, 0) == 0);
    assert(back_spaces(bare, bare.len() as int) == bare.len());
    assert(trimmed(bare) =~= "mediumaquamarine"@);
}

proof fn lemma_key_medium_blue()
    ensures
        name_key("MEDIUM_BLUE"@) == "mediumblue"@,
        fingerprint("mediumblue"@) == 15818603338,
{
    reveal_strlit("MEDIUM_BLUE");
    reveal_strlit("mediumblue");
    reveal_with_fuel(without, 13);
    let bare = without(lowered("MEDIUM_BLUE"@), '_');
    assert(bare =~= "mediumblue"@);
    assert(skip_spaces(bare, 0) == 0);
    assert(back_spaces(bare, bare.len() as int) == bare.len());
    assert(trimmed(bare) =~= "mediumblue"@);
}

proof fn lemma_key_medium_orchid()
    ensures
        name_key("MEDIUM_ORCHID"@) == "mediumorchid"@,
        fingerprint("mediumorchid"@) == 14207990604,
{
    reveal_strlit("MEDIUM_ORCHID");
    reveal_strlit("mediumorchid");
    reveal_with_fuel(without, 15);
    let bare = without(lowered("MEDIUM_ORCHID"@), '_');
    assert(bare =~= "mediumorchid"@);
    assert(skip_spaces(bare, 0) == 0);
    assert(back_spaces(bare, bare.len() as int) == bare.len());
    assert(trimmed(bare) =~= "mediumorchid"@);
}

proof fn lemma_key_medium_purple()
    ensures
        name_key("MEDIUM_PURPLE"@) == "mediumpurple"@,
        fingerprint("mediumpurple"@) == 14610643788,
{
    reveal_strlit("MEDIUM_PURPLE");
    reveal_strlit("mediumpurple");
    reveal_with_fuel(without, 15);
    let bare = without(lowered("MEDIUM_PURPLE"@), '_');
    assert(bare =~= "mediumpurple"@);
    assert(skip_spaces(bare, 0) == 0);
    assert(back_spaces(bare, bare.len() as int) == bare.len());
    assert(trimmed(bare) =~= "mediumpurple"@);
}

proof fn lemma_key_medium_sea_green()
    ensures
        name_key("MEDIUM_SEA_GREEN"@) == "mediumseagreen"@,
        fingerprint("mediumseagreen"@) == 13671119694,
{
    reveal_strlit("MEDIUM_SEA_GREEN");
    reveal_strlit("mediumseagreen");
    reveal_with_fuel(without, 18);
    let bare = without(lowered("MEDIUM_SEA_GREEN"@), '_');
    assert(bare =~= "mediumseagreen"@);
    assert(skip_spaces(bare, 0) == 0);
    assert(back_spaces(bare, bare.len() as int) == bare.len());
    assert(trimmed(bare) =~= "mediumseagreen"@);
}

proof fn lemma_key_medium_slate_blue()
    ensures
        name_key("MEDIUM_SLATE_BLUE"@) == "mediumslateblue"@,
        fingerprint("mediumslateblue"@) == 15818603343,
{
    reveal_strlit("MEDIUM_SLATE_BLUE");
    reveal_strlit("mediumslateblue");
    reveal_with_fuel(without, 19);
    let bare = without(lowered("MEDIUM_SLATE_BLUE"@), '_');
    assert(bare =~= "mediumslateblue"@);
    assert(skip_spaces(bare, 0) == 0);
    assert(back_spaces(bare, bare.len() as int) == bare.len());
    assert(trimmed(bare) =~= "mediumslateblue"@);
}

proof fn lemma_key_medium_spring_green()
    ensures
        name_key("MEDIUM_SPRING_GREEN"@) == "mediumspringgreen"@,
        fingerprint("mediumspringgreen"@) == 13671119697,
{
    reveal_strlit("MEDIUM_SPRING_GREEN");
    reveal_strlit("mediumspringgreen");
    reveal_with_fuel(without, 21);
    let bare = without(lowered("MEDIUM_SPRING_GREEN"@), '_');
    assert(bare =~= "mediumspringgreen"@);
    assert(skip_spaces(bare, 0) == 0);
    assert(back_spaces(bare, bare.len() as int) == bare.len());
    assert(trimmed(bare) =~= "mediumspringgreen"@);
}

proof fn lemma_key_medium_turquoise()
    ensures
        name_key("MEDIUM_TURQUOISE"@) == "mediumturquoise"@,
        fingerprint("mediumturquoise"@) == 15550167887,
{
    reveal_strlit("MEDIUM_TURQUOISE");
    reveal_strlit("mediumturquoise");
    reveal_with_fuel(without, 18);
    let bare = without(lowered("MEDIUM_TURQUOISE"@), '_');
    assert(bare =~= "mediumturquoise"@);
    assert(skip_spaces(bare, 0) == 0);
    assert(back_spaces(bare, bare.len() as int) == bare.len());
    assert(trimmed(bare) =~= "mediumturquoise"@);
}

proof fn lemma_key_medium_violet_red()
    ensures
        name_key("MEDIUM_VIOLET_RED"@) == "mediumvioletred"@,
        fingerprint("mediumvioletred"@) == 13671119695,
{
    reveal_strlit("MEDIUM_VIOLET_RED");
    reveal_strlit("mediumvioletred");
    reveal_with_fuel(without, 19);
    let bare = without(lowered("MEDIUM_VIOLET_RED"@), '_');
    assert(bare =~= "mediumvioletred"@);
    assert(skip_spaces(bare, 0) == 0);
    assert(back_spaces(bare, bare.len() as int) == bare.len());
    assert(trimmed(bare) =~= "mediumvioletred"@);
}

proof fn lemma_key_midnight_blue()
    ensures
        name_key("MIDNIGHT_BLUE"@) == "midnightblue"@,
        fingerprint("midnightblue"@) == 15812344652,
{
    reveal_strlit("MIDNIGHT_BLUE");
    reveal_strlit("midnightblue");
    reveal_with_fuel(without, 15);
    let bare = without(lowered("MIDNIGHT_BLUE"@), '_');
    assert(bare =~= "midnightblue"@);
    assert(skip_spaces(bare, 0) == 0);
    assert(back_spaces(bare, bare.len() as int) == bare.len());
    assert(trimmed(bare) =~= "midnightblue"@);
}

proof fn lemma_key_mint_cream()
    ensures
        name_key("MINT_CREAM"@) == "mintcream"@,
        fingerprint("mintcream"@) == 13139524425,
{
    reveal_strlit("MINT_CREAM");
    reveal_strlit("mintcream");
    reveal_with_fuel(without, 12);
    let bare = without(lowered("MINT_CREAM"@), '_');
    assert(bare =~= "mintcream"@);
    assert(skip_spaces(bare, 0) == 0);
    assert(back_spaces(bare, bare.len() as int) == bare.len());
    assert(trimmed(bare) =~= "mintcream"@);
}

proof fn lemma_key_misty_rose()
    ensures
        name_key("MISTY_ROSE"@) == "mistyrose"@,
        fingerprint("mistyrose"@) == 15555443529,
{
    reveal_strlit("MISTY_ROSE");
    reveal_strlit("mistyrose");
    reveal_with_fuel(without, 12);
    let bare = without(lowered("MISTY_ROSE"@), '_');
    assert(bare =~= "mistyrose"@);
    assert(skip_spaces(bare, 0) == 0);
    assert(back_spaces(bare, bare.len() as int) == bare.len());
    assert(trimmed(bare) =~= "mistyrose"@);
}

proof fn lemma_key_moccasin()
    ensures
        name_key("MOCCASIN"@) == "moccasin"@,
        fingerprint("moccasin"@) == 14214363976,
{
    reveal_strlit("MOCCASIN");
    reveal_strlit("moccasin");
    reveal_with_fuel(without, 10);
    let bare = without(lowered("MOCCASIN"@), '_');
    assert(bare =~= "moccasin"@);
    assert(skip_spaces(bare, 0) == 0);
    assert(back_spaces(bare, bare.len() as int) == bare.len());
    assert(trimmed(bare) =~= "moccasin"@);
}

proof fn lemma_key_navajo_white()
    ensures
        name_key("NAVAJO_WHITE"@) == "navajowhite"@,
        fingerprint("navajowhite"@) == 15686450059,
{
    reveal_strlit("NAVAJO_WHITE");
    reveal_strlit("navajowhite");
    reveal_with_fuel(without, 14);
    let bare = without(lowered("NAVAJO_WHITE"@), '_');
    assert(bare =~= "navajowhite"@);
    assert(skip_spaces(bare, 0) == 0);
    assert(back_spaces(bare, bare.len() as int) == bare.len());
    assert(trimmed(bare) =~= "navajowhite"@);
}

proof fn lemma_key_navy()
    ensures
        name_key("NAVY"@) == "navy"@,
        fingerprint("navy"@) == 15838493572,
{
    reveal_strlit("NAVY");
    reveal_strlit("navy");
    reveal_with_fuel(without, 6);
    let bare = without(lowered("NAVY"@), '_');
    assert(bare =~= "navy"@);
    assert(skip_spaces(bare, 0) == 0);
    assert(back_spaces(bare, bare.len() as int) == bare.len());
    assert(trimmed(bare) =~= "navy"@);
}

proof fn lemma_key_old_lace()
    ensures
        name_key("OLD_LACE"@) == "oldlace"@,
        fingerprint("oldlace"@) == 13392255943,
{
    reveal_strlit("OLD_LACE");
    reveal_strlit("oldlace");
    reveal_with_fuel(without, 10);
    let bare = without(lowered("OLD_LACE"@), '_');
    assert(bare =~= "oldlace"@);
    assert(skip_spaces(bare, 0) == 0);
    assert(back_spaces(bare, bare.len() as int) == bare.len());
    assert(trimmed(bare) =~= "oldlace"@);
}

proof fn lemma_key_olive()
    ensures
        name_key("OLIVE"@) == "olive"@,
        fingerprint("olive"@) == 15838583749,
{
    reveal_strlit("OLIVE");
    reveal_strlit("olive");
    reveal_with_fuel(without, 7);
    let bare = without(lowered("OLIVE"@), '_');
    assert(bare =~= "olive"@);
    assert(skip_spaces(bare, 0) == 0);
    assert(back_spaces(bare, bare.len() as int) == bare.len());
    assert(trimmed(bare) =~= "olive"@);
}

proof fn lemma_key_olive_drab()
    ensures
        name_key("OLIVE_DRAB"@) == "olivedrab"@,
        fingerprint("olivedrab"@) == 13124869065,
{
    reveal_strlit("OLIVE_DRAB");
    reveal_strlit("olivedrab");
    reveal_with_fuel(without, 12);
    let bare = without(lowered("OLIVE_DRAB"@), '_');
    assert(bare =~= "olivedrab"@);
    assert(skip_spaces(bare, 0) == 0);
    assert(back_spaces(bare, bare.len() as int) == bare.len());
    assert(trimmed(bare) =~= "olivedrab"@);
}

proof fn lemma_key_orange()
    ensures
        name_key("ORANGE"@) == "orange"@,
        fingerprint("orange"@) == 13931273158,
{
    reveal_strlit("ORANGE");
    reveal_strlit("orange");
    reveal_with_fuel(without, 8);
    let bare = without(lowered("ORANGE"@), '_');
    assert(bare =~= "orange"@);
    assert(skip_spaces(bare, 0) == 0);
    assert(back_spaces(bare, bare.len() as int) == bare.len());
    assert(trimmed(bare) =~= "orange"@);
}

proof fn lemma_key_orange_red()
    ensures
        name_key("ORANGE_RED"@) == "orangered"@,
        fingerprint("orangered"@) == 13662837705,
{
    reveal_strlit("ORANGE_RED");
    reveal_strlit("orangered");
    reveal_with_fuel(without, 12);
    let bare = without(lowered("ORANGE_RED"@), '_');
    assert(bare =~= "orangered"@);
    assert(skip_spaces(bare, 0) == 0);
    assert(back_spaces(bare, bare.len() as int) == bare.len());
    assert(trimmed(bare) =~= "orangered"@);
}

proof fn lemma_key_orchid()
    ensures
        name_key("ORCHID"@) == "orchid"@,
        fingerprint("orchid"@) == 14198660038,
{
    reveal_strlit("ORCHID");
    reveal_strlit("orchid");
    reveal_with_fuel(without, 8);
    let bare = without(lowered("ORCHID"@), '_');
    assert(bare =~= "orchid"@);
    assert(skip_spaces(bare, 0) == 0);
    assert(back_spaces(bare, bare.len() as int) == bare.len());
    assert(trimmed(bare) =~= "orchid"@);
}

proof fn lemma_key_pale_goldenrod()
    ensures
        name_key("PALE_GOLDENROD"@) == "palegoldenrod"@,
        fingerprint("palegoldenrod"@) == 15015361549,
{
    reveal_strlit("PALE_GOLDENROD");
    reveal_strlit("palegoldenrod");
    reveal_with_fuel(without, 16);
    let bare = without(lowered("PALE_GOLDENROD"@), '_');
    assert(bare =~= "palegoldenrod"@);
    assert(skip_spaces(bare, 0) == 0);
    assert(back_spaces(bare, bare.len() as int) == bare.len());
    assert(trimmed(bare) =~= "palegoldenrod"@);
}

proof fn lemma_key_pale_green()
    ensures
        name_key("PALE_GREEN"@) == "palegreen"@,
        fingerprint("palegreen"@) == 13676329993,
{
    reveal_strlit("PALE_GREEN");
    reveal_strlit("palegreen");
    reveal_with_fuel(without, 12);
    let bare = without(lowered("PALE_GREEN"@), '_');
    assert(bare =~= "palegreen"@);
    assert(skip_spaces(bare, 0) == 0);
    assert(back_spaces(bare, bare.len() as int) == bare.len());
    assert(trimmed(bare) =~= "palegreen"@);
}

proof fn lemma_key_pale_turquoise()
    ensures
        name_key("PALE_TURQUOISE"@) == "paleturquoise"@,
        fingerprint("paleturquoise"@) == 15558523917,
{
    reveal_strlit("PALE_TURQUOISE");
    reveal_strlit("paleturquoise");
    reveal_with_fuel(without, 16);
    let bare = without(lowered("PALE_TURQUOISE"@), '_');
    assert(bare =~= "paleturquoise"@);
    assert(skip_spaces(bare, 0) == 0);
    assert(back_spaces(bare, bare.len() as int) == bare.len());
    assert(trimmed(bare) =~= "paleturquoise"@);
}

proof fn lemma_key_pale_violet_red()
    ensures
        name_key("PALE_VIOLET_RED"@) == "palevioletred"@,
        fingerprint("palevioletred"@) == 13666892813,
{
    reveal_strlit("PALE_VIOLET_RED");
    reveal_strlit("palevioletred");
    reveal_with_fuel(without, 17);
    let bare = without(lowered("PALE_VIOLET_RED"@), '_');
    assert(bare =~= "palevioletred"@);
    assert(skip_spaces(bare, 0) == 0);
    assert(back_spaces(bare, bare.len() as int) == bare.len());
    assert(trimmed(bare) =~= "palevioletred"@);
}

proof fn lemma_key_papaya_whip()
    ensures
        name_key("PAPAYA_WHIP"@) == "papayawhip"@,
        fingerprint("papayawhip"@) == 14195375114,
{
    reveal_strlit("PAPAYA_WHIP");
    reveal_strlit("papayawhip");
    reveal_with_fuel(without, 13);
    let bare = without(lowered("PAPAYA_WHIP"@), '_');
    assert(bare =~= "papayawhip"@);
    assert(skip_spaces(bare, 0) == 0);
    assert(back_spaces(bare, bare.len() as int) == bare.len());
    assert(trimmed(bare) =~= "papayawhip"@);
}

proof fn lemma_key_peach_puff()
    ensures
        name_key("PEACH_PUFF"@) == "peachpuff"@,
        fingerprint("peachpuff"@) == 13808483337,
{
    reveal_strlit("PEACH_PUFF");
    reveal_strlit("peachpuff");
    reveal_with_fuel(without, 12);
    let bare = without(lowered("PEACH_PUFF"@), '_');
    assert(bare =~= "peachpuff"@);
    assert(skip_spaces(bare, 0) == 0);
    assert(back_spaces(bare, bare.len() as int) == bare.len());
    assert(trimmed(bare) =~= "peachpuff"@);
}

proof fn lemma_key_peru()
    ensures
        name_key("PERU"@) == "peru"@,
        fingerprint("peru"@) == 15301655556,
{
    reveal_strlit("PERU");
    reveal_strlit("peru");
    reveal_with_fuel(without, 6);
    let bare = without(lowered("PERU"@), '_');
    assert(bare =~= "peru"@);
    assert(skip_spaces(bare, 0) == 0);
    assert(back_spaces(bare, bare.len() as int) == bare.len());
    assert(trimmed(bare) =~= "peru"@);
}

proof fn lemma_key_pink()
    ensures
        name_key("PINK"@) == "pink"@,
        fingerprint("pink"@) == 14764817412,
{
    reveal_strlit("PINK");
    reveal_strlit("pink");
    reveal_with_fuel(without, 6);
    let bare = without(lowered("PINK"@), '_');
    assert(bare =~= "pink"@);
    assert(skip_spaces(bare, 0) == 0);
    assert(back_spaces(bare, bare.len() as int) == bare.len());
    assert(trimmed(bare) =~= "pink"@);
}

proof fn lemma_key_plum()
    ensures
        name_key("PLUM"@) == "plum"@,
        fingerprint("plum"@) == 15704366084,
{
    reveal_strlit("PLUM");
    reveal_strlit("plum");
    reveal_with_fuel(without, 6);
    let bare = without(lowered("PLUM"@), '_');
    assert(bare =~= "plum"@);
    assert(skip_spaces(bare, 0) == 0);
    assert(back_spaces(bare, bare.len() as int) == bare.len());
    assert(trimmed(bare) =~= "plum"@);
}

proof fn lemma_key_powder_blue()
    ensures
        name_key("POWDER_BLUE"@) == "powderblue"@,
        fingerprint("powderblue"@) == 15823928330,
{
    reveal_strlit("POWDER_BLUE");
    reveal_strlit("powderblue");
    reveal_with_fuel(without, 13);
    let bare = without(lowered("POWDER_BLUE"@), '_');
    assert(bare =~= "powderblue"@);
    assert(skip_spaces(bare, 0) == 0);
    assert(back_spaces(bare, bare.len() as int) == bare.len());
    assert(trimmed(bare) =~= "powderblue"@);
}

proof fn lemma_key_purple()
    ensures
        name_key("PURPLE"@) == "purple"@,
        fingerprint("purple"@) == 14602386438,
{
    reveal_strlit("PURPLE");
    reveal_strlit("purple");
    reveal_with_fuel(without, 8);
    let bare = without(lowered("PURPLE"@), '_');
    assert(bare =~= "purple"@);
    assert(skip_spaces(bare, 0) == 0);
    assert(back_spaces(bare, bare.len() as int) == bare.len());
    assert(trimmed(bare) =~= "purple"@);
}

proof fn lemma_key_rebecca_purple()
    ensures
        name_key("REBECCA_PURPLE"@) == "rebeccapurple"@,
        fingerprint("rebeccapurple"@) == 14600158349,
{
    reveal_strlit("REBECCA_PURPLE");
    reveal_strlit("rebeccapurple");
    reveal_with_fuel(without, 16);
    let bare = without(lowered("REBECCA_PURPLE"@), '_');
    assert(bare =~= "rebeccapurple"@);
    assert(skip_spaces(bare, 0) == 0);
    assert(back_spaces(bare, bare.len() as int) == bare.len());
    assert(trimmed(bare) =~= "rebeccapurple"@);
}

proof fn lemma_key_red()
    ensures
        name_key("RED"@) == "red"@,
        fingerprint("red"@) == 13556825219,
{
    reveal_strlit("RED");
    reveal_strlit("red");
    reveal_with_fuel(without, 5);
    let bare = without(lowered("RED"@), '_');
    assert(bare =~= "red"@);
    assert(skip_spaces(bare, 0) == 0);
    assert(back_spaces(bare, bare.len() as int) == bare.len());
    assert(trimmed(bare) =~= "red"@);
}

proof fn lemma_key_rosy_brown()
    ensures
        name_key("ROSY_BROWN"@) == "rosybrown"@,
        fingerprint("rosybrown"@) == 16092363913,
{
    reveal_strlit("ROSY_BROWN");
    reveal_strlit("rosybrown");
    reveal_with_fuel(without, 12);
    let bare = without(lowered("ROSY_BROWN"@), '_');
    assert(bare =~= "rosybrown"@);
    assert(skip_spaces(bare, 0) == 0);
    assert(back_spaces(bare, bare.len() as int) == bare.len());
    assert(trimmed(bare) =~= "rosybrown"@);
}

proof fn lemma_key_royal_blue()
    ensures
        name_key("ROYAL_BLUE"@) == "royalblue"@,
        fingerprint("royalblue"@) == 15807151241,
{
    reveal_strlit("ROYAL_BLUE");
    reveal_strlit("royalblue");
    reveal_with_fuel(without, 12);
    let bare = without(lowered("ROYAL_BLUE"@), '_');
    assert(bare =~= "royalblue"@);
    assert(skip_spaces(bare, 0) == 0);
    assert(back_spaces(bare, bare.len() as int) == bare.len());
    assert(trimmed(bare) =~= "royalblue"@);
}

proof fn lemma_key_saddle_brown()
    ensures
        name_key("SADDLE_BROWN"@) == "saddlebrown"@,
        fingerprint("saddlebrown"@) == 16078617803,
{
    reveal_strlit("SADDLE_BROWN");
    reveal_strlit("saddlebrown");
    reveal_with_fuel(without, 14);
    let bare = without(lowered("SADDLE_BROWN"@), '_');
    assert(bare =~= "saddlebrown"@);
    assert(skip_spaces(bare, 0) == 0);
    assert(back_spaces(bare, bare.len() as int) == bare.len());
    assert(trimmed(bare) =~= "saddlebrown"@);
}

proof fn lemma_key_salmon()
    ensures
        name_key("SALMON"@) == "salmon"@,
        fingerprint("salmon"@) == 15014313158,
{
    reveal_strlit("SALMON");
    reveal_strlit("salmon");
    reveal_with_fuel(without, 8);
    let bare = without(lowered("SALMON"@), '_');
    assert(bare =~= "salmon"@);
    assert(skip_spaces(bare, 0) == 0);
    assert(back_spaces(bare, bare.len() as int) == bare.len());
    assert(trimmed(bare) =~= "salmon"@);
}

proof fn lemma_key_sandy_brown()
    ensures
        name_key("SANDY_BROWN"@) == "sandybrown"@,
        fingerprint("sandybrown"@) == 16075472074,
{
    reveal_strlit("SANDY_BROWN");
    reveal_strlit("sandybrown");
    reveal_with_fuel(without, 13);
    let bare = without(lowered("SANDY_BROWN"@), '_');
    assert(bare =~= "sandybrown"@);
    assert(skip_spaces(bare, 0) == 0);
    assert(back_spaces(bare, bare.len() as int) == bare.len());
    assert(trimmed(bare) =~= "sandybrown"@);
}

proof fn lemma_key_sea_green()
    ensures
        name_key("SEA_GREEN"@) == "seagreen"@,
        fingerprint("seagreen"@) == 13662731464,
{
    reveal_strlit("SEA_GREEN");
    reveal_strlit("seagreen");
    reveal_with_fuel(without, 11);
    let bare = without(lowered("SEA_GREEN"@), '_');
    assert(bare =~= "seagreen"@);
    assert(skip_spaces(bare, 0) == 0);
    assert(back_spaces(bare, bare.len() as int) == bare.len());
    assert(trimmed(bare) =~= "seagreen"@);
}

proof fn lemma_key_seashell()
    ensures
        name_key("SEASHELL"@) == "seashell"@,
        fingerprint("seashell"@) == 14602255560,
{
    reveal_strlit("SEASHELL");
    reveal_strlit("seashell");
    reveal_with_fuel(without, 10);
    let bare = without(lowered("SEASHELL"@), '_');
    assert(bare =~= "seashell"@);
    assert(skip_spaces(bare, 0) == 0);
    assert(back_spaces(bare, bare.len() as int) == bare.len());
    assert(trimmed(bare) =~= "seashell"@);
}

proof fn lemma_key_sienna()
    ensures
        name_key("SIENNA"@) == "sienna"@,
        fingerprint("sienna"@) == 14866529478,
{
    reveal_strlit("SIENNA");
    reveal_strlit("sienna");
    reveal_with_fuel(without, 8);
    let bare = without(lowered("SIENNA"@), '_');
    assert(bare =~= "sienna"@);
    assert(skip_spaces(bare, 0) == 0);
    assert(back_spaces(bare, bare.len() as int) == bare.len());
    assert(trimmed(bare) =~= "sienna"@);
}

proof fn lemma_key_silver()
    ensures
        name_key("SILVER"@) == "silver"@,
        fingerprint("silver"@) == 13676395718,
{
    reveal_strlit("SILVER");
    reveal_strlit("silver");
    reveal_with_fuel(without, 8);
    let bare = without(lowered("SILVER"@), '_');
    assert(bare =~= "silver"@);
    assert(skip_spaces(bare, 0) == 0);
    assert(back_spaces(bare, bare.len() as int) == bare.len());
    assert(trimmed(bare) =~= "silver"@);
}

proof fn lemma_key_sky_blue()
    ensures
        name_key("SKY_BLUE"@) == "skyblue"@,
        fingerprint("skyblue"@) == 15827041479,
{
    reveal_strlit("SKY_BLUE");
    reveal_strlit("skyblue");
    reveal_with_fuel(without, 10);
    let bare = without(lowered("SKY_BLUE"@), '_');
    assert(bare =~= "skyblue"@);
    assert(skip_spaces(bare, 0) == 0);
    assert(back_spaces(bare, bare.len() as int) == bare.len());
    assert(trimmed(bare) =~= "skyblue"@);
}

proof fn lemma_key_slate_blue()
    ensures
        name_key("SLATE_BLUE"@) == "slateblue"@,
        fingerprint("slateblue"@) == 15807126729,
{
    reveal_strlit("SLATE_BLUE");
    reveal_strlit("slateblue");
    reveal_with_fuel(without, 12);
    let bare = without(lowered("SLATE_BLUE"@), '_');
    assert(bare =~= "slateblue"@);
    assert(skip_spaces(bare, 0) == 0);
    assert(back_spaces(bare, bare.len() as int) == bare.len());
    assert(trimmed(bare) =~= "slateblue"@);
}

proof fn lemma_key_slate_gray()
    ensures
        name_key("SLATE_GRAY"@) == "slategray"@,
        fingerprint("slategray"@) == 13128015049,
{
    reveal_strlit("SLATE_GRAY");
    reveal_strlit("slategray");
    reveal_with_fuel(without, 12);
    let bare = without(lowered("SLATE_GRAY"@), '_');
    assert(bare =~= "slategray"@);
    assert(skip_spaces(bare, 0) == 0);
    assert(back_spaces(bare, bare.len() as int) == bare.len());
    assert(trimmed(bare) =~= "slategray"@);
}

proof fn lemma_key_slate_grey()
    ensures
        name_key("SLATE_GREY"@) == "slategrey"@,
        fingerprint("slategrey"@) == 13664885961,
{
    reveal_strlit("SLATE_GREY");
    reveal_strlit("slategrey");
    reveal_with_fuel(without, 12);
    let bare = without(lowered("SLATE_GREY"@), '_');
    assert(bare =~= "slategrey"@);
    assert(skip_spaces(bare, 0) == 0);
    assert(back_spaces(bare, bare.len() as int) == bare.len());
    assert(trimmed(bare) =~= "slategrey"@);
}

proof fn lemma_key_snow()
    ensures
        name_key("SNOW"@) == "snow"@,
        fingerprint("snow"@) == 14899076292,
{
    reveal_strlit("SNOW");
    reveal_strlit("snow");
    reveal_with_fuel(without, 6);
    let bare = without(lowered("SNOW"@), '_');
    assert(bare =~= "snow"@);
    assert(skip_spaces(bare, 0) == 0);
    assert(back_spaces(bare, bare.len() as int) == bare.len());
    assert(trimmed(bare) =~= "snow"@);
}

proof fn lemma_key_spring_green()
    ensures
        name_key("SPRING_GREEN"@) == "springgreen"@,
        fingerprint("springgreen"@) == 13664918731,
{
    reveal_strlit("SPRING_GREEN");
    reveal_strlit("springgreen");
    reveal_with_fuel(without, 14);
    let bare = without(lowered("SPRING_GREEN"@), '_');
    assert(bare =~= "springgreen"@);
    assert(skip_spaces(bare, 0) == 0);
    assert(back_spaces(bare, bare.len() as int) == bare.len());
    assert(trimmed(bare) =~= "springgreen"@);
}

proof fn lemma_key_steel_blue()
    ensures
        name_key("STEEL_BLUE"@) == "steelblue"@,
        fingerprint("steelblue"@) == 15807192265,
{
    reveal_strlit("STEEL_BLUE");
    reveal_strlit("steelblue");
    reveal_with_fuel(without, 12);
    let bare = without(lowered("STEEL_BLUE"@), '_');
    assert(bare =~= "steelblue"@);
    assert(skip_spaces(bare, 0) == 0);
    assert(back_spaces(bare, bare.len() as int) == bare.len());
    assert(trimmed(bare) =~= "steelblue"@);
}

proof fn lemma_key_tan()
    ensures
        name_key("TAN"@) == "tan"@,
        fingerprint("tan"@) == 13019921667,
{
    reveal_strlit("TAN");
    reveal_strlit("tan");
    reveal_with_fuel(without, 5);
    let bare = without(lowered("TAN"@), '_');
    assert(bare =~= "tan"@);
    assert(skip_spaces(bare, 0) == 0);
    assert(back_spaces(bare, bare.len() as int) == bare.len());
    assert(trimmed(bare) =~= "tan"@);
}

proof fn lemma_key_teal()
    ensures
        name_key("TEAL"@) == "teal"@,
        fingerprint("teal"@) == 13019954436,
{
    reveal_strlit("TEAL");
    reveal_strlit("teal");
    reveal_with_fuel(without, 6);
    let bare = without(lowered("TEAL"@), '_');
    assert(bare =~= "teal"@);
    assert(skip_spaces(bare, 0) == 0);
    assert(back_spaces(bare, bare.len() as int) == bare.len());
    assert(trimmed(bare) =~= "teal"@);
}

proof fn lemma_key_thistle()
    ensures
        name_key("THISTLE"@) == "thistle"@,
        fingerprint("thistle"@) == 14609620231,
{
    reveal_strlit("THISTLE");
    reveal_strlit("thistle");
    reveal_with_fuel(without, 9);
    let bare = without(lowered("THISTLE"@), '_');
    assert(bare =~= "thistle"@);
    assert(skip_spaces(bare, 0) == 0);
    assert(back_spaces(bare, bare.len() as int) == bare.len());
    assert(trimmed(bare) =~= "thistle"@);
}

proof fn lemma_key_tomato()
    ensures
        name_key("TOMATO"@) == "tomato"@,
        fingerprint("tomato"@) == 15686565126,
{
    reveal_strlit("TOMATO");
    reveal_strlit("tomato");
    reveal_with_fuel(without, 8);
    let bare = without(lowered("TOMATO"@), '_');
    assert(bare =~= "tomato"@);
    assert(skip_spaces(bare, 0) == 0);
    assert(back_spaces(bare, bare.len() as int) == bare.len());
    assert(trimmed(bare) =~= "tomato"@);
}

proof fn lemma_key_turquoise()
    ensures
        name_key("TURQUOISE"@) == "turquoise"@,
        fingerprint("turquoise"@) == 15552396553,
{
    reveal_strlit("TURQUOISE");
    reveal_strlit("turquoise");
    reveal_with_fuel(without, 11);
    let bare = without(lowered("TURQUOISE"@), '_');
    assert(bare =~= "turquoise"@);
    assert(skip_spaces(bare, 0) == 0);
    assert(back_spaces(bare, bare.len() as int) == bare.len());
    assert(trimmed(bare) =~= "turquoise"@);
}

proof fn lemma_key_violet()
    ensures
        name_key("VIOLET"@) == "violet"@,
        fingerprint("violet"@) == 13678493062,
{
    reveal_strlit("VIOLET");
    reveal_strlit("violet");
    reveal_with_fuel(without, 8);
    let bare = without(lowered("VIOLET"@), '_');
    assert(bare =~= "violet"@);
    assert(skip_spaces(bare, 0) == 0);
    assert(back_spaces(bare, bare.len() as int) == bare.len());
    assert(trimmed(bare) =~= "violet"@);
}

proof fn lemma_key_wheat()
    ensures
        name_key("WHEAT"@) == "wheat"@,
        fingerprint("wheat"@) == 13019979205,
{
    reveal_strlit("WHEAT");
    reveal_strlit("wheat");
    reveal_with_fuel(without, 7);
    let bare = without(lowered("WHEAT"@), '_');
    assert(bare =~= "wheat"@);
    assert(skip_spaces(bare, 0) == 0);
    assert(back_spaces(bare, bare.len() as int) == bare.len());
    assert(trimmed(bare) =~= "wheat"@);
}

proof fn lemma_key_white()
    ensures
        name_key("WHITE"@) == "white"@,
        fingerprint("white"@) == 15570116037,
{
    reveal_strlit("WHITE");
    reveal_strlit("white");
    reveal_with_fuel(without, 7);
    let bare = without(lowered("WHITE"@), '_');
    assert(bare =~= "white"@);
    assert(skip_spaces(bare, 0) == 0);
    assert(back_spaces(bare, bare.len() as int) == bare.len());
    assert(trimmed(bare) =~= "white"@);
}

proof fn lemma_key_white_smoke()
    ensures
        name_key("WHITE_SMOKE"@) == "whitesmoke"@,
        fingerprint("whitesmoke"@) == 14482742730,
{
    reveal_strlit("WHITE_SMOKE");
    reveal_strlit("whitesmoke");
    reveal_with_fuel(without, 13);
    let bare = without(lowered("WHITE_SMOKE"@), '_');
    assert(bare =~= "whitesmoke"@);
    assert(skip_spaces(bare, 0) == 0);
    assert(back_spaces(bare, bare.len() as int) == bare.len());
    assert(trimmed(bare) =~= "whitesmoke"@);
}

proof fn lemma_key_yellow_green()
    ensures
        name_key("YELLOW_GREEN"@) == "yellowgreen"@,
        fingerprint("yellowgreen"@) == 13681606219,
{
    reveal_strlit("YELLOW_GREEN");
    reveal_strlit("yellowgreen");
    reveal_with_fuel(without, 14);
    let bare = without(lowered("YELLOW_GREEN"@), '_');
    assert(bare =~= "yellowgreen"@);
    assert(skip_spaces(bare, 0) == 0);
    assert(back_spaces(bare, bare.len() as int) == bare.len());
    assert(trimmed(bare) =~= "yellowgreen"@);
}

proof fn lemma_key_yellow()
    ensures
        name_key("YELLOW"@) == "yellow"@,
        fingerprint("yellow"@) == 15023783494,
{
    reveal_strlit("YELLOW");
    reveal_strlit("yellow");
    reveal_with_fuel(without, 8);
    let bare = without(lowered("YELLOW"@), '_');
    assert(bare =~= "yellow"@);
    assert(skip_spaces(bare, 0) == 0);
    assert(back_spaces(bare, bare.len() as int) == bare.len());
    assert(trimmed(bare) =~= "yellow"@);
}

/// The key of each entry is the key of its name, and has the entry's
/// fingerprint.
pub proof fn lemma_palette_keys(i: int)
    requires
        0 <= i < PALETTE_LEN,
    ensures
        name_key(palette_name(i)) == palette_key(i),
        fingerprint(palette_key(i)) == palette_fingerprint(i),
        slot(palette_fingerprint(i)) == i,
{
    if i < 10 {
        lemma_palette_keys_0(i);
    } else if i < 20 {
        lemma_palette_keys_1(i);
    } else if i < 30 {
        lemma_palette_keys_2(i);
    } else if i < 40 {
        lemma_palette_keys_3(i);
    } else if i < 50 {
        lemma_palette_keys_4(i);
    } else if i < 60 {
        lemma_palette_keys_5(i);
    } else if i < 70 {
        lemma_palette_keys_6(i);
    } else if i < 80 {
        lemma_palette_keys_7(i);
    } else if i < 90 {
        lemma_palette_keys_8(i);
    } else if i < 100 {
        lemma_palette_keys_9(i);
    } else if i < 110 {
        lemma_palette_keys_10(i);
    } else if i < 120 {
        lemma_palette_keys_11(i);
    } else if i < 130 {
        lemma_palette_keys_12(i);
    } else if i < 140 {
        lemma_palette_keys_13(i);
    } else {
        lemma_palette_keys_14(i);
    }
}

proof fn lemma_palette_keys_0(i: int)
    requires
        0 <= i < 10,
    ensures
        name_key(palette_name(i)) == palette_key(i),
        fingerprint(palette_key(i)) == palette_fingerprint(i),
        slot(palette_fingerprint(i)) == i,
{
    if i == 0 {
        lemma_key_transparent();
    } else if i == 1 {
        lemma_key_alice_blue();
    } else if i == 2 {
        lemma_key_antique_white();
    } else if i == 3 {
        lemma_key_aqua();
    } else if i == 4 {
        lemma_key_aquamarine();
    } else if i == 5 {
        lemma_key_azure();
    } else if i == 6 {
        lemma_key_beige();
    } else if i == 7 {
        lemma_key_bisque();
    } else if i == 8 {
        lemma_key_black();
    } else {
        lemma_key_blanched_almond();
    }
}

proof fn lemma_palette_keys_1(i: int)
    requires
        10 <= i < 20,
    ensures
        name_key(palette_name(i)) == palette_key(i),
        fingerprint(palette_key(i)) == palette_fingerprint(i),
        slot(palette_fingerprint(i)) == i,
{
    if i == 10 {
        lemma_key_blue();
    } else if i == 11 {
        lemma_key_blue_violet();
    } else if i == 12 {
        lemma_key_brown();
    } else if i == 13 {
        lemma_key_burly_wood();
    } else if i == 14 {
        lemma_key_cadet_blue();
    } else if i == 15 {
        lemma_key_chartreuse();
    } else if i == 16 {
        lemma_key_chocolate();
    } else if i == 17 {
        lemma_key_coral();
    } else if i == 18 {
        lemma_key_cornflower_blue();
    } else {
        lemma_key_corn_silk();
    }
}

proof fn lemma_palette_keys_2(i: int)
    requires
        20 <= i < 30,
    ensures
        name_key(palette_name(i)) == palette_key(i),
        fingerprint(palette_key(i)) == palette_fingerprint(i),
        slot(palette_fingerprint(i)) == i,
{
    if i == 20 {
        lemma_key_crimson();
    } else if i == 21 {
        lemma_key_cyan();
    } else if i == 22 {
        lemma_key_dark_blue();
    } else if i == 23 {
        lemma_key_dark_cyan();
    } else if i == 24 {
        lemma_key_dark_goldenrod();
    } else if i == 25 {
        lemma_key_dark_gray();
    } else if i == 26 {
        lemma_key_dark_green();
    } else if i == 27 {
        lemma_key_dark_grey();
    } else if i == 28 {
        lemma_key_dark_khaki();
    } else {
        lemma_key_dark_magenta();
    }
}

proof fn lemma_palette_keys_3(i: int)
    requires
        30 <= i < 40,
    ensures
        name_key(palette_name(i)) == palette_key(i),
        fingerprint(palette_key(i)) == palette_fingerprint(i),
        slot(palette_fingerprint(i)) == i,
{
    if i == 30 {
        lemma_key_dark_olive_green();
    } else if i == 31 {
        lemma_key_dark_orange();
    } else if i == 32 {
        lemma_key_dark_orchid();
    } else if i == 33 {
        lemma_key_dark_red();
    } else if i == 34 {
        lemma_key_dark_salmon();
    } else if i == 35 {
        lemma_key_dark_sea_green();
    } else if i == 36 {
        lemma_key_dark_slate_blue();
    } else if i == 37 {
        lemma_key_dark_slate_gray();
    } else if i == 38 {
        lemma_key_dark_slate_grey();
    } else {
        lemma_key_dark_turquoise();
    }
}

proof fn lemma_palette_keys_4(i: int)
    requires
        40 <= i < 50,
    ensures
        name_key(palette_name(i)) == palette_key(i),
        fingerprint(palette_key(i)) == palette_fingerprint(i),
        slot(palette_fingerprint(i)) == i,
{
    if i == 40 {
        lemma_key_dark_violet();
    } else if i == 41 {
        lemma_key_deep_pink();
    } else if i == 42 {
        lemma_key_deep_sky_blue();
    } else if i == 43 {
        lemma_key_dim_gray();
    } else if i == 44 {
        lemma_key_dim_grey();
    } else if i == 45 {
        lemma_key_dodger_blue();
    } else if i == 46 {
        lemma_key_firebrick();
    } else if i == 47 {
        lemma_key_floral_white();
    } else if i == 48 {
        lemma_key_forest_green();
    } else {
        lemma_key_fuchsia();
    }
}

proof fn lemma_palette_keys_5(i: int)
    requires
        50 <= i < 60,
    ensures
        name_key(palette_name(i)) == palette_key(i),
        fingerprint(palette_key(i)) == palette_fingerprint(i),
        slot(palette_fingerprint(i)) == i,
{
    if i == 50 {
        lemma_key_gainsboro();
    } else if i == 51 {
        lemma_key_ghost_white();
    } else if i == 52 {
        lemma_key_goldenrod();
    } else if i == 53 {
        lemma_key_gold();
    } else if i == 54 {
        lemma_key_gray();
    } else if i == 55 {
        lemma_key_green();
    } else if i == 56 {
        lemma_key_green_yellow();
    } else if i == 57 {
        lemma_key_grey();
    } else if i == 58 {
        lemma_key_honeydew();
    } else {
        lemma_key_hot_pink();
    }
}

proof fn lemma_palette_keys_6(i: int)
    requires
        60 <= i < 70,
    ensures
        name_key(palette_name(i)) == palette_key(i),
        fingerprint(palette_key(i)) == palette_fingerprint(i),
        slot(palette_fingerprint(i)) == i,
{
    if i == 60 {
        lemma_key_indian_red();
    } else if i == 61 {
        lemma_key_indigo();
    } else if i == 62 {
        lemma_key_ivory();
    } else if i == 63 {
        lemma_key_khaki();
    } else if i == 64 {
        lemma_key_lavender_blush();
    } else if i == 65 {
        lemma_key_lavender();
    } else if i == 66 {
        lemma_key_lawn_green();
    } else if i == 67 {
        lemma_key_lemon_chiffon();
    } else if i == 68 {
        lemma_key_light_blue();
    } else {
        lemma_key_light_coral();
    }
}

proof fn lemma_palette_keys_7(i: int)
    requires
        70 <= i < 80,
    ensures
        name_key(palette_name(i)) == palette_key(i),
        fingerprint(palette_key(i)) == palette_fingerprint(i),
        slot(palette_fingerprint(i)) == i,
{
    if i == 70 {
        lemma_key_light_cyan();
    } else if i == 71 {
        lemma_key_light_goldenrod_yellow();
    } else if i == 72 {
        lemma_key_light_gray();
    } else if i == 73 {
        lemma_key_light_green();
    } else if i == 74 {
        lemma_key_light_grey();
    } else if i == 75 {
        lemma_key_light_pink();
    } else if i == 76 {
        lemma_key_light_salmon();
    } else if i == 77 {
        lemma_key_light_sea_green();
    } else if i == 78 {
        lemma_key_light_sky_blue();
    } else {
        lemma_key_light_slate_gray();
    }
}

proof fn lemma_palette_keys_8(i: int)
    requires
        80 <= i < 90,
    ensures
        name_key(palette_name(i)) == palette_key(i),
        fingerprint(palette_key(i)) == palette_fingerprint(i),
        slot(palette_fingerprint(i)) == i,
{
    if i == 80 {
        lemma_key_light_slate_grey();
    } else if i == 81 {
        lemma_key_light_steel_blue();
    } else if i == 82 {
        lemma_key_light_yellow();
    } else if i == 83 {
        lemma_key_lime();
    } else if i == 84 {
        lemma_key_lime_green();
    } else if i == 85 {
        lemma_key_linen();
    } else if i == 86 {
        lemma_key_magenta();
    } else if i == 87 {
        lemma_key_maroon();
    } else if i == 88 {
        lemma_key_medium_aquamarine();
    } else {
        lemma_key_medium_blue();
    }
}

proof fn lemma_palette_keys_9(i: int)
    requires
        90 <= i < 100,
    ensures
        name_key(palette_name(i)) == palette_key(i),
        fingerprint(palette_key(i)) == palette_fingerprint(i),
        slot(palette_fingerprint(i)) == i,
{
    if i == 90 {
        lemma_key_medium_orchid();
    } else if i == 91 {
        lemma_key_medium_purple();
    } else if i == 92 {
        lemma_key_medium_sea_green();
    } else if i == 93 {
        lemma_key_medium_slate_blue();
    } else if i == 94 {
        lemma_key_medium_spring_green();
    } else if i == 95 {
        lemma_key_medium_turquoise();
    } else if i == 96 {
        lemma_key_medium_violet_red();
    } else if i == 97 {
        lemma_key_midnight_blue();
    } else if i == 98 {
        lemma_key_mint_cream();
    } else {
        lemma_key_misty_rose();
    }
}

proof fn lemma_palette_keys_10(i: int)
    requires
        100 <= i < 110,
    ensures
        name_key(palette_name(i)) == palette_key(i),
        fingerprint(palette_key(i)) == palette_fingerprint(i),
        slot(palette_fingerprint(i)) == i,
{
    if i == 100 {
        lemma_key_moccasin();
    } else if i == 101 {
        lemma_key_navajo_white();
    } else if i == 102 {
        lemma_key_navy();
    } else if i == 103 {
        lemma_key_old_lace();
    } else if i == 104 {
        lemma_key_olive();
    } else if i == 105 {
        lemma_key_olive_drab();
    } else if i == 106 {
        lemma_key_orange();
    } else if i == 107 {
        lemma_key_orange_red();
    } else if i == 108 {
        lemma_key_orchid();
    } else {
        lemma_key_pale_goldenrod();
    }
}

proof fn lemma_palette_keys_11(i: int)
    requires
        110 <= i < 120,
    ensures
        name_key(palette_name(i)) == palette_key(i),
        fingerprint(palette_key(i)) == palette_fingerprint(i),
        slot(palette_fingerprint(i)) == i,
{
    if i == 110 {
        lemma_key_pale_green();
    } else if i == 111 {
        lemma_key_pale_turquoise();
    } else if i == 112 {
        lemma_key_pale_violet_red();
    } else if i == 113 {
        lemma_key_papaya_whip();
    } else if i == 114 {
        lemma_key_peach_puff();
    } else if i == 115 {
        lemma_key_peru();
    } else if i == 116 {
        lemma_key_pink();
    } else if i == 117 {
        lemma_key_plum();
    } else if i == 118 {
        lemma_key_powder_blue();
    } else {
        lemma_key_purple();
    }
}

proof fn lemma_palette_keys_12(i: int)
    requires
        120 <= i < 130,
    ensures
        name_key(palette_name(i)) == palette_key(i),
        fingerprint(palette_key(i)) == palette_fingerprint(i),
        slot(palette_fingerprint(i)) == i,
{
    if i == 120 {
        lemma_key_rebecca_purple();
    } else if i == 121 {
        lemma_key_red();
    } else if i == 122 {
        lemma_key_rosy_brown();
    } else if i == 123 {
        lemma_key_royal_blue();
    } else if i == 124 {
        lemma_key_saddle_brown();
    } else if i == 125 {
        lemma_key_salmon();
    } else if i == 126 {
        lemma_key_sandy_brown();
    } else if i == 127 {
        lemma_key_sea_green();
    } else if i == 128 {
        lemma_key_seashell();
    } else {
        lemma_key_sienna();
    }
}

proof fn lemma_palette_keys_13(i: int)
    requires
        130 <= i < 140,
    ensures
        name_key(palette_name(i)) == palette_key(i),
        fingerprint(palette_key(i)) == palette_fingerprint(i),
        slot(palette_fingerprint(i)) == i,
{
    if i == 130 {
        lemma_key_silver();
    } else if i == 131 {
        lemma_key_sky_blue();
    } else if i == 132 {
        lemma_key_slate_blue();
    } else if i == 133 {
        lemma_key_slate_gray();
    } else if i == 134 {
        lemma_key_slate_grey();
    } else if i == 135 {
        lemma_key_snow();
    } else if i == 136 {
        lemma_key_spring_green();
    } else if i == 137 {
        lemma_key_steel_blue();
    } else if i == 138 {
        lemma_key_tan();
    } else {
        lemma_key_teal();
    }
}

proof fn lemma_palette_keys_14(i: int)
    requires
        140 <= i < 149,
    ensures
        name_key(palette_name(i)) == palette_key(i),
        fingerprint(palette_key(i)) == palette_fingerprint(i),
        slot(palette_fingerprint(i)) == i,
{
    if i == 140 {
        lemma_key_thistle();
    } else if i == 141 {
        lemma_key_tomato();
    } else if i == 142 {
        lemma_key_turquoise();
    } else if i == 143 {
        lemma_key_violet();
    } else if i == 144 {
        lemma_key_wheat();
    } else if i == 145 {
        lemma_key_white();
    } else if i == 146 {
        lemma_key_white_smoke();
    } else if i == 147 {
        lemma_key_yellow_green();
    } else {
        lemma_key_yellow();
    }
}

/// No two entries of the palette have the same key.
pub proof fn lemma_keys_differ(j: int, k: int)
    requires
        0 <= j < PALETTE_LEN,
        0 <= k < PALETTE_LEN,
        j != k,
    ensures
        palette_key(j) != palette_key(k),
        name_key(palette_name(j)) != name_key(palette_name(k)),
{
    lemma_palette_keys(j);
    lemma_palette_keys(k);
}

/// Looked for from an entry at or before its own, the key of an entry is
/// found at that entry.
pub proof fn lemma_key_is_found(i: int, from: int)
    requires
        0 <= from <= i < PALETTE_LEN,
    ensures
        first_named(name_key(palette_name(i)), from) == i,
    decreases i - from,
{
    if from < i {
        lemma_keys_differ(from, i);
        lemma_key_is_found(i, from + 1);
    }
}

/// Looked for from an entry at or before one that has the colour, a colour
/// is found at an entry that has it.
pub proof fn lemma_color_is_found(c: Color, i: int, from: int)
    requires
        0 <= from <= i < PALETTE_LEN,
        palette_color(i) == c,
    ensures
        from <= first_colored(c, from) <= i,
        palette_color(first_colored(c, from)) == c,
    decreases i - from,
{
    if from < i && palette_color(from) != c {
        lemma_color_is_found(c, i, from + 1);
    }
}

/// Every colour of the palette but the first, which is full transparency,
/// is valid and opaque.
pub proof fn lemma_palette_is_opaque(i: int)
    requires
        1 <= i < PALETTE_LEN,
    ensures
        palette_color(i).valid,
        palette_color(i).alpha == 255,
{
}

/// Every name of the palette stands for the colour of its entry, and so
/// does every text with the same key: the name in any case, with or
/// without underscores, with white space round it.
pub proof fn lemma_palette_names_are_found(i: int, s: Seq<char>)
    requires
        0 <= i < PALETTE_LEN,
        name_key(s) == name_key(palette_name(i)),
    ensures
        named_color(palette_name(i)) == Some(palette_color(i)),
        named_color(s) == Some(palette_color(i)),
{
    lemma_key_is_found(i, 0);
}

/// The name of every colour of the palette stands for that colour.
pub proof fn lemma_palette_round_trip(i: int)
    requires
        0 <= i < PALETTE_LEN,
    ensures
        named_color(color_name(palette_color(i))) == Some(palette_color(i)),
{
    let c = palette_color(i);
    if i == 0 {
        assert(color_name(c) == palette_name(0));
        lemma_key_is_found(0, 0);
    } else {
        lemma_palette_is_opaque(i);
        assert(c == Color { alpha: 255, ..c });
        lemma_color_is_found(c, i, 0);
        let k = first_colored(c, 0);
        assert(color_name(c) == palette_name(k));
        lemma_key_is_found(k, 0);
    }
}

} // verus!
