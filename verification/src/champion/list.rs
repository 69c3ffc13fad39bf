//! The champions that a profile can be bound to.

use vstd::prelude::*;

verus! {

/// Every champion with its numeric id, ordered by name.
pub const LIST: [(u32, &'static str); 171] = [
    (266, "Aatrox"),
    (103, "Ahri"),
    (84, "Akali"),
    (166, "Akshan"),
    (12, "Alistar"),
    (799, "Ambessa"),
    (32, "Amumu"),
    (34, "Anivia"),
    (1, "Annie"),
    (523, "Aphelios"),
    (22, "Ashe"),
    (136, "Aurelion Sol"),
    (893, "Aurora"),
    (268, "Azir"),
    (432, "Bard"),
    (200, "Bel'Veth"),
    (53, "Blitzcrank"),
    (63, "Brand"),
    (201, "Braum"),
    (233, "Briar"),
    (51, "Caitlyn"),
    (164, "Camille"),
    (69, "Cassiopeia"),
    (31, "Cho'Gath"),
    (42, "Corki"),
    (122, "Darius"),
    (131, "Diana"),
    (36, "Dr. Mundo"),
    (119, "Draven"),
    (245, "Ekko"),
    (60, "Elise"),
    (28, "Evelynn"),
    (81, "Ezreal"),
    (9, "Fiddlesticks"),
    (114, "Fiora"),
    (105, "Fizz"),
    (3, "Galio"),
    (41, "Gangplank"),
    (86, "Garen"),
    (150, "Gnar"),
    (79, "Gragas"),
    (104, "Graves"),
    (887, "Gwen"),
    (120, "Hecarim"),
    (74, "Heimerdinger"),
    (910, "Hwei"),
    (420, "Illaoi"),
    (39, "Irelia"),
    (427, "Ivern"),
    (40, "Janna"),
    (59, "Jarvan IV"),
    (24, "Jax"),
    (126, "Jayce"),
    (202, "Jhin"),
    (222, "Jinx"),
    (897, "K'Sante"),
    (145, "Kai'Sa"),
    (429, "Kalista"),
    (43, "Karma"),
    (30, "Karthus"),
    (38, "Kassadin"),
    (55, "Katarina"),
    (10, "Kayle"),
    (141, "Kayn"),
    (85, "Kennen"),
    (121, "Kha'Zix"),
    (203, "Kindred"),
    (240, "Kled"),
    (96, "Kog'Maw"),
    (7, "LeBlanc"),
    (64, "Lee Sin"),
    (89, "Leona"),
    (876, "Lillia"),
    (127, "Lissandra"),
    (236, "Lucian"),
    (117, "Lulu"),
    (99, "Lux"),
    (54, "Malphite"),
    (90, "Malzahar"),
    (57, "Maokai"),
    (11, "Master Yi"),
    (800, "Mel"),
    (902, "Milio"),
    (21, "Miss Fortune"),
    (82, "Mordekaiser"),
    (25, "Morgana"),
    (950, "Naafiri"),
    (267, "Nami"),
    (75, "Nasus"),
    (111, "Nautilus"),
    (518, "Neeko"),
    (76, "Nidalee"),
    (895, "Nilah"),
    (56, "Nocturne"),
    (20, "Nunu & Willump"),
    (2, "Olaf"),
    (61, "Orianna"),
    (516, "Ornn"),
    (80, "Pantheon"),
    (78, "Poppy"),
    (555, "Pyke"),
    (246, "Qiyana"),
    (133, "Quinn"),
    (497, "Rakan"),
    (33, "Rammus"),
    (421, "Rek'Sai"),
    (526, "Rell"),
    (888, "Renata Glasc"),
    (58, "Renekton"),
    (107, "Rengar"),
    (92, "Riven"),
    (68, "Rumble"),
    (13, "Ryze"),
    (360, "Samira"),
    (113, "Sejuani"),
    (235, "Senna"),
    (147, "Seraphine"),
    (875, "Sett"),
    (35, "Shaco"),
    (98, "Shen"),
    (102, "Shyvana"),
    (27, "Singed"),
    (14, "Sion"),
    (15, "Sivir"),
    (72, "Skarner"),
    (901, "Smolder"),
    (37, "Sona"),
    (16, "Soraka"),
    (50, "Swain"),
    (517, "Sylas"),
    (134, "Syndra"),
    (223, "Tahm Kench"),
    (163, "Taliyah"),
    (91, "Talon"),
    (44, "Taric"),
    (17, "Teemo"),
    (412, "Thresh"),
    (18, "Tristana"),
    (48, "Trundle"),
    (23, "Tryndamere"),
    (4, "Twisted Fate"),
    (29, "Twitch"),
    (77, "Udyr"),
    (6, "Urgot"),
    (110, "Varus"),
    (67, "Vayne"),
    (45, "Veigar"),
    (161, "Vel'Koz"),
    (711, "Vex"),
    (254, "Vi"),
    (234, "Viego"),
    (112, "Viktor"),
    (8, "Vladimir"),
    (106, "Volibear"),
    (19, "Warwick"),
    (62, "Wukong"),
    (498, "Xayah"),
    (101, "Xerath"),
    (5, "Xin Zhao"),
    (157, "Yasuo"),
    (777, "Yone"),
    (83, "Yorick"),
    (804, "Yunara"),
    (350, "Yuumi"),
    (154, "Zac"),
    (238, "Zed"),
    (221, "Zeri"),
    (115, "Ziggs"),
    (26, "Zilean"),
    (142, "Zoe"),
    (143, "Zyra"),
];

/// Where the table holds an id: the position of its entry, or `-1` for an
/// id that the table does not hold.
pub open spec fn slot(id: u32) -> int {
    match id {
        266 => 0,
        103 => 1,
        84 => 2,
        166 => 3,
        12 => 4,
        799 => 5,
        32 => 6,
        34 => 7,
        1 => 8,
        523 => 9,
        22 => 10,
        136 => 11,
        893 => 12,
        268 => 13,
        432 => 14,
        200 => 15,
        53 => 16,
        63 => 17,
        201 => 18,
        233 => 19,
        51 => 20,
        164 => 21,
        69 => 22,
        31 => 23,
        42 => 24,
        122 => 25,
        131 => 26,
        36 => 27,
        119 => 28,
        245 => 29,
        60 => 30,
        28 => 31,
        81 => 32,
        9 => 33,
        114 => 34,
        105 => 35,
        3 => 36,
        41 => 37,
        86 => 38,
        150 => 39,
        79 => 40,
        104 => 41,
        887 => 42,
        120 => 43,
        74 => 44,
        910 => 45,
        420 => 46,
        39 => 47,
        427 => 48,
        40 => 49,
        59 => 50,
        24 => 51,
        126 => 52,
        202 => 53,
        222 => 54,
        897 => 55,
        145 => 56,
        429 => 57,
        43 => 58,
        30 => 59,
        38 => 60,
        55 => 61,
        10 => 62,
        141 => 63,
        85 => 64,
        121 => 65,
        203 => 66,
        240 => 67,
        96 => 68,
        7 => 69,
        64 => 70,
        89 => 71,
        876 => 72,
        127 => 73,
        236 => 74,
        117 => 75,
        99 => 76,
        54 => 77,
        90 => 78,
        57 => 79,
        11 => 80,
        800 => 81,
        902 => 82,
        21 => 83,
        82 => 84,
        25 => 85,
        950 => 86,
        267 => 87,
        75 => 88,
        111 => 89,
        518 => 90,
        76 => 91,
        895 => 92,
        56 => 93,
        20 => 94,
        2 => 95,
        61 => 96,
        516 => 97,
        80 => 98,
        78 => 99,
        555 => 100,
        246 => 101,
        133 => 102,
        497 => 103,
        33 => 104,
        421 => 105,
        526 => 106,
        888 => 107,
        58 => 108,
        107 => 109,
        92 => 110,
        68 => 111,
        13 => 112,
        360 => 113,
        113 => 114,
        235 => 115,
        147 => 116,
        875 => 117,
        35 => 118,
        98 => 119,
        102 => 120,
        27 => 121,
        14 => 122,
        15 => 123,
        72 => 124,
        901 => 125,
        37 => 126,
        16 => 127,
        50 => 128,
        517 => 129,
        134 => 130,
        223 => 131,
        163 => 132,
        91 => 133,
        44 => 134,
        17 => 135,
        412 => 136,
        18 => 137,
        48 => 138,
        23 => 139,
        4 => 140,
        29 => 141,
        77 => 142,
        6 => 143,
        110 => 144,
        67 => 145,
        45 => 146,
        161 => 147,
        711 => 148,
        254 => 149,
        234 => 150,
        112 => 151,
        8 => 152,
        106 => 153,
        19 => 154,
        62 => 155,
        498 => 156,
        101 => 157,
        5 => 158,
        157 => 159,
        777 => 160,
        83 => 161,
        804 => 162,
        350 => 163,
        154 => 164,
        238 => 165,
        221 => 166,
        115 => 167,
        26 => 168,
        142 => 169,
        143 => 170,
        _ => -1,
    }
}

} // verus!
