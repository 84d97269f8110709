pub mod curve;
pub mod decrypt;

use vstd::prelude::*;

verus! {

/// `i^3 mod 249`, the position at which the decipher table stores `i`.
pub open spec fn cube249(i: int) -> int {
    (i * i * i) % 249
}

/// The largest `x < n` whose cube modulo 249 is `v`, or 0 where none is.
pub open spec fn last_cube_root(v: int, n: int) -> int
    decreases n,
{
    if n <= 0 {
        0
    } else if cube249(n - 1) == v {
        n - 1
    } else {
        last_cube_root(v, n - 1)
    }
}

/// Entry `v` of the table that deciphers the Sony 0x94xx tags: the number
/// whose cube modulo 249 is `v`, and `v` itself from 249 on.
pub open spec fn decipher_value(v: int) -> int {
    if v >= 249 {
        v
    } else {
        last_cube_root(v, 249)
    }
}

proof fn lemma_last_cube_root_bound(v: int, n: int)
    requires
        0 <= n,
    ensures
        0 <= last_cube_root(v, n) < if n > 0 { n } else { 1 },
    decreases n,
{
    if n > 0 {
        lemma_last_cube_root_bound(v, n - 1);
    }
}

/// The number below 249 whose cube modulo 249 is `v`, for `v` below 249
/// (cubing is one to one modulo 249), written out.
spec fn cube_root249(v: int) -> int {
    if v == 0 {
        0
    } else if v == 1 {
        1
    } else if v == 2 {
        50
    } else if v == 3 {
        177
    } else if v == 4 {
        10
    } else if v == 5 {
        14
    } else if v == 6 {
        135
    } else if v == 7 {
        40
    } else if v == 8 {
        2
    } else if v == 9 {
        204
    } else if v == 10 {
        202
    } else if v == 11 {
        173
    } else if v == 12 {
        27
    } else if v == 13 {
        220
    } else if v == 14 {
        8
    } else if v == 15 {
        237
    } else if v == 16 {
        100
    } else if v == 17 {
        134
    } else if v == 18 {
        240
    } else if v == 19 {
        79
    } else if v == 20 {
        140
    } else if v == 21 {
        108
    } else if v == 22 {
        184
    } else if v == 23 {
        203
    } else if v == 24 {
        105
    } else if v == 25 {
        196
    } else if v == 26 {
        44
    } else if v == 27 {
        3
    } else if v == 28 {
        151
    } else if v == 29 {
        182
    } else if v == 30 {
        147
    } else if v == 31 {
        124
    } else if v == 32 {
        20
    } else if v == 33 {
        243
    } else if v == 34 {
        226
    } else if v == 35 {
        62
    } else if v == 36 {
        48
    } else if v == 37 {
        142
    } else if v == 38 {
        215
    } else if v == 39 {
        96
    } else if v == 40 {
        28
    } else if v == 41 {
        161
    } else if v == 42 {
        171
    } else if v == 43 {
        55
    } else if v == 44 {
        236
    } else if v == 45 {
        117
    } else if v == 46 {
        190
    } else if v == 47 {
        35
    } else if v == 48 {
        21
    } else if v == 49 {
        106
    } else if v == 50 {
        89
    } else if v == 51 {
        63
    } else if v == 52 {
        208
    } else if v == 53 {
        185
    } else if v == 54 {
        150
    } else if v == 55 {
        181
    } else if v == 56 {
        80
    } else if v == 57 {
        39
    } else if v == 58 {
        136
    } else if v == 59 {
        227
    } else if v == 60 {
        129
    } else if v == 61 {
        148
    } else if v == 62 {
        224
    } else if v == 63 {
        192
    } else if v == 64 {
        4
    } else if v == 65 {
        92
    } else if v == 66 {
        198
    } else if v == 67 {
        232
    } else if v == 68 {
        95
    } else if v == 69 {
        75
    } else if v == 70 {
        112
    } else if v == 71 {
        56
    } else if v == 72 {
        159
    } else if v == 73 {
        130
    } else if v == 74 {
        128
    } else if v == 75 {
        81
    } else if v == 76 {
        43
    } else if v == 77 {
        197
    } else if v == 78 {
        69
    } else if v == 79 {
        73
    } else if v == 80 {
        155
    } else if v == 81 {
        33
    } else if v == 82 {
        82
    } else if v == 83 {
        83
    } else if v == 84 {
        84
    } else if v == 85 {
        133
    } else if v == 86 {
        11
    } else if v == 87 {
        93
    } else if v == 88 {
        97
    } else if v == 89 {
        218
    } else if v == 90 {
        123
    } else if v == 91 {
        85
    } else if v == 92 {
        38
    } else if v == 93 {
        36
    } else if v == 94 {
        7
    } else if v == 95 {
        110
    } else if v == 96 {
        54
    } else if v == 97 {
        91
    } else if v == 98 {
        71
    } else if v == 99 {
        183
    } else if v == 100 {
        217
    } else if v == 101 {
        74
    } else if v == 102 {
        162
    } else if v == 103 {
        223
    } else if v == 104 {
        191
    } else if v == 105 {
        18
    } else if v == 106 {
        37
    } else if v == 107 {
        188
    } else if v == 108 {
        30
    } else if v == 109 {
        127
    } else if v == 110 {
        86
    } else if v == 111 {
        234
    } else if v == 112 {
        16
    } else if v == 113 {
        230
    } else if v == 114 {
        207
    } else if v == 115 {
        103
    } else if v == 116 {
        77
    } else if v == 117 {
        60
    } else if v == 118 {
        145
    } else if v == 119 {
        131
    } else if v == 120 {
        225
    } else if v == 121 {
        49
    } else if v == 122 {
        179
    } else if v == 123 {
        111
    } else if v == 124 {
        244
    } else if v == 125 {
        5
    } else if v == 126 {
        138
    } else if v == 127 {
        70
    } else if v == 128 {
        200
    } else if v == 129 {
        24
    } else if v == 130 {
        118
    } else if v == 131 {
        104
    } else if v == 132 {
        189
    } else if v == 133 {
        172
    } else if v == 134 {
        146
    } else if v == 135 {
        42
    } else if v == 136 {
        19
    } else if v == 137 {
        233
    } else if v == 138 {
        15
    } else if v == 139 {
        163
    } else if v == 140 {
        122
    } else if v == 141 {
        219
    } else if v == 142 {
        61
    } else if v == 143 {
        212
    } else if v == 144 {
        231
    } else if v == 145 {
        58
    } else if v == 146 {
        26
    } else if v == 147 {
        87
    } else if v == 148 {
        175
    } else if v == 149 {
        32
    } else if v == 150 {
        66
    } else if v == 151 {
        178
    } else if v == 152 {
        158
    } else if v == 153 {
        195
    } else if v == 154 {
        139
    } else if v == 155 {
        242
    } else if v == 156 {
        213
    } else if v == 157 {
        211
    } else if v == 158 {
        164
    } else if v == 159 {
        126
    } else if v == 160 {
        31
    } else if v == 161 {
        152
    } else if v == 162 {
        156
    } else if v == 163 {
        238
    } else if v == 164 {
        116
    } else if v == 165 {
        165
    } else if v == 166 {
        166
    } else if v == 167 {
        167
    } else if v == 168 {
        216
    } else if v == 169 {
        94
    } else if v == 170 {
        176
    } else if v == 171 {
        180
    } else if v == 172 {
        52
    } else if v == 173 {
        206
    } else if v == 174 {
        168
    } else if v == 175 {
        121
    } else if v == 176 {
        119
    } else if v == 177 {
        90
    } else if v == 178 {
        193
    } else if v == 179 {
        137
    } else if v == 180 {
        174
    } else if v == 181 {
        154
    } else if v == 182 {
        17
    } else if v == 183 {
        51
    } else if v == 184 {
        157
    } else if v == 185 {
        245
    } else if v == 186 {
        57
    } else if v == 187 {
        25
    } else if v == 188 {
        101
    } else if v == 189 {
        120
    } else if v == 190 {
        22
    } else if v == 191 {
        113
    } else if v == 192 {
        210
    } else if v == 193 {
        169
    } else if v == 194 {
        68
    } else if v == 195 {
        99
    } else if v == 196 {
        64
    } else if v == 197 {
        41
    } else if v == 198 {
        186
    } else if v == 199 {
        160
    } else if v == 200 {
        143
    } else if v == 201 {
        228
    } else if v == 202 {
        214
    } else if v == 203 {
        59
    } else if v == 204 {
        132
    } else if v == 205 {
        13
    } else if v == 206 {
        194
    } else if v == 207 {
        78
    } else if v == 208 {
        88
    } else if v == 209 {
        221
    } else if v == 210 {
        153
    } else if v == 211 {
        34
    } else if v == 212 {
        107
    } else if v == 213 {
        201
    } else if v == 214 {
        187
    } else if v == 215 {
        23
    } else if v == 216 {
        6
    } else if v == 217 {
        229
    } else if v == 218 {
        125
    } else if v == 219 {
        102
    } else if v == 220 {
        67
    } else if v == 221 {
        98
    } else if v == 222 {
        246
    } else if v == 223 {
        205
    } else if v == 224 {
        53
    } else if v == 225 {
        144
    } else if v == 226 {
        46
    } else if v == 227 {
        65
    } else if v == 228 {
        141
    } else if v == 229 {
        109
    } else if v == 230 {
        170
    } else if v == 231 {
        9
    } else if v == 232 {
        115
    } else if v == 233 {
        149
    } else if v == 234 {
        12
    } else if v == 235 {
        241
    } else if v == 236 {
        29
    } else if v == 237 {
        222
    } else if v == 238 {
        76
    } else if v == 239 {
        47
    } else if v == 240 {
        45
    } else if v == 241 {
        247
    } else if v == 242 {
        209
    } else if v == 243 {
        114
    } else if v == 244 {
        235
    } else if v == 245 {
        239
    } else if v == 246 {
        72
    } else if v == 247 {
        199
    } else if v == 248 {
        248
    } else {
        0
    }
}

proof fn lemma_cube_root249_0(x: int)
    requires
        0 <= x < 50,
    ensures
        cube_root249(cube249(x)) == x,
{
    if x == 0 {
        assert(cube249(0) == 0);
    } else if x == 1 {
        assert(cube249(1) == 1);
    } else if x == 2 {
        assert(cube249(2) == 8);
    } else if x == 3 {
        assert(cube249(3) == 27);
    } else if x == 4 {
        assert(cube249(4) == 64);
    } else if x == 5 {
        assert(cube249(5) == 125);
    } else if x == 6 {
        assert(cube249(6) == 216);
    } else if x == 7 {
        assert(cube249(7) == 94);
    } else if x == 8 {
        assert(cube249(8) == 14);
    } else if x == 9 {
        assert(cube249(9) == 231);
    } else if x == 10 {
        assert(cube249(10) == 4);
    } else if x == 11 {
        assert(cube249(11) == 86);
    } else if x == 12 {
        assert(cube249(12) == 234);
    } else if x == 13 {
        assert(cube249(13) == 205);
    } else if x == 14 {
        assert(cube249(14) == 5);
    } else if x == 15 {
        assert(cube249(15) == 138);
    } else if x == 16 {
        assert(cube249(16) == 112);
    } else if x == 17 {
        assert(cube249(17) == 182);
    } else if x == 18 {
        assert(cube249(18) == 105);
    } else if x == 19 {
        assert(cube249(19) == 136);
    } else if x == 20 {
        assert(cube249(20) == 32);
    } else if x == 21 {
        assert(cube249(21) == 48);
    } else if x == 22 {
        assert(cube249(22) == 190);
    } else if x == 23 {
        assert(cube249(23) == 215);
    } else if x == 24 {
        assert(cube249(24) == 129);
    } else if x == 25 {
        assert(cube249(25) == 187);
    } else if x == 26 {
        assert(cube249(26) == 146);
    } else if x == 27 {
        assert(cube249(27) == 12);
    } else if x == 28 {
        assert(cube249(28) == 40);
    } else if x == 29 {
        assert(cube249(29) == 236);
    } else if x == 30 {
        assert(cube249(30) == 108);
    } else if x == 31 {
        assert(cube249(31) == 160);
    } else if x == 32 {
        assert(cube249(32) == 149);
    } else if x == 33 {
        assert(cube249(33) == 81);
    } else if x == 34 {
        assert(cube249(34) == 211);
    } else if x == 35 {
        assert(cube249(35) == 47);
    } else if x == 36 {
        assert(cube249(36) == 93);
    } else if x == 37 {
        assert(cube249(37) == 106);
    } else if x == 38 {
        assert(cube249(38) == 92);
    } else if x == 39 {
        assert(cube249(39) == 57);
    } else if x == 40 {
        assert(cube249(40) == 7);
    } else if x == 41 {
        assert(cube249(41) == 197);
    } else if x == 42 {
        assert(cube249(42) == 135);
    } else if x == 43 {
        assert(cube249(43) == 76);
    } else if x == 44 {
        assert(cube249(44) == 26);
    } else if x == 45 {
        assert(cube249(45) == 240);
    } else if x == 46 {
        assert(cube249(46) == 226);
    } else if x == 47 {
        assert(cube249(47) == 239);
    } else if x == 48 {
        assert(cube249(48) == 36);
    } else if x == 49 {
        assert(cube249(49) == 121);
    }
}

proof fn lemma_cube_root249_50(x: int)
    requires
        50 <= x < 100,
    ensures
        cube_root249(cube249(x)) == x,
{
    if x == 50 {
        assert(cube249(50) == 2);
    } else if x == 51 {
        assert(cube249(51) == 183);
    } else if x == 52 {
        assert(cube249(52) == 172);
    } else if x == 53 {
        assert(cube249(53) == 224);
    } else if x == 54 {
        assert(cube249(54) == 96);
    } else if x == 55 {
        assert(cube249(55) == 43);
    } else if x == 56 {
        assert(cube249(56) == 71);
    } else if x == 57 {
        assert(cube249(57) == 186);
    } else if x == 58 {
        assert(cube249(58) == 145);
    } else if x == 59 {
        assert(cube249(59) == 203);
    } else if x == 60 {
        assert(cube249(60) == 117);
    } else if x == 61 {
        assert(cube249(61) == 142);
    } else if x == 62 {
        assert(cube249(62) == 35);
    } else if x == 63 {
        assert(cube249(63) == 51);
    } else if x == 64 {
        assert(cube249(64) == 196);
    } else if x == 65 {
        assert(cube249(65) == 227);
    } else if x == 66 {
        assert(cube249(66) == 150);
    } else if x == 67 {
        assert(cube249(67) == 220);
    } else if x == 68 {
        assert(cube249(68) == 194);
    } else if x == 69 {
        assert(cube249(69) == 78);
    } else if x == 70 {
        assert(cube249(70) == 127);
    } else if x == 71 {
        assert(cube249(71) == 98);
    } else if x == 72 {
        assert(cube249(72) == 246);
    } else if x == 73 {
        assert(cube249(73) == 79);
    } else if x == 74 {
        assert(cube249(74) == 101);
    } else if x == 75 {
        assert(cube249(75) == 69);
    } else if x == 76 {
        assert(cube249(76) == 238);
    } else if x == 77 {
        assert(cube249(77) == 116);
    } else if x == 78 {
        assert(cube249(78) == 207);
    } else if x == 79 {
        assert(cube249(79) == 19);
    } else if x == 80 {
        assert(cube249(80) == 56);
    } else if x == 81 {
        assert(cube249(81) == 75);
    } else if x == 82 {
        assert(cube249(82) == 82);
    } else if x == 83 {
        assert(cube249(83) == 83);
    } else if x == 84 {
        assert(cube249(84) == 84);
    } else if x == 85 {
        assert(cube249(85) == 91);
    } else if x == 86 {
        assert(cube249(86) == 110);
    } else if x == 87 {
        assert(cube249(87) == 147);
    } else if x == 88 {
        assert(cube249(88) == 208);
    } else if x == 89 {
        assert(cube249(89) == 50);
    } else if x == 90 {
        assert(cube249(90) == 177);
    } else if x == 91 {
        assert(cube249(91) == 97);
    } else if x == 92 {
        assert(cube249(92) == 65);
    } else if x == 93 {
        assert(cube249(93) == 87);
    } else if x == 94 {
        assert(cube249(94) == 169);
    } else if x == 95 {
        assert(cube249(95) == 68);
    } else if x == 96 {
        assert(cube249(96) == 39);
    } else if x == 97 {
        assert(cube249(97) == 88);
    } else if x == 98 {
        assert(cube249(98) == 221);
    } else if x == 99 {
        assert(cube249(99) == 195);
    }
}

proof fn lemma_cube_root249_100(x: int)
    requires
        100 <= x < 150,
    ensures
        cube_root249(cube249(x)) == x,
{
    if x == 100 {
        assert(cube249(100) == 16);
    } else if x == 101 {
        assert(cube249(101) == 188);
    } else if x == 102 {
        assert(cube249(102) == 219);
    } else if x == 103 {
        assert(cube249(103) == 115);
    } else if x == 104 {
        assert(cube249(104) == 131);
    } else if x == 105 {
        assert(cube249(105) == 24);
    } else if x == 106 {
        assert(cube249(106) == 49);
    } else if x == 107 {
        assert(cube249(107) == 212);
    } else if x == 108 {
        assert(cube249(108) == 21);
    } else if x == 109 {
        assert(cube249(109) == 229);
    } else if x == 110 {
        assert(cube249(110) == 95);
    } else if x == 111 {
        assert(cube249(111) == 123);
    } else if x == 112 {
        assert(cube249(112) == 70);
    } else if x == 113 {
        assert(cube249(113) == 191);
    } else if x == 114 {
        assert(cube249(114) == 243);
    } else if x == 115 {
        assert(cube249(115) == 232);
    } else if x == 116 {
        assert(cube249(116) == 164);
    } else if x == 117 {
        assert(cube249(117) == 45);
    } else if x == 118 {
        assert(cube249(118) == 130);
    } else if x == 119 {
        assert(cube249(119) == 176);
    } else if x == 120 {
        assert(cube249(120) == 189);
    } else if x == 121 {
        assert(cube249(121) == 175);
    } else if x == 122 {
        assert(cube249(122) == 140);
    } else if x == 123 {
        assert(cube249(123) == 90);
    } else if x == 124 {
        assert(cube249(124) == 31);
    } else if x == 125 {
        assert(cube249(125) == 218);
    } else if x == 126 {
        assert(cube249(126) == 159);
    } else if x == 127 {
        assert(cube249(127) == 109);
    } else if x == 128 {
        assert(cube249(128) == 74);
    } else if x == 129 {
        assert(cube249(129) == 60);
    } else if x == 130 {
        assert(cube249(130) == 73);
    } else if x == 131 {
        assert(cube249(131) == 119);
    } else if x == 132 {
        assert(cube249(132) == 204);
    } else if x == 133 {
        assert(cube249(133) == 85);
    } else if x == 134 {
        assert(cube249(134) == 17);
    } else if x == 135 {
        assert(cube249(135) == 6);
    } else if x == 136 {
        assert(cube249(136) == 58);
    } else if x == 137 {
        assert(cube249(137) == 179);
    } else if x == 138 {
        assert(cube249(138) == 126);
    } else if x == 139 {
        assert(cube249(139) == 154);
    } else if x == 140 {
        assert(cube249(140) == 20);
    } else if x == 141 {
        assert(cube249(141) == 228);
    } else if x == 142 {
        assert(cube249(142) == 37);
    } else if x == 143 {
        assert(cube249(143) == 200);
    } else if x == 144 {
        assert(cube249(144) == 225);
    } else if x == 145 {
        assert(cube249(145) == 118);
    } else if x == 146 {
        assert(cube249(146) == 134);
    } else if x == 147 {
        assert(cube249(147) == 30);
    } else if x == 148 {
        assert(cube249(148) == 61);
    } else if x == 149 {
        assert(cube249(149) == 233);
    }
}

proof fn lemma_cube_root249_150(x: int)
    requires
        150 <= x < 200,
    ensures
        cube_root249(cube249(x)) == x,
{
    if x == 150 {
        assert(cube249(150) == 54);
    } else if x == 151 {
        assert(cube249(151) == 28);
    } else if x == 152 {
        assert(cube249(152) == 161);
    } else if x == 153 {
        assert(cube249(153) == 210);
    } else if x == 154 {
        assert(cube249(154) == 181);
    } else if x == 155 {
        assert(cube249(155) == 80);
    } else if x == 156 {
        assert(cube249(156) == 162);
    } else if x == 157 {
        assert(cube249(157) == 184);
    } else if x == 158 {
        assert(cube249(158) == 152);
    } else if x == 159 {
        assert(cube249(159) == 72);
    } else if x == 160 {
        assert(cube249(160) == 199);
    } else if x == 161 {
        assert(cube249(161) == 41);
    } else if x == 162 {
        assert(cube249(162) == 102);
    } else if x == 163 {
        assert(cube249(163) == 139);
    } else if x == 164 {
        assert(cube249(164) == 158);
    } else if x == 165 {
        assert(cube249(165) == 165);
    } else if x == 166 {
        assert(cube249(166) == 166);
    } else if x == 167 {
        assert(cube249(167) == 167);
    } else if x == 168 {
        assert(cube249(168) == 174);
    } else if x == 169 {
        assert(cube249(169) == 193);
    } else if x == 170 {
        assert(cube249(170) == 230);
    } else if x == 171 {
        assert(cube249(171) == 42);
    } else if x == 172 {
        assert(cube249(172) == 133);
    } else if x == 173 {
        assert(cube249(173) == 11);
    } else if x == 174 {
        assert(cube249(174) == 180);
    } else if x == 175 {
        assert(cube249(175) == 148);
    } else if x == 176 {
        assert(cube249(176) == 170);
    } else if x == 177 {
        assert(cube249(177) == 3);
    } else if x == 178 {
        assert(cube249(178) == 151);
    } else if x == 179 {
        assert(cube249(179) == 122);
    } else if x == 180 {
        assert(cube249(180) == 171);
    } else if x == 181 {
        assert(cube249(181) == 55);
    } else if x == 182 {
        assert(cube249(182) == 29);
    } else if x == 183 {
        assert(cube249(183) == 99);
    } else if x == 184 {
        assert(cube249(184) == 22);
    } else if x == 185 {
        assert(cube249(185) == 53);
    } else if x == 186 {
        assert(cube249(186) == 198);
    } else if x == 187 {
        assert(cube249(187) == 214);
    } else if x == 188 {
        assert(cube249(188) == 107);
    } else if x == 189 {
        assert(cube249(189) == 132);
    } else if x == 190 {
        assert(cube249(190) == 46);
    } else if x == 191 {
        assert(cube249(191) == 104);
    } else if x == 192 {
        assert(cube249(192) == 63);
    } else if x == 193 {
        assert(cube249(193) == 178);
    } else if x == 194 {
        assert(cube249(194) == 206);
    } else if x == 195 {
        assert(cube249(195) == 153);
    } else if x == 196 {
        assert(cube249(196) == 25);
    } else if x == 197 {
        assert(cube249(197) == 77);
    } else if x == 198 {
        assert(cube249(198) == 66);
    } else if x == 199 {
        assert(cube249(199) == 247);
    }
}

proof fn lemma_cube_root249_200(x: int)
    requires
        200 <= x < 249,
    ensures
        cube_root249(cube249(x)) == x,
{
    if x == 200 {
        assert(cube249(200) == 128);
    } else if x == 201 {
        assert(cube249(201) == 213);
    } else if x == 202 {
        assert(cube249(202) == 10);
    } else if x == 203 {
        assert(cube249(203) == 23);
    } else if x == 204 {
        assert(cube249(204) == 9);
    } else if x == 205 {
        assert(cube249(205) == 223);
    } else if x == 206 {
        assert(cube249(206) == 173);
    } else if x == 207 {
        assert(cube249(207) == 114);
    } else if x == 208 {
        assert(cube249(208) == 52);
    } else if x == 209 {
        assert(cube249(209) == 242);
    } else if x == 210 {
        assert(cube249(210) == 192);
    } else if x == 211 {
        assert(cube249(211) == 157);
    } else if x == 212 {
        assert(cube249(212) == 143);
    } else if x == 213 {
        assert(cube249(213) == 156);
    } else if x == 214 {
        assert(cube249(214) == 202);
    } else if x == 215 {
        assert(cube249(215) == 38);
    } else if x == 216 {
        assert(cube249(216) == 168);
    } else if x == 217 {
        assert(cube249(217) == 100);
    } else if x == 218 {
        assert(cube249(218) == 89);
    } else if x == 219 {
        assert(cube249(219) == 141);
    } else if x == 220 {
        assert(cube249(220) == 13);
    } else if x == 221 {
        assert(cube249(221) == 209);
    } else if x == 222 {
        assert(cube249(222) == 237);
    } else if x == 223 {
        assert(cube249(223) == 103);
    } else if x == 224 {
        assert(cube249(224) == 62);
    } else if x == 225 {
        assert(cube249(225) == 120);
    } else if x == 226 {
        assert(cube249(226) == 34);
    } else if x == 227 {
        assert(cube249(227) == 59);
    } else if x == 228 {
        assert(cube249(228) == 201);
    } else if x == 229 {
        assert(cube249(229) == 217);
    } else if x == 230 {
        assert(cube249(230) == 113);
    } else if x == 231 {
        assert(cube249(231) == 144);
    } else if x == 232 {
        assert(cube249(232) == 67);
    } else if x == 233 {
        assert(cube249(233) == 137);
    } else if x == 234 {
        assert(cube249(234) == 111);
    } else if x == 235 {
        assert(cube249(235) == 244);
    } else if x == 236 {
        assert(cube249(236) == 44);
    } else if x == 237 {
        assert(cube249(237) == 15);
    } else if x == 238 {
        assert(cube249(238) == 163);
    } else if x == 239 {
        assert(cube249(239) == 245);
    } else if x == 240 {
        assert(cube249(240) == 18);
    } else if x == 241 {
        assert(cube249(241) == 235);
    } else if x == 242 {
        assert(cube249(242) == 155);
    } else if x == 243 {
        assert(cube249(243) == 33);
    } else if x == 244 {
        assert(cube249(244) == 124);
    } else if x == 245 {
        assert(cube249(245) == 185);
    } else if x == 246 {
        assert(cube249(246) == 222);
    } else if x == 247 {
        assert(cube249(247) == 241);
    } else if x == 248 {
        assert(cube249(248) == 248);
    }
}

/// Cubing modulo 249 is undone by `cube_root249`.
proof fn lemma_cube_root249(x: int)
    requires
        0 <= x < 249,
    ensures
        cube_root249(cube249(x)) == x,
{
    if x < 50 {
        lemma_cube_root249_0(x);
    } else if x < 100 {
        lemma_cube_root249_50(x);
    } else if x < 150 {
        lemma_cube_root249_100(x);
    } else if x < 200 {
        lemma_cube_root249_150(x);
    } else {
        lemma_cube_root249_200(x);
    }
}

/// Cubing modulo 249 is one to one below 249.
proof fn lemma_cube249_injective(x: int, y: int)
    requires
        0 <= x < 249,
        0 <= y < 249,
        cube249(x) == cube249(y),
    ensures
        x == y,
{
    lemma_cube_root249(x);
    lemma_cube_root249(y);
}

/// Below `n`, the last number whose cube is that of `i` is `i` itself.
proof fn lemma_last_cube_root_finds(i: int, n: int)
    requires
        0 <= i < n <= 249,
    ensures
        last_cube_root(cube249(i), n) == i,
    decreases n,
{
    if n - 1 != i {
        if cube249(n - 1) == cube249(i) {
            lemma_cube249_injective(n - 1, i);
        }
        lemma_last_cube_root_finds(i, n - 1);
    }
}

/// The decipher table undoes the cipher: the entry at `i^3 mod 249` is `i`
/// for every `i` below 249.
pub proof fn lemma_decipher_inverts_cube(i: int)
    requires
        0 <= i < 249,
    ensures
        decipher_value(cube249(i)) == i,
{
    lemma_last_cube_root_finds(i, 249);
}

proof fn lemma_root_cubes_0(v: int)
    requires
        0 <= v < 50,
    ensures
        0 <= cube_root249(v) < 249,
        cube249(cube_root249(v)) == v,
{
    if v == 0 {
        assert(cube249(0) == 0);
    } else if v == 1 {
        assert(cube249(1) == 1);
    } else if v == 2 {
        assert(cube249(50) == 2);
    } else if v == 3 {
        assert(cube249(177) == 3);
    } else if v == 4 {
        assert(cube249(10) == 4);
    } else if v == 5 {
        assert(cube249(14) == 5);
    } else if v == 6 {
        assert(cube249(135) == 6);
    } else if v == 7 {
        assert(cube249(40) == 7);
    } else if v == 8 {
        assert(cube249(2) == 8);
    } else if v == 9 {
        assert(cube249(204) == 9);
    } else if v == 10 {
        assert(cube249(202) == 10);
    } else if v == 11 {
        assert(cube249(173) == 11);
    } else if v == 12 {
        assert(cube249(27) == 12);
    } else if v == 13 {
        assert(cube249(220) == 13);
    } else if v == 14 {
        assert(cube249(8) == 14);
    } else if v == 15 {
        assert(cube249(237) == 15);
    } else if v == 16 {
        assert(cube249(100) == 16);
    } else if v == 17 {
        assert(cube249(134) == 17);
    } else if v == 18 {
        assert(cube249(240) == 18);
    } else if v == 19 {
        assert(cube249(79) == 19);
    } else if v == 20 {
        assert(cube249(140) == 20);
    } else if v == 21 {
        assert(cube249(108) == 21);
    } else if v == 22 {
        assert(cube249(184) == 22);
    } else if v == 23 {
        assert(cube249(203) == 23);
    } else if v == 24 {
        assert(cube249(105) == 24);
    } else if v == 25 {
        assert(cube249(196) == 25);
    } else if v == 26 {
        assert(cube249(44) == 26);
    } else if v == 27 {
        assert(cube249(3) == 27);
    } else if v == 28 {
        assert(cube249(151) == 28);
    } else if v == 29 {
        assert(cube249(182) == 29);
    } else if v == 30 {
        assert(cube249(147) == 30);
    } else if v == 31 {
        assert(cube249(124) == 31);
    } else if v == 32 {
        assert(cube249(20) == 32);
    } else if v == 33 {
        assert(cube249(243) == 33);
    } else if v == 34 {
        assert(cube249(226) == 34);
    } else if v == 35 {
        assert(cube249(62) == 35);
    } else if v == 36 {
        assert(cube249(48) == 36);
    } else if v == 37 {
        assert(cube249(142) == 37);
    } else if v == 38 {
        assert(cube249(215) == 38);
    } else if v == 39 {
        assert(cube249(96) == 39);
    } else if v == 40 {
        assert(cube249(28) == 40);
    } else if v == 41 {
        assert(cube249(161) == 41);
    } else if v == 42 {
        assert(cube249(171) == 42);
    } else if v == 43 {
        assert(cube249(55) == 43);
    } else if v == 44 {
        assert(cube249(236) == 44);
    } else if v == 45 {
        assert(cube249(117) == 45);
    } else if v == 46 {
        assert(cube249(190) == 46);
    } else if v == 47 {
        assert(cube249(35) == 47);
    } else if v == 48 {
        assert(cube249(21) == 48);
    } else if v == 49 {
        assert(cube249(106) == 49);
    }
}

proof fn lemma_root_cubes_50(v: int)
    requires
        50 <= v < 100,
    ensures
        0 <= cube_root249(v) < 249,
        cube249(cube_root249(v)) == v,
{
    if v == 50 {
        assert(cube249(89) == 50);
    } else if v == 51 {
        assert(cube249(63) == 51);
    } else if v == 52 {
        assert(cube249(208) == 52);
    } else if v == 53 {
        assert(cube249(185) == 53);
    } else if v == 54 {
        assert(cube249(150) == 54);
    } else if v == 55 {
        assert(cube249(181) == 55);
    } else if v == 56 {
        assert(cube249(80) == 56);
    } else if v == 57 {
        assert(cube249(39) == 57);
    } else if v == 58 {
        assert(cube249(136) == 58);
    } else if v == 59 {
        assert(cube249(227) == 59);
    } else if v == 60 {
        assert(cube249(129) == 60);
    } else if v == 61 {
        assert(cube249(148) == 61);
    } else if v == 62 {
        assert(cube249(224) == 62);
    } else if v == 63 {
        assert(cube249(192) == 63);
    } else if v == 64 {
        assert(cube249(4) == 64);
    } else if v == 65 {
        assert(cube249(92) == 65);
    } else if v == 66 {
        assert(cube249(198) == 66);
    } else if v == 67 {
        assert(cube249(232) == 67);
    } else if v == 68 {
        assert(cube249(95) == 68);
    } else if v == 69 {
        assert(cube249(75) == 69);
    } else if v == 70 {
        assert(cube249(112) == 70);
    } else if v == 71 {
        assert(cube249(56) == 71);
    } else if v == 72 {
        assert(cube249(159) == 72);
    } else if v == 73 {
        assert(cube249(130) == 73);
    } else if v == 74 {
        assert(cube249(128) == 74);
    } else if v == 75 {
        assert(cube249(81) == 75);
    } else if v == 76 {
        assert(cube249(43) == 76);
    } else if v == 77 {
        assert(cube249(197) == 77);
    } else if v == 78 {
        assert(cube249(69) == 78);
    } else if v == 79 {
        assert(cube249(73) == 79);
    } else if v == 80 {
        assert(cube249(155) == 80);
    } else if v == 81 {
        assert(cube249(33) == 81);
    } else if v == 82 {
        assert(cube249(82) == 82);
    } else if v == 83 {
        assert(cube249(83) == 83);
    } else if v == 84 {
        assert(cube249(84) == 84);
    } else if v == 85 {
        assert(cube249(133) == 85);
    } else if v == 86 {
        assert(cube249(11) == 86);
    } else if v == 87 {
        assert(cube249(93) == 87);
    } else if v == 88 {
        assert(cube249(97) == 88);
    } else if v == 89 {
        assert(cube249(218) == 89);
    } else if v == 90 {
        assert(cube249(123) == 90);
    } else if v == 91 {
        assert(cube249(85) == 91);
    } else if v == 92 {
        assert(cube249(38) == 92);
    } else if v == 93 {
        assert(cube249(36) == 93);
    } else if v == 94 {
        assert(cube249(7) == 94);
    } else if v == 95 {
        assert(cube249(110) == 95);
    } else if v == 96 {
        assert(cube249(54) == 96);
    } else if v == 97 {
        assert(cube249(91) == 97);
    } else if v == 98 {
        assert(cube249(71) == 98);
    } else if v == 99 {
        assert(cube249(183) == 99);
    }
}

proof fn lemma_root_cubes_100(v: int)
    requires
        100 <= v < 150,
    ensures
        0 <= cube_root249(v) < 249,
        cube249(cube_root249(v)) == v,
{
    if v == 100 {
        assert(cube249(217) == 100);
    } else if v == 101 {
        assert(cube249(74) == 101);
    } else if v == 102 {
        assert(cube249(162) == 102);
    } else if v == 103 {
        assert(cube249(223) == 103);
    } else if v == 104 {
        assert(cube249(191) == 104);
    } else if v == 105 {
        assert(cube249(18) == 105);
    } else if v == 106 {
        assert(cube249(37) == 106);
    } else if v == 107 {
        assert(cube249(188) == 107);
    } else if v == 108 {
        assert(cube249(30) == 108);
    } else if v == 109 {
        assert(cube249(127) == 109);
    } else if v == 110 {
        assert(cube249(86) == 110);
    } else if v == 111 {
        assert(cube249(234) == 111);
    } else if v == 112 {
        assert(cube249(16) == 112);
    } else if v == 113 {
        assert(cube249(230) == 113);
    } else if v == 114 {
        assert(cube249(207) == 114);
    } else if v == 115 {
        assert(cube249(103) == 115);
    } else if v == 116 {
        assert(cube249(77) == 116);
    } else if v == 117 {
        assert(cube249(60) == 117);
    } else if v == 118 {
        assert(cube249(145) == 118);
    } else if v == 119 {
        assert(cube249(131) == 119);
    } else if v == 120 {
        assert(cube249(225) == 120);
    } else if v == 121 {
        assert(cube249(49) == 121);
    } else if v == 122 {
        assert(cube249(179) == 122);
    } else if v == 123 {
        assert(cube249(111) == 123);
    } else if v == 124 {
        assert(cube249(244) == 124);
    } else if v == 125 {
        assert(cube249(5) == 125);
    } else if v == 126 {
        assert(cube249(138) == 126);
    } else if v == 127 {
        assert(cube249(70) == 127);
    } else if v == 128 {
        assert(cube249(200) == 128);
    } else if v == 129 {
        assert(cube249(24) == 129);
    } else if v == 130 {
        assert(cube249(118) == 130);
    } else if v == 131 {
        assert(cube249(104) == 131);
    } else if v == 132 {
        assert(cube249(189) == 132);
    } else if v == 133 {
        assert(cube249(172) == 133);
    } else if v == 134 {
        assert(cube249(146) == 134);
    } else if v == 135 {
        assert(cube249(42) == 135);
    } else if v == 136 {
        assert(cube249(19) == 136);
    } else if v == 137 {
        assert(cube249(233) == 137);
    } else if v == 138 {
        assert(cube249(15) == 138);
    } else if v == 139 {
        assert(cube249(163) == 139);
    } else if v == 140 {
        assert(cube249(122) == 140);
    } else if v == 141 {
        assert(cube249(219) == 141);
    } else if v == 142 {
        assert(cube249(61) == 142);
    } else if v == 143 {
        assert(cube249(212) == 143);
    } else if v == 144 {
        assert(cube249(231) == 144);
    } else if v == 145 {
        assert(cube249(58) == 145);
    } else if v == 146 {
        assert(cube249(26) == 146);
    } else if v == 147 {
        assert(cube249(87) == 147);
    } else if v == 148 {
        assert(cube249(175) == 148);
    } else if v == 149 {
        assert(cube249(32) == 149);
    }
}

proof fn lemma_root_cubes_150(v: int)
    requires
        150 <= v < 200,
    ensures
        0 <= cube_root249(v) < 249,
        cube249(cube_root249(v)) == v,
{
    if v == 150 {
        assert(cube249(66) == 150);
    } else if v == 151 {
        assert(cube249(178) == 151);
    } else if v == 152 {
        assert(cube249(158) == 152);
    } else if v == 153 {
        assert(cube249(195) == 153);
    } else if v == 154 {
        assert(cube249(139) == 154);
    } else if v == 155 {
        assert(cube249(242) == 155);
    } else if v == 156 {
        assert(cube249(213) == 156);
    } else if v == 157 {
        assert(cube249(211) == 157);
    } else if v == 158 {
        assert(cube249(164) == 158);
    } else if v == 159 {
        assert(cube249(126) == 159);
    } else if v == 160 {
        assert(cube249(31) == 160);
    } else if v == 161 {
        assert(cube249(152) == 161);
    } else if v == 162 {
        assert(cube249(156) == 162);
    } else if v == 163 {
        assert(cube249(238) == 163);
    } else if v == 164 {
        assert(cube249(116) == 164);
    } else if v == 165 {
        assert(cube249(165) == 165);
    } else if v == 166 {
        assert(cube249(166) == 166);
    } else if v == 167 {
        assert(cube249(167) == 167);
    } else if v == 168 {
        assert(cube249(216) == 168);
    } else if v == 169 {
        assert(cube249(94) == 169);
    } else if v == 170 {
        assert(cube249(176) == 170);
    } else if v == 171 {
        assert(cube249(180) == 171);
    } else if v == 172 {
        assert(cube249(52) == 172);
    } else if v == 173 {
        assert(cube249(206) == 173);
    } else if v == 174 {
        assert(cube249(168) == 174);
    } else if v == 175 {
        assert(cube249(121) == 175);
    } else if v == 176 {
        assert(cube249(119) == 176);
    } else if v == 177 {
        assert(cube249(90) == 177);
    } else if v == 178 {
        assert(cube249(193) == 178);
    } else if v == 179 {
        assert(cube249(137) == 179);
    } else if v == 180 {
        assert(cube249(174) == 180);
    } else if v == 181 {
        assert(cube249(154) == 181);
    } else if v == 182 {
        assert(cube249(17) == 182);
    } else if v == 183 {
        assert(cube249(51) == 183);
    } else if v == 184 {
        assert(cube249(157) == 184);
    } else if v == 185 {
        assert(cube249(245) == 185);
    } else if v == 186 {
        assert(cube249(57) == 186);
    } else if v == 187 {
        assert(cube249(25) == 187);
    } else if v == 188 {
        assert(cube249(101) == 188);
    } else if v == 189 {
        assert(cube249(120) == 189);
    } else if v == 190 {
        assert(cube249(22) == 190);
    } else if v == 191 {
        assert(cube249(113) == 191);
    } else if v == 192 {
        assert(cube249(210) == 192);
    } else if v == 193 {
        assert(cube249(169) == 193);
    } else if v == 194 {
        assert(cube249(68) == 194);
    } else if v == 195 {
        assert(cube249(99) == 195);
    } else if v == 196 {
        assert(cube249(64) == 196);
    } else if v == 197 {
        assert(cube249(41) == 197);
    } else if v == 198 {
        assert(cube249(186) == 198);
    } else if v == 199 {
        assert(cube249(160) == 199);
    }
}

proof fn lemma_root_cubes_200(v: int)
    requires
        200 <= v < 249,
    ensures
        0 <= cube_root249(v) < 249,
        cube249(cube_root249(v)) == v,
{
    if v == 200 {
        assert(cube249(143) == 200);
    } else if v == 201 {
        assert(cube249(228) == 201);
    } else if v == 202 {
        assert(cube249(214) == 202);
    } else if v == 203 {
        assert(cube249(59) == 203);
    } else if v == 204 {
        assert(cube249(132) == 204);
    } else if v == 205 {
        assert(cube249(13) == 205);
    } else if v == 206 {
        assert(cube249(194) == 206);
    } else if v == 207 {
        assert(cube249(78) == 207);
    } else if v == 208 {
        assert(cube249(88) == 208);
    } else if v == 209 {
        assert(cube249(221) == 209);
    } else if v == 210 {
        assert(cube249(153) == 210);
    } else if v == 211 {
        assert(cube249(34) == 211);
    } else if v == 212 {
        assert(cube249(107) == 212);
    } else if v == 213 {
        assert(cube249(201) == 213);
    } else if v == 214 {
        assert(cube249(187) == 214);
    } else if v == 215 {
        assert(cube249(23) == 215);
    } else if v == 216 {
        assert(cube249(6) == 216);
    } else if v == 217 {
        assert(cube249(229) == 217);
    } else if v == 218 {
        assert(cube249(125) == 218);
    } else if v == 219 {
        assert(cube249(102) == 219);
    } else if v == 220 {
        assert(cube249(67) == 220);
    } else if v == 221 {
        assert(cube249(98) == 221);
    } else if v == 222 {
        assert(cube249(246) == 222);
    } else if v == 223 {
        assert(cube249(205) == 223);
    } else if v == 224 {
        assert(cube249(53) == 224);
    } else if v == 225 {
        assert(cube249(144) == 225);
    } else if v == 226 {
        assert(cube249(46) == 226);
    } else if v == 227 {
        assert(cube249(65) == 227);
    } else if v == 228 {
        assert(cube249(141) == 228);
    } else if v == 229 {
        assert(cube249(109) == 229);
    } else if v == 230 {
        assert(cube249(170) == 230);
    } else if v == 231 {
        assert(cube249(9) == 231);
    } else if v == 232 {
        assert(cube249(115) == 232);
    } else if v == 233 {
        assert(cube249(149) == 233);
    } else if v == 234 {
        assert(cube249(12) == 234);
    } else if v == 235 {
        assert(cube249(241) == 235);
    } else if v == 236 {
        assert(cube249(29) == 236);
    } else if v == 237 {
        assert(cube249(222) == 237);
    } else if v == 238 {
        assert(cube249(76) == 238);
    } else if v == 239 {
        assert(cube249(47) == 239);
    } else if v == 240 {
        assert(cube249(45) == 240);
    } else if v == 241 {
        assert(cube249(247) == 241);
    } else if v == 242 {
        assert(cube249(209) == 242);
    } else if v == 243 {
        assert(cube249(114) == 243);
    } else if v == 244 {
        assert(cube249(235) == 244);
    } else if v == 245 {
        assert(cube249(239) == 245);
    } else if v == 246 {
        assert(cube249(72) == 246);
    } else if v == 247 {
        assert(cube249(199) == 247);
    } else if v == 248 {
        assert(cube249(248) == 248);
    }
}

/// Every `v` below 249 is the cube of a number below 249.
proof fn lemma_root_cubes(v: int)
    requires
        0 <= v < 249,
    ensures
        0 <= cube_root249(v) < 249,
        cube249(cube_root249(v)) == v,
{
    if v < 50 {
        lemma_root_cubes_0(v);
    } else if v < 100 {
        lemma_root_cubes_50(v);
    } else if v < 150 {
        lemma_root_cubes_100(v);
    } else if v < 200 {
        lemma_root_cubes_150(v);
    } else {
        lemma_root_cubes_200(v);
    }
}

/// The Sony cipher of a byte: its cube modulo 249 below 249, the byte
/// itself from 249 on.
pub open spec fn sony_cipher_byte(b: int) -> int {
    if b < 249 { cube249(b) } else { b }
}

/// Enciphering undoes the decipher table: every byte is the cipher of its
/// deciphered value.
pub proof fn lemma_cube_inverts_decipher(v: int)
    requires
        0 <= v < 256,
    ensures
        0 <= decipher_value(v) < 256,
        sony_cipher_byte(decipher_value(v)) == v,
{
    if v < 249 {
        lemma_root_cubes(v);
        let r = cube_root249(v);
        lemma_decipher_inverts_cube(r);
    }
}

/// The table that deciphers the Sony 0x94xx tags: for each `i` below 249
/// the entry at `i^3 mod 249` is `i`; the entries from 249 on hold their
/// own index.
pub fn sony_tag9cxx_decipher_table() -> (r: [u8; 256])
    ensures
        forall|v: int| 0 <= v < 256 ==> #[trigger] r@[v] as int == decipher_value(v),
{
    let mut tbl: [u8; 256] = [0u8; 256];
    let mut i: usize = 0;
    loop
        invariant_except_break
            i < 256,
            forall|v: int|
                0 <= v < 256 ==> #[trigger] tbl@[v] as int == if v >= 249 {
                    if v < i { v } else { 0 }
                } else {
                    last_cube_root(v, if i < 249 { i as int } else { 249 })
                },
        ensures
            forall|v: int| 0 <= v < 256 ==> #[trigger] tbl@[v] as int == decipher_value(v),
        decreases 256 - i,
    {
        if i >= 249 {
            tbl[i] = i as u8;
        } else {
            assert(i * i <= 248 * 248 && i * i * i <= 248 * 248 * 248) by (nonlinear_arith)
                requires
                    i < 249,
            ;
            let idx = i * i * i % 249;
            tbl[idx] = i as u8;
            proof {
                assert forall|v: int| 0 <= v < 249 implies #[trigger] tbl@[v] as int == last_cube_root(v, i + 1) by {
                    lemma_last_cube_root_bound(v, i as int);
                }
            }
        }
        i += 1;
        if i >= 256 {
            break;
        }
    }
    tbl
}

/// Decipher the bytes of a Sony 0x94xx tag through the table.
pub fn sony_tag9cxx_decipher(data: &[u8]) -> (r: Vec<u8>)
    ensures
        r@.len() == data@.len(),
        forall|i: int| 0 <= i < data@.len() ==> #[trigger] r@[i] as int == decipher_value(data@[i] as int),
        forall|i: int| 0 <= i < data@.len() ==> sony_cipher_byte(#[trigger] r@[i] as int) == data@[i],
{
    let tbl = sony_tag9cxx_decipher_table();
    let mut buf: Vec<u8> = Vec::new();
    for i in 0..data.len()
        invariant
            forall|v: int| 0 <= v < 256 ==> #[trigger] tbl@[v] as int == decipher_value(v),
            buf@.len() == i,
            forall|j: int| 0 <= j < i ==> #[trigger] buf@[j] as int == decipher_value(data@[j] as int),
    {
        buf.push(tbl[data[i] as usize]);
    }
    proof {
        assert forall|i: int| 0 <= i < data@.len() implies sony_cipher_byte(#[trigger] buf@[i] as int) == data@[i] by {
            lemma_cube_inverts_decipher(data@[i] as int);
        }
    }
    buf
}

/// Tags of the Sony makernote.
#[derive(Debug, Copy, Clone, PartialEq, Eq, Structural)]
#[allow(non_camel_case_types)]
pub enum ArwMakernoteTag {
    CameraInfo,
    Tag_940C,
    Tag_9050,
    Tag_9405,
    Tag_9416,
}

impl ArwMakernoteTag {
    /// The tag's number.
    pub open spec fn tag_number(self) -> u16 {
        match self {
            ArwMakernoteTag::CameraInfo => 0x0010u16,
            ArwMakernoteTag::Tag_940C => 0x940cu16,
            ArwMakernoteTag::Tag_9050 => 0x9050u16,
            ArwMakernoteTag::Tag_9405 => 0x9405u16,
            ArwMakernoteTag::Tag_9416 => 0x9416u16,
        }
    }

    /// The tag with number `value`, if there is one.
    pub open spec fn tag_of(value: u16) -> Option<ArwMakernoteTag> {
        if value == 0x0010 {
            Some(ArwMakernoteTag::CameraInfo)
        } else if value == 0x940c {
            Some(ArwMakernoteTag::Tag_940C)
        } else if value == 0x9050 {
            Some(ArwMakernoteTag::Tag_9050)
        } else if value == 0x9405 {
            Some(ArwMakernoteTag::Tag_9405)
        } else if value == 0x9416 {
            Some(ArwMakernoteTag::Tag_9416)
        } else {
            None
        }
    }

    /// The tag's number.
    pub fn value(self) -> (r: u16)
        ensures
            r == self.tag_number(),
    {
        match self {
            ArwMakernoteTag::CameraInfo => 0x0010,
            ArwMakernoteTag::Tag_940C => 0x940c,
            ArwMakernoteTag::Tag_9050 => 0x9050,
            ArwMakernoteTag::Tag_9405 => 0x9405,
            ArwMakernoteTag::Tag_9416 => 0x9416,
        }
    }

    /// The tag with number `value`, if there is one.
    pub fn n(value: u16) -> (r: Option<ArwMakernoteTag>)
        ensures
            r == Self::tag_of(value),
    {
        match value {
            0x0010 => Some(ArwMakernoteTag::CameraInfo),
            0x940c => Some(ArwMakernoteTag::Tag_940C),
            0x9050 => Some(ArwMakernoteTag::Tag_9050),
            0x9405 => Some(ArwMakernoteTag::Tag_9405),
            0x9416 => Some(ArwMakernoteTag::Tag_9416),
            _ => None,
        }
    }

    /// A tag is found again from its number, and a number names only
    /// the tag that has it.
    pub proof fn lemma_tag_roundtrip(self, value: u16)
        ensures
            Self::tag_of(self.tag_number()) == Some(self),
            Self::tag_of(value) matches Some(t) ==> t.tag_number() == value,
    {
    }
}

impl From<ArwMakernoteTag> for u16 {
    fn from(tag: ArwMakernoteTag) -> (r: u16) {
        tag.value()
    }
}

impl vstd::std_specs::convert::FromSpecImpl<ArwMakernoteTag> for u16 {
    open spec fn obeys_from_spec() -> bool {
        true
    }

    open spec fn from_spec(tag: ArwMakernoteTag) -> u16 {
        tag.tag_number()
    }
}

/// Tags of the Sony SR2 private sub-IFD.
#[derive(Debug, Copy, Clone, PartialEq, Eq, Structural)]
#[allow(non_camel_case_types)]
pub enum SR2SubIFD {
    SonyGRBG,
    SonyRGGB,
    BlackLevel1,
    BlackLevel2,
    WhiteLevel,
}

impl SR2SubIFD {
    /// The tag's number.
    pub open spec fn tag_number(self) -> u16 {
        match self {
            SR2SubIFD::SonyGRBG => 0x7303u16,
            SR2SubIFD::SonyRGGB => 0x7313u16,
            SR2SubIFD::BlackLevel1 => 0x7300u16,
            SR2SubIFD::BlackLevel2 => 0x7310u16,
            SR2SubIFD::WhiteLevel => 0x787fu16,
        }
    }

    /// The tag with number `value`, if there is one.
    pub open spec fn tag_of(value: u16) -> Option<SR2SubIFD> {
        if value == 0x7303 {
            Some(SR2SubIFD::SonyGRBG)
        } else if value == 0x7313 {
            Some(SR2SubIFD::SonyRGGB)
        } else if value == 0x7300 {
            Some(SR2SubIFD::BlackLevel1)
        } else if value == 0x7310 {
            Some(SR2SubIFD::BlackLevel2)
        } else if value == 0x787f {
            Some(SR2SubIFD::WhiteLevel)
        } else {
            None
        }
    }

    /// The tag's number.
    pub fn value(self) -> (r: u16)
        ensures
            r == self.tag_number(),
    {
        match self {
            SR2SubIFD::SonyGRBG => 0x7303,
            SR2SubIFD::SonyRGGB => 0x7313,
            SR2SubIFD::BlackLevel1 => 0x7300,
            SR2SubIFD::BlackLevel2 => 0x7310,
            SR2SubIFD::WhiteLevel => 0x787f,
        }
    }

    /// The tag with number `value`, if there is one.
    pub fn n(value: u16) -> (r: Option<SR2SubIFD>)
        ensures
            r == Self::tag_of(value),
    {
        match value {
            0x7303 => Some(SR2SubIFD::SonyGRBG),
            0x7313 => Some(SR2SubIFD::SonyRGGB),
            0x7300 => Some(SR2SubIFD::BlackLevel1),
            0x7310 => Some(SR2SubIFD::BlackLevel2),
            0x787f => Some(SR2SubIFD::WhiteLevel),
            _ => None,
        }
    }

    /// A tag is found again from its number, and a number names only
    /// the tag that has it.
    pub proof fn lemma_tag_roundtrip(self, value: u16)
        ensures
            Self::tag_of(self.tag_number()) == Some(self),
            Self::tag_of(value) matches Some(t) ==> t.tag_number() == value,
    {
    }
}

impl From<SR2SubIFD> for u16 {
    fn from(tag: SR2SubIFD) -> (r: u16) {
        tag.value()
    }
}

impl vstd::std_specs::convert::FromSpecImpl<SR2SubIFD> for u16 {
    open spec fn obeys_from_spec() -> bool {
        true
    }

    open spec fn from_spec(tag: SR2SubIFD) -> u16 {
        tag.tag_number()
    }
}


} // verus!
