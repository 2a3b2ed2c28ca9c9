//! The static Huffman code of HPACK (RFC 7541, appendix B) and the facts about it
//! that make it decodable.
use vstd::prelude::*;
use vstd::arithmetic::power2::*;
use vstd::arithmetic::div_mod::*;
use vstd::string::StrSliceExecFns;
use crate::http::qpack::{Error, spliced};

verus! {

/// The number of symbols of the code: the 256 octet values and the end-of-string symbol.
pub const SYMBOLS: u16 = 257;

/// The end-of-string symbol.
pub const EOS: u16 = 256;

/// The code of symbol `s`, right-aligned.
pub open spec fn huffman_code(s: u16) -> u32 {
    match s {
        0 => 0x00001ff8,
        1 => 0x007fffd8,
        2 => 0x0fffffe2,
        3 => 0x0fffffe3,
        4 => 0x0fffffe4,
        5 => 0x0fffffe5,
        6 => 0x0fffffe6,
        7 => 0x0fffffe7,
        8 => 0x0fffffe8,
        9 => 0x00ffffea,
        10 => 0x3ffffffc,
        11 => 0x0fffffe9,
        12 => 0x0fffffea,
        13 => 0x3ffffffd,
        14 => 0x0fffffeb,
        15 => 0x0fffffec,
        16 => 0x0fffffed,
        17 => 0x0fffffee,
        18 => 0x0fffffef,
        19 => 0x0ffffff0,
        20 => 0x0ffffff1,
        21 => 0x0ffffff2,
        22 => 0x3ffffffe,
        23 => 0x0ffffff3,
        24 => 0x0ffffff4,
        25 => 0x0ffffff5,
        26 => 0x0ffffff6,
        27 => 0x0ffffff7,
        28 => 0x0ffffff8,
        29 => 0x0ffffff9,
        30 => 0x0ffffffa,
        31 => 0x0ffffffb,
        32 => 0x00000014,
        33 => 0x000003f8,
        34 => 0x000003f9,
        35 => 0x00000ffa,
        36 => 0x00001ff9,
        37 => 0x00000015,
        38 => 0x000000f8,
        39 => 0x000007fa,
        40 => 0x000003fa,
        41 => 0x000003fb,
        42 => 0x000000f9,
        43 => 0x000007fb,
        44 => 0x000000fa,
        45 => 0x00000016,
        46 => 0x00000017,
        47 => 0x00000018,
        48 => 0x00000000,
        49 => 0x00000001,
        50 => 0x00000002,
        51 => 0x00000019,
        52 => 0x0000001a,
        53 => 0x0000001b,
        54 => 0x0000001c,
        55 => 0x0000001d,
        56 => 0x0000001e,
        57 => 0x0000001f,
        58 => 0x0000005c,
        59 => 0x000000fb,
        60 => 0x00007ffc,
        61 => 0x00000020,
        62 => 0x00000ffb,
        63 => 0x000003fc,
        64 => 0x00001ffa,
        65 => 0x00000021,
        66 => 0x0000005d,
        67 => 0x0000005e,
        68 => 0x0000005f,
        69 => 0x00000060,
        70 => 0x00000061,
        71 => 0x00000062,
        72 => 0x00000063,
        73 => 0x00000064,
        74 => 0x00000065,
        75 => 0x00000066,
        76 => 0x00000067,
        77 => 0x00000068,
        78 => 0x00000069,
        79 => 0x0000006a,
        80 => 0x0000006b,
        81 => 0x0000006c,
        82 => 0x0000006d,
        83 => 0x0000006e,
        84 => 0x0000006f,
        85 => 0x00000070,
        86 => 0x00000071,
        87 => 0x00000072,
        88 => 0x000000fc,
        89 => 0x00000073,
        90 => 0x000000fd,
        91 => 0x00001ffb,
        92 => 0x0007fff0,
        93 => 0x00001ffc,
        94 => 0x00003ffc,
        95 => 0x00000022,
        96 => 0x00007ffd,
        97 => 0x00000003,
        98 => 0x00000023,
        99 => 0x00000004,
        100 => 0x00000024,
        101 => 0x00000005,
        102 => 0x00000025,
        103 => 0x00000026,
        104 => 0x00000027,
        105 => 0x00000006,
        106 => 0x00000074,
        107 => 0x00000075,
        108 => 0x00000028,
        109 => 0x00000029,
        110 => 0x0000002a,
        111 => 0x00000007,
        112 => 0x0000002b,
        113 => 0x00000076,
        114 => 0x0000002c,
        115 => 0x00000008,
        116 => 0x00000009,
        117 => 0x0000002d,
        118 => 0x00000077,
        119 => 0x00000078,
        120 => 0x00000079,
        121 => 0x0000007a,
        122 => 0x0000007b,
        123 => 0x00007ffe,
        124 => 0x000007fc,
        125 => 0x00003ffd,
        126 => 0x00001ffd,
        127 => 0x0ffffffc,
        128 => 0x000fffe6,
        129 => 0x003fffd2,
        130 => 0x000fffe7,
        131 => 0x000fffe8,
        132 => 0x003fffd3,
        133 => 0x003fffd4,
        134 => 0x003fffd5,
        135 => 0x007fffd9,
        136 => 0x003fffd6,
        137 => 0x007fffda,
        138 => 0x007fffdb,
        139 => 0x007fffdc,
        140 => 0x007fffdd,
        141 => 0x007fffde,
        142 => 0x00ffffeb,
        143 => 0x007fffdf,
        144 => 0x00ffffec,
        145 => 0x00ffffed,
        146 => 0x003fffd7,
        147 => 0x007fffe0,
        148 => 0x00ffffee,
        149 => 0x007fffe1,
        150 => 0x007fffe2,
        151 => 0x007fffe3,
        152 => 0x007fffe4,
        153 => 0x001fffdc,
        154 => 0x003fffd8,
        155 => 0x007fffe5,
        156 => 0x003fffd9,
        157 => 0x007fffe6,
        158 => 0x007fffe7,
        159 => 0x00ffffef,
        160 => 0x003fffda,
        161 => 0x001fffdd,
        162 => 0x000fffe9,
        163 => 0x003fffdb,
        164 => 0x003fffdc,
        165 => 0x007fffe8,
        166 => 0x007fffe9,
        167 => 0x001fffde,
        168 => 0x007fffea,
        169 => 0x003fffdd,
        170 => 0x003fffde,
        171 => 0x00fffff0,
        172 => 0x001fffdf,
        173 => 0x003fffdf,
        174 => 0x007fffeb,
        175 => 0x007fffec,
        176 => 0x001fffe0,
        177 => 0x001fffe1,
        178 => 0x003fffe0,
        179 => 0x001fffe2,
        180 => 0x007fffed,
        181 => 0x003fffe1,
        182 => 0x007fffee,
        183 => 0x007fffef,
        184 => 0x000fffea,
        185 => 0x003fffe2,
        186 => 0x003fffe3,
        187 => 0x003fffe4,
        188 => 0x007ffff0,
        189 => 0x003fffe5,
        190 => 0x003fffe6,
        191 => 0x007ffff1,
        192 => 0x03ffffe0,
        193 => 0x03ffffe1,
        194 => 0x000fffeb,
        195 => 0x0007fff1,
        196 => 0x003fffe7,
        197 => 0x007ffff2,
        198 => 0x003fffe8,
        199 => 0x01ffffec,
        200 => 0x03ffffe2,
        201 => 0x03ffffe3,
        202 => 0x03ffffe4,
        203 => 0x07ffffde,
        204 => 0x07ffffdf,
        205 => 0x03ffffe5,
        206 => 0x00fffff1,
        207 => 0x01ffffed,
        208 => 0x0007fff2,
        209 => 0x001fffe3,
        210 => 0x03ffffe6,
        211 => 0x07ffffe0,
        212 => 0x07ffffe1,
        213 => 0x03ffffe7,
        214 => 0x07ffffe2,
        215 => 0x00fffff2,
        216 => 0x001fffe4,
        217 => 0x001fffe5,
        218 => 0x03ffffe8,
        219 => 0x03ffffe9,
        220 => 0x0ffffffd,
        221 => 0x07ffffe3,
        222 => 0x07ffffe4,
        223 => 0x07ffffe5,
        224 => 0x000fffec,
        225 => 0x00fffff3,
        226 => 0x000fffed,
        227 => 0x001fffe6,
        228 => 0x003fffe9,
        229 => 0x001fffe7,
        230 => 0x001fffe8,
        231 => 0x007ffff3,
        232 => 0x003fffea,
        233 => 0x003fffeb,
        234 => 0x01ffffee,
        235 => 0x01ffffef,
        236 => 0x00fffff4,
        237 => 0x00fffff5,
        238 => 0x03ffffea,
        239 => 0x007ffff4,
        240 => 0x03ffffeb,
        241 => 0x07ffffe6,
        242 => 0x03ffffec,
        243 => 0x03ffffed,
        244 => 0x07ffffe7,
        245 => 0x07ffffe8,
        246 => 0x07ffffe9,
        247 => 0x07ffffea,
        248 => 0x07ffffeb,
        249 => 0x0ffffffe,
        250 => 0x07ffffec,
        251 => 0x07ffffed,
        252 => 0x07ffffee,
        253 => 0x07ffffef,
        254 => 0x07fffff0,
        255 => 0x03ffffee,
        256 => 0x3fffffff,
        _ => 0,
    }
}

/// The length in bits of the code of symbol `s`.
pub open spec fn huffman_len(s: u16) -> u32 {
    match s {
        0 => 13,
        1 => 23,
        2 => 28,
        3 => 28,
        4 => 28,
        5 => 28,
        6 => 28,
        7 => 28,
        8 => 28,
        9 => 24,
        10 => 30,
        11 => 28,
        12 => 28,
        13 => 30,
        14 => 28,
        15 => 28,
        16 => 28,
        17 => 28,
        18 => 28,
        19 => 28,
        20 => 28,
        21 => 28,
        22 => 30,
        23 => 28,
        24 => 28,
        25 => 28,
        26 => 28,
        27 => 28,
        28 => 28,
        29 => 28,
        30 => 28,
        31 => 28,
        32 => 6,
        33 => 10,
        34 => 10,
        35 => 12,
        36 => 13,
        37 => 6,
        38 => 8,
        39 => 11,
        40 => 10,
        41 => 10,
        42 => 8,
        43 => 11,
        44 => 8,
        45 => 6,
        46 => 6,
        47 => 6,
        48 => 5,
        49 => 5,
        50 => 5,
        51 => 6,
        52 => 6,
        53 => 6,
        54 => 6,
        55 => 6,
        56 => 6,
        57 => 6,
        58 => 7,
        59 => 8,
        60 => 15,
        61 => 6,
        62 => 12,
        63 => 10,
        64 => 13,
        65 => 6,
        66 => 7,
        67 => 7,
        68 => 7,
        69 => 7,
        70 => 7,
        71 => 7,
        72 => 7,
        73 => 7,
        74 => 7,
        75 => 7,
        76 => 7,
        77 => 7,
        78 => 7,
        79 => 7,
        80 => 7,
        81 => 7,
        82 => 7,
        83 => 7,
        84 => 7,
        85 => 7,
        86 => 7,
        87 => 7,
        88 => 8,
        89 => 7,
        90 => 8,
        91 => 13,
        92 => 19,
        93 => 13,
        94 => 14,
        95 => 6,
        96 => 15,
        97 => 5,
        98 => 6,
        99 => 5,
        100 => 6,
        101 => 5,
        102 => 6,
        103 => 6,
        104 => 6,
        105 => 5,
        106 => 7,
        107 => 7,
        108 => 6,
        109 => 6,
        110 => 6,
        111 => 5,
        112 => 6,
        113 => 7,
        114 => 6,
        115 => 5,
        116 => 5,
        117 => 6,
        118 => 7,
        119 => 7,
        120 => 7,
        121 => 7,
        122 => 7,
        123 => 15,
        124 => 11,
        125 => 14,
        126 => 13,
        127 => 28,
        128 => 20,
        129 => 22,
        130 => 20,
        131 => 20,
        132 => 22,
        133 => 22,
        134 => 22,
        135 => 23,
        136 => 22,
        137 => 23,
        138 => 23,
        139 => 23,
        140 => 23,
        141 => 23,
        142 => 24,
        143 => 23,
        144 => 24,
        145 => 24,
        146 => 22,
        147 => 23,
        148 => 24,
        149 => 23,
        150 => 23,
        151 => 23,
        152 => 23,
        153 => 21,
        154 => 22,
        155 => 23,
        156 => 22,
        157 => 23,
        158 => 23,
        159 => 24,
        160 => 22,
        161 => 21,
        162 => 20,
        163 => 22,
        164 => 22,
        165 => 23,
        166 => 23,
        167 => 21,
        168 => 23,
        169 => 22,
        170 => 22,
        171 => 24,
        172 => 21,
        173 => 22,
        174 => 23,
        175 => 23,
        176 => 21,
        177 => 21,
        178 => 22,
        179 => 21,
        180 => 23,
        181 => 22,
        182 => 23,
        183 => 23,
        184 => 20,
        185 => 22,
        186 => 22,
        187 => 22,
        188 => 23,
        189 => 22,
        190 => 22,
        191 => 23,
        192 => 26,
        193 => 26,
        194 => 20,
        195 => 19,
        196 => 22,
        197 => 23,
        198 => 22,
        199 => 25,
        200 => 26,
        201 => 26,
        202 => 26,
        203 => 27,
        204 => 27,
        205 => 26,
        206 => 24,
        207 => 25,
        208 => 19,
        209 => 21,
        210 => 26,
        211 => 27,
        212 => 27,
        213 => 26,
        214 => 27,
        215 => 24,
        216 => 21,
        217 => 21,
        218 => 26,
        219 => 26,
        220 => 28,
        221 => 27,
        222 => 27,
        223 => 27,
        224 => 20,
        225 => 24,
        226 => 20,
        227 => 21,
        228 => 22,
        229 => 21,
        230 => 21,
        231 => 23,
        232 => 22,
        233 => 22,
        234 => 25,
        235 => 25,
        236 => 24,
        237 => 24,
        238 => 26,
        239 => 23,
        240 => 26,
        241 => 27,
        242 => 26,
        243 => 26,
        244 => 27,
        245 => 27,
        246 => 27,
        247 => 27,
        248 => 27,
        249 => 28,
        250 => 27,
        251 => 27,
        252 => 27,
        253 => 27,
        254 => 27,
        255 => 26,
        256 => 30,
        _ => 0,
    }
}

/// The code and its length of symbol `s`.
pub fn huffman_entry(s: u16) -> (r: (u32, u32))
    requires
        s < SYMBOLS,
    ensures
        r.0 == huffman_code(s),
        r.1 == huffman_len(s),
{
    match s {
        0 => (0x00001ff8, 13),
        1 => (0x007fffd8, 23),
        2 => (0x0fffffe2, 28),
        3 => (0x0fffffe3, 28),
        4 => (0x0fffffe4, 28),
        5 => (0x0fffffe5, 28),
        6 => (0x0fffffe6, 28),
        7 => (0x0fffffe7, 28),
        8 => (0x0fffffe8, 28),
        9 => (0x00ffffea, 24),
        10 => (0x3ffffffc, 30),
        11 => (0x0fffffe9, 28),
        12 => (0x0fffffea, 28),
        13 => (0x3ffffffd, 30),
        14 => (0x0fffffeb, 28),
        15 => (0x0fffffec, 28),
        16 => (0x0fffffed, 28),
        17 => (0x0fffffee, 28),
        18 => (0x0fffffef, 28),
        19 => (0x0ffffff0, 28),
        20 => (0x0ffffff1, 28),
        21 => (0x0ffffff2, 28),
        22 => (0x3ffffffe, 30),
        23 => (0x0ffffff3, 28),
        24 => (0x0ffffff4, 28),
        25 => (0x0ffffff5, 28),
        26 => (0x0ffffff6, 28),
        27 => (0x0ffffff7, 28),
        28 => (0x0ffffff8, 28),
        29 => (0x0ffffff9, 28),
        30 => (0x0ffffffa, 28),
        31 => (0x0ffffffb, 28),
        32 => (0x00000014, 6),
        33 => (0x000003f8, 10),
        34 => (0x000003f9, 10),
        35 => (0x00000ffa, 12),
        36 => (0x00001ff9, 13),
        37 => (0x00000015, 6),
        38 => (0x000000f8, 8),
        39 => (0x000007fa, 11),
        40 => (0x000003fa, 10),
        41 => (0x000003fb, 10),
        42 => (0x000000f9, 8),
        43 => (0x000007fb, 11),
        44 => (0x000000fa, 8),
        45 => (0x00000016, 6),
        46 => (0x00000017, 6),
        47 => (0x00000018, 6),
        48 => (0x00000000, 5),
        49 => (0x00000001, 5),
        50 => (0x00000002, 5),
        51 => (0x00000019, 6),
        52 => (0x0000001a, 6),
        53 => (0x0000001b, 6),
        54 => (0x0000001c, 6),
        55 => (0x0000001d, 6),
        56 => (0x0000001e, 6),
        57 => (0x0000001f, 6),
        58 => (0x0000005c, 7),
        59 => (0x000000fb, 8),
        60 => (0x00007ffc, 15),
        61 => (0x00000020, 6),
        62 => (0x00000ffb, 12),
        63 => (0x000003fc, 10),
        64 => (0x00001ffa, 13),
        65 => (0x00000021, 6),
        66 => (0x0000005d, 7),
        67 => (0x0000005e, 7),
        68 => (0x0000005f, 7),
        69 => (0x00000060, 7),
        70 => (0x00000061, 7),
        71 => (0x00000062, 7),
        72 => (0x00000063, 7),
        73 => (0x00000064, 7),
        74 => (0x00000065, 7),
        75 => (0x00000066, 7),
        76 => (0x00000067, 7),
        77 => (0x00000068, 7),
        78 => (0x00000069, 7),
        79 => (0x0000006a, 7),
        80 => (0x0000006b, 7),
        81 => (0x0000006c, 7),
        82 => (0x0000006d, 7),
        83 => (0x0000006e, 7),
        84 => (0x0000006f, 7),
        85 => (0x00000070, 7),
        86 => (0x00000071, 7),
        87 => (0x00000072, 7),
        88 => (0x000000fc, 8),
        89 => (0x00000073, 7),
        90 => (0x000000fd, 8),
        91 => (0x00001ffb, 13),
        92 => (0x0007fff0, 19),
        93 => (0x00001ffc, 13),
        94 => (0x00003ffc, 14),
        95 => (0x00000022, 6),
        96 => (0x00007ffd, 15),
        97 => (0x00000003, 5),
        98 => (0x00000023, 6),
        99 => (0x00000004, 5),
        100 => (0x00000024, 6),
        101 => (0x00000005, 5),
        102 => (0x00000025, 6),
        103 => (0x00000026, 6),
        104 => (0x00000027, 6),
        105 => (0x00000006, 5),
        106 => (0x00000074, 7),
        107 => (0x00000075, 7),
        108 => (0x00000028, 6),
        109 => (0x00000029, 6),
        110 => (0x0000002a, 6),
        111 => (0x00000007, 5),
        112 => (0x0000002b, 6),
        113 => (0x00000076, 7),
        114 => (0x0000002c, 6),
        115 => (0x00000008, 5),
        116 => (0x00000009, 5),
        117 => (0x0000002d, 6),
        118 => (0x00000077, 7),
        119 => (0x00000078, 7),
        120 => (0x00000079, 7),
        121 => (0x0000007a, 7),
        122 => (0x0000007b, 7),
        123 => (0x00007ffe, 15),
        124 => (0x000007fc, 11),
        125 => (0x00003ffd, 14),
        126 => (0x00001ffd, 13),
        127 => (0x0ffffffc, 28),
        128 => (0x000fffe6, 20),
        129 => (0x003fffd2, 22),
        130 => (0x000fffe7, 20),
        131 => (0x000fffe8, 20),
        132 => (0x003fffd3, 22),
        133 => (0x003fffd4, 22),
        134 => (0x003fffd5, 22),
        135 => (0x007fffd9, 23),
        136 => (0x003fffd6, 22),
        137 => (0x007fffda, 23),
        138 => (0x007fffdb, 23),
        139 => (0x007fffdc, 23),
        140 => (0x007fffdd, 23),
        141 => (0x007fffde, 23),
        142 => (0x00ffffeb, 24),
        143 => (0x007fffdf, 23),
        144 => (0x00ffffec, 24),
        145 => (0x00ffffed, 24),
        146 => (0x003fffd7, 22),
        147 => (0x007fffe0, 23),
        148 => (0x00ffffee, 24),
        149 => (0x007fffe1, 23),
        150 => (0x007fffe2, 23),
        151 => (0x007fffe3, 23),
        152 => (0x007fffe4, 23),
        153 => (0x001fffdc, 21),
        154 => (0x003fffd8, 22),
        155 => (0x007fffe5, 23),
        156 => (0x003fffd9, 22),
        157 => (0x007fffe6, 23),
        158 => (0x007fffe7, 23),
        159 => (0x00ffffef, 24),
        160 => (0x003fffda, 22),
        161 => (0x001fffdd, 21),
        162 => (0x000fffe9, 20),
        163 => (0x003fffdb, 22),
        164 => (0x003fffdc, 22),
        165 => (0x007fffe8, 23),
        166 => (0x007fffe9, 23),
        167 => (0x001fffde, 21),
        168 => (0x007fffea, 23),
        169 => (0x003fffdd, 22),
        170 => (0x003fffde, 22),
        171 => (0x00fffff0, 24),
        172 => (0x001fffdf, 21),
        173 => (0x003fffdf, 22),
        174 => (0x007fffeb, 23),
        175 => (0x007fffec, 23),
        176 => (0x001fffe0, 21),
        177 => (0x001fffe1, 21),
        178 => (0x003fffe0, 22),
        179 => (0x001fffe2, 21),
        180 => (0x007fffed, 23),
        181 => (0x003fffe1, 22),
        182 => (0x007fffee, 23),
        183 => (0x007fffef, 23),
        184 => (0x000fffea, 20),
        185 => (0x003fffe2, 22),
        186 => (0x003fffe3, 22),
        187 => (0x003fffe4, 22),
        188 => (0x007ffff0, 23),
        189 => (0x003fffe5, 22),
        190 => (0x003fffe6, 22),
        191 => (0x007ffff1, 23),
        192 => (0x03ffffe0, 26),
        193 => (0x03ffffe1, 26),
        194 => (0x000fffeb, 20),
        195 => (0x0007fff1, 19),
        196 => (0x003fffe7, 22),
        197 => (0x007ffff2, 23),
        198 => (0x003fffe8, 22),
        199 => (0x01ffffec, 25),
        200 => (0x03ffffe2, 26),
        201 => (0x03ffffe3, 26),
        202 => (0x03ffffe4, 26),
        203 => (0x07ffffde, 27),
        204 => (0x07ffffdf, 27),
        205 => (0x03ffffe5, 26),
        206 => (0x00fffff1, 24),
        207 => (0x01ffffed, 25),
        208 => (0x0007fff2, 19),
        209 => (0x001fffe3, 21),
        210 => (0x03ffffe6, 26),
        211 => (0x07ffffe0, 27),
        212 => (0x07ffffe1, 27),
        213 => (0x03ffffe7, 26),
        214 => (0x07ffffe2, 27),
        215 => (0x00fffff2, 24),
        216 => (0x001fffe4, 21),
        217 => (0x001fffe5, 21),
        218 => (0x03ffffe8, 26),
        219 => (0x03ffffe9, 26),
        220 => (0x0ffffffd, 28),
        221 => (0x07ffffe3, 27),
        222 => (0x07ffffe4, 27),
        223 => (0x07ffffe5, 27),
        224 => (0x000fffec, 20),
        225 => (0x00fffff3, 24),
        226 => (0x000fffed, 20),
        227 => (0x001fffe6, 21),
        228 => (0x003fffe9, 22),
        229 => (0x001fffe7, 21),
        230 => (0x001fffe8, 21),
        231 => (0x007ffff3, 23),
        232 => (0x003fffea, 22),
        233 => (0x003fffeb, 22),
        234 => (0x01ffffee, 25),
        235 => (0x01ffffef, 25),
        236 => (0x00fffff4, 24),
        237 => (0x00fffff5, 24),
        238 => (0x03ffffea, 26),
        239 => (0x007ffff4, 23),
        240 => (0x03ffffeb, 26),
        241 => (0x07ffffe6, 27),
        242 => (0x03ffffec, 26),
        243 => (0x03ffffed, 26),
        244 => (0x07ffffe7, 27),
        245 => (0x07ffffe8, 27),
        246 => (0x07ffffe9, 27),
        247 => (0x07ffffea, 27),
        248 => (0x07ffffeb, 27),
        249 => (0x0ffffffe, 28),
        250 => (0x07ffffec, 27),
        251 => (0x07ffffed, 27),
        252 => (0x07ffffee, 27),
        253 => (0x07ffffef, 27),
        254 => (0x07fffff0, 27),
        255 => (0x03ffffee, 26),
        256 => (0x3fffffff, 30),
        _ => (0x3fffffff, 30),
    }
}

/// The number of codes of length `l`.
pub open spec fn codes_of_len(l: u32) -> nat {
    match l {
        5 => 10,
        6 => 26,
        7 => 32,
        8 => 6,
        10 => 5,
        11 => 3,
        12 => 2,
        13 => 6,
        14 => 2,
        15 => 3,
        19 => 3,
        20 => 8,
        21 => 13,
        22 => 26,
        23 => 29,
        24 => 12,
        25 => 4,
        26 => 15,
        27 => 19,
        28 => 29,
        30 => 4,
        _ => 0,
    }
}

/// The smallest code of length `l` of the canonical code: codes of one length are consecutive
/// and start at twice the code that follows the last code of the previous length.
pub open spec fn first_code(l: u32) -> nat {
    match l {
        1 => 0x0,
        2 => 0x0,
        3 => 0x0,
        4 => 0x0,
        5 => 0x0,
        6 => 0x14,
        7 => 0x5c,
        8 => 0xf8,
        9 => 0x1fc,
        10 => 0x3f8,
        11 => 0x7fa,
        12 => 0xffa,
        13 => 0x1ff8,
        14 => 0x3ffc,
        15 => 0x7ffc,
        16 => 0xfffe,
        17 => 0x1fffc,
        18 => 0x3fff8,
        19 => 0x7fff0,
        20 => 0xfffe6,
        21 => 0x1fffdc,
        22 => 0x3fffd2,
        23 => 0x7fffd8,
        24 => 0xffffea,
        25 => 0x1ffffec,
        26 => 0x3ffffe0,
        27 => 0x7ffffde,
        28 => 0xfffffe2,
        29 => 0x1ffffffe,
        30 => 0x3ffffffc,
        _ => 0,
    }
}

/// The symbol whose code has length `l` and value `c`.
pub open spec fn symbol_of(l: u32, c: u32) -> int {
    match l {
        5 => match c {
            0x0 => 48,
            0x1 => 49,
            0x2 => 50,
            0x3 => 97,
            0x4 => 99,
            0x5 => 101,
            0x6 => 105,
            0x7 => 111,
            0x8 => 115,
            0x9 => 116,
            _ => -1,
        },
        6 => match c {
            0x14 => 32,
            0x15 => 37,
            0x16 => 45,
            0x17 => 46,
            0x18 => 47,
            0x19 => 51,
            0x1a => 52,
            0x1b => 53,
            0x1c => 54,
            0x1d => 55,
            0x1e => 56,
            0x1f => 57,
            0x20 => 61,
            0x21 => 65,
            0x22 => 95,
            0x23 => 98,
            0x24 => 100,
            0x25 => 102,
            0x26 => 103,
            0x27 => 104,
            0x28 => 108,
            0x29 => 109,
            0x2a => 110,
            0x2b => 112,
            0x2c => 114,
            0x2d => 117,
            _ => -1,
        },
        7 => match c {
            0x5c => 58,
            0x5d => 66,
            0x5e => 67,
            0x5f => 68,
            0x60 => 69,
            0x61 => 70,
            0x62 => 71,
            0x63 => 72,
            0x64 => 73,
            0x65 => 74,
            0x66 => 75,
            0x67 => 76,
            0x68 => 77,
            0x69 => 78,
            0x6a => 79,
            0x6b => 80,
            0x6c => 81,
            0x6d => 82,
            0x6e => 83,
            0x6f => 84,
            0x70 => 85,
            0x71 => 86,
            0x72 => 87,
            0x73 => 89,
            0x74 => 106,
            0x75 => 107,
            0x76 => 113,
            0x77 => 118,
            0x78 => 119,
            0x79 => 120,
            0x7a => 121,
            0x7b => 122,
            _ => -1,
        },
        8 => match c {
            0xf8 => 38,
            0xf9 => 42,
            0xfa => 44,
            0xfb => 59,
            0xfc => 88,
            0xfd => 90,
            _ => -1,
        },
        10 => match c {
            0x3f8 => 33,
            0x3f9 => 34,
            0x3fa => 40,
            0x3fb => 41,
            0x3fc => 63,
            _ => -1,
        },
        11 => match c {
            0x7fa => 39,
            0x7fb => 43,
            0x7fc => 124,
            _ => -1,
        },
        12 => match c {
            0xffa => 35,
            0xffb => 62,
            _ => -1,
        },
        13 => match c {
            0x1ff8 => 0,
            0x1ff9 => 36,
            0x1ffa => 64,
            0x1ffb => 91,
            0x1ffc => 93,
            0x1ffd => 126,
            _ => -1,
        },
        14 => match c {
            0x3ffc => 94,
            0x3ffd => 125,
            _ => -1,
        },
        15 => match c {
            0x7ffc => 60,
            0x7ffd => 96,
            0x7ffe => 123,
            _ => -1,
        },
        19 => match c {
            0x7fff0 => 92,
            0x7fff1 => 195,
            0x7fff2 => 208,
            _ => -1,
        },
        20 => match c {
            0xfffe6 => 128,
            0xfffe7 => 130,
            0xfffe8 => 131,
            0xfffe9 => 162,
            0xfffea => 184,
            0xfffeb => 194,
            0xfffec => 224,
            0xfffed => 226,
            _ => -1,
        },
        21 => match c {
            0x1fffdc => 153,
            0x1fffdd => 161,
            0x1fffde => 167,
            0x1fffdf => 172,
            0x1fffe0 => 176,
            0x1fffe1 => 177,
            0x1fffe2 => 179,
            0x1fffe3 => 209,
            0x1fffe4 => 216,
            0x1fffe5 => 217,
            0x1fffe6 => 227,
            0x1fffe7 => 229,
            0x1fffe8 => 230,
            _ => -1,
        },
        22 => match c {
            0x3fffd2 => 129,
            0x3fffd3 => 132,
            0x3fffd4 => 133,
            0x3fffd5 => 134,
            0x3fffd6 => 136,
            0x3fffd7 => 146,
            0x3fffd8 => 154,
            0x3fffd9 => 156,
            0x3fffda => 160,
            0x3fffdb => 163,
            0x3fffdc => 164,
            0x3fffdd => 169,
            0x3fffde => 170,
            0x3fffdf => 173,
            0x3fffe0 => 178,
            0x3fffe1 => 181,
            0x3fffe2 => 185,
            0x3fffe3 => 186,
            0x3fffe4 => 187,
            0x3fffe5 => 189,
            0x3fffe6 => 190,
            0x3fffe7 => 196,
            0x3fffe8 => 198,
            0x3fffe9 => 228,
            0x3fffea => 232,
            0x3fffeb => 233,
            _ => -1,
        },
        23 => match c {
            0x7fffd8 => 1,
            0x7fffd9 => 135,
            0x7fffda => 137,
            0x7fffdb => 138,
            0x7fffdc => 139,
            0x7fffdd => 140,
            0x7fffde => 141,
            0x7fffdf => 143,
            0x7fffe0 => 147,
            0x7fffe1 => 149,
            0x7fffe2 => 150,
            0x7fffe3 => 151,
            0x7fffe4 => 152,
            0x7fffe5 => 155,
            0x7fffe6 => 157,
            0x7fffe7 => 158,
            0x7fffe8 => 165,
            0x7fffe9 => 166,
            0x7fffea => 168,
            0x7fffeb => 174,
            0x7fffec => 175,
            0x7fffed => 180,
            0x7fffee => 182,
            0x7fffef => 183,
            0x7ffff0 => 188,
            0x7ffff1 => 191,
            0x7ffff2 => 197,
            0x7ffff3 => 231,
            0x7ffff4 => 239,
            _ => -1,
        },
        24 => match c {
            0xffffea => 9,
            0xffffeb => 142,
            0xffffec => 144,
            0xffffed => 145,
            0xffffee => 148,
            0xffffef => 159,
            0xfffff0 => 171,
            0xfffff1 => 206,
            0xfffff2 => 215,
            0xfffff3 => 225,
            0xfffff4 => 236,
            0xfffff5 => 237,
            _ => -1,
        },
        25 => match c {
            0x1ffffec => 199,
            0x1ffffed => 207,
            0x1ffffee => 234,
            0x1ffffef => 235,
            _ => -1,
        },
        26 => match c {
            0x3ffffe0 => 192,
            0x3ffffe1 => 193,
            0x3ffffe2 => 200,
            0x3ffffe3 => 201,
            0x3ffffe4 => 202,
            0x3ffffe5 => 205,
            0x3ffffe6 => 210,
            0x3ffffe7 => 213,
            0x3ffffe8 => 218,
            0x3ffffe9 => 219,
            0x3ffffea => 238,
            0x3ffffeb => 240,
            0x3ffffec => 242,
            0x3ffffed => 243,
            0x3ffffee => 255,
            _ => -1,
        },
        27 => match c {
            0x7ffffde => 203,
            0x7ffffdf => 204,
            0x7ffffe0 => 211,
            0x7ffffe1 => 212,
            0x7ffffe2 => 214,
            0x7ffffe3 => 221,
            0x7ffffe4 => 222,
            0x7ffffe5 => 223,
            0x7ffffe6 => 241,
            0x7ffffe7 => 244,
            0x7ffffe8 => 245,
            0x7ffffe9 => 246,
            0x7ffffea => 247,
            0x7ffffeb => 248,
            0x7ffffec => 250,
            0x7ffffed => 251,
            0x7ffffee => 252,
            0x7ffffef => 253,
            0x7fffff0 => 254,
            _ => -1,
        },
        28 => match c {
            0xfffffe2 => 2,
            0xfffffe3 => 3,
            0xfffffe4 => 4,
            0xfffffe5 => 5,
            0xfffffe6 => 6,
            0xfffffe7 => 7,
            0xfffffe8 => 8,
            0xfffffe9 => 11,
            0xfffffea => 12,
            0xfffffeb => 14,
            0xfffffec => 15,
            0xfffffed => 16,
            0xfffffee => 17,
            0xfffffef => 18,
            0xffffff0 => 19,
            0xffffff1 => 20,
            0xffffff2 => 21,
            0xffffff3 => 23,
            0xffffff4 => 24,
            0xffffff5 => 25,
            0xffffff6 => 26,
            0xffffff7 => 27,
            0xffffff8 => 28,
            0xffffff9 => 29,
            0xffffffa => 30,
            0xffffffb => 31,
            0xffffffc => 127,
            0xffffffd => 220,
            0xffffffe => 249,
            _ => -1,
        },
        30 => match c {
            0x3ffffffc => 10,
            0x3ffffffd => 13,
            0x3ffffffe => 22,
            0x3fffffff => 256,
            _ => -1,
        },
        _ => -1,
    }
}
/// What the table says of the code of one symbol: its length is between 5 and 30 bits, the code
/// lies in the block of codes of that length, and it is the code of no other symbol.
pub open spec fn symbol_code_facts(s: u16) -> bool {
    let l = huffman_len(s);
    let c = huffman_code(s);
    &&& 5 <= l <= 30
    &&& first_code(l) <= c < first_code(l) + codes_of_len(l)
    &&& symbol_of(l, c) == s as int
}

pub proof fn lemma_symbol_code_facts(s: u16)
    requires
        s < SYMBOLS,
    ensures
        symbol_code_facts(s),
{
}

/// The blocks of codes of consecutive lengths follow each other as in a canonical code.
pub proof fn lemma_length_facts(l: u32)
    requires
        5 <= l <= 30,
    ensures
        first_code(l) + codes_of_len(l) <= pow2(l as nat),
        l < 30 ==> first_code((l + 1) as u32) == 2 * (first_code(l) + codes_of_len(l)),
        l <= 7 ==> first_code(l) + codes_of_len(l) < pow2(l as nat),
{
    lemma2_to64();
}

proof fn lemma_first_code_grows(a: u32, b: u32)
    requires
        5 <= a < b <= 30,
    ensures
        first_code(b) >= (first_code(a) + codes_of_len(a)) * pow2((b - a) as nat),
    decreases b - a,
{
    let x = first_code(a) + codes_of_len(a);
    lemma_length_facts(a);
    lemma_length_facts((b - 1) as u32);
    let d = (b - a) as nat;
    lemma_pow2_unfold(d);
    assert(first_code(b) == 2 * (first_code((b - 1) as u32) + codes_of_len((b - 1) as u32)));
    if b == a + 1 {
        lemma2_to64();
        assert(d == 1);
        assert(pow2(d) == 2);
        assert(x * pow2(d) == 2 * x) by (nonlinear_arith)
            requires pow2(d) == 2;
    } else {
        lemma_first_code_grows(a, (b - 1) as u32);
        let p = pow2((d - 1) as nat);
        assert(((b - 1) as u32 - a) as nat == (d - 1) as nat);
        assert(first_code((b - 1) as u32) >= x * p);
        assert(pow2(d) == 2 * p);
        assert(x * pow2(d) == 2 * (x * p)) by (nonlinear_arith)
            requires pow2(d) == 2 * p;
    }
}

/// No code is a prefix of the code of another symbol: cutting the longer code down to the
/// length of the shorter one never gives the shorter code.
pub proof fn lemma_prefix_free(s: u16, t: u16)
    requires
        s < SYMBOLS,
        t < SYMBOLS,
        s != t,
        huffman_len(s) <= huffman_len(t),
    ensures
        huffman_code(t) as nat / pow2((huffman_len(t) - huffman_len(s)) as nat) != huffman_code(s) as nat,
{
    lemma_symbol_code_facts(s);
    lemma_symbol_code_facts(t);
    let a = huffman_len(s);
    let b = huffman_len(t);
    let d = (b - a) as nat;
    let ct = huffman_code(t) as nat;
    let cs = huffman_code(s) as nat;
    lemma_pow2_pos(d);
    if a == b {
        lemma2_to64();
        assert(d == 0);
        assert(pow2(d) == 1);
        assert(ct / pow2(d) == ct) by (nonlinear_arith)
            requires pow2(d) == 1;
        assert(ct != cs) by {
            if ct == cs {
                assert(symbol_of(a, huffman_code(s)) == symbol_of(b, huffman_code(t)));
            }
        }
    } else {
        lemma_first_code_grows(a, b);
        let x = first_code(a) + codes_of_len(a);
        let p = pow2(d);
        assert(ct >= x * p);
        lemma_div_is_ordered((x * p) as int, ct as int, p as int);
        lemma_div_by_multiple(x as int, p as int);
        assert(ct / p >= x);
        assert(cs < x);
    }
}

/// Within the block of codes of one length, a larger code stands for a larger symbol (the step
/// from each code to the next).
#[verifier::rlimit(100)]
#[verifier::spinoff_prover]
proof fn lemma_block_steps(l: u32)
    requires
        5 <= l <= 30,
    ensures
        forall|c: u32| first_code(l) <= c && c + 1 < first_code(l) + codes_of_len(l)
            ==> #[trigger] symbol_of(l, c) < symbol_of(l, (c + 1) as u32),
{
    if l == 5 {
        assert forall|c: u32| first_code(5u32) <= c && c + 1 < first_code(5u32) + codes_of_len(5u32)
            implies #[trigger] symbol_of(5u32, c) < symbol_of(5u32, (c + 1) as u32) by {}
    } else if l == 6 {
        assert forall|c: u32| first_code(6u32) <= c && c + 1 < first_code(6u32) + codes_of_len(6u32)
            implies #[trigger] symbol_of(6u32, c) < symbol_of(6u32, (c + 1) as u32) by {}
    } else if l == 7 {
        assert forall|c: u32| first_code(7u32) <= c && c + 1 < first_code(7u32) + codes_of_len(7u32)
            implies #[trigger] symbol_of(7u32, c) < symbol_of(7u32, (c + 1) as u32) by {}
    } else if l == 8 {
        assert forall|c: u32| first_code(8u32) <= c && c + 1 < first_code(8u32) + codes_of_len(8u32)
            implies #[trigger] symbol_of(8u32, c) < symbol_of(8u32, (c + 1) as u32) by {}
    } else if l == 10 {
        assert forall|c: u32| first_code(10u32) <= c && c + 1 < first_code(10u32) + codes_of_len(10u32)
            implies #[trigger] symbol_of(10u32, c) < symbol_of(10u32, (c + 1) as u32) by {}
    } else if l == 11 {
        assert forall|c: u32| first_code(11u32) <= c && c + 1 < first_code(11u32) + codes_of_len(11u32)
            implies #[trigger] symbol_of(11u32, c) < symbol_of(11u32, (c + 1) as u32) by {}
    } else if l == 12 {
        assert forall|c: u32| first_code(12u32) <= c && c + 1 < first_code(12u32) + codes_of_len(12u32)
            implies #[trigger] symbol_of(12u32, c) < symbol_of(12u32, (c + 1) as u32) by {}
    } else if l == 13 {
        assert forall|c: u32| first_code(13u32) <= c && c + 1 < first_code(13u32) + codes_of_len(13u32)
            implies #[trigger] symbol_of(13u32, c) < symbol_of(13u32, (c + 1) as u32) by {}
    } else if l == 14 {
        assert forall|c: u32| first_code(14u32) <= c && c + 1 < first_code(14u32) + codes_of_len(14u32)
            implies #[trigger] symbol_of(14u32, c) < symbol_of(14u32, (c + 1) as u32) by {}
    } else if l == 15 {
        assert forall|c: u32| first_code(15u32) <= c && c + 1 < first_code(15u32) + codes_of_len(15u32)
            implies #[trigger] symbol_of(15u32, c) < symbol_of(15u32, (c + 1) as u32) by {}
    } else if l == 19 {
        assert forall|c: u32| first_code(19u32) <= c && c + 1 < first_code(19u32) + codes_of_len(19u32)
            implies #[trigger] symbol_of(19u32, c) < symbol_of(19u32, (c + 1) as u32) by {}
    } else if l == 20 {
        assert forall|c: u32| first_code(20u32) <= c && c + 1 < first_code(20u32) + codes_of_len(20u32)
            implies #[trigger] symbol_of(20u32, c) < symbol_of(20u32, (c + 1) as u32) by {}
    } else if l == 21 {
        assert forall|c: u32| first_code(21u32) <= c && c + 1 < first_code(21u32) + codes_of_len(21u32)
            implies #[trigger] symbol_of(21u32, c) < symbol_of(21u32, (c + 1) as u32) by {}
    } else if l == 22 {
        assert forall|c: u32| first_code(22u32) <= c && c + 1 < first_code(22u32) + codes_of_len(22u32)
            implies #[trigger] symbol_of(22u32, c) < symbol_of(22u32, (c + 1) as u32) by {}
    } else if l == 23 {
        assert forall|c: u32| first_code(23u32) <= c && c + 1 < first_code(23u32) + codes_of_len(23u32)
            implies #[trigger] symbol_of(23u32, c) < symbol_of(23u32, (c + 1) as u32) by {}
    } else if l == 24 {
        assert forall|c: u32| first_code(24u32) <= c && c + 1 < first_code(24u32) + codes_of_len(24u32)
            implies #[trigger] symbol_of(24u32, c) < symbol_of(24u32, (c + 1) as u32) by {}
    } else if l == 25 {
        assert forall|c: u32| first_code(25u32) <= c && c + 1 < first_code(25u32) + codes_of_len(25u32)
            implies #[trigger] symbol_of(25u32, c) < symbol_of(25u32, (c + 1) as u32) by {}
    } else if l == 26 {
        assert forall|c: u32| first_code(26u32) <= c && c + 1 < first_code(26u32) + codes_of_len(26u32)
            implies #[trigger] symbol_of(26u32, c) < symbol_of(26u32, (c + 1) as u32) by {}
    } else if l == 27 {
        assert forall|c: u32| first_code(27u32) <= c && c + 1 < first_code(27u32) + codes_of_len(27u32)
            implies #[trigger] symbol_of(27u32, c) < symbol_of(27u32, (c + 1) as u32) by {}
    } else if l == 28 {
        assert forall|c: u32| first_code(28u32) <= c && c + 1 < first_code(28u32) + codes_of_len(28u32)
            implies #[trigger] symbol_of(28u32, c) < symbol_of(28u32, (c + 1) as u32) by {}
    } else if l == 30 {
        assert forall|c: u32| first_code(30u32) <= c && c + 1 < first_code(30u32) + codes_of_len(30u32)
            implies #[trigger] symbol_of(30u32, c) < symbol_of(30u32, (c + 1) as u32) by {}
    }
}

proof fn lemma_block_order(l: u32, a: u32, b: u32)
    requires
        5 <= l <= 30,
        first_code(l) <= a < b < first_code(l) + codes_of_len(l),
    ensures
        symbol_of(l, a) < symbol_of(l, b),
    decreases b - a,
{
    lemma_block_steps(l);
    assert(symbol_of(l, (b - 1) as u32) < symbol_of(l, b));
    if a + 1 < b {
        lemma_block_order(l, a, (b - 1) as u32);
    }
}

/// The code is canonical (RFC 7541, appendix B, lists it so): of two symbols whose codes have the
/// same length, the smaller symbol has the smaller code; and a shorter code, extended by any
/// bits to the length of a longer one, stays below that longer code.
pub proof fn lemma_canonical_code(s: u16, t: u16)
    requires
        s < t < SYMBOLS,
    ensures
        huffman_len(s) == huffman_len(t) ==> huffman_code(s) < huffman_code(t),
        huffman_len(s) < huffman_len(t) ==> (huffman_code(s) as nat + 1)
            * pow2((huffman_len(t) - huffman_len(s)) as nat) <= huffman_code(t) as nat,
        huffman_len(t) < huffman_len(s) ==> (huffman_code(t) as nat + 1)
            * pow2((huffman_len(s) - huffman_len(t)) as nat) <= huffman_code(s) as nat,
{
    lemma_symbol_code_facts(s);
    lemma_symbol_code_facts(t);
    let l = huffman_len(s);
    let cs = huffman_code(s);
    let ct = huffman_code(t);
    if l == huffman_len(t) {
        if ct < cs {
            lemma_block_order(l, ct, cs);
        } else if ct == cs {
            assert(symbol_of(l, cs) == symbol_of(l, ct));
        }
    } else if l < huffman_len(t) {
        lemma_first_code_grows(l, huffman_len(t));
        let x = first_code(l) + codes_of_len(l);
        let p = pow2((huffman_len(t) - l) as nat);
        assert((cs as nat + 1) * p <= x * p) by (nonlinear_arith)
            requires cs as nat + 1 <= x;
    } else {
        lemma_first_code_grows(huffman_len(t), l);
        let x = first_code(huffman_len(t)) + codes_of_len(huffman_len(t));
        let p = pow2((l - huffman_len(t)) as nat);
        assert((ct as nat + 1) * p <= x * p) by (nonlinear_arith)
            requires ct as nat + 1 <= x;
    }
}

/// The bits of the `n`-bit binary representation of `c`, most significant first.
pub open spec fn bits_of(c: nat, n: nat) -> Seq<bool> {
    Seq::new(n, |j: int| (c / pow2((n - 1 - j) as nat)) % 2 == 1)
}

/// The number whose binary representation, most significant bit first, is `b`.
pub open spec fn bits_value(b: Seq<bool>) -> nat
    decreases b.len(),
{
    if b.len() == 0 {
        0
    } else {
        2 * bits_value(b.drop_last()) + if b.last() { 1nat } else { 0nat }
    }
}

/// `n` one bits.
pub open spec fn ones(n: nat) -> Seq<bool> {
    Seq::new(n, |_j: int| true)
}

pub proof fn lemma_bits_value_bound(b: Seq<bool>)
    ensures
        bits_value(b) < pow2(b.len()),
    decreases b.len(),
{
    if b.len() > 0 {
        lemma_bits_value_bound(b.drop_last());
        lemma_pow2_unfold(b.len());
    } else {
        lemma2_to64();
    }
}

pub proof fn lemma_bits_value_concat(a: Seq<bool>, b: Seq<bool>)
    ensures
        bits_value(a + b) == bits_value(a) * pow2(b.len()) + bits_value(b),
    decreases b.len(),
{
    if b.len() == 0 {
        assert(a + b =~= a);
        lemma2_to64();
        let va = bits_value(a);
        assert(va * pow2(b.len()) == va) by (nonlinear_arith)
            requires pow2(b.len()) == 1;
    } else {
        assert((a + b).drop_last() =~= a + b.drop_last());
        assert((a + b).last() == b.last());
        lemma_bits_value_concat(a, b.drop_last());
        lemma_pow2_unfold(b.len());
        let va = bits_value(a);
        let p = pow2((b.len() - 1) as nat);
        assert(va * pow2(b.len()) == 2 * (va * p)) by (nonlinear_arith)
            requires pow2(b.len()) == 2 * p;
    }
}

pub proof fn lemma_bits_of_value(c: nat, n: nat)
    requires
        c < pow2(n),
    ensures
        bits_value(bits_of(c, n)) == c,
    decreases n,
{
    if n == 0 {
        lemma2_to64();
    } else {
        lemma_pow2_unfold(n);
        let q = c / 2;
        assert(q < pow2((n - 1) as nat));
        assert(bits_of(c, n).drop_last() =~= bits_of(q, (n - 1) as nat)) by {
            assert forall|j: int| 0 <= j < n - 1 implies bits_of(c, n)[j] == bits_of(q, (n - 1) as nat)[j] by {
                let e = (n - 2 - j) as nat;
                lemma_pow2_unfold(e + 1);
                lemma_pow2_pos(e);
                lemma_div_denominator(c as int, 2, pow2(e) as int);
            }
        }
        lemma_bits_of_value(q, (n - 1) as nat);
        assert(bits_of(c, n).last() == (c % 2 == 1)) by {
            lemma2_to64();
            assert(bits_of(c, n)[n - 1] == ((c / pow2(0)) % 2 == 1));
        }
    }
}

pub proof fn lemma_ones_value(n: nat)
    ensures
        bits_value(ones(n)) + 1 == pow2(n),
    decreases n,
{
    if n == 0 {
        lemma2_to64();
    } else {
        assert(ones(n).drop_last() =~= ones((n - 1) as nat));
        lemma_ones_value((n - 1) as nat);
        lemma_pow2_unfold(n);
    }
}

/// The code of symbol `s` as bits.
pub open spec fn code_bits(s: u16) -> Seq<bool> {
    bits_of(huffman_code(s) as nat, huffman_len(s) as nat)
}

/// The code of symbol `s` is the beginning of `bits`.
pub open spec fn code_matches(bits: Seq<bool>, s: u16) -> bool {
    let l = huffman_len(s) as int;
    &&& 0 < l <= bits.len()
    &&& bits_value(bits.take(l)) == huffman_code(s) as nat
}

/// The first symbol, from `s` on in table order, whose code begins `bits`.
pub open spec fn first_match(bits: Seq<bool>, s: u16) -> Option<u16>
    decreases SYMBOLS - s,
{
    if s >= SYMBOLS {
        None
    } else if code_matches(bits, s) {
        Some(s)
    } else {
        first_match(bits, (s + 1) as u16)
    }
}

pub proof fn lemma_first_match(bits: Seq<bool>, s: u16)
    ensures
        first_match(bits, s) matches Some(t) ==> s <= t < SYMBOLS && code_matches(bits, t),
        first_match(bits, s) is None ==> forall|t: u16| s <= t < SYMBOLS ==> !code_matches(bits, t),
        forall|t: u16| s <= t < SYMBOLS && code_matches(bits, t)
            && (forall|r: u16| s <= r < t ==> !code_matches(bits, r)) ==> first_match(bits, s) == Some(t),
    decreases SYMBOLS - s,
{
    if s < SYMBOLS && !code_matches(bits, s) {
        lemma_first_match(bits, (s + 1) as u16);
    }
}

/// Huffman decoding of `bits` (RFC 7541, section 5.2): codes are taken greedily from the front;
/// what is left when no code matches must be padding, at most seven bits, all of them ones.
pub open spec fn huffman_decode(bits: Seq<bool>) -> Result<Seq<char>, Error>
    decreases bits.len(),
{
    if bits.len() == 0 {
        Ok(Seq::empty())
    } else {
        match first_match(bits, 0) {
            Some(s) => {
                proof { lemma_first_match(bits, 0); }
                if s == EOS {
                    Err(Error::UnexpectedEOS)
                } else {
                    match huffman_decode(bits.skip(huffman_len(s) as int)) {
                        Ok(rest) => Ok(seq![(s as u32) as char] + rest),
                        Err(e) => Err(e),
                    }
                }
            },
            None => if bits.len() > 7 {
                Err(Error::PaddingTooLong)
            } else if bits == ones(bits.len()) {
                Ok(Seq::empty())
            } else {
                Err(Error::PaddingNotEOS)
            },
        }
    }
}

/// Every character is below 256, so it is one octet symbol of the code.
pub open spec fn octet_chars(cs: Seq<char>) -> bool {
    forall|k: int| 0 <= k < cs.len() ==> (cs[k] as u32) < 256
}

/// The codes of the characters, one after the other.
pub open spec fn huffman_bits(cs: Seq<char>) -> Seq<bool>
    decreases cs.len(),
{
    if cs.len() == 0 {
        Seq::empty()
    } else {
        code_bits((cs[0] as u32) as u16) + huffman_bits(cs.skip(1))
    }
}

/// The number of one bits that pad `n` bits to a whole number of octets.
pub open spec fn padding_len(n: nat) -> nat {
    ((8 - n % 8) % 8) as nat
}

/// The Huffman encoding of `cs` as bits: the codes, padded with the most significant bits of
/// the EOS code (ones) to an octet boundary.
pub open spec fn huffman_encoded_bits(cs: Seq<char>) -> Seq<bool> {
    huffman_bits(cs) + ones(padding_len(huffman_bits(cs).len()))
}

proof fn lemma_code_value(s: u16)
    requires
        s < SYMBOLS,
    ensures
        code_bits(s).len() == huffman_len(s),
        bits_value(code_bits(s)) == huffman_code(s),
        5 <= huffman_len(s) <= 30,
{
    lemma_symbol_code_facts(s);
    lemma_length_facts(huffman_len(s));
    lemma_bits_of_value(huffman_code(s) as nat, huffman_len(s) as nat);
}

/// On bits that start with the code of `t`, the code of `t` is the only one that matches.
proof fn lemma_only_own_code_matches(t: u16, rest: Seq<bool>, s: u16)
    requires
        t < SYMBOLS,
        s < SYMBOLS,
        s != t,
    ensures
        !code_matches(code_bits(t) + rest, s),
{
    let bits = code_bits(t) + rest;
    lemma_code_value(t);
    lemma_code_value(s);
    let a = huffman_len(s) as int;
    let b = huffman_len(t) as int;
    if code_matches(bits, s) {
        if a <= b {
            let x = code_bits(t).take(a);
            let y = code_bits(t).skip(a);
            assert(x + y =~= code_bits(t));
            assert(bits.take(a) =~= x);
            lemma_bits_value_concat(x, y);
            lemma_bits_value_bound(y);
            lemma_pow2_pos(y.len());
            lemma_fundamental_div_mod_converse(
                huffman_code(t) as int, pow2(y.len()) as int, bits_value(x) as int, bits_value(y) as int);
            assert(y.len() == (huffman_len(t) - huffman_len(s)) as nat);
            lemma_prefix_free(s, t);
        } else {
            let z = rest.take(a - b);
            assert(bits.take(a) =~= code_bits(t) + z);
            lemma_bits_value_concat(code_bits(t), z);
            lemma_bits_value_bound(z);
            lemma_pow2_pos(z.len());
            lemma_fundamental_div_mod_converse(
                huffman_code(s) as int, pow2(z.len()) as int, huffman_code(t) as int, bits_value(z) as int);
            assert(z.len() == (huffman_len(s) - huffman_len(t)) as nat);
            lemma_prefix_free(t, s);
        }
    }
}

/// Fewer than eight padding ones never hold a whole code.
proof fn lemma_padding_matches_nothing(p: nat, s: u16)
    requires
        p <= 7,
        s < SYMBOLS,
    ensures
        !code_matches(ones(p), s),
{
    lemma_symbol_code_facts(s);
    let l = huffman_len(s);
    lemma_length_facts(l);
    if code_matches(ones(p), s) {
        assert(ones(p).take(l as int) =~= ones(l as nat));
        lemma_ones_value(l as nat);
    }
}

/// Decoding the Huffman encoding of a string of octet characters gives back the string,
/// whatever padding of fewer than eight ones follows the codes.
pub proof fn lemma_huffman_roundtrip(cs: Seq<char>, p: nat)
    requires
        octet_chars(cs),
        p <= 7,
    ensures
        huffman_decode(huffman_bits(cs) + ones(p)) == Ok::<Seq<char>, Error>(cs),
    decreases cs.len(),
{
    let bits = huffman_bits(cs) + ones(p);
    if cs.len() == 0 {
        assert(bits =~= ones(p));
        assert(cs =~= Seq::<char>::empty());
        if p > 0 {
            assert forall|s: u16| 0 <= s < SYMBOLS implies !code_matches(bits, s) by {
                lemma_padding_matches_nothing(p, s);
            }
            lemma_first_match(bits, 0);
        }
    } else {
        let t = (cs[0] as u32) as u16;
        let tail = cs.skip(1);
        assert(octet_chars(tail));
        lemma_huffman_roundtrip(tail, p);
        let rest = huffman_bits(tail) + ones(p);
        assert(bits =~= code_bits(t) + rest);
        lemma_code_value(t);
        assert(bits.take(huffman_len(t) as int) =~= code_bits(t));
        assert(code_matches(bits, t));
        assert forall|r: u16| 0 <= r < t implies !code_matches(bits, r) by {
            lemma_only_own_code_matches(t, rest, r);
        }
        lemma_first_match(bits, 0);
        assert(bits.skip(huffman_len(t) as int) =~= rest);
        assert(t as u32 == cs[0] as u32);
        vstd::utf8::char_u32_cast(cs[0], t as u32);
        assert(((t as u32) as char) == cs[0]);
        assert(seq![(t as u32) as char] + tail =~= cs);
        assert(bits.len() > 0);
        assert(first_match(bits, 0) == Some(t));
        assert(huffman_decode(bits.skip(huffman_len(t) as int)) == Ok::<Seq<char>, Error>(tail));
    }
}

/// The bits of the octets `p`, each octet most significant bit first.
pub open spec fn octet_bits(p: Seq<u8>) -> Seq<bool> {
    Seq::new(8 * p.len(), |n: int| bits_of(p[n / 8] as nat, 8)[n % 8])
}

/// The octets whose bits are `bits` (a whole number of octets).
pub open spec fn pack_octets(bits: Seq<bool>) -> Seq<u8> {
    Seq::new(bits.len() / 8, |k: int| bits_value(bits.subrange(8 * k, 8 * k + 8)) as u8)
}

/// The symbol of an octet character.
pub open spec fn char_symbol(c: char) -> u16 {
    (c as u32) as u16
}

/// The octets of the Huffman encoding of `cs`.
pub open spec fn huffman_octets(cs: Seq<char>) -> Seq<u8> {
    pack_octets(huffman_encoded_bits(cs))
}

proof fn lemma_bits_of_push(acc: nat, nb: nat, b: nat)
    requires
        acc < pow2(nb),
        b < 2,
    ensures
        bits_of(2 * acc + b, nb + 1) =~= bits_of(acc, nb).push(b == 1),
        2 * acc + b < pow2(nb + 1),
{
    lemma_pow2_unfold(nb + 1);
    let x = 2 * acc + b;
    assert forall|j: int| 0 <= j < nb implies bits_of(x, nb + 1)[j] == bits_of(acc, nb)[j] by {
        let e = (nb - 1 - j) as nat;
        lemma_pow2_unfold(e + 1);
        lemma_pow2_pos(e);
        lemma_div_denominator(x as int, 2, pow2(e) as int);
        assert(x / 2 == acc);
        assert((nb + 1 - 1 - j) as nat == e + 1);
    }
    assert(bits_of(x, nb + 1)[nb as int] == (b == 1)) by {
        lemma2_to64();
        assert((nb + 1 - 1 - nb) as nat == 0);
    }
}

proof fn lemma_octet_bits_push(p: Seq<u8>, x: u8)
    ensures
        octet_bits(p.push(x)) =~= octet_bits(p) + bits_of(x as nat, 8),
{
    let q = p.push(x);
    assert forall|n: int| 0 <= n < 8 * q.len() implies octet_bits(q)[n] == (octet_bits(p) + bits_of(x as nat, 8))[n] by {
        if n < 8 * p.len() {
            assert(n / 8 < p.len());
        } else {
            assert(n / 8 == p.len());
            assert(n % 8 == n - 8 * p.len());
        }
    }
}

proof fn lemma_pack_octet_bits(p: Seq<u8>)
    ensures
        pack_octets(octet_bits(p)) =~= p,
{
    let b = octet_bits(p);
    lemma2_to64();
    assert forall|k: int| 0 <= k < p.len() implies pack_octets(b)[k] == p[k] by {
        assert(b.subrange(8 * k, 8 * k + 8) =~= bits_of(p[k] as nat, 8)) by {
            assert forall|j: int| 0 <= j < 8 implies b.subrange(8 * k, 8 * k + 8)[j] == bits_of(p[k] as nat, 8)[j] by {
                assert((8 * k + j) / 8 == k);
                assert((8 * k + j) % 8 == j);
            }
        }
        lemma_bits_of_value(p[k] as nat, 8);
    }
}

proof fn lemma_huffman_bits_push(cs: Seq<char>, c: char)
    ensures
        huffman_bits(cs.push(c)) == huffman_bits(cs) + code_bits(char_symbol(c)),
    decreases cs.len(),
{
    if cs.len() == 0 {
        assert(cs.push(c).skip(1) =~= Seq::<char>::empty());
        assert(cs.push(c)[0] == c);
        assert(huffman_bits(cs.push(c).skip(1)) == Seq::<bool>::empty());
        assert(huffman_bits(cs) == Seq::<bool>::empty());
        assert(huffman_bits(cs.push(c)) =~= huffman_bits(cs) + code_bits(char_symbol(c)));
    } else {
        assert(cs.push(c).skip(1) =~= cs.skip(1).push(c));
        lemma_huffman_bits_push(cs.skip(1), c);
        assert(cs.push(c)[0] == cs[0]);
        let h = code_bits(char_symbol(cs[0]));
        assert(huffman_bits(cs.push(c)) == h + huffman_bits(cs.skip(1).push(c)));
        assert(huffman_bits(cs) == h + huffman_bits(cs.skip(1)));
        assert(huffman_bits(cs.push(c)) =~= huffman_bits(cs) + code_bits(char_symbol(c)));
    }
}

proof fn lemma_huffman_bits_concat(a: Seq<char>, b: Seq<char>)
    ensures
        huffman_bits(a + b) == huffman_bits(a) + huffman_bits(b),
    decreases a.len(),
{
    if a.len() == 0 {
        assert(a + b =~= b);
        assert(huffman_bits(a) + huffman_bits(b) =~= huffman_bits(b));
    } else {
        assert((a + b).skip(1) =~= a.skip(1) + b);
        assert((a + b)[0] == a[0]);
        lemma_huffman_bits_concat(a.skip(1), b);
        assert(huffman_bits(a + b) =~= huffman_bits(a) + huffman_bits(b));
    }
}

/// The bit of the code `code` of length `l` at position `j`, most significant first.
fn code_bit(code: u32, l: u32, j: u32) -> (b: u8)
    requires
        j < l <= 30,
    ensures
        b < 2,
        (b == 1) == bits_of(code as nat, l as nat)[j as int],
{
    let sh = l - 1 - j;
    let x = code >> sh;
    proof {
        vstd::bits::lemma_u32_shr_is_div(code, sh);
    }
    let b = x & 1;
    assert(b == x % 2 && b < 2) by (bit_vector)
        requires b == x & 1u32;
    b as u8
}

/// Writes the octets of the Huffman encoding of `value` (its codes, padded with ones to an
/// octet boundary) into `octets` from position `start` on.
pub fn huffman_encode(value: &str, octets: &mut [u8], start: usize, total: u128)
    requires
        octet_chars(value@),
        total == huffman_bits(value@).len(),
        start + huffman_octets(value@).len() <= old(octets)@.len(),
    ensures
        spliced(old(octets)@, start as int, huffman_octets(value@), final(octets)@),
{
    let ghost orig = octets@;
    let ghost all = huffman_bits(value@);
    let ghost nbytes = huffman_octets(value@).len();
    let n = value.unicode_len();
    let mut pos: usize = start;
    let mut acc: u8 = 0;
    let mut nb: u8 = 0;
    let mut k: usize = 0;
    proof {
        lemma2_to64();
        assert(value@.take(0) =~= Seq::<char>::empty());
        assert(octets@.subrange(start as int, start as int) =~= Seq::<u8>::empty());
        assert(octet_bits(Seq::<u8>::empty()) =~= Seq::<bool>::empty());
        assert(bits_of(0, 0) =~= Seq::<bool>::empty());
        assert(nbytes == (total + padding_len(total as nat)) / 8);
    }
    while k < n
        invariant
            n == value@.len(),
            k <= n,
            octet_chars(value@),
            all == huffman_bits(value@),
            total == all.len(),
            nbytes == (total + padding_len(total as nat)) / 8,
            start + nbytes <= orig.len(),
            octets@.len() == orig.len(),
            orig == old(octets)@,
            start <= pos,
            forall|x: int| 0 <= x < start ==> octets@[x] == orig[x],
            forall|x: int| pos <= x < orig.len() ==> octets@[x] == orig[x],
            nb < 8,
            (acc as nat) < pow2(nb as nat),
            octet_bits(octets@.subrange(start as int, pos as int)) + bits_of(acc as nat, nb as nat)
                == huffman_bits(value@.take(k as int)),
            (pos - start) * 8 + nb == huffman_bits(value@.take(k as int)).len(),
        decreases n - k,
    {
        let c = value.get_char(k);
        let s = (c as u32) as u16;
        let (code, l) = huffman_entry(s);
        let ghost before = huffman_bits(value@.take(k as int));
        proof {
            lemma_code_value(s);
            lemma_huffman_bits_push(value@.take(k as int), c);
            assert(value@.take(k as int).push(c) =~= value@.take(k + 1));
            lemma_huffman_bits_concat(value@.take(k + 1), value@.skip(k + 1));
            assert(value@.take(k + 1) + value@.skip(k + 1) =~= value@);
            assert(code_bits(s).take(0) =~= Seq::<bool>::empty());
            assert(before + code_bits(s).take(0) =~= before);
        }
        let mut j: u32 = 0;
        while j < l
            invariant
                n == value@.len(),
                k < n,
                octet_chars(value@),
                all == huffman_bits(value@),
                total == all.len(),
                nbytes == (total + padding_len(total as nat)) / 8,
                start + nbytes <= orig.len(),
                octets@.len() == orig.len(),
                orig == old(octets)@,
                start <= pos,
                forall|x: int| 0 <= x < start ==> octets@[x] == orig[x],
                forall|x: int| pos <= x < orig.len() ==> octets@[x] == orig[x],
                nb < 8,
                (acc as nat) < pow2(nb as nat),
                s == char_symbol(c),
                code == huffman_code(s),
                l == huffman_len(s),
                5 <= l <= 30,
                code_bits(s).len() == l,
                j <= l,
                before == huffman_bits(value@.take(k as int)),
                huffman_bits(value@.take(k + 1)) == before + code_bits(s),
                huffman_bits(value@.take(k + 1)).len() <= total,
                octet_bits(octets@.subrange(start as int, pos as int)) + bits_of(acc as nat, nb as nat)
                    == before + code_bits(s).take(j as int),
                (pos - start) * 8 + nb == before.len() + j,
            decreases l - j,
        {
            let b = code_bit(code, l, j);
            let ghost sub = octets@.subrange(start as int, pos as int);
            let ghost old_acc = acc as nat;
            let ghost old_nb = nb as nat;
            proof {
                lemma2_to64();
                lemma_bits_of_push(acc as nat, nb as nat, b as nat);
                assert(code_bits(s).take(j + 1) =~= code_bits(s).take(j as int).push(code_bits(s)[j as int]));
                assert(pow2(nb as nat) <= 128) by {
                    if nb == 0 {} else if nb == 1 {} else if nb == 2 {} else if nb == 3 {}
                    else if nb == 4 {} else if nb == 5 {} else if nb == 6 {} else {}
                }
            }
            acc = acc * 2 + b;
            nb = nb + 1;
            proof {
                assert(code_bits(s)[j as int] == (b == 1));
                assert(bits_of(acc as nat, nb as nat) == bits_of(old_acc, old_nb).push(b == 1));
                let x = bits_of(old_acc, old_nb);
                let o = octet_bits(sub);
                assert(o + x.push(b == 1) =~= (o + x).push(b == 1));
                assert((before + code_bits(s).take(j as int)).push(b == 1)
                    =~= before + code_bits(s).take(j as int).push(b == 1));
                assert(octet_bits(sub) + bits_of(acc as nat, nb as nat)
                    =~= before + code_bits(s).take(j + 1));
            }
            if nb == 8 {
                proof {
                    assert((pos - start) * 8 + 8 <= total);
                    assert(pos < start + nbytes);
                }
                octets[pos] = acc;
                proof {
                    assert(octets@.subrange(start as int, pos + 1) =~= sub.push(acc));
                    lemma_octet_bits_push(sub, acc);
                    assert(bits_of(0, 0) =~= Seq::<bool>::empty());
                }
                pos = pos + 1;
                acc = 0;
                nb = 0;
                proof {
                    assert(octet_bits(octets@.subrange(start as int, pos as int)) + bits_of(acc as nat, nb as nat)
                        =~= before + code_bits(s).take(j + 1));
                }
            } else {
                proof {
                    assert(octet_bits(octets@.subrange(start as int, pos as int)) + bits_of(acc as nat, nb as nat)
                        =~= before + code_bits(s).take(j + 1));
                }
            }
            j = j + 1;
        }
        proof {
            assert(code_bits(s).take(l as int) =~= code_bits(s));
        }
        k = k + 1;
    }
    proof {
        assert(value@.take(n as int) =~= value@);
    }
    if nb > 0 {
        let ghost pad_start = nb;
        let ghost sub = octets@.subrange(start as int, pos as int);
        let ghost bits_so_far = all;
        let mut m: u8 = nb;
        while m < 8
            invariant
                nb <= m <= 8,
                0 < nb < 8,
                (acc as nat) < pow2(m as nat),
                bits_of(acc as nat, m as nat) == bits_of(acc as nat, m as nat),
                sub == octets@.subrange(start as int, pos as int),
                octet_bits(sub) + bits_of(acc as nat, m as nat) == all + ones((m - nb) as nat),
            decreases 8 - m,
        {
            let ghost old_acc = acc as nat;
            let ghost old_m = m as nat;
            proof {
                lemma2_to64();
                lemma_bits_of_push(acc as nat, m as nat, 1);
                assert(ones((m + 1 - nb) as nat) =~= ones((m - nb) as nat).push(true));
                assert(pow2(m as nat) <= 128) by {
                    if m == 0 {} else if m == 1 {} else if m == 2 {} else if m == 3 {}
                    else if m == 4 {} else if m == 5 {} else if m == 6 {} else {}
                }
            }
            acc = acc * 2 + 1;
            m = m + 1;
            proof {
                assert(bits_of(acc as nat, m as nat) == bits_of(old_acc, old_m).push(true));
                let x = bits_of(old_acc, old_m);
                let o = octet_bits(sub);
                assert(o + x.push(true) =~= (o + x).push(true));
                assert((all + ones((old_m - nb) as nat)).push(true) =~= all + ones((old_m - nb) as nat).push(true));
                assert(octet_bits(sub) + bits_of(acc as nat, m as nat) =~= all + ones((m - nb) as nat));
            }
        }
        proof {
            assert(total % 8 == nb as nat);
            assert(padding_len(total as nat) == (8 - nb) as nat);
            assert((pos - start) + 1 == nbytes);
        }
        octets[pos] = acc;
        proof {
            assert(octets@.subrange(start as int, pos + 1) =~= sub.push(acc));
            lemma_octet_bits_push(sub, acc);
        }
        pos = pos + 1;
    } else {
        proof {
            assert(bits_of(acc as nat, 0) =~= Seq::<bool>::empty());
            assert(padding_len(total as nat) == 0);
            assert(ones(0) =~= Seq::<bool>::empty());
        }
    }
    proof {
        let written = octets@.subrange(start as int, pos as int);
        assert(octet_bits(written) =~= huffman_encoded_bits(value@));
        lemma_pack_octet_bits(written);
        assert(written =~= huffman_octets(value@));
    }
}

/// The bit at position `n` of the octets of `p`.
proof fn lemma_octet_bit(p: Seq<u8>, q: int, r: int)
    requires
        0 <= q < p.len(),
        0 <= r < 8,
    ensures
        octet_bits(p)[8 * q + r] == ((p[q] as nat / pow2((7 - r) as nat)) % 2 == 1),
{
    assert((8 * q + r) / 8 == q);
    assert((8 * q + r) % 8 == r);
}

/// Reads bit `cbit` (most significant first) of octet `octets[cb]`.
fn octet_bit(octets: &[u8], cb: usize, cbit: u8) -> (b: u8)
    requires
        cb < octets@.len(),
        cbit < 8,
    ensures
        b < 2,
        (b == 1) == ((octets@[cb as int] as nat / pow2((7 - cbit) as nat)) % 2 == 1),
{
    let x = octets[cb] >> (7 - cbit);
    proof {
        vstd::bits::lemma_u8_shr_is_div(octets@[cb as int], (7 - cbit) as u8);
    }
    let b = x & 1;
    assert(b == x % 2 && b < 2) by (bit_vector)
        requires b == x & 1u8;
    b
}

/// Reads `l` bits from bit position `8 * (cb - start) + cbit` of `octets[start..limit]` as a
/// number, most significant first, if there are that many.
fn read_bits(octets: &[u8], start: usize, limit: usize, cb: usize, cbit: u8, l: u32) -> (r: Option<u32>)
    requires
        start <= cb <= limit <= octets@.len(),
        cbit < 8,
        cb == limit ==> cbit == 0,
        l <= 30,
    ensures
        ({
            let bits = octet_bits(octets@.subrange(start as int, limit as int));
            let p = 8 * (cb - start) + cbit;
            &&& r is Some <==> p + l <= bits.len()
            &&& r matches Some(v) ==> v as nat == bits_value(bits.subrange(p, p + l))
        }),
{
    let ghost bits = octet_bits(octets@.subrange(start as int, limit as int));
    let ghost p = 8 * (cb - start) + cbit;
    let mut v: u32 = 0;
    let mut k: u32 = 0;
    let mut b: usize = cb;
    let mut t: u8 = cbit;
    proof {
        lemma2_to64();
        assert(bits.subrange(p, p) =~= Seq::<bool>::empty());
    }
    while k < l
        invariant
            start <= cb,
            start <= b <= limit <= octets@.len(),
            t < 8,
            b == limit ==> t == 0,
            k <= l <= 30,
            bits == octet_bits(octets@.subrange(start as int, limit as int)),
            bits.len() == 8 * (limit - start),
            p == 8 * (cb - start) + cbit,
            8 * (b - start) + t == p + k,
            p + k <= bits.len(),
            v as nat == bits_value(bits.subrange(p, p + k)),
            (v as nat) < pow2(k as nat),
        decreases l - k,
    {
        if b >= limit {
            return None;
        }
        let x = octet_bit(octets, b, t);
        proof {
            lemma_octet_bit(octets@.subrange(start as int, limit as int), (b - start) as int, t as int);
            assert(octets@.subrange(start as int, limit as int)[b - start] == octets@[b as int]);
            assert(8 * (b - start) + t < 8 * (limit - start));
            assert(p + k + 1 <= bits.len());
            assert(bits[p + k] == (x == 1));
            assert(bits.subrange(p, p + k + 1).drop_last() =~= bits.subrange(p, p + k));
            assert(bits.subrange(p, p + k + 1).last() == (x == 1));
            lemma_pow2_unfold((k + 1) as nat);
            lemma_u32_pow2_no_overflow_30(k as nat);
        }
        v = v * 2 + x as u32;
        k = k + 1;
        if t == 7 {
            t = 0;
            b = b + 1;
        } else {
            t = t + 1;
        }
    }
    Some(v)
}

proof fn lemma_u32_pow2_no_overflow_30(k: nat)
    requires
        k < 30,
    ensures
        pow2(k) <= 0x2000_0000,
{
    lemma2_to64();
    if k < 29 {
        lemma_pow2_strictly_increases(k, 29);
    }
}

/// The first symbol in table order whose code begins the bits from bit position
/// `8 * (cb - start) + cbit` of `octets[start..limit]` on, with the length of its code.
fn find_symbol(octets: &[u8], start: usize, limit: usize, cb: usize, cbit: u8) -> (r: Option<(u16, u32)>)
    requires
        start <= cb < limit <= octets@.len(),
        cbit < 8,
    ensures
        ({
            let w = octet_bits(octets@.subrange(start as int, limit as int)).skip(8 * (cb - start) + cbit);
            &&& r is None <==> first_match(w, 0) is None
            &&& r matches Some((s, l)) ==> first_match(w, 0) == Some(s) && l == huffman_len(s)
        }),
{
    let ghost bits = octet_bits(octets@.subrange(start as int, limit as int));
    let ghost p = 8 * (cb - start) + cbit;
    let ghost w = bits.skip(p);
    let mut s: u16 = 0;
    while s < SYMBOLS
        invariant
            start <= cb < limit <= octets@.len(),
            cbit < 8,
            bits == octet_bits(octets@.subrange(start as int, limit as int)),
            bits.len() == 8 * (limit - start),
            p == 8 * (cb - start) + cbit,
            w == bits.skip(p),
            s <= SYMBOLS,
            first_match(w, 0) == first_match(w, s),
        decreases SYMBOLS - s,
    {
        let (code, l) = huffman_entry(s);
        proof { lemma_code_value(s); }
        match read_bits(octets, start, limit, cb, cbit, l) {
            Some(v) => {
                proof {
                    assert(w.take(l as int) =~= bits.subrange(p, p + l));
                }
                if v == code {
                    return Some((s, l));
                }
            },
            None => {},
        }
        s = s + 1;
    }
    None
}

/// Huffman decoding of the octets `octets[start..limit]`.
pub fn huffman_decode_octets(octets: &[u8], start: usize, limit: usize) -> (r: Result<Vec<char>, Error>)
    requires
        start <= limit <= octets@.len(),
    ensures
        match huffman_decode(octet_bits(octets@.subrange(start as int, limit as int))) {
            Ok(cs) => r is Ok && r->Ok_0@ == cs,
            Err(e) => r == Err::<Vec<char>, Error>(e),
        },
{
    let ghost bits = octet_bits(octets@.subrange(start as int, limit as int));
    let mut out: Vec<char> = Vec::new();
    let mut cb: usize = start;
    let mut cbit: u8 = 0;
    proof {
        assert(bits.skip(0) =~= bits);
        assert(out@ + Seq::<char>::empty() =~= Seq::<char>::empty());
    }
    loop
        invariant
            start <= cb <= limit <= octets@.len(),
            cbit < 8,
            cb == limit ==> cbit == 0,
            bits == octet_bits(octets@.subrange(start as int, limit as int)),
            bits.len() == 8 * (limit - start),
            match huffman_decode(bits.skip(8 * (cb - start) + cbit)) {
                Ok(rest) => huffman_decode(bits) == Ok::<Seq<char>, Error>(out@ + rest),
                Err(e) => huffman_decode(bits) == Err::<Seq<char>, Error>(e),
            },
        decreases 8 * (limit - cb) - cbit,
    {
        let ghost p = 8 * (cb - start) + cbit;
        let ghost w = bits.skip(p);
        if cb == limit {
            proof {
                assert(w.len() == 0);
                assert(out@ + Seq::<char>::empty() =~= out@);
            }
            return Ok(out);
        }
        let found = find_symbol(octets, start, limit, cb, cbit);
        if let Some((s, flen)) = found {
            proof {
                lemma_first_match(w, 0);
                assert(w.len() > 0);
            }
            if s == EOS {
                return Err(Error::UnexpectedEOS);
            }
            let ch = (s as u8) as char;
            proof {
                assert(ch == (s as u32) as char);
                assert(w.skip(flen as int) =~= bits.skip(p + flen));
            }
            let ghost old_out = out@;
            out.push(ch);
            proof {
                match huffman_decode(bits.skip(p + flen)) {
                    Ok(rest) => {
                        assert(old_out + (seq![ch] + rest) =~= out@ + rest);
                    },
                    Err(e) => {},
                }
            }
            let mut m: u32 = 0;
            while m < flen
                invariant
                    start <= cb <= limit,
                    cbit < 8,
                    cb == limit ==> cbit == 0,
                    m <= flen,
                    8 * (cb - start) + cbit == p + m,
                    p + flen <= bits.len(),
                    bits.len() == 8 * (limit - start),
                decreases flen - m,
            {
                if cbit == 7 {
                    cbit = 0;
                    cb = cb + 1;
                } else {
                    cbit = cbit + 1;
                }
                m = m + 1;
            }
        } else {
            proof {
                lemma_first_match(w, 0);
                assert(w.len() == 8 * (limit - cb) - cbit);
            }
            let rem_small = limit - cb == 1 && cbit > 0;
            if !rem_small {
                proof {
                    assert(w.len() > 7);
                }
                return Err(Error::PaddingTooLong);
            }
            let mut t: u8 = cbit;
            while t < 8
                invariant
                    cbit <= t <= 8,
                    cb + 1 == limit,
                    limit <= octets@.len(),
                    start <= cb,
                    bits == octet_bits(octets@.subrange(start as int, limit as int)),
                    p == 8 * (cb - start) + cbit,
                    w == bits.skip(p),
                    0 < cbit,
                    w.len() == 8 - cbit,
                    first_match(w, 0) is None,
                    match huffman_decode(w) {
                        Ok(rest) => huffman_decode(bits) == Ok::<Seq<char>, Error>(out@ + rest),
                        Err(e) => huffman_decode(bits) == Err::<Seq<char>, Error>(e),
                    },
                    forall|q: int| 0 <= q < t - cbit ==> w[q],
                decreases 8 - t,
            {
                let x = octet_bit(octets, cb, t);
                proof {
                    lemma_octet_bit(octets@.subrange(start as int, limit as int), (cb - start) as int, t as int);
                }
                if x == 0 {
                    proof {
                        assert(!w[t - cbit]);
                        assert(w != ones(w.len()));
                    }
                    return Err(Error::PaddingNotEOS);
                }
                t = t + 1;
            }
            proof {
                assert(w =~= ones(w.len()));
                assert(out@ + Seq::<char>::empty() =~= out@);
            }
            return Ok(out);
        }
    }
}

proof fn lemma_value_bits(x: Seq<bool>)
    ensures
        bits_of(bits_value(x), x.len()) =~= x,
    decreases x.len(),
{
    if x.len() == 0 {
    } else {
        let d = x.drop_last();
        lemma_value_bits(d);
        lemma_bits_value_bound(d);
        lemma_bits_of_push(bits_value(d), d.len(), if x.last() { 1nat } else { 0nat });
        assert(d.push(x.last()) =~= x);
    }
}

proof fn lemma_octet_bits_pack(b: Seq<bool>)
    requires
        b.len() % 8 == 0,
    ensures
        octet_bits(pack_octets(b)) =~= b,
{
    let p = pack_octets(b);
    lemma2_to64();
    assert forall|n: int| 0 <= n < b.len() implies octet_bits(p)[n] == b[n] by {
        let q = n / 8;
        let r = n % 8;
        let x = b.subrange(8 * q, 8 * q + 8);
        lemma_bits_value_bound(x);
        lemma_value_bits(x);
        assert(p[q] as nat == bits_value(x));
        assert(x[r] == b[n]);
    }
}

/// The Huffman octets of `cs` carry exactly the encoded bits.
pub proof fn lemma_huffman_octets_bits(cs: Seq<char>)
    ensures
        octet_bits(huffman_octets(cs)) == huffman_encoded_bits(cs),
        huffman_octets(cs).len() * 8 == huffman_encoded_bits(cs).len(),
{
    let n = huffman_bits(cs).len();
    assert((n + padding_len(n)) % 8 == 0);
    lemma_octet_bits_pack(huffman_encoded_bits(cs));
}

/// The number of bits of the Huffman codes of the characters of `value`.
pub fn huffman_bit_len(value: &str) -> (r: u128)
    requires
        octet_chars(value@),
    ensures
        r == huffman_bits(value@).len(),
        r <= 30 * value@.len(),
        r <= 30 * (usize::MAX as nat),
{
    let n = value.unicode_len();
    let mut total: u128 = 0;
    let mut k: usize = 0;
    assert(value@.take(0) =~= Seq::<char>::empty());
    while k < n
        invariant
            n == value@.len(),
            k <= n,
            octet_chars(value@),
            total == huffman_bits(value@.take(k as int)).len(),
            total <= 30 * k,
        decreases n - k,
    {
        let c = value.get_char(k);
        let s = (c as u32) as u16;
        let (_, l) = huffman_entry(s);
        proof {
            lemma_code_value(s);
            lemma_huffman_bits_push(value@.take(k as int), c);
            assert(value@.take(k as int).push(c) =~= value@.take(k + 1));
        }
        total = total + l as u128;
        k += 1;
    }
    assert(value@.take(n as int) =~= value@);
    total
}

} // verus!
