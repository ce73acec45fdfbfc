//! The stack blur's fixed-point reciprocal tables.
//!
//! For each radius `r` in `[0, 255]` the pair `(mul_entry(r), shg_entry(r))`
//! approximates division by the triangular kernel's total weight
//! `(r + 1) * (r + 1)`: a weighted sum is multiplied by `mul_entry(r)` and
//! shifted right by `shg_entry(r)`. These are the standard published
//! stack-blur reciprocal tables; `lemma_table_ok` proves the pair tight
//! enough that a constant plane comes out unchanged and the scaled output of
//! any weighted sum of bytes fits in a byte.

use vstd::prelude::*;

verus! {

pub open spec fn mul_entry_a(r: int) -> int {
    if r == 0 {
        512
    } else if r == 1 {
        512
    } else if r == 2 {
        456
    } else if r == 3 {
        512
    } else if r == 4 {
        328
    } else if r == 5 {
        456
    } else if r == 6 {
        335
    } else if r == 7 {
        512
    } else if r == 8 {
        405
    } else if r == 9 {
        328
    } else if r == 10 {
        271
    } else if r == 11 {
        456
    } else if r == 12 {
        388
    } else if r == 13 {
        335
    } else if r == 14 {
        292
    } else if r == 15 {
        512
    } else if r == 16 {
        454
    } else if r == 17 {
        405
    } else if r == 18 {
        364
    } else if r == 19 {
        328
    } else if r == 20 {
        298
    } else if r == 21 {
        271
    } else if r == 22 {
        496
    } else if r == 23 {
        456
    } else if r == 24 {
        420
    } else if r == 25 {
        388
    } else if r == 26 {
        360
    } else if r == 27 {
        335
    } else if r == 28 {
        312
    } else if r == 29 {
        292
    } else if r == 30 {
        273
    } else if r == 31 {
        512
    } else if r == 32 {
        482
    } else if r == 33 {
        454
    } else if r == 34 {
        428
    } else if r == 35 {
        405
    } else if r == 36 {
        383
    } else if r == 37 {
        364
    } else if r == 38 {
        345
    } else if r == 39 {
        328
    } else if r == 40 {
        312
    } else if r == 41 {
        298
    } else if r == 42 {
        284
    } else if r == 43 {
        271
    } else if r == 44 {
        259
    } else if r == 45 {
        496
    } else if r == 46 {
        475
    } else if r == 47 {
        456
    } else if r == 48 {
        437
    } else if r == 49 {
        420
    } else if r == 50 {
        404
    } else if r == 51 {
        388
    } else if r == 52 {
        374
    } else if r == 53 {
        360
    } else if r == 54 {
        347
    } else if r == 55 {
        335
    } else if r == 56 {
        323
    } else if r == 57 {
        312
    } else if r == 58 {
        302
    } else if r == 59 {
        292
    } else if r == 60 {
        282
    } else if r == 61 {
        273
    } else if r == 62 {
        265
    } else {
        512
    }
}

pub open spec fn mul_entry_b(r: int) -> int {
    if r == 64 {
        497
    } else if r == 65 {
        482
    } else if r == 66 {
        468
    } else if r == 67 {
        454
    } else if r == 68 {
        441
    } else if r == 69 {
        428
    } else if r == 70 {
        417
    } else if r == 71 {
        405
    } else if r == 72 {
        394
    } else if r == 73 {
        383
    } else if r == 74 {
        373
    } else if r == 75 {
        364
    } else if r == 76 {
        354
    } else if r == 77 {
        345
    } else if r == 78 {
        337
    } else if r == 79 {
        328
    } else if r == 80 {
        320
    } else if r == 81 {
        312
    } else if r == 82 {
        305
    } else if r == 83 {
        298
    } else if r == 84 {
        291
    } else if r == 85 {
        284
    } else if r == 86 {
        278
    } else if r == 87 {
        271
    } else if r == 88 {
        265
    } else if r == 89 {
        259
    } else if r == 90 {
        507
    } else if r == 91 {
        496
    } else if r == 92 {
        485
    } else if r == 93 {
        475
    } else if r == 94 {
        465
    } else if r == 95 {
        456
    } else if r == 96 {
        446
    } else if r == 97 {
        437
    } else if r == 98 {
        428
    } else if r == 99 {
        420
    } else if r == 100 {
        412
    } else if r == 101 {
        404
    } else if r == 102 {
        396
    } else if r == 103 {
        388
    } else if r == 104 {
        381
    } else if r == 105 {
        374
    } else if r == 106 {
        367
    } else if r == 107 {
        360
    } else if r == 108 {
        354
    } else if r == 109 {
        347
    } else if r == 110 {
        341
    } else if r == 111 {
        335
    } else if r == 112 {
        329
    } else if r == 113 {
        323
    } else if r == 114 {
        318
    } else if r == 115 {
        312
    } else if r == 116 {
        307
    } else if r == 117 {
        302
    } else if r == 118 {
        297
    } else if r == 119 {
        292
    } else if r == 120 {
        287
    } else if r == 121 {
        282
    } else if r == 122 {
        278
    } else if r == 123 {
        273
    } else if r == 124 {
        269
    } else if r == 125 {
        265
    } else if r == 126 {
        261
    } else {
        512
    }
}

pub open spec fn mul_entry_c(r: int) -> int {
    if r == 128 {
        505
    } else if r == 129 {
        497
    } else if r == 130 {
        489
    } else if r == 131 {
        482
    } else if r == 132 {
        475
    } else if r == 133 {
        468
    } else if r == 134 {
        461
    } else if r == 135 {
        454
    } else if r == 136 {
        447
    } else if r == 137 {
        441
    } else if r == 138 {
        435
    } else if r == 139 {
        428
    } else if r == 140 {
        422
    } else if r == 141 {
        417
    } else if r == 142 {
        411
    } else if r == 143 {
        405
    } else if r == 144 {
        399
    } else if r == 145 {
        394
    } else if r == 146 {
        389
    } else if r == 147 {
        383
    } else if r == 148 {
        378
    } else if r == 149 {
        373
    } else if r == 150 {
        368
    } else if r == 151 {
        364
    } else if r == 152 {
        359
    } else if r == 153 {
        354
    } else if r == 154 {
        350
    } else if r == 155 {
        345
    } else if r == 156 {
        341
    } else if r == 157 {
        337
    } else if r == 158 {
        332
    } else if r == 159 {
        328
    } else if r == 160 {
        324
    } else if r == 161 {
        320
    } else if r == 162 {
        316
    } else if r == 163 {
        312
    } else if r == 164 {
        309
    } else if r == 165 {
        305
    } else if r == 166 {
        301
    } else if r == 167 {
        298
    } else if r == 168 {
        294
    } else if r == 169 {
        291
    } else if r == 170 {
        287
    } else if r == 171 {
        284
    } else if r == 172 {
        281
    } else if r == 173 {
        278
    } else if r == 174 {
        274
    } else if r == 175 {
        271
    } else if r == 176 {
        268
    } else if r == 177 {
        265
    } else if r == 178 {
        262
    } else if r == 179 {
        259
    } else if r == 180 {
        257
    } else if r == 181 {
        507
    } else if r == 182 {
        501
    } else if r == 183 {
        496
    } else if r == 184 {
        491
    } else if r == 185 {
        485
    } else if r == 186 {
        480
    } else if r == 187 {
        475
    } else if r == 188 {
        470
    } else if r == 189 {
        465
    } else if r == 190 {
        460
    } else {
        456
    }
}

pub open spec fn mul_entry_d(r: int) -> int {
    if r == 192 {
        451
    } else if r == 193 {
        446
    } else if r == 194 {
        442
    } else if r == 195 {
        437
    } else if r == 196 {
        433
    } else if r == 197 {
        428
    } else if r == 198 {
        424
    } else if r == 199 {
        420
    } else if r == 200 {
        416
    } else if r == 201 {
        412
    } else if r == 202 {
        408
    } else if r == 203 {
        404
    } else if r == 204 {
        400
    } else if r == 205 {
        396
    } else if r == 206 {
        392
    } else if r == 207 {
        388
    } else if r == 208 {
        385
    } else if r == 209 {
        381
    } else if r == 210 {
        377
    } else if r == 211 {
        374
    } else if r == 212 {
        370
    } else if r == 213 {
        367
    } else if r == 214 {
        363
    } else if r == 215 {
        360
    } else if r == 216 {
        357
    } else if r == 217 {
        354
    } else if r == 218 {
        350
    } else if r == 219 {
        347
    } else if r == 220 {
        344
    } else if r == 221 {
        341
    } else if r == 222 {
        338
    } else if r == 223 {
        335
    } else if r == 224 {
        332
    } else if r == 225 {
        329
    } else if r == 226 {
        326
    } else if r == 227 {
        323
    } else if r == 228 {
        320
    } else if r == 229 {
        318
    } else if r == 230 {
        315
    } else if r == 231 {
        312
    } else if r == 232 {
        310
    } else if r == 233 {
        307
    } else if r == 234 {
        304
    } else if r == 235 {
        302
    } else if r == 236 {
        299
    } else if r == 237 {
        297
    } else if r == 238 {
        294
    } else if r == 239 {
        292
    } else if r == 240 {
        289
    } else if r == 241 {
        287
    } else if r == 242 {
        285
    } else if r == 243 {
        282
    } else if r == 244 {
        280
    } else if r == 245 {
        278
    } else if r == 246 {
        275
    } else if r == 247 {
        273
    } else if r == 248 {
        271
    } else if r == 249 {
        269
    } else if r == 250 {
        267
    } else if r == 251 {
        265
    } else if r == 252 {
        263
    } else if r == 253 {
        261
    } else if r == 254 {
        259
    } else {
        257
    }
}

/// The 16-bit multiplier for radius `r`.
pub open spec fn mul_entry(r: int) -> int {
    if r < 64 {
        mul_entry_a(r)
    } else if r < 128 {
        mul_entry_b(r)
    } else if r < 192 {
        mul_entry_c(r)
    } else {
        mul_entry_d(r)
    }
}

/// The right-shift amount for radius `r`.
pub open spec fn shg_entry(r: int) -> int {
    if r <= 0 {
        9
    } else if r <= 1 {
        11
    } else if r <= 2 {
        12
    } else if r <= 4 {
        13
    } else if r <= 6 {
        14
    } else if r <= 10 {
        15
    } else if r <= 14 {
        16
    } else if r <= 21 {
        17
    } else if r <= 30 {
        18
    } else if r <= 44 {
        19
    } else if r <= 62 {
        20
    } else if r <= 89 {
        21
    } else if r <= 126 {
        22
    } else if r <= 180 {
        23
    } else if r <= 255 {
        24
    } else {
        24
    }
}

/// Two to the power `e`, written out for the shift amounts the tables use.
pub open spec fn pow2s(e: int) -> int {
    if e == 9 {
        512
    } else if e == 10 {
        1024
    } else if e == 11 {
        2048
    } else if e == 12 {
        4096
    } else if e == 13 {
        8192
    } else if e == 14 {
        16384
    } else if e == 15 {
        32768
    } else if e == 16 {
        65536
    } else if e == 17 {
        131072
    } else if e == 18 {
        262144
    } else if e == 19 {
        524288
    } else if e == 20 {
        1048576
    } else if e == 21 {
        2097152
    } else if e == 22 {
        4194304
    } else if e == 23 {
        8388608
    } else if e == 24 {
        16777216
    } else {
        1
    }
}

fn mul_lookup_a(radius: u32) -> (m: u32)
    requires
        0 <= radius <= 63,
    ensures
        m as int == mul_entry_a(radius as int),
{
    if radius == 0 {
        512
    } else if radius == 1 {
        512
    } else if radius == 2 {
        456
    } else if radius == 3 {
        512
    } else if radius == 4 {
        328
    } else if radius == 5 {
        456
    } else if radius == 6 {
        335
    } else if radius == 7 {
        512
    } else if radius == 8 {
        405
    } else if radius == 9 {
        328
    } else if radius == 10 {
        271
    } else if radius == 11 {
        456
    } else if radius == 12 {
        388
    } else if radius == 13 {
        335
    } else if radius == 14 {
        292
    } else if radius == 15 {
        512
    } else if radius == 16 {
        454
    } else if radius == 17 {
        405
    } else if radius == 18 {
        364
    } else if radius == 19 {
        328
    } else if radius == 20 {
        298
    } else if radius == 21 {
        271
    } else if radius == 22 {
        496
    } else if radius == 23 {
        456
    } else if radius == 24 {
        420
    } else if radius == 25 {
        388
    } else if radius == 26 {
        360
    } else if radius == 27 {
        335
    } else if radius == 28 {
        312
    } else if radius == 29 {
        292
    } else if radius == 30 {
        273
    } else if radius == 31 {
        512
    } else if radius == 32 {
        482
    } else if radius == 33 {
        454
    } else if radius == 34 {
        428
    } else if radius == 35 {
        405
    } else if radius == 36 {
        383
    } else if radius == 37 {
        364
    } else if radius == 38 {
        345
    } else if radius == 39 {
        328
    } else if radius == 40 {
        312
    } else if radius == 41 {
        298
    } else if radius == 42 {
        284
    } else if radius == 43 {
        271
    } else if radius == 44 {
        259
    } else if radius == 45 {
        496
    } else if radius == 46 {
        475
    } else if radius == 47 {
        456
    } else if radius == 48 {
        437
    } else if radius == 49 {
        420
    } else if radius == 50 {
        404
    } else if radius == 51 {
        388
    } else if radius == 52 {
        374
    } else if radius == 53 {
        360
    } else if radius == 54 {
        347
    } else if radius == 55 {
        335
    } else if radius == 56 {
        323
    } else if radius == 57 {
        312
    } else if radius == 58 {
        302
    } else if radius == 59 {
        292
    } else if radius == 60 {
        282
    } else if radius == 61 {
        273
    } else if radius == 62 {
        265
    } else {
        512
    }
}

fn mul_lookup_b(radius: u32) -> (m: u32)
    requires
        64 <= radius <= 127,
    ensures
        m as int == mul_entry_b(radius as int),
{
    if radius == 64 {
        497
    } else if radius == 65 {
        482
    } else if radius == 66 {
        468
    } else if radius == 67 {
        454
    } else if radius == 68 {
        441
    } else if radius == 69 {
        428
    } else if radius == 70 {
        417
    } else if radius == 71 {
        405
    } else if radius == 72 {
        394
    } else if radius == 73 {
        383
    } else if radius == 74 {
        373
    } else if radius == 75 {
        364
    } else if radius == 76 {
        354
    } else if radius == 77 {
        345
    } else if radius == 78 {
        337
    } else if radius == 79 {
        328
    } else if radius == 80 {
        320
    } else if radius == 81 {
        312
    } else if radius == 82 {
        305
    } else if radius == 83 {
        298
    } else if radius == 84 {
        291
    } else if radius == 85 {
        284
    } else if radius == 86 {
        278
    } else if radius == 87 {
        271
    } else if radius == 88 {
        265
    } else if radius == 89 {
        259
    } else if radius == 90 {
        507
    } else if radius == 91 {
        496
    } else if radius == 92 {
        485
    } else if radius == 93 {
        475
    } else if radius == 94 {
        465
    } else if radius == 95 {
        456
    } else if radius == 96 {
        446
    } else if radius == 97 {
        437
    } else if radius == 98 {
        428
    } else if radius == 99 {
        420
    } else if radius == 100 {
        412
    } else if radius == 101 {
        404
    } else if radius == 102 {
        396
    } else if radius == 103 {
        388
    } else if radius == 104 {
        381
    } else if radius == 105 {
        374
    } else if radius == 106 {
        367
    } else if radius == 107 {
        360
    } else if radius == 108 {
        354
    } else if radius == 109 {
        347
    } else if radius == 110 {
        341
    } else if radius == 111 {
        335
    } else if radius == 112 {
        329
    } else if radius == 113 {
        323
    } else if radius == 114 {
        318
    } else if radius == 115 {
        312
    } else if radius == 116 {
        307
    } else if radius == 117 {
        302
    } else if radius == 118 {
        297
    } else if radius == 119 {
        292
    } else if radius == 120 {
        287
    } else if radius == 121 {
        282
    } else if radius == 122 {
        278
    } else if radius == 123 {
        273
    } else if radius == 124 {
        269
    } else if radius == 125 {
        265
    } else if radius == 126 {
        261
    } else {
        512
    }
}

fn mul_lookup_c(radius: u32) -> (m: u32)
    requires
        128 <= radius <= 191,
    ensures
        m as int == mul_entry_c(radius as int),
{
    if radius == 128 {
        505
    } else if radius == 129 {
        497
    } else if radius == 130 {
        489
    } else if radius == 131 {
        482
    } else if radius == 132 {
        475
    } else if radius == 133 {
        468
    } else if radius == 134 {
        461
    } else if radius == 135 {
        454
    } else if radius == 136 {
        447
    } else if radius == 137 {
        441
    } else if radius == 138 {
        435
    } else if radius == 139 {
        428
    } else if radius == 140 {
        422
    } else if radius == 141 {
        417
    } else if radius == 142 {
        411
    } else if radius == 143 {
        405
    } else if radius == 144 {
        399
    } else if radius == 145 {
        394
    } else if radius == 146 {
        389
    } else if radius == 147 {
        383
    } else if radius == 148 {
        378
    } else if radius == 149 {
        373
    } else if radius == 150 {
        368
    } else if radius == 151 {
        364
    } else if radius == 152 {
        359
    } else if radius == 153 {
        354
    } else if radius == 154 {
        350
    } else if radius == 155 {
        345
    } else if radius == 156 {
        341
    } else if radius == 157 {
        337
    } else if radius == 158 {
        332
    } else if radius == 159 {
        328
    } else if radius == 160 {
        324
    } else if radius == 161 {
        320
    } else if radius == 162 {
        316
    } else if radius == 163 {
        312
    } else if radius == 164 {
        309
    } else if radius == 165 {
        305
    } else if radius == 166 {
        301
    } else if radius == 167 {
        298
    } else if radius == 168 {
        294
    } else if radius == 169 {
        291
    } else if radius == 170 {
        287
    } else if radius == 171 {
        284
    } else if radius == 172 {
        281
    } else if radius == 173 {
        278
    } else if radius == 174 {
        274
    } else if radius == 175 {
        271
    } else if radius == 176 {
        268
    } else if radius == 177 {
        265
    } else if radius == 178 {
        262
    } else if radius == 179 {
        259
    } else if radius == 180 {
        257
    } else if radius == 181 {
        507
    } else if radius == 182 {
        501
    } else if radius == 183 {
        496
    } else if radius == 184 {
        491
    } else if radius == 185 {
        485
    } else if radius == 186 {
        480
    } else if radius == 187 {
        475
    } else if radius == 188 {
        470
    } else if radius == 189 {
        465
    } else if radius == 190 {
        460
    } else {
        456
    }
}

fn mul_lookup_d(radius: u32) -> (m: u32)
    requires
        192 <= radius <= 255,
    ensures
        m as int == mul_entry_d(radius as int),
{
    if radius == 192 {
        451
    } else if radius == 193 {
        446
    } else if radius == 194 {
        442
    } else if radius == 195 {
        437
    } else if radius == 196 {
        433
    } else if radius == 197 {
        428
    } else if radius == 198 {
        424
    } else if radius == 199 {
        420
    } else if radius == 200 {
        416
    } else if radius == 201 {
        412
    } else if radius == 202 {
        408
    } else if radius == 203 {
        404
    } else if radius == 204 {
        400
    } else if radius == 205 {
        396
    } else if radius == 206 {
        392
    } else if radius == 207 {
        388
    } else if radius == 208 {
        385
    } else if radius == 209 {
        381
    } else if radius == 210 {
        377
    } else if radius == 211 {
        374
    } else if radius == 212 {
        370
    } else if radius == 213 {
        367
    } else if radius == 214 {
        363
    } else if radius == 215 {
        360
    } else if radius == 216 {
        357
    } else if radius == 217 {
        354
    } else if radius == 218 {
        350
    } else if radius == 219 {
        347
    } else if radius == 220 {
        344
    } else if radius == 221 {
        341
    } else if radius == 222 {
        338
    } else if radius == 223 {
        335
    } else if radius == 224 {
        332
    } else if radius == 225 {
        329
    } else if radius == 226 {
        326
    } else if radius == 227 {
        323
    } else if radius == 228 {
        320
    } else if radius == 229 {
        318
    } else if radius == 230 {
        315
    } else if radius == 231 {
        312
    } else if radius == 232 {
        310
    } else if radius == 233 {
        307
    } else if radius == 234 {
        304
    } else if radius == 235 {
        302
    } else if radius == 236 {
        299
    } else if radius == 237 {
        297
    } else if radius == 238 {
        294
    } else if radius == 239 {
        292
    } else if radius == 240 {
        289
    } else if radius == 241 {
        287
    } else if radius == 242 {
        285
    } else if radius == 243 {
        282
    } else if radius == 244 {
        280
    } else if radius == 245 {
        278
    } else if radius == 246 {
        275
    } else if radius == 247 {
        273
    } else if radius == 248 {
        271
    } else if radius == 249 {
        269
    } else if radius == 250 {
        267
    } else if radius == 251 {
        265
    } else if radius == 252 {
        263
    } else if radius == 253 {
        261
    } else if radius == 254 {
        259
    } else {
        257
    }
}

/// The multiplier table, as executable code.
pub(crate) fn mul_lookup(radius: u32) -> (m: u32)
    requires
        radius <= 255,
    ensures
        m as int == mul_entry(radius as int),
{
    if radius < 64 {
        mul_lookup_a(radius)
    } else if radius < 128 {
        mul_lookup_b(radius)
    } else if radius < 192 {
        mul_lookup_c(radius)
    } else {
        mul_lookup_d(radius)
    }
}

/// The shift table, as executable code.
pub(crate) fn shg_lookup(radius: u32) -> (s: u32)
    requires
        radius <= 255,
    ensures
        s as int == shg_entry(radius as int),
{
    if radius <= 0 {
        9
    } else if radius <= 1 {
        11
    } else if radius <= 2 {
        12
    } else if radius <= 4 {
        13
    } else if radius <= 6 {
        14
    } else if radius <= 10 {
        15
    } else if radius <= 14 {
        16
    } else if radius <= 21 {
        17
    } else if radius <= 30 {
        18
    } else if radius <= 44 {
        19
    } else if radius <= 62 {
        20
    } else if radius <= 89 {
        21
    } else if radius <= 126 {
        22
    } else if radius <= 180 {
        23
    } else if radius <= 255 {
        24
    } else {
        24
    }
}

proof fn lemma_table_ok_a(r: int)
    requires
        0 <= r <= 63,
    ensures
        257 <= mul_entry(r) <= 512,
        9 <= shg_entry(r) <= 24,
        512 <= pow2s(shg_entry(r)),
        pow2s(shg_entry(r)) <= (r + 1) * (r + 1) * mul_entry(r),
        255 * ((r + 1) * (r + 1) * mul_entry(r)) < 256 * pow2s(shg_entry(r)),
{
    if r == 0 {
        assert(mul_entry(0) == 512 && shg_entry(0) == 9 && pow2s(9) == 512);
        assert((r + 1) * (r + 1) * mul_entry(r) == 512) by (nonlinear_arith)
            requires
                r == 0,
                mul_entry(r) == 512,
        ;
    } else if r == 1 {
        assert(mul_entry(1) == 512 && shg_entry(1) == 11 && pow2s(11) == 2048);
        assert((r + 1) * (r + 1) * mul_entry(r) == 2048) by (nonlinear_arith)
            requires
                r == 1,
                mul_entry(r) == 512,
        ;
    } else if r == 2 {
        assert(mul_entry(2) == 456 && shg_entry(2) == 12 && pow2s(12) == 4096);
        assert((r + 1) * (r + 1) * mul_entry(r) == 4104) by (nonlinear_arith)
            requires
                r == 2,
                mul_entry(r) == 456,
        ;
    } else if r == 3 {
        assert(mul_entry(3) == 512 && shg_entry(3) == 13 && pow2s(13) == 8192);
        assert((r + 1) * (r + 1) * mul_entry(r) == 8192) by (nonlinear_arith)
            requires
                r == 3,
                mul_entry(r) == 512,
        ;
    } else if r == 4 {
        assert(mul_entry(4) == 328 && shg_entry(4) == 13 && pow2s(13) == 8192);
        assert((r + 1) * (r + 1) * mul_entry(r) == 8200) by (nonlinear_arith)
            requires
                r == 4,
                mul_entry(r) == 328,
        ;
    } else if r == 5 {
        assert(mul_entry(5) == 456 && shg_entry(5) == 14 && pow2s(14) == 16384);
        assert((r + 1) * (r + 1) * mul_entry(r) == 16416) by (nonlinear_arith)
            requires
                r == 5,
                mul_entry(r) == 456,
        ;
    } else if r == 6 {
        assert(mul_entry(6) == 335 && shg_entry(6) == 14 && pow2s(14) == 16384);
        assert((r + 1) * (r + 1) * mul_entry(r) == 16415) by (nonlinear_arith)
            requires
                r == 6,
                mul_entry(r) == 335,
        ;
    } else if r == 7 {
        assert(mul_entry(7) == 512 && shg_entry(7) == 15 && pow2s(15) == 32768);
        assert((r + 1) * (r + 1) * mul_entry(r) == 32768) by (nonlinear_arith)
            requires
                r == 7,
                mul_entry(r) == 512,
        ;
    } else if r == 8 {
        assert(mul_entry(8) == 405 && shg_entry(8) == 15 && pow2s(15) == 32768);
        assert((r + 1) * (r + 1) * mul_entry(r) == 32805) by (nonlinear_arith)
            requires
                r == 8,
                mul_entry(r) == 405,
        ;
    } else if r == 9 {
        assert(mul_entry(9) == 328 && shg_entry(9) == 15 && pow2s(15) == 32768);
        assert((r + 1) * (r + 1) * mul_entry(r) == 32800) by (nonlinear_arith)
            requires
                r == 9,
                mul_entry(r) == 328,
        ;
    } else if r == 10 {
        assert(mul_entry(10) == 271 && shg_entry(10) == 15 && pow2s(15) == 32768);
        assert((r + 1) * (r + 1) * mul_entry(r) == 32791) by (nonlinear_arith)
            requires
                r == 10,
                mul_entry(r) == 271,
        ;
    } else if r == 11 {
        assert(mul_entry(11) == 456 && shg_entry(11) == 16 && pow2s(16) == 65536);
        assert((r + 1) * (r + 1) * mul_entry(r) == 65664) by (nonlinear_arith)
            requires
                r == 11,
                mul_entry(r) == 456,
        ;
    } else if r == 12 {
        assert(mul_entry(12) == 388 && shg_entry(12) == 16 && pow2s(16) == 65536);
        assert((r + 1) * (r + 1) * mul_entry(r) == 65572) by (nonlinear_arith)
            requires
                r == 12,
                mul_entry(r) == 388,
        ;
    } else if r == 13 {
        assert(mul_entry(13) == 335 && shg_entry(13) == 16 && pow2s(16) == 65536);
        assert((r + 1) * (r + 1) * mul_entry(r) == 65660) by (nonlinear_arith)
            requires
                r == 13,
                mul_entry(r) == 335,
        ;
    } else if r == 14 {
        assert(mul_entry(14) == 292 && shg_entry(14) == 16 && pow2s(16) == 65536);
        assert((r + 1) * (r + 1) * mul_entry(r) == 65700) by (nonlinear_arith)
            requires
                r == 14,
                mul_entry(r) == 292,
        ;
    } else if r == 15 {
        assert(mul_entry(15) == 512 && shg_entry(15) == 17 && pow2s(17) == 131072);
        assert((r + 1) * (r + 1) * mul_entry(r) == 131072) by (nonlinear_arith)
            requires
                r == 15,
                mul_entry(r) == 512,
        ;
    } else if r == 16 {
        assert(mul_entry(16) == 454 && shg_entry(16) == 17 && pow2s(17) == 131072);
        assert((r + 1) * (r + 1) * mul_entry(r) == 131206) by (nonlinear_arith)
            requires
                r == 16,
                mul_entry(r) == 454,
        ;
    } else if r == 17 {
        assert(mul_entry(17) == 405 && shg_entry(17) == 17 && pow2s(17) == 131072);
        assert((r + 1) * (r + 1) * mul_entry(r) == 131220) by (nonlinear_arith)
            requires
                r == 17,
                mul_entry(r) == 405,
        ;
    } else if r == 18 {
        assert(mul_entry(18) == 364 && shg_entry(18) == 17 && pow2s(17) == 131072);
        assert((r + 1) * (r + 1) * mul_entry(r) == 131404) by (nonlinear_arith)
            requires
                r == 18,
                mul_entry(r) == 364,
        ;
    } else if r == 19 {
        assert(mul_entry(19) == 328 && shg_entry(19) == 17 && pow2s(17) == 131072);
        assert((r + 1) * (r + 1) * mul_entry(r) == 131200) by (nonlinear_arith)
            requires
                r == 19,
                mul_entry(r) == 328,
        ;
    } else if r == 20 {
        assert(mul_entry(20) == 298 && shg_entry(20) == 17 && pow2s(17) == 131072);
        assert((r + 1) * (r + 1) * mul_entry(r) == 131418) by (nonlinear_arith)
            requires
                r == 20,
                mul_entry(r) == 298,
        ;
    } else if r == 21 {
        assert(mul_entry(21) == 271 && shg_entry(21) == 17 && pow2s(17) == 131072);
        assert((r + 1) * (r + 1) * mul_entry(r) == 131164) by (nonlinear_arith)
            requires
                r == 21,
                mul_entry(r) == 271,
        ;
    } else if r == 22 {
        assert(mul_entry(22) == 496 && shg_entry(22) == 18 && pow2s(18) == 262144);
        assert((r + 1) * (r + 1) * mul_entry(r) == 262384) by (nonlinear_arith)
            requires
                r == 22,
                mul_entry(r) == 496,
        ;
    } else if r == 23 {
        assert(mul_entry(23) == 456 && shg_entry(23) == 18 && pow2s(18) == 262144);
        assert((r + 1) * (r + 1) * mul_entry(r) == 262656) by (nonlinear_arith)
            requires
                r == 23,
                mul_entry(r) == 456,
        ;
    } else if r == 24 {
        assert(mul_entry(24) == 420 && shg_entry(24) == 18 && pow2s(18) == 262144);
        assert((r + 1) * (r + 1) * mul_entry(r) == 262500) by (nonlinear_arith)
            requires
                r == 24,
                mul_entry(r) == 420,
        ;
    } else if r == 25 {
        assert(mul_entry(25) == 388 && shg_entry(25) == 18 && pow2s(18) == 262144);
        assert((r + 1) * (r + 1) * mul_entry(r) == 262288) by (nonlinear_arith)
            requires
                r == 25,
                mul_entry(r) == 388,
        ;
    } else if r == 26 {
        assert(mul_entry(26) == 360 && shg_entry(26) == 18 && pow2s(18) == 262144);
        assert((r + 1) * (r + 1) * mul_entry(r) == 262440) by (nonlinear_arith)
            requires
                r == 26,
                mul_entry(r) == 360,
        ;
    } else if r == 27 {
        assert(mul_entry(27) == 335 && shg_entry(27) == 18 && pow2s(18) == 262144);
        assert((r + 1) * (r + 1) * mul_entry(r) == 262640) by (nonlinear_arith)
            requires
                r == 27,
                mul_entry(r) == 335,
        ;
    } else if r == 28 {
        assert(mul_entry(28) == 312 && shg_entry(28) == 18 && pow2s(18) == 262144);
        assert((r + 1) * (r + 1) * mul_entry(r) == 262392) by (nonlinear_arith)
            requires
                r == 28,
                mul_entry(r) == 312,
        ;
    } else if r == 29 {
        assert(mul_entry(29) == 292 && shg_entry(29) == 18 && pow2s(18) == 262144);
        assert((r + 1) * (r + 1) * mul_entry(r) == 262800) by (nonlinear_arith)
            requires
                r == 29,
                mul_entry(r) == 292,
        ;
    } else if r == 30 {
        assert(mul_entry(30) == 273 && shg_entry(30) == 18 && pow2s(18) == 262144);
        assert((r + 1) * (r + 1) * mul_entry(r) == 262353) by (nonlinear_arith)
            requires
                r == 30,
                mul_entry(r) == 273,
        ;
    } else if r == 31 {
        assert(mul_entry(31) == 512 && shg_entry(31) == 19 && pow2s(19) == 524288);
        assert((r + 1) * (r + 1) * mul_entry(r) == 524288) by (nonlinear_arith)
            requires
                r == 31,
                mul_entry(r) == 512,
        ;
    } else if r == 32 {
        assert(mul_entry(32) == 482 && shg_entry(32) == 19 && pow2s(19) == 524288);
        assert((r + 1) * (r + 1) * mul_entry(r) == 524898) by (nonlinear_arith)
            requires
                r == 32,
                mul_entry(r) == 482,
        ;
    } else if r == 33 {
        assert(mul_entry(33) == 454 && shg_entry(33) == 19 && pow2s(19) == 524288);
        assert((r + 1) * (r + 1) * mul_entry(r) == 524824) by (nonlinear_arith)
            requires
                r == 33,
                mul_entry(r) == 454,
        ;
    } else if r == 34 {
        assert(mul_entry(34) == 428 && shg_entry(34) == 19 && pow2s(19) == 524288);
        assert((r + 1) * (r + 1) * mul_entry(r) == 524300) by (nonlinear_arith)
            requires
                r == 34,
                mul_entry(r) == 428,
        ;
    } else if r == 35 {
        assert(mul_entry(35) == 405 && shg_entry(35) == 19 && pow2s(19) == 524288);
        assert((r + 1) * (r + 1) * mul_entry(r) == 524880) by (nonlinear_arith)
            requires
                r == 35,
                mul_entry(r) == 405,
        ;
    } else if r == 36 {
        assert(mul_entry(36) == 383 && shg_entry(36) == 19 && pow2s(19) == 524288);
        assert((r + 1) * (r + 1) * mul_entry(r) == 524327) by (nonlinear_arith)
            requires
                r == 36,
                mul_entry(r) == 383,
        ;
    } else if r == 37 {
        assert(mul_entry(37) == 364 && shg_entry(37) == 19 && pow2s(19) == 524288);
        assert((r + 1) * (r + 1) * mul_entry(r) == 525616) by (nonlinear_arith)
            requires
                r == 37,
                mul_entry(r) == 364,
        ;
    } else if r == 38 {
        assert(mul_entry(38) == 345 && shg_entry(38) == 19 && pow2s(19) == 524288);
        assert((r + 1) * (r + 1) * mul_entry(r) == 524745) by (nonlinear_arith)
            requires
                r == 38,
                mul_entry(r) == 345,
        ;
    } else if r == 39 {
        assert(mul_entry(39) == 328 && shg_entry(39) == 19 && pow2s(19) == 524288);
        assert((r + 1) * (r + 1) * mul_entry(r) == 524800) by (nonlinear_arith)
            requires
                r == 39,
                mul_entry(r) == 328,
        ;
    } else if r == 40 {
        assert(mul_entry(40) == 312 && shg_entry(40) == 19 && pow2s(19) == 524288);
        assert((r + 1) * (r + 1) * mul_entry(r) == 524472) by (nonlinear_arith)
            requires
                r == 40,
                mul_entry(r) == 312,
        ;
    } else if r == 41 {
        assert(mul_entry(41) == 298 && shg_entry(41) == 19 && pow2s(19) == 524288);
        assert((r + 1) * (r + 1) * mul_entry(r) == 525672) by (nonlinear_arith)
            requires
                r == 41,
                mul_entry(r) == 298,
        ;
    } else if r == 42 {
        assert(mul_entry(42) == 284 && shg_entry(42) == 19 && pow2s(19) == 524288);
        assert((r + 1) * (r + 1) * mul_entry(r) == 525116) by (nonlinear_arith)
            requires
                r == 42,
                mul_entry(r) == 284,
        ;
    } else if r == 43 {
        assert(mul_entry(43) == 271 && shg_entry(43) == 19 && pow2s(19) == 524288);
        assert((r + 1) * (r + 1) * mul_entry(r) == 524656) by (nonlinear_arith)
            requires
                r == 43,
                mul_entry(r) == 271,
        ;
    } else if r == 44 {
        assert(mul_entry(44) == 259 && shg_entry(44) == 19 && pow2s(19) == 524288);
        assert((r + 1) * (r + 1) * mul_entry(r) == 524475) by (nonlinear_arith)
            requires
                r == 44,
                mul_entry(r) == 259,
        ;
    } else if r == 45 {
        assert(mul_entry(45) == 496 && shg_entry(45) == 20 && pow2s(20) == 1048576);
        assert((r + 1) * (r + 1) * mul_entry(r) == 1049536) by (nonlinear_arith)
            requires
                r == 45,
                mul_entry(r) == 496,
        ;
    } else if r == 46 {
        assert(mul_entry(46) == 475 && shg_entry(46) == 20 && pow2s(20) == 1048576);
        assert((r + 1) * (r + 1) * mul_entry(r) == 1049275) by (nonlinear_arith)
            requires
                r == 46,
                mul_entry(r) == 475,
        ;
    } else if r == 47 {
        assert(mul_entry(47) == 456 && shg_entry(47) == 20 && pow2s(20) == 1048576);
        assert((r + 1) * (r + 1) * mul_entry(r) == 1050624) by (nonlinear_arith)
            requires
                r == 47,
                mul_entry(r) == 456,
        ;
    } else if r == 48 {
        assert(mul_entry(48) == 437 && shg_entry(48) == 20 && pow2s(20) == 1048576);
        assert((r + 1) * (r + 1) * mul_entry(r) == 1049237) by (nonlinear_arith)
            requires
                r == 48,
                mul_entry(r) == 437,
        ;
    } else if r == 49 {
        assert(mul_entry(49) == 420 && shg_entry(49) == 20 && pow2s(20) == 1048576);
        assert((r + 1) * (r + 1) * mul_entry(r) == 1050000) by (nonlinear_arith)
            requires
                r == 49,
                mul_entry(r) == 420,
        ;
    } else if r == 50 {
        assert(mul_entry(50) == 404 && shg_entry(50) == 20 && pow2s(20) == 1048576);
        assert((r + 1) * (r + 1) * mul_entry(r) == 1050804) by (nonlinear_arith)
            requires
                r == 50,
                mul_entry(r) == 404,
        ;
    } else if r == 51 {
        assert(mul_entry(51) == 388 && shg_entry(51) == 20 && pow2s(20) == 1048576);
        assert((r + 1) * (r + 1) * mul_entry(r) == 1049152) by (nonlinear_arith)
            requires
                r == 51,
                mul_entry(r) == 388,
        ;
    } else if r == 52 {
        assert(mul_entry(52) == 374 && shg_entry(52) == 20 && pow2s(20) == 1048576);
        assert((r + 1) * (r + 1) * mul_entry(r) == 1050566) by (nonlinear_arith)
            requires
                r == 52,
                mul_entry(r) == 374,
        ;
    } else if r == 53 {
        assert(mul_entry(53) == 360 && shg_entry(53) == 20 && pow2s(20) == 1048576);
        assert((r + 1) * (r + 1) * mul_entry(r) == 1049760) by (nonlinear_arith)
            requires
                r == 53,
                mul_entry(r) == 360,
        ;
    } else if r == 54 {
        assert(mul_entry(54) == 347 && shg_entry(54) == 20 && pow2s(20) == 1048576);
        assert((r + 1) * (r + 1) * mul_entry(r) == 1049675) by (nonlinear_arith)
            requires
                r == 54,
                mul_entry(r) == 347,
        ;
    } else if r == 55 {
        assert(mul_entry(55) == 335 && shg_entry(55) == 20 && pow2s(20) == 1048576);
        assert((r + 1) * (r + 1) * mul_entry(r) == 1050560) by (nonlinear_arith)
            requires
                r == 55,
                mul_entry(r) == 335,
        ;
    } else if r == 56 {
        assert(mul_entry(56) == 323 && shg_entry(56) == 20 && pow2s(20) == 1048576);
        assert((r + 1) * (r + 1) * mul_entry(r) == 1049427) by (nonlinear_arith)
            requires
                r == 56,
                mul_entry(r) == 323,
        ;
    } else if r == 57 {
        assert(mul_entry(57) == 312 && shg_entry(57) == 20 && pow2s(20) == 1048576);
        assert((r + 1) * (r + 1) * mul_entry(r) == 1049568) by (nonlinear_arith)
            requires
                r == 57,
                mul_entry(r) == 312,
        ;
    } else if r == 58 {
        assert(mul_entry(58) == 302 && shg_entry(58) == 20 && pow2s(20) == 1048576);
        assert((r + 1) * (r + 1) * mul_entry(r) == 1051262) by (nonlinear_arith)
            requires
                r == 58,
                mul_entry(r) == 302,
        ;
    } else if r == 59 {
        assert(mul_entry(59) == 292 && shg_entry(59) == 20 && pow2s(20) == 1048576);
        assert((r + 1) * (r + 1) * mul_entry(r) == 1051200) by (nonlinear_arith)
            requires
                r == 59,
                mul_entry(r) == 292,
        ;
    } else if r == 60 {
        assert(mul_entry(60) == 282 && shg_entry(60) == 20 && pow2s(20) == 1048576);
        assert((r + 1) * (r + 1) * mul_entry(r) == 1049322) by (nonlinear_arith)
            requires
                r == 60,
                mul_entry(r) == 282,
        ;
    } else if r == 61 {
        assert(mul_entry(61) == 273 && shg_entry(61) == 20 && pow2s(20) == 1048576);
        assert((r + 1) * (r + 1) * mul_entry(r) == 1049412) by (nonlinear_arith)
            requires
                r == 61,
                mul_entry(r) == 273,
        ;
    } else if r == 62 {
        assert(mul_entry(62) == 265 && shg_entry(62) == 20 && pow2s(20) == 1048576);
        assert((r + 1) * (r + 1) * mul_entry(r) == 1051785) by (nonlinear_arith)
            requires
                r == 62,
                mul_entry(r) == 265,
        ;
    } else if r == 63 {
        assert(mul_entry(63) == 512 && shg_entry(63) == 21 && pow2s(21) == 2097152);
        assert((r + 1) * (r + 1) * mul_entry(r) == 2097152) by (nonlinear_arith)
            requires
                r == 63,
                mul_entry(r) == 512,
        ;
    }
}

proof fn lemma_table_ok_b(r: int)
    requires
        64 <= r <= 127,
    ensures
        257 <= mul_entry(r) <= 512,
        9 <= shg_entry(r) <= 24,
        512 <= pow2s(shg_entry(r)),
        pow2s(shg_entry(r)) <= (r + 1) * (r + 1) * mul_entry(r),
        255 * ((r + 1) * (r + 1) * mul_entry(r)) < 256 * pow2s(shg_entry(r)),
{
    if r == 64 {
        assert(mul_entry(64) == 497 && shg_entry(64) == 21 && pow2s(21) == 2097152);
        assert((r + 1) * (r + 1) * mul_entry(r) == 2099825) by (nonlinear_arith)
            requires
                r == 64,
                mul_entry(r) == 497,
        ;
    } else if r == 65 {
        assert(mul_entry(65) == 482 && shg_entry(65) == 21 && pow2s(21) == 2097152);
        assert((r + 1) * (r + 1) * mul_entry(r) == 2099592) by (nonlinear_arith)
            requires
                r == 65,
                mul_entry(r) == 482,
        ;
    } else if r == 66 {
        assert(mul_entry(66) == 468 && shg_entry(66) == 21 && pow2s(21) == 2097152);
        assert((r + 1) * (r + 1) * mul_entry(r) == 2100852) by (nonlinear_arith)
            requires
                r == 66,
                mul_entry(r) == 468,
        ;
    } else if r == 67 {
        assert(mul_entry(67) == 454 && shg_entry(67) == 21 && pow2s(21) == 2097152);
        assert((r + 1) * (r + 1) * mul_entry(r) == 2099296) by (nonlinear_arith)
            requires
                r == 67,
                mul_entry(r) == 454,
        ;
    } else if r == 68 {
        assert(mul_entry(68) == 441 && shg_entry(68) == 21 && pow2s(21) == 2097152);
        assert((r + 1) * (r + 1) * mul_entry(r) == 2099601) by (nonlinear_arith)
            requires
                r == 68,
                mul_entry(r) == 441,
        ;
    } else if r == 69 {
        assert(mul_entry(69) == 428 && shg_entry(69) == 21 && pow2s(21) == 2097152);
        assert((r + 1) * (r + 1) * mul_entry(r) == 2097200) by (nonlinear_arith)
            requires
                r == 69,
                mul_entry(r) == 428,
        ;
    } else if r == 70 {
        assert(mul_entry(70) == 417 && shg_entry(70) == 21 && pow2s(21) == 2097152);
        assert((r + 1) * (r + 1) * mul_entry(r) == 2102097) by (nonlinear_arith)
            requires
                r == 70,
                mul_entry(r) == 417,
        ;
    } else if r == 71 {
        assert(mul_entry(71) == 405 && shg_entry(71) == 21 && pow2s(21) == 2097152);
        assert((r + 1) * (r + 1) * mul_entry(r) == 2099520) by (nonlinear_arith)
            requires
                r == 71,
                mul_entry(r) == 405,
        ;
    } else if r == 72 {
        assert(mul_entry(72) == 394 && shg_entry(72) == 21 && pow2s(21) == 2097152);
        assert((r + 1) * (r + 1) * mul_entry(r) == 2099626) by (nonlinear_arith)
            requires
                r == 72,
                mul_entry(r) == 394,
        ;
    } else if r == 73 {
        assert(mul_entry(73) == 383 && shg_entry(73) == 21 && pow2s(21) == 2097152);
        assert((r + 1) * (r + 1) * mul_entry(r) == 2097308) by (nonlinear_arith)
            requires
                r == 73,
                mul_entry(r) == 383,
        ;
    } else if r == 74 {
        assert(mul_entry(74) == 373 && shg_entry(74) == 21 && pow2s(21) == 2097152);
        assert((r + 1) * (r + 1) * mul_entry(r) == 2098125) by (nonlinear_arith)
            requires
                r == 74,
                mul_entry(r) == 373,
        ;
    } else if r == 75 {
        assert(mul_entry(75) == 364 && shg_entry(75) == 21 && pow2s(21) == 2097152);
        assert((r + 1) * (r + 1) * mul_entry(r) == 2102464) by (nonlinear_arith)
            requires
                r == 75,
                mul_entry(r) == 364,
        ;
    } else if r == 76 {
        assert(mul_entry(76) == 354 && shg_entry(76) == 21 && pow2s(21) == 2097152);
        assert((r + 1) * (r + 1) * mul_entry(r) == 2098866) by (nonlinear_arith)
            requires
                r == 76,
                mul_entry(r) == 354,
        ;
    } else if r == 77 {
        assert(mul_entry(77) == 345 && shg_entry(77) == 21 && pow2s(21) == 2097152);
        assert((r + 1) * (r + 1) * mul_entry(r) == 2098980) by (nonlinear_arith)
            requires
                r == 77,
                mul_entry(r) == 345,
        ;
    } else if r == 78 {
        assert(mul_entry(78) == 337 && shg_entry(78) == 21 && pow2s(21) == 2097152);
        assert((r + 1) * (r + 1) * mul_entry(r) == 2103217) by (nonlinear_arith)
            requires
                r == 78,
                mul_entry(r) == 337,
        ;
    } else if r == 79 {
        assert(mul_entry(79) == 328 && shg_entry(79) == 21 && pow2s(21) == 2097152);
        assert((r + 1) * (r + 1) * mul_entry(r) == 2099200) by (nonlinear_arith)
            requires
                r == 79,
                mul_entry(r) == 328,
        ;
    } else if r == 80 {
        assert(mul_entry(80) == 320 && shg_entry(80) == 21 && pow2s(21) == 2097152);
        assert((r + 1) * (r + 1) * mul_entry(r) == 2099520) by (nonlinear_arith)
            requires
                r == 80,
                mul_entry(r) == 320,
        ;
    } else if r == 81 {
        assert(mul_entry(81) == 312 && shg_entry(81) == 21 && pow2s(21) == 2097152);
        assert((r + 1) * (r + 1) * mul_entry(r) == 2097888) by (nonlinear_arith)
            requires
                r == 81,
                mul_entry(r) == 312,
        ;
    } else if r == 82 {
        assert(mul_entry(82) == 305 && shg_entry(82) == 21 && pow2s(21) == 2097152);
        assert((r + 1) * (r + 1) * mul_entry(r) == 2101145) by (nonlinear_arith)
            requires
                r == 82,
                mul_entry(r) == 305,
        ;
    } else if r == 83 {
        assert(mul_entry(83) == 298 && shg_entry(83) == 21 && pow2s(21) == 2097152);
        assert((r + 1) * (r + 1) * mul_entry(r) == 2102688) by (nonlinear_arith)
            requires
                r == 83,
                mul_entry(r) == 298,
        ;
    } else if r == 84 {
        assert(mul_entry(84) == 291 && shg_entry(84) == 21 && pow2s(21) == 2097152);
        assert((r + 1) * (r + 1) * mul_entry(r) == 2102475) by (nonlinear_arith)
            requires
                r == 84,
                mul_entry(r) == 291,
        ;
    } else if r == 85 {
        assert(mul_entry(85) == 284 && shg_entry(85) == 21 && pow2s(21) == 2097152);
        assert((r + 1) * (r + 1) * mul_entry(r) == 2100464) by (nonlinear_arith)
            requires
                r == 85,
                mul_entry(r) == 284,
        ;
    } else if r == 86 {
        assert(mul_entry(86) == 278 && shg_entry(86) == 21 && pow2s(21) == 2097152);
        assert((r + 1) * (r + 1) * mul_entry(r) == 2104182) by (nonlinear_arith)
            requires
                r == 86,
                mul_entry(r) == 278,
        ;
    } else if r == 87 {
        assert(mul_entry(87) == 271 && shg_entry(87) == 21 && pow2s(21) == 2097152);
        assert((r + 1) * (r + 1) * mul_entry(r) == 2098624) by (nonlinear_arith)
            requires
                r == 87,
                mul_entry(r) == 271,
        ;
    } else if r == 88 {
        assert(mul_entry(88) == 265 && shg_entry(88) == 21 && pow2s(21) == 2097152);
        assert((r + 1) * (r + 1) * mul_entry(r) == 2099065) by (nonlinear_arith)
            requires
                r == 88,
                mul_entry(r) == 265,
        ;
    } else if r == 89 {
        assert(mul_entry(89) == 259 && shg_entry(89) == 21 && pow2s(21) == 2097152);
        assert((r + 1) * (r + 1) * mul_entry(r) == 2097900) by (nonlinear_arith)
            requires
                r == 89,
                mul_entry(r) == 259,
        ;
    } else if r == 90 {
        assert(mul_entry(90) == 507 && shg_entry(90) == 22 && pow2s(22) == 4194304);
        assert((r + 1) * (r + 1) * mul_entry(r) == 4198467) by (nonlinear_arith)
            requires
                r == 90,
                mul_entry(r) == 507,
        ;
    } else if r == 91 {
        assert(mul_entry(91) == 496 && shg_entry(91) == 22 && pow2s(22) == 4194304);
        assert((r + 1) * (r + 1) * mul_entry(r) == 4198144) by (nonlinear_arith)
            requires
                r == 91,
                mul_entry(r) == 496,
        ;
    } else if r == 92 {
        assert(mul_entry(92) == 485 && shg_entry(92) == 22 && pow2s(22) == 4194304);
        assert((r + 1) * (r + 1) * mul_entry(r) == 4194765) by (nonlinear_arith)
            requires
                r == 92,
                mul_entry(r) == 485,
        ;
    } else if r == 93 {
        assert(mul_entry(93) == 475 && shg_entry(93) == 22 && pow2s(22) == 4194304);
        assert((r + 1) * (r + 1) * mul_entry(r) == 4197100) by (nonlinear_arith)
            requires
                r == 93,
                mul_entry(r) == 475,
        ;
    } else if r == 94 {
        assert(mul_entry(94) == 465 && shg_entry(94) == 22 && pow2s(22) == 4194304);
        assert((r + 1) * (r + 1) * mul_entry(r) == 4196625) by (nonlinear_arith)
            requires
                r == 94,
                mul_entry(r) == 465,
        ;
    } else if r == 95 {
        assert(mul_entry(95) == 456 && shg_entry(95) == 22 && pow2s(22) == 4194304);
        assert((r + 1) * (r + 1) * mul_entry(r) == 4202496) by (nonlinear_arith)
            requires
                r == 95,
                mul_entry(r) == 456,
        ;
    } else if r == 96 {
        assert(mul_entry(96) == 446 && shg_entry(96) == 22 && pow2s(22) == 4194304);
        assert((r + 1) * (r + 1) * mul_entry(r) == 4196414) by (nonlinear_arith)
            requires
                r == 96,
                mul_entry(r) == 446,
        ;
    } else if r == 97 {
        assert(mul_entry(97) == 437 && shg_entry(97) == 22 && pow2s(22) == 4194304);
        assert((r + 1) * (r + 1) * mul_entry(r) == 4196948) by (nonlinear_arith)
            requires
                r == 97,
                mul_entry(r) == 437,
        ;
    } else if r == 98 {
        assert(mul_entry(98) == 428 && shg_entry(98) == 22 && pow2s(22) == 4194304);
        assert((r + 1) * (r + 1) * mul_entry(r) == 4194828) by (nonlinear_arith)
            requires
                r == 98,
                mul_entry(r) == 428,
        ;
    } else if r == 99 {
        assert(mul_entry(99) == 420 && shg_entry(99) == 22 && pow2s(22) == 4194304);
        assert((r + 1) * (r + 1) * mul_entry(r) == 4200000) by (nonlinear_arith)
            requires
                r == 99,
                mul_entry(r) == 420,
        ;
    } else if r == 100 {
        assert(mul_entry(100) == 412 && shg_entry(100) == 22 && pow2s(22) == 4194304);
        assert((r + 1) * (r + 1) * mul_entry(r) == 4202812) by (nonlinear_arith)
            requires
                r == 100,
                mul_entry(r) == 412,
        ;
    } else if r == 101 {
        assert(mul_entry(101) == 404 && shg_entry(101) == 22 && pow2s(22) == 4194304);
        assert((r + 1) * (r + 1) * mul_entry(r) == 4203216) by (nonlinear_arith)
            requires
                r == 101,
                mul_entry(r) == 404,
        ;
    } else if r == 102 {
        assert(mul_entry(102) == 396 && shg_entry(102) == 22 && pow2s(22) == 4194304);
        assert((r + 1) * (r + 1) * mul_entry(r) == 4201164) by (nonlinear_arith)
            requires
                r == 102,
                mul_entry(r) == 396,
        ;
    } else if r == 103 {
        assert(mul_entry(103) == 388 && shg_entry(103) == 22 && pow2s(22) == 4194304);
        assert((r + 1) * (r + 1) * mul_entry(r) == 4196608) by (nonlinear_arith)
            requires
                r == 103,
                mul_entry(r) == 388,
        ;
    } else if r == 104 {
        assert(mul_entry(104) == 381 && shg_entry(104) == 22 && pow2s(22) == 4194304);
        assert((r + 1) * (r + 1) * mul_entry(r) == 4200525) by (nonlinear_arith)
            requires
                r == 104,
                mul_entry(r) == 381,
        ;
    } else if r == 105 {
        assert(mul_entry(105) == 374 && shg_entry(105) == 22 && pow2s(22) == 4194304);
        assert((r + 1) * (r + 1) * mul_entry(r) == 4202264) by (nonlinear_arith)
            requires
                r == 105,
                mul_entry(r) == 374,
        ;
    } else if r == 106 {
        assert(mul_entry(106) == 367 && shg_entry(106) == 22 && pow2s(22) == 4194304);
        assert((r + 1) * (r + 1) * mul_entry(r) == 4201783) by (nonlinear_arith)
            requires
                r == 106,
                mul_entry(r) == 367,
        ;
    } else if r == 107 {
        assert(mul_entry(107) == 360 && shg_entry(107) == 22 && pow2s(22) == 4194304);
        assert((r + 1) * (r + 1) * mul_entry(r) == 4199040) by (nonlinear_arith)
            requires
                r == 107,
                mul_entry(r) == 360,
        ;
    } else if r == 108 {
        assert(mul_entry(108) == 354 && shg_entry(108) == 22 && pow2s(22) == 4194304);
        assert((r + 1) * (r + 1) * mul_entry(r) == 4205874) by (nonlinear_arith)
            requires
                r == 108,
                mul_entry(r) == 354,
        ;
    } else if r == 109 {
        assert(mul_entry(109) == 347 && shg_entry(109) == 22 && pow2s(22) == 4194304);
        assert((r + 1) * (r + 1) * mul_entry(r) == 4198700) by (nonlinear_arith)
            requires
                r == 109,
                mul_entry(r) == 347,
        ;
    } else if r == 110 {
        assert(mul_entry(110) == 341 && shg_entry(110) == 22 && pow2s(22) == 4194304);
        assert((r + 1) * (r + 1) * mul_entry(r) == 4201461) by (nonlinear_arith)
            requires
                r == 110,
                mul_entry(r) == 341,
        ;
    } else if r == 111 {
        assert(mul_entry(111) == 335 && shg_entry(111) == 22 && pow2s(22) == 4194304);
        assert((r + 1) * (r + 1) * mul_entry(r) == 4202240) by (nonlinear_arith)
            requires
                r == 111,
                mul_entry(r) == 335,
        ;
    } else if r == 112 {
        assert(mul_entry(112) == 329 && shg_entry(112) == 22 && pow2s(22) == 4194304);
        assert((r + 1) * (r + 1) * mul_entry(r) == 4201001) by (nonlinear_arith)
            requires
                r == 112,
                mul_entry(r) == 329,
        ;
    } else if r == 113 {
        assert(mul_entry(113) == 323 && shg_entry(113) == 22 && pow2s(22) == 4194304);
        assert((r + 1) * (r + 1) * mul_entry(r) == 4197708) by (nonlinear_arith)
            requires
                r == 113,
                mul_entry(r) == 323,
        ;
    } else if r == 114 {
        assert(mul_entry(114) == 318 && shg_entry(114) == 22 && pow2s(22) == 4194304);
        assert((r + 1) * (r + 1) * mul_entry(r) == 4205550) by (nonlinear_arith)
            requires
                r == 114,
                mul_entry(r) == 318,
        ;
    } else if r == 115 {
        assert(mul_entry(115) == 312 && shg_entry(115) == 22 && pow2s(22) == 4194304);
        assert((r + 1) * (r + 1) * mul_entry(r) == 4198272) by (nonlinear_arith)
            requires
                r == 115,
                mul_entry(r) == 312,
        ;
    } else if r == 116 {
        assert(mul_entry(116) == 307 && shg_entry(116) == 22 && pow2s(22) == 4194304);
        assert((r + 1) * (r + 1) * mul_entry(r) == 4202523) by (nonlinear_arith)
            requires
                r == 116,
                mul_entry(r) == 307,
        ;
    } else if r == 117 {
        assert(mul_entry(117) == 302 && shg_entry(117) == 22 && pow2s(22) == 4194304);
        assert((r + 1) * (r + 1) * mul_entry(r) == 4205048) by (nonlinear_arith)
            requires
                r == 117,
                mul_entry(r) == 302,
        ;
    } else if r == 118 {
        assert(mul_entry(118) == 297 && shg_entry(118) == 22 && pow2s(22) == 4194304);
        assert((r + 1) * (r + 1) * mul_entry(r) == 4205817) by (nonlinear_arith)
            requires
                r == 118,
                mul_entry(r) == 297,
        ;
    } else if r == 119 {
        assert(mul_entry(119) == 292 && shg_entry(119) == 22 && pow2s(22) == 4194304);
        assert((r + 1) * (r + 1) * mul_entry(r) == 4204800) by (nonlinear_arith)
            requires
                r == 119,
                mul_entry(r) == 292,
        ;
    } else if r == 120 {
        assert(mul_entry(120) == 287 && shg_entry(120) == 22 && pow2s(22) == 4194304);
        assert((r + 1) * (r + 1) * mul_entry(r) == 4201967) by (nonlinear_arith)
            requires
                r == 120,
                mul_entry(r) == 287,
        ;
    } else if r == 121 {
        assert(mul_entry(121) == 282 && shg_entry(121) == 22 && pow2s(22) == 4194304);
        assert((r + 1) * (r + 1) * mul_entry(r) == 4197288) by (nonlinear_arith)
            requires
                r == 121,
                mul_entry(r) == 282,
        ;
    } else if r == 122 {
        assert(mul_entry(122) == 278 && shg_entry(122) == 22 && pow2s(22) == 4194304);
        assert((r + 1) * (r + 1) * mul_entry(r) == 4205862) by (nonlinear_arith)
            requires
                r == 122,
                mul_entry(r) == 278,
        ;
    } else if r == 123 {
        assert(mul_entry(123) == 273 && shg_entry(123) == 22 && pow2s(22) == 4194304);
        assert((r + 1) * (r + 1) * mul_entry(r) == 4197648) by (nonlinear_arith)
            requires
                r == 123,
                mul_entry(r) == 273,
        ;
    } else if r == 124 {
        assert(mul_entry(124) == 269 && shg_entry(124) == 22 && pow2s(22) == 4194304);
        assert((r + 1) * (r + 1) * mul_entry(r) == 4203125) by (nonlinear_arith)
            requires
                r == 124,
                mul_entry(r) == 269,
        ;
    } else if r == 125 {
        assert(mul_entry(125) == 265 && shg_entry(125) == 22 && pow2s(22) == 4194304);
        assert((r + 1) * (r + 1) * mul_entry(r) == 4207140) by (nonlinear_arith)
            requires
                r == 125,
                mul_entry(r) == 265,
        ;
    } else if r == 126 {
        assert(mul_entry(126) == 261 && shg_entry(126) == 22 && pow2s(22) == 4194304);
        assert((r + 1) * (r + 1) * mul_entry(r) == 4209669) by (nonlinear_arith)
            requires
                r == 126,
                mul_entry(r) == 261,
        ;
    } else if r == 127 {
        assert(mul_entry(127) == 512 && shg_entry(127) == 23 && pow2s(23) == 8388608);
        assert((r + 1) * (r + 1) * mul_entry(r) == 8388608) by (nonlinear_arith)
            requires
                r == 127,
                mul_entry(r) == 512,
        ;
    }
}

proof fn lemma_table_ok_c(r: int)
    requires
        128 <= r <= 191,
    ensures
        257 <= mul_entry(r) <= 512,
        9 <= shg_entry(r) <= 24,
        512 <= pow2s(shg_entry(r)),
        pow2s(shg_entry(r)) <= (r + 1) * (r + 1) * mul_entry(r),
        255 * ((r + 1) * (r + 1) * mul_entry(r)) < 256 * pow2s(shg_entry(r)),
{
    if r == 128 {
        assert(mul_entry(128) == 505 && shg_entry(128) == 23 && pow2s(23) == 8388608);
        assert((r + 1) * (r + 1) * mul_entry(r) == 8403705) by (nonlinear_arith)
            requires
                r == 128,
                mul_entry(r) == 505,
        ;
    } else if r == 129 {
        assert(mul_entry(129) == 497 && shg_entry(129) == 23 && pow2s(23) == 8388608);
        assert((r + 1) * (r + 1) * mul_entry(r) == 8399300) by (nonlinear_arith)
            requires
                r == 129,
                mul_entry(r) == 497,
        ;
    } else if r == 130 {
        assert(mul_entry(130) == 489 && shg_entry(130) == 23 && pow2s(23) == 8388608);
        assert((r + 1) * (r + 1) * mul_entry(r) == 8391729) by (nonlinear_arith)
            requires
                r == 130,
                mul_entry(r) == 489,
        ;
    } else if r == 131 {
        assert(mul_entry(131) == 482 && shg_entry(131) == 23 && pow2s(23) == 8388608);
        assert((r + 1) * (r + 1) * mul_entry(r) == 8398368) by (nonlinear_arith)
            requires
                r == 131,
                mul_entry(r) == 482,
        ;
    } else if r == 132 {
        assert(mul_entry(132) == 475 && shg_entry(132) == 23 && pow2s(23) == 8388608);
        assert((r + 1) * (r + 1) * mul_entry(r) == 8402275) by (nonlinear_arith)
            requires
                r == 132,
                mul_entry(r) == 475,
        ;
    } else if r == 133 {
        assert(mul_entry(133) == 468 && shg_entry(133) == 23 && pow2s(23) == 8388608);
        assert((r + 1) * (r + 1) * mul_entry(r) == 8403408) by (nonlinear_arith)
            requires
                r == 133,
                mul_entry(r) == 468,
        ;
    } else if r == 134 {
        assert(mul_entry(134) == 461 && shg_entry(134) == 23 && pow2s(23) == 8388608);
        assert((r + 1) * (r + 1) * mul_entry(r) == 8401725) by (nonlinear_arith)
            requires
                r == 134,
                mul_entry(r) == 461,
        ;
    } else if r == 135 {
        assert(mul_entry(135) == 454 && shg_entry(135) == 23 && pow2s(23) == 8388608);
        assert((r + 1) * (r + 1) * mul_entry(r) == 8397184) by (nonlinear_arith)
            requires
                r == 135,
                mul_entry(r) == 454,
        ;
    } else if r == 136 {
        assert(mul_entry(136) == 447 && shg_entry(136) == 23 && pow2s(23) == 8388608);
        assert((r + 1) * (r + 1) * mul_entry(r) == 8389743) by (nonlinear_arith)
            requires
                r == 136,
                mul_entry(r) == 447,
        ;
    } else if r == 137 {
        assert(mul_entry(137) == 441 && shg_entry(137) == 23 && pow2s(23) == 8388608);
        assert((r + 1) * (r + 1) * mul_entry(r) == 8398404) by (nonlinear_arith)
            requires
                r == 137,
                mul_entry(r) == 441,
        ;
    } else if r == 138 {
        assert(mul_entry(138) == 435 && shg_entry(138) == 23 && pow2s(23) == 8388608);
        assert((r + 1) * (r + 1) * mul_entry(r) == 8404635) by (nonlinear_arith)
            requires
                r == 138,
                mul_entry(r) == 435,
        ;
    } else if r == 139 {
        assert(mul_entry(139) == 428 && shg_entry(139) == 23 && pow2s(23) == 8388608);
        assert((r + 1) * (r + 1) * mul_entry(r) == 8388800) by (nonlinear_arith)
            requires
                r == 139,
                mul_entry(r) == 428,
        ;
    } else if r == 140 {
        assert(mul_entry(140) == 422 && shg_entry(140) == 23 && pow2s(23) == 8388608);
        assert((r + 1) * (r + 1) * mul_entry(r) == 8389782) by (nonlinear_arith)
            requires
                r == 140,
                mul_entry(r) == 422,
        ;
    } else if r == 141 {
        assert(mul_entry(141) == 417 && shg_entry(141) == 23 && pow2s(23) == 8388608);
        assert((r + 1) * (r + 1) * mul_entry(r) == 8408388) by (nonlinear_arith)
            requires
                r == 141,
                mul_entry(r) == 417,
        ;
    } else if r == 142 {
        assert(mul_entry(142) == 411 && shg_entry(142) == 23 && pow2s(23) == 8388608);
        assert((r + 1) * (r + 1) * mul_entry(r) == 8404539) by (nonlinear_arith)
            requires
                r == 142,
                mul_entry(r) == 411,
        ;
    } else if r == 143 {
        assert(mul_entry(143) == 405 && shg_entry(143) == 23 && pow2s(23) == 8388608);
        assert((r + 1) * (r + 1) * mul_entry(r) == 8398080) by (nonlinear_arith)
            requires
                r == 143,
                mul_entry(r) == 405,
        ;
    } else if r == 144 {
        assert(mul_entry(144) == 399 && shg_entry(144) == 23 && pow2s(23) == 8388608);
        assert((r + 1) * (r + 1) * mul_entry(r) == 8388975) by (nonlinear_arith)
            requires
                r == 144,
                mul_entry(r) == 399,
        ;
    } else if r == 145 {
        assert(mul_entry(145) == 394 && shg_entry(145) == 23 && pow2s(23) == 8388608);
        assert((r + 1) * (r + 1) * mul_entry(r) == 8398504) by (nonlinear_arith)
            requires
                r == 145,
                mul_entry(r) == 394,
        ;
    } else if r == 146 {
        assert(mul_entry(146) == 389 && shg_entry(146) == 23 && pow2s(23) == 8388608);
        assert((r + 1) * (r + 1) * mul_entry(r) == 8405901) by (nonlinear_arith)
            requires
                r == 146,
                mul_entry(r) == 389,
        ;
    } else if r == 147 {
        assert(mul_entry(147) == 383 && shg_entry(147) == 23 && pow2s(23) == 8388608);
        assert((r + 1) * (r + 1) * mul_entry(r) == 8389232) by (nonlinear_arith)
            requires
                r == 147,
                mul_entry(r) == 383,
        ;
    } else if r == 148 {
        assert(mul_entry(148) == 378 && shg_entry(148) == 23 && pow2s(23) == 8388608);
        assert((r + 1) * (r + 1) * mul_entry(r) == 8391978) by (nonlinear_arith)
            requires
                r == 148,
                mul_entry(r) == 378,
        ;
    } else if r == 149 {
        assert(mul_entry(149) == 373 && shg_entry(149) == 23 && pow2s(23) == 8388608);
        assert((r + 1) * (r + 1) * mul_entry(r) == 8392500) by (nonlinear_arith)
            requires
                r == 149,
                mul_entry(r) == 373,
        ;
    } else if r == 150 {
        assert(mul_entry(150) == 368 && shg_entry(150) == 23 && pow2s(23) == 8388608);
        assert((r + 1) * (r + 1) * mul_entry(r) == 8390768) by (nonlinear_arith)
            requires
                r == 150,
                mul_entry(r) == 368,
        ;
    } else if r == 151 {
        assert(mul_entry(151) == 364 && shg_entry(151) == 23 && pow2s(23) == 8388608);
        assert((r + 1) * (r + 1) * mul_entry(r) == 8409856) by (nonlinear_arith)
            requires
                r == 151,
                mul_entry(r) == 364,
        ;
    } else if r == 152 {
        assert(mul_entry(152) == 359 && shg_entry(152) == 23 && pow2s(23) == 8388608);
        assert((r + 1) * (r + 1) * mul_entry(r) == 8403831) by (nonlinear_arith)
            requires
                r == 152,
                mul_entry(r) == 359,
        ;
    } else if r == 153 {
        assert(mul_entry(153) == 354 && shg_entry(153) == 23 && pow2s(23) == 8388608);
        assert((r + 1) * (r + 1) * mul_entry(r) == 8395464) by (nonlinear_arith)
            requires
                r == 153,
                mul_entry(r) == 354,
        ;
    } else if r == 154 {
        assert(mul_entry(154) == 350 && shg_entry(154) == 23 && pow2s(23) == 8388608);
        assert((r + 1) * (r + 1) * mul_entry(r) == 8408750) by (nonlinear_arith)
            requires
                r == 154,
                mul_entry(r) == 350,
        ;
    } else if r == 155 {
        assert(mul_entry(155) == 345 && shg_entry(155) == 23 && pow2s(23) == 8388608);
        assert((r + 1) * (r + 1) * mul_entry(r) == 8395920) by (nonlinear_arith)
            requires
                r == 155,
                mul_entry(r) == 345,
        ;
    } else if r == 156 {
        assert(mul_entry(156) == 341 && shg_entry(156) == 23 && pow2s(23) == 8388608);
        assert((r + 1) * (r + 1) * mul_entry(r) == 8405309) by (nonlinear_arith)
            requires
                r == 156,
                mul_entry(r) == 341,
        ;
    } else if r == 157 {
        assert(mul_entry(157) == 337 && shg_entry(157) == 23 && pow2s(23) == 8388608);
        assert((r + 1) * (r + 1) * mul_entry(r) == 8412868) by (nonlinear_arith)
            requires
                r == 157,
                mul_entry(r) == 337,
        ;
    } else if r == 158 {
        assert(mul_entry(158) == 332 && shg_entry(158) == 23 && pow2s(23) == 8388608);
        assert((r + 1) * (r + 1) * mul_entry(r) == 8393292) by (nonlinear_arith)
            requires
                r == 158,
                mul_entry(r) == 332,
        ;
    } else if r == 159 {
        assert(mul_entry(159) == 328 && shg_entry(159) == 23 && pow2s(23) == 8388608);
        assert((r + 1) * (r + 1) * mul_entry(r) == 8396800) by (nonlinear_arith)
            requires
                r == 159,
                mul_entry(r) == 328,
        ;
    } else if r == 160 {
        assert(mul_entry(160) == 324 && shg_entry(160) == 23 && pow2s(23) == 8388608);
        assert((r + 1) * (r + 1) * mul_entry(r) == 8398404) by (nonlinear_arith)
            requires
                r == 160,
                mul_entry(r) == 324,
        ;
    } else if r == 161 {
        assert(mul_entry(161) == 320 && shg_entry(161) == 23 && pow2s(23) == 8388608);
        assert((r + 1) * (r + 1) * mul_entry(r) == 8398080) by (nonlinear_arith)
            requires
                r == 161,
                mul_entry(r) == 320,
        ;
    } else if r == 162 {
        assert(mul_entry(162) == 316 && shg_entry(162) == 23 && pow2s(23) == 8388608);
        assert((r + 1) * (r + 1) * mul_entry(r) == 8395804) by (nonlinear_arith)
            requires
                r == 162,
                mul_entry(r) == 316,
        ;
    } else if r == 163 {
        assert(mul_entry(163) == 312 && shg_entry(163) == 23 && pow2s(23) == 8388608);
        assert((r + 1) * (r + 1) * mul_entry(r) == 8391552) by (nonlinear_arith)
            requires
                r == 163,
                mul_entry(r) == 312,
        ;
    } else if r == 164 {
        assert(mul_entry(164) == 309 && shg_entry(164) == 23 && pow2s(23) == 8388608);
        assert((r + 1) * (r + 1) * mul_entry(r) == 8412525) by (nonlinear_arith)
            requires
                r == 164,
                mul_entry(r) == 309,
        ;
    } else if r == 165 {
        assert(mul_entry(165) == 305 && shg_entry(165) == 23 && pow2s(23) == 8388608);
        assert((r + 1) * (r + 1) * mul_entry(r) == 8404580) by (nonlinear_arith)
            requires
                r == 165,
                mul_entry(r) == 305,
        ;
    } else if r == 166 {
        assert(mul_entry(166) == 301 && shg_entry(166) == 23 && pow2s(23) == 8388608);
        assert((r + 1) * (r + 1) * mul_entry(r) == 8394589) by (nonlinear_arith)
            requires
                r == 166,
                mul_entry(r) == 301,
        ;
    } else if r == 167 {
        assert(mul_entry(167) == 298 && shg_entry(167) == 23 && pow2s(23) == 8388608);
        assert((r + 1) * (r + 1) * mul_entry(r) == 8410752) by (nonlinear_arith)
            requires
                r == 167,
                mul_entry(r) == 298,
        ;
    } else if r == 168 {
        assert(mul_entry(168) == 294 && shg_entry(168) == 23 && pow2s(23) == 8388608);
        assert((r + 1) * (r + 1) * mul_entry(r) == 8396934) by (nonlinear_arith)
            requires
                r == 168,
                mul_entry(r) == 294,
        ;
    } else if r == 169 {
        assert(mul_entry(169) == 291 && shg_entry(169) == 23 && pow2s(23) == 8388608);
        assert((r + 1) * (r + 1) * mul_entry(r) == 8409900) by (nonlinear_arith)
            requires
                r == 169,
                mul_entry(r) == 291,
        ;
    } else if r == 170 {
        assert(mul_entry(170) == 287 && shg_entry(170) == 23 && pow2s(23) == 8388608);
        assert((r + 1) * (r + 1) * mul_entry(r) == 8392167) by (nonlinear_arith)
            requires
                r == 170,
                mul_entry(r) == 287,
        ;
    } else if r == 171 {
        assert(mul_entry(171) == 284 && shg_entry(171) == 23 && pow2s(23) == 8388608);
        assert((r + 1) * (r + 1) * mul_entry(r) == 8401856) by (nonlinear_arith)
            requires
                r == 171,
                mul_entry(r) == 284,
        ;
    } else if r == 172 {
        assert(mul_entry(172) == 281 && shg_entry(172) == 23 && pow2s(23) == 8388608);
        assert((r + 1) * (r + 1) * mul_entry(r) == 8410049) by (nonlinear_arith)
            requires
                r == 172,
                mul_entry(r) == 281,
        ;
    } else if r == 173 {
        assert(mul_entry(173) == 278 && shg_entry(173) == 23 && pow2s(23) == 8388608);
        assert((r + 1) * (r + 1) * mul_entry(r) == 8416728) by (nonlinear_arith)
            requires
                r == 173,
                mul_entry(r) == 278,
        ;
    } else if r == 174 {
        assert(mul_entry(174) == 274 && shg_entry(174) == 23 && pow2s(23) == 8388608);
        assert((r + 1) * (r + 1) * mul_entry(r) == 8391250) by (nonlinear_arith)
            requires
                r == 174,
                mul_entry(r) == 274,
        ;
    } else if r == 175 {
        assert(mul_entry(175) == 271 && shg_entry(175) == 23 && pow2s(23) == 8388608);
        assert((r + 1) * (r + 1) * mul_entry(r) == 8394496) by (nonlinear_arith)
            requires
                r == 175,
                mul_entry(r) == 271,
        ;
    } else if r == 176 {
        assert(mul_entry(176) == 268 && shg_entry(176) == 23 && pow2s(23) == 8388608);
        assert((r + 1) * (r + 1) * mul_entry(r) == 8396172) by (nonlinear_arith)
            requires
                r == 176,
                mul_entry(r) == 268,
        ;
    } else if r == 177 {
        assert(mul_entry(177) == 265 && shg_entry(177) == 23 && pow2s(23) == 8388608);
        assert((r + 1) * (r + 1) * mul_entry(r) == 8396260) by (nonlinear_arith)
            requires
                r == 177,
                mul_entry(r) == 265,
        ;
    } else if r == 178 {
        assert(mul_entry(178) == 262 && shg_entry(178) == 23 && pow2s(23) == 8388608);
        assert((r + 1) * (r + 1) * mul_entry(r) == 8394742) by (nonlinear_arith)
            requires
                r == 178,
                mul_entry(r) == 262,
        ;
    } else if r == 179 {
        assert(mul_entry(179) == 259 && shg_entry(179) == 23 && pow2s(23) == 8388608);
        assert((r + 1) * (r + 1) * mul_entry(r) == 8391600) by (nonlinear_arith)
            requires
                r == 179,
                mul_entry(r) == 259,
        ;
    } else if r == 180 {
        assert(mul_entry(180) == 257 && shg_entry(180) == 23 && pow2s(23) == 8388608);
        assert((r + 1) * (r + 1) * mul_entry(r) == 8419577) by (nonlinear_arith)
            requires
                r == 180,
                mul_entry(r) == 257,
        ;
    } else if r == 181 {
        assert(mul_entry(181) == 507 && shg_entry(181) == 24 && pow2s(24) == 16777216);
        assert((r + 1) * (r + 1) * mul_entry(r) == 16793868) by (nonlinear_arith)
            requires
                r == 181,
                mul_entry(r) == 507,
        ;
    } else if r == 182 {
        assert(mul_entry(182) == 501 && shg_entry(182) == 24 && pow2s(24) == 16777216);
        assert((r + 1) * (r + 1) * mul_entry(r) == 16777989) by (nonlinear_arith)
            requires
                r == 182,
                mul_entry(r) == 501,
        ;
    } else if r == 183 {
        assert(mul_entry(183) == 496 && shg_entry(183) == 24 && pow2s(24) == 16777216);
        assert((r + 1) * (r + 1) * mul_entry(r) == 16792576) by (nonlinear_arith)
            requires
                r == 183,
                mul_entry(r) == 496,
        ;
    } else if r == 184 {
        assert(mul_entry(184) == 491 && shg_entry(184) == 24 && pow2s(24) == 16777216);
        assert((r + 1) * (r + 1) * mul_entry(r) == 16804475) by (nonlinear_arith)
            requires
                r == 184,
                mul_entry(r) == 491,
        ;
    } else if r == 185 {
        assert(mul_entry(185) == 485 && shg_entry(185) == 24 && pow2s(24) == 16777216);
        assert((r + 1) * (r + 1) * mul_entry(r) == 16779060) by (nonlinear_arith)
            requires
                r == 185,
                mul_entry(r) == 485,
        ;
    } else if r == 186 {
        assert(mul_entry(186) == 480 && shg_entry(186) == 24 && pow2s(24) == 16777216);
        assert((r + 1) * (r + 1) * mul_entry(r) == 16785120) by (nonlinear_arith)
            requires
                r == 186,
                mul_entry(r) == 480,
        ;
    } else if r == 187 {
        assert(mul_entry(187) == 475 && shg_entry(187) == 24 && pow2s(24) == 16777216);
        assert((r + 1) * (r + 1) * mul_entry(r) == 16788400) by (nonlinear_arith)
            requires
                r == 187,
                mul_entry(r) == 475,
        ;
    } else if r == 188 {
        assert(mul_entry(188) == 470 && shg_entry(188) == 24 && pow2s(24) == 16777216);
        assert((r + 1) * (r + 1) * mul_entry(r) == 16788870) by (nonlinear_arith)
            requires
                r == 188,
                mul_entry(r) == 470,
        ;
    } else if r == 189 {
        assert(mul_entry(189) == 465 && shg_entry(189) == 24 && pow2s(24) == 16777216);
        assert((r + 1) * (r + 1) * mul_entry(r) == 16786500) by (nonlinear_arith)
            requires
                r == 189,
                mul_entry(r) == 465,
        ;
    } else if r == 190 {
        assert(mul_entry(190) == 460 && shg_entry(190) == 24 && pow2s(24) == 16777216);
        assert((r + 1) * (r + 1) * mul_entry(r) == 16781260) by (nonlinear_arith)
            requires
                r == 190,
                mul_entry(r) == 460,
        ;
    } else if r == 191 {
        assert(mul_entry(191) == 456 && shg_entry(191) == 24 && pow2s(24) == 16777216);
        assert((r + 1) * (r + 1) * mul_entry(r) == 16809984) by (nonlinear_arith)
            requires
                r == 191,
                mul_entry(r) == 456,
        ;
    }
}

proof fn lemma_table_ok_d(r: int)
    requires
        192 <= r <= 255,
    ensures
        257 <= mul_entry(r) <= 512,
        9 <= shg_entry(r) <= 24,
        512 <= pow2s(shg_entry(r)),
        pow2s(shg_entry(r)) <= (r + 1) * (r + 1) * mul_entry(r),
        255 * ((r + 1) * (r + 1) * mul_entry(r)) < 256 * pow2s(shg_entry(r)),
{
    if r == 192 {
        assert(mul_entry(192) == 451 && shg_entry(192) == 24 && pow2s(24) == 16777216);
        assert((r + 1) * (r + 1) * mul_entry(r) == 16799299) by (nonlinear_arith)
            requires
                r == 192,
                mul_entry(r) == 451,
        ;
    } else if r == 193 {
        assert(mul_entry(193) == 446 && shg_entry(193) == 24 && pow2s(24) == 16777216);
        assert((r + 1) * (r + 1) * mul_entry(r) == 16785656) by (nonlinear_arith)
            requires
                r == 193,
                mul_entry(r) == 446,
        ;
    } else if r == 194 {
        assert(mul_entry(194) == 442 && shg_entry(194) == 24 && pow2s(24) == 16777216);
        assert((r + 1) * (r + 1) * mul_entry(r) == 16807050) by (nonlinear_arith)
            requires
                r == 194,
                mul_entry(r) == 442,
        ;
    } else if r == 195 {
        assert(mul_entry(195) == 437 && shg_entry(195) == 24 && pow2s(24) == 16777216);
        assert((r + 1) * (r + 1) * mul_entry(r) == 16787792) by (nonlinear_arith)
            requires
                r == 195,
                mul_entry(r) == 437,
        ;
    } else if r == 196 {
        assert(mul_entry(196) == 433 && shg_entry(196) == 24 && pow2s(24) == 16777216);
        assert((r + 1) * (r + 1) * mul_entry(r) == 16804297) by (nonlinear_arith)
            requires
                r == 196,
                mul_entry(r) == 433,
        ;
    } else if r == 197 {
        assert(mul_entry(197) == 428 && shg_entry(197) == 24 && pow2s(24) == 16777216);
        assert((r + 1) * (r + 1) * mul_entry(r) == 16779312) by (nonlinear_arith)
            requires
                r == 197,
                mul_entry(r) == 428,
        ;
    } else if r == 198 {
        assert(mul_entry(198) == 424 && shg_entry(198) == 24 && pow2s(24) == 16777216);
        assert((r + 1) * (r + 1) * mul_entry(r) == 16790824) by (nonlinear_arith)
            requires
                r == 198,
                mul_entry(r) == 424,
        ;
    } else if r == 199 {
        assert(mul_entry(199) == 420 && shg_entry(199) == 24 && pow2s(24) == 16777216);
        assert((r + 1) * (r + 1) * mul_entry(r) == 16800000) by (nonlinear_arith)
            requires
                r == 199,
                mul_entry(r) == 420,
        ;
    } else if r == 200 {
        assert(mul_entry(200) == 416 && shg_entry(200) == 24 && pow2s(24) == 16777216);
        assert((r + 1) * (r + 1) * mul_entry(r) == 16806816) by (nonlinear_arith)
            requires
                r == 200,
                mul_entry(r) == 416,
        ;
    } else if r == 201 {
        assert(mul_entry(201) == 412 && shg_entry(201) == 24 && pow2s(24) == 16777216);
        assert((r + 1) * (r + 1) * mul_entry(r) == 16811248) by (nonlinear_arith)
            requires
                r == 201,
                mul_entry(r) == 412,
        ;
    } else if r == 202 {
        assert(mul_entry(202) == 408 && shg_entry(202) == 24 && pow2s(24) == 16777216);
        assert((r + 1) * (r + 1) * mul_entry(r) == 16813272) by (nonlinear_arith)
            requires
                r == 202,
                mul_entry(r) == 408,
        ;
    } else if r == 203 {
        assert(mul_entry(203) == 404 && shg_entry(203) == 24 && pow2s(24) == 16777216);
        assert((r + 1) * (r + 1) * mul_entry(r) == 16812864) by (nonlinear_arith)
            requires
                r == 203,
                mul_entry(r) == 404,
        ;
    } else if r == 204 {
        assert(mul_entry(204) == 400 && shg_entry(204) == 24 && pow2s(24) == 16777216);
        assert((r + 1) * (r + 1) * mul_entry(r) == 16810000) by (nonlinear_arith)
            requires
                r == 204,
                mul_entry(r) == 400,
        ;
    } else if r == 205 {
        assert(mul_entry(205) == 396 && shg_entry(205) == 24 && pow2s(24) == 16777216);
        assert((r + 1) * (r + 1) * mul_entry(r) == 16804656) by (nonlinear_arith)
            requires
                r == 205,
                mul_entry(r) == 396,
        ;
    } else if r == 206 {
        assert(mul_entry(206) == 392 && shg_entry(206) == 24 && pow2s(24) == 16777216);
        assert((r + 1) * (r + 1) * mul_entry(r) == 16796808) by (nonlinear_arith)
            requires
                r == 206,
                mul_entry(r) == 392,
        ;
    } else if r == 207 {
        assert(mul_entry(207) == 388 && shg_entry(207) == 24 && pow2s(24) == 16777216);
        assert((r + 1) * (r + 1) * mul_entry(r) == 16786432) by (nonlinear_arith)
            requires
                r == 207,
                mul_entry(r) == 388,
        ;
    } else if r == 208 {
        assert(mul_entry(208) == 385 && shg_entry(208) == 24 && pow2s(24) == 16777216);
        assert((r + 1) * (r + 1) * mul_entry(r) == 16817185) by (nonlinear_arith)
            requires
                r == 208,
                mul_entry(r) == 385,
        ;
    } else if r == 209 {
        assert(mul_entry(209) == 381 && shg_entry(209) == 24 && pow2s(24) == 16777216);
        assert((r + 1) * (r + 1) * mul_entry(r) == 16802100) by (nonlinear_arith)
            requires
                r == 209,
                mul_entry(r) == 381,
        ;
    } else if r == 210 {
        assert(mul_entry(210) == 377 && shg_entry(210) == 24 && pow2s(24) == 16777216);
        assert((r + 1) * (r + 1) * mul_entry(r) == 16784417) by (nonlinear_arith)
            requires
                r == 210,
                mul_entry(r) == 377,
        ;
    } else if r == 211 {
        assert(mul_entry(211) == 374 && shg_entry(211) == 24 && pow2s(24) == 16777216);
        assert((r + 1) * (r + 1) * mul_entry(r) == 16809056) by (nonlinear_arith)
            requires
                r == 211,
                mul_entry(r) == 374,
        ;
    } else if r == 212 {
        assert(mul_entry(212) == 370 && shg_entry(212) == 24 && pow2s(24) == 16777216);
        assert((r + 1) * (r + 1) * mul_entry(r) == 16786530) by (nonlinear_arith)
            requires
                r == 212,
                mul_entry(r) == 370,
        ;
    } else if r == 213 {
        assert(mul_entry(213) == 367 && shg_entry(213) == 24 && pow2s(24) == 16777216);
        assert((r + 1) * (r + 1) * mul_entry(r) == 16807132) by (nonlinear_arith)
            requires
                r == 213,
                mul_entry(r) == 367,
        ;
    } else if r == 214 {
        assert(mul_entry(214) == 363 && shg_entry(214) == 24 && pow2s(24) == 16777216);
        assert((r + 1) * (r + 1) * mul_entry(r) == 16779675) by (nonlinear_arith)
            requires
                r == 214,
                mul_entry(r) == 363,
        ;
    } else if r == 215 {
        assert(mul_entry(215) == 360 && shg_entry(215) == 24 && pow2s(24) == 16777216);
        assert((r + 1) * (r + 1) * mul_entry(r) == 16796160) by (nonlinear_arith)
            requires
                r == 215,
                mul_entry(r) == 360,
        ;
    } else if r == 216 {
        assert(mul_entry(216) == 357 && shg_entry(216) == 24 && pow2s(24) == 16777216);
        assert((r + 1) * (r + 1) * mul_entry(r) == 16810773) by (nonlinear_arith)
            requires
                r == 216,
                mul_entry(r) == 357,
        ;
    } else if r == 217 {
        assert(mul_entry(217) == 354 && shg_entry(217) == 24 && pow2s(24) == 16777216);
        assert((r + 1) * (r + 1) * mul_entry(r) == 16823496) by (nonlinear_arith)
            requires
                r == 217,
                mul_entry(r) == 354,
        ;
    } else if r == 218 {
        assert(mul_entry(218) == 350 && shg_entry(218) == 24 && pow2s(24) == 16777216);
        assert((r + 1) * (r + 1) * mul_entry(r) == 16786350) by (nonlinear_arith)
            requires
                r == 218,
                mul_entry(r) == 350,
        ;
    } else if r == 219 {
        assert(mul_entry(219) == 347 && shg_entry(219) == 24 && pow2s(24) == 16777216);
        assert((r + 1) * (r + 1) * mul_entry(r) == 16794800) by (nonlinear_arith)
            requires
                r == 219,
                mul_entry(r) == 347,
        ;
    } else if r == 220 {
        assert(mul_entry(220) == 344 && shg_entry(220) == 24 && pow2s(24) == 16777216);
        assert((r + 1) * (r + 1) * mul_entry(r) == 16801304) by (nonlinear_arith)
            requires
                r == 220,
                mul_entry(r) == 344,
        ;
    } else if r == 221 {
        assert(mul_entry(221) == 341 && shg_entry(221) == 24 && pow2s(24) == 16777216);
        assert((r + 1) * (r + 1) * mul_entry(r) == 16805844) by (nonlinear_arith)
            requires
                r == 221,
                mul_entry(r) == 341,
        ;
    } else if r == 222 {
        assert(mul_entry(222) == 338 && shg_entry(222) == 24 && pow2s(24) == 16777216);
        assert((r + 1) * (r + 1) * mul_entry(r) == 16808402) by (nonlinear_arith)
            requires
                r == 222,
                mul_entry(r) == 338,
        ;
    } else if r == 223 {
        assert(mul_entry(223) == 335 && shg_entry(223) == 24 && pow2s(24) == 16777216);
        assert((r + 1) * (r + 1) * mul_entry(r) == 16808960) by (nonlinear_arith)
            requires
                r == 223,
                mul_entry(r) == 335,
        ;
    } else if r == 224 {
        assert(mul_entry(224) == 332 && shg_entry(224) == 24 && pow2s(24) == 16777216);
        assert((r + 1) * (r + 1) * mul_entry(r) == 16807500) by (nonlinear_arith)
            requires
                r == 224,
                mul_entry(r) == 332,
        ;
    } else if r == 225 {
        assert(mul_entry(225) == 329 && shg_entry(225) == 24 && pow2s(24) == 16777216);
        assert((r + 1) * (r + 1) * mul_entry(r) == 16804004) by (nonlinear_arith)
            requires
                r == 225,
                mul_entry(r) == 329,
        ;
    } else if r == 226 {
        assert(mul_entry(226) == 326 && shg_entry(226) == 24 && pow2s(24) == 16777216);
        assert((r + 1) * (r + 1) * mul_entry(r) == 16798454) by (nonlinear_arith)
            requires
                r == 226,
                mul_entry(r) == 326,
        ;
    } else if r == 227 {
        assert(mul_entry(227) == 323 && shg_entry(227) == 24 && pow2s(24) == 16777216);
        assert((r + 1) * (r + 1) * mul_entry(r) == 16790832) by (nonlinear_arith)
            requires
                r == 227,
                mul_entry(r) == 323,
        ;
    } else if r == 228 {
        assert(mul_entry(228) == 320 && shg_entry(228) == 24 && pow2s(24) == 16777216);
        assert((r + 1) * (r + 1) * mul_entry(r) == 16781120) by (nonlinear_arith)
            requires
                r == 228,
                mul_entry(r) == 320,
        ;
    } else if r == 229 {
        assert(mul_entry(229) == 318 && shg_entry(229) == 24 && pow2s(24) == 16777216);
        assert((r + 1) * (r + 1) * mul_entry(r) == 16822200) by (nonlinear_arith)
            requires
                r == 229,
                mul_entry(r) == 318,
        ;
    } else if r == 230 {
        assert(mul_entry(230) == 315 && shg_entry(230) == 24 && pow2s(24) == 16777216);
        assert((r + 1) * (r + 1) * mul_entry(r) == 16808715) by (nonlinear_arith)
            requires
                r == 230,
                mul_entry(r) == 315,
        ;
    } else if r == 231 {
        assert(mul_entry(231) == 312 && shg_entry(231) == 24 && pow2s(24) == 16777216);
        assert((r + 1) * (r + 1) * mul_entry(r) == 16793088) by (nonlinear_arith)
            requires
                r == 231,
                mul_entry(r) == 312,
        ;
    } else if r == 232 {
        assert(mul_entry(232) == 310 && shg_entry(232) == 24 && pow2s(24) == 16777216);
        assert((r + 1) * (r + 1) * mul_entry(r) == 16829590) by (nonlinear_arith)
            requires
                r == 232,
                mul_entry(r) == 310,
        ;
    } else if r == 233 {
        assert(mul_entry(233) == 307 && shg_entry(233) == 24 && pow2s(24) == 16777216);
        assert((r + 1) * (r + 1) * mul_entry(r) == 16810092) by (nonlinear_arith)
            requires
                r == 233,
                mul_entry(r) == 307,
        ;
    } else if r == 234 {
        assert(mul_entry(234) == 304 && shg_entry(234) == 24 && pow2s(24) == 16777216);
        assert((r + 1) * (r + 1) * mul_entry(r) == 16788400) by (nonlinear_arith)
            requires
                r == 234,
                mul_entry(r) == 304,
        ;
    } else if r == 235 {
        assert(mul_entry(235) == 302 && shg_entry(235) == 24 && pow2s(24) == 16777216);
        assert((r + 1) * (r + 1) * mul_entry(r) == 16820192) by (nonlinear_arith)
            requires
                r == 235,
                mul_entry(r) == 302,
        ;
    } else if r == 236 {
        assert(mul_entry(236) == 299 && shg_entry(236) == 24 && pow2s(24) == 16777216);
        assert((r + 1) * (r + 1) * mul_entry(r) == 16794531) by (nonlinear_arith)
            requires
                r == 236,
                mul_entry(r) == 299,
        ;
    } else if r == 237 {
        assert(mul_entry(237) == 297 && shg_entry(237) == 24 && pow2s(24) == 16777216);
        assert((r + 1) * (r + 1) * mul_entry(r) == 16823268) by (nonlinear_arith)
            requires
                r == 237,
                mul_entry(r) == 297,
        ;
    } else if r == 238 {
        assert(mul_entry(238) == 294 && shg_entry(238) == 24 && pow2s(24) == 16777216);
        assert((r + 1) * (r + 1) * mul_entry(r) == 16793574) by (nonlinear_arith)
            requires
                r == 238,
                mul_entry(r) == 294,
        ;
    } else if r == 239 {
        assert(mul_entry(239) == 292 && shg_entry(239) == 24 && pow2s(24) == 16777216);
        assert((r + 1) * (r + 1) * mul_entry(r) == 16819200) by (nonlinear_arith)
            requires
                r == 239,
                mul_entry(r) == 292,
        ;
    } else if r == 240 {
        assert(mul_entry(240) == 289 && shg_entry(240) == 24 && pow2s(24) == 16777216);
        assert((r + 1) * (r + 1) * mul_entry(r) == 16785409) by (nonlinear_arith)
            requires
                r == 240,
                mul_entry(r) == 289,
        ;
    } else if r == 241 {
        assert(mul_entry(241) == 287 && shg_entry(241) == 24 && pow2s(24) == 16777216);
        assert((r + 1) * (r + 1) * mul_entry(r) == 16807868) by (nonlinear_arith)
            requires
                r == 241,
                mul_entry(r) == 287,
        ;
    } else if r == 242 {
        assert(mul_entry(242) == 285 && shg_entry(242) == 24 && pow2s(24) == 16777216);
        assert((r + 1) * (r + 1) * mul_entry(r) == 16828965) by (nonlinear_arith)
            requires
                r == 242,
                mul_entry(r) == 285,
        ;
    } else if r == 243 {
        assert(mul_entry(243) == 282 && shg_entry(243) == 24 && pow2s(24) == 16777216);
        assert((r + 1) * (r + 1) * mul_entry(r) == 16789152) by (nonlinear_arith)
            requires
                r == 243,
                mul_entry(r) == 282,
        ;
    } else if r == 244 {
        assert(mul_entry(244) == 280 && shg_entry(244) == 24 && pow2s(24) == 16777216);
        assert((r + 1) * (r + 1) * mul_entry(r) == 16807000) by (nonlinear_arith)
            requires
                r == 244,
                mul_entry(r) == 280,
        ;
    } else if r == 245 {
        assert(mul_entry(245) == 278 && shg_entry(245) == 24 && pow2s(24) == 16777216);
        assert((r + 1) * (r + 1) * mul_entry(r) == 16823448) by (nonlinear_arith)
            requires
                r == 245,
                mul_entry(r) == 278,
        ;
    } else if r == 246 {
        assert(mul_entry(246) == 275 && shg_entry(246) == 24 && pow2s(24) == 16777216);
        assert((r + 1) * (r + 1) * mul_entry(r) == 16777475) by (nonlinear_arith)
            requires
                r == 246,
                mul_entry(r) == 275,
        ;
    } else if r == 247 {
        assert(mul_entry(247) == 273 && shg_entry(247) == 24 && pow2s(24) == 16777216);
        assert((r + 1) * (r + 1) * mul_entry(r) == 16790592) by (nonlinear_arith)
            requires
                r == 247,
                mul_entry(r) == 273,
        ;
    } else if r == 248 {
        assert(mul_entry(248) == 271 && shg_entry(248) == 24 && pow2s(24) == 16777216);
        assert((r + 1) * (r + 1) * mul_entry(r) == 16802271) by (nonlinear_arith)
            requires
                r == 248,
                mul_entry(r) == 271,
        ;
    } else if r == 249 {
        assert(mul_entry(249) == 269 && shg_entry(249) == 24 && pow2s(24) == 16777216);
        assert((r + 1) * (r + 1) * mul_entry(r) == 16812500) by (nonlinear_arith)
            requires
                r == 249,
                mul_entry(r) == 269,
        ;
    } else if r == 250 {
        assert(mul_entry(250) == 267 && shg_entry(250) == 24 && pow2s(24) == 16777216);
        assert((r + 1) * (r + 1) * mul_entry(r) == 16821267) by (nonlinear_arith)
            requires
                r == 250,
                mul_entry(r) == 267,
        ;
    } else if r == 251 {
        assert(mul_entry(251) == 265 && shg_entry(251) == 24 && pow2s(24) == 16777216);
        assert((r + 1) * (r + 1) * mul_entry(r) == 16828560) by (nonlinear_arith)
            requires
                r == 251,
                mul_entry(r) == 265,
        ;
    } else if r == 252 {
        assert(mul_entry(252) == 263 && shg_entry(252) == 24 && pow2s(24) == 16777216);
        assert((r + 1) * (r + 1) * mul_entry(r) == 16834367) by (nonlinear_arith)
            requires
                r == 252,
                mul_entry(r) == 263,
        ;
    } else if r == 253 {
        assert(mul_entry(253) == 261 && shg_entry(253) == 24 && pow2s(24) == 16777216);
        assert((r + 1) * (r + 1) * mul_entry(r) == 16838676) by (nonlinear_arith)
            requires
                r == 253,
                mul_entry(r) == 261,
        ;
    } else if r == 254 {
        assert(mul_entry(254) == 259 && shg_entry(254) == 24 && pow2s(24) == 16777216);
        assert((r + 1) * (r + 1) * mul_entry(r) == 16841475) by (nonlinear_arith)
            requires
                r == 254,
                mul_entry(r) == 259,
        ;
    } else if r == 255 {
        assert(mul_entry(255) == 257 && shg_entry(255) == 24 && pow2s(24) == 16777216);
        assert((r + 1) * (r + 1) * mul_entry(r) == 16842752) by (nonlinear_arith)
            requires
                r == 255,
                mul_entry(r) == 257,
        ;
    }
}

/// The pair `(mul_entry(r), shg_entry(r))` is a sound and tight reciprocal
/// of the triangular kernel's total weight `(r + 1) * (r + 1)`: scaling any
/// value `x <= 255 * (r + 1) * (r + 1)` by it stays under 256, and scaling
/// `v * (r + 1) * (r + 1)` for a byte `v` gives back exactly `v`.
pub proof fn lemma_table_ok(r: int)
    requires
        0 <= r < 256,
    ensures
        257 <= mul_entry(r) <= 512,
        9 <= shg_entry(r) <= 24,
        512 <= pow2s(shg_entry(r)),
        pow2s(shg_entry(r)) <= (r + 1) * (r + 1) * mul_entry(r),
        255 * ((r + 1) * (r + 1) * mul_entry(r)) < 256 * pow2s(shg_entry(r)),
{
    if r < 64 {
        lemma_table_ok_a(r);
    } else if r < 128 {
        lemma_table_ok_b(r);
    } else if r < 192 {
        lemma_table_ok_c(r);
    } else {
        lemma_table_ok_d(r);
    }
}

/// `pow2s` agrees with vstd's `pow2` on the shift amounts the tables use.
pub proof fn lemma_pow2s_matches(e: int)
    requires
        9 <= e <= 24,
    ensures
        pow2s(e) == vstd::arithmetic::power2::pow2(e as nat),
{
    vstd::arithmetic::power2::lemma2_to64();
}

} // verus!
