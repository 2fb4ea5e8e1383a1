//! CRC-32 with a seed byte, as used for Bluetooth HID report framing.
//!
//! Both controller families protect Bluetooth reports with a CRC-32
//! (IEEE polynomial 0xEDB88320, reflected, init and xorout 0xFFFFFFFF)
//! computed over a single seed byte followed by the report payload:
//! input reports use seed 0xA1, output reports use seed 0xA2.

use vstd::prelude::*;

verus! {

pub const SEED_INPUT: u8 = 0xA1;
pub const SEED_OUTPUT: u8 = 0xA2;

pub const CRC_POLY: u32 = 0xEDB8_8320;

/// One shift-and-conditionally-xor round of the reflected CRC-32.
pub open spec fn spec_crc_step(c: u32) -> u32 {
    if c & 1 == 1 {
        (c >> 1) ^ CRC_POLY
    } else {
        c >> 1
    }
}

/// `n` rounds of `spec_crc_step`.
pub open spec fn spec_crc_rounds(c: u32, n: nat) -> u32
    decreases n,
{
    if n == 0 {
        c
    } else {
        spec_crc_step(spec_crc_rounds(c, (n - 1) as nat))
    }
}

/// Feed one byte into the running CRC register.
pub open spec fn spec_crc_update(c: u32, b: u8) -> u32 {
    spec_crc_rounds(c ^ (b as u32), 8)
}

/// Feed a byte sequence into the running CRC register, front to back.
pub open spec fn spec_crc_fold(c: u32, data: Seq<u8>) -> u32
    decreases data.len(),
{
    if data.len() == 0 {
        c
    } else {
        spec_crc_fold(spec_crc_update(c, data[0]), data.skip(1))
    }
}

/// CRC-32 of `data` with `seed` prepended: init 0xFFFFFFFF, xorout 0xFFFFFFFF.
pub open spec fn spec_crc(seed: u8, data: Seq<u8>) -> u32 {
    spec_crc_fold(spec_crc_update(0xFFFF_FFFFu32, seed), data) ^ 0xFFFF_FFFFu32
}

/// A 32-bit value assembled from four little-endian bytes.
pub open spec fn spec_u32_le(b0: u8, b1: u8, b2: u8, b3: u8) -> u32 {
    (b0 as u32) | ((b1 as u32) << 8) | ((b2 as u32) << 16) | ((b3 as u32) << 24)
}

/// The four little-endian bytes of a 32-bit value.
pub open spec fn spec_u32_le_bytes(x: u32) -> Seq<u8> {
    seq![
        (x & 0xFF) as u8,
        ((x >> 8) & 0xFF) as u8,
        ((x >> 16) & 0xFF) as u8,
        ((x >> 24) & 0xFF) as u8,
    ]
}

/// A report of length >= 4 whose last four bytes are the little-endian
/// CRC-32 (with `seed`) of everything before them.
pub open spec fn spec_crc_valid(seed: u8, report: Seq<u8>) -> bool {
    &&& report.len() >= 4
    &&& spec_u32_le(
        report[report.len() - 4],
        report[report.len() - 3],
        report[report.len() - 2],
        report[report.len() - 1],
    ) == spec_crc(seed, report.take(report.len() - 4))
}

/// Folding one more byte at the back commutes with folding the front.
proof fn lemma_crc_fold_push(c: u32, data: Seq<u8>, b: u8)
    ensures
        spec_crc_fold(c, data.push(b)) == spec_crc_update(spec_crc_fold(c, data), b),
    decreases data.len(),
{
    let p = data.push(b);
    if data.len() == 0 {
        assert(p.skip(1) =~= Seq::<u8>::empty());
        assert(p[0] == b);
        assert(spec_crc_fold(c, p) == spec_crc_fold(spec_crc_update(c, b), p.skip(1)));
        assert(spec_crc_fold(spec_crc_update(c, b), p.skip(1)) == spec_crc_update(c, b));
    } else {
        assert(p[0] == data[0]);
        assert(p.skip(1) =~= data.skip(1).push(b));
        assert(spec_crc_fold(c, p) == spec_crc_fold(spec_crc_update(c, data[0]), p.skip(1)));
        lemma_crc_fold_push(spec_crc_update(c, data[0]), data.skip(1), b);
        assert(spec_crc_fold(c, data) == spec_crc_fold(
            spec_crc_update(c, data[0]),
            data.skip(1),
        ));
    }
}

fn crc_update(c: u32, b: u8) -> (r: u32)
    ensures
        r == spec_crc_update(c, b),
{
    let mut crc: u32 = c ^ (b as u32);
    let mut j: usize = 0;
    while j < 8
        invariant
            j <= 8,
            crc == spec_crc_rounds(c ^ (b as u32), j as nat),
        decreases 8 - j,
    {
        crc = if crc & 1 == 1 {
            (crc >> 1) ^ CRC_POLY
        } else {
            crc >> 1
        };
        j += 1;
    }
    crc
}

/// Compute CRC-32 over `data` with a seed byte prepended.
pub fn calc(seed: u8, data: &[u8]) -> (r: u32)
    ensures
        r == spec_crc(seed, data@),
{
    let mut crc: u32 = crc_update(0xFFFF_FFFF, seed);
    let mut i: usize = 0;
    while i < data.len()
        invariant
            i <= data.len(),
            crc == spec_crc_fold(spec_crc_update(0xFFFF_FFFFu32, seed), data@.take(i as int)),
        decreases data.len() - i,
    {
        proof {
            lemma_crc_fold_push(
                spec_crc_update(0xFFFF_FFFFu32, seed),
                data@.take(i as int),
                data@[i as int],
            );
            assert(data@.take(i as int).push(data@[i as int]) =~= data@.take(i + 1));
        }
        crc = crc_update(crc, data[i]);
        i += 1;
    }
    proof {
        assert(data@.take(data@.len() as int) =~= data@);
    }
    crc ^ 0xFFFF_FFFF
}

/// Check that the last 4 bytes of `report` are the little-endian CRC-32
/// of the preceding bytes. Reports shorter than 4 bytes never validate.
pub fn validate(seed: u8, report: &[u8]) -> (r: bool)
    ensures
        r == spec_crc_valid(seed, report@),
{
    if report.len() < 4 {
        return false;
    }
    let n = report.len() - 4;
    let expected = (report[n] as u32) | ((report[n + 1] as u32) << 8) | ((report[n + 2] as u32)
        << 16) | ((report[n + 3] as u32) << 24);
    let got = calc(seed, &report[0..n]);
    got == expected
}

/// Write the little-endian CRC-32 of `report[0..crc_offset]` (with `seed`)
/// into `report[crc_offset..crc_offset + 4]`. All other bytes are kept.
pub fn stamp(seed: u8, report: &mut Vec<u8>, crc_offset: usize)
    requires
        crc_offset + 4 <= old(report).len(),
    ensures
        final(report)@ == old(report)@.take(crc_offset as int) + spec_u32_le_bytes(
            spec_crc(seed, old(report)@.take(crc_offset as int)),
        ) + old(report)@.skip(crc_offset + 4),
        spec_u32_le(
            final(report)@[crc_offset as int],
            final(report)@[crc_offset + 1],
            final(report)@[crc_offset + 2],
            final(report)@[crc_offset + 3],
        ) == spec_crc(seed, old(report)@.take(crc_offset as int)),
{
    let crc = calc(seed, &report.as_slice()[0..crc_offset]);
    report.set(crc_offset, (crc & 0xFF) as u8);
    report.set(crc_offset + 1, ((crc >> 8) & 0xFF) as u8);
    report.set(crc_offset + 2, ((crc >> 16) & 0xFF) as u8);
    report.set(crc_offset + 3, ((crc >> 24) & 0xFF) as u8);
    proof {
        assert(report@ =~= old(report)@.take(crc_offset as int) + spec_u32_le_bytes(crc)
            + old(report)@.skip(crc_offset + 4));
        lemma_u32_le_reassemble(crc);
    }
}

/// Splitting a 32-bit value into four little-endian bytes and reassembling
/// them gives the value back.
pub proof fn lemma_u32_le_reassemble(x: u32)
    ensures
        spec_u32_le(
            (x & 0xFF) as u8,
            ((x >> 8) & 0xFF) as u8,
            ((x >> 16) & 0xFF) as u8,
            ((x >> 24) & 0xFF) as u8,
        ) == x,
{
    assert(spec_u32_le(
        (x & 0xFF) as u8,
        ((x >> 8) & 0xFF) as u8,
        ((x >> 16) & 0xFF) as u8,
        ((x >> 24) & 0xFF) as u8,
    ) == x) by (bit_vector);
}

/// Stamping a buffer and then validating the stamped prefix always succeeds:
/// for every buffer and every payload fill, `stamp(seed, b, n)` followed by
/// `validate(seed, b[0..n + 4])` returns true.
pub proof fn lemma_stamp_validate_roundtrip(seed: u8, before: Seq<u8>, after: Seq<u8>, n: int)
    requires
        0 <= n,
        n + 4 <= before.len(),
        after.len() == before.len(),
        after.take(n) == before.take(n),
        spec_u32_le(after[n], after[n + 1], after[n + 2], after[n + 3]) == spec_crc(
            seed,
            before.take(n),
        ),
    ensures
        spec_crc_valid(seed, after.take(n + 4)),
{
    let stamped = after.take(n + 4);
    assert(stamped.take(n) =~= after.take(n));
    assert(stamped[n] == after[n]);
    assert(stamped[n + 1] == after[n + 1]);
    assert(stamped[n + 2] == after[n + 2]);
    assert(stamped[n + 3] == after[n + 3]);
}

/// One CRC round is injective: the shifted-out bit is recorded in the
/// branch (the polynomial's top bit is set, so the two branches cannot
/// collide) and the shift loses nothing else.
proof fn lemma_crc_step_inj(c1: u32, c2: u32)
    requires
        c1 != c2,
    ensures
        spec_crc_step(c1) != spec_crc_step(c2),
{
    if c1 & 1 == 1 && c2 & 1 == 1 {
        assert((c1 >> 1) ^ 0xEDB8_8320u32 != (c2 >> 1) ^ 0xEDB8_8320u32) by (bit_vector)
            requires
                c1 != c2 && c1 & 1 == 1 && c2 & 1 == 1,
        ;
    } else if c1 & 1 != 1 && c2 & 1 != 1 {
        assert(c1 >> 1 != c2 >> 1) by (bit_vector)
            requires
                c1 != c2 && c1 & 1 != 1 && c2 & 1 != 1,
        ;
    } else if c1 & 1 == 1 {
        assert((c1 >> 1) ^ 0xEDB8_8320u32 != c2 >> 1) by (bit_vector);
    } else {
        assert(c1 >> 1 != (c2 >> 1) ^ 0xEDB8_8320u32) by (bit_vector);
    }
}

/// Any number of CRC rounds is injective.
proof fn lemma_crc_rounds_inj(c1: u32, c2: u32, n: nat)
    requires
        c1 != c2,
    ensures
        spec_crc_rounds(c1, n) != spec_crc_rounds(c2, n),
    decreases n,
{
    if n > 0 {
        lemma_crc_rounds_inj(c1, c2, (n - 1) as nat);
        lemma_crc_step_inj(spec_crc_rounds(c1, (n - 1) as nat), spec_crc_rounds(c2, (n - 1) as nat));
    }
}

/// Feeding the same byte into two distinct registers keeps them distinct.
proof fn lemma_crc_update_inj_reg(c1: u32, c2: u32, b: u8)
    requires
        c1 != c2,
    ensures
        spec_crc_update(c1, b) != spec_crc_update(c2, b),
{
    assert(c1 ^ (b as u32) != c2 ^ (b as u32)) by (bit_vector)
        requires
            c1 != c2,
    ;
    lemma_crc_rounds_inj(c1 ^ (b as u32), c2 ^ (b as u32), 8);
}

/// Feeding two distinct bytes into the same register splits it.
proof fn lemma_crc_update_inj_byte(c: u32, b1: u8, b2: u8)
    requires
        b1 != b2,
    ensures
        spec_crc_update(c, b1) != spec_crc_update(c, b2),
{
    assert(c ^ (b1 as u32) != c ^ (b2 as u32)) by (bit_vector)
        requires
            b1 != b2,
    ;
    lemma_crc_rounds_inj(c ^ (b1 as u32), c ^ (b2 as u32), 8);
}

/// Folding the same data into two distinct registers keeps them distinct.
proof fn lemma_crc_fold_inj(c1: u32, c2: u32, data: Seq<u8>)
    requires
        c1 != c2,
    ensures
        spec_crc_fold(c1, data) != spec_crc_fold(c2, data),
    decreases data.len(),
{
    if data.len() > 0 {
        lemma_crc_update_inj_reg(c1, c2, data[0]);
        lemma_crc_fold_inj(spec_crc_update(c1, data[0]), spec_crc_update(c2, data[0]), data.skip(1));
    }
}

/// Folding splits at a concatenation.
proof fn lemma_crc_fold_concat(c: u32, a: Seq<u8>, b: Seq<u8>)
    ensures
        spec_crc_fold(c, a + b) == spec_crc_fold(spec_crc_fold(c, a), b),
    decreases a.len(),
{
    if a.len() == 0 {
        assert(a + b =~= b);
    } else {
        assert((a + b)[0] == a[0]);
        assert((a + b).skip(1) =~= a.skip(1) + b);
        lemma_crc_fold_concat(spec_crc_update(c, a[0]), a.skip(1), b);
    }
}

/// Folding a single byte is one update.
proof fn lemma_crc_fold_one(c: u32, b: u8)
    ensures
        spec_crc_fold(c, seq![b]) == spec_crc_update(c, b),
{
    let s = seq![b];
    assert(s.len() == 1);
    assert(s[0] == b);
    assert(s.skip(1) =~= Seq::<u8>::empty());
    assert(spec_crc_fold(c, s) == spec_crc_fold(spec_crc_update(c, b), s.skip(1)));
    assert(spec_crc_fold(spec_crc_update(c, b), Seq::<u8>::empty()) == spec_crc_update(c, b));
}

/// Two payloads of one length that differ in exactly one byte have
/// distinct CRCs: the common prefix leaves the registers equal, the
/// differing byte splits them, and the common suffix keeps them split.
proof fn lemma_crc_single_byte(seed: u8, d1: Seq<u8>, d2: Seq<u8>, i: int)
    requires
        d1.len() == d2.len(),
        0 <= i < d1.len(),
        d1[i] != d2[i],
        forall|j: int| 0 <= j < d1.len() && j != i ==> d1[j] == d2[j],
    ensures
        spec_crc(seed, d1) != spec_crc(seed, d2),
{
    let c0 = spec_crc_update(0xFFFF_FFFFu32, seed);
    assert(d1.take(i) =~= d2.take(i));
    assert(d1.skip(i + 1) =~= d2.skip(i + 1));
    assert(d1 =~= d1.take(i) + seq![d1[i]] + d1.skip(i + 1));
    assert(d2 =~= d1.take(i) + seq![d2[i]] + d1.skip(i + 1));
    let pre = spec_crc_fold(c0, d1.take(i));
    lemma_crc_fold_concat(c0, d1.take(i) + seq![d1[i]], d1.skip(i + 1));
    lemma_crc_fold_concat(c0, d1.take(i) + seq![d2[i]], d1.skip(i + 1));
    lemma_crc_fold_concat(c0, d1.take(i), seq![d1[i]]);
    lemma_crc_fold_concat(c0, d1.take(i), seq![d2[i]]);
    assert(spec_crc_fold(pre, seq![d1[i]]) == spec_crc_update(pre, d1[i])) by {
        lemma_crc_fold_one(pre, d1[i]);
    }
    assert(spec_crc_fold(pre, seq![d2[i]]) == spec_crc_update(pre, d2[i])) by {
        lemma_crc_fold_one(pre, d2[i]);
    }
    lemma_crc_update_inj_byte(pre, d1[i], d2[i]);
    lemma_crc_fold_inj(
        spec_crc_update(pre, d1[i]),
        spec_crc_update(pre, d2[i]),
        d1.skip(i + 1),
    );
    let x1 = spec_crc_fold(c0, d1);
    let x2 = spec_crc_fold(c0, d2);
    assert(x1 != x2);
    assert(x1 ^ 0xFFFF_FFFFu32 != x2 ^ 0xFFFF_FFFFu32) by (bit_vector)
        requires
            x1 != x2,
    ;
}

/// Four little-endian bytes assemble injectively: change any byte and the
/// 32-bit value changes.
proof fn lemma_u32_le_inj(a0: u8, a1: u8, a2: u8, a3: u8, b0: u8, b1: u8, b2: u8, b3: u8)
    requires
        a0 != b0 || a1 != b1 || a2 != b2 || a3 != b3,
    ensures
        spec_u32_le(a0, a1, a2, a3) != spec_u32_le(b0, b1, b2, b3),
{
    assert(((a0 as u32) | ((a1 as u32) << 8) | ((a2 as u32) << 16) | ((a3 as u32) << 24)) != (
    (b0 as u32) | ((b1 as u32) << 8) | ((b2 as u32) << 16) | ((b3 as u32) << 24))) by (bit_vector)
        requires
            a0 != b0 || a1 != b1 || a2 != b2 || a3 != b3,
    ;
}

/// Corruption detection: a report whose CRC framing holds stops
/// validating after any single byte of it — payload or CRC field — is
/// changed to a different value. A changed payload byte changes the CRC
/// while the stored field stays; a changed field byte changes the stored
/// value while the CRC stays.
pub proof fn lemma_validate_detects_corruption(seed: u8, report: Seq<u8>, corrupt: Seq<u8>, i: int)
    requires
        spec_crc_valid(seed, report),
        corrupt.len() == report.len(),
        0 <= i < report.len(),
        corrupt[i] != report[i],
        forall|j: int| 0 <= j < report.len() && j != i ==> corrupt[j] == report[j],
    ensures
        !spec_crc_valid(seed, corrupt),
{
    let n = report.len() - 4;
    if i < n {
        lemma_crc_single_byte(seed, report.take(n), corrupt.take(n), i);
        assert(corrupt[n] == report[n] && corrupt[n + 1] == report[n + 1] && corrupt[n + 2]
            == report[n + 2] && corrupt[n + 3] == report[n + 3]);
    } else {
        assert(corrupt.take(n) =~= report.take(n));
        lemma_u32_le_inj(
            report[n],
            report[n + 1],
            report[n + 2],
            report[n + 3],
            corrupt[n],
            corrupt[n + 1],
            corrupt[n + 2],
            corrupt[n + 3],
        );
    }
}

} // verus!
