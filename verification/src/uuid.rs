//! Offline player identifiers: the name-based (version 3) UUID of
//! `"OfflinePlayer:" + username`, written in the usual 8-4-4-4-12 lowercase
//! hexadecimal form.

use vstd::prelude::*;
use crate::text::push_char;

verus! {

/// The MD5 digest of `data`, as the `md5` crate computes it.
pub uninterp spec fn md5_digest(data: Seq<u8>) -> Seq<u8>;

/// Calls `md5::compute`. Claims: the 16 returned bytes are `md5_digest`
/// of the input bytes, a function of those bytes alone.
#[verifier::external_body]
fn md5_compute(data: &[u8]) -> (d: [u8; 16])
    ensures
        d@ == md5_digest(data@),
{
    md5::compute(data).0
}

/// The lowercase hexadecimal digit of `n` (for `n < 16`).
pub open spec fn hex_char(n: u8) -> char {
    seq!['0', '1', '2', '3', '4', '5', '6', '7', '8', '9', 'a', 'b', 'c', 'd', 'e', 'f'][n as int]
}

/// Two hexadecimal digits per byte, high nibble first.
pub open spec fn hex_text(bytes: Seq<u8>) -> Seq<char>
    decreases bytes.len(),
{
    if bytes.len() == 0 {
        Seq::empty()
    } else {
        hex_text(bytes.drop_last()) + seq![hex_char(bytes.last() / 16), hex_char(bytes.last() % 16)]
    }
}

/// The textual form of a 16-byte UUID: groups of 4, 2, 2, 2 and 6 bytes
/// separated by hyphens.
pub open spec fn uuid_text(b: Seq<u8>) -> Seq<char> {
    hex_text(b.subrange(0, 4)) + seq!['-'] + hex_text(b.subrange(4, 6)) + seq!['-']
        + hex_text(b.subrange(6, 8)) + seq!['-'] + hex_text(b.subrange(8, 10)) + seq!['-']
        + hex_text(b.subrange(10, 16))
}

/// A digest with the version field set to 3 and the variant to RFC 4122.
pub open spec fn name_based_bytes(d: Seq<u8>) -> Seq<u8> {
    d.update(6, (d[6] & 0x0f) | 0x30).update(8, (d[8] & 0x3f) | 0x80)
}

/// The bytes hashed for an offline player: UTF-8 of `"OfflinePlayer:" + name`.
pub open spec fn offline_uuid_input(name: Seq<char>) -> Seq<u8> {
    vstd::utf8::encode_utf8("OfflinePlayer:"@ + name)
}

/// The offline UUID of `name`.
pub open spec fn offline_uuid(name: Seq<char>) -> Seq<char> {
    uuid_text(name_based_bytes(md5_digest(offline_uuid_input(name))))
}

/// `c` is a lowercase hexadecimal digit.
pub open spec fn is_hex_char(c: char) -> bool {
    ('0' <= c && c <= '9') || ('a' <= c && c <= 'f')
}

/// The shape of a version-3 UUID string: 36 characters, hyphens at 8, 13, 18
/// and 23, hexadecimal digits elsewhere, version digit `3` at 14 and one of
/// `8 9 a b` at 19.
pub open spec fn is_version3_uuid_text(u: Seq<char>) -> bool {
    &&& u.len() == 36
    &&& u[8] == '-' && u[13] == '-' && u[18] == '-' && u[23] == '-'
    &&& forall|i: int|
        0 <= i < 36 && i != 8 && i != 13 && i != 18 && i != 23 ==> is_hex_char(#[trigger] u[i])
    &&& u[14] == '3'
    &&& u[19] == '8' || u[19] == '9' || u[19] == 'a' || u[19] == 'b'
}

proof fn lemma_hex_char(n: u8)
    requires
        0 <= n < 16,
    ensures
        is_hex_char(hex_char(n)),
{
    assert(is_hex_char(hex_char(n)));
}

proof fn lemma_hex_text(bytes: Seq<u8>)
    ensures
        hex_text(bytes).len() == 2 * bytes.len(),
        forall|k: int|
            #![trigger bytes[k]]
            0 <= k < bytes.len() ==> hex_text(bytes)[2 * k] == hex_char(bytes[k] / 16)
                && hex_text(bytes)[2 * k + 1] == hex_char(bytes[k] % 16),
    decreases bytes.len(),
{
    if bytes.len() > 0 {
        let rest = bytes.drop_last();
        lemma_hex_text(rest);
        assert forall|k: int| #![trigger bytes[k]] 0 <= k < bytes.len() implies hex_text(bytes)[2 * k]
            == hex_char(bytes[k] / 16) && hex_text(bytes)[2 * k + 1] == hex_char(bytes[k] % 16) by {
            if k < bytes.len() - 1 {
                assert(rest[k] == bytes[k]);
            }
        }
    }
}

proof fn lemma_hex_text_digits(bytes: Seq<u8>)
    ensures
        forall|i: int| 0 <= i < hex_text(bytes).len() ==> is_hex_char(#[trigger] hex_text(bytes)[i]),
{
    lemma_hex_text(bytes);
    assert forall|i: int| 0 <= i < hex_text(bytes).len() implies is_hex_char(
        #[trigger] hex_text(bytes)[i],
    ) by {
        let k = i / 2;
        assert(hex_text(bytes)[2 * k + 1] == hex_char(bytes[k] % 16));
        lemma_hex_char(bytes[k] / 16);
        lemma_hex_char(bytes[k] % 16);
    }
}

/// Every 16-byte digest, once given the version-3 marks, prints as a
/// version-3 UUID.
pub proof fn lemma_name_based_uuid_shape(d: Seq<u8>)
    requires
        d.len() == 16,
    ensures
        is_version3_uuid_text(uuid_text(name_based_bytes(d))),
{
    let b = name_based_bytes(d);
    let g0 = b.subrange(0, 4);
    let g1 = b.subrange(4, 6);
    let g2 = b.subrange(6, 8);
    let g3 = b.subrange(8, 10);
    let g4 = b.subrange(10, 16);
    lemma_hex_text(g0);
    lemma_hex_text(g1);
    lemma_hex_text(g2);
    lemma_hex_text(g3);
    lemma_hex_text(g4);
    lemma_hex_text_digits(g0);
    lemma_hex_text_digits(g1);
    lemma_hex_text_digits(g2);
    lemma_hex_text_digits(g3);
    lemma_hex_text_digits(g4);
    let u = uuid_text(b);
    let x6 = d[6];
    let x8 = d[8];
    assert(((x6 & 0x0f) | 0x30) / 16 == 3) by (bit_vector);
    assert(8 <= ((x8 & 0x3f) | 0x80) / 16 <= 11) by (bit_vector);
    assert(g2[0] == (x6 & 0x0f) | 0x30);
    assert(g3[0] == (x8 & 0x3f) | 0x80);
    assert(hex_text(g2)[0] == hex_char(g2[0] / 16));
    assert(hex_text(g3)[0] == hex_char(g3[0] / 16));
    assert(u[14] == hex_text(g2)[0]);
    assert(u[19] == hex_text(g3)[0]);
    assert(u[14] == '3');
    assert forall|i: int|
        0 <= i < 36 && i != 8 && i != 13 && i != 18 && i != 23 implies is_hex_char(
        #[trigger] u[i],
    ) by {
        if i < 8 {
            assert(u[i] == hex_text(g0)[i]);
        } else if i < 13 {
            assert(u[i] == hex_text(g1)[i - 9]);
        } else if i < 18 {
            assert(u[i] == hex_text(g2)[i - 14]);
        } else if i < 23 {
            assert(u[i] == hex_text(g3)[i - 19]);
        } else {
            assert(u[i] == hex_text(g4)[i - 24]);
        }
    }
}

/// The hexadecimal digit of `n`.
fn hex_digit(n: u8) -> (c: char)
    requires
        n < 16,
    ensures
        c == hex_char(n),
{
    match n {
        0 => '0',
        1 => '1',
        2 => '2',
        3 => '3',
        4 => '4',
        5 => '5',
        6 => '6',
        7 => '7',
        8 => '8',
        9 => '9',
        10 => 'a',
        11 => 'b',
        12 => 'c',
        13 => 'd',
        14 => 'e',
        _ => 'f',
    }
}

/// Appends the hexadecimal text of `bytes[from..to]` to `out`.
fn append_hex(out: &mut String, bytes: &Vec<u8>, from: usize, to: usize)
    requires
        from <= to <= bytes.len(),
    ensures
        final(out)@ == old(out)@ + hex_text(bytes@.subrange(from as int, to as int)),
{
    let ghost start = out@;
    let mut i = from;
    assert(bytes@.subrange(from as int, from as int) =~= Seq::<u8>::empty());
    assert(start + hex_text(Seq::<u8>::empty()) =~= start);
    while i < to
        invariant
            from <= i <= to <= bytes.len(),
            out@ == start + hex_text(bytes@.subrange(from as int, i as int)),
        decreases to - i,
    {
        let b = bytes[i];
        push_char(out, hex_digit(b / 16));
        push_char(out, hex_digit(b % 16));
        assert(bytes@.subrange(from as int, i + 1).drop_last() =~= bytes@.subrange(
            from as int,
            i as int,
        ));
        assert(out@ =~= start + hex_text(bytes@.subrange(from as int, i + 1)));
        i = i + 1;
    }
}

/// The UUID text of a 16-byte MD5 digest, once the digest is marked as a
/// version-3 name-based UUID (version nibble 3, RFC 4122 variant).
pub fn name_based_uuid(digest: &[u8; 16]) -> (r: String)
    ensures
        r@ == uuid_text(name_based_bytes(digest@)),
        is_version3_uuid_text(r@),
{
    let mut bytes: Vec<u8> = Vec::new();
    let mut i: usize = 0;
    while i < 16
        invariant
            i <= 16,
            digest@.len() == 16,
            bytes@ == name_based_bytes(digest@).take(i as int),
        decreases 16 - i,
    {
        let b = if i == 6 {
            (digest[6] & 0x0f) | 0x30
        } else if i == 8 {
            (digest[8] & 0x3f) | 0x80
        } else {
            digest[i]
        };
        bytes.push(b);
        assert(bytes@ =~= name_based_bytes(digest@).take(i + 1));
        i = i + 1;
    }
    assert(bytes@ =~= name_based_bytes(digest@));
    let mut out = String::new();
    append_hex(&mut out, &bytes, 0, 4);
    push_char(&mut out, '-');
    append_hex(&mut out, &bytes, 4, 6);
    push_char(&mut out, '-');
    append_hex(&mut out, &bytes, 6, 8);
    push_char(&mut out, '-');
    append_hex(&mut out, &bytes, 8, 10);
    push_char(&mut out, '-');
    append_hex(&mut out, &bytes, 10, 16);
    assert(out@ =~= uuid_text(bytes@));
    proof {
        lemma_name_based_uuid_shape(digest@);
    }
    out
}

/// The offline UUID of `username`: MD5 of `"OfflinePlayer:" + username`,
/// marked as a version-3 name-based UUID and printed in 8-4-4-4-12 form.
/// The same name always gets the same UUID.
pub fn generate_offline_uuid(username: &str) -> (r: String)
    ensures
        r@ == offline_uuid(username@),
        is_version3_uuid_text(r@),
{
    let input = String::from_str("OfflinePlayer:").concat(username);
    let digest = md5_compute(input.as_str().as_bytes());
    name_based_uuid(&digest)
}

} // verus!
