//! Single-field reads of MessagePack values, through polywrap's `ReadDecoder`.
//!
//! A reader is a cursor over a byte buffer; its state, as far as the decoding
//! logic is concerned, is the sequence of bytes it has not consumed yet.
use polywrap_wasm_rs::{Context, EncodeError, Read, ReadDecoder, Write, WriteEncoder};
use vstd::prelude::*;
use vstd::utf8::{decode_utf8, encode_utf8, valid_utf8};

verus! {

#[verifier::external_type_specification]
#[verifier::external_body]
pub struct ExReadDecoder(ReadDecoder);

/// The bytes that a reader has not consumed yet.
pub uninterp spec fn unread_bytes(r: ReadDecoder) -> Seq<u8>;

/// The number that the bytes of `b` spell, most significant first.
pub open spec fn big_endian(b: Seq<u8>) -> nat
    decreases b.len(),
{
    if b.len() == 0 {
        0
    } else {
        big_endian(b.drop_last()) * 256 + b.last() as nat
    }
}

/// A length held in the `width` bytes after the marker `rest[0]`, and the
/// bytes after it; `None` when the buffer ends before.
pub open spec fn length_after_marker(rest: Seq<u8>, width: int) -> Option<(nat, Seq<u8>)> {
    if rest.len() >= 1 + width {
        Some((big_endian(rest.subrange(1, 1 + width)), rest.subrange(1 + width, rest.len() as int)))
    } else {
        None
    }
}

/// Up to `n` bytes from the front of `rest` (fewer when it ends first), and
/// the bytes after them.
pub open spec fn take_up_to(rest: Seq<u8>, n: nat) -> (Seq<u8>, Seq<u8>) {
    let k = if n <= rest.len() { n as int } else { rest.len() as int };
    (rest.take(k), rest.skip(k))
}

/// `Read::read_map_length`: nil is an empty map (its marker is consumed);
/// fixmap holds the count in its low four bits; map16 and map32 hold it in
/// the two or four bytes after the marker.
pub open spec fn map_length_read(rest: Seq<u8>) -> Option<(nat, Seq<u8>)> {
    if rest.len() == 0 {
        None
    } else if rest[0] == 0xc0 {
        Some((0, rest.drop_first()))
    } else if 0x80 <= rest[0] && rest[0] <= 0x8f {
        Some(((rest[0] - 0x80) as nat, rest.drop_first()))
    } else if rest[0] == 0xde {
        length_after_marker(rest, 2)
    } else if rest[0] == 0xdf {
        length_after_marker(rest, 4)
    } else {
        None
    }
}

/// `Read::read_array_length`: nil is an empty array; fixarray holds the
/// count in its low four bits; array16 and array32 after the marker.
pub open spec fn array_length_read(rest: Seq<u8>) -> Option<(nat, Seq<u8>)> {
    if rest.len() == 0 {
        None
    } else if rest[0] == 0xc0 {
        Some((0, rest.drop_first()))
    } else if 0x90 <= rest[0] && rest[0] <= 0x9f {
        Some(((rest[0] - 0x90) as nat, rest.drop_first()))
    } else if rest[0] == 0xdc {
        length_after_marker(rest, 2)
    } else if rest[0] == 0xdd {
        length_after_marker(rest, 4)
    } else {
        None
    }
}

/// `Read::read_string_length`: nil is the empty string; fixstr holds the
/// length in its low five bits, and a fixarray marker is taken as a length
/// too; str8, str16 and str32 hold it after the marker.
pub open spec fn string_length_read(rest: Seq<u8>) -> Option<(nat, Seq<u8>)> {
    if rest.len() == 0 {
        None
    } else if rest[0] == 0xc0 {
        Some((0, rest.drop_first()))
    } else if 0xa0 <= rest[0] && rest[0] <= 0xbf {
        Some(((rest[0] - 0xa0) as nat, rest.drop_first()))
    } else if 0x90 <= rest[0] && rest[0] <= 0x9f {
        Some(((rest[0] - 0x90) as nat, rest.drop_first()))
    } else if rest[0] == 0xd9 {
        length_after_marker(rest, 1)
    } else if rest[0] == 0xda {
        length_after_marker(rest, 2)
    } else if rest[0] == 0xdb {
        length_after_marker(rest, 4)
    } else {
        None
    }
}

/// `Read::read_bytes_length`: nil is the empty buffer; a fixarray marker
/// holds a length in its low four bits; bin8, bin16 and bin32 after the marker.
pub open spec fn binary_length_read(rest: Seq<u8>) -> Option<(nat, Seq<u8>)> {
    if rest.len() == 0 {
        None
    } else if rest[0] == 0xc0 {
        Some((0, rest.drop_first()))
    } else if 0x90 <= rest[0] && rest[0] <= 0x9f {
        Some(((rest[0] - 0x90) as nat, rest.drop_first()))
    } else if rest[0] == 0xc4 {
        length_after_marker(rest, 1)
    } else if rest[0] == 0xc5 {
        length_after_marker(rest, 2)
    } else if rest[0] == 0xc6 {
        length_after_marker(rest, 4)
    } else {
        None
    }
}

/// `Read::read_bytes`: a length, then that many bytes, or as many as are left.
pub open spec fn binary_read(rest: Seq<u8>) -> Option<(Seq<u8>, Seq<u8>)> {
    match binary_length_read(rest) {
        None => None,
        Some((n, r)) => Some(take_up_to(r, n)),
    }
}

/// `Read::read_string`: the bytes as `read_bytes` would take them after a
/// string length, which must be valid UTF-8.
pub open spec fn string_read(rest: Seq<u8>) -> Option<(Seq<char>, Seq<u8>)> {
    match string_length_read(rest) {
        None => None,
        Some((n, r)) => {
            let (b, after) = take_up_to(r, n);
            if valid_utf8(b) {
                Some((decode_utf8(b), after))
            } else {
                None
            }
        },
    }
}

/// The MessagePack nil marker.
pub open spec fn is_nil_marker(b: u8) -> bool {
    b == 0xc0
}

/// The MessagePack markers of a string: fixstr, str8, str16 and str32.
pub open spec fn is_string_marker(b: u8) -> bool {
    (0xa0 <= b && b <= 0xbf) || b == 0xd9 || b == 0xda || b == 0xdb
}

/// Relies on `ReadDecoder::new`: a fresh reader starts at the first byte of a
/// copy of `buf`.
#[verifier::external_body]
pub(crate) fn open_reader(buf: &[u8]) -> (r: ReadDecoder)
    ensures
        unread_bytes(r) == buf@,
{
    ReadDecoder::new(buf, Context::new())
}

/// Relies on `Read::is_next_string`: it peeks at the next marker without
/// consuming it, and fails only when no byte is left.
#[verifier::external_body]
pub(crate) fn next_is_string(r: &mut ReadDecoder) -> (res: Option<bool>)
    ensures
        unread_bytes(*final(r)) == unread_bytes(*old(r)),
        res == (if unread_bytes(*old(r)).len() == 0 {
            None::<bool>
        } else {
            Some(is_string_marker(unread_bytes(*old(r))[0]))
        }),
{
    r.is_next_string().ok()
}

/// Relies on `Read::is_next_nil`: it consumes the next marker when it is nil,
/// leaves it otherwise, and fails only when no byte is left.
#[verifier::external_body]
pub(crate) fn next_is_nil(r: &mut ReadDecoder) -> (res: Option<bool>)
    ensures
        unread_bytes(*old(r)).len() == 0 ==> res is None,
        unread_bytes(*old(r)).len() > 0 ==> res == Some(is_nil_marker(unread_bytes(*old(r))[0])),
        res == Some(true) ==> unread_bytes(*final(r)) == unread_bytes(*old(r)).drop_first(),
        res == Some(false) ==> unread_bytes(*final(r)) == unread_bytes(*old(r)),
{
    r.is_next_nil().ok()
}

/// Relies on `Read::read_string`: a string value and the bytes after it.
#[verifier::external_body]
pub(crate) fn read_str(r: &mut ReadDecoder) -> (res: Option<String>)
    ensures
        match res {
            Some(s) => string_read(unread_bytes(*old(r))) == Some((s@, unread_bytes(*final(r)))),
            None => string_read(unread_bytes(*old(r))) is None,
        },
{
    r.read_string().ok()
}

/// Relies on `Read::read_bytes`: a binary value and the bytes after it.
#[verifier::external_body]
pub(crate) fn read_bin(r: &mut ReadDecoder) -> (res: Option<Vec<u8>>)
    ensures
        match res {
            Some(v) => binary_read(unread_bytes(*old(r))) == Some((v@, unread_bytes(*final(r)))),
            None => binary_read(unread_bytes(*old(r))) is None,
        },
{
    r.read_bytes().ok()
}

/// Relies on `Read::read_map_length`: the number of entries of a map header.
#[verifier::external_body]
pub(crate) fn read_map_len(r: &mut ReadDecoder) -> (res: Option<u32>)
    ensures
        match res {
            Some(n) => map_length_read(unread_bytes(*old(r))) == Some((n as nat, unread_bytes(*final(r)))),
            None => map_length_read(unread_bytes(*old(r))) is None,
        },
{
    r.read_map_length().ok()
}

/// Relies on `Read::read_array_length`: the number of items of an array header.
#[verifier::external_body]
pub(crate) fn read_array_len(r: &mut ReadDecoder) -> (res: Option<u32>)
    ensures
        match res {
            Some(n) => array_length_read(unread_bytes(*old(r))) == Some((n as nat, unread_bytes(*final(r)))),
            None => array_length_read(unread_bytes(*old(r))) is None,
        },
{
    r.read_array_length().ok()
}


#[verifier::external_type_specification]
#[verifier::external_body]
pub struct ExEncodeError(EncodeError);

/// The MessagePack header of a string of `n` bytes: fixstr below 32 bytes,
/// else str8, str16 or str32 with a big-endian length.
pub open spec fn string_header(n: nat) -> Seq<u8> {
    if n < 32 {
        seq![(0xa0 + n) as u8]
    } else if n <= 0xff {
        seq![0xd9u8, n as u8]
    } else if n <= 0xffff {
        seq![0xdau8, (n / 0x100) as u8, (n % 0x100) as u8]
    } else {
        seq![
            0xdbu8,
            (n / 0x100_0000) as u8,
            ((n / 0x1_0000) % 0x100) as u8,
            ((n / 0x100) % 0x100) as u8,
            (n % 0x100) as u8,
        ]
    }
}

/// A string packed as one MessagePack value: header, then its UTF-8 bytes.
pub open spec fn packed_string(s: Seq<char>) -> Seq<u8> {
    string_header(encode_utf8(s).len()) + encode_utf8(s)
}

/// Relies on `WriteEncoder::new`, `Write::write_string` and
/// `WriteEncoder::get_buffer`: a fresh encoder holds exactly the string value
/// written to it.
#[verifier::external_body]
fn write_string_value(s: &str) -> (r: Result<Vec<u8>, EncodeError>)
    requires
        encode_utf8(s@).len() <= u32::MAX,
    ensures
        r matches Ok(b) ==> b@ == packed_string(s@),
{
    let mut encoder = WriteEncoder::new(&[], Context::new());
    encoder.write_string(s)?;
    Ok(encoder.get_buffer())
}

proof fn lemma_big_endian_bytes(b: Seq<u8>, n: nat)
    requires
        n <= u32::MAX,
        b.len() <= 4,
        b.len() == 1 ==> n <= 0xff && b == seq![n as u8],
        b.len() == 2 ==> n <= 0xffff && b == seq![(n / 0x100) as u8, (n % 0x100) as u8],
        b.len() == 4 ==> b == seq![
            (n / 0x100_0000) as u8,
            ((n / 0x1_0000) % 0x100) as u8,
            ((n / 0x100) % 0x100) as u8,
            (n % 0x100) as u8,
        ],
        b.len() == 1 || b.len() == 2 || b.len() == 4,
    ensures
        big_endian(b) == n,
{
    reveal_with_fuel(big_endian, 5);
    if b.len() == 1 {
        assert(b.drop_last() =~= Seq::<u8>::empty());
    } else if b.len() == 2 {
        assert(b.drop_last() =~= seq![(n / 0x100) as u8]);
        assert(b.drop_last().drop_last() =~= Seq::<u8>::empty());
        assert(n == (n / 0x100) * 0x100 + n % 0x100) by (nonlinear_arith);
    } else {
        let b3 = b.drop_last();
        let b2 = b3.drop_last();
        let b1 = b2.drop_last();
        assert(b3 =~= seq![(n / 0x100_0000) as u8, ((n / 0x1_0000) % 0x100) as u8, ((n / 0x100) % 0x100) as u8]);
        assert(b2 =~= seq![(n / 0x100_0000) as u8, ((n / 0x1_0000) % 0x100) as u8]);
        assert(b1 =~= seq![(n / 0x100_0000) as u8]);
        assert(b1.drop_last() =~= Seq::<u8>::empty());
        assert(n / 0x100_0000 < 0x100);
        assert(((n / 0x100_0000) * 0x100 + (n / 0x1_0000) % 0x100) == n / 0x1_0000) by (nonlinear_arith);
        assert((n / 0x1_0000) * 0x100 + (n / 0x100) % 0x100 == n / 0x100) by (nonlinear_arith);
        assert((n / 0x100) * 0x100 + n % 0x100 == n) by (nonlinear_arith);
    }
}

/// A packed string starts with a string marker and reads back as the same
/// string, with no byte left over.
pub proof fn lemma_packed_string_reads_back(s: Seq<char>)
    requires
        encode_utf8(s).len() <= u32::MAX,
    ensures
        packed_string(s).len() > 0,
        is_string_marker(packed_string(s)[0]),
        string_read(packed_string(s)) == Some((s, Seq::<u8>::empty())),
{
    broadcast use vstd::utf8::encode_utf8_valid_utf8, vstd::utf8::encode_utf8_decode_utf8;

    let b = encode_utf8(s);
    let n = b.len();
    let h = string_header(n);
    let p = packed_string(s);
    assert(p == h + b);
    if n < 32 {
        assert(p.drop_first() =~= b);
    } else if n <= 0xff {
        assert(p.subrange(1, 2) =~= seq![n as u8]);
        lemma_big_endian_bytes(p.subrange(1, 2), n);
        assert(p.subrange(2, p.len() as int) =~= b);
    } else if n <= 0xffff {
        assert(p.subrange(1, 3) =~= seq![(n / 0x100) as u8, (n % 0x100) as u8]);
        lemma_big_endian_bytes(p.subrange(1, 3), n);
        assert(p.subrange(3, p.len() as int) =~= b);
    } else {
        assert(p.subrange(1, 5) =~= seq![
            (n / 0x100_0000) as u8,
            ((n / 0x1_0000) % 0x100) as u8,
            ((n / 0x100) % 0x100) as u8,
            (n % 0x100) as u8,
        ]);
        lemma_big_endian_bytes(p.subrange(1, 5), n);
        assert(p.subrange(5, p.len() as int) =~= b);
    }
    assert(b.take(n as int) =~= b);
    assert(b.skip(n as int) =~= Seq::<u8>::empty());
}

/// Packs a string as one MessagePack string value.
pub fn encode_string(s: String) -> (r: Result<Vec<u8>, EncodeError>)
    requires
        encode_utf8(s@).len() <= u32::MAX,
    ensures
        r matches Ok(b) ==> b@ == packed_string(s@),
{
    write_string_value(s.as_str())
}

} // verus!
