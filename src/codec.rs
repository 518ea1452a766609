use crate::header::{
    ErrorCode, Flags, Header, OpCode, is_error_code_value, is_op_code_value,
};
use crate::parser::ParseError;
use vstd::prelude::*;

verus! {

/// Length of the header on the wire, in bytes.
pub const HEADER_LEN: usize = 12;

/// Bit `i` of `x`, counting from the least significant.
pub open spec fn bit_set(x: u8, i: u8) -> bool {
    (x >> i) & 1 == 1
}

/// `mask` when `c` holds, else no bit.
pub open spec fn bits_if(c: bool, mask: u8) -> u8 {
    if c {
        mask
    } else {
        0
    }
}

/// The big-endian 16-bit word at offset `i` of `b`.
pub open spec fn word_at(b: Seq<u8>, i: int) -> u16 {
    ((b[i] as u16) << 8u16) | (b[i + 1] as u16)
}

/// The raw operation code: bits 6 to 3 of the third byte.
pub open spec fn op_code_field(b: Seq<u8>) -> u8 {
    (b[2] >> 3u8) & 0x0F
}

/// The raw response code: the low four bits of the fourth byte.
pub open spec fn rcode_field(b: Seq<u8>) -> u8 {
    b[3] & 0x0F
}

/// `f` holds exactly the flags that the second word of `b` carries: QR in bit 7,
/// AA, TC and RD in bits 2 to 0 of the third byte, and RA in bit 7 of the fourth.
pub open spec fn flags_agree(f: Flags, b: Seq<u8>) -> bool {
    &&& f.has(Flags::QR) == bit_set(b[2], 7)
    &&& f.has(Flags::AA) == bit_set(b[2], 2)
    &&& f.has(Flags::TC) == bit_set(b[2], 1)
    &&& f.has(Flags::RD) == bit_set(b[2], 0)
    &&& f.has(Flags::RA) == bit_set(b[3], 7)
}

/// `h` is the header that the first twelve bytes of `b` describe.
pub open spec fn describes(b: Seq<u8>, h: Header) -> bool {
    &&& h.id == word_at(b, 0)
    &&& h.op_code.value() == op_code_field(b)
    &&& h.status.value() == rcode_field(b)
    &&& flags_agree(h.flags, b)
    &&& h.question_count == word_at(b, 4)
    &&& h.answer_count == word_at(b, 6)
    &&& h.auth_count == word_at(b, 8)
    &&& h.additional_count == word_at(b, 10)
}

/// The third byte of the encoding: QR, operation code, AA, TC, RD.
pub open spec fn encoded_flags_hi(h: Header) -> u8 {
    bits_if(h.flags.has(Flags::QR), 0x80) | (h.op_code.value() << 3u8) | bits_if(
        h.flags.has(Flags::AA),
        0x04,
    ) | bits_if(h.flags.has(Flags::TC), 0x02) | bits_if(h.flags.has(Flags::RD), 0x01)
}

/// The fourth byte of the encoding: RA, zero reserved bits, response code.
pub open spec fn encoded_flags_lo(h: Header) -> u8 {
    bits_if(h.flags.has(Flags::RA), 0x80) | h.status.value()
}

/// The high byte of a word.
pub open spec fn hi(w: u16) -> u8 {
    (w >> 8u16) as u8
}

/// The low byte of a word.
pub open spec fn lo(w: u16) -> u8 {
    (w & 0xFF) as u8
}

/// The twelve bytes of `h` on the wire.
pub open spec fn encoding(h: Header) -> Seq<u8> {
    seq![
        hi(h.id),
        lo(h.id),
        encoded_flags_hi(h),
        encoded_flags_lo(h),
        hi(h.question_count),
        lo(h.question_count),
        hi(h.answer_count),
        lo(h.answer_count),
        hi(h.auth_count),
        lo(h.auth_count),
        hi(h.additional_count),
        lo(h.additional_count),
    ]
}

/// The flags that the bits of the third and fourth bytes give, one by one.
proof fn lemma_wire_flags(b2: u8, b3: u8)
    by (bit_vector)
    ensures
        ({
            let v = (((b2 >> 7u8) << 4u8) | ((b2 & 0x07) << 1u8) | (b3 >> 7u8)) & 0x1F;
            &&& (v & 0x10 == 0x10) == ((b2 >> 7u8) & 1 == 1)
            &&& (v & 0x08 == 0x08) == ((b2 >> 2u8) & 1 == 1)
            &&& (v & 0x04 == 0x04) == ((b2 >> 1u8) & 1 == 1)
            &&& (v & 0x02 == 0x02) == ((b2 >> 0u8) & 1 == 1)
            &&& (v & 0x01 == 0x01) == ((b3 >> 7u8) & 1 == 1)
        }),
{
}

/// The flags carried by the third and fourth bytes of a header.
fn wire_flags(b2: u8, b3: u8) -> (f: Flags)
    ensures
        f.wf(),
        f.has(Flags::QR) == bit_set(b2, 7),
        f.has(Flags::AA) == bit_set(b2, 2),
        f.has(Flags::TC) == bit_set(b2, 1),
        f.has(Flags::RD) == bit_set(b2, 0),
        f.has(Flags::RA) == bit_set(b3, 7),
{
    let bits: u8 = ((b2 >> 7u8) << 4u8) | ((b2 & 0x07) << 1u8) | (b3 >> 7u8);
    proof {
        lemma_wire_flags(b2, b3);
    }
    Flags::from_bits_truncate(bits)
}

/// The big-endian word at offset `i`.
fn read_word(b: &[u8], i: usize) -> (r: u16)
    requires
        i + 1 < b@.len(),
    ensures
        r == word_at(b@, i as int),
{
    ((b[i] as u16) << 8u16) | (b[i + 1] as u16)
}

/// Decodes the header at the start of `bytes`.
///
/// A buffer shorter than the header fails with `NotEnoughBytes(12, len)`. An
/// operation code outside its registry fails with `UnsupportedValue` of kind
/// `OpCode`; then a response code outside its registry with kind `ErrorCode`.
/// The reserved bits are dropped; the bytes after the header are not read.
pub fn decode(bytes: &[u8]) -> (r: Result<Header, ParseError>)
    ensures
        bytes@.len() < HEADER_LEN ==> (r matches Err(ParseError::NotEnoughBytes(need, have))
            && need == HEADER_LEN && have == bytes@.len()),
        bytes@.len() >= HEADER_LEN && !is_op_code_value(op_code_field(bytes@)) ==> (r matches Err(
            e,
        ) && e.is_unsupported(op_code_field(bytes@), "OpCode"@)),
        bytes@.len() >= HEADER_LEN && is_op_code_value(op_code_field(bytes@))
            && !is_error_code_value(rcode_field(bytes@)) ==> (r matches Err(e) && e.is_unsupported(
            rcode_field(bytes@),
            "ErrorCode"@,
        )),
        r is Ok <==> (bytes@.len() >= HEADER_LEN && is_op_code_value(op_code_field(bytes@))
            && is_error_code_value(rcode_field(bytes@))),
        r matches Ok(h) ==> h.wf() && describes(bytes@, h),
{
    if bytes.len() < HEADER_LEN {
        return Err(ParseError::NotEnoughBytes(HEADER_LEN, bytes.len()));
    }
    let id = read_word(bytes, 0);
    let b2 = bytes[2];
    let b3 = bytes[3];
    let op_code = match OpCode::from_u8((b2 >> 3u8) & 0x0F) {
        Ok(c) => c,
        Err(e) => return Err(e),
    };
    let status = match ErrorCode::from_u8(b3 & 0x0F) {
        Ok(c) => c,
        Err(e) => return Err(e),
    };
    let flags = wire_flags(b2, b3);
    Ok(
        Header {
            id,
            op_code,
            status,
            flags,
            question_count: read_word(bytes, 4),
            answer_count: read_word(bytes, 6),
            auth_count: read_word(bytes, 8),
            additional_count: read_word(bytes, 10),
        },
    )
}

/// Encodes `h` into the twelve bytes of the wire format, reserved bits zero.
pub fn encode(h: &Header) -> (r: [u8; 12])
    ensures
        r@ == encoding(*h),
{
    let f = h.flags;
    let qr: u8 = if f.contains(Flags::QR) { 0x80 } else { 0 };
    let aa: u8 = if f.contains(Flags::AA) { 0x04 } else { 0 };
    let tc: u8 = if f.contains(Flags::TC) { 0x02 } else { 0 };
    let rd: u8 = if f.contains(Flags::RD) { 0x01 } else { 0 };
    let ra: u8 = if f.contains(Flags::RA) { 0x80 } else { 0 };
    let flags_hi: u8 = qr | (h.op_code.to_u8() << 3u8) | aa | tc | rd;
    let flags_lo: u8 = ra | h.status.to_u8();
    let r = [
        (h.id >> 8u16) as u8,
        (h.id & 0xFF) as u8,
        flags_hi,
        flags_lo,
        (h.question_count >> 8u16) as u8,
        (h.question_count & 0xFF) as u8,
        (h.answer_count >> 8u16) as u8,
        (h.answer_count & 0xFF) as u8,
        (h.auth_count >> 8u16) as u8,
        (h.auth_count & 0xFF) as u8,
        (h.additional_count >> 8u16) as u8,
        (h.additional_count & 0xFF) as u8,
    ];
    assert(r@ =~= encoding(*h));
    r
}

/// The bits of the third byte of an encoding give back what was packed in it.
proof fn lemma_flags_hi_round_trip(q: u8, v: u8, a: u8, t: u8, d: u8)
    by (bit_vector)
    requires
        q == 0 || q == 0x80,
        a == 0 || a == 0x04,
        t == 0 || t == 0x02,
        d == 0 || d == 0x01,
        v < 16,
    ensures
        ({
            let x = q | (v << 3u8) | a | t | d;
            &&& (x >> 3u8) & 0x0F == v
            &&& ((x >> 7u8) & 1 == 1) == (q == 0x80)
            &&& ((x >> 2u8) & 1 == 1) == (a == 0x04)
            &&& ((x >> 1u8) & 1 == 1) == (t == 0x02)
            &&& ((x >> 0u8) & 1 == 1) == (d == 0x01)
        }),
{
}

/// The bits of the fourth byte of an encoding give back what was packed in it.
proof fn lemma_flags_lo_round_trip(ra: u8, s: u8)
    by (bit_vector)
    requires
        ra == 0 || ra == 0x80,
        s < 16,
    ensures
        (ra | s) & 0x0F == s,
        (((ra | s) >> 7u8) & 1 == 1) == (ra == 0x80),
{
}

/// A word is its high byte followed by its low byte.
proof fn lemma_word_round_trip(w: u16)
    by (bit_vector)
    ensures
        ((((w >> 8u16) as u8) as u16) << 8u16) | (((w & 0xFF) as u8) as u16) == w,
{
}

/// Two well-formed flag sets that hold the same named flags are equal.
proof fn lemma_flags_determined(f: Flags, g: Flags)
    requires
        f.wf(),
        g.wf(),
        f.has(Flags::QR) == g.has(Flags::QR),
        f.has(Flags::AA) == g.has(Flags::AA),
        f.has(Flags::TC) == g.has(Flags::TC),
        f.has(Flags::RD) == g.has(Flags::RD),
        f.has(Flags::RA) == g.has(Flags::RA),
    ensures
        f == g,
{
    let x = f@;
    let y = g@;
    assert(x == y) by (bit_vector)
        requires
            x & !0x1Fu8 == 0,
            y & !0x1Fu8 == 0,
            (x & 0x10 == 0x10) == (y & 0x10 == 0x10),
            (x & 0x08 == 0x08) == (y & 0x08 == 0x08),
            (x & 0x04 == 0x04) == (y & 0x04 == 0x04),
            (x & 0x02 == 0x02) == (y & 0x02 == 0x02),
            (x & 0x01 == 0x01) == (y & 0x01 == 0x01),
    ;
    Flags::lemma_view_injective(f, g);
}

/// Bytes describe at most one well-formed header, so what `decode` returns is
/// fixed by the bytes.
pub proof fn lemma_describes_unique(b: Seq<u8>, g: Header, h: Header)
    requires
        g.wf(),
        h.wf(),
        describes(b, g),
        describes(b, h),
    ensures
        g == h,
{
    lemma_flags_determined(g.flags, h.flags);
}

/// Decoding what `encode` writes gives the header back: the encoding is long
/// enough, both of its codes are in their registries, and the one well-formed
/// header that it describes is `h` itself.
pub proof fn lemma_decode_encode(h: Header, g: Header)
    requires
        h.wf(),
        g.wf(),
    ensures
        encoding(h).len() == HEADER_LEN,
        is_op_code_value(op_code_field(encoding(h))),
        is_error_code_value(rcode_field(encoding(h))),
        describes(encoding(h), g) <==> g == h,
{
    let b = encoding(h);
    let f = h.flags;
    lemma_flags_hi_round_trip(
        bits_if(f.has(Flags::QR), 0x80),
        h.op_code.value(),
        bits_if(f.has(Flags::AA), 0x04),
        bits_if(f.has(Flags::TC), 0x02),
        bits_if(f.has(Flags::RD), 0x01),
    );
    lemma_flags_lo_round_trip(bits_if(f.has(Flags::RA), 0x80), h.status.value());
    lemma_word_round_trip(h.id);
    lemma_word_round_trip(h.question_count);
    lemma_word_round_trip(h.answer_count);
    lemma_word_round_trip(h.auth_count);
    lemma_word_round_trip(h.additional_count);
    assert(describes(b, h));
    if describes(b, g) {
        lemma_describes_unique(b, g, h);
    }
}

} // verus!
