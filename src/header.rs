use vstd::prelude::*;

use crate::cursor::{be16_at, byte_at, taken, ByteCursor};
use crate::op_code::OpCode;
use crate::response_code::ResponseCode;

verus! {

/// Whether a message asks (QR bit clear) or answers (QR bit set).
#[derive(Clone, Copy, Debug, PartialEq, Eq, Structural)]
pub enum MessageType {
    Query,
    Response,
}

/// The fixed header of a DNS message (RFC 1035, section 4.1.1).
///
/// On the wire it takes twelve bytes, integers in network byte order:
///
/// ```text
///   byte 0-1   ID
///   byte 2     QR | OPCODE (4 bits) | AA | TC | RD
///   byte 3     RA | Z (3 reserved bits, zero) | RCODE (4 bits)
///   byte 4-5   QDCOUNT
///   byte 6-7   ANCOUNT
///   byte 8-9   NSCOUNT
///   byte 10-11 ARCOUNT
/// ```
#[derive(Clone, Copy, Debug, PartialEq, Eq, Structural)]
pub struct Header {
    /// Identifier that a reply copies from its query.
    pub id: u16,
    pub message_type: MessageType,
    pub op_code: OpCode,
    /// The answering server is an authority for the name asked.
    pub authoritative: bool,
    /// The message was cut to fit the channel.
    pub truncation: bool,
    /// The asker wants the server to resolve recursively.
    pub recursion_desired: bool,
    /// The server offers recursive resolution.
    pub recursion_available: bool,
    pub response_code: ResponseCode,
    pub question_count: u16,
    pub answer_count: u16,
    pub name_server_count: u16,
    pub additional_count: u16,
}

/// The QR bit of the first flag byte.
pub const QR_MASK: u8 = 0x80;
/// The OPCODE bits of the first flag byte.
pub const OPCODE_MASK: u8 = 0x78;
/// The AA bit of the first flag byte.
pub const AA_MASK: u8 = 0x04;
/// The TC bit of the first flag byte.
pub const TC_MASK: u8 = 0x02;
/// The RD bit of the first flag byte.
pub const RD_MASK: u8 = 0x01;
/// The RA bit of the second flag byte.
pub const RA_MASK: u8 = 0x80;
/// The reserved Z bits of the second flag byte.
pub const Z_MASK: u8 = 0x70;
/// The RCODE bits of the second flag byte.
pub const RCODE_MASK: u8 = 0x0f;

/// The high byte of a 16-bit integer.
pub open spec fn hi(v: u16) -> u8 {
    (v / 256) as u8
}

/// The low byte of a 16-bit integer.
pub open spec fn lo(v: u16) -> u8 {
    (v % 256) as u8
}

/// The value of a flag bit: `mask` where `set`, zero elsewhere.
pub open spec fn bit(set: bool, mask: u8) -> u8 {
    if set {
        mask
    } else {
        0
    }
}

impl Header {
    /// Both codes fit their four-bit fields and use a named variant where
    /// one exists: the headers that survive a trip through the wire.
    pub open spec fn wf(self) -> bool {
        self.op_code.wf() && self.response_code.wf()
    }

    /// The header that the bytes `b` hold; a missing byte reads as zero,
    /// a 16-bit field missing either of its bytes as zero.
    pub open spec fn decoded(b: Seq<u8>) -> Header {
        let f1 = byte_at(b, 2);
        let f2 = byte_at(b, 3);
        Header {
            id: be16_at(b, 0),
            message_type: if f1 & QR_MASK == QR_MASK {
                MessageType::Response
            } else {
                MessageType::Query
            },
            op_code: OpCode::from_code_spec((f1 & OPCODE_MASK) >> 3u8),
            authoritative: f1 & AA_MASK == AA_MASK,
            truncation: f1 & TC_MASK == TC_MASK,
            recursion_desired: f1 & RD_MASK == RD_MASK,
            recursion_available: f2 & RA_MASK == RA_MASK,
            response_code: ResponseCode::from_code_spec(f2 & RCODE_MASK),
            question_count: be16_at(b, 4),
            answer_count: be16_at(b, 6),
            name_server_count: be16_at(b, 8),
            additional_count: be16_at(b, 10),
        }
    }

    /// The first flag byte: QR, OPCODE, AA, TC and RD.
    pub open spec fn flags1(self) -> u8 {
        bit(self.message_type == MessageType::Response, QR_MASK) | ((self.op_code.code_spec()
            << 3u8) & OPCODE_MASK) | bit(self.authoritative, AA_MASK) | bit(
            self.truncation,
            TC_MASK,
        ) | bit(self.recursion_desired, RD_MASK)
    }

    /// The second flag byte: RA, zero Z bits, and RCODE.
    pub open spec fn flags2(self) -> u8 {
        bit(self.recursion_available, RA_MASK) | (self.response_code.code_spec() & RCODE_MASK)
    }

    /// The twelve bytes of the header on the wire.
    pub open spec fn encoded(self) -> Seq<u8> {
        seq![
            hi(self.id),
            lo(self.id),
            self.flags1(),
            self.flags2(),
            hi(self.question_count),
            lo(self.question_count),
            hi(self.answer_count),
            lo(self.answer_count),
            hi(self.name_server_count),
            lo(self.name_server_count),
            hi(self.additional_count),
            lo(self.additional_count),
        ]
    }
}

/// Reading `n` bytes after `m` leaves what reading `m + n` at once leaves,
/// and what the second read sees at its start lies at `m` in `b`.
proof fn lemma_read_on(b: Seq<u8>, m: nat, n: nat)
    ensures
        ({
            let rest = b.skip(taken(b, m) as int);
            &&& rest.skip(taken(rest, n) as int) == b.skip(taken(b, m + n) as int)
            &&& byte_at(rest, 0) == byte_at(b, m as int)
            &&& be16_at(rest, 0) == be16_at(b, m as int)
        }),
{
    let rest = b.skip(taken(b, m) as int);
    assert(rest.skip(taken(rest, n) as int) =~= b.skip(taken(b, m + n) as int));
}

impl Header {
    /// Reads a header at the cursor, taking up to twelve bytes. Too short
    /// an input is no error: what is missing reads as zero.
    pub fn read(cursor: &mut ByteCursor) -> (r: Header)
        requires
            old(cursor).wf(),
        ensures
            final(cursor).wf(),
            r == Header::decoded(old(cursor).remaining()),
            final(cursor).remaining() == old(cursor).remaining().skip(
                taken(old(cursor).remaining(), 12) as int,
            ),
    {
        let ghost b = cursor.remaining();
        proof {
            assert(b.skip(taken(b, 0) as int) =~= b);
        }
        let id = cursor.read_u16();
        proof { lemma_read_on(b, 0, 2); }
        let f1 = cursor.read_u8();
        proof { lemma_read_on(b, 2, 1); }
        let f2 = cursor.read_u8();
        proof { lemma_read_on(b, 3, 1); }
        let question_count = cursor.read_u16();
        proof { lemma_read_on(b, 4, 2); }
        let answer_count = cursor.read_u16();
        proof { lemma_read_on(b, 6, 2); }
        let name_server_count = cursor.read_u16();
        proof { lemma_read_on(b, 8, 2); }
        let additional_count = cursor.read_u16();
        proof { lemma_read_on(b, 10, 2); }
        Header {
            id,
            message_type: if f1 & QR_MASK == QR_MASK {
                MessageType::Response
            } else {
                MessageType::Query
            },
            op_code: OpCode::from_code((f1 & OPCODE_MASK) >> 3u8),
            authoritative: f1 & AA_MASK == AA_MASK,
            truncation: f1 & TC_MASK == TC_MASK,
            recursion_desired: f1 & RD_MASK == RD_MASK,
            recursion_available: f2 & RA_MASK == RA_MASK,
            response_code: ResponseCode::from_code(f2 & RCODE_MASK),
            question_count,
            answer_count,
            name_server_count,
            additional_count,
        }
    }

    /// The header that `buf` starts with; total over inputs of any length.
    pub fn decode(buf: &[u8]) -> (r: Header)
        ensures
            r == Header::decoded(buf@),
    {
        let mut cursor = ByteCursor::new(buf);
        Header::read(&mut cursor)
    }

    /// Takes the header off the front of `data`: decodes it and removes the
    /// bytes it used (twelve, or all where fewer are there).
    pub fn parse(data: &mut Vec<u8>) -> (r: Self)
        ensures
            r == Header::decoded(old(data)@),
            final(data)@ == old(data)@.skip(taken(old(data)@, 12) as int),
    {
        let h: Header;
        let used: usize;
        {
            let mut cursor = ByteCursor::new(data.as_slice());
            h = Header::read(&mut cursor);
            used = data.len() - cursor.len();
        }
        let mut rest: Vec<u8> = Vec::new();
        let mut i: usize = used;
        while i < data.len()
            invariant
                used <= i <= data@.len(),
                rest@ == data@.subrange(used as int, i as int),
            decreases data@.len() - i,
        {
            rest.push(data[i]);
            i = i + 1;
            assert(rest@ =~= data@.subrange(used as int, i as int));
        }
        assert(rest@ =~= data@.skip(used as int));
        *data = rest;
        h
    }

    /// The twelve bytes of this header on the wire. The reserved bits are
    /// zero, and each code is cut to its four bits.
    pub fn encode(&self) -> (r: Vec<u8>)
        ensures
            r@ == self.encoded(),
    {
        let qr: u8 = if self.message_type == MessageType::Response {
            QR_MASK
        } else {
            0
        };
        let aa: u8 = if self.authoritative {
            AA_MASK
        } else {
            0
        };
        let tc: u8 = if self.truncation {
            TC_MASK
        } else {
            0
        };
        let rd: u8 = if self.recursion_desired {
            RD_MASK
        } else {
            0
        };
        let ra: u8 = if self.recursion_available {
            RA_MASK
        } else {
            0
        };
        let f1: u8 = qr | ((self.op_code.code() << 3u8) & OPCODE_MASK) | aa | tc | rd;
        let f2: u8 = ra | (self.response_code.code() & RCODE_MASK);
        let r = vec![
            (self.id / 256) as u8,
            (self.id % 256) as u8,
            f1,
            f2,
            (self.question_count / 256) as u8,
            (self.question_count % 256) as u8,
            (self.answer_count / 256) as u8,
            (self.answer_count % 256) as u8,
            (self.name_server_count / 256) as u8,
            (self.name_server_count % 256) as u8,
            (self.additional_count / 256) as u8,
            (self.additional_count % 256) as u8,
        ];
        assert(r@ =~= self.encoded());
        r
    }
}

/// The fields of a first flag byte packed from its parts read back as
/// those parts.
proof fn lemma_flags1_unpack(f: u8, qr: u8, code: u8, aa: u8, tc: u8, rd: u8)
    by (bit_vector)
    requires
        qr == 0 || qr == 0x80,
        code < 16,
        aa == 0 || aa == 0x04,
        tc == 0 || tc == 0x02,
        rd == 0 || rd == 0x01,
        f == qr | ((code << 3u8) & 0x78u8) | aa | tc | rd,
    ensures
        (f & 0x80u8 == 0x80u8) == (qr == 0x80),
        (f & 0x78u8) >> 3u8 == code,
        (f & 0x04u8 == 0x04u8) == (aa == 0x04),
        (f & 0x02u8 == 0x02u8) == (tc == 0x02),
        (f & 0x01u8 == 0x01u8) == (rd == 0x01),
{
}

/// The fields of a second flag byte packed from its parts read back as
/// those parts.
proof fn lemma_flags2_unpack(f: u8, ra: u8, code: u8)
    by (bit_vector)
    requires
        ra == 0 || ra == 0x80,
        code < 16,
        f == ra | (code & 0x0fu8),
    ensures
        (f & 0x80u8 == 0x80u8) == (ra == 0x80),
        f & 0x0fu8 == code,
{
}

/// A first flag byte is the packing of the fields read from it.
proof fn lemma_flags1_repack(f: u8)
    by (bit_vector)
    ensures
        (f & 0x80u8 == 0x80u8) || (f & 0x80u8 == 0),
        (f & 0x04u8 == 0x04u8) || (f & 0x04u8 == 0),
        (f & 0x02u8 == 0x02u8) || (f & 0x02u8 == 0),
        (f & 0x01u8 == 0x01u8) || (f & 0x01u8 == 0),
        (f & 0x78u8) >> 3u8 < 16,
        f == (f & 0x80u8) | ((((f & 0x78u8) >> 3u8) << 3u8) & 0x78u8) | (f & 0x04u8) | (f
            & 0x02u8) | (f & 0x01u8),
{
}

/// A second flag byte with clear reserved bits is the packing of the
/// fields read from it.
proof fn lemma_flags2_repack(f: u8)
    by (bit_vector)
    requires
        f & 0x70u8 == 0,
    ensures
        (f & 0x80u8 == 0x80u8) || (f & 0x80u8 == 0),
        f & 0x0fu8 < 16,
        f == (f & 0x80u8) | ((f & 0x0fu8) & 0x0fu8),
{
}

/// Flipping bit `k` of a first flag byte changes the field that holds
/// that bit and no other.
proof fn lemma_flags1_toggle(x: u8, y: u8, k: u8)
    by (bit_vector)
    requires
        k < 8,
        y == x ^ (1u8 << k),
    ensures
        ((y & 0x80u8 == 0x80u8) != (x & 0x80u8 == 0x80u8)) == (k == 7),
        ((y & 0x78u8) >> 3u8 != (x & 0x78u8) >> 3u8) == (3 <= k && k <= 6),
        ((y & 0x04u8 == 0x04u8) != (x & 0x04u8 == 0x04u8)) == (k == 2),
        ((y & 0x02u8 == 0x02u8) != (x & 0x02u8 == 0x02u8)) == (k == 1),
        ((y & 0x01u8 == 0x01u8) != (x & 0x01u8 == 0x01u8)) == (k == 0),
{
}

/// Flipping bit `k` of a second flag byte changes the field that holds
/// that bit and no other; the reserved bits hold no field.
proof fn lemma_flags2_toggle(x: u8, y: u8, k: u8)
    by (bit_vector)
    requires
        k < 8,
        y == x ^ (1u8 << k),
    ensures
        ((y & 0x80u8 == 0x80u8) != (x & 0x80u8 == 0x80u8)) == (k == 7),
        (y & 0x0fu8 != x & 0x0fu8) == (k < 4),
{
}

/// A 16-bit integer is its high byte times 256 plus its low byte, and
/// two bytes read that way give themselves back.
proof fn lemma_be16(v: u16, h: u8, l: u8)
    ensures
        (hi(v) as int * 256 + lo(v) as int) as u16 == v,
        hi((h as int * 256 + l as int) as u16) == h,
        lo((h as int * 256 + l as int) as u16) == l,
{
}

/// Decoding the bytes that a well-formed header encodes to gives that
/// header back.
pub proof fn lemma_decode_encode(h: Header)
    requires
        h.wf(),
    ensures
        Header::decoded(h.encoded()) == h,
{
    let b = h.encoded();
    crate::op_code::lemma_op_code_code_then_from(h.op_code);
    crate::response_code::lemma_response_code_code_then_from(h.response_code);
    lemma_flags1_unpack(
        h.flags1(),
        bit(h.message_type == MessageType::Response, QR_MASK),
        h.op_code.code_spec(),
        bit(h.authoritative, AA_MASK),
        bit(h.truncation, TC_MASK),
        bit(h.recursion_desired, RD_MASK),
    );
    lemma_flags2_unpack(
        h.flags2(),
        bit(h.recursion_available, RA_MASK),
        h.response_code.code_spec(),
    );
    lemma_be16(h.id, 0, 0);
    lemma_be16(h.question_count, 0, 0);
    lemma_be16(h.answer_count, 0, 0);
    lemma_be16(h.name_server_count, 0, 0);
    lemma_be16(h.additional_count, 0, 0);
    let d = Header::decoded(b);
    assert(d.message_type == h.message_type);
}

/// Encoding the header that twelve bytes decode to gives those bytes back,
/// where the reserved bits among them are zero.
pub proof fn lemma_encode_decode(b: Seq<u8>)
    requires
        b.len() == 12,
        b[3] & Z_MASK == 0,
    ensures
        Header::decoded(b).encoded() == b,
{
    let h = Header::decoded(b);
    lemma_flags1_repack(b[2]);
    lemma_flags2_repack(b[3]);
    crate::op_code::lemma_op_code_from_then_code((b[2] & OPCODE_MASK) >> 3u8);
    crate::response_code::lemma_response_code_from_then_code(b[3] & RCODE_MASK);
    lemma_be16(0, b[0], b[1]);
    lemma_be16(0, b[4], b[5]);
    lemma_be16(0, b[6], b[7]);
    lemma_be16(0, b[8], b[9]);
    lemma_be16(0, b[10], b[11]);
    assert(bit(h.message_type == MessageType::Response, QR_MASK) == b[2] & QR_MASK);
    assert(h.flags1() == b[2]);
    assert(h.flags2() == b[3]);
    assert(h.encoded() =~= b);
}

/// Flipping one bit of the first flag byte changes exactly the field that
/// holds it: QR (bit 7), OPCODE (bits 6 to 3), AA (bit 2), TC (bit 1) or
/// RD (bit 0). Every other field stays as it was.
pub proof fn lemma_flags1_bit_isolation(b: Seq<u8>, k: u8)
    requires
        b.len() >= 3,
        k < 8,
    ensures
        ({
            let h = Header::decoded(b);
            let g = Header::decoded(b.update(2, b[2] ^ (1u8 << k)));
            &&& (g.message_type != h.message_type) == (k == 7)
            &&& (g.op_code != h.op_code) == (3 <= k && k <= 6)
            &&& (g.authoritative != h.authoritative) == (k == 2)
            &&& (g.truncation != h.truncation) == (k == 1)
            &&& (g.recursion_desired != h.recursion_desired) == (k == 0)
            &&& g.id == h.id
            &&& g.recursion_available == h.recursion_available
            &&& g.response_code == h.response_code
            &&& g.question_count == h.question_count
            &&& g.answer_count == h.answer_count
            &&& g.name_server_count == h.name_server_count
            &&& g.additional_count == h.additional_count
        }),
{
    let c = b.update(2, b[2] ^ (1u8 << k));
    lemma_flags1_toggle(b[2], c[2], k);
    let x = (b[2] & OPCODE_MASK) >> 3u8;
    let y = (c[2] & OPCODE_MASK) >> 3u8;
    crate::op_code::lemma_op_code_from_then_code(x);
    crate::op_code::lemma_op_code_from_then_code(y);
    assert(byte_at(c, 3) == byte_at(b, 3));
}

/// Flipping one bit of the second flag byte changes exactly the field that
/// holds it: RA (bit 7) or RCODE (bits 3 to 0). A reserved bit (6 to 4)
/// changes no field.
pub proof fn lemma_flags2_bit_isolation(b: Seq<u8>, k: u8)
    requires
        b.len() >= 4,
        k < 8,
    ensures
        ({
            let h = Header::decoded(b);
            let g = Header::decoded(b.update(3, b[3] ^ (1u8 << k)));
            &&& (g.recursion_available != h.recursion_available) == (k == 7)
            &&& (g.response_code != h.response_code) == (k < 4)
            &&& g.id == h.id
            &&& g.message_type == h.message_type
            &&& g.op_code == h.op_code
            &&& g.authoritative == h.authoritative
            &&& g.truncation == h.truncation
            &&& g.recursion_desired == h.recursion_desired
            &&& g.question_count == h.question_count
            &&& g.answer_count == h.answer_count
            &&& g.name_server_count == h.name_server_count
            &&& g.additional_count == h.additional_count
        }),
{
    let c = b.update(3, b[3] ^ (1u8 << k));
    lemma_flags2_toggle(b[3], c[3], k);
    crate::response_code::lemma_response_code_from_then_code(b[3] & RCODE_MASK);
    crate::response_code::lemma_response_code_from_then_code(c[3] & RCODE_MASK);
    assert(byte_at(c, 2) == byte_at(b, 2));
}

} // verus!
