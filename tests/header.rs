use dns_header::cursor::ByteCursor;
use dns_header::header::{Header, MessageType};
use dns_header::op_code::OpCode;
use dns_header::response_code::ResponseCode;

fn sample() -> Header {
    Header {
        id: 0xbeef,
        message_type: MessageType::Response,
        op_code: OpCode::Status,
        authoritative: true,
        truncation: false,
        recursion_desired: true,
        recursion_available: false,
        response_code: ResponseCode::NXDomain,
        question_count: 1,
        answer_count: 0x0203,
        name_server_count: 0xffff,
        additional_count: 7,
    }
}

#[test]
fn example_vector() {
    let bytes = [0x12u8, 0x34, 0x81, 0x80, 0x00, 0x01, 0x00, 0x02, 0x00, 0x00, 0x00, 0x00];
    let h = Header::decode(&bytes);
    assert_eq!(h.id, 0x1234);
    assert_eq!(h.message_type, MessageType::Response);
    assert_eq!(h.op_code, OpCode::Query);
    assert_eq!(h.op_code.code(), 0);
    assert!(!h.authoritative);
    assert!(!h.truncation);
    assert!(h.recursion_desired);
    assert!(h.recursion_available);
    assert_eq!(h.response_code, ResponseCode::NoError);
    assert_eq!(h.question_count, 1);
    assert_eq!(h.answer_count, 2);
    assert_eq!(h.name_server_count, 0);
    assert_eq!(h.additional_count, 0);
}

#[test]
fn empty_buffer_decodes_to_zero_header() {
    let h = Header::decode(&[]);
    assert_eq!(h.id, 0);
    assert_eq!(h.message_type, MessageType::Query);
    assert_eq!(h.op_code, OpCode::from_code(0));
    assert!(!h.authoritative && !h.truncation && !h.recursion_desired);
    assert!(!h.recursion_available);
    assert_eq!(h.response_code, ResponseCode::from_code(0));
    assert_eq!(h.question_count, 0);
    assert_eq!(h.answer_count, 0);
    assert_eq!(h.name_server_count, 0);
    assert_eq!(h.additional_count, 0);
}

#[test]
fn unallocated_opcode_is_kept() {
    let mut bytes = [0u8; 12];
    bytes[2] = 0b0011_1000;
    let h = Header::decode(&bytes);
    assert_eq!(h.op_code, OpCode::Unknown(7));
    assert_eq!(h.message_type, MessageType::Query);
    assert!(!h.authoritative && !h.truncation && !h.recursion_desired);
    let out = h.encode();
    assert_eq!(out[2], 0b0011_1000);
    assert_eq!(out, bytes.to_vec());
}

#[test]
fn decode_of_encode_gives_header_back() {
    let h = sample();
    let out = h.encode();
    assert_eq!(out.len(), 12);
    assert_eq!(Header::decode(&out), h);
}

#[test]
fn encode_of_decode_gives_bytes_back() {
    let bytes = vec![0xa5u8, 0x5a, 0xff, 0x8f, 0x12, 0x34, 0x56, 0x78, 0x9a, 0xbc, 0xde, 0xf0];
    let h = Header::decode(&bytes);
    assert_eq!(h.op_code, OpCode::Unknown(15));
    assert_eq!(h.response_code, ResponseCode::Unknown(15));
    assert_eq!(h.encode(), bytes);
}

#[test]
fn encode_writes_exact_bytes() {
    let out = sample().encode();
    assert_eq!(
        out,
        vec![0xbe, 0xef, 0x95, 0x03, 0x00, 0x01, 0x02, 0x03, 0xff, 0xff, 0x00, 0x07]
    );
}

#[test]
fn toggling_one_flag_bit_changes_one_field() {
    let base = [0x12u8, 0x34, 0x00, 0x00, 0, 1, 0, 2, 0, 3, 0, 4];
    let h = Header::decode(&base);
    for k in 0..8u8 {
        let mut b = base;
        b[2] ^= 1 << k;
        let g = Header::decode(&b);
        assert_eq!(g.message_type != h.message_type, k == 7);
        assert_eq!(g.op_code != h.op_code, (3..=6).contains(&k));
        assert_eq!(g.authoritative != h.authoritative, k == 2);
        assert_eq!(g.truncation != h.truncation, k == 1);
        assert_eq!(g.recursion_desired != h.recursion_desired, k == 0);
        assert_eq!(g.recursion_available, h.recursion_available);
        assert_eq!(g.response_code, h.response_code);
        assert_eq!(g.id, h.id);
        assert_eq!(g.question_count, h.question_count);
        assert_eq!(g.additional_count, h.additional_count);

        let mut c = base;
        c[3] ^= 1 << k;
        let g = Header::decode(&c);
        assert_eq!(g.recursion_available != h.recursion_available, k == 7);
        assert_eq!(g.response_code != h.response_code, k < 4);
        assert_eq!(g.message_type, h.message_type);
        assert_eq!(g.op_code, h.op_code);
        assert_eq!(g.recursion_desired, h.recursion_desired);
        assert_eq!(g.answer_count, h.answer_count);
    }
}

#[test]
fn reserved_bits_are_ignored_and_written_as_zero() {
    let bytes = [0u8, 0, 0, 0x75, 0, 0, 0, 0, 0, 0, 0, 0];
    let h = Header::decode(&bytes);
    assert!(!h.recursion_available);
    assert_eq!(h.response_code, ResponseCode::Refused);
    assert_eq!(h.encode()[3], 0x05);
}

#[test]
fn response_code_uses_all_four_bits() {
    let bytes = [0u8, 0, 0, 0x0b, 0, 0, 0, 0, 0, 0, 0, 0];
    assert_eq!(Header::decode(&bytes).response_code, ResponseCode::Unknown(11));
    let bytes = [0u8, 0, 0, 0x8a, 0, 0, 0, 0, 0, 0, 0, 0];
    let h = Header::decode(&bytes);
    assert_eq!(h.response_code, ResponseCode::NotZone);
    assert!(h.recursion_available);
}

#[test]
fn short_buffer_reads_missing_fields_as_zero() {
    let bytes = [0x01u8, 0x02, 0x80, 0x00, 0x00, 0x05, 0x00, 0x06, 0x00, 0x07, 0x00];
    let h = Header::decode(&bytes);
    assert_eq!(h.id, 0x0102);
    assert_eq!(h.message_type, MessageType::Response);
    assert_eq!(h.question_count, 5);
    assert_eq!(h.answer_count, 6);
    assert_eq!(h.name_server_count, 7);
    assert_eq!(h.additional_count, 0);

    let h = Header::decode(&[0xab]);
    assert_eq!(h.id, 0);
    assert_eq!(h.message_type, MessageType::Query);
}

#[test]
fn parse_takes_header_off_the_front() {
    let mut data = vec![0x12u8, 0x34, 0x81, 0x80, 0, 1, 0, 2, 0, 0, 0, 0, 0xaa, 0xbb];
    let h = Header::parse(&mut data);
    assert_eq!(h.id, 0x1234);
    assert_eq!(h.message_type, MessageType::Response);
    assert!(h.recursion_desired && h.recursion_available);
    assert_eq!(h.question_count, 1);
    assert_eq!(h.answer_count, 2);
    assert_eq!(data, vec![0xaa, 0xbb]);
}

#[test]
fn parse_of_short_input_takes_all_of_it() {
    let mut data = vec![0x00u8, 0x09, 0x01];
    let h = Header::parse(&mut data);
    assert_eq!(h.id, 9);
    assert!(h.recursion_desired);
    assert!(data.is_empty());
}

#[test]
fn read_continues_where_the_cursor_stands() {
    let bytes = [0xffu8, 0x00, 0x01, 0x10, 0x80, 0, 3, 0, 0, 0, 0, 0, 0, 0, 0x44];
    let mut cursor = ByteCursor::new(&bytes);
    assert_eq!(cursor.read_u8(), 0xff);
    let h = Header::read(&mut cursor);
    assert_eq!(h.id, 0x0001);
    assert_eq!(h.op_code, OpCode::Status);
    assert!(h.recursion_available);
    assert_eq!(h.question_count, 3);
    assert_eq!(cursor.len(), 2);
    assert_eq!(cursor.read_u16(), 0x0044);
    assert_eq!(cursor.len(), 0);
}

#[test]
fn cursor_yields_zero_past_the_end() {
    let bytes = [0x01u8, 0x02, 0x03];
    let mut cursor = ByteCursor::new(&bytes);
    assert_eq!(cursor.read_u16(), 0x0102);
    assert_eq!(cursor.read_u16(), 0);
    assert_eq!(cursor.len(), 0);
    assert_eq!(cursor.read_u8(), 0);
    assert_eq!(cursor.read_u16(), 0);
}

#[test]
fn op_code_mapping() {
    let named = [
        (0u8, OpCode::Query),
        (1, OpCode::IQuery),
        (2, OpCode::Status),
        (4, OpCode::Notify),
        (5, OpCode::Update),
    ];
    for (c, op) in named {
        assert_eq!(OpCode::from_code(c), op);
        assert_eq!(op.code(), c);
    }
    for c in [3u8, 6, 7, 8, 15] {
        assert_eq!(OpCode::from_code(c), OpCode::Unknown(c));
        assert_eq!(OpCode::from_code(c).code(), c);
    }
}

#[test]
fn response_code_mapping() {
    let named = [
        (0u8, ResponseCode::NoError),
        (1, ResponseCode::FormErr),
        (2, ResponseCode::ServFail),
        (3, ResponseCode::NXDomain),
        (4, ResponseCode::NotImp),
        (5, ResponseCode::Refused),
        (6, ResponseCode::YXDomain),
        (7, ResponseCode::YXRRSet),
        (8, ResponseCode::NXRRSet),
        (9, ResponseCode::NotAuth),
        (10, ResponseCode::NotZone),
    ];
    for (c, rc) in named {
        assert_eq!(ResponseCode::from_code(c), rc);
        assert_eq!(rc.code(), c);
    }
    for c in 11u8..16 {
        assert_eq!(ResponseCode::from_code(c), ResponseCode::Unknown(c));
        assert_eq!(ResponseCode::from_code(c).code(), c);
    }
}
