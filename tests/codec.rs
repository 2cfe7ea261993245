use ibkr_wire::catalog::{FAMessageDataTypes, ServerReqMsgDiscriminants, ServerRspMsgDiscriminants};
use ibkr_wire::decode::{read_int_field, read_response_kind};
use ibkr_wire::error::MessageError;
use ibkr_wire::field::{
    make_field, make_field_handle_empty, read_fields, FieldKind, FieldValue, WireFloat,
    UNSET_DOUBLE_BITS,
    UNSET_INTEGER,
};
use ibkr_wire::frame::{make_message, read_msg};
use ibkr_wire::message::ServerReqMsg;
use ibkr_wire::request::{make_request, RequestArg};

fn float(x: f64) -> FieldValue {
    FieldValue::Float(WireFloat { bits: x.to_bits(), text: x.to_string() })
}

#[test]
fn field_bool_is_one_or_zero() {
    assert_eq!(make_field(&FieldValue::Bool(true)).unwrap(), "1\0");
    assert_eq!(make_field(&FieldValue::Bool(false)).unwrap(), "0\0");
}

#[test]
fn field_numbers_are_decimal() {
    assert_eq!(make_field(&FieldValue::Size(0)).unwrap(), "0\0");
    assert_eq!(make_field(&FieldValue::Size(1234567890123)).unwrap(), "1234567890123\0");
    assert_eq!(make_field(&FieldValue::Int(42)).unwrap(), "42\0");
    assert_eq!(make_field(&FieldValue::Int(-17)).unwrap(), "-17\0");
    assert_eq!(make_field(&FieldValue::Int(i32::MIN)).unwrap(), "-2147483648\0");
    assert_eq!(make_field(&float(1.5)).unwrap(), "1.5\0");
}

#[test]
fn field_text_is_verbatim() {
    let f = make_field(&FieldValue::Text(String::from("AAPL"))).unwrap();
    assert_eq!(f, "AAPL\0");
    assert_eq!(make_field(&FieldValue::Text(String::new())).unwrap(), "\0");
}

#[test]
fn unset_sentinels_encode_as_empty_fields() {
    assert_eq!(f64::MAX.to_bits(), UNSET_DOUBLE_BITS);
    assert_eq!(i32::MAX, UNSET_INTEGER);
    assert_eq!(make_field(&FieldValue::Int(UNSET_INTEGER)).unwrap(), "\0");
    assert_eq!(make_field(&float(f64::MAX)).unwrap(), "\0");
    assert_eq!(make_field_handle_empty(&FieldValue::Int(UNSET_INTEGER)).unwrap(), "\0");
    assert_eq!(make_field_handle_empty(&float(f64::MAX)).unwrap(), "\0");
}

#[test]
fn handle_empty_matches_make_field() {
    let values = vec![
        FieldValue::Bool(true),
        FieldValue::Size(7),
        FieldValue::Int(-3),
        FieldValue::Int(UNSET_INTEGER),
        float(2.25),
        float(f64::MAX),
        FieldValue::Text(String::from("x y")),
    ];
    for v in values.iter() {
        assert_eq!(make_field_handle_empty(v).unwrap(), make_field(v).unwrap());
    }
}

#[test]
fn empty_int_field_reads_as_sentinel() {
    assert_eq!(read_int_field(""), Ok(UNSET_INTEGER));
    assert_eq!(read_int_field("0"), Ok(0));
    assert_eq!(read_int_field("123"), Ok(123));
    assert_eq!(read_int_field("-2147483648"), Ok(i32::MIN));
    assert_eq!(read_int_field("2147483647"), Ok(i32::MAX));
    assert_eq!(read_int_field("2147483648"), Err(MessageError::MalformedPayload));
    assert_eq!(read_int_field("-2147483649"), Err(MessageError::MalformedPayload));
    assert_eq!(read_int_field("99999999999999999999"), Err(MessageError::MalformedPayload));
    assert_eq!(read_int_field("12a"), Err(MessageError::MalformedPayload));
    assert_eq!(read_int_field("-"), Err(MessageError::MalformedPayload));
    assert_eq!(read_int_field("+5"), Err(MessageError::MalformedPayload));
}

#[test]
fn int_fields_round_trip() {
    for i in [0, 1, -1, 9, 10, -10, 65535, i32::MIN, i32::MAX - 1, UNSET_INTEGER] {
        let f = make_field(&FieldValue::Int(i)).unwrap();
        let text = f.trim_end_matches('\0');
        assert_eq!(read_int_field(text), Ok(i));
    }
}

#[test]
fn make_message_prefixes_length() {
    let b = make_message("abc").unwrap();
    assert_eq!(b, vec![0, 0, 0, 3, b'a', b'b', b'c']);
    assert_eq!(make_message("").unwrap(), vec![0, 0, 0, 0]);
    let long = "x".repeat(300);
    let b = make_message(&long).unwrap();
    assert_eq!(&b[0..4], &[0, 0, 1, 44]);
    assert_eq!(b.len(), 304);
}

#[test]
fn make_message_refuses_non_ascii() {
    assert_eq!(make_message("caf\u{e9}"), Err(MessageError::Encoding));
}

#[test]
fn frame_round_trip() {
    let payload = "71\02\0client\0";
    let b = make_message(payload).unwrap();
    let (n, text, rest) = read_msg(&b).unwrap();
    assert_eq!(n, payload.len());
    assert_eq!(text, payload);
    assert!(rest.is_empty());
}

#[test]
fn short_buffer_is_incomplete() {
    let buf = vec![0u8, 0, 0];
    let (n, text, rest) = read_msg(&buf).unwrap();
    assert_eq!(n, 0);
    assert_eq!(text, "");
    assert_eq!(rest, buf);
    let (n, text, rest) = read_msg(&[]).unwrap();
    assert_eq!((n, text.as_str(), rest.len()), (0, "", 0));
}

#[test]
fn partial_payload_is_incomplete() {
    let buf = vec![0u8, 0, 0, 5, b'a', b'b'];
    let (n, text, rest) = read_msg(&buf).unwrap();
    assert_eq!(n, 5);
    assert_eq!(text, "");
    assert_eq!(rest, buf);
}

#[test]
fn invalid_utf8_is_framing_error() {
    let buf = vec![0u8, 0, 0, 2, 0xff, 0xfe, 1];
    assert_eq!(read_msg(&buf), Err(MessageError::Framing));
}

#[test]
fn two_frames_come_out_in_order() {
    let mut buf = make_message("first\0").unwrap();
    buf.extend(make_message("second\0").unwrap());
    buf.extend(vec![0u8, 0]);
    let (n1, t1, rest1) = read_msg(&buf).unwrap();
    assert_eq!((n1, t1.as_str()), (6, "first\0"));
    let (n2, t2, rest2) = read_msg(&rest1).unwrap();
    assert_eq!((n2, t2.as_str()), (7, "second\0"));
    assert_eq!(rest2, vec![0u8, 0]);
    let (_, t3, rest3) = read_msg(&rest2).unwrap();
    assert_eq!(t3, "");
    assert_eq!(rest3, rest2);
}

#[test]
fn split_fields_example() {
    assert_eq!(read_fields("a\0b\0\0"), vec!["a", "b", ""]);
    assert_eq!(read_fields("1\0\0x\0"), vec!["1", "", "x"]);
    assert!(read_fields("").is_empty());
    assert!(read_fields("\0").len() == 1);
}

#[test]
fn catalog_codes() {
    assert_eq!(ServerReqMsgDiscriminants::ReqCurrentTime.code(), 49);
    assert_eq!(ServerReqMsgDiscriminants::ReqFamilyCodes.code(), 80);
    assert_eq!(ServerRspMsgDiscriminants::TickPrice.code(), 1);
    assert_eq!(ServerRspMsgDiscriminants::OrderStatus.code(), 3);
    assert_eq!(ServerRspMsgDiscriminants::NextValidId.code(), 9);
    assert_eq!(ServerRspMsgDiscriminants::from_i32(49), Some(ServerRspMsgDiscriminants::CurrentTime));
    assert_eq!(ServerReqMsgDiscriminants::from_i32(49), Some(ServerReqMsgDiscriminants::ReqCurrentTime));
    assert_eq!(ServerRspMsgDiscriminants::from_i32(22), None);
    assert_eq!(ServerReqMsgDiscriminants::from_i32(100), None);
    assert_eq!(FAMessageDataTypes::from_i32(2), Some(FAMessageDataTypes::Profiles));
    assert_eq!(FAMessageDataTypes::Aliases.code(), 3);
}

#[test]
fn catalog_bijection_on_all_codes() {
    let mut rsp = 0;
    let mut req = 0;
    for c in -5..300 {
        if let Some(d) = ServerRspMsgDiscriminants::from_i32(c) {
            assert_eq!(d.code(), c);
            rsp += 1;
        }
        if let Some(d) = ServerReqMsgDiscriminants::from_i32(c) {
            assert_eq!(d.code(), c);
            req += 1;
        }
    }
    assert_eq!(rsp, 77);
    assert_eq!(req, 75);
}

#[test]
fn zero_argument_request_is_code_only() {
    for (kind, code) in [
        (ServerReqMsgDiscriminants::ReqFamilyCodes, "80\0"),
        (ServerReqMsgDiscriminants::ReqMktDepthExchanges, "82\0"),
        (ServerReqMsgDiscriminants::ReqNewsProviders, "85\0"),
    ] {
        let payload = make_request(kind, 1, &vec![]).unwrap();
        assert_eq!(payload, code);
        let framed = make_message(&payload).unwrap();
        assert_eq!(framed[0..4], [0, 0, 0, 3]);
        assert_eq!(&framed[4..], code.as_bytes());
    }
}

#[test]
fn versioned_request_carries_version() {
    let p = make_request(ServerReqMsgDiscriminants::ReqCurrentTime, 1, &vec![]).unwrap();
    assert_eq!(p, "49\01\0");
    let args = vec![
        RequestArg::Value(FieldValue::Int(5)),
        RequestArg::Value(FieldValue::Bool(true)),
    ];
    let p = make_request(ServerReqMsgDiscriminants::CancelMktDepth, 1, &args).unwrap();
    assert_eq!(p, "11\01\05\01\0");
}

#[test]
fn unversioned_request_with_block() {
    assert!(!ServerReqMsgDiscriminants::ReqHistogramData.has_version());
    assert_eq!(
        ServerReqMsgDiscriminants::ReqHistogramData.layout(),
        vec![FieldKind::Int, FieldKind::Block, FieldKind::Text, FieldKind::Bool, FieldKind::Bool, FieldKind::Text]
    );
    let args = vec![
        RequestArg::Value(FieldValue::Int(7)),
        RequestArg::Block(String::from("265598\0AAPL\0STK\0")),
        RequestArg::Value(FieldValue::Text(String::from("NMS"))),
        RequestArg::Value(FieldValue::Bool(false)),
        RequestArg::Value(FieldValue::Bool(true)),
        RequestArg::Value(FieldValue::Text(String::from("3 days"))),
    ];
    let p = make_request(ServerReqMsgDiscriminants::ReqHistogramData, 1, &args).unwrap();
    assert_eq!(p, "88\07\0265598\0AAPL\0STK\0NMS\00\01\03 days\0");
}

#[test]
fn request_layout_mismatch_is_refused() {
    let wrong_kind = vec![RequestArg::Value(FieldValue::Text(String::from("5")))];
    assert_eq!(
        make_request(ServerReqMsgDiscriminants::ReqIds, 1, &wrong_kind),
        Err(MessageError::MalformedPayload)
    );
    assert_eq!(
        make_request(ServerReqMsgDiscriminants::ReqIds, 1, &vec![]),
        Err(MessageError::MalformedPayload)
    );
    let args = vec![RequestArg::Value(FieldValue::Int(5))];
    assert_eq!(make_request(ServerReqMsgDiscriminants::ReqIds, 1, &args).unwrap(), "8\01\05\0");
}

#[test]
fn error_kinds_are_distinct() {
    assert_ne!(MessageError::UnknownDiscriminant, MessageError::MalformedPayload);
    assert_ne!(MessageError::Framing, MessageError::Encoding);
}

#[test]
fn typed_request_payloads() {
    let m = ServerReqMsg::ReqCurrentTime { version: 1 };
    assert_eq!(m.kind(), ServerReqMsgDiscriminants::ReqCurrentTime);
    assert_eq!(m.encode_payload(), "49\01\0");
    assert_eq!(ServerReqMsg::ReqFamilyCodes.encode_payload(), "80\0");
    let m = ServerReqMsg::ReqPnlSingle {
        req_id: 3,
        account: String::from("DU1"),
        model_code: String::new(),
        con_id: UNSET_INTEGER,
    };
    assert_eq!(m.version(), 0);
    assert_eq!(m.encode_payload(), "94\03\0DU1\0\0\0");
    let m = ServerReqMsg::ReqCalcImpliedVolat {
        version: 3,
        req_id: 9,
        contract: String::from("1\0X\0"),
        trading_class: String::from("TC"),
        option_price: WireFloat { bits: 2.5f64.to_bits(), text: String::from("2.5") },
        under_price: WireFloat { bits: f64::MAX.to_bits(), text: String::from("ignored") },
        tag_values_cnt: 0,
        impl_vol_opt: String::new(),
    };
    assert_eq!(m.encode_payload(), "54\03\09\01\0X\0TC\02.5\0\00\0\0");
}

#[test]
fn typed_request_args_fit_layout() {
    let m = ServerReqMsg::ReqMatchingSymbols { req_id: 4, pattern: String::from("IB") };
    let p = make_request(m.kind(), m.version(), &m.args()).unwrap();
    assert_eq!(p, m.encode_payload());
    assert_eq!(p, "81\04\0IB\0");
}

#[test]
fn response_kind_from_leading_field() {
    assert_eq!(read_response_kind("1"), Ok(ServerRspMsgDiscriminants::TickPrice));
    assert_eq!(read_response_kind("9"), Ok(ServerRspMsgDiscriminants::NextValidId));
    assert_eq!(read_response_kind("102"), Ok(ServerRspMsgDiscriminants::CompletedOrdersEnd));
    assert_eq!(read_response_kind("22"), Err(MessageError::UnknownDiscriminant));
    assert_eq!(read_response_kind("x"), Err(MessageError::MalformedPayload));
    assert_eq!(read_response_kind(""), Err(MessageError::MalformedPayload));
}

#[test]
fn encoded_fields_split_back() {
    let values = vec![
        FieldValue::Int(80),
        FieldValue::Text(String::new()),
        FieldValue::Bool(false),
        FieldValue::Int(UNSET_INTEGER),
        FieldValue::Text(String::from("end")),
    ];
    let mut payload = String::new();
    for v in values.iter() {
        payload.push_str(&make_field(v).unwrap());
    }
    assert_eq!(read_fields(&payload), vec!["80", "", "0", "", "end"]);
}
