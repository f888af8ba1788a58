use peer_protocol::codec::{
    decode_request, decode_response, encode_request, encode_response, ChatError, DecodeError,
    Request, Response,
};
use peer_protocol::profile::UserInfo;

fn plain_profile() -> UserInfo {
    UserInfo::new(String::from("A"), None, None)
}

fn full_profile() -> UserInfo {
    UserInfo::new(
        String::from("Zo\u{e9}"),
        Some(vec![0u8, 255u8, 7u8]),
        Some(String::from("\u{4f60}\u{597d}")),
    )
}

#[test]
fn request_tags_are_single_bytes() {
    assert_eq!(encode_request(Request::UserInfo), vec![0u8]);
    assert_eq!(encode_request(Request::Friend), vec![1u8]);
    assert_eq!(encode_request(Request::Chat), vec![2u8]);
}

#[test]
fn request_round_trip() {
    for request in [Request::UserInfo, Request::Friend, Request::Chat] {
        let bytes = encode_request(request);
        assert_eq!(decode_request(&bytes), Ok(request));
    }
}

#[test]
fn request_rejects_empty_unknown_and_overlong() {
    assert_eq!(decode_request(&[]), Err(DecodeError));
    assert_eq!(decode_request(&[3u8]), Err(DecodeError));
    assert_eq!(decode_request(&[255u8]), Err(DecodeError));
    assert_eq!(decode_request(&[0u8, 0u8]), Err(DecodeError));
}

#[test]
fn decision_responses_have_two_bytes() {
    assert_eq!(encode_response(&Response::Friend(true)), vec![1u8, 1u8]);
    assert_eq!(encode_response(&Response::Friend(false)), vec![1u8, 0u8]);
    assert_eq!(encode_response(&Response::Chat(Ok(()))), vec![2u8, 0u8]);
    assert_eq!(encode_response(&Response::Chat(Err(ChatError::NotFriend))), vec![2u8, 1u8]);
}

#[test]
fn plain_profile_bytes_are_exact() {
    let bytes = encode_response(&Response::UserInfo(plain_profile()));
    assert_eq!(bytes, vec![0u8, 1, 0, 0, 0, 0, 0, 0, 0, 0x41, 0, 0]);
}

#[test]
fn full_profile_bytes_are_exact() {
    let bytes = encode_response(&Response::UserInfo(full_profile()));
    let mut expected: Vec<u8> = vec![0u8];
    expected.extend_from_slice(&[4, 0, 0, 0, 0, 0, 0, 0]);
    expected.extend_from_slice(&[0x5a, 0x6f, 0xc3, 0xa9]);
    expected.push(1);
    expected.extend_from_slice(&[3, 0, 0, 0, 0, 0, 0, 0]);
    expected.extend_from_slice(&[0, 255, 7]);
    expected.push(1);
    expected.extend_from_slice(&[6, 0, 0, 0, 0, 0, 0, 0]);
    expected.extend_from_slice(&[0xe4, 0xbd, 0xa0, 0xe5, 0xa5, 0xbd]);
    assert_eq!(bytes, expected);
}

#[test]
fn response_round_trip_every_variant() {
    let all = vec![
        Response::UserInfo(plain_profile()),
        Response::UserInfo(full_profile()),
        Response::UserInfo(UserInfo::new(String::new(), Some(Vec::new()), Some(String::new()))),
        Response::Friend(true),
        Response::Friend(false),
        Response::Chat(Ok(())),
        Response::Chat(Err(ChatError::NotFriend)),
    ];
    for response in all {
        let bytes = encode_response(&response);
        assert_eq!(decode_response(&bytes), Ok(response));
    }
}

#[test]
fn long_name_length_uses_second_byte() {
    let name: String = std::iter::repeat('x').take(300).collect();
    let response = Response::UserInfo(UserInfo::new(name, None, None));
    let bytes = encode_response(&response);
    assert_eq!(bytes.len(), 1 + 8 + 300 + 1 + 1);
    assert_eq!(&bytes[1..9], &[44u8, 1, 0, 0, 0, 0, 0, 0]);
    assert_eq!(decode_response(&bytes), Ok(response));
}

#[test]
fn every_truncation_is_rejected() {
    let bytes = encode_response(&Response::UserInfo(full_profile()));
    for cut in 0..bytes.len() {
        assert_eq!(decode_response(&bytes[..cut]), Err(DecodeError));
    }
    assert_eq!(decode_response(&[1u8]), Err(DecodeError));
    assert_eq!(decode_response(&[2u8]), Err(DecodeError));
}

#[test]
fn trailing_bytes_are_rejected() {
    let mut bytes = encode_response(&Response::UserInfo(plain_profile()));
    bytes.push(0);
    assert_eq!(decode_response(&bytes), Err(DecodeError));
    assert_eq!(decode_response(&[1u8, 1u8, 0u8]), Err(DecodeError));
    assert_eq!(decode_response(&[2u8, 0u8, 0u8]), Err(DecodeError));
}

#[test]
fn ill_formed_responses_are_rejected() {
    assert_eq!(decode_response(&[]), Err(DecodeError));
    assert_eq!(decode_response(&[3u8, 0u8]), Err(DecodeError));
    assert_eq!(decode_response(&[1u8, 2u8]), Err(DecodeError));
    assert_eq!(decode_response(&[2u8, 2u8]), Err(DecodeError));
    // A presence byte other than 0 and 1.
    assert_eq!(
        decode_response(&[0u8, 1, 0, 0, 0, 0, 0, 0, 0, 0x41, 2, 0]),
        Err(DecodeError)
    );
}

#[test]
fn invalid_utf8_text_is_rejected() {
    // The name is the single byte 0xff.
    assert_eq!(
        decode_response(&[0u8, 1, 0, 0, 0, 0, 0, 0, 0, 0xff, 0, 0]),
        Err(DecodeError)
    );
    // The biography is a lone continuation byte; the same byte is fine as an avatar.
    assert_eq!(
        decode_response(&[0u8, 0, 0, 0, 0, 0, 0, 0, 0, 0, 1, 1, 0, 0, 0, 0, 0, 0, 0, 0x80]),
        Err(DecodeError)
    );
    assert_eq!(
        decode_response(&[0u8, 0, 0, 0, 0, 0, 0, 0, 0, 1, 1, 0, 0, 0, 0, 0, 0, 0, 0x80, 0]),
        Ok(Response::UserInfo(UserInfo::new(String::new(), Some(vec![0x80]), None)))
    );
}

#[test]
fn decoded_text_is_the_text_spelled() {
    let decoded = decode_response(&[0u8, 2, 0, 0, 0, 0, 0, 0, 0, 0xc3, 0xa9, 0, 0]);
    match decoded {
        Ok(Response::UserInfo(info)) => {
            assert_eq!(info.name(), "\u{e9}");
            assert_eq!(info.name().chars().count(), 1);
        }
        other => panic!("unexpected: {:?}", other),
    }
}

#[test]
fn oversized_length_is_rejected_without_reading() {
    let mut bytes: Vec<u8> = vec![0u8];
    bytes.extend_from_slice(&[255u8; 8]);
    bytes.extend_from_slice(&[0x41, 0, 0]);
    assert_eq!(decode_response(&bytes), Err(DecodeError));
    let mut short: Vec<u8> = vec![0u8];
    short.extend_from_slice(&[4, 0, 0, 0, 0, 0, 0, 0]);
    short.extend_from_slice(&[0x41, 0, 0]);
    assert_eq!(decode_response(&short), Err(DecodeError));
}

#[test]
fn profile_getters_return_the_parts() {
    let info = full_profile();
    assert_eq!(info.name(), "Zo\u{e9}");
    assert_eq!(info.avatar(), Some(vec![0u8, 255u8, 7u8]));
    assert_eq!(info.bio(), Some(String::from("\u{4f60}\u{597d}")));
    let plain = plain_profile();
    assert_eq!(plain.name(), "A");
    assert_eq!(plain.avatar(), None);
    assert_eq!(plain.bio(), None);
    assert_eq!(info.duplicate(), info);
}
