//! The wire codec: one message is the whole body of one stream.
//!
//! A request is a single tag byte. A response is a tag byte followed by its
//! payload. Byte strings are written as their length (eight bytes, little
//! endian) followed by their bytes, texts as the byte string of their UTF-8
//! form, and an optional field as a presence byte followed by the field.
//! Every value has exactly one encoding and the decoder accepts nothing else.

use vstd::prelude::*;
use vstd::bytes::*;
use vstd::slice::*;
use vstd::utf8::*;
use vstd::string::*;
use crate::profile::{UserInfo, UserInfoView, blob_view, copy_bytes};

verus! {

/// What one peer asks of another.
#[derive(Clone, Copy, Debug, PartialEq, Eq, Structural)]
pub enum Request {
    UserInfo,
    Friend,
    Chat,
}

/// Why a chat request is refused at the protocol level.
#[derive(Clone, Copy, Debug, PartialEq, Eq, Structural)]
pub enum ChatError {
    NotFriend,
}

/// The answer to a request.
#[derive(Debug, PartialEq, Eq)]
pub enum Response {
    UserInfo(UserInfo),
    Friend(bool),
    Chat(Result<(), ChatError>),
}

/// Mathematical value of a response. A chat decision is the reason of the
/// refusal, or `None` where the chat is granted.
pub enum ResponseView {
    UserInfo(UserInfoView),
    Friend(bool),
    Chat(Option<ChatError>),
}

/// The reason for which a chat decision refuses, if it does.
pub open spec fn refusal(r: Result<(), ChatError>) -> Option<ChatError> {
    match r {
        Ok(_) => None,
        Err(e) => Some(e),
    }
}

impl View for Response {
    type V = ResponseView;

    open spec fn view(&self) -> ResponseView {
        match *self {
            Response::UserInfo(info) => ResponseView::UserInfo(info@),
            Response::Friend(b) => ResponseView::Friend(b),
            Response::Chat(r) => ResponseView::Chat(refusal(r)),
        }
    }
}

/// The input is truncated or is not the encoding of any message.
#[derive(Clone, Copy, Debug, PartialEq, Eq, Structural)]
pub struct DecodeError;

pub const TAG_USER_INFO: u8 = 0;

pub const TAG_FRIEND: u8 = 1;

pub const TAG_CHAT: u8 = 2;

// ---------------------------------------------------------------------------
// The format, as functions from values to bytes
// ---------------------------------------------------------------------------

/// Encoding of a request: its tag.
pub open spec fn request_bytes(r: Request) -> Seq<u8> {
    match r {
        Request::UserInfo => seq![TAG_USER_INFO],
        Request::Friend => seq![TAG_FRIEND],
        Request::Chat => seq![TAG_CHAT],
    }
}

/// Encoding of a byte string: its length, then its bytes.
pub open spec fn blob_bytes(b: Seq<u8>) -> Seq<u8> {
    spec_u64_to_le_bytes(b.len() as u64) + b
}

/// Encoding of an optional byte string.
pub open spec fn opt_blob_bytes(o: Option<Seq<u8>>) -> Seq<u8> {
    match o {
        None => seq![0u8],
        Some(b) => seq![1u8] + blob_bytes(b),
    }
}

/// UTF-8 form of an optional text.
pub open spec fn opt_text_utf8(o: Option<Seq<char>>) -> Option<Seq<u8>> {
    match o {
        None => None,
        Some(t) => Some(encode_utf8(t)),
    }
}

/// Encoding of a profile: name, avatar, biography.
pub open spec fn user_info_bytes(u: UserInfoView) -> Seq<u8> {
    blob_bytes(encode_utf8(u.name)) + opt_blob_bytes(u.avatar) + opt_blob_bytes(
        opt_text_utf8(u.bio),
    )
}

/// Encoding of a truth value.
pub open spec fn flag_byte(b: bool) -> u8 {
    if b {
        1u8
    } else {
        0u8
    }
}

/// Encoding of a response.
pub open spec fn response_bytes(r: ResponseView) -> Seq<u8> {
    match r {
        ResponseView::UserInfo(u) => seq![TAG_USER_INFO] + user_info_bytes(u),
        ResponseView::Friend(b) => seq![TAG_FRIEND, flag_byte(b)],
        ResponseView::Chat(None) => seq![TAG_CHAT, 0u8],
        ResponseView::Chat(Some(ChatError::NotFriend)) => seq![TAG_CHAT, 1u8],
    }
}

/// Whether a byte string's length can be written in eight bytes.
pub open spec fn fits(b: Seq<u8>) -> bool {
    b.len() <= u64::MAX
}

/// Whether every field of a profile is short enough to be written. Every
/// value held in memory is.
pub open spec fn user_info_fits(u: UserInfoView) -> bool {
    &&& fits(encode_utf8(u.name))
    &&& u.avatar matches Some(a) ==> fits(a)
    &&& u.bio matches Some(t) ==> fits(encode_utf8(t))
}

/// Whether a response can be written.
pub open spec fn response_fits(r: ResponseView) -> bool {
    r matches ResponseView::UserInfo(u) ==> user_info_fits(u)
}

// ---------------------------------------------------------------------------
// The format, as functions from bytes to values
// ---------------------------------------------------------------------------

/// Reading of a request: a single known tag.
pub open spec fn request_parse(s: Seq<u8>) -> Option<Request> {
    if s.len() != 1 {
        None
    } else if s[0] == TAG_USER_INFO {
        Some(Request::UserInfo)
    } else if s[0] == TAG_FRIEND {
        Some(Request::Friend)
    } else if s[0] == TAG_CHAT {
        Some(Request::Chat)
    } else {
        None
    }
}

/// Takes a length-prefixed byte string off the front of `s`: the byte string
/// and what follows it.
pub open spec fn take_blob(s: Seq<u8>) -> Option<(Seq<u8>, Seq<u8>)> {
    if s.len() < 8 {
        None
    } else {
        let n = spec_u64_from_le_bytes(s.subrange(0, 8)) as int;
        if s.len() - 8 < n {
            None
        } else {
            Some((s.subrange(8, 8 + n), s.skip(8 + n)))
        }
    }
}

/// Takes an optional byte string off the front of `s`.
pub open spec fn take_opt_blob(s: Seq<u8>) -> Option<(Option<Seq<u8>>, Seq<u8>)> {
    if s.len() < 1 {
        None
    } else if s[0] == 0u8 {
        Some((None, s.skip(1)))
    } else if s[0] == 1u8 {
        match take_blob(s.skip(1)) {
            Some((b, rest)) => Some((Some(b), rest)),
            None => None,
        }
    } else {
        None
    }
}

/// Reading of a profile that fills `s` to its end.
pub open spec fn user_info_parse(s: Seq<u8>) -> Option<UserInfoView> {
    match take_blob(s) {
        None => None,
        Some((name, after_name)) => match take_opt_blob(after_name) {
            None => None,
            Some((avatar, after_avatar)) => match take_opt_blob(after_avatar) {
                None => None,
                Some((bio, rest)) => {
                    if rest.len() != 0 || !valid_utf8(name) {
                        None
                    } else {
                        match bio {
                            None => Some(
                                UserInfoView { name: decode_utf8(name), avatar, bio: None },
                            ),
                            Some(b) => if valid_utf8(b) {
                                Some(
                                    UserInfoView {
                                        name: decode_utf8(name),
                                        avatar,
                                        bio: Some(decode_utf8(b)),
                                    },
                                )
                            } else {
                                None
                            },
                        }
                    }
                },
            },
        },
    }
}

/// Reading of a response.
pub open spec fn response_parse(s: Seq<u8>) -> Option<ResponseView> {
    if s.len() < 1 {
        None
    } else if s[0] == TAG_USER_INFO {
        match user_info_parse(s.skip(1)) {
            Some(u) => Some(ResponseView::UserInfo(u)),
            None => None,
        }
    } else if s[0] == TAG_FRIEND {
        if s.len() == 2 && s[1] == 0u8 {
            Some(ResponseView::Friend(false))
        } else if s.len() == 2 && s[1] == 1u8 {
            Some(ResponseView::Friend(true))
        } else {
            None
        }
    } else if s[0] == TAG_CHAT {
        if s.len() == 2 && s[1] == 0u8 {
            Some(ResponseView::Chat(None))
        } else if s.len() == 2 && s[1] == 1u8 {
            Some(ResponseView::Chat(Some(ChatError::NotFriend)))
        } else {
            None
        }
    } else {
        None
    }
}

// ---------------------------------------------------------------------------
// Laws of the format
// ---------------------------------------------------------------------------

/// Reading a written byte string gives it back, with what followed it.
pub proof fn lemma_take_blob_written(b: Seq<u8>, rest: Seq<u8>)
    requires
        fits(b),
    ensures
        take_blob(blob_bytes(b) + rest) == Some((b, rest)),
{
    lemma_auto_spec_u64_to_from_le_bytes();
    let n = b.len() as u64;
    let s = blob_bytes(b) + rest;
    assert(spec_u64_to_le_bytes(n).len() == 8);
    assert(s.subrange(0, 8) =~= spec_u64_to_le_bytes(n));
    assert(s.subrange(8, 8 + n) =~= b);
    assert(s.skip(8 + n) =~= rest);
}

/// What was read as a byte string is its encoding, followed by the rest.
pub proof fn lemma_take_blob_canonical(s: Seq<u8>)
    ensures
        take_blob(s) matches Some((b, rest)) ==> fits(b) && s == blob_bytes(b) + rest,
{
    lemma_auto_spec_u64_to_from_le_bytes();
    if let Some((b, rest)) = take_blob(s) {
        let head = s.subrange(0, 8);
        let n = spec_u64_from_le_bytes(head);
        assert(b.len() == n);
        assert(spec_u64_to_le_bytes(spec_u64_from_le_bytes(head)) == head);
        assert(s =~= head + b + rest);
    }
}

/// Reading a written optional byte string gives it back.
pub proof fn lemma_take_opt_blob_written(o: Option<Seq<u8>>, rest: Seq<u8>)
    requires
        o matches Some(b) ==> fits(b),
    ensures
        take_opt_blob(opt_blob_bytes(o) + rest) == Some((o, rest)),
{
    let s = opt_blob_bytes(o) + rest;
    match o {
        None => {
            assert(s.skip(1) =~= rest);
        },
        Some(b) => {
            assert(s.skip(1) =~= blob_bytes(b) + rest);
            lemma_take_blob_written(b, rest);
        },
    }
}

/// What was read as an optional byte string is its encoding, followed by the
/// rest.
pub proof fn lemma_take_opt_blob_canonical(s: Seq<u8>)
    ensures
        take_opt_blob(s) matches Some((o, rest)) ==> s == opt_blob_bytes(o) + rest && (o matches Some(
            b,
        ) ==> fits(b)),
{
    if let Some((o, rest)) = take_opt_blob(s) {
        match o {
            None => {
                assert(s =~= seq![0u8] + s.skip(1));
            },
            Some(b) => {
                lemma_take_blob_canonical(s.skip(1));
                assert(s =~= seq![1u8] + s.skip(1));
                assert(s =~= seq![1u8] + blob_bytes(b) + rest);
            },
        }
    }
}

/// Round trip of a profile: reading its encoding gives the profile back.
pub proof fn lemma_user_info_round_trip(u: UserInfoView)
    requires
        user_info_fits(u),
    ensures
        user_info_parse(user_info_bytes(u)) == Some(u),
{
    broadcast use encode_utf8_valid_utf8, encode_utf8_decode_utf8;

    let name = encode_utf8(u.name);
    let bio = opt_text_utf8(u.bio);
    let tail2 = opt_blob_bytes(bio);
    let tail1 = opt_blob_bytes(u.avatar) + tail2;
    let s = user_info_bytes(u);
    assert(s =~= blob_bytes(name) + tail1);
    lemma_take_blob_written(name, tail1);
    lemma_take_opt_blob_written(u.avatar, tail2);
    assert(tail2 =~= tail2 + Seq::<u8>::empty());
    lemma_take_opt_blob_written(bio, Seq::<u8>::empty());
    assert(decode_utf8(name) == u.name);
    match u.bio {
        None => {},
        Some(t) => {
            assert(decode_utf8(encode_utf8(t)) == t);
        },
    }
}

/// The decoder accepts only encodings: what reads as a profile is that
/// profile's encoding.
pub proof fn lemma_user_info_canonical(s: Seq<u8>)
    ensures
        user_info_parse(s) matches Some(u) ==> user_info_fits(u) && user_info_bytes(u) == s,
{
    broadcast use decode_utf8_encode_utf8;

    if let Some(u) = user_info_parse(s) {
        lemma_take_blob_canonical(s);
        let (name, after_name) = take_blob(s).unwrap();
        lemma_take_opt_blob_canonical(after_name);
        let (avatar, after_avatar) = take_opt_blob(after_name).unwrap();
        lemma_take_opt_blob_canonical(after_avatar);
        let (bio, rest) = take_opt_blob(after_avatar).unwrap();
        assert(rest =~= Seq::<u8>::empty());
        assert(encode_utf8(decode_utf8(name)) == name);
        match bio {
            None => {},
            Some(b) => {
                assert(encode_utf8(decode_utf8(b)) == b);
            },
        }
        assert(opt_text_utf8(u.bio) == bio);
        assert(after_avatar =~= opt_blob_bytes(bio));
        assert(s =~= blob_bytes(name) + opt_blob_bytes(avatar) + opt_blob_bytes(bio));
    }
}

/// Round trip of a request: reading its encoding gives the request back.
pub proof fn lemma_request_round_trip(r: Request)
    ensures
        request_parse(request_bytes(r)) == Some(r),
{
}

/// What reads as a request is that request's encoding.
pub proof fn lemma_request_canonical(s: Seq<u8>)
    ensures
        request_parse(s) matches Some(r) ==> request_bytes(r) == s,
{
    if let Some(r) = request_parse(s) {
        assert(request_bytes(r) =~= s);
    }
}

/// Round trip of a response: reading the encoding of any response, of any of
/// the three kinds, gives exactly that response back.
pub proof fn lemma_response_round_trip(r: ResponseView)
    requires
        response_fits(r),
    ensures
        response_parse(response_bytes(r)) == Some(r),
{
    let s = response_bytes(r);
    match r {
        ResponseView::UserInfo(u) => {
            assert(s.len() >= 1 && s[0] == TAG_USER_INFO);
            assert(s.skip(1) =~= user_info_bytes(u));
            lemma_user_info_round_trip(u);
        },
        ResponseView::Friend(b) => {
            assert(s.len() == 2 && s[0] == TAG_FRIEND && s[1] == flag_byte(b));
        },
        ResponseView::Chat(None) => {
            assert(s.len() == 2 && s[0] == TAG_CHAT && s[1] == 0u8);
        },
        ResponseView::Chat(Some(e)) => {
            assert(e is NotFriend);
            assert(s.len() == 2 && s[0] == TAG_CHAT && s[1] == 1u8);
        },
    }
}

/// What reads as a response is that response's encoding: no two byte strings
/// read as the same response.
pub proof fn lemma_response_canonical(s: Seq<u8>)
    ensures
        response_parse(s) matches Some(r) ==> response_fits(r) && response_bytes(r) == s,
{
    if let Some(r) = response_parse(s) {
        match r {
            ResponseView::UserInfo(u) => {
                lemma_user_info_canonical(s.skip(1));
                assert(s =~= seq![s[0]] + s.skip(1));
            },
            ResponseView::Friend(b) => {
                assert(s =~= seq![TAG_FRIEND, flag_byte(b)]);
            },
            ResponseView::Chat(None) => {
                assert(s =~= seq![TAG_CHAT, 0u8]);
            },
            ResponseView::Chat(Some(ChatError::NotFriend)) => {
                assert(s =~= seq![TAG_CHAT, 1u8]);
            },
        }
    }
}

/// Different responses have different encodings.
pub proof fn lemma_response_bytes_injective(a: ResponseView, b: ResponseView)
    requires
        response_fits(a),
        response_fits(b),
        response_bytes(a) == response_bytes(b),
    ensures
        a == b,
{
    lemma_response_round_trip(a);
    lemma_response_round_trip(b);
}

/// The empty input, which is what a peer leaves behind that closes its stream
/// without writing, reads as no message.
pub proof fn lemma_empty_rejected()
    ensures
        request_parse(Seq::<u8>::empty()) is None,
        response_parse(Seq::<u8>::empty()) is None,
{
}

// ---------------------------------------------------------------------------
// Writing
// ---------------------------------------------------------------------------

/// Appends `data` to `out`.
fn append_bytes(out: &mut Vec<u8>, data: &[u8])
    ensures
        final(out)@ == old(out)@ + data@,
{
    let mut i: usize = 0;
    while i < data.len()
        invariant
            i <= data@.len(),
            out@ == old(out)@ + data@.subrange(0, i as int),
        decreases data@.len() - i,
    {
        out.push(data[i]);
        assert(data@.subrange(0, i + 1) =~= data@.subrange(0, i as int).push(data@[i as int]));
        assert(out@ =~= old(out)@ + data@.subrange(0, i + 1));
        i += 1;
    }
    assert(data@.subrange(0, data@.len() as int) =~= data@);
}

/// Appends the encoding of the byte string `data` to `out`.
fn put_blob(out: &mut Vec<u8>, data: &[u8])
    ensures
        final(out)@ == old(out)@ + blob_bytes(data@),
        fits(data@),
{
    let n: u64 = data.len() as u64;
    let head = u64_to_le_bytes(n);
    append_bytes(out, head.as_slice());
    append_bytes(out, data);
    assert(out@ =~= old(out)@ + blob_bytes(data@));
}

/// Appends the encoding of an optional byte string to `out`.
fn put_opt_blob(out: &mut Vec<u8>, data: Option<&[u8]>)
    ensures
        final(out)@ == old(out)@ + opt_blob_bytes(
            match data {
                Some(d) => Some(d@),
                None => None,
            },
        ),
        data matches Some(d) ==> fits(d@),
{
    match data {
        None => {
            out.push(0u8);
            assert(out@ =~= old(out)@ + seq![0u8]);
        },
        Some(d) => {
            out.push(1u8);
            put_blob(out, d);
            assert(out@ =~= old(out)@ + (seq![1u8] + blob_bytes(d@)));
        },
    }
}

/// Encodes a request.
pub fn encode_request(request: Request) -> (out: Vec<u8>)
    ensures
        out@ == request_bytes(request),
        request_parse(out@) == Some(request),
{
    let tag: u8 = match request {
        Request::UserInfo => TAG_USER_INFO,
        Request::Friend => TAG_FRIEND,
        Request::Chat => TAG_CHAT,
    };
    let mut out: Vec<u8> = Vec::new();
    out.push(tag);
    assert(out@ =~= request_bytes(request));
    out
}

/// Encodes a response. The result reads back as the same response.
pub fn encode_response(response: &Response) -> (out: Vec<u8>)
    ensures
        out@ == response_bytes(response@),
        response_fits(response@),
        response_parse(out@) == Some(response@),
{
    let mut out: Vec<u8> = Vec::new();
    match response {
        Response::UserInfo(info) => {
            out.push(TAG_USER_INFO);
            put_blob(&mut out, info.name.as_str().as_bytes());
            let avatar: Option<&[u8]> = match &info.avatar {
                Some(a) => Some(a.as_slice()),
                None => None,
            };
            put_opt_blob(&mut out, avatar);
            let bio: Option<&[u8]> = match &info.bio {
                Some(t) => Some(t.as_str().as_bytes()),
                None => None,
            };
            put_opt_blob(&mut out, bio);
            assert(out@ =~= response_bytes(response@));
        },
        Response::Friend(accepted) => {
            out.push(TAG_FRIEND);
            out.push(if *accepted { 1u8 } else { 0u8 });
            assert(out@ =~= response_bytes(response@));
        },
        Response::Chat(Ok(_)) => {
            out.push(TAG_CHAT);
            out.push(0u8);
            assert(out@ =~= response_bytes(response@));
        },
        Response::Chat(Err(ChatError::NotFriend)) => {
            out.push(TAG_CHAT);
            out.push(1u8);
            assert(out@ =~= response_bytes(response@));
        },
    }
    proof {
        lemma_response_round_trip(response@);
    }
    out
}

// ---------------------------------------------------------------------------
// Reading
// ---------------------------------------------------------------------------

/// `String::from_utf8` of the standard library: the bytes become a text
/// exactly when they are well-formed UTF-8, and the text is then the one they
/// spell.
#[verifier::external_body]
fn text_from_utf8(bytes: Vec<u8>) -> (r: Option<String>)
    ensures
        r is Some <==> valid_utf8(bytes@),
        r matches Some(t) ==> t@ == decode_utf8(bytes@),
{
    String::from_utf8(bytes).ok()
}

/// Reads a length-prefixed byte string at `pos`: the byte string and the
/// position after it.
fn read_blob(bytes: &[u8], pos: usize) -> (r: Option<(Vec<u8>, usize)>)
    requires
        pos <= bytes@.len(),
    ensures
        match take_blob(bytes@.skip(pos as int)) {
            None => r is None,
            Some((b, rest)) => r matches Some((v, next)) && v@ == b && pos <= next <= bytes@.len()
                && bytes@.skip(next as int) == rest,
        },
{
    let len: usize = bytes.len();
    if len - pos < 8 {
        return None;
    }
    let head = slice_subrange(bytes, pos, pos + 8);
    let n: u64 = u64_from_le_bytes(head);
    let remaining: usize = len - pos - 8;
    proof {
        let s = bytes@.skip(pos as int);
        assert(s.subrange(0, 8) =~= bytes@.subrange(pos as int, pos + 8));
    }
    if (remaining as u64) < n {
        return None;
    }
    let count: usize = n as usize;
    let start: usize = pos + 8;
    let body = slice_subrange(bytes, start, start + count);
    let v = copy_bytes(body);
    proof {
        let s = bytes@.skip(pos as int);
        assert(s.subrange(8, 8 + n) =~= bytes@.subrange(start as int, start + count));
        assert(s.skip(8 + n) =~= bytes@.skip(start + count));
    }
    Some((v, start + count))
}

/// Reads an optional byte string at `pos`.
fn read_opt_blob(bytes: &[u8], pos: usize) -> (r: Option<(Option<Vec<u8>>, usize)>)
    requires
        pos <= bytes@.len(),
    ensures
        match take_opt_blob(bytes@.skip(pos as int)) {
            None => r is None,
            Some((o, rest)) => r matches Some((v, next)) && blob_view(v) == o && pos <= next
                <= bytes@.len() && bytes@.skip(next as int) == rest,
        },
{
    if pos >= bytes.len() {
        return None;
    }
    let mark: u8 = bytes[pos];
    proof {
        let s = bytes@.skip(pos as int);
        assert(s[0] == mark);
        assert(s.skip(1) =~= bytes@.skip(pos + 1));
    }
    if mark == 0u8 {
        Some((None, pos + 1))
    } else if mark == 1u8 {
        match read_blob(bytes, pos + 1) {
            Some((v, next)) => Some((Some(v), next)),
            None => None,
        }
    } else {
        None
    }
}

/// Reads a profile that starts at `pos` and fills the input to its end.
fn read_user_info(bytes: &[u8], pos: usize) -> (r: Option<UserInfo>)
    requires
        pos <= bytes@.len(),
    ensures
        match user_info_parse(bytes@.skip(pos as int)) {
            None => r is None,
            Some(u) => r matches Some(v) && v@ == u,
        },
{
    let (name_bytes, after_name) = match read_blob(bytes, pos) {
        Some(x) => x,
        None => { return None; },
    };
    let (avatar, after_avatar) = match read_opt_blob(bytes, after_name) {
        Some(x) => x,
        None => { return None; },
    };
    let (bio_bytes, end) = match read_opt_blob(bytes, after_avatar) {
        Some(x) => x,
        None => { return None; },
    };
    if end != bytes.len() {
        return None;
    }
    let name = match text_from_utf8(name_bytes) {
        Some(t) => t,
        None => { return None; },
    };
    let bio = match bio_bytes {
        None => None,
        Some(b) => match text_from_utf8(b) {
            Some(t) => Some(t),
            None => { return None; },
        },
    };
    Some(UserInfo { name, avatar, bio })
}

/// Decodes a request. It succeeds exactly on the encodings of requests.
pub fn decode_request(bytes: &[u8]) -> (r: Result<Request, DecodeError>)
    ensures
        match r {
            Ok(v) => request_parse(bytes@) == Some(v) && request_bytes(v) == bytes@,
            Err(_) => request_parse(bytes@) is None && forall|v: Request|
                request_bytes(v) != bytes@,
        },
{
    proof {
        lemma_request_canonical(bytes@);
        assert forall|v: Request| request_parse(bytes@) is None implies request_bytes(v)
            != bytes@ by {
            lemma_request_round_trip(v);
        }
    }
    if bytes.len() != 1 {
        return Err(DecodeError);
    }
    let tag: u8 = bytes[0];
    if tag == TAG_USER_INFO {
        Ok(Request::UserInfo)
    } else if tag == TAG_FRIEND {
        Ok(Request::Friend)
    } else if tag == TAG_CHAT {
        Ok(Request::Chat)
    } else {
        Err(DecodeError)
    }
}

/// Decodes a response. It succeeds exactly on the encodings of responses,
/// and fails on every other input: truncated, over-long or ill-formed.
pub fn decode_response(bytes: &[u8]) -> (r: Result<Response, DecodeError>)
    ensures
        match r {
            Ok(v) => response_parse(bytes@) == Some(v@) && response_bytes(v@) == bytes@,
            Err(_) => response_parse(bytes@) is None && forall|v: ResponseView|
                response_fits(v) ==> response_bytes(v) != bytes@,
        },
{
    proof {
        lemma_response_canonical(bytes@);
        assert forall|v: ResponseView|
            response_parse(bytes@) is None && response_fits(v) implies response_bytes(v)
            != bytes@ by {
            lemma_response_round_trip(v);
        }
    }
    if bytes.len() < 1 {
        return Err(DecodeError);
    }
    let tag: u8 = bytes[0];
    if tag == TAG_USER_INFO {
        match read_user_info(bytes, 1) {
            Some(info) => Ok(Response::UserInfo(info)),
            None => Err(DecodeError),
        }
    } else if tag == TAG_FRIEND {
        if bytes.len() == 2 && bytes[1] == 0u8 {
            Ok(Response::Friend(false))
        } else if bytes.len() == 2 && bytes[1] == 1u8 {
            Ok(Response::Friend(true))
        } else {
            Err(DecodeError)
        }
    } else if tag == TAG_CHAT {
        if bytes.len() == 2 && bytes[1] == 0u8 {
            Ok(Response::Chat(Ok(())))
        } else if bytes.len() == 2 && bytes[1] == 1u8 {
            Ok(Response::Chat(Err(ChatError::NotFriend)))
        } else {
            Err(DecodeError)
        }
    } else {
        Err(DecodeError)
    }
}

} // verus!
