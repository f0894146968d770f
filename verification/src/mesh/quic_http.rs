//! HTTP over a tunnel to a peer: one request with a JSON body, one response.

use crate::document::{document_bytes, json_document, parse_json, write_json};
use crate::number::{decimal, decimal_text, parse_unsigned, parsed};
use crate::scan::{find_chars, lines, lines_of, position, split_words, words};
use crate::text::{chars_of, concat, string_between, texts};
use vstd::prelude::*;
use vstd::utf8::{decode_utf8, encode_utf8, valid_utf8};

verus! {

/// The text of a list of bytes, as the standard library's
/// `String::from_utf8_lossy` gives it.
pub uninterp spec fn utf8_lossy(bytes: Seq<u8>) -> Seq<char>;

/// Calls `String::from_utf8_lossy`. The result depends on the bytes alone, and
/// bytes that are UTF-8 are decoded as they are.
#[verifier::external_body]
fn from_utf8_lossy(bytes: &[u8]) -> (text: String)
    ensures
        text@ == utf8_lossy(bytes@),
        valid_utf8(bytes@) ==> text@ == decode_utf8(bytes@),
{
    String::from_utf8_lossy(bytes).into_owned()
}

/// The head of a request with a body of that many bytes.
pub open spec fn request_head(len: nat) -> Seq<char> {
    "POST /v1/chat/completions HTTP/1.1\r\nHost: localhost\r\nContent-Type: application/json\r\nContent-Length: "@
        + decimal(len) + "\r\n\r\n"@
}

/// The bytes of a request with the given body.
pub fn quic_http_request(body: &[u8]) -> (raw: Vec<u8>)
    ensures
        raw@ == encode_utf8(request_head(body@.len())) + body@,
{
    let len = decimal_text(body.len() as u64);
    let head = concat(
        concat(
            "POST /v1/chat/completions HTTP/1.1\r\nHost: localhost\r\nContent-Type: application/json\r\nContent-Length: ".to_owned(),
            len.as_str(),
        ),
        "\r\n\r\n",
    );
    let head_bytes = head.as_str().as_bytes();
    let mut raw: Vec<u8> = Vec::new();
    let mut i: usize = 0;
    while i < head_bytes.len()
        invariant
            i <= head_bytes@.len(),
            raw@ == head_bytes@.take(i as int),
        decreases head_bytes@.len() - i,
    {
        raw.push(head_bytes[i]);
        assert(raw@ =~= head_bytes@.take(i + 1));
        i += 1;
    }
    assert(raw@ =~= head_bytes@);
    let mut k: usize = 0;
    while k < body.len()
        invariant
            k <= body@.len(),
            raw@ == head_bytes@ + body@.take(k as int),
        decreases body@.len() - k,
    {
        raw.push(body[k]);
        assert(raw@ =~= head_bytes@ + body@.take(k + 1));
        k += 1;
    }
    assert(body@.take(k as int) =~= body@);
    raw
}

/// The bytes of a request with a document as its body, or why the document
/// cannot be sent.
pub fn quic_http_document_request(document: &serde_json::Value) -> (result: Result<
    Vec<u8>,
    String,
>)
    ensures
        match document_bytes(*document) {
            Ok(body) => result matches Ok(raw) && raw@ == encode_utf8(request_head(body.len()))
                + body,
            Err(error) => result matches Err(message) && message@ == "serialize: "@ + error,
        },
{
    match write_json(document) {
        Ok(body) => Ok(quic_http_request(body.as_slice())),
        Err(error) => Err(concat("serialize: ".to_owned(), error.as_str())),
    }
}

/// Where a model that this node serves takes chat completions.
pub fn local_completions_url(port: u16) -> (url: String)
    ensures
        url@ == "http://127.0.0.1:"@ + decimal(port as nat) + "/v1/chat/completions"@,
{
    let number = decimal_text(port as u64);
    concat(concat("http://127.0.0.1:".to_owned(), number.as_str()), "/v1/chat/completions")
}

/// Why a response cannot be used.
#[derive(Debug, Clone, PartialEq, Eq)]
pub enum QuicHttpError {
    /// The head does not end.
    Malformed,
    /// The status is not 200; the response as a whole.
    Status { status: u16, response: String },
    /// The body is not JSON; what the parser says.
    Parse(String),
}

/// The status in the first line of a head, or zero where there is none.
pub open spec fn status_of(head: Seq<char>) -> nat {
    let line = if lines_of(head).len() > 0 {
        lines_of(head)[0]
    } else {
        seq![]
    };
    if words(line).len() > 1 {
        match parsed(words(line)[1], u16::MAX as nat) {
            Some(status) => status,
            None => 0,
        }
    } else {
        0
    }
}

fn status_in(head: &str) -> (status: u16)
    ensures
        status == status_of(head@),
{
    let all = lines(head);
    if all.len() == 0 {
        proof {
            assert(texts(all@).len() == 0);
            assert(crate::scan::trimmed_start(Seq::<char>::empty()).len() == 0);
        }
        return 0;
    }
    assert(texts(all@)[0] == all@[0]@);
    let parts = split_words(all[0].as_str());
    if parts.len() < 2 {
        assert(texts(parts@).len() < 2);
        return 0;
    }
    assert(texts(parts@)[1] == parts@[1]@);
    match parse_unsigned(parts[1].as_str(), 65535) {
        Some(status) => status as u16,
        None => 0,
    }
}

/// The body of a response, or why it has none that can be used.
pub open spec fn body_of(response: Seq<char>) -> Result<Seq<char>, (bool, nat)> {
    match position(response, "\r\n\r\n"@) {
        None => Err((true, 0)),
        Some(at) => if status_of(response.take(at)) != 200 {
            Err((false, status_of(response.take(at))))
        } else {
            Ok(response.skip(at + 4))
        },
    }
}

/// The body of a response with status 200.
pub fn split_http_response(response: &str) -> (result: Result<String, QuicHttpError>)
    ensures
        match (result, body_of(response@)) {
            (Ok(body), Ok(expected)) => body@ == expected,
            (Err(QuicHttpError::Malformed), Err((malformed, _))) => malformed,
            (
                Err(QuicHttpError::Status { status, response: whole }),
                Err((malformed, expected)),
            ) => !malformed && status == expected && whole@ == response@,
            _ => false,
        },
{
    let chars = chars_of(response);
    let blank = chars_of("\r\n\r\n");
    match find_chars(chars.as_slice(), blank.as_slice()) {
        None => Err(QuicHttpError::Malformed),
        Some(at) => {
            proof {
                reveal_strlit("\r\n\r\n");
            }
            let head = string_between(chars.as_slice(), 0, at);
            assert(head@ =~= response@.take(at as int));
            let status: u16 = status_in(head.as_str());
            if status != 200 {
                return Err(QuicHttpError::Status { status, response: response.to_owned() });
            }
            let body = string_between(chars.as_slice(), at + 4, chars.len());
            assert(body@ =~= response@.skip(at + 4));
            Ok(body)
        },
    }
}

/// The document that a peer answered with.
pub fn parse_quic_http_response(response: &[u8]) -> (result: Result<
    serde_json::Value,
    QuicHttpError,
>)
    ensures
        match (result, body_of(utf8_lossy(response@))) {
            (Ok(document), Ok(body)) => json_document(body) == Ok::<serde_json::Value, Seq<char>>(
                document,
            ),
            (Err(QuicHttpError::Parse(error)), Ok(body)) => json_document(body) == Err::<
                serde_json::Value,
                Seq<char>,
            >(error@),
            (Err(QuicHttpError::Malformed), Err((malformed, _))) => malformed,
            (
                Err(QuicHttpError::Status { status, response: whole }),
                Err((malformed, expected)),
            ) => !malformed && status == expected && whole@ == utf8_lossy(response@),
            _ => false,
        },
{
    let text = from_utf8_lossy(response);
    match split_http_response(text.as_str()) {
        Ok(body) => match parse_json(body.as_str()) {
            Ok(document) => Ok(document),
            Err(error) => Err(QuicHttpError::Parse(error)),
        },
        Err(error) => Err(error),
    }
}

/// The status of a response is the second word of its first line, read as a
/// number that fits a status; it is zero where there is none.
pub proof fn law_status_is_the_second_word(head: Seq<char>, line: Seq<char>, status: nat)
    requires
        lines_of(head).len() > 0,
        lines_of(head)[0] == line,
    ensures
        words(line).len() >= 2 && words(line)[1] == decimal(status) && status <= 65535
            ==> status_of(head) == status,
        words(line).len() >= 2 && parsed(words(line)[1], 65535) is None ==> status_of(head) == 0,
        words(line).len() < 2 ==> status_of(head) == 0,
{
    crate::scan_laws::law_decimal_is_read_back(status, 65535);
}

/// A response is split at its first blank line. What stands behind it is the
/// body where the status is 200; with any other status the response is refused
/// with that status, and without a blank line it is malformed.
pub proof fn law_body_follows_the_blank_line(head: Seq<char>, body: Seq<char>, whole: Seq<char>)
    requires
        forall|k: int|
            0 <= k < head.len() ==> #[trigger] (head + "\r\n\r\n"@ + body).subrange(k, k + 4)
                != "\r\n\r\n"@,
        forall|k: int|
            0 <= k && k + 4 <= whole.len() ==> #[trigger] whole.subrange(k, k + 4)
                != "\r\n\r\n"@,
    ensures
        status_of(head) == 200 ==> body_of(head + "\r\n\r\n"@ + body) == Ok::<
            Seq<char>,
            (bool, nat),
        >(body),
        status_of(head) != 200 ==> body_of(head + "\r\n\r\n"@ + body) == Err::<
            Seq<char>,
            (bool, nat),
        >((false, status_of(head))),
        body_of(whole) == Err::<Seq<char>, (bool, nat)>((true, 0)),
{
    reveal_strlit("\r\n\r\n");
    let blank = "\r\n\r\n"@;
    let text = head + blank + body;
    crate::scan_laws::law_first_occurrence_is_found(text, blank);
    crate::scan_laws::law_first_occurrence_is_found(whole, blank);
    assert(text.subrange(head.len() as int, head.len() as int + blank.len()) =~= blank);
    if let Some(at) = position(text, blank) {
        if at < head.len() {
            assert(text.subrange(at, at + 4) != blank);
        }
    }
    if let Some(at) = position(whole, blank) {
        assert(whole.subrange(at, at + 4) != blank);
    }
    assert(text.take(head.len() as int) =~= head);
    assert(text.skip(head.len() as int + 4) =~= body);
}

/// A request names the resource, the host and the type of its body, and tells
/// how many bytes the body has; a blank line ends its head.
pub proof fn law_request_head_tells_the_length(len: nat)
    ensures
        ({
            let head = request_head(len);
            let start =
                "POST /v1/chat/completions HTTP/1.1\r\nHost: localhost\r\nContent-Type: application/json\r\nContent-Length: "@;
            &&& head.take(start.len() as int) == start
            &&& head.skip(start.len() as int) == decimal(len) + "\r\n\r\n"@
        }),
{
    let start =
        "POST /v1/chat/completions HTTP/1.1\r\nHost: localhost\r\nContent-Type: application/json\r\nContent-Length: "@;
    let head = request_head(len);
    assert(head.take(start.len() as int) =~= start);
    assert(head.skip(start.len() as int) =~= decimal(len) + "\r\n\r\n"@);
}

} // verus!
