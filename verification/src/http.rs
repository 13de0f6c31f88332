//! The subset of HTTP that the file server speaks.
//!
//! A request is read for one thing only: the second word of its first line,
//! which is the path. A response is a status line, a `Content-Length` header,
//! an empty line and the body.

use vstd::prelude::*;
use vstd::utf8::{
    decode_utf8, encode_utf8, is_ascii_chars, is_ascii_chars_encode_utf8, valid_utf8,
};
use crate::text::{
    chars_of, decimal, decimal_string, find_line_end, find_word_end, find_word_start, first_line,
    is_whitespace, lemma_line_end, lemma_word_bounds, second_word, word_end, word_start,
};

verus! {

/// How many bytes of a request are read.
pub const REQUEST_BUFFER_SIZE: usize = 2048;

/// The path that stands for the mapping's default entry.
pub open spec fn root_path() -> Seq<char> {
    seq!['/']
}

/// The public name that the root path resolves to.
pub open spec fn index_name() -> Seq<char> {
    seq!['i', 'n', 'd', 'e', 'x']
}

/// The body sent with every not-found response.
pub open spec fn not_found_body() -> Seq<char> {
    "404 Not Found."@
}

/// The path a request names: the second word of its first line, and the root
/// path when that line has fewer than two words.
pub open spec fn request_path(request: Seq<char>) -> Seq<char> {
    match second_word(first_line(request)) {
        Some(word) => word,
        None => root_path(),
    }
}

/// The public name a path asks for: the path without one leading `/`, and
/// `index` when nothing is left.
pub open spec fn requested_name(path: Seq<char>) -> Seq<char> {
    let rest = if path.len() > 0 && path[0] == '/' {
        path.drop_first()
    } else {
        path
    };
    if rest.len() == 0 {
        index_name()
    } else {
        rest
    }
}

/// Status line and headers of a successful delivery of `length` bytes.
pub open spec fn ok_header(length: nat) -> Seq<char> {
    "HTTP/1.1 200 OK\r\nContent-Length: "@ + decimal(length) + "\r\n\r\n"@
}

/// The complete response that delivers `content`.
pub open spec fn ok_response(content: Seq<u8>) -> Seq<u8> {
    encode_utf8(ok_header(content.len())) + content
}

/// The complete not-found response with the given body; the length it
/// announces is that of the body's UTF-8 encoding.
pub open spec fn not_found_response(body: Seq<char>) -> Seq<char> {
    "HTTP/1.1 404 NOT FOUND\r\nContent-Length: "@ + decimal(encode_utf8(body).len()) + "\r\n\r\n"@
        + body
}

/// The codes of the characters of a text, one byte each: the bytes of a text
/// that is ASCII.
pub open spec fn ascii_bytes(text: Seq<char>) -> Seq<u8> {
    Seq::new(text.len(), |i: int| text[i] as u8)
}

/// The text that lossy UTF-8 decoding makes of `bytes`.
pub uninterp spec fn lossy_text(bytes: Seq<u8>) -> Seq<char>;

/// `String::from_utf8_lossy` of std, made into an owned string. The result is
/// a function of the bytes alone, and for bytes that are UTF-8 it is the
/// text they encode. What it makes of other bytes is not stated here.
#[verifier::external_body]
pub(crate) fn decode_lossy(bytes: &[u8]) -> (r: String)
    ensures
        r@ == lossy_text(bytes@),
        valid_utf8(bytes@) ==> r@ == decode_utf8(bytes@),
{
    String::from_utf8_lossy(bytes).into_owned()
}

/// Reads the path out of a request.
pub fn parse_request_path(request: &str) -> (r: String)
    ensures
        r@ == request_path(request@),
{
    let mut chars = chars_of(request);
    let end = find_line_end(&chars, 0);
    chars.truncate(end);
    assert(chars@ == first_line(request@));
    let first = find_word_start(&chars, 0);
    let gap = find_word_end(&chars, first);
    let second = find_word_start(&chars, gap);
    if second < chars.len() {
        let stop = find_word_end(&chars, second);
        assert(request@.subrange(second as int, stop as int) =~= chars@.subrange(
            second as int,
            stop as int,
        ));
        request.substring_char(second, stop).to_owned()
    } else {
        proof {
            reveal_strlit("/");
        }
        let r = "/".to_owned();
        assert(r@ =~= root_path());
        r
    }
}

/// Resolves a request path to the public name it asks for.
pub fn resolve_name(path: &str) -> (r: String)
    ensures
        r@ == requested_name(path@),
{
    let chars = chars_of(path);
    let from: usize = if chars.len() > 0 && chars[0] == '/' {
        1
    } else {
        0
    };
    if from == chars.len() {
        proof {
            reveal_strlit("index");
        }
        let r = "index".to_owned();
        assert(r@ =~= index_name());
        r
    } else {
        assert(path@.subrange(from as int, chars.len() as int) =~= if from == 1 {
            path@.drop_first()
        } else {
            path@
        });
        path.substring_char(from, chars.len()).to_owned()
    }
}

/// Builds the not-found response around `body`.
pub fn http_404_response(body: &str) -> (r: String)
    ensures
        r@ == not_found_response(body@),
{
    let length = body.as_bytes().len();
    let digits = decimal_string(length);
    let mut r = "HTTP/1.1 404 NOT FOUND\r\nContent-Length: ".to_owned();
    r.append(digits.as_str());
    r.append("\r\n\r\n");
    r.append(body);
    r
}

/// Builds the response that delivers `content`.
pub fn http_200_response(content: &[u8]) -> (r: Vec<u8>)
    ensures
        r@ == ok_response(content@),
{
    let digits = decimal_string(content.len());
    let mut header = "HTTP/1.1 200 OK\r\nContent-Length: ".to_owned();
    header.append(digits.as_str());
    header.append("\r\n\r\n");
    let mut r: Vec<u8> = Vec::new();
    r.extend_from_slice(header.as_str().as_bytes());
    r.extend_from_slice(content);
    assert(r@ =~= ok_response(content@));
    r
}

/// The bytes of the not-found response that the server sends.
pub fn not_found_bytes() -> (r: Vec<u8>)
    ensures
        r@ == encode_utf8(not_found_response(not_found_body())),
{
    let text = http_404_response("404 Not Found.");
    let mut r: Vec<u8> = Vec::new();
    r.extend_from_slice(text.as_str().as_bytes());
    assert(r@ =~= encode_utf8(not_found_response(not_found_body())));
    r
}

/// A numeral is ASCII.
proof fn lemma_decimal_is_ascii(n: nat)
    ensures
        is_ascii_chars(decimal(n)),
    decreases n,
{
    if n >= 10 {
        lemma_decimal_is_ascii(n / 10);
    }
}

/// On the wire a response is its status line and header, one byte for each
/// character, and then the body: the bytes of the content as they are for a
/// delivery, and for the not-found response the text of its body, which is
/// ASCII as sent by the server.
pub proof fn law_responses_are_header_then_body(content: Seq<u8>, body: Seq<char>)
    ensures
        is_ascii_chars(ok_header(content.len())),
        ok_response(content) == ascii_bytes(ok_header(content.len())) + content,
        is_ascii_chars(not_found_body()),
        is_ascii_chars(body) ==> is_ascii_chars(not_found_response(body)) && encode_utf8(
            not_found_response(body),
        ) == ascii_bytes(not_found_response(body)),
{
    reveal_strlit("HTTP/1.1 200 OK\r\nContent-Length: ");
    reveal_strlit("HTTP/1.1 404 NOT FOUND\r\nContent-Length: ");
    reveal_strlit("\r\n\r\n");
    reveal_strlit("404 Not Found.");
    lemma_decimal_is_ascii(content.len());
    lemma_decimal_is_ascii(encode_utf8(body).len());
    let header = ok_header(content.len());
    is_ascii_chars_encode_utf8(header);
    assert(encode_utf8(header) =~= ascii_bytes(header));
    if is_ascii_chars(body) {
        let text = not_found_response(body);
        is_ascii_chars_encode_utf8(text);
        assert(encode_utf8(text) =~= ascii_bytes(text));
    }
}

/// The path of a request is one word: it is not empty and holds no white
/// space, so no line feed either.
pub proof fn law_request_path_is_one_word(request: Seq<char>)
    ensures
        request_path(request).len() > 0,
        forall|i: int|
            0 <= i < request_path(request).len() ==> !is_whitespace(
                #[trigger] request_path(request)[i],
            ),
{
    let line = first_line(request);
    lemma_line_end(request, 0);
    lemma_word_bounds(line, 0);
    let first = word_start(line, 0);
    lemma_word_bounds(line, first);
    let gap = word_end(line, first);
    lemma_word_bounds(line, gap);
    let second = word_start(line, gap);
    if second < line.len() {
        lemma_word_bounds(line, second);
        let stop = word_end(line, second);
        let word = line.subrange(second, stop);
        assert forall|i: int| 0 <= i < word.len() implies !is_whitespace(#[trigger] word[i]) by {
            assert(word[i] == line[second + i]);
        }
    }
}

} // verus!
