//! Capturing the redirect of an authorization: what is read from the one
//! request that the browser sends to the loopback port, and what is
//! answered to it.

use vstd::prelude::*;
use vstd::slice::slice_to_vec;
use vstd::std_specs::iter::IteratorSpec;
use vstd::string::StrSliceExecFns;
use vstd::string::StringExecFns;
use vstd::utf8::{decode_utf8, valid_utf8};

verus! {

/// The page that the browser shows once the redirect has been captured.
pub const CONFIRMATION_PAGE: &'static str =
    "<!DOCTYPE html><html><head><meta charset=\"utf-8\"><title>Signed in</title></head><body><h1>You are signed in.</h1><p>You may close this window and return to the player.</p></body></html>";

/// What the redirect is sent to, before the target of the request.
pub const REDIRECT_ORIGIN: &'static str = "http://localhost";

/// The character that stands for a value from 0 to 9.
pub open spec fn digit(value: int) -> char {
    if value == 0 {
        '0'
    } else if value == 1 {
        '1'
    } else if value == 2 {
        '2'
    } else if value == 3 {
        '3'
    } else if value == 4 {
        '4'
    } else if value == 5 {
        '5'
    } else if value == 6 {
        '6'
    } else if value == 7 {
        '7'
    } else if value == 8 {
        '8'
    } else {
        '9'
    }
}

/// A number in decimal notation, without leading zeros.
pub open spec fn decimal(n: nat) -> Seq<char>
    decreases n,
{
    if n < 10 {
        seq![digit(n as int)]
    } else {
        decimal(n / 10).push(digit((n % 10) as int))
    }
}

/// The answer to a request whose target was captured.
pub open spec fn success_response() -> Seq<char> {
    "HTTP/1.1 200 OK\r\ncontent-length: "@ + decimal(CONFIRMATION_PAGE.len() as nat) + "\r\n\r\n"@
        + CONFIRMATION_PAGE@
}

/// The answer to a request from which nothing was captured.
pub open spec fn error_response(error_message: Seq<char>) -> Seq<char> {
    "HTTP/1.1 400 Bad Request\r\n\r\n400 - Bad Request - "@ + error_message
}

/// A character that separates the words of a request: a character with
/// the Unicode property `White_Space`.
pub open spec fn is_whitespace(c: char) -> bool {
    let code = c as u32;
    ||| 0x09 <= code <= 0x0D
    ||| code == 0x20
    ||| code == 0x85
    ||| code == 0xA0
    ||| code == 0x1680
    ||| 0x2000 <= code <= 0x200A
    ||| code == 0x2028
    ||| code == 0x2029
    ||| code == 0x202F
    ||| code == 0x205F
    ||| code == 0x3000
}

/// Every place of `text` from `from` up to `to` holds a separator.
pub open spec fn all_separators(text: Seq<char>, from: int, to: int) -> bool {
    forall|i: int| from <= i < to ==> is_whitespace(#[trigger] text[i])
}

/// No place of `text` from `from` up to `to` holds a separator.
pub open spec fn no_separators(text: Seq<char>, from: int, to: int) -> bool {
    forall|i: int| from <= i < to ==> !is_whitespace(#[trigger] text[i])
}

/// A word of `text` lies from `from` up to `to`: a run of characters that
/// are no separators, which cannot be made longer at either end.
pub open spec fn is_word(text: Seq<char>, from: int, to: int) -> bool {
    &&& 0 <= from < to <= text.len()
    &&& no_separators(text, from, to)
    &&& from == 0 || is_whitespace(text[from - 1])
    &&& to == text.len() || is_whitespace(text[to])
}

/// The second word of `text` lies from `begin` up to `end`: a word lies
/// there, and before it lie one other word and separators, nothing else.
/// In a request the first word is the method and the second is the target.
pub open spec fn is_target(text: Seq<char>, begin: int, end: int) -> bool {
    &&& is_word(text, begin, end)
    &&& exists|first: int, last: int|
        #[trigger] is_word(text, first, last) && all_separators(text, 0, first) && last < begin
            && all_separators(text, last, begin)
}

/// The target of a request: its second word, if it has one.
pub open spec fn request_target(text: Seq<char>) -> Option<Seq<char>> {
    if exists|begin: int, end: int| is_target(text, begin, end) {
        let (begin, end) = choose|begin: int, end: int| is_target(text, begin, end);
        Some(text.subrange(begin, end))
    } else {
        None
    }
}

/// The first place at or after `from` that holds no separator, or the
/// length of the text if every later place holds one.
spec fn skip_separators(text: Seq<char>, from: int) -> int
    decreases text.len() - from,
{
    if 0 <= from < text.len() && is_whitespace(text[from]) {
        skip_separators(text, from + 1)
    } else {
        from
    }
}

/// The first place at or after `from` that holds a separator, or the
/// length of the text if no later place holds one.
spec fn skip_word(text: Seq<char>, from: int) -> int
    decreases text.len() - from,
{
    if 0 <= from < text.len() && !is_whitespace(text[from]) {
        skip_word(text, from + 1)
    } else {
        from
    }
}

/// Where a scan from the left finds the second word, if it finds one.
spec fn target_bounds(text: Seq<char>) -> Option<(int, int)> {
    let method_begin = skip_separators(text, 0);
    let method_end = skip_word(text, method_begin);
    let begin = skip_separators(text, method_end);
    let end = skip_word(text, begin);
    if begin < end {
        Some((begin, end))
    } else {
        None
    }
}

proof fn lemma_skip_separators_ends(text: Seq<char>, from: int)
    requires
        0 <= from <= text.len(),
    ensures
        from <= skip_separators(text, from) <= text.len(),
        all_separators(text, from, skip_separators(text, from)),
        skip_separators(text, from) == text.len() || !is_whitespace(
            text[skip_separators(text, from)],
        ),
    decreases text.len() - from,
{
    if from < text.len() && is_whitespace(text[from]) {
        lemma_skip_separators_ends(text, from + 1);
    }
}

proof fn lemma_skip_word_ends(text: Seq<char>, from: int)
    requires
        0 <= from <= text.len(),
    ensures
        from <= skip_word(text, from) <= text.len(),
        no_separators(text, from, skip_word(text, from)),
        skip_word(text, from) == text.len() || is_whitespace(text[skip_word(text, from)]),
    decreases text.len() - from,
{
    if from < text.len() && !is_whitespace(text[from]) {
        lemma_skip_word_ends(text, from + 1);
    }
}

proof fn lemma_separators_skipped(text: Seq<char>, from: int, to: int)
    requires
        0 <= from <= to <= text.len(),
        all_separators(text, from, to),
        to == text.len() || !is_whitespace(text[to]),
    ensures
        skip_separators(text, from) == to,
    decreases to - from,
{
    if from < to {
        assert(is_whitespace(text[from]));
        lemma_separators_skipped(text, from + 1, to);
    }
}

proof fn lemma_word_skipped(text: Seq<char>, from: int, to: int)
    requires
        0 <= from <= to <= text.len(),
        no_separators(text, from, to),
        to == text.len() || is_whitespace(text[to]),
    ensures
        skip_word(text, from) == to,
    decreases to - from,
{
    if from < to {
        assert(!is_whitespace(text[from]));
        lemma_word_skipped(text, from + 1, to);
    }
}

/// The scan from the left finds the second word where there is one, and
/// nothing where there is none.
proof fn lemma_scan_finds_target(text: Seq<char>)
    ensures
        forall|begin: int, end: int| #[trigger]
            is_target(text, begin, end) <==> target_bounds(text) == Some((begin, end)),
        request_target(text) == match target_bounds(text) {
            Some((begin, end)) => Some(text.subrange(begin, end)),
            None => None,
        },
{
    let method_begin = skip_separators(text, 0);
    lemma_skip_separators_ends(text, 0);
    let method_end = skip_word(text, method_begin);
    lemma_skip_word_ends(text, method_begin);
    let begin = skip_separators(text, method_end);
    lemma_skip_separators_ends(text, method_end);
    let end = skip_word(text, begin);
    lemma_skip_word_ends(text, begin);
    if begin < end {
        assert(method_begin < method_end < begin);
        assert(is_whitespace(text[begin - 1]));
        assert(is_word(text, method_begin, method_end));
        assert(is_target(text, begin, end));
    }
    assert forall|b: int, e: int| #[trigger] is_target(text, b, e) implies target_bounds(text)
        == Some((b, e)) by {
        let (first, last) = choose|first: int, last: int|
            #[trigger] is_word(text, first, last) && all_separators(text, 0, first) && last < b
                && all_separators(text, last, b);
        assert(!is_whitespace(text[first]));
        lemma_separators_skipped(text, 0, first);
        lemma_word_skipped(text, first, last);
        assert(!is_whitespace(text[b]));
        lemma_separators_skipped(text, last, b);
        lemma_word_skipped(text, b, e);
    }
    if exists|b: int, e: int| is_target(text, b, e) {
        let (b, e) = choose|b: int, e: int| is_target(text, b, e);
        assert(target_bounds(text) == Some((b, e)));
    }
}

/// A text has at most one second word.
pub proof fn lemma_target_is_unique(text: Seq<char>, begin: int, end: int, other_begin: int, other_end: int)
    requires
        is_target(text, begin, end),
        is_target(text, other_begin, other_end),
    ensures
        begin == other_begin,
        end == other_end,
        request_target(text) == Some(text.subrange(begin, end)),
{
    lemma_scan_finds_target(text);
}

proof fn lemma_skip_separators_in_longer_text(text: Seq<char>, more: Seq<char>, from: int)
    requires
        0 <= from <= text.len(),
    ensures
        skip_separators(text, from) < text.len() ==> skip_separators(text + more, from)
            == skip_separators(text, from),
    decreases text.len() - from,
{
    if from < text.len() {
        assert((text + more)[from] == text[from]);
        if is_whitespace(text[from]) {
            lemma_skip_separators_in_longer_text(text, more, from + 1);
        }
    }
}

proof fn lemma_skip_word_in_longer_text(text: Seq<char>, more: Seq<char>, from: int)
    requires
        0 <= from <= text.len(),
    ensures
        skip_word(text, from) < text.len() ==> skip_word(text + more, from) == skip_word(text, from),
        skip_word(text, from) <= skip_word(text + more, from),
    decreases text.len() - from,
{
    if from < text.len() {
        assert((text + more)[from] == text[from]);
        if !is_whitespace(text[from]) {
            lemma_skip_word_in_longer_text(text, more, from + 1);
        }
    } else {
        lemma_skip_word_ends(text + more, from);
    }
}

/// Receiving less of a request does not spoil the target. If the target
/// ended within what was received, then it is the target of the whole
/// request. If what was received ends within the target, then what was
/// received of the target is captured, and it is how the target of the
/// whole request begins.
pub proof fn lemma_target_of_cut_request(received: Seq<char>, lost: Seq<char>)
    requires
        request_target(received) is Some,
    ensures
        request_target(received + lost) matches Some(whole) && request_target(received)->0.is_prefix_of(
            whole,
        ),
        (exists|begin: int, end: int| is_target(received, begin, end) && end < received.len())
            ==> request_target(received + lost) == request_target(received),
{
    let whole = received + lost;
    lemma_scan_finds_target(received);
    lemma_scan_finds_target(whole);
    let method_begin = skip_separators(received, 0);
    lemma_skip_separators_ends(received, 0);
    lemma_skip_separators_in_longer_text(received, lost, 0);
    let method_end = skip_word(received, method_begin);
    lemma_skip_word_ends(received, method_begin);
    lemma_skip_word_in_longer_text(received, lost, method_begin);
    let begin = skip_separators(received, method_end);
    lemma_skip_separators_ends(received, method_end);
    lemma_skip_separators_in_longer_text(received, lost, method_end);
    let end = skip_word(received, begin);
    lemma_skip_word_ends(received, begin);
    lemma_skip_word_in_longer_text(received, lost, begin);
    assert(begin < end <= received.len());
    assert(method_begin < received.len() && method_end < received.len());
    let whole_end = skip_word(whole, begin);
    lemma_skip_word_ends(whole, begin);
    assert(target_bounds(whole) == Some((begin, whole_end)));
    assert(received.subrange(begin, end) =~= whole.subrange(begin, whole_end).subrange(
        0,
        end - begin,
    ));
    if end < received.len() {
        assert(received.subrange(begin, end) =~= whole.subrange(begin, end));
    }
    assert forall|b: int, e: int| is_target(received, b, e) implies b == begin && e == end by {}
}

/// What `String::from_utf8` reports of bytes that are no UTF-8, as text.
pub uninterp spec fn utf8_error(bytes: Seq<u8>) -> Seq<char>;

/// What decoding makes of the bytes of a request: the text that they
/// encode, or the reason for which they are no UTF-8.
pub open spec fn decoding(request: Seq<u8>) -> Result<Seq<char>, Seq<char>> {
    if valid_utf8(request) {
        Ok(decode_utf8(request))
    } else {
        Err(utf8_error(request))
    }
}

/// The redirect that a decoded request carries: the origin followed by
/// the target of the request. What is no text, or has no second word,
/// carries none.
pub open spec fn captured(decoded: Result<Seq<char>, Seq<char>>) -> Option<Seq<char>> {
    match decoded {
        Ok(text) => match request_target(text) {
            Some(target) => Some(REDIRECT_ORIGIN@ + target),
            None => None,
        },
        Err(_) => None,
    }
}

/// What is answered to a decoded request: the confirmation page where a
/// redirect was captured, else an error that says what was wrong.
pub open spec fn answered(decoded: Result<Seq<char>, Seq<char>>) -> Seq<char> {
    match decoded {
        Ok(text) => if request_target(text) is Some {
            success_response()
        } else {
            error_response("Malformed request"@)
        },
        Err(why) => error_response("Invalid UTF-8 sequence: "@ + why),
    }
}

/// The redirect that the bytes of a request carry.
pub open spec fn redirect_url(request: Seq<u8>) -> Option<Seq<char>> {
    captured(decoding(request))
}

/// What is answered to the bytes of a request.
pub open spec fn response(request: Seq<u8>) -> Seq<char> {
    answered(decoding(request))
}

/// A decoded request as the contracts speak of it.
pub open spec fn text_of(decoded: Result<String, String>) -> Result<Seq<char>, Seq<char>> {
    match decoded {
        Ok(text) => Ok(text@),
        Err(why) => Err(why@),
    }
}

/// `String::from_utf8`, with its error turned into the text that the error
/// displays. The contract says what the standard library documents: bytes
/// that are valid UTF-8 give the text that they encode, all other bytes
/// give the error. The text of the error is only named.
#[verifier::external_body]
fn decode(bytes: Vec<u8>) -> (text: Result<String, String>)
    ensures
        match text {
            Ok(decoded) => valid_utf8(bytes@) && decoded@ == decode_utf8(bytes@),
            Err(why) => !valid_utf8(bytes@) && why@ == utf8_error(bytes@),
        },
{
    match String::from_utf8(bytes) {
        Ok(text) => Ok(text),
        Err(error) => Err(error.to_string()),
    }
}

/// The characters of a text, one by one.
fn characters(text: &str) -> (chars: Vec<char>)
    ensures
        chars@ == text@,
{
    broadcast use vstd::string::group_string_axioms;

    let mut chars: Vec<char> = Vec::new();
    let mut rest = text.chars();
    loop
        invariant
            chars@ + rest.remaining() == text@,
            rest.obeys_prophetic_iter_laws(),
            rest.decrease() is Some,
        ensures
            chars@ == text@,
        decreases rest.decrease()->0,
    {
        match rest.next() {
            Some(c) => {
                chars.push(c);
            },
            None => {
                assert(chars@ + rest.remaining() =~= chars@);
                break ;
            },
        }
    }
    chars
}

/// Whether `c` separates words.
pub fn separates(c: char) -> (yes: bool)
    ensures
        yes == is_whitespace(c),
{
    let code = c as u32;
    (0x09 <= code && code <= 0x0D) || code == 0x20 || code == 0x85 || code == 0xA0 || code
        == 0x1680 || (0x2000 <= code && code <= 0x200A) || code == 0x2028 || code == 0x2029
        || code == 0x202F || code == 0x205F || code == 0x3000
}

fn past_separators(text: &Vec<char>, from: usize) -> (to: usize)
    requires
        from <= text.len(),
    ensures
        to == skip_separators(text@, from as int),
        from <= to <= text.len(),
{
    let mut to = from;
    while to < text.len() && separates(text[to])
        invariant
            from <= to <= text.len(),
            skip_separators(text@, from as int) == skip_separators(text@, to as int),
        decreases text.len() - to,
    {
        to += 1;
    }
    to
}

fn past_word(text: &Vec<char>, from: usize) -> (to: usize)
    requires
        from <= text.len(),
    ensures
        to == skip_word(text@, from as int),
        from <= to <= text.len(),
{
    let mut to = from;
    while to < text.len() && !separates(text[to])
        invariant
            from <= to <= text.len(),
            skip_word(text@, from as int) == skip_word(text@, to as int),
        decreases text.len() - to,
    {
        to += 1;
    }
    to
}

/// The text of one decimal digit.
fn digit_text(value: usize) -> (text: &'static str)
    requires
        value < 10,
    ensures
        text@ == seq![digit(value as int)],
{
    proof {
        reveal_strlit("0");
        reveal_strlit("1");
        reveal_strlit("2");
        reveal_strlit("3");
        reveal_strlit("4");
        reveal_strlit("5");
        reveal_strlit("6");
        reveal_strlit("7");
        reveal_strlit("8");
        reveal_strlit("9");
    }
    let text = if value == 0 {
        "0"
    } else if value == 1 {
        "1"
    } else if value == 2 {
        "2"
    } else if value == 3 {
        "3"
    } else if value == 4 {
        "4"
    } else if value == 5 {
        "5"
    } else if value == 6 {
        "6"
    } else if value == 7 {
        "7"
    } else if value == 8 {
        "8"
    } else {
        "9"
    };
    assert(text@ =~= seq![digit(value as int)]);
    text
}

/// Appends `n` in decimal notation to `text`.
pub fn push_decimal(text: &mut String, n: usize)
    ensures
        final(text)@ == old(text)@ + decimal(n as nat),
    decreases n,
{
    if n >= 10 {
        push_decimal(text, n / 10);
    }
    text.append(digit_text(n % 10));
    assert(final(text)@ =~= old(text)@ + decimal(n as nat));
}

/// The answer to the request whose target was captured: the confirmation
/// page, with its length in bytes announced.
pub fn respond_with_success() -> (response: String)
    ensures
        response@ == success_response(),
{
    let mut response = String::from_str("HTTP/1.1 200 OK\r\ncontent-length: ");
    push_decimal(&mut response, CONFIRMATION_PAGE.len());
    response.append("\r\n\r\n");
    response.append(CONFIRMATION_PAGE);
    response
}

/// The answer to a request from which nothing was captured.
pub fn respond_with_error(error_message: &str) -> (response: String)
    ensures
        response@ == error_response(error_message@),
{
    String::from_str("HTTP/1.1 400 Bad Request\r\n\r\n400 - Bad Request - ").concat(error_message)
}

/// One connection: what is answered, and what was captured.
#[derive(Debug, PartialEq, Eq)]
pub struct Connection {
    pub response: String,
    pub url: Option<String>,
}

/// Reads one request that was decoded. A text with at least two words is
/// answered with the confirmation page, and the redirect that it carries
/// is captured. Anything else is answered with an error, and nothing is
/// captured from it.
pub fn read_request(decoded: Result<String, String>) -> (connection: Connection)
    ensures
        connection.response@ == answered(text_of(decoded)),
        connection.url.deep_view() == captured(text_of(decoded)),
{
    let request = match decoded {
        Ok(request) => request,
        Err(why) => {
            let message = String::from_str("Invalid UTF-8 sequence: ").concat(why.as_str());
            return Connection { response: respond_with_error(message.as_str()), url: None };
        },
    };
    let chars = characters(request.as_str());
    proof {
        lemma_scan_finds_target(request@);
    }
    let method_begin = past_separators(&chars, 0);
    let method_end = past_word(&chars, method_begin);
    let begin = past_separators(&chars, method_end);
    let end = past_word(&chars, begin);
    if begin < end {
        let target = request.as_str().substring_char(begin, end);
        let url = String::from_str(REDIRECT_ORIGIN).concat(target);
        Connection { response: respond_with_success(), url: Some(url) }
    } else {
        Connection { response: respond_with_error("Malformed request"), url: None }
    }
}

/// Reads the request of one connection from the bytes that were received.
pub fn handle_connection(buffer: &[u8]) -> (connection: Connection)
    ensures
        connection.response@ == response(buffer@),
        connection.url.deep_view() == redirect_url(buffer@),
{
    read_request(decode(slice_to_vec(buffer)))
}

/// What a capture has come to: the answers that were given, in the order
/// of the requests, and the redirect, if one was captured.
#[derive(Debug, PartialEq, Eq)]
pub struct Capture {
    pub responses: Vec<String>,
    pub url: Option<String>,
}

/// The address on which the capture listens.
pub fn listen_address(port: u16) -> (address: String)
    ensures
        address@ == "127.0.0.1:"@ + decimal(port as nat),
{
    let mut address = String::from_str("127.0.0.1:");
    push_decimal(&mut address, port as usize);
    address
}

/// Serves the requests in the order in which they arrive, until one of
/// them carries a redirect. Every request before that one is answered
/// with an error and does not end the capture; that one is answered with
/// the confirmation page, and no later request is looked at.
pub fn redirect_uri_web_server(requests: &Vec<Vec<u8>>) -> (capture: Capture)
    ensures
        capture.responses.len() <= requests.len(),
        forall|i: int|
            0 <= i < capture.responses.len() ==> (#[trigger] capture.responses[i])@ == response(
                requests[i]@,
            ),
        forall|i: int|
            0 <= i < capture.responses.len() - 1 ==> redirect_url(#[trigger] requests[i]@) is None,
        match capture.url {
            Some(url) => capture.responses.len() >= 1 && Some(url@) == redirect_url(
                requests[capture.responses.len() - 1]@,
            ),
            None => capture.responses.len() == requests.len() && forall|i: int|
                0 <= i < requests.len() ==> redirect_url(#[trigger] requests[i]@) is None,
        },
{
    let mut responses: Vec<String> = Vec::new();
    let mut i: usize = 0;
    while i < requests.len()
        invariant
            i <= requests.len(),
            responses.len() == i,
            forall|j: int| 0 <= j < i ==> (#[trigger] responses[j])@ == response(requests[j]@),
            forall|j: int| 0 <= j < i ==> redirect_url(#[trigger] requests[j]@) is None,
        decreases requests.len() - i,
    {
        let handled = handle_connection(requests[i].as_slice());
        responses.push(handled.response);
        if handled.url.is_some() {
            return Capture { responses, url: handled.url };
        }
        i += 1;
    }
    Capture { responses, url: None }
}

} // verus!
