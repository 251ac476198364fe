use vstd::prelude::*;

verus! {

/// The byte that ends the credential tool's first line of output.
pub const LINE_FEED: u8 = 10;

/// Index of the first line feed at or after `i`, or the length if none.
pub open spec fn line_end_from(out: Seq<u8>, i: int) -> int
    decreases out.len() - i,
{
    if i >= out.len() {
        out.len() as int
    } else if out[i] == LINE_FEED {
        i
    } else {
        line_end_from(out, i + 1)
    }
}

/// The bytes before the first line feed (all of them when there is none).
pub open spec fn first_line(out: Seq<u8>) -> Seq<u8> {
    out.take(line_end_from(out, 0))
}

/// Each byte read as the character with the same code point.
pub open spec fn latin1_chars(bytes: Seq<u8>) -> Seq<char> {
    bytes.map_values(|b: u8| b as char)
}

/// Space, tab and carriage return: blanks that may follow the token on
/// its line.
pub open spec fn is_trailing_blank(b: u8) -> bool {
    b == 32 || b == 9 || b == 13
}

/// `line` without the blanks at its end.
pub open spec fn trim_end(line: Seq<u8>) -> Seq<u8>
    decreases line.len(),
{
    if line.len() > 0 && is_trailing_blank(line.last()) {
        trim_end(line.drop_last())
    } else {
        line
    }
}

/// The token that the credential tool printed on its first line: the line
/// without its trailing blanks.
pub open spec fn token_of(out: Seq<u8>) -> Seq<char> {
    latin1_chars(trim_end(first_line(out)))
}

/// The `Authorization` value that carries `token`.
pub open spec fn bearer(token: Seq<char>) -> Seq<char> {
    "Bearer "@ + token
}

/// A character that an HTTP header value may hold: a tab, or anything from
/// the space upwards but DEL. A character above ASCII is encoded in UTF-8 as
/// bytes that are all at least 0x80, which are accepted too.
pub open spec fn is_header_char(c: char) -> bool {
    c == '\t' || (c as u32 >= 32 && c as u32 != 127)
}

pub open spec fn is_header_text(s: Seq<char>) -> bool {
    forall|i: int| 0 <= i < s.len() ==> is_header_char(#[trigger] s[i])
}

/// Relies on `String::push`: the character is appended at the end.
pub assume_specification[ std::string::String::push ](s: &mut String, ch: char)
    ensures
        final(s)@ == old(s)@.push(ch),
;

/// `http`'s header value, as `reqwest` re-exports it; carried, never looked into.
#[verifier::external_type_specification]
#[verifier::external_body]
pub struct ExHeaderValue(reqwest::header::HeaderValue);

/// The error of `HeaderValue::from_str`.
#[verifier::external_type_specification]
#[verifier::external_body]
pub struct ExInvalidHeaderValue(reqwest::header::InvalidHeaderValue);

/// Relies on `http::HeaderValue::from_str`: it accepts exactly the strings
/// whose every byte is a tab or at least 32 and not 127.
pub assume_specification[ reqwest::header::HeaderValue::from_str ](src: &str) -> (r: Result<
    reqwest::header::HeaderValue,
    reqwest::header::InvalidHeaderValue,
>)
    ensures
        r is Ok <==> is_header_text(src@),
;

/// The token on the first line of the credential tool's standard output:
/// the bytes before the first line feed, without the spaces, tabs and
/// carriage returns at their end, each read as one character.
pub fn token_from_output(out: &[u8]) -> (token: String)
    ensures
        token@ == token_of(out@),
        !token@.contains('\n'),
        token@.len() > 0 ==> token@.last() != ' ' && token@.last() != '\t' && token@.last() != '\r',
{
    let mut end: usize = 0;
    while end < out.len() && out[end] != LINE_FEED
        invariant
            0 <= end <= out@.len(),
            line_end_from(out@, 0) == line_end_from(out@, end as int),
        decreases out@.len() - end,
    {
        end = end + 1;
    }
    assert(line_end_from(out@, 0) == end);
    let mut len: usize = end;
    while len > 0 && (out[len - 1] == 32 || out[len - 1] == 9 || out[len - 1] == 13)
        invariant
            0 <= len <= end <= out@.len(),
            end == line_end_from(out@, 0),
            trim_end(out@.take(end as int)) == trim_end(out@.take(len as int)),
        decreases len,
    {
        assert(out@.take(len as int).drop_last() =~= out@.take(len - 1));
        len = len - 1;
    }
    assert(trim_end(out@.take(len as int)) == out@.take(len as int));
    let mut token = String::new();
    let mut i: usize = 0;
    while i < len
        invariant
            0 <= i <= len <= out@.len(),
            token@ == latin1_chars(out@.take(i as int)),
        decreases len - i,
    {
        token.push(out[i] as char);
        i = i + 1;
        assert(out@.take(i as int) == out@.take(i - 1).push(out@[i - 1]));
        assert(latin1_chars(out@.take(i as int)) =~= latin1_chars(out@.take(i - 1)).push(
            out@[i - 1] as char,
        ));
    }
    proof {
        assert(out@.take(i as int) =~= out@.take(len as int));
        assert forall|j: int| 0 <= j < token@.len() implies token@[j] != '\n' by {
            lemma_before_line_end(out@, 0, j);
        }
    }
    token
}

/// No line feed comes before the line end.
pub proof fn lemma_before_line_end(out: Seq<u8>, i: int, j: int)
    requires
        0 <= i <= j < line_end_from(out, i),
    ensures
        out[j] != LINE_FEED,
    decreases out.len() - i,
{
    if i < out.len() && out[i] != LINE_FEED && i < j {
        lemma_before_line_end(out, i + 1, j);
    }
}

/// The line end of a stub's output `token`, or `token`, a line feed and
/// anything after it, falls right after `token`, which is its first line.
pub proof fn lemma_first_line_of_token(token: Seq<u8>, rest: Seq<u8>)
    requires
        !token.contains(LINE_FEED),
    ensures
        first_line(token) == token,
        first_line(token + seq![LINE_FEED] + rest) == token,
{
    let out = token + seq![LINE_FEED] + rest;
    assert(token.take(token.len() as int) =~= token);
    assert(out.take(token.len() as int) =~= token);
    assert(out[token.len() as int] == LINE_FEED);
    lemma_line_end_after(token, token, 0);
    lemma_line_end_after(out, token, 0);
}

/// Where `out` starts with `token`, which holds no line feed, and goes on
/// with a line feed or ends, its line end from `i` is the length of `token`.
proof fn lemma_line_end_after(out: Seq<u8>, token: Seq<u8>, i: int)
    requires
        !token.contains(LINE_FEED),
        0 <= i <= token.len() <= out.len(),
        out.take(token.len() as int) == token,
        token.len() == out.len() || out[token.len() as int] == LINE_FEED,
    ensures
        line_end_from(out, i) == token.len(),
    decreases token.len() - i,
{
    if i < token.len() {
        assert(out[i] == token[i]);
        lemma_line_end_after(out, token, i + 1);
    }
}

/// The `Authorization` value for a bearer token: `Bearer ` and the token.
pub fn authorization_value(token: &str) -> (r: String)
    ensures
        r@ == bearer(token@),
{
    let mut r = String::from_str("Bearer ");
    r.append(token);
    r
}

/// Whether `s` can stand as the value of an HTTP header.
pub fn is_valid_header_value(s: &str) -> (r: bool)
    ensures
        r == is_header_text(s@),
{
    reqwest::header::HeaderValue::from_str(s).is_ok()
}

} // verus!
