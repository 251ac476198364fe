use vstd::prelude::*;

verus! {

/// The body of a synthesis request.
#[derive(Default, Debug, Clone, PartialEq)]
pub struct Request {
    pub input: Input,
    pub voice: Voice,
    pub audio_config: AudioConfig,
}

/// What is to be spoken.
#[derive(Default, Debug, Clone, PartialEq)]
pub struct Input {
    pub text: String,
}

/// Which voice speaks it.
#[derive(Default, Debug, Clone, PartialEq)]
pub struct Voice {
    pub language_code: String,
    pub name: String,
    pub ssml_gender: String,
}

/// The encoding of the returned audio.
#[derive(Default, Debug, Clone, PartialEq)]
pub struct AudioConfig {
    pub audio_encoding: String,
}

/// The five string fields of a request, in the order they are written.
pub struct RequestView {
    pub text: Seq<char>,
    pub language_code: Seq<char>,
    pub name: Seq<char>,
    pub ssml_gender: Seq<char>,
    pub audio_encoding: Seq<char>,
}

impl View for Request {
    type V = RequestView;

    open spec fn view(&self) -> RequestView {
        RequestView {
            text: self.input.text@,
            language_code: self.voice.language_code@,
            name: self.voice.name@,
            ssml_gender: self.voice.ssml_gender@,
            audio_encoding: self.audio_config.audio_encoding@,
        }
    }
}

/// The request for `text` in the fixed voice: US English, the standard
/// voice J, male, with MP3 audio.
pub open spec fn synthesis_view(text: Seq<char>) -> RequestView {
    RequestView {
        text,
        language_code: "en-US"@,
        name: "en-US-Standard-J"@,
        ssml_gender: "MALE"@,
        audio_encoding: "MP3"@,
    }
}

/// The JSON document of a request, given each field already written as a
/// JSON string literal.
pub open spec fn frame(
    text: Seq<char>,
    language_code: Seq<char>,
    name: Seq<char>,
    ssml_gender: Seq<char>,
    audio_encoding: Seq<char>,
) -> Seq<char> {
    "{\"input\":{\"text\":"@ + text + "},\"voice\":{\"languageCode\":"@ + language_code
        + ",\"name\":"@ + name + ",\"ssmlGender\":"@ + ssml_gender
        + "},\"audioConfig\":{\"audioEncoding\":"@ + audio_encoding + "}}"@
}

/// A character that a JSON string literal holds as it is, without escape.
pub open spec fn is_plain_json_char(c: char) -> bool {
    c as u32 >= 32 && c != '"' && c != '\\'
}

pub open spec fn is_plain_json(s: Seq<char>) -> bool {
    forall|i: int| 0 <= i < s.len() ==> is_plain_json_char(#[trigger] s[i])
}

/// `s` between double quotes.
pub open spec fn quoted(s: Seq<char>) -> Seq<char> {
    seq!['"'] + s + seq!['"']
}

/// Lower-case hexadecimal digit of `n`, below 16.
pub open spec fn hex_digit(n: u32) -> char {
    seq!['0', '1', '2', '3', '4', '5', '6', '7', '8', '9', 'a', 'b', 'c', 'd', 'e', 'f'][n as int]
}

/// How one character is written inside a JSON string literal: the quote
/// and the backslash behind a backslash, the usual short escapes, any other
/// control character as `\u00` and two hexadecimal digits, and the rest as
/// it is.
pub open spec fn json_escape(c: char) -> Seq<char> {
    if c == '"' {
        seq!['\\', '"']
    } else if c == '\\' {
        seq!['\\', '\\']
    } else if c == '\u{8}' {
        seq!['\\', 'b']
    } else if c == '\t' {
        seq!['\\', 't']
    } else if c == '\n' {
        seq!['\\', 'n']
    } else if c == '\u{c}' {
        seq!['\\', 'f']
    } else if c == '\r' {
        seq!['\\', 'r']
    } else if (c as u32) < 32 {
        seq!['\\', 'u', '0', '0', hex_digit(c as u32 / 16), hex_digit(c as u32 % 16)]
    } else {
        seq![c]
    }
}

/// Each character of `s` escaped.
pub open spec fn json_escaped(s: Seq<char>) -> Seq<char>
    decreases s.len(),
{
    if s.len() == 0 {
        s
    } else {
        json_escaped(s.drop_last()) + json_escape(s.last())
    }
}

/// `s` as a JSON string literal.
pub open spec fn json_string_literal(s: Seq<char>) -> Seq<char> {
    quoted(json_escaped(s))
}

/// A string that needs no escape is written as it is.
pub proof fn lemma_plain_json_escaped(s: Seq<char>)
    requires
        is_plain_json(s),
    ensures
        json_escaped(s) == s,
    decreases s.len(),
{
    if s.len() > 0 {
        let init = s.drop_last();
        assert(is_plain_json(init)) by {
            assert forall|i: int| 0 <= i < init.len() implies is_plain_json_char(
                #[trigger] init[i],
            ) by {
                assert(init[i] == s[i]);
            }
        }
        lemma_plain_json_escaped(init);
        assert(is_plain_json_char(s[s.len() - 1]));
        assert(s =~= init + seq![s.last()]);
    }
}

/// The JSON document of a request.
pub open spec fn request_json(r: RequestView) -> Seq<char> {
    frame(
        json_string_literal(r.text),
        json_string_literal(r.language_code),
        json_string_literal(r.name),
        json_string_literal(r.ssml_gender),
        json_string_literal(r.audio_encoding),
    )
}

/// The request document for `text` in the fixed voice, where `text` needs
/// no escape.
pub open spec fn plain_synthesis_json(text: Seq<char>) -> Seq<char> {
    "{\"input\":{\"text\":\""@ + text
        + "\"},\"voice\":{\"languageCode\":\"en-US\",\"name\":\"en-US-Standard-J\",\"ssmlGender\":\"MALE\"},\"audioConfig\":{\"audioEncoding\":\"MP3\"}}"@
}

/// The fixed voice fields need no escape, so for a text that needs none
/// either the request document is the plain one.
pub proof fn lemma_plain_synthesis_json(text: Seq<char>)
    requires
        is_plain_json(text),
    ensures
        request_json(synthesis_view(text)) == plain_synthesis_json(text),
{
    reveal_strlit("en-US");
    reveal_strlit("en-US-Standard-J");
    reveal_strlit("MALE");
    reveal_strlit("MP3");
    reveal_strlit("{\"input\":{\"text\":");
    reveal_strlit("},\"voice\":{\"languageCode\":");
    reveal_strlit(",\"name\":");
    reveal_strlit(",\"ssmlGender\":");
    reveal_strlit("},\"audioConfig\":{\"audioEncoding\":");
    reveal_strlit("}}");
    reveal_strlit("{\"input\":{\"text\":\"");
    reveal_strlit(
        "\"},\"voice\":{\"languageCode\":\"en-US\",\"name\":\"en-US-Standard-J\",\"ssmlGender\":\"MALE\"},\"audioConfig\":{\"audioEncoding\":\"MP3\"}}",
    );
    let v = synthesis_view(text);
    assert(is_plain_json(v.language_code));
    assert(is_plain_json(v.name));
    assert(is_plain_json(v.ssml_gender));
    assert(is_plain_json(v.audio_encoding));
    lemma_plain_json_escaped(v.text);
    lemma_plain_json_escaped(v.language_code);
    lemma_plain_json_escaped(v.name);
    lemma_plain_json_escaped(v.ssml_gender);
    lemma_plain_json_escaped(v.audio_encoding);
    assert(frame(
        quoted(text),
        quoted("en-US"@),
        quoted("en-US-Standard-J"@),
        quoted("MALE"@),
        quoted("MP3"@),
    ) =~= plain_synthesis_json(text));
}

/// The error of `serde_json::to_string`.
#[verifier::external_type_specification]
#[verifier::external_body]
pub struct ExJsonError(serde_json::Error);

/// Relies on `serde_json::to_string` on a `str`: the string as a JSON
/// literal, written through its escape table into a `Vec`, which cannot
/// fail.
#[verifier::external_body]
fn json_string(s: &str) -> (r: Result<String, serde_json::Error>)
    ensures
        r is Ok,
        r->Ok_0@ == json_string_literal(s@),
{
    serde_json::to_string(s)
}

/// `s` as a JSON string literal.
fn json_literal(s: &str) -> (r: String)
    ensures
        r@ == json_string_literal(s@),
{
    match json_string(s) {
        Ok(literal) => literal,
        Err(_) => {
            proof {
                assert(false);
            }
            String::new()
        },
    }
}

impl Request {
    /// The request to speak `text` in the fixed voice and encoding.
    pub fn synthesis(text: String) -> (r: Request)
        ensures
            r@ == synthesis_view(text@),
    {
        Request {
            input: Input { text },
            voice: Voice {
                language_code: String::from_str("en-US"),
                name: String::from_str("en-US-Standard-J"),
                ssml_gender: String::from_str("MALE"),
            },
            audio_config: AudioConfig { audio_encoding: String::from_str("MP3") },
        }
    }

    /// The request as a JSON document, with camel-case field names.
    pub fn to_json(&self) -> (r: String)
        ensures
            r@ == request_json(self@),
    {
        let t = json_literal(self.input.text.as_str());
        let l = json_literal(self.voice.language_code.as_str());
        let n = json_literal(self.voice.name.as_str());
        let g = json_literal(self.voice.ssml_gender.as_str());
        let e = json_literal(self.audio_config.audio_encoding.as_str());
        frame_request_json(t.as_str(), l.as_str(), n.as_str(), g.as_str(), e.as_str())
    }
}

/// The JSON document of a request from its fields, each already written as
/// a JSON string literal.
pub fn frame_request_json(
    text: &str,
    language_code: &str,
    name: &str,
    ssml_gender: &str,
    audio_encoding: &str,
) -> (r: String)
    ensures
        r@ == frame(text@, language_code@, name@, ssml_gender@, audio_encoding@),
{
    let mut r = String::from_str("{\"input\":{\"text\":");
    r.append(text);
    r.append("},\"voice\":{\"languageCode\":");
    r.append(language_code);
    r.append(",\"name\":");
    r.append(name);
    r.append(",\"ssmlGender\":");
    r.append(ssml_gender);
    r.append("},\"audioConfig\":{\"audioEncoding\":");
    r.append(audio_encoding);
    r.append("}}");
    r
}

} // verus!
