use tts_say::{
    authorization_value, frame_request_json, is_valid_header_value, playback_of,
    token_from_output, Action, AudioConfig, Event, Input, Phase, Request, SayError, Session,
    SynthesisResponse, Voice,
};

fn awaiting_token(text: &str) -> Session {
    let (session, action) = Session::start(text.to_string(), true);
    assert_eq!(action, Action::FetchToken);
    session
}

fn awaiting_response(text: &str) -> Session {
    let mut session = awaiting_token(text);
    let action = session.step(Event::TokenPrinted { stdout: b"tok\n".to_vec() });
    assert!(matches!(action, Action::Send { .. }));
    session
}

fn received(content: &str) -> Event {
    Event::ResponseReceived {
        response: SynthesisResponse { audio_content: content.to_string() },
    }
}

#[test]
fn empty_text_exits_with_one() {
    for present in [true, false] {
        let (mut session, action) = Session::start(String::new(), present);
        assert_eq!(action, Action::Fail { error: SayError::EmptyText });
        assert_eq!(action.exit_status(), Some(1));
        let next = session.step(Event::TokenPrinted { stdout: b"tok\n".to_vec() });
        assert_eq!(next, Action::Fail { error: SayError::EmptyText });
    }
}

#[test]
fn missing_credentials_exits_with_two() {
    let (session, action) = Session::start("hello".to_string(), false);
    assert_eq!(action, Action::Fail { error: SayError::MissingCredentials });
    assert_eq!(action.exit_status(), Some(2));
    assert_eq!(session.phase(), Phase::Failed { error: SayError::MissingCredentials });
}

#[test]
fn authorization_is_bearer_and_token() {
    let mut session = awaiting_token("hello");
    let action = session.step(Event::TokenPrinted { stdout: b"ya29.abc-DEF\nsecond line\n".to_vec() });
    match action {
        Action::Send { authorization, .. } => assert_eq!(authorization, "Bearer ya29.abc-DEF"),
        other => panic!("unexpected action {:?}", other),
    }
    assert_eq!(session.phase(), Phase::AwaitingResponse);
}

#[test]
fn authorization_without_final_line_feed() {
    let mut session = awaiting_token("hello");
    match session.step(Event::TokenPrinted { stdout: b"ya29.xyz".to_vec() }) {
        Action::Send { authorization, .. } => assert_eq!(authorization, "Bearer ya29.xyz"),
        other => panic!("unexpected action {:?}", other),
    }
}

fn sent_authorization(stdout: &[u8]) -> String {
    let mut session = awaiting_token("hello");
    match session.step(Event::TokenPrinted { stdout: stdout.to_vec() }) {
        Action::Send { authorization, .. } => authorization,
        other => panic!("unexpected action {:?}", other),
    }
}

#[test]
fn carriage_return_before_line_feed_is_dropped() {
    assert_eq!(sent_authorization(b"tok\r\n"), "Bearer tok");
}

#[test]
fn trailing_blanks_before_line_feed_are_dropped() {
    assert_eq!(sent_authorization(b"tok \n"), "Bearer tok");
    assert_eq!(sent_authorization(b"tok\t \r\nnext"), "Bearer tok");
}

#[test]
fn carriage_return_inside_token_is_refused() {
    let mut session = awaiting_token("hello");
    let action = session.step(Event::TokenPrinted { stdout: b"to\rk\n".to_vec() });
    assert_eq!(action, Action::Fail { error: SayError::InvalidToken });
    assert_eq!(action.exit_status(), Some(101));
}

#[test]
fn request_body_matches_wire_format() {
    let mut session = awaiting_token("hello world");
    match session.step(Event::TokenPrinted { stdout: b"tok\n".to_vec() }) {
        Action::Send { body, .. } => assert_eq!(
            body,
            r#"{"input":{"text":"hello world"},"voice":{"languageCode":"en-US","name":"en-US-Standard-J","ssmlGender":"MALE"},"audioConfig":{"audioEncoding":"MP3"}}"#
        ),
        other => panic!("unexpected action {:?}", other),
    }
}

#[test]
fn request_body_escapes_quotes_and_line_breaks() {
    let request = Request::synthesis("say \"hi\"\n".to_string());
    assert_eq!(
        request.to_json(),
        r#"{"input":{"text":"say \"hi\"\n"},"voice":{"languageCode":"en-US","name":"en-US-Standard-J","ssmlGender":"MALE"},"audioConfig":{"audioEncoding":"MP3"}}"#
    );
}

#[test]
fn request_body_escapes_control_characters() {
    let request = Request::synthesis("a\u{1}\u{1f}\t\u{8}\u{c}\r\\b".to_string());
    assert!(request
        .to_json()
        .starts_with(r#"{"input":{"text":"a\u0001\u001f\t\b\f\r\\b"},"voice":"#));
}

#[test]
fn synthesis_request_has_fixed_voice() {
    let request = Request::synthesis("hi".to_string());
    assert_eq!(
        request,
        Request {
            input: Input { text: "hi".to_string() },
            voice: Voice {
                language_code: "en-US".to_string(),
                name: "en-US-Standard-J".to_string(),
                ssml_gender: "MALE".to_string(),
            },
            audio_config: AudioConfig { audio_encoding: "MP3".to_string() },
        }
    );
}

#[test]
fn frame_places_each_field() {
    assert_eq!(
        frame_request_json("\"t\"", "\"l\"", "\"n\"", "\"g\"", "\"e\""),
        r#"{"input":{"text":"t"},"voice":{"languageCode":"l","name":"n","ssmlGender":"g"},"audioConfig":{"audioEncoding":"e"}}"#
    );
}

#[test]
fn decodes_three_zero_bytes() {
    let response = SynthesisResponse { audio_content: "AAAA".to_string() };
    assert_eq!(response.audio_bytes(), Ok(vec![0u8, 0, 0]));
    let mut session = awaiting_response("hello");
    assert_eq!(session.step(received("AAAA")), Action::Play { audio: vec![0u8, 0, 0] });
    assert_eq!(session.phase(), Phase::AwaitingPlayback);
}

#[test]
fn decodes_padded_text() {
    let response = SynthesisResponse { audio_content: "aGk=".to_string() };
    assert_eq!(response.audio_bytes(), Ok(b"hi".to_vec()));
}

#[test]
fn malformed_base64_is_a_decode_error() {
    let mut session = awaiting_response("hello");
    let action = session.step(received("A"));
    assert_eq!(action, Action::Fail { error: SayError::Decode });
    assert_eq!(action.exit_status(), Some(101));
}

#[test]
fn transport_failure_exits_with_three() {
    let mut session = awaiting_response("hello");
    let action = session.step(Event::TransportFailed);
    assert_eq!(action, Action::Fail { error: SayError::Transport });
    assert_eq!(action.exit_status(), Some(3));
    let later = session.step(received("AAAA"));
    assert_eq!(later, Action::Fail { error: SayError::Transport });
}

#[test]
fn malformed_response_ends_abnormally() {
    let mut session = awaiting_response("hello");
    let action = session.step(Event::ResponseMalformed);
    assert_eq!(action, Action::Fail { error: SayError::MalformedResponse });
    assert_eq!(action.exit_status(), Some(101));
}

#[test]
fn player_result_ends_with_success() {
    let mut session = awaiting_response("hello");
    session.step(received("AAAA"));
    let action = session.step(Event::PlayerFinished);
    assert_eq!(action, Action::Succeed);
    assert_eq!(action.exit_status(), Some(0));
    assert_eq!(session.phase(), Phase::Succeeded);
}

#[test]
fn audio_file_failure_ends_abnormally() {
    let mut session = awaiting_response("hello");
    session.step(received("AAAA"));
    assert_eq!(session.step(Event::AudioFileFailed), Action::Fail { error: SayError::AudioFile });
}

#[test]
fn unexpected_event_ends_the_run() {
    let mut session = awaiting_token("hello");
    assert_eq!(session.step(Event::PlayerFinished), Action::Fail { error: SayError::UnexpectedEvent });
    assert_eq!(session.text(), "hello");
}

#[test]
fn exit_codes_of_errors() {
    assert_eq!(SayError::EmptyText.exit_code(), 1);
    assert_eq!(SayError::MissingCredentials.exit_code(), 2);
    assert_eq!(SayError::Transport.exit_code(), 3);
    assert_eq!(SayError::InvalidToken.exit_code(), 101);
    assert_eq!(SayError::AudioFile.exit_code(), 101);
    assert_eq!(Action::FetchToken.exit_status(), None);
}

#[test]
fn token_stops_at_first_line_feed() {
    assert_eq!(token_from_output(b"abc\ndef"), "abc");
    assert_eq!(token_from_output(b"\nabc"), "");
    assert_eq!(token_from_output(b""), "");
    assert_eq!(token_from_output(&[0x61, 0xe9]), "a\u{e9}");
    assert_eq!(token_from_output(b"  \r\n"), "");
    assert_eq!(token_from_output(b"a b \t"), "a b");
}

#[test]
fn authorization_value_prefixes_bearer() {
    assert_eq!(authorization_value("t0k"), "Bearer t0k");
}

#[test]
fn header_value_characters() {
    assert!(is_valid_header_value("Bearer abc\tdef"));
    assert!(is_valid_header_value("caf\u{e9}"));
    assert!(!is_valid_header_value("abc\n"));
    assert!(!is_valid_header_value("a\u{7f}"));
}

#[test]
fn playback_follows_decoding() {
    assert_eq!(
        playback_of(Ok(vec![1u8, 2])),
        (Phase::AwaitingPlayback, Action::Play { audio: vec![1u8, 2] })
    );
    assert_eq!(
        playback_of(Err(SayError::Decode)),
        (Phase::Failed { error: SayError::Decode }, Action::Fail { error: SayError::Decode })
    );
}
