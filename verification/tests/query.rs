use overlay_controller::json::{read_reply_fields, ReplyFields};
use overlay_controller::query::{
    authorization_header, classify_reply, error_text, interpret_body, prepare_request,
    reply_text, Persona, QueryError,
};

#[test]
fn reply_text_is_read_from_the_first_choice() {
    let body = r#"{"choices":[{"message":{"role":"assistant","content":"Meow!"}},{"message":{"content":"second"}}]}"#;
    assert_eq!(interpret_body(Persona::Companion, body), Ok("Meow!".to_string()));
    assert_eq!(interpret_body(Persona::Assistant, body), Ok("Meow!".to_string()));
}

#[test]
fn reply_text_keeps_escapes_and_unicode() {
    let body = r#"{"choices":[{"message":{"content":"  a \"b\"\n\u00e9 \ud83d\udc31 "}}]}"#;
    assert_eq!(
        interpret_body(Persona::Companion, body),
        Ok("  a \"b\"\n\u{e9} \u{1f431} ".to_string())
    );
}

#[test]
fn companion_takes_the_reply_whatever_else_the_response_holds() {
    let body = r#"{"error":{"message":"Invalid API Key","type":"auth"},"choices":[{"message":{"content":"x"}}]}"#;
    assert_eq!(interpret_body(Persona::Companion, body), Ok("x".to_string()));
    assert_eq!(reply_text(interpret_body(Persona::Companion, body)), "x");
}

#[test]
fn assistant_puts_an_upstream_error_first() {
    let body = r#"{"error":{"message":"Invalid API Key","type":"auth"},"choices":[{"message":{"content":"x"}}]}"#;
    assert_eq!(
        interpret_body(Persona::Assistant, body),
        Err(QueryError::UpstreamError("Invalid API Key".to_string()))
    );
}

#[test]
fn upstream_error_without_reply_is_kept_for_the_log_only() {
    let only_error = r#"{"error":{"message":"quota exceeded"}}"#;
    for persona in [Persona::Companion, Persona::Assistant] {
        let outcome = interpret_body(persona, only_error);
        assert_eq!(outcome, Err(QueryError::UpstreamError("quota exceeded".to_string())));
        assert_eq!(error_text(outcome.as_ref().unwrap_err()), "quota exceeded");
        let shown = reply_text(outcome);
        assert_eq!(shown, "Meow? I couldn't understand that...");
        assert!(!shown.contains("quota"));
    }
}

#[test]
fn body_that_is_not_json_is_unreadable() {
    for body in ["", "not json", "{", r#"{"choices":"#, "{} trailing", "<html></html>"] {
        for persona in [Persona::Companion, Persona::Assistant] {
            assert_eq!(interpret_body(persona, body), Err(QueryError::UnreadableResponse));
            assert_eq!(
                reply_text(interpret_body(persona, body)),
                "Meow... something went wrong!"
            );
        }
        assert_eq!(read_reply_fields(body), None);
    }
}

#[test]
fn body_without_reply_text_is_malformed() {
    for body in [
        "{}",
        "null",
        "[]",
        r#"{"choices":[]}"#,
        r#"{"choices":[{"message":{}}]}"#,
        r#"{"choices":[{"message":{"content":42}}]}"#,
        r#"{"choices":[{"message":{"content":null}}]}"#,
        r#"{"choices":{"0":{"message":{"content":"keyed"}}}}"#,
        r#"{"choices":[[],{"message":{"content":"second"}}]}"#,
        r#"{"message":{"content":"top"}}"#,
        r#"{"error":"plain text"}"#,
        r#"{"error":{"message":7}}"#,
        r#""just a string""#,
    ] {
        for persona in [Persona::Companion, Persona::Assistant] {
            assert_eq!(
                interpret_body(persona, body),
                Err(QueryError::MalformedResponse),
                "{}",
                body
            );
            assert_eq!(
                reply_text(interpret_body(persona, body)),
                "Meow? I couldn't understand that..."
            );
        }
    }
}

#[test]
fn fields_are_read_independently() {
    let body = r#"{"error":{"message":"e"},"choices":[{"message":{"content":"c"}}]}"#;
    assert_eq!(
        read_reply_fields(body),
        Some(ReplyFields { error_message: Some("e".to_string()), content: Some("c".to_string()) })
    );
    assert_eq!(
        read_reply_fields("{}"),
        Some(ReplyFields { error_message: None, content: None })
    );
    assert_eq!(
        read_reply_fields(r#""text""#),
        Some(ReplyFields { error_message: None, content: None })
    );
}

#[test]
fn classification_covers_every_combination() {
    let some = |s: &str| Some(s.to_string());
    let fields = |error_message: Option<String>, content: Option<String>| {
        Some(ReplyFields { error_message, content })
    };
    for persona in [Persona::Companion, Persona::Assistant] {
        assert_eq!(classify_reply(persona, None), Err(QueryError::UnreadableResponse));
        assert_eq!(classify_reply(persona, fields(None, None)), Err(QueryError::MalformedResponse));
        assert_eq!(classify_reply(persona, fields(None, some("c"))), Ok("c".to_string()));
        assert_eq!(classify_reply(persona, fields(None, some(""))), Ok(String::new()));
        assert_eq!(
            classify_reply(persona, fields(some("e"), None)),
            Err(QueryError::UpstreamError("e".to_string()))
        );
    }
    assert_eq!(
        classify_reply(Persona::Companion, fields(some("e"), some("c"))),
        Ok("c".to_string())
    );
    assert_eq!(
        classify_reply(Persona::Assistant, fields(some("e"), some("c"))),
        Err(QueryError::UpstreamError("e".to_string()))
    );
}

#[test]
fn shown_text_is_the_reply_or_the_fixed_message() {
    assert_eq!(reply_text(Ok("purr".to_string())), "purr");
    assert_eq!(reply_text(Err(QueryError::MissingKey)), "Please configure an API key");
    assert_eq!(
        reply_text(Err(QueryError::TransportFailure)),
        "Meow... I couldn't reach the server!"
    );
    assert_eq!(
        reply_text(Err(QueryError::UnreadableResponse)),
        "Meow... something went wrong!"
    );
    assert_eq!(
        reply_text(Err(QueryError::MalformedResponse)),
        "Meow? I couldn't understand that..."
    );
    assert_eq!(
        reply_text(Err(QueryError::UpstreamError("secret detail".to_string()))),
        "Meow? I couldn't understand that..."
    );
}

#[test]
fn error_text_gives_the_upstream_message() {
    assert_eq!(error_text(&QueryError::UpstreamError("quota".to_string())), "quota");
    assert_eq!(error_text(&QueryError::MissingKey), "API key not set");
    assert_eq!(error_text(&QueryError::TransportFailure), "Request failed");
    assert_eq!(error_text(&QueryError::UnreadableResponse), "Failed to parse response");
    assert_eq!(error_text(&QueryError::MalformedResponse), "No response from Groq");
}

#[test]
fn authorization_is_bearer_and_key() {
    assert_eq!(authorization_header("abc123"), "Bearer abc123");
    assert_eq!(authorization_header(""), "Bearer ");
}

#[test]
fn request_without_key_is_never_built() {
    assert_eq!(prepare_request(Persona::Companion, "", "hi"), Err(QueryError::MissingKey));
    assert_eq!(prepare_request(Persona::Assistant, "", "hi"), Err(QueryError::MissingKey));
}

#[test]
fn companion_request_carries_one_system_and_one_user_message() {
    let request = prepare_request(Persona::Companion, "k", "what is up?").unwrap();
    assert_eq!(request.url, "https://api.groq.com/openai/v1/chat/completions");
    assert_eq!(request.authorization, "Bearer k");
    assert_eq!(request.model, "llama-3.3-70b-versatile");
    assert!(request.system_prompt.starts_with("You are a helpful, friendly cat assistant named Mitten."));
    assert_eq!(request.user_message, "what is up?");
    assert_eq!(request.max_tokens, Some(150));
    assert_eq!(request.temperature_tenths, Some(7));
}

#[test]
fn assistant_request_leaves_sampling_to_the_service() {
    let request = prepare_request(Persona::Assistant, "k", "2+2").unwrap();
    assert_eq!(request.model, "meta-llama/llama-4-maverick-17b-128e-instruct");
    assert!(request.system_prompt.starts_with("You are an adorable cat"));
    assert!(request.system_prompt.contains("with \\( \\) delimiters"));
    assert!(request.system_prompt.ends_with("cute cat companion and friend"));
    assert_eq!(request.user_message, "2+2");
    assert_eq!(request.max_tokens, None);
    assert_eq!(request.temperature_tenths, None);
}
