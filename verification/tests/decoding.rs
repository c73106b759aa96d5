use runner_bootstrap::error::{snippet, ErrorKind, Field, RequestError, SNIPPET_LIMIT};
use runner_bootstrap::http::{is_success, Response, TransportFailure};
use runner_bootstrap::json::{parse, string_member};
use runner_bootstrap::steps::{get_jit_runner_token, get_tenant_creds, runner_action_output};
use runner_bootstrap::token::{JIRToken, RunnerRegistration};

fn answered(status: u16, body: &str) -> Result<Response, TransportFailure> {
    Ok(Response { status, body: body.to_string() })
}

fn unreachable_host(detail: &str) -> Result<Response, TransportFailure> {
    Err(TransportFailure { detail: detail.to_string() })
}

#[test]
fn success_class_is_200_to_299() {
    assert!(!is_success(0));
    assert!(!is_success(199));
    assert!(is_success(200));
    assert!(is_success(201));
    assert!(is_success(299));
    assert!(!is_success(300));
    assert!(!is_success(401));
    assert!(!is_success(u16::MAX));
}

#[test]
fn registration_token_is_read_from_a_well_formed_body() {
    let token = get_jit_runner_token(answered(
        201,
        r#"{"token":"abc","expires_at":"2099-01-01T00:00:00Z"}"#,
    ));
    assert_eq!(
        token,
        Ok(JIRToken { token: "abc".to_string(), expires_at: "2099-01-01T00:00:00Z".to_string() })
    );
}

#[test]
fn registration_token_text_is_not_altered() {
    let secrets = [
        "abc",
        "",
        "  padded  ",
        "UPPER lower 0123",
        "quote\" and \\ backslash",
        "line\nbreak\ttab",
        "\u{e9}\u{4e2d}\u{1f600}",
    ];
    for secret in secrets {
        let mut members = serde_json::Map::new();
        members.insert("token".to_string(), serde_json::Value::String(secret.to_string()));
        members.insert(
            "expires_at".to_string(),
            serde_json::Value::String("2099-01-01T00:00:00Z".to_string()),
        );
        let body = serde_json::Value::Object(members).to_string();
        let token = get_jit_runner_token(answered(200, &body)).expect("a token");
        assert_eq!(token.token, secret);
        assert_eq!(token.expires_at, "2099-01-01T00:00:00Z");
    }
}

#[test]
fn escapes_in_the_body_are_decoded() {
    let token = get_jit_runner_token(answered(
        200,
        r#"{"token":"a\"b\u00e9\n","expires_at":"x\/y"}"#,
    ))
    .expect("a token");
    assert_eq!(token.token, "a\"b\u{e9}\n");
    assert_eq!(token.expires_at, "x/y");
}

#[test]
fn members_beside_the_required_ones_are_ignored() {
    let token = get_jit_runner_token(answered(
        200,
        r#" { "extra": [1, {"token": "inner"}], "expires_at": "e", "n": 1.5, "token": "t", "z": null } "#,
    ));
    assert_eq!(token, Ok(JIRToken { token: "t".to_string(), expires_at: "e".to_string() }));
}

#[test]
fn credential_is_read_from_a_well_formed_body() {
    let registration = get_tenant_creds(answered(
        200,
        r#"{"token":"xyz","token_schema":"OAuth","url":"https://example.tenant/pool"}"#,
    ));
    assert_eq!(
        registration,
        Ok(RunnerRegistration {
            token: "xyz".to_string(),
            token_schema: "OAuth".to_string(),
            url: "https://example.tenant/pool".to_string(),
        })
    );
}

#[test]
fn body_that_is_not_json_is_a_protocol_error() {
    for body in ["", "   ", "<html>Bad gateway</html>", "{", "{\"token\":\"a\",}", "nul", "{} {}"] {
        let failed = get_jit_runner_token(answered(200, body)).expect_err("a failure");
        assert_eq!(
            failed,
            RequestError::InvalidJson { status: 200, snippet: body.to_string() }
        );
        assert_eq!(failed.kind(), ErrorKind::Protocol);
        let failed = get_tenant_creds(answered(200, body)).expect_err("a failure");
        assert_eq!(
            failed,
            RequestError::InvalidJson { status: 200, snippet: body.to_string() }
        );
        assert_eq!(failed.kind(), ErrorKind::Protocol);
    }
}

#[test]
fn text_after_the_document_is_not_json() {
    let body = r#"{"token":"a","expires_at":"b"} trailing"#;
    assert_eq!(
        get_jit_runner_token(answered(200, body)),
        Err(RequestError::InvalidJson { status: 200, snippet: body.to_string() })
    );
}

#[test]
fn missing_member_is_a_protocol_error() {
    let body = r#"{"token":"abc"}"#;
    let failed = get_jit_runner_token(answered(200, body)).expect_err("a failure");
    assert_eq!(
        failed,
        RequestError::MissingField {
            status: 200,
            field: Field::ExpiresAt,
            snippet: body.to_string()
        }
    );
    assert_eq!(failed.kind(), ErrorKind::Protocol);

    let body = r#"{"expires_at":"2099-01-01T00:00:00Z"}"#;
    assert_eq!(
        get_jit_runner_token(answered(200, body)),
        Err(RequestError::MissingField {
            status: 200,
            field: Field::Token,
            snippet: body.to_string()
        })
    );
}

#[test]
fn first_missing_member_is_the_one_reported() {
    assert_eq!(
        get_jit_runner_token(answered(200, "{}")),
        Err(RequestError::MissingField {
            status: 200,
            field: Field::Token,
            snippet: "{}".to_string()
        })
    );
    assert_eq!(
        get_tenant_creds(answered(200, "{}")),
        Err(RequestError::MissingField {
            status: 200,
            field: Field::Token,
            snippet: "{}".to_string()
        })
    );
    let body = r#"{"token":"xyz","url":"u"}"#;
    assert_eq!(
        get_tenant_creds(answered(200, body)),
        Err(RequestError::MissingField {
            status: 200,
            field: Field::TokenSchema,
            snippet: body.to_string()
        })
    );
    let body = r#"{"token":"xyz","token_schema":"OAuth"}"#;
    assert_eq!(
        get_tenant_creds(answered(200, body)),
        Err(RequestError::MissingField {
            status: 200,
            field: Field::Url,
            snippet: body.to_string()
        })
    );
}

#[test]
fn member_that_is_not_a_string_counts_as_missing() {
    for body in [
        r#"{"token":42,"expires_at":"e"}"#,
        r#"{"token":null,"expires_at":"e"}"#,
        r#"{"token":true,"expires_at":"e"}"#,
        r#"{"token":["abc"],"expires_at":"e"}"#,
        r#"{"token":{"token":"abc"},"expires_at":"e"}"#,
    ] {
        assert_eq!(
            get_jit_runner_token(answered(200, body)),
            Err(RequestError::MissingField {
                status: 200,
                field: Field::Token,
                snippet: body.to_string()
            })
        );
    }
}

#[test]
fn document_that_is_not_an_object_has_no_members() {
    for body in [r#"["abc","2099-01-01T00:00:00Z"]"#, r#""abc""#, "null", "7", "true"] {
        assert_eq!(
            get_jit_runner_token(answered(200, body)),
            Err(RequestError::MissingField {
                status: 200,
                field: Field::Token,
                snippet: body.to_string()
            })
        );
    }
}

#[test]
fn status_outside_success_class_fails_whatever_the_body() {
    let good = r#"{"token":"abc","expires_at":"2099-01-01T00:00:00Z"}"#;
    for status in [100u16, 199, 300, 302, 401, 403, 404, 500, 503] {
        let failed = get_jit_runner_token(answered(status, good)).expect_err("a failure");
        assert_eq!(failed, RequestError::Status { status, snippet: good.to_string() });
        assert_eq!(failed.kind(), ErrorKind::Protocol);
        assert_eq!(failed.status(), Some(status));
        assert_eq!(
            get_tenant_creds(answered(status, good)),
            Err(RequestError::Status { status, snippet: good.to_string() })
        );
        assert_eq!(
            runner_action_output(answered(status, good)),
            Err(RequestError::Status { status, snippet: good.to_string() })
        );
    }
}

#[test]
fn every_success_status_is_accepted() {
    let good = r#"{"token":"abc","expires_at":"e"}"#;
    for status in [200u16, 201, 204, 299] {
        assert!(get_jit_runner_token(answered(status, good)).is_ok());
        assert_eq!(runner_action_output(answered(status, good)), Ok(good.to_string()));
    }
}

#[test]
fn transport_failure_is_a_transport_error() {
    let failed = get_jit_runner_token(unreachable_host("connection refused")).expect_err("a failure");
    assert_eq!(failed, RequestError::Transport { detail: "connection refused".to_string() });
    assert_eq!(failed.kind(), ErrorKind::Transport);
    assert_eq!(failed.status(), None);
    assert_eq!(
        get_tenant_creds(unreachable_host("tls handshake")),
        Err(RequestError::Transport { detail: "tls handshake".to_string() })
    );
    assert_eq!(
        runner_action_output(unreachable_host("timed out")),
        Err(RequestError::Transport { detail: "timed out".to_string() })
    );
}

#[test]
fn runner_action_output_is_the_body_as_it_came() {
    let body = "{\"total_count\":0,\"runners\":[]}\n";
    assert_eq!(runner_action_output(answered(200, body)), Ok(body.to_string()));
    assert_eq!(runner_action_output(answered(200, "not json")), Ok("not json".to_string()));
    assert_eq!(runner_action_output(answered(204, "")), Ok(String::new()));
}

#[test]
fn failure_status_accessor_covers_every_variant() {
    assert_eq!(RequestError::Transport { detail: "d".to_string() }.status(), None);
    assert_eq!(RequestError::Status { status: 401, snippet: String::new() }.status(), Some(401));
    assert_eq!(
        RequestError::InvalidJson { status: 200, snippet: String::new() }.status(),
        Some(200)
    );
    assert_eq!(
        RequestError::MissingField { status: 201, field: Field::Url, snippet: String::new() }
            .status(),
        Some(201)
    );
}

#[test]
fn failure_kind_covers_every_variant() {
    assert_eq!(RequestError::Transport { detail: "d".to_string() }.kind(), ErrorKind::Transport);
    assert_eq!(
        RequestError::Status { status: 401, snippet: String::new() }.kind(),
        ErrorKind::Protocol
    );
    assert_eq!(
        RequestError::InvalidJson { status: 200, snippet: String::new() }.kind(),
        ErrorKind::Protocol
    );
    assert_eq!(
        RequestError::MissingField { status: 200, field: Field::Token, snippet: String::new() }
            .kind(),
        ErrorKind::Protocol
    );
}

#[test]
fn field_names_are_the_json_member_names() {
    assert_eq!(Field::Token.name(), "token");
    assert_eq!(Field::ExpiresAt.name(), "expires_at");
    assert_eq!(Field::TokenSchema.name(), "token_schema");
    assert_eq!(Field::Url.name(), "url");
}

#[test]
fn snippet_keeps_short_bodies_whole() {
    assert_eq!(snippet(""), "");
    assert_eq!(snippet("short"), "short");
    let exact = "x".repeat(SNIPPET_LIMIT);
    assert_eq!(snippet(&exact), exact);
}

#[test]
fn snippet_cuts_long_bodies_at_the_limit() {
    assert_eq!(SNIPPET_LIMIT, 200);
    let long = "0123456789".repeat(25);
    let kept = snippet(&long);
    assert_eq!(kept.len(), 200);
    assert_eq!(kept, long[..200]);
    let one_more = "y".repeat(SNIPPET_LIMIT + 1);
    assert_eq!(snippet(&one_more), "y".repeat(SNIPPET_LIMIT));
}

#[test]
fn snippet_counts_characters_not_bytes() {
    let long = "\u{e9}".repeat(300);
    let kept = snippet(&long);
    assert_eq!(kept.chars().count(), 200);
    assert_eq!(kept, "\u{e9}".repeat(200));
    let just_fits = "\u{1f600}".repeat(200);
    assert_eq!(snippet(&just_fits), just_fits);
}

#[test]
fn failure_of_a_long_body_keeps_only_the_snippet() {
    let body = "<".repeat(1000);
    assert_eq!(
        get_jit_runner_token(answered(502, &body)),
        Err(RequestError::Status { status: 502, snippet: "<".repeat(200) })
    );
    assert_eq!(
        get_tenant_creds(answered(200, &body)),
        Err(RequestError::InvalidJson { status: 200, snippet: "<".repeat(200) })
    );
}

#[test]
fn parse_accepts_documents_and_rejects_other_text() {
    assert!(parse("{}").is_some());
    assert!(parse(" [1, 2, 3] ").is_some());
    assert!(parse("\"text\"").is_some());
    assert!(parse("null").is_some());
    assert!(parse("").is_none());
    assert!(parse("{").is_none());
    assert!(parse("{\"a\":1} x").is_none());
    assert!(parse("{'a': 1}").is_none());
}

#[test]
fn parse_gives_the_document_of_the_text() {
    let document = parse(r#"{"a":"1","b":{"c":"2"}}"#).expect("a document");
    let mut inner = serde_json::Map::new();
    inner.insert("c".to_string(), serde_json::Value::String("2".to_string()));
    let mut outer = serde_json::Map::new();
    outer.insert("a".to_string(), serde_json::Value::String("1".to_string()));
    outer.insert("b".to_string(), serde_json::Value::Object(inner));
    assert_eq!(document, serde_json::Value::Object(outer));
}

#[test]
fn string_member_reads_only_strings_of_objects() {
    let mut members = serde_json::Map::new();
    members.insert("name".to_string(), serde_json::Value::String("value".to_string()));
    members.insert("count".to_string(), serde_json::Value::Bool(true));
    members.insert("none".to_string(), serde_json::Value::Null);
    members.insert("empty".to_string(), serde_json::Value::String(String::new()));
    let document = serde_json::Value::Object(members);
    assert_eq!(string_member(&document, "name"), Some("value".to_string()));
    assert_eq!(string_member(&document, "empty"), Some(String::new()));
    assert_eq!(string_member(&document, "count"), None);
    assert_eq!(string_member(&document, "none"), None);
    assert_eq!(string_member(&document, "absent"), None);
    assert_eq!(string_member(&document, "Name"), None);

    let text = serde_json::Value::String("name".to_string());
    assert_eq!(string_member(&text, "name"), None);
    let array = serde_json::Value::Array(vec![serde_json::Value::String("name".to_string())]);
    assert_eq!(string_member(&array, "name"), None);
    assert_eq!(string_member(&array, "0"), None);
    assert_eq!(string_member(&serde_json::Value::Null, "name"), None);
}

#[test]
fn token_from_members_reports_the_first_missing() {
    assert_eq!(
        JIRToken::from_members(Some("t".to_string()), Some("e".to_string())),
        Ok(JIRToken { token: "t".to_string(), expires_at: "e".to_string() })
    );
    assert_eq!(JIRToken::from_members(None, Some("e".to_string())), Err(Field::Token));
    assert_eq!(JIRToken::from_members(Some("t".to_string()), None), Err(Field::ExpiresAt));
    assert_eq!(JIRToken::from_members(None, None), Err(Field::Token));
}

#[test]
fn credential_from_members_reports_the_first_missing() {
    let some = |text: &str| Some(text.to_string());
    assert_eq!(
        RunnerRegistration::from_members(some("t"), some("s"), some("u")),
        Ok(RunnerRegistration {
            token: "t".to_string(),
            token_schema: "s".to_string(),
            url: "u".to_string(),
        })
    );
    assert_eq!(RunnerRegistration::from_members(None, some("s"), some("u")), Err(Field::Token));
    assert_eq!(
        RunnerRegistration::from_members(some("t"), None, some("u")),
        Err(Field::TokenSchema)
    );
    assert_eq!(RunnerRegistration::from_members(some("t"), some("s"), None), Err(Field::Url));
    assert_eq!(RunnerRegistration::from_members(None, None, None), Err(Field::Token));
    assert_eq!(RunnerRegistration::from_members(some("t"), None, None), Err(Field::TokenSchema));
}

#[test]
fn token_from_document_reads_the_two_members() {
    let mut members = serde_json::Map::new();
    members.insert("token".to_string(), serde_json::Value::String("abc".to_string()));
    members.insert("expires_at".to_string(), serde_json::Value::String("soon".to_string()));
    let document = serde_json::Value::Object(members.clone());
    assert_eq!(
        JIRToken::from_document(&document),
        Ok(JIRToken { token: "abc".to_string(), expires_at: "soon".to_string() })
    );
    members.insert("expires_at".to_string(), serde_json::Value::Null);
    assert_eq!(
        JIRToken::from_document(&serde_json::Value::Object(members)),
        Err(Field::ExpiresAt)
    );
    assert_eq!(JIRToken::from_document(&serde_json::Value::Array(Vec::new())), Err(Field::Token));
}

#[test]
fn credential_from_document_reads_the_three_members() {
    let mut members = serde_json::Map::new();
    members.insert("token".to_string(), serde_json::Value::String("xyz".to_string()));
    members.insert("token_schema".to_string(), serde_json::Value::String("OAuth".to_string()));
    members.insert("url".to_string(), serde_json::Value::String("https://t/pool".to_string()));
    let document = serde_json::Value::Object(members.clone());
    assert_eq!(
        RunnerRegistration::from_document(&document),
        Ok(RunnerRegistration {
            token: "xyz".to_string(),
            token_schema: "OAuth".to_string(),
            url: "https://t/pool".to_string(),
        })
    );
    members.remove("url");
    assert_eq!(
        RunnerRegistration::from_document(&serde_json::Value::Object(members)),
        Err(Field::Url)
    );
}
