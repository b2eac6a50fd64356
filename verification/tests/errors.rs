use d6e_cli::client::{api_error, is_success_status, ErrorResponse};
use d6e_cli::error::{error_envelope, CliError};

#[test]
fn workspace_create_server_failure_is_not_retryable() {
    let error: CliError = CliError::Api {
        status: 503,
        code: "service_unavailable".to_owned(),
        message: "try again later".to_owned(),
        request_id: Some("request-123".to_owned()),
    };
    assert!(error.retryable());

    let create_error: CliError = error.for_workspace_create();
    let envelope = error_envelope(&create_error);
    assert_eq!(envelope.error.code, "service_unavailable");
    assert_eq!(envelope.error.request_id.as_deref(), Some("request-123"));
    assert_eq!(envelope.error.retryable, false);
    assert!(envelope.error.message.contains("list workspaces before retrying"));
    assert_eq!(create_error.exit_code(), 7);

    let rate_limit: CliError = CliError::Api {
        status: 429,
        code: "rate_limited".to_owned(),
        message: "too many requests".to_owned(),
        request_id: None,
    };
    assert!(rate_limit.for_workspace_create().retryable());
}

#[test]
fn workspace_create_transport_failure_is_not_retryable() {
    let error: CliError = CliError::Transport;
    assert!(error.retryable());

    let create_error: CliError = error.for_workspace_create();
    assert_eq!(create_error.code(), "network_error");
    assert!(!create_error.retryable());
    assert_eq!(create_error.exit_code(), 7);
}

#[test]
fn exit_codes_follow_the_error_kind_and_status() {
    let api = |status: u16| CliError::Api {
        status,
        code: "x".to_owned(),
        message: "m".to_owned(),
        request_id: None,
    };
    assert_eq!(CliError::InvalidInput { message: "m".to_owned() }.exit_code(), 2);
    assert_eq!(CliError::MissingCredential.exit_code(), 3);
    assert_eq!(CliError::Authentication { message: "m".to_owned() }.exit_code(), 3);
    assert_eq!(api(400).exit_code(), 2);
    assert_eq!(api(401).exit_code(), 3);
    assert_eq!(api(403).exit_code(), 4);
    assert_eq!(api(404).exit_code(), 5);
    assert_eq!(api(409).exit_code(), 6);
    assert_eq!(api(500).exit_code(), 7);
    assert_eq!(CliError::MissingApiHeader { header: "ETag".to_owned() }.exit_code(), 7);
    assert_eq!(CliError::ApiProtocol { message: "m".to_owned() }.exit_code(), 7);
    assert_eq!(CliError::Io.exit_code(), 8);
    assert_eq!(CliError::Serialization.exit_code(), 8);
    assert_eq!(CliError::CredentialStore.exit_code(), 8);
    assert_eq!(CliError::SecretPersistence.exit_code(), 8);
}

#[test]
fn codes_and_messages_of_every_kind() {
    let cases: Vec<(CliError, &str, &str)> = vec![
        (CliError::MissingCredential, "authentication_required", "run `d6e auth login` first"),
        (CliError::InvalidInput { message: "bad".to_owned() }, "invalid_input", "bad"),
        (CliError::Authentication { message: "no".to_owned() }, "authentication_failed", "no"),
        (CliError::CredentialStore, "credential_store_error", "the OS credential store is unavailable"),
        (CliError::Transport, "network_error", "request failed"),
        (
            CliError::MissingApiHeader { header: "ETag".to_owned() },
            "api_protocol_error",
            "D6E Auth response is missing a required header: ETag",
        ),
        (CliError::ApiProtocol { message: "odd".to_owned() }, "api_protocol_error", "odd"),
        (
            CliError::SecretPersistence,
            "secret_output_error",
            "the Auth Client secret could not be written; the server operation may have completed",
        ),
        (CliError::Io, "io_error", "I/O operation failed"),
        (CliError::Serialization, "serialization_error", "could not encode output"),
    ];
    for (error, code, message) in cases {
        assert_eq!(error.code(), code);
        assert_eq!(error.message(), message);
        assert!(error.request_id().is_none());
        assert!(!error.retryable() || code == "network_error");
    }
    let wrapped = CliError::Transport.for_workspace_create();
    assert_eq!(
        wrapped.message(),
        "workspace creation may have completed; list workspaces before retrying: request failed"
    );
}

#[test]
fn client_errors_are_kept_unwrapped_by_workspace_create() {
    let conflict = CliError::Api {
        status: 409,
        code: "conflict".to_owned(),
        message: "exists".to_owned(),
        request_id: Some("r".to_owned()),
    }
    .for_workspace_create();
    assert!(matches!(conflict, CliError::Api { .. }));
    assert_eq!(conflict.message(), "exists");
    assert_eq!(conflict.request_id(), Some("r"));
}

#[test]
fn api_error_prefers_body_fields_then_headers_and_reasons() {
    let from_body = api_error(
        409,
        Some(ErrorResponse {
            error: Some("conflict".to_owned()),
            message: Some("Organization profile is stale".to_owned()),
            request_id: None,
        }),
        Some("req-org".to_owned()),
    );
    assert_eq!(from_body.code(), "conflict");
    assert_eq!(from_body.message(), "Organization profile is stale");
    assert_eq!(from_body.request_id(), Some("req-org"));
    assert_eq!(from_body.exit_code(), 6);

    let no_body = api_error(503, None, None);
    assert_eq!(no_body.code(), "Service Unavailable");
    assert_eq!(no_body.message(), "D6E Auth returned HTTP 503");
    assert!(no_body.retryable());

    let unknown = api_error(799, None, None);
    assert_eq!(unknown.code(), "http_error");
    assert_eq!(unknown.message(), "D6E Auth returned HTTP 799");

    let body_id = api_error(
        428,
        Some(ErrorResponse {
            error: Some("precondition_required".to_owned()),
            message: None,
            request_id: Some("body-id".to_owned()),
        }),
        Some("header-id".to_owned()),
    );
    assert_eq!(body_id.code(), "precondition_required");
    assert_eq!(body_id.request_id(), Some("body-id"));
    assert_eq!(body_id.message(), "D6E Auth returned HTTP 428");
}

#[test]
fn success_statuses_are_the_two_hundreds() {
    assert!(is_success_status(200));
    assert!(is_success_status(201));
    assert!(is_success_status(299));
    assert!(!is_success_status(199));
    assert!(!is_success_status(300));
    assert!(!is_success_status(409));
}
