//! The CLI's error values, their stable codes, exit statuses and JSON error document.

use vstd::prelude::*;

verus! {

/// An error of a CLI command.
pub enum CliError {
    MissingCredential,
    InvalidInput { message: String },
    Authentication { message: String },
    CredentialStore,
    /// The HTTP request could not be completed.
    Transport,
    WorkspaceCreateOutcomeUnknown(Box<CliError>),
    MissingApiHeader { header: String },
    ApiProtocol { message: String },
    SecretPersistence,
    /// D6E Auth or an instance answered with a non-success HTTP status.
    Api { status: u16, code: String, message: String, request_id: Option<String> },
    Io,
    Serialization,
}

/// Whether an HTTP status is a server error (500–599).
pub open spec fn is_server_error(status: u16) -> bool {
    500 <= status && status <= 599
}

/// The process exit status for `e`.
pub open spec fn exit_code_of(e: CliError) -> u8
    decreases e,
{
    match e {
        CliError::InvalidInput { .. } => 2,
        CliError::MissingCredential | CliError::Authentication { .. } => 3,
        CliError::Api { status, .. } => if status == 400 {
            2
        } else if status == 401 {
            3
        } else if status == 403 {
            4
        } else if status == 404 {
            5
        } else if status == 409 {
            6
        } else {
            7
        },
        CliError::WorkspaceCreateOutcomeUnknown(source) => exit_code_of(*source),
        CliError::Transport | CliError::MissingApiHeader { .. } | CliError::ApiProtocol {
            ..
        } => 7,
        CliError::Io | CliError::Serialization | CliError::CredentialStore
        | CliError::SecretPersistence => 8,
    }
}

/// The stable machine-readable code for `e`.
pub open spec fn code_of(e: CliError) -> Seq<char>
    decreases e,
{
    match e {
        CliError::MissingCredential => "authentication_required"@,
        CliError::InvalidInput { .. } => "invalid_input"@,
        CliError::Authentication { .. } => "authentication_failed"@,
        CliError::CredentialStore => "credential_store_error"@,
        CliError::Transport => "network_error"@,
        CliError::WorkspaceCreateOutcomeUnknown(source) => code_of(*source),
        CliError::MissingApiHeader { .. } => "api_protocol_error"@,
        CliError::ApiProtocol { .. } => "api_protocol_error"@,
        CliError::SecretPersistence => "secret_output_error"@,
        CliError::Api { code, .. } => code@,
        CliError::Io => "io_error"@,
        CliError::Serialization => "serialization_error"@,
    }
}

/// The request ID that D6E Auth attached to `e`, if any.
pub open spec fn request_id_of(e: CliError) -> Option<Seq<char>>
    decreases e,
{
    match e {
        CliError::Api { request_id, .. } => match request_id {
            Some(id) => Some(id@),
            None => None,
        },
        CliError::WorkspaceCreateOutcomeUnknown(source) => request_id_of(*source),
        _ => None,
    }
}

/// Whether repeating the failed operation may succeed.
pub open spec fn retryable_of(e: CliError) -> bool {
    match e {
        CliError::Transport => true,
        CliError::Api { status, .. } => status == 429 || is_server_error(status),
        _ => false,
    }
}

/// Whether the outcome of a workspace creation that failed with `e` is unknown.
pub open spec fn outcome_unknown_after_create(e: CliError) -> bool {
    match e {
        CliError::Transport => true,
        CliError::Api { status, .. } => is_server_error(status),
        _ => false,
    }
}

/// The human-readable message for `e`.
pub open spec fn message_of(e: CliError) -> Seq<char>
    decreases e,
{
    match e {
        CliError::MissingCredential => "run `d6e auth login` first"@,
        CliError::InvalidInput { message } => message@,
        CliError::Authentication { message } => message@,
        CliError::CredentialStore => "the OS credential store is unavailable"@,
        CliError::Transport => "request failed"@,
        CliError::WorkspaceCreateOutcomeUnknown(source) =>
            "workspace creation may have completed; list workspaces before retrying: "@
                + message_of(*source),
        CliError::MissingApiHeader { header } =>
            "D6E Auth response is missing a required header: "@ + header@,
        CliError::ApiProtocol { message } => message@,
        CliError::SecretPersistence =>
            "the Auth Client secret could not be written; the server operation may have completed"@,
        CliError::Api { message, .. } => message@,
        CliError::Io => "I/O operation failed"@,
        CliError::Serialization => "could not encode output"@,
    }
}

impl CliError {
    /// The process exit status for this error.
    pub fn exit_code(&self) -> (r: u8)
        ensures
            r == exit_code_of(*self),
        decreases *self,
    {
        match self {
            CliError::InvalidInput { .. } => 2,
            CliError::MissingCredential | CliError::Authentication { .. } => 3,
            CliError::Api { status, .. } => {
                if *status == 400 {
                    2
                } else if *status == 401 {
                    3
                } else if *status == 403 {
                    4
                } else if *status == 404 {
                    5
                } else if *status == 409 {
                    6
                } else {
                    7
                }
            },
            CliError::WorkspaceCreateOutcomeUnknown(source) => source.exit_code(),
            CliError::Transport | CliError::MissingApiHeader { .. } | CliError::ApiProtocol {
                ..
            } => 7,
            CliError::Io | CliError::Serialization | CliError::CredentialStore
            | CliError::SecretPersistence => 8,
        }
    }

    /// The stable machine-readable code for this error.
    pub fn code(&self) -> (r: &str)
        ensures
            r@ == code_of(*self),
        decreases *self,
    {
        match self {
            CliError::MissingCredential => "authentication_required",
            CliError::InvalidInput { .. } => "invalid_input",
            CliError::Authentication { .. } => "authentication_failed",
            CliError::CredentialStore => "credential_store_error",
            CliError::Transport => "network_error",
            CliError::WorkspaceCreateOutcomeUnknown(source) => source.code(),
            CliError::MissingApiHeader { .. } => "api_protocol_error",
            CliError::ApiProtocol { .. } => "api_protocol_error",
            CliError::SecretPersistence => "secret_output_error",
            CliError::Api { code, .. } => code.as_str(),
            CliError::Io => "io_error",
            CliError::Serialization => "serialization_error",
        }
    }

    /// The request ID that D6E Auth attached to this error, if any.
    pub fn request_id(&self) -> (r: Option<&str>)
        ensures
            match r {
                Some(id) => request_id_of(*self) == Some(id@),
                None => request_id_of(*self) is None,
            },
        decreases *self,
    {
        match self {
            CliError::Api { request_id, .. } => match request_id {
                Some(id) => Some(id.as_str()),
                None => None,
            },
            CliError::WorkspaceCreateOutcomeUnknown(source) => source.request_id(),
            _ => None,
        }
    }

    /// Marks a failed workspace creation whose server-side outcome is unknown:
    /// a transport failure or a server error may have created the workspace.
    pub fn for_workspace_create(self) -> (r: Self)
        ensures
            outcome_unknown_after_create(self) ==> r == CliError::WorkspaceCreateOutcomeUnknown(
                Box::new(self),
            ),
            !outcome_unknown_after_create(self) ==> r == self,
            code_of(r) == code_of(self),
            request_id_of(r) == request_id_of(self),
            exit_code_of(r) == exit_code_of(self),
            retryable_of(r) == (retryable_of(self) && !outcome_unknown_after_create(self)),
    {
        let wrap = match &self {
            CliError::Transport => true,
            CliError::Api { status, .. } => 500 <= *status && *status <= 599,
            _ => false,
        };
        if wrap {
            CliError::WorkspaceCreateOutcomeUnknown(Box::new(self))
        } else {
            self
        }
    }

    /// Whether repeating the failed operation may succeed.
    pub fn retryable(&self) -> (r: bool)
        ensures
            r == retryable_of(*self),
    {
        match self {
            CliError::Transport => true,
            CliError::Api { status, .. } => *status == 429 || (500 <= *status && *status
                <= 599),
            _ => false,
        }
    }

    /// The human-readable message for this error.
    pub fn message(&self) -> (r: String)
        ensures
            r@ == message_of(*self),
        decreases *self,
    {
        match self {
            CliError::MissingCredential => String::from_str("run `d6e auth login` first"),
            CliError::InvalidInput { message } => message.clone(),
            CliError::Authentication { message } => message.clone(),
            CliError::CredentialStore => String::from_str("the OS credential store is unavailable"),
            CliError::Transport => String::from_str("request failed"),
            CliError::WorkspaceCreateOutcomeUnknown(source) => {
                let mut r = String::from_str(
                    "workspace creation may have completed; list workspaces before retrying: ",
                );
                let inner = source.message();
                r.append(inner.as_str());
                r
            },
            CliError::MissingApiHeader { header } => {
                let mut r = String::from_str("D6E Auth response is missing a required header: ");
                r.append(header.as_str());
                r
            },
            CliError::ApiProtocol { message } => message.clone(),
            CliError::SecretPersistence => String::from_str(
                "the Auth Client secret could not be written; the server operation may have completed",
            ),
            CliError::Api { message, .. } => message.clone(),
            CliError::Io => String::from_str("I/O operation failed"),
            CliError::Serialization => String::from_str("could not encode output"),
        }
    }
}

/// The body of the JSON error document printed on stderr.
pub struct ErrorBody {
    pub code: String,
    pub message: String,
    pub request_id: Option<String>,
    pub retryable: bool,
}

/// The JSON error document printed on stderr: `{ "error": ErrorBody }`.
pub struct ErrorEnvelope {
    pub error: ErrorBody,
}

/// The error document that reports `e`.
pub fn error_envelope(e: &CliError) -> (r: ErrorEnvelope)
    ensures
        r.error.code@ == code_of(*e),
        r.error.message@ == message_of(*e),
        match r.error.request_id {
            Some(id) => request_id_of(*e) == Some(id@),
            None => request_id_of(*e) is None,
        },
        r.error.retryable == retryable_of(*e),
{
    let code = e.code().to_owned();
    let message = e.message();
    let request_id = match e.request_id() {
        Some(id) => Some(id.to_owned()),
        None => None,
    };
    ErrorEnvelope { error: ErrorBody { code, message, request_id, retryable: e.retryable() } }
}

/// Every error ends the process with a failure status, 2 to 8, never the success status 0.
pub proof fn exit_codes_report_failure(e: CliError)
    ensures
        2 <= exit_code_of(e) <= 8,
    decreases e,
{
    if let CliError::WorkspaceCreateOutcomeUnknown(source) = e {
        exit_codes_report_failure(*source);
    }
}

/// Which failures may succeed when repeated: a transport failure, and an API answer of
/// `429 Too Many Requests` or of any server error status from 500 to 599. Nothing else is
/// retryable, whatever its status or code.
pub proof fn retryable_means_transport_rate_limit_or_server_error(e: CliError)
    ensures
        retryable_of(e) <==> (e is Transport || (e matches CliError::Api { status, .. } && (
        status == 429 || (500 <= status && status <= 599)))),
{
}

} // verus!
