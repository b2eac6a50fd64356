//! Workspaces on a selected D6E instance: the origin, the token exchange and workspace names.

use vstd::prelude::*;

use crate::cli::{InstanceCommand, InstanceWorkspaceCommand};
use crate::error::CliError;
use crate::json::JsonValue;
use crate::text::{chars_of, str_eq, trim, trim_seq};
use crate::urls::{acceptable_origin, normalize_origin, origin_refusal, url_parse, UrlParts};

verus! {

/// The body that asks D6E Auth for an instance token.
pub struct ExchangeRequest {
    pub instance_url: String,
}

/// D6E Auth's answer to an instance token exchange.
pub struct ExchangeResponse {
    pub access_token: String,
    pub token_type: String,
    pub expires_in: u64,
    pub instance_url: String,
}

/// The body of a workspace creation.
pub struct CreateWorkspaceRequest {
    pub name: String,
}

/// The instance's answer to listing workspaces.
pub struct WorkspacesResponse {
    pub workspaces: Vec<JsonValue>,
}

/// The instance's answer to creating a workspace.
pub struct CreateWorkspaceResponse {
    pub workspace: JsonValue,
    pub billing: BillingProvisioning,
}

/// Whether billing was provisioned for a new workspace.
pub struct BillingProvisioning {
    pub status: BillingStatus,
    pub warning: Option<String>,
}

/// The billing status of a new workspace. An unrecognized status still means that the
/// workspace was created.
pub enum BillingStatus {
    Pending,
    ProvisioningFailed,
    Unknown,
}

/// Whether D6E Auth's exchange answer may be used for the instance `instance_origin`:
/// a bearer token that does not expire at once, for exactly the requested origin.
pub open spec fn valid_exchange(response: ExchangeResponse, instance_origin: Seq<char>) -> bool {
    &&& response.token_type@ == "Bearer"@
    &&& response.expires_in != 0
    &&& trim_seq(response.access_token@).len() > 0
    &&& response.instance_url@ == instance_origin
}

/// The message that refuses an exchange answer.
pub open spec fn exchange_refusal() -> Seq<char> {
    "D6E Auth returned an invalid instance token exchange response"@
}

/// The instance access token from an exchange answer, which must echo `instance_origin` exactly.
pub fn validate_exchange_response(response: ExchangeResponse, instance_origin: &str) -> (r:
    Result<String, CliError>)
    ensures
        match r {
            Ok(token) => valid_exchange(response, instance_origin@) && token
                == response.access_token,
            Err(e) => e matches CliError::ApiProtocol { message } && message@
                == exchange_refusal() && !valid_exchange(response, instance_origin@),
        },
{
    let blank = trim(response.access_token.as_str()).as_str().is_empty();
    if !str_eq(response.token_type.as_str(), "Bearer") || response.expires_in == 0 || blank
        || !str_eq(response.instance_url.as_str(), instance_origin) {
        return Err(CliError::ApiProtocol { message: String::from_str("D6E Auth returned an invalid instance token exchange response") });
    }
    Ok(response.access_token)
}

/// Whether a trimmed workspace name has 2 to 255 characters.
pub open spec fn valid_workspace_name(name: Seq<char>) -> bool {
    2 <= trim_seq(name).len() <= 255
}

/// The message that refuses a workspace name.
pub open spec fn workspace_name_refusal() -> Seq<char> {
    "workspace name must contain 2 to 255 characters"@
}

/// Accepts a workspace name whose trimmed form has 2 to 255 characters.
pub fn validate_workspace_name(name: &str) -> (r: Result<(), CliError>)
    ensures
        match r {
            Ok(()) => valid_workspace_name(name@),
            Err(e) => e matches CliError::InvalidInput { message } && message@
                == workspace_name_refusal() && !valid_workspace_name(name@),
        },
{
    let trimmed = trim(name);
    let count = chars_of(trimmed.as_str()).len();
    if !(2 <= count && count <= 255) {
        return Err(CliError::InvalidInput { message: String::from_str("workspace name must contain 2 to 255 characters") });
    }
    Ok(())
}

/// The body that creates a workspace named `name`, trimmed.
pub fn create_workspace_request(name: &str) -> (r: Result<CreateWorkspaceRequest, CliError>)
    ensures
        match r {
            Ok(body) => valid_workspace_name(name@) && body.name@ == trim_seq(name@),
            Err(e) => e matches CliError::InvalidInput { message } && message@
                == workspace_name_refusal() && !valid_workspace_name(name@),
        },
{
    validate_workspace_name(name)?;
    Ok(CreateWorkspaceRequest { name: trim(name) })
}

/// The instance that a workspace command acts on: its parsed origin, the origin's
/// serialization, which the token exchange names, and what a creation sends.
pub struct InstanceTarget {
    pub instance: UrlParts,
    pub origin: String,
    /// The body of a workspace creation; `None` for a listing.
    pub create: Option<CreateWorkspaceRequest>,
}

/// The message that asks for an instance origin.
pub open spec fn missing_instance_refusal() -> Seq<char> {
    "specify --instance-url or D6E_INSTANCE_URL"@
}

/// Checks a workspace command before any request: an instance origin must be given and be
/// acceptable, and a workspace to create must have a valid name, whose trimmed form is the
/// creation body. A refused command reaches neither the keyring nor the network.
pub fn instance_target(instance_url: Option<&str>, command: &InstanceCommand) -> (r: Result<
    InstanceTarget,
    CliError,
>)
    ensures
        match r {
            Ok(t) => instance_url matches Some(url) && url_parse(url@) == Some(t.instance@)
                && acceptable_origin(t.instance@) && t.origin@ == t.instance@.origin && match command {
                InstanceCommand::Workspace(args) => match args.command {
                    InstanceWorkspaceCommand::Create { name } => valid_workspace_name(name@)
                        && (t.create matches Some(b) && b.name@ == trim_seq(name@)),
                    InstanceWorkspaceCommand::List => t.create is None,
                },
            },
            Err(e) => e matches CliError::InvalidInput { message } && match instance_url {
                None => message@ == missing_instance_refusal(),
                Some(url) => if url_parse(url@) matches Some(u) && acceptable_origin(u) {
                    message@ == workspace_name_refusal()
                } else {
                    message@ == origin_refusal("--instance-url"@)
                },
            },
        },
{
    let url = match instance_url {
        Some(url) => url,
        None => {
            return Err(CliError::InvalidInput { message: String::from_str("specify --instance-url or D6E_INSTANCE_URL") });
        },
    };
    let instance = normalize_origin(url, "--instance-url")?;
    let InstanceCommand::Workspace(args) = command;
    let create = match &args.command {
        InstanceWorkspaceCommand::Create { name } => Some(create_workspace_request(name.as_str())?),
        InstanceWorkspaceCommand::List => None,
    };
    let origin = instance.origin.clone();
    Ok(InstanceTarget { instance, origin, create })
}

} // verus!
