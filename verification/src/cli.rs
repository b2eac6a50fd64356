//! The commands of the CLI, as the argument parser hands them over.

use vstd::prelude::*;

verus! {

/// The whole command line.
pub struct Cli {
    /// Base URL of D6E Auth, as given.
    pub auth_url: String,
    pub command: Command,
}

/// The top-level command.
pub enum Command {
    /// Sign in and manage the local CLI session.
    Auth(AuthArgs),
    /// Show or update your own personal profile.
    Personal(PersonalArgs),
    /// Manage organizations that you belong to.
    Organization(OrganizationArgs),
    /// Act on one D6E instance.
    Instance(InstanceArgs),
}

pub struct AuthArgs {
    pub command: AuthCommand,
}

pub enum AuthCommand {
    /// Sign in using a browser and PKCE S256.
    Login { no_open: bool },
    /// Check the current CLI session with D6E Auth.
    Status,
    /// Remove this machine's CLI session.
    Logout,
}

pub struct PersonalArgs {
    pub command: PersonalCommand,
}

pub enum PersonalCommand {
    /// Show your own name and email address.
    Show,
    /// Update your own display name.
    Update { name: String },
}

pub struct OrganizationArgs {
    pub command: OrganizationCommand,
}

pub enum OrganizationCommand {
    List,
    Show { organization_id: String },
    Create { name: String },
    Update { organization_id: String, name: String },
    Profile(OrganizationProfileArgs),
    AuthClient(AuthClientArgs),
}

pub struct OrganizationProfileArgs {
    pub command: OrganizationProfileCommand,
}

pub enum OrganizationProfileCommand {
    Show { organization_id: String },
    Update { organization_id: String, fields: Box<ProfileUpdateFields> },
}

/// The options of `organization profile update`: a value, or a `clear` flag, per field.
pub struct ProfileUpdateFields {
    pub legal_name: Option<String>,
    pub clear_legal_name: bool,
    pub country: Option<String>,
    pub clear_country: bool,
    pub billing_email: Option<String>,
    pub clear_billing_email: bool,
    pub phone: Option<String>,
    pub clear_phone: bool,
    pub address_line1: Option<String>,
    pub clear_address_line1: bool,
    pub address_line2: Option<String>,
    pub clear_address_line2: bool,
    pub address_city: Option<String>,
    pub clear_address_city: bool,
    pub address_state: Option<String>,
    pub clear_address_state: bool,
    pub address_postal_code: Option<String>,
    pub clear_address_postal_code: bool,
    pub clear_address: bool,
}

pub struct AuthClientArgs {
    pub command: AuthClientCommand,
}

/// The status an Auth Client is created or updated with.
#[derive(PartialEq, Eq, Structural, Clone, Copy)]
pub enum AuthClientStatus {
    Active,
    Inactive,
}

impl AuthClientStatus {
    /// The status as the API spells it.
    pub fn as_str(&self) -> (r: &'static str)
        ensures
            r@ == status_name(*self),
    {
        match self {
            AuthClientStatus::Active => "active",
            AuthClientStatus::Inactive => "inactive",
        }
    }
}

/// The API spelling of an Auth Client status.
pub open spec fn status_name(s: AuthClientStatus) -> Seq<char> {
    match s {
        AuthClientStatus::Active => "active"@,
        AuthClientStatus::Inactive => "inactive"@,
    }
}

#[allow(inconsistent_fields)]
pub enum AuthClientCommand {
    List { organization_id: String },
    Show { organization_id: String, client_id: String },
    Create {
        organization_id: String,
        name: String,
        redirect_uris: Vec<String>,
        allowed_email_domains: Vec<String>,
        status: AuthClientStatus,
        secret_output: String,
    },
    Update {
        organization_id: String,
        client_id: String,
        name: Option<String>,
        redirect_uris: Vec<String>,
        clear_redirect_uris: bool,
        allowed_email_domains: Vec<String>,
        clear_allowed_email_domains: bool,
        status: Option<AuthClientStatus>,
    },
    Revoke { organization_id: String, client_id: String },
    RotateSecret { organization_id: String, client_id: String, secret_output: String },
}

pub struct InstanceArgs {
    /// The instance origin from `--instance-url` or `D6E_INSTANCE_URL`.
    pub instance_url: Option<String>,
    pub command: InstanceCommand,
}

pub enum InstanceCommand {
    Workspace(InstanceWorkspaceArgs),
}

pub struct InstanceWorkspaceArgs {
    pub command: InstanceWorkspaceCommand,
}

pub enum InstanceWorkspaceCommand {
    List,
    Create { name: String },
}

} // verus!
