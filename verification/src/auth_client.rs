//! Organization-owned Auth Clients: paths, identifiers, names, redirect URIs and request bodies.

use vstd::prelude::*;

use crate::cli::{status_name, AuthClientCommand, AuthClientStatus};
use crate::error::CliError;
use crate::organization::{
    is_plain_segment_char, is_uuid, organization_id_refusal, organization_path,
    uuid_cannot_change_the_path, uuid_at,
};
use crate::text::{chars_of, hex_digit, is_hex_digit, str_eq, trim, trim_seq, utf16_len, utf16_len_at_most};
use crate::urls::{parse_url, url_parse, opt_str_view, UrlParts, UrlPartsView};

verus! {

/// An Auth Client's metadata; it never holds the client secret.
pub struct AuthClientMetadata {
    pub id: String,
    pub organization_id: String,
    pub client_id: String,
    pub name: String,
    pub redirect_uris: Vec<String>,
    pub allowed_email_domains: Option<Vec<String>>,
    pub status: String,
    pub created_at: String,
    pub updated_at: String,
}

/// The answer to listing Auth Clients.
pub struct AuthClientsResponse {
    pub clients: Vec<AuthClientMetadata>,
}

/// The answer to reading, updating or revoking an Auth Client.
pub struct AuthClientResponse {
    pub client: AuthClientMetadata,
}

/// The answer to creating an Auth Client or rotating its secret: the one time the secret is
/// revealed.
pub struct AuthClientSecretResponse {
    pub client: AuthClientMetadata,
    pub client_id: String,
    pub client_secret: String,
}

/// Whether `s` is a generated client ID: `d6e_` followed by 32 hexadecimal digits.
pub open spec fn is_generated_client_id(s: Seq<char>) -> bool {
    &&& s.len() == 36
    &&& s[0] == 'd' && s[1] == '6' && s[2] == 'e' && s[3] == '_'
    &&& forall|k: int| 4 <= k < 36 ==> is_hex_digit(#[trigger] s[k])
}

/// The message that refuses a client ID.
pub open spec fn client_id_refusal() -> Seq<char> {
    "client_id must be a UUID or d6e_ client ID"@
}

/// Accepts an Auth Client identifier: its UUID, or its generated `d6e_` client ID.
pub fn validate_client_id(value: &str) -> (r: Result<(), CliError>)
    ensures
        match r {
            Ok(()) => is_uuid(value@) || is_generated_client_id(value@),
            Err(e) => e matches CliError::InvalidInput { message } && message@
                == client_id_refusal() && !is_uuid(value@) && !is_generated_client_id(value@),
        },
{
    let v = chars_of(value);
    proof {
        assert(v@.skip(0) =~= v@);
    }
    if uuid_at(&v, 0) {
        return Ok(());
    }
    if v.len() == 36 && v[0] == 'd' && v[1] == '6' && v[2] == 'e' && v[3] == '_' {
        let mut k: usize = 4;
        let mut all_hex = true;
        while k < 36
            invariant
                v@.len() == 36,
                4 <= k <= 36,
                all_hex == forall|j: int| 4 <= j < k ==> is_hex_digit(#[trigger] v@[j]),
            decreases 36 - k,
        {
            all_hex = all_hex && hex_digit(v[k]);
            k = k + 1;
        }
        if all_hex {
            return Ok(());
        }
    }
    Err(CliError::InvalidInput { message: String::from_str("client_id must be a UUID or d6e_ client ID") })
}

/// The API path of the Auth Clients of an organization, or of one of them.
pub fn auth_client_path(organization_id: &str, client_id: Option<&str>) -> (r: Result<
    String,
    CliError,
>)
    ensures
        match r {
            Ok(p) => is_uuid(organization_id@) && match client_id {
                None => p@ == "api/v1/organizations/"@ + organization_id@ + "/auth-clients"@,
                Some(c) => (is_uuid(c@) || is_generated_client_id(c@)) && p@
                    == "api/v1/organizations/"@ + organization_id@ + "/auth-clients"@ + "/"@
                    + c@,
            },
            Err(e) => e matches CliError::InvalidInput { message } && if !is_uuid(
                organization_id@,
            ) {
                message@ == organization_id_refusal()
            } else {
                client_id matches Some(c) && !is_uuid(c@) && !is_generated_client_id(c@)
                    && message@ == client_id_refusal()
            },
        },
{
    let mut path = organization_path(organization_id, "/auth-clients")?;
    if let Some(client_id) = client_id {
        validate_client_id(client_id)?;
        path.append("/");
        path.append(client_id);
    }
    Ok(path)
}

/// The message that refuses an Auth Client name.
pub open spec fn client_name_refusal() -> Seq<char> {
    "name must contain 1 to 100 characters"@
}

/// An Auth Client name with surrounding whitespace removed; it must have 1 to 100 UTF-16
/// code units.
pub fn non_empty_name(value: &str) -> (r: Result<String, CliError>)
    ensures
        match r {
            Ok(n) => n@ == trim_seq(value@) && n@.len() > 0 && utf16_len(n@) <= 100,
            Err(e) => e matches CliError::InvalidInput { message } && message@
                == client_name_refusal() && (trim_seq(value@).len() == 0 || utf16_len(
                trim_seq(value@),
            ) > 100),
        },
{
    let trimmed = trim(value);
    let chars = chars_of(trimmed.as_str());
    if trimmed.as_str().is_empty() || !utf16_len_at_most(&chars, 100) {
        return Err(CliError::InvalidInput { message: String::from_str("name must contain 1 to 100 characters") });
    }
    Ok(trimmed)
}

/// Whether a redirect URI's host is a loopback name.
pub open spec fn is_loopback_host(host: Option<Seq<char>>) -> bool {
    host == Some("localhost"@) || host == Some("127.0.0.1"@) || host == Some("[::1]"@)
}

/// Whether a parsed redirect URI may be registered: HTTPS, or HTTP on a loopback host.
pub open spec fn acceptable_redirect(u: UrlPartsView) -> bool {
    u.scheme == "https"@ || (u.scheme == "http"@ && is_loopback_host(u.host))
}

/// Decides `acceptable_redirect` for parsed parts.
pub fn is_acceptable_redirect(u: &UrlParts) -> (r: bool)
    ensures
        r == acceptable_redirect(u@),
{
    let https = str_eq(u.scheme.as_str(), "https");
    let http = str_eq(u.scheme.as_str(), "http");
    let loopback = match &u.host {
        Some(h) => str_eq(h.as_str(), "localhost") || str_eq(h.as_str(), "127.0.0.1") || str_eq(
            h.as_str(),
            "[::1]",
        ),
        None => false,
    };
    https || (http && loopback)
}

/// What one redirect URI becomes: its trimmed text, or the message that refuses it.
pub open spec fn redirect_uri_spec(raw: Seq<char>) -> Result<Seq<char>, Seq<char>> {
    let value = trim_seq(raw);
    match url_parse(value) {
        None => Err("redirect URI must be an absolute HTTP or HTTPS URL"@),
        Some(u) => if acceptable_redirect(u) {
            Ok(value)
        } else {
            Err("redirect URI must use HTTPS or loopback HTTP"@)
        },
    }
}

fn redirect_uri(raw: &String) -> (r: Result<String, CliError>)
    ensures
        match r {
            Ok(v) => redirect_uri_spec(raw@) == Ok::<Seq<char>, Seq<char>>(v@),
            Err(e) => e matches CliError::InvalidInput { message } && redirect_uri_spec(raw@)
                == Err::<Seq<char>, Seq<char>>(message@),
        },
{
    let value = trim(raw.as_str());
    let uri = match parse_url(value.as_str()) {
        Some(u) => u,
        None => {
            return Err(CliError::InvalidInput { message: String::from_str("redirect URI must be an absolute HTTP or HTTPS URL") });
        },
    };
    if !is_acceptable_redirect(&uri) {
        return Err(CliError::InvalidInput { message: String::from_str("redirect URI must use HTTPS or loopback HTTP") });
    }
    Ok(value)
}

/// The views of a sequence of strings.
pub open spec fn strings_view(v: Seq<String>) -> Seq<Seq<char>> {
    Seq::new(v.len(), |i: int| v[i]@)
}

/// What a list of redirect URIs becomes: each URI as `redirect_uri_spec` makes it, or the
/// message for the first URI that is refused.
pub open spec fn redirect_list_spec(uris: Seq<String>) -> Result<Seq<Seq<char>>, Seq<char>>
    decreases uris.len(),
{
    if uris.len() == 0 {
        Ok(Seq::empty())
    } else {
        match redirect_list_spec(uris.drop_last()) {
            Err(m) => Err(m),
            Ok(prefix) => match redirect_uri_spec(uris.last()@) {
                Err(m) => Err(m),
                Ok(v) => Ok(prefix.push(v)),
            },
        }
    }
}

proof fn lemma_redirect_list_error_stays(uris: Seq<String>, k: int)
    requires
        0 <= k <= uris.len(),
        redirect_list_spec(uris.take(k)) is Err,
    ensures
        redirect_list_spec(uris) == redirect_list_spec(uris.take(k)),
    decreases uris.len() - k,
{
    if k < uris.len() {
        assert(uris.drop_last().take(k) =~= uris.take(k));
        lemma_redirect_list_error_stays(uris.drop_last(), k);
    } else {
        assert(uris.take(k) =~= uris);
    }
}

/// The redirect URIs to register, trimmed but otherwise verbatim, since OAuth matches them
/// exactly; the first URI that is not HTTPS or loopback HTTP refuses the whole list.
pub fn redirect_uri_strings(uris: Vec<String>) -> (r: Result<Vec<String>, CliError>)
    ensures
        match r {
            Ok(values) => redirect_list_spec(uris@) == Ok::<Seq<Seq<char>>, Seq<char>>(
                strings_view(values@),
            ),
            Err(e) => e matches CliError::InvalidInput { message } && redirect_list_spec(uris@)
                == Err::<Seq<Seq<char>>, Seq<char>>(message@),
        },
{
    let mut values: Vec<String> = Vec::new();
    let n = uris.len();
    let mut i: usize = 0;
    proof {
        assert(uris@.take(0) =~= Seq::<String>::empty());
        assert(strings_view(values@) =~= Seq::<Seq<char>>::empty());
    }
    while i < n
        invariant
            i <= n == uris@.len(),
            redirect_list_spec(uris@.take(i as int)) == Ok::<Seq<Seq<char>>, Seq<char>>(
                strings_view(values@),
            ),
        decreases n - i,
    {
        proof {
            assert(uris@.take(i + 1).drop_last() =~= uris@.take(i as int));
            assert(uris@.take(i + 1).last() == uris@[i as int]);
        }
        match redirect_uri(&uris[i]) {
            Ok(v) => {
                let ghost before = values@;
                values.push(v);
                proof {
                    assert(strings_view(values@) =~= strings_view(before).push(v@));
                }
            },
            Err(e) => {
                proof {
                    lemma_redirect_list_error_stays(uris@, i + 1);
                }
                return Err(e);
            },
        }
        i = i + 1;
    }
    proof {
        assert(uris@.take(n as int) =~= uris@);
    }
    Ok(values)
}

/// The body of an Auth Client PATCH: `None` leaves a field out.
pub struct AuthClientUpdate {
    pub name: Option<String>,
    pub redirect_uris: Option<Vec<String>>,
    /// `Some(None)` sends `null`, which removes the restriction.
    pub allowed_email_domains: Option<Option<Vec<String>>>,
    pub status: Option<AuthClientStatus>,
}

/// The value of an `AuthClientUpdate`.
pub struct AuthClientUpdateView {
    pub name: Option<Seq<char>>,
    pub redirect_uris: Option<Seq<Seq<char>>>,
    pub allowed_email_domains: Option<Option<Seq<Seq<char>>>>,
    pub status: Option<AuthClientStatus>,
}

impl View for AuthClientUpdate {
    type V = AuthClientUpdateView;

    open spec fn view(&self) -> AuthClientUpdateView {
        AuthClientUpdateView {
            name: opt_str_view(self.name),
            redirect_uris: match self.redirect_uris {
                Some(v) => Some(strings_view(v@)),
                None => None,
            },
            allowed_email_domains: match self.allowed_email_domains {
                Some(Some(v)) => Some(Some(strings_view(v@))),
                Some(None) => Some(None),
                None => None,
            },
            status: self.status,
        }
    }
}

/// The message that refuses an Auth Client update that changes nothing.
pub open spec fn empty_client_update_refusal() -> Seq<char> {
    "specify at least one Auth Client field to update"@
}

/// What an Auth Client name becomes: trimmed, with 1 to 100 UTF-16 code units.
pub open spec fn client_name_spec(name: Seq<char>) -> Result<Seq<char>, Seq<char>> {
    let t = trim_seq(name);
    if t.len() == 0 || utf16_len(t) > 100 {
        Err(client_name_refusal())
    } else {
        Ok(t)
    }
}

/// The PATCH body that `auth-client update` asks for: the name is checked first, then the
/// redirect URIs; clearing a list wins over values given for it; an update that changes
/// nothing is refused.
pub open spec fn update_body_spec(
    name: Option<String>,
    redirect_uris: Seq<String>,
    clear_redirect_uris: bool,
    allowed_email_domains: Seq<String>,
    clear_allowed_email_domains: bool,
    status: Option<AuthClientStatus>,
) -> Result<AuthClientUpdateView, Seq<char>> {
    let name_r: Result<Option<Seq<char>>, Seq<char>> = match name {
        None => Ok(None),
        Some(n) => match client_name_spec(n@) {
            Ok(t) => Ok(Some(t)),
            Err(m) => Err(m),
        },
    };
    let redirect_r: Result<Option<Seq<Seq<char>>>, Seq<char>> = if clear_redirect_uris {
        Ok(Some(Seq::empty()))
    } else if redirect_uris.len() == 0 {
        Ok(None)
    } else {
        match redirect_list_spec(redirect_uris) {
            Ok(v) => Ok(Some(v)),
            Err(m) => Err(m),
        }
    };
    let domains: Option<Option<Seq<Seq<char>>>> = if clear_allowed_email_domains {
        Some(None)
    } else if allowed_email_domains.len() == 0 {
        None
    } else {
        Some(Some(strings_view(allowed_email_domains)))
    };
    match name_r {
        Err(m) => Err(m),
        Ok(name_v) => match redirect_r {
            Err(m) => Err(m),
            Ok(redirect_v) => if name_v is None && redirect_v is None && domains is None
                && status is None {
                Err(empty_client_update_refusal())
            } else {
                Ok(
                    AuthClientUpdateView {
                        name: name_v,
                        redirect_uris: redirect_v,
                        allowed_email_domains: domains,
                        status,
                    },
                )
            },
        },
    }
}

/// The PATCH body for `auth-client update` (see `update_body_spec`).
pub fn update_body(
    name: Option<String>,
    redirect_uris: Vec<String>,
    clear_redirect_uris: bool,
    allowed_email_domains: Vec<String>,
    clear_allowed_email_domains: bool,
    status: Option<AuthClientStatus>,
) -> (r: Result<AuthClientUpdate, CliError>)
    ensures
        match r {
            Ok(u) => update_body_spec(
                name,
                redirect_uris@,
                clear_redirect_uris,
                allowed_email_domains@,
                clear_allowed_email_domains,
                status,
            ) == Ok::<AuthClientUpdateView, Seq<char>>(u@),
            Err(e) => e matches CliError::InvalidInput { message } && update_body_spec(
                name,
                redirect_uris@,
                clear_redirect_uris,
                allowed_email_domains@,
                clear_allowed_email_domains,
                status,
            ) == Err::<AuthClientUpdateView, Seq<char>>(message@),
        },
{
    let name_value = match &name {
        Some(n) => Some(non_empty_name(n.as_str())?),
        None => None,
    };
    let redirect_value = if clear_redirect_uris {
        Some(Vec::new())
    } else if redirect_uris.len() == 0 {
        None
    } else {
        Some(redirect_uri_strings(redirect_uris)?)
    };
    let domains_value = if clear_allowed_email_domains {
        Some(None)
    } else if allowed_email_domains.len() == 0 {
        None
    } else {
        Some(Some(allowed_email_domains))
    };
    if name_value.is_none() && redirect_value.is_none() && domains_value.is_none()
        && status.is_none() {
        return Err(CliError::InvalidInput { message: String::from_str("specify at least one Auth Client field to update") });
    }
    let r = AuthClientUpdate {
        name: name_value,
        redirect_uris: redirect_value,
        allowed_email_domains: domains_value,
        status,
    };
    proof {
        if clear_redirect_uris {
            assert(strings_view(Seq::<String>::empty()) =~= Seq::<Seq<char>>::empty());
        }
    }
    Ok(r)
}

/// The PATCH body that revokes an Auth Client: exactly `{ "status": "inactive" }`.
pub fn revoke_update() -> (r: AuthClientUpdate)
    ensures
        r@ == (AuthClientUpdateView {
            name: None,
            redirect_uris: None,
            allowed_email_domains: None,
            status: Some(AuthClientStatus::Inactive),
        }),
{
    AuthClientUpdate {
        name: None,
        redirect_uris: None,
        allowed_email_domains: None,
        status: Some(AuthClientStatus::Inactive),
    }
}

/// The body of an Auth Client creation.
pub struct CreateAuthClientRequest {
    pub name: String,
    pub redirect_uris: Vec<String>,
    /// Left out of the body when `None`.
    pub allowed_email_domains: Option<Vec<String>>,
    pub status: AuthClientStatus,
}

/// The message of the first check of `auth-client create` that fails: the organization ID,
/// then the redirect URIs, then the name; `None` when all pass.
pub open spec fn create_request_refusal(
    organization_id: Seq<char>,
    name: Seq<char>,
    redirect_uris: Seq<String>,
) -> Option<Seq<char>> {
    if !is_uuid(organization_id) {
        Some(organization_id_refusal())
    } else if redirect_list_spec(redirect_uris) is Err {
        match redirect_list_spec(redirect_uris) {
            Err(m) => Some(m),
            Ok(_) => None,
        }
    } else if client_name_spec(name) is Err {
        Some(client_name_refusal())
    } else {
        None
    }
}

/// The path and body of `auth-client create`; empty allowed email domains are left out.
pub fn create_request(
    organization_id: &str,
    name: &str,
    redirect_uris: Vec<String>,
    allowed_email_domains: Vec<String>,
    status: AuthClientStatus,
) -> (r: Result<(String, CreateAuthClientRequest), CliError>)
    ensures
        match r {
            Ok((path, body)) => {
                &&& create_request_refusal(organization_id@, name@, redirect_uris@) is None
                &&& path@ == "api/v1/organizations/"@ + organization_id@ + "/auth-clients"@
                &&& client_name_spec(name@) == Ok::<Seq<char>, Seq<char>>(body.name@)
                &&& redirect_list_spec(redirect_uris@) == Ok::<Seq<Seq<char>>, Seq<char>>(
                    strings_view(body.redirect_uris@),
                )
                &&& if allowed_email_domains@.len() == 0 {
                    body.allowed_email_domains is None
                } else {
                    body.allowed_email_domains matches Some(d) && d@ == allowed_email_domains@
                }
                &&& body.status == status
            },
            Err(e) => e matches CliError::InvalidInput { message } && create_request_refusal(
                organization_id@,
                name@,
                redirect_uris@,
            ) == Some(message@),
        },
{
    let path = auth_client_path(organization_id, None)?;
    let redirects = redirect_uri_strings(redirect_uris)?;
    let name = non_empty_name(name)?;
    let domains = if allowed_email_domains.len() == 0 {
        None
    } else {
        Some(allowed_email_domains)
    };
    Ok((path, CreateAuthClientRequest { name, redirect_uris: redirects, allowed_email_domains: domains, status }))
}

/// The API path that rotates an Auth Client's secret.
pub fn rotate_secret_path(organization_id: &str, client_id: &str) -> (r: Result<
    String,
    CliError,
>)
    ensures
        match r {
            Ok(p) => is_uuid(organization_id@) && (is_uuid(client_id@) || is_generated_client_id(
                client_id@,
            )) && p@ == "api/v1/organizations/"@ + organization_id@ + "/auth-clients"@ + "/"@
                + client_id@ + "/secret"@,
            Err(e) => e matches CliError::InvalidInput { message } && if !is_uuid(
                organization_id@,
            ) {
                message@ == organization_id_refusal()
            } else {
                !is_uuid(client_id@) && !is_generated_client_id(client_id@) && message@
                    == client_id_refusal()
            },
        },
{
    let mut path = auth_client_path(organization_id, Some(client_id))?;
    path.append("/secret");
    Ok(path)
}

/// The API path of an organization's Auth Clients, or of one of them, or the message that
/// refuses the identifiers (see `auth_client_path`).
pub open spec fn client_path_spec(organization_id: Seq<char>, client_id: Option<Seq<char>>) -> Result<
    Seq<char>,
    Seq<char>,
> {
    if !is_uuid(organization_id) {
        Err(organization_id_refusal())
    } else {
        match client_id {
            None => Ok("api/v1/organizations/"@ + organization_id + "/auth-clients"@),
            Some(c) => if is_uuid(c) || is_generated_client_id(c) {
                Ok("api/v1/organizations/"@ + organization_id + "/auth-clients"@ + "/"@ + c)
            } else {
                Err(client_id_refusal())
            },
        }
    }
}

/// What an `auth-client` command sends, once its input has been checked. Nothing is sent and
/// no secret file is reserved for a command whose input is refused.
pub enum AuthClientPlan {
    /// `GET path`, the list of Auth Clients.
    List { path: String },
    /// `GET path`, one Auth Client.
    Show { path: String },
    /// Reserve `secret_output`, then `POST path` with `body`.
    Create { path: String, body: CreateAuthClientRequest, secret_output: String },
    /// `PATCH path` with `body`.
    Patch { path: String, body: AuthClientUpdate },
    /// Reserve `secret_output`, then `POST path` with `{}`.
    RotateSecret { path: String, secret_output: String },
}

/// The message that refuses the input of an `auth-client` command, checked in the order the
/// command checks it, or `None` if the input is accepted.
pub open spec fn auth_client_refusal(command: AuthClientCommand) -> Option<Seq<char>> {
    match command {
        AuthClientCommand::List { organization_id } => match client_path_spec(
            organization_id@,
            None,
        ) {
            Err(m) => Some(m),
            Ok(_) => None,
        },
        AuthClientCommand::Show { organization_id, client_id } | AuthClientCommand::Revoke {
            organization_id,
            client_id,
        } | AuthClientCommand::RotateSecret { organization_id, client_id, .. } => match client_path_spec(
            organization_id@,
            Some(client_id@),
        ) {
            Err(m) => Some(m),
            Ok(_) => None,
        },
        AuthClientCommand::Create { organization_id, name, redirect_uris, .. } =>
            create_request_refusal(organization_id@, name@, redirect_uris@),
        AuthClientCommand::Update {
            organization_id,
            client_id,
            name,
            redirect_uris,
            clear_redirect_uris,
            allowed_email_domains,
            clear_allowed_email_domains,
            status,
        } => match client_path_spec(organization_id@, Some(client_id@)) {
            Err(m) => Some(m),
            Ok(_) => match update_body_spec(
                name,
                redirect_uris@,
                clear_redirect_uris,
                allowed_email_domains@,
                clear_allowed_email_domains,
                status,
            ) {
                Err(m) => Some(m),
                Ok(_) => None,
            },
        },
    }
}

/// Whether `plan` is exactly what an accepted `command` sends.
pub open spec fn auth_client_plan_of(command: AuthClientCommand, plan: AuthClientPlan) -> bool {
    match command {
        AuthClientCommand::List { organization_id } => plan matches AuthClientPlan::List { path }
            && client_path_spec(organization_id@, None) == Ok::<Seq<char>, Seq<char>>(path@),
        AuthClientCommand::Show { organization_id, client_id } => plan matches AuthClientPlan::Show {
            path,
        } && client_path_spec(organization_id@, Some(client_id@)) == Ok::<Seq<char>, Seq<char>>(
            path@,
        ),
        AuthClientCommand::Create {
            organization_id,
            name,
            redirect_uris,
            allowed_email_domains,
            status,
            secret_output,
        } => plan matches AuthClientPlan::Create { path, body, secret_output: out } && {
            &&& path@ == "api/v1/organizations/"@ + organization_id@ + "/auth-clients"@
            &&& client_name_spec(name@) == Ok::<Seq<char>, Seq<char>>(body.name@)
            &&& redirect_list_spec(redirect_uris@) == Ok::<Seq<Seq<char>>, Seq<char>>(
                strings_view(body.redirect_uris@),
            )
            &&& if allowed_email_domains@.len() == 0 {
                body.allowed_email_domains is None
            } else {
                body.allowed_email_domains matches Some(d) && d@ == allowed_email_domains@
            }
            &&& body.status == status
            &&& out == secret_output
        },
        AuthClientCommand::Update {
            organization_id,
            client_id,
            name,
            redirect_uris,
            clear_redirect_uris,
            allowed_email_domains,
            clear_allowed_email_domains,
            status,
        } => plan matches AuthClientPlan::Patch { path, body } && client_path_spec(
            organization_id@,
            Some(client_id@),
        ) == Ok::<Seq<char>, Seq<char>>(path@) && update_body_spec(
            name,
            redirect_uris@,
            clear_redirect_uris,
            allowed_email_domains@,
            clear_allowed_email_domains,
            status,
        ) == Ok::<AuthClientUpdateView, Seq<char>>(body@),
        AuthClientCommand::Revoke { organization_id, client_id } => plan matches AuthClientPlan::Patch {
            path,
            body,
        } && client_path_spec(organization_id@, Some(client_id@)) == Ok::<Seq<char>, Seq<char>>(
            path@,
        ) && body@ == (AuthClientUpdateView {
            name: None,
            redirect_uris: None,
            allowed_email_domains: None,
            status: Some(AuthClientStatus::Inactive),
        }),
        AuthClientCommand::RotateSecret { organization_id, client_id, secret_output } => plan matches AuthClientPlan::RotateSecret {
            path,
            secret_output: out,
        } && (client_path_spec(organization_id@, Some(client_id@)) matches Ok(p) && path@ == p
            + "/secret"@) && out == secret_output,
    }
}

/// Checks an `auth-client` command and returns what it sends; a command whose input is refused
/// yields the `InvalidInput` error and nothing to send.
pub fn auth_client_plan(command: AuthClientCommand) -> (r: Result<AuthClientPlan, CliError>)
    ensures
        match r {
            Ok(plan) => auth_client_refusal(command) is None && auth_client_plan_of(command, plan),
            Err(e) => e matches CliError::InvalidInput { message } && auth_client_refusal(command)
                == Some(message@),
        },
{
    match command {
        AuthClientCommand::List { organization_id } => {
            let path = auth_client_path(organization_id.as_str(), None)?;
            Ok(AuthClientPlan::List { path })
        },
        AuthClientCommand::Show { organization_id, client_id } => {
            let path = auth_client_path(organization_id.as_str(), Some(client_id.as_str()))?;
            Ok(AuthClientPlan::Show { path })
        },
        AuthClientCommand::Create {
            organization_id,
            name,
            redirect_uris,
            allowed_email_domains,
            status,
            secret_output,
        } => {
            let (path, body) = create_request(
                organization_id.as_str(),
                name.as_str(),
                redirect_uris,
                allowed_email_domains,
                status,
            )?;
            Ok(AuthClientPlan::Create { path, body, secret_output })
        },
        AuthClientCommand::Update {
            organization_id,
            client_id,
            name,
            redirect_uris,
            clear_redirect_uris,
            allowed_email_domains,
            clear_allowed_email_domains,
            status,
        } => {
            let path = auth_client_path(organization_id.as_str(), Some(client_id.as_str()))?;
            let body = update_body(
                name,
                redirect_uris,
                clear_redirect_uris,
                allowed_email_domains,
                clear_allowed_email_domains,
                status,
            )?;
            Ok(AuthClientPlan::Patch { path, body })
        },
        AuthClientCommand::Revoke { organization_id, client_id } => {
            let path = auth_client_path(organization_id.as_str(), Some(client_id.as_str()))?;
            Ok(AuthClientPlan::Patch { path, body: revoke_update() })
        },
        AuthClientCommand::RotateSecret { organization_id, client_id, secret_output } => {
            let path = rotate_secret_path(organization_id.as_str(), client_id.as_str())?;
            Ok(AuthClientPlan::RotateSecret { path, secret_output })
        },
    }
}

/// A client ID that the path builders accept cannot change the path around it.
pub proof fn client_id_cannot_change_the_path(id: Seq<char>)
    requires
        is_uuid(id) || is_generated_client_id(id),
    ensures
        forall|k: int| 0 <= k < id.len() ==> is_plain_segment_char(#[trigger] id[k]),
{
    if is_uuid(id) {
        uuid_cannot_change_the_path(id);
    } else {
        assert forall|k: int| 0 <= k < id.len() implies is_plain_segment_char(#[trigger] id[k]) by {
            if k >= 4 {
                assert(is_hex_digit(id[k]));
            }
        }
    }
}

/// Every redirect URI that a list accepts is the trimmed input, parses as a URL, and is HTTPS
/// or loopback HTTP.
pub proof fn accepted_redirects_are_https_or_loopback(uris: Seq<String>)
    requires
        redirect_list_spec(uris) is Ok,
    ensures
        match redirect_list_spec(uris) {
            Ok(v) => v.len() == uris.len() && forall|i: int|
                0 <= i < v.len() ==> #[trigger] v[i] == trim_seq(uris[i]@) && (url_parse(v[i]) matches Some(
                    u,
                ) && acceptable_redirect(u)),
            Err(_) => false,
        },
    decreases uris.len(),
{
    if uris.len() > 0 {
        accepted_redirects_are_https_or_loopback(uris.drop_last());
        let v = redirect_list_spec(uris)->Ok_0;
        let prefix = redirect_list_spec(uris.drop_last())->Ok_0;
        assert forall|i: int| 0 <= i < v.len() implies #[trigger] v[i] == trim_seq(uris[i]@) && (url_parse(
            v[i],
        ) matches Some(u) && acceptable_redirect(u)) by {
            if i < uris.len() - 1 {
                assert(v[i] == prefix[i]);
                assert(uris.drop_last()[i] == uris[i]);
            }
        }
    }
}

/// An Auth Client update is refused as empty only when it asks for no change: a new name, new
/// or cleared redirect URIs, new or cleared allowed email domains, or a status, each on its own,
/// is accepted when its values pass their checks, and the domains are sent as given (`null`
/// when cleared), the status as chosen.
pub proof fn any_acceptable_client_change_is_sent(
    name: Option<String>,
    redirect_uris: Seq<String>,
    clear_redirect_uris: bool,
    allowed_email_domains: Seq<String>,
    clear_allowed_email_domains: bool,
    status: Option<AuthClientStatus>,
)
    requires
        name matches Some(n) ==> (trim_seq(n@).len() > 0 && utf16_len(trim_seq(n@)) <= 100),
        !clear_redirect_uris && redirect_uris.len() > 0 ==> redirect_list_spec(redirect_uris) is Ok,
        name is Some || clear_redirect_uris || redirect_uris.len() > 0
            || clear_allowed_email_domains || allowed_email_domains.len() > 0 || status is Some,
    ensures
        update_body_spec(
            name,
            redirect_uris,
            clear_redirect_uris,
            allowed_email_domains,
            clear_allowed_email_domains,
            status,
        ) matches Ok(u) && {
            &&& u.status == status
            &&& clear_allowed_email_domains ==> u.allowed_email_domains == Some(
                None::<Seq<Seq<char>>>,
            )
            &&& !clear_allowed_email_domains && allowed_email_domains.len() > 0
                ==> u.allowed_email_domains == Some(Some(strings_view(allowed_email_domains)))
            &&& !clear_allowed_email_domains && allowed_email_domains.len() == 0
                ==> u.allowed_email_domains is None
            &&& clear_redirect_uris ==> u.redirect_uris == Some(Seq::<Seq<char>>::empty())
            &&& name matches Some(n) ==> u.name == Some(trim_seq(n@))
        },
{
}

} // verus!
