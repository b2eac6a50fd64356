use d6e_cli::urls::is_acceptable_origin;
use d6e_cli::auth_client::is_acceptable_redirect;
use d6e_cli::cli::{
    InstanceCommand, InstanceWorkspaceArgs, InstanceWorkspaceCommand, ProfileUpdateFields,
};
use d6e_cli::error::CliError;
use d6e_cli::instance::{
    create_workspace_request, instance_target, validate_exchange_response,
    validate_workspace_name, ExchangeResponse,
};
use d6e_cli::organization::{
    nullable_text, profile_if_match, profile_patch, trimmed_name, AddressPatch, ProfilePatch,
    TextUpdate,
};
use d6e_cli::personal::update_name_request;
use d6e_cli::urls::{normalize_auth_url, normalize_origin, parse_url};

const ORG_ID: &str = "5c7a1ad6-fd92-4c48-b37d-7e62d504c96f";

fn no_fields() -> ProfileUpdateFields {
    ProfileUpdateFields {
        legal_name: None,
        clear_legal_name: false,
        country: None,
        clear_country: false,
        billing_email: None,
        clear_billing_email: false,
        phone: None,
        clear_phone: false,
        address_line1: None,
        clear_address_line1: false,
        address_line2: None,
        clear_address_line2: false,
        address_city: None,
        clear_address_city: false,
        address_state: None,
        clear_address_state: false,
        address_postal_code: None,
        clear_address_postal_code: false,
        clear_address: false,
    }
}

fn assigned(update: &Option<TextUpdate>) -> Option<&str> {
    match update {
        Some(TextUpdate::Assign(value)) => Some(value.as_str()),
        _ => None,
    }
}

fn cleared(update: &Option<TextUpdate>) -> bool {
    matches!(update, Some(TextUpdate::Clear))
}

#[test]
fn profile_patch_preserves_omitted_fields_and_clears_explicit_fields() {
    let _ = ORG_ID;
    let fields = ProfileUpdateFields {
        legal_name: Some(" Example Ltd. ".to_owned()),
        clear_billing_email: true,
        address_line1: Some(" 123 Main St ".to_owned()),
        clear_address_line2: true,
        ..no_fields()
    };
    let patch: ProfilePatch = profile_patch(fields).ok().expect("valid patch");
    assert_eq!(assigned(&patch.legal_name), Some("Example Ltd."));
    assert!(cleared(&patch.billing_email));
    assert!(patch.country.is_none());
    assert!(patch.phone.is_none());
    match &patch.address {
        Some(AddressPatch::Update(address)) => {
            assert_eq!(assigned(&address.line1), Some("123 Main St"));
            assert!(cleared(&address.line2));
            assert!(address.city.is_none() && address.state.is_none() && address.postal_code.is_none());
        }
        _ => panic!("address update expected"),
    }

    let clear_fields = ProfileUpdateFields { clear_address: true, ..no_fields() };
    let clear = profile_patch(clear_fields).ok().expect("clear address patch");
    assert!(matches!(clear.address, Some(AddressPatch::Clear)));
    assert!(clear.legal_name.is_none() && clear.country.is_none());
    assert!(clear.billing_email.is_none() && clear.phone.is_none());
}

#[test]
fn profile_patch_checks_country_lengths_and_emptiness() {
    let sg = profile_patch(ProfileUpdateFields { country: Some(" SG ".to_owned()), ..no_fields() })
        .ok()
        .expect("country");
    assert_eq!(assigned(&sg.country), Some("SG"));
    match profile_patch(ProfileUpdateFields { country: Some("sg".to_owned()), ..no_fields() }) {
        Err(CliError::InvalidInput { message }) => {
            assert_eq!(message, "country must be an uppercase ISO 3166-1 alpha-2 code")
        }
        _ => panic!("lower-case country refused"),
    }
    match profile_patch(ProfileUpdateFields { country: Some("SGP".to_owned()), ..no_fields() }) {
        Err(CliError::InvalidInput { message }) => {
            assert_eq!(message, "country must contain 1 to 2 characters")
        }
        _ => panic!("long country refused"),
    }
    match profile_patch(ProfileUpdateFields { phone: Some("1".repeat(51)), ..no_fields() }) {
        Err(CliError::InvalidInput { message }) => {
            assert_eq!(message, "phone must contain 1 to 50 characters")
        }
        _ => panic!("long phone refused"),
    }
    match profile_patch(ProfileUpdateFields { address_postal_code: Some("  ".to_owned()), ..no_fields() }) {
        Err(CliError::InvalidInput { message }) => {
            assert_eq!(message, "postalCode must contain 1 to 200 characters")
        }
        _ => panic!("blank postal code refused"),
    }
    match profile_patch(no_fields()) {
        Err(CliError::InvalidInput { message }) => {
            assert_eq!(message, "specify at least one profile field to update")
        }
        _ => panic!("empty patch refused"),
    }
    let clear_wins = profile_patch(ProfileUpdateFields {
        phone: Some("x".repeat(80)),
        clear_phone: true,
        clear_address: true,
        address_city: Some(" ".to_owned()),
        ..no_fields()
    })
    .ok()
    .expect("clearing skips the checks of the cleared values");
    assert!(cleared(&clear_wins.phone));
    assert!(matches!(clear_wins.address, Some(AddressPatch::Clear)));
}

#[test]
fn nullable_text_counts_utf16_units() {
    let three = nullable_text("k", Some("\u{1F600}a".to_owned()), false, 3).ok().expect("fits");
    assert_eq!(assigned(&three), Some("\u{1F600}a"));
    assert!(nullable_text("k", Some("\u{1F600}\u{1F600}".to_owned()), false, 3).is_err());
    assert!(nullable_text("k", None, false, 3).ok().expect("kept").is_none());
}

#[test]
fn profile_update_needs_an_etag() {
    assert_eq!(profile_if_match(Some("\"organization-profile-0\"".to_owned())).ok().as_deref(), Some("\"organization-profile-0\""));
    let error = profile_if_match(None).err().expect("missing ETag");
    assert_eq!(error.code(), "api_protocol_error");
    assert_eq!(error.message(), "D6E Auth response is missing a required header: ETag");
}

#[test]
fn organization_and_personal_names() {
    assert_eq!(trimmed_name("  Example  ").ok().expect("name"), "Example");
    match trimmed_name(" \u{3000} ") {
        Err(CliError::InvalidInput { message }) => assert_eq!(message, "name cannot be empty"),
        _ => panic!("blank name refused"),
    }
    assert_eq!(update_name_request(" New name ").ok().expect("body").name, "New name");
    match update_name_request(&"n".repeat(101)) {
        Err(CliError::InvalidInput { message }) => {
            assert_eq!(message, "name must be between 1 and 100 characters")
        }
        _ => panic!("long name refused"),
    }
}

#[test]
fn exchange_requires_the_requested_instance_origin() {
    let requested = parse_url("https://instance.example/").expect("requested URL");
    let requested_origin: String = requested.origin;
    assert_eq!(requested_origin, "https://instance.example");
    let response: ExchangeResponse = ExchangeResponse {
        access_token: "instance-token".to_owned(),
        token_type: "Bearer".to_owned(),
        expires_in: 300,
        instance_url: "https://instance.example/".to_owned(),
    };
    assert!(validate_exchange_response(response, &requested_origin).is_err());

    let matching: ExchangeResponse = ExchangeResponse {
        access_token: "instance-token".to_owned(),
        token_type: "Bearer".to_owned(),
        expires_in: 300,
        instance_url: requested_origin.clone(),
    };
    assert!(validate_exchange_response(matching, &requested_origin).is_ok());
}

#[test]
fn instance_url_requires_secure_or_loopback_origin() {
    assert!(normalize_origin("http://instance.example/", "--instance-url").is_err());
    assert!(normalize_origin("https://instance.example/path", "--instance-url").is_err());
    assert!(normalize_origin("http://127.0.0.2:8080", "--instance-url").is_err());
    assert_eq!(
        normalize_origin("http://127.0.0.1:8080", "--instance-url")
            .ok()
            .expect("loopback HTTP")
            .serialization,
        "http://127.0.0.1:8080/"
    );
}

#[test]
fn origins_refuse_credentials_queries_and_fragments() {
    for url in [
        "https://user@example.com/",
        "https://user:pw@example.com/",
        "https://example.com/?q=1",
        "https://example.com/#f",
        "ftp://example.com/",
        "mailto:someone@example.com",
    ] {
        match normalize_auth_url(url) {
            Err(CliError::InvalidInput { message }) => assert_eq!(
                message,
                "--auth-url must be an HTTPS origin or a loopback HTTP origin"
            ),
            _ => panic!("{url} must be refused"),
        }
    }
    let v6 = normalize_auth_url("http://[::1]:3000").ok().expect("IPv6 loopback");
    assert_eq!(v6.serialization, "http://[::1]:3000/");
    assert_eq!(v6.origin, "http://[::1]:3000");
    let default_port = normalize_auth_url("https://www.d6e.ai:443").ok().expect("HTTPS");
    assert_eq!(default_port.serialization, "https://www.d6e.ai/");
    assert_eq!(default_port.path, "/");
}

#[test]
fn workspace_names_and_instance_targets() {
    assert!(validate_workspace_name(" ab ").is_ok());
    assert!(validate_workspace_name(" a ").is_err());
    assert!(validate_workspace_name(&"w".repeat(255)).is_ok());
    assert!(validate_workspace_name(&"w".repeat(256)).is_err());
    assert_eq!(create_workspace_request("  My workspace ").ok().expect("body").name, "My workspace");

    let create = InstanceCommand::Workspace(InstanceWorkspaceArgs {
        command: InstanceWorkspaceCommand::Create { name: "x".to_owned() },
    });
    match instance_target(None, &create) {
        Err(CliError::InvalidInput { message }) => {
            assert_eq!(message, "specify --instance-url or D6E_INSTANCE_URL")
        }
        _ => panic!("an instance is required"),
    }
    match instance_target(Some("https://instance.example"), &create) {
        Err(CliError::InvalidInput { message }) => {
            assert_eq!(message, "workspace name must contain 2 to 255 characters")
        }
        _ => panic!("the name is checked before any request"),
    }
    match instance_target(Some("http://instance.example"), &create) {
        Err(CliError::InvalidInput { message }) => assert_eq!(
            message,
            "--instance-url must be an HTTPS origin or a loopback HTTP origin"
        ),
        _ => panic!("plain HTTP refused"),
    }
    let list = InstanceCommand::Workspace(InstanceWorkspaceArgs { command: InstanceWorkspaceCommand::List });
    let target = instance_target(Some("https://instance.example:8443/"), &list).ok().expect("target");
    assert_eq!(target.origin, "https://instance.example:8443");
    assert!(target.create.is_none());
    let named = InstanceCommand::Workspace(InstanceWorkspaceArgs {
        command: InstanceWorkspaceCommand::Create { name: "  My workspace ".to_owned() },
    });
    let target = instance_target(Some("http://127.0.0.1:8080"), &named).ok().expect("target");
    assert_eq!(target.create.expect("creation body").name, "My workspace");
}

#[test]
fn parsed_origins_and_redirects_are_judged_by_their_parts() {
    let accept = |text: &str| is_acceptable_origin(&parse_url(text).expect("URL"));
    assert!(accept("https://instance.example"));
    assert!(accept("http://127.0.0.1:8080/"));
    assert!(accept("http://[::1]:8080"));
    assert!(!accept("http://localhost:8080"));
    assert!(!accept("https://user@instance.example"));
    assert!(!accept("https://instance.example/?q"));
    assert!(!accept("https://instance.example/path"));

    let redirect = |text: &str| is_acceptable_redirect(&parse_url(text).expect("URL"));
    assert!(redirect("https://example.com/callback"));
    assert!(redirect("http://localhost:3000/cb"));
    assert!(redirect("http://[::1]:3000/cb"));
    assert!(!redirect("http://example.com/callback"));
    assert!(!redirect("ftp://example.com/"));
}

#[test]
fn non_special_urls_may_have_an_empty_path() {
    let url = parse_url("foo://host").expect("URL");
    assert!(!url.cannot_be_a_base);
    assert_eq!(url.path, "");
    let web = parse_url("https://host").expect("URL");
    assert_eq!(web.path, "/");
}
