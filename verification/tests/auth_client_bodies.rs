use d6e_cli::auth_client::{
    auth_client_plan, AuthClientPlan,
    create_request, non_empty_name, redirect_uri_strings, revoke_update, update_body,
};
use d6e_cli::cli::{AuthClientCommand, AuthClientStatus, PersonalCommand};
use d6e_cli::personal::{personal_plan, PersonalPlan};
use d6e_cli::error::CliError;

const ORG_ID: &str = "f58b3dc3-323a-4546-b3ca-567f43b7a032";

#[test]
fn update_body_uses_only_selected_fields_and_revoke_is_exact() {
    let body = update_body(
        Some(" Renamed ".to_owned()),
        Vec::new(),
        true,
        Vec::new(),
        true,
        None,
    )
    .ok()
    .expect("update body");
    assert_eq!(body.name.as_deref(), Some("Renamed"));
    assert_eq!(body.redirect_uris, Some(Vec::<String>::new()));
    assert!(matches!(body.allowed_email_domains, Some(None)));
    assert!(body.status.is_none());
    assert!(update_body(None, Vec::new(), false, Vec::new(), false, None).is_err());

    let revoke = revoke_update();
    assert!(revoke.name.is_none());
    assert!(revoke.redirect_uris.is_none());
    assert!(revoke.allowed_email_domains.is_none());
    assert!(revoke.status == Some(AuthClientStatus::Inactive));
    assert_eq!(AuthClientStatus::Inactive.as_str(), "inactive");
}

#[test]
fn redirect_uri_rejects_non_loopback_plain_http() {
    let remote: String = "http://example.com/callback".to_owned();
    assert!(redirect_uri_strings(vec![remote]).is_err());
    let loopback: String = "http://127.0.0.1:9876/callback".to_owned();
    assert_eq!(
        redirect_uri_strings(vec![loopback]).ok().expect("loopback URI"),
        ["http://127.0.0.1:9876/callback"]
    );
}

#[test]
fn redirect_uri_preserves_exact_trimmed_input() {
    let values: Vec<String> = redirect_uri_strings(vec![
        " https://example.com:443 ".to_owned(),
        "https://example.com/a/../callback".to_owned(),
    ])
    .ok()
    .expect("valid redirect URIs");
    assert_eq!(
        values,
        [
            "https://example.com:443",
            "https://example.com/a/../callback"
        ]
    );
}

#[test]
fn redirect_uri_errors_name_the_rule_that_failed() {
    match redirect_uri_strings(vec!["not a url".to_owned()]) {
        Err(CliError::InvalidInput { message }) => {
            assert_eq!(message, "redirect URI must be an absolute HTTP or HTTPS URL")
        }
        _ => panic!("relative text must be refused"),
    }
    match redirect_uri_strings(vec![
        "https://ok.example/cb".to_owned(),
        "ftp://example.com/cb".to_owned(),
    ]) {
        Err(CliError::InvalidInput { message }) => {
            assert_eq!(message, "redirect URI must use HTTPS or loopback HTTP")
        }
        _ => panic!("ftp must be refused"),
    }
    for host in ["localhost", "[::1]"] {
        let uri = format!("http://{host}:9000/cb");
        assert_eq!(redirect_uri_strings(vec![uri.clone()]).ok().expect("loopback"), [uri]);
    }
}

#[test]
fn update_body_keeps_domains_verbatim_and_status() {
    let body = update_body(
        None,
        vec![" https://app.example/cb ".to_owned()],
        false,
        vec!["example.com".to_owned()],
        false,
        Some(AuthClientStatus::Active),
    )
    .ok()
    .expect("update body");
    assert!(body.name.is_none());
    assert_eq!(body.redirect_uris, Some(vec!["https://app.example/cb".to_owned()]));
    assert_eq!(body.allowed_email_domains, Some(Some(vec!["example.com".to_owned()])));
    assert!(body.status == Some(AuthClientStatus::Active));
}

#[test]
fn update_body_clear_wins_over_given_redirects_and_empty_update_message() {
    let body = update_body(
        None,
        vec!["http://example.com/not-checked".to_owned()],
        true,
        Vec::new(),
        false,
        None,
    )
    .ok()
    .expect("clearing ignores the given URIs");
    assert_eq!(body.redirect_uris, Some(Vec::<String>::new()));
    match update_body(None, Vec::new(), false, Vec::new(), false, None) {
        Err(CliError::InvalidInput { message }) => {
            assert_eq!(message, "specify at least one Auth Client field to update")
        }
        _ => panic!("empty update must be refused"),
    }
}

#[test]
fn client_names_are_trimmed_and_bounded() {
    assert_eq!(non_empty_name("  App  ").ok().expect("name"), "App");
    assert!(non_empty_name("   ").is_err());
    assert!(non_empty_name(&"a".repeat(100)).is_ok());
    assert!(non_empty_name(&"a".repeat(101)).is_err());
    // U+1F600 takes two UTF-16 code units.
    assert!(non_empty_name(&"\u{1F600}".repeat(50)).is_ok());
    assert!(non_empty_name(&"\u{1F600}".repeat(51)).is_err());
}

#[test]
fn create_request_checks_path_then_redirects_then_name() {
    let (path, body) = create_request(
        ORG_ID,
        " New App ",
        vec!["https://example.com/callback".to_owned()],
        vec!["example.com".to_owned()],
        AuthClientStatus::Active,
    )
    .ok()
    .expect("create request");
    assert_eq!(path, format!("api/v1/organizations/{ORG_ID}/auth-clients"));
    assert_eq!(body.name, "New App");
    assert_eq!(body.redirect_uris, ["https://example.com/callback"]);
    assert_eq!(body.allowed_email_domains, Some(vec!["example.com".to_owned()]));
    assert!(body.status == AuthClientStatus::Active);

    let (_, no_domains) = create_request(ORG_ID, "App", Vec::new(), Vec::new(), AuthClientStatus::Inactive)
        .ok()
        .expect("create request");
    assert!(no_domains.allowed_email_domains.is_none());

    match create_request(ORG_ID, "", vec!["http://remote.example/".to_owned()], Vec::new(), AuthClientStatus::Active) {
        Err(CliError::InvalidInput { message }) => {
            assert_eq!(message, "redirect URI must use HTTPS or loopback HTTP")
        }
        _ => panic!("redirects are checked before the name"),
    }
    match create_request(ORG_ID, " ", Vec::new(), Vec::new(), AuthClientStatus::Active) {
        Err(CliError::InvalidInput { message }) => {
            assert_eq!(message, "name must contain 1 to 100 characters")
        }
        _ => panic!("blank name must be refused"),
    }
}

const PLAN_ORG: &str = "f58b3dc3-323a-4546-b3ca-567f43b7a032";
const PLAN_CLIENT: &str = "d6e_0123456789abcdef0123456789abcdef";

fn refused(command: AuthClientCommand) -> String {
    match auth_client_plan(command) {
        Err(CliError::InvalidInput { message }) => message,
        _ => panic!("the command must be refused before anything is sent"),
    }
}

#[test]
fn auth_client_commands_are_checked_before_anything_is_sent() {
    let base = format!("api/v1/organizations/{PLAN_ORG}/auth-clients");
    match auth_client_plan(AuthClientCommand::List { organization_id: PLAN_ORG.to_owned() }) {
        Ok(AuthClientPlan::List { path }) => assert_eq!(path, base),
        _ => panic!("list"),
    }
    match auth_client_plan(AuthClientCommand::Show {
        organization_id: PLAN_ORG.to_owned(),
        client_id: PLAN_CLIENT.to_owned(),
    }) {
        Ok(AuthClientPlan::Show { path }) => assert_eq!(path, format!("{base}/{PLAN_CLIENT}")),
        _ => panic!("show"),
    }
    match auth_client_plan(AuthClientCommand::Create {
        organization_id: PLAN_ORG.to_owned(),
        name: " New App ".to_owned(),
        redirect_uris: vec!["https://example.com/callback".to_owned()],
        allowed_email_domains: vec!["example.com".to_owned()],
        status: AuthClientStatus::Active,
        secret_output: "created.json".to_owned(),
    }) {
        Ok(AuthClientPlan::Create { path, body, secret_output }) => {
            assert_eq!(path, base);
            assert_eq!(body.name, "New App");
            assert_eq!(body.redirect_uris, ["https://example.com/callback"]);
            assert_eq!(body.allowed_email_domains, Some(vec!["example.com".to_owned()]));
            assert!(body.status == AuthClientStatus::Active);
            assert_eq!(secret_output, "created.json");
        }
        _ => panic!("create"),
    }
    match auth_client_plan(AuthClientCommand::Revoke {
        organization_id: PLAN_ORG.to_owned(),
        client_id: PLAN_CLIENT.to_owned(),
    }) {
        Ok(AuthClientPlan::Patch { path, body }) => {
            assert_eq!(path, format!("{base}/{PLAN_CLIENT}"));
            assert!(body.status == Some(AuthClientStatus::Inactive));
            assert!(body.name.is_none() && body.redirect_uris.is_none());
        }
        _ => panic!("revoke"),
    }
    match auth_client_plan(AuthClientCommand::RotateSecret {
        organization_id: PLAN_ORG.to_owned(),
        client_id: PLAN_CLIENT.to_owned(),
        secret_output: "-".to_owned(),
    }) {
        Ok(AuthClientPlan::RotateSecret { path, secret_output }) => {
            assert_eq!(path, format!("{base}/{PLAN_CLIENT}/secret"));
            assert_eq!(secret_output, "-");
        }
        _ => panic!("rotate"),
    }

    assert_eq!(
        refused(AuthClientCommand::List { organization_id: "../me".to_owned() }),
        "organization_id must be a UUID"
    );
    assert_eq!(
        refused(AuthClientCommand::RotateSecret {
            organization_id: PLAN_ORG.to_owned(),
            client_id: "d6e_bad?x=1".to_owned(),
            secret_output: "secret.json".to_owned(),
        }),
        "client_id must be a UUID or d6e_ client ID"
    );
    assert_eq!(
        refused(AuthClientCommand::Create {
            organization_id: PLAN_ORG.to_owned(),
            name: "App".to_owned(),
            redirect_uris: vec!["http://example.com/cb".to_owned()],
            allowed_email_domains: Vec::new(),
            status: AuthClientStatus::Active,
            secret_output: "secret.json".to_owned(),
        }),
        "redirect URI must use HTTPS or loopback HTTP"
    );
    assert_eq!(
        refused(AuthClientCommand::Update {
            organization_id: PLAN_ORG.to_owned(),
            client_id: PLAN_CLIENT.to_owned(),
            name: None,
            redirect_uris: Vec::new(),
            clear_redirect_uris: false,
            allowed_email_domains: Vec::new(),
            clear_allowed_email_domains: false,
            status: None,
        }),
        "specify at least one Auth Client field to update"
    );
}

#[test]
fn personal_update_sends_only_a_valid_trimmed_name() {
    assert!(matches!(personal_plan(PersonalCommand::Show), Ok(PersonalPlan::Show)));
    match personal_plan(PersonalCommand::Update { name: " New name ".to_owned() }) {
        Ok(PersonalPlan::UpdateName(body)) => assert_eq!(body.name, "New name"),
        _ => panic!("a valid name is sent trimmed"),
    }
    match personal_plan(PersonalCommand::Update { name: "   ".to_owned() }) {
        Err(CliError::InvalidInput { message }) => {
            assert_eq!(message, "name must be between 1 and 100 characters")
        }
        _ => panic!("a blank name is refused"),
    }
}
