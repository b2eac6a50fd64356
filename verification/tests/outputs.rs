use d6e_cli::auth_client::{AuthClientMetadata, AuthClientSecretResponse};
use d6e_cli::output::success_envelope;
use d6e_cli::secret_output::{
    file_secret_documents, reserve, secret_destination, should_remove_reservation, stdout_secret_data,
    FileIdentity, SecretDestination,
};
use d6e_cli::token_store::keyring_entry;
use d6e_cli::urls::normalize_auth_url;

fn fake_response() -> AuthClientSecretResponse {
    AuthClientSecretResponse {
        client: AuthClientMetadata {
            id: "5c7a1ad6-fd92-4c48-b37d-7e62d504c96f".to_owned(),
            organization_id: "f58b3dc3-323a-4546-b3ca-567f43b7a032".to_owned(),
            client_id: "d6e_0123456789abcdef0123456789abcdef".to_owned(),
            name: "Example".to_owned(),
            redirect_uris: Vec::new(),
            allowed_email_domains: None,
            status: "active".to_owned(),
            created_at: "2026-09-24T00:00:00.000Z".to_owned(),
            updated_at: "2026-09-24T00:00:00.000Z".to_owned(),
        },
        client_id: "d6e_0123456789abcdef0123456789abcdef".to_owned(),
        client_secret: "fake-one-time-secret".to_owned(),
    }
}

#[test]
fn explicit_dash_means_stdout_and_anything_else_a_file() {
    assert!(matches!(secret_destination("-"), SecretDestination::Stdout));
    match secret_destination("./app-secret.json") {
        SecretDestination::File(path) => assert_eq!(path, "./app-secret.json"),
        SecretDestination::Stdout => panic!("a path is a file"),
    }
    assert!(matches!(secret_destination("--"), SecretDestination::File(_)));
}

#[test]
fn file_sink_documents_keep_the_secret_out_of_stdout() {
    let (file, result) = file_secret_documents(fake_response(), "secret.json".to_owned());
    assert_eq!(file.client_id, "d6e_0123456789abcdef0123456789abcdef");
    assert_eq!(file.client_secret, "fake-one-time-secret");
    assert_eq!(result.secret_output, "secret.json");
    assert_eq!(result.client.name, "Example");

    let stdout = stdout_secret_data(fake_response());
    assert_eq!(stdout.client_secret, "fake-one-time-secret");
    assert_eq!(stdout.client.client_id, stdout.client_id);
}

#[test]
fn reservations_are_removed_only_when_unused_and_unchanged() {
    let id = |device: u64, inode: u64| Some(FileIdentity { device, inode });
    assert!(should_remove_reservation(false, id(1, 2), id(1, 2)));
    assert!(!should_remove_reservation(true, id(1, 2), id(1, 2)));
    assert!(!should_remove_reservation(false, id(1, 2), id(1, 3)));
    assert!(!should_remove_reservation(false, id(1, 2), None));
    assert!(!should_remove_reservation(false, None, id(1, 2)));
}

#[test]
fn success_envelope_and_keyring_entry() {
    let envelope = success_envelope(7u8, Some("req".to_owned()));
    assert_eq!(envelope.data, 7);
    assert_eq!(envelope.meta.request_id.as_deref(), Some("req"));
    assert_eq!(envelope.meta.api_version, "v1");

    let auth = normalize_auth_url("https://www.d6e.ai").ok().expect("origin");
    let (service, account) = keyring_entry(&auth);
    assert_eq!(service, "d6e-cli-refresh-token");
    assert_eq!(account, "https://www.d6e.ai");
}

#[test]
fn explicit_stdout_document_contains_secret() {
    let response: AuthClientSecretResponse = fake_response();
    let document = success_envelope(stdout_secret_data(response), None);
    assert_eq!(document.data.client_secret, "fake-one-time-secret");
    assert_eq!(document.data.client_id, "d6e_0123456789abcdef0123456789abcdef");
    assert!(document.meta.request_id.is_none());
}

#[test]
fn a_reservation_is_kept_once_it_has_received_a_secret() {
    let mut reservation = reserve("secret.json".to_owned());
    assert!(!reservation.retain);
    let (file, result) = reservation.accept_secret(fake_response());
    assert!(reservation.retain);
    assert_eq!(reservation.path, "secret.json");
    assert_eq!(file.client_secret, "fake-one-time-secret");
    assert_eq!(result.secret_output, "secret.json");
    let id = Some(FileIdentity { device: 1, inode: 2 });
    let id2 = Some(FileIdentity { device: 1, inode: 2 });
    assert!(!should_remove_reservation(reservation.retain, id, id2));
}
