//! Where a one-time Auth Client secret goes, and what each destination receives.

use vstd::prelude::*;

use crate::auth_client::{AuthClientMetadata, AuthClientSecretResponse};
use crate::text::str_eq;

verus! {

/// Where `--secret-output` sends a one-time secret.
pub enum SecretDestination {
    /// `-`: the secret goes to stdout, as the caller asked explicitly.
    Stdout,
    /// A new file at this path.
    File(String),
}

/// The destination that `--secret-output value` names: `-` is stdout, anything else a new file.
pub fn secret_destination(value: &str) -> (r: SecretDestination)
    ensures
        value@ == "-"@ ==> r is Stdout,
        value@ != "-"@ ==> (r matches SecretDestination::File(p) && p@ == value@),
{
    if str_eq(value, "-") {
        SecretDestination::Stdout
    } else {
        SecretDestination::File(value.to_owned())
    }
}

/// The stdout document for an explicit `--secret-output -`: metadata and the secret.
pub struct SecretData {
    pub client: AuthClientMetadata,
    pub client_id: String,
    pub client_secret: String,
}

/// The contents of a secret file: the client ID and the secret, nothing else.
pub struct SecretFileData {
    pub client_id: String,
    pub client_secret: String,
}

/// The stdout document when the secret went to a file: metadata and the path, no secret.
pub struct FileResult {
    pub client: AuthClientMetadata,
    pub secret_output: String,
}

/// The document that writes a secret response to stdout.
pub fn stdout_secret_data(response: AuthClientSecretResponse) -> (r: SecretData)
    ensures
        r.client == response.client,
        r.client_id == response.client_id,
        r.client_secret == response.client_secret,
{
    SecretData {
        client: response.client,
        client_id: response.client_id,
        client_secret: response.client_secret,
    }
}

/// The two documents of a file destination: the file gets the client ID and secret; stdout
/// gets the metadata and the path, which hold no secret.
pub fn file_secret_documents(response: AuthClientSecretResponse, path: String) -> (r: (
    SecretFileData,
    FileResult,
))
    ensures
        r.0.client_id == response.client_id,
        r.0.client_secret == response.client_secret,
        r.1.client == response.client,
        r.1.secret_output == path,
{
    (
        SecretFileData { client_id: response.client_id, client_secret: response.client_secret },
        FileResult { client: response.client, secret_output: path },
    )
}

/// A reserved secret file: its path, and whether it is kept whatever happens next.
pub struct SecretReservation {
    pub path: String,
    pub retain: bool,
}

/// The reservation of a new file at `path`; nothing has been handed to it yet.
pub fn reserve(path: String) -> (r: SecretReservation)
    ensures
        r.path == path,
        !r.retain,
{
    SecretReservation { path, retain: false }
}

impl SecretReservation {
    /// Hands a secret response to the reserved file: from now on the file is kept, even if
    /// writing it fails, since it may hold the only copy of the secret. Returns what the file
    /// and stdout receive.
    pub fn accept_secret(&mut self, response: AuthClientSecretResponse) -> (r: (
        SecretFileData,
        FileResult,
    ))
        ensures
            final(self).retain,
            final(self).path == old(self).path,
            r.0.client_id == response.client_id,
            r.0.client_secret == response.client_secret,
            r.1.client == response.client,
            r.1.secret_output@ == old(self).path@,
    {
        self.retain = true;
        file_secret_documents(response, self.path.clone())
    }
}

/// The identity of a file on its filesystem.
pub struct FileIdentity {
    pub device: u64,
    pub inode: u64,
}

/// Whether both identities are known and name the same file.
pub open spec fn same_file(a: Option<FileIdentity>, b: Option<FileIdentity>) -> bool {
    a matches Some(x) && b matches Some(y) && x.device == y.device && x.inode == y.inode
}

/// Whether an unused reserved secret file is removed: only if no secret was ever handed to it,
/// and only if the path still names the very file that was opened.
pub fn should_remove_reservation(
    retain: bool,
    opened: Option<FileIdentity>,
    current: Option<FileIdentity>,
) -> (r: bool)
    ensures
        r == (!retain && same_file(opened, current)),
{
    if retain {
        return false;
    }
    match (opened, current) {
        (Some(o), Some(c)) => o.device == c.device && o.inode == c.inode,
        _ => false,
    }
}

} // verus!
