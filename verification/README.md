# d6e-cli

`d6e` is the D6E self-service command line: sign in with PKCE, manage your personal profile,
your organizations, their profiles and Auth Clients, and workspaces on a D6E instance.

## Layout

- `src/` is the library `d6e_cli`, written in Verus. It holds the rules the CLI applies:
  origin and path validation, the PKCE attempt and sign-in URL, the loopback callback parser
  and what each callback request is answered, token requests and what a refresh leads to,
  what each `personal` and `auth-client` command sends once its input is checked, request
  bodies, when a reserved secret file is kept, error codes, exit statuses and the JSON
  documents that are printed. Each public function states its result in `ensures`, and the
  laws that tie functions together are proof functions.
- `app/` is the `d6e` binary around it: clap, reqwest, tokio, the OS keyring, the browser,
  files and the terminal. It hands the library plain values and acts on what comes back.
- `tests/` runs the library on concrete inputs.

Calls into `url`, `base64`, `sha2`, `getrandom`, `zeroize` and `reqwest::StatusCode` stay in
the library behind small trusted wrappers; each wrapper's doc comment says what its contract
assumes of the outside crate.
