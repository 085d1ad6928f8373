//! How the server listens.

use vstd::prelude::*;

use crate::rate_limit::ClientAddr;

verus! {

/// Whether the address never leaves the machine: `127.0.0.0/8` or `::1`.
pub open spec fn loopback(addr: ClientAddr) -> bool {
    match addr {
        ClientAddr::V4(bits) => bits as int / 0x100_0000 == 127,
        ClientAddr::V6(bits) => bits == 1,
    }
}

/// Whether the address never leaves the machine: `127.0.0.0/8` or `::1`.
pub fn is_loopback(addr: ClientAddr) -> (r: bool)
    ensures
        r == loopback(addr),
{
    match addr {
        ClientAddr::V4(bits) => bits / 0x100_0000 == 127,
        ClientAddr::V6(bits) => bits == 1,
    }
}

/// How the server listens.
#[derive(Clone, Debug)]
pub enum ListenMode {
    /// With the certificate and the key in these files.
    Tls { cert_path: String, key_path: String },
    Plaintext,
}

/// How the server listens on `addr`, where these files are configured, or why it does not.
pub open spec fn mode_for(
    addr: ClientAddr,
    tls_cert: Option<String>,
    tls_key: Option<String>,
) -> Result<ListenMode, Seq<char>> {
    match (tls_cert, tls_key) {
        (Some(cert_path), Some(key_path)) => Ok(ListenMode::Tls { cert_path, key_path }),
        (None, None) => if loopback(addr) {
            Ok(ListenMode::Plaintext)
        } else {
            Err("TLS_CERT and TLS_KEY are required when binding plaintext outside loopback"@)
        },
        _ => Err("both TLS_CERT and TLS_KEY must be set, or neither"@),
    }
}

/// How the server listens on `addr`, where these files are configured.
pub fn listen_mode(addr: ClientAddr, tls_cert: Option<String>, tls_key: Option<String>) -> (r:
    Result<ListenMode, String>)
    ensures
        match mode_for(addr, tls_cert, tls_key) {
            Ok(mode) => r matches Ok(found) && found == mode,
            Err(reason) => r matches Err(message) && message@ == reason,
        },
{
    match (tls_cert, tls_key) {
        (Some(cert_path), Some(key_path)) => Ok(ListenMode::Tls { cert_path, key_path }),
        (None, None) => if is_loopback(addr) {
            Ok(ListenMode::Plaintext)
        } else {
            Err(
                "TLS_CERT and TLS_KEY are required when binding plaintext outside loopback".to_string(),
            )
        },
        _ => Err("both TLS_CERT and TLS_KEY must be set, or neither".to_string()),
    }
}

/// The server listens in plaintext only on an address that never leaves the machine; on any
/// other it listens only with a certificate and a key.
pub proof fn law_plaintext_stays_on_the_machine(
    addr: ClientAddr,
    tls_cert: Option<String>,
    tls_key: Option<String>,
)
    ensures
        mode_for(addr, tls_cert, tls_key) == Ok::<ListenMode, Seq<char>>(ListenMode::Plaintext)
            ==> loopback(addr),
        !loopback(addr) && mode_for(addr, tls_cert, tls_key) is Ok ==> tls_cert is Some
            && tls_key is Some,
{
}

} // verus!
