use vstd::prelude::*;

verus! {

/// The error taxonomy of the sync agent.
///
/// `Network` and `Other` are the retriable classes; `AuthenticationRequired`
/// and `InvalidConfiguration` are fatal to a sync pass. The remaining
/// variants carry messages from the storage and transport layers.
#[derive(Debug, Clone)]
pub enum SyncError {
    Io(String),
    Serialization(String),
    Network(String),
    Jwt(String),
    SyncClient(String),
    AuthenticationRequired,
    InvalidConfiguration(String),
    Keyring(String),
    Other(String),
}

impl SyncError {
    /// Human-readable message, mirroring the status text shown to users.
    pub fn message(&self) -> (r: String)
        ensures
            r@ == self.spec_message(),
    {
        match self {
            SyncError::Io(m) => prefixed("IO error: ", m),
            SyncError::Serialization(m) => prefixed("Serialization error: ", m),
            SyncError::Network(m) => prefixed("Network error: ", m),
            SyncError::Jwt(m) => prefixed("JWT error: ", m),
            SyncError::SyncClient(m) => prefixed("Sync client error: ", m),
            SyncError::AuthenticationRequired => "Authentication required".to_owned(),
            SyncError::InvalidConfiguration(m) => prefixed("Invalid configuration: ", m),
            SyncError::Keyring(m) => prefixed("Keyring error: ", m),
            SyncError::Other(m) => m.clone(),
        }
    }

    /// The message as a mathematical sequence of characters.
    pub open spec fn spec_message(&self) -> Seq<char> {
        match self {
            SyncError::Io(m) => "IO error: "@ + m@,
            SyncError::Serialization(m) => "Serialization error: "@ + m@,
            SyncError::Network(m) => "Network error: "@ + m@,
            SyncError::Jwt(m) => "JWT error: "@ + m@,
            SyncError::SyncClient(m) => "Sync client error: "@ + m@,
            SyncError::AuthenticationRequired => "Authentication required"@,
            SyncError::InvalidConfiguration(m) => "Invalid configuration: "@ + m@,
            SyncError::Keyring(m) => "Keyring error: "@ + m@,
            SyncError::Other(m) => m@,
        }
    }

    /// Whether the sync loop may retry after this error.
    pub fn is_retriable(&self) -> (r: bool)
        ensures
            r == self.spec_is_retriable(),
    {
        match self {
            SyncError::Network(_) => true,
            SyncError::Other(_) => true,
            _ => false,
        }
    }

    /// Retriable means transient: transport failures and uncategorized errors.
    pub open spec fn spec_is_retriable(&self) -> bool {
        self is Network || self is Other
    }
}

fn prefixed(prefix: &str, m: &String) -> (r: String)
    ensures
        r@ == prefix@ + m@,
{
    let mut r = prefix.to_owned();
    r.append(m.as_str());
    r
}

} // verus!
