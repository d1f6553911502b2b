use vstd::prelude::*;

verus! {

/// The kind of failure met while resolving credentials.
#[derive(Clone, Copy, Debug, PartialEq, Eq, Structural)]
pub enum ErrorKind {
    /// A configuration or credentials file could not be parsed.
    Parse,
    /// A profile, section or field is absent.
    NotFound,
    /// A `credential_process` command failed or printed unusable output.
    Process,
    /// A remote credential endpoint could not be reached.
    Network,
    /// A `source_profile` of an assume-role profile could not be resolved.
    RoleChain,
    /// An assume-role chain is longer than the allowed depth.
    CredentialChainTooLong,
    /// The assume-role exchange itself failed.
    AssumeRole,
    /// Every provider of a chain failed.
    AggregateChain,
}

/// An error together with a message meant for operators.
#[derive(Clone, Debug)]
pub struct CredentialsError {
    pub kind: ErrorKind,
    pub message: String,
}

impl CredentialsError {
    /// Builds an error of the given kind.
    pub fn new(kind: ErrorKind, message: String) -> (r: CredentialsError)
        ensures
            r.kind == kind,
            r.message@ == message@,
    {
        CredentialsError { kind, message }
    }

    /// The message, as text.
    pub fn message(&self) -> (r: &str)
        ensures
            r@ == self.message@,
    {
        self.message.as_str()
    }
}

/// A set of access credentials; `expiration` is a time in seconds since the
/// Unix epoch, and `None` marks long-term credentials that never expire.
#[derive(Clone, Debug)]
pub struct Credentials {
    pub access_key: String,
    pub secret_key: String,
    pub session_token: Option<String>,
    pub expiration: Option<u64>,
}

impl Credentials {
    /// Builds credentials from their four parts.
    pub fn new(
        access_key: String,
        secret_key: String,
        session_token: Option<String>,
        expiration: Option<u64>,
    ) -> (r: Credentials)
        ensures
            r.access_key@ == access_key@,
            r.secret_key@ == secret_key@,
            r.session_token == session_token,
            r.expiration == expiration,
    {
        Credentials { access_key, secret_key, session_token, expiration }
    }

    /// An equal copy of these credentials.
    pub fn duplicate(&self) -> (r: Credentials)
        ensures
            r == *self,
    {
        let session_token = match &self.session_token {
            Some(t) => Some(t.clone()),
            None => None,
        };
        Credentials {
            access_key: self.access_key.clone(),
            secret_key: self.secret_key.clone(),
            session_token,
            expiration: self.expiration,
        }
    }
}

} // verus!
