use vstd::prelude::*;
use vstd::string::*;
use crate::config_file::{credentials_lookup, CredentialsFile, PropertyMap};
use crate::credentials::{Credentials, CredentialsError, ErrorKind};

verus! {

/// A value that counts as given: present and not empty.
pub open spec fn given(v: Option<Seq<char>>) -> bool {
    v is Some && v->Some_0.len() > 0
}

/// The text of an optional string.
pub open spec fn string_text(o: Option<String>) -> Option<Seq<char>> {
    match o {
        Some(s) => Some(s@),
        None => None,
    }
}

/// Whether credentials `c` hold the access key `a`, the secret key `s`, the
/// session token `t` where it is given, and no expiration.
pub open spec fn holds_keys(c: Credentials, a: Seq<char>, s: Seq<char>, t: Option<Seq<char>>) -> bool {
    &&& c.access_key@ == a
    &&& c.secret_key@ == s
    &&& (if given(t) {
        c.session_token is Some && c.session_token->Some_0@ == t->Some_0
    } else {
        c.session_token is None
    })
    &&& c.expiration is None
}

fn is_given(v: &Option<String>) -> (r: bool)
    ensures
        r == given(string_text(*v)),
{
    match v {
        Some(s) => s.as_str().unicode_len() > 0,
        None => false,
    }
}

fn not_found(what: &str) -> (r: CredentialsError)
    ensures
        r.kind == ErrorKind::NotFound,
{
    CredentialsError::new(ErrorKind::NotFound, String::from_str(what))
}

/// Builds long-term credentials from the values of the environment
/// variables for the access key, the secret key and the session token.
/// Fails with `NotFound` where the access key or the secret key is absent
/// or empty; an absent or empty session token is left out.
pub fn credentials_from_environment(
    access_key: Option<String>,
    secret_key: Option<String>,
    session_token: Option<String>,
) -> (r: Result<Credentials, CredentialsError>)
    ensures
        match r {
            Ok(c) => given(string_text(access_key)) && given(string_text(secret_key)) && holds_keys(
                c,
                string_text(access_key)->Some_0,
                string_text(secret_key)->Some_0,
                string_text(session_token),
            ),
            Err(e) => e.kind == ErrorKind::NotFound && !(given(string_text(access_key)) && given(
                string_text(secret_key),
            )),
        },
{
    if !is_given(&access_key) {
        return Err(not_found("the access key variable is not set"));
    }
    if !is_given(&secret_key) {
        return Err(not_found("the secret key variable is not set"));
    }
    let token_given = is_given(&session_token);
    let token = if token_given {
        session_token
    } else {
        None
    };
    match (access_key, secret_key) {
        (Some(a), Some(s)) => Ok(Credentials::new(a, s, token, None)),
        _ => Err(not_found("the access key variable is not set")),
    }
}

/// The value of `key` in a profile of a credentials file, as text.
pub open spec fn profile_value(p: PropertyMap, key: Seq<char>) -> Option<Seq<char>> {
    if p.contains_key(key) {
        Some(p[key])
    } else {
        None
    }
}

/// Whether profile `name` of the credentials file with sections `m` holds
/// both an access key id and a secret access key.
pub open spec fn has_static_keys(m: Map<Seq<char>, PropertyMap>, name: Seq<char>) -> bool {
    match credentials_lookup(m, name) {
        Some(p) => given(profile_value(p, "aws_access_key_id"@)) && given(
            profile_value(p, "aws_secret_access_key"@),
        ),
        None => false,
    }
}

impl CredentialsFile {
    /// The long-term credentials of profile `profile_name`: its access key
    /// id, secret access key and, where present, session token. Fails with
    /// `NotFound` where the profile, or either key, is absent or empty.
    pub fn credentials(&self, profile_name: &str) -> (r: Result<Credentials, CredentialsError>)
        ensures
            match r {
                Ok(c) => has_static_keys(self@, profile_name@) && ({
                    let p = credentials_lookup(self@, profile_name@)->Some_0;
                    holds_keys(
                        c,
                        p["aws_access_key_id"@],
                        p["aws_secret_access_key"@],
                        profile_value(p, "aws_session_token"@),
                    )
                }),
                Err(e) => e.kind == ErrorKind::NotFound && !has_static_keys(self@, profile_name@),
            },
    {
        proof {
            reveal_strlit("aws_access_key_id");
            reveal_strlit("aws_secret_access_key");
            reveal_strlit("aws_session_token");
        }
        let profile = match self.profile(profile_name) {
            Some(p) => p,
            None => return Err(not_found("no such profile in the credentials file")),
        };
        let access = match profile.aws_access_key_id() {
            Some(a) => Some(String::from_str(a)),
            None => None,
        };
        let secret = match profile.aws_secret_access_key() {
            Some(s) => Some(String::from_str(s)),
            None => None,
        };
        let token = match profile.aws_session_token() {
            Some(t) => Some(String::from_str(t)),
            None => None,
        };
        credentials_from_environment(access, secret, token)
    }
}

/// Where a file of the shared configuration lies: the override, where it is
/// given, else `.aws/<file_name>` under the home directory.
pub open spec fn file_location(
    override_path: Option<Seq<char>>,
    home: Option<Seq<char>>,
    file_name: Seq<char>,
) -> Option<Seq<char>> {
    if given(override_path) {
        override_path
    } else if given(home) {
        Some(home->Some_0 + "/.aws/"@ + file_name)
    } else {
        None
    }
}

/// The location of a shared configuration file, from a snapshot of the
/// environment: the override variable's value where it is set and not
/// empty, else `<home>/.aws/<file_name>`. Fails with `NotFound` where
/// neither is known.
pub fn default_location(
    override_path: Option<String>,
    home: Option<String>,
    file_name: &str,
) -> (r: Result<String, CredentialsError>)
    ensures
        match r {
            Ok(p) => file_location(string_text(override_path), string_text(home), file_name@)
                == Some(p@),
            Err(e) => e.kind == ErrorKind::NotFound && file_location(
                string_text(override_path),
                string_text(home),
                file_name@,
            ) is None,
        },
{
    if is_given(&override_path) {
        match override_path {
            Some(p) => return Ok(p),
            None => return Err(not_found("no location for the file")),
        }
    }
    if is_given(&home) {
        match home {
            Some(h) => {
                proof {
                    reveal_strlit("/.aws/");
                }
                let p = h.concat("/.aws/").concat(file_name);
                return Ok(p);
            },
            None => return Err(not_found("no location for the file")),
        }
    }
    Err(not_found("the home directory is unknown"))
}

} // verus!
