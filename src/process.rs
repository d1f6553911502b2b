use vstd::prelude::*;
use vstd::string::*;
use crate::credentials::{Credentials, CredentialsError, ErrorKind};
use crate::timestamp::{lemma_sample_expiration, parse_timestamp, timestamp_seconds};

verus! {

#[verifier::external_type_specification]
#[verifier::external_body]
pub struct ExJsonValue(serde_json::Value);

/// What the logic reads of one JSON value: a string, a number that fits in
/// `u64`, or anything else.
pub enum JsonField {
    Text(Seq<char>),
    Unsigned(u64),
    Other,
}

/// The members of a JSON object.
pub type JsonMembers = Map<Seq<char>, JsonField>;

/// What `serde_json::from_str` makes of a text: `None` where the text is not
/// JSON; else `Some` of the members of the object it holds, or `Some(None)`
/// where it holds no object.
pub uninterp spec fn json_document(text: Seq<char>) -> Option<Option<JsonMembers>>;

/// The members of a `serde_json::Value`, where it is an object.
pub uninterp spec fn json_members(v: serde_json::Value) -> Option<JsonMembers>;

/// What the logic reads of a `serde_json::Value`.
pub uninterp spec fn json_field(v: serde_json::Value) -> JsonField;

/// Relies on `serde_json::from_str`: parses JSON text into a value.
#[verifier::external_body]
fn parse_json(text: &str) -> (r: Option<serde_json::Value>)
    ensures
        match r {
            Some(v) => json_document(text@) == Some(json_members(v)),
            None => json_document(text@) is None,
        },
{
    match serde_json::from_str::<serde_json::Value>(text) {
        Ok(v) => Some(v),
        Err(_) => None,
    }
}

/// Relies on `serde_json::Value::get` with a string key: the member of an
/// object under that key; `None` for a missing key or a value that is no
/// object.
#[verifier::external_body]
fn json_get<'a>(v: &'a serde_json::Value, key: &str) -> (r: Option<&'a serde_json::Value>)
    ensures
        match json_members(*v) {
            Some(m) => match r {
                Some(f) => m.contains_key(key@) && json_field(*f) == m[key@],
                None => !m.contains_key(key@),
            },
            None => r is None,
        },
{
    v.get(key)
}

/// Relies on `serde_json::Value::is_object`: whether the value is an object.
#[verifier::external_body]
fn json_is_object(v: &serde_json::Value) -> (r: bool)
    ensures
        r == json_members(*v) is Some,
{
    v.is_object()
}

/// Relies on `serde_json::Value::as_str`: the text of a string value.
#[verifier::external_body]
fn json_as_str(v: &serde_json::Value) -> (r: Option<&str>)
    ensures
        match json_field(*v) {
            JsonField::Text(t) => r is Some && r->Some_0@ == t,
            _ => r is None,
        },
{
    v.as_str()
}

/// Relies on `serde_json::Value::as_u64`: the value of a number that fits in
/// `u64`.
#[verifier::external_body]
fn json_as_u64(v: &serde_json::Value) -> (r: Option<u64>)
    ensures
        match json_field(*v) {
            JsonField::Unsigned(n) => r == Some(n),
            _ => r is None,
        },
{
    v.as_u64()
}

/// Why the output of a `credential_process` command was refused.
pub enum ProcessFailure {
    /// The command exited with a failure status.
    Exit,
    /// The output is not a JSON object.
    Unparseable,
    /// `Version` is absent or not 1.
    UnsupportedVersion,
    /// A required member is absent or not a string.
    MissingField,
    /// `Expiration` is not an RFC 3339 time from 1970 on.
    BadExpiration,
}

/// The credentials read from the members of a `credential_process` output:
/// access key, secret key, session token and expiration.
pub type ProcessCredentials = (Seq<char>, Seq<char>, Option<Seq<char>>, Option<u64>);

/// The text of a member that must be a string; `None` where it is absent or
/// no string.
pub open spec fn member_text(m: JsonMembers, key: Seq<char>) -> Option<Seq<char>> {
    if m.contains_key(key) {
        match m[key] {
            JsonField::Text(t) => Some(t),
            _ => None,
        }
    } else {
        None
    }
}

/// The outcome of reading the members of a `credential_process` output.
pub open spec fn members_outcome(m: JsonMembers) -> Result<ProcessCredentials, ProcessFailure> {
    if !(m.contains_key("Version"@) && m["Version"@] == JsonField::Unsigned(1)) {
        Err(ProcessFailure::UnsupportedVersion)
    } else {
        fields_outcome(m)
    }
}

/// The outcome of reading the four credential members `AccessKeyId`,
/// `SecretAccessKey`, `SessionToken` and `Expiration`, the last two optional.
pub open spec fn fields_outcome(m: JsonMembers) -> Result<ProcessCredentials, ProcessFailure> {
    if member_text(m, "AccessKeyId"@) is None || member_text(m, "SecretAccessKey"@) is None
        || (m.contains_key("SessionToken"@) && member_text(m, "SessionToken"@) is None) || (
    m.contains_key("Expiration"@) && member_text(m, "Expiration"@) is None) {
        Err(ProcessFailure::MissingField)
    } else if m.contains_key("Expiration"@) && timestamp_seconds(
        member_text(m, "Expiration"@)->Some_0,
    ) is None {
        Err(ProcessFailure::BadExpiration)
    } else {
        Ok(
            (
                member_text(m, "AccessKeyId"@)->Some_0,
                member_text(m, "SecretAccessKey"@)->Some_0,
                member_text(m, "SessionToken"@),
                if m.contains_key("Expiration"@) {
                    timestamp_seconds(member_text(m, "Expiration"@)->Some_0)
                } else {
                    None
                },
            ),
        )
    }
}

/// The outcome of a `credential_process` command that exited with success
/// or not, and printed `stdout`.
pub open spec fn process_outcome(success: bool, stdout: Seq<char>) -> Result<
    ProcessCredentials,
    ProcessFailure,
> {
    if !success {
        Err(ProcessFailure::Exit)
    } else {
        match json_document(stdout) {
            Some(Some(m)) => members_outcome(m),
            _ => Err(ProcessFailure::Unparseable),
        }
    }
}

/// The message reported for each failure; a failed exit carries the
/// command's standard error.
pub open spec fn failure_message(f: ProcessFailure, stderr: Seq<char>) -> Seq<char> {
    match f {
        ProcessFailure::Exit => "credential_process exited with an error: "@ + stderr,
        ProcessFailure::Unparseable => "credential_process output is not a JSON object"@,
        ProcessFailure::UnsupportedVersion => "credential_process output has an unsupported Version; expected 1"@,
        ProcessFailure::MissingField => "credential_process output lacks AccessKeyId or SecretAccessKey, or has a member that is not a string"@,
        ProcessFailure::BadExpiration => "credential_process output has an Expiration that is not an RFC 3339 time"@,
    }
}

/// The credentials, or the message of the error, that a command's outcome
/// gives.
pub open spec fn credentials_match(
    r: Result<Credentials, CredentialsError>,
    o: Result<ProcessCredentials, ProcessFailure>,
    stderr: Seq<char>,
) -> bool {
    match (r, o) {
        (Ok(c), Ok(p)) => {
            &&& c.access_key@ == p.0
            &&& c.secret_key@ == p.1
            &&& match (c.session_token, p.2) {
                (Some(t), Some(u)) => t@ == u,
                (None, None) => true,
                _ => false,
            }
            &&& c.expiration == p.3
        },
        (Err(e), Err(f)) => e.kind == ErrorKind::Process && e.message@ == failure_message(
            f,
            stderr,
        ),
        _ => false,
    }
}

/// Whether `r` holds the credentials, or the failure, of `o`.
pub open spec fn fields_match(
    r: Result<Credentials, ProcessFailure>,
    o: Result<ProcessCredentials, ProcessFailure>,
) -> bool {
    match (r, o) {
        (Ok(c), Ok(p)) => {
            &&& c.access_key@ == p.0
            &&& c.secret_key@ == p.1
            &&& match (c.session_token, p.2) {
                (Some(t), Some(u)) => t@ == u,
                (None, None) => true,
                _ => false,
            }
            &&& c.expiration == p.3
        },
        (Err(f), Err(g)) => f == g,
        _ => false,
    }
}

fn failure(f: ProcessFailure, stderr: &str) -> (r: CredentialsError)
    ensures
        r.kind == ErrorKind::Process,
        r.message@ == failure_message(f, stderr@),
{
    let message = match f {
        ProcessFailure::Exit => {
            proof {
                reveal_strlit("credential_process exited with an error: ");
            }
            String::from_str("credential_process exited with an error: ").concat(stderr)
        },
        ProcessFailure::Unparseable => {
            proof {
                reveal_strlit("credential_process output is not a JSON object");
            }
            String::from_str("credential_process output is not a JSON object")
        },
        ProcessFailure::UnsupportedVersion => {
            proof {
                reveal_strlit("credential_process output has an unsupported Version; expected 1");
            }
            String::from_str("credential_process output has an unsupported Version; expected 1")
        },
        ProcessFailure::MissingField => {
            proof {
                reveal_strlit(
                    "credential_process output lacks AccessKeyId or SecretAccessKey, or has a member that is not a string",
                );
            }
            String::from_str(
                "credential_process output lacks AccessKeyId or SecretAccessKey, or has a member that is not a string",
            )
        },
        ProcessFailure::BadExpiration => {
            proof {
                reveal_strlit(
                    "credential_process output has an Expiration that is not an RFC 3339 time",
                );
            }
            String::from_str(
                "credential_process output has an Expiration that is not an RFC 3339 time",
            )
        },
    };
    CredentialsError::new(ErrorKind::Process, message)
}

/// The outcomes of a `credential_process` command: output with `Version` 1,
/// the two keys and an `Expiration` of `2030-01-01T00:00:00Z` gives those
/// keys, no session token and that expiration; output with any other
/// `Version` fails as unsupported; a failed exit fails with the command's
/// standard error in the message.
pub proof fn lemma_process_outcomes(m: JsonMembers, access: Seq<char>, secret: Seq<char>, stderr: Seq<char>)
    ensures
        ({
            let sample = m.insert("Version"@, JsonField::Unsigned(1)).insert(
                "AccessKeyId"@,
                JsonField::Text(access),
            ).insert("SecretAccessKey"@, JsonField::Text(secret)).insert(
                "Expiration"@,
                JsonField::Text("2030-01-01T00:00:00Z"@),
            ).remove("SessionToken"@);
            members_outcome(sample) == Ok::<ProcessCredentials, ProcessFailure>(
                (access, secret, None, Some(1893456000u64)),
            )
        }),
        !(m.contains_key("Version"@) && m["Version"@] == JsonField::Unsigned(1)) ==> members_outcome(m)
            == Err::<ProcessCredentials, ProcessFailure>(ProcessFailure::UnsupportedVersion),
        forall|out: Seq<char>|
            process_outcome(false, out) == Err::<ProcessCredentials, ProcessFailure>(
                ProcessFailure::Exit,
            ),
        failure_message(ProcessFailure::Exit, stderr).subrange(
            failure_message(ProcessFailure::Exit, stderr).len() - stderr.len(),
            failure_message(ProcessFailure::Exit, stderr).len() as int,
        ) == stderr,
{
    lemma_sample_expiration();
    reveal_strlit("Version");
    reveal_strlit("AccessKeyId");
    reveal_strlit("SecretAccessKey");
    reveal_strlit("SessionToken");
    reveal_strlit("Expiration");
    let v = "Version"@;
    let a = "AccessKeyId"@;
    let k = "SecretAccessKey"@;
    let t = "SessionToken"@;
    let e = "Expiration"@;
    assert(v.len() == 7 && a.len() == 11 && k.len() == 15 && t.len() == 12 && e.len() == 10);
    let sample = m.insert(v, JsonField::Unsigned(1)).insert(a, JsonField::Text(access)).insert(
        k,
        JsonField::Text(secret),
    ).insert(e, JsonField::Text("2030-01-01T00:00:00Z"@)).remove(t);
    assert(sample.contains_key(v) && sample[v] == JsonField::Unsigned(1));
    assert(member_text(sample, a) == Some(access));
    assert(member_text(sample, k) == Some(secret));
    assert(member_text(sample, e) == Some("2030-01-01T00:00:00Z"@));
    assert(!sample.contains_key(t));
    assert(member_text(sample, t) is None);
    let msg = failure_message(ProcessFailure::Exit, stderr);
    assert(msg.subrange(msg.len() - stderr.len(), msg.len() as int) =~= stderr);
}

/// Reads a member that, where present, must be a string: `Ok(None)` where
/// it is absent, `Err(())` where it is no string.
fn optional_text<'a>(v: &'a serde_json::Value, key: &str) -> (r: Result<Option<&'a str>, ()>)
    requires
        json_members(*v) is Some,
    ensures
        ({
            let m = json_members(*v)->Some_0;
            match r {
                Ok(Some(t)) => member_text(m, key@) == Some(t@),
                Ok(None) => !m.contains_key(key@),
                Err(_) => m.contains_key(key@) && member_text(m, key@) is None,
            }
        }),
{
    match json_get(v, key) {
        None => Ok(None),
        Some(f) => match json_as_str(f) {
            Some(t) => Ok(Some(t)),
            None => Err(()),
        },
    }
}

fn owned(s: Option<&str>) -> (r: Option<String>)
    ensures
        match (s, r) {
            (Some(a), Some(b)) => a@ == b@,
            (None, None) => true,
            _ => false,
        },
{
    match s {
        Some(a) => Some(String::from_str(a)),
        None => None,
    }
}

/// Reads the output of a `credential_process` command: `success` tells
/// whether it exited with success, `stdout` and `stderr` are what it
/// printed. The output must be a JSON object with `Version` 1, string members
/// `AccessKeyId` and `SecretAccessKey`, and optionally string members
/// `SessionToken` and `Expiration`; a failed exit is reported with the
/// command's standard error, whatever it printed on standard output.
pub fn credentials_from_process_output(success: bool, stdout: &str, stderr: &str) -> (r: Result<
    Credentials,
    CredentialsError,
>)
    ensures
        credentials_match(r, process_outcome(success, stdout@), stderr@),
{
    if !success {
        return Err(failure(ProcessFailure::Exit, stderr));
    }
    let doc = match parse_json(stdout) {
        Some(v) => v,
        None => return Err(failure(ProcessFailure::Unparseable, stderr)),
    };
    if !json_is_object(&doc) {
        return Err(failure(ProcessFailure::Unparseable, stderr));
    }
    proof {
        reveal_strlit("Version");
        reveal_strlit("AccessKeyId");
        reveal_strlit("SecretAccessKey");
        reveal_strlit("SessionToken");
        reveal_strlit("Expiration");
    }
    let version = match json_get(&doc, "Version") {
        Some(f) => json_as_u64(f),
        None => None,
    };
    if version != Some(1u64) {
        return Err(failure(ProcessFailure::UnsupportedVersion, stderr));
    }
    match read_fields(&doc) {
        Ok(c) => Ok(c),
        Err(f) => Err(failure(f, stderr)),
    }
}

/// Reads the four credential members of a JSON object.
fn read_fields(doc: &serde_json::Value) -> (r: Result<Credentials, ProcessFailure>)
    requires
        json_members(*doc) is Some,
    ensures
        fields_match(r, fields_outcome(json_members(*doc)->Some_0)),
{
    proof {
        reveal_strlit("AccessKeyId");
        reveal_strlit("SecretAccessKey");
        reveal_strlit("SessionToken");
        reveal_strlit("Expiration");
    }
    let access = optional_text(doc, "AccessKeyId");
    let secret = optional_text(doc, "SecretAccessKey");
    let token = optional_text(doc, "SessionToken");
    let expiration = optional_text(doc, "Expiration");
    let (access, secret, token, expiration) = match (access, secret, token, expiration) {
        (Ok(Some(a)), Ok(Some(s)), Ok(t), Ok(e)) => (a, s, t, e),
        _ => return Err(ProcessFailure::MissingField),
    };
    let seconds = match expiration {
        Some(e) => match parse_timestamp(e) {
            Some(n) => Some(n),
            None => return Err(ProcessFailure::BadExpiration),
        },
        None => None,
    };
    Ok(
        Credentials::new(
            String::from_str(access),
            String::from_str(secret),
            owned(token),
            seconds,
        ),
    )
}

/// The outcome of reading the JSON credentials envelope that a container or
/// instance-metadata endpoint answers with.
pub open spec fn envelope_outcome(text: Seq<char>) -> Result<ProcessCredentials, ProcessFailure> {
    match json_document(text) {
        Some(Some(m)) => fields_outcome(m),
        _ => Err(ProcessFailure::Unparseable),
    }
}

/// The message reported for an unusable credentials envelope.
pub open spec fn envelope_message(f: ProcessFailure) -> Seq<char> {
    match f {
        ProcessFailure::BadExpiration => "credentials envelope has an Expiration that is not an RFC 3339 time"@,
        ProcessFailure::MissingField => "credentials envelope lacks AccessKeyId or SecretAccessKey, or has a member that is not a string"@,
        _ => "credentials envelope is not a JSON object"@,
    }
}

fn envelope_failure(f: ProcessFailure) -> (r: CredentialsError)
    ensures
        r.kind == ErrorKind::Network,
        r.message@ == envelope_message(f),
{
    let message = match f {
        ProcessFailure::BadExpiration => {
            proof {
                reveal_strlit("credentials envelope has an Expiration that is not an RFC 3339 time");
            }
            String::from_str("credentials envelope has an Expiration that is not an RFC 3339 time")
        },
        ProcessFailure::MissingField => {
            proof {
                reveal_strlit(
                    "credentials envelope lacks AccessKeyId or SecretAccessKey, or has a member that is not a string",
                );
            }
            String::from_str(
                "credentials envelope lacks AccessKeyId or SecretAccessKey, or has a member that is not a string",
            )
        },
        _ => {
            proof {
                reveal_strlit("credentials envelope is not a JSON object");
            }
            String::from_str("credentials envelope is not a JSON object")
        },
    };
    CredentialsError::new(ErrorKind::Network, message)
}

/// Reads the JSON credentials envelope fetched from a container or
/// instance-metadata endpoint: an object with string members `AccessKeyId`
/// and `SecretAccessKey`, and optionally `SessionToken` and `Expiration`.
/// An unusable envelope fails with `Network` and a message that names why.
pub fn credentials_from_envelope(body: &str) -> (r: Result<Credentials, CredentialsError>)
    ensures
        match (r, envelope_outcome(body@)) {
            (Err(e), Err(f)) => e.kind == ErrorKind::Network && e.message@ == envelope_message(f),
            (Ok(c), Ok(p)) => fields_match(Ok(c), Ok(p)),
            _ => false,
        },
{
    let doc = match parse_json(body) {
        Some(v) => v,
        None => return Err(envelope_failure(ProcessFailure::Unparseable)),
    };
    if !json_is_object(&doc) {
        return Err(envelope_failure(ProcessFailure::Unparseable));
    }
    match read_fields(&doc) {
        Ok(c) => Ok(c),
        Err(f) => Err(envelope_failure(f)),
    }
}

} // verus!
