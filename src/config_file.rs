use vstd::prelude::*;
use vstd::string::*;
use crate::credentials::{CredentialsError, ErrorKind};

verus! {

#[verifier::external_type_specification]
#[verifier::external_body]
pub struct ExIni(ini::Ini);

#[verifier::external_type_specification]
#[verifier::external_body]
pub struct ExProperties(ini::Properties);

/// The properties of one INI section: key to first value.
pub type PropertyMap = Map<Seq<char>, Seq<char>>;

/// The sections of a parsed INI document: name to the properties of the first
/// section of that name.
pub type SectionMap = Map<Seq<char>, PropertyMap>;

/// What `ini::Ini::load_from_str` makes of a text: `None` where it refuses
/// the text, else the sections it found.
pub uninterp spec fn ini_parse_result(text: Seq<char>) -> Option<SectionMap>;

/// The sections held by an `ini::Ini`.
pub uninterp spec fn ini_sections(i: ini::Ini) -> SectionMap;

/// The properties held by an `ini::Properties`.
pub uninterp spec fn property_values(p: ini::Properties) -> PropertyMap;

/// What `ini::ParseError` prints for the error met in a refused text: its
/// line, column and message.
pub uninterp spec fn ini_error_text(text: Seq<char>) -> Seq<char>;

/// Relies on `ini::Ini::load_from_str`: parses INI text into sections, or
/// reports a parse error, which is returned as the text it prints.
#[verifier::external_body]
fn load_ini(text: &str) -> (r: Result<ini::Ini, String>)
    ensures
        match r {
            Ok(i) => ini_parse_result(text@) == Some(ini_sections(i)),
            Err(m) => ini_parse_result(text@) is None && m@ == ini_error_text(text@),
        },
{
    match ini::Ini::load_from_str(text) {
        Ok(i) => Ok(i),
        Err(e) => Err(e.to_string()),
    }
}

/// Relies on `ini::Ini::section`: the first section with the given name.
#[verifier::external_body]
fn ini_section<'a>(i: &'a ini::Ini, name: &str) -> (r: Option<&'a ini::Properties>)
    ensures
        match r {
            Some(p) => ini_sections(*i).contains_key(name@) && property_values(*p)
                == ini_sections(*i)[name@],
            None => !ini_sections(*i).contains_key(name@),
        },
{
    i.section(Some(name))
}

/// Relies on `ini::Properties::get`: the first value of the given key.
#[verifier::external_body]
fn property_get<'a>(p: &'a ini::Properties, key: &str) -> (r: Option<&'a str>)
    ensures
        match r {
            Some(v) => property_values(*p).contains_key(key@) && v@ == property_values(*p)[key@],
            None => !property_values(*p).contains_key(key@),
        },
{
    p.get(key)
}

/// The value of `key` in `m`, if any.
pub open spec fn value_of(m: PropertyMap, key: Seq<char>) -> Option<Seq<char>> {
    if m.contains_key(key) {
        Some(m[key])
    } else {
        None
    }
}

/// The text of an optional string slice.
pub open spec fn text_of(o: Option<&str>) -> Option<Seq<char>> {
    match o {
        Some(s) => Some(s@),
        None => None,
    }
}

/// The name under which the config file holds a named profile besides its
/// bare name.
pub open spec fn prefixed_name(name: Seq<char>) -> Seq<char> {
    "profile "@ + name
}

/// Profile lookup in a config file: the bare section name first, then the
/// `profile <name>` form.
pub open spec fn config_lookup(m: SectionMap, name: Seq<char>) -> Option<PropertyMap> {
    if m.contains_key(name) {
        Some(m[name])
    } else if m.contains_key(prefixed_name(name)) {
        Some(m[prefixed_name(name)])
    } else {
        None
    }
}

/// Profile lookup in a credentials file: the bare section name only.
pub open spec fn credentials_lookup(m: SectionMap, name: Seq<char>) -> Option<PropertyMap> {
    if m.contains_key(name) {
        Some(m[name])
    } else {
        None
    }
}

/// The name of the profile used when none is asked for.
pub open spec fn default_name() -> Seq<char> {
    "default"@
}

/// The properties of an optional profile.
pub open spec fn profile_view(o: Option<ConfigProfile<'_>>) -> Option<PropertyMap> {
    match o {
        Some(p) => Some(p@),
        None => None,
    }
}

/// The name of the profile used when none is asked for.
pub fn default_profile_name() -> (r: String)
    ensures
        r@ == default_name(),
{
    proof {
        reveal_strlit("default");
    }
    String::from_str("default")
}

/// A parsed AWS config file, whose named profiles sit in sections named
/// `profile <name>`.
pub struct ConfigFile {
    ini: ini::Ini,
}

/// A parsed AWS shared credentials file, whose profiles sit in sections named
/// by the bare profile name.
pub struct CredentialsFile {
    ini: ini::Ini,
}

/// One profile of a parsed file; its values live as long as the file.
pub struct ConfigProfile<'a> {
    properties: &'a ini::Properties,
}

impl View for ConfigFile {
    type V = SectionMap;

    closed spec fn view(&self) -> SectionMap {
        ini_sections(self.ini)
    }
}

impl View for CredentialsFile {
    type V = SectionMap;

    closed spec fn view(&self) -> SectionMap {
        ini_sections(self.ini)
    }
}

impl<'a> View for ConfigProfile<'a> {
    type V = PropertyMap;

    closed spec fn view(&self) -> PropertyMap {
        property_values(*self.properties)
    }
}

/// The message of a file that could not be parsed, with the cause.
pub open spec fn parse_message(what: Seq<char>, cause: Seq<char>) -> Seq<char> {
    "An error occurred parsing the "@ + what + " file: "@ + cause
}

/// The error of a file that could not be parsed.
fn parse_failure(what: &str, cause: String) -> (r: CredentialsError)
    ensures
        r.kind == ErrorKind::Parse,
        r.message@ == parse_message(what@, cause@),
{
    proof {
        reveal_strlit("An error occurred parsing the ");
        reveal_strlit(" file: ");
    }
    let mut message = String::from_str("An error occurred parsing the ");
    message.append(what);
    message.append(" file: ");
    message.append(cause.as_str());
    CredentialsError::new(ErrorKind::Parse, message)
}

fn profile_in<'a>(i: &'a ini::Ini, name: &str) -> (r: Option<ConfigProfile<'a>>)
    ensures
        profile_view(r) == credentials_lookup(ini_sections(*i), name@),
{
    match ini_section(i, name) {
        Some(p) => Some(ConfigProfile { properties: p }),
        None => None,
    }
}

impl ConfigFile {
    /// Parses the text of a config file.
    pub fn parse(text: &str) -> (r: Result<ConfigFile, CredentialsError>)
        ensures
            match r {
                Ok(c) => ini_parse_result(text@) == Some(c@),
                Err(e) => ini_parse_result(text@) is None && e.kind == ErrorKind::Parse
                    && e.message@ == parse_message("config"@, ini_error_text(text@)),
            },
    {
        proof {
            reveal_strlit("config");
        }
        match load_ini(text) {
            Ok(ini) => Ok(ConfigFile { ini }),
            Err(cause) => Err(parse_failure("config", cause)),
        }
    }

    /// Returns the profile with the given name, found under its bare name or
    /// else under `profile <name>`.
    pub fn profile(&self, profile_name: &str) -> (r: Option<ConfigProfile<'_>>)
        ensures
            profile_view(r) == config_lookup(self@, profile_name@),
    {
        match profile_in(&self.ini, profile_name) {
            Some(p) => Some(p),
            None => {
                proof {
                    reveal_strlit("profile ");
                }
                let prefixed = String::from_str("profile ").concat(profile_name);
                profile_in(&self.ini, prefixed.as_str())
            },
        }
    }

    /// Returns the default profile: the same as `profile("default")`.
    pub fn default_profile(&self) -> (r: Option<ConfigProfile<'_>>)
        ensures
            profile_view(r) == config_lookup(self@, default_name()),
    {
        let name = default_profile_name();
        self.profile(name.as_str())
    }
}

impl CredentialsFile {
    /// Parses the text of a shared credentials file.
    pub fn parse(text: &str) -> (r: Result<CredentialsFile, CredentialsError>)
        ensures
            match r {
                Ok(c) => ini_parse_result(text@) == Some(c@),
                Err(e) => ini_parse_result(text@) is None && e.kind == ErrorKind::Parse
                    && e.message@ == parse_message("credentials"@, ini_error_text(text@)),
            },
    {
        proof {
            reveal_strlit("credentials");
        }
        match load_ini(text) {
            Ok(ini) => Ok(CredentialsFile { ini }),
            Err(cause) => Err(parse_failure("credentials", cause)),
        }
    }

    /// Returns the profile stored under exactly the given name.
    pub fn profile(&self, profile_name: &str) -> (r: Option<ConfigProfile<'_>>)
        ensures
            profile_view(r) == credentials_lookup(self@, profile_name@),
    {
        profile_in(&self.ini, profile_name)
    }

    /// Returns the default profile: the same as `profile("default")`.
    pub fn default_profile(&self) -> (r: Option<ConfigProfile<'_>>)
        ensures
            profile_view(r) == credentials_lookup(self@, default_name()),
    {
        let name = default_profile_name();
        self.profile(name.as_str())
    }
}

impl<'a> ConfigProfile<'a> {
    /// The value of `key` in this profile, if present.
    fn get(&self, key: &str) -> (r: Option<&'a str>)
        ensures
            text_of(r) == value_of(self@, key@),
    {
        property_get(self.properties, key)
    }

    /// Returns the region (`region`) of this profile.
    pub fn region(&self) -> (r: Option<&'a str>)
        ensures
            text_of(r) == value_of(self@, "region"@),
    {
        proof {
            reveal_strlit("region");
        }
        self.get("region")
    }

    /// Returns the `credential_process` command line (`credential_process`) of this profile.
    pub fn credential_process(&self) -> (r: Option<&'a str>)
        ensures
            text_of(r) == value_of(self@, "credential_process"@),
    {
        proof {
            reveal_strlit("credential_process");
        }
        self.get("credential_process")
    }

    /// Returns the role to assume (`role_arn`) of this profile.
    pub fn role_arn(&self) -> (r: Option<&'a str>)
        ensures
            text_of(r) == value_of(self@, "role_arn"@),
    {
        proof {
            reveal_strlit("role_arn");
        }
        self.get("role_arn")
    }

    /// Returns the profile whose credentials assume the role (`source_profile`) of this profile.
    pub fn source_profile(&self) -> (r: Option<&'a str>)
        ensures
            text_of(r) == value_of(self@, "source_profile"@),
    {
        proof {
            reveal_strlit("source_profile");
        }
        self.get("source_profile")
    }

    /// Returns the session name for an assumed role (`role_session_name`) of this profile.
    pub fn role_session_name(&self) -> (r: Option<&'a str>)
        ensures
            text_of(r) == value_of(self@, "role_session_name"@),
    {
        proof {
            reveal_strlit("role_session_name");
        }
        self.get("role_session_name")
    }

    /// Returns the access key id (`aws_access_key_id`) of this profile.
    pub fn aws_access_key_id(&self) -> (r: Option<&'a str>)
        ensures
            text_of(r) == value_of(self@, "aws_access_key_id"@),
    {
        proof {
            reveal_strlit("aws_access_key_id");
        }
        self.get("aws_access_key_id")
    }

    /// Returns the secret access key (`aws_secret_access_key`) of this profile.
    pub fn aws_secret_access_key(&self) -> (r: Option<&'a str>)
        ensures
            text_of(r) == value_of(self@, "aws_secret_access_key"@),
    {
        proof {
            reveal_strlit("aws_secret_access_key");
        }
        self.get("aws_secret_access_key")
    }

    /// Returns the session token (`aws_session_token`) of this profile.
    pub fn aws_session_token(&self) -> (r: Option<&'a str>)
        ensures
            text_of(r) == value_of(self@, "aws_session_token"@),
    {
        proof {
            reveal_strlit("aws_session_token");
        }
        self.get("aws_session_token")
    }
}

/// A config file finds profile `name` exactly where it has a section named
/// `name` or `profile name`, preferring the bare one; a credentials file finds
/// it only under the bare name.
pub proof fn lemma_profile_lookup_forms(m: SectionMap, name: Seq<char>)
    ensures
        config_lookup(m, name) is Some <==> (m.contains_key(name) || m.contains_key(
            prefixed_name(name),
        )),
        m.contains_key(name) ==> config_lookup(m, name) == Some(m[name]),
        !m.contains_key(name) && m.contains_key(prefixed_name(name)) ==> config_lookup(m, name)
            == Some(m[prefixed_name(name)]),
        credentials_lookup(m, name) is Some <==> m.contains_key(name),
        m.contains_key(name) ==> credentials_lookup(m, name) == Some(m[name]),
{
}

} // verus!
