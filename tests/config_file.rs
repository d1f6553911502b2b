use rusoto_credential::config_file::{default_profile_name, ConfigFile, CredentialsFile};
use rusoto_credential::credentials::ErrorKind;

const DEFAULT_CONFIG: &str = "[default]\nregion = us-east-2\n";

const MULTIPLE_PROFILE_CONFIG: &str =
    "[default]\nregion = us-east-2\n\n[profile foo]\nregion = us-east-3\n\n[profile bar]\nregion = us-east-4\n";

const CREDENTIAL_PROCESS_CONFIG: &str = "[default]\nregion = us-east-2\ncredential_process = cat tests/sample-data/credential_process_sample_response\n";

#[test]
fn parse_config_file_default_profile() {
    let result = ConfigFile::parse(DEFAULT_CONFIG);
    assert!(result.is_ok());
    let config = result.unwrap();
    let default_profile = config
        .default_profile()
        .expect("No Default profile in default_profile_credentials");
    assert_eq!(default_profile.region(), Some("us-east-2"));
}

#[test]
fn parse_config_file_multiple_profiles() {
    let result = ConfigFile::parse(MULTIPLE_PROFILE_CONFIG);
    assert!(result.is_ok());

    let config = result.unwrap();

    let foo_profile = config
        .profile("foo")
        .expect("No foo profile in multiple_profile_credentials");
    assert_eq!(foo_profile.region(), Some("us-east-3"));

    let bar_profile = config
        .profile("bar")
        .expect("No bar profile in multiple_profile_credentials");
    assert_eq!(bar_profile.region(), Some("us-east-4"));
}

#[test]
fn parse_config_file_credential_process() {
    let result = ConfigFile::parse(CREDENTIAL_PROCESS_CONFIG);
    assert!(result.is_ok());
    let config = result.unwrap();
    let default_profile = config
        .default_profile()
        .expect("No Default profile in default_profile_credentials");
    assert_eq!(default_profile.region(), Some("us-east-2"));
    assert_eq!(
        default_profile.credential_process(),
        Some("cat tests/sample-data/credential_process_sample_response")
    );
}

#[test]
fn config_lookup_prefers_bare_name_then_prefixed() {
    let text = "[x]\nregion = bare\n[profile x]\nregion = prefixed\n[profile y]\nregion = only-prefixed\n";
    let config = ConfigFile::parse(text).unwrap();
    assert_eq!(config.profile("x").unwrap().region(), Some("bare"));
    assert_eq!(config.profile("y").unwrap().region(), Some("only-prefixed"));
    assert!(config.profile("z").is_none());
}

#[test]
fn credentials_file_finds_only_bare_names() {
    let text = "[x]\naws_access_key_id = A\n[profile y]\naws_access_key_id = B\n";
    let file = CredentialsFile::parse(text).unwrap();
    assert_eq!(file.profile("x").unwrap().aws_access_key_id(), Some("A"));
    assert!(file.profile("y").is_none());
    assert!(file.profile("profile y").is_some());
}

#[test]
fn default_profile_matches_profile_default() {
    let config = ConfigFile::parse(MULTIPLE_PROFILE_CONFIG).unwrap();
    assert_eq!(
        config.default_profile().unwrap().region(),
        config.profile("default").unwrap().region()
    );
    let empty = ConfigFile::parse("[profile foo]\nregion = r\n").unwrap();
    assert!(empty.default_profile().is_none());
    assert!(empty.profile("default").is_none());
    assert_eq!(default_profile_name(), "default");
}

#[test]
fn missing_keys_are_none() {
    let config = ConfigFile::parse(DEFAULT_CONFIG).unwrap();
    let profile = config.default_profile().unwrap();
    assert_eq!(profile.credential_process(), None);
    assert_eq!(profile.role_arn(), None);
    assert_eq!(profile.source_profile(), None);
    assert_eq!(profile.region(), Some("us-east-2"));
}

#[test]
fn malformed_file_is_a_parse_error() {
    let err = ConfigFile::parse("[default\nregion = us-east-2\n").err().unwrap();
    assert_eq!(err.kind, ErrorKind::Parse);
    assert!(err.message().starts_with("An error occurred parsing the config file: "));
    assert!(err.message().len() > "An error occurred parsing the config file: ".len());
    let err = CredentialsFile::parse("[default\n").err().unwrap();
    assert_eq!(err.kind, ErrorKind::Parse);
}

#[test]
fn parse_error_message_carries_the_cause() {
    let text = "[default\nregion = us-east-2\n";
    let cause = ini::Ini::load_from_str(text).err().unwrap().to_string();
    assert!(!cause.is_empty());
    let err = ConfigFile::parse(text).err().unwrap();
    assert_eq!(err.message(), format!("An error occurred parsing the config file: {}", cause));
    let err = CredentialsFile::parse(text).err().unwrap();
    assert_eq!(err.message(), format!("An error occurred parsing the credentials file: {}", cause));
}
