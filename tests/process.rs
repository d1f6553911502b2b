use rusoto_credential::config_file::ConfigFile;
use rusoto_credential::credentials::ErrorKind;
use rusoto_credential::process::{credentials_from_envelope, credentials_from_process_output};

#[test]
fn process_output_with_expiration() {
    let out = r#"{"Version":1,"AccessKeyId":"AKIAEXAMPLE","SecretAccessKey":"abc","Expiration":"2030-01-01T00:00:00Z"}"#;
    let c = credentials_from_process_output(true, out, "").unwrap();
    assert_eq!(c.access_key, "AKIAEXAMPLE");
    assert_eq!(c.secret_key, "abc");
    assert_eq!(c.session_token, None);
    assert_eq!(c.expiration, Some(1893456000));
}

#[test]
fn process_output_with_session_token() {
    let out = r#"{"Version":1,"AccessKeyId":"A","SecretAccessKey":"S","SessionToken":"T"}"#;
    let c = credentials_from_process_output(true, out, "").unwrap();
    assert_eq!(c.session_token, Some("T".to_string()));
    assert_eq!(c.expiration, None);
}

#[test]
fn unsupported_version_fails() {
    let out = r#"{"Version":2,"AccessKeyId":"A","SecretAccessKey":"S"}"#;
    let err = credentials_from_process_output(true, out, "").err().unwrap();
    assert_eq!(err.kind, ErrorKind::Process);
    assert!(err.message().contains("Version"));
    let out = r#"{"AccessKeyId":"A","SecretAccessKey":"S"}"#;
    let err = credentials_from_process_output(true, out, "").err().unwrap();
    assert!(err.message().contains("Version"));
}

#[test]
fn failed_exit_reports_stderr() {
    let out = r#"{"Version":1,"AccessKeyId":"A","SecretAccessKey":"S"}"#;
    let err = credentials_from_process_output(false, out, "token expired").err().unwrap();
    assert_eq!(err.kind, ErrorKind::Process);
    assert_eq!(err.message(), "credential_process exited with an error: token expired");
}

#[test]
fn unusable_output_fails() {
    let err = credentials_from_process_output(true, "not json", "").err().unwrap();
    assert_eq!(err.message(), "credential_process output is not a JSON object");
    let err = credentials_from_process_output(true, "[1, 2]", "").err().unwrap();
    assert_eq!(err.message(), "credential_process output is not a JSON object");
    let err = credentials_from_process_output(true, r#"{"Version":1,"AccessKeyId":"A"}"#, "").err().unwrap();
    assert!(err.message().contains("lacks"));
    let err = credentials_from_process_output(true, r#"{"Version":1,"AccessKeyId":"A","SecretAccessKey":7}"#, "").err().unwrap();
    assert!(err.message().contains("lacks"));
    let err = credentials_from_process_output(
        true,
        r#"{"Version":1,"AccessKeyId":"A","SecretAccessKey":"S","Expiration":"tomorrow"}"#,
        "",
    )
    .err()
    .unwrap();
    assert!(err.message().contains("Expiration"));
}

#[test]
fn sample_profile_credential_process_end_to_end() {
    let config = ConfigFile::parse(
        "[default]\nregion = us-east-2\ncredential_process = cat tests/sample-data/credential_process_sample_response\n",
    )
    .unwrap();
    let command = config.default_profile().unwrap().credential_process().unwrap();
    assert_eq!(command, "cat tests/sample-data/credential_process_sample_response");
    let fixture = r#"{"Version": 1, "AccessKeyId": "ASIARTESTID", "SecretAccessKey": "TESTSECRETKEY", "SessionToken": "TESTSESSIONTOKEN", "Expiration": "2019-05-29T00:21:43Z"}"#;
    let c = credentials_from_process_output(true, fixture, "").unwrap();
    assert_eq!(c.access_key, "ASIARTESTID");
    assert_eq!(c.secret_key, "TESTSECRETKEY");
    assert_eq!(c.session_token, Some("TESTSESSIONTOKEN".to_string()));
    assert_eq!(c.expiration, Some(1559089303));
}

#[test]
fn process_output_with_offset_expiration() {
    let out = r#"{"Version":1,"AccessKeyId":"A","SecretAccessKey":"S","Expiration":"2030-01-01T01:00:00.250+01:00"}"#;
    let c = credentials_from_process_output(true, out, "").unwrap();
    assert_eq!(c.expiration, Some(1893456000));
}

#[test]
fn envelope_credentials() {
    let body = r#"{"AccessKeyId":"ASIAENV","SecretAccessKey":"SEC","SessionToken":"TOK","Expiration":"2030-01-01T00:00:00Z"}"#;
    let c = credentials_from_envelope(body).unwrap();
    assert_eq!(c.access_key, "ASIAENV");
    assert_eq!(c.secret_key, "SEC");
    assert_eq!(c.session_token, Some("TOK".to_string()));
    assert_eq!(c.expiration, Some(1893456000));
    let err = credentials_from_envelope("<html>").err().unwrap();
    assert_eq!(err.kind, ErrorKind::Network);
    assert_eq!(err.message(), "credentials envelope is not a JSON object");
    let err = credentials_from_envelope(r#"{"AccessKeyId":"A"}"#).err().unwrap();
    assert!(err.message().contains("lacks"));
    let err = credentials_from_envelope(r#"{"AccessKeyId":"A","SecretAccessKey":"S","Expiration":"soon"}"#)
        .err()
        .unwrap();
    assert!(err.message().contains("Expiration"));
}
