use rusoto_credential::assume_role::MAX_ROLE_DEPTH;
use rusoto_credential::config_file::ConfigFile;
use rusoto_credential::credentials::ErrorKind;

#[test]
fn role_cycle_is_too_long() {
    let text = "[profile A]\nrole_arn = arn:aws:iam::1:role/a\nsource_profile = B\n[profile B]\nrole_arn = arn:aws:iam::1:role/b\nsource_profile = A\n";
    let config = ConfigFile::parse(text).unwrap();
    let err = config.role_plan("A").err().unwrap();
    assert_eq!(err.kind, ErrorKind::CredentialChainTooLong);
    let err = config.role_plan("B").err().unwrap();
    assert_eq!(err.kind, ErrorKind::CredentialChainTooLong);
}

#[test]
fn role_chain_resolves_to_base_profile() {
    let text = "[profile top]\nrole_arn = arn:top\nsource_profile = mid\n[profile mid]\nrole_arn = arn:mid\nsource_profile = base\n[base]\naws_access_key_id = K\n";
    let config = ConfigFile::parse(text).unwrap();
    let plan = config.role_plan("top").unwrap();
    assert_eq!(plan.base_profile, "base");
    assert_eq!(plan.roles, vec!["arn:top".to_string(), "arn:mid".to_string()]);
    let plan = config.role_plan("base").unwrap();
    assert_eq!(plan.base_profile, "base");
    assert!(plan.roles.is_empty());
}

#[test]
fn role_chain_errors() {
    let text = "[profile a]\nrole_arn = arn:a\n[profile b]\nrole_arn = arn:b\nsource_profile = missing\n";
    let config = ConfigFile::parse(text).unwrap();
    assert_eq!(config.role_plan("a").err().unwrap().kind, ErrorKind::RoleChain);
    assert_eq!(config.role_plan("b").err().unwrap().kind, ErrorKind::RoleChain);
    assert_eq!(config.role_plan("nobody").err().unwrap().kind, ErrorKind::RoleChain);
}

#[test]
fn role_chain_depth_bound() {
    let mut text = String::new();
    for i in 0..MAX_ROLE_DEPTH {
        text.push_str(&format!("[profile link{}]\nrole_arn = arn:{}\nsource_profile = link{}\n", i, i, i + 1));
    }
    text.push_str(&format!("[profile link{}]\naws_access_key_id = K\n", MAX_ROLE_DEPTH));
    let config = ConfigFile::parse(&text).unwrap();
    let plan = config.role_plan("link0").unwrap();
    assert_eq!(plan.roles.len(), 5);
    assert_eq!(plan.base_profile, "link5");

    text.push_str(&format!("[profile q]\nrole_arn = arn:q\nsource_profile = link0\n"));
    let config = ConfigFile::parse(&text).unwrap();
    assert_eq!(config.role_plan("q").err().unwrap().kind, ErrorKind::CredentialChainTooLong);
}
