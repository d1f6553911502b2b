use rusoto_credential::chain::{ChainAction, ChainResolver};
use rusoto_credential::credentials::{Credentials, CredentialsError, ErrorKind};

fn failing(message: &str) -> Result<Credentials, CredentialsError> {
    Err(CredentialsError::new(ErrorKind::NotFound, message.to_string()))
}

fn run(outcomes: &[Result<Credentials, CredentialsError>], calls: &mut Vec<usize>) -> Result<Credentials, CredentialsError> {
    let mut chain = ChainResolver::new(outcomes.len());
    let mut action = chain.start();
    loop {
        match action {
            ChainAction::Try(i) => {
                calls.push(i);
                action = chain.step(outcomes[i].clone());
            }
            ChainAction::Done(c) => return Ok(c),
            ChainAction::Fail(e) => return Err(e),
        }
    }
}

#[test]
fn first_success_short_circuits() {
    let ok = Credentials::new("AKIA2".to_string(), "s".to_string(), None, None);
    let outcomes = vec![failing("env"), failing("file"), Ok(ok), failing("process"), failing("imds")];
    let mut calls = Vec::new();
    let result = run(&outcomes, &mut calls).unwrap();
    assert_eq!(result.access_key, "AKIA2");
    assert_eq!(calls, vec![0, 1, 2]);
}

#[test]
fn all_failures_are_aggregated() {
    let outcomes = vec![failing("no env"), failing("no file"), failing("no imds")];
    let mut calls = Vec::new();
    let err = run(&outcomes, &mut calls).err().unwrap();
    assert_eq!(calls, vec![0, 1, 2]);
    assert_eq!(err.kind, ErrorKind::AggregateChain);
    assert_eq!(err.message(), "No credentials found in any provider: no env; no file; no imds");
}

#[test]
fn empty_chain_fails() {
    let mut calls = Vec::new();
    let err = run(&[], &mut calls).err().unwrap();
    assert!(calls.is_empty());
    assert_eq!(err.kind, ErrorKind::AggregateChain);
    assert_eq!(err.message(), "No credentials found in any provider: ");
}
