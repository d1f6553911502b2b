use vstd::prelude::*;
use vstd::string::*;
use crate::config_file::{config_lookup, ConfigFile, SectionMap};
use crate::credentials::{CredentialsError, ErrorKind};

verus! {

/// The greatest number of roles that one chain of `source_profile` links
/// may assume.
pub const MAX_ROLE_DEPTH: usize = 5;

/// The base profile whose own keys start a chain, and the roles to assume,
/// those of the requested profile first; each role is assumed with the
/// credentials that the roles after it (and at last the base profile) give.
pub type RolePlanView = (Seq<char>, Seq<Seq<char>>);

/// Resolves profile `name` of the sections `m` at chain depth `depth`: a
/// profile without `role_arn` is the base; one with it adds its role and
/// goes on with its `source_profile`, up to `MAX_ROLE_DEPTH` roles.
pub open spec fn role_plan(m: SectionMap, name: Seq<char>, depth: nat) -> Result<
    RolePlanView,
    ErrorKind,
>
    decreases MAX_ROLE_DEPTH - depth,
{
    match config_lookup(m, name) {
        None => Err(ErrorKind::RoleChain),
        Some(p) => if !p.contains_key("role_arn"@) {
            Ok((name, Seq::empty()))
        } else if depth >= MAX_ROLE_DEPTH {
            Err(ErrorKind::CredentialChainTooLong)
        } else if !p.contains_key("source_profile"@) {
            Err(ErrorKind::RoleChain)
        } else {
            prepend_roles(
                seq![p["role_arn"@]],
                role_plan(m, p["source_profile"@], depth + 1),
            )
        },
    }
}

/// `r` with the roles `roles` put before its own.
pub open spec fn prepend_roles(roles: Seq<Seq<char>>, r: Result<RolePlanView, ErrorKind>) -> Result<
    RolePlanView,
    ErrorKind,
> {
    match r {
        Ok((b, rs)) => Ok((b, roles + rs)),
        Err(k) => Err(k),
    }
}

/// A resolved assume-role chain.
pub struct RolePlan {
    /// The profile whose own keys start the chain.
    pub base_profile: String,
    /// The roles to assume, those of the requested profile first.
    pub roles: Vec<String>,
}

impl RolePlan {
    /// The base profile and the roles, as text.
    pub open spec fn view_plan(&self) -> RolePlanView {
        (self.base_profile@, self.roles@.map_values(|s: String| s@))
    }
}

/// A chain in which two profiles name each other as `source_profile`, both
/// with a `role_arn`, fails with `CredentialChainTooLong` from either one.
pub proof fn lemma_role_cycle_too_long(m: SectionMap, a: Seq<char>, b: Seq<char>)
    requires
        config_lookup(m, a) is Some,
        config_lookup(m, b) is Some,
        config_lookup(m, a)->Some_0.contains_key("role_arn"@),
        config_lookup(m, b)->Some_0.contains_key("role_arn"@),
        config_lookup(m, a)->Some_0.contains_key("source_profile"@),
        config_lookup(m, b)->Some_0.contains_key("source_profile"@),
        config_lookup(m, a)->Some_0["source_profile"@] == b,
        config_lookup(m, b)->Some_0["source_profile"@] == a,
    ensures
        role_plan(m, a, 0) == Err::<RolePlanView, ErrorKind>(ErrorKind::CredentialChainTooLong),
        role_plan(m, b, 0) == Err::<RolePlanView, ErrorKind>(ErrorKind::CredentialChainTooLong),
{
    lemma_cycle_from(m, a, b, 0);
}

proof fn lemma_cycle_from(m: SectionMap, a: Seq<char>, b: Seq<char>, depth: nat)
    requires
        depth <= MAX_ROLE_DEPTH,
        config_lookup(m, a) is Some,
        config_lookup(m, b) is Some,
        config_lookup(m, a)->Some_0.contains_key("role_arn"@),
        config_lookup(m, b)->Some_0.contains_key("role_arn"@),
        config_lookup(m, a)->Some_0.contains_key("source_profile"@),
        config_lookup(m, b)->Some_0.contains_key("source_profile"@),
        config_lookup(m, a)->Some_0["source_profile"@] == b,
        config_lookup(m, b)->Some_0["source_profile"@] == a,
    ensures
        role_plan(m, a, depth) == Err::<RolePlanView, ErrorKind>(
            ErrorKind::CredentialChainTooLong,
        ),
        role_plan(m, b, depth) == Err::<RolePlanView, ErrorKind>(
            ErrorKind::CredentialChainTooLong,
        ),
    decreases MAX_ROLE_DEPTH - depth,
{
    if depth < MAX_ROLE_DEPTH {
        lemma_cycle_from(m, a, b, depth + 1);
    }
}

fn chain_error(kind: ErrorKind, what: &str, name: &str) -> (r: CredentialsError)
    ensures
        r.kind == kind,
{
    let message = String::from_str(what).concat(name);
    CredentialsError::new(kind, message)
}

impl ConfigFile {
    /// Resolves the assume-role chain of profile `profile_name`: follows
    /// `source_profile` from each profile that has a `role_arn`, up to
    /// `MAX_ROLE_DEPTH` roles, to a base profile without one. Fails with
    /// `RoleChain` where a profile is absent or a role has no source profile,
    /// and with `CredentialChainTooLong` where the chain is longer.
    pub fn role_plan(&self, profile_name: &str) -> (r: Result<RolePlan, CredentialsError>)
        ensures
            match (r, role_plan(self@, profile_name@, 0)) {
                (Ok(p), Ok(v)) => p.view_plan() == v,
                (Err(e), Err(k)) => e.kind == k,
                _ => false,
            },
    {
        proof {
            reveal_strlit("role_arn");
            reveal_strlit("source_profile");
        }
        let mut name = String::from_str(profile_name);
        let mut roles: Vec<String> = Vec::new();
        let mut depth: usize = 0;
        loop
            invariant
                depth <= MAX_ROLE_DEPTH,
                roles@.len() == depth,
                role_plan(self@, profile_name@, 0) == prepend_roles(
                    roles@.map_values(|s: String| s@),
                    role_plan(self@, name@, depth as nat),
                ),
            decreases MAX_ROLE_DEPTH - depth,
        {
            let profile = match self.profile(name.as_str()) {
                Some(p) => p,
                None => return Err(
                    chain_error(ErrorKind::RoleChain, "profile not found: ", name.as_str()),
                ),
            };
            let arn = match profile.role_arn() {
                Some(a) => a,
                None => {
                    let plan = RolePlan { base_profile: name, roles };
                    assert(plan.view_plan().1 =~= plan.view_plan().1 + Seq::<Seq<char>>::empty());
                    return Ok(plan);
                },
            };
            if depth >= MAX_ROLE_DEPTH {
                return Err(
                    chain_error(
                        ErrorKind::CredentialChainTooLong,
                        "assume-role chain too long at profile ",
                        name.as_str(),
                    ),
                );
            }
            let source = match profile.source_profile() {
                Some(s) => s,
                None => return Err(
                    chain_error(ErrorKind::RoleChain, "role_arn without source_profile in profile ", name.as_str()),
                ),
            };
            let ghost old_roles = roles@.map_values(|s: String| s@);
            roles.push(String::from_str(arn));
            proof {
                assert(roles@.map_values(|s: String| s@) =~= old_roles + seq![arn@]);
                let inner = role_plan(self@, source@, (depth + 1) as nat);
                match inner {
                    Ok((b, rs)) => {
                        assert(old_roles + (seq![arn@] + rs) =~= (old_roles + seq![arn@]) + rs);
                    },
                    Err(_) => {},
                }
            }
            name = String::from_str(source);
            depth = depth + 1;
        }
    }
}

} // verus!
