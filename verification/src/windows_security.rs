//! Who may open a named pipe of the current user.

use vstd::prelude::*;
use vstd::string::*;

verus! {

/// Whom a private pipe trusts.
#[derive(Clone, Copy, Debug, PartialEq, Eq, Structural)]
pub enum TrustedPrincipal {
    CurrentUser,
    LocalSystem,
    Administrators,
}

/// The access rules of a named pipe.
#[derive(Clone, Copy, Debug, PartialEq, Eq, Structural)]
pub struct NamedPipeDaclPolicy;

/// The principals that a private pipe trusts, and no others.
pub open spec fn trusted() -> Seq<TrustedPrincipal> {
    seq![
        TrustedPrincipal::CurrentUser,
        TrustedPrincipal::LocalSystem,
        TrustedPrincipal::Administrators,
    ]
}

/// How the security descriptor language names a principal.
pub open spec fn trustee_name(principal: TrustedPrincipal, current_user_sid: Seq<char>) -> Seq<char> {
    match principal {
        TrustedPrincipal::CurrentUser => current_user_sid,
        TrustedPrincipal::LocalSystem => "SY"@,
        TrustedPrincipal::Administrators => "BA"@,
    }
}

/// Full access for a principal.
pub open spec fn full_access(trustee: Seq<char>) -> Seq<char> {
    "(A;;GA;;;"@ + trustee + ")"@
}

/// Full access for each of the principals, in order.
pub open spec fn entries(principals: Seq<TrustedPrincipal>, current_user_sid: Seq<char>) -> Seq<char>
    decreases principals.len(),
{
    if principals.len() == 0 {
        Seq::empty()
    } else {
        entries(principals.drop_last(), current_user_sid) + full_access(
            trustee_name(principals.last(), current_user_sid),
        )
    }
}

/// A protected list, which inherits nothing, with full access for the trusted principals alone.
pub open spec fn private_sddl(current_user_sid: Seq<char>) -> Seq<char> {
    "D:P"@ + entries(trusted(), current_user_sid)
}

impl NamedPipeDaclPolicy {
    /// Access for the current user, the system and the administrators.
    pub fn current_user_private() -> (policy: Self)
        ensures
            policy == NamedPipeDaclPolicy,
    {
        NamedPipeDaclPolicy
    }

    /// Whether nothing is inherited.
    pub fn is_protected(self) -> (protected: bool)
        ensures
            protected,
    {
        true
    }

    /// Who has access.
    pub fn trusted_principals(self) -> (principals: [TrustedPrincipal; 3])
        ensures
            principals@ == trusted(),
    {
        let principals = [
            TrustedPrincipal::CurrentUser,
            TrustedPrincipal::LocalSystem,
            TrustedPrincipal::Administrators,
        ];
        proof {
            assert(principals@ =~= trusted());
        }
        principals
    }

    /// The rules in the security descriptor definition language.
    pub fn sddl_for_current_user(self, current_user_sid: &str) -> (sddl: String)
        ensures
            sddl@ == private_sddl(current_user_sid@),
            sddl@ == "D:P(A;;GA;;;"@ + current_user_sid@ + ")(A;;GA;;;SY)(A;;GA;;;BA)"@,
    {
        let mut sddl = "D:P(A;;GA;;;".to_owned();
        sddl.append(current_user_sid);
        sddl.append(")(A;;GA;;;SY)(A;;GA;;;BA)");
        proof {
            lemma_private_sddl(current_user_sid@);
        }
        sddl
    }
}

proof fn lemma_private_sddl(sid: Seq<char>)
    ensures
        private_sddl(sid) == "D:P(A;;GA;;;"@ + sid + ")(A;;GA;;;SY)(A;;GA;;;BA)"@,
{
    reveal_strlit("D:P");
    reveal_strlit("(A;;GA;;;");
    reveal_strlit(")");
    reveal_strlit("SY");
    reveal_strlit("BA");
    reveal_strlit("D:P(A;;GA;;;");
    reveal_strlit(")(A;;GA;;;SY)(A;;GA;;;BA)");
    let all = trusted();
    let two = all.drop_last();
    let one = two.drop_last();
    assert(one.drop_last() =~= Seq::empty());
    assert(entries(one.drop_last(), sid) =~= Seq::empty());
    assert(entries(one, sid) =~= full_access(sid));
    assert(entries(two, sid) =~= full_access(sid) + full_access("SY"@));
    assert(entries(all, sid) =~= full_access(sid) + full_access("SY"@) + full_access("BA"@));
    assert(private_sddl(sid) =~= "D:P(A;;GA;;;"@ + sid + ")(A;;GA;;;SY)(A;;GA;;;BA)"@);
}

} // verus!
