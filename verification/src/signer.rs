//! The signer gate: which of a request's accounts signed, and whether that
//! satisfies the policy of the path the request takes.

use crate::account::{AccountRef, Pubkey};
use crate::error::Rejection;
use vstd::prelude::*;

verus! {

/// Every account of the request signed. An empty request meets this.
pub open spec fn all_signed(accounts: Seq<AccountRef>) -> bool {
    forall|i: int| 0 <= i < accounts.len() ==> (#[trigger] accounts[i]).is_signer
}

/// At least one account of the request signed. An empty request does not
/// meet this.
pub open spec fn any_signed(accounts: Seq<AccountRef>) -> bool {
    exists|i: int| 0 <= i < accounts.len() && (#[trigger] accounts[i]).is_signer
}

/// The function that picks the key of an account that signed.
pub open spec fn signer_key_of() -> spec_fn(AccountRef) -> Option<Pubkey> {
    |account: AccountRef| account.spec_signer_key()
}

/// The keys of the accounts that signed, in the order of the request.
pub open spec fn signers(accounts: Seq<AccountRef>) -> Seq<Pubkey> {
    accounts.filter_map(signer_key_of())
}

/// The two signing policies. The account builder asks for the strict one,
/// the logging path for the weak one.
#[derive(Clone, Copy, Debug, PartialEq, Eq, Structural)]
pub enum SignerPolicy {
    /// Every account attached to the request must have signed.
    StrictAllSigners,
    /// At least one account attached to the request must have signed.
    WeakAnySigner,
}

impl SignerPolicy {
    /// Whether a request's accounts satisfy the policy.
    pub open spec fn admits(self, accounts: Seq<AccountRef>) -> bool {
        match self {
            SignerPolicy::StrictAllSigners => all_signed(accounts),
            SignerPolicy::WeakAnySigner => any_signed(accounts),
        }
    }
}

/// What the signer gate saw of the accounts. It is complete whether or not
/// a policy is met, so that every signer can be put on record.
#[derive(Clone, Debug, PartialEq, Eq)]
pub struct SignerAudit {
    /// The keys of the accounts that signed, in the order of the request.
    pub signed_by: Vec<Pubkey>,
    /// Whether some account did not sign.
    pub missing: bool,
}

impl SignerAudit {
    /// The audit is the one of these accounts.
    pub open spec fn covers(&self, accounts: Seq<AccountRef>) -> bool {
        &&& self.signed_by@ == signers(accounts)
        &&& self.missing == !all_signed(accounts)
    }

    /// Whether what was seen satisfies a policy.
    pub open spec fn meets(&self, policy: SignerPolicy) -> bool {
        match policy {
            SignerPolicy::StrictAllSigners => !self.missing,
            SignerPolicy::WeakAnySigner => self.signed_by@.len() > 0,
        }
    }

    /// Judges the audit by a policy: `MissingSigner` exactly when the policy
    /// is not met.
    pub fn verdict(&self, policy: SignerPolicy) -> (r: Result<(), Rejection>)
        ensures
            r == if self.meets(policy) {
                Ok::<(), Rejection>(())
            } else {
                Err::<(), Rejection>(Rejection::MissingSigner)
            },
    {
        let met = match policy {
            SignerPolicy::StrictAllSigners => !self.missing,
            SignerPolicy::WeakAnySigner => self.signed_by.len() > 0,
        };
        if met {
            Ok(())
        } else {
            Err(Rejection::MissingSigner)
        }
    }
}

/// Some account signed exactly when the list of signers is not empty.
pub proof fn lemma_signers_nonempty(accounts: Seq<AccountRef>)
    ensures
        signers(accounts).len() > 0 <==> any_signed(accounts),
    decreases accounts.len(),
{
    if accounts.len() > 0 {
        let rest = accounts.drop_last();
        lemma_signers_nonempty(rest);
        if accounts.last().is_signer {
            assert(accounts[accounts.len() - 1].is_signer);
        } else if any_signed(accounts) {
            let i = choose|i: int| 0 <= i < accounts.len() && (#[trigger] accounts[i]).is_signer;
            assert(rest[i].is_signer);
        } else if any_signed(rest) {
            let i = choose|i: int| 0 <= i < rest.len() && (#[trigger] rest[i]).is_signer;
            assert(accounts[i].is_signer);
        }
    }
}

/// An audit of a request's accounts meets a policy exactly when the accounts
/// satisfy it.
pub proof fn lemma_audit_meets(audit: SignerAudit, accounts: Seq<AccountRef>, policy: SignerPolicy)
    requires
        audit.covers(accounts),
    ensures
        audit.meets(policy) == policy.admits(accounts),
{
    lemma_signers_nonempty(accounts);
}

/// Looks at every account of the request, from first to last, and records
/// the signers. No account is skipped, whatever the earlier ones did.
pub fn inspect_signers(accounts: &[AccountRef]) -> (audit: SignerAudit)
    ensures
        audit.covers(accounts@),
{
    let mut signed_by: Vec<Pubkey> = Vec::new();
    let mut missing = false;
    let mut i: usize = 0;
    while i < accounts.len()
        invariant
            i <= accounts.len(),
            signed_by@ == signers(accounts@.take(i as int)),
            missing == !all_signed(accounts@.take(i as int)),
        decreases accounts.len() - i,
    {
        proof {
            accounts@.lemma_filter_map_take_succ(signer_key_of(), i as int);
            if all_signed(accounts@.take(i + 1)) {
                assert forall|j: int| 0 <= j < i implies (#[trigger] accounts@.take(
                    i as int,
                )[j]).is_signer by {
                    assert(accounts@.take(i + 1)[j].is_signer);
                }
                assert(accounts@.take(i + 1)[i as int].is_signer);
            }
        }
        match accounts[i].signer_key() {
            Some(key) => {
                signed_by.push(key);
            },
            None => {
                missing = true;
            },
        }
        i += 1;
    }
    assert(accounts@.take(i as int) == accounts@);
    SignerAudit { signed_by, missing }
}

/// The signer gate: admits the request exactly when its accounts satisfy the
/// policy, and turns it down with `MissingSigner` otherwise.
pub fn signer_gate(policy: SignerPolicy, accounts: &[AccountRef]) -> (r: Result<(), Rejection>)
    ensures
        r == if policy.admits(accounts@) {
            Ok::<(), Rejection>(())
        } else {
            Err::<(), Rejection>(Rejection::MissingSigner)
        },
{
    let audit = inspect_signers(accounts);
    proof {
        lemma_audit_meets(audit, accounts@, policy);
    }
    audit.verdict(policy)
}

} // verus!
