use comp_memo::account::{AccountRef, Pubkey};
use comp_memo::error::Rejection;
use comp_memo::signer::{inspect_signers, signer_gate, SignerAudit, SignerPolicy};

fn account(byte: u8, is_signer: bool) -> AccountRef {
    AccountRef {
        key: Pubkey { bytes: [byte; 32] },
        is_signer,
    }
}

#[test]
fn signer_key_is_the_key_of_a_signer_only() {
    assert_eq!(
        account(7, true).signer_key(),
        Some(Pubkey { bytes: [7; 32] })
    );
    assert_eq!(account(7, false).signer_key(), None);
}

#[test]
fn audit_records_every_signer_in_order() {
    let accounts = [
        account(1, true),
        account(2, false),
        account(3, true),
        account(4, false),
        account(5, true),
    ];
    let audit = inspect_signers(&accounts);
    assert_eq!(
        audit.signed_by,
        vec![
            Pubkey { bytes: [1; 32] },
            Pubkey { bytes: [3; 32] },
            Pubkey { bytes: [5; 32] },
        ]
    );
    assert!(audit.missing);
}

#[test]
fn audit_goes_on_after_an_account_that_did_not_sign() {
    let accounts = [account(1, false), account(2, true)];
    let audit = inspect_signers(&accounts);
    assert_eq!(audit.signed_by, vec![Pubkey { bytes: [2; 32] }]);
    assert!(audit.missing);
}

#[test]
fn audit_of_full_signing_misses_nothing() {
    let accounts = [account(1, true), account(2, true)];
    let audit = inspect_signers(&accounts);
    assert_eq!(audit.signed_by.len(), 2);
    assert!(!audit.missing);
}

#[test]
fn audit_of_no_accounts_is_empty() {
    let audit = inspect_signers(&[]);
    assert_eq!(
        audit,
        SignerAudit {
            signed_by: vec![],
            missing: false
        }
    );
}

#[test]
fn verdict_follows_the_policy() {
    let partial = SignerAudit {
        signed_by: vec![Pubkey { bytes: [1; 32] }],
        missing: true,
    };
    assert_eq!(
        partial.verdict(SignerPolicy::StrictAllSigners),
        Err(Rejection::MissingSigner)
    );
    assert_eq!(partial.verdict(SignerPolicy::WeakAnySigner), Ok(()));
    let nobody = SignerAudit {
        signed_by: vec![],
        missing: true,
    };
    assert_eq!(
        nobody.verdict(SignerPolicy::WeakAnySigner),
        Err(Rejection::MissingSigner)
    );
    let empty = SignerAudit {
        signed_by: vec![],
        missing: false,
    };
    assert_eq!(empty.verdict(SignerPolicy::StrictAllSigners), Ok(()));
    assert_eq!(
        empty.verdict(SignerPolicy::WeakAnySigner),
        Err(Rejection::MissingSigner)
    );
}

#[test]
fn strict_gate_needs_every_account() {
    let all = [account(1, true), account(2, true), account(3, true)];
    let last_missing = [account(1, true), account(2, true), account(3, false)];
    let first_missing = [account(1, false), account(2, true), account(3, true)];
    assert_eq!(signer_gate(SignerPolicy::StrictAllSigners, &all), Ok(()));
    assert_eq!(
        signer_gate(SignerPolicy::StrictAllSigners, &last_missing),
        Err(Rejection::MissingSigner)
    );
    assert_eq!(
        signer_gate(SignerPolicy::StrictAllSigners, &first_missing),
        Err(Rejection::MissingSigner)
    );
}

#[test]
fn weak_gate_needs_one_account() {
    let one = [account(1, false), account(2, false), account(3, true)];
    let none = [account(1, false), account(2, false)];
    assert_eq!(signer_gate(SignerPolicy::WeakAnySigner, &one), Ok(()));
    assert_eq!(
        signer_gate(SignerPolicy::WeakAnySigner, &none),
        Err(Rejection::MissingSigner)
    );
}

#[test]
fn gates_differ_on_no_accounts() {
    assert_eq!(signer_gate(SignerPolicy::StrictAllSigners, &[]), Ok(()));
    assert_eq!(
        signer_gate(SignerPolicy::WeakAnySigner, &[]),
        Err(Rejection::MissingSigner)
    );
}
