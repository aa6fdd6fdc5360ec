//! The records a memo request works with: keys, the accounts attached to a
//! request, and the compressed account that a successful request produces.

use vstd::prelude::*;

verus! {

/// A 32-byte identity: a program, an account, a state tree or a queue.
#[derive(Clone, Copy, Debug, PartialEq, Eq)]
pub struct Pubkey {
    pub bytes: [u8; 32],
}

impl View for Pubkey {
    type V = Seq<u8>;

    open spec fn view(&self) -> Seq<u8> {
        self.bytes@
    }
}

/// One account attached to a request, as far as the handler reads it: who it
/// is and whether it signed.
#[derive(Clone, Copy, Debug, PartialEq, Eq)]
pub struct AccountRef {
    pub key: Pubkey,
    pub is_signer: bool,
}

impl AccountRef {
    /// The key of the account if it signed the request.
    pub open spec fn spec_signer_key(self) -> Option<Pubkey> {
        if self.is_signer {
            Some(self.key)
        } else {
            None
        }
    }

    /// The key of the account if it signed the request, `None` otherwise.
    pub fn signer_key(&self) -> (key: Option<Pubkey>)
        ensures
            key == self.spec_signer_key(),
    {
        if self.is_signer {
            Some(self.key)
        } else {
            None
        }
    }
}

/// The typed data blob of a compressed account.
#[derive(Clone, Debug, PartialEq, Eq)]
pub struct CompressedAccountData {
    pub discriminator: [u8; 8],
    pub data: Vec<u8>,
    pub data_hash: [u8; 32],
}

/// What a `CompressedAccountData` holds, as byte sequences.
pub struct CompressedAccountDataView {
    pub discriminator: Seq<u8>,
    pub data: Seq<u8>,
    pub data_hash: Seq<u8>,
}

impl View for CompressedAccountData {
    type V = CompressedAccountDataView;

    open spec fn view(&self) -> CompressedAccountDataView {
        CompressedAccountDataView {
            discriminator: self.discriminator@,
            data: self.data@,
            data_hash: self.data_hash@,
        }
    }
}

/// A compressed account, ready to be handed to the state tree.
#[derive(Clone, Debug, PartialEq, Eq)]
pub struct CompressedAccount {
    pub owner: Pubkey,
    pub lamports: u64,
    pub address: Option<[u8; 32]>,
    pub data: Option<CompressedAccountData>,
}

/// What a `CompressedAccount` holds, as byte sequences.
pub struct CompressedAccountView {
    pub owner: Seq<u8>,
    pub lamports: u64,
    pub address: Option<Seq<u8>>,
    pub data: Option<CompressedAccountDataView>,
}

impl View for CompressedAccount {
    type V = CompressedAccountView;

    open spec fn view(&self) -> CompressedAccountView {
        CompressedAccountView {
            owner: self.owner@,
            lamports: self.lamports,
            address: match self.address {
                Some(address) => Some(address@),
                None => None,
            },
            data: match self.data {
                Some(data) => Some(data@),
                None => None,
            },
        }
    }
}

} // verus!
