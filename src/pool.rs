use vstd::prelude::*;

verus! {

/// An opaque 32-byte identifier of an asset type.
#[derive(Debug, Clone, Copy)]
pub struct Pubkey {
    pub bytes: [u8; 32],
}

impl Pubkey {
    /// The identifier made of `bytes`.
    pub fn new(bytes: [u8; 32]) -> (r: Pubkey)
        ensures
            r.bytes@ == bytes@,
    {
        Pubkey { bytes }
    }

    /// The 32 bytes of this identifier.
    pub fn to_bytes(&self) -> (r: [u8; 32])
        ensures
            r@ == self.bytes@,
    {
        self.bytes
    }
}

impl PartialEq for Pubkey {
    fn eq(&self, other: &Pubkey) -> (r: bool)
        ensures
            r == (self.bytes@ == other.bytes@),
    {
        let mut i: usize = 0;
        while i < 32
            invariant
                0 <= i <= 32,
                forall|j: int| 0 <= j < i ==> self.bytes@[j] == other.bytes@[j],
            decreases 32 - i,
        {
            if self.bytes[i] != other.bytes[i] {
                return false;
            }
            i = i + 1;
        }
        proof {
            assert(self.bytes@ =~= other.bytes@);
        }
        true
    }
}

impl vstd::std_specs::cmp::PartialEqSpecImpl for Pubkey {
    open spec fn obeys_eq_spec() -> bool {
        true
    }

    open spec fn eq_spec(&self, other: &Pubkey) -> bool {
        self.bytes@ == other.bytes@
    }
}

impl Eq for Pubkey {
}

/// The persisted record of one pool: the address nonce, the two asset
/// identifiers and the reserve of each asset.
#[derive(Debug, Clone, Copy)]
pub struct DataAccount {
    pub bump: u8,
    pub token_1_mint: Pubkey,
    pub token_2_mint: Pubkey,
    pub token_1_balance: u64,
    pub token_2_balance: u64,
}

impl DataAccount {
    /// Whether `token` names the pool's first asset.
    pub open spec fn is_token_1_spec(&self, token: Pubkey) -> bool {
        token.bytes@ == self.token_1_mint.bytes@
    }

    /// Whether `token` names the pool's first asset; any other identifier is
    /// taken as the second asset.
    pub fn is_token_1(&self, token: &Pubkey) -> (r: bool)
        ensures
            r == self.is_token_1_spec(*token),
    {
        *token == self.token_1_mint
    }

    /// The record with its reserves replaced.
    pub open spec fn with_balances(self, balance_1: u64, balance_2: u64) -> DataAccount {
        DataAccount { token_1_balance: balance_1, token_2_balance: balance_2, ..self }
    }

    /// Both reserves are zero.
    pub open spec fn is_empty(&self) -> bool {
        self.token_1_balance == 0 && self.token_2_balance == 0
    }
}

/// A fresh pool record for two assets: both reserves start at zero.
pub fn initialize(bump: u8, token_1_mint: Pubkey, token_2_mint: Pubkey) -> (r: DataAccount)
    ensures
        r.bump == bump,
        r.token_1_mint == token_1_mint,
        r.token_2_mint == token_2_mint,
        r.token_1_balance == 0,
        r.token_2_balance == 0,
{
    DataAccount { bump, token_1_mint, token_2_mint, token_1_balance: 0, token_2_balance: 0 }
}

} // verus!
