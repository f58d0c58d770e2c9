use vstd::prelude::*;
use crate::address::Address;

verus! {

/// A plain account: the program that owns it, its balance and its data.
#[derive(Debug)]
pub struct SystemAccount {
    pub key: Address,
    pub owner: Address,
    pub lamports: u64,
    pub data: Vec<u8>,
}

/// A token mint.
#[derive(Clone, Copy, Debug)]
pub struct MintAccount {
    pub key: Address,
    pub lamports: u64,
    pub is_initialized: bool,
    pub supply: u64,
    pub decimals: u8,
    pub mint_authority: Address,
}

/// A token balance account of one owner for one mint.
#[derive(Clone, Copy, Debug)]
pub struct TokenAccount {
    pub key: Address,
    pub mint: Address,
    pub owner: Address,
    pub amount: u64,
}

/// The system program's address, which owns every account not yet created.
pub open spec fn system_program_id() -> Seq<u8> {
    Seq::new(32, |i: int| 0u8)
}

pub fn system_program_address() -> (r: Address)
    ensures
        r@ == system_program_id(),
{
    let r = Address { bytes: [0u8; 32] };
    assert(r@ =~= system_program_id());
    r
}

impl SystemAccount {
    /// An account exists once it holds lamports or data, or another program owns it.
    pub open spec fn in_use(&self) -> bool {
        self.lamports != 0 || self.data@.len() != 0 || self.owner@ != system_program_id()
    }

    pub fn is_in_use(&self) -> (r: bool)
        ensures
            r == self.in_use(),
    {
        let system = system_program_address();
        self.lamports != 0 || self.data.len() != 0 || !self.owner.same_as(&system)
    }
}

/// What the hook asks the token program to do: mint `amount` of `mint` into `destination`,
/// signed by `authority` through its seeds, bump included.
#[derive(Debug)]
pub struct MintRequest {
    pub token_program: Address,
    pub mint: Address,
    pub destination: Address,
    pub authority: Address,
    pub amount: u64,
    pub signer_seeds: Vec<Vec<u8>>,
}

} // verus!
