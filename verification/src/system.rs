//! The system module: blockchain metadata. It tracks the current block
//! number and a per-account nonce counter, and is driven solely by the
//! block executor — it exposes no dispatchable operations.

use vstd::hash_map::StringHashMap;
use vstd::prelude::*;

verus! {

/// Nonce of `account` under nonce map `m`: its stored entry, or zero if
/// the account has never authored an extrinsic.
pub open spec fn spec_nonce_of(m: Map<Seq<char>, u32>, account: Seq<char>) -> u32 {
    if m.contains_key(account) {
        m[account]
    } else {
        0
    }
}

/// Low-level state every other module depends on: the current block number
/// and, for each account, how many extrinsics that account has authored.
pub struct Pallet {
    /// The current block number; zero before the first block is executed.
    block_number: u32,
    /// How many extrinsics each account has authored; absent entries read
    /// as zero.
    nonce: StringHashMap<u32>,
}

impl Pallet {
    /// The current block number.
    pub closed spec fn spec_block_number(&self) -> u32 {
        self.block_number
    }

    /// The nonce map as it is stored: only accounts that have authored an
    /// extrinsic are present.
    pub closed spec fn nonces(&self) -> Map<Seq<char>, u32> {
        self.nonce@
    }

    /// The nonce of `account`: its stored entry, or zero if it has never
    /// authored an extrinsic.
    pub open spec fn nonce_of(&self, account: Seq<char>) -> u32 {
        spec_nonce_of(self.nonces(), account)
    }

    /// Creates the module in its pre-genesis state: block number zero and
    /// every account's nonce zero.
    pub fn new() -> (p: Pallet)
        ensures
            p.spec_block_number() == 0,
            p.nonces() == Map::<Seq<char>, u32>::empty(),
            forall|a: Seq<char>| p.nonce_of(a) == 0,
    {
        Pallet { block_number: 0, nonce: StringHashMap::new() }
    }

    /// Reads the current block number.
    pub fn block_number(&self) -> (n: u32)
        ensures
            n == self.spec_block_number(),
    {
        self.block_number
    }

    /// Advances the block number by exactly one; nonces are untouched.
    pub fn inc_block_number(&mut self)
        requires
            old(self).spec_block_number() < u32::MAX,
        ensures
            final(self).spec_block_number() == old(self).spec_block_number() + 1,
            final(self).nonces() == old(self).nonces(),
    {
        self.block_number = self.block_number + 1;
    }

    /// Reads the nonce of `account`; an account that has never authored an
    /// extrinsic reads as zero.
    pub fn get_nonce(&self, account: &str) -> (n: u32)
        ensures
            n == self.nonce_of(account@),
    {
        match self.nonce.get(account) {
            Some(n) => *n,
            None => 0,
        }
    }

    /// Bumps the nonce of `account` by exactly one, leaving every other
    /// account's nonce and the block number unchanged.
    pub fn inc_nonce(&mut self, account: &String)
        requires
            old(self).nonce_of(account@) < u32::MAX,
        ensures
            final(self).spec_block_number() == old(self).spec_block_number(),
            final(self).nonces() == old(self).nonces().insert(
                account@,
                (old(self).nonce_of(account@) + 1) as u32,
            ),
            final(self).nonce_of(account@) == old(self).nonce_of(account@) + 1,
            forall|a: Seq<char>|
                a != account@ ==> final(self).nonce_of(a) == old(self).nonce_of(a),
    {
        let nonce: u32 = self.get_nonce(account.as_str()) + 1;
        self.nonce.insert(account.clone(), nonce);
    }
}

} // verus!
