use vstd::prelude::*;
use crate::pubkey::Pubkey;

verus! {

/// Bytes of a market account besides its name: the 8-byte discriminator, the
/// authority, the bump and the name's length prefix.
pub const MARKET_FIXED_SPACE: usize = 45;

/// A group of reserves under one authority.
pub struct Market {
    /// Address that may add reserves.
    pub authority: Pubkey,
    pub bump: u8,
    pub name: String,
}

impl Market {
    pub fn new(authority: Pubkey, bump: u8, name: String) -> (r: Market)
        ensures
            r.authority == authority,
            r.bump == bump,
            r.name@ == name@,
    {
        Market { authority, bump, name }
    }

    /// Account size for a market named `name`; names are ASCII, one byte per character.
    pub fn space(name: &str) -> (r: usize)
        requires
            forall|i: int| 0 <= i < name@.len() ==> (name@[i] as u32) < 128,
            name@.len() + MARKET_FIXED_SPACE <= usize::MAX,
        ensures
            r == MARKET_FIXED_SPACE + name@.len(),
    {
        MARKET_FIXED_SPACE + name.unicode_len()
    }
}

} // verus!
