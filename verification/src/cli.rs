//! Arguments of the admin command line and the instructions they build.
use vstd::prelude::*;

use crate::pubkey::{parse_pubkey, spec_parse_pubkey, Pubkey};
use crate::sdk::{
    boost_pda, boost_seeds, deactivate, deactivate_built, new, new_built, spec_program_address, update_boost,
    update_boost_built, Instruction,
};
use crate::consts::PROGRAM_ID;
use crate::state::boost::Boost;

verus! {

/// Arguments of `initialize`.
#[derive(Clone, Debug)]
pub struct InitializeArgs {}

/// Arguments of `new`: the mint (base58), the expiry and the weight of the new boost.
#[derive(Clone, Debug)]
pub struct NewArgs {
    pub mint: String,
    pub expires_at: i64,
    pub multiplier: u64,
}

/// Arguments of `update-boost`: the mint (base58) and, optionally, a new expiry and weight.
#[derive(Clone, Debug)]
pub struct UpdateBoostArgs {
    pub mint: String,
    pub expires_at: Option<i64>,
    pub bps: Option<u64>,
}

/// Arguments of `boost`: the mint (base58) of the boost to show.
#[derive(Clone, Debug)]
pub struct GetBoostArgs {
    pub mint: String,
}

/// Arguments of `deactivate`: the mint (base58) of the boost to remove from the directory.
#[derive(Clone, Debug)]
pub struct DeactivateArgs {
    pub mint: String,
}

/// Arguments of `config`.
#[derive(Clone, Debug)]
pub struct ConfigArgs {}

/// `r` is the boost address of the mint that `text` names: `None` when the text is no
/// address or the address does not derive.
pub open spec fn boost_address_of(text: Seq<char>, r: Option<Pubkey>) -> bool {
    match spec_parse_pubkey(text) {
        None => r is None,
        Some(mint) => match spec_program_address(boost_seeds(mint), PROGRAM_ID@) {
            None => r is None,
            Some((key, _)) => r matches Some(k) && k.bytes@ == key,
        },
    }
}

/// The boost address of the mint named by `text`.
fn boost_address(text: &str) -> (r: Option<Pubkey>)
    ensures
        boost_address_of(text@, r),
{
    let mint = parse_pubkey(text)?;
    match boost_pda(mint) {
        Some((key, _)) => Some(key),
        None => None,
    }
}

impl NewArgs {
    /// The new-boost instruction signed by `signer`; `None` when the mint is no address (or
    /// its accounts do not derive).
    pub fn instruction(&self, signer: Pubkey) -> (r: Option<Instruction>)
        ensures
            match spec_parse_pubkey(self.mint@) {
                None => r is None,
                Some(bytes) => exists|mint: Pubkey|
                    mint.bytes@ == bytes && new_built(r, signer, mint, self.expires_at, self.multiplier),
            },
    {
        let mint = parse_pubkey(self.mint.as_str())?;
        new(signer, mint, self.expires_at, self.multiplier)
    }
}

impl DeactivateArgs {
    /// The deactivate instruction signed by `signer`; `None` when the mint is no address (or
    /// its accounts do not derive).
    pub fn instruction(&self, signer: Pubkey) -> (r: Option<Instruction>)
        ensures
            match spec_parse_pubkey(self.mint@) {
                None => r is None,
                Some(bytes) => exists|mint: Pubkey| mint.bytes@ == bytes && deactivate_built(r, signer, mint),
            },
    {
        let mint = parse_pubkey(self.mint.as_str())?;
        deactivate(signer, mint)
    }
}

impl GetBoostArgs {
    /// The address of the boost to show.
    pub fn boost_address(&self) -> (r: Option<Pubkey>)
        ensures
            boost_address_of(self.mint@, r),
    {
        boost_address(self.mint.as_str())
    }
}

impl UpdateBoostArgs {
    /// The address of the boost to update.
    pub fn boost_address(&self) -> (r: Option<Pubkey>)
        ensures
            boost_address_of(self.mint@, r),
    {
        boost_address(self.mint.as_str())
    }

    /// The expiry and weight to send: each given one, else the boost's current one.
    pub fn resolve(&self, boost: &Boost) -> (r: (i64, u64))
        ensures
            r.0 == match self.expires_at { Some(t) => t, None => boost.expires_at },
            r.1 == match self.bps { Some(w) => w, None => boost.weight },
    {
        (self.expires_at.unwrap_or(boost.expires_at), self.bps.unwrap_or(boost.weight))
    }

    /// The update-boost instruction signed by `signer` for the boost `boost` holds at the
    /// mint's address: the given expiry and weight, else the boost's current ones. `None` when
    /// the mint is no address (or the accounts do not derive).
    pub fn instruction(&self, signer: Pubkey, boost: &Boost) -> (r: Option<Instruction>)
        ensures
            boost_address_of(self.mint@, None) ==> r is None,
            !boost_address_of(self.mint@, None) ==> exists|address: Pubkey|
                boost_address_of(self.mint@, Some(address)) && update_boost_built(
                    r,
                    signer,
                    address,
                    match self.expires_at { Some(t) => t, None => boost.expires_at },
                    match self.bps { Some(w) => w, None => boost.weight },
                ),
    {
        let address = self.boost_address()?;
        let (expires_at, weight) = self.resolve(boost);
        update_boost(signer, address, expires_at, weight)
    }
}

} // verus!
