//! Where the records are kept.
//!
//! A record is addressed by the seeds of its kind, not by an address that
//! somebody assigned: the tag of the kind, followed by the identities that
//! tell the record from the others of its kind. Whoever knows those can find
//! the record. The host derives the address itself from the seeds.

use vstd::prelude::*;

use crate::constant::{USER_POSITION_SEED, VAULT_CONFIG_SEED, VAULT_SEED};
use crate::identity::Identity;

verus! {

/// The seeds of the configuration record of `token_mint`.
pub open spec fn vault_config_location(token_mint: Seq<u8>) -> Seq<Seq<u8>> {
    seq![VAULT_CONFIG_SEED@, token_mint]
}

/// The seeds of the vault record of `token_mint`.
pub open spec fn vault_location(token_mint: Seq<u8>) -> Seq<Seq<u8>> {
    seq![VAULT_SEED@, token_mint]
}

/// The seeds of the position that `depositor` holds in the vault of
/// `token_mint`.
pub open spec fn user_position_location(token_mint: Seq<u8>, depositor: Seq<u8>) -> Seq<Seq<u8>> {
    seq![USER_POSITION_SEED@, token_mint, depositor]
}

/// The seeds of the configuration record of `token_mint`.
pub fn vault_config_seeds<'a>(token_mint: &'a Identity) -> (seeds: [&'a [u8]; 2])
    ensures
        seeds.deep_view() == vault_config_location(token_mint@),
{
    let seeds = [VAULT_CONFIG_SEED.as_slice(), token_mint.as_bytes()];
    assert(seeds@[0].deep_view() =~= VAULT_CONFIG_SEED@);
    assert(seeds@[1].deep_view() =~= token_mint@);
    assert(seeds.deep_view() =~= vault_config_location(token_mint@));
    seeds
}

/// The seeds of the vault record of `token_mint`.
pub fn vault_seeds<'a>(token_mint: &'a Identity) -> (seeds: [&'a [u8]; 2])
    ensures
        seeds.deep_view() == vault_location(token_mint@),
{
    let seeds = [VAULT_SEED.as_slice(), token_mint.as_bytes()];
    assert(seeds@[0].deep_view() =~= VAULT_SEED@);
    assert(seeds@[1].deep_view() =~= token_mint@);
    assert(seeds.deep_view() =~= vault_location(token_mint@));
    seeds
}

/// The seeds of the position that `depositor` holds in the vault of
/// `token_mint`.
pub fn user_position_seeds<'a>(token_mint: &'a Identity, depositor: &'a Identity) -> (seeds: [&'a [
    u8
]; 3])
    ensures
        seeds.deep_view() == user_position_location(token_mint@, depositor@),
{
    let seeds = [USER_POSITION_SEED.as_slice(), token_mint.as_bytes(), depositor.as_bytes()];
    assert(seeds@[0].deep_view() =~= USER_POSITION_SEED@);
    assert(seeds@[1].deep_view() =~= token_mint@);
    assert(seeds@[2].deep_view() =~= depositor@);
    assert(seeds.deep_view() =~= user_position_location(token_mint@, depositor@));
    seeds
}

/// No two records share their seeds: records of different kinds never do,
/// and two records of one kind do only where they belong to the same token
/// mint and, for positions, to the same depositor.
pub proof fn lemma_locations_are_distinct(
    token_mint: Seq<u8>,
    depositor: Seq<u8>,
    other_mint: Seq<u8>,
    other_depositor: Seq<u8>,
)
    ensures
        vault_config_location(token_mint) != vault_location(other_mint),
        vault_config_location(token_mint) != user_position_location(other_mint, other_depositor),
        vault_location(token_mint) != user_position_location(other_mint, other_depositor),
        vault_config_location(token_mint) == vault_config_location(other_mint) ==> token_mint
            == other_mint,
        vault_location(token_mint) == vault_location(other_mint) ==> token_mint == other_mint,
        user_position_location(token_mint, depositor) == user_position_location(
            other_mint,
            other_depositor,
        ) ==> token_mint == other_mint && depositor == other_depositor,
{
    assert(vault_config_location(token_mint)[0].len() == 12);
    assert(vault_location(other_mint)[0].len() == 5);
    assert(vault_config_location(token_mint).len() == 2);
    assert(vault_location(token_mint).len() == 2);
    assert(user_position_location(other_mint, other_depositor).len() == 3);
    assert(vault_config_location(token_mint)[1] == token_mint);
    assert(vault_config_location(other_mint)[1] == other_mint);
    assert(vault_location(token_mint)[1] == token_mint);
    assert(vault_location(other_mint)[1] == other_mint);
    assert(user_position_location(token_mint, depositor)[1] == token_mint);
    assert(user_position_location(token_mint, depositor)[2] == depositor);
    assert(user_position_location(other_mint, other_depositor)[1] == other_mint);
    assert(user_position_location(other_mint, other_depositor)[2] == other_depositor);
}

} // verus!
