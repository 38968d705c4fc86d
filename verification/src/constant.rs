//! The namespace tags under which the three kinds of record are addressed.

use vstd::prelude::*;

verus! {

/// Tag of a vault's configuration record: the ASCII bytes of `vault_config`.
pub const VAULT_CONFIG_SEED: [u8; 12] = [118, 97, 117, 108, 116, 95, 99, 111, 110, 102, 105, 103];

/// Tag of a vault's accounting record: the ASCII bytes of `vault`.
pub const VAULT_SEED: [u8; 5] = [118, 97, 117, 108, 116];

/// Tag of a depositor's position record: the ASCII bytes of `user_position`.
pub const USER_POSITION_SEED: [u8; 13] = [
    117,
    115,
    101,
    114,
    95,
    112,
    111,
    115,
    105,
    116,
    105,
    111,
    110,
];

} // verus!
