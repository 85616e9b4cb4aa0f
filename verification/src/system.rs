//! What the host framework fixes about the system token program: where it
//! lives and which properties it gives a fungible token by default.
//!
//! Both facts are taken from `multiversx_sc` at run time. Nothing here is
//! proved: each function states what that crate's source shows.

use crate::address::Address;
use vstd::prelude::*;

verus! {

/// The properties of a fungible token, as the system token program takes them
/// at issuance.
#[derive(Clone, Copy, Debug, PartialEq, Eq, Structural)]
pub struct TokenProperties {
    pub num_decimals: usize,
    pub can_freeze: bool,
    pub can_wipe: bool,
    pub can_pause: bool,
    pub can_mint: bool,
    pub can_burn: bool,
    pub can_change_owner: bool,
    pub can_upgrade: bool,
    pub can_add_special_roles: bool,
}

/// The address of the system token program: 32 bytes, all zero but byte 9,
/// which is 1, byte 29, which is 2, and the last two, which are 255.
pub open spec fn system_program_address() -> Seq<u8> {
    Seq::new(
        32,
        |i: int|
            if i == 9 {
                1u8
            } else if i == 29 {
                2u8
            } else if i >= 30 {
                255u8
            } else {
                0u8
            },
    )
}

/// The default properties of a fungible token: no decimals; freezing, wiping,
/// pausing, a change of owner, an upgrade and special roles allowed; minting
/// and burning not.
pub open spec fn default_fungible_properties() -> TokenProperties {
    TokenProperties {
        num_decimals: 0,
        can_freeze: true,
        can_wipe: true,
        can_pause: true,
        can_mint: false,
        can_burn: false,
        can_change_owner: true,
        can_upgrade: true,
        can_add_special_roles: true,
    }
}

/// Calls `multiversx_sc::types::ESDTSystemSCAddress::to_address` and hands out
/// its 32 bytes.
///
/// Trusted: that function returns a constant of the crate, and the contract
/// claims that the constant is [`system_program_address`].
#[verifier::external_body]
pub(crate) fn esdt_system_sc_address() -> (r: Address)
    ensures
        r@ == system_program_address(),
{
    Address { bytes: *multiversx_sc::types::ESDTSystemSCAddress.to_address().as_array() }
}

/// Calls `multiversx_sc::types::system_proxy::FungibleTokenProperties::default`
/// and copies its fields.
///
/// Trusted: the contract claims that the fields hold the values which that
/// function writes, repeated in [`default_fungible_properties`].
#[verifier::external_body]
pub(crate) fn fungible_token_properties_default() -> (r: TokenProperties)
    ensures
        r == default_fungible_properties(),
{
    let p = multiversx_sc::types::system_proxy::FungibleTokenProperties::default();
    TokenProperties {
        num_decimals: p.num_decimals,
        can_freeze: p.can_freeze,
        can_wipe: p.can_wipe,
        can_pause: p.can_pause,
        can_mint: p.can_mint,
        can_burn: p.can_burn,
        can_change_owner: p.can_change_owner,
        can_upgrade: p.can_upgrade,
        can_add_special_roles: p.can_add_special_roles,
    }
}

} // verus!
