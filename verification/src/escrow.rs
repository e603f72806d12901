use crate::identity::Identity;
use solana_program::program_pack::Pack;
use vstd::bytes::*;
use vstd::prelude::*;

verus! {

/// One call that an operation orders against the external token-custody
/// service. `custody_signed` tells whether the call is authorized by the
/// custody authority's derived signature rather than by a caller's own.
#[derive(Clone, Copy, PartialEq, Eq, Structural, Debug)]
pub enum TokenAction {
    /// Move `amount` units from `source` to `destination` under `authority`.
    Transfer {
        source: Identity,
        destination: Identity,
        authority: Identity,
        custody_signed: bool,
        amount: u64,
    },
    /// Reassign which authority may act on the temporary account `account`.
    SetAuthority {
        account: Identity,
        new_authority: Identity,
        current_authority: Identity,
        custody_signed: bool,
    },
    /// Reclaim the emptied temporary account `account`, sending its storage
    /// deposit to `rent_destination`.
    CloseAccount {
        account: Identity,
        rent_destination: Identity,
        authority: Identity,
        custody_signed: bool,
    },
}

/// The custody-authority address and bump derived for a program's 32-byte
/// identity, or none in the statistically improbable case that no bump
/// yields a valid address.
pub uninterp spec fn custody_authority_of(program: Seq<u8>) -> Option<(Seq<u8>, u8)>;

/// Relies on solana_program::pubkey::Pubkey::try_find_program_address with
/// the fixed seed label "escrow": the derived address and bump depend on the
/// program identity alone, and None comes only when no bump yields a valid
/// address.
#[verifier::external_body]
pub(crate) fn derive_custody_authority(program_id: &Identity) -> (r: Option<(Identity, u8)>)
    ensures
        match r {
            Some(p) => custody_authority_of(program_id@) == Some((p.0@, p.1)),
            None => custody_authority_of(program_id@) is None,
        },
{
    let bytes: [u8; 32] = program_id.to_bytes().try_into().unwrap();
    let pk = solana_program::pubkey::Pubkey::new_from_array(bytes);
    solana_program::pubkey::Pubkey::try_find_program_address(&[b"escrow"], &pk).map(
        |(p, b)| (crate::codec::identity_from_bytes(&p.to_bytes().to_vec()), b),
    )
}

/// A 4-byte optional-field tag at `off`: the single byte 0 or 1 followed by
/// three zero bytes.
pub open spec fn spec_coption_tag_ok(d: Seq<u8>, off: int) -> bool {
    &&& (d[off] == 0 || d[off] == 1)
    &&& d[off + 1] == 0
    &&& d[off + 2] == 0
    &&& d[off + 3] == 0
}

/// A byte image that the token-custody service accepts as an initialized
/// holding account: 165 bytes, well-formed optional delegate (offset 72),
/// native marker (offset 109) and close authority (offset 129), and an
/// account state byte (offset 108) that is initialized or frozen.
pub open spec fn spec_token_account_ok(d: Seq<u8>) -> bool {
    &&& d.len() == 165
    &&& spec_coption_tag_ok(d, 72)
    &&& (d[108] == 1 || d[108] == 2)
    &&& spec_coption_tag_ok(d, 109)
    &&& spec_coption_tag_ok(d, 129)
}

/// The unit balance a holding account's byte image records: the little-endian
/// 64-bit field at offset 64.
pub open spec fn spec_token_amount(d: Seq<u8>) -> u64 {
    spec_u64_from_le_bytes(d.subrange(64, 72))
}

/// Relies on spl_token::state::Account::unpack: it accepts exactly the
/// 165-byte images whose optional-field tags are 0 or 1 and whose state byte
/// marks the account initialized or frozen, and it reads the balance from the
/// little-endian field at offset 64.
#[allow(deprecated)]
#[verifier::external_body]
pub(crate) fn token_account_amount(data: &Vec<u8>) -> (r: Option<u64>)
    ensures
        r == (if spec_token_account_ok(data@) {
            Some(spec_token_amount(data@))
        } else {
            None::<u64>
        }),
{
    <spl_token::state::Account as Pack>::unpack(data.as_slice()).ok().map(
        |a: spl_token::state::Account| a.amount,
    )
}

} // verus!
