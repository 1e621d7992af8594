//! Addresses that the surrounding ledger derives or fixes.

use vstd::prelude::*;
use anchor_lang::prelude::Pubkey;
use anchor_lang::solana_program::system_program;
use crate::identity::{zero_bytes, Identity};

verus! {

/// The address that the ledger derives for a program from a tag and two
/// keys, or `None` where it derives none. It depends on these four byte
/// strings alone.
pub uninterp spec fn program_address(
    tag: Seq<u8>,
    first: Seq<u8>,
    second: Seq<u8>,
    program_id: Seq<u8>,
) -> Option<Seq<u8>>;

/// The tag under which bid receipts are addressed: the ASCII bytes of
/// `bid_receipt`.
pub open spec fn receipt_tag() -> Seq<u8> {
    seq![98u8, 105u8, 100u8, 95u8, 114u8, 101u8, 99u8, 101u8, 105u8, 112u8, 116u8]
}

/// The address at which the receipt of `bidder` on the day stored at
/// `auction_day_key` lives, under the program `program_id`.
pub open spec fn receipt_address(
    auction_day_key: Identity,
    bidder: Identity,
    program_id: Identity,
) -> Option<Seq<u8>> {
    program_address(receipt_tag(), auction_day_key@, bidder@, program_id@)
}

/// Calls `Pubkey::try_find_program_address` with the three seeds `tag`,
/// `first` and `second`. The contract claims only that the address found, or
/// its absence, is the one that `program_address` names for these bytes.
#[verifier::external_body]
pub(crate) fn find_address(
    tag: &[u8],
    first: &Identity,
    second: &Identity,
    program_id: &Identity,
) -> (r: Option<Identity>)
    ensures
        match r {
            Some(a) => program_address(tag@, first@, second@, program_id@) == Some(a@),
            None => program_address(tag@, first@, second@, program_id@) == None::<Seq<u8>>,
        },
{
    let program = Pubkey::new_from_array(program_id.bytes);
    match Pubkey::try_find_program_address(&[tag, &first.bytes, &second.bytes], &program) {
        Some((address, _)) => Some(Identity { bytes: address.to_bytes() }),
        None => None,
    }
}

/// Reads `system_program::ID`, the identity of the neutral custody
/// authority. The contract claims that it is the all-zero identity, which is
/// what its base-58 text of thirty-two ones decodes to.
#[verifier::external_body]
pub(crate) fn custody_authority() -> (r: Identity)
    ensures
        r@ == zero_bytes(),
{
    Identity { bytes: system_program::ID.to_bytes() }
}

/// The address at which the receipt of `bidder` on the day stored at
/// `auction_day_key` lives, if the ledger derives one.
pub fn derive_receipt_address(
    auction_day_key: &Identity,
    bidder: &Identity,
    program_id: &Identity,
) -> (r: Option<Identity>)
    ensures
        match r {
            Some(a) => receipt_address(*auction_day_key, *bidder, *program_id) == Some(a@),
            None => receipt_address(*auction_day_key, *bidder, *program_id) == None::<Seq<u8>>,
        },
{
    let tag: [u8; 11] = [98u8, 105u8, 100u8, 95u8, 114u8, 101u8, 99u8, 101u8, 105u8, 112u8, 116u8];
    assert(tag@ =~= receipt_tag());
    find_address(tag.as_slice(), auction_day_key, bidder, program_id)
}

/// Whether `owner` is the neutral custody authority that must own every
/// escrow.
pub fn is_custody_authority(owner: &Identity) -> (r: bool)
    ensures
        r == (owner@ == zero_bytes()),
{
    let authority = custody_authority();
    owner.same(&authority)
}

} // verus!
