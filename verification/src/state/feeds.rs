//! Decoding of the two external price feeds from the data of their accounts.
//!
//! The layouts of both accounts belong to the feeds' own crates. What those
//! crates find in the data is named here and not spelled out.

use vstd::prelude::*;

verus! {

/// The failure the Pyth account decoder reports; its content is not examined.
#[verifier::external_type_specification]
#[verifier::external_body]
pub struct ExPythError(pyth_sdk_solana::PythError);

/// The failure the Switchboard account decoder reports; its content is not
/// examined.
#[verifier::external_type_specification]
#[verifier::external_body]
pub struct ExAnchorError(anchor_lang::error::Error);

/// Bytes a Switchboard aggregator account occupies, its 8-byte tag included.
pub const AGGREGATOR_ACCOUNT_LEN: usize = 3851;

/// The aggregate price that `pyth_sdk_solana::state::load_price_account`
/// finds in the data of a Solana price account, and `None` where it rejects
/// the data.
pub uninterp spec fn pyth_feed_price(data: Seq<u8>) -> Option<i64>;

/// The mantissa of the result that `switchboard_v2::AggregatorAccountData`
/// decodes from the data of an aggregator account and hands out with
/// `get_result`, and `None` where the data is rejected or holds no valid
/// round.
pub uninterp spec fn switchboard_feed_mantissa(data: Seq<u8>) -> Option<i128>;

/// Calls `pyth_sdk_solana::state::load_price_account` on the data of a price
/// account and hands back the aggregate price of the account it decodes. The
/// decoder reads the account in place and panics on a buffer that does not
/// start at an 8-byte boundary, so the data is first copied to one. The
/// outcome is claimed to depend on the bytes alone.
#[verifier::external_body]
pub(crate) fn pyth_aggregate_price(data: &[u8]) -> (r: Result<i64, pyth_sdk_solana::PythError>)
    ensures
        match r {
            Ok(price) => pyth_feed_price(data@) == Some(price),
            Err(_) => pyth_feed_price(data@) is None,
        },
{
    let mut words: Vec<u64> = Vec::new();
    words.resize(data.len().div_ceil(8), 0);
    let aligned: &mut [u8] = &mut bytemuck::cast_slice_mut(&mut words)[..data.len()];
    aligned.copy_from_slice(data);
    pyth_sdk_solana::state::load_price_account::<32, ()>(aligned).map(|account| account.agg.price)
}

/// Calls `switchboard_v2::AggregatorAccountData::new_from_bytes` on the data
/// of an aggregator account and `get_result` on what it decodes, and hands
/// back the mantissa of the latest confirmed result. Once the tag matches the
/// decoder slices the buffer at the full account length, so a shorter buffer
/// is excluded. The outcome is claimed to depend on the bytes alone.
#[verifier::external_body]
pub(crate) fn switchboard_latest_mantissa(data: &[u8]) -> (r: Result<
    i128,
    anchor_lang::error::Error,
>)
    requires
        data@.len() >= AGGREGATOR_ACCOUNT_LEN,
    ensures
        match r {
            Ok(mantissa) => switchboard_feed_mantissa(data@) == Some(mantissa),
            Err(_) => switchboard_feed_mantissa(data@) is None,
        },
{
    let feed = switchboard_v2::AggregatorAccountData::new_from_bytes(data)?;
    let result = feed.get_result()?;
    Ok(result.mantissa)
}

} // verus!
