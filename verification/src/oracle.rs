//! The price oracle: reading a price update and checking that it is for the
//! right feed and recent enough to settle at.

use vstd::prelude::*;
use anchor_lang::AnchorDeserialize;
use pyth_solana_receiver_sdk::price_update::PriceUpdateV2;
use crate::constants::PYTH_STALENESS_THRESHOLD;
use crate::errors::ErrorCode;
use crate::state::pubkey::bytes32_eq;

verus! {

/// What an oracle price update says about one feed.
#[derive(Clone, Copy, Debug, PartialEq, Eq)]
pub struct PriceUpdate {
    /// The feed that the update is for.
    pub feed_id: [u8; 32],
    /// The price; the oracle may report it with a sign.
    pub price: i64,
    /// Confidence interval around the price.
    pub conf: u64,
    /// Decimal exponent of price and confidence.
    pub exponent: i32,
    /// Time, in seconds, at which the price was published.
    pub publish_time: i64,
}

/// A price taken from an update.
#[derive(Clone, Copy, Debug, PartialEq, Eq)]
pub struct Price {
    pub price: i64,
    pub conf: u64,
    pub exponent: i32,
    pub publish_time: i64,
}

/// What the bytes of a price update account hold, as the oracle's own
/// decoder reads them: the update, or `None` where the bytes are not a
/// well-formed update.
pub uninterp spec fn decoded_price_update(data: Seq<u8>) -> Option<PriceUpdate>;

/// Decodes a price update with `try_from_slice` of `AnchorDeserialize`, as
/// `pyth_solana_receiver_sdk` implements it for its `PriceUpdateV2`, and
/// keeps the price message's feed, price, confidence, exponent and publish
/// time; `None` where the decoder fails, as it does on bytes left over.
/// Trusted: the result is a function of the bytes alone, named
/// `decoded_price_update`; nothing more is claimed of it.
#[verifier::external_body]
pub(crate) fn decode_price_update(data: &[u8]) -> (update: Option<PriceUpdate>)
    ensures
        update == decoded_price_update(data@),
{
    match PriceUpdateV2::try_from_slice(data) {
        Ok(update) => Some(
            PriceUpdate {
                feed_id: update.price_message.feed_id,
                price: update.price_message.price,
                conf: update.price_message.conf,
                exponent: update.price_message.exponent,
                publish_time: update.price_message.publish_time,
            },
        ),
        Err(_) => None,
    }
}

/// The size of a signed price: its absolute value.
pub open spec fn price_magnitude(price: i64) -> u64 {
    if price >= 0 {
        price as u64
    } else {
        (-price) as u64
    }
}

/// Whether an update published at `publish_time` is recent enough at `now`:
/// less than `PYTH_STALENESS_THRESHOLD` seconds old.
pub open spec fn is_fresh(now: i64, publish_time: i64) -> bool {
    now - publish_time < PYTH_STALENESS_THRESHOLD
}

/// The settlement price that an update yields for the feed `feed_id` at time
/// `now`, or the error with which it is turned down: `PriceTooStale` where
/// no update could be decoded, `PythFeedIdMismatch` where it is for another
/// feed, `PriceTooStale` where it is not fresh. The sign of the oracle's
/// price is dropped, and the price is taken as it stands: the update's
/// exponent is not applied to it.
pub open spec fn settlement_price(update: Option<PriceUpdate>, feed_id: [u8; 32], now: i64)
    -> Result<u64, ErrorCode> {
    match update {
        None => Err(ErrorCode::PriceTooStale),
        Some(update) => {
            if update.feed_id != feed_id {
                Err(ErrorCode::PythFeedIdMismatch)
            } else if !is_fresh(now, update.publish_time) {
                Err(ErrorCode::PriceTooStale)
            } else {
                Ok(price_magnitude(update.price))
            }
        },
    }
}

impl PriceUpdate {
    /// The price of this update if it is for the feed `feed_id`, whatever its
    /// age; `None` if it is for another feed.
    pub fn get_price_unchecked(&self, feed_id: &[u8; 32]) -> (price: Option<Price>)
        ensures
            price == if self.feed_id == *feed_id {
                Some(
                    Price {
                        price: self.price,
                        conf: self.conf,
                        exponent: self.exponent,
                        publish_time: self.publish_time,
                    },
                )
            } else {
                None
            },
    {
        if bytes32_eq(&self.feed_id, feed_id) {
            Some(
                Price {
                    price: self.price,
                    conf: self.conf,
                    exponent: self.exponent,
                    publish_time: self.publish_time,
                },
            )
        } else {
            None
        }
    }
}

/// The absolute value of a signed price.
pub fn magnitude(price: i64) -> (size: u64)
    ensures
        size == price_magnitude(price),
{
    if price >= 0 {
        price as u64
    } else if price == i64::MIN {
        0x8000_0000_0000_0000u64
    } else {
        (-price) as u64
    }
}

/// Checks a decoded update against the asset's feed and the clock and gives
/// the price to settle at.
pub fn check_price_update(update: Option<PriceUpdate>, feed_id: &[u8; 32], now: i64) -> (r: Result<
    u64,
    ErrorCode,
>)
    ensures
        r == settlement_price(update, *feed_id, now),
{
    let update: PriceUpdate = match update {
        Some(update) => update,
        None => { return Err(ErrorCode::PriceTooStale); },
    };
    let price: Price = match update.get_price_unchecked(feed_id) {
        Some(price) => price,
        None => { return Err(ErrorCode::PythFeedIdMismatch); },
    };
    let age: i128 = now as i128 - price.publish_time as i128;
    if !(age < PYTH_STALENESS_THRESHOLD as i128) {
        return Err(ErrorCode::PriceTooStale);
    }
    Ok(magnitude(price.price))
}

/// Reads the price to settle at from the bytes of a price update account.
/// The result is that of `settlement_price` on what the bytes decode to.
pub fn read_settlement_price(data: &[u8], feed_id: &[u8; 32], now: i64) -> (r: Result<
    u64,
    ErrorCode,
>)
    ensures
        r == settlement_price(decoded_price_update(data@), *feed_id, now),
{
    check_price_update(decode_price_update(data), feed_id, now)
}

} // verus!
