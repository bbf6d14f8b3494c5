use vstd::prelude::*;
use vstd::string::StringSliceAdditionalSpecFns;

use crate::errors::BullBearProgramError;
use crate::states::MAXIMUM_AGE;

verus! {

/// One reading of the price oracle: a price and the wall-clock second at
/// which the oracle observed it. The oracle itself is an external
/// collaborator; the engine only gates on how old a supplied observation is.
#[derive(Clone, Copy, Debug, PartialEq, Eq, Structural)]
pub struct PriceObservation {
    /// The observed price, in the oracle's native scale.
    pub price: i64,
    /// Wall-clock second at which the price was observed.
    pub publish_time: i64,
}

/// An observation is fresh at time `now` under the staleness bound
/// `max_age` when it was observed no more than `max_age` seconds before
/// `now`. A bound that does not fit a signed 64-bit timestamp is unusable
/// and admits nothing.
pub open spec fn fresh_at(obs: PriceObservation, now: i64, max_age: u64) -> bool {
    &&& max_age <= i64::MAX
    &&& obs.publish_time + max_age >= now
}

/// The staleness bound applied when a round starts: the permitted age
/// scales with the round length and is never stricter than the fixed floor.
pub open spec fn start_staleness_bound(round_interval: u64) -> u64 {
    if round_interval > MAXIMUM_AGE {
        round_interval
    } else {
        MAXIMUM_AGE
    }
}

/// Decides freshness of an observation, exactly as `fresh_at` states it.
pub fn is_fresh(obs: &PriceObservation, now: i64, max_age: u64) -> (b: bool)
    ensures
        b == fresh_at(*obs, now, max_age),
{
    if max_age > i64::MAX as u64 {
        false
    } else {
        (obs.publish_time as i128) + (max_age as i128) >= (now as i128)
    }
}

/// Whether the byte is an ASCII hexadecimal digit.
pub open spec fn is_hex_digit(b: u8) -> bool {
    ||| 0x30 <= b <= 0x39
    ||| 0x61 <= b <= 0x66
    ||| 0x41 <= b <= 0x46
}

/// Numeric value of an ASCII hexadecimal digit.
pub open spec fn hex_value(b: u8) -> u8
    recommends
        is_hex_digit(b),
{
    if 0x30 <= b <= 0x39 {
        (b - 0x30) as u8
    } else if 0x61 <= b <= 0x66 {
        (b - 0x61 + 10) as u8
    } else {
        (b - 0x41 + 10) as u8
    }
}

/// A well-formed textual feed identifier: 64 hexadecimal digits encoding
/// 32 bytes, optionally preceded by two prefix bytes (`0x`; as in the
/// oracle's own convention, the prefix bytes themselves are not examined).
pub open spec fn valid_feed_hex(s: Seq<u8>) -> bool {
    ||| s.len() == 64 && (forall|i: int| 0 <= i < 64 ==> is_hex_digit(#[trigger] s[i]))
    ||| s.len() == 66 && (forall|i: int| 2 <= i < 66 ==> is_hex_digit(#[trigger] s[i]))
}

/// The 64 digit bytes of a feed identifier, prefix stripped.
pub open spec fn feed_hex_digits(s: Seq<u8>) -> Seq<u8> {
    if s.len() == 66 {
        s.skip(2)
    } else {
        s
    }
}

/// The 32 feed-id bytes that a well-formed textual identifier encodes.
pub open spec fn feed_bytes_of(s: Seq<u8>) -> Seq<u8> {
    Seq::new(32, |i: int| (hex_value(feed_hex_digits(s)[2 * i]) * 16 + hex_value(
        feed_hex_digits(s)[2 * i + 1],
    )) as u8)
}

/// Numeric value of one hexadecimal digit byte; `None` for any other byte.
fn hex_digit_value(b: u8) -> (r: Option<u8>)
    ensures
        r is Some <==> is_hex_digit(b),
        is_hex_digit(b) ==> r == Some(hex_value(b)),
{
    if 0x30 <= b && b <= 0x39 {
        Some(b - 0x30)
    } else if 0x61 <= b && b <= 0x66 {
        Some(b - 0x61 + 10)
    } else if 0x41 <= b && b <= 0x46 {
        Some(b - 0x41 + 10)
    } else {
        None
    }
}

/// Parses a textual oracle feed identifier into its 32 bytes.
///
/// The identifier must consist of 64 hexadecimal digits, optionally
/// preceded by a two-byte prefix; anything else is rejected with
/// `InvalidFeedId`.
pub fn get_feed_id_from_hex(input: &str) -> (r: Result<Vec<u8>, BullBearProgramError>)
    ensures
        r is Ok <==> valid_feed_hex(input.spec_bytes()),
        r matches Ok(v) ==> v@ == feed_bytes_of(input.spec_bytes()),
        r is Err ==> r == Err::<Vec<u8>, BullBearProgramError>(
            BullBearProgramError::InvalidFeedId,
        ),
{
    let b: &[u8] = input.as_bytes();
    let offset: usize = if b.len() == 66 {
        2
    } else if b.len() == 64 {
        0
    } else {
        return Err(BullBearProgramError::InvalidFeedId);
    };
    let ghost digits = feed_hex_digits(input.spec_bytes());
    assert(digits =~= b@.skip(offset as int));
    let mut out: Vec<u8> = Vec::new();
    let mut i: usize = 0;
    while i < 32
        invariant
            i <= 32,
            b@ == input.spec_bytes(),
            b@.len() == offset + 64,
            offset == 0 || offset == 2,
            digits =~= b@.skip(offset as int),
            out@.len() == i,
            forall|k: int| 0 <= k < 2 * i ==> is_hex_digit(#[trigger] digits[k]),
            forall|k: int|
                0 <= k < i ==> #[trigger] out@[k] == (hex_value(digits[2 * k]) * 16 + hex_value(
                    digits[2 * k + 1],
                )) as u8,
        decreases 32 - i,
    {
        let idx_hi: usize = offset + 2 * i;
        let hi = match hex_digit_value(b[idx_hi]) {
            Some(v) => v,
            Option::None => {
                proof {
                    assert(digits[2 * (i as int)] == input.spec_bytes()[idx_hi as int]);
                    assert(!valid_feed_hex(input.spec_bytes()));
                }
                return Err(BullBearProgramError::InvalidFeedId);
            },
        };
        let lo = match hex_digit_value(b[idx_hi + 1]) {
            Some(v) => v,
            Option::None => {
                proof {
                    assert(digits[2 * (i as int) + 1] == input.spec_bytes()[idx_hi + 1]);
                    assert(!valid_feed_hex(input.spec_bytes()));
                }
                return Err(BullBearProgramError::InvalidFeedId);
            },
        };
        out.push(hi * 16 + lo);
        i += 1;
    }
    proof {
        if offset == 0 {
            assert forall|k: int| 0 <= k < 64 implies is_hex_digit(
                #[trigger] input.spec_bytes()[k],
            ) by {
                assert(input.spec_bytes()[k] == digits[k]);
            }
        } else {
            assert forall|k: int| 2 <= k < 66 implies is_hex_digit(
                #[trigger] input.spec_bytes()[k],
            ) by {
                assert(input.spec_bytes()[k] == digits[k - 2]);
            }
        }
        assert(valid_feed_hex(input.spec_bytes()));
        assert(out@ =~= feed_bytes_of(input.spec_bytes()));
    }
    Ok(out)
}

/// Exercises the oracle path on its own: validates a textual feed
/// identifier, applies the caller-supplied staleness bound to the supplied
/// observation, and returns the observed price.
pub fn test_price_feed(feed_id: &str, maximum_age: u64, now: i64, obs: &PriceObservation) -> (r:
    Result<i64, BullBearProgramError>)
    ensures
        !valid_feed_hex(feed_id.spec_bytes()) ==> r == Err::<i64, BullBearProgramError>(
            BullBearProgramError::InvalidFeedId,
        ),
        valid_feed_hex(feed_id.spec_bytes()) && !fresh_at(*obs, now, maximum_age) ==> r == Err::<
            i64,
            BullBearProgramError,
        >(BullBearProgramError::OracleFailure),
        valid_feed_hex(feed_id.spec_bytes()) && fresh_at(*obs, now, maximum_age) ==> r == Ok::<
            i64,
            BullBearProgramError,
        >(obs.price),
{
    let _feed = get_feed_id_from_hex(feed_id)?;
    if !is_fresh(obs, now, maximum_age) {
        return Err(BullBearProgramError::OracleFailure);
    }
    Ok(obs.price)
}

} // verus!
