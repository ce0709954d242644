//! The price synthesizer: a fixed table of base prices and a random factor.

use vstd::prelude::*;
use vstd::string::*;

use crate::clock::{now, Timestamp};
use crate::decimal::{lemma_times_keeps_order, pow10, tenths, Decimal, DecimalValue};
use crate::random::draw;
use crate::text::same_text;

verus! {

/// How many digits of a jitter factor stand behind the decimal point.
pub const JITTER_SCALE: u32 = 16;

/// The digits of nine tenths at that scale: every jitter factor is above it.
pub const JITTER_FLOOR: u64 = 9_000_000_000_000_000;

/// The digits of eleven tenths at that scale: every jitter factor is below it.
pub const JITTER_CEILING: u64 = 11_000_000_000_000_000;

/// A whole number as a decimal.
pub open spec fn whole(n: nat) -> DecimalValue {
    DecimalValue { digits: n, scale: 0 }
}

/// Whether the table of base prices holds `key`. Keys are ticker symbols and
/// coin ids, told apart letter for letter, capitals included.
pub open spec fn is_known(key: Seq<char>) -> bool {
    ||| key == "ETH"@
    ||| key == "ethereum"@
    ||| key == "wBTC"@
    ||| key == "wrapped-bitcoin"@
    ||| key == "BAT"@
    ||| key == "basic-attention-token"@
    ||| key == "DAI"@
    ||| key == "dai"@
    ||| key == "GLM"@
    ||| key == "glm"@
    ||| key == "tGLM"@
    ||| key == "tglm"@
}

/// The base price of `key` in US dollars; zero for a key the table lacks.
pub open spec fn base_price_of(key: Seq<char>) -> DecimalValue {
    if key == "ETH"@ || key == "ethereum"@ {
        whole(200)
    } else if key == "wBTC"@ || key == "wrapped-bitcoin"@ {
        whole(9000)
    } else if key == "BAT"@ || key == "basic-attention-token"@ {
        tenths(2)
    } else if is_known(key) {
        whole(1)
    } else {
        whole(0)
    }
}

/// Whether `d` can be the digits of a jitter factor: the factor lies strictly
/// between nine and eleven tenths.
pub open spec fn is_jitter_draw(d: u64) -> bool {
    JITTER_FLOOR < d < JITTER_CEILING
}

/// The jitter factor with the digits `d`.
pub open spec fn jitter_value(d: u64) -> DecimalValue {
    DecimalValue { digits: d as nat, scale: JITTER_SCALE as nat }
}

/// The price of `key` under the jitter factor with the digits `d`: the base
/// price times the factor.
pub open spec fn priced(key: Seq<char>, d: u64) -> DecimalValue {
    base_price_of(key).times(jitter_value(d))
}

/// A price for a key at a moment.
#[derive(Clone, Debug, PartialEq, Eq)]
pub struct PriceQuote {
    /// The ticker symbol or coin id that was asked for.
    pub key: String,
    /// The price in US dollars.
    pub price: Decimal,
    /// When the price was made.
    pub timestamp: Timestamp,
}

/// Whether `q` is a quote for `key`: it names the key, and its price is the
/// key's base price times some jitter factor.
pub open spec fn is_quote_for(q: PriceQuote, key: Seq<char>) -> bool {
    &&& q.key@ == key
    &&& exists|d: u64| is_jitter_draw(d) && q.price@ == #[trigger] priced(key, d)
}

/// Looks `key` up in the table of base prices.
pub fn base_price(key: &str) -> (r: Decimal)
    ensures
        r@ == base_price_of(key@),
{
    if same_text(key, "ETH") || same_text(key, "ethereum") {
        Decimal::whole(200)
    } else if same_text(key, "wBTC") || same_text(key, "wrapped-bitcoin") {
        Decimal::whole(9000)
    } else if same_text(key, "BAT") || same_text(key, "basic-attention-token") {
        Decimal { digits: 2, scale: 1 }
    } else if same_text(key, "DAI") || same_text(key, "dai") || same_text(key, "GLM")
        || same_text(key, "glm") || same_text(key, "tGLM") || same_text(key, "tglm") {
        Decimal::whole(1)
    } else {
        Decimal::whole(0)
    }
}

/// The quote for `key` under the jitter factor with the digits `d`, made at
/// `timestamp`.
pub fn quote_with(key: &str, d: u64, timestamp: Timestamp) -> (r: PriceQuote)
    ensures
        r.key@ == key@,
        r.price@ == priced(key@, d),
        r.timestamp == timestamp,
{
    let base = base_price(key);
    let jitter = Decimal { digits: d as u128, scale: JITTER_SCALE };
    assert(base.digits * jitter.digits <= u128::MAX) by (nonlinear_arith)
        requires
            base.digits <= 9000,
            jitter.digits <= u64::MAX,
    ;
    let price = match base.times(jitter) {
        Some(p) => p,
        None => base,
    };
    PriceQuote { key: String::from_str(key), price, timestamp }
}

/// A fresh quote for `key`: the base price times a jitter factor drawn at
/// random from strictly between nine and eleven tenths, stamped with the
/// current time.
pub fn quote(key: &str) -> (r: PriceQuote)
    ensures
        is_quote_for(r, key@),
        r.price@.within_tenth_of(base_price_of(key@)),
        !is_known(key@) ==> r.price@.is_zero(),
{
    let d = draw(JITTER_FLOOR + 1, JITTER_CEILING);
    let r = quote_with(key, d, now());
    proof {
        lemma_price_within_tenth(key@, d);
        if !is_known(key@) {
            lemma_unknown_price_is_zero(key@, d);
        }
    }
    r
}

/// Every price lies between nine and eleven tenths of the base price.
pub proof fn lemma_price_within_tenth(key: Seq<char>, d: u64)
    requires
        is_jitter_draw(d),
    ensures
        priced(key, d).within_tenth_of(base_price_of(key)),
{
    let base = base_price_of(key);
    let jitter = jitter_value(d);
    assert(pow10(1) == 10) by {
        reveal_with_fuel(pow10, 2);
    }
    assert(pow10(16) == 10_000_000_000_000_000) by {
        reveal_with_fuel(pow10, 17);
    }
    assert(jitter.scale == 16 && tenths(9).scale == 1 && tenths(11).scale == 1);
    assert(tenths(9).at_most(jitter));
    assert(jitter.at_most(tenths(11)));
    lemma_times_keeps_order(base, tenths(9), jitter);
    lemma_times_keeps_order(base, jitter, tenths(11));
}

/// A key that the table lacks has the price zero, whatever the jitter.
pub proof fn lemma_unknown_price_is_zero(key: Seq<char>, d: u64)
    requires
        !is_known(key),
    ensures
        priced(key, d).is_zero(),
{
    assert(base_price_of(key) == whole(0));
    assert(0 * (d as nat) == 0) by (nonlinear_arith);
}

} // verus!
