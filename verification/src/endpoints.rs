//! The three queries and the JSON text each is answered with.
//!
//! A quote by ticker symbol is answered in the shape of the first price
//! index, the list of coins and a market chart by coin id in the shape of
//! the second.

use vstd::prelude::*;
use vstd::string::*;

use crate::catalog::{
    canonical_id_of, is_catalog_of, text_member, token_of, Platform, TokenData, TokenView,
};
use crate::decimal::decimal_text;
use crate::json::{json_string, quoted, JsonTree};
use crate::prices::{base_price_of, is_quote_for, quote, PriceQuote};
use crate::text::{int_text, integer_text, lowered};

verus! {

/// The parts with a comma between each two of them.
pub open spec fn joined(parts: Seq<Seq<char>>) -> Seq<char>
    decreases parts.len(),
{
    if parts.len() == 0 {
        Seq::empty()
    } else if parts.len() == 1 {
        parts[0]
    } else {
        joined(parts.drop_last()) + ","@ + parts.last()
    }
}

/// The reply to a quote by symbol: the price as a string and the time as an
/// RFC 3339 string, under the symbol, under "data".
pub open spec fn quote_text(q: PriceQuote) -> Seq<char> {
    "{\"data\":{"@ + json_string(q.key@) + ":{\"quote\":{\"USD\":{\"price\":"@ + json_string(
        decimal_text(q.price@),
    ) + ",\"last_updated\":"@ + json_string(q.timestamp.rfc3339@) + "}}}}}"@
}

/// The reply to a market chart query: one point, made of the time in
/// milliseconds and the price, both as numbers.
pub open spec fn chart_text(q: PriceQuote) -> Seq<char> {
    "{\"prices\":[["@ + int_text(q.timestamp.epoch_millis as int) + ","@ + decimal_text(q.price@)
        + "]]}"@
}

/// One platform and the address on it, as a member of a JSON object.
pub open spec fn platform_text(platform: (Seq<char>, Seq<char>)) -> Seq<char> {
    json_string(platform.0) + ":"@ + json_string(platform.1)
}

/// One token as a JSON object with the members "id", "symbol", "name" and
/// "platforms", the last an object with one member for each platform.
pub open spec fn token_text(token: TokenView) -> Seq<char> {
    "{\"id\":"@ + json_string(token.id) + ",\"symbol\":"@ + json_string(token.symbol)
        + ",\"name\":"@ + json_string(token.name) + ",\"platforms\":{"@ + joined(
        token.platforms.map_values(|p: (Seq<char>, Seq<char>)| platform_text(p)),
    ) + "}}"@
}

/// The reply to the coin list query: a JSON array with one object for each
/// token, in the catalog's order.
pub open spec fn coins_text(tokens: Seq<TokenView>) -> Seq<char> {
    "["@ + joined(tokens.map_values(|t: TokenView| token_text(t))) + "]"@
}

/// Adding a part to a run of parts adds a comma and the part to the text,
/// and the part alone where the run was empty.
pub proof fn lemma_joined_push(parts: Seq<Seq<char>>, part: Seq<char>)
    ensures
        joined(parts.push(part)) == if parts.len() == 0 {
            part
        } else {
            joined(parts) + ","@ + part
        },
{
    assert(parts.push(part).drop_last() =~= parts);
    assert(parts.push(part).last() == part);
}

/// The text of the reply to a quote by symbol.
pub fn quote_body(q: &PriceQuote) -> (r: String)
    ensures
        r@ == quote_text(*q),
{
    let mut out = String::from_str("{\"data\":{");
    out.append(quoted(q.key.as_str()).as_str());
    out.append(":{\"quote\":{\"USD\":{\"price\":");
    out.append(quoted(q.price.to_text().as_str()).as_str());
    out.append(",\"last_updated\":");
    out.append(quoted(q.timestamp.rfc3339.as_str()).as_str());
    out.append("}}}}}");
    out
}

/// The text of the reply to a market chart query.
pub fn chart_body(q: &PriceQuote) -> (r: String)
    ensures
        r@ == chart_text(*q),
{
    let mut out = String::from_str("{\"prices\":[[");
    out.append(integer_text(q.timestamp.epoch_millis).as_str());
    out.append(",");
    out.append(q.price.to_text().as_str());
    out.append("]]}");
    out
}

/// The members of the "platforms" object of a token.
fn platforms_body(platforms: &Vec<Platform>) -> (r: String)
    ensures
        r@ == joined(
            platforms@.map_values(|p: Platform| p@).map_values(
                |p: (Seq<char>, Seq<char>)| platform_text(p),
            ),
        ),
{
    let ghost parts = platforms@.map_values(|p: Platform| p@).map_values(
        |p: (Seq<char>, Seq<char>)| platform_text(p),
    );
    let mut out = String::new();
    let mut at: usize = 0;
    assert(parts.take(0) =~= Seq::empty());
    while at < platforms.len()
        invariant
            at <= platforms.len(),
            parts == platforms@.map_values(|p: Platform| p@).map_values(
                |p: (Seq<char>, Seq<char>)| platform_text(p),
            ),
            out@ == joined(parts.take(at as int)),
        decreases platforms.len() - at,
    {
        let platform = &platforms[at];
        if at > 0 {
            out.append(",");
        }
        out.append(quoted(platform.name.as_str()).as_str());
        out.append(":");
        out.append(quoted(platform.address.as_str()).as_str());
        proof {
            lemma_joined_push(parts.take(at as int), parts[at as int]);
            assert(parts.take(at as int).push(parts[at as int]) =~= parts.take(at + 1));
            assert(parts[at as int] == platform_text(platform@));
        }
        at = at + 1;
    }
    assert(parts.take(at as int) =~= parts);
    out
}

/// The JSON object of one token.
pub fn token_body(token: &TokenData) -> (r: String)
    ensures
        r@ == token_text(token@),
{
    let mut out = String::from_str("{\"id\":");
    out.append(quoted(token.id.as_str()).as_str());
    out.append(",\"symbol\":");
    out.append(quoted(token.symbol.as_str()).as_str());
    out.append(",\"name\":");
    out.append(quoted(token.name.as_str()).as_str());
    out.append(",\"platforms\":{");
    out.append(platforms_body(&token.platforms).as_str());
    out.append("}}");
    out
}

/// Answers a quote by ticker symbol with a fresh quote for it. A symbol
/// that the price table lacks is no error: its price is zero.
pub fn handle_coinmarketcap_token_price_query(symbol: &str) -> (r: String)
    ensures
        exists|q: PriceQuote|
            is_quote_for(q, symbol@) && q.price@.within_tenth_of(base_price_of(symbol@)) && r@ == #[trigger] quote_text(q),
{
    let q = quote(symbol);
    quote_body(&q)
}

/// Answers the coin list query with every token of the catalog, in the
/// catalog's order.
pub fn handle_coingecko_token_list(tokens: &Vec<TokenData>) -> (r: String)
    ensures
        r@ == coins_text(tokens@.map_values(|t: TokenData| t@)),
{
    let ghost parts = tokens@.map_values(|t: TokenData| t@).map_values(
        |t: TokenView| token_text(t),
    );
    let mut out = String::from_str("[");
    let mut at: usize = 0;
    assert(parts.take(0) =~= Seq::empty());
    assert("["@ + Seq::<char>::empty() =~= "["@);
    while at < tokens.len()
        invariant
            at <= tokens.len(),
            parts == tokens@.map_values(|t: TokenData| t@).map_values(
                |t: TokenView| token_text(t),
            ),
            out@ == "["@ + joined(parts.take(at as int)),
        decreases tokens.len() - at,
    {
        if at > 0 {
            out.append(",");
        }
        out.append(token_body(&tokens[at]).as_str());
        proof {
            lemma_joined_push(parts.take(at as int), parts[at as int]);
            assert(parts.take(at as int).push(parts[at as int]) =~= parts.take(at + 1));
            assert(parts[at as int] == token_text(tokens@[at as int]@));
            assert(out@ =~= "["@ + joined(parts.take(at + 1)));
        }
        at = at + 1;
    }
    assert(parts.take(at as int) =~= parts);
    out.append("]");
    out
}

/// Answers a market chart query with one point: a fresh quote for the coin
/// id. An id that the price table lacks is no error: its price is zero.
pub fn handle_coingecko_token_price_query(coin_id: &str) -> (r: String)
    ensures
        exists|q: PriceQuote|
            is_quote_for(q, coin_id@) && q.price@.within_tenth_of(base_price_of(coin_id@)) && r@ == #[trigger] chart_text(q),
{
    let q = quote(coin_id);
    chart_body(&q)
}

/// The coin list of a catalog has one object for each entry of the document
/// that the catalog was read from, in the document's order: the object of
/// the entry's descriptor, whose id is the canonical id of the entry's
/// symbol in lower case.
pub proof fn lemma_coin_list_follows_entries(tokens: Vec<TokenData>, entries: Seq<JsonTree>)
    requires
        is_catalog_of(Ok(tokens), JsonTree::Array(entries)),
    ensures
        tokens@.len() == entries.len(),
        forall|i: int|
            0 <= i < entries.len() ==> (#[trigger] tokens@[i])@.id == canonical_id_of(
                lowered(text_member(entries[i], "symbol"@).unwrap()),
            ),
        coins_text(tokens@.map_values(|t: TokenData| t@)) == coins_text(
            entries.map_values(|e: JsonTree| token_of(e)),
        ),
{
    assert(tokens@.map_values(|t: TokenData| t@) =~= entries.map_values(
        |e: JsonTree| token_of(e),
    ));
}

} // verus!
