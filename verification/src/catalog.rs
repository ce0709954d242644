//! The token catalog: one descriptor for each entry of a JSON list of tokens.

use serde_json::Value;
use vstd::prelude::*;
use vstd::string::*;

use crate::json::{items, json_tree, member, parse, parsed_json, text_of, JsonTree};
use crate::text::{ascii_lowercase, lowered, same_text};

verus! {

/// The address of a token on one platform.
#[derive(Clone, Debug, PartialEq, Eq)]
pub struct Platform {
    /// The platform's name.
    pub name: String,
    /// The token's address there.
    pub address: String,
}

impl View for Platform {
    type V = (Seq<char>, Seq<char>);

    open spec fn view(&self) -> (Seq<char>, Seq<char>) {
        (self.name@, self.address@)
    }
}

/// A token of the catalog.
#[derive(Clone, Debug, PartialEq, Eq)]
pub struct TokenData {
    /// The canonical id: a lower-case slug.
    pub id: String,
    /// The ticker symbol, in lower case.
    pub symbol: String,
    /// The display name.
    pub name: String,
    /// The token's address on each platform that has it, each platform once.
    pub platforms: Vec<Platform>,
}

/// A token as plain text: what a `TokenData` holds.
pub struct TokenView {
    pub id: Seq<char>,
    pub symbol: Seq<char>,
    pub name: Seq<char>,
    pub platforms: Seq<(Seq<char>, Seq<char>)>,
}

impl TokenView {
    /// Whether each platform is listed once.
    pub open spec fn wf(self) -> bool {
        forall|i: int, j: int|
            0 <= i < j < self.platforms.len() ==> self.platforms[i].0 != self.platforms[j].0
    }

    /// The token's address on `platform`, where it has one.
    pub open spec fn address_on(self, platform: Seq<char>) -> Option<Seq<char>> {
        if exists|i: int| 0 <= i < self.platforms.len() && self.platforms[i].0 == platform {
            let i = choose|i: int| 0 <= i < self.platforms.len() && self.platforms[i].0 == platform;
            Some(self.platforms[i].1)
        } else {
            None
        }
    }
}

impl View for TokenData {
    type V = TokenView;

    open spec fn view(&self) -> TokenView {
        TokenView {
            id: self.id@,
            symbol: self.symbol@,
            name: self.name@,
            platforms: self.platforms@.map_values(|p: Platform| p@),
        }
    }
}

/// The canonical id of a lower-case symbol: a well-known slug for the three
/// symbols that have one, the symbol itself for any other.
pub open spec fn canonical_id_of(symbol: Seq<char>) -> Seq<char> {
    if symbol == "eth"@ {
        "ethereum"@
    } else if symbol == "wbtc"@ {
        "wrapped-bitcoin"@
    } else if symbol == "bat"@ {
        "basic-attention-token"@
    } else {
        symbol
    }
}

/// The descriptor of a catalog entry: symbol and address in lower case, the
/// id by `canonical_id_of`, the symbol as display name, and the address
/// listed under the platform "ethereum".
pub open spec fn token_for(symbol: Seq<char>, address: Seq<char>) -> TokenView {
    TokenView {
        id: canonical_id_of(lowered(symbol)),
        symbol: lowered(symbol),
        name: lowered(symbol),
        platforms: seq![("ethereum"@, lowered(address))],
    }
}

/// The text of the member `name` of a JSON object, where the document is an
/// object with such a member and the member is a string.
pub open spec fn text_member(entry: JsonTree, name: Seq<char>) -> Option<Seq<char>> {
    match entry {
        JsonTree::Object(members) => if members.contains_key(name) {
            match members[name] {
                JsonTree::Text(s) => Some(s),
                _ => None,
            }
        } else {
            None
        },
        _ => None,
    }
}

/// Whether a document is a catalog entry: an object whose members "symbol"
/// and "address" are strings.
pub open spec fn is_entry(entry: JsonTree) -> bool {
    text_member(entry, "symbol"@) is Some && text_member(entry, "address"@) is Some
}

/// The descriptor of a catalog entry.
pub open spec fn token_of(entry: JsonTree) -> TokenView
    recommends
        is_entry(entry),
{
    token_for(text_member(entry, "symbol"@).unwrap(), text_member(entry, "address"@).unwrap())
}

/// Why a text is not a catalog.
#[derive(Clone, Copy, Debug, PartialEq, Eq, Structural)]
pub enum CatalogError {
    /// The text is not a JSON document.
    NotJson,
    /// The document is not an array.
    NotAList,
    /// The item at this index is the first that is not an object with the
    /// strings "symbol" and "address".
    BadEntry(usize),
}

/// Whether `r` is what the document `doc` makes as a catalog: one descriptor
/// for each item in the same order, or the reason why it is no catalog.
pub open spec fn is_catalog_of(r: Result<Vec<TokenData>, CatalogError>, doc: JsonTree) -> bool {
    match r {
        Ok(tokens) => doc matches JsonTree::Array(entries) && tokens@.len() == entries.len()
            && forall|i: int|
            0 <= i < entries.len() ==> is_entry(#[trigger] entries[i]) && tokens@[i]@ == token_of(
                entries[i],
            ),
        Err(CatalogError::NotJson) => false,
        Err(CatalogError::NotAList) => !(doc is Array),
        Err(CatalogError::BadEntry(at)) => doc matches JsonTree::Array(entries) && at
            < entries.len() && !is_entry(entries[at as int]) && forall|i: int|
            0 <= i < at ==> is_entry(#[trigger] entries[i]),
    }
}

/// The canonical id of a lower-case symbol.
pub fn canonical_id(symbol: &str) -> (r: String)
    ensures
        r@ == canonical_id_of(symbol@),
{
    if same_text(symbol, "eth") {
        String::from_str("ethereum")
    } else if same_text(symbol, "wbtc") {
        String::from_str("wrapped-bitcoin")
    } else if same_text(symbol, "bat") {
        String::from_str("basic-attention-token")
    } else {
        String::from_str(symbol)
    }
}

impl TokenData {
    /// The descriptor of the catalog entry with this symbol and address.
    pub fn from_entry(symbol: &str, address: &str) -> (r: TokenData)
        ensures
            r@ == token_for(symbol@, address@),
            r@.wf(),
            r@.address_on("ethereum"@) == Some(lowered(address@)),
    {
        let symbol = ascii_lowercase(symbol);
        let platform = Platform {
            name: String::from_str("ethereum"),
            address: ascii_lowercase(address),
        };
        let mut platforms: Vec<Platform> = Vec::new();
        platforms.push(platform);
        let r = TokenData {
            id: canonical_id(symbol.as_str()),
            symbol: symbol.clone(),
            name: symbol,
            platforms,
        };
        assert(r@.platforms =~= seq![("ethereum"@, lowered(address@))]);
        assert(r@.platforms[0].0 == "ethereum"@);
        r
    }
}

/// The string member `name` of `entry`, where it has one.
fn text_member_of<'a>(entry: &'a Value, name: &str) -> (r: Option<&'a str>)
    ensures
        match text_member(json_tree(*entry), name@) {
            Some(s) => r is Some && r.unwrap()@ == s,
            None => r is None,
        },
{
    match member(entry, name) {
        Some(found) => text_of(found),
        None => None,
    }
}

/// Makes the catalog from a JSON document: one descriptor for each item of
/// the array, in the same order.
pub fn tokens_from_document(doc: &Value) -> (r: Result<Vec<TokenData>, CatalogError>)
    ensures
        is_catalog_of(r, json_tree(*doc)),
{
    let entries = match items(doc) {
        Some(entries) => entries,
        None => {
            return Err(CatalogError::NotAList);
        },
    };
    let ghost trees = json_tree(*doc)->Array_0;
    let mut tokens: Vec<TokenData> = Vec::new();
    let mut at: usize = 0;
    while at < entries.len()
        invariant
            json_tree(*doc) == JsonTree::Array(trees),
            entries@.len() == trees.len(),
            forall|i: int| 0 <= i < trees.len() ==> json_tree(#[trigger] entries@[i]) == trees[i],
            at <= entries.len(),
            tokens@.len() == at,
            forall|i: int|
                0 <= i < at ==> is_entry(#[trigger] trees[i]) && tokens@[i]@ == token_of(trees[i]),
        decreases entries.len() - at,
    {
        let entry = &entries[at];
        let symbol = text_member_of(entry, "symbol");
        let address = text_member_of(entry, "address");
        match (symbol, address) {
            (Some(symbol), Some(address)) => {
                tokens.push(TokenData::from_entry(symbol, address));
            },
            _ => {
                return Err(CatalogError::BadEntry(at));
            },
        }
        at = at + 1;
    }
    Ok(tokens)
}

/// Reads the catalog from the text of a JSON array of objects, each with the
/// strings "symbol" and "address"; other members are passed over.
pub fn load_tokens(text: &str) -> (r: Result<Vec<TokenData>, CatalogError>)
    ensures
        match parsed_json(text@) {
            Some(doc) => is_catalog_of(r, doc),
            None => r == Err::<Vec<TokenData>, CatalogError>(CatalogError::NotJson),
        },
{
    match parse(text) {
        Ok(doc) => tokens_from_document(&doc),
        Err(_) => Err(CatalogError::NotJson),
    }
}

} // verus!
