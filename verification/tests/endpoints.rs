use std::str::FromStr;

use bigdecimal::BigDecimal;
use dev_ticker::catalog::{load_tokens, TokenData};
use dev_ticker::clock::Timestamp;
use dev_ticker::decimal::Decimal;
use dev_ticker::endpoints::{
    chart_body, handle_coingecko_token_list, handle_coingecko_token_price_query,
    handle_coinmarketcap_token_price_query, quote_body, token_body,
};
use dev_ticker::prices::PriceQuote;
use serde_json::Value;

fn a_quote(key: &str, digits: u128, scale: u32) -> PriceQuote {
    PriceQuote {
        key: String::from(key),
        price: Decimal { digits, scale },
        timestamp: Timestamp {
            epoch_millis: 1_600_000_000_123,
            rfc3339: String::from("2020-09-13T12:26:40.123Z"),
        },
    }
}

fn dec(s: &str) -> BigDecimal {
    BigDecimal::from_str(s).unwrap()
}

#[test]
fn quote_body_has_the_stated_text() {
    let body = quote_body(&a_quote("ETH", 1_824_691_357_802_469_000, 16));
    assert_eq!(
        body,
        "{\"data\":{\"ETH\":{\"quote\":{\"USD\":{\"price\":\"182.4691357802469000\",\
         \"last_updated\":\"2020-09-13T12:26:40.123Z\"}}}}}"
    );
}

#[test]
fn quote_body_escapes_the_symbol() {
    let symbol = "a\"b\\c\n\u{1}é";
    let body = quote_body(&a_quote(symbol, 0, 16));
    assert_eq!(
        body,
        "{\"data\":{\"a\\\"b\\\\c\\n\\u0001é\":{\"quote\":{\"USD\":{\"price\":\
         \"0.0000000000000000\",\"last_updated\":\"2020-09-13T12:26:40.123Z\"}}}}}"
    );
    let doc: Value = serde_json::from_str(&body).unwrap();
    let inner = doc.get("data").unwrap().as_object().unwrap();
    assert_eq!(inner.len(), 1);
    assert!(inner.contains_key(symbol));
}

#[test]
fn chart_body_has_the_stated_text() {
    let body = chart_body(&a_quote("wrapped-bitcoin", 98_999_999_999_999_991_000, 16));
    assert_eq!(body, "{\"prices\":[[1600000000123,9899.9999999999991000]]}");
    let mut early = a_quote("dai", 5, 1);
    early.timestamp.epoch_millis = -42;
    assert_eq!(chart_body(&early), "{\"prices\":[[-42,0.5]]}");
}

#[test]
fn token_body_has_the_stated_text() {
    let t = TokenData::from_entry("ETH", "0xAB");
    assert_eq!(
        token_body(&t),
        "{\"id\":\"ethereum\",\"symbol\":\"eth\",\"name\":\"eth\",\
         \"platforms\":{\"ethereum\":\"0xab\"}}"
    );
}

#[test]
fn token_body_lists_every_platform() {
    let mut t = TokenData::from_entry("DAI", "0x1");
    assert_eq!(t.platforms.len(), 1);
    let mut second = t.platforms[0].clone();
    second.name = String::from("x\"dai");
    second.address = String::from("0x2");
    t.platforms.push(second);
    assert_eq!(
        token_body(&t),
        "{\"id\":\"dai\",\"symbol\":\"dai\",\"name\":\"dai\",\
         \"platforms\":{\"ethereum\":\"0x1\",\"x\\\"dai\":\"0x2\"}}"
    );
    t.platforms.clear();
    assert_eq!(
        token_body(&t),
        "{\"id\":\"dai\",\"symbol\":\"dai\",\"name\":\"dai\",\"platforms\":{}}"
    );
}

#[test]
fn coin_list_of_an_empty_catalog() {
    assert_eq!(handle_coingecko_token_list(&Vec::new()), "[]");
}

#[test]
fn coin_list_has_the_stated_text() {
    let tokens =
        load_tokens(r#"[{"symbol":"ETH","address":"0xA"},{"symbol":"DAI","address":"0xB"}]"#)
            .unwrap();
    assert_eq!(
        handle_coingecko_token_list(&tokens),
        "[{\"id\":\"ethereum\",\"symbol\":\"eth\",\"name\":\"eth\",\
         \"platforms\":{\"ethereum\":\"0xa\"}},\
         {\"id\":\"dai\",\"symbol\":\"dai\",\"name\":\"dai\",\
         \"platforms\":{\"ethereum\":\"0xb\"}}]"
    );
}

#[test]
fn coin_list_has_one_entry_for_each_catalog_entry() {
    let symbols = ["ETH", "wBTC", "BAT", "DAI", "GLM", "tGLM", "MLTT", "a\"b"];
    let ids = [
        "ethereum",
        "wrapped-bitcoin",
        "basic-attention-token",
        "dai",
        "glm",
        "tglm",
        "mltt",
        "a\"b",
    ];
    let entries: Vec<Value> = symbols
        .iter()
        .enumerate()
        .map(|(i, s)| {
            let mut entry = serde_json::Map::new();
            entry.insert(String::from("symbol"), Value::from(*s));
            entry.insert(String::from("address"), Value::from(format!("0xA{}", i)));
            entry.insert(String::from("decimals"), Value::from(18));
            Value::Object(entry)
        })
        .collect();
    let text = Value::Array(entries).to_string();
    let tokens = load_tokens(&text).unwrap();
    let body = handle_coingecko_token_list(&tokens);
    let doc: Value = serde_json::from_str(&body).unwrap();
    let listed = doc.as_array().unwrap();
    assert_eq!(listed.len(), symbols.len());
    for i in 0..symbols.len() {
        let entry = listed[i].as_object().unwrap();
        assert_eq!(entry.len(), 4);
        assert_eq!(entry["id"].as_str(), Some(ids[i]));
        assert_eq!(entry["symbol"].as_str().unwrap(), symbols[i].to_ascii_lowercase());
        assert_eq!(entry["name"].as_str().unwrap(), symbols[i].to_ascii_lowercase());
        let platforms = entry["platforms"].as_object().unwrap();
        assert_eq!(platforms.len(), 1);
        assert_eq!(platforms["ethereum"].as_str().unwrap(), format!("0xa{}", i));
    }
}

#[test]
fn quote_of_eth_is_between_180_and_220() {
    for _ in 0..200 {
        let body = handle_coinmarketcap_token_price_query("ETH");
        let doc: Value = serde_json::from_str(&body).unwrap();
        let usd = &doc["data"]["ETH"]["quote"]["USD"];
        let price = dec(usd["price"].as_str().unwrap());
        assert!(dec("180") <= price && price <= dec("220"), "{}", price);
        let stamp = usd["last_updated"].as_str().unwrap();
        assert!(chrono::DateTime::parse_from_rfc3339(stamp).is_ok());
        assert_eq!(stamp.len(), 24);
    }
}

#[test]
fn quote_of_an_unknown_symbol_is_zero() {
    let body = handle_coinmarketcap_token_price_query("NOPE");
    let doc: Value = serde_json::from_str(&body).unwrap();
    let price = dec(doc["data"]["NOPE"]["quote"]["USD"]["price"].as_str().unwrap());
    assert_eq!(price, dec("0"));
}

#[test]
fn chart_of_wrapped_bitcoin_is_between_8100_and_9900() {
    for _ in 0..200 {
        let body = handle_coingecko_token_price_query("wrapped-bitcoin");
        assert!(body.starts_with("{\"prices\":[["));
        assert!(body.ends_with("]]}"));
        let inner = &body["{\"prices\":[[".len()..body.len() - "]]}".len()];
        let (millis, price) = inner.split_once(',').unwrap();
        let price = dec(price);
        assert!(dec("8100") <= price && price <= dec("9900"), "{}", price);
        assert!(millis.parse::<i64>().unwrap() > 1_600_000_000_000);
        let doc: Value = serde_json::from_str(&body).unwrap();
        let points = doc["prices"].as_array().unwrap();
        assert_eq!(points.len(), 1);
        let point = points[0].as_array().unwrap();
        assert_eq!(point.len(), 2);
        assert_eq!(point[0].as_i64(), millis.parse::<i64>().ok());
        assert!(point[1].is_number());
    }
}

#[test]
fn chart_of_an_unknown_id_is_zero() {
    let body = handle_coingecko_token_price_query("eth");
    let inner = &body["{\"prices\":[[".len()..body.len() - "]]}".len()];
    let (_, price) = inner.split_once(',').unwrap();
    assert_eq!(price, "0.0000000000000000");
    let doc: Value = serde_json::from_str(&body).unwrap();
    assert!(doc["prices"][0][1].is_number());
}
