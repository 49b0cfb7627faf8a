use std::collections::HashMap;
use std::str::FromStr;

use fungible::keys::BinaryDecodeError;
use fungible::Fungible;

#[test]
fn test_comparison() {
    let coin1 = Fungible::Coin("abc".to_string());
    let coin2 = Fungible::Coin("def".to_string());
    let token1 = Fungible::Token("token1".to_string());
    let token2 = Fungible::Token("token2".to_string());

    // equality
    assert!(coin1 == coin1);
    assert!(token1 == token1);

    // coin-coin
    assert!(coin1 < coin2);
    assert!(coin2 > coin1);

    // coin-token, token-coin
    assert!(coin1 > token1);
    assert!(token1 < coin1);

    // token-token
    assert!(token1 < token2);
    assert!(token2 > token1);
}

#[test]
fn test_storage_primarykey() {
    let mut store: HashMap<Vec<u8>, String> = HashMap::new();
    let coin = Fungible::Coin("uluna".to_string());

    store.insert(coin.encode(), "abc".to_string());
    assert_eq!(store.get(&coin.encode()).unwrap(), &"abc".to_string());
}

#[test]
fn test_storage_tuplekey() {
    let mut store: HashMap<Vec<u8>, String> = HashMap::new();
    let coin = Fungible::Coin("uluna".to_string());
    let token = Fungible::Token("whDAI".to_string());

    let mut stored_key = coin.encode();
    stored_key.extend(token.encode());
    store.insert(stored_key, "abc".to_string());

    let mut lookup_key = coin.encode();
    lookup_key.extend(token.encode());
    assert_eq!(store.get(&lookup_key).unwrap(), &"abc".to_string());
}

#[test]
fn test_stringify() {
    let coin = Fungible::Coin("uluna".to_string());
    let token = Fungible::Token("whDAI".to_string());

    assert_eq!(coin.to_string(), "Coin(uluna)");
    assert_eq!(token.to_string(), "Token(whDAI)");
}

#[test]
fn test_parse() {
    let coin_str = "Coin(uluna)";
    let token_str = "Token(whDAI)";

    assert_eq!(
        Fungible::from_str(coin_str).unwrap(),
        Fungible::Coin("uluna".to_string())
    );
    assert_eq!(
        Fungible::from_str(token_str).unwrap(),
        Fungible::Token("whDAI".to_string())
    );
}

#[test]
fn test_order_trichotomy_and_transitivity() {
    let a = Fungible::Token("alpha".to_string());
    let b = Fungible::Token("beta".to_string());
    let c = Fungible::Coin("alpha".to_string());

    // exactly one relation holds of each pair
    assert!(a < b && !(a == b) && !(a > b));
    assert!(a == a && !(a < a) && !(a > a));

    // a < b < c chains across the variant boundary
    assert!(a < b);
    assert!(b < c);
    assert!(a < c);
}

#[test]
fn test_variant_stratification_ignores_payload() {
    // every Coin sorts above every Token, whatever the payloads say
    assert!(Fungible::Coin("aaa".to_string()) > Fungible::Token("zzz".to_string()));
    assert!(Fungible::Coin(String::new()) > Fungible::Token("zzz".to_string()));
    assert!(Fungible::Token(String::new()) < Fungible::Coin(String::new()));
}

#[test]
fn test_within_variant_payload_order() {
    // a proper prefix sorts below its extension
    assert!(Fungible::Coin("ab".to_string()) < Fungible::Coin("abc".to_string()));
    assert!(Fungible::Token("ab".to_string()) < Fungible::Token("abc".to_string()));
    // first differing character decides
    assert!(Fungible::Coin("abc".to_string()) < Fungible::Coin("abd".to_string()));
    assert!(Fungible::Token("token1".to_string()) < Fungible::Token("token2".to_string()));
}

#[test]
fn test_string_round_trip() {
    let coin = Fungible::Coin("a b-c_d".to_string());
    let token = Fungible::Token("terra1xyz".to_string());

    assert_eq!(Fungible::from_str(&coin.to_string()).unwrap(), coin);
    assert_eq!(Fungible::from_str(&token.to_string()).unwrap(), token);

    // empty payloads round-trip too
    let empty_coin = Fungible::Coin(String::new());
    assert_eq!(empty_coin.to_string(), "Coin()");
    assert_eq!(Fungible::from_str("Coin()").unwrap(), empty_coin);
}

#[test]
fn test_string_conversions() {
    let coin = Fungible::Coin("uluna".to_string());
    assert_eq!(String::from(&coin), "Coin(uluna)");
    assert_eq!(String::from(coin), "Coin(uluna)");
}

#[test]
fn test_binary_encoding_layout() {
    let coin = Fungible::Coin("uluna".to_string());
    let token = Fungible::Token("whDAI".to_string());

    // discriminant byte, then the payload's raw UTF-8 bytes
    assert_eq!(coin.encode(), vec![0x00, b'u', b'l', b'u', b'n', b'a']);
    assert_eq!(token.encode(), vec![0x01, b'w', b'h', b'D', b'A', b'I']);

    // the same layout split into its store-facing parts
    assert_eq!(coin.prefix(), vec![0x00]);
    assert_eq!(token.prefix(), vec![0x01]);
    assert_eq!(coin.key(), b"uluna".to_vec());
    assert_eq!(token.key(), b"whDAI".to_vec());

    // every Coin key begins with 0x00 and every Token key with 0x01
    assert_eq!(Fungible::Coin(String::new()).encode(), vec![0x00]);
    assert_eq!(Fungible::Token(String::new()).encode(), vec![0x01]);
}

#[test]
fn test_binary_round_trip() {
    let coin = Fungible::Coin("uluna".to_string());
    let token = Fungible::Token("whDAI".to_string());

    assert_eq!(Fungible::from_vec(coin.encode()).unwrap(), coin);
    assert_eq!(Fungible::from_vec(token.encode()).unwrap(), token);

    // a multi-byte UTF-8 payload survives the byte-level round trip
    let unicode = Fungible::Coin("münze".to_string());
    assert_eq!(Fungible::from_vec(unicode.encode()).unwrap(), unicode);
}

#[test]
fn test_binary_decode_errors() {
    // empty input: no discriminant byte available
    assert_eq!(
        Fungible::from_vec(Vec::new()).unwrap_err(),
        BinaryDecodeError::Empty
    );
    // unrecognized discriminant
    assert_eq!(
        Fungible::from_vec(vec![0x02, b'x']).unwrap_err(),
        BinaryDecodeError::InvalidDiscriminant
    );
    // payload bytes that are not valid UTF-8
    assert_eq!(
        Fungible::from_vec(vec![0x00, 0xff]).unwrap_err(),
        BinaryDecodeError::InvalidPayload
    );
    assert_eq!(
        Fungible::from_vec(vec![0x01, 0xc0, 0x20]).unwrap_err(),
        BinaryDecodeError::InvalidPayload
    );
}

#[test]
fn test_binary_decode_error_diagnostics() {
    assert_eq!(BinaryDecodeError::Empty.target_type(), "Fungible");
    assert_eq!(BinaryDecodeError::Empty.message(), "Missing type byte");
    assert_eq!(
        BinaryDecodeError::InvalidDiscriminant.message(),
        "Invalid type byte"
    );
    assert_eq!(
        BinaryDecodeError::InvalidPayload.message(),
        "Invalid UTF-8 payload"
    );
}

#[test]
fn test_parse_errors() {
    let err = Fungible::from_str("Bogus(x)").unwrap_err();
    assert_eq!(err, "Invalid fungible: Bogus(x)");

    assert!(Fungible::from_str("").is_err());
    assert!(Fungible::from_str("Coin(").is_err());
    assert!(Fungible::from_str("Coin(x").is_err());
    assert!(Fungible::from_str("Token").is_err());
    assert!(Fungible::from_str("coin(x)").is_err());
}

#[test]
fn test_composite_key_round_trip() {
    // a pair contributes each component's full encoding, in order
    let coin = Fungible::Coin("uluna".to_string());
    let token = Fungible::Token("whDAI".to_string());

    let mut composite = coin.encode();
    composite.extend(token.encode());

    let mut expected = vec![0x00];
    expected.extend(b"uluna");
    expected.push(0x01);
    expected.extend(b"whDAI");
    assert_eq!(composite, expected);

    // splitting at the stored component boundary recovers both halves;
    // the boundary itself is the store's segmentation convention, since
    // the payload carries no length prefix
    let first_len = coin.encode().len();
    let first = Fungible::from_vec(composite[..first_len].to_vec()).unwrap();
    let second = Fungible::from_vec(composite[first_len..].to_vec()).unwrap();
    assert_eq!(first, coin);
    assert_eq!(second, token);
}
