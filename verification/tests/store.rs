use currency_converter::api::RateStore;
use currency_converter::cache::{load_cache, save_cache, SavedItem};
use currency_converter::code_map::CodeMap;
use currency_converter::models::{rate_is_positive_finite, CacheItem, Rates, Timestamp};
use currency_converter::text::str_eq;

fn at(secs: u64, nanos: u32) -> Timestamp {
    Timestamp { secs_since_epoch: secs, nanos_since_epoch: nanos }
}

fn table(pairs: &[(&str, f64)]) -> Vec<(String, u64)> {
    pairs.iter().map(|(code, rate)| (code.to_string(), rate.to_bits())).collect()
}

fn sorted(mut document: Vec<SavedItem>) -> Vec<SavedItem> {
    for item in document.iter_mut() {
        item.rates.sort();
    }
    document.sort_by(|a, b| a.base.cmp(&b.base));
    document
}

#[test]
fn strings_compare_by_their_characters() {
    assert!(str_eq("", ""));
    assert!(str_eq("USD", "USD"));
    assert!(!str_eq("USD", "USd"));
    assert!(!str_eq("USD", "US"));
    assert!(!str_eq("US", "USD"));
    assert!(str_eq("z\u{142}oty", "z\u{142}oty"));
    assert!(!str_eq("z\u{142}oty", "zloty"));
}

#[test]
fn positive_finite_patterns_are_told_apart() {
    let samples = [
        0.0,
        -0.0,
        0.9,
        1.0,
        4.0,
        -4.0,
        f64::MIN_POSITIVE,
        f64::MIN_POSITIVE / 2.0,
        f64::from_bits(1),
        f64::MAX,
        f64::MIN,
        f64::INFINITY,
        f64::NEG_INFINITY,
        f64::NAN,
        -f64::NAN,
        f64::EPSILON,
    ];
    for sample in samples {
        assert_eq!(
            rate_is_positive_finite(sample.to_bits()),
            sample.is_finite() && sample > 0.0,
            "{}",
            sample
        );
    }
    assert!(!rate_is_positive_finite(0));
    assert!(rate_is_positive_finite(1));
    assert!(rate_is_positive_finite(0x7FEF_FFFF_FFFF_FFFF));
    assert!(!rate_is_positive_finite(0x7FF0_0000_0000_0000));
    assert!(!rate_is_positive_finite(0x7FF0_0000_0000_0001));
    assert!(!rate_is_positive_finite(u64::MAX));
}

#[test]
fn code_map_replaces_and_keeps_the_rest() {
    let mut map: CodeMap<u64> = CodeMap::new();
    assert_eq!(map.len(), 0);
    assert!(!map.contains_key("USD"));
    assert_eq!(map.get("USD"), None);

    map.insert("USD".to_string(), 1);
    map.insert("EUR".to_string(), 2);
    map.insert("USD".to_string(), 3);

    assert_eq!(map.len(), 2);
    assert!(map.contains_key("USD"));
    assert_eq!(map.get("USD"), Some(&3));
    assert_eq!(map.get("EUR"), Some(&2));
    assert_eq!(map.get("usd"), None);

    let mut pairs = map.pairs().to_vec();
    pairs.sort();
    assert_eq!(pairs, vec![("EUR".to_string(), 2), ("USD".to_string(), 3)]);
}

#[test]
fn rates_refuse_what_is_not_positive_and_finite() {
    let mut rates = Rates::new();
    assert!(rates.insert("EUR".to_string(), 0.9f64.to_bits()));
    assert!(!rates.insert("EUR".to_string(), 0.0f64.to_bits()));
    assert!(!rates.insert("PLN".to_string(), (-4.0f64).to_bits()));
    assert!(!rates.insert("GBP".to_string(), f64::NAN.to_bits()));
    assert!(!rates.insert("CHF".to_string(), f64::INFINITY.to_bits()));

    assert_eq!(rates.len(), 1);
    assert_eq!(rates.get("EUR").map(f64::from_bits), Some(0.9));
    assert_eq!(rates.get("PLN"), None);
}

#[test]
fn rates_from_pairs_let_the_later_pair_count() {
    let rates =
        Rates::from_pairs(&table(&[("EUR", 0.5), ("PLN", 4.0), ("EUR", 0.9)])).unwrap();
    assert_eq!(rates.len(), 2);
    assert_eq!(rates.get("EUR").map(f64::from_bits), Some(0.9));
    assert_eq!(rates.get("PLN").map(f64::from_bits), Some(4.0));

    assert!(Rates::from_pairs(&[]).unwrap().pairs().is_empty());
    assert!(Rates::from_pairs(&table(&[("EUR", 0.9), ("PLN", 0.0)])).is_none());
    assert!(Rates::from_pairs(&table(&[("EUR", -0.9), ("EUR", 0.9)])).is_none());
}

#[test]
fn rates_clone_holds_the_same_rates() {
    let rates = Rates::from_pairs(&table(&[("EUR", 0.9), ("PLN", 4.0)])).unwrap();
    let copy = rates.clone();
    assert_eq!(copy.len(), 2);
    assert_eq!(copy.get("EUR"), rates.get("EUR"));
    assert_eq!(copy.get("PLN"), rates.get("PLN"));

    let item = CacheItem { rates, timestamp: at(3, 4) };
    let twin = item.clone();
    assert_eq!(twin.timestamp, at(3, 4));
    assert_eq!(twin.rates.get("PLN").map(f64::from_bits), Some(4.0));
}

#[test]
fn missing_document_loads_an_empty_store() {
    assert_eq!(load_cache(None).len(), 0);
    assert_eq!(load_cache(Some(Vec::new())).len(), 0);
    assert!(save_cache(&load_cache(None)).is_empty());
}

#[test]
fn saved_store_is_loaded_again_as_it_was() {
    let mut cache: RateStore = CodeMap::new();
    cache.insert(
        "USD".to_string(),
        CacheItem {
            rates: Rates::from_pairs(&table(&[("EUR", 0.9), ("PLN", 4.0)])).unwrap(),
            timestamp: at(1_700_000_000, 123_456_789),
        },
    );
    cache.insert(
        "EUR".to_string(),
        CacheItem {
            rates: Rates::from_pairs(&table(&[("USD", 1.1)])).unwrap(),
            timestamp: at(1_700_000_500, 0),
        },
    );

    let document = save_cache(&cache);
    assert_eq!(
        sorted(document.clone()),
        vec![
            SavedItem {
                base: "EUR".to_string(),
                rates: table(&[("USD", 1.1)]),
                timestamp: at(1_700_000_500, 0),
            },
            SavedItem {
                base: "USD".to_string(),
                rates: table(&[("EUR", 0.9), ("PLN", 4.0)]),
                timestamp: at(1_700_000_000, 123_456_789),
            },
        ]
    );

    let loaded = load_cache(Some(document.clone()));
    assert_eq!(loaded.len(), 2);
    assert_eq!(loaded.get("USD").unwrap().timestamp, at(1_700_000_000, 123_456_789));
    assert_eq!(loaded.get("USD").unwrap().rates.get("PLN").map(f64::from_bits), Some(4.0));
    assert_eq!(loaded.get("EUR").unwrap().rates.get("USD").map(f64::from_bits), Some(1.1));
    assert_eq!(sorted(save_cache(&loaded)), sorted(document));
}

#[test]
fn later_item_for_a_base_replaces_the_earlier_one() {
    let document = vec![
        SavedItem { base: "USD".to_string(), rates: table(&[("EUR", 0.8)]), timestamp: at(1, 0) },
        SavedItem { base: "USD".to_string(), rates: table(&[("PLN", 4.0)]), timestamp: at(2, 0) },
    ];
    let loaded = load_cache(Some(document));
    assert_eq!(loaded.len(), 1);
    let snapshot = loaded.get("USD").unwrap();
    assert_eq!(snapshot.timestamp, at(2, 0));
    assert_eq!(snapshot.rates.get("EUR"), None);
    assert_eq!(snapshot.rates.get("PLN").map(f64::from_bits), Some(4.0));
}

#[test]
fn document_with_an_unusable_rate_loads_an_empty_store() {
    let document = vec![
        SavedItem { base: "USD".to_string(), rates: table(&[("EUR", 0.8)]), timestamp: at(1, 0) },
        SavedItem { base: "EUR".to_string(), rates: table(&[("USD", 0.0)]), timestamp: at(2, 0) },
    ];
    assert_eq!(load_cache(Some(document)).len(), 0);
}
