use tcg_scraper::digits::{advertised_total, parse_price};
use tcg_scraper::labels::{card_id_from_href, collection_id, ButtonTitle, LinkTitle};
use tcg_scraper::rarity::{Rarity, Tier};

#[test]
fn counter_digits_are_read_through_formatting() {
    assert_eq!(advertised_total("Results: 1,234 items"), Some(1234));
}

#[test]
fn counter_without_digits_is_zero() {
    assert_eq!(advertised_total("no results"), Some(0));
    assert_eq!(advertised_total(""), Some(0));
}

#[test]
fn counter_too_large_is_none() {
    assert_eq!(advertised_total("99999999999999999999999"), None);
    assert_eq!(advertised_total("18446744073709551615"), Some(u64::MAX));
}

#[test]
fn price_tolerates_currency_formatting() {
    assert_eq!(parse_price("¥1,280"), Some(1280));
    assert_eq!(parse_price(" 50 円"), Some(50));
}

#[test]
fn price_without_digits_is_none() {
    assert_eq!(parse_price("SOLD OUT"), None);
    assert_eq!(parse_price(""), None);
}

#[test]
fn known_rarity_labels_map_to_tiers() {
    assert!(matches!(Rarity::from_label("Ultra Rare (UR)"), Rarity::Known(Tier::UR)));
    assert!(matches!(Rarity::from_label("Promo"), Rarity::Known(Tier::PR)));
    assert!(matches!(Rarity::from_label("Trainer Rare (TR)"), Rarity::Known(Tier::TR)));
    assert!(matches!(Rarity::from_label("Rare (R)"), Rarity::Known(Tier::R)));
}

#[test]
fn unknown_rarity_keeps_its_label() {
    match Rarity::from_label("Mystery Rare (MR)") {
        Rarity::Unknown(s) => assert_eq!(s, "Mystery Rare (MR)"),
        other => panic!("unexpected {:?}", other),
    }
    match Rarity::from_label("rare (r)") {
        Rarity::Unknown(s) => assert_eq!(s, "rare (r)"),
        other => panic!("unexpected {:?}", other),
    }
    assert!(!Rarity::from_label("").is_known());
}

#[test]
fn bare_title_is_a_card_name() {
    match LinkTitle::parse("Pikachu ex") {
        LinkTitle::Card(t) => {
            assert_eq!(t.name, "Pikachu ex");
            assert_eq!(t.remark, None);
        }
        other => panic!("unexpected {:?}", other),
    }
}

#[test]
fn title_with_remark() {
    match LinkTitle::parse("Pikachu ex (Full Art)") {
        LinkTitle::Card(t) => {
            assert_eq!(t.name, "Pikachu ex");
            assert_eq!(t.remark.as_deref(), Some("Full Art"));
        }
        other => panic!("unexpected {:?}", other),
    }
}

#[test]
fn empty_title_is_not_a_card() {
    assert!(matches!(LinkTitle::parse(""), LinkTitle::NotCard));
}

#[test]
fn broken_brackets_are_malformed() {
    assert!(matches!(LinkTitle::parse("Pikachu (Full Art"), LinkTitle::Malformed));
    assert!(matches!(LinkTitle::parse("Pikachu) x"), LinkTitle::Malformed));
    assert!(matches!(LinkTitle::parse("(Full Art)"), LinkTitle::Malformed));
    assert!(matches!(LinkTitle::parse("Pikachu(Full Art)"), LinkTitle::Malformed));
    assert!(matches!(LinkTitle::parse("Pikachu (a) (b)"), LinkTitle::Malformed));
}

#[test]
fn card_id_is_last_path_segment() {
    assert_eq!(
        card_id_from_href("/ja/products/pokemon/cardViewer/98765").as_deref(),
        Some("98765")
    );
    assert_eq!(card_id_from_href("plain").as_deref(), Some("plain"));
    assert_eq!(card_id_from_href("/ja/products/"), None);
}

#[test]
fn collection_id_from_listing_url() {
    assert_eq!(
        collection_id("https://www.bigweb.co.jp/ja/products/pokemon/list?cardsets=7615"),
        Some(7615)
    );
    assert_eq!(collection_id("https://example.com/list"), None);
    assert_eq!(collection_id("https://example.com/list?cardsets="), None);
    assert_eq!(collection_id("https://example.com/list?cardsets=12a"), None);
}

#[test]
fn button_label_splits_name_and_code() {
    let b = ButtonTitle::parse("Scarlet ex SV1S").unwrap();
    assert_eq!(b.name, "Scarlet ex");
    assert_eq!(b.code, "SV1S");
    assert!(ButtonTitle::parse("All").is_none());
    assert!(ButtonTitle::parse(" SV1S").is_none());
    assert!(ButtonTitle::parse("Scarlet ex ").is_none());
    assert!(ButtonTitle::parse("Scarlet ex SV1S!").is_none());
}
