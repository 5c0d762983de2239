use tcg_scraper::ptcg::{CardListing, PtcgScraper, TcgCollectorCardDetail};
use tcg_scraper::rarity::{Rarity, Tier};

const LIST: &str = r#"<html><body>
<span id="card-search-result-title-expansion-code"> SV4a </span>
<div class="card-list-item">
  <a class="card-list-item-entry-text" href="/cards/1/pikachu"> Pikachu </a>
  <span class="card-list-item-card-number"><span> 001/190 </span></span>
  <img class="card-rarity-symbol" title="Shiny Super Rare (SSR)">
</div>
<div class="card-list-item">
  <a class="card-list-item-entry-text" href="/cards/2/eevee">Eevee</a>
  <span class="card-list-item-card-number"><span>002/190</span></span>
</div>
<div class="card-list-item">
  <span class="card-list-item-card-number"><span>003/190</span></span>
</div>
</body></html>"#;

#[test]
fn card_rarities_are_read_from_list() {
    let r = PtcgScraper::new().fetch_tcg_collector_card_rarity(LIST);
    assert_eq!(r.len(), 2);
    assert!(matches!(r[0].rarity, Rarity::Known(Tier::SSR)));
    assert_eq!(r[0].url, "https://www.tcgcollector.com/cards/1/pikachu");
    match &r[1].rarity {
        Rarity::Unknown(s) => assert_eq!(s, ""),
        other => panic!("unexpected {:?}", other),
    }
}

#[test]
fn card_listings_are_read_from_list() {
    let s = PtcgScraper::new();
    let l = s.parse_card_listings(LIST);
    assert_eq!(l.len(), 2);
    assert_eq!(l[0].name, "Pikachu");
    assert_eq!(l[0].number, "001/190");
    assert_eq!(l[1].url, "https://www.tcgcollector.com/cards/2/eevee");
    assert_eq!(s.parse_expansion_code(LIST).as_deref(), Some("sv4a"));
    assert_eq!(s.parse_expansion_code("<p>none</p>"), None);
}

#[test]
fn card_detail_reads_page() {
    let page = r#"<html><body><div id="card-description">  A mouse. </div>
<div id="card-info-body"><div class="card-attack"><div><div class="card-attack-header-text"><div> Thunder </div><span> 120 </span></div></div></div></div>
</body></html>"#;
    let listing = CardListing {
        name: "Pikachu".to_string(),
        number: "001".to_string(),
        url: "https://www.tcgcollector.com/cards/1".to_string(),
        rarity: Rarity::Known(Tier::AR),
    };
    let detail = TcgCollectorCardDetail::from_listing("sv4a", listing, page.to_string());
    assert_eq!(detail.exp_code, "sv4a");
    let card = PtcgScraper::new().fetch_card_detail2(detail);
    assert_eq!(card.name, "Pikachu");
    assert_eq!(card.desc.as_deref(), Some("A mouse."));
    assert_eq!(card.skill1_name_en.as_deref(), Some("Thunder"));
    assert_eq!(card.skill1_damage.as_deref(), Some("120"));
    assert!(matches!(card.rarity, Some(Rarity::Known(Tier::AR))));
}

#[test]
fn expansions_are_read_from_grid() {
    let page = r#"<html><body>
<div class="expansion-logo-grid-item">
  <a class="expansion-logo-grid-item-expansion-name" href="/expansions/sv4a"> Shiny Treasure ex </a>
  <span class="expansion-logo-grid-item-expansion-code"> SV4a </span>
  <span class="expansion-logo-grid-item-release-date"> Dec 1, 2023 </span>
  <img class="expansion-symbol" src="sym.png">
</div>
<div class="expansion-logo-grid-item">
  <a class="expansion-logo-grid-item-expansion-name">No Code</a>
  <span class="expansion-logo-grid-item-release-date">Mar 22, 2024</span>
</div>
</body></html>"#;
    let e = PtcgScraper::new().fetch_tc_exps(page);
    assert_eq!(e.len(), 1);
    assert_eq!(e[0].name, "Shiny Treasure ex");
    assert_eq!(e[0].code, "sv4a");
    assert_eq!(e[0].link.as_deref(), Some("https://www.tcgcollector.com/expansions/sv4a"));
    assert_eq!(e[0].symbol_src.as_deref(), Some("sym.png"));
    assert_eq!(e[0].logo_src, None);
    assert_eq!((e[0].release_date.year, e[0].release_date.month, e[0].release_date.day), (2023, 12, 1));
}

#[test]
fn card_list_url_asks_for_list_layout() {
    assert_eq!(
        PtcgScraper::card_list_url("https://www.tcgcollector.com/cards/jp/sv4a"),
        "https://www.tcgcollector.com/cards/jp/sv4a?displayAs=list"
    );
}

