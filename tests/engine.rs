use tcg_scraper::convergence::{ConvergenceError, PollAction, PollStatus, Poller, RetryPolicy};
use tcg_scraper::navigator::{collect_selections, ControlOutcome, NavError, Selection};
use tcg_scraper::partition::partition;
use tcg_scraper::pipeline::settle_batch;
use tcg_scraper::record::{
    extract_batch, parse_item, Field, ParseError, ParseOutcome, RawItem, RawLink,
};
use tcg_scraper::rarity::{Rarity, Tier};
use tcg_scraper::sync::{SyncState, SyncTracker};

fn item(title: &str, href: &str) -> RawItem {
    RawItem {
        link: Some(RawLink { title_html: title.to_string(), href: Some(href.to_string()) }),
        number: Some("001/100".to_string()),
        rarity: Some("Rare (R)".to_string()),
        price: Some("¥1,200".to_string()),
    }
}

#[test]
fn item_becomes_record() {
    let out = parse_item(Some(7615), &item("  Pikachu &amp; Zekrom (Tag Team) ", "/card/42"));
    let rec = out.unwrap().unwrap();
    assert_eq!(rec.id, "42");
    assert_eq!(rec.collection, 7615);
    assert_eq!(rec.name, "Pikachu & Zekrom");
    assert_eq!(rec.remark.as_deref(), Some("Tag Team"));
    assert_eq!(rec.number.as_deref(), Some("001/100"));
    assert!(matches!(rec.rarity, Some(Rarity::Known(Tier::R))));
    assert_eq!(rec.price, Some(1200));
}

#[test]
fn optional_fields_may_be_absent() {
    let mut it = item("Eevee", "/card/7");
    it.number = None;
    it.rarity = None;
    it.price = Some("ask".to_string());
    let rec = parse_item(Some(1), &it).unwrap().unwrap();
    assert_eq!(rec.number, None);
    assert!(rec.rarity.is_none());
    assert_eq!(rec.price, None);
}

#[test]
fn unknown_rarity_survives_extraction() {
    let mut it = item("Eevee", "/card/7");
    it.rarity = Some("Shiny Secret".to_string());
    let rec = parse_item(Some(1), &it).unwrap().unwrap();
    match rec.rarity {
        Some(Rarity::Unknown(s)) => assert_eq!(s, "Shiny Secret"),
        other => panic!("unexpected {:?}", other),
    }
}

#[test]
fn malformed_title_is_an_error() {
    let out = parse_item(Some(1), &item("Eevee (promo", "/card/7"));
    assert!(matches!(out, Some(Err(ParseError::Malformed))));
}

#[test]
fn decorative_title_is_skipped() {
    assert!(parse_item(Some(1), &item("   ", "/card/7")).is_none());
}

#[test]
fn missing_fields_are_reported() {
    let no_link = RawItem { link: None, number: None, rarity: None, price: None };
    assert!(matches!(
        parse_item(Some(1), &no_link),
        Some(Err(ParseError::MissingField(Field::Id)))
    ));
    assert!(matches!(
        parse_item(Some(1), &item("Eevee", "/card/")),
        Some(Err(ParseError::MissingField(Field::Id)))
    ));
    assert!(matches!(
        parse_item(None, &item("Eevee", "/card/7")),
        Some(Err(ParseError::MissingField(Field::Collection)))
    ));
}

#[test]
fn extraction_is_repeatable() {
    let items = vec![item("A", "/c/1"), item("B (x)", "/c/2"), item("", "/c/3"), item("C (", "/c/4")];
    let a = extract_batch(Some(5), &items);
    let b = extract_batch(Some(5), &items);
    assert_eq!(a.len(), 3);
    assert_eq!(format!("{:?}", a), format!("{:?}", b));
}

#[test]
fn partition_keeps_every_outcome() {
    let outcomes: Vec<Result<u32, char>> = vec![Ok(1), Err('a'), Ok(2), Err('b'), Ok(3)];
    let (good, bad) = partition(outcomes);
    assert_eq!(good, vec![1, 2, 3]);
    assert_eq!(bad, vec!['a', 'b']);
    assert_eq!(good.len() + bad.len(), 5);
    let (g, b): (Vec<u32>, Vec<char>) = partition(Vec::new());
    assert!(g.is_empty() && b.is_empty());
}

#[test]
fn poller_converges_after_loads() {
    let mut p = Poller::new(Some(40), RetryPolicy::standard());
    assert_eq!(p.observe(20), Ok(PollAction::LoadMore));
    assert_eq!(p.observe(30), Ok(PollAction::LoadMore));
    assert_eq!(p.observe(40), Ok(PollAction::Done));
    assert_eq!(p.status(), PollStatus::Converged);
    assert_eq!(p.attempts(), 3);
}

#[test]
fn poller_gives_up_at_bound() {
    let mut p = Poller::new(Some(40), RetryPolicy { max_attempts: 3 });
    assert_eq!(p.observe(10), Ok(PollAction::LoadMore));
    assert_eq!(p.observe(20), Ok(PollAction::LoadMore));
    assert_eq!(p.observe(25), Err(ConvergenceError::CountMismatch { expected: 40, actual: 25 }));
    assert_eq!(p.status(), PollStatus::Failed(25));
    assert_eq!(p.observe(40), Err(ConvergenceError::CountMismatch { expected: 40, actual: 25 }));
    assert_eq!(p.attempts(), 3);
}

#[test]
fn poller_without_counter_is_done() {
    let mut p = Poller::new(None, RetryPolicy::standard());
    assert_eq!(p.status(), PollStatus::Converged);
    assert_eq!(p.expected(), 0);
    assert_eq!(p.observe(0), Ok(PollAction::Done));
}

#[test]
fn sync_tracker_transitions() {
    let mut t = SyncTracker::new();
    assert_eq!(t.state(9), SyncState::Unsynced);
    t.discover(9);
    assert_eq!(t.state(9), SyncState::Unsynced);
    assert!(!t.mark_synced(9));
    assert_eq!(t.record_fetch(9, 3, 0), SyncState::Synced);
    t.reset(9);
    assert_eq!(t.state(9), SyncState::Unsynced);
    assert!(t.mark_synced(9));
    assert_eq!(t.state(9), SyncState::Synced);
    assert_eq!(t.record_fetch(9, 3, 1), SyncState::Unsynced);
    assert!(!t.mark_synced(9));
    assert_eq!(t.record_fetch(9, 0, 0), SyncState::Unsynced);
    t.record_fetch(9, 2, 0);
    t.record_failure(9);
    assert_eq!(t.state(9), SyncState::Unsynced);
}

#[test]
fn partial_batch_stays_unsynced() {
    let mut p = Poller::new(advertised(), RetryPolicy::standard());
    assert_eq!(p.observe(20), Ok(PollAction::LoadMore));
    assert_eq!(p.observe(30), Ok(PollAction::LoadMore));
    assert_eq!(p.observe(40), Ok(PollAction::Done));
    let mut items = Vec::new();
    for i in 0..40u32 {
        if i == 5 || i == 17 {
            items.push(item("Broken (title", &format!("/card/{}", i)));
        } else {
            items.push(item(&format!("Card {}", i), &format!("/card/{}", i)));
        }
    }
    let outcomes: Vec<ParseOutcome> = extract_batch(Some(7615), &items);
    assert_eq!(outcomes.len(), 40);
    let mut tracker = SyncTracker::new();
    tracker.discover(7615);
    let (good, bad) = settle_batch(&mut tracker, 7615, outcomes);
    assert_eq!(good.len(), 38);
    assert_eq!(bad.len(), 2);
    assert_eq!(tracker.state(7615), SyncState::Unsynced);
}

fn advertised() -> Option<u64> {
    tcg_scraper::digits::advertised_total("40 items")
}

#[test]
fn clean_batch_syncs() {
    let mut tracker = SyncTracker::new();
    let outcomes = extract_batch(Some(3), &vec![item("A", "/c/1"), item("B", "/c/2")]);
    let (good, bad) = settle_batch(&mut tracker, 3, outcomes);
    assert_eq!((good.len(), bad.len()), (2, 0));
    assert_eq!(tracker.state(3), SyncState::Synced);
}

fn landed(code: &str) -> ControlOutcome {
    ControlOutcome::Landed {
        url: format!("https://www.bigweb.co.jp/ja/products/pokemon/list?cardsets={}", code),
        counter_text: "Results: 1,234".to_string(),
    }
}

#[test]
fn navigator_isolates_a_failed_control() {
    let mut sels = Vec::new();
    for i in 0..5 {
        let outcome = if i == 2 {
            ControlOutcome::IndicatorMissing("timeout".to_string())
        } else {
            landed(&format!("{}", 100 + i))
        };
        sels.push(Selection { label: format!("Set {} SV{}", i, i), outcome });
    }
    let results = collect_selections(&sels);
    assert_eq!(results.len(), 5);
    assert_eq!(results.iter().filter(|r| r.is_err()).count(), 1);
    assert!(matches!(&results[2], Err(NavError::IndicatorMissing(m)) if m == "timeout"));
    let first = results[0].as_ref().unwrap();
    assert_eq!(first.name, "Set 0");
    assert_eq!(first.code, "SV0");
    assert_eq!(first.id, Some(100));
    assert_eq!(first.result_count, 1234);
}

#[test]
fn navigator_skips_non_card_controls() {
    let sels = vec![
        Selection { label: "All".to_string(), outcome: landed("1") },
        Selection {
            label: "All".to_string(),
            outcome: ControlOutcome::ClickFailed("detached".to_string()),
        },
        Selection {
            label: "Big SV9".to_string(),
            outcome: ControlOutcome::Landed {
                url: "u".to_string(),
                counter_text: "99999999999999999999999".to_string(),
            },
        },
    ];
    let results = collect_selections(&sels);
    assert_eq!(results.len(), 2);
    assert!(matches!(&results[0], Err(NavError::ClickFailed(_))));
    assert!(matches!(&results[1], Err(NavError::CountOverflow)));
}
