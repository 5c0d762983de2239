use vstd::prelude::*;
use chrono::Datelike;
use crate::html::{
    first_attr_of, first_inner_of, lowercase_text, lowered_of, matches_of, select_all,
    select_first_attr, select_first_inner, trim_text, trimmed_of,
};
use crate::labels::opt_view;
use crate::listing::texts_view;
use crate::rarity::{rarity_of, Rarity, RarityView};

verus! {

/// The day, month and year that a release-date text such as "Mar 22, 2024"
/// names, when it names one.
pub uninterp spec fn date_parts_of(text: Seq<char>) -> Option<(i32, u32, u32)>;

/// Relies on chrono's NaiveDate::parse_from_str with format "%b %d, %Y",
/// and on Datelike, whose month lies in 1..=12 and day in 1..=31.
#[verifier::external_body]
fn parse_release_date(text: &str) -> (r: Option<(i32, u32, u32)>)
    ensures
        r == date_parts_of(text@),
        r matches Some((_, m, d)) ==> 1 <= m <= 12 && 1 <= d <= 31,
{
    let d = chrono::NaiveDate::parse_from_str(text, "%b %d, %Y").ok()?;
    Some((d.year(), d.month(), d.day()))
}

/// A calendar date.
#[derive(Debug, Clone, Copy, PartialEq, Eq, Structural)]
pub struct CalendarDate {
    pub year: i32,
    pub month: u32,
    pub day: u32,
}

impl CalendarDate {
    pub open spec fn wf(&self) -> bool {
        1 <= self.month <= 12 && 1 <= self.day <= 31
    }
}

/// Reads card listings and card pages of the tcgcollector site.
pub struct PtcgScraper {}

#[derive(Debug, Clone)]
pub struct PtcgJpExpansion {
    pub name: String,
    pub code: String,
    pub link: Option<String>,
    pub symbol_src: Option<String>,
    pub logo_src: Option<String>,
    pub release_date: CalendarDate,
}

#[derive(Debug, Clone)]
pub struct TcgCollectorCardRarity {
    pub rarity: Rarity,
    pub url: String,
}

/// One entry of an expansion's card list, before its own page is fetched.
#[derive(Debug, Clone)]
pub struct CardListing {
    pub name: String,
    pub number: String,
    pub url: String,
    pub rarity: Rarity,
}

#[derive(Debug, Clone)]
pub struct TcgCollectorCardDetail {
    pub name: String,
    pub number: String,
    pub exp_code: String,
    pub html: String,
    pub url: String,
    pub rarity: Option<Rarity>,
}

#[derive(Debug, Clone)]
pub struct PtcgJpCard {
    pub name: String,
    pub number: String,
    pub exp_code: String,
    pub desc: Option<String>,
    pub skill1_name_en: Option<String>,
    pub skill1_damage: Option<String>,
    pub rarity: Option<Rarity>,
}

/// Keeps, in order, what `f` makes of each element of `s` that it accepts.
pub open spec fn filter_map<A, B>(s: Seq<A>, f: spec_fn(A) -> Option<B>) -> Seq<B>
    decreases s.len(),
{
    if s.len() == 0 {
        Seq::empty()
    } else {
        let rest = filter_map(s.drop_last(), f);
        match f(s.last()) {
            Some(b) => rest.push(b),
            None => rest,
        }
    }
}

pub proof fn lemma_filter_map_step<A, B>(s: Seq<A>, i: int, f: spec_fn(A) -> Option<B>)
    requires
        0 <= i < s.len(),
    ensures
        filter_map(s.subrange(0, i + 1), f) == (match f(s[i]) {
            Some(b) => filter_map(s.subrange(0, i), f).push(b),
            None => filter_map(s.subrange(0, i), f),
        }),
{
    assert(s.subrange(0, i + 1).drop_last() =~= s.subrange(0, i));
}

pub open spec fn site_url(path: Seq<char>) -> Seq<char> {
    "https://www.tcgcollector.com"@ + path
}

fn site_url_exec(path: &str) -> (r: String)
    ensures
        r@ == site_url(path@),
{
    String::from_str("https://www.tcgcollector.com").concat(path)
}

pub open spec fn trim_opt(o: Option<Seq<char>>) -> Option<Seq<char>> {
    match o {
        Some(s) => Some(trimmed_of(s)),
        None => None,
    }
}

fn first_inner_trimmed(html: &str, sel: &str) -> (r: Option<String>)
    ensures
        opt_view(r) == trim_opt(first_inner_of(html@, sel@)),
{
    match select_first_inner(html, sel) {
        Some(s) => Some(trim_text(s.as_str())),
        None => None,
    }
}

/// The rarity of a card-list item: the title of its rarity symbol, empty
/// when it has none.
pub open spec fn item_rarity(item: Seq<char>) -> RarityView {
    match first_attr_of(item, ".card-rarity-symbol"@, "title"@) {
        Some(t) => rarity_of(t),
        None => rarity_of(""@),
    }
}

fn read_item_rarity(item: &str) -> (r: Rarity)
    ensures
        r@ == item_rarity(item@),
{
    match select_first_attr(item, ".card-rarity-symbol", "title") {
        Some(t) => Rarity::from_label(t.as_str()),
        None => Rarity::from_label(""),
    }
}

pub open spec fn item_path(item: Seq<char>) -> Option<Seq<char>> {
    first_attr_of(item, ".card-list-item-entry-text"@, "href"@)
}

/// A card-list item's rarity and page URL; items without a link are left out.
pub open spec fn rarity_entry(item: Seq<char>) -> Option<(RarityView, Seq<char>)> {
    match item_path(item) {
        Some(p) => Some((item_rarity(item), site_url(p))),
        None => None,
    }
}

/// A card-list item's name, number, page URL and rarity; items without a
/// link, a name or a number are left out.
pub open spec fn listing_entry(item: Seq<char>) -> Option<
    (Seq<char>, Seq<char>, Seq<char>, RarityView),
> {
    match (
        item_path(item),
        trim_opt(first_inner_of(item, ".card-list-item-entry-text"@)),
        trim_opt(first_inner_of(item, ".card-list-item-card-number > span"@)),
    ) {
        (Some(p), Some(name), Some(number)) => Some((name, number, site_url(p), item_rarity(item))),
        _ => None,
    }
}

pub struct ExpansionView {
    pub name: Seq<char>,
    pub code: Seq<char>,
    pub link: Option<Seq<char>>,
    pub symbol_src: Option<Seq<char>>,
    pub logo_src: Option<Seq<char>>,
    pub release_date: CalendarDate,
}

/// One grid item of the expansion list; items without a readable release
/// date, a name or a code are left out.
pub open spec fn expansion_entry(item: Seq<char>) -> Option<ExpansionView> {
    let date = match trim_opt(first_inner_of(item, ".expansion-logo-grid-item-release-date"@)) {
        Some(t) => date_parts_of(t),
        None => None,
    };
    let name = trim_opt(first_inner_of(item, ".expansion-logo-grid-item-expansion-name"@));
    let code = trim_opt(first_inner_of(item, ".expansion-logo-grid-item-expansion-code"@));
    match (date, name, code) {
        (Some((y, m, d)), Some(n), Some(c)) => Some(
            ExpansionView {
                name: n,
                code: lowered_of(c),
                link: match first_attr_of(
                    item,
                    ".expansion-logo-grid-item-expansion-name"@,
                    "href"@,
                ) {
                    Some(p) => Some(site_url(p)),
                    None => None,
                },
                symbol_src: first_attr_of(item, ".expansion-symbol"@, "src"@),
                logo_src: first_attr_of(item, ".expansion-logo-grid-item-expansion-logo"@, "src"@),
                release_date: CalendarDate { year: y, month: m, day: d },
            },
        ),
        _ => None,
    }
}

impl View for PtcgJpExpansion {
    type V = ExpansionView;

    open spec fn view(&self) -> ExpansionView {
        ExpansionView {
            name: self.name@,
            code: self.code@,
            link: opt_view(self.link),
            symbol_src: opt_view(self.symbol_src),
            logo_src: opt_view(self.logo_src),
            release_date: self.release_date,
        }
    }
}

pub open spec fn rarity_entry_view(r: TcgCollectorCardRarity) -> (RarityView, Seq<char>) {
    (r.rarity@, r.url@)
}

pub open spec fn listing_view(l: CardListing) -> (Seq<char>, Seq<char>, Seq<char>, RarityView) {
    (l.name@, l.number@, l.url@, l.rarity@)
}

impl PtcgScraper {
    pub fn new() -> (r: PtcgScraper) {
        PtcgScraper {  }
    }

    /// The address of an expansion's card list, laid out as a list.
    pub fn card_list_url(link: &str) -> (r: String)
        ensures
            r@ == link@ + "?displayAs=list"@,
    {
        String::from_str(link).concat("?displayAs=list")
    }

    /// The expansions of the expansion-list page `source`, in page order.
    pub fn fetch_tc_exps(&self, source: &str) -> (r: Vec<PtcgJpExpansion>)
        ensures
            r@.map_values(|e: PtcgJpExpansion| e@) == filter_map(
                matches_of(source@, ".expansion-logo-grid-item"@),
                |s: Seq<char>| expansion_entry(s),
            ),
            forall|i: int| 0 <= i < r@.len() ==> (#[trigger] r@[i]).release_date.wf(),
    {
        let items = select_all(source, ".expansion-logo-grid-item");
        let ghost all = texts_view(items@);
        let ghost f = |s: Seq<char>| expansion_entry(s);
        let mut out: Vec<PtcgJpExpansion> = Vec::new();
        let mut i: usize = 0;
        while i < items.len()
            invariant
                i <= items@.len(),
                all == texts_view(items@),
                all == matches_of(source@, ".expansion-logo-grid-item"@),
                f == (|s: Seq<char>| expansion_entry(s)),
                out@.map_values(|e: PtcgJpExpansion| e@) == filter_map(
                    all.subrange(0, i as int),
                    f,
                ),
                forall|j: int| 0 <= j < out@.len() ==> (#[trigger] out@[j]).release_date.wf(),
            decreases items@.len() - i,
        {
            proof {
                lemma_filter_map_step(all, i as int, f);
            }
            let ghost before = out@;
            let item = items[i].as_str();
            assert(item@ == all[i as int]);
            let date = match first_inner_trimmed(item, ".expansion-logo-grid-item-release-date") {
                Some(t) => parse_release_date(t.as_str()),
                None => None,
            };
            let name = first_inner_trimmed(item, ".expansion-logo-grid-item-expansion-name");
            let code = first_inner_trimmed(item, ".expansion-logo-grid-item-expansion-code");
            match (date, name, code) {
                (Some((y, m, d)), Some(name), Some(code)) => {
                    let link = match select_first_attr(
                        item,
                        ".expansion-logo-grid-item-expansion-name",
                        "href",
                    ) {
                        Some(p) => Some(site_url_exec(p.as_str())),
                        None => None,
                    };
                    let exp = PtcgJpExpansion {
                        name,
                        code: lowercase_text(code.as_str()),
                        link,
                        symbol_src: select_first_attr(item, ".expansion-symbol", "src"),
                        logo_src: select_first_attr(
                            item,
                            ".expansion-logo-grid-item-expansion-logo",
                            "src",
                        ),
                        release_date: CalendarDate { year: y, month: m, day: d },
                    };
                    out.push(exp);
                    assert(out@.map_values(|e: PtcgJpExpansion| e@) =~= before.map_values(
                        |e: PtcgJpExpansion| e@,
                    ).push(exp@));
                },
                _ => {},
            }
            i = i + 1;
        }
        assert(all.subrange(0, items@.len() as int) =~= all);
        out
    }

    /// The rarity and page URL of each card of the card-list page `source`.
    pub fn fetch_tcg_collector_card_rarity(&self, source: &str) -> (r: Vec<TcgCollectorCardRarity>)
        ensures
            r@.map_values(|x: TcgCollectorCardRarity| rarity_entry_view(x)) == filter_map(
                matches_of(source@, ".card-list-item"@),
                |s: Seq<char>| rarity_entry(s),
            ),
    {
        let items = select_all(source, ".card-list-item");
        let ghost all = texts_view(items@);
        let ghost f = |s: Seq<char>| rarity_entry(s);
        let mut out: Vec<TcgCollectorCardRarity> = Vec::new();
        let mut i: usize = 0;
        while i < items.len()
            invariant
                i <= items@.len(),
                all == texts_view(items@),
                all == matches_of(source@, ".card-list-item"@),
                f == (|s: Seq<char>| rarity_entry(s)),
                out@.map_values(|x: TcgCollectorCardRarity| rarity_entry_view(x)) == filter_map(
                    all.subrange(0, i as int),
                    f,
                ),
            decreases items@.len() - i,
        {
            proof {
                lemma_filter_map_step(all, i as int, f);
            }
            let ghost before = out@;
            let item = items[i].as_str();
            assert(item@ == all[i as int]);
            match select_first_attr(item, ".card-list-item-entry-text", "href") {
                Some(p) => {
                    let card = TcgCollectorCardRarity {
                        rarity: read_item_rarity(item),
                        url: site_url_exec(p.as_str()),
                    };
                    out.push(card);
                    assert(out@.map_values(|x: TcgCollectorCardRarity| rarity_entry_view(x))
                        =~= before.map_values(
                        |x: TcgCollectorCardRarity| rarity_entry_view(x),
                    ).push(rarity_entry_view(card)));
                },
                None => {},
            }
            i = i + 1;
        }
        assert(all.subrange(0, items@.len() as int) =~= all);
        out
    }

    /// The expansion code of the card-list page `source` (trimmed and
    /// lowercased), or `None` when the page shows none.
    pub fn parse_expansion_code(&self, source: &str) -> (r: Option<String>)
        ensures
            opt_view(r) == (match trim_opt(
                first_inner_of(source@, "#card-search-result-title-expansion-code"@),
            ) {
                Some(c) => Some(lowered_of(c)),
                None => None,
            }),
    {
        match first_inner_trimmed(source, "#card-search-result-title-expansion-code") {
            Some(c) => Some(lowercase_text(c.as_str())),
            None => None,
        }
    }

    /// The cards of the card-list page `source`, in page order.
    pub fn parse_card_listings(&self, source: &str) -> (r: Vec<CardListing>)
        ensures
            r@.map_values(|x: CardListing| listing_view(x)) == filter_map(
                matches_of(source@, ".card-list-item"@),
                |s: Seq<char>| listing_entry(s),
            ),
    {
        let items = select_all(source, ".card-list-item");
        let ghost all = texts_view(items@);
        let ghost f = |s: Seq<char>| listing_entry(s);
        let mut out: Vec<CardListing> = Vec::new();
        let mut i: usize = 0;
        while i < items.len()
            invariant
                i <= items@.len(),
                all == texts_view(items@),
                all == matches_of(source@, ".card-list-item"@),
                f == (|s: Seq<char>| listing_entry(s)),
                out@.map_values(|x: CardListing| listing_view(x)) == filter_map(
                    all.subrange(0, i as int),
                    f,
                ),
            decreases items@.len() - i,
        {
            proof {
                lemma_filter_map_step(all, i as int, f);
            }
            let ghost before = out@;
            let item = items[i].as_str();
            assert(item@ == all[i as int]);
            let path = select_first_attr(item, ".card-list-item-entry-text", "href");
            let name = first_inner_trimmed(item, ".card-list-item-entry-text");
            let number = first_inner_trimmed(item, ".card-list-item-card-number > span");
            match (path, name, number) {
                (Some(p), Some(name), Some(number)) => {
                    let card = CardListing {
                        name,
                        number,
                        url: site_url_exec(p.as_str()),
                        rarity: read_item_rarity(item),
                    };
                    out.push(card);
                    assert(out@.map_values(|x: CardListing| listing_view(x)) =~= before.map_values(
                        |x: CardListing| listing_view(x),
                    ).push(listing_view(card)));
                },
                _ => {},
            }
            i = i + 1;
        }
        assert(all.subrange(0, items@.len() as int) =~= all);
        out
    }

    /// Completes a card from its list entry and the HTML of its own page:
    /// the description and first attack are read from the page, trimmed,
    /// each `None` when the page lacks it.
    pub fn fetch_card_detail2(&self, detail: TcgCollectorCardDetail) -> (r: PtcgJpCard)
        ensures
            r.name == detail.name,
            r.number == detail.number,
            r.exp_code == detail.exp_code,
            r.rarity == detail.rarity,
            opt_view(r.desc) == trim_opt(first_inner_of(detail.html@, "#card-description"@)),
            opt_view(r.skill1_name_en) == trim_opt(
                first_inner_of(
                    detail.html@,
                    "#card-info-body > div.card-attack > div > div.card-attack-header-text > div"@,
                ),
            ),
            opt_view(r.skill1_damage) == trim_opt(
                first_inner_of(
                    detail.html@,
                    "#card-info-body > div.card-attack > div > div.card-attack-header-text > span"@,
                ),
            ),
    {
        let html = detail.html.as_str();
        let desc = first_inner_trimmed(html, "#card-description");
        let skill1_name_en = first_inner_trimmed(
            html,
            "#card-info-body > div.card-attack > div > div.card-attack-header-text > div",
        );
        let skill1_damage = first_inner_trimmed(
            html,
            "#card-info-body > div.card-attack > div > div.card-attack-header-text > span",
        );
        PtcgJpCard {
            name: detail.name,
            number: detail.number,
            exp_code: detail.exp_code,
            desc,
            skill1_name_en,
            skill1_damage,
            rarity: detail.rarity,
        }
    }
}

impl TcgCollectorCardDetail {
    /// A card entry of expansion `exp_code` together with its page's HTML.
    pub fn from_listing(exp_code: &str, listing: CardListing, html: String) -> (r:
        TcgCollectorCardDetail)
        ensures
            r.name == listing.name,
            r.number == listing.number,
            r.exp_code@ == exp_code@,
            r.html == html,
            r.url == listing.url,
            r.rarity == Some(listing.rarity),
    {
        TcgCollectorCardDetail {
            name: listing.name,
            number: listing.number,
            exp_code: String::from_str(exp_code),
            html,
            url: listing.url,
            rarity: Some(listing.rarity),
        }
    }
}

} // verus!
