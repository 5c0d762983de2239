use vstd::prelude::*;
use crate::html::{
    first_attr_of, first_inner_of, inner_matches_of, matches_of, select_all, select_all_inner,
    select_first_attr, select_first_inner,
};
use crate::labels::opt_view;
use crate::record::{
    batch_spec, extract_batch, items_view, outcomes_view, ParseOutcome, RawItem, RawItemView,
    RawLink,
};

verus! {

pub open spec fn texts_view(s: Seq<String>) -> Seq<Seq<char>> {
    s.map_values(|x: String| x@)
}

/// The item boxes of a rendered listing page, as HTML, in page order.
pub fn item_boxes(page: &str) -> (r: Vec<String>)
    ensures
        texts_view(r@) == matches_of(page@, ".item-box"@),
{
    select_all(page, ".item-box")
}

/// The text of the page's last result counter, if it has one.
pub fn counter_text(page: &str) -> (r: Option<String>)
    ensures
        r is None <==> inner_matches_of(page@, ".result_count"@).len() == 0,
        r matches Some(t) ==> t@ == inner_matches_of(page@, ".result_count"@).last(),
{
    let mut counters = select_all_inner(page, ".result_count");
    assert(texts_view(counters@).len() == counters@.len());
    if counters.len() > 0 {
        proof {
            assert(texts_view(counters@)[counters@.len() - 1] == counters@.last()@);
        }
    }
    counters.pop()
}

/// The labels of the selectable controls of a collection list, in order.
pub fn control_labels(fragment: &str) -> (r: Vec<String>)
    ensures
        texts_view(r@) == inner_matches_of(fragment@, "button.cardset-list-name"@),
{
    select_all_inner(fragment, "button.cardset-list-name")
}

/// What the parts of one item box read as.
pub open spec fn raw_item_of(item: Seq<char>) -> RawItemView {
    RawItemView {
        link: match first_inner_of(item, ".images-item-title a"@) {
            Some(t) => Some((t, first_attr_of(item, ".images-item-title a"@, "href"@))),
            None => None,
        },
        number: first_inner_of(item, ".grid-item-comment"@),
        rarity: first_inner_of(item, ".images-item-title span:nth-of-type(2)"@),
        price: first_inner_of(item, ".sales-price"@),
    }
}

fn inner(html: &str, sel: &str) -> (r: Option<String>)
    ensures
        opt_view(r) == first_inner_of(html@, sel@),
{
    select_first_inner(html, sel)
}

/// Reads the title link, catalog number, rarity label and price of one
/// item box.
pub fn read_item(item: &str) -> (r: RawItem)
    ensures
        r@ == raw_item_of(item@),
{
    let link = match inner(item, ".images-item-title a") {
        Some(t) => Some(
            RawLink {
                title_html: t,
                href: select_first_attr(item, ".images-item-title a", "href"),
            },
        ),
        None => None,
    };
    RawItem {
        link,
        number: inner(item, ".grid-item-comment"),
        rarity: inner(item, ".images-item-title span:nth-of-type(2)"),
        price: inner(item, ".sales-price"),
    }
}

/// The parse outcomes of every item box of a rendered listing page.
pub fn extract_page(collection: Option<u64>, page: &str) -> (r: Vec<ParseOutcome>)
    ensures
        outcomes_view(r@) == batch_spec(
            collection,
            matches_of(page@, ".item-box"@).map_values(|s: Seq<char>| raw_item_of(s)),
        ),
{
    let boxes = item_boxes(page);
    let ghost all = texts_view(boxes@);
    let mut items: Vec<RawItem> = Vec::new();
    let mut i: usize = 0;
    while i < boxes.len()
        invariant
            i <= boxes@.len(),
            all == texts_view(boxes@),
            items_view(items@) == all.subrange(0, i as int).map_values(
                |s: Seq<char>| raw_item_of(s),
            ),
        decreases boxes@.len() - i,
    {
        let ghost before = items@;
        let it = read_item(boxes[i].as_str());
        assert(boxes@[i as int]@ == all[i as int]);
        items.push(it);
        assert(items_view(items@) =~= items_view(before).push(it@));
        assert(all.subrange(0, i + 1).map_values(|s: Seq<char>| raw_item_of(s)) =~= all.subrange(
            0,
            i as int,
        ).map_values(|s: Seq<char>| raw_item_of(s)).push(raw_item_of(all[i as int])));
        i = i + 1;
    }
    assert(all.subrange(0, boxes@.len() as int) =~= all);
    extract_batch(collection, &items)
}

} // verus!
