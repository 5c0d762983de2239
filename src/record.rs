use vstd::prelude::*;
use crate::digits::{has_digit, number_in, parse_price};
use crate::labels::{card_id_from_href, card_id_spec, opt_view, title_spec, LinkTitle, TitleShape};
use crate::html::{decode_entities, decoded_of, trim_text, trimmed_of};
use crate::rarity::{rarity_of, Rarity, RarityView};

verus! {

/// The title link of one listing item, as read from the page.
#[derive(Debug, Clone)]
pub struct RawLink {
    /// The link's inner HTML, entities not yet decoded.
    pub title_html: String,
    pub href: Option<String>,
}

/// The parts of one listing item that a record is made from. Each is `None`
/// when the item has no such element.
#[derive(Debug, Clone)]
pub struct RawItem {
    pub link: Option<RawLink>,
    pub number: Option<String>,
    pub rarity: Option<String>,
    pub price: Option<String>,
}

pub struct RawItemView {
    pub link: Option<(Seq<char>, Option<Seq<char>>)>,
    pub number: Option<Seq<char>>,
    pub rarity: Option<Seq<char>>,
    pub price: Option<Seq<char>>,
}

impl View for RawItem {
    type V = RawItemView;

    open spec fn view(&self) -> RawItemView {
        RawItemView {
            link: match self.link {
                Some(l) => Some((l.title_html@, opt_view(l.href))),
                None => None,
            },
            number: opt_view(self.number),
            rarity: opt_view(self.rarity),
            price: opt_view(self.price),
        }
    }
}

/// A required field of a record.
#[derive(Debug, Clone, Copy, PartialEq, Eq, Structural)]
pub enum Field {
    Id,
    Collection,
    Name,
}

#[derive(Debug, Clone, Copy, PartialEq, Eq, Structural)]
pub enum ParseError {
    /// The title looks like a card title but breaks the grammar.
    Malformed,
    MissingField(Field),
}

/// One validated card record.
#[derive(Debug, Clone)]
pub struct ParsedRecord {
    pub id: String,
    pub collection: u64,
    pub name: String,
    pub remark: Option<String>,
    pub number: Option<String>,
    pub rarity: Option<Rarity>,
    pub price: Option<u64>,
}

pub struct RecordView {
    pub id: Seq<char>,
    pub collection: u64,
    pub name: Seq<char>,
    pub remark: Option<Seq<char>>,
    pub number: Option<Seq<char>>,
    pub rarity: Option<RarityView>,
    pub price: Option<u64>,
}

impl View for ParsedRecord {
    type V = RecordView;

    open spec fn view(&self) -> RecordView {
        RecordView {
            id: self.id@,
            collection: self.collection,
            name: self.name@,
            remark: opt_view(self.remark),
            number: opt_view(self.number),
            rarity: match self.rarity {
                Some(r) => Some(r@),
                None => None,
            },
            price: self.price,
        }
    }
}

pub type ParseOutcome = Result<ParsedRecord, ParseError>;

pub open spec fn outcome_view(o: ParseOutcome) -> Result<RecordView, ParseError> {
    match o {
        Ok(r) => Ok(r@),
        Err(e) => Err(e),
    }
}

/// A record under construction; `build` checks the required fields.
#[derive(Debug, Clone)]
pub struct RecordBuilder {
    pub id: Option<String>,
    pub collection: Option<u64>,
    pub name: Option<String>,
    pub remark: Option<String>,
    pub number: Option<String>,
    pub rarity: Option<Rarity>,
    pub price: Option<u64>,
}

pub open spec fn price_spec(text: Seq<char>) -> Option<u64> {
    if has_digit(text) && number_in(text) <= u64::MAX {
        Some(number_in(text) as u64)
    } else {
        None
    }
}

pub open spec fn build_spec(
    id: Option<Seq<char>>,
    collection: Option<u64>,
    name: Option<Seq<char>>,
    remark: Option<Seq<char>>,
    number: Option<Seq<char>>,
    rarity: Option<RarityView>,
    price: Option<u64>,
) -> Result<RecordView, ParseError> {
    if id is None {
        Err(ParseError::MissingField(Field::Id))
    } else if collection is None {
        Err(ParseError::MissingField(Field::Collection))
    } else if name is None {
        Err(ParseError::MissingField(Field::Name))
    } else {
        Ok(
            RecordView {
                id: id->0,
                collection: collection->0,
                name: name->0,
                remark,
                number,
                rarity,
                price,
            },
        )
    }
}

impl RecordBuilder {
    pub fn new() -> (r: RecordBuilder)
        ensures
            r.id is None && r.collection is None && r.name is None && r.remark is None
                && r.number is None && r.rarity is None && r.price is None,
    {
        RecordBuilder {
            id: None,
            collection: None,
            name: None,
            remark: None,
            number: None,
            rarity: None,
            price: None,
        }
    }

    /// The record, when identifier, collection and name are all set.
    pub fn build(self) -> (r: ParseOutcome)
        ensures
            outcome_view(r) == build_spec(
                opt_view(self.id),
                self.collection,
                opt_view(self.name),
                opt_view(self.remark),
                opt_view(self.number),
                match self.rarity {
                    Some(x) => Some(x@),
                    None => None,
                },
                self.price,
            ),
    {
        match (self.id, self.collection, self.name) {
            (Some(id), Some(collection), Some(name)) => Ok(
                ParsedRecord {
                    id,
                    collection,
                    name,
                    remark: self.remark,
                    number: self.number,
                    rarity: self.rarity,
                    price: self.price,
                },
            ),
            (None, _, _) => Err(ParseError::MissingField(Field::Id)),
            (_, None, _) => Err(ParseError::MissingField(Field::Collection)),
            (_, _, None) => Err(ParseError::MissingField(Field::Name)),
        }
    }
}

/// The title shape of an item's link, after decoding and trimming.
pub open spec fn link_shape(link: Option<(Seq<char>, Option<Seq<char>>)>) -> Option<TitleShape> {
    match link {
        Some((html, _)) => Some(title_spec(trimmed_of(decoded_of(html)))),
        None => None,
    }
}

/// What one item yields: nothing when its title is decorative, an error
/// when the title is malformed or a required field is missing, else the
/// record. Catalog number, rarity and price are each optional; a price
/// without digits is `None`, and a rarity label outside the vocabulary is
/// kept as `Unknown`.
pub open spec fn item_spec(collection: Option<u64>, item: RawItemView) -> Option<
    Result<RecordView, ParseError>,
> {
    let rarity = match item.rarity {
        Some(l) => Some(rarity_of(l)),
        None => None,
    };
    let price = match item.price {
        Some(p) => price_spec(p),
        None => None,
    };
    match link_shape(item.link) {
        Some(TitleShape::NotCard) => None,
        Some(TitleShape::Malformed) => Some(Err(ParseError::Malformed)),
        Some(TitleShape::Card(name, remark)) => {
            let id = match item.link {
                Some((_, Some(h))) => card_id_spec(h),
                _ => None,
            };
            Some(build_spec(id, collection, Some(name), remark, item.number, rarity, price))
        },
        None => Some(build_spec(None, collection, None, None, item.number, rarity, price)),
    }
}

fn clone_opt(o: &Option<String>) -> (r: Option<String>)
    ensures
        opt_view(r) == opt_view(*o),
{
    match o {
        Some(s) => Some(s.clone()),
        None => None,
    }
}

/// Turns one listing item into a parse outcome, or into nothing when its
/// title stands for no card.
pub fn parse_item(collection: Option<u64>, item: &RawItem) -> (r: Option<ParseOutcome>)
    ensures
        match r {
            Some(o) => item_spec(collection, item@) == Some(outcome_view(o)),
            None => item_spec(collection, item@) is None,
        },
{
    let mut builder = RecordBuilder::new();
    builder.collection = collection;
    match &item.link {
        Some(link) => {
            let decoded = decode_entities(link.title_html.as_str());
            let title = trim_text(decoded.as_str());
            match LinkTitle::parse(title.as_str()) {
                LinkTitle::NotCard => {
                    return None;
                },
                LinkTitle::Malformed => {
                    return Some(Err(ParseError::Malformed));
                },
                LinkTitle::Card(t) => {
                    builder.id =
                        match &link.href {
                            Some(h) => card_id_from_href(h.as_str()),
                            None => None,
                        };
                    builder.name = Some(t.name);
                    builder.remark = t.remark;
                },
            }
        },
        None => {},
    }
    builder.number = clone_opt(&item.number);
    builder.rarity =
        match &item.rarity {
            Some(l) => Some(Rarity::from_label(l.as_str())),
            None => None,
        };
    builder.price =
        match &item.price {
            Some(p) => parse_price(p.as_str()),
            None => None,
        };
    Some(builder.build())
}

pub open spec fn items_view(items: Seq<RawItem>) -> Seq<RawItemView> {
    items.map_values(|x: RawItem| x@)
}

pub open spec fn outcomes_view(os: Seq<ParseOutcome>) -> Seq<Result<RecordView, ParseError>> {
    os.map_values(|o: ParseOutcome| outcome_view(o))
}

/// The outcomes of a list of items, in order, with decorative items left out.
pub open spec fn batch_spec(collection: Option<u64>, items: Seq<RawItemView>) -> Seq<
    Result<RecordView, ParseError>,
>
    decreases items.len(),
{
    if items.len() == 0 {
        Seq::empty()
    } else {
        let rest = batch_spec(collection, items.drop_last());
        match item_spec(collection, items.last()) {
            Some(o) => rest.push(o),
            None => rest,
        }
    }
}

/// Parses every item of a listing; one bad item yields one error and never
/// stops the others.
pub fn extract_batch(collection: Option<u64>, items: &Vec<RawItem>) -> (r: Vec<ParseOutcome>)
    ensures
        outcomes_view(r@) == batch_spec(collection, items_view(items@)),
{
    let mut out: Vec<ParseOutcome> = Vec::new();
    let mut i: usize = 0;
    while i < items.len()
        invariant
            i <= items@.len(),
            outcomes_view(out@) == batch_spec(
                collection,
                items_view(items@.subrange(0, i as int)),
            ),
        decreases items@.len() - i,
    {
        let ghost before = out@;
        let ghost pre = items_view(items@.subrange(0, i as int));
        let ghost next = items_view(items@.subrange(0, i + 1));
        assert(next.drop_last() =~= pre);
        assert(next.last() == items@[i as int]@);
        match parse_item(collection, &items[i]) {
            Some(o) => {
                out.push(o);
                assert(outcomes_view(out@) =~= outcomes_view(before).push(outcome_view(o)));
            },
            None => {},
        }
        i = i + 1;
    }
    assert(items@.subrange(0, items@.len() as int) =~= items@);
    out
}

/// Extraction is a function of the rendered view: two runs over items that
/// read the same give the same outcomes, field for field.
pub proof fn lemma_extraction_repeatable(
    collection: Option<u64>,
    first: Seq<RawItem>,
    second: Seq<RawItem>,
    r1: Seq<ParseOutcome>,
    r2: Seq<ParseOutcome>,
)
    requires
        items_view(first) == items_view(second),
        outcomes_view(r1) == batch_spec(collection, items_view(first)),
        outcomes_view(r2) == batch_spec(collection, items_view(second)),
    ensures
        outcomes_view(r1) == outcomes_view(r2),
{
}

} // verus!
