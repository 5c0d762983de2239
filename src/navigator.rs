use vstd::prelude::*;
use crate::digits::{advertised_total, number_in};
use crate::labels::{button_spec, collection_id, collection_id_spec, ButtonTitle};

verus! {

/// What happened when one control of the initial snapshot was selected.
#[derive(Debug, Clone)]
pub enum ControlOutcome {
    /// Invoking the control failed.
    ClickFailed(String),
    /// The result indicator never appeared.
    IndicatorMissing(String),
    /// The sub-view stabilized: its URL and the text of its result counter.
    Landed { url: String, counter_text: String },
}

/// One control of the snapshot: its label and what selecting it gave.
#[derive(Debug, Clone)]
pub struct Selection {
    pub label: String,
    pub outcome: ControlOutcome,
}

#[derive(Debug, Clone)]
pub enum NavError {
    ClickFailed(String),
    IndicatorMissing(String),
    /// The result counter spells a number too large to hold.
    CountOverflow,
}

/// A collection reached through a control.
#[derive(Debug, Clone)]
pub struct Cardset {
    pub url: String,
    /// The key derived from `url`, when it carries one.
    pub id: Option<u64>,
    pub code: String,
    pub name: String,
    pub result_count: u64,
}

pub enum OutcomeView {
    ClickFailed(Seq<char>),
    IndicatorMissing(Seq<char>),
    Landed(Seq<char>, Seq<char>),
}

pub enum NavErrorView {
    ClickFailed(Seq<char>),
    IndicatorMissing(Seq<char>),
    CountOverflow,
}

pub struct CardsetView {
    pub url: Seq<char>,
    pub id: Option<u64>,
    pub code: Seq<char>,
    pub name: Seq<char>,
    pub result_count: u64,
}

impl View for ControlOutcome {
    type V = OutcomeView;

    open spec fn view(&self) -> OutcomeView {
        match self {
            ControlOutcome::ClickFailed(m) => OutcomeView::ClickFailed(m@),
            ControlOutcome::IndicatorMissing(m) => OutcomeView::IndicatorMissing(m@),
            ControlOutcome::Landed { url, counter_text } => OutcomeView::Landed(
                url@,
                counter_text@,
            ),
        }
    }
}

impl View for NavError {
    type V = NavErrorView;

    open spec fn view(&self) -> NavErrorView {
        match self {
            NavError::ClickFailed(m) => NavErrorView::ClickFailed(m@),
            NavError::IndicatorMissing(m) => NavErrorView::IndicatorMissing(m@),
            NavError::CountOverflow => NavErrorView::CountOverflow,
        }
    }
}

impl View for Cardset {
    type V = CardsetView;

    open spec fn view(&self) -> CardsetView {
        CardsetView {
            url: self.url@,
            id: self.id,
            code: self.code@,
            name: self.name@,
            result_count: self.result_count,
        }
    }
}

pub type NavResult = Result<Cardset, NavError>;

pub open spec fn nav_view(r: NavResult) -> Result<CardsetView, NavErrorView> {
    match r {
        Ok(c) => Ok(c@),
        Err(e) => Err(e@),
    }
}

/// What one selected control yields: an error when it could not be
/// followed, nothing when its label is not `<name> <code>` (it bears no
/// cards), else the collection it leads to.
pub open spec fn control_spec(label: Seq<char>, o: OutcomeView) -> Option<
    Result<CardsetView, NavErrorView>,
> {
    match o {
        OutcomeView::ClickFailed(m) => Some(Err(NavErrorView::ClickFailed(m))),
        OutcomeView::IndicatorMissing(m) => Some(Err(NavErrorView::IndicatorMissing(m))),
        OutcomeView::Landed(url, counter) => if number_in(counter) > u64::MAX {
            Some(Err(NavErrorView::CountOverflow))
        } else {
            match button_spec(label) {
                None => None,
                Some((name, code)) => Some(
                    Ok(
                        CardsetView {
                            url,
                            id: collection_id_spec(url),
                            code,
                            name,
                            result_count: number_in(counter) as u64,
                        },
                    ),
                ),
            }
        },
    }
}

fn copy_text(s: &String) -> (r: String)
    ensures
        r@ == s@,
{
    s.clone()
}

/// Resolves one selected control.
pub fn resolve_control(label: &str, outcome: &ControlOutcome) -> (r: Option<NavResult>)
    ensures
        match r {
            Some(x) => control_spec(label@, outcome@) == Some(nav_view(x)),
            None => control_spec(label@, outcome@) is None,
        },
{
    match outcome {
        ControlOutcome::ClickFailed(m) => Some(Err(NavError::ClickFailed(copy_text(m)))),
        ControlOutcome::IndicatorMissing(m) => Some(
            Err(NavError::IndicatorMissing(copy_text(m))),
        ),
        ControlOutcome::Landed { url, counter_text } => {
            let count = match advertised_total(counter_text.as_str()) {
                Some(n) => n,
                None => {
                    return Some(Err(NavError::CountOverflow));
                },
            };
            match ButtonTitle::parse(label) {
                None => None,
                Some(b) => Some(
                    Ok(
                        Cardset {
                            url: copy_text(url),
                            id: collection_id(url.as_str()),
                            code: b.code,
                            name: b.name,
                            result_count: count,
                        },
                    ),
                ),
            }
        },
    }
}

pub open spec fn selections_spec(s: Seq<Selection>) -> Seq<Result<CardsetView, NavErrorView>>
    decreases s.len(),
{
    if s.len() == 0 {
        Seq::empty()
    } else {
        let rest = selections_spec(s.drop_last());
        match control_spec(s.last().label@, s.last().outcome@) {
            Some(x) => rest.push(x),
            None => rest,
        }
    }
}

pub open spec fn nav_views(r: Seq<NavResult>) -> Seq<Result<CardsetView, NavErrorView>> {
    r.map_values(|x: NavResult| nav_view(x))
}

/// The results of every control of a snapshot, in snapshot order; a failed
/// control gives its error and the others go on.
pub fn collect_selections(selections: &Vec<Selection>) -> (r: Vec<NavResult>)
    ensures
        nav_views(r@) == selections_spec(selections@),
{
    let mut out: Vec<NavResult> = Vec::new();
    let mut i: usize = 0;
    while i < selections.len()
        invariant
            i <= selections@.len(),
            nav_views(out@) == selections_spec(selections@.subrange(0, i as int)),
        decreases selections@.len() - i,
    {
        let ghost before = out@;
        let ghost next = selections@.subrange(0, i + 1);
        assert(next.drop_last() =~= selections@.subrange(0, i as int));
        let s = &selections[i];
        match resolve_control(s.label.as_str(), &s.outcome) {
            Some(x) => {
                out.push(x);
                assert(nav_views(out@) =~= nav_views(before).push(nav_view(x)));
            },
            None => {},
        }
        i = i + 1;
    }
    assert(selections@.subrange(0, selections@.len() as int) =~= selections@);
    out
}

} // verus!
