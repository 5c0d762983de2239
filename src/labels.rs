use vstd::prelude::*;
use crate::digits::{is_digit, number_in, scan_digits};
use crate::text::{
    after_last, before_last, contains_char, find_first, find_last, index_of_first, index_of_last,
};

verus! {

/// A card title: `<name>` or `<name> (<remark>)`.
#[derive(Debug, Clone)]
pub struct CardTitle {
    pub name: String,
    pub remark: Option<String>,
}

/// What a listing title turns out to be.
#[derive(Debug, Clone)]
pub enum LinkTitle {
    Card(CardTitle),
    /// Decorative text that stands for no record.
    NotCard,
    /// Text shaped like a card title that breaks the grammar.
    Malformed,
}

/// The mathematical reading of a `LinkTitle`.
pub enum TitleShape {
    Card(Seq<char>, Option<Seq<char>>),
    NotCard,
    Malformed,
}

pub open spec fn opt_view(o: Option<String>) -> Option<Seq<char>> {
    match o {
        Some(s) => Some(s@),
        None => None,
    }
}

impl LinkTitle {
    pub open spec fn shape(&self) -> TitleShape {
        match self {
            LinkTitle::Card(t) => TitleShape::Card(t.name@, opt_view(t.remark)),
            LinkTitle::NotCard => TitleShape::NotCard,
            LinkTitle::Malformed => TitleShape::Malformed,
        }
    }
}

pub open spec fn has_paren(s: Seq<char>) -> bool {
    contains_char(s, '(') || contains_char(s, ')')
}

/// The title grammar. An empty title is no card. A title without brackets is
/// a bare name. Otherwise it must be a name without brackets, one space, and
/// a remark in one pair of brackets that closes the title.
pub open spec fn title_spec(t: Seq<char>) -> TitleShape {
    if t.len() == 0 {
        TitleShape::NotCard
    } else if !has_paren(t) {
        TitleShape::Card(t, None)
    } else {
        let k = index_of_first(t, '(');
        if k >= 2 && t[k - 1] == ' ' && t.last() == ')' && k < t.len() - 1 && !has_paren(
            t.subrange(0, k - 1),
        ) && !has_paren(t.subrange(k + 1, t.len() - 1)) {
            TitleShape::Card(t.subrange(0, k - 1), Some(t.subrange(k + 1, t.len() - 1)))
        } else {
            TitleShape::Malformed
        }
    }
}

fn has_paren_exec(s: &str) -> (r: bool)
    ensures
        r == has_paren(s@),
{
    find_first(s, '(').is_some() || find_first(s, ')').is_some()
}

impl LinkTitle {
    /// Reads a (decoded, trimmed) listing title by the title grammar.
    pub fn parse(t: &str) -> (r: LinkTitle)
        ensures
            r.shape() == title_spec(t@),
    {
        let n = t.unicode_len();
        if n == 0 {
            return LinkTitle::NotCard;
        }
        if !has_paren_exec(t) {
            return LinkTitle::Card(CardTitle { name: String::from_str(t), remark: None });
        }
        match find_first(t, '(') {
            Some(k) => {
                if k >= 2 && t.get_char(k - 1) == ' ' && t.get_char(n - 1) == ')' && k < n - 1 {
                    let name = t.substring_char(0, k - 1);
                    let remark = t.substring_char(k + 1, n - 1);
                    if !has_paren_exec(name) && !has_paren_exec(remark) {
                        return LinkTitle::Card(
                            CardTitle {
                                name: String::from_str(name),
                                remark: Some(String::from_str(remark)),
                            },
                        );
                    }
                }
                LinkTitle::Malformed
            },
            None => LinkTitle::Malformed,
        }
    }
}

/// What follows the last `c` in `s`, as a string.
fn tail_after(s: &str, c: char) -> (r: String)
    ensures
        r@ == after_last(s@, c),
{
    let n = s.unicode_len();
    match find_last(s, c) {
        Some(k) => String::from_str(s.substring_char(k + 1, n)),
        None => String::from_str(s.substring_char(0, n)),
    }
}

/// The identifier that a card link carries: its last path segment.
pub open spec fn card_id_spec(href: Seq<char>) -> Option<Seq<char>> {
    if after_last(href, '/').len() == 0 {
        None
    } else {
        Some(after_last(href, '/'))
    }
}

/// The last path segment of a card link; `None` when it is empty.
pub fn card_id_from_href(href: &str) -> (r: Option<String>)
    ensures
        opt_view(r) == card_id_spec(href@),
{
    let id = tail_after(href, '/');
    if id.as_str().unicode_len() == 0 {
        None
    } else {
        Some(id)
    }
}

pub open spec fn all_digits(s: Seq<char>) -> bool {
    forall|i: int| 0 <= i < s.len() ==> is_digit(#[trigger] s[i])
}

fn all_digits_exec(s: &str) -> (r: bool)
    ensures
        r == all_digits(s@),
{
    let n = s.unicode_len();
    let mut i: usize = 0;
    while i < n
        invariant
            n == s@.len(),
            i <= n,
            forall|j: int| 0 <= j < i ==> is_digit(#[trigger] s@[j]),
        decreases n - i,
    {
        let c = s.get_char(i);
        if !('0' <= c && c <= '9') {
            return false;
        }
        i = i + 1;
    }
    true
}

/// The key of a collection, derived from its listing URL: the value of the
/// URL's last `=`-parameter, which must be a non-empty run of digits that
/// fits in a `u64`.
pub open spec fn collection_id_spec(url: Seq<char>) -> Option<u64> {
    let v = after_last(url, '=');
    if index_of_last(url, '=') >= 0 && v.len() > 0 && all_digits(v) && number_in(v)
        <= u64::MAX {
        Some(number_in(v) as u64)
    } else {
        None
    }
}

pub fn collection_id(url: &str) -> (r: Option<u64>)
    ensures
        r == collection_id_spec(url@),
{
    if find_last(url, '=').is_none() {
        return None;
    }
    let v = tail_after(url, '=');
    let vs = v.as_str();
    if vs.unicode_len() == 0 || !all_digits_exec(vs) {
        return None;
    }
    match scan_digits(vs) {
        Some((n, _)) => Some(n),
        None => None,
    }
}

/// A control label: `<name> <code>`.
#[derive(Debug, Clone)]
pub struct ButtonTitle {
    pub name: String,
    pub code: String,
}

pub open spec fn is_code_char(c: char) -> bool {
    ('0' <= c && c <= '9') || ('A' <= c && c <= 'Z') || ('a' <= c && c <= 'z') || c == '-'
}

/// A set code: a non-empty run of ASCII letters, digits and `-`.
pub open spec fn is_code(s: Seq<char>) -> bool {
    s.len() > 0 && forall|i: int| 0 <= i < s.len() ==> is_code_char(#[trigger] s[i])
}

fn is_code_exec(s: &str) -> (r: bool)
    ensures
        r == is_code(s@),
{
    let n = s.unicode_len();
    if n == 0 {
        return false;
    }
    let mut i: usize = 0;
    while i < n
        invariant
            n == s@.len(),
            i <= n,
            forall|j: int| 0 <= j < i ==> is_code_char(#[trigger] s@[j]),
        decreases n - i,
    {
        let c = s.get_char(i);
        if !(('0' <= c && c <= '9') || ('A' <= c && c <= 'Z') || ('a' <= c && c <= 'z') || c
            == '-') {
            return false;
        }
        i = i + 1;
    }
    true
}

/// A label matches `<name> <code>` when its last space splits it into a
/// non-empty name and a set code.
pub open spec fn button_spec(label: Seq<char>) -> Option<(Seq<char>, Seq<char>)> {
    if index_of_last(label, ' ') > 0 && is_code(after_last(label, ' ')) {
        Some((before_last(label, ' '), after_last(label, ' ')))
    } else {
        None
    }
}

impl ButtonTitle {
    pub fn parse(label: &str) -> (r: Option<ButtonTitle>)
        ensures
            match r {
                Some(b) => button_spec(label@) == Some((b.name@, b.code@)),
                None => button_spec(label@) is None,
            },
    {
        match find_last(label, ' ') {
            Some(k) => {
                if k == 0 {
                    return None;
                }
                let code = tail_after(label, ' ');
                if !is_code_exec(code.as_str()) {
                    return None;
                }
                let name = String::from_str(label.substring_char(0, k));
                Some(ButtonTitle { name, code })
            },
            None => None,
        }
    }
}

} // verus!
