//! Links between pages: which page numbers a pager shows, and the query
//! string of a link.

use crate::model::Page;
use crate::text::same_text;
use std::ops::Range;
use vstd::prelude::*;
use vstd::string::StringExecFns;

verus! {

/// First page number that a pager shows.
///
/// With fewer pages than the pager has room for, it shows all of them.
/// Otherwise it shows `displayed_pages` of them: centred on the current
/// page where that fits, and flush with the first or the last page where
/// it does not.
pub open spec fn pager_start(number_of_pages: int, current_page: int, displayed_pages: int) -> int {
    if number_of_pages < displayed_pages {
        0
    } else if current_page < number_of_pages - displayed_pages / 2 {
        if current_page >= displayed_pages / 2 {
            current_page - displayed_pages / 2
        } else {
            0
        }
    } else {
        number_of_pages - displayed_pages
    }
}

/// How many page numbers a pager shows.
pub open spec fn pager_length(number_of_pages: int, displayed_pages: int) -> int {
    if number_of_pages < displayed_pages {
        number_of_pages
    } else {
        displayed_pages
    }
}

/// The page numbers that a pager with room for `displayed_pages` shows.
///
/// The numbers are consecutive, none lies beyond the last page, and the
/// current page is among them whenever it exists and the pager has room.
pub fn get_pagination(number_of_pages: usize, current_page: usize, displayed_pages: usize) -> (shown:
    Range<usize>)
    ensures
        shown.start == pager_start(
            number_of_pages as int,
            current_page as int,
            displayed_pages as int,
        ),
        shown.end == shown.start + pager_length(number_of_pages as int, displayed_pages as int),
        shown.end <= number_of_pages,
        current_page < number_of_pages && displayed_pages > 0 ==> shown.start <= current_page
            < shown.end,
{
    if number_of_pages < displayed_pages {
        0..number_of_pages
    } else {
        let half: usize = displayed_pages / 2;
        if current_page < number_of_pages - half {
            let low: usize = if current_page >= half {
                current_page - half
            } else {
                0
            };
            low..low + displayed_pages
        } else {
            number_of_pages - displayed_pages..number_of_pages
        }
    }
}

/// Whether a parameter's value is worth sending: it is neither empty nor
/// the text `0`.
pub open spec fn is_set(value: Seq<char>) -> bool {
    value.len() > 0 && value != "0"@
}

/// A parameter as it appears in a query string.
pub open spec fn pair_text(key: Seq<char>, value: Seq<char>) -> Seq<char> {
    key + "="@ + value
}

/// The parameters that are set, each as `key=value`, joined by `&` in the
/// order given.
pub open spec fn joined_pairs(params: Seq<(Seq<char>, Seq<char>)>) -> Seq<char>
    decreases params.len(),
{
    if params.len() == 0 {
        Seq::empty()
    } else {
        let before = joined_pairs(params.drop_last());
        let last = params.last();
        if !is_set(last.1) {
            before
        } else if before.len() == 0 {
            pair_text(last.0, last.1)
        } else {
            before + "&"@ + pair_text(last.0, last.1)
        }
    }
}

/// The query string for some parameters, with its leading `?`; `None` where
/// no parameter is set.
pub open spec fn query_string(params: Seq<(Seq<char>, Seq<char>)>) -> Option<Seq<char>> {
    let joined = joined_pairs(params);
    if joined.len() == 0 {
        None
    } else {
        Some("?"@ + joined)
    }
}

/// Whether every parameter is set.
pub open spec fn all_set(params: Seq<(Seq<char>, Seq<char>)>) -> bool {
    forall|i: int| 0 <= i < params.len() ==> is_set(#[trigger] params[i].1)
}

/// Whether a value is neither empty nor the text `0`.
pub fn value_is_set(value: &str) -> (set: bool)
    ensures
        set == is_set(value@),
{
    !value.is_empty() && !same_text(value, "0")
}

/// Joins the parameters that are set.
fn join_pairs(params: &Vec<(String, String)>) -> (joined: String)
    ensures
        joined@ == joined_pairs(params.deep_view()),
{
    let mut joined = String::new();
    let mut index: usize = 0;
    assert(params.deep_view().take(0) =~= Seq::empty());
    while index < params.len()
        invariant
            index <= params.len(),
            joined@ == joined_pairs(params.deep_view().take(index as int)),
        decreases params.len() - index,
    {
        let ghost before = joined@;
        let key = params[index].0.as_str();
        let value = params[index].1.as_str();
        proof {
            let shorter = params.deep_view().take(index as int);
            let longer = params.deep_view().take(index + 1);
            assert(longer.drop_last() =~= shorter);
            assert(longer.last() == (key@, value@));
        }
        if value_is_set(value) {
            if !joined.as_str().is_empty() {
                joined.append("&");
            }
            joined.append(key);
            joined.append("=");
            joined.append(value);
            assert(joined@ =~= if before.len() == 0 {
                pair_text(key@, value@)
            } else {
                before + "&"@ + pair_text(key@, value@)
            });
        }
        index += 1;
    }
    assert(params.deep_view().take(params.len() as int) =~= params.deep_view());
    joined
}

/// Builds the query string of a link from its parameters, in the order
/// given. A parameter whose value is empty or `0` is left out; with none
/// left there is no query string.
pub fn get_query(params: &Vec<(String, String)>) -> (query: Option<String>)
    ensures
        query.deep_view() == query_string(params.deep_view()),
{
    let joined = join_pairs(params);
    if joined.as_str().is_empty() {
        None
    } else {
        Some("?".to_owned().concat(joined.as_str()))
    }
}

/// The address a request is sent on to once the parameters that are not
/// set were dropped from it; `None` where every parameter is set.
pub open spec fn stripped_address(path: Seq<char>, params: Seq<(Seq<char>, Seq<char>)>) -> Option<
    Seq<char>,
> {
    if all_set(params) {
        None
    } else {
        match query_string(params) {
            Some(query) => Some(path + query),
            None => Some(path),
        }
    }
}

/// Whether every parameter of a request is set.
fn every_value_is_set(params: &Vec<(String, String)>) -> (all: bool)
    ensures
        all == all_set(params.deep_view()),
{
    let mut index: usize = 0;
    while index < params.len()
        invariant
            index <= params.len(),
            forall|i: int| 0 <= i < index ==> is_set(#[trigger] params.deep_view()[i].1),
        decreases params.len() - index,
    {
        if !value_is_set(params[index].1.as_str()) {
            assert(!is_set(params.deep_view()[index as int].1));
            return false;
        }
        index += 1;
    }
    true
}

/// Decides whether a request is redirected to a tidier address: if one of
/// its parameters is empty or `0`, the address without those parameters.
pub fn strip_empty_query(path: &str, params: &Vec<(String, String)>) -> (address: Option<String>)
    ensures
        address.deep_view() == stripped_address(path@, params.deep_view()),
{
    if every_value_is_set(params) {
        return None;
    }
    match get_query(params) {
        Some(query) => Some(path.to_owned().concat(query.as_str())),
        None => Some(path.to_owned()),
    }
}

/// The text of one decimal digit.
pub open spec fn digit_text(digit: nat) -> Seq<char> {
    if digit == 0 {
        "0"@
    } else if digit == 1 {
        "1"@
    } else if digit == 2 {
        "2"@
    } else if digit == 3 {
        "3"@
    } else if digit == 4 {
        "4"@
    } else if digit == 5 {
        "5"@
    } else if digit == 6 {
        "6"@
    } else if digit == 7 {
        "7"@
    } else if digit == 8 {
        "8"@
    } else {
        "9"@
    }
}

/// A number written in decimal, without leading zeros.
pub open spec fn decimal_text(number: nat) -> Seq<char>
    decreases number,
{
    if number < 10 {
        digit_text(number)
    } else {
        decimal_text(number / 10) + digit_text(number % 10)
    }
}

/// Writes one decimal digit.
fn digit(value: usize) -> (text: &'static str)
    requires
        value < 10,
    ensures
        text@ == digit_text(value as nat),
{
    if value == 0 {
        "0"
    } else if value == 1 {
        "1"
    } else if value == 2 {
        "2"
    } else if value == 3 {
        "3"
    } else if value == 4 {
        "4"
    } else if value == 5 {
        "5"
    } else if value == 6 {
        "6"
    } else if value == 7 {
        "7"
    } else if value == 8 {
        "8"
    } else {
        "9"
    }
}

/// Writes a number in decimal.
pub fn decimal(number: usize) -> (text: String)
    ensures
        text@ == decimal_text(number as nat),
    decreases number,
{
    if number < 10 {
        digit(number).to_owned()
    } else {
        decimal(number / 10).concat(digit(number % 10))
    }
}

/// The parameters of a link to a page of a listing: the search text, empty
/// where there is none, and the page index.
pub open spec fn page_params(search: Seq<char>, page: nat) -> Seq<(Seq<char>, Seq<char>)> {
    seq![("search"@, search), ("page"@, decimal_text(page))]
}

/// The address of a page of a listing. The first page and a listing
/// without a search text need no parameter.
pub open spec fn page_address(target: Seq<char>, search: Seq<char>, page: nat) -> Seq<char> {
    match query_string(page_params(search, page)) {
        Some(query) => target + query,
        None => target,
    }
}

/// Builds the address of a page of a listing.
pub fn page_link(target: &str, search: &str, page: usize) -> (address: String)
    ensures
        address@ == page_address(target@, search@, page as nat),
{
    let mut params: Vec<(String, String)> = Vec::new();
    params.push(("search".to_owned(), search.to_owned()));
    params.push(("page".to_owned(), decimal(page)));
    assert(params.deep_view() =~= page_params(search@, page as nat));
    match get_query(&params) {
        Some(query) => target.to_owned().concat(query.as_str()),
        None => target.to_owned(),
    }
}

/// How many page numbers a pager has room for.
pub const PAGER_ROOM: usize = 5;

/// One numbered link of a pager.
#[derive(Debug, Clone, PartialEq, Eq)]
pub struct PagerLink {
    /// The number shown: one more than the page index.
    pub label: usize,
    pub address: String,
    /// Whether this is the page being shown.
    pub current: bool,
}

/// Mathematical value of a [`PagerLink`].
pub struct PagerLinkView {
    pub label: usize,
    pub address: Seq<char>,
    pub current: bool,
}

impl DeepView for PagerLink {
    type V = PagerLinkView;

    open spec fn deep_view(&self) -> PagerLinkView {
        PagerLinkView { label: self.label, address: self.address@, current: self.current }
    }
}

/// The links under a page of a listing.
#[derive(Debug, Clone, PartialEq, Eq)]
pub struct Pager {
    /// Address of the page before this one; `None` on the first page.
    pub previous: Option<String>,
    pub links: Vec<PagerLink>,
    /// Empty slots that fill the pager up where the pages are few.
    pub placeholders: usize,
    /// Address of the page after this one; `None` on the last page.
    pub next: Option<String>,
}

/// Mathematical value of a [`Pager`].
pub struct PagerView {
    pub previous: Option<Seq<char>>,
    pub links: Seq<PagerLinkView>,
    pub placeholders: usize,
    pub next: Option<Seq<char>>,
}

impl DeepView for Pager {
    type V = PagerView;

    open spec fn deep_view(&self) -> PagerView {
        PagerView {
            previous: self.previous.deep_view(),
            links: self.links.deep_view(),
            placeholders: self.placeholders,
            next: self.next.deep_view(),
        }
    }
}

/// The numbered link to page `index`.
pub open spec fn pager_link(
    target: Seq<char>,
    search: Seq<char>,
    current: int,
    index: int,
) -> PagerLinkView {
    PagerLinkView {
        label: (index + 1) as usize,
        address: page_address(target, search, index as nat),
        current: index == current,
    }
}

/// The search text of a page; empty where the listing was not searched.
pub open spec fn search_text(query: Option<Seq<char>>) -> Seq<char> {
    match query {
        Some(text) => text,
        None => Seq::empty(),
    }
}

/// The pager under a page, from the page's target, search text, index and
/// number of pages: nothing for a listing of a single page; otherwise the
/// numbered links that [`get_pagination`] picks, arrows to the neighbouring
/// pages where there are any, and placeholders for the room left over.
pub open spec fn pager(
    target: Seq<char>,
    query: Option<Seq<char>>,
    current_page: i32,
    number_of_pages: i32,
) -> Option<PagerView> {
    let current = current_page as int;
    let pages = number_of_pages as int;
    let search = search_text(query);
    if !(0 <= current < pages) || pages <= 1 {
        None
    } else {
        let start = pager_start(pages, current, PAGER_ROOM as int);
        Some(
            PagerView {
                previous: if current == 0 {
                    None
                } else {
                    Some(page_address(target, search, (current - 1) as nat))
                },
                links: Seq::new(
                    pager_length(pages, PAGER_ROOM as int) as nat,
                    |k: int| pager_link(target, search, current, start + k),
                ),
                placeholders: if pages < PAGER_ROOM {
                    (PAGER_ROOM - pages) as usize
                } else {
                    0
                },
                next: if current == pages - 1 {
                    None
                } else {
                    Some(page_address(target, search, (current + 1) as nat))
                },
            },
        )
    }
}

/// Lays out the pager under a page of a listing.
pub fn pagination<T>(page: &Page<T>) -> (laid_out: Option<Pager>)
    ensures
        laid_out.deep_view() == pager(
            page.target@,
            page.query.deep_view(),
            page.current_page,
            page.number_of_pages,
        ),
{
    if page.current_page < 0 || page.current_page >= page.number_of_pages
        || page.number_of_pages <= 1 {
        return None;
    }
    let current: usize = page.current_page as usize;
    let pages: usize = page.number_of_pages as usize;
    let target = page.target.as_str();
    let search: String = match &page.query {
        Some(text) => text.clone(),
        None => String::new(),
    };
    assert(search@ == search_text(page.query.deep_view()));
    let shown = get_pagination(pages, current, PAGER_ROOM);
    let ghost start = shown.start as int;
    let mut links: Vec<PagerLink> = Vec::new();
    let mut index: usize = shown.start;
    while index < shown.end
        invariant
            shown.start <= index <= shown.end <= pages,
            pages <= i32::MAX,
            start == shown.start,
            target@ == page.target@,
            links.len() == index - shown.start,
            forall|k: int|
                0 <= k < links.len() ==> (#[trigger] links[k]).deep_view() == pager_link(
                    page.target@,
                    search@,
                    current as int,
                    start + k,
                ),
        decreases shown.end - index,
    {
        links.push(
            PagerLink {
                label: index + 1,
                address: page_link(target, search.as_str(), index),
                current: index == current,
            },
        );
        index += 1;
    }
    let previous = if current == 0 {
        None
    } else {
        Some(page_link(target, search.as_str(), current - 1))
    };
    let next = if current == pages - 1 {
        None
    } else {
        Some(page_link(target, search.as_str(), current + 1))
    };
    let placeholders: usize = if pages < PAGER_ROOM {
        PAGER_ROOM - pages
    } else {
        0
    };
    let laid_out = Pager { previous, links, placeholders, next };
    assert(laid_out.links.deep_view() =~= pager(
        page.target@,
        page.query.deep_view(),
        page.current_page,
        page.number_of_pages,
    )->0.links);
    Some(laid_out)
}

} // verus!
