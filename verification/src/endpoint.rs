//! The addresses of the API's resources.

use crate::date::DateRange;
use vstd::prelude::*;

verus! {

/// Which 30-minute interval a price or renewables query asks for: the one
/// that is running, the one before it, or the one after it.
#[derive(Debug, Clone, Copy, PartialEq, Eq)]
pub enum QueryWindow {
    Current,
    Previous,
    Next,
}

/// The last path segment of a windowed query, up to where the resolution is
/// added.
pub open spec fn window_clause(window: QueryWindow) -> Seq<char> {
    match window {
        QueryWindow::Current => "current?"@,
        QueryWindow::Previous => "current?previous=1"@,
        QueryWindow::Next => "current?next=1"@,
    }
}

pub open spec fn sites_endpoint(base: Seq<char>) -> Seq<char> {
    base + "/sites"@
}

pub open spec fn prices_endpoint(base: Seq<char>, site_id: Seq<char>, window: QueryWindow) -> Seq<
    char,
> {
    base + "/sites/"@ + site_id + "/prices/"@ + window_clause(window) + "&resolution=30"@
}

pub open spec fn usage_endpoint(
    base: Seq<char>,
    site_id: Seq<char>,
    start_date: Seq<char>,
    end_date: Seq<char>,
) -> Seq<char> {
    base + "/sites/"@ + site_id + "/usage?startDate="@ + start_date + "&endDate="@ + end_date
        + "&resolution=30"@
}

pub open spec fn renewables_endpoint(
    base: Seq<char>,
    state: Seq<char>,
    window: QueryWindow,
) -> Seq<char> {
    base + "/state/"@ + state + "/renewables/"@ + window_clause(window) + "&resolution=30"@
}

impl QueryWindow {
    pub fn clause(&self) -> (res: &'static str)
        ensures
            res@ == window_clause(*self),
    {
        match self {
            QueryWindow::Current => "current?",
            QueryWindow::Previous => "current?previous=1",
            QueryWindow::Next => "current?next=1",
        }
    }
}

pub fn sites_url(base_url: &str) -> (url: String)
    ensures
        url@ == sites_endpoint(base_url@),
{
    String::from_str(base_url).concat("/sites")
}

pub fn prices_url(base_url: &str, site_id: &str, window: QueryWindow) -> (url: String)
    ensures
        url@ == prices_endpoint(base_url@, site_id@, window),
{
    let mut url = String::from_str(base_url);
    url.append("/sites/");
    url.append(site_id);
    url.append("/prices/");
    url.append(window.clause());
    url.append("&resolution=30");
    url
}

pub fn usage_url(base_url: &str, site_id: &str, range: &DateRange) -> (url: String)
    ensures
        url@ == usage_endpoint(base_url@, site_id@, range.start(), range.end()),
{
    let mut url = String::from_str(base_url);
    url.append("/sites/");
    url.append(site_id);
    url.append("/usage?startDate=");
    url.append(range.start_date());
    url.append("&endDate=");
    url.append(range.end_date());
    url.append("&resolution=30");
    url
}

pub fn renewables_url(base_url: &str, state: &str, window: QueryWindow) -> (url: String)
    ensures
        url@ == renewables_endpoint(base_url@, state@, window),
{
    let mut url = String::from_str(base_url);
    url.append("/state/");
    url.append(state);
    url.append("/renewables/");
    url.append(window.clause());
    url.append("&resolution=30");
    url
}

pub open spec fn ends_with(s: Seq<char>, suffix: Seq<char>) -> bool {
    &&& suffix.len() <= s.len()
    &&& s.subrange(s.len() - suffix.len(), s.len() as int) == suffix
}

/// How the address of a price query ends, for each of the three windows.
pub proof fn lemma_prices_endpoint_ending(base: Seq<char>, site_id: Seq<char>)
    ensures
        ends_with(
            prices_endpoint(base, site_id, QueryWindow::Current),
            "/prices/current?&resolution=30"@,
        ),
        ends_with(
            prices_endpoint(base, site_id, QueryWindow::Previous),
            "/prices/current?previous=1&resolution=30"@,
        ),
        ends_with(
            prices_endpoint(base, site_id, QueryWindow::Next),
            "/prices/current?next=1&resolution=30"@,
        ),
{
    reveal_strlit("/prices/");
    reveal_strlit("&resolution=30");
    reveal_strlit("current?");
    reveal_strlit("current?previous=1");
    reveal_strlit("current?next=1");
    reveal_strlit("/prices/current?&resolution=30");
    reveal_strlit("/prices/current?previous=1&resolution=30");
    reveal_strlit("/prices/current?next=1&resolution=30");
    let head = base + "/sites/"@ + site_id;
    assert("/prices/"@ + "current?"@ + "&resolution=30"@ =~= "/prices/current?&resolution=30"@);
    assert("/prices/"@ + "current?previous=1"@ + "&resolution=30"@
        =~= "/prices/current?previous=1&resolution=30"@);
    assert("/prices/"@ + "current?next=1"@ + "&resolution=30"@
        =~= "/prices/current?next=1&resolution=30"@);
    lemma_ends_with_tail(head, "/prices/"@, "current?"@, "&resolution=30"@);
    lemma_ends_with_tail(head, "/prices/"@, "current?previous=1"@, "&resolution=30"@);
    lemma_ends_with_tail(head, "/prices/"@, "current?next=1"@, "&resolution=30"@);
}

proof fn lemma_ends_with_tail(head: Seq<char>, a: Seq<char>, b: Seq<char>, c: Seq<char>)
    ensures
        ends_with(head + a + b + c, a + b + c),
{
    let whole = head + a + b + c;
    let tail = a + b + c;
    assert(whole.subrange(whole.len() - tail.len(), whole.len() as int) =~= tail);
}

} // verus!
