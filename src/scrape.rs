use vstd::prelude::*;
use vstd::string::StringExecFns;
use crate::clock::now_millis;
use crate::decimal::{push_signed_decimal, signed_decimal};

verus! {

/// The page that serves one generated portrait per request.
pub const SCRAPE_SOURCE: &'static str = "https://thispersondoesnotexist.com/";

/// Milliseconds between two scraper ticks.
pub const SCRAPE_INTERVAL_MS: u64 = 995;

/// The scrape URL for time `millis`: the source with a cache-busting query `?_=<millis>`.
pub open spec fn scrape_url_of(millis: int) -> Seq<char> {
    SCRAPE_SOURCE@ + seq!['?', '_', '='] + signed_decimal(millis)
}

/// The URL to fetch at time `millis`, so that no cache answers with an earlier portrait.
pub fn scrape_url(millis: i64) -> (r: String)
    ensures
        r@ == scrape_url_of(millis as int),
{
    let mut s = String::from_str(SCRAPE_SOURCE);
    s.append("?_=");
    push_signed_decimal(&mut s, millis);
    proof {
        reveal_strlit("?_=");
        assert(s@ =~= scrape_url_of(millis as int));
    }
    s
}

/// The URL to fetch on a tick now.
pub fn next_scrape_url() -> (r: String)
    ensures
        exists|t: int| r@ == scrape_url_of(t),
{
    scrape_url(now_millis())
}

/// The metadata that a scraped portrait is ingested with: the source page, and no name.
pub fn scraped_metadata() -> (r: (Option<String>, Option<String>))
    ensures
        r.0 matches Some(u) && u@ == SCRAPE_SOURCE@,
        r.1 is None,
{
    (Some(String::from_str(SCRAPE_SOURCE)), None)
}

} // verus!
