//! Metric names for quote symbols, and the address that a metric is
//! published to.
use vstd::prelude::*;

verus! {

/// What `str::to_lowercase` returns for a string.
pub uninterp spec fn lower_of(s: Seq<char>) -> Seq<char>;

/// Relies on `str::to_lowercase`: the result depends on the characters of
/// the string alone.
#[verifier::external_body]
fn to_lowercase(s: &str) -> (r: String)
    ensures
        r@ == lower_of(s@),
{
    s.to_lowercase()
}

/// The characters of `s` with every colon turned into a hyphen.
pub open spec fn hyphenated(s: Seq<char>) -> Seq<char> {
    s.map_values(|c: char| if c == ':' { '-' } else { c })
}

/// Appends `s` to `out`, with every colon turned into a hyphen.
fn push_hyphenated(out: &mut String, s: &str)
    ensures
        final(out)@ == old(out)@ + hyphenated(s@),
{
    let n = s.unicode_len();
    let mut i: usize = 0;
    let ghost start = out@;
    while i < n
        invariant
            n == s@.len(),
            i <= n,
            out@ == start + hyphenated(s@.take(i as int)),
        decreases n - i,
    {
        let c = s.get_char(i);
        proof {
            reveal_strlit("-");
        }
        if c == ':' {
            out.append("-");
        } else {
            out.append(s.substring_char(i, i + 1));
        }
        assert(hyphenated(s@.take(i + 1)) =~= hyphenated(s@.take(i as int)) + seq![
            if c == ':' { '-' } else { c },
        ]);
        i = i + 1;
    }
    assert(s@.take(n as int) =~= s@);
}

/// The metric name for a quote symbol that is already in lower case:
/// `finance.` and the symbol, with colons (as in an exchange-qualified
/// symbol) turned into hyphens.
pub fn finance_feed_from_lowercase(lowered: &str) -> (r: String)
    ensures
        r@ == "finance."@ + hyphenated(lowered@),
{
    let mut out = String::from_str("finance.");
    push_hyphenated(&mut out, lowered);
    out
}

/// The metric name for a quote symbol: `finance.` and the lower-cased
/// symbol, with colons turned into hyphens.
pub fn finance_feed_name(symbol: &str) -> (r: String)
    ensures
        r@ == "finance."@ + hyphenated(lower_of(symbol@)),
{
    let lowered = to_lowercase(symbol);
    finance_feed_from_lowercase(lowered.as_str())
}

/// The address that a metric named `feed` is posted to:
/// `{base}/{user}/feeds/{feed}/data`.
pub fn feed_url(base: &str, user: &str, feed: &str) -> (r: String)
    ensures
        r@ == base@ + "/"@ + user@ + "/feeds/"@ + feed@ + "/data"@,
{
    let mut url = String::from_str(base);
    url.append("/");
    url.append(user);
    url.append("/feeds/");
    url.append(feed);
    url.append("/data");
    url
}

} // verus!
