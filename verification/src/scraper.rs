//! Finding the current client build number in the web client's assets.

use vstd::prelude::*;
use vstd::string::*;
use crate::text::opt_str_view;
use crate::text::opt_string_view;

verus! {

/// Build number used when scraping finds none.
pub const FALLBACK_BUILD_NUMBER: u64 = 508471;

/// The page whose scripts are searched.
pub const DISCORD_APP_URL: &'static str = "https://discord.com/login";

/// Prefix of an asset's URL.
pub const ASSET_URL_PREFIX: &'static str = "https://discord.com/assets/";

/// Suffix of an asset's URL.
pub const ASSET_URL_SUFFIX: &'static str = ".js";

/// Pattern of a script asset on the page; group 1 is the asset's name.
pub const SCRIPT_PATTERN: &'static str = r#"/assets/([a-z0-9.]+)\.js"#;

/// Pattern of a build number in a script; each group 1 to 5 holds the digits
/// of one notation.
pub const BUILD_PATTERN: &'static str = r#"(?:YA\("buildNumber","(\d+)"\)|buildNumber:"(\d+)"|build_number:(\d+)|"BUILD_NUMBER","(\d+)"|buildNumber:(\d+))"#;

/// Number of notation groups in [`BUILD_PATTERN`].
pub const BUILD_PATTERN_GROUPS: usize = 5;

/// At most this many assets are fetched.
pub const MAX_ASSETS: usize = 10;

/// The scraped client build number.
#[derive(Debug, Clone, Copy, PartialEq, Eq, Structural)]
pub struct DiscordInfo {
    pub build_number: u64,
}

/// For each match of the regular expression `pattern` in `haystack`, in
/// order, the text of capture group `group` (`None` where it took no part);
/// `None` when the pattern does not compile.
pub uninterp spec fn regex_group_of_matches(pattern: Seq<char>, haystack: Seq<char>, group: usize) -> Option<
    Seq<Option<Seq<char>>>,
>;

/// The texts of the capture groups (group 0 being the whole match) of the
/// first match of `pattern` in `haystack`; `Some(None)` when nothing matches,
/// `None` when the pattern does not compile.
pub uninterp spec fn regex_first_match_groups(pattern: Seq<char>, haystack: Seq<char>) -> Option<
    Option<Seq<Option<Seq<char>>>>,
>;

/// The view of a list of optional strings.
pub open spec fn opt_strings_view(v: Vec<Option<String>>) -> Seq<Option<Seq<char>>> {
    v@.map_values(|o: Option<String>| opt_string_view(o))
}

/// Compiles `pattern` with `regex::Regex::new` and collects, over
/// `Regex::captures_iter(haystack)`, the text of group `group` of each
/// match. The contract names the result and claims nothing of the matcher.
#[verifier::external_body]
fn group_of_matches(pattern: &str, haystack: &str, group: usize) -> (r: Option<Vec<Option<String>>>)
    ensures
        match r {
            Some(v) => regex_group_of_matches(pattern@, haystack@, group) == Some(opt_strings_view(v)),
            None => regex_group_of_matches(pattern@, haystack@, group) is None,
        },
{
    let Ok(re) = regex::Regex::new(pattern) else { return None };
    let mut found = Vec::new();
    for caps in re.captures_iter(haystack) {
        found.push(caps.get(group).map(|m| m.as_str().to_string()));
    }
    Some(found)
}

/// Compiles `pattern` with `regex::Regex::new` and reads the groups of
/// `Regex::captures(haystack)`, the first match. The contract names the
/// result and claims nothing of the matcher.
#[verifier::external_body]
fn first_match_groups(pattern: &str, haystack: &str) -> (r: Option<Option<Vec<Option<String>>>>)
    ensures
        match r {
            Some(Some(v)) => regex_first_match_groups(pattern@, haystack@) == Some(
                Some(opt_strings_view(v)),
            ),
            Some(None) => regex_first_match_groups(pattern@, haystack@) == Some(
                None::<Seq<Option<Seq<char>>>>,
            ),
            None => regex_first_match_groups(pattern@, haystack@) is None,
        },
{
    let Ok(re) = regex::Regex::new(pattern) else { return None };
    let Some(caps) = re.captures(haystack) else { return Some(None) };
    let mut groups = Vec::new();
    for i in 0..caps.len() {
        groups.push(caps.get(i).map(|m| m.as_str().to_string()));
    }
    Some(Some(groups))
}

/// Whether a character is an ASCII decimal digit.
pub open spec fn is_digit(c: char) -> bool {
    '0' <= c <= '9'
}

/// The value of a string of decimal digits.
pub open spec fn digits_value(s: Seq<char>) -> int
    decreases s.len(),
{
    if s.len() == 0 {
        0
    } else {
        digits_value(s.drop_last()) * 10 + (s.last() as int - '0' as int)
    }
}

/// An unsigned 64-bit integer in decimal as the standard library reads it:
/// an optional `+`, then at least one ASCII digit and nothing else, and a
/// value that fits.
pub open spec fn spec_parse_u64(s: Seq<char>) -> Option<u64> {
    let d = unsigned_digits(s);
    if d.len() > 0 && all_digits(d) && digits_value(d) <= u64::MAX {
        Some(digits_value(d) as u64)
    } else {
        None
    }
}

/// The text after an optional leading `+`.
pub open spec fn unsigned_digits(s: Seq<char>) -> Seq<char> {
    if s.len() > 0 && s[0] == '+' {
        s.drop_first()
    } else {
        s
    }
}

/// Whether every character is an ASCII decimal digit.
pub open spec fn all_digits(d: Seq<char>) -> bool {
    forall|i: int| 0 <= i < d.len() ==> is_digit(#[trigger] d[i])
}

proof fn lemma_digits_value_nonneg(s: Seq<char>)
    requires
        forall|i: int| 0 <= i < s.len() ==> is_digit(#[trigger] s[i]),
    ensures
        digits_value(s) >= 0,
    decreases s.len(),
{
    if s.len() > 0 {
        lemma_digits_value_nonneg(s.drop_last());
    }
}

/// A longer run of digits is worth at least as much as its prefix.
proof fn lemma_digits_value_grows(s: Seq<char>, k: int)
    requires
        0 <= k <= s.len(),
        forall|i: int| 0 <= i < s.len() ==> is_digit(#[trigger] s[i]),
    ensures
        digits_value(s.subrange(0, k)) <= digits_value(s),
    decreases s.len() - k,
{
    if k < s.len() {
        lemma_digits_value_grows(s, k + 1);
        let p = s.subrange(0, k + 1);
        assert(p.drop_last() =~= s.subrange(0, k));
        lemma_digits_value_nonneg(s.subrange(0, k));
    } else {
        assert(s.subrange(0, k) =~= s);
    }
}

/// Reads an unsigned 64-bit integer in decimal, as `str::parse::<u64>` does.
pub fn parse_u64(s: &str) -> (r: Option<u64>)
    ensures
        r == spec_parse_u64(s@),
{
    let len = s.unicode_len();
    let start: usize = if len > 0 && s.get_char(0) == '+' {
        1
    } else {
        0
    };
    let ghost d = unsigned_digits(s@);
    assert(d =~= s@.subrange(start as int, len as int));
    if start == len {
        return None;
    }
    let mut value: u64 = 0;
    let mut i = start;
    while i < len
        invariant
            start <= i <= len,
            len == s@.len(),
            d =~= s@.subrange(start as int, len as int),
            d == unsigned_digits(s@),
            forall|j: int| 0 <= j < i - start ==> is_digit(#[trigger] d[j]),
            value == digits_value(d.subrange(0, i - start)),
        decreases len - i,
    {
        let c = s.get_char(i);
        if !('0' <= c && c <= '9') {
            assert(d[i - start] == c);
            assert(!is_digit(d[i - start]));
            assert(!all_digits(d));
            return None;
        }
        let digit = (c as u32 - '0' as u32) as u64;
        let ghost prefix = d.subrange(0, i + 1 - start);
        assert(prefix.drop_last() =~= d.subrange(0, i - start));
        assert(prefix.last() == c);
        if value > (u64::MAX - digit) / 10 {
            proof {
                assert(value * 10 + digit > u64::MAX) by (nonlinear_arith)
                    requires
                        value > (u64::MAX - digit) / 10,
                        digit <= 9,
                ;
                assert(digits_value(prefix) > u64::MAX);
                if all_digits(d) {
                    lemma_digits_value_grows(d, i + 1 - start);
                }
            }
            return None;
        }
        value = value * 10 + digit;
        i = i + 1;
    }
    assert(d.subrange(0, len - start) =~= d);
    Some(value)
}

/// The first notation group of a build-number match that took part.
pub open spec fn first_present(groups: Seq<Option<Seq<char>>>, from: int) -> Option<Seq<char>>
    decreases BUILD_PATTERN_GROUPS + 1 - from,
{
    if from > BUILD_PATTERN_GROUPS || from >= groups.len() {
        None
    } else if groups[from] is Some {
        groups[from]
    } else {
        first_present(groups, from + 1)
    }
}

/// The build number that a script announces: the digits of the first
/// notation in the first match of [`BUILD_PATTERN`].
pub open spec fn spec_build_number_in(js: Seq<char>) -> Option<u64> {
    match regex_first_match_groups(BUILD_PATTERN@, js) {
        Some(Some(groups)) => match first_present(groups, 1) {
            Some(digits) => spec_parse_u64(digits),
            None => None,
        },
        _ => None,
    }
}

/// The build number that a script announces, if any.
pub fn build_number_in(js: &str) -> (r: Option<u64>)
    ensures
        r == spec_build_number_in(js@),
{
    let groups = match first_match_groups(BUILD_PATTERN, js) {
        Some(Some(g)) => g,
        _ => return None,
    };
    let ghost gv = opt_strings_view(groups);
    let mut i: usize = 1;
    while i <= BUILD_PATTERN_GROUPS && i < groups.len()
        invariant
            1 <= i <= BUILD_PATTERN_GROUPS + 1,
            gv == opt_strings_view(groups),
            regex_first_match_groups(BUILD_PATTERN@, js@) == Some(Some(gv)),
            first_present(gv, 1) == first_present(gv, i as int),
        decreases BUILD_PATTERN_GROUPS + 1 - i,
    {
        assert(gv.len() == groups@.len());
        if let Some(digits) = &groups[i] {
            assert(gv[i as int] == Some(digits@));
            assert(first_present(gv, i as int) == gv[i as int]);
            return parse_u64(digits.as_str());
        }
        assert(first_present(gv, i as int) == first_present(gv, i + 1));
        i = i + 1;
    }
    assert(gv.len() == groups@.len());
    assert(first_present(gv, i as int) is None);
    None
}

/// The asset names on a page: group 1 of each match of [`SCRIPT_PATTERN`],
/// the first [`MAX_ASSETS`] of them.
pub open spec fn spec_asset_names(html: Seq<char>) -> Seq<Seq<char>> {
    match regex_group_of_matches(SCRIPT_PATTERN@, html, 1) {
        Some(found) => present(found).take(
            if present(found).len() < MAX_ASSETS {
                present(found).len() as int
            } else {
                MAX_ASSETS as int
            },
        ),
        None => Seq::empty(),
    }
}

/// The texts of the groups that took part, in order.
pub open spec fn present(s: Seq<Option<Seq<char>>>) -> Seq<Seq<char>>
    decreases s.len(),
{
    if s.len() == 0 {
        Seq::empty()
    } else {
        match s.last() {
            Some(t) => present(s.drop_last()).push(t),
            None => present(s.drop_last()),
        }
    }
}

/// The view of a list of strings.
pub open spec fn strings_view(v: Vec<String>) -> Seq<Seq<char>> {
    v@.map_values(|s: String| s@)
}

/// The names of the script assets on a page, at most [`MAX_ASSETS`].
pub fn asset_names(html: &str) -> (names: Vec<String>)
    ensures
        strings_view(names) == spec_asset_names(html@),
{
    let mut names: Vec<String> = Vec::new();
    let found = match group_of_matches(SCRIPT_PATTERN, html, 1) {
        Some(f) => f,
        None => {
            assert(strings_view(names) =~= Seq::<Seq<char>>::empty());
            return names;
        },
    };
    let ghost fv = opt_strings_view(found);
    let mut i: usize = 0;
    while i < found.len() && names.len() < MAX_ASSETS
        invariant
            i <= found.len(),
            fv == opt_strings_view(found),
            strings_view(names) == present(fv.take(i as int)),
            names.len() <= MAX_ASSETS,
        decreases found.len() - i,
    {
        assert(fv.take(i + 1).drop_last() =~= fv.take(i as int));
        if let Some(name) = &found[i] {
            names.push(name.clone());
            assert(strings_view(names) =~= present(fv.take(i as int)).push(name@));
        }
        i = i + 1;
    }
    proof {
        lemma_present_take(fv, i as int);
    }
    names
}

/// Taking a prefix and keeping the present texts commute with cutting the
/// present texts: the present texts of a longer prefix extend those of a
/// shorter one.
proof fn lemma_present_prefix(s: Seq<Option<Seq<char>>>, i: int, j: int)
    requires
        0 <= i <= j <= s.len(),
    ensures
        present(s.take(i)) == present(s.take(j)).take(present(s.take(i)).len() as int),
        present(s.take(i)).len() <= present(s.take(j)).len(),
    decreases j - i,
{
    if i < j {
        lemma_present_prefix(s, i, j - 1);
        assert(s.take(j).drop_last() =~= s.take(j - 1));
        let pj1 = present(s.take(j - 1));
        let pj = present(s.take(j));
        assert(pj.take(pj1.len() as int) =~= pj1);
        let pi = present(s.take(i));
        assert(pj.take(pi.len() as int) =~= pj1.take(pi.len() as int));
    } else {
        assert(present(s.take(i)).take(present(s.take(i)).len() as int) =~= present(s.take(i)));
    }
}

/// When the loop stops, the collected names are the first present texts.
proof fn lemma_present_take(s: Seq<Option<Seq<char>>>, i: int)
    requires
        0 <= i <= s.len(),
    ensures
        ({
            let all = present(s);
            let n = if all.len() < MAX_ASSETS { all.len() as int } else { MAX_ASSETS as int };
            (i == s.len() || present(s.take(i)).len() >= MAX_ASSETS) && present(s.take(i)).len()
                <= MAX_ASSETS ==> present(s.take(i)) == all.take(n)
        }),
{
    assert(s.take(s.len() as int) =~= s);
    lemma_present_prefix(s, i, s.len() as int);
}

/// The URL of an asset.
pub open spec fn spec_asset_url(name: Seq<char>) -> Seq<char> {
    ASSET_URL_PREFIX@ + name + ASSET_URL_SUFFIX@
}

/// The URL of an asset.
pub fn asset_url(name: &str) -> (url: String)
    ensures
        url@ == spec_asset_url(name@),
{
    String::from_str(ASSET_URL_PREFIX).concat(name).concat(ASSET_URL_SUFFIX)
}

/// The scraped information, or the fallback build number when none was found.
pub fn discord_info_from(scraped: Option<u64>) -> (info: DiscordInfo)
    ensures
        info.build_number == match scraped {
            Some(n) => n,
            None => FALLBACK_BUILD_NUMBER,
        },
{
    match scraped {
        Some(n) => DiscordInfo { build_number: n },
        None => DiscordInfo { build_number: FALLBACK_BUILD_NUMBER },
    }
}


/// The next thing the scraper does.
#[derive(Debug, Clone)]
pub enum ScrapeStep {
    /// Fetch the script at this URL and report its text.
    Fetch(String),
    /// A script announced this build number.
    Found(u64),
    /// No fetched script announced a build number.
    Exhausted,
}

/// The mathematical value of a [`ScrapeStep`].
pub enum ScrapeStepView {
    Fetch(Seq<char>),
    Found(u64),
    Exhausted,
}

impl View for ScrapeStep {
    type V = ScrapeStepView;

    open spec fn view(&self) -> ScrapeStepView {
        match self {
            ScrapeStep::Fetch(u) => ScrapeStepView::Fetch(u@),
            ScrapeStep::Found(n) => ScrapeStepView::Found(*n),
            ScrapeStep::Exhausted => ScrapeStepView::Exhausted,
        }
    }
}

/// The walk through a page's script assets in search of the build number.
pub struct BuildScraper {
    pub asset_names: Vec<String>,
    /// How many assets have been asked for.
    pub next: usize,
}

/// One step: a fetched script that announces a build number ends the
/// search; otherwise the next asset is asked for, until none is left.
pub open spec fn spec_scrape_step(names: Seq<Seq<char>>, next: nat, fetched: Option<Seq<char>>) -> (
    nat,
    ScrapeStepView,
) {
    let found = match fetched {
        Some(js) => spec_build_number_in(js),
        None => None,
    };
    match found {
        Some(n) => (next, ScrapeStepView::Found(n)),
        None => if next < names.len() {
            ((next + 1) as nat, ScrapeStepView::Fetch(spec_asset_url(names[next as int])))
        } else {
            (next, ScrapeStepView::Exhausted)
        },
    }
}

impl BuildScraper {
    /// Starts the search over the script assets of a page.
    pub fn from_page(html: &str) -> (s: BuildScraper)
        ensures
            strings_view(s.asset_names) == spec_asset_names(html@),
            s.next == 0,
    {
        BuildScraper { asset_names: asset_names(html), next: 0 }
    }

    /// Takes the text of the script fetched last (`None` before the first
    /// fetch or when the fetch failed) and says what to do next.
    pub fn step(&mut self, fetched: Option<&str>) -> (r: ScrapeStep)
        requires
            old(self).next <= old(self).asset_names.len(),
        ensures
            final(self).asset_names == old(self).asset_names,
            final(self).next <= final(self).asset_names.len(),
            (final(self).next as nat, r@) == spec_scrape_step(
                strings_view(old(self).asset_names),
                old(self).next as nat,
                opt_str_view(fetched),
            ),
    {
        if let Some(js) = fetched {
            if let Some(n) = build_number_in(js) {
                return ScrapeStep::Found(n);
            }
        }
        if self.next < self.asset_names.len() {
            let url = asset_url(self.asset_names[self.next].as_str());
            self.next = self.next + 1;
            ScrapeStep::Fetch(url)
        } else {
            ScrapeStep::Exhausted
        }
    }
}

/// The build number of the first script, in order, that was fetched and
/// announces one.
pub open spec fn spec_first_build(results: Seq<Option<Seq<char>>>) -> Option<u64>
    decreases results.len(),
{
    if results.len() == 0 {
        None
    } else {
        let here = match results[0] {
            Some(js) => spec_build_number_in(js),
            None => None,
        };
        match here {
            Some(n) => Some(n),
            None => spec_first_build(results.drop_first()),
        }
    }
}

/// The step the scraper ends on when the remaining fetches give `results`.
pub open spec fn spec_scrape_run(
    names: Seq<Seq<char>>,
    next: nat,
    fetched: Option<Seq<char>>,
    results: Seq<Option<Seq<char>>>,
) -> ScrapeStepView
    decreases results.len(),
{
    let (after, step) = spec_scrape_step(names, next, fetched);
    match step {
        ScrapeStepView::Fetch(_) => if results.len() == 0 {
            step
        } else {
            spec_scrape_run(names, after, results[0], results.drop_first())
        },
        _ => step,
    }
}

/// The scraper asks for every listed asset in order until one announces a
/// build number, and ends with the build number of the first such script,
/// or exhausted when there is none.
pub proof fn lemma_scrape_finds_first(
    names: Seq<Seq<char>>,
    next: nat,
    results: Seq<Option<Seq<char>>>,
)
    requires
        next <= names.len(),
        results.len() == names.len() - next,
    ensures
        spec_scrape_run(names, next, None, results) == match spec_first_build(results) {
            Some(n) => ScrapeStepView::Found(n),
            None => ScrapeStepView::Exhausted,
        },
    decreases results.len(),
{
    if results.len() > 0 {
        let rest = results.drop_first();
        lemma_scrape_finds_first(names, next + 1, rest);
        let found = match results[0] {
            Some(js) => spec_build_number_in(js),
            None => None,
        };
        if rest.len() > 0 {
            assert(spec_scrape_run(names, next + 1, results[0], rest) == match found {
                Some(n) => ScrapeStepView::Found(n),
                None => spec_scrape_run(names, next + 1, None, rest),
            });
        }
    }
}

} // verus!
