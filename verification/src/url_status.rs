//! Which websites the browsing agent may visit: an allow/reject list keyed
//! by site, a block list, and the rule that decides whether a proposed URL
//! falls under a registered site.

use vstd::prelude::*;
use crate::text::{
    concat, contains_spec, contains_str, ends_with_char, ends_with_char_spec, str_eq, starts_with,
    trim, trim_end_char, trim_end_char_spec, trim_spec,
};
use tldextract::TldExtractor;

verus! {

/// The verdict recorded for a site.
#[derive(Clone, Copy, PartialEq, Eq, Debug, Structural)]
pub enum UrlStatus {
    Allowed,
    Rejected,
}

/// The parts of a parsed URL that site matching reads.
#[derive(Debug, Clone)]
pub struct UrlParts {
    pub scheme: String,
    pub host: Option<String>,
    pub path: String,
}

/// Mathematical form of `UrlParts`.
pub struct UrlPartsView {
    pub scheme: Seq<char>,
    pub host: Option<Seq<char>>,
    pub path: Seq<char>,
}

impl View for UrlParts {
    type V = UrlPartsView;

    open spec fn view(&self) -> UrlPartsView {
        UrlPartsView {
            scheme: self.scheme@,
            host: match self.host {
                Some(h) => Some(h@),
                None => None,
            },
            path: self.path@,
        }
    }
}

/// The registrable-domain split of a host name.
#[derive(Debug, Clone)]
pub struct TldParts {
    pub domain: Option<String>,
    pub subdomain: Option<String>,
    pub suffix: Option<String>,
}

/// Mathematical form of `TldParts`.
pub struct TldPartsView {
    pub domain: Option<Seq<char>>,
    pub subdomain: Option<Seq<char>>,
    pub suffix: Option<Seq<char>>,
}

/// View of an optional string.
pub open spec fn ov(o: Option<String>) -> Option<Seq<char>> {
    match o {
        Some(s) => Some(s@),
        None => None,
    }
}

impl View for TldParts {
    type V = TldPartsView;

    open spec fn view(&self) -> TldPartsView {
        TldPartsView { domain: ov(self.domain), subdomain: ov(self.subdomain), suffix: ov(self.suffix) }
    }
}

/// What `url::Url::parse` yields for a string: scheme, host and path of
/// the parsed URL, or `None` when the string is not a URL.
pub uninterp spec fn url_parse(s: Seq<char>) -> Option<UrlPartsView>;

/// Parses `s` with `url::Url::parse`, keeping scheme, host and path.
#[verifier::external_body]
fn parse_url(s: &str) -> (r: Option<UrlParts>)
    ensures
        url_parse(s@) == (match r {
            Some(p) => Some(p@),
            None => None,
        }),
{
    match url::Url::parse(s) {
        Ok(u) => Some(
            UrlParts {
                scheme: u.scheme().to_string(),
                host: u.host_str().map(|h| h.to_string()),
                path: u.path().to_string(),
            },
        ),
        Err(_) => None,
    }
}

#[verifier::external_type_specification]
#[verifier::external_body]
pub struct ExTldExtractor(TldExtractor);

/// Builds a `tldextract::TldExtractor` with default options; its suffix data
/// comes from a local cache file when one is present, else from the crate's
/// bundled snapshot, so nothing is promised of it.
#[verifier::external_body]
pub(crate) fn new_tld_extractor() -> TldExtractor {
    TldExtractor::new(tldextract::TldOption::default())
}

/// The public-suffix entries a `tldextract::TldExtractor` holds (its
/// `tld_cache`), as loaded when it was built.
pub uninterp spec fn tld_suffix_set(e: TldExtractor) -> Set<Seq<char>>;

/// Whether a `tldextract::TldExtractor` was built in naive mode.
pub uninterp spec fn tld_naive(e: TldExtractor) -> bool;

/// The split `TldExtractor::extract` gives for `s` with the suffix entries
/// `suffixes` in the given naive mode (`None` for the crate's error).
pub uninterp spec fn tld_split(suffixes: Set<Seq<char>>, naive: bool, s: Seq<char>) -> Option<TldPartsView>;

/// Splits `s` with `TldExtractor::extract`; `None` stands for the crate's
/// error. What `extract` returns depends only on the extractor's suffix
/// entries, its naive mode and `s`, which is what the contract states; the
/// split itself is left to the name `tld_split`. Which entries the
/// extractor loaded (a local cache file or the bundled snapshot) is not
/// stated.
#[verifier::external_body]
pub(crate) fn tld_extract(extractor: &TldExtractor, s: &str) -> (r: Option<TldParts>)
    ensures
        (match r {
            Some(t) => Some(t@),
            None => None,
        }) == tld_split(tld_suffix_set(*extractor), tld_naive(*extractor), s@),
{
    match extractor.extract(s) {
        Ok(t) => Some(TldParts { domain: t.domain, subdomain: t.subdomain, suffix: t.suffix }),
        Err(_) => None,
    }
}

/// `s` itself when it names a scheme, else `http://` in front of it.
pub open spec fn with_scheme(s: Seq<char>) -> Seq<char> {
    if contains_spec(s, "://"@) {
        s
    } else {
        "http://"@ + s
    }
}

/// Whether a scheme is `http` or `https`.
pub open spec fn httpish(s: Seq<char>) -> bool {
    s == "http"@ || s == "https"@
}

/// The value of an optional text, or `d`.
pub open spec fn or_else(o: Option<Seq<char>>, d: Seq<char>) -> Seq<char> {
    match o {
        Some(s) => s,
        None => d,
    }
}

/// The three components compared for a host, in the order the matching
/// rule uses them: the extractor's suffix, its domain (the host itself when
/// absent) and its subdomain; when extraction failed, the host is the
/// domain and the other two are empty.
pub open spec fn host_components(host: Seq<char>, t: Option<TldPartsView>) -> (Seq<char>, Seq<char>, Seq<char>) {
    match t {
        Some(t) => (or_else(t.suffix, Seq::empty()), or_else(t.domain, host), or_else(t.subdomain, Seq::empty())),
        None => (Seq::empty(), host, Seq::empty()),
    }
}

/// Whether the schemes of two URLs are compatible: both web schemes, or equal.
pub open spec fn schemes_compatible(a: Seq<char>, b: Seq<char>) -> bool {
    (httpish(a) && httpish(b)) || a == b
}

/// Whether a proposed path lies under a registered path: a non-empty
/// registered path must be a prefix, and unless it is `/` or ends in `/`,
/// a longer proposed path must continue with `/`.
pub open spec fn path_under(reg: Seq<char>, prop: Seq<char>) -> bool {
    reg.len() == 0 || {
        &&& reg.len() <= prop.len() && prop.subrange(0, reg.len() as int) == reg
        &&& (reg != "/"@ && !ends_with_char_spec(reg, '/') && prop.len() > reg.len())
            ==> prop[reg.len() as int] == '/'
    }
}

/// Whether the component comparison accepts: a non-empty first and third
/// registered component must equal the proposed one, and the middle ones
/// must be equal.
pub open spec fn components_match(
    r: (Seq<char>, Seq<char>, Seq<char>),
    p: (Seq<char>, Seq<char>, Seq<char>),
) -> bool {
    &&& (r.0.len() == 0 || r.0 == p.0)
    &&& r.1 == p.1
    &&& (r.2.len() == 0 || r.2 == p.2)
}

/// The site-matching rule on parsed URLs and their domain splits.
pub open spec fn parts_match(
    reg: UrlPartsView,
    prop: UrlPartsView,
    treg: Option<TldPartsView>,
    tprop: Option<TldPartsView>,
) -> bool {
    &&& schemes_compatible(reg.scheme, prop.scheme)
    &&& reg.host is Some
    &&& prop.host is Some
    &&& components_match(host_components(reg.host->0, treg), host_components(prop.host->0, tprop))
    &&& path_under(reg.path, prop.path)
}

/// What the site-matching rule requires of two URLs apart from their domain
/// split: both parse, their schemes are compatible, both have a host, and
/// the proposed path lies under the registered one.
pub open spec fn structurally_matches(registered: Seq<char>, proposed: Seq<char>) -> bool {
    match (url_parse(with_scheme(registered)), url_parse(with_scheme(proposed))) {
        (Some(r), Some(p)) => {
            &&& schemes_compatible(r.scheme, p.scheme)
            &&& r.host is Some
            &&& p.host is Some
            &&& path_under(r.path, p.path)
        },
        _ => false,
    }
}

/// The split of an optional host.
pub open spec fn split_host(suffixes: Set<Seq<char>>, naive: bool, host: Option<Seq<char>>) -> Option<TldPartsView> {
    match host {
        Some(h) => tld_split(suffixes, naive, h),
        None => None,
    }
}

/// The site-matching rule on two strings (each read with `http://` in
/// front when it names no scheme), given the extractor's suffix entries and
/// naive mode: both parse, and their parts and domain splits match.
pub open spec fn site_match_spec(suffixes: Set<Seq<char>>, naive: bool, registered: Seq<char>, proposed: Seq<char>) -> bool {
    match (url_parse(with_scheme(registered)), url_parse(with_scheme(proposed))) {
        (Some(r), Some(p)) => parts_match(r, p, split_host(suffixes, naive, r.host), split_host(suffixes, naive, p.host)),
        _ => false,
    }
}

/// A site match is a structural match.
proof fn lemma_site_match_structural(suffixes: Set<Seq<char>>, naive: bool, registered: Seq<char>, proposed: Seq<char>)
    requires
        site_match_spec(suffixes, naive, registered, proposed),
    ensures
        structurally_matches(registered, proposed),
{
}

fn opt_or<'a>(o: &'a Option<String>, d: &'a str) -> (r: &'a str)
    ensures
        r@ == or_else(ov(*o), d@),
{
    match o {
        Some(s) => s.as_str(),
        None => d,
    }
}

/// Decides the site-matching rule for already parsed URLs and domain splits.
pub fn url_parts_match(
    reg: &UrlParts,
    prop: &UrlParts,
    treg: &Option<TldParts>,
    tprop: &Option<TldParts>,
) -> (r: bool)
    ensures
        r == parts_match(
            reg@,
            prop@,
            match treg {
                Some(t) => Some(t@),
                None => None,
            },
            match tprop {
                Some(t) => Some(t@),
                None => None,
            },
        ),
{
    let r_http = str_eq(reg.scheme.as_str(), "http") || str_eq(reg.scheme.as_str(), "https");
    let p_http = str_eq(prop.scheme.as_str(), "http") || str_eq(prop.scheme.as_str(), "https");
    if !(r_http && p_http) && !str_eq(reg.scheme.as_str(), prop.scheme.as_str()) {
        return false;
    }
    let host_reg = match &reg.host {
        Some(h) => h.as_str(),
        None => {
            return false;
        },
    };
    let host_prop = match &prop.host {
        Some(h) => h.as_str(),
        None => {
            return false;
        },
    };
    let (first_reg, domain_reg, third_reg) = match treg {
        Some(t) => (opt_or(&t.suffix, ""), opt_or(&t.domain, host_reg), opt_or(&t.subdomain, "")),
        None => ("", host_reg, ""),
    };
    let (first_prop, domain_prop, third_prop) = match tprop {
        Some(t) => (opt_or(&t.suffix, ""), opt_or(&t.domain, host_prop), opt_or(&t.subdomain, "")),
        None => ("", host_prop, ""),
    };
    proof {
        reveal_strlit("");
        reveal_strlit("/");
    }
    if first_reg.unicode_len() != 0 && !str_eq(first_reg, first_prop) {
        return false;
    }
    if !str_eq(domain_reg, domain_prop) {
        return false;
    }
    if third_reg.unicode_len() != 0 && !str_eq(third_reg, third_prop) {
        return false;
    }
    let path_reg = reg.path.as_str();
    let path_prop = prop.path.as_str();
    let n = path_reg.unicode_len();
    if n != 0 {
        if !starts_with(path_prop, path_reg) {
            return false;
        }
        if !str_eq(path_reg, "/") && !ends_with_char(path_reg, '/') && path_prop.unicode_len() > n {
            if path_prop.get_char(n) != '/' {
                return false;
            }
        }
    }
    true
}

/// `http://` in front of `s` unless it already names a scheme.
fn add_scheme(s: &str) -> (r: String)
    ensures
        r@ == with_scheme(s@),
{
    if contains_str(s, "://") {
        String::from_str(s)
    } else {
        concat("http://", s)
    }
}

/// The verdict a list of entries gives site `k`: that of its last entry
/// whose site, without trailing `/`, is `k`.
pub open spec fn given_status(v: Seq<(String, UrlStatus)>, k: Seq<char>) -> Option<UrlStatus>
    decreases v.len(),
{
    if v.len() == 0 {
        None
    } else if trim_end_char_spec(v.last().0@, '/') == k {
        Some(v.last().1)
    } else {
        given_status(v.drop_last(), k)
    }
}

/// The sites of a list.
pub open spec fn sites_view(v: Seq<String>) -> Seq<Seq<char>> {
    v.map_values(|s: String| s@)
}

/// No site occurs twice.
pub open spec fn distinct_sites(e: Seq<(String, UrlStatus)>) -> bool {
    forall|i: int, j: int| 0 <= i < j < e.len() ==> (#[trigger] e[i]).0@ != (#[trigger] e[j]).0@
}

/// Whether `url` structurally falls under one of `sites`.
pub open spec fn some_site_matches(sites: Seq<Seq<char>>, url: Seq<char>) -> bool {
    exists|i: int| 0 <= i < sites.len() && structurally_matches(#[trigger] sites[i], url)
}

/// Whether site `k` is recorded.
pub open spec fn has_site(e: Seq<(String, UrlStatus)>, k: Seq<char>) -> bool {
    exists|i: int| 0 <= i < e.len() && (#[trigger] e[i]).0@ == k
}

/// The verdict recorded for site `k`, if any.
pub open spec fn status_of(e: Seq<(String, UrlStatus)>, k: Seq<char>) -> Option<UrlStatus> {
    if exists|i: int| 0 <= i < e.len() && (#[trigger] e[i]).0@ == k {
        Some(e[choose|i: int| 0 <= i < e.len() && (#[trigger] e[i]).0@ == k].1)
    } else {
        None
    }
}

/// The sites recorded with verdict `st`, in list order.
pub open spec fn sites_with(e: Seq<(String, UrlStatus)>, st: UrlStatus) -> Seq<Seq<char>>
    decreases e.len(),
{
    if e.len() == 0 {
        Seq::empty()
    } else if e.last().1 == st {
        sites_with(e.drop_last(), st).push(e.last().0@)
    } else {
        sites_with(e.drop_last(), st)
    }
}

/// A site policy as a mathematical value: the verdicts by site (`None`
/// when no verdict list is kept), the block list (`None` when none is kept),
/// and the suffix entries and naive mode of the domain splitter.
pub struct PolicyView {
    pub statuses: Option<Map<Seq<char>, UrlStatus>>,
    pub block_list: Option<Seq<Seq<char>>>,
    pub suffixes: Set<Seq<char>>,
    pub naive: bool,
}

/// Whether `proposed` falls under the registered site `registered`.
pub open spec fn pv_matches(p: PolicyView, registered: Seq<char>, proposed: Seq<char>) -> bool {
    site_match_spec(p.suffixes, p.naive, registered, proposed)
}

/// Whether `url` falls under a site of the block list.
pub open spec fn pv_blocks(p: PolicyView, url: Seq<char>) -> bool {
    &&& p.block_list is Some
    &&& exists|i: int| 0 <= i < p.block_list->0.len() && pv_matches(p, #[trigger] p.block_list->0[i], url)
}

/// Whether `url` falls under a site recorded with verdict `st`.
pub open spec fn pv_has_match_with(p: PolicyView, url: Seq<char>, st: UrlStatus) -> bool {
    &&& p.statuses is Some
    &&& exists|k: Seq<char>| #[trigger] p.statuses->0.dom().contains(k) && p.statuses->0[k] == st && pv_matches(p, k, url)
}

/// Whether `url` may be visited: not blocked, and either no verdict list is
/// kept or it falls under a site recorded as allowed.
pub open spec fn pv_allows(p: PolicyView, url: Seq<char>) -> bool {
    !pv_blocks(p, url) && (p.statuses is None || pv_has_match_with(p, url, UrlStatus::Allowed))
}

/// The site under which a verdict given for `url` is recorded: trimmed,
/// without trailing `/`.
pub open spec fn status_key(url: Seq<char>) -> Seq<char> {
    trim_end_char_spec(trim_spec(url), '/')
}

/// The policy after recording `status` for `site`; without a verdict list
/// nothing is recorded.
pub open spec fn pv_record(p: PolicyView, site: Seq<char>, status: UrlStatus) -> PolicyView {
    PolicyView {
        statuses: match p.statuses {
            Some(s) => Some(s.insert(status_key(site), status)),
            None => None,
        },
        ..p
    }
}

/// The registrable domain of `url` as the splitter gives it: domain and
/// suffix joined by a dot, the domain alone without a suffix, and `url`
/// itself when the split yields no domain.
pub open spec fn pv_domain(p: PolicyView, url: Seq<char>) -> Seq<char> {
    let d = match tld_split(p.suffixes, p.naive, url) {
        Some(t) => match (t.domain, t.suffix) {
            (Some(d), Some(x)) => d + "."@ + x,
            (Some(d), None) => d,
            _ => Seq::empty(),
        },
        None => Seq::empty(),
    };
    if d.len() == 0 { url } else { d }
}

/// Tracks per-site verdicts and a block list, and decides whether a URL may
/// be visited.
#[derive(Debug)]
pub struct UrlStatusManager {
    url_statuses: Option<Vec<(String, UrlStatus)>>,
    url_block_list: Option<Vec<String>>,
    tld_extractor: TldExtractor,
}

proof fn lemma_status_at(e: Seq<(String, UrlStatus)>, i: int)
    requires
        distinct_sites(e),
        0 <= i < e.len(),
    ensures
        status_of(e, e[i].0@) == Some(e[i].1),
{
    let k = e[i].0@;
    assert(has_site(e, k));
    let c = choose|c: int| 0 <= c < e.len() && (#[trigger] e[c]).0@ == k;
    if c < i {
        assert(e[c].0@ != e[i].0@);
    } else if c > i {
        assert(e[i].0@ != e[c].0@);
    }
}

/// Inserts or replaces the verdict for `site`.
fn put_status(e: &mut Vec<(String, UrlStatus)>, site: String, status: UrlStatus)
    requires
        distinct_sites(old(e)@),
    ensures
        distinct_sites(final(e)@),
        forall|k: Seq<char>| #[trigger] status_of(final(e)@, k) == (if k == site@ { Some(status) } else { status_of(old(e)@, k) }),
        forall|k: Seq<char>| #[trigger] has_site(final(e)@, k) <==> (has_site(old(e)@, k) || k == site@),
{
    let ghost old_e = e@;
    let mut i: usize = 0;
    while i < e.len()
        invariant
            e@ == old_e,
            old_e == old(e)@,
            distinct_sites(old_e),
            i <= e@.len(),
            forall|j: int| 0 <= j < i ==> (#[trigger] e@[j]).0@ != site@,
        decreases e@.len() - i,
    {
        if str_eq(e[i].0.as_str(), site.as_str()) {
            e.set(i, (site, status));
            proof {
                let ne = e@;
                let ii = i as int;
                assert forall|a: int, b: int| 0 <= a < b < ne.len() implies (#[trigger] ne[a]).0@ != (#[trigger] ne[b]).0@ by {
                    assert(old_e[a].0@ != old_e[b].0@);
                }
                assert forall|k: Seq<char>| #[trigger] has_site(ne, k) <==> (has_site(old_e, k) || k == site@) by {
                    if has_site(ne, k) {
                        let c = choose|c: int| 0 <= c < ne.len() && (#[trigger] ne[c]).0@ == k;
                        assert(old_e[c].0@ == k);
                    }
                    if has_site(old_e, k) {
                        let c = choose|c: int| 0 <= c < old_e.len() && (#[trigger] old_e[c]).0@ == k;
                        assert(ne[c].0@ == k);
                    }
                    if k == site@ {
                        assert(ne[ii].0@ == k);
                    }
                }
                assert forall|k: Seq<char>| #[trigger] status_of(ne, k) == (if k == site@ { Some(status) } else { status_of(old_e, k) }) by {
                    if k == site@ {
                        lemma_status_at(ne, ii);
                    } else if has_site(old_e, k) {
                        let c = choose|c: int| 0 <= c < old_e.len() && (#[trigger] old_e[c]).0@ == k;
                        lemma_status_at(old_e, c);
                        lemma_status_at(ne, c);
                    } else {
                        assert(!has_site(ne, k));
                    }
                }
            }
            return;
        }
        i = i + 1;
    }
    e.push((site, status));
    proof {
        let ne = e@;
        let n = old_e.len() as int;
        assert forall|a: int, b: int| 0 <= a < b < ne.len() implies (#[trigger] ne[a]).0@ != (#[trigger] ne[b]).0@ by {
            if b < n {
                assert(old_e[a].0@ != old_e[b].0@);
            } else {
                assert(ne[a] == old_e[a]);
            }
        }
        assert forall|k: Seq<char>| #[trigger] has_site(ne, k) <==> (has_site(old_e, k) || k == site@) by {
            if has_site(ne, k) {
                let c = choose|c: int| 0 <= c < ne.len() && (#[trigger] ne[c]).0@ == k;
                if c < n {
                    assert(old_e[c].0@ == k);
                }
            }
            if has_site(old_e, k) {
                let c = choose|c: int| 0 <= c < old_e.len() && (#[trigger] old_e[c]).0@ == k;
                assert(ne[c].0@ == k);
            }
            if k == site@ {
                assert(ne[n].0@ == k);
            }
        }
        assert forall|k: Seq<char>| #[trigger] status_of(ne, k) == (if k == site@ { Some(status) } else { status_of(old_e, k) }) by {
            if k == site@ {
                lemma_status_at(ne, n);
            } else if has_site(old_e, k) {
                let c = choose|c: int| 0 <= c < old_e.len() && (#[trigger] old_e[c]).0@ == k;
                lemma_status_at(old_e, c);
                lemma_status_at(ne, c);
            } else {
                assert(!has_site(ne, k));
            }
        }
    }
}

/// The sites recorded with verdict `st` are listed once each, and exactly
/// those.
proof fn lemma_sites_with(e: Seq<(String, UrlStatus)>, st: UrlStatus)
    requires
        distinct_sites(e),
    ensures
        sites_with(e, st).no_duplicates(),
        forall|k: Seq<char>| #[trigger] sites_with(e, st).contains(k) <==> status_of(e, k) == Some(st),
    decreases e.len(),
{
    if e.len() > 0 {
        let n = e.len() - 1;
        let e0 = e.drop_last();
        assert forall|a: int, b: int| 0 <= a < b < e0.len() implies (#[trigger] e0[a]).0@ != (#[trigger] e0[b]).0@ by {
            assert(e0[a] == e[a] && e0[b] == e[b]);
        }
        lemma_sites_with(e0, st);
        let lk = e[n].0@;
        lemma_status_at(e, n);
        assert(!has_site(e0, lk)) by {
            if has_site(e0, lk) {
                let c = choose|c: int| 0 <= c < e0.len() && (#[trigger] e0[c]).0@ == lk;
                assert(e[c].0@ == e[n].0@);
            }
        }
        assert forall|k: Seq<char>| k != lk implies status_of(e, k) == status_of(e0, k) by {
            if has_site(e0, k) {
                let c = choose|c: int| 0 <= c < e0.len() && (#[trigger] e0[c]).0@ == k;
                lemma_status_at(e0, c);
                lemma_status_at(e, c);
                assert(e0[c] == e[c]);
            } else {
                assert(!has_site(e, k)) by {
                    if has_site(e, k) {
                        let c = choose|c: int| 0 <= c < e.len() && (#[trigger] e[c]).0@ == k;
                        if c < n {
                            assert(e0[c] == e[c]);
                        }
                    }
                }
            }
        }
        let prev = sites_with(e0, st);
        assert(!prev.contains(lk)) by {
            if prev.contains(lk) {
                assert(status_of(e0, lk) == Some(st));
            }
        }
        assert forall|k: Seq<char>| #[trigger] sites_with(e, st).contains(k) <==> status_of(e, k) == Some(st) by {
            if e.last().1 == st {
                assert(sites_with(e, st) == prev.push(lk));
                if k == lk {
                    assert(sites_with(e, st)[prev.len() as int] == lk);
                } else {
                    if sites_with(e, st).contains(k) {
                        let j = choose|j: int| 0 <= j < sites_with(e, st).len() && sites_with(e, st)[j] == k;
                        assert(prev[j] == k);
                    }
                    if prev.contains(k) {
                        let j = choose|j: int| 0 <= j < prev.len() && prev[j] == k;
                        assert(sites_with(e, st)[j] == k);
                    }
                }
            }
        }
    }
}

impl UrlStatusManager {
    /// The policy as a mathematical value: the verdicts by site, the block
    /// list, and the suffix entries and naive mode of its domain splitter.
    pub closed spec fn pview(&self) -> PolicyView {
        PolicyView {
            statuses: match self.url_statuses {
                Some(e) => Some(
                    Map::new(|k: Seq<char>| status_of(e@, k) is Some, |k: Seq<char>| status_of(e@, k)->0),
                ),
                None => None,
            },
            block_list: match self.url_block_list {
                Some(b) => Some(sites_view(b@)),
                None => None,
            },
            suffixes: tld_suffix_set(self.tld_extractor),
            naive: tld_naive(self.tld_extractor),
        }
    }

    /// Whether `proposed` falls under the registered site `registered` by
    /// the site-matching rule, with this manager's domain splitter.
    pub open spec fn site_matches(&self, registered: Seq<char>, proposed: Seq<char>) -> bool {
        pv_matches(self.pview(), registered, proposed)
    }

    /// Whether `url` falls under a site of the block list.
    pub open spec fn blocks(&self, url: Seq<char>) -> bool {
        pv_blocks(self.pview(), url)
    }

    /// Whether `url` falls under a site recorded with verdict `st`.
    pub open spec fn has_match_with(&self, url: Seq<char>, st: UrlStatus) -> bool {
        pv_has_match_with(self.pview(), url, st)
    }

    /// Whether `url` may be visited: not blocked, and either no verdict list
    /// is kept or it falls under a site recorded as allowed.
    pub open spec fn allows(&self, url: Seq<char>) -> bool {
        pv_allows(self.pview(), url)
    }

    /// Whether the recorded sites are free of duplicates.
    pub closed spec fn wf(&self) -> bool {
        match self.url_statuses {
            Some(e) => distinct_sites(e@),
            None => true,
        }
    }

    /// The recorded verdicts, by site; `None` when no list is kept.
    pub open spec fn statuses(&self) -> Option<Map<Seq<char>, UrlStatus>> {
        self.pview().statuses
    }

    /// The block list; `None` when none is kept.
    pub open spec fn block_list(&self) -> Option<Seq<Seq<char>>> {
        self.pview().block_list
    }

    /// The recorded sites with verdict `st`, in the order they were first
    /// recorded.
    pub closed spec fn sites_with_status(&self, st: UrlStatus) -> Option<Seq<Seq<char>>> {
        match self.url_statuses {
            Some(e) => Some(sites_with(e@, st)),
            None => None,
        }
    }

    /// A manager for the given verdicts and block list. Sites are recorded
    /// without trailing `/`; when two sites agree after that, the later
    /// verdict wins.
    pub fn new(url_statuses: Option<Vec<(String, UrlStatus)>>, url_block_list: Option<Vec<String>>) -> (m: UrlStatusManager)
        ensures
            m.wf(),
            m.block_list() == (match url_block_list {
                Some(b) => Some(sites_view(b@)),
                None => None,
            }),
            (m.statuses() is None) == (url_statuses is None),
            url_statuses matches Some(v) ==> forall|k: Seq<char>| (#[trigger] m.statuses()->0.dom().contains(k))
                <==> given_status(v@, k) is Some,
            url_statuses matches Some(v) ==> forall|k: Seq<char>| m.statuses()->0.dom().contains(k)
                ==> Some(#[trigger] m.statuses()->0[k]) == given_status(v@, k),
    {
        let statuses = match url_statuses {
            Some(v) => {
                let mut cleaned: Vec<(String, UrlStatus)> = Vec::new();
                let mut i: usize = 0;
                while i < v.len()
                    invariant
                        i <= v@.len(),
                        distinct_sites(cleaned@),
                        forall|k: Seq<char>| #[trigger] status_of(cleaned@, k) == given_status(v@.subrange(0, i as int), k),
                    decreases v@.len() - i,
                {
                    let site = trim_end_char(v[i].0.as_str(), '/');
                    put_status(&mut cleaned, site, v[i].1);
                    proof {
                        assert(v@.subrange(0, i + 1).drop_last() =~= v@.subrange(0, i as int));
                    }
                    i = i + 1;
                }
                proof {
                    assert(v@.subrange(0, v@.len() as int) =~= v@);
                }
                Some(cleaned)
            },
            None => None,
        };
        UrlStatusManager { url_statuses: statuses, url_block_list, tld_extractor: new_tld_extractor() }
    }

    /// Records `status` for the trimmed site `url` without trailing `/`,
    /// when a verdict list is kept; otherwise nothing changes.
    pub fn set_url_status(&mut self, url: &str, status: UrlStatus)
        requires
            old(self).wf(),
        ensures
            final(self).wf(),
            final(self).block_list() == old(self).block_list(),
            old(self).statuses() is None ==> final(self).statuses() is None,
            old(self).statuses() matches Some(s) ==> final(self).statuses() == Some(
                s.insert(trim_end_char_spec(trim_spec(url@), '/'), status),
            ),
            final(self).pview() == pv_record(old(self).pview(), url@, status),
    {
        match &mut self.url_statuses {
            Some(statuses) => {
                let t = trim(url);
                let cleaned = trim_end_char(t.as_str(), '/');
                let ghost key = cleaned@;
                let ghost before = statuses@;
                put_status(statuses, cleaned, status);
                proof {
                    let after = statuses@;
                    let m_old = Map::new(|k: Seq<char>| status_of(before, k) is Some, |k: Seq<char>| status_of(before, k)->0);
                    let m_new = Map::new(|k: Seq<char>| status_of(after, k) is Some, |k: Seq<char>| status_of(after, k)->0);
                    assert(m_new =~= m_old.insert(key, status));
                }
            },
            None => {},
        }
    }

    /// The registrable domain of `url` (see `pv_domain`).
    pub fn site_domain(&self, url: &str) -> (r: String)
        ensures
            r@ == pv_domain(self.pview(), url@),
    {
        let t = tld_extract(&self.tld_extractor, url);
        let d = match t {
            Some(TldParts { domain: Some(d), suffix: Some(x), .. }) => {
                let mut r = concat(d.as_str(), ".");
                r.append(x.as_str());
                r
            },
            Some(TldParts { domain: Some(d), suffix: None, .. }) => d,
            _ => String::new(),
        };
        proof {
            reveal_strlit("");
            reveal_strlit(".");
            let sd = match tld_split(self.pview().suffixes, self.pview().naive, url@) {
                Some(t) => match (t.domain, t.suffix) {
                    (Some(d), Some(x)) => d + "."@ + x,
                    (Some(d), None) => d,
                    _ => Seq::empty(),
                },
                None => Seq::empty(),
            };
            assert(d@ == sd);
        }
        if str_eq(d.as_str(), "") {
            String::from_str(url)
        } else {
            proof {
                if d@.len() == 0 {
                    assert(d@ =~= ""@);
                }
            }
            d
        }
    }

    /// Whether `proposed` falls under the registered site `registered`
    /// (both read with `http://` in front when they name no scheme; see
    /// `site_match_spec`).
    fn is_url_match(&self, registered: &str, proposed: &str) -> (r: bool)
        ensures
            r == self.site_matches(registered@, proposed@),
            r ==> structurally_matches(registered@, proposed@),
    {
        let reg_url = add_scheme(registered);
        let prop_url = add_scheme(proposed);
        let parsed_reg = match parse_url(reg_url.as_str()) {
            Some(u) => u,
            None => {
                return false;
            },
        };
        let parsed_prop = match parse_url(prop_url.as_str()) {
            Some(u) => u,
            None => {
                return false;
            },
        };
        let treg = match &parsed_reg.host {
            Some(h) => tld_extract(&self.tld_extractor, h.as_str()),
            None => None,
        };
        let tprop = match &parsed_prop.host {
            Some(h) => tld_extract(&self.tld_extractor, h.as_str()),
            None => None,
        };
        let r = url_parts_match(&parsed_reg, &parsed_prop, &treg, &tprop);
        proof {
            if r {
                lemma_site_match_structural(
                    tld_suffix_set(self.tld_extractor),
                    tld_naive(self.tld_extractor),
                    registered@,
                    proposed@,
                );
            }
        }
        r
    }

    /// Whether `url` falls under a site of the block list.
    pub fn is_url_blocked(&self, url: &str) -> (r: bool)
        ensures
            r == self.blocks(url@),
            r ==> (self.block_list() is Some && some_site_matches(self.block_list()->0, url@)),
            self.block_list() is None ==> !r,
    {
        match &self.url_block_list {
            Some(list) => {
                let mut i: usize = 0;
                while i < list.len()
                    invariant
                        i <= list@.len(),
                        self.url_block_list == Some(*list),
                        forall|j: int| 0 <= j < i ==> !self.site_matches(#[trigger] sites_view(list@)[j], url@),
                    decreases list@.len() - i,
                {
                    if self.is_url_match(list[i].as_str(), url) {
                        proof {
                            let b = sites_view(list@);
                            assert(b[i as int] == list@[i as int]@);
                            assert(structurally_matches(b[i as int], url@));
                            assert(self.block_list() == Some(b));
                            assert(some_site_matches(b, url@));
                            assert(self.site_matches(b[i as int], url@));
                            assert(self.site_matches(self.block_list()->0[i as int], url@));
                        }
                        return true;
                    }
                    i = i + 1;
                }
                proof {
                    let b = sites_view(list@);
                    assert(self.block_list() == Some(b));
                    assert forall|j: int| 0 <= j < b.len() implies !self.site_matches(#[trigger] b[j], url@) by {}
                }
                false
            },
            None => false,
        }
    }

    /// Whether `url` falls under a site recorded as rejected.
    pub fn is_url_rejected(&self, url: &str) -> (r: bool)
        requires
            self.wf(),
        ensures
            r == self.has_match_with(url@, UrlStatus::Rejected),
            r ==> (self.statuses() matches Some(s) && exists|k: Seq<char>| s.dom().contains(k)
                && s[k] == UrlStatus::Rejected && structurally_matches(k, url@)),
            self.statuses() is None ==> !r,
    {
        self.any_match_with(url, UrlStatus::Rejected)
    }

    fn any_match_with(&self, url: &str, st: UrlStatus) -> (r: bool)
        requires
            self.wf(),
        ensures
            r == self.has_match_with(url@, st),
            r ==> (self.statuses() matches Some(s) && exists|k: Seq<char>| s.dom().contains(k)
                && s[k] == st && structurally_matches(k, url@)),
            self.statuses() is None ==> !r,
    {
        match &self.url_statuses {
            Some(e) => {
                let mut i: usize = 0;
                while i < e.len()
                    invariant
                        i <= e@.len(),
                        self.url_statuses == Some(*e),
                        distinct_sites(e@),
                        forall|j: int| 0 <= j < i ==> !((#[trigger] e@[j]).1 == st && self.site_matches(e@[j].0@, url@)),
                    decreases e@.len() - i,
                {
                    if e[i].1 == st && self.is_url_match(e[i].0.as_str(), url) {
                        proof {
                            let k = e@[i as int].0@;
                            lemma_status_at(e@, i as int);
                            let s = self.statuses()->0;
                            assert(s.dom().contains(k) && s[k] == st && structurally_matches(k, url@));
                            assert(s.dom().contains(k) && s[k] == st && self.site_matches(k, url@));
                        }
                        return true;
                    }
                    i = i + 1;
                }
                proof {
                    let s = self.statuses()->0;
                    assert forall|k: Seq<char>| #[trigger] s.dom().contains(k) && s[k] == st implies !self.site_matches(k, url@) by {
                        let c = choose|c: int| 0 <= c < e@.len() && (#[trigger] e@[c]).0@ == k;
                        lemma_status_at(e@, c);
                        assert(!(e@[c].1 == st && self.site_matches(e@[c].0@, url@)));
                    }
                }
                false
            },
            None => false,
        }
    }

    /// Whether `url` may be visited: never when blocked; always when no
    /// verdict list is kept; otherwise only under a site recorded as allowed.
    pub fn is_url_allowed(&self, url: &str) -> (r: bool)
        requires
            self.wf(),
        ensures
            r == self.allows(url@),
            self.statuses() is None && self.block_list() is None ==> r,
            r ==> self.statuses() is None || exists|k: Seq<char>| self.statuses()->0.dom().contains(k)
                && self.statuses()->0[k] == UrlStatus::Allowed && structurally_matches(k, url@),
    {
        if self.is_url_blocked(url) {
            return false;
        }
        if self.url_statuses.is_none() {
            return true;
        }
        self.any_match_with(url, UrlStatus::Allowed)
    }

    /// The sites recorded as allowed, when a verdict list is kept.
    pub fn get_allowed_sites(&self) -> (r: Option<Vec<String>>)
        requires
            self.wf(),
        ensures
            (match r {
                Some(v) => Some(sites_view(v@)),
                None => None,
            }) == self.sites_with_status(UrlStatus::Allowed),
            r is Some <==> self.statuses() is Some,
            r matches Some(v) ==> sites_view(v@).no_duplicates(),
            r matches Some(v) ==> forall|k: Seq<char>| #[trigger] sites_view(v@).contains(k)
                <==> (self.statuses()->0.dom().contains(k) && self.statuses()->0[k] == UrlStatus::Allowed),
    {
        self.sites_with(UrlStatus::Allowed)
    }

    /// The sites recorded as rejected, when a verdict list is kept.
    pub fn get_rejected_sites(&self) -> (r: Option<Vec<String>>)
        requires
            self.wf(),
        ensures
            (match r {
                Some(v) => Some(sites_view(v@)),
                None => None,
            }) == self.sites_with_status(UrlStatus::Rejected),
            r is Some <==> self.statuses() is Some,
            r matches Some(v) ==> sites_view(v@).no_duplicates(),
            r matches Some(v) ==> forall|k: Seq<char>| #[trigger] sites_view(v@).contains(k)
                <==> (self.statuses()->0.dom().contains(k) && self.statuses()->0[k] == UrlStatus::Rejected),
    {
        self.sites_with(UrlStatus::Rejected)
    }

    fn sites_with(&self, st: UrlStatus) -> (r: Option<Vec<String>>)
        requires
            self.wf(),
        ensures
            (match r {
                Some(v) => Some(sites_view(v@)),
                None => None,
            }) == self.sites_with_status(st),
            r is Some <==> self.statuses() is Some,
            r matches Some(v) ==> sites_view(v@).no_duplicates(),
            r matches Some(v) ==> forall|k: Seq<char>| #[trigger] sites_view(v@).contains(k)
                <==> (self.statuses()->0.dom().contains(k) && self.statuses()->0[k] == st),
    {
        match &self.url_statuses {
            Some(e) => {
                let mut out: Vec<String> = Vec::new();
                let mut i: usize = 0;
                while i < e.len()
                    invariant
                        i <= e@.len(),
                        sites_view(out@) == sites_with(e@.subrange(0, i as int), st),
                    decreases e@.len() - i,
                {
                    assert(e@.subrange(0, i + 1).drop_last() =~= e@.subrange(0, i as int));
                    if e[i].1 == st {
                        out.push(e[i].0.clone());
                    }
                    assert(sites_view(out@) =~= sites_with(e@.subrange(0, i + 1), st));
                    i = i + 1;
                }
                assert(e@.subrange(0, e@.len() as int) =~= e@);
                proof {
                    lemma_sites_with(e@, st);
                }
                Some(out)
            },
            None => None,
        }
    }

    /// The block list, when one is kept.
    pub fn get_blocked_sites(&self) -> (r: Option<&Vec<String>>)
        ensures
            (match r {
                Some(v) => Some(sites_view(v@)),
                None => None,
            }) == self.block_list(),
    {
        self.url_block_list.as_ref()
    }
}

/// A registered site with a subdomain covers only that subdomain: when the
/// registered host splits with a non-empty subdomain, a proposed URL whose
/// host does not split with the same subdomain does not match it (so
/// `mail.google.com` covers no `www.google.com`). Likewise a registered
/// non-empty suffix must be the proposed one, and the domains must agree.
pub proof fn lemma_parts_match_components(
    reg: UrlPartsView,
    prop: UrlPartsView,
    treg: Option<TldPartsView>,
    tprop: Option<TldPartsView>,
)
    ensures
        (treg is Some && treg->0.subdomain is Some && treg->0.subdomain->0.len() > 0 && (tprop is Some
            ==> tprop->0.subdomain != treg->0.subdomain)) ==> !parts_match(reg, prop, treg, tprop),
        (treg is Some && treg->0.suffix is Some && treg->0.suffix->0.len() > 0 && (tprop is Some
            ==> tprop->0.suffix != treg->0.suffix)) ==> !parts_match(reg, prop, treg, tprop),
        (treg is None && tprop is None && reg.host is Some && prop.host is Some && reg.host != prop.host)
            ==> !parts_match(reg, prop, treg, tprop),
        (treg is Some && tprop is Some && treg->0.domain is Some && tprop->0.domain is Some
            && treg->0.domain != tprop->0.domain) ==> !parts_match(reg, prop, treg, tprop),
        (reg.path.len() > 0 && !reg.path.is_prefix_of(prop.path)) ==> !parts_match(reg, prop, treg, tprop),
        (reg.scheme != prop.scheme && !((reg.scheme == "http"@ || reg.scheme == "https"@) && (prop.scheme
            == "http"@ || prop.scheme == "https"@))) ==> !parts_match(reg, prop, treg, tprop),
        (reg.host is None || prop.host is None) ==> !parts_match(reg, prop, treg, tprop),
        reg.host is Some ==> parts_match(reg, reg, treg, treg),
{
    if reg.path.len() > 0 && !reg.path.is_prefix_of(prop.path) {
        if reg.path.len() <= prop.path.len() {
            assert(prop.path.subrange(0, reg.path.len() as int) != reg.path);
        }
    }
    if reg.host is Some {
        assert(reg.path.len() == 0 || reg.path.subrange(0, reg.path.len() as int) =~= reg.path);
    }
}

/// The site rule on strings inherits the subdomain requirement: when both
/// URLs parse with hosts, and the registered host's split has a non-empty
/// subdomain the proposed host's split does not share, the site does not
/// match the URL, so it neither blocks nor allows it.
pub proof fn lemma_site_subdomain_must_agree(
    suffixes: Set<Seq<char>>,
    naive: bool,
    registered: Seq<char>,
    proposed: Seq<char>,
    r: UrlPartsView,
    p: UrlPartsView,
    hr: Seq<char>,
    hp: Seq<char>,
    t: TldPartsView,
    sub: Seq<char>,
)
    requires
        url_parse(with_scheme(registered)) == Some(r),
        r.host == Some(hr),
        tld_split(suffixes, naive, hr) == Some(t),
        t.subdomain == Some(sub),
        sub.len() > 0,
        url_parse(with_scheme(proposed)) == Some(p),
        p.host == Some(hp),
        tld_split(suffixes, naive, hp) is Some ==> tld_split(suffixes, naive, hp)->0.subdomain != Some(sub),
    ensures
        !site_match_spec(suffixes, naive, registered, proposed),
{
    lemma_parts_match_components(r, p, split_host(suffixes, naive, r.host), split_host(suffixes, naive, p.host));
}

} // verus!
