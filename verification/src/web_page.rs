//! How the browsing agent describes a web page to the model: interactive
//! targets as JSON lines ordered by id, open tabs, the focused element and
//! the page prompt.

use vstd::prelude::*;
use crate::assoc::Assoc;
use crate::encode::{collapse_newlines, json_quote, json_string, newline_runs_to_space};
use crate::text::{
    concat, decimal, join, join_spec, parse_i32, parse_i32_spec, signed_decimal, str_eq,
    take_chars, take_spec, trim, trim_spec, usize_to_string, views,
};

verus! {

/// An interactive element of a page as the page script reports it.
#[derive(Debug, Clone)]
pub struct InteractiveRegion {
    pub tag_name: String,
    pub role: String,
    pub aria_name: Option<String>,
}

impl InteractiveRegion {
    /// A copy of this element.
    pub fn duplicate(&self) -> (r: InteractiveRegion)
        ensures
            r == *self,
    {
        InteractiveRegion {
            tag_name: self.tag_name.clone(),
            role: self.role.clone(),
            aria_name: match &self.aria_name {
                Some(n) => Some(n.clone()),
                None => None,
            },
        }
    }
}

/// The element's accessible name, trimmed, when it is not blank.
pub open spec fn region_name(r: InteractiveRegion) -> Option<Seq<char>> {
    match r.aria_name {
        Some(n) => if trim_spec(n@).len() > 0 { Some(trim_spec(n@)) } else { None },
        None => None,
    }
}

/// The name of the element with id `target`, when it has a non-blank one.
pub open spec fn target_name_spec(target: Seq<char>, rects: Map<Seq<char>, InteractiveRegion>) -> Option<Seq<char>> {
    if rects.dom().contains(target) {
        region_name(rects[target])
    } else {
        None
    }
}

/// View of an optional string.
pub open spec fn ostr(o: Option<String>) -> Option<Seq<char>> {
    match o {
        Some(s) => Some(s@),
        None => None,
    }
}

/// The trimmed accessible name of the element with id `target`, if it has
/// a non-blank one.
pub fn target_name(target: &str, rects: &Assoc<InteractiveRegion>) -> (r: Option<String>)
    ensures
        ostr(r) == target_name_spec(target@, rects@),
{
    match rects.get(target) {
        Some(region) => match &region.aria_name {
            Some(n) => {
                let t = trim(n.as_str());
                if t.as_str().unicode_len() > 0 {
                    Some(t)
                } else {
                    None
                }
            },
            None => None,
        },
        None => None,
    }
}

/// The element's role, trimmed, or its trimmed tag name when the role is blank.
pub open spec fn aria_role(r: InteractiveRegion) -> Seq<char> {
    if trim_spec(r.role@).len() > 0 {
        trim_spec(r.role@)
    } else {
        trim_spec(r.tag_name@)
    }
}

/// Whether text can be typed into the element.
pub open spec fn is_text_input(r: InteractiveRegion) -> bool {
    ||| r.role@ == "textbox"@
    ||| r.role@ == "searchbox"@
    ||| r.role@ == "combobox"@
    ||| r.tag_name@ == "input"@
    ||| r.tag_name@ == "textarea"@
    ||| r.tag_name@ == "search"@
}

/// The tools offered for an element: an option can only be selected, a
/// file input only receive an upload, anything else can be clicked and
/// hovered, and text inputs also typed into.
pub open spec fn region_actions(r: InteractiveRegion) -> Seq<Seq<char>> {
    if aria_role(r) == "input, type=file"@ {
        seq!["upload_file"@]
    } else if r.role@ == "option"@ {
        seq!["select_option"@]
    } else if is_text_input(r) {
        seq!["click"@, "hover"@, "input_text"@]
    } else {
        seq!["click"@, "hover"@]
    }
}

/// The name shown for an element: line breaks collapsed, trimmed and cut
/// to 100 characters; empty when it has none.
pub open spec fn display_name(r: InteractiveRegion) -> Seq<char> {
    match r.aria_name {
        Some(n) => take_spec(trim_spec(newline_runs_to_space(n@)), 100),
        None => Seq::empty(),
    }
}

/// A tool name as a JSON string.
pub open spec fn quoted(t: Seq<char>) -> Seq<char> {
    seq!['"'] + t + seq!['"']
}

/// Each tool name as a JSON string.
pub open spec fn quoted_all(s: Seq<Seq<char>>) -> Seq<Seq<char>> {
    s.map_values(|t: Seq<char>| quoted(t))
}

/// The JSON lines of keyed entries.
pub open spec fn lines_of(s: Seq<(int, Seq<char>)>) -> Seq<Seq<char>> {
    s.map_values(|e: (int, Seq<char>)| e.1)
}

/// The JSON object describing one target, with members in the order
/// `id`, `name`, `role`, `tools`.
pub open spec fn target_json_spec(id: int, qname: Seq<char>, qrole: Seq<char>, tools: Seq<Seq<char>>) -> Seq<char> {
    "{\"id\":"@ + signed_decimal(id) + ",\"name\":"@ + qname + ",\"role\":"@ + qrole + ",\"tools\":["@
        + join_spec(quoted_all(tools), ","@) + "]}"@
}

/// The numeric id of a target (0 when the id is not an `i32`) and its JSON line.
pub open spec fn target_entry_spec(id: Seq<char>, r: InteractiveRegion) -> (int, Seq<char>) {
    let n = match parse_i32_spec(id) {
        Some(v) => v,
        None => 0,
    };
    (n, target_json_spec(n, json_string(display_name(r)), json_string(aria_role(r)), region_actions(r)))
}

/// The JSON object describing one target, from its already quoted name and role.
pub fn target_json(id: i32, qname: &str, qrole: &str, tools: &Vec<String>) -> (r: String)
    ensures
        r@ == target_json_spec(id as int, qname@, qrole@, views(tools@)),
{
    let mut quoted_tools: Vec<String> = Vec::new();
    let mut i: usize = 0;
    while i < tools.len()
        invariant
            i <= tools@.len(),
            views(quoted_tools@) == quoted_all(views(tools@).subrange(0, i as int)),
        decreases tools@.len() - i,
    {
        proof {
            reveal_strlit("\"");
            assert("\""@ =~= seq!['"']);
        }
        let mut q = String::from_str("\"");
        q.append(tools[i].as_str());
        q.append("\"");
        assert(q@ =~= quoted(tools@[i as int]@));
        let ghost qv = q@;
        let ghost prev = quoted_tools@;
        quoted_tools.push(q);
        proof {
            let a = views(quoted_tools@);
            let b = quoted_all(views(tools@).subrange(0, i + 1));
            assert(quoted_tools@ == prev.push(q));
            assert(quoted_tools@.len() == prev.len() + 1);
            assert(views(prev).len() == prev.len());
            assert(prev.len() == i);
            assert(a.len() == b.len());
            assert forall|j: int| 0 <= j < a.len() implies a[j] == b[j] by {
                if j < i {
                    assert(a[j] == quoted_all(views(tools@).subrange(0, i as int))[j]);
                } else {
                    assert(a[j] == qv);
                }
            }
            assert(a =~= b);
        }
        i = i + 1;
    }
    assert(views(tools@).subrange(0, tools@.len() as int) =~= views(tools@));
    let mut r = String::from_str("{\"id\":");
    let ids = crate::text::i64_to_string(id as i64);
    r.append(ids.as_str());
    r.append(",\"name\":");
    r.append(qname);
    r.append(",\"role\":");
    r.append(qrole);
    r.append(",\"tools\":[");
    let joined = join(&quoted_tools, ",");
    r.append(joined.as_str());
    r.append("]}");
    r
}

fn lit(s: &str) -> (r: String)
    ensures
        r@ == s@,
{
    String::from_str(s)
}

/// The tools offered for an element (see `region_actions`).
pub fn actions_for(region: &InteractiveRegion) -> (r: Vec<String>)
    ensures
        views(r@) == region_actions(*region),
{
    let role_t = trim(region.role.as_str());
    let aria = if role_t.as_str().unicode_len() > 0 {
        role_t
    } else {
        trim(region.tag_name.as_str())
    };
    let mut out: Vec<String> = Vec::new();
    if str_eq(aria.as_str(), "input, type=file") {
        out.push(lit("upload_file"));
    } else if str_eq(region.role.as_str(), "option") {
        out.push(lit("select_option"));
    } else {
        out.push(lit("click"));
        out.push(lit("hover"));
        let r = region.role.as_str();
        let t = region.tag_name.as_str();
        if str_eq(r, "textbox") || str_eq(r, "searchbox") || str_eq(r, "combobox") || str_eq(t, "input")
            || str_eq(t, "textarea") || str_eq(t, "search") {
            out.push(lit("input_text"));
        }
    }
    assert(views(out@) =~= region_actions(*region));
    out
}

/// The numeric id and JSON line describing one target.
pub fn target_entry(id: &str, region: &InteractiveRegion) -> (r: (i32, String))
    ensures
        (r.0 as int, r.1@) == target_entry_spec(id@, *region),
{
    let role_t = trim(region.role.as_str());
    let aria = if role_t.as_str().unicode_len() > 0 {
        role_t
    } else {
        trim(region.tag_name.as_str())
    };
    let name = match &region.aria_name {
        Some(n) => {
            let c = collapse_newlines(n.as_str());
            let t = trim(c.as_str());
            take_chars(t.as_str(), 100)
        },
        None => String::new(),
    };
    let qname = json_quote(name.as_str());
    let qrole = json_quote(aria.as_str());
    let tools = actions_for(region);
    let n = match parse_i32(id) {
        Some(v) => v,
        None => 0,
    };
    let j = target_json(n, qname.as_str(), qrole.as_str(), &tools);
    (n, j)
}

/// Whether `p` is where a key `k` goes: after every element whose key is at
/// most `k`, before the first larger one.
pub open spec fn is_insert_pos(s: Seq<(int, Seq<char>)>, k: int, p: int) -> bool {
    &&& 0 <= p <= s.len()
    &&& forall|j: int| 0 <= j < p ==> (#[trigger] s[j]).0 <= k
    &&& (p == s.len() || s[p].0 > k)
}

/// `x` inserted after the leading run of entries whose key is at most its own.
pub open spec fn insert_by_key(s: Seq<(int, Seq<char>)>, x: (int, Seq<char>)) -> Seq<(int, Seq<char>)> {
    let p = choose|p: int| is_insert_pos(s, x.0, p);
    s.take(p) + seq![x] + s.skip(p)
}

/// The entries ordered by key; entries with equal keys keep their order.
pub open spec fn sort_by_key(s: Seq<(int, Seq<char>)>) -> Seq<(int, Seq<char>)>
    decreases s.len(),
{
    if s.len() == 0 {
        s
    } else {
        insert_by_key(sort_by_key(s.drop_last()), s.last())
    }
}

proof fn lemma_insert_pos_unique(s: Seq<(int, Seq<char>)>, k: int, p: int, q: int)
    requires
        is_insert_pos(s, k, p),
        is_insert_pos(s, k, q),
    ensures
        p == q,
{
    if p < q {
        assert(s[p].0 <= k);
    } else if q < p {
        assert(s[q].0 <= k);
    }
}

/// The ids in order of first occurrence, without repeats.
pub open spec fn dedup(s: Seq<Seq<char>>) -> Seq<Seq<char>>
    decreases s.len(),
{
    if s.len() == 0 {
        s
    } else {
        let d = dedup(s.drop_last());
        if d.contains(s.last()) { d } else { d.push(s.last()) }
    }
}

/// The entries of the ids that name an element.
pub open spec fn target_entries(ids: Seq<Seq<char>>, rects: Map<Seq<char>, InteractiveRegion>) -> Seq<(int, Seq<char>)>
    decreases ids.len(),
{
    if ids.len() == 0 {
        Seq::empty()
    } else {
        let prev = target_entries(ids.drop_last(), rects);
        if rects.dom().contains(ids.last()) {
            prev.push(target_entry_spec(ids.last(), rects[ids.last()]))
        } else {
            prev
        }
    }
}

/// The JSON lines for the distinct ids that name an element, ordered by
/// numeric id; equal ids keep the order of first occurrence.
pub open spec fn target_list_spec(ids: Seq<Seq<char>>, rects: Map<Seq<char>, InteractiveRegion>) -> Seq<Seq<char>> {
    lines_of(sort_by_key(target_entries(dedup(ids), rects)))
}

/// View of keyed entries.
pub open spec fn keyed_view(v: Seq<(i32, String)>) -> Seq<(int, Seq<char>)> {
    v.map_values(|e: (i32, String)| (e.0 as int, e.1@))
}

pub fn vec_contains(v: &Vec<String>, x: &str) -> (r: bool)
    ensures
        r == views(v@).contains(x@),
{
    let mut i: usize = 0;
    while i < v.len()
        invariant
            i <= v@.len(),
            forall|j: int| 0 <= j < i ==> (#[trigger] v@[j])@ != x@,
        decreases v@.len() - i,
    {
        if str_eq(v[i].as_str(), x) {
            assert(views(v@)[i as int] == x@);
            return true;
        }
        i = i + 1;
    }
    assert forall|j: int| 0 <= j < views(v@).len() implies views(v@)[j] != x@ by {
        assert(views(v@)[j] == v@[j]@);
    }
    false
}

fn insert_sorted(out: &mut Vec<(i32, String)>, x: (i32, String))
    ensures
        keyed_view(final(out)@) == insert_by_key(keyed_view(old(out)@), (x.0 as int, x.1@)),
{
    let ghost s = keyed_view(out@);
    let mut p: usize = 0;
    while p < out.len() && out[p].0 <= x.0
        invariant
            s == keyed_view(out@),
            p <= out@.len(),
            forall|j: int| 0 <= j < p ==> (#[trigger] s[j]).0 <= x.0,
        decreases out@.len() - p,
    {
        p = p + 1;
    }
    proof {
        assert(is_insert_pos(s, x.0 as int, p as int));
        let c = choose|c: int| is_insert_pos(s, x.0 as int, c);
        lemma_insert_pos_unique(s, x.0 as int, p as int, c);
    }
    let ghost xv = (x.0 as int, x.1@);
    out.insert(p, x);
    assert(keyed_view(out@) =~= s.take(p as int) + seq![xv] + s.skip(p as int));
}

/// The JSON lines describing the targets with the given ids (see
/// `target_list_spec`).
pub fn format_target_list(ids: &Vec<String>, rects: &Assoc<InteractiveRegion>) -> (r: Vec<String>)
    ensures
        views(r@) == target_list_spec(views(ids@), rects@),
{
    let mut uids: Vec<String> = Vec::new();
    let mut i: usize = 0;
    while i < ids.len()
        invariant
            i <= ids@.len(),
            views(uids@) == dedup(views(ids@).subrange(0, i as int)),
        decreases ids@.len() - i,
    {
        assert(views(ids@).subrange(0, i + 1).drop_last() =~= views(ids@).subrange(0, i as int));
        if !vec_contains(&uids, ids[i].as_str()) {
            uids.push(ids[i].clone());
        }
        assert(views(uids@) =~= dedup(views(ids@).subrange(0, i + 1)));
        i = i + 1;
    }
    assert(views(ids@).subrange(0, ids@.len() as int) =~= views(ids@));
    let ghost u = views(uids@);
    let mut out: Vec<(i32, String)> = Vec::new();
    let mut k: usize = 0;
    while k < uids.len()
        invariant
            k <= uids@.len(),
            u == views(uids@),
            keyed_view(out@) == sort_by_key(target_entries(u.subrange(0, k as int), rects@)),
        decreases uids@.len() - k,
    {
        assert(u.subrange(0, k + 1).drop_last() =~= u.subrange(0, k as int));
        match rects.get(uids[k].as_str()) {
            Some(region) => {
                let e = target_entry(uids[k].as_str(), region);
                insert_sorted(&mut out, e);
                proof {
                    let t = target_entries(u.subrange(0, k + 1), rects@);
                    assert(t.drop_last() =~= target_entries(u.subrange(0, k as int), rects@));
                }
            },
            None => {},
        }
        k = k + 1;
    }
    assert(u.subrange(0, u.len() as int) =~= u);
    let mut res: Vec<String> = Vec::new();
    let mut m: usize = 0;
    while m < out.len()
        invariant
            m <= out@.len(),
            views(res@) == lines_of(keyed_view(out@).subrange(0, m as int)),
        decreases out@.len() - m,
    {
        let ghost prev = res@;
        let line = out[m].1.clone();
        let ghost lv = line@;
        assert(keyed_view(out@)[m as int].1 == lv);
        res.push(line);
        proof {
            let a = views(res@);
            let b = lines_of(keyed_view(out@).subrange(0, m + 1));
            assert(res@ == prev.push(line));
            assert(views(prev).len() == m);
            assert(a.len() == b.len());
            assert forall|j: int| 0 <= j < a.len() implies a[j] == b[j] by {
                if j < m {
                    assert(a[j] == views(prev)[j]);
                    assert(views(prev)[j] == lines_of(keyed_view(out@).subrange(0, m as int))[j]);
                } else {
                    assert(a[j] == lv);
                }
            }
            assert(a =~= b);
        }
        m = m + 1;
    }
    assert(keyed_view(out@).subrange(0, out@.len() as int) =~= keyed_view(out@));
    res
}

/// An open browser tab.
#[derive(Debug, Clone)]
pub struct TabInfo {
    pub index: usize,
    pub title: String,
    pub url: String,
    pub is_active: bool,
    pub is_controlled: bool,
}

/// The line describing one tab.
pub open spec fn tab_line(t: TabInfo) -> Seq<char> {
    "Tab "@ + decimal(t.index as nat) + ": "@ + t.title@ + " ("@ + t.url@ + ")"@
        + (if t.is_active { "  [CURRENTLY SHOWN]"@ } else { Seq::empty() })
        + (if t.is_controlled { "  [CONTROLLED]"@ } else { Seq::empty() })
}

/// The lines of all tabs.
pub open spec fn tab_lines(tabs: Seq<TabInfo>) -> Seq<Seq<char>> {
    tabs.map_values(|t: TabInfo| tab_line(t))
}

/// The line describing one tab.
pub fn tab_text(t: &TabInfo) -> (r: String)
    ensures
        r@ == tab_line(*t),
{
    let mut r = String::from_str("Tab ");
    let n = usize_to_string(t.index);
    r.append(n.as_str());
    r.append(": ");
    r.append(t.title.as_str());
    r.append(" (");
    r.append(t.url.as_str());
    r.append(")");
    let ghost base = r@;
    if t.is_active {
        r.append("  [CURRENTLY SHOWN]");
    }
    let ghost mid = r@;
    assert(mid == base + (if t.is_active { "  [CURRENTLY SHOWN]"@ } else { Seq::<char>::empty() }));
    if t.is_controlled {
        r.append("  [CONTROLLED]");
    }
    assert(r@ =~= tab_line(*t));
    r
}

/// The number of tabs and their lines separated by line breaks.
pub fn tabs_info(tabs: &Vec<TabInfo>) -> (r: (usize, String))
    ensures
        r.0 == tabs@.len(),
        r.1@ == join_spec(tab_lines(tabs@), "\n"@),
{
    let mut lines: Vec<String> = Vec::new();
    let mut i: usize = 0;
    while i < tabs.len()
        invariant
            i <= tabs@.len(),
            views(lines@) == tab_lines(tabs@.subrange(0, i as int)),
        decreases tabs@.len() - i,
    {
        let ghost prev = lines@;
        let line = tab_text(&tabs[i]);
        let ghost lv = line@;
        lines.push(line);
        proof {
            let a = views(lines@);
            let b = tab_lines(tabs@.subrange(0, i + 1));
            assert(lines@ == prev.push(line));
            assert(views(prev).len() == i);
            assert forall|j: int| 0 <= j < a.len() implies a[j] == b[j] by {
                if j < i {
                    assert(a[j] == views(prev)[j]);
                    assert(views(prev)[j] == tab_lines(tabs@.subrange(0, i as int))[j]);
                } else {
                    assert(a[j] == lv);
                }
            }
            assert(a =~= b);
        }
        i = i + 1;
    }
    assert(tabs@.subrange(0, tabs@.len() as int) =~= tabs@);
    (tabs.len(), join(&lines, "\n"))
}

/// The hint naming the focused element, empty when nothing has focus: its
/// role (`control` when the id names no element), its id and, when it has
/// one, its name.
pub open spec fn focused_hint_spec(focused: Seq<char>, rects: Map<Seq<char>, InteractiveRegion>) -> Seq<char> {
    if focused.len() == 0 {
        Seq::empty()
    } else {
        let name_part = match target_name_spec(focused, rects) {
            Some(n) => "(and name '"@ + n + "')"@,
            None => Seq::empty(),
        };
        let role = if rects.dom().contains(focused) { rects[focused].role@ } else { "control"@ };
        "\nThe "@ + role + " with ID "@ + focused + " "@ + name_part + "currently has the input focus.\n\n"@
    }
}

/// The hint naming the focused element (see `focused_hint_spec`).
pub fn focused_hint(focused: &str, rects: &Assoc<InteractiveRegion>) -> (r: String)
    ensures
        r@ == focused_hint_spec(focused@, rects@),
{
    if focused.unicode_len() == 0 {
        return String::new();
    }
    let name_part = match target_name(focused, rects) {
        Some(n) => {
            let mut p = String::from_str("(and name '");
            p.append(n.as_str());
            p.append("')");
            p
        },
        None => String::new(),
    };
    let mut r = String::from_str("\nThe ");
    match rects.get(focused) {
        Some(region) => r.append(region.role.as_str()),
        None => r.append("control"),
    }
    r.append(" with ID ");
    r.append(focused);
    r.append(" ");
    r.append(name_part.as_str());
    r.append("currently has the input focus.\n\n");
    r
}

/// What an off-screen target is called in the summary: its shown name, else
/// `<role> control`, else nothing (empty).
pub open spec fn summary_name(r: InteractiveRegion) -> Seq<char> {
    if display_name(r).len() > 0 {
        display_name(r)
    } else if aria_role(r).len() > 0 {
        aria_role(r) + " control"@
    } else {
        Seq::empty()
    }
}

/// The numeric id and summary name of each distinct target id that names
/// an element.
pub open spec fn summary_entries(ids: Seq<Seq<char>>, rects: Map<Seq<char>, InteractiveRegion>) -> Seq<(int, Seq<char>)>
    decreases ids.len(),
{
    if ids.len() == 0 {
        Seq::empty()
    } else {
        let prev = summary_entries(ids.drop_last(), rects);
        if rects.dom().contains(ids.last()) {
            prev.push(((target_entry_spec(ids.last(), rects[ids.last()])).0, summary_name(rects[ids.last()])))
        } else {
            prev
        }
    }
}

/// The summary names of the targets with the given ids, in the order their
/// JSON lines are listed.
pub open spec fn summary_list_spec(ids: Seq<Seq<char>>, rects: Map<Seq<char>, InteractiveRegion>) -> Seq<Seq<char>> {
    lines_of(sort_by_key(summary_entries(dedup(ids), rects)))
}

/// The non-empty names of a sequence, in order.
pub open spec fn non_empty(s: Seq<Seq<char>>) -> Seq<Seq<char>>
    decreases s.len(),
{
    if s.len() == 0 {
        s
    } else if s.last().len() > 0 {
        non_empty(s.drop_last()).push(s.last())
    } else {
        non_empty(s.drop_last())
    }
}

/// The text listing off-screen targets, empty when there are none: at most
/// 30 names, separated by commas.
pub open spec fn other_targets_spec(
    above: Seq<Seq<char>>,
    below: Seq<Seq<char>>,
    rects: Map<Seq<char>, InteractiveRegion>,
) -> Seq<char> {
    let all = summary_list_spec(above, rects) + summary_list_spec(below, rects);
    if all.len() == 0 {
        Seq::empty()
    } else {
        "Some additional valid interaction targets (not shown, you need to scroll to interact with them) include:\n"@
            + join_spec(take_names(non_empty(all), 30), ", "@) + "\n\n"@
    }
}

/// At most the first `k` names.
pub open spec fn take_names(s: Seq<Seq<char>>, k: nat) -> Seq<Seq<char>> {
    if s.len() <= k { s } else { s.take(k as int) }
}

/// The summary name of an element (see `summary_name`).
fn summary_of(region: &InteractiveRegion) -> (r: String)
    ensures
        r@ == summary_name(*region),
{
    let name = match &region.aria_name {
        Some(n) => {
            let c = collapse_newlines(n.as_str());
            let t = trim(c.as_str());
            take_chars(t.as_str(), 100)
        },
        None => String::new(),
    };
    if name.as_str().unicode_len() > 0 {
        return name;
    }
    let role_t = trim(region.role.as_str());
    let aria = if role_t.as_str().unicode_len() > 0 {
        role_t
    } else {
        trim(region.tag_name.as_str())
    };
    if aria.as_str().unicode_len() > 0 {
        concat(aria.as_str(), " control")
    } else {
        String::new()
    }
}

/// The summary names of the targets with the given ids (see `summary_list_spec`).
pub fn target_summaries(ids: &Vec<String>, rects: &Assoc<InteractiveRegion>) -> (r: Vec<String>)
    ensures
        views(r@) == summary_list_spec(views(ids@), rects@),
{
    let mut uids: Vec<String> = Vec::new();
    let mut i: usize = 0;
    while i < ids.len()
        invariant
            i <= ids@.len(),
            views(uids@) == dedup(views(ids@).subrange(0, i as int)),
        decreases ids@.len() - i,
    {
        assert(views(ids@).subrange(0, i + 1).drop_last() =~= views(ids@).subrange(0, i as int));
        if !vec_contains(&uids, ids[i].as_str()) {
            uids.push(ids[i].clone());
        }
        assert(views(uids@) =~= dedup(views(ids@).subrange(0, i + 1)));
        i = i + 1;
    }
    assert(views(ids@).subrange(0, ids@.len() as int) =~= views(ids@));
    let ghost u = views(uids@);
    let mut out: Vec<(i32, String)> = Vec::new();
    let mut k: usize = 0;
    while k < uids.len()
        invariant
            k <= uids@.len(),
            u == views(uids@),
            keyed_view(out@) == sort_by_key(summary_entries(u.subrange(0, k as int), rects@)),
        decreases uids@.len() - k,
    {
        assert(u.subrange(0, k + 1).drop_last() =~= u.subrange(0, k as int));
        match rects.get(uids[k].as_str()) {
            Some(region) => {
                let e = target_entry(uids[k].as_str(), region);
                let name = summary_of(region);
                insert_sorted(&mut out, (e.0, name));
                proof {
                    let t = summary_entries(u.subrange(0, k + 1), rects@);
                    assert(t.drop_last() =~= summary_entries(u.subrange(0, k as int), rects@));
                }
            },
            None => {},
        }
        k = k + 1;
    }
    assert(u.subrange(0, u.len() as int) =~= u);
    let mut res: Vec<String> = Vec::new();
    let mut m: usize = 0;
    while m < out.len()
        invariant
            m <= out@.len(),
            views(res@) == lines_of(keyed_view(out@).subrange(0, m as int)),
        decreases out@.len() - m,
    {
        let ghost prev = res@;
        let line = out[m].1.clone();
        let ghost lv = line@;
        assert(keyed_view(out@)[m as int].1 == lv);
        res.push(line);
        proof {
            let a = views(res@);
            let b = lines_of(keyed_view(out@).subrange(0, m + 1));
            assert(res@ == prev.push(line));
            assert(views(prev).len() == m);
            assert forall|j: int| 0 <= j < a.len() implies a[j] == b[j] by {
                if j < m {
                    assert(a[j] == views(prev)[j]);
                    assert(views(prev)[j] == lines_of(keyed_view(out@).subrange(0, m as int))[j]);
                } else {
                    assert(a[j] == lv);
                }
            }
            assert(a =~= b);
        }
        m = m + 1;
    }
    assert(keyed_view(out@).subrange(0, out@.len() as int) =~= keyed_view(out@));
    res
}

/// The text listing off-screen targets (see `other_targets_spec`).
pub fn other_targets_text(above: &Vec<String>, below: &Vec<String>, rects: &Assoc<InteractiveRegion>) -> (r: String)
    ensures
        r@ == other_targets_spec(views(above@), views(below@), rects@),
{
    let a = target_summaries(above, rects);
    let b = target_summaries(below, rects);
    let ghost all = views(a@) + views(b@);
    if a.len() == 0 && b.len() == 0 {
        return String::new();
    }
    let mut names: Vec<String> = Vec::new();
    let mut i: usize = 0;
    while i < a.len()
        invariant
            all == views(a@) + views(b@),
            i <= a@.len(),
            views(names@) == non_empty(all.subrange(0, i as int)),
        decreases a@.len() - i,
    {
        assert(a[i as int]@ == all[i as int]);
        assert(all.subrange(0, i + 1).drop_last() =~= all.subrange(0, i as int));
        assert(all.subrange(0, i + 1).last() == a[i as int]@);
        if a[i].as_str().unicode_len() > 0 {
            names.push(a[i].clone());
        }
        assert(views(names@) =~= non_empty(all.subrange(0, i + 1)));
        i = i + 1;
    }
    let mut j: usize = 0;
    while j < b.len()
        invariant
            all == views(a@) + views(b@),
            i == a@.len(),
            j <= b@.len(),
            views(names@) == non_empty(all.subrange(0, i + j)),
        decreases b@.len() - j,
    {
        assert(b[j as int]@ == all[i + j]);
        assert(all.subrange(0, i + j + 1).drop_last() =~= all.subrange(0, i + j));
        assert(all.subrange(0, i + j + 1).last() == b[j as int]@);
        if b[j].as_str().unicode_len() > 0 {
            names.push(b[j].clone());
        }
        assert(views(names@) =~= non_empty(all.subrange(0, i + j + 1)));
        j = j + 1;
    }
    assert(all.subrange(0, all.len() as int) =~= all);
    let mut shown: Vec<String> = Vec::new();
    let mut k: usize = 0;
    while k < names.len() && k < 30
        invariant
            k <= names@.len(),
            k <= 30,
            views(shown@) == views(names@).take(k as int),
        decreases names@.len() - k,
    {
        let ghost prev = shown@;
        assert(views(prev).len() == k);
        let item = names[k].clone();
        let ghost iv = item@;
        shown.push(item);
        proof {
            assert(shown@ == prev.push(item));
            assert(shown@[k as int]@ == iv);
            assert(views(shown@) =~= views(prev).push(iv));
            assert(views(names@).take(k + 1) =~= views(names@).take(k as int).push(iv));
        }
        k = k + 1;
    }
    assert(views(shown@) =~= take_names(views(names@), 30));
    let mut r = String::from_str(
        "Some additional valid interaction targets (not shown, you need to scroll to interact with them) include:\n",
    );
    let joined = join(&shown, ", ");
    r.append(joined.as_str());
    r.append("\n\n");
    r
}

/// The question prompt for a page summary: with a question, asks to answer
/// it; without, asks for a short summary.
pub open spec fn qa_prompt_spec(title: Seq<char>, question: Option<Seq<char>>) -> Seq<char> {
    let base = "We are visiting the webpage '"@ + title
        + "'. Its full-text content are pasted below, along with a screenshot of the page's current viewport."@;
    match question {
        Some(q) => base + " Please answer the following question completely: '"@ + q + "':\n\n"@,
        None => base + " Please summarize the webpage into one or two paragraphs:\n\n"@,
    }
}

/// The question prompt for a page summary (see `qa_prompt_spec`).
pub fn web_surfer_qa_prompt(title: &str, question: Option<&str>) -> (r: String)
    ensures
        r@ == qa_prompt_spec(title@, match question {
            Some(q) => Some(q@),
            None => None,
        }),
{
    let mut r = String::from_str("We are visiting the webpage '");
    r.append(title);
    r.append("'. Its full-text content are pasted below, along with a screenshot of the page's current viewport.");
    match question {
        Some(q) => {
            r.append(" Please answer the following question completely: '");
            r.append(q);
            r.append("':\n\n");
        },
        None => {
            r.append(" Please summarize the webpage into one or two paragraphs:\n\n");
        },
    }
    r
}

/// Whether the keys of the entries never decrease.
pub open spec fn keys_sorted(s: Seq<(int, Seq<char>)>) -> bool {
    forall|a: int, b: int| 0 <= a < b < s.len() ==> (#[trigger] s[a]).0 <= (#[trigger] s[b]).0
}

proof fn lemma_first_greater(s: Seq<(int, Seq<char>)>, k: int, j: int)
    requires
        0 <= j < s.len(),
        s[j].0 > k,
    ensures
        exists|p: int| is_insert_pos(s, k, p),
    decreases j,
{
    if exists|i: int| 0 <= i < j && (#[trigger] s[i]).0 > k {
        let i = choose|i: int| 0 <= i < j && (#[trigger] s[i]).0 > k;
        lemma_first_greater(s, k, i);
    } else {
        assert(is_insert_pos(s, k, j));
    }
}

proof fn lemma_insert_pos_exists(s: Seq<(int, Seq<char>)>, k: int)
    ensures
        exists|p: int| is_insert_pos(s, k, p),
{
    if exists|j: int| 0 <= j < s.len() && (#[trigger] s[j]).0 > k {
        let j = choose|j: int| 0 <= j < s.len() && (#[trigger] s[j]).0 > k;
        lemma_first_greater(s, k, j);
    } else {
        assert(is_insert_pos(s, k, s.len() as int));
    }
}

proof fn lemma_insert_keeps_sorted(t: Seq<(int, Seq<char>)>, x: (int, Seq<char>))
    requires
        keys_sorted(t),
    ensures
        keys_sorted(insert_by_key(t, x)),
        insert_by_key(t, x).len() == t.len() + 1,
{
    lemma_insert_pos_exists(t, x.0);
    let p = choose|p: int| is_insert_pos(t, x.0, p);
    let r = t.take(p) + seq![x] + t.skip(p);
    assert(insert_by_key(t, x) == r);
    assert forall|a: int, b: int| 0 <= a < b < r.len() implies (#[trigger] r[a]).0 <= (#[trigger] r[b]).0 by {
        if b < p {
            assert(r[a] == t[a] && r[b] == t[b]);
        } else if b == p {
            assert(r[a] == t[a]);
        } else if a < p {
            assert(r[a] == t[a] && r[b] == t[b - 1]);
        } else if a == p {
            assert(r[b] == t[b - 1]);
            assert(t[p].0 > x.0);
            if b - 1 > p {
                assert(t[p].0 <= t[b - 1].0);
            }
        } else {
            assert(r[a] == t[a - 1] && r[b] == t[b - 1]);
        }
    }
}

proof fn lemma_sort_by_key_sorted(s: Seq<(int, Seq<char>)>)
    ensures
        keys_sorted(sort_by_key(s)),
        sort_by_key(s).len() == s.len(),
    decreases s.len(),
{
    if s.len() > 0 {
        lemma_sort_by_key_sorted(s.drop_last());
        lemma_insert_keeps_sorted(sort_by_key(s.drop_last()), s.last());
    }
}

/// The targets are listed in order of their numeric ids.
pub proof fn lemma_target_list_sorted(ids: Seq<Seq<char>>, rects: Map<Seq<char>, InteractiveRegion>)
    ensures
        keys_sorted(sort_by_key(target_entries(dedup(ids), rects))),
        target_list_spec(ids, rects) == lines_of(sort_by_key(target_entries(dedup(ids), rects))),
{
    lemma_sort_by_key_sorted(target_entries(dedup(ids), rects));
}

} // verus!
