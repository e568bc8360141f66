//! What the command line shows of a plan and which inputs end a session.
//! Reading input and printing in colour are done by the caller.

use vstd::prelude::*;
use crate::text::{chars_of, push_char, string_from_chars, trim, trim_spec, views};

verus! {

/// Whether `c` separates the parts of a step's details.
pub open spec fn is_detail_sep(c: char) -> bool {
    c == '，' || c == '。' || c == ';' || c == '；'
}

/// The details cut at every separator (at least one part).
pub open spec fn split_details(s: Seq<char>) -> Seq<Seq<char>>
    decreases s.len(),
{
    if s.len() == 0 {
        seq![Seq::empty()]
    } else {
        let prev = split_details(s.drop_last());
        if is_detail_sep(s.last()) {
            prev.push(Seq::empty())
        } else {
            prev.update(prev.len() - 1, prev.last().push(s.last()))
        }
    }
}

proof fn lemma_split_nonempty(s: Seq<char>)
    ensures
        split_details(s).len() >= 1,
    decreases s.len(),
{
    if s.len() > 0 {
        lemma_split_nonempty(s.drop_last());
    }
}

/// The trimmed parts that are not empty, in order.
pub open spec fn kept_parts(parts: Seq<Seq<char>>) -> Seq<Seq<char>>
    decreases parts.len(),
{
    if parts.len() == 0 {
        Seq::empty()
    } else {
        let prev = kept_parts(parts.drop_last());
        if trim_spec(parts.last()).len() > 0 {
            prev.push(trim_spec(parts.last()))
        } else {
            prev
        }
    }
}

/// Whether `c` is part of a step number at the start of a line.
pub open spec fn is_number_mark(c: char) -> bool {
    ('0' <= c && c <= '9') || c == ')' || c == ' '
}

/// The text without its leading number marks.
pub open spec fn skip_marks(s: Seq<char>) -> Seq<char>
    decreases s.len(),
{
    if s.len() > 0 && is_number_mark(s[0]) {
        skip_marks(s.drop_first())
    } else {
        s
    }
}

/// A line without its leading number, trimmed.
pub open spec fn cleaned(s: Seq<char>) -> Seq<char> {
    trim_spec(skip_marks(s))
}

/// The lines shown for a step's details: each part, cleaned, when the
/// details have several parts; otherwise the whole details, cleaned.
pub open spec fn detail_lines_spec(details: Seq<char>) -> Seq<Seq<char>> {
    let parts = kept_parts(split_details(details));
    if parts.len() > 1 {
        parts.map_values(|p: Seq<char>| cleaned(p))
    } else {
        seq![cleaned(details)]
    }
}

/// A line without its leading number, trimmed (see `cleaned`).
pub fn clean_line(s: &str) -> (r: String)
    ensures
        r@ == cleaned(s@),
{
    let v = chars_of(s);
    let mut i: usize = 0;
    assert(v@.subrange(0, v@.len() as int) =~= v@);
    while i < v.len() && (('0' <= v[i] && v[i] <= '9') || v[i] == ')' || v[i] == ' ')
        invariant
            i <= v@.len(),
            skip_marks(s@) == skip_marks(v@.subrange(i as int, v@.len() as int)),
            v@ == s@,
        decreases v@.len() - i,
    {
        assert(v@.subrange(i + 1, v@.len() as int) =~= v@.subrange(i as int, v@.len() as int).drop_first());
        i = i + 1;
    }
    let n = v.len();
    proof {
        let sub = v@.subrange(i as int, n as int);
        if i < n {
            assert(sub[0] == v@[i as int]);
        }
        assert(skip_marks(sub) == sub);
    }
    let rest = string_from_chars(&v.as_slice()[i..n]);
    assert(rest@ =~= v@.subrange(i as int, v@.len() as int));
    trim(rest.as_str())
}

/// The lines shown for a step's details (see `detail_lines_spec`).
pub fn detail_lines(details: &str) -> (r: Vec<String>)
    ensures
        views(r@) == detail_lines_spec(details@),
{
    let v = chars_of(details);
    let mut done: Vec<String> = Vec::new();
    let mut cur = String::new();
    let mut i: usize = 0;
    while i < v.len()
        invariant
            i <= v@.len(),
            v@ == details@,
            views(done@).push(cur@) == split_details(v@.take(i as int)),
        decreases v@.len() - i,
    {
        let c = v[i];
        proof {
            assert(v@.take(i + 1).drop_last() =~= v@.take(i as int));
            lemma_split_nonempty(v@.take(i as int));
        }
        if c == '，' || c == '。' || c == ';' || c == '；' {
            let ghost prev = done@;
            let ghost cv = cur@;
            done.push(cur);
            cur = String::new();
            assert(views(done@) =~= views(prev).push(cv));
            assert(views(done@).push(cur@) =~= split_details(v@.take(i + 1)));
        } else {
            let ghost prev = views(done@).push(cur@);
            push_char(&mut cur, c);
            assert(views(done@).push(cur@) =~= prev.update(prev.len() - 1, prev.last().push(c)));
        }
        i = i + 1;
    }
    assert(v@.take(v@.len() as int) =~= v@);
    let ghost parts = split_details(details@);
    let ghost cv = cur@;
    let ghost pv = views(done@);
    done.push(cur);
    assert(views(done@) =~= pv.push(cv));
    let mut kept: Vec<String> = Vec::new();
    let mut j: usize = 0;
    while j < done.len()
        invariant
            j <= done@.len(),
            views(done@) == parts,
            views(kept@) == kept_parts(parts.take(j as int)),
        decreases done@.len() - j,
    {
        assert(parts.take(j + 1).drop_last() =~= parts.take(j as int));
        let t = trim(done[j].as_str());
        if t.as_str().unicode_len() > 0 {
            let ghost prev = kept@;
            let ghost tv = t@;
            kept.push(t);
            assert(views(kept@) =~= views(prev).push(tv));
        }
        j = j + 1;
    }
    assert(parts.take(parts.len() as int) =~= parts);
    let mut r: Vec<String> = Vec::new();
    if kept.len() > 1 {
        let ghost ks = views(kept@);
        let mut k: usize = 0;
        while k < kept.len()
            invariant
                k <= kept@.len(),
                ks == views(kept@),
                views(r@) == ks.take(k as int).map_values(|p: Seq<char>| cleaned(p)),
            decreases kept@.len() - k,
        {
            let line = clean_line(kept[k].as_str());
            let ghost prev = r@;
            let ghost lv = line@;
            r.push(line);
            assert(views(r@) =~= views(prev).push(lv));
            assert(ks.take(k + 1).map_values(|p: Seq<char>| cleaned(p)) =~= ks.take(k as int).map_values(
                |p: Seq<char>| cleaned(p),
            ).push(lv));
            k = k + 1;
        }
        assert(ks.take(ks.len() as int) =~= ks);
    } else {
        let line = clean_line(details);
        let ghost lv = line@;
        r.push(line);
        assert(views(r@) =~= seq![lv]);
    }
    r
}

/// Whether the input asks to end the session: `quit` or `exit`, in any
/// case, with surrounding white space.
pub open spec fn is_exit_spec(input: Seq<char>) -> bool {
    let t = trim_spec(input);
    t.len() == 4 && ((
        (t[0] == 'q' || t[0] == 'Q') && (t[1] == 'u' || t[1] == 'U') && (t[2] == 'i' || t[2] == 'I') && (t[3] == 't' || t[3] == 'T')
    ) || (
        (t[0] == 'e' || t[0] == 'E') && (t[1] == 'x' || t[1] == 'X') && (t[2] == 'i' || t[2] == 'I') && (t[3] == 't' || t[3] == 'T')
    ))
}

/// Whether the input asks to end the session (see `is_exit_spec`).
pub fn is_exit_command(input: &str) -> (r: bool)
    ensures
        r == is_exit_spec(input@),
{
    let t = trim(input);
    let v = chars_of(t.as_str());
    if v.len() != 4 {
        return false;
    }
    let quit = (v[0] == 'q' || v[0] == 'Q') && (v[1] == 'u' || v[1] == 'U') && (v[2] == 'i' || v[2] == 'I') && (v[3] == 't'
        || v[3] == 'T');
    let exit = (v[0] == 'e' || v[0] == 'E') && (v[1] == 'x' || v[1] == 'X') && (v[2] == 'i' || v[2] == 'I') && (v[3] == 't'
        || v[3] == 'T');
    quit || exit
}

} // verus!
