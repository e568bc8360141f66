//! Marking the interactive elements of a screenshot: the ids the model
//! sees for them and where a label is drawn. Reading the geometry and
//! drawing are done by the caller.

use vstd::prelude::*;
use crate::string_map::StringMap;
use crate::text::{decimal, digit_char, usize_to_string, views};

verus! {

/// Labels start below this many pixels from the top of the page.
pub const TOP_NO_LABEL_ZONE: i32 = 20;

/// The id shown for element `i` of a list numbered after `start`.
pub open spec fn shown_id(start: nat, i: int) -> Seq<char> {
    decimal((start + i + 1) as nat)
}

/// The ids of `n` elements numbered from `start + 1`.
pub open spec fn numbered(start: nat, n: nat) -> Seq<Seq<char>> {
    Seq::new(n, |i: int| shown_id(start, i))
}

/// The ids shown for the visible elements, those above and those below the
/// viewport, and the mapping from shown ids back to the elements' ids. With
/// sequential ids the elements are numbered from 1 in that order; otherwise
/// each element keeps its id.
pub struct MarkedIds {
    pub visible: Vec<String>,
    pub above: Vec<String>,
    pub below: Vec<String>,
    pub mapping: StringMap,
}

/// The decimal texts of distinct numbers differ.
proof fn lemma_decimal_injective(a: nat, b: nat)
    requires
        decimal(a) == decimal(b),
    ensures
        a == b,
    decreases a + b,
{
    crate::text::lemma_decimal_digits(a);
    crate::text::lemma_decimal_digits(b);
    if a >= 10 && b >= 10 {
        assert(decimal(a).drop_last() == decimal(b).drop_last());
        assert(decimal(a).last() == decimal(b).last());
        lemma_decimal_injective(a / 10, b / 10);
        crate::text::lemma_digit_char_injective(a % 10, b % 10);
    } else if a < 10 && b < 10 {
        assert(decimal(a)[0] == digit_char(a));
        assert(decimal(b)[0] == digit_char(b));
        crate::text::lemma_digit_char_injective(a, b);
    } else if a < 10 {
        assert(decimal(a).len() == 1);
        crate::text::lemma_decimal_len(b);
    } else {
        assert(decimal(b).len() == 1);
        crate::text::lemma_decimal_len(a);
    }
}

fn push_ids(
    src: &Vec<String>,
    out: &mut Vec<String>,
    mapping: &mut StringMap,
    next_id: &mut usize,
    sequential: bool,
)
    requires
        *old(next_id) + src@.len() < usize::MAX,
    ensures
        *final(next_id) == *old(next_id) + src@.len(),
        sequential ==> views(final(out)@) == views(old(out)@) + numbered(*old(next_id) as nat, src@.len()),
        !sequential ==> views(final(out)@) == views(old(out)@) + views(src@),
        sequential ==> forall|k: Seq<char>| #[trigger] final(mapping)@.dom().contains(k) <==> (old(mapping)@.dom().contains(k)
            || exists|i: int| 0 <= i < src@.len() && k == #[trigger] shown_id(*old(next_id) as nat, i)),
        sequential ==> forall|i: int| 0 <= i < src@.len() ==> final(mapping)@[shown_id(*old(next_id) as nat, i)]
            == #[trigger] src@[i]@,
        sequential ==> forall|k: Seq<char>| #[trigger] old(mapping)@.dom().contains(k) && !(exists|i: int|
            0 <= i < src@.len() && k == #[trigger] shown_id(*old(next_id) as nat, i)) ==> final(mapping)@[k] == old(mapping)@[k],
        !sequential ==> final(mapping)@ == old(mapping)@.union_prefer_right(
            Map::new(|k: Seq<char>| views(src@).contains(k), |k: Seq<char>| k),
        ),
{
    let mut i: usize = 0;
    let start = *next_id;
    let ghost out0 = views(out@);
    let ghost map0 = mapping@;
    while i < src.len()
        invariant
            i <= src@.len(),
            start + src@.len() < usize::MAX,
            *next_id == start + i,
            start == *old(next_id),
            out0 == views(old(out)@),
            map0 == old(mapping)@,
            sequential ==> views(out@) == out0 + numbered(start as nat, i as nat),
            !sequential ==> views(out@) == out0 + views(src@.subrange(0, i as int)),
            sequential ==> forall|k: Seq<char>| #[trigger] mapping@.dom().contains(k) <==> (map0.dom().contains(k) || exists|j: int|
                0 <= j < i && k == #[trigger] shown_id(start as nat, j)),
            sequential ==> forall|j: int| 0 <= j < i ==> mapping@[shown_id(start as nat, j)] == #[trigger] src@[j]@,
            sequential ==> forall|k: Seq<char>| #[trigger] map0.dom().contains(k) && !(exists|j: int| 0 <= j < i && k == #[trigger] shown_id(start as nat, j)) ==> mapping@[k] == map0[k],
            !sequential ==> mapping@ == map0.union_prefer_right(
                Map::new(|k: Seq<char>| views(src@.subrange(0, i as int)).contains(k), |k: Seq<char>| k),
            ),
        decreases src@.len() - i,
    {
        if sequential {
            let new_id = usize_to_string(*next_id + 1);
            let ghost nid = new_id@;
            let ghost prev_out = out@;
            let ghost prev_map = mapping@;
            mapping.insert(new_id.clone(), src[i].clone());
            out.push(new_id);
            proof {
                assert(nid == shown_id(start as nat, i as int));
                assert(views(out@) =~= views(prev_out).push(nid));
                assert(numbered(start as nat, (i + 1) as nat) =~= numbered(start as nat, i as nat).push(nid));
                assert forall|j: int| 0 <= j < i + 1 implies mapping@[shown_id(start as nat, j)] == #[trigger] src@[j]@ by {
                    if j < i {
                        if shown_id(start as nat, j) == nid {
                            lemma_decimal_injective((start + j + 1) as nat, (start + i + 1) as nat);
                        }
                    }
                }
                assert forall|k: Seq<char>| #[trigger] map0.dom().contains(k) && !(exists|j: int| 0 <= j < i + 1 && k
                    == shown_id(start as nat, j)) implies mapping@[k] == map0[k] by {
                    assert(k != shown_id(start as nat, i as int));
                }
                assert forall|k: Seq<char>| #[trigger] mapping@.dom().contains(k) <==> (map0.dom().contains(k) || exists|j: int|
                    0 <= j < i + 1 && k == #[trigger] shown_id(start as nat, j)) by {
                    if k == nid {
                        assert(exists|j: int| 0 <= j < i + 1 && k == #[trigger] shown_id(start as nat, j)) by {
                            assert(k == shown_id(start as nat, i as int));
                        }
                    }
                    if exists|j: int| 0 <= j < i + 1 && k == #[trigger] shown_id(start as nat, j) {
                        let j = choose|j: int| 0 <= j < i + 1 && k == #[trigger] shown_id(start as nat, j);
                        if j < i {
                            assert(prev_map.dom().contains(k));
                        }
                    }
                }
            }
        } else {
            let ghost prev_out = out@;
            let ghost prev_map = mapping@;
            let ghost x = src@[i as int]@;
            mapping.insert(src[i].clone(), src[i].clone());
            out.push(src[i].clone());
            proof {
                assert(views(out@) =~= views(prev_out).push(x));
                assert(views(src@.subrange(0, i + 1)) =~= views(src@.subrange(0, i as int)).push(x));
                assert forall|k: Seq<char>| views(src@.subrange(0, i + 1)).contains(k) <==> (views(
                    src@.subrange(0, i as int),
                ).contains(k) || k == x) by {
                    let a = views(src@.subrange(0, i as int));
                    if a.push(x).contains(k) {
                        let j = choose|j: int| 0 <= j < a.push(x).len() && a.push(x)[j] == k;
                        if j < a.len() {
                            assert(a[j] == k);
                        }
                    }
                    if a.contains(k) {
                        let j = choose|j: int| 0 <= j < a.len() && a[j] == k;
                        assert(a.push(x)[j] == k);
                    }
                    if k == x {
                        assert(a.push(x)[a.len() as int] == k);
                    }
                }
                let m_i = Map::new(|k: Seq<char>| views(src@.subrange(0, i as int)).contains(k), |k: Seq<char>| k);
                let m_n = Map::new(|k: Seq<char>| views(src@.subrange(0, i + 1)).contains(k), |k: Seq<char>| k);
                assert forall|k: Seq<char>| #[trigger] m_n.dom().contains(k) <==> m_i.insert(x, x).dom().contains(k) by {
                    assert(m_n.dom().contains(k) == views(src@.subrange(0, i + 1)).contains(k));
                    assert(m_i.dom().contains(k) == views(src@.subrange(0, i as int)).contains(k));
                }
                assert(m_n.dom() =~= m_i.insert(x, x).dom());
                assert(m_n =~= m_i.insert(x, x));
                assert(prev_map == map0.union_prefer_right(m_i));
                assert(mapping@ == prev_map.insert(x, x));
                assert(map0.union_prefer_right(m_i).insert(x, x) =~= map0.union_prefer_right(m_n));
            }
        }
        *next_id = *next_id + 1;
        i = i + 1;
    }
    assert(src@.subrange(0, src@.len() as int) =~= src@);
}

/// The ids shown for the elements (see `MarkedIds`).
pub fn assign_ids(visible: &Vec<String>, above: &Vec<String>, below: &Vec<String>, use_sequential_ids: bool) -> (r: MarkedIds)
    requires
        visible@.len() + above@.len() + below@.len() < usize::MAX,
    ensures
        use_sequential_ids ==> {
            let nv = visible@.len();
            let na = above@.len();
            let nb = below@.len();
            let all = views(visible@) + views(above@) + views(below@);
            &&& views(r.visible@) == numbered(0, nv)
            &&& views(r.above@) == numbered(nv, na)
            &&& views(r.below@) == numbered(nv + na, nb)
            &&& forall|k: Seq<char>| #[trigger] r.mapping@.dom().contains(k) <==> exists|i: int| 0 <= i < all.len() && k == #[trigger] shown_id(0, i)
            &&& forall|i: int| 0 <= i < all.len() ==> r.mapping@[shown_id(0, i)] == #[trigger] all[i]
        },
        !use_sequential_ids ==> {
            &&& views(r.visible@) == views(visible@)
            &&& views(r.above@) == views(above@)
            &&& views(r.below@) == views(below@)
            &&& forall|k: Seq<char>| #[trigger] r.mapping@.dom().contains(k) <==> (views(visible@).contains(k) || views(above@).contains(k)
                || views(below@).contains(k))
            &&& forall|k: Seq<char>| #[trigger] r.mapping@.dom().contains(k) ==> r.mapping@[k] == k
        },
{
    let mut next_id: usize = 0;
    let mut mapping = StringMap::new();
    let mut nv: Vec<String> = Vec::new();
    let mut na: Vec<String> = Vec::new();
    let mut nb: Vec<String> = Vec::new();
    push_ids(visible, &mut nv, &mut mapping, &mut next_id, use_sequential_ids);
    let ghost m1 = mapping@;
    push_ids(above, &mut na, &mut mapping, &mut next_id, use_sequential_ids);
    let ghost m2 = mapping@;
    push_ids(below, &mut nb, &mut mapping, &mut next_id, use_sequential_ids);
    proof {
        let lv = visible@.len();
        let la = above@.len();
        let all = views(visible@) + views(above@) + views(below@);
        assert(views(nv@) =~= Seq::<Seq<char>>::empty() + views(nv@));
        if use_sequential_ids {
            assert(views(nv@) =~= numbered(0, lv));
            assert(views(na@) =~= numbered(lv, la));
            assert(views(nb@) =~= numbered(lv + la, below@.len()));
            assert forall|i: int| 0 <= i < all.len() implies mapping@[shown_id(0, i)] == #[trigger] all[i] by {
                let k = shown_id(0, i);
                if i < lv {
                    assert(all[i] == visible@[i]@);
                    assert(m1.dom().contains(k));
                    assert(m1[k] == visible@[i]@);
                    assert forall|j: int| 0 <= j < la implies k != #[trigger] shown_id(lv as nat, j) by {
                        if k == shown_id(lv as nat, j) {
                            lemma_decimal_injective((i + 1) as nat, (lv + j + 1) as nat);
                        }
                    }
                    assert(m2.dom().contains(k) && m2[k] == m1[k]);
                    assert forall|j: int| 0 <= j < below@.len() implies k != #[trigger] shown_id((lv + la) as nat, j) by {
                        if k == shown_id((lv + la) as nat, j) {
                            lemma_decimal_injective((i + 1) as nat, (lv + la + j + 1) as nat);
                        }
                    }
                    assert(mapping@[k] == m2[k]);
                } else if i < lv + la {
                    let j = i - lv;
                    assert(all[i] == above@[j]@);
                    assert(k == shown_id(lv as nat, j));
                    assert(m2.dom().contains(k));
                    assert(m2[k] == above@[j]@);
                    assert forall|l: int| 0 <= l < below@.len() implies k != #[trigger] shown_id((lv + la) as nat, l) by {
                        if k == shown_id((lv + la) as nat, l) {
                            lemma_decimal_injective((i + 1) as nat, (lv + la + l + 1) as nat);
                        }
                    }
                    assert(mapping@[k] == m2[k]);
                } else {
                    let j = i - lv - la;
                    assert(all[i] == below@[j]@);
                    assert(k == shown_id((lv + la) as nat, j));
                    assert(mapping@[k] == below@[j]@);
                }
            }
            assert forall|k: Seq<char>| #[trigger] mapping@.dom().contains(k) <==> exists|i: int| 0 <= i < all.len() && k == #[trigger] shown_id(0, i) by {
                if exists|i: int| 0 <= i < all.len() && k == #[trigger] shown_id(0, i) {
                    let i = choose|i: int| 0 <= i < all.len() && k == #[trigger] shown_id(0, i);
                    if i < lv {
                        assert(m1.dom().contains(k));
                    } else if i < lv + la {
                        assert(k == shown_id(lv as nat, i - lv));
                        assert(m2.dom().contains(k));
                    } else {
                        assert(k == shown_id((lv + la) as nat, i - lv - la));
                    }
                }
                if mapping@.dom().contains(k) {
                    if m2.dom().contains(k) {
                        if m1.dom().contains(k) {
                            let i = choose|i: int| 0 <= i < lv && k == #[trigger] shown_id(0, i);
                            assert(k == shown_id(0, i));
                        } else {
                            let j = choose|j: int| 0 <= j < la && k == #[trigger] shown_id(lv as nat, j);
                            assert(k == shown_id(0, lv + j));
                        }
                    } else {
                        let j = choose|j: int| 0 <= j < below@.len() && k == #[trigger] shown_id((lv + la) as nat, j);
                        assert(k == shown_id(0, lv + la + j));
                    }
                }
            }
        } else {
            assert(views(nv@) =~= views(visible@));
            assert(views(na@) =~= views(above@));
            assert(views(nb@) =~= views(below@));
        }
    }
    MarkedIds { visible: nv, above: na, below: nb, mapping }
}

/// Where a label and its background go.
#[derive(Debug, Clone, Copy, PartialEq, Eq, Structural)]
pub struct LabelBox {
    pub text_x: i32,
    pub text_y: i32,
    pub bbox_left: i32,
    pub bbox_top: i32,
    pub bbox_width: i32,
    pub bbox_height: i32,
}

/// Places the label of an element whose box has the given (rounded) top,
/// right and bottom, for a text of the given size: right-aligned 3 pixels
/// inside the right edge, above the box, or below its bottom when the box
/// starts within the top zone; the background adds 3 pixels on each side.
pub fn label_box(top: i32, right: i32, bottom: i32, text_width: i32, text_height: i32) -> (b: LabelBox)
    requires
        -1_000_000_000 <= top <= 1_000_000_000,
        -1_000_000_000 <= right <= 1_000_000_000,
        -1_000_000_000 <= bottom <= 1_000_000_000,
        0 <= text_width <= 1_000_000,
        0 <= text_height <= 1_000_000,
    ensures
        b.text_x == right - text_width - 3,
        b.text_y == (if top <= TOP_NO_LABEL_ZONE { bottom + 3 } else { top - text_height - 3 }),
        b.bbox_left == b.text_x - 3,
        b.bbox_top == b.text_y - 3,
        b.bbox_width == text_width + 6,
        b.bbox_height == text_height + 6,
{
    let label_x = right;
    let mut label_y = top;
    let mut anchor_rb = true;
    if label_y <= TOP_NO_LABEL_ZONE {
        label_y = bottom;
        anchor_rb = false;
    }
    let text_x = label_x - text_width - 3;
    let text_y = if anchor_rb { label_y - text_height - 3 } else { label_y + 3 };
    LabelBox {
        text_x,
        text_y,
        bbox_left: text_x - 3,
        bbox_top: text_y - 3,
        bbox_width: text_width + 6,
        bbox_height: text_height + 6,
    }
}


/// Distinct elements are shown with distinct ids.
pub proof fn lemma_shown_ids_distinct(start: nat, i: int, j: int)
    requires
        0 <= i,
        0 <= j,
        i != j,
    ensures
        shown_id(start, i) != shown_id(start, j),
{
    if shown_id(start, i) == shown_id(start, j) {
        lemma_decimal_injective((start + i + 1) as nat, (start + j + 1) as nat);
    }
}
} // verus!
