//! Ordering of video formats: more pixels first, then higher frame rate,
//! then pixel format; and the sorted, duplicate-free format list.

use vstd::prelude::*;
use crate::types::{seq_cmp, FormatDescriptor};

verus! {

/// A format as plain values.
pub open spec fn fview(f: FormatDescriptor) -> (u32, u32, u32, Seq<char>) {
    (f.width, f.height, f.fps_milli, f.pixel_format@)
}

/// `a` sorts strictly before `b`, on plain values.
pub open spec fn view_before(a: (u32, u32, u32, Seq<char>), b: (u32, u32, u32, Seq<char>)) -> bool {
    let pa = a.0 as int * a.1 as int;
    let pb = b.0 as int * b.1 as int;
    if pa != pb {
        pa > pb
    } else if a.2 != b.2 {
        a.2 > b.2
    } else {
        seq_cmp(a.3, b.3) < 0
    }
}

/// The formats of a list as plain values.
pub open spec fn views(s: Seq<FormatDescriptor>) -> Seq<(u32, u32, u32, Seq<char>)> {
    Seq::new(s.len(), |i: int| fview(s[i]))
}

/// No later format sorts before an earlier one.
pub open spec fn formats_sorted(s: Seq<FormatDescriptor>) -> bool {
    forall|i: int, j: int| 0 <= i < j < s.len() ==> !view_before(fview(s[j]), fview(s[i]))
}

/// The lexicographic comparison is antisymmetric.
pub proof fn lemma_seq_cmp_antisym(a: Seq<char>, b: Seq<char>)
    ensures
        seq_cmp(a, b) == -seq_cmp(b, a),
        seq_cmp(a, b) == 0 <==> a == b,
    decreases a.len(),
{
    if a.len() == 0 && b.len() == 0 {
        assert(a =~= b);
    }
    if a.len() > 0 && b.len() > 0 && a[0] != b[0] {
        assert(a != b);
    }
    if a.len() > 0 && b.len() > 0 && a[0] == b[0] {
        lemma_seq_cmp_antisym(a.drop_first(), b.drop_first());
        if a.drop_first() == b.drop_first() {
            assert(a =~= seq![a[0]] + a.drop_first());
            assert(b =~= seq![b[0]] + b.drop_first());
        }
        if a == b {
            assert(a.drop_first() == b.drop_first());
        }
    }
}

/// The lexicographic comparison is transitive.
pub proof fn lemma_seq_cmp_trans(a: Seq<char>, b: Seq<char>, c: Seq<char>)
    requires
        seq_cmp(a, b) < 0,
        seq_cmp(b, c) < 0,
    ensures
        seq_cmp(a, c) < 0,
    decreases a.len(),
{
    if a.len() > 0 && b.len() > 0 && c.len() > 0 && a[0] == b[0] && b[0] == c[0] {
        lemma_seq_cmp_trans(a.drop_first(), b.drop_first(), c.drop_first());
    }
}

/// Sorting order on formats is a strict order.
pub proof fn lemma_view_before_order(
    a: (u32, u32, u32, Seq<char>),
    b: (u32, u32, u32, Seq<char>),
    c: (u32, u32, u32, Seq<char>),
)
    ensures
        view_before(a, b) ==> !view_before(b, a),
        view_before(a, b) && view_before(b, c) ==> view_before(a, c),
{
    lemma_seq_cmp_antisym(a.3, b.3);
    if seq_cmp(a.3, b.3) < 0 && seq_cmp(b.3, c.3) < 0 {
        lemma_seq_cmp_trans(a.3, b.3, c.3);
    }
}

/// Sorts formats: more pixels first, then higher frame rate, then pixel
/// format; equal formats keep their relative order.
pub fn sort_formats(formats: Vec<FormatDescriptor>) -> (r: Vec<FormatDescriptor>)
    ensures
        formats_sorted(r@),
        r@.map_values(|f: FormatDescriptor| fview(f)).to_multiset() =~= formats@.map_values(
            |f: FormatDescriptor| fview(f),
        ).to_multiset(),
{
    let mut input = formats;
    let total = input.len();
    let ghost orig = input@;
    let ghost n = orig.len();
    let mut out: Vec<FormatDescriptor> = Vec::new();
    let mut used: usize = 0;
    proof {
        assert(orig.subrange(0, 0).map_values(|f: FormatDescriptor| fview(f)) =~= Seq::<(u32, u32, u32, Seq<char>)>::empty());
        assert(out@.map_values(|f: FormatDescriptor| fview(f)) =~= Seq::<(u32, u32, u32, Seq<char>)>::empty());
    }
    while input.len() > 0
        invariant
            n == orig.len(),
            n == total,
            used <= n,
            input@ == orig.subrange(used as int, n as int),
            formats_sorted(out@),
            out@.map_values(|f: FormatDescriptor| fview(f)).to_multiset() == orig.subrange(0, used as int).map_values(
                |f: FormatDescriptor| fview(f),
            ).to_multiset(),
        decreases input@.len(),
    {
        let x = input.remove(0);
        proof {
            assert(input@ =~= orig.subrange(used + 1, n as int));
        }
        let mut p: usize = 0;
        while p < out.len() && !x.sorts_before(&out[p])
            invariant
                p <= out@.len(),
                forall|i: int| 0 <= i < p ==> !view_before(fview(x), fview(out@[i])),
            decreases out@.len() - p,
        {
            p += 1;
        }
        let ghost before = out@;
        proof {
            assert forall|i: int, j: int| 0 <= i < j < before.len() + 1 implies !view_before(
                fview(before.insert(p as int, x)[j]),
                fview(before.insert(p as int, x)[i]),
            ) by {
                let s = before.insert(p as int, x);
                if i < p && j == p {
                    lemma_view_before_order(fview(x), fview(before[i]), fview(before[i]));
                } else if i == p && j > p {
                    let y = before[j - 1];
                    let z = before[p as int];
                    lemma_view_before_order(fview(y), fview(x), fview(z));
                    lemma_view_before_order(fview(x), fview(z), fview(z));
                    if j - 1 > p {
                        assert(!view_before(fview(before[j - 1]), fview(before[p as int])));
                    }
                } else if i < p && j > p {
                    assert(s[i] == before[i] && s[j] == before[j - 1]);
                } else if j < p {
                    assert(s[i] == before[i] && s[j] == before[j]);
                } else {
                    assert(s[i] == before[i - 1] && s[j] == before[j - 1]);
                }
            }
        }
        out.insert(p, x);
        proof {
            let f = |g: FormatDescriptor| fview(g);
            assert(out@.map_values(f) =~= before.map_values(f).insert(p as int, fview(x)));
            vstd::seq_lib::to_multiset_insert(before.map_values(f), p as int, fview(x));
            assert(orig.subrange(0, used + 1).map_values(f) =~= orig.subrange(0, used as int).map_values(f).push(fview(x)));
            vstd::seq_lib::to_multiset_build(orig.subrange(0, used as int).map_values(f), fview(x));
        }
        used += 1;
    }
    proof {
        assert(orig.subrange(0, n as int) =~= orig);
    }
    out
}

fn same_format(a: &FormatDescriptor, b: &FormatDescriptor) -> (r: bool)
    ensures
        r == (fview(*a) == fview(*b)),
{
    a.width == b.width && a.height == b.height && a.fps_milli == b.fps_milli && a.pixel_format == b.pixel_format
}

/// Drops each format equal to the one before it.
pub fn dedup_formats(sorted: Vec<FormatDescriptor>) -> (r: Vec<FormatDescriptor>)
    requires
        formats_sorted(sorted@),
    ensures
        formats_sorted(r@),
        forall|i: int| 0 <= i < r@.len() - 1 ==> fview(r@[i]) != fview(#[trigger] r@[i + 1]),
        r@.len() <= sorted@.len(),
        sorted@.len() > 0 ==> r@.len() > 0,
        forall|x: (u32, u32, u32, Seq<char>)| #[trigger] views(r@).contains(x) <==> views(sorted@).contains(x),
{
    let mut input = sorted;
    let total = input.len();
    let ghost orig = input@;
    let ghost n = orig.len();
    let mut out: Vec<FormatDescriptor> = Vec::new();
    let mut used: usize = 0;
    while input.len() > 0
        invariant
            n == orig.len(),
            n == total,
            used <= n,
            formats_sorted(orig),
            input@ == orig.subrange(used as int, n as int),
            formats_sorted(out@),
            out@.len() <= used,
            used > 0 ==> out@.len() > 0,
            forall|i: int| 0 <= i < out@.len() - 1 ==> fview(out@[i]) != fview(#[trigger] out@[i + 1]),
            forall|i: int, m: int|
                #![trigger out@[i], orig[m]]
                0 <= i < out@.len() && used <= m < n ==> !view_before(fview(orig[m]), fview(out@[i])),
            forall|x: (u32, u32, u32, Seq<char>)|
                #[trigger] views(out@).contains(x) <==> views(orig.subrange(0, used as int)).contains(x),
        decreases input@.len(),
    {
        let ghost out0 = out@;
        let ghost pre0 = orig.subrange(0, used as int);
        let x = input.remove(0);
        proof {
            assert(input@ =~= orig.subrange(used + 1, n as int));
            assert(x == orig[used as int]);
        }
        let keep = out.len() == 0 || !same_format(&out[out.len() - 1], &x);
        proof {
            assert(views(orig.subrange(0, used + 1)) =~= views(pre0).push(fview(x)));
            if !keep {
                assert(views(out0).contains(fview(x))) by {
                    assert(views(out0)[out0.len() - 1] == fview(x));
                }
            }
        }
        if keep {
            let ghost before = out@;
            out.push(x);
            proof {
                assert forall|i: int, m: int|
                    #![trigger out@[i], orig[m]]
                    0 <= i < out@.len() && used + 1 <= m < n implies !view_before(fview(orig[m]), fview(out@[i])) by {
                    if i == out@.len() - 1 {
                        assert(out@[i] == orig[used as int]);
                    } else {
                        assert(out@[i] == before[i]);
                    }
                }
                assert(views(out@) =~= views(before).push(fview(x)));
                assert forall|i: int, j: int| 0 <= i < j < out@.len() implies !view_before(fview(out@[j]), fview(out@[i])) by {
                    if j == out@.len() - 1 {
                        assert(out@[i] == before[i]);
                    } else {
                        assert(out@[i] == before[i] && out@[j] == before[j]);
                    }
                }
            }
        }
        proof {
            assert forall|y: (u32, u32, u32, Seq<char>)|
                #[trigger] views(out@).contains(y) <==> views(orig.subrange(0, used + 1)).contains(y) by {
                let p1 = views(orig.subrange(0, used + 1));
                if views(out@).contains(y) {
                    let k = choose|k: int| 0 <= k < views(out@).len() && views(out@)[k] == y;
                    if k < views(out0).len() && views(out0).len() == views(out@).len() {
                        assert(views(out0).contains(y));
                        let m = choose|m: int| 0 <= m < views(pre0).len() && views(pre0)[m] == y;
                        assert(p1[m] == y);
                    } else if keep && k == views(out@).len() - 1 {
                        assert(p1[used as int] == y);
                    } else {
                        assert(views(out0).contains(y));
                        let m = choose|m: int| 0 <= m < views(pre0).len() && views(pre0)[m] == y;
                        assert(p1[m] == y);
                    }
                }
                if p1.contains(y) {
                    let m = choose|m: int| 0 <= m < p1.len() && p1[m] == y;
                    if m < used {
                        assert(views(pre0)[m] == y);
                        assert(views(out0).contains(y));
                        let k = choose|k: int| 0 <= k < views(out0).len() && views(out0)[k] == y;
                        assert(views(out@)[k] == y);
                    } else if keep {
                        assert(views(out@)[views(out@).len() - 1] == y);
                    } else {
                        let k = choose|k: int| 0 <= k < views(out0).len() && views(out0)[k] == y;
                        assert(views(out@)[k] == y);
                    }
                }
            }
        }
        used += 1;
    }
    proof {
        assert(orig.subrange(0, n as int) =~= orig);
    }
    out
}

/// Sorts formats and drops duplicates.
pub fn sort_and_dedup_formats(formats: Vec<FormatDescriptor>) -> (r: Vec<FormatDescriptor>)
    ensures
        formats_sorted(r@),
        forall|i: int| 0 <= i < r@.len() - 1 ==> fview(r@[i]) != fview(#[trigger] r@[i + 1]),
        r@.len() <= formats@.len(),
        formats@.len() > 0 ==> r@.len() > 0,
        forall|x: (u32, u32, u32, Seq<char>)| #[trigger] views(r@).contains(x) <==> views(formats@).contains(x),
{
    let n = formats.len();
    let sorted = sort_formats(formats);
    proof {
        let f = |g: FormatDescriptor| fview(g);
        vstd::seq_lib::to_multiset_len(sorted@.map_values(f));
        vstd::seq_lib::to_multiset_len(formats@.map_values(f));
        assert(sorted@.map_values(f) =~= views(sorted@));
        assert(formats@.map_values(f) =~= views(formats@));
        assert forall|x: (u32, u32, u32, Seq<char>)| #[trigger] views(sorted@).contains(x) <==> views(formats@).contains(x) by {
            vstd::seq_lib::to_multiset_contains(views(sorted@), x);
            vstd::seq_lib::to_multiset_contains(views(formats@), x);
        }
    }
    dedup_formats(sorted)
}

} // verus!
