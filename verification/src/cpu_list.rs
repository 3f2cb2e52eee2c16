//! Linux-style CPU lists ("0-3,8"): rendering a set of CPU ids compactly and
//! reading such a list back.
use vstd::prelude::*;

use crate::text::{
    all_digits, chars_of, find_char, lemma_find_char, lemma_find_char_none, lemma_find_char_some, dec, dec_int, digits_value, is_digit, join, join_strings, lemma_dec,
    lemma_dec_no_sep, parse_unsigned, parse_unsigned_range, push_char, push_i64, split, views,
};

verus! {

// ---------------------------------------------------------------------------
// Sorted, duplicate-free CPU sets
// ---------------------------------------------------------------------------

/// Inserts `x` into an ascending sequence, keeping it duplicate-free.
pub open spec fn insert_sorted(r: Seq<i32>, x: i32) -> Seq<i32>
    decreases r.len(),
{
    if r.len() == 0 {
        seq![x]
    } else if x < r[0] {
        seq![x] + r
    } else if x == r[0] {
        r
    } else {
        seq![r[0]] + insert_sorted(r.drop_first(), x)
    }
}

/// The distinct values of `s` in ascending order.
pub open spec fn sorted_distinct(s: Seq<i32>) -> Seq<i32>
    decreases s.len(),
{
    if s.len() == 0 {
        Seq::empty()
    } else {
        insert_sorted(sorted_distinct(s.drop_last()), s.last())
    }
}

pub open spec fn strictly_increasing(s: Seq<i32>) -> bool {
    forall|i: int, j: int| 0 <= i < j < s.len() ==> s[i] < s[j]
}

proof fn lemma_insert_sorted(r: Seq<i32>, x: i32)
    requires
        strictly_increasing(r),
    ensures
        strictly_increasing(insert_sorted(r, x)),
        insert_sorted(r, x).to_set() == r.to_set().insert(x),
        insert_sorted(r, x).len() >= 1,
        insert_sorted(r, x)[0] == (if r.len() == 0 || x < r[0] { x } else { r[0] }),
    decreases r.len(),
{
    if r.len() == 0 {
        assert(seq![x].to_set() =~= Set::<i32>::empty().insert(x)) by {
            assert(seq![x][0] == x);
            assert(seq![x].contains(x));
        }
        assert(r.to_set() =~= Set::<i32>::empty());
    } else if x < r[0] {
        let t = seq![x] + r;
        assert forall|e: i32| t.to_set().contains(e) == r.to_set().insert(x).contains(e) by {
            if t.contains(e) {
                let k = choose|k: int| 0 <= k < t.len() && t[k] == e;
                if k > 0 {
                    assert(r[k - 1] == e);
                }
            }
            if r.contains(e) {
                let k = choose|k: int| 0 <= k < r.len() && r[k] == e;
                assert(t[k + 1] == e);
            }
            if e == x {
                assert(t[0] == x);
            }
        }
        assert(t.to_set() =~= r.to_set().insert(x));
    } else if x == r[0] {
        assert(r.to_set().contains(x)) by {
            assert(r[0] == x);
        }
        assert(r.to_set() =~= r.to_set().insert(x));
    } else {
        let tail = r.drop_first();
        assert(strictly_increasing(tail)) by {
            assert forall|i: int, j: int| 0 <= i < j < tail.len() implies tail[i] < tail[j] by {
                assert(tail[i] == r[i + 1] && tail[j] == r[j + 1]);
            }
        }
        lemma_insert_sorted(tail, x);
        let ins = insert_sorted(tail, x);
        let t = seq![r[0]] + ins;
        assert(insert_sorted(r, x) == t);
        assert forall|i: int, j: int| 0 <= i < j < t.len() implies t[i] < t[j] by {
            if i == 0 {
                assert(t[j] == ins[j - 1]);
                assert(ins.to_set().contains(ins[j - 1]));
                assert(r.to_set().insert(x).contains(ins[j - 1]));
                if ins[j - 1] != x {
                    let k = choose|k: int| 0 <= k < r.len() && r[k] == ins[j - 1];
                    if k == 0 {
                        // ins lists tail and x, both above r[0]
                        assert(tail.to_set().insert(x).contains(r[0]));
                        if tail.contains(r[0]) {
                            let m = choose|m: int| 0 <= m < tail.len() && tail[m] == r[0];
                            assert(r[m + 1] == r[0]);
                        }
                    }
                }
            } else {
                assert(t[i] == ins[i - 1] && t[j] == ins[j - 1]);
            }
        }
        assert forall|e: i32| t.to_set().contains(e) == r.to_set().insert(x).contains(e) by {
            if t.contains(e) {
                let k = choose|k: int| 0 <= k < t.len() && t[k] == e;
                if k > 0 {
                    assert(ins[k - 1] == e);
                    assert(ins.to_set().contains(e));
                    assert(tail.to_set().insert(x).contains(e));
                    if e != x {
                        let m = choose|m: int| 0 <= m < tail.len() && tail[m] == e;
                        assert(r[m + 1] == e);
                    }
                } else {
                    assert(r[0] == e);
                }
            }
            if r.contains(e) {
                let k = choose|k: int| 0 <= k < r.len() && r[k] == e;
                if k == 0 {
                    assert(t[0] == e);
                } else {
                    assert(tail[k - 1] == e);
                    assert(tail.to_set().insert(x).contains(e));
                    assert(ins.contains(e));
                    let m = choose|m: int| 0 <= m < ins.len() && ins[m] == e;
                    assert(t[m + 1] == e);
                }
            }
            if e == x {
                assert(tail.to_set().insert(x).contains(x));
                assert(ins.contains(x));
                let m = choose|m: int| 0 <= m < ins.len() && ins[m] == x;
                assert(t[m + 1] == x);
            }
        }
        assert(t.to_set() =~= r.to_set().insert(x));
    }
}

/// `sorted_distinct` lists each value of its argument once, in ascending order.
pub proof fn lemma_sorted_distinct(s: Seq<i32>)
    ensures
        strictly_increasing(sorted_distinct(s)),
        sorted_distinct(s).to_set() == s.to_set(),
    decreases s.len(),
{
    if s.len() == 0 {
        assert(s.to_set() =~= Set::<i32>::empty());
        assert(sorted_distinct(s).to_set() =~= Set::<i32>::empty());
    } else {
        lemma_sorted_distinct(s.drop_last());
        lemma_insert_sorted(sorted_distinct(s.drop_last()), s.last());
        assert(s == s.drop_last().push(s.last()));
        assert(s.to_set() =~= s.drop_last().to_set().insert(s.last())) by {
            s.drop_last().lemma_push_to_set_commute(s.last());
        }
    }
}

proof fn lemma_insert_sorted_at_end(r: Seq<i32>, x: i32)
    requires
        forall|i: int| 0 <= i < r.len() ==> r[i] < x,
    ensures
        insert_sorted(r, x) == r.push(x),
    decreases r.len(),
{
    if r.len() > 0 {
        lemma_insert_sorted_at_end(r.drop_first(), x);
        assert(seq![r[0]] + r.drop_first().push(x) =~= r.push(x));
    } else {
        assert(seq![x] =~= r.push(x));
    }
}

/// An ascending duplicate-free sequence is its own sorted, distinct listing.
pub proof fn lemma_sorted_distinct_fixed(s: Seq<i32>)
    requires
        strictly_increasing(s),
    ensures
        sorted_distinct(s) == s,
    decreases s.len(),
{
    if s.len() > 0 {
        let p = s.drop_last();
        assert(strictly_increasing(p));
        lemma_sorted_distinct_fixed(p);
        lemma_insert_sorted_at_end(p, s.last());
        assert(p.push(s.last()) =~= s);
    }
}

/// Position at which `x` belongs in the ascending vector `r`.
fn insertion_point(r: &Vec<i32>, x: i32) -> (j: usize)
    requires
        strictly_increasing(r@),
    ensures
        j <= r.len(),
        forall|k: int| 0 <= k < j ==> r@[k] < x,
        j < r.len() ==> x <= r@[j as int],
{
    let mut j: usize = 0;
    while j < r.len() && r[j] < x
        invariant
            j <= r.len(),
            forall|k: int| 0 <= k < j ==> r@[k] < x,
        decreases r.len() - j,
    {
        j = j + 1;
    }
    j
}

proof fn lemma_insert_sorted_split(r: Seq<i32>, x: i32, j: int)
    requires
        strictly_increasing(r),
        0 <= j <= r.len(),
        forall|k: int| 0 <= k < j ==> r[k] < x,
        j < r.len() ==> x <= r[j],
    ensures
        insert_sorted(r, x) == (if j < r.len() && r[j] == x { r } else { r.take(j) + seq![x] + r.skip(j) }),
    decreases r.len(),
{
    if r.len() == 0 {
        assert(r.take(j) + seq![x] + r.skip(j) =~= seq![x]);
    } else if j == 0 {
        if x < r[0] {
            assert(r.take(0) + seq![x] + r.skip(0) =~= seq![x] + r);
        }
    } else {
        let tail = r.drop_first();
        assert(strictly_increasing(tail)) by {
            assert forall|a: int, b: int| 0 <= a < b < tail.len() implies tail[a] < tail[b] by {
                assert(tail[a] == r[a + 1] && tail[b] == r[b + 1]);
            }
        }
        assert forall|k: int| 0 <= k < j - 1 implies tail[k] < x by {
            assert(tail[k] == r[k + 1]);
        }
        lemma_insert_sorted_split(tail, x, j - 1);
        if j < r.len() && r[j] == x {
            assert(tail[j - 1] == x);
            assert(seq![r[0]] + tail =~= r);
        } else {
            if j - 1 < tail.len() {
                assert(tail[j - 1] == r[j]);
            }
            assert(seq![r[0]] + (tail.take(j - 1) + seq![x] + tail.skip(j - 1)) =~= r.take(j) + seq![x]
                + r.skip(j));
        }
    }
}

/// Inserts `x` into the ascending vector `r` unless it is already there.
fn insert_distinct(r: &mut Vec<i32>, x: i32)
    requires
        strictly_increasing(old(r)@),
    ensures
        final(r)@ == insert_sorted(old(r)@, x),
        strictly_increasing(final(r)@),
{
    proof {
        lemma_insert_sorted(r@, x);
    }
    let j = insertion_point(r, x);
    proof {
        lemma_insert_sorted_split(r@, x, j as int);
    }
    if j < r.len() && r[j] == x {
        return;
    }
    r.insert(j, x);
    assert(r@ =~= old(r)@.take(j as int) + seq![x] + old(r)@.skip(j as int));
}

/// The distinct values of `cpus` in ascending order (what sorting and then
/// removing consecutive duplicates gives).
pub fn sort_dedup(cpus: &[i32]) -> (r: Vec<i32>)
    ensures
        r@ == sorted_distinct(cpus@),
        strictly_increasing(r@),
{
    let mut r: Vec<i32> = Vec::new();
    let n = cpus.len();
    for i in 0..n
        invariant
            n == cpus@.len(),
            r@ == sorted_distinct(cpus@.take(i as int)),
            strictly_increasing(r@),
    {
        assert(cpus@.take(i + 1).drop_last() =~= cpus@.take(i as int));
        insert_distinct(&mut r, cpus[i]);
    }
    assert(cpus@.take(n as int) =~= cpus@);
    r
}

// ---------------------------------------------------------------------------
// Rendering
// ---------------------------------------------------------------------------

/// Maximal runs of consecutive values, as (first, last) pairs.
pub open spec fn runs(s: Seq<i32>) -> Seq<(int, int)>
    decreases s.len(),
{
    if s.len() == 0 {
        Seq::empty()
    } else {
        let r = runs(s.drop_last());
        let x = s.last() as int;
        if r.len() > 0 && r.last().1 + 1 == x {
            r.drop_last().push((r.last().0, x))
        } else {
            r.push((x, x))
        }
    }
}

/// `a` for a single CPU, `a-b` for a run.
pub open spec fn range_text(r: (int, int)) -> Seq<char> {
    if r.0 == r.1 {
        dec_int(r.0)
    } else {
        dec_int(r.0) + seq!['-'] + dec_int(r.1)
    }
}

/// The compact rendering of a CPU set: its runs in ascending order, joined by commas.
pub open spec fn cpu_list_text(cpus: Seq<i32>) -> Seq<char> {
    join(runs(sorted_distinct(cpus)).map_values(|r: (int, int)| range_text(r)), seq![','])
}

fn range_to_string(start: i32, end: i32) -> (s: String)
    ensures
        s@ == range_text((start as int, end as int)),
{
    let mut s = String::new();
    push_i64(&mut s, start as i64);
    if start != end {
        push_char(&mut s, '-');
        push_i64(&mut s, end as i64);
    }
    assert(s@ =~= range_text((start as int, end as int)));
    s
}

/// Convert a list of CPU ids into a compact cpu_list string (e.g. "0-3,8").
pub fn expand_cpu_list_to_string(cpus: &[i32]) -> (s: String)
    ensures
        s@ == cpu_list_text(cpus@),
{
    let sorted = sort_dedup(cpus);
    if sorted.len() == 0 {
        let s = String::new();
        assert(runs(sorted@) =~= Seq::<(int, int)>::empty());
        assert(s@ =~= cpu_list_text(cpus@));
        return s;
    }
    let mut ranges: Vec<String> = Vec::new();
    let mut start = sorted[0];
    let mut end = sorted[0];
    let ghost mut done: Seq<(int, int)> = Seq::empty();
    assert(sorted@.take(1).drop_last() =~= Seq::<i32>::empty());
    assert(runs(sorted@.take(1).drop_last()) =~= Seq::<(int, int)>::empty());
    assert(runs(sorted@.take(1)) =~= seq![(sorted@[0] as int, sorted@[0] as int)]);
    let n = sorted.len();
    for i in 1..n
        invariant
            n == sorted@.len(),
            1 <= n,
            strictly_increasing(sorted@),
            runs(sorted@.take(i as int)) == done.push((start as int, end as int)),
            views(ranges@) == done.map_values(|r: (int, int)| range_text(r)),
            start <= end,
            end == sorted@[i - 1],
    {
        let cpu = sorted[i];
        assert(sorted@.take(i + 1).drop_last() =~= sorted@.take(i as int));
        assert(sorted@.take(i + 1).last() == cpu);
        assert(end < cpu);
        if cpu == end + 1 {
            end = cpu;
        } else {
            let t = range_to_string(start, end);
            let ghost before = ranges@;
            ranges.push(t);
            proof {
                done = done.push((start as int, end as int));
                assert(ranges@ == before.push(t));
                assert(views(ranges@) =~= views(before).push(t@));
                assert(views(ranges@) =~= done.map_values(|r: (int, int)| range_text(r)));
            }
            start = cpu;
            end = cpu;
        }
    }
    let t = range_to_string(start, end);
    let ghost before = ranges@;
    ranges.push(t);
    assert(ranges@ == before.push(t));
    assert(views(ranges@) =~= views(before).push(t@));
    let ghost all = done.push((start as int, end as int));
    assert(sorted@.take(n as int) =~= sorted@);
    assert(views(ranges@) =~= all.map_values(|r: (int, int)| range_text(r)));
    proof {
        reveal_strlit(",");
    }
    assert(","@ =~= seq![',']);
    join_strings(&ranges, ",")
}

// ---------------------------------------------------------------------------
// Reading a CPU list back
// ---------------------------------------------------------------------------

/// The consecutive CPU ids from `r.0` through `r.1`.
pub open spec fn range_seq(r: (int, int)) -> Seq<i32> {
    Seq::new((r.1 - r.0 + 1) as nat, |i: int| (r.0 + i) as i32)
}

pub open spec fn max_cpu() -> nat {
    2147483647
}

/// The CPU ids one comma-separated entry names: `a` or `a-b` with `a <= b`,
/// each a non-negative decimal that fits an `i32`; anything else names none.
pub open spec fn part_values(p: Seq<char>) -> Seq<i32> {
    match find_char(p, '-') {
        Some(k) => match (
            parse_unsigned(p.take(k as int), max_cpu()),
            parse_unsigned(p.skip(k + 1 as int), max_cpu()),
        ) {
            (Some(a), Some(b)) => if a <= b {
                range_seq((a as int, b as int))
            } else {
                Seq::empty()
            },
            _ => Seq::empty(),
        },
        None => match parse_unsigned(p, max_cpu()) {
            Some(v) => seq![v as i32],
            None => Seq::empty(),
        },
    }
}

/// The ids named by each entry, in order.
pub open spec fn concat_values(parts: Seq<Seq<char>>) -> Seq<i32>
    decreases parts.len(),
{
    if parts.len() == 0 {
        Seq::empty()
    } else {
        concat_values(parts.drop_last()) + part_values(parts.last())
    }
}

/// The ids a CPU list names, in the order written.
pub open spec fn cpu_list_values(s: Seq<char>) -> Seq<i32> {
    concat_values(split(s, ','))
}

/// Index of the first `c` in `v[from..to]`, or `to`.
fn find_in_range(v: &Vec<char>, from: usize, to: usize, c: char) -> (k: usize)
    requires
        from <= to <= v.len(),
    ensures
        from <= k <= to,
        k < to ==> v@[k as int] == c,
        forall|j: int| from <= j < k ==> v@[j] != c,
{
    let mut k = from;
    while k < to && v[k] != c
        invariant
            from <= k <= to <= v.len(),
            forall|j: int| from <= j < k ==> v@[j] != c,
        decreases to - k,
    {
        k = k + 1;
    }
    k
}

/// Appends the ids named by the entry `v[from..to]`.
fn push_part_values(out: &mut Vec<i32>, v: &Vec<char>, from: usize, to: usize)
    requires
        from <= to <= v.len(),
    ensures
        final(out)@ == old(out)@ + part_values(v@.subrange(from as int, to as int)),
{
    let ghost p = v@.subrange(from as int, to as int);
    let k = find_in_range(v, from, to, '-');
    proof {
        lemma_find_char(p, '-', k - from);
    }
    if k < to {
        assert(p.take(k - from) =~= v@.subrange(from as int, k as int));
        assert(p.skip(k - from + 1) =~= v@.subrange(k + 1, to as int));
        let a = parse_unsigned_range(v, from, k, 2147483647);
        let b = parse_unsigned_range(v, k + 1, to, 2147483647);
        match (a, b) {
            (Some(a), Some(b)) => {
                if a <= b {
                    let ghost start = out@;
                    let mut x: u64 = a;
                    while x <= b
                        invariant
                            a <= x <= b + 1,
                            b <= 2147483647,
                            out@ == start + range_seq((a as int, (x - 1) as int)),
                        decreases b + 1 - x,
                    {
                        let ghost prev = out@;
                        out.push(x as i32);
                        assert(range_seq((a as int, x as int)) =~= range_seq((a as int, (x - 1) as int)).push(
                            x as i32));
                        x = x + 1;
                    }
                } else {
                    assert(part_values(p) =~= Seq::<i32>::empty());
                    assert(old(out)@ + part_values(p) =~= old(out)@);
                }
            },
            _ => {
                assert(part_values(p) =~= Seq::<i32>::empty());
                assert(old(out)@ + part_values(p) =~= old(out)@);
            },
        }
    } else {
        assert(p.len() == k - from);
        match parse_unsigned_range(v, from, to, 2147483647) {
            Some(x) => {
                out.push(x as i32);
            },
            None => {
                assert(old(out)@ + part_values(p) =~= old(out)@);
            },
        }
    }
}

/// Expands a CPU list such as "0-3,8" into its CPU ids, ascending and without
/// duplicates.
pub fn expand_cpu_list(s: &str) -> (r: Vec<i32>)
    ensures
        r@ == sorted_distinct(cpu_list_values(s@)),
{
    let v = chars_of(s);
    let n = v.len();
    let mut vals: Vec<i32> = Vec::new();
    let mut start: usize = 0;
    let ghost mut done: Seq<Seq<char>> = Seq::empty();
    assert(v@.take(0) =~= Seq::<char>::empty());
    assert(split(v@.take(0), ',') =~= done.push(v@.subrange(0, 0)));
    for i in 0..n
        invariant
            n == v@.len(),
            start <= i,
            split(v@.take(i as int), ',') == done.push(v@.subrange(start as int, i as int)),
            vals@ == concat_values(done),
    {
        assert(v@.take(i + 1).drop_last() =~= v@.take(i as int));
        assert(v@.take(i + 1).last() == v@[i as int]);
        if v[i] == ',' {
            push_part_values(&mut vals, &v, start, i);
            proof {
                let part = v@.subrange(start as int, i as int);
                assert(done.push(part).drop_last() =~= done);
                done = done.push(part);
                assert(v@.subrange(i + 1, i + 1) =~= Seq::<char>::empty());
            }
            start = i + 1;
        } else {
            assert(v@.subrange(start as int, i + 1) =~= v@.subrange(start as int, i as int).push(v@[i as int]));
            assert(done.push(v@.subrange(start as int, i as int)).drop_last() =~= done);
        }
    }
    push_part_values(&mut vals, &v, start, n);
    proof {
        let last = v@.subrange(start as int, n as int);
        assert(v@.take(n as int) =~= s@);
        assert(done.push(last).drop_last() =~= done);
    }
    sort_dedup(vals.as_slice())
}

// ---------------------------------------------------------------------------
// The two directions agree
// ---------------------------------------------------------------------------

proof fn lemma_split_no_sep(y: Seq<char>, c: char)
    requires
        forall|i: int| 0 <= i < y.len() ==> y[i] != c,
    ensures
        split(y, c) == seq![y],
    decreases y.len(),
{
    if y.len() > 0 {
        lemma_split_no_sep(y.drop_last(), c);
        assert(y.drop_last().push(y.last()) =~= y);
        assert(seq![y.drop_last()].drop_last() =~= Seq::<Seq<char>>::empty());
        assert(seq![y.drop_last()].last() == y.drop_last());
        assert(Seq::<Seq<char>>::empty().push(y) =~= seq![y]);
    } else {
        assert(y =~= Seq::<char>::empty());
    }
}

proof fn lemma_split_after_sep(x: Seq<char>, y: Seq<char>, c: char)
    requires
        forall|i: int| 0 <= i < y.len() ==> y[i] != c,
    ensures
        split(x + seq![c] + y, c) == split(x, c).push(y),
    decreases y.len(),
{
    let xc = x + seq![c];
    if y.len() == 0 {
        assert(xc + y =~= xc);
        assert(xc.drop_last() =~= x);
        assert(y =~= Seq::<char>::empty());
    } else {
        lemma_split_after_sep(x, y.drop_last(), c);
        assert((xc + y).drop_last() =~= xc + y.drop_last());
        assert(split(x, c).push(y.drop_last()).drop_last() =~= split(x, c));
        assert(y.drop_last().push(y.last()) =~= y);
    }
}

/// Splitting a comma-joined list of comma-free pieces gives the pieces back.
proof fn lemma_split_join(parts: Seq<Seq<char>>, c: char)
    requires
        parts.len() >= 1,
        forall|k: int, i: int| 0 <= k < parts.len() && 0 <= i < parts[k].len() ==> parts[k][i] != c,
    ensures
        split(join(parts, seq![c]), c) == parts,
    decreases parts.len(),
{
    if parts.len() == 1 {
        lemma_split_no_sep(parts[0], c);
        assert(seq![parts[0]] =~= parts);
    } else {
        let init = parts.drop_last();
        lemma_split_join(init, c);
        let last = parts.last();
        assert(forall|i: int| 0 <= i < last.len() ==> last[i] != c);
        lemma_split_after_sep(join(init, seq![c]), last, c);
        assert(init.push(last) =~= parts);
    }
}

proof fn lemma_dec_find(a: nat, rest: Seq<char>)
    ensures
        find_char(dec(a) + rest, '-') == (match find_char(rest, '-') {
            Some(k) => Some(k + dec(a).len()),
            None => None::<nat>,
        }),
{
    let d = dec(a);
    let s = d + rest;
    lemma_dec(a);
    assert forall|j: int| 0 <= j < d.len() implies s[j] != '-' by {
        lemma_dec_no_sep(a, j);
    }
    match find_char(rest, '-') {
        Some(k) => {
            lemma_find_char_some(rest, '-');
            lemma_find_char(s, '-', (k + d.len()) as int);
        },
        None => {
            lemma_find_char_none(rest, '-');
            lemma_find_char(s, '-', s.len() as int);
        },
    }
}

proof fn lemma_parse_dec(a: nat)
    requires
        a <= max_cpu(),
    ensures
        parse_unsigned(dec(a), max_cpu()) == Some(a),
{
    lemma_dec(a);
}

/// The rendering of a run names exactly the ids of that run.
proof fn lemma_part_values_range(r: (int, int))
    requires
        0 <= r.0 <= r.1 <= max_cpu(),
    ensures
        part_values(range_text(r)) == range_seq(r),
{
    let a = r.0 as nat;
    let b = r.1 as nat;
    if r.0 == r.1 {
        lemma_dec_find(a, Seq::empty());
        assert(dec(a) + Seq::<char>::empty() =~= dec(a));
        lemma_parse_dec(a);
        assert(range_seq(r) =~= seq![a as i32]);
    } else {
        let t = dec(a) + seq!['-'] + dec(b);
        assert(t =~= dec(a) + (seq!['-'] + dec(b)));
        lemma_find_char(seq!['-'] + dec(b), '-', 0);
        lemma_dec_find(a, seq!['-'] + dec(b));
        let k = dec(a).len();
        assert(t.take(k as int) =~= dec(a));
        assert(t.skip(k + 1 as int) =~= dec(b));
        lemma_parse_dec(a);
        lemma_parse_dec(b);
    }
}

/// Consecutive ids of the runs, in order.
pub open spec fn flat_runs(rs: Seq<(int, int)>) -> Seq<i32>
    decreases rs.len(),
{
    if rs.len() == 0 {
        Seq::empty()
    } else {
        flat_runs(rs.drop_last()) + range_seq(rs.last())
    }
}

proof fn lemma_concat_runs(rs: Seq<(int, int)>)
    requires
        forall|k: int| 0 <= k < rs.len() ==> 0 <= #[trigger] rs[k].0 <= rs[k].1 <= max_cpu(),
    ensures
        concat_values(rs.map_values(|r: (int, int)| range_text(r))) == flat_runs(rs),
    decreases rs.len(),
{
    if rs.len() > 0 {
        let init = rs.drop_last();
        lemma_concat_runs(init);
        assert(rs.map_values(|r: (int, int)| range_text(r)).drop_last() =~= init.map_values(
            |r: (int, int)| range_text(r),
        ));
        lemma_part_values_range(rs.last());
    }
}

/// The runs of an ascending sequence of non-negative ids are well formed,
/// end at its last element, and list it exactly.
proof fn lemma_runs(s: Seq<i32>)
    requires
        strictly_increasing(s),
        forall|i: int| 0 <= i < s.len() ==> s[i] >= 0,
    ensures
        forall|k: int| 0 <= k < runs(s).len() ==> 0 <= #[trigger] runs(s)[k].0 <= runs(s)[k].1 <= max_cpu(),
        s.len() > 0 ==> runs(s).len() > 0 && runs(s).last().1 == s.last() as int,
        flat_runs(runs(s)) == s,
    decreases s.len(),
{
    if s.len() > 0 {
        let p = s.drop_last();
        assert(strictly_increasing(p));
        lemma_runs(p);
        let r = runs(p);
        let x = s.last() as int;
        if r.len() > 0 && r.last().1 + 1 == x {
            let r2 = r.drop_last().push((r.last().0, x));
            assert(r2.drop_last() =~= r.drop_last());
            assert(range_seq((r.last().0, x)) =~= range_seq(r.last()).push(x as i32));
            assert(flat_runs(r) == flat_runs(r.drop_last()) + range_seq(r.last()));
            assert(flat_runs(r2) =~= p.push(x as i32));
            assert forall|k: int| 0 <= k < r2.len() implies 0 <= #[trigger] r2[k].0 <= r2[k].1 <= max_cpu() by {
                if k < r2.len() - 1 {
                    assert(r2[k] == r[k]);
                } else {
                    assert(r[r.len() - 1] == r.last());
                }
            }
        } else {
            let r2 = r.push((x, x));
            assert(r2.drop_last() =~= r);
            assert(range_seq((x, x)) =~= seq![x as i32]);
            assert(flat_runs(r2) =~= p.push(x as i32));
            assert forall|k: int| 0 <= k < r2.len() implies 0 <= #[trigger] r2[k].0 <= r2[k].1 <= max_cpu() by {
                if k < r2.len() - 1 {
                    assert(r2[k] == r[k]);
                }
            }
        }
        assert(p.push(s.last()) =~= s);
    } else {
        assert(s =~= Seq::<i32>::empty());
    }
}

/// Reading back the rendering of a set of non-negative CPU ids gives the same
/// ids, ascending and without duplicates: what `expand_cpu_list` returns on
/// the output of `expand_cpu_list_to_string` is the sorted, duplicate-free
/// input.
pub proof fn lemma_cpu_list_roundtrip(cpus: Seq<i32>)
    requires
        forall|i: int| 0 <= i < cpus.len() ==> cpus[i] >= 0,
    ensures
        sorted_distinct(cpu_list_values(cpu_list_text(cpus))) == sorted_distinct(cpus),
{
    let sd = sorted_distinct(cpus);
    lemma_sorted_distinct(cpus);
    assert forall|i: int| 0 <= i < sd.len() implies sd[i] >= 0 by {
        assert(sd.to_set().contains(sd[i]));
        assert(cpus.contains(sd[i]));
    }
    lemma_runs(sd);
    let rs = runs(sd);
    let texts = rs.map_values(|r: (int, int)| range_text(r));
    lemma_concat_runs(rs);
    if rs.len() == 0 {
        assert(texts =~= Seq::<Seq<char>>::empty());
        assert(cpu_list_text(cpus) =~= Seq::<char>::empty());
        assert(split(Seq::<char>::empty(), ',') =~= seq![Seq::<char>::empty()]);
        assert(part_values(Seq::<char>::empty()) =~= Seq::<i32>::empty());
        assert(concat_values(seq![Seq::<char>::empty()]) =~= Seq::<i32>::empty()) by {
            assert(seq![Seq::<char>::empty()].drop_last() =~= Seq::<Seq<char>>::empty());
        }
        assert(sd =~= Seq::<i32>::empty());
    } else {
        assert forall|k: int, i: int| 0 <= k < texts.len() && 0 <= i < texts[k].len() implies texts[k][i]
            != ',' by {
            let r = rs[k];
            assert(0 <= r.0 <= r.1 <= max_cpu());
            let a = r.0 as nat;
            let b = r.1 as nat;
            if r.0 == r.1 {
                lemma_dec_no_sep(a, i);
            } else {
                let t = dec(a) + seq!['-'] + dec(b);
                if i < dec(a).len() {
                    assert(t[i] == dec(a)[i]);
                    lemma_dec_no_sep(a, i);
                } else if i > dec(a).len() {
                    assert(t[i] == dec(b)[i - dec(a).len() - 1]);
                    lemma_dec_no_sep(b, i - dec(a).len() - 1);
                }
            }
        }
        lemma_split_join(texts, ',');
    }
    lemma_sorted_distinct_fixed(sd);
}

} // verus!
