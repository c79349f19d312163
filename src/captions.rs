use vstd::prelude::*;

verus! {

/// Whether a blank line (two newlines) starts at `j`.
pub open spec fn blank_at(t: Seq<char>, j: int) -> bool {
    0 <= j && j + 1 < t.len() && t[j] == '\n' && t[j + 1] == '\n'
}

/// Where the first blank line at or after `i` starts, or the end of `t`.
pub open spec fn next_blank(t: Seq<char>, i: int) -> int
    decreases t.len() - i,
{
    if i >= t.len() {
        t.len() as int
    } else if blank_at(t, i) {
        i
    } else {
        next_blank(t, i + 1)
    }
}

/// The blocks of `t` from `i` on, as (start, end) pairs: the pieces between
/// blank lines, taken left to right; the last piece runs to the end.
pub open spec fn blocks_from(t: Seq<char>, i: int) -> Seq<(int, int)>
    decreases t.len() - i,
{
    let e = next_blank(t, i);
    if i < 0 || i > t.len() || e < i || e + 1 >= t.len() {
        seq![(i, t.len() as int)]
    } else {
        seq![(i, e)] + blocks_from(t, e + 2)
    }
}

/// Where the first newline in `[i, b)` stands, or `b`.
pub open spec fn next_newline(t: Seq<char>, i: int, b: int) -> int
    decreases b - i,
{
    if i >= b {
        b
    } else if t[i] == '\n' {
        i
    } else {
        next_newline(t, i + 1, b)
    }
}

/// The third line of the block `[a, b)`, if it has one.
pub open spec fn third_line(t: Seq<char>, a: int, b: int) -> Option<(int, int)> {
    let n0 = next_newline(t, a, b);
    let n1 = next_newline(t, n0 + 1, b);
    if n0 < b && n1 < b {
        Some((n1 + 1, next_newline(t, n1 + 1, b)))
    } else {
        None
    }
}

pub open spec fn third_lines(t: Seq<char>, bs: Seq<(int, int)>) -> Seq<Option<(int, int)>> {
    bs.map_values(|p: (int, int)| third_line(t, p.0, p.1))
}

/// `s` without its first `n` items; empty when it has no more.
pub open spec fn after_first(s: Seq<(int, int)>, n: int) -> Seq<(int, int)> {
    if n >= s.len() {
        Seq::empty()
    } else {
        s.subrange(n, s.len() as int)
    }
}

pub open spec fn span_view(s: Option<(usize, usize)>) -> Option<(int, int)> {
    match s {
        Some((a, b)) => Some((a as int, b as int)),
        None => None,
    }
}

pub open spec fn spans_view(r: Seq<Option<(usize, usize)>>) -> Seq<Option<(int, int)>> {
    r.map_values(|s: Option<(usize, usize)>| span_view(s))
}

proof fn lemma_next_blank_bounds(t: Seq<char>, i: int)
    requires
        0 <= i,
    ensures
        i <= t.len() ==> i <= next_blank(t, i) <= t.len(),
        next_blank(t, i) < t.len() ==> blank_at(t, next_blank(t, i)),
    decreases t.len() - i,
{
    if i < t.len() && !blank_at(t, i) {
        lemma_next_blank_bounds(t, i + 1);
    }
}

proof fn lemma_next_newline_bounds(t: Seq<char>, i: int, b: int)
    requires
        0 <= i,
        b <= t.len(),
    ensures
        i <= b ==> i <= next_newline(t, i, b) <= b,
        next_newline(t, i, b) < b ==> t[next_newline(t, i, b)] == '\n',
    decreases b - i,
{
    if i < b && t[i] != '\n' {
        lemma_next_newline_bounds(t, i + 1, b);
    }
}

fn find_blank(t: &Vec<char>, i: usize) -> (e: usize)
    requires
        i <= t.len(),
    ensures
        e as int == next_blank(t@, i as int),
{
    let mut j = i;
    while j < t.len()
        invariant
            i <= j <= t.len(),
            next_blank(t@, i as int) == next_blank(t@, j as int),
        decreases t.len() - j,
    {
        if j + 1 < t.len() && t[j] == '\n' && t[j + 1] == '\n' {
            return j;
        }
        j = j + 1;
    }
    j
}

fn find_newline(t: &Vec<char>, i: usize, b: usize) -> (e: usize)
    requires
        i <= b <= t.len(),
    ensures
        e as int == next_newline(t@, i as int, b as int),
{
    let mut j = i;
    while j < b
        invariant
            i <= j <= b,
            b <= t.len(),
            next_newline(t@, i as int, b as int) == next_newline(t@, j as int, b as int),
        decreases b - j,
    {
        if t[j] == '\n' {
            return j;
        }
        j = j + 1;
    }
    j
}

fn third_line_of(t: &Vec<char>, a: usize, b: usize) -> (r: Option<(usize, usize)>)
    requires
        a <= b <= t.len(),
    ensures
        span_view(r) == third_line(t@, a as int, b as int),
{
    let n0 = find_newline(t, a, b);
    proof { lemma_next_newline_bounds(t@, a as int, b as int); }
    if n0 >= b {
        return None;
    }
    let n1 = find_newline(t, n0 + 1, b);
    proof { lemma_next_newline_bounds(t@, n0 + 1, b as int); }
    if n1 >= b {
        return None;
    }
    let n2 = find_newline(t, n1 + 1, b);
    Some((n1 + 1, n2))
}

/// Splits a caption transcript into blocks at blank lines and, for each
/// block after the first `skip`, gives the span of its third line (the
/// caption text, after the sequence number and the timing), or `None` for a
/// block with fewer than three lines.
pub fn caption_spans(t: &Vec<char>, skip: usize) -> (r: Vec<Option<(usize, usize)>>)
    ensures
        spans_view(r@) == third_lines(
            t@,
            after_first(blocks_from(t@, 0), skip as int),
        ),
{
    let mut r: Vec<Option<(usize, usize)>> = Vec::new();
    let mut i: usize = 0;
    let mut seen: usize = 0;
    let ghost mut passed: Seq<(int, int)> = Seq::empty();
    loop
        invariant_except_break
            blocks_from(t@, 0) == passed + blocks_from(t@, i as int),
        invariant
            i <= t.len(),
            seen as int == if passed.len() < skip { passed.len() as int } else { skip as int },
            spans_view(r@) == third_lines(t@, after_first(passed, skip as int)),
        ensures
            blocks_from(t@, 0) == passed,
            spans_view(r@) == third_lines(t@, after_first(passed, skip as int)),
        decreases t.len() - i,
    {
        let e = find_blank(t, i);
        proof { lemma_next_blank_bounds(t@, i as int); }
        let end = if e >= t.len() { t.len() } else { e };
        let ghost block = (i as int, end as int);
        let ghost old_r = r@;
        let ghost old_passed = passed;
        if seen >= skip {
            let s = third_line_of(t, i, end);
            r.push(s);
            proof {
                assert(spans_view(r@) =~= spans_view(old_r).push(span_view(s)));
                assert(third_lines(t@, after_first(old_passed, skip as int).push(block)) =~= third_lines(
                    t@,
                    after_first(old_passed, skip as int),
                ).push(third_line(t@, block.0, block.1)));
            }
        }
        proof {
            passed = passed.push(block);
            if e >= t.len() {
                assert(blocks_from(t@, i as int) == seq![block]);
            } else {
                assert(blocks_from(t@, i as int) == seq![block] + blocks_from(t@, e + 2));
            }
            if old_passed.len() >= skip {
                assert(after_first(passed, skip as int) =~= after_first(old_passed, skip as int).push(block));
            } else {
                assert(after_first(passed, skip as int) =~= after_first(old_passed, skip as int));
            }
            assert(spans_view(r@) =~= third_lines(t@, after_first(passed, skip as int)));
        }
        if seen < skip {
            seen = seen + 1;
        }
        if e >= t.len() {
            proof {
                assert(blocks_from(t@, 0) =~= passed);
            }
            break;
        }
        proof {
            assert(blocks_from(t@, 0) =~= passed + blocks_from(t@, e + 2));
        }
        i = e + 2;
    }
    r
}

} // verus!
