use vstd::prelude::*;

verus! {

/// `p` occurs in `s` as a contiguous block.
pub open spec fn occurs(p: Seq<char>, s: Seq<char>) -> bool {
    exists|i: int| 0 <= i && i + p.len() <= s.len() && #[trigger] s.subrange(i, i + p.len()) == p
}

/// `s` ends with `t`.
pub open spec fn ends_with(s: Seq<char>, t: Seq<char>) -> bool {
    s.len() >= t.len() && s.subrange(s.len() - t.len(), s.len() as int) == t
}

/// `s` with its `n` characters from index `at` on replaced by `x`.
pub open spec fn splice(s: Seq<char>, at: int, n: int, x: Seq<char>) -> Seq<char> {
    s.subrange(0, at) + x + s.subrange(at + n, s.len() as int)
}

/// From index `i` on, `c` agrees with the first `k` characters of `p`, as far as `c` reaches.
pub open spec fn agrees_from(c: Seq<char>, p: Seq<char>, i: int, k: nat) -> bool
    decreases k,
{
    if k == 0 {
        true
    } else {
        let j = k - 1;
        &&& agrees_from(c, p, i, j as nat)
        &&& (j < p.len() && i + j < c.len() ==> c[i + j] == p[j])
    }
}

/// No block of `c`, nor any tail of `c` continued by other text, can be `p`.
pub open spec fn clear_of(c: Seq<char>, p: Seq<char>) -> bool {
    forall|i: int| 0 <= i < c.len() ==> !#[trigger] agrees_from(c, p, i, p.len())
}

/// No block of `c` is `p`, checked on the first characters of each block.
pub open spec fn free_of(c: Seq<char>, p: Seq<char>) -> bool {
    forall|i: int| 0 <= i && i + p.len() <= c.len() ==> !#[trigger] agrees_from(c, p, i, p.len())
}

proof fn lemma_window_agrees(s: Seq<char>, c: Seq<char>, p: Seq<char>, i: int, k: nat)
    requires
        0 <= i,
        i + p.len() <= s.len(),
        c.len() <= s.len(),
        s.subrange(0, c.len() as int) == c,
        s.subrange(i, i + p.len()) == p,
        k <= p.len(),
    ensures
        agrees_from(c, p, i, k),
    decreases k,
{
    if k > 0 {
        lemma_window_agrees(s, c, p, i, (k - 1) as nat);
        let j = k - 1;
        if i + j < c.len() {
            assert(s.subrange(i, i + p.len())[j] == s[i + j]);
            assert(s.subrange(0, c.len() as int)[i + j] == s[i + j]);
        }
    }
}

/// A text that is clear of `p`, followed by `r`: an occurrence of `p` lies in `r`.
pub proof fn lemma_skip_clear(c: Seq<char>, r: Seq<char>, p: Seq<char>)
    requires
        clear_of(c, p),
        occurs(p, c + r),
    ensures
        occurs(p, r),
{
    let s = c + r;
    let i = choose|i: int|
        0 <= i && i + p.len() <= s.len() && #[trigger] s.subrange(i, i + p.len()) == p;
    if i < c.len() {
        assert(s.subrange(0, c.len() as int) =~= c);
        lemma_window_agrees(s, c, p, i, p.len());
        assert(false);
    } else {
        let k = i - c.len();
        assert(r.subrange(k, k + p.len()) =~= s.subrange(i, i + p.len()));
    }
}

/// Where `r` starts a new line and `p` holds no line break, an occurrence of `p` in `x + r`
/// lies in `x` or in `r`.
pub proof fn lemma_split_at_line(x: Seq<char>, r: Seq<char>, p: Seq<char>)
    requires
        !p.contains('\n'),
        r.len() > 0,
        r[0] == '\n',
        occurs(p, x + r),
    ensures
        occurs(p, x) || occurs(p, r),
{
    let s = x + r;
    let i = choose|i: int|
        0 <= i && i + p.len() <= s.len() && #[trigger] s.subrange(i, i + p.len()) == p;
    if i + p.len() <= x.len() {
        assert(x.subrange(i, i + p.len()) =~= s.subrange(i, i + p.len()));
    } else if i < x.len() {
        let j = x.len() - i;
        assert(s.subrange(i, i + p.len())[j] == s[x.len() as int]);
        assert(p[j] == '\n');
        assert(false);
    } else {
        let k = i - x.len();
        assert(r.subrange(k, k + p.len()) =~= s.subrange(i, i + p.len()));
    }
}

/// A text that is free of `p` holds no occurrence of it.
pub proof fn lemma_free_of(c: Seq<char>, p: Seq<char>)
    requires
        free_of(c, p),
    ensures
        !occurs(p, c),
{
    if occurs(p, c) {
        let i = choose|i: int|
            0 <= i && i + p.len() <= c.len() && #[trigger] c.subrange(i, i + p.len()) == p;
        assert(c.subrange(0, c.len() as int) =~= c);
        lemma_window_agrees(c, c, p, i, p.len());
    }
}

/// `p` stands in `s` from index `i` on.
pub proof fn lemma_occurs_at(s: Seq<char>, p: Seq<char>, i: int)
    requires
        0 <= i,
        i + p.len() <= s.len(),
        s.subrange(i, i + p.len()) =~= p,
    ensures
        occurs(p, s),
{
}

/// An occurrence of `p` in `m` is one in `a + m + b`.
pub proof fn lemma_occurs_within(a: Seq<char>, m: Seq<char>, b: Seq<char>, p: Seq<char>)
    requires
        occurs(p, m),
    ensures
        occurs(p, a + m + b),
{
    let i = choose|i: int|
        0 <= i && i + p.len() <= m.len() && #[trigger] m.subrange(i, i + p.len()) == p;
    let s = a + m + b;
    assert(s.subrange(a.len() + i, a.len() + i + p.len()) =~= m.subrange(i, i + p.len()));
}

} // verus!
