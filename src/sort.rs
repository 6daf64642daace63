use vstd::prelude::*;

use crate::model::{view_repos, Repo, RepoView};

verus! {

pub open spec fn has_stars(n: u16) -> spec_fn(RepoView) -> bool {
    |r: RepoView| r.stars == n
}

/// The repositories of `s` with exactly `n` stars, in their order in `s`.
pub open spec fn with_stars(s: Seq<RepoView>, n: u16) -> Seq<RepoView> {
    s.filter(has_stars(n))
}

pub open spec fn stars_non_increasing(s: Seq<RepoView>) -> bool {
    forall|i: int, j: int| 0 <= i < j < s.len() ==> s[j].stars <= s[i].stars
}

/// `out` holds the repositories of `inp` ordered by stars, most first, with
/// repositories of equal stars in their order in `inp`.
pub open spec fn stable_star_order(out: Seq<RepoView>, inp: Seq<RepoView>) -> bool {
    &&& stars_non_increasing(out)
    &&& forall|n: u16| #[trigger] with_stars(out, n) == with_stars(inp, n)
}

proof fn lemma_none_with_stars(s: Seq<RepoView>, n: u16)
    requires
        forall|i: int| 0 <= i < s.len() ==> s[i].stars != n,
    ensures
        with_stars(s, n) == Seq::<RepoView>::empty(),
{
    s.lemma_all_neg_filter_empty(has_stars(n));
    assert(with_stars(s, n) =~= Seq::<RepoView>::empty());
}

/// Inserting `x` at `p`, after every element with at least its stars and
/// before every one with fewer, keeps the order sorted and appends `x` to the
/// repositories with its star count.
proof fn lemma_insert_sorted(o: Seq<RepoView>, p: int, x: RepoView, n: u16)
    requires
        0 <= p <= o.len(),
        stars_non_increasing(o),
        forall|i: int| 0 <= i < p ==> o[i].stars >= x.stars,
        forall|i: int| p <= i < o.len() ==> o[i].stars < x.stars,
    ensures
        stars_non_increasing(o.insert(p, x)),
        with_stars(o.insert(p, x), n) == if x.stars == n {
            with_stars(o, n).push(x)
        } else {
            with_stars(o, n)
        },
{
    let a = o.subrange(0, p);
    let b = o.subrange(p, o.len() as int);
    let pred = has_stars(n);
    assert(o =~= a + b);
    assert(o.insert(p, x) =~= a.push(x) + b);
    Seq::filter_distributes_over_add(a, b, pred);
    Seq::filter_distributes_over_add(a.push(x), b, pred);
    a.lemma_filter_push(x, pred);
    if x.stars == n {
        lemma_none_with_stars(b, n);
        assert(with_stars(o, n) =~= a.filter(pred));
        assert(with_stars(o.insert(p, x), n) =~= a.filter(pred).push(x));
    }
}

/// Orders `repos` by star count, most first. Repositories with equal counts
/// keep their relative order.
pub fn sort_by_stars(repos: &mut Vec<Repo>)
    ensures
        stable_star_order(view_repos(final(repos)@), view_repos(old(repos)@)),
{
    let mut input: Vec<Repo> = Vec::new();
    std::mem::swap(repos, &mut input);
    let ghost orig = view_repos(input@);
    let ghost total = input@.len() as int;
    let mut out: Vec<Repo> = Vec::new();
    let ghost mut k: int = 0;
    assert(view_repos(input@).subrange(0, 0) =~= Seq::<RepoView>::empty());
    while input.len() > 0
        invariant
            0 <= k <= total,
            total == orig.len(),
            view_repos(input@) =~= orig.subrange(k, total),
            stars_non_increasing(view_repos(out@)),
            forall|n: u16| #[trigger]
                with_stars(view_repos(out@), n) == with_stars(orig.subrange(0, k), n),
        decreases input@.len(),
    {
        let ghost before = input@;
        assert(view_repos(before).len() == before.len());
        assert(view_repos(before)[0] == before[0]@);
        let x = input.remove(0);
        assert(view_repos(input@) =~= view_repos(before).subrange(1, before.len() as int));
        assert(x@ == orig[k]);
        let stars = x.stargazers_count;
        let mut p: usize = 0;
        while p < out.len() && out[p].stargazers_count >= stars
            invariant
                p <= out@.len(),
                forall|i: int| 0 <= i < p ==> out@[i].stargazers_count >= stars,
            decreases out@.len() - p,
        {
            p = p + 1;
        }
        let ghost o = view_repos(out@);
        let ghost xv = x@;
        assert forall|i: int| p <= i < o.len() implies o[i].stars < xv.stars by {
            assert(o[p as int].stars < xv.stars);
        }
        out.insert(p, x);
        assert(view_repos(out@) =~= o.insert(p as int, xv));
        assert forall|n: u16| #[trigger]
            with_stars(view_repos(out@), n) == with_stars(orig.subrange(0, k + 1), n) by {
            lemma_insert_sorted(o, p as int, xv, n);
            assert(orig.subrange(0, k + 1) =~= orig.subrange(0, k).push(xv));
            orig.subrange(0, k).lemma_filter_push(xv, has_stars(n));
        }
        proof {
            lemma_insert_sorted(o, p as int, xv, 0);
            k = k + 1;
        }
    }
    assert(orig.subrange(0, k) =~= orig);
    *repos = out;
}

} // verus!
