//! Filters that keep this tool's own flags away from the orchestrator and
//! conflicting optimisation flags away from the compiler.
use vstd::prelude::*;
use crate::text::{contains_text, occurs_at, same_text, seq_contains};

verus! {

/// The flags that select a mode; the orchestrator must never see them.
pub open spec fn is_pseudo_flag(t: Seq<char>) -> bool {
    t == "--fast"@ || t == "--slow"@ || t == "--glacial"@ || t == "--debug"@
}

/// `args` without the mode-selecting flags, the rest in order.
pub open spec fn without_pseudo_flags(args: Seq<Seq<char>>) -> Seq<Seq<char>> {
    args.filter(|t: Seq<char>| !is_pseudo_flag(t))
}

/// The compiler's plain debug-information flag.
pub open spec fn is_debug_flag(t: Seq<char>) -> bool {
    t == "-g"@
}

/// `a` followed by `b` sets the compiler's optimisation level.
pub open spec fn is_opt_pair(a: Seq<char>, b: Seq<char>) -> bool {
    a == "-C"@ && seq_contains(b, "opt-level"@)
}

/// `args` without the debug-information flags, the rest in order.
pub open spec fn without_debug_flags(args: Seq<Seq<char>>) -> Seq<Seq<char>> {
    args.filter(|t: Seq<char>| !is_debug_flag(t))
}

/// `args` scanned from the left, with every optimisation-level pair dropped.
#[verifier::opaque]
pub open spec fn without_opt_pairs(args: Seq<Seq<char>>) -> Seq<Seq<char>>
    decreases args.len(),
{
    if args.len() == 0 {
        Seq::empty()
    } else if args.len() >= 2 && is_opt_pair(args[0], args[1]) {
        without_opt_pairs(args.subrange(2, args.len() as int))
    } else {
        seq![args[0]] + without_opt_pairs(args.subrange(1, args.len() as int))
    }
}

/// Arguments `i` and `i + 1` of `args` form an optimisation-level pair.
pub open spec fn opt_pair_at(args: Seq<Seq<char>>, i: int) -> bool {
    is_opt_pair(args[i], args[i + 1])
}

/// What reaches the compiler of the arguments the orchestrator gave it.
pub open spec fn without_conflicting_flags(args: Seq<Seq<char>>) -> Seq<Seq<char>> {
    without_opt_pairs(without_debug_flags(args))
}

/// `args` holds no debug flag and no optimisation-level pair.
pub open spec fn free_of_conflicts(args: Seq<Seq<char>>) -> bool {
    &&& forall|i: int| 0 <= i < args.len() ==> !is_debug_flag(#[trigger] args[i])
    &&& forall|i: int| 0 <= i < args.len() - 1 ==> !opt_pair_at(args, i)
}

fn is_pseudo_arg(t: &str) -> (r: bool)
    ensures
        r == is_pseudo_flag(t@),
{
    same_text(t, "--fast") || same_text(t, "--slow") || same_text(t, "--glacial") || same_text(
        t,
        "--debug",
    )
}

/// Removes the mode-selecting flags from an argument list bound for the
/// orchestrator, keeping the order of the rest.
pub fn strip_bake_args(args: &[String]) -> (r: Vec<String>)
    ensures
        r.deep_view() == without_pseudo_flags(args.deep_view()),
{
    let ghost all = args.deep_view();
    let mut r: Vec<String> = Vec::new();
    let mut i: usize = 0;
    while i < args.len()
        invariant
            all == args.deep_view(),
            i <= args.len(),
            r.deep_view() == without_pseudo_flags(all.subrange(0, i as int)),
        decreases args.len() - i,
    {
        assert(all.subrange(0, i + 1).drop_last() =~= all.subrange(0, i as int));
        assert(all[i as int] == args[i as int]@);
        reveal(Seq::filter);
        let ghost before = r.deep_view();
        if !is_pseudo_arg(args[i].as_str()) {
            r.push(args[i].clone());
            assert(r.deep_view() =~= before.push(all[i as int]));
        }
        assert(r.deep_view() =~= without_pseudo_flags(all.subrange(0, i + 1)));
        i = i + 1;
    }
    assert(all.subrange(0, i as int) =~= all);
    r
}

/// Removes from an argument list bound for the compiler each plain debug
/// flag, then each `-C` whose next argument sets the optimisation level,
/// together with that argument; the rest keep their order.
pub fn strip_opt_args(args: &[String]) -> (r: Vec<String>)
    ensures
        r.deep_view() == without_conflicting_flags(args.deep_view()),
{
    let ghost all = args.deep_view();
    let mut kept: Vec<String> = Vec::new();
    let mut i: usize = 0;
    while i < args.len()
        invariant
            all == args.deep_view(),
            i <= args.len(),
            kept.deep_view() == without_debug_flags(all.subrange(0, i as int)),
        decreases args.len() - i,
    {
        assert(all.subrange(0, i + 1).drop_last() =~= all.subrange(0, i as int));
        assert(all[i as int] == args[i as int]@);
        reveal(Seq::filter);
        let ghost before = kept.deep_view();
        if !same_text(args[i].as_str(), "-g") {
            kept.push(args[i].clone());
            assert(kept.deep_view() =~= before.push(all[i as int]));
        }
        assert(kept.deep_view() =~= without_debug_flags(all.subrange(0, i + 1)));
        i = i + 1;
    }
    assert(all.subrange(0, i as int) =~= all);
    let ghost f = kept.deep_view();
    proof {
        reveal(without_opt_pairs);
    }
    let n = kept.len();
    let mut r: Vec<String> = Vec::new();
    let mut j: usize = 0;
    assert(f.subrange(0, n as int) =~= f);
    assert(r.deep_view() + without_opt_pairs(f) =~= without_opt_pairs(f));
    while j < n
        invariant
            f == kept.deep_view(),
            n == kept.len(),
            j <= n,
            r.deep_view() + without_opt_pairs(f.subrange(j as int, n as int)) == without_opt_pairs(
                f,
            ),
        decreases n - j,
    {
        let ghost rest = f.subrange(j as int, n as int);
        proof {
            reveal(without_opt_pairs);
        }
        if j + 1 < n && same_text(kept[j].as_str(), "-C") && contains_text(
            kept[j + 1].as_str(),
            "opt-level",
        ) {
            assert(rest.subrange(2, rest.len() as int) =~= f.subrange(j + 2, n as int));
            j = j + 2;
        } else {
            assert(rest.subrange(1, rest.len() as int) =~= f.subrange(j + 1, n as int));
            let ghost before = r.deep_view();
            r.push(kept[j].clone());
            assert(r.deep_view() =~= before + seq![f[j as int]]);
            assert(r.deep_view() + without_opt_pairs(f.subrange(j + 1, n as int)) =~= before
                + without_opt_pairs(rest));
            j = j + 1;
        }
    }
    assert(r.deep_view() =~= r.deep_view() + without_opt_pairs(f.subrange(n as int, n as int)));
    r
}

proof fn lemma_filter_keeps_all(s: Seq<Seq<char>>, pred: spec_fn(Seq<char>) -> bool)
    requires
        forall|i: int| 0 <= i < s.len() ==> pred(#[trigger] s[i]),
    ensures
        s.filter(pred) == s,
    decreases s.len(),
{
    reveal(Seq::filter);
    if s.len() > 0 {
        lemma_filter_keeps_all(s.drop_last(), pred);
        assert(s.drop_last().push(s.last()) =~= s);
    }
}

/// Removing the mode flags twice removes no more than doing it once.
pub proof fn lemma_strip_bake_args_idempotent(args: Seq<Seq<char>>)
    ensures
        without_pseudo_flags(without_pseudo_flags(args)) == without_pseudo_flags(args),
{
    let pred = |t: Seq<char>| !is_pseudo_flag(t);
    let once = args.filter(pred);
    assert forall|i: int| 0 <= i < once.len() implies pred(#[trigger] once[i]) by {
        args.lemma_filter_pred(pred, i);
    }
    lemma_filter_keeps_all(once, pred);
}

proof fn lemma_no_pairs_kept(s: Seq<Seq<char>>)
    requires
        forall|i: int| 0 <= i < s.len() - 1 ==> !opt_pair_at(s, i),
    ensures
        without_opt_pairs(s) == s,
    decreases s.len(),
{
    reveal(without_opt_pairs);
    if s.len() > 0 {
        let tail = s.subrange(1, s.len() as int);
        assert forall|i: int| 0 <= i < tail.len() - 1 implies !opt_pair_at(tail, i) by {
            assert(tail[i] == s[i + 1] && tail[i + 1] == s[i + 2]);
            assert(!opt_pair_at(s, i + 1));
        }
        if s.len() >= 2 {
            assert(!opt_pair_at(s, 0));
        }
        lemma_no_pairs_kept(tail);
        assert(seq![s[0]] + tail =~= s);
    }
}

proof fn lemma_opt_pairs_after_clean_prefix(pre: Seq<Seq<char>>, rest: Seq<Seq<char>>)
    requires
        forall|i: int| 0 <= i < pre.len() - 1 ==> !opt_pair_at(pre, i),
        pre.len() > 0 && rest.len() > 0 ==> !is_opt_pair(pre.last(), rest[0]),
    ensures
        without_opt_pairs(pre + rest) == pre + without_opt_pairs(rest),
    decreases pre.len(),
{
    reveal(without_opt_pairs);
    if pre.len() == 0 {
        assert(pre + rest =~= rest);
        assert(pre + without_opt_pairs(rest) =~= without_opt_pairs(rest));
    } else {
        let all = pre + rest;
        let tail = pre.subrange(1, pre.len() as int);
        assert forall|i: int| 0 <= i < tail.len() - 1 implies !opt_pair_at(tail, i) by {
            assert(tail[i] == pre[i + 1] && tail[i + 1] == pre[i + 2]);
            assert(!opt_pair_at(pre, i + 1));
        }
        if pre.len() >= 2 {
            assert(!opt_pair_at(pre, 0));
        }
        if all.len() >= 2 {
            assert(!is_opt_pair(all[0], all[1]));
        }
        assert(all.subrange(1, all.len() as int) =~= tail + rest);
        lemma_opt_pairs_after_clean_prefix(tail, rest);
        assert(seq![pre[0]] + (tail + without_opt_pairs(rest)) =~= pre + without_opt_pairs(rest));
    }
}

proof fn lemma_contains_needs_room(hay: Seq<char>, needle: Seq<char>)
    requires
        seq_contains(hay, needle),
    ensures
        needle.len() <= hay.len(),
{
    let start = choose|start: int| occurs_at(hay, needle, start);
}

proof fn lemma_pair_tokens(value: Seq<char>)
    requires
        seq_contains(value, "opt-level"@),
    ensures
        !is_debug_flag("-C"@),
        !is_debug_flag(value),
        !seq_contains("-C"@, "opt-level"@),
{
    reveal_strlit("-g");
    reveal_strlit("-C");
    reveal_strlit("opt-level");
    lemma_contains_needs_room(value, "opt-level"@);
    assert("-C"@[1] != "-g"@[1]);
    if seq_contains("-C"@, "opt-level"@) {
        lemma_contains_needs_room("-C"@, "opt-level"@);
    }
}

/// An argument list with no debug flag and no optimisation-level pair goes
/// to the compiler unchanged.
pub proof fn lemma_conflict_free_args_kept(args: Seq<Seq<char>>)
    requires
        free_of_conflicts(args),
    ensures
        without_conflicting_flags(args) == args,
{
    lemma_filter_keeps_all(args, |t: Seq<char>| !is_debug_flag(t));
    lemma_no_pairs_kept(args);
}

/// A single debug flag added anywhere to a conflict-free argument list is
/// the one argument removed.
pub proof fn lemma_lone_debug_flag_removed(args: Seq<Seq<char>>, k: int)
    requires
        free_of_conflicts(args),
        0 <= k <= args.len(),
    ensures
        without_conflicting_flags(
            args.subrange(0, k) + seq!["-g"@] + args.subrange(k, args.len() as int),
        ) == args,
{
    let pred = |t: Seq<char>| !is_debug_flag(t);
    let pre = args.subrange(0, k);
    let post = args.subrange(k, args.len() as int);
    reveal(Seq::filter);
    let none = Seq::<Seq<char>>::empty();
    assert(none.filter(pred) == none);
    assert(seq!["-g"@].drop_last() =~= none);
    assert(seq!["-g"@].filter(pred) == none);
    lemma_filter_keeps_all(pre, pred);
    lemma_filter_keeps_all(post, pred);
    Seq::filter_distributes_over_add(pre + seq!["-g"@], post, pred);
    Seq::filter_distributes_over_add(pre, seq!["-g"@], pred);
    assert(pre + post =~= args);
    assert(without_debug_flags(pre + seq!["-g"@] + post) =~= args);
    lemma_no_pairs_kept(args);
}

proof fn lemma_no_pairs_in_slice(args: Seq<Seq<char>>, lo: int, hi: int)
    requires
        free_of_conflicts(args),
        0 <= lo <= hi <= args.len(),
    ensures
        forall|i: int|
            0 <= i < hi - lo - 1 ==> !opt_pair_at(args.subrange(lo, hi), i),
{
    let part = args.subrange(lo, hi);
    assert forall|i: int| 0 <= i < hi - lo - 1 implies !opt_pair_at(part, i) by {
        assert(part[i] == args[lo + i] && part[i + 1] == args[lo + i + 1]);
        assert(!opt_pair_at(args, lo + i));
    }
}

proof fn lemma_pair_inserted_no_debug(args: Seq<Seq<char>>, k: int, value: Seq<char>)
    requires
        free_of_conflicts(args),
        0 <= k <= args.len(),
        seq_contains(value, "opt-level"@),
    ensures
        without_debug_flags(
            args.subrange(0, k) + (seq!["-C"@, value] + args.subrange(k, args.len() as int)),
        ) == args.subrange(0, k) + (seq!["-C"@, value] + args.subrange(k, args.len() as int)),
{
    let pred = |t: Seq<char>| !is_debug_flag(t);
    let all = args.subrange(0, k) + (seq!["-C"@, value] + args.subrange(k, args.len() as int));
    lemma_pair_tokens(value);
    assert forall|i: int| 0 <= i < all.len() implies pred(#[trigger] all[i]) by {
        if i < k {
            assert(all[i] == args[i]);
        } else if i >= k + 2 {
            assert(all[i] == args[i - 2]);
        }
    }
    lemma_filter_keeps_all(all, pred);
}

proof fn lemma_pair_dropped(value: Seq<char>, post: Seq<Seq<char>>)
    requires
        seq_contains(value, "opt-level"@),
    ensures
        without_opt_pairs(seq!["-C"@, value] + post) == without_opt_pairs(post),
{
    reveal(without_opt_pairs);
    let all = seq!["-C"@, value] + post;
    assert(all[0] == "-C"@ && all[1] == value);
    assert(is_opt_pair(all[0], all[1]));
    assert(all.subrange(2, all.len() as int) =~= post);
}

proof fn lemma_pair_between_clean_parts(pre: Seq<Seq<char>>, value: Seq<char>, post: Seq<Seq<char>>)
    requires
        forall|i: int| 0 <= i < pre.len() - 1 ==> !opt_pair_at(pre, i),
        forall|i: int| 0 <= i < post.len() - 1 ==> !opt_pair_at(post, i),
        seq_contains(value, "opt-level"@),
    ensures
        without_opt_pairs(pre + (seq!["-C"@, value] + post)) == pre + post,
{
    let pair = seq!["-C"@, value];
    lemma_pair_dropped(value, post);
    assert(pre.len() > 0 ==> !is_opt_pair(pre.last(), (pair + post)[0])) by {
        lemma_pair_tokens(value);
    }
    lemma_opt_pairs_after_clean_prefix(pre, pair + post);
    lemma_no_pairs_kept(post);
}

/// A `-C` followed by an optimisation-level setting, added anywhere to a
/// conflict-free argument list, are the two arguments removed.
pub proof fn lemma_opt_pair_removed(args: Seq<Seq<char>>, k: int, value: Seq<char>)
    requires
        free_of_conflicts(args),
        0 <= k <= args.len(),
        seq_contains(value, "opt-level"@),
    ensures
        without_conflicting_flags(
            args.subrange(0, k) + (seq!["-C"@, value] + args.subrange(k, args.len() as int)),
        ) == args,
{
    let pre = args.subrange(0, k);
    let post = args.subrange(k, args.len() as int);
    lemma_pair_inserted_no_debug(args, k, value);
    lemma_no_pairs_in_slice(args, 0, k);
    lemma_no_pairs_in_slice(args, k, args.len() as int);
    lemma_pair_between_clean_parts(pre, value, post);
    assert(pre + post =~= args);
}

} // verus!
