//! The liveness counter as a state machine.
//!
//! One machine word encodes which borrows are outstanding: `0` means none,
//! a value strictly between `0` and the sentinel means that many shared
//! borrows, and the sentinel [`sentinel`] (`usize::MAX`) means exactly one
//! exclusive borrow. [`step`] says how each borrow operation moves the
//! counter, and when it is refused instead; [`run`] folds a whole trace of
//! operations. The lemmas at the end are the laws of the discipline:
//! issuing and releasing balance out exactly, shared borrows are refused
//! while an exclusive one is outstanding, and an exclusive borrow is
//! granted exactly when the counter is free.

use vstd::prelude::*;

verus! {

/// One operation on the liveness counter: issuing a fresh shared borrow,
/// cloning an existing shared borrow (which counts like a fresh one),
/// releasing a shared borrow, issuing the single exclusive borrow, and
/// releasing it again.
pub enum CounterOp {
    IssueShared,
    CloneShared,
    ReleaseShared,
    IssueExclusive,
    ReleaseExclusive,
}

/// The counter value that marks one outstanding exclusive borrow.
pub open spec fn sentinel() -> usize {
    usize::MAX
}

/// No borrow of any kind is outstanding.
pub open spec fn is_free(c: usize) -> bool {
    c == 0
}

/// A further shared borrow may be issued: the counter holds a shared
/// count (not the sentinel) and incrementing it cannot reach the sentinel.
pub open spec fn shared_borrow_allowed(c: usize) -> bool {
    c < usize::MAX - 1
}

/// A shared borrow may be released: at least one is outstanding.
pub open spec fn shared_release_allowed(c: usize) -> bool {
    c != 0 && c != sentinel()
}

/// The exclusive borrow may be issued: no borrow is outstanding.
pub open spec fn exclusive_borrow_allowed(c: usize) -> bool {
    is_free(c)
}

/// The exclusive borrow may be released: it is outstanding.
pub open spec fn exclusive_release_allowed(c: usize) -> bool {
    c == sentinel()
}

/// One step of the counter machine: the new counter value, or `None`
/// where the operation is refused in that state.
pub open spec fn step(c: usize, op: CounterOp) -> Option<usize> {
    match op {
        CounterOp::IssueShared => if shared_borrow_allowed(c) {
            Some((c + 1) as usize)
        } else {
            None
        },
        CounterOp::CloneShared => if shared_borrow_allowed(c) {
            Some((c + 1) as usize)
        } else {
            None
        },
        CounterOp::ReleaseShared => if shared_release_allowed(c) {
            Some((c - 1) as usize)
        } else {
            None
        },
        CounterOp::IssueExclusive => if exclusive_borrow_allowed(c) {
            Some(sentinel())
        } else {
            None
        },
        CounterOp::ReleaseExclusive => if exclusive_release_allowed(c) {
            Some(0usize)
        } else {
            None
        },
    }
}

/// A whole trace of operations, folded over [`step`]: the final counter
/// value, or `None` where any step along the way is refused.
pub open spec fn run(c: usize, ops: Seq<CounterOp>) -> Option<usize>
    decreases ops.len(),
{
    if ops.len() == 0 {
        Some(c)
    } else {
        match step(c, ops[0]) {
            Some(c2) => run(c2, ops.drop_first()),
            None => None,
        }
    }
}

/// The same operation repeated `n` times.
pub open spec fn repeated(op: CounterOp, n: nat) -> Seq<CounterOp> {
    Seq::new(n, |i: int| op)
}

/// Running a concatenated trace runs its two halves in order; a refusal
/// in the first half is a refusal of the whole.
pub proof fn lemma_run_append(c: usize, s1: Seq<CounterOp>, s2: Seq<CounterOp>)
    ensures
        run(c, s1) is None ==> run(c, s1 + s2) is None,
        run(c, s1) matches Some(c1) ==> run(c, s1 + s2) == run(c1, s2),
    decreases s1.len(),
{
    if s1.len() == 0 {
        assert(s1 + s2 =~= s2);
    } else {
        assert((s1 + s2)[0] == s1[0]);
        assert((s1 + s2).drop_first() =~= s1.drop_first() + s2);
        match step(c, s1[0]) {
            Some(c2) => {
                lemma_run_append(c2, s1.drop_first(), s2);
            },
            None => {
            },
        }
    }
}

/// Issuing (or cloning) shared borrows `n` times in a row from counter
/// `c` is refused at no step and adds exactly `n` to the counter.
pub proof fn lemma_acquires_add_up(c: usize, op: CounterOp, n: nat)
    requires
        op is IssueShared || op is CloneShared,
        c + n < usize::MAX,
    ensures
        run(c, repeated(op, n)) == Some(((c + n) as usize)),
    decreases n,
{
    if n == 0 {
        assert(repeated(op, n).len() == 0);
    } else {
        assert(step(c, op) == Some((c + 1) as usize));
        assert(repeated(op, n)[0] == op);
        assert(repeated(op, n).drop_first() =~= repeated(op, (n - 1) as nat));
        lemma_acquires_add_up((c + 1) as usize, op, (n - 1) as nat);
    }
}

/// Releasing shared borrows `n` times in a row from a shared count `c`
/// of at least `n` is refused at no step and subtracts exactly `n`.
pub proof fn lemma_releases_count_down(c: usize, n: nat)
    requires
        n <= c,
        c < usize::MAX,
    ensures
        run(c, repeated(CounterOp::ReleaseShared, n)) == Some(((c - n) as usize)),
    decreases n,
{
    if n == 0 {
        assert(repeated(CounterOp::ReleaseShared, n).len() == 0);
    } else {
        assert(step(c, CounterOp::ReleaseShared) == Some((c - 1) as usize));
        assert(repeated(CounterOp::ReleaseShared, n)[0] == CounterOp::ReleaseShared);
        assert(repeated(CounterOp::ReleaseShared, n).drop_first() =~= repeated(
            CounterOp::ReleaseShared,
            (n - 1) as nat,
        ));
        lemma_releases_count_down((c - 1) as usize, (n - 1) as nat);
    }
}

/// Law: from a free counter, any number `n` of shared borrows may be
/// issued and all read concurrently — no step is refused — and releasing
/// all `n` returns the counter to exactly `0`.
pub proof fn lemma_shared_round_trip(n: nat)
    requires
        n < usize::MAX,
    ensures
        run(
            0,
            repeated(CounterOp::IssueShared, n) + repeated(CounterOp::ReleaseShared, n),
        ) == Some(0usize),
{
    lemma_acquires_add_up(0, CounterOp::IssueShared, n);
    lemma_releases_count_down(n as usize, n);
    lemma_run_append(
        0,
        repeated(CounterOp::IssueShared, n),
        repeated(CounterOp::ReleaseShared, n),
    );
}

/// Law: one issued shared borrow, cloned `n` more times, makes `n + 1`
/// handles; releasing all `n + 1` returns the counter to exactly `0` —
/// no leak and no double release.
pub proof fn lemma_clone_round_trip(n: nat)
    requires
        n < usize::MAX - 1,
    ensures
        run(
            0,
            seq![CounterOp::IssueShared] + repeated(CounterOp::CloneShared, n) + repeated(
                CounterOp::ReleaseShared,
                (n + 1) as nat,
            ),
        ) == Some(0usize),
{
    let issue = seq![CounterOp::IssueShared];
    assert(issue.len() == 1 && issue[0] == CounterOp::IssueShared);
    assert(step(0, CounterOp::IssueShared) == Some(1usize));
    assert(issue.drop_first() =~= Seq::<CounterOp>::empty());
    assert(run(1, issue.drop_first()) == Some(1usize));
    assert(run(0, issue) == Some(1usize));
    lemma_acquires_add_up(1, CounterOp::CloneShared, n);
    lemma_run_append(0, issue, repeated(CounterOp::CloneShared, n));
    assert(run(0, issue + repeated(CounterOp::CloneShared, n)) == Some(((1 + n) as usize)));
    lemma_releases_count_down((1 + n) as usize, (n + 1) as nat);
    lemma_run_append(
        0,
        issue + repeated(CounterOp::CloneShared, n),
        repeated(CounterOp::ReleaseShared, (n + 1) as nat),
    );
}

/// Law: while the exclusive borrow is outstanding (the counter is at the
/// sentinel), no shared borrow — fresh or cloned — is granted.
pub proof fn lemma_no_shared_while_exclusive(op: CounterOp)
    requires
        op is IssueShared || op is CloneShared,
    ensures
        step(sentinel(), op) is None,
{
}

/// Law: the exclusive borrow is granted exactly when no borrow of any
/// kind is outstanding.
pub proof fn lemma_exclusive_needs_free_counter(c: usize)
    ensures
        step(c, CounterOp::IssueExclusive) is Some <==> is_free(c),
{
}

} // verus!
