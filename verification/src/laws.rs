//! What holds of every teardown, whatever the peer and the system do.

use crate::teardown::{action_at, after, rank, reads, start, step, total, Action, Phase, State};
use vstd::prelude::*;

verus! {

/// A teardown never goes back to an earlier phase, and it never changes the
/// descriptor that it works on.
pub proof fn lemma_phase_only_advances(s: State, outcomes: Seq<Result<usize, i32>>, i: int, j: int)
    requires
        0 <= i <= j <= outcomes.len(),
    ensures
        rank(after(s, outcomes.take(i)).phase) <= rank(after(s, outcomes.take(j)).phase),
        after(s, outcomes.take(j)).fd == s.fd,
    decreases j,
{
    if j == 0 {
        assert(outcomes.take(0).len() == 0);
    } else {
        assert(outcomes.take(j).drop_last() =~= outcomes.take(j - 1));
        if i < j {
            lemma_phase_only_advances(s, outcomes, i, j - 1);
        } else {
            lemma_phase_only_advances(s, outcomes, j - 1, j - 1);
        }
    }
}

/// Once a teardown is released it stays released: no outcome makes it ask
/// for another operation on the descriptor.
pub proof fn lemma_released_is_final(s: State, outcomes: Seq<Result<usize, i32>>, i: int)
    requires
        s.phase == Phase::Released,
        0 <= i < outcomes.len(),
    ensures
        after(s, outcomes) == s,
        action_at(s, outcomes, i) == Action::Done,
{
    lemma_released_stays(s, outcomes);
    lemma_released_stays(s, outcomes.take(i));
}

proof fn lemma_released_stays(s: State, outcomes: Seq<Result<usize, i32>>)
    requires
        s.phase == Phase::Released,
    ensures
        after(s, outcomes) == s,
    decreases outcomes.len(),
{
    if outcomes.len() > 0 {
        lemma_released_stays(s, outcomes.drop_last());
    }
}

/// The shutdown of the write direction is asked for only at the start: no
/// step of a teardown asks for it again.
pub proof fn lemma_half_close_once(s: State, outcomes: Seq<Result<usize, i32>>, i: int)
    requires
        0 <= i < outcomes.len(),
    ensures
        action_at(s, outcomes, i) != Action::ShutdownWrite,
{
}

/// The close is the last operation on the descriptor and is asked for once:
/// every action after it is `Done`, and every action before it, from the
/// start of the teardown, was a read.
pub proof fn lemma_close_is_last(fd: i32, outcomes: Seq<Result<usize, i32>>, i: int, j: int)
    requires
        0 <= i < outcomes.len(),
        0 <= j < outcomes.len(),
        i != j,
        action_at(start(fd), outcomes, i) == Action::Close,
    ensures
        i < j ==> action_at(start(fd), outcomes, j) == Action::Done,
        j < i ==> action_at(start(fd), outcomes, j) == Action::Read,
{
    let s = start(fd);
    assert(after(s, outcomes.take(i)).phase == Phase::Draining);
    if i < j {
        assert(outcomes.take(i + 1).drop_last() =~= outcomes.take(i));
        assert(outcomes.take(i + 1).last() == outcomes[i]);
        assert(after(s, outcomes.take(i + 1)).phase == Phase::Closing);
        lemma_phase_only_advances(s, outcomes, i + 1, j);
    } else {
        assert(outcomes.take(j + 1).drop_last() =~= outcomes.take(j));
        assert(outcomes.take(j + 1).last() == outcomes[j]);
        lemma_phase_only_advances(s, outcomes, j + 1, i);
    }
}

/// A teardown ends: the close is asked for at the first read that returns
/// nothing or fails, and one more outcome releases the descriptor.
pub proof fn lemma_drain_ends(s: State, outcome: Result<usize, i32>, last: Result<usize, i32>)
    requires
        s.phase == Phase::Draining,
        outcome is Err || outcome == Ok::<usize, i32>(0),
    ensures
        step(s, outcome).1 == Action::Close,
        step(s, outcome).0.drained == s.drained,
        step(step(s, outcome).0, last).0.phase == Phase::Released,
{
}

/// Draining discards all that the peer still sends: after reads of the given
/// counts, each of one byte or more, the teardown is still draining, has
/// asked for a read each time, and has counted exactly their sum.
pub proof fn lemma_drain_consumes_all(s: State, chunks: Seq<usize>)
    requires
        s.phase == Phase::Draining,
        forall|k: int| 0 <= k < chunks.len() ==> chunks[k] > 0,
        s.drained + total(chunks) <= usize::MAX,
    ensures
        after(s, reads(chunks)) == (State { drained: (s.drained + total(chunks)) as usize, ..s }),
        forall|k: int| 0 <= k < chunks.len() ==> action_at(s, reads(chunks), k) == Action::Read,
    decreases chunks.len(),
{
    if chunks.len() > 0 {
        let front = chunks.drop_last();
        assert(reads(chunks).drop_last() =~= reads(front));
        lemma_drain_consumes_all(s, front);
        assert forall|k: int| 0 <= k < chunks.len() implies action_at(s, reads(chunks), k)
            == Action::Read by {
            let part = chunks.take(k);
            assert(reads(chunks).take(k) =~= reads(part));
            lemma_total_of_prefix(chunks, k);
            lemma_drain_consumes_all(s, part);
        }
    }
}

/// Outcomes may be fed in two runs, one after the other: the state is the
/// same as after the one run of both.
pub proof fn lemma_after_concat(
    s: State,
    first: Seq<Result<usize, i32>>,
    second: Seq<Result<usize, i32>>,
)
    ensures
        after(s, first + second) == after(after(s, first), second),
    decreases second.len(),
{
    if second.len() == 0 {
        assert(first + second =~= first);
    } else {
        assert((first + second).drop_last() =~= first + second.drop_last());
        lemma_after_concat(s, first, second.drop_last());
    }
}

/// The whole teardown with a peer that is still sending: whatever the
/// shutdown and the close report, if the reads give the peer's bytes in
/// pieces of one byte or more and then the end of the stream, the teardown
/// asks for the close in answer to that last read and not before, ends
/// released, and has discarded exactly what the peer sent.
pub proof fn lemma_teardown_of_sending_peer(
    fd: i32,
    shut: Result<usize, i32>,
    chunks: Seq<usize>,
    closed: Result<usize, i32>,
)
    requires
        forall|k: int| 0 <= k < chunks.len() ==> chunks[k] > 0,
        total(chunks) <= usize::MAX,
    ensures
        ({
            let outcomes = seq![shut] + reads(chunks) + seq![Ok::<usize, i32>(0), closed];
            let n = chunks.len() as int;
            &&& after(start(fd), outcomes) == (State {
                fd,
                phase: Phase::Released,
                drained: total(chunks) as usize,
            })
            &&& forall|k: int| 0 <= k <= n ==> action_at(start(fd), outcomes, k) == Action::Read
            &&& action_at(start(fd), outcomes, n + 1) == Action::Close
            &&& action_at(start(fd), outcomes, n + 2) == Action::Done
        }),
{
    let head = seq![shut];
    let tail = seq![Ok::<usize, i32>(0), closed];
    let outcomes = head + reads(chunks) + tail;
    let n = chunks.len() as int;
    let s0 = start(fd);
    let s1 = State { phase: Phase::Draining, ..s0 };
    let s2 = State { drained: total(chunks) as usize, ..s1 };
    assert(head.drop_last() =~= Seq::<Result<usize, i32>>::empty());
    assert(after(s0, head.drop_last()) == s0);
    assert(after(s0, head) == s1);
    lemma_drain_consumes_all(s1, chunks);
    lemma_after_concat(s0, head, reads(chunks));
    assert(after(s0, head + reads(chunks)) == s2);
    assert(outcomes.take(n + 1) =~= head + reads(chunks));
    assert(outcomes.take(n + 2).drop_last() =~= outcomes.take(n + 1));
    assert(outcomes.take(n + 2).last() == outcomes[n + 1]);
    assert(outcomes.drop_last() =~= outcomes.take(n + 2));
    assert forall|k: int| 0 <= k <= n implies action_at(s0, outcomes, k) == Action::Read by {
        if k == 0 {
            assert(outcomes.take(0) =~= Seq::<Result<usize, i32>>::empty());
        } else {
            assert(outcomes.take(k) =~= head + reads(chunks).take(k - 1));
            lemma_after_concat(s0, head, reads(chunks).take(k - 1));
            if k <= n - 1 {
                assert(action_at(s1, reads(chunks), k - 1) == Action::Read);
                assert(outcomes[k] == reads(chunks)[k - 1]);
            } else {
                assert(reads(chunks).take(n) =~= reads(chunks));
            }
        }
    }
}

/// The counts of a prefix of a run of reads sum to no more than those of the
/// whole run.
pub proof fn lemma_total_of_prefix(chunks: Seq<usize>, k: int)
    requires
        0 <= k <= chunks.len(),
    ensures
        total(chunks.take(k)) <= total(chunks),
    decreases chunks.len(),
{
    if k == chunks.len() {
        assert(chunks.take(k) =~= chunks);
    } else {
        assert(chunks.drop_last().take(k) =~= chunks.take(k));
        lemma_total_of_prefix(chunks.drop_last(), k);
    }
}

} // verus!
