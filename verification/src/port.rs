//! Choosing the port to bind.
//!
//! Starting at the configured port, consecutive ports are probed by trying
//! to connect to them. The first port where nothing answers is chosen. The
//! probe is a heuristic: another process may take the port between the probe
//! and the bind, and the bind then fails in its own right.

use vstd::prelude::*;

verus! {

/// How many ports are probed before the search gives up, unless the caller
/// says otherwise.
pub const MAX_ATTEMPTS: usize = 100;

/// How long one probe waits for an answer, in milliseconds.
pub const PROBE_TIMEOUT_MS: u64 = 150;

/// What probing one port showed.
#[derive(Clone, Copy, Debug, PartialEq, Eq, Structural)]
pub enum Probe {
    /// Nothing accepted the connection: the port is free.
    Free,
    /// Something accepted the connection: the port is taken.
    Occupied,
    /// Host and port do not make a socket address, so nothing was tried.
    Unusable,
}

/// The port probed at the given attempt: the base port plus the number of
/// the attempt, held at 65535.
pub open spec fn candidate(base: u16, attempt: int) -> u16 {
    if base + attempt > 0xFFFF {
        0xFFFFu16
    } else {
        (base + attempt) as u16
    }
}

/// The number of the first attempt at or after `from` that found a free
/// port; the number of outcomes where there is none.
pub open spec fn first_free_from(outcomes: Seq<Probe>, from: int) -> int
    decreases outcomes.len() - from,
{
    if from < 0 || from >= outcomes.len() {
        outcomes.len() as int
    } else if outcomes[from] == Probe::Free {
        from
    } else {
        first_free_from(outcomes, from + 1)
    }
}

/// The number of the first attempt that found a free port.
pub open spec fn first_free(outcomes: Seq<Probe>) -> int {
    first_free_from(outcomes, 0)
}

/// The outcomes that count: the first `limit` of them.
pub open spec fn counted(outcomes: Seq<Probe>, limit: nat) -> Seq<Probe> {
    if outcomes.len() > limit {
        outcomes.take(limit as int)
    } else {
        outcomes
    }
}

/// The port chosen after the given outcomes, one for each attempt in order,
/// where `limit` attempts are allowed: the candidate of the first attempt
/// among these that found its port free, and the base port itself where
/// there is none.
pub open spec fn select_port(base: u16, outcomes: Seq<Probe>, limit: nat) -> u16 {
    let seen = counted(outcomes, limit);
    if first_free(seen) < seen.len() {
        candidate(base, first_free(seen))
    } else {
        base
    }
}

/// `first_free_from` as a search result.
pub proof fn lemma_first_free_from(outcomes: Seq<Probe>, from: int)
    requires
        0 <= from <= outcomes.len(),
    ensures
        from <= first_free_from(outcomes, from) <= outcomes.len(),
        first_free_from(outcomes, from) < outcomes.len() ==> outcomes[first_free_from(
            outcomes,
            from,
        )] == Probe::Free,
        forall|j: int| from <= j < first_free_from(outcomes, from) ==> outcomes[j] != Probe::Free,
    decreases outcomes.len() - from,
{
    if from < outcomes.len() && outcomes[from] != Probe::Free {
        lemma_first_free_from(outcomes, from + 1);
    }
}

/// Outcomes without a free port from `from` on, followed by one more.
proof fn lemma_first_free_push(outcomes: Seq<Probe>, last: Probe, from: int)
    requires
        0 <= from <= outcomes.len(),
        first_free_from(outcomes, from) == outcomes.len(),
    ensures
        first_free_from(outcomes.push(last), from) == if last == Probe::Free {
            outcomes.len() as int
        } else {
            outcomes.len() as int + 1
        },
    decreases outcomes.len() - from,
{
    let all = outcomes.push(last);
    if from < outcomes.len() {
        assert(all[from] == outcomes[from]);
        lemma_first_free_push(outcomes, last, from + 1);
    } else {
        assert(all[from] == last);
        assert(first_free_from(all, from + 1) == all.len());
    }
}

/// The port after `port`, held at 65535.
fn next_port(port: u16) -> (next: u16)
    ensures
        next == if port == 0xFFFF {
            0xFFFFu16
        } else {
            (port + 1) as u16
        },
{
    if port == 0xFFFF {
        port
    } else {
        port + 1
    }
}

/// Chooses the port from outcomes already at hand, one for each attempt in
/// order. Outcomes after the first `max_attempts` are not looked at.
pub fn choose_port(base: u16, outcomes: &Vec<Probe>, max_attempts: usize) -> (port: u16)
    ensures
        port == select_port(base, outcomes@, max_attempts as nat),
{
    let limit: usize = if outcomes.len() > max_attempts {
        max_attempts
    } else {
        outcomes.len()
    };
    let ghost seen = counted(outcomes@, max_attempts as nat);
    assert(seen == outcomes@.take(limit as int));
    let mut port: u16 = base;
    let mut i: usize = 0;
    while i < limit
        invariant
            i <= limit <= outcomes.len(),
            seen == counted(outcomes@, max_attempts as nat),
            seen == outcomes@.take(limit as int),
            port == candidate(base, i as int),
            first_free(seen) == first_free_from(seen, i as int),
        decreases limit - i,
    {
        assert(seen[i as int] == outcomes@[i as int]);
        if outcomes[i] == Probe::Free {
            return port;
        }
        port = next_port(port);
        i += 1;
    }
    base
}

/// Whether `log` is a possible record of probing consecutive candidates from
/// `base` with `probe`.
pub open spec fn is_probe_log<F: Fn(u16) -> Probe>(probe: F, base: u16, log: Seq<Probe>) -> bool {
    forall|i: int|
        0 <= i < log.len() ==> call_ensures(probe, (candidate(base, i),), #[trigger] log[i])
}

/// Whether `port` is what a search from `base` with `probe` may come to
/// where `limit` attempts are allowed. There is a record of the probes made
/// that the search went by: it stops at the first free port, so it either
/// ends with the only free port in it, or holds `limit` outcomes none of
/// which is free; and `port` is the port chosen after it.
pub open spec fn is_search_result<F: Fn(u16) -> Probe>(
    probe: F,
    base: u16,
    limit: nat,
    port: u16,
) -> bool {
    exists|log: Seq<Probe>|
        {
            &&& #[trigger] is_probe_log(probe, base, log)
            &&& log.len() <= limit
            &&& first_free(log) == log.len() - 1 || (first_free(log) == log.len() && log.len()
                == limit)
            &&& port == select_port(base, log, limit)
        }
}

/// Probes consecutive ports from `base` with `probe` and returns the first
/// that is found free. After `max_attempts` attempts without a free port the
/// base port itself is returned, so that the bind which follows fails
/// openly.
pub fn find_available_port_within<F: Fn(u16) -> Probe>(
    base: u16,
    max_attempts: usize,
    probe: F,
) -> (port: u16)
    requires
        forall|p: u16| call_requires(probe, (p,)),
    ensures
        is_search_result(probe, base, max_attempts as nat, port),
{
    let mut candidate_port: u16 = base;
    let mut i: usize = 0;
    let ghost mut log: Seq<Probe> = Seq::empty();
    while i < max_attempts
        invariant
            i <= max_attempts,
            forall|p: u16| call_requires(probe, (p,)),
            log.len() == i,
            is_probe_log(probe, base, log),
            first_free(log) == log.len(),
            candidate_port == candidate(base, i as int),
        decreases max_attempts - i,
    {
        let outcome = probe(candidate_port);
        proof {
            lemma_first_free_push(log, outcome, 0);
            log = log.push(outcome);
        }
        if outcome == Probe::Free {
            assert(is_probe_log(probe, base, log));
            return candidate_port;
        }
        candidate_port = next_port(candidate_port);
        i += 1;
    }
    assert(is_probe_log(probe, base, log));
    base
}

/// Probes consecutive ports from `base` with `probe`, a hundred at most, and
/// returns the first that is found free; the base port where none is.
pub fn find_available_port<F: Fn(u16) -> Probe>(base: u16, probe: F) -> (port: u16)
    requires
        forall|p: u16| call_requires(probe, (p,)),
    ensures
        is_search_result(probe, base, MAX_ATTEMPTS as nat, port),
{
    find_available_port_within(base, MAX_ATTEMPTS, probe)
}

} // verus!
