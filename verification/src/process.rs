//! Process ranking: deriving per-process summaries from raw counters and
//! ordering them by CPU usage.
//!
//! The ranking sorts by CPU percentage, highest first, breaks ties by
//! ascending process id so the output is deterministic, and truncates to
//! the configured limit. It is a pure function of the process table it
//! is handed; reading that table from the operating system is an outside
//! concern.

use vstd::prelude::*;
use vstd::multiset::Multiset;
use crate::metrics::{percent_hundredths, percent_of};

verus! {

broadcast use vstd::seq_lib::group_to_multiset_ensures;

/// Raw counters of one running process, as the process table reports
/// them: CPU usage already a percentage in hundredths of a percent,
/// memory as a plain byte count.
#[derive(Debug, Clone, PartialEq)]
pub struct ProcessRecord {
    pub pid: u32,
    pub name: String,
    pub cpu_percent: u64,
    pub memory_bytes: u64,
}

/// Derived summary of one process: CPU and memory usage both as
/// percentages in hundredths of a percent.
#[derive(Debug, Clone, PartialEq)]
pub struct ProcessInfo {
    pub pid: u32,
    pub name: String,
    pub cpu_percent: u64,
    pub memory_percent: u64,
}

/// The summary a raw process record derives to, against the host's
/// total memory.
pub open spec fn summary_of(p: ProcessRecord, total_memory: u64) -> ProcessInfo {
    ProcessInfo {
        pid: p.pid,
        name: p.name,
        cpu_percent: p.cpu_percent,
        memory_percent: percent_hundredths(p.memory_bytes, total_memory),
    }
}

/// The summaries of a whole process table.
pub open spec fn summaries_of(s: Seq<ProcessRecord>, total_memory: u64) -> Seq<ProcessInfo> {
    s.map_values(|p: ProcessRecord| summary_of(p, total_memory))
}

/// Ranking order: `a` comes no later than `b` when its CPU share is
/// higher, or equal with a process id no larger.
pub open spec fn rank_le(a: ProcessInfo, b: ProcessInfo) -> bool {
    a.cpu_percent > b.cpu_percent || (a.cpu_percent == b.cpu_percent && a.pid <= b.pid)
}

/// A sequence is ranked when every pair of positions respects the
/// ranking order; in particular CPU percentages are non-increasing.
pub open spec fn ranked(s: Seq<ProcessInfo>) -> bool {
    forall|i: int, j: int| 0 <= i < j < s.len() ==> rank_le(#[trigger] s[i], #[trigger] s[j])
}

/// Inserts one summary into a ranked list, keeping it ranked; the
/// contents grow by exactly that summary.
fn sorted_insert(v: &mut Vec<ProcessInfo>, x: ProcessInfo)
    requires
        ranked(old(v)@),
    ensures
        ranked(final(v)@),
        final(v)@.to_multiset() == old(v)@.to_multiset().insert(x),
        final(v)@.len() == old(v)@.len() + 1,
{
    let n = v.len();
    let mut i: usize = 0;
    while i < n && (v[i].cpu_percent > x.cpu_percent || (v[i].cpu_percent == x.cpu_percent
        && v[i].pid <= x.pid))
        invariant
            i <= n,
            n == v@.len(),
            ranked(v@),
            forall|j: int| 0 <= j < i ==> rank_le(#[trigger] v@[j], x),
        decreases n - i,
    {
        i = i + 1;
    }
    let ghost before = v@;
    v.insert(i, x);
    proof {
        let t = before.insert(i as int, x);
        before.insert_ensures(i as int, x);
        assert(t.remove(i as int) =~= before);
        assert(t[i as int] == x);
        assert(t.to_multiset().remove(x) =~= before.to_multiset());
        assert(t.contains(x));
        assert(t.to_multiset().count(x) > 0);
        assert(t.to_multiset() =~= before.to_multiset().insert(x));
        assert forall|p: int, q: int| 0 <= p < q < t.len() implies rank_le(t[p], t[q]) by {
            if q < i {
                assert(t[p] == before[p] && t[q] == before[q]);
            } else if p < i && q == i {
                assert(t[p] == before[p] && rank_le(before[p], x));
            } else if p < i && q > i {
                assert(t[p] == before[p] && t[q] == before[q - 1]);
            } else if p == i {
                assert(t[q] == before[q - 1]);
                if i < n {
                    assert(rank_le(x, before[i as int]));
                    if q - 1 > i {
                        assert(rank_le(before[i as int], before[q - 1]));
                    }
                }
            } else {
                assert(t[p] == before[p - 1] && t[q] == before[q - 1]);
            }
        }
    }
}

/// Sorts summaries into ranking order; the result holds exactly the
/// given summaries.
pub fn sort_ranked(v: Vec<ProcessInfo>) -> (r: Vec<ProcessInfo>)
    ensures
        ranked(r@),
        r@.to_multiset() == v@.to_multiset(),
        r@.len() == v@.len(),
{
    let ghost orig = v@;
    let mut rest = v;
    let mut out: Vec<ProcessInfo> = Vec::new();
    while rest.len() > 0
        invariant
            ranked(out@),
            out@.to_multiset().add(rest@.to_multiset()) == orig.to_multiset(),
            out@.len() + rest@.len() == orig.len(),
        decreases rest@.len(),
    {
        let ghost rest_before = rest@;
        let ghost out_before = out@;
        let x = rest.pop().unwrap();
        proof {
            assert(rest_before.drop_last() =~= rest_before.remove(rest_before.len() - 1));
            assert(rest@.to_multiset() =~= rest_before.to_multiset().remove(x));
            assert(rest_before.to_multiset().count(x) > 0);
        }
        sorted_insert(&mut out, x);
        proof {
            assert(out@.to_multiset().add(rest@.to_multiset()) =~= orig.to_multiset());
        }
    }
    proof {
        assert(rest@.to_multiset() =~= Multiset::<ProcessInfo>::empty());
        assert(out@.to_multiset() =~= orig.to_multiset());
    }
    out
}

/// The transformer from the raw process table to the bounded, CPU-sorted
/// list of summaries.
pub struct ProcessRanker;

impl ProcessRanker {
    /// Derives a summary per process, sorts by CPU share (highest first,
    /// ties by ascending pid) and keeps the first `limit` entries: the
    /// result is a prefix of a ranked permutation of the derived
    /// summaries, of length `min(limit, number of processes)`.
    pub fn rank(processes: &Vec<ProcessRecord>, total_memory: u64, limit: usize) -> (r: Vec<
        ProcessInfo,
    >)
        ensures
            r@.len() == if (limit as int) < processes@.len() {
                limit as int
            } else {
                processes@.len() as int
            },
            ranked(r@),
            forall|i: int, j: int|
                0 <= i < j < r@.len() ==> (#[trigger] r@[i]).cpu_percent >= (
                #[trigger] r@[j]).cpu_percent,
            exists|s: Seq<ProcessInfo>|
                ranked(s) && s.to_multiset() == summaries_of(processes@, total_memory).to_multiset()
                    && r@ == s.take(r@.len() as int),
    {
        let n = processes.len();
        let mut derived: Vec<ProcessInfo> = Vec::new();
        let mut i: usize = 0;
        while i < n
            invariant
                i <= n,
                n == processes@.len(),
                derived@ == summaries_of(processes@.take(i as int), total_memory),
            decreases n - i,
        {
            let p = &processes[i];
            let memory_percent = percent_of(p.memory_bytes, total_memory);
            let summary = ProcessInfo {
                pid: p.pid,
                name: p.name.clone(),
                cpu_percent: p.cpu_percent,
                memory_percent,
            };
            derived.push(summary);
            proof {
                assert(derived@ =~= summaries_of(processes@.take(i + 1), total_memory));
            }
            i = i + 1;
        }
        proof {
            assert(processes@.take(n as int) =~= processes@);
        }
        let mut sorted = sort_ranked(derived);
        let ghost full = sorted@;
        if limit < sorted.len() {
            sorted.truncate(limit);
        }
        proof {
            if limit as int >= full.len() {
                assert(sorted@ =~= full.take(sorted@.len() as int));
            }
            assert(ranked(sorted@));
            assert(sorted@ == full.take(sorted@.len() as int));
        }
        sorted
    }
}

} // verus!
