//! The outbound result schema: per-player outcomes keyed by backend user
//! id, network-stall telemetry, and the projection of the unordered
//! results map into the explicitly ordered report sent to the backend.

use vstd::prelude::*;

use crate::bw::{AssignedRace, VictoryState};

verus! {

/// Outcome of one player: victory state, the race the player ended up
/// with, and actions per minute.
#[derive(Copy, Clone, Debug, PartialEq, Eq, Structural)]
pub struct GamePlayerResult {
    pub result: VictoryState,
    pub race: AssignedRace,
    pub apm: u32,
}

/// Count, minimum, maximum and median of the network stalls observed
/// during the match; the latency time series itself stays outside this
/// layer.
#[derive(Copy, Clone, Debug, PartialEq, Eq, Structural)]
pub struct NetworkStallInfo {
    pub count: u32,
    pub min: u32,
    pub max: u32,
    pub median: u32,
}

/// Unordered per-player results, keyed by backend user id. Holds a hash
/// map of an outside crate; `results_of` gives its contents.
#[verifier::external_body]
pub struct PlayerResults {
    map: hashbrown::HashMap<u32, GamePlayerResult>,
}

/// The contents of a per-player results map.
pub uninterp spec fn results_of(m: PlayerResults) -> Map<u32, GamePlayerResult>;

/// The contents of a results map with no entries.
pub open spec fn empty_results() -> Map<u32, GamePlayerResult> {
    Map::empty()
}

impl PlayerResults {
    /// Relies on hashbrown's `HashMap::new`: the new map is empty.
    #[verifier::external_body]
    pub fn new() -> (r: PlayerResults)
        ensures
            results_of(r) == empty_results(),
    {
        PlayerResults { map: hashbrown::HashMap::new() }
    }

    /// Relies on hashbrown's `HashMap::insert`: the key maps to the value
    /// afterwards, any earlier value for it replaced, other keys
    /// untouched.
    #[verifier::external_body]
    pub fn insert(&mut self, key: u32, value: GamePlayerResult)
        ensures
            results_of(*final(self)) == results_of(*old(self)).insert(key, value),
    {
        self.map.insert(key, value);
    }

    /// Relies on hashbrown's `HashMap::iter`: every key-value pair of the
    /// map is produced exactly once, in arbitrary order; no order is
    /// promised here.
    #[verifier::external_body]
    pub fn pairs(&self) -> (r: Vec<(u32, GamePlayerResult)>)
        ensures
            forall|i: int, j: int|
                0 <= i < j < r@.len() ==> (#[trigger] r@[i]).0 != (#[trigger] r@[j]).0,
            forall|i: int|
                0 <= i < r@.len() ==> results_of(*self).contains_key((#[trigger] r@[i]).0)
                    && results_of(*self)[r@[i].0] == r@[i].1,
            forall|k: u32|
                results_of(*self).contains_key(k) ==> exists|i: int|
                    0 <= i < r@.len() && (#[trigger] r@[i]).0 == k,
    {
        self.map.iter().map(|(k, v)| (*k, *v)).collect()
    }
}

/// The internal, unordered form of a match's outcome.
pub struct GameResults {
    pub time_ms: u64,
    pub results: PlayerResults,
    pub network_stalls: NetworkStallInfo,
}

/// The outbound report: the same outcome keyed by the correlating
/// identifiers the backend uses, with the results as an explicitly
/// ordered list, since the order of the report must be stable while map
/// iteration order is not.
#[derive(Clone, Debug)]
pub struct GameResultsReport {
    pub user_id: u32,
    pub result_code: String,
    pub time: u64,
    pub player_results: Vec<(u32, GamePlayerResult)>,
}

/// The list's user ids are strictly ascending.
pub open spec fn sorted_by_user_id(l: Seq<(u32, GamePlayerResult)>) -> bool {
    forall|i: int, j: int| 0 <= i < j < l.len() ==> (#[trigger] l[i]).0 < (#[trigger] l[j]).0
}

/// The list and the map hold exactly the same user-id/result pairs.
pub open spec fn list_matches_results(
    l: Seq<(u32, GamePlayerResult)>,
    m: Map<u32, GamePlayerResult>,
) -> bool {
    &&& forall|i: int|
        0 <= i < l.len() ==> m.contains_key((#[trigger] l[i]).0) && m[l[i].0] == l[i].1
    &&& forall|k: u32| m.contains_key(k) ==> exists|i: int| 0 <= i < l.len() && (#[trigger] l[i]).0 == k
}

/// Orders the pairs of an unordered results map ascending by user id.
fn sort_pairs(input: Vec<(u32, GamePlayerResult)>, Ghost(m): Ghost<Map<u32, GamePlayerResult>>) -> (r:
    Vec<(u32, GamePlayerResult)>)
    requires
        forall|i: int, j: int|
            0 <= i < j < input@.len() ==> (#[trigger] input@[i]).0 != (#[trigger] input@[j]).0,
        list_matches_results(input@, m),
    ensures
        sorted_by_user_id(r@),
        list_matches_results(r@, m),
{
    let mut rest = input;
    let mut out: Vec<(u32, GamePlayerResult)> = Vec::new();
    while rest.len() > 0
        invariant
            forall|i: int, j: int|
                0 <= i < j < rest@.len() ==> (#[trigger] rest@[i]).0 != (#[trigger] rest@[j]).0,
            sorted_by_user_id(out@),
            forall|i: int, j: int|
                0 <= i < out@.len() && 0 <= j < rest@.len() ==> (#[trigger] out@[i]).0 < (
                #[trigger] rest@[j]).0,
            forall|i: int|
                0 <= i < out@.len() ==> m.contains_key((#[trigger] out@[i]).0) && m[out@[i].0]
                    == out@[i].1,
            forall|i: int|
                0 <= i < rest@.len() ==> m.contains_key((#[trigger] rest@[i]).0) && m[rest@[i].0]
                    == rest@[i].1,
            forall|k: u32|
                m.contains_key(k) ==> (exists|i: int|
                    0 <= i < out@.len() && (#[trigger] out@[i]).0 == k) || (exists|i: int|
                    0 <= i < rest@.len() && (#[trigger] rest@[i]).0 == k),
        decreases rest@.len(),
    {
        let mut mi: usize = 0;
        let mut j: usize = 1;
        while j < rest.len()
            invariant
                0 <= mi < j <= rest@.len(),
                rest@.len() > 0,
                forall|i: int| 0 <= i < j ==> (#[trigger] rest@[i]).0 >= rest@[mi as int].0,
            decreases rest@.len() - j,
        {
            if rest[j].0 < rest[mi].0 {
                mi = j;
            }
            j = j + 1;
        }
        let ghost old_rest = rest@;
        let ghost old_out = out@;
        let p = rest.remove(mi);
        out.push(p);
        proof {
            assert forall|i: int, j2: int|
                0 <= i < j2 < rest@.len() implies (#[trigger] rest@[i]).0 != (
            #[trigger] rest@[j2]).0 by {
                let oi = if i < mi { i } else { i + 1 };
                let oj = if j2 < mi { j2 } else { j2 + 1 };
                assert(rest@[i] == old_rest[oi]);
                assert(rest@[j2] == old_rest[oj]);
            }
            assert forall|i: int| 0 <= i < rest@.len() implies m.contains_key(
                (#[trigger] rest@[i]).0,
            ) && m[rest@[i].0] == rest@[i].1 by {
                let oi = if i < mi { i } else { i + 1 };
                assert(rest@[i] == old_rest[oi]);
            }
            assert forall|i: int, j2: int|
                0 <= i < out@.len() && 0 <= j2 < rest@.len() implies (#[trigger] out@[i]).0 < (
            #[trigger] rest@[j2]).0 by {
                let oj = if j2 < mi { j2 } else { j2 + 1 };
                assert(rest@[j2] == old_rest[oj]);
                if i < out@.len() - 1 {
                    assert(out@[i] == old_out[i]);
                } else {
                    assert(out@[i] == p);
                    assert(old_rest[oj].0 >= p.0);
                    assert(old_rest[oj].0 != p.0);
                }
            }
            assert forall|k: u32| m.contains_key(k) implies (exists|i: int|
                0 <= i < out@.len() && (#[trigger] out@[i]).0 == k) || (exists|i: int|
                0 <= i < rest@.len() && (#[trigger] rest@[i]).0 == k) by {
                if exists|i: int| 0 <= i < old_out.len() && (#[trigger] old_out[i]).0 == k {
                    let i = choose|i: int| 0 <= i < old_out.len() && (#[trigger] old_out[i]).0 == k;
                    assert(out@[i].0 == k);
                } else {
                    let i = choose|i: int|
                        0 <= i < old_rest.len() && (#[trigger] old_rest[i]).0 == k;
                    if i == mi {
                        assert(out@[out@.len() - 1].0 == k);
                    } else if i < mi {
                        assert(rest@[i].0 == k);
                    } else {
                        assert(rest@[i - 1].0 == k);
                    }
                }
            }
        }
    }
    out
}

impl GameResultsReport {
    /// Builds the outbound report from the correlating identifiers and
    /// the internal outcome. The unordered results map becomes an
    /// explicitly ordered list, ascending by user id, so that the same
    /// outcome always yields the same report.
    pub fn build(user_id: u32, result_code: String, results: &GameResults) -> (r: GameResultsReport)
        ensures
            r.user_id == user_id,
            r.result_code == result_code,
            r.time == results.time_ms,
            sorted_by_user_id(r.player_results@),
            list_matches_results(r.player_results@, results_of(results.results)),
    {
        let pairs = results.results.pairs();
        let player_results = sort_pairs(pairs, Ghost(results_of(results.results)));
        GameResultsReport { user_id, result_code, time: results.time_ms, player_results }
    }
}

/// The results map a report's ordered list rebuilds to: later entries
/// win, as map insertion does.
pub open spec fn results_of_list(l: Seq<(u32, GamePlayerResult)>) -> Map<u32, GamePlayerResult>
    decreases l.len(),
{
    if l.len() == 0 {
        Map::empty()
    } else {
        results_of_list(l.drop_last()).insert(l.last().0, l.last().1)
    }
}

/// Rebuilds the internal unordered results map from a report's ordered
/// list: the symmetric inbound form of the outbound projection.
pub fn results_from_list(l: &Vec<(u32, GamePlayerResult)>) -> (r: PlayerResults)
    ensures
        results_of(r) == results_of_list(l@),
{
    let mut out = PlayerResults::new();
    let mut idx: usize = 0;
    while idx < l.len()
        invariant
            0 <= idx <= l@.len(),
            results_of(out) == results_of_list(l@.take(idx as int)),
        decreases l@.len() - idx,
    {
        let p = l[idx];
        out.insert(p.0, p.1);
        proof {
            assert(l@.take(idx as int + 1).drop_last() =~= l@.take(idx as int));
            assert(l@.take(idx as int + 1).last() == l@[idx as int]);
        }
        idx = idx + 1;
    }
    proof {
        assert(l@.take(l@.len() as int) =~= l@);
    }
    out
}

/// A key is in the rebuilt map exactly when some list entry carries it,
/// and then the map holds one such entry's value.
proof fn lemma_results_of_list_contains(l: Seq<(u32, GamePlayerResult)>, k: u32)
    ensures
        results_of_list(l).contains_key(k) <==> (exists|i: int|
            0 <= i < l.len() && (#[trigger] l[i]).0 == k),
        results_of_list(l).contains_key(k) ==> exists|i: int|
            0 <= i < l.len() && (#[trigger] l[i]).0 == k && results_of_list(l)[k] == l[i].1,
    decreases l.len(),
{
    if l.len() > 0 {
        lemma_results_of_list_contains(l.drop_last(), k);
        if l.last().0 == k {
            assert(l[l.len() - 1].0 == k);
        } else if results_of_list(l).contains_key(k) {
            let i = choose|i: int|
                0 <= i < l.drop_last().len() && (#[trigger] l.drop_last()[i]).0 == k
                    && results_of_list(l.drop_last())[k] == l.drop_last()[i].1;
            assert(l[i].0 == k && results_of_list(l)[k] == l[i].1);
        } else {
            assert forall|i: int| 0 <= i < l.len() implies (#[trigger] l[i]).0 != k by {
                if i < l.len() - 1 {
                    assert(l.drop_last()[i] == l[i]);
                }
            }
        }
    }
}

/// Round trip: rebuilding the internal map from any list that matches a
/// results map — the report's ordered list in particular — recovers that
/// map exactly.
pub proof fn lemma_report_round_trip(l: Seq<(u32, GamePlayerResult)>, m: Map<u32, GamePlayerResult>)
    requires
        list_matches_results(l, m),
    ensures
        results_of_list(l) =~= m,
{
    assert forall|k: u32|
        results_of_list(l).contains_key(k) <==> m.contains_key(k) by {
        lemma_results_of_list_contains(l, k);
    }
    assert forall|k: u32| m.contains_key(k) implies results_of_list(l)[k] == m[k] by {
        lemma_results_of_list_contains(l, k);
        let i = choose|i: int|
            0 <= i < l.len() && (#[trigger] l[i]).0 == k && results_of_list(l)[k] == l[i].1;
        assert(m.contains_key(l[i].0) && m[l[i].0] == l[i].1);
    }
}

/// Order stability: one results map has exactly one ascending list, so
/// re-projecting a rebuilt map yields the original report list, order
/// included.
pub proof fn lemma_report_list_unique(
    l1: Seq<(u32, GamePlayerResult)>,
    l2: Seq<(u32, GamePlayerResult)>,
    m: Map<u32, GamePlayerResult>,
)
    requires
        sorted_by_user_id(l1),
        sorted_by_user_id(l2),
        list_matches_results(l1, m),
        list_matches_results(l2, m),
    ensures
        l1 =~= l2,
    decreases l1.len(),
{
    if l1.len() == 0 {
        assert(l2.len() == 0) by {
            if l2.len() > 0 {
                assert(m.contains_key(l2[0].0));
            }
        }
    } else {
        assert(m.contains_key(l1[0].0));
        let j = choose|j: int| 0 <= j < l2.len() && (#[trigger] l2[j]).0 == l1[0].0;
        assert(j == 0) by {
            if j > 0 {
                assert(l2[0].0 < l2[j].0);
                assert(m.contains_key(l2[0].0));
                let i = choose|i: int| 0 <= i < l1.len() && (#[trigger] l1[i]).0 == l2[0].0;
                if i > 0 {
                    assert(l1[0].0 < l1[i].0);
                }
            }
        }
        assert(l1[0].1 == m[l1[0].0] && l2[0].1 == m[l2[0].0]);
        assert(l1[0] == l2[0]);
        let mt = m.remove(l1[0].0);
        let t1 = l1.drop_first();
        let t2 = l2.drop_first();
        assert forall|i: int|
            0 <= i < t1.len() implies mt.contains_key((#[trigger] t1[i]).0) && mt[t1[i].0]
            == t1[i].1 by {
            assert(t1[i] == l1[i + 1]);
            assert(l1[0].0 < l1[i + 1].0);
        }
        assert forall|i: int|
            0 <= i < t2.len() implies mt.contains_key((#[trigger] t2[i]).0) && mt[t2[i].0]
            == t2[i].1 by {
            assert(t2[i] == l2[i + 1]);
            assert(l2[0].0 < l2[i + 1].0);
        }
        assert forall|k: u32| mt.contains_key(k) implies exists|i: int|
            0 <= i < t1.len() && (#[trigger] t1[i]).0 == k by {
            let i = choose|i: int| 0 <= i < l1.len() && (#[trigger] l1[i]).0 == k;
            assert(i != 0);
            assert(t1[i - 1].0 == k);
        }
        assert forall|k: u32| mt.contains_key(k) implies exists|i: int|
            0 <= i < t2.len() && (#[trigger] t2[i]).0 == k by {
            let i = choose|i: int| 0 <= i < l2.len() && (#[trigger] l2[i]).0 == k;
            assert(i != 0);
            assert(t2[i - 1].0 == k);
        }
        lemma_report_list_unique(t1, t2, mt);
        assert forall|i: int| 0 <= i < l1.len() implies l1[i] == l2[i] by {
            if i > 0 {
                assert(t1[i - 1] == t2[i - 1]);
            }
        }
    }
}

} // verus!
