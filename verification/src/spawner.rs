//! The spawn manager.
//!
//! For every spawn point with enough stored energy, the bot requests
//! production of one worker unit of a fixed body composition. The unit's
//! name is the current tick followed by a retry suffix; on a name
//! collision the suffix is incremented and the request retried, which
//! terminates because the name scheme is injective — at most as many
//! suffixes can collide as there are names in use.

use crate::names::{lemma_name_inj, lemma_seq_name_set_push, seq_name_set, spec_name};
use crate::world::{spec_body_cost, spec_part_cost, PartKind, ReturnCode, SpawnView};
use vstd::prelude::*;
use vstd::set_lib::lemma_len_subset;

verus! {

/// The fixed body composition of a produced worker unit.
pub open spec fn spec_worker_body() -> Seq<PartKind> {
    seq![PartKind::Move, PartKind::Move, PartKind::Carry, PartKind::Work]
}

/// The fixed body composition of a produced worker unit.
pub fn worker_body() -> (v: Vec<PartKind>)
    ensures
        v@ == spec_worker_body(),
{
    let mut v: Vec<PartKind> = Vec::new();
    v.push(PartKind::Move);
    v.push(PartKind::Move);
    v.push(PartKind::Carry);
    v.push(PartKind::Work);
    proof {
        assert(v@ =~= spec_worker_body());
    }
    v
}

/// The energy price of the worker body: the sum of its part costs.
pub proof fn lemma_worker_body_cost()
    ensures
        spec_body_cost(spec_worker_body()) == 250,
{
    let s4 = spec_worker_body();
    let s3 = s4.drop_last();
    let s2 = s3.drop_last();
    let s1 = s2.drop_last();
    let s0 = s1.drop_last();
    assert(s4.last() == PartKind::Work);
    assert(s3.len() == 3 && s3.last() == PartKind::Carry);
    assert(s2.len() == 2 && s2.last() == PartKind::Move);
    assert(s1.len() == 1 && s1.last() == PartKind::Move);
    assert(s0.len() == 0);
    assert(spec_body_cost(s0) == 0);
    assert(spec_body_cost(s1) == 50);
    assert(spec_body_cost(s2) == 100);
    assert(spec_body_cost(s3) == 150);
    assert(spec_body_cost(s4) == 250);
}

/// Total energy price of a body composition.
pub fn body_cost(body: &Vec<PartKind>) -> (c: u32)
    requires
        spec_body_cost(body@) <= u32::MAX,
    ensures
        c == spec_body_cost(body@),
{
    let n = body.len();
    let mut c: u32 = 0;
    let mut i: usize = 0;
    proof {
        assert(body@.take(0) =~= Seq::<PartKind>::empty());
    }
    while i < n
        invariant
            0 <= i <= n,
            n == body@.len(),
            spec_body_cost(body@) <= u32::MAX,
            c == spec_body_cost(body@.take(i as int)),
        decreases n - i,
    {
        proof {
            assert(body@.take(i as int + 1).drop_last() =~= body@.take(i as int));
            assert(body@.take(i as int + 1).last() == body@[i as int]);
            lemma_body_cost_prefix(body@, i as int + 1);
        }
        c = c + crate::world::part_cost(body[i]);
        i = i + 1;
    }
    proof {
        assert(body@.take(n as int) =~= body@);
    }
    c
}

/// A prefix of a body composition costs no more than the whole.
proof fn lemma_body_cost_prefix(s: Seq<PartKind>, i: int)
    requires
        0 <= i <= s.len(),
    ensures
        spec_body_cost(s.take(i)) <= spec_body_cost(s),
    decreases s.len() - i,
{
    if i < s.len() {
        assert(s.take(i + 1).drop_last() =~= s.take(i));
        assert(s.take(i + 1).last() == s[i]);
        lemma_body_cost_prefix(s, i + 1);
    } else {
        assert(s.take(i) =~= s);
    }
}

/// The names of the first `m` retry suffixes for tick `base`.
pub open spec fn name_prefix_set(base: nat, m: nat) -> Set<Seq<char>> {
    Set::new(|k: Seq<char>| exists|j: nat| j < m && k == spec_name(base, j))
}

/// There are exactly `m` such names: the scheme is injective.
proof fn lemma_name_prefix_card(base: nat, m: nat)
    ensures
        name_prefix_set(base, m).finite(),
        name_prefix_set(base, m).len() == m,
    decreases m,
{
    if m == 0 {
        assert(name_prefix_set(base, 0) =~= Set::<Seq<char>>::empty());
    } else {
        lemma_name_prefix_card(base, (m - 1) as nat);
        let prev = name_prefix_set(base, (m - 1) as nat);
        let fresh_name = spec_name(base, (m - 1) as nat);
        assert(!prev.contains(fresh_name)) by {
            if prev.contains(fresh_name) {
                let j = choose|j: nat| j < m - 1 && fresh_name == spec_name(base, j);
                lemma_name_inj(base, (m - 1) as nat, base, j);
            }
        }
        assert(name_prefix_set(base, m) =~= prev.insert(fresh_name)) by {
            assert forall|k: Seq<char>| name_prefix_set(base, m).contains(k) implies prev.insert(
                fresh_name,
            ).contains(k) by {
                let j = choose|j: nat| j < m && k == spec_name(base, j);
                if j < m - 1 {
                    assert(prev.contains(k));
                }
            }
            assert forall|k: Seq<char>| prev.insert(fresh_name).contains(k) implies name_prefix_set(
                base,
                m,
            ).contains(k) by {
                if prev.contains(k) {
                    let j = choose|j: nat| j < m - 1 && k == spec_name(base, j);
                    assert(j < m && k == spec_name(base, j));
                } else {
                    assert(k == spec_name(base, (m - 1) as nat));
                }
            }
        }
    }
}

/// A list of `n` names holds at most `n` distinct names.
proof fn lemma_seq_name_set_card(v: Seq<String>)
    ensures
        seq_name_set(v).finite(),
        seq_name_set(v).len() <= v.len(),
    decreases v.len(),
{
    if v.len() == 0 {
        assert(seq_name_set(v) =~= Set::<Seq<char>>::empty());
    } else {
        lemma_seq_name_set_card(v.drop_last());
        assert(v.drop_last().push(v.last()) =~= v);
        lemma_seq_name_set_push(v.drop_last(), v.last());
        assert(seq_name_set(v) =~= seq_name_set(v.drop_last()).insert(v.last()@));
    }
}

/// If every one of the first `m` suffixes collides with a name in use,
/// there are at least `m` names in use.
proof fn lemma_suffix_pigeonhole(base: nat, m: nat, taken: Seq<String>)
    requires
        forall|j: nat| j < m ==> seq_name_set(taken).contains(spec_name(base, j)),
    ensures
        m <= taken.len(),
{
    lemma_name_prefix_card(base, m);
    lemma_seq_name_set_card(taken);
    assert(name_prefix_set(base, m).subset_of(seq_name_set(taken))) by {
        assert forall|k: Seq<char>| name_prefix_set(base, m).contains(k) implies seq_name_set(
            taken,
        ).contains(k) by {
            let j = choose|j: nat| j < m && k == spec_name(base, j);
        }
    }
    lemma_len_subset(name_prefix_set(base, m), seq_name_set(taken));
}

/// Pick the unit name for tick `base`: the name with the smallest retry
/// suffix that collides with no name in use.
pub fn choose_name(base: u32, taken: &Vec<String>) -> (r: (u32, String))
    requires
        taken@.len() < u32::MAX,
    ensures
        r.1@ == spec_name(base as nat, r.0 as nat),
        !seq_name_set(taken@).contains(r.1@),
        forall|j: nat| j < r.0 ==> seq_name_set(taken@).contains(spec_name(base as nat, j)),
        r.0 <= taken@.len(),
{
    let mut k: u32 = 0;
    loop
        invariant
            taken@.len() < u32::MAX,
            k <= taken@.len(),
            forall|j: nat| j < k ==> seq_name_set(taken@).contains(spec_name(base as nat, j)),
        decreases taken@.len() - k,
    {
        let name = crate::names::render_name(base, k);
        if !crate::names::contains_name(taken, &name) {
            return (k, name);
        }
        proof {
            assert forall|j: nat| j < k + 1 implies seq_name_set(taken@).contains(
                spec_name(base as nat, j),
            ) by {
                if j == k {
                    assert(seq_name_set(taken@).contains(name@));
                }
            }
            lemma_suffix_pigeonhole(base as nat, (k + 1) as nat, taken@);
        }
        k = k + 1;
    }
}

/// One attempted production request: the first attempt whose name was not
/// already in use, so the one the host answered with something other than
/// a name collision.
pub struct SpawnAttempt {
    /// The requested unit name.
    pub name: String,
    /// Its retry suffix: how many name collisions preceded it.
    pub suffix: u32,
    /// The host's answer.
    pub result: ReturnCode,
    /// True iff the answer was a failure, logged as a warning.
    pub warned: bool,
}

/// What one spawn point did this tick.
pub struct SpawnOutcome {
    /// The production request, absent iff stored energy was below the
    /// body's price.
    pub attempt: Option<SpawnAttempt>,
}

/// The contract of one spawn point's turn, over the set of unit names in
/// use: production is attempted exactly when the stored energy covers the
/// worker body's price, under the fresh name with the smallest suffix for
/// tick `base`, and a failed request is warned about.
pub open spec fn spawn_outcome_ok(
    spawn: SpawnView,
    base: nat,
    taken: Set<Seq<char>>,
    o: SpawnOutcome,
) -> bool {
    &&& (o.attempt is Some <==> spawn.energy >= spec_body_cost(spec_worker_body()))
    &&& match o.attempt {
        None => true,
        Some(a) => {
            &&& a.name@ == spec_name(base, a.suffix as nat)
            &&& !taken.contains(a.name@)
            &&& (forall|j: nat| j < a.suffix ==> taken.contains(spec_name(base, j)))
            &&& a.result == spawn.fresh_name_response
            &&& a.warned == (a.result != ReturnCode::Okay)
        },
    }
}

/// One spawn point's turn at tick `base`, with `taken` the names
/// currently in use.
pub fn run_spawn(spawn: &SpawnView, base: u32, taken: &Vec<String>) -> (r: SpawnOutcome)
    requires
        taken@.len() < u32::MAX,
    ensures
        spawn_outcome_ok(*spawn, base as nat, seq_name_set(taken@), r),
{
    let body = worker_body();
    proof {
        lemma_worker_body_cost();
    }
    let cost = body_cost(&body);
    if spawn.energy >= cost {
        let (suffix, name) = choose_name(base, taken);
        let result = spawn.fresh_name_response;
        let warned = !result.is_success();
        SpawnOutcome { attempt: Some(SpawnAttempt { name, suffix, result, warned }) }
    } else {
        SpawnOutcome { attempt: None }
    }
}

} // verus!
