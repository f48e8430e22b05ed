//! One full tick of the bot.
//!
//! The three components run in sequence — spawn manager, creep
//! controller, memory janitor — all over the same world snapshot, reading
//! and writing the unit-memory namespace. A fatal condition (an invisible
//! room, a sourceless room, a corrupt namespace) aborts the tick at that
//! point; memory writes already made stay made, as they would in the
//! host's live store.

use crate::controller::{spec_run_creep, CreepOutcome};
use crate::janitor::{cleanup_memory, is_janitor_due, janitor_due, CleanupReport};
use crate::memory::{spec_flag_of, spec_set_flag, CreepsNamespace, MemModel};
use crate::names::{lemma_seq_name_set_push, seq_name_set};
use crate::spawner::{run_spawn, spawn_outcome_ok, SpawnOutcome};
use crate::world::{CreepView, ReturnCode, SpawnView, TickError, WorldSnapshot};
use vstd::prelude::*;

verus! {

/// The names of the snapshot's units: the names in use when the tick
/// starts, and the alive set the janitor diffs against.
pub open spec fn spec_creep_name_set(creeps: Seq<CreepView>) -> Set<Seq<char>> {
    Set::new(|k: Seq<char>| exists|i: int| 0 <= i < creeps.len() && creeps[i].name@ == k)
}

/// The names in use once the first `i` spawn points have taken their
/// turn: the snapshot's unit names plus each name whose production
/// request the host accepted.
pub open spec fn spec_taken_at(
    creeps: Seq<CreepView>,
    outcomes: Seq<SpawnOutcome>,
    i: int,
) -> Set<Seq<char>>
    decreases i,
{
    if i <= 0 {
        spec_creep_name_set(creeps)
    } else {
        let prev = spec_taken_at(creeps, outcomes, i - 1);
        match outcomes[i - 1].attempt {
            Some(a) => if a.result == ReturnCode::Okay {
                prev.insert(a.name@)
            } else {
                prev
            },
            None => prev,
        }
    }
}

/// Appending a later spawn outcome does not change the names in use at an
/// earlier point.
proof fn lemma_taken_at_push(
    creeps: Seq<CreepView>,
    outcomes: Seq<SpawnOutcome>,
    o: SpawnOutcome,
    i: int,
)
    requires
        0 <= i <= outcomes.len(),
    ensures
        spec_taken_at(creeps, outcomes.push(o), i) == spec_taken_at(creeps, outcomes, i),
    decreases i,
{
    if i > 0 {
        lemma_taken_at_push(creeps, outcomes, o, i - 1);
    }
}

/// The unit-memory namespace once the first `i` units have taken their
/// turn. A unit's turn reads its own record's flag and writes it back
/// exactly when an edge of the hysteresis fired; a turn that fails
/// fatally writes nothing.
pub open spec fn spec_mem_at(m0: MemModel, creeps: Seq<CreepView>, i: int) -> MemModel
    decreases i,
{
    if i <= 0 {
        m0
    } else {
        let prev = spec_mem_at(m0, creeps, i - 1);
        let c = creeps[i - 1];
        match spec_run_creep(c, spec_flag_of(prev, c.name@)) {
            Ok(o) => match o.wrote {
                Some(v) => spec_set_flag(prev, c.name@, v),
                None => prev,
            },
            Err(_) => prev,
        }
    }
}

/// Two name lists with the same names in the same places denote the same
/// name set as a unit list.
proof fn lemma_names_set_eq(v: Seq<String>, creeps: Seq<CreepView>)
    requires
        v.len() == creeps.len(),
        forall|j: int| 0 <= j < v.len() ==> v[j]@ == creeps[j].name@,
    ensures
        seq_name_set(v) == spec_creep_name_set(creeps),
{
    assert forall|k: Seq<char>| seq_name_set(v).contains(k) implies spec_creep_name_set(
        creeps,
    ).contains(k) by {
        let j = choose|j: int| 0 <= j < v.len() && v[j]@ == k;
        assert(creeps[j].name@ == k);
    }
    assert forall|k: Seq<char>| spec_creep_name_set(creeps).contains(k) implies seq_name_set(
        v,
    ).contains(k) by {
        let j = choose|j: int| 0 <= j < creeps.len() && creeps[j].name@ == k;
        assert(v[j]@ == k);
    }
    assert(seq_name_set(v) =~= spec_creep_name_set(creeps));
}

/// A copy of the snapshot's unit names.
fn creep_names(snap: &WorldSnapshot) -> (r: Vec<String>)
    ensures
        r@.len() == snap.creeps@.len(),
        forall|j: int| 0 <= j < r@.len() ==> r@[j]@ == snap.creeps@[j].name@,
        seq_name_set(r@) == spec_creep_name_set(snap.creeps@),
{
    let n = snap.creeps.len();
    let mut r: Vec<String> = Vec::new();
    let mut i: usize = 0;
    while i < n
        invariant
            0 <= i <= n,
            n == snap.creeps@.len(),
            r@.len() == i,
            forall|j: int| 0 <= j < i ==> r@[j]@ == snap.creeps@[j].name@,
        decreases n - i,
    {
        r.push(snap.creeps[i].name.clone());
        i = i + 1;
    }
    proof {
        lemma_names_set_eq(r@, snap.creeps@);
    }
    r
}

/// Everything one tick did.
pub struct TickReport {
    /// One outcome per spawn point, in snapshot order.
    pub spawns: Vec<SpawnOutcome>,
    /// One outcome per unit that took its turn, in snapshot order; a
    /// prefix of the units when a turn failed fatally.
    pub creeps: Vec<CreepOutcome>,
    /// The unit-memory namespace as the tick leaves it.
    pub memory: CreepsNamespace,
    /// The janitor's report, when it ran.
    pub cleanup: Option<CleanupReport>,
    /// The fatal condition that aborted the tick, if one arose.
    pub failure: Option<TickError>,
}

/// The spawn phase's contract: every spawn point took its turn, each
/// against the names in use at its turn.
pub open spec fn spawn_phase_ok(snap: WorldSnapshot, r: TickReport) -> bool {
    &&& r.spawns@.len() == snap.spawns@.len()
    &&& forall|i: int|
        0 <= i < r.spawns@.len() ==> spawn_outcome_ok(
            snap.spawns@[i],
            snap.tick as nat,
            spec_taken_at(snap.creeps@, r.spawns@, i),
            r.spawns@[i],
        )
}

/// The creep phase's contract: units took their turns in order, each
/// reading its flag from the namespace as the units before it left it;
/// the phase stops at the first fatally-failing unit.
pub open spec fn creep_phase_ok(snap: WorldSnapshot, m0: MemModel, r: TickReport) -> bool {
    &&& r.creeps@.len() <= snap.creeps@.len()
    &&& forall|i: int|
        0 <= i < r.creeps@.len() ==> spec_run_creep(
            snap.creeps@[i],
            spec_flag_of(spec_mem_at(m0, snap.creeps@, i), snap.creeps@[i].name@),
        ) == Ok::<CreepOutcome, TickError>(r.creeps@[i])
    &&& (r.creeps@.len() < snap.creeps@.len() ==> r.failure is Some && spec_run_creep(
        snap.creeps@[r.creeps@.len() as int],
        spec_flag_of(
            spec_mem_at(m0, snap.creeps@, r.creeps@.len() as int),
            snap.creeps@[r.creeps@.len() as int].name@,
        ),
    ) == Err::<CreepOutcome, TickError>(r.failure->Some_0))
    &&& (r.failure is None || r.failure == Some(TickError::MemoryCorrupt) ==> r.creeps@.len()
        == snap.creeps@.len())
}

/// The janitor phase's contract: after a complete creep phase, on a due
/// tick, stale records are removed — or the corrupt namespace aborts the
/// tick; on other ticks, and after an aborted creep phase, the namespace
/// stays as the creep phase left it.
pub open spec fn janitor_phase_ok(snap: WorldSnapshot, m0: MemModel, r: TickReport) -> bool {
    let m_end = spec_mem_at(m0, snap.creeps@, r.creeps@.len() as int);
    let creep_failed = r.creeps@.len() < snap.creeps@.len();
    if creep_failed || !janitor_due(snap.tick as nat) {
        &&& r.cleanup is None
        &&& r.memory@ == m_end
        &&& (!creep_failed ==> r.failure is None)
    } else {
        match m_end {
            MemModel::Malformed => {
                &&& r.failure == Some(TickError::MemoryCorrupt)
                &&& r.cleanup is None
                &&& r.memory@ == m_end
            },
            MemModel::Absent => {
                &&& r.failure is None
                &&& r.cleanup is Some
                &&& r.cleanup->Some_0.warned_missing
                &&& r.cleanup->Some_0.deleted@.len() == 0
                &&& r.memory@ is Absent
            },
            MemModel::Table(m) => {
                &&& r.failure is None
                &&& r.cleanup is Some
                &&& !r.cleanup->Some_0.warned_missing
                &&& seq_name_set(r.cleanup->Some_0.deleted@) == m.dom().difference(
                    spec_creep_name_set(snap.creeps@),
                )
                &&& (forall|a: int, b: int|
                    0 <= a < b < r.cleanup->Some_0.deleted@.len()
                        ==> r.cleanup->Some_0.deleted@[a]@ != r.cleanup->Some_0.deleted@[b]@)
                &&& r.memory@ == MemModel::Table(
                    m.restrict(spec_creep_name_set(snap.creeps@)),
                )
            },
        }
    }
}

/// Run one full tick: spawn phase, creep phase, then — when due — the
/// memory janitor.
pub fn run_tick(snap: &WorldSnapshot, ns: CreepsNamespace) -> (r: TickReport)
    requires
        ns.wf(),
        snap.creeps@.len() + snap.spawns@.len() < u32::MAX,
    ensures
        spawn_phase_ok(*snap, r),
        creep_phase_ok(*snap, ns@, r),
        janitor_phase_ok(*snap, ns@, r),
        r.memory.wf(),
{
    let ghost m0 = ns@;

    // Spawn phase: each spawn point sees the names in use at its turn,
    // the snapshot's units plus the units produced just before it.
    let mut taken = creep_names(snap);
    let mut spawn_outs: Vec<SpawnOutcome> = Vec::new();
    let n_spawns = snap.spawns.len();
    let n_creeps = snap.creeps.len();
    let mut i: usize = 0;
    while i < n_spawns
        invariant
            0 <= i <= n_spawns,
            n_spawns == snap.spawns@.len(),
            n_creeps == snap.creeps@.len(),
            n_creeps + n_spawns < u32::MAX,
            spawn_outs@.len() == i,
            taken@.len() <= n_creeps + i,
            seq_name_set(taken@) == spec_taken_at(snap.creeps@, spawn_outs@, i as int),
            forall|j: int|
                0 <= j < i ==> spawn_outcome_ok(
                    snap.spawns@[j],
                    snap.tick as nat,
                    spec_taken_at(snap.creeps@, spawn_outs@, j),
                    spawn_outs@[j],
                ),
        decreases n_spawns - i,
    {
        let o = run_spawn(&snap.spawns[i], snap.tick, &taken);
        let ghost taken_before = taken@;
        match &o.attempt {
            Some(a) => {
                if a.result.is_success() {
                    let accepted = a.name.clone();
                    taken.push(accepted);
                    proof {
                        lemma_seq_name_set_push(taken_before, taken@.last());
                    }
                }
            },
            None => {},
        }
        let ghost outs_before = spawn_outs@;
        spawn_outs.push(o);
        proof {
            assert forall|j: int| 0 <= j <= i implies spec_taken_at(
                snap.creeps@,
                spawn_outs@,
                j,
            ) == spec_taken_at(snap.creeps@, outs_before, j) by {
                assert(spawn_outs@ =~= outs_before.push(spawn_outs@.last()));
                lemma_taken_at_push(snap.creeps@, outs_before, spawn_outs@.last(), j);
            }
        }
        i = i + 1;
    }

    // Creep phase: each unit reads its flag, runs the hysteresis
    // transition and its action; the first fatal condition aborts.
    let mut mem = ns;
    let mut creep_outs: Vec<CreepOutcome> = Vec::new();
    let mut failure: Option<TickError> = None;
    let mut c_idx: usize = 0;
    while c_idx < n_creeps && failure.is_none()
        invariant
            0 <= c_idx <= n_creeps,
            n_creeps == snap.creeps@.len(),
            mem.wf(),
            mem@ == spec_mem_at(m0, snap.creeps@, c_idx as int),
            creep_outs@.len() == c_idx,
            forall|j: int|
                0 <= j < c_idx ==> spec_run_creep(
                    snap.creeps@[j],
                    spec_flag_of(spec_mem_at(m0, snap.creeps@, j), snap.creeps@[j].name@),
                ) == Ok::<CreepOutcome, TickError>(creep_outs@[j]),
            failure is Some ==> c_idx < n_creeps && spec_run_creep(
                snap.creeps@[c_idx as int],
                spec_flag_of(spec_mem_at(m0, snap.creeps@, c_idx as int), snap.creeps@[c_idx as int].name@),
            ) == Err::<CreepOutcome, TickError>(failure->Some_0),
        decreases n_creeps - c_idx, (if failure is None {
            1int
        } else {
            0int
        }),
    {
        let flag = mem.get_flag(&snap.creeps[c_idx].name);
        match crate::controller::run_creep(&snap.creeps[c_idx], flag) {
            Ok(o) => {
                match o.wrote {
                    Some(v) => {
                        mem = mem.with_flag(&snap.creeps[c_idx].name, v);
                    },
                    None => {},
                }
                creep_outs.push(o);
                c_idx = c_idx + 1;
            },
            Err(e) => {
                failure = Some(e);
            },
        }
    }

    // Memory janitor: only on due ticks, and only when the tick is still
    // healthy.
    let mut cleanup: Option<CleanupReport> = None;
    if failure.is_none() && is_janitor_due(snap.tick) {
        let alive = creep_names(snap);
        let (mem2, res) = cleanup_memory(&alive, mem);
        mem = mem2;
        match res {
            Ok(rep) => {
                cleanup = Some(rep);
            },
            Err(_) => {
                failure = Some(TickError::MemoryCorrupt);
            },
        }
    }

    TickReport { spawns: spawn_outs, creeps: creep_outs, memory: mem, cleanup, failure }
}

/// The names in use only grow over the spawn phase.
proof fn lemma_taken_at_mono(creeps: Seq<CreepView>, outcomes: Seq<SpawnOutcome>, i: int, j: int)
    requires
        0 <= i <= j,
    ensures
        spec_taken_at(creeps, outcomes, i).subset_of(spec_taken_at(creeps, outcomes, j)),
    decreases j - i,
{
    if i < j {
        lemma_taken_at_mono(creeps, outcomes, i, j - 1);
    }
}

/// Name generation never produces two identical names among
/// currently-alive units in the same tick: an attempted name collides
/// with no unit alive at tick start, and no two production requests of
/// the tick — the earlier one accepted — bear the same name.
pub proof fn lemma_spawned_names_distinct(
    creeps: Seq<CreepView>,
    spawns: Seq<SpawnView>,
    base: nat,
    outcomes: Seq<SpawnOutcome>,
)
    requires
        outcomes.len() == spawns.len(),
        forall|i: int|
            0 <= i < outcomes.len() ==> spawn_outcome_ok(
                spawns[i],
                base,
                spec_taken_at(creeps, outcomes, i),
                outcomes[i],
            ),
    ensures
        forall|i: int|
            0 <= i < outcomes.len() && outcomes[i].attempt is Some
                ==> !spec_creep_name_set(creeps).contains(outcomes[i].attempt->Some_0.name@),
        forall|i: int, j: int|
            0 <= i < j < outcomes.len() && outcomes[i].attempt is Some
                && outcomes[i].attempt->Some_0.result == ReturnCode::Okay && outcomes[j].attempt
                is Some ==> outcomes[i].attempt->Some_0.name@ != outcomes[j].attempt->Some_0.name@,
{
    assert forall|i: int|
        0 <= i < outcomes.len() && outcomes[i].attempt is Some implies !spec_creep_name_set(
        creeps,
    ).contains(outcomes[i].attempt->Some_0.name@) by {
        lemma_taken_at_mono(creeps, outcomes, 0, i);
        assert(!spec_taken_at(creeps, outcomes, i).contains(outcomes[i].attempt->Some_0.name@));
    }
    assert forall|i: int, j: int|
        0 <= i < j < outcomes.len() && outcomes[i].attempt is Some
            && outcomes[i].attempt->Some_0.result == ReturnCode::Okay && outcomes[j].attempt
            is Some implies outcomes[i].attempt->Some_0.name@ != outcomes[j].attempt->Some_0.name@ by {
        let ni = outcomes[i].attempt->Some_0.name@;
        assert(spec_taken_at(creeps, outcomes, i + 1).contains(ni));
        lemma_taken_at_mono(creeps, outcomes, i + 1, j);
        assert(!spec_taken_at(creeps, outcomes, j).contains(outcomes[j].attempt->Some_0.name@));
    }
}

/// What the host should invoke next tick: the regular tick handler, or —
/// after a failed tick — a full re-initialization, so the next tick
/// starts from a clean state.
#[derive(Clone, Copy, PartialEq, Eq, Structural, Debug)]
pub enum NextHandler {
    RunTick,
    Reinitialize,
}

/// The entry point adapter's recovery decision: reset exactly when the
/// tick failed.
pub fn next_handler(failure: &Option<TickError>) -> (r: NextHandler)
    ensures
        r == NextHandler::RunTick <==> failure is None,
{
    match failure {
        None => NextHandler::RunTick,
        Some(_) => NextHandler::Reinitialize,
    }
}

} // verus!
