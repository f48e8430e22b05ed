//! The memory janitor.
//!
//! Every 32 ticks (on ticks congruent to 3 modulo 32) the bot removes the
//! memory records of worker units that no longer exist. A missing
//! unit-memory namespace is a recoverable condition — warn, delete
//! nothing; a namespace that exists but is not of the expected dictionary
//! shape is treated as data corruption and aborts the tick.

use crate::memory::{CreepsNamespace, MemModel};
use crate::names::seq_name_set;
use vstd::prelude::*;

verus! {

/// Whether the janitor runs this tick.
pub open spec fn janitor_due(tick: nat) -> bool {
    tick % 32 == 3
}

/// Whether the janitor runs this tick.
pub fn is_janitor_due(tick: u32) -> (r: bool)
    ensures
        r == janitor_due(tick as nat),
{
    tick % 32 == 3
}

/// The unit-memory namespace exists but is not of the expected dictionary
/// shape: data corruption, fatal to the tick.
#[derive(Clone, Copy, PartialEq, Eq, Structural, Debug)]
pub enum MemoryFault {
    MalformedNamespace,
}

/// What one cleanup pass did.
pub struct CleanupReport {
    /// Names of dead units whose records were removed, each once.
    pub deleted: Vec<String>,
    /// True iff the namespace was absent: nothing to clean, warn only.
    pub warned_missing: bool,
}

/// One cleanup pass over the unit-memory namespace.
///
/// With a well-formed namespace, removes exactly the records of names not
/// in `alive` and keeps the records of alive names unchanged. With an
/// absent namespace, deletes nothing and reports the warning. With a
/// malformed namespace, fails.
pub fn cleanup_memory(alive: &Vec<String>, ns: CreepsNamespace) -> (r: (
    CreepsNamespace,
    Result<CleanupReport, MemoryFault>,
))
    requires
        ns.wf(),
    ensures
        r.0.wf(),
        ns@ is Malformed <==> r.1 is Err,
        r.1 is Err ==> r.0@ == ns@ && r.1 == Result::<CleanupReport, MemoryFault>::Err(
            MemoryFault::MalformedNamespace,
        ),
        r.1 is Ok ==> {
            let rep = r.1->Ok_0;
            &&& rep.warned_missing == (ns@ is Absent)
            &&& (ns@ is Absent ==> r.0@ is Absent && rep.deleted@.len() == 0)
            &&& (ns@ is Table ==> {
                &&& r.0@ == MemModel::Table((ns@->Table_0).restrict(seq_name_set(alive@)))
                &&& seq_name_set(rep.deleted@) == (ns@->Table_0).dom().difference(
                    seq_name_set(alive@),
                )
                &&& (forall|a: int, b: int|
                    0 <= a < b < rep.deleted@.len() ==> rep.deleted@[a]@ != rep.deleted@[b]@)
            })
        },
{
    match ns {
        CreepsNamespace::Malformed => (
            CreepsNamespace::Malformed,
            Err(MemoryFault::MalformedNamespace),
        ),
        CreepsNamespace::Absent => (
            CreepsNamespace::Absent,
            Ok(CleanupReport { deleted: Vec::new(), warned_missing: true }),
        ),
        CreepsNamespace::Table(t) => {
            let (kept, deleted) = t.remove_dead(alive);
            (
                CreepsNamespace::Table(kept),
                Ok(CleanupReport { deleted, warned_missing: false }),
            )
        },
    }
}

} // verus!
