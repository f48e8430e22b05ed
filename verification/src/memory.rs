//! The unit-memory namespace of the host's persistent memory store.
//!
//! The host keeps one record per worker unit, keyed by unit name, under a
//! single namespace. The namespace can be missing altogether (nothing was
//! ever written), present and well-formed, or present but not of the
//! expected dictionary shape — the bot treats the last as data corruption.

use vstd::prelude::*;

verus! {

/// Per-unit persistent record: the unit's behavior flag.
#[derive(Clone, Copy, PartialEq, Eq, Structural, Debug)]
pub struct WorkerMemory {
    pub harvesting: bool,
}

/// One named record of the namespace.
pub struct MemEntry {
    pub name: String,
    pub mem: WorkerMemory,
}

/// The records of a well-formed namespace, keyed by unit name.
pub struct MemTable {
    entries: Vec<MemEntry>,
}

/// The map denoted by a record list; a later record for the same name
/// would override an earlier one.
pub open spec fn spec_table_map(s: Seq<MemEntry>) -> Map<Seq<char>, WorkerMemory>
    decreases s.len(),
{
    if s.len() == 0 {
        Map::empty()
    } else {
        spec_table_map(s.drop_last()).insert(s.last().name@, s.last().mem)
    }
}

/// A record list whose names occur in it only once denotes a map that
/// holds each listed record.
proof fn lemma_table_map_index(s: Seq<MemEntry>, i: int)
    requires
        0 <= i < s.len(),
        forall|j: int| i < j < s.len() ==> s[j].name@ != s[i].name@,
    ensures
        spec_table_map(s).contains_key(s[i].name@),
        spec_table_map(s)[s[i].name@] == s[i].mem,
    decreases s.len(),
{
    if i < s.len() - 1 {
        lemma_table_map_index(s.drop_last(), i);
    }
}

/// A name listed in no record is not in the denoted map.
proof fn lemma_table_map_absent(s: Seq<MemEntry>, k: Seq<char>)
    requires
        forall|j: int| 0 <= j < s.len() ==> s[j].name@ != k,
    ensures
        !spec_table_map(s).contains_key(k),
    decreases s.len(),
{
    if s.len() > 0 {
        lemma_table_map_absent(s.drop_last(), k);
    }
}

impl View for MemTable {
    type V = Map<Seq<char>, WorkerMemory>;

    closed spec fn view(&self) -> Map<Seq<char>, WorkerMemory> {
        spec_table_map(self.entries@)
    }
}

impl MemTable {
    /// Each name keys at most one record.
    pub closed spec fn wf(self) -> bool {
        forall|i: int, j: int|
            0 <= i < j < self.entries@.len() ==> self.entries@[i].name@ != self.entries@[j].name@
    }

    /// An empty namespace.
    pub fn new() -> (t: MemTable)
        ensures
            t.wf(),
            t@ == Map::<Seq<char>, WorkerMemory>::empty(),
    {
        MemTable { entries: Vec::new() }
    }

    /// The stored record for `name`, if any.
    pub fn get(&self, name: &String) -> (r: Option<WorkerMemory>)
        requires
            self.wf(),
        ensures
            r == if self@.contains_key(name@) {
                Some(self@[name@])
            } else {
                None::<WorkerMemory>
            },
    {
        let n = self.entries.len();
        let mut i: usize = 0;
        while i < n
            invariant
                0 <= i <= n,
                n == self.entries@.len(),
                self.wf(),
                forall|j: int| 0 <= j < i ==> self.entries@[j].name@ != name@,
            decreases n - i,
        {
            if self.entries[i].name.eq(name) {
                proof {
                    lemma_table_map_index(self.entries@, i as int);
                }
                return Some(self.entries[i].mem);
            }
            i = i + 1;
        }
        proof {
            lemma_table_map_absent(self.entries@, name@);
        }
        None
    }

    /// Store `mem` under `name`, creating the record if it is new.
    pub fn set(&mut self, name: &String, mem: WorkerMemory)
        requires
            old(self).wf(),
        ensures
            final(self).wf(),
            final(self)@ == old(self)@.insert(name@, mem),
    {
        let n = self.entries.len();
        let mut i: usize = 0;
        while i < n
            invariant
                0 <= i <= n,
                n == self.entries@.len(),
                self.wf(),
                self.entries@ == old(self).entries@,
                forall|j: int| 0 <= j < i ==> self.entries@[j].name@ != name@,
            decreases n - i,
        {
            if self.entries[i].name.eq(name) {
                let fresh_name = self.entries[i].name.clone();
                let ghost before = self.entries@;
                self.entries.set(i, MemEntry { name: fresh_name, mem });
                proof {
                    lemma_table_update(before, i as int, self.entries@[i as int]);
                }
                return ;
            }
            i = i + 1;
        }
        let ghost before = self.entries@;
        self.entries.push(MemEntry { name: name.clone(), mem });
        proof {
            assert(self.entries@.drop_last() =~= before);
        }
    }

    /// Split the table into the records of still-alive units and the names
    /// of the dead units whose records are dropped. The kept table is the
    /// old one restricted to the alive names; the dropped names are exactly
    /// the stored names not alive, each reported once.
    pub fn remove_dead(self, alive: &Vec<String>) -> (r: (MemTable, Vec<String>))
        requires
            self.wf(),
        ensures
            r.0.wf(),
            r.0@ == self@.restrict(crate::names::seq_name_set(alive@)),
            crate::names::seq_name_set(r.1@) == self@.dom().difference(
                crate::names::seq_name_set(alive@),
            ),
            forall|a: int, b: int| 0 <= a < b < r.1@.len() ==> r.1@[a]@ != r.1@[b]@,
    {
        let ghost s = self.entries@;
        let ghost aset = crate::names::seq_name_set(alive@);
        let mut kept = MemTable::new();
        let mut deleted: Vec<String> = Vec::new();
        let n = self.entries.len();
        let mut i: usize = 0;
        proof {
            assert(s.take(0) =~= Seq::<MemEntry>::empty());
            assert(kept@ =~= spec_table_map(s.take(0)).restrict(aset));
            assert(crate::names::seq_name_set(deleted@) =~= spec_table_map(
                s.take(0),
            ).dom().difference(aset));
        }
        while i < n
            invariant
                0 <= i <= n,
                n == s.len(),
                self.entries@ == s,
                self.wf(),
                aset == crate::names::seq_name_set(alive@),
                kept.wf(),
                kept@ == spec_table_map(s.take(i as int)).restrict(aset),
                crate::names::seq_name_set(deleted@) == spec_table_map(
                    s.take(i as int),
                ).dom().difference(aset),
                forall|a: int, b: int| 0 <= a < b < deleted@.len() ==> deleted@[a]@ != deleted@[b]@,
            decreases n - i,
        {
            let entry_name = self.entries[i].name.clone();
            let entry_mem = self.entries[i].mem;
            let ghost k = s[i as int].name@;
            proof {
                assert(s.take(i as int + 1).drop_last() =~= s.take(i as int));
                assert(s.take(i as int + 1).last() == s[i as int]);
                assert(spec_table_map(s.take(i as int + 1)) == spec_table_map(
                    s.take(i as int),
                ).insert(k, s[i as int].mem));
                assert(forall|j: int| 0 <= j < i ==> s.take(i as int)[j].name@ != k);
                lemma_table_map_absent(s.take(i as int), k);
            }
            if crate::names::contains_name(alive, &entry_name) {
                kept.set(&entry_name, entry_mem);
                proof {
                    assert(kept@ =~= spec_table_map(s.take(i as int + 1)).restrict(aset));
                    assert(spec_table_map(s.take(i as int + 1)).dom().difference(aset)
                        =~= spec_table_map(s.take(i as int)).dom().difference(aset));
                }
            } else {
                let ghost dbefore = deleted@;
                deleted.push(entry_name);
                proof {
                    crate::names::lemma_seq_name_set_push(dbefore, deleted@.last());
                    assert(crate::names::seq_name_set(deleted@) =~= spec_table_map(
                        s.take(i as int + 1),
                    ).dom().difference(aset));
                    assert(kept@ =~= spec_table_map(s.take(i as int + 1)).restrict(aset));
                    // The dropped name was not yet stored in the prefix, so it
                    // cannot already be among the reported names.
                    assert forall|a: int| 0 <= a < dbefore.len() implies spec_table_map(
                        s.take(i as int),
                    ).dom().contains(dbefore[a]@) by {
                        assert(crate::names::seq_name_set(dbefore).contains(dbefore[a]@));
                    }
                    assert(forall|a: int| 0 <= a < dbefore.len() ==> dbefore[a]@ != k);
                }
            }
            i = i + 1;
        }
        proof {
            assert(s.take(n as int) =~= s);
        }
        (kept, deleted)
    }
}

/// Replacing the one record of a name with a new record for the same name
/// turns the denoted map into the map with that name re-bound.
proof fn lemma_table_update(s: Seq<MemEntry>, i: int, e: MemEntry)
    requires
        0 <= i < s.len(),
        forall|a: int, b: int| 0 <= a < b < s.len() ==> s[a].name@ != s[b].name@,
        e.name@ == s[i].name@,
    ensures
        spec_table_map(s.update(i, e)) == spec_table_map(s).insert(e.name@, e.mem),
    decreases s.len(),
{
    let su = s.update(i, e);
    if i == s.len() - 1 {
        assert(su.drop_last() =~= s.drop_last());
        assert(spec_table_map(su) == spec_table_map(s.drop_last()).insert(e.name@, e.mem));
        assert(spec_table_map(s).insert(e.name@, e.mem) == spec_table_map(s.drop_last()).insert(
            s.last().name@,
            s.last().mem,
        ).insert(e.name@, e.mem));
        assert(spec_table_map(s.drop_last()).insert(s.last().name@, s.last().mem).insert(
            e.name@,
            e.mem,
        ) =~= spec_table_map(s.drop_last()).insert(e.name@, e.mem));
    } else {
        assert(su.drop_last() =~= s.drop_last().update(i, e));
        lemma_table_update(s.drop_last(), i, e);
        assert(su.last() == s.last());
        assert(spec_table_map(su) == spec_table_map(s.drop_last()).insert(e.name@, e.mem).insert(
            s.last().name@,
            s.last().mem,
        ));
        // The two inserted names differ, so the inserts commute.
        assert(e.name@ != s.last().name@);
        assert(spec_table_map(s.drop_last()).insert(e.name@, e.mem).insert(
            s.last().name@,
            s.last().mem,
        ) =~= spec_table_map(s).insert(e.name@, e.mem));
    }
}

/// The unit-memory namespace as the bot can find it in the store.
pub enum CreepsNamespace {
    /// Never created: nothing was ever written under it.
    Absent,
    /// Present but not of the expected dictionary shape.
    Malformed,
    /// Present and well-formed.
    Table(MemTable),
}

/// Mathematical model of the namespace.
pub enum MemModel {
    Absent,
    Malformed,
    Table(Map<Seq<char>, WorkerMemory>),
}

impl View for CreepsNamespace {
    type V = MemModel;

    open spec fn view(&self) -> MemModel {
        match self {
            CreepsNamespace::Absent => MemModel::Absent,
            CreepsNamespace::Malformed => MemModel::Malformed,
            CreepsNamespace::Table(t) => MemModel::Table(t@),
        }
    }
}

/// The behavior flag stored for `k`: false when no record exists or the
/// namespace holds no readable table.
pub open spec fn spec_flag_of(m: MemModel, k: Seq<char>) -> bool {
    match m {
        MemModel::Table(t) => t.contains_key(k) && t[k].harvesting,
        _ => false,
    }
}

/// The namespace after the flag of `k` is set to `v`: a missing namespace
/// is created on first write; a write into a malformed namespace is lost.
pub open spec fn spec_set_flag(m: MemModel, k: Seq<char>, v: bool) -> MemModel {
    match m {
        MemModel::Table(t) => MemModel::Table(t.insert(k, WorkerMemory { harvesting: v })),
        MemModel::Absent => MemModel::Table(
            Map::empty().insert(k, WorkerMemory { harvesting: v }),
        ),
        MemModel::Malformed => MemModel::Malformed,
    }
}

impl CreepsNamespace {
    /// A well-formed table, or no table at all.
    pub open spec fn wf(self) -> bool {
        match self {
            CreepsNamespace::Table(t) => t.wf(),
            _ => true,
        }
    }

    /// Read the behavior flag stored for `name`.
    pub fn get_flag(&self, name: &String) -> (r: bool)
        requires
            self.wf(),
        ensures
            r == spec_flag_of(self@, name@),
    {
        match self {
            CreepsNamespace::Table(t) => match t.get(name) {
                Some(m) => m.harvesting,
                None => false,
            },
            _ => false,
        }
    }

    /// Set the behavior flag stored for `name`.
    pub fn with_flag(self, name: &String, v: bool) -> (r: CreepsNamespace)
        requires
            self.wf(),
        ensures
            r.wf(),
            r@ == spec_set_flag(self@, name@, v),
    {
        match self {
            CreepsNamespace::Table(mut t) => {
                t.set(name, WorkerMemory { harvesting: v });
                CreepsNamespace::Table(t)
            },
            CreepsNamespace::Absent => {
                let mut t = MemTable::new();
                t.set(name, WorkerMemory { harvesting: v });
                CreepsNamespace::Table(t)
            },
            CreepsNamespace::Malformed => CreepsNamespace::Malformed,
        }
    }
}

} // verus!
