//! Plain-data model of the host game world.
//!
//! The host hands the bot, once per tick, an enumeration of spawn points
//! and worker units plus the room contents each unit can see. Commands
//! issued back to the host are answered with a status code. Everything the
//! bot's logic reads from that world is mirrored here as plain values.

use vstd::prelude::*;

verus! {

/// A tile position inside a room.
#[derive(Clone, Copy, PartialEq, Eq, Structural, Debug)]
pub struct Pos {
    pub x: u32,
    pub y: u32,
}

/// Chebyshev adjacency: a unit can act on a target at range 1 or on its own
/// tile. This is the game's "near to" relation.
pub open spec fn spec_near(a: Pos, b: Pos) -> bool {
    -1 <= a.x - b.x <= 1 && -1 <= a.y - b.y <= 1
}

impl Pos {
    /// Whether `self` is within acting range of `other`.
    pub fn is_near_to(self, other: Pos) -> (r: bool)
        ensures
            r == spec_near(self, other),
    {
        let dx_ok = if self.x >= other.x {
            self.x - other.x <= 1
        } else {
            other.x - self.x <= 1
        };
        let dy_ok = if self.y >= other.y {
            self.y - other.y <= 1
        } else {
            other.y - self.y <= 1
        };
        dx_ok && dy_ok
    }
}

/// Status code the host returns for an issued command.
#[derive(Clone, Copy, PartialEq, Eq, Structural, Debug)]
pub enum ReturnCode {
    Okay,
    NotOwner,
    NoPath,
    NameExists,
    Busy,
    NotFound,
    NotEnough,
    InvalidTarget,
    Full,
    NotInRange,
    InvalidArgs,
    Tired,
    NoBodypart,
}

impl ReturnCode {
    /// Whether the host reported the command as carried out.
    pub fn is_success(self) -> (r: bool)
        ensures
            r == (self == ReturnCode::Okay),
    {
        self == ReturnCode::Okay
    }
}

/// A movement command's outcome passes silently when the unit moved or is
/// resting ("tired"); every other answer — an unreachable target ("no
/// path") included — is logged, and nothing more is done: the unit simply
/// retries next tick with the same target selection.
pub open spec fn spec_move_logged(r: ReturnCode) -> bool {
    r != ReturnCode::Okay && r != ReturnCode::Tired
}

/// Decide whether the host's answer to a movement command is logged:
/// moved and tired outcomes pass silently; anything else, a "no path"
/// answer included, is reported.
pub fn classify_move_result(r: ReturnCode) -> (logged: bool)
    ensures
        logged == spec_move_logged(r),
{
    match r {
        ReturnCode::Okay => false,
        ReturnCode::Tired => false,
        _ => true,
    }
}

/// The kinds of body part a worker unit can be composed of.
#[derive(Clone, Copy, PartialEq, Eq, Structural, Debug)]
pub enum PartKind {
    Move,
    Carry,
    Work,
}

/// Energy price of one body part, as the game rules fix it.
pub open spec fn spec_part_cost(p: PartKind) -> nat {
    match p {
        PartKind::Move => 50,
        PartKind::Carry => 50,
        PartKind::Work => 100,
    }
}

/// Energy price of one body part.
pub fn part_cost(p: PartKind) -> (c: u32)
    ensures
        c == spec_part_cost(p),
{
    match p {
        PartKind::Move => 50,
        PartKind::Carry => 50,
        PartKind::Work => 100,
    }
}

/// Total energy price of a body composition.
pub open spec fn spec_body_cost(body: Seq<PartKind>) -> nat
    decreases body.len(),
{
    if body.len() == 0 {
        0
    } else {
        spec_body_cost(body.drop_last()) + spec_part_cost(body.last())
    }
}

/// One thing found on a tile when the host reports a tile's contents.
#[derive(Clone, Copy, PartialEq, Eq, Structural, Debug)]
pub enum LookItem {
    Structure,
    TerrainWall,
    TerrainPlain,
    TerrainSwamp,
    Other,
}

/// A tile can be entered iff nothing on it is a structure or wall terrain.
pub open spec fn spec_enterable(items: Seq<LookItem>) -> bool {
    forall|i: int|
        0 <= i < items.len() ==> items[i] != LookItem::Structure && items[i]
            != LookItem::TerrainWall
}

/// Whether a tile whose contents the host reported as `items` can be
/// walked onto: nothing on it may be a structure or wall terrain.
pub fn is_enterable(items: &Vec<LookItem>) -> (r: bool)
    ensures
        r == spec_enterable(items@),
{
    let mut i: usize = 0;
    while i < items.len()
        invariant
            0 <= i <= items.len(),
            forall|j: int|
                0 <= j < i ==> items@[j] != LookItem::Structure && items@[j]
                    != LookItem::TerrainWall,
        decreases items.len() - i,
    {
        let it = items[i];
        if it == LookItem::Structure || it == LookItem::TerrainWall {
            return false;
        }
        i = i + 1;
    }
    true
}

/// A harvestable energy source in a room.
#[derive(Clone, Copy, PartialEq, Eq, Structural, Debug)]
pub struct SourceView {
    pub pos: Pos,
}

/// A room's controller, the upgrade target of delivering units.
#[derive(Clone, Copy, PartialEq, Eq, Structural, Debug)]
pub struct ControllerView {
    pub pos: Pos,
}

/// What a worker unit sees of its current room.
pub struct RoomView {
    /// The room's sources, in the host's enumeration order.
    pub sources: Vec<SourceView>,
    /// The room's controller, if it has one.
    pub controller: Option<ControllerView>,
}

/// One worker unit as the snapshot shows it, together with the host's
/// answers to the commands the unit could issue this tick. The bot issues
/// at most one harvest or upgrade command and at most one movement command
/// per unit per tick, so one answer of each kind determines the tick.
pub struct CreepView {
    /// The unit's name, unique among currently-alive units.
    pub name: String,
    /// True while the unit is still materializing; it takes no actions.
    pub spawning: bool,
    pub pos: Pos,
    /// Carried energy.
    pub carried: u32,
    /// Full carry capacity.
    pub capacity: u32,
    /// The unit's room, absent when the room is not visible.
    pub room: Option<RoomView>,
    /// The host's answer were a harvest command issued this tick.
    pub harvest_response: ReturnCode,
    /// The host's answer were an upgrade command issued this tick.
    pub upgrade_response: ReturnCode,
    /// The host's answer were a movement command issued this tick.
    pub move_response: ReturnCode,
}

impl CreepView {
    /// A unit never carries more than its capacity.
    pub open spec fn wf(self) -> bool {
        self.carried <= self.capacity
    }
}

/// One spawn point as the snapshot shows it.
pub struct SpawnView {
    pub name: String,
    /// Stored energy available for production.
    pub energy: u32,
    /// The host's answer were production requested under a name no living
    /// unit bears. (A name already in use is answered with
    /// `ReturnCode::NameExists` instead.)
    pub fresh_name_response: ReturnCode,
}

/// The host's read-only view of the world for one tick.
pub struct WorldSnapshot {
    /// The monotonic tick counter.
    pub tick: u32,
    pub spawns: Vec<SpawnView>,
    pub creeps: Vec<CreepView>,
}

impl WorldSnapshot {
    pub open spec fn wf(self) -> bool {
        forall|i: int| 0 <= i < self.creeps@.len() ==> self.creeps@[i].wf()
    }
}

/// A failure that unwinds out of the tick and is caught only by the entry
/// point adapter.
#[derive(Clone, Copy, PartialEq, Eq, Structural, Debug)]
pub enum TickError {
    /// A unit's room was not visible when room access was required.
    RoomNotVisible,
    /// A harvesting unit's room holds no source at all.
    RoomHasNoSource,
    /// The unit-memory namespace exists but is not of the expected shape.
    MemoryCorrupt,
}

/// Clamp `val` into the closed interval `[lo, hi]`.
pub fn clamp(val: i64, lo: i64, hi: i64) -> (r: i64)
    requires
        lo <= hi,
    ensures
        lo <= r <= hi,
        r == if val < lo {
            lo
        } else if val > hi {
            hi
        } else {
            val
        },
{
    if val < lo {
        lo
    } else if val > hi {
        hi
    } else {
        val
    }
}

} // verus!
