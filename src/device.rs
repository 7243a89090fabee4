//! Choosing the physical adapter and the queue family to render and present with.

use vstd::prelude::*;

verus! {

/// The kind of a physical adapter as the driver reports it.
#[derive(Clone, Copy, Debug, PartialEq, Eq, Structural)]
pub enum DeviceKind {
    Discrete,
    Integrated,
    Virtual,
    Cpu,
    Other,
}

/// Preference order of adapter kinds: lower is better.
pub open spec fn kind_rank(k: DeviceKind) -> nat {
    match k {
        DeviceKind::Discrete => 0,
        DeviceKind::Integrated => 1,
        DeviceKind::Virtual => 2,
        DeviceKind::Cpu => 3,
        DeviceKind::Other => 4,
    }
}

fn rank_of(k: DeviceKind) -> (r: u8)
    ensures
        r as nat == kind_rank(k),
{
    match k {
        DeviceKind::Discrete => 0,
        DeviceKind::Integrated => 1,
        DeviceKind::Virtual => 2,
        DeviceKind::Cpu => 3,
        DeviceKind::Other => 4,
    }
}

/// What one queue family of an adapter can do: submit graphics work, and
/// present to the target surface.
#[derive(Clone, Copy, Debug, PartialEq, Eq, Structural)]
pub struct QueueFamily {
    pub graphics: bool,
    pub present: bool,
}

/// An enumerated physical adapter with the properties the selection reads.
#[derive(Clone, Debug)]
pub struct Adapter {
    pub name: String,
    pub kind: DeviceKind,
    pub families: Vec<QueueFamily>,
}

/// The adapter (by its position in the enumeration) and the queue family chosen.
#[derive(Clone, Copy, Debug, PartialEq, Eq, Structural)]
pub struct QueueSelection {
    pub adapter: usize,
    pub queue_family: usize,
}

#[derive(Clone, Copy, Debug, PartialEq, Eq, Structural)]
pub enum SelectError {
    /// The enumeration was empty.
    NoAdapterFound,
    /// No adapter has a family that supports both graphics and presentation.
    NoSuitableDevice,
}

pub open spec fn family_qualifies(f: QueueFamily) -> bool {
    f.graphics && f.present
}

/// `i` is the first family in `fams` that supports graphics and presentation.
pub open spec fn is_first_qualifying(fams: Seq<QueueFamily>, i: int) -> bool {
    &&& 0 <= i < fams.len()
    &&& family_qualifies(fams[i])
    &&& forall|j: int| 0 <= j < i ==> !family_qualifies(#[trigger] fams[j])
}

pub open spec fn adapter_qualifies(a: Adapter) -> bool {
    exists|i: int| 0 <= i < a.families@.len() && family_qualifies(#[trigger] a.families@[i])
}

/// Adapter `i` is preferred to adapter `j`: a better kind, or the same kind
/// and enumerated earlier.
pub open spec fn preferred(adapters: Seq<Adapter>, i: int, j: int) -> bool {
    kind_rank(adapters[i].kind) < kind_rank(adapters[j].kind) || (kind_rank(adapters[i].kind)
        == kind_rank(adapters[j].kind) && i < j)
}

/// `i` is the qualifying adapter preferred to every other qualifying one.
pub open spec fn is_best_adapter(adapters: Seq<Adapter>, i: int) -> bool {
    &&& 0 <= i < adapters.len()
    &&& adapter_qualifies(adapters[i])
    &&& forall|j: int|
        0 <= j < adapters.len() && j != i && adapter_qualifies(#[trigger] adapters[j])
            ==> preferred(adapters, i, j)
}

pub open spec fn none_qualifies(adapters: Seq<Adapter>) -> bool {
    forall|i: int| 0 <= i < adapters.len() ==> !adapter_qualifies(#[trigger] adapters[i])
}

pub open spec fn selection_ok(adapters: Seq<Adapter>, sel: QueueSelection) -> bool {
    &&& is_best_adapter(adapters, sel.adapter as int)
    &&& is_first_qualifying(adapters[sel.adapter as int].families@, sel.queue_family as int)
}

fn first_qualifying_family(fams: &Vec<QueueFamily>) -> (r: Option<usize>)
    ensures
        r matches Some(i) ==> is_first_qualifying(fams@, i as int),
        r is None ==> forall|j: int| 0 <= j < fams@.len() ==> !family_qualifies(#[trigger] fams@[j]),
{
    let mut i: usize = 0;
    while i < fams.len()
        invariant
            i <= fams@.len(),
            forall|j: int| 0 <= j < i ==> !family_qualifies(#[trigger] fams@[j]),
        decreases fams@.len() - i,
    {
        if fams[i].graphics && fams[i].present {
            return Some(i);
        }
        i = i + 1;
    }
    None
}

/// Picks the adapter and queue family to use: among the adapters with a family
/// that supports both graphics and presentation, the best kind wins
/// (discrete, integrated, virtual, CPU, other), and among equals the one
/// enumerated first; the family is the first qualifying one of that adapter.
pub fn select_adapter(adapters: &Vec<Adapter>) -> (r: Result<QueueSelection, SelectError>)
    ensures
        r == Err::<QueueSelection, SelectError>(SelectError::NoAdapterFound)
            <==> adapters@.len() == 0,
        r == Err::<QueueSelection, SelectError>(SelectError::NoSuitableDevice)
            <==> adapters@.len() > 0 && none_qualifies(adapters@),
        r matches Ok(sel) ==> selection_ok(adapters@, sel),
{
    if adapters.len() == 0 {
        return Err(SelectError::NoAdapterFound);
    }
    let mut best: Option<QueueSelection> = None;
    let mut best_rank: u8 = 0;
    let mut i: usize = 0;
    while i < adapters.len()
        invariant
            i <= adapters@.len(),
            best matches Some(sel) ==> {
                &&& sel.adapter < i
                &&& best_rank as nat == kind_rank(adapters@[sel.adapter as int].kind)
                &&& adapter_qualifies(adapters@[sel.adapter as int])
                &&& is_first_qualifying(
                    adapters@[sel.adapter as int].families@,
                    sel.queue_family as int,
                )
                &&& forall|j: int|
                    0 <= j < i && j != sel.adapter && adapter_qualifies(#[trigger] adapters@[j])
                        ==> preferred(adapters@, sel.adapter as int, j)
            },
            best is None ==> forall|j: int|
                0 <= j < i ==> !adapter_qualifies(#[trigger] adapters@[j]),
        decreases adapters@.len() - i,
    {
        let a = &adapters[i];
        match first_qualifying_family(&a.families) {
            Some(f) => {
                let rank = rank_of(a.kind);
                assert(adapter_qualifies(adapters@[i as int]));
                let take = match best {
                    None => true,
                    Some(_) => rank < best_rank,
                };
                if take {
                    best = Some(QueueSelection { adapter: i, queue_family: f });
                    best_rank = rank;
                }
            },
            None => {
                assert(!adapter_qualifies(adapters@[i as int]));
            },
        }
        i = i + 1;
    }
    match best {
        Some(sel) => Ok(sel),
        None => Err(SelectError::NoSuitableDevice),
    }
}

} // verus!
