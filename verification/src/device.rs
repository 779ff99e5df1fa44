//! Choosing the adapter to render on, and the queue family to submit to.
//!
//! The caller describes every enumerated adapter by what the choice reads:
//! its class, whether it offers the required extensions, and for each queue
//! family whether it does graphics work and can present to the surface.

use vstd::prelude::*;

verus! {

/// Kind of adapter, from most to least preferred.
#[derive(Clone, Copy, Debug, PartialEq, Eq, Structural)]
pub enum DeviceClass {
    Discrete,
    Integrated,
    Virtual,
    Cpu,
    Other,
}

impl DeviceClass {
    /// Preference rank; lower is better.
    pub open spec fn rank_of(self) -> nat {
        match self {
            DeviceClass::Discrete => 0,
            DeviceClass::Integrated => 1,
            DeviceClass::Virtual => 2,
            DeviceClass::Cpu => 3,
            DeviceClass::Other => 4,
        }
    }

    /// Preference rank; lower is better.
    pub fn rank(self) -> (r: u8)
        ensures
            r == self.rank_of(),
    {
        match self {
            DeviceClass::Discrete => 0,
            DeviceClass::Integrated => 1,
            DeviceClass::Virtual => 2,
            DeviceClass::Cpu => 3,
            DeviceClass::Other => 4,
        }
    }
}

/// What the choice reads of one queue family.
#[derive(Clone, Copy, Debug, PartialEq, Eq, Structural)]
pub struct QueueFamily {
    /// The family executes graphics operations.
    pub graphics: bool,
    /// The family can present to the target surface.
    pub presents: bool,
}

/// What the choice reads of one enumerated adapter.
#[derive(Clone, Debug)]
pub struct PhysicalDeviceInfo {
    pub class: DeviceClass,
    /// The adapter offers every required extension.
    pub has_extensions: bool,
    /// Queue families, in the adapter's own order.
    pub queue_families: Vec<QueueFamily>,
}

/// The chosen adapter and queue family, each by its place in enumeration order.
#[derive(Clone, Copy, Debug, PartialEq, Eq, Structural)]
pub struct Selection {
    pub device: usize,
    pub queue_family: usize,
}

/// Why no adapter could be chosen.
#[derive(Clone, Copy, Debug, PartialEq, Eq, Structural)]
pub enum SelectError {
    /// No adapter offers the required extensions.
    NoCapableDevice,
    /// Some adapter offers them, but none of those has a queue family that
    /// both does graphics work and presents to the surface.
    NoSuitableQueue,
}

/// A family the single submission queue may come from.
pub open spec fn usable(family: QueueFamily) -> bool {
    family.graphics && family.presents
}

/// `q` is the first usable family among `families`.
pub open spec fn is_first_usable(families: Seq<QueueFamily>, q: int) -> bool {
    &&& 0 <= q < families.len()
    &&& usable(families[q])
    &&& forall|j: int| 0 <= j < q ==> !usable(#[trigger] families[j])
}

/// The adapter offers the extensions and has a usable queue family.
pub open spec fn capable(device: PhysicalDeviceInfo) -> bool {
    &&& device.has_extensions
    &&& exists|q: int| 0 <= q < device.queue_families@.len() && usable(#[trigger] device.queue_families@[q])
}

/// `k` is the capable adapter of lowest rank, the earliest of those.
pub open spec fn is_best(devices: Seq<PhysicalDeviceInfo>, k: int) -> bool {
    &&& 0 <= k < devices.len()
    &&& capable(devices[k])
    &&& forall|j: int|
        0 <= j < devices.len() && capable(#[trigger] devices[j]) ==> devices[k].class.rank_of()
            <= devices[j].class.rank_of()
    &&& forall|j: int|
        0 <= j < k && capable(#[trigger] devices[j]) ==> devices[k].class.rank_of()
            < devices[j].class.rank_of()
}

/// Place of the first usable family, if there is one.
pub fn first_usable_family(families: &Vec<QueueFamily>) -> (found: Option<usize>)
    ensures
        found is None <==> forall|j: int| 0 <= j < families@.len() ==> !usable(#[trigger] families@[j]),
        found matches Some(q) ==> is_first_usable(families@, q as int),
{
    let mut i: usize = 0;
    while i < families.len()
        invariant
            i <= families.len(),
            forall|j: int| 0 <= j < i ==> !usable(#[trigger] families@[j]),
        decreases families.len() - i,
    {
        if families[i].graphics && families[i].presents {
            return Some(i);
        }
        i += 1;
    }
    None
}

/// The best of the first `n` adapters stays the best of the first `n + 1`
/// when the next one is not capable or ranks no lower.
proof fn lemma_best_kept(devices: Seq<PhysicalDeviceInfo>, n: int, k: int)
    requires
        0 <= n < devices.len(),
        is_best(devices.take(n), k),
        !capable(devices[n]) || devices[k].class.rank_of() <= devices[n].class.rank_of(),
    ensures
        is_best(devices.take(n + 1), k),
{
    let before = devices.take(n);
    let after = devices.take(n + 1);
    assert(after[k] == before[k]);
    assert forall|j: int| 0 <= j < after.len() && capable(#[trigger] after[j]) implies after[k].class.rank_of()
        <= after[j].class.rank_of() by {
        if j < n {
            assert(capable(before[j]));
        }
    }
    assert forall|j: int| 0 <= j < k && capable(#[trigger] after[j]) implies after[k].class.rank_of()
        < after[j].class.rank_of() by {
        assert(capable(before[j]));
    }
}

/// A capable adapter that ranks strictly lower than every capable one
/// before it is the best of the adapters up to and including itself.
proof fn lemma_best_replaced(devices: Seq<PhysicalDeviceInfo>, n: int)
    requires
        0 <= n < devices.len(),
        capable(devices[n]),
        forall|j: int|
            0 <= j < n && capable(#[trigger] devices[j]) ==> devices[n].class.rank_of()
                < devices[j].class.rank_of(),
    ensures
        is_best(devices.take(n + 1), n),
{
    let after = devices.take(n + 1);
    assert(after[n] == devices[n]);
    assert forall|j: int| 0 <= j < after.len() && capable(#[trigger] after[j]) implies after[n].class.rank_of()
        <= after[j].class.rank_of() by {
        assert(after[j] == devices[j]);
    }
    assert forall|j: int| 0 <= j < n && capable(#[trigger] after[j]) implies after[n].class.rank_of()
        < after[j].class.rank_of() by {
        assert(after[j] == devices[j]);
    }
}

/// Picks the adapter to render on: among the capable ones the lowest rank
/// wins, and among equals the first enumerated. The queue family is the
/// first usable one of the chosen adapter.
pub fn select_physical_device(devices: &Vec<PhysicalDeviceInfo>) -> (choice: Result<
    Selection,
    SelectError,
>)
    ensures
        choice matches Ok(s) ==> is_best(devices@, s.device as int) && is_first_usable(
            devices@[s.device as int].queue_families@,
            s.queue_family as int,
        ),
        choice is Ok <==> exists|i: int| 0 <= i < devices@.len() && capable(#[trigger] devices@[i]),
        choice == Err::<Selection, SelectError>(SelectError::NoCapableDevice) <==> forall|i: int|
            0 <= i < devices@.len() ==> !(#[trigger] devices@[i]).has_extensions,
{
    let mut best: Option<Selection> = None;
    let mut best_rank: u8 = 0;
    let mut any_extensions = false;
    let mut i: usize = 0;
    while i < devices.len()
        invariant
            i <= devices.len(),
            any_extensions <==> exists|j: int| 0 <= j < i && (#[trigger] devices@[j]).has_extensions,
            best is None <==> forall|j: int| 0 <= j < i ==> !capable(#[trigger] devices@[j]),
            best matches Some(s) ==> {
                &&& s.device < i
                &&& is_best(devices@.take(i as int), s.device as int)
                &&& is_first_usable(devices@[s.device as int].queue_families@, s.queue_family as int)
                &&& best_rank == devices@[s.device as int].class.rank_of()
            },
        decreases devices.len() - i,
    {
        let device = &devices[i];
        let family = if device.has_extensions {
            any_extensions = true;
            first_usable_family(&device.queue_families)
        } else {
            None
        };
        let rank = device.class.rank();
        let better = match (family, best) {
            (Some(_), None) => true,
            (Some(_), Some(_)) => rank < best_rank,
            (None, _) => false,
        };
        match family {
            Some(q) if better => {
                proof {
                    if best is Some {
                        let before = devices@.take(i as int);
                        assert forall|j: int| 0 <= j < i && capable(#[trigger] devices@[j]) implies rank
                            < devices@[j].class.rank_of() by {
                            assert(capable(before[j]));
                        }
                    }
                    lemma_best_replaced(devices@, i as int);
                }
                best = Some(Selection { device: i, queue_family: q });
                best_rank = rank;
            },
            _ => {
                proof {
                    if best is Some {
                        let k = best->Some_0.device as int;
                        assert(devices@.take(i as int)[k] == devices@[k]);
                        lemma_best_kept(devices@, i as int, k);
                    }
                }
            },
        }
        i += 1;
    }
    proof {
        assert(devices@.take(devices.len() as int) == devices@);
    }
    match best {
        Some(s) => Ok(s),
        None => {
            if any_extensions {
                Err(SelectError::NoSuitableQueue)
            } else {
                Err(SelectError::NoCapableDevice)
            }
        },
    }
}

/// At most one adapter is the best.
pub proof fn lemma_best_is_unique(devices: Seq<PhysicalDeviceInfo>, a: int, b: int)
    requires
        is_best(devices, a),
        is_best(devices, b),
    ensures
        a == b,
{
}

/// Whenever a capable discrete adapter is listed, the chosen adapter is a
/// discrete one, wherever in the list it stands and whatever else is listed.
pub proof fn lemma_discrete_wins(devices: Seq<PhysicalDeviceInfo>, chosen: int, discrete: int)
    requires
        is_best(devices, chosen),
        0 <= discrete < devices.len(),
        capable(devices[discrete]),
        devices[discrete].class == DeviceClass::Discrete,
    ensures
        devices[chosen].class == DeviceClass::Discrete,
{
}

/// The order of enumeration does not decide the class: two lists with the
/// same capable adapters, in whatever order, give chosen adapters of the
/// same class.
pub proof fn lemma_class_ignores_order(
    a: Seq<PhysicalDeviceInfo>,
    b: Seq<PhysicalDeviceInfo>,
    chosen_a: int,
    chosen_b: int,
)
    requires
        is_best(a, chosen_a),
        is_best(b, chosen_b),
        forall|i: int| 0 <= i < a.len() && capable(#[trigger] a[i]) ==> b.contains(a[i]),
        forall|i: int| 0 <= i < b.len() && capable(#[trigger] b[i]) ==> a.contains(b[i]),
    ensures
        a[chosen_a].class == b[chosen_b].class,
{
    assert(b.contains(a[chosen_a]));
    let in_b = choose|j: int| 0 <= j < b.len() && b[j] == a[chosen_a];
    assert(capable(b[in_b]));
    assert(a.contains(b[chosen_b]));
    let in_a = choose|j: int| 0 <= j < a.len() && a[j] == b[chosen_b];
    assert(capable(a[in_a]));
    assert(a[chosen_a].class.rank_of() == b[chosen_b].class.rank_of());
}

/// The rank never rejects: whenever any capable adapter is listed there is a
/// best one, whatever its class.
pub proof fn lemma_best_exists(devices: Seq<PhysicalDeviceInfo>, witness: int)
    requires
        0 <= witness < devices.len(),
        capable(devices[witness]),
    ensures
        exists|k: int| is_best(devices, k),
    decreases devices.len(),
{
    let head = devices.drop_last();
    let last = devices.len() - 1;
    if exists|j: int| 0 <= j < head.len() && capable(#[trigger] head[j]) {
        let j = choose|j: int| 0 <= j < head.len() && capable(#[trigger] head[j]);
        lemma_best_exists(head, j);
        let k = choose|k: int| is_best(head, k);
        assert(devices[k] == head[k]);
        if capable(devices[last]) && devices[last].class.rank_of() < devices[k].class.rank_of() {
            assert forall|m: int| 0 <= m < devices.len() && capable(#[trigger] devices[m]) implies devices[last].class.rank_of()
                <= devices[m].class.rank_of() by {
                if m < last {
                    assert(devices[m] == head[m]);
                }
            }
            assert forall|m: int| 0 <= m < last && capable(#[trigger] devices[m]) implies devices[last].class.rank_of()
                < devices[m].class.rank_of() by {
                assert(devices[m] == head[m]);
            }
            assert(is_best(devices, last));
        } else {
            assert forall|m: int| 0 <= m < devices.len() && capable(#[trigger] devices[m]) implies devices[k].class.rank_of()
                <= devices[m].class.rank_of() by {
                if m < last {
                    assert(devices[m] == head[m]);
                }
            }
            assert forall|m: int| 0 <= m < k && capable(#[trigger] devices[m]) implies devices[k].class.rank_of()
                < devices[m].class.rank_of() by {
                assert(devices[m] == head[m]);
            }
            assert(is_best(devices, k));
        }
    } else {
        assert forall|m: int| 0 <= m < last implies !capable(#[trigger] devices[m]) by {
            assert(devices[m] == head[m]);
        }
        assert(is_best(devices, last));
    }
}

} // verus!
