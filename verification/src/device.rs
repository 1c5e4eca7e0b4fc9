//! Device selector: which of the graphics devices of the machine renders and
//! presents, and through which queue family.
//!
//! The devices are described by plain values; whoever enumerates them fills
//! in one [`DeviceInfo`] per device, in the order of enumeration.

use vstd::prelude::*;
use crate::swapchain::SurfaceCapabilities;

verus! {

/// The kind of a physical device.
#[derive(Copy, Clone, Debug, PartialEq, Eq, Structural)]
pub enum DeviceKind {
    DiscreteGpu,
    IntegratedGpu,
    VirtualGpu,
    Cpu,
    Other,
}

impl DeviceKind {
    /// Place in the order of preference; the lower, the better.
    pub open spec fn rank(self) -> u8 {
        match self {
            DeviceKind::DiscreteGpu => 0,
            DeviceKind::IntegratedGpu => 1,
            DeviceKind::VirtualGpu => 2,
            DeviceKind::Cpu => 3,
            DeviceKind::Other => 4,
        }
    }

    pub fn priority(&self) -> (r: u8)
        ensures
            r == self.rank(),
    {
        match self {
            DeviceKind::DiscreteGpu => 0,
            DeviceKind::IntegratedGpu => 1,
            DeviceKind::VirtualGpu => 2,
            DeviceKind::Cpu => 3,
            DeviceKind::Other => 4,
        }
    }
}

/// The device extensions that this engine asks about.
#[derive(Copy, Clone, Debug, PartialEq, Eq, Structural)]
pub struct DeviceExtensions {
    /// Presenting through a swap chain.
    pub khr_swapchain: bool,
}

impl DeviceExtensions {
    /// Every extension of `other` is among these.
    pub open spec fn includes(self, other: DeviceExtensions) -> bool {
        other.khr_swapchain ==> self.khr_swapchain
    }

    pub fn empty() -> (e: DeviceExtensions)
        ensures
            e == (DeviceExtensions { khr_swapchain: false }),
    {
        DeviceExtensions { khr_swapchain: false }
    }

    /// What presenting to a surface requires.
    pub fn presentation() -> (e: DeviceExtensions)
        ensures
            e == (DeviceExtensions { khr_swapchain: true }),
    {
        DeviceExtensions { khr_swapchain: true }
    }

    pub fn contains(&self, other: &DeviceExtensions) -> (b: bool)
        ensures
            b == self.includes(*other),
    {
        !other.khr_swapchain || self.khr_swapchain
    }
}

/// Whether a queue family can present to the target surface.
#[derive(Copy, Clone, Debug, PartialEq, Eq, Structural)]
pub enum SurfaceSupport {
    Supported,
    Unsupported,
    /// The query failed; the family is treated as one that cannot present.
    Unknown,
}

/// One queue family of a device.
#[derive(Copy, Clone, Debug, PartialEq, Eq, Structural)]
pub struct QueueFamily {
    /// The family executes graphics operations.
    pub graphics: bool,
    pub present: SurfaceSupport,
}

impl QueueFamily {
    /// The family both renders and presents to the surface.
    pub open spec fn usable(self) -> bool {
        self.graphics && self.present == SurfaceSupport::Supported
    }

    pub fn is_usable(&self) -> (b: bool)
        ensures
            b == self.usable(),
    {
        match self.present {
            SurfaceSupport::Supported => self.graphics,
            _ => false,
        }
    }
}

/// What is known of one physical device.
#[derive(Clone, Debug)]
pub struct DeviceInfo {
    pub kind: DeviceKind,
    /// The extensions the device supports.
    pub extensions: DeviceExtensions,
    /// The queue families, in the device's own order.
    pub queue_families: Vec<QueueFamily>,
    /// What the device reports about presenting to the target surface.
    pub capabilities: SurfaceCapabilities,
}

/// `index` is the first usable family among `families`.
pub open spec fn first_usable(families: Seq<QueueFamily>, index: int) -> bool {
    &&& 0 <= index < families.len()
    &&& families[index].usable()
    &&& forall|j: int| 0 <= j < index ==> !(#[trigger] families[j]).usable()
}

/// No family among `families` is usable.
pub open spec fn none_usable(families: Seq<QueueFamily>) -> bool {
    forall|j: int| 0 <= j < families.len() ==> !(#[trigger] families[j]).usable()
}

impl DeviceInfo {
    /// The device supports the required extensions and has a queue family
    /// that renders and presents.
    pub open spec fn suitable(self, required: DeviceExtensions) -> bool {
        self.extensions.includes(required) && !none_usable(self.queue_families@)
    }

    /// The first queue family that both renders and presents, if there is one.
    pub fn find_queue_family(&self) -> (r: Option<usize>)
        ensures
            match r {
                Some(index) => first_usable(self.queue_families@, index as int),
                None => none_usable(self.queue_families@),
            },
    {
        let mut i: usize = 0;
        while i < self.queue_families.len()
            invariant
                i <= self.queue_families@.len(),
                forall|j: int| 0 <= j < i ==> !(#[trigger] self.queue_families@[j]).usable(),
            decreases self.queue_families@.len() - i,
        {
            if self.queue_families[i].is_usable() {
                return Some(i);
            }
            i += 1;
        }
        None
    }
}

/// `best` is the device to select: it is suitable, no suitable device ranks
/// better, and of the suitable devices of its rank it comes first.
pub open spec fn is_selection(devices: Seq<DeviceInfo>, required: DeviceExtensions, best: int) -> bool {
    &&& 0 <= best < devices.len()
    &&& devices[best].suitable(required)
    &&& forall|j: int|
        0 <= j < devices.len() && (#[trigger] devices[j]).suitable(required) ==> {
            ||| devices[best].kind.rank() < devices[j].kind.rank()
            ||| devices[best].kind.rank() == devices[j].kind.rank() && best <= j
        }
}

/// No device can be selected.
pub open spec fn none_suitable(devices: Seq<DeviceInfo>, required: DeviceExtensions) -> bool {
    forall|j: int| 0 <= j < devices.len() ==> !(#[trigger] devices[j]).suitable(required)
}

/// The selected device with what it reports about the surface. It is chosen
/// once and kept for the life of the process.
#[derive(Clone, Debug)]
pub struct GraphicsDevice {
    /// Place of the device in the enumeration it was selected from.
    pub index: usize,
    pub kind: DeviceKind,
    pub capabilities: SurfaceCapabilities,
}

/// The one queue through which command lists are submitted and images
/// presented.
#[derive(Copy, Clone, Debug, PartialEq, Eq, Structural)]
pub struct CommandQueue {
    /// Index of the queue's family on the selected device.
    pub family_index: usize,
}

/// No device supports the required extensions together with a queue family
/// that renders and presents to the surface.
#[derive(Copy, Clone, Debug, PartialEq, Eq, Structural)]
pub struct NoSuitableDeviceError {}

/// Selects the device to render and present with, and the family of its
/// queue. Of the suitable devices the best ranked wins: discrete before
/// integrated before virtual before CPU before any other; among equals, the
/// one enumerated first.
pub fn select(devices: Vec<DeviceInfo>, required: &DeviceExtensions) -> (r: Result<
    (GraphicsDevice, CommandQueue),
    NoSuitableDeviceError,
>)
    ensures
        match r {
            Ok((device, queue)) => {
                &&& is_selection(devices@, *required, device.index as int)
                &&& device.kind == devices@[device.index as int].kind
                &&& device.capabilities == devices@[device.index as int].capabilities
                &&& first_usable(
                    devices@[device.index as int].queue_families@,
                    queue.family_index as int,
                )
            },
            Err(_) => none_suitable(devices@, *required),
        },
{
    let mut devices = devices;
    let ghost all = devices@;
    let mut found = false;
    let mut best: usize = 0;
    let mut best_family: usize = 0;
    let mut best_rank: u8 = 0;
    let mut i: usize = 0;
    while i < devices.len()
        invariant
            devices@ == all,
            i <= all.len(),
            !found ==> forall|j: int| 0 <= j < i ==> !(#[trigger] all[j]).suitable(*required),
            found ==> {
                &&& best < i
                &&& all[best as int].suitable(*required)
                &&& best_rank == all[best as int].kind.rank()
                &&& first_usable(all[best as int].queue_families@, best_family as int)
                &&& forall|j: int|
                    0 <= j < i && (#[trigger] all[j]).suitable(*required) ==> {
                        ||| best_rank < all[j].kind.rank()
                        ||| best_rank == all[j].kind.rank() && best <= j
                    }
            },
        decreases all.len() - i,
    {
        let candidate = &devices[i];
        if candidate.extensions.contains(required) {
            match candidate.find_queue_family() {
                Some(family) => {
                    let rank: u8 = candidate.kind.priority();
                    if !found || rank < best_rank {
                        found = true;
                        best = i;
                        best_family = family;
                        best_rank = rank;
                    }
                },
                None => {},
            }
        }
        i += 1;
    }
    if !found {
        return Err(NoSuitableDeviceError {});
    }
    let chosen = devices.remove(best);
    Ok(
        (
            GraphicsDevice { index: best, kind: chosen.kind, capabilities: chosen.capabilities },
            CommandQueue { family_index: best_family },
        ),
    )
}

} // verus!
