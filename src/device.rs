//! Choice of the physical device, its queue families and memory types.

use vstd::prelude::*;

verus! {

/// Why setting up the graphics context failed.
#[derive(Clone, Copy, PartialEq, Eq, Structural, Debug)]
pub enum SetupError {
    /// No device offers both a graphics and a presenting queue family.
    NoSuitableDevice,
    /// No memory type is both allowed and has the requested properties.
    NoMatchingMemoryType,
    /// The surface reports no color format.
    NoSurfaceFormat,
}

/// The kind of a physical device, as far as device choice cares.
#[derive(Clone, Copy, PartialEq, Eq, Structural, Debug)]
pub enum DeviceKind {
    DiscreteGpu,
    IntegratedGpu,
    Other,
}

/// Preference of a device kind: lower is better.
pub open spec fn kind_rank(k: DeviceKind) -> int {
    match k {
        DeviceKind::DiscreteGpu => 0,
        DeviceKind::IntegratedGpu => 1,
        DeviceKind::Other => 2,
    }
}

/// What a queue family of a device can do: draw, and present to the window's
/// surface.
#[derive(Clone, Copy, PartialEq, Eq, Structural, Debug)]
pub struct QueueFamily {
    pub graphics: bool,
    pub present: bool,
}

/// A physical device as enumerated: its kind and its queue families, by index.
pub struct DeviceCandidate {
    pub kind: DeviceKind,
    pub families: Vec<QueueFamily>,
}

/// The chosen device, by enumeration index, and its two queue families.
#[derive(Clone, Copy, PartialEq, Eq, Structural, Debug)]
pub struct DeviceChoice {
    pub device: usize,
    pub graphics_family: usize,
    pub present_family: usize,
}

/// `f` is the lowest index of a family that can present.
pub open spec fn is_first_present(fams: Seq<QueueFamily>, f: int) -> bool {
    &&& 0 <= f < fams.len()
    &&& fams[f].present
    &&& forall|g: int| 0 <= g < f ==> !(#[trigger] fams[g]).present
}

/// `f` is the lowest index of a family that can draw.
pub open spec fn is_first_graphics(fams: Seq<QueueFamily>, f: int) -> bool {
    &&& 0 <= f < fams.len()
    &&& fams[f].graphics
    &&& forall|g: int| 0 <= g < f ==> !(#[trigger] fams[g]).graphics
}

/// A device can serve the window when some family presents and some family
/// draws, the same one or not.
pub open spec fn suitable(fams: Seq<QueueFamily>) -> bool {
    &&& exists|f: int| 0 <= f < fams.len() && (#[trigger] fams[f]).present
    &&& exists|f: int| 0 <= f < fams.len() && (#[trigger] fams[f]).graphics
}

/// `c` is the device choice for `devs`: the first suitable device of the
/// best kind, with its first presenting and its first drawing family.
pub open spec fn is_choice(devs: Seq<DeviceCandidate>, c: DeviceChoice) -> bool {
    let i = c.device as int;
    &&& 0 <= i < devs.len()
    &&& suitable(devs[i].families@)
    &&& is_first_present(devs[i].families@, c.present_family as int)
    &&& is_first_graphics(devs[i].families@, c.graphics_family as int)
    &&& forall|j: int|
        0 <= j < devs.len() && suitable(#[trigger] devs[j].families@) ==> kind_rank(devs[j].kind)
            >= kind_rank(devs[i].kind)
    &&& forall|j: int|
        0 <= j < i && suitable(#[trigger] devs[j].families@) ==> kind_rank(devs[j].kind)
            > kind_rank(devs[i].kind)
}

fn rank(k: DeviceKind) -> (r: u8)
    ensures
        r == kind_rank(k),
{
    match k {
        DeviceKind::DiscreteGpu => 0,
        DeviceKind::IntegratedGpu => 1,
        DeviceKind::Other => 2,
    }
}

/// The lowest index of a family that can present, if any.
fn first_present_family(fams: &Vec<QueueFamily>) -> (r: Option<usize>)
    ensures
        match r {
            Some(f) => is_first_present(fams@, f as int),
            None => forall|g: int| 0 <= g < fams@.len() ==> !(#[trigger] fams@[g]).present,
        },
{
    let mut f: usize = 0;
    while f < fams.len()
        invariant
            f <= fams@.len(),
            forall|g: int| 0 <= g < f ==> !(#[trigger] fams@[g]).present,
        decreases fams@.len() - f,
    {
        if fams[f].present {
            return Some(f);
        }
        f = f + 1;
    }
    None
}

/// The lowest index of a family that can draw, if any.
fn first_graphics_family(fams: &Vec<QueueFamily>) -> (r: Option<usize>)
    ensures
        match r {
            Some(f) => is_first_graphics(fams@, f as int),
            None => forall|g: int| 0 <= g < fams@.len() ==> !(#[trigger] fams@[g]).graphics,
        },
{
    let mut f: usize = 0;
    while f < fams.len()
        invariant
            f <= fams@.len(),
            forall|g: int| 0 <= g < f ==> !(#[trigger] fams@[g]).graphics,
        decreases fams@.len() - f,
    {
        if fams[f].graphics {
            return Some(f);
        }
        f = f + 1;
    }
    None
}

/// Picks the device to render with: among the devices that have a family
/// able to present and a family able to draw, the first of the best kind
/// (discrete before integrated before any other).
pub fn select_device(devs: &Vec<DeviceCandidate>) -> (r: Result<DeviceChoice, SetupError>)
    ensures
        match r {
            Ok(c) => is_choice(devs@, c),
            Err(e) => e == SetupError::NoSuitableDevice && forall|j: int|
                0 <= j < devs@.len() ==> !suitable(#[trigger] devs@[j].families@),
        },
{
    let mut best: Option<DeviceChoice> = None;
    let mut i: usize = 0;
    while i < devs.len()
        invariant
            i <= devs@.len(),
            match best {
                Some(c) => {
                    &&& c.device < i
                    &&& suitable(devs@[c.device as int].families@)
                    &&& is_first_present(devs@[c.device as int].families@, c.present_family as int)
                    &&& is_first_graphics(devs@[c.device as int].families@, c.graphics_family as int)
                    &&& forall|j: int|
                        0 <= j < i && suitable(#[trigger] devs@[j].families@) ==> kind_rank(
                            devs@[j].kind,
                        ) >= kind_rank(devs@[c.device as int].kind)
                    &&& forall|j: int|
                        0 <= j < c.device && suitable(#[trigger] devs@[j].families@) ==> kind_rank(
                            devs@[j].kind,
                        ) > kind_rank(devs@[c.device as int].kind)
                },
                None => forall|j: int| 0 <= j < i ==> !suitable(#[trigger] devs@[j].families@),
            },
        decreases devs@.len() - i,
    {
        let dev = &devs[i];
        let present = first_present_family(&dev.families);
        let graphics = first_graphics_family(&dev.families);
        match (present, graphics) {
            (Some(p), Some(g)) => {
                let better = match best {
                    Some(c) => rank(dev.kind) < rank(devs[c.device].kind),
                    None => true,
                };
                if better {
                    best = Some(DeviceChoice { device: i, graphics_family: g, present_family: p });
                }
            },
            _ => {
                assert(!suitable(devs@[i as int].families@));
            },
        }
        i = i + 1;
    }
    match best {
        Some(c) => Ok(c),
        None => Err(SetupError::NoSuitableDevice),
    }
}

/// Whether bit `i` of a memory-type mask is set.
pub open spec fn type_allowed(bits: u32, i: u32) -> bool {
    (bits >> i) & 1u32 != 0
}

/// Whether `flags` holds every property in `wanted`.
pub open spec fn has_properties(flags: u32, wanted: u32) -> bool {
    flags & wanted == wanted
}

/// Whether memory type `i` of `types` suits an allocation that allows the
/// types in `bits` and wants the properties in `wanted`.
pub open spec fn type_matches(types: Seq<u32>, wanted: u32, bits: u32, i: int) -> bool {
    &&& 0 <= i < types.len()
    &&& type_allowed(bits, i as u32)
    &&& has_properties(types[i], wanted)
}

/// `i` is the lowest index of a memory type that suits the allocation.
pub open spec fn is_first_match(types: Seq<u32>, wanted: u32, bits: u32, i: int) -> bool {
    &&& type_matches(types, wanted, bits, i)
    &&& forall|j: int| 0 <= j < i ==> !type_matches(types, wanted, bits, j)
}

/// The memory types of a device, by index: the property flags of each.
pub struct MemoryTable {
    pub type_flags: Vec<u32>,
}

impl MemoryTable {
    /// The lowest index of a memory type that `bits` allows and whose flags
    /// hold every property in `wanted`.
    pub fn memory_type_index(&self, wanted: u32, bits: u32) -> (r: Result<u32, SetupError>)
        requires
            self.type_flags@.len() <= 32,
        ensures
            match r {
                Ok(i) => is_first_match(self.type_flags@, wanted, bits, i as int),
                Err(e) => e == SetupError::NoMatchingMemoryType && forall|j: int|
                    0 <= j < self.type_flags@.len() ==> !type_matches(
                        self.type_flags@,
                        wanted,
                        bits,
                        j,
                    ),
            },
    {
        let count = self.type_flags.len() as u32;
        let mut i: u32 = 0;
        while i < count
            invariant
                count == self.type_flags@.len(),
                count <= 32,
                i <= count,
                forall|j: int| 0 <= j < i ==> !type_matches(self.type_flags@, wanted, bits, j),
            decreases count - i,
        {
            let flags = self.type_flags[i as usize];
            if (bits >> i) & 1 != 0 && flags & wanted == wanted {
                return Ok(i);
            }
            i = i + 1;
        }
        Err(SetupError::NoMatchingMemoryType)
    }
}

/// Memory-type selection is deterministic: for one table, one mask and one
/// set of wanted properties, any two indices that the selection may return
/// are the same.
pub proof fn lemma_memory_type_deterministic(
    types: Seq<u32>,
    wanted: u32,
    bits: u32,
    i: int,
    j: int,
)
    requires
        is_first_match(types, wanted, bits, i),
        is_first_match(types, wanted, bits, j),
    ensures
        i == j,
{
}

/// How images shared by the drawing and the presenting queue are owned.
#[derive(Clone, Copy, PartialEq, Eq, Structural, Debug)]
pub enum SharingMode {
    /// One family owns the image.
    Exclusive,
    /// The listed families use the image concurrently.
    Concurrent,
}

/// The sharing mode of cross-queue resources, and the families to declare.
pub struct SharingPlan {
    pub mode: SharingMode,
    pub families: Vec<u32>,
}

/// Exclusive ownership when both queues come from one family, concurrent
/// sharing between the two families otherwise.
pub fn sharing_plan(graphics: u32, present: u32) -> (r: SharingPlan)
    ensures
        graphics == present ==> r.mode == SharingMode::Exclusive && r.families@ == seq![graphics],
        graphics != present ==> r.mode == SharingMode::Concurrent && r.families@ == seq![
            graphics,
            present,
        ],
{
    if graphics == present {
        SharingPlan { mode: SharingMode::Exclusive, families: vec![graphics] }
    } else {
        SharingPlan { mode: SharingMode::Concurrent, families: vec![graphics, present] }
    }
}

} // verus!
