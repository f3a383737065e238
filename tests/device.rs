use voxel_render::device::{
    select_device, sharing_plan, DeviceCandidate, DeviceChoice, DeviceKind, MemoryTable,
    QueueFamily, SetupError, SharingMode,
};

fn fam(graphics: bool, present: bool) -> QueueFamily {
    QueueFamily { graphics, present }
}

#[test]
fn discrete_device_preferred_over_integrated() {
    let devs = vec![
        DeviceCandidate { kind: DeviceKind::IntegratedGpu, families: vec![fam(true, true)] },
        DeviceCandidate { kind: DeviceKind::DiscreteGpu, families: vec![fam(true, true)] },
        DeviceCandidate { kind: DeviceKind::Other, families: vec![fam(true, true)] },
    ];
    assert_eq!(
        select_device(&devs),
        Ok(DeviceChoice { device: 1, graphics_family: 0, present_family: 0 })
    );
}

#[test]
fn unsuitable_discrete_device_is_skipped() {
    let devs = vec![
        DeviceCandidate { kind: DeviceKind::DiscreteGpu, families: vec![fam(true, false)] },
        DeviceCandidate { kind: DeviceKind::Other, families: vec![fam(false, true)] },
        DeviceCandidate {
            kind: DeviceKind::IntegratedGpu,
            families: vec![fam(false, false), fam(false, true), fam(true, false), fam(true, true)],
        },
    ];
    assert_eq!(
        select_device(&devs),
        Ok(DeviceChoice { device: 2, graphics_family: 2, present_family: 1 })
    );
}

#[test]
fn first_of_equally_good_devices_wins() {
    let devs = vec![
        DeviceCandidate { kind: DeviceKind::Other, families: vec![fam(true, true)] },
        DeviceCandidate { kind: DeviceKind::IntegratedGpu, families: vec![fam(true, true)] },
        DeviceCandidate { kind: DeviceKind::IntegratedGpu, families: vec![fam(true, true)] },
    ];
    assert_eq!(select_device(&devs).unwrap().device, 1);
}

#[test]
fn no_suitable_device_is_an_error() {
    let devs = vec![
        DeviceCandidate { kind: DeviceKind::DiscreteGpu, families: vec![fam(true, false)] },
        DeviceCandidate { kind: DeviceKind::DiscreteGpu, families: vec![] },
    ];
    assert_eq!(select_device(&devs), Err(SetupError::NoSuitableDevice));
    assert_eq!(select_device(&vec![]), Err(SetupError::NoSuitableDevice));
}

const DEVICE_LOCAL: u32 = 0x1;
const HOST_VISIBLE: u32 = 0x2;
const HOST_COHERENT: u32 = 0x4;

#[test]
fn memory_type_is_first_allowed_with_all_properties() {
    let table = MemoryTable {
        type_flags: vec![
            DEVICE_LOCAL,
            HOST_VISIBLE,
            HOST_VISIBLE | HOST_COHERENT,
            HOST_VISIBLE | HOST_COHERENT | DEVICE_LOCAL,
        ],
    };
    let wanted = HOST_VISIBLE | HOST_COHERENT;
    assert_eq!(table.memory_type_index(wanted, 0b1111), Ok(2));
    assert_eq!(table.memory_type_index(wanted, 0b1000), Ok(3));
    assert_eq!(table.memory_type_index(DEVICE_LOCAL, 0b1111), Ok(0));
    assert_eq!(table.memory_type_index(DEVICE_LOCAL, 0b0110), Err(SetupError::NoMatchingMemoryType));
    assert_eq!(table.memory_type_index(0, 0), Err(SetupError::NoMatchingMemoryType));
}

#[test]
fn memory_type_selection_is_deterministic() {
    let table = MemoryTable { type_flags: vec![HOST_VISIBLE, DEVICE_LOCAL, DEVICE_LOCAL] };
    let a = table.memory_type_index(DEVICE_LOCAL, 0b111);
    let b = table.memory_type_index(DEVICE_LOCAL, 0b111);
    assert_eq!(a, b);
    assert_eq!(a, Ok(1));
}

#[test]
fn memory_type_high_index() {
    let mut flags = vec![0u32; 32];
    flags[31] = DEVICE_LOCAL;
    let table = MemoryTable { type_flags: flags };
    assert_eq!(table.memory_type_index(DEVICE_LOCAL, u32::MAX), Ok(31));
    assert_eq!(table.memory_type_index(DEVICE_LOCAL, 0x7FFF_FFFF), Err(SetupError::NoMatchingMemoryType));
}

#[test]
fn sharing_is_exclusive_for_one_family() {
    let p = sharing_plan(3, 3);
    assert_eq!(p.mode, SharingMode::Exclusive);
    assert_eq!(p.families, vec![3]);
    let q = sharing_plan(0, 2);
    assert_eq!(q.mode, SharingMode::Concurrent);
    assert_eq!(q.families, vec![0, 2]);
}
