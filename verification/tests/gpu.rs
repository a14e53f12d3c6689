use fractals::vulkan_compute::{
    PhysicalDeviceInfo, PhysicalDeviceKind, QueueFamilyInfo, VkComputeError, VkComputeOperation,
    VkDataStorage, VkExecutionOutcome, VkExtent, VkTarget,
};

fn device(kind: PhysicalDeviceKind, extensions: bool, compute: bool) -> PhysicalDeviceInfo {
    PhysicalDeviceInfo {
        kind,
        supports_required_extensions: extensions,
        queue_families: vec![QueueFamilyInfo { supports_compute: compute }],
    }
}

#[test]
fn discrete_wins_over_integrated() {
    let devices = vec![
        device(PhysicalDeviceKind::IntegratedGpu, true, true),
        device(PhysicalDeviceKind::DiscreteGpu, true, true),
    ];
    let t = VkTarget::select_compute_device(&devices).unwrap();
    assert_eq!(t.device_index, 1);
}

#[test]
fn discrete_wins_regardless_of_order() {
    let devices = vec![
        device(PhysicalDeviceKind::DiscreteGpu, true, true),
        device(PhysicalDeviceKind::IntegratedGpu, true, true),
    ];
    let t = VkTarget::select_compute_device(&devices).unwrap();
    assert_eq!(t.device_index, 0);
}

#[test]
fn first_of_equal_rank_wins() {
    let devices = vec![
        device(PhysicalDeviceKind::DiscreteGpu, true, true),
        device(PhysicalDeviceKind::DiscreteGpu, true, true),
    ];
    let t = VkTarget::select_compute_device(&devices).unwrap();
    assert_eq!(t.device_index, 0);
}

#[test]
fn unqualified_devices_are_skipped() {
    // A discrete device without the required extensions, and one without a
    // compute queue, both lose to a qualifying CPU device.
    let devices = vec![
        device(PhysicalDeviceKind::DiscreteGpu, false, true),
        device(PhysicalDeviceKind::DiscreteGpu, true, false),
        device(PhysicalDeviceKind::Cpu, true, true),
    ];
    let t = VkTarget::select_compute_device(&devices).unwrap();
    assert_eq!(t.device_index, 2);
}

#[test]
fn no_qualifying_device_is_an_error() {
    assert_eq!(
        VkTarget::select_compute_device(&Vec::new()),
        Err(VkComputeError::NoQualifyingDevice)
    );
    let devices = vec![device(PhysicalDeviceKind::DiscreteGpu, true, false)];
    assert_eq!(
        VkTarget::select_compute_device(&devices),
        Err(VkComputeError::NoQualifyingDevice)
    );
}

#[test]
fn first_compute_queue_family_is_chosen() {
    let devices = vec![PhysicalDeviceInfo {
        kind: PhysicalDeviceKind::DiscreteGpu,
        supports_required_extensions: true,
        queue_families: vec![
            QueueFamilyInfo { supports_compute: false },
            QueueFamilyInfo { supports_compute: true },
            QueueFamilyInfo { supports_compute: true },
        ],
    }];
    let t = VkTarget::select_compute_device(&devices).unwrap();
    assert_eq!(t.queue_family_index, 1);
}

fn small_op() -> VkComputeOperation {
    let data = vec![VkDataStorage::BufferU32(vec![0u32; 16])];
    let bindings = vec![vec![0u32]];
    VkComputeOperation::new(data, bindings, VkExtent::new(16, 1, 1)).unwrap()
}

#[test]
fn binding_past_the_resources_is_rejected_at_construction() {
    let data = vec![VkDataStorage::BufferU32(vec![0u32; 16])];
    let bindings = vec![vec![0u32, 1u32]];
    let r = VkComputeOperation::new(data, bindings, VkExtent::new(1, 1, 1));
    assert!(matches!(r, Err(VkComputeError::InvalidBinding)));
}

#[test]
fn execute_before_build_reports_not_built() {
    let mut op = small_op();
    assert_eq!(op.execute(), Err(VkComputeError::NotBuilt));
    assert_eq!(op.dispatch(), Ok(()));
    assert_eq!(op.execute(), Err(VkComputeError::NotBuilt));
}

#[test]
fn full_lifecycle_completes() {
    let mut op = small_op();
    assert_eq!(op.add_commands(1), Ok(()));
    assert_eq!(op.dispatch(), Ok(()));
    assert_eq!(op.build(), Ok(()));
    assert!(matches!(op.read_data(), Err(VkComputeError::NotCompleted)));
    assert_eq!(op.execute(), Ok(()));
    assert!(matches!(op.read_data(), Err(VkComputeError::NotCompleted)));
    assert_eq!(op.complete(VkExecutionOutcome::Signalled), Ok(()));
    let data = op.read_data().unwrap();
    assert_eq!(data.len(), 1);
    assert_eq!(data[0].buffer_u32().unwrap().len(), 16);
}

#[test]
fn appending_after_build_is_an_error() {
    let mut op = small_op();
    assert_eq!(op.dispatch(), Ok(()));
    assert_eq!(op.build(), Ok(()));
    assert_eq!(op.add_commands(1), Err(VkComputeError::AlreadyBuilt));
    assert_eq!(op.dispatch(), Err(VkComputeError::AlreadyBuilt));
    assert_eq!(op.build(), Err(VkComputeError::AlreadyBuilt));
}

#[test]
fn build_requires_a_dispatch() {
    let mut op = small_op();
    assert_eq!(op.build(), Err(VkComputeError::MissingDispatch));
    assert_eq!(op.dispatch(), Ok(()));
    assert_eq!(op.dispatch(), Err(VkComputeError::DispatchAlreadyRecorded));
    assert_eq!(op.build(), Ok(()));
}

#[test]
fn failed_execution_is_distinguishable() {
    let mut op = small_op();
    assert_eq!(op.complete(VkExecutionOutcome::Signalled), Err(VkComputeError::NotExecuting));
    assert_eq!(op.dispatch(), Ok(()));
    assert_eq!(op.build(), Ok(()));
    assert_eq!(op.execute(), Ok(()));
    assert_eq!(op.execute(), Err(VkComputeError::AlreadyExecuting));
    assert_eq!(op.complete(VkExecutionOutcome::TimedOut), Err(VkComputeError::WaitTimeout));
    assert!(matches!(op.read_data(), Err(VkComputeError::NotCompleted)));
    // The sealed unit survives a failed wait and can be submitted again.
    assert_eq!(op.execute(), Ok(()));
    assert_eq!(op.complete(VkExecutionOutcome::DeviceLost), Err(VkComputeError::DeviceLost));
    assert_eq!(op.execute(), Ok(()));
    assert_eq!(op.complete(VkExecutionOutcome::SubmitRejected),
        Err(VkComputeError::SubmitRejected));
    assert_eq!(op.execute(), Ok(()));
    assert_eq!(op.complete(VkExecutionOutcome::Signalled), Ok(()));
    assert!(op.read_data().is_ok());
}

#[test]
fn storage_downcasts_are_safe() {
    let img = VkDataStorage::Image { width: 8, height: 4 };
    assert_eq!(img.image(), Some((8, 4)));
    assert!(img.buffer_u8().is_none());
    assert!(img.buffer_u32().is_none());
    assert_eq!(img.element_count(), 32);
    let b8 = VkDataStorage::BufferU8(vec![1, 2, 3]);
    assert!(b8.image().is_none());
    assert_eq!(b8.buffer_u8().unwrap(), &vec![1, 2, 3]);
    assert_eq!(b8.element_count(), 3);
    let b32 = VkDataStorage::BufferU32(vec![7; 5]);
    assert_eq!(b32.buffer_u32().unwrap(), &vec![7u32; 5]);
    assert_eq!(b32.element_count(), 5);
}

#[test]
fn zero_extent_launches_no_invocations() {
    let e = VkExtent::new(16000, 1, 1);
    assert_eq!(e.invocations(), 16000);
    let zero = VkExtent::new(4, 0, 7);
    assert_eq!(zero.invocations(), 0);
}
