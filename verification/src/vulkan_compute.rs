//! The decision core of a simple Vulkan compute path: device selection as a
//! pure ranking over queried device data, owned compute storage, and the
//! staged lifecycle of a compute operation.
//!
//! The embedding enumerates devices, submits command buffers and waits on
//! fences; every decision — which device qualifies and wins, which lifecycle
//! transitions are legal, when bound resources become readable — is made
//! here, over plain values, and verified.  The embedding reports each
//! submission's outcome as a [`VkExecutionOutcome`] event.

use vstd::prelude::*;

verus! {

/// The kind a compute device reports itself as.
#[derive(Clone, Copy, PartialEq, Eq, Structural, Debug)]
pub enum PhysicalDeviceKind {
    DiscreteGpu,
    IntegratedGpu,
    VirtualGpu,
    Cpu,
    Other,
}

/// Preference rank of a device kind: lower is better, a discrete GPU first.
pub open spec fn device_rank(k: PhysicalDeviceKind) -> int {
    match k {
        PhysicalDeviceKind::DiscreteGpu => 0,
        PhysicalDeviceKind::IntegratedGpu => 1,
        PhysicalDeviceKind::VirtualGpu => 2,
        PhysicalDeviceKind::Cpu => 3,
        PhysicalDeviceKind::Other => 4,
    }
}

/// One queue family of a device, as queried from the driver.
#[derive(Clone, Copy, PartialEq, Eq, Structural, Debug)]
pub struct QueueFamilyInfo {
    pub supports_compute: bool,
}

/// One compute device, as queried from the driver.
#[derive(Clone, Debug)]
pub struct PhysicalDeviceInfo {
    pub kind: PhysicalDeviceKind,
    pub supports_required_extensions: bool,
    pub queue_families: Vec<QueueFamilyInfo>,
}

/// Whether a device qualifies: it supports the required extension set and
/// has at least one queue family that supports compute operations.
pub open spec fn device_qualifies(d: PhysicalDeviceInfo) -> bool {
    &&& d.supports_required_extensions
    &&& exists|q: int|
        0 <= q < d.queue_families@.len() && (#[trigger] d.queue_families@[q]).supports_compute
}

/// Errors of the compute backend: one per rejected precondition, illegal
/// lifecycle transition and execution failure, so a caller can always tell
/// "not yet executed" from "failed during execution".
#[derive(Clone, Copy, PartialEq, Eq, Structural, Debug)]
pub enum VkComputeError {
    /// No enumerated device supports the required extensions and a compute
    /// queue.
    NoQualifyingDevice,
    /// A binding-table entry refers past the end of the resource list.
    InvalidBinding,
    /// The recording was already sealed; appending is an error, not
    /// silently ignored.
    AlreadyBuilt,
    /// The single dispatch command was already recorded.
    DispatchAlreadyRecorded,
    /// The recording holds no dispatch command yet, so it cannot be sealed.
    MissingDispatch,
    /// The operation was never built; nothing is submitted.
    NotBuilt,
    /// The operation is already in flight.
    AlreadyExecuting,
    /// The operation is not in flight, so no completion can be reported.
    NotExecuting,
    /// The queue rejected the submission.
    SubmitRejected,
    /// The device was lost while the operation was in flight.
    DeviceLost,
    /// Waiting for the completion signal timed out.
    WaitTimeout,
    /// The operation has not completed, so its resources are not readable.
    NotCompleted,
}

/// The device and queue family chosen for compute work, as indices into
/// the enumerated device list and the device's queue family list.
#[derive(Clone, Copy, PartialEq, Eq, Structural, Debug)]
pub struct VkTarget {
    pub device_index: usize,
    pub queue_family_index: usize,
}

/// Preference rank of a device kind, as an executable value.
fn device_rank_of(k: PhysicalDeviceKind) -> (r: u8)
    ensures
        r == device_rank(k),
{
    match k {
        PhysicalDeviceKind::DiscreteGpu => 0,
        PhysicalDeviceKind::IntegratedGpu => 1,
        PhysicalDeviceKind::VirtualGpu => 2,
        PhysicalDeviceKind::Cpu => 3,
        PhysicalDeviceKind::Other => 4,
    }
}

/// The first queue family of a device that supports compute operations.
fn first_compute_queue(d: &PhysicalDeviceInfo) -> (r: Option<usize>)
    ensures
        r is Some <==> exists|q: int|
            0 <= q < d.queue_families@.len() && (#[trigger] d.queue_families@[q]).supports_compute,
        r matches Some(q) ==> {
            &&& (q as int) < d.queue_families@.len()
            &&& d.queue_families@[q as int].supports_compute
            &&& forall|p: int|
                0 <= p < q as int ==> !(#[trigger] d.queue_families@[p]).supports_compute
        },
{
    let mut q: usize = 0;
    while q < d.queue_families.len()
        invariant
            q <= d.queue_families@.len(),
            forall|p: int| 0 <= p < q as int ==> !(#[trigger] d.queue_families@[p]).supports_compute,
        decreases d.queue_families@.len() - q,
    {
        if d.queue_families[q].supports_compute {
            return Some(q);
        }
        q = q + 1;
    }
    None
}

impl VkTarget {
    /// Attempts to find the best compute device and queue family: among the
    /// devices that support the required extensions and own a compute
    /// queue, the first device of minimum rank wins, with its first
    /// compute-capable queue family.  Fails with a distinct error value if
    /// no device qualifies, so a caller can fall back to the CPU path.
    pub fn select_compute_device(devices: &Vec<PhysicalDeviceInfo>) -> (r: Result<
        VkTarget,
        VkComputeError,
    >)
        ensures
            r is Ok <==> exists|j: int|
                0 <= j < devices@.len() && device_qualifies(#[trigger] devices@[j]),
            r matches Ok(t) ==> {
                &&& (t.device_index as int) < devices@.len()
                &&& device_qualifies(devices@[t.device_index as int])
                &&& (t.queue_family_index as int) < devices@[
                    t.device_index as int
                ].queue_families@.len()
                &&& devices@[t.device_index as int].queue_families@[
                    t.queue_family_index as int
                ].supports_compute
                &&& forall|p: int|
                    0 <= p < t.queue_family_index as int ==> !(#[trigger] devices@[
                        t.device_index as int
                    ].queue_families@[p]).supports_compute
                &&& forall|j: int|
                    0 <= j < devices@.len() && device_qualifies(#[trigger] devices@[j])
                        ==> device_rank(devices@[t.device_index as int].kind) <= device_rank(
                        devices@[j].kind,
                    )
                &&& forall|j: int|
                    0 <= j < t.device_index as int && device_qualifies(#[trigger] devices@[j])
                        ==> device_rank(devices@[j].kind) > device_rank(
                        devices@[t.device_index as int].kind,
                    )
            },
            r is Err ==> r == Err::<VkTarget, VkComputeError>(VkComputeError::NoQualifyingDevice),
    {
        let mut found: bool = false;
        let mut best_idx: usize = 0;
        let mut best_qf: usize = 0;
        let mut best_rank: u8 = 5;
        let mut i: usize = 0;
        while i < devices.len()
            invariant
                i <= devices@.len(),
                found ==> {
                    &&& (best_idx as int) < i as int
                    &&& device_qualifies(devices@[best_idx as int])
                    &&& best_rank == device_rank(devices@[best_idx as int].kind)
                    &&& (best_qf as int) < devices@[best_idx as int].queue_families@.len()
                    &&& devices@[best_idx as int].queue_families@[best_qf as int].supports_compute
                    &&& forall|p: int|
                        0 <= p < best_qf as int ==> !(#[trigger] devices@[
                            best_idx as int
                        ].queue_families@[p]).supports_compute
                },
                found ==> forall|j: int|
                    0 <= j < i as int && device_qualifies(#[trigger] devices@[j]) ==> device_rank(
                        devices@[best_idx as int].kind,
                    ) <= device_rank(devices@[j].kind),
                found ==> forall|j: int|
                    0 <= j < best_idx as int && device_qualifies(#[trigger] devices@[j])
                        ==> device_rank(devices@[j].kind) > device_rank(
                        devices@[best_idx as int].kind,
                    ),
                !found ==> forall|j: int|
                    0 <= j < i as int ==> !device_qualifies(#[trigger] devices@[j]),
            decreases devices@.len() - i,
        {
            let d = &devices[i];
            if d.supports_required_extensions {
                match first_compute_queue(d) {
                    Some(q) => {
                        let rk = device_rank_of(d.kind);
                        if !found || rk < best_rank {
                            found = true;
                            best_idx = i;
                            best_qf = q;
                            best_rank = rk;
                        }
                    },
                    None => {},
                }
            }
            i = i + 1;
        }
        if found {
            Ok(VkTarget { device_index: best_idx, queue_family_index: best_qf })
        } else {
            Err(VkComputeError::NoQualifyingDevice)
        }
    }
}

/// Owned compute-visible memory: an opaque image with a declared extent,
/// or a CPU-accessible buffer of bytes or of 32-bit words.  Each is
/// registered in a binding table for the duration of one compute
/// operation; the caller reads it back after completion.
pub enum VkDataStorage {
    Image { width: u32, height: u32 },
    BufferU8(Vec<u8>),
    BufferU32(Vec<u32>),
}

impl VkDataStorage {
    /// Safe downcast: the image extent, if this resource is an image.
    pub fn image(&self) -> (r: Option<(u32, u32)>)
        ensures
            match *self {
                VkDataStorage::Image { width, height } => r == Some((width, height)),
                _ => r is None,
            },
    {
        match self {
            VkDataStorage::Image { width, height } => Some((*width, *height)),
            _ => None,
        }
    }

    /// Safe downcast: the byte buffer's contents, if this resource is one.
    pub fn buffer_u8(&self) -> (r: Option<&Vec<u8>>)
        ensures
            match *self {
                VkDataStorage::BufferU8(v) => r matches Some(b) && b@ == v@,
                _ => r is None,
            },
    {
        match self {
            VkDataStorage::BufferU8(v) => Some(v),
            _ => None,
        }
    }

    /// Safe downcast: the word buffer's contents, if this resource is one.
    pub fn buffer_u32(&self) -> (r: Option<&Vec<u32>>)
        ensures
            match *self {
                VkDataStorage::BufferU32(v) => r matches Some(b) && b@ == v@,
                _ => r is None,
            },
    {
        match self {
            VkDataStorage::BufferU32(v) => Some(v),
            _ => None,
        }
    }

    /// The up-front-declared element count of the resource.
    pub fn element_count(&self) -> (n: u64)
        ensures
            match *self {
                VkDataStorage::Image { width, height } => n == (width as int) * (height as int),
                VkDataStorage::BufferU8(v) => n == v@.len(),
                VkDataStorage::BufferU32(v) => n == v@.len(),
            },
    {
        match self {
            VkDataStorage::Image { width, height } => {
                proof {
                    assert((*width as int) * (*height as int) <= 0xffff_ffff_0000_0000)
                        by (nonlinear_arith)
                        requires
                            0 <= (*width as int) <= 0xffff_ffff,
                            0 <= (*height as int) <= 0xffff_ffff;
                }
                (*width as u64) * (*height as u64)
            },
            VkDataStorage::BufferU8(v) => v.len() as u64,
            VkDataStorage::BufferU32(v) => v.len() as u64,
        }
    }
}

/// The dispatch extent: how many kernel invocations a compute operation
/// launches, as a 3D grid.
#[derive(Clone, Copy, PartialEq, Eq, Structural, Debug)]
pub struct VkExtent {
    pub size_x: u32,
    pub size_y: u32,
    pub size_z: u32,
}

impl VkExtent {
    /// Builds an extent from its three grid sizes.
    pub fn new(size_x: u32, size_y: u32, size_z: u32) -> (r: Self)
        ensures
            r.size_x == size_x,
            r.size_y == size_y,
            r.size_z == size_z,
    {
        VkExtent { size_x, size_y, size_z }
    }

    /// The number of kernel invocations this extent launches: zero when any
    /// dimension is zero, while the lifecycle still proceeds normally.
    pub fn invocations(&self) -> (n: u128)
        ensures
            n == (self.size_x as int) * (self.size_y as int) * (self.size_z as int),
    {
        proof {
            assert((self.size_x as int) * (self.size_y as int) <= 0xffff_ffff_0000_0000
                && (self.size_x as int) * (self.size_y as int) >= 0) by (nonlinear_arith)
                requires
                    0 <= (self.size_x as int) <= 0xffff_ffff,
                    0 <= (self.size_y as int) <= 0xffff_ffff;
            assert(((self.size_x as int) * (self.size_y as int)) * (self.size_z as int)
                <= 0xffff_ffff_0000_0000 * 0xffff_ffff) by (nonlinear_arith)
                requires
                    0 <= (self.size_x as int) * (self.size_y as int) <= 0xffff_ffff_0000_0000,
                    0 <= (self.size_z as int) <= 0xffff_ffff;
        }
        ((self.size_x as u128) * (self.size_y as u128)) * (self.size_z as u128)
    }
}

/// The stage a compute operation has reached, in its strict order.
#[derive(Clone, Copy, PartialEq, Eq, Structural, Debug)]
pub enum VkOperationState {
    /// Bindings and extent are fixed; an empty recording has begun.
    Created,
    /// Commands are being appended.
    Recording,
    /// The recording is sealed into an immutable, reusable submission unit.
    Built,
    /// The unit has been submitted to the device queue.
    Executing,
    /// The completion signal arrived; bound resources are readable.
    Completed,
}

/// What the embedding reports after submitting the built unit and waiting
/// on the completion handle.
#[derive(Clone, Copy, PartialEq, Eq, Structural, Debug)]
pub enum VkExecutionOutcome {
    /// The device signalled completion.
    Signalled,
    /// The queue rejected the submission.
    SubmitRejected,
    /// The device was lost.
    DeviceLost,
    /// The wait timed out.
    TimedOut,
}

/// Every binding-table entry refers to a resource that exists.
pub open spec fn bindings_valid(bindings: Seq<Vec<u32>>, n_resources: int) -> bool {
    forall|s: int, i: int|
        0 <= s < bindings.len() && 0 <= i < bindings[s]@.len() ==> (#[trigger] bindings[s]@[i]
            as int) < n_resources
}

/// One compute operation: a fixed binding of resources to slots, a dispatch
/// extent, and a recording that progresses through the staged lifecycle
/// `Created -> Recording -> Built -> Executing -> Completed` with no
/// skipping.  The operation owns its resources until completion.
pub struct VkComputeOperation {
    pub state: VkOperationState,
    pub data: Vec<VkDataStorage>,
    pub data_bindings: Vec<Vec<u32>>,
    pub extent: VkExtent,
    pub aux_commands: u64,
    pub dispatched: bool,
}

impl VkComputeOperation {
    /// Fixes resources, bindings and extent, and begins an empty recording.
    /// A binding that refers past the resource list is rejected here, at
    /// construction time, never at dispatch time.
    pub fn new(data: Vec<VkDataStorage>, data_bindings: Vec<Vec<u32>>, extent: VkExtent) -> (r:
        Result<VkComputeOperation, VkComputeError>)
        ensures
            r is Ok <==> bindings_valid(data_bindings@, data@.len() as int),
            r matches Ok(op) ==> {
                &&& op.state is Created
                &&& op.data@ == data@
                &&& op.data_bindings@ == data_bindings@
                &&& op.extent == extent
                &&& op.aux_commands == 0
                &&& !op.dispatched
            },
            r is Err ==> r == Err::<VkComputeOperation, VkComputeError>(
                VkComputeError::InvalidBinding,
            ),
    {
        let n = data.len();
        let mut s: usize = 0;
        while s < data_bindings.len()
            invariant
                s <= data_bindings@.len(),
                n == data@.len(),
                forall|s2: int, i: int|
                    0 <= s2 < s as int && 0 <= i < data_bindings@[s2]@.len() ==> (
                    #[trigger] data_bindings@[s2]@[i] as int) < n as int,
            decreases data_bindings@.len() - s,
        {
            let set = &data_bindings[s];
            let mut i: usize = 0;
            while i < set.len()
                invariant
                    i <= set@.len(),
                    n == data@.len(),
                    set@ == data_bindings@[s as int]@,
                    (s as int) < data_bindings@.len(),
                    forall|j: int| 0 <= j < i as int ==> (#[trigger] set@[j] as int) < n as int,
                decreases set@.len() - i,
            {
                if set[i] as usize >= n {
                    return Err(VkComputeError::InvalidBinding);
                }
                i = i + 1;
            }
            s = s + 1;
        }
        Ok(
            VkComputeOperation {
                state: VkOperationState::Created,
                data,
                data_bindings,
                extent,
                aux_commands: 0,
                dispatched: false,
            },
        )
    }

    /// Appends `count` auxiliary commands (for example resource-to-resource
    /// copies) to the recording.  Appending after the recording was sealed
    /// is an error, not silently ignored.
    pub fn add_commands(&mut self, count: u64) -> (r: Result<(), VkComputeError>)
        ensures
            (old(self).state is Created || old(self).state is Recording) ==> {
                &&& r is Ok
                &&& final(self).state is Recording
                &&& final(self).aux_commands == if old(self).aux_commands + count > u64::MAX {
                    u64::MAX as int
                } else {
                    old(self).aux_commands + count
                }
                &&& final(self).data@ == old(self).data@
                &&& final(self).data_bindings@ == old(self).data_bindings@
                &&& final(self).extent == old(self).extent
                &&& final(self).dispatched == old(self).dispatched
            },
            !(old(self).state is Created || old(self).state is Recording) ==> {
                &&& r == Err::<(), VkComputeError>(VkComputeError::AlreadyBuilt)
                &&& *final(self) == *old(self)
            },
    {
        match self.state {
            VkOperationState::Created | VkOperationState::Recording => {
                self.state = VkOperationState::Recording;
                self.aux_commands = if count > u64::MAX - self.aux_commands {
                    u64::MAX
                } else {
                    self.aux_commands + count
                };
                Ok(())
            },
            _ => Err(VkComputeError::AlreadyBuilt),
        }
    }

    /// Records the single dispatch command, parameterized by the extent
    /// fixed at construction.
    pub fn dispatch(&mut self) -> (r: Result<(), VkComputeError>)
        ensures
            (old(self).state is Created || old(self).state is Recording) && !old(self).dispatched
                ==> {
                &&& r is Ok
                &&& final(self).state is Recording
                &&& final(self).dispatched
                &&& final(self).data@ == old(self).data@
                &&& final(self).data_bindings@ == old(self).data_bindings@
                &&& final(self).extent == old(self).extent
                &&& final(self).aux_commands == old(self).aux_commands
            },
            (old(self).state is Created || old(self).state is Recording) && old(self).dispatched
                ==> {
                &&& r == Err::<(), VkComputeError>(VkComputeError::DispatchAlreadyRecorded)
                &&& *final(self) == *old(self)
            },
            !(old(self).state is Created || old(self).state is Recording) ==> {
                &&& r == Err::<(), VkComputeError>(VkComputeError::AlreadyBuilt)
                &&& *final(self) == *old(self)
            },
    {
        match self.state {
            VkOperationState::Created | VkOperationState::Recording => {
                if self.dispatched {
                    Err(VkComputeError::DispatchAlreadyRecorded)
                } else {
                    self.state = VkOperationState::Recording;
                    self.dispatched = true;
                    Ok(())
                }
            },
            _ => Err(VkComputeError::AlreadyBuilt),
        }
    }

    /// Seals the recording into an immutable, reusable submission unit.  A
    /// recording without its dispatch command cannot be sealed.
    pub fn build(&mut self) -> (r: Result<(), VkComputeError>)
        ensures
            (old(self).state is Created || old(self).state is Recording) && old(self).dispatched
                ==> {
                &&& r is Ok
                &&& final(self).state is Built
                &&& final(self).data@ == old(self).data@
                &&& final(self).data_bindings@ == old(self).data_bindings@
                &&& final(self).extent == old(self).extent
                &&& final(self).aux_commands == old(self).aux_commands
                &&& final(self).dispatched
            },
            (old(self).state is Created || old(self).state is Recording) && !old(self).dispatched
                ==> {
                &&& r == Err::<(), VkComputeError>(VkComputeError::MissingDispatch)
                &&& *final(self) == *old(self)
            },
            !(old(self).state is Created || old(self).state is Recording) ==> {
                &&& r == Err::<(), VkComputeError>(VkComputeError::AlreadyBuilt)
                &&& *final(self) == *old(self)
            },
    {
        match self.state {
            VkOperationState::Created | VkOperationState::Recording => {
                if self.dispatched {
                    self.state = VkOperationState::Built;
                    Ok(())
                } else {
                    Err(VkComputeError::MissingDispatch)
                }
            },
            _ => Err(VkComputeError::AlreadyBuilt),
        }
    }

    /// Moves a built unit into flight: the embedding must now submit it to
    /// the device queue and report the outcome through `complete`.  Before
    /// the unit is built this returns the "not built" error and nothing is
    /// ever submitted; a completed unit, being sealed and reusable, may be
    /// submitted again.
    pub fn execute(&mut self) -> (r: Result<(), VkComputeError>)
        ensures
            (old(self).state is Built || old(self).state is Completed) ==> {
                &&& r is Ok
                &&& final(self).state is Executing
                &&& final(self).data@ == old(self).data@
                &&& final(self).data_bindings@ == old(self).data_bindings@
                &&& final(self).extent == old(self).extent
                &&& final(self).aux_commands == old(self).aux_commands
                &&& final(self).dispatched == old(self).dispatched
            },
            (old(self).state is Created || old(self).state is Recording) ==> {
                &&& r == Err::<(), VkComputeError>(VkComputeError::NotBuilt)
                &&& *final(self) == *old(self)
            },
            old(self).state is Executing ==> {
                &&& r == Err::<(), VkComputeError>(VkComputeError::AlreadyExecuting)
                &&& *final(self) == *old(self)
            },
    {
        match self.state {
            VkOperationState::Built | VkOperationState::Completed => {
                self.state = VkOperationState::Executing;
                Ok(())
            },
            VkOperationState::Executing => Err(VkComputeError::AlreadyExecuting),
            _ => Err(VkComputeError::NotBuilt),
        }
    }

    /// Records the outcome the embedding observed for the submission in
    /// flight.  Success completes the operation; each failure returns the
    /// distinct error for its step and leaves the sealed unit built, so the
    /// caller can tell "not yet executed" from "failed during execution".
    pub fn complete(&mut self, outcome: VkExecutionOutcome) -> (r: Result<(), VkComputeError>)
        ensures
            old(self).state is Executing ==> {
                &&& final(self).data@ == old(self).data@
                &&& final(self).data_bindings@ == old(self).data_bindings@
                &&& final(self).extent == old(self).extent
                &&& final(self).aux_commands == old(self).aux_commands
                &&& final(self).dispatched == old(self).dispatched
                &&& match outcome {
                    VkExecutionOutcome::Signalled => r is Ok && final(self).state is Completed,
                    VkExecutionOutcome::SubmitRejected => r == Err::<(), VkComputeError>(
                        VkComputeError::SubmitRejected,
                    ) && final(self).state is Built,
                    VkExecutionOutcome::DeviceLost => r == Err::<(), VkComputeError>(
                        VkComputeError::DeviceLost,
                    ) && final(self).state is Built,
                    VkExecutionOutcome::TimedOut => r == Err::<(), VkComputeError>(
                        VkComputeError::WaitTimeout,
                    ) && final(self).state is Built,
                }
            },
            !(old(self).state is Executing) ==> {
                &&& r == Err::<(), VkComputeError>(VkComputeError::NotExecuting)
                &&& *final(self) == *old(self)
            },
    {
        match self.state {
            VkOperationState::Executing => match outcome {
                VkExecutionOutcome::Signalled => {
                    self.state = VkOperationState::Completed;
                    Ok(())
                },
                VkExecutionOutcome::SubmitRejected => {
                    self.state = VkOperationState::Built;
                    Err(VkComputeError::SubmitRejected)
                },
                VkExecutionOutcome::DeviceLost => {
                    self.state = VkOperationState::Built;
                    Err(VkComputeError::DeviceLost)
                },
                VkExecutionOutcome::TimedOut => {
                    self.state = VkOperationState::Built;
                    Err(VkComputeError::WaitTimeout)
                },
            },
            _ => Err(VkComputeError::NotExecuting),
        }
    }

    /// The read handle over the bound resources: available exactly once the
    /// operation has completed.  Reading earlier is rejected by design.
    pub fn read_data(&self) -> (r: Result<&Vec<VkDataStorage>, VkComputeError>)
        ensures
            self.state is Completed ==> (r matches Ok(d) && d@ == self.data@),
            !(self.state is Completed) ==> r == Err::<&Vec<VkDataStorage>, VkComputeError>(
                VkComputeError::NotCompleted,
            ),
    {
        match self.state {
            VkOperationState::Completed => Ok(&self.data),
            _ => Err(VkComputeError::NotCompleted),
        }
    }
}

/// Whenever some qualifying device is a discrete GPU, any selection that
/// meets the ranking contract lands on a discrete GPU, whatever the order
/// of the list.
pub proof fn lemma_discrete_preferred(devices: Seq<PhysicalDeviceInfo>, t: VkTarget, j: int)
    requires
        0 <= j < devices.len(),
        device_qualifies(devices[j]),
        devices[j].kind is DiscreteGpu,
        0 <= (t.device_index as int) && (t.device_index as int) < devices.len(),
        device_qualifies(devices[t.device_index as int]),
        forall|i: int|
            0 <= i < devices.len() && device_qualifies(#[trigger] devices[i]) ==> device_rank(
                devices[t.device_index as int].kind,
            ) <= device_rank(devices[i].kind),
    ensures
        devices[t.device_index as int].kind is DiscreteGpu,
{
    assert(device_rank(devices[t.device_index as int].kind) <= 0);
}

} // verus!
