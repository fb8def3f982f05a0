//! Compute backend abstraction over WGPU, CUDA and a CPU fallback.
//!
//! Solvers dispatch kernels through [`GpuComputeBackend`] without knowing
//! which backend is active.  [`CpuFallbackBackend`] keeps its buffers in
//! host memory; it serves systems without a GPU and restricted-CFD settings
//! where the GPU may not be used.
use std::collections::HashMap;
use vstd::prelude::*;

verus! {

broadcast use vstd::std_specs::hash::group_hash_axioms;

/// Backend kind.
#[derive(Debug, Clone, Copy, PartialEq, Eq)]
pub enum GpuBackendType {
    /// WebGPU abstraction (Vulkan / Metal / DX12).
    Wgpu,
    /// Native CUDA (NVIDIA only).
    CudaNative,
    /// CPU fallback.
    CpuFallback,
}

/// Information about the compute device.
#[derive(Debug)]
pub struct GpuDeviceInfo {
    pub name: String,
    pub backend: GpuBackendType,
    pub vram_bytes: u64,
    pub max_workgroup_size: [u32; 3],
    pub supports_fp64: bool,
}

impl GpuDeviceInfo {
    /// A field-by-field copy.
    pub fn duplicate(&self) -> (r: Self)
        ensures
            r.name@ == self.name@,
            r.backend == self.backend,
            r.vram_bytes == self.vram_bytes,
            r.max_workgroup_size == self.max_workgroup_size,
            r.supports_fp64 == self.supports_fp64,
    {
        GpuDeviceInfo {
            name: self.name.clone(),
            backend: self.backend,
            vram_bytes: self.vram_bytes,
            max_workgroup_size: self.max_workgroup_size,
            supports_fp64: self.supports_fp64,
        }
    }
}

impl Clone for GpuDeviceInfo {
    /// A field-by-field copy.
    fn clone(&self) -> (r: Self)
        ensures
            r.name@ == self.name@,
            r.backend == self.backend,
            r.vram_bytes == self.vram_bytes,
            r.max_workgroup_size == self.max_workgroup_size,
            r.supports_fp64 == self.supports_fp64,
    {
        self.duplicate()
    }
}

/// Opaque handle to a device buffer.
#[derive(Debug, Clone, Copy, PartialEq, Eq, Hash)]
pub struct GpuBufferHandle(pub(crate) u64);

impl GpuBufferHandle {
    /// The handle number.
    pub closed spec fn number(&self) -> u64 {
        self.0
    }

    /// The raw handle number.
    pub fn id(&self) -> (r: u64)
        ensures
            r == self.number(),
    {
        self.0
    }
}

/// Compute backend errors.
#[derive(Debug)]
pub enum GpuError {
    NoDeviceFound,
    OutOfMemory { requested: usize, available: usize },
    KernelNotFound(String),
    CompilationError(String),
    DriverError(String),
}

/// Decimal digits of `n`, most significant first.
pub open spec fn decimal_digits(n: nat) -> Seq<char>
    decreases n,
{
    if n < 10 {
        seq![((n + 48) as u32) as char]
    } else {
        decimal_digits(n / 10).push((((n % 10) + 48) as u32) as char)
    }
}

/// `"Invalid handle: "` followed by the decimal form of `id`.
pub open spec fn invalid_handle_text(id: u64) -> Seq<char> {
    "Invalid handle: "@ + decimal_digits(id as nat)
}

/// The one-character string of decimal digit `d`.
fn digit_str(d: u64) -> (r: &'static str)
    requires
        d < 10,
    ensures
        r@ == seq![((d + 48) as u32) as char],
{
    proof {
        reveal_strlit("0");
        reveal_strlit("1");
        reveal_strlit("2");
        reveal_strlit("3");
        reveal_strlit("4");
        reveal_strlit("5");
        reveal_strlit("6");
        reveal_strlit("7");
        reveal_strlit("8");
        reveal_strlit("9");
    }
    let r = match d {
        0 => "0",
        1 => "1",
        2 => "2",
        3 => "3",
        4 => "4",
        5 => "5",
        6 => "6",
        7 => "7",
        8 => "8",
        _ => "9",
    };
    assert(r@ =~= seq![((d + 48) as u32) as char]);
    r
}

/// The decimal form of `n`, without sign or padding.
fn decimal_string(n: u64) -> (r: String)
    ensures
        r@ == decimal_digits(n as nat),
    decreases n,
{
    if n < 10 {
        String::from_str(digit_str(n))
    } else {
        let mut s = decimal_string(n / 10);
        s.append(digit_str(n % 10));
        proof {
            assert(decimal_digits(n as nat) == decimal_digits((n / 10) as nat).push((((n % 10) + 48) as u32) as char));
            assert(s@ =~= decimal_digits(n as nat));
        }
        s
    }
}

/// `"Invalid handle: "` followed by the decimal form of `id`.
fn invalid_handle_message(id: u64) -> (r: String)
    ensures
        r@ == invalid_handle_text(id),
{
    let mut s = String::from_str("Invalid handle: ");
    let digits = decimal_string(id);
    s.append(digits.as_str());
    s
}

/// Unified compute interface implemented by every backend.
pub trait GpuComputeBackend: Send + Sync {
    /// Detects and initialises the device.
    fn init(&mut self) -> Result<GpuDeviceInfo, GpuError>;

    /// Allocates a device buffer of `size_bytes` bytes.
    fn allocate_buffer(&mut self, size_bytes: usize, label: &str) -> Result<GpuBufferHandle, GpuError>;

    /// Copies host data to a device buffer.
    fn upload(&mut self, handle: &GpuBufferHandle, data: &[u8]) -> Result<(), GpuError>;

    /// Copies a device buffer to host memory.
    fn download(&self, handle: &GpuBufferHandle, output: &mut [u8]) -> Result<(), GpuError>;

    /// Dispatches a compute kernel.
    fn dispatch_kernel(&self, kernel_name: &str, workgroups: [u32; 3], bindings: &[GpuBufferHandle]) -> Result<(), GpuError>;

    /// Waits for all pending dispatches.
    fn sync(&self) -> Result<(), GpuError>;

    /// Frees a device buffer.
    fn free_buffer(&mut self, handle: GpuBufferHandle) -> Result<(), GpuError>;

    /// Device information.
    fn device_info(&self) -> &GpuDeviceInfo;
}

/// CPU fallback backend: buffers are host vectors keyed by handle number,
/// and kernels run as no-ops.
pub struct CpuFallbackBackend {
    info: GpuDeviceInfo,
    next_handle: u64,
    buffers: HashMap<u64, Vec<u8>>,
}

impl CpuFallbackBackend {
    /// Buffers by handle number.
    pub closed spec fn buffer_map(&self) -> Map<u64, Seq<u8>> {
        self.buffers@.map_values(|v: Vec<u8>| v@)
    }

    /// Handle number the next allocation receives.
    pub closed spec fn next_id(&self) -> u64 {
        self.next_handle
    }

    /// The device information.
    pub closed spec fn info_view(&self) -> GpuDeviceInfo {
        self.info
    }

    /// Every live buffer has a number below the next one.
    pub closed spec fn wf(&self) -> bool {
        forall|k: u64| self.buffers@.contains_key(k) ==> k < self.next_handle
    }

    /// The CPU device description: name "CPU Fallback", no VRAM,
    /// workgroups of up to 1024 × 1 × 1, double precision supported.
    pub open spec fn cpu_info(info: GpuDeviceInfo) -> bool {
        &&& info.name@ == "CPU Fallback"@
        &&& info.backend == GpuBackendType::CpuFallback
        &&& info.vram_bytes == 0
        &&& info.max_workgroup_size == [1024u32, 1, 1]
        &&& info.supports_fp64
    }

    /// A backend with no buffers, numbering them from zero.
    pub fn new() -> (r: Self)
        ensures
            r.wf(),
            Self::cpu_info(r.info_view()),
            r.next_id() == 0,
            r.buffer_map() == Map::<u64, Seq<u8>>::empty(),
    {
        let r = CpuFallbackBackend {
            info: GpuDeviceInfo {
                name: String::from_str("CPU Fallback"),
                backend: GpuBackendType::CpuFallback,
                vram_bytes: 0,
                max_workgroup_size: [1024, 1, 1],
                supports_fp64: true,
            },
            next_handle: 0,
            buffers: HashMap::new(),
        };
        assert(r.buffer_map() =~= Map::<u64, Seq<u8>>::empty());
        r
    }

    /// Whether `id` names a live buffer.
    pub fn has_buffer(&self, id: u64) -> (r: bool)
        ensures
            r == self.buffer_map().contains_key(id),
    {
        self.buffers.contains_key(&id)
    }
}

/// `buf` with its first `min(data.len(), buf.len())` bytes replaced by
/// those of `data`.
pub open spec fn overwrite_prefix(buf: Seq<u8>, data: Seq<u8>) -> Seq<u8> {
    let len = if data.len() < buf.len() { data.len() } else { buf.len() };
    data.take(len as int) + buf.skip(len as int)
}

/// `n` zero bytes.
pub open spec fn zeroed(n: nat) -> Seq<u8> {
    Seq::new(n, |k: int| 0u8)
}

/// A vector of `n` zero bytes.
fn zero_bytes(n: usize) -> (r: Vec<u8>)
    ensures
        r@ == Seq::new(n as nat, |k: int| 0u8),
{
    let mut r: Vec<u8> = Vec::new();
    let mut k: usize = 0;
    while k < n
        invariant
            k <= n,
            r@ == Seq::new(k as nat, |j: int| 0u8),
        decreases n - k,
    {
        r.push(0u8);
        k = k + 1;
        assert(r@ =~= Seq::new(k as nat, |j: int| 0u8));
    }
    r
}

impl Default for CpuFallbackBackend {
    /// Same as `new`.
    fn default() -> (r: Self)
        ensures
            r.wf(),
            Self::cpu_info(r.info_view()),
            r.next_id() == 0,
            r.buffer_map() == Map::<u64, Seq<u8>>::empty(),
    {
        Self::new()
    }
}

impl GpuComputeBackend for CpuFallbackBackend {
    /// Returns a copy of the device information.
    fn init(&mut self) -> (r: Result<GpuDeviceInfo, GpuError>)
        ensures
            *final(self) == *old(self),
            r matches Ok(info) && info.name@ == old(self).info_view().name@
                && info.backend == old(self).info_view().backend
                && info.vram_bytes == old(self).info_view().vram_bytes
                && info.max_workgroup_size == old(self).info_view().max_workgroup_size
                && info.supports_fp64 == old(self).info_view().supports_fp64,
    {
        Ok(self.info.duplicate())
    }

    /// Allocates a zeroed buffer under the next handle number; when the
    /// handle numbers are exhausted the request is refused with a driver
    /// error.
    fn allocate_buffer(&mut self, size_bytes: usize, label: &str) -> (r: Result<GpuBufferHandle, GpuError>)
        ensures
            old(self).wf() ==> final(self).wf(),
            final(self).info_view() == old(self).info_view(),
            old(self).next_id() < u64::MAX ==> {
                &&& r matches Ok(h) && h.number() == old(self).next_id()
                &&& final(self).next_id() == old(self).next_id() + 1
                &&& final(self).buffer_map() == old(self).buffer_map().insert(
                    old(self).next_id(),
                    zeroed(size_bytes as nat),
                )
            },
            old(self).next_id() == u64::MAX ==> r is Err && *final(self) == *old(self),
    {
        let handle = self.next_handle;
        if handle == u64::MAX {
            return Err(GpuError::DriverError(String::from_str("buffer handles exhausted")));
        }
        self.next_handle = handle + 1;
        self.buffers.insert(handle, zero_bytes(size_bytes));
        proof {
            assert(self.buffer_map() =~= old(self).buffer_map().insert(
                handle,
                zeroed(size_bytes as nat),
            ));
        }
        Ok(GpuBufferHandle(handle))
    }

    /// Copies `data` into the start of the buffer: its first
    /// `min(data.len(), buffer.len())` bytes are replaced, the rest of the
    /// buffer is kept.  An unknown handle is refused with a driver error and
    /// nothing changes.
    fn upload(&mut self, handle: &GpuBufferHandle, data: &[u8]) -> (r: Result<(), GpuError>)
        ensures
            r is Ok <==> old(self).buffer_map().contains_key(handle.number()),
            r matches Err(e) ==> e matches GpuError::DriverError(m) && m@ == invalid_handle_text(handle.number()),
            r is Err ==> *final(self) == *old(self),
            r is Ok ==> final(self).buffer_map() == old(self).buffer_map().insert(
                handle.number(),
                overwrite_prefix(old(self).buffer_map()[handle.number()], data@),
            ),
            old(self).wf() ==> final(self).wf(),
            final(self).next_id() == old(self).next_id(),
            final(self).info_view() == old(self).info_view(),
    {
        if !self.buffers.contains_key(&handle.0) {
            return Err(GpuError::DriverError(invalid_handle_message(handle.0)));
        }
        let removed = self.buffers.remove(&handle.0);
        match removed {
            Some(mut buf) => {
                let ghost old_buf = buf@;
                let len = if data.len() < buf.len() {
                    data.len()
                } else {
                    buf.len()
                };
                let mut k: usize = 0;
                while k < len
                    invariant
                        k <= len,
                        len <= data@.len(),
                        len <= old_buf.len(),
                        buf@.len() == old_buf.len(),
                        forall|j: int| 0 <= j < k ==> buf@[j] == data@[j],
                        forall|j: int| k <= j < buf@.len() ==> buf@[j] == old_buf[j],
                    decreases len - k,
                {
                    buf.set(k, data[k]);
                    k = k + 1;
                }
                proof {
                    assert(buf@ =~= overwrite_prefix(old_buf, data@));
                }
                self.buffers.insert(handle.0, buf);
                proof {
                    assert(self.buffer_map() =~= old(self).buffer_map().insert(
                        handle.0,
                        overwrite_prefix(old(self).buffer_map()[handle.0], data@),
                    ));
                }
                Ok(())
            },
            None => Err(GpuError::DriverError(invalid_handle_message(handle.0))),
        }
    }

    /// Copies the first `min(output.len(), buffer.len())` bytes of the
    /// buffer into `output`; the rest of `output` is left as it was.
    fn download(&self, handle: &GpuBufferHandle, output: &mut [u8]) -> (r: Result<(), GpuError>)
        ensures
            r is Ok <==> self.buffer_map().contains_key(handle.number()),
            r matches Err(e) ==> e matches GpuError::DriverError(m) && m@ == invalid_handle_text(handle.number()),
            r is Err ==> final(output)@ == old(output)@,
            r is Ok ==> {
                let buf = self.buffer_map()[handle.number()];
                let len = if old(output)@.len() < buf.len() { old(output)@.len() } else { buf.len() };
                final(output)@ == buf.take(len as int) + old(output)@.skip(len as int)
            },
    {
        match self.buffers.get(&handle.0) {
            Some(buf) => {
                let len = if output.len() < buf.len() {
                    output.len()
                } else {
                    buf.len()
                };
                let mut k: usize = 0;
                while k < len
                    invariant
                        k <= len,
                        len <= output@.len(),
                        len <= buf@.len(),
                        output@.len() == old(output)@.len(),
                        forall|j: int| 0 <= j < k ==> output@[j] == buf@[j],
                        forall|j: int| k <= j < output@.len() ==> output@[j] == old(output)@[j],
                    decreases len - k,
                {
                    output[k] = buf[k];
                    k = k + 1;
                }
                proof {
                    assert(self.buffers@[handle.0] == *buf);
                    assert(output@ =~= buf@.take(len as int) + old(output)@.skip(len as int));
                }
                Ok(())
            },
            None => Err(GpuError::DriverError(invalid_handle_message(handle.0))),
        }
    }

    /// No-op on the CPU fallback.
    fn dispatch_kernel(&self, kernel_name: &str, workgroups: [u32; 3], bindings: &[GpuBufferHandle]) -> (r: Result<(), GpuError>)
        ensures
            r is Ok,
    {
        Ok(())
    }

    /// The CPU is synchronous: nothing to wait for.
    fn sync(&self) -> (r: Result<(), GpuError>)
        ensures
            r is Ok,
    {
        Ok(())
    }

    /// Drops the buffer if it exists.
    fn free_buffer(&mut self, handle: GpuBufferHandle) -> (r: Result<(), GpuError>)
        ensures
            r is Ok,
            old(self).wf() ==> final(self).wf(),
            final(self).buffer_map() == old(self).buffer_map().remove(handle.number()),
            final(self).next_id() == old(self).next_id(),
            final(self).info_view() == old(self).info_view(),
    {
        self.buffers.remove(&handle.0);
        proof {
            assert(self.buffer_map() =~= old(self).buffer_map().remove(handle.0));
        }
        Ok(())
    }

    /// The device information.
    fn device_info(&self) -> (r: &GpuDeviceInfo)
        ensures
            *r == self.info_view(),
    {
        &self.info
    }
}

/// Uploading `data` into a buffer at least as long and then downloading
/// into an output of `data.len()` bytes gives `data` back; the buffer keeps
/// its length.
pub proof fn lemma_upload_then_download(buf: Seq<u8>, data: Seq<u8>, out: Seq<u8>)
    requires
        data.len() <= buf.len(),
        out.len() == data.len(),
    ensures
        overwrite_prefix(buf, data).len() == buf.len(),
        ({
            let stored = overwrite_prefix(buf, data);
            let len = if out.len() < stored.len() { out.len() } else { stored.len() };
            stored.take(len as int) + out.skip(len as int) == data
        }),
{
    let stored = overwrite_prefix(buf, data);
    assert(stored.take(data.len() as int) + out.skip(data.len() as int) =~= data);
}

/// Allocating a buffer and then freeing its handle restores the buffer map
/// of a well-formed backend, and the fresh buffer is all zeros.
pub proof fn lemma_allocate_free_roundtrip(b: CpuFallbackBackend, size_bytes: usize)
    requires
        b.wf(),
    ensures
        b.buffer_map().insert(b.next_id(), zeroed(size_bytes as nat)).remove(b.next_id())
            == b.buffer_map(),
        forall|k: int| 0 <= k < size_bytes ==> #[trigger] b.buffer_map().insert(b.next_id(), zeroed(size_bytes as nat))[b.next_id()][k] == 0u8,
{
    assert(!b.buffer_map().contains_key(b.next_id()));
    assert(b.buffer_map().insert(b.next_id(), zeroed(size_bytes as nat)).remove(b.next_id())
        =~= b.buffer_map());
}

} // verus!
