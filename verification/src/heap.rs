use vstd::prelude::*;

verus! {

/// Size of the heap requested from the kernel when the homebrew loader hands
/// over no usable heap: 256 MiB.
pub const DEFAULT_HEAP_SIZE: usize = 0x10000000;

/// A region of memory given by its start address and its length in bytes.
///
/// The address is held as a plain integer; address 0 stands for the null pointer.
#[derive(Clone, Copy, Debug, PartialEq, Eq, Structural)]
pub struct HeapRegion {
    pub address: usize,
    pub size: usize,
}

impl HeapRegion {
    /// A region is usable when its address is not null and its length is not zero.
    pub open spec fn spec_is_valid(&self) -> bool {
        self.address != 0 && self.size != 0
    }

    /// Builds the region that starts at `address` and spans `size` bytes.
    pub fn new(address: usize, size: usize) -> (r: HeapRegion)
        ensures
            r.address == address,
            r.size == size,
    {
        HeapRegion { address, size }
    }

    /// Whether the region is usable: a non-null address and a non-zero length.
    #[verifier::when_used_as_spec(spec_is_valid)]
    pub fn is_valid(&self) -> (b: bool)
        ensures
            b == self.spec_is_valid(),
            b <==> (self.address != 0 && self.size != 0),
    {
        self.address != 0 && self.size != 0
    }
}

/// Why no heap could be set up.
#[derive(Clone, Copy, Debug, PartialEq, Eq, Structural)]
pub enum HeapError {
    /// The kernel refused to resize the heap; the result code it gave is kept.
    SetHeapSizeFailed(u32),
}

/// What a heap request of `size` bytes yields, given the kernel's reply: the
/// address of the new heap, or the result code of a refusal.
pub open spec fn spec_heap_from_kernel_reply(size: usize, reply: Result<usize, u32>) -> Result<HeapRegion, HeapError> {
    match reply {
        Ok(address) => Ok(HeapRegion { address, size }),
        Err(code) => Err(HeapError::SetHeapSizeFailed(code)),
    }
}

/// Turns the kernel's reply to a request for a heap of `size` bytes into the heap
/// region that starts at the returned address and spans the requested size, or
/// into an error that keeps the kernel's result code.
pub fn heap_from_kernel_reply(size: usize, reply: Result<usize, u32>) -> (r: Result<HeapRegion, HeapError>)
    ensures
        r == spec_heap_from_kernel_reply(size, reply),
{
    match reply {
        Ok(address) => Ok(HeapRegion::new(address, size)),
        Err(code) => Err(HeapError::SetHeapSizeFailed(code)),
    }
}

/// The heap chosen for a loader heap `hbl_heap`, when a request to the kernel
/// would be answered with `reply`.
pub open spec fn spec_initialize_heap(hbl_heap: HeapRegion, reply: Result<usize, u32>) -> Result<HeapRegion, HeapError> {
    if hbl_heap.spec_is_valid() {
        Ok(hbl_heap)
    } else {
        spec_heap_from_kernel_reply(DEFAULT_HEAP_SIZE, reply)
    }
}

/// Chooses the heap the program runs on.
///
/// The homebrew loader may hand over a heap (`hbl_heap`). When that region is
/// usable it is kept as it is and the kernel is not asked for anything. Otherwise
/// `set_heap_size` is asked, once, for a heap of [`DEFAULT_HEAP_SIZE`] bytes, and
/// the result is the region at the address it returns, with that size; a refusal
/// is passed on as [`HeapError::SetHeapSizeFailed`].
pub fn initialize_heap<F: FnOnce(usize) -> Result<usize, u32>>(
    hbl_heap: HeapRegion,
    set_heap_size: F,
) -> (r: Result<HeapRegion, HeapError>)
    requires
        !hbl_heap.spec_is_valid() ==> call_requires(set_heap_size, (DEFAULT_HEAP_SIZE,)),
    ensures
        hbl_heap.spec_is_valid() ==> r == Ok::<HeapRegion, HeapError>(hbl_heap),
        hbl_heap.address != 0 && hbl_heap.size != 0 ==> r == Ok::<HeapRegion, HeapError>(hbl_heap),
        hbl_heap.address == 0 || hbl_heap.size == 0 ==> exists|reply: Result<usize, u32>|
            #[trigger] call_ensures(set_heap_size, (DEFAULT_HEAP_SIZE,), reply)
                && r == spec_heap_from_kernel_reply(DEFAULT_HEAP_SIZE, reply),
        !hbl_heap.spec_is_valid() ==> exists|reply: Result<usize, u32>|
            #[trigger] call_ensures(set_heap_size, (DEFAULT_HEAP_SIZE,), reply)
                && r == spec_initialize_heap(hbl_heap, reply),
{
    if hbl_heap.is_valid() {
        Ok(hbl_heap)
    } else {
        let heap_size: usize = DEFAULT_HEAP_SIZE;
        let reply = set_heap_size(heap_size);
        heap_from_kernel_reply(heap_size, reply)
    }
}

/// A region is usable exactly when its address is not null and its length is
/// not zero, whatever that length is: there is no upper bound on the size.
pub proof fn lemma_valid_iff_nonnull_nonempty(r: HeapRegion)
    ensures
        r.spec_is_valid() <==> (r.address != 0 && r.size != 0),
{
}

/// A loader heap with a non-null address and a non-zero length, of any size
/// (larger than [`DEFAULT_HEAP_SIZE`] too), is chosen as it is whatever the kernel
/// would answer; a loader heap with a null address or a zero length is replaced by
/// what the kernel answers to a request for [`DEFAULT_HEAP_SIZE`] bytes.
pub proof fn lemma_loader_heap_choice(hbl_heap: HeapRegion, reply: Result<usize, u32>)
    ensures
        hbl_heap.address != 0 && hbl_heap.size != 0
            ==> spec_initialize_heap(hbl_heap, reply) == Ok::<HeapRegion, HeapError>(hbl_heap),
        hbl_heap.address == 0 || hbl_heap.size == 0 ==> spec_initialize_heap(hbl_heap, reply)
            == match reply {
                Ok(address) => Ok::<HeapRegion, HeapError>(HeapRegion { address, size: DEFAULT_HEAP_SIZE }),
                Err(code) => Err::<HeapRegion, HeapError>(HeapError::SetHeapSizeFailed(code)),
            },
{
}

/// A usable region that the heap set-up produced is kept as it is when it is
/// handed to the set-up again, whatever the kernel would answer.
pub proof fn lemma_initialize_heap_idempotent(
    hbl_heap: HeapRegion,
    first_reply: Result<usize, u32>,
    second_reply: Result<usize, u32>,
)
    requires
        spec_initialize_heap(hbl_heap, first_reply) is Ok,
        spec_initialize_heap(hbl_heap, first_reply)->Ok_0.spec_is_valid(),
    ensures
        spec_initialize_heap(spec_initialize_heap(hbl_heap, first_reply)->Ok_0, second_reply)
            == spec_initialize_heap(hbl_heap, first_reply),
{
}

/// The kernel's answer decides the heap only when the loader heap is unusable:
/// a usable loader heap is chosen whatever the kernel would answer.
pub proof fn lemma_usable_loader_heap_ignores_kernel(
    hbl_heap: HeapRegion,
    reply_a: Result<usize, u32>,
    reply_b: Result<usize, u32>,
)
    requires
        hbl_heap.spec_is_valid(),
    ensures
        spec_initialize_heap(hbl_heap, reply_a) == spec_initialize_heap(hbl_heap, reply_b),
        spec_initialize_heap(hbl_heap, reply_a) == Ok::<HeapRegion, HeapError>(hbl_heap),
{
}

/// A heap obtained from the kernel always spans [`DEFAULT_HEAP_SIZE`] bytes and
/// starts at the address the kernel returned; it is usable exactly when that
/// address is not null. A refusal keeps the kernel's result code.
pub proof fn lemma_kernel_heap_shape(hbl_heap: HeapRegion, reply: Result<usize, u32>)
    requires
        !hbl_heap.spec_is_valid(),
    ensures
        reply matches Ok(address) ==> {
            &&& spec_initialize_heap(hbl_heap, reply) == Ok::<HeapRegion, HeapError>(
                HeapRegion { address, size: DEFAULT_HEAP_SIZE },
            )
            &&& spec_initialize_heap(hbl_heap, reply)->Ok_0.spec_is_valid() <==> address != 0
        },
        reply matches Err(code) ==> spec_initialize_heap(hbl_heap, reply)
            == Err::<HeapRegion, HeapError>(HeapError::SetHeapSizeFailed(code)),
{
}

} // verus!
