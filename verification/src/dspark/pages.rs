//! The packed key-value pages of a request: three pages, one in every block,
//! and the copies that save and restore them.
use vstd::prelude::*;

use crate::device::Ds41rtDeviceBuffer;
use crate::dspark::plan::DSPARK_BLOCKS;
use crate::dspark::queries::DeepseekV4KvCacheFormat;
use crate::dspark::storage::{
    DeepseekV4DsparkDeviceStorage, PageCopy, StorageError,
};

verus! {

/// The pages of one block, all requests.
pub open spec fn kv_block_view(storage: DeepseekV4DsparkDeviceStorage, block: int) -> Ds41rtDeviceBuffer {
    let bytes = storage.plan.max_batch * storage.plan.packed_page_bytes;
    storage.persistent_kv.part(block * bytes, bytes)
}

/// The page of one request in one block.
pub open spec fn kv_page_view(
    storage: DeepseekV4DsparkDeviceStorage,
    block: int,
    slot: int,
) -> Ds41rtDeviceBuffer {
    let page = storage.plan.packed_page_bytes as int;
    kv_block_view(storage, block).part(slot * page, page)
}

/// Where the page of one request in one block starts.
pub open spec fn page_address(
    storage: DeepseekV4DsparkDeviceStorage,
    block: int,
    slot: int,
) -> int {
    storage.persistent_kv.ptr + (block * storage.plan.max_batch + slot)
        * storage.plan.packed_page_bytes
}

/// The copies of one request: page by page, in the order of the blocks.
pub open spec fn request_copies(
    storage: DeepseekV4DsparkDeviceStorage,
    slot: int,
) -> Seq<PageCopy> {
    Seq::new(
        DSPARK_BLOCKS as nat,
        |block: int|
            PageCopy {
                page: kv_page_view(storage, block, slot),
                host_offset: (block * storage.plan.packed_page_bytes) as usize,
            },
    )
}

proof fn lemma_page_geometry(storage: DeepseekV4DsparkDeviceStorage)
    requires
        storage.wf(),
    ensures
        ({
            let page = storage.plan.packed_page_bytes as int;
            let batch = storage.plan.max_batch as int;
            &&& 0 < page
            &&& 3 * page <= usize::MAX
            &&& batch * page <= usize::MAX
            &&& 3 * (batch * page) == storage.plan.persistent_kv_bytes
        }),
{
    let page = storage.plan.packed_page_bytes as int;
    let batch = storage.plan.max_batch as int;
    match storage.plan.cache_format {
        DeepseekV4KvCacheFormat::Fp8Ue8m0 => {
            assert(batch * page == batch * 149_760) by (nonlinear_arith)
                requires
                    page == 149_760,
            ;
        },
        DeepseekV4KvCacheFormat::Nvfp4 => {
            assert(batch * page == batch * 110_592) by (nonlinear_arith)
                requires
                    page == 110_592,
            ;
        },
    }
}

proof fn lemma_block_in_kv(storage: DeepseekV4DsparkDeviceStorage, block: int)
    requires
        storage.wf(),
        0 <= block < DSPARK_BLOCKS,
    ensures
        0 <= block * (storage.plan.max_batch * storage.plan.packed_page_bytes),
        block * (storage.plan.max_batch * storage.plan.packed_page_bytes) + storage.plan.max_batch
            * storage.plan.packed_page_bytes <= storage.plan.persistent_kv_bytes,
{
    lemma_page_geometry(storage);
    let bytes = storage.plan.max_batch * storage.plan.packed_page_bytes;
    assert(0 <= bytes) by (nonlinear_arith)
        requires
            bytes == storage.plan.max_batch * storage.plan.packed_page_bytes,
    ;
    assert(block == 0 || block == 1 || block == 2);
    assert(0 * bytes == 0 && 1 * bytes == bytes && 2 * bytes == bytes + bytes);
}

proof fn lemma_slot_in_block(batch: int, page: int, slot: int)
    requires
        0 <= slot < batch,
        page > 0,
    ensures
        0 <= slot * page,
        slot * page + page <= batch * page,
{
    assert(slot * page + page <= batch * page) by (nonlinear_arith)
        requires
            slot + 1 <= batch,
            page > 0,
    ;
    assert(0 <= slot * page) by (nonlinear_arith)
        requires
            0 <= slot,
            page > 0,
    ;
}

/// The view of a page starts at its address.
pub proof fn lemma_page_view(storage: DeepseekV4DsparkDeviceStorage, block: int, slot: int)
    requires
        storage.wf(),
        0 <= block < DSPARK_BLOCKS,
        0 <= slot < storage.plan.max_batch,
    ensures
        kv_page_view(storage, block, slot).ptr == page_address(storage, block, slot),
        kv_page_view(storage, block, slot).bytes == storage.plan.packed_page_bytes,
        storage.persistent_kv.ptr <= page_address(storage, block, slot),
        page_address(storage, block, slot) + storage.plan.packed_page_bytes
            <= storage.persistent_kv.ptr + storage.persistent_kv.bytes,
{
    let page = storage.plan.packed_page_bytes as int;
    let batch = storage.plan.max_batch as int;
    lemma_page_geometry(storage);
    lemma_block_in_kv(storage, block);
    lemma_slot_in_block(batch, page, slot);
    assert((block * batch + slot) * page == block * (batch * page) + slot * page)
        by (nonlinear_arith);
}

/// Two different pages share no address.
pub proof fn law_pages_are_disjoint(
    storage: DeepseekV4DsparkDeviceStorage,
    block: int,
    slot: int,
    other_block: int,
    other_slot: int,
    address: int,
)
    requires
        storage.wf(),
        0 <= block < DSPARK_BLOCKS,
        0 <= slot < storage.plan.max_batch,
        0 <= other_block < DSPARK_BLOCKS,
        0 <= other_slot < storage.plan.max_batch,
        block != other_block || slot != other_slot,
        kv_page_view(storage, block, slot).covers_address(
            storage.plan.packed_page_bytes as int,
            address,
        ),
    ensures
        !kv_page_view(storage, other_block, other_slot).covers_address(
            storage.plan.packed_page_bytes as int,
            address,
        ),
{
    lemma_page_view(storage, block, slot);
    lemma_page_view(storage, other_block, other_slot);
    lemma_page_geometry(storage);
    let page = storage.plan.packed_page_bytes as int;
    let batch = storage.plan.max_batch as int;
    let a = block * batch + slot;
    let b = other_block * batch + other_slot;
    assert(a != b) by (nonlinear_arith)
        requires
            a == block * batch + slot,
            b == other_block * batch + other_slot,
            0 <= slot < batch,
            0 <= other_slot < batch,
            block != other_block || slot != other_slot,
    ;
    if a < b {
        assert(a * page + page <= b * page) by (nonlinear_arith)
            requires
                a + 1 <= b,
                page > 0,
        ;
    } else {
        assert(b * page + page <= a * page) by (nonlinear_arith)
            requires
                b + 1 <= a,
                page > 0,
        ;
    }
}

impl DeepseekV4DsparkDeviceStorage {
    /// The pages of one block, all requests.
    pub fn persistent_kv_block(&self, block_index: usize) -> (result: Result<
        Ds41rtDeviceBuffer,
        StorageError,
    >)
        requires
            self.wf(),
        ensures
            result is Ok <==> block_index < DSPARK_BLOCKS,
            result matches Ok(view) ==> view == kv_block_view(*self, block_index as int),
            result matches Err(e) ==> e == (StorageError::BlockIndex { block: block_index }),
    {
        if block_index >= DSPARK_BLOCKS {
            return Err(StorageError::BlockIndex { block: block_index });
        }
        proof {
            lemma_page_geometry(*self);
            lemma_block_in_kv(*self, block_index as int);
        }
        let bytes: usize = self.plan.max_batch * self.plan.packed_page_bytes;
        let offset: usize = block_index * bytes;
        Ok(
            Ds41rtDeviceBuffer {
                ptr: self.persistent_kv.ptr + offset,
                bytes,
                device_id: self.persistent_kv.device_id,
                flags: self.persistent_kv.flags,
            },
        )
    }

    /// The page of one request in one block.
    pub fn persistent_kv_request_page(&self, block_index: usize, request_slot: usize) -> (result:
        Result<Ds41rtDeviceBuffer, StorageError>)
        requires
            self.wf(),
        ensures
            result is Ok <==> request_slot < self.plan.max_batch && block_index < DSPARK_BLOCKS,
            result matches Ok(view) ==> view == kv_page_view(
                *self,
                block_index as int,
                request_slot as int,
            ),
            result matches Err(e) ==> e == (if request_slot >= self.plan.max_batch {
                StorageError::PageSlot { slot: request_slot, max_batch: self.plan.max_batch }
            } else {
                StorageError::BlockIndex { block: block_index }
            }),
    {
        if request_slot >= self.plan.max_batch {
            return Err(
                StorageError::PageSlot { slot: request_slot, max_batch: self.plan.max_batch },
            );
        }
        let block = match self.persistent_kv_block(block_index) {
            Ok(block) => block,
            Err(error) => return Err(error),
        };
        proof {
            lemma_page_geometry(*self);
            lemma_block_in_kv(*self, block_index as int);
            lemma_slot_in_block(
                self.plan.max_batch as int,
                self.plan.packed_page_bytes as int,
                request_slot as int,
            );
        }
        let offset: usize = request_slot * self.plan.packed_page_bytes;
        Ok(
            Ds41rtDeviceBuffer {
                ptr: block.ptr + offset,
                bytes: self.plan.packed_page_bytes,
                device_id: block.device_id,
                flags: block.flags,
            },
        )
    }

    fn copies(&self, request_slot: usize) -> (result: Result<Vec<PageCopy>, StorageError>)
        requires
            self.wf(),
        ensures
            result is Ok <==> request_slot < self.plan.max_batch,
            result matches Ok(copies) ==> copies@ == request_copies(*self, request_slot as int),
            result matches Err(e) ==> e == (StorageError::PageSlot {
                slot: request_slot,
                max_batch: self.plan.max_batch,
            }),
    {
        let mut copies: Vec<PageCopy> = Vec::new();
        let mut block: usize = 0;
        proof {
            lemma_page_geometry(*self);
        }
        while block < DSPARK_BLOCKS
            invariant
                self.wf(),
                block <= DSPARK_BLOCKS,
                3 * self.plan.packed_page_bytes <= usize::MAX,
                block > 0 ==> request_slot < self.plan.max_batch,
                copies@ == request_copies(*self, request_slot as int).take(block as int),
            decreases DSPARK_BLOCKS - block,
        {
            let page = match self.persistent_kv_request_page(block, request_slot) {
                Ok(page) => page,
                Err(error) => return Err(error),
            };
            let host_offset: usize = block * self.plan.packed_page_bytes;
            copies.push(PageCopy { page, host_offset });
            block = block + 1;
            assert(copies@ =~= request_copies(*self, request_slot as int).take(block as int));
        }
        assert(copies@ =~= request_copies(*self, request_slot as int));
        Ok(copies)
    }

    /// The bytes of a snapshot of one request and the copies that fill it.
    pub fn snapshot_request_kv(&self, request_slot: usize) -> (result: Result<
        (usize, Vec<PageCopy>),
        StorageError,
    >)
        requires
            self.wf(),
        ensures
            result is Ok <==> request_slot < self.plan.max_batch,
            result matches Ok((bytes, copies)) ==> bytes == 3 * self.plan.packed_page_bytes
                && copies@ == request_copies(*self, request_slot as int),
            result matches Err(e) ==> e == (StorageError::PageSlot {
                slot: request_slot,
                max_batch: self.plan.max_batch,
            }),
    {
        proof {
            lemma_page_geometry(*self);
        }
        let bytes: usize = 3 * self.plan.packed_page_bytes;
        match self.copies(request_slot) {
            Ok(copies) => Ok((bytes, copies)),
            Err(error) => Err(error),
        }
    }

    /// The copies that restore one request from a snapshot of `snapshot_bytes`
    /// bytes.
    pub fn restore_request_kv(&self, request_slot: usize, snapshot_bytes: usize) -> (result: Result<
        Vec<PageCopy>,
        StorageError,
    >)
        requires
            self.wf(),
        ensures
            result is Ok <==> snapshot_bytes == 3 * self.plan.packed_page_bytes && request_slot
                < self.plan.max_batch,
            result matches Ok(copies) ==> copies@ == request_copies(*self, request_slot as int),
            result matches Err(e) ==> e == (if snapshot_bytes != 3 * self.plan.packed_page_bytes {
                StorageError::SnapshotBytes {
                    got: snapshot_bytes,
                    expected: (3 * self.plan.packed_page_bytes) as usize,
                }
            } else {
                StorageError::PageSlot { slot: request_slot, max_batch: self.plan.max_batch }
            }),
    {
        proof {
            lemma_page_geometry(*self);
        }
        let expected: usize = 3 * self.plan.packed_page_bytes;
        if snapshot_bytes != expected {
            return Err(StorageError::SnapshotBytes { got: snapshot_bytes, expected });
        }
        self.copies(request_slot)
    }
}

/// Device memory after `data` was copied to `address`.
pub open spec fn stored(
    memory: spec_fn(int) -> u8,
    address: int,
    data: Seq<u8>,
) -> spec_fn(int) -> u8 {
    |a: int|
        if address <= a < address + data.len() {
            data[a - address]
        } else {
            memory(a)
        }
}

/// What a copy from `address` reads.
pub open spec fn loaded(memory: spec_fn(int) -> u8, address: int, bytes: int) -> Seq<u8> {
    Seq::new(bytes as nat, |i: int| memory(address + i))
}

/// The part of a snapshot that one copy moves.
pub open spec fn copy_part(copy: PageCopy, snapshot: Seq<u8>) -> Seq<u8> {
    snapshot.subrange(
        copy.host_offset as int,
        copy.host_offset + copy.page.bytes,
    )
}

/// Device memory after the first `n` copies of a restore.
pub open spec fn restored(
    memory: spec_fn(int) -> u8,
    copies: Seq<PageCopy>,
    snapshot: Seq<u8>,
    n: int,
) -> spec_fn(int) -> u8
    decreases n,
{
    if n <= 0 {
        memory
    } else {
        stored(
            restored(memory, copies, snapshot, n - 1),
            copies[n - 1].page.ptr as int,
            copy_part(copies[n - 1], snapshot),
        )
    }
}

/// What the first `n` copies of a snapshot read, one after the other.
pub open spec fn snapshotted(
    memory: spec_fn(int) -> u8,
    copies: Seq<PageCopy>,
    n: int,
) -> Seq<u8>
    decreases n,
{
    if n <= 0 {
        Seq::empty()
    } else {
        snapshotted(memory, copies, n - 1) + loaded(
            memory,
            copies[n - 1].page.ptr as int,
            copies[n - 1].page.bytes as int,
        )
    }
}

proof fn lemma_restored_page(
    storage: DeepseekV4DsparkDeviceStorage,
    memory: spec_fn(int) -> u8,
    slot: int,
    snapshot: Seq<u8>,
    n: int,
    block: int,
    i: int,
)
    requires
        storage.wf(),
        0 <= slot < storage.plan.max_batch,
        snapshot.len() == 3 * storage.plan.packed_page_bytes,
        0 <= block < n <= DSPARK_BLOCKS,
        0 <= i < storage.plan.packed_page_bytes,
    ensures
        restored(memory, request_copies(storage, slot), snapshot, n)(
            page_address(storage, block, slot) + i,
        ) == snapshot[block * storage.plan.packed_page_bytes + i],
    decreases n,
{
    let copies = request_copies(storage, slot);
    let page = storage.plan.packed_page_bytes as int;
    let address = page_address(storage, block, slot) + i;
    lemma_page_geometry(storage);
    lemma_page_view(storage, n - 1, slot);
    lemma_page_view(storage, block, slot);
    assert(n - 1 == 0 || n - 1 == 1 || n - 1 == 2);
    assert(0 * page == 0 && 1 * page == page && 2 * page == page + page);
    assert(copies[n - 1].host_offset == (n - 1) * page);
    if block == n - 1 {
        assert(copy_part(copies[n - 1], snapshot)[i] == snapshot[(n - 1) * page + i]);
    } else {
        law_pages_are_disjoint(storage, block, slot, n - 1, slot, address);
        lemma_restored_page(storage, memory, slot, snapshot, n - 1, block, i);
    }
}

/// A snapshot that is taken after a restore gives back what was restored,
/// whatever the device memory held before.
pub proof fn law_restored_snapshot_reads_back(
    storage: DeepseekV4DsparkDeviceStorage,
    memory: spec_fn(int) -> u8,
    slot: int,
    snapshot: Seq<u8>,
)
    requires
        storage.wf(),
        0 <= slot < storage.plan.max_batch,
        snapshot.len() == 3 * storage.plan.packed_page_bytes,
    ensures
        snapshotted(
            restored(memory, request_copies(storage, slot), snapshot, DSPARK_BLOCKS as int),
            request_copies(storage, slot),
            DSPARK_BLOCKS as int,
        ) == snapshot,
{
    let copies = request_copies(storage, slot);
    let page = storage.plan.packed_page_bytes as int;
    let after = restored(memory, copies, snapshot, 3);
    lemma_page_view(storage, 0, slot);
    lemma_page_view(storage, 1, slot);
    lemma_page_view(storage, 2, slot);
    assert forall|block: int, i: int| 0 <= block < 3 && 0 <= i < page implies #[trigger] loaded(
        after,
        page_address(storage, block, slot),
        page,
    )[i] == snapshot[block * page + i] by {
        lemma_restored_page(storage, memory, slot, snapshot, 3, block, i);
    }
    let first = loaded(after, page_address(storage, 0, slot), page);
    let second = loaded(after, page_address(storage, 1, slot), page);
    let third = loaded(after, page_address(storage, 2, slot), page);
    reveal_with_fuel(snapshotted, 4);
    assert(snapshotted(after, copies, 3) =~= first + second + third);
    assert(0 * page == 0 && 1 * page == page && 2 * page == page + page);
    assert forall|k: int| 0 <= k < 3 * page implies #[trigger] (first + second + third)[k]
        == snapshot[k] by {
        if k < page {
            assert(first[k] == snapshot[0 * page + k]);
        } else if k < 2 * page {
            assert(second[k - page] == snapshot[1 * page + (k - page)]);
        } else {
            assert(third[k - 2 * page] == snapshot[2 * page + (k - 2 * page)]);
        }
    }
    assert(first + second + third =~= snapshot);
}

/// Restoring one request leaves the pages of every other request as they are.
pub proof fn law_restore_keeps_other_requests(
    storage: DeepseekV4DsparkDeviceStorage,
    memory: spec_fn(int) -> u8,
    slot: int,
    snapshot: Seq<u8>,
    block: int,
    other: int,
    n: int,
)
    requires
        storage.wf(),
        0 <= slot < storage.plan.max_batch,
        0 <= other < storage.plan.max_batch,
        other != slot,
        0 <= block < DSPARK_BLOCKS,
        0 <= n <= DSPARK_BLOCKS,
        snapshot.len() == 3 * storage.plan.packed_page_bytes,
    ensures
        loaded(
            restored(memory, request_copies(storage, slot), snapshot, n),
            page_address(storage, block, other),
            storage.plan.packed_page_bytes as int,
        ) == loaded(
            memory,
            page_address(storage, block, other),
            storage.plan.packed_page_bytes as int,
        ),
    decreases n,
{
    let copies = request_copies(storage, slot);
    let page = storage.plan.packed_page_bytes as int;
    let start = page_address(storage, block, other);
    let after = restored(memory, copies, snapshot, n);
    if n > 0 {
        law_restore_keeps_other_requests(storage, memory, slot, snapshot, block, other, n - 1);
        let before = restored(memory, copies, snapshot, n - 1);
        lemma_page_geometry(storage);
        lemma_page_view(storage, n - 1, slot);
        lemma_page_view(storage, block, other);
        assert(n - 1 == 0 || n - 1 == 1 || n - 1 == 2);
        assert(0 * page == 0 && 1 * page == page && 2 * page == page + page);
        assert(copies[n - 1].host_offset == (n - 1) * page);
        assert(copy_part(copies[n - 1], snapshot).len() == page);
        assert forall|i: int| 0 <= i < page implies #[trigger] loaded(after, start, page)[i]
            == loaded(before, start, page)[i] by {
            law_pages_are_disjoint(storage, block, other, n - 1, slot, start + i);
        }
        assert(loaded(after, start, page) =~= loaded(before, start, page));
    }
}

} // verus!
