//! The bounded byte buffer between the network producer and the decoder.
//!
//! The bytes live in the fixed-size circular storage of `stream_download`.
//! This module states what that storage holds, and builds on it a first-in,
//! first-out buffer with a hard ceiling: a write takes only what fits, and
//! tells the writer how much it has to hold back until a read frees space.

use std::io::{Read, Write};
use std::num::NonZeroUsize;
use stream_download::storage::bounded::{
    BoundedStorageProvider, BoundedStorageReader, BoundedStorageWriter,
};
use stream_download::storage::memory::{MemoryStorage, MemoryStorageProvider};
use stream_download::storage::StorageProvider;
use vstd::prelude::*;

verus! {

/// The two ends of one bounded in-memory storage of `stream_download`.
/// Nothing inside it is visible to proofs: what it holds is spoken of
/// through [`stored_bytes`], [`storage_limit`] and [`storage_written`].
#[verifier::external_body]
pub struct RingStorage {
    reader: BoundedStorageReader<MemoryStorage>,
    writer: BoundedStorageWriter<MemoryStorage>,
}

/// The bytes that have been written to `storage` and not yet read from it,
/// oldest first.
pub uninterp spec fn stored_bytes(storage: RingStorage) -> Seq<u8>;

/// The fixed size that `storage` was made with.
pub uninterp spec fn storage_limit(storage: RingStorage) -> nat;

/// The number of bytes that `storage` has taken since it was made.
pub uninterp spec fn storage_written(storage: RingStorage) -> nat;

/// How many of `offered` bytes fit into a store of size `limit` that
/// already holds `held`.
pub open spec fn fitting(limit: nat, held: nat, offered: nat) -> nat {
    if held >= limit {
        0
    } else if offered <= limit - held {
        offered
    } else {
        (limit - held) as nat
    }
}

/// How many bytes a read of at most `wanted` takes from `held`.
pub open spec fn taking(held: nat, wanted: nat) -> nat {
    if wanted <= held {
        wanted
    } else {
        held
    }
}

/// One step in the life of a buffer: a write that offers bytes, or a read
/// that asks for a number of them.
pub enum BufferOp {
    Write(Seq<u8>),
    Read(nat),
}

/// The bytes that a step moves: for a write the bytes it places, for a read
/// the bytes it takes out.
pub open spec fn moved_by(limit: nat, held: Seq<u8>, op: BufferOp) -> Seq<u8> {
    match op {
        BufferOp::Write(bytes) => bytes.take(fitting(limit, held.len(), bytes.len()) as int),
        BufferOp::Read(wanted) => held.take(taking(held.len(), wanted) as int),
    }
}

/// What an open buffer of capacity `limit` holds after a step, when it
/// held `held` before.
pub open spec fn after_op(limit: nat, held: Seq<u8>, op: BufferOp) -> Seq<u8> {
    match op {
        BufferOp::Write(bytes) => held + moved_by(limit, held, op),
        BufferOp::Read(wanted) => held.skip(taking(held.len(), wanted) as int),
    }
}

/// What an open buffer holds after a sequence of steps.
pub open spec fn after_ops(limit: nat, held: Seq<u8>, ops: Seq<BufferOp>) -> Seq<u8>
    decreases ops.len(),
{
    if ops.len() == 0 {
        held
    } else {
        after_op(limit, after_ops(limit, held, ops.drop_last()), ops.last())
    }
}

/// All bytes that the writes of a sequence of steps placed, in order.
pub open spec fn placed_by(limit: nat, held: Seq<u8>, ops: Seq<BufferOp>) -> Seq<u8>
    decreases ops.len(),
{
    if ops.len() == 0 {
        Seq::empty()
    } else {
        let before = after_ops(limit, held, ops.drop_last());
        let earlier = placed_by(limit, held, ops.drop_last());
        match ops.last() {
            BufferOp::Write(_) => earlier + moved_by(limit, before, ops.last()),
            BufferOp::Read(_) => earlier,
        }
    }
}

/// All bytes that the reads of a sequence of steps took out, in order.
pub open spec fn taken_by(limit: nat, held: Seq<u8>, ops: Seq<BufferOp>) -> Seq<u8>
    decreases ops.len(),
{
    if ops.len() == 0 {
        Seq::empty()
    } else {
        let before = after_ops(limit, held, ops.drop_last());
        let earlier = taken_by(limit, held, ops.drop_last());
        match ops.last() {
            BufferOp::Write(_) => earlier,
            BufferOp::Read(_) => earlier + moved_by(limit, before, ops.last()),
        }
    }
}

/// A write takes no more than is offered and no more than is free; it takes
/// all that is offered exactly when that fits; and it takes something
/// whenever something is offered and space is free.
pub proof fn lemma_fitting(limit: nat, held: nat, offered: nat)
    requires
        held <= limit,
    ensures
        fitting(limit, held, offered) <= offered,
        held + fitting(limit, held, offered) <= limit,
        fitting(limit, held, offered) == offered <==> held + offered <= limit,
        offered > 0 && held < limit ==> fitting(limit, held, offered) > 0,
{
}

/// A read takes no more than is asked for and no more than is held, and it
/// takes something whenever something is asked for and something is held.
pub proof fn lemma_taking(held: nat, wanted: nat)
    ensures
        taking(held, wanted) <= wanted,
        taking(held, wanted) <= held,
        wanted > 0 && held > 0 ==> taking(held, wanted) > 0,
{
}

/// Whatever writes and reads follow one another, the buffer never holds
/// more than its capacity.
pub proof fn lemma_never_over_capacity(limit: nat, held: Seq<u8>, ops: Seq<BufferOp>)
    requires
        held.len() <= limit,
    ensures
        after_ops(limit, held, ops).len() <= limit,
    decreases ops.len(),
{
    if ops.len() > 0 {
        lemma_never_over_capacity(limit, held, ops.drop_last());
    }
}

/// Nothing is lost, made up or reordered: what was held at first, followed
/// by all that the writes placed, is what the reads took out, followed by
/// what is held at last.
pub proof fn lemma_first_in_first_out(limit: nat, held: Seq<u8>, ops: Seq<BufferOp>)
    ensures
        held + placed_by(limit, held, ops) == taken_by(limit, held, ops) + after_ops(
            limit,
            held,
            ops,
        ),
    decreases ops.len(),
{
    if ops.len() > 0 {
        lemma_first_in_first_out(limit, held, ops.drop_last());
        let before = after_ops(limit, held, ops.drop_last());
        let placed = placed_by(limit, held, ops.drop_last());
        let moved = moved_by(limit, before, ops.last());
        if ops.last() is Write {
            assert(held + (placed + moved) =~= (held + placed) + moved);
        }
    }
}

/// A writer that was held back goes on once a read has freed space: after
/// a write that did not take all, and a read that took something, a write of
/// the rest takes something.
pub proof fn lemma_write_resumes(limit: nat, held: nat, offered: nat, wanted: nat)
    requires
        0 < limit,
        held <= limit,
        fitting(limit, held, offered) < offered,
        wanted > 0,
    ensures
        ({
            let first = fitting(limit, held, offered);
            let full = held + first;
            let freed = taking(full as nat, wanted);
            &&& full == limit
            &&& freed > 0
            &&& fitting(limit, (full - freed) as nat, (offered - first) as nat) > 0
        }),
{
}

/// Calls `BoundedStorageProvider::new` over a `MemoryStorageProvider` and
/// turns the provider into its reader and writer with
/// `StorageProvider::into_reader_writer`, for a source of unknown length.
/// The claim: the storage starts empty, nothing has been written, and its
/// size is the one asked for.
#[verifier::external_body]
fn open_storage(limit: usize) -> (storage: RingStorage)
    requires
        0 < limit <= isize::MAX,
    ensures
        stored_bytes(storage) == Seq::<u8>::empty(),
        storage_limit(storage) == limit,
        storage_written(storage) == 0,
{
    let size = NonZeroUsize::new(limit).unwrap();
    let provider = BoundedStorageProvider::new(MemoryStorageProvider, size);
    let (reader, writer) = provider.into_reader_writer(None).unwrap();
    RingStorage { reader, writer }
}

/// Calls `Write::write` of `BoundedStorageWriter`. The claim: it appends
/// the longest prefix of `bytes` that fits into the free space, returns its
/// length, and leaves the size of the storage as it was. The writer counts
/// the bytes it has taken without a guard, so the count must have room for
/// all of `bytes`.
#[verifier::external_body]
fn storage_write(storage: &mut RingStorage, bytes: &[u8]) -> (taken: usize)
    requires
        storage_written(*old(storage)) + bytes@.len() <= usize::MAX,
    ensures
        taken == fitting(
            storage_limit(*old(storage)),
            stored_bytes(*old(storage)).len(),
            bytes@.len(),
        ),
        stored_bytes(*final(storage)) == stored_bytes(*old(storage)) + bytes@.take(taken as int),
        storage_limit(*final(storage)) == storage_limit(*old(storage)),
        storage_written(*final(storage)) == storage_written(*old(storage)) + taken,
{
    match storage.writer.write(bytes) {
        Ok(taken) => taken,
        Err(_) => 0,
    }
}

/// Calls `Read::read` of `BoundedStorageReader` with a buffer of `wanted`
/// bytes. The claim: it removes the oldest bytes, as many as are stored and
/// at most `wanted`, returns them in order, and leaves the size of the
/// storage and the count of written bytes as they were. The reader refuses
/// a buffer larger than the storage, so `wanted` must not exceed its size.
#[verifier::external_body]
fn storage_read(storage: &mut RingStorage, wanted: usize) -> (bytes: Vec<u8>)
    requires
        wanted <= storage_limit(*old(storage)),
        stored_bytes(*old(storage)).len() <= storage_limit(*old(storage)),
    ensures
        bytes@ == stored_bytes(*old(storage)).take(
            taking(stored_bytes(*old(storage)).len(), wanted as nat) as int,
        ),
        stored_bytes(*final(storage)) == stored_bytes(*old(storage)).skip(
            taking(stored_bytes(*old(storage)).len(), wanted as nat) as int,
        ),
        storage_limit(*final(storage)) == storage_limit(*old(storage)),
        storage_written(*final(storage)) == storage_written(*old(storage)),
{
    let mut bytes = vec![0u8; wanted];
    let count = match storage.reader.read(&mut bytes) {
        Ok(count) => count,
        Err(_) => 0,
    };
    bytes.truncate(count);
    bytes
}

/// What a read found.
#[derive(Debug)]
pub enum ReadOutcome {
    /// Bytes taken from the head of the buffer, oldest first.
    Data(Vec<u8>),
    /// Nothing is buffered and the source is still open: the reader waits.
    Pending,
    /// Nothing is buffered and the source is closed: the stream has ended.
    End,
}

/// A first-in, first-out byte buffer with a fixed capacity.
pub struct BoundedBuffer {
    storage: RingStorage,
    capacity: usize,
    len: usize,
    written: usize,
    closed: bool,
}

impl View for BoundedBuffer {
    type V = Seq<u8>;

    /// The buffered bytes, oldest first.
    closed spec fn view(&self) -> Seq<u8> {
        stored_bytes(self.storage)
    }
}

impl BoundedBuffer {
    /// The capacity the buffer was made with.
    pub closed spec fn limit(&self) -> nat {
        self.capacity as nat
    }

    /// Whether the source has been closed.
    pub closed spec fn closed(&self) -> bool {
        self.closed
    }

    /// The number of bytes the buffer has accepted since it was made.
    pub closed spec fn accepted(&self) -> nat {
        self.written as nat
    }

    /// The buffer's invariant: its counters agree with the storage, the
    /// capacity is positive, and no more than the capacity is buffered.
    pub closed spec fn wf(&self) -> bool {
        &&& self.capacity == storage_limit(self.storage)
        &&& self.len == stored_bytes(self.storage).len()
        &&& self.written == storage_written(self.storage)
        &&& 0 < self.capacity
        &&& self.len <= self.capacity
    }

    /// A well-formed buffer never holds more than its capacity.
    pub proof fn lemma_within_capacity(&self)
        requires
            self.wf(),
        ensures
            self@.len() <= self.limit(),
            self.limit() > 0,
    {
    }

    /// An empty, open buffer of the given capacity; `None` when the
    /// capacity is zero or larger than an allocation may be.
    pub fn new(capacity: usize) -> (made: Option<BoundedBuffer>)
        ensures
            made is Some <==> 0 < capacity <= isize::MAX,
            made matches Some(buffer) ==> {
                &&& buffer.wf()
                &&& buffer@ == Seq::<u8>::empty()
                &&& buffer.limit() == capacity
                &&& !buffer.closed()
                &&& buffer.accepted() == 0
            },
    {
        if capacity == 0 || capacity > isize::MAX as usize {
            return None;
        }
        let storage = open_storage(capacity);
        Some(BoundedBuffer { storage, capacity, len: 0, written: 0, closed: false })
    }

    /// The fixed capacity in bytes.
    pub fn capacity(&self) -> (capacity: usize)
        ensures
            capacity == self.limit(),
    {
        self.capacity
    }

    /// The number of bytes buffered now.
    pub fn len(&self) -> (len: usize)
        requires
            self.wf(),
        ensures
            len == self@.len(),
    {
        self.len
    }

    /// Whether nothing is buffered.
    pub fn is_empty(&self) -> (empty: bool)
        requires
            self.wf(),
        ensures
            empty == (self@.len() == 0),
    {
        self.len == 0
    }

    /// The number of bytes a write can place right now.
    pub fn free_space(&self) -> (free: usize)
        requires
            self.wf(),
        ensures
            free == self.limit() - self@.len(),
    {
        self.capacity - self.len
    }

    /// Whether the source has been closed.
    pub fn is_closed(&self) -> (closed: bool)
        ensures
            closed == self.closed(),
    {
        self.closed
    }

    /// The number of bytes accepted since the buffer was made.
    pub fn total_accepted(&self) -> (total: usize)
        ensures
            total == self.accepted(),
    {
        self.written
    }

    /// Appends to the tail the longest prefix of `bytes` that fits, and
    /// returns its length. A result shorter than `bytes` tells the writer to
    /// hold the rest back and offer it again once a read has freed space;
    /// nothing is dropped and nothing already buffered is touched. A closed
    /// buffer accepts nothing.
    pub fn write(&mut self, bytes: &[u8]) -> (taken: usize)
        requires
            old(self).wf(),
            old(self).accepted() + bytes@.len() <= usize::MAX,
        ensures
            final(self).wf(),
            final(self).limit() == old(self).limit(),
            final(self).closed() == old(self).closed(),
            final(self).accepted() == old(self).accepted() + taken,
            taken == if old(self).closed() {
                0
            } else {
                fitting(old(self).limit(), old(self)@.len(), bytes@.len())
            },
            final(self)@ == old(self)@ + bytes@.take(taken as int),
            !old(self).closed() ==> final(self)@ == after_op(
                old(self).limit(),
                old(self)@,
                BufferOp::Write(bytes@),
            ),
    {
        if self.closed {
            return 0;
        }
        let taken = storage_write(&mut self.storage, bytes);
        self.len = self.len + taken;
        self.written = self.written + taken;
        taken
    }

    /// Removes and returns up to `wanted` bytes from the head. With nothing
    /// buffered it takes nothing, and says whether the reader has to wait
    /// for the writer or the stream has ended.
    pub fn read(&mut self, wanted: usize) -> (outcome: ReadOutcome)
        requires
            old(self).wf(),
        ensures
            final(self).wf(),
            final(self).limit() == old(self).limit(),
            final(self).closed() == old(self).closed(),
            final(self).accepted() == old(self).accepted(),
            final(self)@ == after_op(old(self).limit(), old(self)@, BufferOp::Read(wanted as nat)),
            match outcome {
                ReadOutcome::Data(bytes) => {
                    &&& old(self)@.len() > 0
                    &&& bytes@ == old(self)@.take(taking(old(self)@.len(), wanted as nat) as int)
                    &&& final(self)@ == old(self)@.skip(
                        taking(old(self)@.len(), wanted as nat) as int,
                    )
                },
                ReadOutcome::Pending => {
                    &&& old(self)@.len() == 0
                    &&& !old(self).closed()
                    &&& final(self)@ == old(self)@
                },
                ReadOutcome::End => {
                    &&& old(self)@.len() == 0
                    &&& old(self).closed()
                    &&& final(self)@ == old(self)@
                },
            },
    {
        if self.len == 0 {
            if self.closed {
                return ReadOutcome::End;
            }
            return ReadOutcome::Pending;
        }
        let asked = if wanted <= self.capacity {
            wanted
        } else {
            self.capacity
        };
        let bytes = storage_read(&mut self.storage, asked);
        self.len = self.len - bytes.len();
        ReadOutcome::Data(bytes)
    }

    /// Marks the end of the source. What is buffered stays readable; a
    /// reader that finds the buffer empty afterwards is told of the end.
    pub fn close(&mut self)
        requires
            old(self).wf(),
        ensures
            final(self).wf(),
            final(self).closed(),
            final(self)@ == old(self)@,
            final(self).limit() == old(self).limit(),
            final(self).accepted() == old(self).accepted(),
    {
        self.closed = true;
    }
}

} // verus!
