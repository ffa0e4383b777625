use vstd::prelude::*;

verus! {

/// A triple buffer whose writer and reader sides are driven through one
/// owner.
///
/// The writer writes into its own buffer, then swaps it with the back buffer
/// and records it as the last written one; the reader swaps its buffer with
/// the back buffer whenever the last written buffer is not the one it reads.
/// The back and last indices are the values that are exchanged between the
/// two sides.
pub struct TripleBuffer<T: Clone> {
    /// Storage for triple-buffered data.
    storage: [T; 3],
    /// Index of the write buffer (private to the writer).
    write_idx: usize,
    /// Index of the back buffer (shared between reader and writer).
    back_idx: usize,
    /// Index of the read buffer (private to the reader).
    read_idx: usize,
    /// Index of the most up-to-date buffer (written by writer, read by reader).
    last_idx: usize,
}

impl<T: Clone> TripleBuffer<T> {
    /// Contents of the three buffers.
    pub closed spec fn storage_view(&self) -> Seq<T> {
        self.storage@
    }

    /// Index of the write buffer.
    pub closed spec fn write_index(&self) -> int {
        self.write_idx as int
    }

    /// Index of the back buffer.
    pub closed spec fn back_index(&self) -> int {
        self.back_idx as int
    }

    /// Index of the read buffer.
    pub closed spec fn read_index(&self) -> int {
        self.read_idx as int
    }

    /// Index of the most up-to-date buffer.
    pub closed spec fn last_index(&self) -> int {
        self.last_idx as int
    }

    /// There are three buffers; write, back and read buffers are distinct,
    /// and the most up-to-date buffer is either the read buffer or the back
    /// buffer.
    pub open spec fn wf(&self) -> bool {
        &&& self.storage_view().len() == 3
        &&& 0 <= self.write_index() < 3
        &&& 0 <= self.back_index() < 3
        &&& 0 <= self.read_index() < 3
        &&& self.write_index() != self.back_index()
        &&& self.write_index() != self.read_index()
        &&& self.back_index() != self.read_index()
        &&& (self.last_index() == self.read_index() || self.last_index() == self.back_index())
    }

    /// The most up-to-date value.
    pub open spec fn latest(&self) -> T {
        self.storage_view()[self.last_index()]
    }

    /// `after` is `before` with `value` written: the value goes into the
    /// write buffer, which becomes the back buffer and the last written one,
    /// and the old back buffer becomes the write buffer.
    pub open spec fn writes(before: Self, after: Self, value: T) -> bool {
        &&& after.storage_view() == before.storage_view().update(before.write_index(), value)
        &&& after.write_index() == before.back_index()
        &&& after.back_index() == before.write_index()
        &&& after.read_index() == before.read_index()
        &&& after.last_index() == before.write_index()
    }

    /// `after` is `before` after a read: if the last written buffer is not
    /// the read buffer, the read buffer and the back buffer are swapped, so
    /// that the reader holds the last written buffer.
    pub open spec fn reads(before: Self, after: Self) -> bool {
        &&& after.storage_view() == before.storage_view()
        &&& after.write_index() == before.write_index()
        &&& after.last_index() == before.last_index()
        &&& after.read_index() == before.last_index()
        &&& (before.read_index() != before.last_index() ==> after.back_index()
            == before.read_index())
        &&& (before.read_index() == before.last_index() ==> after.back_index()
            == before.back_index())
    }

    /// Create a new triple buffer with some initial data value.
    pub fn new(initial: T) -> (r: Self)
        ensures
            r.wf(),
            forall|i: int| 0 <= i < 3 ==> cloned(initial, #[trigger] r.storage_view()[i]),
            r.write_index() == 0,
            r.back_index() == 1,
            r.read_index() == 2,
            r.last_index() == 2,
    {
        TripleBuffer {
            storage: [initial.clone(), initial.clone(), initial.clone()],
            write_idx: 0,
            back_idx: 1,
            read_idx: 2,
            last_idx: 2,
        }
    }

    /// Write a new value into the triple buffer.
    pub fn write(&mut self, value: T)
        requires
            old(self).wf(),
        ensures
            Self::writes(*old(self), *final(self), value),
            final(self).wf(),
            final(self).latest() == value,
    {
        // Select a write buffer that we have exclusive access to
        let active_idx = self.write_idx;

        // Move the input value into the write buffer
        self.storage[active_idx] = value;

        // Swap the back buffer and the write buffer. This makes the new data
        // block available to the reader and gives us a new buffer to write to.
        self.write_idx = self.back_idx;
        self.back_idx = active_idx;

        // Let the reader detect this update
        self.last_idx = active_idx;
    }

    /// Access the latest value from the triple buffer.
    pub fn read(&mut self) -> (r: &T)
        requires
            old(self).wf(),
        ensures
            Self::reads(*old(self), *final(self)),
            *r == old(self).latest(),
            final(self).wf(),
            final(self).latest() == old(self).latest(),
    {
        // Update the read buffer if an update has occured since the last read
        if self.read_idx != self.last_idx {
            // Swap the back buffer and the read buffer. We get exclusive read
            // access to the data, and the writer gets a new back buffer.
            let former_back_idx = self.back_idx;
            self.back_idx = self.read_idx;
            self.read_idx = former_back_idx;
        }

        // Access data from the current read buffer
        &self.storage[self.read_idx]
    }

    /// Contents of the three buffers.
    pub fn storage(&self) -> (r: &[T; 3])
        ensures
            r@ == self.storage_view(),
    {
        &self.storage
    }

    /// Index of the write buffer.
    pub fn write_idx(&self) -> (r: usize)
        ensures
            r == self.write_index(),
    {
        self.write_idx
    }

    /// Index of the back buffer.
    pub fn back_idx(&self) -> (r: usize)
        ensures
            r == self.back_index(),
    {
        self.back_idx
    }

    /// Index of the read buffer.
    pub fn read_idx(&self) -> (r: usize)
        ensures
            r == self.read_index(),
    {
        self.read_idx
    }

    /// Index of the most up-to-date buffer.
    pub fn last_idx(&self) -> (r: usize)
        ensures
            r == self.last_index(),
    {
        self.last_idx
    }
}

/// Writing keeps the buffer well formed, and the written value becomes the
/// latest one.
pub proof fn lemma_write_publishes<T: Clone>(
    before: TripleBuffer<T>,
    after: TripleBuffer<T>,
    value: T,
)
    requires
        before.wf(),
        TripleBuffer::writes(before, after, value),
    ensures
        after.wf(),
        after.latest() == value,
{
}

/// A read returns the latest value: after a write, the written value, and
/// the reader then holds the buffer that was written.
pub proof fn lemma_read_returns_last_write<T: Clone>(
    before: TripleBuffer<T>,
    written: TripleBuffer<T>,
    after: TripleBuffer<T>,
    value: T,
)
    requires
        before.wf(),
        TripleBuffer::writes(before, written, value),
        TripleBuffer::reads(written, after),
    ensures
        written.latest() == value,
        after.wf(),
        after.storage_view()[after.read_index()] == value,
        after.latest() == value,
{
}

/// Reading keeps the buffer well formed, and reading again without a write in
/// between changes nothing and returns the same value.
pub proof fn lemma_reread_is_stable<T: Clone>(
    before: TripleBuffer<T>,
    once: TripleBuffer<T>,
    twice: TripleBuffer<T>,
)
    requires
        before.wf(),
        TripleBuffer::reads(before, once),
        TripleBuffer::reads(once, twice),
    ensures
        once.wf(),
        twice.storage_view() == once.storage_view(),
        twice.write_index() == once.write_index(),
        twice.back_index() == once.back_index(),
        twice.read_index() == once.read_index(),
        twice.last_index() == once.last_index(),
        once.latest() == before.latest(),
{
}

/// The writer never writes into the buffer that holds the latest value, nor
/// into the buffer that a read hands to the reader.
pub proof fn lemma_write_buffer_is_not_latest<T: Clone>(
    before: TripleBuffer<T>,
    after: TripleBuffer<T>,
)
    requires
        before.wf(),
        TripleBuffer::reads(before, after),
    ensures
        before.write_index() != before.last_index(),
        before.write_index() != after.read_index(),
{
}

} // verus!
