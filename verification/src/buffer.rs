//! Assembly of received chunks in a destination that the caller owns.
use crate::error::Error;
use vstd::prelude::*;

verus! {

/// Cursor over a destination slice that is filled chunk by chunk.
///
/// `CHUNK_SIZE` bounds the number of bytes that are requested at once.
pub struct Buffer<'a, const CHUNK_SIZE: usize> {
    /// Destination of the received data
    pub buffer: &'a mut [u8],
    /// Next buffer index to start inserting data
    pub position: usize,
}

/// Mathematical model of a [`Buffer`]: the bytes of the destination and the
/// cursor.
pub struct BufferState {
    pub bytes: Seq<u8>,
    pub position: usize,
}

impl BufferState {
    /// The cursor lies within the destination, whose length is one that a
    /// slice can have.
    pub open spec fn wf(self) -> bool {
        self.position <= self.bytes.len() <= usize::MAX
    }

    /// Number of bytes that the destination can hold.
    pub open spec fn capacity(self) -> nat {
        self.bytes.len()
    }

    /// Number of bytes that still fit.
    pub open spec fn space(self) -> nat {
        (self.bytes.len() - self.position) as nat
    }

    /// The bytes written so far.
    pub open spec fn written(self) -> Seq<u8> {
        self.bytes.subrange(0, self.position as int)
    }

    /// No byte fits any more.
    pub open spec fn full(self) -> bool {
        self.position >= self.bytes.len()
    }

    /// Length of the next request: the free space, cut at `chunk_size`.
    pub open spec fn next_length(self, chunk_size: usize) -> usize {
        if self.space() > chunk_size {
            chunk_size
        } else {
            self.space() as usize
        }
    }

    /// The buffer after `data` was placed at the cursor: the bytes before
    /// the cursor and those behind the data stay, and the cursor moves behind
    /// the data.
    pub open spec fn appended(self, data: Seq<u8>) -> Self {
        BufferState {
            bytes: self.written() + data + self.bytes.subrange(
                self.position + data.len(),
                self.bytes.len() as int,
            ),
            position: (self.position + data.len()) as usize,
        }
    }
}

impl<'a, const CHUNK_SIZE: usize> View for Buffer<'a, CHUNK_SIZE> {
    type V = BufferState;

    open spec fn view(&self) -> BufferState {
        BufferState { bytes: self.buffer@, position: self.position }
    }
}

impl<'a, const CHUNK_SIZE: usize> Buffer<'a, CHUNK_SIZE> {
    /// Starts to fill `buffer` at its first byte. What the buffer holds when
    /// it is given up is what the caller finds in `buffer`.
    pub fn new(buffer: &'a mut [u8]) -> (r: Self)
        ensures
            r@ == (BufferState { bytes: old(buffer)@, position: 0 }),
            r@.wf(),
            final(r.buffer)@ == final(buffer)@,
    {
        let r = Self { buffer, position: 0 };
        // Reading the length shows that it is one that a slice can have.
        let _capacity: usize = r.buffer.len();
        r
    }

    /// Returns the length of next chunk based on max. chunk size and available
    /// buffer space
    pub fn get_next_length(&self) -> (length: usize)
        requires
            self@.wf(),
        ensures
            length == self@.next_length(CHUNK_SIZE),
            length <= CHUNK_SIZE,
            length <= self@.space(),
    {
        let buffer_space: usize = self.buffer_space();
        if buffer_space > CHUNK_SIZE {
            return CHUNK_SIZE;
        }
        buffer_space
    }

    /// Appends the received data to the buffer.
    ///
    /// Data that does not fit the free space is refused as a whole: nothing is
    /// written then.
    pub fn append(&mut self, data: &[u8]) -> (r: Result<(), Error>)
        requires
            old(self)@.wf(),
        ensures
            final(self)@.wf(),
            final(self)@.capacity() == old(self)@.capacity(),
            final(final(self).buffer)@ == final(old(self).buffer)@,
            data@.len() > old(self)@.space() ==> r == Err::<(), Error>(Error::ReceiveOverflow)
                && final(self)@ == old(self)@,
            data@.len() <= old(self)@.space() ==> r == Ok::<(), Error>(()) && final(self)@ == old(
                self,
            )@.appended(data@),
            r is Ok ==> final(self)@.position == old(self)@.position + data@.len(),
            r is Ok ==> final(self)@.written() == old(self)@.written() + data@,
    {
        if data.len() > self.buffer_space() {
            return Err(Error::ReceiveOverflow);
        }
        let capacity: usize = self.buffer.len();
        let end: usize = self.position + data.len();
        let mut i: usize = 0;
        while i < data.len()
            invariant
                i <= data@.len(),
                capacity == self.buffer@.len(),
                self.position == old(self).position,
                self.position + data@.len() <= self.buffer@.len(),
                self.buffer@.len() == old(self).buffer@.len(),
                final(self.buffer)@ == final(old(self).buffer)@,
                forall|k: int|
                    0 <= k < self.buffer@.len() ==> self.buffer@[k] == (if self.position <= k
                        < self.position + i {
                        data@[k - self.position]
                    } else {
                        old(self).buffer@[k]
                    }),
            decreases data@.len() - i,
        {
            self.buffer[self.position + i] = data[i];
            i = i + 1;
        }
        self.position = end;
        assert(self.buffer@ =~= old(self)@.appended(data@).bytes);
        Ok(())
    }

    /// Returns true if the buffer is completely filled
    pub fn is_full(&self) -> (full: bool)
        ensures
            full == self@.full(),
    {
        if self.buffer.is_empty() {
            return true;
        }
        self.position >= self.buffer.len()
    }

    /// Returns the remaining free buffer space
    pub fn buffer_space(&self) -> (space: usize)
        requires
            self@.wf(),
        ensures
            space == self@.space(),
    {
        self.buffer.len() - self.position
    }

    /// Returns the current fill length
    pub fn len(&self) -> (length: usize)
        ensures
            length == self@.position,
    {
        self.position
    }
}

} // verus!
