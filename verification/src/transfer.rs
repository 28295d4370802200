use vstd::prelude::*;
use crate::error::StorageError;

verus! {

/// The largest size a record can hold.
pub const MAX_RECORDED_SIZE: u64 = 0x7fff_ffff_ffff_ffff;

/// Running count of the bytes of one upload that reached the backend.
#[derive(Debug)]
pub struct TransferProgress {
    written: u64,
}

impl TransferProgress {
    /// The number of bytes counted so far.
    pub closed spec fn written(&self) -> nat {
        self.written as nat
    }

    #[verifier::type_invariant]
    spec fn within_limit(&self) -> bool {
        self.written <= MAX_RECORDED_SIZE
    }

    /// A transfer of which nothing has been written yet.
    pub fn new() -> (progress: TransferProgress)
        ensures
            progress.written() == 0,
    {
        TransferProgress { written: 0 }
    }

    /// Counts one chunk of `len` bytes that was written. The count must stay
    /// within what a record can hold; a chunk that would pass that limit is
    /// refused and the count stays as it was.
    pub fn record_chunk(&mut self, len: usize) -> (result: Result<(), StorageError>)
        ensures
            old(self).written() + len <= MAX_RECORDED_SIZE ==> result is Ok,
            old(self).written() + len <= MAX_RECORDED_SIZE ==> final(self).written() == old(self).written() + len,
            old(self).written() + len > MAX_RECORDED_SIZE ==> result == Err::<(), StorageError>(
                StorageError::Transfer,
            ),
            old(self).written() + len > MAX_RECORDED_SIZE ==> final(self).written() == old(self).written(),
    {
        proof {
            use_type_invariant(&*self);
        }
        let room = MAX_RECORDED_SIZE - self.written;
        if len as u64 <= room {
            self.written = self.written + len as u64;
            Ok(())
        } else {
            Err(StorageError::Transfer)
        }
    }

    /// The size to record for the finished transfer.
    pub fn total(&self) -> (size: i64)
        ensures
            size == self.written(),
    {
        proof {
            use_type_invariant(self);
        }
        self.written as i64
    }
}

/// The limit a buffer works with: the one asked for, but never more than a
/// record can hold.
pub open spec fn effective_limit(limit: nat) -> nat {
    if limit <= MAX_RECORDED_SIZE {
        limit
    } else {
        MAX_RECORDED_SIZE as nat
    }
}

/// An upload gathered in memory before it is handed to an object store in one
/// piece, held to a size limit.
#[derive(Debug)]
pub struct BufferedUpload {
    data: Vec<u8>,
    limit: usize,
}

impl BufferedUpload {
    /// The bytes gathered so far.
    pub closed spec fn bytes(&self) -> Seq<u8> {
        self.data@
    }

    /// The largest number of bytes the buffer accepts.
    pub closed spec fn limit(&self) -> nat {
        self.limit as nat
    }

    #[verifier::type_invariant]
    spec fn within_limit(&self) -> bool {
        self.data@.len() <= self.limit && self.limit <= MAX_RECORDED_SIZE
    }

    /// An empty buffer that accepts at most `limit` bytes.
    pub fn new(limit: usize) -> (buffer: BufferedUpload)
        ensures
            buffer.bytes() == Seq::<u8>::empty(),
            buffer.limit() == effective_limit(limit as nat),
    {
        let limit = if limit as u64 <= MAX_RECORDED_SIZE {
            limit
        } else {
            MAX_RECORDED_SIZE as usize
        };
        BufferedUpload { data: Vec::new(), limit }
    }

    /// Appends one chunk. A chunk that would take the buffer past its limit
    /// is refused and the buffer stays as it was.
    pub fn push_chunk(&mut self, chunk: &[u8]) -> (result: Result<(), StorageError>)
        ensures
            final(self).limit() == old(self).limit(),
            old(self).bytes().len() + chunk@.len() <= old(self).limit() ==> result is Ok,
            old(self).bytes().len() + chunk@.len() <= old(self).limit() ==> final(self).bytes()
                == old(self).bytes() + chunk@,
            old(self).bytes().len() + chunk@.len() > old(self).limit() ==> result == Err::<
                (),
                StorageError,
            >(StorageError::Transfer),
            old(self).bytes().len() + chunk@.len() > old(self).limit() ==> final(self).bytes()
                == old(self).bytes(),
    {
        proof {
            use_type_invariant(&*self);
        }
        let room = self.limit - self.data.len();
        if chunk.len() <= room {
            let mut data = Vec::new();
            std::mem::swap(&mut data, &mut self.data);
            data.extend_from_slice(chunk);
            self.data = data;
            Ok(())
        } else {
            Err(StorageError::Transfer)
        }
    }

    /// The number of bytes gathered.
    pub fn len(&self) -> (n: usize)
        ensures
            n == self.bytes().len(),
    {
        self.data.len()
    }

    /// The size to record for the gathered bytes.
    pub fn size(&self) -> (size: i64)
        ensures
            size == self.bytes().len(),
    {
        proof {
            use_type_invariant(self);
        }
        self.data.len() as i64
    }

    /// Ends the upload and hands out the gathered bytes.
    pub fn into_bytes(self) -> (data: Vec<u8>)
        ensures
            data@ == self.bytes(),
    {
        self.data
    }
}

/// The content of one object as a forward stream: read chunk by chunk from
/// the start to the end, with no way to seek but to start over.
#[derive(Debug)]
pub struct ObjectReader {
    data: Vec<u8>,
    position: usize,
}

impl ObjectReader {
    /// The whole content of the object.
    pub closed spec fn content(&self) -> Seq<u8> {
        self.data@
    }

    /// The number of bytes that were read.
    pub closed spec fn position(&self) -> nat {
        self.position as nat
    }

    /// The bytes that are still to be read.
    pub open spec fn remaining(&self) -> Seq<u8> {
        self.content().subrange(self.position() as int, self.content().len() as int)
    }

    #[verifier::type_invariant]
    spec fn within_content(&self) -> bool {
        self.position <= self.data@.len()
    }

    /// A reader at the start of `data`.
    pub fn new(data: Vec<u8>) -> (reader: ObjectReader)
        ensures
            reader.content() == data@,
            reader.position() == 0,
    {
        ObjectReader { data, position: 0 }
    }

    /// Reads the next chunk, of at most `max_len` bytes. `None` marks the
    /// end of the content; it is also the answer to a `max_len` of zero.
    pub fn next_chunk(&mut self, max_len: usize) -> (chunk: Option<Vec<u8>>)
        ensures
            final(self).content() == old(self).content(),
            old(self).position() <= old(self).content().len(),
            match chunk {
                Some(bytes) => {
                    &&& bytes@.len() > 0
                    &&& bytes@.len() <= max_len
                    &&& bytes@.len() <= old(self).remaining().len()
                    &&& bytes@.len() == max_len || bytes@.len() == old(self).remaining().len()
                    &&& bytes@ == old(self).remaining().subrange(0, bytes@.len() as int)
                    &&& final(self).position() == old(self).position() + bytes@.len()
                },
                None => {
                    &&& max_len == 0 || old(self).remaining().len() == 0
                    &&& final(self).position() == old(self).position()
                },
            },
    {
        proof {
            use_type_invariant(&*self);
        }
        let rest = self.data.len() - self.position;
        if max_len == 0 || rest == 0 {
            return None;
        }
        let take = if max_len < rest {
            max_len
        } else {
            rest
        };
        let start = self.position;
        let mut bytes: Vec<u8> = Vec::new();
        let mut k: usize = 0;
        while k < take
            invariant
                k <= take,
                start + take <= self.data.len(),
                bytes@ == self.data@.subrange(start as int, start + k),
            decreases take - k,
        {
            bytes.push(self.data[start + k]);
            k += 1;
        }
        self.position = start + take;
        Some(bytes)
    }

    /// Starts over: the next chunk is the first one again.
    pub fn rewind(&mut self)
        ensures
            final(self).content() == old(self).content(),
            final(self).position() == 0,
    {
        self.position = 0;
    }

    /// Reads all that is left, in one piece.
    pub fn read_to_end(&mut self) -> (bytes: Vec<u8>)
        ensures
            final(self).content() == old(self).content(),
            final(self).position() == old(self).content().len(),
            bytes@ == old(self).remaining(),
    {
        proof {
            use_type_invariant(&*self);
        }
        let start = self.position;
        let end = self.data.len();
        let mut bytes: Vec<u8> = Vec::new();
        let mut k: usize = start;
        while k < end
            invariant
                start <= k <= end,
                end == self.data@.len(),
                bytes@ == self.data@.subrange(start as int, k as int),
            decreases end - k,
        {
            bytes.push(self.data[k]);
            k += 1;
        }
        self.position = end;
        bytes
    }
}

} // verus!
