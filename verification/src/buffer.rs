use vstd::prelude::*;

use crate::errors::DeviceError;

verus! {

/// The fixed-capacity byte store backing a device file. One instance is
/// shared by the device registration and by every open handle; its length is
/// fixed at construction and never changes afterwards.
pub struct SharedBuffer {
    data: Vec<u8>,
}

impl View for SharedBuffer {
    type V = Seq<u8>;

    closed spec fn view(&self) -> Seq<u8> {
        self.data@
    }
}

/// A seek request against a device file. The buffer keeps no per-handle
/// cursor — the surrounding file abstraction owns the offset — so the
/// device answers every request with position zero.
#[derive(Clone, Copy, Debug, PartialEq, Eq, Structural)]
pub enum SeekRequest {
    Start(u64),
    End(i64),
    Current(i64),
}

/// The contents of a buffer `s` after writing `data` at `offset`: the bytes
/// of `data` replace `s[offset .. offset + data.len()]` and every other byte
/// is kept.
pub open spec fn spec_write(s: Seq<u8>, offset: int, data: Seq<u8>) -> Seq<u8>
    recommends
        0 <= offset,
        offset + data.len() <= s.len(),
{
    s.subrange(0, offset) + data + s.subrange(offset + data.len(), s.len() as int)
}

impl SharedBuffer {
    /// A fresh buffer of `capacity` zero bytes.
    pub fn new(capacity: usize) -> (buf: SharedBuffer)
        ensures
            buf@ == Seq::new(capacity as nat, |i: int| 0u8),
    {
        let mut data: Vec<u8> = Vec::new();
        while data.len() < capacity
            invariant
                data@.len() <= capacity,
                forall|i: int| 0 <= i < data@.len() ==> data@[i] == 0u8,
            decreases capacity - data@.len(),
        {
            data.push(0u8);
        }
        proof {
            assert(data@ =~= Seq::new(capacity as nat, |i: int| 0u8));
        }
        SharedBuffer { data }
    }

    /// The fixed capacity chosen at construction.
    pub fn capacity(&self) -> (n: usize)
        ensures
            n == self@.len(),
    {
        self.data.len()
    }

    /// Copy `length` bytes starting at `offset` out of the shared buffer.
    ///
    /// A zero-length request succeeds with no bytes regardless of `offset`;
    /// any other request is served exactly when the whole range
    /// `[offset, offset + length)` lies within the capacity, and rejected
    /// with `OutOfRange` otherwise.
    pub fn read(&self, offset: usize, length: usize) -> (r: Result<Vec<u8>, DeviceError>)
        ensures
            length == 0 ==> (r matches Ok(bytes) && bytes@ == Seq::<u8>::empty()),
            length > 0 && offset + length <= self@.len() ==> (r matches Ok(bytes) && bytes@
                == self@.subrange(offset as int, offset + length)),
            length > 0 && offset + length > self@.len() ==> r == Err::<Vec<u8>, DeviceError>(
                DeviceError::OutOfRange,
            ),
    {
        if length == 0 {
            return Ok(Vec::new());
        }
        if length > self.data.len() || offset > self.data.len() - length {
            return Err(DeviceError::OutOfRange);
        }
        let mut bytes: Vec<u8> = Vec::new();
        let mut i: usize = 0;
        while i < length
            invariant
                i <= length,
                offset + length <= self.data@.len(),
                self.data@.len() <= usize::MAX,
                bytes@.len() == i,
                forall|k: int| 0 <= k < i ==> bytes@[k] == self.data@[offset + k],
            decreases length - i,
        {
            bytes.push(self.data[offset + i]);
            i = i + 1;
        }
        proof {
            assert(bytes@ =~= self@.subrange(offset as int, offset + length));
        }
        Ok(bytes)
    }

    /// Copy all of `data` into the shared buffer starting at `offset`.
    ///
    /// An empty payload succeeds with zero bytes written and leaves the
    /// buffer untouched; any other payload is written exactly when the whole
    /// range `[offset, offset + data.len())` lies within the capacity, and
    /// rejected with `OutOfRange` — with the buffer unchanged — otherwise.
    pub fn write(&mut self, offset: usize, data: &Vec<u8>) -> (r: Result<usize, DeviceError>)
        ensures
            final(self)@.len() == old(self)@.len(),
            data@.len() == 0 ==> (r == Ok::<usize, DeviceError>(0) && final(self)@ == old(
                self,
            )@),
            data@.len() > 0 && offset + data@.len() <= old(self)@.len() ==> (r matches Ok(n)
                && n == data@.len() && final(self)@ == spec_write(
                old(self)@,
                offset as int,
                data@,
            )),
            data@.len() > 0 && offset + data@.len() > old(self)@.len() ==> (r == Err::<
                usize,
                DeviceError,
            >(DeviceError::OutOfRange) && final(self)@ == old(self)@),
    {
        let length = data.len();
        if length == 0 {
            return Ok(0);
        }
        if length > self.data.len() || offset > self.data.len() - length {
            return Err(DeviceError::OutOfRange);
        }
        let mut i: usize = 0;
        while i < length
            invariant
                i <= length,
                length == data@.len(),
                offset + length <= self.data@.len(),
                self.data@.len() <= usize::MAX,
                self.data@.len() == old(self)@.len(),
                forall|k: int| 0 <= k < i ==> self.data@[offset + k] == data@[k],
                forall|k: int|
                    0 <= k < self.data@.len() && !(offset <= k < offset + i) ==> self.data@[k]
                        == old(self)@[k],
            decreases length - i,
        {
            self.data.set(offset + i, data[i]);
            i = i + 1;
        }
        proof {
            assert(self@ =~= spec_write(old(self)@, offset as int, data@));
        }
        Ok(length)
    }

    /// Answer a seek request. The device tracks no position of its own, so
    /// the reported position is always zero; per-handle offset tracking is
    /// owned by the surrounding file abstraction.
    pub fn seek(&self, _request: SeekRequest) -> (pos: u64)
        ensures
            pos == 0,
    {
        0
    }
}

/// Law: a write followed by a read over the same valid range returns exactly
/// the written bytes, and writing never changes the buffer's length.
pub proof fn lemma_write_read_round_trip(s: Seq<u8>, offset: int, data: Seq<u8>)
    requires
        0 <= offset,
        offset + data.len() <= s.len(),
    ensures
        spec_write(s, offset, data).len() == s.len(),
        spec_write(s, offset, data).subrange(offset, offset + data.len()) == data,
{
    assert(spec_write(s, offset, data).subrange(offset, offset + data.len()) =~= data);
}

/// Law: a write leaves every byte outside the written range as it was.
pub proof fn lemma_write_preserves_outside(s: Seq<u8>, offset: int, data: Seq<u8>, i: int)
    requires
        0 <= offset,
        offset + data.len() <= s.len(),
        0 <= i < s.len(),
        !(offset <= i < offset + data.len()),
    ensures
        spec_write(s, offset, data)[i] == s[i],
{
}

} // verus!
