//! Device and host memory as plain addresses and byte counts.
use vstd::prelude::*;

use crate::text::append_size;
use crate::text::decimal;

verus! {

/// A span of device memory: its address, its length and the device it is on.
#[derive(Clone, Copy, Debug, PartialEq, Eq, Structural)]
pub struct Ds41rtDeviceBuffer {
    pub ptr: usize,
    pub bytes: usize,
    pub device_id: i32,
    pub flags: u32,
}

/// A span of host memory and whether it is pinned.
#[derive(Clone, Copy, Debug, PartialEq, Eq, Structural)]
pub struct Ds41rtHostBuffer {
    pub ptr: usize,
    pub bytes: usize,
    pub pinned: bool,
}

/// A byte range that does not lie inside its buffer.
#[derive(Clone, Copy, Debug, PartialEq, Eq, Structural)]
pub struct ByteViewError {
    pub offset: usize,
    pub bytes: usize,
    pub capacity: usize,
}

impl ByteViewError {
    pub open spec fn text(self) -> Seq<char> {
        "device byte view at offset "@ + decimal(self.offset as nat) + " of "@ + decimal(
            self.bytes as nat,
        ) + " bytes exceeds a buffer of "@ + decimal(self.capacity as nat) + " bytes"@
    }

    pub fn message(&self) -> (r: String)
        ensures
            r@ == self.text(),
    {
        let mut out: String = "device byte view at offset ".to_owned();
        append_size(&mut out, self.offset);
        out.append(" of ");
        append_size(&mut out, self.bytes);
        out.append(" bytes exceeds a buffer of ");
        append_size(&mut out, self.capacity);
        out.append(" bytes");
        out
    }
}

impl Ds41rtDeviceBuffer {
    /// The byte range `offset..offset + bytes` lies inside the buffer and its
    /// first address can be written down.
    pub open spec fn holds(self, offset: int, bytes: int) -> bool {
        &&& offset + bytes <= self.bytes
        &&& self.ptr + offset <= usize::MAX
    }

    /// The part of the buffer that starts at `offset` and is `bytes` long.
    pub open spec fn part(self, offset: int, bytes: int) -> Ds41rtDeviceBuffer {
        Ds41rtDeviceBuffer {
            ptr: (self.ptr + offset) as usize,
            bytes: bytes as usize,
            device_id: self.device_id,
            flags: self.flags,
        }
    }

    /// The address `a` belongs to the first `bytes` bytes of the buffer.
    pub open spec fn covers_address(self, bytes: int, a: int) -> bool {
        self.ptr <= a < self.ptr + bytes
    }
}

/// A view of `bytes` bytes at `offset`, refused where it leaves the buffer.
pub fn device_buffer_byte_view(buffer: Ds41rtDeviceBuffer, offset: usize, bytes: usize) -> (result:
    Result<Ds41rtDeviceBuffer, ByteViewError>)
    ensures
        result is Ok <==> buffer.holds(offset as int, bytes as int),
        result matches Ok(view) ==> view == buffer.part(offset as int, bytes as int),
        result matches Err(e) ==> e == (ByteViewError { offset, bytes, capacity: buffer.bytes }),
{
    let error = ByteViewError { offset, bytes, capacity: buffer.bytes };
    if bytes > buffer.bytes || offset > buffer.bytes - bytes {
        return Err(error);
    }
    match buffer.ptr.checked_add(offset) {
        Some(ptr) => Ok(
            Ds41rtDeviceBuffer { ptr, bytes, device_id: buffer.device_id, flags: buffer.flags },
        ),
        None => Err(error),
    }
}

} // verus!
