//! Reading the EC's memory-mapped region.
//!
//! The EC exposes a small block of continuously updated state (battery
//! readings, temperatures, switch positions) that can be read without issuing
//! a host command. A read goes through a transport: the `/dev/cros_ec`
//! memory-map ioctl, or anything standing in for it. The transport is handed
//! the span to read and answers with the bytes it got.
use vstd::prelude::*;

use crate::error::EcError;

verus! {

/// Size of the EC's memory-mapped region, in bytes.
pub const EC_MEMMAP_SIZE: usize = 255;

/// Argument to the memory-map read ioctl: which span of the map to read.
#[derive(Clone, Copy, Debug, PartialEq, Eq, Structural)]
pub struct CrosEcReadmemV2 {
    /// Byte offset into the EC memory map.
    pub offset: u32,
    /// Number of bytes to read.
    pub bytes: u32,
}

/// What a read of `len` bytes at `offset` makes of the transport's answer:
/// the transport's own error, a short read when fewer bytes came back than
/// asked for, otherwise the first `len` bytes.
pub open spec fn spec_mem_outcome(offset: u32, len: nat, reply: Result<Vec<u8>, EcError>) -> Result<
    Seq<u8>,
    EcError,
> {
    match reply {
        Err(e) => Err(e),
        Ok(data) => if data@.len() < len {
            Err(EcError::ShortRead { offset, expected: len as usize, got: data@.len() as usize })
        } else {
            Ok(data@.subrange(0, len as int))
        },
    }
}

/// `outcome` is what asking `readmem` for `len` bytes at `offset` can give:
/// for some answer `readmem` may give to that request, the outcome is what
/// that answer means.
pub open spec fn mem_answered<R: Fn(&CrosEcReadmemV2) -> Result<Vec<u8>, EcError>>(
    readmem: R,
    offset: u32,
    len: nat,
    outcome: Result<Seq<u8>, EcError>,
) -> bool {
    exists|reply: Result<Vec<u8>, EcError>|
        readmem.ensures((&CrosEcReadmemV2 { offset, bytes: len as u32 },), reply) && outcome
            == spec_mem_outcome(offset, len, reply)
}

/// Whether a span of `len` bytes at `offset` lies inside the memory map.
pub open spec fn in_map(offset: u32, len: nat) -> bool {
    offset + len <= EC_MEMMAP_SIZE
}

/// Fill `buf` from the EC memory map, starting at `offset`.
///
/// A span that runs past the end of the map is refused before the transport
/// is asked. Otherwise `readmem` is asked for exactly `buf.len()` bytes at
/// `offset`; `buf` is filled only when at least that many came back, and is
/// left as it was on any error.
///
/// # Errors
///
/// [`EcError::MemMapRange`] if the span runs past the end of the memory map;
/// the transport's error if it fails; [`EcError::ShortRead`] if it returns
/// fewer bytes than asked.
pub fn read_bytes<R: Fn(&CrosEcReadmemV2) -> Result<Vec<u8>, EcError>>(
    readmem: &R,
    offset: u32,
    buf: &mut [u8],
) -> (r: Result<(), EcError>)
    requires
        forall|q: &CrosEcReadmemV2| readmem.requires((q,)),
    ensures
        !in_map(offset, old(buf)@.len()) ==> r == Err::<(), EcError>(
            EcError::MemMapRange { offset, len: old(buf)@.len() as usize },
        ) && final(buf)@ == old(buf)@,
        in_map(offset, old(buf)@.len()) ==> exists|o: Result<Seq<u8>, EcError>|
            #[trigger] mem_answered::<R>(*readmem, offset, old(buf)@.len(), o) && match o {
                Ok(bytes) => r is Ok && final(buf)@ == bytes,
                Err(e) => r == Err::<(), EcError>(e) && final(buf)@ == old(buf)@,
            },
{
    let len = buf.len();
    if offset as usize > EC_MEMMAP_SIZE || len > EC_MEMMAP_SIZE - offset as usize {
        return Err(EcError::MemMapRange { offset, len });
    }
    let request = CrosEcReadmemV2 { offset, bytes: len as u32 };
    let reply = readmem(&request);
    let ghost seen = reply;
    match reply {
        Err(e) => {
            assert(mem_answered::<R>(*readmem, offset, len as nat, spec_mem_outcome(offset, len as nat, seen)));
            Err(e)
        },
        Ok(data) => {
            if data.len() < len {
                assert(mem_answered::<R>(*readmem, offset, len as nat, spec_mem_outcome(offset, len as nat, seen)));
                return Err(EcError::ShortRead { offset, expected: len, got: data.len() });
            }
            let mut i: usize = 0;
            while i < len
                invariant
                    len == buf@.len(),
                    len <= data@.len(),
                    i <= len,
                    forall|j: int| 0 <= j < i ==> buf@[j] == data@[j],
                decreases len - i,
            {
                buf[i] = data[i];
                i = i + 1;
            }
            assert(buf@ =~= data@.subrange(0, len as int));
            assert(mem_answered::<R>(*readmem, offset, len as nat, spec_mem_outcome(offset, len as nat, seen)));
            Ok(())
        },
    }
}

} // verus!
