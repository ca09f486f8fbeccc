//! A forward-only reader over a finite byte sequence.
use vstd::prelude::*;

verus! {

/// Why a decode stopped.
#[derive(Debug, Clone, Copy, PartialEq, Eq, Structural)]
pub enum DecodeError {
    /// The bytes ran out in the middle of an instruction.
    EndOfStream,
}

/// The 16-bit value of two bytes read low byte first.
pub open spec fn le16(lo: u8, hi: u8) -> u16 {
    (lo as int + 256 * (hi as int)) as u16
}

/// Sequential reader: each byte is handed out once, in order.
pub struct ByteCursor {
    bytes: Vec<u8>,
    pos: usize,
}

impl ByteCursor {
    /// All the bytes, read or not.
    pub closed spec fn data(&self) -> Seq<u8> {
        self.bytes@
    }

    /// How many bytes have been read.
    pub closed spec fn pos(&self) -> int {
        self.pos as int
    }

    pub open spec fn wf(&self) -> bool {
        0 <= self.pos() <= self.data().len()
    }

    /// A cursor at the start of `bytes`.
    pub fn new(bytes: Vec<u8>) -> (r: ByteCursor)
        ensures
            r.wf(),
            r.data() == bytes@,
            r.pos() == 0,
    {
        ByteCursor { bytes, pos: 0 }
    }

    /// Whether every byte has been read.
    pub fn at_end(&self) -> (r: bool)
        requires
            self.wf(),
        ensures
            r == (self.pos() == self.data().len()),
    {
        self.pos == self.bytes.len()
    }
}

/// Reads one byte; fails without moving when none is left.
pub fn get_next_u8(cursor: &mut ByteCursor) -> (r: Result<u8, DecodeError>)
    requires
        old(cursor).wf(),
    ensures
        final(cursor).wf(),
        final(cursor).data() == old(cursor).data(),
        old(cursor).pos() < old(cursor).data().len() ==> r == Ok::<u8, DecodeError>(
            old(cursor).data()[old(cursor).pos()],
        ) && final(cursor).pos() == old(cursor).pos() + 1,
        old(cursor).pos() >= old(cursor).data().len() ==> r == Err::<u8, DecodeError>(
            DecodeError::EndOfStream,
        ) && final(cursor).pos() == old(cursor).pos(),
{
    if cursor.pos < cursor.bytes.len() {
        let b = cursor.bytes[cursor.pos];
        cursor.pos = cursor.pos + 1;
        Ok(b)
    } else {
        Err(DecodeError::EndOfStream)
    }
}

/// Reads two bytes as a little-endian 16-bit value; fails without moving
/// when fewer than two are left.
pub fn get_next_u16(cursor: &mut ByteCursor) -> (r: Result<u16, DecodeError>)
    requires
        old(cursor).wf(),
    ensures
        final(cursor).wf(),
        final(cursor).data() == old(cursor).data(),
        old(cursor).pos() + 2 <= old(cursor).data().len() ==> r == Ok::<u16, DecodeError>(
            le16(old(cursor).data()[old(cursor).pos()], old(cursor).data()[old(cursor).pos() + 1]),
        ) && final(cursor).pos() == old(cursor).pos() + 2,
        old(cursor).pos() + 2 > old(cursor).data().len() ==> r == Err::<u16, DecodeError>(
            DecodeError::EndOfStream,
        ) && final(cursor).pos() == old(cursor).pos(),
{
    if cursor.bytes.len() - cursor.pos >= 2 {
        let lo = cursor.bytes[cursor.pos];
        let hi = cursor.bytes[cursor.pos + 1];
        cursor.pos = cursor.pos + 2;
        Ok(lo as u16 + (hi as u16) * 256)
    } else {
        Err(DecodeError::EndOfStream)
    }
}

} // verus!
