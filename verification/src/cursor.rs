//! The byte cursor: an exclusively-owned byte source with a reading
//! position and three independent nested "remaining bytes" counters
//! (group / record / subrecord scope).
//!
//! Entering a scope assigns (never decrements) that scope's counter from
//! the length declared in the scope's header; every primitive read then
//! decrements **all three** counters by the number of bytes consumed,
//! whether or not the scope is active. An enclosing decode loop such as
//! `while cursor.record_remaining() > 0` therefore terminates correctly
//! even though nested scopes share the bookkeeping.
//!
//! Every primitive operation has a spec-level mirror (`s_read_u8`,
//! `s_read_le_u32`, ...) that maps a [`CursorModel`] to the decoded value
//! and the successor model, so that the result of each operation is a
//! mathematical function of the cursor state.

use vstd::prelude::*;

use crate::error::{DecodeError, DecodeErrorKind};

verus! {

/// Upper bound on the size of an input buffer the cursor accepts. It keeps
/// every budget-counter computation comfortably inside `i64`.
pub const MAX_INPUT_LEN: u64 = 0x1000_0000_0000_0000;

/// Spec-level state of a byte cursor: the whole input, the reading
/// position, and the three nested byte-budget counters.
pub struct CursorModel {
    pub data: Seq<u8>,
    pub pos: int,
    pub group_left: int,
    pub record_left: int,
    pub subrecord_left: int,
}

/// Outcome of a spec-level decode step: the decoded value and the cursor
/// model after it, or the kind of error the step fails with.
pub type Decoded<T> = Result<(T, CursorModel), DecodeErrorKind>;

impl CursorModel {
    /// The state of a fresh cursor over `data`.
    pub open spec fn start(data: Seq<u8>) -> CursorModel {
        CursorModel { data, pos: 0, group_left: 0, record_left: 0, subrecord_left: 0 }
    }

    /// A budget counter stays in a window around the position: entering a
    /// scope sets it to at most `u32::MAX` (and no lower than -24), and a
    /// read moves `pos` and the counter in opposite directions, so
    /// `counter + pos` is invariant under reads.
    pub open spec fn counter_wf(counter: int, pos: int, len: int) -> bool {
        -24 <= counter + pos <= 0xFFFF_FFFF + len
    }

    /// Well-formedness: the position is inside the buffer, the buffer is
    /// small enough for `i64` bookkeeping, and each counter is in range.
    pub open spec fn wf(self) -> bool {
        &&& 0 <= self.pos <= self.data.len()
        &&& self.data.len() <= MAX_INPUT_LEN
        &&& Self::counter_wf(self.group_left, self.pos, self.data.len() as int)
        &&& Self::counter_wf(self.record_left, self.pos, self.data.len() as int)
        &&& Self::counter_wf(self.subrecord_left, self.pos, self.data.len() as int)
    }

    /// The state after consuming `n` bytes: the position moves forward and
    /// all three budget counters fall by `n`.
    pub open spec fn advanced(self, n: int) -> CursorModel {
        CursorModel {
            data: self.data,
            pos: self.pos + n,
            group_left: self.group_left - n,
            record_left: self.record_left - n,
            subrecord_left: self.subrecord_left - n,
        }
    }

    /// The state after `enter_group`: the group budget is assigned the
    /// declared total length minus the 24-byte group header.
    pub open spec fn entered_group(self, total_len: u32) -> CursorModel {
        CursorModel { group_left: total_len - 24, ..self }
    }

    /// The state after `enter_record`.
    pub open spec fn entered_record(self, len: u32) -> CursorModel {
        CursorModel { record_left: len as int, ..self }
    }

    /// The state after `enter_subrecord`.
    pub open spec fn entered_subrecord(self, len: u16) -> CursorModel {
        CursorModel { subrecord_left: len as int, ..self }
    }

    /// Bytes left in the buffer.
    pub open spec fn remaining(self) -> int {
        self.data.len() - self.pos
    }
}

/// A nonnegative measure for decode loops bounded by a budget counter.
pub open spec fn clamp0(n: int) -> int {
    if n > 0 {
        n
    } else {
        0
    }
}

/// The little-endian `u16` stored at `s[i..i + 2]`.
pub open spec fn le_u16_at(s: Seq<u8>, i: int) -> u16 {
    (s[i] + s[i + 1] * 0x100) as u16
}

/// The little-endian `u32` stored at `s[i..i + 4]`.
pub open spec fn le_u32_at(s: Seq<u8>, i: int) -> u32 {
    (s[i] + s[i + 1] * 0x100 + s[i + 2] * 0x1_0000 + s[i + 3] * 0x100_0000) as u32
}

/// The big-endian `u32` stored at `s[i..i + 4]`; type tags are the one
/// big-endian field in the format.
pub open spec fn be_u32_at(s: Seq<u8>, i: int) -> u32 {
    (s[i] * 0x100_0000 + s[i + 1] * 0x1_0000 + s[i + 2] * 0x100 + s[i + 3]) as u32
}

/// The little-endian `u64` stored at `s[i..i + 8]`.
pub open spec fn le_u64_at(s: Seq<u8>, i: int) -> u64 {
    (s[i] + s[i + 1] * 0x100 + s[i + 2] * 0x1_0000 + s[i + 3] * 0x100_0000 + s[i + 4]
        * 0x1_0000_0000 + s[i + 5] * 0x100_0000_0000 + s[i + 6] * 0x1_0000_0000_0000 + s[i + 7]
        * 0x100_0000_0000_0000) as u64
}

/// The `i32` whose two's-complement bit pattern is `bits`.
pub open spec fn i32_from_bits(bits: u32) -> i32 {
    if bits < 0x8000_0000 {
        bits as i32
    } else {
        (bits - 0x1_0000_0000) as i32
    }
}

/// Index of the first zero byte of `s` at or after `from`; `s.len()` when
/// there is none.
pub open spec fn first_nul(s: Seq<u8>, from: int) -> int
    decreases s.len() - from,
    when 0 <= from <= s.len()
{
    if from >= s.len() {
        s.len() as int
    } else if s[from] == 0 {
        from
    } else {
        first_nul(s, from + 1)
    }
}

/// What [`first_nul`] finds: the first index at or after `from` holding
/// a zero byte, or the end of the buffer when there is none.
pub proof fn lemma_first_nul(s: Seq<u8>, from: int)
    requires
        0 <= from <= s.len(),
    ensures
        from <= first_nul(s, from) <= s.len(),
        first_nul(s, from) < s.len() ==> s[first_nul(s, from)] == 0,
        forall|i: int| from <= i < first_nul(s, from) ==> s[i] != 0,
    decreases s.len() - from,
{
    if from < s.len() && s[from] != 0 {
        lemma_first_nul(s, from + 1);
    }
}

/// Mirror of [`Cursor::read_u8`].
pub open spec fn s_read_u8(c: CursorModel) -> Decoded<u8> {
    if c.pos + 1 <= c.data.len() {
        Ok((c.data[c.pos], c.advanced(1)))
    } else {
        Err(DecodeErrorKind::Io)
    }
}

/// Mirror of [`Cursor::read_le_u16`].
pub open spec fn s_read_le_u16(c: CursorModel) -> Decoded<u16> {
    if c.pos + 2 <= c.data.len() {
        Ok((le_u16_at(c.data, c.pos), c.advanced(2)))
    } else {
        Err(DecodeErrorKind::Io)
    }
}

/// Mirror of [`Cursor::read_le_u32`].
pub open spec fn s_read_le_u32(c: CursorModel) -> Decoded<u32> {
    if c.pos + 4 <= c.data.len() {
        Ok((le_u32_at(c.data, c.pos), c.advanced(4)))
    } else {
        Err(DecodeErrorKind::Io)
    }
}

/// Mirror of [`Cursor::read_le_u64`].
pub open spec fn s_read_le_u64(c: CursorModel) -> Decoded<u64> {
    if c.pos + 8 <= c.data.len() {
        Ok((le_u64_at(c.data, c.pos), c.advanced(8)))
    } else {
        Err(DecodeErrorKind::Io)
    }
}

/// Mirror of [`Cursor::read_le_i32`].
pub open spec fn s_read_le_i32(c: CursorModel) -> Decoded<i32> {
    if c.pos + 4 <= c.data.len() {
        Ok((i32_from_bits(le_u32_at(c.data, c.pos)), c.advanced(4)))
    } else {
        Err(DecodeErrorKind::Io)
    }
}

/// Mirror of [`Cursor::read_tag`].
pub open spec fn s_read_tag(c: CursorModel) -> Decoded<u32> {
    if c.pos + 4 <= c.data.len() {
        Ok((be_u32_at(c.data, c.pos), c.advanced(4)))
    } else {
        Err(DecodeErrorKind::Io)
    }
}

/// Mirror of [`Cursor::read_bytes`].
pub open spec fn s_read_bytes(c: CursorModel, n: int) -> Decoded<Seq<u8>> {
    if c.pos + n <= c.data.len() {
        Ok((c.data.subrange(c.pos, c.pos + n), c.advanced(n)))
    } else {
        Err(DecodeErrorKind::Io)
    }
}

/// Mirror of [`Cursor::skip_bytes`]: the consumed bytes are discarded.
pub open spec fn s_skip_bytes(c: CursorModel, n: int) -> Result<CursorModel, DecodeErrorKind> {
    if c.pos + n <= c.data.len() {
        Ok(c.advanced(n))
    } else {
        Err(DecodeErrorKind::Io)
    }
}

/// Mirror of [`Cursor::skip_subrecord`]: the declared length of the
/// unrecognized subrecord, then that many bytes, all discarded.
pub open spec fn s_skip_subrecord(c: CursorModel) -> Result<CursorModel, DecodeErrorKind> {
    match s_read_le_u16(c) {
        Err(k) => Err(k),
        Ok((size, c1)) => s_skip_bytes(c1, size as int),
    }
}

/// Mirror of [`Cursor::read_until_nul`]: the bytes strictly before the
/// first zero byte; the zero byte is consumed but not returned. Fails
/// when the buffer ends before a zero byte is found.
pub open spec fn s_read_until_nul(c: CursorModel) -> Decoded<Seq<u8>> {
    let k = first_nul(c.data, c.pos);
    if k >= c.data.len() {
        Err(DecodeErrorKind::Io)
    } else {
        Ok((c.data.subrange(c.pos, k), c.advanced(k + 1 - c.pos)))
    }
}

/// Mirror of [`Cursor::peek_tag`]: the big-endian tag `offset` bytes ahead
/// of the position. Peeking moves nothing and touches no counter.
pub open spec fn s_peek_tag(c: CursorModel, offset: int) -> Result<u32, DecodeErrorKind> {
    if c.pos + offset + 4 <= c.data.len() {
        Ok(be_u32_at(c.data, c.pos + offset))
    } else {
        Err(DecodeErrorKind::Io)
    }
}

/// The contract every decode operation meets: on success the mirror
/// produced exactly the returned value (by view) and the final cursor
/// model; on failure the mirror fails with the returned error's kind.
#[verifier::inline]
pub open spec fn decoded_as<T: View>(
    s: Decoded<T::V>,
    r: Result<T, DecodeError>,
    post: CursorModel,
) -> bool {
    match r {
        Ok(v) => s == Ok::<(T::V, CursorModel), DecodeErrorKind>((v@, post)),
        Err(e) => s == Err::<(T::V, CursorModel), DecodeErrorKind>(e@),
    }
}

/// The byte cursor. It owns the input buffer for the duration of one
/// decode; nested scopes are expressed through the three budget counters.
pub struct Cursor {
    data: Vec<u8>,
    pos: usize,
    group_left: i64,
    record_left: i64,
    subrecord_left: i64,
}

impl View for Cursor {
    type V = CursorModel;

    closed spec fn view(&self) -> CursorModel {
        CursorModel {
            data: self.data@,
            pos: self.pos as int,
            group_left: self.group_left as int,
            record_left: self.record_left as int,
            subrecord_left: self.subrecord_left as int,
        }
    }
}

impl Cursor {
    /// A fresh cursor over `data`, all budget counters at zero.
    pub fn new(data: Vec<u8>) -> (c: Cursor)
        requires
            data@.len() <= MAX_INPUT_LEN,
        ensures
            c@ == CursorModel::start(data@),
            c@.wf(),
    {
        Cursor { data, pos: 0, group_left: 0, record_left: 0, subrecord_left: 0 }
    }

    /// Bytes of the buffer not yet consumed.
    pub fn bytes_remaining(&self) -> (r: usize)
        requires
            self@.wf(),
        ensures
            r == self@.remaining(),
    {
        self.data.len() - self.pos
    }

    /// The current reading position.
    pub fn position(&self) -> (r: usize)
        ensures
            r == self@.pos,
    {
        self.pos
    }

    /// Assign the group budget from a group header's declared total
    /// length, which includes the 24-byte header itself.
    pub fn enter_group(&mut self, total_len: u32)
        requires
            old(self)@.wf(),
        ensures
            final(self)@.wf(),
            final(self)@ == old(self)@.entered_group(total_len),
    {
        self.group_left = total_len as i64 - 24;
    }

    /// Assign the record budget from a record header's declared payload
    /// length.
    pub fn enter_record(&mut self, len: u32)
        requires
            old(self)@.wf(),
        ensures
            final(self)@.wf(),
            final(self)@ == old(self)@.entered_record(len),
    {
        self.record_left = len as i64;
    }

    /// Assign the subrecord budget from a subrecord header's declared
    /// payload length.
    pub fn enter_subrecord(&mut self, len: u16)
        requires
            old(self)@.wf(),
        ensures
            final(self)@.wf(),
            final(self)@ == old(self)@.entered_subrecord(len),
    {
        self.subrecord_left = len as i64;
    }

    /// Bytes left of the group budget.
    pub fn group_remaining(&self) -> (r: i64)
        ensures
            r == self@.group_left,
    {
        self.group_left
    }

    /// Bytes left of the record budget.
    pub fn record_remaining(&self) -> (r: i64)
        ensures
            r == self@.record_left,
    {
        self.record_left
    }

    /// Bytes left of the subrecord budget.
    pub fn subrecord_remaining(&self) -> (r: i64)
        ensures
            r == self@.subrecord_left,
    {
        self.subrecord_left
    }

    /// Decrement all three budget counters by `n` consumed bytes.
    fn progress(&mut self, n: usize)
        requires
            old(self)@.wf(),
            n <= old(self)@.data.len(),
        ensures
            final(self)@ == (CursorModel {
                group_left: old(self)@.group_left - n,
                record_left: old(self)@.record_left - n,
                subrecord_left: old(self)@.subrecord_left - n,
                ..old(self)@
            }),
    {
        self.group_left = self.group_left - n as i64;
        self.record_left = self.record_left - n as i64;
        self.subrecord_left = self.subrecord_left - n as i64;
    }

    /// Read one byte.
    pub fn read_u8(&mut self) -> (r: Result<u8, DecodeError>)
        requires
            old(self)@.wf(),
        ensures
            final(self)@.wf(),
            decoded_as(s_read_u8(old(self)@), r, final(self)@),
    {
        if self.data.len() - self.pos >= 1 {
            let b = self.data[self.pos];
            self.progress(1);
            self.pos = self.pos + 1;
            Ok(b)
        } else {
            Err(DecodeError::Io)
        }
    }

    /// Read a little-endian `u16`.
    pub fn read_le_u16(&mut self) -> (r: Result<u16, DecodeError>)
        requires
            old(self)@.wf(),
        ensures
            final(self)@.wf(),
            decoded_as(s_read_le_u16(old(self)@), r, final(self)@),
    {
        if self.data.len() - self.pos >= 2 {
            let b0 = self.data[self.pos];
            let b1 = self.data[self.pos + 1];
            self.progress(2);
            self.pos = self.pos + 2;
            Ok(b0 as u16 + b1 as u16 * 0x100)
        } else {
            Err(DecodeError::Io)
        }
    }

    /// Read a little-endian `u32`.
    pub fn read_le_u32(&mut self) -> (r: Result<u32, DecodeError>)
        requires
            old(self)@.wf(),
        ensures
            final(self)@.wf(),
            decoded_as(s_read_le_u32(old(self)@), r, final(self)@),
    {
        if self.data.len() - self.pos >= 4 {
            let b0 = self.data[self.pos];
            let b1 = self.data[self.pos + 1];
            let b2 = self.data[self.pos + 2];
            let b3 = self.data[self.pos + 3];
            self.progress(4);
            self.pos = self.pos + 4;
            Ok(b0 as u32 + b1 as u32 * 0x100 + b2 as u32 * 0x1_0000 + b3 as u32 * 0x100_0000)
        } else {
            Err(DecodeError::Io)
        }
    }

    /// Read a little-endian `u64`.
    pub fn read_le_u64(&mut self) -> (r: Result<u64, DecodeError>)
        requires
            old(self)@.wf(),
        ensures
            final(self)@.wf(),
            decoded_as(s_read_le_u64(old(self)@), r, final(self)@),
    {
        if self.data.len() - self.pos >= 8 {
            let b0 = self.data[self.pos];
            let b1 = self.data[self.pos + 1];
            let b2 = self.data[self.pos + 2];
            let b3 = self.data[self.pos + 3];
            let b4 = self.data[self.pos + 4];
            let b5 = self.data[self.pos + 5];
            let b6 = self.data[self.pos + 6];
            let b7 = self.data[self.pos + 7];
            self.progress(8);
            self.pos = self.pos + 8;
            Ok(
                b0 as u64 + b1 as u64 * 0x100 + b2 as u64 * 0x1_0000 + b3 as u64 * 0x100_0000
                    + b4 as u64 * 0x1_0000_0000 + b5 as u64 * 0x100_0000_0000 + b6 as u64
                    * 0x1_0000_0000_0000 + b7 as u64 * 0x100_0000_0000_0000,
            )
        } else {
            Err(DecodeError::Io)
        }
    }

    /// Read a little-endian `i32`.
    pub fn read_le_i32(&mut self) -> (r: Result<i32, DecodeError>)
        requires
            old(self)@.wf(),
        ensures
            final(self)@.wf(),
            decoded_as(s_read_le_i32(old(self)@), r, final(self)@),
    {
        match self.read_le_u32() {
            Ok(bits) => {
                if bits < 0x8000_0000 {
                    Ok(bits as i32)
                } else {
                    Ok(((bits as i64) - 0x1_0000_0000i64) as i32)
                }
            },
            Err(e) => Err(e),
        }
    }

    /// Read a 4-byte big-endian type tag.
    pub fn read_tag(&mut self) -> (r: Result<u32, DecodeError>)
        requires
            old(self)@.wf(),
        ensures
            final(self)@.wf(),
            decoded_as(s_read_tag(old(self)@), r, final(self)@),
    {
        if self.data.len() - self.pos >= 4 {
            let b0 = self.data[self.pos];
            let b1 = self.data[self.pos + 1];
            let b2 = self.data[self.pos + 2];
            let b3 = self.data[self.pos + 3];
            self.progress(4);
            self.pos = self.pos + 4;
            Ok(b0 as u32 * 0x100_0000 + b1 as u32 * 0x1_0000 + b2 as u32 * 0x100 + b3 as u32)
        } else {
            Err(DecodeError::Io)
        }
    }

    /// Read `n` raw bytes.
    pub fn read_bytes(&mut self, n: usize) -> (r: Result<Vec<u8>, DecodeError>)
        requires
            old(self)@.wf(),
        ensures
            final(self)@.wf(),
            decoded_as(s_read_bytes(old(self)@, n as int), r, final(self)@),
    {
        if self.data.len() - self.pos >= n {
            let dlen = self.data.len();
            let mut out: Vec<u8> = Vec::new();
            let mut i: usize = 0;
            while i < n
                invariant
                    self@.wf(),
                    i <= n,
                    self@.data.len() == dlen,
                    self@.pos + n <= dlen,
                    out@ == self@.data.subrange(self@.pos as int, self@.pos + i),
                decreases n - i,
            {
                out.push(self.data[self.pos + i]);
                i = i + 1;
                proof {
                    assert(out@ =~= self@.data.subrange(self@.pos as int, self@.pos + i));
                }
            }
            self.progress(n);
            self.pos = self.pos + n;
            Ok(out)
        } else {
            Err(DecodeError::Io)
        }
    }

    /// Consume and discard `n` bytes.
    pub fn skip_bytes(&mut self, n: usize) -> (r: Result<(), DecodeError>)
        requires
            old(self)@.wf(),
        ensures
            final(self)@.wf(),
            match r {
                Ok(_) => s_skip_bytes(old(self)@, n as int) == Ok::<CursorModel, DecodeErrorKind>(
                    final(self)@,
                ),
                Err(e) => s_skip_bytes(old(self)@, n as int) matches Err(k) && k == e@,
            },
    {
        if self.data.len() - self.pos >= n {
            self.progress(n);
            self.pos = self.pos + n;
            Ok(())
        } else {
            Err(DecodeError::Io)
        }
    }

    /// Skip one unrecognized subrecord under the lenient policy: read
    /// its declared length and consume that many bytes, discarding them.
    /// The budget counters fall by the consumed bytes as for any read.
    pub fn skip_subrecord(&mut self) -> (r: Result<(), DecodeError>)
        requires
            old(self)@.wf(),
        ensures
            final(self)@.wf(),
            match r {
                Ok(_) => s_skip_subrecord(old(self)@) == Ok::<CursorModel, DecodeErrorKind>(
                    final(self)@,
                ),
                Err(e) => s_skip_subrecord(old(self)@) == Err::<CursorModel, DecodeErrorKind>(e@),
            },
    {
        match self.read_le_u16() {
            Ok(size) => self.skip_bytes(size as usize),
            Err(e) => Err(e),
        }
    }

    /// Read bytes up to, and consuming, the first zero byte; the zero byte
    /// is stripped from the result.
    pub fn read_until_nul(&mut self) -> (r: Result<Vec<u8>, DecodeError>)
        requires
            old(self)@.wf(),
        ensures
            final(self)@.wf(),
            decoded_as(s_read_until_nul(old(self)@), r, final(self)@),
    {
        let mut end: usize = self.pos;
        while end < self.data.len() && self.data[end] != 0
            invariant
                self@ == old(self)@,
                self@.wf(),
                self@.pos <= end <= self@.data.len(),
                first_nul(self@.data, self@.pos as int) == first_nul(self@.data, end as int),
            decreases self@.data.len() - end,
        {
            end = end + 1;
        }
        if end == self.data.len() {
            Err(DecodeError::Io)
        } else {
            let n = end - self.pos;
            let bytes = match self.read_bytes(n) {
                Ok(b) => b,
                Err(e) => {
                    return Err(e);
                },
            };
            match self.read_u8() {
                Ok(_) => Ok(bytes),
                Err(e) => Err(e),
            }
        }
    }

    /// Read the big-endian tag `offset` bytes ahead without moving the
    /// position or touching any budget counter.
    pub fn peek_tag(&self, offset: usize) -> (r: Result<u32, DecodeError>)
        requires
            self@.wf(),
        ensures
            match r {
                Ok(v) => s_peek_tag(self@, offset as int) == Ok::<u32, DecodeErrorKind>(v),
                Err(e) => s_peek_tag(self@, offset as int) matches Err(k) && k == e@,
            },
    {
        if self.data.len() - self.pos >= 4 && self.data.len() - self.pos - 4 >= offset {
            let base = self.pos + offset;
            let b0 = self.data[base];
            let b1 = self.data[base + 1];
            let b2 = self.data[base + 2];
            let b3 = self.data[base + 3];
            Ok(b0 as u32 * 0x100_0000 + b1 as u32 * 0x1_0000 + b2 as u32 * 0x100 + b3 as u32)
        } else {
            Err(DecodeError::Io)
        }
    }
}

} // verus!
