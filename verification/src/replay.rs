//! The replay buffer that lets a one-shot console stream be read again.
//!
//! Everything that was pulled from the console is kept, in order, and a
//! cursor says where the next read begins. While the cursor stands inside
//! the buffer, the buffer answers a read; with the cursor at its end the
//! driver has to pull fresh bytes from the console and hand them in. The
//! buffer only grows, and a seek never goes past what has been buffered.

use vstd::prelude::*;

verus! {

/// Where a seek is to go.
#[derive(Debug, Clone, Copy, PartialEq, Eq, Structural)]
pub enum SeekFrom {
    /// To this offset from the start of the stream.
    Start(u64),
    /// To this offset from the end of the stream.
    End(i64),
    /// To this offset from the cursor.
    Current(i64),
}

/// Why a seek was refused. Each is a fault of the request, not of the
/// stream.
#[derive(Debug, Clone, Copy, PartialEq, Eq, Structural)]
pub enum SeekError {
    /// The end of a console stream is not known.
    EndUnsupported,
    /// The target lies before the start of the stream.
    BeforeStart,
    /// The target lies beyond what has been buffered.
    BeyondBuffered,
}

impl SeekError {
    /// The message of the refusal.
    pub open spec fn message_text(self) -> Seq<char> {
        match self {
            SeekError::EndUnsupported => "SeekFrom::End not supported"@,
            SeekError::BeforeStart => "Seek before start of stream"@,
            SeekError::BeyondBuffered => "Cannot seek beyond buffered data"@,
        }
    }

    /// The message of the refusal.
    pub fn message(self) -> (message: &'static str)
        ensures
            message@ == self.message_text(),
    {
        match self {
            SeekError::EndUnsupported => "SeekFrom::End not supported",
            SeekError::BeforeStart => "Seek before start of stream",
            SeekError::BeyondBuffered => "Cannot seek beyond buffered data",
        }
    }
}

/// The position that a seek leads to, in a stream with `buffered` bytes in
/// the buffer and the cursor at `cursor`, or the reason why it is refused.
pub open spec fn seek_target(cursor: nat, buffered: nat, pos: SeekFrom) -> Result<nat, SeekError> {
    match pos {
        SeekFrom::Start(offset) => if offset <= buffered {
            Ok(offset as nat)
        } else {
            Err(SeekError::BeyondBuffered)
        },
        SeekFrom::End(_) => Err(SeekError::EndUnsupported),
        SeekFrom::Current(offset) => if cursor + offset < 0 {
            Err(SeekError::BeforeStart)
        } else if cursor + offset > buffered {
            Err(SeekError::BeyondBuffered)
        } else {
            Ok((cursor + offset) as nat)
        },
    }
}

/// How many bytes a read of `capacity` bytes gets from the buffer.
pub open spec fn replay_len(cursor: nat, buffered: nat, capacity: nat) -> nat {
    if buffered - cursor < capacity {
        (buffered - cursor) as nat
    } else {
        capacity
    }
}

/// The bytes that a read of `capacity` bytes gets from the buffer `bytes`
/// with the cursor at `cursor`.
pub open spec fn replay(bytes: Seq<u8>, cursor: nat, capacity: nat) -> Seq<u8> {
    bytes.subrange(cursor as int, cursor as int + replay_len(cursor, bytes.len(), capacity))
}

/// The replay buffer of the console stream.
pub struct StdinReader {
    buffer: Vec<u8>,
    pos: u64,
}

impl StdinReader {
    #[verifier::type_invariant]
    spec fn cursor_within_buffer(self) -> bool {
        self.pos <= self.buffer@.len()
    }

    /// Everything pulled from the console so far.
    pub closed spec fn buffered(&self) -> Seq<u8> {
        self.buffer@
    }

    /// Where the next read begins.
    pub closed spec fn cursor(&self) -> nat {
        self.pos as nat
    }

    /// An empty buffer with the cursor at the start.
    pub fn new() -> (reader: StdinReader)
        ensures
            reader.buffered() == Seq::<u8>::empty(),
            reader.cursor() == 0,
    {
        StdinReader { buffer: Vec::new(), pos: 0 }
    }

    /// Where the next read begins.
    pub fn position(&self) -> (pos: u64)
        ensures
            pos == self.cursor(),
            self.cursor() <= self.buffered().len(),
    {
        proof {
            use_type_invariant(self);
        }
        self.pos
    }

    /// How many bytes have been pulled from the console so far.
    pub fn buffered_len(&self) -> (len: usize)
        ensures
            len == self.buffered().len(),
            self.cursor() <= self.buffered().len(),
    {
        proof {
            use_type_invariant(self);
        }
        self.buffer.len()
    }

    /// Reads from the buffer into `buf`.
    ///
    /// With the cursor inside the buffer it copies as many buffered bytes
    /// as `buf` takes to the front of `buf`, moves the cursor behind them
    /// and returns their number. With the cursor at the end of the buffer
    /// it returns `None` and changes nothing: the driver then pulls from the
    /// console and hands the bytes to `extend`.
    pub fn read(&mut self, buf: &mut [u8]) -> (served: Option<usize>)
        ensures
            final(self).buffered() == old(self).buffered(),
            final(self).cursor() <= final(self).buffered().len(),
            final(buf)@.len() == old(buf)@.len(),
            old(self).cursor() < old(self).buffered().len() ==> {
                &&& served == Some(
                    replay_len(
                        old(self).cursor(),
                        old(self).buffered().len(),
                        old(buf)@.len(),
                    ) as usize,
                )
                &&& final(self).cursor() == old(self).cursor() + served.unwrap()
                &&& final(buf)@ == replay(
                    old(self).buffered(),
                    old(self).cursor(),
                    old(buf)@.len(),
                ) + old(buf)@.skip(served.unwrap() as int)
            },
            old(self).cursor() >= old(self).buffered().len() ==> {
                &&& served is None
                &&& final(self).cursor() == old(self).cursor()
                &&& final(buf)@ == old(buf)@
            },
    {
        proof {
            use_type_invariant(&*self);
        }
        let buffer_len: usize = self.buffer.len();
        if self.pos >= buffer_len as u64 {
            return None;
        }
        let start: usize = self.pos as usize;
        let ahead: usize = buffer_len - start;
        let count: usize = if ahead < buf.len() {
            ahead
        } else {
            buf.len()
        };
        let mut i: usize = 0;
        while i < count
            invariant
                i <= count,
                count <= buf@.len(),
                start + count <= buffer_len,
                buffer_len == self.buffer@.len(),
                buf@.len() == old(buf)@.len(),
                self.buffer@ == old(self).buffer@,
                buf@ == self.buffer@.subrange(start as int, start + i) + old(buf)@.skip(i as int),
            decreases count - i,
        {
            buf[i] = self.buffer[start + i];
            i += 1;
        }
        self.pos = self.pos + count as u64;
        Some(count)
    }

    /// Takes in the bytes that the driver has just pulled from the console
    /// and delivered: they are added to the end of the buffer, and the
    /// cursor stands behind them.
    pub fn extend(&mut self, fresh: &[u8])
        ensures
            final(self).buffered() == old(self).buffered() + fresh@,
            final(self).cursor() == final(self).buffered().len(),
    {
        let mut taken = StdinReader::new();
        core::mem::swap(self, &mut taken);
        let mut buffer = taken.buffer;
        buffer.extend_from_slice(fresh);
        let pos: u64 = buffer.len() as u64;
        *self = StdinReader { buffer, pos };
    }

    /// Moves the cursor.
    ///
    /// Any position from the start to the end of the buffer can be reached,
    /// from the start of the stream or from the cursor. A target beyond the
    /// buffer or before the start is refused, and so is any seek from the
    /// end of the stream. A refused seek changes nothing.
    pub fn seek(&mut self, pos: SeekFrom) -> (reached: Result<u64, SeekError>)
        ensures
            final(self).buffered() == old(self).buffered(),
            final(self).cursor() <= final(self).buffered().len(),
            match seek_target(old(self).cursor(), old(self).buffered().len(), pos) {
                Ok(target) => reached == Ok::<u64, SeekError>(target as u64) && final(self).cursor()
                    == target,
                Err(refusal) => reached == Err::<u64, SeekError>(refusal) && final(self).cursor()
                    == old(self).cursor(),
            },
    {
        proof {
            use_type_invariant(&*self);
        }
        let buffer_len: u64 = self.buffer.len() as u64;
        let new_pos: u64 = match pos {
            SeekFrom::Start(offset) => offset,
            SeekFrom::End(_) => {
                return Err(SeekError::EndUnsupported);
            },
            SeekFrom::Current(offset) => {
                let target: i128 = self.pos as i128 + offset as i128;
                if target < 0 {
                    return Err(SeekError::BeforeStart);
                }
                if target > buffer_len as i128 {
                    return Err(SeekError::BeyondBuffered);
                }
                target as u64
            },
        };
        if new_pos > buffer_len {
            return Err(SeekError::BeyondBuffered);
        }
        self.pos = new_pos;
        Ok(new_pos)
    }
}

/// A seek to any position of the buffer succeeds, from the start and from
/// the cursor; a seek to a position beyond the buffer is refused.
pub proof fn lemma_seek_within_buffer(cursor: nat, buffered: nat, target: u64)
    requires
        cursor <= buffered,
        -0x8000_0000_0000_0000 <= target - cursor <= 0x7fff_ffff_ffff_ffff,
    ensures
        target <= buffered ==> seek_target(cursor, buffered, SeekFrom::Start(target)) == Ok::<
            nat,
            SeekError,
        >(target as nat),
        target <= buffered ==> seek_target(
            cursor,
            buffered,
            SeekFrom::Current((target - cursor) as i64),
        ) == Ok::<nat, SeekError>(target as nat),
        target > buffered ==> seek_target(cursor, buffered, SeekFrom::Start(target)) == Err::<
            nat,
            SeekError,
        >(SeekError::BeyondBuffered),
        target > buffered ==> seek_target(
            cursor,
            buffered,
            SeekFrom::Current((target - cursor) as i64),
        ) == Err::<nat, SeekError>(SeekError::BeyondBuffered),
{
}

/// Replay is exact: what two reads in a row get from the buffer is what one
/// read of their joint size gets from where the first began.
pub proof fn lemma_replay_in_pieces(bytes: Seq<u8>, cursor: nat, first: nat, second: nat)
    requires
        cursor <= bytes.len(),
    ensures
        replay(bytes, cursor, first) + replay(
            bytes,
            cursor + replay_len(cursor, bytes.len(), first),
            second,
        ) == replay(bytes, cursor, first + second),
{
}

/// What the buffer replays is what the console held. Where the buffer
/// holds the first `taken` bytes of `console`, a read gets the bytes of
/// `console` from the cursor on, however much has been buffered since they
/// were first read.
pub proof fn lemma_replay_matches_console(
    console: Seq<u8>,
    taken: nat,
    cursor: nat,
    capacity: nat,
)
    requires
        taken <= console.len(),
        cursor <= taken,
    ensures
        replay(console.take(taken as int), cursor, capacity) == console.subrange(
            cursor as int,
            cursor as int + replay_len(cursor, taken, capacity),
        ),
{
}

} // verus!
