//! The buffer in front of a network stream: what was read from the start of the stream,
//! up to 2 MiB, is kept, so that a decoder probing the stream can seek back into it.
use vstd::prelude::*;

verus! {

/// How many bytes from the start of a stream are kept (2 MiB).
pub const BUFFER_LIMIT: usize = 2097152;

/// The bytes kept from the start of a stream, the reading position, and how many bytes
/// read past the limit were not kept.
pub struct StreamBuffer {
    pub buffer: Vec<u8>,
    pub pos: u64,
    pub dropped_bytes: u64,
}

/// Where a seek goes: to a position, by an offset from the current one, or from the end.
#[derive(Clone, Copy, Debug, PartialEq, Eq, Structural)]
pub enum StreamSeek {
    Start(u64),
    Current(i64),
    End(i64),
}

/// Why a seek was refused.
#[derive(Clone, Copy, Debug, PartialEq, Eq, Structural)]
pub enum StreamSeekError {
    /// The length of a stream is not known.
    FromEnd,
    /// Bytes past the limit were not kept, so the kept bytes no longer match positions
    /// that can be returned to.
    Overflowed,
    /// The position lies past the kept bytes.
    Unbuffered,
}

/// A stream buffer as mathematical values.
pub struct StreamModel {
    pub buffer: Seq<u8>,
    pub pos: int,
    pub dropped: int,
}

impl StreamBuffer {
    pub open spec fn model(&self) -> StreamModel {
        StreamModel { buffer: self.buffer@, pos: self.pos as int, dropped: self.dropped_bytes as int }
    }
}

/// The buffer is within its limit; while nothing was dropped the position lies within the
/// kept bytes, and once something was, the buffer is full and the position is past all
/// bytes read.
pub open spec fn stream_ok(m: StreamModel) -> bool {
    &&& m.buffer.len() <= BUFFER_LIMIT
    &&& m.dropped >= 0
    &&& m.dropped == 0 ==> 0 <= m.pos <= m.buffer.len()
    &&& m.dropped > 0 ==> m.buffer.len() == BUFFER_LIMIT && m.pos == m.buffer.len() + m.dropped
}

/// How many of `n` bytes just read still fit after `len` kept bytes.
pub open spec fn kept_count(len: int, n: int) -> int {
    let space = if len < BUFFER_LIMIT {
        BUFFER_LIMIT - len
    } else {
        0
    };
    if n < space {
        n
    } else {
        space
    }
}

/// The buffer after `data` was read from the stream itself: what fits is kept, the rest
/// counted as dropped, and the position moves past all of it.
pub open spec fn recorded(m: StreamModel, data: Seq<u8>) -> StreamModel {
    let kept = kept_count(m.buffer.len() as int, data.len() as int);
    StreamModel {
        buffer: m.buffer + data.subrange(0, kept),
        pos: m.pos + data.len(),
        dropped: m.dropped + (data.len() - kept),
    }
}

/// A read of at most `max` bytes served from the kept bytes, and the buffer after it;
/// none when the position is not within them.
pub open spec fn buffered(m: StreamModel, max: int) -> (Option<Seq<u8>>, StreamModel) {
    if 0 <= m.pos < m.buffer.len() {
        let avail = m.buffer.len() - m.pos;
        let k = if max < avail {
            max
        } else {
            avail
        };
        (Some(m.buffer.subrange(m.pos, m.pos + k)), StreamModel { pos: m.pos + k, ..m })
    } else {
        (None, m)
    }
}

/// The position a seek aims at from position `pos`; none for a seek from the end. An
/// offset that goes below zero wraps around, as a cast to `u64` does.
pub open spec fn seek_target(pos: int, whence: StreamSeek) -> Option<int> {
    match whence {
        StreamSeek::Start(p) => Some(p as int),
        StreamSeek::Current(d) => Some(((pos + d) as i64) as u64 as int),
        StreamSeek::End(_) => None,
    }
}

/// The answer to a seek aiming at `target`, and the buffer after it: a position within
/// the kept bytes is taken unless bytes were dropped; the current position is kept; any
/// other is refused.
pub open spec fn sought(m: StreamModel, target: Option<int>) -> (Result<int, StreamSeekError>, StreamModel) {
    match target {
        None => (Err(StreamSeekError::FromEnd), m),
        Some(t) => if t <= m.buffer.len() {
            if m.dropped > 0 {
                (Err(StreamSeekError::Overflowed), m)
            } else {
                (Ok(t), StreamModel { pos: t, ..m })
            }
        } else if t == m.pos {
            (Ok(t), m)
        } else {
            (Err(StreamSeekError::Unbuffered), m)
        },
    }
}

impl StreamSeekError {
    /// The message of the error.
    pub fn message(&self) -> (s: String)
        ensures
            s@ == match *self {
                StreamSeekError::FromEnd => "Cannot seek from end"@,
                StreamSeekError::Overflowed => "Cannot seek: buffer overflowed"@,
                StreamSeekError::Unbuffered => "Cannot seek in unbuffered region"@,
            },
    {
        match self {
            StreamSeekError::FromEnd => crate::text::owned("Cannot seek from end"),
            StreamSeekError::Overflowed => crate::text::owned("Cannot seek: buffer overflowed"),
            StreamSeekError::Unbuffered => crate::text::owned("Cannot seek in unbuffered region"),
        }
    }
}

impl StreamBuffer {
    /// An empty buffer at the start of a stream.
    pub fn new() -> (s: StreamBuffer)
        ensures
            s.model() == (StreamModel { buffer: Seq::empty(), pos: 0, dropped: 0 }),
    {
        StreamBuffer { buffer: Vec::new(), pos: 0, dropped_bytes: 0 }
    }

    /// Serves a read of at most `max` bytes from the kept bytes, when the position lies
    /// within them; otherwise the caller reads from the stream itself.
    pub fn read_buffered(&mut self, max: usize) -> (r: Option<Vec<u8>>)
        ensures
            ({
                let (out, after) = buffered(old(self).model(), max as int);
                &&& final(self).model() == after
                &&& match r {
                    Some(v) => out == Some(v@),
                    None => out is None,
                }
            }),
    {
        let len = self.buffer.len();
        if self.pos >= len as u64 {
            return None;
        }
        let start = self.pos as usize;
        let avail = len - start;
        let k = if max < avail {
            max
        } else {
            avail
        };
        let mut out: Vec<u8> = Vec::new();
        let mut i: usize = 0;
        while i < k
            invariant
                i <= k,
                start + k <= len,
                len == self.buffer@.len(),
                out@ == self.buffer@.subrange(start as int, start + i),
            decreases k - i,
        {
            out.push(self.buffer[start + i]);
            proof {
                assert(out@ =~= self.buffer@.subrange(start as int, start + i + 1));
            }
            i = i + 1;
        }
        self.pos = self.pos + k as u64;
        Some(out)
    }

    /// Records `data`, just read from the stream itself: what fits under the limit is kept,
    /// the rest counted as dropped, and the position moves past all of it.
    pub fn record_read(&mut self, data: &[u8])
        requires
            old(self).pos + data@.len() <= u64::MAX,
            old(self).dropped_bytes + data@.len() <= u64::MAX,
        ensures
            final(self).model() == recorded(old(self).model(), data@),
    {
        let n = data.len();
        let len = self.buffer.len();
        let space: usize = if len < BUFFER_LIMIT {
            BUFFER_LIMIT - len
        } else {
            0
        };
        let kept = if n < space {
            n
        } else {
            space
        };
        let ghost before = self.buffer@;
        let mut i: usize = 0;
        while i < kept
            invariant
                i <= kept <= n,
                n == data@.len(),
                self.buffer@ == before + data@.subrange(0, i as int),
                self.pos == old(self).pos,
                self.dropped_bytes == old(self).dropped_bytes,
            decreases kept - i,
        {
            self.buffer.push(data[i]);
            proof {
                assert(self.buffer@ =~= before + data@.subrange(0, i + 1));
            }
            i = i + 1;
        }
        self.dropped_bytes = self.dropped_bytes + (n - kept) as u64;
        self.pos = self.pos + n as u64;
    }

    /// Moves the reading position: within the kept bytes while none were dropped, or to
    /// where it already is; a seek from the end, or to anywhere else, is refused.
    pub fn seek(&mut self, whence: StreamSeek) -> (r: Result<u64, StreamSeekError>)
        requires
            whence matches StreamSeek::Current(d) ==> old(self).pos <= i64::MAX && i64::MIN
                <= old(self).pos + d <= i64::MAX,
        ensures
            ({
                let (res, after) = sought(old(self).model(), seek_target(old(self).pos as int, whence));
                &&& final(self).model() == after
                &&& match r {
                    Ok(p) => res == Ok::<int, StreamSeekError>(p as int),
                    Err(e) => res == Err::<int, StreamSeekError>(e),
                }
            }),
    {
        let new_pos: u64 = match whence {
            StreamSeek::Start(p) => p,
            StreamSeek::Current(d) => {
                let sum: i64 = self.pos as i64 + d;
                sum as u64
            },
            StreamSeek::End(_) => {
                return Err(StreamSeekError::FromEnd);
            },
        };
        if new_pos <= self.buffer.len() as u64 {
            if self.dropped_bytes > 0 {
                return Err(StreamSeekError::Overflowed);
            }
            self.pos = new_pos;
            Ok(new_pos)
        } else if new_pos == self.pos {
            Ok(new_pos)
        } else {
            Err(StreamSeekError::Unbuffered)
        }
    }
}

/// What was read from the stream can be read again: while nothing was dropped, after
/// bytes that fit under the limit are read at the end of the kept bytes, a seek back to
/// where they started succeeds, and a read there gives back the same bytes.
pub proof fn law_read_back(m: StreamModel, data: Seq<u8>)
    requires
        stream_ok(m),
        m.dropped == 0,
        m.pos == m.buffer.len(),
        m.buffer.len() + data.len() <= BUFFER_LIMIT,
    ensures
        ({
            let (res, back) = sought(recorded(m, data), Some(m.pos));
            &&& res == Ok::<int, StreamSeekError>(m.pos)
            &&& buffered(back, data.len() as int).0 == (if data.len() == 0 {
                None
            } else {
                Some(data)
            })
        }),
{
    let after = recorded(m, data);
    assert(kept_count(m.buffer.len() as int, data.len() as int) == data.len());
    assert(data.subrange(0, data.len() as int) =~= data);
    assert(after.buffer =~= m.buffer + data);
    let back = sought(after, Some(m.pos)).1;
    if data.len() > 0 {
        assert(back.buffer.subrange(m.pos, m.pos + data.len()) =~= data);
    }
}

/// Once bytes were dropped, no seek moves the position.
pub proof fn law_dropped_pins_position(m: StreamModel, target: Option<int>)
    requires
        m.dropped > 0,
    ensures
        sought(m, target).1 == m,
        sought(m, target).0 matches Ok(p) ==> p == m.pos,
{
}

/// The three steps keep a buffer well formed; the stream itself is read only once the
/// kept bytes are read to the end.
pub proof fn law_steps_keep_stream_ok(m: StreamModel, data: Seq<u8>, max: int, target: Option<int>)
    requires
        stream_ok(m),
        max >= 0,
    ensures
        m.pos == m.buffer.len() + m.dropped ==> stream_ok(recorded(m, data)),
        stream_ok(buffered(m, max).1),
        target matches Some(t) && t >= 0 ==> stream_ok(sought(m, target).1),
{
    let kept = kept_count(m.buffer.len() as int, data.len() as int);
    let r = recorded(m, data);
    assert(r.buffer.len() == m.buffer.len() + kept);
}

} // verus!
