//! Byte sources and sinks, and the bookkeeping of readers and writers
//! that wrap others.

use vstd::prelude::*;

verus! {

/// A source of zero bytes without end.
pub struct ZeroReader;

impl ZeroReader {
    /// Fills `buf` with zeros and reports its length.
    pub fn fill(&mut self, buf: &mut [u8]) -> (r: usize)
        ensures
            r == old(buf)@.len(),
            final(buf)@.len() == old(buf)@.len(),
            forall|i: int| 0 <= i < final(buf)@.len() ==> final(buf)@[i] == 0,
    {
        let n = buf.len();
        let mut i: usize = 0;
        while i < n
            invariant
                i <= n,
                buf@.len() == n,
                forall|j: int| 0 <= j < i ==> buf@[j] == 0,
            decreases n - i,
        {
            buf[i] = 0;
            i += 1;
        }
        n
    }
}

/// A source that repeats a pattern without end.
pub struct RepReader {
    pattern: Vec<u8>,
    position: usize,
}

impl RepReader {
    pub closed spec fn pattern(&self) -> Seq<u8> {
        self.pattern@
    }

    /// Where in the pattern the next byte comes from.
    pub closed spec fn position(&self) -> int {
        self.position as int
    }

    /// The position lies inside the pattern, if there is one.
    #[verifier::type_invariant]
    pub closed spec fn wf(&self) -> bool {
        self.pattern@.len() == 0 || 0 <= self.position < self.pattern@.len()
    }

    pub fn new(pattern: &[u8]) -> (r: RepReader)
        ensures
            r.pattern() == pattern@,
            r.position() == 0,
    {
        let pattern = vstd::slice::slice_to_vec(pattern);
        let position: usize = 0;
        RepReader { pattern, position }
    }

    /// Fills `buf` with the pattern, going on where the last read
    /// stopped, and reports how many bytes were written: all of `buf`,
    /// or none if the pattern is empty.
    pub fn fill(&mut self, buf: &mut [u8]) -> (r: usize)
        ensures
            final(self).pattern() == old(self).pattern(),
            final(buf)@.len() == old(buf)@.len(),
            old(self).pattern().len() == 0 ==> r == 0 && final(buf)@ == old(buf)@ && final(self).position() == old(self).position(),
            old(self).pattern().len() > 0 ==> r == old(buf)@.len() && final(self).position() == round(old(self).position(), old(buf)@.len(), old(self).pattern().len()),
            old(self).pattern().len() > 0 ==> forall|i: int|
                0 <= i < final(buf)@.len() ==> final(buf)@[i] == old(self).pattern()[round(
                    old(self).position(),
                    i as nat,
                    old(self).pattern().len(),
                )],
    {
        proof {
            use_type_invariant(&*self);
        }
        let m = self.pattern.len();
        if m == 0 {
            return 0;
        }
        let n = buf.len();
        let mut i: usize = 0;
        while i < n
            invariant
                i <= n,
                buf@.len() == n,
                m == self.pattern@.len(),
                m > 0,
                self.pattern@ == old(self).pattern@,
                0 <= self.position < m,
                0 <= old(self).position < m,
                self.position as int == round(old(self).position as int, i as nat, m as nat),
                forall|j: int|
                    0 <= j < i ==> buf@[j] == self.pattern@[round(
                        old(self).position as int,
                        j as nat,
                        m as nat,
                    )],
            decreases n - i,
        {
            buf[i] = self.pattern[self.position];
            if self.position + 1 == m {
                self.position = 0;
            } else {
                self.position = self.position + 1;
            }
            i += 1;
        }
        n
    }
}

/// The place reached from `start` after `steps` steps round `places`
/// places.
pub open spec fn round(start: int, steps: nat, places: nat) -> int
    decreases steps,
{
    if steps == 0 {
        start
    } else {
        let before = round(start, (steps - 1) as nat, places);
        if before + 1 == places {
            0
        } else {
            before + 1
        }
    }
}

/// A walk round `places` places stays among them.
pub proof fn round_stays_inside(start: int, steps: nat, places: nat)
    requires
        0 <= start < places,
    ensures
        0 <= round(start, steps, places) < places,
    decreases steps,
{
    if steps > 0 {
        round_stays_inside(start, (steps - 1) as nat, places);
    }
}

/// The count of bytes after a wrapped reader or writer reported
/// `outcome`: so many bytes more where it succeeded and the sum fits in a
/// `usize`, the count as it was otherwise.
pub open spec fn counted(count: int, outcome: Result<usize, std::io::Error>) -> int {
    match outcome {
        Ok(n) => if count + n <= usize::MAX {
            count + n
        } else {
            count
        },
        Err(_) => count,
    }
}

/// What is left of a limit after a wrapped writer reported `outcome`: so
/// many bytes less where it succeeded, nothing where it reports more
/// than the limit, the limit as it was where it failed.
pub open spec fn left_after(limit: int, outcome: Result<usize, std::io::Error>) -> int {
    match outcome {
        Ok(n) => if n <= limit {
            limit - n
        } else {
            0
        },
        Err(_) => limit,
    }
}

/// A reader of some kind together with a count of the bytes it gave.
pub struct CntReader<R> {
    inner: R,
    bytes_read: usize,
}

impl<R> CntReader<R> {
    pub closed spec fn inner(&self) -> R {
        self.inner
    }

    pub closed spec fn count(&self) -> int {
        self.bytes_read as int
    }

    pub fn new(inner: R) -> (r: CntReader<R>)
        ensures
            r.inner() == inner,
            r.count() == 0,
    {
        let bytes_read: usize = 0;
        CntReader { inner, bytes_read }
    }

    pub fn bytes_read(&self) -> (r: usize)
        ensures
            r == self.count(),
    {
        self.bytes_read
    }

    /// The wrapped reader, to read from.
    pub fn inner_mut(&mut self) -> (r: &mut R)
        ensures
            *r == old(self).inner(),
            final(self).inner() == *final(r),
            final(self).count() == old(self).count(),
    {
        &mut self.inner
    }

    /// Counts `n` bytes that the wrapped reader gave. The count must
    /// fit in a `usize`.
    pub fn record(&mut self, n: usize)
        requires
            old(self).count() + n <= usize::MAX,
        ensures
            final(self).count() == old(self).count() + n,
            final(self).inner() == old(self).inner(),
    {
        self.bytes_read += n;
    }

    /// Takes in what a read of the wrapped reader came to: counts the
    /// bytes it gave, and hands the outcome on as it is.
    pub fn settle(&mut self, outcome: Result<usize, std::io::Error>) -> (r: Result<
        usize,
        std::io::Error,
    >)
        ensures
            r == outcome,
            final(self).count() == counted(old(self).count(), outcome),
            final(self).inner() == old(self).inner(),
    {
        match &outcome {
            Ok(n) => {
                if *n <= usize::MAX - self.bytes_read {
                    self.bytes_read = self.bytes_read + *n;
                }
            },
            Err(_) => {},
        }
        outcome
    }
}

/// A writer of some kind together with a count of the bytes it took.
pub struct CntWriter<W> {
    inner: W,
    bytes_written: usize,
}

impl<W> CntWriter<W> {
    pub closed spec fn inner(&self) -> W {
        self.inner
    }

    pub closed spec fn count(&self) -> int {
        self.bytes_written as int
    }

    pub fn new(inner: W) -> (r: CntWriter<W>)
        ensures
            r.inner() == inner,
            r.count() == 0,
    {
        let bytes_written: usize = 0;
        CntWriter { inner, bytes_written }
    }

    pub fn bytes_written(&self) -> (r: usize)
        ensures
            r == self.count(),
    {
        self.bytes_written
    }

    pub fn into_inner(self) -> (r: W)
        ensures
            r == self.inner(),
    {
        self.inner
    }

    /// The wrapped writer, to write to.
    pub fn inner_mut(&mut self) -> (r: &mut W)
        ensures
            *r == old(self).inner(),
            final(self).inner() == *final(r),
            final(self).count() == old(self).count(),
    {
        &mut self.inner
    }

    /// Counts `n` bytes that the wrapped writer took. The count must
    /// fit in a `usize`.
    pub fn record(&mut self, n: usize)
        requires
            old(self).count() + n <= usize::MAX,
        ensures
            final(self).count() == old(self).count() + n,
            final(self).inner() == old(self).inner(),
    {
        self.bytes_written += n;
    }

    /// Takes in what a write to the wrapped writer came to: counts the
    /// bytes it took, and hands the outcome on as it is.
    pub fn settle(&mut self, outcome: Result<usize, std::io::Error>) -> (r: Result<
        usize,
        std::io::Error,
    >)
        ensures
            r == outcome,
            final(self).count() == counted(old(self).count(), outcome),
            final(self).inner() == old(self).inner(),
    {
        match &outcome {
            Ok(n) => {
                if *n <= usize::MAX - self.bytes_written {
                    self.bytes_written = self.bytes_written + *n;
                }
            },
            Err(_) => {},
        }
        outcome
    }
}

/// A sink that takes everything and keeps nothing.
pub struct NullWriter;

impl NullWriter {
    /// Takes all of `buf`.
    pub fn swallow(&mut self, buf: &[u8]) -> (r: usize)
        ensures
            r == buf@.len(),
    {
        buf.len()
    }
}

/// The writer has taken as many bytes as it was allowed.
#[derive(Debug, Clone, Copy, PartialEq, Eq, Structural)]
pub struct WriteLimitReached;

impl WriteLimitReached {
    /// The message of the error.
    pub fn message(&self) -> (r: &'static str)
        ensures
            r@ == "write limit reached"@,
    {
        "write limit reached"
    }
}

/// A writer of some kind that passes on a limited number of bytes.
pub struct LimitedWriter<W> {
    inner: W,
    limit: usize,
}

impl<W> LimitedWriter<W> {
    pub closed spec fn inner(&self) -> W {
        self.inner
    }

    /// How many bytes may still pass.
    pub closed spec fn spec_limit(&self) -> int {
        self.limit as int
    }

    pub fn new(inner: W, limit: usize) -> (r: LimitedWriter<W>)
        ensures
            r.inner() == inner,
            r.spec_limit() == limit,
    {
        LimitedWriter { inner, limit }
    }

    pub fn limit(&self) -> (r: usize)
        ensures
            r == self.spec_limit(),
    {
        self.limit
    }

    /// How many of `len` offered bytes may be handed to the wrapped
    /// writer: as many as the limit leaves, or an error once nothing
    /// is left.
    pub fn allowance(&self, len: usize) -> (r: Result<usize, WriteLimitReached>)
        ensures
            self.spec_limit() == 0 ==> r is Err,
            self.spec_limit() > 0 ==> r == Ok::<usize, WriteLimitReached>(
                if len <= self.spec_limit() {
                    len
                } else {
                    self.spec_limit() as usize
                },
            ),
    {
        if self.limit == 0 {
            Err(WriteLimitReached)
        } else if len <= self.limit {
            Ok(len)
        } else {
            Ok(self.limit)
        }
    }

    /// The wrapped writer, to write to.
    pub fn inner_mut(&mut self) -> (r: &mut W)
        ensures
            *r == old(self).inner(),
            final(self).inner() == *final(r),
            final(self).spec_limit() == old(self).spec_limit(),
    {
        &mut self.inner
    }

    /// Takes `n` bytes, which the wrapped writer took, off the limit.
    pub fn record(&mut self, n: usize)
        requires
            n <= old(self).spec_limit(),
        ensures
            final(self).spec_limit() == old(self).spec_limit() - n,
            final(self).inner() == old(self).inner(),
    {
        self.limit -= n;
    }

    /// Takes in what a write to the wrapped writer came to: takes the
    /// bytes it took off the limit, and hands the outcome on as it is.
    pub fn settle(&mut self, outcome: Result<usize, std::io::Error>) -> (r: Result<
        usize,
        std::io::Error,
    >)
        ensures
            r == outcome,
            final(self).spec_limit() == left_after(old(self).spec_limit(), outcome),
            final(self).inner() == old(self).inner(),
    {
        match &outcome {
            Ok(n) => {
                if *n <= self.limit {
                    self.limit = self.limit - *n;
                } else {
                    self.limit = 0;
                }
            },
            Err(_) => {},
        }
        outcome
    }
}

/// Where to move the position of a buffer.
#[derive(Debug, Clone, Copy, PartialEq, Eq, Structural)]
pub enum SeekTarget {
    /// So many bytes from the start.
    Start(u64),
    /// So many bytes from the current position, back or forth.
    Current(i64),
    /// So many bytes from the end, back or forth.
    End(i64),
}

/// A seek would have ended before the start of the buffer.
#[derive(Debug, Clone, Copy, PartialEq, Eq, Structural)]
pub struct NegativeSeek;

impl NegativeSeek {
    /// The message of the error.
    pub fn message(&self) -> (r: &'static str)
        ensures
            r@ == "seek to negative position"@,
    {
        "seek to negative position"
    }
}

/// Bytes in memory with a read position.
pub struct MemBuffer {
    data: Vec<u8>,
    position: usize,
}

impl MemBuffer {
    pub closed spec fn view(&self) -> Seq<u8> {
        self.data@
    }

    pub closed spec fn spec_position(&self) -> int {
        self.position as int
    }

    /// The position never lies behind the end.
    #[verifier::type_invariant]
    pub closed spec fn wf(&self) -> bool {
        self.position <= self.data@.len()
    }


    /// The position that a seek aims at, before it is held to the
    /// buffer. A start beyond the largest signed 64-bit number counts
    /// as an aim before the start.
    pub open spec fn aim(&self, target: SeekTarget) -> int {
        match target {
            SeekTarget::Start(n) => if n <= i64::MAX {
                n as int
            } else {
                -1
            },
            SeekTarget::Current(n) => self.spec_position() + n,
            SeekTarget::End(n) => self@.len() + n,
        }
    }

    pub fn new(data: Vec<u8>) -> (r: MemBuffer)
        ensures
            r@ == data@,
            r.spec_position() == 0,
    {
        MemBuffer { data, position: 0 }
    }

    /// A buffer over the bytes of a text.
    pub fn from_text(s: &str) -> (r: MemBuffer)
        ensures
            r@ == vstd::utf8::encode_utf8(s@),
            r.spec_position() == 0,
    {
        MemBuffer::new(vstd::slice::slice_to_vec(s.as_bytes()))
    }

    /// The position; it never lies behind the end.
    pub fn position(&self) -> (r: usize)
        ensures
            r == self.spec_position(),
            r <= self@.len(),
    {
        proof {
            use_type_invariant(self);
        }
        self.position
    }

    /// The bytes from the position on.
    pub fn remaining(&self) -> (r: &[u8])
        ensures
            r@ == self@.subrange(self.spec_position(), self@.len() as int),
    {
        proof {
            use_type_invariant(self);
        }
        let whole = self.data.as_slice();
        let n = whole.len();
        &whole[self.position..n]
    }

    /// Moves the position `amount` bytes on, at most to the end.
    pub fn advance(&mut self, amount: usize)
        ensures
            final(self)@ == old(self)@,
            final(self).spec_position() == (if old(self).spec_position() + amount <= old(self)@.len() {
                old(self).spec_position() + amount
            } else {
                old(self)@.len() as int
            }),
    {
        proof {
            use_type_invariant(&*self);
        }
        let left = self.data.len() - self.position;
        if amount <= left {
            self.position = self.position + amount;
        } else {
            self.position = self.data.len();
        }
    }

    /// Copies bytes from the position on into `buf`, as many as fit or
    /// are left, and moves the position behind them.
    pub fn read_into(&mut self, buf: &mut [u8]) -> (r: usize)
        ensures
            final(self)@ == old(self)@,
            r == (if old(buf)@.len() <= old(self)@.len() - old(self).spec_position() {
                old(buf)@.len() as int
            } else {
                old(self)@.len() - old(self).spec_position()
            }),
            final(self).spec_position() == old(self).spec_position() + r,
            final(buf)@.len() == old(buf)@.len(),
            forall|i: int| 0 <= i < r ==> final(buf)@[i] == old(self)@[old(self).spec_position() + i],
            forall|i: int| r <= i < final(buf)@.len() ==> final(buf)@[i] == old(buf)@[i],
    {
        proof {
            use_type_invariant(&*self);
        }
        let left = self.data.len() - self.position;
        let n = buf.len();
        let to_read = if n <= left {
            n
        } else {
            left
        };
        let mut i: usize = 0;
        while i < to_read
            invariant
                i <= to_read,
                to_read <= n,
                buf@.len() == n,
                self.position + to_read <= self.data@.len(),
                self.data@.len() <= usize::MAX,
                self.position == old(self).position,
                self.data@ == old(self).data@,
                forall|j: int| 0 <= j < i ==> buf@[j] == self.data@[self.position + j],
                forall|j: int| i <= j < n ==> buf@[j] == old(buf)@[j],
            decreases to_read - i,
        {
            buf[i] = self.data[self.position + i];
            i += 1;
        }
        self.position = self.position + to_read;
        to_read
    }

    /// Moves the position to where `target` aims, held to the end of
    /// the buffer; an aim before the start is an error and moves
    /// nothing.
    pub fn seek_to(&mut self, target: SeekTarget) -> (r: Result<u64, NegativeSeek>)
        ensures
            final(self)@ == old(self)@,
            old(self).aim(target) < 0 ==> r is Err && final(self).spec_position() == old(self).spec_position(),
            old(self).aim(target) >= 0 ==> r == Ok::<u64, NegativeSeek>(
                final(self).spec_position() as u64,
            ) && final(self).spec_position() == (if old(self).aim(target) <= old(self)@.len() {
                old(self).aim(target)
            } else {
                old(self)@.len() as int
            }),
    {
        proof {
            use_type_invariant(&*self);
        }
        let len = self.data.len();
        let new_pos: i128 = match target {
            SeekTarget::Start(n) => {
                if n <= 0x7fff_ffff_ffff_ffff {
                    n as i128
                } else {
                    -1
                }
            },
            SeekTarget::Current(n) => self.position as i128 + n as i128,
            SeekTarget::End(n) => len as i128 + n as i128,
        };
        if new_pos < 0 {
            return Err(NegativeSeek);
        }
        if new_pos <= len as i128 {
            self.position = new_pos as usize;
        } else {
            self.position = len;
        }
        Ok(self.position as u64)
    }

    /// Moves the position back to the start.
    pub fn reset(&mut self)
        ensures
            final(self)@ == old(self)@,
            final(self).spec_position() == 0,
    {
        self.position = 0;
    }
}

/// `std::io::SeekFrom`, with its three variants.
#[verifier::external_type_specification]
pub struct ExSeekFrom(std::io::SeekFrom);

/// Calls `Read::read` of the wrapped reader. What comes back is the
/// reader's business; the buffer keeps its length.
#[verifier::external_body]
fn read_from<R: std::io::Read>(inner: &mut R, buf: &mut [u8]) -> (r: Result<usize, std::io::Error>)
    ensures
        final(buf)@.len() == old(buf)@.len(),
{
    inner.read(buf)
}

/// Calls `Write::write` of the wrapped writer. What comes back is the
/// writer's business.
#[verifier::external_body]
fn write_to<W: std::io::Write>(inner: &mut W, buf: &[u8]) -> (r: Result<usize, std::io::Error>) {
    inner.write(buf)
}

/// Calls `Write::flush` of the wrapped writer.
#[verifier::external_body]
fn flush_of<W: std::io::Write>(inner: &mut W) -> (r: Result<(), std::io::Error>) {
    inner.flush()
}

/// Calls `std::io::Error::new` with the kind `WriteZero` and the
/// message of [`WriteLimitReached`].
#[verifier::external_body]
fn write_zero_error() -> (r: std::io::Error) {
    std::io::Error::new(std::io::ErrorKind::WriteZero, "write limit reached")
}

/// Calls `std::io::Error::new` with the kind `InvalidInput` and the
/// message of [`NegativeSeek`].
#[verifier::external_body]
fn invalid_input_error() -> (r: std::io::Error) {
    std::io::Error::new(std::io::ErrorKind::InvalidInput, "seek to negative position")
}

/// The target that a position of the standard library asks for.
pub open spec fn target_of(pos: std::io::SeekFrom) -> SeekTarget {
    match pos {
        std::io::SeekFrom::Start(n) => SeekTarget::Start(n),
        std::io::SeekFrom::Current(n) => SeekTarget::Current(n),
        std::io::SeekFrom::End(n) => SeekTarget::End(n),
    }
}

/// The target that a position of the standard library asks for.
pub fn seek_target(pos: std::io::SeekFrom) -> (r: SeekTarget)
    ensures
        r == target_of(pos),
{
    match pos {
        std::io::SeekFrom::Start(n) => SeekTarget::Start(n),
        std::io::SeekFrom::Current(n) => SeekTarget::Current(n),
        std::io::SeekFrom::End(n) => SeekTarget::End(n),
    }
}

impl std::io::Read for ZeroReader {
    fn read(&mut self, buf: &mut [u8]) -> (r: Result<usize, std::io::Error>)
        ensures
            r is Ok,
            r->Ok_0 == old(buf)@.len(),
            final(buf)@.len() == old(buf)@.len(),
            forall|i: int| 0 <= i < final(buf)@.len() ==> final(buf)@[i] == 0,
    {
        Ok(self.fill(buf))
    }
}

impl std::io::Read for RepReader {
    fn read(&mut self, buf: &mut [u8]) -> (r: Result<usize, std::io::Error>)
        ensures
            r is Ok,
            final(self).pattern() == old(self).pattern(),
            final(buf)@.len() == old(buf)@.len(),
            old(self).pattern().len() == 0 ==> r->Ok_0 == 0 && final(buf)@ == old(buf)@,
            old(self).pattern().len() > 0 ==> r->Ok_0 == old(buf)@.len() && forall|i: int|
                0 <= i < final(buf)@.len() ==> final(buf)@[i] == old(self).pattern()[round(
                    old(self).position(),
                    i as nat,
                    old(self).pattern().len(),
                )],
    {
        Ok(self.fill(buf))
    }
}

impl<R: std::io::Read> std::io::Read for CntReader<R> {
    /// Reads from the wrapped reader and counts what it gave; the count
    /// stays where another byte would not fit in it.
    fn read(&mut self, buf: &mut [u8]) -> (r: Result<usize, std::io::Error>)
        ensures
            final(buf)@.len() == old(buf)@.len(),
            final(self).count() == counted(old(self).count(), r),
    {
        let outcome = read_from(&mut self.inner, buf);
        self.settle(outcome)
    }
}

impl<W: std::io::Write> std::io::Write for CntWriter<W> {
    /// Writes to the wrapped writer and counts what it took; the count
    /// stays where another byte would not fit in it.
    fn write(&mut self, buf: &[u8]) -> (r: Result<usize, std::io::Error>)
        ensures
            final(self).count() == counted(old(self).count(), r),
    {
        let outcome = write_to(&mut self.inner, buf);
        self.settle(outcome)
    }

    fn flush(&mut self) -> (r: Result<(), std::io::Error>)
        ensures
            final(self).count() == old(self).count(),
    {
        flush_of(&mut self.inner)
    }
}

impl std::io::Write for NullWriter {
    fn write(&mut self, buf: &[u8]) -> (r: Result<usize, std::io::Error>)
        ensures
            r is Ok,
            r->Ok_0 == buf@.len(),
    {
        Ok(self.swallow(buf))
    }

    fn flush(&mut self) -> (r: Result<(), std::io::Error>)
        ensures
            r is Ok,
    {
        Ok(())
    }
}

impl<W: std::io::Write> std::io::Write for LimitedWriter<W> {
    /// Hands the wrapped writer as much of `buf` as the limit leaves and
    /// takes what it took off the limit; fails once nothing is left.
    fn write(&mut self, buf: &[u8]) -> (r: Result<usize, std::io::Error>)
        ensures
            old(self).spec_limit() == 0 ==> r is Err && final(self).inner() == old(self).inner(),
            final(self).spec_limit() == left_after(old(self).spec_limit(), r),
    {
        match self.allowance(buf.len()) {
            Err(_) => Err(write_zero_error()),
            Ok(to_write) => {
                let outcome = write_to(&mut self.inner, &buf[0..to_write]);
                self.settle(outcome)
            },
        }
    }

    fn flush(&mut self) -> (r: Result<(), std::io::Error>)
        ensures
            final(self).spec_limit() == old(self).spec_limit(),
    {
        flush_of(&mut self.inner)
    }
}

impl std::io::Read for MemBuffer {
    /// Copies bytes from the position on into `buf`, as many as fit or
    /// are left, and moves the position behind them; it never fails.
    fn read(&mut self, buf: &mut [u8]) -> (r: Result<usize, std::io::Error>)
        ensures
            r is Ok,
            r->Ok_0 == (if old(buf)@.len() <= old(self)@.len() - old(self).spec_position() {
                old(buf)@.len() as int
            } else {
                old(self)@.len() - old(self).spec_position()
            }),
            final(self)@ == old(self)@,
            final(self).spec_position() == old(self).spec_position() + r->Ok_0,
            final(buf)@.len() == old(buf)@.len(),
            forall|i: int|
                0 <= i < r->Ok_0 ==> final(buf)@[i] == old(self)@[old(self).spec_position() + i],
            forall|i: int| r->Ok_0 <= i < final(buf)@.len() ==> final(buf)@[i] == old(buf)@[i],
    {
        Ok(self.read_into(buf))
    }
}

impl std::io::Seek for MemBuffer {
    /// Seeks as [`MemBuffer::seek_to`] does, whatever the position was
    /// asked in.
    fn seek(&mut self, pos: std::io::SeekFrom) -> (r: Result<u64, std::io::Error>)
        ensures
            final(self)@ == old(self)@,
            r is Ok <==> old(self).aim(target_of(pos)) >= 0,
            r is Ok ==> r->Ok_0 == final(self).spec_position() && final(self).spec_position() == (
            if old(self).aim(target_of(pos)) <= old(self)@.len() {
                old(self).aim(target_of(pos))
            } else {
                old(self)@.len() as int
            }),
            r is Err ==> final(self).spec_position() == old(self).spec_position(),
    {
        match self.seek_to(seek_target(pos)) {
            Ok(at) => Ok(at),
            Err(_) => Err(invalid_input_error()),
        }
    }
}

impl std::io::BufRead for MemBuffer {
    fn fill_buf(&mut self) -> (r: Result<&[u8], std::io::Error>)
        ensures
            r is Ok,
            r->Ok_0@ == old(self)@.subrange(old(self).spec_position(), old(self)@.len() as int),
            final(self)@ == old(self)@,
            final(self).spec_position() == old(self).spec_position(),
    {
        Ok(self.remaining())
    }

    fn consume(&mut self, amount: usize)
        ensures
            final(self)@ == old(self)@,
            final(self).spec_position() == (if old(self).spec_position() + amount <= old(self)@.len() {
                old(self).spec_position() + amount
            } else {
                old(self)@.len() as int
            }),
    {
        self.advance(amount)
    }
}

impl std::str::FromStr for MemBuffer {
    type Err = std::io::Error;

    fn from_str(s: &str) -> (r: Result<MemBuffer, std::io::Error>)
        ensures
            r is Ok,
            r->Ok_0@ == vstd::utf8::encode_utf8(s@),
            r->Ok_0.spec_position() == 0,
    {
        Ok(MemBuffer::from_text(s))
    }
}

} // verus!
