use vstd::prelude::*;
use vstd::bytes::*;
use vstd::slice::*;

verus! {

/// Bytes of the length prefix that opens every frame.
pub const PREFIX_LEN: usize = 8;

/// Most payload bytes a writer hands to the stream at once.
pub const WRITE_CHUNK: usize = 4096;

/// Most payload bytes a reader asks of the stream at once.
pub const READ_CHUNK: usize = 134217728;

/// A frame on the wire: the payload's length as eight little-endian bytes,
/// then the payload.
pub open spec fn frame_of(payload: Seq<u8>) -> Seq<u8> {
    spec_u64_to_le_bytes(payload.len() as u64) + payload
}

/// The payload length that the first eight bytes of `stream` announce.
pub open spec fn declared_len(stream: Seq<u8>) -> nat
    recommends
        stream.len() >= 8,
{
    spec_u64_from_le_bytes(stream.subrange(0, 8)) as nat
}

/// `stream` is one whole frame and nothing more.
pub open spec fn is_frame(stream: Seq<u8>) -> bool {
    stream.len() >= 8 && stream.len() == 8 + declared_len(stream)
}

/// `stream` may still grow into a frame, or is one.
pub open spec fn within_frame(stream: Seq<u8>) -> bool {
    stream.len() < 8 || stream.len() <= 8 + declared_len(stream)
}

/// Bytes that a reader holding `stream` still has to see before it knows
/// more: the rest of the prefix, then the rest of the payload.
pub open spec fn missing(stream: Seq<u8>) -> int {
    if stream.len() < 8 {
        8 - stream.len()
    } else {
        8 + declared_len(stream) - stream.len()
    }
}

/// How many bytes of `more` a reader that has consumed `stream` takes: all of
/// them, or as many as complete the frame.
pub open spec fn accepted(stream: Seq<u8>, more: Seq<u8>) -> int {
    let all = stream + more;
    if all.len() < 8 {
        more.len() as int
    } else if all.len() <= 8 + declared_len(all) {
        more.len() as int
    } else {
        8 + declared_len(all) - stream.len()
    }
}

/// The payload of a frame.
pub open spec fn payload_of(stream: Seq<u8>) -> Seq<u8>
    recommends
        is_frame(stream),
{
    stream.subrange(8, stream.len() as int)
}

/// What a reader gets from a stream that begins with a frame: the payload and
/// the bytes after it. `None` when the stream ends before the frame does.
pub open spec fn parse_frame(stream: Seq<u8>) -> Option<(Seq<u8>, Seq<u8>)> {
    if stream.len() >= 8 && stream.len() >= 8 + declared_len(stream) {
        let end = 8 + declared_len(stream);
        Some((stream.subrange(8, end as int), stream.subrange(end as int, stream.len() as int)))
    } else {
        None
    }
}

/// A written frame reads back as its payload, and the read stops exactly
/// where the frame ends, whatever follows it on the stream.
pub proof fn lemma_frame_round_trip(payload: Seq<u8>, rest: Seq<u8>)
    requires
        payload.len() <= u64::MAX,
    ensures
        is_frame(frame_of(payload)),
        payload_of(frame_of(payload)) == payload,
        parse_frame(frame_of(payload) + rest) == Some((payload, rest)),
{
    lemma_auto_spec_u64_to_from_le_bytes();
    let prefix = spec_u64_to_le_bytes(payload.len() as u64);
    let frame = frame_of(payload);
    assert(frame.subrange(0, 8) =~= prefix);
    assert(frame.subrange(8, frame.len() as int) =~= payload);
    let stream = frame + rest;
    assert(stream.subrange(0, 8) =~= prefix);
    assert(stream.subrange(8, 8 + payload.len() as int) =~= payload);
    assert(stream.subrange(8 + payload.len() as int, stream.len() as int) =~= rest);
}

/// No proper prefix of a frame is itself a frame: a reader cannot stop early.
pub proof fn lemma_frame_prefix_incomplete(payload: Seq<u8>, k: int)
    requires
        payload.len() <= u64::MAX,
        0 <= k < frame_of(payload).len(),
    ensures
        !is_frame(frame_of(payload).subrange(0, k)),
        within_frame(frame_of(payload).subrange(0, k)),
{
    lemma_auto_spec_u64_to_from_le_bytes();
    let frame = frame_of(payload);
    let head = frame.subrange(0, k);
    if k >= 8 {
        assert(head.subrange(0, 8) =~= spec_u64_to_le_bytes(payload.len() as u64));
    }
}

/// A reader that is handed a frame in pieces, cut anywhere, takes every piece
/// whole; once it has the frame it takes nothing of what follows.
pub proof fn lemma_frame_is_taken_whole(payload: Seq<u8>, i: int, j: int, rest: Seq<u8>)
    requires
        payload.len() <= u64::MAX,
        0 <= i <= j <= frame_of(payload).len(),
    ensures
        accepted(frame_of(payload).subrange(0, i), frame_of(payload).subrange(i, j)) == j - i,
        accepted(frame_of(payload), rest) == 0,
{
    lemma_auto_spec_u64_to_from_le_bytes();
    let frame = frame_of(payload);
    let prefix = spec_u64_to_le_bytes(payload.len() as u64);
    assert(frame.subrange(0, i) + frame.subrange(i, j) =~= frame.subrange(0, j));
    if j >= 8 {
        assert(frame.subrange(0, j).subrange(0, 8) =~= prefix);
    }
    assert((frame + rest).subrange(0, 8) =~= prefix);
}

/// Reads one frame from bytes that arrive in pieces. The view is every byte
/// consumed so far.
pub struct FrameReader {
    head: Vec<u8>,
    payload: Vec<u8>,
}

impl View for FrameReader {
    type V = Seq<u8>;

    closed spec fn view(&self) -> Seq<u8> {
        self.head@ + self.payload@
    }
}

impl FrameReader {
    /// The prefix is filled before any payload is taken, and no more payload
    /// is held than the prefix announced.
    pub closed spec fn wf(&self) -> bool {
        &&& self.head.len() <= 8
        &&& self.head.len() < 8 ==> self.payload.len() == 0
        &&& self.head.len() == 8 ==> self.payload.len() <= spec_u64_from_le_bytes(self.head@)
    }

    proof fn lemma_view(&self)
        requires
            self.wf(),
        ensures
            within_frame(self@),
            self@.len() == self.head.len() + self.payload.len(),
            self.head.len() < 8 <==> self@.len() < 8,
            self@.len() >= 8 ==> declared_len(self@) == spec_u64_from_le_bytes(self.head@),
            self@.len() >= 8 ==> payload_of(self@) == self.payload@,
    {
        if self.head.len() == 8 {
            assert(self@.subrange(0, 8) =~= self.head@);
            assert(self@.subrange(8, self@.len() as int) =~= self.payload@);
        }
    }

    pub fn new() -> (reader: Self)
        ensures
            reader.wf(),
            reader@ == Seq::<u8>::empty(),
    {
        FrameReader { head: Vec::new(), payload: Vec::new() }
    }

    /// How many bytes to ask of the stream next: what is left of the prefix,
    /// then what is left of the payload, never more than `READ_CHUNK`. Zero
    /// once the frame is whole.
    pub fn wanted(&self) -> (n: usize)
        requires
            self.wf(),
        ensures
            within_frame(self@),
            n == if missing(self@) < READ_CHUNK { missing(self@) } else { READ_CHUNK as int },
            n == 0 <==> is_frame(self@),
    {
        proof {
            self.lemma_view();
        }
        if self.head.len() < PREFIX_LEN {
            PREFIX_LEN - self.head.len()
        } else {
            let declared: u64 = u64_from_le_bytes(self.head.as_slice());
            let left: u64 = declared - self.payload.len() as u64;
            if left < READ_CHUNK as u64 {
                left as usize
            } else {
                READ_CHUNK
            }
        }
    }

    /// Whether a whole frame has been consumed.
    pub fn is_complete(&self) -> (done: bool)
        requires
            self.wf(),
        ensures
            within_frame(self@),
            done == is_frame(self@),
    {
        self.wanted() == 0
    }

    /// The payload length that the prefix announced, once the prefix is in.
    pub fn declared(&self) -> (len: Option<u64>)
        requires
            self.wf(),
        ensures
            self@.len() < 8 ==> len is None,
            self@.len() >= 8 ==> len == Some(declared_len(self@) as u64),
    {
        proof {
            self.lemma_view();
        }
        if self.head.len() < PREFIX_LEN {
            None
        } else {
            Some(u64_from_le_bytes(self.head.as_slice()))
        }
    }

    /// Payload bytes consumed so far.
    pub fn received(&self) -> (n: usize)
        requires
            self.wf(),
        ensures
            n == if self@.len() < 8 { 0 } else { self@.len() - 8 },
    {
        proof {
            self.lemma_view();
        }
        self.payload.len()
    }

    /// Consumes bytes from the front of `bytes` until the frame is whole or
    /// `bytes` is used up, and says how many it took.
    pub fn accept(&mut self, bytes: &[u8]) -> (taken: usize)
        requires
            old(self).wf(),
        ensures
            final(self).wf(),
            taken == accepted(old(self)@, bytes@),
            taken <= bytes@.len(),
            final(self)@ == old(self)@ + bytes@.subrange(0, taken as int),
            within_frame(final(self)@),
            taken < bytes@.len() ==> is_frame(final(self)@),
    {
        proof {
            self.lemma_view();
        }
        let ghost before = self@;
        let mut taken: usize = 0;
        if self.head.len() < PREFIX_LEN {
            let need: usize = PREFIX_LEN - self.head.len();
            let n: usize = if bytes.len() < need { bytes.len() } else { need };
            self.head.extend_from_slice(slice_subrange(bytes, 0, n));
            taken = n;
        }
        assert(self@ =~= before + bytes@.subrange(0, taken as int));
        if self.head.len() == PREFIX_LEN {
            assert(self@.subrange(0, 8) =~= self.head@);
            assert((before + bytes@).subrange(0, 8) =~= self.head@);
            let declared: u64 = u64_from_le_bytes(self.head.as_slice());
            let left: u64 = declared - self.payload.len() as u64;
            let rest: usize = bytes.len() - taken;
            let n: usize = if (rest as u64) < left { rest } else { left as usize };
            self.payload.extend_from_slice(slice_subrange(bytes, taken, taken + n));
            assert(self@ =~= before + bytes@.subrange(0, taken + n));
            assert(self@.subrange(0, 8) =~= self.head@);
            taken = taken + n;
        }
        taken
    }

    /// The payload, once the frame is whole.
    pub fn into_payload(self) -> (payload: Option<Vec<u8>>)
        requires
            self.wf(),
        ensures
            match payload {
                Some(p) => is_frame(self@) && p@ == payload_of(self@),
                None => !is_frame(self@),
            },
    {
        proof {
            self.lemma_view();
        }
        if self.is_complete() {
            Some(self.payload)
        } else {
            None
        }
    }
}

/// Cuts a run of bytes into consecutive pieces of bounded size, for a stream
/// that is read or written piece by piece with progress reported in between.
pub struct Chunks {
    len: usize,
    done: usize,
    limit: usize,
}

impl Chunks {
    pub closed spec fn wf(&self) -> bool {
        self.done <= self.len && self.limit > 0
    }

    /// The length of the whole run.
    pub closed spec fn total(&self) -> nat {
        self.len as nat
    }

    /// How much of the run the pieces so far cover.
    pub closed spec fn covered(&self) -> nat {
        self.done as nat
    }

    /// The most that one piece holds.
    pub closed spec fn bound(&self) -> nat {
        self.limit as nat
    }

    /// Pieces for reading `len` bytes: at most `READ_CHUNK` each.
    pub fn for_reading(len: usize) -> (chunks: Self)
        ensures
            chunks.wf(),
            chunks.total() == len,
            chunks.covered() == 0,
            chunks.bound() == READ_CHUNK,
    {
        Chunks { len, done: 0, limit: READ_CHUNK }
    }

    /// Pieces for writing `len` bytes: at most `WRITE_CHUNK` each.
    pub fn for_writing(len: usize) -> (chunks: Self)
        ensures
            chunks.wf(),
            chunks.total() == len,
            chunks.covered() == 0,
            chunks.bound() == WRITE_CHUNK,
    {
        Chunks { len, done: 0, limit: WRITE_CHUNK }
    }

    /// Bytes covered so far: the position to report as progress.
    pub fn position(&self) -> (n: usize)
        ensures
            n == self.covered(),
    {
        self.done
    }

    /// The bounds of the next piece, or `None` when the run is covered. Each
    /// piece starts where the one before ended, is not empty, and is as long
    /// as the bound allows or ends the run.
    pub fn next(&mut self) -> (piece: Option<(usize, usize)>)
        requires
            old(self).wf(),
        ensures
            final(self).wf(),
            final(self).total() == old(self).total(),
            final(self).bound() == old(self).bound(),
            match piece {
                Some((start, end)) => {
                    &&& start == old(self).covered()
                    &&& end == final(self).covered()
                    &&& start < end <= old(self).total()
                    &&& end - start <= old(self).bound()
                    &&& end - start == old(self).bound() || end == old(self).total()
                },
                None => old(self).covered() == old(self).total() && final(self).covered() == old(
                    self,
                ).covered(),
            },
    {
        let left: usize = self.len - self.done;
        if left == 0 {
            None
        } else {
            let n: usize = if left < self.limit { left } else { self.limit };
            let start: usize = self.done;
            self.done = start + n;
            Some((start, start + n))
        }
    }
}

/// One thing to do to the stream while writing a frame.
pub enum WriteStep<'a> {
    /// Write the eight bytes of the length prefix.
    Prefix(Vec<u8>),
    /// Write this piece of the payload.
    Chunk(&'a [u8]),
    /// Flush the stream: every byte of the frame has been handed over.
    Flush,
}

impl<'a> WriteStep<'a> {
    /// The bytes that this step puts on the stream.
    pub open spec fn bytes(self) -> Seq<u8> {
        match self {
            WriteStep::Prefix(prefix) => prefix@,
            WriteStep::Chunk(chunk) => chunk@,
            WriteStep::Flush => Seq::empty(),
        }
    }
}

enum WriteStage {
    Prefix,
    Body,
    Done,
}

/// Writes one frame as a sequence of bounded steps.
pub struct FrameWriter<'a> {
    payload: &'a [u8],
    chunks: Chunks,
    stage: WriteStage,
}

impl<'a> FrameWriter<'a> {
    pub closed spec fn wf(&self) -> bool {
        &&& self.chunks.wf()
        &&& self.chunks.total() == self.payload@.len()
        &&& self.chunks.bound() == WRITE_CHUNK
        &&& self.stage is Prefix ==> self.chunks.covered() == 0
        &&& self.stage is Done ==> self.chunks.covered() == self.payload@.len()
    }

    /// The payload that the frame carries.
    pub closed spec fn payload(&self) -> Seq<u8> {
        self.payload@
    }

    /// How many bytes of the frame the steps so far have put on the stream.
    pub closed spec fn sent(&self) -> nat {
        match self.stage {
            WriteStage::Prefix => 0,
            _ => 8 + self.chunks.covered(),
        }
    }

    /// Whether the flush has been handed out, so that nothing is left to do.
    pub closed spec fn finished(&self) -> bool {
        self.stage is Done
    }

    /// The bytes that the steps so far have put on the stream: always the
    /// beginning of the frame.
    pub open spec fn emitted(&self) -> Seq<u8> {
        frame_of(self.payload()).subrange(0, self.sent() as int)
    }

    pub fn new(payload: &'a [u8]) -> (writer: Self)
        ensures
            writer.wf(),
            writer.payload() == payload@,
            writer.sent() == 0,
            !writer.finished(),
    {
        FrameWriter { payload, chunks: Chunks::for_writing(payload.len()), stage: WriteStage::Prefix }
    }

    /// Payload bytes handed out so far.
    pub fn written(&self) -> (n: usize)
        requires
            self.wf(),
        ensures
            n == if self.sent() < 8 { 0 } else { self.sent() - 8 },
    {
        self.chunks.position()
    }

    /// The next step, or `None` when the frame has been written and flushed.
    /// The steps are the prefix, the payload in order in pieces of at most
    /// `WRITE_CHUNK` bytes, then one flush.
    pub fn next(&mut self) -> (step: Option<WriteStep<'a>>)
        requires
            old(self).wf(),
        ensures
            final(self).wf(),
            final(self).payload() == old(self).payload(),
            final(self).sent() <= 8 + old(self).payload().len(),
            match step {
                Some(WriteStep::Prefix(prefix)) => {
                    &&& old(self).sent() == 0
                    &&& prefix@ == spec_u64_to_le_bytes(old(self).payload().len() as u64)
                    &&& final(self).sent() == 8
                    &&& !final(self).finished()
                },
                Some(WriteStep::Chunk(chunk)) => {
                    &&& 8 <= old(self).sent() < 8 + old(self).payload().len()
                    &&& 0 < chunk@.len() <= WRITE_CHUNK
                    &&& chunk@.len() == WRITE_CHUNK || final(self).sent() == 8 + old(self).payload().len()
                    &&& chunk@ == old(self).payload().subrange(
                        old(self).sent() - 8,
                        final(self).sent() - 8,
                    )
                    &&& final(self).sent() == old(self).sent() + chunk@.len()
                    &&& !final(self).finished()
                },
                Some(WriteStep::Flush) => {
                    &&& old(self).sent() == 8 + old(self).payload().len()
                    &&& !old(self).finished()
                    &&& final(self).sent() == old(self).sent()
                    &&& final(self).finished()
                },
                None => old(self).finished() && final(self).finished() && final(self).sent()
                    == old(self).sent(),
            },
            step matches Some(s) ==> final(self).emitted() == old(self).emitted() + s.bytes(),
            final(self).finished() ==> final(self).emitted() == frame_of(final(self).payload()),
    {
        proof {
            lemma_auto_spec_u64_to_from_le_bytes();
        }
        let ghost frame = frame_of(self.payload@);
        match self.stage {
            WriteStage::Prefix => {
                let prefix: Vec<u8> = u64_to_le_bytes(self.payload.len() as u64);
                self.stage = WriteStage::Body;
                assert(frame.subrange(0, 8) =~= frame.subrange(0, 0) + prefix@);
                Some(WriteStep::Prefix(prefix))
            },
            WriteStage::Body => match self.chunks.next() {
                Some((start, end)) => {
                    let chunk: &'a [u8] = slice_subrange(self.payload, start, end);
                    assert(frame.subrange(0, 8 + end) =~= frame.subrange(0, 8 + start) + chunk@);
                    Some(WriteStep::Chunk(chunk))
                },
                None => {
                    self.stage = WriteStage::Done;
                    assert(frame.subrange(0, frame.len() as int) =~= frame);
                    assert(frame =~= frame + Seq::<u8>::empty());
                    Some(WriteStep::Flush)
                },
            },
            WriteStage::Done => {
                assert(frame.subrange(0, frame.len() as int) =~= frame);
                None
            },
        }
    }
}

} // verus!
