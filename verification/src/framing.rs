//! The line framing protocol: a fixed-capacity byte accumulator that turns an
//! unbounded byte stream into discrete, newline-delimited frames. Carriage
//! returns are stripped, a full buffer silently drops further bytes, and the
//! delimiter completes a frame without itself being stored.

use vstd::prelude::*;

verus! {

/// Capacity of the receive accumulator: a completed frame never exceeds this.
pub const FRAME_CAPACITY: usize = 32;

/// The byte that completes a frame.
pub open spec fn is_delimiter(b: u8) -> bool {
    b == 10u8
}

/// The byte that is stripped during accumulation without affecting content
/// or capacity.
pub open spec fn is_ignorable(b: u8) -> bool {
    b == 13u8
}

/// How one incoming byte transforms the accumulator's content: delimiters and
/// ignorable bytes leave it unchanged, anything else is appended while there
/// is room and dropped once the buffer is full.
pub open spec fn push_model(buf: Seq<u8>, b: u8) -> Seq<u8> {
    if is_delimiter(b) || is_ignorable(b) {
        buf
    } else if buf.len() < FRAME_CAPACITY {
        buf.push(b)
    } else {
        buf
    }
}

/// The accumulator's content after feeding a whole input stream, with the
/// buffer cleared each time a delimiter completes a frame.
pub open spec fn accum_model(input: Seq<u8>) -> Seq<u8>
    decreases input.len(),
{
    if input.len() == 0 {
        Seq::empty()
    } else if is_delimiter(input.last()) {
        Seq::empty()
    } else {
        push_model(accum_model(input.drop_last()), input.last())
    }
}

/// The sequence of completed frames produced by feeding a whole input stream:
/// each delimiter emits the accumulator's content at that point.
pub open spec fn frames_model(input: Seq<u8>) -> Seq<Seq<u8>>
    decreases input.len(),
{
    if input.len() == 0 {
        Seq::empty()
    } else if is_delimiter(input.last()) {
        frames_model(input.drop_last()).push(accum_model(input.drop_last()))
    } else {
        frames_model(input.drop_last())
    }
}

/// The input stream with every ignorable byte removed.
pub open spec fn strip_ignorable(input: Seq<u8>) -> Seq<u8>
    decreases input.len(),
{
    if input.len() == 0 {
        Seq::empty()
    } else if is_ignorable(input.last()) {
        strip_ignorable(input.drop_last())
    } else {
        strip_ignorable(input.drop_last()).push(input.last())
    }
}

/// A sequence cut down to the frame capacity: the first `FRAME_CAPACITY`
/// elements survive, the rest are dropped.
pub open spec fn clip(s: Seq<u8>) -> Seq<u8> {
    if s.len() <= FRAME_CAPACITY {
        s
    } else {
        s.subrange(0, FRAME_CAPACITY as int)
    }
}

/// Declares `heapless::Vec`, the fixed-capacity vector the accumulator is
/// built on, so that it can stand in signatures and fields; its contents are
/// spoken of through [`stored_bytes`].
#[verifier::external_type_specification]
#[verifier::external_body]
#[verifier::reject_recursive_types(T)]
pub struct ExHeaplessVec<T, const N: usize>(heapless::Vec<T, N>);

/// The bytes a fixed-capacity vector currently stores, oldest first.
pub uninterp spec fn stored_bytes(v: heapless::Vec<u8, 32>) -> Seq<u8>;

/// Relies on `heapless::Vec::new`: a freshly constructed vector is empty.
#[verifier::external_body]
fn hv_new() -> (v: heapless::Vec<u8, 32>)
    ensures
        stored_bytes(v) == Seq::<u8>::empty(),
{
    heapless::Vec::new()
}

/// Relies on `heapless::Vec::push`: appends the item while the length is
/// below the capacity (here 32), and hands the item back untouched once the
/// vector is full.
#[verifier::external_body]
fn hv_push(v: &mut heapless::Vec<u8, 32>, byte: u8) -> (r: Result<(), u8>)
    ensures
        r is Ok <==> stored_bytes(*old(v)).len() < 32,
        r is Ok ==> stored_bytes(*final(v)) == stored_bytes(*old(v)).push(byte),
        r is Err ==> stored_bytes(*final(v)) == stored_bytes(*old(v)) && r->Err_0 == byte,
{
    v.push(byte)
}

/// Relies on `heapless::Vec::clear`: removes every element.
#[verifier::external_body]
fn hv_clear(v: &mut heapless::Vec<u8, 32>)
    ensures
        stored_bytes(*final(v)) == Seq::<u8>::empty(),
{
    v.clear()
}

/// Relies on `heapless::Vec::is_full`: true exactly when the length has
/// reached the capacity (here 32).
#[verifier::external_body]
fn hv_is_full(v: &heapless::Vec<u8, 32>) -> (r: bool)
    ensures
        r == (stored_bytes(*v).len() == 32),
{
    v.is_full()
}

/// Relies on `heapless::Vec::as_slice`: the slice of all stored elements, in
/// order; copied out into an owned vector.
#[verifier::external_body]
fn hv_to_vec(v: &heapless::Vec<u8, 32>) -> (r: Vec<u8>)
    ensures
        r@ == stored_bytes(*v),
{
    v.as_slice().to_vec()
}

/// The receive accumulator: assembles inbound bytes into one in-progress
/// frame, at most [`FRAME_CAPACITY`] bytes long and never holding a
/// delimiter.
pub struct FrameBuffer {
    inner: heapless::Vec<u8, 32>,
}

impl View for FrameBuffer {
    type V = Seq<u8>;

    closed spec fn view(&self) -> Seq<u8> {
        stored_bytes(self.inner)
    }
}

impl FrameBuffer {
    /// The buffer's standing invariant: content within capacity and free of
    /// delimiter bytes.
    pub open spec fn wf(&self) -> bool {
        &&& self@.len() <= FRAME_CAPACITY
        &&& forall|i: int| 0 <= i < self@.len() ==> !is_delimiter(#[trigger] self@[i])
    }

    /// A new, empty accumulator.
    pub fn new() -> (b: FrameBuffer)
        ensures
            b@ == Seq::<u8>::empty(),
            b.wf(),
    {
        FrameBuffer { inner: hv_new() }
    }

    /// Feed one inbound byte. Returns true exactly when the byte is the
    /// delimiter, i.e. when the current content is a completed frame; the
    /// content itself is left untouched in that case, so the caller can read
    /// it before clearing. Otherwise the byte is stripped, appended, or
    /// dropped as [`push_model`] says.
    pub fn push(&mut self, byte: u8) -> (complete: bool)
        requires
            old(self).wf(),
        ensures
            final(self).wf(),
            final(self)@ == push_model(old(self)@, byte),
            complete == is_delimiter(byte),
    {
        if byte == 10u8 {
            true
        } else if byte == 13u8 {
            false
        } else {
            if !hv_is_full(&self.inner) {
                let _ = hv_push(&mut self.inner, byte);
            }
            false
        }
    }

    /// Reset the accumulator to empty; its capacity is unchanged.
    pub fn clear(&mut self)
        ensures
            final(self)@ == Seq::<u8>::empty(),
            final(self).wf(),
    {
        hv_clear(&mut self.inner);
    }

    /// A copy of the current in-progress frame content.
    pub fn contents(&self) -> (v: Vec<u8>)
        ensures
            v@ == self@,
    {
        hv_to_vec(&self.inner)
    }

    /// The number of bytes currently accumulated.
    pub fn len(&self) -> (n: usize)
        ensures
            n == self@.len(),
    {
        self.contents().len()
    }
}

/// The accumulator's content never exceeds the frame capacity, whatever the
/// input stream was.
pub proof fn lemma_accum_capacity(input: Seq<u8>)
    ensures
        accum_model(input).len() <= FRAME_CAPACITY,
    decreases input.len(),
{
    if input.len() == 0 {
    } else if is_delimiter(input.last()) {
    } else {
        lemma_accum_capacity(input.drop_last());
    }
}

/// Capacity bound: no completed frame ever exceeds the frame capacity.
pub proof fn lemma_frame_capacity(input: Seq<u8>, i: int)
    requires
        0 <= i < frames_model(input).len(),
    ensures
        frames_model(input)[i].len() <= FRAME_CAPACITY,
    decreases input.len(),
{
    if input.len() == 0 {
    } else if is_delimiter(input.last()) {
        if i < frames_model(input.drop_last()).len() {
            lemma_frame_capacity(input.drop_last(), i);
        } else {
            lemma_accum_capacity(input.drop_last());
        }
    } else {
        lemma_frame_capacity(input.drop_last(), i);
    }
}

/// A delimiter resets the accumulation state: it emits the content gathered
/// so far as one completed frame and leaves the accumulator empty, ready for
/// a fresh frame.
pub proof fn lemma_delimiter_resets(input: Seq<u8>, b: u8)
    requires
        is_delimiter(b),
    ensures
        accum_model(input.push(b)) == Seq::<u8>::empty(),
        frames_model(input.push(b)) == frames_model(input).push(accum_model(input)),
{
    assert(input.push(b).drop_last() =~= input);
}

/// Framing idempotence: feeding an input stream produces exactly the frames
/// (and leaves exactly the accumulation) that feeding it with all ignorable
/// bytes removed would.
pub proof fn lemma_framing_ignores_carriage_returns(input: Seq<u8>)
    ensures
        frames_model(strip_ignorable(input)) == frames_model(input),
        accum_model(strip_ignorable(input)) == accum_model(input),
    decreases input.len(),
{
    if input.len() == 0 {
    } else {
        let t = input.drop_last();
        let b = input.last();
        lemma_framing_ignores_carriage_returns(t);
        if !is_ignorable(b) {
            let s = strip_ignorable(t);
            assert(strip_ignorable(input) == s.push(b));
            assert(s.push(b).drop_last() =~= s);
            assert(s.push(b).last() == b);
        }
    }
}

/// Overflow keeps the prefix: while no delimiter has arrived, the
/// accumulator holds exactly the first `FRAME_CAPACITY` accepted
/// (non-ignorable) bytes of the line, in arrival order; later bytes of an
/// overlong line are dropped, never overwriting earlier ones.
pub proof fn lemma_overflow_keeps_prefix(input: Seq<u8>)
    requires
        forall|i: int| 0 <= i < input.len() ==> !is_delimiter(#[trigger] input[i]),
    ensures
        accum_model(input) == clip(strip_ignorable(input)),
    decreases input.len(),
{
    if input.len() == 0 {
    } else {
        let t = input.drop_last();
        let b = input.last();
        assert(forall|i: int| 0 <= i < t.len() ==> !is_delimiter(#[trigger] t[i]));
        lemma_overflow_keeps_prefix(t);
        assert(!is_delimiter(b));
        if !is_ignorable(b) {
            let s = strip_ignorable(t);
            assert(strip_ignorable(input) == s.push(b));
            if s.len() < FRAME_CAPACITY {
                assert(clip(s.push(b)) == s.push(b));
                assert(accum_model(input) == clip(s).push(b));
            } else {
                assert(clip(s).len() == FRAME_CAPACITY);
                assert(accum_model(input) == clip(s));
                assert(clip(s.push(b)) =~= clip(s));
            }
        }
    }
}

/// No frame exists before the first delimiter: a stream without delimiters
/// completes nothing, however long it is.
pub proof fn lemma_no_delimiter_no_frame(input: Seq<u8>)
    requires
        forall|i: int| 0 <= i < input.len() ==> !is_delimiter(#[trigger] input[i]),
    ensures
        frames_model(input).len() == 0,
    decreases input.len(),
{
    if input.len() > 0 {
        let t = input.drop_last();
        assert(forall|i: int| 0 <= i < t.len() ==> !is_delimiter(#[trigger] t[i]));
        lemma_no_delimiter_no_frame(t);
    }
}

/// A delimiter makes a clean break: the stream after it is framed exactly as
/// a fresh stream would be — later frames and the later accumulation are
/// independent of everything that came before the delimiter.
pub proof fn lemma_delimiter_isolates(s: Seq<u8>, u: Seq<u8>)
    ensures
        frames_model(s.push(10u8) + u) == frames_model(s.push(10u8)) + frames_model(u),
        accum_model(s.push(10u8) + u) == accum_model(u),
    decreases u.len(),
{
    if u.len() == 0 {
        assert(s.push(10u8) + u =~= s.push(10u8));
        lemma_delimiter_resets(s, 10u8);
        assert(frames_model(s.push(10u8)) + frames_model(u) =~= frames_model(s.push(10u8)));
    } else {
        let w = u.drop_last();
        let c = u.last();
        lemma_delimiter_isolates(s, w);
        assert((s.push(10u8) + u).drop_last() =~= s.push(10u8) + w);
        assert((s.push(10u8) + u).last() == c);
        assert(u.drop_last().push(c) =~= u);
        if is_delimiter(c) {
            assert(frames_model(s.push(10u8)) + frames_model(w).push(accum_model(w))
                =~= (frames_model(s.push(10u8)) + frames_model(w)).push(accum_model(w)));
        }
    }
}

/// A frame completed by a delimiter holds exactly the first `FRAME_CAPACITY`
/// accepted bytes of its line: the line's bytes with ignorable bytes
/// stripped, cut down to capacity.
pub proof fn lemma_completed_frame_is_clipped_line(line: Seq<u8>)
    requires
        forall|i: int| 0 <= i < line.len() ==> !is_delimiter(#[trigger] line[i]),
    ensures
        frames_model(line.push(10u8)) == frames_model(line).push(clip(strip_ignorable(line))),
{
    lemma_delimiter_resets(line, 10u8);
    lemma_overflow_keeps_prefix(line);
}

} // verus!
