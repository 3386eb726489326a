//! Frame decoder: cuts a byte stream that arrives in arbitrary pieces into
//! the payloads of its server-sent-event records.
//!
//! A record is a run of lines closed by a blank line. Lines end in a line
//! feed, optionally preceded by a carriage return. The payload of a record is
//! what its `data:` lines carry, joined by line feeds; every other line (an
//! event-type line, a comment) is passed over, and a record without a `data:`
//! line yields no frame.
use vstd::prelude::*;
use crate::error::StreamFailure;

verus! {

pub const LF: u8 = 10;

pub const CR: u8 = 13;

pub const SPACE: u8 = 32;

/// Whether the byte at `e` is the line feed of a blank line, which closes a
/// record.
pub open spec fn is_record_end(buf: Seq<u8>, e: int) -> bool {
    &&& 0 <= e < buf.len()
    &&& buf[e] == LF
    &&& (e == 0 || buf[e - 1] == LF || (buf[e - 1] == CR && (e == 1 || buf[e - 2] == LF)))
}

/// The first position at or after `from` that closes a record, or the length
/// of `buf` where there is none.
pub open spec fn first_record_end(buf: Seq<u8>, from: int) -> int
    decreases buf.len() - from,
{
    if from < 0 || from >= buf.len() {
        buf.len() as int
    } else if is_record_end(buf, from) {
        from
    } else {
        first_record_end(buf, from + 1)
    }
}

/// The position of the first line feed at or after `from`, or the length of
/// `s` where there is none.
pub open spec fn line_end(s: Seq<u8>, from: int) -> int
    decreases s.len() - from,
{
    if from < 0 || from >= s.len() {
        s.len() as int
    } else if s[from] == LF {
        from
    } else {
        line_end(s, from + 1)
    }
}

/// A line without its trailing carriage return.
pub open spec fn strip_cr(line: Seq<u8>) -> Seq<u8> {
    if line.len() > 0 && line.last() == CR {
        line.drop_last()
    } else {
        line
    }
}

/// Whether a line begins with `data:`.
pub open spec fn is_data_line(line: Seq<u8>) -> bool {
    &&& line.len() >= 5
    &&& line[0] == 100u8
    &&& line[1] == 97u8
    &&& line[2] == 116u8
    &&& line[3] == 97u8
    &&& line[4] == 58u8
}

/// What a line contributes to the payload: the text after `data:`, less one
/// leading space; nothing for any other line.
pub open spec fn data_value(line: Seq<u8>) -> Option<Seq<u8>> {
    if is_data_line(line) {
        if line.len() > 5 && line[5] == SPACE {
            Some(line.subrange(6, line.len() as int))
        } else {
            Some(line.subrange(5, line.len() as int))
        }
    } else {
        None
    }
}

/// The payload gathered so far, extended by what one more line contributes.
pub open spec fn join(acc: Option<Seq<u8>>, value: Option<Seq<u8>>) -> Option<Seq<u8>> {
    match (acc, value) {
        (_, None) => acc,
        (None, Some(v)) => Some(v),
        (Some(a), Some(v)) => Some(a + seq![LF] + v),
    }
}

/// The payload of the lines of `rec` from position `from` on, given the
/// payload `acc` of the lines before.
pub open spec fn payload_from(rec: Seq<u8>, from: int, acc: Option<Seq<u8>>) -> Option<Seq<u8>>
    decreases rec.len() - from,
{
    if from < 0 || from >= rec.len() {
        acc
    } else {
        let e = line_end(rec, from);
        let gathered = join(acc, data_value(strip_cr(rec.subrange(from, e))));
        if from <= e < rec.len() {
            payload_from(rec, e + 1, gathered)
        } else {
            gathered
        }
    }
}

/// The payload of a record: `None` where it has no `data:` line.
pub open spec fn payload(rec: Seq<u8>) -> Option<Seq<u8>> {
    payload_from(rec, 0, None)
}

/// What decoding pending bytes gives: the first frame, if a whole one is
/// there, and the bytes that stay pending.
pub struct Decoded {
    pub frame: Option<Seq<u8>>,
    pub rest: Seq<u8>,
}

/// Decodes the first frame of `buf`. Records without payload are dropped on
/// the way; bytes after the last complete record stay pending.
pub open spec fn decode(buf: Seq<u8>) -> Decoded
    decreases buf.len(),
{
    let e = first_record_end(buf, 0);
    if 0 <= e < buf.len() {
        let rest = buf.subrange(e + 1, buf.len() as int);
        match payload(buf.subrange(0, e + 1)) {
            Some(p) => Decoded { frame: Some(p), rest },
            None => decode(rest),
        }
    } else {
        Decoded { frame: None, rest: buf }
    }
}

/// The view of an optional byte vector.
pub open spec fn opt_bytes(v: Option<Vec<u8>>) -> Option<Seq<u8>> {
    match v {
        Some(b) => Some(b@),
        None => None,
    }
}

/// Appends `src[lo..hi]` to `out`.
fn append_range(out: &mut Vec<u8>, src: &[u8], lo: usize, hi: usize)
    requires
        lo <= hi <= src@.len(),
    ensures
        final(out)@ == old(out)@ + src@.subrange(lo as int, hi as int),
{
    let mut k: usize = lo;
    while k < hi
        invariant
            lo <= k <= hi <= src@.len(),
            out@ == old(out)@ + src@.subrange(lo as int, k as int),
        decreases hi - k,
    {
        out.push(src[k]);
        k += 1;
        assert(out@ =~= old(out)@ + src@.subrange(lo as int, k as int));
    }
    assert(out@ =~= old(out)@ + src@.subrange(lo as int, hi as int));
}

/// Finds the line feed that closes the first record of `buf`.
fn find_record_end(buf: &Vec<u8>) -> (e: usize)
    ensures
        e == first_record_end(buf@, 0),
        e <= buf@.len(),
{
    let mut i: usize = 0;
    while i < buf.len()
        invariant
            i <= buf@.len(),
            first_record_end(buf@, 0) == first_record_end(buf@, i as int),
        decreases buf@.len() - i,
    {
        if buf[i] == LF && (i == 0 || buf[i - 1] == LF || (buf[i - 1] == CR && (i == 1 || buf[i - 2]
            == LF))) {
            return i;
        }
        i += 1;
    }
    i
}

/// Finds the end of the line that starts at `from`.
fn find_line_end(rec: &Vec<u8>, from: usize) -> (e: usize)
    requires
        from <= rec@.len(),
    ensures
        e == line_end(rec@, from as int),
        from <= e <= rec@.len(),
{
    let mut e: usize = from;
    while e < rec.len() && rec[e] != LF
        invariant
            from <= e <= rec@.len(),
            line_end(rec@, from as int) == line_end(rec@, e as int),
        decreases rec@.len() - e,
    {
        e += 1;
    }
    e
}

/// Gathers the payload of a record.
pub fn extract_payload(rec: &Vec<u8>) -> (r: Option<Vec<u8>>)
    ensures
        opt_bytes(r) == payload(rec@),
{
    let mut out: Vec<u8> = Vec::new();
    let mut seen: bool = false;
    let mut pos: usize = 0;
    while pos < rec.len()
        invariant
            pos <= rec@.len(),
            !seen ==> out@.len() == 0,
            payload(rec@) == payload_from(
                rec@,
                pos as int,
                if seen {
                    Some(out@)
                } else {
                    None
                },
            ),
        decreases rec@.len() - pos,
    {
        let e = find_line_end(rec, pos);
        let hi: usize = if e > pos && rec[e - 1] == CR {
            e - 1
        } else {
            e
        };
        let ghost line = strip_cr(rec@.subrange(pos as int, e as int));
        assert(line =~= rec@.subrange(pos as int, hi as int));
        let ghost before = if seen {
            Some(out@)
        } else {
            None
        };
        if hi - pos >= 5 && rec[pos] == 100u8 && rec[pos + 1] == 97u8 && rec[pos + 2] == 116u8
            && rec[pos + 3] == 97u8 && rec[pos + 4] == 58u8 {
            let start: usize = if hi - pos > 5 && rec[pos + 5] == SPACE {
                pos + 6
            } else {
                pos + 5
            };
            assert(data_value(line) == Some(rec@.subrange(start as int, hi as int))) by {
                assert(line.subrange(start - pos, line.len() as int) =~= rec@.subrange(
                    start as int,
                    hi as int,
                ));
            }
            if seen {
                out.push(LF);
            }
            append_range(&mut out, rec.as_slice(), start, hi);
            seen = true;
            assert(Some(out@) == join(before, data_value(line))) by {
                if before is Some {
                    assert(out@ =~= before->0 + seq![LF] + rec@.subrange(start as int, hi as int));
                } else {
                    assert(out@ =~= rec@.subrange(start as int, hi as int));
                }
            }
        } else {
            assert(data_value(line) is None);
        }
        if e < rec.len() {
            pos = e + 1;
        } else {
            pos = e;
        }
    }
    if seen {
        Some(out)
    } else {
        None
    }
}

/// Buffer of the bytes that have arrived and belong to no frame handed out
/// yet.
pub struct FrameDecoder {
    buffer: Vec<u8>,
}

impl View for FrameDecoder {
    type V = Seq<u8>;

    /// The pending bytes, in arrival order.
    closed spec fn view(&self) -> Seq<u8> {
        self.buffer@
    }
}

impl FrameDecoder {
    /// A decoder with nothing pending.
    pub fn new() -> (r: FrameDecoder)
        ensures
            r@ == Seq::<u8>::empty(),
    {
        FrameDecoder { buffer: Vec::new() }
    }

    /// Takes in the bytes of one read of the transport, however they were
    /// cut.
    pub fn feed(&mut self, chunk: &[u8])
        ensures
            final(self)@ == old(self)@ + chunk@,
    {
        append_range(&mut self.buffer, chunk, 0, chunk.len());
        assert(chunk@.subrange(0, chunk@.len() as int) =~= chunk@);
    }

    /// The number of pending bytes.
    pub fn pending(&self) -> (n: usize)
        ensures
            n == self@.len(),
    {
        self.buffer.len()
    }

    /// Hands out the next frame's payload, or `None` while no whole frame is
    /// pending. The bytes of the frame, and of the records without payload
    /// before it, leave the buffer.
    pub fn next_frame(&mut self) -> (r: Option<Vec<u8>>)
        ensures
            opt_bytes(r) == decode(old(self)@).frame,
            final(self)@ == decode(old(self)@).rest,
    {
        loop
            invariant
                decode(old(self)@) == decode(self@),
            decreases self@.len(),
        {
            let e = find_record_end(&self.buffer);
            if e >= self.buffer.len() {
                return None;
            }
            let mut record = self.buffer.split_off(e + 1);
            core::mem::swap(&mut self.buffer, &mut record);
            let found = extract_payload(&record);
            if found.is_some() {
                return found;
            }
        }
    }

    /// Called when the transport signals the end of the stream, after the
    /// whole frames were taken out: bytes that are still pending are the
    /// beginning of a frame that never ended, and the stream is truncated.
    pub fn finish(&self) -> (r: Result<(), StreamFailure>)
        ensures
            r is Ok <==> self@.len() == 0,
            r is Err ==> r->Err_0@ == crate::error::StreamFailureView::Truncated,
    {
        if self.buffer.len() == 0 {
            Ok(())
        } else {
            Err(StreamFailure::Truncated)
        }
    }
}

/// While no record is complete, nothing is handed out and nothing is lost.
pub proof fn law_incomplete_record_stays_pending(buf: Seq<u8>)
    requires
        forall|e: int| 0 <= e < buf.len() ==> !is_record_end(buf, e),
    ensures
        decode(buf).frame is None,
        decode(buf).rest == buf,
{
    lemma_no_record_end(buf, 0);
}

proof fn lemma_scan_found_none(buf: Seq<u8>, from: int)
    requires
        0 <= from <= buf.len(),
    ensures
        from <= first_record_end(buf, from) <= buf.len(),
        first_record_end(buf, from) == buf.len() ==> forall|e: int|
            from <= e < buf.len() ==> !is_record_end(buf, e),
    decreases buf.len() - from,
{
    if from < buf.len() {
        lemma_scan_found_none(buf, from + 1);
    }
}

/// When no frame comes out, what stays pending holds no complete record: it
/// is empty, or the beginning of a record that has not ended.
pub proof fn law_pending_is_an_incomplete_record(buf: Seq<u8>)
    requires
        decode(buf).frame is None,
    ensures
        forall|e: int| 0 <= e < decode(buf).rest.len() ==> !is_record_end(decode(buf).rest, e),
    decreases buf.len(),
{
    let e = first_record_end(buf, 0);
    if 0 <= e < buf.len() {
        law_pending_is_an_incomplete_record(buf.subrange(e + 1, buf.len() as int));
    } else {
        lemma_scan_found_none(buf, 0);
    }
}

proof fn lemma_record_end_stays(buf: Seq<u8>, more: Seq<u8>, from: int)
    requires
        0 <= from,
        first_record_end(buf, from) < buf.len(),
    ensures
        first_record_end(buf + more, from) == first_record_end(buf, from),
    decreases buf.len() - from,
{
    if from < buf.len() {
        let whole = buf + more;
        assert(whole[from] == buf[from]);
        if from >= 1 {
            assert(whole[from - 1] == buf[from - 1]);
        }
        if from >= 2 {
            assert(whole[from - 2] == buf[from - 2]);
        }
        if !is_record_end(buf, from) {
            lemma_record_end_stays(buf, more, from + 1);
        }
    }
}

/// The frames do not depend on how the transport cut the bytes: a frame
/// that is whole comes out the same whatever follows it, and what follows
/// waits behind it; while no frame is whole, more bytes are decoded together
/// with those that wait.
pub proof fn law_frames_do_not_depend_on_the_cut(buf: Seq<u8>, more: Seq<u8>)
    ensures
        decode(buf).frame is Some ==> decode(buf + more) == (Decoded {
            frame: decode(buf).frame,
            rest: decode(buf).rest + more,
        }),
        decode(buf).frame is None ==> decode(buf + more) == decode(decode(buf).rest + more),
    decreases buf.len(),
{
    let e = first_record_end(buf, 0);
    if 0 <= e < buf.len() {
        let whole = buf + more;
        lemma_record_end_stays(buf, more, 0);
        assert(whole.subrange(0, e + 1) =~= buf.subrange(0, e + 1));
        assert(whole.subrange(e + 1, whole.len() as int) =~= buf.subrange(e + 1, buf.len() as int)
            + more);
        if payload(buf.subrange(0, e + 1)) is None {
            law_frames_do_not_depend_on_the_cut(buf.subrange(e + 1, buf.len() as int), more);
        }
    }
}

proof fn lemma_no_record_end(buf: Seq<u8>, from: int)
    requires
        0 <= from,
        forall|e: int| from <= e < buf.len() ==> !is_record_end(buf, e),
    ensures
        first_record_end(buf, from) == buf.len(),
    decreases buf.len() - from,
{
    if from < buf.len() {
        lemma_no_record_end(buf, from + 1);
    }
}

} // verus!
