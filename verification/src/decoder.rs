//! Incremental decoder for the inference server's streamed reply.
//!
//! The server answers a chat request with a sequence of self-contained
//! records, each carrying a text fragment and a `done` flag. A fragment of a
//! record that is not `done` is emitted to the consumer at once; the `done`
//! record's fragment is appended to the internal buffer, the buffered total
//! is emitted as one final chunk, and the buffer is cleared. Records that
//! could not be decoded are skipped, so isolated corruption does not abort an
//! otherwise healthy stream.

use vstd::prelude::*;
use vstd::string::StringExecFns;
use crate::chat::ChatResponse;

verus! {

/// One decoded reply record: a text fragment and the end-of-stream flag.
pub struct StreamRecord {
    pub content: String,
    pub done: bool,
}

/// State of the incremental decoder: the text buffered for the final chunk.
pub struct InferenceStreamDecoder {
    pub buffer: String,
}

impl InferenceStreamDecoder {
    pub fn new() -> (d: Self)
        ensures
            d.buffer@ == Seq::<char>::empty(),
    {
        InferenceStreamDecoder { buffer: String::new() }
    }

    /// Consume one well-formed record and return the chunk to emit for it:
    /// the fragment itself while the stream is open, and the buffered total
    /// (buffer then cleared) on the final record.
    pub fn feed(&mut self, content: &str, done: bool) -> (chunk: String)
        ensures
            !done ==> chunk@ == content@ && final(self).buffer@ == old(self).buffer@,
            done ==> chunk@ == old(self).buffer@ + content@ && final(self).buffer@
                == Seq::<char>::empty(),
    {
        if done {
            self.buffer.append(content);
            let out = self.buffer.clone();
            self.buffer = String::new();
            out
        } else {
            String::from_str(content)
        }
    }
}

/// The fragment and end-of-stream flag the decoder reads from one of the
/// inference server's reply records.
pub fn record_of_response(response: ChatResponse) -> (r: StreamRecord)
    ensures
        r.content@ == response.message.content@,
        r.done == response.done,
{
    StreamRecord { content: response.message.content, done: response.done }
}

/// The chunks a fresh decoder emits for a record sequence: one chunk per
/// decodable record, in order, up to and including the first `done` record;
/// undecodable records (`None`) are skipped.
pub open spec fn emitted_chunks(records: Seq<Option<(Seq<char>, bool)>>) -> Seq<Seq<char>>
    decreases records.len(),
{
    if records.len() == 0 {
        Seq::empty()
    } else {
        match records[0] {
            Some(rec) => {
                if rec.1 {
                    seq![rec.0]
                } else {
                    seq![rec.0] + emitted_chunks(records.drop_first())
                }
            },
            None => emitted_chunks(records.drop_first()),
        }
    }
}

pub open spec fn records_view(records: Seq<Option<StreamRecord>>) -> Seq<
    Option<(Seq<char>, bool)>,
> {
    records.map_values(
        |r: Option<StreamRecord>|
            match r {
                Some(rec) => Some((rec.content@, rec.done)),
                None => None,
            },
    )
}

/// Decode a whole record sequence with a fresh decoder, skipping records
/// that failed to decode and stopping after the first `done` record.
pub fn decode_records(records: &Vec<Option<StreamRecord>>) -> (out: Vec<String>)
    ensures
        out@.map_values(|c: String| c@) == emitted_chunks(records_view(records@)),
{
    let ghost full = records_view(records@);
    let mut dec = InferenceStreamDecoder::new();
    let mut out: Vec<String> = Vec::new();
    let mut i: usize = 0;
    let mut finished = false;
    proof {
        assert(full.skip(0) =~= full);
        assert(out@.map_values(|c: String| c@) =~= Seq::<Seq<char>>::empty());
    }
    while i < records.len() && !finished
        invariant
            0 <= i <= records@.len(),
            full == records_view(records@),
            dec.buffer@ == Seq::<char>::empty(),
            !finished ==> out@.map_values(|c: String| c@) + emitted_chunks(full.skip(i as int))
                =~= emitted_chunks(full),
            finished ==> out@.map_values(|c: String| c@) =~= emitted_chunks(full),
        decreases records@.len() - i,
    {
        let ghost prev = out@;
        proof {
            assert(full.skip(i as int)[0] == full[i as int]);
            assert(full.skip(i as int).drop_first() =~= full.skip(i as int + 1));
        }
        match &records[i] {
            Some(rec) => {
                let done = rec.done;
                let chunk = dec.feed(rec.content.as_str(), done);
                let ghost chunk_view = chunk@;
                out.push(chunk);
                proof {
                    assert(out@.map_values(|c: String| c@) =~= prev.map_values(
                        |c: String| c@,
                    ).push(chunk_view));
                }
                if done {
                    finished = true;
                }
            },
            None => {},
        }
        i = i + 1;
    }
    proof {
        if !finished {
            assert(full.skip(records@.len() as int) =~= Seq::<Option<(Seq<char>, bool)>>::empty());
            assert(emitted_chunks(full.skip(records@.len() as int)) =~= Seq::<Seq<char>>::empty());
        }
        assert(out@.map_values(|c: String| c@) =~= emitted_chunks(full));
    }
    out
}

} // verus!
