//! The network file distributor's protocol logic.
//!
//! One produced file is exposed over the local network under one of two
//! strategies. The streaming strategy is a long-running service: each request
//! is answered independently, with attachment headers and the body in bounded
//! chunks, or with a not-found status when the file is missing at request
//! time. The one-shot strategy buffers the whole file, accepts exactly one
//! peer, writes a fixed minimal preamble followed by the raw bytes, and is
//! done; the end of the data is signalled by closing the connection, not by
//! length framing. The bytes each strategy puts on the wire, and the one-shot
//! strategy's single-connection discipline, are verified here; the sockets
//! themselves live with the caller.

use vstd::prelude::*;
use vstd::string::StrSliceExecFns;
use vstd::string::StringSliceAdditionalSpecFns;

verus! {

/// The two mutually exclusive transfer strategies.
#[derive(Clone, Copy, Debug, PartialEq, Eq, Structural)]
pub enum Strategy {
    /// Long-running per-request streaming service.
    Streaming,
    /// Ephemeral single-connection raw responder.
    OneShot,
}

/// Read-only snapshot of the file being distributed, taken at serve time:
/// its presented name and its full contents.
pub struct ServedFile {
    pub name: Vec<u8>,
    pub bytes: Vec<u8>,
}

/// The fixed response preamble the one-shot strategy writes before the raw
/// file bytes: a minimal status line, a generic binary content type, and a
/// blank line. Deliberately without a content length — the peer learns the
/// end of the data from the connection closing.
pub open spec fn one_shot_preamble() -> Seq<u8> {
    "HTTP/1.1 200 OK\r\nContent-Type: application/octet-stream\r\n\r\n".spec_bytes()
}

/// The one-shot preamble as a byte vector.
pub fn one_shot_preamble_bytes() -> (r: Vec<u8>)
    ensures
        r@ == one_shot_preamble(),
{
    "HTTP/1.1 200 OK\r\nContent-Type: application/octet-stream\r\n\r\n".as_bytes_vec()
}

/// Everything the one-shot strategy writes to its single peer: exactly the
/// fixed preamble followed by the raw file bytes, verbatim.
pub fn one_shot_response(file: &ServedFile) -> (r: Vec<u8>)
    ensures
        r@ == one_shot_preamble() + file.bytes@,
{
    let mut out = one_shot_preamble_bytes();
    let mut i: usize = 0;
    while i < file.bytes.len()
        invariant
            i <= file.bytes@.len(),
            out@ == one_shot_preamble() + file.bytes@.subrange(0, i as int),
        decreases file.bytes@.len() - i,
    {
        out.push(file.bytes[i]);
        proof {
            assert(file.bytes@.subrange(0, i + 1) == file.bytes@.subrange(0, i as int).push(
                file.bytes@[i as int],
            ));
        }
        i += 1;
    }
    proof {
        assert(file.bytes@.subrange(0, file.bytes@.len() as int) == file.bytes@);
    }
    out
}

/// Phase of the one-shot responder. It accepts one peer and then its serving
/// responsibility ends.
#[derive(Clone, Copy, Debug, PartialEq, Eq, Structural)]
pub enum OneShotPhase {
    /// Blocking on the listening socket for the single peer.
    AwaitingPeer,
    /// A peer is connected; the response is being written.
    Responding,
    /// The response was written; the listener is to be torn down.
    Finished,
}

/// Outcome of performing the one-shot responder's pending action.
#[derive(Clone, Copy, Debug, PartialEq, Eq, Structural)]
pub enum OneShotEvent {
    PeerConnected,
    ResponseWritten,
}

/// The side effect the one-shot responder's caller must perform next.
#[derive(Clone, Copy, Debug, PartialEq, Eq, Structural)]
pub enum OneShotAction {
    /// Block until one peer connects.
    AcceptPeer,
    /// Write the one-shot response bytes to the connected peer.
    WriteResponse,
    /// Tear down the listening socket; nothing further is served.
    TearDown,
}

/// Which events can answer the pending action of a one-shot phase.
pub open spec fn one_shot_fits(p: OneShotPhase, e: OneShotEvent) -> bool {
    match p {
        OneShotPhase::AwaitingPeer => e is PeerConnected,
        OneShotPhase::Responding => e is ResponseWritten,
        OneShotPhase::Finished => false,
    }
}

/// The one-shot responder's transition function.
pub open spec fn one_shot_next(p: OneShotPhase, e: OneShotEvent) -> OneShotPhase
    recommends
        one_shot_fits(p, e),
{
    match p {
        OneShotPhase::AwaitingPeer => OneShotPhase::Responding,
        OneShotPhase::Responding => OneShotPhase::Finished,
        OneShotPhase::Finished => OneShotPhase::Finished,
    }
}

/// The single pending side effect of each one-shot phase.
pub open spec fn one_shot_pending(p: OneShotPhase) -> OneShotAction {
    match p {
        OneShotPhase::AwaitingPeer => OneShotAction::AcceptPeer,
        OneShotPhase::Responding => OneShotAction::WriteResponse,
        OneShotPhase::Finished => OneShotAction::TearDown,
    }
}

/// The one-shot responder's state.
pub struct OneShotServer {
    pub phase: OneShotPhase,
}

impl OneShotServer {
    /// A fresh responder, waiting for its single peer.
    pub fn new() -> (s: OneShotServer)
        ensures
            s.phase == OneShotPhase::AwaitingPeer,
    {
        OneShotServer { phase: OneShotPhase::AwaitingPeer }
    }

    /// The side effect the caller must perform next.
    pub fn action(&self) -> (a: OneShotAction)
        ensures
            a == one_shot_pending(self.phase),
    {
        match self.phase {
            OneShotPhase::AwaitingPeer => OneShotAction::AcceptPeer,
            OneShotPhase::Responding => OneShotAction::WriteResponse,
            OneShotPhase::Finished => OneShotAction::TearDown,
        }
    }

    /// Drive the responder by the outcome of its pending action.
    pub fn step(&mut self, event: OneShotEvent)
        requires
            one_shot_fits(old(self).phase, event),
        ensures
            final(self).phase == one_shot_next(old(self).phase, event),
    {
        match self.phase {
            OneShotPhase::AwaitingPeer => {
                self.phase = OneShotPhase::Responding;
            },
            OneShotPhase::Responding => {
                self.phase = OneShotPhase::Finished;
            },
            OneShotPhase::Finished => {
                self.phase = OneShotPhase::Finished;
            },
        }
    }

    /// Whether the single connection has been fully served.
    pub fn finished(&self) -> (r: bool)
        ensures
            r == (self.phase is Finished),
    {
        match self.phase {
            OneShotPhase::Finished => true,
            _ => false,
        }
    }
}

/// The one-shot responder accepts at most one connection: an accept is
/// pending only in the initial waiting phase, and no transition ever leads
/// back into that phase, so a second accept is never requested.
pub proof fn lemma_one_shot_single_accept(p: OneShotPhase, e: OneShotEvent)
    ensures
        one_shot_pending(p) is AcceptPeer ==> p is AwaitingPeer,
        !(one_shot_next(p, e) is AwaitingPeer),
{
}

/// The value of the `Content-Disposition` header the streaming strategy
/// attaches: an attachment carrying the served file's name.
pub open spec fn disposition_value(name: Seq<u8>) -> Seq<u8> {
    "attachment; filename=\"".spec_bytes() + name + "\"".spec_bytes()
}

/// The generic binary content type both strategies use.
pub fn binary_content_type() -> (r: Vec<u8>)
    ensures
        r@ == "application/octet-stream".spec_bytes(),
{
    "application/octet-stream".as_bytes_vec()
}

/// Build the `Content-Disposition` header value for a served file name.
pub fn disposition_bytes(name: &Vec<u8>) -> (r: Vec<u8>)
    ensures
        r@ == disposition_value(name@),
{
    let mut out = "attachment; filename=\"".as_bytes_vec();
    let mut i: usize = 0;
    while i < name.len()
        invariant
            i <= name@.len(),
            out@ == "attachment; filename=\"".spec_bytes() + name@.subrange(0, i as int),
        decreases name@.len() - i,
    {
        out.push(name[i]);
        proof {
            assert(name@.subrange(0, i + 1) == name@.subrange(0, i as int).push(name@[i as int]));
        }
        i += 1;
    }
    proof {
        assert(name@.subrange(0, name@.len() as int) == name@);
    }
    let mut quote = "\"".as_bytes_vec();
    let ghost head = out@;
    let mut j: usize = 0;
    while j < quote.len()
        invariant
            j <= quote@.len(),
            quote@ == "\"".spec_bytes(),
            out@ == head + quote@.subrange(0, j as int),
        decreases quote@.len() - j,
    {
        out.push(quote[j]);
        proof {
            assert(quote@.subrange(0, j + 1) == quote@.subrange(0, j as int).push(quote@[j as int]));
        }
        j += 1;
    }
    proof {
        assert(quote@.subrange(0, quote@.len() as int) == quote@);
    }
    out
}

/// What one streaming request is answered with.
pub enum RequestOutcome {
    /// The target could be opened: a success status with attachment headers;
    /// the body is the file's bytes, streamed in bounded chunks.
    Attachment { disposition: Vec<u8> },
    /// The target file is missing at request time: a not-found status, not a
    /// crash.
    MissingTarget,
}

/// The HTTP status each outcome carries.
pub open spec fn status_of(r: RequestOutcome) -> int {
    match r {
        RequestOutcome::Attachment { .. } => 200,
        RequestOutcome::MissingTarget => 404,
    }
}

/// Decide one streaming request. The caller opens the target file fresh and
/// reports whether that succeeded; a missing target yields the not-found
/// outcome, an openable one yields the attachment outcome with exactly the
/// fixed disposition header for the served name.
pub fn handle_request(target_openable: bool, name: &Vec<u8>) -> (r: RequestOutcome)
    ensures
        target_openable <==> r is Attachment,
        r matches RequestOutcome::Attachment { disposition } ==> disposition@ == disposition_value(
            name@,
        ),
{
    if target_openable {
        RequestOutcome::Attachment { disposition: disposition_bytes(name) }
    } else {
        RequestOutcome::MissingTarget
    }
}

/// Default size of one streamed body chunk, in bytes.
pub const STREAM_CHUNK: usize = 8192;

/// Cut a body of `len` bytes into bounded chunks: contiguous `(start, size)`
/// spans that begin at zero, chain without gap or overlap, end exactly at
/// `len`, are each at most `chunk` bytes and never empty, and of which every
/// span but the last is full.
pub fn chunk_spans(len: usize, chunk: usize) -> (r: Vec<(usize, usize)>)
    requires
        chunk >= 1,
    ensures
        len == 0 ==> r@.len() == 0,
        len > 0 ==> r@.len() >= 1 && r@[0].0 == 0 && r@[r@.len() - 1].0 + r@[r@.len() - 1].1
            == len,
        forall|k: int| 0 <= k < r@.len() ==> 1 <= #[trigger] r@[k].1 <= chunk,
        forall|k: int|
            0 <= k < r@.len() - 1 ==> #[trigger] r@[k].1 == chunk && r@[k + 1].0 == r@[k].0 + r@[
                k
            ].1,
{
    let mut out: Vec<(usize, usize)> = Vec::new();
    let mut start: usize = 0;
    while start < len
        invariant
            chunk >= 1,
            start <= len,
            out@.len() == 0 ==> start == 0,
            out@.len() > 0 ==> out@[0].0 == 0 && out@[out@.len() - 1].0 + out@[out@.len() - 1].1
                == start,
            forall|k: int| 0 <= k < out@.len() ==> 1 <= #[trigger] out@[k].1 <= chunk,
            forall|k: int|
                0 <= k < out@.len() - 1 ==> #[trigger] out@[k].1 == chunk && out@[k + 1].0 == out@[
                    k
                ].0 + out@[k].1,
            forall|k: int| 0 <= k < out@.len() ==> #[trigger] out@[k].1 == chunk || out@[k].0
                + out@[k].1 == len,
            forall|k: int| 0 <= k < out@.len() ==> #[trigger] out@[k].0 + out@[k].1 <= start,
        decreases len - start,
    {
        let size = if len - start < chunk {
            len - start
        } else {
            chunk
        };
        out.push((start, size));
        start += size;
    }
    proof {
        assert forall|k: int| 0 <= k < out@.len() - 1 implies #[trigger] out@[k].1 == chunk && out@[
            k + 1
        ].0 == out@[k].0 + out@[k].1 by {
            if out@[k].1 != chunk {
                assert(out@[k].0 + out@[k].1 == len);
                assert(out@[k + 1].0 == len);
                assert(out@[k + 1].0 + out@[k + 1].1 <= start);
                assert(out@[k + 1].1 >= 1);
            }
        }
    }
    out
}

/// The status code of a request outcome.
pub fn status_code(r: &RequestOutcome) -> (s: u16)
    ensures
        s == status_of(*r),
{
    match r {
        RequestOutcome::Attachment { .. } => 200,
        RequestOutcome::MissingTarget => 404,
    }
}

} // verus!
