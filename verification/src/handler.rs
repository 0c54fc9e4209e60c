//! The connection handler: one read phase, then one write phase, each
//! independently fallible. The write phase runs whatever the read phase
//! produced, so every connection gets a response attempt.
//!
//! The handler here is the decision-and-computation core: the socket reads
//! and writes themselves happen outside, which hands the read's outcome in
//! and carries the wire text back out.

use vstd::prelude::*;
use crate::request::{decode_request, lossy_decode};
use crate::response::{body_chars, build_response, response_chars, serialize_response,
    lemma_wire_of_wf, HttpResponse};
use crate::stats::{sample_stats, StatsSnapshot};

verus! {

/// The size of the buffer one read attempt fills. A connection gets exactly
/// one such attempt; whatever it yields is enough to respond to.
pub const READ_BUFFER_LEN: usize = 4096;

/// What one read attempt on a connection produced: some bytes (possibly
/// none, possibly not valid text), or a failure.
pub enum ReadOutcome {
    Received(Vec<u8>),
    Failed,
}

/// Everything one handled connection produced: the reported request text
/// (absent when the read failed), the snapshot sampled for it, the response,
/// and the serialized wire text to be written back.
pub struct HandlerOutput {
    pub request_text: Option<String>,
    pub stats: StatsSnapshot,
    pub response: HttpResponse,
    pub wire: String,
}

/// The handler's full obligation for one connection: a well-formed response
/// reporting the sampled snapshot, its complete wire text, and the request
/// text exactly when the read succeeded.
pub open spec fn handler_output_ok(read: ReadOutcome, out: HandlerOutput) -> bool {
    &&& out.response.wf()
    &&& out.response.body@ == body_chars(out.stats.total_kb as nat, out.stats.used_kb as nat)
    &&& out.wire@ == response_chars(out.stats.total_kb as nat, out.stats.used_kb as nat)
    &&& match read {
        ReadOutcome::Received(bytes) => out.request_text matches Some(t) && t@ == lossy_decode(
            bytes@,
        ),
        ReadOutcome::Failed => out.request_text is None,
    }
}

/// The write phase for one snapshot: builds the response and serializes it.
/// It performs no I/O and cannot fail.
pub fn write_phase(stats: StatsSnapshot) -> (out: (HttpResponse, String))
    ensures
        out.0.wf(),
        out.0.body@ == body_chars(stats.total_kb as nat, stats.used_kb as nat),
        out.1@ == response_chars(stats.total_kb as nat, stats.used_kb as nat),
{
    let response = build_response(&stats);
    let wire = serialize_response(&response);
    proof {
        lemma_wire_of_wf(response, stats.total_kb as nat, stats.used_kb as nat);
    }
    (response, wire)
}

/// Handles one connection's outcome: reports the request text when there is
/// one, then samples the host and produces the response. The contract holds
/// for every read outcome — zero bytes, malformed text, or a failed read
/// never prevent the write phase.
pub fn handle_connection(read: ReadOutcome) -> (out: HandlerOutput)
    ensures
        handler_output_ok(read, out),
{
    let request_text = match &read {
        ReadOutcome::Received(bytes) => Some(decode_request(bytes.as_slice())),
        ReadOutcome::Failed => None,
    };
    let stats = sample_stats();
    let (response, wire) = write_phase(stats);
    HandlerOutput { request_text, stats, response, wire }
}

/// Whatever the read phase produced — nothing, a fragment, bytes that are not
/// UTF-8, or an outright failure — the handler's output carries a well-formed
/// response and its complete wire text: the write phase always runs.
pub proof fn lemma_write_phase_always_runs(read: ReadOutcome, out: HandlerOutput)
    requires
        handler_output_ok(read, out),
    ensures
        out.response.wf(),
        out.wire@ == response_chars(out.stats.total_kb as nat, out.stats.used_kb as nat),
{
}

/// The same request handled on two separate connections yields two
/// independent responses: each one's wire text is the complete response for
/// its own sampled snapshot, and each one's `Content-Length` matches its own
/// body, whatever the other connection sampled.
pub proof fn lemma_connections_independent(
    read: ReadOutcome,
    out1: HandlerOutput,
    out2: HandlerOutput,
)
    requires
        handler_output_ok(read, out1),
        handler_output_ok(read, out2),
    ensures
        out1.wire@ == response_chars(out1.stats.total_kb as nat, out1.stats.used_kb as nat),
        out2.wire@ == response_chars(out2.stats.total_kb as nat, out2.stats.used_kb as nat),
        out1.response.wf(),
        out2.response.wf(),
{
}

} // verus!
