//! The path from raw payloads to the overlay state: decoding, normalising,
//! applying, and the status lines that report the connection.
use vstd::prelude::*;

use crate::frames::{payloads, remainder, views, FrameBuffer};
use crate::link::Notice;
use crate::overlay::{connected_label, processes, Effects, OverlayState};
use crate::status::{
    accepts_json,
    decode_status,
    decodes_to,
    json_accepts,
    lemma_read_then_normalize,
    normalize,
    NormalizedStatus,
};

verus! {

/// `t` and `e` come from processing the payload in `b` on `s` at `now`.
pub open spec fn processes_body(s: OverlayState, b: Seq<u8>, now: u64, t: OverlayState, e: Effects) -> bool {
    exists|n: NormalizedStatus| #[trigger] decodes_to(b, n) && processes(s, n, now, t, e)
}

/// `t` is `s` with its status line reporting a connection to `port`.
pub open spec fn noted_connected(s: OverlayState, port: Seq<char>, t: OverlayState) -> bool {
    t.status@ == connected_label(port) && t == (OverlayState { status: t.status, ..s })
}

/// Processing body `b` at `now` takes `s` to `t`: a JSON document is
/// processed, anything else leaves the state as it was.
pub open spec fn consumes(s: OverlayState, b: Seq<u8>, now: u64, t: OverlayState) -> bool {
    if json_accepts(b) {
        exists|e: Effects| #[trigger] processes_body(s, b, now, t, e)
    } else {
        t == s
    }
}

/// `trace` lists the states met while processing the bodies `bs` one after
/// the other at `now`, from the first state to the last.
pub open spec fn trace_of(trace: Seq<OverlayState>, bs: Seq<Seq<u8>>, now: u64) -> bool {
    &&& trace.len() == bs.len() + 1
    &&& forall|k: int| 0 <= k < bs.len() ==> #[trigger] consumes(trace[k], bs[k], now, trace[k + 1])
}

/// Processing the bodies `bs` one after the other at `now` takes `s` to `t`.
pub open spec fn consumes_all(s: OverlayState, bs: Seq<Seq<u8>>, now: u64, t: OverlayState) -> bool {
    exists|trace: Seq<OverlayState>|
        #[trigger] trace_of(trace, bs, now) && trace[0] == s && trace.last() == t
}

/// How many of the bodies are JSON documents.
pub open spec fn accepted_count(bs: Seq<Seq<u8>>) -> nat
    decreases bs.len(),
{
    if bs.len() == 0 {
        0
    } else {
        accepted_count(bs.drop_last()) + if json_accepts(bs.last()) {
            1nat
        } else {
            0nat
        }
    }
}

/// Decodes and normalises a payload and processes it at time `now`.
fn process_body(state: &mut OverlayState, body: &[u8], now: u64) -> (r: Option<Effects>)
    ensures
        r is Some <==> json_accepts(body@),
        r is None ==> *final(state) == *old(state),
        r matches Some(e) ==> processes_body(*old(state), body@, now, *final(state), e),
{
    match decode_status(body) {
        Some(a) => {
            let n = normalize(&a);
            proof {
                lemma_read_then_normalize(body@, a, n);
            }
            let e = state.process(&n, now);
            assert(decodes_to(body@, n) && processes(*old(state), n, now, *state, e));
            Some(e)
        },
        None => None,
    }
}

/// Processes one payload at time `now`. A payload that is not a JSON
/// document is dropped: the state stays as it was and `None` comes back.
pub fn accept_payload(state: &mut OverlayState, body: &[u8], now: u64) -> (r: Option<Effects>)
    ensures
        r is Some <==> json_accepts(body@),
        r is None ==> *final(state) == *old(state),
        r matches Some(e) ==> processes_body(*old(state), body@, now, *final(state), e),
{
    process_body(state, body, now)
}

/// Processes the body of a successful poll of `port`. A body that is a JSON
/// document first marks the source as connected and is then processed; any
/// other body is dropped and the state stays as it was.
pub fn accept_poll_body(state: &mut OverlayState, port: &str, body: &[u8], now: u64) -> (r: Option<
    Effects,
>)
    ensures
        r is Some <==> json_accepts(body@),
        r is None ==> *final(state) == *old(state),
        r matches Some(e) ==> exists|mid: OverlayState|
            noted_connected(*old(state), port@, mid) && #[trigger] processes_body(
                mid,
                body@,
                now,
                *final(state),
                e,
            ),
{
    if !accepts_json(body) {
        return None;
    }
    state.note_connected(port);
    let ghost mid = *state;
    let r = process_body(state, body, now);
    assert(r matches Some(e) ==> noted_connected(*old(state), port@, mid) && processes_body(
        mid,
        body@,
        now,
        *state,
        e,
    ));
    r
}

/// Feeds a chunk of the stream: every complete data frame is taken out of
/// the buffer and its payload processed in order; payloads that are not JSON
/// documents are dropped. Returns the effects of the processed ones.
pub fn accept_chunk(state: &mut OverlayState, frames: &mut FrameBuffer, chunk: &[u8], now: u64) -> (r:
    Vec<Effects>)
    ensures
        final(frames).pending@ == remainder(old(frames).pending@ + chunk@),
        consumes_all(*old(state), payloads(old(frames).pending@ + chunk@), now, *final(state)),
        r@.len() == accepted_count(payloads(old(frames).pending@ + chunk@)),
{
    frames.push_chunk(chunk);
    let found = frames.take_payloads();
    let ghost bs = views(found@);
    let ghost mut trace: Seq<OverlayState> = seq![*state];
    let mut out: Vec<Effects> = Vec::new();
    let mut i: usize = 0;
    assert(bs.subrange(0, 0) =~= Seq::<Seq<u8>>::empty());
    while i < found.len()
        invariant
            i <= found@.len(),
            bs == views(found@),
            trace_of(trace, bs.subrange(0, i as int), now),
            trace[0] == *old(state),
            trace.last() == *state,
            out@.len() == accepted_count(bs.subrange(0, i as int)),
        decreases found@.len() - i,
    {
        let ghost before = *state;
        let ghost prefix = bs.subrange(0, i as int);
        let ghost next = bs.subrange(0, i + 1);
        assert(next.drop_last() =~= prefix);
        assert(next.last() == found@[i as int]@);
        match accept_payload(state, found[i].as_slice(), now) {
            Some(e) => {
                out.push(e);
                assert(consumes(before, next.last(), now, *state));
            },
            None => {
                assert(consumes(before, next.last(), now, *state));
            },
        }
        proof {
            let t0 = trace;
            trace = trace.push(*state);
            assert forall|k: int| 0 <= k < next.len() implies #[trigger] consumes(
                trace[k],
                next[k],
                now,
                trace[k + 1],
            ) by {
                if k < prefix.len() {
                    assert(next[k] == prefix[k]);
                    assert(consumes(t0[k], prefix[k], now, t0[k + 1]));
                }
            };
        }
        i = i + 1;
    }
    assert(bs.subrange(0, i as int) =~= bs);
    out
}

/// Writes the status line that a step of the supervisor asks for.
pub fn apply_notice(state: &mut OverlayState, n: &Notice)
    ensures
        match n {
            Notice::Quiet => *final(state) == *old(state),
            Notice::Connected { port } => noted_connected(*old(state), port@, *final(state)),
            Notice::Searching => final(state).status@ == "Waiting for client..."@ && *final(state)
                == (OverlayState { status: final(state).status, ..*old(state) }),
            Notice::Unreachable => {
                &&& final(state).status@ == "Waiting for client to start..."@
                &&& final(state).text@ == "Start the Gaja client first"@
                &&& *final(state) == (OverlayState {
                    status: final(state).status,
                    text: final(state).text,
                    ..*old(state)
                })
            },
        },
{
    match n {
        Notice::Quiet => {},
        Notice::Connected { port } => state.note_connected(port.as_str()),
        Notice::Searching => state.note_searching(),
        Notice::Unreachable => state.note_unreachable(),
    }
}

} // verus!
