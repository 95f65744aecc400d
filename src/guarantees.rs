//! What the client guarantees over sequences of calls.

use vstd::prelude::*;

use crate::client::{
    closed_step, delivers, ic_created_step, im_opened_step, is_key_code, pos_updated_step,
    process_event_step, send_step, update_pos_step, ClientModel, ContextState, ImePos, Notification, Request,
    Step,
};
use crate::style::{InputStyle, PREEDIT_CALLBACKS_BIT};

verus! {

/// The state after each placement of `reqs` was asked for, in order.
pub open spec fn apply_updates(m: ClientModel, reqs: Seq<ImePos>) -> ClientModel
    decreases reqs.len(),
{
    if reqs.len() == 0 {
        m
    } else {
        update_pos_step(apply_updates(m, reqs.drop_last()), reqs.last()).0
    }
}

/// Whether a request sends a placement update.
pub open spec fn is_send(r: Option<Request>) -> bool {
    r matches Some(Request::SetIcValues { .. })
}

proof fn lemma_prefix_deferred(m: ClientModel, ic: u32, reqs: Seq<ImePos>, n: int)
    requires
        m.context == ContextState::Open(ic),
        m.in_flight,
        0 <= n <= reqs.len(),
    ensures
        apply_updates(m, reqs.take(n)).context == m.context,
        apply_updates(m, reqs.take(n)).in_flight,
        apply_updates(m, reqs.take(n)).pos_cur == m.pos_cur,
        n > 0 ==> apply_updates(m, reqs.take(n)).queued,
        n > 0 ==> apply_updates(m, reqs.take(n)).pos_req == reqs[n - 1],
    decreases n,
{
    if n > 0 {
        lemma_prefix_deferred(m, ic, reqs, n - 1);
        assert(reqs.take(n).drop_last() =~= reqs.take(n - 1));
    }
}

/// Requests for placements made while an update is in flight are all deferred,
/// whatever their number. The completion of the in-flight update then sends
/// one update, with the placement of the last request, and the completion of
/// that one sends nothing more.
pub proof fn lemma_coalescing(m: ClientModel, ic: u32, reqs: Seq<ImePos>)
    requires
        m.context == ContextState::Open(ic),
        m.in_flight,
        reqs.len() > 0,
    ensures
        forall|i: int|
            0 <= i < reqs.len() ==> #[trigger] update_pos_step(apply_updates(m, reqs.take(i)), reqs[i]).1
                == (Step { handled: false, request: None }),
        pos_updated_step(apply_updates(m, reqs), ic).1 == Some(
            Request::SetIcValues { ic, pos: reqs.last(), window_changed: reqs.last().win != m.pos_cur.win },
        ),
        pos_updated_step(apply_updates(m, reqs), ic).0.pos_cur == reqs.last(),
        pos_updated_step(pos_updated_step(apply_updates(m, reqs), ic).0, ic).1 == None::<Request>,
{
    assert forall|i: int| 0 <= i < reqs.len() implies #[trigger] update_pos_step(
        apply_updates(m, reqs.take(i)),
        reqs[i],
    ).1 == (Step { handled: false, request: None }) by {
        lemma_prefix_deferred(m, ic, reqs, i);
    }
    lemma_prefix_deferred(m, ic, reqs, reqs.len() as int);
    assert(reqs.take(reqs.len() as int) =~= reqs);
}

/// While an update is in flight, no step but the server's acknowledgment
/// sends another one, and every send leaves an update in flight.
pub proof fn lemma_at_most_one_in_flight(
    m: ClientModel,
    pos: ImePos,
    filtered: bool,
    response_type: u8,
    ic: u32,
)
    ensures
        m.in_flight ==> !is_send(update_pos_step(m, pos).1.request) && update_pos_step(m, pos).0.in_flight,
        m.in_flight ==> !is_send(process_event_step(m, filtered, response_type).1.request)
            && process_event_step(m, filtered, response_type).0.in_flight,
        m.in_flight ==> im_opened_step(m).0.in_flight,
        m.in_flight ==> ic_created_step(m, ic).0.in_flight,
        m.in_flight ==> closed_step(m).in_flight,
        is_send(update_pos_step(m, pos).1.request) ==> !m.in_flight && update_pos_step(m, pos).0.in_flight,
        is_send(pos_updated_step(m, ic).1) ==> pos_updated_step(m, ic).0.in_flight,
{
}

/// One send of a placement update: it issues exactly one update, on context
/// `ic`, with the requested placement; it rebinds the windows exactly when the
/// requested window differs from the one of the preceding send; it marks an
/// update in flight, and records what it sent as the current placement at
/// once, leaving the requested placement as it was.
pub proof fn lemma_send_step(m: ClientModel, ic: u32)
    ensures
        send_step(m, ic).1 == (Request::SetIcValues {
            ic,
            pos: m.pos_req,
            window_changed: m.pos_req.win != m.pos_cur.win,
        }),
        send_step(m, ic).0.in_flight,
        send_step(m, ic).0.pos_cur == m.pos_req,
        send_step(m, ic).0.pos_req == m.pos_req,
        send_step(m, ic).0.context == m.context,
        send_step(m, ic).0.queued == m.queued,
        send_step(m, ic).0.style == m.style,
{
}

/// A send rebinds the windows exactly when the requested window differs from
/// the one of the preceding send (or of the context's creation); only sends
/// and context creation change that window.
pub proof fn lemma_window_change_detection(
    m: ClientModel,
    pos: ImePos,
    filtered: bool,
    response_type: u8,
    ic: u32,
)
    ensures
        update_pos_step(m, pos).1.request matches Some(Request::SetIcValues { pos: p, window_changed: w, .. })
            ==> p == pos && w == (pos.win != m.pos_cur.win) && update_pos_step(m, pos).0.pos_cur == p,
        !is_send(update_pos_step(m, pos).1.request) ==> update_pos_step(m, pos).0.pos_cur == m.pos_cur,
        pos_updated_step(m, ic).1 matches Some(Request::SetIcValues { pos: p, window_changed: w, .. })
            ==> p == m.pos_req && w == (m.pos_req.win != m.pos_cur.win) && pos_updated_step(m, ic).0.pos_cur == p,
        !is_send(pos_updated_step(m, ic).1) ==> pos_updated_step(m, ic).0.pos_cur == m.pos_cur,
        im_opened_step(m).1 == (Request::CreateIc { style: m.style.bits, pos: m.pos_req }),
        im_opened_step(m).0.pos_cur == m.pos_req,
        process_event_step(m, filtered, response_type).0.pos_cur == m.pos_cur,
        ic_created_step(m, ic).0.pos_cur == m.pos_cur,
        closed_step(m).pos_cur == m.pos_cur,
{
}

/// A key event that the filter left, with no context, is left to the
/// application and asks for one context; a second such event before the
/// context opens asks for none.
pub proof fn lemma_lazy_open(m: ClientModel, first: u8, second: u8)
    requires
        m.context == ContextState::Closed,
        is_key_code(first),
        is_key_code(second),
    ensures
        process_event_step(m, false, first).1 == (Step { handled: false, request: Some(Request::OpenIm) }),
        process_event_step(m, false, first).0.context == ContextState::Opening,
        process_event_step(process_event_step(m, false, first).0, false, second).1 == (Step {
            handled: false,
            request: None,
        }),
        process_event_step(process_event_step(m, false, first).0, false, second).0.context
            == ContextState::Opening,
{
}

/// With the default style no pre-edit notification reaches a callback; with
/// the pre-edit callbacks enabled every notification reaches its own.
pub proof fn lemma_callback_gating(style: InputStyle, n: Notification)
    ensures
        style.bits == 0 ==> (delivers(style, n) <==> (n == Notification::CommitString || n
            == Notification::ForwardEvent)),
        style.bits & PREEDIT_CALLBACKS_BIT != 0 ==> delivers(style, n),
{
    assert(0u32 & 0x0002u32 == 0) by (bit_vector);
}

} // verus!
