//! What holds of the controller in every run.
//!
//! A call is followed from its first action to its reply with
//! [`call_trace`] and [`call_end`], whatever the outcomes that the driver
//! reports on the way.

use vstd::prelude::*;
use crate::chip::{
    close_step, core_init_step, died_step, open_step, refusal, resume_step, send_step, success,
    ChipModel, InFlight,
};
use crate::error::HalError;
use crate::frame::device_reset_command;
use crate::protocol::{ActionView, Answer, Outcome, UwbEvent, UwbStatus};
use crate::session::ClientState;

verus! {

/// The actions of one call in order, from `first` on: each outcome in
/// `outcomes` is reported in turn, until the action is a reply or the
/// outcomes have run out.
pub open spec fn call_trace<C, D>(
    s: ChipModel<C, D>,
    first: ActionView,
    outcomes: Seq<Outcome<D>>,
) -> Seq<ActionView>
    decreases outcomes.len(),
{
    if first is Reply || outcomes.len() == 0 {
        seq![first]
    } else {
        let (next, action) = resume_step(s, outcomes[0]);
        seq![first] + call_trace(next, action, outcomes.drop_first())
    }
}

/// The controller as the call followed by [`call_trace`] leaves it.
pub open spec fn call_end<C, D>(
    s: ChipModel<C, D>,
    first: ActionView,
    outcomes: Seq<Outcome<D>>,
) -> ChipModel<C, D>
    decreases outcomes.len(),
{
    if first is Reply || outcomes.len() == 0 {
        s
    } else {
        let (next, action) = resume_step(s, outcomes[0]);
        call_end(next, action, outcomes.drop_first())
    }
}

/// Whether the call followed by [`call_trace`] ended in success.
pub open spec fn succeeded(trace: Seq<ActionView>) -> bool {
    trace.last() matches ActionView::Reply(Ok(_))
}

/// Every step keeps the controller well formed, and a step that asks for a
/// client to be watched or told something leaves a client to address.
pub proof fn law_steps_keep_well_formed<C, D>(
    s: ChipModel<C, D>,
    callbacks: C,
    data: Seq<u8>,
    outcome: Outcome<D>,
)
    requires
        s.wf(),
    ensures
        open_step(s, callbacks).0.wf(),
        close_step(s).0.wf(),
        core_init_step(s).0.wf(),
        send_step(s, data).0.wf(),
        resume_step(s, outcome).0.wf(),
        died_step(s).wf(),
        addresses_client(open_step(s, callbacks).1) ==> open_step(s, callbacks).0.target() is Some,
        addresses_client(core_init_step(s).1) ==> core_init_step(s).0.target() is Some,
        addresses_client(resume_step(s, outcome).1) ==> resume_step(s, outcome).0.target() is Some,
        !addresses_client(close_step(s).1),
        !addresses_client(send_step(s, data).1),
{
}

/// A binding is never replaced by another: every step leaves the binding as
/// it is, or clears it, or makes one where there was none.
pub proof fn law_binding_is_never_replaced<C, D>(
    s: ChipModel<C, D>,
    callbacks: C,
    data: Seq<u8>,
    outcome: Outcome<D>,
)
    ensures
        open_step(s, callbacks).0.client == s.client,
        close_step(s).0.client == s.client,
        core_init_step(s).0.client == s.client,
        send_step(s, data).0.client == s.client,
        ({
            let next = resume_step(s, outcome).0;
            next.client == s.client || !next.opened() || !s.opened()
        }),
        !died_step(s).opened(),
{
}

/// Whether an action is carried out on a client's handle.
pub open spec fn addresses_client(action: ActionView) -> bool {
    action is LinkToDeath || action is NotifyEvent
}

/// Whether the call that starts with `start` is over after at most two
/// pieces of outside work: its trace has at most three actions, once two
/// outcomes are in the last action is the reply, and the reply to a call
/// that did outside work leaves the controller idle and well formed.
pub open spec fn ends_within_two<C, D>(
    start: (ChipModel<C, D>, ActionView),
    outcomes: Seq<Outcome<D>>,
) -> bool {
    let trace = call_trace(start.0, start.1, outcomes);
    &&& 1 <= trace.len() <= 3
    &&& outcomes.len() >= 2 ==> trace.last() is Reply
    &&& !(start.1 is Reply) && trace.last() is Reply ==> call_end(start.0, start.1, outcomes).idle()
    &&& call_end(start.0, start.1, outcomes).wf()
}

/// Every call ends: whichever operation starts it and whatever the driver
/// reports, the reply comes after at most two pieces of outside work.
pub proof fn law_calls_end<C, D>(
    s: ChipModel<C, D>,
    callbacks: C,
    data: Seq<u8>,
    outcomes: Seq<Outcome<D>>,
)
    requires
        s.wf(),
    ensures
        ends_within_two(open_step(s, callbacks), outcomes),
        ends_within_two(close_step(s), outcomes),
        ends_within_two(core_init_step(s), outcomes),
        ends_within_two(send_step(s, data), outcomes),
{
    reveal_with_fuel(call_trace, 4);
    reveal_with_fuel(call_end, 4);
}

/// `open` succeeds only on a controller that is closed and idle, and a call
/// that succeeds consists of exactly this: the death watch is armed, the
/// client is told once that it is open, and then comes the reply. The client
/// passed to `open` is bound from then on, and no call is under way.
pub proof fn law_open_announces_once<C, D>(
    s: ChipModel<C, D>,
    callbacks: C,
    outcomes: Seq<Outcome<D>>,
)
    ensures
        ({
            let (started, first) = open_step(s, callbacks);
            let trace = call_trace(started, first, outcomes);
            let end = call_end(started, first, outcomes);
            succeeded(trace) ==> {
                &&& !s.opened() && s.idle()
                &&& trace =~= seq![
                    ActionView::LinkToDeath,
                    ActionView::NotifyEvent { event: UwbEvent::OPEN_CPLT, status: UwbStatus::OK },
                    success(Answer::Unit),
                ]
                &&& outcomes.len() >= 2
                &&& outcomes[0] matches Outcome::Linked(death_recipient)
                &&& end == ChipModel {
                    client: ClientState::Opened { callbacks, death_recipient },
                    in_flight: InFlight::Idle,
                }
            }
        }),
{
    reveal_with_fuel(call_trace, 4);
    reveal_with_fuel(call_end, 4);
}

/// An `open` whose death watch is armed and whose announcement is taken
/// succeeds, on every controller that is closed and idle.
pub proof fn law_open_succeeds<C, D>(
    s: ChipModel<C, D>,
    callbacks: C,
    death_recipient: D,
    outcomes: Seq<Outcome<D>>,
)
    requires
        !s.opened(),
        s.idle(),
        outcomes.len() >= 2,
        outcomes[0] == Outcome::Linked(death_recipient),
        !(outcomes[1] is Failed),
    ensures
        succeeded(call_trace(open_step(s, callbacks).0, open_step(s, callbacks).1, outcomes)),
{
    reveal_with_fuel(call_trace, 4);
}

/// `close` succeeds only on a controller that is opened and idle, and a call
/// that succeeds consists of exactly this: the reset command is written, the
/// client is told that it is closed, and then comes the reply. The binding
/// is whole while the command is written and while the client is told; it is
/// gone when the reply comes.
pub proof fn law_close_resets_before_unbinding<C, D>(s: ChipModel<C, D>, outcomes: Seq<Outcome<D>>)
    ensures
        ({
            let (started, first) = close_step(s);
            let trace = call_trace(started, first, outcomes);
            let end = call_end(started, first, outcomes);
            succeeded(trace) ==> {
                &&& s.opened() && s.idle()
                &&& trace =~= seq![
                    ActionView::Write { bytes: device_reset_command() },
                    ActionView::NotifyEvent { event: UwbEvent::CLOSE_CPLT, status: UwbStatus::OK },
                    success(Answer::Unit),
                ]
                &&& device_reset_command() =~= seq![0x20u8, 0x00u8, 0x00u8, 0x01u8, 0x00u8]
                &&& outcomes.len() >= 2
                &&& started.client == s.client
                &&& resume_step(started, outcomes[0]).0.client == s.client
                &&& end == s.cleared()
            }
        }),
{
    reveal_with_fuel(call_trace, 4);
    reveal_with_fuel(call_end, 4);
}

/// A `close` whose write goes through reaches the reply, and leaves the
/// controller closed whether or not the client could be told.
pub proof fn law_close_unbinds<C, D>(s: ChipModel<C, D>, outcomes: Seq<Outcome<D>>)
    requires
        s.opened(),
        s.idle(),
        outcomes.len() >= 2,
        !(outcomes[0] is Failed),
    ensures
        call_end(close_step(s).0, close_step(s).1, outcomes) == s.cleared(),
        succeeded(call_trace(close_step(s).0, close_step(s).1, outcomes)) <==> !(outcomes[1]
            is Failed),
{
    reveal_with_fuel(call_trace, 4);
    reveal_with_fuel(call_end, 4);
}

/// After an `open` that succeeded, a second `open` is refused as illegal in
/// this state and changes nothing.
pub proof fn law_open_twice_is_illegal<C, D>(
    s: ChipModel<C, D>,
    first_client: C,
    second_client: C,
    outcomes: Seq<Outcome<D>>,
)
    requires
        succeeded(
            call_trace(open_step(s, first_client).0, open_step(s, first_client).1, outcomes),
        ),
    ensures
        ({
            let end = call_end(
                open_step(s, first_client).0,
                open_step(s, first_client).1,
                outcomes,
            );
            open_step(end, second_client) == (end, refusal(HalError::IllegalState))
        }),
{
    law_open_announces_once(s, first_client, outcomes);
}

/// After a `close` that succeeded, a second `close` is refused as illegal in
/// this state and changes nothing.
pub proof fn law_close_twice_is_illegal<C, D>(s: ChipModel<C, D>, outcomes: Seq<Outcome<D>>)
    requires
        succeeded(call_trace(close_step(s).0, close_step(s).1, outcomes)),
    ensures
        ({
            let end = call_end(close_step(s).0, close_step(s).1, outcomes);
            close_step(end) == (end, refusal(HalError::IllegalState))
        }),
{
    law_close_resets_before_unbinding(s, outcomes);
}

/// While no client is bound, `sendUciMessage`, `coreInit` and `close` are
/// refused as illegal in this state, and change nothing.
pub proof fn law_closed_refuses<C, D>(s: ChipModel<C, D>, data: Seq<u8>)
    requires
        !s.opened(),
    ensures
        send_step(s, data) == (s, refusal(HalError::IllegalState)),
        core_init_step(s) == (s, refusal(HalError::IllegalState)),
        close_step(s) == (s, refusal(HalError::IllegalState)),
{
}

/// Exactly when a call is refused at once: `open` unless the controller is
/// closed and idle, every other call unless it is opened and idle. A call
/// that is not refused at once starts with outside work.
pub proof fn law_refused_at_once<C, D>(s: ChipModel<C, D>, callbacks: C, data: Seq<u8>)
    ensures
        open_step(s, callbacks).1 is Reply <==> !(s.idle() && !s.opened()),
        close_step(s).1 is Reply <==> !(s.idle() && s.opened()),
        core_init_step(s).1 is Reply <==> !(s.idle() && s.opened()),
        send_step(s, data).1 is Reply <==> !(s.idle() && s.opened()),
        open_step(s, callbacks).1 is Reply ==> open_step(s, callbacks) == (
            s,
            refusal(HalError::IllegalState),
        ),
        close_step(s).1 is Reply ==> close_step(s) == (s, refusal(HalError::IllegalState)),
        core_init_step(s).1 is Reply ==> core_init_step(s) == (s, refusal(HalError::IllegalState)),
        send_step(s, data).1 is Reply ==> send_step(s, data) == (
            s,
            refusal(HalError::IllegalState),
        ),
{
}

/// The death of the client closes the controller, whatever it was doing, and
/// a `sendUciMessage` that follows is refused as illegal in this state.
pub proof fn law_death_closes<C, D>(s: ChipModel<C, D>, data: Seq<u8>)
    ensures
        !died_step(s).opened(),
        died_step(s).idle(),
        send_step(died_step(s), data) == (died_step(s), refusal(HalError::IllegalState)),
{
}

/// `sendUciMessage` on a controller that is opened and idle asks for the
/// message to be written as it stands, and answers with the message's length
/// if the write goes through and with a transport failure if it does not.
/// Either way the binding stays.
pub proof fn law_send_writes_verbatim<C, D>(s: ChipModel<C, D>, data: Seq<u8>, outcome: Outcome<D>)
    requires
        s.opened(),
        s.idle(),
        data.len() <= usize::MAX,
    ensures
        send_step(s, data).1 == (ActionView::Write { bytes: data }),
        resume_step(send_step(s, data).0, outcome) == (if outcome is Failed {
            (s, refusal(HalError::TransportIo))
        } else {
            (s, success(Answer::Count(data.len() as usize)))
        }),
{
}

/// `coreInit` on a controller that is opened and idle tells the client that
/// initialisation is complete. If the client takes it, the call succeeds and
/// the binding stays; if not, the client is gone and the binding with it.
pub proof fn law_core_init_announces<C, D>(s: ChipModel<C, D>, outcome: Outcome<D>)
    requires
        s.opened(),
        s.idle(),
    ensures
        core_init_step(s).1 == (ActionView::NotifyEvent {
            event: UwbEvent::POST_INIT_CPLT,
            status: UwbStatus::OK,
        }),
        core_init_step(s).0.target() is Some,
        resume_step(core_init_step(s).0, outcome) == (if outcome is Failed {
            (s.cleared(), refusal(HalError::RemoteGone))
        } else {
            (s, success(Answer::Unit))
        }),
{
}

} // verus!
