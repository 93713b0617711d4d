//! Properties of the toggle exchange and of the endpoint, proved over the
//! specifications of `exchange`, `protocol`, `reply` and `front_door`.
use vstd::prelude::*;
use crate::exchange::{ActionView, Event, Phase, after_reading, expects, next_phase, pending};
use crate::front_door::{Dispatch, HttpReply, dispatch_spec, ends_with, route_suffix};
use crate::protocol::{lemma_set_state_text_injective, set_state_text};
use crate::reply::{ExchangeError, reply_state_field, reading_spec};

verus! {

/// The phase that a run of events leads to from `p`.
pub open spec fn run(p: Phase, es: Seq<Event>) -> Phase
    decreases es.len(),
{
    if es.len() == 0 {
        p
    } else {
        run(next_phase(p, es[0]), es.drop_first())
    }
}

/// The events of an exchange in which every action succeeds and the bulb
/// answers with `reply`: socket opened, request sent, reply received,
/// command sent.
pub open spec fn smooth_events(reply: Vec<u8>) -> Seq<Event> {
    seq![Event::Done, Event::Done, Event::Received(reply), Event::Done]
}

/// The state of a bulb that starts in state `s` and takes every command of
/// a smooth exchange, after the exchanges in which it answered with
/// `replies`, in order.
pub open spec fn bulb_after(s: bool, replies: Seq<Vec<u8>>) -> bool
    decreases replies.len(),
{
    if replies.len() == 0 {
        s
    } else {
        let before = bulb_after(s, replies.drop_last());
        match run(Phase::Opening, smooth_events(replies.last())) {
            Phase::Toggled(on) => on,
            _ => before,
        }
    }
}

/// The Set-State command carries the inverse of the state the bulb
/// reported: only a reply that reads as a state `s` leads to a command, the
/// command is for `!s`, and the datagram sent is the command for `!s` and
/// for no other state.
pub proof fn lemma_command_inverts_reading(p: Phase, e: Event)
    requires
        expects(p, e),
    ensures
        next_phase(p, e) matches Phase::Commanding(on) ==> {
            &&& p == Phase::AwaitingReply
            &&& (e matches Event::Received(b) && reading_spec(reply_state_field(b@)) == Ok::<bool, ExchangeError>(!on))
            &&& forall|t: bool| pending(next_phase(p, e)) == ActionView::Send(set_state_text(t))
                ==> t == on
        },
{
    if let Phase::Commanding(on) = next_phase(p, e) {
        assert forall|t: bool| pending(next_phase(p, e)) == ActionView::Send(set_state_text(t))
            implies t == on by {
            lemma_set_state_text_injective(t, on);
        }
    }
}

/// Whatever state `s` the reply reports, the next datagram is the Set-State
/// command for `!s`.
pub proof fn lemma_reading_commands_inverse(s: bool)
    ensures
        after_reading(Ok(s)) == Phase::Commanding(!s),
        pending(after_reading(Ok(s))) == ActionView::Send(set_state_text(!s)),
{
}

/// When no reply arrives in time, the exchange fails with a timeout and
/// sends no Set-State command.
pub proof fn lemma_timeout_sends_no_command()
    ensures
        next_phase(Phase::AwaitingReply, Event::TimedOut) == Phase::Failed(ExchangeError::Timeout),
        pending(next_phase(Phase::AwaitingReply, Event::TimedOut)) == ActionView::Stop,
{
}

/// A reply that is JSON but holds no boolean `result.state` fails the
/// exchange with `MissingState`, and no Set-State command is sent.
pub proof fn lemma_missing_state_sends_no_command(reply: Vec<u8>)
    requires
        reply_state_field(reply@) == Some(None::<bool>),
    ensures
        next_phase(Phase::AwaitingReply, Event::Received(reply)) == Phase::Failed(
            ExchangeError::MissingState,
        ),
        pending(next_phase(Phase::AwaitingReply, Event::Received(reply))) == ActionView::Stop,
{
}

/// A reply that is no JSON document fails the exchange with `Malformed`,
/// and no Set-State command is sent.
pub proof fn lemma_malformed_reply_sends_no_command(reply: Vec<u8>)
    requires
        reply_state_field(reply@) is None,
    ensures
        next_phase(Phase::AwaitingReply, Event::Received(reply)) == Phase::Failed(
            ExchangeError::Malformed,
        ),
        pending(next_phase(Phase::AwaitingReply, Event::Received(reply))) == ActionView::Stop,
{
}

/// A request whose path does not end in the route suffix is answered with
/// a 404 and an empty body, and starts no exchange with the bulb.
pub proof fn lemma_other_paths_get_not_found(url: Seq<char>)
    requires
        !ends_with(url, route_suffix()),
    ensures
        dispatch_spec(url) == Dispatch::Answer(HttpReply { status: 404, with_page: false }),
{
}

/// A smooth exchange against a bulb that reports state `s` commands `!s`,
/// each of its events being one that the exchange expects.
pub proof fn lemma_smooth_exchange_toggles(s: bool, reply: Vec<u8>)
    requires
        reading_spec(reply_state_field(reply@)) == Ok::<bool, ExchangeError>(s),
    ensures
        run(Phase::Opening, smooth_events(reply)) == Phase::Toggled(!s),
        expects(Phase::Opening, Event::Done),
        expects(Phase::Querying, Event::Done),
        expects(Phase::AwaitingReply, Event::Received(reply)),
        expects(Phase::Commanding(!s), Event::Done),
{
    let e0 = smooth_events(reply);
    let e1 = e0.drop_first();
    let e2 = e1.drop_first();
    let e3 = e2.drop_first();
    let e4 = e3.drop_first();
    assert(e1 =~= seq![Event::Done, Event::Received(reply), Event::Done]);
    assert(e2 =~= seq![Event::Received(reply), Event::Done]);
    assert(e3 =~= seq![Event::Done]);
    assert(e4 =~= Seq::<Event>::empty());
    assert(run(Phase::Commanding(!s), e3) == run(Phase::Toggled(!s), e4));
    assert(run(Phase::AwaitingReply, e2) == run(Phase::Commanding(!s), e3));
    assert(run(Phase::Querying, e1) == run(Phase::AwaitingReply, e2));
    assert(run(Phase::Opening, e0) == run(Phase::Querying, e1));
}

/// Successive toggles of a bulb that reports its state truthfully and takes
/// every command alternate its state: after `i` exchanges it is back in its
/// first state when `i` is even and in the other one when `i` is odd.
pub proof fn lemma_successive_toggles_alternate(s: bool, replies: Seq<Vec<u8>>)
    requires
        forall|i: int|
            0 <= i < replies.len() ==> reading_spec(reply_state_field(#[trigger] replies[i]@))
                == Ok::<bool, ExchangeError>(bulb_after(s, replies.take(i))),
    ensures
        forall|i: int|
            0 <= i <= replies.len() ==> bulb_after(s, #[trigger] replies.take(i)) == if i % 2 == 0 {
                s
            } else {
                !s
            },
    decreases replies.len(),
{
    if replies.len() > 0 {
        let n = replies.len() - 1;
        let front = replies.drop_last();
        assert forall|i: int| 0 <= i < front.len() implies reading_spec(
            reply_state_field(#[trigger] front[i]@),
        ) == Ok::<bool, ExchangeError>(bulb_after(s, front.take(i))) by {
            assert(front.take(i) =~= replies.take(i));
        }
        lemma_successive_toggles_alternate(s, front);
        assert forall|i: int| 0 <= i <= replies.len() implies bulb_after(
            s,
            #[trigger] replies.take(i),
        ) == if i % 2 == 0 {
            s
        } else {
            !s
        } by {
            if i <= n {
                assert(front.take(i) =~= replies.take(i));
            } else {
                let all = replies.take(i);
                assert(all =~= replies);
                assert(all.drop_last() =~= front.take(n));
                assert(front.take(n) =~= front);
                assert(replies.take(n) =~= front);
                let b = bulb_after(s, front);
                assert(reading_spec(reply_state_field(replies[n]@)) == Ok::<bool, ExchangeError>(b));
                lemma_smooth_exchange_toggles(b, replies[n]);
            }
        }
    }
}

} // verus!
