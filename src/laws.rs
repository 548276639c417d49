use vstd::prelude::*;

use crate::extra_info::{decode_spec, POP_ORDER_REVIVE_QUEUE};
use crate::processor::{
    after_ack_offer, after_checkpoint, after_clock, is_ack_message_of, transition, Action, Event,
    Handling, Phase, Reply, ResponseCode,
};
use crate::records::{is_durable_enough, PutMessageStatus};

verus! {

/// The step ends the request with one response of code `code`, and no record is
/// written by it or after it.
pub open spec fn ends_with(next: Handling, action: Action, code: ResponseCode) -> bool {
    &&& next.phase is Finished
    &&& action matches Action::Respond(reply) && reply.code_spec() == code
}

/// A request for a topic that does not exist is answered `TopicNotExist`.
pub proof fn lemma_unknown_topic(
    revive_topic: Seq<char>,
    state: Handling,
    next: Handling,
    action: Action,
)
    requires
        state.phase is AwaitingTopicConfig,
        transition(revive_topic, state, Event::TopicConfig(None), next, action),
    ensures
        ends_with(next, action, ResponseCode::TopicNotExist),
{
}

/// A queue id below zero or at least the topic's read queue count is answered
/// `MessageIllegal`, with no checkpoint and no acknowledgment.
pub proof fn lemma_illegal_queue_id(
    revive_topic: Seq<char>,
    state: Handling,
    read_queue_nums: u32,
    next: Handling,
    action: Action,
)
    requires
        state.phase is AwaitingTopicConfig,
        state.request.queue_id < 0 || state.request.queue_id as int >= read_queue_nums as int,
        transition(revive_topic, state, Event::TopicConfig(Some(read_queue_nums)), next, action),
    ensures
        ends_with(next, action, ResponseCode::MessageIllegal),
{
}

/// An offset outside the queue's live range `[min, max]` is answered
/// `NoMessage`, with no side effect.
pub proof fn lemma_offset_out_of_range(
    revive_topic: Seq<char>,
    state: Handling,
    min_offset: u64,
    max_offset: u64,
    next: Handling,
    action: Action,
)
    requires
        state.phase is AwaitingOffsetRange,
        state.request.offset < min_offset || state.request.offset > max_offset,
        transition(revive_topic, state, Event::OffsetRange { min_offset, max_offset }, next, action),
    ensures
        ends_with(next, action, ResponseCode::NoMessage),
{
}

/// A checkpoint append that is not durable enough is answered `SystemError`
/// and no acknowledgment is attempted.
pub proof fn lemma_checkpoint_failure_is_fatal(
    revive_topic: Seq<char>,
    state: Handling,
    status: PutMessageStatus,
    next: Handling,
    action: Action,
)
    requires
        state.phase is AwaitingCheckpoint,
        !is_durable_enough(status),
        transition(revive_topic, state, Event::CheckpointStored(status), next, action),
    ensures
        ends_with(next, action, ResponseCode::SystemError),
        !(action is OfferAck),
        !(action is PutAckMessage),
{
}

/// An acknowledgment that the merge buffer takes produces no revive-topic
/// message; one that it declines produces exactly one, delivered no earlier
/// than the end of the original invisibility, after which the request ends.
pub proof fn lemma_ack_paths(
    revive_topic: Seq<char>,
    state: Handling,
    accepted: bool,
    next: Handling,
    action: Action,
    stored: PutMessageStatus,
    last: Handling,
    last_action: Action,
)
    requires
        state.phase is AwaitingAckOffer,
        transition(revive_topic, state, Event::AckOffered(accepted), next, action),
        !accepted ==> transition(revive_topic, next, Event::AckStored(stored), last, last_action),
    ensures
        accepted ==> ends_with(next, action, ResponseCode::Success),
        !accepted ==> (action matches Action::PutAckMessage(m) && is_ack_message_of(
            m,
            revive_topic,
            state.request,
            state.phase->AwaitingAckOffer_info,
        )),
        !accepted && state.phase->AwaitingAckOffer_info.pop_time
            + state.phase->AwaitingAckOffer_info.invisible_time <= u64::MAX ==> (
        action matches Action::PutAckMessage(m) && m.deliver_time_ms
            >= state.phase->AwaitingAckOffer_info.pop_time
            + state.phase->AwaitingAckOffer_info.invisible_time),
        !accepted ==> ends_with(last, last_action, ResponseCode::Success),
{
}

/// A request whose checkpoint is taken at `now` and stored durably enough is
/// answered with pop time `now`, its own invisible time, and the revive queue
/// id of its extra info, whichever acknowledgment path is taken.
pub proof fn lemma_success_echoes_request(
    revive_topic: Seq<char>,
    s_clock: Handling,
    now: u64,
    s_ck: Handling,
    a_ck: Action,
    status: PutMessageStatus,
    s_ack: Handling,
    a_ack: Action,
    accepted: bool,
    s_offered: Handling,
    a_offered: Action,
    stored: PutMessageStatus,
    s_end: Handling,
    a_end: Action,
)
    requires
        s_clock.phase is AwaitingClock,
        transition(revive_topic, s_clock, Event::Clock(now), s_ck, a_ck),
        is_durable_enough(status),
        transition(revive_topic, s_ck, Event::CheckpointStored(status), s_ack, a_ack),
        transition(revive_topic, s_ack, Event::AckOffered(accepted), s_offered, a_offered),
        accepted ==> s_end == s_offered && a_end == a_offered,
        !accepted ==> transition(revive_topic, s_offered, Event::AckStored(stored), s_end, a_end),
    ensures
        a_ck matches Action::AppendCheckpoint(c) && c.pop_time == now,
        s_end.phase is Finished,
        a_end matches Action::Respond(Reply::Changed(h)) && h.pop_time == now && h.invisible_time
            == s_clock.request.invisible_time && h.revive_qid
            == s_clock.phase->AwaitingClock_info.revive_queue_id,
{
    let info = s_clock.phase->AwaitingClock_info;
    assert(after_clock(s_clock.request, info, now, s_ck.phase, a_ck));
    assert(after_checkpoint(
        s_ck.request,
        s_ck.phase->AwaitingCheckpoint_info,
        s_ck.phase->AwaitingCheckpoint_now,
        status,
        s_ack.phase,
        a_ack,
    ));
    assert(after_ack_offer(
        revive_topic,
        s_ack.request,
        s_ack.phase->AwaitingAckOffer_info,
        s_ack.phase->AwaitingAckOffer_now,
        accepted,
        s_offered.phase,
        a_offered,
    ));
}

/// A request for an existing topic, with a queue id in `[0, read_queue_nums)`,
/// an offset in the queue's live range and extra info of an ordinary pop that
/// decodes, goes on to read the clock for its checkpoint, carrying the decoded
/// extra info.
pub proof fn lemma_valid_request_reaches_checkpoint(
    revive_topic: Seq<char>,
    s_topic: Handling,
    read_queue_nums: u32,
    s_range: Handling,
    a_range: Action,
    min_offset: u64,
    max_offset: u64,
    s_clock: Handling,
    a_clock: Action,
)
    requires
        s_topic.phase is AwaitingTopicConfig,
        0 <= s_topic.request.queue_id < read_queue_nums,
        min_offset <= s_topic.request.offset <= max_offset,
        decode_spec(s_topic.request.extra_info@) is Some,
        decode_spec(s_topic.request.extra_info@)->Some_0.revive_queue_id != POP_ORDER_REVIVE_QUEUE,
        transition(revive_topic, s_topic, Event::TopicConfig(Some(read_queue_nums)), s_range, a_range),
        transition(revive_topic, s_range, Event::OffsetRange { min_offset, max_offset }, s_clock, a_clock),
    ensures
        a_range is QueryOffsetRange,
        a_clock is ReadClock,
        s_clock.request == s_topic.request,
        s_clock.phase matches Phase::AwaitingClock { info } && info@ == decode_spec(
            s_topic.request.extra_info@,
        )->Some_0,
{
}

/// A request that passes validation and whose extra info does not decode is
/// rejected as a whole, before any record is written.
pub proof fn lemma_malformed_extra_info(
    revive_topic: Seq<char>,
    state: Handling,
    min_offset: u64,
    max_offset: u64,
    next: Handling,
    action: Action,
)
    requires
        state.phase is AwaitingOffsetRange,
        min_offset <= state.request.offset <= max_offset,
        decode_spec(state.request.extra_info@) is None,
        transition(revive_topic, state, Event::OffsetRange { min_offset, max_offset }, next, action),
    ensures
        ends_with(next, action, ResponseCode::ProtocolError),
{
}

} // verus!
