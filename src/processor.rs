use vstd::prelude::*;

use crate::extra_info::{decode_extra_info, decode_spec, ExtraInfo, POP_ORDER_REVIVE_QUEUE};
use crate::records::{
    ack_tag, ack_unique_key, build_cluster_revive_topic, is_durable_enough, revive_topic_of,
    AckMsg, CheckpointRecord, PutMessageStatus, ReviveAckMessage,
};

verus! {

/// A request to extend how long a popped message stays invisible.
pub struct ChangeInvisibleTimeRequestHeader {
    pub consumer_group: String,
    pub topic: String,
    pub queue_id: i32,
    pub offset: u64,
    pub invisible_time: u64,
    pub extra_info: String,
}

/// What a successful extension reports back to the consumer.
#[derive(Debug, Clone, Copy, PartialEq, Eq, Structural)]
pub struct ChangeInvisibleTimeResponseHeader {
    pub pop_time: u64,
    pub revive_qid: i32,
    pub invisible_time: u64,
}

/// Status code of the one response that each request gets.
#[derive(Debug, Clone, Copy, PartialEq, Eq, Structural)]
pub enum ResponseCode {
    Success,
    TopicNotExist,
    MessageIllegal,
    NoMessage,
    SystemError,
    ProtocolError,
}

/// The one response that ends a request.
#[derive(Debug, Clone, Copy, PartialEq, Eq, Structural)]
pub enum Reply {
    Changed(ChangeInvisibleTimeResponseHeader),
    TopicNotExist,
    QueueIdIllegal { read_queue_nums: u32 },
    OffsetOutOfRange { min_offset: u64, max_offset: u64 },
    ExtraInfoIllegal,
    CheckpointFailed(PutMessageStatus),
}

impl Reply {
    pub open spec fn code_spec(&self) -> ResponseCode {
        match self {
            Reply::Changed(_) => ResponseCode::Success,
            Reply::TopicNotExist => ResponseCode::TopicNotExist,
            Reply::QueueIdIllegal { .. } => ResponseCode::MessageIllegal,
            Reply::OffsetOutOfRange { .. } => ResponseCode::NoMessage,
            Reply::ExtraInfoIllegal => ResponseCode::ProtocolError,
            Reply::CheckpointFailed(_) => ResponseCode::SystemError,
        }
    }

    pub fn code(&self) -> (r: ResponseCode)
        ensures
            r == self.code_spec(),
    {
        match self {
            Reply::Changed(_) => ResponseCode::Success,
            Reply::TopicNotExist => ResponseCode::TopicNotExist,
            Reply::QueueIdIllegal { .. } => ResponseCode::MessageIllegal,
            Reply::OffsetOutOfRange { .. } => ResponseCode::NoMessage,
            Reply::ExtraInfoIllegal => ResponseCode::ProtocolError,
            Reply::CheckpointFailed(_) => ResponseCode::SystemError,
        }
    }
}

/// Where a request stands between two calls into the broker's collaborators.
pub enum Phase {
    AwaitingTopicConfig,
    AwaitingOffsetRange,
    AwaitingClock { info: ExtraInfo },
    AwaitingCheckpoint { info: ExtraInfo, now: u64 },
    AwaitingAckOffer { info: ExtraInfo, now: u64 },
    AwaitingAckStored { info: ExtraInfo, now: u64 },
    Finished,
}

/// A request and where its handling stands.
pub struct Handling {
    pub request: ChangeInvisibleTimeRequestHeader,
    pub phase: Phase,
}

/// What a collaborator reported back.
pub enum Event {
    /// The read queue count of the request's topic, if the topic exists.
    TopicConfig(Option<u32>),
    /// The live offsets of the request's queue.
    OffsetRange { min_offset: u64, max_offset: u64 },
    /// The current time in milliseconds.
    Clock(u64),
    /// The outcome of the checkpoint append.
    CheckpointStored(PutMessageStatus),
    /// Whether the ack-merge buffer took the acknowledgment.
    AckOffered(bool),
    /// The outcome of writing the acknowledgment to the revive topic.
    AckStored(PutMessageStatus),
}

/// What the broker is to do next for a request.
pub enum Action {
    /// Look up the topic's configuration and report `Event::TopicConfig`.
    LookUpTopic,
    /// Query the queue's live offsets and report `Event::OffsetRange`.
    QueryOffsetRange,
    /// Hand the request to the ordered-consumption path, which answers it.
    DelegateOrder(ExtraInfo),
    /// Read the clock and report `Event::Clock`.
    ReadClock,
    /// Append the checkpoint and report `Event::CheckpointStored`.
    AppendCheckpoint(CheckpointRecord),
    /// Count the acknowledgment, offer it to the merge buffer under the revive
    /// queue id, and report `Event::AckOffered`.
    OfferAck { revive_qid: i32, ack: AckMsg },
    /// Write the acknowledgment to the revive topic and report `Event::AckStored`.
    PutAckMessage(ReviveAckMessage),
    /// Send the response; the request is then finished.
    Respond(Reply),
}

/// Whether `e` is the event that phase `p` waits for.
pub open spec fn awaits(p: Phase, e: Event) -> bool {
    match (p, e) {
        (Phase::AwaitingTopicConfig, Event::TopicConfig(_)) => true,
        (Phase::AwaitingOffsetRange, Event::OffsetRange { .. }) => true,
        (Phase::AwaitingClock { .. }, Event::Clock(_)) => true,
        (Phase::AwaitingCheckpoint { .. }, Event::CheckpointStored(_)) => true,
        (Phase::AwaitingAckOffer { .. }, Event::AckOffered(_)) => true,
        (Phase::AwaitingAckStored { .. }, Event::AckStored(_)) => true,
        _ => false,
    }
}

/// The acknowledgment of the original delivery.
pub open spec fn is_ack_of(a: AckMsg, req: ChangeInvisibleTimeRequestHeader, info: ExtraInfo) -> bool {
    &&& a.ack_offset == req.offset
    &&& a.start_offset == info.checkpoint_queue_offset
    &&& a.consumer_group@ == req.consumer_group@
    &&& a.topic@ == req.topic@
    &&& a.queue_id == req.queue_id
    &&& a.pop_time == info.pop_time
    &&& a.broker_name@ == info.broker_name@
}

/// The checkpoint that keeps the message invisible from `now` on.
pub open spec fn is_checkpoint_of(
    c: CheckpointRecord,
    req: ChangeInvisibleTimeRequestHeader,
    info: ExtraInfo,
    now: u64,
) -> bool {
    &&& c.consumer_group@ == req.consumer_group@
    &&& c.topic@ == req.topic@
    &&& c.queue_id == req.queue_id
    &&& c.start_offset == req.offset
    &&& c.pop_time == now
    &&& c.invisible_time == req.invisible_time
    &&& c.revive_queue_id == info.revive_queue_id
    &&& c.broker_name@ == info.broker_name@
}

/// When the acknowledgment becomes visible on the revive topic: when the
/// original invisibility ends, or the latest time that a `u64` holds.
pub open spec fn ack_deliver_time(info: ExtraInfo) -> u64 {
    if info.pop_time + info.invisible_time <= u64::MAX {
        (info.pop_time + info.invisible_time) as u64
    } else {
        u64::MAX
    }
}

/// The acknowledgment written to the revive topic when the buffer declines it.
pub open spec fn is_ack_message_of(
    m: ReviveAckMessage,
    revive_topic: Seq<char>,
    req: ChangeInvisibleTimeRequestHeader,
    info: ExtraInfo,
) -> bool {
    &&& m.topic@ == revive_topic
    &&& m.tags@ == ack_tag()
    &&& m.queue_id == info.revive_queue_id
    &&& m.deliver_time_ms == ack_deliver_time(info)
    &&& is_ack_of(m.ack, req, info)
    &&& m.unique_key@ == ack_unique_key(
        req.topic@,
        req.queue_id as nat,
        req.offset as nat,
        req.consumer_group@,
        info.pop_time as nat,
        info.broker_name@,
    )
}

/// The response of an extension whose checkpoint was taken at `now`.
pub open spec fn changed_reply(req: ChangeInvisibleTimeRequestHeader, info: ExtraInfo, now: u64) -> Reply {
    Reply::Changed(
        ChangeInvisibleTimeResponseHeader {
            pop_time: now,
            revive_qid: info.revive_queue_id,
            invisible_time: req.invisible_time,
        },
    )
}

/// The request passed the topic and queue checks, so its queue id is valid.
pub open spec fn queue_id_checked(h: Handling) -> bool {
    match h.phase {
        Phase::AwaitingTopicConfig => true,
        Phase::Finished => true,
        _ => h.request.queue_id >= 0,
    }
}

/// Topic lookup: an unknown topic or a queue id outside `[0, read_queue_nums)`
/// ends the request; otherwise the queue's offsets are queried.
pub open spec fn after_topic_config(
    req: ChangeInvisibleTimeRequestHeader,
    cfg: Option<u32>,
    next: Phase,
    action: Action,
) -> bool {
    match cfg {
        None => next is Finished && action == Action::Respond(Reply::TopicNotExist),
        Some(n) => if req.queue_id < 0 || req.queue_id as int >= n as int {
            next is Finished && action == Action::Respond(Reply::QueueIdIllegal { read_queue_nums: n })
        } else {
            next is AwaitingOffsetRange && action is QueryOffsetRange
        },
    }
}

/// Offset check and decoding: an offset outside `[min, max]` or an extra-info
/// string that does not decode ends the request; an ordered pop is delegated;
/// otherwise the clock is read for the new checkpoint.
pub open spec fn after_offset_range(
    req: ChangeInvisibleTimeRequestHeader,
    min_offset: u64,
    max_offset: u64,
    next: Phase,
    action: Action,
) -> bool {
    if req.offset < min_offset || req.offset > max_offset {
        next is Finished && action == Action::Respond(Reply::OffsetOutOfRange { min_offset, max_offset })
    } else {
        match decode_spec(req.extra_info@) {
            None => next is Finished && action == Action::Respond(Reply::ExtraInfoIllegal),
            Some(m) => if m.revive_queue_id == POP_ORDER_REVIVE_QUEUE {
                next is Finished && (action matches Action::DelegateOrder(info) && info@ == m)
            } else {
                (next matches Phase::AwaitingClock { info } && info@ == m) && action is ReadClock
            },
        }
    }
}

/// The new checkpoint is taken at `now`.
pub open spec fn after_clock(
    req: ChangeInvisibleTimeRequestHeader,
    info: ExtraInfo,
    now: u64,
    next: Phase,
    action: Action,
) -> bool {
    &&& next matches Phase::AwaitingCheckpoint { info: i, now: t } && i@ == info@ && t == now
    &&& action matches Action::AppendCheckpoint(c) && is_checkpoint_of(c, req, info, now)
}

/// A checkpoint that is not durable enough ends the request with its status,
/// before any acknowledgment; otherwise the acknowledgment is offered to the
/// merge buffer.
pub open spec fn after_checkpoint(
    req: ChangeInvisibleTimeRequestHeader,
    info: ExtraInfo,
    now: u64,
    status: PutMessageStatus,
    next: Phase,
    action: Action,
) -> bool {
    if is_durable_enough(status) {
        &&& next matches Phase::AwaitingAckOffer { info: i, now: t } && i@ == info@ && t == now
        &&& action matches Action::OfferAck { revive_qid, ack } && revive_qid
            == info.revive_queue_id && is_ack_of(ack, req, info)
    } else {
        next is Finished && action == Action::Respond(Reply::CheckpointFailed(status))
    }
}

/// A buffered acknowledgment needs no message; a declined one is written to
/// the revive topic once.
pub open spec fn after_ack_offer(
    revive_topic: Seq<char>,
    req: ChangeInvisibleTimeRequestHeader,
    info: ExtraInfo,
    now: u64,
    accepted: bool,
    next: Phase,
    action: Action,
) -> bool {
    if accepted {
        next is Finished && action == Action::Respond(changed_reply(req, info, now))
    } else {
        &&& next matches Phase::AwaitingAckStored { info: i, now: t } && i@ == info@ && t == now
        &&& action matches Action::PutAckMessage(m) && is_ack_message_of(m, revive_topic, req, info)
    }
}

/// One step of the handler.
pub open spec fn transition(
    revive_topic: Seq<char>,
    state: Handling,
    event: Event,
    next: Handling,
    action: Action,
) -> bool {
    &&& next.request == state.request
    &&& match (state.phase, event) {
        (Phase::AwaitingTopicConfig, Event::TopicConfig(cfg)) => after_topic_config(
            state.request,
            cfg,
            next.phase,
            action,
        ),
        (Phase::AwaitingOffsetRange, Event::OffsetRange { min_offset, max_offset }) => after_offset_range(
            state.request,
            min_offset,
            max_offset,
            next.phase,
            action,
        ),
        (Phase::AwaitingClock { info }, Event::Clock(now)) => after_clock(
            state.request,
            info,
            now,
            next.phase,
            action,
        ),
        (Phase::AwaitingCheckpoint { info, now }, Event::CheckpointStored(status)) => after_checkpoint(
            state.request,
            info,
            now,
            status,
            next.phase,
            action,
        ),
        (Phase::AwaitingAckOffer { info, now }, Event::AckOffered(accepted)) => after_ack_offer(
            revive_topic,
            state.request,
            info,
            now,
            accepted,
            next.phase,
            action,
        ),
        (Phase::AwaitingAckStored { info, now }, Event::AckStored(_)) => next.phase is Finished
            && action == Action::Respond(changed_reply(state.request, info, now)),
        _ => false,
    }
}

/// The acknowledgment of the delivery that `info` describes.
fn ack_of(req: &ChangeInvisibleTimeRequestHeader, info: &ExtraInfo) -> (r: AckMsg)
    ensures
        is_ack_of(r, *req, *info),
{
    AckMsg {
        ack_offset: req.offset,
        start_offset: info.checkpoint_queue_offset,
        consumer_group: req.consumer_group.clone(),
        topic: req.topic.clone(),
        queue_id: req.queue_id,
        pop_time: info.pop_time,
        broker_name: info.broker_name.clone(),
    }
}

fn changed(req: &ChangeInvisibleTimeRequestHeader, info: &ExtraInfo, now: u64) -> (r: Reply)
    ensures
        r == changed_reply(*req, *info, now),
{
    Reply::Changed(
        ChangeInvisibleTimeResponseHeader {
            pop_time: now,
            revive_qid: info.revive_queue_id,
            invisible_time: req.invisible_time,
        },
    )
}

/// Decisions of the change-invisible-time handler. The broker performs each
/// action it returns and reports the outcome as the next event.
pub struct ChangeInvisibleTimeProcessor {
    pub revive_topic: String,
}

impl ChangeInvisibleTimeProcessor {
    pub fn new(cluster_name: &str) -> (r: Self)
        ensures
            r.revive_topic@ == revive_topic_of(cluster_name@),
    {
        ChangeInvisibleTimeProcessor { revive_topic: build_cluster_revive_topic(cluster_name) }
    }

    /// Starts handling a request: its topic is looked up first.
    pub fn process_request(&self, request: ChangeInvisibleTimeRequestHeader) -> (r: (
        Handling,
        Action,
    ))
        ensures
            r.0.request == request,
            r.0.phase is AwaitingTopicConfig,
            r.1 is LookUpTopic,
            queue_id_checked(r.0),
    {
        (Handling { request, phase: Phase::AwaitingTopicConfig }, Action::LookUpTopic)
    }

    /// Takes one step: consumes the collaborator's report and says what to do next.
    pub fn on_event(&self, state: Handling, event: Event) -> (r: (Handling, Action))
        requires
            awaits(state.phase, event),
            queue_id_checked(state),
        ensures
            transition(self.revive_topic@, state, event, r.0, r.1),
            queue_id_checked(r.0),
    {
        let Handling { request, phase } = state;
        match (phase, event) {
            (Phase::AwaitingTopicConfig, Event::TopicConfig(cfg)) => {
                let action = match cfg {
                    None => Action::Respond(Reply::TopicNotExist),
                    Some(n) => {
                        if request.queue_id < 0 || request.queue_id as i64 >= n as i64 {
                            Action::Respond(Reply::QueueIdIllegal { read_queue_nums: n })
                        } else {
                            let next = Phase::AwaitingOffsetRange;
                            return (Handling { request, phase: next }, Action::QueryOffsetRange);
                        }
                    },
                };
                (Handling { request, phase: Phase::Finished }, action)
            },
            (Phase::AwaitingOffsetRange, Event::OffsetRange { min_offset, max_offset }) => {
                if request.offset < min_offset || request.offset > max_offset {
                    let reply = Reply::OffsetOutOfRange { min_offset, max_offset };
                    return (Handling { request, phase: Phase::Finished }, Action::Respond(reply));
                }
                match decode_extra_info(request.extra_info.as_str()) {
                    Err(_) => {
                        let action = Action::Respond(Reply::ExtraInfoIllegal);
                        (Handling { request, phase: Phase::Finished }, action)
                    },
                    Ok(info) => {
                        if info.is_order() {
                            (Handling { request, phase: Phase::Finished }, Action::DelegateOrder(info))
                        } else {
                            let next = Phase::AwaitingClock { info };
                            (Handling { request, phase: next }, Action::ReadClock)
                        }
                    },
                }
            },
            (Phase::AwaitingClock { info }, Event::Clock(now)) => {
                let ck = CheckpointRecord {
                    consumer_group: request.consumer_group.clone(),
                    topic: request.topic.clone(),
                    queue_id: request.queue_id,
                    start_offset: request.offset,
                    pop_time: now,
                    invisible_time: request.invisible_time,
                    revive_queue_id: info.revive_queue_id,
                    broker_name: info.broker_name.clone(),
                };
                let next = Phase::AwaitingCheckpoint { info, now };
                (Handling { request, phase: next }, Action::AppendCheckpoint(ck))
            },
            (Phase::AwaitingCheckpoint { info, now }, Event::CheckpointStored(status)) => {
                if !status.checkpoint_accepted() {
                    let action = Action::Respond(Reply::CheckpointFailed(status));
                    return (Handling { request, phase: Phase::Finished }, action);
                }
                let ack = ack_of(&request, &info);
                let revive_qid = info.revive_queue_id;
                let next = Phase::AwaitingAckOffer { info, now };
                (Handling { request, phase: next }, Action::OfferAck { revive_qid, ack })
            },
            (Phase::AwaitingAckOffer { info, now }, Event::AckOffered(accepted)) => {
                if accepted {
                    let reply = changed(&request, &info, now);
                    return (Handling { request, phase: Phase::Finished }, Action::Respond(reply));
                }
                let ack = ack_of(&request, &info);
                let unique_key = ack.unique_key();
                let message = ReviveAckMessage {
                    topic: self.revive_topic.clone(),
                    tags: String::from_str("ack"),
                    queue_id: info.revive_queue_id,
                    deliver_time_ms: info.pop_time.saturating_add(info.invisible_time),
                    unique_key,
                    ack,
                };
                proof {
                    reveal_strlit("ack");
                }
                let next = Phase::AwaitingAckStored { info, now };
                (Handling { request, phase: next }, Action::PutAckMessage(message))
            },
            (Phase::AwaitingAckStored { info, now }, Event::AckStored(_)) => {
                let reply = changed(&request, &info, now);
                (Handling { request, phase: Phase::Finished }, Action::Respond(reply))
            },
            (_, _) => {
                proof {
                    assert(false);
                }
                (Handling { request, phase: Phase::Finished }, Action::Respond(Reply::ExtraInfoIllegal))
            },
        }
    }

    /// Whether `event` is what `state` waits for.
    pub fn expects(state: &Handling, event: &Event) -> (r: bool)
        ensures
            r == awaits(state.phase, *event),
    {
        match (&state.phase, event) {
            (Phase::AwaitingTopicConfig, Event::TopicConfig(_)) => true,
            (Phase::AwaitingOffsetRange, Event::OffsetRange { .. }) => true,
            (Phase::AwaitingClock { .. }, Event::Clock(_)) => true,
            (Phase::AwaitingCheckpoint { .. }, Event::CheckpointStored(_)) => true,
            (Phase::AwaitingAckOffer { .. }, Event::AckOffered(_)) => true,
            (Phase::AwaitingAckStored { .. }, Event::AckStored(_)) => true,
            _ => false,
        }
    }
}

} // verus!
