use vstd::prelude::*;

use crate::extra_info::{decimal_digits, decimal_string};

verus! {

/// Outcome of a durable append to the message store.
#[derive(Debug, Clone, Copy, PartialEq, Eq, Structural)]
pub enum PutMessageStatus {
    PutOk,
    FlushDiskTimeout,
    FlushSlaveTimeout,
    SlaveNotAvailable,
    ServiceNotAvailable,
    CreateMappedFileFailed,
    MessageIllegal,
    PropertiesSizeExceeded,
    OsPageCacheBusy,
    UnknownError,
    InSyncReplicasNotEnough,
    PutToRemoteBrokerFail,
    LmqConsumeQueueNumExceeded,
    WheelTimerFlowControl,
    WheelTimerMsgIllegal,
    WheelTimerNotEnable,
}

/// Success, or success whose durability is degraded (a flush or replication
/// timeout, a replica that is not available).
pub open spec fn is_durable_enough(s: PutMessageStatus) -> bool {
    s == PutMessageStatus::PutOk || s == PutMessageStatus::FlushDiskTimeout || s
        == PutMessageStatus::FlushSlaveTimeout || s == PutMessageStatus::SlaveNotAvailable
}

impl PutMessageStatus {
    /// Whether a checkpoint write with this outcome lets the request go on.
    pub fn checkpoint_accepted(&self) -> (r: bool)
        ensures
            r == is_durable_enough(*self),
    {
        match self {
            PutMessageStatus::PutOk
            | PutMessageStatus::FlushDiskTimeout
            | PutMessageStatus::FlushSlaveTimeout
            | PutMessageStatus::SlaveNotAvailable => true,
            _ => false,
        }
    }

    /// Whether an acknowledgment write with this outcome needs no error report;
    /// an unavailable service is tolerated there as well.
    pub fn ack_accepted(&self) -> (r: bool)
        ensures
            r == (is_durable_enough(*self) || *self == PutMessageStatus::ServiceNotAvailable),
    {
        match self {
            PutMessageStatus::PutOk
            | PutMessageStatus::FlushDiskTimeout
            | PutMessageStatus::FlushSlaveTimeout
            | PutMessageStatus::SlaveNotAvailable
            | PutMessageStatus::ServiceNotAvailable => true,
            _ => false,
        }
    }
}

/// Acknowledgment of the delivery that a checkpoint stands for.
pub struct AckMsg {
    pub ack_offset: u64,
    pub start_offset: u64,
    pub consumer_group: String,
    pub topic: String,
    pub queue_id: i32,
    pub pop_time: u64,
    pub broker_name: String,
}

/// A message kept invisible until `pop_time + invisible_time`, to be revived
/// through queue `revive_queue_id` unless an acknowledgment comes first.
pub struct CheckpointRecord {
    pub consumer_group: String,
    pub topic: String,
    pub queue_id: i32,
    pub start_offset: u64,
    pub pop_time: u64,
    pub invisible_time: u64,
    pub revive_queue_id: i32,
    pub broker_name: String,
}

/// An acknowledgment written to the revive topic because the merge buffer
/// declined it. The store delivers it no earlier than `deliver_time_ms`.
pub struct ReviveAckMessage {
    pub topic: String,
    pub tags: String,
    pub queue_id: i32,
    pub deliver_time_ms: u64,
    pub unique_key: String,
    pub ack: AckMsg,
}

/// Prefix of the cluster-wide revive topic.
pub open spec fn revive_topic_prefix() -> Seq<char> {
    "rmq_sys_REVIVE_LOG_"@
}

/// The revive topic of a cluster.
pub open spec fn revive_topic_of(cluster_name: Seq<char>) -> Seq<char> {
    revive_topic_prefix() + cluster_name
}

/// Tag that marks an acknowledgment on the revive topic.
pub open spec fn ack_tag() -> Seq<char> {
    "ack"@
}

/// Key that identifies an acknowledgment, for idempotent handling downstream:
/// topic, queue id, acknowledged offset, group, pop time, broker name and the
/// acknowledgment tag, joined by `@`.
pub open spec fn ack_unique_key(
    topic: Seq<char>,
    queue_id: nat,
    ack_offset: nat,
    consumer_group: Seq<char>,
    pop_time: nat,
    broker_name: Seq<char>,
) -> Seq<char> {
    topic + seq!['@'] + decimal_digits(queue_id) + seq!['@'] + decimal_digits(ack_offset) + seq![
        '@',
    ] + consumer_group + seq!['@'] + decimal_digits(pop_time) + seq!['@'] + broker_name + seq![
        '@',
    ] + ack_tag()
}

/// Name of the revive topic for a cluster.
pub fn build_cluster_revive_topic(cluster_name: &str) -> (r: String)
    ensures
        r@ == revive_topic_of(cluster_name@),
{
    let mut t = String::from_str("rmq_sys_REVIVE_LOG_");
    t.append(cluster_name);
    t
}

impl AckMsg {
    /// Key that identifies this acknowledgment; queue ids are non-negative.
    pub fn unique_key(&self) -> (r: String)
        requires
            self.queue_id >= 0,
        ensures
            r@ == ack_unique_key(
                self.topic@,
                self.queue_id as nat,
                self.ack_offset as nat,
                self.consumer_group@,
                self.pop_time as nat,
                self.broker_name@,
            ),
    {
        let mut k = self.topic.clone();
        k.append("@");
        let q = decimal_string(self.queue_id as u64);
        k.append(q.as_str());
        k.append("@");
        let o = decimal_string(self.ack_offset);
        k.append(o.as_str());
        k.append("@");
        k.append(self.consumer_group.as_str());
        k.append("@");
        let p = decimal_string(self.pop_time);
        k.append(p.as_str());
        k.append("@");
        k.append(self.broker_name.as_str());
        k.append("@");
        k.append("ack");
        proof {
            reveal_strlit("@");
            reveal_strlit("ack");
        }
        k
    }
}

} // verus!
