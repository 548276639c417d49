use vstd::prelude::*;

use crate::extra_info::{decimal_digits, decimal_string, parse_u64, parse_u64_spec};

verus! {

/// Fields common to every RPC request header.
pub struct RpcRequestHeader {
    pub namespace: Option<String>,
    pub namespaced: Option<bool>,
    pub broker_name: Option<String>,
    pub oneway: Option<bool>,
}

/// Routing fields of a request that targets a topic.
pub struct TopicRequestHeader {
    pub rpc: Option<RpcRequestHeader>,
    pub lo: Option<bool>,
}

/// Request for the committed offset of a consumer group on one queue.
pub struct QueryConsumerOffsetRequestHeader {
    pub consumer_group: String,
    pub topic: String,
    pub queue_id: i32,
    pub set_zero_if_not_found: Option<bool>,
    pub topic_request_header: Option<TopicRequestHeader>,
}

/// The header carries its routing part.
pub open spec fn has_topic_header(h: QueryConsumerOffsetRequestHeader) -> bool {
    h.topic_request_header is Some
}

/// The header carries its routing part and, inside it, the RPC fields.
pub open spec fn has_rpc_header(h: QueryConsumerOffsetRequestHeader) -> bool {
    &&& h.topic_request_header is Some
    &&& h.topic_request_header->Some_0.rpc is Some
}

pub open spec fn rpc_of(h: QueryConsumerOffsetRequestHeader) -> RpcRequestHeader {
    h.topic_request_header->Some_0.rpc->Some_0
}

/// Everything but the routing part is as in `b`.
pub open spec fn same_body(a: QueryConsumerOffsetRequestHeader, b: QueryConsumerOffsetRequestHeader) -> bool {
    &&& a.consumer_group == b.consumer_group
    &&& a.topic == b.topic
    &&& a.queue_id == b.queue_id
    &&& a.set_zero_if_not_found == b.set_zero_if_not_found
}

/// The routing part is as in `b`, but for the RPC fields.
pub open spec fn same_topic_header_but_rpc(
    a: QueryConsumerOffsetRequestHeader,
    b: QueryConsumerOffsetRequestHeader,
) -> bool {
    &&& has_rpc_header(a)
    &&& a.topic_request_header->Some_0.lo == b.topic_request_header->Some_0.lo
}

impl QueryConsumerOffsetRequestHeader {
    pub fn set_lo(&mut self, lo: Option<bool>)
        requires
            has_topic_header(*old(self)),
        ensures
            same_body(*final(self), *old(self)),
            final(self).topic_request_header == Some(
                TopicRequestHeader { lo, rpc: old(self).topic_request_header->Some_0.rpc },
            ),
    {
        if let Some(t) = &mut self.topic_request_header {
            t.lo = lo;
        }
    }

    pub fn lo(&self) -> (r: Option<bool>)
        requires
            has_topic_header(*self),
        ensures
            r == self.topic_request_header->Some_0.lo,
    {
        match &self.topic_request_header {
            Some(t) => t.lo,
            None => None,
        }
    }

    pub fn set_topic(&mut self, topic: String)
        ensures
            final(self).topic == topic,
            final(self).consumer_group == old(self).consumer_group,
            final(self).queue_id == old(self).queue_id,
            final(self).set_zero_if_not_found == old(self).set_zero_if_not_found,
            final(self).topic_request_header == old(self).topic_request_header,
    {
        self.topic = topic;
    }

    pub fn topic(&self) -> (r: &String)
        ensures
            r == self.topic,
    {
        &self.topic
    }

    pub fn queue_id(&self) -> (r: i32)
        ensures
            r == self.queue_id,
    {
        self.queue_id
    }

    pub fn set_queue_id(&mut self, queue_id: i32)
        ensures
            final(self).queue_id == queue_id,
            final(self).consumer_group == old(self).consumer_group,
            final(self).topic == old(self).topic,
            final(self).set_zero_if_not_found == old(self).set_zero_if_not_found,
            final(self).topic_request_header == old(self).topic_request_header,
    {
        self.queue_id = queue_id;
    }

    pub fn broker_name(&self) -> (r: Option<&String>)
        requires
            has_rpc_header(*self),
        ensures
            r == match rpc_of(*self).broker_name {
                Some(b) => Some(&b),
                None => None::<&String>,
            },
    {
        match &self.topic_request_header {
            Some(t) => match &t.rpc {
                Some(rpc) => match &rpc.broker_name {
                    Some(b) => Some(b),
                    None => None,
                },
                None => None,
            },
            None => None,
        }
    }

    pub fn set_broker_name(&mut self, broker_name: String)
        requires
            has_rpc_header(*old(self)),
        ensures
            same_body(*final(self), *old(self)),
            same_topic_header_but_rpc(*final(self), *old(self)),
            rpc_of(*final(self)) == (RpcRequestHeader {
                broker_name: Some(broker_name),
                ..rpc_of(*old(self))
            }),
    {
        if let Some(t) = &mut self.topic_request_header {
            if let Some(rpc) = &mut t.rpc {
                rpc.broker_name = Some(broker_name);
            }
        }
    }

    pub fn namespace(&self) -> (r: Option<&str>)
        requires
            has_rpc_header(*self),
        ensures
            r is Some <==> rpc_of(*self).namespace is Some,
            r is Some ==> r->Some_0@ == rpc_of(*self).namespace->Some_0@,
    {
        match &self.topic_request_header {
            Some(t) => match &t.rpc {
                Some(rpc) => match &rpc.namespace {
                    Some(n) => Some(n.as_str()),
                    None => None,
                },
                None => None,
            },
            None => None,
        }
    }

    pub fn set_namespace(&mut self, namespace: String)
        requires
            has_rpc_header(*old(self)),
        ensures
            same_body(*final(self), *old(self)),
            same_topic_header_but_rpc(*final(self), *old(self)),
            rpc_of(*final(self)) == (RpcRequestHeader {
                namespace: Some(namespace),
                ..rpc_of(*old(self))
            }),
    {
        if let Some(t) = &mut self.topic_request_header {
            if let Some(rpc) = &mut t.rpc {
                rpc.namespace = Some(namespace);
            }
        }
    }

    pub fn namespaced(&self) -> (r: Option<bool>)
        requires
            has_rpc_header(*self),
        ensures
            r == rpc_of(*self).namespaced,
    {
        match &self.topic_request_header {
            Some(t) => match &t.rpc {
                Some(rpc) => rpc.namespaced,
                None => None,
            },
            None => None,
        }
    }

    pub fn set_namespaced(&mut self, namespaced: bool)
        requires
            has_rpc_header(*old(self)),
        ensures
            same_body(*final(self), *old(self)),
            same_topic_header_but_rpc(*final(self), *old(self)),
            rpc_of(*final(self)) == (RpcRequestHeader {
                namespaced: Some(namespaced),
                ..rpc_of(*old(self))
            }),
    {
        if let Some(t) = &mut self.topic_request_header {
            if let Some(rpc) = &mut t.rpc {
                rpc.namespaced = Some(namespaced);
            }
        }
    }

    pub fn oneway(&self) -> (r: Option<bool>)
        requires
            has_rpc_header(*self),
        ensures
            r == rpc_of(*self).oneway,
    {
        match &self.topic_request_header {
            Some(t) => match &t.rpc {
                Some(rpc) => rpc.oneway,
                None => None,
            },
            None => None,
        }
    }

    pub fn set_oneway(&mut self, oneway: bool)
        requires
            has_rpc_header(*old(self)),
        ensures
            same_body(*final(self), *old(self)),
            same_topic_header_but_rpc(*final(self), *old(self)),
            rpc_of(*final(self)) == (RpcRequestHeader {
                oneway: Some(oneway),
                ..rpc_of(*old(self))
            }),
    {
        if let Some(t) = &mut self.topic_request_header {
            if let Some(rpc) = &mut t.rpc {
                rpc.oneway = Some(oneway);
            }
        }
    }
}

/// Header fields as text, keyed by their wire names.
pub type Entries = Seq<(Seq<char>, Seq<char>)>;

pub open spec fn entries_view(v: Seq<(String, String)>) -> Entries {
    v.map_values(|p: (String, String)| (p.0@, p.1@))
}

pub open spec fn bool_text(b: bool) -> Seq<char> {
    if b {
        "true"@
    } else {
        "false"@
    }
}

/// Decimal form of an integer, with a leading `-` when it is negative.
pub open spec fn signed_decimal(i: int) -> Seq<char> {
    if i < 0 {
        seq!['-'] + decimal_digits((-i) as nat)
    } else {
        decimal_digits(i as nat)
    }
}

pub open spec fn opt_text_entry(key: Seq<char>, v: Option<String>) -> Entries {
    match v {
        Some(x) => seq![(key, x@)],
        None => Seq::empty(),
    }
}

pub open spec fn opt_bool_entry(key: Seq<char>, v: Option<bool>) -> Entries {
    match v {
        Some(b) => seq![(key, bool_text(b))],
        None => Seq::empty(),
    }
}

pub open spec fn rpc_entries(r: Option<RpcRequestHeader>) -> Entries {
    match r {
        Some(r) => opt_text_entry("namespace"@, r.namespace) + opt_bool_entry(
            "namespaced"@,
            r.namespaced,
        ) + opt_text_entry("brokerName"@, r.broker_name) + opt_bool_entry("oneway"@, r.oneway),
        None => Seq::empty(),
    }
}

pub open spec fn topic_header_entries(t: Option<TopicRequestHeader>) -> Entries {
    match t {
        Some(t) => opt_bool_entry("lo"@, t.lo) + rpc_entries(t.rpc),
        None => Seq::empty(),
    }
}

/// The entries that a header is sent as.
pub open spec fn header_entries(h: QueryConsumerOffsetRequestHeader) -> Entries {
    seq![
        ("consumerGroup"@, h.consumer_group@),
        ("topic"@, h.topic@),
        ("queueId"@, signed_decimal(h.queue_id as int)),
    ] + opt_bool_entry("setZeroIfNotFound"@, h.set_zero_if_not_found) + topic_header_entries(
        h.topic_request_header,
    )
}

/// Value of the first entry with this key.
pub open spec fn lookup(e: Entries, key: Seq<char>) -> Option<Seq<char>>
    decreases e.len(),
{
    if e.len() == 0 {
        None
    } else if e[0].0 == key {
        Some(e[0].1)
    } else {
        lookup(e.drop_first(), key)
    }
}

pub open spec fn parse_bool_spec(s: Seq<char>) -> Option<bool> {
    if s == "true"@ {
        Some(true)
    } else if s == "false"@ {
        Some(false)
    } else {
        None
    }
}

/// An `i32` in decimal, with an optional sign.
pub open spec fn parse_signed_i32_spec(s: Seq<char>) -> Option<i32> {
    if s.len() > 0 && (s[0] == '-' || s[0] == '+') {
        match parse_u64_spec(s.drop_first()) {
            Some(v) => if s[0] == '-' && v <= 0x8000_0000 {
                Some((-v) as i32)
            } else if s[0] == '+' && v <= i32::MAX {
                Some(v as i32)
            } else {
                None
            },
            None => None,
        }
    } else {
        match parse_u64_spec(s) {
            Some(v) => if v <= i32::MAX {
                Some(v as i32)
            } else {
                None
            },
            None => None,
        }
    }
}

pub open spec fn text_or_empty(v: Option<Seq<char>>) -> Seq<char> {
    match v {
        Some(t) => t,
        None => Seq::empty(),
    }
}

pub open spec fn bool_of(v: Option<Seq<char>>) -> Option<bool> {
    match v {
        Some(t) => parse_bool_spec(t),
        None => None,
    }
}

/// A `queueId` entry that is present and is no `i32`.
#[derive(Debug, Clone, Copy, PartialEq, Eq)]
pub enum QueryHeaderError {
    QueueIdMalformed,
}

/// What a header read from entries `e` holds: missing texts are empty, a
/// missing queue id is zero, and boolean fields that are not `true` or
/// `false` are unset.
pub open spec fn header_from(e: Entries, h: QueryConsumerOffsetRequestHeader) -> bool {
    &&& h.consumer_group@ == text_or_empty(lookup(e, "consumerGroup"@))
    &&& h.topic@ == text_or_empty(lookup(e, "topic"@))
    &&& h.queue_id == match lookup(e, "queueId"@) {
        Some(t) => parse_signed_i32_spec(t)->Some_0,
        None => 0,
    }
    &&& h.set_zero_if_not_found == bool_of(lookup(e, "setZeroIfNotFound"@))
    &&& h.topic_request_header is Some
    &&& h.topic_request_header->Some_0.lo == bool_of(lookup(e, "lo"@))
    &&& h.topic_request_header->Some_0.rpc is Some
    &&& {
        let r = h.topic_request_header->Some_0.rpc->Some_0;
        &&& r.namespaced == bool_of(lookup(e, "namespaced"@))
        &&& r.oneway == bool_of(lookup(e, "oneway"@))
        &&& (r.namespace is Some <==> lookup(e, "namespace"@) is Some)
        &&& r.namespace is Some ==> r.namespace->Some_0@ == lookup(e, "namespace"@)->Some_0
        &&& (r.broker_name is Some <==> lookup(e, "brokerName"@) is Some)
        &&& r.broker_name is Some ==> r.broker_name->Some_0@ == lookup(e, "brokerName"@)->Some_0
    }
}

fn bool_string(b: bool) -> (r: String)
    ensures
        r@ == bool_text(b),
{
    if b {
        String::from_str("true")
    } else {
        String::from_str("false")
    }
}

fn signed_decimal_string(i: i32) -> (r: String)
    ensures
        r@ == signed_decimal(i as int),
{
    if i < 0 {
        let mut s = String::from_str("-");
        let d = decimal_string((-(i as i64)) as u64);
        s.append(d.as_str());
        proof {
            reveal_strlit("-");
        }
        s
    } else {
        decimal_string(i as u64)
    }
}

fn push_entry(v: &mut Vec<(String, String)>, key: &str, value: String)
    ensures
        entries_view(final(v)@) == entries_view(old(v)@) + seq![(key@, value@)],
{
    v.push((String::from_str(key), value));
    assert(entries_view(final(v)@) =~= entries_view(old(v)@) + seq![(key@, value@)]);
}

fn push_opt_text(v: &mut Vec<(String, String)>, key: &str, value: &Option<String>)
    ensures
        entries_view(final(v)@) == entries_view(old(v)@) + opt_text_entry(key@, *value),
{
    match value {
        Some(x) => push_entry(v, key, x.clone()),
        None => {
            assert(entries_view(v@) =~= entries_view(v@) + Seq::<(Seq<char>, Seq<char>)>::empty());
        },
    }
}

fn push_opt_bool(v: &mut Vec<(String, String)>, key: &str, value: Option<bool>)
    ensures
        entries_view(final(v)@) == entries_view(old(v)@) + opt_bool_entry(key@, value),
{
    match value {
        Some(b) => push_entry(v, key, bool_string(b)),
        None => {
            assert(entries_view(v@) =~= entries_view(v@) + Seq::<(Seq<char>, Seq<char>)>::empty());
        },
    }
}

/// First value stored under `key`.
fn find_entry(e: &Vec<(String, String)>, key: &str) -> (r: Option<String>)
    ensures
        r is Some <==> lookup(entries_view(e@), key@) is Some,
        r is Some ==> r->Some_0@ == lookup(entries_view(e@), key@)->Some_0,
{
    let k = String::from_str(key);
    let mut i: usize = 0;
    assert(entries_view(e@).subrange(0, e@.len() as int) =~= entries_view(e@));
    while i < e.len()
        invariant
            i <= e@.len(),
            k@ == key@,
            lookup(entries_view(e@), key@) == lookup(entries_view(e@).subrange(i as int, e@.len() as int), key@),
        decreases e.len() - i,
    {
        let ghost rest = entries_view(e@).subrange(i as int, e@.len() as int);
        assert(rest.drop_first() =~= entries_view(e@).subrange(i + 1, e@.len() as int));
        if e[i].0 == k {
            return Some(e[i].1.clone());
        }
        i = i + 1;
    }
    None
}

fn parse_bool_text(t: &Option<String>) -> (r: Option<bool>)
    ensures
        r == match t {
            Some(s) => parse_bool_spec(s@),
            None => None,
        },
{
    match t {
        Some(s) => {
            if *s == String::from_str("true") {
                Some(true)
            } else if *s == String::from_str("false") {
                Some(false)
            } else {
                None
            }
        },
        None => None,
    }
}

fn parse_signed_i32(s: &str) -> (r: Option<i32>)
    ensures
        r == parse_signed_i32_spec(s@),
{
    let len = s.unicode_len();
    if len > 0 {
        let c = s.get_char(0);
        if c == '-' || c == '+' {
            let digits = s.substring_char(1, len);
            assert(digits@ =~= s@.drop_first());
            return match parse_u64(digits) {
                Some(v) => if c == '-' && v <= 0x8000_0000 {
                    Some((-(v as i64)) as i32)
                } else if c == '+' && v <= i32::MAX as u64 {
                    Some(v as i32)
                } else {
                    None
                },
                None => None,
            };
        }
    }
    match parse_u64(s) {
        Some(v) => if v <= i32::MAX as u64 {
            Some(v as i32)
        } else {
            None
        },
        None => None,
    }
}

impl QueryConsumerOffsetRequestHeader {
    /// The header as key/value text entries.
    pub fn to_map(&self) -> (r: Vec<(String, String)>)
        ensures
            entries_view(r@) =~= header_entries(*self),
    {
        let mut v: Vec<(String, String)> = Vec::new();
        assert(entries_view(v@) =~= Seq::<(Seq<char>, Seq<char>)>::empty());
        push_entry(&mut v, "consumerGroup", self.consumer_group.clone());
        push_entry(&mut v, "topic", self.topic.clone());
        push_entry(&mut v, "queueId", signed_decimal_string(self.queue_id));
        push_opt_bool(&mut v, "setZeroIfNotFound", self.set_zero_if_not_found);
        match &self.topic_request_header {
            Some(t) => {
                push_opt_bool(&mut v, "lo", t.lo);
                match &t.rpc {
                    Some(r) => {
                        push_opt_text(&mut v, "namespace", &r.namespace);
                        push_opt_bool(&mut v, "namespaced", r.namespaced);
                        push_opt_text(&mut v, "brokerName", &r.broker_name);
                        push_opt_bool(&mut v, "oneway", r.oneway);
                    },
                    None => {},
                }
            },
            None => {},
        }
        v
    }

    /// Reads a header from key/value text entries.
    pub fn from(map: &Vec<(String, String)>) -> (r: Result<Self, QueryHeaderError>)
        ensures
            r is Err <==> (lookup(entries_view(map@), "queueId"@) is Some && parse_signed_i32_spec(
                lookup(entries_view(map@), "queueId"@)->Some_0,
            ) is None),
            r matches Ok(h) ==> header_from(entries_view(map@), h),
    {
        let queue_id = match find_entry(map, "queueId") {
            Some(t) => match parse_signed_i32(t.as_str()) {
                Some(q) => q,
                None => return Err(QueryHeaderError::QueueIdMalformed),
            },
            None => 0,
        };
        let consumer_group = match find_entry(map, "consumerGroup") {
            Some(t) => t,
            None => String::new(),
        };
        let topic = match find_entry(map, "topic") {
            Some(t) => t,
            None => String::new(),
        };
        let set_zero_if_not_found = parse_bool_text(&find_entry(map, "setZeroIfNotFound"));
        let rpc = RpcRequestHeader {
            namespace: find_entry(map, "namespace"),
            namespaced: parse_bool_text(&find_entry(map, "namespaced")),
            broker_name: find_entry(map, "brokerName"),
            oneway: parse_bool_text(&find_entry(map, "oneway")),
        };
        let topic_request_header = TopicRequestHeader {
            rpc: Some(rpc),
            lo: parse_bool_text(&find_entry(map, "lo")),
        };
        Ok(
            QueryConsumerOffsetRequestHeader {
                consumer_group,
                topic,
                queue_id,
                set_zero_if_not_found,
                topic_request_header: Some(topic_request_header),
            },
        )
    }
}

} // verus!
