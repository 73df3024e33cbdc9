//! Domain records derived from broker metadata.
//!
//! All records are plain values, rebuilt in full on every metadata refresh.
//! The client library's own metadata types never enter the library: the
//! terminal layer reads them and hands over strings and integers.

use vstd::prelude::*;

verus! {

/// One broker of the cluster, as the last metadata refresh reported it.
#[derive(Debug, Clone)]
pub struct KafkaBroker {
    pub host: String,
    pub port: i32,
    pub id: i32,
}

impl KafkaBroker {
    /// Builds the record from one metadata broker entry.
    pub fn new(host: String, port: i32, id: i32) -> (b: Self)
        ensures
            b.host == host,
            b.port == port,
            b.id == id,
    {
        KafkaBroker { host, port, id }
    }
}

/// One topic with its partitions, in the order the metadata reported them.
#[derive(Debug, Clone)]
pub struct KafkaTopic {
    pub name: String,
    pub partitions: Vec<KafkaPartition>,
}

impl KafkaTopic {
    /// Every partition of the topic has valid watermarks.
    pub open spec fn wf(self) -> bool {
        forall|i: int| 0 <= i < self.partitions@.len() ==> (#[trigger] self.partitions@[i]).wf()
    }

    /// Builds the record from one metadata topic entry.
    pub fn new(name: String, partitions: Vec<KafkaPartition>) -> (t: Self)
        ensures
            t.name == name,
            t.partitions == partitions,
    {
        KafkaTopic { name, partitions }
    }
}

/// One partition of a topic.  `low` and `high` are the watermarks: the oldest
/// available offset and the next offset to be produced.
#[derive(Debug, Clone)]
pub struct KafkaPartition {
    pub id: i32,
    pub leader: i32,
    pub replicas: Vec<i32>,
    pub isr: Vec<i32>,
    pub low: i64,
    pub high: i64,
}

impl KafkaPartition {
    /// The watermarks are ordered and non-negative.
    pub open spec fn wf(self) -> bool {
        0 <= self.low <= self.high
    }

    /// What the displayed lag is: the distance between the watermarks.
    pub open spec fn spec_lag(self) -> int {
        self.high - self.low
    }

    /// Builds the record from one metadata partition entry; the watermarks
    /// start at zero until a watermark fetch fills them in.
    pub fn new(id: i32, leader: i32, replicas: Vec<i32>, isr: Vec<i32>) -> (p: Self)
        ensures
            p.id == id,
            p.leader == leader,
            p.replicas == replicas,
            p.isr == isr,
            p.low == 0,
            p.high == 0,
            p.wf(),
    {
        KafkaPartition { id, leader, replicas, isr, low: 0, high: 0 }
    }

    /// Stores a fetched watermark pair, but only when it is valid; an
    /// inverted or negative pair leaves the record unchanged and is reported
    /// to the caller as a failed fetch.
    pub fn set_watermarks(&mut self, low: i64, high: i64) -> (ok: bool)
        requires
            old(self).wf(),
        ensures
            ok <==> 0 <= low <= high,
            ok ==> *final(self) == (KafkaPartition { low, high, ..*old(self) }),
            !ok ==> *final(self) == *old(self),
            final(self).wf(),
    {
        if 0 <= low && low <= high {
            self.low = low;
            self.high = high;
            true
        } else {
            false
        }
    }

    /// The displayed lag, `high - low`.
    pub fn lag(&self) -> (r: i64)
        requires
            self.wf(),
        ensures
            r == self.spec_lag(),
    {
        self.high - self.low
    }
}

/// Every partition with valid watermarks is displayed with
/// `lag == high - low`, and its watermarks satisfy `low <= high`.
pub proof fn law_partition_lag(p: KafkaPartition)
    requires
        p.wf(),
    ensures
        p.low <= p.high,
        p.spec_lag() == p.high - p.low,
        p.spec_lag() >= 0,
{
}

/// One consumer group, as the last group-list fetch reported it.
#[derive(Debug, Clone)]
pub struct KafkaGroup {
    pub name: String,
    pub state: String,
    pub protocol: String,
    pub protocol_type: String,
    pub members: Vec<KafkaGroupMember>,
}

impl KafkaGroup {
    /// Builds the record from one group-list entry.
    pub fn new(
        name: String,
        state: String,
        protocol: String,
        protocol_type: String,
        members: Vec<KafkaGroupMember>,
    ) -> (g: Self)
        ensures
            g.name == name,
            g.state == state,
            g.protocol == protocol,
            g.protocol_type == protocol_type,
            g.members == members,
    {
        KafkaGroup { name, state, protocol, protocol_type, members }
    }
}

/// One member of a consumer group.
#[derive(Debug, Clone)]
pub struct KafkaGroupMember {
    pub id: String,
    pub client_id: String,
    pub client_host: String,
}

impl KafkaGroupMember {
    /// Builds the record from one group-member entry.
    pub fn new(id: String, client_id: String, client_host: String) -> (m: Self)
        ensures
            m.id == id,
            m.client_id == client_id,
            m.client_host == client_host,
    {
        KafkaGroupMember { id, client_id, client_host }
    }
}

/// One consumed message.  A payload or key that could not be decoded as text
/// takes the literal value `"Unknown"`.
#[derive(Debug, Clone)]
pub struct KafkaMessage {
    pub offset: i64,
    pub payload: String,
    pub key: String,
}

impl KafkaMessage {
    /// Builds the record from a polled message whose payload and key were
    /// decoded outside: `None` stands for a field that was absent or was not
    /// valid text, and becomes the literal `"Unknown"`.
    pub fn new(offset: i64, payload: Option<String>, key: Option<String>) -> (m: Self)
        ensures
            m.offset == offset,
            (match payload {
                Some(p) => m.payload@ == p@,
                None => m.payload@ == "Unknown"@,
            }),
            (match key {
                Some(k) => m.key@ == k@,
                None => m.key@ == "Unknown"@,
            }),
    {
        let payload_text = match payload {
            Some(p) => p,
            None => "Unknown".to_owned(),
        };
        let key_text = match key {
            Some(k) => k,
            None => "Unknown".to_owned(),
        };
        KafkaMessage { offset, payload: payload_text, key: key_text }
    }
}

} // verus!
