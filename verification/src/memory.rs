//! The in-memory realization of the broker contract: a backend that keeps a
//! per-topic record log, a consumer-group registry, and an error channel in
//! ordinary memory. It follows the same publish gate, commit discipline and
//! shutdown discipline the contract demands of every backend, and stands in
//! for a networked one wherever the bus itself is out of reach.

use vstd::prelude::*;

use crate::broker::Broker;
use crate::broker::BrokerError;
use crate::kafka_config::str_eq;
use crate::kafka_config::KafkaConfig;
use crate::pump::pump_advances;
use crate::pump::pump_run_offset;
use crate::pump::PumpState;

verus! {

/// One topic's records, in production order. The backend models a single
/// partition per topic, so this log is the partition.
pub struct TopicLog {
    /// Topic name.
    pub name: String,
    /// Payloads in the order the backend took responsibility for them.
    pub records: Vec<Vec<u8>>,
}

/// One consumer-group registration and its pump's progress.
pub struct Subscription {
    /// Topic the pump is subscribed to.
    pub topic: String,
    /// Consumer group the pump joined.
    pub group: String,
    /// Committed offset: the index of the next record to deliver.
    pub offset: usize,
    /// Lifecycle state of the pump.
    pub state: PumpState,
}

/// An ephemeral delivered message: what one handler invocation sees.
pub struct DeliveredRecord {
    /// Topic the record came from.
    pub topic: String,
    /// Payload bytes.
    pub payload: Vec<u8>,
    /// The record's offset within its topic.
    pub offset: usize,
}

/// The payload sequences of a record log.
pub open spec fn log_view(records: Seq<Vec<u8>>) -> Seq<Seq<u8>> {
    Seq::new(records.len(), |i: int| records[i]@)
}

/// The records of the first log named `t`, or the empty sequence when no log
/// carries that name.
pub open spec fn topics_records(ts: Seq<TopicLog>, t: Seq<char>) -> Seq<Seq<u8>>
    decreases ts.len(),
{
    if ts.len() == 0 {
        Seq::<Seq<u8>>::empty()
    } else if ts[0].name@ == t {
        log_view(ts[0].records@)
    } else {
        topics_records(ts.drop_first(), t)
    }
}

/// When `i` is the first log named `t`, the records under `t` are that log's.
proof fn lemma_records_first_match(ts: Seq<TopicLog>, i: int, t: Seq<char>)
    requires
        0 <= i < ts.len(),
        ts[i].name@ == t,
        forall|j: int| 0 <= j < i ==> (#[trigger] ts[j].name)@ != t,
    ensures
        topics_records(ts, t) == log_view(ts[i].records@),
    decreases i,
{
    if i > 0 {
        lemma_records_first_match(ts.drop_first(), i - 1, t);
    }
}

/// When no log carries the name `t`, the records under `t` are empty.
proof fn lemma_records_no_match(ts: Seq<TopicLog>, t: Seq<char>)
    requires
        forall|j: int| 0 <= j < ts.len() ==> (#[trigger] ts[j].name)@ != t,
    ensures
        topics_records(ts, t) == Seq::<Seq<u8>>::empty(),
    decreases ts.len(),
{
    if ts.len() > 0 {
        lemma_records_no_match(ts.drop_first(), t);
    }
}

/// Replacing the log at `i` by one with the same name leaves every other
/// name's records unchanged.
proof fn lemma_records_update(ts: Seq<TopicLog>, ts2: Seq<TopicLog>, i: int, t: Seq<char>)
    requires
        ts2.len() == ts.len(),
        0 <= i < ts.len(),
        forall|j: int| 0 <= j < ts.len() && j != i ==> ts2[j] == ts[j],
        ts2[i].name@ == ts[i].name@,
        t != ts[i].name@,
    ensures
        topics_records(ts2, t) == topics_records(ts, t),
    decreases ts.len(),
{
    if ts.len() > 0 {
        if i == 0 {
            assert(ts2.drop_first() =~= ts.drop_first());
        } else {
            if ts[0].name@ != t {
                lemma_records_update(ts.drop_first(), ts2.drop_first(), i - 1, t);
            }
        }
    }
}

/// Appending a log does not change the records of any other name.
proof fn lemma_records_push_other(ts: Seq<TopicLog>, e: TopicLog, t: Seq<char>)
    requires
        t != e.name@,
    ensures
        topics_records(ts.push(e), t) == topics_records(ts, t),
    decreases ts.len(),
{
    if ts.len() == 0 {
        assert(ts.push(e)[0] == e);
        assert(ts.push(e).drop_first() =~= ts);
    } else {
        assert(ts.push(e)[0] == ts[0]);
        if ts[0].name@ != t {
            assert(ts.push(e).drop_first() =~= ts.drop_first().push(e));
            lemma_records_push_other(ts.drop_first(), e, t);
        }
    }
}

/// Appending a log under a name that was absent makes that log the name's
/// records.
proof fn lemma_records_push_new(ts: Seq<TopicLog>, e: TopicLog)
    requires
        forall|j: int| 0 <= j < ts.len() ==> (#[trigger] ts[j].name)@ != e.name@,
    ensures
        topics_records(ts.push(e), e.name@) == log_view(e.records@),
    decreases ts.len(),
{
    if ts.len() == 0 {
        assert(ts.push(e)[0] == e);
    } else {
        assert(ts.push(e)[0] == ts[0]);
        assert(ts.push(e).drop_first() =~= ts.drop_first().push(e));
        lemma_records_push_new(ts.drop_first(), e);
    }
}

/// Finds the first log named `t`.
fn find_topic(ts: &Vec<TopicLog>, t: &str) -> (r: Option<usize>)
    ensures
        r matches Some(i) ==> i < ts@.len() && ts@[i as int].name@ == t@ && forall|j: int|
            0 <= j < i ==> (#[trigger] ts@[j].name)@ != t@,
        r is None ==> forall|j: int| 0 <= j < ts@.len() ==> (#[trigger] ts@[j].name)@ != t@,
{
    let n = ts.len();
    let mut i: usize = 0;
    while i < n
        invariant
            n == ts@.len(),
            i <= n,
            forall|j: int| 0 <= j < i ==> (#[trigger] ts@[j].name)@ != t@,
        decreases n - i,
    {
        if str_eq(ts[i].name.as_str(), t) {
            return Some(i);
        }
        i = i + 1;
    }
    None
}

/// Finds the registration carrying the pair `(t, g)`.
fn find_sub(ss: &Vec<Subscription>, t: &str, g: &str) -> (r: Option<usize>)
    ensures
        r matches Some(i) ==> i < ss@.len() && ss@[i as int].topic@ == t@ && ss@[i as int].group@
            == g@,
        r is None ==> forall|j: int| 0 <= j < ss@.len() ==> !((#[trigger] ss@[j].topic)@ == t@
            && ss@[j].group@ == g@),
{
    let n = ss.len();
    let mut i: usize = 0;
    while i < n
        invariant
            n == ss@.len(),
            i <= n,
            forall|j: int| 0 <= j < i ==> !((#[trigger] ss@[j].topic)@ == t@ && ss@[j].group@
                == g@),
        decreases n - i,
    {
        if str_eq(ss[i].topic.as_str(), t) && str_eq(ss[i].group.as_str(), g) {
            return Some(i);
        }
        i = i + 1;
    }
    None
}

/// A backend over plain memory: producer log, subscription registry and error
/// channel, owned by one instance, terminal after `shutdown`.
pub struct MemoryBroker {
    /// The validated configuration the backend was constructed from.
    pub config: KafkaConfig,
    /// Terminal once `shutdown` has run.
    pub closed: bool,
    /// One log per topic, in order of first publish.
    pub topics: Vec<TopicLog>,
    /// The consumer-group registry.
    pub subs: Vec<Subscription>,
    /// Out-of-band reports: handler failures and other pump-internal errors.
    pub error_channel: Vec<BrokerError>,
}

impl MemoryBroker {
    /// The registry holds no duplicate `(topic, group)` pair and the topic
    /// logs carry distinct names; the configuration passed validation.
    pub open spec fn wf(self) -> bool {
        &&& self.config.valid()
        &&& forall|j: int, k: int| 0 <= j < k < self.topics@.len()
            ==> (#[trigger] self.topics@[j].name)@ != (#[trigger] self.topics@[k].name)@
        &&& forall|j: int, k: int| 0 <= j < k < self.subs@.len()
            ==> !((#[trigger] self.subs@[j].topic)@ == (#[trigger] self.subs@[k].topic)@
            && self.subs@[j].group@ == self.subs@[k].group@)
    }
}

/// Constructs an in-memory backend from a configuration, re-validating it:
/// the backend is ready, open, and empty, or the configuration is rejected.
pub fn new_broker(config: KafkaConfig) -> (r: Result<MemoryBroker, BrokerError>)
    ensures
        r is Ok <==> config.valid(),
        r matches Ok(b) ==> b.wf() && !b.closed && b.config == config && b.topics@.len() == 0
            && b.subs@.len() == 0 && b.error_channel@.len() == 0,
        r matches Err(e) ==> e == BrokerError::InvalidConfig,
{
    if config.is_valid() {
        Ok(
            MemoryBroker {
                config,
                closed: false,
                topics: Vec::new(),
                subs: Vec::new(),
                error_channel: Vec::new(),
            },
        )
    } else {
        Err(BrokerError::InvalidConfig)
    }
}

impl Broker for MemoryBroker {
    open spec fn inv(&self) -> bool {
        self.wf()
    }

    open spec fn closed(&self) -> bool {
        self.closed
    }

    open spec fn max_bytes(&self) -> nat {
        self.config.message_max_bytes as nat
    }

    open spec fn subscribed(&self, topic: Seq<char>, group: Seq<char>) -> bool {
        exists|k: int| 0 <= k < self.subs@.len() && (#[trigger] self.subs@[k].topic)@ == topic
            && self.subs@[k].group@ == group
    }

    open spec fn records(&self, topic: Seq<char>) -> Seq<Seq<u8>> {
        topics_records(self.topics@, topic)
    }

    fn publish(&mut self, topic: &str, msg: &[u8]) -> (r: Result<(), BrokerError>)
        ensures
            !old(self).closed && msg@.len() <= old(self).config.message_max_bytes ==> r is Ok,
            final(self).config == old(self).config,
            final(self).subs == old(self).subs,
            final(self).error_channel == old(self).error_channel,
    {
        if self.closed {
            return Err(BrokerError::ClosedBroker);
        }
        if msg.len() > self.config.message_max_bytes {
            return Err(BrokerError::TooLarge);
        }
        let ghost prior = self.topics@;
        match find_topic(&self.topics, topic) {
            Some(i) => {
                let entry = &mut self.topics[i];
                entry.records.push(vstd::slice::slice_to_vec(msg));
                proof {
                    lemma_records_first_match(prior, i as int, topic@);
                    lemma_records_first_match(self.topics@, i as int, topic@);
                    assert(log_view(self.topics@[i as int].records@) =~= log_view(
                        prior[i as int].records@,
                    ).push(msg@));
                    assert forall|t: Seq<char>| t != topic@ implies #[trigger] topics_records(
                        self.topics@,
                        t,
                    ) == topics_records(prior, t) by {
                        lemma_records_update(prior, self.topics@, i as int, t);
                    }
                }
            },
            None => {
                let mut recs: Vec<Vec<u8>> = Vec::new();
                recs.push(vstd::slice::slice_to_vec(msg));
                let entry = TopicLog { name: topic.to_owned(), records: recs };
                let ghost ge = entry;
                self.topics.push(entry);
                proof {
                    lemma_records_no_match(prior, topic@);
                    lemma_records_push_new(prior, ge);
                    assert(log_view(ge.records@) =~= topics_records(prior, topic@).push(msg@));
                    assert forall|t: Seq<char>| t != topic@ implies #[trigger] topics_records(
                        self.topics@,
                        t,
                    ) == topics_records(prior, t) by {
                        lemma_records_push_other(prior, ge, t);
                    }
                }
            },
        }
        Ok(())
    }

    fn subscribe(&mut self, topic: &str, group: &str) -> (r: Result<(), BrokerError>)
        ensures
            final(self).config == old(self).config,
            final(self).closed == old(self).closed,
            final(self).topics == old(self).topics,
            final(self).error_channel == old(self).error_channel,
            !old(self).closed && !old(self).subscribed(topic@, group@) ==> r is Ok,
            r is Ok ==> final(self).subs@.len() == old(self).subs@.len() + 1 && (forall|k: int|
                0 <= k < old(self).subs@.len() ==> final(self).subs@[k] == old(self).subs@[k])
                && final(self).subs@.last().topic@ == topic@
                && final(self).subs@.last().group@ == group@
                && final(self).subs@.last().state == PumpState::Running
                && final(self).subs@.last().offset as nat == (
                if old(self).config.auto_offset_reset@ == "latest"@ {
                    topics_records(old(self).topics@, topic@).len()
                } else {
                    0
                }),
            r is Err ==> final(self).subs == old(self).subs,
    {
        if self.closed {
            return Err(BrokerError::ClosedBroker);
        }
        match find_sub(&self.subs, topic, group) {
            Some(i) => {
                proof {
                    assert(old(self).subs@[i as int].topic@ == topic@ && old(
                        self,
                    ).subs@[i as int].group@ == group@);
                }
                Err(BrokerError::AlreadySubscribed)
            },
            None => {
                let start: usize = if str_eq(self.config.auto_offset_reset.as_str(), "latest") {
                    match find_topic(&self.topics, topic) {
                        Some(t_idx) => {
                            proof {
                                lemma_records_first_match(self.topics@, t_idx as int, topic@);
                            }
                            self.topics[t_idx].records.len()
                        },
                        None => {
                            proof {
                                lemma_records_no_match(self.topics@, topic@);
                            }
                            0
                        },
                    }
                } else {
                    0
                };
                let ghost before = self.subs@;
                self.subs.push(
                    Subscription {
                        topic: topic.to_owned(),
                        group: group.to_owned(),
                        offset: start,
                        state: PumpState::Running,
                    },
                );
                proof {
                    let last = before.len() as int;
                    assert(self.subs@[last].topic@ == topic@ && self.subs@[last].group@
                        == group@);
                    assert forall|t: Seq<char>, g: Seq<char>| !(t == topic@ && g == group@)
                        implies #[trigger] final(self).subscribed(t, g) == old(
                        self,
                    ).subscribed(t, g) by {
                        if old(self).subscribed(t, g) {
                            let k = choose|k: int| 0 <= k < before.len() && (
                            #[trigger] before[k].topic)@ == t && before[k].group@ == g;
                            assert(self.subs@[k].topic@ == t && self.subs@[k].group@ == g);
                        }
                        if final(self).subscribed(t, g) {
                            let k = choose|k: int| 0 <= k < self.subs@.len() && (
                            #[trigger] self.subs@[k].topic)@ == t && self.subs@[k].group@ == g;
                            if k < last {
                                assert(before[k].topic@ == t && before[k].group@ == g);
                            }
                        }
                    }
                }
                Ok(())
            },
        }
    }

    fn shutdown(&mut self) -> (r: Result<(), BrokerError>)
        ensures
            final(self).config == old(self).config,
            final(self).topics == old(self).topics,
            final(self).error_channel == old(self).error_channel,
            final(self).subs@.len() == old(self).subs@.len(),
            forall|k: int| 0 <= k < old(self).subs@.len()
                ==> (#[trigger] final(self).subs@[k]).topic == old(self).subs@[k].topic
                && final(self).subs@[k].group == old(self).subs@[k].group
                && final(self).subs@[k].offset == old(self).subs@[k].offset,
            !old(self).closed ==> forall|k: int| 0 <= k < old(self).subs@.len()
                ==> (#[trigger] final(self).subs@[k]).state == PumpState::Stopped,
    {
        if self.closed {
            return Ok(());
        }
        self.closed = true;
        let n = self.subs.len();
        let mut k: usize = 0;
        while k < n
            invariant
                n == self.subs@.len(),
                k <= n,
                self.closed,
                self.config == old(self).config,
                self.topics == old(self).topics,
                self.error_channel == old(self).error_channel,
                self.subs@.len() == old(self).subs@.len(),
                forall|j: int| 0 <= j < k ==> (#[trigger] self.subs@[j]).state
                    == PumpState::Stopped,
                forall|j: int| 0 <= j < k ==> (#[trigger] self.subs@[j]).topic == old(
                    self,
                ).subs@[j].topic && self.subs@[j].group == old(self).subs@[j].group
                    && self.subs@[j].offset == old(self).subs@[j].offset,
                forall|j: int| k <= j < n ==> self.subs@[j] == old(self).subs@[j],
            decreases n - k,
        {
            let entry = &mut self.subs[k];
            entry.state = PumpState::Stopped;
            k = k + 1;
        }
        Ok(())
    }
}

impl MemoryBroker {
    /// The topic log registration `k` consumes from.
    pub open spec fn sub_log(self, k: int) -> Seq<Seq<u8>> {
        topics_records(self.topics@, self.subs@[k].topic@)
    }

    /// The committed offset of registration `k`.
    pub open spec fn sub_offset(self, k: int) -> nat {
        self.subs@[k].offset as nat
    }

    /// Registration `k`'s pump is delivering.
    pub open spec fn sub_running(self, k: int) -> bool {
        self.subs@[k].state == PumpState::Running
    }

    /// The record the next pump step of registration `sub_index` would
    /// deliver, without delivering it: the pump must be running and a record
    /// pending.
    pub fn peek_next(&self, sub_index: usize) -> (r: Option<DeliveredRecord>)
        requires
            sub_index < self.subs@.len(),
        ensures
            r is Some <==> self.sub_running(sub_index as int) && self.sub_offset(
                sub_index as int,
            ) < self.sub_log(sub_index as int).len(),
            r matches Some(d) ==> d.topic@ == self.subs@[sub_index as int].topic@ && d.payload@
                == self.sub_log(sub_index as int)[self.sub_offset(sub_index as int) as int]
                && d.offset as nat == self.sub_offset(sub_index as int),
    {
        let running = self.subs[sub_index].state == PumpState::Running;
        if !running {
            return None;
        }
        let ghost i = sub_index as int;
        match find_topic(&self.topics, self.subs[sub_index].topic.as_str()) {
            None => {
                proof {
                    lemma_records_no_match(self.topics@, self.subs@[i].topic@);
                }
                None
            },
            Some(t_idx) => {
                proof {
                    lemma_records_first_match(self.topics@, t_idx as int, self.subs@[i].topic@);
                }
                let off = self.subs[sub_index].offset;
                if off >= self.topics[t_idx].records.len() {
                    None
                } else {
                    let payload = vstd::slice::slice_to_vec(
                        self.topics[t_idx].records[off].as_slice(),
                    );
                    let d_topic = self.subs[sub_index].topic.clone();
                    Some(DeliveredRecord { topic: d_topic, payload, offset: off })
                }
            },
        }
    }

    /// One pump step for registration `sub_index`: deliver the record at the
    /// committed offset, then commit according to the configured mode and the
    /// handler's outcome, which the caller reports in `handler_ok`. Returns
    /// what the handler saw, or `None` when the pump is not running or no
    /// record is pending. A failed invocation is reported on the error
    /// channel and, under handler-driven commit, leaves the offset where it
    /// was, so the same record is redelivered.
    pub fn deliver_next(&mut self, sub_index: usize, handler_ok: bool) -> (r: Option<
        DeliveredRecord,
    >)
        requires
            old(self).wf(),
            sub_index < old(self).subs@.len(),
        ensures
            final(self).wf(),
            final(self).config == old(self).config,
            final(self).closed == old(self).closed,
            final(self).topics == old(self).topics,
            final(self).subs@.len() == old(self).subs@.len(),
            forall|k: int| 0 <= k < old(self).subs@.len() && k != sub_index
                ==> final(self).subs@[k] == old(self).subs@[k],
            final(self).subs@[sub_index as int].topic == old(self).subs@[sub_index as int].topic,
            final(self).subs@[sub_index as int].group == old(self).subs@[sub_index as int].group,
            final(self).subs@[sub_index as int].state == old(self).subs@[sub_index as int].state,
            r is Some <==> old(self).sub_running(sub_index as int) && old(self).sub_offset(
                sub_index as int,
            ) < old(self).sub_log(sub_index as int).len(),
            r matches Some(d) ==> d.topic@ == old(self).subs@[sub_index as int].topic@
                && d.payload@ == old(self).sub_log(sub_index as int)[old(self).sub_offset(
                sub_index as int,
            ) as int] && d.offset as nat == old(self).sub_offset(sub_index as int),
            r is Some && pump_advances(old(self).config.enable_auto_commit, handler_ok)
                ==> final(self).sub_offset(sub_index as int) == old(self).sub_offset(
                sub_index as int,
            ) + 1,
            r is Some && !pump_advances(old(self).config.enable_auto_commit, handler_ok)
                ==> final(self).sub_offset(sub_index as int) == old(self).sub_offset(
                sub_index as int,
            ),
            r is Some ==> final(self).sub_offset(sub_index as int) == pump_run_offset(
                old(self).config.enable_auto_commit,
                old(self).sub_log(sub_index as int).len(),
                old(self).sub_offset(sub_index as int),
                seq![handler_ok],
            ),
            r is None ==> final(self).subs == old(self).subs,
            final(self).error_channel@ == if r is Some && !handler_ok {
                old(self).error_channel@.push(BrokerError::HandlerFailed)
            } else {
                old(self).error_channel@
            },
    {
        let running = self.subs[sub_index].state == PumpState::Running;
        if !running {
            return None;
        }
        let ghost i = sub_index as int;
        match find_topic(&self.topics, self.subs[sub_index].topic.as_str()) {
            None => {
                proof {
                    lemma_records_no_match(self.topics@, self.subs@[i].topic@);
                }
                None
            },
            Some(t_idx) => {
                proof {
                    lemma_records_first_match(self.topics@, t_idx as int, self.subs@[i].topic@);
                }
                let off = self.subs[sub_index].offset;
                if off >= self.topics[t_idx].records.len() {
                    None
                } else {
                    let payload = vstd::slice::slice_to_vec(
                        self.topics[t_idx].records[off].as_slice(),
                    );
                    let d_topic = self.subs[sub_index].topic.clone();
                    let advance = self.config.enable_auto_commit || handler_ok;
                    if advance {
                        let entry = &mut self.subs[sub_index];
                        entry.offset = off + 1;
                    }
                    if !handler_ok {
                        self.error_channel.push(BrokerError::HandlerFailed);
                    }
                    proof {
                        let outs = seq![handler_ok];
                        let o0 = old(self).sub_offset(i);
                        let logl = old(self).sub_log(i).len();
                        let auto = old(self).config.enable_auto_commit;
                        let nxt: nat = if o0 < logl && pump_advances(auto, handler_ok) {
                            (o0 + 1) as nat
                        } else {
                            o0
                        };
                        assert(pump_run_offset(auto, logl, nxt, outs.drop_first()) == nxt);
                        assert(pump_run_offset(auto, logl, o0, outs) == nxt);
                    }
                    Some(DeliveredRecord { topic: d_topic, payload, offset: off })
                }
            },
        }
    }
}

} // verus!
