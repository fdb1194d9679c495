use vstd::prelude::*;

use crate::address::AddressView;
use crate::address::NodeAddress;
use crate::address::parse_node_id;
use crate::address::spec_parse_node_id;
use crate::queue::QUEUE_CAPACITY;
use crate::queue::QueueAttempt;
use crate::queue::WriteQueue;
use crate::time::now_unix_nanos;
use crate::time::timestamp_or_now;
use crate::value::ConnectionState;
use crate::value::DataValue;
use crate::value::NodeData;
use crate::value::STATUS_GOOD;
use crate::value::Value;
use crate::value::WriteRequest;
use crate::value::spec_status_is_bad;
use crate::value::status_is_bad;

verus! {

/// Why a session operation failed.
#[derive(Debug, PartialEq)]
pub enum OpcError {
    /// The operation was attempted while the connection was not established.
    NotConnected,
    /// The endpoint was unreachable or session creation failed.
    ConnectFailed,
    /// The server answered with a failure status; for a write the attempted
    /// value rides along as the primary field-diagnosis signal.
    ProtocolStatusBad { node_id: String, value: Option<Value>, status: u32 },
    /// The server returned no result where one was required.
    EmptyResponse { node_id: String },
    /// An input does not follow the node-address grammar; for subscription
    /// creation it carries the group's label when none of the ids parsed.
    ParseError { input: String },
    /// The write queue no longer accepts work (shutdown).
    QueueClosed,
}

/// A protocol write ready for the transport: the parsed target address, the
/// textual node id for diagnostics, and the sample to send.
#[derive(Debug, PartialEq)]
pub struct WriteCommand {
    pub address: NodeAddress,
    pub node_id: String,
    pub data: DataValue,
}

/// Fixed publishing parameters for every subscription.
pub const SUBSCRIPTION_PUBLISHING_INTERVAL_MS: u64 = 500;

pub const SUBSCRIPTION_LIFETIME_COUNT: u32 = 10;

pub const SUBSCRIPTION_MAX_KEEP_ALIVE_COUNT: u32 = 30;

/// A subscription ready for the transport: its label, the monitored
/// addresses that parsed, and the fixed publishing parameters.
#[derive(Debug)]
pub struct SubscriptionPlan {
    pub name: String,
    pub items: Vec<NodeAddress>,
    pub publishing_interval_ms: u64,
    pub lifetime_count: u32,
    pub max_keep_alive_count: u32,
    pub max_notifications_per_publish: u32,
    pub priority: u8,
    pub publishing_enabled: bool,
}

/// What one step of the queue drainer decided.
#[derive(Debug)]
pub enum ProcessStep {
    /// Nothing pending; the drainer waits for the next submission.
    Idle,
    /// Nothing pending and the queue is closed: the drainer stops.
    Stopped,
    /// The oldest request was dropped, not re-queued, because no connection
    /// was established when it was taken: queued writes are best-effort.
    DiscardedDisconnected(WriteRequest),
    /// The oldest request failed before any transport work: its node id
    /// does not follow the address grammar.
    Rejected(WriteRequest),
    /// The oldest request is ready: the transport must perform this write.
    Dispatch(WriteCommand),
}

/// The addresses among `ids` that parse, in submission order.
pub open spec fn spec_valid_addresses(ids: Seq<Seq<char>>) -> Seq<AddressView>
    decreases ids.len(),
{
    if ids.len() == 0 {
        Seq::empty()
    } else {
        spec_valid_addresses(ids.drop_last()) + (match spec_parse_node_id(ids.last()) {
            Some(a) => seq![a],
            None => Seq::empty(),
        })
    }
}

/// What a well-formed outgoing write looks like for the given target and
/// value: good quality, a present timestamp, and the parsed address of the
/// very node id asked for.
pub open spec fn spec_write_command_for(cmd: WriteCommand, node_id: Seq<char>, value: Value) -> bool {
    &&& cmd.node_id@ == node_id
    &&& spec_parse_node_id(node_id) == Some(cmd.address@)
    &&& cmd.data.value == Some(value)
    &&& cmd.data.status == Some(STATUS_GOOD)
    &&& cmd.data.timestamp is Some
}

/// The state a connection attempt leaves behind: connected on success,
/// disconnected (never connected) on failure.
pub open spec fn spec_connect_result_state(established: bool) -> ConnectionState {
    if established {
        ConnectionState::Connected
    } else {
        ConnectionState::Disconnected
    }
}

/// The recovery supervisor attempts a connection exactly when the state it
/// observes is not Connected.
pub open spec fn spec_supervisor_attempts(state: ConnectionState) -> bool {
    !(state is Connected)
}

/// The recovery supervisor never gives up: from Disconnected a tick
/// attempts to connect, and a failed attempt leaves a state from which the
/// next tick attempts again — unbounded retries, no escalation.
pub proof fn lemma_supervisor_unbounded_retry()
    ensures
        spec_supervisor_attempts(ConnectionState::Disconnected),
        spec_supervisor_attempts(ConnectionState::Connecting),
        spec_supervisor_attempts(spec_connect_result_state(false)),
{
}

/// The session manager: connection lifecycle, the bounded write queue, and
/// the decisions every transport interaction follows. Network calls
/// themselves happen outside; each is split into a decision before and a
/// judgment after, both specified here.
pub struct OpcuaService {
    endpoint: String,
    state: ConnectionState,
    session: Option<u64>,
    next_session_id: u64,
    accepting: bool,
    queue: WriteQueue,
}

impl OpcuaService {
    /// The lifecycle state.
    pub closed spec fn connection_state(&self) -> ConnectionState {
        self.state
    }

    /// Whether a live session exists.
    pub open spec fn connected(&self) -> bool {
        self.connection_state() is Connected
    }

    /// The generation of the live session, if one exists.
    pub closed spec fn session_id(&self) -> Option<u64> {
        self.session
    }

    /// Pending queued writes, oldest first.
    pub closed spec fn queue_contents(&self) -> Seq<WriteRequest> {
        self.queue.contents()
    }

    /// The write queue's fixed bound.
    pub closed spec fn queue_cap(&self) -> nat {
        self.queue.cap()
    }

    /// Whether the write queue still accepts submissions.
    pub closed spec fn is_open(&self) -> bool {
        self.accepting
    }

    /// The configured endpoint.
    pub closed spec fn spec_endpoint(&self) -> Seq<char> {
        self.endpoint@
    }

    /// A session exists exactly while Connected, and the queue respects its
    /// fixed bound.
    pub closed spec fn wf(&self) -> bool {
        &&& self.queue.wf()
        &&& self.queue.cap() == QUEUE_CAPACITY as nat
        &&& (self.state is Connected <==> self.session is Some)
    }

    /// A fresh manager for the given endpoint: disconnected, queue empty
    /// and open.
    pub fn new(endpoint: String) -> (s: Self)
        ensures
            s.wf(),
            s.connection_state() is Disconnected,
            s.session_id() is None,
            s.queue_contents() == Seq::<WriteRequest>::empty(),
            s.queue_cap() == QUEUE_CAPACITY as nat,
            s.is_open(),
            s.spec_endpoint() == endpoint@,
    {
        OpcuaService {
            endpoint,
            state: ConnectionState::Disconnected,
            session: None,
            next_session_id: 1,
            accepting: true,
            queue: WriteQueue::new(QUEUE_CAPACITY),
        }
    }

    /// The configured endpoint.
    pub fn endpoint(&self) -> (r: &str)
        ensures
            r@ == self.spec_endpoint(),
    {
        self.endpoint.as_str()
    }

    /// Cheap, pure state read: no transport work.
    pub fn is_connected(&self) -> (r: bool)
        ensures
            r == self.connected(),
    {
        self.state == ConnectionState::Connected
    }

    /// Starts a connection attempt: the state becomes Connecting and any
    /// prior session is released, so no stale handle outlives the attempt.
    pub fn connect_begin(&mut self)
        requires
            old(self).wf(),
        ensures
            final(self).wf(),
            final(self).connection_state() is Connecting,
            final(self).session_id() is None,
            final(self).queue_contents() == old(self).queue_contents(),
            final(self).queue_cap() == old(self).queue_cap(),
            final(self).is_open() == old(self).is_open(),
            final(self).spec_endpoint() == old(self).spec_endpoint(),
    {
        self.state = ConnectionState::Connecting;
        self.session = None;
    }

    /// Judges a connection attempt: success installs a fresh session and
    /// the state becomes Connected; failure leaves no session and a state
    /// that is not Connected. Queued work survives either way.
    pub fn connect_complete(&mut self, established: bool) -> (r: Result<(), OpcError>)
        requires
            old(self).wf(),
        ensures
            final(self).wf(),
            final(self).queue_contents() == old(self).queue_contents(),
            final(self).queue_cap() == old(self).queue_cap(),
            final(self).is_open() == old(self).is_open(),
            final(self).spec_endpoint() == old(self).spec_endpoint(),
            final(self).connection_state() == spec_connect_result_state(established),
            established ==> r is Ok && final(self).session_id() is Some,
            !established ==> (r matches Err(OpcError::ConnectFailed) && final(self).session_id()
                is None),
    {
        if established {
            let g = self.next_session_id;
            self.session = Some(g);
            self.next_session_id = g.wrapping_add(1);
            self.state = ConnectionState::Connected;
            Ok(())
        } else {
            self.session = None;
            self.state = ConnectionState::Disconnected;
            Err(OpcError::ConnectFailed)
        }
    }

    /// Tears the connection down: the session is cleared and the state is
    /// Disconnected regardless of how protocol-level termination went. The
    /// released session generation is handed back for best-effort teardown.
    pub fn disconnect(&mut self) -> (had: Option<u64>)
        requires
            old(self).wf(),
        ensures
            final(self).wf(),
            final(self).connection_state() is Disconnected,
            final(self).session_id() is None,
            had == old(self).session_id(),
            final(self).queue_contents() == old(self).queue_contents(),
            final(self).queue_cap() == old(self).queue_cap(),
            final(self).is_open() == old(self).is_open(),
            final(self).spec_endpoint() == old(self).spec_endpoint(),
    {
        let had = self.session;
        self.session = None;
        self.state = ConnectionState::Disconnected;
        had
    }

    /// The recovery supervisor's decision each interval: whether a
    /// connection attempt is due.
    pub fn keep_alive_tick(&self) -> (attempt: bool)
        ensures
            attempt == spec_supervisor_attempts(self.connection_state()),
            attempt == !self.connected(),
    {
        !self.is_connected()
    }

    /// Stops accepting queued writes, for clean shutdown; pending ones may
    /// still drain.
    pub fn shutdown(&mut self)
        requires
            old(self).wf(),
        ensures
            final(self).wf(),
            !final(self).is_open(),
            final(self).connection_state() == old(self).connection_state(),
            final(self).session_id() == old(self).session_id(),
            final(self).queue_contents() == old(self).queue_contents(),
            final(self).queue_cap() == old(self).queue_cap(),
            final(self).spec_endpoint() == old(self).spec_endpoint(),
    {
        self.accepting = false;
    }

    /// Prepares a read of one node: fails fast with NotConnected while no
    /// session exists, rejects an id outside the address grammar, and
    /// otherwise hands the transport the parsed address.
    pub fn read_node_begin(&self, node_id: &str) -> (r: Result<NodeAddress, OpcError>)
        ensures
            !self.connected() ==> (r matches Err(OpcError::NotConnected)),
            self.connected() && spec_parse_node_id(node_id@) is None ==> (r matches Err(
                OpcError::ParseError { input },
            ) && input@ == node_id@),
            self.connected() && spec_parse_node_id(node_id@) is Some ==> (r matches Ok(addr)
                && spec_parse_node_id(node_id@) == Some(addr@)),
    {
        if !self.is_connected() {
            return Err(OpcError::NotConnected);
        }
        match parse_node_id(node_id) {
            None => Err(OpcError::ParseError { input: node_id.to_owned() }),
            Some(addr) => Ok(addr),
        }
    }

    /// Judges a read response: no result is EmptyResponse, a bad status is
    /// ProtocolStatusBad, and otherwise the first sample becomes a reading
    /// with value, timestamp and quality taken from the response (an absent
    /// value reads as Empty; an absent timestamp falls back to the local
    /// clock; an absent status counts as good).
    pub fn read_node_complete(node_id: &str, results: Vec<DataValue>) -> (r: Result<
        NodeData,
        OpcError,
    >)
        ensures
            results@.len() == 0 ==> (r matches Err(OpcError::EmptyResponse { node_id: nid })
                && nid@ == node_id@),
            results@.len() > 0 && spec_status_is_bad(spec_dv_status(results@[0])) ==> (r matches Err(
                OpcError::ProtocolStatusBad { node_id: nid, value: v, status },
            ) && nid@ == node_id@ && v is None && status == spec_dv_status(results@[0])),
            results@.len() > 0 && !spec_status_is_bad(spec_dv_status(results@[0])) ==> (r matches Ok(
                nd,
            ) && nd.node_id@ == node_id@ && nd.value == spec_dv_value(results@[0]) && nd.quality
                == spec_dv_status(results@[0]) && (results@[0].timestamp matches Some(t)
                ==> nd.timestamp == t)),
    {
        let mut results = results;
        if results.len() == 0 {
            return Err(OpcError::EmptyResponse { node_id: node_id.to_owned() });
        }
        let first = results.remove(0);
        let DataValue { value, status, timestamp } = first;
        let quality: u32 = match status {
            Some(c) => c,
            None => STATUS_GOOD,
        };
        if status_is_bad(quality) {
            return Err(
                OpcError::ProtocolStatusBad {
                    node_id: node_id.to_owned(),
                    value: None,
                    status: quality,
                },
            );
        }
        let value = match value {
            Some(v) => v,
            None => Value::Empty,
        };
        Ok(
            NodeData {
                node_id: node_id.to_owned(),
                value,
                timestamp: timestamp_or_now(timestamp),
                quality,
            },
        )
    }

    /// Prepares a write of one node: fails fast with NotConnected while no
    /// session exists, rejects an id outside the address grammar, and
    /// otherwise hands the transport a write of exactly the given value
    /// with good quality and the current timestamp.
    pub fn write_node_begin(&self, node_id: &str, value: Value) -> (r: Result<
        WriteCommand,
        OpcError,
    >)
        ensures
            !self.connected() ==> (r matches Err(OpcError::NotConnected)),
            self.connected() && spec_parse_node_id(node_id@) is None ==> (r matches Err(
                OpcError::ParseError { input },
            ) && input@ == node_id@),
            self.connected() && spec_parse_node_id(node_id@) is Some ==> (r matches Ok(cmd)
                && spec_write_command_for(cmd, node_id@, value)),
    {
        if !self.is_connected() {
            return Err(OpcError::NotConnected);
        }
        match parse_node_id(node_id) {
            None => Err(OpcError::ParseError { input: node_id.to_owned() }),
            Some(address) => Ok(
                WriteCommand {
                    address,
                    node_id: node_id.to_owned(),
                    data: DataValue {
                        value: Some(value),
                        status: Some(STATUS_GOOD),
                        timestamp: Some(now_unix_nanos()),
                    },
                },
            ),
        }
    }

    /// Judges a write response: no result is EmptyResponse; a bad first
    /// status fails with the node id, the attempted value and the status
    /// code riding along; a good first status is success.
    pub fn write_node_complete(node_id: &str, value: Value, statuses: &Vec<u32>) -> (r: Result<
        (),
        OpcError,
    >)
        ensures
            statuses@.len() == 0 ==> (r matches Err(OpcError::EmptyResponse { node_id: nid })
                && nid@ == node_id@),
            statuses@.len() > 0 && spec_status_is_bad(statuses@[0]) ==> (r matches Err(
                OpcError::ProtocolStatusBad { node_id: nid, value: v, status },
            ) && nid@ == node_id@ && v == Some(value) && status == statuses@[0]),
            statuses@.len() > 0 && !spec_status_is_bad(statuses@[0]) ==> r is Ok,
    {
        if statuses.len() == 0 {
            return Err(OpcError::EmptyResponse { node_id: node_id.to_owned() });
        }
        let status = statuses[0];
        if status_is_bad(status) {
            return Err(
                OpcError::ProtocolStatusBad {
                    node_id: node_id.to_owned(),
                    value: Some(value),
                    status,
                },
            );
        }
        Ok(())
    }

    /// Judges a data-type read: the declared type when the server reported
    /// one, EmptyResponse otherwise.
    pub fn read_node_data_type_complete(node_id: &str, data_type: Option<NodeAddress>) -> (r:
        Result<NodeAddress, OpcError>)
        ensures
            data_type is Some ==> (r matches Ok(a) && data_type == Some(a)),
            data_type is None ==> (r matches Err(OpcError::EmptyResponse { node_id: nid }) && nid@
                == node_id@),
    {
        match data_type {
            Some(a) => Ok(a),
            None => Err(OpcError::EmptyResponse { node_id: node_id.to_owned() }),
        }
    }

    /// Submits a write to the bounded queue. While the queue is open, the
    /// request is appended when space remains; on a full queue nothing is
    /// dropped and the caller is told to wait and submit again, which is
    /// the backpressure producers see as blocking. After shutdown the
    /// queue refuses work.
    pub fn queue_write(&mut self, node_id: String, value: Value) -> (r: Result<
        QueueAttempt,
        OpcError,
    >)
        requires
            old(self).wf(),
        ensures
            final(self).wf(),
            final(self).connection_state() == old(self).connection_state(),
            final(self).session_id() == old(self).session_id(),
            final(self).queue_cap() == old(self).queue_cap(),
            final(self).is_open() == old(self).is_open(),
            final(self).spec_endpoint() == old(self).spec_endpoint(),
            !old(self).is_open() ==> (r matches Err(OpcError::QueueClosed) && final(self).queue_contents() == old(self).queue_contents()),
            old(self).is_open() && old(self).queue_contents().len() < old(self).queue_cap()
                ==> (r matches Ok(QueueAttempt::Enqueued) && final(self).queue_contents() == old(self).queue_contents().push((WriteRequest { node_id, value }))),
            old(self).is_open() && old(self).queue_contents().len() >= old(self).queue_cap()
                ==> (r matches Ok(QueueAttempt::MustWait) && final(self).queue_contents() == old(self).queue_contents()),
    {
        if !self.accepting {
            return Err(OpcError::QueueClosed);
        }
        Ok(self.queue.enqueue(WriteRequest { node_id, value }))
    }

    /// One step of the single background drainer: takes the oldest pending
    /// request, drops it when no connection is established, rejects it when
    /// its id does not parse, and otherwise turns it into the write the
    /// transport must perform. An empty queue asks the drainer to wait, or
    /// to stop once the queue is closed.
    pub fn process_writes_step(&mut self) -> (step: ProcessStep)
        requires
            old(self).wf(),
        ensures
            final(self).wf(),
            final(self).connection_state() == old(self).connection_state(),
            final(self).session_id() == old(self).session_id(),
            final(self).queue_cap() == old(self).queue_cap(),
            final(self).is_open() == old(self).is_open(),
            final(self).spec_endpoint() == old(self).spec_endpoint(),
            old(self).queue_contents().len() == 0 ==> final(self).queue_contents() == old(self).queue_contents() && (step is Idle <==> old(self).is_open()) && (step is Stopped
                <==> !old(self).is_open()),
            old(self).queue_contents().len() > 0 ==> final(self).queue_contents() == old(self).queue_contents().drop_first(),
            old(self).queue_contents().len() > 0 && !old(self).connected() ==> step
                == ProcessStep::DiscardedDisconnected(old(self).queue_contents().first()),
            old(self).queue_contents().len() > 0 && old(self).connected() && spec_parse_node_id(
                old(self).queue_contents().first().node_id@,
            ) is None ==> step == ProcessStep::Rejected(old(self).queue_contents().first()),
            old(self).queue_contents().len() > 0 && old(self).connected() && spec_parse_node_id(
                old(self).queue_contents().first().node_id@,
            ) is Some ==> (step matches ProcessStep::Dispatch(cmd) && spec_write_command_for(
                cmd,
                old(self).queue_contents().first().node_id@,
                old(self).queue_contents().first().value,
            )),
    {
        let req = match self.queue.dequeue() {
            None => {
                return if self.accepting {
                    ProcessStep::Idle
                } else {
                    ProcessStep::Stopped
                };
            },
            Some(req) => req,
        };
        if !self.is_connected() {
            return ProcessStep::DiscardedDisconnected(req);
        }
        match parse_node_id(req.node_id.as_str()) {
            None => ProcessStep::Rejected(req),
            Some(address) => {
                let WriteRequest { node_id, value } = req;
                ProcessStep::Dispatch(
                    WriteCommand {
                        address,
                        node_id,
                        data: DataValue {
                            value: Some(value),
                            status: Some(STATUS_GOOD),
                            timestamp: Some(now_unix_nanos()),
                        },
                    },
                )
            },
        }
    }

    /// Plans a subscription: fails fast with NotConnected while no session
    /// exists; parses every requested id, silently skipping malformed ones;
    /// fails when none parse; and otherwise yields the monitored addresses
    /// in request order under the fixed publishing parameters.
    pub fn subscribe_to_nodes(&self, subscription_name: &str, node_ids: &Vec<String>) -> (r: Result<
        SubscriptionPlan,
        OpcError,
    >)
        ensures
            !self.connected() ==> (r matches Err(OpcError::NotConnected)),
            self.connected() && spec_valid_addresses(
                node_ids@.map_values(|s: String| s@),
            ).len() == 0 ==> (r matches Err(OpcError::ParseError { input }) && input@
                == subscription_name@),
            self.connected() && spec_valid_addresses(node_ids@.map_values(|s: String| s@)).len()
                > 0 ==> (r matches Ok(plan) && plan.name@ == subscription_name@
                && plan.items@.map_values(|a: NodeAddress| a@) == spec_valid_addresses(
                node_ids@.map_values(|s: String| s@),
            ) && plan.publishing_interval_ms == SUBSCRIPTION_PUBLISHING_INTERVAL_MS
                && plan.lifetime_count == SUBSCRIPTION_LIFETIME_COUNT && plan.max_keep_alive_count
                == SUBSCRIPTION_MAX_KEEP_ALIVE_COUNT && plan.max_notifications_per_publish == 0
                && plan.priority == 0 && plan.publishing_enabled),
    {
        if !self.is_connected() {
            return Err(OpcError::NotConnected);
        }
        let ghost idviews = node_ids@.map_values(|s: String| s@);
        let mut items: Vec<NodeAddress> = Vec::new();
        let mut i: usize = 0;
        while i < node_ids.len()
            invariant
                i <= node_ids@.len(),
                idviews == node_ids@.map_values(|s: String| s@),
                items@.map_values(|a: NodeAddress| a@) == spec_valid_addresses(
                    idviews.take(i as int),
                ),
            decreases node_ids@.len() - i,
        {
            let id: &String = &node_ids[i];
            proof {
                assert(idviews.take(i as int + 1).drop_last() =~= idviews.take(i as int));
                assert(idviews.take(i as int + 1).last() == idviews[i as int]);
                assert(idviews[i as int] == node_ids@[i as int]@);
            }
            match parse_node_id(id.as_str()) {
                Some(a) => {
                    items.push(a);
                    proof {
                        assert(items@.map_values(|a: NodeAddress| a@) =~= spec_valid_addresses(
                            idviews.take(i as int + 1),
                        ));
                    }
                },
                None => {
                    proof {
                        assert(items@.map_values(|a: NodeAddress| a@) =~= spec_valid_addresses(
                            idviews.take(i as int + 1),
                        ));
                    }
                },
            }
            i += 1;
        }
        proof {
            assert(idviews.take(node_ids@.len() as int) =~= idviews);
        }
        if items.len() == 0 {
            return Err(OpcError::ParseError { input: subscription_name.to_owned() });
        }
        Ok(
            SubscriptionPlan {
                name: subscription_name.to_owned(),
                items,
                publishing_interval_ms: SUBSCRIPTION_PUBLISHING_INTERVAL_MS,
                lifetime_count: SUBSCRIPTION_LIFETIME_COUNT,
                max_keep_alive_count: SUBSCRIPTION_MAX_KEEP_ALIVE_COUNT,
                max_notifications_per_publish: 0,
                priority: 0,
                publishing_enabled: true,
            },
        )
    }
}

/// The spec-side value each data sample reads as: Empty when absent.
pub open spec fn spec_dv_value(dv: DataValue) -> Value {
    match dv.value {
        Some(v) => v,
        None => Value::Empty,
    }
}

/// The spec-side status of a data sample: good when absent.
pub open spec fn spec_dv_status(dv: DataValue) -> u32 {
    match dv.status {
        Some(c) => c,
        None => STATUS_GOOD,
    }
}

} // verus!
