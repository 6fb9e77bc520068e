//! The per-connection protocol state and dispatcher.
//!
//! One [`RemoteState`] lives with each client connection and owns the
//! tables of that client's live entities. Handling an inbound message
//! validates it against the state and either answers inline, rejects it
//! with a [`ProtoError`], finishes a pure state change, or hands back a
//! validated action for the caller to perform on the fabric: the fabric
//! calls themselves are asynchronous and happen outside this crate.
//!
//! A declare only enters its table once the caller reports fabric success
//! through the matching `commit_*` method; an undeclare leaves the table
//! first and the fabric call follows, so a failing fabric undeclare still
//! frees the id. In-flight queries live in the separate
//! [`QueryTracker`], which the connection shares with its queryable
//! callbacks; the dispatcher borrows it for the reply path.

use vstd::prelude::*;
use vstd::string::StringSliceAdditionalSpecFns;

use crate::messages::{Header, InRemoteMessage, OutRemoteMessage, OutRemoteMessageV};
use crate::pending::{seq_without, QueryTracker};
use crate::table::EntityTable;

verus! {

/// The kinds of fabric entities a client can declare.
#[derive(Clone, Copy, PartialEq, Eq, Structural, Debug)]
pub enum EntityKind {
    Publisher,
    Subscriber,
    Queryable,
    Querier,
    LivelinessToken,
    LivelinessSubscriber,
    MatchingListener,
}

/// A request-scoped error: the id named by the request does not fit the
/// connection's state.
#[derive(Clone, Copy, PartialEq, Eq, Structural, Debug)]
pub enum ProtoError {
    /// A declare named an id that is already live for this kind.
    AlreadyExists(EntityKind, u32),
    /// The request named an id that is not live for this kind.
    NotFound(EntityKind, u32),
    /// The request named a query id that is not (or no longer) tracked.
    QueryNotFound(u32),
}

/// The decimal digits of `n`, most significant first.
pub open spec fn dec_digits(n: nat) -> Seq<u8>
    decreases n,
{
    if n < 10 {
        seq![(48 + n) as u8]
    } else {
        dec_digits(n / 10) + seq![(48 + n % 10) as u8]
    }
}

fn push_dec(n: u32, out: &mut Vec<u8>)
    ensures
        final(out)@ == old(out)@ + dec_digits(n as nat),
    decreases n,
{
    if n < 10 {
        out.push(48 + n as u8);
        assert(out@ =~= old(out)@ + dec_digits(n as nat));
    } else {
        push_dec(n / 10, out);
        out.push(48 + (n % 10) as u8);
        assert(out@ =~= old(out)@ + dec_digits(n as nat));
    }
}

pub open spec fn kind_name(k: EntityKind) -> Seq<u8> {
    match k {
        EntityKind::Publisher => "Publisher".spec_bytes(),
        EntityKind::Subscriber => "Subscriber".spec_bytes(),
        EntityKind::Queryable => "Queryable".spec_bytes(),
        EntityKind::Querier => "Querier".spec_bytes(),
        EntityKind::LivelinessToken => "Liveliness token".spec_bytes(),
        EntityKind::LivelinessSubscriber => "Liveliness subscriber".spec_bytes(),
        EntityKind::MatchingListener => "Matching listener".spec_bytes(),
    }
}

fn push_kind_name(k: EntityKind, out: &mut Vec<u8>)
    ensures
        final(out)@ == old(out)@ + kind_name(k),
{
    let name: &str = match k {
        EntityKind::Publisher => "Publisher",
        EntityKind::Subscriber => "Subscriber",
        EntityKind::Queryable => "Queryable",
        EntityKind::Querier => "Querier",
        EntityKind::LivelinessToken => "Liveliness token",
        EntityKind::LivelinessSubscriber => "Liveliness subscriber",
        EntityKind::MatchingListener => "Matching listener",
    };
    let bytes = name.as_bytes();
    let n = bytes.len();
    let mut i: usize = 0;
    while i < n
        invariant
            i <= n,
            n == bytes@.len(),
            out@ == old(out)@ + bytes@.take(i as int),
        decreases n - i,
    {
        out.push(bytes[i]);
        assert(out@ =~= old(out)@ + bytes@.take(i as int + 1));
        i = i + 1;
    }
    assert(out@ =~= old(out)@ + bytes@);
}

impl ProtoError {
    /// The error text, as it travels in an `Error` frame.
    pub open spec fn spec_render(self) -> Seq<u8> {
        match self {
            ProtoError::AlreadyExists(k, id) => kind_name(k) + " with id: '".spec_bytes()
                + dec_digits(id as nat) + "' already exists".spec_bytes(),
            ProtoError::NotFound(k, id) => kind_name(k) + " with id ".spec_bytes() + dec_digits(
                id as nat,
            ) + " does not exist".spec_bytes(),
            ProtoError::QueryNotFound(id) => "Query with id ".spec_bytes() + dec_digits(id as nat)
                + " does not exist".spec_bytes(),
        }
    }

    pub fn render(&self) -> (r: Vec<u8>)
        ensures
            r@ == self.spec_render(),
    {
        let mut out: Vec<u8> = Vec::new();
        match self {
            ProtoError::AlreadyExists(k, id) => {
                push_kind_name(*k, &mut out);
                push_str_bytes(" with id: '", &mut out);
                push_dec(*id, &mut out);
                push_str_bytes("' already exists", &mut out);
                assert(out@ =~= self.spec_render());
            },
            ProtoError::NotFound(k, id) => {
                push_kind_name(*k, &mut out);
                push_str_bytes(" with id ", &mut out);
                push_dec(*id, &mut out);
                push_str_bytes(" does not exist", &mut out);
                assert(out@ =~= self.spec_render());
            },
            ProtoError::QueryNotFound(id) => {
                push_str_bytes("Query with id ", &mut out);
                push_dec(*id, &mut out);
                push_str_bytes(" does not exist", &mut out);
                assert(out@ =~= self.spec_render());
            },
        }
        out
    }
}

fn push_str_bytes(s: &str, out: &mut Vec<u8>)
    ensures
        final(out)@ == old(out)@ + s.spec_bytes(),
{
    let bytes = s.as_bytes();
    let n = bytes.len();
    let mut i: usize = 0;
    while i < n
        invariant
            i <= n,
            n == bytes@.len(),
            out@ == old(out)@ + bytes@.take(i as int),
        decreases n - i,
    {
        out.push(bytes[i]);
        assert(out@ =~= old(out)@ + bytes@.take(i as int + 1));
        i = i + 1;
    }
    assert(out@ =~= old(out)@ + bytes@);
}

fn clone_bytes(v: &Vec<u8>) -> (r: Vec<u8>)
    ensures
        r@ == v@,
{
    let mut out: Vec<u8> = Vec::new();
    let n = v.len();
    let mut i: usize = 0;
    while i < n
        invariant
            i <= n,
            n == v@.len(),
            out@ == v@.take(i as int),
        decreases n - i,
    {
        out.push(v[i]);
        assert(out@ =~= v@.take(i as int + 1));
        i = i + 1;
    }
    proof {
        assert(out@ =~= v@);
    }
    out
}

/// What handling one inbound message decided.
#[derive(PartialEq, Eq, Debug)]
pub enum Step {
    /// An inline response to send back, with the request's sequence id.
    Reply(OutRemoteMessage),
    /// The message was validated against the state; the caller must now
    /// perform its fabric effect (and report success of a declare through
    /// the matching `commit_*` method).
    Act(InRemoteMessage),
    /// The request does not fit the state; no fabric call is made.
    Fail(ProtoError),
    /// The message was handled entirely within the state.
    Done,
}

/// State equality on the trackers that `handle_message` may touch.
pub open spec fn tracker_same(a: QueryTracker, b: QueryTracker) -> bool {
    a.keys() == b.keys() && a.counter() == b.counter()
}

/// The per-connection protocol state: the client's identity and the tables
/// of its live entities.
pub struct RemoteState {
    uuid: Vec<u8>,
    publishers: EntityTable,
    subscribers: EntityTable,
    queryables: EntityTable,
    queriers: EntityTable,
    liveliness_tokens: EntityTable,
    liveliness_subscribers: EntityTable,
    matching_listeners: EntityTable,
}

/// All entity tables equal except the one of the given kind.
pub open spec fn maps_eq_except(a: RemoteState, b: RemoteState, kind: EntityKind) -> bool {
    &&& (kind != EntityKind::Publisher ==> a.publishers_map() == b.publishers_map())
    &&& (kind != EntityKind::Subscriber ==> a.subscribers_map() == b.subscribers_map())
    &&& (kind != EntityKind::Queryable ==> a.queryables_map() == b.queryables_map())
    &&& (kind != EntityKind::Querier ==> a.queriers_map() == b.queriers_map())
    &&& (kind != EntityKind::LivelinessToken ==> a.liveliness_tokens_map()
        == b.liveliness_tokens_map())
    &&& (kind != EntityKind::LivelinessSubscriber ==> a.liveliness_subscribers_map()
        == b.liveliness_subscribers_map())
    &&& (kind != EntityKind::MatchingListener ==> a.matching_listeners_map()
        == b.matching_listeners_map())
    &&& a.uuid_bytes() == b.uuid_bytes()
}

impl RemoteState {
    pub closed spec fn uuid_bytes(self) -> Seq<u8> {
        self.uuid@
    }

    pub closed spec fn publishers_map(self) -> Map<u32, Seq<u8>> {
        self.publishers@
    }

    pub closed spec fn subscribers_map(self) -> Map<u32, Seq<u8>> {
        self.subscribers@
    }

    pub closed spec fn queryables_map(self) -> Map<u32, Seq<u8>> {
        self.queryables@
    }

    pub closed spec fn queriers_map(self) -> Map<u32, Seq<u8>> {
        self.queriers@
    }

    pub closed spec fn liveliness_tokens_map(self) -> Map<u32, Seq<u8>> {
        self.liveliness_tokens@
    }

    pub closed spec fn liveliness_subscribers_map(self) -> Map<u32, Seq<u8>> {
        self.liveliness_subscribers@
    }

    pub closed spec fn matching_listeners_map(self) -> Map<u32, Seq<u8>> {
        self.matching_listeners@
    }

    pub closed spec fn wf(self) -> bool {
        &&& self.publishers.wf()
        &&& self.subscribers.wf()
        &&& self.queryables.wf()
        &&& self.queriers.wf()
        &&& self.liveliness_tokens.wf()
        &&& self.liveliness_subscribers.wf()
        &&& self.matching_listeners.wf()
    }

    /// No entity of any kind is live.
    pub open spec fn is_cleared(self) -> bool {
        &&& self.publishers_map() == Map::<u32, Seq<u8>>::empty()
        &&& self.subscribers_map() == Map::<u32, Seq<u8>>::empty()
        &&& self.queryables_map() == Map::<u32, Seq<u8>>::empty()
        &&& self.queriers_map() == Map::<u32, Seq<u8>>::empty()
        &&& self.liveliness_tokens_map() == Map::<u32, Seq<u8>>::empty()
        &&& self.liveliness_subscribers_map() == Map::<u32, Seq<u8>>::empty()
        &&& self.matching_listeners_map() == Map::<u32, Seq<u8>>::empty()
    }

    /// A fresh state for a newly accepted client: its identity as echoed by
    /// ping acknowledgements, and no live entities.
    pub fn new(uuid: Vec<u8>) -> (s: RemoteState)
        ensures
            s.wf(),
            s.is_cleared(),
            s.uuid_bytes() == uuid@,
    {
        RemoteState {
            uuid,
            publishers: EntityTable::new(),
            subscribers: EntityTable::new(),
            queryables: EntityTable::new(),
            queriers: EntityTable::new(),
            liveliness_tokens: EntityTable::new(),
            liveliness_subscribers: EntityTable::new(),
            matching_listeners: EntityTable::new(),
        }
    }

    /// Dispatches one inbound message against the state.
    ///
    /// Declares are rejected while their id is live and change nothing on
    /// rejection; undeclares free the id first and hand the fabric call
    /// back; replies require the query id to still be tracked and refresh
    /// it; the final response untracks its query id; a ping is answered
    /// inline with the client's identity.
    pub fn handle_message(&mut self, pending: &mut QueryTracker, msg: InRemoteMessage) -> (step:
        Step)
        requires
            old(self).wf(),
            old(pending).wf(),
        ensures
            final(self).wf(),
            final(pending).wf(),
            match msg {
                InRemoteMessage::DeclarePublisher { id, .. } => {
                    &&& step == (if old(self).publishers_map().dom().contains(id) {
                        Step::Fail(ProtoError::AlreadyExists(EntityKind::Publisher, id))
                    } else {
                        Step::Act(msg)
                    })
                    &&& *final(self) == *old(self)
                    &&& tracker_same(*final(pending), *old(pending))
                },
                InRemoteMessage::DeclareSubscriber { id, .. } => {
                    &&& step == (if old(self).subscribers_map().dom().contains(id) {
                        Step::Fail(ProtoError::AlreadyExists(EntityKind::Subscriber, id))
                    } else {
                        Step::Act(msg)
                    })
                    &&& *final(self) == *old(self)
                    &&& tracker_same(*final(pending), *old(pending))
                },
                InRemoteMessage::DeclareQueryable { id, .. } => {
                    &&& step == (if old(self).queryables_map().dom().contains(id) {
                        Step::Fail(ProtoError::AlreadyExists(EntityKind::Queryable, id))
                    } else {
                        Step::Act(msg)
                    })
                    &&& *final(self) == *old(self)
                    &&& tracker_same(*final(pending), *old(pending))
                },
                InRemoteMessage::DeclareQuerier { id, .. } => {
                    &&& step == (if old(self).queriers_map().dom().contains(id) {
                        Step::Fail(ProtoError::AlreadyExists(EntityKind::Querier, id))
                    } else {
                        Step::Act(msg)
                    })
                    &&& *final(self) == *old(self)
                    &&& tracker_same(*final(pending), *old(pending))
                },
                InRemoteMessage::DeclareLivelinessToken { id, .. } => {
                    &&& step == (if old(self).liveliness_tokens_map().dom().contains(id) {
                        Step::Fail(ProtoError::AlreadyExists(EntityKind::LivelinessToken, id))
                    } else {
                        Step::Act(msg)
                    })
                    &&& *final(self) == *old(self)
                    &&& tracker_same(*final(pending), *old(pending))
                },
                InRemoteMessage::DeclareLivelinessSubscriber { id, .. } => {
                    &&& step == (if old(self).liveliness_subscribers_map().dom().contains(id) {
                        Step::Fail(ProtoError::AlreadyExists(EntityKind::LivelinessSubscriber, id))
                    } else {
                        Step::Act(msg)
                    })
                    &&& *final(self) == *old(self)
                    &&& tracker_same(*final(pending), *old(pending))
                },
                InRemoteMessage::UndeclarePublisher { id } => {
                    &&& (if old(self).publishers_map().dom().contains(id) {
                        &&& step == Step::Act(msg)
                        &&& final(self).publishers_map() == old(self).publishers_map().remove(id)
                        &&& maps_eq_except(*final(self), *old(self), EntityKind::Publisher)
                    } else {
                        &&& step == Step::Fail(ProtoError::NotFound(EntityKind::Publisher, id))
                        &&& *final(self) == *old(self)
                    })
                    &&& tracker_same(*final(pending), *old(pending))
                },
                InRemoteMessage::UndeclareSubscriber { id } => {
                    &&& (if old(self).subscribers_map().dom().contains(id) {
                        &&& step == Step::Act(msg)
                        &&& final(self).subscribers_map() == old(self).subscribers_map().remove(id)
                        &&& maps_eq_except(*final(self), *old(self), EntityKind::Subscriber)
                    } else {
                        &&& step == Step::Fail(ProtoError::NotFound(EntityKind::Subscriber, id))
                        &&& *final(self) == *old(self)
                    })
                    &&& tracker_same(*final(pending), *old(pending))
                },
                InRemoteMessage::UndeclareQueryable { id } => {
                    &&& (if old(self).queryables_map().dom().contains(id) {
                        &&& step == Step::Act(msg)
                        &&& final(self).queryables_map() == old(self).queryables_map().remove(id)
                        &&& maps_eq_except(*final(self), *old(self), EntityKind::Queryable)
                    } else {
                        &&& step == Step::Fail(ProtoError::NotFound(EntityKind::Queryable, id))
                        &&& *final(self) == *old(self)
                    })
                    &&& tracker_same(*final(pending), *old(pending))
                },
                InRemoteMessage::UndeclareQuerier { id } => {
                    &&& (if old(self).queriers_map().dom().contains(id) {
                        &&& step == Step::Act(msg)
                        &&& final(self).queriers_map() == old(self).queriers_map().remove(id)
                        &&& maps_eq_except(*final(self), *old(self), EntityKind::Querier)
                    } else {
                        &&& step == Step::Fail(ProtoError::NotFound(EntityKind::Querier, id))
                        &&& *final(self) == *old(self)
                    })
                    &&& tracker_same(*final(pending), *old(pending))
                },
                InRemoteMessage::UndeclareLivelinessToken { id } => {
                    &&& (if old(self).liveliness_tokens_map().dom().contains(id) {
                        &&& step == Step::Act(msg)
                        &&& final(self).liveliness_tokens_map() == old(
                            self,
                        ).liveliness_tokens_map().remove(id)
                        &&& maps_eq_except(*final(self), *old(self), EntityKind::LivelinessToken)
                    } else {
                        &&& step == Step::Fail(
                            ProtoError::NotFound(EntityKind::LivelinessToken, id),
                        )
                        &&& *final(self) == *old(self)
                    })
                    &&& tracker_same(*final(pending), *old(pending))
                },
                InRemoteMessage::UndeclareLivelinessSubscriber { id } => {
                    &&& (if old(self).liveliness_subscribers_map().dom().contains(id) {
                        &&& step == Step::Act(msg)
                        &&& final(self).liveliness_subscribers_map() == old(
                            self,
                        ).liveliness_subscribers_map().remove(id)
                        &&& maps_eq_except(
                            *final(self),
                            *old(self),
                            EntityKind::LivelinessSubscriber,
                        )
                    } else {
                        &&& step == Step::Fail(
                            ProtoError::NotFound(EntityKind::LivelinessSubscriber, id),
                        )
                        &&& *final(self) == *old(self)
                    })
                    &&& tracker_same(*final(pending), *old(pending))
                },
                InRemoteMessage::UndeclareMatchingListener { id } => {
                    &&& (if old(self).matching_listeners_map().dom().contains(id) {
                        &&& step == Step::Act(msg)
                        &&& final(self).matching_listeners_map() == old(
                            self,
                        ).matching_listeners_map().remove(id)
                        &&& maps_eq_except(*final(self), *old(self), EntityKind::MatchingListener)
                    } else {
                        &&& step == Step::Fail(
                            ProtoError::NotFound(EntityKind::MatchingListener, id),
                        )
                        &&& *final(self) == *old(self)
                    })
                    &&& tracker_same(*final(pending), *old(pending))
                },
                InRemoteMessage::PublisherPut { publisher_id, .. } => {
                    &&& step == (if old(self).publishers_map().dom().contains(publisher_id) {
                        Step::Act(msg)
                    } else {
                        Step::Fail(ProtoError::NotFound(EntityKind::Publisher, publisher_id))
                    })
                    &&& *final(self) == *old(self)
                    &&& tracker_same(*final(pending), *old(pending))
                },
                InRemoteMessage::PublisherDelete { publisher_id, .. } => {
                    &&& step == (if old(self).publishers_map().dom().contains(publisher_id) {
                        Step::Act(msg)
                    } else {
                        Step::Fail(ProtoError::NotFound(EntityKind::Publisher, publisher_id))
                    })
                    &&& *final(self) == *old(self)
                    &&& tracker_same(*final(pending), *old(pending))
                },
                InRemoteMessage::QuerierGet { querier_id, .. } => {
                    &&& step == (if old(self).queriers_map().dom().contains(querier_id) {
                        Step::Act(msg)
                    } else {
                        Step::Fail(ProtoError::NotFound(EntityKind::Querier, querier_id))
                    })
                    &&& *final(self) == *old(self)
                    &&& tracker_same(*final(pending), *old(pending))
                },
                InRemoteMessage::PublisherDeclareMatchingListener { id, publisher_id } => {
                    &&& step == (if !old(self).publishers_map().dom().contains(publisher_id) {
                        Step::Fail(ProtoError::NotFound(EntityKind::Publisher, publisher_id))
                    } else if old(self).matching_listeners_map().dom().contains(id) {
                        Step::Fail(ProtoError::AlreadyExists(EntityKind::MatchingListener, id))
                    } else {
                        Step::Act(msg)
                    })
                    &&& *final(self) == *old(self)
                    &&& tracker_same(*final(pending), *old(pending))
                },
                InRemoteMessage::QuerierDeclareMatchingListener { id, querier_id } => {
                    &&& step == (if !old(self).queriers_map().dom().contains(querier_id) {
                        Step::Fail(ProtoError::NotFound(EntityKind::Querier, querier_id))
                    } else if old(self).matching_listeners_map().dom().contains(id) {
                        Step::Fail(ProtoError::AlreadyExists(EntityKind::MatchingListener, id))
                    } else {
                        Step::Act(msg)
                    })
                    &&& *final(self) == *old(self)
                    &&& tracker_same(*final(pending), *old(pending))
                },
                InRemoteMessage::PublisherGetMatchingStatus { publisher_id } => {
                    &&& step == (if old(self).publishers_map().dom().contains(publisher_id) {
                        Step::Act(msg)
                    } else {
                        Step::Fail(ProtoError::NotFound(EntityKind::Publisher, publisher_id))
                    })
                    &&& *final(self) == *old(self)
                    &&& tracker_same(*final(pending), *old(pending))
                },
                InRemoteMessage::QuerierGetMatchingStatus { querier_id } => {
                    &&& step == (if old(self).queriers_map().dom().contains(querier_id) {
                        Step::Act(msg)
                    } else {
                        Step::Fail(ProtoError::NotFound(EntityKind::Querier, querier_id))
                    })
                    &&& *final(self) == *old(self)
                    &&& tracker_same(*final(pending), *old(pending))
                },
                InRemoteMessage::ReplyOk { query_id, .. } => {
                    &&& (if old(pending).keys().contains(query_id) {
                        &&& step == Step::Act(msg)
                        &&& final(pending).keys() == seq![query_id] + seq_without(
                            old(pending).keys(),
                            query_id,
                        )
                    } else {
                        &&& step == Step::Fail(ProtoError::QueryNotFound(query_id))
                        &&& final(pending).keys() == old(pending).keys()
                    })
                    &&& final(pending).counter() == old(pending).counter()
                    &&& *final(self) == *old(self)
                },
                InRemoteMessage::ReplyDel { query_id, .. } => {
                    &&& (if old(pending).keys().contains(query_id) {
                        &&& step == Step::Act(msg)
                        &&& final(pending).keys() == seq![query_id] + seq_without(
                            old(pending).keys(),
                            query_id,
                        )
                    } else {
                        &&& step == Step::Fail(ProtoError::QueryNotFound(query_id))
                        &&& final(pending).keys() == old(pending).keys()
                    })
                    &&& final(pending).counter() == old(pending).counter()
                    &&& *final(self) == *old(self)
                },
                InRemoteMessage::ReplyErr { query_id, .. } => {
                    &&& (if old(pending).keys().contains(query_id) {
                        &&& step == Step::Act(msg)
                        &&& final(pending).keys() == seq![query_id] + seq_without(
                            old(pending).keys(),
                            query_id,
                        )
                    } else {
                        &&& step == Step::Fail(ProtoError::QueryNotFound(query_id))
                        &&& final(pending).keys() == old(pending).keys()
                    })
                    &&& final(pending).counter() == old(pending).counter()
                    &&& *final(self) == *old(self)
                },
                InRemoteMessage::QueryResponseFinal { query_id } => {
                    &&& step == (if old(pending).keys().contains(query_id) {
                        Step::Done
                    } else {
                        Step::Fail(ProtoError::QueryNotFound(query_id))
                    })
                    &&& final(pending).keys() == seq_without(old(pending).keys(), query_id)
                    &&& final(pending).counter() == old(pending).counter()
                    &&& *final(self) == *old(self)
                },
                InRemoteMessage::Ping => {
                    &&& step matches Step::Reply(m) && m@ == (OutRemoteMessageV::PingAck {
                        uuid: old(self).uuid_bytes(),
                    })
                    &&& *final(self) == *old(self)
                    &&& tracker_same(*final(pending), *old(pending))
                },
                _ => {
                    &&& step == Step::Act(msg)
                    &&& *final(self) == *old(self)
                    &&& tracker_same(*final(pending), *old(pending))
                },
            },
    {
        match msg {
            InRemoteMessage::DeclarePublisher { id, keyexpr, encoding, qos } => {
                if self.publishers.contains(id) {
                    Step::Fail(ProtoError::AlreadyExists(EntityKind::Publisher, id))
                } else {
                    Step::Act(InRemoteMessage::DeclarePublisher { id, keyexpr, encoding, qos })
                }
            },
            InRemoteMessage::DeclareSubscriber { id, keyexpr, allowed_origin } => {
                if self.subscribers.contains(id) {
                    Step::Fail(ProtoError::AlreadyExists(EntityKind::Subscriber, id))
                } else {
                    Step::Act(InRemoteMessage::DeclareSubscriber { id, keyexpr, allowed_origin })
                }
            },
            InRemoteMessage::DeclareQueryable { id, keyexpr, complete, allowed_origin } => {
                if self.queryables.contains(id) {
                    Step::Fail(ProtoError::AlreadyExists(EntityKind::Queryable, id))
                } else {
                    Step::Act(
                        InRemoteMessage::DeclareQueryable { id, keyexpr, complete, allowed_origin },
                    )
                }
            },
            InRemoteMessage::DeclareQuerier { id, keyexpr, qos, query_settings, timeout_ms } => {
                if self.queriers.contains(id) {
                    Step::Fail(ProtoError::AlreadyExists(EntityKind::Querier, id))
                } else {
                    Step::Act(
                        InRemoteMessage::DeclareQuerier {
                            id,
                            keyexpr,
                            qos,
                            query_settings,
                            timeout_ms,
                        },
                    )
                }
            },
            InRemoteMessage::DeclareLivelinessToken { id, keyexpr } => {
                if self.liveliness_tokens.contains(id) {
                    Step::Fail(ProtoError::AlreadyExists(EntityKind::LivelinessToken, id))
                } else {
                    Step::Act(InRemoteMessage::DeclareLivelinessToken { id, keyexpr })
                }
            },
            InRemoteMessage::DeclareLivelinessSubscriber { id, keyexpr, history } => {
                if self.liveliness_subscribers.contains(id) {
                    Step::Fail(ProtoError::AlreadyExists(EntityKind::LivelinessSubscriber, id))
                } else {
                    Step::Act(
                        InRemoteMessage::DeclareLivelinessSubscriber { id, keyexpr, history },
                    )
                }
            },
            InRemoteMessage::UndeclarePublisher { id } => {
                if self.publishers.remove(id) {
                    Step::Act(InRemoteMessage::UndeclarePublisher { id })
                } else {
                    Step::Fail(ProtoError::NotFound(EntityKind::Publisher, id))
                }
            },
            InRemoteMessage::UndeclareSubscriber { id } => {
                if self.subscribers.remove(id) {
                    Step::Act(InRemoteMessage::UndeclareSubscriber { id })
                } else {
                    Step::Fail(ProtoError::NotFound(EntityKind::Subscriber, id))
                }
            },
            InRemoteMessage::UndeclareQueryable { id } => {
                if self.queryables.remove(id) {
                    Step::Act(InRemoteMessage::UndeclareQueryable { id })
                } else {
                    Step::Fail(ProtoError::NotFound(EntityKind::Queryable, id))
                }
            },
            InRemoteMessage::UndeclareQuerier { id } => {
                if self.queriers.remove(id) {
                    Step::Act(InRemoteMessage::UndeclareQuerier { id })
                } else {
                    Step::Fail(ProtoError::NotFound(EntityKind::Querier, id))
                }
            },
            InRemoteMessage::UndeclareLivelinessToken { id } => {
                if self.liveliness_tokens.remove(id) {
                    Step::Act(InRemoteMessage::UndeclareLivelinessToken { id })
                } else {
                    Step::Fail(ProtoError::NotFound(EntityKind::LivelinessToken, id))
                }
            },
            InRemoteMessage::UndeclareLivelinessSubscriber { id } => {
                if self.liveliness_subscribers.remove(id) {
                    Step::Act(InRemoteMessage::UndeclareLivelinessSubscriber { id })
                } else {
                    Step::Fail(ProtoError::NotFound(EntityKind::LivelinessSubscriber, id))
                }
            },
            InRemoteMessage::UndeclareMatchingListener { id } => {
                if self.matching_listeners.remove(id) {
                    Step::Act(InRemoteMessage::UndeclareMatchingListener { id })
                } else {
                    Step::Fail(ProtoError::NotFound(EntityKind::MatchingListener, id))
                }
            },
            InRemoteMessage::PublisherPut { publisher_id, payload, encoding, attachment, timestamp
            } => {
                if self.publishers.contains(publisher_id) {
                    Step::Act(
                        InRemoteMessage::PublisherPut {
                            publisher_id,
                            payload,
                            encoding,
                            attachment,
                            timestamp,
                        },
                    )
                } else {
                    Step::Fail(ProtoError::NotFound(EntityKind::Publisher, publisher_id))
                }
            },
            InRemoteMessage::PublisherDelete { publisher_id, attachment, timestamp } => {
                if self.publishers.contains(publisher_id) {
                    Step::Act(
                        InRemoteMessage::PublisherDelete { publisher_id, attachment, timestamp },
                    )
                } else {
                    Step::Fail(ProtoError::NotFound(EntityKind::Publisher, publisher_id))
                }
            },
            InRemoteMessage::QuerierGet { id, querier_id, parameters, payload, encoding, attachment
            } => {
                if self.queriers.contains(querier_id) {
                    Step::Act(
                        InRemoteMessage::QuerierGet {
                            id,
                            querier_id,
                            parameters,
                            payload,
                            encoding,
                            attachment,
                        },
                    )
                } else {
                    Step::Fail(ProtoError::NotFound(EntityKind::Querier, querier_id))
                }
            },
            InRemoteMessage::PublisherDeclareMatchingListener { id, publisher_id } => {
                if !self.publishers.contains(publisher_id) {
                    Step::Fail(ProtoError::NotFound(EntityKind::Publisher, publisher_id))
                } else if self.matching_listeners.contains(id) {
                    Step::Fail(ProtoError::AlreadyExists(EntityKind::MatchingListener, id))
                } else {
                    Step::Act(
                        InRemoteMessage::PublisherDeclareMatchingListener { id, publisher_id },
                    )
                }
            },
            InRemoteMessage::QuerierDeclareMatchingListener { id, querier_id } => {
                if !self.queriers.contains(querier_id) {
                    Step::Fail(ProtoError::NotFound(EntityKind::Querier, querier_id))
                } else if self.matching_listeners.contains(id) {
                    Step::Fail(ProtoError::AlreadyExists(EntityKind::MatchingListener, id))
                } else {
                    Step::Act(InRemoteMessage::QuerierDeclareMatchingListener { id, querier_id })
                }
            },
            InRemoteMessage::PublisherGetMatchingStatus { publisher_id } => {
                if self.publishers.contains(publisher_id) {
                    Step::Act(InRemoteMessage::PublisherGetMatchingStatus { publisher_id })
                } else {
                    Step::Fail(ProtoError::NotFound(EntityKind::Publisher, publisher_id))
                }
            },
            InRemoteMessage::QuerierGetMatchingStatus { querier_id } => {
                if self.queriers.contains(querier_id) {
                    Step::Act(InRemoteMessage::QuerierGetMatchingStatus { querier_id })
                } else {
                    Step::Fail(ProtoError::NotFound(EntityKind::Querier, querier_id))
                }
            },
            InRemoteMessage::ReplyOk {
                query_id,
                keyexpr,
                payload,
                encoding,
                attachment,
                timestamp,
                qos,
            } => {
                if pending.touch(query_id) {
                    Step::Act(
                        InRemoteMessage::ReplyOk {
                            query_id,
                            keyexpr,
                            payload,
                            encoding,
                            attachment,
                            timestamp,
                            qos,
                        },
                    )
                } else {
                    Step::Fail(ProtoError::QueryNotFound(query_id))
                }
            },
            InRemoteMessage::ReplyDel { query_id, keyexpr, attachment, timestamp, qos } => {
                if pending.touch(query_id) {
                    Step::Act(
                        InRemoteMessage::ReplyDel { query_id, keyexpr, attachment, timestamp, qos },
                    )
                } else {
                    Step::Fail(ProtoError::QueryNotFound(query_id))
                }
            },
            InRemoteMessage::ReplyErr { query_id, payload, encoding } => {
                if pending.touch(query_id) {
                    Step::Act(InRemoteMessage::ReplyErr { query_id, payload, encoding })
                } else {
                    Step::Fail(ProtoError::QueryNotFound(query_id))
                }
            },
            InRemoteMessage::QueryResponseFinal { query_id } => {
                if pending.finish(query_id) {
                    Step::Done
                } else {
                    Step::Fail(ProtoError::QueryNotFound(query_id))
                }
            },
            InRemoteMessage::Ping => {
                Step::Reply(OutRemoteMessage::PingAck { uuid: clone_bytes(&self.uuid) })
            },
            other => Step::Act(other),
        }
    }

    /// Records that the fabric accepted a publisher declaration.
    pub fn commit_declare_publisher(&mut self, id: u32, keyexpr: Vec<u8>)
        requires
            old(self).wf(),
        ensures
            final(self).wf(),
            final(self).publishers_map() == old(self).publishers_map().insert(id, keyexpr@),
            maps_eq_except(*final(self), *old(self), EntityKind::Publisher),
    {
        self.publishers.remove(id);
        self.publishers.insert(id, keyexpr);
        proof {
            assert(self.publishers_map() =~= old(self).publishers_map().insert(
                id,
                self.publishers_map()[id],
            ));
        }
    }

    /// Records that the fabric accepted a subscriber declaration.
    pub fn commit_declare_subscriber(&mut self, id: u32, keyexpr: Vec<u8>)
        requires
            old(self).wf(),
        ensures
            final(self).wf(),
            final(self).subscribers_map() == old(self).subscribers_map().insert(id, keyexpr@),
            maps_eq_except(*final(self), *old(self), EntityKind::Subscriber),
    {
        self.subscribers.remove(id);
        self.subscribers.insert(id, keyexpr);
        proof {
            assert(self.subscribers_map() =~= old(self).subscribers_map().insert(
                id,
                self.subscribers_map()[id],
            ));
        }
    }

    /// Records that the fabric accepted a queryable declaration.
    pub fn commit_declare_queryable(&mut self, id: u32, keyexpr: Vec<u8>)
        requires
            old(self).wf(),
        ensures
            final(self).wf(),
            final(self).queryables_map() == old(self).queryables_map().insert(id, keyexpr@),
            maps_eq_except(*final(self), *old(self), EntityKind::Queryable),
    {
        self.queryables.remove(id);
        self.queryables.insert(id, keyexpr);
        proof {
            assert(self.queryables_map() =~= old(self).queryables_map().insert(
                id,
                self.queryables_map()[id],
            ));
        }
    }

    /// Records that the fabric accepted a querier declaration.
    pub fn commit_declare_querier(&mut self, id: u32, keyexpr: Vec<u8>)
        requires
            old(self).wf(),
        ensures
            final(self).wf(),
            final(self).queriers_map() == old(self).queriers_map().insert(id, keyexpr@),
            maps_eq_except(*final(self), *old(self), EntityKind::Querier),
    {
        self.queriers.remove(id);
        self.queriers.insert(id, keyexpr);
        proof {
            assert(self.queriers_map() =~= old(self).queriers_map().insert(
                id,
                self.queriers_map()[id],
            ));
        }
    }

    /// Records that the fabric accepted a liveliness-token declaration.
    pub fn commit_declare_liveliness_token(&mut self, id: u32, keyexpr: Vec<u8>)
        requires
            old(self).wf(),
        ensures
            final(self).wf(),
            final(self).liveliness_tokens_map() == old(self).liveliness_tokens_map().insert(
                id,
                keyexpr@,
            ),
            maps_eq_except(*final(self), *old(self), EntityKind::LivelinessToken),
    {
        self.liveliness_tokens.remove(id);
        self.liveliness_tokens.insert(id, keyexpr);
        proof {
            assert(self.liveliness_tokens_map() =~= old(self).liveliness_tokens_map().insert(
                id,
                self.liveliness_tokens_map()[id],
            ));
        }
    }

    /// Records that the fabric accepted a liveliness-subscriber declaration.
    pub fn commit_declare_liveliness_subscriber(&mut self, id: u32, keyexpr: Vec<u8>)
        requires
            old(self).wf(),
        ensures
            final(self).wf(),
            final(self).liveliness_subscribers_map() == old(
                self,
            ).liveliness_subscribers_map().insert(id, keyexpr@),
            maps_eq_except(*final(self), *old(self), EntityKind::LivelinessSubscriber),
    {
        self.liveliness_subscribers.remove(id);
        self.liveliness_subscribers.insert(id, keyexpr);
        proof {
            assert(self.liveliness_subscribers_map()
                =~= old(self).liveliness_subscribers_map().insert(
                id,
                self.liveliness_subscribers_map()[id],
            ));
        }
    }

    /// Records that the fabric accepted a matching-listener declaration.
    /// Listeners carry no key expression of their own.
    pub fn commit_declare_matching_listener(&mut self, id: u32)
        requires
            old(self).wf(),
        ensures
            final(self).wf(),
            final(self).matching_listeners_map() == old(self).matching_listeners_map().insert(
                id,
                Seq::<u8>::empty(),
            ),
            maps_eq_except(*final(self), *old(self), EntityKind::MatchingListener),
    {
        self.matching_listeners.remove(id);
        self.matching_listeners.insert(id, Vec::new());
        proof {
            assert(self.matching_listeners_map() =~= old(self).matching_listeners_map().insert(
                id,
                self.matching_listeners_map()[id],
            ));
        }
    }

    /// Forgets every live entity, on connection teardown: afterwards no
    /// entity of this connection is live. The caller must drop or
    /// undeclare the fabric handles it holds for them.
    pub fn clear(&mut self)
        ensures
            final(self).wf(),
            final(self).is_cleared(),
            final(self).uuid_bytes() == old(self).uuid_bytes(),
    {
        self.publishers.clear();
        self.subscribers.clear();
        self.queryables.clear();
        self.queriers.clear();
        self.liveliness_tokens.clear();
        self.liveliness_subscribers.clear();
        self.matching_listeners.clear();
    }
}

/// Decides the terminal frame for one handled request, from its header and
/// its outcome.
///
/// An inline response travels with the request's sequence id. A successful
/// request without an inline response is acknowledged with `Ack` carrying
/// the request's tag — exactly when the client asked for an ack by sending
/// a sequence id. An error is reported in an `Error` frame under the same
/// condition, and is otherwise dropped. So for every request that carried a
/// sequence id, exactly one frame with that sequence id is emitted.
pub fn respond(header: &Header, outcome: Result<Option<OutRemoteMessage>, Vec<u8>>) -> (r: Option<
    (OutRemoteMessage, Option<u32>),
>)
    ensures
        match outcome {
            Ok(Some(m)) => r == Some((m, header.sequence_id)),
            Ok(None) => {
                if header.sequence_id is Some {
                    r == Some((OutRemoteMessage::Ack { tag: header.tag }, header.sequence_id))
                } else {
                    r is None
                }
            },
            Err(text) => {
                if header.sequence_id is Some {
                    r == Some(
                        (OutRemoteMessage::Error { message: text }, header.sequence_id),
                    )
                } else {
                    r is None
                }
            },
        },
{
    match outcome {
        Ok(Some(m)) => Some((m, header.sequence_id)),
        Ok(None) => {
            match header.sequence_id {
                Some(sid) => Some((OutRemoteMessage::Ack { tag: header.tag }, Some(sid))),
                None => None,
            }
        },
        Err(text) => {
            match header.sequence_id {
                Some(sid) => Some((OutRemoteMessage::Error { message: text }, Some(sid))),
                None => None,
            }
        },
    }
}

} // verus!
