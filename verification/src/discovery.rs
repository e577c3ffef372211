//! The decisions of one discovery: which replies count, when the listening
//! window closes, and what it ends in.
//!
//! Nothing here touches a socket or a clock. The caller opens an endpoint,
//! broadcasts the identify request and reads a monotonic clock; it hands
//! each thing that happens to [`Discovery::step`] and does what the returned
//! [`Action`] says.

use crate::error::Error;
use crate::info::{is_reply, parse_failure_text, ControllerInfo};
use crate::ipv4::ipv4_bits;
use crate::request::{build_discovery, discovery_request, is_discovery_request};
use std::collections::HashMap;
use vstd::prelude::*;
use vstd::std_specs::hash::*;
use vstd::std_specs::iter::IteratorSpec;

verus! {

broadcast use vstd::std_specs::hash::group_hash_axioms;

/// The UDP port on which controllers listen.
pub const CONTROLLER_PORT: u16 = 3040;

/// The listening window where the caller names none: 500 ms, in nanoseconds.
pub const DEFAULT_BUDGET_NANOS: u128 = 500_000_000;

/// The longest that one receive attempt may wait, in milliseconds.
pub const RECEIVE_TIMEOUT_MILLIS: u64 = 100;

/// A datagram shorter than this cannot hold the IP address of its sender's
/// reply and is passed over.
pub const MIN_DATAGRAM_LEN: usize = 24;

/// One thing that happened on the caller's side.
#[derive(Debug)]
pub enum Event {
    /// The endpoint could not be opened or set up for broadcast, or the
    /// request could not be sent.
    SetupFailed(std::io::Error),
    /// The request has been sent; nothing has been received yet.
    Sent,
    /// A receive attempt returned this datagram.
    Datagram(Vec<u8>),
    /// A receive attempt waited its full time and nothing came.
    TimedOut,
    /// A receive attempt failed below the protocol.
    ReceiveFailed,
}

/// What the caller is to do next.
#[derive(Debug)]
pub enum Action {
    /// Attempt one receive, for at most `RECEIVE_TIMEOUT_MILLIS`.
    Receive,
    /// Stop: the discovery has ended in this result.
    Finish(Result<Vec<ControllerInfo>, Error>),
}

/// The state of a discovery as a mathematical value.
pub ghost struct DiscoveryState {
    /// Length of the listening window in nanoseconds.
    pub budget: u128,
    /// The latest snapshot of each controller that has answered, by its IP
    /// address as a number.
    pub found: Map<u32, ControllerInfo>,
}

/// The key under which a snapshot is kept: its IP address as a number.
pub open spec fn key_of(info: ControllerInfo) -> u32 {
    ipv4_bits(info.ip_addr()@)
}

/// Whether a datagram ends the whole discovery in a structural-parse
/// failure: it is long enough to be looked at and is no reply.
pub open spec fn aborts(datagram: Seq<u8>) -> bool {
    datagram.len() >= MIN_DATAGRAM_LEN && !is_reply(datagram)
}

/// Whether an event is a datagram that `aborts`.
pub open spec fn event_aborts(event: Event) -> bool {
    event matches Event::Datagram(datagram) && aborts(datagram@)
}

/// The controllers known after `datagram` has been looked at: a reply
/// replaces whatever was known of its address, anything else changes
/// nothing.
pub open spec fn accepted(found: Map<u32, ControllerInfo>, datagram: Seq<u8>) -> Map<
    u32,
    ControllerInfo,
> {
    if is_reply(datagram) {
        found.insert(key_of(ControllerInfo::decoding(datagram)), ControllerInfo::decoding(datagram))
    } else {
        found
    }
}

/// Whether `list` holds the snapshots of `found`, each once, in some order.
pub open spec fn lists(found: Map<u32, ControllerInfo>, list: Seq<ControllerInfo>) -> bool {
    &&& list.len() == found.dom().len()
    &&& forall|i: int|
        0 <= i < list.len() ==> found.contains_key(#[trigger] key_of(list[i])) && found[key_of(
            list[i],
        )] == list[i]
    &&& forall|i: int, j: int|
        0 <= i < j < list.len() ==> key_of(#[trigger] list[i]) != key_of(#[trigger] list[j])
    &&& forall|k: u32| found.contains_key(k) ==> list.contains(#[trigger] found[k])
}

/// Whether `result` is what a discovery that knows `found` ends in when its
/// window closes: not-found if it knows no controller, else the list of
/// those it knows.
pub open spec fn is_outcome(
    found: Map<u32, ControllerInfo>,
    result: Result<Vec<ControllerInfo>, Error>,
) -> bool {
    if found.dom().is_empty() {
        result == Err::<Vec<ControllerInfo>, Error>(Error::NotFound)
    } else {
        result matches Ok(list) && lists(found, list@)
    }
}

impl DiscoveryState {
    /// Every snapshot is kept under its own address, and there are finitely
    /// many.
    pub open spec fn wf(self) -> bool {
        &&& self.found.dom().finite()
        &&& forall|k: u32| self.found.contains_key(k) ==> key_of(#[trigger] self.found[k]) == k
    }

    /// Whether the step from `self` on `event`, with `elapsed` nanoseconds
    /// gone since the request was sent, leads to `next` and asks for
    /// `action`.
    ///
    /// A failed setup ends the discovery in that transport failure. A
    /// datagram that `aborts` ends it in a structural-parse failure. After
    /// anything else the window is tested: while it is open the caller
    /// receives once more; once it has closed the discovery ends in its
    /// outcome.
    pub open spec fn steps(
        self,
        event: Event,
        elapsed: u128,
        next: DiscoveryState,
        action: Action,
    ) -> bool {
        match event {
            Event::SetupFailed(e) => {
                &&& next == self
                &&& action == Action::Finish(Err(Error::Io(e)))
            },
            Event::Datagram(datagram) if aborts(datagram@) => {
                &&& next == self
                &&& action matches Action::Finish(Err(e))
                &&& e.is_parse_error(parse_failure_text(datagram@))
            },
            Event::Datagram(datagram) => {
                &&& next.budget == self.budget
                &&& next.found == accepted(self.found, datagram@)
                &&& next.closes(elapsed, action)
            },
            _ => {
                &&& next == self
                &&& next.closes(elapsed, action)
            },
        }
    }

    /// Whether `action` is what the test of the window asks for: to receive
    /// while `elapsed` is below the budget, to finish with the outcome from
    /// then on.
    pub open spec fn closes(self, elapsed: u128, action: Action) -> bool {
        if elapsed < self.budget {
            action == Action::Receive
        } else {
            action matches Action::Finish(result) && is_outcome(self.found, result)
        }
    }
}

/// One discovery in progress: the length of its listening window and the
/// controllers that have answered so far.
pub struct Discovery {
    budget: u128,
    found: HashMap<u32, ControllerInfo>,
}

impl View for Discovery {
    type V = DiscoveryState;

    closed spec fn view(&self) -> DiscoveryState {
        DiscoveryState { budget: self.budget, found: self.found@ }
    }
}

impl Discovery {
    #[verifier::type_invariant]
    closed spec fn inv(&self) -> bool {
        self@.wf()
    }

    /// A discovery that knows no controller yet. Its window is `budget_nanos`
    /// nanoseconds long, or 500 ms where none is given.
    pub fn new(budget_nanos: Option<u128>) -> (discovery: Self)
        ensures
            discovery@.budget == match budget_nanos {
                Some(nanos) => nanos,
                None => DEFAULT_BUDGET_NANOS,
            },
            discovery@.found == Map::<u32, ControllerInfo>::empty(),
            discovery@.wf(),
    {
        let budget = match budget_nanos {
            Some(nanos) => nanos,
            None => DEFAULT_BUDGET_NANOS,
        };
        Discovery { budget, found: HashMap::new() }
    }

    /// The request to broadcast, once, to port `CONTROLLER_PORT`: an identify
    /// request with a fresh random sequence number.
    pub fn request(&self) -> (request: Vec<u8>)
        ensures
            exists|seq: u16| request@ == discovery_request(seq),
            is_discovery_request(request@),
    {
        build_discovery()
    }

    /// The length of the listening window in nanoseconds.
    pub fn budget_nanos(&self) -> (nanos: u128)
        ensures
            nanos == self@.budget,
    {
        self.budget
    }

    /// Whether the window is still open `elapsed_nanos` after the request
    /// was sent.
    pub fn is_open(&self, elapsed_nanos: u128) -> (open: bool)
        ensures
            open == (elapsed_nanos < self@.budget),
    {
        elapsed_nanos < self.budget
    }

    /// Looks at one datagram and hands the discovery back.
    ///
    /// One shorter than 24 bytes is passed over. A longer one is decoded: a
    /// reply replaces what was known of its IP address; anything else is a
    /// structural-parse failure, which leaves the state as it was.
    pub fn accept(self, datagram: &[u8]) -> (next: (Discovery, Result<(), Error>))
        ensures
            next.1 is Err <==> aborts(datagram@),
            next.1 matches Err(e) ==> e.is_parse_error(parse_failure_text(datagram@)),
            next.1 is Err ==> next.0@ == self@,
            next.1 is Ok ==> next.0@.budget == self@.budget,
            next.1 is Ok ==> next.0@.found == accepted(self@.found, datagram@),
            next.0@.wf(),
    {
        proof {
            use_type_invariant(&self);
        }
        if datagram.len() < MIN_DATAGRAM_LEN {
            return (self, Ok(()));
        }
        match ControllerInfo::from_bytes(datagram) {
            Err(e) => (self, Err(e)),
            Ok(controller) => {
                let Discovery { budget, mut found } = self;
                let key = controller.ip_addr().to_bits();
                found.insert(key, controller);
                (Discovery { budget, found }, Ok(()))
            },
        }
    }

    /// What the discovery ends in, were its window to close now.
    pub fn outcome(&self) -> (result: Result<Vec<ControllerInfo>, Error>)
        ensures
            is_outcome(self@.found, result),
            result is Err <==> self@.found.dom().is_empty(),
    {
        proof {
            use_type_invariant(self);
        }
        if self.found.is_empty() {
            return Err(Error::NotFound);
        }
        let mut list: Vec<ControllerInfo> = Vec::new();
        let entries = self.found.iter();
        for entry in it: entries
            invariant
                list@.len() == it.index(),
                it.seq() == spec_hash_map_iter(&self.found).remaining(),
                forall|j: int| 0 <= j < list@.len() ==> list@[j] == *(#[trigger] it.seq()[j]).1,
        {
            let (_, controller) = entry;
            list.push(*controller);
        }
        proof {
            let found = self.found@;
            let entries = spec_hash_map_iter(&self.found).remaining();
            assert forall|i: int| 0 <= i < list@.len() implies found.contains_key(
                #[trigger] key_of(list@[i]),
            ) && found[key_of(list@[i])] == list@[i] by {
                assert(found.contains_key(*entries[i].0));
            }
            assert forall|i: int, j: int| 0 <= i < j < list@.len() implies key_of(
                #[trigger] list@[i],
            ) != key_of(#[trigger] list@[j]) by {
                assert(found.contains_key(*entries[i].0));
                assert(found.contains_key(*entries[j].0));
                if key_of(list@[i]) == key_of(list@[j]) {
                    assert(entries[i] == entries[j]);
                }
            }
            assert forall|k: u32| found.contains_key(k) implies list@.contains(
                #[trigger] found[k],
            ) by {
                assert(entries.contains((&k, &found[k])));
                let i = choose|i: int| 0 <= i < entries.len() && entries[i] == (&k, &found[k]);
                assert(list@[i] == found[k]);
            }
        }
        Ok(list)
    }

    /// Takes one event with the clock reading that followed it, and says
    /// what the caller is to do next.
    ///
    /// `elapsed_nanos` is the time since the request was sent, read on a
    /// monotonic clock after the event.
    pub fn step(self, event: Event, elapsed_nanos: u128) -> (next: (Discovery, Action))
        ensures
            self@.steps(event, elapsed_nanos, next.0@, next.1),
            next.0@.wf(),
    {
        proof {
            use_type_invariant(&self);
        }
        let discovery = match event {
            Event::SetupFailed(e) => {
                return (self, Action::Finish(Err(Error::Io(e))));
            },
            Event::Datagram(datagram) => {
                let (discovery, accepted) = self.accept(datagram.as_slice());
                match accepted {
                    Err(e) => {
                        return (discovery, Action::Finish(Err(e)));
                    },
                    Ok(()) => discovery,
                }
            },
            Event::Sent => self,
            Event::TimedOut => self,
            Event::ReceiveFailed => self,
        };
        if discovery.is_open(elapsed_nanos) {
            (discovery, Action::Receive)
        } else {
            let result = discovery.outcome();
            (discovery, Action::Finish(result))
        }
    }
}

/// A snapshot that a discovery knows stands in every list of its outcome
/// exactly once: at one place, and nowhere else is there one of the same
/// address.
pub proof fn lemma_listed_once(state: DiscoveryState, list: Seq<ControllerInfo>, key: u32)
    requires
        state.wf(),
        lists(state.found, list),
        state.found.contains_key(key),
    ensures
        exists|i: int|
            0 <= i < list.len() && list[i] == state.found[key] && forall|j: int|
                0 <= j < list.len() && key_of(#[trigger] list[j]) == key ==> j == i,
{
    assert(list.contains(state.found[key]));
    let i = choose|i: int| 0 <= i < list.len() && list[i] == state.found[key];
    assert forall|j: int| 0 <= j < list.len() && key_of(#[trigger] list[j]) == key implies j
        == i by {
        if j < i {
            assert(key_of(list[j]) != key_of(list[i]));
        } else if i < j {
            assert(key_of(list[i]) != key_of(list[j]));
        }
    }
}

/// Two replies from one IPv4 address collapse to one entry, and the later
/// one wins: after both, the discovery knows what it would know had the
/// first never come, and every list of its outcome holds the second reply's
/// snapshot and no other of that address.
pub proof fn lemma_same_address_collapses(
    state: DiscoveryState,
    first: Seq<u8>,
    second: Seq<u8>,
    list: Seq<ControllerInfo>,
)
    requires
        state.wf(),
        is_reply(first),
        is_reply(second),
        ControllerInfo::decoding(first).ip_addr() == ControllerInfo::decoding(second).ip_addr(),
        lists(accepted(accepted(state.found, first), second), list),
    ensures
        accepted(accepted(state.found, first), second) == accepted(state.found, second),
        accepted(accepted(state.found, first), second).dom() == state.found.dom().insert(
            key_of(ControllerInfo::decoding(second)),
        ),
        exists|i: int|
            0 <= i < list.len() && list[i] == ControllerInfo::decoding(second) && forall|j: int|
                0 <= j < list.len() && (#[trigger] list[j]).ip_addr()
                    == ControllerInfo::decoding(second).ip_addr() ==> j == i,
{
    let a = ControllerInfo::decoding(first);
    let b = ControllerInfo::decoding(second);
    let after = accepted(accepted(state.found, first), second);
    assert(key_of(a) == key_of(b));
    assert(after =~= accepted(state.found, second));
    assert(after.dom() =~= state.found.dom().insert(key_of(b)));
    let next = DiscoveryState { budget: state.budget, found: after };
    lemma_accepted_wf(state, second);
    lemma_listed_once(next, list, key_of(b));
    let i = choose|i: int|
        0 <= i < list.len() && list[i] == after[key_of(b)] && forall|j: int|
            0 <= j < list.len() && key_of(#[trigger] list[j]) == key_of(b) ==> j == i;
    assert forall|j: int|
        0 <= j < list.len() && (#[trigger] list[j]).ip_addr() == b.ip_addr() implies j == i by {
        assert(key_of(list[j]) == key_of(b));
    }
}

/// Looking at a datagram keeps every snapshot under its own address.
pub proof fn lemma_accepted_wf(state: DiscoveryState, datagram: Seq<u8>)
    requires
        state.wf(),
    ensures
        (DiscoveryState { budget: state.budget, found: accepted(state.found, datagram) }).wf(),
{
}

/// The list that a discovery ends in holds no two snapshots of one IPv4
/// address.
pub proof fn lemma_listed_addresses_differ(
    found: Map<u32, ControllerInfo>,
    list: Seq<ControllerInfo>,
    i: int,
    j: int,
)
    requires
        lists(found, list),
        0 <= i < list.len(),
        0 <= j < list.len(),
        i != j,
    ensures
        list[i].ip_addr() != list[j].ip_addr(),
{
    if i < j {
        assert(key_of(list[i]) != key_of(list[j]));
    } else {
        assert(key_of(list[j]) != key_of(list[i]));
    }
}

/// With a window of length zero and no traffic, a discovery that knows no
/// controller ends in not-found at its first step, whatever the clock says,
/// without asking for a single receive.
pub proof fn lemma_zero_budget_not_found(
    state: DiscoveryState,
    event: Event,
    elapsed: u128,
    next: DiscoveryState,
    action: Action,
)
    requires
        state.budget == 0,
        state.found == Map::<u32, ControllerInfo>::empty(),
        event is Sent || event is TimedOut || event is ReceiveFailed,
        state.steps(event, elapsed, next, action),
    ensures
        action == Action::Finish(Err(Error::NotFound)),
        next == state,
{
}

/// While the window is open, nothing but a failed setup or a datagram that
/// is long enough and no reply ends a discovery.
pub proof fn lemma_open_window_receives(
    state: DiscoveryState,
    event: Event,
    elapsed: u128,
    next: DiscoveryState,
    action: Action,
)
    requires
        elapsed < state.budget,
        state.steps(event, elapsed, next, action),
    ensures
        action == Action::Receive <==> !(event is SetupFailed) && !event_aborts(event),
{
}

/// Once the window has closed, every step ends the discovery; it ends in
/// not-found exactly when no controller is known by then.
pub proof fn lemma_closed_window_finishes(
    state: DiscoveryState,
    event: Event,
    elapsed: u128,
    next: DiscoveryState,
    action: Action,
)
    requires
        elapsed >= state.budget,
        state.steps(event, elapsed, next, action),
    ensures
        action is Finish,
        !(event is SetupFailed) && !event_aborts(event) ==> (action == Action::Finish(
            Err(Error::NotFound),
        ) <==> next.found.dom().is_empty()),
{
}

} // verus!
