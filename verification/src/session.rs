//! Events delivered by the runtime and what the client does about each.
use vstd::prelude::*;

use crate::codes::{SessionState, StructureType};

verus! {

/// Number of event-specific bytes an event buffer holds after its header.
pub const EVENT_PAYLOAD_LEN: usize = 4000;

/// Offset, within the payload of a state-change event, of the session handle.
pub const SESSION_OFFSET: usize = 0;

/// Offset, within the payload of a state-change event, of the new state.
pub const STATE_OFFSET: usize = 8;

/// Offset, within the payload of a state-change event, of its time.
pub const TIME_OFFSET: usize = 16;

/// `256` to the power `n`.
pub open spec fn byte_power(n: nat) -> int
    decreases n,
{
    if n == 0 {
        1
    } else {
        256 * byte_power((n - 1) as nat)
    }
}

/// The unsigned number stored in the `n` bytes of `bytes` from `at` on,
/// least significant byte first.
pub open spec fn le_value(bytes: Seq<u8>, at: int, n: nat) -> int
    decreases n,
{
    if n == 0 {
        0
    } else {
        bytes[at] + 256 * le_value(bytes, at + 1, (n - 1) as nat)
    }
}

/// Reads the unsigned number stored in `n` bytes of `bytes` from `at` on,
/// least significant byte first.
fn read_le(bytes: &[u8; 4000], at: usize, n: usize) -> (r: u64)
    requires
        n <= 8,
        at + n <= EVENT_PAYLOAD_LEN,
    ensures
        r as int == le_value(bytes@, at as int, n as nat),
        r < byte_power(n as nat),
{
    let mut acc: u64 = 0;
    let mut k: usize = n;
    proof {
        assert(byte_power(0) == 1);
        assert(byte_power(1) == 256);
        assert(byte_power(2) == 65536);
        assert(byte_power(3) == 16777216);
        assert(byte_power(4) == 4294967296);
        assert(byte_power(5) == 1099511627776);
        assert(byte_power(6) == 281474976710656);
        assert(byte_power(7) == 72057594037927936);
        assert(byte_power(8) == 18446744073709551616);
    }
    while k > 0
        invariant
            n <= 8,
            at + n <= EVENT_PAYLOAD_LEN,
            bytes@.len() == EVENT_PAYLOAD_LEN,
            k <= n,
            acc as int == le_value(bytes@, at + k, (n - k) as nat),
            acc < byte_power((n - k) as nat),
            byte_power(7) == 72057594037927936,
            byte_power(6) == 281474976710656,
            byte_power(5) == 1099511627776,
            byte_power(4) == 4294967296,
            byte_power(3) == 16777216,
            byte_power(2) == 65536,
            byte_power(1) == 256,
            byte_power(0) == 1,
        decreases k,
    {
        let b = bytes[at + k - 1];
        assert(byte_power((n - k + 1) as nat) == 256 * byte_power((n - k) as nat));
        assert(le_value(bytes@, at + k - 1, (n - k + 1) as nat) == bytes@[at + k - 1] + 256
            * le_value(bytes@, at + k, (n - k) as nat));
        acc = acc * 256 + b as u64;
        k = k - 1;
    }
    acc
}

/// A generic event as the runtime delivers it: the raw code of its
/// structure type and the event-specific payload.
///
/// The type is kept as its raw code because the runtime may deliver event
/// kinds that `StructureType` does not list.
pub struct EventDataBuffer {
    pub ty: i32,
    pub varying: [u8; 4000],
}

impl Default for EventDataBuffer {
    /// An empty buffer, ready for the runtime to fill in.
    fn default() -> (r: Self)
        ensures
            r.ty == StructureType::EventDataBuffer.code_of(),
            forall|i: int| 0 <= i < EVENT_PAYLOAD_LEN ==> #[trigger] r.varying@[i] == 0u8,
    {
        EventDataBuffer { ty: StructureType::EventDataBuffer.code(), varying: [0u8; 4000] }
    }
}

/// The raw code of the new state carried by a state-change event.
pub open spec fn state_code_of(event: EventDataBuffer) -> i32 {
    (le_value(event.varying@, STATE_OFFSET as int, 4) as u32) as i32
}

impl EventDataBuffer {
    /// The raw code of the new state, read as a state-change event carries it.
    pub fn state_code(&self) -> (c: i32)
        ensures
            c == state_code_of(*self),
    {
        let raw: u64 = read_le(&self.varying, STATE_OFFSET, 4);
        let low: u32 = raw as u32;
        low as i32
    }
}

/// A session has changed its state.
#[derive(Debug, Clone, Copy, PartialEq, Eq, Structural)]
pub struct SessionStateChanged {
    pub ty: StructureType,
    pub session: u64,
    pub state: SessionState,
    pub time: i64,
}

/// The state-change event held in `event`, if it holds one with a known state.
pub open spec fn state_change_in(event: EventDataBuffer) -> Option<SessionStateChanged> {
    if event.ty != StructureType::SessionStateChanged.code_of() {
        None
    } else {
        match SessionState::with_code(state_code_of(event)) {
            Some(state) => Some(
                SessionStateChanged {
                    ty: StructureType::SessionStateChanged,
                    session: le_value(event.varying@, SESSION_OFFSET as int, 8) as u64,
                    state,
                    time: (le_value(event.varying@, TIME_OFFSET as int, 8) as u64) as i64,
                },
            ),
            None => None,
        }
    }
}

impl SessionStateChanged {
    /// Reads a state-change event out of a generic event; `None` when the
    /// event is of another kind or carries an unknown state.
    pub fn read(event: &EventDataBuffer) -> (r: Option<Self>)
        ensures
            r == state_change_in(*event),
    {
        if event.ty != StructureType::SessionStateChanged.code() {
            return None;
        }
        match SessionState::from_code(event.state_code()) {
            Some(state) => {
                let session: u64 = read_le(&event.varying, SESSION_OFFSET, 8);
                let time: u64 = read_le(&event.varying, TIME_OFFSET, 8);
                Some(
                    SessionStateChanged {
                        ty: StructureType::SessionStateChanged,
                        session,
                        state,
                        time: time as i64,
                    },
                )
            },
            None => None,
        }
    }
}

/// What the client does after receiving an event.
#[derive(Debug, Clone, Copy, PartialEq, Eq, Structural)]
pub enum EventAction {
    /// Nothing to do: poll for the next event.
    Continue,
    /// The session is ready: begin it.
    BeginSession,
    /// The session is stopping: end it, then stop.
    EndSessionAndExit,
    /// The instance is about to be lost: stop.
    Exit,
    /// The session is exiting or was lost: stop.
    ExitSessionOver,
    /// No event was pending: go on with the next frame.
    RenderFrame,
    /// The remote side has connected: report it and poll for the next event.
    ReportConnected,
    /// The remote side has disconnected: report it and poll for the next event.
    ReportDisconnected,
    /// An event of a kind the client does not handle, with its type code.
    UnexpectedEvent(i32),
    /// A session state the client does not handle, with its code.
    UnexpectedState(i32),
}

/// What the client does on reaching session state `state`.
pub open spec fn action_for_state(state: SessionState) -> EventAction {
    match state {
        SessionState::Idle | SessionState::Synchronized | SessionState::Visible
        | SessionState::Focused => EventAction::Continue,
        SessionState::Ready => EventAction::BeginSession,
        SessionState::Stopping => EventAction::EndSessionAndExit,
        SessionState::Exiting | SessionState::LossPending => EventAction::ExitSessionOver,
        SessionState::Unknown => EventAction::UnexpectedState(state.code_of()),
    }
}

/// What the client does on receiving `event`.
pub open spec fn action_for(event: EventDataBuffer) -> EventAction {
    if event.ty == StructureType::InstanceLossPending.code_of() {
        EventAction::Exit
    } else if event.ty == StructureType::SessionStateChanged.code_of() {
        match state_change_in(event) {
            Some(change) => action_for_state(change.state),
            None => EventAction::UnexpectedState(state_code_of(event)),
        }
    } else if event.ty == StructureType::EventDataBuffer.code_of() {
        EventAction::RenderFrame
    } else if event.ty == StructureType::RemotingConnected.code_of() {
        EventAction::ReportConnected
    } else if event.ty == StructureType::RemotingDisconnected.code_of() {
        EventAction::ReportDisconnected
    } else if event.ty == StructureType::RemotingTimestampConversionReady.code_of() {
        EventAction::Continue
    } else {
        EventAction::UnexpectedEvent(event.ty)
    }
}

/// Decides what to do about an event just polled from the runtime.
pub fn next_action(event: &EventDataBuffer) -> (a: EventAction)
    ensures
        a == action_for(*event),
{
    if event.ty == StructureType::InstanceLossPending.code() {
        EventAction::Exit
    } else if event.ty == StructureType::SessionStateChanged.code() {
        match SessionStateChanged::read(event) {
            Some(change) => match change.state {
                SessionState::Idle | SessionState::Synchronized | SessionState::Visible
                | SessionState::Focused => EventAction::Continue,
                SessionState::Ready => EventAction::BeginSession,
                SessionState::Stopping => EventAction::EndSessionAndExit,
                SessionState::Exiting | SessionState::LossPending => EventAction::ExitSessionOver,
                SessionState::Unknown => EventAction::UnexpectedState(change.state.code()),
            },
            None => EventAction::UnexpectedState(event.state_code()),
        }
    } else if event.ty == StructureType::EventDataBuffer.code() {
        EventAction::RenderFrame
    } else if event.ty == StructureType::RemotingConnected.code() {
        EventAction::ReportConnected
    } else if event.ty == StructureType::RemotingDisconnected.code() {
        EventAction::ReportDisconnected
    } else if event.ty == StructureType::RemotingTimestampConversionReady.code() {
        EventAction::Continue
    } else {
        EventAction::UnexpectedEvent(event.ty)
    }
}

/// The client stops on exactly these events: the instance is about to be
/// lost, or the session stops, exits or is about to be lost.
pub proof fn lemma_stops_exactly_when(event: EventDataBuffer)
    ensures
        (action_for(event) == EventAction::Exit || action_for(event)
            == EventAction::EndSessionAndExit || action_for(event) == EventAction::ExitSessionOver)
            <==> (event.ty
            == StructureType::InstanceLossPending.code_of() || (state_change_in(event) matches Some(
            change) && (change.state == SessionState::Stopping || change.state
            == SessionState::Exiting || change.state == SessionState::LossPending))),
{
}

/// A session is begun only on a state-change event that reports it ready.
pub proof fn lemma_begins_only_when_ready(event: EventDataBuffer)
    ensures
        action_for(event) == EventAction::BeginSession <==> (state_change_in(event) matches Some(
            change) && change.state == SessionState::Ready),
{
}

/// Four bytes from `at` on, least significant first, are the number they
/// spell; likewise eight.
pub proof fn lemma_le_value_bytes(bytes: Seq<u8>, at: int)
    ensures
        le_value(bytes, at, 4) == bytes[at] + 256 * bytes[at + 1] + 65536 * bytes[at + 2]
            + 16777216 * bytes[at + 3],
        le_value(bytes, at, 8) == bytes[at] + 256 * bytes[at + 1] + 65536 * bytes[at + 2]
            + 16777216 * bytes[at + 3] + 4294967296 * bytes[at + 4] + 1099511627776 * bytes[at + 5]
            + 281474976710656 * bytes[at + 6] + 72057594037927936 * bytes[at + 7],
{
    reveal_with_fuel(le_value, 9);
}

/// Apart from state changes, the client's action depends on the event's type
/// code alone: 17 (instance loss pending) stops, 16 (no event) goes on with
/// the frame, the remoting events are reported or ignored, and every other
/// code is unexpected.
pub proof fn lemma_action_by_event_type(event: EventDataBuffer)
    ensures
        event.ty == 17 ==> action_for(event) == EventAction::Exit,
        event.ty == 16 ==> action_for(event) == EventAction::RenderFrame,
        event.ty == 1000065005 ==> action_for(event) == EventAction::ReportConnected,
        event.ty == 1000065006 ==> action_for(event) == EventAction::ReportDisconnected,
        event.ty == 1000065007 ==> action_for(event) == EventAction::Continue,
        !(event.ty == 16 || event.ty == 17 || event.ty == 18 || event.ty == 1000065005 || event.ty
            == 1000065006 || event.ty == 1000065007) ==> action_for(event)
            == EventAction::UnexpectedEvent(event.ty),
{
    StructureType::lemma_code_table();
}

/// On a state-change event (type code 18), the action follows the state code
/// held in payload bytes 8 to 11, least significant first: idle,
/// synchronized, visible and focused (1, 3, 4, 5) keep polling, ready (2)
/// begins the session, stopping (6) ends it and stops, loss pending and
/// exiting (7, 8) stop, and any other code is unexpected.
pub proof fn lemma_action_on_state_change(event: EventDataBuffer)
    requires
        event.ty == 18,
    ensures
        ({
            let c = ((event.varying@[8] + 256 * event.varying@[9] + 65536 * event.varying@[10]
                + 16777216 * event.varying@[11]) as u32) as i32;
            &&& (c == 1 || c == 3 || c == 4 || c == 5) ==> action_for(event) == EventAction::Continue
            &&& c == 2 ==> action_for(event) == EventAction::BeginSession
            &&& c == 6 ==> action_for(event) == EventAction::EndSessionAndExit
            &&& (c == 7 || c == 8) ==> action_for(event) == EventAction::ExitSessionOver
            &&& !(1 <= c <= 8) ==> action_for(event) == EventAction::UnexpectedState(c)
        }),
{
    StructureType::lemma_code_table();
    SessionState::lemma_code_table();
    lemma_le_value_bytes(event.varying@, STATE_OFFSET as int);
    let c = state_code_of(event);
    SessionState::lemma_code_injective();
    if 0 <= c <= 8 {
        let x = if c == 0 {
            SessionState::Unknown
        } else if c == 1 {
            SessionState::Idle
        } else if c == 2 {
            SessionState::Ready
        } else if c == 3 {
            SessionState::Synchronized
        } else if c == 4 {
            SessionState::Visible
        } else if c == 5 {
            SessionState::Focused
        } else if c == 6 {
            SessionState::Stopping
        } else if c == 7 {
            SessionState::LossPending
        } else {
            SessionState::Exiting
        };
        SessionState::lemma_code_round_trip(x, c);
    } else {
        assert forall|x: SessionState| x.code_of() != c by {
            SessionState::lemma_code_table();
        }
    }
}

/// A state-change event read from a buffer has type code 18, its session
/// handle is the eight payload bytes from 0 on and its time the eight from 16
/// on (least significant first, the time as a signed number), and its state
/// has the code held in the four bytes from 8 on. Every buffer of type 18
/// whose state code is between 0 and 8 holds one.
pub proof fn lemma_state_change_fields(event: EventDataBuffer)
    ensures
        state_change_in(event) matches Some(change) ==> ({
            &&& event.ty == 18
            &&& change.ty == StructureType::SessionStateChanged
            &&& change.session == (event.varying@[0] + 256 * event.varying@[1] + 65536
                * event.varying@[2] + 16777216 * event.varying@[3] + 4294967296 * event.varying@[4]
                + 1099511627776 * event.varying@[5] + 281474976710656 * event.varying@[6]
                + 72057594037927936 * event.varying@[7]) as u64
            &&& change.time == ((event.varying@[16] + 256 * event.varying@[17] + 65536
                * event.varying@[18] + 16777216 * event.varying@[19] + 4294967296
                * event.varying@[20] + 1099511627776 * event.varying@[21] + 281474976710656
                * event.varying@[22] + 72057594037927936 * event.varying@[23]) as u64) as i64
            &&& change.state.code_of() == ((event.varying@[8] + 256 * event.varying@[9] + 65536
                * event.varying@[10] + 16777216 * event.varying@[11]) as u32) as i32
        }),
        (event.ty == 18 && 0 <= ((event.varying@[8] + 256 * event.varying@[9] + 65536
            * event.varying@[10] + 16777216 * event.varying@[11]) as u32) as i32 <= 8)
            ==> state_change_in(event) is Some,
{
    StructureType::lemma_code_table();
    SessionState::lemma_code_table();
    lemma_le_value_bytes(event.varying@, SESSION_OFFSET as int);
    lemma_le_value_bytes(event.varying@, STATE_OFFSET as int);
    lemma_le_value_bytes(event.varying@, TIME_OFFSET as int);
    let c = state_code_of(event);
    SessionState::lemma_code_round_trip(SessionState::Unknown, c);
    if 0 <= c <= 8 {
        let x = if c == 0 {
            SessionState::Unknown
        } else if c == 1 {
            SessionState::Idle
        } else if c == 2 {
            SessionState::Ready
        } else if c == 3 {
            SessionState::Synchronized
        } else if c == 4 {
            SessionState::Visible
        } else if c == 5 {
            SessionState::Focused
        } else if c == 6 {
            SessionState::Stopping
        } else if c == 7 {
            SessionState::LossPending
        } else {
            SessionState::Exiting
        };
        SessionState::lemma_code_round_trip(x, c);
    }
}

} // verus!
