//! The command sequencer: the facade that owns the lifecycle state and lets
//! a command through to the transport only from the state that the
//! transition table names for it.

use crate::error::{failed_to_decode, failed_with, DroneError, Failure};
use crate::frames::{frame_of, lemma_frame_is_not_empty, CommandView, WireCommand};
use crate::json::parsed;
use crate::state::{permitted, resulting_state, CommandKind};
use crate::telemetry::{decode_snapshot, rejected, snapshot_of, TelemetrySnapshot};
use crate::text::{show_bytes, shown_text, utf8_text};
use crate::transport::{
    acknowledgment, answered, delivered, follows, Call, Channel, FakeTransport, Transport,
};
use vstd::prelude::*;
use vstd::string::StringExecFns;
use vstd::utf8::{decode_utf8, valid_utf8};

pub use crate::state::DroneState;

verus! {

/// What the table says of issuing `command` from `state`: it goes ahead, or
/// it is an invalid-state failure that names both.
pub open spec fn admission(state: DroneState, command: CommandKind) -> Result<(), Failure> {
    if permitted(state, command) {
        Ok(())
    } else {
        Err(Failure::State { command, state })
    }
}

/// Checks `command` against the transition table.
pub fn check_command(state: DroneState, command: CommandKind) -> (r: Result<(), DroneError>)
    ensures
        match r {
            Ok(_) => admission(state, command) is Ok,
            Err(e) => admission(state, command) == Err::<(), Failure>(e@),
        },
{
    match command.required() {
        None => Ok(()),
        Some(needed) => if state == needed {
            Ok(())
        } else {
            Err(DroneError::State { command, state })
        },
    }
}

/// The state after a permitted `command` has been handed to the
/// transport: the resulting state of the table if the call succeeded, the
/// old state if it failed.
pub open spec fn settled(state: DroneState, command: CommandKind, succeeded: bool) -> DroneState {
    if succeeded {
        resulting_state(state, command)
    } else {
        state
    }
}

/// Settles a permitted `command` once the transport has answered: the
/// state to go on with, and what the caller is told, which is the
/// transport's own answer.
pub fn settle(state: DroneState, command: CommandKind, outcome: Result<(), DroneError>) -> (r: (
    DroneState,
    Result<(), DroneError>,
))
    ensures
        r.0 == settled(state, command, outcome is Ok),
        r.1 == outcome,
{
    let next = if outcome.is_ok() {
        command.outcome(state)
    } else {
        state
    };
    (next, outcome)
}

/// A command that the table forbids from a state is an invalid-state
/// failure that names the command and the state; every other command is
/// admitted. Which of the two holds depends on nothing but the table.
pub proof fn lemma_forbidden_is_refused(state: DroneState, command: CommandKind)
    ensures
        !permitted(state, command) ==> admission(state, command) == Err::<(), Failure>(
            Failure::State { command, state },
        ),
        permitted(state, command) ==> admission(state, command) is Ok,
        admission(state, command) is Err <==> (command == CommandKind::Arm && state
            != DroneState::Disarmed) || (command == CommandKind::Takeoff && state
            != DroneState::Armed) || (command == CommandKind::Land && state != DroneState::Flying),
{
}

/// The line that a status query reports: the state, then what the
/// transport answered.
pub open spec fn status_line(state: DroneState, payload: Seq<u8>) -> Seq<char> {
    "state="@ + state.name_text() + " transport_resp="@ + shown_text(payload)
}

/// Describes the vehicle for the caller of a status query.
pub fn describe_status(state: DroneState, payload: &[u8]) -> (r: String)
    ensures
        r@ == status_line(state, payload@),
{
    let mut line = String::from_str("state=");
    line.append(state.name());
    line.append(" transport_resp=");
    let answer = show_bytes(payload);
    line.append(answer.as_str());
    line
}

/// The failure reported for a payload that is no text.
pub open spec fn not_text() -> Failure {
    Failure::Protocol { status: None, detail: "payload is not UTF-8"@ }
}

/// Whether `r` is what the payload of a status query decodes to: a failure
/// for a payload that is no text or no document, and else the snapshot, or
/// the failure that names the field at fault.
pub open spec fn is_reading_of(payload: Seq<u8>, r: Result<TelemetrySnapshot, DroneError>) -> bool {
    if !valid_utf8(payload) {
        failed_with(r, not_text())
    } else {
        match parsed(decode_utf8(payload)) {
            Some(document) => match snapshot_of(document) {
                Ok(view) => r matches Ok(snapshot) && snapshot@ == view,
                Err(fault) => failed_with(r, rejected(fault)),
            },
            None => failed_to_decode(r),
        }
    }
}

/// Decodes the payload of a status query into a snapshot.
pub fn read_snapshot(payload: &[u8]) -> (r: Result<TelemetrySnapshot, DroneError>)
    ensures
        is_reading_of(payload@, r),
{
    match utf8_text(payload) {
        Some(text) => decode_snapshot(text),
        None => Err(
            DroneError::Protocol {
                status: None,
                detail: String::from_str("payload is not UTF-8"),
            },
        ),
    }
}

/// The facade over one vehicle.
pub struct Drone<T: Transport> {
    channel: Channel<T>,
    state: DroneState,
    connected: bool,
}

/// What issuing `command` with `frame` has done: refused it and touched
/// nothing where the table forbids it, and else made one call that handed
/// exactly that frame to the transport, told the caller what the transport
/// answered, and moved on only if the transport succeeded. Where the
/// transport's model settles the answer, that is the answer.
pub open spec fn issued<T: Transport>(
    before: Drone<T>,
    after: Drone<T>,
    command: CommandKind,
    frame: Seq<u8>,
    r: Result<(), DroneError>,
) -> bool {
    if !permitted(before.lifecycle(), command) {
        &&& after == before
        &&& failed_with(r, Failure::State { command, state: before.lifecycle() })
    } else {
        &&& after.trace() == before.trace().push(Call::Send { frame, answer: answered(r) })
        &&& follows(before.link().send_model(frame), after.link(), answered(r))
        &&& after.linked() == before.linked()
        &&& after.lifecycle() == settled(before.lifecycle(), command, r is Ok)
    }
}

/// What the models of a transport settle about a query on it: the
/// transport afterwards, and what the query comes to. Nothing is settled
/// where the model of a call that the query makes settles nothing.
pub open spec fn query_model<T: Transport>(link: T) -> Option<(T, Result<Seq<u8>, Failure>)> {
    match link.send_model(frame_of(CommandView::Status)) {
        None => None,
        Some(asked) => match asked.1 {
            Err(e) => Some((asked.0, Err(e))),
            Ok(_) => asked.0.recv_model(),
        },
    }
}

/// What a connect has done: made one call that brought the transport up,
/// told the caller what the transport answered, and left the state alone.
/// Where the transport's model settles the answer, that is the answer.
pub open spec fn connected_by<T: Transport>(
    before: Drone<T>,
    after: Drone<T>,
    r: Result<(), DroneError>,
) -> bool {
    &&& after.lifecycle() == before.lifecycle()
    &&& after.trace() == before.trace().push(Call::Connect { answer: answered(r) })
    &&& follows(before.link().connect_model(), after.link(), answered(r))
    &&& after.linked() == (before.linked() || r is Ok)
}

/// What a query that came to `answer` has done: handed the status frame to
/// the transport and, if that went through, taken one payload from it. The
/// state is left alone. A query fails with the failure of its first call
/// that failed. Where the transport's models settle the answer, that is
/// the answer.
pub open spec fn queried<T: Transport>(
    before: Drone<T>,
    after: Drone<T>,
    answer: Result<Seq<u8>, Failure>,
) -> bool {
    let asked = Call::Send { frame: frame_of(CommandView::Status), answer: Ok(()) };
    &&& after.linked() == before.linked()
    &&& after.lifecycle() == before.lifecycle()
    &&& follows(query_model(before.link()), after.link(), answer)
    &&& match answer {
        Ok(payload) => after.trace() == before.trace().push(asked).push(
            Call::Recv { payload: Ok(payload) },
        ),
        Err(e) => {
            ||| after.trace() == before.trace().push(
                Call::Send { frame: frame_of(CommandView::Status), answer: Err(e) },
            )
            ||| after.trace() == before.trace().push(asked).push(Call::Recv { payload: Err(e) })
        },
    }
}

/// What a status query tells its caller, for a query that came to `answer`.
pub open spec fn is_status_of(
    state: DroneState,
    answer: Result<Seq<u8>, Failure>,
    r: Result<String, DroneError>,
) -> bool {
    match answer {
        Ok(payload) => r matches Ok(line) && line@ == status_line(state, payload),
        Err(e) => failed_with(r, e),
    }
}

/// What a snapshot query tells its caller, for a query that came to
/// `answer`.
pub open spec fn is_snapshot_of(
    answer: Result<Seq<u8>, Failure>,
    r: Result<TelemetrySnapshot, DroneError>,
) -> bool {
    match answer {
        Ok(payload) => is_reading_of(payload, r),
        Err(e) => failed_with(r, e),
    }
}

impl<T: Transport> Drone<T> {
    /// The current lifecycle state.
    pub closed spec fn lifecycle(&self) -> DroneState {
        self.state
    }

    /// The transport that the facade runs against.
    pub closed spec fn link(&self) -> T {
        self.channel.link()
    }

    /// The calls that the facade has made on its transport, oldest first.
    pub closed spec fn trace(&self) -> Seq<Call> {
        self.channel.calls()
    }

    /// Whether a connect has succeeded.
    pub closed spec fn linked(&self) -> bool {
        self.connected
    }

    /// A facade over `transport`, for a vehicle that is disarmed.
    pub fn new(transport: T) -> (r: Self)
        ensures
            r.lifecycle() == DroneState::Disarmed,
            r.link() == transport,
            r.trace() == Seq::<Call>::empty(),
            !r.linked(),
    {
        Drone { channel: Channel::new(transport), state: DroneState::Disarmed, connected: false }
    }

    /// The current lifecycle state.
    pub fn state(&self) -> (r: DroneState)
        ensures
            r == self.lifecycle(),
    {
        self.state
    }

    /// Whether a connect has succeeded.
    pub fn is_connected(&self) -> (r: bool)
        ensures
            r == self.linked(),
    {
        self.connected
    }

    /// The transport that the facade runs against.
    pub fn transport(&self) -> (r: &T)
        ensures
            *r == self.link(),
    {
        self.channel.transport()
    }

    /// Brings the transport up. Permitted from every state; the state stays
    /// as it is, and the caller is told what the transport answered.
    pub fn connect(&mut self) -> (r: Result<(), DroneError>)
        ensures
            connected_by(*old(self), *final(self), r),
    {
        let outcome = self.channel.connect();
        if outcome.is_ok() {
            self.connected = true;
        }
        outcome
    }

    /// Issues `command` with its frame: the one way a command that changes
    /// the state reaches the transport.
    fn issue(&mut self, command: CommandKind, wire: &WireCommand) -> (r: Result<(), DroneError>)
        ensures
            issued(*old(self), *final(self), command, frame_of(wire@), r),
    {
        match check_command(self.state, command) {
            Err(e) => Err(e),
            Ok(_) => {
                let frame = wire.encode();
                let outcome = self.channel.send(frame.as_slice());
                let (next, answer) = settle(self.state, command, outcome);
                self.state = next;
                answer
            },
        }
    }

    /// Arms the vehicle: from `Disarmed` to `Armed`.
    pub fn arm(&mut self) -> (r: Result<(), DroneError>)
        ensures
            issued(*old(self), *final(self), CommandKind::Arm, frame_of(CommandView::Arm), r),
    {
        self.issue(CommandKind::Arm, &WireCommand::Arm)
    }

    /// Sends the vehicle up to `altitude_m` metres: from `Armed` to
    /// `Flying`. The altitude goes into the frame as it is given.
    pub fn takeoff(&mut self, altitude_m: &str) -> (r: Result<(), DroneError>)
        ensures
            issued(
                *old(self),
                *final(self),
                CommandKind::Takeoff,
                frame_of(CommandView::Takeoff(altitude_m@)),
                r,
            ),
    {
        self.issue(CommandKind::Takeoff, &WireCommand::Takeoff(String::from_str(altitude_m)))
    }

    /// Lands the vehicle: from `Flying` to `Landing`.
    pub fn land(&mut self) -> (r: Result<(), DroneError>)
        ensures
            issued(*old(self), *final(self), CommandKind::Land, frame_of(CommandView::Land), r),
    {
        self.issue(CommandKind::Land, &WireCommand::Land)
    }

    /// Asks the transport for its status and takes the payload of the
    /// answer.
    fn query(&mut self) -> (r: Result<Vec<u8>, DroneError>)
        ensures
            queried(*old(self), *final(self), delivered(r)),
    {
        let frame = WireCommand::Status.encode();
        match self.channel.send(frame.as_slice()) {
            Ok(_) => self.channel.recv(),
            Err(e) => Err(e),
        }
    }

    /// Queries the vehicle and reports the state with the transport's
    /// answer as text. Permitted from every state, and changes none.
    pub fn status(&mut self) -> (r: Result<String, DroneError>)
        ensures
            exists|answer: Result<Seq<u8>, Failure>|
                queried(*old(self), *final(self), answer) && is_status_of(
                    old(self).lifecycle(),
                    answer,
                    r,
                ),
    {
        let answer = self.query();
        let r = match answer {
            Ok(payload) => Ok(describe_status(self.state, payload.as_slice())),
            Err(e) => Err(e),
        };
        assert(queried(*old(self), *self, delivered(answer)) && is_status_of(
            old(self).lifecycle(),
            delivered(answer),
            r,
        ));
        r
    }

    /// Queries the vehicle and decodes the transport's answer into a
    /// telemetry snapshot. Permitted from every state, and changes none.
    pub fn snapshot(&mut self) -> (r: Result<TelemetrySnapshot, DroneError>)
        ensures
            exists|answer: Result<Seq<u8>, Failure>|
                queried(*old(self), *final(self), answer) && is_snapshot_of(answer, r),
    {
        let answer = self.query();
        let r = match answer {
            Ok(payload) => read_snapshot(payload.as_slice()),
            Err(e) => Err(e),
        };
        assert(queried(*old(self), *self, delivered(answer)) && is_snapshot_of(
            delivered(answer),
            r,
        ));
        r
    }
}

/// Connects the facade unless a connect has succeeded before.
pub fn ensure_connected<T: Transport>(drone: &mut Drone<T>) -> (r: Result<(), DroneError>)
    ensures
        old(drone).linked() ==> r is Ok && *final(drone) == *old(drone),
        !old(drone).linked() ==> connected_by(*old(drone), *final(drone), r),
        final(drone).linked() == r is Ok,
{
    if !drone.is_connected() {
        drone.connect()
    } else {
        Ok(())
    }
}


/// On the stand-in, a connect followed by arming, taking off to any
/// altitude and landing succeeds at every step and leaves the vehicle
/// landing, wherever the link stood before.
pub proof fn lemma_flight_on_stand_in(
    start: Drone<FakeTransport>,
    up: Drone<FakeTransport>,
    armed: Drone<FakeTransport>,
    flying: Drone<FakeTransport>,
    landing: Drone<FakeTransport>,
    altitude: Seq<char>,
    connect: Result<(), DroneError>,
    arm: Result<(), DroneError>,
    takeoff: Result<(), DroneError>,
    land: Result<(), DroneError>,
)
    requires
        start.lifecycle() == DroneState::Disarmed,
        connected_by(start, up, connect),
        issued(up, armed, CommandKind::Arm, frame_of(CommandView::Arm), arm),
        issued(
            armed,
            flying,
            CommandKind::Takeoff,
            frame_of(CommandView::Takeoff(altitude)),
            takeoff,
        ),
        issued(flying, landing, CommandKind::Land, frame_of(CommandView::Land), land),
    ensures
        connect is Ok,
        arm is Ok,
        takeoff is Ok,
        land is Ok,
        up.lifecycle() == DroneState::Disarmed,
        armed.lifecycle() == DroneState::Armed,
        flying.lifecycle() == DroneState::Flying,
        landing.lifecycle() == DroneState::Landing,
{
    FakeTransport::with_link(true).lemma_known_by_link();
    lemma_frame_is_not_empty(CommandView::Arm);
    lemma_frame_is_not_empty(CommandView::Takeoff(altitude));
    lemma_frame_is_not_empty(CommandView::Land);
    assert(up.link() == FakeTransport::with_link(true));
    assert(armed.link() == FakeTransport::with_link(true));
    assert(flying.link() == FakeTransport::with_link(true));
}

/// On the stand-in, a command issued before any connect fails with a
/// connection failure and leaves the state alone, if the table permits it,
/// and with the invalid-state failure otherwise.
pub proof fn lemma_unconnected_stand_in_refuses(
    before: Drone<FakeTransport>,
    after: Drone<FakeTransport>,
    command: CommandKind,
    frame: Seq<u8>,
    r: Result<(), DroneError>,
)
    requires
        !before.link().connected(),
        issued(before, after, command, frame, r),
    ensures
        after.lifecycle() == before.lifecycle(),
        failed_with(
            r,
            if permitted(before.lifecycle(), command) {
                Failure::Connect("not connected"@)
            } else {
                Failure::State { command, state: before.lifecycle() }
            },
        ),
{
}

/// On the stand-in, a status query after a connect reports the state the
/// vehicle is in and the fixed acknowledgment.
pub proof fn lemma_status_on_stand_in(
    before: Drone<FakeTransport>,
    after: Drone<FakeTransport>,
    answer: Result<Seq<u8>, Failure>,
    r: Result<String, DroneError>,
)
    requires
        before.link().connected(),
        queried(before, after, answer),
        is_status_of(before.lifecycle(), answer, r),
    ensures
        after.lifecycle() == before.lifecycle(),
        r matches Ok(line) && line@ == "state="@ + before.lifecycle().name_text()
            + " transport_resp=OK"@,
{
    lemma_frame_is_not_empty(CommandView::Status);
    before.link().lemma_known_by_link();
    vstd::utf8::encode_utf8_valid_utf8("OK"@);
    vstd::utf8::encode_utf8_decode_utf8("OK"@);
    assert(answer == Ok::<Seq<u8>, Failure>(acknowledgment()));
    assert(shown_text(acknowledgment()) == "OK"@);
    reveal_strlit(" transport_resp=");
    reveal_strlit(" transport_resp=OK");
    reveal_strlit("OK");
    assert(" transport_resp="@ + "OK"@ =~= " transport_resp=OK"@);
    let head = "state="@ + before.lifecycle().name_text();
    assert(head + " transport_resp="@ + "OK"@ =~= head + " transport_resp=OK"@);
}

} // verus!
