//! The capability that the sequencer runs against, and the deterministic
//! stand-in for it.

use crate::error::{DroneError, Failure};
use vstd::prelude::*;
use vstd::slice::slice_to_vec;
use vstd::string::StringExecFns;
use vstd::string::StringSliceAdditionalSpecFns;

verus! {

/// An answer without a payload, as contracts speak of it.
pub open spec fn answered(r: Result<(), DroneError>) -> Result<(), Failure> {
    match r {
        Ok(_) => Ok(()),
        Err(e) => Err(e@),
    }
}

/// An answer with a payload, as contracts speak of it.
pub open spec fn delivered(r: Result<Vec<u8>, DroneError>) -> Result<Seq<u8>, Failure> {
    match r {
        Ok(payload) => Ok(payload@),
        Err(e) => Err(e@),
    }
}

/// A call kept to its model: where the model settles what the call comes
/// to, the transport afterwards and the answer are what it says.
pub open spec fn follows<T, A>(model: Option<(T, A)>, after: T, answer: A) -> bool {
    match model {
        Some(settled) => after == settled.0 && answer == settled.1,
        None => true,
    }
}

/// A link to the vehicle: it is brought up, and then carries frames out and
/// payloads back. This is the capability that a backend implements.
///
/// A backend whose answers are settled beforehand says so in its three
/// models, and its callers can then count on those answers. A backend that
/// cannot tell, as one over a network, leaves the models as they are.
pub trait Transport: Sized {
    /// What a connect is certain to come to: the transport after it, and
    /// its answer.
    open spec fn connect_model(&self) -> Option<(Self, Result<(), Failure>)> {
        None
    }

    /// What sending `frame` is certain to come to: the transport after it,
    /// and its answer.
    open spec fn send_model(&self, frame: Seq<u8>) -> Option<(Self, Result<(), Failure>)> {
        None
    }

    /// What a receive is certain to come to: the transport after it, and
    /// its answer.
    open spec fn recv_model(&self) -> Option<(Self, Result<Seq<u8>, Failure>)> {
        None
    }

    /// Brings the link up.
    fn connect(&mut self) -> (r: Result<(), DroneError>)
        ensures
            follows(old(self).connect_model(), *final(self), answered(r)),
    ;

    /// Hands one frame to the link.
    fn send(&mut self, bytes: &[u8]) -> (r: Result<(), DroneError>)
        ensures
            follows(old(self).send_model(bytes@), *final(self), answered(r)),
    ;

    /// Takes the next payload from the link.
    fn recv(&mut self) -> (r: Result<Vec<u8>, DroneError>)
        ensures
            follows(old(self).recv_model(), *final(self), delivered(r)),
    ;
}

/// One call on a transport, with what the transport answered.
pub enum Call {
    Connect { answer: Result<(), Failure> },
    Send { frame: Seq<u8>, answer: Result<(), Failure> },
    Recv { payload: Result<Seq<u8>, Failure> },
}

/// A transport together with the account of every call that was made on
/// it. The account is kept here and nowhere else, so that what a caller
/// says it sent and was answered is what it sent and was answered. Each
/// call is kept to the transport's model of it.
pub struct Channel<T: Transport> {
    inner: T,
    log: Ghost<Seq<Call>>,
}

impl<T: Transport> Channel<T> {
    /// The transport.
    pub closed spec fn link(&self) -> T {
        self.inner
    }

    /// The calls made on the transport so far, oldest first.
    pub closed spec fn calls(&self) -> Seq<Call> {
        self.log@
    }

    /// A channel over `inner` on which no call was made yet.
    pub fn new(inner: T) -> (r: Channel<T>)
        ensures
            r.link() == inner,
            r.calls() == Seq::<Call>::empty(),
    {
        Channel { inner, log: Ghost(Seq::empty()) }
    }

    /// The transport.
    pub fn transport(&self) -> (r: &T)
        ensures
            *r == self.link(),
    {
        &self.inner
    }

    /// Brings the transport up, and hands its answer on.
    pub fn connect(&mut self) -> (r: Result<(), DroneError>)
        ensures
            final(self).calls() == old(self).calls().push(Call::Connect { answer: answered(r) }),
            follows(old(self).link().connect_model(), final(self).link(), answered(r)),
    {
        let r = self.inner.connect();
        proof {
            self.log@ = self.log@.push(Call::Connect { answer: answered(r) });
        }
        r
    }

    /// Hands `bytes` to the transport, and hands its answer on.
    pub fn send(&mut self, bytes: &[u8]) -> (r: Result<(), DroneError>)
        ensures
            final(self).calls() == old(self).calls().push(
                Call::Send { frame: bytes@, answer: answered(r) },
            ),
            follows(old(self).link().send_model(bytes@), final(self).link(), answered(r)),
    {
        let r = self.inner.send(bytes);
        proof {
            self.log@ = self.log@.push(Call::Send { frame: bytes@, answer: answered(r) });
        }
        r
    }

    /// Takes the next payload from the transport, and hands it on.
    pub fn recv(&mut self) -> (r: Result<Vec<u8>, DroneError>)
        ensures
            final(self).calls() == old(self).calls().push(Call::Recv { payload: delivered(r) }),
            follows(old(self).link().recv_model(), final(self).link(), delivered(r)),
    {
        let r = self.inner.recv();
        proof {
            self.log@ = self.log@.push(Call::Recv { payload: delivered(r) });
        }
        r
    }
}

/// The failure of a request on a link that is not up.
pub open spec fn not_connected() -> Failure {
    Failure::Connect("not connected"@)
}

/// The failure of a request without a payload.
pub open spec fn empty_frame() -> Failure {
    Failure::Protocol { status: None, detail: "empty frame"@ }
}

/// The fixed acknowledgment of the stand-in: the bytes of `OK`.
pub open spec fn acknowledgment() -> Seq<u8> {
    "OK".spec_bytes()
}

/// What the stand-in answers to a frame: it wants the link up, then a frame
/// that is not empty.
pub open spec fn fake_send_outcome(connected: bool, frame: Seq<u8>) -> Result<(), Failure> {
    if !connected {
        Err(not_connected())
    } else if frame.len() == 0 {
        Err(empty_frame())
    } else {
        Ok(())
    }
}

/// What the stand-in hands back: the acknowledgment, once the link is up.
pub open spec fn fake_recv_outcome(connected: bool) -> Result<Seq<u8>, Failure> {
    if !connected {
        Err(not_connected())
    } else {
        Ok(acknowledgment())
    }
}

/// An in-memory stand-in for the vehicle, for running the facade without
/// hardware. It answers every request the same way.
pub struct FakeTransport {
    connected: bool,
}

impl FakeTransport {
    /// Whether the link was brought up.
    pub closed spec fn connected(&self) -> bool {
        self.connected
    }

    /// The stand-in whose link is up, or down.
    pub closed spec fn with_link(up: bool) -> FakeTransport {
        FakeTransport { connected: up }
    }

    /// A stand-in is known by whether its link is up.
    pub proof fn lemma_known_by_link(self)
        ensures
            self == Self::with_link(self.connected()),
            forall|up: bool| #[trigger] Self::with_link(up).connected() == up,
    {
    }

    /// A stand-in whose link is down.
    pub fn new() -> (r: FakeTransport)
        ensures
            r == Self::with_link(false),
            !r.connected(),
    {
        FakeTransport { connected: false }
    }

    /// Whether the link was brought up.
    pub fn is_connected(&self) -> (r: bool)
        ensures
            r == self.connected(),
    {
        self.connected
    }
}

impl Transport for FakeTransport {
    /// A connect always succeeds, and leaves the link up.
    open spec fn connect_model(&self) -> Option<(Self, Result<(), Failure>)> {
        Some((Self::with_link(true), Ok(())))
    }

    /// A send fails on a link that is down, then on an empty frame, and
    /// accepts every other frame. The link stays as it was.
    open spec fn send_model(&self, frame: Seq<u8>) -> Option<(Self, Result<(), Failure>)> {
        Some((*self, fake_send_outcome(self.connected(), frame)))
    }

    /// A receive fails on a link that is down, and hands back the
    /// acknowledgment otherwise. The link stays as it was.
    open spec fn recv_model(&self) -> Option<(Self, Result<Seq<u8>, Failure>)> {
        Some((*self, fake_recv_outcome(self.connected())))
    }

    fn connect(&mut self) -> (r: Result<(), DroneError>) {
        self.connected = true;
        Ok(())
    }

    fn send(&mut self, bytes: &[u8]) -> (r: Result<(), DroneError>) {
        if !self.connected {
            return Err(DroneError::Connect(String::from_str("not connected")));
        }
        if bytes.len() == 0 {
            return Err(
                DroneError::Protocol { status: None, detail: String::from_str("empty frame") },
            );
        }
        Ok(())
    }

    fn recv(&mut self) -> (r: Result<Vec<u8>, DroneError>) {
        if !self.connected {
            return Err(DroneError::Connect(String::from_str("not connected")));
        }
        Ok(slice_to_vec("OK".as_bytes()))
    }
}

} // verus!
