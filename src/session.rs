//! Decisions of a device session: response assembly from notifications, and the
//! resolution of the peripheral handle with its cache.
use vstd::prelude::*;
use crate::buffer::DataBuffer;
use crate::error::Error;
use crate::protocol::{
    classify, kind_of, lemma_boundary_bounds, split_messages, MessageIter,
    MessageType,
};

verus! {

/// Whether message `m` may start a response of kind `message_type`, with record type
/// `record_type` when one is asked for.
pub open spec fn starts_response(m: Seq<u8>, message_type: MessageType, record_type: Option<u8>) -> bool {
    &&& kind_of(m) == Some(message_type)
    &&& match record_type {
        None => true,
        Some(t) => m.len() >= 6 && m[4] == t,
    }
}

/// Outcome of feeding messages `ms` to an assembler that has (`started`) or has not yet
/// seen the first message of the response: whether it has started afterwards, the bytes it
/// appends, and whether the response is complete.
///
/// Before the start, messages that do not start the expected response are ignored. After
/// it, every message is continuation data until one that begins with a known header,
/// which completes the response; the messages after it are not looked at.
pub open spec fn assemble(
    started: bool,
    ms: Seq<Seq<u8>>,
    message_type: MessageType,
    record_type: Option<u8>,
) -> (bool, Seq<u8>, bool)
    decreases ms.len(),
{
    if ms.len() == 0 {
        (started, Seq::empty(), false)
    } else {
        let m = ms[0];
        let rest = ms.drop_first();
        if started {
            if kind_of(m) is Some {
                (true, Seq::empty(), true)
            } else {
                let (s, a, d) = assemble(true, rest, message_type, record_type);
                (s, m + a, d)
            }
        } else if starts_response(m, message_type, record_type) {
            let (s, a, d) = assemble(true, rest, message_type, record_type);
            (s, m + a, d)
        } else {
            assemble(false, rest, message_type, record_type)
        }
    }
}

/// Reassembles one response from the notifications of a characteristic.
pub struct ResponseAssembler {
    /// UUID of the characteristic whose notifications carry the response.
    pub characteristic: u128,
    /// Kind of the message that starts the response.
    pub message_type: MessageType,
    /// Record type that the first message must carry, if any.
    pub record_type: Option<u8>,
    /// Whether the first message of the response has been accepted.
    pub started: bool,
}

impl ResponseAssembler {
    /// An assembler that waits for the first message of a response.
    pub fn new(characteristic: u128, message_type: MessageType, record_type: Option<u8>) -> (r: Self)
        ensures
            r.characteristic == characteristic,
            r.message_type == message_type,
            r.record_type == record_type,
            !r.started,
    {
        ResponseAssembler { characteristic, message_type, record_type, started: false }
    }

    /// Handles one notification from characteristic `uuid` carrying `payload`: notifications
    /// of other characteristics are dropped; otherwise the payload is split into messages,
    /// the accepted ones are appended to `buffer`, and `true` is returned once the response
    /// is complete.
    pub fn receive(&mut self, uuid: u128, payload: &[u8], buffer: &mut DataBuffer) -> (done: bool)
        ensures
            final(self).characteristic == old(self).characteristic,
            final(self).message_type == old(self).message_type,
            final(self).record_type == old(self).record_type,
            uuid != old(self).characteristic ==> {
                &&& !done
                &&& final(self).started == old(self).started
                &&& final(buffer)@ == old(buffer)@
            },
            uuid == old(self).characteristic ==> {
                let (s, a, d) = assemble(
                    old(self).started,
                    split_messages(payload@),
                    old(self).message_type,
                    old(self).record_type,
                );
                &&& final(self).started == s
                &&& final(buffer)@ == old(buffer)@ + a
                &&& done == d
            },
    {
        if uuid != self.characteristic {
            return false;
        }
        let ghost total = assemble(
            self.started,
            split_messages(payload@),
            self.message_type,
            self.record_type,
        );
        let ghost start_buf = buffer@;
        let mut it = MessageIter::from(payload);
        loop
            invariant
                self.characteristic == old(self).characteristic,
                self.message_type == old(self).message_type,
                self.record_type == old(self).record_type,
                uuid == self.characteristic,
                start_buf == old(buffer)@,
                total == assemble(
                    old(self).started,
                    split_messages(payload@),
                    old(self).message_type,
                    old(self).record_type,
                ),
                ({
                    let (s, a, d) = assemble(
                        self.started,
                        split_messages(it@),
                        self.message_type,
                        self.record_type,
                    );
                    &&& total.0 == s
                    &&& total.2 == d
                    &&& buffer@.len() >= start_buf.len()
                    &&& total.1 == buffer@.subrange(start_buf.len() as int, buffer@.len() as int) + a
                    &&& buffer@.subrange(0, start_buf.len() as int) == start_buf
                }),
            decreases it@.len(),
        {
            let ghost before = it@;
            let ghost before_buf = buffer@;
            match it.next() {
                None => {
                    proof {
                        let sub = buffer@.subrange(start_buf.len() as int, buffer@.len() as int);
                        assert(split_messages(before) == Seq::<Seq<u8>>::empty());
                        assert(assemble(self.started, split_messages(before), self.message_type, self.record_type)
                            == (self.started, Seq::<u8>::empty(), false));
                        assert(total.1 == sub + Seq::<u8>::empty());
                        assert(sub + Seq::<u8>::empty() == sub);
                        assert(buffer@ == start_buf + sub);
                    }
                    return false;
                },
                Some(m) => {
                    proof {
                        lemma_boundary_bounds(before, 1);
                        assert(split_messages(before)[0] == m@);
                        assert(split_messages(before).drop_first() == split_messages(it@));
                    }
                    let kind = if m.len() >= 4 {
                        classify(m[0], m[1], m[2], m[3])
                    } else {
                        None
                    };
                    if self.started {
                        if kind.is_some() {
                            proof {
                                let sub = buffer@.subrange(start_buf.len() as int, buffer@.len() as int);
                                assert(kind_of(m@) is Some);
                                assert(assemble(true, split_messages(before), self.message_type, self.record_type)
                                    == (true, Seq::<u8>::empty(), true));
                                assert(total.1 == sub + Seq::<u8>::empty());
                                assert(sub + Seq::<u8>::empty() == sub);
                                assert(buffer@ == start_buf + sub);
                            }
                            return true;
                        }
                        buffer.add_data(m);
                    } else {
                        let accept = match kind {
                            Some(k) => k == self.message_type && match self.record_type {
                                None => true,
                                Some(t) => m.len() >= 6 && m[4] == t,
                            },
                            None => false,
                        };
                        if accept {
                            buffer.add_data(m);
                            self.started = true;
                        }
                    }
                    proof {
                        assert(buffer@.subrange(0, start_buf.len() as int) == start_buf);
                        assert(buffer@.subrange(start_buf.len() as int, buffer@.len() as int)
                            == before_buf.subrange(start_buf.len() as int, before_buf.len() as int)
                            + (buffer@.subrange(before_buf.len() as int, buffer@.len() as int)));
                    }
                },
            }
        }
    }
}

} // verus!

verus! {

/// Where a session stands in resolving its peripheral.
#[derive(Clone, Copy, Debug, PartialEq, Eq, Structural)]
pub enum Phase {
    /// No operation under way.
    Idle,
    /// Opening: the cached handle is being looked up.
    Opening,
    /// Acquiring the peripheral for a request: the cached handle is being looked up.
    Acquiring,
    /// The peripherals that the adapter already knows are being matched.
    SearchingKnown,
    /// A scan for the device is under way.
    Scanning,
    /// Asking whether the resolved peripheral is connected.
    CheckingConnection,
    /// Connecting to the resolved peripheral.
    Connecting,
}

/// What happened since the session's last action.
pub enum SessionEvent<H> {
    /// `open` was called: resolve the peripheral and connect to it.
    Open,
    /// A request needs the peripheral that is already resolved.
    Acquire,
    /// Looking up the cached handle succeeded.
    LookupFound,
    /// Looking up the cached handle failed: the handle is stale.
    LookupFailed,
    /// A known peripheral matches the device; this is its handle.
    KnownMatched(H),
    /// No known peripheral matches the device.
    NoKnownMatch,
    /// The scan found the device; this is its handle.
    ScanMatched(H),
    /// The scan ended without finding the device (transport error or timeout).
    ScanFailed,
    /// Whether the resolved peripheral is connected.
    Connected(bool),
    /// Connecting succeeded.
    ConnectDone,
}

/// What the session asks its driver to do next.
#[derive(Clone, Copy, Debug, PartialEq, Eq, Structural)]
pub enum SessionAction {
    /// Look up the cached handle with the adapter.
    LookupCached,
    /// Match the peripherals that the adapter already knows against the device.
    SearchKnown,
    /// Scan for the device, bounded by the scan timeout.
    Scan,
    /// Ask whether the resolved peripheral is connected.
    CheckConnection,
    /// Connect to the resolved peripheral.
    Connect,
    /// The operation succeeded: the cached handle names the peripheral.
    Done,
    /// The operation failed with this error.
    Fail(Error),
    /// The operation failed with the transport error that the driver holds.
    Abort,
}

/// The session state after `event`: its phase, its cached handle and the next action.
/// An event that does not answer the pending action is refused with `NotSupported`.
pub open spec fn transition<H>(phase: Phase, handle: Option<H>, event: SessionEvent<H>) -> (
    Phase,
    Option<H>,
    SessionAction,
) {
    match event {
        SessionEvent::Open => if handle is Some {
            (Phase::Opening, handle, SessionAction::LookupCached)
        } else {
            (Phase::SearchingKnown, handle, SessionAction::SearchKnown)
        },
        SessionEvent::Acquire => if handle is Some {
            (Phase::Acquiring, handle, SessionAction::LookupCached)
        } else {
            (Phase::Idle, handle, SessionAction::Fail(Error::LostConnection))
        },
        SessionEvent::LookupFound => if phase == Phase::Opening {
            (Phase::CheckingConnection, handle, SessionAction::CheckConnection)
        } else if phase == Phase::Acquiring {
            (Phase::Idle, handle, SessionAction::Done)
        } else {
            (Phase::Idle, handle, SessionAction::Fail(Error::NotSupported))
        },
        SessionEvent::LookupFailed => if phase == Phase::Opening {
            (Phase::SearchingKnown, None, SessionAction::SearchKnown)
        } else if phase == Phase::Acquiring {
            (Phase::Idle, None, SessionAction::Fail(Error::LostConnection))
        } else {
            (Phase::Idle, handle, SessionAction::Fail(Error::NotSupported))
        },
        SessionEvent::KnownMatched(h) => if phase == Phase::SearchingKnown {
            (Phase::CheckingConnection, Some(h), SessionAction::CheckConnection)
        } else {
            (Phase::Idle, handle, SessionAction::Fail(Error::NotSupported))
        },
        SessionEvent::NoKnownMatch => if phase == Phase::SearchingKnown {
            (Phase::Scanning, handle, SessionAction::Scan)
        } else {
            (Phase::Idle, handle, SessionAction::Fail(Error::NotSupported))
        },
        SessionEvent::ScanMatched(h) => if phase == Phase::Scanning {
            (Phase::CheckingConnection, Some(h), SessionAction::CheckConnection)
        } else {
            (Phase::Idle, handle, SessionAction::Fail(Error::NotSupported))
        },
        SessionEvent::ScanFailed => if phase == Phase::Scanning {
            (Phase::Idle, handle, SessionAction::Abort)
        } else {
            (Phase::Idle, handle, SessionAction::Fail(Error::NotSupported))
        },
        SessionEvent::Connected(c) => if phase == Phase::CheckingConnection {
            if c {
                (Phase::Idle, handle, SessionAction::Done)
            } else {
                (Phase::Connecting, handle, SessionAction::Connect)
            }
        } else {
            (Phase::Idle, handle, SessionAction::Fail(Error::NotSupported))
        },
        SessionEvent::ConnectDone => if phase == Phase::Connecting {
            (Phase::Idle, handle, SessionAction::Done)
        } else {
            (Phase::Idle, handle, SessionAction::Fail(Error::NotSupported))
        },
    }
}

/// The decisions of a device session around its cached peripheral handle `H`.
///
/// Opening reuses the cached handle when it still resolves, else matches the peripherals
/// already known, else scans; it then connects if needed. A request only reuses the cached
/// handle. A failed lookup drops the handle, so the next opening discovers the device anew.
pub struct Session<H> {
    /// Handle of the peripheral found last, possibly stale.
    pub handle: Option<H>,
    /// Where the current operation stands.
    pub phase: Phase,
}

impl<H> Session<H> {
    /// A session that has not resolved its peripheral yet.
    pub fn new() -> (r: Self)
        ensures
            r.handle is None,
            r.phase == Phase::Idle,
    {
        Session { handle: None, phase: Phase::Idle }
    }

    /// Takes in `event` and returns the next action.
    pub fn step(&mut self, event: SessionEvent<H>) -> (r: SessionAction)
        ensures
            transition(old(self).phase, old(self).handle, event) == (
                final(self).phase,
                final(self).handle,
                r,
            ),
    {
        let phase = self.phase;
        let (next, action) = match event {
            SessionEvent::Open => if self.handle.is_some() {
                (Phase::Opening, SessionAction::LookupCached)
            } else {
                (Phase::SearchingKnown, SessionAction::SearchKnown)
            },
            SessionEvent::Acquire => if self.handle.is_some() {
                (Phase::Acquiring, SessionAction::LookupCached)
            } else {
                (Phase::Idle, SessionAction::Fail(Error::LostConnection))
            },
            SessionEvent::LookupFound => if phase == Phase::Opening {
                (Phase::CheckingConnection, SessionAction::CheckConnection)
            } else if phase == Phase::Acquiring {
                (Phase::Idle, SessionAction::Done)
            } else {
                (Phase::Idle, SessionAction::Fail(Error::NotSupported))
            },
            SessionEvent::LookupFailed => if phase == Phase::Opening {
                self.handle = None;
                (Phase::SearchingKnown, SessionAction::SearchKnown)
            } else if phase == Phase::Acquiring {
                self.handle = None;
                (Phase::Idle, SessionAction::Fail(Error::LostConnection))
            } else {
                (Phase::Idle, SessionAction::Fail(Error::NotSupported))
            },
            SessionEvent::KnownMatched(h) => if phase == Phase::SearchingKnown {
                self.handle = Some(h);
                (Phase::CheckingConnection, SessionAction::CheckConnection)
            } else {
                (Phase::Idle, SessionAction::Fail(Error::NotSupported))
            },
            SessionEvent::NoKnownMatch => if phase == Phase::SearchingKnown {
                (Phase::Scanning, SessionAction::Scan)
            } else {
                (Phase::Idle, SessionAction::Fail(Error::NotSupported))
            },
            SessionEvent::ScanMatched(h) => if phase == Phase::Scanning {
                self.handle = Some(h);
                (Phase::CheckingConnection, SessionAction::CheckConnection)
            } else {
                (Phase::Idle, SessionAction::Fail(Error::NotSupported))
            },
            SessionEvent::ScanFailed => if phase == Phase::Scanning {
                (Phase::Idle, SessionAction::Abort)
            } else {
                (Phase::Idle, SessionAction::Fail(Error::NotSupported))
            },
            SessionEvent::Connected(c) => if phase == Phase::CheckingConnection {
                if c {
                    (Phase::Idle, SessionAction::Done)
                } else {
                    (Phase::Connecting, SessionAction::Connect)
                }
            } else {
                (Phase::Idle, SessionAction::Fail(Error::NotSupported))
            },
            SessionEvent::ConnectDone => if phase == Phase::Connecting {
                (Phase::Idle, SessionAction::Done)
            } else {
                (Phase::Idle, SessionAction::Fail(Error::NotSupported))
            },
        };
        self.phase = next;
        action
    }

    /// The cached handle, if any.
    pub fn handle(&self) -> (r: Option<&H>)
        ensures
            r is Some <==> self.handle is Some,
            r matches Some(h) ==> self.handle == Some(*h),
    {
        match &self.handle {
            Some(h) => Some(h),
            None => None,
        }
    }
}

/// Session self-healing: when looking up the cached handle fails, whether while opening or
/// while acquiring the peripheral for a request, the stale handle is dropped, and the next
/// opening re-discovers the device instead of reusing it.
pub proof fn lemma_session_self_healing<H>(phase: Phase, handle: Option<H>)
    requires
        phase == Phase::Opening || phase == Phase::Acquiring,
    ensures
        ({
            let (p1, h1, a1) = transition(phase, handle, SessionEvent::LookupFailed);
            &&& h1 is None
            &&& phase == Phase::Opening ==> a1 == SessionAction::SearchKnown
            &&& phase == Phase::Acquiring ==> a1 == SessionAction::Fail(Error::LostConnection)
            &&& transition(p1, h1, SessionEvent::<H>::Open).2 == SessionAction::SearchKnown
        }),
{
}

} // verus!
