//! Requests that service handlers send on to the parts of the software that
//! carry them out.
use crate::channels::mpsc_send;
use crate::events::EventU32;
use crate::mode::ModeRequest;

use crate::pus::{AcceptedTc, GenericSendError};
use crate::verification::{StateAccepted, StateStarted, VerificationToken};
use std::sync::mpsc::Sender;
use vstd::prelude::*;

verus! {

/// Identifies the target of a request.
pub type TargetId = u32;

/// Identifies a set of housekeeping data of a target.
pub type UniqueId = u32;

/// By how much the collection interval of housekeeping data is stretched.
pub type CollectionIntervalFactor = u32;

/// A target and one of its sets of housekeeping data.
#[derive(Debug, Copy, Clone, PartialEq, Eq, Structural)]
pub struct AddressableId {
    pub target_id: TargetId,
    pub unique_id: UniqueId,
}

impl AddressableId {
    /// Reads the two identifiers from the first eight bytes of `buf`; `None`
    /// where it is shorter.
    pub fn from_raw_be(buf: &[u8]) -> (r: Option<Self>)
        ensures
            r == (if buf@.len() >= 8 {
                Some(
                    AddressableId {
                        target_id: crate::spacepackets::u32_of_be(buf@.subrange(0, 4)),
                        unique_id: crate::spacepackets::u32_of_be(buf@.subrange(4, 8)),
                    },
                )
            } else {
                None
            }),
    {
        if buf.len() < 8 {
            return None;
        }
        Some(
            AddressableId {
                target_id: crate::spacepackets::u32_from_be(buf, 0),
                unique_id: crate::spacepackets::u32_from_be(buf, 4),
            },
        )
    }
}

/// A request for housekeeping data.
#[derive(Debug, Copy, Clone, PartialEq, Eq, Structural)]
pub enum HkRequest {
    OneShot(UniqueId),
    Enable(UniqueId),
    Disable(UniqueId),
    ModifyCollectionInterval(UniqueId, CollectionIntervalFactor),
}

/// A request for an action.
#[derive(Debug, Clone, PartialEq, Eq)]
pub enum ActionRequest {
    /// The number of the action and its parameters.
    CmdWithU32Id(u32, Vec<u8>),
}

/// A request of any kind.
#[derive(Debug, Clone, PartialEq, Eq)]
pub enum Request {
    HkRequest(HkRequest),
    ModeRequest(ModeRequest),
    Action(ActionRequest),
}

/// A request and its target.
#[derive(Debug, Clone, PartialEq, Eq)]
pub struct TargetedRequest {
    pub target_id: TargetId,
    pub request: Request,
}

/// A request with the token of the telecommand that asked for it.
#[derive(Debug, Clone, PartialEq, Eq)]
pub struct RequestWithToken {
    pub targeted_request: TargetedRequest,
    pub token: VerificationToken<StateAccepted>,
}

impl RequestWithToken {
    pub fn new(target_id: TargetId, request: Request, token: VerificationToken<StateAccepted>) -> (r: Self)
        ensures
            r.targeted_request.target_id == target_id,
            r.targeted_request.request == request,
            r.token == token,
    {
        Self { targeted_request: TargetedRequest { target_id, request }, token }
    }
}

/// Sends requests to the one who carries them out.
///
/// `sent` is the list of the requests sent with success, oldest first.
pub trait RequestSender {
    open spec fn sent(&self) -> Seq<RequestWithToken> {
        arbitrary()
    }

    /// What the sender was asked to send, with success or without, oldest
    /// first.
    open spec fn offered(&self) -> Seq<RequestWithToken> {
        arbitrary()
    }

    /// Sends a request. A request that could not be sent leaves no trace.
    fn send_request(&mut self, request: RequestWithToken) -> (r: Result<(), GenericSendError>)
        ensures
            final(self).offered() == old(self).offered().push(request),
            r.is_ok() ==> final(self).sent() == old(self).sent().push(request),
            r.is_err() ==> final(self).sent() == old(self).sent(),
    ;
}

/// A request sender on a channel of the standard library.
pub struct MpscRequestSender {
    sender: Sender<RequestWithToken>,
    log: Ghost<Seq<RequestWithToken>>,
    offered: Ghost<Seq<RequestWithToken>>,
}

impl MpscRequestSender {
    pub fn new(sender: Sender<RequestWithToken>) -> (r: Self)
        ensures
            r.sent() == Seq::<RequestWithToken>::empty(),
            r.offered() == Seq::<RequestWithToken>::empty(),
    {
        Self { sender, log: Ghost(Seq::empty()), offered: Ghost(Seq::empty()) }
    }
}

impl RequestSender for MpscRequestSender {
    closed spec fn sent(&self) -> Seq<RequestWithToken> {
        self.log@
    }

    closed spec fn offered(&self) -> Seq<RequestWithToken> {
        self.offered@
    }

    fn send_request(&mut self, request: RequestWithToken) -> (r: Result<(), GenericSendError>)
        ensures
            r matches Err(e) ==> e == GenericSendError::RxDisconnected,
    {
        let ghost item = request;
        proof {
            self.offered@ = self.offered@.push(item);
        }
        match mpsc_send(&self.sender, request) {
            Ok(()) => {
                proof {
                    self.log@ = self.log@.push(item);
                }
                Ok(())
            },
            Err(_) => Err(GenericSendError::RxDisconnected),
        }
    }
}

/// A request to switch the reporting of an event on or off.
#[derive(Debug, Copy, Clone, PartialEq, Eq, Structural)]
pub enum EventRequest {
    Enable(EventU32),
    Disable(EventU32),
}

/// An event request with the token of the telecommand that asked for it.
#[derive(Debug, Copy, Clone, PartialEq, Eq)]
pub struct EventRequestWithToken {
    pub request: EventRequest,
    pub token: VerificationToken<StateStarted>,
}

/// Sends event requests to the one who switches the reporting of events.
///
/// `sent` is the list of the requests sent with success, oldest first.
pub trait EventRequestSender {
    open spec fn sent(&self) -> Seq<EventRequestWithToken> {
        arbitrary()
    }

    /// What the sender was asked to send, with success or without, oldest
    /// first.
    open spec fn offered(&self) -> Seq<EventRequestWithToken> {
        arbitrary()
    }

    /// Sends a request. A request that could not be sent leaves no trace.
    fn send_event_request(&mut self, request: EventRequestWithToken) -> (r: Result<(), GenericSendError>)
        ensures
            final(self).offered() == old(self).offered().push(request),
            r.is_ok() ==> final(self).sent() == old(self).sent().push(request),
            r.is_err() ==> final(self).sent() == old(self).sent(),
    ;
}

/// An event request sender on a channel of the standard library.
pub struct MpscEventRequestSender {
    sender: Sender<EventRequestWithToken>,
    log: Ghost<Seq<EventRequestWithToken>>,
    offered: Ghost<Seq<EventRequestWithToken>>,
}

impl MpscEventRequestSender {
    pub fn new(sender: Sender<EventRequestWithToken>) -> (r: Self)
        ensures
            r.sent() == Seq::<EventRequestWithToken>::empty(),
            r.offered() == Seq::<EventRequestWithToken>::empty(),
    {
        Self { sender, log: Ghost(Seq::empty()), offered: Ghost(Seq::empty()) }
    }
}

impl EventRequestSender for MpscEventRequestSender {
    closed spec fn sent(&self) -> Seq<EventRequestWithToken> {
        self.log@
    }

    closed spec fn offered(&self) -> Seq<EventRequestWithToken> {
        self.offered@
    }

    fn send_event_request(&mut self, request: EventRequestWithToken) -> (r: Result<(), GenericSendError>)
        ensures
            r matches Err(e) ==> e == GenericSendError::RxDisconnected,
    {
        proof {
            self.offered@ = self.offered@.push(request);
        }
        match mpsc_send(&self.sender, request) {
            Ok(()) => {
                proof {
                    self.log@ = self.log@.push(request);
                }
                Ok(())
            },
            Err(_) => Err(GenericSendError::RxDisconnected),
        }
    }
}

/// Sends accepted telecommands to the handler of their service.
///
/// `sent` is the list of what was sent with success, oldest first.
pub trait AcceptedTcSender {
    open spec fn sent(&self) -> Seq<AcceptedTc> {
        arbitrary()
    }

    /// What the sender was asked to send, with success or without, oldest
    /// first.
    open spec fn offered(&self) -> Seq<AcceptedTc> {
        arbitrary()
    }

    /// Sends the address of a telecommand with its token. What could not be
    /// sent leaves no trace.
    fn send_accepted(&mut self, tc: AcceptedTc) -> (r: Result<(), GenericSendError>)
        ensures
            final(self).offered() == old(self).offered().push(tc),
            r.is_ok() ==> final(self).sent() == old(self).sent().push(tc),
            r.is_err() ==> final(self).sent() == old(self).sent(),
    ;
}

/// A sender of accepted telecommands on a channel of the standard library.
pub struct MpscAcceptedTcSender {
    sender: Sender<AcceptedTc>,
    log: Ghost<Seq<AcceptedTc>>,
    offered: Ghost<Seq<AcceptedTc>>,
}

impl MpscAcceptedTcSender {
    pub fn new(sender: Sender<AcceptedTc>) -> (r: Self)
        ensures
            r.sent() == Seq::<AcceptedTc>::empty(),
            r.offered() == Seq::<AcceptedTc>::empty(),
    {
        Self { sender, log: Ghost(Seq::empty()), offered: Ghost(Seq::empty()) }
    }
}

impl AcceptedTcSender for MpscAcceptedTcSender {
    closed spec fn sent(&self) -> Seq<AcceptedTc> {
        self.log@
    }

    closed spec fn offered(&self) -> Seq<AcceptedTc> {
        self.offered@
    }

    fn send_accepted(&mut self, tc: AcceptedTc) -> (r: Result<(), GenericSendError>)
        ensures
            r matches Err(e) ==> e == GenericSendError::RxDisconnected,
    {
        proof {
            self.offered@ = self.offered@.push(tc);
        }
        match mpsc_send(&self.sender, tc) {
            Ok(()) => {
                proof {
                    self.log@ = self.log@.push(tc);
                }
                Ok(())
            },
            Err(_) => Err(GenericSendError::RxDisconnected),
        }
    }
}

} // verus!
