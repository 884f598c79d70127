//! What the PUS service handlers share: the errors of sending and receiving,
//! the senders of telemetry and the receivers of telecommands.

use crate::event_man::SenderId;
use crate::pool::{StoreAddr, StoreError};
use crate::spacepackets::{ByteConversionError, PusError, SizeMissmatch, SpHeader};
use crate::tc::PusTc;
use crate::tm::{PusTm, TmModel};
use crate::verification::{StateAccepted, TcStateToken, VerificationToken};

use vstd::prelude::*;

verus! {

/// Telemetry on its way: in the store already, or as a packet.
#[derive(Debug, Clone, PartialEq, Eq)]
pub enum PusTmWrapper {
    InStore(StoreAddr),
    Direct(PusTm),
}

/// What a [`PusTmWrapper`] holds.
pub enum TmWrapperModel {
    InStore(StoreAddr),
    Direct(TmModel),
}

impl View for PusTmWrapper {
    type V = TmWrapperModel;

    open spec fn view(&self) -> TmWrapperModel {
        match self {
            PusTmWrapper::InStore(addr) => TmWrapperModel::InStore(*addr),
            PusTmWrapper::Direct(tm) => TmWrapperModel::Direct(tm@),
        }
    }
}

impl PusTmWrapper {
    /// A packet that is in the wrapper can be sent: its length fits a `usize`.
    pub open spec fn wf(&self) -> bool {
        match self {
            PusTmWrapper::InStore(_) => true,
            PusTmWrapper::Direct(tm) => tm.wf(),
        }
    }

    pub fn from_addr(value: StoreAddr) -> (r: Self)
        ensures
            r@ == TmWrapperModel::InStore(value),
    {
        PusTmWrapper::InStore(value)
    }

    pub fn from_tm(value: PusTm) -> (r: Self)
        ensures
            r@ == TmWrapperModel::Direct(value@),
            r.wf() == value.wf(),
    {
        PusTmWrapper::Direct(value)
    }
}

/// A telecommand that is handed on: the packet itself, or the address of its
/// raw form in a store.
pub enum PusTcWrapper<'tc> {
    PusTc(&'tc PusTc),
    StoreAddr(StoreAddr),
}

/// An address together with a token whose state is known at run time.
pub type TcAddrWithToken = (StoreAddr, TcStateToken);

/// A telecommand that was accepted: its address in the pool and its token.
pub type AcceptedTc = (StoreAddr, VerificationToken<StateAccepted>);

/// Why something could not be put into a queue.
#[derive(Debug, Copy, Clone, PartialEq, Eq, Structural)]
pub enum GenericSendError {
    RxDisconnected,
    QueueFull(u32),
}

/// Why nothing came out of a queue.
#[derive(Debug, Copy, Clone, PartialEq, Eq, Structural)]
pub enum GenericRecvError {
    Empty,
    TxDisconnected,
}

impl GenericSendError {
    /// The error in words, without the capacity of a full queue.
    pub fn describe(&self) -> (r: &'static str)
        ensures
            r@ == (match self {
                GenericSendError::RxDisconnected => "rx side has disconnected"@,
                GenericSendError::QueueFull(_) => "queue is full"@,
            }),
    {
        match self {
            GenericSendError::RxDisconnected => "rx side has disconnected",
            GenericSendError::QueueFull(_) => "queue is full",
        }
    }
}

impl GenericRecvError {
    /// The error in words.
    pub fn describe(&self) -> (r: &'static str)
        ensures
            r@ == (match self {
                GenericRecvError::TxDisconnected => "tx side has disconnected"@,
                GenericRecvError::Empty => "nothing to receive"@,
            }),
    {
        match self {
            GenericRecvError::TxDisconnected => "tx side has disconnected",
            GenericRecvError::Empty => "nothing to receive",
        }
    }
}

/// The errors of the exchange of telemetry and telecommands.
#[derive(Debug, Clone, Copy, PartialEq, Eq, Structural)]
pub enum EcssTmtcError {
    StoreLock,
    Store(StoreError),
    Pus(PusError),
    CantSendAddr(StoreAddr),
    Send(GenericSendError),
    Recv(GenericRecvError),
}

impl EcssTmtcError {
    pub fn from_store_error(value: StoreError) -> (r: Self)
        ensures
            r == EcssTmtcError::Store(value),
    {
        EcssTmtcError::Store(value)
    }

    pub fn from_pus_error(value: PusError) -> (r: Self)
        ensures
            r == EcssTmtcError::Pus(value),
    {
        EcssTmtcError::Pus(value)
    }

    pub fn from_send_error(value: GenericSendError) -> (r: Self)
        ensures
            r == EcssTmtcError::Send(value),
    {
        EcssTmtcError::Send(value)
    }

    pub fn from_recv_error(value: GenericRecvError) -> (r: Self)
        ensures
            r == EcssTmtcError::Recv(value),
    {
        EcssTmtcError::Recv(value)
    }

    /// The kind of the error in words.
    pub fn describe(&self) -> (r: &'static str)
        ensures
            r@ == (match self {
                EcssTmtcError::StoreLock => "store lock error"@,
                EcssTmtcError::Store(_) => "store error"@,
                EcssTmtcError::Pus(_) => "PUS error"@,
                EcssTmtcError::CantSendAddr(_) => "can not send address"@,
                EcssTmtcError::Send(_) => "send error"@,
                EcssTmtcError::Recv(_) => "recv error"@,
            }),
    {
        match self {
            EcssTmtcError::StoreLock => "store lock error",
            EcssTmtcError::Store(_) => "store error",
            EcssTmtcError::Pus(_) => "PUS error",
            EcssTmtcError::CantSendAddr(_) => "can not send address",
            EcssTmtcError::Send(_) => "send error",
            EcssTmtcError::Recv(_) => "recv error",
        }
    }
}

/// An end of a queue with an identifier and a name.
pub trait EcssChannel {
    fn id(&self) -> SenderId;

    fn name(&self) -> &'static str {
        "unset"
    }
}

/// Sends telemetry to whoever collects it.
///
/// `sent` is the list of what was sent with success, oldest first.
pub trait EcssTmSenderCore: EcssChannel {
    /// What the sender has sent with success, oldest first.
    open spec fn sent(&self) -> Seq<TmWrapperModel> {
        arbitrary()
    }

    /// What the sender was asked to send, with success or without, oldest
    /// first.
    open spec fn offered(&self) -> Seq<TmWrapperModel> {
        arbitrary()
    }

    /// The invariant of the sender.
    open spec fn usable(&self) -> bool {
        true
    }

    /// Sends telemetry. What could not be sent leaves no trace but in what
    /// was offered.
    fn send_tm(&mut self, tm: PusTmWrapper) -> (r: Result<(), EcssTmtcError>)
        requires
            old(self).usable(),
            tm.wf(),
        ensures
            final(self).usable(),
            final(self).offered() == old(self).offered().push(tm@),
            r.is_ok() ==> final(self).sent() == old(self).sent().push(tm@),
            r.is_err() ==> final(self).sent() == old(self).sent(),
    ;
}

/// Sends telecommands to whoever handles them.
pub trait EcssTcSenderCore: EcssChannel {
    fn send_tc(&mut self, tc: PusTc, token: Option<TcStateToken>) -> Result<(), EcssTmtcError>;
}

/// A telecommand as a receiver hands it out.
pub struct ReceivedTcWrapper {
    /// Where the telecommand lies in the pool. The slot is to be given back
    /// when the telecommand was handled.
    pub addr: StoreAddr,
    pub tc: PusTc,
    pub token: Option<TcStateToken>,
}

/// Hands out the telecommands that wait for a handler.
pub trait EcssTcReceiverCore: EcssChannel {
    /// The invariant of the receiver.
    open spec fn usable(&self) -> bool {
        true
    }

    /// The next telecommand. Its raw form is copied to the front of `buf`.
    fn recv_tc(&mut self, buf: &mut [u8]) -> (r: Result<ReceivedTcWrapper, EcssTmtcError>)
        requires
            old(self).usable(),
        ensures
            final(self).usable(),
            final(buf)@.len() == old(buf)@.len(),
            r matches Ok(received) ==> received.tc.wf(),
    ;
}

/// Takes PUS telecommands together with their primary header.
pub trait ReceivesEcssPusTc {
    type Error;

    fn pass_pus_tc(&mut self, header: &SpHeader, pus_tc: &PusTc) -> Result<(), Self::Error>;
}

/// A telemetry sender that can be handed around.
pub trait EcssTmSender: EcssTmSenderCore {

}

/// A telecommand sender that can be handed around.
pub trait EcssTcSender: EcssTcSenderCore {

}

/// A telecommand receiver that can be handed around.
pub trait EcssTcReceiver: EcssTcReceiverCore {

}

impl<T: EcssTmSenderCore> EcssTmSender for T {

}

impl<T: EcssTcSenderCore> EcssTcSender for T {

}

impl<T: EcssTcReceiverCore> EcssTcReceiver for T {

}

/// Checks that `len` bytes fit a buffer of `cap` bytes.
pub fn source_buffer_large_enough(cap: usize, len: usize) -> (r: Result<(), EcssTmtcError>)
    ensures
        r == (if len > cap {
            Err::<(), EcssTmtcError>(
                EcssTmtcError::Pus(
                    PusError::ByteConversion(
                        ByteConversionError::ToSliceTooSmall(SizeMissmatch { found: cap, expected: len }),
                    ),
                ),
            )
        } else {
            Ok::<(), EcssTmtcError>(())
        }),
{
    if len > cap {
        return Err(
            EcssTmtcError::Pus(
                PusError::ByteConversion(
                    ByteConversionError::ToSliceTooSmall(SizeMissmatch { found: cap, expected: len }),
                ),
            ),
        );
    }
    Ok(())
}

} // verus!
