//! The receiving side of a CFDP file transfer: the state that it keeps and
//! what the PDUs of a transfer do to it.
use vstd::prelude::*;

verus! {

/// Whether the handler is busy, and with which class of transfer.
#[derive(Debug, Copy, Clone, PartialEq, Eq, Structural)]
pub enum State {
    Idle,
    BusyClass1Nacked,
    BusyClass2Acked,
}

/// How far a transfer has come.
#[derive(Debug, Copy, Clone, PartialEq, Eq, Structural)]
pub enum TransactionStep {
    Idle,
    TransactionStart,
    ReceivingFileDataPdus,
    SendingAckPdu,
    TransferCompletion,
    SendingFinishedPdu,
}

/// The kinds of PDU.
#[derive(Debug, Copy, Clone, PartialEq, Eq, Structural)]
pub enum PduType {
    FileDirective,
    FileData,
}

/// The kinds of file directive.
#[derive(Debug, Copy, Clone, PartialEq, Eq, Structural)]
pub enum FileDirectiveType {
    EofPdu,
    FinishedPdu,
    AckPdu,
    MetadataPdu,
    NakPdu,
    PromptPdu,
    KeepAlivePdu,
}

/// What a metadata PDU says of the file besides its names.
#[derive(Debug, Copy, Clone, PartialEq, Eq, Structural)]
pub struct MetadataGenericParams {
    pub closure_requested: bool,
    pub checksum_type: u8,
    pub file_size: u64,
}

/// A metadata PDU: it opens a transfer.
#[derive(Debug, Clone, PartialEq, Eq)]
pub struct MetadataPdu {
    pub metadata_params: MetadataGenericParams,
    pub src_file_name: Vec<u8>,
    pub dest_file_name: Vec<u8>,
}

/// The longest file name that the handler keeps.
pub const MAX_FILE_NAME_LEN: usize = 255;

/// Why a PDU was refused.
#[derive(Debug, PartialEq, Eq, Clone, Copy, Structural)]
pub enum DestError {
    /// File directive expected, but none specified.
    DirectiveExpected,
    CantProcessPacketType(FileDirectiveType),
    /// A metadata PDU came while a transfer was going on.
    RecvdMetadataButIsBusy,
    EmptySrcFileField,
    EmptyDestFileField,
    /// A file name is longer than the handler can keep.
    FileNameTooLong,
}

/// The handler of the receiving side.
pub struct DestinationHandler {
    step: TransactionStep,
    state: State,
    metadata_params: MetadataGenericParams,
    src_file_name: Vec<u8>,
    dest_file_name: Vec<u8>,
}

/// What a handler holds.
pub struct DestModel {
    pub step: TransactionStep,
    pub state: State,
    pub metadata_params: MetadataGenericParams,
    pub src_file_name: Seq<u8>,
    pub dest_file_name: Seq<u8>,
}

impl View for DestinationHandler {
    type V = DestModel;

    closed spec fn view(&self) -> DestModel {
        DestModel {
            step: self.step,
            state: self.state,
            metadata_params: self.metadata_params,
            src_file_name: self.src_file_name@,
            dest_file_name: self.dest_file_name@,
        }
    }
}

/// What a metadata PDU does to a handler. It is refused while the handler is
/// busy, and where a file name is too long for the handler; nothing changes
/// then. Else its parameters are kept. Then the name of the source file is
/// kept, unless it is empty, and then the name of the destination file, unless
/// it is empty: an empty name is refused, and what was kept before it stays
/// kept.
pub open spec fn metadata_handled(
    before: DestModel,
    pdu: MetadataPdu,
    r: Result<(), DestError>,
    after: DestModel,
) -> bool {
    let with_params = DestModel { metadata_params: pdu.metadata_params, ..before };
    let with_source = DestModel { src_file_name: pdu.src_file_name@, ..with_params };
    if before.state != State::Idle {
        r == Err::<(), DestError>(DestError::RecvdMetadataButIsBusy) && after == before
    } else if pdu.src_file_name@.len() > MAX_FILE_NAME_LEN || pdu.dest_file_name@.len()
        > MAX_FILE_NAME_LEN {
        r == Err::<(), DestError>(DestError::FileNameTooLong) && after == before
    } else if pdu.src_file_name@.len() == 0 {
        r == Err::<(), DestError>(DestError::EmptySrcFileField) && after == with_params
    } else if pdu.dest_file_name@.len() == 0 {
        r == Err::<(), DestError>(DestError::EmptyDestFileField) && after == with_source
    } else {
        r.is_ok() && after == (DestModel { dest_file_name: pdu.dest_file_name@, ..with_source })
    }
}

/// What a file directive does to a handler: the metadata PDU is handled, see
/// [`metadata_handled`], and where it is refused the reason is dropped: the
/// result is `Ok` all the same. Every other directive is refused and changes
/// nothing.
pub open spec fn directive_handled(
    before: DestModel,
    pdu_directive: FileDirectiveType,
    metadata_pdu: Option<&MetadataPdu>,
    r: Result<(), DestError>,
    after: DestModel,
) -> bool {
    match (pdu_directive, metadata_pdu) {
        (FileDirectiveType::MetadataPdu, Some(pdu)) => r.is_ok() && exists|inner: Result<(), DestError>| #[trigger]
            metadata_handled(before, *pdu, inner, after),
        (d, _) => r == Err::<(), DestError>(DestError::CantProcessPacketType(d)) && after == before,
    }
}

impl DestinationHandler {
    /// A handler that is idle and knows of no file.
    pub fn new() -> (r: Self)
        ensures
            r@ == (DestModel {
                step: TransactionStep::Idle,
                state: State::Idle,
                metadata_params: MetadataGenericParams {
                    closure_requested: false,
                    checksum_type: 0,
                    file_size: 0,
                },
                src_file_name: Seq::empty(),
                dest_file_name: Seq::empty(),
            }),
    {
        Self {
            step: TransactionStep::Idle,
            state: State::Idle,
            metadata_params: MetadataGenericParams { closure_requested: false, checksum_type: 0, file_size: 0 },
            src_file_name: Vec::new(),
            dest_file_name: Vec::new(),
        }
    }

    /// Takes a PDU. A file directive has to say which one it is, and is
    /// handled as [`directive_handled`] says. File data changes nothing.
    pub fn insert_packet(
        &mut self,
        pdu_type: PduType,
        pdu_directive: Option<FileDirectiveType>,
        metadata_pdu: Option<&MetadataPdu>,
    ) -> (r: Result<(), DestError>)
        ensures
            match (pdu_type, pdu_directive) {
                (PduType::FileData, _) => r.is_ok() && final(self)@ == old(self)@,
                (PduType::FileDirective, None) => r == Err::<(), DestError>(
                    DestError::DirectiveExpected,
                ) && final(self)@ == old(self)@,
                (PduType::FileDirective, Some(d)) => directive_handled(
                    old(self)@,
                    d,
                    metadata_pdu,
                    r,
                    final(self)@,
                ),
            },
    {
        match pdu_type {
            PduType::FileDirective => match pdu_directive {
                None => Err(DestError::DirectiveExpected),
                Some(directive) => self.handle_file_directive(directive, metadata_pdu),
            },
            PduType::FileData => self.handle_file_data(),
        }
    }

    /// File data changes nothing.
    pub fn handle_file_data(&mut self) -> (r: Result<(), DestError>)
        ensures
            r.is_ok(),
            final(self)@ == old(self)@,
    {
        Ok(())
    }

    /// Takes a file directive, see [`directive_handled`].
    pub fn handle_file_directive(
        &mut self,
        pdu_directive: FileDirectiveType,
        metadata_pdu: Option<&MetadataPdu>,
    ) -> (r: Result<(), DestError>)
        ensures
            directive_handled(old(self)@, pdu_directive, metadata_pdu, r, final(self)@),
    {
        match (pdu_directive, metadata_pdu) {
            (FileDirectiveType::MetadataPdu, Some(pdu)) => {
                let inner = self.handle_metadata_pdu(pdu);
                proof {
                    assert(metadata_handled(old(self)@, *pdu, inner, self@));
                }
                Ok(())
            },
            (d, _) => Err(DestError::CantProcessPacketType(d)),
        }
    }

    /// Runs the state machine of a transfer without acknowledgement that has
    /// not started to receive: there is nothing to do. Every other state, the
    /// idle one too, has no behaviour yet and is left out.
    pub fn state_machine(&mut self)
        requires
            old(self)@.state == State::BusyClass1Nacked,
            old(self)@.step == TransactionStep::Idle || old(self)@.step
                == TransactionStep::TransactionStart,
        ensures
            final(self)@ == old(self)@,
    {
        self.fsm_nacked()
    }

    /// Takes a metadata PDU, see [`metadata_handled`].
    pub fn handle_metadata_pdu(&mut self, metadata_pdu: &MetadataPdu) -> (r: Result<(), DestError>)
        ensures
            metadata_handled(old(self)@, *metadata_pdu, r, final(self)@),
    {
        match self.state {
            State::Idle => {},
            _ => {
                return Err(DestError::RecvdMetadataButIsBusy);
            },
        }
        if metadata_pdu.src_file_name.len() > MAX_FILE_NAME_LEN || metadata_pdu.dest_file_name.len()
            > MAX_FILE_NAME_LEN {
            return Err(DestError::FileNameTooLong);
        }
        self.metadata_params = metadata_pdu.metadata_params;
        if metadata_pdu.src_file_name.len() == 0 {
            return Err(DestError::EmptySrcFileField);
        }
        self.src_file_name = metadata_pdu.src_file_name.clone();
        if metadata_pdu.dest_file_name.len() == 0 {
            return Err(DestError::EmptyDestFileField);
        }
        self.dest_file_name = metadata_pdu.dest_file_name.clone();
        Ok(())
    }

    /// An end-of-file PDU changes nothing yet.
    pub fn handle_eof_pdu(&mut self) -> (r: Result<(), DestError>)
        ensures
            r.is_ok(),
            final(self)@ == old(self)@,
    {
        Ok(())
    }

    fn fsm_nacked(&self)
        requires
            self@.step == TransactionStep::Idle || self@.step == TransactionStep::TransactionStart,
    {
    }

    /// Where the transfer stands.
    pub fn step(&self) -> (r: TransactionStep)
        ensures
            r == self@.step,
    {
        self.step
    }

    /// Whether the handler is busy, and with which class of transfer.
    pub fn state(&self) -> (r: State)
        ensures
            r == self@.state,
    {
        self.state
    }
}

} // verus!
