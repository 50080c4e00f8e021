//! The MCTP control protocol: headers, commands and the framed control payload.
use vstd::prelude::*;
use crate::base::buffer::{append_bytes, tail_from};
use crate::base::errors::MctpBaseLibError;
use crate::base::models::TransportHeader;
use crate::base::traits::{FromBinary, U8Enum};
use crate::control::enums::{CommandCode, CompletionCode};
use crate::control::models::ControlMsgHeader;

pub mod allocate_eids;
pub mod enums;
pub mod get_eid;
pub mod get_routing_table;
pub mod models;
pub mod set_eid;

pub use self::models::{EmptyRequest, EmptyResponse};

verus! {

/// What every response with a completion code can tell about its outcome.
pub trait ControlMsgReponseStatus {
    /// The completion-code byte that the response carries.
    spec fn spec_completion_byte(&self) -> u8;

    /// The completion code that the byte stands for.
    fn completion_code(&self) -> (c: CompletionCode)
        ensures
            c == CompletionCode::spec_from_u8(self.spec_completion_byte()),
    ;

    /// `Ok` exactly when the byte stands for `Success`; any other byte comes back, as it
    /// was received, as the error.
    fn is_success(&self) -> (r: Result<(), u8>)
        ensures
            CompletionCode::spec_from_u8(self.spec_completion_byte()) == CompletionCode::Success
                ==> r == Ok::<(), u8>(()),
            CompletionCode::spec_from_u8(self.spec_completion_byte()) != CompletionCode::Success
                ==> r == Err::<(), u8>(self.spec_completion_byte()),
    ;
}

/// Number of bytes in front of a control-message body: transport header and control header.
pub open spec fn control_payload_min_len() -> nat {
    TransportHeader::spec_size() + ControlMsgHeader::spec_size()
}

/// One MCTP control packet: the transport header, and behind it the control message,
/// whose header is also kept decoded in `control_hdr`.
#[derive(Debug, PartialEq, Eq)]
pub struct ControlPayload {
    pub hdr: TransportHeader,
    pub control_hdr: ControlMsgHeader,
    /// The control message as it travels: its header, then its body.
    pub payload: Vec<u8>,
}

impl ControlPayload {
    /// Whether `control_hdr` is what `payload` starts with.
    pub open spec fn wf(&self) -> bool {
        &&& self.payload@.len() >= ControlMsgHeader::spec_size()
        &&& self.control_hdr == ControlMsgHeader::spec_decode(self.payload@)
    }

    /// The packet as it travels: the transport header, then the control message.
    pub open spec fn spec_encode(&self) -> Seq<u8> {
        self.hdr.spec_encode() + self.payload@
    }

    /// A packet of the three parts given; nothing is checked.
    pub fn new(hdr: TransportHeader, control_hdr: ControlMsgHeader, payload: Vec<u8>) -> (p: Self)
        ensures
            p.hdr == hdr,
            p.control_hdr == control_hdr,
            p.payload@ == payload@,
    {
        ControlPayload { hdr, control_hdr, payload }
    }

    /// Parses a packet and then its control message as a `T`.
    ///
    /// Fails with the size error of the packet when `bytes` holds fewer than seven bytes,
    /// and with the size error of `T` when the control message is shorter than a `T`.
    pub fn try_to_response<T: FromBinary>(bytes: &[u8]) -> (r: Result<
        (ControlPayload, T),
        MctpBaseLibError,
    >)
        ensures
            bytes@.len() < control_payload_min_len() ==> r == Err::<
                (ControlPayload, T),
                MctpBaseLibError,
            >(
                MctpBaseLibError::InvalidPayloadSize {
                    expected: control_payload_min_len() as usize,
                    found: bytes@.len() as usize,
                },
            ),
            control_payload_min_len() <= bytes@.len() < 4 + T::spec_size() ==> r == Err::<
                (ControlPayload, T),
                MctpBaseLibError,
            >(
                MctpBaseLibError::InvalidPayloadSize {
                    expected: T::spec_size() as usize,
                    found: (bytes@.len() - 4) as usize,
                },
            ),
            bytes@.len() >= control_payload_min_len() && bytes@.len() >= 4 + T::spec_size() ==> {
                &&& r matches Ok((payload, msg))
                &&& payload.hdr == TransportHeader::spec_decode(bytes@)
                &&& payload.control_hdr == ControlMsgHeader::spec_decode(bytes@.skip(4))
                &&& payload.payload@ == bytes@.skip(4)
                &&& msg == T::spec_decode(bytes@.skip(4))
            },
    {
        let payload = match ControlPayload::try_from_bytes(bytes) {
            Ok(payload) => payload,
            Err(e) => {
                return Err(e);
            },
        };
        match T::try_from_bytes(payload.payload.as_slice()) {
            Ok(msg) => Ok((payload, msg)),
            Err(e) => Err(e),
        }
    }

    /// The command of the packet, unless it is [`CommandCode::Unknown`].
    pub fn command_code(&self) -> (r: Result<CommandCode, MctpBaseLibError>)
        ensures
            self.control_hdr.command_code != CommandCode::Unknown ==> r == Ok::<
                CommandCode,
                MctpBaseLibError,
            >(self.control_hdr.command_code),
            self.control_hdr.command_code == CommandCode::Unknown ==> {
                &&& r matches Err(MctpBaseLibError::UnknownValue { value })
                &&& value@ == "Unknown"@
            },
    {
        match self.control_hdr.command_code {
            CommandCode::Unknown => Err(
                MctpBaseLibError::UnknownValue { value: "Unknown".to_owned() },
            ),
            code => Ok(code),
        }
    }

    /// The packet that answers `self`: the transport header of the reply (see
    /// [`TransportHeader::spec_create_response`]) in front of `response_body`.
    pub fn create_response_payload(
        &self,
        control_hdr: ControlMsgHeader,
        response_body: Vec<u8>,
    ) -> (p: ControlPayload)
        ensures
            p.hdr == self.hdr.spec_create_response(),
            p.control_hdr == control_hdr,
            p.payload@ == response_body@,
    {
        let rsp_hdr = self.hdr.create_response();
        ControlPayload::new(rsp_hdr, control_hdr, response_body)
    }

    /// The packet as it travels.
    pub fn to_bytes(&self) -> (bytes: Vec<u8>)
        ensures
            bytes@ == self.spec_encode(),
    {
        let mut bytes = self.hdr.to_bytes();
        append_bytes(&mut bytes, self.payload.as_slice());
        bytes
    }

    /// Parses a packet: the transport header from the first four bytes, the control
    /// header from the next three, and everything behind the transport header as payload.
    /// Fails exactly when `bytes` holds fewer than seven bytes.
    pub fn try_from_bytes(bytes: &[u8]) -> (r: Result<ControlPayload, MctpBaseLibError>)
        ensures
            bytes@.len() < control_payload_min_len() ==> r == Err::<
                ControlPayload,
                MctpBaseLibError,
            >(
                MctpBaseLibError::InvalidPayloadSize {
                    expected: control_payload_min_len() as usize,
                    found: bytes@.len() as usize,
                },
            ),
            bytes@.len() >= control_payload_min_len() ==> {
                &&& r matches Ok(p)
                &&& p.hdr == TransportHeader::spec_decode(bytes@)
                &&& p.control_hdr == ControlMsgHeader::spec_decode(bytes@.skip(4))
                &&& p.payload@ == bytes@.skip(4)
                &&& p.wf()
            },
    {
        let hdr_size = TransportHeader::size();
        let total_hdr_size = hdr_size + ControlMsgHeader::size();
        if bytes.len() < total_hdr_size {
            return Err(
                MctpBaseLibError::InvalidPayloadSize {
                    expected: total_hdr_size,
                    found: bytes.len(),
                },
            );
        }
        let payload = tail_from(bytes, hdr_size);
        let hdr = match TransportHeader::try_from_bytes(bytes) {
            Ok(hdr) => hdr,
            Err(e) => {
                return Err(e);
            },
        };
        let control_hdr = match ControlMsgHeader::try_from_bytes(payload.as_slice()) {
            Ok(control_hdr) => control_hdr,
            Err(e) => {
                return Err(e);
            },
        };
        Ok(ControlPayload::new(hdr, control_hdr, payload))
    }

    /// Parses the control message of the packet as a `T`; fails exactly when the message
    /// is shorter than a `T`.
    pub fn parse_msg<T: FromBinary>(&self) -> (r: Result<T, MctpBaseLibError>)
        ensures
            self.payload@.len() >= T::spec_size() ==> r == Ok::<T, MctpBaseLibError>(
                T::spec_decode(self.payload@),
            ),
            self.payload@.len() < T::spec_size() ==> r == Err::<T, MctpBaseLibError>(
                MctpBaseLibError::InvalidPayloadSize {
                    expected: T::spec_size() as usize,
                    found: self.payload@.len() as usize,
                },
            ),
    {
        T::try_from_bytes(self.payload.as_slice())
    }

    /// A packet read back from its own encoding is the same packet, provided that its
    /// decoded control header agrees with its payload.
    pub proof fn lemma_round_trip(&self)
        requires
            self.wf(),
        ensures
            self.spec_encode().len() >= control_payload_min_len(),
            TransportHeader::spec_decode(self.spec_encode()) == self.hdr,
            ControlMsgHeader::spec_decode(self.spec_encode().skip(4)) == self.control_hdr,
            self.spec_encode().skip(4) == self.payload@,
    {
        assert(self.spec_encode().skip(4) == self.payload@);
    }
}

} // verus!
