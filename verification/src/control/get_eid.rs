//! Get Endpoint ID: asks an endpoint for its EID and its kind.
use vstd::prelude::*;
use vstd::std_specs::convert::FromSpecImpl;
use crate::base::bitfield::{field, with_field};
use crate::base::errors::MctpBaseLibError;
use crate::base::traits::{FromBinary, U8Enum};
use crate::control::enums::CompletionCode;
use crate::control::models::ControlMsgHeader;
use crate::control::ControlMsgReponseStatus;

verus! {

/// A Get Endpoint ID request: the control header alone.
#[derive(Copy, Clone, Debug, PartialEq, Eq, Structural)]
pub struct Request {
    pub hdr: ControlMsgHeader,
}

impl Default for Request {
    fn default() -> (m: Self)
        ensures
            m == (Request {
                hdr: ControlMsgHeader::spec_default(),
            }),
    {
        Request { hdr: ControlMsgHeader::default() }
    }
}

impl FromBinary for Request {
    open spec fn spec_size() -> nat {
        3
    }

    open spec fn spec_encode(&self) -> Seq<u8> {
        self.hdr.spec_encode()
    }

    open spec fn spec_decode(bytes: Seq<u8>) -> Self {
        Request {
            hdr: ControlMsgHeader::spec_decode(bytes),
        }
    }

    fn size() -> (n: usize) {
        3
    }

    fn to_bytes(&self) -> (bytes: Vec<u8>) {
        let bytes: Vec<u8> = self.hdr.to_bytes();
        assert(bytes@ == self.spec_encode());
        bytes
    }

    fn try_from_bytes(bytes: &[u8]) -> (r: Result<Self, MctpBaseLibError>) {
        if bytes.len() < 3 {
            return Err(MctpBaseLibError::InvalidPayloadSize { expected: 3, found: bytes.len() });
        }
        let hdr = match ControlMsgHeader::try_from_bytes(bytes) {
            Ok(hdr) => hdr,
            Err(e) => {
                return Err(e);
            },
        };
        Ok(Request { hdr })
    }

    proof fn lemma_encode_len(&self) {
        self.hdr.lemma_encode_len();
    }

    proof fn lemma_decode_prefix(bytes: Seq<u8>) {
        ControlMsgHeader::lemma_decode_prefix(bytes);
        ControlMsgHeader::lemma_decode_prefix(bytes.take(3));
        assert(bytes.take(3).take(3) == bytes.take(3));
    }

    proof fn lemma_round_trip(&self) {
        self.hdr.lemma_round_trip();
        self.hdr.lemma_encode_len();
        ControlMsgHeader::lemma_decode_prefix(self.spec_encode());
        assert(self.spec_encode().take(3) == self.hdr.spec_encode());
    }
}

/// How an endpoint came to its EID.
#[derive(Debug, PartialEq, Eq, Copy, Clone, Structural)]
pub enum EidType {
    /// The EID is assigned by the bus owner.
    Dynamic,
    /// A static EID exists; the present one is reported.
    StaticSupportedWithPresentEidReturned,
    /// The present EID is the static one.
    StaticMatch,
    /// The present EID differs from the static one.
    StaticMismatch,
}

impl Default for EidType {
    fn default() -> (e: Self)
        ensures
            e == EidType::Dynamic,
    {
        EidType::Dynamic
    }
}

impl U8Enum for EidType {
    open spec fn spec_from_u8(value: u8) -> Self {
        match value {
            0x01 => EidType::StaticSupportedWithPresentEidReturned,
            0x02 => EidType::StaticMatch,
            0x03 => EidType::StaticMismatch,
            _ => EidType::Dynamic,
        }
    }

    open spec fn spec_to_u8(&self) -> u8 {
        match self {
            EidType::Dynamic => 0x00,
            EidType::StaticSupportedWithPresentEidReturned => 0x01,
            EidType::StaticMatch => 0x02,
            EidType::StaticMismatch => 0x03,
        }
    }

    fn from_u8(value: u8) -> (e: Self) {
        match value {
            0x01 => EidType::StaticSupportedWithPresentEidReturned,
            0x02 => EidType::StaticMatch,
            0x03 => EidType::StaticMismatch,
            _ => EidType::Dynamic,
        }
    }

    fn to_u8(&self) -> (v: u8) {
        match self {
            EidType::Dynamic => 0x00,
            EidType::StaticSupportedWithPresentEidReturned => 0x01,
            EidType::StaticMatch => 0x02,
            EidType::StaticMismatch => 0x03,
        }
    }

    proof fn lemma_from_to(&self) {
    }
}

impl From<u8> for EidType {
    fn from(value: u8) -> (e: Self) {
        EidType::from_u8(value)
    }
}

impl FromSpecImpl<u8> for EidType {
    open spec fn obeys_from_spec() -> bool {
        true
    }

    open spec fn from_spec(value: u8) -> Self {
        EidType::spec_from_u8(value)
    }
}

/// Whether an endpoint has endpoints of its own behind it.
#[derive(Debug, PartialEq, Eq, Copy, Clone, Structural)]
pub enum EndpointType {
    /// A simple endpoint.
    Simple,
    /// A bus owner or a bridge.
    BusOwnerOrBridge,
}

impl Default for EndpointType {
    fn default() -> (e: Self)
        ensures
            e == EndpointType::Simple,
    {
        EndpointType::Simple
    }
}

impl U8Enum for EndpointType {
    open spec fn spec_from_u8(value: u8) -> Self {
        match value {
            0x01 => EndpointType::BusOwnerOrBridge,
            _ => EndpointType::Simple,
        }
    }

    open spec fn spec_to_u8(&self) -> u8 {
        match self {
            EndpointType::Simple => 0x00,
            EndpointType::BusOwnerOrBridge => 0x01,
        }
    }

    fn from_u8(value: u8) -> (e: Self) {
        match value {
            0x01 => EndpointType::BusOwnerOrBridge,
            _ => EndpointType::Simple,
        }
    }

    fn to_u8(&self) -> (v: u8) {
        match self {
            EndpointType::Simple => 0x00,
            EndpointType::BusOwnerOrBridge => 0x01,
        }
    }

    proof fn lemma_from_to(&self) {
    }
}

impl From<u8> for EndpointType {
    fn from(value: u8) -> (e: Self) {
        EndpointType::from_u8(value)
    }
}

impl FromSpecImpl<u8> for EndpointType {
    open spec fn obeys_from_spec() -> bool {
        true
    }

    open spec fn from_spec(value: u8) -> Self {
        EndpointType::spec_from_u8(value)
    }
}

/// Body of a Get Endpoint ID response, behind its control header.
#[derive(Copy, Clone, Debug, PartialEq, Eq, Structural)]
pub struct Response {
    pub hdr: ControlMsgHeader,
    pub completion_code: u8,
    pub eid: u8,
    /// `eid_type` in bits 0 to 1, `endpoint_type` in bits 4 to 5, reserved bits between
    /// and above.
    pub eid_endpoint_type: u8,
    pub medium_specific: u8,
}

impl Default for Response {
    fn default() -> (m: Self)
        ensures
            m == (Response {
                hdr: ControlMsgHeader::spec_default(),
                completion_code: 0,
                eid: 0,
                eid_endpoint_type: 0,
                medium_specific: 0,
            }),
    {
        Response {
            hdr: ControlMsgHeader::default(),
            completion_code: 0,
            eid: 0,
            eid_endpoint_type: 0,
            medium_specific: 0,
        }
    }
}

impl Response {
    /// A response with the two type fields packed into one byte, reserved bits zero.
    pub open spec fn spec_new(
        hdr: ControlMsgHeader,
        completion_code: u8,
        eid: u8,
        eid_type: EidType,
        endpoint_type: EndpointType,
        medium_specific: u8,
    ) -> Self {
        Response {
            hdr,
            completion_code,
            eid,
            eid_endpoint_type: (
                eid_type.spec_to_u8() % 4 + 16 * (endpoint_type.spec_to_u8() % 4)
            ) as u8,
            medium_specific,
        }
    }

    /// Builds a response; see [`Response::spec_new`].
    pub fn new(
        hdr: ControlMsgHeader,
        completion_code: u8,
        eid: u8,
        eid_type: EidType,
        endpoint_type: EndpointType,
        medium_specific: u8,
    ) -> (m: Self)
        ensures
            m == Self::spec_new(
                hdr,
                completion_code,
                eid,
                eid_type,
                endpoint_type,
                medium_specific,
            ),
            m.eid_type() == eid_type.spec_to_u8(),
            m.endpoint_type() == endpoint_type.spec_to_u8(),
            m.reserved1() == 0,
            m.reserved2() == 0,
    {
        Response {
            hdr,
            completion_code,
            eid,
            eid_endpoint_type: eid_type.to_u8() % 4 + 16 * (endpoint_type.to_u8() % 4),
            medium_specific,
        }
    }

    /// The response to `req`: its header with the request bit cleared, then the given fields.
    pub open spec fn spec_from(
        req: Request,
        completion_code: CompletionCode,
        eid: u8,
        eid_type: EidType,
        endpoint_type: EndpointType,
        medium_specific: u8,
    ) -> Self {
        Self::spec_new(
            req.hdr.spec_to_response(),
            completion_code.spec_to_u8(),
            eid,
            eid_type,
            endpoint_type,
            medium_specific,
        )
    }

    /// Builds the response to `req`; see [`Response::spec_from`].
    pub fn from(
        req: Request,
        completion_code: CompletionCode,
        eid: u8,
        eid_type: EidType,
        endpoint_type: EndpointType,
        medium_specific: u8,
    ) -> (m: Self)
        ensures
            m == Self::spec_from(
                req,
                completion_code,
                eid,
                eid_type,
                endpoint_type,
                medium_specific,
            ),
            m.hdr.rq() == 0,
            m.hdr.instance_id() == req.hdr.instance_id(),
    {
        Response::new(
            req.hdr.to_response(),
            completion_code.to_u8(),
            eid,
            eid_type,
            endpoint_type,
            medium_specific,
        )
    }

    /// EID type as a number, bits 0 to 1.
    pub open spec fn spec_eid_type(&self) -> u8 {
        field(self.eid_endpoint_type, 1, 4)
    }

    /// EID type as a number, bits 0 to 1.
    #[verifier::when_used_as_spec(spec_eid_type)]
    pub fn eid_type(&self) -> (v: u8)
        ensures
            v == self.spec_eid_type(),
    {
        self.eid_endpoint_type % 4
    }

    /// Stores `value` modulo 4 as the new `eid_type`; every other bit stays.
    pub fn set_eid_type(&mut self, value: u8)
        ensures
            *final(self) == (Self {
                eid_endpoint_type: with_field(old(self).eid_endpoint_type, 1, 4, value),
                ..*old(self)
            }),
    {
        let b: u8 = self.eid_endpoint_type;
        self.eid_endpoint_type = b - b % 4 + value % 4;
    }

    /// Reserved bits 2 to 3.
    pub open spec fn spec_reserved1(&self) -> u8 {
        field(self.eid_endpoint_type, 4, 4)
    }

    /// Reserved bits 2 to 3.
    #[verifier::when_used_as_spec(spec_reserved1)]
    pub fn reserved1(&self) -> (v: u8)
        ensures
            v == self.spec_reserved1(),
    {
        (self.eid_endpoint_type / 4) % 4
    }

    /// Stores `value` modulo 4 as the new `reserved1`; every other bit stays.
    pub fn set_reserved1(&mut self, value: u8)
        ensures
            *final(self) == (Self {
                eid_endpoint_type: with_field(old(self).eid_endpoint_type, 4, 4, value),
                ..*old(self)
            }),
    {
        let b: u8 = self.eid_endpoint_type;
        self.eid_endpoint_type = b - ((b / 4) % 4) * 4 + (value % 4) * 4;
    }

    /// Endpoint type as a number, bits 4 to 5.
    pub open spec fn spec_endpoint_type(&self) -> u8 {
        field(self.eid_endpoint_type, 16, 4)
    }

    /// Endpoint type as a number, bits 4 to 5.
    #[verifier::when_used_as_spec(spec_endpoint_type)]
    pub fn endpoint_type(&self) -> (v: u8)
        ensures
            v == self.spec_endpoint_type(),
    {
        (self.eid_endpoint_type / 16) % 4
    }

    /// Stores `value` modulo 4 as the new `endpoint_type`; every other bit stays.
    pub fn set_endpoint_type(&mut self, value: u8)
        ensures
            *final(self) == (Self {
                eid_endpoint_type: with_field(old(self).eid_endpoint_type, 16, 4, value),
                ..*old(self)
            }),
    {
        let b: u8 = self.eid_endpoint_type;
        self.eid_endpoint_type = b - ((b / 16) % 4) * 16 + (value % 4) * 16;
    }

    /// Reserved bits 6 to 7.
    pub open spec fn spec_reserved2(&self) -> u8 {
        field(self.eid_endpoint_type, 64, 4)
    }

    /// Reserved bits 6 to 7.
    #[verifier::when_used_as_spec(spec_reserved2)]
    pub fn reserved2(&self) -> (v: u8)
        ensures
            v == self.spec_reserved2(),
    {
        self.eid_endpoint_type / 64
    }

    /// Stores `value` modulo 4 as the new `reserved2`; every other bit stays.
    pub fn set_reserved2(&mut self, value: u8)
        ensures
            *final(self) == (Self {
                eid_endpoint_type: with_field(old(self).eid_endpoint_type, 64, 4, value),
                ..*old(self)
            }),
    {
        let b: u8 = self.eid_endpoint_type;
        self.eid_endpoint_type = b - (b / 64) * 64 + (value % 4) * 64;
    }
}

impl FromBinary for Response {
    open spec fn spec_size() -> nat {
        7
    }

    open spec fn spec_encode(&self) -> Seq<u8> {
        self.hdr.spec_encode() + seq![
            self.completion_code,
            self.eid,
            self.eid_endpoint_type,
            self.medium_specific,
        ]
    }

    open spec fn spec_decode(bytes: Seq<u8>) -> Self {
        Response {
            hdr: ControlMsgHeader::spec_decode(bytes),
            completion_code: bytes[3],
            eid: bytes[4],
            eid_endpoint_type: bytes[5],
            medium_specific: bytes[6],
        }
    }

    fn size() -> (n: usize) {
        7
    }

    fn to_bytes(&self) -> (bytes: Vec<u8>) {
        let mut bytes: Vec<u8> = self.hdr.to_bytes();
        bytes.push(self.completion_code);
        bytes.push(self.eid);
        bytes.push(self.eid_endpoint_type);
        bytes.push(self.medium_specific);
        assert(bytes@ == self.spec_encode());
        bytes
    }

    fn try_from_bytes(bytes: &[u8]) -> (r: Result<Self, MctpBaseLibError>) {
        if bytes.len() < 7 {
            return Err(MctpBaseLibError::InvalidPayloadSize { expected: 7, found: bytes.len() });
        }
        let hdr = match ControlMsgHeader::try_from_bytes(bytes) {
            Ok(hdr) => hdr,
            Err(e) => {
                return Err(e);
            },
        };
        Ok(
            Response {
                hdr,
                completion_code: bytes[3],
                eid: bytes[4],
                eid_endpoint_type: bytes[5],
                medium_specific: bytes[6],
            },
        )
    }

    proof fn lemma_encode_len(&self) {
        self.hdr.lemma_encode_len();
    }

    proof fn lemma_decode_prefix(bytes: Seq<u8>) {
        ControlMsgHeader::lemma_decode_prefix(bytes);
        ControlMsgHeader::lemma_decode_prefix(bytes.take(7));
        assert(bytes.take(7).take(3) == bytes.take(3));
    }

    proof fn lemma_round_trip(&self) {
        self.hdr.lemma_round_trip();
        self.hdr.lemma_encode_len();
        ControlMsgHeader::lemma_decode_prefix(self.spec_encode());
        assert(self.spec_encode().take(3) == self.hdr.spec_encode());
    }
}

impl ControlMsgReponseStatus for Response {
    open spec fn spec_completion_byte(&self) -> u8 {
        self.completion_code
    }

    fn completion_code(&self) -> (c: CompletionCode) {
        CompletionCode::from_u8(self.completion_code)
    }

    fn is_success(&self) -> (r: Result<(), u8>) {
        match CompletionCode::from_u8(self.completion_code) {
            CompletionCode::Success => Ok(()),
            _ => Err(self.completion_code),
        }
    }
}

} // verus!
