//! Allocate Endpoint IDs: the bus owner hands a pool of EIDs to a bridge.
use vstd::prelude::*;
use vstd::std_specs::convert::FromSpecImpl;
use crate::base::bitfield::{field, with_field};
use crate::base::errors::MctpBaseLibError;
use crate::base::traits::{FromBinary, U8Enum};
use crate::control::enums::CompletionCode;
use crate::control::models::ControlMsgHeader;
use crate::control::ControlMsgReponseStatus;

verus! {

/// What an Allocate Endpoint IDs request asks for.
#[derive(Debug, PartialEq, Eq, Copy, Clone, Structural)]
pub enum Operation {
    /// Hand out the pool unless another owner already did.
    AllocateEids,
    /// Hand out the pool in any case.
    ForceAllocation,
    /// Report the pool that is allocated, changing nothing.
    GetAllocationInfo,
}

impl Default for Operation {
    fn default() -> (e: Self)
        ensures
            e == Operation::AllocateEids,
    {
        Operation::AllocateEids
    }
}

impl U8Enum for Operation {
    open spec fn spec_from_u8(value: u8) -> Self {
        match value {
            0x01 => Operation::ForceAllocation,
            0x02 => Operation::GetAllocationInfo,
            _ => Operation::AllocateEids,
        }
    }

    open spec fn spec_to_u8(&self) -> u8 {
        match self {
            Operation::AllocateEids => 0x00,
            Operation::ForceAllocation => 0x01,
            Operation::GetAllocationInfo => 0x02,
        }
    }

    fn from_u8(value: u8) -> (e: Self) {
        match value {
            0x01 => Operation::ForceAllocation,
            0x02 => Operation::GetAllocationInfo,
            _ => Operation::AllocateEids,
        }
    }

    fn to_u8(&self) -> (v: u8) {
        match self {
            Operation::AllocateEids => 0x00,
            Operation::ForceAllocation => 0x01,
            Operation::GetAllocationInfo => 0x02,
        }
    }

    proof fn lemma_from_to(&self) {
    }
}

impl From<u8> for Operation {
    fn from(value: u8) -> (e: Self) {
        Operation::from_u8(value)
    }
}

impl FromSpecImpl<u8> for Operation {
    open spec fn obeys_from_spec() -> bool {
        true
    }

    open spec fn from_spec(value: u8) -> Self {
        Operation::spec_from_u8(value)
    }
}

/// Body of an Allocate Endpoint IDs request, behind its control header.
#[derive(Copy, Clone, Debug, PartialEq, Eq, Structural)]
pub struct Request {
    pub hdr: ControlMsgHeader,
    /// `operation` in bits 0 to 1, reserved bits above.
    pub operation_reserved: u8,
    pub number_of_eids: u8,
    pub starting_eid: u8,
}

impl Default for Request {
    fn default() -> (m: Self)
        ensures
            m == (Request {
                hdr: ControlMsgHeader::spec_default(),
                operation_reserved: 0,
                number_of_eids: 0,
                starting_eid: 0,
            }),
    {
        Request {
            hdr: ControlMsgHeader::default(),
            operation_reserved: 0,
            number_of_eids: 0,
            starting_eid: 0,
        }
    }
}

impl Request {
    /// A request for `operation` on the pool of `number_of_eids` EIDs that starts at
    /// `starting_eid`; the reserved bits are zero.
    pub open spec fn spec_new(
        hdr: ControlMsgHeader,
        operation: Operation,
        number_of_eids: u8,
        starting_eid: u8,
    ) -> Self {
        Request {
            hdr,
            operation_reserved: (operation.spec_to_u8() % 4) as u8,
            number_of_eids,
            starting_eid,
        }
    }

    /// Builds a request; see [`Request::spec_new`].
    pub fn new(
        hdr: ControlMsgHeader,
        operation: Operation,
        number_of_eids: u8,
        starting_eid: u8,
    ) -> (m: Self)
        ensures
            m == Self::spec_new(hdr, operation, number_of_eids, starting_eid),
            m.operation() == operation.spec_to_u8(),
            m.reserved() == 0,
    {
        Request { hdr, operation_reserved: operation.to_u8() % 4, number_of_eids, starting_eid }
    }

    /// Operation code, bits 0 to 1.
    pub open spec fn spec_operation(&self) -> u8 {
        field(self.operation_reserved, 1, 4)
    }

    /// Operation code, bits 0 to 1.
    #[verifier::when_used_as_spec(spec_operation)]
    pub fn operation(&self) -> (v: u8)
        ensures
            v == self.spec_operation(),
    {
        self.operation_reserved % 4
    }

    /// Stores `value` modulo 4 as the new `operation`; every other bit stays.
    pub fn set_operation(&mut self, value: u8)
        ensures
            *final(self) == (Self {
                operation_reserved: with_field(old(self).operation_reserved, 1, 4, value),
                ..*old(self)
            }),
    {
        let b: u8 = self.operation_reserved;
        self.operation_reserved = b - b % 4 + value % 4;
    }

    /// Reserved bits 2 to 7.
    pub open spec fn spec_reserved(&self) -> u8 {
        field(self.operation_reserved, 4, 64)
    }

    /// Reserved bits 2 to 7.
    #[verifier::when_used_as_spec(spec_reserved)]
    pub fn reserved(&self) -> (v: u8)
        ensures
            v == self.spec_reserved(),
    {
        self.operation_reserved / 4
    }

    /// Stores `value` modulo 64 as the new `reserved`; every other bit stays.
    pub fn set_reserved(&mut self, value: u8)
        ensures
            *final(self) == (Self {
                operation_reserved: with_field(old(self).operation_reserved, 4, 64, value),
                ..*old(self)
            }),
    {
        let b: u8 = self.operation_reserved;
        self.operation_reserved = b - (b / 4) * 4 + (value % 64) * 4;
    }
}

impl FromBinary for Request {
    open spec fn spec_size() -> nat {
        6
    }

    open spec fn spec_encode(&self) -> Seq<u8> {
        self.hdr.spec_encode() + seq![
            self.operation_reserved,
            self.number_of_eids,
            self.starting_eid,
        ]
    }

    open spec fn spec_decode(bytes: Seq<u8>) -> Self {
        Request {
            hdr: ControlMsgHeader::spec_decode(bytes),
            operation_reserved: bytes[3],
            number_of_eids: bytes[4],
            starting_eid: bytes[5],
        }
    }

    fn size() -> (n: usize) {
        6
    }

    fn to_bytes(&self) -> (bytes: Vec<u8>) {
        let mut bytes: Vec<u8> = self.hdr.to_bytes();
        bytes.push(self.operation_reserved);
        bytes.push(self.number_of_eids);
        bytes.push(self.starting_eid);
        assert(bytes@ == self.spec_encode());
        bytes
    }

    fn try_from_bytes(bytes: &[u8]) -> (r: Result<Self, MctpBaseLibError>) {
        if bytes.len() < 6 {
            return Err(MctpBaseLibError::InvalidPayloadSize { expected: 6, found: bytes.len() });
        }
        let hdr = match ControlMsgHeader::try_from_bytes(bytes) {
            Ok(hdr) => hdr,
            Err(e) => {
                return Err(e);
            },
        };
        Ok(
            Request {
                hdr,
                operation_reserved: bytes[3],
                number_of_eids: bytes[4],
                starting_eid: bytes[5],
            },
        )
    }

    proof fn lemma_encode_len(&self) {
        self.hdr.lemma_encode_len();
    }

    proof fn lemma_decode_prefix(bytes: Seq<u8>) {
        ControlMsgHeader::lemma_decode_prefix(bytes);
        ControlMsgHeader::lemma_decode_prefix(bytes.take(6));
        assert(bytes.take(6).take(3) == bytes.take(3));
    }

    proof fn lemma_round_trip(&self) {
        self.hdr.lemma_round_trip();
        self.hdr.lemma_encode_len();
        ControlMsgHeader::lemma_decode_prefix(self.spec_encode());
        assert(self.spec_encode().take(3) == self.hdr.spec_encode());
    }
}

/// Whether the bridge took the pool it was given.
#[derive(Debug, PartialEq, Eq, Copy, Clone, Structural)]
pub enum AllocationStatus {
    /// The pool was accepted.
    AllocationAccepted,
    /// The pool was rejected: another owner allocated one before.
    AllocationRejected,
}

impl Default for AllocationStatus {
    fn default() -> (e: Self)
        ensures
            e == AllocationStatus::AllocationRejected,
    {
        AllocationStatus::AllocationRejected
    }
}

impl U8Enum for AllocationStatus {
    open spec fn spec_from_u8(value: u8) -> Self {
        match value {
            0x00 => AllocationStatus::AllocationAccepted,
            _ => AllocationStatus::AllocationRejected,
        }
    }

    open spec fn spec_to_u8(&self) -> u8 {
        match self {
            AllocationStatus::AllocationAccepted => 0x00,
            AllocationStatus::AllocationRejected => 0x01,
        }
    }

    fn from_u8(value: u8) -> (e: Self) {
        match value {
            0x00 => AllocationStatus::AllocationAccepted,
            _ => AllocationStatus::AllocationRejected,
        }
    }

    fn to_u8(&self) -> (v: u8) {
        match self {
            AllocationStatus::AllocationAccepted => 0x00,
            AllocationStatus::AllocationRejected => 0x01,
        }
    }

    proof fn lemma_from_to(&self) {
    }
}

impl From<u8> for AllocationStatus {
    fn from(value: u8) -> (e: Self) {
        AllocationStatus::from_u8(value)
    }
}

impl FromSpecImpl<u8> for AllocationStatus {
    open spec fn obeys_from_spec() -> bool {
        true
    }

    open spec fn from_spec(value: u8) -> Self {
        AllocationStatus::spec_from_u8(value)
    }
}

/// Body of an Allocate Endpoint IDs response, behind its control header.
#[derive(Copy, Clone, Debug, PartialEq, Eq, Structural)]
pub struct Response {
    pub hdr: ControlMsgHeader,
    pub completion_code: u8,
    /// `allocation_status` in bits 0 to 1, reserved bits above.
    pub allocation_status_reserved: u8,
    pub eid_pool_size: u8,
    pub first_eid: u8,
}

impl Default for Response {
    fn default() -> (m: Self)
        ensures
            m == (Response {
                hdr: ControlMsgHeader::spec_default(),
                completion_code: 0,
                allocation_status_reserved: 0,
                eid_pool_size: 0,
                first_eid: 0,
            }),
    {
        Response {
            hdr: ControlMsgHeader::default(),
            completion_code: 0,
            allocation_status_reserved: 0,
            eid_pool_size: 0,
            first_eid: 0,
        }
    }
}

impl Response {
    /// A response with the status in the two lowest bits of its byte, reserved bits zero.
    pub open spec fn spec_new(
        hdr: ControlMsgHeader,
        completion_code: u8,
        allocation_status: AllocationStatus,
        eid_pool_size: u8,
        first_eid: u8,
    ) -> Self {
        Response {
            hdr,
            completion_code,
            allocation_status_reserved: (allocation_status.spec_to_u8() % 4) as u8,
            eid_pool_size,
            first_eid,
        }
    }

    /// Builds a response; see [`Response::spec_new`].
    pub fn new(
        hdr: ControlMsgHeader,
        completion_code: u8,
        allocation_status: AllocationStatus,
        eid_pool_size: u8,
        first_eid: u8,
    ) -> (m: Self)
        ensures
            m == Self::spec_new(hdr, completion_code, allocation_status, eid_pool_size, first_eid),
            m.raw_allocation_status() == allocation_status.spec_to_u8(),
            m.reserved() == 0,
    {
        Response {
            hdr,
            completion_code,
            allocation_status_reserved: allocation_status.to_u8() % 4,
            eid_pool_size,
            first_eid,
        }
    }

    /// The response to `req`: its header with the request bit cleared, then the given fields.
    pub open spec fn spec_from(
        req: Request,
        completion_code: u8,
        allocation_status: AllocationStatus,
        eid_pool_size: u8,
        first_eid: u8,
    ) -> Self {
        Self::spec_new(
            req.hdr.spec_to_response(),
            completion_code,
            allocation_status,
            eid_pool_size,
            first_eid,
        )
    }

    /// Builds the response to `req`; see [`Response::spec_from`].
    pub fn from(
        req: Request,
        completion_code: u8,
        allocation_status: AllocationStatus,
        eid_pool_size: u8,
        first_eid: u8,
    ) -> (m: Self)
        ensures
            m == Self::spec_from(req, completion_code, allocation_status, eid_pool_size, first_eid),
            m.hdr.rq() == 0,
            m.hdr.instance_id() == req.hdr.instance_id(),
    {
        Response::new(
            req.hdr.to_response(),
            completion_code,
            allocation_status,
            eid_pool_size,
            first_eid,
        )
    }

    /// The allocation status that the two lowest bits stand for.
    pub open spec fn spec_allocation_status(&self) -> AllocationStatus {
        AllocationStatus::spec_from_u8(self.raw_allocation_status())
    }

    /// The allocation status that the two lowest bits stand for.
    #[verifier::when_used_as_spec(spec_allocation_status)]
    pub fn allocation_status(&self) -> (status: AllocationStatus)
        ensures
            status == self.spec_allocation_status(),
    {
        AllocationStatus::from_u8(self.raw_allocation_status())
    }

    /// Allocation status as a number, bits 0 to 1.
    pub open spec fn spec_raw_allocation_status(&self) -> u8 {
        field(self.allocation_status_reserved, 1, 4)
    }

    /// Allocation status as a number, bits 0 to 1.
    #[verifier::when_used_as_spec(spec_raw_allocation_status)]
    pub fn raw_allocation_status(&self) -> (v: u8)
        ensures
            v == self.spec_raw_allocation_status(),
    {
        self.allocation_status_reserved % 4
    }

    /// Stores `value` modulo 4 as the new `raw_allocation_status`; every other bit stays.
    pub fn set_raw_allocation_status(&mut self, value: u8)
        ensures
            *final(self) == (Self {
                allocation_status_reserved: with_field(
                    old(self).allocation_status_reserved,
                    1,
                    4,
                    value,
                ),
                ..*old(self)
            }),
    {
        let b: u8 = self.allocation_status_reserved;
        self.allocation_status_reserved = b - b % 4 + value % 4;
    }

    /// Reserved bits 2 to 7.
    pub open spec fn spec_reserved(&self) -> u8 {
        field(self.allocation_status_reserved, 4, 64)
    }

    /// Reserved bits 2 to 7.
    #[verifier::when_used_as_spec(spec_reserved)]
    pub fn reserved(&self) -> (v: u8)
        ensures
            v == self.spec_reserved(),
    {
        self.allocation_status_reserved / 4
    }

    /// Stores `value` modulo 64 as the new `reserved`; every other bit stays.
    pub fn set_reserved(&mut self, value: u8)
        ensures
            *final(self) == (Self {
                allocation_status_reserved: with_field(
                    old(self).allocation_status_reserved,
                    4,
                    64,
                    value,
                ),
                ..*old(self)
            }),
    {
        let b: u8 = self.allocation_status_reserved;
        self.allocation_status_reserved = b - (b / 4) * 4 + (value % 64) * 4;
    }
}

impl FromBinary for Response {
    open spec fn spec_size() -> nat {
        7
    }

    open spec fn spec_encode(&self) -> Seq<u8> {
        self.hdr.spec_encode() + seq![
            self.completion_code,
            self.allocation_status_reserved,
            self.eid_pool_size,
            self.first_eid,
        ]
    }

    open spec fn spec_decode(bytes: Seq<u8>) -> Self {
        Response {
            hdr: ControlMsgHeader::spec_decode(bytes),
            completion_code: bytes[3],
            allocation_status_reserved: bytes[4],
            eid_pool_size: bytes[5],
            first_eid: bytes[6],
        }
    }

    fn size() -> (n: usize) {
        7
    }

    fn to_bytes(&self) -> (bytes: Vec<u8>) {
        let mut bytes: Vec<u8> = self.hdr.to_bytes();
        bytes.push(self.completion_code);
        bytes.push(self.allocation_status_reserved);
        bytes.push(self.eid_pool_size);
        bytes.push(self.first_eid);
        assert(bytes@ == self.spec_encode());
        bytes
    }

    fn try_from_bytes(bytes: &[u8]) -> (r: Result<Self, MctpBaseLibError>) {
        if bytes.len() < 7 {
            return Err(MctpBaseLibError::InvalidPayloadSize { expected: 7, found: bytes.len() });
        }
        let hdr = match ControlMsgHeader::try_from_bytes(bytes) {
            Ok(hdr) => hdr,
            Err(e) => {
                return Err(e);
            },
        };
        Ok(
            Response {
                hdr,
                completion_code: bytes[3],
                allocation_status_reserved: bytes[4],
                eid_pool_size: bytes[5],
                first_eid: bytes[6],
            },
        )
    }

    proof fn lemma_encode_len(&self) {
        self.hdr.lemma_encode_len();
    }

    proof fn lemma_decode_prefix(bytes: Seq<u8>) {
        ControlMsgHeader::lemma_decode_prefix(bytes);
        ControlMsgHeader::lemma_decode_prefix(bytes.take(7));
        assert(bytes.take(7).take(3) == bytes.take(3));
    }

    proof fn lemma_round_trip(&self) {
        self.hdr.lemma_round_trip();
        self.hdr.lemma_encode_len();
        ControlMsgHeader::lemma_decode_prefix(self.spec_encode());
        assert(self.spec_encode().take(3) == self.hdr.spec_encode());
    }
}

impl ControlMsgReponseStatus for Response {
    open spec fn spec_completion_byte(&self) -> u8 {
        self.completion_code
    }

    fn completion_code(&self) -> (c: CompletionCode) {
        CompletionCode::from_u8(self.completion_code)
    }

    fn is_success(&self) -> (r: Result<(), u8>) {
        match CompletionCode::from_u8(self.completion_code) {
            CompletionCode::Success => Ok(()),
            _ => Err(self.completion_code),
        }
    }
}

} // verus!
