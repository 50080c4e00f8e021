//! Set Endpoint ID: the bus owner assigns an EID to an endpoint.
use vstd::prelude::*;
use vstd::std_specs::convert::FromSpecImpl;
use crate::base::bitfield::{field, with_field};
use crate::base::errors::MctpBaseLibError;
use crate::base::traits::{FromBinary, U8Enum};
use crate::control::enums::CompletionCode;
use crate::control::models::ControlMsgHeader;
use crate::control::ControlMsgReponseStatus;

verus! {

/// What a Set Endpoint ID request asks for.
#[derive(Debug, PartialEq, Eq, Copy, Clone, Structural)]
pub enum Operation {
    /// Assign the EID unless one is already assigned by another owner.
    SetEid,
    /// Assign the EID in any case.
    ForceEid,
    /// Go back to the static EID, if there is one.
    ResetEid,
    /// Mark the endpoint as discovered without changing its EID.
    SetDiscoveredFlag,
}

impl Default for Operation {
    fn default() -> (e: Self)
        ensures
            e == Operation::SetEid,
    {
        Operation::SetEid
    }
}

impl U8Enum for Operation {
    open spec fn spec_from_u8(value: u8) -> Self {
        match value {
            0x01 => Operation::ForceEid,
            0x02 => Operation::ResetEid,
            0x03 => Operation::SetDiscoveredFlag,
            _ => Operation::SetEid,
        }
    }

    open spec fn spec_to_u8(&self) -> u8 {
        match self {
            Operation::SetEid => 0x00,
            Operation::ForceEid => 0x01,
            Operation::ResetEid => 0x02,
            Operation::SetDiscoveredFlag => 0x03,
        }
    }

    fn from_u8(value: u8) -> (e: Self) {
        match value {
            0x01 => Operation::ForceEid,
            0x02 => Operation::ResetEid,
            0x03 => Operation::SetDiscoveredFlag,
            _ => Operation::SetEid,
        }
    }

    fn to_u8(&self) -> (v: u8) {
        match self {
            Operation::SetEid => 0x00,
            Operation::ForceEid => 0x01,
            Operation::ResetEid => 0x02,
            Operation::SetDiscoveredFlag => 0x03,
        }
    }

    proof fn lemma_from_to(&self) {
    }
}

impl From<u8> for Operation {
    fn from(value: u8) -> (e: Self) {
        Operation::from_u8(value)
    }
}

impl FromSpecImpl<u8> for Operation {
    open spec fn obeys_from_spec() -> bool {
        true
    }

    open spec fn from_spec(value: u8) -> Self {
        Operation::spec_from_u8(value)
    }
}

/// Body of a Set Endpoint ID request, behind its control header.
#[derive(Copy, Clone, Debug, PartialEq, Eq, Structural)]
pub struct Request {
    pub hdr: ControlMsgHeader,
    /// `operation` in bits 0 to 1, reserved bits above.
    pub operation_reserved: u8,
    pub eid: u8,
}

impl Default for Request {
    fn default() -> (m: Self)
        ensures
            m == (Request {
                hdr: ControlMsgHeader::spec_default(),
                operation_reserved: 0,
                eid: 0,
            }),
    {
        Request { hdr: ControlMsgHeader::default(), operation_reserved: 0, eid: 0 }
    }
}

impl Request {
    /// A request for `operation` with `eid`; the reserved bits are zero.
    pub open spec fn spec_new(hdr: ControlMsgHeader, operation: Operation, eid: u8) -> Self {
        Request { hdr, operation_reserved: (operation.spec_to_u8() % 4) as u8, eid }
    }

    /// Builds a request; see [`Request::spec_new`].
    pub fn new(hdr: ControlMsgHeader, operation: Operation, eid: u8) -> (m: Self)
        ensures
            m == Self::spec_new(hdr, operation, eid),
            m.operation() == operation.spec_to_u8(),
            m.reserved() == 0,
    {
        Request { hdr, operation_reserved: operation.to_u8() % 4, eid }
    }

    /// Operation code, bits 0 to 1.
    pub open spec fn spec_operation(&self) -> u8 {
        field(self.operation_reserved, 1, 4)
    }

    /// Operation code, bits 0 to 1.
    #[verifier::when_used_as_spec(spec_operation)]
    pub fn operation(&self) -> (v: u8)
        ensures
            v == self.spec_operation(),
    {
        self.operation_reserved % 4
    }

    /// Stores `value` modulo 4 as the new `operation`; every other bit stays.
    pub fn set_operation(&mut self, value: u8)
        ensures
            *final(self) == (Self {
                operation_reserved: with_field(old(self).operation_reserved, 1, 4, value),
                ..*old(self)
            }),
    {
        let b: u8 = self.operation_reserved;
        self.operation_reserved = b - b % 4 + value % 4;
    }

    /// Reserved bits 2 to 7.
    pub open spec fn spec_reserved(&self) -> u8 {
        field(self.operation_reserved, 4, 64)
    }

    /// Reserved bits 2 to 7.
    #[verifier::when_used_as_spec(spec_reserved)]
    pub fn reserved(&self) -> (v: u8)
        ensures
            v == self.spec_reserved(),
    {
        self.operation_reserved / 4
    }

    /// Stores `value` modulo 64 as the new `reserved`; every other bit stays.
    pub fn set_reserved(&mut self, value: u8)
        ensures
            *final(self) == (Self {
                operation_reserved: with_field(old(self).operation_reserved, 4, 64, value),
                ..*old(self)
            }),
    {
        let b: u8 = self.operation_reserved;
        self.operation_reserved = b - (b / 4) * 4 + (value % 64) * 4;
    }
}

impl FromBinary for Request {
    open spec fn spec_size() -> nat {
        5
    }

    open spec fn spec_encode(&self) -> Seq<u8> {
        self.hdr.spec_encode() + seq![self.operation_reserved, self.eid]
    }

    open spec fn spec_decode(bytes: Seq<u8>) -> Self {
        Request {
            hdr: ControlMsgHeader::spec_decode(bytes),
            operation_reserved: bytes[3],
            eid: bytes[4],
        }
    }

    fn size() -> (n: usize) {
        5
    }

    fn to_bytes(&self) -> (bytes: Vec<u8>) {
        let mut bytes: Vec<u8> = self.hdr.to_bytes();
        bytes.push(self.operation_reserved);
        bytes.push(self.eid);
        assert(bytes@ == self.spec_encode());
        bytes
    }

    fn try_from_bytes(bytes: &[u8]) -> (r: Result<Self, MctpBaseLibError>) {
        if bytes.len() < 5 {
            return Err(MctpBaseLibError::InvalidPayloadSize { expected: 5, found: bytes.len() });
        }
        let hdr = match ControlMsgHeader::try_from_bytes(bytes) {
            Ok(hdr) => hdr,
            Err(e) => {
                return Err(e);
            },
        };
        Ok(Request { hdr, operation_reserved: bytes[3], eid: bytes[4] })
    }

    proof fn lemma_encode_len(&self) {
        self.hdr.lemma_encode_len();
    }

    proof fn lemma_decode_prefix(bytes: Seq<u8>) {
        ControlMsgHeader::lemma_decode_prefix(bytes);
        ControlMsgHeader::lemma_decode_prefix(bytes.take(5));
        assert(bytes.take(5).take(3) == bytes.take(3));
    }

    proof fn lemma_round_trip(&self) {
        self.hdr.lemma_round_trip();
        self.hdr.lemma_encode_len();
        ControlMsgHeader::lemma_decode_prefix(self.spec_encode());
        assert(self.spec_encode().take(3) == self.hdr.spec_encode());
    }
}

/// Whether the endpoint took the EID it was given.
#[derive(Debug, PartialEq, Eq, Copy, Clone, Structural)]
pub enum EidAssignmentStatus {
    /// The EID was accepted.
    Accepted,
    /// The EID was rejected; the endpoint keeps the one it had.
    Rejected,
}

impl Default for EidAssignmentStatus {
    fn default() -> (e: Self)
        ensures
            e == EidAssignmentStatus::Rejected,
    {
        EidAssignmentStatus::Rejected
    }
}

impl U8Enum for EidAssignmentStatus {
    open spec fn spec_from_u8(value: u8) -> Self {
        match value {
            0x00 => EidAssignmentStatus::Accepted,
            _ => EidAssignmentStatus::Rejected,
        }
    }

    open spec fn spec_to_u8(&self) -> u8 {
        match self {
            EidAssignmentStatus::Accepted => 0x00,
            EidAssignmentStatus::Rejected => 0x01,
        }
    }

    fn from_u8(value: u8) -> (e: Self) {
        match value {
            0x00 => EidAssignmentStatus::Accepted,
            _ => EidAssignmentStatus::Rejected,
        }
    }

    fn to_u8(&self) -> (v: u8) {
        match self {
            EidAssignmentStatus::Accepted => 0x00,
            EidAssignmentStatus::Rejected => 0x01,
        }
    }

    proof fn lemma_from_to(&self) {
    }
}

impl From<u8> for EidAssignmentStatus {
    fn from(value: u8) -> (e: Self) {
        EidAssignmentStatus::from_u8(value)
    }
}

impl FromSpecImpl<u8> for EidAssignmentStatus {
    open spec fn obeys_from_spec() -> bool {
        true
    }

    open spec fn from_spec(value: u8) -> Self {
        EidAssignmentStatus::spec_from_u8(value)
    }
}

/// Whether the endpoint wants a pool of EIDs of its own.
#[derive(Debug, PartialEq, Eq, Copy, Clone, Structural)]
pub enum EidAllocationStatus {
    /// The endpoint uses no pool.
    NoPoolSupport,
    /// The endpoint needs a pool of the size it reports.
    RequiresPoolAllocation,
    /// The endpoint already has its pool.
    PoolAlreadyAllocated,
}

impl Default for EidAllocationStatus {
    fn default() -> (e: Self)
        ensures
            e == EidAllocationStatus::NoPoolSupport,
    {
        EidAllocationStatus::NoPoolSupport
    }
}

impl U8Enum for EidAllocationStatus {
    open spec fn spec_from_u8(value: u8) -> Self {
        match value {
            0x01 => EidAllocationStatus::RequiresPoolAllocation,
            0x02 => EidAllocationStatus::PoolAlreadyAllocated,
            _ => EidAllocationStatus::NoPoolSupport,
        }
    }

    open spec fn spec_to_u8(&self) -> u8 {
        match self {
            EidAllocationStatus::NoPoolSupport => 0x00,
            EidAllocationStatus::RequiresPoolAllocation => 0x01,
            EidAllocationStatus::PoolAlreadyAllocated => 0x02,
        }
    }

    fn from_u8(value: u8) -> (e: Self) {
        match value {
            0x01 => EidAllocationStatus::RequiresPoolAllocation,
            0x02 => EidAllocationStatus::PoolAlreadyAllocated,
            _ => EidAllocationStatus::NoPoolSupport,
        }
    }

    fn to_u8(&self) -> (v: u8) {
        match self {
            EidAllocationStatus::NoPoolSupport => 0x00,
            EidAllocationStatus::RequiresPoolAllocation => 0x01,
            EidAllocationStatus::PoolAlreadyAllocated => 0x02,
        }
    }

    proof fn lemma_from_to(&self) {
    }
}

impl From<u8> for EidAllocationStatus {
    fn from(value: u8) -> (e: Self) {
        EidAllocationStatus::from_u8(value)
    }
}

impl FromSpecImpl<u8> for EidAllocationStatus {
    open spec fn obeys_from_spec() -> bool {
        true
    }

    open spec fn from_spec(value: u8) -> Self {
        EidAllocationStatus::spec_from_u8(value)
    }
}

/// Body of a Set Endpoint ID response, behind its control header.
#[derive(Copy, Clone, Debug, PartialEq, Eq, Structural)]
pub struct Response {
    pub hdr: ControlMsgHeader,
    pub completion_code: u8,
    /// `eid_allocation_status` in bits 0 to 1, `eid_assignment_status` in bits 4 to 5,
    /// reserved bits between and above.
    pub eid_allocation_status_reserved1_eid_assignment_status_reserved2: u8,
    pub eid_setting: u8,
    pub eid_pool_size: u8,
}

impl Default for Response {
    fn default() -> (m: Self)
        ensures
            m == (Response {
                hdr: ControlMsgHeader::spec_default(),
                completion_code: 0,
                eid_allocation_status_reserved1_eid_assignment_status_reserved2: 0,
                eid_setting: 0,
                eid_pool_size: 0,
            }),
    {
        Response {
            hdr: ControlMsgHeader::default(),
            completion_code: 0,
            eid_allocation_status_reserved1_eid_assignment_status_reserved2: 0,
            eid_setting: 0,
            eid_pool_size: 0,
        }
    }
}

impl Response {
    /// A response with the two status fields packed into one byte, reserved bits zero.
    pub open spec fn spec_new(
        hdr: ControlMsgHeader,
        completion_code: u8,
        eid_allocation_status: EidAllocationStatus,
        eid_assignment_status: EidAssignmentStatus,
        eid_setting: u8,
        eid_pool_size: u8,
    ) -> Self {
        Response {
            hdr,
            completion_code,
            eid_allocation_status_reserved1_eid_assignment_status_reserved2: (
                eid_allocation_status.spec_to_u8() % 4
                    + 16 * (eid_assignment_status.spec_to_u8() % 4)
            ) as u8,
            eid_setting,
            eid_pool_size,
        }
    }

    /// Builds a response; see [`Response::spec_new`].
    pub fn new(
        hdr: ControlMsgHeader,
        completion_code: u8,
        eid_allocation_status: EidAllocationStatus,
        eid_assignment_status: EidAssignmentStatus,
        eid_setting: u8,
        eid_pool_size: u8,
    ) -> (m: Self)
        ensures
            m == Self::spec_new(
                hdr,
                completion_code,
                eid_allocation_status,
                eid_assignment_status,
                eid_setting,
                eid_pool_size,
            ),
            m.raw_eid_allocation_status() == eid_allocation_status.spec_to_u8(),
            m.eid_assignment_status() == eid_assignment_status.spec_to_u8(),
            m.reserved1() == 0,
            m.reserved2() == 0,
    {
        Response {
            hdr,
            completion_code,
            eid_allocation_status_reserved1_eid_assignment_status_reserved2:
                eid_allocation_status.to_u8() % 4 + 16 * (eid_assignment_status.to_u8() % 4),
            eid_setting,
            eid_pool_size,
        }
    }

    /// The response to `req`: its header with the request bit cleared, then the given fields.
    pub open spec fn spec_from(
        req: Request,
        completion_code: CompletionCode,
        eid_allocation_status: EidAllocationStatus,
        eid_assignment_status: EidAssignmentStatus,
        eid_setting: u8,
        eid_pool_size: u8,
    ) -> Self {
        Self::spec_new(
            req.hdr.spec_to_response(),
            completion_code.spec_to_u8(),
            eid_allocation_status,
            eid_assignment_status,
            eid_setting,
            eid_pool_size,
        )
    }

    /// Builds the response to `req`; see [`Response::spec_from`].
    pub fn from(
        req: Request,
        completion_code: CompletionCode,
        eid_allocation_status: EidAllocationStatus,
        eid_assignment_status: EidAssignmentStatus,
        eid_setting: u8,
        eid_pool_size: u8,
    ) -> (m: Self)
        ensures
            m == Self::spec_from(
                req,
                completion_code,
                eid_allocation_status,
                eid_assignment_status,
                eid_setting,
                eid_pool_size,
            ),
            m.hdr.rq() == 0,
            m.hdr.instance_id() == req.hdr.instance_id(),
    {
        Response::new(
            req.hdr.to_response(),
            completion_code.to_u8(),
            eid_allocation_status,
            eid_assignment_status,
            eid_setting,
            eid_pool_size,
        )
    }

    /// The allocation status that the two lowest bits stand for.
    pub open spec fn spec_eid_allocation_status(&self) -> EidAllocationStatus {
        EidAllocationStatus::spec_from_u8(self.raw_eid_allocation_status())
    }

    /// The allocation status that the two lowest bits stand for.
    #[verifier::when_used_as_spec(spec_eid_allocation_status)]
    pub fn eid_allocation_status(&self) -> (status: EidAllocationStatus)
        ensures
            status == self.spec_eid_allocation_status(),
    {
        EidAllocationStatus::from_u8(self.raw_eid_allocation_status())
    }

    /// Allocation status as a number, bits 0 to 1.
    pub open spec fn spec_raw_eid_allocation_status(&self) -> u8 {
        field(self.eid_allocation_status_reserved1_eid_assignment_status_reserved2, 1, 4)
    }

    /// Allocation status as a number, bits 0 to 1.
    #[verifier::when_used_as_spec(spec_raw_eid_allocation_status)]
    pub fn raw_eid_allocation_status(&self) -> (v: u8)
        ensures
            v == self.spec_raw_eid_allocation_status(),
    {
        self.eid_allocation_status_reserved1_eid_assignment_status_reserved2 % 4
    }

    /// Stores `value` modulo 4 as the new `raw_eid_allocation_status`; every other bit stays.
    pub fn set_raw_eid_allocation_status(&mut self, value: u8)
        ensures
            *final(self) == (Self {
                eid_allocation_status_reserved1_eid_assignment_status_reserved2: with_field(
                    old(self).eid_allocation_status_reserved1_eid_assignment_status_reserved2,
                    1,
                    4,
                    value,
                ),
                ..*old(self)
            }),
    {
        let b: u8 = self.eid_allocation_status_reserved1_eid_assignment_status_reserved2;
        self.eid_allocation_status_reserved1_eid_assignment_status_reserved2 =
            b - b % 4 + value % 4;
    }

    /// Reserved bits 2 to 3.
    pub open spec fn spec_reserved1(&self) -> u8 {
        field(self.eid_allocation_status_reserved1_eid_assignment_status_reserved2, 4, 4)
    }

    /// Reserved bits 2 to 3.
    #[verifier::when_used_as_spec(spec_reserved1)]
    pub fn reserved1(&self) -> (v: u8)
        ensures
            v == self.spec_reserved1(),
    {
        (self.eid_allocation_status_reserved1_eid_assignment_status_reserved2 / 4) % 4
    }

    /// Stores `value` modulo 4 as the new `reserved1`; every other bit stays.
    pub fn set_reserved1(&mut self, value: u8)
        ensures
            *final(self) == (Self {
                eid_allocation_status_reserved1_eid_assignment_status_reserved2: with_field(
                    old(self).eid_allocation_status_reserved1_eid_assignment_status_reserved2,
                    4,
                    4,
                    value,
                ),
                ..*old(self)
            }),
    {
        let b: u8 = self.eid_allocation_status_reserved1_eid_assignment_status_reserved2;
        self.eid_allocation_status_reserved1_eid_assignment_status_reserved2 =
            b - ((b / 4) % 4) * 4 + (value % 4) * 4;
    }

    /// Assignment status as a number, bits 4 to 5.
    pub open spec fn spec_eid_assignment_status(&self) -> u8 {
        field(self.eid_allocation_status_reserved1_eid_assignment_status_reserved2, 16, 4)
    }

    /// Assignment status as a number, bits 4 to 5.
    #[verifier::when_used_as_spec(spec_eid_assignment_status)]
    pub fn eid_assignment_status(&self) -> (v: u8)
        ensures
            v == self.spec_eid_assignment_status(),
    {
        (self.eid_allocation_status_reserved1_eid_assignment_status_reserved2 / 16) % 4
    }

    /// Stores `value` modulo 4 as the new `eid_assignment_status`; every other bit stays.
    pub fn set_eid_assignment_status(&mut self, value: u8)
        ensures
            *final(self) == (Self {
                eid_allocation_status_reserved1_eid_assignment_status_reserved2: with_field(
                    old(self).eid_allocation_status_reserved1_eid_assignment_status_reserved2,
                    16,
                    4,
                    value,
                ),
                ..*old(self)
            }),
    {
        let b: u8 = self.eid_allocation_status_reserved1_eid_assignment_status_reserved2;
        self.eid_allocation_status_reserved1_eid_assignment_status_reserved2 =
            b - ((b / 16) % 4) * 16 + (value % 4) * 16;
    }

    /// Reserved bits 6 to 7.
    pub open spec fn spec_reserved2(&self) -> u8 {
        field(self.eid_allocation_status_reserved1_eid_assignment_status_reserved2, 64, 4)
    }

    /// Reserved bits 6 to 7.
    #[verifier::when_used_as_spec(spec_reserved2)]
    pub fn reserved2(&self) -> (v: u8)
        ensures
            v == self.spec_reserved2(),
    {
        self.eid_allocation_status_reserved1_eid_assignment_status_reserved2 / 64
    }

    /// Stores `value` modulo 4 as the new `reserved2`; every other bit stays.
    pub fn set_reserved2(&mut self, value: u8)
        ensures
            *final(self) == (Self {
                eid_allocation_status_reserved1_eid_assignment_status_reserved2: with_field(
                    old(self).eid_allocation_status_reserved1_eid_assignment_status_reserved2,
                    64,
                    4,
                    value,
                ),
                ..*old(self)
            }),
    {
        let b: u8 = self.eid_allocation_status_reserved1_eid_assignment_status_reserved2;
        self.eid_allocation_status_reserved1_eid_assignment_status_reserved2 =
            b - (b / 64) * 64 + (value % 4) * 64;
    }
}

impl FromBinary for Response {
    open spec fn spec_size() -> nat {
        7
    }

    open spec fn spec_encode(&self) -> Seq<u8> {
        self.hdr.spec_encode() + seq![
            self.completion_code,
            self.eid_allocation_status_reserved1_eid_assignment_status_reserved2,
            self.eid_setting,
            self.eid_pool_size,
        ]
    }

    open spec fn spec_decode(bytes: Seq<u8>) -> Self {
        Response {
            hdr: ControlMsgHeader::spec_decode(bytes),
            completion_code: bytes[3],
            eid_allocation_status_reserved1_eid_assignment_status_reserved2: bytes[4],
            eid_setting: bytes[5],
            eid_pool_size: bytes[6],
        }
    }

    fn size() -> (n: usize) {
        7
    }

    fn to_bytes(&self) -> (bytes: Vec<u8>) {
        let mut bytes: Vec<u8> = self.hdr.to_bytes();
        bytes.push(self.completion_code);
        bytes.push(self.eid_allocation_status_reserved1_eid_assignment_status_reserved2);
        bytes.push(self.eid_setting);
        bytes.push(self.eid_pool_size);
        assert(bytes@ == self.spec_encode());
        bytes
    }

    fn try_from_bytes(bytes: &[u8]) -> (r: Result<Self, MctpBaseLibError>) {
        if bytes.len() < 7 {
            return Err(MctpBaseLibError::InvalidPayloadSize { expected: 7, found: bytes.len() });
        }
        let hdr = match ControlMsgHeader::try_from_bytes(bytes) {
            Ok(hdr) => hdr,
            Err(e) => {
                return Err(e);
            },
        };
        Ok(
            Response {
                hdr,
                completion_code: bytes[3],
                eid_allocation_status_reserved1_eid_assignment_status_reserved2: bytes[4],
                eid_setting: bytes[5],
                eid_pool_size: bytes[6],
            },
        )
    }

    proof fn lemma_encode_len(&self) {
        self.hdr.lemma_encode_len();
    }

    proof fn lemma_decode_prefix(bytes: Seq<u8>) {
        ControlMsgHeader::lemma_decode_prefix(bytes);
        ControlMsgHeader::lemma_decode_prefix(bytes.take(7));
        assert(bytes.take(7).take(3) == bytes.take(3));
    }

    proof fn lemma_round_trip(&self) {
        self.hdr.lemma_round_trip();
        self.hdr.lemma_encode_len();
        ControlMsgHeader::lemma_decode_prefix(self.spec_encode());
        assert(self.spec_encode().take(3) == self.hdr.spec_encode());
    }
}

impl ControlMsgReponseStatus for Response {
    open spec fn spec_completion_byte(&self) -> u8 {
        self.completion_code
    }

    fn completion_code(&self) -> (c: CompletionCode) {
        CompletionCode::from_u8(self.completion_code)
    }

    fn is_success(&self) -> (r: Result<(), u8>) {
        match CompletionCode::from_u8(self.completion_code) {
            CompletionCode::Success => Ok(()),
            _ => Err(self.completion_code),
        }
    }
}

} // verus!
