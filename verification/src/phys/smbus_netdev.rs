//! The SMBus binding: address rules and framing of MCTP packets for a datagram link.
use vstd::prelude::*;
use crate::base::buffer::append_bytes;
use crate::base::traits::FromBinary;
use crate::network::types::NetworkBindingCallbackMsg;
use crate::phys::error::Error;
use crate::phys::pec::{crc8, lemma_pec_of_own_bytes_is_valid, pec_valid, with_pec};
use crate::phys::smbus_types::SmbusPhysTransportHeader;
use crate::{MctpEmuEmptyResult, MctpEmuError, MctpEmuResult};

verus! {

/// Longest MCTP packet that fits one SMBus frame: the byte count, which also counts the
/// sender's address byte, must not exceed 255.
pub const SMBUS_MAX_PACKET_LEN: usize = 254;

/// Whether `addr` can name a device: not below 8, not in the reserved block
/// `0b1111xxx`, not above `0x7F`.
pub open spec fn is_valid_smbus_address(addr: u64) -> bool {
    !(addr < 8 || addr / 8 == 0b1111 || addr > 0x7F)
}

/// The usable addresses are exactly `0x08` to `0x77`.
pub proof fn lemma_valid_smbus_address_range(addr: u64)
    ensures
        is_valid_smbus_address(addr) <==> 0x08 <= addr <= 0x77,
{
}

/// Rejects reserved, invalid and unsupported addresses.
pub fn validate_smbus_address(addr: u64) -> (r: MctpEmuEmptyResult)
    ensures
        is_valid_smbus_address(addr) ==> r == Ok::<(), MctpEmuError>(()),
        !is_valid_smbus_address(addr) ==> r == Err::<(), MctpEmuError>(
            MctpEmuError::Phys(Error::InvalidAddress { addr }),
        ),
{
    if addr < 8 || addr / 8 == 0b1111 || addr > 0x7F {
        return Err(MctpEmuError::Phys(Error::InvalidAddress { addr }));
    }
    Ok(())
}

/// The SMBus frame that carries `msg` from `src_addr_7bit` to `dest_addr_7bit`: the
/// physical header, the packet, and the packet error code over both.
pub open spec fn smbus_frame(dest_addr_7bit: u8, src_addr_7bit: u8, msg: Seq<u8>) -> Seq<u8> {
    let body = SmbusPhysTransportHeader::spec_new(
        dest_addr_7bit,
        src_addr_7bit,
        (msg.len() + 1) as u8,
    ).spec_encode() + msg;
    body.push(crc8(body))
}

/// Every frame that is sent ends in a valid packet error code, and is five bytes
/// longer than its packet.
pub proof fn lemma_smbus_frame_pec_valid(dest_addr_7bit: u8, src_addr_7bit: u8, msg: Seq<u8>)
    ensures
        pec_valid(smbus_frame(dest_addr_7bit, src_addr_7bit, msg)),
        smbus_frame(dest_addr_7bit, src_addr_7bit, msg).len() == msg.len() + 5,
{
    let body = SmbusPhysTransportHeader::spec_new(
        dest_addr_7bit,
        src_addr_7bit,
        (msg.len() + 1) as u8,
    ).spec_encode() + msg;
    lemma_pec_of_own_bytes_is_valid(body);
}

/// Outcome of handing a frame of `len` bytes to a link that took `sent` of them.
pub fn check_transfer(sent: usize, len: usize) -> (r: Result<(), Error>)
    ensures
        sent == len ==> r == Ok::<(), Error>(()),
        sent != len ==> {
            &&& r matches Err(Error::TransmitError { detail })
            &&& detail@ == "incomplete transfer"@
        },
{
    if sent == len {
        Ok(())
    } else {
        Err(Error::TransmitError { detail: "incomplete transfer".to_owned() })
    }
}

/// One endpoint of an SMBus link: its own seven-bit address, and the identifier under
/// which the network knows the link.
#[derive(Debug, PartialEq, Eq)]
pub struct SmbusNetDevBinding {
    pub address: u8,
    pub network_id: u64,
}

impl Default for SmbusNetDevBinding {
    fn default() -> (b: Self)
        ensures
            b == (SmbusNetDevBinding { address: 0, network_id: 0 }),
    {
        SmbusNetDevBinding { address: 0, network_id: 0 }
    }
}

impl SmbusNetDevBinding {
    /// A binding with the given address of its own. An address that
    /// [`validate_smbus_address`] rejects is not taken: the binding then keeps address zero.
    pub fn new(address: u8) -> (b: Self)
        ensures
            b.network_id == 0,
            is_valid_smbus_address(address as u64) ==> b.address == address,
            !is_valid_smbus_address(address as u64) ==> b.address == 0,
    {
        let mut binding = SmbusNetDevBinding::default();
        let _ = binding.set_address(address);
        binding
    }

    /// Takes `address` as the binding's own if it is valid; else changes nothing and
    /// reports the address.
    pub fn set_address(&mut self, address: u8) -> (r: MctpEmuEmptyResult)
        ensures
            final(self).network_id == old(self).network_id,
            is_valid_smbus_address(address as u64) ==> r == Ok::<(), MctpEmuError>(())
                && final(self).address == address,
            !is_valid_smbus_address(address as u64) ==> r == Err::<(), MctpEmuError>(
                MctpEmuError::Phys(Error::InvalidAddress { addr: address as u64 }),
            ) && final(self).address == old(self).address,
    {
        match validate_smbus_address(address as u64) {
            Ok(()) => {
                self.address = address;
                Ok(())
            },
            Err(e) => Err(e),
        }
    }

    /// Remembers the identifier under which the network knows this link.
    pub fn bind(&mut self, id: u64)
        ensures
            final(self).network_id == id,
            final(self).address == old(self).address,
    {
        self.network_id = id;
    }

    /// Frames the packet `msg` for the device at `phy_addr`.
    ///
    /// The address is checked first. A packet of more than [`SMBUS_MAX_PACKET_LEN`] bytes
    /// would have to be split into fragments, which is not supported: it is refused.
    /// Otherwise the frame is [`smbus_frame`], whose last byte is a valid packet error code.
    pub fn transmit_frame(&self, msg: &[u8], phy_addr: u64) -> (r: MctpEmuResult<Vec<u8>>)
        ensures
            !is_valid_smbus_address(phy_addr) ==> r == Err::<Vec<u8>, MctpEmuError>(
                MctpEmuError::Phys(Error::InvalidAddress { addr: phy_addr }),
            ),
            is_valid_smbus_address(phy_addr) && msg@.len() > SMBUS_MAX_PACKET_LEN ==> {
                &&& r matches Err(MctpEmuError::Phys(Error::TransmitError { detail }))
                &&& detail@ == "fragmenting messages is not yet supported"@
            },
            is_valid_smbus_address(phy_addr) && msg@.len() <= SMBUS_MAX_PACKET_LEN ==> {
                &&& r matches Ok(frame)
                &&& frame@ == smbus_frame(phy_addr as u8, self.address, msg@)
                &&& frame@.len() == msg@.len() + 5
                &&& pec_valid(frame@)
            },
    {
        match validate_smbus_address(phy_addr) {
            Ok(()) => {},
            Err(e) => {
                return Err(e);
            },
        }
        if msg.len() > SMBUS_MAX_PACKET_LEN {
            return Err(
                MctpEmuError::Phys(
                    Error::TransmitError {
                        detail: "fragmenting messages is not yet supported".to_owned(),
                    },
                ),
            );
        }
        let dest_addr: u8 = phy_addr as u8;
        let byte_count: u8 = (msg.len() + 1) as u8;
        let hdr = SmbusPhysTransportHeader::new(dest_addr, self.address, byte_count);
        let mut tx_buf = hdr.to_bytes();
        append_bytes(&mut tx_buf, msg);
        Ok(with_pec(tx_buf))
    }

    /// What to hand to the network for a datagram that was read from the link: the whole
    /// datagram, unchanged, under this link's identifier; nothing for an empty datagram.
    pub fn receive_frame(&self, buf: Vec<u8>) -> (r: Option<NetworkBindingCallbackMsg>)
        ensures
            buf@.len() == 0 ==> r is None,
            buf@.len() != 0 ==> {
                &&& r matches Some(NetworkBindingCallbackMsg::Receive { id, buf: handed })
                &&& id == self.network_id
                &&& handed@ == buf@
            },
    {
        if buf.len() != 0 {
            Some(NetworkBindingCallbackMsg::Receive { id: self.network_id, buf })
        } else {
            None
        }
    }
}

} // verus!
