//! Devices as a plain network scan shows them: name, address and hardware
//! address.

use vstd::prelude::*;
use crate::text::optional_text;

verus! {

/// Key of the text record in which a device announces its hardware address.
pub const SERVICE_TXT_MAC_NAME: &'static str = "mac";

/// A device found by a scan, with where and what it is.
#[derive(Debug, PartialEq, Eq)]
pub struct CandidateInfo {
    /// Host name as announced, domain suffix included.
    pub hostname: String,
    /// An IPv4 address of the device, in dotted form.
    pub address: String,
    /// Hardware address that the device announces.
    pub mac_address: String,
}

/// What a `CandidateInfo` stands for in contracts.
pub struct CandidateInfoView {
    pub hostname: Seq<char>,
    pub address: Seq<char>,
    pub mac_address: Seq<char>,
}

impl View for CandidateInfo {
    type V = CandidateInfoView;

    open spec fn view(&self) -> CandidateInfoView {
        CandidateInfoView {
            hostname: self.hostname@,
            address: self.address@,
            mac_address: self.mac_address@,
        }
    }
}

impl Clone for CandidateInfo {
    fn clone(&self) -> (copy: Self)
        ensures
            copy == *self,
    {
        CandidateInfo {
            hostname: self.hostname.clone(),
            address: self.address.clone(),
            mac_address: self.mac_address.clone(),
        }
    }
}

impl Default for CandidateInfo {
    fn default() -> (info: Self)
        ensures
            info@.hostname.len() == 0,
            info@.address.len() == 0,
            info@.mac_address.len() == 0,
    {
        CandidateInfo { hostname: String::new(), address: String::new(), mac_address: String::new() }
    }
}

/// What an announcement lacks to describe a device.
#[derive(Clone, Copy, Debug, PartialEq, Eq, Structural)]
pub enum NodeError {
    /// The announcement carries no IPv4 address.
    MissingAddress,
    /// The announcement carries no hardware address record.
    MissingMac,
}

/// What an announcement with these parts describes: the device when it has
/// both an address and a hardware address, else what it lacks, the address
/// first.
pub open spec fn described(
    hostname: Seq<char>,
    address: Option<Seq<char>>,
    mac_address: Option<Seq<char>>,
) -> Result<CandidateInfoView, NodeError> {
    match (address, mac_address) {
        (None, _) => Err(NodeError::MissingAddress),
        (Some(_), None) => Err(NodeError::MissingMac),
        (Some(address), Some(mac_address)) => Ok(
            CandidateInfoView { hostname, address, mac_address },
        ),
    }
}

/// Describes the device of one announcement from its host name, its first
/// IPv4 address and its hardware address record, as far as it has them.
pub fn candidate_info(hostname: &str, address: Option<String>, mac_address: Option<String>) -> (info:
    Result<CandidateInfo, NodeError>)
    ensures
        match info {
            Ok(found) => described(hostname@, optional_text(address), optional_text(mac_address))
                == Ok::<CandidateInfoView, NodeError>(found@),
            Err(error) => described(hostname@, optional_text(address), optional_text(mac_address))
                == Err::<CandidateInfoView, NodeError>(error),
        },
{
    match address {
        None => Err(NodeError::MissingAddress),
        Some(address) => match mac_address {
            None => Err(NodeError::MissingMac),
            Some(mac_address) => Ok(
                CandidateInfo { hostname: String::from_str(hostname), address, mac_address },
            ),
        },
    }
}

} // verus!
