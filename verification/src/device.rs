//! The HTTP protocol that an adopted device speaks: what is asked of it and
//! what its answer means.  Sending and receiving is the caller's part.

use vstd::prelude::*;
use crate::member::{Member, MemberStatus, Status};

verus! {

/// Path of the firmware upload on a device.
pub const ENDPOINT_UPDATE: &'static str = "update";

/// Path of the status query on a device.
pub const ENDPOINT_STATUS: &'static str = "status";

/// Content type of a firmware upload: raw bytes.
pub const CONTENT_TYPE_FIRMWARE: &'static str = "application/octet-stream";

/// How a request is made.
#[derive(Clone, Copy, Debug, PartialEq, Eq, Structural)]
pub enum Method {
    Get,
    Post,
}

/// A request to a device, ready to be sent.
#[derive(Debug, PartialEq, Eq)]
pub struct Request {
    pub method: Method,
    pub url: String,
    /// Content type of the body, for a request that has one.
    pub content_type: Option<String>,
    /// Length of the body in bytes, for a request that has one.  The body
    /// itself is streamed by the sender and never held here.
    pub content_length: Option<u64>,
}

/// What came of sending a request.
#[derive(Clone, Copy, Debug, PartialEq, Eq, Structural)]
pub enum Response {
    /// The device answered with the HTTP status `code`.
    Answered { code: u16 },
    /// No answer came: the device could not be reached or the transfer broke.
    Unreachable,
}

/// Why a device did not do what was asked of it.
#[derive(Clone, Copy, Debug, PartialEq, Eq, Structural)]
pub enum DeviceError {
    /// No answer came.
    Unreachable,
    /// The device answered with a status `code` that is not a success.
    Rejected { code: u16 },
    /// The device answered with success but its answer could not be read.
    Unreadable,
}

/// True when the HTTP status `code` reports success.
pub open spec fn success(code: u16) -> bool {
    200 <= code < 300
}

/// The address of `endpoint` on the host `authority`.
pub open spec fn endpoint_address(authority: Seq<char>, endpoint: Seq<char>) -> Seq<char> {
    "http://"@ + authority + "/"@ + endpoint
}

/// The address of `endpoint` on the device with the hostname `host`, which is
/// reached in the local domain.
pub open spec fn device_address(host: Seq<char>, endpoint: Seq<char>) -> Seq<char> {
    endpoint_address(host + ".local"@, endpoint)
}

/// What a response means for a request that asks a device to do something:
/// success for a status from 200 to 299, an error for anything else.
pub open spec fn outcome(response: Response) -> Result<(), DeviceError> {
    match response {
        Response::Answered { code } => if success(code) {
            Ok(())
        } else {
            Err(DeviceError::Rejected { code })
        },
        Response::Unreachable => Err(DeviceError::Unreachable),
    }
}

/// Tells whether the HTTP status `code` reports success.
pub fn is_success(code: u16) -> (yes: bool)
    ensures
        yes == success(code),
{
    200 <= code && code < 300
}

/// Builds the address of `endpoint` on the host `authority`.
pub fn endpoint_url(authority: &str, endpoint: &str) -> (url: String)
    ensures
        url@ == endpoint_address(authority@, endpoint@),
{
    let mut url = String::from_str("http://");
    url.append(authority);
    url.append("/");
    url.append(endpoint);
    url
}

/// The firmware upload for the host `host` and an image of `size` bytes: a
/// POST of raw bytes to the update path.
pub fn upload_request(host: &str, size: u64) -> (request: Request)
    ensures
        request.method == Method::Post,
        request.url@ == endpoint_address(host@, ENDPOINT_UPDATE@),
        request.content_type matches Some(kind) && kind@ == CONTENT_TYPE_FIRMWARE@,
        request.content_length == Some(size),
{
    Request {
        method: Method::Post,
        url: endpoint_url(host, ENDPOINT_UPDATE),
        content_type: Some(String::from_str(CONTENT_TYPE_FIRMWARE)),
        content_length: Some(size),
    }
}

impl Member {
    /// The host under which this device is reached: its hostname in the
    /// local domain.
    pub fn authority(&self) -> (host: String)
        ensures
            host@ == self@.hostname + ".local"@,
    {
        let mut host = self.hostname.clone();
        host.append(".local");
        host
    }

    /// Builds the address of `endpoint` on this device.
    pub fn create_url(&self, endpoint: &str) -> (url: String)
        ensures
            url@ == device_address(self@.hostname, endpoint@),
    {
        endpoint_url(self.authority().as_str(), endpoint)
    }

    /// The status query for this device: a GET without a body.
    pub fn status_request(&self) -> (request: Request)
        ensures
            request.method == Method::Get,
            request.url@ == device_address(self@.hostname, ENDPOINT_STATUS@),
            request.content_type is None,
            request.content_length is None,
    {
        Request {
            method: Method::Get,
            url: self.create_url(ENDPOINT_STATUS),
            content_type: None,
            content_length: None,
        }
    }

    /// The firmware upload for this device and an image of `size` bytes: a
    /// POST of raw bytes.
    pub fn update_request(&self, size: u64) -> (request: Request)
        ensures
            request.method == Method::Post,
            request.url@ == device_address(self@.hostname, ENDPOINT_UPDATE@),
            request.content_type matches Some(kind) && kind@ == CONTENT_TYPE_FIRMWARE@,
            request.content_length == Some(size),
    {
        upload_request(self.authority().as_str(), size)
    }

    /// Reads the response to a firmware upload: the update took place when
    /// the device answered with a success status, and in no other case.
    pub fn update(&self, response: Response) -> (done: Result<(), DeviceError>)
        ensures
            done == outcome(response),
    {
        match response {
            Response::Answered { code } => {
                if is_success(code) {
                    Ok(())
                } else {
                    Err(DeviceError::Rejected { code })
                }
            },
            Response::Unreachable => Err(DeviceError::Unreachable),
        }
    }

    /// Reads the response to a status query.  `body` is the answer's body
    /// where it could be read as a status.  The status is had when the device
    /// answered with a success status and a readable body.
    pub fn status(&self, response: Response, body: Option<Status>) -> (read: Result<
        Status,
        DeviceError,
    >)
        ensures
            match read {
                Ok(status) => outcome(response) is Ok && body == Some(status),
                Err(error) => match outcome(response) {
                    Err(refusal) => error == refusal,
                    Ok(_) => body is None && error == DeviceError::Unreadable,
                },
            },
    {
        match self.update(response) {
            Err(error) => Err(error),
            Ok(_) => match body {
                Some(status) => Ok(status),
                None => Err(DeviceError::Unreadable),
            },
        }
    }

    /// The member with what a status query told of it: online when the query
    /// gave a status, offline when it failed in any way.
    pub fn with_status(self, read: Result<Status, DeviceError>) -> (status: MemberStatus)
        ensures
            status.member() == self,
            status is Online <==> read is Ok,
    {
        match read {
            Ok(_) => MemberStatus::Online(self),
            Err(_) => MemberStatus::Offline(self),
        }
    }
}

} // verus!
