//! The course of one firmware update, from the operator's answer to the
//! entry in the registry.  The caller asks, uploads and saves; what to do
//! next, and what the registry holds afterwards, is decided here.

use vstd::prelude::*;
use crate::config::{first_with_host, with_version, Config};
use crate::device::{
    device_address, outcome, success, DeviceError, Method, Request, Response,
    CONTENT_TYPE_FIRMWARE, ENDPOINT_UPDATE,
};
use crate::image::{extract_version, version_text, IMAGE_VERSION_LENGTH, IMAGE_VERSION_OFFSET};
use crate::member::{known_hosts, Member};

verus! {

/// Where an update stands.
#[derive(Clone, Copy, Debug, PartialEq, Eq, Structural)]
pub enum UpdateState {
    /// The operator has been shown both versions and has not answered yet.
    AwaitingAnswer,
    /// The image is on its way and the device has not answered yet.
    AwaitingReply,
    /// Nothing more will happen.
    Finished,
}

/// What the caller reports back.
#[derive(Clone, Copy, Debug, PartialEq, Eq, Structural)]
pub enum UpdateEvent {
    /// The operator accepted or declined the offered version.
    Answer { accepted: bool },
    /// The upload ended with this response.
    Reply(Response),
}

/// Why an update failed.
#[derive(Clone, Copy, Debug, PartialEq, Eq, Structural)]
pub enum UpdateError {
    /// The device did not take the image.
    Device(DeviceError),
    /// The device took the image, but the registry has no member with its
    /// hostname to record the version for.
    UnknownMember,
    /// The caller reported something that the update was not waiting for.
    Unexpected,
}

/// What the caller does next.
#[derive(Clone, Copy, Debug, PartialEq, Eq, Structural)]
pub enum UpdateAction {
    /// Send the upload request with the image as its body, then report the
    /// response.
    Upload,
    /// The registry holds the new version: write it out and tell the operator.
    Save,
    /// The operator declined: leave everything as it is.
    Stop,
    /// Give up with this error; the registry is as it was.
    Fail(UpdateError),
}

/// One update of one member to the version that an image offers.
#[derive(Debug, PartialEq, Eq)]
pub struct UpdateSession {
    /// The member to update, as the registry listed it when it was chosen.
    pub member: Member,
    /// Version text of the image.
    pub offered: String,
    /// Length of the image in bytes.
    pub size: u64,
    pub state: UpdateState,
}

/// The state and the action that follow `event` in `state`.  `known` tells
/// whether the registry has a member with the hostname of the device.
pub open spec fn next_step(state: UpdateState, event: UpdateEvent, known: bool) -> (
    UpdateState,
    UpdateAction,
) {
    match (state, event) {
        (UpdateState::AwaitingAnswer, UpdateEvent::Answer { accepted }) => if accepted {
            (UpdateState::AwaitingReply, UpdateAction::Upload)
        } else {
            (UpdateState::Finished, UpdateAction::Stop)
        },
        (UpdateState::AwaitingReply, UpdateEvent::Reply(response)) => match outcome(response) {
            Ok(_) => if known {
                (UpdateState::Finished, UpdateAction::Save)
            } else {
                (UpdateState::Finished, UpdateAction::Fail(UpdateError::UnknownMember))
            },
            Err(error) => (UpdateState::Finished, UpdateAction::Fail(UpdateError::Device(error))),
        },
        _ => (UpdateState::Finished, UpdateAction::Fail(UpdateError::Unexpected)),
    }
}

/// The registry is told of a new version in one case only: the update was
/// waiting for the device, the device answered, and its status was a success.
/// An update that has finished stays finished.
pub proof fn lemma_save_needs_success(state: UpdateState, event: UpdateEvent, known: bool)
    ensures
        next_step(state, event, known).1 == UpdateAction::Save <==> state
            == UpdateState::AwaitingReply && known && (event matches UpdateEvent::Reply(
            Response::Answered { code },
        ) && success(code)),
        state == UpdateState::Finished ==> next_step(state, event, known).0 == UpdateState::Finished,
        next_step(state, event, known).1 == UpdateAction::Upload <==> state
            == UpdateState::AwaitingAnswer && event == (UpdateEvent::Answer { accepted: true }),
{
}

impl UpdateSession {
    /// An update of `member` to the version `offered` of an image of `size`
    /// bytes, waiting for the operator's answer.
    pub fn begin(member: Member, offered: String, size: u64) -> (session: Self)
        ensures
            session.member == member,
            session.offered == offered,
            session.size == size,
            session.state == UpdateState::AwaitingAnswer,
    {
        UpdateSession { member, offered, size, state: UpdateState::AwaitingAnswer }
    }

    /// An update of `member` to the version that a firmware image of `size`
    /// bytes names in its version field.  `head` holds the image from its
    /// first byte on, at least as far as the version field reaches.
    pub fn for_image(member: Member, head: &[u8], size: u64) -> (session: Self)
        ensures
            session.member == member,
            session.offered@ == version_text(
                head@,
                IMAGE_VERSION_OFFSET as int,
                IMAGE_VERSION_LENGTH as int,
            ),
            session.size == size,
            session.state == UpdateState::AwaitingAnswer,
    {
        let offered = extract_version(head, IMAGE_VERSION_OFFSET, IMAGE_VERSION_LENGTH);
        UpdateSession::begin(member, offered, size)
    }

    /// The upload request of this update.
    pub fn request(&self) -> (request: Request)
        ensures
            request.method == Method::Post,
            request.url@ == device_address(self.member@.hostname, ENDPOINT_UPDATE@),
            request.content_type matches Some(kind) && kind@ == CONTENT_TYPE_FIRMWARE@,
            request.content_length == Some(self.size),
    {
        self.member.update_request(self.size)
    }

    /// Takes the update one step on: decides by the state and `event` what the
    /// caller does next.  The registry `config` gets the offered version for
    /// the member exactly when the action is `Save`; in every other case it
    /// is left as it was.
    pub fn advance(&mut self, config: &mut Config, event: UpdateEvent) -> (action: UpdateAction)
        ensures
            (final(self).state, action) == next_step(
                old(self).state,
                event,
                known_hosts(old(config)@).contains(old(self).member@.hostname),
            ),
            final(self).member == old(self).member,
            final(self).offered == old(self).offered,
            final(self).size == old(self).size,
            action == UpdateAction::Save ==> exists|at: int|
                #![trigger old(config)@[at]]
                first_with_host(old(config)@, old(self).member@.hostname, at) && final(config)@
                    == old(config)@.update(at, with_version(old(config)@[at], old(self).offered@)),
            action != UpdateAction::Save ==> final(config)@ == old(config)@,
    {
        let state = self.state;
        self.state = UpdateState::Finished;
        match (state, event) {
            (UpdateState::AwaitingAnswer, UpdateEvent::Answer { accepted }) => {
                if accepted {
                    self.state = UpdateState::AwaitingReply;
                    UpdateAction::Upload
                } else {
                    UpdateAction::Stop
                }
            },
            (UpdateState::AwaitingReply, UpdateEvent::Reply(response)) => {
                match self.member.update(response) {
                    Err(error) => UpdateAction::Fail(UpdateError::Device(error)),
                    Ok(_) => {
                        match config.update(self.member.clone(), self.offered.clone()) {
                            Ok(_) => UpdateAction::Save,
                            Err(_) => UpdateAction::Fail(UpdateError::UnknownMember),
                        }
                    },
                }
            },
            _ => UpdateAction::Fail(UpdateError::Unexpected),
        }
    }
}

} // verus!
