//! The tri-state status value that drives rendering, and the result of one
//! non-blocking poll of the fetch channel.

use vstd::prelude::*;
use crate::profile::{Profile, ProfileView};

verus! {

/// Mathematical model of a [`Status`].
#[verifier::ext_equal]
pub enum StatusView {
    Loading,
    Error(Seq<char>),
    Ready(ProfileView),
}

/// Fetch progress: a closed set of exactly three variants. A session starts
/// as `Loading` and is moved only by the render loop, after a poll.
#[derive(Debug)]
pub enum Status {
    /// The fetch has not produced a payload yet.
    Loading,
    /// A terminal error, carrying the reason shown to the user.
    Error(String),
    /// The fetch delivered a profile.
    Ready(Profile),
}

impl View for Status {
    type V = StatusView;

    open spec fn view(&self) -> StatusView {
        match self {
            Status::Loading => StatusView::Loading,
            Status::Error(reason) => StatusView::Error(reason@),
            Status::Ready(profile) => StatusView::Ready(profile@),
        }
    }
}

/// Mathematical model of a [`Poll`].
#[verifier::ext_equal]
pub enum PollView {
    Empty,
    Closed,
    Message(Option<ProfileView>),
}

/// What one non-blocking receive on the fetch channel reported.
#[derive(Debug)]
pub enum Poll {
    /// The channel is open but holds no message.
    Empty,
    /// The producer is gone and no message remains.
    Closed,
    /// A message arrived: either a profile, or `None` for a fetch that
    /// completed without a payload.
    Message(Option<Profile>),
}

impl View for Poll {
    type V = PollView;

    open spec fn view(&self) -> PollView {
        match self {
            Poll::Empty => PollView::Empty,
            Poll::Closed => PollView::Closed,
            Poll::Message(payload) => PollView::Message(
                match payload {
                    Some(profile) => Some(profile@),
                    None => None,
                },
            ),
        }
    }
}

} // verus!
