//! The render-loop state: an optional identity read once at startup and the
//! current status, together with the per-tick transition that consumes one
//! poll of the fetch channel.

use vstd::prelude::*;
use crate::profile::Profile;
use crate::status::{Poll, PollView, Status, StatusView};

verus! {

/// Mathematical model of an [`App`].
#[verifier::ext_equal]
pub struct AppView {
    pub username: Option<Seq<char>>,
    pub status: StatusView,
    pub exit: bool,
}

/// The reason shown when no identity was configured at startup.
pub open spec fn missing_username_reason() -> Seq<char> {
    "No username found"@
}

/// The effect of one poll on the status alone: a message carrying a profile
/// moves the status to `Ready`; an empty message, an empty poll and a closed
/// channel leave it unchanged.
pub open spec fn apply_message(s: StatusView, p: PollView) -> StatusView {
    match p {
        PollView::Message(Some(profile)) => StatusView::Ready(profile),
        _ => s,
    }
}

/// One full tick of the state update: the poll result is applied first, and
/// then a missing identity unconditionally forces the error state, so that a
/// configuration error wins over any message, on every tick.
pub open spec fn step(a: AppView, p: PollView) -> AppView {
    AppView {
        username: a.username,
        exit: a.exit,
        status: if a.username is None {
            StatusView::Error(missing_username_reason())
        } else {
            apply_message(a.status, p)
        },
    }
}

/// The state after a whole sequence of polls, first poll first.
pub open spec fn run_polls(a: AppView, polls: Seq<PollView>) -> AppView
    decreases polls.len(),
{
    if polls.len() == 0 {
        a
    } else {
        run_polls(step(a, polls[0]), polls.drop_first())
    }
}

/// The state driving the render loop. The identity is read once at startup
/// and never changes; the status is moved only by [`App::update_status`].
#[derive(Debug)]
pub struct App {
    pub username: Option<String>,
    pub status: Status,
    /// The cancellation signal: set by the host to end the render loop,
    /// observed between ticks, and never touched by a tick itself.
    pub exit: bool,
}

impl View for App {
    type V = AppView;

    open spec fn view(&self) -> AppView {
        AppView {
            username: match self.username {
                Some(ref name) => Some(name@),
                None => None,
            },
            status: self.status@,
            exit: self.exit,
        }
    }
}

impl App {
    /// Start a session: the given identity (or none), a `Loading` status,
    /// and no pending cancellation.
    pub fn new(username: Option<String>) -> (app: App)
        ensures
            app@.username == (match username {
                Some(name) => Some(name@),
                None => None::<Seq<char>>,
            }),
            app@.status == StatusView::Loading,
            app@.exit == false,
    {
        App { username, status: Status::Loading, exit: false }
    }

    /// The identity this session was started with.
    pub fn username(&self) -> (name: &Option<String>)
        ensures
            *name == self.username,
            self@.username == (match name {
                Some(n) => Some(n@),
                None => None::<Seq<char>>,
            }),
    {
        &self.username
    }

    /// The current status.
    pub fn status(&self) -> (status: &Status)
        ensures
            *status == self.status,
            status@ == self@.status,
    {
        &self.status
    }

    /// Whether the host asked the render loop to end; checked between ticks.
    pub fn should_exit(&self) -> (exit: bool)
        ensures
            exit == self@.exit,
    {
        self.exit
    }

    /// Ask the render loop to end after the current tick. Nothing else of
    /// the state is touched.
    pub fn request_exit(&mut self)
        ensures
            final(self)@ == (AppView { exit: true, ..old(self)@ }),
    {
        self.exit = true;
    }

    /// Apply one poll result: exactly the [`step`] transition. A received
    /// profile moves the status to `Ready`, a missing identity then forces
    /// `Error`; everything else leaves the status as it was.
    pub fn update_status(&mut self, poll: Poll)
        ensures
            final(self)@ == step(old(self)@, poll@),
    {
        if let Poll::Message(Some(profile)) = poll {
            self.status = Status::Ready(profile);
        }
        if self.username.is_none() {
            self.status = Status::Error("No username found".to_string());
        }
    }
}

/// A step never moves the status back to `Loading`, and never touches the
/// identity or the cancellation signal: transitions are monotone, `Loading`
/// to `Ready` or to `Error`.
pub proof fn lemma_step_monotonic(a: AppView, p: PollView)
    ensures
        step(a, p).status is Loading ==> a.status is Loading,
        step(a, p).username == a.username,
        step(a, p).exit == a.exit,
{
}

/// With no identity configured, every step lands in the error state, whatever
/// the poll brought: the forced check re-runs on every tick and wins over a
/// successful fetch.
pub proof fn lemma_missing_username_forces_error(a: AppView, p: PollView)
    requires
        a.username is None,
    ensures
        step(a, p).status == StatusView::Error(missing_username_reason()),
{
}

/// With an identity configured, a `Ready` status is stable: no later poll,
/// message or closure moves the session away from the fetched profile.
pub proof fn lemma_ready_is_stable(a: AppView, p: PollView)
    requires
        a.username is Some,
        a.status is Ready,
    ensures
        step(a, p).status is Ready,
{
}

/// With an identity configured, a `Ready` status survives any sequence of
/// later polls: the fetched profile stays on screen for the session.
pub proof fn lemma_ready_is_permanent(a: AppView, polls: Seq<PollView>)
    requires
        a.username is Some,
        a.status is Ready,
    ensures
        run_polls(a, polls).status is Ready,
    decreases polls.len(),
{
    if polls.len() > 0 {
        lemma_ready_is_permanent(step(a, polls[0]), polls.drop_first());
    }
}

/// With no identity configured, the error state is permanent over any
/// non-empty sequence of polls, regardless of the messages in it.
pub proof fn lemma_error_is_permanent_without_username(a: AppView, polls: Seq<PollView>)
    requires
        a.username is None,
        polls.len() >= 1,
    ensures
        run_polls(a, polls).status == StatusView::Error(missing_username_reason()),
    decreases polls.len(),
{
    if polls.len() == 1 {
        assert(run_polls(a, polls) == run_polls(step(a, polls[0]), polls.drop_first()));
    } else {
        lemma_error_is_permanent_without_username(step(a, polls[0]), polls.drop_first());
    }
}

/// With an identity configured, no sequence of polls ever produces an error
/// state: fetch failures keep the session in its current view instead.
pub proof fn lemma_no_error_with_username(a: AppView, polls: Seq<PollView>)
    requires
        a.username is Some,
        !(a.status is Error),
    ensures
        !(run_polls(a, polls).status is Error),
        run_polls(a, polls).username == a.username,
    decreases polls.len(),
{
    if polls.len() > 0 {
        lemma_no_error_with_username(step(a, polls[0]), polls.drop_first());
    }
}

} // verus!
