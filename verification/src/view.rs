//! The view router: a pure mapping from the current state to a description
//! of the panel to paint. The widget and pixel layer that executes the
//! description is an external collaborator; everything decided here — which
//! panel, which border accent, which title spans, which body — is pinned
//! down exactly.

use vstd::prelude::*;
use vstd::pervasive::unreached;
use crate::app::{App, AppView};
use crate::profile::{Profile, ProfileView};
use crate::status::{Poll, Status, StatusView};

verus! {

/// A display color, as far as the router chooses one; the paint layer maps
/// it to the surface's palette.
#[derive(Clone, Copy, Debug, PartialEq, Eq, Structural)]
pub enum TextColor {
    Default,
    Red,
    Yellow,
    Green,
    Cyan,
    Blue,
    Magenta,
    DarkGray,
}

/// Mathematical model of a [`Span`].
#[verifier::ext_equal]
pub struct SpanView {
    pub text: Seq<char>,
    pub color: TextColor,
}

/// A run of styled text inside a title.
#[derive(Debug)]
pub struct Span {
    pub text: String,
    pub color: TextColor,
}

impl View for Span {
    type V = SpanView;

    open spec fn view(&self) -> SpanView {
        SpanView { text: self.text@, color: self.color }
    }
}

/// Mathematical model of a [`Body`].
#[verifier::ext_equal]
pub enum BodyView {
    ErrorText(Seq<char>),
    Loading,
    ProfileDump(ProfileView),
}

/// What fills the inner area of the panel.
#[derive(Debug)]
pub enum Body {
    /// The error reason, centered and word-wrapped.
    ErrorText(String),
    /// The loading view: a one-line middle band, split off by
    /// [`crate::layout::split_loading`], showing "Loading..." centered.
    Loading,
    /// The full dump of the fetched profile's fields.
    ProfileDump(Profile),
}

impl View for Body {
    type V = BodyView;

    open spec fn view(&self) -> BodyView {
        match self {
            Body::ErrorText(reason) => BodyView::ErrorText(reason@),
            Body::Loading => BodyView::Loading,
            Body::ProfileDump(profile) => BodyView::ProfileDump(profile@),
        }
    }
}

/// Mathematical model of a [`Panel`].
#[verifier::ext_equal]
pub struct PanelView {
    pub border_color: TextColor,
    pub title: Seq<SpanView>,
    pub body: BodyView,
}

/// One full-frame panel: a border all around, a styled title on it, and a
/// body inside. This is the whole output of the router for one tick.
#[derive(Debug)]
pub struct Panel {
    pub border_color: TextColor,
    pub title: Vec<Span>,
    pub body: Body,
}

impl View for Panel {
    type V = PanelView;

    open spec fn view(&self) -> PanelView {
        PanelView {
            border_color: self.border_color,
            title: self.title@.map_values(|s: Span| s@),
            body: self.body@,
        }
    }
}

/// The error panel: red border, red title "Error", the reason as body.
pub open spec fn error_panel_view(reason: Seq<char>) -> PanelView {
    PanelView {
        border_color: TextColor::Red,
        title: seq![SpanView { text: "Error"@, color: TextColor::Red }],
        body: BodyView::ErrorText(reason),
    }
}

/// The content panel: default border, the title "Hello, " followed by the
/// username in cyan, and the given body.
pub open spec fn content_panel_view(username: Seq<char>, body: BodyView) -> PanelView {
    PanelView {
        border_color: TextColor::Default,
        title: seq![
            SpanView { text: "Hello, "@, color: TextColor::Default },
            SpanView { text: username, color: TextColor::Cyan },
        ],
        body,
    }
}

/// The pure routing function: an error state maps to the error panel, and
/// anything else to the content panel, whose body is the loading view or the
/// profile dump. It reads nothing but the given state.
pub open spec fn route_spec(a: AppView) -> PanelView {
    match a.status {
        StatusView::Error(reason) => error_panel_view(reason),
        StatusView::Loading => content_panel_view(a.username->0, BodyView::Loading),
        StatusView::Ready(profile) => content_panel_view(
            a.username->0,
            BodyView::ProfileDump(profile),
        ),
    }
}

/// A non-error state with no username never reaches the router: the forced
/// error check of [`crate::app::step`] runs before every render.
pub open spec fn routable(a: AppView) -> bool {
    a.username is Some || a.status is Error
}

impl App {
    /// Map the current state to the panel to paint, exactly as
    /// [`route_spec`] says.
    pub fn route(&self) -> (panel: Panel)
        requires
            routable(self@),
        ensures
            panel@ == route_spec(self@),
    {
        match &self.status {
            Status::Error(reason) => {
                let mut title: Vec<Span> = Vec::new();
                title.push(Span { text: "Error".to_string(), color: TextColor::Red });
                let panel = Panel {
                    border_color: TextColor::Red,
                    title,
                    body: Body::ErrorText(reason.clone()),
                };
                proof {
                    assert(panel@.title =~= error_panel_view(reason@).title);
                    assert(panel@ =~= route_spec(self@));
                }
                panel
            },
            _ => {
                let username: &String = match &self.username {
                    Some(name) => name,
                    None => unreached(),
                };
                let mut title: Vec<Span> = Vec::new();
                title.push(Span { text: "Hello, ".to_string(), color: TextColor::Default });
                title.push(Span { text: username.clone(), color: TextColor::Cyan });
                let body = match &self.status {
                    Status::Loading => Body::Loading,
                    Status::Ready(profile) => Body::ProfileDump(profile.clone()),
                    Status::Error(_) => unreached(),
                };
                let panel = Panel { border_color: TextColor::Default, title, body };
                proof {
                    assert(panel@.title =~= route_spec(self@).title);
                    assert(panel@ =~= route_spec(self@));
                }
                panel
            },
        }
    }

    /// One tick of the render loop's state handling: consume one poll,
    /// update the status, and hand back the panel to paint for this frame.
    pub fn tick(&mut self, poll: Poll) -> (panel: Panel)
        ensures
            final(self)@ == crate::app::step(old(self)@, poll@),
            panel@ == route_spec(final(self)@),
    {
        self.update_status(poll);
        self.route()
    }
}

/// The router is a pure function: equal states produce equal panels — it
/// depends on nothing but its argument.
pub proof fn lemma_router_is_pure(a1: AppView, a2: AppView)
    requires
        a1 == a2,
    ensures
        route_spec(a1) == route_spec(a2),
{
}

} // verus!
