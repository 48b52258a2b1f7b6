//! A small status-screen library: a background fetch feeds a foreground
//! render loop through a non-blocking channel, and a pure view router maps
//! the resulting tri-state status to a drawable panel description.

pub mod app;
pub mod banner;
pub mod channel;
pub mod fetch;
pub mod layout;
pub mod profile;
pub mod status;
pub mod view;

pub use app::App;
pub use channel::{FetchReceiver, FetchSender};
pub use profile::Profile;
pub use status::{Poll, Status};
pub use view::{Body, Panel, Span, TextColor};
