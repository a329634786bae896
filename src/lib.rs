//! Polls web feeds, picks out articles that were not notified before and
//! decides, one article at a time, what to fetch, look up, send and record.
//! The I/O itself (fetching feeds, the article database, the mailer) is done
//! by the caller, which feeds each outcome back to the [`Dispatch`] machine.
//!
//! `laws` states properties of single steps of the machine; `world` models
//! the collaborators and states properties of whole runs.
use vstd::prelude::*;

pub mod dispatch;
pub mod feed;
pub mod laws;
pub mod model;
pub mod notify;
pub mod store;
pub mod world;

pub use dispatch::{Action, Dispatch, Event, Exit, Phase, MAX_MAILS};
pub use feed::{articles_from_items, FeedItem};
pub use model::{Article, Site};
pub use notify::{message_for, Message};
pub use store::{SeenRecord, SeenStore, StoreError};
