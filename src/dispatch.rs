use vstd::prelude::*;

use crate::model::{Article, ArticleView, Site, SiteView};
use crate::notify::{message_for, subject_of, Message};

verus! {

/// Most notifications sent in one run.
pub const MAX_MAILS: usize = 100;

/// How a run ended.
#[derive(Debug, PartialEq, Eq, Structural, Clone, Copy)]
pub enum Exit {
    /// Every article of every site was considered.
    Completed,
    /// The send cap was reached before the next article; the rest waits for
    /// the next run.
    CapReached,
    /// A feed could not be fetched or parsed.
    FetchFailed,
    /// The notifier rejected a message.
    NotifyFailed,
    /// A lookup or a write of the article store failed.
    StoreFailed,
}

impl Exit {
    /// Whether the run ended normally (every article done, or the cap reached).
    pub open spec fn is_success(self) -> bool {
        self is Completed || self is CapReached
    }

    /// The process exit status for this outcome: zero on success, one otherwise.
    pub fn exit_code(&self) -> (r: i32)
        ensures
            r == 0 <==> self.is_success(),
            !self.is_success() ==> r == 1,
    {
        match self {
            Exit::Completed | Exit::CapReached => 0,
            _ => 1,
        }
    }
}

/// What the machine waits for.
#[derive(Debug, PartialEq, Eq, Structural, Clone, Copy)]
pub enum Phase {
    /// The current site's feed is to be fetched.
    Fetch,
    /// The store is to be asked whether the current article was notified.
    Check,
    /// The current article is to be notified.
    Send,
    /// The current article, just notified, is to be recorded.
    Record,
    /// The run is over.
    Done(Exit),
}

/// What the caller reports back after carrying out an [`Action`].
#[derive(Debug)]
pub enum Event {
    /// The feed was fetched; its well-formed articles in feed order.
    Fetched(Vec<Article>),
    /// The feed could not be fetched or parsed.
    FetchFailed,
    /// The store answered whether the URL is recorded.
    Checked(bool),
    /// A lookup of the store failed.
    CheckFailed,
    /// The message was sent.
    Sent,
    /// The notifier rejected the message.
    SendFailed,
    /// The URL was recorded.
    Recorded,
    /// The store could not record the URL.
    RecordFailed,
}

/// What the caller is to do next.
#[derive(Debug)]
pub enum Action {
    /// Fetch the feed at `url` of the site titled `site`.
    Fetch { site: String, url: String },
    /// Ask the store whether `url` is recorded.
    Check { url: String },
    /// Send `message`.
    Notify { message: Message },
    /// Record `url` under the site titled `site`.
    Record { site: String, url: String },
    /// Stop: the run is over.
    Exit(Exit),
}

/// Model of an [`Event`].
pub enum EventView {
    Fetched(Seq<ArticleView>),
    FetchFailed,
    Checked(bool),
    CheckFailed,
    Sent,
    SendFailed,
    Recorded,
    RecordFailed,
}

/// Model of an [`Action`].
pub enum ActionView {
    Fetch { site: Seq<char>, url: Seq<char> },
    Check { url: Seq<char> },
    Notify { subject: Seq<char>, body: Seq<char> },
    Record { site: Seq<char>, url: Seq<char> },
    Exit(Exit),
}

impl View for Event {
    type V = EventView;

    open spec fn view(&self) -> EventView {
        match self {
            Event::Fetched(a) => EventView::Fetched(a@.map_values(|x: Article| x@)),
            Event::FetchFailed => EventView::FetchFailed,
            Event::Checked(b) => EventView::Checked(*b),
            Event::CheckFailed => EventView::CheckFailed,
            Event::Sent => EventView::Sent,
            Event::SendFailed => EventView::SendFailed,
            Event::Recorded => EventView::Recorded,
            Event::RecordFailed => EventView::RecordFailed,
        }
    }
}

impl View for Action {
    type V = ActionView;

    open spec fn view(&self) -> ActionView {
        match self {
            Action::Fetch { site, url } => ActionView::Fetch { site: site@, url: url@ },
            Action::Check { url } => ActionView::Check { url: url@ },
            Action::Notify { message } => ActionView::Notify {
                subject: message.subject@,
                body: message.body@,
            },
            Action::Record { site, url } => ActionView::Record { site: site@, url: url@ },
            Action::Exit(x) => ActionView::Exit(*x),
        }
    }
}

/// Model of a [`Dispatch`]: the configured sites, the index of the current
/// site, its fetched articles, the index of the current article, the number
/// of notifications sent so far and what the machine waits for.
pub struct DispatchView {
    pub sites: Seq<SiteView>,
    pub site: nat,
    pub articles: Seq<ArticleView>,
    pub next: nat,
    pub sent: nat,
    pub phase: Phase,
}

impl DispatchView {
    /// The positions that each phase refers to exist, and the send count
    /// stays within the cap.
    pub open spec fn wf(self) -> bool {
        &&& self.sent <= MAX_MAILS
        &&& match self.phase {
            Phase::Fetch => self.site < self.sites.len(),
            Phase::Check | Phase::Send => {
                &&& self.site < self.sites.len()
                &&& self.next < self.articles.len()
                &&& self.sent < MAX_MAILS
            },
            Phase::Record => {
                &&& self.site < self.sites.len()
                &&& self.next < self.articles.len()
                &&& 0 < self.sent
            },
            Phase::Done(_) => true,
        }
    }

    /// From the current position, moves on: to the check of the current
    /// article, unless the cap is reached; or, when the site's articles are
    /// exhausted, to the next site's fetch, or to the end of the run.
    pub open spec fn settle(self) -> DispatchView {
        if self.next < self.articles.len() {
            if self.sent >= MAX_MAILS {
                DispatchView { phase: Phase::Done(Exit::CapReached), ..self }
            } else {
                DispatchView { phase: Phase::Check, ..self }
            }
        } else if self.site + 1 < self.sites.len() {
            DispatchView {
                site: self.site + 1,
                articles: Seq::empty(),
                next: 0,
                phase: Phase::Fetch,
                ..self
            }
        } else {
            DispatchView { phase: Phase::Done(Exit::Completed), ..self }
        }
    }

    /// The state after the caller reports `e`. An event that does not answer
    /// the pending action leaves the state as it is.
    pub open spec fn step(self, e: EventView) -> DispatchView {
        match (self.phase, e) {
            (Phase::Fetch, EventView::Fetched(a)) => DispatchView {
                articles: a,
                next: 0,
                ..self
            }.settle(),
            (Phase::Fetch, EventView::FetchFailed) => DispatchView {
                phase: Phase::Done(Exit::FetchFailed),
                ..self
            },
            (Phase::Check, EventView::Checked(true)) => DispatchView {
                next: self.next + 1,
                ..self
            }.settle(),
            (Phase::Check, EventView::Checked(false)) => DispatchView {
                phase: Phase::Send,
                ..self
            },
            (Phase::Check, EventView::CheckFailed) => DispatchView {
                phase: Phase::Done(Exit::StoreFailed),
                ..self
            },
            (Phase::Send, EventView::Sent) => DispatchView {
                sent: self.sent + 1,
                phase: Phase::Record,
                ..self
            },
            (Phase::Send, EventView::SendFailed) => DispatchView {
                phase: Phase::Done(Exit::NotifyFailed),
                ..self
            },
            (Phase::Record, EventView::Recorded) => DispatchView {
                next: self.next + 1,
                ..self
            }.settle(),
            (Phase::Record, EventView::RecordFailed) => DispatchView {
                phase: Phase::Done(Exit::StoreFailed),
                ..self
            },
            _ => self,
        }
    }

    /// The action the machine asks for in this state.
    pub open spec fn action(self) -> ActionView {
        match self.phase {
            Phase::Fetch => ActionView::Fetch {
                site: self.sites[self.site as int].title,
                url: self.sites[self.site as int].url,
            },
            Phase::Check => ActionView::Check { url: self.articles[self.next as int].url },
            Phase::Send => ActionView::Notify {
                subject: subject_of(
                    self.sites[self.site as int].title,
                    self.articles[self.next as int].title,
                ),
                body: self.articles[self.next as int].url,
            },
            Phase::Record => ActionView::Record {
                site: self.sites[self.site as int].title,
                url: self.articles[self.next as int].url,
            },
            Phase::Done(x) => ActionView::Exit(x),
        }
    }

    /// The state a run over `sites` starts in.
    pub open spec fn start(sites: Seq<SiteView>) -> DispatchView {
        if sites.len() == 0 {
            DispatchView {
                sites,
                site: 0,
                articles: Seq::empty(),
                next: 0,
                sent: 0,
                phase: Phase::Done(Exit::Completed),
            }
        } else {
            DispatchView {
                sites,
                site: 0,
                articles: Seq::empty(),
                next: 0,
                sent: 0,
                phase: Phase::Fetch,
            }
        }
    }
}

/// One run over the configured sites. Each site's feed is fetched in turn;
/// each of its articles, in feed order, is looked up in the store and, when
/// new, notified and then recorded. A run sends at most [`MAX_MAILS`]
/// notifications and ends at the first failure.
pub struct Dispatch {
    sites: Vec<Site>,
    site: usize,
    articles: Vec<Article>,
    next: usize,
    sent: usize,
    phase: Phase,
}

impl View for Dispatch {
    type V = DispatchView;

    closed spec fn view(&self) -> DispatchView {
        DispatchView {
            sites: self.sites@.map_values(|s: Site| s@),
            site: self.site as nat,
            articles: self.articles@.map_values(|a: Article| a@),
            next: self.next as nat,
            sent: self.sent as nat,
            phase: self.phase,
        }
    }
}

impl Dispatch {
    /// A run over `sites`, in the given order.
    pub fn new(sites: Vec<Site>) -> (r: Dispatch)
        ensures
            r@ == DispatchView::start(sites@.map_values(|s: Site| s@)),
            r@.wf(),
    {
        let phase = if sites.len() == 0 {
            Phase::Done(Exit::Completed)
        } else {
            Phase::Fetch
        };
        let r = Dispatch { sites, site: 0, articles: Vec::new(), next: 0, sent: 0, phase };
        assert(r@.articles =~= Seq::<ArticleView>::empty());
        r
    }

    /// Notifications sent so far in this run.
    pub fn sent(&self) -> (r: usize)
        ensures
            r == self@.sent,
    {
        self.sent
    }

    /// What the machine waits for.
    pub fn phase(&self) -> (r: Phase)
        ensures
            r == self@.phase,
    {
        self.phase
    }

    /// How the run ended, once it has.
    pub fn exit(&self) -> (r: Option<Exit>)
        ensures
            match self@.phase {
                Phase::Done(x) => r == Some(x),
                _ => r.is_none(),
            },
    {
        match self.phase {
            Phase::Done(x) => Some(x),
            _ => None,
        }
    }

    /// The action the caller is to carry out next.
    pub fn action(&self) -> (r: Action)
        requires
            self@.wf(),
        ensures
            r@ == self@.action(),
    {
        match self.phase {
            Phase::Fetch => Action::Fetch {
                site: self.sites[self.site].title.clone(),
                url: self.sites[self.site].url.clone(),
            },
            Phase::Check => Action::Check { url: self.articles[self.next].url.clone() },
            Phase::Send => Action::Notify {
                message: message_for(&self.sites[self.site], &self.articles[self.next]),
            },
            Phase::Record => Action::Record {
                site: self.sites[self.site].title.clone(),
                url: self.articles[self.next].url.clone(),
            },
            Phase::Done(x) => Action::Exit(x),
        }
    }

    fn settle(&mut self)
        requires
            old(self)@.sent <= MAX_MAILS,
            old(self)@.site < old(self)@.sites.len(),
            old(self)@.next <= old(self)@.articles.len(),
        ensures
            final(self)@ == old(self)@.settle(),
            final(self)@.wf(),
    {
        if self.next < self.articles.len() {
            if self.sent >= MAX_MAILS {
                self.phase = Phase::Done(Exit::CapReached);
            } else {
                self.phase = Phase::Check;
            }
        } else if self.site < self.sites.len() - 1 {
            self.site = self.site + 1;
            self.articles = Vec::new();
            self.next = 0;
            self.phase = Phase::Fetch;
            assert(self@.articles =~= Seq::<ArticleView>::empty());
        } else {
            self.phase = Phase::Done(Exit::Completed);
        }
    }

    /// Takes in the outcome of the last action and moves to the next state.
    pub fn step(&mut self, event: Event)
        requires
            old(self)@.wf(),
        ensures
            final(self)@ == old(self)@.step(event@),
            final(self)@.wf(),
    {
        match (self.phase, event) {
            (Phase::Fetch, Event::Fetched(a)) => {
                self.articles = a;
                self.next = 0;
                self.settle();
            },
            (Phase::Fetch, Event::FetchFailed) => {
                self.phase = Phase::Done(Exit::FetchFailed);
            },
            (Phase::Check, Event::Checked(seen)) => {
                if seen {
                    let len = self.articles.len();
                assert(self.next < len);
                    self.next = self.next + 1;
                    self.settle();
                } else {
                    self.phase = Phase::Send;
                }
            },
            (Phase::Check, Event::CheckFailed) => {
                self.phase = Phase::Done(Exit::StoreFailed);
            },
            (Phase::Send, Event::Sent) => {
                self.sent = self.sent + 1;
                self.phase = Phase::Record;
            },
            (Phase::Send, Event::SendFailed) => {
                self.phase = Phase::Done(Exit::NotifyFailed);
            },
            (Phase::Record, Event::Recorded) => {
                let len = self.articles.len();
                assert(self.next < len);
                self.next = self.next + 1;
                self.settle();
            },
            (Phase::Record, Event::RecordFailed) => {
                self.phase = Phase::Done(Exit::StoreFailed);
            },
            _ => {},
        }
    }
}

} // verus!
