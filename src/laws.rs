use vstd::prelude::*;

use crate::dispatch::{DispatchView, EventView, Exit, Phase, MAX_MAILS};

verus! {

/// Sites are visited in their configured order and the articles of a site in
/// feed order, one at a time: a step stays on the current site and moves at
/// most one article on, or goes to the next site, and only once the current
/// site's last article has been handled (or its feed was empty). A finished
/// run stays finished.
pub proof fn lemma_step_in_order(d: DispatchView, e: EventView)
    requires
        d.wf(),
    ensures
        d.phase is Done ==> d.step(e) == d,
        d.step(e).sites == d.sites,
        d.step(e).site == d.site || d.step(e).site == d.site + 1,
        d.step(e).site == d.site && !(d.phase is Fetch) ==> {
            &&& d.step(e).articles == d.articles
            &&& d.next <= d.step(e).next <= d.next + 1
        },
        d.step(e).site == d.site + 1 ==> {
            &&& d.step(e).phase is Fetch
            &&& d.step(e).next == 0
            &&& d.phase is Fetch ==> (e matches EventView::Fetched(a) && a.len() == 0)
            &&& !(d.phase is Fetch) ==> d.next + 1 == d.articles.len()
        },
{
}

/// Notifications are counted one per successful send, and never exceed the
/// cap: once it is reached no further article is looked up or notified, and
/// the run ends, with success, when the next article comes up.
pub proof fn lemma_step_cap(d: DispatchView, e: EventView)
    requires
        d.wf(),
    ensures
        d.step(e).wf(),
        d.step(e).sent <= MAX_MAILS,
        d.step(e).sent == d.sent + 1 <==> (d.phase is Send && e is Sent),
        d.step(e).sent != d.sent + 1 ==> d.step(e).sent == d.sent,
        d.step(e).sent == MAX_MAILS ==> !(d.step(e).phase is Check) && !(d.step(e).phase
            is Send),
        d.sent == MAX_MAILS && d.phase is Record && e is Recorded && d.next + 1 < d.articles.len()
            ==> d.step(e).phase == Phase::Done(Exit::CapReached),
        d.sent == MAX_MAILS && d.phase is Fetch && (e matches EventView::Fetched(a) && a.len()
            > 0) ==> d.step(e).phase == Phase::Done(Exit::CapReached),
{
}

/// A failed send ends the run at once with a failure status: the article is
/// not recorded and nothing after it is considered.
pub proof fn lemma_step_send_failure_is_fatal(d: DispatchView, e: EventView)
    requires
        d.wf(),
        d.phase is Send,
        e is SendFailed,
    ensures
        d.step(e).phase == Phase::Done(Exit::NotifyFailed),
        !Exit::NotifyFailed.is_success(),
        d.step(e).sent == d.sent,
        d.step(e).site == d.site,
        d.step(e).next == d.next,
{
}

} // verus!
