use vstd::prelude::*;

use crate::dispatch::{DispatchView, EventView, Exit, Phase, MAX_MAILS};
use crate::model::{ArticleView, SiteView};

verus! {

/// A model of what the caller's collaborators answer: the articles each
/// site's feed yields (by site position), the URLs the store holds, how many
/// more messages the notifier accepts, and the URLs notified so far.
pub struct World {
    pub feeds: Seq<Seq<ArticleView>>,
    pub store: Set<Seq<char>>,
    pub sends_ok: nat,
    pub outbox: Seq<Seq<char>>,
}

/// The event `w` answers to the action of `d`, and the world after it.
pub open spec fn answer(d: DispatchView, w: World) -> (EventView, World) {
    match d.phase {
        Phase::Fetch => if d.site < w.feeds.len() {
            (EventView::Fetched(w.feeds[d.site as int]), w)
        } else {
            (EventView::FetchFailed, w)
        },
        Phase::Check => (EventView::Checked(w.store.contains(d.articles[d.next as int].url)), w),
        Phase::Send => if w.sends_ok > 0 {
            (
                EventView::Sent,
                World {
                    sends_ok: (w.sends_ok - 1) as nat,
                    outbox: w.outbox.push(d.articles[d.next as int].url),
                    ..w
                },
            )
        } else {
            (EventView::SendFailed, w)
        },
        Phase::Record => (
            EventView::Recorded,
            World { store: w.store.insert(d.articles[d.next as int].url), ..w },
        ),
        Phase::Done(_) => (EventView::Recorded, w),
    }
}

/// The machine driven by `w` for at most `fuel` steps, or until it is done.
pub open spec fn run(d: DispatchView, w: World, fuel: nat) -> (DispatchView, World)
    decreases fuel,
{
    if fuel == 0 || d.phase is Done {
        (d, w)
    } else {
        run(d.step(answer(d, w).0), answer(d, w).1, (fuel - 1) as nat)
    }
}

/// Every article of the sites before `site`, and the first `next` articles
/// of site `site`, have their URL in `store`.
pub open spec fn recorded_up_to(
    feeds: Seq<Seq<ArticleView>>,
    site: int,
    next: int,
    store: Set<Seq<char>>,
) -> bool {
    forall|i: int, k: int|
        0 <= i < feeds.len() && 0 <= k < feeds[i].len() && (i < site || (i == site && k < next))
            ==> #[trigger] store.contains(feeds[i][k].url)
}

/// Every URL that any feed yields is in `store`.
pub open spec fn all_recorded(feeds: Seq<Seq<ArticleView>>, store: Set<Seq<char>>) -> bool {
    recorded_up_to(feeds, feeds.len() as int, 0, store)
}

/// What holds along a run: everything passed is in the store, and once the
/// run completes, everything is.
pub open spec fn passed_recorded(d: DispatchView, w: World) -> bool {
    &&& d.wf()
    &&& d.sites.len() == w.feeds.len()
    &&& match d.phase {
        Phase::Fetch => recorded_up_to(w.feeds, d.site as int, 0, w.store),
        Phase::Check | Phase::Send | Phase::Record => {
            &&& d.articles == w.feeds[d.site as int]
            &&& recorded_up_to(w.feeds, d.site as int, d.next as int, w.store)
        },
        Phase::Done(Exit::Completed) => all_recorded(w.feeds, w.store),
        Phase::Done(_) => true,
    }
}

proof fn lemma_recorded_grow(
    feeds: Seq<Seq<ArticleView>>,
    site: int,
    next: int,
    store: Set<Seq<char>>,
    more: Set<Seq<char>>,
)
    requires
        recorded_up_to(feeds, site, next, store),
        store.subset_of(more),
    ensures
        recorded_up_to(feeds, site, next, more),
{
    assert forall|i: int, k: int|
        0 <= i < feeds.len() && 0 <= k < feeds[i].len() && (i < site || (i == site && k < next))
            implies #[trigger] more.contains(feeds[i][k].url) by {
        assert(store.contains(feeds[i][k].url));
    }
}

proof fn lemma_settle_keeps(d: DispatchView, w: World)
    requires
        d.sent <= crate::dispatch::MAX_MAILS,
        d.sites.len() == w.feeds.len(),
        d.site < d.sites.len(),
        d.articles == w.feeds[d.site as int],
        d.next <= d.articles.len(),
        recorded_up_to(w.feeds, d.site as int, d.next as int, w.store),
    ensures
        passed_recorded(d.settle(), w),
{
    let s = d.settle();
    if d.next < d.articles.len() {
    } else {
        assert forall|i: int, k: int|
            0 <= i < w.feeds.len() && 0 <= k < w.feeds[i].len() && (i < d.site + 1)
                implies #[trigger] w.store.contains(w.feeds[i][k].url) by {
            if i == d.site as int {
                assert(k < d.next);
            }
        }
    }
}

proof fn lemma_passed_recorded_step(d: DispatchView, w: World)
    requires
        passed_recorded(d, w),
        !(d.phase is Done),
    ensures
        passed_recorded(d.step(answer(d, w).0), answer(d, w).1),
        answer(d, w).1.feeds == w.feeds,
        w.store.subset_of(answer(d, w).1.store),
{
    let (e, w2) = answer(d, w);
    match d.phase {
        Phase::Fetch => {
            lemma_settle_keeps(DispatchView { articles: w.feeds[d.site as int], next: 0, ..d }, w);
        },
        Phase::Check => {
            if w.store.contains(d.articles[d.next as int].url) {
                let d1 = DispatchView { next: d.next + 1, ..d };
                assert forall|i: int, k: int|
                    0 <= i < w.feeds.len() && 0 <= k < w.feeds[i].len() && (i < d1.site || (i
                        == d1.site && k < d1.next)) implies #[trigger] w.store.contains(
                    w.feeds[i][k].url,
                ) by {
                    if i == d.site as int && k == d.next as int {
                    }
                }
                lemma_settle_keeps(d1, w);
            }
        },
        Phase::Send => {},
        Phase::Record => {
            let url = d.articles[d.next as int].url;
            lemma_recorded_grow(w.feeds, d.site as int, d.next as int, w.store, w2.store);
            let d1 = DispatchView { next: d.next + 1, ..d };
            assert forall|i: int, k: int|
                0 <= i < w.feeds.len() && 0 <= k < w.feeds[i].len() && (i < d1.site || (i
                    == d1.site && k < d1.next)) implies #[trigger] w2.store.contains(
                w.feeds[i][k].url,
            ) by {
                if i == d.site as int && k == d.next as int {
                } else {
                    assert(w.store.contains(w.feeds[i][k].url));
                }
            }
            lemma_settle_keeps(d1, w2);
        },
        Phase::Done(_) => {},
    }
}

proof fn lemma_passed_recorded_run(d: DispatchView, w: World, fuel: nat)
    requires
        passed_recorded(d, w),
    ensures
        passed_recorded(run(d, w, fuel).0, run(d, w, fuel).1),
        run(d, w, fuel).1.feeds == w.feeds,
    decreases fuel,
{
    if fuel == 0 || d.phase is Done {
    } else {
        lemma_passed_recorded_step(d, w);
        lemma_passed_recorded_run(d.step(answer(d, w).0), answer(d, w).1, (fuel - 1) as nat);
    }
}

/// What holds along a run over feeds whose every URL is already stored:
/// nothing is sent, the store and the outbox stay as they were.
pub open spec fn silent(d: DispatchView, w: World, store: Set<Seq<char>>, outbox: Seq<Seq<char>>) -> bool {
    &&& d.wf()
    &&& d.sites.len() == w.feeds.len()
    &&& all_recorded(w.feeds, w.store)
    &&& w.store == store
    &&& w.outbox == outbox
    &&& d.sent == 0
    &&& !(d.phase is Send)
    &&& !(d.phase is Record)
    &&& d.phase is Check ==> d.articles == w.feeds[d.site as int]
}

proof fn lemma_silent_run(
    d: DispatchView,
    w: World,
    store: Set<Seq<char>>,
    outbox: Seq<Seq<char>>,
    fuel: nat,
)
    requires
        silent(d, w, store, outbox),
    ensures
        silent(run(d, w, fuel).0, run(d, w, fuel).1, store, outbox),
    decreases fuel,
{
    if fuel == 0 || d.phase is Done {
    } else {
        if d.phase is Check {
            let i = d.site as int;
            let k = d.next as int;
            assert(w.store.contains(w.feeds[i][k].url));
        }
        lemma_silent_run(d.step(answer(d, w).0), answer(d, w).1, store, outbox, (fuel - 1) as nat);
    }
}

/// Two runs over the same sites and unchanged feeds, the store kept between
/// them: when the first run completes, the second sends nothing and writes
/// nothing to the store.
pub proof fn lemma_rerun_sends_nothing(sites: Seq<SiteView>, w: World, fuel1: nat, fuel2: nat)
    requires
        sites.len() == w.feeds.len(),
        run(DispatchView::start(sites), w, fuel1).0.phase == Phase::Done(Exit::Completed),
    ensures
        ({
            let w1 = run(DispatchView::start(sites), w, fuel1).1;
            let r2 = run(DispatchView::start(sites), w1, fuel2);
            &&& w1.feeds == w.feeds
            &&& r2.0.sent == 0
            &&& r2.1.store == w1.store
            &&& r2.1.outbox == w1.outbox
        }),
{
    let d0 = DispatchView::start(sites);
    lemma_passed_recorded_run(d0, w, fuel1);
    let w1 = run(d0, w, fuel1).1;
    lemma_silent_run(d0, w1, w1.store, w1.outbox, fuel2);
}

/// The URLs of `a`, in order.
pub open spec fn urls(a: Seq<ArticleView>) -> Seq<Seq<char>> {
    a.map_values(|x: ArticleView| x.url)
}

/// The URLs of the feeds of sites `site` onwards, site after site, each feed
/// in its own order.
pub open spec fn urls_from(feeds: Seq<Seq<ArticleView>>, site: int) -> Seq<Seq<char>>
    decreases feeds.len() - site,
{
    if site < 0 || site >= feeds.len() {
        Seq::empty()
    } else {
        urls(feeds[site]) + urls_from(feeds, site + 1)
    }
}

/// The URLs still ahead of position (`site`, `next`).
pub open spec fn urls_ahead(feeds: Seq<Seq<ArticleView>>, site: int, next: int) -> Seq<Seq<char>> {
    urls(feeds[site]).skip(next) + urls_from(feeds, site + 1)
}

/// The URLs of `s` that are to be notified, in order: those not in `store`,
/// each only at its first occurrence.
pub open spec fn fresh(s: Seq<Seq<char>>, store: Set<Seq<char>>) -> Seq<Seq<char>>
    decreases s.len(),
{
    if s.len() == 0 {
        Seq::empty()
    } else if store.contains(s[0]) {
        fresh(s.drop_first(), store)
    } else {
        seq![s[0]] + fresh(s.drop_first(), store.insert(s[0]))
    }
}

/// What holds along a run: what was sent, followed by what is still to be
/// sent from the current position, is the list `total`.
pub open spec fn sends_in_order(d: DispatchView, w: World, total: Seq<Seq<char>>) -> bool {
    &&& d.wf()
    &&& d.sites.len() == w.feeds.len()
    &&& match d.phase {
        Phase::Fetch => total == w.outbox + fresh(urls_from(w.feeds, d.site as int), w.store),
        Phase::Check => {
            &&& d.articles == w.feeds[d.site as int]
            &&& total == w.outbox + fresh(
                urls_ahead(w.feeds, d.site as int, d.next as int),
                w.store,
            )
        },
        Phase::Send => {
            &&& d.articles == w.feeds[d.site as int]
            &&& !w.store.contains(d.articles[d.next as int].url)
            &&& total == w.outbox + fresh(
                urls_ahead(w.feeds, d.site as int, d.next as int),
                w.store,
            )
        },
        Phase::Record => {
            &&& d.articles == w.feeds[d.site as int]
            &&& total == w.outbox + fresh(
                urls_ahead(w.feeds, d.site as int, d.next as int + 1),
                w.store.insert(d.articles[d.next as int].url),
            )
        },
        Phase::Done(Exit::Completed) => total == w.outbox,
        Phase::Done(_) => w.outbox.is_prefix_of(total),
    }
}

proof fn lemma_ahead_step(feeds: Seq<Seq<ArticleView>>, site: int, next: int)
    requires
        0 <= site < feeds.len(),
        0 <= next < feeds[site].len(),
    ensures
        urls_ahead(feeds, site, next) == seq![feeds[site][next].url] + urls_ahead(
            feeds,
            site,
            next + 1,
        ),
{
    assert(urls_ahead(feeds, site, next) =~= seq![feeds[site][next].url] + urls_ahead(
        feeds,
        site,
        next + 1,
    ));
}

proof fn lemma_ahead_end(feeds: Seq<Seq<ArticleView>>, site: int)
    requires
        0 <= site < feeds.len(),
    ensures
        urls_ahead(feeds, site, feeds[site].len() as int) == urls_from(feeds, site + 1),
        urls_ahead(feeds, site, 0) == urls_from(feeds, site),
{
    assert(urls_ahead(feeds, site, feeds[site].len() as int) =~= urls_from(feeds, site + 1));
    assert(urls_ahead(feeds, site, 0) =~= urls_from(feeds, site));
}

proof fn lemma_prefix_of_sum(a: Seq<Seq<char>>, b: Seq<Seq<char>>)
    ensures
        a.is_prefix_of(a + b),
{
    assert(a =~= (a + b).subrange(0, a.len() as int));
}

proof fn lemma_settle_in_order(d: DispatchView, w: World, total: Seq<Seq<char>>)
    requires
        d.sent <= crate::dispatch::MAX_MAILS,
        d.sites.len() == w.feeds.len(),
        d.site < d.sites.len(),
        d.articles == w.feeds[d.site as int],
        d.next <= d.articles.len(),
        total == w.outbox + fresh(urls_ahead(w.feeds, d.site as int, d.next as int), w.store),
    ensures
        sends_in_order(d.settle(), w, total),
{
    if d.next < d.articles.len() {
        lemma_prefix_of_sum(
            w.outbox,
            fresh(urls_ahead(w.feeds, d.site as int, d.next as int), w.store),
        );
    } else {
        lemma_ahead_end(w.feeds, d.site as int);
        if d.site + 1 >= d.sites.len() {
            assert(urls_from(w.feeds, d.site as int + 1) == Seq::<Seq<char>>::empty());
            assert(total =~= w.outbox);
        }
    }
}

proof fn lemma_in_order_step(d: DispatchView, w: World, total: Seq<Seq<char>>)
    requires
        sends_in_order(d, w, total),
        !(d.phase is Done),
    ensures
        sends_in_order(d.step(answer(d, w).0), answer(d, w).1, total),
        answer(d, w).1.feeds == w.feeds,
{
    let (e, w2) = answer(d, w);
    match d.phase {
        Phase::Fetch => {
            lemma_ahead_end(w.feeds, d.site as int);
            lemma_settle_in_order(
                DispatchView { articles: w.feeds[d.site as int], next: 0, ..d },
                w,
                total,
            );
        },
        Phase::Check => {
            let url = d.articles[d.next as int].url;
            lemma_ahead_step(w.feeds, d.site as int, d.next as int);
            let ahead = urls_ahead(w.feeds, d.site as int, d.next as int);
            assert(ahead.drop_first() =~= urls_ahead(w.feeds, d.site as int, d.next as int + 1));
            if w.store.contains(url) {
                lemma_settle_in_order(DispatchView { next: d.next + 1, ..d }, w, total);
            }
        },
        Phase::Send => {
            let url = d.articles[d.next as int].url;
            lemma_ahead_step(w.feeds, d.site as int, d.next as int);
            let ahead = urls_ahead(w.feeds, d.site as int, d.next as int);
            assert(ahead.drop_first() =~= urls_ahead(w.feeds, d.site as int, d.next as int + 1));
            let later = fresh(urls_ahead(w.feeds, d.site as int, d.next as int + 1), w.store.insert(url));
            assert(fresh(ahead, w.store) == seq![url] + later);
            if w.sends_ok > 0 {
                assert(total =~= w.outbox.push(url) + later);
            } else {
                lemma_prefix_of_sum(w.outbox, fresh(ahead, w.store));
            }
        },
        Phase::Record => {
            lemma_settle_in_order(DispatchView { next: d.next + 1, ..d }, w2, total);
        },
        Phase::Done(_) => {},
    }
}

proof fn lemma_in_order_run(d: DispatchView, w: World, total: Seq<Seq<char>>, fuel: nat)
    requires
        sends_in_order(d, w, total),
    ensures
        sends_in_order(run(d, w, fuel).0, run(d, w, fuel).1, total),
    decreases fuel,
{
    if fuel == 0 || d.phase is Done {
    } else {
        lemma_in_order_step(d, w, total);
        lemma_in_order_run(d.step(answer(d, w).0), answer(d, w).1, total, (fuel - 1) as nat);
    }
}

/// Whatever the cap or the notifier's failures, a run notifies articles in
/// site order and, within a site, in feed order, skipping none that is new:
/// what it sends is a prefix of the list of new URLs (not in the store, each
/// once) taken site after site. A completed run sends that whole list.
pub proof fn lemma_run_in_feed_order(sites: Seq<SiteView>, w: World, fuel: nat)
    requires
        sites.len() == w.feeds.len(),
        w.outbox.len() == 0,
    ensures
        ({
            let r = run(DispatchView::start(sites), w, fuel);
            let total = fresh(urls_from(w.feeds, 0), w.store);
            &&& r.1.outbox.is_prefix_of(total)
            &&& r.0.phase == Phase::Done(Exit::Completed) ==> r.1.outbox == total
        }),
{
    let d0 = DispatchView::start(sites);
    let total = fresh(urls_from(w.feeds, 0), w.store);
    assert(w.outbox + total =~= total);
    if sites.len() == 0 {
        assert(total =~= w.outbox);
    }
    lemma_in_order_run(d0, w, total, fuel);
    let r = run(d0, w, fuel);
    if !(r.0.phase is Done) {
        match r.0.phase {
            Phase::Fetch => lemma_prefix_of_sum(
                r.1.outbox,
                fresh(urls_from(w.feeds, r.0.site as int), r.1.store),
            ),
            Phase::Check | Phase::Send => lemma_prefix_of_sum(
                r.1.outbox,
                fresh(urls_ahead(w.feeds, r.0.site as int, r.0.next as int), r.1.store),
            ),
            Phase::Record => lemma_prefix_of_sum(
                r.1.outbox,
                fresh(
                    urls_ahead(w.feeds, r.0.site as int, r.0.next as int + 1),
                    r.1.store.insert(r.0.articles[r.0.next as int].url),
                ),
            ),
            _ => {},
        }
    } else if r.0.phase == Phase::Done(Exit::Completed) {
    } else {
    }
}

/// What holds along a run started with an empty outbox: one message in it
/// per counted send, and a run stopped at the cap has sent the full count.
pub open spec fn counted(d: DispatchView, w: World) -> bool {
    &&& d.wf()
    &&& w.outbox.len() == d.sent
    &&& d.phase == Phase::Done(Exit::CapReached) ==> d.sent == MAX_MAILS
}

proof fn lemma_counted_run(d: DispatchView, w: World, fuel: nat)
    requires
        counted(d, w),
    ensures
        counted(run(d, w, fuel).0, run(d, w, fuel).1),
    decreases fuel,
{
    if fuel == 0 || d.phase is Done {
    } else {
        lemma_counted_run(d.step(answer(d, w).0), answer(d, w).1, (fuel - 1) as nat);
    }
}

/// A run never sends more than [`MAX_MAILS`] messages. When the feeds hold
/// at least that many new articles, a run that ends without failure has
/// sent exactly the first [`MAX_MAILS`] of them; when they hold more, it
/// ended by reaching the cap, which counts as success.
pub proof fn lemma_run_capped(sites: Seq<SiteView>, w: World, fuel: nat)
    requires
        sites.len() == w.feeds.len(),
        w.outbox.len() == 0,
    ensures
        ({
            let r = run(DispatchView::start(sites), w, fuel);
            let total = fresh(urls_from(w.feeds, 0), w.store);
            &&& r.1.outbox.len() == r.0.sent
            &&& r.0.sent <= MAX_MAILS
            &&& total.len() >= MAX_MAILS && (r.0.phase matches Phase::Done(x) && x.is_success())
                ==> r.1.outbox == total.take(MAX_MAILS as int)
            &&& total.len() > MAX_MAILS && (r.0.phase matches Phase::Done(x) && x.is_success())
                ==> r.0.phase == Phase::Done(Exit::CapReached)
        }),
{
    let d0 = DispatchView::start(sites);
    let total = fresh(urls_from(w.feeds, 0), w.store);
    lemma_counted_run(d0, w, fuel);
    lemma_run_in_feed_order(sites, w, fuel);
    let r = run(d0, w, fuel);
    if total.len() >= MAX_MAILS && (r.0.phase matches Phase::Done(x) && x.is_success()) {
        if r.0.phase == Phase::Done(Exit::CapReached) {
            assert(r.1.outbox =~= total.take(MAX_MAILS as int));
        } else {
            assert(r.1.outbox == total);
            assert(r.1.outbox =~= total.take(MAX_MAILS as int));
        }
    }
}

/// What holds along a run started with an empty outbox, against a notifier
/// that accepts `limit` messages in all: the store holds what it held at the
/// start plus what was sent (once recorded), and no fetch or store failure
/// comes up.
pub open spec fn limited(d: DispatchView, w: World, store: Set<Seq<char>>, limit: nat) -> bool {
    &&& counted(d, w)
    &&& d.sites.len() == w.feeds.len()
    &&& w.sends_ok + w.outbox.len() == limit
    &&& d.phase != Phase::Done(Exit::FetchFailed)
    &&& d.phase != Phase::Done(Exit::StoreFailed)
    &&& d.phase == Phase::Done(Exit::NotifyFailed) ==> w.sends_ok == 0
    &&& !(d.phase is Record) ==> w.store == store.union(w.outbox.to_set())
    &&& d.phase is Record ==> {
        &&& w.outbox.len() > 0
        &&& w.outbox.last() == d.articles[d.next as int].url
        &&& w.store.insert(w.outbox.last()) == store.union(w.outbox.to_set())
    }
}

proof fn lemma_limited_run(d: DispatchView, w: World, store: Set<Seq<char>>, limit: nat, fuel: nat)
    requires
        limited(d, w, store, limit),
    ensures
        limited(run(d, w, fuel).0, run(d, w, fuel).1, store, limit),
    decreases fuel,
{
    if fuel == 0 || d.phase is Done {
    } else {
        let (e, w2) = answer(d, w);
        if d.phase is Send && w.sends_ok > 0 {
            let url = d.articles[d.next as int].url;
            w.outbox.lemma_push_to_set_commute(url);
            assert(w2.outbox.last() == url);
            assert(w2.store.insert(url) =~= store.union(w2.outbox.to_set()));
        }
        if d.phase is Record {
            assert(w2.store =~= store.union(w2.outbox.to_set()));
        }
        lemma_limited_run(d.step(e), w2, store, limit, (fuel - 1) as nat);
    }
}

/// A notifier that fails after accepting `w.sends_ok` messages, fewer than
/// the cap and than the new articles, ends the run with a failure status:
/// the first `w.sends_ok` new articles were sent and recorded, and nothing
/// after the failed one was considered.
pub proof fn lemma_run_send_failure(sites: Seq<SiteView>, w: World, fuel: nat)
    requires
        sites.len() == w.feeds.len(),
        w.outbox.len() == 0,
        w.sends_ok < MAX_MAILS,
        w.sends_ok < fresh(urls_from(w.feeds, 0), w.store).len(),
    ensures
        ({
            let r = run(DispatchView::start(sites), w, fuel);
            let sent = fresh(urls_from(w.feeds, 0), w.store).take(w.sends_ok as int);
            r.0.phase is Done ==> {
                &&& r.0.phase == Phase::Done(Exit::NotifyFailed)
                &&& !Exit::NotifyFailed.is_success()
                &&& r.1.outbox == sent
                &&& r.1.store == w.store.union(sent.to_set())
            }
        }),
{
    let d0 = DispatchView::start(sites);
    let total = fresh(urls_from(w.feeds, 0), w.store);
    assert(w.outbox.to_set() =~= Set::<Seq<char>>::empty());
    assert(w.store =~= w.store.union(w.outbox.to_set()));
    lemma_limited_run(d0, w, w.store, w.sends_ok, fuel);
    lemma_run_in_feed_order(sites, w, fuel);
    let r = run(d0, w, fuel);
    if r.0.phase is Done {
        assert(r.0.phase != Phase::Done(Exit::Completed));
        assert(r.0.phase != Phase::Done(Exit::CapReached));
        assert(r.1.outbox.len() == w.sends_ok);
        assert(r.1.outbox =~= total.take(w.sends_ok as int));
    }
}

} // verus!
