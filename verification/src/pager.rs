//! The paginated lister: a pull-based state machine that walks a paged,
//! server-driven listing one fetch at a time.
//!
//! The caller owns the fetch itself (one RPC per page); this module owns the
//! cursor, decides the request for the next page, records every page that
//! arrives, and stops as soon as a page carries an empty next-page token.
//! Because the next request exists only after the previous page was
//! consumed, a caller that stops early never causes further fetches.

use vstd::prelude::*;

verus! {

/// The request shape of one page fetch: parent resource, server-chosen page
/// size (always zero here), cursor, and optional filter.
pub struct PageRequest {
    pub parent: String,
    pub page_size: i32,
    pub page_token: String,
    pub filter: String,
}

/// The failure of a page fetch, carrying the transport's diagnostic text.
pub struct ListFailed {
    pub cause: String,
}

/// One fetched page, as the specification sees it: the items it yielded and
/// the next-page token it carried (empty means no more pages).
pub ghost struct PageModel<T> {
    pub items: Seq<T>,
    pub next_token: Seq<char>,
}

/// The lister's abstract state: the pending cursor, whether the listing is
/// over (exhausted or failed), how many fetches happened, and every item
/// yielded so far in arrival order.
pub ghost struct PagerModel<T> {
    pub token: Seq<char>,
    pub finished: bool,
    pub failed: bool,
    pub fetches: nat,
    pub yielded: Seq<T>,
}

/// The state before any fetch: empty cursor, nothing yielded.
pub open spec fn init_model<T>() -> PagerModel<T> {
    PagerModel { token: Seq::empty(), finished: false, failed: false, fetches: 0, yielded: Seq::empty() }
}

/// One successful fetch: the page's items are appended to the yielded
/// sequence, the cursor becomes the page's next-page token, and the listing
/// finishes exactly when that token is empty.
pub open spec fn step<T>(m: PagerModel<T>, p: PageModel<T>) -> PagerModel<T> {
    PagerModel {
        token: p.next_token,
        finished: p.next_token.len() == 0,
        failed: false,
        fetches: m.fetches + 1,
        yielded: m.yielded + p.items,
    }
}

/// The state after accepting the given pages in order.
pub open spec fn run<T>(m: PagerModel<T>, pages: Seq<PageModel<T>>) -> PagerModel<T>
    decreases pages.len(),
{
    if pages.len() == 0 {
        m
    } else {
        run(step(m, pages[0]), pages.drop_first())
    }
}

/// All items of the given pages, concatenated in page order.
pub open spec fn flat_items<T>(pages: Seq<PageModel<T>>) -> Seq<T>
    decreases pages.len(),
{
    if pages.len() == 0 {
        Seq::empty()
    } else {
        pages[0].items + flat_items(pages.drop_first())
    }
}

/// The paginated lister over items of type `T`.
pub struct Pager<T> {
    parent: String,
    filter: String,
    token: String,
    finished: bool,
    failed: bool,
    fetches: Ghost<nat>,
    yielded: Ghost<Seq<T>>,
}

impl<T> Pager<T> {
    /// The lister's abstract state.
    pub closed spec fn model(&self) -> PagerModel<T> {
        PagerModel {
            token: self.token@,
            finished: self.finished,
            failed: self.failed,
            fetches: self.fetches@,
            yielded: self.yielded@,
        }
    }

    /// The parent resource all requests name.
    pub closed spec fn spec_parent(&self) -> Seq<char> {
        self.parent@
    }

    /// The filter all requests carry.
    pub closed spec fn spec_filter(&self) -> Seq<char> {
        self.filter@
    }

    /// A fresh lister for the given parent resource and filter; no page has
    /// been fetched yet.
    pub fn new(parent: String, filter: String) -> (pager: Pager<T>)
        ensures
            pager.model() == init_model::<T>(),
            pager.spec_parent() == parent@,
            pager.spec_filter() == filter@,
    {
        let pager = Pager {
            parent,
            filter,
            token: String::new(),
            finished: false,
            failed: false,
            fetches: Ghost(0),
            yielded: Ghost(Seq::empty()),
        };
        proof {
            assert(pager.model() == init_model::<T>());
        }
        pager
    }

    /// Whether another page remains to be fetched: true until a page with an
    /// empty next-page token arrives or a fetch fails.
    pub fn has_more(&self) -> (r: bool)
        ensures
            r == (!self.model().finished && !self.model().failed),
    {
        !self.finished && !self.failed
    }

    /// The request for the next page: the stored parent and filter, a zero
    /// page size (the server chooses), and the pending cursor.
    pub fn next_request(&self) -> (req: PageRequest)
        requires
            !self.model().finished,
            !self.model().failed,
        ensures
            req.parent@ == self.spec_parent(),
            req.page_size == 0,
            req.page_token@ == self.model().token,
            req.filter@ == self.spec_filter(),
    {
        PageRequest {
            parent: self.parent.clone(),
            page_size: 0,
            page_token: self.token.clone(),
            filter: self.filter.clone(),
        }
    }

    /// Records one successfully fetched page: its items join the yielded
    /// sequence, and the listing finishes exactly when its next-page token
    /// is empty.
    pub fn accept_page(&mut self, items: &Vec<T>, next_token: String)
        requires
            !old(self).model().finished,
            !old(self).model().failed,
        ensures
            final(self).model() == step(
                old(self).model(),
                PageModel { items: items@, next_token: next_token@ },
            ),
            final(self).spec_parent() == old(self).spec_parent(),
            final(self).spec_filter() == old(self).spec_filter(),
    {
        let done = next_token.as_str().is_empty();
        self.finished = done;
        self.token = next_token;
        proof {
            self.fetches@ = self.fetches@ + 1;
            self.yielded@ = self.yielded@ + items@;
        }
        proof {
            assert(final(self).model() == step(
                old(self).model(),
                PageModel { items: items@, next_token: self.token@ },
            ));
        }
    }

    /// Records a failed page fetch and hands back the error the listing
    /// surfaces: the fetch counts, nothing new is yielded, and no further
    /// request will be made.
    pub fn fail(&mut self, cause: String) -> (err: ListFailed)
        requires
            !old(self).model().finished,
            !old(self).model().failed,
        ensures
            final(self).model().failed,
            !final(self).model().finished,
            final(self).model().token == old(self).model().token,
            final(self).model().fetches == old(self).model().fetches + 1,
            final(self).model().yielded == old(self).model().yielded,
            final(self).spec_parent() == old(self).spec_parent(),
            final(self).spec_filter() == old(self).spec_filter(),
            err.cause == cause,
    {
        self.failed = true;
        proof {
            self.fetches@ = self.fetches@ + 1;
        }
        ListFailed { cause }
    }
}

/// How a run composes: the yielded items are the starting items plus every
/// page's items in order, each accepted page is one fetch, and the state is
/// finished exactly when the last accepted page carried an empty token.
pub proof fn lemma_run_unrolled<T>(m: PagerModel<T>, pages: Seq<PageModel<T>>)
    ensures
        run(m, pages).yielded == m.yielded + flat_items(pages),
        run(m, pages).fetches == m.fetches + pages.len(),
        pages.len() > 0 ==> run(m, pages).finished == (pages.last().next_token.len() == 0),
        pages.len() > 0 ==> run(m, pages).token == pages.last().next_token,
        pages.len() > 0 ==> !run(m, pages).failed,
    decreases pages.len(),
{
    if pages.len() == 0 {
        assert(m.yielded + flat_items(pages) =~= m.yielded);
    } else {
        lemma_run_unrolled(step(m, pages[0]), pages.drop_first());
        assert(run(m, pages).yielded =~= m.yielded + flat_items(pages));
        if pages.len() > 1 {
            assert(pages.drop_first().last() == pages.last());
        }
    }
}

/// Pagination completeness: when only the last of `pages` carries an empty
/// next-page token, a lister driven from the initial state through all of
/// them yields exactly the concatenation of every page's items in page
/// order, makes exactly one fetch per page, and only then is finished —
/// before the last page, every intermediate state still asks for more.
pub proof fn lemma_pagination_completeness<T>(pages: Seq<PageModel<T>>)
    requires
        pages.len() > 0,
        forall|i: int| 0 <= i < pages.len() - 1 ==> #[trigger] pages[i].next_token.len() > 0,
        pages.last().next_token.len() == 0,
    ensures
        run(init_model::<T>(), pages).yielded == flat_items(pages),
        run(init_model::<T>(), pages).fetches == pages.len(),
        run(init_model::<T>(), pages).finished,
        !run(init_model::<T>(), pages).failed,
        forall|k: int|
            0 <= k < pages.len() ==> !(#[trigger] run(
                init_model::<T>(),
                pages.take(k),
            )).finished && !run(init_model::<T>(), pages.take(k)).failed,
{
    lemma_run_unrolled(init_model::<T>(), pages);
    assert(init_model::<T>().yielded + flat_items(pages) =~= flat_items(pages));
    assert forall|k: int|
        0 <= k < pages.len() implies !(#[trigger] run(init_model::<T>(), pages.take(k))).finished
        && !run(init_model::<T>(), pages.take(k)).failed by {
        lemma_run_unrolled(init_model::<T>(), pages.take(k));
        if k > 0 {
            assert(pages.take(k).last() == pages[k - 1]);
        }
    }
}

/// Early stop: a consumer that stops after the items of the first `k`
/// pages has driven exactly `k` fetches — in particular no more than
/// `k + 1` — because a lister never fetches a page before the previous
/// one was consumed.
pub proof fn lemma_early_stop<T>(pages: Seq<PageModel<T>>, k: int)
    requires
        0 <= k <= pages.len(),
    ensures
        run(init_model::<T>(), pages.take(k)).fetches == k,
        run(init_model::<T>(), pages.take(k)).fetches <= k + 1,
{
    lemma_run_unrolled(init_model::<T>(), pages.take(k));
}

} // verus!
