//! The paginated-collection engine.
//!
//! A collection is served as a chain of pages, each holding items and, except the last, a
//! continuation link to the next page. [`Paginator`] walks that chain one decision at a time:
//! the caller asks [`Paginator::next_step`] what to do, performs any fetch it is told to, and
//! hands the decoded page back with [`Paginator::on_page`] (or the failure with
//! [`Paginator::on_error`]). Items come out in server order, pages are fetched strictly one
//! after another, and an item that failed to decode is yielded as one `Err` without ending the
//! sequence.
use vstd::prelude::*;

use crate::error::Error;
use crate::uri::{host_present, joined_url, url_has_host, url_join};

verus! {

/// One decoded page: its items, each decoded or failed, and its "next" link, if any.
pub struct Page<T> {
    pub items: Vec<Result<T, Error>>,
    pub next: Option<String>,
}

/// What the consumer of a paginated collection does next.
pub enum Step<T> {
    /// Fetch the page at this URL and hand it to `on_page` (or the failure to `on_error`).
    Fetch(String),
    /// Deliver this item.
    Yield(Result<T, Error>),
    /// The collection is exhausted.
    End,
}

/// The view of an optional text.
pub open spec fn opt_view(o: Option<String>) -> Option<Seq<char>> {
    match o {
        Some(s) => Some(s@),
        None => None,
    }
}

/// Where a continuation link leads: the link itself when it is absolute with a host,
/// otherwise the link resolved against the entrypoint `base`.
pub open spec fn resolve_spec(base: Seq<char>, link: Seq<char>) -> Result<Seq<char>, Seq<char>> {
    if host_present(link) {
        Ok(link)
    } else {
        joined_url(base, link)
    }
}

/// Resolves a continuation link against the entrypoint.
pub fn resolve_link(base: &str, link: &str) -> (r: Result<String, String>)
    ensures
        match r {
            Ok(u) => resolve_spec(base@, link@) == Ok::<Seq<char>, Seq<char>>(u@),
            Err(m) => resolve_spec(base@, link@) == Err::<Seq<char>, Seq<char>>(m@),
        },
{
    if url_has_host(link) {
        Ok(link.to_owned())
    } else {
        url_join(base, link)
    }
}

/// A page as the laws see it: its items and the text of its "next" link.
pub type PageModel<T> = (Seq<Result<T, Error>>, Option<Seq<char>>);

/// The view of a page.
pub open spec fn page_view<T>(p: Page<T>) -> PageModel<T> {
    (p.items@, opt_view(p.next))
}

/// The cursor after a page whose "next" link is `next`, when the link resolves.
pub open spec fn next_cursor(base: Seq<char>, next: Option<Seq<char>>) -> Option<Seq<char>> {
    match next {
        Some(l) => match resolve_spec(base, l) {
            Ok(u) => Some(u),
            Err(_) => None,
        },
        None => None,
    }
}

/// Everything a consumer receives from a paginator holding `queue` and `cursor` when each
/// fetch it is told to make is answered by the next page of `pages`.
pub open spec fn drain<T>(
    base: Seq<char>,
    queue: Seq<Result<T, Error>>,
    cursor: Option<Seq<char>>,
    pages: Seq<PageModel<T>>,
) -> Seq<Result<T, Error>>
    decreases pages.len(),
{
    match cursor {
        None => queue,
        Some(_) => if pages.len() == 0 {
            queue
        } else {
            queue + drain(base, pages[0].0, next_cursor(base, pages[0].1), pages.drop_first())
        },
    }
}

/// Whether `pages` form one chain from the entrypoint `base`: every page but the last has a
/// "next" link that resolves, and the last has none.
pub open spec fn links_chain<T>(base: Seq<char>, pages: Seq<PageModel<T>>) -> bool {
    &&& forall|i: int|
        0 <= i < pages.len() - 1 ==> (#[trigger] pages[i].1 matches Some(l) && resolve_spec(
            base,
            l,
        ) is Ok)
    &&& pages.len() > 0 ==> pages.last().1 is None
}

/// The items of all pages, in page order.
pub open spec fn all_items<T>(pages: Seq<PageModel<T>>) -> Seq<Result<T, Error>> {
    pages.map_values(|p: PageModel<T>| p.0).flatten()
}


/// Delivering the oldest waiting item leaves the rest of what is owed unchanged.
pub proof fn lemma_yield_keeps_order<T>(
    base: Seq<char>,
    queue: Seq<Result<T, Error>>,
    cursor: Option<Seq<char>>,
    pages: Seq<PageModel<T>>,
)
    requires
        queue.len() > 0,
    ensures
        drain(base, queue, cursor, pages) == seq![queue[0]] + drain(
            base,
            queue.drop_first(),
            cursor,
            pages,
        ),
{
    match cursor {
        None => {
            assert(queue =~= seq![queue[0]] + queue.drop_first());
        },
        Some(_) => {
            if pages.len() == 0 {
                assert(queue =~= seq![queue[0]] + queue.drop_first());
            } else {
                let rest = drain(base, pages[0].0, next_cursor(base, pages[0].1), pages.drop_first());
                assert(queue + rest =~= seq![queue[0]] + (queue.drop_first() + rest));
            }
        },
    }
}

/// Once its queue is empty, a paginator that fetches the page under its cursor and takes in
/// the answer owes exactly what it owed before the fetch.
pub proof fn lemma_fetch_keeps_order<T>(
    base: Seq<char>,
    cursor: Seq<char>,
    pages: Seq<PageModel<T>>,
)
    requires
        pages.len() > 0,
    ensures
        drain(base, Seq::empty(), Some(cursor), pages) == drain(
            base,
            pages[0].0,
            next_cursor(base, pages[0].1),
            pages.drop_first(),
        ),
{
    let rest = drain(base, pages[0].0, next_cursor(base, pages[0].1), pages.drop_first());
    assert(Seq::<Result<T, Error>>::empty() + rest =~= rest);
}

proof fn lemma_drain_chain<T>(
    base: Seq<char>,
    queue: Seq<Result<T, Error>>,
    cursor: Seq<char>,
    pages: Seq<PageModel<T>>,
)
    requires
        pages.len() > 0,
        links_chain(base, pages),
    ensures
        drain(base, queue, Some(cursor), pages) == queue + all_items(pages),
    decreases pages.len(),
{
    let f = |p: PageModel<T>| p.0;
    let rest = pages.drop_first();
    assert(pages.map_values(f).drop_first() =~= rest.map_values(f));
    assert(pages.map_values(f).first() == pages[0].0);
    assert(all_items(pages) == pages[0].0 + all_items(rest));
    if rest.len() == 0 {
        assert(pages.last() == pages[0]);
        assert(next_cursor(base, pages[0].1) is None);
        assert(drain(base, pages[0].0, None, rest) == pages[0].0);
        assert(all_items(rest) =~= Seq::<Result<T, Error>>::empty());
        assert(pages[0].0 + all_items(rest) =~= pages[0].0);
    } else {
        assert(pages[0].1 matches Some(l) && resolve_spec(base, l) is Ok);
        let next = next_cursor(base, pages[0].1);
        assert(next is Some);
        assert(links_chain(base, rest)) by {
            assert forall|i: int| 0 <= i < rest.len() - 1 implies (#[trigger] rest[i].1 matches Some(
                l,
            ) && resolve_spec(base, l) is Ok) by {
                assert(rest[i] == pages[i + 1]);
            }
            assert(rest.last() == pages.last());
        }
        lemma_drain_chain(base, pages[0].0, next.unwrap(), rest);
        assert(drain(base, pages[0].0, next, rest) == pages[0].0 + all_items(rest));
    }
    assert(drain(base, queue, Some(cursor), pages) == queue + drain(
        base,
        pages[0].0,
        next_cursor(base, pages[0].1),
        rest,
    ));
    assert(queue + (pages[0].0 + all_items(rest)) =~= queue + all_items(pages));
}

/// A walk started at the head of a chain of pages delivers exactly the items of all pages,
/// failed ones included, in page order, and then ends.
pub proof fn lemma_chain_yields_all_items<T>(
    base: Seq<char>,
    head_url: Seq<char>,
    pages: Seq<PageModel<T>>,
)
    requires
        pages.len() > 0,
        links_chain(base, pages),
    ensures
        drain(base, Seq::empty(), Some(head_url), pages) == all_items(pages),
{
    lemma_drain_chain(base, Seq::empty(), head_url, pages);
    assert(Seq::<Result<T, Error>>::empty() + all_items(pages) =~= all_items(pages));
}

/// A pull-based walk over a paginated collection.
pub struct Paginator<T> {
    base: String,
    queue: Vec<Result<T, Error>>,
    cursor: Option<String>,
}

impl<T> Paginator<T> {
    /// The entrypoint against which relative links are resolved.
    pub closed spec fn base_view(&self) -> Seq<char> {
        self.base@
    }

    /// Items received and not yet delivered, in order.
    pub closed spec fn queue_view(&self) -> Seq<Result<T, Error>> {
        self.queue@
    }

    /// The page to fetch once the queue is empty; `None` once the chain has ended.
    pub closed spec fn cursor_view(&self) -> Option<Seq<char>> {
        opt_view(self.cursor)
    }

    /// A walk that starts at `head_url`, resolving relative links against `base`.
    pub fn new(base: String, head_url: String) -> (r: Self)
        ensures
            r.base_view() == base@,
            r.queue_view() == Seq::<Result<T, Error>>::empty(),
            r.cursor_view() == Some(head_url@),
    {
        Paginator { base, queue: Vec::new(), cursor: Some(head_url) }
    }

    /// Decides the next step: deliver the oldest waiting item, else fetch the page under the
    /// cursor, else end. A fetch leaves the cursor in place until its page arrives.
    pub fn next_step(&mut self) -> (r: Step<T>)
        ensures
            final(self).base_view() == old(self).base_view(),
            old(self).queue_view().len() > 0 ==> {
                &&& r == Step::Yield(old(self).queue_view()[0])
                &&& final(self).queue_view() == old(self).queue_view().drop_first()
                &&& final(self).cursor_view() == old(self).cursor_view()
            },
            old(self).queue_view().len() == 0 ==> {
                &&& final(self).queue_view() == old(self).queue_view()
                &&& final(self).cursor_view() == old(self).cursor_view()
                &&& match old(self).cursor_view() {
                    Some(u) => r matches Step::Fetch(v) && v@ == u,
                    None => r is End,
                }
            },
    {
        if self.queue.len() > 0 {
            let item = self.queue.remove(0);
            Step::Yield(item)
        } else {
            match &self.cursor {
                Some(u) => Step::Fetch(u.clone()),
                None => Step::End,
            }
        }
    }

    /// Takes in a fetched page whose "next" link has been resolved (`None` when the page has
    /// no link; `Err` with the message when the link did not resolve): its items join the
    /// queue, and the resolved link becomes the cursor. Without a link the chain ends; a link
    /// that did not resolve ends it too, after one `PaginationItemDeserialization` error.
    pub fn on_resolved_page(&mut self, items: Vec<Result<T, Error>>, next: Option<Result<String, String>>)
        ensures
            final(self).base_view() == old(self).base_view(),
            match next {
                None => {
                    &&& final(self).queue_view() == old(self).queue_view() + items@
                    &&& final(self).cursor_view() == None::<Seq<char>>
                },
                Some(Ok(u)) => {
                    &&& final(self).queue_view() == old(self).queue_view() + items@
                    &&& final(self).cursor_view() == Some(u@)
                },
                Some(Err(m)) => {
                    &&& final(self).queue_view() == old(self).queue_view() + items@ + seq![
                        Err(Error::PaginationItemDeserialization(m)),
                    ]
                    &&& final(self).cursor_view() == None::<Seq<char>>
                },
            },
    {
        let mut items = items;
        self.queue.append(&mut items);
        match next {
            None => {
                self.cursor = None;
            },
            Some(Ok(u)) => {
                self.cursor = Some(u);
            },
            Some(Err(m)) => {
                self.queue.push(Err(Error::pag_item(m)));
                self.cursor = None;
            },
        }
    }

    /// Takes in a fetched page: its "next" link is resolved against the entrypoint, then the
    /// page is taken in as `on_resolved_page` says.
    pub fn on_page(&mut self, page: Page<T>)
        ensures
            final(self).base_view() == old(self).base_view(),
            match opt_view(page.next) {
                None => {
                    &&& final(self).queue_view() == old(self).queue_view() + page.items@
                    &&& final(self).cursor_view() == None::<Seq<char>>
                },
                Some(l) => match resolve_spec(old(self).base_view(), l) {
                    Ok(u) => {
                        &&& final(self).queue_view() == old(self).queue_view() + page.items@
                        &&& final(self).cursor_view() == Some(u)
                    },
                    Err(m) => {
                        &&& final(self).queue_view() == old(self).queue_view() + page.items@
                            + seq![final(self).queue_view().last()]
                        &&& final(self).queue_view().last() matches Err(
                            Error::PaginationItemDeserialization(s),
                        ) && s@ == m
                        &&& final(self).cursor_view() == None::<Seq<char>>
                    },
                },
            },
    {
        let Page { items, next } = page;
        let resolved = match next {
            None => None,
            Some(link) => Some(resolve_link(self.base.as_str(), link.as_str())),
        };
        self.on_resolved_page(items, resolved);
    }

    /// Takes in a failed page fetch: the failure is delivered after the waiting items, and
    /// the chain ends.
    pub fn on_error(&mut self, e: Error)
        ensures
            final(self).base_view() == old(self).base_view(),
            final(self).queue_view() == old(self).queue_view().push(Err(e)),
            final(self).cursor_view() == None::<Seq<char>>,
    {
        self.queue.push(Err(e));
        self.cursor = None;
    }
}

} // verus!
