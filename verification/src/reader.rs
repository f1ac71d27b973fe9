//! The filtered cursor's client-side state: the buffered page still to be
//! consumed and the exhaustion flag. The consumer drains one lazy, finite,
//! single-pass sequence of documents; paging is transparent, in that what
//! is drained is exactly the concatenation of the pages supplied, in
//! order, wherever the page boundaries fall.
use vstd::prelude::*;

use crate::model::{DocView, SourceDoc};
use crate::pipeline::docs_views;

verus! {

/// Per-invocation read state over a filtered, projected, paginated query:
/// created at query issuance, advanced until exhausted, then discarded.
/// Not shared across concurrent readers.
pub struct PageCursor {
    /// The unconsumed part of the current page, in reverse order, so that
    /// the next document to yield sits at the end.
    rest: Vec<SourceDoc>,
    exhausted: bool,
    drained: Ghost<Seq<DocView>>,
}

impl PageCursor {
    /// Everything the consumer has drained so far, in order.
    pub closed spec fn drained(self) -> Seq<DocView> {
        self.drained@
    }

    /// The not-yet-consumed part of the buffered page, in yield order.
    pub closed spec fn buffered(self) -> Seq<DocView> {
        docs_views(self.rest@).reverse()
    }

    /// Whether the store has said that no further page exists.
    pub closed spec fn is_exhausted(self) -> bool {
        self.exhausted
    }

    /// A fresh cursor: nothing buffered, nothing drained, not exhausted.
    pub fn new() -> (c: PageCursor)
        ensures
            c.drained() == Seq::<DocView>::empty(),
            c.buffered() == Seq::<DocView>::empty(),
            !c.is_exhausted(),
    {
        let c = PageCursor { rest: Vec::new(), exhausted: false, drained: Ghost(Seq::empty()) };
        proof {
            assert(c.buffered() =~= Seq::<DocView>::empty());
        }
        c
    }

    /// Whether the next page must be fetched before `next` can answer: the
    /// buffer is consumed and the store has not yet said it is done.
    pub fn needs_page(&self) -> (b: bool)
        ensures
            b == (self.buffered().len() == 0 && !self.is_exhausted()),
    {
        self.rest.len() == 0 && !self.exhausted
    }

    /// Installs the next fetched page. An empty page means the store is
    /// exhausted; a nonempty one becomes the new buffer. What was already
    /// drained is untouched.
    pub fn supply_page(&mut self, page: Vec<SourceDoc>)
        requires
            old(self).buffered().len() == 0,
            !old(self).is_exhausted(),
        ensures
            final(self).drained() == old(self).drained(),
            final(self).is_exhausted() == (page@.len() == 0),
            page@.len() == 0 ==> final(self).buffered().len() == 0,
            page@.len() > 0 ==> final(self).buffered() == docs_views(page@),
    {
        let ghost page0 = page@;
        if page.len() == 0 {
            self.exhausted = true;
        } else {
            let ghost drained0 = self.drained@;
            let ghost ex0 = self.exhausted;
            let mut page = page;
            proof {
                assert(page@ =~= page0.take(page@.len() as int));
                assert(self.rest@ =~= page0.skip(page@.len() as int).reverse());
            }
            while page.len() > 0
                invariant
                    page@.len() <= page0.len(),
                    page@ == page0.take(page@.len() as int),
                    self.rest@ == page0.skip(page@.len() as int).reverse(),
                    self.exhausted == ex0,
                    self.drained@ == drained0,
                decreases page@.len(),
            {
                let ghost k = page@.len() as int;
                match page.pop() {
                    Some(d) => {
                        proof {
                            assert(d == page0[k - 1]);
                            assert(page@ =~= page0.take(k - 1));
                        }
                        self.rest.push(d);
                        proof {
                            assert(self.rest@ =~= page0.skip(k - 1).reverse());
                        }
                    },
                    None => {
                        proof {
                            assert(false);
                        }
                    },
                }
            }
            proof {
                assert(self.buffered() =~= docs_views(page0));
            }
        }
    }

    /// Yields the next document of the sequence, or `None` once the store
    /// is exhausted. Single-pass: each document is yielded exactly once, in
    /// the store's presentation order.
    pub fn next(&mut self) -> (r: Option<SourceDoc>)
        requires
            old(self).buffered().len() > 0 || old(self).is_exhausted(),
        ensures
            final(self).is_exhausted() == old(self).is_exhausted(),
            old(self).buffered().len() == 0 ==> r is None && final(self).buffered().len() == 0
                && final(self).drained() == old(self).drained(),
            old(self).buffered().len() > 0 ==> r is Some && r->0@ == old(self).buffered()[0],
            old(self).buffered().len() > 0
                ==> final(self).buffered() == old(self).buffered().drop_first(),
            old(self).buffered().len() > 0
                ==> final(self).drained() == old(self).drained().push(old(self).buffered()[0]),
    {
        match self.rest.pop() {
            Some(d) => {
                proof {
                    assert(d@ == old(self).buffered()[0]);
                }
                self.drained = Ghost(self.drained@.push(d@));
                proof {
                    assert(self.buffered() =~= old(self).buffered().drop_first());
                }
                Some(d)
            },
            None => {
                None
            },
        }
    }
}

} // verus!
