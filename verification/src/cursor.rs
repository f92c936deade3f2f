//! A lazy cursor over a paginated result stream.
//!
//! The service answers a search with one page of records at a time, plus
//! an optional continuation token when more pages exist.  A
//! [`ResultCursor`] owns the records of the page fetched last and the
//! pending continuation, and yields records one at a time, in exactly the
//! order the service returned them.  The cursor itself performs no I/O:
//! when its page is drained and a continuation is pending,
//! [`ResultCursor::advance`] answers [`Step::NeedPage`] and leaves the
//! cursor untouched, so the caller may fetch the next page (or retry a
//! failed fetch) and hand it in through [`ResultCursor::supply_page`].
//! Once the page is drained and no continuation is pending, every further
//! [`ResultCursor::advance`] answers [`Step::Exhausted`].

use vstd::prelude::*;

verus! {

/// What one step of the cursor produced.
pub enum Step<R> {
    /// The next record, in service order.
    Item(R),
    /// The page is drained and a continuation is pending: fetch the next
    /// page and hand it in before stepping again.
    NeedPage,
    /// The page is drained and no continuation is pending: the stream has
    /// ended, and every further step answers the same.
    Exhausted,
}

/// The continuation reference of a page, as a mathematical value.
pub open spec fn token_text(token: Option<String>) -> Option<Seq<char>> {
    match token {
        Option::Some(t) => Option::Some(t@),
        Option::None => Option::None,
    }
}

/// One full consumption of a cursor, as a mathematical value: the
/// records a caller collects by stepping a cursor whose page still holds
/// `rem` and whose continuation is pending exactly when `more`, supplying
/// the pages of `pages` in order, each as it is asked for.  Each entry of
/// `pages` pairs the records of one page with whether that page carried a
/// continuation.
pub open spec fn consumed<R>(rem: Seq<R>, more: bool, pages: Seq<(Seq<R>, bool)>) -> Seq<R>
    decreases pages.len(), rem.len(),
{
    if rem.len() > 0 {
        seq![rem[0]] + consumed(rem.drop_first(), more, pages)
    } else if more && pages.len() > 0 {
        consumed(pages[0].0, pages[0].1, pages.drop_first())
    } else {
        Seq::empty()
    }
}

/// All records of a sequence of pages, in page order.
pub open spec fn all_records<R>(pages: Seq<(Seq<R>, bool)>) -> Seq<R>
    decreases pages.len(),
{
    if pages.len() == 0 {
        Seq::empty()
    } else {
        pages[0].0 + all_records(pages.drop_first())
    }
}

/// A single-owner, single-pass cursor over a paginated result stream.
pub struct ResultCursor<R> {
    /// The not-yet-consumed records of the page fetched last.
    page: Vec<R>,
    /// The continuation reference of that page, if the service reported
    /// further pages.
    token: Option<String>,
}

impl<R> ResultCursor<R> {
    /// The records still to be yielded before the next page is needed.
    pub closed spec fn remaining(self) -> Seq<R> {
        self.page@
    }

    /// The pending continuation reference, if any.
    pub closed spec fn continuation(self) -> Option<Seq<char>> {
        token_text(self.token)
    }

    /// Positions a cursor before the first record of a freshly fetched
    /// first page.
    pub fn begin(page: Vec<R>, token: Option<String>) -> (c: Self)
        ensures
            c.remaining() == page@,
            c.continuation() == token_text(token),
    {
        ResultCursor { page, token }
    }

    /// Yields the next record in service order, or says what stands in
    /// the way.  On [`Step::NeedPage`] and [`Step::Exhausted`] the cursor
    /// is left exactly as it was, so a caller whose page fetch failed may
    /// simply step again after clearing the failure and resumes from the
    /// same position.
    pub fn advance(&mut self) -> (step: Step<R>)
        ensures
            old(self).remaining().len() > 0 ==> step == Step::<R>::Item(old(self).remaining()[0]),
            old(self).remaining().len() > 0 ==> final(self).remaining() == old(self).remaining().drop_first(),
            old(self).remaining().len() > 0 ==> final(self).continuation() == old(self).continuation(),
            old(self).remaining().len() == 0 && old(self).continuation() is Some ==> step
                == Step::<R>::NeedPage && *final(self) == *old(self),
            old(self).remaining().len() == 0 && old(self).continuation() is None ==> step
                == Step::<R>::Exhausted && *final(self) == *old(self),
    {
        if self.page.len() > 0 {
            let item = self.page.remove(0);
            proof {
                assert(self.page@ =~= old(self).page@.drop_first());
            }
            Step::Item(item)
        } else if self.token.is_some() {
            Step::NeedPage
        } else {
            Step::Exhausted
        }
    }

    /// Hands the cursor the page that its pending continuation referred
    /// to, together with the continuation of that new page, if any.
    pub fn supply_page(&mut self, page: Vec<R>, token: Option<String>)
        requires
            old(self).remaining().len() == 0,
            old(self).continuation() is Some,
        ensures
            final(self).remaining() == page@,
            final(self).continuation() == token_text(token),
    {
        self.page = page;
        self.token = token;
    }

    /// Whether the current page is drained.
    pub fn is_drained(&self) -> (b: bool)
        ensures
            b <==> self.remaining().len() == 0,
    {
        self.page.len() == 0
    }

    /// The pending continuation reference, for the caller that performs
    /// the fetch.
    pub fn continuation_token(&self) -> (t: &Option<String>)
        ensures
            token_text(*t) == self.continuation(),
    {
        &self.token
    }
}

} // verus!
