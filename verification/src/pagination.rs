use vstd::prelude::*;

verus! {

/// How many items every page request asks the platform for. Each listing
/// is fetched in chunks of this size; the last page may be shorter.
pub const PAGE_SIZE: u8 = 100;

/// The items of all pages joined in order: the first page's items first,
/// then the second page's, and so on.
pub open spec fn concat_pages<T>(pages: Seq<Seq<T>>) -> Seq<T>
    decreases pages.len(),
{
    if pages.len() == 0 {
        Seq::empty()
    } else {
        concat_pages(pages.drop_last()) + pages.last()
    }
}

/// How many items all pages hold together.
pub open spec fn total_items<T>(pages: Seq<Seq<T>>) -> int
    decreases pages.len(),
{
    if pages.len() == 0 {
        0
    } else {
        total_items(pages.drop_last()) + pages.last().len()
    }
}

/// Where page `i`'s items begin inside the joined sequence: right after the
/// items of every earlier page.
pub open spec fn page_offset<T>(pages: Seq<Seq<T>>, i: int) -> int {
    total_items(pages.take(i))
}

pub proof fn lemma_total_items_nonneg<T>(pages: Seq<Seq<T>>)
    ensures
        total_items(pages) >= 0,
    decreases pages.len(),
{
    if pages.len() > 0 {
        lemma_total_items_nonneg(pages.drop_last());
    }
}

/// Joining the pages loses and invents nothing: the joined sequence holds
/// exactly as many items as the pages hold together.
pub proof fn lemma_concat_pages_len<T>(pages: Seq<Seq<T>>)
    ensures
        concat_pages(pages).len() == total_items(pages),
    decreases pages.len(),
{
    if pages.len() > 0 {
        lemma_concat_pages_len(pages.drop_last());
    }
}

/// Accumulation is order-preserving and complete: each page reappears intact
/// inside the joined sequence, at the offset given by the pages before it.
/// Together with `lemma_concat_pages_len` this says that joining duplicates
/// nothing and drops nothing, and keeps every page's items in arrival order.
pub proof fn lemma_page_embedding<T>(pages: Seq<Seq<T>>, i: int)
    requires
        0 <= i < pages.len(),
    ensures
        0 <= page_offset(pages, i),
        page_offset(pages, i) + pages[i].len() <= concat_pages(pages).len(),
        concat_pages(pages).subrange(
            page_offset(pages, i),
            page_offset(pages, i) + pages[i].len() as int,
        ) == pages[i],
    decreases pages.len(),
{
    lemma_total_items_nonneg(pages.take(i));
    lemma_concat_pages_len(pages);
    let rest = pages.drop_last();
    let last = pages.last();
    lemma_concat_pages_len(rest);
    if i == pages.len() - 1 {
        assert(pages.take(i) =~= rest);
        assert(page_offset(pages, i) == concat_pages(rest).len());
        assert(concat_pages(pages).subrange(
            page_offset(pages, i),
            page_offset(pages, i) + pages[i].len() as int,
        ) =~= last);
    } else {
        lemma_page_embedding(rest, i);
        assert(pages.take(i) =~= rest.take(i));
        assert(pages[i] == rest[i]);
        assert(concat_pages(pages).subrange(
            page_offset(pages, i),
            page_offset(pages, i) + pages[i].len() as int,
        ) =~= concat_pages(rest).subrange(
            page_offset(rest, i),
            page_offset(rest, i) + rest[i].len() as int,
        ));
    }
}

/// Appending one more page extends the joined sequence by exactly that
/// page's items, at the end.
pub proof fn lemma_concat_pages_push<T>(pages: Seq<Seq<T>>, page: Seq<T>)
    ensures
        concat_pages(pages.push(page)) == concat_pages(pages) + page,
{
    assert(pages.push(page).drop_last() =~= pages);
    assert(pages.push(page).last() == page);
}

/// Where a paginated listing stands. A listing starts at `FetchPage`; each
/// fetched page moves it to `HasNext`, from where the presence of a next
/// link decides between another `FetchPage` round and `Done`. A fetch
/// failure moves it to `Failed`, which aborts the whole run.
#[derive(Clone, Copy, PartialEq, Eq, Structural, Debug)]
pub enum FetchState {
    FetchPage,
    HasNext,
    Done,
    Failed,
}

/// Drives one paginated listing: it accumulates the items of every page in
/// arrival order and carries the listing's next link as loop state. The
/// caller performs the page fetches and reports each outcome; this type
/// makes every decision in between.
pub struct Paginator<T> {
    items: Vec<T>,
    state: FetchState,
    next_link: Option<String>,
    pages: Ghost<Seq<Seq<T>>>,
}

impl<T> Paginator<T> {
    /// The pages absorbed so far, each as it arrived.
    pub closed spec fn pages(self) -> Seq<Seq<T>> {
        self.pages@
    }

    /// Every item accumulated so far, in arrival order.
    pub closed spec fn collected(self) -> Seq<T> {
        self.items@
    }

    /// Where this listing stands.
    pub closed spec fn fetch_state(self) -> FetchState {
        self.state
    }

    /// The next link reported by the page that just arrived, if any. Only
    /// meaningful in `HasNext`.
    pub closed spec fn next_link(self) -> Option<String> {
        self.next_link
    }

    /// Well-formed: what was accumulated is exactly the absorbed pages
    /// joined in order, and a next link is at hand only right after a page
    /// has arrived.
    pub closed spec fn wf(self) -> bool {
        &&& self.items@ == concat_pages(self.pages@)
        &&& !(self.state is HasNext) ==> self.next_link is None
    }

    /// A fresh listing: nothing fetched yet, the first page is owed.
    pub fn new() -> (r: Paginator<T>)
        ensures
            r.wf(),
            r.fetch_state() is FetchPage,
            r.pages() == Seq::<Seq<T>>::empty(),
            r.collected() == Seq::<T>::empty(),
    {
        Paginator {
            items: Vec::new(),
            state: FetchState::FetchPage,
            next_link: None,
            pages: Ghost(Seq::empty()),
        }
    }

    /// Where this listing stands, for the caller that runs the fetches.
    pub fn state(&self) -> (r: FetchState)
        ensures
            r == self.fetch_state(),
    {
        self.state
    }

    /// Absorbs a fetched page: appends its items to the accumulation, in the
    /// order they came, and records the page's next link.
    pub fn on_page(&mut self, page_items: Vec<T>, next: Option<String>)
        requires
            old(self).wf(),
            old(self).fetch_state() is FetchPage,
        ensures
            final(self).wf(),
            final(self).fetch_state() is HasNext,
            final(self).pages() == old(self).pages().push(page_items@),
            final(self).collected() == old(self).collected() + page_items@,
            final(self).next_link() == next,
    {
        let ghost arrived = page_items@;
        let ghost earlier = self.pages@;
        let mut moved = page_items;
        self.items.append(&mut moved);
        self.state = FetchState::HasNext;
        self.next_link = next;
        self.pages = Ghost(earlier.push(arrived));
        proof {
            lemma_concat_pages_push(earlier, arrived);
        }
    }

    /// Records that the outstanding page fetch failed. The accumulation is
    /// left as it was; the listing is over and the run aborts.
    pub fn on_error(&mut self)
        requires
            old(self).wf(),
            old(self).fetch_state() is FetchPage,
        ensures
            final(self).wf(),
            final(self).fetch_state() is Failed,
            final(self).pages() == old(self).pages(),
            final(self).collected() == old(self).collected(),
    {
        self.state = FetchState::Failed;
    }

    /// After a page has arrived, decides the listing's next step: hand back
    /// the next link and owe one more page if the page carried one, else the
    /// listing is drained.
    pub fn advance(&mut self) -> (r: Option<String>)
        requires
            old(self).wf(),
            old(self).fetch_state() is HasNext,
        ensures
            final(self).wf(),
            final(self).pages() == old(self).pages(),
            final(self).collected() == old(self).collected(),
            r == old(self).next_link(),
            old(self).next_link() is Some ==> final(self).fetch_state() is FetchPage,
            old(self).next_link() is None ==> final(self).fetch_state() is Done,
    {
        let mut link: Option<String> = None;
        core::mem::swap(&mut link, &mut self.next_link);
        match link {
            Some(u) => {
                self.state = FetchState::FetchPage;
                Some(u)
            },
            None => {
                self.state = FetchState::Done;
                None
            },
        }
    }

    /// Hands the accumulated items out once the listing is drained: exactly
    /// the absorbed pages joined in order.
    pub fn into_items(self) -> (r: Vec<T>)
        requires
            self.wf(),
            self.fetch_state() is Done,
        ensures
            r@ == concat_pages(self.pages()),
            r@ == self.collected(),
    {
        self.items
    }
}

/// Pagination accumulation is order-preserving and complete: whatever a
/// well-formed paginator has collected is exactly its pages joined in
/// order, so re-running a listing over unchanged pages collects the very
/// same sequence.
pub proof fn lemma_collected_joins_pages<T>(p: Paginator<T>)
    requires
        p.wf(),
    ensures
        p.collected() == concat_pages(p.pages()),
        p.collected().len() == total_items(p.pages()),
{
    lemma_concat_pages_len(p.pages());
}

/// What a listing collects depends on the pages alone: two runs over the
/// same pages collect the same items, so a re-run over unchanged upstream
/// data accumulates identical content.
pub proof fn lemma_rerun_collects_same<T>(p1: Paginator<T>, p2: Paginator<T>)
    requires
        p1.wf(),
        p2.wf(),
        p1.pages() == p2.pages(),
    ensures
        p1.collected() == p2.collected(),
{
}

} // verus!
