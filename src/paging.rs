use vstd::prelude::*;
use vstd::seq_lib::lemma_flatten_concat;

verus! {

/// The remote service numbers pages from one.
pub const START_PAGE: u32 = 1;

/// The largest page the remote service hands out.
pub const MAX_PER_PAGE: u8 = 100;

/// Walks page numbers from [`START_PAGE`] until a page says that none follows
/// (or the page numbers run out).
pub struct PageCursor {
    pub page: u32,
    pub finished: bool,
}

impl PageCursor {
    pub open spec fn wf(&self) -> bool {
        START_PAGE <= self.page < u32::MAX
    }

    pub fn new() -> (r: Self)
        ensures
            r.wf(),
            r.page == START_PAGE,
            !r.finished,
    {
        PageCursor { page: START_PAGE, finished: false }
    }

    /// The page to request next, if any.
    pub fn current(&self) -> (r: Option<u32>)
        ensures
            r == (if self.finished {
                None
            } else {
                Some(self.page)
            }),
    {
        if self.finished {
            None
        } else {
            Some(self.page)
        }
    }

    /// Moves past the current page, which said whether another one follows.
    pub fn advance(&mut self, has_next: bool)
        requires
            old(self).wf(),
            !old(self).finished,
        ensures
            final(self).wf(),
            (has_next && old(self).page + 1 < u32::MAX) ==> (final(self).page == old(self).page + 1
                && !final(self).finished),
            !(has_next && old(self).page + 1 < u32::MAX) ==> (final(self).page == old(self).page
                && final(self).finished),
    {
        if has_next && self.page < u32::MAX - 1 {
            self.page = self.page + 1;
        } else {
            self.finished = true;
        }
    }
}

/// Gathers the items of consecutive pages into one sequence, in the order in
/// which the pages and their items came.
pub struct PageCollector<T> {
    items: Vec<T>,
    cursor: PageCursor,
    pages: Ghost<Seq<Seq<T>>>,
}

impl<T> PageCollector<T> {
    /// The pages accepted so far.
    pub closed spec fn pages(&self) -> Seq<Seq<T>> {
        self.pages@
    }

    /// The items gathered so far.
    pub closed spec fn items(&self) -> Seq<T> {
        self.items@
    }

    pub closed spec fn finished(&self) -> bool {
        self.cursor.finished
    }

    /// The page to request next, while the collection is not finished.
    pub closed spec fn next_page_number(&self) -> u32 {
        self.cursor.page
    }

    pub closed spec fn wf(&self) -> bool {
        &&& self.cursor.wf()
        &&& self.items@ == self.pages@.flatten()
        &&& self.cursor.page == START_PAGE + self.pages@.len() - (if self.cursor.finished {
            1int
        } else {
            0int
        })
    }

    pub fn new() -> (r: Self)
        ensures
            r.wf(),
            r.pages() == Seq::<Seq<T>>::empty(),
            r.items() == Seq::<T>::empty(),
            !r.finished(),
            r.next_page_number() == START_PAGE,
    {
        PageCollector { items: Vec::new(), cursor: PageCursor::new(), pages: Ghost(Seq::empty()) }
    }

    /// The page to request next, or `None` once the last page was accepted.
    pub fn next_page(&self) -> (r: Option<u32>)
        requires
            self.wf(),
        ensures
            r == (if self.finished() {
                None
            } else {
                Some(self.next_page_number())
            }),
            !self.finished() ==> self.next_page_number() == START_PAGE + self.pages().len(),
    {
        self.cursor.current()
    }

    /// Appends the items of the page just fetched; `has_next` says whether the
    /// remote service announced a further page.
    pub fn accept(&mut self, page_items: Vec<T>, has_next: bool)
        requires
            old(self).wf(),
            !old(self).finished(),
        ensures
            final(self).wf(),
            final(self).pages() == old(self).pages().push(page_items@),
            final(self).items() == old(self).items() + page_items@,
            !has_next ==> final(self).finished(),
            has_next && old(self).next_page_number() + 1 < u32::MAX ==> !final(self).finished(),
    {
        let mut page_items = page_items;
        let ghost added = page_items@;
        proof {
            self.pages@.lemma_flatten_push(added);
        }
        self.items.append(&mut page_items);
        self.pages = Ghost(self.pages@.push(added));
        self.cursor.advance(has_next);
    }

    /// Every item gathered, in order.
    pub fn into_items(self) -> (r: Vec<T>)
        requires
            self.wf(),
        ensures
            r@ == self.pages().flatten(),
    {
        self.items
    }
}

/// `s` cut into consecutive pages of `size` items, the last one possibly shorter.
pub open spec fn paginate<T>(s: Seq<T>, size: nat) -> Seq<Seq<T>>
    decreases s.len(),
{
    if s.len() == 0 || size == 0 {
        Seq::empty()
    } else if s.len() <= size {
        seq![s]
    } else {
        seq![s.take(size as int)] + paginate(s.skip(size as int), size)
    }
}

/// Items split into pages of at most `size` are recovered whole and in their
/// original order by joining the pages, and there are `ceil(len / size)` pages.
pub proof fn lemma_pagination_complete<T>(s: Seq<T>, size: nat)
    requires
        size > 0,
    ensures
        paginate(s, size).flatten() == s,
        paginate(s, size).len() == (s.len() + size - 1) / size as int,
    decreases s.len(),
{
    if s.len() == 0 {
        assert(paginate(s, size).flatten() =~= s);
        assert((s.len() + size - 1) / size as int == 0) by (nonlinear_arith)
            requires
                s.len() == 0,
                size > 0,
        ;
    } else if s.len() <= size {
        seq![s].lemma_flatten_singleton();
        assert(seq![s].flatten() =~= s);
        assert((s.len() + size - 1) / size as int == 1) by (nonlinear_arith)
            requires
                0 < s.len() <= size,
        ;
    } else {
        let rest = s.skip(size as int);
        lemma_pagination_complete(rest, size);
        let head = seq![s.take(size as int)];
        lemma_flatten_concat(head, paginate(rest, size));
        head.lemma_flatten_singleton();
        assert(head + paginate(rest, size) == paginate(s, size));
        assert(s.take(size as int) + rest =~= s);
        assert((s.len() + size - 1) / size as int == 1 + (rest.len() + size - 1) / size as int)
            by (nonlinear_arith)
            requires
                rest.len() == s.len() - size,
                size > 0,
        ;
    }
}

/// A collector that was handed, in order, the pages of at most
/// [`MAX_PER_PAGE`] items into which `s` splits holds exactly the items of
/// `s`, in their original order.
pub proof fn lemma_collector_complete<T>(c: &PageCollector<T>, s: Seq<T>)
    requires
        c.wf(),
        c.pages() == paginate(s, MAX_PER_PAGE as nat),
    ensures
        c.items() == s,
{
    lemma_pagination_complete(s, MAX_PER_PAGE as nat);
}

} // verus!
