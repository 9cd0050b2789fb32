use vstd::prelude::*;

verus! {

/// A repository descriptor as returned by the hosting provider's listing
/// endpoint. Immutable once fetched.
#[derive(Debug, Clone, PartialEq, Eq)]
pub struct Repo {
    pub name: String,
    pub full_name: String,
    pub clone_url: String,
    pub description: Option<String>,
    pub private: bool,
    pub fork: bool,
    pub url: String,
}

impl Repo {
    /// An exact copy, field by field.
    pub fn duplicate(&self) -> (r: Repo)
        ensures
            r == *self,
    {
        Repo {
            name: self.name.clone(),
            full_name: self.full_name.clone(),
            clone_url: self.clone_url.clone(),
            description: match &self.description {
                Option::Some(d) => Option::Some(d.clone()),
                Option::None => Option::None,
            },
            private: self.private,
            fork: self.fork,
            url: self.url.clone(),
        }
    }

    /// A repository is skipped when fork-skipping is enabled and the
    /// descriptor is marked as a fork.
    pub fn should_skip(&self, skip_forks: bool) -> (r: bool)
        ensures
            r == (skip_forks && self.fork),
    {
        skip_forks && self.fork
    }
}

/// The mathematical state of the listing enumerator.
#[verifier::ext_equal]
pub struct EnumeratorModel {
    pub repos: Seq<Repo>,
    pub next_page: int,
    pub done: bool,
}

/// How one received page changes the enumerator: an empty page ends the
/// listing and contributes nothing; a non-empty page is appended in order and
/// the next page number is advanced by one.
pub open spec fn accept_model(m: EnumeratorModel, page: Seq<Repo>) -> EnumeratorModel {
    if page.len() == 0 {
        EnumeratorModel { repos: m.repos, next_page: m.next_page, done: true }
    } else {
        EnumeratorModel { repos: m.repos + page, next_page: m.next_page + 1, done: false }
    }
}

/// The enumerator state at the start of a listing: nothing collected, the
/// first request asks for page 1.
pub open spec fn initial_model() -> EnumeratorModel {
    EnumeratorModel { repos: Seq::empty(), next_page: 1, done: false }
}

/// The enumerator state after a sequence of received pages, where pages after
/// the first empty one are never requested and change nothing.
pub open spec fn run_model(pages: Seq<Seq<Repo>>) -> EnumeratorModel
    decreases pages.len(),
{
    if pages.len() == 0 {
        initial_model()
    } else {
        let prev = run_model(pages.drop_last());
        if prev.done {
            prev
        } else {
            accept_model(prev, pages.last())
        }
    }
}

/// The concatenation of a sequence of pages, in order.
pub open spec fn concat_pages(pages: Seq<Seq<Repo>>) -> Seq<Repo>
    decreases pages.len(),
{
    if pages.len() == 0 {
        Seq::empty()
    } else {
        concat_pages(pages.drop_last()) + pages.last()
    }
}

/// The org enumerator: paginates the source organization's repository listing
/// into a complete in-memory list. Page requests start at page 1; the listing
/// ends on the first page that comes back empty, not on a short page, since
/// the API does not guarantee monotonic page sizes.
pub struct Enumerator {
    repos: Vec<Repo>,
    next_page: u64,
    done: bool,
}

impl View for Enumerator {
    type V = EnumeratorModel;

    closed spec fn view(&self) -> EnumeratorModel {
        EnumeratorModel { repos: self.repos@, next_page: self.next_page as int, done: self.done }
    }
}

impl Enumerator {
    pub fn new() -> (e: Enumerator)
        ensures
            e@ == initial_model(),
    {
        let e = Enumerator { repos: Vec::new(), next_page: 1, done: false };
        assert(e@ =~= initial_model());
        e
    }

    /// The page number to request next, or nothing once the listing is over.
    pub fn next_request(&self) -> (p: Option<u64>)
        ensures
            match p {
                Option::Some(page) => !self@.done && page == self@.next_page,
                Option::None => self@.done,
            },
    {
        if self.done {
            Option::None
        } else {
            Option::Some(self.next_page)
        }
    }

    /// Feed one received page into the enumerator.
    pub fn accept_page(&mut self, page: Vec<Repo>)
        requires
            !old(self)@.done,
            old(self)@.next_page < u64::MAX,
        ensures
            final(self)@ == accept_model(old(self)@, page@),
    {
        let ghost m0 = self@;
        let ghost p0 = page@;
        if page.len() == 0 {
            self.done = true;
        } else {
            let mut page = page;
            self.repos.append(&mut page);
            self.next_page = self.next_page + 1;
        }
        assert(self@ =~= accept_model(m0, p0));
    }

    /// The complete ordered list of repositories collected so far.
    pub fn into_repos(self) -> (r: Vec<Repo>)
        ensures
            r@ == self@.repos,
    {
        self.repos
    }
}

/// Pagination ends exactly when some page comes back empty: after any sequence
/// of received pages, the enumerator is done if and only if one of them was
/// empty.
pub proof fn lemma_pagination_terminates_iff_empty(pages: Seq<Seq<Repo>>)
    ensures
        run_model(pages).done <==> exists|i: int| 0 <= i < pages.len() && pages[i].len() == 0,
    decreases pages.len(),
{
    if pages.len() > 0 {
        lemma_pagination_terminates_iff_empty(pages.drop_last());
        let prev = run_model(pages.drop_last());
        if prev.done {
            let i = choose|i: int| 0 <= i < pages.len() - 1 && pages.drop_last()[i].len() == 0;
            assert(pages[i].len() == 0);
        } else {
            if pages.last().len() == 0 {
                assert(pages[pages.len() - 1].len() == 0);
            } else {
                assert forall|i: int| 0 <= i < pages.len() implies pages[i].len() != 0 by {
                    if i < pages.len() - 1 {
                        assert(pages.drop_last()[i].len() != 0);
                    }
                }
            }
        }
    }
}

/// While every page received so far was non-empty, the aggregate is their
/// concatenation in order, the enumerator is still running, and the next page
/// number counts the pages received.
pub proof fn lemma_pagination_aggregate_all_nonempty(pages: Seq<Seq<Repo>>)
    requires
        forall|i: int| 0 <= i < pages.len() ==> pages[i].len() > 0,
    ensures
        !run_model(pages).done,
        run_model(pages).repos == concat_pages(pages),
        run_model(pages).next_page == 1 + pages.len(),
    decreases pages.len(),
{
    if pages.len() > 0 {
        assert(forall|i: int|
            0 <= i < pages.len() - 1 ==> pages.drop_last()[i] == pages[i]);
        lemma_pagination_aggregate_all_nonempty(pages.drop_last());
        assert(pages[pages.len() - 1].len() > 0);
    }
}

/// When page `k` is the first empty page, the aggregate equals the
/// concatenation of the pages before it, which are exactly the non-empty
/// pages received, in order; pages after `k` change nothing.
pub proof fn lemma_pagination_aggregate(pages: Seq<Seq<Repo>>, k: int)
    requires
        0 <= k < pages.len(),
        pages[k].len() == 0,
        forall|i: int| 0 <= i < k ==> pages[i].len() > 0,
    ensures
        run_model(pages).done,
        run_model(pages).repos == concat_pages(pages.take(k)),
    decreases pages.len(),
{
    lemma_pagination_terminates_iff_empty(pages);
    if pages.len() - 1 == k {
        assert(pages.drop_last() =~= pages.take(k));
        lemma_pagination_aggregate_all_nonempty(pages.take(k));
    } else {
        assert(forall|i: int|
            0 <= i < pages.len() - 1 ==> pages.drop_last()[i] == pages[i]);
        lemma_pagination_aggregate(pages.drop_last(), k);
        assert(pages.drop_last().take(k) =~= pages.take(k));
    }
}

} // verus!
