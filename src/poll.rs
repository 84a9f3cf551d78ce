use vstd::prelude::*;
use crate::json::Json;
use crate::response::QueryResults;

verus! {

/// The request a session wants issued next.
#[derive(Debug, PartialEq, Eq)]
pub enum Request {
    /// Submit the statement to the server.
    Submit,
    /// Fetch the follow-up page at this URI, taken verbatim from the last response.
    Follow(String),
}

/// What a session knows: whether the statement was submitted, where to poll next,
/// the rows gathered so far and how many responses were taken in.
pub struct SessionModel {
    pub submitted: bool,
    pub next_uri: Option<Seq<char>>,
    pub rows: Seq<Json>,
    pub responses: nat,
}

/// The rows a page carries; a page without `data` carries none.
pub open spec fn page_rows(page: QueryResults) -> Seq<Json> {
    match page.data {
        Some(rows) => rows@,
        None => Seq::empty(),
    }
}

/// The follow-up URI of a page, as text.
pub open spec fn page_next(page: QueryResults) -> Option<Seq<char>> {
    match page.next_uri {
        Some(uri) => Some(uri@),
        None => None,
    }
}

/// The session before any request.
pub open spec fn initial_model() -> SessionModel {
    SessionModel { submitted: false, next_uri: None, rows: Seq::empty(), responses: 0 }
}

/// Whether the session still has a request to issue.
pub open spec fn wants_request(s: SessionModel) -> bool {
    !s.submitted || s.next_uri is Some
}

/// The session after taking in one response.
pub open spec fn after_page(s: SessionModel, page: QueryResults) -> SessionModel {
    SessionModel {
        submitted: true,
        next_uri: page_next(page),
        rows: s.rows + page_rows(page),
        responses: s.responses + 1,
    }
}

/// The session after taking in each of `pages`, in order.
pub open spec fn after_pages(pages: Seq<QueryResults>) -> SessionModel
    decreases pages.len(),
{
    if pages.len() == 0 {
        initial_model()
    } else {
        after_page(after_pages(pages.drop_last()), pages.last())
    }
}

/// The rows of all `pages`, concatenated in order.
pub open spec fn rows_of_pages(pages: Seq<QueryResults>) -> Seq<Json>
    decreases pages.len(),
{
    if pages.len() == 0 {
        Seq::empty()
    } else {
        rows_of_pages(pages.drop_last()) + page_rows(pages.last())
    }
}

/// The requests of one statement: a submission, then one follow-up for each URI that a
/// response hands back, until a response hands back none.
///
/// The rows of every response are gathered, the first one's included. The state that a
/// response reports is not inspected: a statement that ends `FAILED` or `ABORTED` is
/// followed like any other.
pub struct Session {
    submitted: bool,
    next_uri: Option<String>,
    rows: Vec<Json>,
    responses: Ghost<nat>,
}

impl View for Session {
    type V = SessionModel;

    closed spec fn view(&self) -> SessionModel {
        SessionModel {
            submitted: self.submitted,
            next_uri: match self.next_uri {
                Some(uri) => Some(uri@),
                None => None,
            },
            rows: self.rows@,
            responses: self.responses@,
        }
    }
}

impl Session {
    pub fn new() -> (r: Session)
        ensures
            r@ == initial_model(),
    {
        Session { submitted: false, next_uri: None, rows: Vec::new(), responses: Ghost(0) }
    }

    /// The request to issue next, or `None` once the last response held no follow-up URI.
    pub fn next_request(&self) -> (r: Option<Request>)
        ensures
            r is Some <==> wants_request(self@),
            !self@.submitted ==> r == Some(Request::Submit),
            self@.submitted ==> match self@.next_uri {
                Some(uri) => r matches Some(Request::Follow(u)) && u@ == uri,
                None => r is None,
            },
    {
        if !self.submitted {
            Some(Request::Submit)
        } else {
            match &self.next_uri {
                Some(uri) => Some(Request::Follow(uri.clone())),
                None => None,
            }
        }
    }

    /// Takes in the decoded response to the request last issued: appends its rows, if
    /// any, and remembers where to poll next.
    pub fn receive(&mut self, page: QueryResults)
        requires
            wants_request(old(self)@),
        ensures
            final(self)@ == after_page(old(self)@, page),
    {
        self.submitted = true;
        self.next_uri = page.next_uri;
        if let Some(mut rows) = page.data {
            self.rows.append(&mut rows);
        }
        self.responses = Ghost((self.responses@ + 1) as nat);
        assert(self.rows@ =~= old(self)@.rows + page_rows(page));
    }

    /// Whether the statement is done: submitted, and the last response held no follow-up URI.
    pub fn is_done(&self) -> (r: bool)
        ensures
            r == !wants_request(self@),
    {
        self.submitted && self.next_uri.is_none()
    }

    /// The rows gathered, in the order the pages came.
    pub fn into_rows(self) -> (r: Vec<Json>)
        ensures
            r@ == self@.rows,
    {
        self.rows
    }
}

/// A session fed a chain of pages, each but the last naming a follow-up, asks for one
/// request per page (the submission, then the follow-up URI of each page before it),
/// stops after the last, and returns the rows of all pages concatenated in order.
pub proof fn lemma_pagination(pages: Seq<QueryResults>)
    requires
        pages.len() >= 1,
        forall|i: int| 0 <= i < pages.len() - 1 ==> (#[trigger] pages[i]).next_uri is Some,
        pages.last().next_uri is None,
    ensures
        forall|i: int|
            0 <= i < pages.len() ==> wants_request(#[trigger] after_pages(pages.subrange(0, i))),
        forall|i: int|
            0 < i < pages.len() ==> #[trigger] after_pages(pages.subrange(0, i)).next_uri == page_next(pages[i - 1]),
        !wants_request(after_pages(pages)),
        after_pages(pages).responses == pages.len(),
        after_pages(pages).rows == rows_of_pages(pages),
{
    lemma_after_pages_counts(pages);
    assert forall|i: int| 0 <= i < pages.len() implies wants_request(
        #[trigger] after_pages(pages.subrange(0, i)),
    ) by {
        if i > 0 {
            let pre = pages.subrange(0, i);
            assert(pre.last() == pages[i - 1]);
        }
    }
    assert forall|i: int| 0 < i < pages.len() implies #[trigger] after_pages(
        pages.subrange(0, i),
    ).next_uri == page_next(pages[i - 1]) by {
        let pre = pages.subrange(0, i);
        assert(pre.last() == pages[i - 1]);
    }
}

proof fn lemma_after_pages_counts(pages: Seq<QueryResults>)
    ensures
        after_pages(pages).responses == pages.len(),
        after_pages(pages).rows == rows_of_pages(pages),
        pages.len() > 0 ==> after_pages(pages).submitted,
    decreases pages.len(),
{
    if pages.len() > 0 {
        lemma_after_pages_counts(pages.drop_last());
    }
}

/// A page without `data` that names a follow-up adds no row and leaves the session polling.
pub proof fn lemma_empty_page_skipped(s: SessionModel, page: QueryResults)
    requires
        page.data is None,
        page.next_uri is Some,
    ensures
        after_page(s, page).rows == s.rows,
        wants_request(after_page(s, page)),
{
    assert(s.rows + Seq::<Json>::empty() =~= s.rows);
}

/// Every row converted, or nothing: `Some` with the converted rows in order when each
/// conversion succeeded, `None` as soon as one of them failed.
pub fn collect_rows<T>(converted: Vec<Option<T>>) -> (r: Option<Vec<T>>)
    ensures
        match r {
            Some(rows) => rows@.len() == converted@.len() && forall|i: int|
                0 <= i < rows@.len() ==> converted@[i] == Some(#[trigger] rows@[i]),
            None => exists|i: int| 0 <= i < converted@.len() && converted@[i] is None,
        },
{
    let ghost all = converted@;
    let mut rest = converted;
    let mut out: Vec<T> = Vec::new();
    while rest.len() > 0
        invariant
            all == converted@,
            out@.len() + rest@.len() == all.len(),
            rest@ == all.subrange(out@.len() as int, all.len() as int),
            forall|i: int| 0 <= i < out@.len() ==> all[i] == Some(#[trigger] out@[i]),
        decreases rest.len(),
    {
        let ghost k = out@.len() as int;
        let item = rest.remove(0);
        assert(item == all[k]);
        match item {
            Some(row) => out.push(row),
            None => {
                assert(all[k] is None);
                return None;
            },
        }
        assert(rest@ =~= all.subrange(out@.len() as int, all.len() as int));
    }
    Some(out)
}

} // verus!
