//! The pagination engine.
//!
//! The API serves results page by page; the engine turns that into one
//! forward-only sequence of items. It is a pull-driven state machine: the
//! driver repeatedly asks for the next step, and when the engine needs a
//! page it hands the driver the page number to fetch and is given the raw
//! bytes (or the transport failure) in return. Network transport itself
//! stays outside the engine.

use vstd::prelude::*;

pub mod attributes;
pub mod serde;

use crate::error::last_fm::{LastFmError, LastFmErrorResponse};
use crate::error::response::ResponseSeed;
use crate::error::{Error, ErrorModel};
use crate::json::{json_of, parse_json, views_of, FromJson, Json};
use crate::page::attributes::Attributes;
use crate::page::serde::{page_decode_spec, PageSeed};

verus! {

/// One fetched page: its metadata and its items in server order.
#[derive(Debug, PartialEq)]
pub struct Page<T> {
    pub attr: Attributes,
    pub items: Vec<T>,
}

/// How many items to request per page.
#[derive(Debug, Clone, Copy, PartialEq, Eq, Structural)]
pub struct PaginationConfig {
    pub page_size: usize,
}

impl Default for PaginationConfig {
    /// The default page size is 50.
    fn default() -> (r: Self)
        ensures
            r.page_size == 50,
    {
        PaginationConfig { page_size: 50 }
    }
}

/// Where the engine stands in its life cycle.
#[derive(Debug, Clone, Copy, PartialEq, Eq, Structural)]
pub enum StreamState {
    /// Created; the first page has not been fetched yet.
    Priming,
    /// A page has been recorded; items may be buffered.
    Buffered,
    /// The buffer is drained and the next page's fetch is pending.
    Fetching,
    /// Terminal: the declared last page was passed, or an error was (or is
    /// about to be) emitted.
    Exhausted,
}

/// What one pull from the engine produces.
#[derive(Debug, PartialEq)]
pub enum Step<T> {
    /// The next item of the sequence.
    Item(T),
    /// No item is buffered: the driver must fetch this page number and
    /// report back through `on_fetch`, then pull again.
    Fetch(u64),
    /// The single terminal error of the sequence; the next pull ends it.
    Fail(Error),
    /// The sequence has ended.
    End,
}

/// The mathematical shape of a [`Step`], over item views.
#[verifier::ext_equal]
pub enum StepModel<V> {
    Item(V),
    Fetch(u64),
    Fail(ErrorModel),
    End,
}

impl<T: View> View for Step<T> {
    type V = StepModel<T::V>;

    open spec fn view(&self) -> StepModel<T::V> {
        match self {
            Step::Item(t) => StepModel::Item(t@),
            Step::Fetch(n) => StepModel::Fetch(*n),
            Step::Fail(e) => StepModel::Fail(e@),
            Step::End => StepModel::End,
        }
    }
}

/// The mathematical state of a pagination engine, over item views.
#[verifier::ext_equal]
pub struct EngineModel<V> {
    /// The root key name of the expected success payloads.
    pub root: Seq<char>,
    /// The content key name of the expected success payloads.
    pub content: Seq<char>,
    /// The page size the pagination was started with.
    pub page_size: usize,
    /// The items fetched but not yet yielded, in yield order.
    pub buffered: Seq<V>,
    /// The metadata of the last recorded page, absent before the first.
    pub attributes: Option<Attributes>,
    /// The next page number to fetch.
    pub next_page: u64,
    pub state: StreamState,
    /// The terminal error still to be yielded, when one occurred.
    pub pending: Option<ErrorModel>,
}

impl<V> EngineModel<V> {
    /// The engine's internal consistency: items are buffered only in the
    /// buffered state, metadata is recorded from the first successful fetch
    /// on, an error is pending only once exhausted, and page numbers start
    /// at one.
    pub open spec fn wf(self) -> bool {
        &&& self.next_page >= 1
        &&& (self.state == StreamState::Priming ==> self.attributes is None
            && self.buffered.len() == 0 && self.pending is None && self.next_page == 1)
        &&& (self.state == StreamState::Buffered ==> self.attributes is Some
            && self.pending is None && self.next_page >= 2)
        &&& (self.state == StreamState::Fetching ==> self.attributes is Some
            && self.pending is None && self.buffered.len() == 0 && self.next_page >= 2)
        &&& (self.pending is Some ==> self.state == StreamState::Exhausted)
        &&& (self.state == StreamState::Exhausted ==> self.buffered.len() == 0)
    }
}

/// A fetch outcome as handed over by the driver, in mathematical shape:
/// the response bytes, or the transport's diagnostic message.
pub open spec fn outcome_view(o: Result<Vec<u8>, String>) -> Result<Seq<u8>, Seq<char>> {
    match o {
        Ok(b) => Ok(b@),
        Err(m) => Err(m@),
    }
}

/// What a fetch outcome decodes to: a transport failure is terminal as it
/// is; response bytes are parsed and then decoded as an envelope, error
/// shape first, page shape second.
pub open spec fn fetch_outcome_spec<T: FromJson>(
    root: Seq<char>,
    content: Seq<char>,
    outcome: Result<Seq<u8>, Seq<char>>,
) -> Result<(Attributes, Seq<T::V>), ErrorModel> {
    match outcome {
        Err(m) => Err(ErrorModel::RequestFailed(m)),
        Ok(b) => match json_of(b) {
            Err(pm) => Err(ErrorModel::ParseError(pm)),
            Ok(doc) => match LastFmErrorResponse::from_json_spec(doc) {
                Some(e) => Err(ErrorModel::ApiError(LastFmError::from_response_spec(e))),
                None => match page_decode_spec::<T>(doc, root, content) {
                    Ok(p) => Ok(p),
                    Err(m) => Err(ErrorModel::ParseError(m)),
                },
            },
        },
    }
}

/// What one pull does: yield a buffered item; ask for a fetch when the
/// buffer is drained; yield the pending error once; or end.
pub open spec fn step_spec<V>(m: EngineModel<V>) -> (EngineModel<V>, StepModel<V>) {
    match m.state {
        StreamState::Priming => (m, StepModel::Fetch(m.next_page)),
        StreamState::Buffered => if m.buffered.len() > 0 {
            (
                EngineModel { buffered: m.buffered.skip(1), ..m },
                StepModel::Item(m.buffered[0]),
            )
        } else {
            (EngineModel { state: StreamState::Fetching, ..m }, StepModel::Fetch(m.next_page))
        },
        StreamState::Fetching => (m, StepModel::Fetch(m.next_page)),
        StreamState::Exhausted => match m.pending {
            Some(e) => (EngineModel { pending: None, ..m }, StepModel::Fail(e)),
            None => (m, StepModel::End),
        },
    }
}

/// What delivering a fetch outcome does. The first page is recorded
/// unconditionally; later pages end the sequence without error when the
/// reported page number exceeds the reported total. Any failure becomes the
/// pending terminal error. The page counter saturates rather than wrap.
pub open spec fn on_fetch_spec<T: FromJson>(
    m: EngineModel<T::V>,
    outcome: Result<Seq<u8>, Seq<char>>,
) -> EngineModel<T::V> {
    match fetch_outcome_spec::<T>(m.root, m.content, outcome) {
        Err(e) => EngineModel { state: StreamState::Exhausted, pending: Some(e), ..m },
        Ok((attr, items)) => if m.state == StreamState::Priming {
            EngineModel {
                attributes: Some(attr),
                buffered: items,
                state: StreamState::Buffered,
                next_page: 2,
                ..m
            }
        } else if attr.page > attr.total_pages {
            EngineModel { state: StreamState::Exhausted, ..m }
        } else {
            EngineModel {
                attributes: Some(attr),
                buffered: items,
                state: StreamState::Buffered,
                next_page: if m.next_page < u64::MAX {
                    (m.next_page + 1) as u64
                } else {
                    m.next_page
                },
                ..m
            }
        },
    }
}

/// The pagination engine: a forward-only, restart-free item sequence drawn
/// from successive page fetches.
pub struct Paginated<T> {
    seed: ResponseSeed<T>,
    page_size: usize,
    buf: Vec<T>,
    attributes: Option<Attributes>,
    next_page: u64,
    state: StreamState,
    pending: Option<Error>,
}

impl<T: View> View for Paginated<T> {
    type V = EngineModel<T::V>;

    closed spec fn view(&self) -> EngineModel<T::V> {
        EngineModel {
            root: self.seed.ok_seed.root@,
            content: self.seed.ok_seed.content.content@,
            page_size: self.page_size,
            buffered: views_of(self.buf@),
            attributes: self.attributes,
            next_page: self.next_page,
            state: self.state,
            pending: match self.pending {
                Some(e) => Some(e@),
                None => None,
            },
        }
    }
}

impl<T: View> Paginated<T> {
    /// A fresh engine for the given key names and page size, before any
    /// fetch.
    pub fn new(root: &str, content: &str, config: PaginationConfig) -> (r: Self)
        ensures
            r@ =~= (EngineModel::<T::V> {
                root: root@,
                content: content@,
                page_size: config.page_size,
                buffered: Seq::empty(),
                attributes: None,
                next_page: 1,
                state: StreamState::Priming,
                pending: None,
            }),
            r@.wf(),
    {
        Paginated {
            seed: ResponseSeed::new(PageSeed::new(root, content)),
            page_size: config.page_size,
            buf: Vec::new(),
            attributes: None,
            next_page: 1,
            state: StreamState::Priming,
            pending: None,
        }
    }

    /// The metadata of the last recorded page.
    pub fn attributes(&self) -> (r: Option<Attributes>)
        ensures
            r == self@.attributes,
    {
        self.attributes
    }

    /// Where the engine stands.
    pub fn state(&self) -> (r: StreamState)
        ensures
            r == self@.state,
    {
        self.state
    }

    /// The page size the pagination was started with.
    pub fn page_size(&self) -> (r: usize)
        ensures
            r == self@.page_size,
    {
        self.page_size
    }

    /// Pulls once: exactly [`step_spec`] on the engine's state.
    pub fn step(&mut self) -> (r: Step<T>)
        requires
            old(self)@.wf(),
        ensures
            final(self)@ =~= step_spec(old(self)@).0,
            r@ =~= step_spec(old(self)@).1,
            final(self)@.wf(),
    {
        match self.state {
            StreamState::Priming => Step::Fetch(self.next_page),
            StreamState::Buffered => {
                if self.buf.len() > 0 {
                    let t = self.buf.remove(0);
                    proof {
                        assert forall|j: int| 0 <= j < self.buf@.len() implies views_of(
                            self.buf@,
                        )[j] == old(self)@.buffered.skip(1)[j] by {
                            assert(views_of(self.buf@)[j] == self.buf@[j]@);
                            assert(old(self)@.buffered.skip(1)[j] == old(self).buf@[j + 1]@);
                        }
                        assert(views_of(self.buf@) =~= old(self)@.buffered.skip(1));
                        assert(views_of(old(self).buf@)[0] == old(self).buf@[0]@);
                    }
                    Step::Item(t)
                } else {
                    self.state = StreamState::Fetching;
                    Step::Fetch(self.next_page)
                }
            },
            StreamState::Fetching => Step::Fetch(self.next_page),
            StreamState::Exhausted => {
                match self.pending.take() {
                    Some(e) => Step::Fail(e),
                    None => Step::End,
                }
            },
        }
    }
}

impl<T: FromJson> Paginated<T> {
    /// Delivers the outcome of the fetch the engine asked for: exactly
    /// [`on_fetch_spec`] on the engine's state.
    pub fn on_fetch(&mut self, outcome: Result<Vec<u8>, String>)
        requires
            old(self)@.wf(),
            old(self)@.state == StreamState::Priming || old(self)@.state == StreamState::Fetching,
        ensures
            final(self)@ =~= on_fetch_spec::<T>(old(self)@, outcome_view(outcome)),
            final(self)@.wf(),
    {
        match outcome {
            Err(m) => {
                self.state = StreamState::Exhausted;
                self.pending = Some(Error::RequestFailed(m));
            },
            Ok(bytes) => {
                match parse_json(bytes.as_slice()) {
                    Err(m) => {
                        self.state = StreamState::Exhausted;
                        self.pending = Some(Error::ParseError(m));
                    },
                    Ok(doc) => {
                        match self.seed.decode(&doc) {
                            Err(e) => {
                                self.state = StreamState::Exhausted;
                                self.pending = Some(e);
                            },
                            Ok(resp) => {
                                match resp.into_result() {
                                    Err(e) => {
                                        self.state = StreamState::Exhausted;
                                        self.pending = Some(e);
                                    },
                                    Ok(page) => {
                                        if self.state == StreamState::Priming {
                                            self.attributes = Some(page.attr);
                                            self.buf = page.items;
                                            self.state = StreamState::Buffered;
                                            self.next_page = 2;
                                        } else if page.attr.page > page.attr.total_pages {
                                            self.state = StreamState::Exhausted;
                                        } else {
                                            self.attributes = Some(page.attr);
                                            self.buf = page.items;
                                            self.state = StreamState::Buffered;
                                            if self.next_page < u64::MAX {
                                                self.next_page = self.next_page + 1;
                                            }
                                        }
                                    },
                                }
                            },
                        }
                    },
                }
            },
        }
    }
}

/// Two engines in equal states react identically: one pull produces the
/// same step and equal successor states, and one fetch outcome produces
/// equal successor states. With [`Paginated::step`] and
/// [`Paginated::on_fetch`] each pinned to these transition functions, two
/// paginations started from the same inputs and answered identically by the
/// server yield identical item sequences.
pub proof fn lemma_engine_deterministic<T: FromJson>(
    m1: EngineModel<T::V>,
    m2: EngineModel<T::V>,
    outcome: Result<Seq<u8>, Seq<char>>,
)
    requires
        m1 =~= m2,
    ensures
        step_spec(m1) == step_spec(m2),
        on_fetch_spec::<T>(m1, outcome) == on_fetch_spec::<T>(m2, outcome),
{
}

/// During pagination too, a response that decodes as the error shape
/// always becomes the mapped error condition, never a page, whatever other
/// fields the document holds.
pub proof fn lemma_error_shape_wins_fetch<T: FromJson>(
    root: Seq<char>,
    content: Seq<char>,
    b: Seq<u8>,
)
    requires
        json_of(b) is Ok,
        LastFmErrorResponse::from_json_spec(json_of(b)->Ok_0) is Some,
    ensures
        fetch_outcome_spec::<T>(root, content, Ok(b)) == Err::<(Attributes, Seq<T::V>), ErrorModel>(
            ErrorModel::ApiError(
                LastFmError::from_response_spec(
                    LastFmErrorResponse::from_json_spec(json_of(b)->Ok_0)->Some_0,
                ),
            ),
        ),
{
}

/// A sequence ends exactly once: in the exhausted state a pending error is
/// yielded on one pull and cleared by it, every later pull answers that
/// the sequence has ended, and the engine never leaves the exhausted
/// state.
pub proof fn lemma_single_terminal_error<V>(m: EngineModel<V>)
    requires
        m.wf(),
        m.state == StreamState::Exhausted,
    ensures
        step_spec(m).0.state == StreamState::Exhausted,
        m.pending matches Some(e) ==> step_spec(m).1 == StepModel::<V>::Fail(e)
            && step_spec(step_spec(m).0).1 == StepModel::<V>::End,
        m.pending is None ==> step_spec(m).1 == StepModel::<V>::End && step_spec(m).0 == m,
{
}

/// The engine after pulling `k` times without any fetch, together with the
/// answers of those pulls.
pub open spec fn drain_steps<V>(m: EngineModel<V>, k: nat) -> (EngineModel<V>, Seq<StepModel<V>>)
    decreases k,
{
    if k == 0 {
        (m, Seq::empty())
    } else {
        let first = step_spec(m);
        let rest = drain_steps(first.0, (k - 1) as nat);
        (rest.0, seq![first.1] + rest.1)
    }
}

/// A buffered engine hands its items out in order: as many pulls as there
/// are buffered items answer exactly those items, first to last, with no
/// fetch in between; the pull after that asks for the engine's next page.
pub proof fn lemma_buffered_items_in_order<V>(m: EngineModel<V>)
    requires
        m.wf(),
        m.state == StreamState::Buffered,
    ensures
        drain_steps(m, m.buffered.len()).1.len() == m.buffered.len(),
        forall|i: int| 0 <= i < m.buffered.len() ==> drain_steps(m, m.buffered.len()).1[i]
            == StepModel::<V>::Item(m.buffered[i]),
        drain_steps(m, m.buffered.len()).0.state == StreamState::Buffered,
        drain_steps(m, m.buffered.len()).0.buffered.len() == 0,
        drain_steps(m, m.buffered.len()).0.attributes == m.attributes,
        drain_steps(m, m.buffered.len()).0.next_page == m.next_page,
        step_spec(drain_steps(m, m.buffered.len()).0).1 == StepModel::<V>::Fetch(m.next_page),
    decreases m.buffered.len(),
{
    if m.buffered.len() > 0 {
        let first = step_spec(m);
        lemma_buffered_items_in_order(first.0);
        let rest = drain_steps(first.0, first.0.buffered.len());
        assert forall|i: int| 0 <= i < m.buffered.len() implies drain_steps(
            m,
            m.buffered.len(),
        ).1[i] == StepModel::<V>::Item(m.buffered[i]) by {
            if i > 0 {
                assert((seq![first.1] + rest.1)[i] == rest.1[i - 1]);
                assert(first.0.buffered[i - 1] == m.buffered[i]);
            }
        }
    }
}

} // verus!
