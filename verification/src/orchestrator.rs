//! The orchestrator: drives the scrape loop as a state machine from state and
//! event to next state and action. The driver performs each returned action
//! against the browser session and reports the outcome back as the next
//! event; every decision stands here.

use crate::errors::ScrapeError;
use crate::extract::{extract_records, spec_extract};
use crate::filter::{year_option_xpath, year_option_xpath_seq};
use crate::pagination::{
    advance_script, advance_script_seq, check_pagination, pagination_exhausted, PageStep,
};
use crate::record::{Record, RecordStore, RecordView};
use vstd::prelude::*;
use vstd::string::*;

verus! {

/// The orchestrator's control state.
#[derive(Clone, Copy, Debug, PartialEq, Eq, Structural)]
pub enum Phase {
    /// Before the listing is opened.
    Ready,
    /// Filter values are being applied, one at a time.
    Filtering,
    /// The current page snapshot is awaited.
    Scraping,
    /// The pagination check is awaited.
    Checking,
    /// The advance action was issued; the settle delay is awaited.
    Advancing,
    /// All pages were scraped; the records are ready for export.
    Done,
    /// A fatal error ended the run.
    Failed,
}

/// What the driver reports back to the orchestrator.
pub enum Event {
    /// The session is up: the listing was opened and the window prepared.
    Started,
    /// The current filter value's option was clicked.
    FilterApplied,
    /// The current filter value's option could not be located.
    FilterMissing,
    /// The current rendered page snapshot.
    Page(String),
    /// The class attribute of the next-page control, if it has one.
    PaginationClass(Option<String>),
    /// The advance script ran and the settle delay passed.
    AdvanceDone,
    /// The automation collaborator failed to locate or operate an element.
    Failure,
}

/// The view of an event.
pub enum EventView {
    Started,
    FilterApplied,
    FilterMissing,
    Page(Seq<char>),
    PaginationClass(Option<Seq<char>>),
    AdvanceDone,
    Failure,
}

impl View for Event {
    type V = EventView;

    open spec fn view(&self) -> EventView {
        match *self {
            Event::Started => EventView::Started,
            Event::FilterApplied => EventView::FilterApplied,
            Event::FilterMissing => EventView::FilterMissing,
            Event::Page(ref m) => EventView::Page(m@),
            Event::PaginationClass(Some(ref c)) => EventView::PaginationClass(Some(c@)),
            Event::PaginationClass(None) => EventView::PaginationClass(None),
            Event::AdvanceDone => EventView::AdvanceDone,
            Event::Failure => EventView::Failure,
        }
    }
}

/// What the orchestrator asks the driver to do next.
pub enum Action {
    /// Locate the option under the given XPath and click it.
    ApplyFilter(String),
    /// Read the current rendered page snapshot and report it as `Page`.
    ReadPage,
    /// Read the next-page control's class attribute and report it as
    /// `PaginationClass`.
    ReadPaginationClass,
    /// Run the given script, wait the settle delay, and report `AdvanceDone`.
    Advance(String),
    /// Release the session and export the accumulated records.
    Finish,
    /// Abort the run with the given error.
    Abort(ScrapeError),
}

/// The view of an action.
pub enum ActionView {
    ApplyFilter(Seq<char>),
    ReadPage,
    ReadPaginationClass,
    Advance(Seq<char>),
    Finish,
    Abort(ScrapeError),
}

impl View for Action {
    type V = ActionView;

    open spec fn view(&self) -> ActionView {
        match *self {
            Action::ApplyFilter(ref x) => ActionView::ApplyFilter(x@),
            Action::ReadPage => ActionView::ReadPage,
            Action::ReadPaginationClass => ActionView::ReadPaginationClass,
            Action::Advance(ref s) => ActionView::Advance(s@),
            Action::Finish => ActionView::Finish,
            Action::Abort(e) => ActionView::Abort(e),
        }
    }
}

/// The view of the orchestrator: phase, filter years, how many of them were
/// dispatched, and the accumulated records.
pub struct OrchView {
    pub phase: Phase,
    pub years: Seq<u64>,
    pub next_year: int,
    pub store: Seq<RecordView>,
}

/// Drives the loop: apply filters once, then render, extract and advance
/// until the pagination control is exhausted.
pub struct Orchestrator {
    phase: Phase,
    years: Vec<u64>,
    next_year: usize,
    store: RecordStore,
}

impl View for Orchestrator {
    type V = OrchView;

    closed spec fn view(&self) -> OrchView {
        OrchView {
            phase: self.phase,
            years: self.years@,
            next_year: self.next_year as int,
            store: self.store@,
        }
    }
}

/// The failed state and the abort action for `e`.
pub open spec fn fail_view(st: OrchView, e: ScrapeError) -> (OrchView, ActionView) {
    ((OrchView { phase: Phase::Failed, ..st }), ActionView::Abort(e))
}

/// One transition of the control loop: from state and event to next state and
/// action. An event that does not belong to the current phase is a protocol
/// violation by the driver and fails the run.
pub open spec fn step_view(st: OrchView, ev: EventView) -> (OrchView, ActionView) {
    match (st.phase, ev) {
        (Phase::Ready, EventView::Started) => {
            if st.years.len() == 0 {
                ((OrchView { phase: Phase::Scraping, ..st }), ActionView::ReadPage)
            } else {
                (
                    (OrchView { phase: Phase::Filtering, next_year: 1, ..st }),
                    ActionView::ApplyFilter(year_option_xpath_seq(st.years[0])),
                )
            }
        },
        (Phase::Filtering, EventView::FilterApplied) => {
            if st.next_year < st.years.len() {
                (
                    (OrchView { next_year: st.next_year + 1, ..st }),
                    ActionView::ApplyFilter(year_option_xpath_seq(st.years[st.next_year])),
                )
            } else {
                ((OrchView { phase: Phase::Scraping, ..st }), ActionView::ReadPage)
            }
        },
        (Phase::Filtering, EventView::FilterMissing) => fail_view(st, ScrapeError::FilterNotFound),
        (Phase::Scraping, EventView::Page(m)) => {
            match spec_extract(m) {
                Ok(rs) => (
                    (OrchView { phase: Phase::Checking, store: st.store + rs, ..st }),
                    ActionView::ReadPaginationClass,
                ),
                Err(e) => fail_view(st, e),
            }
        },
        (Phase::Checking, EventView::PaginationClass(Some(c))) => {
            if pagination_exhausted(c) {
                ((OrchView { phase: Phase::Done, ..st }), ActionView::Finish)
            } else {
                (
                    (OrchView { phase: Phase::Advancing, ..st }),
                    ActionView::Advance(advance_script_seq()),
                )
            }
        },
        (Phase::Checking, EventView::PaginationClass(None)) => fail_view(
            st,
            ScrapeError::NavigationError,
        ),
        (Phase::Advancing, EventView::AdvanceDone) => (
            (OrchView { phase: Phase::Scraping, ..st }),
            ActionView::ReadPage,
        ),
        _ => fail_view(st, ScrapeError::NavigationError),
    }
}

impl Orchestrator {
    /// A fresh orchestrator for the given filter years, before the listing is
    /// opened.
    pub fn new(years: Vec<u64>) -> (r: Self)
        ensures
            r@.phase == Phase::Ready,
            r@.years == years@,
            r@.next_year == 0,
            r@.store == Seq::<RecordView>::empty(),
    {
        Orchestrator { phase: Phase::Ready, years, next_year: 0, store: RecordStore::new() }
    }

    /// The current phase.
    pub fn phase(&self) -> (p: Phase)
        ensures
            p == self@.phase,
    {
        self.phase
    }

    /// The records accumulated so far, in first-seen order.
    pub fn records(&self) -> (r: &Vec<Record>)
        ensures
            r.deep_view() == self@.store,
    {
        self.store.records()
    }

    /// Hands the accumulated records out for export.
    pub fn into_records(self) -> (r: Vec<Record>)
        ensures
            r.deep_view() == self@.store,
    {
        self.store.into_items()
    }

    fn fail(&mut self, e: ScrapeError) -> (a: Action)
        ensures
            (final (self)@, a@) == fail_view(old(self)@, e),
    {
        self.phase = Phase::Failed;
        Action::Abort(e)
    }

    /// One step of the control loop: consumes the driver's event and returns
    /// the next action to perform.
    pub fn step(&mut self, event: Event) -> (a: Action)
        ensures
            (final (self)@, a@) == step_view(old(self)@, event@),
    {
        match (self.phase, event) {
            (Phase::Ready, Event::Started) => {
                if self.years.len() == 0 {
                    self.phase = Phase::Scraping;
                    Action::ReadPage
                } else {
                    self.phase = Phase::Filtering;
                    self.next_year = 1;
                    let xp = year_option_xpath(self.years[0]);
                    Action::ApplyFilter(xp)
                }
            },
            (Phase::Filtering, Event::FilterApplied) => {
                if self.next_year < self.years.len() {
                    let y = self.years[self.next_year];
                    self.next_year = self.next_year + 1;
                    Action::ApplyFilter(year_option_xpath(y))
                } else {
                    self.phase = Phase::Scraping;
                    Action::ReadPage
                }
            },
            (Phase::Filtering, Event::FilterMissing) => self.fail(ScrapeError::FilterNotFound),
            (Phase::Scraping, Event::Page(m)) => {
                match extract_records(m.as_str()) {
                    Ok(recs) => {
                        self.store.append_all(&recs);
                        self.phase = Phase::Checking;
                        Action::ReadPaginationClass
                    },
                    Err(e) => self.fail(e),
                }
            },
            (Phase::Checking, Event::PaginationClass(opt)) => {
                match opt {
                    Some(c) => {
                        match check_pagination(c.as_str()) {
                            PageStep::Exhausted => {
                                self.phase = Phase::Done;
                                Action::Finish
                            },
                            PageStep::HasNext => {
                                self.phase = Phase::Advancing;
                                Action::Advance(String::from_str(advance_script()))
                            },
                        }
                    },
                    None => self.fail(ScrapeError::NavigationError),
                }
            },
            (Phase::Advancing, Event::AdvanceDone) => {
                self.phase = Phase::Scraping;
                Action::ReadPage
            },
            (_, ev) => self.fail(ScrapeError::NavigationError),
        }
    }
}

/// The scrape loop from the `Scraping` phase, over the page snapshots and
/// pagination classes the driver would report, cycle by cycle: the final
/// state and the number of scrape cycles performed.
pub open spec fn run_view(st: OrchView, pages: Seq<Seq<char>>, classes: Seq<Seq<char>>) -> (
    OrchView,
    nat,
)
    decreases pages.len(),
{
    if pages.len() == 0 || classes.len() == 0 {
        (st, 0)
    } else {
        let s1 = step_view(st, EventView::Page(pages[0]));
        if s1.0.phase != Phase::Checking {
            (s1.0, 1)
        } else {
            let s2 = step_view(s1.0, EventView::PaginationClass(Some(classes[0])));
            if s2.0.phase == Phase::Advancing {
                let s3 = step_view(s2.0, EventView::AdvanceDone);
                let rest = run_view(s3.0, pages.drop_first(), classes.drop_first());
                (rest.0, 1 + rest.1)
            } else {
                (s2.0, 1)
            }
        }
    }
}

/// The records of a run of pages, page by page, in page order.
pub open spec fn pages_records(pages: Seq<Seq<char>>) -> Seq<RecordView>
    decreases pages.len(),
{
    if pages.len() == 0 {
        Seq::empty()
    } else {
        (match spec_extract(pages[0]) {
            Ok(rs) => rs,
            Err(_) => Seq::empty(),
        }) + pages_records(pages.drop_first())
    }
}

/// Law: for a table of `n` pages — every page extracting cleanly, the
/// pagination control enabled on the first `n - 1` checks and disabled on the
/// `n`-th — the loop performs exactly `n` scrape cycles: the pagination check
/// is exhausted exactly once, on the `n`-th check, the run ends `Done`, and
/// the store accumulates the records of all `n` pages in order.
pub proof fn lemma_run_scrapes_every_page(
    st: OrchView,
    pages: Seq<Seq<char>>,
    classes: Seq<Seq<char>>,
    n: nat,
)
    requires
        st.phase == Phase::Scraping,
        pages.len() == n,
        classes.len() == n,
        n >= 1,
        forall|i: int| 0 <= i < n ==> #[trigger] spec_extract(pages[i]) is Ok,
        forall|i: int| 0 <= i < n - 1 ==> !pagination_exhausted(#[trigger] classes[i]),
        pagination_exhausted(classes[n - 1]),
    ensures
        run_view(st, pages, classes).1 == n,
        run_view(st, pages, classes).0.phase == Phase::Done,
        run_view(st, pages, classes).0.store == st.store + pages_records(pages),
    decreases n,
{
    assert(spec_extract(pages[0]) is Ok);
    let rs0 = spec_extract(pages[0])->Ok_0;
    let s1 = step_view(st, EventView::Page(pages[0]));
    assert(s1.0.phase == Phase::Checking);
    let s2 = step_view(s1.0, EventView::PaginationClass(Some(classes[0])));
    if n == 1 {
        assert(pagination_exhausted(classes[0]));
        assert(s2.0.phase == Phase::Done);
        assert(run_view(st, pages, classes).1 == 1);
        reveal_with_fuel(pages_records, 2);
        assert(pages.drop_first().len() == 0);
        assert(s2.0.store =~= st.store + pages_records(pages));
    } else {
        assert(!pagination_exhausted(classes[0]));
        assert(s2.0.phase == Phase::Advancing);
        let s3 = step_view(s2.0, EventView::AdvanceDone);
        assert(s3.0.phase == Phase::Scraping);
        let tail_pages = pages.drop_first();
        let tail_classes = classes.drop_first();
        assert forall|i: int| 0 <= i < n - 1 implies #[trigger] spec_extract(
            tail_pages[i],
        ) is Ok by {
            assert(tail_pages[i] == pages[i + 1]);
        }
        assert forall|i: int| 0 <= i < n - 2 implies !pagination_exhausted(
            #[trigger] tail_classes[i],
        ) by {
            assert(tail_classes[i] == classes[i + 1]);
        }
        assert(tail_classes[n - 2] == classes[n - 1]);
        lemma_run_scrapes_every_page(s3.0, tail_pages, tail_classes, (n - 1) as nat);
        assert(run_view(st, pages, classes).0.store == s3.0.store + pages_records(tail_pages));
        assert(s3.0.store == st.store + rs0);
        assert((st.store + rs0) + pages_records(tail_pages) =~= st.store + pages_records(pages));
    }
}

/// Law: when extraction of page `j` fails — a malformed row — after `j`
/// clean cycles, the run aborts at once: `j + 1` cycles in all, the `Failed`
/// phase, the store holding only the earlier pages' records, and no `Finish`
/// action, so no export occurs.
pub proof fn lemma_malformed_page_aborts(
    st: OrchView,
    pages: Seq<Seq<char>>,
    classes: Seq<Seq<char>>,
    j: nat,
    e: ScrapeError,
)
    requires
        st.phase == Phase::Scraping,
        j < pages.len(),
        j < classes.len(),
        forall|i: int| 0 <= i < j ==> #[trigger] spec_extract(pages[i]) is Ok,
        forall|i: int| 0 <= i < j ==> !pagination_exhausted(#[trigger] classes[i]),
        spec_extract(pages[j as int]) == Err::<Seq<RecordView>, ScrapeError>(e),
    ensures
        run_view(st, pages, classes).0.phase == Phase::Failed,
        run_view(st, pages, classes).1 == j + 1,
        run_view(st, pages, classes).0.store == st.store + pages_records(pages.take(j as int)),
    decreases j,
{
    let s1 = step_view(st, EventView::Page(pages[0]));
    if j == 0 {
        assert(s1.0.phase == Phase::Failed);
        assert(run_view(st, pages, classes) == (s1.0, 1nat));
        assert(pages.take(0).len() == 0);
        assert(s1.0.store =~= st.store + pages_records(pages.take(0)));
    } else {
        assert(spec_extract(pages[0]) is Ok);
        let rs0 = spec_extract(pages[0])->Ok_0;
        assert(s1.0.phase == Phase::Checking);
        let s2 = step_view(s1.0, EventView::PaginationClass(Some(classes[0])));
        assert(!pagination_exhausted(classes[0]));
        assert(s2.0.phase == Phase::Advancing);
        let s3 = step_view(s2.0, EventView::AdvanceDone);
        assert(s3.0.phase == Phase::Scraping);
        let tail_pages = pages.drop_first();
        let tail_classes = classes.drop_first();
        assert forall|i: int| 0 <= i < j - 1 implies #[trigger] spec_extract(
            tail_pages[i],
        ) is Ok by {
            assert(tail_pages[i] == pages[i + 1]);
        }
        assert forall|i: int| 0 <= i < j - 1 implies !pagination_exhausted(
            #[trigger] tail_classes[i],
        ) by {
            assert(tail_classes[i] == classes[i + 1]);
        }
        assert(tail_pages[j - 1] == pages[j as int]);
        lemma_malformed_page_aborts(s3.0, tail_pages, tail_classes, (j - 1) as nat, e);
        assert(run_view(st, pages, classes).0.store == s3.0.store + pages_records(
            tail_pages.take(j - 1),
        ));
        assert(s3.0.store == st.store + rs0);
        assert(tail_pages.take(j - 1) =~= pages.take(j as int).drop_first());
        assert(pages.take(j as int)[0] == pages[0]);
        assert((st.store + rs0) + pages_records(tail_pages.take(j - 1)) =~= st.store
            + pages_records(pages.take(j as int)));
    }
}

} // verus!
