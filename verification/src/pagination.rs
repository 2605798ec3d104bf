//! Job lists, cut into numbered pages.

use crate::job::JobEnvelope;
use crate::query::QueueListOpts;
use vstd::prelude::*;

verus! {

/// How many jobs a page shows.
pub const JOBS_PER_PAGE: usize = 50;

/// A page of a job list.
#[derive(Debug)]
pub struct JobPage {
    /// The jobs on this page.
    pub jobs: Vec<JobEnvelope>,
    /// The number of this page; the first is 1.
    pub number: usize,
    /// The length of the whole list.
    pub total: usize,
    /// Whether there are jobs beyond this page.
    pub has_next: bool,
}

/// The number of the last page of a list; a list without jobs has one page too.
pub open spec fn last_page(total: int) -> int {
    if total <= 0 {
        1
    } else {
        (total + JOBS_PER_PAGE - 1) / (JOBS_PER_PAGE as int)
    }
}

/// The page that is shown where `page` is asked for: the first where that is
/// before it, the last where that is beyond it.
pub open spec fn clamped(page: int, total: int) -> int {
    if page < 1 {
        1
    } else if page > last_page(total) {
        last_page(total)
    } else {
        page
    }
}

/// The number of a page; there is no page before the first.
pub open spec fn page_number(page: int) -> int {
    if page < 1 {
        1
    } else {
        page
    }
}

/// How many jobs stand before a page.
pub open spec fn jobs_before(page: int) -> int {
    (page_number(page) - 1) * JOBS_PER_PAGE
}

/// The jobs of a list that belong on a page.
pub open spec fn page_of<T>(list: Seq<T>, page: int) -> Seq<T> {
    list.subrange(
        crate::query::at_most(jobs_before(page), list.len() as int),
        crate::query::at_most(jobs_before(page) + JOBS_PER_PAGE, list.len() as int),
    )
}

impl JobPage {
    /// A page has a number from 1 on, it is never overfull, and it is full where
    /// there are jobs beyond it.
    pub open spec fn well_formed(self) -> bool {
        &&& self.number >= 1
        &&& self.jobs@.len() <= JOBS_PER_PAGE
        &&& self.has_next ==> self.jobs@.len() == JOBS_PER_PAGE
    }

    /// The page to show where `page` is asked for and the list has `total` jobs.
    pub fn clamp_number(page: usize, total: usize) -> (number: usize)
        ensures
            number == clamped(page as int, total as int),
            number >= 1,
            page >= 1 ==> number <= page,
    {
        let whole: usize = total / JOBS_PER_PAGE;
        let pages: usize = if total % JOBS_PER_PAGE == 0 {
            whole
        } else {
            whole + 1
        };
        let last: usize = if pages == 0 {
            1
        } else {
            pages
        };
        if page < 1 {
            1
        } else if page > last {
            last
        } else {
            page
        }
    }

    /// What to read for a page: its jobs, and one more to tell whether there is
    /// a next page.
    pub fn list_opts(page: usize) -> (options: QueueListOpts)
        requires
            jobs_before(page as int) <= usize::MAX,
        ensures
            options.count == JOBS_PER_PAGE + 1,
            options.offset == jobs_before(page as int),
            options.count == 51,
            page == 0 ==> options.offset == 0,
            page >= 1 ==> options.offset == (page - 1) * 50,
    {
        let number: usize = if page < 1 {
            1
        } else {
            page
        };
        QueueListOpts { count: JOBS_PER_PAGE + 1, offset: (number - 1) * JOBS_PER_PAGE }
    }

    /// The page that is made of what was read for it.
    pub fn new(page: usize, total: usize, jobs: Vec<JobEnvelope>) -> (made: JobPage)
        ensures
            made.jobs@ == jobs@.take(
                crate::query::at_most(JOBS_PER_PAGE as int, jobs@.len() as int),
            ),
            jobs@.len() <= 50 ==> made.jobs@ == jobs@ && !made.has_next,
            jobs@.len() > 50 ==> made.jobs@ == jobs@.take(50) && made.has_next,
            made.number == page_number(page as int),
            page == 0 ==> made.number == 1,
            page >= 1 ==> made.number == page,
            made.total == total,
            made.has_next == (jobs@.len() > JOBS_PER_PAGE),
            made.well_formed(),
    {
        let mut jobs = jobs;
        let has_next = jobs.len() > JOBS_PER_PAGE;
        jobs.truncate(JOBS_PER_PAGE);
        let number: usize = if page < 1 {
            1
        } else {
            page
        };
        JobPage { jobs, number, total, has_next }
    }

    /// The position in the list of the first job on this page, counted from 1.
    pub fn range_start(&self) -> (position: usize)
        requires
            self.number >= 1,
            jobs_before(self.number as int) + 1 <= usize::MAX,
        ensures
            position == jobs_before(self.number as int) + 1,
            position == (self.number - 1) * 50 + 1,
    {
        (self.number - 1) * JOBS_PER_PAGE + 1
    }

    /// The position in the list of the last job on this page, counted from 1;
    /// never beyond the length of the list.
    pub fn range_end(&self) -> (position: usize)
        requires
            self.number >= 1,
            jobs_before(self.number as int) + self.jobs@.len() <= usize::MAX,
        ensures
            position == crate::query::at_most(
                jobs_before(self.number as int) + self.jobs@.len(),
                self.total as int,
            ),
            position <= self.total,
            position <= (self.number - 1) * 50 + self.jobs@.len(),
            position == self.total || position == (self.number - 1) * 50 + self.jobs@.len(),
    {
        let end: usize = (self.number - 1) * JOBS_PER_PAGE + self.jobs.len();
        if end < self.total {
            end
        } else {
            self.total
        }
    }
}

/// The page that is shown exists: it lies between the first and the last, has a
/// job on it unless the list has none, and asking for it again shows it again.
/// A page that exists is shown where it is asked for.
pub proof fn law_clamped_page_exists(page: int, total: int)
    requires
        total >= 0,
    ensures
        1 <= clamped(page, total) <= last_page(total),
        total > 0 ==> jobs_before(clamped(page, total)) < total,
        total == 0 ==> jobs_before(clamped(page, total)) == 0,
        clamped(clamped(page, total), total) == clamped(page, total),
        1 <= page <= last_page(total) ==> clamped(page, total) == page,
{
}

/// A page that is read from a list shows exactly the jobs that belong on it,
/// tells truly whether another page follows, and gives their true positions.
pub proof fn law_page_shows_its_jobs(
    list: Seq<JobEnvelope>,
    page: usize,
    options: QueueListOpts,
    read: Vec<JobEnvelope>,
    made: JobPage,
)
    requires
        options.count == JOBS_PER_PAGE + 1,
        options.offset == jobs_before(page as int),
        read@ == crate::query::window(list, options),
        made.jobs@ == read@.take(crate::query::at_most(JOBS_PER_PAGE as int, read@.len() as int)),
        made.number == page_number(page as int),
        made.total == list.len(),
        made.has_next == (read@.len() > JOBS_PER_PAGE),
    ensures
        made.jobs@ == page_of(list, page as int),
        made.has_next <==> made.number < last_page(list.len() as int),
        made.jobs@.len() > 0 ==> {
            let start = jobs_before(made.number as int) + 1;
            let end = crate::query::at_most(
                jobs_before(made.number as int) + made.jobs@.len(),
                made.total as int,
            );
            &&& end - start + 1 == made.jobs@.len()
            &&& made.jobs@ == list.subrange(start - 1, end)
        },
{
    assert(made.jobs@ =~= page_of(list, page as int));
}

/// The jobs on the first `pages` pages of a list, one page after the other.
pub open spec fn first_pages<T>(list: Seq<T>, pages: nat) -> Seq<T>
    decreases pages,
{
    if pages == 0 {
        Seq::empty()
    } else {
        first_pages(list, (pages - 1) as nat) + page_of(list, pages as int)
    }
}

/// Every job of a list stands on exactly one of its pages: the pages one after
/// the other are the list.
pub proof fn law_pages_make_the_list<T>(list: Seq<T>)
    ensures
        first_pages(list, last_page(list.len() as int) as nat) == list,
{
    lemma_first_pages(list, last_page(list.len() as int) as nat);
    assert(list.take(list.len() as int) =~= list);
}

proof fn lemma_first_pages<T>(list: Seq<T>, pages: nat)
    ensures
        first_pages(list, pages) == list.take(
            crate::query::at_most(pages * JOBS_PER_PAGE, list.len() as int),
        ),
    decreases pages,
{
    if pages == 0 {
        assert(first_pages(list, pages) =~= list.take(0));
    } else {
        lemma_first_pages(list, (pages - 1) as nat);
        assert(first_pages(list, pages) =~= list.take(
            crate::query::at_most(pages * JOBS_PER_PAGE, list.len() as int),
        ));
    }
}

/// A list is cut into pages of 50: the last page starts before the end of the
/// list and reaches it, and a list without jobs has one page. Before a page
/// stand 50 jobs for each earlier one, and there is no page before the first.
pub proof fn law_pages_of_fifty(page: int, total: int)
    requires
        total >= 0,
    ensures
        last_page(total) >= 1,
        total == 0 ==> last_page(total) == 1,
        total > 0 ==> (last_page(total) - 1) * 50 < total <= last_page(total) * 50,
        page >= 1 ==> page_number(page) == page && jobs_before(page) == (page - 1) * 50,
        page < 1 ==> page_number(page) == 1 && jobs_before(page) == 0,
{
}

/// The first page is shown where an earlier one is asked for, the last where a
/// later one is, and otherwise the one that is asked for.
pub proof fn law_clamped_to_the_nearest(page: int, total: int)
    requires
        total >= 0,
    ensures
        page < 1 ==> clamped(page, total) == 1,
        page >= 1 && (page - 1) * 50 < total ==> clamped(page, total) == page,
        page > 1 && (page - 1) * 50 >= total ==> {
            &&& 1 <= clamped(page, total) < page
            &&& clamped(page, total) * 50 >= total
            &&& clamped(page, total) > 1 ==> (clamped(page, total) - 1) * 50 < total
        },
        page == 1 ==> clamped(page, total) == 1,
{
}

/// A page holds the jobs at its own positions of the list, in their order, 50 of
/// them or those that are left.
pub proof fn law_page_entries<T>(list: Seq<T>, page: int)
    requires
        page >= 1,
    ensures
        forall|i: int|
            0 <= i < page_of(list, page).len() ==> #[trigger] page_of(list, page)[i] == list[(page
                - 1) * 50 + i],
        page * 50 <= list.len() ==> page_of(list, page).len() == 50,
        (page - 1) * 50 <= list.len() <= page * 50 ==> page_of(list, page).len() == list.len() - (
        page - 1) * 50,
        (page - 1) * 50 >= list.len() ==> page_of(list, page).len() == 0,
{
}

} // verus!
