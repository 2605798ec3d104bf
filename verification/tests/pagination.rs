use oxana_mcp::{Job, JobEnvelope, JobMeta, JobPage, JOBS_PER_PAGE};

fn job(n: usize) -> JobEnvelope {
    JobEnvelope {
        id: format!("job-{n}"),
        queue: "default".into(),
        job: Job {
            name: "Example".into(),
            args: serde_json::Value::Null,
        },
        meta: JobMeta {
            id: format!("job-{n}"),
            retries: 0,
            unique: false,
            created_at: 1,
            scheduled_at: 1,
            started_at: None,
            state: None,
            error: None,
        },
    }
}

/// The page that is shown of a list of `total` jobs.
fn show(page: usize, total: usize) -> JobPage {
    let options = JobPage::list_opts(page);
    let read = (0..total)
        .skip(options.offset)
        .take(options.count)
        .map(job)
        .collect();
    JobPage::new(page, total, read)
}

#[test]
fn page_number_tracks_last_available_page_after_deletion() {
    assert_eq!(JobPage::clamp_number(3, 101), 3);
    assert_eq!(JobPage::clamp_number(3, 100), 2);
    assert_eq!(JobPage::clamp_number(3, 0), 1);
    assert_eq!(JobPage::clamp_number(0, 100), 1);
}

#[test]
fn clamping_again_changes_nothing() {
    for total in [0, 1, 49, 50, 51, 100, 101, usize::MAX] {
        for page in [0, 1, 2, 3, 4, usize::MAX] {
            let number = JobPage::clamp_number(page, total);
            assert_eq!(JobPage::clamp_number(number, total), number);
            let offset = JobPage::list_opts(number).offset;
            assert!(offset < total || (offset == 0 && total == 0));
        }
    }
}

#[test]
fn a_page_reads_one_job_more_than_it_shows() {
    for (page, offset) in [(0, 0), (1, 0), (2, 50), (3, 100)] {
        let options = JobPage::list_opts(page);
        assert_eq!(options.count, 51);
        assert_eq!(options.offset, offset);
    }
}

#[test]
fn the_extra_job_only_tells_that_a_page_follows() {
    for (read, shown, has_next) in [(0, 0, false), (49, 49, false), (50, 50, false), (51, 50, true)]
    {
        let page = JobPage::new(0, read, (0..read).map(job).collect());
        assert_eq!(page.jobs.len(), shown);
        assert_eq!(page.has_next, has_next);
        assert_eq!(page.number, 1);
        assert_eq!(page.total, read);
        assert!(page.jobs.iter().enumerate().all(|(n, shown)| *shown == job(n)));
    }
}

#[test]
fn positions_are_counted_through_the_list() {
    for (page, total, start, end, has_next) in [
        (1, 0, 1, 0, false),
        (1, 7, 1, 7, false),
        (1, 101, 1, 50, true),
        (2, 101, 51, 100, true),
        (3, 101, 101, 101, false),
        (2, 100, 51, 100, false),
    ] {
        let page = show(page, total);
        assert_eq!(page.range_start(), start);
        assert_eq!(page.range_end(), end);
        assert_eq!(page.has_next, has_next);
    }
}

#[test]
fn positions_never_pass_a_list_that_became_shorter() {
    let page = JobPage::new(2, 60, (50..100).map(job).collect());
    assert_eq!(page.range_start(), 51);
    assert_eq!(page.range_end(), 60);
}

#[test]
fn the_pages_make_the_list() {
    for total in [0, 1, 50, 51, 149, 150] {
        let last = JobPage::clamp_number(usize::MAX, total);
        let mut ids = Vec::new();
        for page in 1..=last {
            let page = show(page, total);
            assert_eq!(page.has_next, page.number < last);
            assert!(page.jobs.len() <= JOBS_PER_PAGE);
            ids.extend(page.jobs.into_iter().map(|job| job.id));
        }
        assert_eq!(ids, (0..total).map(|n| job(n).id).collect::<Vec<_>>());
    }
}
