use oxana_mcp::{JobList, JobSource, ListJobsRequest, MetricsRequest, QueueListOpts};

fn request(list: JobList) -> ListJobsRequest {
    ListJobsRequest {
        list,
        queue: None,
        limit: None,
        offset: None,
    }
}

#[test]
fn invalid_list_requests_are_refused_with_their_reason() {
    let max = isize::MAX as usize;
    for (request, message) in [
        (request(JobList::Queue), "queue is required"),
        (
            ListJobsRequest { queue: Some(String::new()), ..request(JobList::Queue) },
            "queue is required",
        ),
        (
            ListJobsRequest { queue: Some("default".into()), ..request(JobList::Dead) },
            "queue only applies to list=queue",
        ),
        (
            ListJobsRequest { queue: Some(String::new()), ..request(JobList::Retries) },
            "queue only applies to list=queue",
        ),
        (
            ListJobsRequest { limit: Some(0), ..request(JobList::Dead) },
            "invalid limit or offset",
        ),
        (
            ListJobsRequest { limit: Some(101), ..request(JobList::Dead) },
            "invalid limit or offset",
        ),
        (
            ListJobsRequest { offset: Some(usize::MAX), ..request(JobList::Dead) },
            "invalid limit or offset",
        ),
        (
            ListJobsRequest { offset: Some(max - 19), ..request(JobList::Dead) },
            "invalid limit or offset",
        ),
        // The window is looked at before the queue.
        (
            ListJobsRequest { limit: Some(0), ..request(JobList::Queue) },
            "invalid limit or offset",
        ),
    ] {
        let refusal = request.query().unwrap_err();
        assert_eq!(refusal.code, -32602);
        assert_eq!(refusal.message, message);
    }
}

#[test]
fn omitted_limit_and_offset_have_defaults() {
    let options = request(JobList::Dead).options().unwrap();
    assert_eq!(options, QueueListOpts { count: 20, offset: 0 });
}

#[test]
fn limits_and_offsets_are_taken_up_to_their_bounds() {
    let max = isize::MAX as usize;
    for (limit, offset) in [(1, 0), (100, 0), (1, max - 1), (100, max - 100)] {
        let request = ListJobsRequest {
            limit: Some(limit),
            offset: Some(offset),
            ..request(JobList::Scheduled)
        };
        assert_eq!(
            request.options().unwrap(),
            QueueListOpts { count: limit, offset }
        );
    }
    for (limit, offset) in [(1, max), (100, max - 99), (usize::MAX, 0)] {
        let request = ListJobsRequest {
            limit: Some(limit),
            offset: Some(offset),
            ..request(JobList::Scheduled)
        };
        assert_eq!(request.options().unwrap_err().code, -32602);
    }
}

#[test]
fn accepted_requests_read_the_list_that_they_name() {
    for (list, source) in [
        (JobList::Dead, JobSource::Dead),
        (JobList::Retries, JobSource::Retries),
        (JobList::Scheduled, JobSource::Scheduled),
    ] {
        assert_eq!(request(list).query().unwrap().source, source);
    }
    let query = ListJobsRequest {
        queue: Some("mcp-test#1".into()),
        limit: Some(1),
        offset: Some(1),
        ..request(JobList::Queue)
    }
    .query()
    .unwrap();
    assert_eq!(query.source, JobSource::Queue("mcp-test#1".into()));
    assert_eq!(query.options, QueueListOpts { count: 1, offset: 1 });
}

#[test]
fn lookback_has_a_default_and_a_cap() {
    for (minutes, expected) in [
        (None, 60),
        (Some(0), 60),
        (Some(1), 1),
        (Some(5), 5),
        (Some(1440), 1440),
        (Some(1441), 1440),
        (Some(usize::MAX), 1440),
    ] {
        let lookback = MetricsRequest { minutes }.lookback();
        assert_eq!(lookback, expected);
        assert_eq!(MetricsRequest { minutes: Some(lookback) }.lookback(), lookback);
    }
}

#[test]
fn requests_that_follow_each_other_read_the_whole_list() {
    let list = (0..45).collect::<Vec<usize>>();
    let mut read: Vec<usize> = Vec::new();
    loop {
        let request = ListJobsRequest {
            offset: Some(read.len()),
            ..request(JobList::Dead)
        };
        let options = request.query().unwrap().options;
        let page = list.iter().skip(options.offset).take(options.count);
        let before = read.len();
        read.extend(page);
        if read.len() == before {
            break;
        }
    }
    assert_eq!(read, list);
}
