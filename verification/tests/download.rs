use godotup::download::{
    range_header, resume_honoured, Action, Download, Event, Phase, Progress,
};
use godotup::error::Error;

const URL: &str = "https://example/godot.zip";

fn source(n: usize) -> Vec<u8> {
    (0..n).map(|i| (i * 7 + 3) as u8).collect()
}

/// Plays a whole exchange against a server that holds `source`, and returns
/// the destination file and the last action.
fn fetch(
    source: &[u8],
    mut file: Vec<u8>,
    honours_range: bool,
    chunk: usize,
) -> (Vec<u8>, Action, Download) {
    let (mut download, first) = Download::start(String::from(URL), file.len() as u64);
    assert_eq!(first, Action::Probe);
    let request = download.step(Event::ProbeAnswered {
        status: 200,
        content_length: Some(source.len() as u64),
    });
    let start = match request {
        Action::Request { range_start } => range_start,
        other => panic!("{:?}", other),
    };
    let (status, body) = match start {
        Some(offset) if honours_range => (206, &source[offset as usize..]),
        _ => (200, source),
    };
    let open = download
        .step(Event::DataAnswered { status, content_length: Some(body.len() as u64) });
    match open {
        Action::Open { truncate } => {
            if truncate {
                file.clear();
            }
        }
        other => panic!("{:?}", other),
    }
    let mut elapsed = 0;
    for piece in body.chunks(chunk) {
        elapsed += 10;
        match download.step(Event::Chunk { len: piece.len() as u64, elapsed_ms: elapsed }) {
            Action::Append { progress } => {
                file.extend_from_slice(piece);
                assert_eq!(progress.bytes_transferred, file.len() as u64);
                assert_eq!(progress.total_size, Some(source.len() as u64));
                assert_eq!(progress.elapsed_ms, elapsed);
            }
            other => panic!("{:?}", other),
        }
    }
    let last = download.step(Event::BodyEnded);
    (file, last, download)
}

#[test]
fn resume_of_400_of_1000_bytes_asks_for_the_rest_and_completes() {
    let src = source(1000);
    let (mut download, _) = Download::start(String::from(URL), 400);
    let request =
        download.step(Event::ProbeAnswered { status: 200, content_length: Some(1000) });
    assert_eq!(request, Action::Request { range_start: Some(400) });
    let open = download.step(Event::DataAnswered { status: 206, content_length: Some(600) });
    assert_eq!(open, Action::Open { truncate: false });
    let mut file = src[..400].to_vec();
    let append = download.step(Event::Chunk { len: 600, elapsed_ms: 5 });
    assert_eq!(
        append,
        Action::Append {
            progress: Progress { bytes_transferred: 1000, total_size: Some(1000), elapsed_ms: 5 }
        }
    );
    file.extend_from_slice(&src[400..]);
    assert_eq!(download.step(Event::BodyEnded), Action::Finish);
    assert_eq!(download.phase, Phase::Done);
    assert_eq!(file.len(), 1000);
    assert_eq!(file, src);
}

#[test]
fn resumed_file_equals_a_fresh_download() {
    let src = source(1000);
    let (fresh, last, _) = fetch(&src, Vec::new(), true, 64);
    assert_eq!(last, Action::Finish);
    assert_eq!(fresh, src);
    for k in [1usize, 399, 400, 999] {
        let (resumed, last, download) = fetch(&src, src[..k].to_vec(), true, 64);
        assert_eq!(last, Action::Finish);
        assert_eq!(download.phase, Phase::Done);
        assert_eq!(download.length, 1000);
        assert_eq!(resumed, fresh);
    }
}

#[test]
fn a_server_that_ignores_the_range_makes_the_file_start_over() {
    let src = source(1000);
    let (file, last, _) = fetch(&src, src[..400].to_vec(), false, 100);
    assert_eq!(last, Action::Finish);
    assert_eq!(file, src);
}

#[test]
fn a_full_body_on_a_range_request_truncates() {
    let (mut download, _) = Download::start(String::from(URL), 400);
    download.step(Event::ProbeAnswered { status: 200, content_length: Some(1000) });
    let open = download.step(Event::DataAnswered { status: 200, content_length: Some(1000) });
    assert_eq!(open, Action::Open { truncate: true });
    assert_eq!(download.length, 0);
}

#[test]
fn a_partial_answer_of_the_wrong_size_truncates() {
    let (mut download, _) = Download::start(String::from(URL), 400);
    download.step(Event::ProbeAnswered { status: 200, content_length: Some(1000) });
    let open = download.step(Event::DataAnswered { status: 206, content_length: Some(1000) });
    assert_eq!(open, Action::Open { truncate: true });
}

#[test]
fn resume_honoured_goes_by_status_and_sizes() {
    assert!(resume_honoured(206, Some(600), Some(1000), 400));
    assert!(resume_honoured(206, None, Some(1000), 400));
    assert!(resume_honoured(206, Some(600), None, 400));
    assert!(resume_honoured(206, None, None, 400));
    assert!(!resume_honoured(200, Some(600), Some(1000), 400));
    assert!(!resume_honoured(206, Some(601), Some(1000), 400));
    assert!(!resume_honoured(206, Some(10), Some(100), 400));
    assert!(!resume_honoured(206, Some(u64::MAX), Some(5), u64::MAX));
}

#[test]
fn a_fresh_download_sends_no_range() {
    let (mut download, first) = Download::start(String::from(URL), 0);
    assert_eq!(first, Action::Probe);
    assert_eq!(download.phase, Phase::Probing);
    let request = download.step(Event::ProbeAnswered { status: 200, content_length: None });
    assert_eq!(request, Action::Request { range_start: None });
    assert_eq!(download.total, None);
    let open = download.step(Event::DataAnswered { status: 200, content_length: None });
    assert_eq!(open, Action::Open { truncate: true });
}

#[test]
fn without_a_size_progress_reports_bytes_only() {
    let (mut download, _) = Download::start(String::from(URL), 0);
    download.step(Event::ProbeAnswered { status: 204, content_length: None });
    download.step(Event::DataAnswered { status: 200, content_length: None });
    let append = download.step(Event::Chunk { len: 10, elapsed_ms: 1 });
    let progress = match append {
        Action::Append { progress } => progress,
        other => panic!("{:?}", other),
    };
    assert_eq!(progress, Progress { bytes_transferred: 10, total_size: None, elapsed_ms: 1 });
    assert_eq!(progress.percent(), None);
    assert_eq!(progress.eta_ms(), None);
    assert_eq!(download.step(Event::BodyEnded), Action::Finish);
}

#[test]
fn a_refused_probe_fails_with_status_and_url() {
    let (mut download, _) = Download::start(String::from(URL), 400);
    let action = download.step(Event::ProbeAnswered { status: 404, content_length: None });
    assert_eq!(
        action,
        Action::Fail(Error::Transfer {
            status: Some(404),
            url: String::from(URL),
            partial_preserved: true
        })
    );
    assert_eq!(download.phase, Phase::Failed);
    assert_eq!(download.length, 400);
}

#[test]
fn a_refused_data_request_fails_with_status_and_url() {
    let (mut download, _) = Download::start(String::from(URL), 0);
    download.step(Event::ProbeAnswered { status: 200, content_length: Some(10) });
    let action = download.step(Event::DataAnswered { status: 503, content_length: None });
    assert_eq!(
        action,
        Action::Fail(Error::Transfer {
            status: Some(503),
            url: String::from(URL),
            partial_preserved: false
        })
    );
}

#[test]
fn status_bounds_of_success() {
    for (status, ok) in [(199u16, false), (200, true), (299, true), (300, false), (416, false)] {
        let (mut download, _) = Download::start(String::from(URL), 0);
        let action = download.step(Event::ProbeAnswered { status, content_length: None });
        assert_eq!(matches!(action, Action::Request { .. }), ok, "{}", status);
    }
}

#[test]
fn an_interruption_mid_stream_keeps_the_partial_file() {
    let (mut download, _) = Download::start(String::from(URL), 0);
    download.step(Event::ProbeAnswered { status: 200, content_length: Some(1000) });
    download.step(Event::DataAnswered { status: 200, content_length: Some(1000) });
    download.step(Event::Chunk { len: 250, elapsed_ms: 1 });
    let action = download.step(Event::Interrupted);
    assert_eq!(
        action,
        Action::Fail(Error::Transfer {
            status: None,
            url: String::from(URL),
            partial_preserved: true
        })
    );
    assert_eq!(download.length, 250);
    assert_eq!(download.phase, Phase::Failed);
    // The next call resumes from what is left.
    let (mut again, _) = Download::start(String::from(URL), download.length);
    let request = again.step(Event::ProbeAnswered { status: 200, content_length: Some(1000) });
    assert_eq!(request, Action::Request { range_start: Some(250) });
}

#[test]
fn an_interruption_before_any_byte_leaves_nothing() {
    let (mut download, _) = Download::start(String::from(URL), 0);
    let action = download.step(Event::Interrupted);
    assert_eq!(
        action,
        Action::Fail(Error::Transfer {
            status: None,
            url: String::from(URL),
            partial_preserved: false
        })
    );
}

#[test]
fn a_body_that_ends_short_of_the_size_fails() {
    let (mut download, _) = Download::start(String::from(URL), 0);
    download.step(Event::ProbeAnswered { status: 200, content_length: Some(1000) });
    download.step(Event::DataAnswered { status: 200, content_length: Some(1000) });
    download.step(Event::Chunk { len: 999, elapsed_ms: 1 });
    let action = download.step(Event::BodyEnded);
    assert!(matches!(action, Action::Fail(Error::Transfer { status: None, .. })));
    assert_eq!(download.phase, Phase::Failed);
}

#[test]
fn a_count_beyond_u64_fails() {
    let (mut download, _) = Download::start(String::from(URL), 0);
    download.step(Event::ProbeAnswered { status: 200, content_length: None });
    download.step(Event::DataAnswered { status: 200, content_length: None });
    download.step(Event::Chunk { len: u64::MAX, elapsed_ms: 1 });
    let action = download.step(Event::Chunk { len: 1, elapsed_ms: 2 });
    assert!(matches!(action, Action::Fail(Error::Transfer { status: None, .. })));
}

#[test]
fn an_event_out_of_turn_fails_and_an_ended_transfer_halts() {
    let (mut download, _) = Download::start(String::from(URL), 0);
    let action = download.step(Event::BodyEnded);
    assert!(matches!(action, Action::Fail(_)));
    assert_eq!(download.step(Event::BodyEnded), Action::Halt);
    assert_eq!(
        download.step(Event::ProbeAnswered { status: 200, content_length: None }),
        Action::Halt
    );
    let (done, last, mut download) = fetch(&source(10), Vec::new(), true, 3);
    assert_eq!(done.len(), 10);
    assert_eq!(last, Action::Finish);
    assert_eq!(download.step(Event::Chunk { len: 1, elapsed_ms: 0 }), Action::Halt);
    assert_eq!(download.length, 10);
}

#[test]
fn percent_rounds_down_and_stops_at_100() {
    let p = |done, total| {
        Progress { bytes_transferred: done, total_size: total, elapsed_ms: 0 }.percent()
    };
    assert_eq!(p(0, Some(1000)), Some(0));
    assert_eq!(p(400, Some(1000)), Some(40));
    assert_eq!(p(999, Some(1000)), Some(99));
    assert_eq!(p(1, Some(3)), Some(33));
    assert_eq!(p(1000, Some(1000)), Some(100));
    assert_eq!(p(2000, Some(1000)), Some(100));
    assert_eq!(p(u64::MAX - 1, Some(u64::MAX)), Some(99));
    assert_eq!(p(5, Some(0)), None);
    assert_eq!(p(5, None), None);
}

#[test]
fn eta_scales_elapsed_time_by_what_is_missing() {
    let eta = |done, total, elapsed| {
        Progress { bytes_transferred: done, total_size: total, elapsed_ms: elapsed }.eta_ms()
    };
    assert_eq!(eta(400, Some(1000), 2000), Some(3000));
    assert_eq!(eta(1000, Some(1000), 2000), Some(0));
    assert_eq!(eta(3, Some(10), 10), Some(23));
    assert_eq!(eta(1, Some(u64::MAX), u64::MAX), Some(u64::MAX));
    assert_eq!(eta(0, Some(1000), 2000), None);
    assert_eq!(eta(1001, Some(1000), 2000), None);
    assert_eq!(eta(400, None, 2000), None);
}

#[test]
fn range_header_names_the_offset_in_decimal() {
    assert_eq!(range_header(400), "bytes=400-");
    assert_eq!(range_header(0), "bytes=0-");
    assert_eq!(range_header(9), "bytes=9-");
    assert_eq!(range_header(10), "bytes=10-");
    assert_eq!(range_header(1234567890), "bytes=1234567890-");
    assert_eq!(range_header(u64::MAX), "bytes=18446744073709551615-");
}
