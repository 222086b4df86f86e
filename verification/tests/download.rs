use release_installer::download::Download;
use release_installer::error::ErrorKind;
use release_installer::progress::DownloadProgress;
use release_installer::progress::Percentage;
use release_installer::progress::ProgressStatus;

fn run(declared: Option<u64>, chunks: &[&[u8]]) -> (Vec<u8>, Vec<DownloadProgress>) {
    let mut events = Vec::new();
    let (mut download, first) = Download::start(declared);
    events.push(first);
    for chunk in chunks {
        events.push(download.receive(chunk));
    }
    let (bytes, last) = download.finish();
    events.push(last);
    (bytes, events)
}

fn points(events: &[DownloadProgress]) -> Vec<u128> {
    events.iter().map(|e| e.percentage.whole_points()).collect()
}

#[test]
fn four_equal_chunks_report_quarters() {
    let chunk = [7u8; 250];
    let (bytes, events) = run(Some(1000), &[&chunk, &chunk, &chunk, &chunk]);
    assert_eq!(bytes.len(), 1000);
    assert_eq!(points(&events), vec![0, 25, 50, 75, 100, 100]);
    assert_eq!(events[4].percentage, Percentage { numerator: 1000, denominator: 1000 });
    assert_eq!(events[4].status, ProgressStatus::Receiving);
    assert_eq!(events[5], DownloadProgress::downloaded());
}

#[test]
fn known_total_never_decreases_and_ends_at_one_hundred() {
    let sizes = [1usize, 0, 999, 3, 40, 0, 7];
    let total: usize = sizes.iter().sum();
    let chunks: Vec<Vec<u8>> = sizes.iter().map(|n| vec![1u8; *n]).collect();
    let slices: Vec<&[u8]> = chunks.iter().map(|c| c.as_slice()).collect();
    let (bytes, events) = run(Some(total as u64), &slices);
    assert_eq!(bytes.len(), total);
    for pair in events.windows(2) {
        let a = pair[0].percentage;
        let b = pair[1].percentage;
        assert!(
            (a.numerator as u128) * (b.denominator as u128)
                <= (b.numerator as u128) * (a.denominator as u128)
        );
    }
    let last_chunk = events[events.len() - 2].percentage;
    assert_eq!(last_chunk.numerator, last_chunk.denominator);
    assert_eq!(events.last().unwrap().percentage.whole_points(), 100);
}

#[test]
fn unknown_total_stays_at_zero_until_the_end() {
    let (bytes, events) = run(None, &[b"abc", b"", b"defg"]);
    assert_eq!(bytes, b"abcdefg");
    assert_eq!(points(&events), vec![0, 0, 0, 0, 100]);
    for event in &events[..4] {
        assert_eq!(event.percentage, Percentage::zero());
    }
}

#[test]
fn declared_length_of_zero_counts_as_unknown() {
    let (_, events) = run(Some(0), &[b"abc"]);
    assert_eq!(points(&events), vec![0, 0, 100]);
    let (download, _) = Download::start(Some(0));
    assert_eq!(download.total(), None);
}

#[test]
fn no_chunks_still_open_and_close() {
    let (bytes, events) = run(Some(10), &[]);
    assert!(bytes.is_empty());
    assert_eq!(events, vec![DownloadProgress::started(), DownloadProgress::downloaded()]);
}

#[test]
fn bytes_come_out_in_order_of_arrival() {
    let (bytes, _) = run(Some(6), &[b"ab", b"cd", b"ef"]);
    assert_eq!(bytes, b"abcdef");
}

#[test]
fn received_and_total_are_tracked() {
    let (mut download, _) = Download::start(Some(10));
    assert_eq!(download.received(), 0);
    assert_eq!(download.total(), Some(10));
    download.receive(b"abcd");
    assert_eq!(download.received(), 4);
    let event = download.receive(b"ef");
    assert_eq!(download.received(), 6);
    assert_eq!(event.percentage, Percentage { numerator: 6, denominator: 10 });
}

#[test]
fn more_than_declared_goes_past_one_hundred() {
    let (_, events) = run(Some(2), &[b"abcd"]);
    assert_eq!(events[1].percentage.whole_points(), 200);
}

#[test]
fn failed_stream_is_a_stream_error() {
    let (mut download, _) = Download::start(Some(10));
    download.receive(b"abcd");
    let error = download.fail("connection reset");
    assert_eq!(error.kind, ErrorKind::Stream);
    assert_eq!(error.message, "connection reset");
}
