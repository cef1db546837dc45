use symbolicator_service::duration::{
    at_least_minimum, content_length_timeout, download_timeout,
};
use symbolicator_service::filesystem::{FilesystemDownloader, IoError};
use symbolicator_service::http::HttpDownloader;
use symbolicator_service::location::SourceLocation;
use symbolicator_service::measure::{
    measure_download_time, measured, MeasureSourceDownloadGuard,
};
use symbolicator_service::retry::{retry, RetryStep};
use symbolicator_service::service::{
    listed, timed, CacheConfigs, Config, DispatchStep, DownloadService, Downloader,
    InMemoryCacheConfig,
};
use symbolicator_service::source::{
    CommonSourceConfig, FilesystemRemoteFile, FilesystemSourceConfig, HttpRemoteFile,
    HttpSourceConfig, RemoteFile,
};
use symbolicator_service::stream::{StreamDownload, StreamStep};
use symbolicator_service::{CacheEntry, CacheError, Duration};
use std::sync::Arc;
use std::time::Instant;

fn config() -> Config {
    Config {
        connect_timeout: Duration::from_secs(1),
        streaming_timeout: Duration::from_secs(250),
        max_download_timeout: Duration::from_secs(315),
        caches: CacheConfigs {
            in_memory: InMemoryCacheConfig { gcs_token_capacity: 100, s3_client_capacity: 50 },
        },
    }
}

fn service() -> Arc<DownloadService<String, String>> {
    DownloadService::new(&config(), "runtime".to_string(), |config: &Config, trusted: bool| {
        format!("{} {}", config.connect_timeout.nanos, trusted)
    })
}

fn failed(message: &str) -> CacheError {
    CacheError::DownloadError(message.to_string())
}

fn status_of<T, E>(result: &Result<T, E>) -> &'static str {
    match result {
        Ok(_) => "ok",
        Err(_) => "err",
    }
}

fn to_std(duration: Duration) -> std::time::Duration {
    std::time::Duration::new(
        (duration.nanos / 1_000_000_000) as u64,
        (duration.nanos % 1_000_000_000) as u32,
    )
}

fn from_std(duration: std::time::Duration) -> Duration {
    Duration { nanos: duration.as_nanos() }
}

fn scale(timeout_per_gb: Duration, content_length: i64) -> Duration {
    let gb = content_length as f64 / (1024.0 * 1024.0 * 1024.0);
    from_std(to_std(timeout_per_gb).mul_f64(gb))
}

#[test]
fn test_content_length_timeout() {
    let timeout_per_gb = Duration::from_secs(30);
    let one_gb = 1024 * 1024 * 1024;

    let timeout =
        |content_length| content_length_timeout(content_length, timeout_per_gb, scale);

    // very short file
    assert_eq!(timeout(100), Duration::from_secs(10));

    // 0.5 GB
    assert_eq!(timeout(one_gb / 2), from_std(to_std(timeout_per_gb) / 2));

    // 1 GB
    assert_eq!(timeout(one_gb), timeout_per_gb);

    // 1.5 GB
    assert_eq!(timeout(one_gb * 3 / 2), from_std(to_std(timeout_per_gb).mul_f64(1.5)));
}

#[test]
fn durations() {
    assert_eq!(Duration::from_secs(u64::MAX).nanos, u64::MAX as u128 * 1_000_000_000);
    assert_eq!(Duration::from_millis(20).nanos, 20_000_000);
    assert_eq!(Duration { nanos: 1_999_999 }.as_millis(), 1);
    assert_eq!(Duration::from_secs(2).max(Duration::from_secs(1)), Duration::from_secs(2));
    assert_eq!(Duration::from_secs(1).max(Duration::from_secs(2)), Duration::from_secs(2));
    let almost = Duration { nanos: 9_999_999_999 };
    assert_eq!(at_least_minimum(almost), Duration::from_secs(10));
    let more = Duration { nanos: 10_000_000_001 };
    assert_eq!(at_least_minimum(more), more);
}

#[test]
fn downloads_of_unknown_length_are_not_limited() {
    let timeout_per_gb = Duration::from_secs(30);
    assert_eq!(download_timeout(None, timeout_per_gb, scale), None);
    let four_gb = 4 * 1024 * 1024 * 1024;
    assert_eq!(
        download_timeout(Some(four_gb), timeout_per_gb, scale),
        Some(Duration::from_secs(120))
    );
    assert_eq!(download_timeout(Some(1), timeout_per_gb, scale), Some(Duration::from_secs(10)));
    assert_eq!(download_timeout(Some(-1), timeout_per_gb, scale), Some(Duration::from_secs(10)));
}

#[test]
fn negative_lengths_ask_for_no_time() {
    let never = |_: Duration, _: i64| -> Duration { panic!("there is nothing to multiply") };
    let one_gb = 1024 * 1024 * 1024;
    for length in [-1, -one_gb, i64::MIN] {
        let timeout = content_length_timeout(length, Duration::from_secs(30), never);
        assert_eq!(timeout, Duration::from_secs(10));
    }
    let timeout = content_length_timeout(0, Duration::from_secs(30), scale);
    assert_eq!(timeout, Duration::from_secs(10));
}

#[test]
fn longer_downloads_are_given_no_less_time() {
    let one_gb = 1024 * 1024 * 1024;
    let lengths = [i64::MIN, -1, 0, 1, one_gb / 3, one_gb - 1, one_gb, 7 * one_gb, 1 << 40];
    let timeouts = [0, 1, 10, 30, 250];
    for (i, fewer) in lengths.iter().enumerate() {
        for more in &lengths[i..] {
            for (j, shorter) in timeouts.iter().enumerate() {
                for longer in &timeouts[j..] {
                    let first =
                        content_length_timeout(*fewer, Duration::from_secs(*shorter), scale);
                    let second =
                        content_length_timeout(*more, Duration::from_secs(*longer), scale);
                    assert!(Duration::from_secs(10).nanos <= first.nanos);
                    assert!(first.nanos <= second.nanos);
                }
            }
        }
    }
}

/// Makes attempts with the given results and returns the final one with the number of attempts.
fn attempts(results: &[CacheEntry<u8>]) -> (CacheEntry<u8>, usize) {
    let mut tries = 0;
    for (i, result) in results.iter().enumerate() {
        match retry(tries, result.clone()) {
            RetryStep::Return(result) => return (result, i + 1),
            RetryStep::Again { tries: more, delay } => {
                assert_eq!(delay, Duration::from_millis(20));
                tries = more;
            }
        }
    }
    panic!("attempts should have ended");
}

#[test]
fn failures_are_retried_up_to_three_times() {
    let results = [Err(failed("a")), Err(failed("b")), Err(failed("c")), Ok(1)];
    assert_eq!(attempts(&results), (Err(failed("c")), 3));
    let results = [Err(CacheError::InternalError), Ok(2), Ok(3)];
    assert_eq!(attempts(&results), (Ok(2), 2));
    let limit = Duration::from_secs(1);
    let results = [Err(CacheError::Timeout(limit)), Err(failed("b")), Ok(3)];
    assert_eq!(attempts(&results), (Ok(3), 3));
}

#[test]
fn settled_results_are_not_retried() {
    assert_eq!(attempts(&[Ok(1)]), (Ok(1), 1));
    assert_eq!(attempts(&[Err(CacheError::NotFound)]), (Err(CacheError::NotFound), 1));
    let denied = CacheError::PermissionDenied("no".to_string());
    assert_eq!(attempts(&[Err(failed("a")), Err(denied.clone())]), (Err(denied), 2));
    assert!(matches!(retry(u32::MAX, Err::<u8, _>(failed("a"))), RetryStep::Return(Err(_))));
}

#[test]
fn downloads_go_to_the_downloader_of_their_source() {
    let location = SourceLocation::new("a".to_string());
    let files = CommonSourceConfig { filters: 0u8, layout: 0u8 };
    let http = HttpSourceConfig { id: "h".to_string(), headers: vec![], files: files.clone() };
    let directory = FilesystemSourceConfig { id: "d".to_string(), files };
    let sources: [RemoteFile<u8, u8, u8>; 5] = [
        RemoteFile::Sentry(1),
        RemoteFile::Http(HttpRemoteFile::new(Arc::new(http), location.clone())),
        RemoteFile::S3(2),
        RemoteFile::Gcs(3),
        RemoteFile::Filesystem(FilesystemRemoteFile::new(Arc::new(directory), location)),
    ];
    for source in &sources {
        let dispatch = service().dispatch_download(source, "file");
        match (&dispatch.downloader, source) {
            (Downloader::Sentry(file), RemoteFile::Sentry(_)) => assert_eq!(**file, 1),
            (Downloader::Http(file), RemoteFile::Http(_)) => assert_eq!(file.source.id, "h"),
            (Downloader::S3(file), RemoteFile::S3(_)) => assert_eq!(**file, 2),
            (Downloader::Gcs(file), RemoteFile::Gcs(_)) => assert_eq!(**file, 3),
            (Downloader::Filesystem(file), RemoteFile::Filesystem(_)) => {
                assert_eq!(file.source.id, "d")
            }
            other => panic!("unexpected downloader {other:?}"),
        }
        assert_eq!(dispatch.tries, 0);
        match dispatch.attempted(Ok(())) {
            DispatchStep::Return(entry) => assert_eq!(entry, Ok("file")),
            other => panic!("unexpected step {other:?}"),
        }
    }
}

#[test]
fn dispatched_downloads_are_retried_with_the_same_file() {
    let source: RemoteFile<u8, u8, u8> = RemoteFile::Gcs(3);
    let mut dispatch = service().dispatch_download(&source, "file");
    for tries in 1..3 {
        dispatch = match dispatch.attempted(Err(failed("busy"))) {
            DispatchStep::Again(dispatch, delay) => {
                assert_eq!(delay, Duration::from_millis(20));
                dispatch
            }
            other => panic!("unexpected step {other:?}"),
        };
        assert_eq!(dispatch.tries, tries);
        assert!(matches!(dispatch.downloader, Downloader::Gcs(3)));
        assert_eq!(dispatch.temp_file, "file");
    }
    match dispatch.attempted(Err(failed("still busy"))) {
        DispatchStep::Return(entry) => assert_eq!(entry, Err(failed("still busy"))),
        other => panic!("unexpected step {other:?}"),
    }
    let dispatch = service().dispatch_download(&source, "file");
    match dispatch.attempted(Err(CacheError::NotFound)) {
        DispatchStep::Return(entry) => assert_eq!(entry, Err(CacheError::NotFound)),
        other => panic!("unexpected step {other:?}"),
    }
}

#[test]
fn downloads_do_not_share_results() {
    let service = service();
    let source: RemoteFile<u8, u8, u8> = RemoteFile::S3(4);
    let end = |file: &'static str, results: Vec<CacheEntry<()>>| {
        let mut dispatch = service.dispatch_download(&source, file);
        for (i, result) in results.into_iter().enumerate() {
            dispatch = match dispatch.attempted(result) {
                DispatchStep::Return(entry) => return Some((entry, i + 1)),
                DispatchStep::Again(dispatch, _) => dispatch,
            };
        }
        None
    };
    assert_eq!(end("first", vec![Ok(())]), Some((Ok("first"), 1)));
    assert_eq!(end("second", vec![]), None);
    assert_eq!(end("second", vec![Err(failed("busy")), Ok(())]), Some((Ok("second"), 2)));
    let missing = vec![Err(CacheError::NotFound)];
    assert_eq!(end("third", missing), Some((Err(CacheError::NotFound), 1)));

    let (entry, _) = end("fourth", vec![Err(failed("busy")), Ok(())]).unwrap();
    assert_eq!(service.download::<_, u8, u8>(Ok(Ok(entry))), Ok("fourth"));
}

#[test]
fn services_are_set_up_from_the_settings() {
    let service = service();
    assert_eq!(service.runtime, "runtime");
    assert_eq!(service.sentry.runtime, "runtime");
    assert_eq!(service.sentry.client, "1000000000 true");
    assert_eq!(service.http.client, "1000000000 false");
    assert_eq!(service.gcs.client, "1000000000 false");
    assert_eq!(service.max_download_timeout, Duration::from_secs(315));
    assert_eq!(service.sentry.config.max_download_timeout, Duration::from_secs(315));
    assert_eq!(service.http.connect_timeout, Duration::from_secs(1));
    assert_eq!(service.http.streaming_timeout, Duration::from_secs(250));
    assert_eq!(service.s3.connect_timeout, Duration::from_secs(1));
    assert_eq!(service.s3.streaming_timeout, Duration::from_secs(250));
    assert_eq!(service.s3.client_capacity, 50);
    assert_eq!(service.gcs.connect_timeout, Duration::from_secs(1));
    assert_eq!(service.gcs.streaming_timeout, Duration::from_secs(250));
    assert_eq!(service.gcs.token_capacity, 100);
}

#[test]
fn jobs_that_do_not_end_are_errors() {
    let service = service();
    assert_eq!(service.download::<_, u8, u8>(Ok(Ok(Ok("file")))), Ok("file"));
    assert_eq!(
        service.download::<u8, u8, u8>(Ok(Ok(Err(CacheError::NotFound)))),
        Err(CacheError::NotFound)
    );
    assert_eq!(service.download::<u8, u8, u8>(Ok(Err(1))), Err(CacheError::InternalError));
    assert_eq!(
        service.download::<u8, u8, u8>(Err(1)),
        Err(CacheError::Timeout(Duration::from_secs(315)))
    );
    let limit = Duration::from_secs(30);
    assert_eq!(timed::<u8, u8>(Err(1), limit), Err(CacheError::Timeout(limit)));
    assert_eq!(timed::<u8, u8>(Ok(Err(failed("x"))), limit), Err(failed("x")));
    assert_eq!(timed::<u8, u8>(Ok(Ok(3)), limit), Ok(3));
}

#[test]
fn lists_of_downloaders_are_never_errors() {
    assert_eq!(listed(vec![1, 2]), Ok(vec![1, 2]));
    assert_eq!(listed(Vec::<u8>::new()), Ok(vec![]));
}

#[test]
fn copies_that_fail_for_lack_of_a_file() {
    let downloader = FilesystemDownloader::new();
    assert_eq!(downloader.download_source(Ok(12)), Ok(()));
    let missing = IoError::NotFound;
    assert_eq!(downloader.download_source(Err(missing)), Err(CacheError::NotFound));
    let other = IoError::Other(CacheError::InternalError);
    assert_eq!(downloader.download_source(Err(other)), Err(CacheError::InternalError));
}

#[test]
fn throughput_is_bytes_per_millisecond() {
    let mut guard = MeasureSourceDownloadGuard::new("task", "source");
    let report = guard.report_after(Duration::from_millis(3));
    assert_eq!(report.duration_name, "task.duration");
    assert_eq!(report.duration, Duration::from_millis(3));
    assert!(report.throughput.is_none());
    assert_eq!(report.status, "canceled");
    assert_eq!(report.source, "source");

    guard.add_bytes_transferred(1000);
    guard.add_bytes_transferred(11);
    let guard = guard.done(&Err::<u8, u8>(1), status_of);
    let report = guard.report_after(Duration { nanos: 3_999_999 });
    assert_eq!(report.status, "err");
    let throughput = report.throughput.unwrap();
    assert_eq!(throughput.metric_name, "task.throughput");
    assert_eq!(throughput.bytes_per_millisecond, 337);

    let instant = guard.report_after(Duration { nanos: 999_999 });
    assert_eq!(instant.throughput.unwrap().bytes_per_millisecond, 1011);
    let never = guard.report_after(Duration { nanos: u128::MAX });
    assert_eq!(never.throughput.unwrap().bytes_per_millisecond, 0);
}

#[test]
fn counted_bytes_saturate() {
    let mut guard = MeasureSourceDownloadGuard::new("task", "source");
    guard.add_bytes_transferred(0);
    let report = guard.report_after(Duration::from_millis(1));
    assert_eq!(report.throughput.unwrap().bytes_per_millisecond, 0);
    guard.add_bytes_transferred(u64::MAX);
    guard.add_bytes_transferred(1);
    let report = guard.report_after(Duration::from_millis(1));
    assert_eq!(report.throughput.unwrap().bytes_per_millisecond, u64::MAX);
}

#[test]
fn portions_do_not_matter() {
    let counted = |portions: &[u64]| {
        let mut guard = MeasureSourceDownloadGuard::new("task", "source");
        for portion in portions {
            guard.add_bytes_transferred(*portion);
        }
        guard.report_after(Duration::from_millis(1)).throughput.unwrap().bytes_per_millisecond
    };
    assert_eq!(counted(&[1, 2, 3]), counted(&[6]));
    assert_eq!(counted(&[u64::MAX - 1, 1, 1]), counted(&[u64::MAX]));
}

/// Waits until the clock shows that two milliseconds have passed.
fn wait() -> Duration {
    let start = Instant::now();
    while start.elapsed() < std::time::Duration::from_millis(2) {}
    from_std(start.elapsed())
}

#[test]
fn reports_use_the_clock() {
    let before = Instant::now();
    let guard = MeasureSourceDownloadGuard::new("task", "source");
    let waited = wait();
    let duration = guard.report().duration;
    assert!(waited.nanos <= duration.nanos);
    assert!(duration.nanos <= from_std(before.elapsed()).nanos);
}

#[test]
fn time_is_measured_from_the_start() {
    let mut guard = MeasureSourceDownloadGuard::new("task", "source");
    let first = wait();
    guard.add_bytes_transferred(5);
    let second = wait();
    let guard = guard.done(&Ok::<u8, u8>(1), status_of);
    let (_, guard) = measured(guard, Err::<u8, u8>(1), status_of);
    let report = guard.report();
    assert!(first.nanos + second.nanos <= report.duration.nanos);
    assert_eq!(report.status, "err");

    let mut stream = stream();
    let first = wait();
    stream.chunk_read(Some(Ok(("chunk", 5))), status_of);
    let second = wait();
    stream.chunk_written::<&str, _>(Ok(()), status_of);
    let guard = match stream.chunk_read::<&str, _>(None, status_of) {
        StreamStep::Flush(guard) => guard,
        other => panic!("unexpected step {other:?}"),
    };
    assert!(first.nanos + second.nanos <= guard.report().duration.nanos);
}

#[test]
fn connection_times_have_no_throughput() {
    let guard = measure_download_time("source");
    let (output, guard) = measured(guard, Ok::<_, u8>(5), status_of);
    assert_eq!(output, Ok(5));
    let report = guard.report_after(Duration::from_secs(1));
    assert_eq!(report.duration_name, "source.download.connect.duration");
    assert_eq!(report.status, "ok");
    assert!(report.throughput.is_none());
}

fn stream() -> StreamDownload<'static> {
    StreamDownload::download_stream(Ok(3), "source").map(|(file, stream)| {
        assert_eq!(file, 3);
        stream
    })
    .unwrap()
}

#[test]
fn streams_are_written_chunk_by_chunk() {
    let mut stream = stream();
    for (chunk, length) in [("hello", 5), ("", 0), ("welcome", 7)] {
        match stream.chunk_read(Some(Ok((chunk, length))), status_of) {
            StreamStep::Write(bytes) => assert_eq!(bytes, chunk),
            other => panic!("unexpected step {other:?}"),
        }
        let step = stream.chunk_written::<&str, _>(Ok(()), status_of);
        assert!(matches!(step, StreamStep::Read));
    }
    let guard = match stream.chunk_read::<&str, _>(None, status_of) {
        StreamStep::Flush(guard) => guard,
        other => panic!("unexpected step {other:?}"),
    };
    let report = guard.report_after(Duration::from_millis(1));
    assert_eq!(report.duration_name, "source.download.stream.duration");
    assert_eq!(report.status, "ok");
    assert_eq!(report.throughput.unwrap().bytes_per_millisecond, 12);
    assert_eq!(stream.flushed(Ok(())), Ok(()));
    assert!(stream.give_up().is_none());
}

/// Stores the chunks in a file, which is returned with the bytes per millisecond that are reported
/// if it took one millisecond.
fn store(chunks: &[&'static [u8]]) -> (Vec<u8>, Option<u64>) {
    let mut download = stream();
    let mut file = Vec::new();
    let mut left = chunks.iter();
    let mut step = StreamStep::Read;
    loop {
        step = match step {
            StreamStep::Read => {
                let chunk = left.next().map(|chunk| Ok((*chunk, chunk.len() as u64)));
                download.chunk_read(chunk, status_of)
            }
            StreamStep::Write(bytes) => {
                file.extend_from_slice(bytes);
                download.chunk_written(Ok(()), status_of)
            }
            StreamStep::Flush(guard) => {
                assert_eq!(download.flushed(Ok(())), Ok(()));
                let report = guard.report_after(Duration::from_millis(1));
                return (file, report.throughput.map(|speed| speed.bytes_per_millisecond));
            }
            StreamStep::Fail(_, error) => panic!("unexpected error {error:?}"),
        };
    }
}

#[test]
fn files_hold_the_stream() {
    let whole = (b"hello world\n".to_vec(), Some(12));
    assert_eq!(store(&[b"hello ", b"world\n"]), whole);
    assert_eq!(store(&[b"hello world\n"]), whole);
    assert_eq!(store(&[b"h", b"", b"ello worl", b"d\n"]), whole);
    assert_eq!(store(&[]), (vec![], None));
}

#[test]
fn given_up_streams_are_canceled() {
    let mut download = stream();
    download.chunk_read(Some(Ok((1, 5))), status_of);
    let report = download.give_up().unwrap().report_after(Duration::from_millis(1));
    assert_eq!(report.status, "canceled");
    assert_eq!(report.throughput.unwrap().bytes_per_millisecond, 5);
    assert!(download.give_up().is_none());
}

#[test]
fn streams_end_with_the_first_failure() {
    let error = failed("no space");
    let created: CacheEntry<u8> = Err(error.clone());
    assert_eq!(StreamDownload::download_stream(created, "source").unwrap_err(), error);

    let mut reading = stream();
    reading.chunk_read(Some(Ok((1, 5))), status_of);
    reading.chunk_written::<u8, _>(Ok(()), status_of);
    match reading.chunk_read::<u8, _>(Some(Err(failed("closed"))), status_of) {
        StreamStep::Fail(guard, error) => {
            assert_eq!(error, failed("closed"));
            let report = guard.report_after(Duration::from_millis(1));
            assert_eq!(report.status, "err");
            assert_eq!(report.throughput.unwrap().bytes_per_millisecond, 5);
        }
        other => panic!("unexpected step {other:?}"),
    }
    assert!(reading.give_up().is_none());

    let mut writing = stream();
    writing.chunk_read(Some(Ok((1, 5))), status_of);
    match writing.chunk_written::<u8, _>(Err(CacheError::InternalError), status_of) {
        StreamStep::Fail(guard, error) => {
            assert_eq!(error, CacheError::InternalError);
            let report = guard.report_after(Duration::from_millis(1));
            assert_eq!(report.throughput.unwrap().bytes_per_millisecond, 5);
        }
        other => panic!("unexpected step {other:?}"),
    }

    let mut flushing = stream();
    let step = flushing.chunk_read::<u8, _>(None, status_of);
    assert!(matches!(step, StreamStep::Flush(_)));
    assert_eq!(flushing.flushed(Err(failed("full"))), Err(failed("full")));
}

#[test]
fn http_downloaders_keep_their_settings() {
    let downloader = HttpDownloader::new(5, Duration::from_secs(1), Duration::from_secs(2));
    assert_eq!(downloader.client, 5);
    assert_eq!(downloader.connect_timeout, Duration::from_secs(1));
    assert_eq!(downloader.streaming_timeout, Duration::from_secs(2));
}
