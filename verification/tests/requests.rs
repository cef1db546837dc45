use std::sync::Arc;

use symbolicator_service::headers::{content_length, request_headers, USER_AGENT};
use symbolicator_service::http::{HttpDownloader, Method};
use symbolicator_service::location::SourceLocation;
use symbolicator_service::response::{check_status, download_reqwest, Response};
use symbolicator_service::retry::{retry, RetryStep};
use symbolicator_service::source::{
    to_scope, CommonSourceConfig, HttpRemoteFile, HttpSourceConfig,
};
use symbolicator_service::{CacheError, Duration, ErrorChain};

fn pair(name: &str, value: &str) -> (String, String) {
    (name.to_string(), value.to_string())
}

fn file(path: &str) -> HttpRemoteFile<u8, u8> {
    let source = HttpSourceConfig {
        id: "server".to_string(),
        headers: vec![pair("X-Token", "Secret"), pair("not a name", "x")],
        files: CommonSourceConfig { filters: 0, layout: 0 },
    };
    HttpRemoteFile::new(Arc::new(source), SourceLocation::new(path.to_string()))
}

type Sent = Result<Result<Response<&'static str>, ErrorChain>, u8>;

fn answer(status: u16, content_length: Option<&[u8]>) -> Sent {
    let content_length = content_length.map(|value| value.to_vec());
    Ok(Ok(Response { status, content_length, body: "body" }))
}

/// One second for each byte, on top of the given time.
fn scale(timeout_per_gb: Duration, content_length: i64) -> Duration {
    assert!(content_length >= 0);
    Duration { nanos: timeout_per_gb.nanos + content_length as u128 * 1_000_000_000 }
}

/// How long reading the body may take, if it is to be read.
fn read(sent: Sent) -> Result<Option<Duration>, CacheError> {
    let streaming_timeout = Duration::from_secs(5);
    download_reqwest(sent, Duration::from_secs(30), streaming_timeout, scale).map(|accepted| {
        assert_eq!(accepted.body, "body");
        accepted.limit
    })
}

#[test]
fn invalid_header_names_are_dropped_and_valid_ones_normalized() {
    let added = request_headers(&vec![
        pair("Accept", "Text/Plain"),
        pair("", "empty"),
        pair("two words", "x"),
        pair("naïve", "x"),
        pair("X_!\"#$%&'*+-.^`|~9Z", "symbols"),
        pair("colon:", "x"),
        pair("accept", "again"),
    ]);
    assert_eq!(
        added,
        [
            pair("accept", "Text/Plain"),
            pair("x_!\"#$%&'*+-.^`|~9z", "symbols"),
            pair("accept", "again"),
            pair("user-agent", USER_AGENT),
        ]
    );
}

#[test]
fn user_agent_is_always_sent() {
    assert_eq!(request_headers(&vec![]), [pair("user-agent", "symbolicator/0.7.0")]);
    assert_eq!(
        request_headers(&vec![pair("User-Agent", "mine")]),
        [pair("user-agent", "mine"), pair("user-agent", "symbolicator/0.7.0")]
    );
}

#[test]
fn header_names_have_a_largest_length() {
    let longest = "a".repeat(65535);
    let too_long = "a".repeat(65536);
    let added = request_headers(&vec![pair(&longest, "1"), pair(&too_long, "2")]);
    assert_eq!(added.len(), 2);
    assert_eq!(added[0], pair(&longest, "1"));
    let mixed = "A".repeat(100);
    assert_eq!(request_headers(&vec![pair(&mixed, "3")])[0], pair(&"a".repeat(100), "3"));
    let bad = format!("{}(", "A".repeat(100));
    assert_eq!(request_headers(&vec![pair(&bad, "4")]).len(), 1);
}

#[test]
fn every_single_byte_name_is_judged_like_a_header_name() {
    for byte in 0..128u8 {
        let name = (byte as char).to_string();
        let added = request_headers(&vec![pair(&name, "")]);
        let valid = byte.is_ascii_alphanumeric() || b"!\"#$%&'*+-.^_`|~".contains(&byte);
        assert_eq!(added.len() == 2, valid, "byte {byte}");
        if valid {
            assert_eq!(added[0].0, name.to_ascii_lowercase());
        }
    }
}

#[test]
fn requests_are_prepared() {
    let downloader =
        HttpDownloader::new("client", Duration::from_secs(30), Duration::from_secs(40));
    let request = downloader
        .download_source(&file("hello.txt"), |file: &HttpRemoteFile<u8, u8>| {
            Ok::<_, u8>(format!("http://localhost/{}", file.location.path))
        })
        .unwrap();
    assert_eq!(request.method, Method::Get);
    assert_eq!(request.url, "http://localhost/hello.txt");
    assert_eq!(
        request.headers,
        [pair("x-token", "Secret"), pair("user-agent", "symbolicator/0.7.0")]
    );
    assert_eq!(request.connect_timeout, Duration::from_secs(30));
    assert_eq!(request.streaming_timeout, Duration::from_secs(40));
}

#[test]
fn files_without_an_address_do_not_exist() {
    let downloader =
        HttpDownloader::new("client", Duration::from_secs(30), Duration::from_secs(30));
    let prepared = downloader
        .download_source(&file("::"), |_: &HttpRemoteFile<u8, u8>| Err::<String, u8>(1));
    assert_eq!(prepared.unwrap_err(), CacheError::NotFound);
    let prepared = downloader.prepare_request(&file("a"), Ok::<u8, u8>(4));
    assert_eq!(prepared.unwrap().url, 4);
}

#[test]
fn successful_answers_are_read() {
    assert_eq!(read(answer(200, Some(b"12"))), Ok(Some(Duration::from_secs(17))));
    assert_eq!(read(answer(299, None)), Ok(None));
    assert_eq!(read(answer(204, Some(b"many"))), Ok(None));
}

#[test]
fn answers_are_read_within_a_limit() {
    let limit = |value: &[u8]| read(answer(200, Some(value))).unwrap();
    assert_eq!(limit(b"100"), Some(Duration::from_secs(105)));
    assert_eq!(limit(b"5"), Some(Duration::from_secs(10)));
    assert_eq!(limit(b"1"), Some(Duration::from_secs(10)));
    assert_eq!(limit(b"-100"), Some(Duration::from_secs(10)));
    assert_eq!(limit(b"100 "), None);
}

#[test]
fn missing_files_are_not_found() {
    for status in [400, 402, 404, 410, 429, 499] {
        assert_eq!(read(answer(status, None)), Err(CacheError::NotFound));
    }
}

#[test]
fn forbidden_files_are_reported_with_the_status() {
    assert_eq!(
        read(answer(403, None)),
        Err(CacheError::PermissionDenied("403 Forbidden".to_string()))
    );
    assert_eq!(
        read(answer(401, None)),
        Err(CacheError::PermissionDenied("401 Unauthorized".to_string()))
    );
}

#[test]
fn other_answers_are_download_errors() {
    let details = |status| match read(answer(status, None)) {
        Err(CacheError::DownloadError(details)) => details,
        other => panic!("unexpected result {other:?}"),
    };
    assert_eq!(details(500), "500 Internal Server Error");
    assert_eq!(details(302), "302 Found");
    assert_eq!(details(199), "199 <unknown status code>");
    assert_eq!(details(100), "100 Continue");
    assert_eq!(details(999), "999 <unknown status code>");
    assert_eq!(
        check_status(503, "busy".to_string()),
        Err(CacheError::DownloadError("busy".to_string()))
    );
    assert_eq!(check_status(201, "fine".to_string()), Ok(()));
}

#[test]
fn unanswered_requests_time_out() {
    assert_eq!(read(Err(1)), Err(CacheError::Timeout(Duration::from_secs(30))));
}

#[test]
fn failed_requests_keep_the_root_cause() {
    let failed = |message: &str, sources: &[&str]| {
        let chain = ErrorChain {
            message: message.to_string(),
            sources: sources.iter().map(|source| source.to_string()).collect(),
        };
        match read(Ok(Err(chain))) {
            Err(CacheError::DownloadError(details)) => details,
            other => panic!("unexpected result {other:?}"),
        }
    };
    assert_eq!(failed("refused", &[]), "refused");
    assert_eq!(failed("error sending request", &["connect error", "refused"]), "refused");
    assert_eq!(
        failed("x", &["error:1416F086:SSL routines:tls_process:certificate verify failed:ssl"]),
        "certificate verify failed"
    );
    assert_eq!(failed("error:1408F10B:SSL routines:ssl3_get_record", &[]), "SSL error");
    assert_eq!(failed("certificate verify failed", &["closed"]), "closed");
    assert_eq!(failed("SSL Routines", &[]), "SSL Routines");
}

#[test]
fn storage_errors_keep_their_message() {
    assert_eq!(
        CacheError::gcs_error("SSL routines".to_string()),
        CacheError::DownloadError("SSL routines".to_string())
    );
}

#[test]
fn content_lengths_are_read() {
    let length = |value: &[u8]| content_length(&Some(value.to_vec()));
    assert_eq!(content_length(&None), None);
    assert_eq!(length(b"0"), Some(0));
    assert_eq!(length(b"007"), Some(7));
    assert_eq!(length(b"+15"), Some(15));
    assert_eq!(length(b"-15"), Some(-15));
    assert_eq!(length(b"9223372036854775807"), Some(i64::MAX));
    assert_eq!(length(b"-9223372036854775808"), Some(i64::MIN));
    assert_eq!(length(b"9223372036854775808"), None);
    assert_eq!(length(b""), None);
    assert_eq!(length(b"-"), None);
    assert_eq!(length(b"+"), None);
    assert_eq!(length(b"+-1"), None);
    assert_eq!(length(b" 1"), None);
    assert_eq!(length(b"1\t"), None);
    assert_eq!(length(b"1_000"), None);
    assert_eq!(length(b"0x10"), None);
    assert_eq!(length("１".as_bytes()), None);
    assert_eq!(length(b"1\x00"), None);
    assert_eq!(length(b"1\xff"), None);
}

#[test]
fn files_are_described_in_error_reports() {
    assert_eq!(
        to_scope("my-source", "http", false, "http://localhost/a"),
        [
            pair("source.id", "my-source"),
            pair("source.type", "http"),
            pair("source.is_public", "false"),
            pair("source.uri", "http://localhost/a"),
        ]
    );
    assert_eq!(to_scope("", "", true, "")[2], pair("source.is_public", "true"));
}

#[test]
fn normalized_names_are_sent_as_they_are() {
    let once = request_headers(&vec![pair("X-Token", "A"), pair("Accept", "B")]);
    let twice = request_headers(&once);
    assert_eq!(&twice[..3], &once[..]);
}

#[test]
fn reduced_errors_are_not_reduced_further() {
    let reduce = |message: &str| {
        let chain = ErrorChain { message: message.to_string(), sources: vec![] };
        match CacheError::download_error(&chain) {
            CacheError::DownloadError(details) => details,
            other => panic!("unexpected error {other:?}"),
        }
    };
    for message in ["SSL routines: certificate verify failed", "SSL routines", "closed", ""] {
        let reduced = reduce(message);
        assert_eq!(reduce(&reduced), reduced);
    }
}

#[test]
fn client_errors_are_not_retried() {
    for status in [400, 401, 403, 404, 499] {
        let result = check_status(status, "text".to_string());
        assert!(matches!(retry(0, result), RetryStep::Return(Err(_))));
    }
    for status in [100, 301, 399, 500, 503, 600] {
        let result = check_status(status, "text".to_string());
        assert!(matches!(retry(0, result), RetryStep::Again { tries: 1, .. }));
    }
}
