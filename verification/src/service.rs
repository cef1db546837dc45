//! Service which handles all downloading from multiple kinds of sources.

use std::sync::Arc;
use vstd::prelude::*;

use crate::duration::Duration;
use crate::error::{CacheEntry, CacheError, CacheErrorView};
use crate::filesystem::{law_filesystem_listing_is_stateless, FilesystemDownloader};
use crate::http::{law_http_listing_is_stateless, HttpDownloader};
use crate::location::{law_search_has_one_result, PathLookup};
use crate::response::{status_error, FORBIDDEN, UNAUTHORIZED};
use crate::retry::{is_settled, retry, retry_step, RetryStep, MAX_TRIES};
use crate::source::{
    filesystem_file, http_file, locations_of, FilesystemRemoteFile, FilesystemSourceConfig,
    HttpRemoteFile, HttpSourceConfig, RemoteFile, SourceConfig,
};

verus! {

/// The sizes of the caches that are kept in memory.
#[derive(Clone, Copy, Debug)]
pub struct InMemoryCacheConfig {
    /// The number of authentication tokens to keep.
    pub gcs_token_capacity: u64,
    /// The number of clients to keep.
    pub s3_client_capacity: u64,
}

/// The settings of all caches.
#[derive(Clone, Copy, Debug)]
pub struct CacheConfigs {
    pub in_memory: InMemoryCacheConfig,
}

/// The settings of the service.
#[derive(Clone, Copy, Debug)]
pub struct Config {
    /// How long a server may take to answer.
    pub connect_timeout: Duration,
    /// How long a server may take for each gigabyte of the answer.
    pub streaming_timeout: Duration,
    /// How long a download may take in all.
    pub max_download_timeout: Duration,
    /// The settings of the caches.
    pub caches: CacheConfigs,
}

/// What the downloader for Sentry sources is set up with.
#[derive(Clone, Debug)]
pub struct SentryDownloader<C, R> {
    pub client: C,
    pub runtime: R,
    pub config: Config,
}

/// What the downloader for S3 sources is set up with.
#[derive(Clone, Copy, Debug)]
pub struct S3Downloader {
    pub connect_timeout: Duration,
    pub streaming_timeout: Duration,
    pub client_capacity: u64,
}

/// What the downloader for GCS sources is set up with.
#[derive(Clone, Debug)]
pub struct GcsDownloader<C> {
    pub client: C,
    pub connect_timeout: Duration,
    pub streaming_timeout: Duration,
    pub token_capacity: u64,
}

/// A service which can download files from a [`SourceConfig`].
///
/// `C` is the type of the clients that make requests, and `R` that of the runtime which downloads
/// run in.
#[derive(Debug)]
pub struct DownloadService<C, R> {
    pub runtime: R,
    pub max_download_timeout: Duration,
    pub sentry: SentryDownloader<C, R>,
    pub http: HttpDownloader<C>,
    pub s3: S3Downloader,
    pub gcs: GcsDownloader<C>,
    pub fs: FilesystemDownloader,
}

/// One of the downloaders of the service, with the file that it is to download.
#[derive(Debug)]
pub enum Downloader<'a, F, L, Y> {
    Sentry(&'a Y),
    Http(&'a HttpRemoteFile<F, L>),
    S3(&'a Y),
    Gcs(&'a Y),
    Filesystem(&'a FilesystemRemoteFile<F, L>),
}

/// The downloader that serves the source of the given file.
pub open spec fn downloader_of<'a, F, L, Y>(source: &'a RemoteFile<F, L, Y>) -> Downloader<
    'a,
    F,
    L,
    Y,
> {
    match source {
        RemoteFile::Sentry(file) => Downloader::Sentry(file),
        RemoteFile::Http(file) => Downloader::Http(file),
        RemoteFile::S3(file) => Downloader::S3(file),
        RemoteFile::Gcs(file) => Downloader::Gcs(file),
        RemoteFile::Filesystem(file) => Downloader::Filesystem(file),
    }
}

/// A download that is to be carried out into a file of type `D`.
#[derive(Debug)]
pub struct Dispatch<'a, F, L, Y, D> {
    /// The downloader that is to be used.
    pub downloader: Downloader<'a, F, L, Y>,
    /// The file that the download is stored in.
    pub temp_file: D,
    /// The number of attempts that have been made.
    pub tries: u32,
}

/// What to do after an attempt at a download.
#[derive(Debug)]
pub enum DispatchStep<'a, F, L, Y, D> {
    /// The download is over.
    Return(CacheEntry<D>),
    /// Wait for the given time and then make another attempt.
    Again(Dispatch<'a, F, L, Y, D>, Duration),
}

impl<'a, F, L, Y, D> Dispatch<'a, F, L, Y, D> {
    /// What to do after an attempt had the given result.
    pub open spec fn step(self, result: CacheEntry<()>) -> DispatchStep<'a, F, L, Y, D> {
        match retry_step(self.tries, result) {
            RetryStep::Return(Ok(_)) => DispatchStep::Return(Ok(self.temp_file)),
            RetryStep::Return(Err(error)) => DispatchStep::Return(Err(error)),
            RetryStep::Again { tries, delay } => DispatchStep::Again(
                Dispatch { tries, ..self },
                delay,
            ),
        }
    }

    /// Decides what to do after an attempt had the given result.
    ///
    /// A successful download returns the file. Failures that may pass are tried again, with the
    /// same downloader and the same file.
    pub fn attempted(self, result: CacheEntry<()>) -> (step: DispatchStep<'a, F, L, Y, D>)
        ensures
            step == self.step(result),
    {
        match retry(self.tries, result) {
            RetryStep::Return(Ok(())) => DispatchStep::Return(Ok(self.temp_file)),
            RetryStep::Return(Err(error)) => DispatchStep::Return(Err(error)),
            RetryStep::Again { tries, delay } => DispatchStep::Again(
                Dispatch { downloader: self.downloader, temp_file: self.temp_file, tries },
                delay,
            ),
        }
    }
}

/// How long a Sentry source may take to list its files, in seconds.
pub const LIST_FILES_TIMEOUT_SECS: u64 = 30;

/// How the files of a source are listed.
#[derive(Debug)]
pub enum ListStep<F, L, X, Y> {
    /// Ask the Sentry source, which may take the given time. Its answer is the result, as
    /// [`timed`] says.
    AskSentry { config: X, timeout: Duration },
    /// Let the S3 downloader list the files. Its list is the result, as [`listed`] says.
    ListS3(X),
    /// Let the GCS downloader list the files. Its list is the result, as [`listed`] says.
    ListGcs(X),
    /// These are the files.
    Listed(CacheEntry<Vec<RemoteFile<F, L, Y>>>),
}

/// What comes of something that was given the time `limit` to produce an entry.
pub open spec fn within_limit<T, E>(
    outcome: Result<CacheEntry<T>, E>,
    limit: Duration,
) -> CacheEntry<T> {
    match outcome {
        Ok(entry) => entry,
        Err(_) => Err(CacheError::Timeout(limit)),
    }
}

/// Returns the entry that something produced, or that it did not do so within the time `limit`.
pub fn timed<T, E>(outcome: Result<CacheEntry<T>, E>, limit: Duration) -> (entry: CacheEntry<T>)
    ensures
        entry == within_limit(outcome, limit),
{
    match outcome {
        Ok(entry) => entry,
        Err(_) => Err(CacheError::Timeout(limit)),
    }
}

/// Returns the files that a downloader listed, which is never an error.
pub fn listed<T>(files: T) -> (entry: CacheEntry<T>)
    ensures
        entry == Ok::<T, CacheError>(files),
{
    Ok(files)
}

/// What is returned of a download that was given the time `limit`.
///
/// `job` is an error if the download took longer than that. Otherwise it is an error if the
/// download could not be run to its end, or else the result of the download.
pub open spec fn download_result<T, J, E>(
    job: Result<Result<CacheEntry<T>, J>, E>,
    limit: Duration,
) -> CacheEntry<T> {
    match job {
        Err(_) => Err(CacheError::Timeout(limit)),
        Ok(Err(_)) => Err(CacheError::InternalError),
        Ok(Ok(entry)) => entry,
    }
}

impl<C, R> DownloadService<C, R> {
    /// This service is set up as the settings say, with the given clients: the trusted one makes
    /// the requests to Sentry, and the restricted one those to all other servers.
    pub open spec fn set_up(
        &self,
        config: Config,
        runtime: R,
        trusted_client: C,
        restricted_client: C,
    ) -> bool where C: Clone, R: Clone {
        &&& cloned(runtime, self.runtime)
        &&& self.max_download_timeout == config.max_download_timeout
        &&& self.sentry == SentryDownloader { client: trusted_client, runtime, config }
        &&& cloned(restricted_client, self.http.client)
        &&& self.http.connect_timeout == config.connect_timeout
        &&& self.http.streaming_timeout == config.streaming_timeout
        &&& self.s3 == S3Downloader {
            connect_timeout: config.connect_timeout,
            streaming_timeout: config.streaming_timeout,
            client_capacity: config.caches.in_memory.s3_client_capacity,
        }
        &&& self.gcs == GcsDownloader {
            client: restricted_client,
            connect_timeout: config.connect_timeout,
            streaming_timeout: config.streaming_timeout,
            token_capacity: config.caches.in_memory.gcs_token_capacity,
        }
    }

    /// Creates a new downloader that runs all downloads in the given runtime.
    ///
    /// `create_client` creates a client from the settings, one that is trusted if told so.
    pub fn new<K>(config: &Config, runtime: R, create_client: K) -> (service: Arc<Self>) where
        C: Clone,
        R: Clone,
        K: Fn(&Config, bool) -> C,

        requires
            call_requires(create_client, (config, true)),
            call_requires(create_client, (config, false)),
        ensures
            exists|trusted_client: C, restricted_client: C|
                {
                    &&& #[trigger] call_ensures(create_client, (config, true), trusted_client)
                    &&& #[trigger] call_ensures(create_client, (config, false), restricted_client)
                    &&& service.set_up(*config, runtime, trusted_client, restricted_client)
                },
    {
        let trusted_client = create_client(config, true);
        let restricted_client = create_client(config, false);
        let in_memory = config.caches.in_memory;
        Arc::new(
            DownloadService {
                runtime: runtime.clone(),
                max_download_timeout: config.max_download_timeout,
                sentry: SentryDownloader { client: trusted_client, runtime, config: *config },
                http: HttpDownloader::new(
                    restricted_client.clone(),
                    config.connect_timeout,
                    config.streaming_timeout,
                ),
                s3: S3Downloader {
                    connect_timeout: config.connect_timeout,
                    streaming_timeout: config.streaming_timeout,
                    client_capacity: in_memory.s3_client_capacity,
                },
                gcs: GcsDownloader {
                    client: restricted_client,
                    connect_timeout: config.connect_timeout,
                    streaming_timeout: config.streaming_timeout,
                    token_capacity: in_memory.gcs_token_capacity,
                },
                fs: FilesystemDownloader::new(),
            },
        )
    }

    /// Dispatches downloading of the given file to the appropriate source.
    pub fn dispatch_download<'a, F, L, Y, D>(
        &self,
        source: &'a RemoteFile<F, L, Y>,
        temp_file: D,
    ) -> (dispatch: Dispatch<'a, F, L, Y, D>)
        ensures
            dispatch == (Dispatch { downloader: downloader_of(source), temp_file, tries: 0 }),
    {
        let downloader = match source {
            RemoteFile::Sentry(file) => Downloader::Sentry(file),
            RemoteFile::Http(file) => Downloader::Http(file),
            RemoteFile::S3(file) => Downloader::S3(file),
            RemoteFile::Gcs(file) => Downloader::Gcs(file),
            RemoteFile::Filesystem(file) => Downloader::Filesystem(file),
        };
        Dispatch { downloader, temp_file, tries: 0 }
    }

    /// What came of a download.
    ///
    /// `job` is an error if the download took longer than the service allows. Otherwise it is an
    /// error if the download could not be run to its end, or else the result of the download.
    pub fn download<T, J, E>(&self, job: Result<Result<CacheEntry<T>, J>, E>) -> (entry: CacheEntry<
        T,
    >)
        ensures
            entry == download_result(job, self.max_download_timeout),
    {
        match job {
            Err(_) => Err(CacheError::Timeout(self.max_download_timeout)),
            Ok(Err(_)) => Err(CacheError::InternalError),
            Ok(Ok(entry)) => entry,
        }
    }

    /// Finds all objects at the source that may be the given one.
    ///
    /// Symbol servers and directories simply have the locations at which a download attempt should
    /// be made, without any guarantee the object is actually there. Other sources need to be asked.
    pub fn list_files<T, F, O, L, A, P, X, Y>(
        &self,
        source: SourceConfig<F, L, X>,
        filetypes: &[T],
        object_id: &O,
        lookup: &PathLookup<A, P>,
    ) -> (step: ListStep<F, L, X, Y>) where
        T: Copy,
        L: Copy,
        A: Fn(&F, &O, T) -> bool,
        P: Fn(L, T, &O) -> Vec<String>,

        requires
            match source {
                SourceConfig::Http(config) => lookup.answers::<T, F, O, L>(
                    &config.files.filters,
                    object_id,
                    config.files.layout,
                ),
                SourceConfig::Filesystem(config) => lookup.answers::<T, F, O, L>(
                    &config.files.filters,
                    object_id,
                    config.files.layout,
                ),
                _ => true,
            },
        ensures
            match source {
                SourceConfig::Sentry(config) => step == (ListStep::<F, L, X, Y>::AskSentry {
                    config,
                    timeout: Duration::of_secs(LIST_FILES_TIMEOUT_SECS),
                }),
                SourceConfig::S3(config) => step == ListStep::<F, L, X, Y>::ListS3(config),
                SourceConfig::Gcs(config) => step == ListStep::<F, L, X, Y>::ListGcs(config),
                SourceConfig::Http(config) => {
                    &&& step matches ListStep::Listed(Ok(files))
                    &&& self.http.lists(config, filetypes@, object_id, lookup, files@)
                },
                SourceConfig::Filesystem(config) => {
                    &&& step matches ListStep::Listed(Ok(files))
                    &&& self.fs.lists(config, filetypes@, object_id, lookup, files@)
                },
            },
    {
        match source {
            SourceConfig::Sentry(config) => ListStep::AskSentry {
                config,
                timeout: Duration::from_secs(LIST_FILES_TIMEOUT_SECS),
            },
            SourceConfig::Http(config) => ListStep::Listed(
                Ok(self.http.list_files(config, filetypes, object_id, lookup)),
            ),
            SourceConfig::S3(config) => ListStep::ListS3(config),
            SourceConfig::Gcs(config) => ListStep::ListGcs(config),
            SourceConfig::Filesystem(config) => ListStep::Listed(
                Ok(self.fs.list_files(config, filetypes, object_id, lookup)),
            ),
        }
    }
}

/// What is returned, and the number of attempts made until then, if the attempts at a download
/// have the given results one after the other.
pub open spec fn dispatch_outcome<'a, F, L, Y, D>(
    dispatch: Dispatch<'a, F, L, Y, D>,
    results: Seq<CacheEntry<()>>,
) -> Option<(CacheEntry<D>, int)>
    decreases results.len(),
{
    if results.len() == 0 {
        None
    } else {
        match dispatch.step(results.first()) {
            DispatchStep::Return(entry) => Some((entry, dispatch.tries + 1)),
            DispatchStep::Again(next, _) => dispatch_outcome(next, results.drop_first()),
        }
    }
}

/// A download returns its file exactly if the last attempt at it succeeded, and otherwise the
/// error of that attempt. All earlier attempts failed in a way that may pass, and there are never
/// more than three.
pub proof fn law_download_returns_its_file_or_the_last_error<'a, F, L, Y, D>(
    downloader: Downloader<'a, F, L, Y>,
    temp_file: D,
    results: Seq<CacheEntry<()>>,
)
    requires
        results.len() >= MAX_TRIES,
    ensures
        dispatch_outcome(Dispatch { downloader, temp_file, tries: 0 }, results) matches Some(
            (entry, attempts),
        ) && {
            &&& 1 <= attempts <= MAX_TRIES
            &&& entry == match results[attempts - 1] {
                Ok(_) => Ok(temp_file),
                Err(error) => Err(error),
            }
            &&& forall|i: int| 0 <= i < attempts - 1 ==> !is_settled(#[trigger] results[i])
            &&& is_settled(results[attempts - 1]) || attempts == MAX_TRIES
        },
{
    let second = results.drop_first();
    let third = second.drop_first();
    reveal_with_fuel(dispatch_outcome, 4);
    assert(results.first() == results[0]);
    assert(second.first() == results[1]);
    assert(third.first() == results[2]);
}

/// A server that answers an attempt at a download with a client error settles it: the error is
/// returned after that one attempt. It is a missing file unless access was refused.
pub proof fn law_client_errors_end_a_download<'a, F, L, Y, D>(
    downloader: Downloader<'a, F, L, Y>,
    temp_file: D,
    status: u16,
    text: Seq<char>,
    error: CacheError,
)
    requires
        400 <= status <= 499,
        status_error(status, text) == Some(error@),
    ensures
        dispatch_outcome(Dispatch { downloader, temp_file, tries: 0 }, seq![Err(error)]) == Some(
            (Err::<D, CacheError>(error), 1int),
        ),
        status != UNAUTHORIZED && status != FORBIDDEN ==> error == CacheError::NotFound,
        status == UNAUTHORIZED || status == FORBIDDEN ==> error@
            == CacheErrorView::PermissionDenied(text),
{
    let results = seq![Err::<(), CacheError>(error)];
    assert(results.first() == Err::<(), CacheError>(error));
    assert(is_settled(results.first()));
}

/// A download that succeeds at once returns its file after that one attempt.
pub proof fn law_success_ends_a_download<'a, F, L, Y, D>(
    downloader: Downloader<'a, F, L, Y>,
    temp_file: D,
)
    ensures
        dispatch_outcome(Dispatch { downloader, temp_file, tries: 0 }, seq![Ok(())]) == Some(
            (Ok::<D, CacheError>(temp_file), 1int),
        ),
{
    let results = seq![Ok::<(), CacheError>(())];
    assert(results.first() == Ok::<(), CacheError>(()));
}

/// All attempts at a download are made with the same downloader and into the same file.
pub proof fn law_attempts_share_downloader_and_file<'a, F, L, Y, D>(
    dispatch: Dispatch<'a, F, L, Y, D>,
    result: CacheEntry<()>,
)
    ensures
        dispatch.step(result) matches DispatchStep::Again(next, delay) ==> {
            &&& next.downloader == dispatch.downloader
            &&& next.temp_file == dispatch.temp_file
            &&& next.tries == dispatch.tries + 1
            &&& next.tries < MAX_TRIES
            &&& delay == Duration::of_millis(20)
        },
{
}

proof fn lemma_outcome_is_of_one_attempt<'a, F, L, Y, D>(
    dispatch: Dispatch<'a, F, L, Y, D>,
    results: Seq<CacheEntry<()>>,
)
    ensures
        dispatch_outcome(dispatch, results) matches Some((entry, attempts)) ==> {
            let made = attempts - dispatch.tries;
            &&& 1 <= made <= results.len()
            &&& entry == match results[made - 1] {
                Ok(_) => Ok(dispatch.temp_file),
                Err(error) => Err(error),
            }
            &&& dispatch_outcome(dispatch, results.take(made)) == dispatch_outcome(
                dispatch,
                results,
            )
        },
    decreases results.len(),
{
    if results.len() > 0 {
        match dispatch.step(results.first()) {
            DispatchStep::Return(_) => {
                assert(results.take(1).first() == results.first());
            },
            DispatchStep::Again(next, _) => {
                let rest = results.drop_first();
                lemma_outcome_is_of_one_attempt(next, rest);
                if let Some((_, attempts)) = dispatch_outcome(next, rest) {
                    let made = attempts - dispatch.tries;
                    assert(results.take(made).first() == results.first());
                    assert(results.take(made).drop_first() == rest.take(made - 1));
                    assert(rest[made - 2] == results[made - 1]);
                }
            },
        }
    }
}

/// No download uses what came of another: each one returns only after an attempt of its own, its
/// result is that of the last attempt it made itself, and what it returns on success is its own
/// file. Two downloads of one file whose attempts go alike end alike, each with its own file.
pub proof fn law_downloads_do_not_share_results<'a, F, L, Y, D>(
    source: &'a RemoteFile<F, L, Y>,
    temp_file: D,
    other_file: D,
    results: Seq<CacheEntry<()>>,
)
    ensures
        ({
            let started = Dispatch { downloader: downloader_of(source), temp_file, tries: 0 };
            let other = Dispatch { temp_file: other_file, ..started };
            &&& dispatch_outcome(started, Seq::empty()) is None
            &&& dispatch_outcome(started, results) matches Some((entry, attempts)) ==> {
                &&& 1 <= attempts <= results.len()
                &&& entry == match results[attempts - 1] {
                    Ok(_) => Ok(temp_file),
                    Err(error) => Err(error),
                }
                &&& dispatch_outcome(started, results.take(attempts)) == Some((entry, attempts))
                &&& dispatch_outcome(other, results) == Some(
                    (
                        match results[attempts - 1] {
                            Ok(_) => Ok(other_file),
                            Err(error) => Err::<D, CacheError>(error),
                        },
                        attempts,
                    ),
                )
            }
        }),
{
    let started = Dispatch { downloader: downloader_of(source), temp_file, tries: 0 };
    lemma_outcome_is_of_one_attempt(started, results);
    lemma_outcome_is_of_one_attempt(Dispatch { temp_file: other_file, ..started }, results);
    lemma_file_does_not_matter(started, other_file, results);
}

/// A download that returns a file has made an attempt of its own, the last one it made succeeded,
/// and the file is the one that this attempt was stored in. `job` is what came of running the
/// attempts: if it has a result, that is the one after the given number of attempts.
pub proof fn law_returned_files_were_downloaded<'a, F, L, Y, D, J, E>(
    source: &'a RemoteFile<F, L, Y>,
    temp_file: D,
    results: Seq<CacheEntry<()>>,
    attempts: int,
    job: Result<Result<CacheEntry<D>, J>, E>,
    limit: Duration,
)
    requires
        job matches Ok(Ok(entry)) ==> dispatch_outcome(
            Dispatch { downloader: downloader_of(source), temp_file, tries: 0 },
            results,
        ) == Some((entry, attempts)),
    ensures
        download_result(job, limit) matches Ok(file) ==> {
            &&& 1 <= attempts <= results.len()
            &&& results[attempts - 1] is Ok
            &&& file == temp_file
        },
        results.len() == 0 ==> download_result(job, limit) is Err,
{
    let started = Dispatch { downloader: downloader_of(source), temp_file, tries: 0 };
    lemma_outcome_is_of_one_attempt(started, results);
}

proof fn lemma_file_does_not_matter<'a, F, L, Y, D>(
    dispatch: Dispatch<'a, F, L, Y, D>,
    other_file: D,
    results: Seq<CacheEntry<()>>,
)
    ensures
        ({
            let other = dispatch_outcome(Dispatch { temp_file: other_file, ..dispatch }, results);
            match dispatch_outcome(dispatch, results) {
                Some((_, attempts)) => other matches Some((_, others)) && attempts == others,
                None => other is None,
            }
        }),
    decreases results.len(),
{
    if results.len() > 0 {
        if let DispatchStep::Again(next, _) = dispatch.step(results.first()) {
            lemma_file_does_not_matter(next, other_file, results.drop_first());
        }
    }
}

/// A symbol server and a directory with the same filters and the same layout list the same
/// locations in the same order.
pub proof fn law_downloaders_search_alike<C, T, F, O, L, A, P, Y>(
    http: HttpDownloader<C>,
    fs: FilesystemDownloader,
    server: Arc<HttpSourceConfig<F, L>>,
    directory: Arc<FilesystemSourceConfig<F, L>>,
    filetypes: Seq<T>,
    object_id: &O,
    lookup: PathLookup<A, P>,
    on_server: Seq<RemoteFile<F, L, Y>>,
    in_directory: Seq<RemoteFile<F, L, Y>>,
) where A: Fn(&F, &O, T) -> bool, P: Fn(L, T, &O) -> Vec<String>
    requires
        server.files == directory.files,
        lookup.is_determined::<T, F, O, L>(&server.files.filters, object_id, server.files.layout),
        http.lists(server, filetypes, object_id, &lookup, on_server),
        fs.lists(directory, filetypes, object_id, &lookup, in_directory),
    ensures
        locations_of(on_server) == locations_of(in_directory),
{
    let filters = &server.files.filters;
    let layout = server.files.layout;
    let paths = choose|paths: Seq<String>|
        {
            &&& #[trigger] lookup.finds(filters, object_id, layout, filetypes, paths)
            &&& on_server == paths.map_values(http_file::<F, L, Y>(server))
        };
    let others = choose|paths: Seq<String>|
        {
            &&& #[trigger] lookup.finds(filters, object_id, layout, filetypes, paths)
            &&& in_directory == paths.map_values(filesystem_file::<F, L, Y>(directory))
        };
    law_search_has_one_result(lookup, filters, object_id, layout, filetypes, paths, others);
    assert(locations_of(on_server) == locations_of(in_directory));
}

/// A service makes requests to Sentry with the trusted client and all other requests with the
/// restricted one, and every downloader gets the timeouts and the capacities of the settings.
pub proof fn law_services_are_set_up_from_the_settings<C, R, K>(
    config: &Config,
    runtime: R,
    create_client: K,
    service: Arc<DownloadService<C, R>>,
) where C: Clone, R: Clone, K: Fn(&Config, bool) -> C
    requires
        call_ensures(
            DownloadService::<C, R>::new::<K>,
            (config, runtime, create_client),
            service,
        ),
    ensures
        call_ensures(create_client, (config, true), service.sentry.client),
        call_ensures(create_client, (config, false), service.gcs.client),
        cloned(service.gcs.client, service.http.client),
        cloned(runtime, service.runtime),
        service.sentry.runtime == runtime,
        service.sentry.config == *config,
        service.max_download_timeout == config.max_download_timeout,
        service.http.connect_timeout == config.connect_timeout,
        service.http.streaming_timeout == config.streaming_timeout,
        service.s3.connect_timeout == config.connect_timeout,
        service.s3.streaming_timeout == config.streaming_timeout,
        service.s3.client_capacity == config.caches.in_memory.s3_client_capacity,
        service.gcs.connect_timeout == config.connect_timeout,
        service.gcs.streaming_timeout == config.streaming_timeout,
        service.gcs.token_capacity == config.caches.in_memory.gcs_token_capacity,
{
}

/// A file is downloaded by the downloader of its own kind of source, into the file that was given,
/// and no attempt has been made before.
pub proof fn law_files_go_to_the_downloader_of_their_source<'a, C, R, F, L, Y, D>(
    service: &DownloadService<C, R>,
    source: &'a RemoteFile<F, L, Y>,
    temp_file: D,
    dispatch: Dispatch<'a, F, L, Y, D>,
)
    requires
        call_ensures(
            DownloadService::<C, R>::dispatch_download::<F, L, Y, D>,
            (service, source, temp_file),
            dispatch,
        ),
    ensures
        dispatch.downloader matches Downloader::Sentry(file) ==> *source
            == RemoteFile::<F, L, Y>::Sentry(*file),
        dispatch.downloader matches Downloader::Http(file) ==> *source
            == RemoteFile::<F, L, Y>::Http(*file),
        dispatch.downloader matches Downloader::S3(file) ==> *source
            == RemoteFile::<F, L, Y>::S3(*file),
        dispatch.downloader matches Downloader::Gcs(file) ==> *source
            == RemoteFile::<F, L, Y>::Gcs(*file),
        dispatch.downloader matches Downloader::Filesystem(file) ==> *source
            == RemoteFile::<F, L, Y>::Filesystem(*file),
        dispatch.temp_file == temp_file,
        dispatch.tries == 0,
{
}

/// An attempt at a download is followed by another one, 20 milliseconds later and into the same
/// file, if and only if it is one of the first two and timed out, could not fetch the file or
/// failed inside the service. Otherwise the file is returned if the attempt succeeded, and its
/// error if it did not.
pub proof fn law_attempts_end_or_are_repeated<'a, F, L, Y, D>(
    dispatch: Dispatch<'a, F, L, Y, D>,
    result: CacheEntry<()>,
    step: DispatchStep<'a, F, L, Y, D>,
)
    requires
        call_ensures(Dispatch::<'a, F, L, Y, D>::attempted, (dispatch, result), step),
    ensures
        step is Again <==> dispatch.tries < 2 && (match result {
            Err(CacheError::Timeout(_)) => true,
            Err(CacheError::DownloadError(_)) => true,
            Err(CacheError::InternalError) => true,
            _ => false,
        }),
        step matches DispatchStep::Again(next, delay) ==> {
            &&& next.downloader == dispatch.downloader
            &&& next.temp_file == dispatch.temp_file
            &&& next.tries == dispatch.tries + 1
            &&& delay.nanos == 20_000_000
        },
        step matches DispatchStep::Return(entry) ==> {
            &&& entry is Ok <==> result is Ok
            &&& entry matches Ok(file) ==> file == dispatch.temp_file
            &&& entry matches Err(error) ==> result == Err::<(), CacheError>(error)
        },
{
}

/// A download returns what its job returned, unless the job took longer than the service allows or
/// could not be run to its end.
pub proof fn law_jobs_decide_downloads<C, R, T, J, E>(
    service: &DownloadService<C, R>,
    job: Result<Result<CacheEntry<T>, J>, E>,
    entry: CacheEntry<T>,
)
    requires
        call_ensures(DownloadService::<C, R>::download::<T, J, E>, (service, job), entry),
    ensures
        job matches Ok(Ok(result)) ==> entry == result,
        job matches Ok(Err(_)) ==> entry == Err::<T, CacheError>(CacheError::InternalError),
        job is Err ==> entry == Err::<T, CacheError>(
            CacheError::Timeout(service.max_download_timeout),
        ),
{
}

/// What is produced in time is handed on as it is, be it a success or a failure, and what is not is
/// a timeout of exactly the time that was given. What a downloader lists is a success.
pub proof fn law_results_are_handed_on<T, E>(
    outcome: Result<CacheEntry<T>, E>,
    limit: Duration,
    entry: CacheEntry<T>,
    files: T,
    list: CacheEntry<T>,
)
    requires
        call_ensures(timed::<T, E>, (outcome, limit), entry),
        call_ensures(listed::<T>, (files,), list),
    ensures
        outcome matches Ok(produced) ==> entry == produced,
        outcome is Err ==> entry == Err::<T, CacheError>(CacheError::Timeout(limit)),
        list == Ok::<T, CacheError>(files),
{
}

/// Sentry is asked for its files and gets 30 seconds to answer, and the downloaders for S3 and GCS
/// list theirs, each with the configuration of the source. No other source is asked.
pub proof fn law_sources_that_are_asked<C, R, T, F, O, L, A, P, X, Y>(
    service: &DownloadService<C, R>,
    source: SourceConfig<F, L, X>,
    filetypes: &[T],
    object_id: &O,
    lookup: &PathLookup<A, P>,
    step: ListStep<F, L, X, Y>,
) where T: Copy, L: Copy, A: Fn(&F, &O, T) -> bool, P: Fn(L, T, &O) -> Vec<String>
    requires
        call_ensures(
            DownloadService::<C, R>::list_files::<T, F, O, L, A, P, X, Y>,
            (service, source, filetypes, object_id, lookup),
            step,
        ),
    ensures
        source is Sentry <==> step is AskSentry,
        source is S3 <==> step is ListS3,
        source is Gcs <==> step is ListGcs,
        source is Http || source is Filesystem <==> step is Listed,
        step matches ListStep::AskSentry { config, timeout } ==> source
            == SourceConfig::<F, L, X>::Sentry(config) && timeout.nanos == 30_000_000_000,
        step matches ListStep::ListS3(config) ==> source == SourceConfig::<F, L, X>::S3(config),
        step matches ListStep::ListGcs(config) ==> source == SourceConfig::<F, L, X>::Gcs(config),
        step matches ListStep::Listed(entry) ==> entry is Ok,
{
}

/// The files of a symbol server are those that the downloader for servers lists, in the same order.
pub proof fn law_servers_are_listed_by_their_downloader<C, R, T, F, O, L, A, P, X, Y>(
    service: &DownloadService<C, R>,
    server: Arc<HttpSourceConfig<F, L>>,
    filetypes: &[T],
    object_id: &O,
    lookup: &PathLookup<A, P>,
    files: Vec<RemoteFile<F, L, Y>>,
    listed: Vec<RemoteFile<F, L, Y>>,
) where T: Copy, L: Copy, A: Fn(&F, &O, T) -> bool, P: Fn(L, T, &O) -> Vec<String>
    requires
        lookup.is_determined::<T, F, O, L>(&server.files.filters, object_id, server.files.layout),
        call_ensures(
            DownloadService::<C, R>::list_files::<T, F, O, L, A, P, X, Y>,
            (service, SourceConfig::Http(server), filetypes, object_id, lookup),
            ListStep::Listed(Ok(files)),
        ),
        call_ensures(
            HttpDownloader::<C>::list_files::<T, F, O, L, A, P, Y>,
            (&service.http, server, filetypes, object_id, lookup),
            listed,
        ),
    ensures
        files@ == listed@,
{
    law_http_listing_is_stateless(
        service.http,
        service.http,
        server,
        filetypes@,
        object_id,
        *lookup,
        files@,
        listed@,
    );
}

/// The files of a directory are those that the downloader for directories lists, in the same order.
pub proof fn law_directories_are_listed_by_their_downloader<C, R, T, F, O, L, A, P, X, Y>(
    service: &DownloadService<C, R>,
    directory: Arc<FilesystemSourceConfig<F, L>>,
    filetypes: &[T],
    object_id: &O,
    lookup: &PathLookup<A, P>,
    files: Vec<RemoteFile<F, L, Y>>,
    listed: Vec<RemoteFile<F, L, Y>>,
) where T: Copy, L: Copy, A: Fn(&F, &O, T) -> bool, P: Fn(L, T, &O) -> Vec<String>
    requires
        lookup.is_determined::<T, F, O, L>(
            &directory.files.filters,
            object_id,
            directory.files.layout,
        ),
        call_ensures(
            DownloadService::<C, R>::list_files::<T, F, O, L, A, P, X, Y>,
            (service, SourceConfig::Filesystem(directory), filetypes, object_id, lookup),
            ListStep::Listed(Ok(files)),
        ),
        call_ensures(
            FilesystemDownloader::list_files::<T, F, O, L, A, P, Y>,
            (&service.fs, directory, filetypes, object_id, lookup),
            listed,
        ),
    ensures
        files@ == listed@,
{
    law_filesystem_listing_is_stateless(
        service.fs,
        service.fs,
        directory,
        filetypes@,
        object_id,
        *lookup,
        files@,
        listed@,
    );
}

/// Every source can be asked for its files, provided that the questions on its layout can be asked.
pub proof fn law_every_source_can_be_listed<C, R, T, F, O, L, A, P, X, Y>(
    service: &DownloadService<C, R>,
    source: SourceConfig<F, L, X>,
    filetypes: &[T],
    object_id: &O,
    lookup: &PathLookup<A, P>,
) where T: Copy, L: Copy, A: Fn(&F, &O, T) -> bool, P: Fn(L, T, &O) -> Vec<String>
    requires
        forall|filters: &F, filetype: T| #[trigger]
            call_requires(lookup.is_allowed, (filters, object_id, filetype)),
        forall|layout: L, filetype: T| #[trigger]
            call_requires(lookup.get_directory_paths, (layout, filetype, object_id)),
    ensures
        call_requires(
            DownloadService::<C, R>::list_files::<T, F, O, L, A, P, X, Y>,
            (service, source, filetypes, object_id, lookup),
        ),
{
}

/// A service can be set up with any settings, provided that both clients can be created from them.
pub proof fn law_every_service_can_be_set_up<C, R, K>(
    config: &Config,
    runtime: R,
    create_client: K,
) where C: Clone, R: Clone, K: Fn(&Config, bool) -> C
    requires
        call_requires(create_client, (config, true)),
        call_requires(create_client, (config, false)),
    ensures
        call_requires(DownloadService::<C, R>::new::<K>, (config, runtime, create_client)),
{
}

} // verus!
