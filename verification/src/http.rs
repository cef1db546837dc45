//! Support to download from HTTP sources.
//!
//! Specifically this supports the [`HttpSourceConfig`] source.

use std::sync::Arc;
use vstd::prelude::*;

use crate::duration::Duration;
use crate::error::{CacheEntry, CacheError};
use crate::headers::{request_headers, request_headers_view};
use crate::location::{
    law_no_file_types_have_no_locations, lemma_listing_has_one_result,
    lemma_listing_of_one_more_file_type, lemma_listings_are_joined, paths_of, PathLookup,
    SourceLocationIter,
};
use crate::source::{
    http_file, pairs_view, share, HttpRemoteFile, HttpSourceConfig, RemoteFile,
};

verus! {

/// Downloader implementation that supports the [`HttpSourceConfig`] source.
///
/// `C` is the type of the client that makes the requests.
#[derive(Clone, Debug)]
pub struct HttpDownloader<C> {
    /// The client that makes the requests.
    pub client: C,
    /// How long a server may take to answer.
    pub connect_timeout: Duration,
    /// How long a server may take for each gigabyte of the answer.
    pub streaming_timeout: Duration,
}

/// The method that a request is sent with.
#[derive(Clone, Copy, Debug, PartialEq, Eq, Structural)]
pub enum Method {
    /// The method `GET`.
    Get,
}

/// A request for a file.
#[derive(Clone, Debug)]
pub struct HttpRequest<U> {
    /// The method to send it with.
    pub method: Method,
    /// The address of the file.
    pub url: U,
    /// Names and values of the headers to add, in this order.
    pub headers: Vec<(String, String)>,
    /// How long the server may take to answer.
    pub connect_timeout: Duration,
    /// How long the server may take for each gigabyte of the answer.
    pub streaming_timeout: Duration,
}

impl<C> HttpDownloader<C> {
    /// The downloader with the given client and timeouts.
    pub fn new(client: C, connect_timeout: Duration, streaming_timeout: Duration) -> (downloader:
        Self)
        ensures
            downloader.client == client,
            downloader.connect_timeout == connect_timeout,
            downloader.streaming_timeout == streaming_timeout,
    {
        HttpDownloader { client, connect_timeout, streaming_timeout }
    }

    /// What is requested for a file, given the address of the file or that it has none.
    pub open spec fn requests<F, L, U, E>(
        &self,
        file_source: HttpRemoteFile<F, L>,
        url: Result<U, E>,
        prepared: CacheEntry<HttpRequest<U>>,
    ) -> bool {
        match url {
            Err(_) => prepared == Err::<HttpRequest<U>, CacheError>(CacheError::NotFound),
            Ok(url) => {
                &&& prepared matches Ok(request)
                &&& request.method == Method::Get
                &&& request.url == url
                &&& pairs_view(request.headers@) == request_headers_view(
                    file_source.source.headers@,
                )
                &&& request.connect_timeout == self.connect_timeout
                &&& request.streaming_timeout == self.streaming_timeout
            },
        }
    }

    /// Prepares the request for a file of which the address is known.
    ///
    /// A file without an address does not exist.
    pub fn prepare_request<F, L, U, E>(
        &self,
        file_source: &HttpRemoteFile<F, L>,
        url: Result<U, E>,
    ) -> (prepared: CacheEntry<HttpRequest<U>>)
        ensures
            self.requests(*file_source, url, prepared),
    {
        match url {
            Err(_) => Err(CacheError::NotFound),
            Ok(url) => Ok(
                HttpRequest {
                    method: Method::Get,
                    url,
                    headers: request_headers(&file_source.source.headers),
                    connect_timeout: self.connect_timeout,
                    streaming_timeout: self.streaming_timeout,
                },
            ),
        }
    }

    /// Prepares the request for a file. `url_of` finds the address of a file.
    pub fn download_source<F, L, U, E, N>(
        &self,
        file_source: &HttpRemoteFile<F, L>,
        url_of: N,
    ) -> (prepared: CacheEntry<HttpRequest<U>>) where N: Fn(&HttpRemoteFile<F, L>) -> Result<U, E>
        requires
            call_requires(url_of, (file_source,)),
        ensures
            exists|url: Result<U, E>|
                {
                    &&& #[trigger] call_ensures(url_of, (file_source,), url)
                    &&& self.requests(*file_source, url, prepared)
                },
    {
        self.prepare_request(file_source, url_of(file_source))
    }

    /// These are files that the source may have listed for the given object: those at the paths
    /// that a search over the file types finds, in the order of the search.
    pub open spec fn lists<T, F, O, L, A, P, Y>(
        &self,
        source: Arc<HttpSourceConfig<F, L>>,
        filetypes: Seq<T>,
        object_id: &O,
        lookup: &PathLookup<A, P>,
        files: Seq<RemoteFile<F, L, Y>>,
    ) -> bool where A: Fn(&F, &O, T) -> bool, P: Fn(L, T, &O) -> Vec<String> {
        lookup.lists(
            &source.files.filters,
            object_id,
            source.files.layout,
            filetypes,
            http_file::<F, L, Y>(source),
            files,
        )
    }

    /// Returns the files of the source that may be the given object.
    ///
    /// The files come in the order in which the locations are searched. The server is not asked
    /// whether it has any of them.
    pub fn list_files<T, F, O, L, A, P, Y>(
        &self,
        source: Arc<HttpSourceConfig<F, L>>,
        filetypes: &[T],
        object_id: &O,
        lookup: &PathLookup<A, P>,
    ) -> (files: Vec<RemoteFile<F, L, Y>>) where
        T: Copy,
        L: Copy,
        A: Fn(&F, &O, T) -> bool,
        P: Fn(L, T, &O) -> Vec<String>,

        requires
            lookup.answers::<T, F, O, L>(&source.files.filters, object_id, source.files.layout),
        ensures
            self.lists(source, filetypes@, object_id, lookup, files@),
    {
        let search = SourceLocationIter {
            filetypes,
            filters: &source.files.filters,
            object_id,
            layout: source.files.layout,
            lookup,
            next: Vec::new(),
        };
        let locations = search.collect();
        let ghost all = locations@;
        let mut files: Vec<RemoteFile<F, L, Y>> = Vec::new();
        for location in iter: locations
            invariant
                iter.seq() == all,
                files@.len() == iter.index(),
                forall|i: int|
                    0 <= i < files@.len() ==> #[trigger] files@[i] == RemoteFile::<F, L, Y>::Http(
                        HttpRemoteFile { source, location: all[i] },
                    ),
        {
            files.push(RemoteFile::Http(HttpRemoteFile::new(share(&source), location)));
        }
        proof {
            let paths = choose|paths: Seq<String>|
                {
                    &&& #[trigger] lookup.finds(
                        &source.files.filters,
                        object_id,
                        source.files.layout,
                        filetypes@,
                        paths,
                    )
                    &&& paths_of(all) == Seq::<String>::empty().reverse() + paths
                };
            assert(paths_of(all) == paths);
            assert(files@ == paths.map_values(http_file::<F, L, Y>(source)));
        }
        files
    }
}

/// Where the filters and the layout answer each question in one way only, the files that are listed
/// are always the same, whichever downloader lists them and whatever it has done before.
pub proof fn law_http_listing_is_stateless<C, T, F, O, L, A, P, Y>(
    one: HttpDownloader<C>,
    other: HttpDownloader<C>,
    source: Arc<HttpSourceConfig<F, L>>,
    filetypes: Seq<T>,
    object_id: &O,
    lookup: PathLookup<A, P>,
    first: Seq<RemoteFile<F, L, Y>>,
    second: Seq<RemoteFile<F, L, Y>>,
) where A: Fn(&F, &O, T) -> bool, P: Fn(L, T, &O) -> Vec<String>
    requires
        lookup.is_determined::<T, F, O, L>(&source.files.filters, object_id, source.files.layout),
        one.lists(source, filetypes, object_id, &lookup, first),
        other.lists(source, filetypes, object_id, &lookup, second),
    ensures
        first == second,
{
    let layout = source.files.layout;
    lemma_listing_has_one_result(
        lookup,
        &source.files.filters,
        object_id,
        layout,
        filetypes,
        http_file::<F, L, Y>(source),
        first,
        second,
    );
}

/// Where the filters and the layout answer each question in one way only, listing the files for
/// some file types and then others is the same as listing them for all at once. For no file types
/// there are no files.
pub proof fn law_http_listings_are_joined<C, T, F, O, L, A, P, Y>(
    downloader: HttpDownloader<C>,
    source: Arc<HttpSourceConfig<F, L>>,
    first: Seq<T>,
    second: Seq<T>,
    object_id: &O,
    lookup: PathLookup<A, P>,
    front: Seq<RemoteFile<F, L, Y>>,
    back: Seq<RemoteFile<F, L, Y>>,
    all: Seq<RemoteFile<F, L, Y>>,
) where A: Fn(&F, &O, T) -> bool, P: Fn(L, T, &O) -> Vec<String>
    requires
        lookup.is_determined::<T, F, O, L>(&source.files.filters, object_id, source.files.layout),
        downloader.lists(source, first, object_id, &lookup, front),
        downloader.lists(source, second, object_id, &lookup, back),
        downloader.lists(source, first + second, object_id, &lookup, all),
    ensures
        all == front + back,
        first.len() == 0 ==> front.len() == 0,
{
    let layout = source.files.layout;
    lemma_listings_are_joined(
        lookup,
        &source.files.filters,
        object_id,
        layout,
        first,
        second,
        http_file::<F, L, Y>(source),
        front,
        back,
        all,
    );
}

/// One more file type makes the list longer by the files at its paths, from the last to the first,
/// if it is allowed, and by nothing if it is not. All of them are files of the source, and the rest
/// of the list stays as it is.
pub proof fn law_http_lists_one_more_file_type<C, T, F, O, L, A, P, Y>(
    downloader: &HttpDownloader<C>,
    source: Arc<HttpSourceConfig<F, L>>,
    filetypes: &[T],
    longer: &[T],
    filetype: T,
    object_id: &O,
    lookup: &PathLookup<A, P>,
    allowed: spec_fn(T) -> bool,
    listed: spec_fn(T) -> Seq<String>,
    files: Vec<RemoteFile<F, L, Y>>,
    more: Vec<RemoteFile<F, L, Y>>,
) where T: Copy, L: Copy, A: Fn(&F, &O, T) -> bool, P: Fn(L, T, &O) -> Vec<String>
    requires
        longer@ == filetypes@.push(filetype),
        lookup.answers_as(
            &source.files.filters,
            object_id,
            source.files.layout,
            allowed,
            listed,
        ),
        call_ensures(
            HttpDownloader::<C>::list_files::<T, F, O, L, A, P, Y>,
            (downloader, source, filetypes, object_id, lookup),
            files,
        ),
        call_ensures(
            HttpDownloader::<C>::list_files::<T, F, O, L, A, P, Y>,
            (downloader, source, longer, object_id, lookup),
            more,
        ),
    ensures
        more@.len() == files@.len() + (if allowed(filetype) {
            listed(filetype).len()
        } else {
            0
        }),
        forall|i: int| 0 <= i < files@.len() ==> #[trigger] more@[i] == files@[i],
        forall|i: int|
            files@.len() <= i < more@.len() ==> {
                &&& #[trigger] more@[i] matches RemoteFile::Http(file)
                &&& file.source == source
                &&& file.location.path == listed(filetype)[more@.len() - 1 - i]
            },
{
    lemma_listing_of_one_more_file_type(
        *lookup,
        &source.files.filters,
        object_id,
        source.files.layout,
        filetypes@,
        filetype,
        allowed,
        listed,
        http_file::<F, L, Y>(source),
        files@,
        more@,
    );
}

/// No files are listed where no file types are asked for.
pub proof fn law_http_lists_nothing_for_no_file_types<C, T, F, O, L, A, P, Y>(
    downloader: &HttpDownloader<C>,
    source: Arc<HttpSourceConfig<F, L>>,
    filetypes: &[T],
    object_id: &O,
    lookup: &PathLookup<A, P>,
    files: Vec<RemoteFile<F, L, Y>>,
) where T: Copy, L: Copy, A: Fn(&F, &O, T) -> bool, P: Fn(L, T, &O) -> Vec<String>
    requires
        filetypes@.len() == 0,
        call_ensures(
            HttpDownloader::<C>::list_files::<T, F, O, L, A, P, Y>,
            (downloader, source, filetypes, object_id, lookup),
            files,
        ),
    ensures
        files@.len() == 0,
{
    let layout = source.files.layout;
    let paths = choose|paths: Seq<String>|
        {
            &&& #[trigger] lookup.finds(
                &source.files.filters,
                object_id,
                layout,
                filetypes@,
                paths,
            )
            &&& files@ == paths.map_values(http_file::<F, L, Y>(source))
        };
    assert(filetypes@ == Seq::<T>::empty());
    law_no_file_types_have_no_locations::<T, F, O, L, A, P>(
        *lookup,
        &source.files.filters,
        object_id,
        layout,
        paths,
    );
}

/// A downloader has the client and the timeouts that it is made with.
pub proof fn law_downloaders_keep_their_settings<C>(
    client: C,
    connect_timeout: Duration,
    streaming_timeout: Duration,
    downloader: HttpDownloader<C>,
)
    requires
        call_ensures(
            HttpDownloader::<C>::new,
            (client, connect_timeout, streaming_timeout),
            downloader,
        ),
    ensures
        downloader.client == client,
        downloader.connect_timeout == connect_timeout,
        downloader.streaming_timeout == streaming_timeout,
{
}

/// Every file that has an address is requested from there, within the time that the downloader
/// allows, and a file is missing exactly if it has no address.
pub proof fn law_files_are_requested_from_their_address<C, F, L, U, E>(
    downloader: &HttpDownloader<C>,
    file: &HttpRemoteFile<F, L>,
    url: Result<U, E>,
    prepared: CacheEntry<HttpRequest<U>>,
)
    requires
        call_ensures(
            HttpDownloader::<C>::prepare_request::<F, L, U, E>,
            (downloader, file, url),
            prepared,
        ),
    ensures
        prepared is Ok <==> url is Ok,
        url is Err ==> prepared == Err::<HttpRequest<U>, CacheError>(CacheError::NotFound),
        prepared matches Ok(request) ==> {
            &&& Ok::<U, E>(request.url) == url
            &&& request.method is Get
            &&& request.connect_timeout == downloader.connect_timeout
            &&& request.streaming_timeout == downloader.streaming_timeout
        },
{
}

/// A request has exactly the headers that a source configured like that of the file gets.
pub proof fn law_requests_have_the_headers_of_their_source<C, F, L, U, E>(
    downloader: &HttpDownloader<C>,
    file: &HttpRemoteFile<F, L>,
    url: Result<U, E>,
    request: HttpRequest<U>,
    added: Vec<(String, String)>,
)
    requires
        call_ensures(
            HttpDownloader::<C>::prepare_request::<F, L, U, E>,
            (downloader, file, url),
            Ok(request),
        ),
        call_ensures(request_headers, (&file.source.headers,), added),
    ensures
        request.headers@.len() == added@.len(),
        forall|i: int|
            0 <= i < added@.len() ==> (#[trigger] request.headers@[i]).0@ == added@[i].0@
                && request.headers@[i].1@ == added@[i].1@,
{
    lemma_equal_pairs(request.headers@, added@);
}

/// A download requests the file from the address that was found for this file and no other, with
/// the headers of its source and within the time that the downloader allows.
pub proof fn law_downloads_request_the_file<C, F, L, U, E, N>(
    downloader: &HttpDownloader<C>,
    file: &HttpRemoteFile<F, L>,
    url_of: N,
    prepared: CacheEntry<HttpRequest<U>>,
    added: Vec<(String, String)>,
) where N: Fn(&HttpRemoteFile<F, L>) -> Result<U, E>
    requires
        call_ensures(
            HttpDownloader::<C>::download_source::<F, L, U, E, N>,
            (downloader, file, url_of),
            prepared,
        ),
        call_ensures(request_headers, (&file.source.headers,), added),
    ensures
        exists|url: Result<U, E>|
            {
                &&& #[trigger] call_ensures(url_of, (file,), url)
                &&& prepared is Ok <==> url is Ok
                &&& url is Err ==> prepared == Err::<HttpRequest<U>, CacheError>(
                    CacheError::NotFound,
                )
                &&& prepared matches Ok(request) ==> {
                    &&& Ok::<U, E>(request.url) == url
                    &&& request.method is Get
                    &&& request.connect_timeout == downloader.connect_timeout
                    &&& request.streaming_timeout == downloader.streaming_timeout
                    &&& request.headers@.len() == added@.len()
                    &&& forall|i: int|
                        0 <= i < added@.len() ==> (#[trigger] request.headers@[i]).0@
                            == added@[i].0@ && request.headers@[i].1@ == added@[i].1@
                }
            },
{
    if let Ok(request) = prepared {
        lemma_equal_pairs(request.headers@, added@);
    }
}

proof fn lemma_equal_pairs(first: Seq<(String, String)>, second: Seq<(String, String)>)
    requires
        pairs_view(first) == pairs_view(second),
    ensures
        first.len() == second.len(),
        forall|i: int|
            0 <= i < second.len() ==> (#[trigger] first[i]).0@ == second[i].0@ && first[i].1@
                == second[i].1@,
{
    assert(pairs_view(first).len() == first.len());
    assert(pairs_view(second).len() == second.len());
    assert forall|i: int| 0 <= i < second.len() implies (#[trigger] first[i]).0@ == second[i].0@
        && first[i].1@ == second[i].1@ by {
        assert(pairs_view(first)[i] == (first[i].0@, first[i].1@));
        assert(pairs_view(second)[i] == (second[i].0@, second[i].1@));
    }
}

/// Every file can be requested, provided that its address can be looked up.
pub proof fn law_every_file_can_be_requested<C, F, L, U, E, N>(
    downloader: &HttpDownloader<C>,
    file: &HttpRemoteFile<F, L>,
    url_of: N,
) where N: Fn(&HttpRemoteFile<F, L>) -> Result<U, E>
    requires
        call_requires(url_of, (file,)),
    ensures
        call_requires(
            HttpDownloader::<C>::download_source::<F, L, U, E, N>,
            (downloader, file, url_of),
        ),
{
}

} // verus!
