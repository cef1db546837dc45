//! The sources that files are fetched from, and the files in them.

use std::sync::Arc;
use vstd::prelude::*;

use crate::location::SourceLocation;

verus! {

/// Which files a source holds and where it keeps them.
///
/// `F` is the type of its filters and `L` that of its layout.
#[derive(Clone, Debug)]
pub struct CommonSourceConfig<F, L> {
    /// The files that the source holds.
    pub filters: F,
    /// Where it keeps each of them.
    pub layout: L,
}

/// A source that is an HTTP server.
#[derive(Clone, Debug)]
pub struct HttpSourceConfig<F, L> {
    /// The identifier of the source.
    pub id: String,
    /// Names and values of the headers that go with every request to it.
    pub headers: Vec<(String, String)>,
    /// The files of the source.
    pub files: CommonSourceConfig<F, L>,
}

/// A source that is a directory of the local filesystem.
#[derive(Clone, Debug)]
pub struct FilesystemSourceConfig<F, L> {
    /// The identifier of the source.
    pub id: String,
    /// The files of the source.
    pub files: CommonSourceConfig<F, L>,
}

/// A place to fetch files from.
///
/// `X` is the configuration of the sources whose files are listed elsewhere.
#[derive(Clone, Debug)]
pub enum SourceConfig<F, L, X> {
    Sentry(X),
    Http(Arc<HttpSourceConfig<F, L>>),
    S3(X),
    Gcs(X),
    Filesystem(Arc<FilesystemSourceConfig<F, L>>),
}

/// A file on an HTTP server.
#[derive(Clone, Debug)]
pub struct HttpRemoteFile<F, L> {
    pub source: Arc<HttpSourceConfig<F, L>>,
    pub location: SourceLocation,
}

impl<F, L> HttpRemoteFile<F, L> {
    /// The file at the given location of the given source.
    pub fn new(source: Arc<HttpSourceConfig<F, L>>, location: SourceLocation) -> (file: Self)
        ensures
            file.source == source,
            file.location == location,
    {
        HttpRemoteFile { source, location }
    }
}

/// A file in a directory of the local filesystem.
#[derive(Clone, Debug)]
pub struct FilesystemRemoteFile<F, L> {
    pub source: Arc<FilesystemSourceConfig<F, L>>,
    pub location: SourceLocation,
}

impl<F, L> FilesystemRemoteFile<F, L> {
    /// The file at the given location of the given source.
    pub fn new(source: Arc<FilesystemSourceConfig<F, L>>, location: SourceLocation) -> (file: Self)
        ensures
            file.source == source,
            file.location == location,
    {
        FilesystemRemoteFile { source, location }
    }
}

/// A file in a source.
///
/// `Y` is the type of the files of those sources whose files are listed elsewhere.
#[derive(Clone, Debug)]
pub enum RemoteFile<F, L, Y> {
    Sentry(Y),
    Http(HttpRemoteFile<F, L>),
    S3(Y),
    Gcs(Y),
    Filesystem(FilesystemRemoteFile<F, L>),
}

/// The files of an HTTP source, by their paths.
pub open spec fn http_file<F, L, Y>(source: Arc<HttpSourceConfig<F, L>>) -> spec_fn(
    String,
) -> RemoteFile<F, L, Y> {
    |path: String| RemoteFile::Http(HttpRemoteFile { source, location: SourceLocation { path } })
}

/// The files of a filesystem source, by their paths.
pub open spec fn filesystem_file<F, L, Y>(source: Arc<FilesystemSourceConfig<F, L>>) -> spec_fn(
    String,
) -> RemoteFile<F, L, Y> {
    |path: String|
        RemoteFile::Filesystem(FilesystemRemoteFile { source, location: SourceLocation { path } })
}

/// Where a file is in its source, if that is known here.
pub open spec fn location_of<F, L, Y>(file: RemoteFile<F, L, Y>) -> Option<SourceLocation> {
    match file {
        RemoteFile::Http(file) => Some(file.location),
        RemoteFile::Filesystem(file) => Some(file.location),
        _ => None,
    }
}

/// Where some files are in their sources.
pub open spec fn locations_of<F, L, Y>(files: Seq<RemoteFile<F, L, Y>>) -> Seq<
    Option<SourceLocation>,
> {
    files.map_values(|file: RemoteFile<F, L, Y>| location_of(file))
}

/// Calls [`Arc::clone`]: the result is another pointer to the same value.
#[verifier::external_body]
pub(crate) fn share<T>(value: &Arc<T>) -> (shared: Arc<T>)
    ensures
        shared == *value,
{
    value.clone()
}

/// The tags that describe a file in an error report, each with its name.
pub open spec fn scope_tags_view(
    source_id: Seq<char>,
    source_type: Seq<char>,
    is_public: bool,
    uri: Seq<char>,
) -> Seq<(Seq<char>, Seq<char>)> {
    seq![
        ("source.id"@, source_id),
        ("source.type"@, source_type),
        (
            "source.is_public"@,
            if is_public {
                "true"@
            } else {
                "false"@
            },
        ),
        ("source.uri"@, uri),
    ]
}

/// The names and values of some tags, as sequences of characters.
pub open spec fn pairs_view(pairs: Seq<(String, String)>) -> Seq<(Seq<char>, Seq<char>)> {
    pairs.map_values(|pair: (String, String)| (pair.0@, pair.1@))
}

/// Returns the tags that describe a file in an error report.
pub fn to_scope(source_id: &str, source_type: &str, is_public: bool, uri: &str) -> (tags: Vec<
    (String, String),
>)
    ensures
        pairs_view(tags@) == scope_tags_view(source_id@, source_type@, is_public, uri@),
{
    let public = if is_public {
        "true"
    } else {
        "false"
    };
    let mut tags: Vec<(String, String)> = Vec::new();
    tags.push(("source.id".to_owned(), source_id.to_owned()));
    tags.push(("source.type".to_owned(), source_type.to_owned()));
    tags.push(("source.is_public".to_owned(), public.to_owned()));
    tags.push(("source.uri".to_owned(), uri.to_owned()));
    tags
}

/// A file is at the location and in the source that it is made with.
pub proof fn law_files_keep_source_and_location<F, L>(
    server: Arc<HttpSourceConfig<F, L>>,
    directory: Arc<FilesystemSourceConfig<F, L>>,
    location: SourceLocation,
    on_server: HttpRemoteFile<F, L>,
    in_directory: FilesystemRemoteFile<F, L>,
)
    requires
        call_ensures(HttpRemoteFile::<F, L>::new, (server, location), on_server),
        call_ensures(FilesystemRemoteFile::<F, L>::new, (directory, location), in_directory),
    ensures
        on_server.source == server,
        on_server.location == location,
        in_directory.source == directory,
        in_directory.location == location,
{
}

/// An error report has exactly four tags on a file: the identifier and the type of its source,
/// whether the source is public, and the address of the file. The texts are those that were given.
pub proof fn law_error_reports_have_four_tags(
    source_id: &str,
    source_type: &str,
    is_public: bool,
    uri: &str,
    tags: Vec<(String, String)>,
)
    requires
        call_ensures(to_scope, (source_id, source_type, is_public, uri), tags),
    ensures
        tags@.len() == 4,
        tags@[0].0@ == "source.id"@ && tags@[0].1@ == source_id@,
        tags@[1].0@ == "source.type"@ && tags@[1].1@ == source_type@,
        tags@[2].0@ == "source.is_public"@,
        tags@[2].1@ == "true"@ <==> is_public,
        tags@[2].1@ == "false"@ <==> !is_public,
        tags@[3].0@ == "source.uri"@ && tags@[3].1@ == uri@,
{
    assert("true"@ != "false"@) by {
        reveal_strlit("true");
        reveal_strlit("false");
        assert("true"@.len() == 4 && "false"@.len() == 5);
    }
    let view = pairs_view(tags@);
    assert(view.len() == tags@.len());
    assert(view[0] == (tags@[0].0@, tags@[0].1@));
    assert(view[1] == (tags@[1].0@, tags@[1].1@));
    assert(view[2] == (tags@[2].0@, tags@[2].1@));
    assert(view[3] == (tags@[3].0@, tags@[3].1@));
}

} // verus!
