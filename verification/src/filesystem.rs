//! Support to download from the local filesystem.
//!
//! Specifically this supports the [`FilesystemSourceConfig`] source. It allows sources to be
//! present on the local filesystem, usually only used for testing.

use std::sync::Arc;
use vstd::prelude::*;

use crate::error::{CacheEntry, CacheError};
use crate::location::{
    law_no_file_types_have_no_locations, lemma_listing_has_one_result,
    lemma_listing_of_one_more_file_type, lemma_listings_are_joined, paths_of, PathLookup,
    SourceLocationIter,
};
use crate::source::{
    filesystem_file, share, FilesystemRemoteFile, FilesystemSourceConfig, RemoteFile,
};

verus! {

/// An error of an operation on files.
#[derive(Clone, Debug)]
pub enum IoError {
    /// There is no such file.
    NotFound,
    /// Any other error, as errors of files are reported in general.
    Other(CacheError),
}

/// Downloader implementation that supports the [`FilesystemSourceConfig`] source.
#[derive(Clone, Copy, Debug)]
pub struct FilesystemDownloader {}

impl FilesystemDownloader {
    /// The downloader, which has no settings.
    pub fn new() -> (downloader: Self)
        ensures
            downloader == (FilesystemDownloader {  }),
    {
        FilesystemDownloader {  }
    }

    /// What it means for the download that the file was copied, or that copying it failed.
    ///
    /// A successful copy comes with the number of bytes copied.
    pub fn download_source(&self, copied: Result<u64, IoError>) -> (entry: CacheEntry<()>)
        ensures
            entry == match copied {
                Ok(_) => Ok(()),
                Err(IoError::NotFound) => Err(CacheError::NotFound),
                Err(IoError::Other(error)) => Err(error),
            },
    {
        match copied {
            Ok(_) => Ok(()),
            Err(IoError::NotFound) => Err(CacheError::NotFound),
            Err(IoError::Other(error)) => Err(error),
        }
    }

    /// These are files that the source may have listed for the given object: those at the paths
    /// that a search over the file types finds, in the order of the search.
    pub open spec fn lists<T, F, O, L, A, P, Y>(
        &self,
        source: Arc<FilesystemSourceConfig<F, L>>,
        filetypes: Seq<T>,
        object_id: &O,
        lookup: &PathLookup<A, P>,
        files: Seq<RemoteFile<F, L, Y>>,
    ) -> bool where A: Fn(&F, &O, T) -> bool, P: Fn(L, T, &O) -> Vec<String> {
        lookup.lists(
            &source.files.filters,
            object_id,
            source.files.layout,
            filetypes,
            filesystem_file::<F, L, Y>(source),
            files,
        )
    }

    /// Returns the files of the source that may be the given object.
    ///
    /// The files come in the order in which the locations are searched. Whether there is a file
    /// at any of them is not looked at.
    pub fn list_files<T, F, O, L, A, P, Y>(
        &self,
        source: Arc<FilesystemSourceConfig<F, L>>,
        filetypes: &[T],
        object_id: &O,
        lookup: &PathLookup<A, P>,
    ) -> (files: Vec<RemoteFile<F, L, Y>>) where
        T: Copy,
        L: Copy,
        A: Fn(&F, &O, T) -> bool,
        P: Fn(L, T, &O) -> Vec<String>,

        requires
            lookup.answers::<T, F, O, L>(&source.files.filters, object_id, source.files.layout),
        ensures
            self.lists(source, filetypes@, object_id, lookup, files@),
    {
        let search = SourceLocationIter {
            filetypes,
            filters: &source.files.filters,
            object_id,
            layout: source.files.layout,
            lookup,
            next: Vec::new(),
        };
        let locations = search.collect();
        let ghost all = locations@;
        let mut files: Vec<RemoteFile<F, L, Y>> = Vec::new();
        for location in iter: locations
            invariant
                iter.seq() == all,
                files@.len() == iter.index(),
                forall|i: int|
                    0 <= i < files@.len() ==> #[trigger] files@[i] == RemoteFile::<
                        F,
                        L,
                        Y,
                    >::Filesystem(FilesystemRemoteFile { source, location: all[i] }),
        {
            files.push(RemoteFile::Filesystem(FilesystemRemoteFile::new(share(&source), location)));
        }
        proof {
            let paths = choose|paths: Seq<String>|
                {
                    &&& #[trigger] lookup.finds(
                        &source.files.filters,
                        object_id,
                        source.files.layout,
                        filetypes@,
                        paths,
                    )
                    &&& paths_of(all) == Seq::<String>::empty().reverse() + paths
                };
            assert(paths_of(all) == paths);
            assert(files@ == paths.map_values(filesystem_file::<F, L, Y>(source)));
        }
        files
    }
}

/// Where the filters and the layout answer each question in one way only, the files that are listed
/// are always the same, whichever downloader lists them and whatever it has done before.
pub proof fn law_filesystem_listing_is_stateless<T, F, O, L, A, P, Y>(
    one: FilesystemDownloader,
    other: FilesystemDownloader,
    source: Arc<FilesystemSourceConfig<F, L>>,
    filetypes: Seq<T>,
    object_id: &O,
    lookup: PathLookup<A, P>,
    first: Seq<RemoteFile<F, L, Y>>,
    second: Seq<RemoteFile<F, L, Y>>,
) where A: Fn(&F, &O, T) -> bool, P: Fn(L, T, &O) -> Vec<String>
    requires
        lookup.is_determined::<T, F, O, L>(&source.files.filters, object_id, source.files.layout),
        one.lists(source, filetypes, object_id, &lookup, first),
        other.lists(source, filetypes, object_id, &lookup, second),
    ensures
        first == second,
{
    let layout = source.files.layout;
    lemma_listing_has_one_result(
        lookup,
        &source.files.filters,
        object_id,
        layout,
        filetypes,
        filesystem_file::<F, L, Y>(source),
        first,
        second,
    );
}

/// Where the filters and the layout answer each question in one way only, listing the files for
/// some file types and then others is the same as listing them for all at once. For no file types
/// there are no files.
pub proof fn law_filesystem_listings_are_joined<T, F, O, L, A, P, Y>(
    downloader: FilesystemDownloader,
    source: Arc<FilesystemSourceConfig<F, L>>,
    first: Seq<T>,
    second: Seq<T>,
    object_id: &O,
    lookup: PathLookup<A, P>,
    front: Seq<RemoteFile<F, L, Y>>,
    back: Seq<RemoteFile<F, L, Y>>,
    all: Seq<RemoteFile<F, L, Y>>,
) where A: Fn(&F, &O, T) -> bool, P: Fn(L, T, &O) -> Vec<String>
    requires
        lookup.is_determined::<T, F, O, L>(&source.files.filters, object_id, source.files.layout),
        downloader.lists(source, first, object_id, &lookup, front),
        downloader.lists(source, second, object_id, &lookup, back),
        downloader.lists(source, first + second, object_id, &lookup, all),
    ensures
        all == front + back,
        first.len() == 0 ==> front.len() == 0,
{
    let layout = source.files.layout;
    lemma_listings_are_joined(
        lookup,
        &source.files.filters,
        object_id,
        layout,
        first,
        second,
        filesystem_file::<F, L, Y>(source),
        front,
        back,
        all,
    );
}

/// One more file type makes the list longer by the files at its paths, from the last to the first,
/// if it is allowed, and by nothing if it is not. All of them are files of the source, and the rest
/// of the list stays as it is.
pub proof fn law_filesystem_lists_one_more_file_type<T, F, O, L, A, P, Y>(
    downloader: &FilesystemDownloader,
    source: Arc<FilesystemSourceConfig<F, L>>,
    filetypes: &[T],
    longer: &[T],
    filetype: T,
    object_id: &O,
    lookup: &PathLookup<A, P>,
    allowed: spec_fn(T) -> bool,
    listed: spec_fn(T) -> Seq<String>,
    files: Vec<RemoteFile<F, L, Y>>,
    more: Vec<RemoteFile<F, L, Y>>,
) where T: Copy, L: Copy, A: Fn(&F, &O, T) -> bool, P: Fn(L, T, &O) -> Vec<String>
    requires
        longer@ == filetypes@.push(filetype),
        lookup.answers_as(
            &source.files.filters,
            object_id,
            source.files.layout,
            allowed,
            listed,
        ),
        call_ensures(
            FilesystemDownloader::list_files::<T, F, O, L, A, P, Y>,
            (downloader, source, filetypes, object_id, lookup),
            files,
        ),
        call_ensures(
            FilesystemDownloader::list_files::<T, F, O, L, A, P, Y>,
            (downloader, source, longer, object_id, lookup),
            more,
        ),
    ensures
        more@.len() == files@.len() + (if allowed(filetype) {
            listed(filetype).len()
        } else {
            0
        }),
        forall|i: int| 0 <= i < files@.len() ==> #[trigger] more@[i] == files@[i],
        forall|i: int|
            files@.len() <= i < more@.len() ==> {
                &&& #[trigger] more@[i] matches RemoteFile::Filesystem(file)
                &&& file.source == source
                &&& file.location.path == listed(filetype)[more@.len() - 1 - i]
            },
{
    lemma_listing_of_one_more_file_type(
        *lookup,
        &source.files.filters,
        object_id,
        source.files.layout,
        filetypes@,
        filetype,
        allowed,
        listed,
        filesystem_file::<F, L, Y>(source),
        files@,
        more@,
    );
}

/// No files are listed where no file types are asked for.
pub proof fn law_filesystem_lists_nothing_for_no_file_types<T, F, O, L, A, P, Y>(
    downloader: &FilesystemDownloader,
    source: Arc<FilesystemSourceConfig<F, L>>,
    filetypes: &[T],
    object_id: &O,
    lookup: &PathLookup<A, P>,
    files: Vec<RemoteFile<F, L, Y>>,
) where T: Copy, L: Copy, A: Fn(&F, &O, T) -> bool, P: Fn(L, T, &O) -> Vec<String>
    requires
        filetypes@.len() == 0,
        call_ensures(
            FilesystemDownloader::list_files::<T, F, O, L, A, P, Y>,
            (downloader, source, filetypes, object_id, lookup),
            files,
        ),
    ensures
        files@.len() == 0,
{
    let layout = source.files.layout;
    let paths = choose|paths: Seq<String>|
        {
            &&& #[trigger] lookup.finds(
                &source.files.filters,
                object_id,
                layout,
                filetypes@,
                paths,
            )
            &&& files@ == paths.map_values(filesystem_file::<F, L, Y>(source))
        };
    assert(filetypes@ == Seq::<T>::empty());
    law_no_file_types_have_no_locations::<T, F, O, L, A, P>(
        *lookup,
        &source.files.filters,
        object_id,
        layout,
        paths,
    );
}

/// A copy that succeeded is a success, however many bytes it has. A copy that failed is a missing
/// file exactly if there is no such file, and otherwise the error that it failed with.
pub proof fn law_failed_copies_are_errors(
    downloader: &FilesystemDownloader,
    copied: Result<u64, IoError>,
    entry: CacheEntry<()>,
)
    requires
        call_ensures(FilesystemDownloader::download_source, (downloader, copied), entry),
    ensures
        entry is Ok <==> copied is Ok,
        copied matches Err(IoError::NotFound) ==> entry == Err::<(), CacheError>(
            CacheError::NotFound,
        ),
        copied matches Err(IoError::Other(error)) ==> entry == Err::<(), CacheError>(error),
{
}

} // verus!
