use std::cell::RefCell;
use std::sync::Arc;

use symbolic::common::{CodeId, DebugId, Uuid};
use symbolicator_service::filesystem::FilesystemDownloader;
use symbolicator_service::http::HttpDownloader;
use symbolicator_service::location::{PathLookup, SourceLocation, SourceLocationIter};
use symbolicator_service::service::{
    CacheConfigs, Config, DownloadService, InMemoryCacheConfig, ListStep,
};
use symbolicator_service::source::{
    CommonSourceConfig, FilesystemSourceConfig, HttpSourceConfig, RemoteFile, SourceConfig,
};
use symbolicator_service::Duration;

#[derive(Clone, Copy, Debug, PartialEq)]
enum FileType {
    Pe,
    Pdb,
    ElfCode,
    ElfDebug,
}

const ALL: [FileType; 4] = [FileType::Pe, FileType::Pdb, FileType::ElfCode, FileType::ElfDebug];

#[derive(Default)]
struct ObjectId {
    code_id: Option<CodeId>,
    debug_id: Option<DebugId>,
    code_file: Option<String>,
    debug_file: Option<String>,
}

/// Filters that name the only file types to look for. No names mean all file types.
#[derive(Clone, Debug, Default)]
struct Filters {
    filetypes: Vec<FileType>,
}

#[derive(Clone, Copy, Debug, Default)]
struct NativeLayout;

fn is_allowed(filters: &Filters, _object_id: &ObjectId, filetype: FileType) -> bool {
    filters.filetypes.is_empty() || filters.filetypes.contains(&filetype)
}

fn base_name(path: &str) -> &str {
    path.rsplit('\\').next().unwrap()
}

fn get_directory_paths(
    _layout: NativeLayout,
    filetype: FileType,
    object_id: &ObjectId,
) -> Vec<String> {
    let code_id = match &object_id.code_id {
        Some(code_id) => code_id.as_str(),
        None => return vec![],
    };
    match filetype {
        FileType::ElfCode => vec![format!("{}/{}", &code_id[..2], &code_id[2..])],
        FileType::ElfDebug => vec![format!("{}/{}.debug", &code_id[..2], &code_id[2..])],
        FileType::Pe => match &object_id.code_file {
            Some(file) => vec![format!("{0}/{1}/{0}", base_name(file), code_id)],
            None => vec![],
        },
        FileType::Pdb => match (&object_id.debug_file, &object_id.debug_id) {
            (Some(file), Some(id)) => {
                vec![format!("{0}/{1}/{0}", base_name(file), id.breakpad())]
            }
            _ => vec![],
        },
    }
}

fn paths(locations: &[SourceLocation]) -> Vec<&str> {
    locations.iter().map(|location| location.path.as_str()).collect()
}

#[test]
fn test_iter_elf() {
    // Note that for ELF ObjectId *needs* to have the code_id set otherwise nothing is
    // created.
    let code_id = CodeId::new(String::from("abcdefghijklmnopqrstuvwxyz1234567890abcd"));
    let uuid = Uuid::from_slice(&code_id.as_str().as_bytes()[..16]).unwrap();
    let debug_id = DebugId::from_uuid(uuid);

    let lookup = PathLookup { is_allowed, get_directory_paths };
    let mut all: Vec<_> = SourceLocationIter {
        filetypes: &[FileType::ElfCode, FileType::ElfDebug],
        filters: &Default::default(),
        object_id: &ObjectId {
            debug_id: Some(debug_id),
            code_id: Some(code_id),
            ..Default::default()
        },
        layout: Default::default(),
        lookup: &lookup,
        next: Default::default(),
    }
    .collect();
    all.sort();

    assert_eq!(
        all,
        [
            SourceLocation::new("ab/cdef1234567890abcd".to_string()),
            SourceLocation::new("ab/cdef1234567890abcd.debug".to_string())
        ]
    );
}

fn crash_object() -> ObjectId {
    ObjectId {
        code_id: Some("5ab380779000".parse().unwrap()),
        code_file: Some("C:\\projects\\breakpad-tools\\windows\\Release\\crash.exe".into()),
        debug_id: Some("3249d99d-0c40-4931-8610-f4e4fb0b6936-1".parse().unwrap()),
        debug_file: Some("C:\\projects\\breakpad-tools\\windows\\Release\\crash.pdb".into()),
    }
}

fn service() -> Arc<DownloadService<&'static str, u8>> {
    let config = Config {
        connect_timeout: Duration::from_secs(1),
        streaming_timeout: Duration::from_secs(250),
        max_download_timeout: Duration::from_secs(315),
        caches: CacheConfigs {
            in_memory: InMemoryCacheConfig { gcs_token_capacity: 100, s3_client_capacity: 50 },
        },
    };
    DownloadService::new(&config, 0, |_: &Config, _: bool| "client")
}

#[test]
fn test_list_files() {
    let source = Arc::new(FilesystemSourceConfig {
        id: "local".to_string(),
        files: CommonSourceConfig { filters: Filters::default(), layout: NativeLayout },
    });
    let objid = crash_object();
    let lookup = PathLookup { is_allowed, get_directory_paths };

    let step: ListStep<_, _, u8, u8> =
        service().list_files(SourceConfig::Filesystem(source.clone()), &ALL, &objid, &lookup);
    let file_list = match step {
        ListStep::Listed(files) => files.unwrap(),
        _ => panic!("a directory is listed at once"),
    };

    assert!(!file_list.is_empty());
    match &file_list[0] {
        RemoteFile::Filesystem(item) => {
            assert_eq!(item.source.id, source.id);
            assert_eq!(item.location.path, "crash.exe/5ab380779000/crash.exe");
        }
        _ => panic!("unexpected source"),
    }
    assert_eq!(file_list.len(), 4);
}

#[test]
fn http_source_is_listed_without_asking() {
    let source = Arc::new(HttpSourceConfig {
        id: "server".to_string(),
        headers: vec![],
        files: CommonSourceConfig {
            filters: Filters { filetypes: vec![FileType::Pdb] },
            layout: NativeLayout,
        },
    });
    let objid = crash_object();
    let lookup = PathLookup { is_allowed, get_directory_paths };

    let step: ListStep<_, _, u8, u8> =
        service().list_files(SourceConfig::Http(source.clone()), &ALL, &objid, &lookup);
    match step {
        ListStep::Listed(Ok(files)) => {
            assert_eq!(files.len(), 1);
            match &files[0] {
                RemoteFile::Http(file) => {
                    assert_eq!(
                        file.location.path,
                        "crash.pdb/3249D99D0C4049318610F4E4FB0B69361/crash.pdb"
                    );
                    assert!(Arc::ptr_eq(&file.source, &source));
                }
                _ => panic!("unexpected source"),
            }
        }
        _ => panic!("a server is listed at once"),
    }

    let downloader =
        HttpDownloader::new("client", Duration::from_secs(30), Duration::from_secs(30));
    let files: Vec<RemoteFile<_, _, u8>> = downloader.list_files(source, &[], &objid, &lookup);
    assert!(files.is_empty());
}

#[test]
fn other_sources_are_asked() {
    let objid = crash_object();
    let lookup = PathLookup { is_allowed, get_directory_paths };
    let service = service();

    let step: ListStep<Filters, NativeLayout, u8, u8> =
        service.list_files(SourceConfig::Sentry(7), &ALL, &objid, &lookup);
    assert!(matches!(
        step,
        ListStep::AskSentry { config: 7, timeout } if timeout == Duration::from_secs(30)
    ));
    let step: ListStep<Filters, NativeLayout, u8, u8> =
        service.list_files(SourceConfig::S3(8), &ALL, &objid, &lookup);
    assert!(matches!(step, ListStep::ListS3(8)));
    let step: ListStep<Filters, NativeLayout, u8, u8> =
        service.list_files(SourceConfig::Gcs(9), &ALL, &objid, &lookup);
    assert!(matches!(step, ListStep::ListGcs(9)));
}

/// File type `n` has `n` paths, and multiples of three are not allowed.
fn numbered() -> PathLookup<impl Fn(&u8, &u8, u8) -> bool, impl Fn(u8, u8, &u8) -> Vec<String>> {
    PathLookup {
        is_allowed: |_: &u8, _: &u8, filetype: u8| filetype % 3 != 0,
        get_directory_paths: |layout: u8, filetype: u8, object_id: &u8| {
            (0..filetype).map(|i| format!("{layout}/{object_id}/{filetype}/{i}")).collect()
        },
    }
}

#[test]
fn file_types_in_order_and_paths_from_the_last() {
    let lookup = numbered();
    let all = SourceLocationIter {
        filetypes: &[2, 3, 0, 1],
        filters: &5,
        object_id: &6,
        layout: 7,
        lookup: &lookup,
        next: vec![],
    }
    .collect();
    assert_eq!(paths(&all), ["7/6/2/1", "7/6/2/0", "7/6/1/0"]);
}

#[test]
fn pending_paths_come_before_the_next_file_type() {
    let lookup = numbered();
    let mut search = SourceLocationIter {
        filetypes: &[3, 1],
        filters: &5,
        object_id: &6,
        layout: 7,
        lookup: &lookup,
        next: vec!["a".to_string(), "b".to_string()],
    };
    assert_eq!(search.next().unwrap().path, "b");
    assert_eq!(search.next().unwrap().path, "a");
    assert_eq!(search.filetypes, &[3, 1]);
    assert_eq!(search.next().unwrap().path, "7/6/1/0");
    assert!(search.next().is_none());
    assert!(search.next().is_none());
}

#[test]
fn disallowed_file_types_are_not_looked_up() {
    let asked = RefCell::new(vec![]);
    let lookup = PathLookup {
        is_allowed: |filters: &u8, _: &u8, filetype: u8| filetype != *filters,
        get_directory_paths: |_: u8, filetype: u8, _: &u8| {
            asked.borrow_mut().push(filetype);
            vec![]
        },
    };
    let mut search = SourceLocationIter {
        filetypes: &[1, 2, 3],
        filters: &2,
        object_id: &0,
        layout: 0,
        lookup: &lookup,
        next: vec![],
    };
    assert!(search.next().is_none());
    assert_eq!(*asked.borrow(), [1, 3]);
}

fn locations(files: Vec<RemoteFile<u8, u8, u8>>) -> Vec<String> {
    files
        .into_iter()
        .map(|file| match file {
            RemoteFile::Filesystem(file) => file.location.path,
            RemoteFile::Http(file) => file.location.path,
            _ => panic!("unexpected source"),
        })
        .collect()
}

/// The locations of the file types on a server and in a directory.
fn listed(filetypes: &[u8]) -> (Vec<String>, Vec<String>) {
    let files = CommonSourceConfig { filters: 5, layout: 7 };
    let server = Arc::new(HttpSourceConfig {
        id: "server".to_string(),
        headers: vec![],
        files: files.clone(),
    });
    let directory = Arc::new(FilesystemSourceConfig { id: "local".to_string(), files });
    let lookup = numbered();
    let http = HttpDownloader::new(0, Duration::from_secs(1), Duration::from_secs(2));
    let fs = FilesystemDownloader::new();
    (
        locations(http.list_files(server, filetypes, &6, &lookup)),
        locations(fs.list_files(directory, filetypes, &6, &lookup)),
    )
}

#[test]
fn filesystem_lists_the_same_locations() {
    let (on_server, in_directory) = listed(&[1, 2]);
    assert_eq!(in_directory, ["7/6/1/0", "7/6/2/1", "7/6/2/0"]);
    assert_eq!(on_server, in_directory);
    assert_eq!(listed(&[1, 2]), (on_server, in_directory));
}

#[test]
fn listings_are_joined() {
    assert_eq!(listed(&[]), (vec![], vec![]));
    let (mut on_server, mut in_directory) = listed(&[4, 3, 1]);
    let (server_rest, directory_rest) = listed(&[1, 5]);
    on_server.extend(server_rest);
    in_directory.extend(directory_rest);
    assert_eq!(listed(&[4, 3, 1, 1, 5]), (on_server, in_directory));
}

#[test]
fn searches_find_the_same_each_time() {
    let lookup = numbered();
    let search = || {
        SourceLocationIter {
            filetypes: &[4, 5, 6, 7],
            filters: &5,
            object_id: &6,
            layout: 7,
            lookup: &lookup,
            next: vec![],
        }
        .collect()
    };
    let first = search();
    assert_eq!(first.len(), 16);
    assert_eq!(search(), first);
}
