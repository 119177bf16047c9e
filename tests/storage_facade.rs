use memestore::config::StorageConfig;
use memestore::storage::{
    exists_from_stat, from_driver_error, list_open_failed, parse_backend, storage_error,
    storage_error_of_kind, trim_slashes, Backend, ConfigurationError, DriverParams, FsParams,
    Listing, ObjectMetadata, S3Params, Storage, StorageError, StorageErrorKind,
};

fn config(backend: &str, root: &str) -> StorageConfig {
    StorageConfig {
        backend: backend.to_string(),
        root: root.to_string(),
        s3_endpoint: None,
        s3_region: None,
        s3_access_key: None,
        s3_secret_key: None,
    }
}

fn fs_storage(name: &str) -> Storage {
    let root = format!("/tmp/memestore_tests/{}", name);
    Storage::new(&config("fs", &root)).ok().expect("filesystem backend binds")
}

fn metadata(m: opendal::Metadata) -> ObjectMetadata {
    ObjectMetadata {
        size: m.content_length(),
        last_modified: m.last_modified().map(|t| t.to_rfc3339()),
        content_type: m.content_type().map(|c| c.to_string()),
    }
}

fn stat(s: &Storage, path: &str) -> Result<ObjectMetadata, StorageError> {
    s.operator().blocking().stat(path).map(metadata).map_err(|e| from_driver_error(&e))
}

fn is_present(s: &Storage, path: &str) -> Result<bool, StorageError> {
    exists_from_stat(stat(s, path))
}

fn write(s: &Storage, path: &str, data: Vec<u8>) {
    s.operator().blocking().write(path, data).expect("write succeeds");
}

fn list(s: &Storage, prefix: &str) -> Result<Vec<String>, StorageError> {
    match s.operator().blocking().list(prefix) {
        Err(e) => list_open_failed(from_driver_error(&e)),
        Ok(entries) => {
            let mut listing = Listing::new();
            for e in entries {
                if !listing.accept(Ok(e.path().to_string())) {
                    break;
                }
            }
            listing.finish()
        }
    }
}

fn other(msg: &str) -> StorageError {
    storage_error(false, msg.to_string())
}

fn not_found(msg: &str) -> StorageError {
    storage_error(true, msg.to_string())
}

#[test]
fn parse_backend_names() {
    assert_eq!(parse_backend(&"fs".to_string()), Some(Backend::Filesystem));
    assert_eq!(parse_backend(&"s3".to_string()), Some(Backend::S3Compatible));
    assert_eq!(parse_backend(&"ftp".to_string()), None);
    assert_eq!(parse_backend(&"FS".to_string()), None);
    assert_eq!(parse_backend(&"".to_string()), None);
}

#[test]
fn filesystem_backend_binds() {
    let s = fs_storage("binds");
    assert_eq!(s.backend(), Backend::Filesystem);
    assert_eq!(s.root(), "/tmp/memestore_tests/binds");
    assert_eq!(
        s.params(),
        &DriverParams::Fs(FsParams { root: Some("/tmp/memestore_tests/binds".to_string()) })
    );
    let copy = s.clone();
    assert_eq!(copy.params(), s.params());
}

#[test]
fn s3_backend_binds_with_all_parameters() {
    let mut c = config("s3", "memes-bucket");
    c.s3_endpoint = Some("http://127.0.0.1:9000".to_string());
    c.s3_region = Some("us-east-1".to_string());
    c.s3_access_key = Some("minio".to_string());
    c.s3_secret_key = Some("minio-secret".to_string());
    let s = Storage::new(&c).ok().expect("s3 backend binds");
    assert_eq!(s.backend(), Backend::S3Compatible);
    assert_eq!(s.root(), "memes-bucket");
    assert_eq!(
        s.params(),
        &DriverParams::S3(S3Params {
            bucket: "memes-bucket".to_string(),
            endpoint: Some("http://127.0.0.1:9000".to_string()),
            region: Some("us-east-1".to_string()),
            access_key: Some("minio".to_string()),
            secret_key: Some("minio-secret".to_string()),
        })
    );
}

#[test]
fn s3_skips_empty_parameters_and_trims_endpoint() {
    let mut c = config("s3", "memes-bucket");
    c.s3_region = Some("us-east-1".to_string());
    c.s3_access_key = Some(String::new());
    c.s3_endpoint = Some("http://127.0.0.1:9000//".to_string());
    let s = Storage::new(&c).ok().expect("s3 backend binds");
    assert_eq!(s.backend(), Backend::S3Compatible);
    assert_eq!(
        s.params(),
        &DriverParams::S3(S3Params {
            bucket: "memes-bucket".to_string(),
            endpoint: Some("http://127.0.0.1:9000".to_string()),
            region: Some("us-east-1".to_string()),
            access_key: None,
            secret_key: None,
        })
    );
}

#[test]
fn trim_slashes_removes_only_trailing() {
    assert_eq!(trim_slashes("http://h:9000///"), "http://h:9000");
    assert_eq!(trim_slashes("/a/b"), "/a/b");
    assert_eq!(trim_slashes("///"), "");
    assert_eq!(trim_slashes(""), "");
}

#[test]
fn driver_error_kinds_map_to_storage_kinds() {
    let e = storage_error_of_kind(opendal::ErrorKind::NotFound, "gone".to_string());
    assert_eq!(e.kind, StorageErrorKind::NotFound);
    assert_eq!(e.message, "gone");
    let e = storage_error_of_kind(opendal::ErrorKind::RateLimited, "slow".to_string());
    assert_eq!(e.kind, StorageErrorKind::Other);
    assert_eq!(e.message, "slow");
}

#[test]
fn unknown_backend_is_refused() {
    match Storage::new(&config("ftp", "/tmp/memestore_tests/ftp")) {
        Err(ConfigurationError::UnsupportedBackend(b)) => assert_eq!(b, "ftp"),
        _ => panic!("ftp must be refused as an unsupported backend"),
    }
}

#[test]
fn s3_without_bucket_is_rejected_by_driver() {
    let mut c = config("s3", "");
    c.s3_region = Some("us-east-1".to_string());
    assert!(matches!(Storage::new(&c), Err(ConfigurationError::DriverRejected(_))));
}

#[test]
fn exists_decision_for_each_outcome() {
    let m = ObjectMetadata { size: 3, last_modified: None, content_type: None };
    assert!(matches!(exists_from_stat(Ok(m)), Ok(true)));
    assert!(matches!(exists_from_stat(Err(not_found("gone"))), Ok(false)));
    match exists_from_stat(Err(other("network down"))) {
        Err(e) => {
            assert_eq!(e.kind, StorageErrorKind::Other);
            assert_eq!(e.message, "network down");
        }
        Ok(_) => panic!("a transient error must not read as absence"),
    }
}

#[test]
fn storage_error_kinds() {
    assert_eq!(not_found("x").kind, StorageErrorKind::NotFound);
    assert_eq!(other("y").kind, StorageErrorKind::Other);
    assert_eq!(other("y").message, "y");
}

#[test]
fn driver_errors_keep_not_found() {
    let e = opendal::Error::new(opendal::ErrorKind::NotFound, "no such object");
    assert_eq!(from_driver_error(&e).kind, StorageErrorKind::NotFound);
    let e = opendal::Error::new(opendal::ErrorKind::PermissionDenied, "denied");
    let se = from_driver_error(&e);
    assert_eq!(se.kind, StorageErrorKind::Other);
    assert!(se.message.contains("denied"));
}

#[test]
fn list_open_failure_not_found_is_empty() {
    assert_eq!(list_open_failed(not_found("none")).ok(), Some(Vec::<String>::new()));
    match list_open_failed(other("broken")) {
        Err(e) => assert_eq!(e.message, "broken"),
        Ok(_) => panic!("other errors are surfaced"),
    }
}

#[test]
fn listing_keeps_discovery_order() {
    let mut l = Listing::new();
    assert!(l.accept(Ok("images/b.png".to_string())));
    assert!(l.accept(Ok("images/a.png".to_string())));
    assert_eq!(l.finish().ok(), Some(vec!["images/b.png".to_string(), "images/a.png".to_string()]));
}

#[test]
fn listing_stops_at_first_failure() {
    let mut l = Listing::new();
    assert!(l.accept(Ok("a".to_string())));
    assert!(!l.accept(Err(other("first"))));
    assert!(!l.accept(Ok("b".to_string())));
    assert!(!l.accept(Err(other("second"))));
    assert_eq!(l.entries, vec!["a".to_string()]);
    match l.finish() {
        Err(e) => assert_eq!(e.message, "first"),
        Ok(_) => panic!("the failure is surfaced"),
    }
}

#[test]
fn empty_listing_is_empty() {
    assert_eq!(Listing::new().finish().ok(), Some(Vec::<String>::new()));
}

#[test]
fn exists_before_and_after_write() {
    let s = fs_storage("exists");
    assert!(matches!(is_present(&s, "never/written.bin"), Ok(false)));
    write(&s, "fresh/object.bin", vec![1, 2, 3]);
    assert!(matches!(is_present(&s, "fresh/object.bin"), Ok(true)));
}

#[test]
fn write_then_read_round_trips() {
    let s = fs_storage("round_trip");
    let data: Vec<u8> = (0u8..=255).collect();
    write(&s, "blobs/all_bytes.bin", data.clone());
    let back = s.operator().blocking().read("blobs/all_bytes.bin").unwrap().to_vec();
    assert_eq!(back, data);
}

#[test]
fn delete_then_exists_is_false() {
    let s = fs_storage("delete");
    write(&s, "doomed.txt", b"bye".to_vec());
    s.operator().blocking().delete("doomed.txt").unwrap();
    assert!(matches!(is_present(&s, "doomed.txt"), Ok(false)));
}

#[test]
fn list_respects_prefix() {
    let s = fs_storage("list");
    write(&s, "images/one.png", vec![1]);
    write(&s, "images/two.png", vec![2]);
    write(&s, "docs/readme.txt", vec![3]);
    let found = list(&s, "images/").unwrap();
    assert!(found.contains(&"images/one.png".to_string()));
    assert!(found.contains(&"images/two.png".to_string()));
    assert!(!found.iter().any(|p| p.starts_with("docs/")));
    let empty = list(&s, "nothing_here/").unwrap();
    assert!(empty.is_empty());
}

#[test]
fn stat_reports_absence_and_size() {
    let s = fs_storage("stat");
    match stat(&s, "missing.bin") {
        Err(e) => assert_eq!(e.kind, StorageErrorKind::NotFound),
        Ok(_) => panic!("an absent object has no metadata"),
    }
    write(&s, "sized.bin", vec![0; 10]);
    write(&s, "sized.bin", vec![7; 42]);
    assert_eq!(stat(&s, "sized.bin").unwrap().size, 42);
}
