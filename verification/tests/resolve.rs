use blobstore::resolve::{asset_path, hash_to_file, MIN_HASH_LEN};
use blobstore::status::Status;

#[test]
fn resolves_23_char_hash_under_data_root() {
    let root = b"/data";
    let hash = b"aaaaaaaaaaaaaaaaaaaaXYZ";
    assert_eq!(hash.len(), 23);
    let p = hash_to_file(root, hash).unwrap();
    assert_eq!(p.file, b"/data/aa/aaaaaaaaaaaaaaaaaaaaXYZ.zip".to_vec());
    assert_eq!(p.dir, b"/data/aa".to_vec());
}

#[test]
fn short_tokens_are_bad_requests() {
    let root = b"/data";
    assert_eq!(hash_to_file(root, b"").unwrap_err(), Status::BadRequest);
    assert_eq!(hash_to_file(root, b"abcde").unwrap_err(), Status::BadRequest);
    let nineteen = b"1234567890123456789";
    assert_eq!(nineteen.len(), MIN_HASH_LEN - 1);
    assert_eq!(hash_to_file(root, nineteen).unwrap_err(), Status::BadRequest);
}

#[test]
fn twenty_chars_is_long_enough() {
    let root = b"/data";
    let twenty = b"12345678901234567890";
    assert_eq!(twenty.len(), MIN_HASH_LEN);
    let p = hash_to_file(root, twenty).unwrap();
    assert_eq!(p.file, b"/data/12/12345678901234567890.zip".to_vec());
}

#[test]
fn resolution_is_deterministic() {
    let root = b"/srv/cache";
    let hash = b"deadbeefdeadbeefdeadbeef";
    let first = hash_to_file(root, hash).unwrap();
    let second = hash_to_file(root, hash).unwrap();
    assert_eq!(first.file, second.file);
    assert_eq!(first.dir, second.dir);
}

#[test]
fn asset_names_are_joined_without_sharding_or_length_check() {
    assert_eq!(asset_path(b"/assets", b"x"), b"/assets/x".to_vec());
    assert_eq!(asset_path(b"/assets", b"logo.png"), b"/assets/logo.png".to_vec());
}

#[test]
fn status_codes_match_http() {
    assert_eq!(Status::Okay.code(), 200);
    assert_eq!(Status::BadRequest.code(), 400);
    assert_eq!(Status::NotFound.code(), 404);
    assert_eq!(Status::InternalError.code(), 500);
}
