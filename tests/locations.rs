use zap::{parse_location, validate_paths, Location, PathKind};

fn remote(l: &Location) -> Option<(String, String)> {
    l.remote.as_ref().map(|r| (r.user.clone(), r.host.clone()))
}

#[test]
fn local_paths() {
    let l = parse_location("/tmp/file.bin", None).unwrap();
    assert!(l.remote.is_none());
    assert_eq!(l.path, "/tmp/file.bin");
}

#[test]
fn remote_with_user() {
    let l = parse_location("alice@example.com:/data/big.iso", None).unwrap();
    assert_eq!(remote(&l), Some(("alice".to_string(), "example.com".to_string())));
    assert_eq!(l.path, "/data/big.iso");
}

#[test]
fn remote_path_keeps_later_colons() {
    let l = parse_location("bob@h:/a:b", None).unwrap();
    assert_eq!(remote(&l), Some(("bob".to_string(), "h".to_string())));
    assert_eq!(l.path, "/a:b");
}

#[test]
fn remote_user_from_environment() {
    let l = parse_location("example.com:/x", Some("carol")).unwrap();
    assert_eq!(remote(&l), Some(("carol".to_string(), "example.com".to_string())));
    assert!(parse_location("example.com:/x", None).is_none());
}

#[test]
fn empty_remote_path_is_current_directory() {
    let l = parse_location("dave@host:", None).unwrap();
    assert_eq!(l.path, ".");
}

#[test]
fn empty_user_or_host_rejected() {
    assert!(parse_location("@host:/x", Some("u")).is_none());
    assert!(parse_location("user@:/x", Some("u")).is_none());
    assert!(parse_location("a@b@c:/x", Some("u")).is_none());
}

#[test]
fn both_local_rejected() {
    assert_eq!(
        validate_paths("a.bin", "b.bin", Some("u"), PathKind::File, PathKind::Directory),
        Err("At least one location must be remote".to_string())
    );
}

#[test]
fn both_remote_rejected() {
    assert_eq!(
        validate_paths("u@a:/x", "u@b:/y", None, PathKind::Missing, PathKind::Missing),
        Err("Cannot copy from remote to remote".to_string())
    );
}

#[test]
fn missing_user_rejected() {
    assert_eq!(
        validate_paths("host:/x", "/tmp", None, PathKind::Missing, PathKind::Directory),
        Err("Invalid source format. Expected either a local path or user@host:path".to_string())
    );
    assert_eq!(
        validate_paths("/tmp/f", "host:/x", None, PathKind::File, PathKind::Missing),
        Err("Invalid destination format. Expected either a local path or user@host:path".to_string())
    );
}

#[test]
fn local_side_checked() {
    assert_eq!(
        validate_paths("/tmp/f", "u@h:/x", None, PathKind::Missing, PathKind::Missing),
        Err("Source file '/tmp/f' does not exist".to_string())
    );
    assert_eq!(
        validate_paths("/tmp", "u@h:/x", None, PathKind::Directory, PathKind::Missing),
        Err("Source path '/tmp' is not a file".to_string())
    );
    assert_eq!(
        validate_paths("u@h:/x", "/nope", None, PathKind::Missing, PathKind::Missing),
        Err("Destination directory '/nope' does not exist".to_string())
    );
    assert_eq!(
        validate_paths("u@h:/x", "/tmp/f", None, PathKind::Missing, PathKind::File),
        Err("Destination path '/tmp/f' is not a directory".to_string())
    );
    assert_eq!(validate_paths("/tmp/f", "u@h:/x", None, PathKind::File, PathKind::Missing), Ok(()));
    assert_eq!(validate_paths("h:/x", "/tmp", Some("me"), PathKind::Missing, PathKind::Directory), Ok(()));
}
