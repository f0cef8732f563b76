//! The data model: validation, uniqueness, ordering, and the typed errors.

use dir_link::data::dir::LinkDir;
use dir_link::data::dirset::LinkDirSet;
use dir_link::data::err::ErrorKind;
use dir_link::data::link::{get_vaild_path, Link};

fn work_dir() -> LinkDir {
    LinkDir::builder("work").unwrap()
}

#[test]
fn link_builder_validates_identifier() {
    let err = Link::builder("", "/tmp").unwrap_err();
    assert!(matches!(err.kind(), ErrorKind::InvaildIdentifier));
    assert_eq!(err.message(), "Link name is empty");
}

#[test]
fn link_builder_validates_path() {
    let err = Link::builder("a", "tmp").unwrap_err();
    assert!(matches!(err.kind(), ErrorKind::InvaildPath));
    assert_eq!(err.message(), "path is not absolute");
}

#[test]
fn link_builder_accepts_absolute_path() {
    let link = Link::builder("a", "/tmp").unwrap();
    assert_eq!(link.identifier(), "a");
    assert_eq!(link.path(), "/tmp");
}

#[test]
fn link_change_identifer_rejects_empty() {
    let mut link = Link::builder("a", "/tmp").unwrap();
    assert!(link.change_identifer("").is_err());
    assert_eq!(link.identifier(), "a");
    assert!(link.change_identifer("b").is_ok());
    assert_eq!(link.identifier(), "b");
}

#[test]
fn link_change_path_rejects_relative() {
    let mut link = Link::builder("a", "/tmp").unwrap();
    assert!(link.change_path("x/y").is_err());
    assert_eq!(link.path(), "/tmp");
    assert!(link.change_path("/var").is_ok());
    assert_eq!(link.path(), "/var");
}

#[test]
fn dir_push_rejects_duplicate_and_returns_link() {
    let mut dir = work_dir();
    dir.push(Link::builder("a", "/tmp").unwrap()).unwrap();
    let err = dir.push(Link::builder("a", "/var").unwrap()).unwrap_err();
    match err.kind() {
        ErrorKind::DuplicatedLinkIdentifier(rejected) => {
            assert_eq!(rejected.identifier(), "a");
            assert_eq!(rejected.path(), "/var");
        },
        other => panic!("unexpected kind: {}", other.as_str()),
    }
    assert_eq!(dir.len(), 1);
    assert_eq!(dir.get(0).path(), "/tmp");
}

#[test]
fn dir_rename_rejects_duplicate_without_mutating() {
    let mut dir = work_dir();
    dir.push(Link::builder("a", "/tmp").unwrap()).unwrap();
    dir.push(Link::builder("b", "/var").unwrap()).unwrap();
    let err = dir.rename(1, "a").unwrap_err();
    assert!(matches!(err.kind(), ErrorKind::DuplicatedIdentifier));
    assert_eq!(dir.get(1).identifier(), "b");
    assert!(dir.rename(1, "c").is_ok());
    assert_eq!(dir.get(1).identifier(), "c");
}

#[test]
fn dir_rename_rejects_empty_without_mutating() {
    let mut dir = work_dir();
    dir.push(Link::builder("a", "/tmp").unwrap()).unwrap();
    let err = dir.rename(0, "").unwrap_err();
    assert!(matches!(err.kind(), ErrorKind::InvaildIdentifier));
    assert_eq!(dir.get(0).identifier(), "a");
}

#[test]
fn dir_swap_is_its_own_inverse() {
    let mut dir = work_dir();
    dir.push(Link::builder("a", "/1").unwrap()).unwrap();
    dir.push(Link::builder("b", "/2").unwrap()).unwrap();
    dir.push(Link::builder("c", "/3").unwrap()).unwrap();
    dir.swap(0, 2);
    assert_eq!(dir.get(0).identifier(), "c");
    assert_eq!(dir.get(2).identifier(), "a");
    dir.swap(0, 2);
    assert_eq!(dir.get(0).identifier(), "a");
    assert_eq!(dir.get(1).identifier(), "b");
    assert_eq!(dir.get(2).identifier(), "c");
}

#[test]
fn dir_remove_preserves_relative_order() {
    let mut dir = work_dir();
    dir.push(Link::builder("a", "/1").unwrap()).unwrap();
    dir.push(Link::builder("b", "/2").unwrap()).unwrap();
    dir.push(Link::builder("c", "/3").unwrap()).unwrap();
    dir.push(Link::builder("d", "/4").unwrap()).unwrap();
    let removed = dir.remove(1);
    assert_eq!(removed.identifier(), "b");
    assert_eq!(dir.len(), 3);
    assert_eq!(dir.get(0).identifier(), "a");
    assert_eq!(dir.get(1).identifier(), "c");
    assert_eq!(dir.get(2).identifier(), "d");
}

#[test]
fn dirset_push_rejects_duplicate_and_returns_dir() {
    let mut set = LinkDirSet::new();
    set.push(LinkDir::builder("work").unwrap()).unwrap();
    let err = set.push(LinkDir::builder("work").unwrap()).unwrap_err();
    match err.kind() {
        ErrorKind::DuplicatedLinkDirIdentifier(rejected) => {
            assert_eq!(rejected.identifier(), "work");
        },
        other => panic!("unexpected kind: {}", other.as_str()),
    }
    assert_eq!(set.len(), 1);
}

#[test]
fn dirset_rename_and_swap() {
    let mut set = LinkDirSet::new();
    set.push(LinkDir::builder("a").unwrap()).unwrap();
    set.push(LinkDir::builder("b").unwrap()).unwrap();
    assert!(set.rename(0, "b").is_err());
    assert!(set.rename(0, "c").is_ok());
    assert_eq!(set.get(0).identifier(), "c");
    set.swap(0, 1);
    assert_eq!(set.get(0).identifier(), "b");
    assert_eq!(set.get(1).identifier(), "c");
}

#[test]
fn dirset_remove_returns_removed_dir() {
    let mut set = LinkDirSet::new();
    set.push(LinkDir::builder("a").unwrap()).unwrap();
    set.push(LinkDir::builder("b").unwrap()).unwrap();
    let removed = set.remove(0);
    assert_eq!(removed.identifier(), "a");
    assert_eq!(set.len(), 1);
    assert_eq!(set.get(0).identifier(), "b");
}

#[test]
fn dirset_contains_identifier_scans_all() {
    let mut set = LinkDirSet::new();
    set.push(LinkDir::builder("a").unwrap()).unwrap();
    set.push(LinkDir::builder("b").unwrap()).unwrap();
    assert!(set.contains_identifier("a"));
    assert!(set.contains_identifier("b"));
    assert!(!set.contains_identifier("c"));
}

#[test]
fn error_kind_as_str_names_every_variant() {
    assert_eq!(ErrorKind::InvaildIdentifier.as_str(), "invaild identifier");
    assert_eq!(ErrorKind::InvaildPath.as_str(), "invaild path");
    assert_eq!(ErrorKind::DuplicatedIdentifier.as_str(), "duplicated identifier");
}

#[test]
fn get_vaild_path_resolves_relative_input() {
    let resolved = get_vaild_path("some/relative/path").unwrap();
    assert!(resolved.starts_with('/'));
    assert!(resolved.ends_with("some/relative/path"));
    let already = get_vaild_path("/tmp").unwrap();
    assert!(already.starts_with('/'));
    assert!(get_vaild_path("").is_none());
}
