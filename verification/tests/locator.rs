use stack_deploy::error::DeployError;
use stack_deploy::locator::{artifact_folder, is_archive_candidate, newest_archive, ArchiveCandidate};

fn candidate(path: &str, is_file: bool, extension: Option<&str>, modified: Option<i128>) -> ArchiveCandidate {
    ArchiveCandidate {
        path: path.to_string(),
        is_file,
        extension: extension.map(|e| e.to_string()),
        modified,
    }
}

fn archive(path: &str, modified: i128) -> ArchiveCandidate {
    candidate(path, true, Some("zip"), Some(modified))
}

#[test]
fn the_most_recently_modified_archive_is_chosen() {
    let candidates = vec![archive("/d/a.zip", 10), archive("/d/b.zip", 30), archive("/d/c.zip", 20)];
    assert_eq!(newest_archive(&candidates), Ok(1));
}

#[test]
fn of_equally_recent_archives_the_first_is_chosen() {
    let candidates = vec![archive("/d/a.zip", 5), archive("/d/b.zip", 7), archive("/d/c.zip", 7)];
    assert_eq!(newest_archive(&candidates), Ok(1));
}

#[test]
fn what_is_no_archive_is_passed_over() {
    let candidates = vec![
        candidate("/d/dir.zip", false, Some("zip"), Some(100)),
        candidate("/d/a.txt", true, Some("txt"), Some(100)),
        candidate("/d/noext", true, None, Some(100)),
        candidate("/d/unread.zip", true, Some("zip"), None),
        candidate("/d/upper.ZIP", true, Some("ZIP"), Some(100)),
        archive("/d/old.zip", -5),
    ];
    assert_eq!(newest_archive(&candidates), Ok(5));
}

#[test]
fn without_an_archive_there_is_nothing_to_deploy() {
    assert_eq!(newest_archive(&Vec::new()), Err(DeployError::Discovery));
    let candidates = vec![candidate("/d/a.txt", true, Some("txt"), Some(1))];
    assert_eq!(newest_archive(&candidates), Err(DeployError::Discovery));
}

#[test]
fn an_archive_is_a_zip_file_with_a_known_time() {
    assert!(is_archive_candidate(&archive("/d/a.zip", 0)));
    assert!(!is_archive_candidate(&candidate("/d/a.zip", false, Some("zip"), Some(0))));
    assert!(!is_archive_candidate(&candidate("/d/a.zip", true, Some("zi"), Some(0))));
    assert!(!is_archive_candidate(&candidate("/d/a.zip", true, None, Some(0))));
    assert!(!is_archive_candidate(&candidate("/d/a.zip", true, Some("zip"), None)));
}

#[test]
fn the_folder_is_the_file_name_without_its_extension() {
    assert_eq!(
        artifact_folder("/home/user/Downloads/myapp-20240101.zip"),
        Some("myapp-20240101".to_string())
    );
    assert_eq!(artifact_folder("/a.b.zip"), Some("a.b".to_string()));
    assert_eq!(artifact_folder("dir/x.zip"), Some("x".to_string()));
    assert_eq!(artifact_folder("/d/.zip"), Some("".to_string()));
    assert_eq!(artifact_folder("/d/caf\u{e9}.zip"), Some("caf\u{e9}".to_string()));
}

#[test]
fn a_path_without_a_slash_has_no_folder() {
    assert_eq!(artifact_folder("myapp.zip"), None);
    assert_eq!(artifact_folder(""), None);
}

#[test]
fn a_name_shorter_than_an_extension_has_no_folder() {
    assert_eq!(artifact_folder("/d/zip"), None);
    assert_eq!(artifact_folder("/d/"), None);
    assert_eq!(artifact_folder("/d/myapp.zip/"), None);
}
