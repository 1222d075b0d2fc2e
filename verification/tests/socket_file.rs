use std::collections::HashSet;

use socket_activation::socket_file::{
    new_socket_file_path, socket_file_path, SearchProgress, SocketFileError, SocketFileSearch,
    SOCKET_FILE_ATTEMPTS,
};

fn retry(progress: SearchProgress) -> SocketFileSearch {
    match progress {
        SearchProgress::Retry(search) => search,
        SearchProgress::Found(path) => panic!("found {}", path),
        SearchProgress::Failed(error) => panic!("{}", error.message()),
    }
}

#[test]
fn paths_name_directory_process_and_suffix() {
    assert_eq!(socket_file_path("/run/user/1000", 42, 7), "/run/user/1000/42_7");
    assert_eq!(socket_file_path("", 0, 0), "/0_0");
    let path = socket_file_path("/tmp", u32::MAX, usize::MAX);
    assert_eq!(path, format!("/tmp/{}_{}", u32::MAX, usize::MAX));
}

#[test]
fn different_files_have_different_paths() {
    let mut paths = HashSet::new();
    for pid in 0..120u32 {
        for suffix in 0..120usize {
            assert!(paths.insert(socket_file_path("/run", pid, suffix)));
        }
    }
}

#[test]
fn the_file_of_the_first_success_is_returned() {
    let search = SocketFileSearch::first("/run", 5, 10);
    assert_eq!(search.path(), "/run/5_10");
    let search = retry(search.advance_with(false, 20));
    assert_eq!(search.path(), "/run/5_20");
    let search = retry(search.advance_with(false, 30));
    assert_eq!(search.path(), "/run/5_30");
    match search.advance_with(true, 40) {
        SearchProgress::Found(path) => assert_eq!(path, "/run/5_30"),
        _ => panic!("the file was created"),
    }
}

#[test]
fn the_first_attempt_can_succeed() {
    match SocketFileSearch::first("/run", 5, 10).advance(true) {
        SearchProgress::Found(path) => assert_eq!(path, "/run/5_10"),
        _ => panic!("the file was created"),
    }
}

#[test]
fn the_search_gives_up_after_its_last_attempt() {
    let mut search = SocketFileSearch::first("/run", 5, 1);
    let mut attempts = 1;
    let error = loop {
        match search.advance_with(false, attempts as usize + 1) {
            SearchProgress::Retry(next) => {
                search = next;
                attempts += 1;
                assert_eq!(search.path(), format!("/run/5_{}", attempts));
            }
            SearchProgress::Found(path) => panic!("found {}", path),
            SearchProgress::Failed(error) => break error,
        }
    };
    assert_eq!(attempts, 5);
    assert_eq!(attempts, SOCKET_FILE_ATTEMPTS);
    assert_eq!(error, SocketFileError);
    assert_eq!(error.message(), "Failed to create a new file");
}

#[test]
fn the_last_attempt_can_succeed() {
    let mut search = SocketFileSearch::first("/run", 5, 1);
    for suffix in 2..6usize {
        search = retry(search.advance_with(false, suffix));
    }
    match search.advance_with(true, 6) {
        SearchProgress::Found(path) => assert_eq!(path, "/run/5_5"),
        _ => panic!("the file was created"),
    }
}

#[test]
fn suffixes_are_random() {
    let mut paths = HashSet::new();
    for _ in 0..20 {
        let mut search = new_socket_file_path("/run", 77);
        for _ in 0..4 {
            let suffix = search.path().strip_prefix("/run/77_").unwrap().parse::<usize>();
            assert!(suffix.is_ok());
            paths.insert(search.path().to_string());
            search = retry(search.advance(false));
        }
        match search.advance(false) {
            SearchProgress::Failed(_) => {}
            _ => panic!("no attempt is left"),
        }
    }
    assert!(paths.len() > 70);
}
