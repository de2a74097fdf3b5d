use json_file_walker::candidate::{classify, is_json_file, is_json_name};
use json_file_walker::config::USAGE;
use json_file_walker::{Candidate, Config};
use std::path::PathBuf;

fn node(path: &str, is_file: bool, name: &str) -> Candidate {
    Candidate::Node {
        path: PathBuf::from(path),
        is_file,
        file_name: name.as_bytes().to_vec(),
    }
}

#[test]
fn json_names() {
    assert!(is_json_name(&b"a.json".to_vec()));
    assert!(is_json_name(&b"archive.tar.json".to_vec()));
    assert!(is_json_name(&b"..json".to_vec()));
    assert!(!is_json_name(&b"json".to_vec()));
    assert!(!is_json_name(&b".json".to_vec()));
    assert!(!is_json_name(&b"a.JSON".to_vec()));
    assert!(!is_json_name(&b"a.json.bak".to_vec()));
    assert!(!is_json_name(&b"ajson".to_vec()));
    assert!(!is_json_name(&Vec::new()));
}

#[test]
fn classify_keeps_json_file() {
    assert_eq!(
        classify(node("root/b.json", true, "b.json")),
        Some(PathBuf::from("root/b.json"))
    );
}

#[test]
fn classify_skips_other_files() {
    assert_eq!(classify(node("root/a.txt", true, "a.txt")), None);
    assert_eq!(classify(node("root/json", true, "json")), None);
}

#[test]
fn classify_skips_directories() {
    assert_eq!(classify(node("root/d.json", false, "d.json")), None);
    assert!(!is_json_file(&node("root/d.json", false, "d.json")));
}

#[test]
fn classify_skips_unreadable_entries() {
    assert_eq!(classify(Candidate::Unreadable), None);
    assert!(!is_json_file(&Candidate::Unreadable));
}

#[test]
fn config_takes_root_dir() {
    let args = vec!["prog".to_string(), "dir".to_string(), "extra".to_string()];
    let config = Config::new(args).unwrap();
    assert_eq!(config.root_dir, "dir");
}

#[test]
fn config_without_root_dir_is_usage_error() {
    let err = Config::new(vec!["prog".to_string()]).err().unwrap();
    assert_eq!(err, "Usage: json-file-walker root_dir");
    assert_eq!(err, USAGE);
    assert!(Config::new(Vec::new()).is_err());
}
