use viztokens::model::Timestamp;
use viztokens::transcript::session::{
    resolve_config_dir, scan_sessions, session_of_file, Candidate, ConfigDirError, SessionFile,
};

fn s(v: &str) -> Option<String> {
    Some(v.to_string())
}

fn c(path: &str, exists: bool) -> Candidate {
    Candidate { path: path.to_string(), exists }
}

fn home(config_exists: bool, dot_exists: bool) -> Option<(Candidate, Candidate)> {
    Some((c("/h/.config/app", config_exists), c("/h/.app", dot_exists)))
}

#[test]
fn explicit_directory_wins() {
    let r = resolve_config_dir(s("/explicit"), s("/env"), Some(c("/xdg/app", true)), home(true, true));
    assert_eq!(r, Ok("/explicit".to_string()));
}

#[test]
fn environment_directory_comes_next() {
    let r = resolve_config_dir(None, s("/env"), Some(c("/xdg/app", true)), home(true, true));
    assert_eq!(r, Ok("/env".to_string()));
}

#[test]
fn existing_xdg_directory_comes_next() {
    let r = resolve_config_dir(None, None, Some(c("/xdg/app", true)), home(true, true));
    assert_eq!(r, Ok("/xdg/app".to_string()));
}

#[test]
fn home_candidates_in_order() {
    assert_eq!(
        resolve_config_dir(None, None, Some(c("/xdg/app", false)), home(true, true)),
        Ok("/h/.config/app".to_string())
    );
    assert_eq!(resolve_config_dir(None, None, None, home(false, true)), Ok("/h/.app".to_string()));
}

#[test]
fn config_dir_errors() {
    assert_eq!(resolve_config_dir(None, None, None, home(false, false)), Err(ConfigDirError::NotFound));
    assert_eq!(resolve_config_dir(None, None, Some(c("/xdg/app", false)), None), Err(ConfigDirError::NoHome));
}

fn file(path: &str, dirs: &[&str], secs: i64) -> SessionFile {
    SessionFile {
        file_path: path.to_string(),
        rel_dirs: dirs.iter().map(|d| d.to_string()).collect(),
        last_modified: Timestamp { secs, nanos: 0 },
    }
}

#[test]
fn transcript_file_gives_a_session() {
    let d = session_of_file(&file("/p/-home-proj/abc-123.jsonl", &["-home-proj"], 9)).unwrap();
    assert_eq!(d.session_id, "abc-123");
    assert_eq!(d.project_name, "-home-proj");
    assert_eq!(d.harness, "");
    assert_eq!(d.file_path, "/p/-home-proj/abc-123.jsonl");
    assert_eq!(d.last_modified, Timestamp { secs: 9, nanos: 0 });
}

#[test]
fn file_in_projects_root_belongs_to_default() {
    let d = session_of_file(&file("/p/top.jsonl", &[], 1)).unwrap();
    assert_eq!(d.project_name, "default");
    let nested = session_of_file(&file("/p/a/b/deep.jsonl", &["a", "b"], 1)).unwrap();
    assert_eq!(nested.project_name, "a");
}

#[test]
fn other_files_are_not_sessions() {
    assert!(session_of_file(&file("/p/proj/notes.txt", &["proj"], 1)).is_none());
    assert!(session_of_file(&file("/p/proj/jsonl", &["proj"], 1)).is_none());
}

#[test]
fn scan_sessions_orders_most_recent_first() {
    let files = vec![
        file("/p/a/one.jsonl", &["a"], 10),
        file("/p/a/readme.md", &["a"], 99),
        file("/p/b/two.jsonl", &["b"], 30),
        file("/p/b/three.jsonl", &["b"], 10),
        file("/p/c/four.jsonl", &["c"], 20),
    ];
    let found = scan_sessions(files);
    let ids: Vec<&str> = found.iter().map(|d| d.session_id.as_str()).collect();
    assert_eq!(ids, vec!["two", "four", "one", "three"]);
}

#[test]
fn resolve_config_dir_uses_env_var() {
    // The environment variable's value is what the library is handed.
    let path = "/tmp/viztokens-config-test".to_string();
    let resolved = resolve_config_dir(None, Some(path.clone()), None, None).unwrap();
    assert_eq!(resolved, path);
}

#[test]
fn session_file_lists_the_directories_below_the_root() {
    let t = Timestamp { secs: 3, nanos: 0 };
    let f = viztokens::transcript::session::session_file("/h/projects", "/h/projects/-home-x/sub/a.jsonl", t);
    assert_eq!(f.file_path, "/h/projects/-home-x/sub/a.jsonl");
    assert_eq!(f.rel_dirs, vec!["-home-x".to_string(), "sub".to_string()]);
    assert_eq!(f.last_modified, t);
    let top = viztokens::transcript::session::session_file("/h/projects", "/h/projects/a.jsonl", t);
    assert!(top.rel_dirs.is_empty());
    assert_eq!(session_of_file(&top).unwrap().project_name, "default");
    let outside = viztokens::transcript::session::session_file("/h/projects", "/elsewhere/a.jsonl", t);
    assert!(outside.rel_dirs.is_empty());
}
