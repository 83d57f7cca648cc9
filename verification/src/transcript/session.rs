//! Finding transcript sessions: where the assistant's configuration lives
//! and which transcript files are sessions.

use vstd::prelude::*;
use crate::model::Timestamp;
use crate::ordering::{stable_sort_by_time, stable_sorted, time_key};
use crate::paths::{
    path_components, path_extension, path_file_stem, path_parent, path_strip_prefix,
    spec_path_components, spec_path_extension, spec_path_file_stem, spec_path_parent,
    spec_path_strip_prefix,
};
use crate::text::str_eq;
use crate::watcher::{discovered_views, DiscoveredSession, DiscoveredView};

verus! {

/// Why no configuration directory could be chosen.
#[derive(Clone, Copy, Debug, PartialEq, Eq, Structural)]
pub enum ConfigDirError {
    /// The home directory is unknown.
    NoHome,
    /// None of the places looked at exists.
    NotFound,
}

/// A place the configuration may be, and whether it exists.
pub struct Candidate {
    pub path: String,
    pub exists: bool,
}

/// The configuration directory: the explicit choice, else the one named by
/// the environment, else the directory under `$XDG_CONFIG_HOME` if it exists,
/// else the one under `~/.config` if it exists, else the dot-directory in the
/// home directory if it exists. Without a home directory the search stops
/// before the last two.
pub open spec fn spec_resolve_config_dir(
    override_path: Option<Seq<char>>,
    env_config_dir: Option<Seq<char>>,
    xdg: Option<(Seq<char>, bool)>,
    home: Option<(Seq<char>, bool, Seq<char>, bool)>,
) -> Result<Seq<char>, ConfigDirError> {
    match override_path {
        Some(p) => Ok(p),
        None => match env_config_dir {
            Some(p) => Ok(p),
            None => match xdg {
                Some((p, true)) => Ok(p),
                _ => match home {
                    None => Err(ConfigDirError::NoHome),
                    Some((config, config_exists, dot, dot_exists)) => if config_exists {
                        Ok(config)
                    } else if dot_exists {
                        Ok(dot)
                    } else {
                        Err(ConfigDirError::NotFound)
                    },
                },
            },
        },
    }
}

/// The view of a candidate.
pub open spec fn candidate_view(c: Candidate) -> (Seq<char>, bool) {
    (c.path@, c.exists)
}

/// Chooses the configuration directory. `xdg` is the candidate under
/// `$XDG_CONFIG_HOME` when that variable is set; `home` holds the candidates
/// under `~/.config` and in the home directory when the home directory is
/// known.
pub fn resolve_config_dir(
    override_path: Option<String>,
    env_config_dir: Option<String>,
    xdg: Option<Candidate>,
    home: Option<(Candidate, Candidate)>,
) -> (r: Result<String, ConfigDirError>)
    ensures
        match r {
            Ok(p) => spec_resolve_config_dir(
                override_path.deep_view(),
                env_config_dir.deep_view(),
                match xdg { Some(c) => Some(candidate_view(c)), None => None },
                match home { Some((a, b)) => Some((a.path@, a.exists, b.path@, b.exists)), None => None },
            ) == Ok::<Seq<char>, ConfigDirError>(p@),
            Err(e) => spec_resolve_config_dir(
                override_path.deep_view(),
                env_config_dir.deep_view(),
                match xdg { Some(c) => Some(candidate_view(c)), None => None },
                match home { Some((a, b)) => Some((a.path@, a.exists, b.path@, b.exists)), None => None },
            ) == Err::<Seq<char>, ConfigDirError>(e),
        },
{
    if let Some(p) = override_path {
        return Ok(p);
    }
    if let Some(v) = env_config_dir {
        return Ok(v);
    }
    if let Some(c) = xdg {
        if c.exists {
            return Ok(c.path);
        }
    }
    match home {
        None => Err(ConfigDirError::NoHome),
        Some((config, dot)) => {
            if config.exists {
                Ok(config.path)
            } else if dot.exists {
                Ok(dot.path)
            } else {
                Err(ConfigDirError::NotFound)
            }
        },
    }
}

/// A file found under the projects directory.
pub struct SessionFile {
    pub file_path: String,
    /// The directories between the projects directory and the file.
    pub rel_dirs: Vec<String>,
    pub last_modified: Timestamp,
}

/// The directories between the projects directory `root` and the file
/// `path`: the components of the file's directory below `root`; none when
/// the file lies directly in `root`, or not under it.
pub open spec fn spec_relative_dirs(root: Seq<char>, path: Seq<char>) -> Seq<Seq<char>> {
    match spec_path_parent(path) {
        Some(dir) => match spec_path_strip_prefix(dir, root) {
            Some(rel) => spec_path_components(rel),
            None => Seq::empty(),
        },
        None => Seq::empty(),
    }
}

/// The file `path` found under the projects directory `root`, modified at
/// `last_modified`.
pub fn session_file(root: &str, path: &str, last_modified: Timestamp) -> (r: SessionFile)
    ensures
        r.file_path@ == path@,
        r.rel_dirs@.map_values(|d: String| d@) == spec_relative_dirs(root@, path@),
        r.last_modified == last_modified,
{
    let rel_dirs = match path_parent(path) {
        Some(dir) => match path_strip_prefix(dir.as_str(), root) {
            Some(rel) => path_components(rel.as_str()),
            None => Vec::new(),
        },
        None => Vec::new(),
    };
    proof {
        if rel_dirs@.len() == 0 {
            assert(rel_dirs@.map_values(|d: String| d@) =~= Seq::<Seq<char>>::empty());
        }
    }
    SessionFile { file_path: path.to_owned(), rel_dirs, last_modified }
}

/// The session that a transcript file holds: a file with the extension
/// `jsonl` is one, named by its stem and belonging to the project of its
/// first directory below the projects directory (`default` when it lies
/// directly in it). Its harness is left empty.
pub open spec fn spec_session_of_file(f: SessionFile) -> Option<DiscoveredView> {
    if spec_path_extension(f.file_path@) == Some("jsonl"@) {
        Some(
            DiscoveredView {
                session_id: match spec_path_file_stem(f.file_path@) {
                    Some(s) => s,
                    None => "unknown"@,
                },
                project_name: if f.rel_dirs@.len() == 0 {
                    "default"@
                } else {
                    f.rel_dirs@[0]@
                },
                harness: Seq::empty(),
                file_path: f.file_path@,
                last_modified: f.last_modified,
            },
        )
    } else {
        None
    }
}

/// The sessions among `files`, in the files' order.
pub open spec fn spec_found_sessions(files: Seq<SessionFile>) -> Seq<DiscoveredView>
    decreases files.len(),
{
    if files.len() == 0 {
        Seq::empty()
    } else {
        let prev = spec_found_sessions(files.drop_last());
        match spec_session_of_file(files.last()) {
            Some(d) => prev.push(d),
            None => prev,
        }
    }
}

/// The session held by one file, if it is a transcript.
pub fn session_of_file(f: &SessionFile) -> (r: Option<DiscoveredSession>)
    ensures
        match r {
            Some(d) => spec_session_of_file(*f) == Some(d@),
            None => spec_session_of_file(*f) is None,
        },
{
    proof {
        reveal_strlit("unknown");
        reveal_strlit("default");
    }
    let is_transcript = match path_extension(f.file_path.as_str()) {
        Some(e) => str_eq(e.as_str(), "jsonl"),
        None => false,
    };
    if !is_transcript {
        return None;
    }
    let session_id = match path_file_stem(f.file_path.as_str()) {
        Some(s) => s,
        None => "unknown".to_owned(),
    };
    let project_name = if f.rel_dirs.len() == 0 {
        "default".to_owned()
    } else {
        f.rel_dirs[0].clone()
    };
    Some(
        DiscoveredSession {
            session_id,
            project_name,
            harness: String::new(),
            file_path: f.file_path.clone(),
            last_modified: f.last_modified,
        },
    )
}

/// The sessions found among the files under the projects directory, most
/// recently modified first; sessions modified at the same time keep the
/// order in which their files were found.
pub fn scan_sessions(files: Vec<SessionFile>) -> (r: Vec<DiscoveredSession>)
    ensures
        exists|found: Seq<DiscoveredSession>|
            discovered_views(found) == spec_found_sessions(files@) && #[trigger] stable_sorted(
                r@,
                found,
                time_key::<DiscoveredSession>(),
                true,
            ),
{
    let mut found: Vec<DiscoveredSession> = Vec::new();
    let mut i: usize = 0;
    while i < files.len()
        invariant
            i <= files@.len(),
            discovered_views(found@) =~= spec_found_sessions(files@.take(i as int)),
        decreases files@.len() - i,
    {
        assert(files@.take(i as int + 1).drop_last() =~= files@.take(i as int));
        let ghost before = found@;
        match session_of_file(&files[i]) {
            Some(d) => {
                found.push(d);
                assert(discovered_views(found@) =~= discovered_views(before).push(found@.last()@));
            },
            None => {},
        }
        i = i + 1;
    }
    assert(files@.take(files@.len() as int) =~= files@);
    let ghost found_all = found@;
    let r = stable_sort_by_time(found, true);
    assert(discovered_views(found_all) == spec_found_sessions(files@));
    r
}

} // verus!
