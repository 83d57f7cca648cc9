//! Command-line options and the choices made from them at start-up.

use vstd::prelude::*;
use crate::model::{Message, Timestamp};
use crate::ordering::{reversed, stable_sort_by_time, stable_sorted, time_key};
use crate::paths::{path_join, spec_path_join};
use crate::text::str_eq;
use crate::watcher::DiscoveredSession;

verus! {

/// The sub-commands.
#[derive(Clone, Copy, Debug, PartialEq, Eq, Structural)]
pub enum Command {
    /// Print discovered sessions as JSON and exit.
    ListSessions,
    /// Update to the latest version.
    Update,
    /// Delete stale sessions and their messages from the database.
    PruneStale,
    /// Delete all sessions and messages from the database.
    Clear,
}

/// The command-line options.
#[derive(Debug)]
pub struct Args {
    /// Display a specific session by id.
    pub session: Option<String>,
    /// Limit discovery to a specific project directory name.
    pub project: Option<String>,
    /// Override the assistant's configuration directory.
    pub config_dir: Option<String>,
    /// The database path.
    pub db: Option<String>,
    /// Only show sessions modified within the last N minutes (0 = all).
    pub max_age: u64,
    /// The Hermes state database path.
    pub hermes_db: Option<String>,
    pub command: Option<Command>,
}

/// The database path: the one given, unless it is empty; otherwise
/// `viztokens/sessions.db` under the local data directory (`~/.local/share`
/// when that directory is unknown).
pub open spec fn spec_db_path(db: Option<String>, data_local_dir: Option<String>) -> Seq<char> {
    match db {
        Some(p) if p@.len() > 0 => p@,
        _ => {
            let base = match data_local_dir {
                Some(d) => d@,
                None => "~/.local/share"@,
            };
            spec_path_join(spec_path_join(base, "viztokens"@), "sessions.db"@)
        },
    }
}

pub fn resolve_db_path(db: &Option<String>, data_local_dir: &Option<String>) -> (r: String)
    ensures
        r@ == spec_db_path(*db, *data_local_dir),
{
    proof {
        reveal_strlit("~/.local/share");
    }
    if let Some(p) = db {
        if !p.as_str().is_empty() {
            return p.clone();
        }
    }
    let base = match data_local_dir {
        Some(d) => d.clone(),
        None => "~/.local/share".to_owned(),
    };
    let dir = path_join(base.as_str(), "viztokens");
    path_join(dir.as_str(), "sessions.db")
}

/// How long ago something happened: whole seconds and nanoseconds.
#[derive(Clone, Copy, Debug, PartialEq, Eq, Structural)]
pub struct Age {
    pub secs: u64,
    pub nanos: u32,
}

/// A time as nanoseconds since the epoch.
pub open spec fn ts_nanos(t: Timestamp) -> int {
    t.secs * 1_000_000_000 + t.nanos
}

/// How long before `now` the time `then` lies: `None` when `then` is later
/// than `now` (or the age does not fit an `Age`).
pub open spec fn spec_age(then: Timestamp, now: Timestamp) -> Option<Age> {
    let d = ts_nanos(now) - ts_nanos(then);
    if d < 0 || d / 1_000_000_000 > u64::MAX {
        None
    } else {
        Some(Age { secs: (d / 1_000_000_000) as u64, nanos: (d % 1_000_000_000) as u32 })
    }
}

/// The age at `now` of something that happened at `then`.
pub fn age_between(then: Timestamp, now: Timestamp) -> (r: Option<Age>)
    ensures
        r == spec_age(then, now),
{
    let a: i128 = (now.secs as i128) * 1_000_000_000 + (now.nanos as i128);
    let b: i128 = (then.secs as i128) * 1_000_000_000 + (then.nanos as i128);
    let d: i128 = a - b;
    if d < 0 {
        return None;
    }
    let secs: i128 = d / 1_000_000_000;
    let nanos: i128 = d % 1_000_000_000;
    if secs > u64::MAX as i128 {
        return None;
    }
    Some(Age { secs: secs as u64, nanos: nanos as u32 })
}

/// An age of at most `minutes` minutes.
pub open spec fn spec_within(age: Age, minutes: u64) -> bool {
    age.secs < minutes * 60 || (age.secs == minutes * 60 && age.nanos == 0)
}

/// Whether something modified `age` ago (unknown when the modification time
/// lies in the future) counts as recent under a limit of `max_age_minutes`:
/// only a known age within the limit does.
pub fn age_within(age: Option<Age>, max_age_minutes: u64) -> (r: bool)
    requires
        max_age_minutes * 60 <= u64::MAX,
    ensures
        r == match age {
            Some(a) => spec_within(a, max_age_minutes),
            None => false,
        },
{
    let cutoff = max_age_minutes * 60;
    match age {
        Some(a) => a.secs < cutoff || (a.secs == cutoff && a.nanos == 0),
        None => false,
    }
}

/// Whether a discovered session stays in view: recent enough when a
/// maximum age is set, and of the chosen project when one is chosen.
pub open spec fn spec_keep_session(
    d: DiscoveredSession,
    age: Option<Age>,
    max_age: u64,
    project: Option<String>,
) -> bool {
    &&& (max_age > 0 ==> match age {
        Some(a) => spec_within(a, max_age),
        None => false,
    })
    &&& match project {
        Some(p) => d.project_name@ == p@,
        None => true,
    }
}

/// The sessions kept, in order.
pub open spec fn spec_select_sessions(
    found: Seq<(DiscoveredSession, Option<Age>)>,
    max_age: u64,
    project: Option<String>,
) -> Seq<DiscoveredSession>
    decreases found.len(),
{
    if found.len() == 0 {
        Seq::empty()
    } else {
        let prev = spec_select_sessions(found.drop_last(), max_age, project);
        let (d, age) = found.last();
        if spec_keep_session(d, age, max_age, project) {
            prev.push(d)
        } else {
            prev
        }
    }
}

/// Keeps the discovered sessions (each with its age) that are recent enough
/// and belong to the chosen project.
pub fn select_sessions(
    found: Vec<(DiscoveredSession, Option<Age>)>,
    max_age: u64,
    project: &Option<String>,
) -> (r: Vec<DiscoveredSession>)
    requires
        max_age * 60 <= u64::MAX,
    ensures
        r@ == spec_select_sessions(found@, max_age, *project),
{
    let ghost all = found@;
    // Sessions are taken from the end of the reversed vector, in their order.
    let mut rest = reversed(found);
    let mut out: Vec<DiscoveredSession> = Vec::new();
    let ghost mut k: int = 0;
    assert(all.take(0) =~= Seq::<(DiscoveredSession, Option<Age>)>::empty());
    while rest.len() > 0
        invariant
            0 <= k <= all.len(),
            rest@.len() + k == all.len(),
            forall|i: int| 0 <= i < rest@.len() ==> #[trigger] rest@[i] == all[all.len() - 1 - i],
            out@ == spec_select_sessions(all.take(k), max_age, *project),
            max_age * 60 <= u64::MAX,
        decreases rest@.len(),
    {
        let ghost before = rest@;
        let (d, age) = rest.pop().unwrap();
        assert(before[before.len() - 1] == all[k]);
        assert forall|i: int| 0 <= i < rest@.len() implies #[trigger] rest@[i] == all[all.len() - 1 - i] by {
            assert(rest@[i] == before[i]);
        }
        assert(all.take(k + 1).drop_last() =~= all.take(k));
        let recent = max_age == 0 || age_within(age, max_age);
        let in_project = match project {
            Some(p) => str_eq(d.project_name.as_str(), p.as_str()),
            None => true,
        };
        if recent && in_project {
            out.push(d);
        }
        proof {
            k = k + 1;
        }
    }
    assert(all.take(k) =~= all);
    out
}

/// Orders the stored history by time, earliest first; messages written at
/// the same time keep their order.
pub fn sort_history(history: Vec<Message>) -> (r: Vec<Message>)
    ensures
        stable_sorted(r@, history@, time_key::<Message>(), false),
{
    stable_sort_by_time(history, false)
}

} // verus!
