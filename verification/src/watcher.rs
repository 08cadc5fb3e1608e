//! Hot-reload bookkeeping for watched configuration files.
//!
//! The watcher holds the current snapshot, the watch set, and a stop flag.
//! Waiting for filesystem events and reading files is input handled by the
//! caller's event loop: each received event is handed in here, together with
//! the file content it points at, and this module decides — verifiably —
//! whether the event is relevant, whether the snapshot is replaced, and what
//! the registered handler is told. A failed reload never replaces the
//! snapshot: the watcher keeps serving the last-known-good configuration.

use vstd::prelude::*;

use crate::config::{ConfigView, EnvOverrides, TramConfig};
use crate::error::ConfigError;
use crate::loader::{common_config_paths, spec_common_paths, spec_load_from_file};
use crate::strutil::str_eq;

verus! {

/// The kind of a filesystem event, as the caller's event source reports it.
#[derive(Clone, Copy, Debug, PartialEq, Eq, Structural)]
pub enum FileEventKind {
    /// A file was created.
    Create,
    /// A file's content changed.
    ContentModify,
    /// Only a file's metadata changed.
    MetadataModify,
    /// A file was removed.
    Remove,
    /// A file was renamed.
    Rename,
    /// Anything else.
    Other,
}

/// What the watcher did with an event.
#[derive(Clone, Debug, PartialEq)]
pub enum ReloadOutcome {
    /// The event was not a content change on a watched path; nothing happened.
    Ignored,
    /// The file loaded; the snapshot was replaced.
    Reloaded,
    /// The file did not load, for the reason carried; the snapshot was kept.
    Failed(ConfigError),
}

/// The two callbacks a consumer registers with the watcher. Both are invoked
/// on the watcher's event path, after the in-memory transition they describe
/// has taken effect, once per qualifying event.
pub trait ConfigChangeHandler {
    /// Called when a configuration change was detected and loaded.
    fn handle_config_change(&mut self, new_config: &TramConfig);

    /// Called when a configuration change was detected but failed to load.
    fn handle_config_error(&mut self, error: &ConfigError);
}

/// The watcher state: the current snapshot, the watched paths, and whether
/// the watcher was stopped.
pub struct ConfigWatcher {
    current: TramConfig,
    watch_paths: Vec<String>,
    stopped: bool,
}

/// The mathematical shape of a `ConfigWatcher`.
pub ghost struct ConfigWatcherView {
    pub current: ConfigView,
    pub watch_paths: Seq<Seq<char>>,
    pub stopped: bool,
}

impl View for ConfigWatcher {
    type V = ConfigWatcherView;

    closed spec fn view(&self) -> ConfigWatcherView {
        ConfigWatcherView {
            current: self.current@,
            watch_paths: self.watch_paths@.map_values(|s: String| s@),
            stopped: self.stopped,
        }
    }
}

/// An event qualifies when it is a creation or a content change on a watched
/// path; removals, renames, metadata-only changes, and events on paths
/// outside the watch set are ignored.
pub open spec fn spec_event_relevant(
    kind: FileEventKind,
    path: Seq<char>,
    watch_paths: Seq<Seq<char>>,
) -> bool {
    (kind == FileEventKind::Create || kind == FileEventKind::ContentModify)
        && watch_paths.contains(path)
}

/// The state after a stop: only the flag changes, the snapshot stays.
pub open spec fn spec_stop(w: ConfigWatcherView) -> ConfigWatcherView {
    ConfigWatcherView { stopped: true, ..w }
}

impl ConfigWatcher {
    /// A watcher holding an already-loaded snapshot, watching the given
    /// paths, or the conventional candidates where none are given.
    pub fn new(initial_config: TramConfig, config_paths: Option<Vec<String>>) -> (r: ConfigWatcher)
        ensures
            r@.current == initial_config@,
            r@.watch_paths == (match config_paths {
                Some(p) => p@.map_values(|s: String| s@),
                None => spec_common_paths(),
            }),
            !r@.stopped,
    {
        let paths = match config_paths {
            Some(p) => p,
            None => common_config_paths(),
        };
        ConfigWatcher { current: initial_config, watch_paths: paths, stopped: false }
    }

    /// A snapshot of the current configuration.
    pub fn get_config(&self) -> (r: TramConfig)
        ensures
            r@ == self@.current,
    {
        self.current.snapshot()
    }

    /// The paths this watcher observes.
    pub fn watch_paths(&self) -> (r: &Vec<String>)
        ensures
            r@.map_values(|s: String| s@) == self@.watch_paths,
    {
        &self.watch_paths
    }

    /// Whether the watcher was stopped.
    pub fn is_stopped(&self) -> (r: bool)
        ensures
            r == self@.stopped,
    {
        self.stopped
    }

    /// Whether `path` is in the watch set.
    pub fn is_watched(&self, path: &str) -> (r: bool)
        ensures
            r == self@.watch_paths.contains(path@),
    {
        let n = self.watch_paths.len();
        let mut i: usize = 0;
        while i < n
            invariant
                i <= n,
                n == self.watch_paths@.len(),
                forall|j: int| 0 <= j < i ==> self@.watch_paths[j] != path@,
            decreases n - i,
        {
            if str_eq(self.watch_paths[i].as_str(), path) {
                proof {
                    assert(self@.watch_paths[i as int] == path@);
                }
                return true;
            }
            i = i + 1;
        }
        false
    }

    /// Whether an event must trigger a reload: a creation or content change
    /// on a watched path.
    pub fn should_reload(&self, kind: FileEventKind, path: &str) -> (r: bool)
        ensures
            r == spec_event_relevant(kind, path@, self@.watch_paths),
    {
        (kind == FileEventKind::Create || kind == FileEventKind::ContentModify) && self.is_watched(
            path,
        )
    }

    /// Handles one filesystem event: a qualifying event attempts a reload
    /// from the file's current content; on success the snapshot is
    /// replaced, on failure the previous snapshot is kept untouched
    /// (last-known-good); any other event changes nothing.
    pub fn handle_file_event(
        &mut self,
        kind: FileEventKind,
        path: &str,
        content: Option<&str>,
        env: &EnvOverrides,
    ) -> (outcome: ReloadOutcome)
        ensures
            old(self)@.watch_paths == final (self)@.watch_paths,
            old(self)@.stopped == final (self)@.stopped,
            !spec_event_relevant(kind, path@, old(self)@.watch_paths) ==> final (self)@
                == old(self)@ && outcome == ReloadOutcome::Ignored,
            spec_event_relevant(kind, path@, old(self)@.watch_paths) ==> ({
                let m = spec_load_from_file(
                    path@,
                    match content {
                        Some(s) => Some(s@),
                        None => None,
                    },
                    env@,
                );
                match m {
                    Ok(c) => final (self)@.current == c && outcome == ReloadOutcome::Reloaded,
                    Err(e) => final (self)@.current == old(self)@.current && (outcome matches
                    ReloadOutcome::Failed(err) && err@ == e),
                }
            }),
    {
        if !self.should_reload(kind, path) {
            return ReloadOutcome::Ignored;
        }
        match TramConfig::load_from_file(path, content, env) {
            Ok(new_config) => {
                self.current = new_config;
                ReloadOutcome::Reloaded
            },
            Err(e) => ReloadOutcome::Failed(e),
        }
    }

    /// Handles one filesystem event as `handle_file_event` does, and then
    /// tells the registered handler what happened: the change branch after a
    /// successful swap, the error branch after a failed one, each invoked
    /// once per qualifying event, after the state transition it describes.
    pub fn handle_file_event_with_handler<H: ConfigChangeHandler>(
        &mut self,
        kind: FileEventKind,
        path: &str,
        content: Option<&str>,
        env: &EnvOverrides,
        handler: &mut H,
    ) -> (outcome: ReloadOutcome)
        ensures
            old(self)@.watch_paths == final (self)@.watch_paths,
            old(self)@.stopped == final (self)@.stopped,
            !spec_event_relevant(kind, path@, old(self)@.watch_paths) ==> final (self)@
                == old(self)@ && outcome == ReloadOutcome::Ignored,
            spec_event_relevant(kind, path@, old(self)@.watch_paths) ==> ({
                let m = spec_load_from_file(
                    path@,
                    match content {
                        Some(s) => Some(s@),
                        None => None,
                    },
                    env@,
                );
                match m {
                    Ok(c) => final (self)@.current == c && outcome == ReloadOutcome::Reloaded,
                    Err(e) => final (self)@.current == old(self)@.current && (outcome matches
                    ReloadOutcome::Failed(err) && err@ == e),
                }
            }),
    {
        let outcome = self.handle_file_event(kind, path, content, env);
        match &outcome {
            ReloadOutcome::Reloaded => {
                let current = self.get_config();
                handler.handle_config_change(&current);
            },
            ReloadOutcome::Failed(e) => {
                handler.handle_config_error(e);
            },
            ReloadOutcome::Ignored => {},
        }
        outcome
    }

    /// Signals the watcher to stop. Idempotent: stopping an already stopped
    /// watcher changes nothing and does not fail.
    pub fn stop(&mut self)
        ensures
            final (self)@ == spec_stop(old(self)@),
    {
        self.stopped = true;
    }
}

/// Stopping is idempotent: a second stop leaves the state of the first.
pub proof fn lemma_stop_idempotent(w: ConfigWatcherView)
    ensures
        spec_stop(spec_stop(w)) == spec_stop(w),
        spec_stop(w).current == w.current,
        spec_stop(w).watch_paths == w.watch_paths,
{
}

/// A registered handler that records what it was told: how often each branch
/// ran, the last configuration delivered, and the last error reported.
#[derive(Debug)]
pub struct WatchConfigHandler {
    pub reload_count: u64,
    pub error_count: u64,
    pub last_config: Option<TramConfig>,
    pub last_error: Option<ConfigError>,
}

impl WatchConfigHandler {
    /// A fresh handler that has recorded nothing.
    pub fn new() -> (r: WatchConfigHandler)
        ensures
            r.reload_count == 0,
            r.error_count == 0,
            r.last_config is None,
            r.last_error is None,
    {
        WatchConfigHandler { reload_count: 0, error_count: 0, last_config: None, last_error: None }
    }
}

impl ConfigChangeHandler for WatchConfigHandler {
    fn handle_config_change(&mut self, new_config: &TramConfig) {
        if self.reload_count < u64::MAX {
            self.reload_count = self.reload_count + 1;
        }
        self.last_config = Some(new_config.snapshot());
    }

    fn handle_config_error(&mut self, error: &ConfigError) {
        if self.error_count < u64::MAX {
            self.error_count = self.error_count + 1;
        }
        self.last_error = Some(error.clone());
    }
}

} // verus!
