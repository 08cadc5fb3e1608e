//! Workspace detection: finding a project root by walking up the directory
//! tree and looking for marker files.
//!
//! Paths are plain strings with `/` separators. Which files exist on disk is
//! input handed in by the caller as a list of paths; the walk itself — which
//! ancestor wins, and in which order markers are tried — is verified.

use vstd::prelude::*;

use crate::error::TramError;
use crate::strutil::{str_eq, substring_copy};

verus! {

/// The index of the last `/` below position `i`, if any.
pub open spec fn spec_find_last_slash(p: Seq<char>, i: int) -> Option<int>
    decreases i,
{
    if i <= 0 {
        None
    } else if p[i - 1] == '/' {
        Some(i - 1)
    } else {
        spec_find_last_slash(p, i - 1)
    }
}

/// A found slash index lies below the bound it was searched under.
pub proof fn lemma_find_last_slash_bounds(p: Seq<char>, i: int)
    requires
        0 <= i <= p.len(),
    ensures
        match spec_find_last_slash(p, i) {
            Some(k) => 0 <= k < i && p[k] == '/',
            None => true,
        },
    decreases i,
{
    if i > 0 && p[i - 1] != '/' {
        lemma_find_last_slash_bounds(p, i - 1);
    }
}

/// The parent of a path: the path cut at its last `/`; a path without a
/// `/` has none, and the parent of a top-level entry is the root `/`.
pub open spec fn spec_parent(p: Seq<char>) -> Option<Seq<char>>
    decreases p.len(),
{
    match spec_find_last_slash(p, p.len() as int) {
        Some(k) => if k == 0 {
            if p.len() == 1 {
                None
            } else {
                Some(seq!['/'])
            }
        } else {
            Some(p.subrange(0, k))
        },
        None => None,
    }
}

/// A parent is strictly shorter than its path.
pub proof fn lemma_parent_shorter(p: Seq<char>)
    ensures
        match spec_parent(p) {
            Some(par) => par.len() < p.len(),
            None => true,
        },
{
    lemma_find_last_slash_bounds(p, p.len() as int);
}

/// The parent of a path, as an owned string.
pub fn parent_path(p: &str) -> (r: Option<String>)
    ensures
        ({
            let m = spec_parent(p@);
            match r {
                Some(q) => m is Some && q@ == m->0,
                None => m is None,
            }
        }),
{
    let n = p.unicode_len();
    let mut j: usize = n;
    loop
        invariant
            j <= n,
            n == p@.len(),
            spec_find_last_slash(p@, n as int) == spec_find_last_slash(p@, j as int),
        decreases j,
    {
        if j == 0 {
            return None;
        }
        if p.get_char(j - 1) == '/' {
            if j - 1 == 0 {
                if n == 1 {
                    return None;
                }
                let mut root = String::new();
                root.push('/');
                proof {
                    assert(root@ =~= seq!['/']);
                }
                return Some(root);
            }
            return Some(substring_copy(p, 0, j - 1));
        }
        j = j - 1;
    }
}

/// `dir` and `name` joined with a `/` separator.
pub open spec fn spec_join(dir: Seq<char>, name: Seq<char>) -> Seq<char> {
    if dir.len() == 0 {
        name
    } else if dir[dir.len() - 1] == '/' {
        dir + name
    } else {
        dir.push('/') + name
    }
}

/// `dir` and `name` joined with a `/` separator.
pub fn join_path(dir: &str, name: &str) -> (r: String)
    ensures
        r@ == spec_join(dir@, name@),
{
    let n = dir.unicode_len();
    if n == 0 {
        String::from_str(name)
    } else if dir.get_char(n - 1) == '/' {
        let mut out = String::from_str(dir);
        out.append(name);
        out
    } else {
        let mut out = String::from_str(dir);
        out.push('/');
        out.append(name);
        out
    }
}

/// Whether the list of existing paths contains `s`.
pub fn contains_path(existing: &Vec<String>, s: &str) -> (r: bool)
    ensures
        r == existing@.map_values(|x: String| x@).contains(s@),
{
    let n = existing.len();
    let mut i: usize = 0;
    while i < n
        invariant
            i <= n,
            n == existing@.len(),
            forall|j: int| 0 <= j < i ==> (#[trigger] existing@[j])@ != s@,
        decreases n - i,
    {
        if str_eq(existing[i].as_str(), s) {
            proof {
                assert(existing@.map_values(|x: String| x@)[i as int] == s@);
            }
            return true;
        }
        i = i + 1;
    }
    proof {
        let ghost ms = existing@.map_values(|x: String| x@);
        assert forall|k: int| 0 <= k < ms.len() implies #[trigger] ms[k] != s@ by {
            assert(ms[k] == existing@[k]@);
        }
        assert(!ms.contains(s@));
    }
    false
}

/// The marker files that identify a workspace root: version-control
/// directories first, then common project files.
pub open spec fn spec_marker_files() -> Seq<Seq<char>> {
    seq![
        ".git"@,
        ".hg"@,
        ".svn"@,
        "Cargo.toml"@,
        "package.json"@,
        "pyproject.toml"@,
        "setup.py"@,
        "go.mod"@,
        "build.gradle"@,
        "pom.xml"@,
        "Makefile"@,
        "justfile"@,
        ".project"@,
    ]
}

/// The marker files that identify a workspace root.
pub fn workspace_marker_files() -> (r: Vec<String>)
    ensures
        r@.map_values(|s: String| s@) == spec_marker_files(),
{
    let mut v: Vec<String> = Vec::new();
    v.push(String::from_str(".git"));
    v.push(String::from_str(".hg"));
    v.push(String::from_str(".svn"));
    v.push(String::from_str("Cargo.toml"));
    v.push(String::from_str("package.json"));
    v.push(String::from_str("pyproject.toml"));
    v.push(String::from_str("setup.py"));
    v.push(String::from_str("go.mod"));
    v.push(String::from_str("build.gradle"));
    v.push(String::from_str("pom.xml"));
    v.push(String::from_str("Makefile"));
    v.push(String::from_str("justfile"));
    v.push(String::from_str(".project"));
    proof {
        assert(v@.map_values(|s: String| s@) =~= spec_marker_files());
    }
    v
}

/// Whether `path` holds one of the marker files, judged against the list of
/// existing paths.
pub open spec fn spec_is_workspace_root(path: Seq<char>, existing: Seq<Seq<char>>) -> bool {
    exists|j: int|
        0 <= j < spec_marker_files().len() && existing.contains(
            #[trigger] spec_join(path, spec_marker_files()[j]),
        )
}

/// Where the walk up from `cur` first meets a workspace root, if anywhere.
pub open spec fn spec_detect_root(cur: Seq<char>, existing: Seq<Seq<char>>) -> Option<Seq<char>>
    decreases cur.len(),
    via spec_detect_root_decreases
{
    if spec_is_workspace_root(cur, existing) {
        Some(cur)
    } else {
        match spec_parent(cur) {
            Some(par) => spec_detect_root(par, existing),
            None => None,
        }
    }
}

#[via_fn]
proof fn spec_detect_root_decreases(cur: Seq<char>, existing: Seq<Seq<char>>) {
    lemma_parent_shorter(cur);
}

/// Finds project roots by walking up from a starting directory.
#[derive(Clone, Debug)]
pub struct WorkspaceDetector {
    current_dir: String,
}

impl View for WorkspaceDetector {
    type V = Seq<char>;

    closed spec fn view(&self) -> Seq<char> {
        self.current_dir@
    }
}

impl WorkspaceDetector {
    /// A detector starting from a specific directory.
    pub fn from_dir(dir: String) -> (r: WorkspaceDetector)
        ensures
            r@ == dir@,
    {
        WorkspaceDetector { current_dir: dir }
    }

    /// The directory the walk starts from.
    pub fn current_dir(&self) -> (r: &String)
        ensures
            r@ == self@,
    {
        &self.current_dir
    }

    /// Whether `path` is a workspace root, judged against the list of
    /// existing paths.
    pub fn is_workspace_root(&self, path: &str, existing: &Vec<String>) -> (r: bool)
        ensures
            r == spec_is_workspace_root(path@, existing@.map_values(|x: String| x@)),
    {
        let markers = workspace_marker_files();
        let n = markers.len();
        let mut i: usize = 0;
        while i < n
            invariant
                i <= n,
                n == spec_marker_files().len(),
                markers@.map_values(|s: String| s@) == spec_marker_files(),
                forall|j: int|
                    0 <= j < i ==> !existing@.map_values(|x: String| x@).contains(
                        #[trigger] spec_join(path@, spec_marker_files()[j]),
                    ),
            decreases n - i,
        {
            let candidate = join_path(path, markers[i].as_str());
            if contains_path(existing, candidate.as_str()) {
                proof {
                    assert(existing@.map_values(|x: String| x@).contains(
                        spec_join(path@, spec_marker_files()[i as int]),
                    ));
                }
                return true;
            }
            i = i + 1;
        }
        false
    }

    /// Walks up from the starting directory and returns the first workspace
    /// root met, or `WorkspaceNotFound` when the walk reaches the top
    /// without meeting one.
    pub fn detect_root(&self, existing: &Vec<String>) -> (r: Result<String, TramError>)
        ensures
            ({
                let m = spec_detect_root(self@, existing@.map_values(|x: String| x@));
                match r {
                    Ok(root) => m is Some && root@ == m->0,
                    Err(e) => m is None && e == TramError::WorkspaceNotFound,
                }
            }),
    {
        let ghost ex = existing@.map_values(|x: String| x@);
        let mut cur = self.current_dir.clone();
        loop
            invariant
                ex == existing@.map_values(|x: String| x@),
                spec_detect_root(cur@, ex) == spec_detect_root(self@, ex),
            decreases cur@.len(),
        {
            if self.is_workspace_root(cur.as_str(), existing) {
                return Ok(cur);
            }
            proof {
                lemma_parent_shorter(cur@);
            }
            match parent_path(cur.as_str()) {
                Some(par) => {
                    cur = par;
                },
                None => {
                    return Err(TramError::WorkspaceNotFound);
                },
            }
        }
    }
}

/// The kind of project a directory holds, judged by the files present.
#[derive(Clone, Copy, Debug, PartialEq, Eq, Structural)]
pub enum ProjectType {
    Rust,
    NodeJs,
    Python,
    Go,
    Java,
    Generic,
}

/// The project type of a directory: the first matching marker decides, and
/// a directory without any known marker is `Generic`.
pub open spec fn spec_detect_project_type(path: Seq<char>, existing: Seq<Seq<char>>) -> ProjectType {
    if existing.contains(spec_join(path, "Cargo.toml"@)) {
        ProjectType::Rust
    } else if existing.contains(spec_join(path, "package.json"@)) {
        ProjectType::NodeJs
    } else if existing.contains(spec_join(path, "pyproject.toml"@)) || existing.contains(
        spec_join(path, "setup.py"@),
    ) {
        ProjectType::Python
    } else if existing.contains(spec_join(path, "go.mod"@)) {
        ProjectType::Go
    } else if existing.contains(spec_join(path, "pom.xml"@)) || existing.contains(
        spec_join(path, "build.gradle"@),
    ) {
        ProjectType::Java
    } else {
        ProjectType::Generic
    }
}

impl ProjectType {
    /// Detects the project type of a directory, judged against the list of
    /// existing paths. Always succeeds; a directory without any known
    /// marker is `Generic`.
    pub fn detect(path: &str, existing: &Vec<String>) -> (r: Option<ProjectType>)
        ensures
            r == Some(spec_detect_project_type(path@, existing@.map_values(|x: String| x@))),
    {
        if contains_path(existing, join_path(path, "Cargo.toml").as_str()) {
            Some(ProjectType::Rust)
        } else if contains_path(existing, join_path(path, "package.json").as_str()) {
            Some(ProjectType::NodeJs)
        } else if contains_path(existing, join_path(path, "pyproject.toml").as_str())
            || contains_path(existing, join_path(path, "setup.py").as_str()) {
            Some(ProjectType::Python)
        } else if contains_path(existing, join_path(path, "go.mod").as_str()) {
            Some(ProjectType::Go)
        } else if contains_path(existing, join_path(path, "pom.xml").as_str()) || contains_path(
            existing,
            join_path(path, "build.gradle").as_str(),
        ) {
            Some(ProjectType::Java)
        } else {
            Some(ProjectType::Generic)
        }
    }

    /// The canonical build outputs to ignore for this project type.
    pub fn ignore_patterns(&self) -> (r: Vec<String>)
        ensures
            r@.map_values(|s: String| s@) == spec_ignore_patterns(*self),
    {
        let mut v: Vec<String> = Vec::new();
        match self {
            ProjectType::Rust => {
                v.push(String::from_str("target/"));
                v.push(String::from_str("Cargo.lock"));
            },
            ProjectType::NodeJs => {
                v.push(String::from_str("node_modules/"));
                v.push(String::from_str("dist/"));
                v.push(String::from_str("build/"));
            },
            ProjectType::Python => {
                v.push(String::from_str("__pycache__/"));
                v.push(String::from_str("*.pyc"));
                v.push(String::from_str(".venv/"));
                v.push(String::from_str("venv/"));
                v.push(String::from_str("dist/"));
                v.push(String::from_str("build/"));
            },
            ProjectType::Go => {
                v.push(String::from_str("vendor/"));
            },
            ProjectType::Java => {
                v.push(String::from_str("target/"));
                v.push(String::from_str("build/"));
                v.push(String::from_str("*.class"));
            },
            ProjectType::Generic => {
                v.push(String::from_str("build/"));
                v.push(String::from_str("dist/"));
                v.push(String::from_str("out/"));
            },
        }
        proof {
            assert(v@.map_values(|s: String| s@) =~= spec_ignore_patterns(*self));
        }
        v
    }
}

/// The canonical build outputs to ignore for each project type.
pub open spec fn spec_ignore_patterns(t: ProjectType) -> Seq<Seq<char>> {
    match t {
        ProjectType::Rust => seq!["target/"@, "Cargo.lock"@],
        ProjectType::NodeJs => seq!["node_modules/"@, "dist/"@, "build/"@],
        ProjectType::Python => seq![
            "__pycache__/"@,
            "*.pyc"@,
            ".venv/"@,
            "venv/"@,
            "dist/"@,
            "build/"@,
        ],
        ProjectType::Go => seq!["vendor/"@],
        ProjectType::Java => seq!["target/"@, "build/"@, "*.class"@],
        ProjectType::Generic => seq!["build/"@, "dist/"@, "out/"@],
    }
}

} // verus!
