//! Project initialization: the files a fresh project skeleton is made of.
//!
//! Deciding the skeleton — which files, with which content — is verified
//! here; writing them to disk is output handled by the caller, which hands
//! in whether the target directory already exists.

use vstd::prelude::*;

use crate::error::TramError;
use crate::parse::new_string;

verus! {

/// Supported project types for initialization.
#[derive(Clone, Copy, Debug, PartialEq, Eq, Structural)]
pub enum InitProjectType {
    Rust,
    NodeJs,
    Python,
    Go,
    Java,
    Generic,
}

/// What to create: the project name, its directory, its type, and optional
/// description and author.
#[derive(Clone, Debug, PartialEq)]
pub struct InitConfig {
    pub name: String,
    pub path: String,
    pub project_type: InitProjectType,
    pub description: Option<String>,
    pub author: Option<String>,
}

/// The mathematical shape of an `InitConfig`.
pub ghost struct InitConfigView {
    pub name: Seq<char>,
    pub path: Seq<char>,
    pub project_type: InitProjectType,
    pub description: Option<Seq<char>>,
    pub author: Option<Seq<char>>,
}

impl View for InitConfig {
    type V = InitConfigView;

    open spec fn view(&self) -> InitConfigView {
        InitConfigView {
            name: self.name@,
            path: self.path@,
            project_type: self.project_type,
            description: match self.description {
                Some(d) => Some(d@),
                None => None,
            },
            author: match self.author {
                Some(a) => Some(a@),
                None => None,
            },
        }
    }
}

/// One file of a project skeleton: its path relative to the project
/// directory, and its content.
#[derive(Debug, PartialEq)]
pub struct ProjectFile {
    pub rel_path: String,
    pub content: String,
}

/// The mathematical shape of a `ProjectFile`.
pub ghost struct ProjectFileView {
    pub rel_path: Seq<char>,
    pub content: Seq<char>,
}

impl View for ProjectFile {
    type V = ProjectFileView;

    open spec fn view(&self) -> ProjectFileView {
        ProjectFileView { rel_path: self.rel_path@, content: self.content@ }
    }
}

/// The manifest of a Rust skeleton.
pub open spec fn spec_cargo_toml(c: InitConfigView) -> Seq<char> {
    "[package]\nname = \""@ + c.name + "\"\nversion = \"0.1.0\"\nedition = \"2021\"\n"@ + (match c
        .description {
        Some(d) => "description = \""@ + d + "\""@,
        None => Seq::<char>::empty(),
    }) + "\n\n[dependencies]\n"@
}

/// The package file of a Node.js skeleton.
pub open spec fn spec_package_json(c: InitConfigView) -> Seq<char> {
    "{\n  \"name\": \""@ + c.name + "\",\n  \"version\": \"1.0.0\",\n  \"description\": \""@
        + (match c.description {
        Some(d) => d,
        None => Seq::<char>::empty(),
    }) + "\",\n  \"main\": \"index.js\",\n  \"scripts\": {\n    \"start\": \"node index.js\"\n  }\n}\n"@
}

/// A name with every dash replaced by an underscore.
pub open spec fn spec_dash_to_underscore(s: Seq<char>) -> Seq<char> {
    s.map_values(
        |c: char|
            if c == '-' {
                '_'
            } else {
                c
            },
    )
}

/// A name with every dash replaced by an underscore.
pub fn dash_to_underscore(s: &str) -> (r: String)
    ensures
        r@ == spec_dash_to_underscore(s@),
{
    let n = s.unicode_len();
    let mut out = new_string();
    let mut i: usize = 0;
    while i < n
        invariant
            i <= n,
            n == s@.len(),
            out@ == spec_dash_to_underscore(s@).subrange(0, i as int),
        decreases n - i,
    {
        let c = s.get_char(i);
        if c == '-' {
            out.push('_');
        } else {
            out.push(c);
        }
        proof {
            assert(out@ =~= spec_dash_to_underscore(s@).subrange(0, i + 1 as int));
        }
        i = i + 1;
    }
    proof {
        assert(spec_dash_to_underscore(s@).subrange(0, n as int) =~= spec_dash_to_underscore(s@));
    }
    out
}

/// The build file of a Python skeleton.
pub open spec fn spec_pyproject_toml(c: InitConfigView) -> Seq<char> {
    "[build-system]\nrequires = [\"hatchling\"]\nbuild-backend = \"hatchling.build\"\n\n[project]\nname = \""@
        + c.name + "\"\nversion = \"0.0.1\"\ndescription = \""@ + (match c.description {
        Some(d) => d,
        None => Seq::<char>::empty(),
    }) + "\"\n\n[project.scripts]\n"@ + c.name + " = \""@ + spec_dash_to_underscore(c.name)
        + ":main\"\n"@
}

/// The module file of a Go skeleton.
pub open spec fn spec_go_mod(c: InitConfigView) -> Seq<char> {
    "module "@ + c.name + "\n\ngo 1.21\n"@
}

/// The README of a generic skeleton.
pub open spec fn spec_readme(c: InitConfigView) -> Seq<char> {
    "# "@ + c.name + "\n\n"@ + (match c.description {
        Some(d) => d,
        None => "A new project"@,
    }) + "\n"@
}

/// The fixed Rust entry point.
pub open spec fn spec_main_rs() -> Seq<char> {
    "fn main() {\n    println!(\"Hello, world!\");\n}\n"@
}

/// The fixed Node.js entry point.
pub open spec fn spec_index_js() -> Seq<char> {
    "console.log('Hello, world!');\n"@
}

/// The Python entry module content.
pub open spec fn spec_main_py() -> Seq<char> {
    "def main():\n    print(\"Hello, world!\")\n\nif __name__ == \"__main__\":\n    main()\n"@
}

/// The fixed Go entry point.
pub open spec fn spec_main_go() -> Seq<char> {
    "package main\n\nimport \"fmt\"\n\nfunc main() {\n    fmt.Println(\"Hello, world!\")\n}\n"@
}

/// The files of a Rust skeleton.
pub open spec fn spec_rust_files(c: InitConfigView) -> Seq<ProjectFileView> {
    seq![
        ProjectFileView { rel_path: "Cargo.toml"@, content: spec_cargo_toml(c) },
        ProjectFileView { rel_path: "src/main.rs"@, content: spec_main_rs() },
    ]
}

/// The files of a Node.js skeleton.
pub open spec fn spec_nodejs_files(c: InitConfigView) -> Seq<ProjectFileView> {
    seq![
        ProjectFileView { rel_path: "package.json"@, content: spec_package_json(c) },
        ProjectFileView { rel_path: "index.js"@, content: spec_index_js() },
    ]
}

/// The files of a Python skeleton.
pub open spec fn spec_python_files(c: InitConfigView) -> Seq<ProjectFileView> {
    seq![
        ProjectFileView { rel_path: "pyproject.toml"@, content: spec_pyproject_toml(c) },
        ProjectFileView {
            rel_path: spec_dash_to_underscore(c.name) + ".py"@,
            content: spec_main_py(),
        },
    ]
}

/// The files of a Go skeleton.
pub open spec fn spec_go_files(c: InitConfigView) -> Seq<ProjectFileView> {
    seq![
        ProjectFileView { rel_path: "go.mod"@, content: spec_go_mod(c) },
        ProjectFileView { rel_path: "main.go"@, content: spec_main_go() },
    ]
}

/// The files of a generic skeleton.
pub open spec fn spec_generic_files(c: InitConfigView) -> Seq<ProjectFileView> {
    seq![ProjectFileView { rel_path: "README.md"@, content: spec_readme(c) }]
}

/// The files a skeleton of the given configuration is made of.
pub open spec fn spec_project_files(c: InitConfigView) -> Seq<ProjectFileView> {
    match c.project_type {
        InitProjectType::Rust => spec_rust_files(c),
        InitProjectType::NodeJs => spec_nodejs_files(c),
        InitProjectType::Python => spec_python_files(c),
        InitProjectType::Go => spec_go_files(c),
        InitProjectType::Java => Seq::<ProjectFileView>::empty(),
        InitProjectType::Generic => spec_generic_files(c),
    }
}

/// Creates new project skeletons.
#[derive(Clone, Copy, Debug, PartialEq, Eq, Structural)]
pub struct ProjectInitializer;

impl ProjectInitializer {
    pub fn new() -> (r: ProjectInitializer)
        ensures
            r == ProjectInitializer,
    {
        ProjectInitializer
    }

    /// Decides the skeleton for a new project: rejected when the target
    /// directory already exists, otherwise exactly the files of the
    /// project type.
    pub fn create_project(&self, config: &InitConfig, path_exists: bool) -> (r: Result<
        Vec<ProjectFile>,
        TramError,
    >)
        ensures
            path_exists ==> r is Err && r->Err_0@ == (crate::error::TramErrorView::InvalidConfig {
                message: "Directory "@ + config@.path + " already exists"@,
            }),
            !path_exists ==> r is Ok && r->Ok_0@.map_values(|f: ProjectFile| f@)
                == spec_project_files(config@),
    {
        if path_exists {
            let mut m = String::from_str("Directory ");
            m.append(config.path.as_str());
            m.append(" already exists");
            return Err(TramError::InvalidConfig { message: m });
        }
        Ok(self.create_project_files(config))
    }

    /// The files of the skeleton, decided by the project type.
    pub fn create_project_files(&self, config: &InitConfig) -> (r: Vec<ProjectFile>)
        ensures
            r@.map_values(|f: ProjectFile| f@) == spec_project_files(config@),
    {
        match config.project_type {
            InitProjectType::Rust => self.create_rust_project(config),
            InitProjectType::NodeJs => self.create_nodejs_project(config),
            InitProjectType::Python => self.create_python_project(config),
            InitProjectType::Go => self.create_go_project(config),
            InitProjectType::Java => self.create_java_project(config),
            InitProjectType::Generic => self.create_generic_project(config),
        }
    }

    /// A Rust skeleton: a manifest and an entry point.
    pub fn create_rust_project(&self, config: &InitConfig) -> (r: Vec<ProjectFile>)
        ensures
            r@.map_values(|f: ProjectFile| f@) == spec_rust_files(config@),
    {
        let mut cargo = String::from_str("[package]\nname = \"");
        cargo.append(config.name.as_str());
        cargo.append("\"\nversion = \"0.1.0\"\nedition = \"2021\"\n");
        match &config.description {
            Some(d) => {
                cargo.append("description = \"");
                cargo.append(d.as_str());
                cargo.append("\"");
            },
            None => {},
        }
        cargo.append("\n\n[dependencies]\n");
        proof {
            assert(cargo@ =~= spec_cargo_toml(config@));
        }
        let mut files: Vec<ProjectFile> = Vec::new();
        files.push(ProjectFile { rel_path: String::from_str("Cargo.toml"), content: cargo });
        files.push(
            ProjectFile {
                rel_path: String::from_str("src/main.rs"),
                content: String::from_str("fn main() {\n    println!(\"Hello, world!\");\n}\n"),
            },
        );
        proof {
            assert(files@.map_values(|f: ProjectFile| f@) =~= spec_rust_files(config@));
        }
        files
    }

    /// A Node.js skeleton: a package file and an entry point.
    pub fn create_nodejs_project(&self, config: &InitConfig) -> (r: Vec<ProjectFile>)
        ensures
            r@.map_values(|f: ProjectFile| f@) == spec_nodejs_files(config@),
    {
        let mut pkg = String::from_str("{\n  \"name\": \"");
        pkg.append(config.name.as_str());
        pkg.append("\",\n  \"version\": \"1.0.0\",\n  \"description\": \"");
        match &config.description {
            Some(d) => pkg.append(d.as_str()),
            None => {},
        }
        pkg.append(
            "\",\n  \"main\": \"index.js\",\n  \"scripts\": {\n    \"start\": \"node index.js\"\n  }\n}\n",
        );
        proof {
            assert(pkg@ =~= spec_package_json(config@));
        }
        let mut files: Vec<ProjectFile> = Vec::new();
        files.push(ProjectFile { rel_path: String::from_str("package.json"), content: pkg });
        files.push(
            ProjectFile {
                rel_path: String::from_str("index.js"),
                content: String::from_str("console.log('Hello, world!');\n"),
            },
        );
        proof {
            assert(files@.map_values(|f: ProjectFile| f@) =~= spec_nodejs_files(config@));
        }
        files
    }

    /// A Python skeleton: a build file and an entry module named after the
    /// project, with dashes turned into underscores.
    pub fn create_python_project(&self, config: &InitConfig) -> (r: Vec<ProjectFile>)
        ensures
            r@.map_values(|f: ProjectFile| f@) == spec_python_files(config@),
    {
        let snake = dash_to_underscore(config.name.as_str());
        let mut py = String::from_str(
            "[build-system]\nrequires = [\"hatchling\"]\nbuild-backend = \"hatchling.build\"\n\n[project]\nname = \"",
        );
        py.append(config.name.as_str());
        py.append("\"\nversion = \"0.0.1\"\ndescription = \"");
        match &config.description {
            Some(d) => py.append(d.as_str()),
            None => {},
        }
        py.append("\"\n\n[project.scripts]\n");
        py.append(config.name.as_str());
        py.append(" = \"");
        py.append(snake.as_str());
        py.append(":main\"\n");
        proof {
            assert(py@ =~= spec_pyproject_toml(config@));
        }
        let mut module = snake;
        module.append(".py");
        let mut files: Vec<ProjectFile> = Vec::new();
        files.push(ProjectFile { rel_path: String::from_str("pyproject.toml"), content: py });
        files.push(
            ProjectFile {
                rel_path: module,
                content: String::from_str(
                    "def main():\n    print(\"Hello, world!\")\n\nif __name__ == \"__main__\":\n    main()\n",
                ),
            },
        );
        proof {
            assert(files@.map_values(|f: ProjectFile| f@) =~= spec_python_files(config@));
        }
        files
    }

    /// A Go skeleton: a module file and an entry point.
    pub fn create_go_project(&self, config: &InitConfig) -> (r: Vec<ProjectFile>)
        ensures
            r@.map_values(|f: ProjectFile| f@) == spec_go_files(config@),
    {
        let mut gomod = String::from_str("module ");
        gomod.append(config.name.as_str());
        gomod.append("\n\ngo 1.21\n");
        proof {
            assert(gomod@ =~= spec_go_mod(config@));
        }
        let mut files: Vec<ProjectFile> = Vec::new();
        files.push(ProjectFile { rel_path: String::from_str("go.mod"), content: gomod });
        files.push(
            ProjectFile {
                rel_path: String::from_str("main.go"),
                content: String::from_str(
                    "package main\n\nimport \"fmt\"\n\nfunc main() {\n    fmt.Println(\"Hello, world!\")\n}\n",
                ),
            },
        );
        proof {
            assert(files@.map_values(|f: ProjectFile| f@) =~= spec_go_files(config@));
        }
        files
    }

    /// A Java skeleton: nothing yet beyond the project directory itself.
    pub fn create_java_project(&self, config: &InitConfig) -> (r: Vec<ProjectFile>)
        ensures
            r@.map_values(|f: ProjectFile| f@) == Seq::<ProjectFileView>::empty(),
    {
        let files: Vec<ProjectFile> = Vec::new();
        proof {
            assert(files@.map_values(|f: ProjectFile| f@) =~= Seq::<ProjectFileView>::empty());
        }
        files
    }

    /// A generic skeleton: a README.
    pub fn create_generic_project(&self, config: &InitConfig) -> (r: Vec<ProjectFile>)
        ensures
            r@.map_values(|f: ProjectFile| f@) == spec_generic_files(config@),
    {
        let mut readme = String::from_str("# ");
        readme.append(config.name.as_str());
        readme.append("\n\n");
        match &config.description {
            Some(d) => readme.append(d.as_str()),
            None => readme.append("A new project"),
        }
        readme.append("\n");
        proof {
            assert(readme@ =~= spec_readme(config@));
        }
        let mut files: Vec<ProjectFile> = Vec::new();
        files.push(ProjectFile { rel_path: String::from_str("README.md"), content: readme });
        proof {
            assert(files@.map_values(|f: ProjectFile| f@) =~= spec_generic_files(config@));
        }
        files
    }
}

impl Default for ProjectInitializer {
    /// The default initializer.
    fn default() -> (r: Self)
        ensures
            r == ProjectInitializer,
    {
        ProjectInitializer::new()
    }
}

} // verus!
