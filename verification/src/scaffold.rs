//! What the command line tool writes when it makes a new project.
//!
//! The tool itself touches the file system and the terminal. What it writes,
//! and in which order, is decided here and handed back as a list of steps.

use vstd::prelude::*;
use vstd::string::StringExecFns;

verus! {

/// The manifest of a new project called `name`.
pub open spec fn manifest_text(name: Seq<char>) -> Seq<char> {
    "[package]\nname = \""@ + name
        + "\"\nversion = \"0.1.0\"\nedition = \"2021\"\n\n[dependencies]\noblivion_ui = { path = \"../oblivion_ui\" }\n"@
}

/// The main source file of a new project.
pub open spec fn main_text() -> Seq<char> {
    "fn main() {\n    println!(\"Hello, Oblivion UI!\");\n}\n"@
}

/// What the tool says when the project's directory is there already.
pub open spec fn exists_text(name: Seq<char>) -> Seq<char> {
    "Project "@ + name + " already exists!"@
}

/// What the tool says when the project was made.
pub open spec fn created_text(name: Seq<char>) -> Seq<char> {
    "Project "@ + name + " created successfully!"@
}

/// How the tool says to start the project.
pub open spec fn hint_text(name: Seq<char>) -> Seq<char> {
    "Run 'cd "@ + name + " && cargo run' to start"@
}

/// The manifest of a new project called `name`.
pub fn manifest(name: &str) -> (text: String)
    ensures
        text@ == manifest_text(name@),
{
    String::from_str("[package]\nname = \"").concat(name).concat(
        "\"\nversion = \"0.1.0\"\nedition = \"2021\"\n\n[dependencies]\noblivion_ui = { path = \"../oblivion_ui\" }\n",
    )
}

/// The main source file of a new project.
pub fn main_source() -> (text: String)
    ensures
        text@ == main_text(),
{
    String::from_str("fn main() {\n    println!(\"Hello, Oblivion UI!\");\n}\n")
}

/// One thing that the tool does.
#[derive(Clone, Debug, PartialEq, Eq)]
pub enum Step {
    /// Make the project's directory.
    CreateRoot,
    /// Make a directory below the project's directory.
    CreateDir { path: String },
    /// Write a file below the project's directory.
    WriteFile { path: String, contents: String },
    /// Print a line.
    Print { line: String },
    /// Print a line as an error.
    PrintError { line: String },
}

/// A [`Step`] as plain values.
pub enum StepView {
    CreateRoot,
    CreateDir { path: Seq<char> },
    WriteFile { path: Seq<char>, contents: Seq<char> },
    Print { line: Seq<char> },
    PrintError { line: Seq<char> },
}

impl View for Step {
    type V = StepView;

    open spec fn view(&self) -> StepView {
        match self {
            Step::CreateRoot => StepView::CreateRoot,
            Step::CreateDir { path } => StepView::CreateDir { path: path@ },
            Step::WriteFile { path, contents } => StepView::WriteFile {
                path: path@,
                contents: contents@,
            },
            Step::Print { line } => StepView::Print { line: line@ },
            Step::PrintError { line } => StepView::PrintError { line: line@ },
        }
    }
}

/// The steps that make a project called `name`. `exists` says whether
/// something of that name is there already.
///
/// Where something is there, the tool says so and touches nothing. Otherwise
/// it makes the directory, writes the manifest, makes the source directory,
/// writes the main source file, and says how to start the project.
pub open spec fn plan(name: Seq<char>, exists: bool) -> Seq<StepView> {
    if exists {
        seq![StepView::PrintError { line: exists_text(name) }]
    } else {
        seq![
            StepView::CreateRoot,
            StepView::WriteFile { path: "Cargo.toml"@, contents: manifest_text(name) },
            StepView::CreateDir { path: "src"@ },
            StepView::WriteFile { path: "src/main.rs"@, contents: main_text() },
            StepView::Print { line: created_text(name) },
            StepView::Print { line: hint_text(name) },
        ]
    }
}

/// The steps that make a project called `name`.
pub fn create_project(name: &str, exists: bool) -> (steps: Vec<Step>)
    ensures
        steps@.map_values(|step: Step| step@) == plan(name@, exists),
{
    let mut steps: Vec<Step> = Vec::new();
    if exists {
        steps.push(
            Step::PrintError {
                line: String::from_str("Project ").concat(name).concat(" already exists!"),
            },
        );
    } else {
        steps.push(Step::CreateRoot);
        steps.push(Step::WriteFile { path: String::from_str("Cargo.toml"), contents: manifest(name) });
        steps.push(Step::CreateDir { path: String::from_str("src") });
        steps.push(Step::WriteFile { path: String::from_str("src/main.rs"), contents: main_source() });
        steps.push(
            Step::Print {
                line: String::from_str("Project ").concat(name).concat(" created successfully!"),
            },
        );
        steps.push(
            Step::Print {
                line: String::from_str("Run 'cd ").concat(name).concat(" && cargo run' to start"),
            },
        );
    }
    assert(steps@.map_values(|step: Step| step@) =~= plan(name@, exists));
    steps
}

} // verus!
