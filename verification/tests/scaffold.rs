use oblivion_ui::scaffold::{create_project, main_source, manifest, Step};

#[test]
fn the_manifest_names_the_project() {
    assert_eq!(
        manifest("demo"),
        "[package]\nname = \"demo\"\nversion = \"0.1.0\"\nedition = \"2021\"\n\n[dependencies]\noblivion_ui = { path = \"../oblivion_ui\" }\n"
    );
}

#[test]
fn the_manifest_of_a_project_without_a_name() {
    assert_eq!(
        manifest(""),
        "[package]\nname = \"\"\nversion = \"0.1.0\"\nedition = \"2021\"\n\n[dependencies]\noblivion_ui = { path = \"../oblivion_ui\" }\n"
    );
}

#[test]
fn the_main_source_says_hello() {
    assert_eq!(main_source(), "fn main() {\n    println!(\"Hello, Oblivion UI!\");\n}\n");
}

#[test]
fn an_existing_project_is_left_alone() {
    let steps = create_project("demo", true);
    assert_eq!(steps, vec![Step::PrintError { line: "Project demo already exists!".to_string() }]);
}

#[test]
fn a_new_project_is_made_in_order() {
    let steps = create_project("demo", false);
    assert_eq!(
        steps,
        vec![
            Step::CreateRoot,
            Step::WriteFile { path: "Cargo.toml".to_string(), contents: manifest("demo") },
            Step::CreateDir { path: "src".to_string() },
            Step::WriteFile { path: "src/main.rs".to_string(), contents: main_source() },
            Step::Print { line: "Project demo created successfully!".to_string() },
            Step::Print { line: "Run 'cd demo && cargo run' to start".to_string() },
        ]
    );
}
