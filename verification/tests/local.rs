use component_cli::local::{listed_files_text, wasm_list_text};

#[test]
fn no_files_gives_a_note() {
    assert_eq!(listed_files_text("src", &Vec::new()), "No WASM files found in src\n");
    assert_eq!(wasm_list_text(".", &Vec::new()), "No WASM files found in .\n");
}

#[test]
fn files_are_numbered_in_path_order_and_counted() {
    let files = vec!["b/x.wasm".to_owned(), "a/y.wasm".to_owned(), "a-b/z.wasm".to_owned()];
    let text = wasm_list_text(".", &files);
    let y = text.find("a/y.wasm").expect("a/y.wasm");
    let z = text.find("a-b/z.wasm").expect("a-b/z.wasm");
    let x = text.find("b/x.wasm").expect("b/x.wasm");
    assert!(y < z && z < x);
    assert!(text.contains("File Path"));
    assert!(text.ends_with("\n\nFound 3 WASM file(s)\n"));
}

#[test]
fn listed_files_keep_the_given_order() {
    let files = vec!["z.wasm".to_owned(), "a.wasm".to_owned()];
    let text = listed_files_text(".", &files);
    assert!(text.find("z.wasm").unwrap() < text.find("a.wasm").unwrap());
    assert!(text.contains("1"));
    assert!(text.ends_with("Found 2 WASM file(s)\n"));
}
