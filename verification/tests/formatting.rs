use candid_language_server::format::{
    apply_indent_width, collapse_blank_lines, extract_orphan_comment_blocks, format_program,
    format_program_with_options, format_text, inject_orphan_comment_blocks, FormatOptions,
};
use candid_language_server::format_lines::{
    extract_imports_and_service_name, extract_service_name_from_line, formatted_has_imports,
    inject_service_name, normalize_line, prepend_imports, split_lines,
};
use candid_parser::syntax::{pretty_print, IDLMergedProg, IDLProg};
use ropey::Rope;

fn pretty(text: &str) -> String {
    let prog: IDLProg = text.parse().expect("parsed AST");
    pretty_print(&IDLMergedProg::new(prog))
}

fn chars(text: &str) -> Vec<char> {
    text.chars().collect()
}

fn string(chars: Vec<char>) -> String {
    chars.into_iter().collect()
}

#[test]
fn formatting_returns_text_edits() {
    let text = "service : { method : (text) -> (text) query; }";
    let rope = Rope::from_str(text);

    let edits = format_program(&pretty(text), &rope).expect("edits");
    assert_eq!(edits.len(), 1);
    let edit = &edits[0];

    assert!(edit.new_text.contains("service : {"));
    assert_ne!(edit.new_text, text, "formatted text should differ from ugly input");
    assert_eq!((edit.range.start.line, edit.range.start.character), (0, 0));
    assert_eq!((edit.range.end.line, edit.range.end.character), (0, 46));
}

#[test]
fn formatting_preserves_imports_and_service_name() {
    let text = "import \"./shared.did\";\n\nservice Api : { method : (text) -> (); }";
    let rope = Rope::from_str(text);

    let edits = format_program(&pretty(text), &rope).expect("edits");
    let edit = &edits[0];

    assert!(edit.new_text.contains("import \"./shared.did\";"));
    assert!(edit.new_text.contains("service Api :"));
    let import_pos = edit.new_text.find("import \"./shared.did\";").expect("import should exist");
    let service_pos = edit.new_text.find("service Api :").expect("service name should exist");
    assert!(import_pos < service_pos, "import should remain before service declaration");
}

#[test]
fn formatting_preserves_orphan_comment_lines() {
    let text = "// orphan comment\n\nservice : { method : () -> (); }";
    let rope = Rope::from_str(text);

    let edits = format_program(&pretty(text), &rope).expect("edits");
    let edit = &edits[0];

    assert!(edit.new_text.contains("// orphan comment"), "orphan comment should be preserved");
    let comment_pos = edit.new_text.find("// orphan comment").expect("comment should exist");
    let service_pos = edit.new_text.find("service").expect("service should exist");
    assert!(comment_pos < service_pos, "comment should remain before service");
}

#[test]
fn formatting_follows_the_options() {
    let original = "import \"a.did\";\n// note\n\nservice Api : {\n  f : () -> ();\n}\n";
    let printed = "service : {\n  f : () -> ();\n\n\n\n  g : () -> ();\n}\n";
    let options = FormatOptions { indent_width: Some(4), blank_lines: Some(1) };
    let formatted = format_text(printed, original, &options);
    assert_eq!(
        formatted,
        "import \"a.did\";\n\n// note\n\nservice Api : {\n    f : () -> ();\n\n    g : () -> ();\n}"
    );
    let rope = Rope::from_str(original);
    let edits = format_program_with_options(printed, &rope, &options).expect("edits");
    assert_eq!(edits[0].new_text, formatted);
    assert_eq!((edits[0].range.end.line, edits[0].range.end.character), (6, 0));
}

#[test]
fn lines_are_split_as_the_standard_library_splits_them() {
    for text in ["", "\n", "a", "a\n", "a\r\nb", "a\n\nb\n", "a\r", "\r\n", "x\ny\r\n\r\nz\r"] {
        let expected: Vec<String> = text.lines().map(|line| line.to_string()).collect();
        assert_eq!(split_lines(&chars(text)), expected, "lines of {:?}", text);
    }
}

#[test]
fn imports_and_service_name_are_read_from_the_source() {
    let source = "import \"a.did\";\n  import service\n   \"b.did\"  ; \nservice_x : {}\nservice  Api: {\nservice Other : {";
    let (imports, name) = extract_imports_and_service_name(&chars(source));
    assert_eq!(imports, vec!["import \"a.did\";", "  import service\n   \"b.did\"  ; "]);
    assert_eq!(name.as_deref(), Some("_x"), "what follows the keyword is read as the name");
    let (_, name) = extract_imports_and_service_name(&chars("type A = nat;\nservice  Api: {\nservice B : {"));
    assert_eq!(name.as_deref(), Some("Api"), "the first named service counts");
    let (imports, name) = extract_imports_and_service_name(&chars("import \"never ends\"\nservice A : {"));
    assert_eq!(imports, vec!["import \"never ends\"\nservice A : {"]);
    assert_eq!(name, None);
    assert_eq!(
        extract_service_name_from_line(&chars("service _a1 :{")).map(string).as_deref(),
        Some("_a1")
    );
    assert_eq!(extract_service_name_from_line(&chars("service : {")), None);
    assert_eq!(extract_service_name_from_line(&chars("service 1a : {")), None);
    assert_eq!(extract_service_name_from_line(&chars("service A {")), None);
    assert_eq!(extract_service_name_from_line(&chars("type service A : {")), None);
    assert_eq!(extract_service_name_from_line(&chars("services:")).map(string).as_deref(), Some("s"));
    assert_eq!(extract_service_name_from_line(&chars("service")), None);
}

#[test]
fn service_name_is_put_back_into_the_first_unnamed_service() {
    let mut text = chars("type myservice = nat;\nservice  : {\n}\nservice : {}");
    assert!(inject_service_name(&mut text, &chars("Api")));
    assert_eq!(string(text), "type myservice = nat;\nservice Api : {\n}\nservice : {}");
    let mut named = chars("service X : {}");
    assert!(!inject_service_name(&mut named, &chars("Api")));
    assert_eq!(string(named), "service X : {}");
}

#[test]
fn imports_are_put_before_the_formatted_text() {
    let imports = vec!["import \"a.did\";".to_string(), "import \"b.did\";".to_string()];
    assert_eq!(
        string(prepend_imports(&chars("\n\nservice : {}"), &imports)),
        "import \"a.did\";\nimport \"b.did\";\nservice : {}"
    );
    assert_eq!(
        string(prepend_imports(&chars("service : {}"), &imports)),
        "import \"a.did\";\nimport \"b.did\";\n\nservice : {}"
    );
    assert!(formatted_has_imports(&chars("type A = nat;\n   import \"x\";")));
    assert!(!formatted_has_imports(&chars("type A = nat;\n// import \"x\";")));
    assert_eq!(string(normalize_line(&chars("  a :\t b ;\u{a0}"))), "a:b;");
}

#[test]
fn indentation_is_rescaled_per_level() {
    let text = "a {\n  b {\n    c;\n   odd;\n  \n  }\n}\n";
    assert_eq!(
        string(apply_indent_width(&chars(text), 3)),
        "a {\n   b {\n      c;\n   odd;\n\n   }\n}\n"
    );
    assert_eq!(string(apply_indent_width(&chars(text), 0)), text);
    assert_eq!(string(apply_indent_width(&chars("  x"), 1)), " x");
}

#[test]
fn runs_of_blank_lines_are_cut() {
    let text = "a\n\n \n\nb\n\nc\n";
    assert_eq!(string(collapse_blank_lines(&chars(text), 1)), "a\n\nb\n\nc\n");
    assert_eq!(string(collapse_blank_lines(&chars(text), 0)), "a\nb\nc\n");
    assert_eq!(string(collapse_blank_lines(&chars(text), 2)), "a\n\n \nb\n\nc\n");
    assert_eq!(string(collapse_blank_lines(&chars("a\n\n\nb"), 5)), "a\n\n\nb");
}

#[test]
fn orphan_comment_blocks_remember_their_anchors() {
    let source = "type A = nat;\n// first\n// second\n\n  type  B = nat;\n// attached\ntype C = nat;\n// before import\nimport \"x.did\";\ntype A = nat;\n// last\n\n";
    let blocks = extract_orphan_comment_blocks(&chars(source));
    assert_eq!(blocks.len(), 3);
    assert_eq!(blocks[0].text, "// first\n// second");
    assert_eq!(blocks[0].anchor_next.as_deref(), Some("typeB=nat;"));
    assert_eq!(blocks[0].anchor_next_occurrence, 1);
    assert_eq!(blocks[0].anchor_prev.as_deref(), Some("typeA=nat;"));
    assert_eq!(blocks[0].anchor_prev_occurrence, 1);
    assert!(!blocks[0].before_first);
    assert_eq!(blocks[1].text, "// before import");
    assert_eq!(blocks[1].anchor_next.as_deref(), Some("import\"x.did\";"));
    assert_eq!(blocks[1].anchor_prev.as_deref(), Some("typeC=nat;"));
    assert_eq!(blocks[2].text, "// last");
    assert_eq!(blocks[2].anchor_next, None);
    assert_eq!(blocks[2].anchor_next_occurrence, 0);
    assert_eq!(blocks[2].anchor_prev.as_deref(), Some("typeA=nat;"));
    assert_eq!(blocks[2].anchor_prev_occurrence, 2);
    let leading = extract_orphan_comment_blocks(&chars("// top\n\ntype A = nat;"));
    assert_eq!(leading.len(), 1);
    assert!(leading[0].before_first);
    assert_eq!(leading[0].anchor_prev, None);
}

#[test]
fn orphan_comment_blocks_return_to_their_places() {
    let source = "type A = nat;\n// first\n\ntype B = nat;\ntype A = nat;\n// last\n\n";
    let blocks = extract_orphan_comment_blocks(&chars(source));
    let formatted = "type A = nat;\ntype B = nat;\ntype A = nat;";
    assert_eq!(
        string(inject_orphan_comment_blocks(&chars(formatted), &blocks)),
        "type A = nat;\n// first\n\ntype B = nat;\ntype A = nat;\n\n// last\n"
    );
    let kept = "type A = nat;\n// first\ntype B = nat;\n// last";
    assert_eq!(string(inject_orphan_comment_blocks(&chars(kept), &blocks)), kept);
    assert_eq!(string(inject_orphan_comment_blocks(&chars("x\n"), &Vec::new())), "x\n");
    let unanchored = extract_orphan_comment_blocks(&chars("type Gone = nat;\n// note\n\n"));
    assert_eq!(
        string(inject_orphan_comment_blocks(&chars("type Other = nat;"), &unanchored)),
        "type Other = nat;\n\n// note\n"
    );
}
