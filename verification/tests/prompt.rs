use a2a::prompt::parse_frontmatter_str;

#[test]
fn parse_simple() {
    let raw = r#"---
topic: error-classify
needs_code_execution: false
context_files:
  - docs/decision-log.md
  - src/main.rs
---

# Question
body...
"#;
    let fm = parse_frontmatter_str(raw).ok().unwrap();
    assert_eq!(fm.context_files.len(), 2);
    assert_eq!(fm.context_files[0], "docs/decision-log.md");
}

#[test]
fn parse_inline_list() {
    let raw = r#"---
topic: foo
context_files: [a.rs, "b.md"]
---
"#;
    let fm = parse_frontmatter_str(raw).ok().unwrap();
    assert_eq!(fm.context_files, vec!["a.rs", "b.md"]);
}

#[test]
fn no_frontmatter() {
    let raw = "# Just markdown\n\nbody\n";
    let fm = parse_frontmatter_str(raw).ok().unwrap();
    assert!(fm.context_files.is_empty());
}

#[test]
fn rejects_chapter_divider_as_frontmatter() {
    let raw = "--- chapter 1 ---\n\nfirst paragraph";
    let fm = parse_frontmatter_str(raw).ok().unwrap();
    assert!(fm.context_files.is_empty());
}

#[test]
fn rejects_dashes_with_other_text() {
    let raw = "---abc\nbody";
    let fm = parse_frontmatter_str(raw).ok().unwrap();
    assert!(fm.context_files.is_empty());
}
