use acrawl_runtime::prompt::{prepend_bullets, SystemPromptBuilder};

#[test]
fn build_returns_appended_sections_only() {
    let sections = SystemPromptBuilder::new()
        .append_section("# First")
        .append_section("# Second")
        .build();

    assert_eq!(sections, vec!["# First", "# Second"]);
}

#[test]
fn render_joins_sections_with_blank_lines() {
    let prompt = SystemPromptBuilder::new()
        .append_section("# First")
        .append_section("# Second")
        .render();

    assert_eq!(prompt, "# First\n\n# Second");
}

#[test]
fn empty_builder_renders_nothing_and_bullets_prefix_items() {
    assert_eq!(SystemPromptBuilder::new().render(), "");
    assert!(SystemPromptBuilder::new().build().is_empty());
    assert_eq!(
        prepend_bullets(vec!["a".to_string(), "b c".to_string()]),
        vec![" - a", " - b c"]
    );
}
