use acrawl_runtime::memory::{
    build_memory_episode, extract_hosts, truncate_to_chars, MemoryEpisodeBuildConfig,
    MemoryEpisodeBuildInput,
};
use acrawl_runtime::memory::MemoryEpisodeResult;
use acrawl_runtime::{ContentBlock, ConversationMessage};

fn make_text_block(text: &str) -> ContentBlock {
    ContentBlock::Text {
        text: text.to_string(),
    }
}

fn make_tool_use(name: &str, input: &str) -> ContentBlock {
    ContentBlock::ToolUse {
        id: format!("tu_{name}"),
        name: name.to_string(),
        input: input.to_string(),
    }
}

fn make_tool_result(tool_use_id: &str, tool_name: &str, output: &str) -> ContentBlock {
    ContentBlock::ToolResult {
        tool_use_id: tool_use_id.to_string(),
        tool_name: tool_name.to_string(),
        output: output.to_string(),
        is_error: false,
    }
}

fn assistant_msg(blocks: Vec<ContentBlock>) -> ConversationMessage {
    ConversationMessage::assistant(blocks)
}

fn user_msg(text: &str) -> ConversationMessage {
    ConversationMessage::user_text(text)
}

fn basic_input<'a>(id: &str, messages: &'a [ConversationMessage]) -> MemoryEpisodeBuildInput<'a> {
    MemoryEpisodeBuildInput {
        id: id.to_string(),
        task_class: None,
        user_goal: "test goal".to_string(),
        result: MemoryEpisodeResult::Success,
        output_summary: None,
        messages,
        created_at_epoch_secs: 1000,
        promote_candidate: false,
    }
}

#[test]
fn builds_episode_with_copied_scalar_fields() {
    let messages = vec![];
    let input = MemoryEpisodeBuildInput {
        id: "ep1".to_string(),
        task_class: Some("scrape".to_string()),
        user_goal: "extract titles".to_string(),
        result: MemoryEpisodeResult::Partial,
        output_summary: Some("got 3 titles".to_string()),
        messages: &messages,
        created_at_epoch_secs: 1_700_000_000,
        promote_candidate: true,
    };

    let episode = build_memory_episode(input, MemoryEpisodeBuildConfig::default());

    assert_eq!(episode.id, "ep1");
    assert_eq!(episode.task_class.as_deref(), Some("scrape"));
    assert_eq!(episode.user_goal, "extract titles");
    assert_eq!(episode.result, MemoryEpisodeResult::Partial);
    assert_eq!(episode.output_summary.as_deref(), Some("got 3 titles"));
    assert_eq!(episode.created_at_epoch_secs, 1_700_000_000);
    assert!(episode.promote_candidate);
}

#[test]
fn extracts_tools_from_tool_use_and_tool_result_with_stable_dedupe_order() {
    let messages = vec![
        assistant_msg(vec![
            make_tool_use("navigate", "https://example.com"),
            make_tool_use("click", ""),
        ]),
        assistant_msg(vec![make_tool_result(
            "tu_read_content",
            "read_content",
            "read https://example.com/article",
        )]),
        assistant_msg(vec![make_tool_use("navigate", "https://other.com")]),
    ];

    let episode = build_memory_episode(
        basic_input("ep1", &messages),
        MemoryEpisodeBuildConfig::default(),
    );

    assert_eq!(episode.tools, vec!["navigate", "click", "read_content"]);
}

#[test]
fn extracts_domains_from_text_tool_input_tool_output() {
    let messages = vec![
        user_msg("go to https://example.com and also https://docs.example.com/page"),
        assistant_msg(vec![make_tool_use(
            "navigate",
            "{\"url\": \"https://shop.example.com\"}",
        )]),
        assistant_msg(vec![make_tool_use(
            "extract",
            "{\"selector\": \"a[href='https://third.com']\"}",
        )]),
    ];

    let episode = build_memory_episode(
        basic_input("ep1", &messages),
        MemoryEpisodeBuildConfig::default(),
    );

    assert!(episode.domains.contains(&"example.com".to_string()));
    assert!(episode.domains.contains(&"docs.example.com".to_string()));
    assert!(episode.domains.contains(&"shop.example.com".to_string()));
    assert!(episode.domains.contains(&"third.com".to_string()));
}

#[test]
fn route_records_tool_names_and_url_hosts_without_full_input() {
    let messages = vec![assistant_msg(vec![
        make_tool_use("navigate", "https://example.com/path?q=1"),
        make_tool_use("click", ""),
        make_tool_use("extract", "https://other.com"),
    ])];

    let episode = build_memory_episode(
        basic_input("ep1", &messages),
        MemoryEpisodeBuildConfig::default(),
    );

    assert_eq!(episode.route.len(), 3);
    assert_eq!(episode.route[0], "navigate: example.com");
    assert_eq!(episode.route[1], "click");
    assert_eq!(episode.route[2], "extract: other.com");
}

#[test]
fn respects_max_route_steps() {
    let mut blocks = Vec::new();
    for i in 0..20 {
        blocks.push(make_tool_use(&format!("tool{i}"), ""));
    }
    let messages = vec![assistant_msg(blocks)];

    let config = MemoryEpisodeBuildConfig {
        max_route_steps: 5,
        ..MemoryEpisodeBuildConfig::default()
    };
    let episode = build_memory_episode(basic_input("ep1", &messages), config);

    assert_eq!(episode.route.len(), 5);
    for i in 0..5 {
        assert_eq!(episode.route[i], format!("tool{i}"));
    }
}

#[test]
fn respects_max_domains_and_max_tools() {
    let blocks: Vec<_> = (0..20)
        .map(|i| {
            make_tool_use(
                &format!("tool{i}"),
                &format!("https://site{i}.example.com/page"),
            )
        })
        .collect();
    let messages = vec![assistant_msg(blocks)];

    let config = MemoryEpisodeBuildConfig {
        max_tools: 3,
        max_domains: 3,
        ..MemoryEpisodeBuildConfig::default()
    };
    let episode = build_memory_episode(basic_input("ep1", &messages), config);

    assert_eq!(episode.tools.len(), 3);
    assert_eq!(episode.domains.len(), 3);
}

#[test]
fn truncates_output_summary_by_chars() {
    let messages = vec![];
    let input = MemoryEpisodeBuildInput {
        id: "ep1".to_string(),
        task_class: None,
        user_goal: "goal".to_string(),
        result: MemoryEpisodeResult::Success,
        output_summary: Some("ABCDEFGHIJ".to_string()),
        messages: &messages,
        created_at_epoch_secs: 1000,
        promote_candidate: false,
    };

    let config = MemoryEpisodeBuildConfig {
        max_output_summary_chars: 5,
        ..MemoryEpisodeBuildConfig::default()
    };
    let episode = build_memory_episode(input, config);

    assert_eq!(episode.output_summary.as_deref(), Some("ABCDE"));
}

#[test]
fn handles_messages_with_no_tools_or_urls() {
    let messages = vec![
        user_msg("hello world"),
        assistant_msg(vec![make_text_block("ok")]),
    ];

    let episode = build_memory_episode(
        basic_input("ep1", &messages),
        MemoryEpisodeBuildConfig::default(),
    );

    assert!(episode.tools.is_empty());
    assert!(episode.domains.is_empty());
    assert!(episode.route.is_empty());
}

#[test]
fn host_extraction_ignores_invalid_hosts() {
    let hosts = extract_hosts("http://");
    assert!(hosts.is_empty());

    let hosts = extract_hosts("https://");
    assert!(hosts.is_empty());

    let hosts = extract_hosts("ftp://example.com");
    assert!(hosts.is_empty());

    let hosts = extract_hosts("no url here");
    assert!(hosts.is_empty());
}

#[test]
fn host_extraction_handles_boundaries() {
    let hosts = extract_hosts("https://example.com/path?a=1#frag");
    assert_eq!(hosts, vec!["example.com"]);

    let hosts = extract_hosts("http://example.com/page https://other.com/x");
    assert_eq!(hosts, vec!["example.com", "other.com"]);

    let hosts = extract_hosts("https://example.com, https://other.com; done");
    assert_eq!(hosts, vec!["example.com", "other.com"]);

    let hosts = extract_hosts("before (https://example.com) after");
    assert_eq!(hosts, vec!["example.com"]);

    let hosts = extract_hosts("\"http://example.com\"");
    assert_eq!(hosts, vec!["example.com"]);

    let hosts = extract_hosts("text http://a.com/path\nhttps://b.com");
    assert_eq!(hosts, vec!["a.com", "b.com"]);
}

#[test]
fn host_extraction_lowercases() {
    let hosts = extract_hosts("HTTPS://Example.COM/Page");
    assert_eq!(hosts, vec!["example.com"]);
}

#[test]
fn route_preserves_repeated_tool_steps() {
    let messages = vec![
        assistant_msg(vec![make_tool_use("navigate", "https://first.com")]),
        assistant_msg(vec![make_tool_use("navigate", "https://second.com")]),
        assistant_msg(vec![make_tool_use("click", "")]),
    ];

    let episode = build_memory_episode(
        basic_input("ep1", &messages),
        MemoryEpisodeBuildConfig::default(),
    );

    assert_eq!(episode.route.len(), 3);
    assert_eq!(episode.route[0], "navigate: first.com");
    assert_eq!(episode.route[1], "navigate: second.com");
    assert_eq!(episode.route[2], "click");
    assert_eq!(episode.tools.len(), 2);
}

#[test]
fn domains_deduplicate_across_sources() {
    let messages = vec![
        user_msg("visit https://dup.com"),
        assistant_msg(vec![make_tool_use("navigate", "https://dup.com/page")]),
        assistant_msg(vec![make_tool_result(
            "tu_navigate",
            "navigate",
            "opened https://dup.com",
        )]),
    ];

    let episode = build_memory_episode(
        basic_input("ep1", &messages),
        MemoryEpisodeBuildConfig::default(),
    );

    let dup_count = episode
        .domains
        .iter()
        .filter(|d| d.as_str() == "dup.com")
        .count();
    assert_eq!(dup_count, 1);
}

#[test]
fn truncate_to_zero_chars_returns_empty() {
    assert_eq!(truncate_to_chars("hello", 0), "");
}

#[test]
fn truncate_to_exact_length_returns_full() {
    assert_eq!(truncate_to_chars("hello", 5), "hello");
    assert_eq!(truncate_to_chars("hello", 10), "hello");
}

#[test]
fn truncate_handles_multibyte_chars() {
    assert_eq!(truncate_to_chars("héllo", 5), "héllo");
    assert_eq!(truncate_to_chars("héllo wörld", 7), "héllo w");
}

#[test]
fn default_build_config_limits() {
    let c = MemoryEpisodeBuildConfig::default();
    let messages: Vec<ConversationMessage> = (0..40)
        .map(|i| assistant_msg(vec![make_tool_use(&format!("t{i}"), "")]))
        .collect();
    let episode = build_memory_episode(basic_input("ep", &messages), c);
    assert_eq!(episode.route.len(), c.max_route_steps.min(40));
    assert_eq!(episode.tools.len(), c.max_tools.min(40));
}
