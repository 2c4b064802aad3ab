use acrawl_runtime::memory::{
    sanitize_filename, AccessEvidence, AccessStatus, DomainEvidence, EpisodeStore,
    EvidenceStore, MemoryContext, MemoryContextBudget, MemoryContextLoader, MemoryEpisode,
    MemoryEpisodeResult, TaskEvidence,
};
use acrawl_runtime::memory::take_recent_episodes;
use acrawl_runtime::memory::{
    distinct_domains, next_context_read, ContextPlace, ContextRead, MemoryContextQuery,
};

fn loader() -> MemoryContextLoader {
    MemoryContextLoader::new(EpisodeStore::new("mem-root"), EvidenceStore::new("mem-root"))
}

fn make_task_evidence(task_class: &str) -> TaskEvidence {
    TaskEvidence {
        task_class: task_class.to_string(),
        successful_routes: vec![vec!["navigate".to_string()]],
        tools: vec!["navigate".to_string(), "extract".to_string()],
        output_fields: vec!["title".to_string()],
        success_count: 5,
        failure_count: 1,
        last_used_epoch_secs: 1_717_000_000,
    }
}

fn make_domain_evidence(domain: &str) -> DomainEvidence {
    DomainEvidence {
        domain: domain.to_string(),
        task_classes: vec!["scrape".to_string()],
        successful_routes: vec![vec!["navigate".to_string()]],
        field_hints: vec!["title".to_string(), ".price".to_string()],
        success_count: 10,
        failure_count: 2,
        last_verified_epoch_secs: 1_717_000_000,
    }
}

fn make_access_evidence(domain: &str) -> AccessEvidence {
    AccessEvidence {
        domain: domain.to_string(),
        status: AccessStatus::LoggedInObserved,
        extension_mode: false,
        last_confirmed_epoch_secs: 1_717_000_000,
        notes: Some("test note".to_string()),
    }
}

fn make_episode(id: &str, task_class: Option<&str>, goal: &str) -> MemoryEpisode {
    MemoryEpisode {
        id: id.to_string(),
        task_class: task_class.map(String::from),
        user_goal: goal.to_string(),
        route: vec!["navigate".to_string()],
        domains: vec!["example.com".to_string()],
        tools: vec!["navigate".to_string()],
        result: MemoryEpisodeResult::Success,
        output_summary: Some("summary".to_string()),
        created_at_epoch_secs: 1,
        promote_candidate: false,
    }
}

fn empty_context() -> MemoryContext {
    MemoryContext {
        task_evidence: Vec::new(),
        domain_evidence: Vec::new(),
        access_evidence: Vec::new(),
        recent_episodes: Vec::new(),
    }
}

#[test]
fn budget_defaults_match_spec() {
    let budget = MemoryContextBudget::default();
    assert_eq!(budget.max_task_evidence, 1);
    assert_eq!(budget.max_domain_evidence, 3);
    assert_eq!(budget.max_access_evidence, 3);
    assert_eq!(budget.max_recent_episodes, 2);
    assert_eq!(budget.max_rendered_chars, 4000);
}

#[test]
fn empty_context_renders_empty_string() {
    let rendered = loader().render_context(&empty_context(), MemoryContextBudget::default());
    assert_eq!(rendered, "");
}

#[test]
fn render_context_includes_expected_sections() {
    let context = MemoryContext {
        task_evidence: vec![make_task_evidence("scrape-prices")],
        domain_evidence: vec![make_domain_evidence("example.com")],
        access_evidence: vec![make_access_evidence("example.com")],
        recent_episodes: Vec::new(),
    };
    let rendered = loader().render_context(&context, MemoryContextBudget::default());

    assert!(rendered.contains("Relevant memory:"));
    assert!(rendered.contains("## Task evidence"));
    assert!(rendered.contains("## Domain evidence"));
    assert!(rendered.contains("## Access evidence"));
    assert!(rendered.contains("scrape-prices"));
    assert!(rendered.contains("example.com"));
}

#[test]
fn render_context_exact_layout() {
    let context = MemoryContext {
        task_evidence: vec![make_task_evidence("scrape")],
        domain_evidence: vec![make_domain_evidence("a.com")],
        access_evidence: vec![make_access_evidence("a.com")],
        recent_episodes: vec![make_episode("ep1", None, "find prices")],
    };
    let rendered = loader().render_context(&context, MemoryContextBudget::default());
    assert_eq!(
        rendered,
        "Relevant memory:\n\n## Task evidence\n\n- `scrape`: 5 success / 1 failure | tools: navigate, extract\n\n## Domain evidence\n\n- `a.com`: 10 success / 2 failure | hints: title, .price\n\n## Access evidence\n\n- `a.com`: status=LoggedInObserved | extension=false\n\n## Recent episodes\n\n- `ep1` [none] Success: find prices\n\n"
    );
}

#[test]
fn render_context_respects_max_rendered_chars() {
    let evidence = TaskEvidence {
        task_class: "x".repeat(200),
        successful_routes: vec![vec!["navigate".to_string()]],
        tools: vec!["navigate".to_string()],
        output_fields: vec![],
        success_count: 5,
        failure_count: 1,
        last_used_epoch_secs: 1_717_000_000,
    };
    let context = MemoryContext {
        task_evidence: vec![evidence],
        domain_evidence: Vec::new(),
        access_evidence: Vec::new(),
        recent_episodes: Vec::new(),
    };
    let budget = MemoryContextBudget {
        max_rendered_chars: 200,
        ..MemoryContextBudget::default()
    };
    let rendered = loader().render_context(&context, budget);

    assert!(rendered.chars().count() <= 200);
    assert!(rendered.ends_with("\n(truncated)"));
}

#[test]
fn render_context_respects_tiny_max_rendered_chars() {
    let context = MemoryContext {
        task_evidence: vec![make_task_evidence("scrape-prices")],
        ..empty_context()
    };
    let tiny = MemoryContextBudget {
        max_rendered_chars: 5,
        ..MemoryContextBudget::default()
    };
    assert_eq!(loader().render_context(&context, tiny), "\n(tru");
    let zero = MemoryContextBudget {
        max_rendered_chars: 0,
        ..MemoryContextBudget::default()
    };
    assert!(loader().render_context(&context, zero).is_empty());
}

#[test]
fn render_context_shortens_long_goals_and_names_missing_hints() {
    let mut domain = make_domain_evidence("b.com");
    domain.field_hints.clear();
    let context = MemoryContext {
        domain_evidence: vec![domain],
        recent_episodes: vec![make_episode("e", Some("tc"), &"g".repeat(100))],
        ..empty_context()
    };
    let rendered = loader().render_context(&context, MemoryContextBudget::default());
    assert!(rendered.contains("hints: none"));
    assert!(rendered.contains(&format!("- `e` [tc] Success: {}...\n", "g".repeat(77))));
    assert!(!rendered.contains("## Task evidence"));
}

#[test]
fn filename_sanitization_handles_unsafe_chars() {
    assert_eq!(sanitize_filename("hello world"), "hello_world");
    assert_eq!(sanitize_filename("a/b\\c:d*e?f"), "a_b_c_d_e_f");
    assert_eq!(sanitize_filename("keep.ascii-123"), "keep.ascii-123");
    assert_eq!(sanitize_filename(""), "unknown");
    assert_eq!(sanitize_filename("中文"), "__");
}

#[test]
fn store_paths_follow_the_layout() {
    let root = std::path::Path::new("base");
    let store = EvidenceStore::new("base");
    assert_eq!(
        store.evidence_dir(),
        root.join("memory").join("evidence").to_string_lossy()
    );
    assert_eq!(
        store.task_evidence_path("a b"),
        root.join("memory")
            .join("evidence")
            .join("tasks")
            .join("a_b.json")
            .to_string_lossy()
    );
    assert_eq!(
        EpisodeStore::new("base").episodes_path(),
        root.join("memory").join("episodes.jsonl").to_string_lossy()
    );
}

#[test]
fn recent_episodes_keep_the_last_ones_in_order() {
    let all: Vec<MemoryEpisode> = (0..5)
        .map(|i| make_episode(&format!("e{i}"), None, "g"))
        .collect();
    let ids: Vec<String> = take_recent_episodes(all.clone(), 2)
        .into_iter()
        .map(|e| e.id)
        .collect();
    assert_eq!(ids, vec!["e3", "e4"]);
    assert_eq!(take_recent_episodes(all.clone(), 10).len(), 5);
    assert!(take_recent_episodes(all, 0).is_empty());
}

fn context_reads(
    query: &MemoryContextQuery,
    budget: MemoryContextBudget,
    found: &[bool],
) -> Vec<ContextRead> {
    let domains = distinct_domains(&query.domains);
    let mut place = ContextPlace::Start;
    let (mut domain_found, mut access_found, mut step) = (0, 0, 0);
    let mut reads = Vec::new();
    loop {
        let (read, next) =
            next_context_read(query, budget, domains.len(), place, domain_found, access_found);
        place = next;
        reads.push(read);
        match read {
            ContextRead::DomainEvidence(_) if found[step] => domain_found += 1,
            ContextRead::AccessEvidence(_) if found[step] => access_found += 1,
            ContextRead::Finished => break,
            _ => {}
        }
        step += 1;
    }
    reads
}

#[test]
fn context_reads_follow_the_budget_caps() {
    let query = MemoryContextQuery {
        task_class: Some("search".to_string()),
        domains: vec![
            "a.com".to_string(),
            "b.com".to_string(),
            "a.com".to_string(),
            "c.com".to_string(),
        ],
        include_access: true,
        recent_episode_limit: 5,
    };
    let budget = MemoryContextBudget {
        max_task_evidence: 1,
        max_domain_evidence: 2,
        max_access_evidence: 1,
        max_recent_episodes: 2,
        max_rendered_chars: 4000,
    };
    let found = [true, false, true, true, true, true, true];
    assert_eq!(
        context_reads(&query, budget, &found),
        vec![
            ContextRead::TaskEvidence,
            ContextRead::DomainEvidence(0),
            ContextRead::DomainEvidence(1),
            ContextRead::DomainEvidence(2),
            ContextRead::AccessEvidence(0),
            ContextRead::RecentEpisodes(2),
            ContextRead::Finished,
        ]
    );
}

#[test]
fn context_reads_skip_what_is_not_asked_for() {
    let query = MemoryContextQuery {
        task_class: None,
        domains: vec!["a.com".to_string()],
        include_access: false,
        recent_episode_limit: 0,
    };
    assert_eq!(
        context_reads(&query, MemoryContextBudget::default(), &[false; 4]),
        vec![ContextRead::DomainEvidence(0), ContextRead::Finished]
    );
}
