use acrawl_runtime::script::{
    check_parsed_script, script_json_text, validate_script, Expression, ScriptDefinition,
    ScriptLimits, ScriptNode, ScriptParseError, ValidationError, SCHEMA_VERSION,
};

fn limits() -> ScriptLimits {
    ScriptLimits {
        max_steps: 100,
        max_timeout_secs: 60,
        max_output_bytes: 1024,
        max_script_size_bytes: 10_000,
        max_parallel_branches: 4,
        max_nesting_depth: 3,
        per_step_timeout_secs: 10,
    }
}

fn tool(name: &str, input: &str, output: Option<&str>) -> ScriptNode {
    ScriptNode::ToolCall {
        tool: name.to_string(),
        input: input.to_string(),
        output: output.map(str::to_string),
    }
}

fn var(name: &str) -> Expression {
    Expression::Variable(name.to_string())
}

#[test]
fn validate_script_accepts_full_featured_script() {
    let script = ScriptDefinition {
        schema_version: SCHEMA_VERSION,
        name: Some("full".to_string()),
        steps: vec![
            tool("navigate", r#"{"url":"https://example.com"}"#, Some("page")),
            ScriptNode::Assign {
                variable: "items".to_string(),
                value: Expression::FieldAccess {
                    object: Box::new(var("page")),
                    field: "results".to_string(),
                },
            },
            ScriptNode::ForEach {
                variable: "item".to_string(),
                iterable: var("items"),
                steps: vec![ScriptNode::TryCatch {
                    try_steps: vec![ScriptNode::IfElse {
                        condition: Expression::JsEval("true".to_string()),
                        then_steps: vec![ScriptNode::Collect {
                            value: Expression::FieldAccess {
                                object: Box::new(var("item")),
                                field: "title".to_string(),
                            },
                        }],
                        else_steps: Some(vec![ScriptNode::Yield { value: var("item") }]),
                    }],
                    catch_steps: Some(vec![ScriptNode::Yield { value: var("err") }]),
                    finally_steps: Some(vec![ScriptNode::Parallel {
                        branches: vec![
                            vec![tool("scroll", r#"{"direction":"down","pixels":100}"#, None)],
                            vec![tool(
                                "wait",
                                r#"{"seconds":1,"selector":"","state":"attached"}"#,
                                None,
                            )],
                        ],
                    }]),
                    error_var: Some("err".to_string()),
                }],
            },
        ],
    };

    assert_eq!(validate_script(&script, &limits()), Ok(()));
}

#[test]
fn validate_script_rejects_unknown_tool() {
    let script = ScriptDefinition {
        schema_version: SCHEMA_VERSION,
        name: None,
        steps: vec![tool("fork", "{}", None)],
    };
    let errors = validate_script(&script, &limits()).expect_err("unknown tool should fail");
    assert_eq!(
        errors,
        vec![ValidationError::UnknownTool {
            tool: "fork".to_string()
        }]
    );
}

#[test]
fn validate_script_rejects_excessive_nesting() {
    let script = ScriptDefinition {
        schema_version: SCHEMA_VERSION,
        name: None,
        steps: vec![ScriptNode::ForLoop {
            variable: "i".to_string(),
            from: Expression::Literal("0".to_string()),
            to: Expression::Literal("1".to_string()),
            steps: vec![ScriptNode::WhileLoop {
                condition: Expression::JsEval("true".to_string()),
                steps: vec![ScriptNode::IfElse {
                    condition: Expression::JsEval("true".to_string()),
                    then_steps: vec![ScriptNode::Parallel {
                        branches: vec![vec![tool(
                            "scroll",
                            r#"{"direction":"down","pixels":10}"#,
                            None,
                        )]],
                    }],
                    else_steps: None,
                }],
            }],
        }],
    };
    let errors = validate_script(&script, &limits()).expect_err("nesting should fail");
    assert_eq!(
        errors,
        vec![ValidationError::ExcessiveNesting { depth: 4, max: 3 }]
    );
}

#[test]
fn validate_script_rejects_undefined_variable() {
    let script = ScriptDefinition {
        schema_version: SCHEMA_VERSION,
        name: None,
        steps: vec![ScriptNode::Assign {
            variable: "value".to_string(),
            value: var("missing"),
        }],
    };
    let errors = validate_script(&script, &limits()).expect_err("undefined variable should fail");
    assert!(errors.contains(&ValidationError::UndefinedVariable {
        name: "missing".to_string(),
        context: "assignment to `value`".to_string(),
    }));
}

#[test]
fn validate_rejects_too_many_parallel_branches() {
    let branches: Vec<Vec<ScriptNode>> = (0..5)
        .map(|_| vec![tool("scroll", r#"{"direction":"down","pixels":100}"#, None)])
        .collect();
    let script = ScriptDefinition {
        schema_version: SCHEMA_VERSION,
        name: None,
        steps: vec![ScriptNode::Parallel { branches }],
    };
    let errors = validate_script(&script, &limits()).expect_err("too many branches should fail");
    assert!(errors.contains(&ValidationError::TooManyParallelBranches {
        branch_count: 5,
        max: 4,
    }));
}

#[test]
fn validate_rejects_empty_top_level_steps() {
    let script = ScriptDefinition {
        schema_version: SCHEMA_VERSION,
        name: None,
        steps: vec![],
    };
    let errors = validate_script(&script, &limits()).expect_err("empty steps should fail");
    let empty = ValidationError::EmptySteps {
        context: "top-level script steps".to_string(),
    };
    assert_eq!(errors, vec![empty.clone(), empty]);
}

#[test]
fn validate_rejects_empty_for_loop_body_and_parallel_branches() {
    let script = ScriptDefinition {
        schema_version: 2,
        name: None,
        steps: vec![
            ScriptNode::ForLoop {
                variable: "i".to_string(),
                from: Expression::Literal("0".to_string()),
                to: Expression::Literal("5".to_string()),
                steps: vec![],
            },
            ScriptNode::Parallel { branches: vec![] },
        ],
    };
    let errors = validate_script(&script, &limits()).expect_err("should fail");
    assert_eq!(
        errors,
        vec![
            ValidationError::WrongSchemaVersion {
                found: 2,
                expected: 1
            },
            ValidationError::EmptySteps {
                context: "for_loop `i` body".to_string()
            },
            ValidationError::EmptySteps {
                context: "parallel branches".to_string()
            },
        ]
    );
}

#[test]
fn validate_rejects_script_too_large() {
    let tiny_limits = ScriptLimits {
        max_script_size_bytes: 50,
        ..limits()
    };
    let script = ScriptDefinition {
        schema_version: SCHEMA_VERSION,
        name: Some("oversized_script_with_a_very_long_name_to_push_size".to_string()),
        steps: vec![tool(
            "navigate",
            r#"{"url":"https://example.com/a/very/long/path/to/ensure/size/exceeds/limit"}"#,
            Some("result"),
        )],
    };
    let errors = validate_script(&script, &tiny_limits).expect_err("oversized script should fail");
    let text = script_json_text(&script);
    assert!(errors.contains(&ValidationError::ScriptTooLarge {
        size_bytes: text.len(),
        max_bytes: 50
    }));
}

#[test]
fn loop_variables_and_outputs_come_into_scope() {
    let script = ScriptDefinition {
        schema_version: SCHEMA_VERSION,
        name: None,
        steps: vec![
            ScriptNode::ForLoop {
                variable: "i".to_string(),
                from: Expression::Literal("0".to_string()),
                to: Expression::Literal("3".to_string()),
                steps: vec![ScriptNode::Collect { value: var("i") }],
            },
            ScriptNode::Collect { value: var("i") },
            tool("read_content", "{}", Some("text")),
            ScriptNode::Yield {
                value: Expression::ArrayIndex {
                    array: Box::new(var("text")),
                    index: Box::new(var("k")),
                },
            },
        ],
    };
    let errors = validate_script(&script, &limits()).expect_err("should fail");
    assert_eq!(
        errors,
        vec![
            ValidationError::UndefinedVariable {
                name: "i".to_string(),
                context: "collect expression".to_string()
            },
            ValidationError::UndefinedVariable {
                name: "k".to_string(),
                context: "yield expression array index".to_string()
            },
        ]
    );
}

#[test]
fn parallel_branches_do_not_share_scope() {
    let script = ScriptDefinition {
        schema_version: SCHEMA_VERSION,
        name: None,
        steps: vec![ScriptNode::Parallel {
            branches: vec![
                vec![tool("page_map", "{}", Some("a"))],
                vec![ScriptNode::Collect { value: var("a") }],
            ],
        }],
    };
    let errors = validate_script(&script, &limits()).expect_err("should fail");
    assert_eq!(
        errors,
        vec![ValidationError::UndefinedVariable {
            name: "a".to_string(),
            context: "collect expression".to_string()
        }]
    );
}

#[test]
fn script_json_text_is_canonical_json() {
    let script = ScriptDefinition {
        schema_version: SCHEMA_VERSION,
        name: Some("q\"uote\n".to_string()),
        steps: vec![
            tool("navigate", r#"{"url":"https://example.com"}"#, Some("page")),
            ScriptNode::IfElse {
                condition: Expression::JsEval("1 < 2".to_string()),
                then_steps: vec![ScriptNode::Yield {
                    value: Expression::FieldAccess {
                        object: Box::new(var("page")),
                        field: "t".to_string(),
                    },
                }],
                else_steps: None,
            },
        ],
    };
    let text = script_json_text(&script);
    let value: serde_json::Value = serde_json::from_str(&text).expect("valid JSON");
    assert_eq!(serde_json::to_string(&value).expect("serialise"), text);
    assert_eq!(value["name"], serde_json::Value::String("q\"uote\n".to_string()));
    assert_eq!(value["steps"][0]["type"], serde_json::Value::String("tool_call".to_string()));
    assert!(value["steps"][1]["else_steps"].is_null());
}

#[test]
fn parsed_scripts_are_checked_for_version_and_root() {
    let ok = ScriptDefinition {
        schema_version: SCHEMA_VERSION,
        name: None,
        steps: vec![],
    };
    assert!(check_parsed_script(ok, true).is_ok());
    let wrong = ScriptDefinition {
        schema_version: 99,
        name: None,
        steps: vec![],
    };
    assert!(matches!(
        check_parsed_script(wrong, false),
        Err(ScriptParseError::WrongSchemaVersion {
            found: 99,
            expected: 1
        })
    ));
    let not_object = ScriptDefinition {
        schema_version: SCHEMA_VERSION,
        name: None,
        steps: vec![],
    };
    match check_parsed_script(not_object, false) {
        Err(ScriptParseError::Structure(msg)) => {
            assert_eq!(msg, "script root must be a JSON object")
        }
        other => panic!("unexpected {other:?}"),
    }
}

fn script_of(steps: Vec<ScriptNode>) -> ScriptDefinition {
    ScriptDefinition {
        schema_version: SCHEMA_VERSION,
        name: None,
        steps,
    }
}

#[test]
fn validate_all_17_browser_tools_accepted() {
    let tools = [
        "navigate",
        "click",
        "click_at",
        "fill_form",
        "page_map",
        "read_content",
        "screenshot",
        "go_back",
        "scroll",
        "wait",
        "select_option",
        "execute_js",
        "hover",
        "press_key",
        "switch_tab",
        "list_resources",
        "save_file",
    ];
    let steps: Vec<ScriptNode> = tools.iter().map(|t| tool(t, "{}", None)).collect();
    assert_eq!(steps.len(), 17);
    let script = ScriptDefinition {
        schema_version: SCHEMA_VERSION,
        name: Some("all_tools".to_string()),
        steps,
    };
    assert_eq!(validate_script(&script, &limits()), Ok(()));
}

#[test]
fn validate_rejects_agent_control_tools() {
    for tool_name in ["fork", "wait_for_subagents", "cancel_subagent", "subagent_status"] {
        let script = script_of(vec![tool(tool_name, "{}", None)]);
        let errors = validate_script(&script, &limits())
            .expect_err(&format!("agent tool `{tool_name}` should be rejected"));
        assert!(
            errors.contains(&ValidationError::UnknownTool {
                tool: tool_name.to_string(),
            }),
            "expected UnknownTool for `{tool_name}`"
        );
    }
}

#[test]
fn validate_rejects_script_tools() {
    for tool_name in ["run_script", "script_status", "cancel_script", "wait_for_scripts"] {
        let script = script_of(vec![tool(tool_name, "{}", None)]);
        let errors = validate_script(&script, &limits())
            .expect_err(&format!("script tool `{tool_name}` should be rejected"));
        assert!(
            errors.contains(&ValidationError::UnknownTool {
                tool: tool_name.to_string(),
            }),
            "expected UnknownTool for `{tool_name}`"
        );
    }
}

#[test]
fn validate_rejects_empty_for_loop_body() {
    let script = script_of(vec![ScriptNode::ForLoop {
        variable: "i".to_string(),
        from: Expression::Literal("0".to_string()),
        to: Expression::Literal("5".to_string()),
        steps: vec![],
    }]);
    let errors =
        validate_script(&script, &limits()).expect_err("empty for_loop body should fail");
    assert!(errors.contains(&ValidationError::EmptySteps {
        context: "for_loop `i` body".to_string(),
    }));
}

#[test]
fn validate_rejects_empty_parallel_branches() {
    let script = script_of(vec![ScriptNode::Parallel { branches: vec![] }]);
    let errors =
        validate_script(&script, &limits()).expect_err("empty parallel branches should fail");
    assert!(errors.contains(&ValidationError::EmptySteps {
        context: "parallel branches".to_string(),
    }));
}

#[test]
fn validate_accepts_for_loop() {
    let script = script_of(vec![ScriptNode::ForLoop {
        variable: "page".to_string(),
        from: Expression::Literal("1".to_string()),
        to: Expression::Literal("10".to_string()),
        steps: vec![tool("navigate", r#"{"url":"https://example.com"}"#, None)],
    }]);
    assert_eq!(validate_script(&script, &limits()), Ok(()));
}

#[test]
fn validate_accepts_while_loop() {
    let script = script_of(vec![ScriptNode::WhileLoop {
        condition: Expression::JsEval("page < 10".to_string()),
        steps: vec![tool("scroll", r#"{"direction":"down","pixels":500}"#, None)],
    }]);
    assert_eq!(validate_script(&script, &limits()), Ok(()));
}

#[test]
fn validate_accepts_yield_only_script() {
    let script = script_of(vec![ScriptNode::Yield {
        value: Expression::Literal(r#"{"status":"done"}"#.to_string()),
    }]);
    assert_eq!(validate_script(&script, &limits()), Ok(()));
}

#[test]
fn validate_loop_variable_accessible_in_body() {
    let script = script_of(vec![ScriptNode::ForLoop {
        variable: "idx".to_string(),
        from: Expression::Literal("0".to_string()),
        to: Expression::Literal("3".to_string()),
        steps: vec![ScriptNode::Assign {
            variable: "current".to_string(),
            value: var("idx"),
        }],
    }]);
    assert_eq!(validate_script(&script, &limits()), Ok(()));
}

#[test]
fn validate_accepts_none_name() {
    let script = script_of(vec![tool("navigate", r#"{"url":"https://example.com"}"#, None)]);
    assert_eq!(script.name, None);
    assert_eq!(validate_script(&script, &limits()), Ok(()));
}

#[test]
fn validate_accepts_assign_and_collect() {
    let script = script_of(vec![
        tool("read_content", r#"{"selector":"h1"}"#, Some("title")),
        ScriptNode::Assign {
            variable: "processed".to_string(),
            value: Expression::FieldAccess {
                object: Box::new(var("title")),
                field: "text".to_string(),
            },
        },
        ScriptNode::Collect { value: var("processed") },
    ]);
    assert_eq!(validate_script(&script, &limits()), Ok(()));
}

#[test]
fn validate_accepts_for_each_standalone() {
    let script = script_of(vec![
        tool("list_resources", "{}", Some("links")),
        ScriptNode::ForEach {
            variable: "link".to_string(),
            iterable: var("links"),
            steps: vec![ScriptNode::Collect { value: var("link") }],
        },
    ]);
    assert_eq!(validate_script(&script, &limits()), Ok(()));
}

#[test]
fn validate_accepts_if_else_standalone() {
    let script = script_of(vec![ScriptNode::IfElse {
        condition: Expression::JsEval("items.length > 0".to_string()),
        then_steps: vec![tool("click", r#"{"selector":".next"}"#, None)],
        else_steps: Some(vec![ScriptNode::Yield {
            value: Expression::Literal(r#""no items""#.to_string()),
        }]),
    }]);
    assert_eq!(validate_script(&script, &limits()), Ok(()));
}

#[test]
fn validate_accepts_try_catch_standalone() {
    let script = script_of(vec![ScriptNode::TryCatch {
        try_steps: vec![tool("click", r#"{"selector":".submit"}"#, None)],
        catch_steps: Some(vec![tool("screenshot", "{}", None)]),
        finally_steps: None,
        error_var: Some("err".to_string()),
    }]);
    assert_eq!(validate_script(&script, &limits()), Ok(()));
}

#[test]
fn validate_accepts_parallel_standalone() {
    let script = script_of(vec![ScriptNode::Parallel {
        branches: vec![
            vec![tool("navigate", r#"{"url":"https://a.com"}"#, None)],
            vec![tool("navigate", r#"{"url":"https://b.com"}"#, None)],
        ],
    }]);
    assert_eq!(validate_script(&script, &limits()), Ok(()));
}

#[test]
fn script_json_text_escapes_names_as_json_strings() {
    let script = ScriptDefinition {
        schema_version: SCHEMA_VERSION,
        name: Some("a\"b\\c\u{1}\u{8}\t\u{1f}é".to_string()),
        steps: vec![ScriptNode::Collect { value: var("x") }],
    };
    let text = script_json_text(&script);
    assert!(text.contains(r#""name":"a\"b\\c\u0001\b\t\u001fé""#), "{text}");
}
