use a2a::auth::store::{ModelAlias, Profile};
use a2a::commands::models::{
    add_created_at, already_registered, available_lines, available_profile, check_add,
    clear_if_empty, models_list_lines, new_alias_row, not_registered, parse_list_models,
    registered_line, run, validate_alias, ModelVariant, ModelsArgs, ModelsCommand,
};
use a2a::A2aError;

fn user_msg(e: A2aError) -> String {
    match e {
        A2aError::User(u) => u.0,
        _ => panic!("expected a user error"),
    }
}

fn alias(name: &str, model: &str, desc: Option<&str>) -> ModelAlias {
    ModelAlias {
        alias: name.to_string(),
        cursor_model: model.to_string(),
        default_mode: "agent".to_string(),
        thinking_hint: Some("deep".to_string()),
        description: desc.map(str::to_string),
        created_at: 1,
    }
}

#[test]
fn model_ids_are_read_from_the_end() {
    let v = ModelVariant::parse("opus-4-7-thinking-xhigh");
    assert_eq!(v.family, "opus-4-7");
    assert_eq!(v.size.as_deref(), Some("xhigh"));
    assert!(v.thinking);
    assert!(v.speed.is_none());
    assert_eq!(v.render(), "opus-4-7 / size=xhigh / thinking");
    let v = ModelVariant::parse("model-5.5-extra-high-fast");
    assert_eq!(v.family, "model-5.5");
    assert_eq!(v.size.as_deref(), Some("extra-high"));
    assert_eq!(v.speed.as_deref(), Some("fast"));
    assert_eq!(v.render(), "model-5.5 / size=extra-high / speed=fast");
    let v = ModelVariant::parse("high");
    assert_eq!(v.family, "");
    assert_eq!(v.size.as_deref(), Some("high"));
    assert_eq!(v.render(), "size=high");
    assert_eq!(ModelVariant::parse("").render(), "");
}

#[test]
fn alias_names_and_rows() {
    assert!(validate_alias("opus_4-7").is_ok());
    assert_eq!(user_msg(validate_alias("").err().unwrap()), "alias cannot be empty");
    assert_eq!(user_msg(validate_alias("a(1)").err().unwrap()), "alias must be alphanumeric / '-' / '_': a(1)");
    assert_eq!(
        user_msg(check_add("opus", "  ").err().unwrap()),
        "--model <cursor-model-id> is required and cannot be empty"
    );
    assert_eq!(add_created_at(true, Some(5), 9), 5);
    assert_eq!(add_created_at(true, None, 9), 9);
    assert_eq!(add_created_at(false, Some(5), 9), 9);
    let row = new_alias_row("opus", "m", None, None, None, 3);
    assert_eq!(row.default_mode, "agent");
    assert_eq!(clear_if_empty(Some(String::new())), Some(None));
    assert_eq!(clear_if_empty(Some("x".to_string())), Some(Some("x".to_string())));
    assert_eq!(clear_if_empty(None), None);
    assert!(user_msg(already_registered("opus")).starts_with("alias 'opus' is already registered."));
    assert_eq!(
        user_msg(not_registered("opus")),
        "alias 'opus' is not registered. Use `a2a models add opus --model <id>` to create it."
    );
    assert_eq!(
        registered_line("opus", "m1"),
        "Registered alias 'opus' (cursor_model=m1). Verify with `a2a models list`."
    );
}

#[test]
fn no_subcommand_lists() {
    match run(ModelsArgs { command: None, verbose: true }) {
        ModelsCommand::List { verbose } => assert!(verbose),
        _ => panic!("expected list"),
    }
}

#[test]
fn list_output() {
    let rows = vec![alias("opus", "opus-4-thinking", None), alias("fast", "mini", Some("cheap"))];
    let lines = models_list_lines(&rows, false);
    assert_eq!(
        lines,
        vec![
            "Configured model aliases (* = default for `a2a ask` without `--models`, total 2):",
            "* opus            opus-4-thinking  [agent]",
            "                  opus-4 / thinking",
            "  fast            mini  [agent]",
            "                  cheap",
            "",
            "(`a2a ask` without `--models` runs only 'opus'. Pass `--models a,b,c` for any other set.)",
        ]
    );
    let lines = models_list_lines(&vec![alias("opus", "opus-4-thinking", None)], true);
    assert_eq!(lines[1], "* opus");
    assert_eq!(lines[2], "    cursor_model:   opus-4-thinking");
    assert_eq!(lines[3], "    parsed:         opus-4 / thinking");
    assert_eq!(lines[5], "    thinking_hint:  deep");
    assert_eq!(
        models_list_lines(&Vec::new(), false)[1],
        "  (none registered; run `a2a models add <alias> --model <cursor-id>`)"
    );
}

#[test]
fn catalog_parsing() {
    let raw = "Available models\r\n\nsonnet-4 - Sonnet 4\n  opus-4-thinking  -  Opus 4 Thinking  \nno separator here\n";
    let r = parse_list_models(raw);
    assert_eq!(
        r,
        vec![
            ("sonnet-4".to_string(), "Sonnet 4".to_string()),
            ("opus-4-thinking".to_string(), "Opus 4 Thinking".to_string()),
        ]
    );
    let lines = available_lines(&r, &vec!["sonnet-4".to_string()]);
    assert_eq!(lines[0], "Found 2 model(s) on this account.");
    assert_eq!(lines[1], "(@ = referenced by an a2a alias on this machine)");
    assert_eq!(lines[2], "");
    assert_eq!(lines[3], format!("@ {:<48}  Sonnet 4", "sonnet-4"));
    assert_eq!(lines[4], format!("  {:<48}  Opus 4 Thinking", "opus-4-thinking"));
}

#[test]
fn catalog_profile_fallback() {
    let p = |n: &str, t: i64| Profile {
        name: n.to_string(),
        api_key: String::new(),
        created_at: t,
        last_used_at: None,
        note: None,
    };
    let ps = vec![p("b", 2), p("a", 1)];
    assert_eq!(available_profile(Some("x"), None, &ps), "x");
    assert_eq!(available_profile(None, Some("stale".to_string()), &ps), "stale");
    assert_eq!(available_profile(None, None, &ps), "a");
    assert_eq!(available_profile(None, None, &vec![p("default", 5), p("a", 1)]), "default");
    assert_eq!(available_profile(None, None, &Vec::new()), "default");
}
