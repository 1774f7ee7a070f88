use sandman::config::{effort, expand, Bench, Channels, Config, ConfigError, EffortSetting, Embedding, Metacognition, ModelChoices, ModelSpec, Tools};
use sandman::roles::RoleName;

fn stub() -> Vec<(String, String)> {
    vec![
        ("XDG_STATE_HOME".to_string(), "/home/someone/.local/state".to_string()),
        ("XDG_RUNTIME_DIR".to_string(), "/run/user/1000".to_string()),
    ]
}

#[test]
fn expansion_reads_both_forms_and_escapes() {
    let stub = stub();
    assert_eq!(expand("$XDG_STATE_HOME/db", &stub).unwrap(), "/home/someone/.local/state/db");
    assert_eq!(expand("${XDG_STATE_HOME}x", &stub).unwrap(), "/home/someone/.local/statex");
    assert_eq!(expand("$$5.00", &stub).unwrap(), "$5.00");
    assert_eq!(expand("100% $ free", &stub).unwrap(), "100% $ free");
    assert!(expand("${XDG_STATE_HOME", &stub).is_err());
    assert!(expand("${}", &stub).is_err());
}

#[test]
fn expansion_names_the_unset_variable() {
    match expand("$NOT_SET_ANYWHERE/x", &stub()) {
        Err(ConfigError::UnsetVar(name)) => assert_eq!(name, "NOT_SET_ANYWHERE"),
        other => panic!("expected an unset variable, got {other:?}"),
    }
}

#[test]
fn expansion_says_why_a_brace_is_bad() {
    match expand("a${XDG_STATE_HOME", &stub()) {
        Err(ConfigError::BadVar { text, why }) => {
            assert_eq!(text, "a${XDG_STATE_HOME");
            assert_eq!(why, "opens ${ and never closes it");
        },
        other => panic!("expected an unclosed brace, got {other:?}"),
    }
    match expand("${}", &stub()) {
        Err(ConfigError::BadVar { why, .. }) => assert_eq!(why, "names no variable between ${ and }"),
        other => panic!("expected an empty name, got {other:?}"),
    }
}

#[test]
fn expansion_leaves_plain_text_alone_and_takes_the_longest_name() {
    assert_eq!(expand("no variables here", &stub()).unwrap(), "no variables here");
    assert_eq!(expand("$XDG_RUNTIME_DIR/sandman.sock", &stub()).unwrap(), "/run/user/1000/sandman.sock");
    assert_eq!(expand("$", &stub()).unwrap(), "$");
}

fn spec(model: &str) -> ModelSpec {
    ModelSpec { endpoint: "http://localhost".to_string(), api_key: "k".to_string(), model: model.to_string(), effort: None }
}

fn config(research: Option<&str>, grader: &str) -> Config {
    Config {
        model: vec![("local".to_string(), spec("qwen")), ("remote".to_string(), spec("glm"))],
        models: ModelChoices {
            all: "local".to_string(),
            comms: None,
            planning: None,
            research: research.map(|s| s.to_string()),
            memory: None,
            task_manager: None,
        },
        metacognition: Metacognition { interrupt_interval: 15, model: "local".to_string() },
        embedding: Embedding { endpoint: "e".to_string(), api_key: "k".to_string(), model: "m".to_string() },
        channels: Channels { stdio: true, web: false },
        tools: Tools { searxng_endpoint: "s".to_string() },
        bench: Bench { grader: grader.to_string(), timeout: 60 },
    }
}

#[test]
fn a_role_of_its_own_overrides_the_fallback() {
    let c = config(Some("remote"), "local");
    assert!(c.check_slugs().is_ok());
    assert_eq!(c.for_role(RoleName::Research).model, "glm");
    assert_eq!(c.for_role(RoleName::Planning).model, "qwen");
    assert_eq!(c.for_all().model, "qwen");
    assert_eq!(c.for_comms().model, "qwen");
    assert_eq!(c.for_metacognition().model, "qwen");
    assert_eq!(c.for_grader().model, "qwen");
    assert_eq!(c.models.named_for(RoleName::Research).map(|s| s.as_str()), Some("remote"));
    assert_eq!(c.models.named_for(RoleName::Memory), None);
}

#[test]
fn an_undefined_slug_is_named_with_its_key() {
    match config(Some("nope"), "local").check_slugs() {
        Err(ConfigError::NoSuchSlug { key, slug }) => {
            assert_eq!(key, "models.research");
            assert_eq!(slug, "nope");
        },
        other => panic!("expected an unknown slug, got {other:?}"),
    }
    match config(None, "gone").check_slugs() {
        Err(ConfigError::NoSuchSlug { key, slug }) => {
            assert_eq!(key, "bench.grader");
            assert_eq!(slug, "gone");
        },
        other => panic!("expected an unknown slug, got {other:?}"),
    }
    assert!(config(None, "local").spec("remote").is_some());
    assert!(config(None, "local").spec("elsewhere").is_none());
}

#[test]
fn effort_false_is_none_a_level_is_itself_and_true_is_refused() {
    assert_eq!(effort(EffortSetting::Flag(false)), Some(None));
    assert_eq!(effort(EffortSetting::Level("low".to_string())), Some(Some("low".to_string())));
    assert_eq!(effort(EffortSetting::Flag(true)), None);
}
