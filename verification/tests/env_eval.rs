use syspec::addr::get_repo_name;
use syspec::env_eval::{expand_env_vars, EnvEvalable};
use syspec::vars::EnvDict;

#[test]
fn test_get_last_segment() {
    assert_eq!(
        get_repo_name("https://github.com/user/repo.git"),
        Some("repo.git".to_string())
    );

    assert_eq!(
        get_repo_name("https://github.com/user/repo"),
        Some("repo".to_string())
    );

    assert_eq!(
        get_repo_name("git@github.com:user/repo.git"),
        Some("repo.git".to_string())
    );

    assert_eq!(
        get_repo_name("git@gitlab.com:group/subgroup/repo"),
        Some("repo".to_string())
    );

    assert_eq!(get_repo_name("not_a_url"), None);
}

#[test]
fn test_basic_expansion() {
    let mut env = EnvDict::new();
    env.set("HOME".to_string(), "/home/user".to_string());
    assert_eq!(expand_env_vars("${HOME}/bin", &env), "/home/user/bin");
}

#[test]
fn test_multiple_variables() {
    let mut env = EnvDict::new();
    env.set("USER".to_string(), "john".to_string());
    env.set("APP".to_string(), "myapp".to_string());
    assert_eq!(
        expand_env_vars("/opt/${APP}/bin/${USER}", &env),
        "/opt/myapp/bin/john"
    );
}

#[test]
fn test_undefined_variable() {
    let env = EnvDict::new();
    assert_eq!(
        expand_env_vars("Path: ${UNDEFINED_VAR}/data", &env),
        "Path: ${UNDEFINED_VAR}/data"
    );
}

#[test]
fn test_nested_braces() {
    let mut env = EnvDict::new();
    env.set("VAR".to_string(), "value".to_string());
    assert_eq!(expand_env_vars("${VAR}}", &env), "value}");
    assert_eq!(expand_env_vars("${VAR}}}", &env), "value}}");
}

#[test]
fn test_unclosed_brace() {
    let mut env = EnvDict::new();
    env.set("HOME".to_string(), "/home/user".to_string());
    assert_eq!(expand_env_vars("${HOME", &env), "${HOME");
    assert_eq!(expand_env_vars("${HOME${USER", &env), "${HOME${USER");
}

#[test]
fn test_empty_variable_name() {
    let env = EnvDict::new();
    assert_eq!(expand_env_vars("${}", &env), "${}");
}

#[test]
fn test_special_characters() {
    let mut env = EnvDict::new();
    env.set("VAR_WITH_UNDERSCORE".to_string(), "ok".to_string());
    assert_eq!(expand_env_vars("${VAR_WITH_UNDERSCORE}", &env), "ok");
}

#[test]
fn test_edge_cases() {
    let env = EnvDict::new();
    assert_eq!(expand_env_vars("", &env), "");
    assert_eq!(expand_env_vars("no variables", &env), "no variables");
    assert_eq!(expand_env_vars("$", &env), "$");
    assert_eq!(expand_env_vars("${", &env), "${");
    assert_eq!(expand_env_vars("}", &env), "}");
    assert_eq!(expand_env_vars("${}", &env), "${}");
}

#[test]
fn test_consecutive_variables() {
    let mut env = EnvDict::new();
    env.set("A".to_string(), "1".to_string());
    env.set("B".to_string(), "2".to_string());
    assert_eq!(expand_env_vars("${A}${B}", &env), "12");
}

#[test]
fn expansion_is_single_pass() {
    let mut env = EnvDict::new();
    env.set("A".to_string(), "${B}".to_string());
    env.set("B".to_string(), "deep".to_string());
    assert_eq!(expand_env_vars("${A}", &env), "${B}");
}

#[test]
fn string_env_eval_expands() {
    let mut env = EnvDict::new();
    env.set("NAME".to_string(), "world".to_string());
    let s = "hello ${NAME}".to_string();
    assert_eq!(s.env_eval(&env), "hello world");
    let o: Option<String> = Some("${NAME}".to_string());
    assert_eq!(o.env_eval(&env), Some("world".to_string()));
    let n: Option<String> = None;
    assert_eq!(n.env_eval(&env), None);
}

#[test]
fn value_env_eval_touches_strings_only() {
    let mut env = EnvDict::new();
    env.set("X".to_string(), "42".to_string());
    let v = syspec::vars::ValueType::of_str("${X}".to_string());
    assert_eq!(v.env_eval(&env).to_text(), "42");
    let b = syspec::vars::ValueType::of_bool(true);
    assert_eq!(b.env_eval(&env).to_text(), "true");
    let i = syspec::vars::ValueType::of_int(7);
    assert_eq!(i.env_eval(&env).to_text(), "7");
}
