use dotctl::resolver::expand_path;

fn env(pairs: &[(&str, &str)]) -> Vec<(String, String)> {
    pairs.iter().map(|(k, v)| (k.to_string(), v.to_string())).collect()
}

#[test]
fn tilde_expands_to_home() {
    let home = "/home/u".to_string();
    let r = expand_path("~/config/app.conf", &home, &env(&[])).unwrap();
    assert_eq!(r, "/home/u/config/app.conf");
}

#[test]
fn bare_tilde_expands_to_home() {
    let home = "/home/u".to_string();
    assert_eq!(expand_path("~", &home, &env(&[])).unwrap(), "/home/u");
}

#[test]
fn tilde_in_the_middle_is_literal() {
    let home = "/home/u".to_string();
    assert_eq!(expand_path("a/~b", &home, &env(&[])).unwrap(), "a/~b");
}

#[test]
fn plain_path_is_unchanged() {
    let home = "/home/u".to_string();
    assert_eq!(expand_path("/etc/app.conf", &home, &env(&[])).unwrap(), "/etc/app.conf");
}

#[test]
fn dollar_var_expands() {
    let home = "/home/u".to_string();
    let e = env(&[("XDG_CONFIG_HOME", "/home/u/.config")]);
    assert_eq!(
        expand_path("$XDG_CONFIG_HOME/app.conf", &home, &e).unwrap(),
        "/home/u/.config/app.conf"
    );
}

#[test]
fn braced_var_expands() {
    let home = "/home/u".to_string();
    let e = env(&[("APP", "dotctl")]);
    assert_eq!(expand_path("/opt/${APP}/cfg", &home, &e).unwrap(), "/opt/dotctl/cfg");
}

#[test]
fn tilde_and_var_combine() {
    let home = "/home/u".to_string();
    let e = env(&[("APP", "dotctl")]);
    assert_eq!(expand_path("~/$APP/cfg", &home, &e).unwrap(), "/home/u/dotctl/cfg");
}

#[test]
fn unset_var_fails_with_original_string() {
    let home = "/home/u".to_string();
    let err = expand_path("$NO_SUCH_VARIABLE/x", &home, &env(&[])).unwrap_err();
    assert_eq!(err.input, "$NO_SUCH_VARIABLE/x");
}

#[test]
fn unterminated_brace_fails() {
    let home = "/home/u".to_string();
    let err = expand_path("${OOPS", &home, &env(&[("OOPS", "v")])).unwrap_err();
    assert_eq!(err.input, "${OOPS");
}

#[test]
fn empty_brace_name_fails() {
    let home = "/home/u".to_string();
    assert!(expand_path("${}", &home, &env(&[])).is_err());
}

#[test]
fn lone_dollar_is_literal() {
    let home = "/home/u".to_string();
    assert_eq!(expand_path("a$", &home, &env(&[])).unwrap(), "a$");
    assert_eq!(expand_path("a$/b", &home, &env(&[])).unwrap(), "a$/b");
}
