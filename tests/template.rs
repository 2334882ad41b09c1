use judger::template::substitute_vars;

fn vars() -> Vec<(String, String)> {
    vec![
        ("test".to_string(), "t1".to_string()),
        ("dir".to_string(), "/d".to_string()),
        ("test".to_string(), "shadowed".to_string()),
    ]
}

#[test]
fn placeholders_are_filled() {
    assert_eq!(
        substitute_vars("run ${test} --in ${dir}/x", &vars()),
        "run t1 --in /d/x"
    );
}

#[test]
fn unknown_and_unclosed_placeholders_stay() {
    assert_eq!(substitute_vars("${missing} ${}", &vars()), "${missing} ${}");
    assert_eq!(substitute_vars("echo ${test", &vars()), "echo ${test");
    assert_eq!(substitute_vars("$${test}$", &vars()), "$t1$");
    assert_eq!(substitute_vars("", &vars()), "");
    assert_eq!(substitute_vars("plain $HOME", &vec![]), "plain $HOME");
}
