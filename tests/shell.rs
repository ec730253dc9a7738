use sytter::error::AppError;
use sytter::section::{Section, SectionValue};
use sytter::shell::{
    decimal_string,
    from_utf8, shell_communication_functions, shell_condition_toml_deserialize,
    shell_default_exit_codes, shell_default_shell, shell_exec_check, shell_exec_outputs,
    shell_executor_toml_deserialize, shell_failure_toml_deserialize, shell_invocation,
    shell_sytter_token, with_shell_functions, ShellOutcome,
};

fn finished(code: Option<i32>, stdout: &str, stderr: &str) -> ShellOutcome {
    ShellOutcome::Finished {
        code,
        stdout: stdout.as_bytes().to_vec(),
        stderr: stderr.as_bytes().to_vec(),
    }
}

fn section(fields: Vec<(&str, SectionValue)>) -> Section {
    Section { entries: fields.into_iter().map(|(k, v)| (k.to_string(), v)).collect() }
}

fn text(s: &str) -> SectionValue {
    SectionValue::Text(s.to_string())
}

#[test]
fn defaults() {
    assert_eq!(shell_default_exit_codes(), vec![0]);
    assert_eq!(shell_default_shell(), "/bin/bash");
    assert_eq!(shell_sytter_token(&"id-1".to_string()), "id-1");
}

#[test]
fn script_gets_functions_first() {
    let s = with_shell_functions(&"echo ok".to_string());
    let f = shell_communication_functions();
    assert!(f.contains("sytter_set()"));
    assert!(f.contains("sytter_get()"));
    assert_eq!(s, format!("{}\n{}", f, "echo ok"));
}

#[test]
fn utf8_conversion() {
    assert_eq!(from_utf8(&"héllo".as_bytes().to_vec()).unwrap(), "héllo");
    assert_eq!(from_utf8(&vec![]).unwrap(), "");
    assert!(matches!(
        from_utf8(&vec![0x66, 0xff, 0x66]),
        Err(AppError::ShellUtf8ConversionError(_))
    ));
}

#[test]
fn invocation_carries_token_and_port() {
    let inv = shell_invocation(8080, &"/bin/sh".to_string(), &"exit 0".to_string(), &"abc".to_string());
    assert_eq!(inv.program, "/bin/sh");
    assert_eq!(inv.args.len(), 2);
    assert_eq!(inv.args[0], "-c");
    assert_eq!(inv.args[1], with_shell_functions(&"exit 0".to_string()));
    assert_eq!(inv.envs[0], ("sytter_token".to_string(), "abc".to_string()));
    assert_eq!(inv.envs[1], ("sytter_port".to_string(), "8080".to_string()));
    let zero = shell_invocation(0, &"/bin/sh".to_string(), &"".to_string(), &"".to_string());
    assert_eq!(zero.envs[1].1, "0");
    let big = shell_invocation(1234567890, &"/bin/sh".to_string(), &"".to_string(), &"".to_string());
    assert_eq!(big.envs[1].1, "1234567890");
}

#[test]
fn check_judges_exit_codes() {
    let expected = vec![0];
    assert_eq!(shell_exec_check(&expected, &finished(Some(0), "", "")), Ok(true));
    assert_eq!(shell_exec_check(&expected, &finished(Some(1), "", "")), Ok(false));
    assert_eq!(shell_exec_check(&vec![1, 7], &finished(Some(7), "", "")), Ok(true));
    assert_eq!(shell_exec_check(&vec![], &finished(Some(0), "", "")), Ok(false));
    assert_eq!(
        shell_exec_check(&expected, &finished(None, "", "")),
        Err(AppError::ShellChildTerminatedError)
    );
    assert_eq!(
        shell_exec_check(&expected, &ShellOutcome::SpawnFailed("no such file".to_string())),
        Err(AppError::ShellSpawnError("no such file".to_string()))
    );
    let bad = ShellOutcome::Finished { code: Some(0), stdout: vec![0xc3], stderr: vec![] };
    assert!(matches!(
        shell_exec_check(&expected, &bad),
        Err(AppError::ShellUtf8ConversionError(_))
    ));
}

#[test]
fn outputs_judges_exit_codes() {
    assert_eq!(
        shell_exec_outputs(&finished(Some(0), "ok\n", "")),
        Ok(("ok\n".to_string(), "".to_string()))
    );
    assert_eq!(
        shell_exec_outputs(&finished(Some(7), "out", "err")),
        Err(AppError::ShellExecError("out".to_string(), "err".to_string()))
    );
    assert_eq!(
        shell_exec_outputs(&finished(None, "", "")),
        Err(AppError::ShellChildTerminatedError)
    );
    let bad = ShellOutcome::Finished { code: Some(0), stdout: vec![], stderr: vec![0xfe] };
    assert!(matches!(shell_exec_outputs(&bad), Err(AppError::ShellUtf8ConversionError(_))));
}

#[test]
fn shell_section_defaults() {
    let c = shell_condition_toml_deserialize(&section(vec![("kind", text("shell")), ("script", text("exit 0"))]))
        .unwrap();
    assert_eq!(c.script, "exit 0");
    assert_eq!(c.shell, "/bin/bash");
    assert_eq!(c.expected_exit_codes, vec![0]);
    assert_eq!(c.id.len(), 36);
    let d = shell_condition_toml_deserialize(&section(vec![("script", text("exit 0"))])).unwrap();
    assert_ne!(c.id, d.id);
}

#[test]
fn shell_section_fields() {
    let e = shell_executor_toml_deserialize(&section(vec![
        ("script", text("echo ok")),
        ("shell", text("/bin/zsh")),
        ("expected_exit_codes", SectionValue::List(vec![SectionValue::Integer(0), SectionValue::Integer(3)])),
    ]))
    .unwrap();
    assert_eq!(e.shell, "/bin/zsh");
    assert_eq!(e.expected_exit_codes, vec![0, 3]);
    let mixed = shell_failure_toml_deserialize(&section(vec![
        ("script", text("x")),
        ("expected_exit_codes", SectionValue::List(vec![SectionValue::Integer(2), text("3")])),
    ]))
    .unwrap();
    assert_eq!(mixed.expected_exit_codes, vec![0]);
    let wide = shell_failure_toml_deserialize(&section(vec![
        ("script", text("x")),
        ("expected_exit_codes", SectionValue::List(vec![SectionValue::Integer(4294967297)])),
    ]))
    .unwrap();
    assert_eq!(wide.expected_exit_codes, vec![1]);
}

#[test]
fn shell_section_without_script() {
    let s = section(vec![("kind", text("shell")), ("script", SectionValue::Integer(3))]);
    assert_eq!(
        shell_condition_toml_deserialize(&s).unwrap_err(),
        AppError::SytterDeserializeRawError("Field 'script' missing from Condition.".to_string())
    );
    assert_eq!(
        shell_executor_toml_deserialize(&s).unwrap_err(),
        AppError::SytterDeserializeRawError("Field 'script' missing from Executor.".to_string())
    );
    assert_eq!(
        shell_failure_toml_deserialize(&section(vec![])).unwrap_err(),
        AppError::SytterDeserializeRawError("Field 'script' missing from Failure.".to_string())
    );
}

#[test]
fn plugins_judge_outcomes() {
    let c = shell_condition_toml_deserialize(&section(vec![
        ("script", text("exit 1")),
        ("expected_exit_codes", SectionValue::List(vec![SectionValue::Integer(1)])),
    ]))
    .unwrap();
    assert_eq!(c.check_condition(&finished(Some(1), "", "")), Ok(true));
    assert_eq!(c.check_condition(&finished(Some(0), "", "")), Ok(false));
    assert_eq!(c.invocation(9000).envs[1].1, "9000");
    assert_eq!(c.invocation(9000).envs[0].1, c.id);
    let e = shell_executor_toml_deserialize(&section(vec![("script", text("exit 7"))])).unwrap();
    assert_eq!(e.execute(&finished(Some(0), "", "")), Ok(()));
    assert_eq!(
        e.execute(&finished(Some(7), "", "boom")),
        Err(AppError::ShellExecError("".to_string(), "boom".to_string()))
    );
    let f = shell_failure_toml_deserialize(&section(vec![("script", text("true"))])).unwrap();
    assert_eq!(f.execute(&finished(Some(0), "", "")), Ok(()));
    assert_eq!(f.invocation(1).envs[0].1, f.id);
    assert_eq!(e.invocation(1).envs[0].1, e.id);
    assert_eq!(f.execute(&finished(None, "", "")), Err(AppError::ShellChildTerminatedError));
}

#[test]
fn decimal_numerals() {
    assert_eq!(decimal_string(0), "0");
    assert_eq!(decimal_string(9), "9");
    assert_eq!(decimal_string(10), "10");
    assert_eq!(decimal_string(8080), "8080");
    assert_eq!(decimal_string(usize::MAX), usize::MAX.to_string());
}
