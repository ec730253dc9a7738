//! Shell scripts as conditions and actions: how a script is invoked, and how
//! what it left behind (exit code, output) is judged.
use vstd::prelude::*;
use vstd::string::*;
use vstd::utf8::*;

use crate::error::AppError;
use crate::section::{exit_codes_of, text_of_value, vec_i32_des, Section};

verus! {

/// Relies on core::str::from_utf8: it succeeds exactly on valid UTF-8, and
/// the text it returns has exactly the given bytes as its encoding.
pub assume_specification<'a>[ core::str::from_utf8 ](v: &'a [u8]) -> (r: Result<
    &'a str,
    core::str::Utf8Error,
>)
    ensures
        r is Ok <==> valid_utf8(v@),
        r matches Ok(s) ==> s.spec_bytes() == v@,
;

/// The exit codes that count as success where a section names none: `[0]`.
pub fn shell_default_exit_codes() -> (r: Vec<i32>)
    ensures
        r@ == seq![0i32],
{
    let mut r: Vec<i32> = Vec::new();
    r.push(0);
    assert(r@ =~= seq![0i32]);
    r
}

/// The interpreter where a section names none.
pub open spec fn default_shell() -> Seq<char> {
    "/bin/bash"@
}

/// The interpreter where a section names none: `/bin/bash`.
pub fn shell_default_shell() -> (r: String)
    ensures
        r@ == default_shell(),
{
    String::from_str("/bin/bash")
}

/// The token that a script presents to the blackboard's HTTP interface:
/// the correlation id of the condition or action that runs it, so that the
/// script can identify itself.
pub fn shell_sytter_token(id: &String) -> (r: String)
    ensures
        r@ == id@,
{
    id.clone()
}

/// Shell functions, put before every script, with which a script reads and
/// writes the blackboard through its HTTP interface.
pub open spec fn shell_functions() -> Seq<char> {
    "sytter_set() {\n  curl --silent --request POST --header 'Content-Type: application/json' --header \"Authorization: Bearer ${sytter_token}\" --data \"{\\\"key\\\": \\\"$1\\\", \\\"value\\\": \\\"$2\\\"}\" \"http://localhost:${sytter_port}/state\"\n}\n\nsytter_get() {\n  curl --silent --header 'Accept: application/text' --header \"Authorization: Bearer ${sytter_token}\" \"http://localhost:${sytter_port}/state\" | grep \"^$1=\" | head -n 1 | cut -d= -f2-\n}\n"@
}

/// The shell functions put before every script.
pub fn shell_communication_functions() -> (r: String)
    ensures
        r@ == shell_functions(),
{
    String::from_str(
        "sytter_set() {\n  curl --silent --request POST --header 'Content-Type: application/json' --header \"Authorization: Bearer ${sytter_token}\" --data \"{\\\"key\\\": \\\"$1\\\", \\\"value\\\": \\\"$2\\\"}\" \"http://localhost:${sytter_port}/state\"\n}\n\nsytter_get() {\n  curl --silent --header 'Accept: application/text' --header \"Authorization: Bearer ${sytter_token}\" \"http://localhost:${sytter_port}/state\" | grep \"^$1=\" | head -n 1 | cut -d= -f2-\n}\n",
    )
}

/// A script with the shell functions put before it.
pub open spec fn script_with_functions(script: Seq<char>) -> Seq<char> {
    shell_functions() + "\n"@ + script
}

/// The script with the shell functions put before it, on a line of their own.
pub fn with_shell_functions(script: &String) -> (r: String)
    ensures
        r@ == script_with_functions(script@),
{
    let mut r = shell_communication_functions();
    r.append("\n");
    r.append(script.as_str());
    r
}

/// The text whose UTF-8 encoding is `v`.
pub fn from_utf8(v: &Vec<u8>) -> (r: Result<String, AppError>)
    ensures
        r is Ok <==> valid_utf8(v@),
        r matches Ok(s) ==> encode_utf8(s@) == v@,
        r matches Err(e) ==> e is ShellUtf8ConversionError,
{
    match core::str::from_utf8(v.as_slice()) {
        Ok(s) => Ok(String::from_str(s)),
        Err(e) => Err(AppError::ShellUtf8ConversionError(e)),
    }
}

/// The decimal digit `d`.
pub open spec fn digit_char(d: nat) -> char {
    seq!['0', '1', '2', '3', '4', '5', '6', '7', '8', '9'][d as int]
}

/// The decimal numeral of `n`, without sign or leading zeros.
pub open spec fn decimal(n: nat) -> Seq<char>
    decreases n,
{
    if n < 10 {
        seq![digit_char(n)]
    } else {
        decimal(n / 10).push(digit_char(n % 10))
    }
}

/// The numeral of one decimal digit.
fn digit_string(d: usize) -> (r: String)
    requires
        d < 10,
    ensures
        r@ == seq![digit_char(d as nat)],
{
    let r = if d == 0 {
        String::from_str("0")
    } else if d == 1 {
        String::from_str("1")
    } else if d == 2 {
        String::from_str("2")
    } else if d == 3 {
        String::from_str("3")
    } else if d == 4 {
        String::from_str("4")
    } else if d == 5 {
        String::from_str("5")
    } else if d == 6 {
        String::from_str("6")
    } else if d == 7 {
        String::from_str("7")
    } else if d == 8 {
        String::from_str("8")
    } else {
        String::from_str("9")
    };
    proof {
        reveal_strlit("0");
        reveal_strlit("1");
        reveal_strlit("2");
        reveal_strlit("3");
        reveal_strlit("4");
        reveal_strlit("5");
        reveal_strlit("6");
        reveal_strlit("7");
        reveal_strlit("8");
        reveal_strlit("9");
        assert(r@ =~= seq![digit_char(d as nat)]);
    }
    r
}

/// The decimal numeral of `n`.
pub fn decimal_string(n: usize) -> (r: String)
    ensures
        r@ == decimal(n as nat),
    decreases n,
{
    if n < 10 {
        digit_string(n)
    } else {
        let mut r = decimal_string(n / 10);
        let d = digit_string(n % 10);
        r.append(d.as_str());
        proof {
            assert(r@ =~= decimal((n / 10) as nat).push(digit_char((n % 10) as nat)));
        }
        r
    }
}

/// How to start a script: the interpreter, its arguments and the environment
/// variables that the script receives.
#[derive(Debug)]
pub struct ShellInvocation {
    pub program: String,
    pub args: Vec<String>,
    pub envs: Vec<(String, String)>,
}

/// `r` starts `script` under `shell`: `<shell> -c <script>`, with the shell
/// functions before the script, the correlation id `id` as the token in the
/// variable `sytter_token`, and the HTTP port in `sytter_port`.
pub open spec fn is_invocation(
    r: ShellInvocation,
    http_port: usize,
    shell: Seq<char>,
    script: Seq<char>,
    id: Seq<char>,
) -> bool {
    &&& r.program@ == shell
    &&& r.args@.len() == 2
    &&& r.args@[0]@ == "-c"@
    &&& r.args@[1]@ == script_with_functions(script)
    &&& r.envs@.len() == 2
    &&& r.envs@[0].0@ == "sytter_token"@
    &&& r.envs@[0].1@ == id
    &&& r.envs@[1].0@ == "sytter_port"@
    &&& r.envs@[1].1@ == decimal(http_port as nat)
}

/// How a script with the given interpreter is started: `<shell> -c <script>`,
/// with the shell functions before the script, the correlation id `id` as
/// the token in `sytter_token`, and the HTTP port in `sytter_port`.
pub fn shell_invocation(http_port: usize, shell: &String, script: &String, id: &String) -> (r:
    ShellInvocation)
    ensures
        is_invocation(r, http_port, shell@, script@, id@),
{
    let mut args: Vec<String> = Vec::new();
    args.push(String::from_str("-c"));
    args.push(with_shell_functions(script));
    let mut envs: Vec<(String, String)> = Vec::new();
    envs.push((String::from_str("sytter_token"), shell_sytter_token(id)));
    envs.push((String::from_str("sytter_port"), decimal_string(http_port)));
    ShellInvocation { program: shell.clone(), args, envs }
}

/// What became of a script that was to run.
#[derive(Debug)]
pub enum ShellOutcome {
    /// The interpreter could not be started; why.
    SpawnFailed(String),
    /// The script ran: its exit code (none where a signal ended it) and the
    /// bytes it wrote to stdout and to stderr.
    Finished { code: Option<i32>, stdout: Vec<u8>, stderr: Vec<u8> },
}

/// Both outputs are UTF-8.
pub open spec fn outputs_valid(stdout: Seq<u8>, stderr: Seq<u8>) -> bool {
    valid_utf8(stdout) && valid_utf8(stderr)
}

/// `r` is the verdict on a condition script that finished with `code` and
/// these outputs.
pub open spec fn is_check_verdict(
    expected: Seq<i32>,
    code: Option<i32>,
    stdout: Seq<u8>,
    stderr: Seq<u8>,
    r: Result<bool, AppError>,
) -> bool {
    if !outputs_valid(stdout, stderr) {
        r matches Err(e) && e is ShellUtf8ConversionError
    } else {
        match code {
            None => r == Err::<bool, AppError>(AppError::ShellChildTerminatedError),
            Some(c) => r == Ok::<bool, AppError>(expected.contains(c)),
        }
    }
}

/// `r` is the verdict on an action script that finished with `code` and
/// these outputs.
pub open spec fn is_outputs_verdict(
    code: Option<i32>,
    stdout: Seq<u8>,
    stderr: Seq<u8>,
    r: Result<(String, String), AppError>,
) -> bool {
    if !outputs_valid(stdout, stderr) {
        r matches Err(e) && e is ShellUtf8ConversionError
    } else {
        match code {
            None => r == Err::<(String, String), AppError>(AppError::ShellChildTerminatedError),
            Some(c) => if c == 0 {
                r matches Ok((o, e)) && encode_utf8(o@) == stdout && encode_utf8(e@) == stderr
            } else {
                r matches Err(AppError::ShellExecError(o, e)) && encode_utf8(o@) == stdout
                    && encode_utf8(e@) == stderr
            },
        }
    }
}

/// Whether `c` is one of `codes`.
fn contains_code(codes: &Vec<i32>, c: i32) -> (r: bool)
    ensures
        r == codes@.contains(c),
{
    let mut i: usize = 0;
    while i < codes.len()
        invariant
            i <= codes.len(),
            forall|j: int| 0 <= j < i ==> codes@[j] != c,
        decreases codes.len() - i,
    {
        if codes[i] == c {
            assert(codes@[i as int] == c);
            return true;
        }
        i = i + 1;
    }
    false
}

/// Judges a condition script: spawn failures, output that is not UTF-8 and
/// a missing exit code are errors; otherwise the condition holds exactly
/// when the exit code is one of `expected_exit_codes`.
pub fn shell_exec_check(expected_exit_codes: &Vec<i32>, outcome: &ShellOutcome) -> (r: Result<
    bool,
    AppError,
>)
    ensures
        outcome matches ShellOutcome::SpawnFailed(m) ==> r == Err::<bool, AppError>(
            AppError::ShellSpawnError(*m),
        ),
        outcome matches ShellOutcome::Finished { code, stdout, stderr } ==> is_check_verdict(
            expected_exit_codes@,
            *code,
            stdout@,
            stderr@,
            r,
        ),
{
    match outcome {
        ShellOutcome::SpawnFailed(m) => Err(AppError::ShellSpawnError(m.clone())),
        ShellOutcome::Finished { code, stdout, stderr } => {
            let _out = from_utf8(stdout)?;
            let _err = from_utf8(stderr)?;
            match code {
                None => Err(AppError::ShellChildTerminatedError),
                Some(c) => Ok(contains_code(expected_exit_codes, *c)),
            }
        },
    }
}

/// Judges an action script: spawn failures, output that is not UTF-8 and a
/// missing exit code are errors; exit code 0 gives stdout and stderr, any
/// other code is an error that carries them.
pub fn shell_exec_outputs(outcome: &ShellOutcome) -> (r: Result<(String, String), AppError>)
    ensures
        outcome matches ShellOutcome::SpawnFailed(m) ==> r == Err::<(String, String), AppError>(
            AppError::ShellSpawnError(*m),
        ),
        outcome matches ShellOutcome::Finished { code, stdout, stderr } ==> is_outputs_verdict(
            *code,
            stdout@,
            stderr@,
            r,
        ),
{
    match outcome {
        ShellOutcome::SpawnFailed(m) => Err(AppError::ShellSpawnError(m.clone())),
        ShellOutcome::Finished { code, stdout, stderr } => {
            let out = from_utf8(stdout)?;
            let err = from_utf8(stderr)?;
            match code {
                None => Err(AppError::ShellChildTerminatedError),
                Some(c) => {
                    if *c == 0 {
                        Ok((out, err))
                    } else {
                        Err(AppError::ShellExecError(out, err))
                    }
                },
            }
        },
    }
}

/// `r` is the verdict on an action script that finished with `code` and
/// these outputs, the outputs themselves left aside.
pub open spec fn is_action_verdict(
    code: Option<i32>,
    stdout: Seq<u8>,
    stderr: Seq<u8>,
    r: Result<(), AppError>,
) -> bool {
    if !outputs_valid(stdout, stderr) {
        r matches Err(e) && e is ShellUtf8ConversionError
    } else {
        match code {
            None => r == Err::<(), AppError>(AppError::ShellChildTerminatedError),
            Some(c) => if c == 0 {
                r is Ok
            } else {
                r matches Err(AppError::ShellExecError(o, e)) && encode_utf8(o@) == stdout
                    && encode_utf8(e@) == stderr
            },
        }
    }
}

/// Runs an action's judgement and keeps only whether it succeeded.
fn action_result(outcome: &ShellOutcome) -> (r: Result<(), AppError>)
    ensures
        outcome matches ShellOutcome::SpawnFailed(m) ==> r == Err::<(), AppError>(
            AppError::ShellSpawnError(*m),
        ),
        outcome matches ShellOutcome::Finished { code, stdout, stderr } ==> is_action_verdict(
            *code,
            stdout@,
            stderr@,
            r,
        ),
{
    match shell_exec_outputs(outcome) {
        Ok(_) => Ok(()),
        Err(e) => Err(e),
    }
}

/// Relies on uuid's `Uuid::new_v4` and its `Display`: a fresh random
/// identifier, written in the 36-character hyphenated form.
#[verifier::external_body]
fn new_correlation_id() -> (r: String)
    ensures
        r@.len() == 36,
{
    uuid::Uuid::new_v4().to_string()
}

/// The interpreter that a field names, or the default one.
pub open spec fn shell_or_default(t: Option<Seq<char>>) -> Seq<char> {
    match t {
        Some(s) => s,
        None => default_shell(),
    }
}

/// The message of a section that lacks its script.
pub open spec fn missing_script_message(component: Seq<char>) -> Seq<char> {
    "Field 'script' missing from "@ + component + "."@
}

/// The fields of a shell section: a fresh identifier, the exit codes, the
/// script and the interpreter.
pub struct ShellFields {
    pub id: String,
    pub expected_exit_codes: Vec<i32>,
    pub script: String,
    pub shell: String,
}

/// `f` holds what `section` gives: its script, its interpreter or the
/// default one, its exit codes or `[0]`, and an identifier of 36 characters.
pub open spec fn is_shell_fields(section: Section, f: ShellFields) -> bool {
    &&& text_of_value(section.spec_field("script"@)) == Some(f.script@)
    &&& f.shell@ == shell_or_default(text_of_value(section.spec_field("shell"@)))
    &&& f.expected_exit_codes@ == exit_codes_of(section.spec_field("expected_exit_codes"@))
    &&& f.id@.len() == 36
}

/// `r` is what parsing a shell section for `component` gives.
pub open spec fn is_shell_parse(section: Section, component: Seq<char>, r: Result<ShellFields, AppError>) -> bool {
    &&& r is Err <==> text_of_value(section.spec_field("script"@)) is None
    &&& r matches Err(e) ==> (e matches AppError::SytterDeserializeRawError(m) && m@
        == missing_script_message(component))
    &&& r matches Ok(f) ==> is_shell_fields(section, f)
}

/// Reads a shell section; `component` names the slot in error messages.
fn shell_fields(section: &Section, component: &str) -> (r: Result<ShellFields, AppError>)
    ensures
        is_shell_parse(*section, component@, r),
{
    let script = match section.get_str("script") {
        Some(s) => s,
        None => {
            let mut m = String::from_str("Field 'script' missing from ");
            m.append(component);
            m.append(".");
            return Err(AppError::SytterDeserializeRawError(m));
        },
    };
    let shell = match section.get_str("shell") {
        Some(s) => s,
        None => shell_default_shell(),
    };
    let expected_exit_codes = match section.position("expected_exit_codes") {
        Some(i) => vec_i32_des(Some(&section.entries[i].1)),
        None => vec_i32_des(None),
    };
    Ok(ShellFields { id: new_correlation_id(), expected_exit_codes, script, shell })
}

/// A condition that holds when its script exits with one of the expected codes.
#[derive(Clone, Debug)]
pub struct ShellCondition {
    pub id: String,
    pub expected_exit_codes: Vec<i32>,
    pub script: String,
    pub shell: String,
}

/// An action that succeeds when its script exits with code 0.
#[derive(Clone, Debug)]
pub struct ShellExecutor {
    pub id: String,
    pub expected_exit_codes: Vec<i32>,
    pub script: String,
    pub shell: String,
}

/// A failure handler that runs a script and succeeds when it exits with code 0.
#[derive(Clone, Debug)]
pub struct ShellFailure {
    pub id: String,
    pub expected_exit_codes: Vec<i32>,
    pub script: String,
    pub shell: String,
}

/// Reads a shell condition section.
pub fn shell_condition_toml_deserialize(section: &Section) -> (r: Result<ShellCondition, AppError>)
    ensures
        is_shell_parse(
            *section,
            "Condition"@,
            match r {
                Ok(c) => Ok(
                    ShellFields {
                        id: c.id,
                        expected_exit_codes: c.expected_exit_codes,
                        script: c.script,
                        shell: c.shell,
                    },
                ),
                Err(e) => Err(e),
            },
        ),
{
    match shell_fields(section, "Condition") {
        Ok(f) => Ok(
            ShellCondition {
                id: f.id,
                expected_exit_codes: f.expected_exit_codes,
                script: f.script,
                shell: f.shell,
            },
        ),
        Err(e) => Err(e),
    }
}

/// Reads a shell executor section.
pub fn shell_executor_toml_deserialize(section: &Section) -> (r: Result<ShellExecutor, AppError>)
    ensures
        is_shell_parse(
            *section,
            "Executor"@,
            match r {
                Ok(c) => Ok(
                    ShellFields {
                        id: c.id,
                        expected_exit_codes: c.expected_exit_codes,
                        script: c.script,
                        shell: c.shell,
                    },
                ),
                Err(e) => Err(e),
            },
        ),
{
    match shell_fields(section, "Executor") {
        Ok(f) => Ok(
            ShellExecutor {
                id: f.id,
                expected_exit_codes: f.expected_exit_codes,
                script: f.script,
                shell: f.shell,
            },
        ),
        Err(e) => Err(e),
    }
}

/// Reads a shell failure section.
pub fn shell_failure_toml_deserialize(section: &Section) -> (r: Result<ShellFailure, AppError>)
    ensures
        is_shell_parse(
            *section,
            "Failure"@,
            match r {
                Ok(c) => Ok(
                    ShellFields {
                        id: c.id,
                        expected_exit_codes: c.expected_exit_codes,
                        script: c.script,
                        shell: c.shell,
                    },
                ),
                Err(e) => Err(e),
            },
        ),
{
    match shell_fields(section, "Failure") {
        Ok(f) => Ok(
            ShellFailure {
                id: f.id,
                expected_exit_codes: f.expected_exit_codes,
                script: f.script,
                shell: f.shell,
            },
        ),
        Err(e) => Err(e),
    }
}

impl ShellCondition {
    /// How this condition's script is started; it receives this condition's
    /// correlation id as its token.
    pub fn invocation(&self, http_port: usize) -> (r: ShellInvocation)
        ensures
            is_invocation(r, http_port, self.shell@, self.script@, self.id@),
    {
        shell_invocation(http_port, &self.shell, &self.script, &self.id)
    }

    /// Whether the condition holds, judged from what its script left behind.
    pub fn check_condition(&self, outcome: &ShellOutcome) -> (r: Result<bool, AppError>)
        ensures
            outcome matches ShellOutcome::SpawnFailed(m) ==> r == Err::<bool, AppError>(
                AppError::ShellSpawnError(*m),
            ),
            outcome matches ShellOutcome::Finished { code, stdout, stderr } ==> is_check_verdict(
                self.expected_exit_codes@,
                *code,
                stdout@,
                stderr@,
                r,
            ),
    {
        shell_exec_check(&self.expected_exit_codes, outcome)
    }
}

impl ShellExecutor {
    /// How this action's script is started; it receives this action's
    /// correlation id as its token.
    pub fn invocation(&self, http_port: usize) -> (r: ShellInvocation)
        ensures
            is_invocation(r, http_port, self.shell@, self.script@, self.id@),
    {
        shell_invocation(http_port, &self.shell, &self.script, &self.id)
    }

    /// Whether the action succeeded, judged from what its script left behind.
    pub fn execute(&self, outcome: &ShellOutcome) -> (r: Result<(), AppError>)
        ensures
            outcome matches ShellOutcome::SpawnFailed(m) ==> r == Err::<(), AppError>(
                AppError::ShellSpawnError(*m),
            ),
            outcome matches ShellOutcome::Finished { code, stdout, stderr } ==> is_action_verdict(
                *code,
                stdout@,
                stderr@,
                r,
            ),
    {
        action_result(outcome)
    }
}

impl ShellFailure {
    /// How this handler's script is started; it receives this handler's
    /// correlation id as its token.
    pub fn invocation(&self, http_port: usize) -> (r: ShellInvocation)
        ensures
            is_invocation(r, http_port, self.shell@, self.script@, self.id@),
    {
        shell_invocation(http_port, &self.shell, &self.script, &self.id)
    }

    /// Whether the handler succeeded, judged from what its script left behind.
    pub fn execute(&self, outcome: &ShellOutcome) -> (r: Result<(), AppError>)
        ensures
            outcome matches ShellOutcome::SpawnFailed(m) ==> r == Err::<(), AppError>(
                AppError::ShellSpawnError(*m),
            ),
            outcome matches ShellOutcome::Finished { code, stdout, stderr } ==> is_action_verdict(
                *code,
                stdout@,
                stderr@,
                r,
            ),
    {
        action_result(outcome)
    }
}

} // verus!
