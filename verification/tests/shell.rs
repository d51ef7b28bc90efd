use tomsh::builtins::{run_cd, run_pwd, run_whoami};
use tomsh::command::{parse_input, Action, Command};
use tomsh::dispatch::run_command;
use tomsh::launch::{get_environment_for_exec, launch_action, resolve_command, status_is_regular, try_exec};
use tomsh::state::{init, new_environment, prompt_string, Environment};

fn env_with(pwd: &str, user: &str, home: &str, path: &str) -> Environment {
    Environment {
        pwd: String::from(pwd),
        user: String::from(user),
        home: String::from(home),
        path: String::from(path),
    }
}

fn assert_env_eq(a: &Environment, pwd: &str, user: &str, home: &str, path: &str) {
    assert_eq!(a.pwd, pwd);
    assert_eq!(a.user, user);
    assert_eq!(a.home, home);
    assert_eq!(a.path, path);
}

#[test]
fn parse_two_tokens() {
    let c = parse_input(String::from("echo hi"));
    assert_eq!(c.cmd, "echo");
    assert_eq!(c.args, vec![String::from("echo"), String::from("hi")]);
}

#[test]
fn parse_keeps_empty_tokens() {
    let c = parse_input(String::from("a  b"));
    assert_eq!(c.cmd, "a");
    assert_eq!(c.args, vec![String::from("a"), String::from(""), String::from("b")]);
}

#[test]
fn parse_empty_line() {
    let c = parse_input(String::from(""));
    assert_eq!(c.cmd, "");
    assert_eq!(c.args, vec![String::from("")]);
}

#[test]
fn parse_leading_and_trailing_spaces() {
    let c = parse_input(String::from(" x "));
    assert_eq!(c.cmd, "");
    assert_eq!(c.args, vec![String::from(""), String::from("x"), String::from("")]);
}

#[test]
fn parse_count_matches_space_delimited_fields() {
    for line in ["", "a", "a b", "a  b", "cd /tmp", "x y z w", "   "] {
        let spaces = line.chars().filter(|c| *c == ' ').count();
        let parsed = parse_input(String::from(line));
        assert_eq!(parsed.args.len(), spaces + 1);
    }
}

#[test]
fn prompt_is_pwd_and_dollar() {
    let env = env_with("/home/u", "u", "/home/u", "/bin:/usr/bin");
    assert_eq!(prompt_string(&env), "/home/u$ ");
}

#[test]
fn new_environment_starts_at_home() {
    let env = new_environment(String::from("u"), String::from("/home/u"));
    assert_env_eq(&env, "/home/u", "u", "/home/u", "/bin:/usr/bin");
}

#[test]
fn init_starts_at_home_with_default_path() {
    // Startup fails when the current identity has no usable database entry;
    // when it succeeds, the session starts at home with the default path.
    if let Some(env) = init() {
        assert_eq!(env.pwd, env.home);
        assert_eq!(env.path, "/bin:/usr/bin");
    }
}

#[test]
fn pwd_reports_working_directory_unchanged_state() {
    let mut env = env_with("/somewhere", "u", "/home/u", "/bin:/usr/bin");
    let action = run_command(&parse_input(String::from("pwd")), &mut env);
    match action {
        Action::PrintOut(line) => assert_eq!(line, "/somewhere"),
        _ => panic!("pwd must print one line"),
    }
    assert_env_eq(&env, "/somewhere", "u", "/home/u", "/bin:/usr/bin");
}

#[test]
fn whoami_reports_user() {
    let mut env = env_with("/", "someone", "/", "/bin:/usr/bin");
    let action = run_command(&parse_input(String::from("whoami")), &mut env);
    match action {
        Action::PrintOut(line) => assert_eq!(line, "someone"),
        _ => panic!("whoami must print one line"),
    }
}

#[test]
fn cd_then_pwd_reports_exact_target() {
    let mut env = env_with("/", "u", "/", "/bin:/usr/bin");
    let action = run_command(&parse_input(String::from("cd /tmp")), &mut env);
    assert!(matches!(action, Action::Silent));
    assert_eq!(env.pwd, "/tmp");
    match run_pwd(&env) {
        Action::PrintOut(line) => assert_eq!(line, "/tmp"),
        _ => panic!("pwd must print one line"),
    }
}

#[test]
fn cd_to_missing_path_leaves_state_and_diagnoses_once() {
    let mut env = env_with("/before", "u", "/home/u", "/bin:/usr/bin");
    let action = run_cd(&parse_input(String::from("cd /no/such/path-here")), &mut env);
    assert!(matches!(action, Action::PrintErr(_)));
    assert_env_eq(&env, "/before", "u", "/home/u", "/bin:/usr/bin");
    match run_pwd(&env) {
        Action::PrintOut(line) => assert_eq!(line, "/before"),
        _ => panic!("pwd must print one line"),
    }
}

#[test]
fn cd_to_file_is_not_a_directory() {
    let mut env = env_with("/before", "u", "/home/u", "/bin:/usr/bin");
    let action = run_cd(&parse_input(String::from("cd /bin/sh")), &mut env);
    match action {
        Action::PrintErr(line) => assert_eq!(line, "/bin/sh is not a directory!"),
        _ => panic!("cd to a file must be refused"),
    }
    assert_eq!(env.pwd, "/before");
}

#[test]
fn cd_without_argument_goes_home() {
    let mut env = env_with("/", "u", "/tmp", "/bin:/usr/bin");
    let action = run_cd(&parse_input(String::from("cd")), &mut env);
    assert!(matches!(action, Action::Silent));
    assert_eq!(env.pwd, "/tmp");
}

#[test]
fn resolver_finds_first_hit_left_to_right() {
    let (found, record) = resolve_command("sh", "/bin:/usr/bin");
    assert_eq!(found, Some(String::from("/bin/sh")));
    // The search stopped at the first directory: /usr/bin was never tried.
    assert_eq!(record.len(), 1);
    assert!(record[0].is_ok());
}

#[test]
fn resolver_skips_directories_without_a_hit() {
    let (found, record) = resolve_command("sh", "/no-such-dir:/bin");
    assert_eq!(found, Some(String::from("/bin/sh")));
    assert_eq!(record.len(), 2);
    assert!(record[0].is_err());
}

#[test]
fn resolver_reports_not_found() {
    let (found, record) = resolve_command("no-such-command-here", "/bin:/usr/bin");
    assert_eq!(found, None);
    // Both directories were tried before giving up.
    assert_eq!(record.len(), 2);
}

#[test]
fn only_the_regular_file_tag_is_a_hit() {
    assert!(status_is_regular(&Ok(0o100644)));
    assert!(status_is_regular(&Ok(0o100755)));
    assert!(!status_is_regular(&Ok(0o040755))); // a directory
    assert!(!status_is_regular(&Ok(0o120777))); // a symbolic link
    assert!(!status_is_regular(&Err(String::from("no such file"))));
}

#[test]
fn launch_action_follows_resolution_exactly() {
    let env = env_with("/home/u", "u", "/home/u", "/bin:/usr/bin");
    let cmd = parse_input(String::from("tool arg"));
    match launch_action(&cmd, &env, Some(String::from("/bin/tool"))) {
        Action::Launch(plan) => {
            assert_eq!(plan.path, "/bin/tool");
            assert_eq!(plan.args, vec![String::from("tool"), String::from("arg")]);
            assert_eq!(plan.env_vars.len(), 4);
        }
        _ => panic!("a resolved path must give a launch plan"),
    }
    match launch_action(&cmd, &env, None) {
        Action::PrintErr(line) => assert_eq!(line, "command not found: tool"),
        _ => panic!("no resolution must give the diagnostic"),
    }
}

#[test]
fn unknown_command_is_diagnosed() {
    let mut env = env_with("/", "u", "/", "/bin:/usr/bin");
    let action = run_command(&parse_input(String::from("no-such-command-here")), &mut env);
    match action {
        Action::PrintErr(line) => assert_eq!(line, "command not found: no-such-command-here"),
        _ => panic!("an unresolved command must be diagnosed"),
    }
}

#[test]
fn environment_vector_is_exactly_four_entries() {
    let env = env_with("/home/u", "u", "/home/u", "/bin:/usr/bin");
    let entries = get_environment_for_exec(&env);
    assert_eq!(
        entries,
        vec![
            String::from("PWD=/home/u"),
            String::from("HOME=/home/u"),
            String::from("USER=u"),
            String::from("PATH=/bin:/usr/bin"),
        ]
    );
}

#[test]
fn launch_plan_carries_path_filtered_args_and_environment() {
    let env = env_with("/home/u", "u", "/home/u", "/bin:/usr/bin");
    let cmd = parse_input(String::from("sh  -c"));
    assert_eq!(cmd.args, vec![String::from("sh"), String::from(""), String::from("-c")]);
    let action = try_exec(&cmd, &env);
    match action {
        Action::Launch(plan) => {
            assert_eq!(plan.path, "/bin/sh");
            assert_eq!(plan.args, vec![String::from("sh"), String::from("-c")]);
            assert_eq!(plan.env_vars.len(), 4);
            assert_eq!(plan.env_vars[0], "PWD=/home/u");
        }
        _ => panic!("a resolvable command must give a launch plan"),
    }
}

#[test]
fn exit_prints_fixed_farewell_regardless_of_state() {
    let farewell_one = "Thanks for using TomSH";
    let farewell_two =
        "Your kernel is going to panic now as it doesn't like it when your init proces exits";
    for (pwd, user) in [("/", "root"), ("/somewhere/else", "nobody")] {
        let mut env = env_with(pwd, user, "/h", "/bin");
        let action = run_command(&parse_input(String::from("exit")), &mut env);
        match action {
            Action::Exit(a, b) => {
                assert_eq!(a, farewell_one);
                assert_eq!(b, farewell_two);
            }
            _ => panic!("exit must ask for termination"),
        }
        assert_env_eq(&env, pwd, user, "/h", "/bin");
    }
}

#[test]
fn empty_line_is_a_silent_no_op() {
    let mut env = env_with("/x", "u", "/h", "/bin");
    let action = run_command(&parse_input(String::from("")), &mut env);
    assert!(matches!(action, Action::Silent));
    assert_env_eq(&env, "/x", "u", "/h", "/bin");
}

#[test]
fn only_exit_asks_for_termination() {
    let mut env = env_with("/", "u", "/", "/bin:/usr/bin");
    for line in ["pwd", "whoami", "", "cd /tmp", "no-such-command-here"] {
        let action = run_command(&parse_input(String::from(line)), &mut env);
        assert!(!matches!(action, Action::Exit(_, _)));
    }
}

#[test]
fn whoami_output_built_by_hand_matches_dispatch() {
    let env = env_with("/", "carol", "/", "/bin");
    match run_whoami(&env) {
        Action::PrintOut(line) => assert_eq!(line, "carol"),
        _ => panic!("whoami must print one line"),
    }
}

#[test]
fn command_holds_name_at_index_zero() {
    let c = Command { cmd: String::from("ls"), args: vec![String::from("ls"), String::from("-l")] };
    assert_eq!(c.args[0], c.cmd);
}
