use journal::command::{parse_command, Command};
use journal::config::{storage_path, Config};
use journal::date::{date_key, Date};
use journal::plan::{
    bootstrap_plan, dispatch, editor_failure_message, help_message, init_done_message,
    prompt_message, register_remote_call, remote_query_call, Dispatch, ProcessCall, SetupAction,
};

fn fixed_date() -> Date {
    Date::new(2024, 3, 7).unwrap()
}

fn fixed_config() -> Config {
    Config::new(
        "/home/user",
        String::from("git@example.com:user/journal.git"),
        &fixed_date(),
    )
}

fn call_args(call: &ProcessCall) -> Vec<&str> {
    call.args.iter().map(|a| a.as_str()).collect()
}

#[test]
fn storage_path_appends_fixed_suffix() {
    assert_eq!(
        storage_path("/home/user"),
        "/home/user/.local/share/journal"
    );
    assert_eq!(storage_path(""), "/.local/share/journal");
}

#[test]
fn date_key_zero_pads_day_and_month() {
    assert_eq!(date_key(&fixed_date()), "07-03-2024");
}

#[test]
fn date_key_keeps_two_digit_day_and_month() {
    let d = Date::new(1999, 12, 31).unwrap();
    assert_eq!(date_key(&d), "31-12-1999");
}

#[test]
fn date_key_pads_year_to_four_digits() {
    let d = Date::new(7, 1, 2).unwrap();
    assert_eq!(date_key(&d), "02-01-0007");
    let d = Date::new(987, 11, 20).unwrap();
    assert_eq!(date_key(&d), "20-11-0987");
}

#[test]
fn date_key_renders_negative_years_with_sign() {
    let d = Date::new(-44, 3, 15).unwrap();
    assert_eq!(date_key(&d), "15-03--0044");
}

#[test]
fn date_new_rejects_out_of_range_components() {
    assert!(Date::new(2024, 0, 7).is_none());
    assert!(Date::new(2024, 13, 7).is_none());
    assert!(Date::new(2024, 3, 0).is_none());
    assert!(Date::new(2024, 3, 32).is_none());
    assert!(Date::new(2024, 1, 1).is_some());
    assert!(Date::new(2024, 12, 31).is_some());
}

#[test]
fn config_carries_path_key_and_url() {
    let c = fixed_config();
    assert_eq!(c.path_string, "/home/user/.local/share/journal");
    assert_eq!(c.date_string, "07-03-2024");
    assert_eq!(c.git_remote_url, "git@example.com:user/journal.git");
}

#[test]
fn entry_path_is_date_keyed() {
    let c = fixed_config();
    assert_eq!(
        c.entry_path(),
        "/home/user/.local/share/journal/07-03-2024.txt"
    );
}

#[test]
fn commit_message_embeds_date_key() {
    assert_eq!(fixed_config().commit_message(), "journal saved on 07-03-2024");
}

#[test]
fn resolve_config_uses_todays_date() {
    let c = journal::config::resolve_config("/home/user", String::from("url"));
    assert_eq!(c.path_string, "/home/user/.local/share/journal");
    assert_eq!(c.git_remote_url, "url");
    let key: Vec<char> = c.date_string.chars().collect();
    assert!(key.len() >= 10);
    assert_eq!(key[2], '-');
    assert_eq!(key[5], '-');
    assert!(key[0].is_ascii_digit() && key[1].is_ascii_digit());
    assert!(key[3].is_ascii_digit() && key[4].is_ascii_digit());
}

#[test]
fn idempotent_bootstrap() {
    let path = String::from("/home/user/.local/share/journal");
    let first = bootstrap_plan(&path, true);
    let second = bootstrap_plan(&path, true);
    for plan in [&first, &second] {
        assert_eq!(plan.len(), 1);
        match &plan[0] {
            SetupAction::EnterDirectory { path: p } => assert_eq!(p, &path),
            _ => panic!("fast path must only enter the directory"),
        }
    }
    for plan in [&first, &second] {
        assert!(!plan
            .iter()
            .any(|a| matches!(a, SetupAction::PromptRemoteUrl)));
        assert!(!plan.iter().any(|a| matches!(a, SetupAction::Run { .. })));
    }
}

#[test]
fn first_run_side_effects() {
    let path = String::from("/home/user/.local/share/journal");
    let plan = bootstrap_plan(&path, false);
    assert_eq!(plan.len(), 5);
    match &plan[0] {
        SetupAction::Announce { message } => assert_eq!(
            message,
            "Initializing a directory for storing journals in /home/user/.local/share/journal..."
        ),
        _ => panic!("first run must announce itself first"),
    }
    match &plan[1] {
        SetupAction::CreateDirectory { path: p } => assert_eq!(p, &path),
        _ => panic!("first run must create the directory"),
    }
    match &plan[2] {
        SetupAction::EnterDirectory { path: p } => assert_eq!(p, &path),
        _ => panic!("first run must enter the directory"),
    }
    match &plan[3] {
        SetupAction::Run { call } => {
            assert_eq!(call.program, "git");
            assert_eq!(call_args(call), ["init"]);
        }
        _ => panic!("first run must initialize the repository"),
    }
    assert!(matches!(plan[4], SetupAction::PromptRemoteUrl));
    let prompts = plan
        .iter()
        .filter(|a| matches!(a, SetupAction::PromptRemoteUrl))
        .count();
    assert_eq!(prompts, 1);
    let register = register_remote_call("https://example.com/user/journal.git");
    assert_eq!(register.program, "git");
    assert_eq!(
        call_args(&register),
        ["remote", "add", "origin", "https://example.com/user/journal.git"]
    );
}

#[test]
fn remote_query_reads_origin_url() {
    let call = remote_query_call();
    assert_eq!(call.program, "git");
    assert_eq!(call_args(&call), ["remote", "get-url", "origin"]);
}

#[test]
fn date_keyed_file_naming() {
    let cmd = Command::Write {
        editor: String::from("vim"),
    };
    match dispatch(cmd, &fixed_config()) {
        Dispatch::Edit { call } => {
            assert_eq!(call.program, "vim");
            assert_eq!(
                call_args(&call),
                ["/home/user/.local/share/journal/07-03-2024.txt"]
            );
        }
        _ => panic!("write must launch the editor"),
    }
}

#[test]
fn save_sequence_ordering() {
    match dispatch(Command::Save, &fixed_config()) {
        Dispatch::RunSequence { calls, completion } => {
            assert_eq!(calls.len(), 4);
            for call in &calls {
                assert_eq!(call.program, "git");
            }
            assert_eq!(call_args(&calls[0]), ["add", "."]);
            assert_eq!(
                call_args(&calls[1]),
                ["commit", "-m", "journal saved on 07-03-2024"]
            );
            assert_eq!(call_args(&calls[2]), ["branch", "-M", "main"]);
            assert_eq!(call_args(&calls[3]), ["push", "origin", "main"]);
            assert_eq!(completion, "Done.");
        }
        _ => panic!("save must run its sequence"),
    }
}

#[test]
fn sync_scenario_pulls_main_and_completes() {
    match dispatch(Command::Sync, &fixed_config()) {
        Dispatch::RunSequence { calls, completion } => {
            assert_eq!(calls.len(), 1);
            assert_eq!(calls[0].program, "git");
            assert_eq!(call_args(&calls[0]), ["pull", "origin", "main"]);
            assert_eq!(completion, "Done.");
        }
        _ => panic!("sync must run its single pull"),
    }
}

#[test]
fn unknown_command_is_silent() {
    let cmd = parse_command(Some(String::from("frobnicate")), None);
    assert!(matches!(cmd, Command::Unknown));
    assert!(matches!(
        dispatch(cmd, &fixed_config()),
        Dispatch::Silent
    ));
}

#[test]
fn no_command_shows_help() {
    let cmd = parse_command(None, None);
    assert!(matches!(cmd, Command::Help));
    assert!(matches!(
        dispatch(cmd, &fixed_config()),
        Dispatch::ShowHelp
    ));
}

#[test]
fn parse_selects_each_subcommand() {
    match parse_command(Some(String::from("write")), Some(String::from("nano"))) {
        Command::Write { editor } => assert_eq!(editor, "nano"),
        _ => panic!("write must be decoded"),
    }
    assert!(matches!(
        parse_command(Some(String::from("save")), None),
        Command::Save
    ));
    assert!(matches!(
        parse_command(Some(String::from("sync")), None),
        Command::Sync
    ));
}

#[test]
fn parse_write_falls_back_to_default_editor() {
    match parse_command(Some(String::from("write")), None) {
        Command::Write { editor } => assert_eq!(editor, "vi"),
        _ => panic!("write without an editor must fall back"),
    }
}

#[test]
fn help_message_names_the_subcommands() {
    let text = help_message();
    assert_eq!(
        text,
        "journal - a tool for having a personal daily journal via git\nsubcommands:\n  save - commit and push changes to the journal repository\n  sync - pulls changes from the journal repository\n  write <text editor> - opens a file for today's journal with the text editor provided\n\nwhen running for the first time, journal automatically initializes a data directory at `~/.local/share/journal/`."
    );
}

#[test]
fn prompt_and_confirmation_messages() {
    assert_eq!(
        prompt_message(),
        "Enter a git remote URL for the repository to store your journals in: "
    );
    assert_eq!(init_done_message(), "Journal directory has been initialized.");
}

#[test]
fn editor_failure_names_the_editor() {
    assert_eq!(
        editor_failure_message("emcas"),
        "Failed running text editor \"emcas\". Pass a valid text editor as the second command argument."
    );
}
