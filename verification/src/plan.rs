//! What the tool decides to do: the setup steps of a first or a later
//! run, and the exact external calls each subcommand issues, in order.

use vstd::prelude::*;
use vstd::string::StringExecFns;

verus! {

use crate::command::Command;
use crate::config::Config;

/// One external program invocation: the program name and its ordered
/// arguments.
pub struct ProcessCall {
    pub program: String,
    pub args: Vec<String>,
}

/// The mathematical value of a process call: the program's characters
/// and each argument's characters, in order.
#[verifier::ext_equal]
pub struct CallModel {
    pub program: Seq<char>,
    pub args: Seq<Seq<char>>,
}

/// The characters of each string, in order.
pub open spec fn views_of(args: Seq<String>) -> Seq<Seq<char>> {
    args.map_values(|s: String| s@)
}

impl View for ProcessCall {
    type V = CallModel;

    open spec fn view(&self) -> CallModel {
        CallModel { program: self.program@, args: views_of(self.args@) }
    }
}

/// The mathematical value of each call, in order.
pub open spec fn call_models(calls: Seq<ProcessCall>) -> Seq<CallModel> {
    calls.map_values(|c: ProcessCall| c@)
}

/// A call of the external version-control tool.
pub open spec fn spec_git(args: Seq<Seq<char>>) -> CallModel {
    CallModel { program: "git"@, args }
}

fn git_call(args: Vec<String>) -> (c: ProcessCall)
    ensures
        c@ == spec_git(views_of(args@)),
{
    let c = ProcessCall { program: String::from_str("git"), args };
    proof {
        assert(c@ =~= spec_git(views_of(args@)));
    }
    c
}

fn args1(a0: String) -> (v: Vec<String>)
    ensures
        views_of(v@) == seq![a0@],
{
    let ghost g0 = a0;
    let mut v: Vec<String> = Vec::new();
    v.push(a0);
    proof {
        assert(views_of(v@) =~= seq![g0@]);
    }
    v
}

fn args2(a0: &str, a1: &str) -> (v: Vec<String>)
    ensures
        views_of(v@) == seq![a0@, a1@],
{
    let mut v: Vec<String> = Vec::new();
    v.push(a0.to_owned());
    v.push(a1.to_owned());
    proof {
        assert(views_of(v@) =~= seq![a0@, a1@]);
    }
    v
}

fn args3(a0: &str, a1: &str, a2: &str) -> (v: Vec<String>)
    ensures
        views_of(v@) == seq![a0@, a1@, a2@],
{
    let mut v: Vec<String> = Vec::new();
    v.push(a0.to_owned());
    v.push(a1.to_owned());
    v.push(a2.to_owned());
    proof {
        assert(views_of(v@) =~= seq![a0@, a1@, a2@]);
    }
    v
}

fn args2_owned(a0: &str, a1: &str, a2: String) -> (v: Vec<String>)
    ensures
        views_of(v@) == seq![a0@, a1@, a2@],
{
    let ghost g2 = a2;
    let mut v: Vec<String> = Vec::new();
    v.push(a0.to_owned());
    v.push(a1.to_owned());
    v.push(a2);
    proof {
        assert(views_of(v@) =~= seq![a0@, a1@, g2@]);
    }
    v
}

/// The four calls a `save` issues, in the order they must run: stage
/// everything, commit with the message recording the date key, make
/// `main` the branch name, push `main` to `origin`.
pub open spec fn spec_save_calls(date_key: Seq<char>) -> Seq<CallModel> {
    seq![
        spec_git(seq!["add"@, "."@]),
        spec_git(seq!["commit"@, "-m"@, "journal saved on "@ + date_key]),
        spec_git(seq!["branch"@, "-M"@, "main"@]),
        spec_git(seq!["push"@, "origin"@, "main"@]),
    ]
}

pub fn save_calls(config: &Config) -> (v: Vec<ProcessCall>)
    ensures
        call_models(v@) == spec_save_calls(config.date_string@),
{
    let mut v: Vec<ProcessCall> = Vec::new();
    v.push(git_call(args2("add", ".")));
    v.push(git_call(args2_owned("commit", "-m", config.commit_message())));
    v.push(git_call(args3("branch", "-M", "main")));
    v.push(git_call(args3("push", "origin", "main")));
    proof {
        assert(call_models(v@) =~= spec_save_calls(config.date_string@));
    }
    v
}

/// The single call a `sync` issues: pull `main` from `origin`.
pub open spec fn spec_sync_calls() -> Seq<CallModel> {
    seq![spec_git(seq!["pull"@, "origin"@, "main"@])]
}

pub fn sync_calls() -> (v: Vec<ProcessCall>)
    ensures
        call_models(v@) == spec_sync_calls(),
{
    let mut v: Vec<ProcessCall> = Vec::new();
    v.push(git_call(args3("pull", "origin", "main")));
    proof {
        assert(call_models(v@) =~= spec_sync_calls());
    }
    v
}

/// One step of the bootstrap, to be performed in order by the binary.
pub enum SetupAction {
    /// Print the message on standard output.
    Announce { message: String },
    /// Create the directory at the path.
    CreateDirectory { path: String },
    /// Make the path the process's working directory.
    EnterDirectory { path: String },
    /// Run the external call, inheriting the standard streams.
    Run { call: ProcessCall },
    /// Read a remote URL from the user (`prompt_message`), register it
    /// with `register_remote_call`, then print `init_done_message`.
    PromptRemoteUrl,
}

/// The mathematical value of a setup step.
#[verifier::ext_equal]
pub enum StepModel {
    Announce { message: Seq<char> },
    CreateDirectory { path: Seq<char> },
    EnterDirectory { path: Seq<char> },
    Run { call: CallModel },
    PromptRemoteUrl,
}

impl View for SetupAction {
    type V = StepModel;

    open spec fn view(&self) -> StepModel {
        match self {
            SetupAction::Announce { message } => StepModel::Announce { message: message@ },
            SetupAction::CreateDirectory { path } => StepModel::CreateDirectory { path: path@ },
            SetupAction::EnterDirectory { path } => StepModel::EnterDirectory { path: path@ },
            SetupAction::Run { call } => StepModel::Run { call: call@ },
            SetupAction::PromptRemoteUrl => StepModel::PromptRemoteUrl,
        }
    }
}

/// The mathematical value of each setup step, in order.
pub open spec fn step_models(steps: Seq<SetupAction>) -> Seq<StepModel> {
    steps.map_values(|a: SetupAction| a@)
}

/// The message announcing a first run's initialization.
pub open spec fn spec_init_announce(path: Seq<char>) -> Seq<char> {
    "Initializing a directory for storing journals in "@ + path + "..."@
}

/// The steps that make the journal directory usable. With the directory
/// already present, the one step is to enter it: no prompt, no
/// re-initialization. On a first run: announce, create the directory,
/// enter it, initialize a repository there, and prompt for the remote
/// URL to register.
pub open spec fn spec_bootstrap_plan(path: Seq<char>, exists: bool) -> Seq<StepModel> {
    if exists {
        seq![StepModel::EnterDirectory { path }]
    } else {
        seq![
            StepModel::Announce { message: spec_init_announce(path) },
            StepModel::CreateDirectory { path },
            StepModel::EnterDirectory { path },
            StepModel::Run { call: spec_git(seq!["init"@]) },
            StepModel::PromptRemoteUrl,
        ]
    }
}

pub fn bootstrap_plan(path: &String, exists: bool) -> (v: Vec<SetupAction>)
    ensures
        step_models(v@) == spec_bootstrap_plan(path@, exists),
{
    let mut v: Vec<SetupAction> = Vec::new();
    if exists {
        v.push(SetupAction::EnterDirectory { path: path.clone() });
    } else {
        let message = String::from_str("Initializing a directory for storing journals in ").concat(
            path.as_str(),
        ).concat("...");
        v.push(SetupAction::Announce { message });
        v.push(SetupAction::CreateDirectory { path: path.clone() });
        v.push(SetupAction::EnterDirectory { path: path.clone() });
        v.push(SetupAction::Run { call: git_call(args1(String::from_str("init"))) });
        v.push(SetupAction::PromptRemoteUrl);
    }
    proof {
        assert(step_models(v@) =~= spec_bootstrap_plan(path@, exists));
    }
    v
}

/// The question put to the user on a first run.
pub fn prompt_message() -> (r: String)
    ensures
        r@ == "Enter a git remote URL for the repository to store your journals in: "@,
{
    String::from_str("Enter a git remote URL for the repository to store your journals in: ")
}

fn args4(a0: &str, a1: &str, a2: &str, a3: &str) -> (v: Vec<String>)
    ensures
        views_of(v@) == seq![a0@, a1@, a2@, a3@],
{
    let mut v: Vec<String> = Vec::new();
    v.push(a0.to_owned());
    v.push(a1.to_owned());
    v.push(a2.to_owned());
    v.push(a3.to_owned());
    proof {
        assert(views_of(v@) =~= seq![a0@, a1@, a2@, a3@]);
    }
    v
}

/// The call registering the prompted URL as the `origin` remote.
pub fn register_remote_call(url: &str) -> (c: ProcessCall)
    ensures
        c@ == spec_git(seq!["remote"@, "add"@, "origin"@, url@]),
{
    git_call(args4("remote", "add", "origin", url))
}

/// The confirmation printed once a first run has registered the remote.
pub fn init_done_message() -> (r: String)
    ensures
        r@ == "Journal directory has been initialized."@,
{
    String::from_str("Journal directory has been initialized.")
}

/// The call reading back the `origin` remote URL, the single source of
/// truth after initialization.
pub fn remote_query_call() -> (c: ProcessCall)
    ensures
        c@ == spec_git(seq!["remote"@, "get-url"@, "origin"@]),
{
    git_call(args3("remote", "get-url", "origin"))
}

/// What the binary does for one decoded command.
pub enum Dispatch {
    /// Print the help text and exit successfully.
    ShowHelp,
    /// Launch the call (today's entry in the chosen editor) and wait for
    /// it, however long it takes; a launch failure is fatal and must
    /// name the editor (`editor_failure_message`).
    Edit { call: ProcessCall },
    /// Run the calls strictly in order, each completing before the next
    /// starts and a failure stopping the rest, then print the
    /// completion message.
    RunSequence { calls: Vec<ProcessCall>, completion: String },
    /// Print nothing, run nothing, exit successfully.
    Silent,
}

/// The dispatch matches the command: help shows the help text, `write`
/// opens exactly `{path}/{date key}.txt` in the chosen editor, `save`
/// issues its four calls in order, `sync` its single pull, and an
/// unrecognized command does nothing.
pub open spec fn spec_dispatched(cmd: Command, config: Config, d: Dispatch) -> bool {
    match cmd {
        Command::Help => d is ShowHelp,
        Command::Write { editor } => d matches Dispatch::Edit { call } && call@ == (CallModel {
            program: editor@,
            args: seq![config.spec_entry_path()],
        }),
        Command::Save => d matches Dispatch::RunSequence { calls, completion }
            && call_models(calls@) == spec_save_calls(config.date_string@) && completion@
            == "Done."@,
        Command::Sync => d matches Dispatch::RunSequence { calls, completion }
            && call_models(calls@) == spec_sync_calls() && completion@ == "Done."@,
        Command::Unknown => d is Silent,
    }
}

pub fn dispatch(cmd: Command, config: &Config) -> (d: Dispatch)
    ensures
        spec_dispatched(cmd, *config, d),
{
    match cmd {
        Command::Help => Dispatch::ShowHelp,
        Command::Write { editor } => {
            let ghost e = editor;
            let call = ProcessCall { program: editor, args: args1(config.entry_path()) };
            proof {
                assert(call@ =~= (CallModel {
                    program: e@,
                    args: seq![config.spec_entry_path()],
                }));
            }
            Dispatch::Edit { call }
        },
        Command::Save => Dispatch::RunSequence {
            calls: save_calls(config),
            completion: String::from_str("Done."),
        },
        Command::Sync => Dispatch::RunSequence {
            calls: sync_calls(),
            completion: String::from_str("Done."),
        },
        Command::Unknown => Dispatch::Silent,
    }
}

/// The help text shown when no subcommand is given.
pub fn help_message() -> (r: String)
    ensures
        r@
            == "journal - a tool for having a personal daily journal via git\nsubcommands:\n  save - commit and push changes to the journal repository\n  sync - pulls changes from the journal repository\n  write <text editor> - opens a file for today's journal with the text editor provided\n\nwhen running for the first time, journal automatically initializes a data directory at `~/.local/share/journal/`."@,
{
    String::from_str(
        "journal - a tool for having a personal daily journal via git\nsubcommands:\n  save - commit and push changes to the journal repository\n  sync - pulls changes from the journal repository\n  write <text editor> - opens a file for today's journal with the text editor provided\n\nwhen running for the first time, journal automatically initializes a data directory at `~/.local/share/journal/`.",
    )
}

/// The fatal message when the chosen editor cannot be launched, naming
/// the editor.
pub fn editor_failure_message(editor: &str) -> (r: String)
    ensures
        r@ == "Failed running text editor \""@ + editor@
            + "\". Pass a valid text editor as the second command argument."@,
{
    String::from_str("Failed running text editor \"").concat(editor).concat(
        "\". Pass a valid text editor as the second command argument.",
    )
}

/// Law: bootstrapping is idempotent once the directory exists. With the
/// directory present the plan is the single step of entering it — it
/// never prompts for a remote URL and never runs an external command,
/// in particular no repository re-initialization — and, the plan being
/// a function of the path alone, a repeated run performs exactly the
/// same single step. The storage path is a function of the home
/// directory (`spec_storage_path`) and the remote URL is read back by
/// the fixed query `remote_query_call` rather than re-prompted, so two
/// consecutive runs resolve the same path and read the remote URL from
/// the same repository.
pub proof fn lemma_bootstrap_idempotent(path: Seq<char>)
    ensures
        spec_bootstrap_plan(path, true) =~= seq![StepModel::EnterDirectory { path }],
        forall|i: int|
            0 <= i < spec_bootstrap_plan(path, true).len() ==> !(spec_bootstrap_plan(path, true)[i]
                is PromptRemoteUrl),
        forall|i: int|
            0 <= i < spec_bootstrap_plan(path, true).len() ==> !(spec_bootstrap_plan(path, true)[i]
                is Run),
{
}

/// The call stages the working tree (`git add`).
pub open spec fn spec_is_stage(c: CallModel) -> bool {
    c.program == "git"@ && c.args.len() > 0 && c.args[0] == "add"@
}

/// The call records a commit (`git commit`).
pub open spec fn spec_is_commit(c: CallModel) -> bool {
    c.program == "git"@ && c.args.len() > 0 && c.args[0] == "commit"@
}

/// The call pushes to the remote (`git push`).
pub open spec fn spec_is_push(c: CallModel) -> bool {
    c.program == "git"@ && c.args.len() > 0 && c.args[0] == "push"@
}

/// Law: in the save sequence every staging call precedes every commit
/// call, and every commit call precedes every push call; staging sits
/// only at index 0, the commit only at index 1 and the push only at
/// index 3.
pub proof fn lemma_save_order(date_key: Seq<char>)
    ensures
        forall|i: int|
            0 <= i < spec_save_calls(date_key).len() ==> (spec_is_stage(
                #[trigger] spec_save_calls(date_key)[i],
            ) <==> i == 0),
        forall|i: int|
            0 <= i < spec_save_calls(date_key).len() ==> (spec_is_commit(
                #[trigger] spec_save_calls(date_key)[i],
            ) <==> i == 1),
        forall|i: int|
            0 <= i < spec_save_calls(date_key).len() ==> (spec_is_push(
                #[trigger] spec_save_calls(date_key)[i],
            ) <==> i == 3),
        forall|i: int, j: int|
            0 <= i < spec_save_calls(date_key).len() && 0 <= j < spec_save_calls(date_key).len()
                && spec_is_stage(#[trigger] spec_save_calls(date_key)[i]) && spec_is_commit(
                #[trigger] spec_save_calls(date_key)[j],
            ) ==> i < j,
        forall|i: int, j: int|
            0 <= i < spec_save_calls(date_key).len() && 0 <= j < spec_save_calls(date_key).len()
                && spec_is_commit(#[trigger] spec_save_calls(date_key)[i]) && spec_is_push(
                #[trigger] spec_save_calls(date_key)[j],
            ) ==> i < j,
{
    reveal_strlit("add");
    reveal_strlit("commit");
    reveal_strlit("branch");
    reveal_strlit("push");
    let calls = spec_save_calls(date_key);
    assert(calls.len() == 4);
    assert("add"@.len() == 3 && "commit"@.len() == 6 && "branch"@.len() == 6 && "push"@.len()
        == 4);
    assert("branch"@[0] == 'b' && "commit"@[0] == 'c');
    assert("branch"@ != "commit"@ && "branch"@ != "push"@);
    assert(spec_is_stage(calls[0]) && !spec_is_stage(calls[1]) && !spec_is_stage(calls[2])
        && !spec_is_stage(calls[3]));
    assert(!spec_is_commit(calls[0]) && spec_is_commit(calls[1]) && !spec_is_commit(calls[2])
        && !spec_is_commit(calls[3]));
    assert(!spec_is_push(calls[0]) && !spec_is_push(calls[1]) && !spec_is_push(calls[2])
        && spec_is_push(calls[3]));
}

/// How many steps a strict in-order executor starts when the steps'
/// outcomes are as given: it starts a step only after every earlier
/// step has succeeded, so it stops with the first failure.
pub open spec fn spec_steps_started(outcomes: Seq<bool>) -> nat
    decreases outcomes.len(),
{
    if outcomes.len() == 0 {
        0
    } else if !outcomes[0] {
        1
    } else {
        1 + spec_steps_started(outcomes.drop_first())
    }
}

/// Law: when the commit step of the save sequence fails, the push step
/// never starts under a strict in-order executor.
pub proof fn lemma_commit_failure_stops_push(date_key: Seq<char>, outcomes: Seq<bool>)
    requires
        outcomes.len() == spec_save_calls(date_key).len(),
        forall|j: int|
            0 <= j < outcomes.len() && spec_is_commit(#[trigger] spec_save_calls(date_key)[j])
                ==> !outcomes[j],
    ensures
        forall|i: int|
            0 <= i < outcomes.len() && spec_is_push(#[trigger] spec_save_calls(date_key)[i])
                ==> spec_steps_started(outcomes) <= i,
{
    lemma_save_order(date_key);
    assert(spec_is_commit(spec_save_calls(date_key)[1]));
    assert(!outcomes[1]);
    if outcomes[0] {
        let tail = outcomes.drop_first();
        assert(tail.len() == 3);
        assert(tail[0] == outcomes[1]);
        assert(spec_steps_started(tail) == 1);
        assert(spec_steps_started(outcomes) == 2);
    } else {
        assert(spec_steps_started(outcomes) == 1);
    }
}

/// Law: an unrecognized subcommand token decodes to `Unknown` and
/// dispatches to `Silent` — nothing is printed, nothing is run, and the
/// program exits successfully.
pub proof fn lemma_unknown_command(
    first: Option<String>,
    second: Option<String>,
    c: Command,
    config: Config,
    d: Dispatch,
)
    requires
        crate::command::spec_parsed(first, second, c),
        spec_dispatched(c, config, d),
        first matches Some(t) && t@ != "write"@ && t@ != "save"@ && t@ != "sync"@,
    ensures
        c is Unknown,
        d is Silent,
{
}

} // verus!
