//! What the launcher spawns for a target (program, argument vector,
//! environment variable, permission step) and the exit code it relays.
use vstd::prelude::*;
use vstd::string::*;
use crate::path::extension_of;
use crate::strategy::{
    Platform,
    Strategy,
    is_script_host_extension,
    is_shell_script_extension,
    lemma_extension_sets_disjoint,
    select_strategy,
    strategy_for,
};

verus! {

/// The command interpreter that runs batch scripts.
pub const SHELL_HOST: &'static str = "cmd";

/// The script host that runs VBScript files.
pub const SCRIPT_HOST: &'static str = "wscript";

/// First argument handed to the command interpreter.
pub const SHELL_FLAG: &'static str = "/c";

/// First argument handed to the script host.
pub const SCRIPT_HOST_FLAG: &'static str = "/nologo";

/// Name of the variable that tells the child where the launcher's own
/// executable lies.
pub const EXEC_PATH_VAR: &'static str = "WARP_EXEC_PATH";

/// Exit code relayed for a child that ended without one.
pub const ABNORMAL_EXIT_CODE: i32 = 1;

/// Everything needed to spawn the child for one invocation.
pub struct LaunchPlan {
    pub strategy: Strategy,
    /// The program to spawn.
    pub program: String,
    /// Its argument vector.
    pub args: Vec<String>,
    /// Whether the target's executable bits are set before the spawn.
    pub normalize_permissions: bool,
    /// Name of the variable added to the child's environment.
    pub env_name: String,
    /// Its value: the launcher's own executable path.
    pub env_value: String,
}

/// The contents of a sequence of strings.
pub open spec fn views(v: Seq<String>) -> Seq<Seq<char>> {
    v.map_values(|s: String| s@)
}

/// The program spawned under strategy `s` for the target `target`.
pub open spec fn program_for(s: Strategy, target: Seq<char>) -> Seq<char> {
    match s {
        Strategy::DirectExec => target,
        Strategy::CommandShellScript => SHELL_HOST@,
        Strategy::ScriptHostScript => SCRIPT_HOST@,
    }
}

/// The argument vector of the child under strategy `s`: the original
/// arguments, after the host's flag and the target where a host runs it.
pub open spec fn child_args(s: Strategy, target: Seq<char>, args: Seq<Seq<char>>) -> Seq<
    Seq<char>,
> {
    match s {
        Strategy::DirectExec => args,
        Strategy::CommandShellScript => seq![SHELL_FLAG@, target] + args,
        Strategy::ScriptHostScript => seq![SCRIPT_HOST_FLAG@, target] + args,
    }
}

/// The exit code relayed for a child outcome: its own code, or
/// `ABNORMAL_EXIT_CODE` where it has none.
pub open spec fn relayed_code(code: Option<i32>) -> i32 {
    match code {
        Some(n) => n,
        None => ABNORMAL_EXIT_CODE,
    }
}

/// `prefix` followed by copies of `args`.
fn append_args(prefix: Vec<String>, args: &Vec<String>) -> (r: Vec<String>)
    ensures
        views(r@) == views(prefix@) + views(args@),
{
    let mut r = prefix;
    let mut i: usize = 0;
    while i < args.len()
        invariant
            i <= args@.len(),
            views(r@) == views(prefix@) + views(args@.subrange(0, i as int)),
        decreases args@.len() - i,
    {
        let a = args[i].clone();
        let before = Ghost(r@);
        r.push(a);
        assert(views(r@) =~= views(before@).push(a@));
        assert(views(args@.subrange(0, i + 1)) =~= views(args@.subrange(0, i as int)).push(
            a@,
        ));
        assert(views(r@) =~= views(prefix@) + views(args@.subrange(0, i + 1)));
        i = i + 1;
    }
    assert(args@.subrange(0, i as int) =~= args@);
    r
}

/// The argument vector of the child under `strategy`.
pub fn build_args(strategy: Strategy, target: &str, args: &Vec<String>) -> (r: Vec<String>)
    ensures
        views(r@) == child_args(strategy, target@, views(args@)),
{
    let mut prefix: Vec<String> = Vec::new();
    match strategy {
        Strategy::DirectExec => {},
        Strategy::CommandShellScript => {
            prefix.push(String::from_str(SHELL_FLAG));
            prefix.push(String::from_str(target));
        },
        Strategy::ScriptHostScript => {
            prefix.push(String::from_str(SCRIPT_HOST_FLAG));
            prefix.push(String::from_str(target));
        },
    }
    let r = append_args(prefix, args);
    match strategy {
        Strategy::DirectExec => {
            assert(views(prefix@) =~= Seq::<Seq<char>>::empty());
            assert(views(r@) =~= views(args@));
        },
        Strategy::CommandShellScript => {
            assert(views(prefix@) =~= seq![SHELL_FLAG@, target@]);
        },
        Strategy::ScriptHostScript => {
            assert(views(prefix@) =~= seq![SCRIPT_HOST_FLAG@, target@]);
        },
    }
    r
}

/// The program spawned under `strategy` for `target`.
pub fn program(strategy: Strategy, target: &str) -> (r: String)
    ensures
        r@ == program_for(strategy, target@),
{
    match strategy {
        Strategy::DirectExec => String::from_str(target),
        Strategy::CommandShellScript => String::from_str(SHELL_HOST),
        Strategy::ScriptHostScript => String::from_str(SCRIPT_HOST),
    }
}

/// Whether the target's executable bits are set before it is spawned on
/// `platform`: only where files carry such bits.
pub fn normalizes_permissions(platform: Platform) -> (r: bool)
    ensures
        r == (platform == Platform::Posix),
{
    match platform {
        Platform::Posix => true,
        Platform::Windows => false,
    }
}

/// Plans the launch of `target` with the arguments `args` on `platform`;
/// `launcher_path` is the launcher's own executable path.
pub fn plan_launch(target: &str, args: &Vec<String>, launcher_path: &str, platform: Platform) -> (r:
    LaunchPlan)
    ensures
        r.strategy == strategy_for(target@, platform),
        r.program@ == program_for(r.strategy, target@),
        views(r.args@) == child_args(r.strategy, target@, views(args@)),
        r.normalize_permissions == (platform == Platform::Posix),
        r.env_name@ == EXEC_PATH_VAR@,
        r.env_value@ == launcher_path@,
{
    let strategy = select_strategy(target, platform);
    LaunchPlan {
        strategy,
        program: program(strategy, target),
        args: build_args(strategy, target, args),
        normalize_permissions: normalizes_permissions(platform),
        env_name: String::from_str(EXEC_PATH_VAR),
        env_value: String::from_str(launcher_path),
    }
}

/// The exit code the launcher relays: the child's own code, verbatim, or
/// `ABNORMAL_EXIT_CODE` where the child ended without one.
pub fn resolve_exit_code(code: Option<i32>) -> (r: i32)
    ensures
        r == relayed_code(code),
        code matches Some(n) ==> r == n,
        code is None ==> r == 1,
{
    match code {
        Some(n) => n,
        None => ABNORMAL_EXIT_CODE,
    }
}

/// On Windows a path whose extension is `bat` or `cmd`, in any casing, is
/// run by the command interpreter with `/c`, the path, then the original
/// arguments in order.
pub proof fn lemma_batch_scripts_run_by_shell(target: Seq<char>, args: Seq<Seq<char>>)
    requires
        extension_of(target) matches Some(e) && is_shell_script_extension(e),
    ensures
        strategy_for(target, Platform::Windows) == Strategy::CommandShellScript,
        program_for(strategy_for(target, Platform::Windows), target) == seq!['c', 'm', 'd'],
        child_args(strategy_for(target, Platform::Windows), target, args) == seq![
            seq!['/', 'c'],
            target,
        ] + args,
{
    reveal_strlit("cmd");
    reveal_strlit("/c");
    assert(SHELL_HOST@ =~= seq!['c', 'm', 'd']);
    assert(SHELL_FLAG@ =~= seq!['/', 'c']);
}

/// On Windows a path whose extension is `vbs`, in any casing, is run by the
/// script host with `/nologo`, the path, then the original arguments in
/// order.
pub proof fn lemma_vbs_files_run_by_script_host(target: Seq<char>, args: Seq<Seq<char>>)
    requires
        extension_of(target) matches Some(e) && is_script_host_extension(e),
    ensures
        strategy_for(target, Platform::Windows) == Strategy::ScriptHostScript,
        program_for(strategy_for(target, Platform::Windows), target) == seq![
            'w',
            's',
            'c',
            'r',
            'i',
            'p',
            't',
        ],
        child_args(strategy_for(target, Platform::Windows), target, args) == seq![
            seq!['/', 'n', 'o', 'l', 'o', 'g', 'o'],
            target,
        ] + args,
{
    lemma_extension_sets_disjoint(extension_of(target)->Some_0);
    reveal_strlit("wscript");
    reveal_strlit("/nologo");
    assert(SCRIPT_HOST@ =~= seq!['w', 's', 'c', 'r', 'i', 'p', 't']);
    assert(SCRIPT_HOST_FLAG@ =~= seq!['/', 'n', 'o', 'l', 'o', 'g', 'o']);
}

/// A path with any other extension, or none, is run directly with the
/// original arguments unchanged, on either platform.
pub proof fn lemma_other_targets_run_directly(
    target: Seq<char>,
    args: Seq<Seq<char>>,
    platform: Platform,
)
    requires
        !(extension_of(target) matches Some(e) && (is_shell_script_extension(e)
            || is_script_host_extension(e))),
    ensures
        strategy_for(target, platform) == Strategy::DirectExec,
        program_for(strategy_for(target, platform), target) == target,
        child_args(strategy_for(target, platform), target, args) == args,
{
}

/// On POSIX every target is run directly with the original arguments, after
/// its executable bits are set.
pub proof fn lemma_posix_targets_run_directly(target: Seq<char>, args: Seq<Seq<char>>)
    ensures
        strategy_for(target, Platform::Posix) == Strategy::DirectExec,
        program_for(strategy_for(target, Platform::Posix), target) == target,
        child_args(strategy_for(target, Platform::Posix), target, args) == args,
{
}

} // verus!
