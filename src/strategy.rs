//! Choice of the way a target is launched, from its file extension and the
//! host platform family.
use vstd::prelude::*;
use vstd::string::*;
use crate::path::{extension_of, file_extension};

verus! {

/// Host platform family.
#[derive(Clone, Copy, Debug, PartialEq, Eq, Structural)]
pub enum Platform {
    /// Files carry an executable bit; every target is run directly.
    Posix,
    /// No executable bit; scripts are routed through an interpreter host.
    Windows,
}

/// How a target is launched.
#[derive(Clone, Copy, Debug, PartialEq, Eq, Structural)]
pub enum Strategy {
    /// The target itself is the program.
    DirectExec,
    /// The command interpreter runs the target as a batch script.
    CommandShellScript,
    /// The script host runs the target as a VBScript file.
    ScriptHostScript,
}

/// `c` with an ASCII upper-case letter turned into lower case.
pub open spec fn lower_char(c: char) -> char {
    if 'A' <= c && c <= 'Z' {
        ((c as u32) + 32) as char
    } else {
        c
    }
}

/// `s` with every ASCII upper-case letter turned into lower case.
pub open spec fn lower(s: Seq<char>) -> Seq<char> {
    s.map_values(|c: char| lower_char(c))
}

/// Extensions of batch scripts, compared in lower case.
pub open spec fn is_shell_script_extension(e: Seq<char>) -> bool {
    lower(e) == seq!['b', 'a', 't'] || lower(e) == seq!['c', 'm', 'd']
}

/// Extensions of VBScript files, compared in lower case.
pub open spec fn is_script_host_extension(e: Seq<char>) -> bool {
    lower(e) == seq!['v', 'b', 's']
}

/// Whether the path `p` names a batch script.
pub open spec fn names_shell_script(p: Seq<char>) -> bool {
    extension_of(p) matches Some(e) && is_shell_script_extension(e)
}

/// Whether the path `p` names a VBScript file.
pub open spec fn names_vbs(p: Seq<char>) -> bool {
    extension_of(p) matches Some(e) && is_script_host_extension(e)
}

/// The strategy for the path `p` on `platform`.
pub open spec fn strategy_for(p: Seq<char>, platform: Platform) -> Strategy {
    match platform {
        Platform::Posix => Strategy::DirectExec,
        Platform::Windows => if names_shell_script(p) {
            Strategy::CommandShellScript
        } else if names_vbs(p) {
            Strategy::ScriptHostScript
        } else {
            Strategy::DirectExec
        },
    }
}

/// The two extension sets are disjoint, so at most one host claims a file.
pub proof fn lemma_extension_sets_disjoint(e: Seq<char>)
    ensures
        !(is_shell_script_extension(e) && is_script_host_extension(e)),
{
    if is_shell_script_extension(e) && is_script_host_extension(e) {
        assert(seq!['b', 'a', 't'][0] != seq!['v', 'b', 's'][0]);
        assert(seq!['c', 'm', 'd'][0] != seq!['v', 'b', 's'][0]);
    }
}

/// Two paths whose extensions agree but for the case of ASCII letters get
/// the same strategy.
pub proof fn lemma_strategy_ignores_case(p: Seq<char>, q: Seq<char>, platform: Platform)
    requires
        extension_of(p) matches Some(e) && extension_of(q) matches Some(f) && lower(e) == lower(
            f,
        ),
    ensures
        strategy_for(p, platform) == strategy_for(q, platform),
{
}

fn lower_ascii_char(c: char) -> (r: char)
    ensures
        r == lower_char(c),
{
    if 'A' <= c && c <= 'Z' {
        ((c as u8) + 32) as char
    } else {
        c
    }
}

/// Whether `ext`, in lower case, is the three letters `a`, `b`, `c`.
fn lower_is(ext: &str, a: char, b: char, c: char) -> (r: bool)
    ensures
        r == (lower(ext@) == seq![a, b, c]),
{
    if ext.unicode_len() != 3 {
        assert(lower(ext@).len() != seq![a, b, c].len());
        return false;
    }
    let r = lower_ascii_char(ext.get_char(0)) == a && lower_ascii_char(ext.get_char(1)) == b
        && lower_ascii_char(ext.get_char(2)) == c;
    assert(r ==> lower(ext@) =~= seq![a, b, c]);
    assert(lower(ext@) == seq![a, b, c] ==> lower(ext@)[0] == a && lower(ext@)[1] == b
        && lower(ext@)[2] == c);
    r
}

/// Whether `target` is a batch script: its extension is `bat` or `cmd`, in
/// any casing.
pub fn is_script(target: &str) -> (r: bool)
    ensures
        r == names_shell_script(target@),
{
    match file_extension(target) {
        Some(e) => lower_is(e.as_str(), 'b', 'a', 't') || lower_is(e.as_str(), 'c', 'm', 'd'),
        None => false,
    }
}

/// Whether `target` is a VBScript file: its extension is `vbs`, in any
/// casing.
pub fn is_vbs(target: &str) -> (r: bool)
    ensures
        r == names_vbs(target@),
{
    match file_extension(target) {
        Some(e) => lower_is(e.as_str(), 'v', 'b', 's'),
        None => false,
    }
}

/// Chooses how `target` is launched on `platform`.
pub fn select_strategy(target: &str, platform: Platform) -> (r: Strategy)
    ensures
        r == strategy_for(target@, platform),
{
    match platform {
        Platform::Posix => Strategy::DirectExec,
        Platform::Windows => if is_script(target) {
            Strategy::CommandShellScript
        } else if is_vbs(target) {
            Strategy::ScriptHostScript
        } else {
            Strategy::DirectExec
        },
    }
}

} // verus!
