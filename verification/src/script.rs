//! Builds the command script fed to the debugger: a fixed skeleton that sets
//! a breakpoint on the test function (arming a one-shot return breakpoint
//! that quits the debugger as a safety net), a breakpoint on the `__break`
//! checkpoint marker that resumes execution, resume and breakpoint-list
//! directives, then each user command bracketed by indexed echo markers, and
//! a final quit-and-detach directive.

use vstd::prelude::*;
use vstd::string::StringExecFns;

use crate::text::{fmt_u64, spec_dec};

verus! {

/// The skeleton directives that open every script: the entry breakpoint for
/// `name`, the checkpoint breakpoint, a resume, the breakpoint listing, and
/// the resume to the first checkpoint.
pub open spec fn spec_script_prelude(name: Seq<char>) -> Seq<char> {
    "bm *!*::"@ + name + " \"bp /1 @$ra \\\"qd\\\" \"\n"@ + "bm *!*::__break \"gu\"\ng\nbl\ng\n"@
}

/// The three lines one user command adds: a start marker carrying the
/// command's index, the command itself verbatim, and an end marker with the
/// same index.
pub open spec fn spec_marker_block(cmd: Seq<char>, i: nat) -> Seq<char> {
    ".echo start_debugger_command_"@ + spec_dec(i) + "\n"@ + cmd + "\n"@
        + ".echo end_debugger_command_"@ + spec_dec(i) + "\n"@
}

/// The marker blocks of a command sequence, indexed from `base` upward.
pub open spec fn spec_command_blocks(cmds: Seq<Seq<char>>, base: nat) -> Seq<char>
    decreases cmds.len(),
{
    if cmds.len() == 0 {
        Seq::empty()
    } else {
        spec_marker_block(cmds[0], base) + spec_command_blocks(cmds.drop_first(), base + 1)
    }
}

/// The whole script: skeleton, the commands' marker blocks in order, and the
/// closing quit-and-detach directive.
pub open spec fn spec_script(name: Seq<char>, cmds: Seq<Seq<char>>) -> Seq<char> {
    spec_script_prelude(name) + spec_command_blocks(cmds, 0) + "qd\n"@
}

proof fn lemma_blocks_push(cmds: Seq<Seq<char>>, c: Seq<char>, base: nat)
    ensures
        spec_command_blocks(cmds.push(c), base) == spec_command_blocks(cmds, base)
            + spec_marker_block(c, base + cmds.len()),
    decreases cmds.len(),
{
    if cmds.len() == 0 {
        assert(cmds.push(c)[0] == c);
        assert(cmds.push(c).drop_first() =~= Seq::<Seq<char>>::empty());
        assert(spec_command_blocks(cmds.push(c).drop_first(), base + 1) =~= Seq::<char>::empty());
        assert(spec_command_blocks(cmds, base) =~= Seq::<char>::empty());
        assert(spec_command_blocks(cmds.push(c), base) =~= spec_command_blocks(cmds, base)
            + spec_marker_block(c, base + cmds.len()));
    } else {
        assert(cmds.push(c)[0] == cmds[0]);
        assert(cmds.push(c).drop_first() =~= cmds.drop_first().push(c));
        lemma_blocks_push(cmds.drop_first(), c, base + 1);
        assert(spec_command_blocks(cmds.push(c), base) =~= spec_command_blocks(cmds, base)
            + spec_marker_block(c, base + cmds.len()));
    }
}

/// An empty command sequence yields a valid script holding only the fixed
/// skeleton directives followed directly by the quit-and-detach directive: no
/// marker lines at all.
pub proof fn lemma_script_no_commands(name: Seq<char>)
    ensures
        spec_script(name, Seq::empty()) == spec_script_prelude(name) + "qd\n"@,
{
    assert(spec_command_blocks(Seq::empty(), 0) =~= Seq::<char>::empty());
    assert(spec_script_prelude(name) + Seq::<char>::empty() + "qd\n"@ =~= spec_script_prelude(name)
        + "qd\n"@);
}

/// Every script ends with the quit-and-detach directive.
pub proof fn lemma_script_ends_with_quit(name: Seq<char>, cmds: Seq<Seq<char>>)
    ensures
        spec_script(name, cmds).len() >= 3,
        spec_script(name, cmds).subrange(
            spec_script(name, cmds).len() - 3,
            spec_script(name, cmds).len() as int,
        ) == "qd\n"@,
{
    reveal_strlit("qd\n");
    let s = spec_script(name, cmds);
    assert(s.subrange(s.len() - 3, s.len() as int) =~= "qd\n"@);
}

/// Two commands produce, after the skeleton, first the start marker carrying
/// index zero, the first command and its end marker, then the same three
/// lines for the second command with index one, then the quit directive.
pub proof fn lemma_script_two_commands(name: Seq<char>, c0: Seq<char>, c1: Seq<char>)
    ensures
        spec_script(name, seq![c0, c1]) == spec_script_prelude(name) + spec_marker_block(c0, 0)
            + spec_marker_block(c1, 1) + "qd\n"@,
{
    let cmds = seq![c0, c1];
    assert(cmds[0] == c0);
    assert(cmds.drop_first() =~= seq![c1]);
    assert(seq![c1][0] == c1);
    assert(seq![c1].drop_first() =~= Seq::<Seq<char>>::empty());
    assert(spec_command_blocks(Seq::<Seq<char>>::empty(), 2) =~= Seq::<char>::empty());
    assert(spec_command_blocks(seq![c1], 1) =~= spec_marker_block(c1, 1));
    assert(spec_command_blocks(cmds, 0) =~= spec_marker_block(c0, 0) + spec_marker_block(c1, 1));
    assert(spec_script(name, cmds) =~= spec_script_prelude(name) + spec_marker_block(c0, 0)
        + spec_marker_block(c1, 1) + "qd\n"@);
}

/// Builds the debugger script for the test function `fn_name` and the user
/// command lines `debugger_commands`.
pub fn create_debugger_script(fn_name: &String, debugger_commands: &Vec<&str>) -> (r: String)
    ensures
        r@ == spec_script(fn_name@, debugger_commands@.map_values(|c: &str| c@)),
{
    let ghost cv = debugger_commands@.map_values(|c: &str| c@);
    let mut script = String::from_str("bm *!*::");
    script.append(fn_name.as_str());
    script.append(" \"bp /1 @$ra \\\"qd\\\" \"\n");
    script.append("bm *!*::__break \"gu\"\ng\nbl\ng\n");
    proof {
        assert(script@ =~= spec_script_prelude(fn_name@) + spec_command_blocks(
            cv.subrange(0, 0),
            0,
        ));
    }
    let n = debugger_commands.len();
    let mut i: usize = 0;
    while i < n
        invariant
            0 <= i <= n,
            n == debugger_commands@.len(),
            cv == debugger_commands@.map_values(|c: &str| c@),
            script@ == spec_script_prelude(fn_name@) + spec_command_blocks(
                cv.subrange(0, i as int),
                0,
            ),
        decreases n - i,
    {
        let index = fmt_u64(i as u64);
        script.append(".echo start_debugger_command_");
        script.append(index.as_str());
        script.append("\n");
        script.append(debugger_commands[i]);
        script.append("\n");
        script.append(".echo end_debugger_command_");
        script.append(index.as_str());
        script.append("\n");
        proof {
            assert(cv.subrange(0, i + 1) =~= cv.subrange(0, i as int).push(cv[i as int]));
            lemma_blocks_push(cv.subrange(0, i as int), cv[i as int], 0);
            assert(script@ =~= spec_script_prelude(fn_name@) + spec_command_blocks(
                cv.subrange(0, i + 1),
                0,
            ));
        }
        i = i + 1;
    }
    script.append("qd\n");
    proof {
        assert(cv.subrange(0, n as int) =~= cv);
        assert(script@ =~= spec_script(fn_name@, cv));
    }
    script
}

} // verus!
