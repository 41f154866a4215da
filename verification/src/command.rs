//! External commands: what to run, how a dry run shows them, and how a
//! failed run is reported. Running them is left to the caller.
use vstd::prelude::*;

use crate::decimal::{decimal, decimal_chars};
use crate::text::{push_all, push_str, string_of};

verus! {

broadcast use vstd::string::group_string_axioms;

/// The character sequences of a sequence of strings.
pub open spec fn words_of(v: Seq<String>) -> Seq<Seq<char>> {
    v.map_values(|s: String| s@)
}

/// `words` joined by `sep`, as `[String]::join` gives it.
pub open spec fn join(words: Seq<Seq<char>>, sep: Seq<char>) -> Seq<char>
    decreases words.len(),
{
    if words.len() == 0 {
        Seq::empty()
    } else if words.len() == 1 {
        words[0]
    } else {
        join(words.drop_last(), sep) + sep + words.last()
    }
}

/// A command to run: the program, its arguments, and the directory to run it in.
#[derive(Clone, Debug)]
pub struct CommandParams {
    pub program: String,
    pub args: Vec<String>,
    pub current_dir: Option<String>,
}

/// How a dry run shows a command.
pub open spec fn command_text(program: Seq<char>, args: Seq<Seq<char>>, dir: Option<Seq<char>>) -> Seq<
    char,
> {
    match dir {
        Some(d) => "(cd "@ + d + " && "@ + program + " "@ + join(args, " "@) + ")"@,
        None => program + " "@ + join(args, " "@),
    }
}

/// The line a dry run prints in place of running a command.
pub open spec fn dry_run_text(
    program: Seq<char>,
    args: Seq<Seq<char>>,
    dir: Option<Seq<char>>,
    with_output: bool,
) -> Seq<char> {
    if with_output {
        "  Command (with output): "@ + command_text(program, args, dir)
    } else {
        "  Command: "@ + command_text(program, args, dir)
    }
}

/// An exit code as `{:?}` shows an `Option<i32>`.
pub open spec fn exit_code_text(code: Option<i32>) -> Seq<char> {
    match code {
        Some(c) => "Some("@ + (if c < 0 {
            "-"@ + decimal((-c) as nat)
        } else {
            decimal(c as nat)
        }) + ")"@,
        None => "None"@,
    }
}

/// The message for a command that ran and failed.
pub open spec fn failure_text(program: Seq<char>, code: Option<i32>) -> Seq<char> {
    "Command '"@ + program + "' failed with exit code: "@ + exit_code_text(code)
}

/// `words` joined by single spaces.
fn join_spaced(words: &Vec<String>) -> (out: Vec<char>)
    ensures
        out@ == join(words_of(words@), " "@),
{
    let ghost ws = words_of(words@);
    let mut out: Vec<char> = Vec::new();
    let n = words.len();
    let mut i: usize = 0;
    assert(ws.take(0) =~= Seq::<Seq<char>>::empty());
    while i < n
        invariant
            i <= n,
            n == words@.len(),
            ws == words_of(words@),
            out@ == join(ws.take(i as int), " "@),
        decreases n - i,
    {
        if i != 0 {
            push_str(&mut out, " ");
        }
        push_str(&mut out, words[i].as_str());
        assert(ws.take(i + 1).drop_last() =~= ws.take(i as int));
        assert(ws.take(i + 1).last() == words@[i as int]@);
        if i == 0 {
            assert(ws.take(1).len() == 1);
            assert(out@ =~= join(ws.take(1), " "@));
        }
        i += 1;
    }
    assert(ws.take(n as int) =~= ws);
    out
}

impl CommandParams {
    /// The command `program` with `args`, run in the current directory.
    pub fn new(program: &str, args: &[&str]) -> (p: Self)
        ensures
            p.program@ == program@,
            p.args@.len() == args@.len(),
            forall|i: int| 0 <= i < args@.len() ==> p.args@[i]@ == args@[i]@,
            words_of(p.args@) == args@.map_values(|a: &str| a@),
            p.current_dir is None,
    {
        let mut v: Vec<String> = Vec::new();
        let n = args.len();
        let mut i: usize = 0;
        while i < n
            invariant
                i <= n,
                n == args@.len(),
                v@.len() == i,
                forall|k: int| 0 <= k < i ==> v@[k]@ == args@[k]@,
            decreases n - i,
        {
            v.push(String::from_str(args[i]));
            i += 1;
        }
        assert(words_of(v@) =~= args@.map_values(|a: &str| a@));
        CommandParams { program: String::from_str(program), args: v, current_dir: None }
    }

    /// The line a dry run prints for this command in place of running it.
    pub fn dry_run_line(&self, with_output: bool) -> (line: String)
        ensures
            line@ == dry_run_text(
                self.program@,
                words_of(self.args@),
                self.current_dir.deep_view(),
                with_output,
            ),
    {
        let mut out: Vec<char> = Vec::new();
        if with_output {
            push_str(&mut out, "  Command (with output): ");
        } else {
            push_str(&mut out, "  Command: ");
        }
        let joined = join_spaced(&self.args);
        match &self.current_dir {
            Some(d) => {
                push_str(&mut out, "(cd ");
                push_str(&mut out, d.as_str());
                push_str(&mut out, " && ");
                push_str(&mut out, self.program.as_str());
                push_str(&mut out, " ");
                push_all(&mut out, joined.as_slice());
                push_str(&mut out, ")");
            },
            None => {
                push_str(&mut out, self.program.as_str());
                push_str(&mut out, " ");
                push_all(&mut out, joined.as_slice());
            },
        }
        string_of(out.as_slice())
    }

    /// The message for this command having exited with `code`.
    pub fn failure_message(&self, code: Option<i32>) -> (m: String)
        ensures
            m@ == failure_text(self.program@, code),
    {
        let mut out: Vec<char> = Vec::new();
        push_str(&mut out, "Command '");
        push_str(&mut out, self.program.as_str());
        push_str(&mut out, "' failed with exit code: ");
        match code {
            Some(c) => {
                push_str(&mut out, "Some(");
                if c < 0 {
                    push_str(&mut out, "-");
                    let magnitude: u32 = (0i64 - (c as i64)) as u32;
                    let d = decimal_chars(magnitude);
                    push_all(&mut out, d.as_slice());
                } else {
                    let d = decimal_chars(c as u32);
                    push_all(&mut out, d.as_slice());
                }
                push_str(&mut out, ")");
            },
            None => {
                push_str(&mut out, "None");
            },
        }
        string_of(out.as_slice())
    }
}

/// Runs commands, or only shows them in a dry run.
pub struct CommandExecutor {
    pub dry_run: bool,
}

/// What executing a command comes to.
pub enum Execution {
    /// Only print `line` and take `output` as what the command printed:
    /// nothing is run.
    Show { line: String, output: String },
    /// Run the command.
    Run,
}

/// What a dry run takes as a command's output: a placeholder where the
/// output is read, nothing otherwise.
pub open spec fn dry_run_output(with_output: bool) -> Seq<char> {
    if with_output {
        "mock output for dry run"@
    } else {
        Seq::empty()
    }
}

/// `p` runs `program` with exactly `args`, in the current directory.
pub open spec fn runs(p: CommandParams, program: Seq<char>, args: Seq<Seq<char>>) -> bool {
    &&& p.program@ == program
    &&& words_of(p.args@) == args
    &&& p.current_dir is None
}

impl CommandExecutor {
    pub fn new(dry_run: bool) -> (e: Self)
        ensures
            e.dry_run == dry_run,
    {
        CommandExecutor { dry_run }
    }

    /// What executing `params` comes to: in a dry run the command is only
    /// shown, never run, and a command whose output is read is taken to have
    /// printed `mock output for dry run`; otherwise it is run.
    pub fn plan(&self, params: &CommandParams, with_output: bool) -> (e: Execution)
        ensures
            self.dry_run ==> (e matches Execution::Show { line, output } && line@ == dry_run_text(
                params.program@,
                words_of(params.args@),
                params.current_dir.deep_view(),
                with_output,
            ) && output@ == dry_run_output(with_output)),
            !self.dry_run ==> e is Run,
    {
        if self.dry_run {
            let output = if with_output {
                String::from_str("mock output for dry run")
            } else {
                String::new()
            };
            Execution::Show { line: params.dry_run_line(with_output), output }
        } else {
            Execution::Run
        }
    }
}

} // verus!
