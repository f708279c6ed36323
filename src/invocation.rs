//! What to start: the program, its arguments and the bytes for its input,
//! for each operation, and how one platform reaches the runner through a
//! shell.

use vstd::prelude::*;
use vstd::string::StringSliceAdditionalSpecFns;

verus! {

/// The model-runner executable.
pub const RUNNER: &'static str = "ollama";

/// The model used when a prompt names none.
pub const DEFAULT_MODEL: &'static str = "deepseek-r1:7b";

/// The shell that wraps the runner where it cannot be started directly.
pub const SHELL: &'static str = "powershell";

/// The shell's flag that takes a command line.
pub const SHELL_COMMAND_FLAG: &'static str = "-Command";

/// The runner's verb that answers a prompt read from its input.
pub const RUN_VERB: &'static str = "run";

/// The runner's verb that reports on loaded models.
pub const STATUS_VERB: &'static str = "ps";

/// The runner's flag that prints its version.
pub const VERSION_FLAG: &'static str = "--version";

/// The command that finds an executable on the search path, on Windows.
pub const LOCATE_WINDOWS: &'static str = "where";

/// The command that finds an executable on the search path, elsewhere.
pub const LOCATE_UNIX: &'static str = "which";

/// The host platform, as far as the choice of commands depends on it.
#[derive(Clone, Copy, Debug, PartialEq, Eq, Structural)]
pub enum Platform {
    Windows,
    Unix,
}

/// How a program is started: directly, or as a command line handed to a
/// shell.
#[derive(Clone, Copy, Debug, PartialEq, Eq, Structural)]
pub enum Wrapping {
    Direct,
    Shell,
}

/// One process to start: the program, its arguments in order, and the
/// bytes to write to its input, if any.
pub struct Invocation {
    pub program: String,
    pub args: Vec<String>,
    pub input: Option<Vec<u8>>,
}

/// The characters of each string.
pub open spec fn texts(v: Seq<String>) -> Seq<Seq<char>> {
    v.map_values(|s: String| s@)
}

/// The bytes to write to the input, if any.
pub open spec fn input_bytes(i: Option<Vec<u8>>) -> Option<Seq<u8>> {
    match i {
        Some(b) => Some(b@),
        None => None,
    }
}

impl Invocation {
    /// The invocation as plain values: program, arguments and input.
    pub open spec fn view(&self) -> (Seq<char>, Seq<Seq<char>>, Option<Seq<u8>>) {
        (self.program@, texts(self.args@), input_bytes(self.input))
    }
}

/// The words joined by single spaces.
pub open spec fn joined(words: Seq<Seq<char>>) -> Seq<char>
    decreases words.len(),
{
    if words.len() == 0 {
        Seq::empty()
    } else if words.len() == 1 {
        words[0]
    } else {
        joined(words.drop_last()) + seq![' '] + words.last()
    }
}

/// The wrapping used on each platform.
pub open spec fn spec_wrapping_for(p: Platform) -> Wrapping {
    match p {
        Platform::Windows => Wrapping::Shell,
        Platform::Unix => Wrapping::Direct,
    }
}

/// What a program with its arguments becomes under a wrapping.
pub open spec fn wrapped(w: Wrapping, program: Seq<char>, args: Seq<Seq<char>>) -> (
    Seq<char>,
    Seq<Seq<char>>,
) {
    match w {
        Wrapping::Direct => (program, args),
        Wrapping::Shell => (SHELL@, seq![SHELL_COMMAND_FLAG@, joined(seq![program] + args)]),
    }
}

/// On Windows the runner may not be on the inherited search path, so it is
/// reached through the shell; elsewhere it is started directly.
pub fn wrapping_for(p: Platform) -> (r: Wrapping)
    ensures
        r == spec_wrapping_for(p),
{
    match p {
        Platform::Windows => Wrapping::Shell,
        Platform::Unix => Wrapping::Direct,
    }
}

/// Joins the words with single spaces into one command line.
pub fn command_line(words: &Vec<String>) -> (r: String)
    ensures
        r@ == joined(texts(words@)),
{
    let ghost ws = texts(words@);
    let mut r = String::new();
    let mut i: usize = 0;
    while i < words.len()
        invariant
            i <= words.len(),
            ws == texts(words@),
            r@ == joined(ws.take(i as int)),
        decreases words.len() - i,
    {
        assert(ws.take(i + 1).drop_last() =~= ws.take(i as int));
        if i > 0 {
            r.append(" ");
            proof {
                reveal_strlit(" ");
            }
        }
        r.append(words[i].as_str());
        assert(r@ =~= joined(ws.take(i + 1)));
        i += 1;
    }
    assert(ws.take(words.len() as int) =~= ws);
    r
}

/// Builds the invocation of `program` with `args` under a wrapping.
pub fn wrap(w: Wrapping, program: &str, args: Vec<String>, input: Option<Vec<u8>>) -> (r:
    Invocation)
    ensures
        (r.view().0, r.view().1) == wrapped(w, program@, texts(args@)),
        r.view().2 == input_bytes(input),
{
    match w {
        Wrapping::Direct => Invocation { program: String::from_str(program), args, input },
        Wrapping::Shell => {
            let mut words: Vec<String> = Vec::new();
            words.push(String::from_str(program));
            let mut i: usize = 0;
            while i < args.len()
                invariant
                    i <= args.len(),
                    words.len() == i + 1,
                    words@[0]@ == program@,
                    forall|k: int| 0 <= k < i ==> words@[k + 1]@ == args@[k]@,
                decreases args.len() - i,
            {
                words.push(args[i].clone());
                i += 1;
            }
            assert(texts(words@) =~= seq![program@] + texts(args@));
            let line = command_line(&words);
            let mut wrapped_args: Vec<String> = Vec::new();
            wrapped_args.push(String::from_str(SHELL_COMMAND_FLAG));
            wrapped_args.push(line);
            assert(texts(wrapped_args@) =~= seq![SHELL_COMMAND_FLAG@, joined(seq![program@] + texts(args@))]);
            Invocation { program: String::from_str(SHELL), args: wrapped_args, input }
        },
    }
}

/// The model a prompt is run with.
pub open spec fn chosen_model(model: Option<String>) -> Seq<char> {
    match model {
        Some(m) => m@,
        None => DEFAULT_MODEL@,
    }
}

/// The command that finds an executable on each platform.
pub open spec fn locator(p: Platform) -> Seq<char> {
    match p {
        Platform::Windows => LOCATE_WINDOWS@,
        Platform::Unix => LOCATE_UNIX@,
    }
}

/// Runs the prompt through the runner: `ollama run <model>`, started
/// directly, with the prompt's bytes written to its input; the model is
/// the default one where none is given.
pub fn run_prompt_request(prompt: &str, model: Option<String>) -> (r: Invocation)
    ensures
        r.view() == (RUNNER@, seq![RUN_VERB@, chosen_model(model)], Some(prompt.spec_bytes())),
{
    let ghost chosen = chosen_model(model);
    let m = match model {
        Some(m) => m,
        None => String::from_str(DEFAULT_MODEL),
    };
    let mut args: Vec<String> = Vec::new();
    args.push(String::from_str(RUN_VERB));
    args.push(m);
    assert(texts(args@) =~= seq![RUN_VERB@, chosen]);
    Invocation { program: String::from_str(RUNNER), args, input: Some(prompt.as_bytes_vec()) }
}

/// Asks the runner for its version, which shows that it is installed.
pub fn check_tool_installed_request(p: Platform) -> (r: Invocation)
    ensures
        (r.view().0, r.view().1) == wrapped(spec_wrapping_for(p), RUNNER@, seq![VERSION_FLAG@]),
        r.view().2 is None,
{
    let mut args: Vec<String> = Vec::new();
    args.push(String::from_str(VERSION_FLAG));
    assert(texts(args@) =~= seq![VERSION_FLAG@]);
    wrap(wrapping_for(p), RUNNER, args, None)
}

/// Asks the runner about the default model, which shows whether it is
/// ready.
pub fn check_model_ready_request(p: Platform) -> (r: Invocation)
    ensures
        (r.view().0, r.view().1) == wrapped(
            spec_wrapping_for(p),
            RUNNER@,
            seq![STATUS_VERB@, DEFAULT_MODEL@],
        ),
        r.view().2 is None,
{
    let mut args: Vec<String> = Vec::new();
    args.push(String::from_str(STATUS_VERB));
    args.push(String::from_str(DEFAULT_MODEL));
    assert(texts(args@) =~= seq![STATUS_VERB@, DEFAULT_MODEL@]);
    wrap(wrapping_for(p), RUNNER, args, None)
}

/// Asks the platform's locate command where the runner is installed.
pub fn locate_tool_request(p: Platform) -> (r: Invocation)
    ensures
        r.view() == (locator(p), seq![RUNNER@], None::<Seq<u8>>),
{
    let program = match p {
        Platform::Windows => String::from_str(LOCATE_WINDOWS),
        Platform::Unix => String::from_str(LOCATE_UNIX),
    };
    let mut args: Vec<String> = Vec::new();
    args.push(String::from_str(RUNNER));
    assert(texts(args@) =~= seq![RUNNER@]);
    Invocation { program, args, input: None }
}

} // verus!
