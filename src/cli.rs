use vstd::prelude::*;

verus! {

/// What the command line asks for. Volume and speed stay as text: turning
/// them into numbers is left to the caller.
#[derive(Debug, PartialEq, Eq)]
pub enum Command {
    Help,
    Play { path: String, volume: Option<String>, speed: Option<String> },
}

/// Why a command line was refused.
#[derive(Debug, PartialEq, Eq)]
pub enum ArgError {
    /// No argument at all.
    NoArguments,
    /// An argument that is neither a flag, a flag's value, nor the final
    /// file path.
    InvalidArgument(String),
    /// No file path was given.
    NoInputFile,
}

impl ArgError {
    /// The text shown to the user for this error.
    pub fn message(&self) -> (r: String)
        ensures
            match self {
                ArgError::NoArguments => r@ == "Invalid argument count"@,
                ArgError::InvalidArgument(a) => r@ == "Argument '"@ + a@ + "' is invalid"@,
                ArgError::NoInputFile => r@ == "No input file specified"@,
            },
    {
        match self {
            ArgError::NoArguments => String::from_str("Invalid argument count"),
            ArgError::InvalidArgument(a) => {
                let mut m = String::from_str("Argument '");
                m.append(a.as_str());
                m.append("' is invalid");
                m
            },
            ArgError::NoInputFile => String::from_str("No input file specified"),
        }
    }
}

/// What is wrong with the path given as the file to play.
#[derive(Debug, Clone, Copy, PartialEq, Eq, Structural)]
pub enum PathProblem {
    /// Nothing can be read at the path.
    CannotOpen,
    /// The path names something other than a file.
    NotAFile,
}

/// The text shown to the user when the file to play is unusable.
pub fn path_problem_message(path: &String, problem: PathProblem) -> (r: String)
    ensures
        problem == PathProblem::CannotOpen ==> r@ == "Could not open "@ + path@,
        problem == PathProblem::NotAFile ==> r@ == "Specified path "@ + path@ + " is not a file"@,
{
    match problem {
        PathProblem::CannotOpen => {
            let mut m = String::from_str("Could not open ");
            m.append(path.as_str());
            m
        },
        PathProblem::NotAFile => {
            let mut m = String::from_str("Specified path ");
            m.append(path.as_str());
            m.append(" is not a file");
            m
        },
    }
}

/// Which flag, if any, the next argument is the value of.
#[derive(Debug, Clone, Copy, PartialEq, Eq, Structural)]
pub enum Pending {
    Nothing,
    Volume,
    Speed,
}

/// The state of a left-to-right scan over the arguments.
pub struct ScanView {
    pub pending: Pending,
    pub volume: Option<Seq<char>>,
    pub speed: Option<Seq<char>>,
    pub path: Seq<char>,
}

pub open spec fn is_help_word(a: Seq<char>) -> bool {
    a == "help"@ || a == "h"@ || a == "--help"@ || a == "/?"@ || a == "-h"@
}

/// One argument of the scan: a value for a pending flag, a flag, the file
/// path when it is the last argument, or else an error naming it.
pub open spec fn scan_step(st: ScanView, a: Seq<char>, last: bool) -> Result<ScanView, Seq<char>> {
    match st.pending {
        Pending::Volume => Ok(ScanView { pending: Pending::Nothing, volume: Some(a), ..st }),
        Pending::Speed => Ok(ScanView { pending: Pending::Nothing, speed: Some(a), ..st }),
        Pending::Nothing => if a == "--volume"@ {
            Ok(ScanView { pending: Pending::Volume, ..st })
        } else if a == "--speed"@ {
            Ok(ScanView { pending: Pending::Speed, ..st })
        } else if last {
            Ok(ScanView { path: a, ..st })
        } else {
            Err(a)
        },
    }
}

/// The scan over the first `i` arguments.
pub open spec fn scan(args: Seq<Seq<char>>, i: nat) -> Result<ScanView, Seq<char>>
    decreases i,
{
    if i == 0 {
        Ok(ScanView { pending: Pending::Nothing, volume: None, speed: None, path: Seq::empty() })
    } else {
        match scan(args, (i - 1) as nat) {
            Ok(st) => scan_step(st, args[i - 1], i == args.len()),
            Err(bad) => Err(bad),
        }
    }
}

pub open spec fn args_view(args: Seq<String>) -> Seq<Seq<char>> {
    args.map_values(|a: String| a@)
}

pub open spec fn opt_view(o: Option<String>) -> Option<Seq<char>> {
    match o {
        Some(s) => Some(s@),
        None => None,
    }
}

/// Whether `r` is the play command for `path`, `volume` and `speed`.
pub open spec fn is_play(r: Result<Command, ArgError>, path: Seq<char>, volume: Option<Seq<char>>, speed: Option<Seq<char>>) -> bool {
    match r {
        Ok(Command::Play { path: p, volume: v, speed: s }) => p@ == path && opt_view(v) == volume && opt_view(s) == speed,
        _ => false,
    }
}

fn is_word(a: &String, w: &str) -> (r: bool)
    ensures
        r == (a@ == w@),
{
    *a == String::from_str(w)
}

/// Sorts out the arguments after the program name. With none, that is an
/// error; a single one is a help word or the file to play; otherwise
/// `--volume` and `--speed` each take the next argument as their value,
/// and the last argument is the file path.
pub fn parse_args(args: &Vec<String>) -> (r: Result<Command, ArgError>)
    ensures
        args@.len() == 0 ==> r == Err::<Command, ArgError>(ArgError::NoArguments),
        args@.len() == 1 && is_help_word(args@[0]@) ==> r == Ok::<Command, ArgError>(Command::Help),
        args@.len() == 1 && !is_help_word(args@[0]@) ==> is_play(r, args@[0]@, None, None),
        args@.len() >= 2 ==> match scan(args_view(args@), args@.len()) {
            Err(bad) => match r {
                Err(ArgError::InvalidArgument(a)) => a@ == bad,
                _ => false,
            },
            Ok(st) => if st.path.len() == 0 {
                r == Err::<Command, ArgError>(ArgError::NoInputFile)
            } else {
                is_play(r, st.path, st.volume, st.speed)
            },
        },
{
    let n = args.len();
    if n == 0 {
        return Err(ArgError::NoArguments);
    }
    if n == 1 {
        let a = &args[0];
        if is_word(a, "help") || is_word(a, "h") || is_word(a, "--help") || is_word(a, "/?") || is_word(a, "-h") {
            return Ok(Command::Help);
        }
        return Ok(Command::Play { path: a.clone(), volume: None, speed: None });
    }
    let ghost av = args_view(args@);
    let mut pending = Pending::Nothing;
    let mut volume: Option<String> = None;
    let mut speed: Option<String> = None;
    let mut path = String::new();
    let mut i: usize = 0;
    while i < n
        invariant
            n == args@.len(),
            av == args_view(args@),
            i <= n,
            scan(av, i as nat) == Ok::<ScanView, Seq<char>>(
                ScanView { pending, volume: opt_view(volume), speed: opt_view(speed), path: path@ },
            ),
        decreases n - i,
    {
        let a = &args[i];
        assert(av[i as int] == a@);
        match pending {
            Pending::Volume => {
                volume = Some(a.clone());
                pending = Pending::Nothing;
            },
            Pending::Speed => {
                speed = Some(a.clone());
                pending = Pending::Nothing;
            },
            Pending::Nothing => {
                if is_word(a, "--volume") {
                    pending = Pending::Volume;
                } else if is_word(a, "--speed") {
                    pending = Pending::Speed;
                } else if i == n - 1 {
                    path = a.clone();
                } else {
                    let bad = a.clone();
                    proof {
                        lemma_scan_error_sticks(av, (i + 1) as nat, n as nat);
                    }
                    return Err(ArgError::InvalidArgument(bad));
                }
            },
        }
        i += 1;
    }
    if path.as_str().is_empty() {
        proof {
            assert(path@.len() == 0);
        }
        Err(ArgError::NoInputFile)
    } else {
        Ok(Command::Play { path, volume, speed })
    }
}

proof fn lemma_scan_error_sticks(args: Seq<Seq<char>>, i: nat, j: nat)
    requires
        i <= j,
        scan(args, i) is Err,
    ensures
        scan(args, j) == scan(args, i),
    decreases j - i,
{
    if i < j {
        lemma_scan_error_sticks(args, i, (j - 1) as nat);
    }
}

} // verus!
