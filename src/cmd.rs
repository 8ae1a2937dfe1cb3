//! Running one external command: what to launch, with which environment, how
//! each event of the running child is answered, and what its exit code means.
use vstd::prelude::*;

use crate::chars::same_text;
use crate::classify::{classify_line, line_errored, line_severity, line_text, ClassifiedLine, Origin};
use crate::template::{split_command, str_views, string_views, substitute, transform_args, words};

verus! {

/// `std::io::Error`, carried through as the cause of a failed spawn or read.
#[verifier::external_type_specification]
#[verifier::external_body]
pub struct ExIoError(std::io::Error);

#[derive(Debug)]
pub enum CommandError {
    /// The process could not be spawned, read from or waited on.
    IO(std::io::Error),
    /// The command line held no program.
    MissingCommand,
    /// The process exited with this code, which is not zero.
    NoZeroExitCode(i32),
}

/// A program and the arguments it is launched with.
#[derive(Debug, Clone)]
pub struct CommandLine {
    pub program: String,
    pub args: Vec<String>,
}

pub open spec fn template_args(template: Seq<char>, subs: Seq<Seq<char>>) -> Seq<Seq<char>> {
    words(template).drop_first().map_values(|t: Seq<char>| substitute(t, subs))
}

fn to_strings(v: &Vec<&str>) -> (r: Vec<String>)
    ensures
        string_views(r@) == str_views(v@),
{
    let mut out: Vec<String> = Vec::with_capacity(v.len());
    let mut i: usize = 0;
    while i < v.len()
        invariant
            i <= v@.len(),
            string_views(out@) =~= str_views(v@).take(i as int),
        decreases v@.len() - i,
    {
        let s = String::from_str(v[i]);
        proof {
            assert(string_views(out@.push(s)) =~= string_views(out@).push(s@));
            assert(str_views(v@).take(i + 1) =~= str_views(v@).take(i as int).push(v@[i as int]@));
        }
        out.push(s);
        i += 1;
    }
    assert(str_views(v@).take(v@.len() as int) =~= str_views(v@));
    out
}

/// Reads a command template: its first word is the program, and the words
/// after it, with their placeholders resolved against `args_in`, are the
/// arguments. A template with no word is refused with `MissingCommand`.
pub fn plan_template(template: &str, args_in: &[&str]) -> (r: Result<CommandLine, CommandError>)
    ensures
        r is Err <==> words(template@).len() == 0,
        match r {
            Ok(line) => {
                &&& line.program@ == words(template@)[0]
                &&& line.args@.len() == words(template@).len() - 1
                &&& string_views(line.args@) == template_args(template@, str_views(args_in@))
            },
            Err(e) => e is MissingCommand,
        },
{
    let (program, args) = match split_command(template) {
        Some(parts) => parts,
        None => {
            return Err(CommandError::MissingCommand);
        },
    };
    let resolved = transform_args(args, args_in);
    let strings = to_strings(&resolved);
    proof {
        assert(string_views(strings@) =~= template_args(template@, str_views(args_in@)));
    }
    Ok(CommandLine { program: String::from_str(program), args: strings })
}

/// The code a finished process is judged by: one that the platform could not
/// report counts as zero.
pub open spec fn exit_code(code: Option<i32>) -> i32 {
    match code {
        Some(c) => c,
        None => 0,
    }
}

pub open spec fn exit_result(code: Option<i32>) -> Result<(), CommandError> {
    if exit_code(code) == 0 {
        Ok(())
    } else {
        Err(CommandError::NoZeroExitCode(exit_code(code)))
    }
}

/// Success for a zero (or unreported) exit code; `NoZeroExitCode` with the
/// code for any other.
pub fn exit_outcome(code: Option<i32>) -> (r: Result<(), CommandError>)
    ensures
        r == exit_result(code),
{
    let c = match code {
        Some(c) => c,
        None => 0,
    };
    if c == 0 {
        Ok(())
    } else {
        Err(CommandError::NoZeroExitCode(c))
    }
}


/// Asks the JVM not to check the class path's URLs.
pub const JAVA_ENV: &'static str = "_JAVA_OPTIONS";

pub const JAVA_DEFAULT: &'static str = "-Djdk.net.URLClassPath.disableClassPathURLCheck=true";

/// Bounds the build tool's heap.
pub const MAVEN_ENV: &'static str = "MAVEN_OPTS";

pub const MAVEN_DEFAULT: &'static str = "-Xmx1024M";

pub open spec fn pair_views(v: Seq<(String, String)>) -> Seq<(Seq<char>, Seq<char>)> {
    v.map_values(|p: (String, String)| (p.0@, p.1@))
}

/// The variables that a command is launched with on top of the ambient
/// environment: each default whose variable is not among `present`.
pub open spec fn env_defaults(present: Seq<Seq<char>>) -> Seq<(Seq<char>, Seq<char>)> {
    let java = if present.contains(JAVA_ENV@) {
        seq![]
    } else {
        seq![(JAVA_ENV@, JAVA_DEFAULT@)]
    };
    let maven = if present.contains(MAVEN_ENV@) {
        seq![]
    } else {
        seq![(MAVEN_ENV@, MAVEN_DEFAULT@)]
    };
    java + maven
}

fn is_listed(names: &[&str], name: &str) -> (r: bool)
    ensures
        r == str_views(names@).contains(name@),
{
    let mut i: usize = 0;
    while i < names.len()
        invariant
            i <= names@.len(),
            forall|k: int| 0 <= k < i ==> names@[k]@ != name@,
        decreases names@.len() - i,
    {
        if same_text(names[i], name) {
            assert(str_views(names@)[i as int] == name@);
            return true;
        }
        i += 1;
    }
    assert forall|k: int| 0 <= k < str_views(names@).len() implies str_views(names@)[k] != name@ by {
        assert(str_views(names@)[k] == names@[k]@);
    }
    false
}

/// The environment defaults to set for a command, given the names of the
/// variables that the ambient environment already holds.
pub fn env_overrides(present: &[&str]) -> (r: Vec<(String, String)>)
    ensures
        pair_views(r@) == env_defaults(str_views(present@)),
{
    let mut out: Vec<(String, String)> = Vec::new();
    if !is_listed(present, JAVA_ENV) {
        out.push((String::from_str(JAVA_ENV), String::from_str(JAVA_DEFAULT)));
    }
    if !is_listed(present, MAVEN_ENV) {
        out.push((String::from_str(MAVEN_ENV), String::from_str(MAVEN_DEFAULT)));
    }
    proof {
        assert(pair_views(out@) =~= env_defaults(str_views(present@)));
    }
    out
}

} // verus!
