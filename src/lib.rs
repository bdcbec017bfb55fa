//! A greeting library: builds a greeting from a name and an optional gender,
//! and works out the line (and any notice) that a greeting run reports.

use vstd::prelude::*;

pub mod libs;

use crate::libs::hello::{greeting, sayhello, text_of, GreetingError};

verus! {

/// The name greeted when none is given.
pub const DEFAULT_NAME: &'static str = "Youre";

/// Something a greeting run reports beside its line.
#[derive(Debug)]
pub enum Notice {
    /// The gender was not recognised; carries the raw value. Reported as a warning.
    InvalidGender(String),
    /// Building the greeting failed at the system level. Reported as an error.
    Failure(anyhow::Error),
}

/// What a greeting run reports: an optional notice, then the line.
#[derive(Debug)]
pub struct RunOutput {
    pub notice: Option<Notice>,
    pub message: String,
}

/// The greeting shown for `name` and `gender`: an unrecognised gender falls
/// back to the plain greeting, annotated with the raw value.
pub open spec fn shown_greeting(name: Seq<char>, gender: Option<Seq<char>>) -> Seq<char> {
    match greeting(name, gender) {
        Ok(s) => s,
        Err(g) => "Hi, "@ + name + " (invalid gender: "@ + g + ")"@,
    }
}

/// The line a greeting run reports.
pub open spec fn run_line(name: Seq<char>, gender: Option<Seq<char>>) -> Seq<char> {
    shown_greeting(name, gender) + ", new world!!"@
}

/// The gender the builder rejects for `name` and `gender`, if any.
pub open spec fn rejected_gender(name: Seq<char>, gender: Option<Seq<char>>) -> Option<Seq<char>> {
    match greeting(name, gender) {
        Ok(_) => None,
        Err(g) => Some(g),
    }
}

/// The notice a greeting run reports: the raw gender when it is unrecognised.
pub open spec fn run_notice(r: RunOutput) -> Option<Seq<char>> {
    match r.notice {
        Some(Notice::InvalidGender(g)) => Some(g@),
        _ => None,
    }
}

/// Works out what a greeting run for `name` and `gender` reports.
///
/// The line is the greeting followed by `", new world!!"`. An unrecognised
/// gender does not fail the run: the line falls back to
/// `"Hi, {name} (invalid gender: {gender})"` and the notice carries the value.
pub fn run(name: &str, gender: Option<&str>) -> (r: RunOutput)
    ensures
        r.message@ == run_line(name@, text_of(gender)),
        run_notice(r) == rejected_gender(name@, text_of(gender)),
        !(r.notice matches Some(Notice::Failure(_))),
{
    let (shown, notice) = match sayhello(name, gender) {
        Ok(Ok(msg)) => (msg, None),
        Ok(Err(GreetingError::UnknownGender)) => (String::from_str("Hi, ").concat(name), None),
        Ok(Err(GreetingError::InvalidGender(invalid))) => {
            let shown = String::from_str("Hi, ").concat(name).concat(" (invalid gender: ").concat(
                invalid.as_str(),
            ).concat(")");
            (shown, Some(Notice::InvalidGender(invalid)))
        },
        Err(e) => (String::from_str("Hi, ").concat(name), Some(Notice::Failure(e))),
    };
    RunOutput { notice, message: shown.concat(", new world!!") }
}

/// An unrecognised gender (anything but `"man"` and `"woman"`, the empty
/// text included) is reported by the builder as invalid, with its raw value,
/// and a run then reports the plain greeting annotated with that value.
pub proof fn lemma_invalid_gender_falls_back(name: Seq<char>, g: Seq<char>)
    requires
        g != "man"@,
        g != "woman"@,
    ensures
        greeting(name, Some(g)) == Err::<Seq<char>, Seq<char>>(g),
        shown_greeting(name, Some(g)) == "Hi, "@ + name + " (invalid gender: "@ + g + ")"@,
        run_line(name, Some(g)) == "Hi, "@ + name + " (invalid gender: "@ + g + ")"@
            + ", new world!!"@,
{
}

/// A greeting run is a pure function of its inputs: two outputs that each
/// meet the contract of `run` for the same name and gender report the same
/// line and the same notice.
pub proof fn lemma_run_deterministic(
    name: Seq<char>,
    gender: Option<Seq<char>>,
    r1: RunOutput,
    r2: RunOutput,
)
    requires
        r1.message@ == run_line(name, gender),
        r2.message@ == run_line(name, gender),
        run_notice(r1) == rejected_gender(name, gender),
        run_notice(r2) == rejected_gender(name, gender),
    ensures
        r1.message@ == r2.message@,
        run_notice(r1) == run_notice(r2),
{
}

/// The version line of the program: `"{program} version {version} (rev:{rev})"`.
pub open spec fn version_line(program: Seq<char>, version: Seq<char>, rev: Seq<char>) -> Seq<char> {
    program + " version "@ + version + " (rev:"@ + rev + ")"@
}

/// Builds the version line from the program name, its version and the build's revision.
pub fn version_text(program: &str, version: &str, rev: &str) -> (r: String)
    ensures
        r@ == version_line(program@, version@, rev@),
{
    String::from_str(program).concat(" version ").concat(version).concat(" (rev:").concat(rev).concat(")")
}

} // verus!
