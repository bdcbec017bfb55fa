use vstd::prelude::*;

verus! {

/// Relies on anyhow::Error as an opaque type: it carries the system-level
/// failure layer of a greeting result; nothing is assumed of its contents.
#[verifier::external_type_specification]
#[verifier::external_body]
pub struct ExAnyhowError(anyhow::Error);

/// What can go wrong when a greeting is built.
#[derive(Debug, PartialEq, Eq)]
pub enum GreetingError {
    /// No gender was given. Reserved: the builder never produces it.
    UnknownGender,
    /// A gender outside the recognised set; carries the raw value.
    InvalidGender(String),
}

/// The message of a greeting error.
pub open spec fn error_message(e: GreetingError) -> Seq<char> {
    match e {
        GreetingError::UnknownGender => "gender not specified"@,
        GreetingError::InvalidGender(g) => "invalid gender: "@ + g@,
    }
}

impl GreetingError {
    /// The human-readable message of this error.
    pub fn to_string(&self) -> (r: String)
        ensures
            r@ == error_message(*self),
    {
        match self {
            GreetingError::UnknownGender => String::from_str("gender not specified"),
            GreetingError::InvalidGender(g) => String::from_str("invalid gender: ").concat(g.as_str()),
        }
    }
}

/// The outcome of building a greeting.
///
/// - `Ok(Ok(s))`: the greeting.
/// - `Ok(Err(e))`: a recoverable classification error.
/// - `Err(e)`: a system-level failure (never produced by `sayhello`).
pub type GreetingResult<T> = Result<Result<T, GreetingError>, anyhow::Error>;

/// The text of an optional string slice.
pub open spec fn text_of(s: Option<&str>) -> Option<Seq<char>> {
    match s {
        Some(t) => Some(t@),
        None => None,
    }
}

/// The greeting for `name` and `gender`, or the invalid gender text.
pub open spec fn greeting(name: Seq<char>, gender: Option<Seq<char>>) -> Result<Seq<char>, Seq<char>> {
    match gender {
        None => Ok("Hi, "@ + name),
        Some(g) => if g == "man"@ {
            Ok("Hi, Mr. "@ + name)
        } else if g == "woman"@ {
            Ok("Hi, Ms. "@ + name)
        } else {
            Err(g)
        },
    }
}

/// What a greeting result holds: `None` for the outcomes that the builder
/// never produces (a system failure, `UnknownGender`).
pub open spec fn outcome(r: GreetingResult<String>) -> Option<Result<Seq<char>, Seq<char>>> {
    match r {
        Ok(Ok(s)) => Some(Ok(s@)),
        Ok(Err(GreetingError::InvalidGender(g))) => Some(Err(g@)),
        _ => None,
    }
}

/// Whether two string slices hold the same text.
fn same_text(a: &str, b: &str) -> (r: bool)
    ensures
        r == (a@ == b@),
{
    String::from_str(a) == String::from_str(b)
}

/// Builds the greeting for `name`, titled by `gender`.
///
/// No gender gives `"Hi, {name}"`, `"man"` gives `"Hi, Mr. {name}"` and
/// `"woman"` gives `"Hi, Ms. {name}"`. Any other gender, the empty one
/// included, is reported as `InvalidGender` with the raw value.
pub fn sayhello(name: &str, gender: Option<&str>) -> (r: GreetingResult<String>)
    ensures
        outcome(r) == Some(greeting(name@, text_of(gender))),
{
    let result = match gender {
        None => Ok(String::from_str("Hi, ").concat(name)),
        Some(g) => if same_text(g, "man") {
            Ok(String::from_str("Hi, Mr. ").concat(name))
        } else if same_text(g, "woman") {
            Ok(String::from_str("Hi, Ms. ").concat(name))
        } else {
            Err(GreetingError::InvalidGender(String::from_str(g)))
        },
    };
    Ok(result)
}

/// Building a greeting is a pure function of its inputs: two results that
/// each meet the builder's contract for the same name and gender hold the
/// same outcome.
pub proof fn lemma_sayhello_deterministic(
    name: Seq<char>,
    gender: Option<Seq<char>>,
    r1: GreetingResult<String>,
    r2: GreetingResult<String>,
)
    requires
        outcome(r1) == Some(greeting(name, gender)),
        outcome(r2) == Some(greeting(name, gender)),
    ensures
        outcome(r1) == outcome(r2),
{
}

} // verus!
