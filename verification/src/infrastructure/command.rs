//! A call of an outside tool, as data.
//!
//! The clients of the command-line tools decide here what is run: which
//! script, with which arguments and which variables. Running it is left to
//! the caller.

use vstd::prelude::*;

verus! {

/// One call of a script.
#[derive(Clone, Debug, PartialEq, Eq)]
pub struct Invocation {
    /// The script that is run.
    pub script: String,
    /// Its arguments, in order.
    pub arguments: Vec<String>,
    /// The variables set for it, as pairs of a name and a value.
    pub environment: Vec<(String, String)>,
}

/// An [`Invocation`] as characters.
pub struct InvocationView {
    pub script: Seq<char>,
    pub arguments: Seq<Seq<char>>,
    pub environment: Seq<(Seq<char>, Seq<char>)>,
}

impl View for Invocation {
    type V = InvocationView;

    open spec fn view(&self) -> InvocationView {
        InvocationView {
            script: self.script@,
            arguments: self.arguments@.map_values(|argument: String| argument@),
            environment: self.environment@.map_values(
                |pair: (String, String)| (pair.0@, pair.1@),
            ),
        }
    }
}

/// The script that a client runs: the one it was given, or `default_script`.
pub open spec fn chosen_script(given: Option<String>, default_script: Seq<char>) -> Seq<char> {
    match given {
        Some(path) => path@,
        None => default_script,
    }
}

/// The script that a client runs, see [`chosen_script`].
pub fn choose_script(given: &Option<String>, default_script: &str) -> (script: String)
    ensures
        script@ == chosen_script(*given, default_script@),
{
    match given {
        Some(path) => path.clone(),
        None => String::from_str(default_script),
    }
}

} // verus!
