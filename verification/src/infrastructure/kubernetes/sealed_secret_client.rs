//! Sealed secrets, rendered through a command-line script.

use crate::domain::model::errors::ServiceError;
use crate::domain::model::secrets::SecretRequestDto;
use crate::infrastructure::command::{choose_script, chosen_script, Invocation, InvocationView};
use vstd::prelude::*;

verus! {

pub const KUBESEAL_CLI: &'static str = "./scripts/kubeseal_cli.sh";

pub const RENDER_CMD: &'static str = "render";

/// The file that a rendered secret is written to where none is named.
pub const DEFAULT_DESTINATION: &'static str = "why_is_destination_an_option?";

/// The beginning of the message of a script that failed.
pub const SCRIPT_FAILURE: &'static str = "Error in kubeseal script: ";

/// The literals of a secret as arguments of the tool: for each pair, in
/// order, ` --from-literal=key=value`.
pub open spec fn literals_text(literals: Seq<(Seq<char>, Seq<char>)>) -> Seq<char>
    decreases literals.len(),
{
    if literals.len() == 0 {
        Seq::empty()
    } else {
        literals_text(literals.drop_last()) + " --from-literal="@ + literals.last().0 + "="@
            + literals.last().1
    }
}

/// The characters of the literals of a request.
pub open spec fn literals_view(request: SecretRequestDto) -> Seq<(Seq<char>, Seq<char>)> {
    request.literals@.map_values(|pair: (String, String)| (pair.0@, pair.1@))
}

/// The calls of the kubeseal script that sealing a secret comes to.
#[derive(Clone)]
pub struct KubesealClient {
    cli_script_path: Option<String>,
}

impl KubesealClient {
    /// The script that is run.
    pub closed spec fn script_view(&self) -> Seq<char> {
        chosen_script(self.cli_script_path, KUBESEAL_CLI@)
    }

    /// A client of the script at `cli_script_path` or, where none is given,
    /// of the default script.
    pub fn new(cli_script_path: Option<String>) -> (client: Self)
        ensures
            client.script_view() == chosen_script(cli_script_path, KUBESEAL_CLI@),
    {
        KubesealClient { cli_script_path }
    }

    /// The literals of a request as arguments of the tool, see
    /// [`literals_text`].
    pub fn literals_argument(request: &SecretRequestDto) -> (text: String)
        ensures
            text@ == literals_text(literals_view(*request)),
    {
        let ghost all = literals_view(*request);
        let mut text = String::new();
        let mut i: usize = 0;
        proof {
            assert(all.take(0) =~= Seq::empty());
        }
        while i < request.literals.len()
            invariant
                0 <= i <= request.literals.len(),
                all == literals_view(*request),
                text@ == literals_text(all.take(i as int)),
            decreases request.literals.len() - i,
        {
            proof {
                assert(all.take(i as int + 1).drop_last() =~= all.take(i as int));
                assert(all.take(i as int + 1).last() == (
                    request.literals@[i as int].0@,
                    request.literals@[i as int].1@,
                ));
            }
            text = text.concat(" --from-literal=").concat(request.literals[i].0.as_str()).concat(
                "=",
            ).concat(request.literals[i].1.as_str());
            i = i + 1;
        }
        proof {
            assert(all.take(i as int) =~= all);
        }
        text
    }

    /// The call that renders the sealed secret of a request: `render` and
    /// the secret's name, with the literals in the variable `LITERALS`.
    pub fn render(&self, request: &SecretRequestDto) -> (call: Invocation)
        ensures
            call@ == (InvocationView {
                script: self.script_view(),
                arguments: seq![RENDER_CMD@, request.name@],
                environment: seq![("LITERALS"@, literals_text(literals_view(*request)))],
            }),
    {
        let mut arguments: Vec<String> = Vec::new();
        arguments.push(String::from_str(RENDER_CMD));
        arguments.push(request.name.clone());
        let mut environment: Vec<(String, String)> = Vec::new();
        environment.push((String::from_str("LITERALS"), Self::literals_argument(request)));
        let call = Invocation {
            script: choose_script(&self.cli_script_path, KUBESEAL_CLI),
            arguments,
            environment,
        };
        proof {
            assert(call@.arguments =~= seq![RENDER_CMD@, request.name@]);
            assert(call@.environment =~= seq![
                ("LITERALS"@, literals_text(literals_view(*request))),
            ]);
        }
        call
    }

    /// What a run of the script gave: its output where it succeeded, a
    /// failure that quotes the output where it did not.
    pub fn extract_output_result(succeeded: bool, output: String) -> (rendered: Result<
        String,
        ServiceError,
    >)
        ensures
            succeeded ==> rendered == Ok::<String, ServiceError>(output),
            !succeeded ==> (rendered matches Err(failure) && failure.message@ == SCRIPT_FAILURE@
                + output@),
    {
        if succeeded {
            Ok(output)
        } else {
            Err(ServiceError::new(String::from_str(SCRIPT_FAILURE).concat(output.as_str())))
        }
    }

    /// The file that a rendered secret is written to: the one named, or the
    /// default.
    pub fn destination(destination: Option<String>) -> (path: String)
        ensures
            path@ == match destination {
                Some(named) => named@,
                None => DEFAULT_DESTINATION@,
            },
    {
        match destination {
            Some(named) => named,
            None => String::from_str(DEFAULT_DESTINATION),
        }
    }
}

} // verus!
