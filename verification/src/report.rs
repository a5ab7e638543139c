//! The lines the process prints when started in its report form, which
//! echoes every loaded setting and secret instead of dispatching a command.

use crate::secrets::Secrets;
use crate::settings::Settings;
use vstd::prelude::*;
use vstd::string::StringExecFns;

verus! {

/// The six report lines, in the order they are printed: the three
/// file-backed settings, then the three environment-backed secrets, each
/// behind its label.
pub open spec fn report_lines_spec(settings: Settings, secrets: Secrets) -> Seq<Seq<char>> {
    seq![
        "Database URL: "@ + settings.database_url@,
        "Marvel API Base URL: "@ + settings.marvel_base_url@,
        "ComicVine API Base URL: "@ + settings.comicvine_base_url@,
        "Marvel API Public Key: "@ + secrets.marvel_public_key@,
        "Marvel API Private Key: "@ + secrets.marvel_private_key@,
        "ComicVine API Key: "@ + secrets.comicvine_key@,
    ]
}

/// Builds the startup report: one labelled line for each loaded value.
pub fn report_lines(settings: &Settings, secrets: &Secrets) -> (r: Vec<String>)
    ensures
        r.deep_view() == report_lines_spec(*settings, *secrets),
{
    let mut lines: Vec<String> = Vec::new();
    lines.push(String::from_str("Database URL: ").concat(settings.database_url.as_str()));
    lines.push(String::from_str("Marvel API Base URL: ").concat(settings.marvel_base_url.as_str()));
    lines.push(
        String::from_str("ComicVine API Base URL: ").concat(settings.comicvine_base_url.as_str()),
    );
    lines.push(
        String::from_str("Marvel API Public Key: ").concat(secrets.marvel_public_key.as_str()),
    );
    lines.push(
        String::from_str("Marvel API Private Key: ").concat(secrets.marvel_private_key.as_str()),
    );
    lines.push(String::from_str("ComicVine API Key: ").concat(secrets.comicvine_key.as_str()));
    proof {
        assert(lines.deep_view() =~~= report_lines_spec(*settings, *secrets));
    }
    lines
}

/// The report form is free of hidden state as well: any two runs over the
/// same loaded settings and secrets print the same six lines, since
/// [`report_lines`] pins its result to a function of those values alone.
pub proof fn lemma_report_deterministic(
    settings: Settings,
    secrets: Secrets,
    first: Seq<Seq<char>>,
    second: Seq<Seq<char>>,
)
    requires
        first == report_lines_spec(settings, secrets),
        second == report_lines_spec(settings, secrets),
    ensures
        first == second,
{
}

} // verus!
