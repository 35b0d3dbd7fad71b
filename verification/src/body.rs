//! Where the body of the message comes from.
//!
//! Input that is piped into the process is the body. Only where standard
//! input is an interactive terminal is a body file read: the one that the
//! command line names, else the one of the settings.

use crate::args::{optional_view, ArgsView};
use crate::effective::{spec_prefer, spec_resolve};
use crate::settings::SettingsView;
use vstd::prelude::*;

verus! {

/// The place that the body is read from.
#[derive(Debug, Clone, PartialEq, Eq)]
pub enum BodySource {
    /// All of standard input.
    StandardInput,
    /// The file at this path.
    File(String),
}

/// What a `BodySource` holds.
pub enum BodySourceView {
    StandardInput,
    File(Seq<char>),
}

impl View for BodySource {
    type V = BodySourceView;

    open spec fn view(&self) -> BodySourceView {
        match self {
            BodySource::StandardInput => BodySourceView::StandardInput,
            BodySource::File(path) => BodySourceView::File(path@),
        }
    }
}

/// The source of the body, given whether standard input is an interactive
/// terminal.
pub open spec fn spec_body_source(
    interactive: bool,
    args_body: Option<Seq<char>>,
    settings_body: Seq<char>,
) -> BodySourceView {
    if !interactive {
        BodySourceView::StandardInput
    } else {
        BodySourceView::File(spec_prefer(args_body, settings_body))
    }
}

/// Chooses the source of the body, given whether standard input is an
/// interactive terminal.
pub fn select_body_source(
    interactive: bool,
    args_body: Option<String>,
    settings_body: String,
) -> (source: BodySource)
    ensures
        source@ == spec_body_source(interactive, optional_view(args_body), settings_body@),
{
    if !interactive {
        BodySource::StandardInput
    } else {
        match args_body {
            Some(path) => BodySource::File(path),
            None => BodySource::File(settings_body),
        }
    }
}

/// Whether standard input is an interactive terminal, as `atty::is` reports it
/// for `Stream::Stdin`. The answer depends on how the process was started, so
/// nothing is claimed of it.
#[verifier::external_body]
fn stdin_is_terminal() -> bool {
    atty::is(atty::Stream::Stdin)
}

/// Chooses the source of the body for this process: standard input unless it
/// is an interactive terminal, else the body file.
pub fn body_source(args_body: Option<String>, settings_body: String) -> (source: BodySource)
    ensures
        source@ == spec_body_source(true, optional_view(args_body), settings_body@) || source@
            == spec_body_source(false, optional_view(args_body), settings_body@),
{
    let interactive = stdin_is_terminal();
    select_body_source(interactive, args_body, settings_body)
}

/// Piped input is the body, whatever body files are named.
pub proof fn lemma_piped_input_is_the_body(args_body: Option<Seq<char>>, settings_body: Seq<char>)
    ensures
        spec_body_source(false, args_body, settings_body) == BodySourceView::StandardInput,
{
}

/// At an interactive terminal the body is read from the effective body file:
/// the one of the command line where it names one, else the one of the
/// settings.
pub proof fn lemma_interactive_reads_body_file(args: ArgsView, settings: SettingsView)
    ensures
        spec_body_source(true, args.body_file, settings.body_file) == BodySourceView::File(
            spec_resolve(args, settings).body_file,
        ),
        args.body_file matches Some(path) ==> spec_body_source(
            true,
            args.body_file,
            settings.body_file,
        ) == BodySourceView::File(path),
{
}

} // verus!
