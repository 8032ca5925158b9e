//! The decisions of the command-line front end.

use vstd::prelude::*;
use vstd::string::*;
use crate::text::same_text;

verus! {

/// Whether an argument asks for the command line: it starts with two
/// hyphens, or it is `-h`.
pub open spec fn is_cli_flag(arg: Seq<char>) -> bool {
    (arg.len() >= 2 && arg[0] == '-' && arg[1] == '-') || arg == "-h"@
}

/// Whether an argument asks for the command line.
pub fn asks_for_cli(arg: &str) -> (asks: bool)
    ensures
        asks == is_cli_flag(arg@),
{
    if arg.unicode_len() >= 2 && arg.get_char(0) == '-' && arg.get_char(1) == '-' {
        return true;
    }
    same_text(arg, &String::from_str("-h"))
}

/// Whether the program was started from a command line: some argument asks for it.
pub fn is_cli_detected(args: &Vec<String>) -> (detected: bool)
    ensures
        detected == exists|i: int| 0 <= i < args@.len() && is_cli_flag(#[trigger] args@[i]@),
{
    let mut i: usize = 0;
    while i < args.len()
        invariant
            i <= args@.len(),
            forall|j: int| 0 <= j < i ==> !is_cli_flag(#[trigger] args@[j]@),
        decreases args@.len() - i,
    {
        if asks_for_cli(args[i].as_str()) {
            return true;
        }
        i = i + 1;
    }
    false
}

/// The format of a written transcript.
#[derive(Clone, Copy, Debug, PartialEq, Eq, Structural)]
pub enum TranscriptFormat {
    Srt,
    Vtt,
    Text,
}

/// The format that a name stands for, where it stands for one.
pub open spec fn format_named(name: Seq<char>) -> Option<TranscriptFormat> {
    if name == "srt"@ {
        Some(TranscriptFormat::Srt)
    } else if name == "vtt"@ {
        Some(TranscriptFormat::Vtt)
    } else if name == "text"@ {
        Some(TranscriptFormat::Text)
    } else {
        None
    }
}

/// Chooses the format of the transcript by its name. A name that stands for
/// none gives the subtitle format `Srt`, and `recognized` is `false` so that
/// the caller can say so.
pub fn select_format(name: &str) -> (chosen: (TranscriptFormat, bool))
    ensures
        chosen.1 == format_named(name@) is Some,
        chosen.0 == (match format_named(name@) {
            Some(format) => format,
            None => TranscriptFormat::Srt,
        }),
{
    if same_text(name, &String::from_str("srt")) {
        (TranscriptFormat::Srt, true)
    } else if same_text(name, &String::from_str("vtt")) {
        (TranscriptFormat::Vtt, true)
    } else if same_text(name, &String::from_str("text")) {
        (TranscriptFormat::Text, true)
    } else {
        (TranscriptFormat::Srt, false)
    }
}

/// Where to look for a model given on the command line.
#[derive(Clone, Copy, Debug, PartialEq, Eq, Structural)]
pub enum ModelPathChoice {
    /// The path as it was given.
    AsGiven,
    /// The path taken relative to the folder of downloaded models.
    UnderModelsFolder,
}

/// Chooses where to look for a model: the path as given where it is
/// absolute or exists; else under the models folder where it exists there;
/// else as given.
pub fn prepare_model_path(
    is_absolute: bool,
    exists: bool,
    exists_under_models_folder: bool,
) -> (choice: ModelPathChoice)
    ensures
        choice == (if !is_absolute && !exists && exists_under_models_folder {
            ModelPathChoice::UnderModelsFolder
        } else {
            ModelPathChoice::AsGiven
        }),
{
    if is_absolute {
        return ModelPathChoice::AsGiven;
    }
    if exists {
        return ModelPathChoice::AsGiven;
    }
    if exists_under_models_folder {
        return ModelPathChoice::UnderModelsFolder;
    }
    ModelPathChoice::AsGiven
}

} // verus!
