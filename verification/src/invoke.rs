//! Derivation of the argument lists the provisioned executable is invoked
//! with.
//!
//! The invocation surface is fixed: a target URL, an optional output
//! template passed through unchanged, and an optional audio-only switch that
//! translates into fixed extraction arguments. The update run uses a single
//! fixed flag. The exact argument vectors are stated here; the caller only
//! spawns the process with them.

use vstd::prelude::*;

verus! {

/// The argument vector of a download invocation, as character sequences:
/// the target URL first, then `-o` and the template when one is given, then
/// the fixed audio-extraction arguments when audio-only is requested.
pub open spec fn tool_args_model(
    url: Seq<char>,
    output: Option<Seq<char>>,
    audio_only: bool,
) -> Seq<Seq<char>> {
    let base = seq![url];
    let with_output = match output {
        Some(o) => base + seq!["-o"@, o],
        None => base,
    };
    if audio_only {
        with_output + seq![
            "-x"@,
            "--audio-format"@,
            "mp3"@,
            "--audio-quality"@,
            "0"@,
        ]
    } else {
        with_output
    }
}

/// Build the argument vector of a download invocation.
pub fn build_tool_args(url: &String, output: &Option<String>, audio_only: bool) -> (r: Vec<String>)
    ensures
        r.deep_view() == tool_args_model(url@, output.deep_view(), audio_only),
{
    let mut args: Vec<String> = Vec::new();
    args.push(url.clone());
    match output {
        Some(o) => {
            args.push(String::from_str("-o"));
            args.push(o.clone());
        },
        None => {},
    }
    if audio_only {
        args.push(String::from_str("-x"));
        args.push(String::from_str("--audio-format"));
        args.push(String::from_str("mp3"));
        args.push(String::from_str("--audio-quality"));
        args.push(String::from_str("0"));
    }
    proof {
        assert(args.deep_view() =~~= tool_args_model(url@, output.deep_view(), audio_only));
    }
    args
}

/// The argument vector of an update run: the single fixed update flag.
pub fn update_args() -> (r: Vec<String>)
    ensures
        r.deep_view() == seq!["-U"@],
{
    let mut args: Vec<String> = Vec::new();
    args.push(String::from_str("-U"));
    proof {
        assert(args.deep_view() =~~= seq!["-U"@]);
    }
    args
}

} // verus!
