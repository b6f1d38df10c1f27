//! Pipeline driver decisions.
//!
//! Validates the run configuration before any file is touched and, for
//! each classified file, plans the exact subprocess invocations: which
//! tools run, in what order, and with which final argument lists (the
//! resolved profile plus the target file name). The surrounding
//! application only performs what is planned here; it adds no argument
//! of its own.

use vstd::prelude::*;

use crate::classify::ClassifiedFile;
use crate::classify::FileKind;
use crate::errors::ConfigError;
use crate::profile::Invocation;
use crate::profile::ToolKind;
use crate::profile::ect_arg_tokens;
use crate::profile::ect_tokens;
use crate::profile::jpegtran_arg_tokens;
use crate::profile::oxipng_arg_tokens;
use crate::profile::primary_tokens;
use crate::profile::primary_tool;

verus! {

/// The optimisation level used when the caller requests none.
pub const DEFAULT_OPT_LEVEL: u8 = 6;

/// True when `s` is exactly the Windows-style help request `/?`.
pub open spec fn is_windows_help(s: Seq<char>) -> bool {
    s.len() == 2 && s[0] == '/' && s[1] == '?'
}

/// The configuration error a run with these file names and this level
/// aborts with, if any, in the order the checks are made: missing file
/// argument first, then the Windows-style help request, then the level
/// range.
pub open spec fn run_config_error(names: Seq<Seq<char>>, level: u8) -> Option<ConfigError> {
    if names.len() == 0 {
        Some(ConfigError::MissingFileArgument)
    } else if is_windows_help(names[0]) {
        Some(ConfigError::WindowsStyleArgs)
    } else if level > 9 {
        Some(ConfigError::InvalidOptLevel)
    } else {
        None
    }
}

/// Validates the run configuration. Fails if and only if no file was
/// given, the first argument is `/?`, or the level is outside `0..=9` —
/// all before any file is classified or any subprocess planned.
pub fn validate_run(files: &Vec<String>, level: u8) -> (r: Result<(), ConfigError>)
    ensures
        r is Ok <==> run_config_error(files.deep_view(), level) is None,
        r matches Err(e) ==> run_config_error(files.deep_view(), level) == Some(e),
{
    if files.len() == 0 {
        return Err(ConfigError::MissingFileArgument);
    }
    let first: &String = &files[0];
    let n = first.as_str().unicode_len();
    proof {
        assert(files.deep_view()[0] == files[0]@);
    }
    if n == 2 && first.as_str().get_char(0) == '/' && first.as_str().get_char(1) == '?' {
        return Err(ConfigError::WindowsStyleArgs);
    }
    if level > 9 {
        return Err(ConfigError::InvalidOptLevel);
    }
    Ok(())
}

/// What the per-file plan must hold: the kind-appropriate primary tool
/// first, then the entropy recompressor, each with its profile tokens
/// followed by the target file name — which the JPEG transform tool
/// receives as an in-place `-outfile <name> <name>` pair.
pub open spec fn plan_matches(
    p: Seq<Invocation>,
    name: Seq<char>,
    kind: FileKind,
    level: u8,
    verbose: bool,
) -> bool {
    &&& p.len() == 2
    &&& p[0].tool == primary_tool(kind)
    &&& p[0].args.deep_view() == match kind {
        FileKind::Png => primary_tokens(level, kind, verbose).push(name),
        FileKind::Jpeg => primary_tokens(level, kind, verbose) + seq!["-outfile"@, name, name],
    }
    &&& p[1].tool == ToolKind::EntropyRecompressor
    &&& p[1].args.deep_view() == ect_tokens(level).push(name)
}

/// Plans the subprocess invocations for one classified file: the
/// resolved profile's argument tokens with the target file name
/// appended, primary tool first, entropy recompressor second.
pub fn plan_file(file: &ClassifiedFile, level: u8, verbose: bool) -> (r: Vec<Invocation>)
    requires
        level <= 9,
        file.wf(),
    ensures
        plan_matches(r@, file.path@, file.kind, level, verbose),
{
    let mut first_args: Vec<String> = match file.kind {
        FileKind::Png => oxipng_arg_tokens(level, verbose),
        FileKind::Jpeg => jpegtran_arg_tokens(level, verbose),
    };
    match file.kind {
        FileKind::Png => {
            first_args.push(file.path.clone());
            proof {
                assert(first_args.deep_view() =~= primary_tokens(level, file.kind, verbose).push(
                    file.path@,
                ));
            }
        },
        FileKind::Jpeg => {
            first_args.push("-outfile".to_owned());
            first_args.push(file.path.clone());
            first_args.push(file.path.clone());
            proof {
                assert(first_args.deep_view() =~= primary_tokens(level, file.kind, verbose)
                    + seq!["-outfile"@, file.path@, file.path@]);
            }
        },
    }
    let mut ect_args = ect_arg_tokens(level);
    ect_args.push(file.path.clone());
    proof {
        assert(ect_args.deep_view() =~= ect_tokens(level).push(file.path@));
    }
    let first = match file.kind {
        FileKind::Png => Invocation { tool: ToolKind::PngOptimizer, args: first_args },
        FileKind::Jpeg => Invocation { tool: ToolKind::JpegTransform, args: first_args },
    };
    let second = Invocation { tool: ToolKind::EntropyRecompressor, args: ect_args };
    let mut p: Vec<Invocation> = Vec::new();
    p.push(first);
    p.push(second);
    p
}

} // verus!
