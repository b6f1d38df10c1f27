//! Optimisation-profile resolution.
//!
//! Maps an optimisation level in `0..=9` to the exact argument lists of
//! the three external tools: a PNG optimizer, a general entropy
//! recompressor (strength `1..=9`), and a lossless JPEG transform tool.
//! Each level's argument set is fixed, bit for bit, for compatibility
//! with the tools' own level semantics.
//!
//! The level-`9` PNG profile deliberately does not use the optimizer's
//! most exhaustive mode: the entropy recompressor covers that case more
//! cheaply, so the widest strategy sweep is left to it.

use vstd::prelude::*;

use crate::classify::FileKind;
use crate::errors::ConfigError;

verus! {

/// The external tools a profile can invoke.
#[derive(Clone, Copy, Debug, PartialEq, Eq, Structural)]
pub enum ToolKind {
    PngOptimizer,
    EntropyRecompressor,
    JpegTransform,
}

/// One planned subprocess: a tool and its full argument list, in order.
#[derive(Debug)]
pub struct Invocation {
    pub tool: ToolKind,
    pub args: Vec<String>,
}

/// The static flags every PNG-optimizer invocation starts with.
pub open spec fn oxipng_static_tokens() -> Seq<Seq<char>> {
    seq!["-p"@, "-b"@, "--fix"@]
}

/// The level-dependent compression-strategy clause of the PNG optimizer.
pub open spec fn oxipng_level_tokens(level: u8) -> Seq<Seq<char>>
    recommends
        level <= 9,
{
    if level == 0 {
        seq!["-o"@, "0"@]
    } else if level == 1 {
        seq!["-o"@, "1"@]
    } else if level == 2 {
        seq!["--zc"@, "9"@, "--zs"@, "0-3"@, "-f"@, "0,5"@, "--nz"@]
    } else if level == 3 {
        seq!["-o"@, "2"@]
    } else if level == 4 {
        seq!["-o"@, "3"@]
    } else if level == 5 {
        seq!["--zc"@, "9"@, "--zs"@, "0-3"@, "-f"@, "0-5"@, "-a"@]
    } else if level == 6 {
        seq!["-o"@, "5"@]
    } else if level == 7 {
        seq!["--zc"@, "3-9"@, "--zs"@, "0-3"@, "-f"@, "0-5"@, "-a"@]
    } else {
        seq!["--zc"@, "1-9"@, "--zs"@, "0-3"@, "-f"@, "0-5"@, "-a"@]
    }
}

/// The PNG optimizer's argument tokens for a level, with the optional
/// verbosity flag appended last.
pub open spec fn oxipng_tokens(level: u8, verbose: bool) -> Seq<Seq<char>> {
    oxipng_static_tokens() + oxipng_level_tokens(level) + (if verbose {
        seq!["-v"@]
    } else {
        Seq::<Seq<char>>::empty()
    })
}

/// The static flags every entropy-recompressor invocation starts with.
pub open spec fn ect_static_tokens() -> Seq<Seq<char>> {
    seq!["--strict"@, "-progressive"@, "--mt-deflate"@, "--reuse"@, "-keep"@]
}

/// The recompressor strength flag for a level: `-1` through `-9`,
/// levels 0 and 1 both mapping to strength 1.
pub open spec fn ect_strength_token(level: u8) -> Seq<char>
    recommends
        level <= 9,
{
    if level <= 1 {
        "-1"@
    } else if level == 2 {
        "-2"@
    } else if level == 3 {
        "-3"@
    } else if level == 4 {
        "-4"@
    } else if level == 5 {
        "-5"@
    } else if level == 6 {
        "-6"@
    } else if level == 7 {
        "-7"@
    } else if level == 8 {
        "-8"@
    } else {
        "-9"@
    }
}

/// The entropy recompressor's argument tokens for a level. It has no
/// verbosity flag, so the verbose mode never changes this list.
pub open spec fn ect_tokens(level: u8) -> Seq<Seq<char>> {
    ect_static_tokens() + seq![ect_strength_token(level)]
}

/// The static flags every JPEG-transform invocation starts with:
/// lossless copy of all metadata, optimised and progressive re-encoding.
pub open spec fn jpegtran_static_tokens() -> Seq<Seq<char>> {
    seq!["-copy"@, "all"@, "-optimize"@, "-progressive"@]
}

/// The JPEG transform tool's memory budget in KB for a level;
/// level 9 is the tool's hard ceiling.
pub open spec fn jpegtran_maxmemory_token(level: u8) -> Seq<char>
    recommends
        level <= 9,
{
    if level == 0 {
        "262144"@
    } else if level == 1 {
        "395264"@
    } else if level == 2 {
        "524288"@
    } else if level == 3 {
        "786432"@
    } else if level == 4 {
        "1048576"@
    } else if level == 5 {
        "1572864"@
    } else if level == 6 {
        "1835008"@
    } else if level == 7 || level == 8 {
        "2097152"@
    } else {
        "2139095"@
    }
}

/// The JPEG transform tool's argument tokens for a level, with the
/// optional verbosity flag appended last.
pub open spec fn jpegtran_tokens(level: u8, verbose: bool) -> Seq<Seq<char>> {
    jpegtran_static_tokens() + seq!["-maxmemory"@, jpegtran_maxmemory_token(level)] + (if verbose {
        seq!["-verbose"@]
    } else {
        Seq::<Seq<char>>::empty()
    })
}

/// The PNG optimizer's options as one space-separated clause (static
/// flags first, then the level clause), each flag followed by a space.
pub open spec fn oxipng_options_string(level: u8) -> Seq<char>
    recommends
        level <= 9,
{
    "-p -b --fix "@ + (if level == 0 {
        "-o 0 "@
    } else if level == 1 {
        "-o 1 "@
    } else if level == 2 {
        "--zc 9 --zs 0-3 -f 0,5 --nz "@
    } else if level == 3 {
        "-o 2 "@
    } else if level == 4 {
        "-o 3 "@
    } else if level == 5 {
        "--zc 9 --zs 0-3 -f 0-5 -a "@
    } else if level == 6 {
        "-o 5 "@
    } else if level == 7 {
        "--zc 3-9 --zs 0-3 -f 0-5 -a "@
    } else {
        "--zc 1-9 --zs 0-3 -f 0-5 -a "@
    })
}

/// The entropy recompressor's options as one space-separated clause
/// (static flags first, then the strength flag).
pub open spec fn ect_options_string(level: u8) -> Seq<char>
    recommends
        level <= 9,
{
    "--strict -progressive --mt-deflate --reuse -keep "@ + (if level <= 1 {
        "-1 "@
    } else if level == 2 {
        "-2 "@
    } else if level == 3 {
        "-3 "@
    } else if level == 4 {
        "-4 "@
    } else if level == 5 {
        "-5 "@
    } else if level == 6 {
        "-6 "@
    } else if level == 7 {
        "-7 "@
    } else if level == 8 {
        "-8 "@
    } else {
        "-9 "@
    })
}

/// The JPEG transform tool's options as one space-separated clause
/// (static flags first, then the memory budget).
pub open spec fn jpegtran_options_string(level: u8) -> Seq<char>
    recommends
        level <= 9,
{
    "-copy all -optimize -progressive -maxmemory "@ + (if level == 0 {
        "262144 "@
    } else if level == 1 {
        "395264 "@
    } else if level == 2 {
        "524288 "@
    } else if level == 3 {
        "786432 "@
    } else if level == 4 {
        "1048576 "@
    } else if level == 5 {
        "1572864 "@
    } else if level == 6 {
        "1835008 "@
    } else if level == 7 || level == 8 {
        "2097152 "@
    } else {
        "2139095 "@
    })
}

/// The PNG optimizer's options for a level, as one space-separated
/// string. Fails if and only if the level is outside `0..=9`.
pub fn get_oxipng_options(opt_level: u8) -> (r: Result<String, ConfigError>)
    ensures
        r is Ok <==> opt_level <= 9,
        r matches Ok(s) ==> s@ == oxipng_options_string(opt_level),
        r matches Err(e) ==> e == ConfigError::InvalidOptLevel,
{
    let mut s = "-p -b --fix ".to_owned();
    match opt_level {
        0 => s.append("-o 0 "),
        1 => s.append("-o 1 "),
        2 => s.append("--zc 9 --zs 0-3 -f 0,5 --nz "),
        3 => s.append("-o 2 "),
        4 => s.append("-o 3 "),
        5 => s.append("--zc 9 --zs 0-3 -f 0-5 -a "),
        6 => s.append("-o 5 "),
        7 => s.append("--zc 3-9 --zs 0-3 -f 0-5 -a "),
        8 | 9 => s.append("--zc 1-9 --zs 0-3 -f 0-5 -a "),
        _ => {
            return Err(ConfigError::InvalidOptLevel);
        },
    }
    Ok(s)
}

/// The entropy recompressor's options for a level, as one
/// space-separated string. Fails if and only if the level is outside
/// `0..=9`.
pub fn get_ect_options(opt_level: u8) -> (r: Result<String, ConfigError>)
    ensures
        r is Ok <==> opt_level <= 9,
        r matches Ok(s) ==> s@ == ect_options_string(opt_level),
        r matches Err(e) ==> e == ConfigError::InvalidOptLevel,
{
    let mut s = "--strict -progressive --mt-deflate --reuse -keep ".to_owned();
    match opt_level {
        0 | 1 => s.append("-1 "),
        2 => s.append("-2 "),
        3 => s.append("-3 "),
        4 => s.append("-4 "),
        5 => s.append("-5 "),
        6 => s.append("-6 "),
        7 => s.append("-7 "),
        8 => s.append("-8 "),
        9 => s.append("-9 "),
        _ => {
            return Err(ConfigError::InvalidOptLevel);
        },
    }
    Ok(s)
}

/// The JPEG transform tool's options for a level, as one
/// space-separated string. Fails if and only if the level is outside
/// `0..=9`.
pub fn get_jpegtran_options(opt_level: u8) -> (r: Result<String, ConfigError>)
    ensures
        r is Ok <==> opt_level <= 9,
        r matches Ok(s) ==> s@ == jpegtran_options_string(opt_level),
        r matches Err(e) ==> e == ConfigError::InvalidOptLevel,
{
    let mut s = "-copy all -optimize -progressive -maxmemory ".to_owned();
    match opt_level {
        0 => s.append("262144 "),
        1 => s.append("395264 "),
        2 => s.append("524288 "),
        3 => s.append("786432 "),
        4 => s.append("1048576 "),
        5 => s.append("1572864 "),
        6 => s.append("1835008 "),
        7 | 8 => s.append("2097152 "),
        9 => s.append("2139095 "),
        _ => {
            return Err(ConfigError::InvalidOptLevel);
        },
    }
    Ok(s)
}

/// The tool that runs first for a kind of file.
pub open spec fn primary_tool(kind: FileKind) -> ToolKind {
    match kind {
        FileKind::Png => ToolKind::PngOptimizer,
        FileKind::Jpeg => ToolKind::JpegTransform,
    }
}

/// The first tool's argument tokens for a level and kind.
pub open spec fn primary_tokens(level: u8, kind: FileKind, verbose: bool) -> Seq<Seq<char>> {
    match kind {
        FileKind::Png => oxipng_tokens(level, verbose),
        FileKind::Jpeg => jpegtran_tokens(level, verbose),
    }
}

/// The verbosity flag of the first tool for a kind of file.
pub open spec fn verbose_token(kind: FileKind) -> Seq<char> {
    match kind {
        FileKind::Png => "-v"@,
        FileKind::Jpeg => "-verbose"@,
    }
}

/// What a resolved profile must hold: exactly two steps, the
/// kind-appropriate primary tool first, the entropy recompressor second,
/// each with its exact argument tokens (no file name yet).
pub open spec fn profile_matches(
    p: Seq<Invocation>,
    level: u8,
    kind: FileKind,
    verbose: bool,
) -> bool {
    &&& p.len() == 2
    &&& p[0].tool == primary_tool(kind)
    &&& p[0].args.deep_view() == primary_tokens(level, kind, verbose)
    &&& p[1].tool == ToolKind::EntropyRecompressor
    &&& p[1].args.deep_view() == ect_tokens(level)
}

/// Appends one token to an argument list.
fn push_tok(v: &mut Vec<String>, t: &str)
    ensures
        final(v).deep_view() == old(v).deep_view().push(t@),
{
    v.push(t.to_owned());
    proof {
        assert(v.deep_view() =~= old(v).deep_view().push(t@));
    }
}

/// Builds the PNG optimizer's argument tokens for a valid level.
pub fn oxipng_arg_tokens(level: u8, verbose: bool) -> (r: Vec<String>)
    requires
        level <= 9,
    ensures
        r.deep_view() == oxipng_tokens(level, verbose),
{
    let mut v: Vec<String> = Vec::new();
    push_tok(&mut v, "-p");
    push_tok(&mut v, "-b");
    push_tok(&mut v, "--fix");
    match level {
        0 => {
            push_tok(&mut v, "-o");
            push_tok(&mut v, "0");
        },
        1 => {
            push_tok(&mut v, "-o");
            push_tok(&mut v, "1");
        },
        2 => {
            push_tok(&mut v, "--zc");
            push_tok(&mut v, "9");
            push_tok(&mut v, "--zs");
            push_tok(&mut v, "0-3");
            push_tok(&mut v, "-f");
            push_tok(&mut v, "0,5");
            push_tok(&mut v, "--nz");
        },
        3 => {
            push_tok(&mut v, "-o");
            push_tok(&mut v, "2");
        },
        4 => {
            push_tok(&mut v, "-o");
            push_tok(&mut v, "3");
        },
        5 => {
            push_tok(&mut v, "--zc");
            push_tok(&mut v, "9");
            push_tok(&mut v, "--zs");
            push_tok(&mut v, "0-3");
            push_tok(&mut v, "-f");
            push_tok(&mut v, "0-5");
            push_tok(&mut v, "-a");
        },
        6 => {
            push_tok(&mut v, "-o");
            push_tok(&mut v, "5");
        },
        7 => {
            push_tok(&mut v, "--zc");
            push_tok(&mut v, "3-9");
            push_tok(&mut v, "--zs");
            push_tok(&mut v, "0-3");
            push_tok(&mut v, "-f");
            push_tok(&mut v, "0-5");
            push_tok(&mut v, "-a");
        },
        _ => {
            push_tok(&mut v, "--zc");
            push_tok(&mut v, "1-9");
            push_tok(&mut v, "--zs");
            push_tok(&mut v, "0-3");
            push_tok(&mut v, "-f");
            push_tok(&mut v, "0-5");
            push_tok(&mut v, "-a");
        },
    }
    if verbose {
        push_tok(&mut v, "-v");
    }
    proof {
        assert(v.deep_view() =~= oxipng_tokens(level, verbose));
    }
    v
}

/// Builds the entropy recompressor's argument tokens for a valid level.
pub fn ect_arg_tokens(level: u8) -> (r: Vec<String>)
    requires
        level <= 9,
    ensures
        r.deep_view() == ect_tokens(level),
{
    let mut v: Vec<String> = Vec::new();
    push_tok(&mut v, "--strict");
    push_tok(&mut v, "-progressive");
    push_tok(&mut v, "--mt-deflate");
    push_tok(&mut v, "--reuse");
    push_tok(&mut v, "-keep");
    match level {
        0 | 1 => push_tok(&mut v, "-1"),
        2 => push_tok(&mut v, "-2"),
        3 => push_tok(&mut v, "-3"),
        4 => push_tok(&mut v, "-4"),
        5 => push_tok(&mut v, "-5"),
        6 => push_tok(&mut v, "-6"),
        7 => push_tok(&mut v, "-7"),
        8 => push_tok(&mut v, "-8"),
        _ => push_tok(&mut v, "-9"),
    }
    proof {
        assert(v.deep_view() =~= ect_tokens(level));
    }
    v
}

/// Builds the JPEG transform tool's argument tokens for a valid level.
pub fn jpegtran_arg_tokens(level: u8, verbose: bool) -> (r: Vec<String>)
    requires
        level <= 9,
    ensures
        r.deep_view() == jpegtran_tokens(level, verbose),
{
    let mut v: Vec<String> = Vec::new();
    push_tok(&mut v, "-copy");
    push_tok(&mut v, "all");
    push_tok(&mut v, "-optimize");
    push_tok(&mut v, "-progressive");
    push_tok(&mut v, "-maxmemory");
    match level {
        0 => push_tok(&mut v, "262144"),
        1 => push_tok(&mut v, "395264"),
        2 => push_tok(&mut v, "524288"),
        3 => push_tok(&mut v, "786432"),
        4 => push_tok(&mut v, "1048576"),
        5 => push_tok(&mut v, "1572864"),
        6 => push_tok(&mut v, "1835008"),
        7 | 8 => push_tok(&mut v, "2097152"),
        _ => push_tok(&mut v, "2139095"),
    }
    if verbose {
        push_tok(&mut v, "-verbose");
    }
    proof {
        assert(v.deep_view() =~= jpegtran_tokens(level, verbose));
    }
    v
}

/// Resolves the tool profile for a level and file kind: which tools run,
/// in what order, and with exactly which argument tokens. Fails with a
/// configuration error if and only if the level is outside `0..=9`.
pub fn resolve(level: u8, kind: FileKind, verbose: bool) -> (r: Result<
    Vec<Invocation>,
    ConfigError,
>)
    ensures
        r is Ok <==> level <= 9,
        r matches Err(e) ==> e == ConfigError::InvalidOptLevel,
        r matches Ok(p) ==> profile_matches(p@, level, kind, verbose),
{
    if level > 9 {
        return Err(ConfigError::InvalidOptLevel);
    }
    let first = match kind {
        FileKind::Png => Invocation { tool: ToolKind::PngOptimizer, args: oxipng_arg_tokens(level, verbose) },
        FileKind::Jpeg => Invocation { tool: ToolKind::JpegTransform, args: jpegtran_arg_tokens(level, verbose) },
    };
    let second = Invocation { tool: ToolKind::EntropyRecompressor, args: ect_arg_tokens(level) };
    let mut p: Vec<Invocation> = Vec::new();
    p.push(first);
    p.push(second);
    Ok(p)
}

/// Law: for every valid level and kind, with or without verbose mode,
/// the resolved profile is non-empty and every argument list in it is
/// non-empty.
pub proof fn lemma_profile_nonempty(level: u8, kind: FileKind, verbose: bool)
    requires
        level <= 9,
    ensures
        primary_tokens(level, kind, verbose).len() > 0,
        ect_tokens(level).len() > 0,
{
    assert(oxipng_static_tokens().len() == 3);
    assert(ect_static_tokens().len() == 5);
    assert(jpegtran_static_tokens().len() == 4);
}

/// Law: the verbose flag appends exactly one token — the primary tool's
/// own verbosity flag, appended last — to the primary tool's argument
/// list, and changes the entropy recompressor's list not at all (its
/// tokens do not depend on the verbose mode).
pub proof fn lemma_verbose_appends_one_token(level: u8, kind: FileKind)
    requires
        level <= 9,
    ensures
        primary_tokens(level, kind, true) == primary_tokens(level, kind, false).push(
            verbose_token(kind),
        ),
        primary_tokens(level, kind, true).len() == primary_tokens(level, kind, false).len() + 1,
{
    match kind {
        FileKind::Png => {
            assert(oxipng_tokens(level, true) =~= oxipng_tokens(level, false).push("-v"@));
        },
        FileKind::Jpeg => {
            assert(jpegtran_tokens(level, true) =~= jpegtran_tokens(level, false).push(
                "-verbose"@,
            ));
        },
    }
}

} // verus!
