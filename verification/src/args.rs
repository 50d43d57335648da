//! The arguments that the packer is called with.

use crate::text::{glue, str_eq, texts};
use crate::version::is_digit;
use vstd::prelude::*;

verus! {

/// What a job asks for.
#[derive(Debug, PartialEq, Eq)]
pub struct UpxOptions {
    /// `compress` or `decompress`.
    pub mode: String,
    pub input_file: String,
    /// Where the result goes; the input file itself for a job in place.
    pub output_file: String,
    /// `0` to `9`, or `best`.
    pub compression_level: String,
    pub backup: bool,
    pub ultra_brute: bool,
    pub force: bool,
}

/// The tokens that set how hard the packer tries. The exhaustive search
/// overrides the level.
pub open spec fn level_tokens(ultra_brute: bool, level: Seq<char>) -> Seq<Seq<char>> {
    if ultra_brute {
        seq!["--ultra-brute"@, "--no-lzma"@]
    } else if level == "best"@ {
        seq!["--best"@]
    } else {
        seq!["-"@ + level]
    }
}

/// The token that makes the packer go on where it would give up.
pub open spec fn force_tokens(force: bool) -> Seq<Seq<char>> {
    if force {
        seq!["--force"@]
    } else {
        Seq::empty()
    }
}

/// The tokens that end every call: where the result goes, unless the job is
/// in place, and the token that keeps the packer from asking before it
/// overwrites.
pub open spec fn tail_tokens(in_place: bool, output_file: Seq<char>) -> Seq<Seq<char>> {
    if in_place {
        seq!["--force-overwrite"@]
    } else {
        seq!["-o"@, output_file, "--force-overwrite"@]
    }
}

/// The arguments of a call that packs.
pub open spec fn compress_args(options: UpxOptions, in_place: bool) -> Seq<Seq<char>> {
    level_tokens(options.ultra_brute, options.compression_level@) + force_tokens(options.force)
        + seq![options.input_file@] + tail_tokens(in_place, options.output_file@)
}

/// The arguments of a call that unpacks.
pub open spec fn decompress_args(options: UpxOptions, in_place: bool) -> Seq<Seq<char>> {
    seq!["-d"@, options.input_file@] + force_tokens(options.force) + tail_tokens(
        in_place,
        options.output_file@,
    )
}

/// Whether a job is in place: its two paths are the same string.
pub open spec fn in_place(options: UpxOptions) -> bool {
    options.input_file@ == options.output_file@
}

/// The arguments of the call that does the job; none where the mode is
/// neither `compress` nor `decompress`.
pub open spec fn job_args(options: UpxOptions) -> Option<Seq<Seq<char>>> {
    if options.mode@ == "compress"@ {
        Some(compress_args(options, in_place(options)))
    } else if options.mode@ == "decompress"@ {
        Some(decompress_args(options, in_place(options)))
    } else {
        None
    }
}

/// Whether `token` sets a numeric level: a hyphen and one decimal digit.
pub open spec fn is_numeric_level(token: Seq<char>) -> bool {
    token.len() == 2 && token[0] == '-' && is_digit(token[1])
}

/// Whether `level` is a level that a job may ask for: one decimal digit, or
/// `best`.
pub open spec fn is_level(level: Seq<char>) -> bool {
    level == "best"@ || (level.len() == 1 && is_digit(level[0]))
}

/// Whether `token` is one of the tokens that set how hard the packer tries.
pub open spec fn is_strength_token(token: Seq<char>) -> bool {
    token == "--best"@ || token == "--ultra-brute"@ || token == "--no-lzma"@ || is_numeric_level(
        token,
    )
}

/// What the fixed tokens are made of, as far as telling them apart needs it.
proof fn lemma_fixed_tokens()
    ensures
        "--best"@.len() == 6,
        "--ultra-brute"@.len() == 13,
        "--no-lzma"@.len() == 9,
        "--force"@.len() == 7,
        "--force-overwrite"@.len() == 17,
        "-o"@ == seq!['-', 'o'],
        "-d"@ == seq!['-', 'd'],
        "-"@ == seq!['-'],
        "best"@.len() == 4,
{
    reveal_strlit("--best");
    reveal_strlit("--ultra-brute");
    reveal_strlit("--no-lzma");
    reveal_strlit("--force");
    reveal_strlit("--force-overwrite");
    reveal_strlit("-o");
    reveal_strlit("-d");
    reveal_strlit("-");
    reveal_strlit("best");
}

/// The strength tokens never hold a numeric level and `--best` together, and
/// the exhaustive search is asked for by its own two tokens, whatever the
/// level says.
pub proof fn lemma_one_strength(ultra_brute: bool, level: Seq<char>)
    ensures
        forall|i: int, j: int|
            #![trigger level_tokens(ultra_brute, level)[i], level_tokens(ultra_brute, level)[j]]
            0 <= i < level_tokens(ultra_brute, level).len() && 0 <= j < level_tokens(
                ultra_brute,
                level,
            ).len() ==> !(level_tokens(ultra_brute, level)[i] == "--best"@ && is_numeric_level(
                level_tokens(ultra_brute, level)[j],
            )),
        ultra_brute ==> level_tokens(ultra_brute, level) == seq!["--ultra-brute"@, "--no-lzma"@],
{
    lemma_fixed_tokens();
}

/// A call that packs names its strength once: with paths that are not
/// themselves strength tokens, the arguments never hold a numeric level and
/// `--best` together, whatever the level; and where the exhaustive search is
/// asked for, they begin with its two tokens and hold no other strength
/// token.
pub proof fn lemma_compress_strength(options: UpxOptions, in_place: bool)
    requires
        !is_strength_token(options.input_file@),
        !is_strength_token(options.output_file@),
    ensures
        forall|i: int, j: int|
            #![trigger compress_args(options, in_place)[i], compress_args(options, in_place)[j]]
            0 <= i < compress_args(options, in_place).len() && 0 <= j < compress_args(
                options,
                in_place,
            ).len() ==> !(compress_args(options, in_place)[i] == "--best"@ && is_numeric_level(
                compress_args(options, in_place)[j],
            )),
        options.ultra_brute ==> compress_args(options, in_place).take(2) == seq![
            "--ultra-brute"@,
            "--no-lzma"@,
        ],
        options.ultra_brute ==> forall|i: int|
            2 <= i < compress_args(options, in_place).len() ==> !is_strength_token(
                #[trigger] compress_args(options, in_place)[i],
            ),
{
    lemma_fixed_tokens();
}

/// A job names its output exactly when it is not in place: with a level that
/// a job may ask for and an input file that is not itself `-o`, the arguments
/// hold `-o` if and only if the two paths differ, and then `-o` and the
/// output file are the last two tokens before `--force-overwrite`.
pub proof fn lemma_output_named_unless_in_place(options: UpxOptions)
    requires
        is_level(options.compression_level@),
        options.input_file@ != "-o"@,
        job_args(options) is Some,
    ensures
        in_place(options) <==> !job_args(options)->0.contains("-o"@),
        !in_place(options) ==> ({
            let args = job_args(options)->0;
            &&& args.len() >= 3
            &&& args[args.len() - 3] == "-o"@
            &&& args[args.len() - 2] == options.output_file@
        }),
{
    lemma_fixed_tokens();
    let args = job_args(options)->0;
    if in_place(options) {
        assert forall|i: int| 0 <= i < args.len() implies args[i] != "-o"@ by {}
    } else {
        assert(args[args.len() - 3] == "-o"@);
    }
}

/// Adds the tokens that end every call.
fn push_tail(args: &mut Vec<String>, is_overwrite: bool, output_file: &String)
    ensures
        texts(final(args)@) == texts(old(args)@) + tail_tokens(is_overwrite, output_file@),
{
    if !is_overwrite {
        args.push(String::from_str("-o"));
        args.push(output_file.clone());
    }
    args.push(String::from_str("--force-overwrite"));
}

/// The arguments of a call that packs `options.input_file`; `is_overwrite`
/// says whether the job is in place.
pub fn build_compress_args(options: &UpxOptions, is_overwrite: bool) -> (args: Vec<String>)
    ensures
        texts(args@) == compress_args(*options, is_overwrite),
{
    let mut args: Vec<String> = Vec::new();
    if options.ultra_brute {
        args.push(String::from_str("--ultra-brute"));
        args.push(String::from_str("--no-lzma"));
    } else if str_eq(options.compression_level.as_str(), "best") {
        args.push(String::from_str("--best"));
    } else {
        args.push(glue("-", options.compression_level.as_str()));
    }
    if options.force {
        args.push(String::from_str("--force"));
    }
    args.push(options.input_file.clone());
    assert(texts(args@) =~= level_tokens(options.ultra_brute, options.compression_level@)
        + force_tokens(options.force) + seq![options.input_file@]);
    push_tail(&mut args, is_overwrite, &options.output_file);
    args
}

/// The arguments of a call that unpacks `options.input_file`; `is_overwrite`
/// says whether the job is in place.
pub fn build_decompress_args(options: &UpxOptions, is_overwrite: bool) -> (args: Vec<String>)
    ensures
        texts(args@) == decompress_args(*options, is_overwrite),
{
    let mut args: Vec<String> = Vec::new();
    args.push(String::from_str("-d"));
    args.push(options.input_file.clone());
    if options.force {
        args.push(String::from_str("--force"));
    }
    push_tail(&mut args, is_overwrite, &options.output_file);
    args
}

/// Tells whether a job is in place.
pub fn is_in_place(options: &UpxOptions) -> (same: bool)
    ensures
        same == in_place(*options),
{
    options.input_file == options.output_file
}

/// The arguments of the call that does the job.
pub fn build_args(options: &UpxOptions) -> (args: Option<Vec<String>>)
    ensures
        match args {
            Some(list) => job_args(*options) == Some(texts(list@)),
            None => job_args(*options) is None,
        },
{
    let is_overwrite = is_in_place(options);
    if str_eq(options.mode.as_str(), "compress") {
        Some(build_compress_args(options, is_overwrite))
    } else if str_eq(options.mode.as_str(), "decompress") {
        Some(build_decompress_args(options, is_overwrite))
    } else {
        None
    }
}

} // verus!
