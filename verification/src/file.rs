//! File names: the name and the extension of the source, and the path of
//! the output of one configuration.

use crate::config::VideoConfig;
use crate::text::{
    chars_of, cut, find_char_from, find_last, first_index_from, last_occurrence,
    lemma_first_index_from, lemma_last_occurrence_below,
};
use vstd::prelude::*;
use vstd::string::*;

verus! {

/// Where the file name begins in a path: behind its last `/`, or at its
/// start where it has none.
pub open spec fn name_start(path: Seq<char>) -> int {
    last_occurrence(path, seq!['/']) + 1
}

/// Where the first `.` of the file name stands, or the length of the path
/// where the file name has none.
pub open spec fn stem_end(path: Seq<char>) -> int {
    first_index_from(path, '.', name_start(path))
}

/// Where the extension ends: at the second `.` of the file name, or at the
/// end of the path.
pub open spec fn ext_end(path: Seq<char>) -> int {
    first_index_from(path, '.', stem_end(path) + 1)
}

/// Whether the file name of the path holds a `.`.
pub open spec fn has_extension(path: Seq<char>) -> bool {
    stem_end(path) < path.len()
}

/// The file name up to its first `.`.
pub open spec fn file_stem(path: Seq<char>) -> Seq<char> {
    path.subrange(name_start(path), stem_end(path))
}

/// What stands between the first `.` of the file name and its second, or
/// the end of the path.
pub open spec fn file_ext(path: Seq<char>) -> Seq<char> {
    path.subrange(stem_end(path) + 1, ext_end(path))
}

/// The path of the output of `config` for the source at `source`: in the
/// directory `out`, the source's name, the name part of the configuration,
/// and the source's extension.
pub open spec fn output_path_of(source: Seq<char>, config: VideoConfig) -> Seq<char> {
    "out/"@ + file_stem(source) + config.file_name() + seq!['.'] + file_ext(source)
}

/// The places at which a path is cut lie in it, in their order.
pub proof fn lemma_cuts_in_order(path: Seq<char>)
    ensures
        0 <= name_start(path) <= stem_end(path) <= path.len(),
        has_extension(path) ==> stem_end(path) + 1 <= ext_end(path) <= path.len(),
        has_extension(path) ==> path[stem_end(path)] == '.',
{
    lemma_last_occurrence_below(path, seq!['/'], path.len() as int + 1);
    lemma_first_index_from(path, '.', name_start(path));
    if has_extension(path) {
        lemma_first_index_from(path, '.', stem_end(path) + 1);
    }
}

/// Where the file name begins in `chars`.
fn find_name_start(chars: &Vec<char>) -> (r: usize)
    ensures
        r as int == name_start(chars@),
        r <= chars.len(),
{
    proof {
        lemma_cuts_in_order(chars@);
        reveal_strlit("/");
    }
    let slash = chars_of("/");
    assert(slash@ =~= seq!['/']);
    match find_last(chars, &slash) {
        Some(i) => i + 1,
        None => 0,
    }
}

/// Tells whether the file name of `path` holds a `.`.
pub fn path_has_extension(path: &str) -> (r: bool)
    ensures
        r == has_extension(path@),
{
    let chars = chars_of(path);
    let start = find_name_start(&chars);
    find_char_from(&chars, '.', start) < chars.len()
}

/// The name and the extension of the file at `path`: of what follows the
/// last `/`, the part before the first `.`, and the part between that `.`
/// and the next.
pub fn get_file_name(path: &str) -> (r: (String, String))
    requires
        has_extension(path@),
    ensures
        r.0@ == file_stem(path@),
        r.1@ == file_ext(path@),
{
    proof {
        lemma_cuts_in_order(path@);
    }
    let chars = chars_of(path);
    let start = find_name_start(&chars);
    let dot = find_char_from(&chars, '.', start);
    let end = find_char_from(&chars, '.', dot + 1);
    (cut(path, start, dot), cut(path, dot + 1, end))
}

/// The path of the output of `config` for the source at `source`.
pub fn output_path(source: &str, config: &VideoConfig) -> (r: String)
    requires
        has_extension(source@),
    ensures
        r@ == output_path_of(source@, *config),
{
    let (name, ext) = get_file_name(source);
    proof {
        reveal_strlit(".");
    }
    let mut r = String::from_str("out/");
    r.append(name.as_str());
    r.append(config.to_file_name().as_str());
    r.append(".");
    r.append(ext.as_str());
    assert(r@ =~= output_path_of(source@, *config));
    r
}

/// The outputs of two configurations for one source lie at the same path
/// only if the configurations have the same name part.
pub proof fn lemma_output_path_tells_name(source: Seq<char>, a: VideoConfig, b: VideoConfig)
    requires
        output_path_of(source, a) == output_path_of(source, b),
    ensures
        a.file_name() == b.file_name(),
{
    let lead = "out/"@ + file_stem(source);
    let tail = seq!['.'] + file_ext(source);
    let pa = output_path_of(source, a);
    let pb = output_path_of(source, b);
    assert(pa =~= lead + a.file_name() + tail);
    assert(pb =~= lead + b.file_name() + tail);
    assert(a.file_name().len() == b.file_name().len());
    assert(a.file_name() =~= pa.subrange(lead.len() as int, (lead.len() + a.file_name().len()) as int));
    assert(b.file_name() =~= pb.subrange(lead.len() as int, (lead.len() + b.file_name().len()) as int));
}

} // verus!
