//! Paths as chains of named segments, `a::b::c`, and how they are written.

use vstd::prelude::*;
use crate::ast::{Path, PathId};
use crate::render::{path_text, path_id_text};
use crate::text::{sep_join, lemma_sep_join_push};

verus! {

/// Whether the path is a chain of named segments, `a::b::c`.
pub open spec fn is_segment_path(p: Path) -> bool
    decreases p,
{
    match p {
        Path::From(_) => true,
        Path::Extend(b, _) => is_segment_path(*b),
        _ => false,
    }
}

/// The named segments of a path, first to last.
pub open spec fn path_segments(p: Path) -> Seq<PathId>
    decreases p,
{
    match p {
        Path::From(pid) => seq![pid],
        Path::Extend(b, pid) => path_segments(*b).push(pid),
        _ => Seq::empty(),
    }
}

/// A path of named segments is written segment by segment, with `::`
/// between them, every segment in the same position: in an expression
/// (`cc`) each segment with generic arguments takes `::` before `<`, the
/// first ones included (`Vec :: < u32 > :: new`).
pub proof fn law_path_text_by_segments(p: Path, cc: bool)
    requires
        is_segment_path(p),
    ensures
        path_segments(p).len() >= 1,
        path_text(p, cc) == sep_join(path_segments(p).map_values(|s: PathId| path_id_text(s, cc)), "::"@),
    decreases p,
{
    match p {
        Path::From(pid) => {
            assert(path_segments(p).map_values(|s: PathId| path_id_text(s, cc)).len() == 1);
        },
        Path::Extend(b, pid) => {
            law_path_text_by_segments(*b, cc);
            let front = path_segments(*b).map_values(|s: PathId| path_id_text(s, cc));
            assert(path_segments(p).map_values(|s: PathId| path_id_text(s, cc))
                =~= front.push(path_id_text(pid, cc)));
            lemma_sep_join_push(front, path_id_text(pid, cc), "::"@);
        },
        _ => {},
    }
}

} // verus!
