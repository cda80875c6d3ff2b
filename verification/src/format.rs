//! Output-format classification: the requested container is derived from
//! the output path's extension, compared case-insensitively.

use vstd::prelude::*;
use vstd::string::StrSliceExecFns;
use vstd::string::StringExecFns;
use crate::text::{lower, lowercased, str_eq_lower};

verus! {

/// The family of the requested output container; it decides which branch of
/// the encoder resolver and of the argument builder applies.
#[derive(Clone, Copy, Debug, PartialEq, Eq, Structural)]
pub enum OutputFormat {
    Mp4Family,
    WebM,
    OggTheora,
    Gif,
    Pdf,
    StillImage,
    Unknown,
}

/// Path separators recognised when isolating the file name.
pub open spec fn is_sep(c: char) -> bool {
    c == '/' || c == '\\'
}

/// `i` is the index of the dot that starts the path's extension: the last
/// dot of the path, with no separator after it, and not the first character
/// of the file name (a leading dot marks a hidden file, not an extension).
pub open spec fn ext_dot_at(p: Seq<char>, i: int) -> bool {
    &&& 0 < i < p.len()
    &&& p[i] == '.'
    &&& !is_sep(p[i - 1])
    &&& forall|j: int| i < j < p.len() ==> p[j] != '.' && !is_sep(p[j])
}

/// Whether the path's file name carries an extension.
pub open spec fn has_ext(p: Seq<char>) -> bool {
    exists|i: int| ext_dot_at(p, i)
}

/// The extension of the path: what follows its extension dot.
pub open spec fn ext_of(p: Seq<char>) -> Seq<char> {
    p.subrange((choose|i: int| ext_dot_at(p, i)) + 1, p.len() as int)
}

/// At most one index can be the extension dot.
pub proof fn lemma_ext_dot_unique(p: Seq<char>, i: int, j: int)
    requires
        ext_dot_at(p, i),
        ext_dot_at(p, j),
    ensures
        i == j,
{
    if i < j {
        assert(p[j] == '.');
        assert(false);
    }
    if j < i {
        assert(p[i] == '.');
        assert(false);
    }
}

/// The format that a lower-cased extension selects.
pub open spec fn format_of_ext(e: Seq<char>) -> OutputFormat {
    let l = lower(e);
    if l == "mp4"@ || l == "mkv"@ || l == "mov"@ || l == "avi"@ || l == "flv"@
        || l == "ts"@ || l == "m4v"@ || l == "wmv"@ {
        OutputFormat::Mp4Family
    } else if l == "webm"@ {
        OutputFormat::WebM
    } else if l == "ogv"@ || l == "ogg"@ {
        OutputFormat::OggTheora
    } else if l == "gif"@ {
        OutputFormat::Gif
    } else if l == "pdf"@ {
        OutputFormat::Pdf
    } else if l == "jpg"@ || l == "jpeg"@ || l == "png"@ || l == "webp"@ {
        OutputFormat::StillImage
    } else {
        OutputFormat::Unknown
    }
}

/// The format that a full output path selects: the classification of its
/// extension, or `Unknown` when the file name has none.
pub open spec fn format_of_path(p: Seq<char>) -> OutputFormat {
    if has_ext(p) {
        format_of_ext(ext_of(p))
    } else {
        OutputFormat::Unknown
    }
}

/// Finds the index of the extension dot of `p`, scanning from the end.
pub fn extension_dot_index(p: &str) -> (r: Option<usize>)
    ensures
        match r {
            Some(i) => ext_dot_at(p@, i as int),
            None => !has_ext(p@),
        },
{
    let n = p.unicode_len();
    let mut i: usize = n;
    while i > 0
        invariant
            i <= n,
            n == p@.len(),
            forall|j: int| i <= j < n ==> p@[j] != '.' && !is_sep(p@[j]),
        decreases i,
    {
        let c = p.get_char(i - 1);
        if c == '.' {
            if i >= 2 {
                let prev = p.get_char(i - 2);
                if prev != '/' && prev != '\\' {
                    return Some(i - 1);
                }
            }
            // The last dot sits at the start of the path or right after a
            // separator, so no index qualifies as the extension dot.
            proof {
                assert forall|k: int| !ext_dot_at(p@, k) by {
                    if ext_dot_at(p@, k) {
                        if k > i - 1 {
                            assert(p@[k] != '.');
                        } else if k < i - 1 {
                            assert(p@[i - 1] != '.');
                        } else {
                            assert(!is_sep(p@[k - 1]) && 0 < k);
                        }
                    }
                }
            }
            return None;
        }
        if c == '/' || c == '\\' {
            // Everything after this separator is dot-free, so the file name
            // carries no extension.
            proof {
                assert forall|k: int| !ext_dot_at(p@, k) by {
                    if ext_dot_at(p@, k) {
                        if k >= i {
                            assert(p@[k] != '.');
                        } else if k == i - 1 {
                            assert(p@[k] == '.');
                        } else {
                            assert(p@[i - 1] != '.' && !is_sep(p@[i - 1]));
                        }
                    }
                }
            }
            return None;
        }
        i -= 1;
    }
    proof {
        assert forall|k: int| !ext_dot_at(p@, k) by {
            if ext_dot_at(p@, k) {
                assert(p@[k] != '.');
            }
        }
    }
    None
}

/// Classifies an extension string, case-insensitively.
pub fn classify_extension(e: &str) -> (f: OutputFormat)
    ensures
        f == format_of_ext(e@),
{
    if str_eq_lower(e, "mp4") || str_eq_lower(e, "mkv") || str_eq_lower(e, "mov")
        || str_eq_lower(e, "avi") || str_eq_lower(e, "flv") || str_eq_lower(e, "ts")
        || str_eq_lower(e, "m4v") || str_eq_lower(e, "wmv") {
        OutputFormat::Mp4Family
    } else if str_eq_lower(e, "webm") {
        OutputFormat::WebM
    } else if str_eq_lower(e, "ogv") || str_eq_lower(e, "ogg") {
        OutputFormat::OggTheora
    } else if str_eq_lower(e, "gif") {
        OutputFormat::Gif
    } else if str_eq_lower(e, "pdf") {
        OutputFormat::Pdf
    } else if str_eq_lower(e, "jpg") || str_eq_lower(e, "jpeg")
        || str_eq_lower(e, "png") || str_eq_lower(e, "webp") {
        OutputFormat::StillImage
    } else {
        OutputFormat::Unknown
    }
}

/// The default output path for an input path: the marker is spliced into
/// the file name just before the extension dot and the extension is
/// lower-cased, or — for a name without an extension — the marker is
/// appended as it stands, with no trailing dot.
pub open spec fn derived_output(p: Seq<char>) -> Seq<char> {
    if has_ext(p) {
        let d = choose|i: int| ext_dot_at(p, i);
        p.subrange(0, d) + "_compressed."@ + lower(p.subrange(d + 1, p.len() as int))
    } else {
        p + "_compressed"@
    }
}

/// Builds the default output path beside the input: `clip.MP4` becomes
/// `clip_compressed.mp4`.
pub fn derive_output_path(p: &str) -> (r: String)
    ensures
        r@ == derived_output(p@),
{
    match extension_dot_index(p) {
        None => {
            let mut r = p.to_owned();
            r.append("_compressed");
            r
        },
        Some(d) => {
            let n = p.unicode_len();
            let mut r = p.substring_char(0, d).to_owned();
            r.append("_compressed.");
            let low = lowercased(p.substring_char(d + 1, n));
            r.append(low.as_str());
            proof {
                let w = choose|i: int| ext_dot_at(p@, i);
                lemma_ext_dot_unique(p@, w, d as int);
                assert(r@ =~= derived_output(p@));
            }
            r
        },
    }
}

/// Classifies a full output path by its extension.
pub fn classify_path(p: &str) -> (f: OutputFormat)
    ensures
        f == format_of_path(p@),
{
    match extension_dot_index(p) {
        None => OutputFormat::Unknown,
        Some(i) => {
            let n = p.unicode_len();
            let e = p.substring_char(i + 1, n);
            proof {
                let w = choose|k: int| ext_dot_at(p@, k);
                lemma_ext_dot_unique(p@, w, i as int);
                assert(e@ == ext_of(p@));
            }
            classify_extension(e)
        },
    }
}

} // verus!
