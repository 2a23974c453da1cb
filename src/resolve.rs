//! Path resolution: a requested path becomes a file under the web root, a
//! Markdown document, or a not-found outcome, following the configured index
//! names for directories.
//!
//! The filesystem is consulted by the caller: it asks for the kind of the
//! candidate path and for which index files exist in it, and hands those
//! facts back as a [`TargetProbe`].

use crate::config::ContentConfig;
use crate::text::{chars_of, join, join_path};
use vstd::prelude::*;

verus! {

/// What a path names on disk.
#[derive(Debug, Clone, Copy, PartialEq, Eq, Structural)]
pub enum PathKind {
    Missing,
    File,
    Directory,
}

/// A request segment that is refused: one that starts with `.` (which takes
/// in `..` and hidden files such as `.env`), other than `.` alone, or one
/// that holds a path separator.
pub open spec fn is_unsafe_segment(s: Seq<char>) -> bool {
    (s.len() > 0 && s[0] == '.' && s != seq!['.']) || s.contains('/') || s.contains('\\')
}

/// A request segment that names nothing: empty, or `.`.
pub open spec fn is_empty_segment(s: Seq<char>) -> bool {
    s.len() == 0 || s == seq!['.']
}

/// No segment of the request is refused.
pub open spec fn segments_safe(segments: Seq<String>) -> bool {
    forall|i: int| 0 <= i < segments.len() ==> !is_unsafe_segment(#[trigger] segments[i]@)
}

/// The request segments that name something, in order.
pub open spec fn kept_segments(segments: Seq<String>) -> Seq<String>
    decreases segments.len(),
{
    if segments.len() == 0 {
        seq![]
    } else {
        let rest = kept_segments(segments.drop_last());
        if is_empty_segment(segments.last()@) {
            rest
        } else {
            rest.push(segments.last())
        }
    }
}

/// `base` with each name joined on in turn.
pub open spec fn join_all(base: Seq<char>, names: Seq<String>) -> Seq<char>
    decreases names.len(),
{
    if names.len() == 0 {
        base
    } else {
        join_path(join_all(base, names.drop_last()), names.last()@)
    }
}

/// Tells whether a request segment is refused.
pub fn segment_is_unsafe(segment: &str) -> (r: bool)
    ensures
        r == is_unsafe_segment(segment@),
{
    let cs = chars_of(segment);
    if cs.len() > 1 && cs[0] == '.' {
        return true;
    }
    let mut i: usize = 0;
    while i < cs.len()
        invariant
            cs@ == segment@,
            0 <= i <= cs@.len(),
            forall|k: int| 0 <= k < i ==> cs@[k] != '/' && cs@[k] != '\\',
        decreases cs@.len() - i,
    {
        if cs[i] == '/' || cs[i] == '\\' {
            assert(segment@.contains(cs@[i as int]));
            return true;
        }
        i = i + 1;
    }
    assert(cs@.len() == 1 && cs@[0] == '.' ==> segment@ =~= seq!['.']);
    false
}

/// Tells whether a request segment names nothing.
pub fn segment_is_empty(segment: &str) -> (r: bool)
    ensures
        r == is_empty_segment(segment@),
{
    let cs = chars_of(segment);
    let r = cs.len() == 0 || (cs.len() == 1 && cs[0] == '.');
    assert(cs@.len() == 1 && cs@[0] == '.' ==> cs@ =~= seq!['.']);
    r
}

/// Drops the segments that name nothing, and refuses a request with a
/// refused segment.
pub fn normalize_segments(segments: &Vec<String>) -> (r: Option<Vec<String>>)
    ensures
        r is Some <==> segments_safe(segments@),
        r matches Some(v) ==> v@ == kept_segments(segments@),
{
    let mut kept: Vec<String> = Vec::new();
    let mut i: usize = 0;
    while i < segments.len()
        invariant
            0 <= i <= segments@.len(),
            kept@ == kept_segments(segments@.subrange(0, i as int)),
            forall|k: int| 0 <= k < i ==> !is_unsafe_segment(#[trigger] segments@[k]@),
        decreases segments@.len() - i,
    {
        let s = &segments[i];
        if segment_is_unsafe(s.as_str()) {
            return None;
        }
        assert(segments@.subrange(0, i + 1).drop_last() =~= segments@.subrange(0, i as int));
        if !segment_is_empty(s.as_str()) {
            kept.push(s.clone());
        }
        i = i + 1;
    }
    assert(segments@.subrange(0, i as int) =~= segments@);
    Some(kept)
}

/// Joins each name onto `base` in turn.
pub fn join_names(base: &str, names: &Vec<String>) -> (r: String)
    ensures
        r@ == join_all(base@, names@),
{
    let mut path = String::from_str(base);
    let mut i: usize = 0;
    while i < names.len()
        invariant
            0 <= i <= names@.len(),
            path@ == join_all(base@, names@.subrange(0, i as int)),
        decreases names@.len() - i,
    {
        assert(names@.subrange(0, i + 1).drop_last() =~= names@.subrange(0, i as int));
        path = join(path.as_str(), names[i].as_str());
        i = i + 1;
    }
    assert(names@.subrange(0, i as int) =~= names@);
    path
}

/// The path that a request names under the web root, or none when the
/// request is refused.
pub open spec fn candidate_of(webroot: Seq<char>, segments: Seq<String>) -> Option<Seq<char>> {
    if segments_safe(segments) {
        Some(join_all(webroot, kept_segments(segments)))
    } else {
        None
    }
}

/// Computes the path that a request names under the web root.
pub fn candidate_path(webroot: &str, segments: &Vec<String>) -> (r: Option<String>)
    ensures
        match r {
            Some(p) => candidate_of(webroot@, segments@) == Some(p@),
            None => candidate_of(webroot@, segments@) is None,
        },
{
    match normalize_segments(segments) {
        Some(kept) => Some(join_names(webroot, &kept)),
        None => None,
    }
}

/// The paths of the index files in a directory, one per configured name and
/// in the same order.
pub fn index_candidates(dir: &str, index_files: &Vec<String>) -> (r: Vec<String>)
    ensures
        r@.len() == index_files@.len(),
        forall|i: int| 0 <= i < r@.len() ==> #[trigger] r@[i]@ == join_path(dir@, index_files@[i]@),
{
    let mut r: Vec<String> = Vec::new();
    let mut i: usize = 0;
    while i < index_files.len()
        invariant
            0 <= i <= index_files@.len(),
            r@.len() == i,
            forall|k: int| 0 <= k < i ==> #[trigger] r@[k]@ == join_path(dir@, index_files@[k]@),
        decreases index_files@.len() - i,
    {
        r.push(join(dir, index_files[i].as_str()));
        i = i + 1;
    }
    r
}

/// What the caller found on disk for a request: the kind of the candidate
/// path and whether, once symbolic links are followed, it lies under the
/// web root; and, for each configured index name in order, whether that
/// index file exists in the candidate directory and whether it lies under
/// the web root. A path that does not exist counts as lying under it.
pub struct TargetProbe {
    pub kind: PathKind,
    pub within_webroot: bool,
    pub index_present: Vec<bool>,
    pub index_within_webroot: Vec<bool>,
}

/// Why a request found nothing to serve.
#[derive(Debug, Clone)]
pub enum NotFoundReason {
    /// The request has a refused segment, or leads out of the web root
    /// once symbolic links are followed.
    Refused,
    /// The web root holds none of the index files.
    NoRootIndex,
    /// The directory holds none of the index files.
    NoIndexFile(String),
    /// Nothing exists at the path.
    FileNotFound(String),
}

/// The outcome of resolving a request.
#[derive(Debug, Clone)]
pub enum ResolvedTarget {
    /// A file sent as it is.
    StaticFile(String),
    /// A Markdown file, rendered into a page.
    MarkdownDocument(String),
    NotFound(NotFoundReason),
}

/// [`ResolvedTarget`] with its paths as text.
pub ghost enum TargetView {
    StaticFile(Seq<char>),
    MarkdownDocument(Seq<char>),
    Refused,
    NoRootIndex,
    NoIndexFile(Seq<char>),
    FileNotFound(Seq<char>),
}

impl View for ResolvedTarget {
    type V = TargetView;

    open spec fn view(&self) -> TargetView {
        match self {
            ResolvedTarget::StaticFile(p) => TargetView::StaticFile(p@),
            ResolvedTarget::MarkdownDocument(p) => TargetView::MarkdownDocument(p@),
            ResolvedTarget::NotFound(NotFoundReason::Refused) => TargetView::Refused,
            ResolvedTarget::NotFound(NotFoundReason::NoRootIndex) => TargetView::NoRootIndex,
            ResolvedTarget::NotFound(NotFoundReason::NoIndexFile(p)) => TargetView::NoIndexFile(p@),
            ResolvedTarget::NotFound(NotFoundReason::FileNotFound(p)) => TargetView::FileNotFound(
                p@,
            ),
        }
    }
}

/// The file name ends in the extension `.md`, exactly, after a non-empty stem.
pub open spec fn has_md_extension(name: Seq<char>) -> bool {
    name.len() > 3 && name.subrange(name.len() - 3, name.len() as int) == seq!['.', 'm', 'd']
}

/// Tells whether a file name has the extension `.md`.
pub fn is_markdown_name(name: &str) -> (r: bool)
    ensures
        r == has_md_extension(name@),
{
    let cs = chars_of(name);
    let n = cs.len();
    if n > 3 && cs[n - 3] == '.' && cs[n - 2] == 'm' && cs[n - 1] == 'd' {
        assert(name@.subrange(n - 3, n as int) =~= seq!['.', 'm', 'd']);
        true
    } else {
        assert(n > 3 ==> name@.subrange(n - 3, n as int)[0] == cs@[n - 3]);
        assert(n > 3 ==> name@.subrange(n - 3, n as int)[1] == cs@[n - 2]);
        assert(n > 3 ==> name@.subrange(n - 3, n as int)[2] == cs@[n - 1]);
        false
    }
}

/// How an existing file at `path`, named `name`, is served.
pub open spec fn served(path: Seq<char>, name: Seq<char>, markdown_enabled: bool) -> TargetView {
    if markdown_enabled && has_md_extension(name) {
        TargetView::MarkdownDocument(path)
    } else {
        TargetView::StaticFile(path)
    }
}

/// `i` is the first position of `present` that holds `true`.
pub open spec fn first_present(present: Seq<bool>, i: int) -> bool {
    0 <= i < present.len() && present[i] && forall|k: int| 0 <= k < i ==> !present[k]
}

/// The outcome of a request, given what was found on disk. A request with a
/// refused segment, or whose path leads out of the web root once symbolic
/// links are followed, is refused. A directory (and the web root itself) is
/// served through the first configured index name that exists in it; any
/// other path is served when it exists; a `.md` file is rendered when
/// Markdown is enabled.
pub open spec fn resolution(
    webroot: Seq<char>,
    index_files: Seq<String>,
    markdown_enabled: bool,
    segments: Seq<String>,
    probe: TargetProbe,
) -> TargetView {
    if !segments_safe(segments) || !probe.within_webroot {
        TargetView::Refused
    } else {
        let rel = kept_segments(segments);
        let candidate = join_all(webroot, rel);
        if rel.len() == 0 || probe.kind == PathKind::Directory {
            if exists|i: int| first_present(probe.index_present@, i) {
                let i = choose|i: int| first_present(probe.index_present@, i);
                if probe.index_within_webroot@[i] {
                    served(
                        join_path(candidate, index_files[i]@),
                        index_files[i]@,
                        markdown_enabled,
                    )
                } else {
                    TargetView::Refused
                }
            } else if rel.len() == 0 {
                TargetView::NoRootIndex
            } else {
                TargetView::NoIndexFile(candidate)
            }
        } else if probe.kind == PathKind::Missing {
            TargetView::FileNotFound(candidate)
        } else {
            served(candidate, rel.last()@, markdown_enabled)
        }
    }
}

fn serve(path: String, name: &str, markdown_enabled: bool) -> (r: ResolvedTarget)
    ensures
        r@ == served(path@, name@, markdown_enabled),
{
    if markdown_enabled && is_markdown_name(name) {
        ResolvedTarget::MarkdownDocument(path)
    } else {
        ResolvedTarget::StaticFile(path)
    }
}

/// Finds the first `true` in `present`, if any.
pub fn first_true(present: &Vec<bool>) -> (r: Option<usize>)
    ensures
        match r {
            Some(i) => first_present(present@, i as int),
            None => !exists|i: int| first_present(present@, i),
        },
{
    let mut i: usize = 0;
    while i < present.len()
        invariant
            0 <= i <= present@.len(),
            forall|k: int| 0 <= k < i ==> !present@[k],
        decreases present@.len() - i,
    {
        if present[i] {
            return Some(i);
        }
        i = i + 1;
    }
    None
}

impl ContentConfig {
    /// Resolves a request, given as its path segments, against the web root,
    /// using what the caller found on disk.
    pub fn resolve(&self, segments: &Vec<String>, probe: &TargetProbe) -> (r: ResolvedTarget)
        requires
            probe.index_present@.len() == self.index_files@.len(),
            probe.index_within_webroot@.len() == self.index_files@.len(),
        ensures
            r@ == resolution(
                self.webroot@,
                self.index_files@,
                self.markdown_enabled,
                segments@,
                *probe,
            ),
    {
        let kept = match normalize_segments(segments) {
            Some(k) => k,
            None => {
                return ResolvedTarget::NotFound(NotFoundReason::Refused);
            },
        };
        if !probe.within_webroot {
            return ResolvedTarget::NotFound(NotFoundReason::Refused);
        }
        let candidate = join_names(self.webroot.as_str(), &kept);
        if kept.len() == 0 || probe.kind == PathKind::Directory {
            match first_true(&probe.index_present) {
                Some(i) => {
                    proof {
                        let j = choose|j: int| first_present(probe.index_present@, j);
                        assert(j == i);
                    }
                    if !probe.index_within_webroot[i] {
                        return ResolvedTarget::NotFound(NotFoundReason::Refused);
                    }
                    let name = self.index_files[i].as_str();
                    let path = join(candidate.as_str(), name);
                    serve(path, name, self.markdown_enabled)
                },
                None => if kept.len() == 0 {
                    ResolvedTarget::NotFound(NotFoundReason::NoRootIndex)
                } else {
                    ResolvedTarget::NotFound(NotFoundReason::NoIndexFile(candidate))
                },
            }
        } else if probe.kind == PathKind::Missing {
            ResolvedTarget::NotFound(NotFoundReason::FileNotFound(candidate))
        } else {
            let last = kept.len() - 1;
            serve(candidate, kept[last].as_str(), self.markdown_enabled)
        }
    }
}

/// For a request that names a directory (or the web root), the first
/// configured index name that exists is the one served, whatever later names
/// also exist, unless that file leads out of the web root.
pub proof fn lemma_first_index_served(
    webroot: Seq<char>,
    index_files: Seq<String>,
    markdown_enabled: bool,
    segments: Seq<String>,
    probe: TargetProbe,
    i: int,
)
    requires
        segments_safe(segments),
        probe.within_webroot,
        kept_segments(segments).len() == 0 || probe.kind == PathKind::Directory,
        probe.index_present@.len() == index_files.len(),
        probe.index_within_webroot@.len() == index_files.len(),
        0 <= i < index_files.len(),
        probe.index_present@[i],
        forall|k: int| 0 <= k < i ==> !probe.index_present@[k],
    ensures
        resolution(webroot, index_files, markdown_enabled, segments, probe) == if probe.index_within_webroot@[i] {
            served(
                join_path(join_all(webroot, kept_segments(segments)), index_files[i]@),
                index_files[i]@,
                markdown_enabled,
            )
        } else {
            TargetView::Refused
        },
{
    assert(first_present(probe.index_present@, i));
    let j = choose|j: int| first_present(probe.index_present@, j);
    assert(j == i);
}

/// Nothing outside the web root is served: a request whose path, or whose
/// chosen index file, leads out of the web root once symbolic links are
/// followed is refused.
pub proof fn lemma_outside_webroot_refused(
    webroot: Seq<char>,
    index_files: Seq<String>,
    markdown_enabled: bool,
    segments: Seq<String>,
    probe: TargetProbe,
)
    requires
        probe.index_present@.len() == index_files.len(),
        probe.index_within_webroot@.len() == index_files.len(),
    ensures
        !probe.within_webroot ==> resolution(
            webroot,
            index_files,
            markdown_enabled,
            segments,
            probe,
        ) == TargetView::Refused,
        forall|i: int|
            #![trigger probe.index_within_webroot@[i]]
            first_present(probe.index_present@, i) && !probe.index_within_webroot@[i]
                && (kept_segments(segments).len() == 0 || probe.kind == PathKind::Directory)
                ==> resolution(webroot, index_files, markdown_enabled, segments, probe)
                == TargetView::Refused,
{
    assert forall|i: int|
        #![trigger probe.index_within_webroot@[i]]
        first_present(probe.index_present@, i) && !probe.index_within_webroot@[i]
            && (kept_segments(segments).len() == 0 || probe.kind == PathKind::Directory)
            implies resolution(webroot, index_files, markdown_enabled, segments, probe)
            == TargetView::Refused by {
        let j = choose|j: int| first_present(probe.index_present@, j);
        assert(j == i);
    }
}

/// A name that stays where it is joined and names no hidden file: not
/// empty, not starting with `.`, and without a path separator.
pub open spec fn is_plain_name(s: Seq<char>) -> bool {
    !is_empty_segment(s) && !is_unsafe_segment(s)
}

/// The segments kept from a request that is not refused are all plain names,
/// so the path they spell never climbs out of the web root.
pub proof fn lemma_kept_segments_plain(segments: Seq<String>)
    requires
        segments_safe(segments),
    ensures
        forall|i: int|
            0 <= i < kept_segments(segments).len() ==> is_plain_name(
                #[trigger] kept_segments(segments)[i]@,
            ),
    decreases segments.len(),
{
    if segments.len() > 0 {
        let front = segments.drop_last();
        assert forall|i: int| 0 <= i < front.len() implies !is_unsafe_segment(
            #[trigger] front[i]@,
        ) by {
            assert(front[i] == segments[i]);
        }
        lemma_kept_segments_plain(front);
        let last = segments.last();
        assert(!is_unsafe_segment(segments[segments.len() - 1]@));
        let kf = kept_segments(front);
        let k = kept_segments(segments);
        if !is_empty_segment(last@) {
            assert(k == kf.push(last));
            assert forall|i: int| 0 <= i < k.len() implies is_plain_name(#[trigger] k[i]@) by {
                if i < kf.len() {
                    assert(k[i] == kf[i]);
                }
            }
        }
    }
}

} // verus!
