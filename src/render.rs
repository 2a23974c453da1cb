//! Markdown rendering: page title extraction, and conversion of the source to
//! an HTML fragment that the page template wraps.

use crate::template::{create_html_template, page_html};
use crate::text::{
    chars_of, contains_name, cut_space, cut_space_at, names_contain, skip_space,
    skip_space_at,
};
use vstd::prelude::*;

verus! {

/// The end of the line that starts at `i`: the next line feed, or the end of
/// the text.
pub open spec fn line_end(s: Seq<char>, i: int) -> int
    decreases s.len() - i,
{
    if 0 <= i < s.len() && s[i] != '\n' {
        line_end(s, i + 1)
    } else {
        i
    }
}

pub proof fn lemma_line_end(s: Seq<char>, i: int)
    requires
        0 <= i <= s.len(),
    ensures
        i <= line_end(s, i) <= s.len(),
        line_end(s, i) == s.len() || s[line_end(s, i)] == '\n',
        forall|k: int| i <= k < line_end(s, i) ==> s[k] != '\n',
    decreases s.len() - i,
{
    if i < s.len() && s[i] != '\n' {
        lemma_line_end(s, i + 1);
    }
}

/// `i` is where a line begins: the start of the text, or just after a line feed.
pub open spec fn is_line_start(s: Seq<char>, i: int) -> bool {
    0 <= i <= s.len() && (i == 0 || s[i - 1] == '\n')
}

/// Start of the line at `i` once leading white space is skipped.
pub open spec fn trimmed_start(s: Seq<char>, i: int) -> int {
    skip_space(s, i, line_end(s, i))
}

/// End of the line at `i` once trailing white space is cut off.
pub open spec fn trimmed_end(s: Seq<char>, i: int) -> int {
    cut_space(s, trimmed_start(s, i), line_end(s, i))
}

/// The line at `i`, trimmed, begins with `# `.
pub open spec fn is_title_line(s: Seq<char>, i: int) -> bool {
    let a = trimmed_start(s, i);
    let b = trimmed_end(s, i);
    b - a >= 2 && s[a] == '#' && s[a + 1] == ' '
}

/// What follows `# ` on the trimmed line at `i`, trimmed in turn.
pub open spec fn title_text(s: Seq<char>, i: int) -> Seq<char> {
    let b = trimmed_end(s, i);
    let a = skip_space(s, trimmed_start(s, i) + 2, b);
    s.subrange(a, cut_space(s, a, b))
}

/// The title given by the first title line at or after the line start `i`.
pub open spec fn title_from(s: Seq<char>, i: int) -> Option<Seq<char>>
    decreases s.len() - i,
{
    if 0 <= i <= s.len() {
        if is_title_line(s, i) {
            Some(title_text(s, i))
        } else if line_end(s, i) < s.len() {
            proof {
                lemma_line_end(s, i);
            }
            title_from(s, line_end(s, i) + 1)
        } else {
            None
        }
    } else {
        None
    }
}

/// The page title of a Markdown text: the text of its first `# ` line, or
/// `Untitled` when there is none.
pub open spec fn title_of(s: Seq<char>) -> Seq<char> {
    match title_from(s, 0) {
        Some(t) => t,
        None => "Untitled"@,
    }
}

/// Finds the end of the line that starts at `i`.
fn line_end_at(s: &Vec<char>, i: usize) -> (r: usize)
    requires
        i <= s@.len(),
    ensures
        r == line_end(s@, i as int),
{
    let mut j = i;
    while j < s.len() && s[j] != '\n'
        invariant
            i <= j <= s@.len(),
            line_end(s@, j as int) == line_end(s@, i as int),
        decreases s@.len() - j,
    {
        j = j + 1;
    }
    j
}

/// Extracts the page title from Markdown source: the first line that, once
/// trimmed, starts with `# ` gives the rest of that line, trimmed; with no
/// such line the title is `Untitled`.
pub fn extract_title(markdown: &str) -> (r: String)
    ensures
        r@ == title_of(markdown@),
{
    let cs = chars_of(markdown);
    let n = cs.len();
    let mut i: usize = 0;
    loop
        invariant
            cs@ == markdown@,
            n == cs@.len(),
            0 <= i <= n,
            title_from(cs@, i as int) == title_from(cs@, 0),
        decreases n - i,
    {
        let e = line_end_at(&cs, i);
        proof {
            lemma_line_end(cs@, i as int);
        }
        let a = skip_space_at(&cs, i, e);
        let b = cut_space_at(&cs, a, e);
        if b - a >= 2 && cs[a] == '#' && cs[a + 1] == ' ' {
            let a2 = skip_space_at(&cs, a + 2, b);
            let b2 = cut_space_at(&cs, a2, b);
            let t = markdown.substring_char(a2, b2);
            return String::from_str(t);
        }
        if e >= n {
            proof {
                reveal_strlit("Untitled");
            }
            return String::from_str("Untitled");
        }
        i = e + 1;
    }
}

proof fn lemma_scan_to(s: Seq<char>, j: int, i: int)
    requires
        is_line_start(s, j),
        is_line_start(s, i),
        j <= i,
        forall|k: int| #![auto] is_line_start(s, k) && j <= k < i ==> !is_title_line(s, k),
    ensures
        title_from(s, j) == title_from(s, i),
    decreases i - j,
{
    if j < i {
        lemma_line_end(s, j);
        let e = line_end(s, j);
        assert(s[i - 1] == '\n');
        assert(e <= i - 1);
        assert(!is_title_line(s, j));
        lemma_scan_to(s, e + 1, i);
    }
}

proof fn lemma_scan_to_end(s: Seq<char>, j: int)
    requires
        is_line_start(s, j),
        forall|k: int| #![auto] is_line_start(s, k) && j <= k ==> !is_title_line(s, k),
    ensures
        title_from(s, j) is None,
    decreases s.len() - j,
{
    lemma_line_end(s, j);
    assert(!is_title_line(s, j));
    if line_end(s, j) < s.len() {
        lemma_scan_to_end(s, line_end(s, j) + 1);
    }
}

/// The title of a Markdown text is taken from its first line that, trimmed,
/// starts with `# `: it is the rest of that line, trimmed.
pub proof fn lemma_title_from_first_heading(s: Seq<char>, i: int)
    requires
        is_line_start(s, i),
        is_title_line(s, i),
        forall|k: int| #![auto] is_line_start(s, k) && k < i ==> !is_title_line(s, k),
    ensures
        title_of(s) == title_text(s, i),
{
    lemma_scan_to(s, 0, i);
}

/// A Markdown text with no line that, trimmed, starts with `# ` is titled
/// `Untitled`.
pub proof fn lemma_untitled_without_heading(s: Seq<char>)
    requires
        forall|k: int| #![auto] is_line_start(s, k) ==> !is_title_line(s, k),
    ensures
        title_of(s) == "Untitled"@,
{
    lemma_scan_to_end(s, 0);
}

/// The Markdown extensions that the renderer can turn on, each on top of
/// CommonMark.
pub struct MarkdownFeatures {
    /// GitHub-style tables (`tables`).
    pub tables: bool,
    /// `~~struck~~` text (`strikethrough`).
    pub strikethrough: bool,
    /// `[ ]` and `[x]` list items (`task_lists`).
    pub task_lists: bool,
    /// Bare URLs and e-mail addresses made into links (`autolinks`).
    pub autolinks: bool,
}

/// The features that a list of extension names turns on.
pub open spec fn features_named(names: Seq<String>) -> MarkdownFeatures {
    MarkdownFeatures {
        tables: names_contain(names, "tables"@),
        strikethrough: names_contain(names, "strikethrough"@),
        task_lists: names_contain(names, "task_lists"@),
        autolinks: names_contain(names, "autolinks"@),
    }
}

/// Reads the configured extension names; unknown names are ignored.
pub fn markdown_features(extensions: &Vec<String>) -> (r: MarkdownFeatures)
    ensures
        r == features_named(extensions@),
{
    MarkdownFeatures {
        tables: contains_name(extensions, "tables"),
        strikethrough: contains_name(extensions, "strikethrough"),
        task_lists: contains_name(extensions, "task_lists"),
        autolinks: contains_name(extensions, "autolinks"),
    }
}

/// The HTML fragment that the Markdown converter makes of a source text with
/// the given extensions turned on.
pub uninterp spec fn markdown_html(
    source: Seq<char>,
    tables: bool,
    strikethrough: bool,
    task_lists: bool,
    autolinks: bool,
) -> Seq<char>;

/// Relies on `markdown::to_html_with_options`: CommonMark with the chosen GFM
/// constructs, and nothing else, turned on. The HTML depends on the source and
/// the options alone, and the crate documents that the conversion never fails
/// unless MDX is turned on, which it is not here.
#[verifier::external_body]
fn to_html_fragment(source: &str, f: &MarkdownFeatures) -> (r: String)
    ensures
        r@ == markdown_html(source@, f.tables, f.strikethrough, f.task_lists, f.autolinks),
{
    let constructs = markdown::Constructs {
        gfm_table: f.tables,
        gfm_strikethrough: f.strikethrough,
        gfm_task_list_item: f.task_lists,
        gfm_autolink_literal: f.autolinks,
        ..markdown::Constructs::default()
    };
    let parse = markdown::ParseOptions { constructs, ..markdown::ParseOptions::default() };
    let options = markdown::Options { parse, ..markdown::Options::default() };
    markdown::to_html_with_options(source, &options).unwrap()
}

/// The HTML fragment for a source under a list of extension names.
pub open spec fn fragment_of(source: Seq<char>, extensions: Seq<String>) -> Seq<char> {
    let f = features_named(extensions);
    markdown_html(source, f.tables, f.strikethrough, f.task_lists, f.autolinks)
}

/// The complete page for a source under a list of extension names.
pub open spec fn rendered_html(source: Seq<char>, extensions: Seq<String>) -> Seq<char> {
    page_html(title_of(source), fragment_of(source, extensions))
}

/// A Markdown document turned into a page.
pub struct RenderedPage {
    pub title: String,
    pub body_html: String,
    pub full_html: String,
}

/// Builds the page for a Markdown source from the HTML fragment already made
/// of it.
pub fn page_from_fragment(source: &str, body_html: String) -> (r: RenderedPage)
    ensures
        r.title@ == title_of(source@),
        r.body_html@ == body_html@,
        r.full_html@ == page_html(title_of(source@), body_html@),
{
    let title = extract_title(source);
    let full_html = create_html_template(body_html.as_str(), title.as_str());
    RenderedPage { title, body_html, full_html }
}

/// Renders a Markdown source into a page, with the named extensions on.
pub fn render_markdown(source: &str, extensions: &Vec<String>) -> (r: RenderedPage)
    ensures
        r.title@ == title_of(source@),
        r.body_html@ == fragment_of(source@, extensions@),
        r.full_html@ == rendered_html(source@, extensions@),
{
    let features = markdown_features(extensions);
    let body = to_html_fragment(source, &features);
    page_from_fragment(source, body)
}

/// Rendering is deterministic: the same source under the same set of
/// extension names, in whatever order or repetition they are listed, gives
/// the same page.
pub proof fn lemma_render_deterministic(
    source1: Seq<char>,
    source2: Seq<char>,
    extensions1: Seq<String>,
    extensions2: Seq<String>,
)
    requires
        source1 == source2,
        forall|n: Seq<char>| names_contain(extensions1, n) == names_contain(extensions2, n),
    ensures
        rendered_html(source1, extensions1) == rendered_html(source2, extensions2),
{
    assert(features_named(extensions1) == features_named(extensions2));
}

} // verus!
