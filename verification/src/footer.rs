use vstd::prelude::*;
use vstd::string::*;

use crate::book::Chapter;
use crate::locate::fs_canonicalize;
use crate::paths::{path_join, strip_repo_prefix, strip_spec};
use crate::template::FooterTemplate;
use crate::text::{contains_str, contains_sub};

verus! {

/// The sentinel that opens every injected footer block; finding it in a
/// page's content means the page was already processed.
pub open spec fn footer_marker() -> Seq<char> {
    "<footer id=\"open-on-gh\">"@
}

pub fn footer_marker_str() -> (r: &'static str)
    ensures
        r@ == footer_marker(),
{
    "<footer id=\"open-on-gh\">"
}

/// Everything that can abort a run.
#[derive(Clone, Copy, Debug, PartialEq, Eq, Structural)]
pub enum FooterError {
    /// No directory above the book root holds a `.git` marker.
    RepoNotFound,
    /// The configured footer micro-template has no valid `[label]`.
    BadTemplate,
    /// A page's source file resolved to a path outside the repository root.
    PathOutsideRepo,
}

impl FooterError {
    pub fn message(&self) -> (r: String)
        ensures
            self is RepoNotFound ==> r@ == "could not find a .git directory above the book root"@,
            self is BadTemplate ==> r@ == "can't parse footer text. Missing `[link text]`?"@,
            self is PathOutsideRepo ==> r@
                == "page source path lies outside the repository root"@,
    {
        match self {
            FooterError::RepoNotFound => "could not find a .git directory above the book root"
                .to_owned(),
            FooterError::BadTemplate => "can't parse footer text. Missing `[link text]`?"
                .to_owned(),
            FooterError::PathOutsideRepo => "page source path lies outside the repository root"
                .to_owned(),
        }
    }
}

/// The edit URL for a file at `rel` (relative to the repository root), on
/// branch `branch` of the repository at `base`.
pub open spec fn edit_url_spec(base: Seq<char>, branch: Seq<char>, rel: Seq<char>) -> Seq<char> {
    base + "/edit/"@ + branch + "/"@ + rel
}

pub fn build_edit_url(base: &str, branch: &str, rel: &str) -> (r: String)
    ensures
        r@ == edit_url_spec(base@, branch@, rel@),
{
    let mut s = base.to_owned();
    s.append("/edit/");
    s.append(branch);
    s.append("/");
    s.append(rel);
    s
}

/// A page's content with the footer block appended: the old content, a
/// newline, the marker, the template's prefix, an anchor to `url` labelled
/// with the template's label, the template's suffix, and the closing tag.
pub open spec fn rendered_footer(
    content: Seq<char>,
    url: Seq<char>,
    pre: Seq<char>,
    label: Seq<char>,
    post: Seq<char>,
) -> Seq<char> {
    content + "\n"@ + footer_marker() + pre + "<a href=\""@ + url + "\">"@ + label + "</a>"@ + post
        + "</footer>"@
}

pub fn render_footer(content: &str, url: &str, t: &FooterTemplate) -> (r: String)
    ensures
        r@ == rendered_footer(content@, url@, t.pre@, t.label@, t.post@),
{
    let mut s = content.to_owned();
    s.append("\n");
    s.append(footer_marker_str());
    s.append(t.pre.as_str());
    s.append("<a href=\"");
    s.append(url);
    s.append("\">");
    s.append(t.label.as_str());
    s.append("</a>");
    s.append(t.post.as_str());
    s.append("</footer>");
    s
}

/// Appends the footer for a page whose source file resolved to `resolved`
/// on disk: the path is taken relative to `git_root`, turned into an edit
/// URL, and rendered through the template; a resolved path that does not
/// lie under `git_root` is a fatal error.
pub fn apply_footer(
    git_root: &str,
    base_url: &str,
    branch: &str,
    t: &FooterTemplate,
    content: &str,
    resolved: &str,
) -> (r: Result<String, FooterError>)
    requires
        t.wf(),
    ensures
        match strip_spec(resolved@, git_root@) {
            Some(rel) => r matches Ok(c) && c@ == rendered_footer(
                content@,
                edit_url_spec(base_url@, branch@, rel),
                t.pre@,
                t.label@,
                t.post@,
            ),
            None => r == Err::<String, FooterError>(FooterError::PathOutsideRepo),
        },
{
    match strip_repo_prefix(resolved, git_root) {
        None => Err(FooterError::PathOutsideRepo),
        Some(rel) => {
            let url = build_edit_url(base_url, branch, rel.as_str());
            Ok(render_footer(content, url.as_str(), t))
        },
    }
}

/// How a page's new content may relate to its old content, for a page with
/// the given source path: unchanged when the marker is already present,
/// blanked when the page has no source path, and otherwise either
/// unchanged (its file was not found on disk) or the rendered footer
/// appended for some on-disk path under the repository root.
pub open spec fn content_ok(
    old_c: Seq<char>,
    new_c: Seq<char>,
    path: Option<String>,
    git_root: Seq<char>,
    base_url: Seq<char>,
    branch: Seq<char>,
    pre: Seq<char>,
    label: Seq<char>,
    post: Seq<char>,
) -> bool {
    if contains_sub(old_c, footer_marker()) {
        new_c == old_c
    } else {
        match path {
            None => new_c == Seq::<char>::empty(),
            Some(_) => new_c == old_c || exists|p: Seq<char>|
                #[trigger] strip_spec(p, git_root) matches Some(rel) && new_c == rendered_footer(
                    old_c,
                    edit_url_spec(base_url, branch, rel),
                    pre,
                    label,
                    post,
                ),
        }
    }
}

/// Computes a chapter's new content. Already-processed chapters (the
/// marker is in the content) pass through unchanged; chapters with no
/// source path are blanked, as the historical behaviour of this tool had
/// it; chapters whose source file cannot be resolved on disk pass through
/// unchanged; the rest get the footer appended, unless the file lies
/// outside the repository root, which aborts the run.
pub fn open_on(
    git_root: &str,
    src_root: &str,
    base_url: &str,
    branch: &str,
    t: &FooterTemplate,
    chapter: &Chapter,
) -> (r: Result<String, FooterError>)
    requires
        t.wf(),
    ensures
        r matches Ok(c) ==> content_ok(
            chapter.content@,
            c@,
            chapter.path,
            git_root@,
            base_url@,
            branch@,
            t.pre@,
            t.label@,
            t.post@,
        ),
        contains_sub(chapter.content@, footer_marker()) ==> (r matches Ok(c) && c@
            == chapter.content@),
        !contains_sub(chapter.content@, footer_marker()) && chapter.path is None ==> (r matches Ok(
            c,
        ) && c@ == Seq::<char>::empty()),
        r matches Err(e) ==> e == FooterError::PathOutsideRepo && !contains_sub(
            chapter.content@,
            footer_marker(),
        ) && chapter.path is Some,
{
    if contains_str(chapter.content.as_str(), footer_marker_str()) {
        return Ok(chapter.content.clone());
    }
    let path = match &chapter.path {
        None => {
            return Ok(String::new());
        },
        Some(p) => p,
    };
    let joined = path_join(src_root, path.as_str());
    let resolved = match fs_canonicalize(joined.as_str()) {
        None => {
            return Ok(chapter.content.clone());
        },
        Some(rp) => rp,
    };
    apply_footer(git_root, base_url, branch, t, chapter.content.as_str(), resolved.as_str())
}

/// What one pass of the injector does to a page's content, at the level of
/// character sequences.
pub open spec fn process_once(
    c: Seq<char>,
    url: Seq<char>,
    pre: Seq<char>,
    label: Seq<char>,
    post: Seq<char>,
) -> Seq<char> {
    if contains_sub(c, footer_marker()) {
        c
    } else {
        rendered_footer(c, url, pre, label, post)
    }
}

/// Law: injecting the footer is idempotent. A second pass — even with a
/// different URL or template — finds the marker written by the first pass
/// and leaves the content unchanged.
pub proof fn lemma_inject_idempotent(
    c: Seq<char>,
    url: Seq<char>,
    pre: Seq<char>,
    label: Seq<char>,
    post: Seq<char>,
    url2: Seq<char>,
    pre2: Seq<char>,
    label2: Seq<char>,
    post2: Seq<char>,
)
    ensures
        process_once(process_once(c, url, pre, label, post), url2, pre2, label2, post2)
            == process_once(c, url, pre, label, post),
{
    if !contains_sub(c, footer_marker()) {
        let r = rendered_footer(c, url, pre, label, post);
        let i = (c.len() + "\n"@.len()) as int;
        assert(r.subrange(i, i + footer_marker().len() as int) =~= footer_marker());
        assert(contains_sub(r, footer_marker()));
    }
}

} // verus!
