use vstd::prelude::*;

pub mod book;
pub mod config;
pub mod footer;
pub mod locate;
pub mod paths;
pub mod template;
pub mod text;

use crate::book::{item_processed, process_items, tree_has_fallible_chapter, Book};
use crate::config::{config_skips, resolve, spec_branch, spec_footer_text, spec_url, BuildConfig};
use crate::footer::FooterError;
use crate::locate::find_git;
use crate::paths::{is_path_prefix, path_join};
use crate::template::{parse_footer_spec, parse_footer_text, FooterTemplate};

verus! {

/// What the host hands over for one run: the book's root directory, the
/// source subdirectory configured for it, and the configuration options.
pub struct BuildContext {
    pub root: String,
    pub src_dir: String,
    pub config: BuildConfig,
}

/// A processed book: same shape as the one that went in, each chapter's
/// content rewritten as `item_processed` allows, against some repository
/// root that is an ancestor of the book root.
pub open spec fn book_processed(old_b: Book, new_b: Book, root: Seq<char>, c: BuildConfig) -> bool {
    exists|g: Seq<char>|
        #[trigger] is_path_prefix(g, root) && new_b.items@.len() == old_b.items@.len() && (forall|
            i: int,
        |
            0 <= i < old_b.items@.len() ==> item_processed(
                #[trigger] old_b.items@[i],
                new_b.items@[i],
                g,
                spec_url(c),
                spec_branch(c),
                parse_footer_spec(spec_footer_text(c))->Some_0.0,
                parse_footer_spec(spec_footer_text(c))->Some_0.1,
                parse_footer_spec(spec_footer_text(c))->Some_0.2,
            ))
}

/// The preprocessor: appends a "view/edit on GitHub" footer link to every
/// page of a book.
pub struct OpenOn;

impl OpenOn {
    /// The name under which the host knows this preprocessor.
    pub fn name(&self) -> (r: &'static str)
        ensures
            r@ == "open-on-gh"@,
    {
        "open-on-gh"
    }

    /// One run over a book. When the configuration says to skip, the book
    /// comes back untouched; an unparseable footer template, a missing
    /// repository root, or a page outside the repository aborts the run;
    /// otherwise every chapter is processed depth first.
    pub fn run(&self, ctx: &BuildContext, book: Book) -> (r: Result<Book, FooterError>)
        ensures
            config_skips(ctx.config) ==> r == Ok::<Book, FooterError>(book),
            r matches Err(_) ==> !config_skips(ctx.config),
            !config_skips(ctx.config) && parse_footer_spec(spec_footer_text(ctx.config)) is None
                ==> r == Err::<Book, FooterError>(FooterError::BadTemplate),
            r == Err::<Book, FooterError>(FooterError::BadTemplate) ==> parse_footer_spec(
                spec_footer_text(ctx.config),
            ) is None,
            r == Err::<Book, FooterError>(FooterError::RepoNotFound) ==> parse_footer_spec(
                spec_footer_text(ctx.config),
            ) is Some,
            r == Err::<Book, FooterError>(FooterError::PathOutsideRepo)
                ==> tree_has_fallible_chapter(book.items@),
            !config_skips(ctx.config) ==> (r matches Ok(b) ==> parse_footer_spec(
                spec_footer_text(ctx.config),
            ) is Some && book_processed(book, b, ctx.root@, ctx.config)),
    {
        let rc = match resolve(&ctx.config) {
            None => {
                return Ok(book);
            },
            Some(rc) => rc,
        };
        let parsed = match parse_footer_text(rc.footer_text.as_str()) {
            None => {
                return Err(FooterError::BadTemplate);
            },
            Some(p) => p,
        };
        let t = FooterTemplate { pre: parsed.0, label: parsed.1, post: parsed.2 };
        let git_root = match find_git(ctx.root.as_str()) {
            None => {
                return Err(FooterError::RepoNotFound);
            },
            Some(g) => g,
        };
        let src_root = path_join(ctx.root.as_str(), ctx.src_dir.as_str());
        match process_items(
            &book.items,
            git_root.as_str(),
            src_root.as_str(),
            rc.repository_url.as_str(),
            rc.branch.as_str(),
            &t,
        ) {
            Ok(new_items) => {
                let b = Book { items: new_items };
                proof {
                    if git_root@ == ctx.root@ {
                        assert(ctx.root@.subrange(0, ctx.root@.len() as int) =~= ctx.root@);
                    }
                    assert(is_path_prefix(git_root@, ctx.root@) && b.items@.len()
                        == book.items@.len());
                }
                Ok(b)
            },
            Err(e) => Err(e),
        }
    }
}

} // verus!
