use vstd::prelude::*;

use crate::footer::{content_ok, footer_marker, open_on, FooterError};
use crate::template::FooterTemplate;
use crate::text::contains_sub;

verus! {

/// One item of a book: a chapter with content and nested sub-items, a
/// section separator, or a part title.
#[derive(Debug, PartialEq, Eq)]
pub enum BookItem {
    Chapter(Chapter),
    Separator,
    PartTitle(String),
}

/// A unit of documentation content: its title, its rendered text, the path
/// of its source file relative to the book's source directory (`None` for
/// draft chapters with no file behind them), and its nested items.
#[derive(Debug, PartialEq, Eq)]
pub struct Chapter {
    pub name: String,
    pub content: String,
    pub path: Option<String>,
    pub sub_items: Vec<BookItem>,
}

/// A book: the tree of its items.
#[derive(Debug, PartialEq, Eq)]
pub struct Book {
    pub items: Vec<BookItem>,
}

/// How a processed item relates to the item it came from: separators and
/// part titles pass through unchanged, a chapter keeps its name, path and
/// shape, its content is rewritten as `content_ok` allows, and its
/// sub-items are processed the same way.
pub open spec fn item_processed(
    a: BookItem,
    b: BookItem,
    git_root: Seq<char>,
    base_url: Seq<char>,
    branch: Seq<char>,
    pre: Seq<char>,
    label: Seq<char>,
    post: Seq<char>,
) -> bool
    decreases a,
{
    match (a, b) {
        (BookItem::Separator, BookItem::Separator) => true,
        (BookItem::PartTitle(s1), BookItem::PartTitle(s2)) => s1 == s2,
        (BookItem::Chapter(c1), BookItem::Chapter(c2)) => {
            &&& c2.name == c1.name
            &&& c2.path == c1.path
            &&& content_ok(
                c1.content@,
                c2.content@,
                c1.path,
                git_root,
                base_url,
                branch,
                pre,
                label,
                post,
            )
            &&& c2.sub_items@.len() == c1.sub_items@.len()
            &&& (forall|i: int|
                0 <= i < c1.sub_items@.len() ==> item_processed(
                    #[trigger] c1.sub_items@[i],
                    c2.sub_items@[i],
                    git_root,
                    base_url,
                    branch,
                    pre,
                    label,
                    post,
                ))
        },
        _ => false,
    }
}

/// A chapter on which processing can fail at all: one that does not carry
/// the footer marker yet and has a source path, so that the filesystem is
/// consulted for it. Processing a tree without such a chapter must succeed.
pub open spec fn item_has_fallible_chapter(item: BookItem) -> bool
    decreases item,
{
    match item {
        BookItem::Chapter(c) => (!contains_sub(c.content@, footer_marker()) && c.path is Some)
            || tree_has_fallible_chapter(c.sub_items@),
        _ => false,
    }
}

pub open spec fn tree_has_fallible_chapter(items: Seq<BookItem>) -> bool
    decreases items,
{
    exists|i: int| 0 <= i < items.len() && item_has_fallible_chapter(#[trigger] items[i])
}

/// Processes every chapter of `items`, depth first, rebuilding the tree
/// with the new contents; the first fatal error aborts the walk.
pub fn process_items(
    items: &Vec<BookItem>,
    git_root: &str,
    src_root: &str,
    base_url: &str,
    branch: &str,
    t: &FooterTemplate,
) -> (r: Result<Vec<BookItem>, FooterError>)
    requires
        t.wf(),
    ensures
        r matches Ok(out) ==> out@.len() == items@.len() && (forall|i: int|
            0 <= i < items@.len() ==> item_processed(
                #[trigger] items@[i],
                out@[i],
                git_root@,
                base_url@,
                branch@,
                t.pre@,
                t.label@,
                t.post@,
            )),
        r matches Err(e) ==> e == FooterError::PathOutsideRepo,
        r is Err ==> tree_has_fallible_chapter(items@),
    decreases items@,
{
    let mut out: Vec<BookItem> = Vec::new();
    let mut idx: usize = 0;
    while idx < items.len()
        invariant
            t.wf(),
            0 <= idx <= items@.len(),
            out@.len() == idx,
            forall|i: int|
                0 <= i < idx ==> item_processed(
                    #[trigger] items@[i],
                    out@[i],
                    git_root@,
                    base_url@,
                    branch@,
                    t.pre@,
                    t.label@,
                    t.post@,
                ),
        decreases items@.len() - idx,
    {
        match &items[idx] {
            BookItem::Separator => {
                out.push(BookItem::Separator);
            },
            BookItem::PartTitle(s) => {
                out.push(BookItem::PartTitle(s.clone()));
            },
            BookItem::Chapter(c) => {
                let new_content = match open_on(git_root, src_root, base_url, branch, t, c) {
                    Ok(nc) => nc,
                    Err(e) => {
                        proof {
                            assert(item_has_fallible_chapter(items@[idx as int]));
                            assert(tree_has_fallible_chapter(items@));
                        }
                        return Err(e);
                    },
                };
                proof {
                    assert(decreases_to!(items@ => items@[idx as int]));
                    assert(decreases_to!(items@[idx as int] => c.sub_items));
                    assert(decreases_to!(c.sub_items => c.sub_items@));
                }
                let new_subs = match process_items(
                    &c.sub_items,
                    git_root,
                    src_root,
                    base_url,
                    branch,
                    t,
                ) {
                    Ok(ns) => ns,
                    Err(e) => {
                        proof {
                            assert(item_has_fallible_chapter(items@[idx as int]));
                            assert(tree_has_fallible_chapter(items@));
                        }
                        return Err(e);
                    },
                };
                let new_path = match &c.path {
                    None => None,
                    Some(p) => Some(p.clone()),
                };
                out.push(
                    BookItem::Chapter(
                        Chapter {
                            name: c.name.clone(),
                            content: new_content,
                            path: new_path,
                            sub_items: new_subs,
                        },
                    ),
                );
            },
        }
        idx += 1;
    }
    Ok(out)
}

} // verus!
