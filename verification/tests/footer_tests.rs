use mdbook_open_on_gh::book::Chapter;
use mdbook_open_on_gh::footer::{apply_footer, build_edit_url, open_on, FooterError};
use mdbook_open_on_gh::locate::find_git;
use mdbook_open_on_gh::paths::{parent_of, path_join, strip_repo_prefix};
use mdbook_open_on_gh::template::FooterTemplate;

fn default_template() -> FooterTemplate {
    FooterTemplate {
        pre: "Found a bug? ".to_string(),
        label: "Edit this page on GitHub.".to_string(),
        post: "".to_string(),
    }
}

#[test]
fn relative_path_and_url() {
    let rel = strip_repo_prefix("/repo/src/chapter1.md", "/repo");
    assert_eq!(Some("src/chapter1.md".to_string()), rel);
    let url = build_edit_url(
        "https://github.com/acme/docs",
        "main",
        "src/chapter1.md",
    );
    assert_eq!(
        "https://github.com/acme/docs/edit/main/src/chapter1.md",
        url
    );
}

#[test]
fn path_outside_repo_is_rejected() {
    assert_eq!(None, strip_repo_prefix("/elsewhere/src/a.md", "/repo"));
    assert_eq!(None, strip_repo_prefix("/repo", "/repo"));
    let r = apply_footer(
        "/repo",
        "https://github.com/acme/docs",
        "main",
        &default_template(),
        "# Hi",
        "/elsewhere/src/a.md",
    );
    assert_eq!(Err(FooterError::PathOutsideRepo), r);
}

#[test]
fn end_to_end_footer() {
    let r = apply_footer(
        "/repo",
        "https://github.com/acme/docs",
        "main",
        &default_template(),
        "# Hello",
        "/repo/src/intro.md",
    );
    assert_eq!(
        Ok("# Hello\n<footer id=\"open-on-gh\">Found a bug? <a href=\"https://github.com/acme/docs/edit/main/src/intro.md\">Edit this page on GitHub.</a></footer>".to_string()),
        r
    );
}

#[test]
fn already_processed_page_is_unchanged() {
    let once = apply_footer(
        "/repo",
        "https://github.com/acme/docs",
        "main",
        &default_template(),
        "# Hello",
        "/repo/src/intro.md",
    )
    .unwrap();
    let chapter = Chapter {
        name: "Intro".to_string(),
        content: once.clone(),
        path: Some("intro.md".to_string()),
        sub_items: Vec::new(),
    };
    let twice = open_on(
        "/repo",
        "/repo/src",
        "https://github.com/acme/docs",
        "main",
        &default_template(),
        &chapter,
    );
    assert_eq!(Ok(once), twice);
}

#[test]
fn missing_file_leaves_content_unchanged() {
    let chapter = Chapter {
        name: "Missing".to_string(),
        content: "# Untouched".to_string(),
        path: Some("src/missing.md".to_string()),
        sub_items: Vec::new(),
    };
    let r = open_on(
        "/repo",
        "/definitely/not/a/real/dir",
        "https://github.com/acme/docs",
        "main",
        &default_template(),
        &chapter,
    );
    assert_eq!(Ok("# Untouched".to_string()), r);
}

#[test]
fn pathless_page_is_blanked() {
    let chapter = Chapter {
        name: "Draft".to_string(),
        content: "draft text".to_string(),
        path: None,
        sub_items: Vec::new(),
    };
    let r = open_on(
        "/repo",
        "/repo/src",
        "https://github.com/acme/docs",
        "main",
        &default_template(),
        &chapter,
    );
    assert_eq!(Ok("".to_string()), r);
}

#[test]
fn resolved_file_outside_repo_aborts() {
    // `/.` resolves to the filesystem root, which never lies under the
    // (nonexistent) repository root given here.
    let chapter = Chapter {
        name: "Odd".to_string(),
        content: "# Odd".to_string(),
        path: Some(".".to_string()),
        sub_items: Vec::new(),
    };
    let r = open_on(
        "/no_such_repo_root_zzz",
        "/",
        "https://github.com/acme/docs",
        "main",
        &default_template(),
        &chapter,
    );
    assert_eq!(Err(FooterError::PathOutsideRepo), r);
}

#[test]
fn find_git_without_marker_returns_none() {
    assert_eq!(None, find_git("/no_such_dir_zzz/a/b"));
}

#[test]
fn parent_walks_upward() {
    assert_eq!(Some("/a".to_string()), parent_of("/a/b"));
    assert_eq!(Some("/".to_string()), parent_of("/a"));
    assert_eq!(None, parent_of("/"));
    assert_eq!(None, parent_of("plain"));
}

#[test]
fn join_uses_forward_slash() {
    assert_eq!("/repo/src".to_string(), path_join("/repo", "src"));
}

#[test]
fn error_messages_name_the_cause() {
    assert_eq!(
        "can't parse footer text. Missing `[link text]`?",
        FooterError::BadTemplate.message()
    );
    assert_eq!(
        "could not find a .git directory above the book root",
        FooterError::RepoNotFound.message()
    );
    assert_eq!(
        "page source path lies outside the repository root",
        FooterError::PathOutsideRepo.message()
    );
}
