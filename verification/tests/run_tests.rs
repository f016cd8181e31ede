use mdbook_open_on_gh::book::{process_items, Book, BookItem, Chapter};
use mdbook_open_on_gh::config::{BuildConfig, ConfValue};
use mdbook_open_on_gh::footer::FooterError;
use mdbook_open_on_gh::template::FooterTemplate;
use mdbook_open_on_gh::{BuildContext, OpenOn};

fn sample_book() -> Book {
    Book {
        items: vec![
            BookItem::Chapter(Chapter {
                name: "One".to_string(),
                content: "# One".to_string(),
                path: Some("one.md".to_string()),
                sub_items: vec![BookItem::Chapter(Chapter {
                    name: "Nested".to_string(),
                    content: "# Nested".to_string(),
                    path: Some("nested.md".to_string()),
                    sub_items: Vec::new(),
                })],
            }),
            BookItem::Separator,
            BookItem::PartTitle("Part".to_string()),
        ],
    }
}

fn ctx_with(config: BuildConfig) -> BuildContext {
    BuildContext {
        root: "/no_such_book_root_zzz".to_string(),
        src_dir: "src".to_string(),
        config,
    }
}

#[test]
fn preprocessor_name() {
    assert_eq!("open-on-gh", OpenOn.name());
}

#[test]
fn missing_url_skips_whole_book() {
    let ctx = ctx_with(BuildConfig {
        repository_url: None,
        branch: None,
        footer_text: None,
    });
    let out = OpenOn.run(&ctx, sample_book());
    assert_eq!(Ok(sample_book()), out);
}

#[test]
fn non_string_url_skips_whole_book() {
    let ctx = ctx_with(BuildConfig {
        repository_url: Some(ConfValue::Other),
        branch: None,
        footer_text: None,
    });
    let out = OpenOn.run(&ctx, sample_book());
    assert_eq!(Ok(sample_book()), out);
}

#[test]
fn non_github_url_skips_whole_book() {
    let ctx = ctx_with(BuildConfig {
        repository_url: Some(ConfValue::Str("https://gitlab.com/acme/docs".to_string())),
        branch: None,
        footer_text: None,
    });
    let out = OpenOn.run(&ctx, sample_book());
    assert_eq!(Ok(sample_book()), out);
}

#[test]
fn non_string_branch_skips_whole_book() {
    let ctx = ctx_with(BuildConfig {
        repository_url: Some(ConfValue::Str("https://github.com/acme/docs".to_string())),
        branch: Some(ConfValue::Other),
        footer_text: None,
    });
    let out = OpenOn.run(&ctx, sample_book());
    assert_eq!(Ok(sample_book()), out);
}

#[test]
fn non_string_footer_text_skips_whole_book() {
    let ctx = ctx_with(BuildConfig {
        repository_url: Some(ConfValue::Str("https://github.com/acme/docs".to_string())),
        branch: None,
        footer_text: Some(ConfValue::Other),
    });
    let out = OpenOn.run(&ctx, sample_book());
    assert_eq!(Ok(sample_book()), out);
}

#[test]
fn bad_template_aborts_run() {
    let ctx = ctx_with(BuildConfig {
        repository_url: Some(ConfValue::Str("https://github.com/acme/docs".to_string())),
        branch: None,
        footer_text: Some(ConfValue::Str("no brackets here".to_string())),
    });
    let out = OpenOn.run(&ctx, sample_book());
    assert_eq!(Err(FooterError::BadTemplate), out);
}

#[test]
fn empty_label_template_aborts_run() {
    let ctx = ctx_with(BuildConfig {
        repository_url: Some(ConfValue::Str("https://github.com/acme/docs".to_string())),
        branch: None,
        footer_text: Some(ConfValue::Str("click []".to_string())),
    });
    let out = OpenOn.run(&ctx, sample_book());
    assert_eq!(Err(FooterError::BadTemplate), out);
}

#[test]
fn infallible_book_always_processes() {
    // Separators, part titles, already-marked chapters and pathless
    // chapters never touch the filesystem, so processing must succeed.
    let marked = "done\n<footer id=\"open-on-gh\">x<a href=\"u\">y</a></footer>";
    let items = vec![
        BookItem::Separator,
        BookItem::PartTitle("Part".to_string()),
        BookItem::Chapter(Chapter {
            name: "Done".to_string(),
            content: marked.to_string(),
            path: Some("done.md".to_string()),
            sub_items: vec![BookItem::Chapter(Chapter {
                name: "Draft".to_string(),
                content: "draft".to_string(),
                path: None,
                sub_items: Vec::new(),
            })],
        }),
    ];
    let t = FooterTemplate {
        pre: "p".to_string(),
        label: "l".to_string(),
        post: "s".to_string(),
    };
    let out = process_items(
        &items,
        "/no_repo_zzz",
        "/no_src_zzz",
        "https://github.com/acme/docs",
        "main",
        &t,
    )
    .unwrap();
    assert_eq!(3, out.len());
    assert_eq!(BookItem::Separator, out[0]);
    assert_eq!(BookItem::PartTitle("Part".to_string()), out[1]);
    match &out[2] {
        BookItem::Chapter(ch) => {
            assert_eq!(marked, ch.content);
            match &ch.sub_items[0] {
                BookItem::Chapter(sub) => assert_eq!("", sub.content),
                other => panic!("unexpected item: {:?}", other),
            }
        }
        other => panic!("unexpected item: {:?}", other),
    }
}
