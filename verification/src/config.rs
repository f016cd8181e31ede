use vstd::prelude::*;

use crate::text::{contains_str, contains_sub};

verus! {

/// A configuration value as this library sees it: either a string, or
/// something of any other type (whose content never matters here).
#[derive(Debug, Clone, PartialEq, Eq)]
pub enum ConfValue {
    Str(String),
    Other,
}

/// The three configuration options read from the host's configuration
/// bag; `None` stands for an option that is not set at all.
#[derive(Debug, Clone, PartialEq, Eq)]
pub struct BuildConfig {
    pub repository_url: Option<ConfValue>,
    pub branch: Option<ConfValue>,
    pub footer_text: Option<ConfValue>,
}

/// The options after defaulting, ready for use.
#[derive(Debug, Clone, PartialEq, Eq)]
pub struct ResolvedConfig {
    pub repository_url: String,
    pub branch: String,
    pub footer_text: String,
}

/// The whole run is skipped — every page left untouched — when the
/// repository URL is missing, is not a string, or does not mention
/// `github.com`, or when one of the optional options is set but is not a
/// string.
pub open spec fn config_skips(c: BuildConfig) -> bool {
    ||| !(c.repository_url matches Some(ConfValue::Str(s)) && contains_sub(s@, "github.com"@))
    ||| c.branch matches Some(ConfValue::Other)
    ||| c.footer_text matches Some(ConfValue::Other)
}

pub open spec fn spec_url(c: BuildConfig) -> Seq<char> {
    match c.repository_url {
        Some(ConfValue::Str(s)) => s@,
        _ => Seq::<char>::empty(),
    }
}

/// The configured branch, defaulting to `main`.
pub open spec fn spec_branch(c: BuildConfig) -> Seq<char> {
    match c.branch {
        None => "main"@,
        Some(ConfValue::Str(b)) => b@,
        Some(ConfValue::Other) => Seq::<char>::empty(),
    }
}

/// The configured footer micro-template, defaulting to a GitHub edit hint.
pub open spec fn spec_footer_text(c: BuildConfig) -> Seq<char> {
    match c.footer_text {
        None => "Found a bug? [Edit this page on GitHub.]"@,
        Some(ConfValue::Str(t)) => t@,
        Some(ConfValue::Other) => Seq::<char>::empty(),
    }
}

/// Reads the three options, applies the defaults, and decides whether the
/// run is skipped: `None` exactly in the skip cases, otherwise the three
/// resolved strings.
pub fn resolve(c: &BuildConfig) -> (r: Option<ResolvedConfig>)
    ensures
        r is None <==> config_skips(*c),
        r matches Some(rc) ==> rc.repository_url@ == spec_url(*c) && rc.branch@ == spec_branch(*c)
            && rc.footer_text@ == spec_footer_text(*c),
{
    let url = match &c.repository_url {
        Some(ConfValue::Str(s)) => s.clone(),
        _ => {
            return None;
        },
    };
    if !contains_str(url.as_str(), "github.com") {
        return None;
    }
    let branch = match &c.branch {
        None => "main".to_owned(),
        Some(ConfValue::Str(b)) => b.clone(),
        Some(ConfValue::Other) => {
            return None;
        },
    };
    let footer_text = match &c.footer_text {
        None => "Found a bug? [Edit this page on GitHub.]".to_owned(),
        Some(ConfValue::Str(t)) => t.clone(),
        Some(ConfValue::Other) => {
            return None;
        },
    };
    Some(ResolvedConfig { repository_url: url, branch, footer_text })
}

} // verus!
