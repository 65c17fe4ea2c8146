//! What a user can set.

use std::path::PathBuf;
use vstd::prelude::*;

verus! {

/// The settings of the preview.
#[derive(Debug)]
pub struct Config {
    /// The directory that files are served from, if any.
    pub static_root: Option<PathBuf>,
    /// The name of the theme for code.
    pub highlight_theme: String,
    /// The URLs of style sheets.
    pub css_links: Vec<String>,
    /// Styles of the user's own.
    pub custom_styles: Vec<String>,
}

impl Default for Config {
    /// No files, no styles, and the theme of GitHub.
    fn default() -> (config: Self)
        ensures
            config.static_root is None,
            config.highlight_theme@ == "github"@,
            config.css_links@.len() == 0,
            config.custom_styles@.len() == 0,
    {
        Config {
            static_root: None,
            highlight_theme: "github".to_owned(),
            css_links: Vec::new(),
            custom_styles: Vec::new(),
        }
    }
}

/// What is set before the user sets anything.
pub proof fn settings_at_first(config: Config)
    requires
        call_ensures(<Config as Default>::default, (), config),
    ensures
        config.static_root is None,
        config.highlight_theme@ == "github"@,
        config.css_links@.len() == 0,
        config.custom_styles@.len() == 0,
{
}

} // verus!
