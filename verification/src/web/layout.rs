use vstd::prelude::*;

use crate::web::theme::{theme_name, Theme};

verus! {

/// Source of truth for the GitHub repo URL displayed in the footer.
pub const REPO_URL: &'static str = "https://github.com/PRRPCHT/zeptodo";

/// Render-time context shared by every page through the base layout.
#[derive(Debug, Clone)]
pub struct LayoutContext {
    pub theme: &'static str,
    pub username: Option<String>,
    pub csrf_token: String,
    pub version: &'static str,
    pub repo_url: &'static str,
}

/// Build the layout context of a request from its theme, the session's
/// username and CSRF token, and the application version.
pub fn build(theme: Theme, username: Option<String>, csrf_token: String, version: &'static str) -> (l:
    LayoutContext)
    ensures
        l.theme@ == theme_name(theme),
        l.username == username,
        l.csrf_token == csrf_token,
        l.version == version,
        l.repo_url@ == REPO_URL@,
{
    LayoutContext { theme: theme.as_str(), username, csrf_token, version, repo_url: REPO_URL }
}

} // verus!
