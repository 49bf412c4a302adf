//! Settings of the Tree-sitter based analysis.

use vstd::prelude::*;
use vstd::string::StringExecFns;
use crate::text::string_views;

verus! {

/// Settings of the Tree-sitter based analysis.
#[derive(Debug, Clone)]
pub struct TreeSitterConfig {
    /// The languages to load parsers for.
    pub languages: Vec<String>,
    /// Whether parsed files are cached.
    pub cache_enabled: bool,
    /// Analysis depth: `shallow`, `medium` or `deep`.
    pub analysis_depth: String,
}

/// The languages loaded by default.
pub open spec fn default_languages() -> Seq<Seq<char>> {
    seq!["rust"@, "java"@, "python"@, "go"@]
}

impl TreeSitterConfig {
    /// The default settings: all four supported languages, caching on, medium
    /// depth.
    pub fn default_config() -> (res: Self)
        ensures
            string_views(res.languages@) == default_languages(),
            res.cache_enabled,
            res.analysis_depth@ == "medium"@,
    {
        let mut languages: Vec<String> = Vec::new();
        languages.push(String::from_str("rust"));
        languages.push(String::from_str("java"));
        languages.push(String::from_str("python"));
        languages.push(String::from_str("go"));
        let res = TreeSitterConfig {
            languages,
            cache_enabled: true,
            analysis_depth: String::from_str("medium"),
        };
        assert(string_views(res.languages@) =~= default_languages());
        res
    }
}

impl Default for TreeSitterConfig {
    fn default() -> (res: Self)
        ensures
            string_views(res.languages@) == default_languages(),
            res.cache_enabled,
            res.analysis_depth@ == "medium"@,
    {
        Self::default_config()
    }
}

} // verus!
