//! Handles for the remote content API: which index to request, and on
//! which branch of the site. Performing the request itself is left to the
//! embedding application.

use vstd::prelude::*;

verus! {

/// The API endpoints that can be requested.
#[derive(Debug, Clone, Copy)]
pub enum Api {
    /// The complete resources index.
    Resources,
    /// The cheat-sheet index.
    Cheatsheets,
    /// The articles index.
    Articles,
    /// The guides index.
    Guides,
    /// The awesome-lists index.
    Awesome,
    /// The cheat-sheet index grouped by language.
    LangMap,
}

/// The site branch to request from: stable or beta.
#[derive(Debug, Clone, Copy)]
pub enum Branch {
    /// The `main` branch of the site.
    Stable,
    /// The `beta` branch of the site.
    Beta,
}

/// The base address of each branch's API.
pub open spec fn branch_base(b: Branch) -> Seq<char> {
    match b {
        Branch::Stable => "https://mokareads.org/api/"@,
        Branch::Beta => "https://beta.mokareads.org/api/"@,
    }
}

/// The path suffix of each endpoint.
pub open spec fn api_suffix(a: Api) -> Seq<char> {
    match a {
        Api::Resources => "resources"@,
        Api::Cheatsheets => "cheatsheets"@,
        Api::Articles => "articles"@,
        Api::Guides => "guides"@,
        Api::Awesome => "awesome"@,
        Api::LangMap => "lang_map"@,
    }
}

impl Api {
    /// The full address of this endpoint on the given branch.
    pub fn link(&self, branch: Branch) -> (r: String)
        ensures
            r@ == branch_base(branch) + api_suffix(*self),
    {
        let base = match branch {
            Branch::Stable => "https://mokareads.org/api/".to_owned(),
            Branch::Beta => "https://beta.mokareads.org/api/".to_owned(),
        };
        match self {
            Api::Resources => base.concat("resources"),
            Api::Cheatsheets => base.concat("cheatsheets"),
            Api::Articles => base.concat("articles"),
            Api::Guides => base.concat("guides"),
            Api::Awesome => base.concat("awesome"),
            Api::LangMap => base.concat("lang_map"),
        }
    }
}

} // verus!
