//! How-to guides: a repository name, a display title derived from it, and a
//! redirect address. Guides carry no topic-language signal.

use vstd::prelude::*;

use crate::resources::{guide_meta, ResourceType, SearchMetadata};
use crate::strutil::{replace_char, replace_char_seq};

verus! {

/// A how-to guide hosted in its own repository.
#[derive(Debug, Eq, PartialEq)]
pub struct Guide {
    pub repo_name: String,
    pub unslug: String,
    pub addy: String,
}

/// The mathematical content of a guide.
pub ghost struct GuideView {
    pub repo_name: Seq<char>,
    pub unslug: Seq<char>,
    pub addy: Seq<char>,
}

impl View for Guide {
    type V = GuideView;

    open spec fn view(&self) -> GuideView {
        GuideView { repo_name: self.repo_name@, unslug: self.unslug@, addy: self.addy@ }
    }
}

impl Clone for Guide {
    fn clone(&self) -> (r: Self)
        ensures
            r == *self,
    {
        Guide {
            repo_name: self.repo_name.clone(),
            unslug: self.unslug.clone(),
            addy: self.addy.clone(),
        }
    }
}

/// The views of a sequence of guides.
pub open spec fn guides_view(s: Seq<Guide>) -> Seq<GuideView> {
    s.map_values(|g: Guide| g@)
}

/// The redirect address of the guide hosted in `repo_name`.
pub open spec fn guide_address(repo_name: Seq<char>) -> Seq<char> {
    "https://moka-reads.github.io/"@ + repo_name + "/"@
}

impl Guide {
    /// Builds a guide from its repository name; the display title is the
    /// name with underscores replaced by spaces.
    pub fn new(repo_name: &str) -> (r: Self)
        ensures
            r@ == (GuideView {
                repo_name: repo_name@,
                unslug: replace_char_seq(repo_name@, '_', ' '),
                addy: guide_address(repo_name@),
            }),
    {
        proof {
            reveal_strlit(" ");
        }
        let unslug = replace_char(repo_name, '_', " ");
        Guide {
            repo_name: repo_name.to_owned(),
            unslug,
            addy: Guide::redirect_address(repo_name),
        }
    }

    /// The address a guide's page redirects to.
    pub fn redirect_address(repo_name: &str) -> (r: String)
        ensures
            r@ == guide_address(repo_name@),
    {
        "https://moka-reads.github.io/".to_owned().concat(repo_name).concat("/")
    }

    /// The site-relative link to this guide.
    pub fn link_short(&self) -> (r: String)
        ensures
            r@ == "/guides/"@ + self@.repo_name,
    {
        "/guides/".to_owned().concat(self.repo_name.as_str())
    }

    /// This guide's projection into the search indices.
    pub fn as_search_meta(&self) -> (r: SearchMetadata)
        ensures
            r@ == guide_meta(self@),
    {
        SearchMetadata::new(
            self.unslug.clone(),
            ResourceType::Guide,
            self.link_short(),
            "".to_owned(),
        )
    }
}

} // verus!
