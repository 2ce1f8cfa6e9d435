//! Product kinds and where each kind's catalogue file lives. Prices and
//! royalty arithmetic are left to the embedding application.

use vstd::prelude::*;

verus! {

/// The kinds of product the platform offers. Articles, guides and cheat
/// sheets are free material; publications and courses are paid.
#[derive(Debug, Clone, Copy)]
pub enum ProductType {
    Article,
    HowToGuide,
    CheatSheet,
    Publication,
    Udemy,
}

/// The catalogue file for each product kind; courses have none.
pub open spec fn prod_path_spec(p: ProductType) -> Option<Seq<char>> {
    match p {
        ProductType::Article => Some("products"@ + "/articles.json"@),
        ProductType::HowToGuide => Some("products"@ + "/howtoguides.json"@),
        ProductType::CheatSheet => Some("products"@ + "/cheatsheets.json"@),
        ProductType::Publication => Some("products"@ + "/publications.json"@),
        ProductType::Udemy => None,
    }
}

impl ProductType {
    /// The directory that holds the catalogue files.
    pub fn path() -> (r: String)
        ensures
            r@ == "products"@,
    {
        "products".to_owned()
    }

    /// The catalogue file of this product kind, if it has one.
    pub fn prod_path(&self) -> (r: Option<String>)
        ensures
            match prod_path_spec(*self) {
                Some(s) => r is Some && r->0@ == s,
                None => r is None,
            },
    {
        match self {
            ProductType::Article => Some(Self::path().concat("/articles.json")),
            ProductType::HowToGuide => Some(Self::path().concat("/howtoguides.json")),
            ProductType::CheatSheet => Some(Self::path().concat("/cheatsheets.json")),
            ProductType::Publication => Some(Self::path().concat("/publications.json")),
            ProductType::Udemy => None,
        }
    }
}

} // verus!
