//! Articles: dated documents with free-text tags. An article belongs to a
//! topic language when the language's canonical name occurs inside its tag
//! string — containment, not equality.

use vstd::prelude::*;

use crate::resources::cheatsheet::{canonical_seq, Language};
use crate::resources::{art_meta, ResourceType, SearchMetadata};
use crate::strutil::{contains_seq, contains_substr, replace_char, replace_char_seq};
use crate::timeutil::utc_today_string;

verus! {

/// The metadata block of an article.
#[derive(Debug, Eq, PartialEq)]
pub struct Metadata {
    title: String,
    description: String,
    author: String,
    icon: String,
    date: String,
    tags: String,
}

/// The mathematical content of an article's metadata.
pub ghost struct MetadataView {
    pub title: Seq<char>,
    pub description: Seq<char>,
    pub author: Seq<char>,
    pub icon: Seq<char>,
    pub date: Seq<char>,
    pub tags: Seq<char>,
}

impl View for Metadata {
    type V = MetadataView;

    closed spec fn view(&self) -> MetadataView {
        MetadataView {
            title: self.title@,
            description: self.description@,
            author: self.author@,
            icon: self.icon@,
            date: self.date@,
            tags: self.tags@,
        }
    }
}

impl Clone for Metadata {
    fn clone(&self) -> (r: Self)
        ensures
            r == *self,
    {
        Metadata {
            title: self.title.clone(),
            description: self.description.clone(),
            author: self.author.clone(),
            icon: self.icon.clone(),
            date: self.date.clone(),
            tags: self.tags.clone(),
        }
    }
}

impl Metadata {
    /// The title field.
    pub fn title(&self) -> (r: &String)
        ensures
            r@ == self@.title,
    {
        &self.title
    }

    /// The description field.
    pub fn description(&self) -> (r: &String)
        ensures
            r@ == self@.description,
    {
        &self.description
    }

    /// The author field.
    pub fn author(&self) -> (r: &String)
        ensures
            r@ == self@.author,
    {
        &self.author
    }

    /// The icon field.
    pub fn icon(&self) -> (r: &String)
        ensures
            r@ == self@.icon,
    {
        &self.icon
    }

    /// The date field, as stamped at construction.
    pub fn date(&self) -> (r: &String)
        ensures
            r@ == self@.date,
    {
        &self.date
    }

    /// The free-text tag string.
    pub fn tags(&self) -> (r: &String)
        ensures
            r@ == self@.tags,
    {
        &self.tags
    }

    /// Bundles the metadata fields of an article, date included — the form a
    /// stored record is rebuilt from.
    pub fn from_parts(
        title: String,
        description: String,
        author: String,
        icon: String,
        date: String,
        tags: String,
    ) -> (r: Self)
        ensures
            r@ == (MetadataView {
                title: title@,
                description: description@,
                author: author@,
                icon: icon@,
                date: date@,
                tags: tags@,
            }),
    {
        Metadata { title, description, author, icon, date, tags }
    }

    /// Bundles the metadata fields of an article, stamping the date with the
    /// current UTC day; nothing is promised about the date's content.
    pub fn new(title: &str, description: &str, author: &str, icon: &str, tags: &str) -> (r: Self)
        ensures
            r@.title == title@,
            r@.description == description@,
            r@.author == author@,
            r@.icon == icon@,
            r@.tags == tags@,
    {
        let date = utc_today_string();
        Metadata {
            title: title.to_owned(),
            description: description.to_owned(),
            author: author.to_owned(),
            icon: icon.to_owned(),
            date,
            tags: tags.to_owned(),
        }
    }
}

/// The metadata of a default (empty) article.
pub open spec fn default_article_metadata() -> MetadataView {
    MetadataView {
        title: Seq::<char>::empty(),
        description: Seq::<char>::empty(),
        author: Seq::<char>::empty(),
        icon: Seq::<char>::empty(),
        date: Seq::<char>::empty(),
        tags: Seq::<char>::empty(),
    }
}

impl Default for Metadata {
    fn default() -> (r: Self)
        ensures
            r@ == default_article_metadata(),
    {
        Metadata {
            title: String::new(),
            description: String::new(),
            author: String::new(),
            icon: String::new(),
            date: String::new(),
            tags: String::new(),
        }
    }
}

/// The default (empty) article.
pub open spec fn default_article() -> ArticleView {
    ArticleView {
        metadata: default_article_metadata(),
        slug: Seq::<char>::empty(),
        content: Seq::<char>::empty(),
    }
}

/// Frames an encoded metadata block and a body as one markdown document,
/// the metadata between two delimiter lines. Unlike a cheat sheet's
/// framing, the encoded metadata is expected to end with its own newline.
pub fn frame_markdown(metadata_yaml: &str, content: &str) -> (r: String)
    ensures
        r@ == "---\n"@ + metadata_yaml@ + "---\n"@ + content@,
{
    "---\n".to_owned().concat(metadata_yaml).concat("---\n").concat(content)
}

/// The views of a sequence of articles.
pub open spec fn arts_view(s: Seq<Article>) -> Seq<ArticleView> {
    s.map_values(|a: Article| a@)
}

/// An article: metadata, a URL slug derived from the title, and the body.
#[derive(Debug, Eq, PartialEq)]
pub struct Article {
    metadata: Metadata,
    pub slug: String,
    content: String,
}

/// The mathematical content of an article.
pub ghost struct ArticleView {
    pub metadata: MetadataView,
    pub slug: Seq<char>,
    pub content: Seq<char>,
}

impl View for Article {
    type V = ArticleView;

    closed spec fn view(&self) -> ArticleView {
        ArticleView { metadata: self.metadata@, slug: self.slug@, content: self.content@ }
    }
}

impl Clone for Article {
    fn clone(&self) -> (r: Self)
        ensures
            r == *self,
    {
        Article {
            metadata: self.metadata.clone(),
            slug: self.slug.clone(),
            content: self.content.clone(),
        }
    }
}

impl Default for Article {
    fn default() -> (r: Self)
        ensures
            r@ == default_article(),
    {
        Article { metadata: Metadata::default(), slug: String::new(), content: String::new() }
    }
}

impl Article {
    /// Builds an article; the slug is the title with spaces replaced by
    /// underscores.
    pub fn new(metadata: Metadata, content: String) -> (r: Self)
        ensures
            r@ == (ArticleView {
                metadata: metadata@,
                slug: replace_char_seq(metadata@.title, ' ', '_'),
                content: content@,
            }),
    {
        proof {
            reveal_strlit("_");
        }
        let slug = replace_char(metadata.title.as_str(), ' ', "_");
        Article { metadata, slug, content }
    }

    /// The metadata block of this article.
    pub fn metadata(&self) -> (r: &Metadata)
        ensures
            r@ == self@.metadata,
    {
        &self.metadata
    }

    /// The body of this article.
    pub fn content(&self) -> (r: &String)
        ensures
            r@ == self@.content,
    {
        &self.content
    }

    /// The absolute link to this article on the site.
    pub fn link(&self) -> (r: String)
        ensures
            r@ == "https://moka-reads.mkproj.com/articles/"@ + self@.slug,
    {
        "https://moka-reads.mkproj.com/articles/".to_owned().concat(self.slug.as_str())
    }

    /// The site-relative link to this article.
    pub fn link_short(&self) -> (r: String)
        ensures
            r@ == "/articles/"@ + self@.slug,
    {
        "/articles/".to_owned().concat(self.slug.as_str())
    }

    /// The title of this article.
    pub fn title(&self) -> (r: String)
        ensures
            r@ == self@.metadata.title,
    {
        self.metadata.title.clone()
    }

    /// This article's projection into the search indices.
    pub fn as_search_meta(&self) -> (r: SearchMetadata)
        ensures
            r@ == art_meta(self@),
    {
        SearchMetadata::new(
            self.title(),
            ResourceType::Article,
            self.link_short(),
            self.metadata.tags.clone(),
        )
    }

    /// Whether the canonical name of `lang` occurs inside this article's tag
    /// string.
    pub fn lang_in_tag(&self, lang: Language) -> (r: bool)
        ensures
            r == contains_seq(self@.metadata.tags, canonical_seq(lang)),
    {
        let name = lang.canonical_name();
        contains_substr(self.metadata.tags.as_str(), name.as_str())
    }
}

} // verus!
