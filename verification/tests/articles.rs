use mokareads_core::resources::article::{Article, Metadata};
use mokareads_core::resources::cheatsheet::Language;

// Define test data for an article
fn create_test_article() -> Article {
    let metadata = Metadata::new(
        "Test Article",
        "Test description",
        "Test Author",
        "devicon",
        "tag1, tag2",
    );
    let content = "Test content".to_string();
    Article::new(metadata, content)
}

#[test]
fn test_lang_in_tag() {
    let article = create_test_article();
    let rust_in_tags = article.lang_in_tag(Language::Rust);

    // Ensure that the 'rust_in_tags' variable is false since Rust is not in the tags
    assert_eq!(rust_in_tags, false);
}

#[test]
fn test_lang_in_tag_present() {
    let metadata = Metadata::new("A", "d", "a", "devicon", "rust, systems");
    let article = Article::new(metadata, String::new());
    assert!(article.lang_in_tag(Language::Rust));
    assert!(!article.lang_in_tag(Language::Kotlin));
}

#[test]
fn test_lang_in_tag_substring_not_equality() {
    // Containment, not equality: "c" occurs inside "races".
    let metadata = Metadata::new("A", "d", "a", "devicon", "races");
    let article = Article::new(metadata, String::new());
    assert!(article.lang_in_tag(Language::C));
}

#[test]
fn test_article_links() {
    let article = create_test_article();
    assert_eq!(article.slug, "Test_Article");
    assert_eq!(article.link_short(), "/articles/Test_Article");
    assert_eq!(
        article.link(),
        "https://moka-reads.mkproj.com/articles/Test_Article"
    );
    assert_eq!(article.title(), "Test Article");
}
