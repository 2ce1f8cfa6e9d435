use mokareads_core::resources::article::{Article, Metadata as ArticleMetadata};
use mokareads_core::resources::cheatsheet::{Cheatsheet, Metadata as CheatsheetMetadata};
use mokareads_core::resources::guide::Guide;
use mokareads_core::resources::{Cacher, ResourceType, SearchMetadata, Searcher};

fn sheet(title: &str, level: u8, lang: &str) -> Cheatsheet {
    let metadata = CheatsheetMetadata::new(title, "Author", level, lang, "devicon");
    Cheatsheet::new(metadata, "content".to_string())
}

fn article(title: &str, tags: &str) -> Article {
    let metadata = ArticleMetadata::new(title, "desc", "Author", "devicon", tags);
    Article::new(metadata, "content".to_string())
}

fn scenario_cache() -> Cacher {
    // Cache = {cheatsheets: [{title: "Intro", lang: "rust", level: 1}],
    //          articles: [{title: "Intro", tags: "rust, systems"}], guides: []}
    let cheatsheets = vec![sheet("Intro", 1, "rust")];
    let articles = vec![article("Intro", "rust, systems")];
    Cacher::new(articles, cheatsheets, Vec::new())
}

fn intro_cheatsheet_meta() -> SearchMetadata {
    SearchMetadata::new(
        "Intro".to_string(),
        ResourceType::Cheatsheet,
        "/cheatsheets/Intro".to_string(),
        "rust".to_string(),
    )
}

fn intro_article_meta() -> SearchMetadata {
    SearchMetadata::new(
        "Intro".to_string(),
        ResourceType::Article,
        "/articles/Intro".to_string(),
        "rust, systems".to_string(),
    )
}

#[test]
fn test_search_exact_title_end_to_end() {
    let searcher = Searcher::new(&scenario_cache());
    let results = searcher.search("Intro".to_string());
    assert_eq!(results, vec![intro_cheatsheet_meta(), intro_article_meta()]);
}

#[test]
fn test_search_language_end_to_end() {
    let searcher = Searcher::new(&scenario_cache());
    let results = searcher.search("rust".to_string());
    assert_eq!(results, vec![intro_cheatsheet_meta(), intro_article_meta()]);
}

#[test]
fn test_search_kind_end_to_end() {
    let searcher = Searcher::new(&scenario_cache());
    let results = searcher.search("cheatsheet".to_string());
    assert_eq!(results, vec![intro_cheatsheet_meta()]);
}

#[test]
fn test_search_title_round_trip_across_kinds() {
    // Every record sharing the queried title comes back: cheat sheet first,
    // then the article, then the guide whose display title matches.
    let cheatsheets = vec![sheet("Shared Name", 2, "zig")];
    let articles = vec![article("Shared Name", "news")];
    let guides = vec![Guide::new("Shared_Name")];
    let cacher = Cacher::new(articles, cheatsheets, guides);
    let searcher = Searcher::new(&cacher);
    let results = searcher.search("Shared Name".to_string());
    assert_eq!(results.len(), 3);
    let expected = vec![
        SearchMetadata::new(
            "Shared Name".to_string(),
            ResourceType::Cheatsheet,
            "/cheatsheets/Shared_Name".to_string(),
            "zig".to_string(),
        ),
        SearchMetadata::new(
            "Shared Name".to_string(),
            ResourceType::Article,
            "/articles/Shared_Name".to_string(),
            "news".to_string(),
        ),
        SearchMetadata::new(
            "Shared Name".to_string(),
            ResourceType::Guide,
            "/guides/Shared_Name".to_string(),
            "".to_string(),
        ),
    ];
    assert_eq!(results, expected);
}

#[test]
fn test_search_title_is_case_sensitive() {
    // The title strategy is exact; the lowercased form then matches no
    // language and no kind, so the query yields nothing.
    let searcher = Searcher::new(&scenario_cache());
    let results = searcher.search("intro".to_string());
    assert!(results.is_empty());
}

#[test]
fn test_search_language_is_case_insensitive() {
    // The query is lowercased before the language parse, so an uppercase
    // spelling still reaches the language bucket.
    let searcher = Searcher::new(&scenario_cache());
    let results = searcher.search("RUST".to_string());
    assert_eq!(results, vec![intro_cheatsheet_meta(), intro_article_meta()]);
}

#[test]
fn test_search_language_bucket_may_be_empty() {
    // A recognized language that matches nothing returns its (empty) bucket.
    let searcher = Searcher::new(&scenario_cache());
    let results = searcher.search("kotlin".to_string());
    assert!(results.is_empty());
}

#[test]
fn test_search_other_skips_language_bucket() {
    // "other" parses to the Other language, which is skipped; it names no
    // kind, so the result is empty even though the Other bucket exists.
    let cheatsheets = vec![sheet("Odd", 1, "cobol")];
    let cacher = Cacher::new(Vec::new(), cheatsheets, Vec::new());
    let searcher = Searcher::new(&cacher);
    let results = searcher.search("other".to_string());
    assert!(results.is_empty());
}

#[test]
fn test_search_kind_guide_and_article() {
    let cheatsheets = vec![sheet("S", 1, "go")];
    let articles = vec![article("A", "go")];
    let guides = vec![Guide::new("how_to")];
    let cacher = Cacher::new(articles, cheatsheets, guides);
    let searcher = Searcher::new(&cacher);
    let article_results = searcher.search("article".to_string());
    assert_eq!(article_results.len(), 1);
    let guide_results = searcher.search("guide".to_string());
    assert_eq!(
        guide_results,
        vec![SearchMetadata::new(
            "how to".to_string(),
            ResourceType::Guide,
            "/guides/how_to".to_string(),
            "".to_string(),
        )]
    );
}

#[test]
fn test_search_unrecognized_is_empty() {
    let searcher = Searcher::new(&scenario_cache());
    let results = searcher.search("qwerty".to_string());
    assert!(results.is_empty());
}

#[test]
fn test_search_empty_cache() {
    let cacher = Cacher::new(Vec::new(), Vec::new(), Vec::new());
    let searcher = Searcher::new(&cacher);
    assert!(searcher.search("rust".to_string()).is_empty());
    assert!(searcher.search("article".to_string()).is_empty());
    assert!(searcher.search("anything".to_string()).is_empty());
}

#[test]
fn test_search_language_bucket_sorted_and_stable() {
    // Cheat sheets of one language come back sorted by level; the articles
    // whose tags contain the language's name follow.
    let cheatsheets = vec![
        sheet("Advanced", 3, "rust"),
        sheet("Basics", 1, "rust"),
        sheet("Middle", 2, "rust"),
        sheet("Basics Too", 1, "rust"),
    ];
    let cacher = Cacher::new(Vec::new(), cheatsheets, Vec::new());
    let searcher = Searcher::new(&cacher);
    let results = searcher.search("rust".to_string());
    let meta = |title: &str, slug: &str| {
        SearchMetadata::new(
            title.to_string(),
            ResourceType::Cheatsheet,
            format!("/cheatsheets/{}", slug),
            "rust".to_string(),
        )
    };
    // Level 1 sheets first, in input order, then level 2, then level 3.
    let expected = vec![
        meta("Basics", "Basics"),
        meta("Basics Too", "Basics_Too"),
        meta("Middle", "Middle"),
        meta("Advanced", "Advanced"),
    ];
    assert_eq!(results, expected);
}

#[test]
fn test_cacher_getters() {
    let cacher = scenario_cache();
    assert_eq!(cacher.articles().len(), 1);
    assert_eq!(cacher.cheatsheets().len(), 1);
    assert_eq!(cacher.guides().len(), 0);
    assert_eq!(cacher.cheatsheets()[0].title(), "Intro");
}

#[test]
fn test_cacher_default_is_empty() {
    let cacher = Cacher::default();
    assert!(cacher.articles().is_empty());
    assert!(cacher.cheatsheets().is_empty());
    assert!(cacher.guides().is_empty());
}

#[test]
fn test_resource_type_from_str() {
    assert_eq!(ResourceType::from_str("article"), Ok(ResourceType::Article));
    assert_eq!(
        ResourceType::from_str("cheatsheet"),
        Ok(ResourceType::Cheatsheet)
    );
    assert_eq!(ResourceType::from_str("guide"), Ok(ResourceType::Guide));
    assert_eq!(ResourceType::from_str("other"), Err(()));
    assert_eq!(ResourceType::from_str("Article"), Err(()));
}
