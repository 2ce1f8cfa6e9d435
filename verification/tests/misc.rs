use mokareads_core::api::{Api, Branch};
use mokareads_core::awesome_lists::{AwesomeList, Repository};
use mokareads_core::bench::markdown_sample;
use mokareads_core::cpi::observation::{Observation, StaticInflationCalcValue};
use mokareads_core::cpi::{Data, Dimension, SeriesDetail, StaticInflationCalc, Terms};
use mokareads_core::products::product::ProductType;
use mokareads_core::resources::guide::Guide;

#[test]
fn test_guide_new() {
    let guide = Guide::new("intro_to_zig");
    assert_eq!(guide.repo_name, "intro_to_zig");
    assert_eq!(guide.unslug, "intro to zig");
    assert_eq!(guide.addy, "https://moka-reads.github.io/intro_to_zig/");
    assert_eq!(guide.link_short(), "/guides/intro_to_zig");
}

#[test]
fn test_guide_redirect_address() {
    assert_eq!(
        Guide::redirect_address("abc"),
        "https://moka-reads.github.io/abc/"
    );
}

#[test]
fn test_api_links() {
    assert_eq!(
        Api::Resources.link(Branch::Stable),
        "https://mokareads.org/api/resources"
    );
    assert_eq!(
        Api::LangMap.link(Branch::Beta),
        "https://beta.mokareads.org/api/lang_map"
    );
    assert_eq!(
        Api::Awesome.link(Branch::Stable),
        "https://mokareads.org/api/awesome"
    );
}

fn repo(name: &str) -> Repository {
    Repository::new(
        name.to_string(),
        format!("https://github.com/x/{}", name),
        Some("desc".to_string()),
    )
}

#[test]
fn test_awesome_list_pages_and_counts() {
    let pages = vec![vec![repo("a"), repo("b")], vec![repo("c")]];
    let list = AwesomeList::from_pages(pages);
    assert_eq!(list.count_repos(), 3);
    assert_eq!(list.get_page(1).len(), 2);
    assert_eq!(list.get_page(2).len(), 1);
}

#[test]
fn test_awesome_list_default_is_empty() {
    let list = AwesomeList::default();
    assert_eq!(list.count_repos(), 0);
}

#[test]
fn test_latest_observation() {
    let obs = |d: &str, v: &str| Observation {
        d: d.to_string(),
        STATIC_INFLATIONCALC: StaticInflationCalcValue { v: v.to_string() },
    };
    let data = Data {
        terms: Terms { url: "https://example.com/terms".to_string() },
        seriesDetail: SeriesDetail {
            STATIC_INFLATIONCALC: StaticInflationCalc {
                label: "label".to_string(),
                description: "series".to_string(),
                dimension: Dimension { key: "d".to_string(), name: "Date".to_string() },
            },
        },
        observations: vec![obs("2020-01-01", "136.8"), obs("2020-02-01", "137.4")],
    };
    let latest = data.latest_observation();
    assert_eq!(latest.d, "2020-02-01");
    assert_eq!(latest.STATIC_INFLATIONCALC.v, "137.4");
}

#[test]
fn test_prod_paths() {
    assert_eq!(
        ProductType::Article.prod_path(),
        Some("products/articles.json".to_string())
    );
    assert_eq!(
        ProductType::HowToGuide.prod_path(),
        Some("products/howtoguides.json".to_string())
    );
    assert_eq!(
        ProductType::CheatSheet.prod_path(),
        Some("products/cheatsheets.json".to_string())
    );
    assert_eq!(
        ProductType::Publication.prod_path(),
        Some("products/publications.json".to_string())
    );
    assert_eq!(ProductType::Udemy.prod_path(), None);
}

const TEMPLATE: &str = r#"
---
title: Title
author: Author
date: DD-MM-YYYY
tags: one, two, etc.
icon: devicon or fontawesome5
---

# Markdown Ipsum

## Introduction

Markdown is a lightweight markup language that allows you to format text easily. It's widely used for writing documentation, blog posts, and other forms of content. In this ipsum, we'll explore various Markdown syntax elements to showcase its flexibility and simplicity.

## Text Formatting

Let's start with some basic text formatting options:

**Bold text** can be achieved by enclosing the text within double asterisks or double underscores. For example, `**Bold text**` or `__Bold text__`.

*Italic text* can be created by enclosing the text within single asterisks or single underscores. For example, `*Italic text*` or `_Italic text_`.

***Bold and italic text*** can be achieved by combining both formatting options. For example, `***Bold and italic text***` or `___Bold and italic text___`.

## Lists

Markdown supports both ordered and unordered lists.

### Unordered List

- Item 1
- Item 2
- Item 3

### Ordered List

1. First item
2. Second item
3. Third item

## Links

Hyperlinks are straightforward in Markdown. You can create inline links like this: [Markdown Website](https://example.com/markdown). To reference a link, you can use reference-style links [1].

## Images

Embedding images is as simple as linking them. Here's an example:

![Markdown Logo](https://example.com/markdown-logo.png)

## Blockquotes

Blockquotes can be used to highlight quotes or important information:

> "Be yourself; everyone else is already taken." - Oscar Wilde

## Code

Inline code is represented by backticks. For example, to print "Hello, World!", use `println!("Hello, World!");`.

For code blocks, use triple backticks followed by the language identifier:

```rust
fn main() {
    println!("Hello, World!");
}
{}
"#;

#[test]
fn test_markdown_sample_fills_slot() {
    let sample = markdown_sample("extra words here");
    assert_eq!(sample, TEMPLATE.replace("{}", "extra words here"));
}

#[test]
fn test_markdown_sample_empty_words() {
    let sample = markdown_sample("");
    assert_eq!(sample, TEMPLATE.replace("{}", ""));
}

#[test]
fn test_frame_markdown_cheatsheet_style() {
    let framed =
        mokareads_core::resources::cheatsheet::frame_markdown("title: T\n", "body text");
    assert_eq!(framed, "---\ntitle: T\n\n---\nbody text");
}

#[test]
fn test_frame_markdown_article_style() {
    let framed = mokareads_core::resources::article::frame_markdown("title: T\n", "body text");
    assert_eq!(framed, "---\ntitle: T\n---\nbody text");
}
