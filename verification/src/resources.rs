//! Content records, their classification, the cached snapshot of all
//! records, and the search resolver that answers free-text queries against
//! three derived indices: exact title, topic language, and content kind.

use vstd::prelude::*;

use self::article::{arts_view, Article, ArticleView};
use self::cheatsheet::{
    all_langs, canonical_seq, cheats_view, get_lang_map, grouped, lang_of, Cheatsheet,
    CheatsheetView, Language,
};
use self::guide::{guides_view, Guide, GuideView};
use crate::strutil::{contains_seq, lower_of, lowercase, str_eq};
use crate::timeutil::utc_now_string;

/// Articles.
pub mod article;
/// Cheat sheets.
pub mod cheatsheet;
/// How-to guides.
pub mod guide;

verus! {

broadcast use vstd::seq::Seq::group_seq_extra;

/// Parses markdown documents into typed records. Implementations live with
/// the embedding application; parsing is outside this library's scope.
pub trait Parser {
    /// Parses the markdown file and keeps the markdown content.
    fn parse_raw(markdown: &str) -> Self where Self: Sized;

    /// Parses the markdown file and renders the markdown content to HTML.
    fn parse(markdown: &str) -> Self where Self: Sized;

    /// Converts a `raw` version to a `parsed` (rendered) version.
    fn raw_to_parsed(&self) -> Self where Self: Sized;
}

/// The three kinds of content record.
#[derive(Debug, Copy, Clone, Eq, PartialEq, Structural, Ord, PartialOrd, Hash)]
pub enum ResourceType {
    Article,
    Cheatsheet,
    Guide,
}

/// The content kind denoted by a lowercase kind string, if any.
pub open spec fn kind_of(s: Seq<char>) -> Option<ResourceType> {
    if s == "article"@ {
        Some(ResourceType::Article)
    } else if s == "cheatsheet"@ {
        Some(ResourceType::Cheatsheet)
    } else if s == "guide"@ {
        Some(ResourceType::Guide)
    } else {
        None
    }
}

impl ResourceType {
    /// Parses a content kind from its lowercase name; every other string is
    /// rejected.
    #[allow(clippy::should_implement_trait)]
    pub fn from_str(s: &str) -> (r: Result<ResourceType, ()>)
        ensures
            r == match kind_of(s@) {
                Some(k) => Result::<ResourceType, ()>::Ok(k),
                None => Result::<ResourceType, ()>::Err(()),
            },
    {
        if crate::strutil::str_eq(s, "article") {
            Ok(ResourceType::Article)
        } else if crate::strutil::str_eq(s, "cheatsheet") {
            Ok(ResourceType::Cheatsheet)
        } else if crate::strutil::str_eq(s, "guide") {
            Ok(ResourceType::Guide)
        } else {
            Err(())
        }
    }
}

/// One search result: the lightweight projection of a content record.
#[derive(Debug, Eq, PartialEq)]
pub struct SearchMetadata {
    title: String,
    ty: ResourceType,
    link: String,
    lang: String,
}

/// The mathematical content of one search result.
pub ghost struct SearchMetadataView {
    pub title: Seq<char>,
    pub ty: ResourceType,
    pub link: Seq<char>,
    pub lang: Seq<char>,
}

impl View for SearchMetadata {
    type V = SearchMetadataView;

    closed spec fn view(&self) -> SearchMetadataView {
        SearchMetadataView { title: self.title@, ty: self.ty, link: self.link@, lang: self.lang@ }
    }
}

impl Clone for SearchMetadata {
    fn clone(&self) -> (r: Self)
        ensures
            r == *self,
    {
        SearchMetadata {
            title: self.title.clone(),
            ty: self.ty,
            link: self.link.clone(),
            lang: self.lang.clone(),
        }
    }
}

impl SearchMetadata {
    /// Bundles one search result.
    pub fn new(title: String, ty: ResourceType, link: String, lang: String) -> (r: Self)
        ensures
            r@ == (SearchMetadataView { title: title@, ty, link: link@, lang: lang@ }),
    {
        SearchMetadata { title, ty, link, lang }
    }
}

/// The views of a sequence of search results.
pub open spec fn metas_view(s: Seq<SearchMetadata>) -> Seq<SearchMetadataView> {
    s.map_values(|m: SearchMetadata| m@)
}

/// The search projection of a cheat sheet: its title, the cheat-sheet kind,
/// its short link, and its raw language string.
pub open spec fn cheat_meta(c: CheatsheetView) -> SearchMetadataView {
    SearchMetadataView {
        title: c.metadata.title,
        ty: ResourceType::Cheatsheet,
        link: "/cheatsheets/"@ + c.slug,
        lang: c.metadata.lang,
    }
}

/// The search projection of an article: its title, the article kind, its
/// short link, and its free-text tag string.
pub open spec fn art_meta(a: ArticleView) -> SearchMetadataView {
    SearchMetadataView {
        title: a.metadata.title,
        ty: ResourceType::Article,
        link: "/articles/"@ + a.slug,
        lang: a.metadata.tags,
    }
}

/// The search projection of a guide: its display title, the guide kind, its
/// short link, and an empty language tag.
pub open spec fn guide_meta(g: GuideView) -> SearchMetadataView {
    SearchMetadataView {
        title: g.unslug,
        ty: ResourceType::Guide,
        link: "/guides/"@ + g.repo_name,
        lang: ""@,
    }
}

/// The search projections of a sequence of cheat sheets.
pub open spec fn cheat_metas(s: Seq<CheatsheetView>) -> Seq<SearchMetadataView> {
    s.map_values(|x: CheatsheetView| cheat_meta(x))
}

/// The search projections of a sequence of articles.
pub open spec fn art_metas(s: Seq<ArticleView>) -> Seq<SearchMetadataView> {
    s.map_values(|a: ArticleView| art_meta(a))
}

/// The search projections of a sequence of guides.
pub open spec fn guide_metas(s: Seq<GuideView>) -> Seq<SearchMetadataView> {
    s.map_values(|g: GuideView| guide_meta(g))
}

/// The mathematical content of a cached snapshot.
pub ghost struct CacherView {
    pub updated_at: Seq<char>,
    pub articles: Seq<ArticleView>,
    pub cheatsheets: Seq<CheatsheetView>,
    pub guides: Seq<GuideView>,
}

/// An immutable snapshot of every content record, stamped with the time it
/// was assembled.
#[derive(Debug)]
pub struct Cacher {
    updated_at: String,
    articles: Vec<Article>,
    cheatsheets: Vec<Cheatsheet>,
    guides: Vec<Guide>,
}

impl View for Cacher {
    type V = CacherView;

    closed spec fn view(&self) -> CacherView {
        CacherView {
            updated_at: self.updated_at@,
            articles: arts_view(self.articles@),
            cheatsheets: cheats_view(self.cheatsheets@),
            guides: guides_view(self.guides@),
        }
    }
}

/// Copies a sequence of search results element by element.
fn clone_metas(src: &Vec<SearchMetadata>) -> (r: Vec<SearchMetadata>)
    ensures
        r@ == src@,
{
    let n = src.len();
    let mut r: Vec<SearchMetadata> = Vec::new();
    let mut i: usize = 0;
    while i < n
        invariant
            0 <= i <= n,
            n == src@.len(),
            r@ == src@.subrange(0, i as int),
        decreases n - i,
    {
        r.push(src[i].clone());
        proof {
            assert(r@ =~= src@.subrange(0, i + 1));
        }
        i = i + 1;
    }
    proof {
        assert(src@.subrange(0, n as int) =~= src@);
    }
    r
}

/// Copies a sequence of articles element by element.
fn clone_articles(src: &Vec<Article>) -> (r: Vec<Article>)
    ensures
        r@ == src@,
{
    let n = src.len();
    let mut r: Vec<Article> = Vec::new();
    let mut i: usize = 0;
    while i < n
        invariant
            0 <= i <= n,
            n == src@.len(),
            r@ == src@.subrange(0, i as int),
        decreases n - i,
    {
        r.push(src[i].clone());
        proof {
            assert(r@ =~= src@.subrange(0, i + 1));
        }
        i = i + 1;
    }
    proof {
        assert(src@.subrange(0, n as int) =~= src@);
    }
    r
}

/// Copies a sequence of cheat sheets element by element.
fn clone_cheats(src: &Vec<Cheatsheet>) -> (r: Vec<Cheatsheet>)
    ensures
        r@ == src@,
{
    let n = src.len();
    let mut r: Vec<Cheatsheet> = Vec::new();
    let mut i: usize = 0;
    while i < n
        invariant
            0 <= i <= n,
            n == src@.len(),
            r@ == src@.subrange(0, i as int),
        decreases n - i,
    {
        r.push(src[i].clone());
        proof {
            assert(r@ =~= src@.subrange(0, i + 1));
        }
        i = i + 1;
    }
    proof {
        assert(src@.subrange(0, n as int) =~= src@);
    }
    r
}

/// Copies a sequence of guides element by element.
fn clone_guides(src: &Vec<Guide>) -> (r: Vec<Guide>)
    ensures
        r@ == src@,
{
    let n = src.len();
    let mut r: Vec<Guide> = Vec::new();
    let mut i: usize = 0;
    while i < n
        invariant
            0 <= i <= n,
            n == src@.len(),
            r@ == src@.subrange(0, i as int),
        decreases n - i,
    {
        r.push(src[i].clone());
        proof {
            assert(r@ =~= src@.subrange(0, i + 1));
        }
        i = i + 1;
    }
    proof {
        assert(src@.subrange(0, n as int) =~= src@);
    }
    r
}

impl Cacher {
    /// Assembles a snapshot of all records, stamped with the current time;
    /// nothing is promised about the timestamp's content.
    pub fn new(articles: Vec<Article>, cheatsheets: Vec<Cheatsheet>, guides: Vec<Guide>) -> (r:
        Self)
        ensures
            r@.articles == arts_view(articles@),
            r@.cheatsheets == cheats_view(cheatsheets@),
            r@.guides == guides_view(guides@),
    {
        let updated_at = utc_now_string();
        Cacher { updated_at, articles, cheatsheets, guides }
    }

    /// Rebuilds a snapshot from its stored parts, timestamp included — the
    /// form a cached snapshot is decoded into.
    pub fn from_parts(
        updated_at: String,
        articles: Vec<Article>,
        cheatsheets: Vec<Cheatsheet>,
        guides: Vec<Guide>,
    ) -> (r: Self)
        ensures
            r@ == (CacherView {
                updated_at: updated_at@,
                articles: arts_view(articles@),
                cheatsheets: cheats_view(cheatsheets@),
                guides: guides_view(guides@),
            }),
    {
        Cacher { updated_at, articles, cheatsheets, guides }
    }

    /// The timestamp stamped when this snapshot was assembled.
    pub fn updated_at(&self) -> (r: &String)
        ensures
            r@ == self@.updated_at,
    {
        &self.updated_at
    }

    /// The articles of this snapshot.
    pub fn articles(&self) -> (r: Vec<Article>)
        ensures
            arts_view(r@) == self@.articles,
    {
        clone_articles(&self.articles)
    }

    /// The guides of this snapshot.
    pub fn guides(&self) -> (r: Vec<Guide>)
        ensures
            guides_view(r@) == self@.guides,
    {
        clone_guides(&self.guides)
    }

    /// The cheat sheets of this snapshot.
    pub fn cheatsheets(&self) -> (r: Vec<Cheatsheet>)
        ensures
            cheats_view(r@) == self@.cheatsheets,
    {
        clone_cheats(&self.cheatsheets)
    }
}

/// The empty snapshot, the fallback when a cached blob cannot be decoded.
pub open spec fn default_cacher() -> CacherView {
    CacherView {
        updated_at: Seq::<char>::empty(),
        articles: Seq::<ArticleView>::empty(),
        cheatsheets: Seq::<CheatsheetView>::empty(),
        guides: Seq::<GuideView>::empty(),
    }
}

impl Default for Cacher {
    fn default() -> (r: Self)
        ensures
            r@ == default_cacher(),
    {
        let r = Cacher {
            updated_at: String::new(),
            articles: Vec::new(),
            cheatsheets: Vec::new(),
            guides: Vec::new(),
        };
        proof {
            assert(arts_view(r.articles@) =~= Seq::<ArticleView>::empty());
            assert(cheats_view(r.cheatsheets@) =~= Seq::<CheatsheetView>::empty());
            assert(guides_view(r.guides@) =~= Seq::<GuideView>::empty());
        }
        r
    }
}

/// True when some cheat sheet among the first `n` carries title `t`.
pub open spec fn cheat_title_upto(s: Seq<CheatsheetView>, n: int, t: Seq<char>) -> bool {
    exists|j: int| 0 <= j < n && (#[trigger] s[j]).metadata.title == t
}

/// True when some article among the first `n` carries title `t`.
pub open spec fn art_title_upto(s: Seq<ArticleView>, n: int, t: Seq<char>) -> bool {
    exists|j: int| 0 <= j < n && (#[trigger] s[j]).metadata.title == t
}

/// True when some guide among the first `n` carries display title `t`.
pub open spec fn guide_title_upto(s: Seq<GuideView>, n: int, t: Seq<char>) -> bool {
    exists|j: int| 0 <= j < n && (#[trigger] s[j]).unslug == t
}

/// True when `t` is the title of some record of the snapshot — the exact key
/// set of the title index.
pub open spec fn is_title(c: CacherView, t: Seq<char>) -> bool {
    ||| cheat_title_upto(c.cheatsheets, c.cheatsheets.len() as int, t)
    ||| art_title_upto(c.articles, c.articles.len() as int, t)
    ||| guide_title_upto(c.guides, c.guides.len() as int, t)
}

/// The cheat sheets with title `t`, in input order.
pub open spec fn title_cheats(s: Seq<CheatsheetView>, t: Seq<char>) -> Seq<CheatsheetView> {
    s.filter(|x: CheatsheetView| x.metadata.title == t)
}

/// The articles with title `t`, in input order.
pub open spec fn title_arts(s: Seq<ArticleView>, t: Seq<char>) -> Seq<ArticleView> {
    s.filter(|a: ArticleView| a.metadata.title == t)
}

/// The guides with display title `t`, in input order.
pub open spec fn title_guides(s: Seq<GuideView>, t: Seq<char>) -> Seq<GuideView> {
    s.filter(|g: GuideView| g.unslug == t)
}

/// The articles whose tag string contains the canonical name of `l`, in
/// input order.
pub open spec fn lang_arts(s: Seq<ArticleView>, l: Language) -> Seq<ArticleView> {
    s.filter(|a: ArticleView| contains_seq(a.metadata.tags, canonical_seq(l)))
}

/// The title index entry for `t`: matching cheat sheets, then matching
/// articles, then matching guides, each by exact title equality.
pub open spec fn title_bucket(c: CacherView, t: Seq<char>) -> Seq<SearchMetadataView> {
    cheat_metas(title_cheats(c.cheatsheets, t)) + art_metas(title_arts(c.articles, t))
        + guide_metas(title_guides(c.guides, t))
}

/// The language index entry for `l`: the sheets of that language sorted by
/// level, then the articles whose tags contain the language's name.
pub open spec fn lang_bucket(c: CacherView, l: Language) -> Seq<SearchMetadataView> {
    cheat_metas(grouped(c.cheatsheets, l)) + art_metas(lang_arts(c.articles, l))
}

/// The kind index entry for `k`: every record of that kind, in input order.
pub open spec fn kind_bucket(c: CacherView, k: ResourceType) -> Seq<SearchMetadataView> {
    match k {
        ResourceType::Article => art_metas(c.articles),
        ResourceType::Cheatsheet => cheat_metas(c.cheatsheets),
        ResourceType::Guide => guide_metas(c.guides),
    }
}

/// What a search over snapshot `c` returns for query `q`: the title index
/// entry on an exact title hit; otherwise, when the lowercased query parses
/// to a named language, that language's entry; otherwise, when it names a
/// kind, that kind's entry; otherwise nothing. A lowercased query that
/// parses to `Other` skips the language index entirely, so the literal query
/// `"other"` falls through to the kind strategy and yields nothing.
pub open spec fn spec_search(c: CacherView, q: Seq<char>) -> Seq<SearchMetadataView> {
    if is_title(c, q) {
        title_bucket(c, q)
    } else if lang_of(lower_of(q)) != Language::Other {
        lang_bucket(c, lang_of(lower_of(q)))
    } else if kind_of(lower_of(q)) is Some {
        kind_bucket(c, kind_of(lower_of(q))->Some_0)
    } else {
        Seq::<SearchMetadataView>::empty()
    }
}

/// Law: the title index is keyed by exactly the distinct titles observed
/// across all records — a query hits the title strategy precisely when some
/// record carries that exact title, and its entry is then nonempty.
pub proof fn lemma_title_keys_exact(c: CacherView, t: Seq<char>)
    ensures
        is_title(c, t) <==> title_bucket(c, t).len() > 0,
{
    broadcast use vstd::seq::Seq::lemma_filter_pred;

    if is_title(c, t) {
        if cheat_title_upto(c.cheatsheets, c.cheatsheets.len() as int, t) {
            let j = choose|j: int|
                0 <= j < c.cheatsheets.len() && (#[trigger] c.cheatsheets[j]).metadata.title == t;
            assert(title_cheats(c.cheatsheets, t).contains(c.cheatsheets[j]));
        } else if art_title_upto(c.articles, c.articles.len() as int, t) {
            let j = choose|j: int|
                0 <= j < c.articles.len() && (#[trigger] c.articles[j]).metadata.title == t;
            assert(title_arts(c.articles, t).contains(c.articles[j]));
        } else {
            let j = choose|j: int|
                0 <= j < c.guides.len() && (#[trigger] c.guides[j]).unslug == t;
            assert(title_guides(c.guides, t).contains(c.guides[j]));
        }
    }
    if title_bucket(c, t).len() > 0 {
        if title_cheats(c.cheatsheets, t).len() > 0 {
            let x = title_cheats(c.cheatsheets, t)[0];
            assert(title_cheats(c.cheatsheets, t).contains(x));
            assert(c.cheatsheets.contains(x));
            let j = choose|j: int| 0 <= j < c.cheatsheets.len() && c.cheatsheets[j] == x;
            assert((#[trigger] c.cheatsheets[j]).metadata.title == t);
        } else if title_arts(c.articles, t).len() > 0 {
            let x = title_arts(c.articles, t)[0];
            assert(title_arts(c.articles, t).contains(x));
            assert(c.articles.contains(x));
            let j = choose|j: int| 0 <= j < c.articles.len() && c.articles[j] == x;
            assert((#[trigger] c.articles[j]).metadata.title == t);
        } else {
            let x = title_guides(c.guides, t)[0];
            assert(title_guides(c.guides, t).contains(x));
            assert(c.guides.contains(x));
            let j = choose|j: int| 0 <= j < c.guides.len() && c.guides[j] == x;
            assert((#[trigger] c.guides[j]).unslug == t);
        }
    }
}

/// Law: querying an exact existing title returns that title's entry — a
/// nonempty list holding the projection of every record, of any kind, that
/// carries the title.
pub proof fn lemma_search_exact_title(c: CacherView, t: Seq<char>)
    requires
        is_title(c, t),
    ensures
        spec_search(c, t) == title_bucket(c, t),
        spec_search(c, t).len() > 0,
        forall|i: int|
            0 <= i < c.cheatsheets.len() && (#[trigger] c.cheatsheets[i]).metadata.title == t
                ==> spec_search(c, t).contains(cheat_meta(c.cheatsheets[i])),
        forall|i: int|
            0 <= i < c.articles.len() && (#[trigger] c.articles[i]).metadata.title == t
                ==> spec_search(c, t).contains(art_meta(c.articles[i])),
        forall|i: int|
            0 <= i < c.guides.len() && (#[trigger] c.guides[i]).unslug == t ==> spec_search(
                c,
                t,
            ).contains(guide_meta(c.guides[i])),
{
    broadcast use vstd::seq::Seq::lemma_filter_contains;

    lemma_title_keys_exact(c, t);
    let whole = title_bucket(c, t);
    let cs = cheat_metas(title_cheats(c.cheatsheets, t));
    let ar = art_metas(title_arts(c.articles, t));
    let gd = guide_metas(title_guides(c.guides, t));
    assert forall|i: int|
        0 <= i < c.cheatsheets.len() && (#[trigger] c.cheatsheets[i]).metadata.title
            == t implies whole.contains(cheat_meta(c.cheatsheets[i])) by {
        assert(title_cheats(c.cheatsheets, t).contains(c.cheatsheets[i]));
        let j = choose|j: int|
            0 <= j < title_cheats(c.cheatsheets, t).len() && title_cheats(c.cheatsheets, t)[j]
                == c.cheatsheets[i];
        assert(cs[j] == cheat_meta(c.cheatsheets[i]));
        assert(whole[j] == cs[j]);
    }
    assert forall|i: int|
        0 <= i < c.articles.len() && (#[trigger] c.articles[i]).metadata.title
            == t implies whole.contains(art_meta(c.articles[i])) by {
        assert(title_arts(c.articles, t).contains(c.articles[i]));
        let j = choose|j: int|
            0 <= j < title_arts(c.articles, t).len() && title_arts(c.articles, t)[j]
                == c.articles[i];
        assert(ar[j] == art_meta(c.articles[i]));
        assert(whole[cs.len() + j] == ar[j]);
    }
    assert forall|i: int|
        0 <= i < c.guides.len() && (#[trigger] c.guides[i]).unslug == t implies whole.contains(
        guide_meta(c.guides[i])) by {
        assert(title_guides(c.guides, t).contains(c.guides[i]));
        let j = choose|j: int|
            0 <= j < title_guides(c.guides, t).len() && title_guides(c.guides, t)[j]
                == c.guides[i];
        assert(gd[j] == guide_meta(c.guides[i]));
        assert(whole[cs.len() + ar.len() + j] == gd[j]);
    }
}

/// Law: a query whose lowercased form names a language other than `"other"`
/// and matches no title returns exactly that language's index entry, even
/// when it is empty.
pub proof fn lemma_search_language(c: CacherView, q: Seq<char>)
    requires
        !is_title(c, q),
        lang_of(lower_of(q)) != Language::Other,
    ensures
        spec_search(c, q) == lang_bucket(c, lang_of(lower_of(q))),
{
}

/// Law: a query whose lowercased form names a content kind, matches no
/// title, and parses to no named language returns exactly that kind's index
/// entry.
pub proof fn lemma_search_kind(c: CacherView, q: Seq<char>)
    requires
        !is_title(c, q),
        lang_of(lower_of(q)) == Language::Other,
        kind_of(lower_of(q)) is Some,
    ensures
        spec_search(c, q) == kind_bucket(c, kind_of(lower_of(q))->Some_0),
{
}

/// Law: a query that matches no title, no named language, and no kind
/// returns the empty list — search has no error path.
pub proof fn lemma_search_unmatched(c: CacherView, q: Seq<char>)
    requires
        !is_title(c, q),
        lang_of(lower_of(q)) == Language::Other,
        kind_of(lower_of(q)) is None,
    ensures
        spec_search(c, q) == Seq::<SearchMetadataView>::empty(),
{
}

/// Law: a query that lowercases to the literal `"other"` and matches no
/// title yields the empty list: it parses to the `Other` language, which
/// skips the language index, and then names no kind — so the `Other`
/// bucket, though built, is unreachable by that query.
pub proof fn lemma_search_other_skips(c: CacherView, q: Seq<char>)
    requires
        !is_title(c, q),
        lower_of(q) == "other"@,
    ensures
        spec_search(c, q) == Seq::<SearchMetadataView>::empty(),
{
    reveal_strlit("other");
    reveal_strlit("kotlin");
    reveal_strlit("rust");
    reveal_strlit("c");
    reveal_strlit("c++");
    reveal_strlit("zig");
    reveal_strlit("python");
    reveal_strlit("swift");
    reveal_strlit("go");
    reveal_strlit("article");
    reveal_strlit("cheatsheet");
    reveal_strlit("guide");
    assert("other"@.len() == 5);
    assert("other"@[0] == 'o');
    assert("swift"@[0] == 's');
    assert("guide"@[0] == 'g');
    assert(lang_of("other"@) == Language::Other);
    assert(kind_of("other"@) is None);
}

/// How the title filter over cheat sheets extends over appending one sheet.
proof fn lemma_title_cheats_push(s: Seq<CheatsheetView>, x: CheatsheetView, t: Seq<char>)
    ensures
        title_cheats(s.push(x), t) == if x.metadata.title == t {
            title_cheats(s, t).push(x)
        } else {
            title_cheats(s, t)
        },
{
}

/// How the title filter over articles extends over appending one article.
proof fn lemma_title_arts_push(s: Seq<ArticleView>, x: ArticleView, t: Seq<char>)
    ensures
        title_arts(s.push(x), t) == if x.metadata.title == t {
            title_arts(s, t).push(x)
        } else {
            title_arts(s, t)
        },
{
}

/// How the title filter over guides extends over appending one guide.
proof fn lemma_title_guides_push(s: Seq<GuideView>, x: GuideView, t: Seq<char>)
    ensures
        title_guides(s.push(x), t) == if x.unslug == t {
            title_guides(s, t).push(x)
        } else {
            title_guides(s, t)
        },
{
}

/// How the tag filter over articles extends over appending one article.
proof fn lemma_lang_arts_push(s: Seq<ArticleView>, x: ArticleView, l: Language)
    ensures
        lang_arts(s.push(x), l) == if contains_seq(x.metadata.tags, canonical_seq(l)) {
            lang_arts(s, l).push(x)
        } else {
            lang_arts(s, l)
        },
{
}

/// Appends the search projections of the cheat sheets with title `t`.
fn append_title_cheats(src: &Vec<Cheatsheet>, t: &str, dst: &mut Vec<SearchMetadata>)
    ensures
        metas_view(final(dst)@) == metas_view(old(dst)@) + cheat_metas(
            title_cheats(cheats_view(src@), t@),
        ),
{
    let ghost all = cheats_view(src@);
    let ghost start = metas_view(dst@);
    let n = src.len();
    let mut i: usize = 0;
    proof {
        assert(start + cheat_metas(title_cheats(all.subrange(0, 0), t@)) =~= metas_view(dst@));
    }
    while i < n
        invariant
            0 <= i <= n,
            n == src@.len(),
            all == cheats_view(src@),
            start == metas_view(old(dst)@),
            metas_view(dst@) == start + cheat_metas(title_cheats(all.subrange(0, i as int), t@)),
        decreases n - i,
    {
        let x = &src[i];
        let ghost prev = dst@;
        proof {
            assert(all[i as int] == src@[i as int]@);
            assert(all.subrange(0, i + 1) =~= all.subrange(0, i as int).push(all[i as int]));
            lemma_title_cheats_push(all.subrange(0, i as int), all[i as int], t@);
        }
        let ttl = x.title();
        if str_eq(ttl.as_str(), t) {
            dst.push(x.as_search_meta());
            proof {
                assert(metas_view(dst@) =~= metas_view(prev).push(cheat_meta(all[i as int])));
                assert(cheat_metas(title_cheats(all.subrange(0, i as int), t@).push(all[i as int]))
                    =~= cheat_metas(title_cheats(all.subrange(0, i as int), t@)).push(
                    cheat_meta(all[i as int]),
                ));
                assert(metas_view(dst@) =~= start + cheat_metas(
                    title_cheats(all.subrange(0, i + 1), t@),
                ));
            }
        } else {
            proof {
                assert(metas_view(dst@) =~= start + cheat_metas(
                    title_cheats(all.subrange(0, i + 1), t@),
                ));
            }
        }
        i = i + 1;
    }
    proof {
        assert(all.subrange(0, n as int) =~= all);
    }
}

/// Appends the search projections of the articles with title `t`.
fn append_title_arts(src: &Vec<Article>, t: &str, dst: &mut Vec<SearchMetadata>)
    ensures
        metas_view(final(dst)@) == metas_view(old(dst)@) + art_metas(
            title_arts(arts_view(src@), t@),
        ),
{
    let ghost all = arts_view(src@);
    let ghost start = metas_view(dst@);
    let n = src.len();
    let mut i: usize = 0;
    proof {
        assert(start + art_metas(title_arts(all.subrange(0, 0), t@)) =~= metas_view(dst@));
    }
    while i < n
        invariant
            0 <= i <= n,
            n == src@.len(),
            all == arts_view(src@),
            start == metas_view(old(dst)@),
            metas_view(dst@) == start + art_metas(title_arts(all.subrange(0, i as int), t@)),
        decreases n - i,
    {
        let x = &src[i];
        let ghost prev = dst@;
        proof {
            assert(all[i as int] == src@[i as int]@);
            assert(all.subrange(0, i + 1) =~= all.subrange(0, i as int).push(all[i as int]));
            lemma_title_arts_push(all.subrange(0, i as int), all[i as int], t@);
        }
        let ttl = x.title();
        if str_eq(ttl.as_str(), t) {
            dst.push(x.as_search_meta());
            proof {
                assert(metas_view(dst@) =~= metas_view(prev).push(art_meta(all[i as int])));
                assert(art_metas(title_arts(all.subrange(0, i as int), t@).push(all[i as int]))
                    =~= art_metas(title_arts(all.subrange(0, i as int), t@)).push(
                    art_meta(all[i as int]),
                ));
                assert(metas_view(dst@) =~= start + art_metas(
                    title_arts(all.subrange(0, i + 1), t@),
                ));
            }
        } else {
            proof {
                assert(metas_view(dst@) =~= start + art_metas(
                    title_arts(all.subrange(0, i + 1), t@),
                ));
            }
        }
        i = i + 1;
    }
    proof {
        assert(all.subrange(0, n as int) =~= all);
    }
}

/// Appends the search projections of the guides with display title `t`.
fn append_title_guides(src: &Vec<Guide>, t: &str, dst: &mut Vec<SearchMetadata>)
    ensures
        metas_view(final(dst)@) == metas_view(old(dst)@) + guide_metas(
            title_guides(guides_view(src@), t@),
        ),
{
    let ghost all = guides_view(src@);
    let ghost start = metas_view(dst@);
    let n = src.len();
    let mut i: usize = 0;
    proof {
        assert(start + guide_metas(title_guides(all.subrange(0, 0), t@)) =~= metas_view(dst@));
    }
    while i < n
        invariant
            0 <= i <= n,
            n == src@.len(),
            all == guides_view(src@),
            start == metas_view(old(dst)@),
            metas_view(dst@) == start + guide_metas(title_guides(all.subrange(0, i as int), t@)),
        decreases n - i,
    {
        let x = &src[i];
        let ghost prev = dst@;
        proof {
            assert(all[i as int] == src@[i as int]@);
            assert(all.subrange(0, i + 1) =~= all.subrange(0, i as int).push(all[i as int]));
            lemma_title_guides_push(all.subrange(0, i as int), all[i as int], t@);
        }
        if str_eq(x.unslug.as_str(), t) {
            dst.push(x.as_search_meta());
            proof {
                assert(metas_view(dst@) =~= metas_view(prev).push(guide_meta(all[i as int])));
                assert(guide_metas(title_guides(all.subrange(0, i as int), t@).push(all[i as int]))
                    =~= guide_metas(title_guides(all.subrange(0, i as int), t@)).push(
                    guide_meta(all[i as int]),
                ));
                assert(metas_view(dst@) =~= start + guide_metas(
                    title_guides(all.subrange(0, i + 1), t@),
                ));
            }
        } else {
            proof {
                assert(metas_view(dst@) =~= start + guide_metas(
                    title_guides(all.subrange(0, i + 1), t@),
                ));
            }
        }
        i = i + 1;
    }
    proof {
        assert(all.subrange(0, n as int) =~= all);
    }
}

/// Appends the search projections of the articles whose tag string contains
/// the canonical name of `lang`.
fn append_lang_arts(src: &Vec<Article>, lang: Language, dst: &mut Vec<SearchMetadata>)
    ensures
        metas_view(final(dst)@) == metas_view(old(dst)@) + art_metas(
            lang_arts(arts_view(src@), lang),
        ),
{
    let ghost all = arts_view(src@);
    let ghost start = metas_view(dst@);
    let n = src.len();
    let mut i: usize = 0;
    proof {
        assert(start + art_metas(lang_arts(all.subrange(0, 0), lang)) =~= metas_view(dst@));
    }
    while i < n
        invariant
            0 <= i <= n,
            n == src@.len(),
            all == arts_view(src@),
            start == metas_view(old(dst)@),
            metas_view(dst@) == start + art_metas(lang_arts(all.subrange(0, i as int), lang)),
        decreases n - i,
    {
        let x = &src[i];
        let ghost prev = dst@;
        proof {
            assert(all[i as int] == src@[i as int]@);
            assert(all.subrange(0, i + 1) =~= all.subrange(0, i as int).push(all[i as int]));
            lemma_lang_arts_push(all.subrange(0, i as int), all[i as int], lang);
        }
        if x.lang_in_tag(lang) {
            dst.push(x.as_search_meta());
            proof {
                assert(metas_view(dst@) =~= metas_view(prev).push(art_meta(all[i as int])));
                assert(art_metas(lang_arts(all.subrange(0, i as int), lang).push(all[i as int]))
                    =~= art_metas(lang_arts(all.subrange(0, i as int), lang)).push(
                    art_meta(all[i as int]),
                ));
                assert(metas_view(dst@) =~= start + art_metas(
                    lang_arts(all.subrange(0, i + 1), lang),
                ));
            }
        } else {
            proof {
                assert(metas_view(dst@) =~= start + art_metas(
                    lang_arts(all.subrange(0, i + 1), lang),
                ));
            }
        }
        i = i + 1;
    }
    proof {
        assert(all.subrange(0, n as int) =~= all);
    }
}

/// Appends the search projections of every cheat sheet, in input order.
fn append_cheat_metas(src: &Vec<Cheatsheet>, dst: &mut Vec<SearchMetadata>)
    ensures
        metas_view(final(dst)@) == metas_view(old(dst)@) + cheat_metas(cheats_view(src@)),
{
    let ghost all = cheats_view(src@);
    let ghost start = metas_view(dst@);
    let n = src.len();
    let mut i: usize = 0;
    proof {
        assert(start + cheat_metas(all.subrange(0, 0)) =~= metas_view(dst@));
    }
    while i < n
        invariant
            0 <= i <= n,
            n == src@.len(),
            all == cheats_view(src@),
            start == metas_view(old(dst)@),
            metas_view(dst@) == start + cheat_metas(all.subrange(0, i as int)),
        decreases n - i,
    {
        let x = &src[i];
        let ghost prev = dst@;
        dst.push(x.as_search_meta());
        proof {
            assert(all[i as int] == src@[i as int]@);
            assert(all.subrange(0, i + 1) =~= all.subrange(0, i as int).push(all[i as int]));
            assert(metas_view(dst@) =~= metas_view(prev).push(cheat_meta(all[i as int])));
            assert(cheat_metas(all.subrange(0, i as int).push(all[i as int])) =~= cheat_metas(
                all.subrange(0, i as int),
            ).push(cheat_meta(all[i as int])));
            assert(metas_view(dst@) =~= start + cheat_metas(all.subrange(0, i + 1)));
        }
        i = i + 1;
    }
    proof {
        assert(all.subrange(0, n as int) =~= all);
    }
}

/// Appends the search projections of every article, in input order.
fn append_art_metas(src: &Vec<Article>, dst: &mut Vec<SearchMetadata>)
    ensures
        metas_view(final(dst)@) == metas_view(old(dst)@) + art_metas(arts_view(src@)),
{
    let ghost all = arts_view(src@);
    let ghost start = metas_view(dst@);
    let n = src.len();
    let mut i: usize = 0;
    proof {
        assert(start + art_metas(all.subrange(0, 0)) =~= metas_view(dst@));
    }
    while i < n
        invariant
            0 <= i <= n,
            n == src@.len(),
            all == arts_view(src@),
            start == metas_view(old(dst)@),
            metas_view(dst@) == start + art_metas(all.subrange(0, i as int)),
        decreases n - i,
    {
        let x = &src[i];
        let ghost prev = dst@;
        dst.push(x.as_search_meta());
        proof {
            assert(all[i as int] == src@[i as int]@);
            assert(all.subrange(0, i + 1) =~= all.subrange(0, i as int).push(all[i as int]));
            assert(metas_view(dst@) =~= metas_view(prev).push(art_meta(all[i as int])));
            assert(art_metas(all.subrange(0, i as int).push(all[i as int])) =~= art_metas(
                all.subrange(0, i as int),
            ).push(art_meta(all[i as int])));
            assert(metas_view(dst@) =~= start + art_metas(all.subrange(0, i + 1)));
        }
        i = i + 1;
    }
    proof {
        assert(all.subrange(0, n as int) =~= all);
    }
}

/// True when every title of the snapshot has an entry among `entries`.
pub open spec fn titles_complete(c: CacherView, entries: Seq<(String, Vec<SearchMetadata>)>) -> bool {
    forall|t: Seq<char>|
        #[trigger] is_title(c, t) ==> exists|i: int|
            0 <= i < entries.len() && (#[trigger] entries[i]).0@ == t
}

/// The read-only search resolver: three lookup indices — exact title,
/// topic language, and content kind — derived once from one snapshot and
/// queried in that fixed priority order. It is fully determined by its
/// source snapshot and is rebuilt wholesale, never updated in place.
pub struct Searcher {
    langs: Vec<(Language, Vec<SearchMetadata>)>,
    titles: Vec<(String, Vec<SearchMetadata>)>,
    rty: Vec<(ResourceType, Vec<SearchMetadata>)>,
    source: Ghost<CacherView>,
}

impl Searcher {
    /// The snapshot this resolver was built from.
    pub closed spec fn cache(self) -> CacherView {
        self.source@
    }

    #[verifier::type_invariant]
    closed spec fn inv(self) -> bool {
        let c = self.source@;
        &&& self.langs@.len() == all_langs().len()
        &&& forall|i: int|
            0 <= i < self.langs@.len() ==> (#[trigger] self.langs@[i]).0 == all_langs()[i]
        &&& forall|i: int|
            0 <= i < self.langs@.len() ==> metas_view((#[trigger] self.langs@[i]).1@)
                == lang_bucket(c, all_langs()[i])
        &&& forall|i: int|
            0 <= i < self.titles@.len() ==> is_title(c, (#[trigger] self.titles@[i]).0@)
        &&& forall|i: int|
            0 <= i < self.titles@.len() ==> metas_view((#[trigger] self.titles@[i]).1@)
                == title_bucket(c, self.titles@[i].0@)
        &&& titles_complete(c, self.titles@)
        &&& self.rty@.len() == 3
        &&& self.rty@[0].0 == ResourceType::Cheatsheet
        &&& metas_view(self.rty@[0].1@) == kind_bucket(c, ResourceType::Cheatsheet)
        &&& self.rty@[1].0 == ResourceType::Article
        &&& metas_view(self.rty@[1].1@) == kind_bucket(c, ResourceType::Article)
        &&& self.rty@[2].0 == ResourceType::Guide
        &&& metas_view(self.rty@[2].1@) == kind_bucket(c, ResourceType::Guide)
    }

    /// Builds the three indices from one snapshot: a title entry for every
    /// distinct title, a language entry for every language variant, and a
    /// kind entry for each of the three kinds.
    pub fn new(cacher: &Cacher) -> (r: Searcher)
        ensures
            r.cache() == cacher@,
    {
        let ghost c = cacher@;

        let keys = collect_title_keys(cacher);
        let mut titles: Vec<(String, Vec<SearchMetadata>)> = Vec::new();
        let nk = keys.len();
        let mut i: usize = 0;
        while i < nk
            invariant
                0 <= i <= nk,
                nk == keys@.len(),
                c == cacher@,
                titles@.len() == i,
                forall|j: int| 0 <= j < i ==> (#[trigger] titles@[j]).0 == keys@[j],
                forall|j: int|
                    0 <= j < i ==> metas_view((#[trigger] titles@[j]).1@) == title_bucket(
                        c,
                        keys@[j]@,
                    ),
            decreases nk - i,
        {
            let key = keys[i].clone();
            let mut metas: Vec<SearchMetadata> = Vec::new();
            append_title_cheats(&cacher.cheatsheets, key.as_str(), &mut metas);
            append_title_arts(&cacher.articles, key.as_str(), &mut metas);
            append_title_guides(&cacher.guides, key.as_str(), &mut metas);
            proof {
                assert(metas_view(metas@) =~= title_bucket(c, keys@[i as int]@));
            }
            titles.push((key, metas));
            i = i + 1;
        }

        let lang_map = get_lang_map(cacher.cheatsheets.as_slice());
        let mut langs: Vec<(Language, Vec<SearchMetadata>)> = Vec::new();
        let nl = lang_map.len();
        let mut i2: usize = 0;
        while i2 < nl
            invariant
                0 <= i2 <= nl,
                nl == lang_map@.len(),
                nl == all_langs().len(),
                c == cacher@,
                langs@.len() == i2,
                forall|j: int|
                    0 <= j < nl ==> (#[trigger] lang_map@[j]).0 == all_langs()[j] && cheats_view(
                        lang_map@[j].1@,
                    ) == grouped(c.cheatsheets, all_langs()[j]),
                forall|j: int| 0 <= j < i2 ==> (#[trigger] langs@[j]).0 == all_langs()[j],
                forall|j: int|
                    0 <= j < i2 ==> metas_view((#[trigger] langs@[j]).1@) == lang_bucket(
                        c,
                        all_langs()[j],
                    ),
            decreases nl - i2,
        {
            let pair = &lang_map[i2];
            let mut metas: Vec<SearchMetadata> = Vec::new();
            append_cheat_metas(&pair.1, &mut metas);
            append_lang_arts(&cacher.articles, pair.0, &mut metas);
            proof {
                assert(metas_view(metas@) =~= lang_bucket(c, all_langs()[i2 as int]));
            }
            langs.push((pair.0, metas));
            i2 = i2 + 1;
        }

        let mut cheat_kind: Vec<SearchMetadata> = Vec::new();
        append_cheat_metas(&cacher.cheatsheets, &mut cheat_kind);
        let mut art_kind: Vec<SearchMetadata> = Vec::new();
        append_art_metas(&cacher.articles, &mut art_kind);
        let mut guide_kind: Vec<SearchMetadata> = Vec::new();
        append_guide_metas(&cacher.guides, &mut guide_kind);
        proof {
            assert(metas_view(cheat_kind@) =~= kind_bucket(c, ResourceType::Cheatsheet));
            assert(metas_view(art_kind@) =~= kind_bucket(c, ResourceType::Article));
            assert(metas_view(guide_kind@) =~= kind_bucket(c, ResourceType::Guide));
        }
        let ghost ckv = cheat_kind@;
        let ghost akv = art_kind@;
        let ghost gkv = guide_kind@;
        let mut rty: Vec<(ResourceType, Vec<SearchMetadata>)> = Vec::new();
        rty.push((ResourceType::Cheatsheet, cheat_kind));
        rty.push((ResourceType::Article, art_kind));
        rty.push((ResourceType::Guide, guide_kind));

        proof {
            assert(rty@.len() == 3);
            assert(rty@[0].0 == ResourceType::Cheatsheet && rty@[0].1@ == ckv);
            assert(rty@[1].0 == ResourceType::Article && rty@[1].1@ == akv);
            assert(rty@[2].0 == ResourceType::Guide && rty@[2].1@ == gkv);
            assert forall|t: Seq<char>| #[trigger] is_title(c, t) implies exists|j: int|
                0 <= j < titles@.len() && (#[trigger] titles@[j]).0@ == t by {
                assert(has_key(keys@, t));
                let j = choose|j: int| 0 <= j < keys@.len() && (#[trigger] keys@[j])@ == t;
                assert(titles@[j].0@ == t);
            }
            assert(titles_complete(c, titles@));
            assert forall|j: int| 0 <= j < titles@.len() implies is_title(
                c,
                (#[trigger] titles@[j]).0@,
            ) by {
                assert(keys@[j]@ == titles@[j].0@);
                assert(has_key(keys@, keys@[j]@));
            }
            assert(langs@.len() == all_langs().len());
            assert(forall|i: int|
                0 <= i < langs@.len() ==> (#[trigger] langs@[i]).0 == all_langs()[i]);
            assert(forall|i: int|
                0 <= i < langs@.len() ==> metas_view((#[trigger] langs@[i]).1@) == lang_bucket(
                    c,
                    all_langs()[i],
                ));
            assert forall|i: int| 0 <= i < titles@.len() implies metas_view(
                (#[trigger] titles@[i]).1@,
            ) == title_bucket(c, titles@[i].0@) by {
                assert(titles@[i].0 == keys@[i]);
            }
            assert(metas_view(rty@[0].1@) == kind_bucket(c, ResourceType::Cheatsheet));
            assert(metas_view(rty@[1].1@) == kind_bucket(c, ResourceType::Article));
            assert(metas_view(rty@[2].1@) == kind_bucket(c, ResourceType::Guide));
        }
        Searcher { langs, titles, rty, source: Ghost(c) }
    }

    /// Answers one query against the indices, first match wins: the exact
    /// title entry; else, when the lowercased query names a language other
    /// than `"other"`, that language's entry; else, when it names a kind,
    /// that kind's entry; else nothing. Never an error: unmatched queries
    /// yield the empty list.
    pub fn search(&self, input: String) -> (r: Vec<SearchMetadata>)
        ensures
            metas_view(r@) == spec_search(self.cache(), input@),
    {
        proof {
            use_type_invariant(self);
        }
        let ghost c = self.source@;

        let nt = self.titles.len();
        let mut i: usize = 0;
        while i < nt
            invariant
                0 <= i <= nt,
                nt == self.titles@.len(),
                self.inv(),
                c == self.source@,
                forall|j: int| 0 <= j < i ==> (#[trigger] self.titles@[j]).0@ != input@,
            decreases nt - i,
        {
            if str_eq(self.titles[i].0.as_str(), input.as_str()) {
                let r = clone_metas(&self.titles[i].1);
                proof {
                    assert(is_title(c, input@));
                    assert(metas_view(r@) == title_bucket(c, input@));
                }
                return r;
            }
            i = i + 1;
        }
        proof {
            if is_title(c, input@) {
                let j = choose|j: int|
                    0 <= j < self.titles@.len() && (#[trigger] self.titles@[j]).0@ == input@;
                assert(false);
            }
        }

        let low = lowercase(input.as_str());
        let lang = Language::from_str(low.as_str());
        if lang != Language::Other {
            let nl = self.langs.len();
            let mut i2: usize = 0;
            while i2 < nl
                invariant
                    0 <= i2 <= nl,
                    nl == self.langs@.len(),
                    self.inv(),
                    c == self.source@,
                    lang == lang_of(lower_of(input@)),
                    lang != Language::Other,
                    !is_title(c, input@),
                    forall|j: int| 0 <= j < i2 ==> (#[trigger] self.langs@[j]).0 != lang,
                decreases nl - i2,
            {
                if self.langs[i2].0 == lang {
                    let r = clone_metas(&self.langs[i2].1);
                    proof {
                        assert(all_langs()[i2 as int] == lang);
                        assert(metas_view(r@) == lang_bucket(c, lang));
                    }
                    return r;
                }
                i2 = i2 + 1;
            }
            proof {
                match lang {
                    Language::Kotlin => assert(self.langs@[0].0 == Language::Kotlin),
                    Language::Rust => assert(self.langs@[1].0 == Language::Rust),
                    Language::C => assert(self.langs@[2].0 == Language::C),
                    Language::CPP => assert(self.langs@[3].0 == Language::CPP),
                    Language::Zig => assert(self.langs@[4].0 == Language::Zig),
                    Language::Python => assert(self.langs@[5].0 == Language::Python),
                    Language::Swift => assert(self.langs@[6].0 == Language::Swift),
                    Language::Go => assert(self.langs@[7].0 == Language::Go),
                    Language::Other => assert(self.langs@[8].0 == Language::Other),
                }
                assert(false);
            }
            Vec::new()
        } else {
            match ResourceType::from_str(low.as_str()) {
                Ok(kind) => {
                    let nr = self.rty.len();
                    let mut i3: usize = 0;
                    while i3 < nr
                        invariant
                            0 <= i3 <= nr,
                            nr == self.rty@.len(),
                            self.inv(),
                            c == self.source@,
                            kind_of(lower_of(input@)) == Some(kind),
                            lang_of(lower_of(input@)) == Language::Other,
                            !is_title(c, input@),
                            forall|j: int| 0 <= j < i3 ==> (#[trigger] self.rty@[j]).0 != kind,
                        decreases nr - i3,
                    {
                        if self.rty[i3].0 == kind {
                            let r = clone_metas(&self.rty[i3].1);
                            proof {
                                assert(metas_view(r@) == kind_bucket(c, kind));
                            }
                            return r;
                        }
                        i3 = i3 + 1;
                    }
                    proof {
                        match kind {
                            ResourceType::Cheatsheet => assert(self.rty@[0].0
                                == ResourceType::Cheatsheet),
                            ResourceType::Article => assert(self.rty@[1].0
                                == ResourceType::Article),
                            ResourceType::Guide => assert(self.rty@[2].0 == ResourceType::Guide),
                        }
                        assert(false);
                    }
                    Vec::new()
                },
                Err(_) => {
                    let r: Vec<SearchMetadata> = Vec::new();
                    proof {
                        assert(metas_view(r@) =~= Seq::<SearchMetadataView>::empty());
                    }
                    r
                },
            }
        }
    }
}

/// True when some key of the list reads `t`.
pub open spec fn has_key(keys: Seq<String>, t: Seq<char>) -> bool {
    exists|i: int| 0 <= i < keys.len() && (#[trigger] keys[i])@ == t
}

/// True when no two keys of the list read the same.
pub open spec fn distinct_keys(keys: Seq<String>) -> bool {
    forall|i: int, j: int|
        0 <= i < j < keys.len() ==> (#[trigger] keys[i])@ != (#[trigger] keys[j])@
}

/// How key membership extends over appending one key.
proof fn lemma_has_key_push(s: Seq<String>, x: String, t: Seq<char>)
    ensures
        has_key(s.push(x), t) <==> (has_key(s, t) || x@ == t),
{
    let sp = s.push(x);
    if has_key(sp, t) {
        let i = choose|i: int| 0 <= i < sp.len() && (#[trigger] sp[i])@ == t;
        if i < s.len() {
            assert(s[i]@ == t);
        } else {
            assert(sp[i] == x);
        }
    }
    if has_key(s, t) {
        let i = choose|i: int| 0 <= i < s.len() && (#[trigger] s[i])@ == t;
        assert(sp[i]@ == t);
    }
    if x@ == t {
        assert(sp[s.len() as int]@ == t);
    }
}

/// How the cheat-sheet title predicate extends over one more sheet.
proof fn lemma_cheat_upto_succ(s: Seq<CheatsheetView>, n: int, t: Seq<char>)
    requires
        0 <= n < s.len(),
    ensures
        cheat_title_upto(s, n + 1, t) <==> (cheat_title_upto(s, n, t) || s[n].metadata.title == t),
{
    if cheat_title_upto(s, n + 1, t) {
        let j = choose|j: int| 0 <= j < n + 1 && (#[trigger] s[j]).metadata.title == t;
        if j < n {
            assert(cheat_title_upto(s, n, t));
        }
    }
}

/// How the article title predicate extends over one more article.
proof fn lemma_art_upto_succ(s: Seq<ArticleView>, n: int, t: Seq<char>)
    requires
        0 <= n < s.len(),
    ensures
        art_title_upto(s, n + 1, t) <==> (art_title_upto(s, n, t) || s[n].metadata.title == t),
{
    if art_title_upto(s, n + 1, t) {
        let j = choose|j: int| 0 <= j < n + 1 && (#[trigger] s[j]).metadata.title == t;
        if j < n {
            assert(art_title_upto(s, n, t));
        }
    }
}

/// How the guide title predicate extends over one more guide.
proof fn lemma_guide_upto_succ(s: Seq<GuideView>, n: int, t: Seq<char>)
    requires
        0 <= n < s.len(),
    ensures
        guide_title_upto(s, n + 1, t) <==> (guide_title_upto(s, n, t) || s[n].unslug == t),
{
    if guide_title_upto(s, n + 1, t) {
        let j = choose|j: int| 0 <= j < n + 1 && (#[trigger] s[j]).unslug == t;
        if j < n {
            assert(guide_title_upto(s, n, t));
        }
    }
}

/// Whether `t` already occurs among the collected title keys.
fn has_title_key(keys: &Vec<String>, t: &str) -> (r: bool)
    ensures
        r == has_key(keys@, t@),
{
    let n = keys.len();
    let mut i: usize = 0;
    while i < n
        invariant
            0 <= i <= n,
            n == keys@.len(),
            forall|j: int| 0 <= j < i ==> (#[trigger] keys@[j])@ != t@,
        decreases n - i,
    {
        if str_eq(keys[i].as_str(), t) {
            return true;
        }
        i = i + 1;
    }
    false
}

/// Collects the distinct titles of every record: each title exactly once.
fn collect_title_keys(cacher: &Cacher) -> (keys: Vec<String>)
    ensures
        distinct_keys(keys@),
        forall|t: Seq<char>| #[trigger] has_key(keys@, t) <==> is_title(cacher@, t),
{
    let ghost c = cacher@;
    let mut keys: Vec<String> = Vec::new();

    let na = cacher.articles.len();
    let mut i: usize = 0;
    while i < na
        invariant
            0 <= i <= na,
            na == cacher.articles@.len(),
            c == cacher@,
            distinct_keys(keys@),
            forall|t: Seq<char>| #[trigger] has_key(keys@, t) <==> art_title_upto(
                c.articles,
                i as int,
                t,
            ),
        decreases na - i,
    {
        let ttl = cacher.articles[i].title();
        let ghost tv = ttl@;
        let ghost prev = keys@;
        proof {
            assert(c.articles[i as int] == cacher.articles@[i as int]@);
        }
        if !has_title_key(&keys, ttl.as_str()) {
            keys.push(ttl);
            proof {
                assert forall|t: Seq<char>| #[trigger] has_key(keys@, t) <==> art_title_upto(
                    c.articles,
                    i + 1,
                    t,
                ) by {
                    lemma_has_key_push(prev, keys@[prev.len() as int], t);
                    lemma_art_upto_succ(c.articles, i as int, t);
                    assert(keys@[prev.len() as int]@ == tv);
                }
                assert forall|a: int, b: int|
                    0 <= a < b < keys@.len() implies (#[trigger] keys@[a])@ != (
                #[trigger] keys@[b])@ by {
                    if b < prev.len() {
                    } else {
                        assert(keys@[b]@ == tv);
                        assert(!has_key(prev, tv));
                        assert(keys@[a] == prev[a]);
                    }
                }
            }
        } else {
            proof {
                assert forall|t: Seq<char>| #[trigger] has_key(keys@, t) <==> art_title_upto(
                    c.articles,
                    i + 1,
                    t,
                ) by {
                    lemma_art_upto_succ(c.articles, i as int, t);
                    if t == tv {
                        assert(has_key(keys@, t));
                    }
                }
            }
        }
        i = i + 1;
    }

    let nc = cacher.cheatsheets.len();
    let mut i2: usize = 0;
    while i2 < nc
        invariant
            0 <= i2 <= nc,
            nc == cacher.cheatsheets@.len(),
            c == cacher@,
            distinct_keys(keys@),
            forall|t: Seq<char>| #[trigger] has_key(keys@, t) <==> (art_title_upto(
                c.articles,
                c.articles.len() as int,
                t,
            ) || cheat_title_upto(c.cheatsheets, i2 as int, t)),
        decreases nc - i2,
    {
        let ttl = cacher.cheatsheets[i2].title();
        let ghost tv = ttl@;
        let ghost prev = keys@;
        proof {
            assert(c.cheatsheets[i2 as int] == cacher.cheatsheets@[i2 as int]@);
        }
        if !has_title_key(&keys, ttl.as_str()) {
            keys.push(ttl);
            proof {
                assert forall|t: Seq<char>| #[trigger] has_key(keys@, t) <==> (art_title_upto(
                    c.articles,
                    c.articles.len() as int,
                    t,
                ) || cheat_title_upto(c.cheatsheets, i2 + 1, t)) by {
                    lemma_has_key_push(prev, keys@[prev.len() as int], t);
                    lemma_cheat_upto_succ(c.cheatsheets, i2 as int, t);
                    assert(keys@[prev.len() as int]@ == tv);
                }
                assert forall|a: int, b: int|
                    0 <= a < b < keys@.len() implies (#[trigger] keys@[a])@ != (
                #[trigger] keys@[b])@ by {
                    if b < prev.len() {
                    } else {
                        assert(keys@[b]@ == tv);
                        assert(!has_key(prev, tv));
                        assert(keys@[a] == prev[a]);
                    }
                }
            }
        } else {
            proof {
                assert forall|t: Seq<char>| #[trigger] has_key(keys@, t) <==> (art_title_upto(
                    c.articles,
                    c.articles.len() as int,
                    t,
                ) || cheat_title_upto(c.cheatsheets, i2 + 1, t)) by {
                    lemma_cheat_upto_succ(c.cheatsheets, i2 as int, t);
                    if t == tv {
                        assert(has_key(keys@, t));
                    }
                }
            }
        }
        i2 = i2 + 1;
    }

    let ng = cacher.guides.len();
    let mut i3: usize = 0;
    while i3 < ng
        invariant
            0 <= i3 <= ng,
            ng == cacher.guides@.len(),
            c == cacher@,
            distinct_keys(keys@),
            forall|t: Seq<char>| #[trigger] has_key(keys@, t) <==> (art_title_upto(
                c.articles,
                c.articles.len() as int,
                t,
            ) || cheat_title_upto(c.cheatsheets, c.cheatsheets.len() as int, t)
                || guide_title_upto(c.guides, i3 as int, t)),
        decreases ng - i3,
    {
        let ttl = cacher.guides[i3].unslug.clone();
        let ghost tv = ttl@;
        let ghost prev = keys@;
        proof {
            assert(c.guides[i3 as int] == cacher.guides@[i3 as int]@);
        }
        if !has_title_key(&keys, ttl.as_str()) {
            keys.push(ttl);
            proof {
                assert forall|t: Seq<char>| #[trigger] has_key(keys@, t) <==> (art_title_upto(
                    c.articles,
                    c.articles.len() as int,
                    t,
                ) || cheat_title_upto(c.cheatsheets, c.cheatsheets.len() as int, t)
                    || guide_title_upto(c.guides, i3 + 1, t)) by {
                    lemma_has_key_push(prev, keys@[prev.len() as int], t);
                    lemma_guide_upto_succ(c.guides, i3 as int, t);
                    assert(keys@[prev.len() as int]@ == tv);
                }
                assert forall|a: int, b: int|
                    0 <= a < b < keys@.len() implies (#[trigger] keys@[a])@ != (
                #[trigger] keys@[b])@ by {
                    if b < prev.len() {
                    } else {
                        assert(keys@[b]@ == tv);
                        assert(!has_key(prev, tv));
                        assert(keys@[a] == prev[a]);
                    }
                }
            }
        } else {
            proof {
                assert forall|t: Seq<char>| #[trigger] has_key(keys@, t) <==> (art_title_upto(
                    c.articles,
                    c.articles.len() as int,
                    t,
                ) || cheat_title_upto(c.cheatsheets, c.cheatsheets.len() as int, t)
                    || guide_title_upto(c.guides, i3 + 1, t)) by {
                    lemma_guide_upto_succ(c.guides, i3 as int, t);
                    if t == tv {
                        assert(has_key(keys@, t));
                    }
                }
            }
        }
        i3 = i3 + 1;
    }
    keys
}

/// Appends the search projections of every guide, in input order.
fn append_guide_metas(src: &Vec<Guide>, dst: &mut Vec<SearchMetadata>)
    ensures
        metas_view(final(dst)@) == metas_view(old(dst)@) + guide_metas(guides_view(src@)),
{
    let ghost all = guides_view(src@);
    let ghost start = metas_view(dst@);
    let n = src.len();
    let mut i: usize = 0;
    proof {
        assert(start + guide_metas(all.subrange(0, 0)) =~= metas_view(dst@));
    }
    while i < n
        invariant
            0 <= i <= n,
            n == src@.len(),
            all == guides_view(src@),
            start == metas_view(old(dst)@),
            metas_view(dst@) == start + guide_metas(all.subrange(0, i as int)),
        decreases n - i,
    {
        let x = &src[i];
        let ghost prev = dst@;
        dst.push(x.as_search_meta());
        proof {
            assert(all[i as int] == src@[i as int]@);
            assert(all.subrange(0, i + 1) =~= all.subrange(0, i as int).push(all[i as int]));
            assert(metas_view(dst@) =~= metas_view(prev).push(guide_meta(all[i as int])));
            assert(guide_metas(all.subrange(0, i as int).push(all[i as int])) =~= guide_metas(
                all.subrange(0, i as int),
            ).push(guide_meta(all[i as int])));
            assert(metas_view(dst@) =~= start + guide_metas(all.subrange(0, i + 1)));
        }
        i = i + 1;
    }
    proof {
        assert(all.subrange(0, n as int) =~= all);
    }
}

} // verus!
