//! Cheat sheets: short documents classified by topic language and a
//! three-point difficulty level, together with the grouping of a whole
//! collection of cheat sheets by language, sorted by level.

use vstd::prelude::*;

use crate::resources::{ResourceType, SearchMetadata, SearchMetadataView, cheat_meta};
use crate::strutil::{replace_char, replace_char_seq, str_eq};

verus! {

broadcast use vstd::seq::Seq::group_seq_extra;

/// The topic languages the platform recognizes. Anything else is `Other`.
#[derive(Debug, Copy, Clone, Eq, PartialEq, Structural, Ord, PartialOrd, Hash)]
pub enum Language {
    Kotlin,
    Rust,
    C,
    CPP,
    Zig,
    Python,
    Swift,
    Go,
    Other,
}

/// The topic language denoted by a canonical lowercase name; every
/// unrecognized string maps to `Other`, so parsing is total.
pub open spec fn lang_of(s: Seq<char>) -> Language {
    if s == "kotlin"@ {
        Language::Kotlin
    } else if s == "rust"@ {
        Language::Rust
    } else if s == "c"@ {
        Language::C
    } else if s == "c++"@ {
        Language::CPP
    } else if s == "zig"@ {
        Language::Zig
    } else if s == "python"@ {
        Language::Python
    } else if s == "swift"@ {
        Language::Swift
    } else if s == "go"@ {
        Language::Go
    } else {
        Language::Other
    }
}

/// The canonical lowercase name of a language; the inverse of `lang_of` on
/// the eight named variants, and `"other"` for `Other`.
pub open spec fn canonical_seq(l: Language) -> Seq<char> {
    match l {
        Language::Kotlin => "kotlin"@,
        Language::Rust => "rust"@,
        Language::C => "c"@,
        Language::CPP => "c++"@,
        Language::Zig => "zig"@,
        Language::Python => "python"@,
        Language::Swift => "swift"@,
        Language::Go => "go"@,
        Language::Other => "other"@,
    }
}

/// Every language variant exactly once, in declaration order.
pub open spec fn all_langs() -> Seq<Language> {
    seq![
        Language::Kotlin,
        Language::Rust,
        Language::C,
        Language::CPP,
        Language::Zig,
        Language::Python,
        Language::Swift,
        Language::Go,
        Language::Other,
    ]
}

impl Language {
    /// Parses a topic language from its canonical lowercase name; total:
    /// every unrecognized string yields `Other`.
    #[allow(clippy::should_implement_trait)]
    pub fn from_str(s: &str) -> (r: Language)
        ensures
            r == lang_of(s@),
    {
        if str_eq(s, "kotlin") {
            Language::Kotlin
        } else if str_eq(s, "rust") {
            Language::Rust
        } else if str_eq(s, "c") {
            Language::C
        } else if str_eq(s, "c++") {
            Language::CPP
        } else if str_eq(s, "zig") {
            Language::Zig
        } else if str_eq(s, "python") {
            Language::Python
        } else if str_eq(s, "swift") {
            Language::Swift
        } else if str_eq(s, "go") {
            Language::Go
        } else {
            Language::Other
        }
    }

    /// The canonical lowercase name of this language.
    pub fn canonical_name(&self) -> (r: String)
        ensures
            r@ == canonical_seq(*self),
    {
        match self {
            Language::Kotlin => "kotlin".to_owned(),
            Language::Rust => "rust".to_owned(),
            Language::C => "c".to_owned(),
            Language::CPP => "c++".to_owned(),
            Language::Zig => "zig".to_owned(),
            Language::Python => "python".to_owned(),
            Language::Swift => "swift".to_owned(),
            Language::Go => "go".to_owned(),
            Language::Other => "other".to_owned(),
        }
    }

    /// A CSS icon class suggestion for this language.
    pub fn icon_suggestion(&self) -> (r: String)
        ensures
            r@ == icon_seq(*self),
    {
        match self {
            Language::Kotlin => "devicon-kotlin-plain".to_owned(),
            Language::Rust => "devicon-rust-plain".to_owned(),
            Language::C => "devicon-c-plain".to_owned(),
            Language::CPP => "devicon-cplusplus-plain".to_owned(),
            Language::Zig => "devicon-zig-original".to_owned(),
            Language::Python => "devicon-python-plain".to_owned(),
            Language::Swift => "devicon-swift-plain".to_owned(),
            Language::Go => "devicon-go-original-wordmark".to_owned(),
            Language::Other => "devicon-github-original".to_owned(),
        }
    }

    /// Every language variant exactly once, in declaration order.
    pub fn all_variants() -> (r: Vec<Language>)
        ensures
            r@ == all_langs(),
    {
        let mut v: Vec<Language> = Vec::new();
        v.push(Language::Kotlin);
        v.push(Language::Rust);
        v.push(Language::C);
        v.push(Language::CPP);
        v.push(Language::Zig);
        v.push(Language::Python);
        v.push(Language::Swift);
        v.push(Language::Go);
        v.push(Language::Other);
        proof {
            assert(v@ =~= all_langs());
        }
        v
    }
}

/// The icon class suggested for each language.
pub open spec fn icon_seq(l: Language) -> Seq<char> {
    match l {
        Language::Kotlin => "devicon-kotlin-plain"@,
        Language::Rust => "devicon-rust-plain"@,
        Language::C => "devicon-c-plain"@,
        Language::CPP => "devicon-cplusplus-plain"@,
        Language::Zig => "devicon-zig-original"@,
        Language::Python => "devicon-python-plain"@,
        Language::Swift => "devicon-swift-plain"@,
        Language::Go => "devicon-go-original-wordmark"@,
        Language::Other => "devicon-github-original"@,
    }
}

/// The three difficulty levels of a cheat sheet, ordered
/// Beginner < Intermediate < Advanced and backed by the codes 1, 2, 3.
#[derive(Debug, Copy, Clone, Eq, PartialEq, Structural, Ord, PartialOrd, Hash)]
pub enum Level {
    Beginner,
    Intermediate,
    Advanced,
}

/// The difficulty level denoted by a numeric code, if any.
pub open spec fn level_from_code(value: u8) -> Option<Level> {
    if value == 1 {
        Some(Level::Beginner)
    } else if value == 2 {
        Some(Level::Intermediate)
    } else if value == 3 {
        Some(Level::Advanced)
    } else {
        None
    }
}

/// The numeric code of a difficulty level.
pub open spec fn level_code(l: Level) -> u8 {
    match l {
        Level::Beginner => 1,
        Level::Intermediate => 2,
        Level::Advanced => 3,
    }
}

/// A difficulty code with out-of-range values silently normalized to the
/// Beginner code, the recovery policy for unrecognized classifications.
pub open spec fn norm_level(value: u8) -> u8 {
    if 1 <= value <= 3 {
        value
    } else {
        1
    }
}

impl Level {
    /// The level a numeric code denotes; codes outside 1..=3 denote none,
    /// and callers recover by substituting Beginner.
    pub fn from_u8(value: u8) -> (r: Option<Level>)
        ensures
            r == level_from_code(value),
    {
        match value {
            1 => Some(Level::Beginner),
            2 => Some(Level::Intermediate),
            3 => Some(Level::Advanced),
            _ => None,
        }
    }
}

/// Law: the difficulty codes 1, 2 and 3 round-trip through classification
/// exactly, and every other code is normalized to the Beginner code.
pub proof fn lemma_level_classification(code: u8)
    ensures
        level_from_code(code) is Some ==> level_code(level_from_code(code)->Some_0) == code,
        forall|l: Level| level_from_code(level_code(l)) == Some(l),
        level_from_code(code) is None ==> norm_level(code) == level_code(Level::Beginner),
        level_from_code(code) is Some ==> norm_level(code) == code,
{
    assert forall|l: Level| level_from_code(level_code(l)) == Some(l) by {
        match l {
            Level::Beginner => {
            },
            Level::Intermediate => {
            },
            Level::Advanced => {
            },
        }
    }
}

/// The metadata block of a cheat sheet.
#[derive(Debug, Eq, PartialEq)]
pub struct Metadata {
    title: String,
    author: String,
    level: u8,
    lang: String,
    icon: String,
}

/// The mathematical content of a cheat sheet's metadata.
pub ghost struct MetadataView {
    pub title: Seq<char>,
    pub author: Seq<char>,
    pub level: u8,
    pub lang: Seq<char>,
    pub icon: Seq<char>,
}

impl View for Metadata {
    type V = MetadataView;

    closed spec fn view(&self) -> MetadataView {
        MetadataView {
            title: self.title@,
            author: self.author@,
            level: self.level,
            lang: self.lang@,
            icon: self.icon@,
        }
    }
}

impl Clone for Metadata {
    fn clone(&self) -> (r: Self)
        ensures
            r == *self,
    {
        Metadata {
            title: self.title.clone(),
            author: self.author.clone(),
            level: self.level,
            lang: self.lang.clone(),
            icon: self.icon.clone(),
        }
    }
}

impl Metadata {
    /// The title field.
    pub fn title(&self) -> (r: &String)
        ensures
            r@ == self@.title,
    {
        &self.title
    }

    /// The author field.
    pub fn author(&self) -> (r: &String)
        ensures
            r@ == self@.author,
    {
        &self.author
    }

    /// The raw difficulty code.
    pub fn level(&self) -> (r: u8)
        ensures
            r == self@.level,
    {
        self.level
    }

    /// The raw language string.
    pub fn lang(&self) -> (r: &String)
        ensures
            r@ == self@.lang,
    {
        &self.lang
    }

    /// The icon field.
    pub fn icon(&self) -> (r: &String)
        ensures
            r@ == self@.icon,
    {
        &self.icon
    }

    /// Bundles the metadata fields of a cheat sheet.
    pub fn new(title: &str, author: &str, level: u8, lang: &str, icon: &str) -> (r: Self)
        ensures
            r@ == (MetadataView {
                title: title@,
                author: author@,
                level: level,
                lang: lang@,
                icon: icon@,
            }),
    {
        Metadata {
            title: title.to_owned(),
            author: author.to_owned(),
            level,
            lang: lang.to_owned(),
            icon: icon.to_owned(),
        }
    }
}

impl Default for Metadata {
    fn default() -> (r: Self)
        ensures
            r@ == default_metadata(),
    {
        Metadata {
            title: String::new(),
            author: String::new(),
            level: 0,
            lang: String::new(),
            icon: String::new(),
        }
    }
}

/// The metadata of a default (empty) cheat sheet.
pub open spec fn default_metadata() -> MetadataView {
    MetadataView {
        title: Seq::<char>::empty(),
        author: Seq::<char>::empty(),
        level: 0,
        lang: Seq::<char>::empty(),
        icon: Seq::<char>::empty(),
    }
}

/// A cheat sheet: metadata, a URL slug derived from the title, and the
/// document body.
#[derive(Debug, Eq, PartialEq)]
pub struct Cheatsheet {
    metadata: Metadata,
    pub slug: String,
    content: String,
}

/// The mathematical content of a cheat sheet.
pub ghost struct CheatsheetView {
    pub metadata: MetadataView,
    pub slug: Seq<char>,
    pub content: Seq<char>,
}

impl View for Cheatsheet {
    type V = CheatsheetView;

    closed spec fn view(&self) -> CheatsheetView {
        CheatsheetView { metadata: self.metadata@, slug: self.slug@, content: self.content@ }
    }
}

impl Clone for Cheatsheet {
    fn clone(&self) -> (r: Self)
        ensures
            r == *self,
    {
        Cheatsheet {
            metadata: self.metadata.clone(),
            slug: self.slug.clone(),
            content: self.content.clone(),
        }
    }
}

/// The default (empty) cheat sheet, returned when a lookup finds nothing.
pub open spec fn default_cheatsheet() -> CheatsheetView {
    CheatsheetView {
        metadata: default_metadata(),
        slug: Seq::<char>::empty(),
        content: Seq::<char>::empty(),
    }
}

impl Default for Cheatsheet {
    fn default() -> (r: Self)
        ensures
            r@ == default_cheatsheet(),
    {
        Cheatsheet { metadata: Metadata::default(), slug: String::new(), content: String::new() }
    }
}

/// True when a cheat sheet carries the given slug and raw language string.
pub open spec fn sheet_matches(c: Cheatsheet, slug: Seq<char>, lang: Seq<char>) -> bool {
    c@.slug == slug && c@.metadata.lang == lang
}

impl Cheatsheet {
    /// Builds a cheat sheet; the slug is the title with spaces replaced by
    /// underscores.
    pub fn new(metadata: Metadata, content: String) -> (r: Self)
        ensures
            r@ == (CheatsheetView {
                metadata: metadata@,
                slug: replace_char_seq(metadata@.title, ' ', '_'),
                content: content@,
            }),
    {
        proof {
            reveal_strlit("_");
        }
        let slug = replace_char(metadata.title.as_str(), ' ', "_");
        Cheatsheet { metadata, slug, content }
    }

    /// Finds the first cheat sheet with the given slug and language, or the
    /// default cheat sheet when none matches.
    pub fn find(cheatsheets: &[Cheatsheet], slug: String, lang: String) -> (r: Cheatsheet)
        ensures
            (exists|i: int|
                0 <= i < cheatsheets@.len() && sheet_matches(#[trigger] cheatsheets@[i], slug@, lang@))
                ==> exists|i: int|
                {
                    &&& 0 <= i < cheatsheets@.len()
                    &&& sheet_matches(#[trigger] cheatsheets@[i], slug@, lang@)
                    &&& r == cheatsheets@[i]
                    &&& forall|j: int|
                        0 <= j < i ==> !sheet_matches(#[trigger] cheatsheets@[j], slug@, lang@)
                },
            (forall|i: int|
                0 <= i < cheatsheets@.len() ==> !sheet_matches(
                    #[trigger] cheatsheets@[i],
                    slug@,
                    lang@,
                )) ==> r@ == default_cheatsheet(),
    {
        let n = cheatsheets.len();
        let mut i: usize = 0;
        while i < n
            invariant
                0 <= i <= n,
                n == cheatsheets@.len(),
                forall|j: int|
                    0 <= j < i ==> !sheet_matches(#[trigger] cheatsheets@[j], slug@, lang@),
            decreases n - i,
        {
            let x = &cheatsheets[i];
            if str_eq(x.slug.as_str(), slug.as_str()) && str_eq(
                x.metadata.lang.as_str(),
                lang.as_str(),
            ) {
                return x.clone();
            }
            i = i + 1;
        }
        Cheatsheet::default()
    }

    /// The metadata block of this cheat sheet.
    pub fn metadata(&self) -> (r: &Metadata)
        ensures
            r@ == self@.metadata,
    {
        &self.metadata
    }

    /// The body of this cheat sheet.
    pub fn content(&self) -> (r: &String)
        ensures
            r@ == self@.content,
    {
        &self.content
    }

    /// The raw language string of this cheat sheet's metadata.
    pub fn lang(&self) -> (r: String)
        ensures
            r@ == self@.metadata.lang,
    {
        self.metadata.lang.clone()
    }

    /// The title of this cheat sheet.
    pub fn title(&self) -> (r: String)
        ensures
            r@ == self@.metadata.title,
    {
        self.metadata.title.clone()
    }

    /// The site-relative link to this cheat sheet.
    pub fn link_short(&self) -> (r: String)
        ensures
            r@ == "/cheatsheets/"@ + self@.slug,
    {
        "/cheatsheets/".to_owned().concat(self.slug.as_str())
    }

    /// This cheat sheet's projection into the search indices.
    pub fn as_search_meta(&self) -> (r: SearchMetadata)
        ensures
            r@ == cheat_meta(self@),
    {
        SearchMetadata::new(self.title(), ResourceType::Cheatsheet, self.link_short(), self.lang())
    }
}

/// Frames an encoded metadata block and a body as one markdown document:
/// the metadata between two delimiter lines, the body below. Encoding the
/// metadata itself is left to the embedding application.
pub fn frame_markdown(metadata_yaml: &str, content: &str) -> (r: String)
    ensures
        r@ == "---\n"@ + metadata_yaml@ + "\n---\n"@ + content@,
{
    "---\n".to_owned().concat(metadata_yaml).concat("\n---\n").concat(content)
}

/// The cheat sheets whose parsed language is exactly `l`, in input order.
pub open spec fn lang_filtered(s: Seq<CheatsheetView>, l: Language) -> Seq<CheatsheetView> {
    s.filter(|c: CheatsheetView| lang_of(c.metadata.lang) == l)
}

/// True when the normalized difficulty code of `c` is `k`.
pub open spec fn level_is(c: CheatsheetView, k: u8) -> bool {
    norm_level(c.metadata.level) == k
}

/// The cheat sheets whose normalized difficulty code is `k`, in input order.
pub open spec fn level_filtered(s: Seq<CheatsheetView>, k: u8) -> Seq<CheatsheetView> {
    s.filter(|c: CheatsheetView| level_is(c, k))
}

/// A stable sort of cheat sheets by ascending difficulty level: all
/// Beginner sheets in input order, then all Intermediate, then all
/// Advanced. Out-of-range codes count as Beginner.
pub open spec fn sorted_by_level(s: Seq<CheatsheetView>) -> Seq<CheatsheetView> {
    level_filtered(s, 1) + level_filtered(s, 2) + level_filtered(s, 3)
}

/// How filtering by language extends over appending one cheat sheet.
proof fn lemma_lang_filtered_push(s: Seq<CheatsheetView>, x: CheatsheetView, l: Language)
    ensures
        lang_filtered(s.push(x), l) == if lang_of(x.metadata.lang) == l {
            lang_filtered(s, l).push(x)
        } else {
            lang_filtered(s, l)
        },
{
}

/// How filtering by normalized level extends over appending one cheat sheet.
proof fn lemma_level_filtered_push(s: Seq<CheatsheetView>, x: CheatsheetView, k: u8)
    ensures
        level_filtered(s.push(x), k) == if level_is(x, k) {
            level_filtered(s, k).push(x)
        } else {
            level_filtered(s, k)
        },
{
}

/// One language bucket of the grouping: the sheets of language `l`, sorted
/// by level, stable.
pub open spec fn grouped(s: Seq<CheatsheetView>, l: Language) -> Seq<CheatsheetView> {
    sorted_by_level(lang_filtered(s, l))
}

/// The views of a sequence of cheat sheets.
pub open spec fn cheats_view(s: Seq<Cheatsheet>) -> Seq<CheatsheetView> {
    s.map_values(|c: Cheatsheet| c@)
}

/// The cheat sheets whose parsed language is exactly `lang`, in input order.
pub fn get_lang_vec(lang: Language, cheatsheets: &[Cheatsheet]) -> (r: Vec<Cheatsheet>)
    ensures
        cheats_view(r@) == lang_filtered(cheats_view(cheatsheets@), lang),
{
    let ghost all = cheats_view(cheatsheets@);
    let n = cheatsheets.len();
    let mut r: Vec<Cheatsheet> = Vec::new();
    let mut i: usize = 0;
    proof {
        assert(lang_filtered(all.subrange(0, 0), lang) =~= cheats_view(r@));
    }
    while i < n
        invariant
            0 <= i <= n,
            n == cheatsheets@.len(),
            all == cheats_view(cheatsheets@),
            cheats_view(r@) == lang_filtered(all.subrange(0, i as int), lang),
        decreases n - i,
    {
        let x = &cheatsheets[i];
        let ghost prev = r@;
        proof {
            assert(all[i as int] == cheatsheets@[i as int]@);
            assert(all.subrange(0, i + 1) =~= all.subrange(0, i as int).push(all[i as int]));
            lemma_lang_filtered_push(all.subrange(0, i as int), all[i as int], lang);
        }
        if Language::from_str(x.metadata.lang.as_str()) == lang {
            r.push(x.clone());
            proof {
                assert(cheats_view(r@) =~= cheats_view(prev).push(cheatsheets@[i as int]@));
            }
        }
        i = i + 1;
    }
    proof {
        assert(all.subrange(0, n as int) =~= all);
    }
    r
}

/// Sorts cheat sheets in place by ascending difficulty level. The sort is
/// stable: sheets of equal level keep their relative input order.
pub fn sort_cheatsheets(cheatsheets: &mut Vec<Cheatsheet>)
    ensures
        cheats_view(final(cheatsheets)@) == sorted_by_level(cheats_view(old(cheatsheets)@)),
{
    let mut out: Vec<Cheatsheet> = Vec::new();
    append_level(cheatsheets, &mut out, 1);
    append_level(cheatsheets, &mut out, 2);
    append_level(cheatsheets, &mut out, 3);
    proof {
        assert(cheats_view(out@) =~= sorted_by_level(cheats_view(cheatsheets@)));
    }
    *cheatsheets = out;
}

/// Appends, in input order, every sheet of `src` whose normalized level is `k`.
fn append_level(src: &Vec<Cheatsheet>, dst: &mut Vec<Cheatsheet>, k: u8)
    ensures
        cheats_view(final(dst)@) == cheats_view(old(dst)@) + level_filtered(cheats_view(src@), k),
{
    let ghost all = cheats_view(src@);
    let ghost start = cheats_view(dst@);
    let n = src.len();
    let mut i: usize = 0;
    proof {
        assert(start + level_filtered(all.subrange(0, 0), k) =~= cheats_view(dst@));
    }
    while i < n
        invariant
            0 <= i <= n,
            n == src@.len(),
            all == cheats_view(src@),
            start == cheats_view(old(dst)@),
            cheats_view(dst@) == start + level_filtered(all.subrange(0, i as int), k),
        decreases n - i,
    {
        let x = &src[i];
        let ghost prev = dst@;
        proof {
            assert(all[i as int] == src@[i as int]@);
            assert(all.subrange(0, i + 1) =~= all.subrange(0, i as int).push(all[i as int]));
            lemma_level_filtered_push(all.subrange(0, i as int), all[i as int], k);
        }
        let lv = x.metadata.level;
        let nl: u8 = if 1 <= lv && lv <= 3 {
            lv
        } else {
            1
        };
        if nl == k {
            dst.push(x.clone());
            proof {
                assert(cheats_view(dst@) =~= cheats_view(prev).push(src@[i as int]@));
                assert(cheats_view(dst@) =~= start + level_filtered(all.subrange(0, i + 1), k));
            }
        } else {
            proof {
                assert(cheats_view(dst@) =~= start + level_filtered(all.subrange(0, i + 1), k));
            }
        }
        i = i + 1;
    }
    proof {
        assert(all.subrange(0, n as int) =~= all);
    }
}

/// Filtering by level keeps a sequence whole when every element has that
/// normalized level.
proof fn lemma_level_filtered_keeps(s: Seq<CheatsheetView>, k: u8)
    requires
        forall|i: int| 0 <= i < s.len() ==> level_is(#[trigger] s[i], k),
    ensures
        level_filtered(s, k) == s,
    decreases s.len(),
{
    if s.len() > 0 {
        let rest = s.drop_last();
        lemma_level_filtered_keeps(rest, k);
        assert(rest.push(s.last()) =~= s);
        lemma_level_filtered_push(rest, s.last(), k);
    } else {
        assert(s =~= Seq::<CheatsheetView>::empty());
        reveal(Seq::filter);
    }
}

/// Filtering by level empties a sequence when no element has that
/// normalized level.
proof fn lemma_level_filtered_drops(s: Seq<CheatsheetView>, k: u8)
    requires
        forall|i: int| 0 <= i < s.len() ==> !level_is(#[trigger] s[i], k),
    ensures
        level_filtered(s, k) == Seq::<CheatsheetView>::empty(),
    decreases s.len(),
{
    if s.len() > 0 {
        let rest = s.drop_last();
        lemma_level_filtered_drops(rest, k);
        assert(rest.push(s.last()) =~= s);
        lemma_level_filtered_push(rest, s.last(), k);
    } else {
        assert(s =~= Seq::<CheatsheetView>::empty());
        reveal(Seq::filter);
    }
}

/// How filtering by level distributes over concatenation.
proof fn lemma_level_filtered_add(a: Seq<CheatsheetView>, b: Seq<CheatsheetView>, k: u8)
    ensures
        level_filtered(a + b, k) == level_filtered(a, k) + level_filtered(b, k),
    decreases b.len(),
{
    if b.len() == 0 {
        assert(a + b =~= a);
        assert(level_filtered(b, k) =~= Seq::<CheatsheetView>::empty());
        reveal(Seq::filter);
        assert(level_filtered(a, k) + level_filtered(b, k) =~= level_filtered(a, k));
    } else {
        let rest = b.drop_last();
        lemma_level_filtered_add(a, rest, k);
        assert((a + rest).push(b.last()) =~= a + b);
        assert(rest.push(b.last()) =~= b);
        lemma_level_filtered_push(a + rest, b.last(), k);
        lemma_level_filtered_push(rest, b.last(), k);
        if level_is(b.last(), k) {
            assert((level_filtered(a, k) + level_filtered(rest, k)).push(b.last())
                =~= level_filtered(a, k) + level_filtered(rest, k).push(b.last()));
        }
    }
}

/// Law: the sort by level is stable. Restricting the sorted sequence to
/// the sheets of any one normalized level yields exactly the input's
/// subsequence of that level, so sheets of equal level keep their relative
/// input order.
pub proof fn lemma_sort_stable(s: Seq<CheatsheetView>, k: u8)
    ensures
        level_filtered(sorted_by_level(s), k) == level_filtered(s, k),
{
    broadcast use vstd::seq::Seq::lemma_filter_pred;

    let f1 = level_filtered(s, 1);
    let f2 = level_filtered(s, 2);
    let f3 = level_filtered(s, 3);
    lemma_level_filtered_add(f1 + f2, f3, k);
    lemma_level_filtered_add(f1, f2, k);
    if k == 1 {
        lemma_level_filtered_keeps(f1, k);
        lemma_level_filtered_drops(f2, k);
        lemma_level_filtered_drops(f3, k);
        assert(level_filtered(sorted_by_level(s), k) =~= f1);
    } else if k == 2 {
        lemma_level_filtered_drops(f1, k);
        lemma_level_filtered_keeps(f2, k);
        lemma_level_filtered_drops(f3, k);
        assert(level_filtered(sorted_by_level(s), k) =~= f2);
    } else if k == 3 {
        lemma_level_filtered_drops(f1, k);
        lemma_level_filtered_drops(f2, k);
        lemma_level_filtered_keeps(f3, k);
        assert(level_filtered(sorted_by_level(s), k) =~= f3);
    } else {
        lemma_level_filtered_drops(f1, k);
        lemma_level_filtered_drops(f2, k);
        lemma_level_filtered_drops(f3, k);
        lemma_level_filtered_drops(s, k);
        assert(level_filtered(sorted_by_level(s), k) =~= level_filtered(s, k));
    }
}

/// Law: every topic language appears among the grouping keys.
pub proof fn lemma_all_langs_complete(l: Language)
    ensures
        all_langs().contains(l),
{
    match l {
        Language::Kotlin => assert(all_langs()[0] == Language::Kotlin),
        Language::Rust => assert(all_langs()[1] == Language::Rust),
        Language::C => assert(all_langs()[2] == Language::C),
        Language::CPP => assert(all_langs()[3] == Language::CPP),
        Language::Zig => assert(all_langs()[4] == Language::Zig),
        Language::Python => assert(all_langs()[5] == Language::Python),
        Language::Swift => assert(all_langs()[6] == Language::Swift),
        Language::Go => assert(all_langs()[7] == Language::Go),
        Language::Other => assert(all_langs()[8] == Language::Other),
    }
}

/// Groups cheat sheets by topic language: one bucket for every language
/// variant, in declaration order, each sorted by level, stable.
pub fn get_lang_map(cheatsheets: &[Cheatsheet]) -> (r: Vec<(Language, Vec<Cheatsheet>)>)
    ensures
        r@.len() == all_langs().len(),
        forall|i: int|
            0 <= i < r@.len() ==> (#[trigger] r@[i]).0 == all_langs()[i] && cheats_view(r@[i].1@)
                == grouped(cheats_view(cheatsheets@), all_langs()[i]),
{
    let variants = Language::all_variants();
    let mut r: Vec<(Language, Vec<Cheatsheet>)> = Vec::new();
    let count = variants.len();
    let mut i: usize = 0;
    while i < count
        invariant
            0 <= i <= count,
            count == all_langs().len(),
            variants@ == all_langs(),
            r@.len() == i,
            forall|j: int|
                0 <= j < i ==> (#[trigger] r@[j]).0 == all_langs()[j] && cheats_view(r@[j].1@)
                    == grouped(cheats_view(cheatsheets@), all_langs()[j]),
        decreases count - i,
    {
        let lang = variants[i];
        let mut bucket = get_lang_vec(lang, cheatsheets);
        sort_cheatsheets(&mut bucket);
        r.push((lang, bucket));
        i = i + 1;
    }
    r
}


} // verus!
