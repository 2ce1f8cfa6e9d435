//! Paged lists of repositories gathered from GitHub searches. Fetching the
//! pages is left to the embedding application; the paged structure and its
//! counts are modeled here.

use vstd::prelude::*;

verus! {

/// A repository: its name, address, and optional description.
#[derive(Debug)]
pub struct Repository {
    name: String,
    url: String,
    description: Option<String>,
}

/// The mathematical content of a repository record.
pub ghost struct RepositoryView {
    pub name: Seq<char>,
    pub url: Seq<char>,
    pub description: Option<Seq<char>>,
}

impl View for Repository {
    type V = RepositoryView;

    closed spec fn view(&self) -> RepositoryView {
        RepositoryView {
            name: self.name@,
            url: self.url@,
            description: match self.description {
                Some(d) => Some(d@),
                None => None,
            },
        }
    }
}

impl Clone for Repository {
    fn clone(&self) -> (r: Self)
        ensures
            r == *self,
    {
        Repository {
            name: self.name.clone(),
            url: self.url.clone(),
            description: match &self.description {
                Some(d) => Some(d.clone()),
                None => None,
            },
        }
    }
}

impl Repository {
    /// Bundles a repository record from its name, address and description.
    pub fn new(name: String, url: String, description: Option<String>) -> (r: Self)
        ensures
            r@.name == name@,
            r@.url == url@,
            r@.description == match description {
                Some(d) => Some(d@),
                None => None::<Seq<char>>,
            },
    {
        Repository { name, url, description }
    }
}

/// The views of a sequence of repositories.
pub open spec fn repos_view(s: Seq<Repository>) -> Seq<RepositoryView> {
    s.map_values(|r: Repository| r@)
}

/// A list of repository pages, one inner list per fetched page.
#[derive(Debug)]
pub struct AwesomeList {
    page_list: Vec<Vec<Repository>>,
}

impl View for AwesomeList {
    type V = Seq<Seq<RepositoryView>>;

    closed spec fn view(&self) -> Seq<Seq<RepositoryView>> {
        self.page_list@.map_values(|p: Vec<Repository>| repos_view(p@))
    }
}

impl Default for AwesomeList {
    fn default() -> (r: Self)
        ensures
            r@ == Seq::<Seq<RepositoryView>>::empty(),
    {
        let r = AwesomeList { page_list: Vec::new() };
        proof {
            assert(r@ =~= Seq::<Seq<RepositoryView>>::empty());
        }
        r
    }
}

/// The number of repositories on and after page index `i`.
pub open spec fn repos_from(pages: Seq<Seq<RepositoryView>>, i: int) -> nat
    decreases pages.len() - i,
{
    if i < 0 || i >= pages.len() {
        0
    } else {
        pages[i].len() + repos_from(pages, i + 1)
    }
}

/// Copies one page of repositories element by element.
fn clone_repos(src: &Vec<Repository>) -> (r: Vec<Repository>)
    ensures
        r@ == src@,
{
    let n = src.len();
    let mut r: Vec<Repository> = Vec::new();
    let mut i: usize = 0;
    while i < n
        invariant
            0 <= i <= n,
            n == src@.len(),
            r@ == src@.subrange(0, i as int),
        decreases n - i,
    {
        r.push(src[i].clone());
        proof {
            assert(r@ =~= src@.subrange(0, i + 1));
        }
        i = i + 1;
    }
    proof {
        assert(src@.subrange(0, n as int) =~= src@);
    }
    r
}

impl AwesomeList {
    /// Bundles already-fetched pages into an awesome list.
    pub fn from_pages(page_list: Vec<Vec<Repository>>) -> (r: Self)
        ensures
            r@ == page_list@.map_values(|p: Vec<Repository>| repos_view(p@)),
    {
        AwesomeList { page_list }
    }

    /// One page of repositories, counted from one.
    pub fn get_page(&self, page: usize) -> (r: Vec<Repository>)
        requires
            1 <= page <= self@.len(),
        ensures
            repos_view(r@) == self@[page - 1],
    {
        clone_repos(&self.page_list[page - 1])
    }

    /// The total number of repositories across all pages.
    pub fn count_repos(&self) -> (r: usize)
        requires
            repos_from(self@, 0) <= usize::MAX,
        ensures
            r == repos_from(self@, 0),
    {
        let n = self.page_list.len();
        let mut acc: usize = 0;
        let mut i: usize = 0;
        while i < n
            invariant
                0 <= i <= n,
                n == self@.len(),
                repos_from(self@, 0) <= usize::MAX,
                acc + repos_from(self@, i as int) == repos_from(self@, 0),
            decreases n - i,
        {
            let page_len = self.page_list[i].len();
            proof {
                assert(self@[i as int] == repos_view(self.page_list@[i as int]@));
                assert(self@[i as int].len() == self.page_list@[i as int]@.len());
                assert(repos_from(self@, i as int) == self@[i as int].len() + repos_from(
                    self@,
                    i + 1,
                ));
            }
            acc = acc + page_len;
            i = i + 1;
        }
        acc
    }
}

} // verus!
