//! The store of working repositories: one per repository URL, cloned when
//! first asked for and kept from then on.

use crate::errors::GitError;
use crate::text::{str_eq, views};
use vstd::prelude::*;
use vstd::string::*;

verus! {

/// Working repositories by the SSH URL that they were cloned from.
///
/// A URL has at most one entry, and an entry, once made, stays.
pub struct RepoCache<R> {
    urls: Vec<String>,
    repos: Vec<R>,
}

impl<R> RepoCache<R> {
    /// The URLs that have an entry, in the order in which they were cloned.
    pub closed spec fn keys(&self) -> Seq<Seq<char>> {
        views(self.urls@)
    }

    /// The working repositories, each at the place of its URL in `keys`.
    pub closed spec fn repos(&self) -> Seq<R> {
        self.repos@
    }

    /// Every URL has one working repository, and no URL occurs twice.
    pub open spec fn wf(&self) -> bool {
        &&& self.keys().len() == self.repos().len()
        &&& self.keys().no_duplicates()
    }

    /// A store without entries.
    pub fn new() -> (cache: RepoCache<R>)
        ensures
            cache.wf(),
            cache.keys() == Seq::<Seq<char>>::empty(),
            cache.repos() == Seq::<R>::empty(),
    {
        let cache = RepoCache { urls: Vec::new(), repos: Vec::new() };
        assert(cache.keys() =~= Seq::<Seq<char>>::empty());
        cache
    }

    /// The number of entries.
    pub fn len(&self) -> (n: usize)
        ensures
            n == self.keys().len(),
    {
        self.urls.len()
    }

    /// The place of the entry for `url`, if there is one.
    pub fn find(&self, url: &str) -> (place: Option<usize>)
        ensures
            match place {
                Some(i) => i < self.keys().len() && self.keys()[i as int] == url@,
                None => !self.keys().contains(url@),
            },
    {
        let mut i: usize = 0;
        while i < self.urls.len()
            invariant
                i <= self.urls.len(),
                forall|j: int| 0 <= j < i ==> views(self.urls@)[j] != url@,
            decreases self.urls.len() - i,
        {
            if str_eq(self.urls[i].as_str(), url) {
                return Some(i);
            }
            i += 1;
        }
        None
    }

    /// The place of the entry for `url`, made by `clone` if there was none.
    ///
    /// With an entry for `url`, nothing changes and `clone` is not called.
    /// Without one, `clone` is called on `url`: what it hands back becomes
    /// the last entry; if it fails, its error is returned and nothing
    /// changes.
    pub fn get_or_clone<F>(&mut self, url: &String, clone: F) -> (got: Result<usize, GitError>) where
        F: FnOnce(&String) -> Result<R, GitError>,

        requires
            old(self).wf(),
            call_requires(clone, (url,)),
        ensures
            final(self).wf(),
            match got {
                Ok(i) => {
                    &&& i < final(self).keys().len()
                    &&& final(self).keys()[i as int] == url@
                    &&& if old(self).keys().contains(url@) {
                        &&& final(self).keys() == old(self).keys()
                        &&& final(self).repos() == old(self).repos()
                    } else {
                        &&& i == old(self).keys().len()
                        &&& final(self).keys() == old(self).keys().push(url@)
                        &&& final(self).repos() == old(self).repos().push(
                            final(self).repos()[i as int],
                        )
                        &&& call_ensures(
                            clone,
                            (url,),
                            Ok::<R, GitError>(final(self).repos()[i as int]),
                        )
                    }
                },
                Err(error) => {
                    &&& !old(self).keys().contains(url@)
                    &&& call_ensures(clone, (url,), Err::<R, GitError>(error))
                    &&& final(self).keys() == old(self).keys()
                    &&& final(self).repos() == old(self).repos()
                },
            },
    {
        match self.find(url.as_str()) {
            Some(i) => Ok(i),
            None => {
                match clone(url) {
                    Ok(repo) => {
                        let ghost before = views(self.urls@);
                        self.urls.push(url.clone());
                        self.repos.push(repo);
                        assert(views(self.urls@) =~= before.push(url@));
                        assert(self.repos@ =~= old(self).repos@.push(repo));
                        Ok(self.urls.len() - 1)
                    },
                    Err(error) => Err(error),
                }
            },
        }
    }

    /// The working repository at place `i`, for reading.
    pub fn repo(&self, i: usize) -> (repo: &R)
        requires
            i < self.repos().len(),
        ensures
            *repo == self.repos()[i as int],
    {
        &self.repos[i]
    }

    /// The working repository at place `i`, for the exclusive use of one
    /// event's handling.
    pub fn repo_mut(&mut self, i: usize) -> (repo: &mut R)
        requires
            old(self).wf(),
            i < old(self).repos().len(),
        ensures
            final(self).wf(),
            *repo == old(self).repos()[i as int],
            final(self).keys() == old(self).keys(),
            final(self).repos() == old(self).repos().update(i as int, *final(repo)),
    {
        &mut self.repos[i]
    }
}

} // verus!
