use vstd::prelude::*;

verus! {

/// One page of a collection: its items, the locators of the pages before and
/// after it, and the size of the whole collection.
#[derive(Clone, Debug)]
pub struct Paginated<T> {
    pub count: u64,
    pub next: Option<String>,
    pub previous: Option<String>,
    pub results: Vec<T>,
}

/// Follows the locator `token`, if there is one: `None` with no call where
/// there is none; else `fetch` is called once, with the locator as the
/// complete target, and what it returned is handed back as it is.
pub fn follow<R, F: FnOnce(String) -> R>(token: &Option<String>, fetch: F) -> (r: Option<R>)
    requires
        token is Some ==> fetch.requires((token->0,)),
    ensures
        token is None ==> r is None,
        token is Some ==> r is Some && fetch.ensures((token->0,), r->0),
{
    match token {
        None => None,
        Some(t) => {
            Some(fetch(t.clone()))
        },
    }
}

impl<T> Paginated<T> {
    /// The page after this one, fetched with `fetch` from the next-page
    /// locator; `None`, with no call, on the last page.
    pub fn next_page<R, F: FnOnce(String) -> R>(&self, fetch: F) -> (r: Option<R>)
        requires
            self.next is Some ==> fetch.requires((self.next->0,)),
        ensures
            self.next is None ==> r is None,
            self.next is Some ==> r is Some && fetch.ensures((self.next->0,), r->0),
    {
        follow(&self.next, fetch)
    }

    /// The page before this one, fetched with `fetch` from the previous-page
    /// locator; `None`, with no call, on the first page.
    pub fn previous_page<R, F: FnOnce(String) -> R>(&self, fetch: F) -> (r: Option<R>)
        requires
            self.previous is Some ==> fetch.requires((self.previous->0,)),
        ensures
            self.previous is None ==> r is None,
            self.previous is Some ==> r is Some && fetch.ensures((self.previous->0,), r->0),
    {
        follow(&self.previous, fetch)
    }
}

} // verus!
