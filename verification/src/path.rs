//! The address of the counter resource, with and without a count.

use crate::decimal::{decimal, decimal_text, decimal_value, lemma_decimal_value};
use vstd::prelude::*;

verus! {

/// The counter resource, as a path below the prefix at which the
/// application mounts it.
#[derive(Clone, Copy, Debug, PartialEq, Eq, Structural)]
pub struct Counter;

/// The state that a page of the counter carries: the count it displays.
#[derive(Clone, Copy, Debug, PartialEq, Eq, Structural)]
pub struct CounterState {
    pub count: i64,
}

/// The query string that carries a count, with its question mark.
pub open spec fn query_text(count: int) -> Seq<char> {
    "?count="@ + decimal_text(count)
}

/// The address of the counter below `root`: with a query string for the
/// count where there is one to carry, bare where the page is to fall back on
/// the stored default.
pub open spec fn url_text(root: Seq<char>, count: Option<int>) -> Seq<char> {
    match count {
        Some(count) => root + Counter::path_text() + query_text(count),
        None => root + Counter::path_text(),
    }
}

/// The count that an address of the counter below `root` carries: what its
/// query string writes, and nothing where the address ends with the path.
pub open spec fn carried_count(root: Seq<char>, url: Seq<char>) -> Option<int> {
    let query = url.skip((root.len() + Counter::path_text().len()) as int);
    if query.len() == 0 {
        None
    } else {
        Some(decimal_value(query.skip("?count="@.len() as int)))
    }
}

/// The count of a state, if there is a state.
pub open spec fn count_of(state: Option<CounterState>) -> Option<int> {
    match state {
        Some(state) => Some(state.count as int),
        None => None,
    }
}

impl Counter {
    /// The path of the resource below its mount point.
    pub open spec fn path_text() -> Seq<char> {
        "/counter"@
    }

    /// The path of the resource below its mount point.
    pub fn path(&self) -> (path: &'static str)
        ensures
            path@ == Counter::path_text(),
    {
        "/counter"
    }

    /// The address of the resource below its mount point, without a count.
    pub fn to_uri(&self) -> (uri: String)
        ensures
            uri@ == Counter::path_text(),
    {
        self.path().to_owned()
    }

    /// The address of the resource below its mount point, with the count of
    /// `state` as its query string.
    pub fn with_query_params(&self, state: CounterState) -> (uri: String)
        ensures
            uri@ == Counter::path_text() + query_text(state.count as int),
    {
        let mut uri = self.to_uri();
        uri.append("?count=");
        let count = decimal(state.count);
        uri.append(count.as_str());
        assert(uri@ =~= Counter::path_text() + query_text(state.count as int));
        uri
    }
}

/// The address of the counter below `root`: the mount prefix, then the
/// resource's path, then the count of `state` if there is one. The prefix is
/// taken as it is given.
pub fn concat_url(root: &str, state: Option<CounterState>) -> (url: String)
    ensures
        url@ == url_text(root@, count_of(state)),
{
    let mut url = root.to_owned();
    match state {
        Some(state) => {
            let tail = Counter.with_query_params(state);
            url.append(tail.as_str());
            assert(url@ =~= url_text(root@, count_of(Some(state))));
        },
        None => {
            let tail = Counter.to_uri();
            url.append(tail.as_str());
        },
    }
    url
}

/// An address of the counter carries the count it was built with, and none
/// if it was built with none. So addresses built below one prefix with
/// different counts differ.
pub proof fn lemma_url_carries_count(root: Seq<char>, count: Option<int>)
    ensures
        carried_count(root, url_text(root, count)) == count,
{
    let path = Counter::path_text();
    match count {
        Some(n) => {
            let url = url_text(root, count);
            let digits = decimal_text(n);
            lemma_decimal_value(n);
            reveal_strlit("?count=");
            assert("?count="@.len() == 7);
            assert(url.skip((root.len() + path.len()) as int) =~= query_text(n));
            assert(query_text(n).skip(7) =~= digits);
        },
        None => {
            assert(url_text(root, count).skip((root.len() + path.len()) as int) =~= Seq::<char>::empty());
        },
    }
}

} // verus!
