use vstd::prelude::*;

use crate::middleware::{clean, cleaned, rewrite, rewritten};
use crate::text::text_of;

verus! {

/// Middleware that strips a base path (e.g. "/myapp") from incoming requests
pub struct StripPathPrefix {
    prefix: String,
}

pub struct StripPathPrefixMiddleware {
    prefix: String,
}

impl StripPathPrefix {
    /// The prefix as it is held against paths.
    pub closed spec fn prefix(&self) -> Seq<char> {
        self.prefix@
    }

    pub fn new(prefix: &str) -> (factory: Self)
        ensures
            factory.prefix() == cleaned(prefix@),
    {
        Self { prefix: clean(prefix) }
    }

    /// The middleware for one service: it strips the same prefix.
    pub fn new_transform(&self) -> (middleware: StripPathPrefixMiddleware)
        ensures
            middleware.prefix() == self.prefix(),
    {
        StripPathPrefixMiddleware { prefix: self.prefix.clone() }
    }
}

impl StripPathPrefixMiddleware {
    /// The prefix as it is held against paths.
    pub closed spec fn prefix(&self) -> Seq<char> {
        self.prefix@
    }

    /// The path under which the next service sees a request, or `None`
    /// for a request that is answered with "not found".
    pub fn call(&self, path_and_query: Option<&str>) -> (out: Option<String>)
        ensures
            match out {
                Some(path) => rewritten(self.prefix(), text_of(path_and_query)) == Some(path@),
                None => rewritten(self.prefix(), text_of(path_and_query)) is None,
            },
    {
        rewrite(self.prefix.as_str(), path_and_query)
    }
}

} // verus!
