use vstd::prelude::*;

use crate::middleware::{clean, cleaned, rewrite, rewritten};
use crate::text::text_of;
use crate::{app_root, root_of};

verus! {

/// Middleware that strips the configured application root from incoming
/// requests
#[derive(Default)]
pub struct StripAppRoot {}

pub struct StripAppRootMiddleware {}

impl StripAppRoot {
    pub fn new() -> Self {
        Self {  }
    }

    /// The middleware for one service.
    pub fn new_transform(&self) -> StripAppRootMiddleware {
        StripAppRootMiddleware {  }
    }
}

impl StripAppRootMiddleware {
    /// The path under which the next service sees a request, or `None`
    /// for a request that is answered with "not found". The prefix is the
    /// application root as it is configured when the request comes in.
    pub fn call(&self, root: &Option<String>, path_and_query: Option<&str>) -> (out: Option<
        String,
    >)
        ensures
            match out {
                Some(path) => rewritten(cleaned(root_of(*root)), text_of(path_and_query)) == Some(
                    path@,
                ),
                None => rewritten(cleaned(root_of(*root)), text_of(path_and_query)) is None,
            },
    {
        let prefix = clean_prefix(root);
        rewrite(prefix.as_str(), path_and_query)
    }
}

/// The configured application root, with a leading slash and no trailing
/// slash.
pub fn clean_prefix(root: &Option<String>) -> (prefix: String)
    ensures
        prefix@ == cleaned(root_of(*root)),
{
    let prefix = app_root(root);
    clean(prefix.as_str())
}

} // verus!
