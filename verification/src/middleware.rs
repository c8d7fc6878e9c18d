//! Serving an application below a path prefix: requests come in under
//! the prefix and are routed without it.

use vstd::prelude::*;

pub mod strip_app_root;
pub mod strip_path_prefix;

use crate::text::{strip_prefix, text_of};

verus! {

/// A prefix in the form that paths are held against: with a leading
/// slash, and with no trailing one unless the slash is all there is.
pub open spec fn cleaned(prefix: Seq<char>) -> Seq<char> {
    let led = if prefix.len() > 0 && prefix[0] == '/' {
        prefix
    } else {
        seq!['/'] + prefix
    };
    if led.len() > 1 && led.last() == '/' {
        led.drop_last()
    } else {
        led
    }
}

/// The path under which a request is routed, where its own path begins
/// with the prefix: what follows the prefix, or `/` where nothing does.
/// A request with no path, or with one outside the prefix, has none.
pub open spec fn rewritten(prefix: Seq<char>, path_and_query: Option<Seq<char>>) -> Option<
    Seq<char>,
> {
    match path_and_query {
        None => None,
        Some(path) => if prefix.is_prefix_of(path) {
            let rest = path.skip(prefix.len() as int);
            Some(
                if rest.len() == 0 {
                    seq!['/']
                } else {
                    rest
                },
            )
        } else {
            None
        },
    }
}

/// Ensures a leading slash and no trailing slash.
pub fn clean(prefix: &str) -> (out: String)
    ensures
        out@ == cleaned(prefix@),
{
    proof {
        reveal_strlit("/");
    }
    let n: usize = prefix.unicode_len();
    let mut led = if n > 0 && prefix.get_char(0) == '/' {
        String::new()
    } else {
        String::from_str("/")
    };
    led.append(prefix);
    assert(led@ =~= if prefix@.len() > 0 && prefix@[0] == '/' {
        prefix@
    } else {
        seq!['/'] + prefix@
    });
    let m: usize = led.as_str().unicode_len();
    if m > 1 && led.as_str().get_char(m - 1) == '/' {
        let cut = led.as_str().substring_char(0, m - 1);
        assert(cut@ =~= led@.drop_last());
        cut.to_owned()
    } else {
        led
    }
}

/// Takes the prefix off a request's path. `None` means that the request
/// is not for this application, and is answered with "not found".
pub fn rewrite(prefix: &str, path_and_query: Option<&str>) -> (out: Option<String>)
    ensures
        match out {
            Some(path) => rewritten(prefix@, text_of(path_and_query)) == Some(path@),
            None => rewritten(prefix@, text_of(path_and_query)) is None,
        },
{
    proof {
        reveal_strlit("/");
    }
    let path = match path_and_query {
        Some(path) => path,
        None => {
            return None;
        },
    };
    match strip_prefix(path, prefix) {
        None => None,
        Some(rest) => {
            if rest.is_empty() {
                // Make sure empty becomes "/" so it routes correctly
                assert("/"@ =~= seq!['/']);
                Some(String::from_str("/"))
            } else {
                Some(rest.to_owned())
            }
        },
    }
}

} // verus!
