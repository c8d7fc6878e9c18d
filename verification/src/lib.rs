//! Building blocks for a server-rendered web application: encrypted
//! cookie sessions with a request-forgery defence, hashed script assets,
//! path-prefix rewriting and server-sent render events.
//!
//! Everything here is a function of its arguments. Clocks, environment
//! variables, files and sockets belong to the caller, which hands their
//! values in.

use vstd::prelude::*;

pub mod errors;
pub mod javascript;
pub mod middleware;
pub mod session;
pub mod text;
pub mod turbo;
pub mod view;

verus! {

/// What `app_root` answers while no root has been configured.
pub open spec fn default_root() -> Seq<char> {
    seq!['/']
}

/// The root that a configuration slot stands for.
pub open spec fn root_of(slot: Option<String>) -> Seq<char> {
    match slot {
        Some(root) => root@,
        None => default_root(),
    }
}

/// Sets the root URL to use when building links to assets.
pub fn set_app_root(slot: &mut Option<String>, root: String)
    ensures
        *final(slot) == Some(root),
        root_of(*final(slot)) == root@,
{
    *slot = Some(root);
}

/// The root of the site used when building links to assets: the configured
/// one, or `/` while none has been set.
pub fn app_root(slot: &Option<String>) -> (root: String)
    ensures
        root@ == root_of(*slot),
{
    match slot {
        Some(root) => root.clone(),
        None => {
            proof {
                reveal_strlit("/");
            }
            assert("/"@ =~= default_root());
            String::from_str("/")
        },
    }
}

} // verus!
