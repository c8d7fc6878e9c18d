//! Pages as they go out.

use vstd::prelude::*;

verus! {

/// The document that a rendered view is sent as.
pub open spec fn document(html: Seq<char>) -> Seq<char> {
    "<!DOCTYPE html>\n"@ + html
}

/// The body of the response for a rendered view: the markup with the
/// doctype in front, which the renderer leaves out.
pub fn render(html: &str) -> (body: String)
    ensures
        body@ == document(html@),
{
    let mut body = String::from_str("<!DOCTYPE html>\n");
    body.append(html);
    body
}

} // verus!
