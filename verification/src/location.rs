//! The sidebar's id, read from the query of the page's address: the
//! background page opens each sidebar at `sidebar.html?<id>`, with the id
//! URI-encoded.

use vstd::prelude::*;
use vstd::string::*;

verus! {

/// What JavaScript's `decodeURIComponent` makes of a text: the decoded text,
/// or nothing where the text holds a malformed escape sequence.
pub uninterp spec fn uri_component_decoding(encoded: Seq<char>) -> Option<Seq<char>>;

/// `js_sys::decode_uri_component`, a binding of JavaScript's
/// `decodeURIComponent`: its result is a function of the encoded text alone,
/// named `uri_component_decoding`; a thrown `URIError` becomes `None`. The
/// binding is only there on the wasm32 target, which the sidebar is built
/// for; on other targets wasm-bindgen aborts the call.
#[verifier::external_body]
fn decode_uri_component(encoded: &str) -> (decoded: Option<String>)
    ensures
        decoded is Some == uri_component_decoding(encoded@) is Some,
        decoded is Some ==> decoded->0@ == uri_component_decoding(encoded@)->0,
{
    js_sys::decode_uri_component(encoded).ok().map(String::from)
}

/// The sidebar's id from the query part `search` of the page's address (it
/// starts with `?`): the rest of the query, URI-decoded; `None` where the
/// rest is not a well-formed URI component.
pub fn sidebar_id(search: &str) -> (id: Option<String>)
    requires
        search@.len() >= 1,
        (search@[0] as u32) < 128,
    ensures
        id is Some == uri_component_decoding(search@.drop_first()) is Some,
        id is Some ==> id->0@ == uri_component_decoding(search@.drop_first())->0,
{
    let len = search.unicode_len();
    let rest = search.substring_char(1, len);
    assert(rest@ =~= search@.drop_first());
    decode_uri_component(rest)
}

} // verus!
