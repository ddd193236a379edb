//! Requests that set up the desktop integration of the image.
use vstd::prelude::*;
use crate::gameimage::request::in_key_order;
use crate::gameimage::request::LeafView;
use crate::gameimage::request::Request;
use crate::gameimage::request::RequestView;
use crate::gameimage::request::field;
use crate::gameimage::request::section_request;
use crate::gameimage::request::field_keys;
use crate::gameimage::request::lemma_keys_sorted_by_first;
use crate::gameimage::request::section_view;
use crate::gameimage::request::text_leaf;

verus! {

/// `{"desktop":{"items":<items>,"name":<name>,"op":"setup"},"op":"desktop"}`.
pub open spec fn desktop_view(name: Seq<char>, items: Seq<char>) -> RequestView {
    section_view(
        "desktop"@,
        seq![("items"@, LeafView::Text(items)), ("name"@, LeafView::Text(name)), ("op"@, LeafView::Text("setup"@))],
        "desktop"@,
    )
}

/// `{"desktop":{"op":"icon","path_file_icon":<path>},"op":"desktop"}`.
pub open spec fn icon_view(path: Seq<char>) -> RequestView {
    section_view(
        "desktop"@,
        seq![("op"@, LeafView::Text("icon"@)), ("path_file_icon"@, LeafView::Text(path))],
        "desktop"@,
    )
}

/// Sets up the desktop entry `name` with the integration items `items`
/// (a comma separated list).
pub fn desktop(name: &str, items: &str) -> (r: Request)
    ensures
        in_key_order(r@),
        r@ == desktop_view(name@, items@),
{
    let fields = vec![field("items", text_leaf(items)), field("name", text_leaf(name)), field("op", text_leaf("setup"))];
    proof {
        reveal_strlit("items");
        reveal_strlit("name");
        reveal_strlit("op");
        reveal_strlit("desktop");
        assert(field_keys(fields@) =~= seq!["items"@, "name"@, "op"@]);
        lemma_keys_sorted_by_first(field_keys(fields@));
        assert("desktop"@.len() != "op"@.len());
    }
    let r = section_request("desktop", fields, "desktop");
    assert(r@.section->0.fields =~= desktop_view(name@, items@).section->0.fields);
    r
}

/// Sets the icon of the desktop entry.
pub fn icon(path: &str) -> (r: Request)
    ensures
        in_key_order(r@),
        r@ == icon_view(path@),
{
    let fields = vec![field("op", text_leaf("icon")), field("path_file_icon", text_leaf(path))];
    proof {
        reveal_strlit("op");
        reveal_strlit("path_file_icon");
        reveal_strlit("desktop");
        assert(field_keys(fields@) =~= seq!["op"@, "path_file_icon"@]);
        lemma_keys_sorted_by_first(field_keys(fields@));
        assert("desktop"@.len() != "op"@.len());
    }
    let r = section_request("desktop", fields, "desktop");
    assert(r@.section->0.fields =~= icon_view(path@).section->0.fields);
    r
}

} // verus!
