//! The request that selects the default file of a kind.
use vstd::prelude::*;
use crate::gameimage::request::in_key_order;
use crate::gameimage::request::LeafView;
use crate::gameimage::request::Request;
use crate::gameimage::request::RequestView;
use crate::gameimage::request::field;
use crate::gameimage::request::section_request;
use crate::gameimage::request::field_keys;
use crate::gameimage::request::lemma_keys_sorted_by_first;
use crate::gameimage::request::section_view;
use crate::gameimage::request::text_leaf;

verus! {

/// `{"op":"select","select":{"op":<label>,"path_file_target":<path>}}`.
pub open spec fn select_view(label: Seq<char>, path: Seq<char>) -> RequestView {
    section_view(
        "select"@,
        seq![("op"@, LeafView::Text(label)), ("path_file_target"@, LeafView::Text(path))],
        "select"@,
    )
}

/// Makes the file at `path` the default of kind `str_label`.
pub fn select(str_label: &str, path: &str) -> (r: Request)
    ensures
        in_key_order(r@),
        r@ == select_view(str_label@, path@),
{
    let fields = vec![field("op", text_leaf(str_label)), field("path_file_target", text_leaf(path))];
    proof {
        reveal_strlit("op");
        reveal_strlit("path_file_target");
        reveal_strlit("select");
        assert(field_keys(fields@) =~= seq!["op"@, "path_file_target"@]);
        lemma_keys_sorted_by_first(field_keys(fields@));
        assert("select"@.len() != "op"@.len());
    }
    let r = section_request("select", fields, "select");
    assert(r@.section->0.fields =~= select_view(str_label@, path@).section->0.fields);
    r
}

} // verus!
