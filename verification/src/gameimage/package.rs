//! The request that packs projects into the image.
use vstd::prelude::*;
use crate::gameimage::request::in_key_order;
use crate::gameimage::request::Leaf;
use crate::gameimage::request::LeafView;
use crate::gameimage::request::Request;
use crate::gameimage::request::RequestView;
use crate::gameimage::request::field;
use crate::gameimage::request::section_request;
use crate::gameimage::request::field_keys;
use crate::gameimage::request::lemma_keys_sorted_by_first;
use crate::gameimage::request::section_view;
use crate::gameimage::request::strings_view;
use crate::gameimage::request::text_leaf;

verus! {

/// `{"op":"package","package":{"name":<name>,"projects":[..]}}`.
pub open spec fn package_view(name: Seq<char>, projects: Seq<Seq<char>>) -> RequestView {
    section_view(
        "package"@,
        seq![("name"@, LeafView::Text(name)), ("projects"@, LeafView::List(projects))],
        "package"@,
    )
}

/// Packs the given projects into the image called `name`.
pub fn package(name: &str, projects: Vec<String>) -> (r: Request)
    ensures
        in_key_order(r@),
        r@ == package_view(name@, strings_view(projects@)),
{
    let ghost p = projects@;
    let fields = vec![field("name", text_leaf(name)), field("projects", Leaf::List(projects))];
    proof {
        reveal_strlit("name");
        reveal_strlit("projects");
        reveal_strlit("package");
        reveal_strlit("op");
        assert(field_keys(fields@) =~= seq!["name"@, "projects"@]);
        lemma_keys_sorted_by_first(field_keys(fields@));
        assert("package"@.len() != "op"@.len());
    }
    let r = section_request("package", fields, "package");
    assert(r@.section->0.fields =~= package_view(name@, strings_view(p)).section->0.fields);
    r
}

} // verus!
