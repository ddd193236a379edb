//! Requests that create the build directory and projects.
use vstd::prelude::*;
use crate::gameimage::request::in_key_order;
use crate::gameimage::request::LeafView;
use crate::gameimage::request::Request;
use crate::gameimage::request::RequestView;
use crate::gameimage::request::field;
use crate::gameimage::request::section_request;
use crate::gameimage::request::field_keys;
use crate::gameimage::request::lemma_keys_sorted_by_first;
use crate::gameimage::request::section_view;
use crate::gameimage::request::text_leaf;

verus! {

/// `{"init":{"op":"build","path_dir_build":<path>},"op":"init"}`.
pub open spec fn build_view(path: Seq<char>) -> RequestView {
    section_view(
        "init"@,
        seq![("op"@, LeafView::Text("build"@)), ("path_dir_build"@, LeafView::Text(path))],
        "init"@,
    )
}

/// `{"init":{"name":<name>,"op":"project","platform":<platform>},"op":"init"}`.
pub open spec fn project_view(name: Seq<char>, platform: Seq<char>) -> RequestView {
    section_view(
        "init"@,
        seq![("name"@, LeafView::Text(name)), ("op"@, LeafView::Text("project"@)), ("platform"@, LeafView::Text(platform))],
        "init"@,
    )
}

/// Initialises the build directory at `path_dir_build`.
pub fn build(path_dir_build: &str) -> (r: Request)
    ensures
        in_key_order(r@),
        r@ == build_view(path_dir_build@),
{
    let fields = vec![field("op", text_leaf("build")), field("path_dir_build", text_leaf(path_dir_build))];
    proof {
        reveal_strlit("op");
        reveal_strlit("path_dir_build");
        reveal_strlit("init");
        assert(field_keys(fields@) =~= seq!["op"@, "path_dir_build"@]);
        lemma_keys_sorted_by_first(field_keys(fields@));
        assert("init"@.len() != "op"@.len());
    }
    let r = section_request("init", fields, "init");
    assert(r@.section->0.fields =~= build_view(path_dir_build@).section->0.fields);
    r
}

/// Creates the project `name` for `platform`.
pub fn project(name: &str, platform: &str) -> (r: Request)
    ensures
        in_key_order(r@),
        r@ == project_view(name@, platform@),
{
    let fields = vec![field("name", text_leaf(name)), field("op", text_leaf("project")), field("platform", text_leaf(platform))];
    proof {
        reveal_strlit("name");
        reveal_strlit("op");
        reveal_strlit("platform");
        reveal_strlit("init");
        assert(field_keys(fields@) =~= seq!["name"@, "op"@, "platform"@]);
        lemma_keys_sorted_by_first(field_keys(fields@));
        assert("init"@.len() != "op"@.len());
    }
    let r = section_request("init", fields, "init");
    assert(r@.section->0.fields =~= project_view(name@, platform@).section->0.fields);
    r
}

} // verus!
