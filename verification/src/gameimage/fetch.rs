//! Requests about the layers the backend fetches.
use vstd::prelude::*;
use crate::gameimage::request::in_key_order;
use crate::common::Platform;
use crate::common::platform_name;
use crate::common::platform_named;
use crate::error::WizardError;
use crate::gameimage::request::LeafView;
use crate::gameimage::request::Request;
use crate::gameimage::request::RequestView;
use crate::gameimage::request::field;
use crate::gameimage::request::section_request;
use crate::gameimage::request::field_keys;
use crate::gameimage::request::lemma_keys_sorted_by_first;
use crate::gameimage::request::section_view;
use crate::gameimage::request::text_leaf;

verus! {

/// `{"fetch":{"op":<op>},"op":"fetch"}`.
pub open spec fn fetch_op_view(op: Seq<char>) -> RequestView {
    section_view("fetch"@, seq![("op"@, LeafView::Text(op))], "fetch"@)
}

/// `{"fetch":{"op":"fetch","platform":<name>},"op":"fetch"}`.
pub open spec fn fetch_view(platform: Platform) -> RequestView {
    section_view(
        "fetch"@,
        seq![("op"@, LeafView::Text("fetch"@)), ("platform"@, LeafView::Text(platform_name(platform)))],
        "fetch"@,
    )
}

fn fetch_op(op: &str) -> (r: Request)
    ensures
        in_key_order(r@),
        r@ == fetch_op_view(op@),
{
    let fields = vec![field("op", text_leaf(op))];
    proof {
        reveal_strlit("op");
        reveal_strlit("fetch");
        assert(field_keys(fields@) =~= seq!["op"@]);
        lemma_keys_sorted_by_first(field_keys(fields@));
        assert("fetch"@.len() != "op"@.len());
    }
    let r = section_request("fetch", fields, "fetch");
    assert(r@.section->0.fields =~= fetch_op_view(op@).section->0.fields);
    r
}

/// Fetches the layer of `platform`; the backend reports progress while it
/// runs.
pub fn fetch(platform: Platform) -> (r: Request)
    ensures
        in_key_order(r@),
        r@ == fetch_view(platform),
{
    let fields = vec![field("op", text_leaf("fetch")), field("platform", text_leaf(platform.as_str()))];
    proof {
        reveal_strlit("op");
        reveal_strlit("platform");
        reveal_strlit("fetch");
        assert(field_keys(fields@) =~= seq!["op"@, "platform"@]);
        lemma_keys_sorted_by_first(field_keys(fields@));
        assert("fetch"@.len() != "op"@.len());
    }
    let r = section_request("fetch", fields, "fetch");
    assert(r@.section->0.fields =~= fetch_view(platform).section->0.fields);
    r
}

/// The outcome of a fetch: 0 on success, else the backend's code as an
/// error.
pub fn fetch_result(code: i32) -> (r: Result<i32, WizardError>)
    ensures
        code == 0 ==> r == Ok::<i32, WizardError>(0),
        code != 0 ==> r == Err::<i32, WizardError>(WizardError::BackendFailed { code }),
{
    if code == 0 {
        Ok(0)
    } else {
        Err(WizardError::BackendFailed { code })
    }
}

/// Asks which platforms are installed; the backend answers one platform
/// name per message.
pub fn installed() -> (r: Request)
    ensures
        in_key_order(r@),
        r@ == fetch_op_view("installed"@),
{
    fetch_op("installed")
}

/// Asks the backend to refresh the list of sources.
pub fn sources() -> (r: Request)
    ensures
        in_key_order(r@),
        r@ == fetch_op_view("sources"@),
{
    fetch_op("sources")
}

/// The platforms named by the messages, in order; messages that name no
/// platform are skipped.
pub open spec fn platforms_of(msgs: Seq<Seq<char>>) -> Seq<Platform>
    decreases msgs.len(),
{
    if msgs.len() == 0 {
        seq![]
    } else {
        match platform_named(msgs.last()) {
            Some(p) => platforms_of(msgs.drop_last()).push(p),
            None => platforms_of(msgs.drop_last()),
        }
    }
}

/// The installed platforms, from the backend's messages.
pub fn installed_platforms(msgs: &Vec<String>) -> (r: Vec<Platform>)
    ensures
        r@ == platforms_of(msgs@.map_values(|s: String| s@)),
{
    let ghost w = msgs@.map_values(|s: String| s@);
    let n = msgs.len();
    let mut r: Vec<Platform> = Vec::new();
    let mut i: usize = 0;
    while i < n
        invariant
            n == msgs@.len(),
            w == msgs@.map_values(|s: String| s@),
            i <= n,
            r@ == platforms_of(w.take(i as int)),
        decreases n - i,
    {
        proof {
            assert(w.take(i + 1).drop_last() =~= w.take(i as int));
            assert(w.take(i + 1).last() == msgs@[i as int]@);
        }
        match Platform::from_str(msgs[i].as_str()) {
            Some(p) => r.push(p),
            None => {},
        }
        i = i + 1;
    }
    assert(w.take(n as int) =~= w);
    r
}

} // verus!
