//! The JSON requests the wizard sends to the backend. A request is an
//! object with an `op` and, for most operations, a section named after the
//! operation that holds its arguments. `serde_json` writes object keys in
//! sorted order and without spaces; the requests are built so, and each
//! string is quoted by `serde_json`.
use vstd::prelude::*;
use crate::text;
use crate::text::text_le;

verus! {

/// A lowercase hexadecimal digit.
pub open spec fn hex_digit(n: u32) -> char {
    if n < 10 {
        (('0' as u32) + n) as char
    } else {
        (('a' as u32) + n - 10) as char
    }
}

/// How `serde_json` writes a character inside a string: `"` and `\` are
/// escaped with a backslash, backspace, tab, line feed, form feed and
/// carriage return as `\b \t \n \f \r`, the other characters below
/// U+0020 as `\u00` and two lowercase hexadecimal digits; every other
/// character is written as it is.
pub open spec fn json_escape(c: char) -> Seq<char> {
    let v = c as u32;
    if c == '"' {
        seq!['\\', '"']
    } else if c == '\\' {
        seq!['\\', '\\']
    } else if v == 0x08 {
        seq!['\\', 'b']
    } else if v == 0x09 {
        seq!['\\', 't']
    } else if v == 0x0A {
        seq!['\\', 'n']
    } else if v == 0x0C {
        seq!['\\', 'f']
    } else if v == 0x0D {
        seq!['\\', 'r']
    } else if v < 0x20 {
        seq!['\\', 'u', '0', '0', hex_digit(v / 16), hex_digit(v % 16)]
    } else {
        seq![c]
    }
}

/// The characters of a string, each written as `serde_json` writes it.
pub open spec fn json_escaped(s: Seq<char>) -> Seq<char>
    decreases s.len(),
{
    if s.len() == 0 {
        seq![]
    } else {
        json_escaped(s.drop_last()) + json_escape(s.last())
    }
}

/// What `serde_json::to_string` returns for a string: the escaped
/// characters between double quotes.
pub open spec fn json_quoted(s: Seq<char>) -> Seq<char> {
    seq!['"'] + json_escaped(s) + seq!['"']
}

/// `serde_json::to_string` on a string slice: the string between double
/// quotes, each character escaped as `json_escape` says (`format_escaped_str`
/// in `serde_json`'s serializer). Serialising a `str` into a `Vec` does not
/// fail, so the error branch is never taken.
#[verifier::external_body]
pub(crate) fn quote(s: &str) -> (r: String)
    ensures
        r@ == json_quoted(s@),
{
    match serde_json::to_string(s) {
        Ok(t) => t,
        Err(_) => String::new(),
    }
}

/// A value in a request section: a string or a list of strings.
pub enum Leaf {
    Text(String),
    List(Vec<String>),
}

/// The section of a request: its key and its fields, in key order.
pub struct Section {
    pub name: String,
    pub fields: Vec<(String, Leaf)>,
}

/// A request to the backend.
pub struct Request {
    pub section: Option<Section>,
    pub op: String,
}

/// The text of a section value.
pub enum LeafView {
    Text(Seq<char>),
    List(Seq<Seq<char>>),
}

/// The text of a section.
pub struct SectionView {
    pub name: Seq<char>,
    pub fields: Seq<(Seq<char>, LeafView)>,
}

/// The text of a request.
pub struct RequestView {
    pub section: Option<SectionView>,
    pub op: Seq<char>,
}

impl View for Leaf {
    type V = LeafView;

    open spec fn view(&self) -> LeafView {
        match self {
            Leaf::Text(s) => LeafView::Text(s@),
            Leaf::List(v) => LeafView::List(v@.map_values(|s: String| s@)),
        }
    }
}

impl View for Section {
    type V = SectionView;

    open spec fn view(&self) -> SectionView {
        SectionView { name: self.name@, fields: self.fields@.map_values(|p: (String, Leaf)| (p.0@, p.1@)) }
    }
}

impl View for Request {
    type V = RequestView;

    open spec fn view(&self) -> RequestView {
        RequestView {
            section: match self.section {
                Some(sec) => Some(sec@),
                None => None,
            },
            op: self.op@,
        }
    }
}

/// The parts joined by commas.
pub open spec fn joined(parts: Seq<Seq<char>>) -> Seq<char>
    decreases parts.len(),
{
    if parts.len() == 0 {
        seq![]
    } else if parts.len() == 1 {
        parts[0]
    } else {
        joined(parts.drop_last()) + ","@ + parts.last()
    }
}

/// The JSON text of a list of strings.
pub open spec fn list_text(v: Seq<Seq<char>>) -> Seq<char> {
    "["@ + joined(v.map_values(|s: Seq<char>| json_quoted(s))) + "]"@
}

/// The JSON text of a section value.
pub open spec fn leaf_text(l: LeafView) -> Seq<char> {
    match l {
        LeafView::Text(s) => json_quoted(s),
        LeafView::List(v) => list_text(v),
    }
}

/// The JSON text of one object member.
pub open spec fn member_text(key: Seq<char>, value: Seq<char>) -> Seq<char> {
    json_quoted(key) + ":"@ + value
}

/// The JSON text of a section's fields, as an object.
pub open spec fn fields_text(f: Seq<(Seq<char>, LeafView)>) -> Seq<char> {
    "{"@ + joined(f.map_values(|p: (Seq<char>, LeafView)| member_text(p.0, leaf_text(p.1)))) + "}"@
}

/// The JSON text of a request: its members in key order, the section
/// before `op` when its name sorts first.
pub open spec fn request_text(r: RequestView) -> Seq<char> {
    match r.section {
        Some(sec) => if text_le(sec.name, "op"@) {
            "{"@ + member_text(sec.name, fields_text(sec.fields)) + ","@ + member_text("op"@, json_quoted(r.op)) + "}"@
        } else {
            "{"@ + member_text("op"@, json_quoted(r.op)) + ","@ + member_text(sec.name, fields_text(sec.fields)) + "}"@
        },
        None => "{"@ + member_text("op"@, json_quoted(r.op)) + "}"@,
    }
}

/// Joins the parts with commas.
pub fn join_parts(parts: &Vec<String>) -> (r: String)
    ensures
        r@ == joined(parts@.map_values(|s: String| s@)),
{
    let ghost w = parts@.map_values(|s: String| s@);
    let n = parts.len();
    let mut acc = String::new();
    let mut i: usize = 0;
    while i < n
        invariant
            n == parts@.len(),
            w == parts@.map_values(|s: String| s@),
            i <= n,
            acc@ == joined(w.take(i as int)),
        decreases n - i,
    {
        proof {
            assert(w.take(i + 1).drop_last() =~= w.take(i as int));
            assert(w.take(i + 1).last() == parts@[i as int]@);
        }
        if i > 0 {
            acc.append(",");
        }
        acc.append(parts[i].as_str());
        proof {
            if i == 0 {
                assert(w.take(1) =~= seq![w[0]]);
                assert(acc@ =~= joined(w.take(1)));
            } else {
                assert(acc@ =~= joined(w.take(i + 1)));
            }
        }
        i = i + 1;
    }
    assert(w.take(n as int) =~= w);
    acc
}

/// Quotes a string and puts it after a quoted key and a colon.
fn member(key: &str, value: &str) -> (r: String)
    ensures
        r@ == member_text(key@, value@),
{
    let mut s = quote(key);
    s.append(":");
    s.append(value);
    s
}

/// The JSON text of a list of strings.
pub fn encode_list(v: &Vec<String>) -> (r: String)
    ensures
        r@ == list_text(v@.map_values(|s: String| s@)),
{
    let ghost target = v@.map_values(|s: String| s@).map_values(|s: Seq<char>| json_quoted(s));
    let mut parts: Vec<String> = Vec::new();
    let n = v.len();
    let mut i: usize = 0;
    while i < n
        invariant
            n == v@.len(),
            i <= n,
            parts@.len() == i,
            target == v@.map_values(|s: String| s@).map_values(|s: Seq<char>| json_quoted(s)),
            forall|k: int| 0 <= k < i ==> #[trigger] parts@[k]@ == target[k],
        decreases n - i,
    {
        parts.push(quote(v[i].as_str()));
        i = i + 1;
    }
    assert(parts@.map_values(|s: String| s@) =~= target);
    let body = join_parts(&parts);
    let mut s = String::from_str("[");
    s.append(body.as_str());
    s.append("]");
    s
}

/// The JSON text of a section value.
pub fn encode_leaf(l: &Leaf) -> (r: String)
    ensures
        r@ == leaf_text(l@),
{
    match l {
        Leaf::Text(s) => quote(s.as_str()),
        Leaf::List(v) => encode_list(v),
    }
}

/// The JSON text of a section's fields.
pub fn encode_fields(f: &Vec<(String, Leaf)>) -> (r: String)
    ensures
        r@ == fields_text(f@.map_values(|p: (String, Leaf)| (p.0@, p.1@))),
{
    let ghost target = f@.map_values(|p: (String, Leaf)| (p.0@, p.1@)).map_values(
        |p: (Seq<char>, LeafView)| member_text(p.0, leaf_text(p.1)),
    );
    let mut parts: Vec<String> = Vec::new();
    let n = f.len();
    let mut i: usize = 0;
    while i < n
        invariant
            n == f@.len(),
            i <= n,
            parts@.len() == i,
            target == f@.map_values(|p: (String, Leaf)| (p.0@, p.1@)).map_values(
                |p: (Seq<char>, LeafView)| member_text(p.0, leaf_text(p.1)),
            ),
            forall|k: int| 0 <= k < i ==> #[trigger] parts@[k]@ == target[k],
        decreases n - i,
    {
        let value = encode_leaf(&f[i].1);
        parts.push(member(f[i].0.as_str(), value.as_str()));
        i = i + 1;
    }
    assert(parts@.map_values(|s: String| s@) =~= target);
    let body = join_parts(&parts);
    let mut s = String::from_str("{");
    s.append(body.as_str());
    s.append("}");
    s
}

impl Request {
    /// The JSON text of the request, as the backend reads it. The request
    /// must have its members in key order, as every builder gives them.
    pub fn encode(&self) -> (r: String)
        requires
            in_key_order(self@),
        ensures
            r@ == request_text(self@),
    {
        let op = quote(self.op.as_str());
        let op_member = member("op", op.as_str());
        let mut s = String::from_str("{");
        match &self.section {
            Some(sec) => {
                let fields = encode_fields(&sec.fields);
                let sec_member = member(sec.name.as_str(), fields.as_str());
                if text::str_le(sec.name.as_str(), "op") {
                    s.append(sec_member.as_str());
                    s.append(",");
                    s.append(op_member.as_str());
                } else {
                    s.append(op_member.as_str());
                    s.append(",");
                    s.append(sec_member.as_str());
                }
            },
            None => {
                s.append(op_member.as_str());
            },
        }
        s.append("}");
        s
    }
}

/// A text value.
pub fn text_leaf(s: &str) -> (r: Leaf)
    ensures
        r@ == LeafView::Text(s@),
{
    Leaf::Text(String::from_str(s))
}

/// A field of a section.
pub fn field(key: &str, value: Leaf) -> (r: (String, Leaf))
    ensures
        r.0@ == key@,
        r.1@ == value@,
{
    (String::from_str(key), value)
}

/// The texts of a list of strings.
pub open spec fn strings_view(v: Seq<String>) -> Seq<Seq<char>> {
    v.map_values(|s: String| s@)
}

/// A request with a section.
pub open spec fn section_view(name: Seq<char>, fields: Seq<(Seq<char>, LeafView)>, op: Seq<char>) -> RequestView {
    RequestView { section: Some(SectionView { name, fields }), op }
}

/// The keys of a section's fields, in order.
pub open spec fn field_keys(f: Seq<(String, Leaf)>) -> Seq<Seq<char>> {
    f.map_values(|p: (String, Leaf)| p.0@)
}

/// The keys are in strictly increasing `str` order, the order in which
/// `serde_json` writes the keys of an object.
pub open spec fn keys_sorted(keys: Seq<Seq<char>>) -> bool {
    forall|i: int, j: int| 0 <= i < j < keys.len() ==> text_le(#[trigger] keys[i], #[trigger] keys[j]) && keys[i] != keys[j]
}

/// The members of a request are written in key order: the keys of its
/// section are sorted and the section is not named `op`. Only then is the
/// text of the request the text `serde_json` writes for it.
pub open spec fn in_key_order(r: RequestView) -> bool {
    match r.section {
        Some(sec) => keys_sorted(sec.fields.map_values(|p: (Seq<char>, LeafView)| p.0)) && sec.name != "op"@,
        None => true,
    }
}

/// Keys whose first characters increase are sorted.
pub proof fn lemma_keys_sorted_by_first(keys: Seq<Seq<char>>)
    requires
        forall|i: int| 0 <= i < keys.len() ==> #[trigger] keys[i].len() > 0,
        forall|i: int| 0 <= i < keys.len() - 1 ==> (keys[i][0] as u32) < (#[trigger] keys[i + 1][0] as u32),
    ensures
        keys_sorted(keys),
{
    assert forall|i: int, j: int| 0 <= i < j < keys.len() implies text_le(#[trigger] keys[i], #[trigger] keys[j])
        && keys[i] != keys[j] by {
        lemma_first_increasing(keys, i, j);
    }
}

/// First characters that increase from one key to the next increase along
/// the whole sequence.
proof fn lemma_first_increasing(keys: Seq<Seq<char>>, i: int, j: int)
    requires
        0 <= i < j < keys.len(),
        forall|k: int| 0 <= k < keys.len() ==> #[trigger] keys[k].len() > 0,
        forall|k: int| 0 <= k < keys.len() - 1 ==> (keys[k][0] as u32) < (#[trigger] keys[k + 1][0] as u32),
    ensures
        (keys[i][0] as u32) < (keys[j][0] as u32),
    decreases j - i,
{
    if j > i + 1 {
        lemma_first_increasing(keys, i, j - 1);
        assert((keys[j - 1][0] as u32) < (keys[(j - 1) + 1][0] as u32));
    } else {
        assert((keys[i][0] as u32) < (keys[i + 1][0] as u32));
    }
}

/// Builds a request with a section. The fields must be given in key order.
pub fn section_request(name: &str, fields: Vec<(String, Leaf)>, op: &str) -> (r: Request)
    requires
        keys_sorted(field_keys(fields@)),
        name@ != "op"@,
    ensures
        in_key_order(r@),
        r@ == section_view(name@, fields@.map_values(|p: (String, Leaf)| (p.0@, p.1@)), op@),
{
    let r = Request { section: Some(Section { name: String::from_str(name), fields }), op: String::from_str(op) };
    assert(r@.section->0.fields.map_values(|p: (Seq<char>, LeafView)| p.0) =~= field_keys(fields@));
    r
}

} // verus!
