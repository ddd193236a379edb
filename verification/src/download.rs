//! Downloads of layers: the checksum file kept beside a download, its
//! verification, and the checks made on a finished transfer.
use vstd::prelude::*;
use vstd::utf8::valid_utf8;
use vstd::utf8::decode_utf8;
use vstd::utf8::encode_utf8;
use vstd::utf8::encode_scalar;
use vstd::utf8::has_width_1_encoding;
use vstd::utf8::is_ascii_chars;
use vstd::utf8::is_scalar;
use crate::error::WizardError;
use crate::path;
use crate::path::path_extension;
use crate::path::path_parent;
use crate::path::path_with_extension;
use crate::text;

verus! {

/// What `sha256::digest` returns for some bytes: the SHA-256 digest in
/// lowercase hexadecimal.
pub uninterp spec fn sha256_hex(data: Seq<u8>) -> Seq<char>;

/// Every character is a lowercase hexadecimal digit.
pub open spec fn is_lower_hex(s: Seq<char>) -> bool {
    forall|i: int| 0 <= i < s.len() ==> ('0' <= #[trigger] s[i] <= '9' || 'a' <= s[i] <= 'f')
}

/// `sha256::digest` on bytes. The digest is named, not stated; its text is
/// the 32 bytes of the digest in lowercase hexadecimal (`hex::encode`), 64
/// characters.
#[verifier::external_body]
fn digest(data: &[u8]) -> (r: String)
    ensures
        r@ == sha256_hex(data@),
        r@.len() == 64,
        is_lower_hex(r@),
{
    sha256::digest(data)
}

/// The extension of the checksum file of a file with extension `ext`:
/// `<ext>.sha256sum`, or `sha256sum` when the file has none.
pub open spec fn sha_extension_of(ext: Option<Seq<char>>) -> Seq<char> {
    match ext {
        Some(e) => if e.len() > 0 {
            e + "."@ + "sha256sum"@
        } else {
            "sha256sum"@
        },
        None => "sha256sum"@,
    }
}

/// No character of a text is the separator `/`.
pub open spec fn no_separator(s: Seq<char>) -> bool {
    forall|i: int| 0 <= i < s.len() ==> #[trigger] s[i] != '/'
}

/// The extension of the checksum file of a file with extension `ext`.
pub fn sha_extension(ext: Option<String>) -> (r: String)
    ensures
        r@ == sha_extension_of(match ext {
            Some(e) => Some(e@),
            None => None,
        }),
        (ext matches Some(e) ==> no_separator(e@)) ==> no_separator(r@),
{
    proof {
        reveal_strlit(".");
        reveal_strlit("sha256sum");
    }
    let mut e = match ext {
        Some(e) => e,
        None => String::new(),
    };
    if !e.as_str().is_empty() {
        e.append(".");
    }
    e.append("sha256sum");
    e
}

/// The checksum file kept beside a download: the file with its extension
/// replaced as `sha_extension_of` says.
pub fn sha_path(path_file_dest: &str) -> (r: String)
    ensures
        r@ == path_with_extension(path_file_dest@, sha_extension_of(path_extension(path_file_dest@))),
{
    let ext = path::extension(path_file_dest);
    let e = sha_extension(ext);
    assert(no_separator(e@));
    path::with_extension(path_file_dest, e.as_str())
}

/// What `sha_verify` accepts: the reference bytes are UTF-8 text equal to
/// the file's digest, 64 lowercase hexadecimal characters.
pub open spec fn sha_accepts(reference: Seq<u8>, target: Seq<u8>) -> bool {
    &&& valid_utf8(reference)
    &&& decode_utf8(reference) == sha256_hex(target)
    &&& decode_utf8(reference).len() == 64
    &&& is_lower_hex(decode_utf8(reference))
}

/// Verifies a file against its checksum file: `reference` holds the first
/// 64 bytes of the checksum file, `target` the file's bytes. The reference
/// must be UTF-8 and equal the file's digest.
pub fn sha_verify(reference: &[u8], target: &[u8]) -> (r: Result<(), WizardError>)
    ensures
        r is Ok <==> sha_accepts(reference@, target@),
        !valid_utf8(reference@) ==> r == Err::<(), WizardError>(WizardError::InvalidUtf8),
        valid_utf8(reference@) && decode_utf8(reference@) == sha256_hex(target@) ==> r is Ok,
        valid_utf8(reference@) && decode_utf8(reference@) != sha256_hex(target@) ==> (r matches Err(
            WizardError::ShaMismatch { expected, got },
        ) && expected@ == decode_utf8(reference@) && got@ == sha256_hex(target@)),
        valid_utf8(reference@) ==> sha256_hex(target@).len() == 64 && is_lower_hex(sha256_hex(target@)),
{
    let expected = match text::from_utf8(reference) {
        Some(s) => s,
        None => return Err(WizardError::InvalidUtf8),
    };
    let got = digest(target);
    if text::str_equal(got.as_str(), expected.as_str()) {
        Ok(())
    } else {
        Err(WizardError::ShaMismatch { expected, got })
    }
}

/// Checks a finished transfer: the fetched file against the fetched checksum
/// file (`reference` holds its first 64 bytes), then the status of every
/// part. The checksum's error comes first.
pub fn verify_transfer(reference: &[u8], target: &[u8], status: &Vec<(String, u16)>) -> (r: Result<(), WizardError>)
    ensures
        r is Ok <==> sha_accepts(reference@, target@) && forall|i: int| 0 <= i < status@.len() ==> #[trigger] status@[i].1 == 200,
        !valid_utf8(reference@) ==> r == Err::<(), WizardError>(WizardError::InvalidUtf8),
        valid_utf8(reference@) && decode_utf8(reference@) != sha256_hex(target@) ==> (r matches Err(
            WizardError::ShaMismatch { expected, got },
        ) && expected@ == decode_utf8(reference@) && got@ == sha256_hex(target@)),
        sha_accepts(reference@, target@) ==> (r matches Err(e) ==> exists|i: int|
            0 <= i < status@.len() && status@[i].1 != 200 && (forall|j: int| 0 <= j < i ==> #[trigger] status@[j].1 == 200)
                && e == (WizardError::ConnectionError { status: status@[i].1 })),
{
    match sha_verify(reference, target) {
        Ok(()) => {},
        Err(e) => return Err(e),
    }
    check_status(status)
}

/// The directory a file is downloaded into: its parent directory.
pub fn download_dir(path_file_dest: &str) -> (r: Result<String, WizardError>)
    ensures
        match path_parent(path_file_dest@) {
            Some(p) => (r matches Ok(s) && s@ == p),
            None => r == Err::<String, WizardError>(WizardError::NoParentDir),
        },
{
    match path::parent(path_file_dest) {
        Some(p) => Ok(p),
        None => Err(WizardError::NoParentDir),
    }
}

/// The address of the checksum of a download: its address followed by
/// `.sha256sum`.
pub fn sha_url(url: &str) -> (r: String)
    ensures
        r@ == url@ + ".sha256sum"@,
{
    text::concat(url, ".sha256sum")
}

/// A transfer succeeded when every part was answered with status 200;
/// otherwise the first other status is the error.
pub fn check_status(status: &Vec<(String, u16)>) -> (r: Result<(), WizardError>)
    ensures
        (forall|i: int| 0 <= i < status@.len() ==> #[trigger] status@[i].1 == 200) ==> r is Ok,
        r matches Err(e) ==> exists|i: int|
            0 <= i < status@.len() && status@[i].1 != 200 && (forall|j: int| 0 <= j < i ==> #[trigger] status@[j].1 == 200)
                && e == (WizardError::ConnectionError { status: status@[i].1 }),
        r is Ok ==> forall|i: int| 0 <= i < status@.len() ==> #[trigger] status@[i].1 == 200,
{
    let n = status.len();
    let mut i: usize = 0;
    while i < n
        invariant
            n == status@.len(),
            i <= n,
            forall|j: int| 0 <= j < i ==> #[trigger] status@[j].1 == 200,
        decreases n - i,
    {
        let code = status[i].1;
        if code != 200 {
            return Err(WizardError::ConnectionError { status: code });
        }
        i = i + 1;
    }
    Ok(())
}

/// Whether a transfer's progress is reported: at most once a second, so
/// when at least 1000 milliseconds passed since the last report.
pub fn progress_due(elapsed_ms: u128) -> (r: bool)
    ensures
        r == (elapsed_ms >= 1000),
{
    elapsed_ms >= 1000
}

/// The size a transfer's progress is measured against: the size announced
/// by the server, 0 when none was.
pub fn progress_total(max_progress: Option<u64>) -> (r: u64)
    ensures
        r == match max_progress {
            Some(b) => b,
            None => 0,
        },
{
    match max_progress {
        Some(b) => b,
        None => 0,
    }
}

/// The text of a checksum file up to its first space: the digest.
pub open spec fn first_field(s: Seq<char>) -> Seq<char>
    decreases s.len(),
{
    if s.len() == 0 {
        seq![]
    } else if s[0] == ' ' {
        seq![]
    } else {
        seq![s[0]] + first_field(s.drop_first())
    }
}

/// The checksum file written beside a finished download: the digest read
/// from the downloaded checksum file, a space and the file's path.
pub fn sha_file_content(sha_text: &str, path_file_dest: &str) -> (r: String)
    ensures
        r@ == first_field(sha_text@) + " "@ + path_file_dest@,
{
    let v = text::chars_of(sha_text);
    let n = v.len();
    let mut out: Vec<char> = Vec::new();
    let mut i: usize = 0;
    assert(v@.take(0) + first_field(v@.skip(0)) =~= first_field(v@)) by {
        assert(v@.skip(0) =~= v@);
    }
    while i < n && v[i] != ' '
        invariant
            n == v@.len(),
            v@ == sha_text@,
            i <= n,
            out@ == v@.take(i as int),
            first_field(v@) == v@.take(i as int) + first_field(v@.skip(i as int)),
        decreases n - i,
    {
        proof {
            let rest = v@.skip(i as int);
            assert(rest[0] == v@[i as int]);
            assert(rest.drop_first() =~= v@.skip(i + 1));
            assert(v@.take(i + 1) =~= v@.take(i as int) + seq![v@[i as int]]);
        }
        out.push(v[i]);
        i = i + 1;
    }
    proof {
        if i < n {
            assert(v@.skip(i as int)[0] == ' ');
        } else {
            assert(v@.skip(i as int).len() == 0);
        }
        assert(first_field(v@) =~= v@.take(i as int));
    }
    let mut s = text::string_of(out.as_slice());
    s.append(" ");
    s.append(path_file_dest);
    s
}

/// The digest read from a checksum file holds no space.
proof fn lemma_first_field_no_space(s: Seq<char>)
    ensures
        forall|i: int| 0 <= i < first_field(s).len() ==> #[trigger] first_field(s)[i] != ' ',
        first_field(s).is_prefix_of(s),
    decreases s.len(),
{
    if s.len() > 0 && s[0] != ' ' {
        lemma_first_field_no_space(s.drop_first());
        let r = first_field(s.drop_first());
        assert(first_field(s) == seq![s[0]] + r);
        assert forall|i: int| 0 <= i < first_field(s).len() implies #[trigger] first_field(s)[i] != ' ' by {
            if i > 0 {
                assert(first_field(s)[i] == r[i - 1]);
            }
        }
        assert forall|i: int| 0 <= i < first_field(s).len() implies #[trigger] first_field(s)[i] == s[i] by {
            if i > 0 {
                assert(first_field(s)[i] == r[i - 1]);
                assert(r[i - 1] == s.drop_first()[i - 1]);
            }
        }
    }
}

/// The first field of a text made of a word without spaces, a space and
/// anything after is the word.
proof fn lemma_first_field_of_word(w: Seq<char>, rest: Seq<char>)
    requires
        forall|i: int| 0 <= i < w.len() ==> #[trigger] w[i] != ' ',
    ensures
        first_field(w + " "@ + rest) == w,
    decreases w.len(),
{
    reveal_strlit(" ");
    let t = w + " "@ + rest;
    if w.len() == 0 {
        assert(t[0] == ' ');
    } else {
        assert(t[0] == w[0]);
        assert(t.drop_first() =~= w.drop_first() + " "@ + rest);
        lemma_first_field_of_word(w.drop_first(), rest);
        assert(seq![w[0]] + w.drop_first() =~= w);
    }
}

/// Rewriting a checksum file for the downloaded file's new path keeps the
/// digest: reading the rewritten file's first field gives the digest read
/// from the downloaded checksum file.
pub proof fn law_sha_file_keeps_digest(sha_text: Seq<char>, path_file_dest: Seq<char>)
    ensures
        first_field(first_field(sha_text) + " "@ + path_file_dest) == first_field(sha_text),
{
    lemma_first_field_no_space(sha_text);
    lemma_first_field_of_word(first_field(sha_text), path_file_dest);
}

/// The UTF-8 encoding of two texts one after the other is the encodings one
/// after the other.
proof fn lemma_encode_concat(a: Seq<char>, b: Seq<char>)
    ensures
        encode_utf8(a + b) == encode_utf8(a) + encode_utf8(b),
    decreases a.len(),
{
    if a.len() > 0 {
        lemma_encode_concat(a.drop_first(), b);
        assert((a + b).drop_first() =~= a.drop_first() + b);
        assert((a + b)[0] == a[0]);
    } else {
        assert(a + b =~= b);
    }
}

/// A character that is not ASCII is encoded with a first byte of at least
/// `0xC0`.
proof fn lemma_leading_byte_high(c: u32)
    requires
        is_scalar(c),
        !has_width_1_encoding(c),
    ensures
        encode_scalar(c)[0] >= 0xC0,
{
    let y2 = ((c >> 6u32) & 0x1Fu32) as u8;
    let y3 = ((c >> 12u32) & 0x0Fu32) as u8;
    let y4 = ((c >> 18u32) & 0x7u32) as u8;
    assert(0xC0u8 | y2 >= 0xC0u8) by (bit_vector);
    assert(0xE0u8 | y3 >= 0xC0u8) by (bit_vector);
    assert(0xF0u8 | y4 >= 0xC0u8) by (bit_vector);
}

/// An ASCII character is encoded as the one byte of its code.
proof fn lemma_ascii_byte(c: u32, d: u32)
    requires
        c <= 0x7F,
        d <= 0x7F,
        (c & 0x7F) as u8 == (d & 0x7F) as u8,
    ensures
        c == d,
{
    assert(c <= 0x7F && d <= 0x7F && (c & 0x7F) as u8 == (d & 0x7F) as u8 ==> c == d) by (bit_vector);
}

/// When the encoding of an ASCII text begins the encoding of another text,
/// the ASCII text begins the other text.
proof fn lemma_ascii_prefix(s: Seq<char>, h: Seq<char>)
    requires
        is_ascii_chars(h),
        encode_utf8(h).is_prefix_of(encode_utf8(s)),
    ensures
        h.is_prefix_of(s),
    decreases h.len(),
{
    if h.len() > 0 {
        let eh = encode_utf8(h);
        let es = encode_utf8(s);
        let h0 = h[0] as u32;
        assert(h0 <= 0x7F);
        assert(eh[0] == (h0 & 0x7F) as u8);
        assert(((h0 & 0x7Fu32) as u8) < 0x80u8) by (bit_vector);
        if s.len() == 0 {
            assert(es.len() == 0);
            assert(false);
        }
        let s0 = s[0] as u32;
        vstd::utf8::char_is_scalar(s[0]);
        if !has_width_1_encoding(s0) {
            lemma_leading_byte_high(s0);
            assert(es[0] == encode_scalar(s0)[0]);
            assert(eh[0] < 0x80);
            assert(false);
        }
        assert(es[0] == (s0 & 0x7F) as u8);
        lemma_ascii_byte(s0, h0);
        vstd::utf8::char_u32_cast(s[0], s0);
        vstd::utf8::char_u32_cast(h[0], h0);
        assert(s[0] == h[0]);
        assert(es.drop_first() =~= encode_utf8(s.drop_first()));
        assert(eh.drop_first() =~= encode_utf8(h.drop_first()));
        assert(is_ascii_chars(h.drop_first())) by {
            assert forall|i: int| 0 <= i < h.drop_first().len() implies '\0' <= #[trigger] h.drop_first()[i] <= '\u{7f}' by {
                assert(h.drop_first()[i] == h[i + 1]);
            }
        }
        assert(encode_utf8(h.drop_first()).is_prefix_of(encode_utf8(s.drop_first()))) by {
            assert forall|i: int| 0 <= i < eh.drop_first().len() implies eh.drop_first()[i] == es.drop_first()[i] by {
                assert(eh[i + 1] == es[i + 1]);
            }
        }
        lemma_ascii_prefix(s.drop_first(), h.drop_first());
        assert forall|i: int| 0 <= i < h.len() implies h[i] == s[i] by {
            if i > 0 {
                assert(h.drop_first()[i - 1] == s.drop_first()[i - 1]);
            }
        }
    }
}

/// The first field of a word without spaces followed by more text is the
/// word followed by the first field of the rest.
proof fn lemma_first_field_prefix(w: Seq<char>, rest: Seq<char>)
    requires
        forall|i: int| 0 <= i < w.len() ==> #[trigger] w[i] != ' ',
    ensures
        first_field(w + rest) == w + first_field(rest),
    decreases w.len(),
{
    if w.len() == 0 {
        assert(w + rest =~= rest);
        assert(w + first_field(rest) =~= first_field(rest));
    } else {
        let t = w + rest;
        assert(t[0] == w[0]);
        assert(t.drop_first() =~= w.drop_first() + rest);
        lemma_first_field_prefix(w.drop_first(), rest);
        assert(seq![w[0]] + (w.drop_first() + first_field(rest)) =~= w + first_field(rest));
    }
}

/// A verified download is found again: when the checksum file fetched with
/// a download (its text `sha_text`) verified the fetched file (`sha_verify`
/// accepted its first 64 bytes), the checksum file written beside the file
/// (`sha_file_content`: the digest, a space and the file's path) verifies
/// the same bytes. So the next download of the file finds it verified and
/// fetches nothing.
pub proof fn law_verified_download_found_again(sha_text: Seq<char>, path_file_dest: Seq<char>, target: Seq<u8>)
    requires
        encode_utf8(sha_text).len() >= 64,
        sha_accepts(encode_utf8(sha_text).take(64), target),
    ensures
        encode_utf8(first_field(sha_text) + " "@ + path_file_dest).len() >= 64,
        sha_accepts(encode_utf8(first_field(sha_text) + " "@ + path_file_dest).take(64), target),
{
    broadcast use vstd::utf8::group_utf8_lib;
    let b = encode_utf8(sha_text);
    let h = decode_utf8(b.take(64));
    assert(is_ascii_chars(h)) by {
        assert forall|i: int| 0 <= i < h.len() implies '\0' <= #[trigger] h[i] <= '\u{7f}' by {
            assert('0' <= h[i] <= '9' || 'a' <= h[i] <= 'f');
        }
    }
    vstd::utf8::is_ascii_chars_encode_utf8(h);
    vstd::utf8::decode_utf8_encode_utf8(b.take(64));
    assert(encode_utf8(h) == b.take(64));
    assert(encode_utf8(h).is_prefix_of(b));
    lemma_ascii_prefix(sha_text, h);
    assert(forall|i: int| 0 <= i < h.len() ==> #[trigger] h[i] != ' ') by {
        assert forall|i: int| 0 <= i < h.len() implies #[trigger] h[i] != ' ' by {
            assert('0' <= h[i] <= '9' || 'a' <= h[i] <= 'f');
        }
    }
    let rest = sha_text.skip(64);
    assert(sha_text =~= h + rest);
    lemma_first_field_prefix(h, rest);
    let tail = first_field(rest) + " "@ + path_file_dest;
    let c = first_field(sha_text) + " "@ + path_file_dest;
    assert(c =~= h + tail);
    lemma_encode_concat(h, tail);
    assert(encode_utf8(c).take(64) =~= encode_utf8(h));
    vstd::utf8::encode_utf8_decode_utf8(h);
    vstd::utf8::encode_utf8_valid_utf8(h);
}

} // verus!
