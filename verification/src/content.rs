//! The model shared by the server and the client of a clipboard entry: its
//! kind and texts as character sequences, and what is derived from them.

use vstd::prelude::*;
use vstd::utf8::encode_utf8;

use crate::text::{decimal, decimal_string, is_digit, lemma_decimal_digits, push_char};

verus! {

/// A clipboard entry with its texts as character sequences.
pub enum ContentModel {
    Text(Seq<char>),
    Image { data: Seq<char>, mime_type: Seq<char> },
    File { name: Seq<char>, data: Seq<char>, mime_type: Seq<char> },
}

/// A text as a key field: its length in characters, `:`, the text and `:`.
pub open spec fn field(x: Seq<char>) -> Seq<char> {
    decimal(x.len()) + seq![':'] + x + seq![':']
}

/// Appends `x` to a key as a field.
pub fn append_field(key: &mut String, x: &str)
    ensures
        final(key)@ == old(key)@ + field(x@),
{
    let n = x.unicode_len();
    let digits = decimal_string(n as u64);
    key.append(digits.as_str());
    push_char(key, ':');
    key.append(x);
    push_char(key, ':');
    assert(final(key)@ =~= old(key)@ + field(x@));
}

/// The number of bytes of the UTF-8 encoding of `s`.
pub open spec fn byte_len(s: Seq<char>) -> nat {
    encode_utf8(s).len()
}

impl ContentModel {
    /// The MIME type: `text/plain` for text, the recorded type otherwise.
    pub open spec fn mime(self) -> Seq<char> {
        match self {
            ContentModel::Text(_) => "text/plain"@,
            ContentModel::Image { mime_type, .. } => mime_type,
            ContentModel::File { mime_type, .. } => mime_type,
        }
    }

    /// The payload: the text itself, or the (base64) data of an image or file.
    pub open spec fn payload(self) -> Seq<char> {
        match self {
            ContentModel::Text(text) => text,
            ContentModel::Image { data, .. } => data,
            ContentModel::File { data, .. } => data,
        }
    }

    /// The change-detection key: a kind tag, then every text of the entry,
    /// each but the last written as a length-prefixed field, so that the key
    /// identifies the entry.
    pub open spec fn hash(self) -> Seq<char> {
        match self {
            ContentModel::Text(text) => "text:"@ + text,
            ContentModel::Image { data, mime_type } => "image:"@ + (field(mime_type) + data),
            ContentModel::File { name, data, mime_type } => "file:"@ + (field(name) + (field(
                mime_type,
            ) + data)),
        }
    }

    /// The one-line human-readable description.
    pub open spec fn display(self) -> Seq<char> {
        match self {
            ContentModel::Text(text) => "Text ("@ + decimal(byte_len(text)) + " bytes)"@,
            ContentModel::Image { mime_type, .. } => "Image ("@ + mime_type + ")"@,
            ContentModel::File { name, mime_type, .. } => "File "@ + name + " ("@ + mime_type
                + ")"@,
        }
    }
}

/// Equal text entries have equal keys, and different texts different keys.
pub proof fn text_keys_equal_iff_texts_equal(a: Seq<char>, b: Seq<char>)
    ensures
        ContentModel::Text(a).hash() == ContentModel::Text(b).hash() <==> a == b,
{
    let p = "text:"@;
    if (p + a) == (p + b) {
        assert(a =~= (p + a).subrange(p.len() as int, (p + a).len() as int));
        assert(b =~= (p + b).subrange(p.len() as int, (p + b).len() as int));
    }
}

/// The first character of the key of an entry of each kind.
pub open spec fn kind_tag(c: ContentModel) -> char {
    match c {
        ContentModel::Text(_) => 't',
        ContentModel::Image { .. } => 'i',
        ContentModel::File { .. } => 'f',
    }
}

/// The key of an entry begins with the tag character of its kind.
pub proof fn key_starts_with_kind_tag(c: ContentModel)
    ensures
        c.hash().len() > 0,
        c.hash()[0] == kind_tag(c),
{
    reveal_strlit("text:");
    reveal_strlit("image:");
    reveal_strlit("file:");
}


/// Entries of different kinds never share a key.
pub proof fn different_kinds_have_different_keys(x: ContentModel, y: ContentModel)
    requires
        kind_tag(x) != kind_tag(y),
    ensures
        x.hash() != y.hash(),
{
    key_starts_with_kind_tag(x);
    key_starts_with_kind_tag(y);
}


/// Sequences that agree after a common prefix agree.
pub proof fn lemma_strip_prefix(p: Seq<char>, a: Seq<char>, b: Seq<char>)
    requires
        p + a == p + b,
    ensures
        a == b,
{
    assert(a =~= (p + a).subrange(p.len() as int, (p + a).len() as int));
    assert(b =~= (p + b).subrange(p.len() as int, (p + b).len() as int));
}

/// A key field is read back unambiguously from the front of a sequence: the
/// field's text and what follows it are determined.
pub proof fn lemma_field_unique(x: Seq<char>, r1: Seq<char>, y: Seq<char>, r2: Seq<char>)
    requires
        field(x) + r1 == field(y) + r2,
    ensures
        x == y,
        r1 == r2,
{
    let s = field(x) + r1;
    let a = decimal(x.len());
    let b = decimal(y.len());
    lemma_decimal_digits(x.len());
    lemma_decimal_digits(y.len());
    assert(s[a.len() as int] == ':');
    assert((field(y) + r2)[b.len() as int] == ':');
    if a.len() < b.len() {
        assert(s[a.len() as int] == b[a.len() as int]);
        assert(is_digit(b[a.len() as int]));
        assert(false);
    }
    if b.len() < a.len() {
        assert(s[b.len() as int] == a[b.len() as int]);
        assert(is_digit(a[b.len() as int]));
        assert(false);
    }
    assert(a =~= s.subrange(0, a.len() as int));
    assert(b =~= s.subrange(0, b.len() as int));
    assert(x.len() == y.len());
    let start: int = a.len() as int + 1;
    assert(x =~= s.subrange(start, start + x.len()));
    assert(y =~= s.subrange(start, start + y.len()));
    assert(r1 =~= s.subrange(field(x).len() as int, s.len() as int));
    assert(r2 =~= s.subrange(field(y).len() as int, s.len() as int));
}

/// The key identifies the entry: entries with the same key are the same entry.
pub proof fn key_identifies_entry(c1: ContentModel, c2: ContentModel)
    requires
        c1.hash() == c2.hash(),
    ensures
        c1 == c2,
{
    key_starts_with_kind_tag(c1);
    key_starts_with_kind_tag(c2);
    match (c1, c2) {
        (ContentModel::Text(a), ContentModel::Text(b)) => {
            lemma_strip_prefix("text:"@, a, b);
        },
        (
            ContentModel::Image { data: d1, mime_type: m1 },
            ContentModel::Image { data: d2, mime_type: m2 },
        ) => {
            lemma_strip_prefix("image:"@, field(m1) + d1, field(m2) + d2);
            lemma_field_unique(m1, d1, m2, d2);
        },
        (
            ContentModel::File { name: n1, data: d1, mime_type: m1 },
            ContentModel::File { name: n2, data: d2, mime_type: m2 },
        ) => {
            lemma_strip_prefix("file:"@, field(n1) + (field(m1) + d1), field(n2) + (field(m2) + d2));
            lemma_field_unique(n1, field(m1) + d1, n2, field(m2) + d2);
            lemma_field_unique(m1, d1, m2, d2);
        },
        _ => {},
    }
}

} // verus!
