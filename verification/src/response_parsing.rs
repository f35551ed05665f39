//! Charset detection and response decoding.
//!
//! A response body's encoding is chosen in order of confidence: the
//! caller's prior knowledge, the byte-order mark, a prescan of the first
//! kilobyte for `meta` charset declarations, and finally UTF-8.  The
//! detection logic is decided here on plain bytes; the codecs themselves
//! and the HTML parsing of the prescan are outside collaborators behind
//! named results.

use vstd::prelude::*;

verus! {

/// A byte-order mark a response body can start with.
#[derive(PartialEq, Eq, Structural, Debug, Clone, Copy)]
pub enum ByteOrderMark {
    Utf8,
    Utf16Be,
    Utf16Le,
}

/// What BOM sniffing finds: one of the three byte-order marks at the very
/// start of a body of at least three bytes, else nothing.
pub open spec fn spec_bom(bytes: Seq<u8>) -> Option<ByteOrderMark> {
    if bytes.len() < 3 {
        None
    } else if bytes[0] == 0xef && bytes[1] == 0xbb && bytes[2] == 0xbf {
        Some(ByteOrderMark::Utf8)
    } else if bytes[0] == 0xfe && bytes[1] == 0xff {
        Some(ByteOrderMark::Utf16Be)
    } else if bytes[0] == 0xff && bytes[1] == 0xfe {
        Some(ByteOrderMark::Utf16Le)
    } else {
        None
    }
}

/// Detects the encoding of a body from its byte-order mark.
pub fn bom_sniffing(bytes: &Vec<u8>) -> (r: Option<ByteOrderMark>)
    ensures
        r == spec_bom(bytes@),
{
    if bytes.len() < 3 {
        return None;
    }
    if bytes[0] == 0xef && bytes[1] == 0xbb && bytes[2] == 0xbf {
        Some(ByteOrderMark::Utf8)
    } else if bytes[0] == 0xfe && bytes[1] == 0xff {
        Some(ByteOrderMark::Utf16Be)
    } else if bytes[0] == 0xff && bytes[1] == 0xfe {
        Some(ByteOrderMark::Utf16Le)
    } else {
        None
    }
}

/// The WHATWG label of a byte-order mark's encoding.
pub open spec fn bom_label_spec(b: ByteOrderMark) -> Seq<char> {
    match b {
        ByteOrderMark::Utf8 => "utf-8"@,
        ByteOrderMark::Utf16Be => "utf-16be"@,
        ByteOrderMark::Utf16Le => "utf-16le"@,
    }
}

/// Hands back the WHATWG label of a byte-order mark's encoding.
pub fn bom_label(b: ByteOrderMark) -> (r: String)
    ensures
        r@ == bom_label_spec(b),
{
    match b {
        ByteOrderMark::Utf8 => String::from_str("utf-8"),
        ByteOrderMark::Utf16Be => String::from_str("utf-16be"),
        ByteOrderMark::Utf16Le => String::from_str("utf-16le"),
    }
}

/// A lossy ASCII reading of bytes: each byte below 128 is its character,
/// every other byte the replacement character.
pub open spec fn ascii_lossy_spec(bytes: Seq<u8>) -> Seq<char> {
    bytes.map_values(
        |b: u8|
            if b < 0x80 {
                b as char
            } else {
                '\u{fffd}'
            },
    )
}

/// Relies on `String::push`: appends one character.
#[verifier::external_body]
fn push_char(s: &mut String, c: char)
    ensures
        final(s)@ == old(s)@.push(c),
{
    s.push(c);
}

/// Reads the first `limit` bytes as ASCII, replacing every byte above 127
/// with the replacement character.
pub fn ascii_lossy_prefix(bytes: &Vec<u8>, limit: usize) -> (r: String)
    requires
        limit <= bytes@.len(),
    ensures
        r@ == ascii_lossy_spec(bytes@.subrange(0, limit as int)),
{
    let mut r = String::new();
    let mut i: usize = 0;
    while i < limit
        invariant
            i <= limit,
            limit <= bytes@.len(),
            r@ =~= ascii_lossy_spec(bytes@.subrange(0, i as int)),
        decreases limit - i,
    {
        let b = bytes[i];
        if b < 0x80 {
            push_char(&mut r, b as char);
        } else {
            push_char(&mut r, '\u{fffd}');
        }
        proof {
            assert(bytes@.subrange(0, (i + 1) as int) =~= bytes@.subrange(0, i as int).push(
                bytes@[i as int],
            ));
            assert(r@ =~= ascii_lossy_spec(bytes@.subrange(0, (i + 1) as int)));
        }
        i = i + 1;
    }
    proof {
        assert(r@ =~= ascii_lossy_spec(bytes@.subrange(0, limit as int)));
    }
    r
}

/// The text `charset=` starts at position `i`.
pub open spec fn is_charset_match(s: Seq<char>, i: int) -> bool {
    &&& 0 <= i
    &&& i + 8 <= s.len()
    &&& s[i] == 'c'
    &&& s[i + 1] == 'h'
    &&& s[i + 2] == 'a'
    &&& s[i + 3] == 'r'
    &&& s[i + 4] == 's'
    &&& s[i + 5] == 'e'
    &&& s[i + 6] == 't'
    &&& s[i + 7] == '='
}

/// The charset a Content-Type header value names: the text after a single
/// `charset=` occurrence, if that text is nonempty.
pub open spec fn spec_content_type_charset(s: Seq<char>) -> Option<Seq<char>> {
    if (exists|i: int| is_charset_match(s, i)) && (forall|i: int, j: int|
        is_charset_match(s, i) && is_charset_match(s, j) ==> i == j) {
        let i = choose|i: int| is_charset_match(s, i);
        if i + 8 < s.len() {
            Some(s.subrange(i + 8, s.len() as int))
        } else {
            None
        }
    } else {
        None
    }
}

/// Decides whether `charset=` starts at position `i`.
fn charset_match_at(s: &str, i: usize, n: usize) -> (r: bool)
    requires
        n == s@.len(),
        i + 8 <= n,
    ensures
        r == is_charset_match(s@, i as int),
{
    let r = s.get_char(i) == 'c' && s.get_char(i + 1) == 'h' && s.get_char(i + 2) == 'a'
        && s.get_char(i + 3) == 'r' && s.get_char(i + 4) == 's' && s.get_char(i + 5) == 'e'
        && s.get_char(i + 6) == 't' && s.get_char(i + 7) == '=';
    r
}

/// Finds the first `charset=` occurrence at or after `start`.
fn find_charset_match(s: &str, n: usize, start: usize) -> (r: Option<usize>)
    requires
        n == s@.len(),
        8 <= n,
        start <= n - 7,
    ensures
        match r {
            Some(f) => {
                &&& start <= f
                &&& f + 8 <= n
                &&& is_charset_match(s@, f as int)
                &&& forall|j: int| start <= j < f ==> !is_charset_match(s@, j)
            },
            None => forall|j: int| start <= j ==> !is_charset_match(s@, j),
        },
{
    let mut i = start;
    while i <= n - 8
        invariant
            n == s@.len(),
            8 <= n,
            start <= i,
            i <= n - 7,
            forall|j: int| start <= j < i ==> !is_charset_match(s@, j),
        decreases n - i,
    {
        if charset_match_at(s, i, n) {
            return Some(i);
        }
        i = i + 1;
    }
    proof {
        assert(forall|j: int| i <= j ==> !is_charset_match(s@, j));
    }
    None
}

/// The contents of a `Content-Type` header, as far as the library reads
/// them: the declared charset.
pub struct ContentType {
    charset: String,
}

impl ContentType {
    /// The charset the header declared.
    pub closed spec fn spec_charset(&self) -> Seq<char> {
        self.charset@
    }

    /// The declared charset, as text.
    pub fn charset(&self) -> (r: &String)
        ensures
            r@ == self.spec_charset(),
    {
        &self.charset
    }

    /// Extracts the charset from a Content-Type header value: the text
    /// after `charset=`, accepted only when that marker occurs exactly
    /// once and is followed by something.
    pub fn from(content_type: &str) -> (r: Result<ContentType, ()>)
        ensures
            match r {
                Ok(ct) => spec_content_type_charset(content_type@) == Some(ct.spec_charset()),
                Err(_) => spec_content_type_charset(content_type@) is None,
            },
    {
        let n = content_type.unicode_len();
        if n < 8 {
            proof {
                assert(forall|i: int| !is_charset_match(content_type@, i));
            }
            return Err(());
        }
        let f = match find_charset_match(content_type, n, 0) {
            None => {
                return Err(());
            },
            Some(f) => f,
        };
        match find_charset_match(content_type, n, f + 1) {
            Some(s2) => {
                proof {
                    assert(is_charset_match(content_type@, f as int));
                    assert(is_charset_match(content_type@, s2 as int));
                    assert(f as int != s2 as int);
                }
                Err(())
            },
            None => {
                proof {
                    assert(forall|j: int|
                        is_charset_match(content_type@, j) ==> j == f as int);
                    let c = choose|j: int| is_charset_match(content_type@, j);
                    assert(c == f as int);
                }
                if f + 8 < n {
                    let charset = String::from_str(content_type.substring_char(f + 8, n));
                    Ok(ContentType { charset })
                } else {
                    Err(())
                }
            },
        }
    }
}

/// What a scan of an HTML document for `meta[charset]` finds: the first
/// such element's charset attribute.
pub uninterp spec fn meta_charset_of(body: Seq<char>) -> Option<Seq<char>>;

/// Relies on scraper's `Html::parse_document`, `Selector::parse`,
/// `Html::select` and `ElementRef::attr`: the charset attribute of the
/// document's first `meta[charset]` element; the result depends on the
/// document text alone.
#[verifier::external_body]
fn html_meta_charset(body: &str) -> (r: Option<String>)
    ensures
        match (r, meta_charset_of(body@)) {
            (Some(a), Some(b)) => a@ == b,
            (None, None) => true,
            _ => false,
        },
{
    let dom = scraper::Html::parse_document(body);
    let sel = match scraper::Selector::parse("meta[charset]") {
        Ok(s) => s,
        Err(_) => return None,
    };
    let meta = dom.select(&sel).next()?;
    meta.value().attr("charset").map(|c| c.to_string())
}

/// What a scan of an HTML document for `meta[http-equiv=content-type]`
/// finds: the first such element's content attribute.
pub uninterp spec fn meta_content_type_of(body: Seq<char>) -> Option<Seq<char>>;

/// Relies on scraper's `Html::parse_document`, `Selector::parse`,
/// `Html::select` and `ElementRef::attr`: the content attribute of the
/// document's first `meta[http-equiv=content-type]` element; the result
/// depends on the document text alone.
#[verifier::external_body]
fn html_meta_content_type(body: &str) -> (r: Option<String>)
    ensures
        match (r, meta_content_type_of(body@)) {
            (Some(a), Some(b)) => a@ == b,
            (None, None) => true,
            _ => false,
        },
{
    let dom = scraper::Html::parse_document(body);
    let sel = match scraper::Selector::parse("meta[http-equiv=content-type]") {
        Ok(s) => s,
        Err(_) => return None,
    };
    let meta = dom.select(&sel).next()?;
    meta.value().attr("content").map(|c| c.to_string())
}

/// The prefix length the prescan reads: the first kilobyte, or the whole
/// body when it is shorter.
pub open spec fn spec_prescan_limit(len: nat) -> int {
    if len < 1024 {
        len as int
    } else {
        1024
    }
}

/// The charset label a prescan of the body yields: from the first
/// `meta[charset]` element, else from the charset of the first
/// `meta[http-equiv=content-type]` element's content attribute; bodies of
/// fewer than four bytes are not scanned.
pub open spec fn spec_prescan(bytes: Seq<u8>) -> Option<Seq<char>> {
    if bytes.len() < 4 {
        None
    } else {
        let body = ascii_lossy_spec(bytes.subrange(0, spec_prescan_limit(bytes.len())));
        match meta_charset_of(body) {
            Some(c) => Some(c),
            None => match meta_content_type_of(body) {
                Some(content) => spec_content_type_charset(content),
                None => None,
            },
        }
    }
}

/// Prescans a byte stream for an encoding declaration in its first
/// kilobyte, read as ASCII.
pub fn prescan_bytestream(bytes: &Vec<u8>) -> (r: Option<String>)
    ensures
        match (r, spec_prescan(bytes@)) {
            (Some(a), Some(b)) => a@ == b,
            (None, None) => true,
            _ => false,
        },
{
    if bytes.len() < 4 {
        return None;
    }
    let limit = if bytes.len() < 1024 {
        bytes.len()
    } else {
        1024
    };
    let body = ascii_lossy_prefix(bytes, limit);
    match html_meta_charset(body.as_str()) {
        Some(c) => Some(c),
        None => {
            match html_meta_content_type(body.as_str()) {
                Some(content) => {
                    match ContentType::from(content.as_str()) {
                        Ok(ct) => Some(ct.charset),
                        Err(_) => None,
                    }
                },
                None => None,
            }
        },
    }
}

/// Whether a WHATWG label names an encoding.
pub uninterp spec fn known_label(l: Seq<char>) -> bool;

/// Relies on `encoding::label::encoding_from_whatwg_label`: whether the
/// label names an encoding; depends on the label alone.
#[verifier::external_body]
fn label_known(l: &str) -> (r: bool)
    ensures
        r == known_label(l@),
{
    encoding::label::encoding_from_whatwg_label(l).is_some()
}

/// The text the encoding named by a WHATWG label decodes bytes to,
/// strictly: nothing for an unknown label or undecodable input.
pub uninterp spec fn decoded_with(l: Seq<char>, bytes: Seq<u8>) -> Option<Seq<char>>;

/// Relies on `encoding::label::encoding_from_whatwg_label` and
/// `encoding::Encoding::decode` with the strict trap: the named
/// encoding's strict decoding of the bytes, `None` for an unknown label
/// or undecodable input; the result depends on the label and the bytes
/// alone.
#[verifier::external_body]
fn decode_with_label(l: &str, bytes: &Vec<u8>) -> (r: Option<String>)
    ensures
        match (r, decoded_with(l@, bytes@)) {
            (Some(a), Some(b)) => a@ == b,
            (None, None) => true,
            _ => false,
        },
        !known_label(l@) ==> r is None,
{
    let enc = encoding::label::encoding_from_whatwg_label(l)?;
    enc.decode(bytes, encoding::DecoderTrap::Strict).ok()
}

/// The label a body is decoded with: the caller's prior knowledge first,
/// else the byte-order mark, else a known label found by the prescan,
/// else UTF-8.
pub open spec fn spec_decode_label(bytes: Seq<u8>, prior: Option<Seq<char>>) -> Seq<char> {
    match prior {
        Some(l) => l,
        None => match spec_bom(bytes) {
            Some(b) => bom_label_spec(b),
            None => match spec_prescan(bytes) {
                Some(l) => if known_label(l) {
                    l
                } else {
                    "utf-8"@
                },
                None => "utf-8"@,
            },
        },
    }
}

/// Decodes a response body to text.  Without prior knowledge the encoding
/// is detected from the byte-order mark, then from a prescan of the first
/// kilobyte, and defaults to UTF-8.  `None` when the chosen encoding
/// cannot decode the bytes strictly, or when a prior-knowledge label
/// names no encoding.
pub fn decode(bytes: &Vec<u8>, encoding_prior_knowledge: Option<&String>) -> (r: Option<String>)
    ensures
        ({
            let label = spec_decode_label(
                bytes@,
                match encoding_prior_knowledge {
                    Some(l) => Some(l@),
                    None => None,
                },
            );
            match (r, decoded_with(label, bytes@)) {
                (Some(a), Some(b)) => a@ == b,
                (None, None) => true,
                _ => false,
            }
        }),
{
    let label: String = match encoding_prior_knowledge {
        Some(l) => l.clone(),
        None => {
            match bom_sniffing(bytes) {
                Some(b) => bom_label(b),
                None => {
                    match prescan_bytestream(bytes) {
                        Some(l) => {
                            if label_known(l.as_str()) {
                                l
                            } else {
                                String::from_str("utf-8")
                            }
                        },
                        None => String::from_str("utf-8"),
                    }
                },
            }
        },
    };
    decode_with_label(label.as_str(), bytes)
}

} // verus!
