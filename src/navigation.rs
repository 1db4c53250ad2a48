//! Where a browser surface is pointed: the address it is created with and the
//! target that typed text navigates to.

use vstd::prelude::*;
use vstd::string::{StrSliceExecFns, StringExecFns};
use vstd::utf8::encode_utf8;

verus! {

#[verifier::external_type_specification]
#[verifier::external_body]
pub struct ExUrl(url::Url);

#[verifier::external_type_specification]
#[verifier::external_body]
pub struct ExParseError(url::ParseError);

/// Whether `url::Url::parse` accepts the text.
pub uninterp spec fn url_parses(s: Seq<char>) -> bool;

/// Relies on `url::Url::parse`: whether a text is an absolute URL depends on
/// the text alone.
#[verifier::external_body]
fn parse_url(s: &str) -> (r: Result<url::Url, url::ParseError>)
    ensures
        r is Ok <==> url_parses(s@),
{
    url::Url::parse(s)
}

/// The bytes that URL encoding leaves as they are: ASCII letters and digits
/// and `-`, `.`, `_`, `~`.
pub open spec fn is_unreserved(b: u8) -> bool {
    ||| 0x30 <= b <= 0x39
    ||| 0x41 <= b <= 0x5a
    ||| 0x61 <= b <= 0x7a
    ||| b == 0x2d
    ||| b == 0x2e
    ||| b == 0x5f
    ||| b == 0x7e
}

/// An upper-case hexadecimal digit.
pub open spec fn hex_digit(d: u8) -> char {
    if d < 10 {
        (0x30 + d) as char
    } else {
        (0x41 + d - 10) as char
    }
}

/// Percent-encoding of a byte string: each byte that is not unreserved becomes
/// `%` and two upper-case hexadecimal digits.
pub open spec fn percent_encoded(bytes: Seq<u8>) -> Seq<char>
    decreases bytes.len(),
{
    if bytes.len() == 0 {
        Seq::empty()
    } else {
        let b = bytes[0];
        (if is_unreserved(b) {
            seq![b as char]
        } else {
            seq!['%', hex_digit(b / 16), hex_digit(b % 16)]
        }) + percent_encoded(bytes.drop_first())
    }
}

/// Relies on `urlencoding::encode`: percent-encodes every byte of the UTF-8
/// text except ASCII letters, digits and `-`, `.`, `_`, `~`, with upper-case
/// hexadecimal digits.
#[verifier::external_body]
fn url_encode(text: &str) -> (r: String)
    ensures
        r@ == percent_encoded(encode_utf8(text@)),
{
    urlencoding::encode(text).into_owned()
}

/// Whether `p` is a prefix of `s`.
pub fn has_prefix(s: &str, p: &str) -> (r: bool)
    ensures
        r == p@.is_prefix_of(s@),
{
    let n = p.unicode_len();
    if n > s.unicode_len() {
        return false;
    }
    let mut i: usize = 0;
    while i < n
        invariant
            n == p@.len(),
            n <= s@.len(),
            i <= n,
            forall|j: int| 0 <= j < i ==> s@[j] == p@[j],
        decreases n - i,
    {
        if s.get_char(i) != p.get_char(i) {
            return false;
        }
        i += 1;
    }
    assert(p@ =~= s@.subrange(0, p@.len() as int));
    true
}

/// Whether `a` and `b` hold the same text.
pub fn same_text(a: &str, b: &str) -> (r: bool)
    ensures
        r == (a@ == b@),
{
    if a.unicode_len() != b.unicode_len() {
        return false;
    }
    let r = has_prefix(a, b);
    proof {
        if r {
            assert(a@ =~= b@);
        }
    }
    r
}

pub open spec fn is_web_address(u: Seq<char>) -> bool {
    "http://"@.is_prefix_of(u) || "https://"@.is_prefix_of(u)
}

pub open spec fn search_prefix() -> Seq<char> {
    "https://www.google.com/search?q="@
}

/// Typed text that is a web address or the blank page is navigated to as it
/// is; anything else is a web search for it.
pub open spec fn navigation_target_of(u: Seq<char>) -> Seq<char> {
    if is_web_address(u) || u == "about:blank"@ {
        u
    } else {
        search_prefix() + percent_encoded(encode_utf8(u))
    }
}

/// The address to navigate to for typed text.
pub fn navigation_target(text: String) -> (r: String)
    ensures
        r@ == navigation_target_of(text@),
{
    if has_prefix(text.as_str(), "http://") || has_prefix(text.as_str(), "https://") || same_text(
        text.as_str(),
        "about:blank",
    ) {
        text
    } else {
        let encoded = url_encode(text.as_str());
        String::from_str("https://www.google.com/search?q=").concat(encoded.as_str())
    }
}

/// What a new browser surface shows.
#[derive(Debug, PartialEq, Eq)]
pub enum WebviewSource {
    /// A web page.
    External(url::Url),
    /// The application's blank page.
    Blank,
}

/// Why a browser surface cannot be created for an address.
#[derive(Debug, PartialEq, Eq)]
pub enum WebviewUrlError {
    /// A web address that does not parse.
    InvalidUrl(url::ParseError),
    /// Neither a web address nor the blank page.
    InvalidScheme,
}

/// The source of a new browser surface: an `http://` or `https://` address
/// that parses, or `about:blank`; any other address is refused.
pub fn webview_source(address: &str) -> (r: Result<WebviewSource, WebviewUrlError>)
    ensures
        is_web_address(address@) ==> match r {
            Ok(source) => source is External && url_parses(address@),
            Err(e) => e is InvalidUrl && !url_parses(address@),
        },
        !is_web_address(address@) && address@ == "about:blank"@ ==> r matches Ok(
            WebviewSource::Blank,
        ),
        !is_web_address(address@) && address@ != "about:blank"@ ==> r matches Err(
            WebviewUrlError::InvalidScheme,
        ),
{
    if has_prefix(address, "http://") || has_prefix(address, "https://") {
        match parse_url(address) {
            Ok(u) => Ok(WebviewSource::External(u)),
            Err(e) => Err(WebviewUrlError::InvalidUrl(e)),
        }
    } else if same_text(address, "about:blank") {
        Ok(WebviewSource::Blank)
    } else {
        Err(WebviewUrlError::InvalidScheme)
    }
}

} // verus!
