//! The redirection of plain HTTP requests to HTTPS.

use vstd::prelude::*;
use vstd::string::*;

use crate::text;

verus! {

/// An answer that sends the client elsewhere.
#[derive(Debug)]
pub struct Redirection {
    pub status: u16,
    pub location: String,
}

/// Whether a character may stand in the value of a header.
pub open spec fn is_header_char(c: char) -> bool {
    (c as u32 >= 32 && c as u32 != 127) || c == '\t'
}

/// Whether a text may be the value of a header: it holds no control characters
/// but tabs.
pub open spec fn is_header_text(s: Seq<char>) -> bool {
    forall|i: int| 0 <= i < s.len() ==> is_header_char(#[trigger] s[i])
}

/// Whether a text may be the value of a header.
pub fn check_header_text(s: &str) -> (valid: bool)
    ensures
        valid == is_header_text(s@),
{
    let chars: Vec<char> = text::chars_of(s);
    let mut i: usize = 0;
    while i < chars.len()
        invariant
            chars@ == s@,
            i <= chars@.len(),
            forall|j: int| 0 <= j < i ==> is_header_char(#[trigger] s@[j]),
        decreases chars@.len() - i,
    {
        let c: char = chars[i];
        assert(c == s@[i as int]);
        if ((c as u32) < 32 || c as u32 == 127) && c != '\t' {
            assert(!is_header_char(s@[i as int]));
            return false;
        }
        i += 1;
    }
    true
}

/// Makes a redirection with `axum::response::Redirect::permanent`. Its status
/// is 308, and its location is the given one. That function panics on a
/// location that cannot be the value of a header.
#[verifier::external_body]
fn permanent_redirect(uri: &str) -> (redirection: Redirection)
    requires
        is_header_text(uri@),
    ensures
        redirection.status == 308,
        redirection.location@ == uri@,
{
    let redirect = axum::response::Redirect::permanent(uri);
    let response = axum::response::IntoResponse::into_response(redirect);
    let location = response.headers()[axum::http::header::LOCATION].as_bytes().to_vec();
    Redirection {
        status: response.status().as_u16(),
        location: String::from_utf8(location).unwrap(),
    }
}

/// The address under which the server answers by HTTPS what was asked of a host
/// by plain HTTP.
pub open spec fn https_uri(host: Seq<char>, uri: Seq<char>) -> Seq<char> {
    "https://"@ + host + uri
}

/// Answers a plain HTTP request: the client is sent to the same host and
/// address by HTTPS, for good.
pub fn handle_redirect(host: &str, uri: &str) -> (redirection: Redirection)
    requires
        is_header_text(host@),
        is_header_text(uri@),
    ensures
        redirection.status == 308,
        redirection.location@ == https_uri(host@, uri@),
{
    proof {
        reveal_strlit("https://");
    }
    let location: String = "https://".to_string().concat(host).concat(uri);
    permanent_redirect(location.as_str())
}

/// A client is sent to the host that it asked, for what it asked there, and to
/// nothing but HTTPS: the address begins with that scheme, and behind it stand
/// the host and the rest of the address as they came.
pub proof fn law_redirected_to_the_same_place_by_https(host: Seq<char>, uri: Seq<char>)
    ensures
        ({
            let location = https_uri(host, uri);
            &&& location.len() == 8 + host.len() + uri.len()
            &&& location.take(8) == seq!['h', 't', 't', 'p', 's', ':', '/', '/']
            &&& location.subrange(8, 8 + host.len() as int) == host
            &&& location.skip(8 + host.len() as int) == uri
        }),
{
    reveal_strlit("https://");
    let location = https_uri(host, uri);
    assert(location.take(8) == seq!['h', 't', 't', 'p', 's', ':', '/', '/']);
    assert(location.subrange(8, 8 + host.len() as int) == host);
    assert(location.skip(8 + host.len() as int) == uri);
}

/// Only a control character other than a tab keeps a text from being the value
/// of a header.
pub proof fn law_header_texts_have_no_control_characters(s: Seq<char>)
    ensures
        !is_header_text(s) <==> exists|j: int|
            0 <= j < s.len() && #[trigger] s[j] != '\t' && ((s[j] as u32) < 32 || s[j] as u32 == 127),
{
    if !is_header_text(s) {
        let j = choose|j: int| 0 <= j < s.len() && !is_header_char(#[trigger] s[j]);
        assert(s[j] != '\t' && ((s[j] as u32) < 32 || s[j] as u32 == 127));
    }
    if exists|j: int| 0 <= j < s.len() && #[trigger] s[j] != '\t' && ((s[j] as u32) < 32 || s[j] as u32 == 127) {
        let j = choose|j: int|
            0 <= j < s.len() && #[trigger] s[j] != '\t' && ((s[j] as u32) < 32 || s[j] as u32 == 127);
        assert(!is_header_char(s[j]));
    }
}

} // verus!
