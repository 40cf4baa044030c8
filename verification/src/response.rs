//! The HTTP response a handler produces: a status code, an optional
//! `Content-Type` header value, and a body of bytes.

use vstd::prelude::*;

verus! {

/// What a handler answers: the surrounding process sends it as the HTTP
/// response, byte for byte.
pub struct HttpResponse {
    /// The HTTP status code.
    pub status: u16,
    /// The `Content-Type` header value, where one is set.
    pub content_type: Option<String>,
    /// The response body.
    pub body: Vec<u8>,
}

/// The bytes of a text body: each character truncated to a byte, which for
/// the ASCII texts the service sends is the identity on characters.
pub open spec fn bytes_of_text(s: Seq<char>) -> Seq<u8> {
    s.map(|i: int, c: char| c as u8)
}

/// Encodes a text body as bytes, character by character.
pub fn text_bytes(s: &str) -> (r: Vec<u8>)
    ensures
        r@ == bytes_of_text(s@),
{
    let n = s.unicode_len();
    let mut r: Vec<u8> = Vec::new();
    let mut i: usize = 0;
    while i < n
        invariant
            n == s@.len(),
            0 <= i <= n,
            r@.len() == i,
            forall|j: int| 0 <= j < i ==> r@[j] == (#[trigger] s@[j]) as u8,
        decreases n - i,
    {
        let c = s.get_char(i);
        r.push(c as u8);
        i = i + 1;
    }
    assert(r@ =~= bytes_of_text(s@));
    r
}

/// The answer to a request no route matches: a plain 404.
pub fn send_404() -> (r: HttpResponse)
    ensures
        r.status == 404,
        r.content_type is None,
        r.body@ == bytes_of_text("404 Not Found"@),
{
    HttpResponse { status: 404, content_type: None, body: text_bytes("404 Not Found") }
}

/// The access-log line a handler emits: the client, the directory-qualified
/// path it resolved, and the MIME type it inferred.
pub fn access_log_line(client: &String, dir: &str, path: &str, mime: &str) -> (r: String)
    ensures
        r@ == "Serving "@ + client@ + " "@ + dir@ + "/"@ + path@ + " (MIME type: "@ + mime@
            + ")"@,
{
    let mut line = String::from_str("Serving ");
    line.append(client.as_str());
    line.append(" ");
    line.append(dir);
    line.append("/");
    line.append(path);
    line.append(" (MIME type: ");
    line.append(mime);
    line.append(")");
    line
}

} // verus!
