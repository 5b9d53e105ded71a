use vstd::prelude::*;
use crate::asset::ResolvedAsset;
use crate::gateway::{DbError, User};

verus! {

/// A response body: text, or the bytes of a file.
pub enum Body {
    Text(String),
    Bytes(Vec<u8>),
}

/// A response: status, content type header if any, body.
pub struct HttpResponse {
    pub status: u16,
    pub content_type: Option<String>,
    pub body: Body,
}

/// Why a static file could not be served.
#[derive(Clone, Copy, Debug, PartialEq, Eq, Structural)]
pub enum FileError {
    OpenFailed,
    ReadFailed,
}

/// The lowercase hexadecimal digit for `n` in 0..16.
pub open spec fn hex_digit(n: int) -> char {
    "0123456789abcdef"@[n]
}

/// How one character stands inside a JSON string: `"` and `\` take a
/// backslash; backspace, tab, line feed, form feed and carriage return take
/// their short escapes; the other control characters below 0x20 become
/// `\u00xx` in lowercase hexadecimal; every other character stands as it is.
pub open spec fn escape_char(c: char) -> Seq<char> {
    if c == '"' {
        seq!['\\', '"']
    } else if c == '\\' {
        seq!['\\', '\\']
    } else if c == '\x08' {
        seq!['\\', 'b']
    } else if c == '\t' {
        seq!['\\', 't']
    } else if c == '\n' {
        seq!['\\', 'n']
    } else if c == '\x0C' {
        seq!['\\', 'f']
    } else if c == '\r' {
        seq!['\\', 'r']
    } else if (c as u32) < 0x20 {
        seq!['\\', 'u', '0', '0', hex_digit((c as u32 / 16) as int), hex_digit((c as u32 % 16) as int)]
    } else {
        seq![c]
    }
}

/// The characters of `s`, each escaped for a JSON string.
pub open spec fn escape_chars(s: Seq<char>) -> Seq<char>
    decreases s.len(),
{
    if s.len() == 0 {
        seq![]
    } else {
        escape_chars(s.drop_last()) + escape_char(s.last())
    }
}

/// The JSON string literal for the characters of `s`: quoted and escaped.
pub open spec fn json_str_of(s: Seq<char>) -> Seq<char> {
    seq!['"'] + escape_chars(s) + seq!['"']
}

#[verifier::external_type_specification]
#[verifier::external_body]
pub struct ExJsonError(serde_json::Error);

/// Relies on serde_json::to_string, applied to a string slice: it returns the
/// JSON string literal for the slice, and it does not fail on a string, since
/// its writer is a `Vec<u8>`, which never fails.
#[verifier::external_body]
fn quote_json(s: &str) -> (r: Result<String, serde_json::Error>)
    ensures
        r is Ok,
        r matches Ok(q) ==> q@ == json_str_of(s@),
{
    serde_json::to_string(s)
}

/// The comma-separated `{"name":...}` objects for already quoted names.
pub open spec fn entries_of(q: Seq<Seq<char>>) -> Seq<char>
    decreases q.len(),
{
    if q.len() == 0 {
        seq![]
    } else {
        (if q.len() > 1 { entries_of(q.drop_last()) + ","@ } else { seq![] }) + "{\"name\":"@
            + q.last() + "}"@
    }
}

/// The JSON array of `{"name":...}` objects for already quoted names.
pub open spec fn array_of(q: Seq<Seq<char>>) -> Seq<char> {
    "["@ + entries_of(q) + "]"@
}

/// The quoted name of each user, in order.
pub open spec fn quoted_names(u: Seq<User>) -> Seq<Seq<char>> {
    u.map_values(|x: User| json_str_of(x.name@))
}

/// The characters of each string, in order.
pub open spec fn views_of(v: Seq<String>) -> Seq<Seq<char>> {
    v.map_values(|s: String| s@)
}

/// The JSON body `{"error": "<msg>"}`.
pub open spec fn error_json(msg: Seq<char>) -> Seq<char> {
    "{\"error\": \""@ + msg + "\"}"@
}

/// The fixed message for each database failure.
pub open spec fn db_error_text(e: DbError) -> Seq<char> {
    match e {
        DbError::ConnectFailed => "Failed to connect to database"@,
        DbError::AuthFailed => "Failed to sign in to database"@,
        DbError::AuthTimeout => "Database login timed out"@,
        DbError::ScopeSelectFailed => "Failed to select namespace and database"@,
        DbError::QueryFailed => "Failed to fetch data from database"@,
    }
}

/// The content type header of `r`, as characters.
pub open spec fn content_type_view(r: HttpResponse) -> Option<Seq<char>> {
    match r.content_type {
        Some(c) => Some(c@),
        None => None,
    }
}

/// `r` has this status, content type and text body.
pub open spec fn is_text_response(
    r: HttpResponse,
    status: u16,
    ct: Option<Seq<char>>,
    text: Seq<char>,
) -> bool {
    &&& r.status == status
    &&& content_type_view(r) == ct
    &&& r.body matches Body::Text(t) && t@ == text
}

/// `r` has this status, content type and byte body.
pub open spec fn is_bytes_response(r: HttpResponse, status: u16, ct: Seq<char>, bytes: Seq<u8>) -> bool {
    &&& r.status == status
    &&& content_type_view(r) == Some(ct)
    &&& r.body matches Body::Bytes(b) && b@ == bytes
}

/// Frames already quoted names as a JSON array of `{"name":...}` objects.
pub fn users_json_from_quoted(quoted: &Vec<String>) -> (r: String)
    ensures
        r@ == array_of(views_of(quoted@)),
{
    let mut out = String::from_str("[");
    let mut i: usize = 0;
    while i < quoted.len()
        invariant
            i <= quoted@.len(),
            out@ == "["@ + entries_of(views_of(quoted@.subrange(0, i as int))),
        decreases quoted@.len() - i,
    {
        let ghost before = views_of(quoted@.subrange(0, i as int));
        let ghost after = views_of(quoted@.subrange(0, i + 1));
        assert(after.drop_last() =~= before);
        assert(after.last() == quoted@[i as int]@);
        if i > 0 {
            out.append(",");
        }
        out.append("{\"name\":");
        out.append(quoted[i].as_str());
        out.append("}");
        i += 1;
    }
    assert(quoted@.subrange(0, quoted@.len() as int) =~= quoted@);
    out.append("]");
    out
}

/// Encodes users as a JSON array of `{"name":...}` objects, in order.
pub fn encode_users(users: &Vec<User>) -> (r: String)
    ensures
        r@ == array_of(quoted_names(users@)),
{
    let mut quoted: Vec<String> = Vec::new();
    let mut i: usize = 0;
    while i < users.len()
        invariant
            i <= users@.len(),
            views_of(quoted@) =~= quoted_names(users@.subrange(0, i as int)),
        decreases users@.len() - i,
    {
        let q = match quote_json(users[i].name.as_str()) {
            Ok(q) => q,
            Err(_) => {
                assert(false);
                String::from_str("")
            },
        };
        quoted.push(q);
        assert(quoted_names(users@.subrange(0, i + 1)) =~= quoted_names(
            users@.subrange(0, i as int),
        ).push(json_str_of(users@[i as int].name@)));
        i += 1;
    }
    assert(users@.subrange(0, users@.len() as int) =~= users@);
    users_json_from_quoted(&quoted)
}

/// Two fetches that return users with the same names, in the same order, are
/// encoded to the same JSON text.
pub proof fn lemma_users_json_repeatable(a: Seq<User>, b: Seq<User>)
    requires
        a.len() == b.len(),
        forall|i: int| 0 <= i < a.len() ==> a[i].name@ == b[i].name@,
    ensures
        array_of(quoted_names(a)) == array_of(quoted_names(b)),
{
    assert(quoted_names(a) =~= quoted_names(b));
}

/// The fixed message for a database failure.
pub fn db_error_message(e: DbError) -> (r: &'static str)
    ensures
        r@ == db_error_text(e),
{
    match e {
        DbError::ConnectFailed => "Failed to connect to database",
        DbError::AuthFailed => "Failed to sign in to database",
        DbError::AuthTimeout => "Database login timed out",
        DbError::ScopeSelectFailed => "Failed to select namespace and database",
        DbError::QueryFailed => "Failed to fetch data from database",
    }
}

/// 500 with the JSON body `{"error": "<msg>"}`.
fn json_error_response(msg: &str) -> (r: HttpResponse)
    ensures
        is_text_response(r, 500, Some("application/json"@), error_json(msg@)),
{
    let mut body = String::from_str("{\"error\": \"");
    body.append(msg);
    body.append("\"}");
    HttpResponse {
        status: 500,
        content_type: Some(String::from_str("application/json")),
        body: Body::Text(body),
    }
}

/// 500 with a JSON body naming the database failure.
pub fn db_error_response(e: DbError) -> (r: HttpResponse)
    ensures
        is_text_response(r, 500, Some("application/json"@), error_json(db_error_text(e))),
{
    json_error_response(db_error_message(e))
}

/// 200 with a JSON body.
pub fn json_response(json: String) -> (r: HttpResponse)
    ensures
        is_text_response(r, 200, Some("application/json"@), json@),
{
    HttpResponse {
        status: 200,
        content_type: Some(String::from_str("application/json")),
        body: Body::Text(json),
    }
}

/// The response to a fetch of all users: their JSON array, or the failure.
pub fn api_response(outcome: Result<Vec<User>, DbError>) -> (r: HttpResponse)
    ensures
        outcome matches Err(e) ==> is_text_response(
            r,
            500,
            Some("application/json"@),
            error_json(db_error_text(e)),
        ),
        outcome matches Ok(users) ==> is_text_response(
            r,
            200,
            Some("application/json"@),
            array_of(quoted_names(users@)),
        ),
{
    match outcome {
        Ok(users) => json_response(encode_users(&users)),
        Err(e) => db_error_response(e),
    }
}

/// 404, in plain text, for an API path that does not exist.
pub fn not_found_response() -> (r: HttpResponse)
    ensures
        is_text_response(r, 404, Some("text/plain"@), "404 - Not Found"@),
{
    HttpResponse {
        status: 404,
        content_type: Some(String::from_str("text/plain")), body: Body::Text(String::from_str("404 - Not Found")) }
}

/// The text served when a static file cannot be opened or read.
pub open spec fn file_error_text(e: FileError) -> Seq<char> {
    match e {
        FileError::OpenFailed => "Error one!"@,
        FileError::ReadFailed => "Error two!"@,
    }
}

/// The response to a static file request: the file's bytes with its content
/// type, or a short plain-text diagnostic that tells opening from reading
/// failures.
pub fn file_response(asset: ResolvedAsset, outcome: Result<Vec<u8>, FileError>) -> (r: HttpResponse)
    ensures
        outcome matches Ok(bytes) ==> is_bytes_response(r, 200, asset.content_type@, bytes@),
        outcome matches Err(e) ==> is_text_response(r, 200, Some("text/plain"@), file_error_text(e)),
{
    match outcome {
        Ok(bytes) => HttpResponse {
            status: 200,
            content_type: Some(asset.content_type),
            body: Body::Bytes(bytes),
        },
        Err(FileError::OpenFailed) => HttpResponse {
            status: 200,
            content_type: Some(String::from_str("text/plain")),
            body: Body::Text(String::from_str("Error one!")),
        },
        Err(FileError::ReadFailed) => HttpResponse {
            status: 200,
            content_type: Some(String::from_str("text/plain")),
            body: Body::Text(String::from_str("Error two!")),
        },
    }
}

} // verus!
