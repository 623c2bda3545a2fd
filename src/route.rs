//! Request routing: which resource a request path names, and what the
//! gateway does for each method and resource.

use vstd::prelude::*;
use vstd::string::*;
use crate::name::{name_words, parse_layer_name};
use crate::subfile::{file_name_to_enum, file_token, text_eq, LayerFile};

verus! {

/// A resource that a request path names.
#[derive(Clone, Copy, Debug, PartialEq, Eq)]
pub enum ResourceSpec {
    Cache([u32; 5]),
    Layer([u32; 5]),
    LayerFile([u32; 5], LayerFile),
    LayerFileRange([u32; 5], LayerFile),
}

/// Why a request path names no resource.
#[derive(Clone, Copy, Debug, PartialEq, Eq, Structural)]
pub enum SpecParseError {
    UnknownPath,
    UnknownLayerFile,
}

pub open spec fn is_lower_hex_char(c: char) -> bool {
    ('0' <= c && c <= '9') || ('a' <= c && c <= 'f')
}

/// Forty lower-case hex digits.
pub open spec fn is_lower_name(s: Seq<char>) -> bool {
    s.len() == 40 && forall|i: int| 0 <= i < 40 ==> is_lower_hex_char(#[trigger] s[i])
}

pub open spec fn is_word_char(c: char) -> bool {
    ('0' <= c && c <= '9') || ('a' <= c && c <= 'z') || ('A' <= c && c <= 'Z') || c == '_'
}

/// One or more letters, digits or underscores.
pub open spec fn is_word(s: Seq<char>) -> bool {
    s.len() > 0 && forall|i: int| 0 <= i < s.len() ==> is_word_char(#[trigger] s[i])
}

pub open spec fn cache_prefix() -> Seq<char> {
    seq!['/', 'c', 'a', 'c', 'h', 'e', '/']
}

pub open spec fn layer_prefix() -> Seq<char> {
    seq!['/', 'l', 'a', 'y', 'e', 'r', '/']
}

pub open spec fn file_prefix() -> Seq<char> {
    seq!['/', 'f', 'i', 'l', 'e', '/']
}

pub open spec fn range_prefix() -> Seq<char> {
    seq!['/', 'r', 'a', 'n', 'g', 'e', '/']
}

/// `p` is `prefix` followed by a layer name and nothing else.
pub open spec fn names_layer(p: Seq<char>, prefix: Seq<char>) -> bool {
    &&& p.len() == prefix.len() + 40
    &&& p.take(prefix.len() as int) == prefix
    &&& is_lower_name(p.skip(prefix.len() as int))
}

/// `p` is `prefix`, a layer name, a separator and a word.
pub open spec fn names_layer_file(p: Seq<char>, prefix: Seq<char>) -> bool {
    &&& p.len() > prefix.len() + 41
    &&& p.take(prefix.len() as int) == prefix
    &&& is_lower_name(p.subrange(prefix.len() as int, prefix.len() + 40 as int))
    &&& p[prefix.len() + 40 as int] == '/'
    &&& is_word(p.skip(prefix.len() + 41 as int))
}

/// The name in a path that `names_layer` or `names_layer_file` accepts.
pub open spec fn name_in(p: Seq<char>, prefix: Seq<char>) -> Seq<u32> {
    name_words(p.subrange(prefix.len() as int, prefix.len() + 40 as int))
}

/// The word that follows the name in a path that `names_layer_file` accepts.
pub open spec fn word_in(p: Seq<char>, prefix: Seq<char>) -> Seq<char> {
    p.skip(prefix.len() + 41 as int)
}

/// What a path of the form `prefix`, name, `/`, word names, by `make`.
pub open spec fn file_route_ok(
    p: Seq<char>,
    prefix: Seq<char>,
    r: Result<ResourceSpec, SpecParseError>,
    range: bool,
) -> bool {
    if exists|f: LayerFile| file_token(f) == word_in(p, prefix) {
        match r {
            Ok(ResourceSpec::LayerFile(n, f)) => !range && n@ == name_in(p, prefix) && file_token(f)
                == word_in(p, prefix),
            Ok(ResourceSpec::LayerFileRange(n, f)) => range && n@ == name_in(p, prefix)
                && file_token(f) == word_in(p, prefix),
            _ => false,
        }
    } else {
        r == Err::<ResourceSpec, SpecParseError>(SpecParseError::UnknownLayerFile)
    }
}

fn is_lower_name_text(s: &str) -> (r: bool)
    ensures
        r == is_lower_name(s@),
{
    if s.unicode_len() != 40 {
        return false;
    }
    let mut i: usize = 0;
    while i < 40
        invariant
            s@.len() == 40,
            0 <= i <= 40,
            forall|j: int| 0 <= j < i ==> is_lower_hex_char(#[trigger] s@[j]),
        decreases 40 - i,
    {
        let c = s.get_char(i);
        if !(('0' <= c && c <= '9') || ('a' <= c && c <= 'f')) {
            return false;
        }
        i = i + 1;
    }
    true
}

fn is_word_text(s: &str) -> (r: bool)
    ensures
        r == is_word(s@),
{
    let n = s.unicode_len();
    if n == 0 {
        return false;
    }
    let mut i: usize = 0;
    while i < n
        invariant
            n == s@.len(),
            0 <= i <= n,
            forall|j: int| 0 <= j < i ==> is_word_char(#[trigger] s@[j]),
        decreases n - i,
    {
        let c = s.get_char(i);
        if !(('0' <= c && c <= '9') || ('a' <= c && c <= 'z') || ('A' <= c && c <= 'Z') || c
            == '_') {
            return false;
        }
        i = i + 1;
    }
    true
}

fn lower_name(s: &str) -> (r: Option<[u32; 5]>)
    ensures
        r is Some <==> is_lower_name(s@),
        r is Some ==> r.unwrap()@ == name_words(s@),
{
    if is_lower_name_text(s) {
        parse_layer_name(s)
    } else {
        None
    }
}

/// The name in `path` when it is `prefix` followed by a name.
fn layer_after(path: &str, prefix: &str) -> (r: Option<[u32; 5]>)
    ensures
        r is Some <==> names_layer(path@, prefix@),
        r is Some ==> r.unwrap()@ == name_in(path@, prefix@),
{
    let n = path.unicode_len();
    let k = prefix.unicode_len();
    if k > n || n - k != 40 {
        return None;
    }
    if !text_eq(path.substring_char(0, k), prefix) {
        return None;
    }
    let r = lower_name(path.substring_char(k, n));
    assert(path@.subrange(k as int, n as int) =~= path@.skip(k as int));
    r
}

/// The name and the word in `path` when it is `prefix`, a name, `/` and a
/// word.
fn layer_file_after<'a>(path: &'a str, prefix: &str) -> (r: Option<([u32; 5], &'a str)>)
    ensures
        r is Some <==> names_layer_file(path@, prefix@),
        r matches Some((name, word)) ==> name@ == name_in(path@, prefix@) && word@ == word_in(
            path@,
            prefix@,
        ),
{
    let n = path.unicode_len();
    let k = prefix.unicode_len();
    if k > n || n - k <= 41 {
        return None;
    }
    if !text_eq(path.substring_char(0, k), prefix) {
        return None;
    }
    if path.get_char(k + 40) != '/' {
        return None;
    }
    let word = path.substring_char(k + 41, n);
    assert(word@ =~= path@.skip(k + 41));
    if !is_word_text(word) {
        return None;
    }
    match lower_name(path.substring_char(k, k + 40)) {
        Some(name) => Some((name, word)),
        None => None,
    }
}

/// The resource that a request path names.
pub fn uri_to_spec(path: &str) -> (r: Result<ResourceSpec, SpecParseError>)
    ensures
        names_layer(path@, cache_prefix()) ==> (r matches Ok(ResourceSpec::Cache(n)) && n@
            == name_in(path@, cache_prefix())),
        names_layer(path@, layer_prefix()) ==> (r matches Ok(ResourceSpec::Layer(n)) && n@
            == name_in(path@, layer_prefix())),
        names_layer_file(path@, file_prefix()) ==> file_route_ok(path@, file_prefix(), r, false),
        names_layer_file(path@, range_prefix()) ==> file_route_ok(path@, range_prefix(), r, true),
        !names_layer(path@, cache_prefix()) && !names_layer(path@, layer_prefix())
            && !names_layer_file(path@, file_prefix()) && !names_layer_file(
            path@,
            range_prefix(),
        ) ==> r == Err::<ResourceSpec, SpecParseError>(SpecParseError::UnknownPath),
{
    proof {
        reveal_strlit("/cache/");
        reveal_strlit("/layer/");
        reveal_strlit("/file/");
        reveal_strlit("/range/");
        assert("/cache/"@ =~= cache_prefix());
        assert("/layer/"@ =~= layer_prefix());
        assert("/file/"@ =~= file_prefix());
        assert("/range/"@ =~= range_prefix());
    }
    if let Some(name) = layer_after(path, "/cache/") {
        return Ok(ResourceSpec::Cache(name));
    }
    if let Some(name) = layer_after(path, "/layer/") {
        return Ok(ResourceSpec::Layer(name));
    }
    if let Some((name, word)) = layer_file_after(path, "/file/") {
        return match file_name_to_enum(word) {
            Some(f) => Ok(ResourceSpec::LayerFile(name, f)),
            None => Err(SpecParseError::UnknownLayerFile),
        };
    }
    if let Some((name, word)) = layer_file_after(path, "/range/") {
        return match file_name_to_enum(word) {
            Some(f) => Ok(ResourceSpec::LayerFileRange(name, f)),
            None => Err(SpecParseError::UnknownLayerFile),
        };
    }
    Err(SpecParseError::UnknownPath)
}

/// A request method, as far as routing tells them apart.
#[derive(Clone, Copy, Debug, PartialEq, Eq, Structural)]
pub enum Method {
    Get,
    Post,
    Other,
}

/// Why a request is refused before any routing.
#[derive(Clone, Copy, Debug, PartialEq, Eq, Structural)]
pub enum InvalidReason {
    BadMethod,
}

impl InvalidReason {
    pub fn status(&self) -> (r: u16)
        ensures
            r == 400,
    {
        match self {
            InvalidReason::BadMethod => 400,
        }
    }

    pub fn msg(&self) -> (r: &'static str)
        ensures
            r@ == "invalid method"@,
    {
        match self {
            InvalidReason::BadMethod => "invalid method",
        }
    }
}

/// The status of a response to a path that names no resource: an unknown
/// sub-file is a missing resource, anything else a malformed path.
pub open spec fn parse_error_status(e: SpecParseError) -> u16 {
    match e {
        SpecParseError::UnknownPath => 500,
        SpecParseError::UnknownLayerFile => 404,
    }
}

pub open spec fn parse_error_body(e: SpecParseError) -> Seq<char> {
    match e {
        SpecParseError::UnknownPath => "Error: UnknownPath"@,
        SpecParseError::UnknownLayerFile => "Error: UnknownLayerFile"@,
    }
}

/// What the gateway does for a request.
#[derive(Clone, Copy, Debug, PartialEq, Eq)]
pub enum Plan {
    /// Stream the whole layer.
    SendLayer([u32; 5]),
    /// Stream one sub-file of the layer.
    SendLayerFile([u32; 5], LayerFile),
    /// Answer with the absolute byte range of one sub-file.
    SendLayerFileRange([u32; 5], LayerFile),
    /// Ingest the request body as the layer.
    Upload([u32; 5]),
    /// Ask for a promotion and answer at once.
    Promote([u32; 5]),
    /// Answer with this status and body, and do nothing else.
    Refuse { status: u16, body: &'static str },
}

pub open spec fn refuses(r: Plan, status: u16, body: Seq<char>) -> bool {
    r matches Plan::Refuse { status: s, body: b } && s == status && b@ == body
}

fn refuse_parse_error(e: SpecParseError) -> (r: Plan)
    ensures
        refuses(r, parse_error_status(e), parse_error_body(e)),
{
    match e {
        SpecParseError::UnknownPath => Plan::Refuse { status: 500, body: "Error: UnknownPath" },
        SpecParseError::UnknownLayerFile => Plan::Refuse {
            status: 404,
            body: "Error: UnknownLayerFile",
        },
    }
}

/// The plan for a request with `method` whose path parsed as `parsed`.
pub fn plan_request(method: Method, parsed: Result<ResourceSpec, SpecParseError>) -> (r: Plan)
    ensures
        method == Method::Other ==> refuses(r, 400, "invalid method"@),
        method != Method::Other ==> (parsed matches Err(e) ==> refuses(
            r,
            parse_error_status(e),
            parse_error_body(e),
        )),
        method == Method::Get ==> (match parsed {
            Ok(ResourceSpec::Layer(n)) => r == Plan::SendLayer(n),
            Ok(ResourceSpec::LayerFile(n, f)) => r == Plan::SendLayerFile(n, f),
            Ok(ResourceSpec::LayerFileRange(n, f)) => r == Plan::SendLayerFileRange(n, f),
            Ok(ResourceSpec::Cache(_)) => refuses(r, 500, "Unimplemented"@),
            Err(_) => true,
        }),
        method == Method::Post ==> (match parsed {
            Ok(ResourceSpec::Cache(n)) => r == Plan::Promote(n),
            Ok(ResourceSpec::Layer(n)) => r == Plan::Upload(n),
            Ok(_) => refuses(r, 500, "Unimplemented"@),
            Err(_) => true,
        }),
{
    match method {
        Method::Other => {
            let reason = InvalidReason::BadMethod;
            Plan::Refuse { status: reason.status(), body: reason.msg() }
        },
        Method::Get => match parsed {
            Ok(ResourceSpec::Layer(n)) => Plan::SendLayer(n),
            Ok(ResourceSpec::LayerFile(n, f)) => Plan::SendLayerFile(n, f),
            Ok(ResourceSpec::LayerFileRange(n, f)) => Plan::SendLayerFileRange(n, f),
            Ok(ResourceSpec::Cache(_)) => Plan::Refuse { status: 500, body: "Unimplemented" },
            Err(e) => refuse_parse_error(e),
        },
        Method::Post => match parsed {
            Ok(ResourceSpec::Cache(n)) => Plan::Promote(n),
            Ok(ResourceSpec::Layer(n)) => Plan::Upload(n),
            Ok(_) => Plan::Refuse { status: 500, body: "Unimplemented" },
            Err(e) => refuse_parse_error(e),
        },
    }
}

/// The body of a 404 answer to a plan that found nothing to send.
pub fn not_found_body(plan: &Plan) -> (r: &'static str)
    ensures
        plan is SendLayer ==> r@ == "Layer not found"@,
        !(plan is SendLayer) ==> r@ == ""@,
{
    match plan {
        Plan::SendLayer(_) => "Layer not found",
        _ => "",
    }
}

pub open spec fn decimal_digits() -> Seq<char> {
    seq!['0', '1', '2', '3', '4', '5', '6', '7', '8', '9']
}

/// A number in decimal, without leading zeros.
pub open spec fn decimal(n: nat) -> Seq<char>
    decreases n,
{
    if n < 10 {
        seq![decimal_digits()[n as int]]
    } else {
        decimal(n / 10) + seq![decimal_digits()[(n % 10) as int]]
    }
}

fn push_decimal(s: &mut String, n: usize)
    ensures
        final(s)@ == old(s)@ + decimal(n as nat),
    decreases n,
{
    if n >= 10 {
        push_decimal(s, n / 10);
    }
    let digits = "0123456789";
    proof {
        reveal_strlit("0123456789");
        assert(digits@ =~= decimal_digits());
    }
    let d = n % 10;
    s.append(digits.substring_ascii(d, d + 1));
    assert(final(s)@ =~= old(s)@ + decimal(n as nat));
}

/// The body of an answer with a range `[start, end)`: `<start>-<last>`, where
/// `last` is the last byte in it; `None` when `end` is 0 and there is no
/// such byte.
pub fn range_text(start: usize, end: usize) -> (r: Option<String>)
    ensures
        end == 0 ==> r is None,
        end > 0 ==> (r matches Some(t) && t@ == decimal(start as nat) + seq!['-'] + decimal(
            (end - 1) as nat,
        )),
{
    if end == 0 {
        return None;
    }
    let mut t = String::new();
    push_decimal(&mut t, start);
    proof {
        reveal_strlit("-");
    }
    t.append("-");
    push_decimal(&mut t, end - 1);
    Some(t)
}

} // verus!
