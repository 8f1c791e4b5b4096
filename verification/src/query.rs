//! The boundary to the JSON codec and the path-query engine.
//!
//! Each wrapper in this module makes one call into `serde_json` or
//! `jsonpath_lib`. Its contract is trusted: it is taken from that crate's
//! source and not proved. What a call returns is given a name, so that the
//! verified code built on top can say exactly which line it renders. The
//! test that decides which path expressions reach the engine is verified.

use jsonpath_lib::JsonPathError;
use serde_json::Value;
use vstd::prelude::*;
use vstd::string::StrSliceExecFns;

verus! {

/// A JSON document, as `serde_json` holds it. Its inside is not visible to
/// the verifier: values are only carried from one call to the next.
#[verifier::external_type_specification]
#[verifier::external_body]
pub struct ExValue(serde_json::Value);

/// The error with which `serde_json` refuses a text or a value.
#[verifier::external_type_specification]
#[verifier::external_body]
pub struct ExJsonError(serde_json::Error);

/// The error with which `jsonpath_lib` refuses a path expression or a query.
#[verifier::external_type_specification]
#[verifier::external_body]
pub struct ExPathError(jsonpath_lib::JsonPathError);

/// What `serde_json::from_str::<Value>` returns for a text.
pub uninterp spec fn json_parse(text: Seq<char>) -> Result<Value, serde_json::Error>;

/// What the closure made by `jsonpath_lib::selector` for a document returns
/// for a path expression, the matched values copied out in order.
pub uninterp spec fn json_select(document: Value, path: Seq<char>) -> Result<
    Seq<Value>,
    JsonPathError,
>;

/// What `serde_json::to_string` returns for a document.
pub uninterp spec fn json_text(value: Value) -> Result<Seq<char>, serde_json::Error>;

/// The message that a `serde_json::Error` displays.
pub uninterp spec fn json_error_text(error: serde_json::Error) -> Seq<char>;

/// The message that a `JsonPathError` displays.
pub uninterp spec fn path_error_text(error: JsonPathError) -> Seq<char>;

/// Whether a path expression is `$` alone, the path that selects the whole
/// document.
pub open spec fn is_root_path(path: Seq<char>) -> bool {
    path.len() == 1 && path[0] == '$'
}

/// What the engine's parser, `jsonpath_lib::Parser::compile`, says of a path
/// expression: `None` where it accepts the expression, else its refusal in
/// the form in which the engine reports it, a `JsonPathError::Path`.
pub uninterp spec fn path_parse_error(path: Seq<char>) -> Option<JsonPathError>;

/// The longest path expression, in characters, that is handed to the query
/// engine or its parser, both of which descend once per path segment.
pub const MAX_PATH_LEN: usize = 1024;

/// Whether a slice bound may start with `c`: a digit other than zero or a
/// minus sign starts a number, a colon or a closing bracket leaves the bound
/// out.
pub open spec fn follows_colon(c: char) -> bool {
    ||| c == '1'
    ||| c == '2'
    ||| c == '3'
    ||| c == '4'
    ||| c == '5'
    ||| c == '6'
    ||| c == '7'
    ||| c == '8'
    ||| c == '9'
    ||| c == '-'
    ||| c == ':'
    ||| c == ']'
}

/// Whether a path expression is evaluated by the query engine.
///
/// The engine stops the program on some filter predicates (`?`) and on a
/// slice whose step is zero. An expression is therefore only evaluated if
/// it is of bounded length, holds no `?`, and each `:` in it is directly
/// followed by a character that cannot start a zero.
pub open spec fn supported_path(path: Seq<char>) -> bool {
    &&& path.len() <= MAX_PATH_LEN
    &&& forall|i: int| 0 <= i < path.len() ==> #[trigger] supported_at(path, i)
}

/// Whether the character at position `i` of a path expression is neither a
/// `?` nor a `:` that a zero could follow.
pub open spec fn supported_at(path: Seq<char>, i: int) -> bool {
    &&& path[i] != '?'
    &&& path[i] == ':' ==> i + 1 < path.len() && follows_colon(path[i + 1])
}

fn is_follows_colon(c: char) -> (allowed: bool)
    ensures
        allowed == follows_colon(c),
{
    c == '1' || c == '2' || c == '3' || c == '4' || c == '5' || c == '6' || c == '7' || c == '8'
        || c == '9' || c == '-' || c == ':' || c == ']'
}

/// Decides whether `path` is evaluated by the query engine.
pub fn is_supported_path(path: &str) -> (supported: bool)
    ensures
        supported == supported_path(path@),
{
    let len = path.unicode_len();
    if len > MAX_PATH_LEN {
        return false;
    }
    let mut i: usize = 0;
    while i < len
        invariant
            i <= len,
            len == path@.len(),
            len <= MAX_PATH_LEN,
            forall|k: int| 0 <= k < i ==> #[trigger] supported_at(path@, k),
        decreases len - i,
    {
        let c = path.get_char(i);
        if c == '?' {
            assert(!supported_at(path@, i as int));
            return false;
        }
        if c == ':' {
            if i + 1 >= len {
                assert(!supported_at(path@, i as int));
                return false;
            }
            let next = path.get_char(i + 1);
            if !is_follows_colon(next) {
                assert(!supported_at(path@, i as int));
                return false;
            }
        }
        assert(supported_at(path@, i as int));
        i += 1;
    }
    true
}

/// Decides whether `path` is short enough to be handed to the engine's
/// parser.
pub fn is_bounded_path(path: &str) -> (bounded: bool)
    ensures
        bounded == (path@.len() <= MAX_PATH_LEN),
{
    path.unicode_len() <= MAX_PATH_LEN
}

/// Calls `jsonpath_lib::Parser::compile` and keeps its refusal, wrapped as
/// the engine wraps it. Trusted: the result is the one named
/// [`path_parse_error`] for this path; the path `$` is accepted; and the
/// refusal decides whether a query fails. The closure that
/// `jsonpath_lib::selector` makes runs this parser first and returns its
/// refusal before it looks at the document. Once the parser accepts, the
/// closure starts from the document as its one match, and every step takes
/// a list of matches to a list of matches, so what it returns is `Ok`.
#[verifier::external_body]
pub(crate) fn parse_path(path: &str) -> (refusal: Option<JsonPathError>)
    requires
        path@.len() <= MAX_PATH_LEN,
    ensures
        refusal == path_parse_error(path@),
        is_root_path(path@) ==> refusal.is_none(),
        forall|document: Value|
            match refusal {
                Some(error) => #[trigger] json_select(document, path@) == Err::<
                    Seq<Value>,
                    JsonPathError,
                >(error),
                None => json_select(document, path@) is Ok,
            },
{
    jsonpath_lib::Parser::compile(path).err().map(JsonPathError::Path)
}

/// Calls `serde_json::from_str::<Value>`. Trusted: the result is the one
/// named [`json_parse`] for this text, so equal texts decode alike.
#[verifier::external_body]
pub(crate) fn parse(text: &str) -> (decoded: Result<Value, serde_json::Error>)
    ensures
        decoded == json_parse(text@),
{
    serde_json::from_str::<Value>(text)
}

/// Calls the closure that `jsonpath_lib::selector` makes for `document` on
/// `path`, and copies the matched values out. Trusted: the result is the one
/// named [`json_select`] for this document and path, and the path `$`
/// matches the document itself and nothing else. Filter predicates and
/// slices that could have a zero step are kept away from the engine, which
/// does not survive every such expression.
#[verifier::external_body]
pub(crate) fn select(document: &Value, path: &str) -> (selection: Result<
    Vec<Value>,
    JsonPathError,
>)
    requires
        supported_path(path@),
    ensures
        match selection {
            Ok(matches) => json_select(*document, path@) == Ok::<Seq<Value>, JsonPathError>(
                matches@,
            ),
            Err(error) => json_select(*document, path@) == Err::<Seq<Value>, JsonPathError>(
                error,
            ),
        },
        is_root_path(path@) ==> selection is Ok && selection->Ok_0@ == seq![*document],
{
    let mut query = jsonpath_lib::selector(document);
    query(path).map(|matches| matches.into_iter().cloned().collect())
}

/// Calls `serde_json::to_string`. Trusted: the result is the one named
/// [`json_text`] for this value.
#[verifier::external_body]
pub(crate) fn serialize(value: &Value) -> (written: Result<String, serde_json::Error>)
    ensures
        match written {
            Ok(text) => json_text(*value) == Ok::<Seq<char>, serde_json::Error>(text@),
            Err(error) => json_text(*value) == Err::<Seq<char>, serde_json::Error>(error),
        },
{
    serde_json::to_string(value)
}

/// Calls `to_string` on a `serde_json::Error`, which writes its `Display`
/// form. Trusted: the result is the one named [`json_error_text`].
#[verifier::external_body]
pub(crate) fn json_error_message(error: &serde_json::Error) -> (message: String)
    ensures
        message@ == json_error_text(*error),
{
    error.to_string()
}

/// Calls `to_string` on a `JsonPathError`, which writes its `Display` form.
/// Trusted: the result is the one named [`path_error_text`], and it is never
/// empty, since each of the four messages starts with fixed words.
#[verifier::external_body]
pub(crate) fn path_error_message(error: &JsonPathError) -> (message: String)
    ensures
        message@ == path_error_text(*error),
        message@.len() > 0,
{
    error.to_string()
}

} // verus!
