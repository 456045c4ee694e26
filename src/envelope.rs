use vstd::prelude::*;

verus! {

/// The JSON string literal that serde_json writes for the text `s`: quotes
/// around it, with the characters that JSON reserves escaped.
pub uninterp spec fn json_quoted(s: Seq<char>) -> Seq<char>;

/// The compact JSON text of the value that serde_json parses from `s`, or
/// `None` where `s` is not JSON.
pub uninterp spec fn reparsed_json(s: Seq<char>) -> Option<Seq<char>>;

/// Relies on serde_json's `Display` for `Value`: a string value is written as
/// a quoted, escaped JSON literal. Writing into a `String` cannot fail.
#[verifier::external_body]
fn quote_json_string(s: &str) -> (r: String)
    ensures
        r@ == json_quoted(s@),
{
    serde_json::Value::String(s.to_owned()).to_string()
}

/// Relies on `serde_json::from_str::<Value>` to parse `s`, and on `Display`
/// for `Value` to write the parsed value back in compact form.
#[verifier::external_body]
fn reparse_json(s: &str) -> (r: Option<String>)
    ensures
        r matches Some(t) ==> reparsed_json(s@) == Some(t@),
        r is None ==> reparsed_json(s@) is None,
{
    serde_json::from_str::<serde_json::Value>(s).ok().map(|v| v.to_string())
}

/// The request frame: a JSON object whose `method` member is the already
/// quoted method name and whose `params` member is the parameter value, or
/// `null` where there is none.
pub open spec fn request_frame(
    quoted_method: Seq<char>,
    params_json: Option<Seq<char>>,
) -> Seq<char> {
    "{\"method\":"@ + quoted_method + ",\"params\":"@ + match params_json {
        Some(p) => p,
        None => "null"@,
    } + "}"@
}

/// The request frame that a call of `method` with the parameter text
/// `params` sends. Parameter text that is not JSON is sent as `null`.
pub open spec fn request_for(method: Seq<char>, params: Seq<char>) -> Seq<char> {
    request_frame(json_quoted(method), reparsed_json(params))
}

/// Assembles the request frame from a quoted method name and the compact
/// JSON text of the parameters, if any.
pub fn frame_request(quoted_method: &str, params_json: &Option<String>) -> (r: String)
    ensures
        r@ == request_frame(
            quoted_method@,
            match params_json {
                Some(p) => Some(p@),
                None => None,
            },
        ),
{
    let mut frame = "{\"method\":".to_owned();
    frame.append(quoted_method);
    frame.append(",\"params\":");
    match params_json {
        Some(p) => frame.append(p.as_str()),
        None => frame.append("null"),
    }
    frame.append("}");
    frame
}

/// Builds the request frame for a call of `method` with the parameter text
/// `params`. Parameters that do not parse as JSON are forwarded as `null`:
/// they never make the call fail.
pub fn request_text(method: &str, params: &str) -> (r: String)
    ensures
        r@ == request_for(method@, params@),
{
    let quoted = quote_json_string(method);
    let params_json = reparse_json(params);
    frame_request(quoted.as_str(), &params_json)
}

} // verus!
