//! The script that types a text into the AI companion's page.

use vstd::prelude::*;
use vstd::string::StringExecFns;

verus! {

/// A JSON text, as `serde_json::to_string` writes it for the string `s`.
pub uninterp spec fn json_string_literal(s: Seq<char>) -> Seq<char>;

#[verifier::external_type_specification]
#[verifier::external_body]
pub struct ExJsonError(serde_json::Error);

/// Calls `serde_json::to_string` on a string. It succeeds: a string is written
/// by `serialize_str` into an in-memory buffer, which cannot fail. Its result is
/// the JSON string literal of `s` (named, not spelled out: escaping takes a page).
#[verifier::external_body]
fn json_encode(s: &String) -> (r: Result<String, serde_json::Error>)
    ensures
        r is Ok,
        r matches Ok(v) ==> v@ == json_string_literal(s@),
{
    serde_json::to_string(s)
}

/// The script up to the value given to a form field.
pub const SCRIPT_OPENING: &'static str = "(function() {\n                const textareas = document.querySelectorAll('textarea, [contenteditable=\"true\"], .ql-editor, [role=\"textbox\"]');\n                for (const el of textareas) {\n                    if (el.offsetParent !== null) {\n                        if (el.tagName === 'TEXTAREA' || el.tagName === 'INPUT') {\n                            el.value = ";

/// The script between the value of a form field and the text of an editable element.
pub const SCRIPT_AFTER_VALUE: &'static str = ";\n                            el.dispatchEvent(new Event('input', { bubbles: true }));\n                        } else {\n                            el.textContent = ";

/// The script between the text of an editable element and the text copied to the clipboard.
pub const SCRIPT_AFTER_TEXT: &'static str = ";\n                            el.dispatchEvent(new Event('input', { bubbles: true }));\n                        }\n                        el.focus();\n                        return;\n                    }\n                }\n                navigator.clipboard.writeText(";

/// The end of the script.
pub const SCRIPT_CLOSING: &'static str = ");\n            })();";

/// The script with the JavaScript expression `literal` as the text to type: it
/// fills the first visible text box of the page with it and sends an input event,
/// or, where there is none, copies it to the clipboard.
pub open spec fn input_script_view(literal: Seq<char>) -> Seq<char> {
    SCRIPT_OPENING@ + literal + SCRIPT_AFTER_VALUE@ + literal + SCRIPT_AFTER_TEXT@ + literal
        + SCRIPT_CLOSING@
}

/// The script that types the JavaScript expression `literal` into the page.
pub fn input_script(literal: &str) -> (script: String)
    ensures
        script@ == input_script_view(literal@),
{
    let mut script = String::from_str(SCRIPT_OPENING);
    script.append(literal);
    script.append(SCRIPT_AFTER_VALUE);
    script.append(literal);
    script.append(SCRIPT_AFTER_TEXT);
    script.append(literal);
    script.append(SCRIPT_CLOSING);
    script
}

/// The script that types `text` into the AI companion's page, with `text`
/// written as a JSON string literal.
pub fn ai_input_script(text: &String) -> (script: String)
    ensures
        script@ == input_script_view(json_string_literal(text@)),
{
    let literal = match json_encode(text) {
        Ok(v) => v,
        Err(_) => String::new(),
    };
    input_script(literal.as_str())
}

} // verus!
