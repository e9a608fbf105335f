//! The request to the text-generation service: the prompt around the diff,
//! the JSON body and the endpoint address.

use vstd::prelude::*;

verus! {

/// The lower-case hexadecimal digit for `d < 16`.
pub open spec fn hex_digit(d: nat) -> char {
    seq!['0', '1', '2', '3', '4', '5', '6', '7', '8', '9', 'a', 'b', 'c', 'd', 'e', 'f'][d as int]
}

/// How one character is written inside a JSON string: quote, backslash and
/// control characters are escaped, everything else stands as it is.
pub open spec fn json_escape(c: char) -> Seq<char> {
    let u = c as u32;
    if c == '"' {
        seq!['\\', '"']
    } else if c == '\\' {
        seq!['\\', '\\']
    } else if u == 0x08 {
        seq!['\\', 'b']
    } else if u == 0x09 {
        seq!['\\', 't']
    } else if u == 0x0a {
        seq!['\\', 'n']
    } else if u == 0x0c {
        seq!['\\', 'f']
    } else if u == 0x0d {
        seq!['\\', 'r']
    } else if u < 0x20 {
        seq!['\\', 'u', '0', '0', hex_digit((u / 16) as nat), hex_digit((u % 16) as nat)]
    } else {
        seq![c]
    }
}

/// The escaped characters of `s`, in order.
pub open spec fn json_escaped(s: Seq<char>) -> Seq<char>
    decreases s.len(),
{
    if s.len() == 0 {
        Seq::empty()
    } else {
        json_escaped(s.drop_last()) + json_escape(s.last())
    }
}

/// The JSON string literal that encodes `s`: its escaped text in quotes.
pub open spec fn json_quoted(s: Seq<char>) -> Seq<char> {
    seq!['"'] + json_escaped(s) + seq!['"']
}

/// Relies on `serde_json::to_string` on a `str`: the text in quotes, with
/// quote, backslash and the control characters below 0x20 escaped (`\b`,
/// `\t`, `\n`, `\f`, `\r`, the others as `\u00xx`). It writes into a `Vec`,
/// which cannot fail, so it always succeeds.
#[verifier::external_body]
fn json_string(s: &str) -> (r: Option<String>)
    ensures
        r is Some,
        r matches Some(t) ==> t@ == json_quoted(s@),
{
    serde_json::to_string(s).ok()
}

/// The address of the generation endpoint, up to the API key.
pub const API_URL_PREFIX: &'static str =
    "https://generativelanguage.googleapis.com/v1beta/models/gemini-2.0-flash:generateContent?key=";

/// The instruction that comes before the diff in the prompt.
pub const PROMPT_HEAD: &'static str =
    "Analyze the following Git diff carefully (excluding specified files like Cargo.lock, *.log, etc.) to understand the changes and generate a conventional commit message:\n\n```diff\n";

/// What closes the prompt after the diff.
pub const PROMPT_TAIL: &'static str = "\n```";

/// The request body up to the prompt text.
pub const BODY_HEAD: &'static str = "{\"contents\":[{\"role\":\"user\",\"parts\":[{\"text\":";

/// The request body after the prompt text: the style instruction, the
/// generation settings and the safety settings.
pub const BODY_TAIL: &'static str =
    "}]}],\"systemInstruction\":{\"parts\":[{\"text\":\"You are an AI coding assistant that generates precise and structured Git commit messages. Your task is to produce **only** the commit title and body, following the **conventional commits** format (e.g., `fix(main)`, `feat(cli)`), using imperative verbs such as 'fix', 'add', 'remove'. The title should briefly summarize the change, followed by a detailed bullet-point list explaining the meaningful changes in the body. **Do not include any additional explanatory text** like the suggestion for what to include in the message or a recap of the format. Only return the commit message.\"}]},\"generationConfig\":{\"temperature\":0.7,\"topP\":1.0,\"maxOutputTokens\":512,\"responseMimeType\":\"text/plain\"},\"safetySettings\":[{\"category\":\"HARM_CATEGORY_CIVIC_INTEGRITY\",\"threshold\":\"BLOCK_NONE\"}]}";

/// The prompt: the diff verbatim inside the fixed instruction.
pub open spec fn prompt_of(diff: Seq<char>) -> Seq<char> {
    PROMPT_HEAD@ + diff + PROMPT_TAIL@
}

/// The request body around an already quoted prompt.
pub open spec fn body_of(quoted_prompt: Seq<char>) -> Seq<char> {
    BODY_HEAD@ + quoted_prompt + BODY_TAIL@
}

/// Builds the prompt for a diff.
pub fn prompt_text(diff: &str) -> (r: String)
    ensures
        r@ == prompt_of(diff@),
{
    let mut s = String::from_str(PROMPT_HEAD);
    s.append(diff);
    s.append(PROMPT_TAIL);
    s
}

/// Builds the request body around a prompt already encoded as a JSON string.
pub fn request_body_from(quoted_prompt: &str) -> (r: String)
    ensures
        r@ == body_of(quoted_prompt@),
{
    let mut s = String::from_str(BODY_HEAD);
    s.append(quoted_prompt);
    s.append(BODY_TAIL);
    s
}

/// Builds the request body for a diff.
pub fn request_body(diff: &str) -> (r: String)
    ensures
        r@ == body_of(json_quoted(prompt_of(diff@))),
{
    let prompt = prompt_text(diff);
    match json_string(prompt.as_str()) {
        Some(quoted) => request_body_from(quoted.as_str()),
        None => String::new(),
    }
}

/// The endpoint address with the API key.
pub fn api_url(key: &str) -> (r: String)
    ensures
        r@ == API_URL_PREFIX@ + key@,
{
    let mut s = String::from_str(API_URL_PREFIX);
    s.append(key);
    s
}

} // verus!
