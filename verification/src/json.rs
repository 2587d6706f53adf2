//! The job descriptors that a worker reads: one JSON object for each job,
//! written compactly with its keys in alphabetical order.

use crate::text::{decimal_digits, digit_char, push_decimal};
use vstd::prelude::*;

verus! {

/// A hexadecimal digit, the letters in lower case.
pub open spec fn hex_digit(d: nat) -> char {
    if d < 10 {
        digit_char(d)
    } else if d == 10 {
        'a'
    } else if d == 11 {
        'b'
    } else if d == 12 {
        'c'
    } else if d == 13 {
        'd'
    } else if d == 14 {
        'e'
    } else {
        'f'
    }
}

/// How one character stands in a JSON string literal: the double quote and
/// the backslash get a backslash in front; backspace, tab, line feed, form
/// feed and carriage return become `\b`, `\t`, `\n`, `\f`, `\r`; any other
/// character below U+0020 becomes `\u00` and two hexadecimal digits; every
/// other character stays as it is.
pub open spec fn json_escaped(c: char) -> Seq<char> {
    if c == '"' {
        seq!['\\', '"']
    } else if c == '\\' {
        seq!['\\', '\\']
    } else if c == '\u{8}' {
        seq!['\\', 'b']
    } else if c == '\t' {
        seq!['\\', 't']
    } else if c == '\n' {
        seq!['\\', 'n']
    } else if c == '\u{c}' {
        seq!['\\', 'f']
    } else if c == '\r' {
        seq!['\\', 'r']
    } else if (c as u32) < 0x20 {
        seq!['\\', 'u', '0', '0', hex_digit((c as u32 / 16) as nat), hex_digit((c as u32 % 16) as nat)]
    } else {
        seq![c]
    }
}

/// The characters of a text as they stand in a JSON string literal.
pub open spec fn json_escaped_text(s: Seq<char>) -> Seq<char>
    decreases s.len(),
{
    if s.len() == 0 {
        Seq::empty()
    } else {
        json_escaped_text(s.drop_last()) + json_escaped(s.last())
    }
}

/// The JSON string literal that stands for the text `s`: the text between
/// double quotes, with what needs it escaped.
pub open spec fn json_string(s: Seq<char>) -> Seq<char> {
    seq!['"'] + json_escaped_text(s) + seq!['"']
}

/// Writes a text as a JSON string literal.
///
/// Calls `to_string` on a `serde_json::Value::String` holding the text, which
/// prints the value compactly: a double quote, each character as
/// `json_escaped` says, and a double quote.
#[verifier::external_body]
fn quote(s: &str) -> (r: String)
    ensures
        r@ == json_string(s@),
{
    serde_json::Value::String(s.to_string()).to_string()
}

/// The descriptor of a text job, given its two prompts as JSON string
/// literals.
pub open spec fn text_descriptor(system_prompt: Seq<char>, user_prompt: Seq<char>) -> Seq<char> {
    "{\"system_prompt\":"@ + system_prompt + ",\"user_prompt\":"@ + user_prompt + "}"@
}

/// The descriptor of an image job, given its prompts as JSON string
/// literals and the guidance scale as a JSON number.
pub open spec fn image_descriptor(
    prompt: Seq<char>,
    negative_prompt: Seq<char>,
    guidance_scale: Seq<char>,
    num_inference_steps: nat,
) -> Seq<char> {
    "{\"guidance_scale\":"@ + guidance_scale + ",\"negative_prompt\":"@ + negative_prompt
        + ",\"num_inference_steps\":"@ + decimal_digits(num_inference_steps) + ",\"prompt\":"@
        + prompt + "}"@
}

/// Puts the descriptor of a text job together from its two prompts, each
/// already a JSON string literal.
pub fn assemble_text_descriptor(system_prompt: &str, user_prompt: &str) -> (r: String)
    ensures
        r@ == text_descriptor(system_prompt@, user_prompt@),
{
    let mut out = String::from_str("{\"system_prompt\":");
    out.append(system_prompt);
    out.append(",\"user_prompt\":");
    out.append(user_prompt);
    out.append("}");
    out
}

/// Puts the descriptor of an image job together from its prompts, each
/// already a JSON string literal, the guidance scale as a JSON number, and
/// the number of inference steps.
pub fn assemble_image_descriptor(
    prompt: &str,
    negative_prompt: &str,
    guidance_scale: &str,
    num_inference_steps: u32,
) -> (r: String)
    ensures
        r@ == image_descriptor(
            prompt@,
            negative_prompt@,
            guidance_scale@,
            num_inference_steps as nat,
        ),
{
    let mut out = String::from_str("{\"guidance_scale\":");
    out.append(guidance_scale);
    out.append(",\"negative_prompt\":");
    out.append(negative_prompt);
    out.append(",\"num_inference_steps\":");
    push_decimal(&mut out, num_inference_steps as u128);
    out.append(",\"prompt\":");
    out.append(prompt);
    out.append("}");
    out
}

/// The descriptor of a text job with these prompts.
pub fn text_input_json(system_prompt: &str, user_prompt: &str) -> (r: String)
    ensures
        r@ == text_descriptor(json_string(system_prompt@), json_string(user_prompt@)),
{
    let system = quote(system_prompt);
    let user = quote(user_prompt);
    assemble_text_descriptor(system.as_str(), user.as_str())
}

/// The descriptor of an image job. `guidance_scale` is the scale written
/// as a JSON number.
pub fn image_input_json(
    prompt: &str,
    negative_prompt: &str,
    guidance_scale: &str,
    num_inference_steps: u32,
) -> (r: String)
    ensures
        r@ == image_descriptor(
            json_string(prompt@),
            json_string(negative_prompt@),
            guidance_scale@,
            num_inference_steps as nat,
        ),
{
    let p = quote(prompt);
    let n = quote(negative_prompt);
    assemble_image_descriptor(p.as_str(), n.as_str(), guidance_scale, num_inference_steps)
}

} // verus!
