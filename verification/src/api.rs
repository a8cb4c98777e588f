//! Request targets of the chat-completion services: where a prompt is sent
//! and how the caller is authorised.

use crate::text::{
    decimal, push_decimal, strip_trailing, trim, trim_end_matches_char, trimmed,
};
use vstd::prelude::*;
use vstd::string::*;

verus! {

/// The DeepSeek endpoint: the service's own where the caller gives nothing
/// but white space, else the caller's, without the white space around it.
pub open spec fn deepseek_endpoint_of(base_url: Seq<char>) -> Seq<char> {
    if trimmed(base_url).len() == 0 {
        "https://api.deepseek.com/chat/completions"@
    } else {
        trimmed(base_url)
    }
}

/// The URL that a DeepSeek request goes to.
pub fn deepseek_endpoint(base_url: &str) -> (url: String)
    ensures
        url@ == deepseek_endpoint_of(base_url@),
{
    let t = trim(base_url);
    if t.as_str().unicode_len() == 0 {
        String::from_str("https://api.deepseek.com/chat/completions")
    } else {
        t
    }
}

/// The DeepSeek model to ask for: the caller's, as given, unless it is
/// nothing but white space.
pub fn deepseek_model(model: &str) -> (name: String)
    ensures
        name@ == if trimmed(model@).len() == 0 {
            "deepseek-chat"@
        } else {
            model@
        },
{
    let t = trim(model);
    if t.as_str().unicode_len() == 0 {
        String::from_str("deepseek-chat")
    } else {
        String::from_str(model)
    }
}

/// The URL that a request to an OpenAI-compatible service goes to: the
/// chat-completions path below the base address.
pub fn openai_endpoint(base_url: &str) -> (url: String)
    ensures
        url@ == strip_trailing(base_url@, '/') + "/chat/completions"@,
{
    let mut url = trim_end_matches_char(base_url, '/');
    url.append("/chat/completions");
    url
}

/// The value of the `Authorization` header: none for a key that is nothing
/// but white space, else the key, as given, as a bearer token.
pub fn bearer(api_key: &str) -> (header: Option<String>)
    ensures
        match header {
            Some(h) => trimmed(api_key@).len() > 0 && h@ == "Bearer "@ + api_key@,
            None => trimmed(api_key@).len() == 0,
        },
{
    let t = trim(api_key);
    if t.as_str().unicode_len() == 0 {
        None
    } else {
        let mut h = String::from_str("Bearer ");
        h.append(api_key);
        Some(h)
    }
}

/// The URL of the chat endpoint of a local llama.cpp server.
pub fn llamacpp_endpoint(port: u16) -> (url: String)
    ensures
        url@ == "http://127.0.0.1:"@ + decimal(port as nat) + "/v1/chat/completions"@,
{
    let mut url = String::from_str("http://127.0.0.1:");
    push_decimal(&mut url, port as u64);
    url.append("/v1/chat/completions");
    url
}

/// The model name sent to a local llama.cpp server: the configured one
/// without the white space around it, or a placeholder where none is
/// configured.
pub fn local_model_name(configured: Option<&str>) -> (name: String)
    ensures
        name@ == match configured {
            Some(m) => if trimmed(m@).len() == 0 {
                "local-model"@
            } else {
                trimmed(m@)
            },
            None => "local-model"@,
        },
{
    match configured {
        Some(m) => {
            let t = trim(m);
            if t.as_str().unicode_len() == 0 {
                String::from_str("local-model")
            } else {
                t
            }
        },
        None => String::from_str("local-model"),
    }
}

/// The integer settings of a generation request.
#[derive(Clone, Copy, Debug, PartialEq, Eq, Structural)]
pub struct SamplingCounts {
    pub top_k: i32,
    pub max_tokens: i32,
    pub repeat_last_n: i32,
}

/// The integer settings of a request, each with its default where the
/// caller gives none: 40 candidates, no limit on the answer, and a repeat
/// window of 64.
pub fn sampling_counts(top_k: Option<i32>, max_tokens: Option<i32>, repeat_last_n: Option<i32>) -> (c:
    SamplingCounts)
    ensures
        c.top_k == match top_k {
            Some(n) => n,
            None => 40,
        },
        c.max_tokens == match max_tokens {
            Some(n) => n,
            None => -1i32,
        },
        c.repeat_last_n == match repeat_last_n {
            Some(n) => n,
            None => 64,
        },
{
    SamplingCounts {
        top_k: match top_k {
            Some(n) => n,
            None => 40,
        },
        max_tokens: match max_tokens {
            Some(n) => n,
            None => -1,
        },
        repeat_last_n: match repeat_last_n {
            Some(n) => n,
            None => 64,
        },
    }
}

} // verus!
