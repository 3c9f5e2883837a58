//! A provider that hands the prompt to the DuckDuckGo chat in a browser.
use vstd::prelude::*;

use crate::entities::proxy::LLMProxy;
use crate::providers::llm_provider::ModelsResponse;
use vstd::utf8::encode_utf8;

verus! {

/// An unreserved byte of a URL, which percent-encoding keeps as it is:
/// ASCII letters and digits, `-`, `.`, `_` and `~`.
pub open spec fn is_unreserved(b: u8) -> bool {
    ||| (48 <= b && b <= 57)
    ||| (65 <= b && b <= 90)
    ||| (97 <= b && b <= 122)
    ||| b == 45
    ||| b == 46
    ||| b == 95
    ||| b == 126
}

/// An upper-case hexadecimal digit.
pub open spec fn hex_digit(d: u8) -> char {
    if d < 10 {
        (48 + d) as char
    } else {
        (55 + d) as char
    }
}

/// One byte, percent-encoded.
pub open spec fn percent_encode_byte(b: u8) -> Seq<char> {
    if is_unreserved(b) {
        seq![b as char]
    } else {
        seq!['%', hex_digit(b / 16), hex_digit(b % 16)]
    }
}

/// The bytes, each percent-encoded, in order.
pub open spec fn percent_encoded(bytes: Seq<u8>) -> Seq<char>
    decreases bytes.len(),
{
    if bytes.len() == 0 {
        seq![]
    } else {
        percent_encoded(bytes.drop_last()) + percent_encode_byte(bytes.last())
    }
}

/// `urlencoding::encode`: percent-encodes every byte of the UTF-8 encoding
/// of `data` except ASCII letters, digits, `-`, `.`, `_` and `~`, with
/// upper-case hexadecimal digits.
#[verifier::external_body]
fn url_encode(data: &str) -> (r: String)
    ensures
        r@ == percent_encoded(encode_utf8(data@)),
{
    urlencoding::encode(data).into_owned()
}

/// The address of the DuckDuckGo chat, before the query.
pub const DUCK_AI_BASE_URL: &'static str =
    "https://duck.ai/chat?ia=chat&origin=funnel_home_website&t=h_&duckai=1&home=1&prompt=1&chip-select=chat";

/// The provider that opens the DuckDuckGo chat.
#[derive(Debug)]
pub struct DuckDuckGoProvider;

impl DuckDuckGoProvider {
    pub fn name(&self) -> (r: &'static str)
        ensures
            r@ == "DuckDuckGo (Browser)"@,
    {
        "DuckDuckGo (Browser)"
    }

    /// The provider needs no settings.
    pub fn init_interactive() -> (r: DuckDuckGoProvider) {
        DuckDuckGoProvider
    }

    /// The chat address that asks `prompt`.
    pub fn format_url(prompt: &str) -> (r: String)
        ensures
            r@ == DUCK_AI_BASE_URL@ + "&q="@ + percent_encoded(encode_utf8(prompt@)),
    {
        let encoded = url_encode(prompt);
        let mut url = String::from_str(DUCK_AI_BASE_URL);
        url.append("&q=");
        url.append(encoded.as_str());
        url
    }

    /// The chat offers no model list.
    pub fn list_models(
        _endpoint_url: &str,
        _token: Option<&str>,
        _proxy: Option<LLMProxy>,
    ) -> (r: ModelsResponse)
        ensures
            r is IntentionallyNoModels,
    {
        ModelsResponse::IntentionallyNoModels
    }

    pub fn describe(&self) -> (r: String)
        ensures
            r@ == "Opens a browser with your prompt"@,
    {
        String::from_str("Opens a browser with your prompt")
    }
}

} // verus!
