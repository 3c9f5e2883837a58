//! The human-readable description of a configured provider.
use vstd::prelude::*;

use crate::text::opt_str_view;

verus! {

/// The value shown for an optional setting.
pub open spec fn or_not_set(v: Option<Seq<char>>) -> Seq<char> {
    match v {
        Some(s) => s,
        None => "Not set"@,
    }
}

/// The description of a provider: one `Label: value` line per setting,
/// the temperature line only for providers that have a temperature.
pub open spec fn provider_description(
    name: Seq<char>,
    model: Seq<char>,
    url: Seq<char>,
    token_env_key: Option<Seq<char>>,
    temperature: Option<Seq<char>>,
    proxy: Option<Seq<char>>,
) -> Seq<char> {
    "Name: "@ + name + "\n"@ + "ModelID: "@ + model + "\n"@ + "Base URL: "@ + url + "\n"@
        + "Auth token env key: "@ + or_not_set(token_env_key) + "\n"@ + match temperature {
        Some(t) => "Model temperature: "@ + t + "\n"@,
        None => seq![],
    } + "Proxy: "@ + or_not_set(proxy) + "\n"@
}

fn append_setting(out: &mut String, label: &str, value: Option<&str>)
    ensures
        final(out)@ == old(out)@ + label@ + or_not_set(opt_str_view(value)) + "\n"@,
{
    out.append(label);
    match value {
        Some(v) => out.append(v),
        None => out.append("Not set"),
    }
    out.append("\n");
}

/// Builds the description of a provider from its settings.
pub fn describe_provider(
    name: &str,
    model: &str,
    url: &str,
    token_env_key: Option<&str>,
    temperature: Option<&str>,
    proxy: Option<&str>,
) -> (r: String)
    ensures
        r@ == provider_description(
            name@,
            model@,
            url@,
            opt_str_view(token_env_key),
            opt_str_view(temperature),
            opt_str_view(proxy),
        ),
{
    let mut out = String::new();
    append_setting(&mut out, "Name: ", Some(name));
    append_setting(&mut out, "ModelID: ", Some(model));
    append_setting(&mut out, "Base URL: ", Some(url));
    append_setting(&mut out, "Auth token env key: ", token_env_key);
    let ghost before_temperature = out@;
    match temperature {
        Some(t) => {
            out.append("Model temperature: ");
            out.append(t);
            out.append("\n");
        },
        None => {},
    }
    append_setting(&mut out, "Proxy: ", proxy);
    assert(out@ =~= provider_description(
        name@,
        model@,
        url@,
        opt_str_view(token_env_key),
        opt_str_view(temperature),
        opt_str_view(proxy),
    ));
    out
}

} // verus!
