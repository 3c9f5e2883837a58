use vstd::prelude::*;

verus! {

/// The format in which the model is asked to answer, and in which the
/// answer is displayed.
#[derive(Clone, Copy, Debug, PartialEq, Eq, Structural)]
pub enum RequestedOutputFormat {
    JSON,
    YAML,
    Plain,
    Markdown,
}

/// The name under which a format is shown.
pub open spec fn format_name(f: RequestedOutputFormat) -> Seq<char> {
    match f {
        RequestedOutputFormat::JSON => "JSON"@,
        RequestedOutputFormat::YAML => "YAML"@,
        RequestedOutputFormat::Plain => "Plain Text"@,
        RequestedOutputFormat::Markdown => "Markdown"@,
    }
}

impl RequestedOutputFormat {
    /// The format's name, as it is displayed.
    pub fn to_string(&self) -> (r: String)
        ensures
            r@ == format_name(*self),
    {
        match self {
            RequestedOutputFormat::JSON => String::from_str("JSON"),
            RequestedOutputFormat::YAML => String::from_str("YAML"),
            RequestedOutputFormat::Plain => String::from_str("Plain Text"),
            RequestedOutputFormat::Markdown => String::from_str("Markdown"),
        }
    }
}

} // verus!
