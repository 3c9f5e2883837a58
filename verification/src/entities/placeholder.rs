use vstd::prelude::*;

use crate::text::{opt_as_str, opt_str_view, opt_to_string, opt_view};

verus! {

/// A value that a prompt template asks the user for.
#[derive(Clone, Debug, Hash, PartialEq, Eq)]
pub struct Placeholder {
    name: String,
    multiline: bool,
    prompt: Option<String>,
}

/// What a placeholder holds.
pub struct PlaceholderView {
    pub name: Seq<char>,
    pub multiline: bool,
    pub prompt: Option<Seq<char>>,
}

impl View for Placeholder {
    type V = PlaceholderView;

    closed spec fn view(&self) -> PlaceholderView {
        PlaceholderView { name: self.name@, multiline: self.multiline, prompt: opt_view(self.prompt) }
    }
}

impl Placeholder {
    pub fn new(name: &str, multiline: bool, prompt: Option<&str>) -> (r: Self)
        ensures
            r@ == (PlaceholderView { name: name@, multiline, prompt: opt_str_view(prompt) }),
    {
        Placeholder { name: String::from_str(name), multiline, prompt: opt_to_string(prompt) }
    }

    pub fn name(&self) -> (r: &str)
        ensures
            r@ == self@.name,
    {
        self.name.as_str()
    }

    pub fn multiline(&self) -> (r: bool)
        ensures
            r == self@.multiline,
    {
        self.multiline
    }

    pub fn prompt(&self) -> (r: Option<&str>)
        ensures
            opt_str_view(r) == self@.prompt,
    {
        opt_as_str(&self.prompt)
    }
}

} // verus!
