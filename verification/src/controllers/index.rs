//! The main command: pick a provider and a prompt template, ask, and keep
//! the exchange in the history.
use vstd::prelude::*;

use crate::entities::message::{message_views, plain_message, Message};
use crate::entities::prompt::{parsed_prompt, FrondmatterKind, Prompt};
use crate::entities::role::Role;

verus! {

/// How the answer is shown in the terminal.
#[derive(Clone, Copy, Debug, PartialEq, Eq, Structural)]
pub enum OutputMode {
    Markdown,
    Plain,
}

/// The name of an output mode, as the command line takes it.
pub open spec fn output_mode_name(m: OutputMode) -> Seq<char> {
    match m {
        OutputMode::Markdown => "markdown"@,
        OutputMode::Plain => "plain"@,
    }
}

impl OutputMode {
    pub fn to_string(&self) -> (r: String)
        ensures
            r@ == output_mode_name(*self),
    {
        match self {
            OutputMode::Markdown => String::from_str("markdown"),
            OutputMode::Plain => String::from_str("plain"),
        }
    }
}

/// The text that tells the model that raw front matter follows the prompt.
/// The wording is this library's own.
pub const RAW_FRONTMATTER_HEADER: &'static str =
    "The prompt above comes with the following front matter. Treat it as settings for your answer, not as part of the question:";

/// The prompt followed by the header and the raw front matter, each on
/// lines of their own.
pub open spec fn raw_prompt_text(prompt: Seq<char>, raw: Seq<char>) -> Seq<char> {
    prompt + "\n"@ + RAW_FRONTMATTER_HEADER@ + "\n"@ + raw
}

/// What is sent for a template: its prompt, followed by its front matter
/// when it has one.
pub open spec fn prepared_prompt(raw: Seq<char>) -> Seq<char> {
    let (fm, p) = parsed_prompt(raw);
    match fm {
        Some(f) => raw_prompt_text(p, f),
        None => p,
    }
}

/// What `marcli::render` makes of a Markdown text with the default
/// options: the text laid out for a terminal, with ANSI escape sequences.
pub uninterp spec fn rendered_markdown(markdown: Seq<char>) -> Seq<char>;

/// `marcli::render` with the default options (`"\n"` line endings, the
/// default theme, escape sequences kept). Its result depends on the text
/// alone; what it is takes the whole renderer to state and is left to the
/// name `rendered_markdown`.
#[verifier::external_body]
fn render_markdown(markdown: &str) -> (r: String)
    ensures
        r@ == rendered_markdown(markdown@),
{
    marcli::render(markdown, &marcli::RenderOptions::default())
}

/// The answer as it is shown: rendered for the terminal in Markdown mode,
/// as it is in plain mode.
pub open spec fn shown_answer(mode: OutputMode, response: Seq<char>) -> Seq<char> {
    match mode {
        OutputMode::Markdown => rendered_markdown(response),
        OutputMode::Plain => response,
    }
}

/// The options of the main command.
#[derive(Clone, Copy, Debug)]
pub struct IndexController {
    select_provider: bool,
    continue_dialog: bool,
    output: OutputMode,
}

impl IndexController {
    pub fn new(select_provider: bool, continue_dialog: bool, output: OutputMode) -> (r: Self)
        ensures
            r.select_provider() == select_provider,
            r.continue_dialog() == continue_dialog,
            r.output() == output,
    {
        IndexController { select_provider, continue_dialog, output }
    }

    /// Whether the provider is picked anew rather than the last one reused.
    #[verifier::when_used_as_spec(spec_select_provider)]
    pub fn select_provider(&self) -> (r: bool)
        ensures
            r == self.spec_select_provider(),
    {
        self.select_provider
    }

    pub closed spec fn spec_select_provider(&self) -> bool {
        self.select_provider
    }

    /// Whether the previous dialog goes on.
    #[verifier::when_used_as_spec(spec_continue_dialog)]
    pub fn continue_dialog(&self) -> (r: bool)
        ensures
            r == self.spec_continue_dialog(),
    {
        self.continue_dialog
    }

    pub closed spec fn spec_continue_dialog(&self) -> bool {
        self.continue_dialog
    }

    /// How the answer is shown.
    #[verifier::when_used_as_spec(spec_output)]
    pub fn output(&self) -> (r: OutputMode)
        ensures
            r == self.spec_output(),
    {
        self.output
    }

    pub closed spec fn spec_output(&self) -> OutputMode {
        self.output
    }

    /// Whether the last used provider is taken without asking.
    pub fn reuse_last_provider(&self, has_last_used: bool) -> (r: bool)
        ensures
            r == (has_last_used && !self.select_provider()),
    {
        has_last_used && !self.select_provider
    }

    /// Whether the user types a follow-up question rather than picking a
    /// template: only when the dialog goes on and has a history.
    pub fn asks_follow_up(&self, history_is_empty: bool) -> (r: bool)
        ensures
            r == (!history_is_empty && self.continue_dialog()),
    {
        !history_is_empty && self.continue_dialog
    }

    /// The answer as it is shown in the given output mode.
    pub fn format_answer(mode: OutputMode, response: &str) -> (r: String)
        ensures
            r@ == shown_answer(mode, response@),
    {
        match mode {
            OutputMode::Markdown => render_markdown(response),
            OutputMode::Plain => String::from_str(response),
        }
    }

    /// The prompt followed by the header and the raw front matter.
    pub fn prepare_raw_prompt(prompt: &str, raw: &str) -> (r: String)
        ensures
            r@ == raw_prompt_text(prompt@, raw@),
    {
        let mut s = String::from_str(prompt);
        s.append("\n");
        s.append(RAW_FRONTMATTER_HEADER);
        s.append("\n");
        s.append(raw);
        s
    }

    /// The text sent for a template.
    pub fn prepare_prompt(prompt: &Prompt) -> (r: String)
        ensures
            r@ == prepared_prompt(prompt.raw_text()),
    {
        match prompt.frontmatter() {
            Some(FrondmatterKind::Raw(raw)) => Self::prepare_raw_prompt(prompt.prompt(), raw.as_str()),
            None => String::from_str(prompt.prompt()),
        }
    }

    /// The history after an exchange: the question, then the answer.
    pub fn record_exchange(messages: Vec<Message>, prompt: &str, answer: &str) -> (r: Vec<Message>)
        ensures
            message_views(r@) == message_views(messages@).push(plain_message(Role::User, prompt@)).push(
                plain_message(Role::Assistant, answer@),
            ),
    {
        let mut messages = messages;
        let ghost m0 = messages@;
        messages.push(Message::new(Role::User, prompt));
        let ghost m1 = messages@;
        messages.push(Message::new(Role::Assistant, answer));
        assert(message_views(m1) =~= message_views(m0).push(plain_message(Role::User, prompt@)));
        assert(message_views(messages@) =~= message_views(m1).push(
            plain_message(Role::Assistant, answer@),
        ));
        messages
    }
}

} // verus!
