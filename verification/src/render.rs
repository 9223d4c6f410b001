//! What the view shows for one logged message: a typing animation
//! while the assistant's entry is still empty, otherwise the content
//! rendered from markdown to HTML, styled by role.

use vstd::prelude::*;
use vstd::string::StringExecFns;
use crate::chat::{ChatMessage, ChatRole, is_assistant_placeholder, is_placeholder};

verus! {

/// The HTML that rendering a markdown text produces, under the fixed
/// rendering configuration of [`render_message`].
pub uninterp spec fn html_of(s: Seq<char>) -> Seq<char>;

/// Relies on comrak::markdown_to_html_with_plugins: under fixed
/// options — the strikethrough, autolink and table extensions, raw
/// HTML omitted, hard line breaks, GitHub-style pre lang, and syntect
/// code-fence highlighting with the base16-ocean.dark theme — the
/// result depends on the markdown text alone.
#[verifier::external_body]
fn markdown_html(text: &str) -> (r: String)
    ensures
        r@ == html_of(text@),
{
    let adapter = comrak::plugins::syntect::SyntectAdapterBuilder::new()
        .theme("base16-ocean.dark")
        .build();
    let mut plugins = comrak::options::Plugins::default();
    plugins.render.codefence_syntax_highlighter = Some(&adapter);
    let mut options = comrak::Options::default();
    options.extension.strikethrough = true;
    options.extension.autolink = true;
    options.extension.table = true;
    options.render.hardbreaks = true;
    options.render.github_pre_lang = true;
    comrak::markdown_to_html_with_plugins(text, &options, &plugins)
}

/// What the view shows in a message bubble.
#[derive(Debug)]
pub enum RenderedMessage {
    /// The typing animation: the assistant's entry has no content yet.
    Pending,
    /// The message content, rendered from markdown to HTML.
    Html(String),
}

/// Decides what one logged message displays as: the typing animation
/// for the empty assistant placeholder, the markdown-rendered content
/// for everything else.
pub fn render_message(msg: &ChatMessage) -> (r: RenderedMessage)
    ensures
        is_placeholder(msg@) ==> r is Pending,
        !is_placeholder(msg@) ==> (r matches RenderedMessage::Html(h) && h@ == html_of(
            msg@.content,
        )),
{
    if is_assistant_placeholder(msg) {
        RenderedMessage::Pending
    } else {
        RenderedMessage::Html(markdown_html(msg.content.as_str()))
    }
}

/// The style a message bubble gets from its role: the assistant's text
/// flows full width at the start edge, the user's sits in a filled
/// bubble at the end edge.
pub fn role_class(role: ChatRole) -> (r: String)
    ensures
        role == ChatRole::Assistant ==> r@ == "self-start max-w-full text-gray-200"@,
        role != ChatRole::Assistant ==> r@
            == "self-end bg-blue-500 rounded-tl-lg rounded-tr-lg rounded-bl-lg text-white"@,
{
    if role == ChatRole::Assistant {
        String::from_str("self-start max-w-full text-gray-200")
    } else {
        String::from_str("self-end bg-blue-500 rounded-tl-lg rounded-tr-lg rounded-bl-lg text-white")
    }
}

} // verus!
