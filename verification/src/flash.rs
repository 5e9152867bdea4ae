//! The messages that are shown once on the next page, and their rendering.

use vstd::prelude::*;
use vstd::string::StringExecFns;

verus! {

/// How grave a message is.
#[derive(Debug, Clone, Copy, PartialEq, Eq, Structural)]
pub enum Level {
    Debug,
    Info,
    Success,
    Warning,
    Error,
}

/// What a message is.
pub struct MessageView {
    pub level: Level,
    pub content: Seq<char>,
}

/// A message to show once.
#[derive(Debug)]
pub struct FlashMessage {
    pub level: Level,
    pub content: String,
}

impl View for FlashMessage {
    type V = MessageView;

    open spec fn view(&self) -> MessageView {
        MessageView { level: self.level, content: self.content@ }
    }
}

/// What a list of messages is.
pub open spec fn messages_view(messages: Seq<FlashMessage>) -> Seq<MessageView> {
    messages.map_values(|m: FlashMessage| m@)
}

/// One message as a paragraph in italics, on a line of its own. The
/// content is put in as it is.
pub open spec fn paragraph(content: Seq<char>) -> Seq<char> {
    "<p><i>"@ + content + "</i></p>\n"@
}

/// The paragraphs of the first `n` messages that `shown` picks, in order.
pub open spec fn rendered_upto(
    messages: Seq<MessageView>,
    shown: spec_fn(Level) -> bool,
    n: int,
) -> Seq<char>
    decreases n,
{
    if n <= 0 {
        Seq::empty()
    } else if shown(messages[n - 1].level) {
        rendered_upto(messages, shown, n - 1) + paragraph(messages[n - 1].content)
    } else {
        rendered_upto(messages, shown, n - 1)
    }
}

/// The paragraphs of all messages, in order.
pub open spec fn rendered(messages: Seq<MessageView>) -> Seq<char> {
    rendered_upto(messages, |level: Level| true, messages.len() as int)
}

/// The paragraphs of the messages of level `Error`, in order.
pub open spec fn rendered_errors(messages: Seq<MessageView>) -> Seq<char> {
    rendered_upto(messages, |level: Level| level == Level::Error, messages.len() as int)
}

fn push_paragraph(html: &mut String, content: &str)
    ensures
        final(html)@ == old(html)@ + paragraph(content@),
{
    html.append("<p><i>");
    html.append(content);
    html.append("</i></p>\n");
    assert(html@ =~= old(html)@ + paragraph(content@));
}

/// Renders every message as a paragraph, in order.
pub fn render(messages: &Vec<FlashMessage>) -> (html: String)
    ensures
        html@ == rendered(messages_view(messages@)),
{
    let ghost all = messages_view(messages@);
    let ghost shown = |level: Level| true;
    let mut html = String::new();
    let mut i: usize = 0;
    while i < messages.len()
        invariant
            i <= messages.len(),
            all == messages_view(messages@),
            shown == |level: Level| true,
            html@ == rendered_upto(all, shown, i as int),
        decreases messages.len() - i,
    {
        assert(all[i as int] == messages[i as int]@);
        push_paragraph(&mut html, messages[i].content.as_str());
        i += 1;
    }
    html
}

/// Renders the messages of level `Error` as paragraphs, in order, and
/// leaves the others out.
pub fn render_errors(messages: &Vec<FlashMessage>) -> (html: String)
    ensures
        html@ == rendered_errors(messages_view(messages@)),
{
    let ghost all = messages_view(messages@);
    let ghost shown = |level: Level| level == Level::Error;
    let mut html = String::new();
    let mut i: usize = 0;
    while i < messages.len()
        invariant
            i <= messages.len(),
            all == messages_view(messages@),
            shown == |level: Level| level == Level::Error,
            html@ == rendered_upto(all, shown, i as int),
        decreases messages.len() - i,
    {
        assert(all[i as int] == messages[i as int]@);
        if messages[i].level == Level::Error {
            push_paragraph(&mut html, messages[i].content.as_str());
        }
        i += 1;
    }
    html
}

} // verus!
