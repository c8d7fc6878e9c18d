//! Render events that are pushed to browsers, channel by channel.

use vstd::prelude::*;

use crate::text::same_text;

verus! {

#[derive(Debug)]
pub struct TurboMessage {
    pub channel: String,
    pub html: String,
}

/// One watcher's place in the stream of messages: it is handed every
/// message and keeps those of its channel.
pub struct TurboMessageStream {
    channel: String,
}

/// What a watcher does after asking the stream for a message.
#[derive(Debug, Clone, Copy, PartialEq, Eq, Structural)]
pub enum Step {
    /// The message is for this watcher: hand it on.
    Deliver,
    /// The message is for another channel: ask again.
    Skip,
    /// The stream has ended.
    End,
}

/// A line feed, which ends a field of an event.
pub open spec fn line_feed() -> char {
    '\n'
}

/// HTML on one line: every line feed gives way to a space.
pub open spec fn on_one_line(html: Seq<char>) -> Seq<char> {
    html.map_values(
        |c: char|
            if c == line_feed() {
                ' '
            } else {
                c
            },
    )
}

/// The server-sent event that carries a piece of HTML: one `data` field,
/// closed by an empty line.
pub open spec fn sse_event(html: Seq<char>) -> Seq<char> {
    "data: "@ + on_one_line(html) + "\n\n"@
}

/// Calls `str::replace` with a pattern of one ASCII character and one
/// ASCII character to put in its place.
///
/// Trusted: every character that equals `from` gives way to the one
/// character of `to`, and the others stay as they are, in order. The
/// text grows by nothing, since both characters take one byte.
#[verifier::external_body]
fn replace_char(text: &str, from: char, to: &str) -> (out: String)
    requires
        from as u32 <= 127,
        to@.len() == 1,
        to@[0] as u32 <= 127,
    ensures
        out@ == text@.map_values(
            |c: char|
                if c == from {
                    to@[0]
                } else {
                    c
                },
        ),
{
    text.replace(from, to)
}

impl TurboMessage {
    pub fn new(channel: &str, html: &str) -> (message: TurboMessage)
        ensures
            message.channel@ == channel@,
            message.html@ == html@,
    {
        TurboMessage { channel: channel.to_owned(), html: html.to_owned() }
    }
}

impl TurboMessageStream {
    /// The channel that is watched.
    pub closed spec fn channel(&self) -> Seq<char> {
        self.channel@
    }

    /// A watcher of one channel.
    pub fn new(channel: &str) -> (stream: TurboMessageStream)
        ensures
            stream.channel() == channel@,
    {
        TurboMessageStream { channel: channel.to_owned() }
    }

    /// What to do with what the stream gave: a message of the watched
    /// channel is delivered, any other is passed over, and no message
    /// means that the stream has ended.
    pub fn next(&self, received: Option<&TurboMessage>) -> (step: Step)
        ensures
            step == match received {
                None => Step::End,
                Some(message) => if message.channel@ == self.channel() {
                    Step::Deliver
                } else {
                    Step::Skip
                },
            },
    {
        match received {
            None => Step::End,
            Some(message) => {
                if same_text(message.channel.as_str(), self.channel.as_str()) {
                    Step::Deliver
                } else {
                    Step::Skip
                }
            },
        }
    }
}

/// The server-sent event that carries a message to the browser. The HTML
/// goes on one line, since a line feed would end the event's field.
pub fn turbo_sse_stream(message: &TurboMessage) -> (event: String)
    ensures
        event@ == sse_event(message.html@),
{
    proof {
        reveal_strlit(" ");
    }
    // make sure there are no newlines in the HTML
    let html = replace_char(message.html.as_str(), '\n', " ");
    assert(html@ =~= on_one_line(message.html@));
    let mut event = String::from_str("data: ");
    event.append(html.as_str());
    event.append("\n\n");
    event
}

} // verus!
