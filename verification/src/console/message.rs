//! Console messages: their text, how much they are worth interrupting for,
//! and how the console tags them.
use vstd::prelude::*;
use vstd::string::*;

verus! {

/// How much a console message is worth interrupting for.
///
/// The quiet level and terminal ownership do not treat all messages alike,
/// so the severity travels with the message rather than being inferred at
/// the sink from its text.
#[derive(Debug, Clone, Copy, PartialEq, Eq)]
pub enum ConsoleSeverity {
    /// Ordinary progress. The first thing either gate suppresses.
    Status,
    /// Something went wrong. Loud enough to override a requested blackout,
    /// not to write into a terminal another process owns.
    Error,
    /// The operator must see this or lose the machine.
    Critical,
}

impl ConsoleSeverity {
    /// The severity's place in the order `Status < Error < Critical`.
    pub open spec fn spec_rank(self) -> nat {
        match self {
            ConsoleSeverity::Status => 0,
            ConsoleSeverity::Error => 1,
            ConsoleSeverity::Critical => 2,
        }
    }

    pub fn rank(&self) -> (r: u8)
        ensures
            r as nat == self.spec_rank(),
    {
        match self {
            ConsoleSeverity::Status => 0,
            ConsoleSeverity::Error => 1,
            ConsoleSeverity::Critical => 2,
        }
    }
}

/// How a line is tagged when it reaches the console.
#[derive(Debug, Clone, Copy, PartialEq, Eq)]
pub enum ConsoleTag {
    Untagged,
    Okay,
    Skip,
    Warn,
    Failed,
    Crit,
}

/// A line for the console.
#[derive(Debug, Clone, PartialEq, Eq)]
pub struct ConsoleMessage {
    pub text: String,
    pub severity: ConsoleSeverity,
    pub tag: ConsoleTag,
}

/// A console message by the text it carries.
pub struct ConsoleMessageView {
    pub text: Seq<char>,
    pub severity: ConsoleSeverity,
    pub tag: ConsoleTag,
}

impl View for ConsoleMessage {
    type V = ConsoleMessageView;

    open spec fn view(&self) -> ConsoleMessageView {
        ConsoleMessageView { text: self.text@, severity: self.severity, tag: self.tag }
    }
}

/// A list of messages by their views.
pub open spec fn messages_view(s: Seq<ConsoleMessage>) -> Seq<ConsoleMessageView> {
    s.map_values(|m: ConsoleMessage| m@)
}

/// One message with the given text, severity and tag.
pub open spec fn one(text: Seq<char>, severity: ConsoleSeverity, tag: ConsoleTag) -> Seq<ConsoleMessageView> {
    seq![ConsoleMessageView { text, severity, tag }]
}

pub open spec fn msg_status(text: Seq<char>) -> Seq<ConsoleMessageView> {
    one(text, ConsoleSeverity::Status, ConsoleTag::Untagged)
}

pub open spec fn msg_ok(text: Seq<char>) -> Seq<ConsoleMessageView> {
    one(text, ConsoleSeverity::Status, ConsoleTag::Okay)
}

pub open spec fn msg_skip(text: Seq<char>) -> Seq<ConsoleMessageView> {
    one(text, ConsoleSeverity::Status, ConsoleTag::Skip)
}

pub open spec fn msg_warn(text: Seq<char>) -> Seq<ConsoleMessageView> {
    one(text, ConsoleSeverity::Error, ConsoleTag::Warn)
}

pub open spec fn msg_error(text: Seq<char>) -> Seq<ConsoleMessageView> {
    one(text, ConsoleSeverity::Error, ConsoleTag::Failed)
}

pub open spec fn msg_critical(text: Seq<char>) -> Seq<ConsoleMessageView> {
    one(text, ConsoleSeverity::Critical, ConsoleTag::Crit)
}

impl ConsoleMessage {
    /// Progress with no outcome yet, and the unnamed default.
    pub fn status(text: &str) -> (m: Self)
        ensures
            seq![m@] == msg_status(text@),
    {
        ConsoleMessage { text: text.to_owned(), severity: ConsoleSeverity::Status, tag: ConsoleTag::Untagged }
    }

    /// Something worked. Status severity: a success is ordinary progress;
    /// the tag is presentation, not news.
    pub fn ok(text: &str) -> (m: Self)
        ensures
            seq![m@] == msg_ok(text@),
    {
        ConsoleMessage { text: text.to_owned(), severity: ConsoleSeverity::Status, tag: ConsoleTag::Okay }
    }

    /// Deliberately not done. Also Status: a skip is the mechanism working.
    pub fn skip(text: &str) -> (m: Self)
        ensures
            seq![m@] == msg_skip(text@),
    {
        ConsoleMessage { text: text.to_owned(), severity: ConsoleSeverity::Status, tag: ConsoleTag::Skip }
    }

    /// Wrong, but the boot continues. Error severity, so it survives a
    /// requested blackout.
    pub fn warn(text: &str) -> (m: Self)
        ensures
            seq![m@] == msg_warn(text@),
    {
        ConsoleMessage { text: text.to_owned(), severity: ConsoleSeverity::Error, tag: ConsoleTag::Warn }
    }

    pub fn error(text: &str) -> (m: Self)
        ensures
            seq![m@] == msg_error(text@),
    {
        ConsoleMessage { text: text.to_owned(), severity: ConsoleSeverity::Error, tag: ConsoleTag::Failed }
    }

    pub fn critical(text: &str) -> (m: Self)
        ensures
            seq![m@] == msg_critical(text@),
    {
        ConsoleMessage { text: text.to_owned(), severity: ConsoleSeverity::Critical, tag: ConsoleTag::Crit }
    }
}

fn push_view(out: &mut Vec<ConsoleMessage>, m: ConsoleMessage)
    ensures
        messages_view(final(out)@) == messages_view(old(out)@) + seq![m@],
{
    let ghost before = out@;
    out.push(m);
    assert(messages_view(out@) =~= messages_view(before) + seq![m@]);
}

/// Ordinary progress, the unnamed default: most console output is status,
/// and requiring every site to name a severity would hide the few that are
/// not.
pub fn push_message(out: &mut Vec<ConsoleMessage>, text: String)
    ensures
        messages_view(final(out)@) == messages_view(old(out)@) + msg_status(text@),
{
    push_view(out, ConsoleMessage::status(text.as_str()));
}

/// Something worked.
pub fn push_ok(out: &mut Vec<ConsoleMessage>, text: String)
    ensures
        messages_view(final(out)@) == messages_view(old(out)@) + msg_ok(text@),
{
    push_view(out, ConsoleMessage::ok(text.as_str()));
}

/// Deliberately not done.
pub fn push_skip(out: &mut Vec<ConsoleMessage>, text: String)
    ensures
        messages_view(final(out)@) == messages_view(old(out)@) + msg_skip(text@),
{
    push_view(out, ConsoleMessage::skip(text.as_str()));
}

/// Wrong, but the boot continues.
pub fn push_warn(out: &mut Vec<ConsoleMessage>, text: String)
    ensures
        messages_view(final(out)@) == messages_view(old(out)@) + msg_warn(text@),
{
    push_view(out, ConsoleMessage::warn(text.as_str()));
}

/// Something went wrong: overrides a requested blackout, not another
/// process owning the terminal.
pub fn push_error(out: &mut Vec<ConsoleMessage>, text: String)
    ensures
        messages_view(final(out)@) == messages_view(old(out)@) + msg_error(text@),
{
    push_view(out, ConsoleMessage::error(text.as_str()));
}

/// The operator must see this or lose the machine. Overrides both gates.
pub fn push_critical(out: &mut Vec<ConsoleMessage>, text: String)
    ensures
        messages_view(final(out)@) == messages_view(old(out)@) + msg_critical(text@),
{
    push_view(out, ConsoleMessage::critical(text.as_str()));
}

} // verus!
