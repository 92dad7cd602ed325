//! Structured diagnostic records.
//!
//! The simulation itself never prints: it appends `Message` values to a
//! `Log` owned by the caller, who decides how to render them.

use vstd::prelude::*;

verus! {

#[derive(Debug, Clone, Copy, PartialEq, Eq, Structural)]
pub enum MessageType { Info, Note, Debug, Warn, Error }

/// Whether `c` is the letter `lower`, in either ASCII case.
pub open spec fn spec_letter(c: char, lower: char, upper: char) -> bool {
    c == lower || c == upper
}

/// The message type a level name maps to, matched ASCII-case-insensitively;
/// anything unrecognised falls back to `Info`.
pub open spec fn spec_level_of(s: Seq<char>) -> MessageType {
    if s.len() == 4 && spec_letter(s[0], 'i', 'I') && spec_letter(s[1], 'n', 'N')
        && spec_letter(s[2], 'f', 'F') && spec_letter(s[3], 'o', 'O') {
        MessageType::Info
    } else if s.len() == 4 && spec_letter(s[0], 'n', 'N') && spec_letter(s[1], 'o', 'O')
        && spec_letter(s[2], 't', 'T') && spec_letter(s[3], 'e', 'E') {
        MessageType::Note
    } else if s.len() == 5 && spec_letter(s[0], 'd', 'D') && spec_letter(s[1], 'e', 'E')
        && spec_letter(s[2], 'b', 'B') && spec_letter(s[3], 'u', 'U')
        && spec_letter(s[4], 'g', 'G') {
        MessageType::Debug
    } else if s.len() == 4 && spec_letter(s[0], 'w', 'W') && spec_letter(s[1], 'a', 'A')
        && spec_letter(s[2], 'r', 'R') && spec_letter(s[3], 'n', 'N') {
        MessageType::Warn
    } else if s.len() == 5 && spec_letter(s[0], 'e', 'E') && spec_letter(s[1], 'r', 'R')
        && spec_letter(s[2], 'r', 'R') && spec_letter(s[3], 'o', 'O')
        && spec_letter(s[4], 'r', 'R') {
        MessageType::Error
    } else {
        MessageType::Info
    }
}

impl MessageType {
    /// Parses a level name, ignoring ASCII case; unknown names are `Info`.
    pub fn from_str(s: &str) -> (t: MessageType)
        ensures
            t == spec_level_of(s@),
    {
        let n = s.unicode_len();
        if n == 4 {
            let c0 = s.get_char(0);
            let c1 = s.get_char(1);
            let c2 = s.get_char(2);
            let c3 = s.get_char(3);
            if (c0 == 'i' || c0 == 'I') && (c1 == 'n' || c1 == 'N') && (c2 == 'f' || c2 == 'F')
                && (c3 == 'o' || c3 == 'O') {
                MessageType::Info
            } else if (c0 == 'n' || c0 == 'N') && (c1 == 'o' || c1 == 'O')
                && (c2 == 't' || c2 == 'T') && (c3 == 'e' || c3 == 'E') {
                MessageType::Note
            } else if (c0 == 'w' || c0 == 'W') && (c1 == 'a' || c1 == 'A')
                && (c2 == 'r' || c2 == 'R') && (c3 == 'n' || c3 == 'N') {
                MessageType::Warn
            } else {
                MessageType::Info
            }
        } else if n == 5 {
            let c0 = s.get_char(0);
            let c1 = s.get_char(1);
            let c2 = s.get_char(2);
            let c3 = s.get_char(3);
            let c4 = s.get_char(4);
            if (c0 == 'd' || c0 == 'D') && (c1 == 'e' || c1 == 'E') && (c2 == 'b' || c2 == 'B')
                && (c3 == 'u' || c3 == 'U') && (c4 == 'g' || c4 == 'G') {
                MessageType::Debug
            } else if (c0 == 'e' || c0 == 'E') && (c1 == 'r' || c1 == 'R')
                && (c2 == 'r' || c2 == 'R') && (c3 == 'o' || c3 == 'O')
                && (c4 == 'r' || c4 == 'R') {
                MessageType::Error
            } else {
                MessageType::Info
            }
        } else {
            MessageType::Info
        }
    }
}

#[derive(Debug, Clone)]
pub struct Message {
    pub mtype: MessageType,
    pub content: String,
    pub line_break: bool,
}

impl Message {
    pub fn new(mtype: MessageType, content: String, line_break: bool) -> (m: Message)
        ensures
            m.mtype == mtype,
            m.content@ == content@,
            m.line_break == line_break,
    {
        Message { mtype, content, line_break }
    }
}

pub struct Log {
    pub messages: Vec<Message>,
}

impl Log {
    pub fn new() -> (l: Log)
        ensures
            l.messages@.len() == 0,
    {
        Log { messages: Vec::new() }
    }

    /// Appends one message; everything already logged stays as it was.
    pub fn add(&mut self, message_type: MessageType, content: String, line_break: bool)
        ensures
            final(self).messages@.len() == old(self).messages@.len() + 1,
            forall|i: int|
                0 <= i < old(self).messages@.len() ==> final(self).messages@[i] == old(
                    self,
                ).messages@[i],
            final(self).messages@.last().mtype == message_type,
            final(self).messages@.last().content@ == content@,
            final(self).messages@.last().line_break == line_break,
    {
        self.messages.push(Message::new(message_type, content, line_break));
    }

    pub fn clear(&mut self)
        ensures
            final(self).messages@.len() == 0,
    {
        self.messages.clear();
    }
}

} // verus!
