//! Messages for the operator.

use vstd::prelude::*;
use crate::text::{join, push_text, texts_of};

verus! {

/// How a message is marked; the caller picks the colour.
#[derive(Clone, Copy, Debug, PartialEq, Eq, Structural)]
pub enum NoticeLevel {
    /// Something worked.
    Success,
    /// Something failed for good.
    Error,
    /// Something failed and the session goes on.
    Warning,
    /// Something is happening.
    Info,
}

/// A message for the operator.
#[derive(Debug)]
pub struct Notice {
    /// How the message is marked.
    pub level: NoticeLevel,
    /// What it says.
    pub text: String,
}

/// The mathematical content of a [`Notice`].
pub struct NoticeView {
    pub level: NoticeLevel,
    pub text: Seq<char>,
}

impl View for Notice {
    type V = NoticeView;

    open spec fn view(&self) -> NoticeView {
        NoticeView { level: self.level, text: self.text@ }
    }
}

/// The mark that is put in front of a message: a check mark, a cross mark,
/// a warning sign or a pair of eyes, and the space after it.
pub open spec fn level_mark(level: NoticeLevel) -> Seq<char> {
    match level {
        NoticeLevel::Success => "\u{2705} "@,
        NoticeLevel::Error => "\u{274C} "@,
        NoticeLevel::Warning => "\u{26A0}\u{FE0F}  "@,
        NoticeLevel::Info => "\u{1F440} "@,
    }
}

impl Notice {
    /// A message of the given level.
    pub fn new(level: NoticeLevel, text: String) -> (notice: Notice)
        ensures
            notice@ == (NoticeView { level, text: text@ }),
    {
        Notice { level, text }
    }

    /// The line that is shown: the mark of the level, then the text.
    pub fn rendered(&self) -> (line: String)
        ensures
            line@ == level_mark(self.level) + self.text@,
    {
        let mark = match self.level {
            NoticeLevel::Success => "\u{2705} ",
            NoticeLevel::Error => "\u{274C} ",
            NoticeLevel::Warning => "\u{26A0}\u{FE0F}  ",
            NoticeLevel::Info => "\u{1F440} ",
        };
        join(mark, self.text.as_str())
    }
}

/// The rule that is drawn above and below a header: 42 heavy horizontal
/// lines.
pub const HEADER_RULE: &'static str =
    "\u{2501}\u{2501}\u{2501}\u{2501}\u{2501}\u{2501}\u{2501}\u{2501}\u{2501}\u{2501}\u{2501}\u{2501}\u{2501}\u{2501}\u{2501}\u{2501}\u{2501}\u{2501}\u{2501}\u{2501}\u{2501}\u{2501}\u{2501}\u{2501}\u{2501}\u{2501}\u{2501}\u{2501}\u{2501}\u{2501}\u{2501}\u{2501}\u{2501}\u{2501}\u{2501}\u{2501}\u{2501}\u{2501}\u{2501}\u{2501}\u{2501}\u{2501}";

/// The line of a header that carries its title: a phone, then the title.
pub open spec fn header_title(title: Seq<char>) -> Seq<char> {
    "\u{1F4F1} "@ + title
}

/// The three lines of a header: a rule, the title, a rule.
pub fn header_lines(title: &str) -> (lines: Vec<String>)
    ensures
        texts_of(lines@) == seq![HEADER_RULE@, header_title(title@), HEADER_RULE@],
{
    let mut lines: Vec<String> = Vec::new();
    push_text(&mut lines, String::from_str(HEADER_RULE));
    push_text(&mut lines, join("\u{1F4F1} ", title));
    push_text(&mut lines, String::from_str(HEADER_RULE));
    assert(texts_of(lines@) =~= seq![HEADER_RULE@, header_title(title@), HEADER_RULE@]);
    lines
}

} // verus!
