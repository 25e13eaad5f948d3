//! The session and the guard that releases it: the child, its process
//! group and the lock file are given up once, however the session ends.

use uuid::Uuid;
use vstd::prelude::*;
use crate::debug_info::{DebugInfo, DebugInfoView};
use crate::text::{join, text_of};

verus! {

/// The number of characters of a session identifier.
pub const SESSION_ID_LENGTH: usize = 8;

/// Whether a character is a digit of lower-case hexadecimal notation.
pub open spec fn is_lower_hex(c: char) -> bool {
    0x30 <= c as u32 <= 0x39 || 0x61 <= c as u32 <= 0x66
}

/// Whether a text has the hyphenated form of a UUID: 36 characters, hyphens
/// after the groups of 8, 4, 4 and 4 hexadecimal digits, and lower-case
/// hexadecimal digits everywhere else.
pub open spec fn is_hyphenated_uuid(text: Seq<char>) -> bool {
    &&& text.len() == 36
    &&& forall|i: int|
        0 <= i < 36 ==> if i == 8 || i == 13 || i == 18 || i == 23 {
            #[trigger] text[i] == '-'
        } else {
            is_lower_hex(text[i])
        }
}

/// Calls `Uuid::new_v4` and writes the identifier with its `Display`.
/// Trusted: the text has the hyphenated lower-case form. Which identifier
/// it is depends on chance, so nothing more is claimed. The call panics
/// where the operating system gives no random bytes.
#[verifier::external_body]
fn random_uuid_text() -> (text: String)
    ensures
        is_hyphenated_uuid(text@),
{
    Uuid::new_v4().to_string()
}

/// The identifier that is cut from a longer text: its first eight
/// characters, or all of it where it has fewer.
pub open spec fn session_id_text(text: Seq<char>) -> Seq<char> {
    if text.len() >= SESSION_ID_LENGTH {
        text.take(SESSION_ID_LENGTH as int)
    } else {
        text
    }
}

/// Cuts a session identifier from the text of a UUID.
pub fn session_id_from(text: &str) -> (id: String)
    ensures
        id@ == session_id_text(text@),
{
    let length = text.unicode_len();
    if length >= SESSION_ID_LENGTH {
        let head = text.substring_char(0, SESSION_ID_LENGTH);
        assert(head@ =~= text@.take(SESSION_ID_LENGTH as int));
        String::from_str(head)
    } else {
        String::from_str(text)
    }
}

/// A fresh short identifier for a session: eight lower-case hexadecimal
/// digits, drawn at random.
pub fn generate_session_id() -> (id: String)
    ensures
        id@.len() == SESSION_ID_LENGTH,
        forall|i: int| 0 <= i < id@.len() ==> is_lower_hex(#[trigger] id@[i]),
{
    let text = random_uuid_text();
    session_id_from(text.as_str())
}

/// The path of the lock file of a session.
pub open spec fn lock_file_path(session_id: Seq<char>) -> Seq<char> {
    "/tmp/flutter-"@ + session_id + ".pid"@
}

/// One run of the supervisor. `P` is the handle of the spawned child; the
/// session only keeps it and hands it out, once.
pub struct FlutterSession<P> {
    process: Option<P>,
    pid_file: String,
    debug_info: DebugInfo,
    shutdown: bool,
}

impl<P> FlutterSession<P> {
    /// The handle of the child, while the session holds one.
    pub closed spec fn process(self) -> Option<P> {
        self.process
    }

    /// The path of the lock file.
    pub closed spec fn pid_file(self) -> Seq<char> {
        self.pid_file@
    }

    /// The session record.
    pub closed spec fn info(self) -> DebugInfoView {
        self.debug_info@
    }

    /// Whether shutdown has been asked for from outside the control loop.
    pub closed spec fn shutdown(self) -> bool {
        self.shutdown
    }

    /// A session that has an identity and nothing else yet: no child, no
    /// process group, nothing scraped, no shutdown asked for.
    pub fn new(session_id: String, project_path: String, device_id: Option<String>) -> (session:
        FlutterSession<P>)
        ensures
            session.process() is None,
            session.pid_file() == lock_file_path(session_id@),
            !session.shutdown(),
            session.info() == (DebugInfoView {
                session_id: session_id@,
                pid_file: lock_file_path(session_id@),
                project_path: project_path@,
                device_id: text_of(device_id),
                ..DebugInfoView::empty()
            }),
    {
        let mut pid_file = join("/tmp/flutter-", session_id.as_str());
        pid_file.append(".pid");
        let debug_info = DebugInfo::new(session_id, pid_file.clone(), project_path, device_id);
        FlutterSession { process: None, pid_file, debug_info, shutdown: false }
    }

    /// Takes over the child that was spawned and records its process
    /// group. A session holds on to the first child and the first group
    /// it is given: the new handle is returned where one is held already.
    pub fn attach_process(&mut self, process: P, process_group_id: i32) -> (refused: Option<P>)
        ensures
            final(self).pid_file() == old(self).pid_file(),
            final(self).shutdown() == old(self).shutdown(),
            old(self).process() is None ==> refused is None && final(self).process() == Some(
                process,
            ),
            old(self).process() is Some ==> refused == Some(process) && final(self).process()
                == old(self).process(),
            final(self).info() == (DebugInfoView {
                process_group_id: if old(self).process() is Some || old(
                    self,
                ).info().process_group_id is Some {
                    old(self).info().process_group_id
                } else {
                    Some(process_group_id)
                },
                ..old(self).info()
            }),
    {
        if self.process.is_some() {
            return Some(process);
        }
        self.process = Some(process);
        self.debug_info.record_process_group(process_group_id);
        None
    }

    /// The session record.
    pub fn debug_info(&self) -> (info: &DebugInfo)
        ensures
            info@ == self.info(),
    {
        &self.debug_info
    }

    /// The session record, for the scanner to write into.
    pub fn debug_info_mut(&mut self) -> (info: &mut DebugInfo)
        ensures
            info@ == old(self).info(),
            final(self).info() == final(info)@,
            final(self).process() == old(self).process(),
            final(self).pid_file() == old(self).pid_file(),
            final(self).shutdown() == old(self).shutdown(),
    {
        &mut self.debug_info
    }

    /// The handle of the child, for the liveness poll.
    pub fn process_mut(&mut self) -> (process: &mut Option<P>)
        ensures
            *process == old(self).process(),
            final(self).process() == *final(process),
            final(self).info() == old(self).info(),
            final(self).pid_file() == old(self).pid_file(),
            final(self).shutdown() == old(self).shutdown(),
    {
        &mut self.process
    }

    /// The path of the lock file.
    pub fn lock_file(&self) -> (path: &String)
        ensures
            path@ == self.pid_file(),
    {
        &self.pid_file
    }

    /// Asks for shutdown from outside the control loop. The request cannot
    /// be taken back.
    pub fn request_shutdown(&mut self)
        ensures
            final(self).shutdown(),
            final(self).process() == old(self).process(),
            final(self).pid_file() == old(self).pid_file(),
            final(self).info() == old(self).info(),
    {
        self.shutdown = true;
    }

    /// Whether shutdown has been asked for.
    pub fn shutdown_requested(&self) -> (requested: bool)
        ensures
            requested == self.shutdown(),
    {
        self.shutdown
    }
}

} // verus!
