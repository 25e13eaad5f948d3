//! The facts about a session that are scraped from the tool's output or set
//! by the supervisor, and their rendering for the operator.

use vstd::prelude::*;
use crate::text::{clone_text, join, push_text, text_of, texts_of};

verus! {

/// A snapshot of what is known about the running session.
///
/// The scraped fields start empty and are only ever overwritten by a newer
/// match of the same kind; nothing clears them while the session lasts. The
/// process group is recorded once.
#[derive(Debug)]
pub struct DebugInfo {
    vm_service_url: Option<String>,
    devtools_url: Option<String>,
    app_check_token: Option<String>,
    device_info: Option<String>,
    device_id: Option<String>,
    build_mode: Option<String>,
    android_log_pid: Option<String>,
    session_id: String,
    pid_file: String,
    project_path: String,
    process_group_id: Option<i32>,
}

/// The mathematical content of a [`DebugInfo`].
pub struct DebugInfoView {
    /// URL of the VM service.
    pub vm_service_url: Option<Seq<char>>,
    /// URL of the companion tooling.
    pub devtools_url: Option<Seq<char>>,
    /// The debug secret that the tool announced.
    pub app_check_token: Option<Seq<char>>,
    /// Human-readable description of the device.
    pub device_info: Option<Seq<char>>,
    /// Identifier of the device, as the operator gave it.
    pub device_id: Option<Seq<char>>,
    /// The build mode that the tool announced.
    pub build_mode: Option<Seq<char>>,
    /// Process id seen in the platform's structured log lines.
    pub android_log_pid: Option<Seq<char>>,
    /// Short identifier of the session.
    pub session_id: Seq<char>,
    /// Path of the lock file.
    pub pid_file: Seq<char>,
    /// Absolute path of the project.
    pub project_path: Seq<char>,
    /// Process group of the child, once it has been spawned.
    pub process_group_id: Option<i32>,
}

impl DebugInfoView {
    /// The state before anything is known.
    pub open spec fn empty() -> DebugInfoView {
        DebugInfoView {
            vm_service_url: None,
            devtools_url: None,
            app_check_token: None,
            device_info: None,
            device_id: None,
            build_mode: None,
            android_log_pid: None,
            session_id: Seq::empty(),
            pid_file: Seq::empty(),
            project_path: Seq::empty(),
            process_group_id: None,
        }
    }

    /// Whether `self` can follow `earlier` in one session: no scraped field
    /// that was known has become unknown, the session's identity is the
    /// same, and a recorded process group has not changed.
    pub open spec fn follows(self, earlier: DebugInfoView) -> bool {
        &&& earlier.vm_service_url is Some ==> self.vm_service_url is Some
        &&& earlier.devtools_url is Some ==> self.devtools_url is Some
        &&& earlier.app_check_token is Some ==> self.app_check_token is Some
        &&& earlier.device_info is Some ==> self.device_info is Some
        &&& earlier.build_mode is Some ==> self.build_mode is Some
        &&& earlier.android_log_pid is Some ==> self.android_log_pid == earlier.android_log_pid
        &&& earlier.process_group_id is Some ==> self.process_group_id == earlier.process_group_id
        &&& self.device_id == earlier.device_id
        &&& self.session_id == earlier.session_id
        &&& self.pid_file == earlier.pid_file
        &&& self.project_path == earlier.project_path
    }
}

impl View for DebugInfo {
    type V = DebugInfoView;

    closed spec fn view(&self) -> DebugInfoView {
        DebugInfoView {
            vm_service_url: text_of(self.vm_service_url),
            devtools_url: text_of(self.devtools_url),
            app_check_token: text_of(self.app_check_token),
            device_info: text_of(self.device_info),
            device_id: text_of(self.device_id),
            build_mode: text_of(self.build_mode),
            android_log_pid: text_of(self.android_log_pid),
            session_id: self.session_id@,
            pid_file: self.pid_file@,
            project_path: self.project_path@,
            process_group_id: self.process_group_id,
        }
    }
}

impl Default for DebugInfo {
    fn default() -> (info: DebugInfo)
        ensures
            info@ == DebugInfoView::empty(),
    {
        DebugInfo {
            vm_service_url: None,
            devtools_url: None,
            app_check_token: None,
            device_info: None,
            device_id: None,
            build_mode: None,
            android_log_pid: None,
            session_id: String::new(),
            pid_file: String::new(),
            project_path: String::new(),
            process_group_id: None,
        }
    }
}

impl DebugInfo {
    /// The record of a session that has just been created: its identity is
    /// known, nothing has been scraped yet and no child has been spawned.
    pub fn new(
        session_id: String,
        pid_file: String,
        project_path: String,
        device_id: Option<String>,
    ) -> (info: DebugInfo)
        ensures
            info@ == (DebugInfoView {
                session_id: session_id@,
                pid_file: pid_file@,
                project_path: project_path@,
                device_id: text_of(device_id),
                ..DebugInfoView::empty()
            }),
    {
        DebugInfo {
            vm_service_url: None,
            devtools_url: None,
            app_check_token: None,
            device_info: None,
            device_id,
            build_mode: None,
            android_log_pid: None,
            session_id,
            pid_file,
            project_path,
            process_group_id: None,
        }
    }

    /// A copy of the record, as the display command takes it.
    pub fn snapshot(&self) -> (copy: DebugInfo)
        ensures
            copy@ == self@,
    {
        DebugInfo {
            vm_service_url: clone_text(&self.vm_service_url),
            devtools_url: clone_text(&self.devtools_url),
            app_check_token: clone_text(&self.app_check_token),
            device_info: clone_text(&self.device_info),
            device_id: clone_text(&self.device_id),
            build_mode: clone_text(&self.build_mode),
            android_log_pid: clone_text(&self.android_log_pid),
            session_id: self.session_id.clone(),
            pid_file: self.pid_file.clone(),
            project_path: self.project_path.clone(),
            process_group_id: self.process_group_id,
        }
    }

    /// Records a newly announced VM service URL.
    pub fn set_vm_service_url(&mut self, url: String)
        ensures
            final(self)@ == (DebugInfoView { vm_service_url: Some(url@), ..old(self)@ }),
    {
        self.vm_service_url = Some(url);
    }

    /// Records a newly announced URL of the companion tooling.
    pub fn set_devtools_url(&mut self, url: String)
        ensures
            final(self)@ == (DebugInfoView { devtools_url: Some(url@), ..old(self)@ }),
    {
        self.devtools_url = Some(url);
    }

    /// Records a newly announced debug secret.
    pub fn set_app_check_token(&mut self, token: String)
        ensures
            final(self)@ == (DebugInfoView { app_check_token: Some(token@), ..old(self)@ }),
    {
        self.app_check_token = Some(token);
    }

    /// Records the device and the build mode of a launch announcement; the
    /// two are always captured together.
    pub fn set_launch(&mut self, device: String, mode: String)
        ensures
            final(self)@ == (DebugInfoView {
                device_info: Some(device@),
                build_mode: Some(mode@),
                ..old(self)@
            }),
    {
        self.device_info = Some(device);
        self.build_mode = Some(mode);
    }

    /// Records the process id of a structured log line, unless one has been
    /// recorded before: the first one seen stays.
    pub fn note_android_log_pid(&mut self, pid: String)
        ensures
            final(self)@ == (DebugInfoView {
                android_log_pid: if old(self)@.android_log_pid is Some {
                    old(self)@.android_log_pid
                } else {
                    Some(pid@)
                },
                ..old(self)@
            }),
    {
        if self.android_log_pid.is_none() {
            self.android_log_pid = Some(pid);
        }
    }

    /// Records the process group of the spawned child. It is set once: a
    /// later call leaves the recorded group as it is.
    pub fn record_process_group(&mut self, pgid: i32)
        ensures
            final(self)@ == (DebugInfoView {
                process_group_id: if old(self)@.process_group_id is Some {
                    old(self)@.process_group_id
                } else {
                    Some(pgid)
                },
                ..old(self)@
            }),
    {
        if self.process_group_id.is_none() {
            self.process_group_id = Some(pgid);
        }
    }

    /// URL of the VM service, once announced.
    pub fn vm_service_url(&self) -> (url: &Option<String>)
        ensures
            text_of(*url) == self@.vm_service_url,
    {
        &self.vm_service_url
    }

    /// URL of the companion tooling, once announced.
    pub fn devtools_url(&self) -> (url: &Option<String>)
        ensures
            text_of(*url) == self@.devtools_url,
    {
        &self.devtools_url
    }

    /// The debug secret, once announced.
    pub fn app_check_token(&self) -> (token: &Option<String>)
        ensures
            text_of(*token) == self@.app_check_token,
    {
        &self.app_check_token
    }

    /// Description of the device, once announced.
    pub fn device_info(&self) -> (device: &Option<String>)
        ensures
            text_of(*device) == self@.device_info,
    {
        &self.device_info
    }

    /// Identifier of the device, if the operator gave one.
    pub fn device_id(&self) -> (id: &Option<String>)
        ensures
            text_of(*id) == self@.device_id,
    {
        &self.device_id
    }

    /// The build mode, once announced.
    pub fn build_mode(&self) -> (mode: &Option<String>)
        ensures
            text_of(*mode) == self@.build_mode,
    {
        &self.build_mode
    }

    /// Process id of the structured log lines, once seen.
    pub fn android_log_pid(&self) -> (pid: &Option<String>)
        ensures
            text_of(*pid) == self@.android_log_pid,
    {
        &self.android_log_pid
    }

    /// Short identifier of the session.
    pub fn session_id(&self) -> (id: &String)
        ensures
            id@ == self@.session_id,
    {
        &self.session_id
    }

    /// Path of the lock file.
    pub fn pid_file(&self) -> (path: &String)
        ensures
            path@ == self@.pid_file,
    {
        &self.pid_file
    }

    /// Absolute path of the project.
    pub fn project_path(&self) -> (path: &String)
        ensures
            path@ == self@.project_path,
    {
        &self.project_path
    }

    /// Process group of the child, once spawned.
    pub fn process_group_id(&self) -> (pgid: Option<i32>)
        ensures
            pgid == self@.process_group_id,
    {
        self.process_group_id
    }
}

/// What `str::to_uppercase` gives for a text: its upper-case equivalent by
/// the rules of Unicode.
pub uninterp spec fn uppercase_text(text: Seq<char>) -> Seq<char>;

/// Calls `str::to_uppercase`. Trusted: the result is the one named by
/// [`uppercase_text`].
#[verifier::external_body]
fn to_uppercase(text: &str) -> (upper: String)
    ensures
        upper@ == uppercase_text(text@),
{
    text.to_uppercase()
}

/// The first line of the display: a clipboard and the session identifier,
/// then the pid of the structured log lines and, after a wrench, the label
/// of the build mode, each where it is known.
pub open spec fn identity_line(
    session_id: Seq<char>,
    pid: Option<Seq<char>>,
    mode_label: Option<Seq<char>>,
) -> Seq<char> {
    "\u{1F4CB} ID: "@ + session_id + (match pid {
        Some(pid) => " / PID: "@ + pid,
        None => Seq::empty(),
    }) + (match mode_label {
        Some(label) => " / \u{1F527} "@ + label,
        None => Seq::empty(),
    })
}

/// The line of the device: a phone and the description of the device, with
/// the identifier that the operator gave in brackets behind it.
pub open spec fn device_line(device: Seq<char>, device_id: Option<Seq<char>>) -> Seq<char> {
    "\u{1F4F1} Device: "@ + device + (match device_id {
        Some(id) => " ("@ + id + ")"@,
        None => Seq::empty(),
    })
}

/// A line made of a label and a value, or no line where the value is not
/// known.
pub open spec fn labelled_line(label: Seq<char>, value: Option<Seq<char>>) -> Seq<Seq<char>> {
    match value {
        Some(value) => seq![label + value],
        None => seq![],
    }
}

/// The lines of the display, given the label of the build mode: identity,
/// project path and lock file always; device, VM service, companion
/// tooling and debug secret where they are known.
pub open spec fn display_lines(info: DebugInfoView, mode_label: Option<Seq<char>>) -> Seq<
    Seq<char>,
> {
    seq![
        identity_line(info.session_id, info.android_log_pid, mode_label),
        "\u{1F4C1} Project Path: "@ + info.project_path,
        "\u{1F4C4} PID File: "@ + info.pid_file,
    ] + (match info.device_info {
        Some(device) => seq![device_line(device, info.device_id)],
        None => seq![],
    }) + labelled_line("\u{1F310} VM Service: "@, info.vm_service_url) + labelled_line(
        "\u{1F6E0}\u{FE0F} DevTools: "@,
        info.devtools_url,
    ) + labelled_line("\u{1F510} Firebase App Check Token: "@, info.app_check_token)
}

/// The label under which a build mode is shown: its name in upper case.
pub open spec fn mode_label_of(build_mode: Option<Seq<char>>) -> Option<Seq<char>> {
    match build_mode {
        Some(mode) => Some(uppercase_text(mode)),
        None => None,
    }
}

fn push_labelled_line(lines: &mut Vec<String>, label: &str, value: &Option<String>)
    ensures
        texts_of(final(lines)@) == texts_of(old(lines)@) + labelled_line(label@, text_of(*value)),
{
    if let Some(value) = value {
        push_text(lines, join(label, value.as_str()));
    }
}

/// Renders the session record, given the label of the build mode.
pub fn display_with_label(info: &DebugInfo, mode_label: &Option<String>) -> (lines: Vec<String>)
    ensures
        texts_of(lines@) == display_lines(info@, text_of(*mode_label)),
{
    let mut identity = join("\u{1F4CB} ID: ", info.session_id.as_str());
    if let Some(pid) = &info.android_log_pid {
        identity.append(" / PID: ");
        identity.append(pid.as_str());
    }
    if let Some(label) = mode_label {
        identity.append(" / \u{1F527} ");
        identity.append(label.as_str());
    }
    assert(identity@ =~= identity_line(
        info@.session_id,
        info@.android_log_pid,
        text_of(*mode_label),
    ));
    let mut lines: Vec<String> = Vec::new();
    push_text(&mut lines, identity);
    push_text(&mut lines, join("\u{1F4C1} Project Path: ", info.project_path.as_str()));
    push_text(&mut lines, join("\u{1F4C4} PID File: ", info.pid_file.as_str()));
    if let Some(device) = &info.device_info {
        let mut line = join("\u{1F4F1} Device: ", device.as_str());
        if let Some(id) = &info.device_id {
            line.append(" (");
            line.append(id.as_str());
            line.append(")");
        }
        assert(line@ =~= device_line(device@, info@.device_id));
        push_text(&mut lines, line);
    }
    push_labelled_line(&mut lines, "\u{1F310} VM Service: ", &info.vm_service_url);
    push_labelled_line(&mut lines, "\u{1F6E0}\u{FE0F} DevTools: ", &info.devtools_url);
    push_labelled_line(
        &mut lines,
        "\u{1F510} Firebase App Check Token: ",
        &info.app_check_token,
    );
    assert(texts_of(lines@) =~= display_lines(info@, text_of(*mode_label)));
    lines
}

/// Renders the session record for the operator, one line per fact. The
/// build mode is shown in upper case.
pub fn display_debug_info(debug_info: &DebugInfo) -> (lines: Vec<String>)
    ensures
        texts_of(lines@) == display_lines(debug_info@, mode_label_of(debug_info@.build_mode)),
{
    let mode_label = match &debug_info.build_mode {
        Some(mode) => Some(to_uppercase(mode.as_str())),
        None => None,
    };
    display_with_label(debug_info, &mode_label)
}

} // verus!
