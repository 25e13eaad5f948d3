//! The output stream scanner: what a line of the tool's output tells about
//! the session, and how the line is shown to the operator.

use regex::Regex;
use vstd::prelude::*;
use crate::debug_info::{DebugInfo, DebugInfoView};
use crate::events::AppEvent;
use crate::pattern::{
    capture, captures, compile, group_text, regex_accepts, regex_groups, regex_source, GroupTexts,
    Groups,
};
use crate::text::{is_char, join, push_text, texts_of, trim, trimmed};

verus! {

/// Announcement of the VM service; group 1 is its URL.
pub const VM_SERVICE_PATTERN: &'static str =
    r"A Dart VM Service .* is available at: (http://[^\s]+)";

/// Announcement of the companion tooling; group 1 is its URL.
pub const DEVTOOLS_PATTERN: &'static str =
    r"The Flutter DevTools.*?is available at: (http://[^\s]+)";

/// Announcement of the one-time debug secret; group 1 is the secret.
pub const APP_CHECK_PATTERN: &'static str =
    r"Enter this debug secret into the allow list.*?: ([a-f0-9-]+)";

/// Announcement of a launch; group 1 is the device, group 2 the build mode.
pub const LAUNCH_PATTERN: &'static str = r"Launching .* on (.+?) in (\w+) mode";

/// A structured log line of the Android platform, `LEVEL/flutter (pid):
/// message`; groups 1 to 3 are the level, the pid and the message.
pub const ANDROID_LOG_PATTERN: &'static str = r"^([DWIEV])/flutter \((\d+)\): (.*)$";

/// A log line of the macOS platform, `flutter: message`; group 1 is the
/// message.
pub const MACOS_LOG_PATTERN: &'static str = r"^flutter: (.*)$";

/// The kinds of line that the scanner knows.
#[derive(Clone, Copy, Debug, PartialEq, Eq, Structural)]
pub enum PatternKind {
    VmService,
    DevTools,
    AppCheck,
    Launch,
    AndroidLog,
    MacosLog,
}

/// A pattern of the scanner was refused by the pattern compiler.
#[derive(Clone, Copy, Debug, PartialEq, Eq, Structural)]
pub struct PatternError {
    /// The pattern that was refused.
    pub kind: PatternKind,
}

/// The session record after the matches of one line have been written into
/// it. Each extractor writes its own field and no other: the VM service URL,
/// the tooling URL and the debug secret are group 1 of their patterns; the
/// device and the build mode are groups 1 and 2 of the launch pattern and
/// are written together. A field whose extractor found nothing keeps its
/// value.
pub open spec fn scraped_info(
    before: DebugInfoView,
    vm_service: GroupTexts,
    devtools: GroupTexts,
    app_check: GroupTexts,
    launch: GroupTexts,
) -> DebugInfoView {
    let launched = capture(launch, 1) is Some && capture(launch, 2) is Some;
    DebugInfoView {
        vm_service_url: if capture(vm_service, 1) is Some {
            capture(vm_service, 1)
        } else {
            before.vm_service_url
        },
        devtools_url: if capture(devtools, 1) is Some {
            capture(devtools, 1)
        } else {
            before.devtools_url
        },
        app_check_token: if capture(app_check, 1) is Some {
            capture(app_check, 1)
        } else {
            before.app_check_token
        },
        device_info: if launched {
            capture(launch, 1)
        } else {
            before.device_info
        },
        build_mode: if launched {
            capture(launch, 2)
        } else {
            before.build_mode
        },
        ..before
    }
}

/// A confirmation for the operator, or none where nothing was captured.
pub open spec fn confirmation(label: Seq<char>, captured: Option<Seq<char>>) -> Seq<Seq<char>> {
    match captured {
        Some(text) => seq![label + text],
        None => seq![],
    }
}

/// The confirmations that one line gives rise to, in the order of the
/// extractors. A launch announcement is recorded without one.
pub open spec fn scrape_confirmations(
    vm_service: GroupTexts,
    devtools: GroupTexts,
    app_check: GroupTexts,
) -> Seq<Seq<char>> {
    confirmation("Captured VM Service URL: "@, capture(vm_service, 1)) + confirmation(
        "Captured DevTools URL: "@,
        capture(devtools, 1),
    ) + confirmation("Captured Firebase App Check Token: "@, capture(app_check, 1))
}

fn push_confirmation(notes: &mut Vec<String>, label: &str, captured: &Option<String>)
    ensures
        texts_of(final(notes)@) == texts_of(old(notes)@) + confirmation(
            label@,
            captured.deep_view(),
        ),
{
    if let Some(text) = captured {
        push_text(notes, join(label, text.as_str()));
    }
}

/// Writes what the four extractors found on one line into the session
/// record and returns the confirmations for the operator.
pub fn record_captures(
    debug_info: &mut DebugInfo,
    vm_service: &Groups,
    devtools: &Groups,
    app_check: &Groups,
    launch: &Groups,
) -> (notes: Vec<String>)
    ensures
        final(debug_info)@ == scraped_info(
            old(debug_info)@,
            vm_service.deep_view(),
            devtools.deep_view(),
            app_check.deep_view(),
            launch.deep_view(),
        ),
        texts_of(notes@) == scrape_confirmations(
            vm_service.deep_view(),
            devtools.deep_view(),
            app_check.deep_view(),
        ),
{
    let mut notes: Vec<String> = Vec::new();
    let url = group_text(vm_service, 1);
    push_confirmation(&mut notes, "Captured VM Service URL: ", &url);
    if let Some(url) = url {
        debug_info.set_vm_service_url(url);
    }
    let url = group_text(devtools, 1);
    push_confirmation(&mut notes, "Captured DevTools URL: ", &url);
    if let Some(url) = url {
        debug_info.set_devtools_url(url);
    }
    let token = group_text(app_check, 1);
    push_confirmation(&mut notes, "Captured Firebase App Check Token: ", &token);
    if let Some(token) = token {
        debug_info.set_app_check_token(token);
    }
    if let Some(device) = group_text(launch, 1) {
        if let Some(mode) = group_text(launch, 2) {
            debug_info.set_launch(device, mode);
        }
    }
    assert(texts_of(notes@) =~= scrape_confirmations(
        vm_service.deep_view(),
        devtools.deep_view(),
        app_check.deep_view(),
    ));
    notes
}

/// The four extractors that read the session's facts off the tool's output.
pub struct OutputParser {
    /// Finds the VM service URL.
    pub vm_service_regex: Regex,
    /// Finds the URL of the companion tooling.
    pub devtools_regex: Regex,
    /// Finds the debug secret.
    pub app_check_regex: Regex,
    /// Finds the device and the build mode.
    pub device_regex: Regex,
}

impl OutputParser {
    /// Whether the extractors were compiled from the scanner's own patterns.
    pub open spec fn standard(self) -> bool {
        &&& regex_source(self.vm_service_regex) == VM_SERVICE_PATTERN@
        &&& regex_source(self.devtools_regex) == DEVTOOLS_PATTERN@
        &&& regex_source(self.app_check_regex) == APP_CHECK_PATTERN@
        &&& regex_source(self.device_regex) == LAUNCH_PATTERN@
    }

    /// The session record after `line` has been scanned.
    pub open spec fn scraped(self, line: Seq<char>, before: DebugInfoView) -> DebugInfoView {
        scraped_info(
            before,
            regex_groups(self.vm_service_regex, line),
            regex_groups(self.devtools_regex, line),
            regex_groups(self.app_check_regex, line),
            regex_groups(self.device_regex, line),
        )
    }

    /// The confirmations that scanning `line` gives rise to.
    pub open spec fn confirmations(self, line: Seq<char>) -> Seq<Seq<char>> {
        scrape_confirmations(
            regex_groups(self.vm_service_regex, line),
            regex_groups(self.devtools_regex, line),
            regex_groups(self.app_check_regex, line),
        )
    }

    /// Puts four compiled extractors together, or names the first pattern
    /// that did not compile.
    pub fn assemble(
        vm_service: Result<Regex, regex::Error>,
        devtools: Result<Regex, regex::Error>,
        app_check: Result<Regex, regex::Error>,
        launch: Result<Regex, regex::Error>,
    ) -> (parser: Result<OutputParser, PatternError>)
        ensures
            parser is Ok <==> vm_service is Ok && devtools is Ok && app_check is Ok && launch
                is Ok,
            parser matches Ok(p) ==> {
                &&& Ok::<Regex, regex::Error>(p.vm_service_regex) == vm_service
                &&& Ok::<Regex, regex::Error>(p.devtools_regex) == devtools
                &&& Ok::<Regex, regex::Error>(p.app_check_regex) == app_check
                &&& Ok::<Regex, regex::Error>(p.device_regex) == launch
            },
            parser matches Err(e) ==> e.kind == (if vm_service is Err {
                PatternKind::VmService
            } else if devtools is Err {
                PatternKind::DevTools
            } else if app_check is Err {
                PatternKind::AppCheck
            } else {
                PatternKind::Launch
            }),
    {
        let vm_service_regex = match vm_service {
            Ok(re) => re,
            Err(_) => return Err(PatternError { kind: PatternKind::VmService }),
        };
        let devtools_regex = match devtools {
            Ok(re) => re,
            Err(_) => return Err(PatternError { kind: PatternKind::DevTools }),
        };
        let app_check_regex = match app_check {
            Ok(re) => re,
            Err(_) => return Err(PatternError { kind: PatternKind::AppCheck }),
        };
        let device_regex = match launch {
            Ok(re) => re,
            Err(_) => return Err(PatternError { kind: PatternKind::Launch }),
        };
        Ok(OutputParser { vm_service_regex, devtools_regex, app_check_regex, device_regex })
    }

    /// The first of the extractors' patterns that the pattern compiler
    /// does not accept, if there is one.
    pub open spec fn refused_pattern() -> Option<PatternKind> {
        if !regex_accepts(VM_SERVICE_PATTERN@) {
            Some(PatternKind::VmService)
        } else if !regex_accepts(DEVTOOLS_PATTERN@) {
            Some(PatternKind::DevTools)
        } else if !regex_accepts(APP_CHECK_PATTERN@) {
            Some(PatternKind::AppCheck)
        } else if !regex_accepts(LAUNCH_PATTERN@) {
            Some(PatternKind::Launch)
        } else {
            None
        }
    }

    /// Compiles the scanner's patterns. The parser is there exactly if
    /// the pattern compiler accepts all four of them; else the error names
    /// the first that it refused.
    pub fn new() -> (parser: Result<OutputParser, PatternError>)
        ensures
            parser is Ok <==> regex_accepts(VM_SERVICE_PATTERN@) && regex_accepts(
                DEVTOOLS_PATTERN@,
            ) && regex_accepts(APP_CHECK_PATTERN@) && regex_accepts(LAUNCH_PATTERN@),
            parser matches Ok(p) ==> p.standard(),
            parser matches Err(e) ==> Some(e.kind) == OutputParser::refused_pattern(),
    {
        OutputParser::assemble(
            compile(VM_SERVICE_PATTERN),
            compile(DEVTOOLS_PATTERN),
            compile(APP_CHECK_PATTERN),
            compile(LAUNCH_PATTERN),
        )
    }

    /// Scans one line: every extractor is tried, each match is written into
    /// the session record, and the confirmations for the operator are
    /// returned.
    pub fn parse_line(&self, line: &str, debug_info: &mut DebugInfo) -> (notes: Vec<String>)
        ensures
            final(debug_info)@ == self.scraped(line@, old(debug_info)@),
            final(debug_info)@.follows(old(debug_info)@),
            texts_of(notes@) == self.confirmations(line@),
    {
        let vm_service = captures(&self.vm_service_regex, line);
        let devtools = captures(&self.devtools_regex, line);
        let app_check = captures(&self.app_check_regex, line);
        let launch = captures(&self.device_regex, line);
        record_captures(debug_info, &vm_service, &devtools, &app_check, &launch)
    }
}

/// The session record never loses a fact to a line: whatever the extractors
/// find, a field that was known stays known, and the session's identity and
/// process group are untouched.
pub proof fn law_scraped_fields_stay(
    before: DebugInfoView,
    vm_service: GroupTexts,
    devtools: GroupTexts,
    app_check: GroupTexts,
    launch: GroupTexts,
)
    ensures
        scraped_info(before, vm_service, devtools, app_check, launch).follows(before),
{
}

/// A line that no extractor matches leaves the session record exactly as it
/// was.
pub proof fn law_unmatched_line_changes_nothing(
    parser: OutputParser,
    line: Seq<char>,
    before: DebugInfoView,
)
    requires
        regex_groups(parser.vm_service_regex, line) is None,
        regex_groups(parser.devtools_regex, line) is None,
        regex_groups(parser.app_check_regex, line) is None,
        regex_groups(parser.device_regex, line) is None,
    ensures
        parser.scraped(line, before) == before,
        parser.confirmations(line) == Seq::<Seq<char>>::empty(),
{
    assert(parser.confirmations(line) =~= Seq::<Seq<char>>::empty());
}

/// A line that exactly one extractor matches sets the field of that
/// extractor to the captured text and leaves every other field untouched.
pub proof fn law_matching_line_sets_its_field(
    parser: OutputParser,
    line: Seq<char>,
    before: DebugInfoView,
)
    ensures
        ({
            &&& capture(regex_groups(parser.vm_service_regex, line), 1) matches Some(url)
            &&& regex_groups(parser.devtools_regex, line) is None
            &&& regex_groups(parser.app_check_regex, line) is None
            &&& regex_groups(parser.device_regex, line) is None
        }) ==> parser.scraped(line, before) == (DebugInfoView {
            vm_service_url: capture(regex_groups(parser.vm_service_regex, line), 1),
            ..before
        }),
        ({
            &&& regex_groups(parser.vm_service_regex, line) is None
            &&& capture(regex_groups(parser.devtools_regex, line), 1) matches Some(url)
            &&& regex_groups(parser.app_check_regex, line) is None
            &&& regex_groups(parser.device_regex, line) is None
        }) ==> parser.scraped(line, before) == (DebugInfoView {
            devtools_url: capture(regex_groups(parser.devtools_regex, line), 1),
            ..before
        }),
        ({
            &&& regex_groups(parser.vm_service_regex, line) is None
            &&& regex_groups(parser.devtools_regex, line) is None
            &&& capture(regex_groups(parser.app_check_regex, line), 1) matches Some(token)
            &&& regex_groups(parser.device_regex, line) is None
        }) ==> parser.scraped(line, before) == (DebugInfoView {
            app_check_token: capture(regex_groups(parser.app_check_regex, line), 1),
            ..before
        }),
        ({
            &&& regex_groups(parser.vm_service_regex, line) is None
            &&& regex_groups(parser.devtools_regex, line) is None
            &&& regex_groups(parser.app_check_regex, line) is None
            &&& capture(regex_groups(parser.device_regex, line), 1) matches Some(device)
            &&& capture(regex_groups(parser.device_regex, line), 2) matches Some(mode)
        }) ==> parser.scraped(line, before) == (DebugInfoView {
            device_info: capture(regex_groups(parser.device_regex, line), 1),
            build_mode: capture(regex_groups(parser.device_regex, line), 2),
            ..before
        }),
{
}

/// The glyph shown for the information level: a circled letter i.
pub const GLYPH_INFO: &'static str = "\u{24D8}";

/// The glyph shown for the debug level: a bug.
pub const GLYPH_DEBUG: &'static str = "\u{1F41B}";

/// The glyph shown for the warning level: a warning sign.
pub const GLYPH_WARNING: &'static str = "\u{26A0}\u{FE0F}";

/// The glyph shown for the error level: a cross mark.
pub const GLYPH_ERROR: &'static str = "\u{274C}";

/// The glyph shown for the verbose level: a magnifying glass.
pub const GLYPH_VERBOSE: &'static str = "\u{1F50D}";

/// The glyph shown for a level that has none of its own: a memo.
pub const GLYPH_OTHER: &'static str = "\u{1F4DD}";

/// The glyph that stands for a severity level in a cleaned line.
pub open spec fn level_glyph(level: Seq<char>) -> Seq<char> {
    if level == seq!['I'] {
        GLYPH_INFO@
    } else if level == seq!['D'] {
        GLYPH_DEBUG@
    } else if level == seq!['W'] {
        GLYPH_WARNING@
    } else if level == seq!['E'] {
        GLYPH_ERROR@
    } else if level == seq!['V'] {
        GLYPH_VERBOSE@
    } else {
        GLYPH_OTHER@
    }
}

/// Chooses the glyph for a severity level.
pub fn glyph_for_level(level: &str) -> (glyph: &'static str)
    ensures
        glyph@ == level_glyph(level@),
{
    if is_char(level, 'I') {
        GLYPH_INFO
    } else if is_char(level, 'D') {
        GLYPH_DEBUG
    } else if is_char(level, 'W') {
        GLYPH_WARNING
    } else if is_char(level, 'E') {
        GLYPH_ERROR
    } else if is_char(level, 'V') {
        GLYPH_VERBOSE
    } else {
        GLYPH_OTHER
    }
}

/// Whether the groups are those of a structured Android log line: level,
/// pid and message all took part in the match.
pub open spec fn is_android_line(android: GroupTexts) -> bool {
    capture(android, 1) is Some && capture(android, 2) is Some && capture(android, 3) is Some
}

/// The line as it is shown in clean-output mode. A structured Android line
/// becomes the glyph of its level, a space and its message; a macOS line
/// becomes its message; any other line is shown as it is.
pub open spec fn cleaned_text(line: Seq<char>, android: GroupTexts, macos: GroupTexts) -> Seq<
    char,
> {
    if is_android_line(android) {
        level_glyph(capture(android, 1)->0) + seq![' '] + capture(android, 3)->0
    } else if capture(macos, 1) is Some {
        capture(macos, 1)->0
    } else {
        line
    }
}

/// The session record after a line has been cleaned: the pid of a
/// structured Android line is noted the first time one is seen.
pub open spec fn cleaned_info(before: DebugInfoView, android: GroupTexts) -> DebugInfoView {
    if is_android_line(android) && before.android_log_pid is None {
        DebugInfoView { android_log_pid: capture(android, 2), ..before }
    } else {
        before
    }
}

/// Rewrites a line for display, given what the two log-line patterns found
/// on it, and notes the pid of a structured line in the session record.
pub fn clean_with(line: &str, android: &Groups, macos: &Groups, debug_info: &mut DebugInfo) -> (shown:
    String)
    ensures
        shown@ == cleaned_text(line@, android.deep_view(), macos.deep_view()),
        final(debug_info)@ == cleaned_info(old(debug_info)@, android.deep_view()),
{
    if let Some(level) = group_text(android, 1) {
        if let Some(pid) = group_text(android, 2) {
            if let Some(message) = group_text(android, 3) {
                debug_info.note_android_log_pid(pid);
                proof {
                    reveal_strlit(" ");
                }
                let mut shown = join(glyph_for_level(level.as_str()), " ");
                shown.append(message.as_str());
                assert(shown@ =~= cleaned_text(line@, android.deep_view(), macos.deep_view()));
                return shown;
            }
        }
    }
    match group_text(macos, 1) {
        Some(message) => message,
        None => String::from_str(line),
    }
}

/// The two patterns that recognise the platforms' log-line prefixes.
pub struct LineCleaner {
    /// Recognises a structured Android log line.
    pub android_regex: Regex,
    /// Recognises a macOS log line.
    pub macos_regex: Regex,
}

impl LineCleaner {
    /// Whether the patterns are the scanner's own.
    pub open spec fn standard(self) -> bool {
        &&& regex_source(self.android_regex) == ANDROID_LOG_PATTERN@
        &&& regex_source(self.macos_regex) == MACOS_LOG_PATTERN@
    }

    /// The line as it is shown in clean-output mode.
    pub open spec fn cleaned(self, line: Seq<char>) -> Seq<char> {
        cleaned_text(
            line,
            regex_groups(self.android_regex, line),
            regex_groups(self.macos_regex, line),
        )
    }

    /// The session record after `line` has been cleaned.
    pub open spec fn noted(self, line: Seq<char>, before: DebugInfoView) -> DebugInfoView {
        cleaned_info(before, regex_groups(self.android_regex, line))
    }

    /// Puts two compiled patterns together, or names the first that did
    /// not compile.
    pub fn assemble(android: Result<Regex, regex::Error>, macos: Result<Regex, regex::Error>) -> (cleaner:
        Result<LineCleaner, PatternError>)
        ensures
            cleaner is Ok <==> android is Ok && macos is Ok,
            cleaner matches Ok(c) ==> {
                &&& Ok::<Regex, regex::Error>(c.android_regex) == android
                &&& Ok::<Regex, regex::Error>(c.macos_regex) == macos
            },
            cleaner matches Err(e) ==> e.kind == (if android is Err {
                PatternKind::AndroidLog
            } else {
                PatternKind::MacosLog
            }),
    {
        let android_regex = match android {
            Ok(re) => re,
            Err(_) => return Err(PatternError { kind: PatternKind::AndroidLog }),
        };
        let macos_regex = match macos {
            Ok(re) => re,
            Err(_) => return Err(PatternError { kind: PatternKind::MacosLog }),
        };
        Ok(LineCleaner { android_regex, macos_regex })
    }

    /// The first of the two log-line patterns that the pattern compiler
    /// does not accept, if there is one.
    pub open spec fn refused_pattern() -> Option<PatternKind> {
        if !regex_accepts(ANDROID_LOG_PATTERN@) {
            Some(PatternKind::AndroidLog)
        } else if !regex_accepts(MACOS_LOG_PATTERN@) {
            Some(PatternKind::MacosLog)
        } else {
            None
        }
    }

    /// Compiles the two log-line patterns. The cleaner is there exactly if
    /// the pattern compiler accepts both; else the error names the first
    /// that it refused.
    pub fn new() -> (cleaner: Result<LineCleaner, PatternError>)
        ensures
            cleaner is Ok <==> regex_accepts(ANDROID_LOG_PATTERN@) && regex_accepts(
                MACOS_LOG_PATTERN@,
            ),
            cleaner matches Ok(c) ==> c.standard(),
            cleaner matches Err(e) ==> Some(e.kind) == LineCleaner::refused_pattern(),
    {
        LineCleaner::assemble(compile(ANDROID_LOG_PATTERN), compile(MACOS_LOG_PATTERN))
    }
}

/// Strips the platform's log prefix from a line and puts a glyph in place
/// of its severity level; a line in no known format is returned as it is.
/// The pid of a structured line is noted in the session record the first
/// time one is seen.
pub fn clean_flutter_log_line(cleaner: &LineCleaner, line: &str, debug_info: &mut DebugInfo) -> (shown:
    String)
    ensures
        shown@ == cleaner.cleaned(line@),
        final(debug_info)@ == cleaner.noted(line@, old(debug_info)@),
        final(debug_info)@.follows(old(debug_info)@),
{
    let android = captures(&cleaner.android_regex, line);
    let macos = captures(&cleaner.macos_regex, line);
    clean_with(line, &android, &macos, debug_info)
}

/// How a line is echoed to the operator.
#[derive(Debug)]
pub enum Echo {
    /// The cleaned line; a line terminator is to be written after it.
    Cleaned(String),
    /// The line as it was read, terminator included.
    Raw(String),
}

/// The mathematical content of an [`Echo`].
pub enum EchoText {
    Cleaned(Seq<char>),
    Raw(Seq<char>),
}

impl View for Echo {
    type V = EchoText;

    open spec fn view(&self) -> EchoText {
        match self {
            Echo::Cleaned(text) => EchoText::Cleaned(text@),
            Echo::Raw(text) => EchoText::Raw(text@),
        }
    }
}

/// What scanning one line asks of the caller.
#[derive(Debug)]
pub struct LineReport {
    /// Confirmations of captured facts, to be shown before the echo.
    pub confirmations: Vec<String>,
    /// The event to forward to the control loop, if any.
    pub event: Option<AppEvent>,
    /// The echo of the line, if any.
    pub echo: Option<Echo>,
}

/// The mathematical content of a [`LineReport`].
pub struct LineReportView {
    pub confirmations: Seq<Seq<char>>,
    pub event: Option<AppEvent>,
    pub echo: Option<EchoText>,
}

impl View for LineReport {
    type V = LineReportView;

    open spec fn view(&self) -> LineReportView {
        LineReportView {
            confirmations: texts_of(self.confirmations@),
            event: self.event,
            echo: match self.echo {
                Some(echo) => Some(echo@),
                None => None,
            },
        }
    }
}

/// The scanner of one output stream of the child. Standard output and
/// standard error each have one, and both write into the same session
/// record.
pub struct OutputScanner {
    /// The extractors of the session's facts.
    pub parser: OutputParser,
    /// The patterns of the platforms' log prefixes.
    pub cleaner: LineCleaner,
}

impl OutputScanner {
    /// The session record after a line has been scanned. A line that is
    /// blank is skipped. Any other line runs through the extractors, and in
    /// clean-output mode through the cleaner after them.
    pub open spec fn scanned_info(self, line: Seq<char>, clean: bool, before: DebugInfoView)
        -> DebugInfoView {
        let content = trimmed(line);
        if content.len() == 0 {
            before
        } else {
            let parsed = self.parser.scraped(content, before);
            if clean {
                self.cleaner.noted(content, parsed)
            } else {
                parsed
            }
        }
    }

    /// What scanning a line asks of the caller. A blank line asks for
    /// nothing. Any other line is announced to the control loop and echoed:
    /// cleaned in clean-output mode, else as it was read.
    pub open spec fn scanned_report(self, line: Seq<char>, clean: bool) -> LineReportView {
        let content = trimmed(line);
        if content.len() == 0 {
            LineReportView { confirmations: seq![], event: None, echo: None }
        } else {
            LineReportView {
                confirmations: self.parser.confirmations(content),
                event: Some(AppEvent::FlutterOutput),
                echo: Some(
                    if clean {
                        EchoText::Cleaned(self.cleaner.cleaned(content))
                    } else {
                        EchoText::Raw(line)
                    },
                ),
            }
        }
    }

    /// The first of the scanner's patterns that the pattern compiler does
    /// not accept, if there is one: the extractors' patterns come before
    /// the log-line patterns.
    pub open spec fn refused_pattern() -> Option<PatternKind> {
        match OutputParser::refused_pattern() {
            Some(kind) => Some(kind),
            None => LineCleaner::refused_pattern(),
        }
    }

    /// Compiles the patterns of a scanner. The scanner is there exactly if
    /// the pattern compiler accepts all six of them; else the error names
    /// the first that it refused.
    pub fn new() -> (scanner: Result<OutputScanner, PatternError>)
        ensures
            scanner is Ok <==> OutputScanner::refused_pattern() is None,
            scanner matches Ok(s) ==> s.parser.standard() && s.cleaner.standard(),
            scanner matches Err(e) ==> Some(e.kind) == OutputScanner::refused_pattern(),
    {
        let parser = match OutputParser::new() {
            Ok(parser) => parser,
            Err(e) => return Err(e),
        };
        let cleaner = match LineCleaner::new() {
            Ok(cleaner) => cleaner,
            Err(e) => return Err(e),
        };
        Ok(OutputScanner { parser, cleaner })
    }

    /// Scans one line as it was read from a stream of the child, line
    /// terminator included: updates the session record and says what to
    /// show and what to forward.
    pub fn scan_line(&self, line: &str, clean: bool, debug_info: &mut DebugInfo) -> (report:
        LineReport)
        ensures
            final(debug_info)@ == self.scanned_info(line@, clean, old(debug_info)@),
            final(debug_info)@.follows(old(debug_info)@),
            report@ == self.scanned_report(line@, clean),
    {
        let content = trim(line);
        if content.is_empty() {
            let report = LineReport { confirmations: Vec::new(), event: None, echo: None };
            assert(report@.confirmations =~= seq![]);
            return report;
        }
        let confirmations = self.parser.parse_line(content, debug_info);
        let echo = if clean {
            Echo::Cleaned(clean_flutter_log_line(&self.cleaner, content, debug_info))
        } else {
            Echo::Raw(String::from_str(line))
        };
        LineReport { confirmations, event: Some(AppEvent::FlutterOutput), echo: Some(echo) }
    }
}

} // verus!
