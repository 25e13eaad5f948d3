//! The command line with which the external tool is started.

use vstd::prelude::*;
use crate::text::{push_text, text_of, texts_of};

verus! {

/// What the operator chose for one run of the tool.
#[derive(Clone, Debug)]
pub struct Args {
    /// Path of the project; the working directory of the tool.
    pub path: String,
    /// The tool's subcommand, usually `run`.
    pub command: String,
    /// Build flavor.
    pub flavor: Option<String>,
    /// Entry-point file.
    pub target: Option<String>,
    /// Identifier of the device to run on.
    pub device_id: Option<String>,
    /// Build in debug mode.
    pub debug: bool,
    /// Build in profile mode.
    pub profile: bool,
    /// Build in release mode.
    pub release: bool,
    /// Verbose logging of the tool.
    pub verbose: bool,
    /// Strip the platform's log prefixes from echoed lines.
    pub strip_flutter_prefix: bool,
    /// Arguments handed through to the tool unchanged.
    pub flutter_args: Vec<String>,
}

/// The mathematical content of an [`Args`].
pub struct ArgsView {
    pub path: Seq<char>,
    pub command: Seq<char>,
    pub flavor: Option<Seq<char>>,
    pub target: Option<Seq<char>>,
    pub device_id: Option<Seq<char>>,
    pub debug: bool,
    pub profile: bool,
    pub release: bool,
    pub verbose: bool,
    pub strip_flutter_prefix: bool,
    pub flutter_args: Seq<Seq<char>>,
}

impl View for Args {
    type V = ArgsView;

    open spec fn view(&self) -> ArgsView {
        ArgsView {
            path: self.path@,
            command: self.command@,
            flavor: text_of(self.flavor),
            target: text_of(self.target),
            device_id: text_of(self.device_id),
            debug: self.debug,
            profile: self.profile,
            release: self.release,
            verbose: self.verbose,
            strip_flutter_prefix: self.strip_flutter_prefix,
            flutter_args: texts_of(self.flutter_args@),
        }
    }
}

/// A flag followed by its value, or nothing where no value was chosen.
pub open spec fn valued_flag(flag: Seq<char>, value: Option<Seq<char>>) -> Seq<Seq<char>> {
    match value {
        Some(v) => seq![flag, v],
        None => seq![],
    }
}

/// A flag that stands alone, or nothing where it was not chosen.
pub open spec fn switch_flag(flag: Seq<char>, on: bool) -> Seq<Seq<char>> {
    if on {
        seq![flag]
    } else {
        seq![]
    }
}

/// The arguments of the tool's invocation: the subcommand, the lock file
/// that the tool is to write, the chosen options in a fixed order, and the
/// pass-through arguments last. The three build modes do not exclude each
/// other here; the tool decides which one wins.
pub open spec fn flutter_argument_list(args: ArgsView, pid_file: Seq<char>) -> Seq<Seq<char>> {
    seq![args.command, "--pid-file"@, pid_file]
        + valued_flag("--flavor"@, args.flavor)
        + valued_flag("--target"@, args.target)
        + valued_flag("--device-id"@, args.device_id)
        + switch_flag("--debug"@, args.debug)
        + switch_flag("--profile"@, args.profile)
        + switch_flag("--release"@, args.release)
        + switch_flag("--verbose"@, args.verbose)
        + args.flutter_args
}

fn push_valued_flag(list: &mut Vec<String>, flag: &str, value: &Option<String>)
    ensures
        texts_of(final(list)@) == texts_of(old(list)@) + valued_flag(flag@, text_of(*value)),
{
    if let Some(v) = value {
        push_text(list, String::from_str(flag));
        push_text(list, v.clone());
    }
}

fn push_switch_flag(list: &mut Vec<String>, flag: &str, on: bool)
    ensures
        texts_of(final(list)@) == texts_of(old(list)@) + switch_flag(flag@, on),
{
    if on {
        push_text(list, String::from_str(flag));
    }
}

/// Builds the argument list of the tool's invocation.
pub fn flutter_arguments(args: &Args, pid_file: &str) -> (list: Vec<String>)
    ensures
        texts_of(list@) == flutter_argument_list(args@, pid_file@),
{
    let mut list: Vec<String> = Vec::new();
    push_text(&mut list, args.command.clone());
    push_text(&mut list, String::from_str("--pid-file"));
    push_text(&mut list, String::from_str(pid_file));
    assert(texts_of(list@) =~= seq![args.command@, "--pid-file"@, pid_file@]);
    push_valued_flag(&mut list, "--flavor", &args.flavor);
    push_valued_flag(&mut list, "--target", &args.target);
    push_valued_flag(&mut list, "--device-id", &args.device_id);
    push_switch_flag(&mut list, "--debug", args.debug);
    push_switch_flag(&mut list, "--profile", args.profile);
    push_switch_flag(&mut list, "--release", args.release);
    push_switch_flag(&mut list, "--verbose", args.verbose);
    let ghost head = texts_of(list@);
    let mut i: usize = 0;
    while i < args.flutter_args.len()
        invariant
            i <= args.flutter_args.len(),
            texts_of(list@) == head + texts_of(args.flutter_args@).take(i as int),
        decreases args.flutter_args.len() - i,
    {
        push_text(&mut list, args.flutter_args[i].clone());
        i += 1;
        assert(texts_of(list@) =~= head + texts_of(args.flutter_args@).take(i as int));
    }
    assert(texts_of(args.flutter_args@).take(i as int) == texts_of(args.flutter_args@));
    list
}

} // verus!
