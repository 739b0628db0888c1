//! Command-line handling: reading the argument list into actions, the
//! settings they produce, and how a path argument resolves to a target.
//! Checking the file system and asking the user happen outside; their
//! answers come back here as plain values.

use crate::error::Error;
use crate::text::same_text;
use vstd::prelude::*;
use vstd::string::StrSliceExecFns;

verus! {

/// What a path argument resolved to.
pub enum Target {
    File(String),
    Dir(String),
    Empty,
}

/// What the file system says of a path.
#[derive(Clone, Copy, Debug, PartialEq, Eq, Structural)]
pub enum PathKind {
    File,
    Dir,
    Missing,
}

/// The settings of one run of the editor.
pub struct Cli {
    pub target: Target,
    pub backup: bool,
    pub save_on_exit: bool,
    pub config: Option<String>,
}

/// How reading the arguments ended.
pub enum ArgsOutcome {
    /// Go on: the path arguments, in order, each to be resolved to a target.
    Run(Vec<String>),
    /// `-h` or `--help`: show the usage and end the run successfully.
    Help,
    /// An unknown option: report it and end the run with a failure.
    Invalid(String),
}

/// How reading the arguments ends, with the text of an unknown option;
/// `Fail` is a config flag without an existing file after it.
pub enum ArgsEnd {
    Run,
    Help,
    Invalid(Seq<char>),
    Fail,
}

/// The settings while the arguments are read, the path arguments met so
/// far, and how the reading ended.
pub struct ArgsModel {
    pub backup: bool,
    pub config: Option<Seq<char>>,
    pub paths: Seq<Seq<char>>,
    pub end: ArgsEnd,
}

/// Reads the arguments from index `i` on; `is_file[k]` tells whether
/// argument `k` names an existing file. `-b` turns on the backup; `-c`
/// takes the next argument as the config path when it is an existing file
/// and fails otherwise; `-h` ends with the usage; any other argument that
/// starts with `-` ends as invalid; every other argument is a path.
pub open spec fn read_args(args: Seq<Seq<char>>, is_file: Seq<bool>, i: int, m: ArgsModel) -> ArgsModel
    decreases args.len() - i,
{
    if i < 0 || i >= args.len() {
        m
    } else {
        let a = args[i];
        if a == "-b"@ || a == "--backup"@ {
            read_args(args, is_file, i + 1, ArgsModel { backup: true, ..m })
        } else if a == "-c"@ || a == "--config"@ {
            if i + 1 < args.len() && i + 1 < is_file.len() && is_file[i + 1] {
                read_args(args, is_file, i + 2, ArgsModel { config: Some(args[i + 1]), ..m })
            } else {
                ArgsModel { end: ArgsEnd::Fail, ..m }
            }
        } else if a == "-h"@ || a == "--help"@ {
            ArgsModel { end: ArgsEnd::Help, ..m }
        } else if a.len() > 0 && a[0] == '-' {
            ArgsModel { end: ArgsEnd::Invalid(a), ..m }
        } else {
            read_args(args, is_file, i + 1, ArgsModel { paths: m.paths.push(a), ..m })
        }
    }
}

/// The config path as characters.
pub open spec fn config_view(c: Option<String>) -> Option<Seq<char>> {
    match c {
        Some(s) => Some(s@),
        None => None,
    }
}

/// The state before the first argument is read.
pub open spec fn args_start(c: Cli) -> ArgsModel {
    ArgsModel { backup: c.backup, config: config_view(c.config), paths: Seq::empty(), end: ArgsEnd::Run }
}

/// Whether an outcome is the end of reading, with the path arguments met.
pub open spec fn outcome_shows(o: ArgsOutcome, end: ArgsEnd, paths: Seq<Seq<char>>) -> bool {
    match o {
        ArgsOutcome::Run(p) => end == ArgsEnd::Run && paths_view(p@) == paths,
        ArgsOutcome::Help => end == ArgsEnd::Help,
        ArgsOutcome::Invalid(a) => end == ArgsEnd::Invalid(a@),
    }
}

/// The characters of each path argument.
pub open spec fn paths_view(v: Seq<String>) -> Seq<Seq<char>> {
    v.map_values(|s: String| s@)
}

/// The characters of each argument.
pub open spec fn args_view(args: Seq<String>) -> Seq<Seq<char>> {
    args.map_values(|s: String| s@)
}

/// The target of a path argument: the file or directory it names; a missing
/// path is a file only once the user had it created, and nothing otherwise.
pub open spec fn target_of(path: Seq<char>, kind: PathKind, created: bool) -> Option<(bool, Seq<char>)> {
    match kind {
        PathKind::File => Some((true, path)),
        PathKind::Dir => Some((false, path)),
        PathKind::Missing => if created {
            Some((true, path))
        } else {
            None
        },
    }
}

/// A target as (is-file, path), or `None` for no target.
pub open spec fn target_view(t: Target) -> Option<(bool, Seq<char>)> {
    match t {
        Target::File(p) => Some((true, p@)),
        Target::Dir(p) => Some((false, p@)),
        Target::Empty => None,
    }
}

/// Resolves a path argument, given what the file system says of it and,
/// for a missing path, whether the user had an empty file created there.
pub fn resolve_target(path: String, kind: PathKind, created: bool) -> (t: Target)
    ensures
        target_view(t) == target_of(path@, kind, created),
{
    match kind {
        PathKind::File => Target::File(path),
        PathKind::Dir => Target::Dir(path),
        PathKind::Missing => if created {
            Target::File(path)
        } else {
            Target::Empty
        },
    }
}

/// Unicode white space (the `White_Space` property), as `char::is_whitespace`
/// and `str::trim` use it.
pub open spec fn is_white_space(c: char) -> bool {
    let u = c as u32;
    (0x09 <= u && u <= 0x0D) || u == 0x20 || u == 0x85 || u == 0xA0 || u == 0x1680 || (0x2000 <= u
        && u <= 0x200A) || u == 0x2028 || u == 0x2029 || u == 0x202F || u == 0x205F || u == 0x3000
}

/// A text without its leading white space.
pub open spec fn trim_start(s: Seq<char>) -> Seq<char>
    decreases s.len(),
{
    if s.len() > 0 && is_white_space(s[0]) {
        trim_start(s.drop_first())
    } else {
        s
    }
}

/// A text without its trailing white space.
pub open spec fn trim_end(s: Seq<char>) -> Seq<char>
    decreases s.len(),
{
    if s.len() > 0 && is_white_space(s.last()) {
        trim_end(s.drop_last())
    } else {
        s
    }
}

/// A text without leading and trailing white space.
pub open spec fn trimmed(s: Seq<char>) -> Seq<char> {
    trim_end(trim_start(s))
}

/// What `str::to_lowercase` returns for a text.
pub uninterp spec fn lowercased(s: Seq<char>) -> Seq<char>;

/// Relies on `str::trim`: the text without leading and trailing white space.
#[verifier::external_body]
fn trim_text(s: &str) -> (r: &str)
    ensures
        r@ == trimmed(s@),
{
    s.trim()
}

/// Relies on `str::to_lowercase`: the text in lower case; the result depends
/// on the text alone.
#[verifier::external_body]
fn lowercase_text(s: &str) -> (r: String)
    ensures
        r@ == lowercased(s@),
{
    s.to_lowercase()
}

/// Whether an answer, already trimmed and lower-cased, is a yes.
pub fn is_yes(normalized: &str) -> (r: bool)
    ensures
        r == (normalized@ == "yes"@),
{
    same_text(normalized, "yes")
}

/// Whether the user's answer to the creation prompt is `yes`, in any case
/// and with any white space around it.
pub fn answer_is_yes(answer: &str) -> (r: bool)
    ensures
        r == (lowercased(trimmed(answer@)) == "yes"@),
{
    let lower = lowercase_text(trim_text(answer));
    is_yes(lower.as_str())
}

impl Cli {
    /// The defaults: no target, no backup, the standard config path.
    pub fn from_args() -> (c: Cli)
        ensures
            c.target is Empty,
            !c.backup,
            !c.save_on_exit,
            c.config is Some && c.config->0@ == "~/.config/zed/config.ron"@,
    {
        Cli {
            target: Target::Empty,
            backup: false,
            save_on_exit: false,
            config: Some("~/.config/zed/config.ron".to_owned()),
        }
    }

    /// Reads the argument list and applies the settings it gives; the first
    /// argument, the program's name, is skipped. `is_file[k]` tells whether
    /// `args[k]` names an existing file (a missing entry counts as no). A
    /// config flag without an existing file after it fails with
    /// `ConfigNotFound` and changes nothing.
    pub fn parse_args(&mut self, args: &Vec<String>, is_file: &Vec<bool>) -> (r: Result<
        ArgsOutcome,
        Error,
    >)
        ensures
            ({
                let m = read_args(args_view(args@), is_file@, 1, args_start(*old(self)));
                match r {
                    Ok(o) => {
                        &&& outcome_shows(o, m.end, m.paths)
                        &&& final(self).backup == m.backup
                        &&& config_view(final(self).config) == m.config
                        &&& final(self).target == old(self).target
                        &&& final(self).save_on_exit == old(self).save_on_exit
                    },
                    Err(e) => m.end == ArgsEnd::Fail && e == Error::ConfigNotFound && *final(self)
                        == *old(self),
                }
            }),
    {
        let ghost all = args_view(args@);
        let ghost start = args_start(*self);
        let mut backup = self.backup;
        let mut config = match &self.config {
            Some(c) => Some(c.clone()),
            None => None,
        };
        let mut paths: Vec<String> = Vec::new();
        let mut i: usize = 1;
        assert(paths_view(paths@) =~= Seq::<Seq<char>>::empty());
        while i < args.len()
            invariant
                all == args_view(args@),
                *self == *old(self),
                start == args_start(*old(self)),
                1 <= i,
                read_args(all, is_file@, 1, start) == read_args(
                    all,
                    is_file@,
                    i as int,
                    ArgsModel {
                        backup,
                        config: config_view(config),
                        paths: paths_view(paths@),
                        end: ArgsEnd::Run,
                    },
                ),
            decreases args.len() - i,
        {
            let a = args[i].as_str();
            assert(all[i as int] == a@);
            if same_text(a, "-b") || same_text(a, "--backup") {
                backup = true;
                i = i + 1;
            } else if same_text(a, "-c") || same_text(a, "--config") {
                if i + 1 < args.len() && i + 1 < is_file.len() && is_file[i + 1] {
                    config = Some(args[i + 1].clone());
                    i = i + 2;
                } else {
                    return Err(Error::ConfigNotFound);
                }
            } else if same_text(a, "-h") || same_text(a, "--help") {
                self.backup = backup;
                self.config = config;
                return Ok(ArgsOutcome::Help);
            } else if a.unicode_len() > 0 && a.get_char(0) == '-' {
                self.backup = backup;
                self.config = config;
                return Ok(ArgsOutcome::Invalid(args[i].clone()));
            } else {
                let ghost before = paths_view(paths@);
                paths.push(args[i].clone());
                assert(paths_view(paths@) =~= before.push(a@));
                i = i + 1;
            }
        }
        self.backup = backup;
        self.config = config;
        Ok(ArgsOutcome::Run(paths))
    }

    /// Sets the target to open.
    pub fn set_target(&mut self, t: Target)
        ensures
            final(self).target == t,
            final(self).backup == old(self).backup,
            final(self).save_on_exit == old(self).save_on_exit,
            final(self).config == old(self).config,
    {
        self.target = t;
    }

    /// The usage text.
    pub fn usage() -> (r: &'static str)
        ensures
            r@ == "Usage:\n\tzed [options] [file(s)]\nOptions:\n\t-b\t\tStore backup of file\n\t-c\t\tSpecify custom config\n\t-h, --help\tShow this message"@,
    {
        "Usage:\n\tzed [options] [file(s)]\nOptions:\n\t-b\t\tStore backup of file\n\t-c\t\tSpecify custom config\n\t-h, --help\tShow this message"
    }
}

} // verus!
