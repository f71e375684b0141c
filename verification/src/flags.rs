use crate::text::{optional_text, same_text, strings};
use std::path::PathBuf;
use vstd::prelude::*;
use vstd::string::StringExecFns;

verus! {

/// One word of a command line: the word as text, where it is text, and the word as a path,
/// which every word is.
#[derive(Debug)]
pub struct Word {
    pub text: Option<String>,
    pub path: PathBuf,
}

pub struct WordView {
    pub text: Option<Seq<char>>,
    pub path: PathBuf,
}

impl View for Word {
    type V = WordView;

    open spec fn view(&self) -> WordView {
        WordView { text: optional_text(self.text), path: self.path }
    }
}

/// The words of a command line as contracts see them.
pub open spec fn words(args: Seq<Word>) -> Seq<WordView> {
    args.map_values(|word: Word| word@)
}

/// The command line of the LSIF dump: every flag may be given once, in any order.
#[derive(Debug)]
pub struct LsifP4Cmd {
    /// `-h`, `--header-files`: where the system header files of the switch architecture
    /// are.
    pub header_files: Option<PathBuf>,
    /// `-w`, `--workspace`: the directory to analyse.
    pub workspace: Option<PathBuf>,
    /// `-f`, `--filename`: the name of the LSIF file, without its extension.
    pub filename: Option<String>,
    /// `-o`, `--output`: the directory that the dump goes to.
    pub output: Option<PathBuf>,
    /// `-v`, `--version`: show the version number.
    pub version: bool,
}

pub struct LsifP4CmdView {
    pub header_files: Option<PathBuf>,
    pub workspace: Option<PathBuf>,
    pub filename: Option<Seq<char>>,
    pub output: Option<PathBuf>,
    pub version: bool,
}

impl View for LsifP4Cmd {
    type V = LsifP4CmdView;

    open spec fn view(&self) -> LsifP4CmdView {
        LsifP4CmdView {
            header_files: self.header_files,
            workspace: self.workspace,
            filename: optional_text(self.filename),
            output: self.output,
            version: self.version,
        }
    }
}

/// The flags of the command line, but for `--help`.
#[derive(Clone, Copy, Debug, PartialEq, Eq, Structural)]
pub enum Flag {
    HeaderFiles,
    Workspace,
    Filename,
    Output,
    Version,
}

/// Why a command line was not taken.
#[derive(Debug)]
pub enum FlagsError {
    /// `--help` was asked for.
    Help,
    /// A word that begins with `-` and names no flag.
    UnexpectedFlag(String),
    /// A word that is neither a flag nor the value of one.
    UnexpectedArgument(Word),
    /// The command line ends behind a flag that takes a value.
    MissingValue(String),
    /// The flag that takes a text was given a value that is no text.
    InvalidValue(String, Word),
    /// A flag was given more than once.
    Repeated(Flag),
}

pub enum FlagsErrorView {
    Help,
    UnexpectedFlag(Seq<char>),
    UnexpectedArgument(WordView),
    MissingValue(Seq<char>),
    InvalidValue(Seq<char>, WordView),
    Repeated(Flag),
}

impl View for FlagsError {
    type V = FlagsErrorView;

    open spec fn view(&self) -> FlagsErrorView {
        match self {
            FlagsError::Help => FlagsErrorView::Help,
            FlagsError::UnexpectedFlag(word) => FlagsErrorView::UnexpectedFlag(word@),
            FlagsError::UnexpectedArgument(word) => FlagsErrorView::UnexpectedArgument(word@),
            FlagsError::MissingValue(word) => FlagsErrorView::MissingValue(word@),
            FlagsError::InvalidValue(flag, word) => FlagsErrorView::InvalidValue(flag@, word@),
            FlagsError::Repeated(flag) => FlagsErrorView::Repeated(*flag),
        }
    }
}

/// What `--help` prints.
pub const HELP: &'static str = "lsif-p4-cmd\n\nOPTIONS:\n    \
-h, --header-files <system_dest>\n      \
Requires the path to the system header files that are different for each P4 Switch arch\n\n    \
-w, --workspace <input_dest>\n      \
Optional path directory for workspace to be analyzers (default is current directory)\n\n    \
-f, --filename <filename>\n      \
Optional filename of LSIF file. File extension can't be changed (default name is P4Analysis)\n\n    \
-o, --output <output_dest>\n      \
Optional output directory of LSIF dump (default is current directory)\n\n    \
-v, --version\n       \
Displays the version number.\n\n    \
-h, --help\n      \
Prints help information.\n";

/// What the `Debug` form of the standard library writes for a path, which is how a word of a
/// command line shows: what it holds between double quotes, with escapes where it needs them.
pub uninterp spec fn path_debug(path: PathBuf) -> Seq<char>;

/// Formats a path with `{:?}`. The contract only gives the text a name.
#[verifier::external_body]
fn quoted_path(path: &PathBuf) -> (res: String)
    ensures
        res@ == path_debug(*path),
{
    format!("{:?}", path)
}

/// The long name of a flag.
pub open spec fn long_name(flag: Flag) -> Seq<char> {
    match flag {
        Flag::HeaderFiles => "--header-files"@,
        Flag::Workspace => "--workspace"@,
        Flag::Filename => "--filename"@,
        Flag::Output => "--output"@,
        Flag::Version => "--version"@,
    }
}

/// The line for an unexpected argument, given the argument as it is shown.
pub open spec fn unexpected_argument(shown: Seq<char>) -> Seq<char> {
    "unexpected argument: "@ + shown
}

/// The line for a value of `flag` that is no text, given the value as it is shown.
pub open spec fn invalid_value(flag: Seq<char>, shown: Seq<char>) -> Seq<char> {
    "can't parse `"@ + flag + "`, invalid utf8: "@ + shown
}

/// What is printed for an error: for `--help` the help text, else one line that names the
/// word at fault. A repeated flag is named by its long name, whichever name was given.
pub open spec fn message_of(error: FlagsErrorView) -> Seq<char> {
    match error {
        FlagsErrorView::Help => HELP@,
        FlagsErrorView::UnexpectedFlag(word) => "unexpected flag: `"@ + word + "`"@,
        FlagsErrorView::UnexpectedArgument(word) => unexpected_argument(path_debug(word.path)),
        FlagsErrorView::MissingValue(word) => "expected a value for `"@ + word + "`"@,
        FlagsErrorView::InvalidValue(flag, word) => invalid_value(flag, path_debug(word.path)),
        FlagsErrorView::Repeated(flag) => "flag specified more than once: `"@ + long_name(flag)
            + "`"@,
    }
}

/// The status that a program ends with after this error: success for `--help`, and a usage
/// error for every other.
pub open spec fn exit_code(error: FlagsErrorView) -> i32 {
    if error is Help {
        0
    } else {
        2
    }
}

/// The line for an unexpected argument, given the argument as it is shown.
pub fn unexpected_argument_line(shown: &str) -> (res: String)
    ensures
        res@ == unexpected_argument(shown@),
{
    let mut text = String::from_str("unexpected argument: ");
    text.append(shown);
    text
}

/// The line for a value of `flag` that is no text, given the value as it is shown.
pub fn invalid_value_line(flag: &str, shown: &str) -> (res: String)
    ensures
        res@ == invalid_value(flag@, shown@),
{
    let mut text = String::from_str("can't parse `");
    text.append(flag);
    text.append("`, invalid utf8: ");
    text.append(shown);
    text
}

impl FlagsError {
    /// Whether this is the request for help, which is no failure: its message goes to the
    /// standard output, that of every other error to the standard error.
    pub fn is_help(&self) -> (res: bool)
        ensures
            res == (self@ is Help),
    {
        match self {
            FlagsError::Help => true,
            _ => false,
        }
    }

    /// The text to print for this error.
    pub fn message(&self) -> (res: String)
        ensures
            res@ == message_of(self@),
    {
        match self {
            FlagsError::Help => String::from_str(HELP),
            FlagsError::UnexpectedFlag(word) => {
                let mut text = String::from_str("unexpected flag: `");
                text.append(word.as_str());
                text.append("`");
                text
            },
            FlagsError::UnexpectedArgument(word) => unexpected_argument_line(
                quoted_path(&word.path).as_str(),
            ),
            FlagsError::MissingValue(word) => {
                let mut text = String::from_str("expected a value for `");
                text.append(word.as_str());
                text.append("`");
                text
            },
            FlagsError::InvalidValue(flag, word) => invalid_value_line(
                flag.as_str(),
                quoted_path(&word.path).as_str(),
            ),
            FlagsError::Repeated(flag) => {
                let mut text = String::from_str("flag specified more than once: `");
                text.append(
                    match flag {
                        Flag::HeaderFiles => "--header-files",
                        Flag::Workspace => "--workspace",
                        Flag::Filename => "--filename",
                        Flag::Output => "--output",
                        Flag::Version => "--version",
                    },
                );
                text.append("`");
                text
            },
        }
    }

    /// The status to end the program with after this error.
    pub fn code(&self) -> (res: i32)
        ensures
            res == exit_code(self@),
    {
        if self.is_help() {
            0
        } else {
            2
        }
    }
}

/// A program's end before it began: the reason, the text to print, and the status to end
/// with.
#[derive(Debug)]
pub struct Exit {
    pub error: FlagsError,
    pub message: String,
    pub code: i32,
}

/// Whether a text begins with `-`.
pub open spec fn begins_with_a_dash(text: Seq<char>) -> bool {
    text.len() > 0 && text[0] == '-'
}

/// Whether a word is read as a flag: it is text and begins with `-`.
pub open spec fn looks_like_flag(word: WordView) -> bool {
    word.text matches Some(text) && begins_with_a_dash(text)
}

/// The flag that a word names, by its long or its short name.
pub open spec fn flag_of(word: Seq<char>) -> Option<Flag> {
    if word == "--header-files"@ || word == "-h"@ {
        Some(Flag::HeaderFiles)
    } else if word == "--workspace"@ || word == "-w"@ {
        Some(Flag::Workspace)
    } else if word == "--filename"@ || word == "-f"@ {
        Some(Flag::Filename)
    } else if word == "--output"@ || word == "-o"@ {
        Some(Flag::Output)
    } else if word == "--version"@ || word == "-v"@ {
        Some(Flag::Version)
    } else {
        None
    }
}

/// What was read of a command line so far: the values given for each flag that takes one, in
/// their order, and how often `--version` was given.
pub struct Seen {
    pub header_files: Seq<PathBuf>,
    pub workspace: Seq<PathBuf>,
    pub filename: Seq<Seq<char>>,
    pub output: Seq<PathBuf>,
    pub version: nat,
}

/// The value of a flag that was given at most once.
pub open spec fn only<T>(values: Seq<T>) -> Option<T> {
    if values.len() == 1 {
        Some(values[0])
    } else {
        None
    }
}

impl Seen {
    pub open spec fn nothing() -> Seen {
        Seen {
            header_files: Seq::empty(),
            workspace: Seq::empty(),
            filename: Seq::empty(),
            output: Seq::empty(),
            version: 0,
        }
    }

    /// `self` and one more value for `flag`: the word as a path, or, for the flag that takes
    /// a text, the word as text.
    pub open spec fn with_value(self, flag: Flag, value: WordView) -> Seen {
        match flag {
            Flag::HeaderFiles => Seen { header_files: self.header_files.push(value.path), ..self },
            Flag::Workspace => Seen { workspace: self.workspace.push(value.path), ..self },
            Flag::Filename => Seen { filename: self.filename.push(value.text->0), ..self },
            Flag::Output => Seen { output: self.output.push(value.path), ..self },
            Flag::Version => self,
        }
    }

    /// `self` and one more `--version`.
    pub open spec fn with_version(self) -> Seen {
        Seen { version: self.version + 1, ..self }
    }

    /// The command that a command line read to its end stands for. A flag given twice is an
    /// error; of several such flags the first in the order of the fields is reported.
    pub open spec fn finish(self) -> Result<LsifP4CmdView, FlagsErrorView> {
        if self.header_files.len() > 1 {
            Err(FlagsErrorView::Repeated(Flag::HeaderFiles))
        } else if self.workspace.len() > 1 {
            Err(FlagsErrorView::Repeated(Flag::Workspace))
        } else if self.filename.len() > 1 {
            Err(FlagsErrorView::Repeated(Flag::Filename))
        } else if self.output.len() > 1 {
            Err(FlagsErrorView::Repeated(Flag::Output))
        } else if self.version > 1 {
            Err(FlagsErrorView::Repeated(Flag::Version))
        } else {
            Ok(
                LsifP4CmdView {
                    header_files: only(self.header_files),
                    workspace: only(self.workspace),
                    filename: only(self.filename),
                    output: only(self.output),
                    version: self.version == 1,
                },
            )
        }
    }
}

/// The meaning of the words of a command line from position `at` on, after `seen` was read.
///
/// A word that is no text, or does not begin with `-`, is an unexpected argument where a flag
/// may stand. `--` ends the flags, so that a word behind it is an unexpected argument too. A
/// flag that takes a value takes the next word as it is, whatever it begins with; the flag
/// that takes a text refuses a word that is none. `-h` is `--header-files`, not `--help`.
pub open spec fn parse_from(args: Seq<WordView>, at: int, seen: Seen) -> Result<
    LsifP4CmdView,
    FlagsErrorView,
>
    decreases args.len() - at,
{
    if at < 0 || at >= args.len() {
        seen.finish()
    } else if !looks_like_flag(args[at]) {
        Err(FlagsErrorView::UnexpectedArgument(args[at]))
    } else if args[at].text->0 == "--"@ {
        if at + 1 < args.len() {
            Err(FlagsErrorView::UnexpectedArgument(args[at + 1]))
        } else {
            seen.finish()
        }
    } else {
        match flag_of(args[at].text->0) {
            Some(Flag::Version) => parse_from(args, at + 1, seen.with_version()),
            Some(flag) => if at + 1 >= args.len() {
                Err(FlagsErrorView::MissingValue(args[at].text->0))
            } else if flag == Flag::Filename && args[at + 1].text is None {
                Err(FlagsErrorView::InvalidValue(args[at].text->0, args[at + 1]))
            } else {
                parse_from(args, at + 2, seen.with_value(flag, args[at + 1]))
            },
            None => if args[at].text->0 == "--help"@ {
                Err(FlagsErrorView::Help)
            } else {
                Err(FlagsErrorView::UnexpectedFlag(args[at].text->0))
            },
        }
    }
}

/// The meaning of a command line, given without the program's name.
pub open spec fn parse(args: Seq<WordView>) -> Result<LsifP4CmdView, FlagsErrorView> {
    parse_from(args, 0, Seen::nothing())
}

/// The words behind the program's name.
pub open spec fn behind_program_name(args: Seq<WordView>) -> Seq<WordView> {
    if args.len() > 0 {
        args.subrange(1, args.len() as int)
    } else {
        args
    }
}

/// What came of reading a command line, as contracts see it.
pub open spec fn outcome(res: Result<LsifP4Cmd, FlagsError>) -> Result<
    LsifP4CmdView,
    FlagsErrorView,
> {
    match res {
        Ok(cmd) => Ok(cmd@),
        Err(error) => Err(error@),
    }
}

/// Whether `word` begins with `-`.
fn begins_with_dash(word: &str) -> (res: bool)
    ensures
        res == begins_with_a_dash(word@),
{
    !word.is_empty() && word.get_char(0) == '-'
}

/// The flag that `word` names.
fn flag_named(word: &str) -> (res: Option<Flag>)
    ensures
        res == flag_of(word@),
{
    if same_text(word, "--header-files") || same_text(word, "-h") {
        Some(Flag::HeaderFiles)
    } else if same_text(word, "--workspace") || same_text(word, "-w") {
        Some(Flag::Workspace)
    } else if same_text(word, "--filename") || same_text(word, "-f") {
        Some(Flag::Filename)
    } else if same_text(word, "--output") || same_text(word, "-o") {
        Some(Flag::Output)
    } else if same_text(word, "--version") || same_text(word, "-v") {
        Some(Flag::Version)
    } else {
        None
    }
}

/// The path given for a flag that was given at most once.
fn only_path(values: Vec<PathBuf>) -> (res: Option<PathBuf>)
    requires
        values.len() <= 1,
    ensures
        res == only(values@),
{
    let mut values = values;
    values.pop()
}

/// The text given for a flag that was given at most once.
fn only_text(values: Vec<String>) -> (res: Option<String>)
    requires
        values.len() <= 1,
    ensures
        optional_text(res) == only(strings(values@)),
{
    let mut values = values;
    values.pop()
}

/// Takes the first of the words that are left.
fn next_word(rest: &mut Vec<Word>, Ghost(all): Ghost<Seq<WordView>>, Ghost(at): Ghost<int>) -> (word:
    Word)
    requires
        old(rest).len() > 0,
        0 <= at < all.len(),
        words(old(rest)@) == all.subrange(at, all.len() as int),
    ensures
        word@ == all[at],
        words(final(rest)@) == all.subrange(at + 1, all.len() as int),
        final(rest).len() == old(rest).len() - 1,
{
    let word = rest.remove(0);
    proof {
        let before = words(old(rest)@);
        assert(all.subrange(at, all.len() as int).len() == all.len() - at);
        assert(before[0] == all.subrange(at, all.len() as int)[0]);
        assert forall|i: int| 0 <= i < rest@.len() implies words(rest@)[i] == all.subrange(
            at + 1,
            all.len() as int,
        )[i] by {
            assert(words(rest@)[i] == before[i + 1]);
            assert(before[i + 1] == all.subrange(at, all.len() as int)[i + 1]);
        }
    }
    word
}

impl LsifP4Cmd {
    /// Reads the command line that the environment gave, the program's name first. Where it
    /// cannot be taken, the result says how the program is to end: what to print, and with
    /// which status, success after `--help` and a usage error otherwise.
    pub fn from_env_or_exit(args: Vec<Word>) -> (res: Result<LsifP4Cmd, Exit>)
        ensures
            match res {
                Ok(cmd) => parse(behind_program_name(words(args@))) == Ok::<
                    LsifP4CmdView,
                    FlagsErrorView,
                >(cmd@),
                Err(exit) => {
                    &&& parse(behind_program_name(words(args@))) == Err::<
                        LsifP4CmdView,
                        FlagsErrorView,
                    >(exit.error@)
                    &&& exit.message@ == message_of(exit.error@)
                    &&& exit.code == exit_code(exit.error@)
                },
            },
    {
        match Self::from_env(args) {
            Ok(cmd) => Ok(cmd),
            Err(error) => {
                let message = error.message();
                let code = error.code();
                Err(Exit { error, message, code })
            },
        }
    }

    /// Reads the command line that the environment gave, the program's name first.
    pub fn from_env(args: Vec<Word>) -> (res: Result<LsifP4Cmd, FlagsError>)
        ensures
            outcome(res) == parse(behind_program_name(words(args@))),
    {
        let mut rest = args;
        if rest.len() > 0 {
            rest.remove(0);
        }
        proof {
            assert(words(rest@) == behind_program_name(words(args@)));
        }
        Self::from_vec(rest)
    }

    /// Reads a command line, given without the program's name.
    pub fn from_vec(args: Vec<Word>) -> (res: Result<LsifP4Cmd, FlagsError>)
        ensures
            outcome(res) == parse(words(args@)),
    {
        let ghost all = words(args@);
        let ghost mut seen = Seen::nothing();
        let ghost mut at: int = 0;
        let mut rest = args;
        let mut header_files: Vec<PathBuf> = Vec::new();
        let mut workspace: Vec<PathBuf> = Vec::new();
        let mut filename: Vec<String> = Vec::new();
        let mut output: Vec<PathBuf> = Vec::new();
        let mut version: usize = 0;
        let total = rest.len();
        while rest.len() > 0
            invariant
                all == words(args@),
                0 <= at <= all.len(),
                at + rest.len() == all.len(),
                all.len() == total,
                version <= at,
                words(rest@) == all.subrange(at, all.len() as int),
                seen.header_files == header_files@,
                seen.workspace == workspace@,
                seen.filename == strings(filename@),
                seen.output == output@,
                seen.version == version,
                parse(all) == parse_from(all, at, seen),
            decreases rest.len(),
        {
            let word = next_word(&mut rest, Ghost(all), Ghost(at));
            let is_flag = match &word.text {
                Some(text) => begins_with_dash(text.as_str()),
                None => false,
            };
            if !is_flag {
                return Err(FlagsError::UnexpectedArgument(word));
            }
            let text = word.text.unwrap();
            if same_text(text.as_str(), "--") {
                if rest.len() > 0 {
                    let next = next_word(&mut rest, Ghost(all), Ghost(at + 1));
                    return Err(FlagsError::UnexpectedArgument(next));
                }
                proof {
                    at = at + 1;
                }
            } else {
                match flag_named(text.as_str()) {
                    Some(Flag::Version) => {
                        proof {
                            seen = seen.with_version();
                            at = at + 1;
                        }
                        version += 1;
                    },
                    Some(flag) => {
                        if rest.len() == 0 {
                            return Err(FlagsError::MissingValue(text));
                        }
                        let value = next_word(&mut rest, Ghost(all), Ghost(at + 1));
                        if matches!(flag, Flag::Filename) && value.text.is_none() {
                            return Err(FlagsError::InvalidValue(text, value));
                        }
                        proof {
                            seen = seen.with_value(flag, value@);
                            at = at + 2;
                        }
                        match flag {
                            Flag::HeaderFiles => header_files.push(value.path),
                            Flag::Workspace => workspace.push(value.path),
                            Flag::Filename => filename.push(value.text.unwrap()),
                            Flag::Output => output.push(value.path),
                            Flag::Version => {},
                        }
                    },
                    None => {
                        if same_text(text.as_str(), "--help") {
                            return Err(FlagsError::Help);
                        }
                        return Err(FlagsError::UnexpectedFlag(text));
                    },
                }
            }
        }
        if header_files.len() > 1 {
            Err(FlagsError::Repeated(Flag::HeaderFiles))
        } else if workspace.len() > 1 {
            Err(FlagsError::Repeated(Flag::Workspace))
        } else if filename.len() > 1 {
            Err(FlagsError::Repeated(Flag::Filename))
        } else if output.len() > 1 {
            Err(FlagsError::Repeated(Flag::Output))
        } else if version > 1 {
            Err(FlagsError::Repeated(Flag::Version))
        } else {
            Ok(
                LsifP4Cmd {
                    header_files: only_path(header_files),
                    workspace: only_path(workspace),
                    filename: only_text(filename),
                    output: only_path(output),
                    version: version == 1,
                },
            )
        }
    }
}

} // verus!
