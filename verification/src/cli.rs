//! The command line: `posthog flags <COMMAND> [KEY]`.

use vstd::prelude::*;

verus! {

/// The parsed command line.
#[derive(Debug)]
pub struct Cli {
    pub command: Commands,
}

/// The top-level commands.
#[derive(Debug)]
pub enum Commands {
    /// Manage feature flags
    Flags { command: FlagsCommands },
}

/// The commands on feature flags.
#[derive(Debug)]
pub enum FlagsCommands {
    /// List all feature flags
    List,
    /// Get details of a specific flag
    Get { key: String },
    /// Create a new boolean feature flag (enabled for all by default)
    Create { key: String },
    /// Enable a feature flag
    Enable { key: String },
    /// Disable a feature flag
    Disable { key: String },
    /// Delete a feature flag
    Delete { key: String },
}

/// The view of a [`FlagsCommands`].
pub enum CommandView {
    List,
    Get(Seq<char>),
    Create(Seq<char>),
    Enable(Seq<char>),
    Disable(Seq<char>),
    Delete(Seq<char>),
}

impl DeepView for FlagsCommands {
    type V = CommandView;

    open spec fn deep_view(&self) -> CommandView {
        match self {
            FlagsCommands::List => CommandView::List,
            FlagsCommands::Get { key } => CommandView::Get(key@),
            FlagsCommands::Create { key } => CommandView::Create(key@),
            FlagsCommands::Enable { key } => CommandView::Enable(key@),
            FlagsCommands::Disable { key } => CommandView::Disable(key@),
            FlagsCommands::Delete { key } => CommandView::Delete(key@),
        }
    }
}

impl DeepView for Cli {
    type V = CommandView;

    open spec fn deep_view(&self) -> CommandView {
        match self.command {
            Commands::Flags { command } => command.deep_view(),
        }
    }
}

/// Why a command line was not taken.
#[derive(Debug)]
pub enum CliError {
    /// Help was asked for.
    Help,
    /// A command is missing.
    MissingCommand,
    /// No command has this name.
    UnknownCommand { name: String },
    /// The command needs a flag key.
    MissingKey,
    /// An argument that nothing takes.
    UnexpectedArgument { arg: String },
}

/// The view of a [`CliError`].
pub enum CliErrorView {
    Help,
    MissingCommand,
    UnknownCommand(Seq<char>),
    MissingKey,
    UnexpectedArgument(Seq<char>),
}

impl DeepView for CliError {
    type V = CliErrorView;

    open spec fn deep_view(&self) -> CliErrorView {
        match self {
            CliError::Help => CliErrorView::Help,
            CliError::MissingCommand => CliErrorView::MissingCommand,
            CliError::UnknownCommand { name } => CliErrorView::UnknownCommand(name@),
            CliError::MissingKey => CliErrorView::MissingKey,
            CliError::UnexpectedArgument { arg } => CliErrorView::UnexpectedArgument(arg@),
        }
    }
}

/// Whether an argument is an option: it starts with `-` and is longer than that.
pub open spec fn is_option(a: Seq<char>) -> bool {
    a.len() > 1 && a[0] == '-'
}

/// Whether an option asks for help.
pub open spec fn is_help_option(a: Seq<char>) -> bool {
    a == "-h"@ || a == "--help"@
}

/// The first option among `words`.
pub open spec fn first_option(words: Seq<Seq<char>>) -> Option<Seq<char>>
    decreases words.len(),
{
    if words.len() == 0 {
        None
    } else if is_option(words[0]) {
        Some(words[0])
    } else {
        first_option(words.drop_first())
    }
}

/// The commands that take a key, by name.
pub open spec fn keyed_command(name: Seq<char>, key: Seq<char>) -> Option<CommandView> {
    if name == "get"@ {
        Some(CommandView::Get(key))
    } else if name == "create"@ {
        Some(CommandView::Create(key))
    } else if name == "enable"@ {
        Some(CommandView::Enable(key))
    } else if name == "disable"@ {
        Some(CommandView::Disable(key))
    } else if name == "delete"@ {
        Some(CommandView::Delete(key))
    } else {
        None
    }
}

/// What the words after the program's name mean, when none of them is an option.
pub open spec fn parse_words(words: Seq<Seq<char>>) -> Result<CommandView, CliErrorView> {
    if words.len() == 0 {
        Err(CliErrorView::MissingCommand)
    } else if words[0] == "help"@ {
        Err(CliErrorView::Help)
    } else if words[0] != "flags"@ {
        Err(CliErrorView::UnknownCommand(words[0]))
    } else if words.len() == 1 {
        Err(CliErrorView::MissingCommand)
    } else if words[1] == "help"@ {
        Err(CliErrorView::Help)
    } else if words[1] == "list"@ {
        if words.len() == 2 {
            Ok(CommandView::List)
        } else {
            Err(CliErrorView::UnexpectedArgument(words[2]))
        }
    } else if keyed_command(words[1], Seq::empty()) is Some {
        if words.len() == 2 {
            Err(CliErrorView::MissingKey)
        } else if words.len() == 3 {
            Ok(keyed_command(words[1], words[2])->0)
        } else {
            Err(CliErrorView::UnexpectedArgument(words[3]))
        }
    } else {
        Err(CliErrorView::UnknownCommand(words[1]))
    }
}

/// What a command line means; its first argument is the program's name.
pub open spec fn parse_command_line(args: Seq<Seq<char>>) -> Result<CommandView, CliErrorView> {
    let words = if args.len() > 0 {
        args.drop_first()
    } else {
        args
    };
    let k = end_of_options(words) as int;
    match first_option(words.take(k)) {
        Some(o) => if is_help_option(o) {
            Err(CliErrorView::Help)
        } else {
            Err(CliErrorView::UnexpectedArgument(o))
        },
        None => parse_words_before(without(words, k), k),
    }
}

/// What the words that are not options mean, when those from position `k` on came
/// after a `--`: such a word never names a command, so it is refused where a
/// command is expected.
pub open spec fn parse_words_before(words: Seq<Seq<char>>, k: int) -> Result<CommandView, CliErrorView> {
    if words.len() == 0 {
        Err(CliErrorView::MissingCommand)
    } else if k <= 0 {
        Err(CliErrorView::UnexpectedArgument(words[0]))
    } else if words[0] == "help"@ {
        Err(CliErrorView::Help)
    } else if words[0] != "flags"@ {
        Err(CliErrorView::UnknownCommand(words[0]))
    } else if words.len() == 1 {
        Err(CliErrorView::MissingCommand)
    } else if k <= 1 {
        Err(CliErrorView::UnexpectedArgument(words[1]))
    } else {
        parse_words(words)
    }
}

/// The position of the first `--` among `words`, after which no word is an
/// option; their number when there is none.
pub open spec fn end_of_options(words: Seq<Seq<char>>) -> nat
    decreases words.len(),
{
    if words.len() == 0 {
        0
    } else if words[0] == "--"@ {
        0
    } else {
        1 + end_of_options(words.drop_first())
    }
}

/// `words` without the word at position `k`, when there is one.
pub open spec fn without(words: Seq<Seq<char>>, k: int) -> Seq<Seq<char>> {
    if k < words.len() {
        words.take(k) + words.skip(k + 1)
    } else {
        words
    }
}

fn same_text(a: &str, b: &str) -> (r: bool)
    ensures
        r == (a@ == b@),
{
    a.to_owned() == b.to_owned()
}

fn is_option_text(a: &str) -> (r: bool)
    ensures
        r == is_option(a@),
{
    let n = a.unicode_len();
    n > 1 && a.get_char(0) == '-'
}

fn find_option(words: &[&str]) -> (res: Option<usize>)
    ensures
        match res {
            Some(i) => i < words@.len() && first_option(words.deep_view()) == Some(
                words@[i as int]@,
            ),
            None => first_option(words.deep_view()) is None,
        },
{
    let ghost all = words.deep_view();
    let n = words.len();
    let mut i: usize = 0;
    assert(all.skip(0) =~= all);
    while i < n
        invariant
            n == words@.len(),
            all == words.deep_view(),
            i <= n,
            first_option(all) == first_option(all.skip(i as int)),
        decreases n - i,
    {
        assert(all.skip(i as int)[0] == words@[i as int]@);
        if is_option_text(words[i]) {
            return Some(i);
        }
        assert(all.skip(i as int).drop_first() =~= all.skip(i + 1));
        i = i + 1;
    }
    assert(all.skip(n as int) =~= Seq::<Seq<char>>::empty());
    None
}

fn keyed_command_of(name: &str, key: &str) -> (res: Option<FlagsCommands>)
    ensures
        match res {
            Some(c) => keyed_command(name@, key@) == Some(c.deep_view()),
            None => keyed_command(name@, key@) is None,
        },
{
    if same_text(name, "get") {
        Some(FlagsCommands::Get { key: key.to_owned() })
    } else if same_text(name, "create") {
        Some(FlagsCommands::Create { key: key.to_owned() })
    } else if same_text(name, "enable") {
        Some(FlagsCommands::Enable { key: key.to_owned() })
    } else if same_text(name, "disable") {
        Some(FlagsCommands::Disable { key: key.to_owned() })
    } else if same_text(name, "delete") {
        Some(FlagsCommands::Delete { key: key.to_owned() })
    } else {
        None
    }
}

fn end_of_options_in(words: &[&str]) -> (k: usize)
    ensures
        k as nat == end_of_options(words.deep_view()),
        k <= words@.len(),
{
    let ghost all = words.deep_view();
    let n = words.len();
    let mut i: usize = 0;
    assert(all.skip(0) =~= all);
    while i < n
        invariant
            n == words@.len(),
            all == words.deep_view(),
            i <= n,
            end_of_options(all) == i + end_of_options(all.skip(i as int)),
        decreases n - i,
    {
        assert(all.skip(i as int)[0] == words@[i as int]@);
        if same_text(words[i], "--") {
            return i;
        }
        assert(all.skip(i as int).drop_first() =~= all.skip(i + 1));
        i = i + 1;
    }
    assert(all.skip(n as int) =~= Seq::<Seq<char>>::empty());
    n
}

fn without_in<'a>(words: &[&'a str], k: usize) -> (v: Vec<&'a str>)
    ensures
        v.deep_view() == without(words.deep_view(), k as int),
{
    let ghost all = words.deep_view();
    let n = words.len();
    let mut v: Vec<&'a str> = Vec::new();
    let mut i: usize = 0;
    while i < n
        invariant
            n == words@.len(),
            all == words.deep_view(),
            i <= n,
            v.deep_view() =~= without(all.take(i as int), k as int),
        decreases n - i,
    {
        let ghost before = v.deep_view();
        if i != k {
            v.push(words[i]);
            assert(v.deep_view() =~= before.push(all[i as int]));
        }
        proof {
            if k < i {
                assert(without(all.take(i + 1), k as int) =~= without(all.take(i as int), k as int).push(all[i as int]));
            } else if k == i {
                assert(without(all.take(i + 1), k as int) =~= all.take(i as int));
                assert(without(all.take(i as int), k as int) =~= all.take(i as int));
            } else {
                assert(without(all.take(i + 1), k as int) =~= all.take(i + 1));
                assert(all.take(i + 1) =~= all.take(i as int).push(all[i as int]));
            }
        }
        i = i + 1;
    }
    assert(all.take(n as int) =~= all);
    v
}

fn parse_positional(words: &[&str]) -> (res: Result<Cli, CliError>)
    ensures
        match parse_words(words.deep_view()) {
            Ok(c) => res matches Ok(cli) && cli.deep_view() == c,
            Err(e) => res matches Err(err) && err.deep_view() == e,
        },
{
    let ghost ws = words.deep_view();
    let m = words.len();
    if m == 0 {
        return Err(CliError::MissingCommand);
    }
    assert(ws[0] == words@[0]@);
    if same_text(words[0], "help") {
        return Err(CliError::Help);
    }
    if !same_text(words[0], "flags") {
        return Err(CliError::UnknownCommand { name: words[0].to_owned() });
    }
    if m == 1 {
        return Err(CliError::MissingCommand);
    }
    assert(ws[1] == words@[1]@);
    let sub = words[1];
    if same_text(sub, "help") {
        return Err(CliError::Help);
    }
    if same_text(sub, "list") {
        if m == 2 {
            return Ok(Cli { command: Commands::Flags { command: FlagsCommands::List } });
        } else {
            assert(ws[2] == words@[2]@);
            return Err(CliError::UnexpectedArgument { arg: words[2].to_owned() });
        }
    }
    proof { reveal_strlit(""); }
    match keyed_command_of(sub, "") {
        None => Err(CliError::UnknownCommand { name: sub.to_owned() }),
        Some(_) => {
            if m == 2 {
                Err(CliError::MissingKey)
            } else if m == 3 {
                assert(ws[2] == words@[2]@);
                match keyed_command_of(sub, words[2]) {
                    Some(command) => Ok(Cli { command: Commands::Flags { command } }),
                    None => Err(CliError::UnknownCommand { name: sub.to_owned() }),
                }
            } else {
                assert(ws[3] == words@[3]@);
                Err(CliError::UnexpectedArgument { arg: words[3].to_owned() })
            }
        },
    }
}

fn parse_positional_before(words: &[&str], k: usize) -> (res: Result<Cli, CliError>)
    ensures
        match parse_words_before(words.deep_view(), k as int) {
            Ok(c) => res matches Ok(cli) && cli.deep_view() == c,
            Err(e) => res matches Err(err) && err.deep_view() == e,
        },
{
    let ghost ws = words.deep_view();
    let m = words.len();
    if m == 0 {
        return Err(CliError::MissingCommand);
    }
    assert(ws[0] == words@[0]@);
    if k == 0 {
        return Err(CliError::UnexpectedArgument { arg: words[0].to_owned() });
    }
    if same_text(words[0], "help") {
        return Err(CliError::Help);
    }
    if !same_text(words[0], "flags") {
        return Err(CliError::UnknownCommand { name: words[0].to_owned() });
    }
    if m == 1 {
        return Err(CliError::MissingCommand);
    }
    assert(ws[1] == words@[1]@);
    if k == 1 {
        return Err(CliError::UnexpectedArgument { arg: words[1].to_owned() });
    }
    parse_positional(words)
}

impl Cli {
    /// Parses a command line whose first argument is the program's name. Words
    /// after a `--` are never options, nor commands.
    pub fn try_parse_from(args: &[&str]) -> (res: Result<Cli, CliError>)
        ensures
            match parse_command_line(args.deep_view()) {
                Ok(c) => res matches Ok(cli) && cli.deep_view() == c,
                Err(e) => res matches Err(err) && err.deep_view() == e,
            },
    {
        let ghost all = args.deep_view();
        let n = args.len();
        let words: &[&str] = if n > 0 {
            vstd::slice::slice_subrange(args, 1, n)
        } else {
            args
        };
        let ghost ws = words.deep_view();
        assert(ws =~= (if all.len() > 0 { all.drop_first() } else { all }));
        let k = end_of_options_in(words);
        let options = vstd::slice::slice_subrange(words, 0, k);
        assert(options.deep_view() =~= ws.take(k as int));
        match find_option(options) {
            Some(i) => {
                let o = options[i];
                if same_text(o, "-h") || same_text(o, "--help") {
                    Err(CliError::Help)
                } else {
                    Err(CliError::UnexpectedArgument { arg: o.to_owned() })
                }
            },
            None => {
                let positional = without_in(words, k);
                parse_positional_before(positional.as_slice(), k)
            },
        }
    }
}

impl CliError {
    /// Whether help was asked for, which is no failure.
    pub fn is_help(&self) -> (r: bool)
        ensures
            r == (self.deep_view() is Help),
    {
        match self {
            CliError::Help => true,
            _ => false,
        }
    }
}

} // verus!
