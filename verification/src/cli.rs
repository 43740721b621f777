//! The exec request's payload: its command line and how it is read.
use crate::text::texts;
use vstd::prelude::*;
use vstd::utf8::{decode_utf8, valid_utf8};

verus! {

/// What an exec request asks for: the container's target name and,
/// optionally, the user to run as inside it.
#[derive(Debug)]
pub struct ContainerArgs {
    pub user: Option<String>,
    pub target: String,
}

/// The mathematical value of a `ContainerArgs`.
pub struct ContainerArgsView {
    pub user: Option<Seq<char>>,
    pub target: Seq<char>,
}

impl View for ContainerArgs {
    type V = ContainerArgsView;

    open spec fn view(&self) -> ContainerArgsView {
        ContainerArgsView {
            user: match self.user {
                Some(u) => Some(u@),
                None => None,
            },
            target: self.target@,
        }
    }
}

impl ContainerArgsView {
    /// The user to authorize: the requested one, or the empty text when none was given.
    pub open spec fn user_or_empty(self) -> Seq<char> {
        match self.user {
            Some(u) => u,
            None => Seq::<char>::empty(),
        }
    }
}

impl Clone for ContainerArgs {
    fn clone(&self) -> (copy: Self)
        ensures
            copy@ == self@,
    {
        let user = match &self.user {
            Some(u) => Some(u.clone()),
            None => None,
        };
        ContainerArgs { user, target: self.target.clone() }
    }
}

/// One option of the command line: how it is written and what it means.
#[derive(Debug)]
pub struct OptionSpec {
    pub id: &'static str,
    pub short: char,
    pub long: &'static str,
    pub required: bool,
    pub value_name: &'static str,
    pub help: &'static str,
}

/// The mathematical value of an `OptionSpec`.
pub struct OptionSpecView {
    pub id: Seq<char>,
    pub short: char,
    pub long: Seq<char>,
    pub required: bool,
    pub value_name: Seq<char>,
    pub help: Seq<char>,
}

impl View for OptionSpec {
    type V = OptionSpecView;

    open spec fn view(&self) -> OptionSpecView {
        OptionSpecView {
            id: self.id@,
            short: self.short,
            long: self.long@,
            required: self.required,
            value_name: self.value_name@,
            help: self.help@,
        }
    }
}

/// A command line: its name, what it is about, whether its first word is
/// an option already (and not the program's name), and its options.
#[derive(Debug)]
pub struct CommandSpec {
    pub name: &'static str,
    pub about: &'static str,
    pub no_binary_name: bool,
    pub options: Vec<OptionSpec>,
}

/// The mathematical value of a `CommandSpec`.
pub struct CommandSpecView {
    pub name: Seq<char>,
    pub about: Seq<char>,
    pub no_binary_name: bool,
    pub options: Seq<OptionSpecView>,
}

impl View for CommandSpec {
    type V = CommandSpecView;

    open spec fn view(&self) -> CommandSpecView {
        CommandSpecView {
            name: self.name@,
            about: self.about@,
            no_binary_name: self.no_binary_name,
            options: self.options@.map_values(|o: OptionSpec| o@),
        }
    }
}

/// The option that names the container: `-t`, `--target`; it is required.
pub open spec fn target_option() -> OptionSpecView {
    OptionSpecView {
        id: "target"@,
        short: 't',
        long: "target"@,
        required: true,
        value_name: "TARGET"@,
        help: "The hostname that relates to the docker container"@,
    }
}

/// The option that names the user inside the container: `-u`, `--user`; it may be left out.
pub open spec fn user_option() -> OptionSpecView {
    OptionSpecView {
        id: "user"@,
        short: 'u',
        long: "user"@,
        required: false,
        value_name: "USER"@,
        help: "The user to use to login to the docker container"@,
    }
}

/// The command line of an exec request: the target option, then the user
/// option. The payload's first word is an option, not a program name.
pub open spec fn tunnel_command() -> CommandSpecView {
    CommandSpecView {
        name: "tunnyD"@,
        about: "Tunnel into a Docker Container"@,
        no_binary_name: true,
        options: seq![target_option(), user_option()],
    }
}

/// Describes the command line that exec requests are written in.
pub fn cli() -> (command: CommandSpec)
    ensures
        command@ == tunnel_command(),
{
    let mut options: Vec<OptionSpec> = Vec::new();
    options.push(
        OptionSpec {
            id: "target",
            short: 't',
            long: "target",
            required: true,
            value_name: "TARGET",
            help: "The hostname that relates to the docker container",
        },
    );
    options.push(
        OptionSpec {
            id: "user",
            short: 'u',
            long: "user",
            required: false,
            value_name: "USER",
            help: "The user to use to login to the docker container",
        },
    );
    let command = CommandSpec {
        name: "tunnyD",
        about: "Tunnel into a Docker Container",
        no_binary_name: true,
        options,
    };
    assert(command@.options =~= tunnel_command().options);
    command
}

/// The text that lossy UTF-8 decoding makes of a byte string.
pub uninterp spec fn lossy_text(data: Seq<u8>) -> Seq<char>;

/// The words that shell-style tokenizing finds in a text.
pub uninterp spec fn shell_words(text: Seq<char>) -> Seq<Seq<char>>;

/// What matching `words` against `command` yields: nothing when the words
/// do not fit the command line, else the value found for each option, in the
/// order of the command's options.
pub uninterp spec fn clap_outcome(command: CommandSpecView, words: Seq<Seq<char>>) -> Option<
    Seq<Option<Seq<char>>>,
>;

/// The character sequences that a list of optional strings stands for.
pub open spec fn optional_texts(values: Seq<Option<String>>) -> Seq<Option<Seq<char>>> {
    values.map_values(
        |v: Option<String>|
            match v {
                Some(s) => Some(s@),
                None => None,
            },
    )
}

/// Calls `String::from_utf8_lossy` of std and takes ownership of its result.
/// Trusted: the result is the decoding named `lossy_text`; std documents
/// that valid UTF-8 is decoded as it stands, and nothing more is claimed of
/// how invalid bytes are replaced.
#[verifier::external_body]
fn decode_lossy(data: &[u8]) -> (text: String)
    ensures
        text@ == lossy_text(data@),
        valid_utf8(data@) ==> text@ == decode_utf8(data@),
{
    String::from_utf8_lossy(data).into_owned()
}

/// Runs the iterator `shlex::Shlex` over `text` to its end and collects the
/// words. Trusted: the result is the tokenization named `shell_words`. The
/// iterator stops at a syntax error and hands out the words before it.
#[verifier::external_body]
fn shell_split(text: &str) -> (words: Vec<String>)
    ensures
        texts(words@) == shell_words(text@),
{
    shlex::Shlex::new(text).collect()
}

/// Builds a `clap::Command` from `command` and calls its
/// `try_get_matches_from` on `words`, then reads each option's value with
/// `ArgMatches::try_get_one`. Trusted: the result is the outcome named
/// `clap_outcome`. Only the exec request's own command line is admitted:
/// clap checks a command's definition in debug builds and panics on a
/// contradictory one.
#[verifier::external_body]
fn match_words(command: &CommandSpec, words: Vec<String>) -> (values: Option<Vec<Option<String>>>)
    requires
        command@ == tunnel_command(),
    ensures
        match values {
            Some(v) => clap_outcome(command@, texts(words@)) == Some(optional_texts(v@)),
            None => clap_outcome(command@, texts(words@)) is None,
        },
{
    let args = command.options.iter().map(|o| {
        clap::Arg::new(o.id).short(o.short).long(o.long).required(o.required)
            .value_name(o.value_name).help(o.help)
    });
    let parser = clap::Command::new(command.name).about(command.about)
        .no_binary_name(command.no_binary_name).args(args);
    let found = parser.try_get_matches_from(words).ok()?;
    Some(command.options.iter().map(|o| found.try_get_one::<String>(o.id).ok().flatten().cloned()).collect())
}

/// The request that a list of matched option values stands for: the first
/// value is the target and must be there, the second is the user.
pub open spec fn matched_args(values: Seq<Option<Seq<char>>>) -> Option<ContainerArgsView> {
    if values.len() == 2 && values[0] is Some {
        Some(ContainerArgsView { user: values[1], target: values[0]->0 })
    } else {
        None
    }
}

/// The request that an exec payload stands for, if it stands for one: the
/// payload is decoded, split into words, and matched against the command line.
pub open spec fn parsed_args(data: Seq<u8>) -> Option<ContainerArgsView> {
    match clap_outcome(tunnel_command(), shell_words(lossy_text(data))) {
        Some(values) => matched_args(values),
        None => None,
    }
}

/// Turns the values matched for the target and the user option into a request.
pub fn args_from_matches(values: Vec<Option<String>>) -> (args: Option<ContainerArgs>)
    ensures
        match args {
            Some(a) => matched_args(optional_texts(values@)) == Some(a@),
            None => matched_args(optional_texts(values@)) is None,
        },
{
    if values.len() != 2 {
        return None;
    }
    let mut values = values;
    let ghost given = optional_texts(values@);
    let user = values.pop().unwrap();
    let target = values.pop().unwrap();
    match target {
        Some(target) => {
            let args = ContainerArgs { user, target };
            assert(given[0] == Some(target@));
            assert(args@.user == given[1]);
            Some(args)
        },
        None => {
            assert(given[0] is None);
            None
        },
    }
}

/// Reads an exec request's payload: the target to reach and, optionally,
/// the user to run as. Yields nothing when the payload is no such request.
pub fn parse_and_match_args(data: &[u8]) -> (args: Option<ContainerArgs>)
    ensures
        match args {
            Some(a) => parsed_args(data@) == Some(a@),
            None => parsed_args(data@) is None,
        },
{
    let data_str = decode_lossy(data);
    let words = shell_split(data_str.as_str());
    let command = cli();
    match match_words(&command, words) {
        Some(values) => args_from_matches(values),
        None => None,
    }
}

} // verus!
