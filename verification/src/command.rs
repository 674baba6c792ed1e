//! Commands: the closed set of things that the command line and the console can ask for.

use crate::s3::resolved;
use crate::text::{same_text, trim, trimmed};
use vstd::prelude::*;

verus! {

/// The ways in which a file goes to the store or comes from it.
#[derive(Clone, Copy, Debug, PartialEq, Eq, Structural)]
pub enum Transfer {
    /// To the store, as it is.
    Upload,
    /// From the store, as it is.
    Download,
    /// To the store, encrypted.
    Put,
    /// From the store, decrypted.
    Get,
}

/// What is wrong with a command that cannot be carried out.
#[derive(Clone, Copy, Debug, PartialEq, Eq, Structural)]
pub enum Complaint {
    /// It lacks the words that say what to store.
    TooFewToPut,
    /// It lacks the words that say what to fetch.
    TooFewToGet,
    /// It does not say what to remove.
    RemoveUsage,
    /// It names no bucket and none is selected.
    AmbiguousTarget,
}

/// One command, as the command line or a line of the console gives it.
#[derive(Debug, PartialEq, Eq)]
pub enum Command {
    /// Go on with the console.
    Console,
    /// Show the help.
    Help,
    /// Encrypt the file of the profile in use.
    EncryptConfig,
    /// Decrypt the file of the profile in use.
    DecryptConfig,
    /// Make a new key pair and show it.
    Keys,
    /// Show what is left to do.
    Todo,
    /// Show a random mnemonic.
    Mnemonic,
    /// Move to `bucket`; the empty text, `..` and `/` lead to the root.
    Cd { bucket: String },
    /// Make `bucket`.
    Mkdir { bucket: String },
    /// Ask for the name of a bucket, and make it.
    MkdirAsk,
    /// List `bucket`; the buckets themselves where it is blank or `/`.
    Ls { bucket: String },
    /// Move `file` to or from `bucket`.
    Move { kind: Transfer, bucket: String, file: String },
    /// Remove `bucket`.
    RemoveBucket { bucket: String },
    /// Remove `object` from `bucket`.
    RemoveObject { bucket: String, object: String },
    /// Show the profile in use.
    ConfigPrint,
    /// Show the folder of the profiles.
    ConfigFolder,
    /// List the profiles.
    ConfigList,
    /// Ask for the values of a new profile, and store it.
    ConfigCreate,
    /// Ask for the name of a profile, and delete it.
    ConfigDeleteAsk,
    /// Ask for the name of a profile, and take it up.
    ConfigUseAsk,
    /// Take up the profile `name`.
    ConfigUse { name: String },
    /// Delete the profile `name`.
    ConfigDelete { name: String },
    /// Say what is wrong with the command.
    Complain(Complaint),
    /// Do nothing.
    Nothing,
    /// Leave.
    Quit,
    /// Run the key and cipher chain once.
    TestCrypto,
    /// Say that `input` is no command, and show the help.
    Unknown { input: String },
}

/// What a `Command` holds.
pub enum CommandView {
    Console,
    Help,
    EncryptConfig,
    DecryptConfig,
    Keys,
    Todo,
    Mnemonic,
    Cd { bucket: Seq<char> },
    Mkdir { bucket: Seq<char> },
    MkdirAsk,
    Ls { bucket: Seq<char> },
    Move { kind: Transfer, bucket: Seq<char>, file: Seq<char> },
    RemoveBucket { bucket: Seq<char> },
    RemoveObject { bucket: Seq<char>, object: Seq<char> },
    ConfigPrint,
    ConfigFolder,
    ConfigList,
    ConfigCreate,
    ConfigDeleteAsk,
    ConfigUseAsk,
    ConfigUse { name: Seq<char> },
    ConfigDelete { name: Seq<char> },
    Complain(Complaint),
    Nothing,
    Quit,
    TestCrypto,
    Unknown { input: Seq<char> },
}

impl View for Command {
    type V = CommandView;

    open spec fn view(&self) -> CommandView {
        match self {
            Command::Console => CommandView::Console,
            Command::Help => CommandView::Help,
            Command::EncryptConfig => CommandView::EncryptConfig,
            Command::DecryptConfig => CommandView::DecryptConfig,
            Command::Keys => CommandView::Keys,
            Command::Todo => CommandView::Todo,
            Command::Mnemonic => CommandView::Mnemonic,
            Command::Cd { bucket } => CommandView::Cd { bucket: bucket@ },
            Command::Mkdir { bucket } => CommandView::Mkdir { bucket: bucket@ },
            Command::MkdirAsk => CommandView::MkdirAsk,
            Command::Ls { bucket } => CommandView::Ls { bucket: bucket@ },
            Command::Move { kind, bucket, file } => CommandView::Move {
                kind: *kind,
                bucket: bucket@,
                file: file@,
            },
            Command::RemoveBucket { bucket } => CommandView::RemoveBucket { bucket: bucket@ },
            Command::RemoveObject { bucket, object } => CommandView::RemoveObject {
                bucket: bucket@,
                object: object@,
            },
            Command::ConfigPrint => CommandView::ConfigPrint,
            Command::ConfigFolder => CommandView::ConfigFolder,
            Command::ConfigList => CommandView::ConfigList,
            Command::ConfigCreate => CommandView::ConfigCreate,
            Command::ConfigDeleteAsk => CommandView::ConfigDeleteAsk,
            Command::ConfigUseAsk => CommandView::ConfigUseAsk,
            Command::ConfigUse { name } => CommandView::ConfigUse { name: name@ },
            Command::ConfigDelete { name } => CommandView::ConfigDelete { name: name@ },
            Command::Complain(complaint) => CommandView::Complain(*complaint),
            Command::Nothing => CommandView::Nothing,
            Command::Quit => CommandView::Quit,
            Command::TestCrypto => CommandView::TestCrypto,
            Command::Unknown { input } => CommandView::Unknown { input: input@ },
        }
    }
}

/// The complaint about a transfer that lacks words.
pub open spec fn too_few(kind: Transfer) -> Complaint {
    match kind {
        Transfer::Upload | Transfer::Put => Complaint::TooFewToPut,
        Transfer::Download | Transfer::Get => Complaint::TooFewToGet,
    }
}

/// The transfer of `file` to or from the bucket that the command names or, where it names
/// none, the selected one; a complaint where there is neither.
pub open spec fn moved(kind: Transfer, named: Seq<char>, selected: Seq<char>, file: Seq<char>) -> CommandView {
    match resolved(named, selected) {
        Some(bucket) => CommandView::Move { kind, bucket, file },
        None => CommandView::Complain(Complaint::AmbiguousTarget),
    }
}

/// What the arguments of the program ask for, the program's own name being the first of them.
/// Without a command, or with `console`, the console goes on. `ls` lists what the next
/// argument names, `get` and `put` move the file that the fourth argument names from or to the
/// bucket that the third names; every other word asks for nothing.
pub open spec fn args_command(args: Seq<Seq<char>>) -> CommandView {
    if args.len() < 2 || trimmed(args[1]) == "console"@ {
        CommandView::Console
    } else if trimmed(args[1]) == "ls"@ {
        if args.len() == 3 {
            CommandView::Ls { bucket: trimmed(args[2]) }
        } else {
            CommandView::Ls { bucket: Seq::empty() }
        }
    } else if trimmed(args[1]) == "get"@ {
        if args.len() > 3 {
            moved(Transfer::Get, args[2], Seq::empty(), args[3])
        } else {
            CommandView::Complain(Complaint::TooFewToGet)
        }
    } else if trimmed(args[1]) == "put"@ {
        if args.len() > 3 {
            moved(Transfer::Put, args[2], Seq::empty(), args[3])
        } else {
            CommandView::Complain(Complaint::TooFewToPut)
        }
    } else {
        CommandView::Nothing
    }
}

/// The complaint about a transfer that lacks words.
pub fn complaint_of(kind: Transfer) -> (r: Complaint)
    ensures
        r == too_few(kind),
{
    match kind {
        Transfer::Upload => Complaint::TooFewToPut,
        Transfer::Put => Complaint::TooFewToPut,
        Transfer::Download => Complaint::TooFewToGet,
        Transfer::Get => Complaint::TooFewToGet,
    }
}

/// The transfer of `file` to or from the bucket that the command names or, where it names
/// none, the selected one; a complaint where there is neither.
pub fn transfer(kind: Transfer, named: &str, selected: &str, file: &str) -> (r: Command)
    ensures
        r@ == moved(kind, named@, selected@, file@),
{
    if named.unicode_len() > 0 {
        Command::Move { kind, bucket: named.to_owned(), file: file.to_owned() }
    } else if selected.unicode_len() > 0 {
        Command::Move { kind, bucket: selected.to_owned(), file: file.to_owned() }
    } else {
        Command::Complain(Complaint::AmbiguousTarget)
    }
}

/// What the arguments of the program ask for, the program's own name being the first of them.
pub fn parse_args(args: &Vec<String>) -> (r: Command)
    ensures
        r@ == args_command(crate::text::texts_of(args@)),
{
    if args.len() < 2 {
        return Command::Console;
    }
    proof {
        reveal_strlit("");
    }
    let word = trim(args[1].as_str());
    let word = word.as_str();
    if same_text(word, "console") {
        Command::Console
    } else if same_text(word, "ls") {
        if args.len() == 3 {
            Command::Ls { bucket: trim(args[2].as_str()) }
        } else {
            Command::Ls { bucket: String::new() }
        }
    } else if same_text(word, "get") {
        if args.len() > 3 {
            transfer(Transfer::Get, args[2].as_str(), "", args[3].as_str())
        } else {
            Command::Complain(Complaint::TooFewToGet)
        }
    } else if same_text(word, "put") {
        if args.len() > 3 {
            transfer(Transfer::Put, args[2].as_str(), "", args[3].as_str())
        } else {
            Command::Complain(Complaint::TooFewToPut)
        }
    } else {
        Command::Nothing
    }
}

} // verus!
