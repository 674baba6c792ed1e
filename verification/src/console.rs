//! The console: what a line asks for, what stands before the cursor, and which answers say yes.

use crate::command::{
    complaint_of, moved, too_few, transfer, Command, CommandView, Complaint, Transfer,
};
use crate::s3::{resolved, S3Client, S3ClientView};
use crate::text::{
    fields, has_prefix, joined, same_text, split, starts_with, texts_of, trim, trimmed,
};
use vstd::prelude::*;

verus! {

/// The lower-case form of `text`.
pub uninterp spec fn lower_case(text: Seq<char>) -> Seq<char>;

/// `str::to_lowercase`. Believed of it: the result is a function of the text.
#[verifier::external_body]
fn to_lowercase(text: &str) -> (r: String)
    ensures
        r@ == lower_case(text@),
{
    text.to_lowercase()
}

/// Whether `word`, already trimmed and in lower case, says yes.
pub open spec fn is_yes_word(word: Seq<char>) -> bool {
    word == "y"@ || word == "yes"@ || word == "ok"@
}

/// Whether the answer to a yes-or-no question says yes: white space around it and the case of
/// its letters do not count.
pub open spec fn is_yes(answer: Seq<char>) -> bool {
    is_yes_word(lower_case(trimmed(answer)))
}

/// Whether `word`, already trimmed and in lower case, says yes.
pub fn yes_word(word: &str) -> (r: bool)
    ensures
        r == is_yes_word(word@),
{
    same_text(word, "y") || same_text(word, "yes") || same_text(word, "ok")
}

/// Whether the answer to a yes-or-no question says yes.
pub fn y_or_n(answer: &str) -> (r: bool)
    ensures
        r == is_yes(answer@),
{
    let word = to_lowercase(trim(answer).as_str());
    yes_word(word.as_str())
}

/// What stands before the cursor: the name of the program and, where a bucket is selected,
/// its name.
pub open spec fn prompt_of(selected: Seq<char>) -> Seq<char> {
    if selected.len() == 0 {
        " s3po > "@
    } else {
        " s3po > "@ + selected + " > "@
    }
}

/// Whether `word` asks to show the profile.
pub open spec fn is_print_word(word: Seq<char>) -> bool {
    word == "cat"@ || word == "print"@
}

/// Whether `word` asks to list the profiles.
pub open spec fn is_list_word(word: Seq<char>) -> bool {
    word == "list"@ || word == "ls"@
}

/// Whether `word` asks for a new profile.
pub open spec fn is_create_word(word: Seq<char>) -> bool {
    word == "create"@ || word == "add"@ || word == "new"@
}

/// Whether `word` asks to delete a profile.
pub open spec fn is_delete_word(word: Seq<char>) -> bool {
    word == "delete"@ || word == "rm"@ || word == "del"@
}

/// Whether `word` asks to take up a profile.
pub open spec fn is_use_word(word: Seq<char>) -> bool {
    word == "use"@ || word == "load"@ || word == "set"@
}

/// Whether the line leaves the console.
pub open spec fn is_quit_word(word: Seq<char>) -> bool {
    word == "q"@ || word == "exit"@ || word == "quit"@
}

/// What a line that begins with `config` asks for, `words` being its words. Alone, or with more
/// than two words after it, it shows the profile in use.
pub open spec fn config_command(words: Seq<Seq<char>>) -> CommandView {
    if words.len() == 2 {
        if is_print_word(words[1]) {
            CommandView::ConfigPrint
        } else if words[1] == "folder"@ {
            CommandView::ConfigFolder
        } else if is_list_word(words[1]) {
            CommandView::ConfigList
        } else if is_create_word(words[1]) {
            CommandView::ConfigCreate
        } else if is_delete_word(words[1]) {
            CommandView::ConfigDeleteAsk
        } else if is_use_word(words[1]) {
            CommandView::ConfigUseAsk
        } else {
            CommandView::Nothing
        }
    } else if words.len() == 3 {
        if is_use_word(words[1]) {
            CommandView::ConfigUse { name: words[2] }
        } else if is_delete_word(words[1]) {
            CommandView::ConfigDelete { name: words[2] }
        } else {
            CommandView::Nothing
        }
    } else {
        CommandView::ConfigPrint
    }
}

/// What a line asks for that moves a file as it is: the second word names the bucket, the
/// third the file.
pub open spec fn plain_command(kind: Transfer, words: Seq<Seq<char>>, selected: Seq<char>) -> CommandView {
    if words.len() > 2 {
        moved(kind, words[1], selected, words[2])
    } else {
        CommandView::Complain(too_few(kind))
    }
}

/// What a line asks for that moves a file encrypted: with two words the second names the file
/// and the bucket is the selected one; with more the second names the bucket, the third the
/// file.
pub open spec fn sealed_command(kind: Transfer, words: Seq<Seq<char>>, selected: Seq<char>) -> CommandView {
    if words.len() == 2 {
        moved(kind, Seq::empty(), selected, words[1])
    } else if words.len() > 2 {
        moved(kind, words[1], selected, words[2])
    } else {
        CommandView::Complain(too_few(kind))
    }
}

/// What a line asks for that removes something: with two words a bucket at the root and an
/// object of the selected bucket elsewhere; with three the object that the third names, from
/// the bucket that the second names.
pub open spec fn remove_command(words: Seq<Seq<char>>, selected: Seq<char>) -> CommandView {
    if words.len() == 2 {
        if selected.len() == 0 || selected == "/"@ {
            CommandView::RemoveBucket { bucket: words[1] }
        } else {
            CommandView::RemoveObject { bucket: selected, object: words[1] }
        }
    } else if words.len() == 3 {
        match resolved(words[1], selected) {
            Some(bucket) => CommandView::RemoveObject { bucket, object: words[2] },
            None => CommandView::Complain(Complaint::AmbiguousTarget),
        }
    } else {
        CommandView::Complain(Complaint::RemoveUsage)
    }
}

/// What a line of the console asks for while `selected` is the selected bucket. White space
/// around the line does not count; its words are what single spaces part. Some commands are
/// known by the whole line, the others by how the line begins.
pub open spec fn command_of(selected: Seq<char>, line: Seq<char>) -> CommandView {
    let input = trimmed(line);
    let words = fields(input, ' ');
    if input == "help"@ {
        CommandView::Help
    } else if input == "encrypt"@ {
        CommandView::EncryptConfig
    } else if input == "decrypt"@ {
        CommandView::DecryptConfig
    } else if input == "keys"@ {
        CommandView::Keys
    } else if input == "todo"@ {
        CommandView::Todo
    } else if input == "mnemonic"@ {
        CommandView::Mnemonic
    } else if starts_with(input, "cd"@) {
        CommandView::Cd {
            bucket: if words.len() > 1 {
                words[1]
            } else {
                Seq::empty()
            },
        }
    } else if starts_with(input, "mkdir"@) {
        if words.len() > 1 {
            CommandView::Mkdir { bucket: words[1] }
        } else {
            CommandView::MkdirAsk
        }
    } else if starts_with(input, "ls"@) || starts_with(input, "list"@) {
        CommandView::Ls {
            bucket: if words.len() > 1 {
                words[1]
            } else {
                selected
            },
        }
    } else if starts_with(input, "upload"@) || starts_with(input, "put2"@) {
        plain_command(Transfer::Upload, words, selected)
    } else if starts_with(input, "put"@) {
        sealed_command(Transfer::Put, words, selected)
    } else if starts_with(input, "download"@) {
        plain_command(Transfer::Download, words, selected)
    } else if starts_with(input, "get"@) {
        sealed_command(Transfer::Get, words, selected)
    } else if starts_with(input, "rm"@) || starts_with(input, "del"@) {
        remove_command(words, selected)
    } else if starts_with(input, "config"@) {
        config_command(words)
    } else if is_quit_word(input) {
        CommandView::Quit
    } else if input == "test_crypto"@ {
        CommandView::TestCrypto
    } else {
        CommandView::Unknown { input }
    }
}

/// What stands before the cursor.
pub fn prompt(client: &S3Client) -> (r: String)
    ensures
        r@ == prompt_of(client@.bucket),
{
    if client.bucket.as_str().unicode_len() == 0 {
        " s3po > ".to_owned()
    } else {
        let head = joined(" s3po > ", client.bucket.as_str());
        joined(head.as_str(), " > ")
    }
}

/// What a line that begins with `config` asks for, `words` being its words.
fn config(words: &Vec<String>) -> (r: Command)
    ensures
        r@ == config_command(texts_of(words@)),
{
    if words.len() == 2 {
        let word = words[1].as_str();
        if same_text(word, "cat") || same_text(word, "print") {
            Command::ConfigPrint
        } else if same_text(word, "folder") {
            Command::ConfigFolder
        } else if same_text(word, "list") || same_text(word, "ls") {
            Command::ConfigList
        } else if same_text(word, "create") || same_text(word, "add") || same_text(word, "new") {
            Command::ConfigCreate
        } else if same_text(word, "delete") || same_text(word, "rm") || same_text(word, "del") {
            Command::ConfigDeleteAsk
        } else if same_text(word, "use") || same_text(word, "load") || same_text(word, "set") {
            Command::ConfigUseAsk
        } else {
            Command::Nothing
        }
    } else if words.len() == 3 {
        let word = words[1].as_str();
        if same_text(word, "use") || same_text(word, "load") || same_text(word, "set") {
            Command::ConfigUse { name: words[2].clone() }
        } else if same_text(word, "delete") || same_text(word, "rm") || same_text(word, "del") {
            Command::ConfigDelete { name: words[2].clone() }
        } else {
            Command::Nothing
        }
    } else {
        Command::ConfigPrint
    }
}

/// What a line asks for that moves a file as it is.
fn plain(kind: Transfer, words: &Vec<String>, selected: &str) -> (r: Command)
    ensures
        r@ == plain_command(kind, texts_of(words@), selected@),
{
    if words.len() > 2 {
        transfer(kind, words[1].as_str(), selected, words[2].as_str())
    } else {
        Command::Complain(complaint_of(kind))
    }
}

/// What a line asks for that moves a file encrypted.
fn encrypted(kind: Transfer, words: &Vec<String>, selected: &str) -> (r: Command)
    ensures
        r@ == sealed_command(kind, texts_of(words@), selected@),
{
    proof {
        reveal_strlit("");
    }
    if words.len() == 2 {
        transfer(kind, "", selected, words[1].as_str())
    } else if words.len() > 2 {
        transfer(kind, words[1].as_str(), selected, words[2].as_str())
    } else {
        Command::Complain(complaint_of(kind))
    }
}

/// What a line asks for that removes something.
fn remove(words: &Vec<String>, selected: &str) -> (r: Command)
    ensures
        r@ == remove_command(texts_of(words@), selected@),
{
    if words.len() == 2 {
        if selected.unicode_len() == 0 || same_text(selected, "/") {
            Command::RemoveBucket { bucket: words[1].clone() }
        } else {
            Command::RemoveObject { bucket: selected.to_owned(), object: words[1].clone() }
        }
    } else if words.len() == 3 {
        if words[1].as_str().unicode_len() > 0 {
            Command::RemoveObject { bucket: words[1].clone(), object: words[2].clone() }
        } else if selected.unicode_len() > 0 {
            Command::RemoveObject { bucket: selected.to_owned(), object: words[2].clone() }
        } else {
            Command::Complain(Complaint::AmbiguousTarget)
        }
    } else {
        Command::Complain(Complaint::RemoveUsage)
    }
}

/// What a line of the console asks for in the session `client`.
pub fn command(client: &S3Client, line: &str) -> (r: Command)
    ensures
        r@ == command_of(client@.bucket, line@),
{
    let input = trim(line);
    let input = input.as_str();
    let selected = client.bucket.as_str();
    if same_text(input, "help") {
        return Command::Help;
    }
    if same_text(input, "encrypt") {
        return Command::EncryptConfig;
    }
    if same_text(input, "decrypt") {
        return Command::DecryptConfig;
    }
    if same_text(input, "keys") {
        return Command::Keys;
    }
    if same_text(input, "todo") {
        return Command::Todo;
    }
    if same_text(input, "mnemonic") {
        return Command::Mnemonic;
    }
    let words = split(input, ' ');
    if has_prefix(input, "cd") {
        if words.len() > 1 {
            Command::Cd { bucket: words[1].clone() }
        } else {
            Command::Cd { bucket: String::new() }
        }
    } else if has_prefix(input, "mkdir") {
        if words.len() > 1 {
            Command::Mkdir { bucket: words[1].clone() }
        } else {
            Command::MkdirAsk
        }
    } else if has_prefix(input, "ls") || has_prefix(input, "list") {
        if words.len() > 1 {
            Command::Ls { bucket: words[1].clone() }
        } else {
            Command::Ls { bucket: selected.to_owned() }
        }
    } else if has_prefix(input, "upload") || has_prefix(input, "put2") {
        plain(Transfer::Upload, &words, selected)
    } else if has_prefix(input, "put") {
        encrypted(Transfer::Put, &words, selected)
    } else if has_prefix(input, "download") {
        plain(Transfer::Download, &words, selected)
    } else if has_prefix(input, "get") {
        encrypted(Transfer::Get, &words, selected)
    } else if has_prefix(input, "rm") || has_prefix(input, "del") {
        remove(&words, selected)
    } else if has_prefix(input, "config") {
        config(&words)
    } else if same_text(input, "q") || same_text(input, "exit") || same_text(input, "quit") {
        Command::Quit
    } else if same_text(input, "test_crypto") {
        Command::TestCrypto
    } else {
        Command::Unknown { input: input.to_owned() }
    }
}


/// The session after a turn of the console in which `command` was asked for: a move selects
/// another bucket, and nothing else changes the session by itself.
pub open spec fn after(session: S3ClientView, command: CommandView) -> S3ClientView {
    match command {
        CommandView::Cd { bucket } => session.navigate(bucket),
        _ => session,
    }
}

/// One turn of the console: makes out what `line` asks for in the session `client`, carries
/// out what the session can do by itself, which is to move, and hands back the command for
/// whatever else there is to do.
pub fn turn(client: &mut S3Client, line: &str) -> (r: Command)
    ensures
        r@ == command_of(old(client)@.bucket, line@),
        final(client)@ == after(old(client)@, r@),
        final(client).config == old(client).config,
{
    let asked = command(client, line);
    match &asked {
        Command::Cd { bucket } => {
            client.set_bucket(bucket.clone());
        },
        _ => {},
    }
    asked
}

} // verus!
