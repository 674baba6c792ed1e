use s3po::command::{parse_args, transfer, Command, Complaint, Transfer};
use s3po::config::S3Config;
use s3po::console::{command, prompt, turn, y_or_n, yes_word};
use s3po::s3::S3Client;

fn at(bucket: &str) -> S3Client {
    S3Client { config: S3Config::default(), bucket: bucket.to_string() }
}

fn args(words: &[&str]) -> Vec<String> {
    words.iter().map(|w| w.to_string()).collect()
}

fn moved(kind: Transfer, bucket: &str, file: &str) -> Command {
    Command::Move { kind, bucket: bucket.to_string(), file: file.to_string() }
}

#[test]
fn yes_is_y_yes_or_ok() {
    for answer in ["y", "yes", "ok", "Y", "YES", "Ok", " y ", "yes\n", "\tOK\r\n", "o\u{212A}"] {
        assert!(y_or_n(answer), "{:?}", answer);
    }
    for answer in ["", "n", "no", "yy", "y es", "okay", "ja", "0"] {
        assert!(!y_or_n(answer), "{:?}", answer);
    }
    assert!(yes_word("y"));
    assert!(!yes_word("Y"));
    assert!(!yes_word(" y"));
}

#[test]
fn prompt_shows_the_selected_bucket() {
    assert_eq!(prompt(&at("")), " s3po > ");
    assert_eq!(prompt(&at("archive")), " s3po > archive > ");
}

#[test]
fn whole_line_commands() {
    let client = at("");
    assert_eq!(command(&client, "help"), Command::Help);
    assert_eq!(command(&client, "  help \n"), Command::Help);
    assert_eq!(command(&client, "encrypt"), Command::EncryptConfig);
    assert_eq!(command(&client, "decrypt"), Command::DecryptConfig);
    assert_eq!(command(&client, "keys"), Command::Keys);
    assert_eq!(command(&client, "todo"), Command::Todo);
    assert_eq!(command(&client, "mnemonic"), Command::Mnemonic);
    assert_eq!(command(&client, "q"), Command::Quit);
    assert_eq!(command(&client, "exit"), Command::Quit);
    assert_eq!(command(&client, "quit\n"), Command::Quit);
    assert_eq!(command(&client, "test_crypto"), Command::TestCrypto);
}

#[test]
fn unknown_lines_are_handed_back_trimmed() {
    let client = at("");
    assert_eq!(command(&client, " what now \n"), Command::Unknown { input: "what now".to_string() });
    assert_eq!(command(&client, ""), Command::Unknown { input: String::new() });
    assert_eq!(command(&client, "help me"), Command::Unknown { input: "help me".to_string() });
    assert_eq!(command(&client, "Help"), Command::Unknown { input: "Help".to_string() });
}

#[test]
fn cd_moves() {
    let client = at("");
    assert_eq!(command(&client, "cd archive"), Command::Cd { bucket: "archive".to_string() });
    assert_eq!(command(&client, "cd"), Command::Cd { bucket: String::new() });
    assert_eq!(command(&client, "cd .."), Command::Cd { bucket: "..".to_string() });
    assert_eq!(command(&client, "cd  archive"), Command::Cd { bucket: String::new() });
    assert_eq!(command(&client, "cd a b"), Command::Cd { bucket: "a".to_string() });
}

#[test]
fn mkdir_makes_or_asks() {
    let client = at("");
    assert_eq!(command(&client, "mkdir docs"), Command::Mkdir { bucket: "docs".to_string() });
    assert_eq!(command(&client, "mkdir"), Command::MkdirAsk);
}

#[test]
fn ls_lists_the_named_or_the_selected() {
    assert_eq!(command(&at(""), "ls"), Command::Ls { bucket: String::new() });
    assert_eq!(command(&at("a"), "ls"), Command::Ls { bucket: "a".to_string() });
    assert_eq!(command(&at("a"), "ls b"), Command::Ls { bucket: "b".to_string() });
    assert_eq!(command(&at("a"), "list b"), Command::Ls { bucket: "b".to_string() });
    assert_eq!(command(&at("a"), "list"), Command::Ls { bucket: "a".to_string() });
}

#[test]
fn upload_and_download_need_bucket_and_file() {
    assert_eq!(command(&at(""), "upload b f"), moved(Transfer::Upload, "b", "f"));
    assert_eq!(command(&at(""), "put2 b f"), moved(Transfer::Upload, "b", "f"));
    assert_eq!(command(&at(""), "download b f"), moved(Transfer::Download, "b", "f"));
    assert_eq!(command(&at("a"), "upload f"), Command::Complain(Complaint::TooFewToPut));
    assert_eq!(command(&at("a"), "put2"), Command::Complain(Complaint::TooFewToPut));
    assert_eq!(command(&at("a"), "download f"), Command::Complain(Complaint::TooFewToGet));
    assert_eq!(command(&at("a"), "upload  f"), moved(Transfer::Upload, "a", "f"));
    assert_eq!(command(&at(""), "upload  f"), Command::Complain(Complaint::AmbiguousTarget));
}

#[test]
fn put_and_get_fall_back_on_the_selected_bucket() {
    assert_eq!(command(&at(""), "put b f"), moved(Transfer::Put, "b", "f"));
    assert_eq!(command(&at("a"), "put b f"), moved(Transfer::Put, "b", "f"));
    assert_eq!(command(&at("a"), "put f"), moved(Transfer::Put, "a", "f"));
    assert_eq!(command(&at("a"), "put b f more"), moved(Transfer::Put, "b", "f"));
    assert_eq!(command(&at(""), "get b f"), moved(Transfer::Get, "b", "f"));
    assert_eq!(command(&at("a"), "get f"), moved(Transfer::Get, "a", "f"));
}

#[test]
fn put_and_get_without_any_bucket_are_ambiguous() {
    assert_eq!(command(&at(""), "put f"), Command::Complain(Complaint::AmbiguousTarget));
    assert_eq!(command(&at(""), "get f"), Command::Complain(Complaint::AmbiguousTarget));
    assert_eq!(command(&at(""), "get  f"), Command::Complain(Complaint::AmbiguousTarget));
}

#[test]
fn put_and_get_alone_lack_words() {
    assert_eq!(command(&at("a"), "put"), Command::Complain(Complaint::TooFewToPut));
    assert_eq!(command(&at("a"), "get"), Command::Complain(Complaint::TooFewToGet));
}

#[test]
fn rm_removes_buckets_at_the_root_and_objects_elsewhere() {
    assert_eq!(command(&at(""), "rm b"), Command::RemoveBucket { bucket: "b".to_string() });
    assert_eq!(command(&at("/"), "del b"), Command::RemoveBucket { bucket: "b".to_string() });
    assert_eq!(
        command(&at("a"), "rm o"),
        Command::RemoveObject { bucket: "a".to_string(), object: "o".to_string() }
    );
    assert_eq!(
        command(&at(""), "rm b o"),
        Command::RemoveObject { bucket: "b".to_string(), object: "o".to_string() }
    );
    assert_eq!(
        command(&at("a"), "delete b o"),
        Command::RemoveObject { bucket: "b".to_string(), object: "o".to_string() }
    );
    assert_eq!(command(&at(""), "rm  o"), Command::Complain(Complaint::AmbiguousTarget));
    assert_eq!(command(&at(""), "rm"), Command::Complain(Complaint::RemoveUsage));
    assert_eq!(command(&at(""), "rm a b c"), Command::Complain(Complaint::RemoveUsage));
}

#[test]
fn config_commands() {
    let client = at("");
    assert_eq!(command(&client, "config"), Command::ConfigPrint);
    assert_eq!(command(&client, "config cat"), Command::ConfigPrint);
    assert_eq!(command(&client, "config print"), Command::ConfigPrint);
    assert_eq!(command(&client, "config a b c"), Command::ConfigPrint);
    assert_eq!(command(&client, "config folder"), Command::ConfigFolder);
    assert_eq!(command(&client, "config list"), Command::ConfigList);
    assert_eq!(command(&client, "config ls"), Command::ConfigList);
    for word in ["create", "add", "new"] {
        assert_eq!(command(&client, &format!("config {}", word)), Command::ConfigCreate);
    }
    for word in ["delete", "rm", "del"] {
        assert_eq!(command(&client, &format!("config {}", word)), Command::ConfigDeleteAsk);
        assert_eq!(
            command(&client, &format!("config {} work", word)),
            Command::ConfigDelete { name: "work".to_string() }
        );
    }
    for word in ["use", "load", "set"] {
        assert_eq!(command(&client, &format!("config {}", word)), Command::ConfigUseAsk);
        assert_eq!(
            command(&client, &format!("config {} work", word)),
            Command::ConfigUse { name: "work".to_string() }
        );
    }
    assert_eq!(command(&client, "config what"), Command::Nothing);
    assert_eq!(command(&client, "config print work"), Command::Nothing);
}

#[test]
fn commands_are_known_by_how_the_line_begins() {
    let client = at("");
    assert_eq!(command(&client, "cdx y"), Command::Cd { bucket: "y".to_string() });
    assert_eq!(command(&client, "lsx"), Command::Ls { bucket: String::new() });
    assert_eq!(command(&client, "puts b f"), moved(Transfer::Put, "b", "f"));
    assert_eq!(command(&client, "quitx"), Command::Unknown { input: "quitx".to_string() });
    assert_eq!(command(&client, "keys now"), Command::Unknown { input: "keys now".to_string() });
}

#[test]
fn transfer_makes_out_the_bucket() {
    assert_eq!(transfer(Transfer::Get, "n", "s", "f"), moved(Transfer::Get, "n", "f"));
    assert_eq!(transfer(Transfer::Get, "", "s", "f"), moved(Transfer::Get, "s", "f"));
    assert_eq!(transfer(Transfer::Get, "", "", "f"), Command::Complain(Complaint::AmbiguousTarget));
}

#[test]
fn no_argument_or_console_goes_on_with_the_console() {
    assert_eq!(parse_args(&args(&[])), Command::Console);
    assert_eq!(parse_args(&args(&["s3po"])), Command::Console);
    assert_eq!(parse_args(&args(&["s3po", "console"])), Command::Console);
    assert_eq!(parse_args(&args(&["s3po", " console ", "x"])), Command::Console);
}

#[test]
fn arguments_list() {
    assert_eq!(parse_args(&args(&["s3po", "ls"])), Command::Ls { bucket: String::new() });
    assert_eq!(
        parse_args(&args(&["s3po", "ls", " docs "])),
        Command::Ls { bucket: "docs".to_string() }
    );
    assert_eq!(
        parse_args(&args(&["s3po", "ls", "docs", "more"])),
        Command::Ls { bucket: String::new() }
    );
}

#[test]
fn arguments_get_and_put() {
    assert_eq!(parse_args(&args(&["s3po", "get", "b", "f"])), moved(Transfer::Get, "b", "f"));
    assert_eq!(parse_args(&args(&["s3po", "put", "b", "f"])), moved(Transfer::Put, "b", "f"));
    assert_eq!(parse_args(&args(&["s3po", "put", "b", "f", "x"])), moved(Transfer::Put, "b", "f"));
    assert_eq!(
        parse_args(&args(&["s3po", "get", "b"])),
        Command::Complain(Complaint::TooFewToGet)
    );
    assert_eq!(
        parse_args(&args(&["s3po", "put"])),
        Command::Complain(Complaint::TooFewToPut)
    );
    assert_eq!(
        parse_args(&args(&["s3po", "put", "", "f"])),
        Command::Complain(Complaint::AmbiguousTarget)
    );
}

#[test]
fn other_arguments_ask_for_nothing() {
    for word in ["mkdir", "rm", "config", "what", ""] {
        assert_eq!(parse_args(&args(&["s3po", word, "x"])), Command::Nothing, "{:?}", word);
    }
}

#[test]
fn a_turn_moves_on_cd_and_only_then() {
    let mut client = at("");
    assert_eq!(turn(&mut client, "cd archive"), Command::Cd { bucket: "archive".to_string() });
    assert_eq!(client.bucket, "archive");
    assert_eq!(prompt(&client), " s3po > archive > ");
    assert_eq!(turn(&mut client, "ls"), Command::Ls { bucket: "archive".to_string() });
    assert_eq!(client.bucket, "archive");
    assert_eq!(turn(&mut client, "put f"), moved(Transfer::Put, "archive", "f"));
    assert_eq!(client.bucket, "archive");
    assert_eq!(turn(&mut client, "config use other"), Command::ConfigUse { name: "other".to_string() });
    assert_eq!(client, at("archive"));
    assert_eq!(turn(&mut client, "cd .."), Command::Cd { bucket: "..".to_string() });
    assert_eq!(client, at(""));
    assert_eq!(turn(&mut client, "cd"), Command::Cd { bucket: String::new() });
    assert_eq!(client, at(""));
}
