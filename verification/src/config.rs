//! Profiles: what makes one complete, how one is made, which of the stored ones may be used,
//! and what the files that keep them are called.

use crate::console::{is_yes, y_or_n};
use crate::crypto::{is_encoding, is_keypair, new_keys};
use crate::text::{
    blank, chars_of, ends_with, has_suffix, is_blank, is_white_space, joined,
    lemma_blank_trims_to_nothing, strip_suffix, text_of, trimmed, without_suffix,
};
use vstd::prelude::*;

verus! {

/// A named bundle of the credentials of one backend and the key pair that seals what is stored
/// there.
#[derive(Debug, PartialEq, Eq)]
pub struct S3Config {
    /// The name by which the profile is known.
    pub name: String,
    /// Where the store is reached.
    pub base_url: String,
    /// The key that tells the store who asks.
    pub access_key: String,
    /// The secret that goes with the access key.
    pub secret_key: String,
    /// The base-58 text of the secret key that opens what was sealed.
    pub sk_bs58: String,
    /// The base-58 text of the public key that seals.
    pub pk_bs58: String,
}

/// What an `S3Config` holds.
pub struct S3ConfigView {
    pub name: Seq<char>,
    pub base_url: Seq<char>,
    pub access_key: Seq<char>,
    pub secret_key: Seq<char>,
    pub sk_bs58: Seq<char>,
    pub pk_bs58: Seq<char>,
}

impl View for S3Config {
    type V = S3ConfigView;

    open spec fn view(&self) -> S3ConfigView {
        S3ConfigView {
            name: self.name@,
            base_url: self.base_url@,
            access_key: self.access_key@,
            secret_key: self.secret_key@,
            sk_bs58: self.sk_bs58@,
            pk_bs58: self.pk_bs58@,
        }
    }
}

impl S3ConfigView {
    /// Every one of the six fields holds something besides white space.
    pub open spec fn complete(self) -> bool {
        &&& trimmed(self.name).len() > 0
        &&& trimmed(self.base_url).len() > 0
        &&& trimmed(self.access_key).len() > 0
        &&& trimmed(self.secret_key).len() > 0
        &&& trimmed(self.sk_bs58).len() > 0
        &&& trimmed(self.pk_bs58).len() > 0
    }

    /// The two key fields are the texts of one key pair.
    pub open spec fn has_keypair(self) -> bool {
        exists|sk: Seq<u8>, pk: Seq<u8>|
            is_keypair(sk, pk) && is_encoding(self.sk_bs58, sk) && is_encoding(self.pk_bs58, pk)
    }
}

/// The name that a profile gets where none is given.
pub open spec fn default_name() -> Seq<char> {
    "default"@
}

/// The profile that stands where none was made yet: the default name and nothing else.
pub open spec fn default_config() -> S3ConfigView {
    S3ConfigView {
        name: default_name(),
        base_url: Seq::empty(),
        access_key: Seq::empty(),
        secret_key: Seq::empty(),
        sk_bs58: Seq::empty(),
        pk_bs58: Seq::empty(),
    }
}

/// Why no profile is at hand.
#[derive(Clone, Copy, Debug, PartialEq, Eq, Structural)]
pub enum LoadError {
    /// Nothing is stored under the name.
    NotFound,
    /// The profile lacks a field, or what is stored under the name cannot be read.
    Incomplete,
}

/// What the store holds under a name.
#[derive(Debug, PartialEq, Eq)]
pub enum Stored {
    /// Nothing.
    Nothing,
    /// A file that could not be read as a profile.
    Unreadable,
    /// This profile.
    Profile(S3Config),
}

/// The profile to use for what the store holds under a name, or why there is none.
pub open spec fn loaded(found: Stored) -> Result<S3Config, LoadError> {
    match found {
        Stored::Nothing => Err(LoadError::NotFound),
        Stored::Unreadable => Err(LoadError::Incomplete),
        Stored::Profile(cfg) => if cfg@.complete() {
            Ok(cfg)
        } else {
            Err(LoadError::Incomplete)
        },
    }
}

/// How a session starts.
#[derive(Debug, PartialEq, Eq)]
pub enum Startup {
    /// With this profile.
    Ready(S3Config),
    /// With a decision on the profile that could not be used.
    Repair(LoadError),
}

/// What to do about a profile that could not be used.
#[derive(Clone, Copy, Debug, PartialEq, Eq, Structural)]
pub enum Repair {
    /// Ask for its values again and write it anew.
    Recreate,
    /// Leave the file to be mended by hand, and stop.
    Halt,
}

/// The suffix of the files in which profiles are kept.
pub open spec fn file_suffix() -> Seq<char> {
    ".toml"@
}

/// The name of the profile that `entry` refers to, be it that name or the name of its file.
pub open spec fn profile_name_of(entry: Seq<char>) -> Seq<char> {
    match without_suffix(entry, file_suffix()) {
        Some(name) => name,
        None => entry,
    }
}

/// The name of the file of the profile that `entry` refers to, be it the name of the profile
/// or that of its file.
pub open spec fn file_name_of(entry: Seq<char>) -> Seq<char> {
    if ends_with(entry, file_suffix()) {
        entry
    } else {
        entry + file_suffix()
    }
}

/// The folder of the file at `path`: what stands before the last `/`, and nothing where there
/// is none.
pub open spec fn folder_of(path: Seq<char>) -> Seq<char>
    decreases path.len(),
{
    if path.len() == 0 {
        path
    } else if path.last() == '/' {
        path.drop_last()
    } else {
        folder_of(path.drop_last())
    }
}

/// The text `dd/mm/yyyy hh:mm:ss` of the moment `secs` seconds after the start of 1970 (UTC),
/// or `None` for a moment beyond the calendar.
pub uninterp spec fn utc_text(secs: i64) -> Option<Seq<char>>;

/// The line that shows one profile file in a listing: its name and, where the moment of its
/// last change has a text, a space and that text.
pub open spec fn list_line_of(file_name: Seq<char>, stamp: Option<Seq<char>>) -> Seq<char> {
    match stamp {
        Some(text) => file_name + " "@ + text,
        None => file_name,
    }
}

/// The lines that show a profile, but for its name.
pub open spec fn lines_of(cfg: S3ConfigView) -> Seq<Seq<char>> {
    seq![
        "s3 server url: "@ + cfg.base_url,
        "s3 access key: "@ + cfg.access_key,
        "s3 secret key: "@ + cfg.secret_key,
        "data encryption public key: "@ + cfg.pk_bs58,
        "data encryption secret key: "@ + cfg.sk_bs58,
    ]
}

/// `chrono::DateTime::from_timestamp` and `format` with `%d/%m/%Y %T`. Believed of it: the
/// text, and whether there is one, is a function of the number of seconds.
#[verifier::external_body]
fn format_utc(secs: i64) -> (r: Option<String>)
    ensures
        text_of(r) == utc_text(secs),
{
    match chrono::DateTime::from_timestamp(secs, 0) {
        Some(moment) => Some(moment.format("%d/%m/%Y %T").to_string()),
        None => None,
    }
}

/// What stands before the last `/` is the folder.
pub proof fn lemma_folder_of(path: Seq<char>, k: int)
    requires
        0 <= k < path.len(),
        path[k] == '/',
        forall|j: int| k < j < path.len() ==> #[trigger] path[j] != '/',
    ensures
        folder_of(path) == path.take(k),
    decreases path.len() - k,
{
    if k == path.len() - 1 {
    } else {
        let t = path.drop_last();
        lemma_folder_of(t, k);
    }
}

/// Without a `/` there is no folder.
pub proof fn lemma_no_folder(path: Seq<char>)
    requires
        forall|j: int| 0 <= j < path.len() ==> #[trigger] path[j] != '/',
    ensures
        folder_of(path).len() == 0,
    decreases path.len(),
{
    if path.len() > 0 {
        lemma_no_folder(path.drop_last());
    }
}

/// The name of a profile and the name of its file refer to the same profile, and the file is
/// named after the profile.
pub proof fn lemma_profile_names(entry: Seq<char>)
    ensures
        ends_with(file_name_of(entry), file_suffix()),
        profile_name_of(file_name_of(entry)) == profile_name_of(entry),
        file_name_of(entry) == profile_name_of(entry) + file_suffix(),
{
    let n = file_suffix().len();
    let full = entry + file_suffix();
    assert(full.skip(full.len() - n) =~= file_suffix());
    if ends_with(entry, file_suffix()) {
        let name = entry.take(entry.len() - n);
    }
}

/// A profile is complete exactly when none of its six fields is blank.
pub proof fn lemma_complete(cfg: S3ConfigView)
    ensures
        cfg.complete() <==> !is_blank(cfg.name) && !is_blank(cfg.base_url) && !is_blank(
            cfg.access_key,
        ) && !is_blank(cfg.secret_key) && !is_blank(cfg.sk_bs58) && !is_blank(cfg.pk_bs58),
{
    lemma_blank_trims_to_nothing(cfg.name);
    lemma_blank_trims_to_nothing(cfg.base_url);
    lemma_blank_trims_to_nothing(cfg.access_key);
    lemma_blank_trims_to_nothing(cfg.secret_key);
    lemma_blank_trims_to_nothing(cfg.sk_bs58);
    lemma_blank_trims_to_nothing(cfg.pk_bs58);
}

impl Clone for S3Config {
    fn clone(&self) -> (r: Self)
        ensures
            r == *self,
    {
        S3Config {
            name: self.name.clone(),
            base_url: self.base_url.clone(),
            access_key: self.access_key.clone(),
            secret_key: self.secret_key.clone(),
            sk_bs58: self.sk_bs58.clone(),
            pk_bs58: self.pk_bs58.clone(),
        }
    }
}

impl Default for S3Config {
    fn default() -> (r: Self)
        ensures
            r@ == default_config(),
    {
        S3Config {
            name: "default".to_owned(),
            base_url: String::new(),
            access_key: String::new(),
            secret_key: String::new(),
            sk_bs58: String::new(),
            pk_bs58: String::new(),
        }
    }
}

/// A base-58 text that is not empty is not blank.
pub proof fn lemma_key_text_not_blank(text: Seq<char>, bytes: Seq<u8>)
    requires
        is_encoding(text, bytes),
        bytes.len() > 0,
    ensures
        trimmed(text).len() > 0,
{
    lemma_blank_trims_to_nothing(text);
}

/// The default name is not blank.
pub proof fn lemma_default_name_not_blank()
    ensures
        trimmed(default_name()).len() > 0,
{
    reveal_strlit("default");
    lemma_blank_trims_to_nothing(default_name());
    assert(!is_white_space(default_name()[0]));
}

impl S3Config {
    /// Whether the profile is broken: `true` where one of the six fields is empty or holds
    /// white space only.
    pub fn check(&self) -> (broken: bool)
        ensures
            broken == !self@.complete(),
    {
        blank(self.name.as_str()) || blank(self.base_url.as_str()) || blank(
            self.access_key.as_str(),
        ) || blank(self.secret_key.as_str()) || blank(self.sk_bs58.as_str()) || blank(
            self.pk_bs58.as_str(),
        )
    }

    /// Whether the profile can be used: every one of the six fields holds something besides
    /// white space.
    pub fn complete(&self) -> (r: bool)
        ensures
            r == self@.complete(),
    {
        !self.check()
    }

    /// The profile with a fresh key pair in place of the one it had. A profile that lacks its
    /// name or one of its three credentials gets no keys: nothing incomplete is handed out.
    pub fn gen_new_keys(self) -> (r: Result<S3Config, LoadError>)
        ensures
            r is Err <==> is_blank(self@.name) || is_blank(self@.base_url) || is_blank(
                self@.access_key,
            ) || is_blank(self@.secret_key),
            r matches Err(e) ==> e == LoadError::Incomplete,
            r matches Ok(cfg) ==> {
                &&& cfg@.name == self@.name
                &&& cfg@.base_url == self@.base_url
                &&& cfg@.access_key == self@.access_key
                &&& cfg@.secret_key == self@.secret_key
                &&& cfg@.has_keypair()
                &&& cfg@.complete()
            },
    {
        if blank(self.name.as_str()) || blank(self.base_url.as_str()) || blank(
            self.access_key.as_str(),
        ) || blank(self.secret_key.as_str()) {
            return Err(LoadError::Incomplete);
        }
        let (sk_bs58, pk_bs58) = new_keys();
        let cfg = S3Config {
            name: self.name,
            base_url: self.base_url,
            access_key: self.access_key,
            secret_key: self.secret_key,
            sk_bs58,
            pk_bs58,
        };
        proof {
            lemma_complete(cfg@);
            let (sk, pk) = choose|sk: Seq<u8>, pk: Seq<u8>|
                is_keypair(sk, pk) && is_encoding(cfg@.sk_bs58, sk) && is_encoding(
                    cfg@.pk_bs58,
                    pk,
                );
            lemma_key_text_not_blank(cfg@.sk_bs58, sk);
            lemma_key_text_not_blank(cfg@.pk_bs58, pk);
        }
        Ok(cfg)
    }

    /// A new profile for the backend at `base_url`, with a fresh key pair. A blank name stands
    /// for the default name. With a blank backend address, access key or secret there is no
    /// profile: what is handed out is complete.
    pub fn create(name: String, base_url: String, access_key: String, secret_key: String) -> (r:
        Result<S3Config, LoadError>)
        ensures
            r is Err <==> is_blank(base_url@) || is_blank(access_key@) || is_blank(secret_key@),
            r matches Err(e) ==> e == LoadError::Incomplete,
            r matches Ok(cfg) ==> {
                &&& cfg@.name == (if is_blank(name@) {
                    default_name()
                } else {
                    name@
                })
                &&& cfg@.base_url == base_url@
                &&& cfg@.access_key == access_key@
                &&& cfg@.secret_key == secret_key@
                &&& cfg@.has_keypair()
                &&& cfg@.complete()
            },
    {
        let name = if blank(name.as_str()) {
            "default".to_owned()
        } else {
            name
        };
        proof {
            lemma_default_name_not_blank();
            lemma_blank_trims_to_nothing(name@);
        }
        let cfg = S3Config {
            name,
            base_url,
            access_key,
            secret_key,
            sk_bs58: String::new(),
            pk_bs58: String::new(),
        };
        cfg.gen_new_keys()
    }

    /// What the store's answer for a name amounts to. A profile is handed out only if it is
    /// complete; a file that could not be read counts as a profile that lacks its fields.
    pub fn load(found: Stored) -> (r: Result<S3Config, LoadError>)
        ensures
            r == loaded(found),
            r matches Ok(cfg) ==> cfg@.complete(),
    {
        match found {
            Stored::Nothing => Err(LoadError::NotFound),
            Stored::Unreadable => Err(LoadError::Incomplete),
            Stored::Profile(cfg) => {
                if cfg.check() {
                    Err(LoadError::Incomplete)
                } else {
                    Ok(cfg)
                }
            },
        }
    }

    /// How the session starts, given the store's answer for the profile to start with: with
    /// that profile where it can be used, else with a decision on its repair.
    pub fn init(found: Stored) -> (r: Startup)
        ensures
            r == (match loaded(found) {
                Ok(cfg) => Startup::Ready(cfg),
                Err(e) => Startup::Repair(e),
            }),
            r matches Startup::Ready(cfg) ==> cfg@.complete(),
    {
        match S3Config::load(found) {
            Ok(cfg) => Startup::Ready(cfg),
            Err(e) => Startup::Repair(e),
        }
    }

    /// What to do about a profile that could not be used, given the answer to the question
    /// whether to write it anew.
    pub fn recreate_or_fix(answer: &str) -> (r: Repair)
        ensures
            r == (if is_yes(answer@) {
                Repair::Recreate
            } else {
                Repair::Halt
            }),
    {
        if y_or_n(answer) {
            Repair::Recreate
        } else {
            Repair::Halt
        }
    }

    /// The name of the profile that `config_name` refers to, be it that name or the name of
    /// its file: a suffix `.toml` is left off.
    pub fn profile_name(config_name: &str) -> (r: String)
        ensures
            r@ == profile_name_of(config_name@),
    {
        match strip_suffix(config_name, ".toml") {
            Some(name) => name,
            None => config_name.to_owned(),
        }
    }

    /// The name of the file of the profile that `config_name` refers to: the suffix `.toml`
    /// is added unless it is there.
    pub fn file_name(config_name: &str) -> (r: String)
        ensures
            r@ == file_name_of(config_name@),
    {
        if has_suffix(config_name, ".toml") {
            config_name.to_owned()
        } else {
            joined(config_name, ".toml")
        }
    }

    /// The path of the file to remove for the profile that `config_name` refers to, the
    /// profiles being kept in `config_folder`.
    pub fn delete(config_folder: &str, config_name: &str) -> (r: String)
        ensures
            r@ == config_folder@ + "/"@ + file_name_of(config_name@),
    {
        let head = joined(config_folder, "/");
        let name = S3Config::file_name(config_name);
        joined(head.as_str(), name.as_str())
    }

    /// The folder of the profile file at `path`.
    pub fn get_config_folder(path: &str) -> (r: String)
        ensures
            r@ == folder_of(path@),
    {
        let v = chars_of(path);
        let mut k: usize = v.len();
        while k > 0 && v[k - 1] != '/'
            invariant
                k <= v@.len(),
                forall|j: int| k <= j < v@.len() ==> #[trigger] v@[j] != '/',
            decreases k,
        {
            k -= 1;
        }
        if k == 0 {
            proof {
                lemma_no_folder(path@);
            }
            String::new()
        } else {
            proof {
                lemma_folder_of(path@, k - 1);
                assert(path@.subrange(0, k - 1) =~= path@.take(k - 1));
            }
            path.substring_char(0, k - 1).to_owned()
        }
    }

    /// The line that shows one profile file in a listing, given the text of the moment of
    /// its last change, if it has one.
    pub fn list_line(file_name: &str, stamp: Option<String>) -> (r: String)
        ensures
            r@ == list_line_of(file_name@, text_of(stamp)),
    {
        match stamp {
            Some(text) => {
                let head = joined(file_name, " ");
                joined(head.as_str(), text.as_str())
            },
            None => file_name.to_owned(),
        }
    }

    /// The line that shows one profile file in a listing: its name and the moment of its
    /// last change, `modified` seconds after the start of 1970 (UTC), as `dd/mm/yyyy hh:mm:ss`.
    pub fn list(file_name: &str, modified: i64) -> (r: String)
        ensures
            r@ == list_line_of(file_name@, utc_text(modified)),
    {
        S3Config::list_line(file_name, format_utc(modified))
    }

    /// The lines that show the profile, but for its name.
    pub fn print(&self) -> (r: Vec<String>)
        ensures
            crate::text::texts_of(r@) == lines_of(self@),
    {
        let mut out: Vec<String> = Vec::new();
        out.push(joined("s3 server url: ", self.base_url.as_str()));
        out.push(joined("s3 access key: ", self.access_key.as_str()));
        out.push(joined("s3 secret key: ", self.secret_key.as_str()));
        out.push(joined("data encryption public key: ", self.pk_bs58.as_str()));
        out.push(joined("data encryption secret key: ", self.sk_bs58.as_str()));
        assert(crate::text::texts_of(out@) =~= lines_of(self@));
        out
    }
}

} // verus!
