//! Sessions: the profile in use and the selected bucket, and what each operation on the store
//! does next, given what the store has answered so far.

use crate::config::{default_config, loaded, LoadError, S3Config, S3ConfigView, Stored};
use crate::crypto::{
    decoded_keys, decrypt_bytes, decrypted_by, encrypt_bytes, encrypted_name, encrypted_name_of,
    fits, is_encrypted_name, is_sealed_by, lemma_encrypted_name_round_trip,
    lemma_profile_round_trip, plain_name_of, CryptoError, EncryptError, FileWrite,
};
use crate::text::{same_text, trim, trimmed};
use vstd::prelude::*;

verus! {

/// One running session: the profile in use and the bucket that commands refer to when they name
/// none. An empty `bucket` stands for the root, where no bucket is selected.
#[derive(Debug, PartialEq, Eq)]
pub struct S3Client {
    /// The profile in use.
    pub config: S3Config,
    /// The selected bucket; empty at the root.
    pub bucket: String,
}

/// What an `S3Client` holds.
pub struct S3ClientView {
    pub config: S3ConfigView,
    pub bucket: Seq<char>,
}

impl View for S3Client {
    type V = S3ClientView;

    open spec fn view(&self) -> S3ClientView {
        S3ClientView { config: self.config@, bucket: self.bucket@ }
    }
}

/// The bucket that is selected after a move to `target`: none after `..` and `/`, else `target`.
pub open spec fn navigated(target: Seq<char>) -> Seq<char> {
    if target == ".."@ || target == "/"@ {
        Seq::empty()
    } else {
        target
    }
}

/// The bucket that a command means: the one it names or, where it names none, the selected one.
pub open spec fn resolved(named: Seq<char>, selected: Seq<char>) -> Option<Seq<char>> {
    if named.len() > 0 {
        Some(named)
    } else if selected.len() > 0 {
        Some(selected)
    } else {
        None
    }
}

impl S3ClientView {
    /// No bucket is selected.
    pub open spec fn rooted(self) -> bool {
        self.bucket.len() == 0
    }

    /// The selected bucket, if there is one.
    pub open spec fn current_bucket(self) -> Option<Seq<char>> {
        if self.bucket.len() == 0 {
            None
        } else {
            Some(self.bucket)
        }
    }

    /// The session after a move to `target`.
    pub open spec fn navigate(self, target: Seq<char>) -> S3ClientView {
        S3ClientView { config: self.config, bucket: navigated(target) }
    }
}

/// No bucket could be made out: the command names none and none is selected.
#[derive(Clone, Copy, Debug, PartialEq, Eq, Structural)]
pub struct AmbiguousTarget;

/// What a listing shows.
#[derive(Debug, PartialEq, Eq)]
pub enum Listing {
    /// The buckets of the store.
    Buckets,
    /// The objects of one bucket.
    Objects(String),
}

/// What a `Listing` holds.
pub enum ListingView {
    Buckets,
    Objects(Seq<char>),
}

impl View for Listing {
    type V = ListingView;

    open spec fn view(&self) -> ListingView {
        match self {
            Listing::Buckets => ListingView::Buckets,
            Listing::Objects(bucket) => ListingView::Objects(bucket@),
        }
    }
}

/// What the store said when asked whether a bucket exists.
#[derive(Clone, Copy, Debug, PartialEq, Eq, Structural)]
pub enum Probe {
    /// The bucket exists.
    Present,
    /// There is no such bucket.
    Absent,
    /// The store gave no answer.
    Unknown,
}

/// Something to ask of the store.
#[derive(Debug, PartialEq, Eq)]
pub enum Request {
    /// Make the bucket.
    MakeBucket { bucket: String },
    /// Remove the bucket.
    RemoveBucket { bucket: String },
    /// Remove the object from the bucket.
    RemoveObject { bucket: String, object: String },
    /// Copy the object into the local file at `path`, as it is.
    Download { bucket: String, object: String, path: String },
    /// Copy the local file at `path` into the object, as it is.
    Upload { bucket: String, object: String, path: String },
    /// Store `bytes` as the object.
    PutObject { bucket: String, object: String, bytes: Vec<u8> },
    /// Hand out the bytes of the object.
    GetObject { bucket: String, object: String },
}

/// What a `Request` holds.
pub enum RequestView {
    MakeBucket { bucket: Seq<char> },
    RemoveBucket { bucket: Seq<char> },
    RemoveObject { bucket: Seq<char>, object: Seq<char> },
    Download { bucket: Seq<char>, object: Seq<char>, path: Seq<char> },
    Upload { bucket: Seq<char>, object: Seq<char>, path: Seq<char> },
    PutObject { bucket: Seq<char>, object: Seq<char>, bytes: Seq<u8> },
    GetObject { bucket: Seq<char>, object: Seq<char> },
}

impl View for Request {
    type V = RequestView;

    open spec fn view(&self) -> RequestView {
        match self {
            Request::MakeBucket { bucket } => RequestView::MakeBucket { bucket: bucket@ },
            Request::RemoveBucket { bucket } => RequestView::RemoveBucket { bucket: bucket@ },
            Request::RemoveObject { bucket, object } => RequestView::RemoveObject {
                bucket: bucket@,
                object: object@,
            },
            Request::Download { bucket, object, path } => RequestView::Download {
                bucket: bucket@,
                object: object@,
                path: path@,
            },
            Request::Upload { bucket, object, path } => RequestView::Upload {
                bucket: bucket@,
                object: object@,
                path: path@,
            },
            Request::PutObject { bucket, object, bytes } => RequestView::PutObject {
                bucket: bucket@,
                object: object@,
                bytes: bytes@,
            },
            Request::GetObject { bucket, object } => RequestView::GetObject {
                bucket: bucket@,
                object: object@,
            },
        }
    }
}

/// How an operation ended.
#[derive(Clone, Copy, Debug, PartialEq, Eq, Structural)]
pub enum Report {
    /// The store did what was asked of it.
    Done,
    /// The store failed at what was asked of it.
    RemoteFailed,
    /// The store could not say whether the bucket exists; nothing was asked of it.
    CheckFailed,
    /// The bucket to make exists already; nothing was asked of the store.
    AlreadyExists,
    /// The bucket to work in does not exist; nothing was asked of the store.
    BucketMissing,
    /// No bucket is named and none is selected; nothing was sealed or asked of the store.
    AmbiguousTarget,
    /// Sealing or opening failed; nothing was stored or written.
    Crypto(CryptoError),
}

/// What an operation does next.
#[derive(Debug, PartialEq, Eq)]
pub enum Step {
    /// It asks this of the store.
    Ask(Request),
    /// It ends, with this to report.
    Stop(Report),
}

/// What a `Step` holds.
pub enum StepView {
    Ask(RequestView),
    Stop(Report),
}

impl View for Step {
    type V = StepView;

    open spec fn view(&self) -> StepView {
        match self {
            Step::Ask(request) => StepView::Ask(request@),
            Step::Stop(report) => StepView::Stop(*report),
        }
    }
}

/// What an operation that needs its bucket does next: it asks `request` of the store where the
/// bucket exists, and ends otherwise.
pub open spec fn in_bucket(probe: Probe, request: RequestView) -> StepView {
    match probe {
        Probe::Present => StepView::Ask(request),
        Probe::Absent => StepView::Stop(Report::BucketMissing),
        Probe::Unknown => StepView::Stop(Report::CheckFailed),
    }
}

/// The file that comes of what the store handed out for the object `object`: `None` stands for
/// a store that handed out nothing. An object whose name lacks the suffix `.x` is not opened.
pub open spec fn fetched_file(
    cfg: S3ConfigView,
    object: Seq<char>,
    fetched: Option<Seq<u8>>,
    destination: Seq<char>,
) -> Result<(Seq<char>, Seq<u8>), Report> {
    if plain_name_of(object) is None {
        Err(Report::Crypto(CryptoError::NotEncrypted))
    } else {
        match fetched {
            None => Err(Report::RemoteFailed),
            Some(envelope) => match decrypted_by(cfg, envelope) {
                Ok(msg) => Ok((destination, msg)),
                Err(e) => Err(Report::Crypto(e)),
            },
        }
    }
}

/// The path and the bytes held by the result of fetching an encrypted object.
pub open spec fn fetched_view(r: Result<FileWrite, Report>) -> Result<(Seq<char>, Seq<u8>), Report> {
    match r {
        Ok(w) => Ok((w.path@, w.bytes@)),
        Err(e) => Err(e),
    }
}

/// The text held by the result of making out a bucket.
pub open spec fn target_view(r: Result<String, AmbiguousTarget>) -> Option<Seq<char>> {
    match r {
        Ok(bucket) => Some(bucket@),
        Err(_) => None,
    }
}

impl Clone for S3Client {
    fn clone(&self) -> (r: Self)
        ensures
            r == *self,
    {
        S3Client { config: self.config.clone(), bucket: self.bucket.clone() }
    }
}

impl Default for S3Client {
    fn default() -> (r: Self)
        ensures
            r@ == (S3ClientView { config: default_config(), bucket: Seq::empty() }),
    {
        S3Client { config: S3Config::default(), bucket: String::new() }
    }
}

impl S3Client {
    /// A session on `config`, with no bucket selected.
    pub fn new(config: S3Config) -> (r: Self)
        ensures
            r.config == config,
            r@.rooted(),
    {
        S3Client { config, bucket: String::new() }
    }

    /// Moves to `bucket`: `..` and `/` lead to the root, every other text selects the bucket of
    /// that name, whether the store has it or not. The empty text selects none.
    pub fn set_bucket(&mut self, bucket: String)
        ensures
            final(self).config == old(self).config,
            final(self)@ == old(self)@.navigate(bucket@),
    {
        if same_text(bucket.as_str(), "..") || same_text(bucket.as_str(), "/") {
            self.bucket = String::new();
        } else {
            self.bucket = bucket;
        }
    }

    /// The selected bucket; empty where none is.
    pub fn get_bucket(&self) -> (r: String)
        ensures
            r@ == self@.bucket,
    {
        self.bucket.clone()
    }

    /// Takes up another profile, given what the store holds under its name. With a profile
    /// that can be used the session goes on at the root; with anything else it stays as it
    /// is.
    pub fn switch_profile(&mut self, found: Stored) -> (r: Result<(), LoadError>)
        ensures
            loaded(found) matches Err(e) ==> r == Err::<(), LoadError>(e),
            loaded(found) is Err ==> *final(self) == *old(self),
            loaded(found) matches Ok(cfg) ==> r is Ok && final(self).config == cfg,
            r is Ok ==> final(self)@.rooted(),
            r is Ok ==> final(self)@.config.complete(),
    {
        match S3Config::load(found) {
            Ok(cfg) => {
                self.config = cfg;
                self.bucket = String::new();
                Ok(())
            },
            Err(e) => Err(e),
        }
    }

    /// The bucket that a command means which names `bucket`, the empty text standing for no
    /// name: the named one, else the selected one, else none.
    pub fn resolve_bucket(&self, bucket: &str) -> (r: Result<String, AmbiguousTarget>)
        ensures
            target_view(r) == resolved(bucket@, self@.bucket),
    {
        if bucket.unicode_len() > 0 {
            Ok(bucket.to_owned())
        } else if self.bucket.as_str().unicode_len() > 0 {
            Ok(self.bucket.clone())
        } else {
            Err(AmbiguousTarget)
        }
    }

    /// What to list for `bucket_name`: the buckets where it is blank or `/` once trimmed, else
    /// the objects of the bucket of that name.
    pub fn ls(bucket_name: &str) -> (r: Listing)
        ensures
            r@ == (if trimmed(bucket_name@).len() == 0 || trimmed(bucket_name@) == "/"@ {
                ListingView::Buckets
            } else {
                ListingView::Objects(bucket_name@)
            }),
    {
        let name = trim(bucket_name);
        if name.as_str().unicode_len() == 0 || same_text(name.as_str(), "/") {
            Listing::Buckets
        } else {
            Listing::Objects(bucket_name.to_owned())
        }
    }

    /// What making a bucket does once the store has said whether it exists: it is made only
    /// where it does not exist yet.
    pub fn mkdir(bucket_name: &str, probe: Probe) -> (r: Step)
        ensures
            r@ == (match probe {
                Probe::Absent => StepView::Ask(RequestView::MakeBucket { bucket: bucket_name@ }),
                Probe::Present => StepView::Stop(Report::AlreadyExists),
                Probe::Unknown => StepView::Stop(Report::CheckFailed),
            }),
    {
        match probe {
            Probe::Absent => Step::Ask(Request::MakeBucket { bucket: bucket_name.to_owned() }),
            Probe::Present => Step::Stop(Report::AlreadyExists),
            Probe::Unknown => Step::Stop(Report::CheckFailed),
        }
    }

    /// What an operation that needs its bucket does once the store has said whether the bucket
    /// exists.
    fn within(probe: Probe, request: Request) -> (r: Step)
        ensures
            r@ == in_bucket(probe, request@),
    {
        match probe {
            Probe::Present => Step::Ask(request),
            Probe::Absent => Step::Stop(Report::BucketMissing),
            Probe::Unknown => Step::Stop(Report::CheckFailed),
        }
    }

    /// What removing a bucket does once the store has said whether it exists.
    pub fn rm(bucket_name: &str, probe: Probe) -> (r: Step)
        ensures
            r@ == in_bucket(probe, RequestView::RemoveBucket { bucket: bucket_name@ }),
    {
        S3Client::within(probe, Request::RemoveBucket { bucket: bucket_name.to_owned() })
    }

    /// What removing an object does once the store has said whether its bucket exists.
    pub fn rm_obj(bucket_name: &str, object_name: &str, probe: Probe) -> (r: Step)
        ensures
            r@ == in_bucket(
                probe,
                RequestView::RemoveObject { bucket: bucket_name@, object: object_name@ },
            ),
    {
        S3Client::within(
            probe,
            Request::RemoveObject {
                bucket: bucket_name.to_owned(),
                object: object_name.to_owned(),
            },
        )
    }

    /// What fetching an object as it is does once the store has said whether its bucket exists.
    pub fn get(bucket_name: &str, remote_file_name: &str, local_file_path: &str, probe: Probe) -> (r:
        Step)
        ensures
            r@ == in_bucket(
                probe,
                RequestView::Download {
                    bucket: bucket_name@,
                    object: remote_file_name@,
                    path: local_file_path@,
                },
            ),
    {
        S3Client::within(
            probe,
            Request::Download {
                bucket: bucket_name.to_owned(),
                object: remote_file_name.to_owned(),
                path: local_file_path.to_owned(),
            },
        )
    }

    /// What storing a file as it is does once the store has said whether the bucket exists.
    pub fn put(bucket_name: &str, remote_file_name: &str, local_file_path: &str, probe: Probe) -> (r:
        Step)
        ensures
            r@ == in_bucket(
                probe,
                RequestView::Upload {
                    bucket: bucket_name@,
                    object: remote_file_name@,
                    path: local_file_path@,
                },
            ),
    {
        S3Client::within(
            probe,
            Request::Upload {
                bucket: bucket_name.to_owned(),
                object: remote_file_name.to_owned(),
                path: local_file_path.to_owned(),
            },
        )
    }

    /// What storing `file_bytes` encrypted does. The bucket is the one that `bucket_name`
    /// names or, where it is empty, the selected one; with neither the operation ends as
    /// ambiguous before anything is sealed. `probe` is what the store said when asked whether
    /// that bucket exists. Nothing is sealed for a bucket that is not there. What is stored is
    /// an envelope of the bytes under the profile's public key, and its name is
    /// `remote_file_name` with the suffix `.x`. With a profile whose key texts are those of a
    /// key pair, a bucket that is there and bytes below the cipher's limit, the store is
    /// asked.
    pub fn put_bytes_encrypted(
        &self,
        bucket_name: &str,
        remote_file_name: &str,
        file_bytes: &[u8],
        probe: Probe,
    ) -> (r: Step)
        ensures
            resolved(bucket_name@, self@.bucket) is None ==> r@ == StepView::Stop(
                Report::AmbiguousTarget,
            ),
            resolved(bucket_name@, self@.bucket) is Some && probe == Probe::Absent ==> r@
                == StepView::Stop(Report::BucketMissing),
            resolved(bucket_name@, self@.bucket) is Some && probe == Probe::Unknown ==> r@
                == StepView::Stop(Report::CheckFailed),
            resolved(bucket_name@, self@.bucket) is Some && probe == Probe::Present ==> (
            decoded_keys(self@.config.sk_bs58, self@.config.pk_bs58) matches Err(e) ==> r@
                == StepView::Stop(Report::Crypto(CryptoError::Key(e)))),
            resolved(bucket_name@, self@.bucket) is Some && probe == Probe::Present
                && decoded_keys(self@.config.sk_bs58, self@.config.pk_bs58) is Ok ==> r@ is Ask
                || r@ == StepView::Stop(
                Report::Crypto(CryptoError::Encrypt(EncryptError::Refused)),
            ),
            resolved(bucket_name@, self@.bucket) is Some && probe == Probe::Present
                && self@.config.has_keypair() && fits(file_bytes@.len()) ==> r@ is Ask,
            r@ matches StepView::Ask(request) ==> request matches RequestView::PutObject {
                bucket,
                object,
                bytes,
            } && Some(bucket) == resolved(bucket_name@, self@.bucket) && object
                == encrypted_name_of(remote_file_name@) && plain_name_of(object) == Some(
                remote_file_name@,
            ) && is_sealed_by(self@.config, file_bytes@, bytes),
    {
        proof {
            lemma_encrypted_name_round_trip(remote_file_name@);
        }
        let bucket = match self.resolve_bucket(bucket_name) {
            Ok(bucket) => bucket,
            Err(_) => {
                return Step::Stop(Report::AmbiguousTarget);
            },
        };
        match probe {
            Probe::Absent => Step::Stop(Report::BucketMissing),
            Probe::Unknown => Step::Stop(Report::CheckFailed),
            Probe::Present => match encrypt_bytes(&self.config, file_bytes) {
                Ok(bytes) => Step::Ask(
                    Request::PutObject { bucket, object: encrypted_name(remote_file_name), bytes },
                ),
                Err(e) => Step::Stop(Report::Crypto(e)),
            },
        }
    }

    /// What fetching an encrypted object does. The bucket is the one that `bucket_name` names
    /// or, where it is empty, the selected one; with neither the operation ends as ambiguous.
    /// `probe` is what the store said when asked whether that bucket exists. The object that
    /// is asked for is `remote_file_name` with the suffix `.x`.
    pub fn get_bytes_encrypted(&self, bucket_name: &str, remote_file_name: &str, probe: Probe) -> (r:
        Step)
        ensures
            r@ == (match resolved(bucket_name@, self@.bucket) {
                None => StepView::Stop(Report::AmbiguousTarget),
                Some(bucket) => in_bucket(
                    probe,
                    RequestView::GetObject {
                        bucket,
                        object: encrypted_name_of(remote_file_name@),
                    },
                ),
            }),
            r@ matches StepView::Ask(RequestView::GetObject { object, .. }) ==> plain_name_of(
                object,
            ) == Some(remote_file_name@),
    {
        proof {
            lemma_encrypted_name_round_trip(remote_file_name@);
        }
        match self.resolve_bucket(bucket_name) {
            Ok(bucket) => S3Client::within(
                probe,
                Request::GetObject { bucket, object: encrypted_name(remote_file_name) },
            ),
            Err(_) => Step::Stop(Report::AmbiguousTarget),
        }
    }

    /// The file to write for what the store handed out for the object `remote_file_name`:
    /// `None` stands for a store that handed out nothing. Nothing is opened that comes from
    /// an object whose name lacks the suffix `.x`. There is a file to write only where the
    /// bytes opened under the profile's secret key; it holds what they opened to and goes to
    /// `local_file_path`.
    pub fn get_file_encrypted(
        &self,
        remote_file_name: &str,
        fetched: Option<Vec<u8>>,
        local_file_path: &str,
    ) -> (r: Result<FileWrite, Report>)
        ensures
            fetched_view(r) == fetched_file(
                self@.config,
                remote_file_name@,
                crate::crypto::held(fetched),
                local_file_path@,
            ),
    {
        if !is_encrypted_name(remote_file_name) {
            return Err(Report::Crypto(CryptoError::NotEncrypted));
        }
        match fetched {
            None => Err(Report::RemoteFailed),
            Some(envelope) => match decrypt_bytes(&self.config, envelope.as_slice()) {
                Ok(bytes) => Ok(FileWrite { path: local_file_path.to_owned(), bytes }),
                Err(e) => Err(Report::Crypto(e)),
            },
        }
    }

    /// How an operation ends once the store has answered what was asked of it: success is
    /// reported only where the store acknowledged.
    pub fn finished(acknowledged: bool) -> (r: Report)
        ensures
            r == (if acknowledged {
                Report::Done
            } else {
                Report::RemoteFailed
            }),
    {
        if acknowledged {
            Report::Done
        } else {
            Report::RemoteFailed
        }
    }
}

/// What a profile with a key pair stored encrypted under a name comes back as it went in: the
/// object is marked as encrypted, and what the store hands out for it opens to the bytes that
/// were sealed.
pub proof fn lemma_put_then_get(
    cfg: S3ConfigView,
    name: Seq<char>,
    msg: Seq<u8>,
    sealed: Seq<u8>,
    destination: Seq<char>,
)
    requires
        cfg.has_keypair(),
        is_sealed_by(cfg, msg, sealed),
    ensures
        fetched_file(cfg, encrypted_name_of(name), Some(sealed), destination) == Ok::<
            (Seq<char>, Seq<u8>),
            Report,
        >((destination, msg)),
{
    lemma_encrypted_name_round_trip(name);
    lemma_profile_round_trip(cfg, msg, sealed);
}

/// A move to a bucket and back ends at the root, and at the root a move to nowhere changes
/// nothing.
pub proof fn lemma_navigation(session: S3ClientView, target: Seq<char>)
    ensures
        session.navigate(target).navigate(".."@).rooted(),
        session.navigate(target).navigate("/"@).rooted(),
        session.navigate(target).config == session.config,
        session.rooted() ==> session.navigate(Seq::empty()) == session,
        session.rooted() ==> session.navigate(".."@) == session,
        session.rooted() ==> session.navigate("/"@) == session,
        target.len() > 0 && target != ".."@ && target != "/"@ ==> session.navigate(
            target,
        ).current_bucket() == Some(target),
{
    assert(session.rooted() ==> session.bucket =~= Seq::empty());
}

} // verus!
