//! The blob fetcher's rules: how the object store is addressed, how a file
//! reference becomes an object key, and what a failed download reports.

use crate::config::Config;
use crate::text::{join, strip_prefix};
use vstd::prelude::*;

verus! {

/// How the object store is reached.  The program around the library opens
/// its client from these settings.
#[derive(Debug, Clone, PartialEq, Eq)]
pub struct Storage {
    pub endpoint: String,
    pub region: String,
    pub bucket_name: String,
    pub access_key: String,
    pub secret_key: String,
    pub path_style: bool,
}

/// Storage settings by their characters.
pub struct StorageView {
    pub endpoint: Seq<char>,
    pub region: Seq<char>,
    pub bucket_name: Seq<char>,
    pub access_key: Seq<char>,
    pub secret_key: Seq<char>,
    pub path_style: bool,
}

impl View for Storage {
    type V = StorageView;

    open spec fn view(&self) -> StorageView {
        StorageView {
            endpoint: self.endpoint@,
            region: self.region@,
            bucket_name: self.bucket_name@,
            access_key: self.access_key@,
            secret_key: self.secret_key@,
            path_style: self.path_style,
        }
    }
}

/// The address of the object store: its host and port behind the scheme
/// that the TLS setting selects.
pub open spec fn endpoint_url(use_ssl: bool, endpoint: Seq<char>) -> Seq<char> {
    if use_ssl {
        "https://"@ + endpoint
    } else {
        "http://"@ + endpoint
    }
}

/// The object key that a file reference names: the reference without a
/// leading `bucket_name` and slash, or the whole reference when it does not
/// start that way.
pub open spec fn object_key(file_url: Seq<char>, bucket_name: Seq<char>) -> Seq<char> {
    let prefix = bucket_name + seq!['/'];
    if prefix.is_prefix_of(file_url) {
        file_url.subrange(prefix.len() as int, file_url.len() as int)
    } else {
        file_url
    }
}

/// A reference made of the bucket's name, a slash and a key resolves to
/// that key.
pub proof fn lemma_object_key_strips_bucket(bucket_name: Seq<char>, key: Seq<char>)
    ensures
        object_key(bucket_name + seq!['/'] + key, bucket_name) == key,
{
    let prefix = bucket_name + seq!['/'];
    let file_url = prefix + key;
    assert(file_url.subrange(0, prefix.len() as int) =~= prefix);
    assert(file_url.subrange(prefix.len() as int, file_url.len() as int) =~= key);
}

/// A reference that does not start with the bucket's name and a slash is
/// its own key, and resolving a key once more changes nothing as long as
/// the key itself does not start that way.
pub proof fn lemma_object_key_idempotent(file_url: Seq<char>, bucket_name: Seq<char>)
    ensures
        !(bucket_name + seq!['/']).is_prefix_of(file_url) ==> object_key(file_url, bucket_name)
            == file_url,
        !(bucket_name + seq!['/']).is_prefix_of(object_key(file_url, bucket_name)) ==> object_key(
            object_key(file_url, bucket_name),
            bucket_name,
        ) == object_key(file_url, bucket_name),
{
}

/// Why a download did not produce a local file.
#[derive(Debug, Clone, PartialEq, Eq)]
pub enum StorageError {
    /// The object store holds no object under the key.
    NotFound,
    /// The object store could not be reached, or refused the fetch for
    /// another reason than that the object is missing.
    Fetch,
    /// The local file could not be created.
    CreateFile,
    /// The object's bytes could not be written to the local file.
    WriteFile,
    /// The local file could not be flushed; the system's report is kept.
    Flush(String),
}

/// A download failure by its characters.
pub enum StorageErrorView {
    NotFound,
    Fetch,
    CreateFile,
    WriteFile,
    Flush(Seq<char>),
}

impl View for StorageError {
    type V = StorageErrorView;

    open spec fn view(&self) -> StorageErrorView {
        match self {
            StorageError::NotFound => StorageErrorView::NotFound,
            StorageError::Fetch => StorageErrorView::Fetch,
            StorageError::CreateFile => StorageErrorView::CreateFile,
            StorageError::WriteFile => StorageErrorView::WriteFile,
            StorageError::Flush(report) => StorageErrorView::Flush(report@),
        }
    }
}

/// The message that a download failure shows to callers.  A failed fetch
/// shows the same message whether or not the object is missing.
pub open spec fn storage_message(e: StorageErrorView) -> Seq<char> {
    match e {
        StorageErrorView::NotFound => "Failed to get object from MinIO"@,
        StorageErrorView::Fetch => "Failed to get object from MinIO"@,
        StorageErrorView::CreateFile => "Failed to create local file"@,
        StorageErrorView::WriteFile => "Failed to write file"@,
        StorageErrorView::Flush(report) => report,
    }
}

impl StorageError {
    /// The message that this failure shows to callers.
    pub fn message(&self) -> (r: String)
        ensures
            r@ == storage_message(self@),
    {
        match self {
            StorageError::NotFound => String::from_str("Failed to get object from MinIO"),
            StorageError::Fetch => String::from_str("Failed to get object from MinIO"),
            StorageError::CreateFile => String::from_str("Failed to create local file"),
            StorageError::WriteFile => String::from_str("Failed to write file"),
            StorageError::Flush(report) => report.clone(),
        }
    }
}

/// The steps of a download, in the order in which they are taken.
#[derive(Debug, Clone, Copy, PartialEq, Eq)]
pub enum DownloadStep {
    /// The object is fetched from the store.  `status` is the status code
    /// with which the store answered, where the fetch failed on an answer.
    GetObject { status: Option<u16> },
    /// The local file is created.
    CreateFile,
    /// The object's bytes are written to the local file.
    WriteFile,
    /// The local file is flushed.
    Flush,
}

/// The status code with which the object store says that it holds no
/// object under a key.
pub const NO_SUCH_OBJECT: u16 = 404;

/// The failure of a download that stopped at `step` with the system's
/// report `report`.  A fetch fails as "not found" only where the store
/// answered that the object is missing; a store that did not answer, or
/// answered anything else, failed the fetch.  Only a failed flush shows the
/// report itself.
pub open spec fn download_error(step: DownloadStep, report: Seq<char>) -> StorageErrorView {
    match step {
        DownloadStep::GetObject { status } => if status == Some(NO_SUCH_OBJECT) {
            StorageErrorView::NotFound
        } else {
            StorageErrorView::Fetch
        },
        DownloadStep::CreateFile => StorageErrorView::CreateFile,
        DownloadStep::WriteFile => StorageErrorView::WriteFile,
        DownloadStep::Flush => StorageErrorView::Flush(report),
    }
}

impl Storage {
    /// The settings of the object store that `config` describes: path-style
    /// addressing of one bucket in the region `us-east-1`.
    pub fn new(config: &Config) -> (r: Storage)
        ensures
            r@ == (StorageView {
                endpoint: endpoint_url(config.minio_use_ssl, config.minio_endpoint@),
                region: "us-east-1"@,
                bucket_name: config.minio_bucket@,
                access_key: config.minio_access_key@,
                secret_key: config.minio_secret_key@,
                path_style: true,
            }),
    {
        let scheme = if config.minio_use_ssl {
            "https://"
        } else {
            "http://"
        };
        Storage {
            endpoint: join(scheme, config.minio_endpoint.as_str()),
            region: String::from_str("us-east-1"),
            bucket_name: config.minio_bucket.clone(),
            access_key: config.minio_access_key.clone(),
            secret_key: config.minio_secret_key.clone(),
            path_style: true,
        }
    }

    /// The outcome of a download: success when every step was taken, else
    /// the failure of the first step that was not, given in `stopped` with
    /// the system's report.
    pub fn download_file(&self, stopped: Option<(DownloadStep, String)>) -> (r: Result<
        (),
        StorageError,
    >)
        ensures
            match stopped {
                None => r is Ok,
                Some((step, report)) => r is Err && r->Err_0@ == download_error(step, report@),
            },
    {
        match stopped {
            None => Ok(()),
            Some((step, report)) => Err(
                match step {
                    DownloadStep::GetObject { status } => match status {
                        Some(code) => if code == NO_SUCH_OBJECT {
                            StorageError::NotFound
                        } else {
                            StorageError::Fetch
                        },
                        None => StorageError::Fetch,
                    },
                    DownloadStep::CreateFile => StorageError::CreateFile,
                    DownloadStep::WriteFile => StorageError::WriteFile,
                    DownloadStep::Flush => StorageError::Flush(report),
                },
            ),
        }
    }

    /// Resolves a file reference to the key of its object in the bucket
    /// named `bucket_name`.
    pub fn normalize_object_key<'a>(&self, file_url: &'a str, bucket_name: &str) -> (r: &'a str)
        ensures
            r@ == object_key(file_url@, bucket_name@),
    {
        resolve_key(file_url, bucket_name)
    }
}

/// Resolves a file reference to the key of its object in the bucket named
/// `bucket_name`.
pub fn resolve_key<'a>(file_url: &'a str, bucket_name: &str) -> (r: &'a str)
    ensures
        r@ == object_key(file_url@, bucket_name@),
{
    proof {
        reveal_strlit("/");
    }
    let prefix = join(bucket_name, "/");
    assert(prefix@ =~= bucket_name@ + seq!['/']);
    match strip_prefix(file_url, prefix.as_str()) {
        Some(rest) => {
            assert(prefix@.is_prefix_of(file_url@));
            assert(file_url@.subrange(prefix@.len() as int, file_url@.len() as int) =~= rest@);
            rest
        },
        None => file_url,
    }
}

} // verus!
