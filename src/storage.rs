//! The storage facade: binds one driver (local filesystem or an
//! S3-compatible store) from a `StorageConfig`, and holds the decisions that
//! every operation shares: the `NotFound` / other error taxonomy, what
//! `exists` answers, and how a listing is accumulated.
use crate::config::StorageConfig;
use vstd::prelude::*;
use vstd::string::*;

verus! {

#[verifier::external_type_specification]
#[verifier::external_body]
pub struct ExOperator(opendal::Operator);

#[verifier::external_type_specification]
#[verifier::external_body]
pub struct ExDriverError(opendal::Error);

#[verifier::external_type_specification]
pub struct ExDriverErrorKind(opendal::ErrorKind);

/// Relies on `opendal::Error::kind`: the kind the driver gave the error.
pub assume_specification[ opendal::Error::kind ](e: &opendal::Error) -> opendal::ErrorKind;

/// Relies on `Clone` of `opendal::Operator`: another handle to the same driver.
pub assume_specification[ <opendal::Operator as Clone>::clone ](o: &opendal::Operator) -> opendal::Operator;

/// The kinds of backend this facade can bind.
#[derive(Debug, Clone, Copy, PartialEq, Eq)]
pub enum Backend {
    Filesystem,
    S3Compatible,
}

/// The backend that a configured name selects, if any.
pub open spec fn backend_of(name: Seq<char>) -> Option<Backend> {
    if name == "fs"@ {
        Some(Backend::Filesystem)
    } else if name == "s3"@ {
        Some(Backend::S3Compatible)
    } else {
        None
    }
}

/// Whether a storage error means that the object is absent.
#[derive(Debug, Clone, Copy, PartialEq, Eq)]
pub enum StorageErrorKind {
    NotFound,
    Other,
}

/// A failure of a storage operation, as reported by the bound driver.
#[derive(Debug, Clone)]
pub struct StorageError {
    pub kind: StorageErrorKind,
    pub message: String,
}

/// Why a facade could not be constructed.
#[derive(Debug, Clone)]
pub enum ConfigurationError {
    /// The configured backend name is neither `"fs"` nor `"s3"`.
    UnsupportedBackend(String),
    /// The driver refused its parameters.
    DriverRejected(StorageError),
}

/// Attributes of a stored object as the backend reports them.
#[derive(Debug, Clone)]
pub struct ObjectMetadata {
    pub size: u64,
    pub last_modified: Option<String>,
    pub content_type: Option<String>,
}

/// The backend selected by a configured name: `"fs"`, `"s3"`, or none.
pub fn parse_backend(name: &String) -> (r: Option<Backend>)
    ensures
        r == backend_of(name@),
{
    let fs = String::from_str("fs");
    let s3 = String::from_str("s3");
    if *name == fs {
        Some(Backend::Filesystem)
    } else if *name == s3 {
        Some(Backend::S3Compatible)
    } else {
        None
    }
}

/// Builds a storage error of the given kind.
pub fn storage_error(not_found: bool, message: String) -> (r: StorageError)
    ensures
        r.kind == (if not_found { StorageErrorKind::NotFound } else { StorageErrorKind::Other }),
        r.message == message,
{
    let kind = if not_found {
        StorageErrorKind::NotFound
    } else {
        StorageErrorKind::Other
    };
    StorageError { kind, message }
}

/// The storage error for a driver error of the given kind: the driver's
/// "not found" stays `NotFound`, every other kind becomes `Other`.
pub fn storage_error_of_kind(kind: opendal::ErrorKind, message: String) -> (r: StorageError)
    ensures
        r.kind == (if kind == opendal::ErrorKind::NotFound {
            StorageErrorKind::NotFound
        } else {
            StorageErrorKind::Other
        }),
        r.message == message,
{
    let not_found = match kind {
        opendal::ErrorKind::NotFound => true,
        _ => false,
    };
    storage_error(not_found, message)
}

/// Relies on `Display` of `opendal::Error`: the driver's description.
#[verifier::external_body]
fn driver_error_message(e: &opendal::Error) -> String {
    e.to_string()
}

/// The storage error that stands for a driver error: `storage_error_of_kind`
/// applied to the error's kind and description.
pub fn from_driver_error(e: &opendal::Error) -> StorageError {
    storage_error_of_kind(e.kind(), driver_error_message(e))
}

/// What the filesystem driver is configured with.
#[derive(Debug, Clone, PartialEq, Eq)]
pub struct FsParams {
    /// The directory the driver works in; `None` leaves it to the driver.
    pub root: Option<String>,
}

/// What the S3-compatible driver is configured with. Each absent field is
/// left to the driver's own resolution (environment, profile, defaults).
#[derive(Debug, Clone, PartialEq, Eq)]
pub struct S3Params {
    pub bucket: String,
    pub endpoint: Option<String>,
    pub region: Option<String>,
    pub access_key: Option<String>,
    pub secret_key: Option<String>,
}

/// The parameters a facade bound its driver with.
#[derive(Debug, Clone, PartialEq, Eq)]
pub enum DriverParams {
    Fs(FsParams),
    S3(S3Params),
}

pub open spec fn opt_view(v: Option<String>) -> Option<Seq<char>> {
    match v {
        Some(s) => Some(s@),
        None => None,
    }
}

/// A text setting that is passed on: absent and empty values are not.
pub open spec fn given(v: Option<Seq<char>>) -> Option<Seq<char>> {
    match v {
        Some(s) => if s.len() > 0 {
            Some(s)
        } else {
            None
        },
        None => None,
    }
}

/// `s` without the `'/'` characters at its end.
pub open spec fn trim_trailing_slashes(s: Seq<char>) -> Seq<char>
    decreases s.len(),
{
    if s.len() > 0 && s.last() == '/' {
        trim_trailing_slashes(s.drop_last())
    } else {
        s
    }
}

/// An endpoint is passed on when given, without its trailing slashes.
pub open spec fn given_endpoint(v: Option<Seq<char>>) -> Option<Seq<char>> {
    match given(v) {
        Some(s) => Some(trim_trailing_slashes(s)),
        None => None,
    }
}

/// The driver parameters that a configuration selects: the filesystem
/// driver is rooted at `root`; the S3-compatible driver targets bucket
/// `root` and gets each optional parameter exactly when it is given.
pub open spec fn params_match(p: DriverParams, config: StorageConfig) -> bool {
    match p {
        DriverParams::Fs(f) => backend_of(config.backend@) == Some(Backend::Filesystem)
            && opt_view(f.root) == given(Some(config.root@)),
        DriverParams::S3(b) => backend_of(config.backend@) == Some(Backend::S3Compatible)
            && b.bucket@ == config.root@
            && opt_view(b.endpoint) == given_endpoint(opt_view(config.s3_endpoint))
            && opt_view(b.region) == given(opt_view(config.s3_region))
            && opt_view(b.access_key) == given(opt_view(config.s3_access_key))
            && opt_view(b.secret_key) == given(opt_view(config.s3_secret_key)),
    }
}

/// The text, unless it is empty.
fn given_text(v: &str) -> (r: Option<String>)
    ensures
        opt_view(r) == given(Some(v@)),
{
    if v.unicode_len() == 0 {
        None
    } else {
        Some(String::from_str(v))
    }
}

/// The optional text, unless it is absent or empty.
fn given_option(v: &Option<String>) -> (r: Option<String>)
    ensures
        opt_view(r) == given(opt_view(*v)),
{
    match v {
        Some(s) => given_text(s.as_str()),
        None => None,
    }
}

/// `s` without the `'/'` characters at its end.
pub fn trim_slashes(s: &str) -> (r: String)
    ensures
        r@ == trim_trailing_slashes(s@),
{
    let n = s.unicode_len();
    let mut end: usize = n;
    assert(s@.subrange(0, n as int) =~= s@);
    while end > 0 && s.get_char(end - 1) == '/'
        invariant
            n == s@.len(),
            end <= n,
            trim_trailing_slashes(s@) == trim_trailing_slashes(s@.subrange(0, end as int)),
        decreases end,
    {
        assert(s@.subrange(0, end as int).drop_last() =~= s@.subrange(0, end - 1));
        end = end - 1;
    }
    String::from_str(s.substring_char(0, end))
}

/// The driver parameters for a supported backend.
pub fn driver_params(config: &StorageConfig, backend: Backend) -> (r: DriverParams)
    requires
        backend_of(config.backend@) == Some(backend),
    ensures
        params_match(r, *config),
{
    match backend {
        Backend::Filesystem => DriverParams::Fs(FsParams { root: given_text(config.root.as_str()) }),
        Backend::S3Compatible => {
            let endpoint = match given_option(&config.s3_endpoint) {
                Some(e) => Some(trim_slashes(e.as_str())),
                None => None,
            };
            DriverParams::S3(
                S3Params {
                    bucket: config.root.clone(),
                    endpoint,
                    region: given_option(&config.s3_region),
                    access_key: given_option(&config.s3_access_key),
                    secret_key: given_option(&config.s3_secret_key),
                },
            )
        },
    }
}

/// Relies on `opendal::Operator::from_config` and `OperatorBuilder::finish`:
/// binds a filesystem driver whose `FsConfig` holds `p`, or returns the
/// driver's refusal.
#[verifier::external_body]
fn fs_operator(p: &FsParams) -> Result<opendal::Operator, opendal::Error> {
    let mut cfg = opendal::services::FsConfig::default();
    cfg.root = p.root.clone();
    opendal::Operator::from_config(cfg).map(|b| b.finish())
}

/// Relies on `opendal::Operator::from_config` and `OperatorBuilder::finish`:
/// binds an S3-compatible driver whose `S3Config` holds `p`, or returns the
/// driver's refusal.
#[verifier::external_body]
fn s3_operator(p: &S3Params) -> Result<opendal::Operator, opendal::Error> {
    let mut cfg = opendal::services::S3Config::default();
    cfg.bucket = p.bucket.clone();
    cfg.endpoint = p.endpoint.clone();
    cfg.region = p.region.clone();
    cfg.access_key_id = p.access_key.clone();
    cfg.secret_access_key = p.secret_key.clone();
    opendal::Operator::from_config(cfg).map(|b| b.finish())
}

/// The facade: one bound driver, fixed for the facade's lifetime.
#[derive(Clone)]
pub struct Storage {
    operator: opendal::Operator,
    backend: Backend,
    root: String,
    params: DriverParams,
}

impl Storage {
    /// The backend that is bound.
    pub closed spec fn backend_spec(&self) -> Backend {
        self.backend
    }

    /// The directory or bucket that the driver is rooted at.
    pub closed spec fn root_spec(&self) -> Seq<char> {
        self.root@
    }

    /// The parameters the driver was bound with.
    pub closed spec fn params_spec(&self) -> DriverParams {
        self.params
    }

    /// Binds the driver that `config.backend` names. An unknown backend
    /// name fails before any driver is built; a known one is handed the
    /// parameters that `params_match` describes, and fails only where the
    /// driver refuses them.
    pub fn new(config: &StorageConfig) -> (r: Result<Storage, ConfigurationError>)
        ensures
            backend_of(config.backend@) is None ==> (r matches Err(
                ConfigurationError::UnsupportedBackend(b),
            ) && b@ == config.backend@),
            backend_of(config.backend@) matches Some(k) ==> match r {
                Ok(s) => s.backend_spec() == k && s.root_spec() == config.root@
                    && params_match(s.params_spec(), *config),
                Err(e) => e is DriverRejected,
            },
    {
        match parse_backend(&config.backend) {
            None => Err(ConfigurationError::UnsupportedBackend(config.backend.clone())),
            Some(backend) => {
                let params = driver_params(config, backend);
                let bound = match &params {
                    DriverParams::Fs(p) => fs_operator(p),
                    DriverParams::S3(p) => s3_operator(p),
                };
                match bound {
                    Ok(operator) => Ok(Storage { operator, backend, root: config.root.clone(), params }),
                    Err(e) => Err(ConfigurationError::DriverRejected(from_driver_error(&e))),
                }
            },
        }
    }

    /// The parameters the driver was bound with.
    pub fn params(&self) -> (r: &DriverParams)
        ensures
            *r == self.params_spec(),
    {
        &self.params
    }

    /// The backend that is bound.
    pub fn backend(&self) -> (r: Backend)
        ensures
            r == self.backend_spec(),
    {
        self.backend
    }

    /// The directory or bucket that the driver is rooted at.
    pub fn root(&self) -> (r: &str)
        ensures
            r@ == self.root_spec(),
    {
        self.root.as_str()
    }

    /// The bound driver, through which operations are issued.
    pub fn operator(&self) -> &opendal::Operator {
        &self.operator
    }
}

/// What `exists` answers once the driver has been asked for the object's
/// metadata: present objects give `true`, a "not found" error gives
/// `false`, and every other error is passed on unchanged.
pub fn exists_from_stat(stat: Result<ObjectMetadata, StorageError>) -> (r: Result<bool, StorageError>)
    ensures
        r == match stat {
            Ok(_) => Ok::<bool, StorageError>(true),
            Err(e) => if e.kind == StorageErrorKind::NotFound {
                Ok::<bool, StorageError>(false)
            } else {
                Err::<bool, StorageError>(e)
            },
        },
{
    match stat {
        Ok(_) => Ok(true),
        Err(e) => match e.kind {
            StorageErrorKind::NotFound => Ok(false),
            StorageErrorKind::Other => Err(e),
        },
    }
}

/// What `list` answers when the driver could not start an enumeration: an
/// absent prefix is an empty listing, any other error is passed on.
pub fn list_open_failed(e: StorageError) -> (r: Result<Vec<String>, StorageError>)
    ensures
        e.kind == StorageErrorKind::NotFound ==> (r matches Ok(v) && v@.len() == 0),
        e.kind == StorageErrorKind::Other ==> r == Err::<Vec<String>, StorageError>(e),
{
    match e.kind {
        StorageErrorKind::NotFound => Ok(Vec::new()),
        StorageErrorKind::Other => Err(e),
    }
}

/// One step of a listing: a successful entry is appended while no entry has
/// failed; the first failure is kept and ends the listing.
pub open spec fn listing_step(
    state: (Seq<String>, Option<StorageError>),
    item: Result<String, StorageError>,
) -> (Seq<String>, Option<StorageError>) {
    if state.1 is Some {
        state
    } else {
        match item {
            Ok(p) => (state.0.push(p), None),
            Err(e) => (state.0, Some(e)),
        }
    }
}

/// The state of a listing after the driver produced `items`, in order.
pub open spec fn listing_of(items: Seq<Result<String, StorageError>>) -> (Seq<String>, Option<StorageError>)
    decreases items.len(),
{
    if items.len() == 0 {
        (Seq::empty(), None)
    } else {
        listing_step(listing_of(items.drop_last()), items.last())
    }
}

/// The path of each entry of an enumeration in which no entry failed.
pub open spec fn paths_of(items: Seq<Result<String, StorageError>>) -> Seq<String> {
    items.map_values(|item: Result<String, StorageError>| item->Ok_0)
}

/// A listing in which no entry failed holds every entry's path, in the
/// order of discovery, and nothing else.
pub proof fn lemma_listing_keeps_every_entry(items: Seq<Result<String, StorageError>>)
    requires
        forall|i: int| 0 <= i < items.len() ==> (#[trigger] items[i]) is Ok,
    ensures
        listing_of(items).0 == paths_of(items),
        listing_of(items).1 is None,
    decreases items.len(),
{
    if items.len() > 0 {
        let init = items.drop_last();
        assert forall|i: int| 0 <= i < init.len() implies (#[trigger] init[i]) is Ok by {
            assert(init[i] == items[i]);
        }
        lemma_listing_keeps_every_entry(init);
        assert(items.last() is Ok);
        assert(paths_of(items) =~= paths_of(init).push(items.last()->Ok_0));
    } else {
        assert(paths_of(items) =~= Seq::<String>::empty());
    }
}

/// A listing ends with the first failed entry: it holds the paths of the
/// entries before it, and that failure.
pub proof fn lemma_listing_stops_at_first_failure(items: Seq<Result<String, StorageError>>, k: int)
    requires
        0 <= k < items.len(),
        items[k] is Err,
        forall|i: int| 0 <= i < k ==> (#[trigger] items[i]) is Ok,
    ensures
        listing_of(items).0 == paths_of(items.take(k)),
        listing_of(items).1 == Some(items[k]->Err_0),
    decreases items.len(),
{
    if items.len() == k + 1 {
        let init = items.drop_last();
        assert(init =~= items.take(k));
        assert forall|i: int| 0 <= i < init.len() implies (#[trigger] init[i]) is Ok by {
            assert(init[i] == items[i]);
        }
        lemma_listing_keeps_every_entry(init);
    } else {
        let init = items.drop_last();
        assert(init.take(k) =~= items.take(k));
        assert(init[k] == items[k]);
        assert forall|i: int| 0 <= i < k implies (#[trigger] init[i]) is Ok by {
            assert(init[i] == items[i]);
        }
        lemma_listing_stops_at_first_failure(init, k);
    }
}

/// The paths of a listing, accumulated one entry at a time in the order in
/// which the driver discovers them, up to the first failed entry.
pub struct Listing {
    pub entries: Vec<String>,
    pub failure: Option<StorageError>,
}

impl Listing {
    /// An empty listing with no failure.
    pub fn new() -> (r: Listing)
        ensures
            r.entries@.len() == 0,
            r.failure is None,
    {
        Listing { entries: Vec::new(), failure: None }
    }

    /// Takes the next entry that the driver produced; answers whether the
    /// enumeration should go on. A failed entry stops the listing, and once
    /// stopped it takes nothing more.
    pub fn accept(&mut self, item: Result<String, StorageError>) -> (go_on: bool)
        ensures
            (final(self).entries@, final(self).failure) == listing_step(
                (old(self).entries@, old(self).failure),
                item,
            ),
            go_on == (old(self).failure is None && item is Ok),
    {
        if self.failure.is_some() {
            return false;
        }
        match item {
            Ok(p) => {
                self.entries.push(p);
                true
            },
            Err(e) => {
                self.failure = Some(e);
                false
            },
        }
    }

    /// The listing's result: every accepted path in order, or the failure
    /// that stopped it.
    pub fn finish(self) -> (r: Result<Vec<String>, StorageError>)
        ensures
            self.failure matches Some(e) ==> r == Err::<Vec<String>, StorageError>(e),
            self.failure is None ==> (r matches Ok(v) && v@ == self.entries@),
    {
        match self.failure {
            Some(e) => Err(e),
            None => Ok(self.entries),
        }
    }
}

} // verus!
