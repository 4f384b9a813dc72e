//! The bundle of eight platform secrets and its secure store.
use vstd::prelude::*;

verus! {

#[verifier::external_type_specification]
#[verifier::external_body]
pub struct ExKeyringEntry(keyring::Entry);

#[verifier::external_type_specification]
#[verifier::external_body]
pub struct ExKeyringError(keyring::Error);

/// The service namespace under which every secret is stored.
pub const SERVICE_NAME: &'static str = "com.social-hub.credentials";

/// Account names of the eight secrets, in the order of the bundle's fields.
pub open spec fn credential_key(i: int) -> Seq<char> {
    if i == 0 {
        "bluesky_identifier"@
    } else if i == 1 {
        "bluesky_app_password"@
    } else if i == 2 {
        "x_consumer_key"@
    } else if i == 3 {
        "x_consumer_secret"@
    } else if i == 4 {
        "x_access_token"@
    } else if i == 5 {
        "x_access_token_secret"@
    } else if i == 6 {
        "threads_user_id"@
    } else {
        "threads_access_token"@
    }
}

/// Number of secrets in a bundle.
pub const CREDENTIAL_COUNT: usize = 8;

/// Account name of the `i`-th secret.
pub fn key_name(i: usize) -> (r: &'static str)
    requires
        i < CREDENTIAL_COUNT,
    ensures
        r@ == credential_key(i as int),
{
    if i == 0 {
        "bluesky_identifier"
    } else if i == 1 {
        "bluesky_app_password"
    } else if i == 2 {
        "x_consumer_key"
    } else if i == 3 {
        "x_consumer_secret"
    } else if i == 4 {
        "x_access_token"
    } else if i == 5 {
        "x_access_token_secret"
    } else if i == 6 {
        "threads_user_id"
    } else {
        "threads_access_token"
    }
}

/// Why the store could not read or write one secret.
#[derive(Clone, Debug)]
pub struct CredentialError {
    /// Account name of the secret concerned.
    pub key: String,
    /// What the store reported.
    pub detail: String,
}

impl CredentialError {
    pub fn message(&self) -> (r: String)
        ensures
            r@ == "credential "@ + self.key@ + ": "@ + self.detail@,
    {
        String::from_str("credential ").concat(self.key.as_str()).concat(": ").concat(
            self.detail.as_str(),
        )
    }
}

/// Every secret the three platforms need. All eight are present once loaded.
#[derive(Clone, Debug)]
pub struct PlatformCredentials {
    pub bluesky_identifier: String,
    pub bluesky_app_password: String,
    pub x_consumer_key: String,
    pub x_consumer_secret: String,
    pub x_access_token: String,
    pub x_access_token_secret: String,
    pub threads_user_id: String,
    pub threads_access_token: String,
}

impl View for PlatformCredentials {
    type V = Seq<Seq<char>>;

    /// The secrets in key order.
    open spec fn view(&self) -> Seq<Seq<char>> {
        seq![
            self.bluesky_identifier@,
            self.bluesky_app_password@,
            self.x_consumer_key@,
            self.x_consumer_secret@,
            self.x_access_token@,
            self.x_access_token_secret@,
            self.threads_user_id@,
            self.threads_access_token@,
        ]
    }
}

/// Relies on keyring::Entry::new: the entry of one account under a service.
#[verifier::external_body]
fn open_entry(service: &str, account: &str) -> (r: Result<keyring::Entry, keyring::Error>) {
    keyring::Entry::new(service, account)
}

/// Relies on keyring::Entry::get_password: the secret stored in an entry.
#[verifier::external_body]
fn read_password(entry: &keyring::Entry) -> (r: Result<String, keyring::Error>) {
    entry.get_password()
}

/// Relies on keyring::Entry::set_password: stores a secret in an entry.
#[verifier::external_body]
fn write_password(entry: &keyring::Entry, value: &str) -> (r: Result<(), keyring::Error>) {
    entry.set_password(value)
}

/// Relies on keyring::Error's Debug form, to describe a store failure.
#[verifier::external_body]
fn describe(e: &keyring::Error) -> (r: String) {
    format!("{:?}", e)
}

fn store_error(key: &str, e: &keyring::Error) -> (r: CredentialError)
    ensures
        r.key@ == key@,
{
    CredentialError { key: key.to_string(), detail: describe(e) }
}

/// The store entry for one account.
pub fn create_entry(account: &str) -> (r: Result<keyring::Entry, CredentialError>)
    ensures
        r matches Err(e) ==> e.key@ == account@,
{
    match open_entry(SERVICE_NAME, account) {
        Ok(entry) => Ok(entry),
        Err(e) => Err(store_error(account, &e)),
    }
}

/// Reads one secret from the store.
pub fn get_credential(key: &str) -> (r: Result<String, CredentialError>)
    ensures
        r matches Err(e) ==> e.key@ == key@,
{
    let entry = create_entry(key)?;
    match read_password(&entry) {
        Ok(v) => Ok(v),
        Err(e) => Err(store_error(key, &e)),
    }
}

/// Writes one secret to the store.
pub fn set_credential(key: &str, value: &str) -> (r: Result<(), CredentialError>)
    ensures
        r matches Err(e) ==> e.key@ == key@,
{
    let entry = create_entry(key)?;
    match write_password(&entry, value) {
        Ok(()) => Ok(()),
        Err(e) => Err(store_error(key, &e)),
    }
}

/// Credentials exist when at least one platform's primary identifier is stored.
pub open spec fn credentials_exist_view(bluesky_identifier: bool, x_consumer_key: bool, threads_user_id: bool) -> bool {
    bluesky_identifier || x_consumer_key || threads_user_id
}

/// Every one of the eight reads succeeded.
pub open spec fn all_read(reads: Seq<Result<String, CredentialError>>) -> bool {
    forall|i: int| 0 <= i < reads.len() ==> #[trigger] reads[i] is Ok
}

/// The secret a successful read gave; nothing for a failed one.
pub open spec fn read_value(read: Result<String, CredentialError>) -> Seq<char> {
    match read {
        Ok(v) => v@,
        Err(_) => Seq::empty(),
    }
}

/// The bundle from the eight reads, in key order: the values read when every
/// read succeeded, and otherwise the first failure. No partial bundle is made.
pub fn assemble(reads: Vec<Result<String, CredentialError>>) -> (r: Result<PlatformCredentials, CredentialError>)
    requires
        reads@.len() == CREDENTIAL_COUNT,
    ensures
        r is Ok <==> all_read(reads@),
        r matches Ok(c) ==> c@ == reads@.map_values(|x: Result<String, CredentialError>| read_value(x)),
        r matches Err(e) ==> exists|k: int|
            0 <= k < CREDENTIAL_COUNT && reads@[k] == Err::<String, CredentialError>(e) && forall|j: int|
                0 <= j < k ==> #[trigger] reads@[j] is Ok,
{
    let mut values: Vec<String> = Vec::new();
    let mut i: usize = 0;
    while i < CREDENTIAL_COUNT
        invariant
            i <= CREDENTIAL_COUNT,
            reads@.len() == CREDENTIAL_COUNT,
            values@.len() == i,
            forall|j: int| 0 <= j < i ==> #[trigger] reads@[j] is Ok,
            forall|j: int| 0 <= j < i ==> (#[trigger] values@[j])@ == read_value(reads@[j]),
        decreases CREDENTIAL_COUNT - i,
    {
        match &reads[i] {
            Ok(v) => values.push(v.clone()),
            Err(e) => {
                let first = CredentialError { key: e.key.clone(), detail: e.detail.clone() };
                assert(reads@[i as int] == Err::<String, CredentialError>(first));
                return Err(first);
            },
        }
        i = i + 1;
    }
    let c = PlatformCredentials::from_values(values);
    assert(c@ =~= reads@.map_values(|x: Result<String, CredentialError>| read_value(x)));
    Ok(c)
}

/// A missing secret fails the whole bundle: with only the microblog consumer
/// key stored, credentials exist, yet the bundle cannot be assembled from the
/// eight reads of that store.
pub proof fn lemma_consumer_key_alone(stored: Set<Seq<char>>, reads: Seq<Result<String, CredentialError>>)
    requires
        stored == set![credential_key(2)],
        reads.len() == CREDENTIAL_COUNT,
        forall|i: int| 0 <= i < CREDENTIAL_COUNT ==> (#[trigger] reads[i] is Ok <==> stored.contains(credential_key(i))),
    ensures
        credentials_exist_view(
            stored.contains(credential_key(0)),
            stored.contains(credential_key(2)),
            stored.contains(credential_key(6)),
        ),
        !all_read(reads),
{
    reveal_strlit("bluesky_identifier");
    reveal_strlit("x_consumer_key");
    assert(credential_key(0).len() != credential_key(2).len());
    assert(!(reads[0] is Ok));
}

/// Whether any platform's primary identifier is present, given which were found.
pub fn any_primary_present(bluesky_identifier: bool, x_consumer_key: bool, threads_user_id: bool) -> (r: bool)
    ensures
        r == credentials_exist_view(bluesky_identifier, x_consumer_key, threads_user_id),
{
    bluesky_identifier || x_consumer_key || threads_user_id
}

impl PlatformCredentials {
    /// The bundle whose secrets, in key order, are `values`.
    pub fn from_values(values: Vec<String>) -> (r: PlatformCredentials)
        requires
            values@.len() == CREDENTIAL_COUNT,
        ensures
            r@ == values@.map_values(|v: String| v@),
    {
        let ghost orig = values@;
        let mut values = values;
        let threads_access_token = values.pop().unwrap();
        let threads_user_id = values.pop().unwrap();
        let x_access_token_secret = values.pop().unwrap();
        let x_access_token = values.pop().unwrap();
        let x_consumer_secret = values.pop().unwrap();
        let x_consumer_key = values.pop().unwrap();
        let bluesky_app_password = values.pop().unwrap();
        let bluesky_identifier = values.pop().unwrap();
        let r = PlatformCredentials {
            bluesky_identifier,
            bluesky_app_password,
            x_consumer_key,
            x_consumer_secret,
            x_access_token,
            x_access_token_secret,
            threads_user_id,
            threads_access_token,
        };
        assert(r@ =~= orig.map_values(|v: String| v@));
        r
    }

    /// The secrets in key order.
    pub fn to_values(&self) -> (r: Vec<String>)
        ensures
            r@.len() == CREDENTIAL_COUNT,
            r@.map_values(|v: String| v@) == self@,
    {
        let r = vec![
            self.bluesky_identifier.clone(),
            self.bluesky_app_password.clone(),
            self.x_consumer_key.clone(),
            self.x_consumer_secret.clone(),
            self.x_access_token.clone(),
            self.x_access_token_secret.clone(),
            self.threads_user_id.clone(),
            self.threads_access_token.clone(),
        ];
        assert(r@.map_values(|v: String| v@) =~= self@);
        r
    }

    /// Reads all eight secrets and assembles the bundle from what was read.
    pub fn load() -> (r: Result<PlatformCredentials, CredentialError>)
        ensures
            r matches Err(e) ==> exists|i: int| 0 <= i < CREDENTIAL_COUNT && e.key@ == credential_key(i),
    {
        let mut reads: Vec<Result<String, CredentialError>> = Vec::new();
        let mut i: usize = 0;
        while i < CREDENTIAL_COUNT
            invariant
                i <= CREDENTIAL_COUNT,
                reads@.len() == i,
                forall|j: int| 0 <= j < i ==> (#[trigger] reads@[j] matches Err(e) ==> e.key@ == credential_key(j)),
            decreases CREDENTIAL_COUNT - i,
        {
            reads.push(get_credential(key_name(i)));
            i = i + 1;
        }
        assemble(reads)
    }

    /// Writes the whole bundle, stopping at the first secret the store refuses.
    pub fn save(&self) -> (r: Result<(), CredentialError>)
        ensures
            r matches Err(e) ==> exists|i: int| 0 <= i < CREDENTIAL_COUNT && e.key@ == credential_key(i),
    {
        let values = self.to_values();
        let mut i: usize = 0;
        while i < CREDENTIAL_COUNT
            invariant
                i <= CREDENTIAL_COUNT,
                values@.len() == CREDENTIAL_COUNT,
            decreases CREDENTIAL_COUNT - i,
        {
            let key = key_name(i);
            set_credential(key, values[i].as_str())?;
            i = i + 1;
        }
        Ok(())
    }

    /// Whether the store holds at least one platform's primary identifier.
    pub fn exist() -> (r: bool) {
        let bluesky = get_credential(key_name(0)).is_ok();
        let x = get_credential(key_name(2)).is_ok();
        let threads = get_credential(key_name(6)).is_ok();
        any_primary_present(bluesky, x, threads)
    }
}

} // verus!
