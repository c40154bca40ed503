use vstd::prelude::*;

use snowflake_connector_rs::{SnowflakeAuthMethod, SnowflakeClient, SnowflakeClientConfig};

use crate::auth::{plan_of, AuthMethod, ConnectionPlan, MethodView, PlanView, ResolutionError};
use crate::config::{opt_view, passphrase_bytes, ConnectionConfig};

verus! {

/// The client of snowflake-connector-rs, carried through opaquely.
#[verifier::external_type_specification]
#[verifier::external_body]
pub struct ExSnowflakeClient(SnowflakeClient);

/// The error of snowflake-connector-rs, carried through opaquely.
#[verifier::external_type_specification]
#[verifier::external_body]
pub struct ExSnowflakeError(snowflake_connector_rs::Error);

/// The credentials handed to the client.
pub enum Credentials {
    KeyPair { pem: String, passphrase: Vec<u8> },
    Password { password: String },
}

pub ghost enum CredentialsView {
    KeyPair { pem: Seq<char>, passphrase: Seq<u8> },
    Password { password: Seq<char> },
}

impl View for Credentials {
    type V = CredentialsView;

    open spec fn view(&self) -> CredentialsView {
        match self {
            Credentials::KeyPair { pem, passphrase } => CredentialsView::KeyPair {
                pem: pem@,
                passphrase: passphrase@,
            },
            Credentials::Password { password } => CredentialsView::Password {
                password: password@,
            },
        }
    }
}

/// What a connection was established with.
pub ghost struct LoginView {
    pub username: Seq<char>,
    pub credentials: CredentialsView,
    pub account: Seq<char>,
    pub warehouse: Seq<char>,
    pub role: Seq<char>,
    pub database: Seq<char>,
    pub schema: Option<Seq<char>>,
}

/// Why a connection could not be established.
pub enum ConnectError {
    /// A required field did not resolve.
    Resolution(ResolutionError),
    /// The private key file could not be read; the reason as reported.
    KeyFileRead(String),
    /// The client library refused to construct a client.
    Client(snowflake_connector_rs::Error),
}

/// A live client, owned exclusively, for running queries.
pub struct Connection {
    inner: SnowflakeClient,
    login: Ghost<LoginView>,
}

impl View for Connection {
    type V = LoginView;

    closed spec fn view(&self) -> LoginView {
        self.login@
    }
}

/// The login a connection is established with.
pub open spec fn login_view(
    username: Seq<char>,
    credentials: CredentialsView,
    account: Seq<char>,
    warehouse: Seq<char>,
    role: Seq<char>,
    database: Seq<char>,
    schema: Option<Seq<char>>,
) -> LoginView {
    LoginView { username, credentials, account, warehouse, role, database, schema }
}

/// Relies on `SnowflakeClient::new` of snowflake-connector-rs, which stores the
/// username, the method and the settings as given (warehouse, role and
/// database set, schema as given, no timeout) in the client it returns.
/// Whether it succeeds depends on building its HTTP client; its error is
/// handed on unchanged.
#[verifier::external_body]
fn new_client(
    username: &str,
    credentials: Credentials,
    account: String,
    warehouse: String,
    role: String,
    database: String,
    schema: Option<String>,
) -> (r: Result<Connection, snowflake_connector_rs::Error>)
    ensures
        r matches Ok(c) ==> c@ == login_view(
            username@,
            credentials@,
            account@,
            warehouse@,
            role@,
            database@,
            opt_view(schema),
        ),
{
    let login = Ghost(login_view(username@, credentials@, account@, warehouse@, role@, database@, opt_view(schema)));
    let auth = match credentials {
        Credentials::KeyPair { pem, passphrase } => {
            SnowflakeAuthMethod::KeyPair { encrypted_pem: pem, password: passphrase }
        },
        Credentials::Password { password } => SnowflakeAuthMethod::Password(password),
    };
    let (warehouse, role, database) = (Some(warehouse), Some(role), Some(database));
    let config = SnowflakeClientConfig { account, warehouse, role, database, schema, timeout: None };
    let inner = SnowflakeClient::new(username, auth, config)?;
    Ok(Connection { inner, login })
}

impl Connection {
    fn try_new(
        username: String,
        credentials: Credentials,
        account: String,
        warehouse: String,
        role: String,
        database: String,
        schema: Option<String>,
    ) -> (r: Result<Self, snowflake_connector_rs::Error>)
        ensures
            r matches Ok(c) ==> c@ == login_view(
                username@,
                credentials@,
                account@,
                warehouse@,
                role@,
                database@,
                opt_view(schema),
            ),
    {
        new_client(username.as_str(), credentials, account, warehouse, role, database, schema)
    }

    /// A connection that authenticates with a password.
    pub fn try_new_by_password(
        username: String,
        password: String,
        account: String,
        warehouse: String,
        role: String,
        database: String,
        schema: Option<String>,
    ) -> (r: Result<Self, snowflake_connector_rs::Error>)
        ensures
            r matches Ok(c) ==> c@ == (LoginView {
                username: username@,
                credentials: CredentialsView::Password { password: password@ },
                account: account@,
                warehouse: warehouse@,
                role: role@,
                database: database@,
                schema: opt_view(schema),
            }),
    {
        Connection::try_new(
            username,
            Credentials::Password { password },
            account,
            warehouse,
            role,
            database,
            schema,
        )
    }

    /// A connection that authenticates with a private key in PEM form and its
    /// passphrase (empty where the key is not encrypted).
    pub fn try_new_by_keypair(
        username: String,
        encrypted_pem: String,
        passphrase: Vec<u8>,
        account: String,
        warehouse: String,
        role: String,
        database: String,
        schema: Option<String>,
    ) -> (r: Result<Self, snowflake_connector_rs::Error>)
        ensures
            r matches Ok(c) ==> c@ == (LoginView {
                username: username@,
                credentials: CredentialsView::KeyPair { pem: encrypted_pem@, passphrase: passphrase@ },
                account: account@,
                warehouse: warehouse@,
                role: role@,
                database: database@,
                schema: opt_view(schema),
            }),
    {
        Connection::try_new(
            username,
            Credentials::KeyPair { pem: encrypted_pem, passphrase },
            account,
            warehouse,
            role,
            database,
            schema,
        )
    }

    /// The underlying client, through which queries run.
    pub fn client(&self) -> &SnowflakeClient {
        &self.inner
    }
}

/// The credentials a method leads to, given what reading the key file gave
/// (`key_file`, consulted only for a key file method): the file's contents
/// become the key material, and a failed read is the reason it failed.
pub open spec fn credentials_of(
    m: MethodView,
    key_file: Option<Result<Seq<char>, Seq<char>>>,
) -> Result<CredentialsView, Seq<char>> {
    match m {
        MethodView::KeyPair { pem, passphrase } => Ok(CredentialsView::KeyPair { pem, passphrase }),
        MethodView::KeyPairFromFile { path, passphrase } => match key_file {
            Some(Ok(contents)) => Ok(CredentialsView::KeyPair { pem: contents, passphrase }),
            Some(Err(reason)) => Err(reason),
            None => Err(Seq::empty()),
        },
        MethodView::Password { password } => Ok(CredentialsView::Password { password }),
    }
}

/// What a plan leads to: the login of the connection, or the reason the key
/// file could not be read.
pub open spec fn login_of(
    p: PlanView,
    key_file: Option<Result<Seq<char>, Seq<char>>>,
) -> Result<LoginView, Seq<char>> {
    match credentials_of(p.auth, key_file) {
        Ok(c) => Ok(
            LoginView {
                username: p.username,
                credentials: c,
                account: p.account,
                warehouse: p.warehouse,
                role: p.role,
                database: p.database,
                schema: p.schema,
            },
        ),
        Err(reason) => Err(reason),
    }
}

pub open spec fn read_view(key_file: Option<Result<String, String>>) -> Option<
    Result<Seq<char>, Seq<char>>,
> {
    match key_file {
        Some(Ok(s)) => Some(Ok(s@)),
        Some(Err(e)) => Some(Err(e@)),
        None => None,
    }
}

/// Establishes the connection a plan describes. For a key file method,
/// `key_file` is the outcome of reading that file (`None`: it was not read):
/// a failed read ends the attempt, with no fallback to another method.
pub fn establish(plan: ConnectionPlan, key_file: Option<Result<String, String>>) -> (r: Result<
    Connection,
    ConnectError,
>)
    ensures
        login_of(plan@, read_view(key_file)) matches Err(reason) ==> (r matches Err(
            ConnectError::KeyFileRead(e),
        ) && e@ == reason),
        login_of(plan@, read_view(key_file)) matches Ok(l) ==> match r {
            Ok(c) => c@ == l,
            Err(e) => e is Client,
        },
{
    let ConnectionPlan { username, account, warehouse, role, database, schema, auth } = plan;
    let r = match auth {
        AuthMethod::KeyPair { pem, passphrase } => Connection::try_new_by_keypair(
            username,
            pem,
            passphrase,
            account,
            warehouse,
            role,
            database,
            schema,
        ),
        AuthMethod::KeyPairFromFile { path, passphrase } => match key_file {
            Some(Ok(contents)) => Connection::try_new_by_keypair(
                username,
                contents,
                passphrase,
                account,
                warehouse,
                role,
                database,
                schema,
            ),
            Some(Err(reason)) => {
                return Err(ConnectError::KeyFileRead(reason));
            },
            None => {
                return Err(ConnectError::KeyFileRead(String::new()));
            },
        },
        AuthMethod::Password { password } => Connection::try_new_by_password(
            username,
            password,
            account,
            warehouse,
            role,
            database,
            schema,
        ),
    };
    match r {
        Ok(c) => Ok(c),
        Err(e) => Err(ConnectError::Client(e)),
    }
}

/// Without key material, a resolved key file path leads to key pair
/// credentials holding exactly the file's contents; a failed read is the
/// final outcome, with no fallback to the password.
pub proof fn lemma_key_file_contents(c: ConnectionConfig, read: Result<Seq<char>, Seq<char>>)
    requires
        c.private_key is None,
        c.private_key_path is Some,
        plan_of(c) is Ok,
    ensures
        read matches Ok(contents) ==> (login_of(plan_of(c)->Ok_0, Some(read)) matches Ok(l)
            && l.credentials == (CredentialsView::KeyPair {
                pem: contents,
                passphrase: passphrase_bytes(c),
            })),
        read matches Err(reason) ==> login_of(plan_of(c)->Ok_0, Some(read)) == Err::<
            LoginView,
            Seq<char>,
        >(reason),
{
}

} // verus!
