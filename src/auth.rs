use vstd::prelude::*;
use vstd::string::{StrSliceExecFns, StringExecFns};

use crate::config::{clone_opt, get_passphrase, opt_view, passphrase_bytes, Config, ConnectionConfig};

verus! {

/// A required connection field.
#[derive(Clone, Copy, Debug, PartialEq, Eq, Structural)]
pub enum Field {
    User,
    Account,
    Warehouse,
    Role,
    Database,
    Password,
}

/// A required field whose deferred value could not be resolved.
#[derive(Clone, Copy, Debug, PartialEq, Eq, Structural)]
pub struct ResolutionError {
    pub field: Field,
}

/// The authentication method chosen for a connection.
pub enum AuthMethod {
    /// Private key material given directly.
    KeyPair { pem: String, passphrase: Vec<u8> },
    /// Private key material to be read from the file at `path`.
    KeyPairFromFile { path: String, passphrase: Vec<u8> },
    Password { password: String },
}

pub ghost enum MethodView {
    KeyPair { pem: Seq<char>, passphrase: Seq<u8> },
    KeyPairFromFile { path: Seq<char>, passphrase: Seq<u8> },
    Password { password: Seq<char> },
}

impl View for AuthMethod {
    type V = MethodView;

    open spec fn view(&self) -> MethodView {
        match self {
            AuthMethod::KeyPair { pem, passphrase } => MethodView::KeyPair {
                pem: pem@,
                passphrase: passphrase@,
            },
            AuthMethod::KeyPairFromFile { path, passphrase } => MethodView::KeyPairFromFile {
                path: path@,
                passphrase: passphrase@,
            },
            AuthMethod::Password { password } => MethodView::Password { password: password@ },
        }
    }
}

/// Everything needed to construct a client: the resolved fields and the chosen method.
pub struct ConnectionPlan {
    pub username: String,
    pub account: String,
    pub warehouse: String,
    pub role: String,
    pub database: String,
    pub schema: Option<String>,
    pub auth: AuthMethod,
}

pub ghost struct PlanView {
    pub username: Seq<char>,
    pub account: Seq<char>,
    pub warehouse: Seq<char>,
    pub role: Seq<char>,
    pub database: Seq<char>,
    pub schema: Option<Seq<char>>,
    pub auth: MethodView,
}

impl View for ConnectionPlan {
    type V = PlanView;

    open spec fn view(&self) -> PlanView {
        PlanView {
            username: self.username@,
            account: self.account@,
            warehouse: self.warehouse@,
            role: self.role@,
            database: self.database@,
            schema: opt_view(self.schema),
            auth: self.auth@,
        }
    }
}

/// The method chosen for a configuration: key material first, then a key
/// file path, then a password; `None` where none of the three resolved.
pub open spec fn method_of(c: ConnectionConfig) -> Option<MethodView> {
    if c.private_key is Some {
        Some(MethodView::KeyPair { pem: c.private_key.unwrap()@, passphrase: passphrase_bytes(c) })
    } else if c.private_key_path is Some {
        Some(
            MethodView::KeyPairFromFile {
                path: c.private_key_path.unwrap()@,
                passphrase: passphrase_bytes(c),
            },
        )
    } else if c.password is Some {
        Some(MethodView::Password { password: c.password.unwrap()@ })
    } else {
        None
    }
}

/// The plan for a configuration, or the first required field, in the order
/// user, account, warehouse, role, database, password, that did not resolve.
pub open spec fn plan_of(c: ConnectionConfig) -> Result<PlanView, Field> {
    if c.user is None {
        Err(Field::User)
    } else if c.account is None {
        Err(Field::Account)
    } else if c.warehouse is None {
        Err(Field::Warehouse)
    } else if c.role is None {
        Err(Field::Role)
    } else if c.database is None {
        Err(Field::Database)
    } else {
        match method_of(c) {
            None => Err(Field::Password),
            Some(m) => Ok(
                PlanView {
                    username: c.user.unwrap()@,
                    account: c.account.unwrap()@,
                    warehouse: c.warehouse.unwrap()@,
                    role: c.role.unwrap()@,
                    database: c.database.unwrap()@,
                    schema: opt_view(c.schema),
                    auth: m,
                },
            ),
        }
    }
}

pub open spec fn plan_result_view(r: Result<ConnectionPlan, ResolutionError>) -> Result<
    PlanView,
    Field,
> {
    match r {
        Ok(p) => Ok(p@),
        Err(e) => Err(e.field),
    }
}

fn required(v: &Option<String>, field: Field) -> (r: Result<String, ResolutionError>)
    ensures
        match r {
            Ok(s) => v is Some && s@ == v.unwrap()@,
            Err(e) => v is None && e.field == field,
        },
{
    match v {
        Some(s) => Ok(s.clone()),
        None => Err(ResolutionError { field }),
    }
}

/// Resolves the required fields and the optional schema, and selects the
/// authentication method.
pub fn plan_connection(config: &Config) -> (r: Result<ConnectionPlan, ResolutionError>)
    ensures
        plan_result_view(r) == plan_of(config.connection),
{
    let c = &config.connection;
    let username = required(&c.user, Field::User)?;
    let account = required(&c.account, Field::Account)?;
    let warehouse = required(&c.warehouse, Field::Warehouse)?;
    let role = required(&c.role, Field::Role)?;
    let database = required(&c.database, Field::Database)?;
    let schema = clone_opt(&c.schema);
    let auth = match &c.private_key {
        Some(pem) => AuthMethod::KeyPair { pem: pem.clone(), passphrase: get_passphrase(config) },
        None => match &c.private_key_path {
            Some(path) => AuthMethod::KeyPairFromFile {
                path: path.clone(),
                passphrase: get_passphrase(config),
            },
            None => AuthMethod::Password { password: required(&c.password, Field::Password)? },
        },
    };
    Ok(ConnectionPlan { username, account, warehouse, role, database, schema, auth })
}

/// How many leading characters a masked password shows.
pub open spec fn shown_prefix(n: nat) -> nat {
    if n >= 4 {
        2
    } else if n >= 2 {
        1
    } else {
        0
    }
}

/// How many trailing characters a masked password shows.
pub open spec fn shown_suffix(n: nat) -> nat {
    if n >= 4 {
        2
    } else if n == 3 {
        1
    } else {
        0
    }
}

/// The separator that stands for the hidden characters.
pub open spec fn mask_fill() -> Seq<char> {
    Seq::new(10, |_i: int| '*')
}

/// The preview of a password that may be logged.
pub open spec fn masked(s: Seq<char>) -> Seq<char> {
    s.subrange(0, shown_prefix(s.len()) as int) + mask_fill() + s.subrange(
        s.len() - shown_suffix(s.len()),
        s.len() as int,
    )
}

/// A preview of `password` that shows at most its first two and last two
/// characters, fewer for a short password, none below two characters.
pub fn mask_password(password: &str) -> (r: String)
    ensures
        r@ == masked(password@),
{
    let n = password.unicode_len();
    let p: usize = if n >= 4 {
        2
    } else if n >= 2 {
        1
    } else {
        0
    };
    let q: usize = if n >= 4 {
        2
    } else if n == 3 {
        1
    } else {
        0
    };
    let fill = "**********";
    proof {
        reveal_strlit("**********");
        assert(fill@ =~= mask_fill());
    }
    let mut r = String::from_str(password.substring_char(0, p));
    r.append(fill);
    r.append(password.substring_char(n - q, n));
    r
}

/// The label of the password's debug record.
pub open spec fn password_label() -> Seq<char> {
    seq!['p', 'a', 's', 's', 'w', 'o', 'r', 'd', ':', ' ']
}

/// The debug record for a password: its label, then its masked preview.
pub fn password_record(password: &str) -> (r: String)
    ensures
        r@ == password_label() + masked(password@),
{
    let label = "password: ";
    proof {
        reveal_strlit("password: ");
        assert(label@ =~= password_label());
    }
    let mut r = String::from_str(label);
    let preview = mask_password(password);
    r.append(preview.as_str());
    r
}

/// Key material takes precedence: when `private_key` resolves, the method is
/// key pair authentication with that material, whatever the key file path and
/// the password hold.
pub proof fn lemma_key_material_first(c: ConnectionConfig)
    requires
        c.private_key is Some,
    ensures
        method_of(c) == Some(
            (MethodView::KeyPair { pem: c.private_key.unwrap()@, passphrase: passphrase_bytes(c) }),
        ),
        plan_of(c) matches Ok(p) ==> p.auth == (MethodView::KeyPair {
            pem: c.private_key.unwrap()@,
            passphrase: passphrase_bytes(c),
        }),
{
}

/// Without key material, a resolved key file path selects the key file
/// method with that path, whatever the password holds.
pub proof fn lemma_key_file_second(c: ConnectionConfig)
    requires
        c.private_key is None,
        c.private_key_path is Some,
    ensures
        method_of(c) == Some(
            (MethodView::KeyPairFromFile {
                path: c.private_key_path.unwrap()@,
                passphrase: passphrase_bytes(c),
            }),
        ),
{
}

/// Without either key source the password decides: it is the method when it
/// resolves, and otherwise establishment fails with a resolution error, which
/// names the password where the other required fields resolved.
pub proof fn lemma_password_last(c: ConnectionConfig)
    requires
        c.private_key is None,
        c.private_key_path is None,
    ensures
        c.password matches Some(pw) ==> method_of(c) == Some(
            (MethodView::Password { password: pw@ }),
        ),
        c.password is None ==> plan_of(c) is Err,
        c.password is None && c.user is Some && c.account is Some && c.warehouse is Some
            && c.role is Some && c.database is Some ==> plan_of(c) == Err::<PlanView, Field>(
            Field::Password,
        ),
{
}

/// Establishment succeeds exactly when the required fields resolve and one of
/// the three credential sources does: the schema and the passphrase never
/// cause a failure, and an unresolved passphrase gives no bytes.
pub proof fn lemma_plan_succeeds_iff(c: ConnectionConfig)
    ensures
        plan_of(c) is Ok <==> (c.user is Some && c.account is Some && c.warehouse is Some
            && c.role is Some && c.database is Some && (c.private_key is Some
            || c.private_key_path is Some || c.password is Some)),
        plan_of(c) matches Ok(p) ==> p.schema == opt_view(c.schema),
        c.private_key_passphrase is None ==> passphrase_bytes(c) == Seq::<u8>::empty(),
{
}

/// The plan depends only on the resolved values: two configurations whose
/// fields resolved to the same text give the same plan and method.
pub proof fn lemma_plan_deterministic(c1: ConnectionConfig, c2: ConnectionConfig)
    requires
        opt_view(c1.user) == opt_view(c2.user),
        opt_view(c1.account) == opt_view(c2.account),
        opt_view(c1.warehouse) == opt_view(c2.warehouse),
        opt_view(c1.role) == opt_view(c2.role),
        opt_view(c1.database) == opt_view(c2.database),
        opt_view(c1.schema) == opt_view(c2.schema),
        opt_view(c1.private_key) == opt_view(c2.private_key),
        opt_view(c1.private_key_path) == opt_view(c2.private_key_path),
        opt_view(c1.private_key_passphrase) == opt_view(c2.private_key_passphrase),
        opt_view(c1.password) == opt_view(c2.password),
    ensures
        method_of(c1) == method_of(c2),
        plan_of(c1) == plan_of(c2),
{
    assert(c1.private_key_passphrase is Some ==> c1.private_key_passphrase.unwrap()@
        == c2.private_key_passphrase.unwrap()@);
    assert(passphrase_bytes(c1) == passphrase_bytes(c2));
}

/// A masked password of four or more characters shows exactly its first two
/// and last two characters around the fixed separator; below two characters
/// it shows none; in between it shows fewer characters than it has.
pub proof fn lemma_mask_reveals_little(s: Seq<char>)
    ensures
        s.len() >= 4 ==> masked(s) == s.subrange(0, 2) + mask_fill() + s.subrange(
            s.len() - 2,
            s.len() as int,
        ),
        s.len() < 2 ==> masked(s) =~= mask_fill(),
        2 <= s.len() < 4 ==> shown_prefix(s.len()) + shown_suffix(s.len()) < s.len(),
        masked(s).len() == mask_fill().len() + shown_prefix(s.len()) + shown_suffix(s.len()),
{
}

} // verus!
