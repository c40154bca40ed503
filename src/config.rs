use vstd::prelude::*;
use vstd::string::StrSliceExecFns;

verus! {

/// Naming affixes for generated model definitions, as configured.
pub struct PydanticConfig {
    pub model_name_prefix: Option<String>,
    pub model_name_suffix: Option<String>,
}

/// Where generated model definitions are written.
pub struct ModelConfig {
    pub output_dir: String,
}

/// The connection section of a configuration.
///
/// Each field holds the value its deferred source resolved to (a literal or
/// an environment reference), or `None` where the source is absent or could
/// not be resolved.
pub struct ConnectionConfig {
    pub user: Option<String>,
    pub account: Option<String>,
    pub warehouse: Option<String>,
    pub role: Option<String>,
    pub database: Option<String>,
    pub schema: Option<String>,
    pub private_key: Option<String>,
    pub private_key_path: Option<String>,
    pub private_key_passphrase: Option<String>,
    pub password: Option<String>,
}

/// A validated configuration: the parts of it that this library reads.
pub struct Config {
    pub pydantic: PydanticConfig,
    pub model: ModelConfig,
    pub connection: ConnectionConfig,
}

/// Naming options handed to the model generator.
pub struct PydanticOptions {
    pub model_name_prefix: Option<String>,
    pub model_name_suffix: Option<String>,
}

/// The characters of an optional string, `None` staying `None`.
pub open spec fn opt_view(o: Option<String>) -> Option<Seq<char>> {
    match o {
        Some(s) => Some(s@),
        None => None,
    }
}

pub(crate) fn clone_opt(o: &Option<String>) -> (r: Option<String>)
    ensures
        opt_view(r) == opt_view(*o),
{
    match o {
        Some(s) => Some(s.clone()),
        None => None,
    }
}

/// The bytes of the passphrase: its UTF-8 encoding when it resolved, none otherwise.
pub open spec fn passphrase_bytes(c: ConnectionConfig) -> Seq<u8> {
    match c.private_key_passphrase {
        Some(p) => vstd::utf8::encode_utf8(p@),
        None => Seq::empty(),
    }
}

pub fn get_pydantic_options(config: &Config) -> (r: PydanticOptions)
    ensures
        opt_view(r.model_name_prefix) == opt_view(config.pydantic.model_name_prefix),
        opt_view(r.model_name_suffix) == opt_view(config.pydantic.model_name_suffix),
{
    PydanticOptions {
        model_name_prefix: clone_opt(&config.pydantic.model_name_prefix),
        model_name_suffix: clone_opt(&config.pydantic.model_name_suffix),
    }
}

pub fn get_model_output_dirpath(config: &Config) -> (r: String)
    ensures
        r@ == config.model.output_dir@,
{
    config.model.output_dir.clone()
}

/// The passphrase of the private key; an unresolved passphrase is no error
/// and gives the empty byte sequence.
pub fn get_passphrase(config: &Config) -> (r: Vec<u8>)
    ensures
        r@ == passphrase_bytes(config.connection),
{
    match &config.connection.private_key_passphrase {
        Some(p) => p.as_str().as_bytes_vec(),
        None => Vec::new(),
    }
}

} // verus!
