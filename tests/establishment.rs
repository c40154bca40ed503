use snowman::{
    establish, get_model_output_dirpath, get_passphrase, get_pydantic_options, plan_connection,
    AuthMethod, Config, ConnectError, ConnectionConfig, Field, ModelConfig, PydanticConfig,
};

fn s(v: &str) -> Option<String> {
    Some(v.to_string())
}

fn base_connection() -> ConnectionConfig {
    ConnectionConfig {
        user: s("alice"),
        account: s("acct"),
        warehouse: s("wh"),
        role: s("analyst"),
        database: s("db"),
        schema: s("public"),
        private_key: None,
        private_key_path: None,
        private_key_passphrase: None,
        password: None,
    }
}

fn config_with(connection: ConnectionConfig) -> Config {
    Config {
        pydantic: PydanticConfig {
            model_name_prefix: s("Pre"),
            model_name_suffix: None,
        },
        model: ModelConfig {
            output_dir: "out/models".to_string(),
        },
        connection,
    }
}

#[test]
fn key_material_wins_over_password() {
    let mut c = base_connection();
    c.private_key = s("<pem>");
    c.password = s("ignored");
    let plan = plan_connection(&config_with(c)).unwrap();
    match plan.auth {
        AuthMethod::KeyPair { pem, passphrase } => {
            assert_eq!(pem, "<pem>");
            assert!(passphrase.is_empty());
        }
        _ => panic!("expected key pair"),
    }
}

#[test]
fn key_material_wins_over_key_file_path() {
    let mut c = base_connection();
    c.private_key = s("<pem>");
    c.private_key_path = s("/tmp/key.pem");
    c.password = s("ignored");
    let plan = plan_connection(&config_with(c)).unwrap();
    assert!(matches!(plan.auth, AuthMethod::KeyPair { .. }));
}

#[test]
fn key_file_path_uses_file_contents() {
    let mut c = base_connection();
    c.private_key_path = s("/tmp/key.pem");
    c.password = s("ignored");
    c.private_key_passphrase = s("pp");
    let plan = plan_connection(&config_with(c)).unwrap();
    match &plan.auth {
        AuthMethod::KeyPairFromFile { path, passphrase } => {
            assert_eq!(path, "/tmp/key.pem");
            assert_eq!(passphrase, &b"pp".to_vec());
        }
        _ => panic!("expected key file"),
    }
    let conn = establish(plan, Some(Ok("PEMDATA".to_string())));
    assert!(conn.is_ok());
}

#[test]
fn password_when_no_key_source() {
    let mut c = base_connection();
    c.password = s("secretpw");
    let plan = plan_connection(&config_with(c)).unwrap();
    match &plan.auth {
        AuthMethod::Password { password } => assert_eq!(password, "secretpw"),
        _ => panic!("expected password"),
    }
    assert!(establish(plan, None).is_ok());
}

#[test]
fn missing_key_file_fails_without_fallback() {
    let mut c = base_connection();
    c.private_key_path = s("/nonexistent/key.pem");
    c.password = s("secretpw");
    let plan = plan_connection(&config_with(c)).unwrap();
    let r = establish(plan, Some(Err("No such file or directory".to_string())));
    match r {
        Err(ConnectError::KeyFileRead(reason)) => assert_eq!(reason, "No such file or directory"),
        _ => panic!("expected a key file read error"),
    }
}

#[test]
fn no_credentials_is_a_password_resolution_error() {
    let r = plan_connection(&config_with(base_connection()));
    assert_eq!(r.err().map(|e| e.field), Some(Field::Password));
}

#[test]
fn required_fields_fail_in_order() {
    let mut c = base_connection();
    c.password = s("pw");
    c.account = None;
    c.role = None;
    let r = plan_connection(&config_with(c));
    assert_eq!(r.err().map(|e| e.field), Some(Field::Account));

    let mut c = base_connection();
    c.password = s("pw");
    c.user = None;
    assert_eq!(plan_connection(&config_with(c)).err().map(|e| e.field), Some(Field::User));

    for (field, expected) in [(2, Field::Warehouse), (3, Field::Role), (4, Field::Database)] {
        let mut c = base_connection();
        c.password = s("pw");
        match field {
            2 => c.warehouse = None,
            3 => c.role = None,
            _ => c.database = None,
        }
        assert_eq!(plan_connection(&config_with(c)).err().map(|e| e.field), Some(expected));
    }
}

#[test]
fn absent_schema_and_passphrase_do_not_fail() {
    let mut c = base_connection();
    c.schema = None;
    c.private_key = s("<pem>");
    let config = config_with(c);
    let plan = plan_connection(&config).unwrap();
    assert!(plan.schema.is_none());
    assert_eq!(plan.username, "alice");
    assert_eq!(plan.account, "acct");
    assert_eq!(plan.warehouse, "wh");
    assert_eq!(plan.role, "analyst");
    assert_eq!(plan.database, "db");
    assert!(get_passphrase(&config).is_empty());
    assert!(establish(plan, None).is_ok());
}

#[test]
fn same_configuration_gives_same_method() {
    let mut c = base_connection();
    c.private_key_path = s("/tmp/key.pem");
    let config = config_with(c);
    let a = plan_connection(&config).unwrap();
    let b = plan_connection(&config).unwrap();
    match (a.auth, b.auth) {
        (
            AuthMethod::KeyPairFromFile { path: p1, .. },
            AuthMethod::KeyPairFromFile { path: p2, .. },
        ) => assert_eq!(p1, p2),
        _ => panic!("expected the key file method twice"),
    }
}

#[test]
fn passphrase_is_utf8_bytes() {
    let mut c = base_connection();
    c.private_key_passphrase = s("pässe");
    assert_eq!(get_passphrase(&config_with(c)), "pässe".as_bytes().to_vec());
}

#[test]
fn generation_options_are_copied() {
    let config = config_with(base_connection());
    let o = get_pydantic_options(&config);
    assert_eq!(o.model_name_prefix.as_deref(), Some("Pre"));
    assert_eq!(o.model_name_suffix, None);
    assert_eq!(get_model_output_dirpath(&config), "out/models");
}

#[test]
fn unread_key_file_is_a_read_error() {
    let mut c = base_connection();
    c.private_key_path = s("/tmp/key.pem");
    let plan = plan_connection(&config_with(c)).unwrap();
    assert!(matches!(establish(plan, None), Err(ConnectError::KeyFileRead(r)) if r.is_empty()));
}
