use develbot::database::entity::chat_log_message::ChatLogMessage;
use develbot::database::entity::chatter::Chatter;
use develbot::database::{
    connect_options, ConnectTarget, DatabaseConfig, MissingProperty, MAX_CONNECTIONS,
};

fn text(value: &str) -> Option<String> {
    Some(value.to_string())
}

fn network() -> DatabaseConfig {
    DatabaseConfig {
        socket: None,
        host: text("db.example"),
        port: Some(5432),
        username: text("bot"),
        password: text("secret"),
        database: text("chat"),
    }
}

#[test]
fn network_target_needs_all_five_properties() {
    assert_eq!(
        connect_options(&network()),
        Ok(ConnectTarget::Network {
            host: "db.example".to_string(),
            port: 5432,
            username: "bot".to_string(),
            password: "secret".to_string(),
            database: "chat".to_string(),
        })
    );
    assert_eq!(
        connect_options(&DatabaseConfig { host: None, ..network() }),
        Err(MissingProperty::Host)
    );
    assert_eq!(
        connect_options(&DatabaseConfig { port: None, ..network() }),
        Err(MissingProperty::Port)
    );
    assert_eq!(
        connect_options(&DatabaseConfig { username: None, ..network() }),
        Err(MissingProperty::Username)
    );
    assert_eq!(
        connect_options(&DatabaseConfig { password: None, ..network() }),
        Err(MissingProperty::Password)
    );
    assert_eq!(
        connect_options(&DatabaseConfig { database: None, ..network() }),
        Err(MissingProperty::Database)
    );
}

#[test]
fn first_missing_property_is_reported() {
    let nothing = DatabaseConfig {
        socket: None,
        host: None,
        port: None,
        username: None,
        password: None,
        database: None,
    };
    assert_eq!(connect_options(&nothing), Err(MissingProperty::Host));
    assert_eq!(
        connect_options(&DatabaseConfig { port: None, database: None, ..network() }),
        Err(MissingProperty::Port)
    );
}

#[test]
fn socket_target_needs_user_and_password_only() {
    let socket = DatabaseConfig {
        socket: text("/var/run/postgresql"),
        host: None,
        port: None,
        username: text("bot"),
        password: text("secret"),
        database: None,
    };
    assert_eq!(
        connect_options(&socket),
        Ok(ConnectTarget::Socket {
            socket: "/var/run/postgresql".to_string(),
            username: "bot".to_string(),
            password: "secret".to_string(),
        })
    );
    assert_eq!(
        connect_options(&DatabaseConfig { username: None, password: None, ..socket }),
        Err(MissingProperty::Username)
    );
    let no_password = DatabaseConfig {
        socket: text("/var/run/postgresql"),
        host: text("ignored"),
        port: Some(1),
        username: text("bot"),
        password: None,
        database: text("ignored"),
    };
    assert_eq!(connect_options(&no_password), Err(MissingProperty::Password));
}

#[test]
fn missing_properties_name_themselves() {
    assert_eq!(
        MissingProperty::Host.message(),
        "Expected 'host' property in database configuration block"
    );
    assert_eq!(
        MissingProperty::Port.message(),
        "Expected 'port' property in database configuration block"
    );
    assert_eq!(
        MissingProperty::Username.message(),
        "Expected 'username' property in database configuration block"
    );
    assert_eq!(
        MissingProperty::Password.message(),
        "Expected 'password' property in database configuration block"
    );
    assert_eq!(
        MissingProperty::Database.message(),
        "Expected 'database' property in database configuration block"
    );
    assert_eq!(MAX_CONNECTIONS, 5);
}

#[test]
fn new_rows_have_no_id_and_the_current_version() {
    let row = ChatLogMessage::new("viewer".to_string(), "hi".to_string(), 1234);
    assert_eq!(row.id, None);
    assert_eq!(row.chatter_login, "viewer");
    assert_eq!(row.message, "hi");
    assert_eq!(row.posted_at, 1234);
    assert_eq!(row.version, 1);
    assert_eq!(ChatLogMessage::CURRENT_VERSION, 1);

    let chatter = Chatter::created("viewer".to_string(), "Viewer".to_string(), 99);
    assert_eq!(
        chatter,
        Chatter { login: "viewer".to_string(), name: "Viewer".to_string(), created_at: 99, version: 1 }
    );
}

#[test]
fn a_chatter_made_now_carries_the_clock() {
    let chatter = Chatter::new("viewer".to_string(), "Viewer".to_string());
    assert_eq!(chatter.login, "viewer");
    assert_eq!(chatter.name, "Viewer");
    assert_eq!(chatter.version, Chatter::CURRENT_VERSION);
    // 2020-01-01 in milliseconds: the clock of any machine that runs this is later.
    assert!(chatter.created_at > 1_577_836_800_000);
}
