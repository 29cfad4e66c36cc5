//! Where the chat log is kept: how the configuration names the database,
//! and the rows written to it.

use vstd::prelude::*;
use crate::credential::{clone_opt_string, opt_str_view};

pub mod entity;

verus! {

/// How the configuration names the database. Everything is optional in the
/// record; what is required depends on whether a socket is named.
#[derive(Debug)]
pub struct DatabaseConfig {
    pub socket: Option<String>,
    pub host: Option<String>,
    pub port: Option<u16>,
    pub username: Option<String>,
    pub password: Option<String>,
    pub database: Option<String>,
}

pub struct DatabaseConfigView {
    pub socket: Option<Seq<char>>,
    pub host: Option<Seq<char>>,
    pub port: Option<u16>,
    pub username: Option<Seq<char>>,
    pub password: Option<Seq<char>>,
    pub database: Option<Seq<char>>,
}

impl View for DatabaseConfig {
    type V = DatabaseConfigView;

    open spec fn view(&self) -> DatabaseConfigView {
        DatabaseConfigView {
            socket: opt_str_view(self.socket),
            host: opt_str_view(self.host),
            port: self.port,
            username: opt_str_view(self.username),
            password: opt_str_view(self.password),
            database: opt_str_view(self.database),
        }
    }
}

/// Where to connect to.
#[derive(Debug, PartialEq, Eq)]
pub enum ConnectTarget {
    /// A local socket.
    Socket { socket: String, username: String, password: String },
    /// A server on the network.
    Network { host: String, port: u16, username: String, password: String, database: String },
}

pub enum ConnectTargetView {
    Socket { socket: Seq<char>, username: Seq<char>, password: Seq<char> },
    Network {
        host: Seq<char>,
        port: u16,
        username: Seq<char>,
        password: Seq<char>,
        database: Seq<char>,
    },
}

impl View for ConnectTarget {
    type V = ConnectTargetView;

    open spec fn view(&self) -> ConnectTargetView {
        match self {
            ConnectTarget::Socket { socket, username, password } => ConnectTargetView::Socket {
                socket: socket@,
                username: username@,
                password: password@,
            },
            ConnectTarget::Network { host, port, username, password, database } => {
                ConnectTargetView::Network {
                    host: host@,
                    port: *port,
                    username: username@,
                    password: password@,
                    database: database@,
                }
            },
        }
    }
}

/// A property that the database configuration lacks.
#[derive(Clone, Copy, Debug, PartialEq, Eq, Structural)]
pub enum MissingProperty {
    Host,
    Port,
    Username,
    Password,
    Database,
}

impl MissingProperty {
    pub open spec fn spec_message(self) -> Seq<char> {
        match self {
            MissingProperty::Host => "Expected 'host' property in database configuration block"@,
            MissingProperty::Port => "Expected 'port' property in database configuration block"@,
            MissingProperty::Username => "Expected 'username' property in database configuration block"@,
            MissingProperty::Password => "Expected 'password' property in database configuration block"@,
            MissingProperty::Database => "Expected 'database' property in database configuration block"@,
        }
    }

    pub fn message(&self) -> (text: &'static str)
        ensures
            text@ == self.spec_message(),
    {
        match self {
            MissingProperty::Host => "Expected 'host' property in database configuration block",
            MissingProperty::Port => "Expected 'port' property in database configuration block",
            MissingProperty::Username => "Expected 'username' property in database configuration block",
            MissingProperty::Password => "Expected 'password' property in database configuration block",
            MissingProperty::Database => "Expected 'database' property in database configuration block",
        }
    }
}

/// How many connections the pool may hold.
pub const MAX_CONNECTIONS: u32 = 5;

/// The connection target that a configuration names, or the first property
/// it lacks. With a socket, user name and password are required; without
/// one, host, port, user name, password and database, looked for in that
/// order.
pub open spec fn connect_target(config: DatabaseConfigView) -> Result<
    ConnectTargetView,
    MissingProperty,
> {
    if config.socket is Some {
        if config.username is None {
            Err(MissingProperty::Username)
        } else if config.password is None {
            Err(MissingProperty::Password)
        } else {
            Ok(
                ConnectTargetView::Socket {
                    socket: config.socket->0,
                    username: config.username->0,
                    password: config.password->0,
                },
            )
        }
    } else if config.host is None {
        Err(MissingProperty::Host)
    } else if config.port is None {
        Err(MissingProperty::Port)
    } else if config.username is None {
        Err(MissingProperty::Username)
    } else if config.password is None {
        Err(MissingProperty::Password)
    } else if config.database is None {
        Err(MissingProperty::Database)
    } else {
        Ok(
            ConnectTargetView::Network {
                host: config.host->0,
                port: config.port->0,
                username: config.username->0,
                password: config.password->0,
                database: config.database->0,
            },
        )
    }
}

pub open spec fn target_view(target: Result<ConnectTarget, MissingProperty>) -> Result<
    ConnectTargetView,
    MissingProperty,
> {
    match target {
        Ok(found) => Ok(found@),
        Err(missing) => Err(missing),
    }
}

fn required(value: &Option<String>, property: MissingProperty) -> (found: Result<
    String,
    MissingProperty,
>)
    ensures
        match found {
            Ok(text) => opt_str_view(*value) == Some(text@),
            Err(missing) => *value is None && missing == property,
        },
{
    match clone_opt_string(value) {
        Some(text) => Ok(text),
        None => Err(property),
    }
}

/// Reads the connection target off the database configuration.
pub fn connect_options(config: &DatabaseConfig) -> (target: Result<ConnectTarget, MissingProperty>)
    ensures
        target_view(target) == connect_target(config@),
{
    match &config.socket {
        Some(socket) => {
            let username = required(&config.username, MissingProperty::Username)?;
            let password = required(&config.password, MissingProperty::Password)?;
            Ok(ConnectTarget::Socket { socket: socket.clone(), username, password })
        },
        None => {
            let host = required(&config.host, MissingProperty::Host)?;
            let port: u16 = match config.port {
                Some(port) => port,
                None => {
                    return Err(MissingProperty::Port);
                },
            };
            let username = required(&config.username, MissingProperty::Username)?;
            let password = required(&config.password, MissingProperty::Password)?;
            let database = required(&config.database, MissingProperty::Database)?;
            Ok(ConnectTarget::Network { host, port, username, password, database })
        },
    }
}

} // verus!
