//! The durable configuration record: client identity, the address of the
//! local callback endpoint, and the stored credential material.

use vstd::prelude::*;
use crate::credential::{opt_str_view, Credential, CredentialView};
use crate::text::{concat3, decimal, decimal_string};

verus! {

/// Settings of the local endpoint that receives the authorization redirect.
#[derive(Debug)]
pub struct GlobalConfig {
    pub auth_host: String,
    pub auth_port: u64,
}

/// Client identity and stored credential material.
#[derive(Debug)]
pub struct TwitchConfig {
    pub admin: String,
    pub app_access_token: Option<String>,
    pub app_refresh_token: Option<String>,
    pub bot_name: String,
    pub channel: String,
    pub client_id: String,
    pub client_secret: String,
    pub check_every_sec: Option<u64>,
    pub user_access_token: Option<String>,
    pub user_refresh_token: Option<String>,
}

#[derive(Debug)]
pub struct AppConfig {
    pub global: GlobalConfig,
    pub twitch: TwitchConfig,
}

/// The configuration record together with the place it is persisted at.
#[derive(Debug)]
pub struct Config {
    pub app_config: AppConfig,
    pub config_path: String,
}

pub struct GlobalConfigView {
    pub auth_host: Seq<char>,
    pub auth_port: u64,
}

pub struct TwitchConfigView {
    pub admin: Seq<char>,
    pub app_access_token: Option<Seq<char>>,
    pub app_refresh_token: Option<Seq<char>>,
    pub bot_name: Seq<char>,
    pub channel: Seq<char>,
    pub client_id: Seq<char>,
    pub client_secret: Seq<char>,
    pub check_every_sec: Option<u64>,
    pub user_access_token: Option<Seq<char>>,
    pub user_refresh_token: Option<Seq<char>>,
}

pub struct AppConfigView {
    pub global: GlobalConfigView,
    pub twitch: TwitchConfigView,
}

pub struct ConfigView {
    pub app_config: AppConfigView,
    pub config_path: Seq<char>,
}

impl View for GlobalConfig {
    type V = GlobalConfigView;

    open spec fn view(&self) -> GlobalConfigView {
        GlobalConfigView { auth_host: self.auth_host@, auth_port: self.auth_port }
    }
}

impl View for TwitchConfig {
    type V = TwitchConfigView;

    open spec fn view(&self) -> TwitchConfigView {
        TwitchConfigView {
            admin: self.admin@,
            app_access_token: opt_str_view(self.app_access_token),
            app_refresh_token: opt_str_view(self.app_refresh_token),
            bot_name: self.bot_name@,
            channel: self.channel@,
            client_id: self.client_id@,
            client_secret: self.client_secret@,
            check_every_sec: self.check_every_sec,
            user_access_token: opt_str_view(self.user_access_token),
            user_refresh_token: opt_str_view(self.user_refresh_token),
        }
    }
}

impl View for AppConfig {
    type V = AppConfigView;

    open spec fn view(&self) -> AppConfigView {
        AppConfigView { global: self.global@, twitch: self.twitch@ }
    }
}

impl View for Config {
    type V = ConfigView;

    open spec fn view(&self) -> ConfigView {
        ConfigView { app_config: self.app_config@, config_path: self.config_path@ }
    }
}

/// Seconds between validity checks when the configuration names none.
pub const DEFAULT_CHECK_INTERVAL: u64 = 15;

/// Path of the callback endpoint below the configured host and port.
pub open spec fn callback_path() -> Seq<char> {
    "/oauth-receive/"@
}

impl TwitchConfigView {
    /// The stored application tokens with `token` written over them: the
    /// access token always, the refresh token only where `token` has one.
    pub open spec fn with_app_tokens(self, token: CredentialView) -> TwitchConfigView {
        TwitchConfigView {
            app_access_token: Some(token.access_token),
            app_refresh_token: if token.refresh_token is Some {
                token.refresh_token
            } else {
                self.app_refresh_token
            },
            ..self
        }
    }

    /// The stored user tokens with `token` written over them, by the same
    /// rule as [`Self::with_app_tokens`].
    pub open spec fn with_user_tokens(self, token: CredentialView) -> TwitchConfigView {
        TwitchConfigView {
            user_access_token: Some(token.access_token),
            user_refresh_token: if token.refresh_token is Some {
                token.refresh_token
            } else {
                self.user_refresh_token
            },
            ..self
        }
    }

    /// Whether a stored user credential pair is there to be validated: both
    /// tokens present and neither empty.
    pub open spec fn has_stored_user_pair(self) -> bool {
        &&& self.user_access_token matches Some(access)
        &&& self.user_refresh_token matches Some(refresh)
        &&& access.len() > 0
        &&& refresh.len() > 0
    }

    /// The stored user credential pair.
    pub open spec fn stored_user_pair(self) -> CredentialView
        recommends
            self.has_stored_user_pair(),
    {
        CredentialView {
            access_token: self.user_access_token->0,
            refresh_token: self.user_refresh_token,
        }
    }

    /// The stored application credential; absent tokens count as empty.
    pub open spec fn stored_app_credential(self) -> CredentialView {
        CredentialView {
            access_token: match self.app_access_token {
                Some(access) => access,
                None => Seq::empty(),
            },
            refresh_token: Some(
                match self.app_refresh_token {
                    Some(refresh) => refresh,
                    None => Seq::empty(),
                },
            ),
        }
    }

    /// The interval between validity checks that this configuration asks for.
    pub open spec fn check_interval(self) -> u64 {
        match self.check_every_sec {
            Some(seconds) => seconds,
            None => DEFAULT_CHECK_INTERVAL,
        }
    }
}

impl ConfigView {
    pub open spec fn with_app_tokens(self, token: CredentialView) -> ConfigView {
        ConfigView {
            app_config: AppConfigView {
                twitch: self.app_config.twitch.with_app_tokens(token),
                ..self.app_config
            },
            ..self
        }
    }

    pub open spec fn with_user_tokens(self, token: CredentialView) -> ConfigView {
        ConfigView {
            app_config: AppConfigView {
                twitch: self.app_config.twitch.with_user_tokens(token),
                ..self.app_config
            },
            ..self
        }
    }

    /// The address the callback endpoint binds to: host, a colon, the port.
    pub open spec fn host_port(self) -> Seq<char> {
        self.app_config.global.auth_host + seq![':'] + decimal(
            self.app_config.global.auth_port as nat,
        )
    }

    /// The URL the remote provider redirects back to.
    pub open spec fn redirect_url(self) -> Seq<char> {
        "http://"@ + self.host_port() + callback_path()
    }
}

impl Config {
    /// Writes an application credential into the record. The stored refresh
    /// token is kept where the credential carries none.
    pub fn set_app_tokens(&mut self, token: &Credential)
        ensures
            final(self)@ == old(self)@.with_app_tokens(token@),
    {
        self.app_config.twitch.app_access_token = Some(token.access_token.clone());
        match &token.refresh_token {
            Some(refresh) => {
                self.app_config.twitch.app_refresh_token = Some(refresh.clone());
            },
            None => {},
        }
    }

    /// Writes a user credential into the record. The stored refresh token is
    /// kept where the credential carries none.
    pub fn set_user_tokens(&mut self, token: &Credential)
        ensures
            final(self)@ == old(self)@.with_user_tokens(token@),
    {
        self.app_config.twitch.user_access_token = Some(token.access_token.clone());
        match &token.refresh_token {
            Some(refresh) => {
                self.app_config.twitch.user_refresh_token = Some(refresh.clone());
            },
            None => {},
        }
    }

    /// The address the callback endpoint binds to.
    pub fn host_port(&self) -> (address: String)
        ensures
            address@ == self@.host_port(),
    {
        let port = decimal_string(self.app_config.global.auth_port);
        proof {
            reveal_strlit(":");
        }
        concat3(self.app_config.global.auth_host.as_str(), ":", port.as_str())
    }

    /// The URL the remote provider redirects back to.
    pub fn redirect_url(&self) -> (url: String)
        ensures
            url@ == self@.redirect_url(),
    {
        let address = self.host_port();
        concat3("http://", address.as_str(), "/oauth-receive/")
    }

    /// The interval between validity checks, in seconds.
    pub fn check_interval(&self) -> (seconds: u64)
        ensures
            seconds == self@.app_config.twitch.check_interval(),
    {
        match self.app_config.twitch.check_every_sec {
            Some(seconds) => seconds,
            None => DEFAULT_CHECK_INTERVAL,
        }
    }
}

} // verus!
