//! What one configuration file may hold: every setting is optional, and the
//! settings that a file names override the ones loaded before it.
use vstd::prelude::*;
use crate::net::addr::{SockAddr, IpAddress};

verus! {

/// Template settings of a configuration file.
pub struct Templates {
    pub dev_mode: Option<bool>,
    pub directory: Option<String>,
}

/// Static asset settings: url paths mapped to files and to directories.
pub struct Assets {
    pub files: Option<Vec<(String, String)>>,
    pub directories: Option<Vec<(String, String)>>,
}

/// Database connection settings.
pub struct Db {
    pub user: Option<String>,
    pub password: Option<String>,
    pub host: Option<String>,
    pub port: Option<u16>,
    pub dbname: Option<String>,
}

/// The hash used to sign session tokens.
#[derive(PartialEq, Eq, Structural, Clone, Copy)]
pub enum Hash {
    Blake3,
    HS256,
    HS384,
    HS512,
}

/// Session settings.
pub struct Session {
    pub hash: Option<Hash>,
    pub secure: Option<bool>,
}

/// Where secrets are kept.
#[derive(PartialEq, Eq, Structural, Clone, Copy)]
pub enum Secrets {
    Local,
}

/// Security settings.
pub struct Sec {
    pub session: Option<Session>,
    pub secrets: Option<Secrets>,
}

/// The key and certificate files of a TLS listener.
pub struct Tls {
    pub key: String,
    pub cert: String,
}

/// A socket listener: an address and an optional TLS setup. Besides the
/// text of the address it holds what that text parses to as a socket
/// address (`SocketAddr::from_str`) and as an IP address
/// (`IpAddr::from_str`), `None` where it does not parse.
pub struct Listener {
    pub addr: String,
    pub socket: Option<SockAddr>,
    pub ip: Option<IpAddress>,
    pub tls: Option<Tls>,
}

/// Everything one configuration file may set.
pub struct Settings {
    pub id: Option<i64>,
    pub data: Option<String>,
    pub tmp: Option<String>,
    pub master_key: Option<String>,
    pub listeners: Option<Vec<(String, Listener)>>,
    pub templates: Option<Templates>,
    pub assets: Option<Assets>,
    pub sec: Option<Sec>,
    pub db: Option<Db>,
}

/// The view of an optional string.
pub open spec fn opt_view(o: Option<String>) -> Option<Seq<char>> {
    match o {
        Some(s) => Some(s@),
        None => None,
    }
}

/// The view of a list of named values.
pub open spec fn keyed_view<V: View>(v: Seq<(String, V)>) -> Seq<(Seq<char>, V::V)> {
    v.map_values(|p: (String, V)| (p.0@, p.1@))
}

/// The view of a list of string pairs.
pub open spec fn pairs_view(v: Seq<(String, String)>) -> Seq<(Seq<char>, Seq<char>)> {
    keyed_view(v)
}

/// The view of an optional list of string pairs.
pub open spec fn opt_pairs_view(o: Option<Vec<(String, String)>>) -> Option<Seq<(Seq<char>, Seq<char>)>> {
    match o {
        Some(v) => Some(pairs_view(v@)),
        None => None,
    }
}

pub struct TemplatesView {
    pub dev_mode: Option<bool>,
    pub directory: Option<Seq<char>>,
}

impl View for Templates {
    type V = TemplatesView;

    open spec fn view(&self) -> TemplatesView {
        TemplatesView { dev_mode: self.dev_mode, directory: opt_view(self.directory) }
    }
}

pub struct AssetsView {
    pub files: Option<Seq<(Seq<char>, Seq<char>)>>,
    pub directories: Option<Seq<(Seq<char>, Seq<char>)>>,
}

impl View for Assets {
    type V = AssetsView;

    open spec fn view(&self) -> AssetsView {
        AssetsView { files: opt_pairs_view(self.files), directories: opt_pairs_view(self.directories) }
    }
}

pub struct DbView {
    pub user: Option<Seq<char>>,
    pub password: Option<Seq<char>>,
    pub host: Option<Seq<char>>,
    pub port: Option<u16>,
    pub dbname: Option<Seq<char>>,
}

impl View for Db {
    type V = DbView;

    open spec fn view(&self) -> DbView {
        DbView {
            user: opt_view(self.user),
            password: opt_view(self.password),
            host: opt_view(self.host),
            port: self.port,
            dbname: opt_view(self.dbname),
        }
    }
}

pub struct TlsView {
    pub key: Seq<char>,
    pub cert: Seq<char>,
}

impl View for Tls {
    type V = TlsView;

    open spec fn view(&self) -> TlsView {
        TlsView { key: self.key@, cert: self.cert@ }
    }
}

pub struct ListenerView {
    pub addr: Seq<char>,
    pub socket: Option<SockAddr>,
    pub ip: Option<IpAddress>,
    pub tls: Option<TlsView>,
}

impl View for Listener {
    type V = ListenerView;

    open spec fn view(&self) -> ListenerView {
        ListenerView {
            addr: self.addr@,
            socket: self.socket,
            ip: self.ip,
            tls: match self.tls {
                Some(t) => Some(t@),
                None => None,
            },
        }
    }
}

/// The view of a list of named listeners.
pub open spec fn listeners_view(v: Seq<(String, Listener)>) -> Seq<(Seq<char>, ListenerView)> {
    keyed_view(v)
}

pub struct SettingsView {
    pub id: Option<i64>,
    pub data: Option<Seq<char>>,
    pub tmp: Option<Seq<char>>,
    pub master_key: Option<Seq<char>>,
    pub listeners: Option<Seq<(Seq<char>, ListenerView)>>,
    pub templates: Option<TemplatesView>,
    pub assets: Option<AssetsView>,
    pub sec: Option<Sec>,
    pub db: Option<DbView>,
}

impl View for Settings {
    type V = SettingsView;

    open spec fn view(&self) -> SettingsView {
        SettingsView {
            id: self.id,
            data: opt_view(self.data),
            tmp: opt_view(self.tmp),
            master_key: opt_view(self.master_key),
            listeners: match self.listeners {
                Some(v) => Some(listeners_view(v@)),
                None => None,
            },
            templates: match self.templates {
                Some(t) => Some(t@),
                None => None,
            },
            assets: match self.assets {
                Some(a) => Some(a@),
                None => None,
            },
            sec: self.sec,
            db: match self.db {
                Some(d) => Some(d@),
                None => None,
            },
        }
    }
}

} // verus!
