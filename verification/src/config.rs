//! Server settings: their defaults, and how the settings of a configuration
//! file are merged into them, with every referenced path resolved and
//! checked.
//!
//! Paths are checked against a [`PathProbe`]: what is known of the file
//! system at each path. When a path is not in the probe the merge stops with
//! [`MergeError::Unprobed`]; the caller records what the file system says of
//! that path and merges again.
use vstd::prelude::*;
use vstd::string::*;
use crate::error::{Error, ErrorView, error_with, plain_view, string_views};
use crate::path::{pieces, split_pieces, views, resolve, resolve_spec, parent, parent_spec, join, join_spec, extension,
    extension_spec};
use crate::text::{chars_of, push_chars, chars_eq, trim_chars, trim_spec, string_of};

pub mod shape;

use shape::keyed_view;

use crate::net::addr::{SockAddr, IpAddress};

verus! {

/// The command line: configuration files to load, in order.
pub struct CliArgs {
    pub config: Vec<String>,
}

/// What exists at a path.
#[derive(PartialEq, Eq, Structural, Clone, Copy)]
pub enum PathKind {
    File,
    Directory,
    Other,
}

/// What looking up a path's metadata gave: something of a kind, nothing, or
/// a failure with its text.
pub enum Probe {
    Found(PathKind),
    Missing,
    Failed(String),
}

pub enum ProbeView {
    Found(PathKind),
    Missing,
    Failed(Seq<char>),
}

impl View for Probe {
    type V = ProbeView;

    open spec fn view(&self) -> ProbeView {
        match self {
            Probe::Found(k) => ProbeView::Found(*k),
            Probe::Missing => ProbeView::Missing,
            Probe::Failed(m) => ProbeView::Failed(m@),
        }
    }
}

/// What is known of the file system: the result of a metadata lookup for
/// each recorded path.
pub struct PathProbe {
    pub entries: Vec<(String, Probe)>,
}

impl View for PathProbe {
    type V = Seq<(Seq<char>, ProbeView)>;

    open spec fn view(&self) -> Seq<(Seq<char>, ProbeView)> {
        self.entries@.map_values(|e: (String, Probe)| (e.0@, e.1@))
    }
}

/// The first recorded result for `p`.
pub open spec fn probe_lookup(entries: Seq<(Seq<char>, ProbeView)>, p: Seq<char>) -> Option<ProbeView>
    decreases entries.len(),
{
    if entries.len() == 0 {
        None
    } else if entries[0].0 == p {
        Some(entries[0].1)
    } else {
        probe_lookup(entries.drop_first(), p)
    }
}

impl PathProbe {
    /// A probe that knows nothing.
    pub fn new() -> (r: Self)
        ensures
            r@ == Seq::<(Seq<char>, ProbeView)>::empty(),
    {
        let r = PathProbe { entries: Vec::new() };
        assert(r@ =~= Seq::<(Seq<char>, ProbeView)>::empty());
        r
    }

    /// Records what was found at `path`.
    pub fn record(&mut self, path: String, probe: Probe)
        ensures
            final(self)@ == old(self)@.push((path@, probe@)),
    {
        self.entries.push((path, probe));
        assert(self@ =~= old(self)@.push((path@, probe@)));
    }

    /// The first recorded result for `path`.
    pub fn lookup(&self, path: &String) -> (r: Option<&Probe>)
        ensures
            match r {
                None => probe_lookup(self@, path@) is None,
                Some(p) => probe_lookup(self@, path@) == Some(p@),
            },
    {
        let mut i: usize = 0;
        assert(self@.skip(0) =~= self@);
        while i < self.entries.len()
            invariant
                i <= self@.len(),
                self@.len() == self.entries@.len(),
                probe_lookup(self@, path@) == probe_lookup(self@.skip(i as int), path@),
            decreases self.entries.len() - i,
        {
            assert(self@.skip(i as int).drop_first() =~= self@.skip(i + 1));
            assert(self@.skip(i as int)[0] == self@[i as int]);
            if self.entries[i].0 == *path {
                return Some(&self.entries[i].1);
            }
            i = i + 1;
        }
        None
    }
}

/// Why a merge stopped: a path that the probe does not know yet, or an error
/// in the settings.
pub enum MergeError {
    Unprobed(String),
    Invalid(Error),
}

pub enum MergeErrorView {
    Unprobed(Seq<char>),
    Invalid(ErrorView),
}

impl View for MergeError {
    type V = MergeErrorView;

    open spec fn view(&self) -> MergeErrorView {
        match self {
            MergeError::Unprobed(p) => MergeErrorView::Unprobed(p@),
            MergeError::Invalid(e) => MergeErrorView::Invalid(e@),
        }
    }
}

/// The view of a path result.
pub open spec fn path_result(r: Result<String, MergeError>) -> Result<Seq<char>, MergeErrorView> {
    match r {
        Ok(p) => Ok(p@),
        Err(e) => Err(e@),
    }
}

/// A configuration file being merged: its path and the directory that holds
/// it, against which relative paths in the file are resolved.
pub struct SrcFile {
    pub parent: String,
    pub src: String,
}

pub struct SrcView {
    pub parent: Seq<char>,
    pub src: Seq<char>,
}

impl View for SrcFile {
    type V = SrcView;

    open spec fn view(&self) -> SrcView {
        SrcView { parent: self.parent@, src: self.src@ }
    }
}

/// `s` between double quotes.
pub open spec fn quoted(s: Seq<char>) -> Seq<char> {
    "\""@ + s + "\""@
}

/// `s` between double quotes.
pub fn quote(s: &str) -> (r: String)
    ensures
        r@ == quoted(s@),
{
    let mut r = String::from_str("\"");
    r.append(s);
    r.append("\"");
    r
}

impl SrcFile {
    /// The file at `src`, which must have a parent directory.
    pub fn new(src: &str) -> (r: Result<SrcFile, Error>)
        ensures
            match r {
                Ok(f) => parent_spec(src@) == Some(f.parent@) && f.src@ == src@,
                Err(e) => parent_spec(src@) is None && e@ == plain_view(
                    "failed to retrieve parent path from source file "@ + quoted(src@),
                    None,
                ),
            },
    {
        match parent(src) {
            Some(p) => Ok(SrcFile { parent: p, src: src.to_owned() }),
            None => {
                let mut m = String::from_str("failed to retrieve parent path from source file ");
                let q = quote(src);
                m.append(q.as_str());
                Err(error_with(m, None))
            },
        }
    }
}

/// The names that lead from the top of the settings to a setting.
pub struct DotPath(pub Vec<String>);

impl View for DotPath {
    type V = Seq<Seq<char>>;

    open spec fn view(&self) -> Seq<Seq<char>> {
        string_views(self.0@)
    }
}

/// Names joined with `.`.
pub open spec fn dot_text(ns: Seq<Seq<char>>) -> Seq<char>
    decreases ns.len(),
{
    if ns.len() == 0 {
        Seq::empty()
    } else if ns.len() == 1 {
        ns[0]
    } else {
        dot_text(ns.drop_last()) + "."@ + ns.last()
    }
}

impl DotPath {
    /// The path of a single name.
    pub fn new(name: &str) -> (r: Self)
        ensures
            r@ == seq![name@],
    {
        let r = DotPath(vec![name.to_owned()]);
        assert(r@ =~= seq![name@]);
        r
    }

    /// This path followed by `name`.
    pub fn push(&self, name: &str) -> (r: Self)
        ensures
            r@ == self@.push(name@),
    {
        let mut v: Vec<String> = Vec::new();
        let mut i: usize = 0;
        while i < self.0.len()
            invariant
                i <= self.0@.len(),
                string_views(v@) == self@.take(i as int),
                self@ == string_views(self.0@),
            decreases self.0.len() - i,
        {
            let c = self.0[i].clone();
            assert(c@ == self@[i as int]);
            let ghost before = v@;
            v.push(c);
            proof {
                assert(v@ == before.push(c));
                assert(string_views(before).len() == before.len());
                assert(string_views(v@) =~= string_views(before).push(c@));
                assert(self@.take(i + 1) =~= self@.take(i as int).push(self@[i as int]));
            }
            i = i + 1;
        }
        v.push(name.to_owned());
        let r = DotPath(v);
        assert(self@.take(self@.len() as int) =~= self@);
        assert(r@ =~= self@.push(name@));
        r
    }

    /// The names joined with `.`.
    pub fn to_text(&self) -> (r: String)
        ensures
            r@ == dot_text(self@),
    {
        let mut s = String::new();
        let mut i: usize = 0;
        assert(dot_text(self@.take(0)) =~= Seq::<char>::empty());
        while i < self.0.len()
            invariant
                i <= self.0@.len(),
                s@ == dot_text(self@.take(i as int)),
            decreases self.0.len() - i,
        {
            assert(self@.take(i + 1).drop_last() =~= self@.take(i as int));
            if i > 0 {
                s.append(".");
            } else {
                assert(s@ =~= Seq::<char>::empty());
            }
            s.append(self.0[i].as_str());
            i = i + 1;
            assert(i == 1 ==> s@ =~= self@.take(1)[0]);
        }
        assert(self@.take(self@.len() as int) =~= self@);
        s
    }
}

/// Where a configured path points, and whether it may be used: it must
/// exist and be a file (`is_file`) or a directory.
pub open spec fn check_path_spec(
    given: Seq<char>,
    src: SrcView,
    dot: Seq<Seq<char>>,
    is_file: bool,
    probe: Seq<(Seq<char>, ProbeView)>,
) -> Result<Seq<char>, MergeErrorView> {
    let full = resolve_spec(src.parent, given);
    let d = dot_text(dot);
    let q = quoted(src.src);
    match probe_lookup(probe, full) {
        None => Err(MergeErrorView::Unprobed(full)),
        Some(ProbeView::Failed(m)) => Err(MergeErrorView::Invalid(
            plain_view(d + " failed to retrieve metadata for: "@ + q, Some(m)),
        )),
        Some(ProbeView::Missing) => Err(MergeErrorView::Invalid(
            plain_view(d + " "@ + q + " was not found"@, None),
        )),
        Some(ProbeView::Found(k)) => if is_file {
            if k == PathKind::File {
                Ok(full)
            } else {
                Err(MergeErrorView::Invalid(plain_view(d + " is not a file in: "@ + q, None)))
            }
        } else {
            if k == PathKind::Directory {
                Ok(full)
            } else {
                Err(MergeErrorView::Invalid(plain_view(d + " is not a directory in: "@ + q, None)))
            }
        },
    }
}

fn dot_message(dot: &DotPath, middle: &str, q: &String) -> (r: String)
    ensures
        r@ == dot_text(dot@) + middle@ + q@,
{
    let mut m = dot.to_text();
    m.append(middle);
    m.append(q.as_str());
    m
}

/// Resolves a configured path against the directory of its configuration
/// file and checks it (see [`check_path_spec`]).
pub fn check_path(given: &str, src: &SrcFile, dot: &DotPath, is_file: bool, probe: &PathProbe) -> (r:
    Result<String, MergeError>)
    ensures
        path_result(r) == check_path_spec(given@, src@, dot@, is_file, probe@),
{
    let full = resolve(src.parent.as_str(), given);
    let q = quote(src.src.as_str());
    match probe.lookup(&full) {
        None => Err(MergeError::Unprobed(full)),
        Some(Probe::Failed(m)) => {
            let msg = dot_message(dot, " failed to retrieve metadata for: ", &q);
            Err(MergeError::Invalid(error_with(msg, Some(m.clone()))))
        },
        Some(Probe::Missing) => {
            let mut msg = dot.to_text();
            msg.append(" ");
            msg.append(q.as_str());
            msg.append(" was not found");
            Err(MergeError::Invalid(error_with(msg, None)))
        },
        Some(Probe::Found(k)) => {
            if is_file {
                if *k == PathKind::File {
                    Ok(full)
                } else {
                    let msg = dot_message(dot, " is not a file in: ", &q);
                    Err(MergeError::Invalid(error_with(msg, None)))
                }
            } else {
                if *k == PathKind::Directory {
                    Ok(full)
                } else {
                    let msg = dot_message(dot, " is not a directory in: ", &q);
                    Err(MergeError::Invalid(error_with(msg, None)))
                }
            }
        },
    }
}


/// The state reached by a merge: the merged value, or the partly merged
/// value together with the reason the merge stopped.
pub open spec fn outcome<V>(r: Result<(), MergeError>, v: V) -> Result<V, (V, MergeErrorView)> {
    match r {
        Ok(_) => Ok(v),
        Err(e) => Err((v, e@)),
    }
}

/// The hash used to sign session tokens.
#[derive(PartialEq, Eq, Structural, Clone, Copy)]
pub enum Hash {
    Blake3,
    HS256,
    HS384,
    HS512,
}

/// The session hash that a configured hash names.
pub open spec fn hash_from_shape(h: shape::Hash) -> Hash {
    match h {
        shape::Hash::Blake3 => Hash::Blake3,
        shape::Hash::HS256 => Hash::HS256,
        shape::Hash::HS384 => Hash::HS384,
        shape::Hash::HS512 => Hash::HS512,
    }
}

/// Where secrets are kept.
#[derive(PartialEq, Eq, Structural, Clone, Copy)]
pub enum Secrets {
    Local,
}

impl Default for Secrets {
    /// Secrets are kept locally.
    fn default() -> (r: Self)
        ensures
            r == Secrets::Local,
    {
        Secrets::Local
    }
}

/// Session settings.
#[derive(PartialEq, Eq, Structural, Clone, Copy)]
pub struct Session {
    pub hash: Hash,
    pub secure: bool,
}

impl Default for Session {
    /// Blake3 signed, secure cookies.
    fn default() -> (r: Self)
        ensures
            r == (Session { hash: Hash::Blake3, secure: true }),
    {
        Session { hash: Hash::Blake3, secure: true }
    }
}

/// Session settings after merging `sh`: each setting it names replaces the
/// current one.
pub open spec fn session_merge_spec(s: Session, sh: shape::Session) -> Session {
    Session {
        hash: match sh.hash {
            Some(h) => hash_from_shape(h),
            None => s.hash,
        },
        secure: match sh.secure {
            Some(b) => b,
            None => s.secure,
        },
    }
}

impl Session {
    /// Merges the session settings of a configuration file.
    pub fn merge(&mut self, _src: &SrcFile, _dot: &DotPath, session: shape::Session) -> (r: Result<
        (),
        MergeError,
    >)
        ensures
            r is Ok,
            *final(self) == session_merge_spec(*old(self), session),
    {
        if let Some(hash) = session.hash {
            self.hash = match hash {
                shape::Hash::Blake3 => Hash::Blake3,
                shape::Hash::HS256 => Hash::HS256,
                shape::Hash::HS384 => Hash::HS384,
                shape::Hash::HS512 => Hash::HS512,
            };
        }
        if let Some(secure) = session.secure {
            self.secure = secure;
        }
        Ok(())
    }
}

/// Security settings.
#[derive(PartialEq, Eq, Structural, Clone, Copy)]
pub struct Sec {
    pub session: Session,
    pub secrets: Secrets,
}

impl Default for Sec {
    /// Default session settings, local secrets.
    fn default() -> (r: Self)
        ensures
            r == (Sec { session: Session { hash: Hash::Blake3, secure: true }, secrets: Secrets::Local }),
    {
        Sec { session: Session::default(), secrets: Secrets::default() }
    }
}

/// Security settings after merging `sh`: only the session settings are
/// merged; a `secrets` entry is ignored.
pub open spec fn sec_merge_spec(s: Sec, sh: shape::Sec) -> Sec {
    match sh.session {
        Some(session) => Sec { session: session_merge_spec(s.session, session), secrets: s.secrets },
        None => s,
    }
}

impl Sec {
    /// Merges the security settings of a configuration file.
    pub fn merge(&mut self, src: &SrcFile, dot: &DotPath, sec: shape::Sec) -> (r: Result<(), MergeError>)
        ensures
            r is Ok,
            *final(self) == sec_merge_spec(*old(self), sec),
    {
        if let Some(session) = sec.session {
            let d = dot.push("session");
            let _ = self.session.merge(src, &d, session);
        }
        Ok(())
    }
}

/// The key and certificate files of a TLS listener.
pub struct Tls {
    pub key: String,
    pub cert: String,
}

impl View for Tls {
    type V = shape::TlsView;

    open spec fn view(&self) -> shape::TlsView {
        shape::TlsView { key: self.key@, cert: self.cert@ }
    }
}

impl Default for Tls {
    /// Empty key and certificate paths.
    fn default() -> (r: Self)
        ensures
            r@ == (shape::TlsView { key: Seq::empty(), cert: Seq::empty() }),
    {
        Tls { key: String::new(), cert: String::new() }
    }
}

/// TLS settings after merging `sh`: both files must exist.
pub open spec fn tls_merge_spec(
    t: shape::TlsView,
    src: SrcView,
    dot: Seq<Seq<char>>,
    sh: shape::TlsView,
    probe: Seq<(Seq<char>, ProbeView)>,
) -> Result<shape::TlsView, (shape::TlsView, MergeErrorView)> {
    match check_path_spec(sh.key, src, dot.push("key"@), true, probe) {
        Err(e) => Err((t, e)),
        Ok(k) => {
            let t1 = shape::TlsView { key: k, cert: t.cert };
            match check_path_spec(sh.cert, src, dot.push("cert"@), true, probe) {
                Err(e) => Err((t1, e)),
                Ok(c) => Ok(shape::TlsView { key: k, cert: c }),
            }
        },
    }
}

impl Tls {
    /// Merges the TLS settings of a configuration file.
    pub fn merge(&mut self, src: &SrcFile, dot: &DotPath, tls: shape::Tls, probe: &PathProbe) -> (r:
        Result<(), MergeError>)
        ensures
            tls_merge_spec(old(self)@, src@, dot@, tls@, probe@) == outcome(r, final(self)@),
    {
        let d = dot.push("key");
        match check_path(tls.key.as_str(), src, &d, true, probe) {
            Err(e) => {
                return Err(e);
            },
            Ok(k) => {
                self.key = k;
            },
        }
        let d = dot.push("cert");
        match check_path(tls.cert.as_str(), src, &d, true, probe) {
            Err(e) => Err(e),
            Ok(c) => {
                self.cert = c;
                Ok(())
            },
        }
    }
}

/// Template settings.
pub struct Templates {
    pub dev_mode: bool,
    pub directory: String,
}

pub struct TemplatesView {
    pub dev_mode: bool,
    pub directory: Seq<char>,
}

impl View for Templates {
    type V = TemplatesView;

    open spec fn view(&self) -> TemplatesView {
        TemplatesView { dev_mode: self.dev_mode, directory: self.directory@ }
    }
}

/// Template settings after merging `sh`; the directory must exist.
pub open spec fn templates_merge_spec(
    t: TemplatesView,
    src: SrcView,
    dot: Seq<Seq<char>>,
    sh: shape::TemplatesView,
    probe: Seq<(Seq<char>, ProbeView)>,
) -> Result<TemplatesView, (TemplatesView, MergeErrorView)> {
    let t1 = match sh.dev_mode {
        Some(b) => TemplatesView { dev_mode: b, directory: t.directory },
        None => t,
    };
    match sh.directory {
        None => Ok(t1),
        Some(d) => match check_path_spec(d, src, dot.push("directory"@), false, probe) {
            Err(e) => Err((t1, e)),
            Ok(p) => Ok(TemplatesView { dev_mode: t1.dev_mode, directory: p }),
        },
    }
}

impl Templates {
    /// Default templates for the working directory `cwd`: no dev mode, the
    /// `templates` directory under `cwd`.
    pub fn default_in(cwd: &str) -> (r: Self)
        ensures
            r@ == (TemplatesView { dev_mode: false, directory: join_spec(cwd@, "templates"@) }),
    {
        Templates { dev_mode: false, directory: join(cwd, "templates") }
    }

    /// Merges the template settings of a configuration file.
    pub fn merge(&mut self, src: &SrcFile, dot: &DotPath, templates: shape::Templates, probe: &PathProbe) -> (r:
        Result<(), MergeError>)
        ensures
            templates_merge_spec(old(self)@, src@, dot@, templates@, probe@) == outcome(r, final(self)@),
    {
        if let Some(dev_mode) = templates.dev_mode {
            self.dev_mode = dev_mode;
        }
        match templates.directory {
            None => Ok(()),
            Some(directory) => {
                let d = dot.push("directory");
                match check_path(directory.as_str(), src, &d, false, probe) {
                    Err(e) => Err(e),
                    Ok(p) => {
                        self.directory = p;
                        Ok(())
                    },
                }
            },
        }
    }
}

/// Database connection settings.
pub struct Db {
    pub user: String,
    pub password: Option<String>,
    pub host: String,
    pub port: u16,
    pub dbname: String,
}

pub struct DbView {
    pub user: Seq<char>,
    pub password: Option<Seq<char>>,
    pub host: Seq<char>,
    pub port: u16,
    pub dbname: Seq<char>,
}

impl View for Db {
    type V = DbView;

    open spec fn view(&self) -> DbView {
        DbView {
            user: self.user@,
            password: shape::opt_view(self.password),
            host: self.host@,
            port: self.port,
            dbname: self.dbname@,
        }
    }
}

impl Default for Db {
    /// `postgres@localhost:5432/rfs` without a password.
    fn default() -> (r: Self)
        ensures
            r@ == (DbView {
                user: "postgres"@,
                password: None,
                host: "localhost"@,
                port: 5432,
                dbname: "rfs"@,
            }),
    {
        Db {
            user: String::from_str("postgres"),
            password: None,
            host: String::from_str("localhost"),
            port: 5432,
            dbname: String::from_str("rfs"),
        }
    }
}

/// Database settings after merging `sh`: each setting it names replaces the
/// current one.
pub open spec fn db_merge_spec(d: DbView, sh: shape::DbView) -> DbView {
    DbView {
        user: match sh.user {
            Some(u) => u,
            None => d.user,
        },
        password: match sh.password {
            Some(p) => Some(p),
            None => d.password,
        },
        host: match sh.host {
            Some(h) => h,
            None => d.host,
        },
        port: match sh.port {
            Some(p) => p,
            None => d.port,
        },
        dbname: match sh.dbname {
            Some(n) => n,
            None => d.dbname,
        },
    }
}

impl Db {
    /// Merges the database settings of a configuration file.
    pub fn merge(&mut self, _src: &SrcFile, _dot: &DotPath, db: shape::Db) -> (r: Result<(), MergeError>)
        ensures
            r is Ok,
            final(self)@ == db_merge_spec(old(self)@, db@),
    {
        if let Some(user) = db.user {
            self.user = user;
        }
        if let Some(password) = db.password {
            self.password = Some(password);
        }
        if let Some(host) = db.host {
            self.host = host;
        }
        if let Some(port) = db.port {
            self.port = port;
        }
        if let Some(dbname) = db.dbname {
            self.dbname = dbname;
        }
        Ok(())
    }
}


/// The address a listener's `addr` setting names: the socket address it
/// parses to, or else the IP address it parses to, on port 8080.
pub open spec fn listen_addr_spec(socket: Option<SockAddr>, ip: Option<IpAddress>) -> Option<SockAddr> {
    match socket {
        Some(a) => Some(a),
        None => match ip {
            Some(IpAddress::V4(ip)) => Some(SockAddr::V4 { ip, port: 8080 }),
            Some(IpAddress::V6(ip)) => Some(SockAddr::V6 { ip, port: 8080, flowinfo: 0, scope_id: 0 }),
            None => None,
        },
    }
}

/// The address a listener's `addr` setting names (see [`listen_addr_spec`]).
pub fn listen_addr(socket: Option<SockAddr>, ip: Option<IpAddress>) -> (r: Option<SockAddr>)
    ensures
        r == listen_addr_spec(socket, ip),
{
    match socket {
        Some(a) => Some(a),
        None => match ip {
            Some(IpAddress::V4(ip)) => Some(SockAddr::V4 { ip, port: 8080 }),
            Some(IpAddress::V6(ip)) => Some(SockAddr::V6 { ip, port: 8080, flowinfo: 0, scope_id: 0 }),
            None => None,
        },
    }
}

/// A socket listener.
pub struct Listener {
    pub addr: SockAddr,
    pub tls: Option<Tls>,
}

pub struct ListenerView {
    pub addr: SockAddr,
    pub tls: Option<shape::TlsView>,
}

impl View for Listener {
    type V = ListenerView;

    open spec fn view(&self) -> ListenerView {
        ListenerView {
            addr: self.addr,
            tls: match self.tls {
                Some(t) => Some(t@),
                None => None,
            },
        }
    }
}

/// The listener used for a name that no earlier file configured: every
/// IPv6 and IPv4 interface, port 8080, no TLS.
pub open spec fn listener_default_view() -> ListenerView {
    ListenerView { addr: SockAddr::V6 { ip: 0, port: 8080, flowinfo: 0, scope_id: 0 }, tls: None }
}

impl Default for Listener {
    /// See [`listener_default_view`].
    fn default() -> (r: Self)
        ensures
            r@ == listener_default_view(),
    {
        Listener { addr: SockAddr::V6 { ip: 0, port: 8080, flowinfo: 0, scope_id: 0 }, tls: None }
    }
}

/// The error for an address that is neither a socket address nor an IP
/// address.
pub open spec fn addr_error(dot: Seq<Seq<char>>, addr: Seq<char>, src: SrcView) -> ErrorView {
    plain_view(dot_text(dot) + ".addr invalid: \""@ + addr + "\" file: "@ + quoted(src.src), None)
}

/// A listener after merging `sh`: its address is replaced, and its TLS
/// settings are merged into the current ones (or into empty ones, kept only
/// when the merge succeeds).
pub open spec fn listener_merge_spec(
    l: ListenerView,
    src: SrcView,
    dot: Seq<Seq<char>>,
    sh: shape::ListenerView,
    probe: Seq<(Seq<char>, ProbeView)>,
) -> Result<ListenerView, (ListenerView, MergeErrorView)> {
    match listen_addr_spec(sh.socket, sh.ip) {
        None => Err((l, MergeErrorView::Invalid(addr_error(dot, sh.addr, src)))),
        Some(addr) => {
            let l1 = ListenerView { addr, tls: l.tls };
            match sh.tls {
                None => Ok(l1),
                Some(t) => {
                    let base = match l1.tls {
                        Some(x) => x,
                        None => shape::TlsView { key: Seq::empty(), cert: Seq::empty() },
                    };
                    match tls_merge_spec(base, src, dot.push("tls"@), t, probe) {
                        Ok(t2) => Ok(ListenerView { addr, tls: Some(t2) }),
                        Err((t2, e)) => if l1.tls is Some {
                            Err((ListenerView { addr, tls: Some(t2) }, e))
                        } else {
                            Err((l1, e))
                        },
                    }
                },
            }
        },
    }
}

impl Listener {
    /// Merges the settings of one listener of a configuration file.
    pub fn merge(&mut self, src: &SrcFile, dot: &DotPath, listener: shape::Listener, probe: &PathProbe) -> (r:
        Result<(), MergeError>)
        ensures
            listener_merge_spec(old(self)@, src@, dot@, listener@, probe@) == outcome(r, final(self)@),
    {
        match listen_addr(listener.socket, listener.ip) {
            None => {
                let mut m = dot.to_text();
                m.append(".addr invalid: \"");
                m.append(listener.addr.as_str());
                m.append("\" file: ");
                let q = quote(src.src.as_str());
                m.append(q.as_str());
                return Err(MergeError::Invalid(error_with(m, None)));
            },
            Some(a) => {
                self.addr = a;
            },
        }
        match listener.tls {
            None => Ok(()),
            Some(tls) => {
                let d = dot.push("tls");
                match self.tls.take() {
                    Some(mut inner) => {
                        let r = inner.merge(src, &d, tls, probe);
                        self.tls = Some(inner);
                        r
                    },
                    None => {
                        let mut fresh = Tls::default();
                        match fresh.merge(src, &d, tls, probe) {
                            Ok(()) => {
                                self.tls = Some(fresh);
                                Ok(())
                            },
                            Err(e) => Err(e),
                        }
                    },
                }
            },
        }
    }
}


/// What parsing a text as a URL with `url::Url::parse` gives: the URL's
/// path (`Url::path`), or the debug text of the parse error.
pub uninterp spec fn url_parse_path(input: Seq<char>) -> Result<Seq<char>, Seq<char>>;

/// Parses a URL with `url::Url::parse` and takes its path.
///
/// Trusted: the result is the parsed URL's path, or the debug text of the
/// parse error, as the name [`url_parse_path`] says; nothing is stated of
/// which texts parse or of how the path is normalized.
#[verifier::external_body]
fn parse_url_path(input: &str) -> (r: Result<String, String>)
    ensures
        match r {
            Ok(p) => url_parse_path(input@) == Ok::<Seq<char>, Seq<char>>(p@),
            Err(m) => url_parse_path(input@) == Err::<Seq<char>, Seq<char>>(m@),
        },
{
    match url::Url::parse(input) {
        Ok(u) => Ok(u.path().to_string()),
        Err(e) => Err(format!("{:?}", e)),
    }
}

/// A path segment that refers to the current or the parent directory.
pub open spec fn is_dot_segment(p: Seq<char>) -> bool {
    p == seq!['.'] || p == seq!['.', '.']
}

/// Whether one of the segments is `.` or `..`.
pub open spec fn has_dot_segment(segs: Seq<Seq<char>>) -> bool {
    exists|k: int| 0 <= k < segs.len() && is_dot_segment(#[trigger] segs[k])
}

/// The segments of a URL path (`Url::path_segments`): the pieces after the
/// leading `/`; none for a path without one.
pub open spec fn url_segments(path: Seq<char>) -> Seq<Seq<char>> {
    if path.len() > 0 && path[0] == '/' {
        pieces(path.drop_first())
    } else {
        Seq::empty()
    }
}

/// The error for an asset url path that is not accepted.
pub open spec fn url_error_text(given: Seq<char>, src: SrcView, dot: Seq<Seq<char>>) -> Seq<char> {
    dot_text(dot) + " \""@ + given + "\" is not a valid url path. file: "@ + quoted(src.src)
}

/// The url path under which an asset is served: the trimmed text, with a
/// leading `/` added when it has none. It must parse as the path of a URL on
/// the local host, and none of the parsed segments may be `.` or `..`.
pub open spec fn check_url_spec(given: Seq<char>, src: SrcView, dot: Seq<Seq<char>>) -> Result<
    Seq<char>,
    MergeErrorView,
> {
    let t = trim_spec(given);
    let abs = t.len() > 0 && t[0] == '/';
    let rtn = if abs { t } else { seq!['/'] + t };
    let to_parse = if abs { "http://localhost"@ + t } else { "http://locahost/"@ + t };
    match url_parse_path(to_parse) {
        Err(m) => Err(MergeErrorView::Invalid(plain_view(url_error_text(given, src, dot), Some(m)))),
        Ok(path) => {
            if has_dot_segment(url_segments(path)) {
                Err(MergeErrorView::Invalid(plain_view(url_error_text(given, src, dot), None)))
            } else {
                Ok(rtn)
            }
        },
    }
}

/// Checks the url path of an asset (see [`check_url_spec`]).
pub fn check_url(given: &str, src: &SrcFile, dot: &DotPath) -> (r: Result<String, MergeError>)
    ensures
        path_result(r) == check_url_spec(given@, src@, dot@),
{
    let gs = chars_of(given);
    let t = trim_chars(&gs);
    let abs = t.len() > 0 && t[0] == '/';
    let mut rtn = String::new();
    if !abs {
        crate::text::push_char(&mut rtn, '/');
    }
    push_chars(&mut rtn, &t);
    let mut to_parse = if abs { String::from_str("http://localhost") } else { String::from_str(
        "http://locahost/",
    ) };
    push_chars(&mut to_parse, &t);
    let mut msg = dot.to_text();
    msg.append(" \"");
    msg.append(given);
    msg.append("\" is not a valid url path. file: ");
    let q = quote(src.src.as_str());
    msg.append(q.as_str());
    match parse_url_path(to_parse.as_str()) {
        Err(m) => Err(MergeError::Invalid(error_with(msg, Some(m)))),
        Ok(path) => {
            if url_path_has_dot_segment(path.as_str()) {
                Err(MergeError::Invalid(error_with(msg, None)))
            } else {
                assert(rtn@ =~= (if abs { t@ } else { seq!['/'] + t@ }));
                Ok(rtn)
            }
        },
    }
}

/// Whether a parsed URL path has a `.` or `..` segment (see
/// [`url_segments`]).
pub fn url_path_has_dot_segment(path: &str) -> (r: bool)
    ensures
        r == has_dot_segment(url_segments(path@)),
{
    let ps = chars_of(path);
    let ghost segs = url_segments(path@);
    let parts: Vec<Vec<char>> = if ps.len() > 0 && ps[0] == '/' {
        let mut rest: Vec<char> = Vec::new();
        let mut k: usize = 1;
        while k < ps.len()
            invariant
                1 <= k <= ps@.len(),
                rest@ == ps@.subrange(1, k as int),
            decreases ps.len() - k,
        {
            rest.push(ps[k]);
            k = k + 1;
            assert(rest@ =~= ps@.subrange(1, k as int));
        }
        assert(rest@ =~= ps@.drop_first());
        split_pieces(&rest)
    } else {
        let e: Vec<Vec<char>> = Vec::new();
        assert(views(e@) =~= Seq::<Seq<char>>::empty());
        e
    };
    let dot1: Vec<char> = vec!['.'];
    let dot2: Vec<char> = vec!['.', '.'];
    assert(dot1@ =~= seq!['.']);
    assert(dot2@ =~= seq!['.', '.']);
    let mut i: usize = 0;
    while i < parts.len()
        invariant
            i <= parts@.len(),
            views(parts@) == segs,
            segs == url_segments(path@),
            dot1@ == seq!['.'],
            dot2@ == seq!['.', '.'],
            forall|k: int| 0 <= k < i ==> !is_dot_segment(#[trigger] segs[k]),
        decreases parts.len() - i,
    {
        assert(segs[i as int] == parts@[i as int]@);
        if chars_eq(&parts[i], &dot1) || chars_eq(&parts[i], &dot2) {
            assert(is_dot_segment(segs[i as int]));
            return true;
        }
        i = i + 1;
    }
    false
}


/// The index of the first entry named `k`, or -1.
pub open spec fn first_key<V>(m: Seq<(Seq<char>, V)>, k: Seq<char>) -> int
    decreases m.len(),
{
    if m.len() == 0 {
        -1
    } else if m[0].0 == k {
        0
    } else {
        let r = first_key(m.drop_first(), k);
        if r < 0 {
            -1
        } else {
            r + 1
        }
    }
}

proof fn lemma_first_key<V>(m: Seq<(Seq<char>, V)>, k: Seq<char>, i: int)
    requires
        0 <= i <= m.len(),
        forall|j: int| 0 <= j < i ==> (#[trigger] m[j]).0 != k,
        i < m.len() ==> m[i].0 == k,
    ensures
        i < m.len() ==> first_key(m, k) == i,
        i == m.len() ==> first_key(m, k) == -1,
    decreases i,
{
    if i > 0 {
        let t = m.drop_first();
        assert forall|j: int| 0 <= j < i - 1 implies (#[trigger] t[j]).0 != k by {
            assert(t[j] == m[j + 1]);
        }
        if i < m.len() {
            assert(t[i - 1] == m[i]);
        }
        lemma_first_key(t, k, i - 1);
        assert(m[0].0 != k);
    }
}

/// The entry named `key`, if any.
pub fn find_key<V: View>(v: &Vec<(String, V)>, key: &String) -> (r: Option<usize>)
    ensures
        match r {
            None => first_key(keyed_view(v@), key@) == -1,
            Some(i) => first_key(keyed_view(v@), key@) == i && i < v@.len() && keyed_view(v@)[i as int].0
                == key@,
        },
{
    let ghost m = keyed_view(v@);
    let mut i: usize = 0;
    while i < v.len()
        invariant
            i <= v@.len(),
            m == keyed_view(v@),
            forall|j: int| 0 <= j < i ==> (#[trigger] m[j]).0 != key@,
        decreases v.len() - i,
    {
        assert(m[i as int].0 == v@[i as int].0@);
        if v[i].0 == *key {
            proof {
                lemma_first_key(m, key@, i as int);
            }
            return Some(i);
        }
        i = i + 1;
    }
    proof {
        lemma_first_key(m, key@, i as int);
    }
    None
}

/// `m` with the value of the first entry named `k` replaced, or with an
/// entry `(k, v)` added at the end when none is named `k`.
pub open spec fn set_key<V>(m: Seq<(Seq<char>, V)>, k: Seq<char>, v: V) -> Seq<(Seq<char>, V)> {
    let i = first_key(m, k);
    if i >= 0 {
        m.update(i, (k, v))
    } else {
        m.push((k, v))
    }
}

/// One asset entry merged into a list of assets: its url path and its path
/// are checked, then the entry is set.
pub open spec fn asset_step(
    m: Seq<(Seq<char>, Seq<char>)>,
    src: SrcView,
    group: Seq<Seq<char>>,
    item: (Seq<char>, Seq<char>),
    is_file: bool,
    probe: Seq<(Seq<char>, ProbeView)>,
) -> Result<Seq<(Seq<char>, Seq<char>)>, (Seq<(Seq<char>, Seq<char>)>, MergeErrorView)> {
    let d = group.push(quoted(item.0));
    match check_url_spec(item.0, src, d) {
        Err(e) => Err((m, e)),
        Ok(k) => match check_path_spec(item.1, src, d, is_file, probe) {
            Err(e) => Err((m, e)),
            Ok(p) => Ok(set_key(m, k, p)),
        },
    }
}

/// Asset entries merged one after the other, stopping at the first error.
pub open spec fn assets_fold(
    m: Seq<(Seq<char>, Seq<char>)>,
    src: SrcView,
    group: Seq<Seq<char>>,
    items: Seq<(Seq<char>, Seq<char>)>,
    is_file: bool,
    probe: Seq<(Seq<char>, ProbeView)>,
) -> Result<Seq<(Seq<char>, Seq<char>)>, (Seq<(Seq<char>, Seq<char>)>, MergeErrorView)>
    decreases items.len(),
{
    if items.len() == 0 {
        Ok(m)
    } else {
        match asset_step(m, src, group, items[0], is_file, probe) {
            Err(x) => Err(x),
            Ok(m1) => assets_fold(m1, src, group, items.drop_first(), is_file, probe),
        }
    }
}

/// The outcome of a merge into a list of named values.
pub open spec fn list_outcome<V: View>(r: Result<(), MergeError>, v: Seq<(String, V)>) -> Result<
    Seq<(Seq<char>, V::V)>,
    (Seq<(Seq<char>, V::V)>, MergeErrorView),
> {
    outcome(r, keyed_view(v))
}

fn merge_pairs(
    m: &mut Vec<(String, String)>,
    src: &SrcFile,
    group: &DotPath,
    items: Vec<(String, String)>,
    is_file: bool,
    probe: &PathProbe,
) -> (r: Result<(), MergeError>)
    ensures
        assets_fold(keyed_view(old(m)@), src@, group@, keyed_view(items@), is_file, probe@)
            == list_outcome(r, final(m)@),
{
    let ghost all = keyed_view(items@);
    let mut rest = items;
    let ghost mut i: int = 0;
    assert(keyed_view(rest@) =~= all.skip(0));
    while rest.len() > 0
        invariant
            0 <= i <= all.len(),
            all == keyed_view(items@),
            keyed_view(rest@) == all.skip(i),
            assets_fold(keyed_view(old(m)@), src@, group@, all, is_file, probe@) == assets_fold(
                keyed_view(m@),
                src@,
                group@,
                keyed_view(rest@),
                is_file,
                probe@,
            ),
        decreases rest.len(),
    {
        let ghost rv = keyed_view(rest@);
        let ghost mv = keyed_view(m@);
        let item = rest.remove(0);
        assert(keyed_view(rest@) =~= rv.drop_first());
        assert(rv[0] == (item.0@, item.1@));
        let q = quote(item.0.as_str());
        let d = group.push(q.as_str());
        assert(d@ == group@.push(quoted(rv[0].0)));
        match check_url(item.0.as_str(), src, &d) {
            Err(e) => {
                return Err(e);
            },
            Ok(key) => match check_path(item.1.as_str(), src, &d, is_file, probe) {
                Err(e) => {
                    return Err(e);
                },
                Ok(p) => {
                    let ghost kv = key@;
                    let ghost pv = p@;
                    match find_key(m, &key) {
                        Some(j) => {
                            m.set(j, (key, p));
                            assert(keyed_view(m@) =~= mv.update(j as int, (kv, pv)));
                        },
                        None => {
                            m.push((key, p));
                            assert(keyed_view(m@) =~= mv.push((kv, pv)));
                        },
                    }
                },
            },
        }
        proof {
            i = i + 1;
        }
        assert(all.skip(i) =~= all.skip(i - 1).drop_first());
    }
    Ok(())
}

/// Static assets: url paths mapped to files and to directories.
pub struct Assets {
    pub files: Vec<(String, String)>,
    pub directories: Vec<(String, String)>,
}

pub struct AssetsView {
    pub files: Seq<(Seq<char>, Seq<char>)>,
    pub directories: Seq<(Seq<char>, Seq<char>)>,
}

impl View for Assets {
    type V = AssetsView;

    open spec fn view(&self) -> AssetsView {
        AssetsView { files: keyed_view(self.files@), directories: keyed_view(self.directories@) }
    }
}

impl Default for Assets {
    /// No assets.
    fn default() -> (r: Self)
        ensures
            r@ == (AssetsView { files: Seq::empty(), directories: Seq::empty() }),
    {
        let r = Assets { files: Vec::new(), directories: Vec::new() };
        assert(r@.files =~= Seq::<(Seq<char>, Seq<char>)>::empty());
        assert(r@.directories =~= Seq::<(Seq<char>, Seq<char>)>::empty());
        r
    }
}

/// Assets after merging `sh`: file entries first (each must name a file),
/// then directory entries (each must name a directory).
pub open spec fn assets_merge_spec(
    a: AssetsView,
    src: SrcView,
    dot: Seq<Seq<char>>,
    sh: shape::AssetsView,
    probe: Seq<(Seq<char>, ProbeView)>,
) -> Result<AssetsView, (AssetsView, MergeErrorView)> {
    let f = match sh.files {
        None => Ok(a),
        Some(items) => match assets_fold(a.files, src, dot.push("files"@), items, true, probe) {
            Ok(m) => Ok(AssetsView { files: m, directories: a.directories }),
            Err((m, e)) => Err((AssetsView { files: m, directories: a.directories }, e)),
        },
    };
    match f {
        Err(x) => Err(x),
        Ok(a1) => match sh.directories {
            None => Ok(a1),
            Some(items) => match assets_fold(a1.directories, src, dot.push("directories"@), items, false, probe) {
                Ok(m) => Ok(AssetsView { files: a1.files, directories: m }),
                Err((m, e)) => Err((AssetsView { files: a1.files, directories: m }, e)),
            },
        },
    }
}

impl Assets {
    /// Merges the asset settings of a configuration file.
    pub fn merge(&mut self, src: &SrcFile, dot: &DotPath, assets: shape::Assets, probe: &PathProbe) -> (r:
        Result<(), MergeError>)
        ensures
            assets_merge_spec(old(self)@, src@, dot@, assets@, probe@) == outcome(r, final(self)@),
    {
        if let Some(files) = assets.files {
            let d = dot.push("files");
            let r = merge_pairs(&mut self.files, src, &d, files, true, probe);
            if let Err(e) = r {
                return Err(e);
            }
        }
        if let Some(directories) = assets.directories {
            let d = dot.push("directories");
            let r = merge_pairs(&mut self.directories, src, &d, directories, false, probe);
            if let Err(e) = r {
                return Err(e);
            }
        }
        Ok(())
    }
}

/// One listener entry merged into the list of listeners: an existing
/// listener of that name is merged in place, otherwise a default listener is
/// merged and added when that succeeds.
pub open spec fn listener_step(
    ls: Seq<(Seq<char>, ListenerView)>,
    src: SrcView,
    dot: Seq<Seq<char>>,
    item: (Seq<char>, shape::ListenerView),
    probe: Seq<(Seq<char>, ProbeView)>,
) -> Result<Seq<(Seq<char>, ListenerView)>, (Seq<(Seq<char>, ListenerView)>, MergeErrorView)> {
    let key = item.0;
    let d = dot.push(quoted(key));
    let i = first_key(ls, key);
    if i >= 0 {
        match listener_merge_spec(ls[i].1, src, d, item.1, probe) {
            Ok(l2) => Ok(ls.update(i, (key, l2))),
            Err((l2, e)) => Err((ls.update(i, (key, l2)), e)),
        }
    } else {
        match listener_merge_spec(listener_default_view(), src, d, item.1, probe) {
            Ok(l2) => Ok(ls.push((key, l2))),
            Err((_, e)) => Err((ls, e)),
        }
    }
}

/// Listener entries merged one after the other, stopping at the first error.
pub open spec fn listeners_fold(
    ls: Seq<(Seq<char>, ListenerView)>,
    src: SrcView,
    dot: Seq<Seq<char>>,
    items: Seq<(Seq<char>, shape::ListenerView)>,
    probe: Seq<(Seq<char>, ProbeView)>,
) -> Result<Seq<(Seq<char>, ListenerView)>, (Seq<(Seq<char>, ListenerView)>, MergeErrorView)>
    decreases items.len(),
{
    if items.len() == 0 {
        Ok(ls)
    } else {
        match listener_step(ls, src, dot, items[0], probe) {
            Err(x) => Err(x),
            Ok(l1) => listeners_fold(l1, src, dot, items.drop_first(), probe),
        }
    }
}

fn merge_listeners(
    ls: &mut Vec<(String, Listener)>,
    src: &SrcFile,
    dot: &DotPath,
    items: Vec<(String, shape::Listener)>,
    probe: &PathProbe,
) -> (r: Result<(), MergeError>)
    ensures
        listeners_fold(keyed_view(old(ls)@), src@, dot@, keyed_view(items@), probe@) == list_outcome(
            r,
            final(ls)@,
        ),
{
    let ghost all = keyed_view(items@);
    let mut rest = items;
    let ghost mut i: int = 0;
    assert(keyed_view(rest@) =~= all.skip(0));
    while rest.len() > 0
        invariant
            0 <= i <= all.len(),
            all == keyed_view(items@),
            keyed_view(rest@) == all.skip(i),
            listeners_fold(keyed_view(old(ls)@), src@, dot@, all, probe@) == listeners_fold(
                keyed_view(ls@),
                src@,
                dot@,
                keyed_view(rest@),
                probe@,
            ),
        decreases rest.len(),
    {
        let ghost rv = keyed_view(rest@);
        let ghost lv = keyed_view(ls@);
        let item = rest.remove(0);
        assert(keyed_view(rest@) =~= rv.drop_first());
        assert(rv[0] == (item.0@, item.1@));
        let (key, listener) = item;
        let q = quote(key.as_str());
        let d = dot.push(q.as_str());
        match find_key(ls, &key) {
            Some(j) => {
                let mut entry = ls.remove(j);
                assert(entry.0@ == key@);
                let ghost before = entry.1@;
                assert(before == lv[j as int].1);
                let r = entry.1.merge(src, &d, listener, probe);
                let ghost after = (entry.0@, entry.1@);
                ls.insert(j, entry);
                assert(keyed_view(ls@) =~= lv.update(j as int, after));
                if let Err(e) = r {
                    return Err(e);
                }
            },
            None => {
                let mut fresh = Listener::default();
                match fresh.merge(src, &d, listener, probe) {
                    Err(e) => {
                        return Err(e);
                    },
                    Ok(()) => {
                        let ghost after = (key@, fresh@);
                        ls.push((key, fresh));
                        assert(keyed_view(ls@) =~= lv.push(after));
                    },
                }
            },
        }
        proof {
            i = i + 1;
        }
        assert(all.skip(i) =~= all.skip(i - 1).drop_first());
    }
    Ok(())
}


/// The server settings.
pub struct Settings {
    pub id: i64,
    pub data: String,
    pub tmp: String,
    pub master_key: String,
    pub listeners: Vec<(String, Listener)>,
    pub templates: Templates,
    pub assets: Assets,
    pub sec: Sec,
    pub db: Db,
}

pub struct SettingsView {
    pub id: i64,
    pub data: Seq<char>,
    pub tmp: Seq<char>,
    pub master_key: Seq<char>,
    pub listeners: Seq<(Seq<char>, ListenerView)>,
    pub templates: TemplatesView,
    pub assets: AssetsView,
    pub sec: Sec,
    pub db: DbView,
}

impl View for Settings {
    type V = SettingsView;

    open spec fn view(&self) -> SettingsView {
        SettingsView {
            id: self.id,
            data: self.data@,
            tmp: self.tmp@,
            master_key: self.master_key@,
            listeners: keyed_view(self.listeners@),
            templates: self.templates@,
            assets: self.assets@,
            sec: self.sec,
            db: self.db@,
        }
    }
}

/// The settings used when no configuration file says otherwise, for the
/// working directory `cwd`.
pub open spec fn settings_default_spec(cwd: Seq<char>) -> SettingsView {
    SettingsView {
        id: 1,
        data: join_spec(cwd, "data"@),
        tmp: join_spec(cwd, "tmp"@),
        master_key: "rfs_master_key_secret"@,
        listeners: Seq::empty(),
        templates: TemplatesView { dev_mode: false, directory: join_spec(cwd, "templates"@) },
        assets: AssetsView { files: Seq::empty(), directories: Seq::empty() },
        sec: Sec { session: Session { hash: Hash::Blake3, secure: true }, secrets: Secrets::Local },
        db: DbView {
            user: "postgres"@,
            password: None,
            host: "localhost"@,
            port: 5432,
            dbname: "rfs"@,
        },
    }
}

/// A resolved path setting: merged when the file names it, after its check.
pub open spec fn path_field(
    field: Option<Seq<char>>,
    src: SrcView,
    dot: Seq<Seq<char>>,
    probe: Seq<(Seq<char>, ProbeView)>,
) -> Option<Result<Seq<char>, MergeErrorView>> {
    match field {
        None => None,
        Some(p) => Some(check_path_spec(p, src, dot, false, probe)),
    }
}

/// The first settings of a file merged: id, data directory, temporary
/// directory and master key.
pub open spec fn merge_front_spec(
    s: SettingsView,
    src: SrcView,
    dot: Seq<Seq<char>>,
    sh: shape::SettingsView,
    probe: Seq<(Seq<char>, ProbeView)>,
) -> Result<SettingsView, (SettingsView, MergeErrorView)> {
    let s0 = match sh.id {
        Some(i) => SettingsView { id: i, ..s },
        None => s,
    };
    let f1 = match path_field(sh.data, src, dot.push("data"@), probe) {
        None => Ok(s0),
        Some(Ok(p)) => Ok(SettingsView { data: p, ..s0 }),
        Some(Err(e)) => Err((s0, e)),
    };
    let f2 = match f1 {
        Err(x) => Err(x),
        Ok(s1) => match path_field(sh.tmp, src, dot.push("tmp"@), probe) {
            None => Ok(s1),
            Some(Ok(p)) => Ok(SettingsView { tmp: p, ..s1 }),
            Some(Err(e)) => Err((s1, e)),
        },
    };
    match f2 {
        Err(x) => Err(x),
        Ok(s2) => match sh.master_key {
            Some(k) => Ok(SettingsView { master_key: k, ..s2 }),
            None => Ok(s2),
        },
    }
}

/// The listeners and templates of a file merged.
pub open spec fn merge_middle_spec(
    s: SettingsView,
    src: SrcView,
    dot: Seq<Seq<char>>,
    sh: shape::SettingsView,
    probe: Seq<(Seq<char>, ProbeView)>,
) -> Result<SettingsView, (SettingsView, MergeErrorView)> {
    let f4 = match sh.listeners {
        None => Ok(s),
        Some(items) => match listeners_fold(s.listeners, src, dot, items, probe) {
            Ok(ls) => Ok(SettingsView { listeners: ls, ..s }),
            Err((ls, e)) => Err((SettingsView { listeners: ls, ..s }, e)),
        },
    };
    match f4 {
        Err(x) => Err(x),
        Ok(s4) => match sh.templates {
            None => Ok(s4),
            Some(t) => match templates_merge_spec(s4.templates, src, dot.push("templates"@), t, probe) {
                Ok(t2) => Ok(SettingsView { templates: t2, ..s4 }),
                Err((t2, e)) => Err((SettingsView { templates: t2, ..s4 }, e)),
            },
        },
    }
}

/// The assets, security and database settings of a file merged.
pub open spec fn merge_back_spec(
    s: SettingsView,
    src: SrcView,
    dot: Seq<Seq<char>>,
    sh: shape::SettingsView,
    probe: Seq<(Seq<char>, ProbeView)>,
) -> Result<SettingsView, (SettingsView, MergeErrorView)> {
    let f6 = match sh.assets {
        None => Ok(s),
        Some(a) => match assets_merge_spec(s.assets, src, dot.push("assets"@), a, probe) {
            Ok(a2) => Ok(SettingsView { assets: a2, ..s }),
            Err((a2, e)) => Err((SettingsView { assets: a2, ..s }, e)),
        },
    };
    match f6 {
        Err(x) => Err(x),
        Ok(s6) => {
            let s7 = match sh.sec {
                Some(c) => SettingsView { sec: sec_merge_spec(s6.sec, c), ..s6 },
                None => s6,
            };
            Ok(
                match sh.db {
                    Some(d) => SettingsView { db: db_merge_spec(s7.db, d), ..s7 },
                    None => s7,
                },
            )
        },
    }
}

/// The settings after merging the settings of one configuration file, in
/// order: id, data directory, temporary directory, master key, listeners,
/// templates, assets, security, database. The merge stops at the first
/// error, keeping what was merged before it.
pub open spec fn settings_merge_spec(
    s: SettingsView,
    src: SrcView,
    dot: Seq<Seq<char>>,
    sh: shape::SettingsView,
    probe: Seq<(Seq<char>, ProbeView)>,
) -> Result<SettingsView, (SettingsView, MergeErrorView)> {
    match merge_front_spec(s, src, dot, sh, probe) {
        Err(x) => Err(x),
        Ok(s3) => match merge_middle_spec(s3, src, dot, sh, probe) {
            Err(x) => Err(x),
            Ok(s5) => merge_back_spec(s5, src, dot, sh, probe),
        },
    }
}

impl Settings {
    /// The default settings for the working directory `cwd` (see
    /// [`settings_default_spec`]).
    pub fn default_in(cwd: &str) -> (r: Self)
        ensures
            r@ == settings_default_spec(cwd@),
    {
        let r = Settings {
            id: 1,
            data: join(cwd, "data"),
            tmp: join(cwd, "tmp"),
            master_key: String::from_str("rfs_master_key_secret"),
            listeners: Vec::new(),
            templates: Templates::default_in(cwd),
            assets: Assets::default(),
            sec: Sec::default(),
            db: Db::default(),
        };
        assert(r@.listeners =~= Seq::<(Seq<char>, ListenerView)>::empty());
        r
    }

    /// Merges the settings of one configuration file (see
    /// [`settings_merge_spec`]).
    pub fn merge(&mut self, src: &SrcFile, dot: &DotPath, settings: shape::Settings, probe: &PathProbe) -> (r:
        Result<(), MergeError>)
        ensures
            settings_merge_spec(old(self)@, src@, dot@, settings@, probe@) == outcome(r, final(self)@),
    {
        let ghost sh = settings@;
        let shape::Settings { id, data, tmp, master_key, listeners, templates, assets, sec, db } = settings;
        let r = self.merge_front(src, dot, id, data, tmp, master_key, probe);
        assert(merge_front_spec(old(self)@, src@, dot@, sh, probe@) == outcome(r, self@));
        if r.is_err() {
            return r;
        }
        let ghost s3 = self@;
        let r = self.merge_middle(src, dot, listeners, templates, probe);
        assert(merge_middle_spec(s3, src@, dot@, sh, probe@) == outcome(r, self@));
        if r.is_err() {
            return r;
        }
        let ghost s5 = self@;
        let r = self.merge_back(src, dot, assets, sec, db, probe);
        assert(merge_back_spec(s5, src@, dot@, sh, probe@) == outcome(r, self@));
        r
    }

    fn merge_front(
        &mut self,
        src: &SrcFile,
        dot: &DotPath,
        id: Option<i64>,
        data: Option<String>,
        tmp: Option<String>,
        master_key: Option<String>,
        probe: &PathProbe,
    ) -> (r: Result<(), MergeError>)
        ensures
            forall|sh: shape::SettingsView|
                sh.id == id && sh.data == shape::opt_view(data) && sh.tmp == shape::opt_view(tmp)
                    && sh.master_key == shape::opt_view(master_key) ==> merge_front_spec(
                    old(self)@,
                    src@,
                    dot@,
                    sh,
                    probe@,
                ) == outcome(r, final(self)@),
    {
        if let Some(id) = id {
            self.id = id;
        }
        if let Some(data) = data {
            let d = dot.push("data");
            match check_path(data.as_str(), src, &d, false, probe) {
                Err(e) => {
                    return Err(e);
                },
                Ok(p) => {
                    self.data = p;
                },
            }
        }
        if let Some(tmp) = tmp {
            let d = dot.push("tmp");
            match check_path(tmp.as_str(), src, &d, false, probe) {
                Err(e) => {
                    return Err(e);
                },
                Ok(p) => {
                    self.tmp = p;
                },
            }
        }
        if let Some(master_key) = master_key {
            self.master_key = master_key;
        }
        Ok(())
    }

    fn merge_middle(
        &mut self,
        src: &SrcFile,
        dot: &DotPath,
        listeners: Option<Vec<(String, shape::Listener)>>,
        templates: Option<shape::Templates>,
        probe: &PathProbe,
    ) -> (r: Result<(), MergeError>)
        ensures
            forall|sh: shape::SettingsView|
                sh.listeners == (match listeners {
                    Some(v) => Some(keyed_view(v@)),
                    None => None,
                }) && sh.templates == (match templates {
                    Some(t) => Some(t@),
                    None => None,
                }) ==> merge_middle_spec(old(self)@, src@, dot@, sh, probe@) == outcome(r, final(self)@),
    {
        if let Some(listeners) = listeners {
            let r = merge_listeners(&mut self.listeners, src, dot, listeners, probe);
            if let Err(e) = r {
                return Err(e);
            }
        }
        if let Some(templates) = templates {
            let d = dot.push("templates");
            let r = self.templates.merge(src, &d, templates, probe);
            if let Err(e) = r {
                return Err(e);
            }
        }
        Ok(())
    }

    fn merge_back(
        &mut self,
        src: &SrcFile,
        dot: &DotPath,
        assets: Option<shape::Assets>,
        sec: Option<shape::Sec>,
        db: Option<shape::Db>,
        probe: &PathProbe,
    ) -> (r: Result<(), MergeError>)
        ensures
            forall|sh: shape::SettingsView|
                sh.assets == (match assets {
                    Some(a) => Some(a@),
                    None => None,
                }) && sh.sec == sec && sh.db == (match db {
                    Some(d) => Some(d@),
                    None => None,
                }) ==> merge_back_spec(old(self)@, src@, dot@, sh, probe@) == outcome(r, final(self)@),
    {
        if let Some(assets) = assets {
            let d = dot.push("assets");
            let r = self.assets.merge(src, &d, assets, probe);
            if let Err(e) = r {
                return Err(e);
            }
        }
        if let Some(sec) = sec {
            let d = dot.push("sec");
            let _ = self.sec.merge(src, &d, sec);
        }
        if let Some(db) = db {
            let d = dot.push("db");
            let _ = self.db.merge(src, &d, db);
        }
        Ok(())
    }
}

/// Whether the directory setting `name` at `path` may be used: the probe
/// must know the path, and it must be an existing directory.
pub open spec fn dir_check_spec(path: Seq<char>, name: Seq<char>, probe: Seq<(Seq<char>, ProbeView)>) -> Option<
    MergeErrorView,
> {
    match probe_lookup(probe, path) {
        None => Some(MergeErrorView::Unprobed(path)),
        Some(ProbeView::Failed(m)) => Some(
            MergeErrorView::Invalid(plain_view("failed to retrieve metadata for "@ + name, Some(m))),
        ),
        Some(ProbeView::Missing) => Some(
            MergeErrorView::Invalid(plain_view(name + " does not exist"@, None)),
        ),
        Some(ProbeView::Found(k)) => if k == PathKind::Directory {
            None
        } else {
            Some(MergeErrorView::Invalid(plain_view(name + " is not a directory"@, None)))
        },
    }
}

/// The first failing directory check of the loaded settings: the data
/// directory, the temporary directory, the templates directory.
pub open spec fn check_directories_spec(s: SettingsView, probe: Seq<(Seq<char>, ProbeView)>) -> Option<
    MergeErrorView,
> {
    match dir_check_spec(s.data, "settings.data"@, probe) {
        Some(e) => Some(e),
        None => match dir_check_spec(s.tmp, "settings.tmp"@, probe) {
            Some(e) => Some(e),
            None => dir_check_spec(s.templates.directory, "settings.templates.directory"@, probe),
        },
    }
}

fn check_dir(path: &String, name: &str, probe: &PathProbe) -> (r: Result<(), MergeError>)
    ensures
        match r {
            Ok(_) => dir_check_spec(path@, name@, probe@) is None,
            Err(e) => dir_check_spec(path@, name@, probe@) == Some(e@),
        },
{
    match probe.lookup(path) {
        None => Err(MergeError::Unprobed(path.clone())),
        Some(Probe::Failed(m)) => {
            let mut msg = String::from_str("failed to retrieve metadata for ");
            msg.append(name);
            Err(MergeError::Invalid(error_with(msg, Some(m.clone()))))
        },
        Some(Probe::Missing) => {
            let mut msg = String::from_str(name);
            msg.append(" does not exist");
            Err(MergeError::Invalid(error_with(msg, None)))
        },
        Some(Probe::Found(k)) => {
            if *k == PathKind::Directory {
                Ok(())
            } else {
                let mut msg = String::from_str(name);
                msg.append(" is not a directory");
                Err(MergeError::Invalid(error_with(msg, None)))
            }
        },
    }
}

impl Settings {
    /// Checks that the data, temporary and templates directories exist
    /// (see [`check_directories_spec`]).
    pub fn check_directories(&self, probe: &PathProbe) -> (r: Result<(), MergeError>)
        ensures
            match r {
                Ok(_) => check_directories_spec(self@, probe@) is None,
                Err(e) => check_directories_spec(self@, probe@) == Some(e@),
            },
    {
        let r = check_dir(&self.data, "settings.data", probe);
        if r.is_err() {
            return r;
        }
        let r = check_dir(&self.tmp, "settings.tmp", probe);
        if r.is_err() {
            return r;
        }
        check_dir(&self.templates.directory, "settings.templates.directory", probe)
    }
}

/// The format of a configuration file.
#[derive(PartialEq, Eq, Structural, Clone, Copy)]
pub enum ConfigFormat {
    Yaml,
    Json,
    Unknown,
}

/// ASCII upper-case letters made lower-case, other characters kept.
pub open spec fn ascii_lower(s: Seq<char>) -> Seq<char> {
    s.map_values(|c: char| if 'A' <= c <= 'Z' { ((c as u32) + 32) as char } else { c })
}

/// The format a configuration file's extension names (compared without
/// regard to ASCII case): `yaml` and `yml` for YAML, `json` for JSON.
pub open spec fn format_of_extension(ext: Seq<char>) -> ConfigFormat {
    let e = ascii_lower(ext);
    if e == seq!['y', 'a', 'm', 'l'] || e == seq!['y', 'm', 'l'] {
        ConfigFormat::Yaml
    } else if e == seq!['j', 's', 'o', 'n'] {
        ConfigFormat::Json
    } else {
        ConfigFormat::Unknown
    }
}

fn lower_char(c: char) -> (r: char)
    ensures
        r == (if 'A' <= c <= 'Z' { ((c as u32) + 32) as char } else { c }),
{
    if 'A' <= c && c <= 'Z' {
        let u = (c as u32) + 32;
        assert(0x61 <= u <= 0x7A);
        char_from_ascii(u)
    } else {
        c
    }
}

fn char_from_ascii(u: u32) -> (r: char)
    requires
        u < 128,
    ensures
        r == u as char,
{
    (u as u8) as char
}

/// The format of the configuration file at `path`, from its extension. A
/// path without extension is an error.
pub fn config_format(path: &str) -> (r: Result<ConfigFormat, Error>)
    ensures
        match r {
            Ok(f) => extension_spec(path@) is Some && f == format_of_extension(extension_spec(path@)->0),
            Err(e) => extension_spec(path@) is None && e@ == plain_view(
                "failed to retrieve the file extension for config file: "@ + quoted(path@),
                None,
            ),
        },
{
    match extension(path) {
        None => {
            let mut m = String::from_str("failed to retrieve the file extension for config file: ");
            let q = quote(path);
            m.append(q.as_str());
            Err(error_with(m, None))
        },
        Some(ext) => {
            let cs = chars_of(ext.as_str());
            let mut low: Vec<char> = Vec::new();
            let mut i: usize = 0;
            while i < cs.len()
                invariant
                    i <= cs@.len(),
                    low@ == ascii_lower(cs@).take(i as int),
                decreases cs.len() - i,
            {
                low.push(lower_char(cs[i]));
                i = i + 1;
                assert(low@ =~= ascii_lower(cs@).take(i as int));
            }
            assert(low@ =~= ascii_lower(ext@));
            let yaml: Vec<char> = vec!['y', 'a', 'm', 'l'];
            let yml: Vec<char> = vec!['y', 'm', 'l'];
            let json: Vec<char> = vec!['j', 's', 'o', 'n'];
            assert(yaml@ =~= seq!['y', 'a', 'm', 'l']);
            assert(yml@ =~= seq!['y', 'm', 'l']);
            assert(json@ =~= seq!['j', 's', 'o', 'n']);
            if chars_eq(&low, &yaml) || chars_eq(&low, &yml) {
                Ok(ConfigFormat::Yaml)
            } else if chars_eq(&low, &json) {
                Ok(ConfigFormat::Json)
            } else {
                Ok(ConfigFormat::Unknown)
            }
        },
    }
}

/// The error for a configuration file whose extension names no known
/// format.
pub fn unknown_format_error(path: &str) -> (r: Error)
    ensures
        r@ == plain_view("unknown type of config file: "@ + quoted(path@), None),
{
    let mut m = String::from_str("unknown type of config file: ");
    let q = quote(path);
    m.append(q.as_str());
    error_with(m, None)
}


/// A configuration file that sets nothing.
pub open spec fn empty_shape() -> shape::SettingsView {
    shape::SettingsView {
        id: None,
        data: None,
        tmp: None,
        master_key: None,
        listeners: None,
        templates: None,
        assets: None,
        sec: None,
        db: None,
    }
}

/// Law: merging a configuration file that sets nothing succeeds and leaves
/// the settings as they were.
pub proof fn lemma_merge_empty(
    s: SettingsView,
    src: SrcView,
    dot: Seq<Seq<char>>,
    probe: Seq<(Seq<char>, ProbeView)>,
)
    ensures
        settings_merge_spec(s, src, dot, empty_shape(), probe) == Ok::<
            SettingsView,
            (SettingsView, MergeErrorView),
        >(s),
{
}

/// Law: when a merge succeeds, every plain setting that the file names is
/// the one that holds afterwards: the id, the master key, the session hash
/// and cookie security, and each database setting.
pub proof fn lemma_merge_overrides(
    s: SettingsView,
    src: SrcView,
    dot: Seq<Seq<char>>,
    sh: shape::SettingsView,
    probe: Seq<(Seq<char>, ProbeView)>,
)
    requires
        settings_merge_spec(s, src, dot, sh, probe) is Ok,
    ensures
        ({
            let r = settings_merge_spec(s, src, dot, sh, probe)->Ok_0;
            &&& sh.id matches Some(i) ==> r.id == i
            &&& sh.master_key matches Some(k) ==> r.master_key == k
            &&& sh.sec matches Some(c) ==> (c.session matches Some(ss) ==> (
                ss.hash matches Some(h) ==> r.sec.session.hash == hash_from_shape(h)))
            &&& sh.sec matches Some(c) ==> (c.session matches Some(ss) ==> (
                ss.secure matches Some(b) ==> r.sec.session.secure == b))
            &&& sh.db matches Some(d) ==> (d.user matches Some(u) ==> r.db.user == u)
            &&& sh.db matches Some(d) ==> (d.password matches Some(p) ==> r.db.password == Some(p))
            &&& sh.db matches Some(d) ==> (d.host matches Some(h) ==> r.db.host == h)
            &&& sh.db matches Some(d) ==> (d.port matches Some(p) ==> r.db.port == p)
            &&& sh.db matches Some(d) ==> (d.dbname matches Some(n) ==> r.db.dbname == n)
        }),
{
}


/// Whether an error that stops a merge for want of a path's lookup names a
/// path the probe does not know yet (any other error qualifies).
pub open spec fn names_new_path(e: MergeErrorView, probe: Seq<(Seq<char>, ProbeView)>) -> bool {
    e matches MergeErrorView::Unprobed(p) ==> probe_lookup(probe, p) is None
}

proof fn lemma_check_path_new(
    given: Seq<char>,
    src: SrcView,
    dot: Seq<Seq<char>>,
    is_file: bool,
    probe: Seq<(Seq<char>, ProbeView)>,
)
    ensures
        check_path_spec(given, src, dot, is_file, probe) matches Err(e) ==> names_new_path(e, probe),
{
}

proof fn lemma_tls_new(
    t: shape::TlsView,
    src: SrcView,
    dot: Seq<Seq<char>>,
    sh: shape::TlsView,
    probe: Seq<(Seq<char>, ProbeView)>,
)
    ensures
        tls_merge_spec(t, src, dot, sh, probe) matches Err((_, e)) ==> names_new_path(e, probe),
{
    lemma_check_path_new(sh.key, src, dot.push("key"@), true, probe);
    lemma_check_path_new(sh.cert, src, dot.push("cert"@), true, probe);
}

proof fn lemma_listeners_new(
    ls: Seq<(Seq<char>, ListenerView)>,
    src: SrcView,
    dot: Seq<Seq<char>>,
    items: Seq<(Seq<char>, shape::ListenerView)>,
    probe: Seq<(Seq<char>, ProbeView)>,
)
    ensures
        listeners_fold(ls, src, dot, items, probe) matches Err((_, e)) ==> names_new_path(e, probe),
    decreases items.len(),
{
    if items.len() > 0 {
        let item = items[0];
        let d = dot.push(quoted(item.0));
        let i = first_key(ls, item.0);
        let base = if i >= 0 { ls[i].1 } else { listener_default_view() };
        let l1 = ListenerView { addr: listen_addr_spec(item.1.socket, item.1.ip)->0, tls: base.tls };
        if item.1.tls is Some {
            let tb = match l1.tls {
                Some(x) => x,
                None => shape::TlsView { key: Seq::empty(), cert: Seq::empty() },
            };
            lemma_tls_new(tb, src, d.push("tls"@), item.1.tls->0, probe);
        }
        match listener_step(ls, src, dot, item, probe) {
            Err(_) => {},
            Ok(l1) => lemma_listeners_new(l1, src, dot, items.drop_first(), probe),
        }
    }
}

proof fn lemma_assets_new(
    m: Seq<(Seq<char>, Seq<char>)>,
    src: SrcView,
    group: Seq<Seq<char>>,
    items: Seq<(Seq<char>, Seq<char>)>,
    is_file: bool,
    probe: Seq<(Seq<char>, ProbeView)>,
)
    ensures
        assets_fold(m, src, group, items, is_file, probe) matches Err((_, e)) ==> names_new_path(e, probe),
    decreases items.len(),
{
    if items.len() > 0 {
        let item = items[0];
        let d = group.push(quoted(item.0));
        lemma_check_path_new(item.1, src, d, is_file, probe);
        match asset_step(m, src, group, item, is_file, probe) {
            Err(_) => {},
            Ok(m1) => lemma_assets_new(m1, src, group, items.drop_first(), is_file, probe),
        }
    }
}

proof fn lemma_lookup_after_record(probe: Seq<(Seq<char>, ProbeView)>, p: Seq<char>, v: ProbeView)
    requires
        probe_lookup(probe, p) is None,
    ensures
        probe_lookup(probe.push((p, v)), p) == Some(v),
    decreases probe.len(),
{
    if probe.len() > 0 {
        assert(probe.push((p, v)).drop_first() =~= probe.drop_first().push((p, v)));
        lemma_lookup_after_record(probe.drop_first(), p, v);
    }
}

/// Law: a merge, or a check of the directories, that stops for want of a
/// path's lookup names a path the probe does not know yet; once what was
/// found there is recorded, the probe knows it. So a caller that records
/// each such path and tries again asks about each path at most once.
pub proof fn lemma_unprobed_is_new(
    s: SettingsView,
    src: SrcView,
    dot: Seq<Seq<char>>,
    sh: shape::SettingsView,
    probe: Seq<(Seq<char>, ProbeView)>,
    found: ProbeView,
)
    ensures
        settings_merge_spec(s, src, dot, sh, probe) matches Err((_, e)) ==> names_new_path(e, probe),
        check_directories_spec(s, probe) matches Some(e) ==> names_new_path(e, probe),
        settings_merge_spec(s, src, dot, sh, probe) matches Err((_, MergeErrorView::Unprobed(p)))
            ==> probe_lookup(probe.push((p, found)), p) == Some(found),
        check_directories_spec(s, probe) matches Some(MergeErrorView::Unprobed(p)) ==> probe_lookup(
            probe.push((p, found)),
            p,
        ) == Some(found),
{
    if sh.data is Some {
        lemma_check_path_new(sh.data->0, src, dot.push("data"@), false, probe);
    }
    if sh.tmp is Some {
        lemma_check_path_new(sh.tmp->0, src, dot.push("tmp"@), false, probe);
    }
    let front = merge_front_spec(s, src, dot, sh, probe);
    if front is Ok {
        let s3 = front->Ok_0;
        if sh.listeners is Some {
            lemma_listeners_new(s3.listeners, src, dot, sh.listeners->0, probe);
        }
        if sh.templates is Some && sh.templates->0.directory is Some {
            lemma_check_path_new(
                sh.templates->0.directory->0,
                src,
                dot.push("templates"@).push("directory"@),
                false,
                probe,
            );
        }
        let middle = merge_middle_spec(s3, src, dot, sh, probe);
        if middle is Ok {
            let s5 = middle->Ok_0;
            if sh.assets is Some {
                let a = sh.assets->0;
                if a.files is Some {
                    lemma_assets_new(s5.assets.files, src, dot.push("assets"@).push("files"@), a.files->0, true, probe);
                }
                let f = match a.files {
                    None => Ok(s5.assets),
                    Some(items) => match assets_fold(s5.assets.files, src, dot.push("assets"@).push("files"@), items, true, probe) {
                        Ok(m) => Ok(AssetsView { files: m, directories: s5.assets.directories }),
                        Err((m, e)) => Err((AssetsView { files: m, directories: s5.assets.directories }, e)),
                    },
                };
                if f is Ok && a.directories is Some {
                    lemma_assets_new(
                        f->Ok_0.directories,
                        src,
                        dot.push("assets"@).push("directories"@),
                        a.directories->0,
                        false,
                        probe,
                    );
                }
            }
        }
    }
    match settings_merge_spec(s, src, dot, sh, probe) {
        Err((_, MergeErrorView::Unprobed(p))) => lemma_lookup_after_record(probe, p, found),
        _ => {},
    }
    match check_directories_spec(s, probe) {
        Some(MergeErrorView::Unprobed(p)) => lemma_lookup_after_record(probe, p, found),
        _ => {},
    }
}


/// The HKDF pseudorandom key that HKDF-Extract with SHA3-512 and no salt
/// makes from the UTF-8 bytes of `key`.
pub uninterp spec fn hkdf_sha3_512_prk(key: Seq<char>) -> Seq<u8>;

/// `hkdf::Hkdf::<sha3::Sha3_512>::extract` without a salt on the UTF-8
/// bytes of `key`: the pseudorandom key it makes, which is only named
/// ([`hkdf_sha3_512_prk`]), not stated.
#[verifier::external_body]
fn master_prk(key: &str) -> (prk: Vec<u8>)
    ensures
        prk@ == hkdf_sha3_512_prk(key@),
{
    hkdf::Hkdf::<sha3::Sha3_512>::extract(None, key.as_bytes()).0.to_vec()
}

/// The loaded configuration: the settings and the pseudorandom key that
/// keys are derived from (HKDF with SHA3-512 over the master key).
pub struct Config {
    pub settings: Settings,
    pub prk: Vec<u8>,
}

/// The configuration for the loaded settings: the key material is derived
/// from the settings' master key.
pub fn config_from(settings: Settings) -> (c: Config)
    ensures
        c.settings@ == settings@,
        c.prk@ == hkdf_sha3_512_prk(settings.master_key@),
{
    let prk = master_prk(settings.master_key.as_str());
    Config { settings, prk }
}


proof fn lemma_check_path_resolves(
    given: Seq<char>,
    src: SrcView,
    dot: Seq<Seq<char>>,
    is_file: bool,
    probe: Seq<(Seq<char>, ProbeView)>,
)
    ensures
        check_path_spec(given, src, dot, is_file, probe) matches Ok(p) ==> p == resolve_spec(
            src.parent,
            given,
        ) && probe_lookup(probe, p) == Some(
            ProbeView::Found(if is_file { PathKind::File } else { PathKind::Directory }),
        ),
{
}

/// Law: after a successful TLS merge the key setting is the configured key
/// file and the certificate setting the configured certificate file, each
/// resolved against the configuration file's directory and found on disk
/// as a file.
pub proof fn lemma_tls_merge_paths(
    t: shape::TlsView,
    src: SrcView,
    dot: Seq<Seq<char>>,
    sh: shape::TlsView,
    probe: Seq<(Seq<char>, ProbeView)>,
)
    ensures
        tls_merge_spec(t, src, dot, sh, probe) matches Ok(r) ==> {
            &&& r.key == resolve_spec(src.parent, sh.key)
            &&& r.cert == resolve_spec(src.parent, sh.cert)
            &&& probe_lookup(probe, r.key) == Some(ProbeView::Found(PathKind::File))
            &&& probe_lookup(probe, r.cert) == Some(ProbeView::Found(PathKind::File))
        },
{
    lemma_check_path_resolves(sh.key, src, dot.push("key"@), true, probe);
    lemma_check_path_resolves(sh.cert, src, dot.push("cert"@), true, probe);
}

/// Law: when a merge succeeds, each directory setting the file names is the
/// one that holds afterwards, resolved against the configuration file's
/// directory and found on disk as a directory: the data directory, the
/// temporary directory and the templates directory.
pub proof fn lemma_merge_paths(
    s: SettingsView,
    src: SrcView,
    dot: Seq<Seq<char>>,
    sh: shape::SettingsView,
    probe: Seq<(Seq<char>, ProbeView)>,
)
    ensures
        settings_merge_spec(s, src, dot, sh, probe) matches Ok(r) ==> {
            &&& sh.data matches Some(p) ==> r.data == resolve_spec(src.parent, p) && probe_lookup(
                probe,
                r.data,
            ) == Some(ProbeView::Found(PathKind::Directory))
            &&& sh.tmp matches Some(p) ==> r.tmp == resolve_spec(src.parent, p) && probe_lookup(
                probe,
                r.tmp,
            ) == Some(ProbeView::Found(PathKind::Directory))
            &&& sh.templates matches Some(t) ==> (t.directory matches Some(p) ==> r.templates.directory
                == resolve_spec(src.parent, p) && probe_lookup(probe, r.templates.directory) == Some(
                ProbeView::Found(PathKind::Directory),
            ))
        },
{
    if sh.data is Some {
        lemma_check_path_resolves(sh.data->0, src, dot.push("data"@), false, probe);
    }
    if sh.tmp is Some {
        lemma_check_path_resolves(sh.tmp->0, src, dot.push("tmp"@), false, probe);
    }
    if sh.templates is Some && sh.templates->0.directory is Some {
        lemma_check_path_resolves(
            sh.templates->0.directory->0,
            src,
            dot.push("templates"@).push("directory"@),
            false,
            probe,
        );
    }
}

} // verus!
