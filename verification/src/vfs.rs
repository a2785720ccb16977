//! The virtual file system: local directories, archive contents and remote
//! locations addressed through one path type, each served by a provider.

use vstd::prelude::*;

verus! {

/// A location in the virtual file system.
#[derive(Debug)]
pub enum VfsPath {
    Local(String),
    Archive { archive_path: String, internal_path: String },
    Sftp { host: String, port: u16, username: String, path: String },
    Ftp { host: String, port: u16, username: String, path: String },
}

/// The mathematical value of a `VfsPath`: the same shape with character sequences.
pub enum VfsPathView {
    Local(Seq<char>),
    Archive { archive_path: Seq<char>, internal_path: Seq<char> },
    Sftp { host: Seq<char>, port: u16, username: Seq<char>, path: Seq<char> },
    Ftp { host: Seq<char>, port: u16, username: Seq<char>, path: Seq<char> },
}

impl View for VfsPath {
    type V = VfsPathView;

    open spec fn view(&self) -> VfsPathView {
        match self {
            VfsPath::Local(p) => VfsPathView::Local(p@),
            VfsPath::Archive { archive_path, internal_path } => VfsPathView::Archive {
                archive_path: archive_path@,
                internal_path: internal_path@,
            },
            VfsPath::Sftp { host, port, username, path } => VfsPathView::Sftp {
                host: host@,
                port: *port,
                username: username@,
                path: path@,
            },
            VfsPath::Ftp { host, port, username, path } => VfsPathView::Ftp {
                host: host@,
                port: *port,
                username: username@,
                path: path@,
            },
        }
    }
}

impl Clone for VfsPath {
    fn clone(&self) -> (r: Self)
        ensures
            r == *self,
    {
        match self {
            VfsPath::Local(p) => VfsPath::Local(p.clone()),
            VfsPath::Archive { archive_path, internal_path } => VfsPath::Archive {
                archive_path: archive_path.clone(),
                internal_path: internal_path.clone(),
            },
            VfsPath::Sftp { host, port, username, path } => VfsPath::Sftp {
                host: host.clone(),
                port: *port,
                username: username.clone(),
                path: path.clone(),
            },
            VfsPath::Ftp { host, port, username, path } => VfsPath::Ftp {
                host: host.clone(),
                port: *port,
                username: username.clone(),
                path: path.clone(),
            },
        }
    }
}

impl VfsPath {
    /// Whether two paths denote the same location.
    pub fn same_as(&self, other: &VfsPath) -> (r: bool)
        ensures
            r == (self@ == other@),
    {
        match self {
            VfsPath::Local(a) => match other {
                VfsPath::Local(b) => a.eq(b),
                _ => false,
            },
            VfsPath::Archive { archive_path: a1, internal_path: a2 } => match other {
                VfsPath::Archive { archive_path: b1, internal_path: b2 } => a1.eq(b1) && a2.eq(b2),
                _ => false,
            },
            VfsPath::Sftp { host: h1, port: p1, username: u1, path: q1 } => match other {
                VfsPath::Sftp { host: h2, port: p2, username: u2, path: q2 } => h1.eq(h2) && *p1
                    == *p2 && u1.eq(u2) && q1.eq(q2),
                _ => false,
            },
            VfsPath::Ftp { host: h1, port: p1, username: u1, path: q1 } => match other {
                VfsPath::Ftp { host: h2, port: p2, username: u2, path: q2 } => h1.eq(h2) && *p1
                    == *p2 && u1.eq(u2) && q1.eq(q2),
                _ => false,
            },
        }
    }
}

/// The kind of a virtual file system entry.
#[derive(Debug, Clone, Copy, PartialEq, Eq, Structural)]
pub enum VfsEntryType {
    File,
    Directory,
    Archive,
    Symlink,
}

/// One entry of a virtual directory listing.
#[derive(Debug)]
pub struct VfsEntry {
    pub name: String,
    pub path: VfsPath,
    pub entry_type: VfsEntryType,
    pub size: u64,
    /// Nanoseconds since the Unix epoch.
    pub modified: u128,
    pub permissions: String,
    /// The packed size, for archive entries.
    pub compressed_size: Option<u64>,
}

impl Clone for VfsEntry {
    fn clone(&self) -> (r: Self)
        ensures
            r == *self,
    {
        VfsEntry {
            name: self.name.clone(),
            path: self.path.clone(),
            entry_type: self.entry_type,
            size: self.size,
            modified: self.modified,
            permissions: self.permissions.clone(),
            compressed_size: self.compressed_size,
        }
    }
}

/// Connection credentials for remote providers.
#[derive(Debug)]
pub struct RemoteCredentials {
    pub username: String,
    pub password: Option<String>,
    pub private_key_path: Option<String>,
    pub passphrase: Option<String>,
}

/// The providers that serve virtual paths.
#[derive(Debug, Clone, Copy, PartialEq, Eq, Structural)]
pub enum ProviderKind {
    /// The local file system (`VfsPath::Local`).
    LocalFileSystem,
    /// Archive contents (`VfsPath::Archive`).
    Archive,
    /// SFTP servers (`VfsPath::Sftp`).
    Sftp,
    /// FTP servers (`VfsPath::Ftp`).
    Ftp,
}

/// Whether a provider serves a path.
pub open spec fn handles(kind: ProviderKind, p: VfsPathView) -> bool {
    match kind {
        ProviderKind::LocalFileSystem => p is Local,
        ProviderKind::Archive => p is Archive,
        ProviderKind::Sftp => p is Sftp,
        ProviderKind::Ftp => p is Ftp,
    }
}

impl ProviderKind {
    /// Whether this provider serves `path`.
    pub fn can_handle(&self, path: &VfsPath) -> (r: bool)
        ensures
            r == handles(*self, path@),
    {
        match (self, path) {
            (ProviderKind::LocalFileSystem, VfsPath::Local(_)) => true,
            (ProviderKind::Archive, VfsPath::Archive { .. }) => true,
            (ProviderKind::Sftp, VfsPath::Sftp { .. }) => true,
            (ProviderKind::Ftp, VfsPath::Ftp { .. }) => true,
            _ => false,
        }
    }
}

/// Errors of virtual file system requests.
#[derive(Debug)]
pub enum VfsError {
    /// No registered provider serves the path.
    NoProvider,
    /// The archive provider cannot read files yet.
    ArchiveReadUnsupported,
    /// The underlying file system reported an error.
    Io(String),
    /// SFTP locations cannot be opened in this build.
    SftpUnavailable,
    /// FTP locations cannot be opened in this build.
    FtpUnavailable,
}

/// The message of a virtual file system error.
pub open spec fn vfs_error_message(e: VfsError) -> Seq<char> {
    match e {
        VfsError::NoProvider => "No provider found for path"@,
        VfsError::ArchiveReadUnsupported => "Archive reading not implemented"@,
        VfsError::Io(m) => m@,
        VfsError::SftpUnavailable => "SSH/SFTP connections are not available in this build"@,
        VfsError::FtpUnavailable => "FTP connections are not available in this build"@,
    }
}

impl VfsError {
    /// The message of the error.
    pub fn message(&self) -> (r: String)
        ensures
            r@ == vfs_error_message(*self),
    {
        match self {
            VfsError::NoProvider => String::from_str("No provider found for path"),
            VfsError::ArchiveReadUnsupported => String::from_str("Archive reading not implemented"),
            VfsError::Io(m) => m.clone(),
            VfsError::SftpUnavailable => String::from_str(
                "SSH/SFTP connections are not available in this build",
            ),
            VfsError::FtpUnavailable => String::from_str(
                "FTP connections are not available in this build",
            ),
        }
    }
}

/// The index of the first provider in `ps` that serves `p`, if any.
pub open spec fn first_provider(ps: Seq<ProviderKind>, p: VfsPathView) -> Option<int>
    decreases ps.len(),
{
    if ps.len() == 0 {
        None
    } else if handles(ps.last(), p) && first_provider(ps.drop_last(), p) is None {
        Some(ps.len() - 1)
    } else {
        first_provider(ps.drop_last(), p)
    }
}

/// Virtual file system: routes each path to the first provider that serves it.
pub struct VirtualFileSystem {
    providers: Vec<ProviderKind>,
}

impl VirtualFileSystem {
    /// The registered providers, in the order they are asked.
    pub closed spec fn providers(&self) -> Seq<ProviderKind> {
        self.providers@
    }

    /// A file system with the local provider and the archive provider.
    pub fn new() -> (r: Self)
        ensures
            r.providers() == seq![ProviderKind::LocalFileSystem, ProviderKind::Archive],
    {
        let mut providers = Vec::new();
        providers.push(ProviderKind::LocalFileSystem);
        providers.push(ProviderKind::Archive);
        VirtualFileSystem { providers }
    }

    /// The provider that serves `path`: the first registered one that can.
    pub fn route(&self, path: &VfsPath) -> (r: Option<ProviderKind>)
        ensures
            r == (match first_provider(self.providers(), path@) {
                Some(i) => Some(self.providers()[i]),
                None => None,
            }),
    {
        let mut i: usize = 0;
        while i < self.providers.len()
            invariant
                i <= self.providers@.len(),
                first_provider(self.providers@.subrange(0, i as int), path@) is None,
            decreases self.providers@.len() - i,
        {
            let k = self.providers[i];
            assert(self.providers@.subrange(0, i + 1).drop_last() =~= self.providers@.subrange(
                0,
                i as int,
            ));
            if k.can_handle(path) {
                proof {
                    lemma_first_provider_prefix(self.providers@, path@, i as int);
                }
                return Some(k);
            }
            i = i + 1;
        }
        assert(self.providers@.subrange(0, i as int) =~= self.providers@);
        None
    }

    /// Lists a virtual directory.  Local paths are listed by `list_local`, which
    /// reads the disk; archive listings are empty; paths that no provider serves
    /// give `VfsError::NoProvider`.
    pub fn list_entries<F: Fn(&str) -> Result<Vec<VfsEntry>, VfsError>>(
        &self,
        path: &VfsPath,
        list_local: F,
    ) -> (r: Result<Vec<VfsEntry>, VfsError>)
        requires
            forall|s: &str| call_requires(list_local, (s,)),
        ensures
            match first_provider(self.providers(), path@) {
                None => r == Err::<Vec<VfsEntry>, VfsError>(VfsError::NoProvider),
                Some(i) => match self.providers()[i] {
                    ProviderKind::Archive => r matches Ok(v) && v@.len() == 0,
                    ProviderKind::LocalFileSystem => exists|s: &str|
                        #![trigger call_ensures(list_local, (s,), r)]
                        path@ == VfsPathView::Local(s@) && call_ensures(list_local, (s,), r),
                    _ => r == Err::<Vec<VfsEntry>, VfsError>(VfsError::NoProvider),
                },
            },
    {
        proof {
            lemma_first_provider_props(self.providers@, path@);
        }
        match self.route(path) {
            None => Err(VfsError::NoProvider),
            Some(ProviderKind::Archive) => Ok(Vec::new()),
            Some(ProviderKind::LocalFileSystem) => match path {
                VfsPath::Local(p) => {
                    let s = p.as_str();
                    let r = list_local(s);
                    assert(call_ensures(list_local, (s,), r));
                    r
                },
                _ => Err(VfsError::NoProvider),
            },
            Some(_) => Err(VfsError::NoProvider),
        }
    }
}

impl VirtualFileSystem {
    /// Opens a virtual file for reading.  Local files are opened by
    /// `open_local`; archive members cannot be read yet; paths that no
    /// provider serves give `VfsError::NoProvider`.
    pub fn read_file<R, F: Fn(&str) -> Result<R, VfsError>>(&self, path: &VfsPath, open_local: F) -> (r: Result<
        R,
        VfsError,
    >)
        requires
            forall|s: &str| call_requires(open_local, (s,)),
        ensures
            match first_provider(self.providers(), path@) {
                None => r matches Err(e) && e == VfsError::NoProvider,
                Some(i) => match self.providers()[i] {
                    ProviderKind::Archive => r matches Err(e) && e == VfsError::ArchiveReadUnsupported,
                    ProviderKind::LocalFileSystem => exists|s: &str|
                        #![trigger call_ensures(open_local, (s,), r)]
                        path@ == VfsPathView::Local(s@) && call_ensures(open_local, (s,), r),
                    _ => r matches Err(e) && e == VfsError::NoProvider,
                },
            },
    {
        proof {
            lemma_first_provider_props(self.providers@, path@);
        }
        match self.route(path) {
            None => Err(VfsError::NoProvider),
            Some(ProviderKind::Archive) => Err(VfsError::ArchiveReadUnsupported),
            Some(ProviderKind::LocalFileSystem) => match path {
                VfsPath::Local(p) => {
                    let s = p.as_str();
                    let r = open_local(s);
                    assert(call_ensures(open_local, (s,), r));
                    r
                },
                _ => Err(VfsError::NoProvider),
            },
            Some(_) => Err(VfsError::NoProvider),
        }
    }
}

proof fn lemma_first_provider_props(ps: Seq<ProviderKind>, p: VfsPathView)
    ensures
        first_provider(ps, p) matches Some(i) ==> 0 <= i < ps.len() && handles(ps[i], p),
    decreases ps.len(),
{
    if ps.len() > 0 {
        lemma_first_provider_props(ps.drop_last(), p);
    }
}

proof fn lemma_first_provider_prefix(ps: Seq<ProviderKind>, p: VfsPathView, i: int)
    requires
        0 <= i < ps.len(),
        handles(ps[i], p),
        first_provider(ps.subrange(0, i), p) is None,
    ensures
        first_provider(ps, p) == Some(i),
    decreases ps.len(),
{
    if ps.len() == i + 1 {
        assert(ps.drop_last() =~= ps.subrange(0, i));
    } else {
        assert(ps.drop_last().subrange(0, i) =~= ps.subrange(0, i));
        lemma_first_provider_prefix(ps.drop_last(), p, i);
    }
}

/// Builder for a virtual file system.
pub struct VirtualFileSystemBuilder {
    providers: Vec<ProviderKind>,
}

impl VirtualFileSystemBuilder {
    /// The providers registered so far.
    pub closed spec fn providers(&self) -> Seq<ProviderKind> {
        self.providers@
    }

    /// A builder holding the local provider.
    pub fn new() -> (r: Self)
        ensures
            r.providers() == seq![ProviderKind::LocalFileSystem],
    {
        let mut providers = Vec::new();
        providers.push(ProviderKind::LocalFileSystem);
        VirtualFileSystemBuilder { providers }
    }

    /// Adds the archive provider.
    pub fn with_archive_provider(self) -> (r: Self)
        ensures
            r.providers() == self.providers().push(ProviderKind::Archive),
    {
        let mut providers = self.providers;
        providers.push(ProviderKind::Archive);
        VirtualFileSystemBuilder { providers }
    }

    /// The file system with the registered providers.
    pub fn build(self) -> (r: VirtualFileSystem)
        ensures
            r.providers() == self.providers(),
    {
        VirtualFileSystem { providers: self.providers }
    }
}

/// Archive provider (ZIP, TAR, ...); archive contents are not read yet.
pub struct ArchiveProvider {}

impl ArchiveProvider {
    /// A new archive provider.
    pub fn new() -> (r: Self) {
        ArchiveProvider {  }
    }
}

} // verus!
