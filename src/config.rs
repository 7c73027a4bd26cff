//! Choosing how the native library is reached, and describing it.
use vstd::prelude::*;
use vstd::string::StringExecFns;

verus! {

/// How the native library's symbols are reached.
#[derive(Clone, Copy, Debug, PartialEq, Eq, Structural)]
pub enum Backend {
    /// Resolved when the program is linked and loaded.
    Shared,
    /// Resolved by loading the shared library on first use.
    Dlopen,
}

/// Why no backend could be chosen.
#[derive(Clone, Copy, Debug, PartialEq, Eq, Structural)]
pub enum BackendError {
    /// Neither backend was asked for.
    Neither,
    /// Both backends were asked for; they exclude each other.
    Both,
}

/// The backend chosen when `shared` and `dlopen` say which were asked for.
pub open spec fn selection(shared: bool, dlopen: bool) -> Result<Backend, BackendError> {
    if shared && dlopen {
        Err(BackendError::Both)
    } else if shared {
        Ok(Backend::Shared)
    } else if dlopen {
        Ok(Backend::Dlopen)
    } else {
        Err(BackendError::Neither)
    }
}

/// Chooses the backend: exactly one of the two must be asked for.
pub fn select_backend(shared: bool, dlopen: bool) -> (r: Result<Backend, BackendError>)
    ensures
        r == selection(shared, dlopen),
        r is Ok <==> shared != dlopen,
{
    if shared && dlopen {
        Err(BackendError::Both)
    } else if shared {
        Ok(Backend::Shared)
    } else if dlopen {
        Ok(Backend::Dlopen)
    } else {
        Err(BackendError::Neither)
    }
}

pub open spec fn error_message(e: BackendError) -> Seq<char> {
    match e {
        BackendError::Neither => "Please select the `shared` or `dlopen` backend"@,
        BackendError::Both => "backends `shared` and `dlopen` are mutually exclusive"@,
    }
}

impl BackendError {
    /// The message shown for this error; it names both backends.
    pub fn message(&self) -> (r: String)
        ensures
            r@ == error_message(*self),
    {
        match self {
            BackendError::Neither => String::from_str(
                "Please select the `shared` or `dlopen` backend",
            ),
            BackendError::Both => String::from_str(
                "backends `shared` and `dlopen` are mutually exclusive",
            ),
        }
    }
}

/// The tag that names a backend in the version line.
pub open spec fn backend_tag(b: Backend) -> Seq<char> {
    match b {
        Backend::Shared => " (shared)"@,
        Backend::Dlopen => " (dlopen)"@,
    }
}

pub open spec fn version_prefix() -> Seq<char> {
    "using gmp "@
}

/// The line that reports library version `version` reached through `b`.
pub open spec fn version_text(version: Seq<char>, b: Backend) -> Seq<char> {
    version_prefix() + version + backend_tag(b)
}

/// Builds the line that reports the native library's version `version`,
/// reached through backend `b`.
pub fn version_line(version: &str, b: Backend) -> (r: String)
    ensures
        r@ == version_text(version@, b),
        r@.len() > 0,
{
    let mut line = String::from_str("using gmp ");
    line.append(version);
    match b {
        Backend::Shared => line.append(" (shared)"),
        Backend::Dlopen => line.append(" (dlopen)"),
    }
    proof {
        reveal_strlit("using gmp ");
    }
    line
}

/// The version line is never empty, and whichever backend reports it, it holds
/// the library's version right after the same prefix.
pub proof fn lemma_version_text_shape(version: Seq<char>, b: Backend)
    ensures
        version_text(version, b).len() > 0,
        version_text(version, b).subrange(0, version_prefix().len() as int) == version_prefix(),
        version_text(version, b).subrange(
            version_prefix().len() as int,
            (version_prefix().len() + version.len()) as int,
        ) == version,
{
    reveal_strlit("using gmp ");
    let t = version_text(version, b);
    let p = version_prefix();
    assert(t.subrange(0, p.len() as int) =~= p);
    assert(t.subrange(p.len() as int, (p.len() + version.len()) as int) =~= version);
}

/// The shared library that the loading backend opens on a platform.
#[derive(Clone, Copy, Debug, PartialEq, Eq, Structural)]
pub enum Platform {
    /// macOS on Apple silicon, whose package prefix the loader does not search.
    MacArm,
    /// macOS on Intel processors.
    MacIntel,
    /// Linux, FreeBSD and other Unix-like systems.
    UnixLike,
}

pub open spec fn library_path_of(p: Platform) -> Seq<char> {
    match p {
        Platform::MacArm => "/opt/homebrew/lib/libgmp.dylib"@,
        Platform::MacIntel => "libgmp.dylib"@,
        Platform::UnixLike => "libgmp.so"@,
    }
}

/// The name or path of the native library to load on platform `p`.
pub fn library_path(p: Platform) -> (r: String)
    ensures
        r@ == library_path_of(p),
{
    match p {
        Platform::MacArm => String::from_str("/opt/homebrew/lib/libgmp.dylib"),
        Platform::MacIntel => String::from_str("libgmp.dylib"),
        Platform::UnixLike => String::from_str("libgmp.so"),
    }
}

} // verus!
