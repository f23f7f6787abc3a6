//! Where the application keeps its files. A path is text; its parts are joined
//! with `/`, as `Path::join` of std does on Unix-like systems.

use vstd::prelude::*;

verus! {

/// `rel` adjoined to `base`: an absolute `rel` replaces `base`; otherwise the two
/// are put together with one `/` between them, unless `base` is empty or already
/// ends with one.
pub open spec fn joined(base: Seq<char>, rel: Seq<char>) -> Seq<char> {
    if rel.len() > 0 && rel[0] == '/' {
        rel
    } else if base.len() == 0 || base.last() == '/' {
        base + rel
    } else {
        base.push('/') + rel
    }
}

/// `rel` adjoined to `base`.
pub fn join(base: &str, rel: &str) -> (p: String)
    ensures
        p@ == joined(base@, rel@),
{
    let r = rel.unicode_len();
    if r > 0 && rel.get_char(0) == '/' {
        return String::from_str(rel);
    }
    let b = base.unicode_len();
    let mut p = String::from_str(base);
    if b > 0 && base.get_char(b - 1) != '/' {
        p.push('/');
    }
    p.append(rel);
    p
}

/// The text of an optional string.
pub open spec fn text_of(o: Option<&str>) -> Option<Seq<char>> {
    match o {
        Some(s) => Some(s@),
        None => None,
    }
}

/// The directory under which the application's own directory lies: the
/// configuration directory that the desktop shell reports, else the one of the
/// user's account, else the directory for temporary files.
pub open spec fn config_base(
    preferred: Option<Seq<char>>,
    fallback: Option<Seq<char>>,
    temp_dir: Seq<char>,
) -> Seq<char> {
    match preferred {
        Some(p) => p,
        None => match fallback {
            Some(f) => f,
            None => temp_dir,
        },
    }
}

/// The application's private directory under `base`.
pub open spec fn app_dir_under(base: Seq<char>) -> Seq<char> {
    joined(base, "Nebula Tower Menubar"@)
}

/// The configuration file of the managed process.
pub open spec fn config_path_in(app_dir: Seq<char>) -> Seq<char> {
    joined(app_dir, "config.yaml"@)
}

/// The file that holds the user's settings.
pub open spec fn settings_path_in(app_dir: Seq<char>) -> Seq<char> {
    joined(app_dir, "settings.json"@)
}

/// The log file.
pub open spec fn log_path_in(app_dir: Seq<char>) -> Seq<char> {
    joined(app_dir, "debug.log"@)
}

/// The directory of the executables that the application manages itself.
pub open spec fn bin_dir_in(app_dir: Seq<char>) -> Seq<char> {
    joined(app_dir, "bin"@)
}

/// The managed executable inside the application's own `bin` directory.
pub open spec fn local_binary_in(app_dir: Seq<char>) -> Seq<char> {
    joined(bin_dir_in(app_dir), "nebula"@)
}

/// The application's private directory, given what the machine offers as a
/// place for configuration.
pub fn app_dir(preferred: Option<&str>, fallback: Option<&str>, temp_dir: &str) -> (dir: String)
    ensures
        dir@ == app_dir_under(config_base(text_of(preferred), text_of(fallback), temp_dir@)),
{
    let base: &str = match preferred {
        Some(p) => p,
        None => match fallback {
            Some(f) => f,
            None => temp_dir,
        },
    };
    join(base, "Nebula Tower Menubar")
}

/// The path of the configuration file of the managed process.
pub fn default_config_path(app_dir: &str) -> (p: String)
    ensures
        p@ == config_path_in(app_dir@),
{
    join(app_dir, "config.yaml")
}

/// The path of the file that holds the user's settings.
pub fn settings_path(app_dir: &str) -> (p: String)
    ensures
        p@ == settings_path_in(app_dir@),
{
    join(app_dir, "settings.json")
}

/// The path of the log file.
pub fn debug_log_path(app_dir: &str) -> (p: String)
    ensures
        p@ == log_path_in(app_dir@),
{
    join(app_dir, "debug.log")
}

/// The path of the directory of the application's own executables.
pub fn bin_dir(app_dir: &str) -> (p: String)
    ensures
        p@ == bin_dir_in(app_dir@),
{
    join(app_dir, "bin")
}

/// The path of the managed executable in the application's own `bin` directory.
pub fn local_binary_path(app_dir: &str) -> (p: String)
    ensures
        p@ == local_binary_in(app_dir@),
{
    let bin = bin_dir(app_dir);
    join(bin.as_str(), "nebula")
}

/// The four files that the managed process needs: its configuration and, beside
/// it, the host's private key, the host's certificate and the authority's
/// certificate.
pub struct ArtifactPaths {
    pub config: String,
    pub host_key: String,
    pub host_crt: String,
    pub ca_crt: String,
}

/// The paths of the four files in the application's directory.
pub fn artifact_paths(app_dir: &str) -> (paths: ArtifactPaths)
    ensures
        paths.config@ == config_path_in(app_dir@),
        paths.host_key@ == joined(app_dir@, "host.key"@),
        paths.host_crt@ == joined(app_dir@, "host.crt"@),
        paths.ca_crt@ == joined(app_dir@, "ca.crt"@),
{
    ArtifactPaths {
        config: default_config_path(app_dir),
        host_key: join(app_dir, "host.key"),
        host_crt: join(app_dir, "host.crt"),
        ca_crt: join(app_dir, "ca.crt"),
    }
}

} // verus!
