//! Where each store lives.
//!
//! A development build keeps its stores at the project root, which lies a
//! fixed number of directories above the resource directory of the running
//! binary. A release build keeps them beside the executable. The host asks the
//! environment for the two directories; this module does the rest.

use vstd::prelude::*;
use vstd::string::*;

verus! {

/// How many directories the project root lies above the resource directory
/// of a development build.
pub const PROJECT_ROOT_LEVELS: usize = 3;

/// The name of the settings store.
pub const CONFIG_STORE: &'static str = "config";

/// The name of the store of recently opened documents.
pub const HISTORY_STORE: &'static str = "pdf-history";

/// The kind of build that is running.
#[derive(Debug, Clone, Copy, PartialEq, Eq)]
pub enum BuildMode {
    /// A development build.
    Debug,
    /// A production build.
    Release,
}

/// What the host found out about its environment. A field is `None` where
/// the host could not determine it, or did not ask.
#[derive(Debug, Clone, PartialEq, Eq)]
pub struct HostContext {
    /// The resource directory of the running binary.
    pub resource_dir: Option<String>,
    /// The path of the running executable.
    pub executable: Option<String>,
}

/// What a [`HostContext`] holds, as mathematical values.
pub ghost struct HostContextView {
    pub resource_dir: Option<Seq<char>>,
    pub executable: Option<Seq<char>>,
}

impl View for HostContext {
    type V = HostContextView;

    open spec fn view(&self) -> HostContextView {
        HostContextView {
            resource_dir: text_view(self.resource_dir),
            executable: text_view(self.executable),
        }
    }
}

/// The resolved place of a store: its file and the directory that has to
/// exist before the file can be written. There is no directory where the
/// file's path has no parent.
#[derive(Debug, Clone, PartialEq, Eq)]
pub struct StoreLocation {
    pub file: String,
    pub directory: Option<String>,
}

/// What a [`StoreLocation`] holds, as mathematical values.
pub ghost struct StoreLocationView {
    pub file: Seq<char>,
    pub directory: Option<Seq<char>>,
}

impl View for StoreLocation {
    type V = StoreLocationView;

    open spec fn view(&self) -> StoreLocationView {
        StoreLocationView { file: self.file@, directory: text_view(self.directory) }
    }
}

/// Why a store's location could not be resolved.
#[derive(Debug, Clone, Copy, PartialEq, Eq)]
pub enum PathResolutionError {
    /// A development build whose resource directory is unknown.
    ResourceDirUnavailable,
    /// A release build whose executable path is unknown.
    ExecutableUnavailable,
    /// The path to start from has too few parent directories.
    NoParentDirectory,
}

impl PathResolutionError {
    /// The error in words.
    pub open spec fn message_text(self) -> Seq<char> {
        match self {
            PathResolutionError::ResourceDirUnavailable => "resource directory unavailable"@,
            PathResolutionError::ExecutableUnavailable => "executable path unavailable"@,
            PathResolutionError::NoParentDirectory => "no parent directory to resolve from"@,
        }
    }

    /// The error in words.
    pub fn message(&self) -> (text: String)
        ensures
            text@ == self.message_text(),
    {
        match self {
            PathResolutionError::ResourceDirUnavailable => String::from_str(
                "resource directory unavailable",
            ),
            PathResolutionError::ExecutableUnavailable => String::from_str(
                "executable path unavailable",
            ),
            PathResolutionError::NoParentDirectory => String::from_str(
                "no parent directory to resolve from",
            ),
        }
    }
}

/// An optional string by its characters.
pub open spec fn text_view(text: Option<String>) -> Option<Seq<char>> {
    match text {
        Some(t) => Some(t@),
        None => None,
    }
}

/// The parent of `path` as `std::path::Path::parent` gives it, by the path
/// conventions of the platform that the crate is built for: the path without
/// its last component, and nothing where there is no such component.
pub uninterp spec fn path_parent(path: Seq<char>) -> Option<Seq<char>>;

/// `name` adjoined to `directory` as `std::path::Path::join` does it, by the
/// path conventions of the platform that the crate is built for.
pub uninterp spec fn path_join(directory: Seq<char>, name: Seq<char>) -> Seq<char>;

/// `path` after `levels` steps to the parent directory; nothing where a step
/// finds no parent.
pub open spec fn ancestor(path: Seq<char>, levels: nat) -> Option<Seq<char>>
    decreases levels,
{
    if levels == 0 {
        Some(path)
    } else {
        match path_parent(path) {
            Some(parent) => ancestor(parent, (levels - 1) as nat),
            None => None,
        }
    }
}

/// The directory that holds the stores of a build.
pub open spec fn anchor(mode: BuildMode, host: HostContextView) -> Result<
    Seq<char>,
    PathResolutionError,
> {
    match mode {
        BuildMode::Debug => match host.resource_dir {
            None => Err(PathResolutionError::ResourceDirUnavailable),
            Some(resources) => match ancestor(resources, PROJECT_ROOT_LEVELS as nat) {
                None => Err(PathResolutionError::NoParentDirectory),
                Some(root) => Ok(root),
            },
        },
        BuildMode::Release => match host.executable {
            None => Err(PathResolutionError::ExecutableUnavailable),
            Some(executable) => match path_parent(executable) {
                None => Err(PathResolutionError::NoParentDirectory),
                Some(directory) => Ok(directory),
            },
        },
    }
}

/// The location of the file `path`.
pub open spec fn location_at(path: Seq<char>) -> StoreLocationView {
    StoreLocationView { file: path, directory: path_parent(path) }
}

/// The location of the store `store_name`: the file of that name, with the
/// suffix `.json`, in the build's anchor directory.
pub open spec fn resolved(store_name: Seq<char>, mode: BuildMode, host: HostContextView) -> Result<
    StoreLocationView,
    PathResolutionError,
> {
    match anchor(mode, host) {
        Err(error) => Err(error),
        Ok(directory) => Ok(location_at(path_join(directory, store_name + ".json"@))),
    }
}

/// A resolution result by its view.
pub open spec fn resolution_view(result: Result<StoreLocation, PathResolutionError>) -> Result<
    StoreLocationView,
    PathResolutionError,
> {
    match result {
        Ok(location) => Ok(location@),
        Err(error) => Err(error),
    }
}

/// Calls `std::path::Path::parent` on `path` and hands the result back as a
/// string. Trusted: the result is what [`path_parent`] names. The parent of a
/// path that is valid UTF-8 is a prefix of it, so the conversion back loses
/// nothing.
#[verifier::external_body]
fn parent_of(path: &str) -> (parent: Option<String>)
    ensures
        text_view(parent) == path_parent(path@),
{
    std::path::Path::new(path).parent().map(|p| p.to_string_lossy().into_owned())
}

/// Calls `std::path::Path::join` on `directory` with `name` and hands the
/// result back as a string. Trusted: the result is what [`path_join`] names.
#[verifier::external_body]
fn join_path(directory: &str, name: &str) -> (joined: String)
    ensures
        joined@ == path_join(directory@, name@),
{
    std::path::Path::new(directory).join(name).to_string_lossy().into_owned()
}

/// Walks `levels` directories up from `path`.
pub fn ancestor_of(path: &str, levels: usize) -> (found: Option<String>)
    ensures
        text_view(found) == ancestor(path@, levels as nat),
{
    let mut current = String::from_str(path);
    let mut left = levels;
    while left > 0
        invariant
            ancestor(current@, left as nat) == ancestor(path@, levels as nat),
        decreases left,
    {
        match parent_of(current.as_str()) {
            Some(parent) => {
                current = parent;
            },
            None => {
                return None;
            },
        }
        left -= 1;
    }
    Some(current)
}

impl StoreLocation {
    /// The location of the file `path`, with the directory that holds it.
    pub fn at(path: String) -> (location: StoreLocation)
        ensures
            location@ == location_at(path@),
    {
        let directory = parent_of(path.as_str());
        StoreLocation { file: path, directory }
    }
}

/// Resolves the location of the store `store_name` for a build of kind `mode`
/// in the environment `host`. Fails where the environment does not give the
/// directory to start from, or that directory lacks the parents to walk up.
pub fn resolve(store_name: &str, mode: BuildMode, host: &HostContext) -> (result: Result<
    StoreLocation,
    PathResolutionError,
>)
    ensures
        resolution_view(result) == resolved(store_name@, mode, host@),
{
    let directory = match mode {
        BuildMode::Debug => match &host.resource_dir {
            None => {
                return Err(PathResolutionError::ResourceDirUnavailable);
            },
            Some(resources) => match ancestor_of(resources.as_str(), PROJECT_ROOT_LEVELS) {
                None => {
                    return Err(PathResolutionError::NoParentDirectory);
                },
                Some(root) => root,
            },
        },
        BuildMode::Release => match &host.executable {
            None => {
                return Err(PathResolutionError::ExecutableUnavailable);
            },
            Some(executable) => match parent_of(executable.as_str()) {
                None => {
                    return Err(PathResolutionError::NoParentDirectory);
                },
                Some(directory) => directory,
            },
        },
    };
    let mut file_name = String::from_str(store_name);
    file_name.append(".json");
    let file = join_path(directory.as_str(), file_name.as_str());
    Ok(StoreLocation::at(file))
}

/// The location of the settings store.
pub fn get_config_path(mode: BuildMode, host: &HostContext) -> (result: Result<
    StoreLocation,
    PathResolutionError,
>)
    ensures
        resolution_view(result) == resolved(CONFIG_STORE@, mode, host@),
{
    resolve(CONFIG_STORE, mode, host)
}

/// The location of the store of recently opened documents.
pub fn get_pdf_history_path(mode: BuildMode, host: &HostContext) -> (result: Result<
    StoreLocation,
    PathResolutionError,
>)
    ensures
        resolution_view(result) == resolved(HISTORY_STORE@, mode, host@),
{
    resolve(HISTORY_STORE, mode, host)
}

/// Both stores of a build lie in one directory: they resolve together or
/// fail together, with the same error, and where they resolve, each file is
/// its store's name joined to the build's anchor.
pub proof fn law_stores_share_their_directory(mode: BuildMode, host: HostContextView)
    ensures
        match anchor(mode, host) {
            Ok(directory) => {
                &&& resolved(CONFIG_STORE@, mode, host) == Ok::<
                    StoreLocationView,
                    PathResolutionError,
                >(location_at(path_join(directory, CONFIG_STORE@ + ".json"@)))
                &&& resolved(HISTORY_STORE@, mode, host) == Ok::<
                    StoreLocationView,
                    PathResolutionError,
                >(location_at(path_join(directory, HISTORY_STORE@ + ".json"@)))
            },
            Err(error) => {
                &&& resolved(CONFIG_STORE@, mode, host) == Err::<
                    StoreLocationView,
                    PathResolutionError,
                >(error)
                &&& resolved(HISTORY_STORE@, mode, host) == Err::<
                    StoreLocationView,
                    PathResolutionError,
                >(error)
            },
        },
{
}

} // verus!
