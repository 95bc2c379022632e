use vstd::prelude::*;
use vstd::string::StringExecFns;

use crate::paths::{join_path, upload_dir, watch_dir, UPLOAD_DIR, WATCH_DIR};

verus! {

/// The layout of the artifacts that a build produces.
#[derive(Clone, Copy, Debug, PartialEq, Eq, Structural)]
pub enum ScriptFormat {
    ServiceWorker,
    Modules,
}

/// Settings of a project's build step.
#[derive(Clone, Debug, PartialEq)]
pub struct Builder {
    pub command: Option<String>,
    pub cwd: String,
    pub upload_dir: String,
    pub upload_format: ScriptFormat,
    pub watch_dir: String,
}

/// The settings of a `Builder` as values.
pub ghost struct BuilderView {
    pub command: Option<Seq<char>>,
    pub cwd: Seq<char>,
    pub upload_dir: Seq<char>,
    pub upload_format: ScriptFormat,
    pub watch_dir: Seq<char>,
}

/// The text of an optional string.
pub open spec fn opt_view(s: Option<String>) -> Option<Seq<char>> {
    match s {
        Some(t) => Some(t@),
        None => None,
    }
}

impl View for Builder {
    type V = BuilderView;

    open spec fn view(&self) -> BuilderView {
        BuilderView {
            command: opt_view(self.command),
            cwd: self.cwd@,
            upload_dir: self.upload_dir@,
            upload_format: self.upload_format,
            watch_dir: self.watch_dir@,
        }
    }
}

/// Build settings as a project's configuration gives them: a field that the
/// configuration leaves out is `None`.
#[derive(Clone, Debug, PartialEq)]
pub struct BuilderRecord {
    pub command: Option<String>,
    pub cwd: Option<String>,
    pub upload_dir: Option<String>,
    pub upload_format: ScriptFormat,
    pub watch_dir: Option<String>,
}

/// The value given, or `default` where none is.
pub open spec fn given_or(v: Option<String>, default: Seq<char>) -> Seq<char> {
    match v {
        Some(s) => s@,
        None => default,
    }
}

/// The settings that `record` describes for a project whose root is `root`:
/// the working directory defaults to the root, the output directory to
/// `dist` below it and the watched directory to `src` below it.
pub open spec fn settings_of(record: BuilderRecord, root: Seq<char>) -> BuilderView {
    BuilderView {
        command: opt_view(record.command),
        cwd: given_or(record.cwd, root),
        upload_dir: given_or(record.upload_dir, join_path(root, UPLOAD_DIR@)),
        upload_format: record.upload_format,
        watch_dir: given_or(record.watch_dir, join_path(root, WATCH_DIR@)),
    }
}

impl Builder {
    /// Settings with every field given.
    pub fn new(
        command: Option<String>,
        cwd: String,
        upload_dir: String,
        upload_format: ScriptFormat,
        watch_dir: String,
    ) -> (r: Builder)
        ensures
            r@ == (BuilderView {
                command: opt_view(command),
                cwd: cwd@,
                upload_dir: upload_dir@,
                upload_format,
                watch_dir: watch_dir@,
            }),
    {
        Builder { command, cwd, upload_dir, upload_format, watch_dir }
    }

    /// The settings that `record` describes, with the defaults of a project
    /// whose root is `root` in place of the fields it leaves out.
    pub fn from_record(record: BuilderRecord, root: &str) -> (r: Builder)
        ensures
            r@ == settings_of(record, root@),
    {
        let cwd = match record.cwd {
            Some(c) => c,
            None => root.to_string(),
        };
        let upload = match record.upload_dir {
            Some(u) => u,
            None => upload_dir(root),
        };
        let watch = match record.watch_dir {
            Some(w) => w,
            None => watch_dir(root),
        };
        Builder {
            command: record.command,
            cwd,
            upload_dir: upload,
            upload_format: record.upload_format,
            watch_dir: watch,
        }
    }
}

/// Shown when the output or the watched directory is the project root.
pub const LAYOUT_MESSAGE: &'static str =
    "Wrangler doesn't support using the project root as the watch directory or upload directory.";

/// Shown, followed by the path, when a configured directory is not one.
pub const NOT_DIR_MESSAGE: &'static str = "A path was provided that is not a directory: ";

/// Why a build configuration was refused.
#[derive(Clone, Debug, PartialEq)]
pub enum ConfigError {
    /// `path` could not be resolved to a canonical path, for the reason `cause`.
    PathResolution { path: String, cause: String },
    /// The directory `path` resolves to the project root itself.
    InvalidLayout { path: String },
    /// `path` exists but is not a directory.
    NotADirectory { path: String },
}

/// A `ConfigError` with its paths and causes as text.
pub ghost enum ConfigErrorView {
    PathResolution { path: Seq<char>, cause: Seq<char> },
    InvalidLayout { path: Seq<char> },
    NotADirectory { path: Seq<char> },
}

impl View for ConfigError {
    type V = ConfigErrorView;

    open spec fn view(&self) -> ConfigErrorView {
        match self {
            ConfigError::PathResolution { path, cause } => ConfigErrorView::PathResolution {
                path: path@,
                cause: cause@,
            },
            ConfigError::InvalidLayout { path } => ConfigErrorView::InvalidLayout { path: path@ },
            ConfigError::NotADirectory { path } => ConfigErrorView::NotADirectory { path: path@ },
        }
    }
}

/// The outcome of a check, with an error as its view.
pub open spec fn outcome_view(r: Result<(), ConfigError>) -> Result<(), ConfigErrorView> {
    match r {
        Ok(()) => Ok(()),
        Err(e) => Err(e@),
    }
}

impl ConfigError {
    /// The message shown to the user for this error.
    pub fn message(&self) -> (r: String)
        ensures
            r@ == match self@ {
                ConfigErrorView::PathResolution { path, cause } => "cannot resolve path "@ + path
                    + ": "@ + cause,
                ConfigErrorView::InvalidLayout { .. } => LAYOUT_MESSAGE@,
                ConfigErrorView::NotADirectory { path } => NOT_DIR_MESSAGE@ + path,
            },
    {
        proof {
            reveal_strlit("cannot resolve path ");
            reveal_strlit(": ");
        }
        match self {
            ConfigError::PathResolution { path, cause } => {
                let mut m = String::from_str("cannot resolve path ");
                m.append(path.as_str());
                m.append(": ");
                m.append(cause.as_str());
                m
            },
            ConfigError::InvalidLayout { .. } => String::from_str(LAYOUT_MESSAGE),
            ConfigError::NotADirectory { path } => {
                let mut m = String::from_str(NOT_DIR_MESSAGE);
                m.append(path.as_str());
                m
            },
        }
    }
}

/// What the filesystem reported about the paths that a check of a `Builder`
/// reads: the canonical form of each path, or why it could not be resolved,
/// and whether the configured directories are directories.
#[derive(Debug, PartialEq)]
pub struct FsSnapshot {
    /// The project root, as the process sees it.
    pub root: String,
    pub root_canonical: Result<String, String>,
    pub upload_canonical: Result<String, String>,
    pub watch_canonical: Result<String, String>,
    pub upload_is_dir: bool,
    pub watch_is_dir: bool,
}

/// The outcome of checking settings `b` against `fs`, one error at a time:
/// the output directory is resolved and compared with the root first, then
/// the watched directory, then the output and the watched directory must be
/// directories, in that order.
pub open spec fn check_outcome(b: BuilderView, fs: FsSnapshot) -> Result<(), ConfigErrorView> {
    match fs.upload_canonical {
        Err(c) => Err(ConfigErrorView::PathResolution { path: b.upload_dir, cause: c@ }),
        Ok(up) => match fs.root_canonical {
            Err(c) => Err(ConfigErrorView::PathResolution { path: fs.root@, cause: c@ }),
            Ok(root) => if up@ == root@ {
                Err(ConfigErrorView::InvalidLayout { path: b.upload_dir })
            } else {
                match fs.watch_canonical {
                    Err(c) => Err(ConfigErrorView::PathResolution { path: b.watch_dir, cause: c@ }),
                    Ok(w) => if w@ == root@ {
                        Err(ConfigErrorView::InvalidLayout { path: b.watch_dir })
                    } else if !fs.upload_is_dir {
                        Err(ConfigErrorView::NotADirectory { path: b.upload_dir })
                    } else if !fs.watch_is_dir {
                        Err(ConfigErrorView::NotADirectory { path: b.watch_dir })
                    } else {
                        Ok(())
                    },
                }
            },
        },
    }
}

impl Builder {
    /// Checks that neither the output nor the watched directory is the
    /// project root, and that both are directories, as `fs` reports them.
    pub fn verify_config(&self, fs: &FsSnapshot) -> (r: Result<(), ConfigError>)
        ensures
            outcome_view(r) == check_outcome(self@, *fs),
    {
        let up = match &fs.upload_canonical {
            Ok(p) => p,
            Err(c) => {
                return Err(
                    ConfigError::PathResolution { path: self.upload_dir.clone(), cause: c.clone() },
                );
            },
        };
        let root = match &fs.root_canonical {
            Ok(p) => p,
            Err(c) => {
                return Err(ConfigError::PathResolution { path: fs.root.clone(), cause: c.clone() });
            },
        };
        if *up == *root {
            return Err(ConfigError::InvalidLayout { path: self.upload_dir.clone() });
        }
        let watch = match &fs.watch_canonical {
            Ok(p) => p,
            Err(c) => {
                return Err(
                    ConfigError::PathResolution { path: self.watch_dir.clone(), cause: c.clone() },
                );
            },
        };
        if *watch == *root {
            return Err(ConfigError::InvalidLayout { path: self.watch_dir.clone() });
        }
        if !fs.upload_is_dir {
            return Err(ConfigError::NotADirectory { path: self.upload_dir.clone() });
        }
        if !fs.watch_is_dir {
            return Err(ConfigError::NotADirectory { path: self.watch_dir.clone() });
        }
        Ok(())
    }
}

/// The canonical path that `r` holds, where it holds one.
pub open spec fn resolved(r: Result<String, String>) -> Option<Seq<char>> {
    match r {
        Ok(p) => Some(p@),
        Err(_) => None,
    }
}

/// Where the output directory resolves to the project root, or the watched
/// directory does while the output directory resolves elsewhere, the settings
/// are refused as an invalid layout.
pub proof fn lemma_root_collision_refused(b: BuilderView, fs: FsSnapshot)
    requires
        resolved(fs.root_canonical) is Some,
        resolved(fs.upload_canonical) is Some,
        resolved(fs.upload_canonical) == resolved(fs.root_canonical) || resolved(
            fs.watch_canonical,
        ) == resolved(fs.root_canonical),
    ensures
        check_outcome(b, fs) matches Err(ConfigErrorView::InvalidLayout { .. }),
{
}

/// Where both directories resolve to paths other than the project root and
/// the output directory is not a directory, the settings are refused because
/// of the output directory.
pub proof fn lemma_output_not_directory_refused(b: BuilderView, fs: FsSnapshot)
    requires
        resolved(fs.root_canonical) is Some,
        resolved(fs.upload_canonical) is Some,
        resolved(fs.watch_canonical) is Some,
        resolved(fs.upload_canonical) != resolved(fs.root_canonical),
        resolved(fs.watch_canonical) != resolved(fs.root_canonical),
        !fs.upload_is_dir,
    ensures
        check_outcome(b, fs) == Err::<(), ConfigErrorView>(
            ConfigErrorView::NotADirectory { path: b.upload_dir },
        ),
{
}

/// Where both directories resolve to existing directories other than the
/// project root, the settings are accepted.
pub proof fn lemma_valid_layout_accepted(b: BuilderView, fs: FsSnapshot)
    requires
        resolved(fs.root_canonical) is Some,
        resolved(fs.upload_canonical) is Some,
        resolved(fs.watch_canonical) is Some,
        resolved(fs.upload_canonical) != resolved(fs.root_canonical),
        resolved(fs.watch_canonical) != resolved(fs.root_canonical),
        fs.upload_is_dir,
        fs.watch_is_dir,
    ensures
        check_outcome(b, fs) == Ok::<(), ConfigErrorView>(()),
{
}

/// Settings built from a record that gives every field hold exactly the
/// values given, whatever the project root: no default replaces them.
pub proof fn lemma_given_fields_kept(record: BuilderRecord, root: Seq<char>)
    requires
        record.cwd is Some,
        record.upload_dir is Some,
        record.watch_dir is Some,
    ensures
        settings_of(record, root) == (BuilderView {
            command: opt_view(record.command),
            cwd: record.cwd->Some_0@,
            upload_dir: record.upload_dir->Some_0@,
            upload_format: record.upload_format,
            watch_dir: record.watch_dir->Some_0@,
        }),
        forall|other: Seq<char>| settings_of(record, other) == settings_of(record, root),
{
}

/// Two checks of the same settings against the same filesystem state have
/// the same outcome.
pub proof fn lemma_check_repeatable(
    b: Builder,
    fs: FsSnapshot,
    first: Result<(), ConfigError>,
    second: Result<(), ConfigError>,
)
    requires
        outcome_view(first) == check_outcome(b@, fs),
        outcome_view(second) == check_outcome(b@, fs),
    ensures
        outcome_view(first) == outcome_view(second),
{
}

} // verus!
