//! Where the configuration file lives, and what a load makes of what is
//! (or is not) found there. Reading and writing the file, and its text
//! format, are left to the caller.
use vstd::prelude::*;
use std::path::PathBuf;
use crate::model::{Config, Space, SpaceView, names_unique};

verus! {

/// `std::path::PathBuf`, carried through unopened.
#[verifier::external_type_specification]
#[verifier::external_body]
pub struct ExPathBuf(std::path::PathBuf);

/// Fixed reverse-domain identifier of the directory that holds the file.
pub const APP_ID: &'static str = "com.calejvaldez.space";

/// Name of the configuration file inside that directory.
pub const CONFIG_FILE_NAME: &'static str = "config.toml";

/// Why the configuration could not be located or loaded.
#[derive(Debug, Clone, Copy, PartialEq, Eq, Structural)]
pub enum StoreError {
    /// No per-user configuration directory is known on this platform.
    Environment,
    /// The existing file does not hold a valid configuration.
    CorruptConfig,
}

/// The directory that holds the configuration file, and the file itself.
pub struct ConfigLocation {
    pub dir: PathBuf,
    pub file: PathBuf,
}

/// Relies on `dirs::config_dir`: the user's configuration directory, or
/// `None` where the platform has none. It reads the environment, so nothing
/// is promised of the value.
#[verifier::external_body]
fn user_config_dir() -> Option<PathBuf> {
    dirs::config_dir()
}

/// The path `base` extended by the component `part`, as `Path::join` builds
/// it.
pub uninterp spec fn joined(base: PathBuf, part: Seq<char>) -> PathBuf;

/// Relies on `std::path::Path::join`: `base` extended by the component
/// `part`; the result depends on the two arguments alone.
#[verifier::external_body]
fn join_path(base: &PathBuf, part: &str) -> (r: PathBuf)
    ensures
        r == joined(*base, part@),
{
    base.join(part)
}

/// The configuration's location under the per-user directory `base`: the
/// directory `base/APP_ID` and the file `CONFIG_FILE_NAME` in it;
/// `Environment` exactly when there is no such directory.
pub fn config_location(base: Option<PathBuf>) -> (r: Result<ConfigLocation, StoreError>)
    ensures
        base is None <==> r is Err,
        r is Err ==> r == Err::<ConfigLocation, StoreError>(StoreError::Environment),
        base is Some ==> r is Ok && r->Ok_0.dir == joined(base->Some_0, APP_ID@) && r->Ok_0.file
            == joined(joined(base->Some_0, APP_ID@), CONFIG_FILE_NAME@),
{
    match base {
        None => Err(StoreError::Environment),
        Some(b) => {
            let dir = join_path(&b, APP_ID);
            let file = join_path(&dir, CONFIG_FILE_NAME);
            Ok(ConfigLocation { dir, file })
        },
    }
}

/// The configuration's location for the current user; the only failure is
/// `Environment`.
pub fn resolve_path() -> (r: Result<ConfigLocation, StoreError>)
    ensures
        r is Err ==> r == Err::<ConfigLocation, StoreError>(StoreError::Environment),
{
    config_location(user_config_dir())
}

/// The view of what a load found: `None` when there was no file, `Some(None)`
/// when its text did not parse, else the spaces it held.
pub open spec fn found_view(found: Option<Option<Vec<Space>>>) -> Option<Option<Seq<SpaceView>>> {
    match found {
        None => None,
        Some(None) => Some(None),
        Some(Some(v)) => Some(Some(v@.map_values(|s: Space| s@))),
    }
}

/// What a load yields from what it found: with no file, the empty
/// configuration, which must then be written (`true`); otherwise the stored
/// spaces, if they parse and their names are unique.
pub open spec fn load_outcome(found: Option<Option<Seq<SpaceView>>>) -> Result<
    (Seq<SpaceView>, bool),
    StoreError,
> {
    match found {
        None => Ok((Seq::empty(), true)),
        Some(None) => Err(StoreError::CorruptConfig),
        Some(Some(s)) => if names_unique(s) {
            Ok((s, false))
        } else {
            Err(StoreError::CorruptConfig)
        },
    }
}

/// A loaded configuration, and whether it was just created and so still has
/// to be written out.
pub struct Loaded {
    pub config: Config,
    pub created: bool,
}

/// Whether no two of `spaces` share a name.
fn names_distinct(spaces: &Vec<Space>) -> (r: bool)
    ensures
        r == names_unique(spaces@.map_values(|s: Space| s@)),
{
    let ghost v = spaces@.map_values(|s: Space| s@);
    let mut i: usize = 0;
    while i < spaces.len()
        invariant
            i <= spaces.len(),
            v == spaces@.map_values(|s: Space| s@),
            forall|a: int, b: int| 0 <= a < i && 0 <= b < i && a != b ==> #[trigger] v[a].name != #[trigger] v[b].name,
        decreases spaces.len() - i,
    {
        let mut j: usize = 0;
        while j < i
            invariant
                i < spaces.len(),
                j <= i,
                v == spaces@.map_values(|s: Space| s@),
                forall|a: int, b: int| 0 <= a < i && 0 <= b < i && a != b ==> #[trigger] v[a].name != #[trigger] v[b].name,
                forall|b: int| 0 <= b < j ==> v[b].name != v[i as int].name,
            decreases i - j,
        {
            if spaces[j].name == spaces[i].name {
                assert(v[j as int].name == v[i as int].name);
                return false;
            }
            j = j + 1;
        }
        i = i + 1;
    }
    true
}

impl Config {
    /// A configuration holding `spaces` as they are, or `CorruptConfig` when
    /// two of them share a name.
    pub fn from_spaces(spaces: Vec<Space>) -> (r: Result<Config, StoreError>)
        ensures
            names_unique(spaces@.map_values(|s: Space| s@)) <==> r is Ok,
            r is Ok ==> r->Ok_0.spaces == spaces && r->Ok_0.wf(),
            r is Err ==> r == Err::<Config, StoreError>(StoreError::CorruptConfig),
    {
        if names_distinct(&spaces) {
            Ok(Config { spaces })
        } else {
            Err(StoreError::CorruptConfig)
        }
    }
}

/// Settles a load from what was found at the configuration's location:
/// `None` when no file exists, `Some(None)` when its text did not parse as a
/// configuration, `Some(Some(spaces))` otherwise.
pub fn settle_load(found: Option<Option<Vec<Space>>>) -> (r: Result<Loaded, StoreError>)
    ensures
        match r {
            Ok(l) => load_outcome(found_view(found)) == Ok::<(Seq<SpaceView>, bool), StoreError>(
                (l.config@, l.created),
            ) && l.config.wf(),
            Err(e) => load_outcome(found_view(found)) == Err::<(Seq<SpaceView>, bool), StoreError>(
                e,
            ),
        },
{
    match found {
        None => Ok(Loaded { config: Config::new(), created: true }),
        Some(None) => Err(StoreError::CorruptConfig),
        Some(Some(spaces)) => match Config::from_spaces(spaces) {
            Ok(config) => Ok(Loaded { config, created: false }),
            Err(e) => Err(e),
        },
    }
}

/// Loading a configuration that did not exist, then loading again what was
/// written for it, gives two equal, empty configurations.
pub proof fn lemma_fresh_load_twice()
    ensures
        load_outcome(None) == Ok::<(Seq<SpaceView>, bool), StoreError>((Seq::empty(), true)),
        load_outcome(Some(Some(Seq::empty()))) == Ok::<(Seq<SpaceView>, bool), StoreError>(
            (Seq::empty(), false),
        ),
{
}

/// Any valid configuration, once read back unchanged from its file, is
/// accepted by a load as it was: same spaces, same order, same apps.
pub proof fn lemma_load_accepts_saved(spaces: Seq<SpaceView>)
    requires
        names_unique(spaces),
    ensures
        load_outcome(Some(Some(spaces))) == Ok::<(Seq<SpaceView>, bool), StoreError>(
            (spaces, false),
        ),
{
}

} // verus!
