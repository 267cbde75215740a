//! The configuration tree: a `Config` owns its `Space`s, each `Space` owns
//! its `App`s, in order.
use vstd::prelude::*;

verus! {

/// One launchable entry: a display label and the path or URI to open.
#[derive(Debug, PartialEq, Eq)]
pub struct App {
    pub label: String,
    pub target: String,
}

/// A named, ordered group of apps. Insertion order is launch order.
#[derive(Debug, PartialEq, Eq)]
pub struct Space {
    pub name: String,
    pub apps: Vec<App>,
}

/// The whole persisted document: every space, in the order it was created.
#[derive(Debug, PartialEq, Eq)]
pub struct Config {
    pub spaces: Vec<Space>,
}

/// Mathematical value of an `App`.
pub struct AppView {
    pub label: Seq<char>,
    pub target: Seq<char>,
}

/// Mathematical value of a `Space`.
pub struct SpaceView {
    pub name: Seq<char>,
    pub apps: Seq<AppView>,
}

impl View for App {
    type V = AppView;

    open spec fn view(&self) -> AppView {
        AppView { label: self.label@, target: self.target@ }
    }
}

impl View for Space {
    type V = SpaceView;

    open spec fn view(&self) -> SpaceView {
        SpaceView { name: self.name@, apps: self.apps@.map_values(|a: App| a@) }
    }
}

impl View for Config {
    type V = Seq<SpaceView>;

    open spec fn view(&self) -> Seq<SpaceView> {
        self.spaces@.map_values(|s: Space| s@)
    }
}

/// No two spaces share a name (exact, case-sensitive comparison).
pub open spec fn names_unique(spaces: Seq<SpaceView>) -> bool {
    forall|i: int, j: int|
        0 <= i < spaces.len() && 0 <= j < spaces.len() && i != j ==> #[trigger] spaces[i].name
            != #[trigger] spaces[j].name
}

/// Some space is named exactly `name`.
pub open spec fn has_space(spaces: Seq<SpaceView>, name: Seq<char>) -> bool {
    exists|i: int| 0 <= i < spaces.len() && #[trigger] spaces[i].name == name
}

/// The spaces after a new, empty space called `name` is appended.
pub open spec fn with_space(spaces: Seq<SpaceView>, name: Seq<char>) -> Seq<SpaceView> {
    spaces.push(SpaceView { name, apps: Seq::empty() })
}

/// The spaces after `app` is appended to the space called `name`; every other
/// space is left as it was.
pub open spec fn with_app(spaces: Seq<SpaceView>, name: Seq<char>, app: AppView) -> Seq<
    SpaceView,
> {
    spaces.map_values(
        |s: SpaceView|
            if s.name == name {
                SpaceView { name: s.name, apps: s.apps.push(app) }
            } else {
                s
            },
    )
}

impl App {
    /// A new app entry.
    pub fn new(label: String, target: String) -> (r: App)
        ensures
            r.label@ == label@,
            r.target@ == target@,
    {
        App { label, target }
    }
}

impl Config {
    /// The configuration holds no two spaces with the same name.
    pub open spec fn wf(&self) -> bool {
        names_unique(self@)
    }

    /// The empty configuration written on first use.
    pub fn new() -> (r: Config)
        ensures
            r@ == Seq::<SpaceView>::empty(),
            r.wf(),
    {
        let r = Config { spaces: Vec::new() };
        assert(r@ =~= Seq::<SpaceView>::empty());
        r
    }
}

} // verus!
