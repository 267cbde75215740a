//! Operations over an in-memory configuration that keep space names unique.
//! Nothing here touches storage: callers load, call, and save.
use vstd::prelude::*;
use crate::model::{App, AppView, Config, Space, SpaceView, has_space, names_unique, with_app, with_space};

verus! {

/// Why an operation on the spaces of a configuration was refused.
#[derive(Debug, Clone, Copy, PartialEq, Eq, Structural)]
pub enum SpaceError {
    /// A space with exactly this name already exists.
    DuplicateName,
    /// No space has exactly this name.
    SpaceNotFound,
}

impl Config {
    /// Index of the first space named exactly `name`.
    fn position(&self, name: &String) -> (r: Option<usize>)
        ensures
            match r {
                Some(i) => {
                    &&& i < self@.len()
                    &&& self@[i as int].name == name@
                    &&& forall|j: int| 0 <= j < i ==> self@[j].name != name@
                },
                None => !has_space(self@, name@),
            },
    {
        let mut i: usize = 0;
        while i < self.spaces.len()
            invariant
                i <= self.spaces.len(),
                forall|j: int| 0 <= j < i ==> self@[j].name != name@,
            decreases self.spaces.len() - i,
        {
            if self.spaces[i].name == *name {
                return Some(i);
            }
            i = i + 1;
        }
        None
    }

    /// The space named exactly `name`, if there is one. No partial or
    /// case-insensitive match is made.
    pub fn find_space(&self, name: &String) -> (r: Option<&Space>)
        ensures
            match r {
                Some(s) => s@.name == name@ && self@.contains(s@),
                None => !has_space(self@, name@),
            },
    {
        match self.position(name) {
            Some(i) => Some(&self.spaces[i]),
            None => None,
        }
    }

    /// Appends a new, empty space called `name`, unless one of that name
    /// already exists; then nothing changes.
    pub fn create_space(&mut self, name: String) -> (r: Result<(), SpaceError>)
        requires
            old(self).wf(),
        ensures
            final(self).wf(),
            has_space(old(self)@, name@) ==> r == Err::<(), SpaceError>(SpaceError::DuplicateName)
                && *final(self) == *old(self),
            !has_space(old(self)@, name@) ==> r is Ok && final(self)@ == with_space(
                old(self)@,
                name@,
            ),
    {
        if self.position(&name).is_some() {
            return Err(SpaceError::DuplicateName);
        }
        let ghost pre = self@;
        let space = Space { name, apps: Vec::new() };
        assert(space@.apps =~= Seq::<AppView>::empty());
        self.spaces.push(space);
        assert(self@ =~= with_space(pre, space@.name));
        Ok(())
    }

    /// Appends the app `label`/`target` to the end of the space named
    /// exactly `space`. The app is not checked or deduplicated.
    pub fn add_app(&mut self, space: &String, label: String, target: String) -> (r: Result<
        (),
        SpaceError,
    >)
        requires
            old(self).wf(),
        ensures
            final(self).wf(),
            has_space(old(self)@, space@) ==> r is Ok && final(self)@ == with_app(
                old(self)@,
                space@,
                AppView { label: label@, target: target@ },
            ),
            !has_space(old(self)@, space@) ==> r == Err::<(), SpaceError>(SpaceError::SpaceNotFound)
                && *final(self) == *old(self),
    {
        let i = match self.position(space) {
            Some(i) => i,
            None => {
                return Err(SpaceError::SpaceNotFound);
            },
        };
        let ghost pre = self@;
        let app = App::new(label, target);
        let ghost av = app@;
        let mut s = self.spaces.remove(i);
        let ghost old_apps = s.apps@;
        s.apps.push(app);
        assert(s@.apps =~= pre[i as int].apps.push(av)) by {
            assert(old_apps.map_values(|a: App| a@) == pre[i as int].apps);
        }
        self.spaces.insert(i, s);
        assert(self@ =~= with_app(pre, space@, av)) by {
            assert forall|k: int| 0 <= k < pre.len() implies #[trigger] self@[k] == with_app(
                pre,
                space@,
                av,
            )[k] by {
                if k != i {
                    assert(pre[k].name != pre[i as int].name);
                }
            }
        }
        Ok(())
    }

    /// With a name: the one space of that name, or `SpaceNotFound`.
    /// Without: every space, in stored order.
    pub fn list(&self, space: Option<&String>) -> (r: Result<Vec<&Space>, SpaceError>)
        ensures
            match space {
                None => r is Ok && r->Ok_0@.map_values(|s: &Space| s@) == self@,
                Some(n) => if has_space(self@, n@) {
                    &&& r is Ok
                    &&& r->Ok_0@.len() == 1
                    &&& r->Ok_0@[0]@.name == n@
                    &&& self@.contains(r->Ok_0@[0]@)
                } else {
                    r == Err::<Vec<&Space>, SpaceError>(SpaceError::SpaceNotFound)
                },
            },
    {
        match space {
            Some(n) => match self.find_space(n) {
                Some(s) => Ok(vec![s]),
                None => Err(SpaceError::SpaceNotFound),
            },
            None => {
                let mut out: Vec<&Space> = Vec::new();
                let mut i: usize = 0;
                while i < self.spaces.len()
                    invariant
                        i <= self.spaces.len(),
                        out@.len() == i,
                        forall|k: int| 0 <= k < i ==> *#[trigger] out@[k] == self.spaces@[k],
                    decreases self.spaces.len() - i,
                {
                    out.push(&self.spaces[i]);
                    i = i + 1;
                }
                assert(out@.map_values(|s: &Space| s@) =~= self@);
                Ok(out)
            },
        }
    }
}

/// Adding apps `a`, `b`, then `c` to the same space keeps that space (so
/// each add finds it) and leaves its apps ending in exactly `a`, `b`, `c`, in
/// that order; no other space changes.
pub proof fn lemma_append_order(
    spaces: Seq<SpaceView>,
    name: Seq<char>,
    a: AppView,
    b: AppView,
    c: AppView,
)
    requires
        names_unique(spaces),
        has_space(spaces, name),
    ensures
        has_space(with_app(spaces, name, a), name),
        has_space(with_app(with_app(spaces, name, a), name, b), name),
        ({
            let after = with_app(with_app(with_app(spaces, name, a), name, b), name, c);
            &&& names_unique(after)
            &&& after.len() == spaces.len()
            &&& forall|i: int|
                0 <= i < spaces.len() ==> (#[trigger] after[i]).name == spaces[i].name && (
                if spaces[i].name == name {
                    after[i].apps == spaces[i].apps + seq![a, b, c]
                } else {
                    after[i] == spaces[i]
                })
        }),
{
    let i = choose|i: int| 0 <= i < spaces.len() && #[trigger] spaces[i].name == name;
    let s1 = with_app(spaces, name, a);
    let s2 = with_app(s1, name, b);
    let s3 = with_app(s2, name, c);
    assert(s1[i].name == name);
    assert(s2[i].name == name);
    assert forall|k: int| 0 <= k < spaces.len() && spaces[k].name == name implies s3[k].apps
        == spaces[k].apps + seq![a, b, c] by {
        assert(s3[k].apps =~= spaces[k].apps + seq![a, b, c]);
    }
}

} // verus!
