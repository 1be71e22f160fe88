use vstd::prelude::*;

verus! {

/// One component of a path after normalisation: `..`, or a plain name.
/// Root markers and `.` components carry no segment and are not held.
#[derive(Debug, PartialEq, Eq)]
pub enum Component {
    ParentDir,
    Normal(String),
}

/// A filesystem path as the sequence of its components, and whether it
/// starts at the root.
#[derive(Debug, PartialEq, Eq)]
pub struct FsPath {
    pub absolute: bool,
    pub parts: Vec<Component>,
}

/// The mathematical value of a path: `None` stands for a `..` component,
/// `Some(name)` for a plain one.
pub struct PathView {
    pub absolute: bool,
    pub parts: Seq<Option<Seq<char>>>,
}

impl View for Component {
    type V = Option<Seq<char>>;

    open spec fn view(&self) -> Option<Seq<char>> {
        match self {
            Component::ParentDir => None,
            Component::Normal(s) => Some(s@),
        }
    }
}

impl View for FsPath {
    type V = PathView;

    open spec fn view(&self) -> PathView {
        PathView { absolute: self.absolute, parts: self.parts@.map_values(|c: Component| c@) }
    }
}

/// The view of an optional path.
pub open spec fn opt_view(p: Option<FsPath>) -> Option<PathView> {
    match p {
        Some(q) => Some(q@),
        None => None,
    }
}

/// `base` joined with `other`: an absolute `other` replaces `base`.
pub open spec fn join_spec(base: PathView, other: PathView) -> PathView {
    if other.absolute {
        other
    } else {
        PathView { absolute: base.absolute, parts: base.parts + other.parts }
    }
}

/// `base` with one plain name appended.
pub open spec fn push_spec(base: PathView, name: Seq<char>) -> PathView {
    PathView { absolute: base.absolute, parts: base.parts.push(Some(name)) }
}

/// The final segment of a path: its last component where that is a plain
/// name; none for an empty path, the root, or a path ending in `..`.
pub open spec fn file_name_spec(p: PathView) -> Option<Seq<char>> {
    if p.parts.len() == 0 {
        None
    } else {
        p.parts.last()
    }
}

/// The path without its last component; none where it has no components.
pub open spec fn parent_spec(p: PathView) -> Option<PathView> {
    if p.parts.len() == 0 {
        None
    } else {
        Some(PathView { absolute: p.absolute, parts: p.parts.drop_last() })
    }
}

/// `prefix` is a leading part of `p`, component by component.
pub open spec fn starts_with_spec(p: PathView, prefix: PathView) -> bool {
    &&& p.absolute == prefix.absolute
    &&& prefix.parts.len() <= p.parts.len()
    &&& p.parts.subrange(0, prefix.parts.len() as int) == prefix.parts
}

/// What is left of `p` once `prefix` is taken off its front, as a relative
/// path.
pub open spec fn strip_prefix_spec(p: PathView, prefix: PathView) -> PathView {
    PathView { absolute: false, parts: p.parts.subrange(prefix.parts.len() as int, p.parts.len() as int) }
}

impl Component {
    /// A copy of this component.
    pub fn duplicate(&self) -> (r: Component)
        ensures
            r@ == self@,
    {
        match self {
            Component::ParentDir => Component::ParentDir,
            Component::Normal(s) => Component::Normal(s.clone()),
        }
    }
}

impl FsPath {
    /// A copy of this path.
    pub fn duplicate(&self) -> (r: FsPath)
        ensures
            r@ == self@,
    {
        let mut parts: Vec<Component> = Vec::new();
        let n = self.parts.len();
        for i in 0..n
            invariant
                n == self.parts.len(),
                parts@.len() == i,
                forall|j: int| 0 <= j < i ==> #[trigger] parts@[j]@ == self.parts@[j]@,
        {
            parts.push(self.parts[i].duplicate());
        }
        let r = FsPath { absolute: self.absolute, parts };
        assert(r@.parts =~= self@.parts);
        r
    }

    /// This path joined with `other`, as `Path::join` does it: an absolute
    /// `other` replaces it, a relative one is appended.
    pub fn join(&self, other: &FsPath) -> (r: FsPath)
        ensures
            r@ == join_spec(self@, other@),
    {
        if other.absolute {
            return other.duplicate();
        }
        let mut r = self.duplicate();
        let n = other.parts.len();
        for i in 0..n
            invariant
                n == other.parts.len(),
                r@.absolute == self@.absolute,
                r@.parts == self@.parts + other@.parts.subrange(0, i as int),
        {
            let ghost before = r@.parts;
            let c = other.parts[i].duplicate();
            r.parts.push(c);
            assert(r@.parts =~= before.push(c@));
            assert(other@.parts.subrange(0, i + 1) =~= other@.parts.subrange(0, i as int).push(
                other@.parts[i as int],
            ));
            assert(r@.parts =~= self@.parts + other@.parts.subrange(0, i + 1));
        }
        assert(other@.parts.subrange(0, n as int) =~= other@.parts);
        r
    }

    /// This path with the plain name `name` appended.
    pub fn join_name(&self, name: &str) -> (r: FsPath)
        ensures
            r@ == push_spec(self@, name@),
    {
        let mut r = self.duplicate();
        r.parts.push(Component::Normal(name.to_owned()));
        assert(r@.parts =~= self@.parts.push(Some(name@)));
        r
    }

    /// The final segment of the path, if it ends in a plain name.
    pub fn file_name(&self) -> (r: Option<String>)
        ensures
            match r {
                Some(s) => file_name_spec(self@) == Some(s@),
                None => file_name_spec(self@) is None,
            },
    {
        let n = self.parts.len();
        if n == 0 {
            return None;
        }
        match &self.parts[n - 1] {
            Component::ParentDir => None,
            Component::Normal(s) => Some(s.clone()),
        }
    }

    /// Whether `base` is a leading part of this path, component by component.
    pub fn starts_with(&self, base: &FsPath) -> (r: bool)
        ensures
            r == starts_with_spec(self@, base@),
    {
        let n = base.parts.len();
        if self.absolute != base.absolute || n > self.parts.len() {
            return false;
        }
        for i in 0..n
            invariant
                n == base.parts.len(),
                n <= self.parts.len(),
                forall|j: int| 0 <= j < i ==> #[trigger] self@.parts[j] == base@.parts[j],
        {
            assert(self@.parts[i as int] == self.parts@[i as int]@);
            assert(base@.parts[i as int] == base.parts@[i as int]@);
            let same = match (&self.parts[i], &base.parts[i]) {
                (Component::ParentDir, Component::ParentDir) => true,
                (Component::Normal(a), Component::Normal(b)) => a.eq(b),
                _ => false,
            };
            if !same {
                assert(self@.parts.subrange(0, n as int)[i as int] != base@.parts[i as int]);
                return false;
            }
        }
        assert(self@.parts.subrange(0, n as int) =~= base@.parts);
        true
    }

    /// What is left of this path once `base` is taken off its front.
    pub fn strip_prefix(&self, base: &FsPath) -> (r: FsPath)
        requires
            starts_with_spec(self@, base@),
        ensures
            r@ == strip_prefix_spec(self@, base@),
    {
        let mut parts: Vec<Component> = Vec::new();
        let start = base.parts.len();
        let n = self.parts.len();
        for i in start..n
            invariant
                n == self.parts.len(),
                start <= n,
                parts@.len() == i - start,
                forall|j: int| 0 <= j < i - start ==> #[trigger] parts@[j]@ == self.parts@[j + start]@,
        {
            parts.push(self.parts[i].duplicate());
        }
        let r = FsPath { absolute: false, parts };
        assert(r@.parts =~= self@.parts.subrange(start as int, n as int));
        r
    }

    /// The path without its last component, if it has one.
    pub fn parent(&self) -> (r: Option<FsPath>)
        ensures
            opt_view(r) == parent_spec(self@),
    {
        let n = self.parts.len();
        if n == 0 {
            return None;
        }
        let mut parts: Vec<Component> = Vec::new();
        for i in 0..n - 1
            invariant
                n == self.parts.len(),
                n > 0,
                parts@.len() == i,
                forall|j: int| 0 <= j < i ==> #[trigger] parts@[j]@ == self.parts@[j]@,
        {
            parts.push(self.parts[i].duplicate());
        }
        let r = FsPath { absolute: self.absolute, parts };
        assert(r@.parts =~= self@.parts.drop_last());
        Some(r)
    }
}

} // verus!
