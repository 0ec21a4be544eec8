use vstd::prelude::*;

verus! {

/// A filesystem path as the sequence of its components (`/`, `tmp`, `repo`, ...).
pub struct WatchPath {
    pub components: Vec<String>,
}

impl View for WatchPath {
    type V = Seq<Seq<char>>;

    open spec fn view(&self) -> Seq<Seq<char>> {
        self.components@.map_values(|c: String| c@)
    }
}

/// What happened to a path.
#[derive(Clone, Copy, Debug, PartialEq, Eq, Structural)]
pub enum ChangeKind {
    Created,
    Modified,
    Removed,
    Renamed,
}

/// One change reported by the filesystem notifier.
pub struct ChangeEvent {
    pub path: WatchPath,
    pub kind: ChangeKind,
}

/// The name of the version-control metadata directory.
pub open spec fn metadata_dir() -> Seq<char> {
    seq!['.', 'g', 'i', 't']
}

/// Some component of the path is the metadata directory.
pub open spec fn in_metadata(path: Seq<Seq<char>>) -> bool {
    exists|k: int| 0 <= k < path.len() && path[k] == metadata_dir()
}

/// `root` is a component-wise prefix of `path` (a path lies under itself).
pub open spec fn lies_under(path: Seq<Seq<char>>, root: Seq<Seq<char>>) -> bool {
    root.len() <= path.len() && path.subrange(0, root.len() as int) == root
}

/// Root `i` owns `path`: it holds the path, no other root holding it is longer,
/// and among equally long ones it comes first.
pub open spec fn owns(roots: Seq<Seq<Seq<char>>>, path: Seq<Seq<char>>, i: int) -> bool {
    &&& !in_metadata(path)
    &&& 0 <= i < roots.len()
    &&& lies_under(path, roots[i])
    &&& forall|j: int| 0 <= j < roots.len() && lies_under(path, #[trigger] roots[j])
        ==> roots[j].len() <= roots[i].len()
    &&& forall|j: int| 0 <= j < i && lies_under(path, #[trigger] roots[j])
        ==> roots[j].len() < roots[i].len()
}

/// An event on `path` is routed to some repository.
pub open spec fn routable(roots: Seq<Seq<Seq<char>>>, path: Seq<Seq<char>>) -> bool {
    !in_metadata(path) && exists|i: int| 0 <= i < roots.len() && lies_under(path, #[trigger] roots[i])
}

/// Whether one path component is the metadata directory.
pub fn is_metadata_component(c: &String) -> (r: bool)
    ensures
        r == (c@ == metadata_dir()),
{
    let meta = String::from_str(".git");
    proof {
        reveal_strlit(".git");
        assert(meta@ =~= metadata_dir());
    }
    c.eq(&meta)
}

/// Whether any component of the path is the metadata directory.
pub fn contains_metadata(path: &WatchPath) -> (r: bool)
    ensures
        r == in_metadata(path@),
{
    let mut k: usize = 0;
    while k < path.components.len()
        invariant
            0 <= k <= path.components.len(),
            forall|m: int| 0 <= m < k ==> path@[m] != metadata_dir(),
        decreases path.components.len() - k,
    {
        if is_metadata_component(&path.components[k]) {
            assert(path@[k as int] == metadata_dir());
            return true;
        }
        k = k + 1;
    }
    proof {
        assert forall|m: int| 0 <= m < path@.len() implies path@[m] != metadata_dir() by {}
    }
    false
}

/// Whether `path` lies under `root`, component by component.
pub fn starts_with(path: &WatchPath, root: &WatchPath) -> (r: bool)
    ensures
        r == lies_under(path@, root@),
{
    let n = root.components.len();
    if n > path.components.len() {
        return false;
    }
    let mut k: usize = 0;
    while k < n
        invariant
            0 <= k <= n,
            n == root@.len(),
            n <= path@.len(),
            forall|m: int| 0 <= m < k ==> path@[m] == root@[m],
        decreases n - k,
    {
        if path.components[k] != root.components[k] {
            assert(path@.subrange(0, n as int)[k as int] != root@[k as int]);
            return false;
        }
        k = k + 1;
    }
    assert(path@.subrange(0, n as int) =~= root@);
    true
}


/// The watched repositories: each root path with the handle opened on it.
pub struct RepositoryRegistry<H> {
    roots: Vec<WatchPath>,
    handles: Vec<H>,
}

impl<H> RepositoryRegistry<H> {
    /// The root paths, in order of registration.
    pub closed spec fn roots(&self) -> Seq<Seq<Seq<char>>> {
        self.roots@.map_values(|r: WatchPath| r@)
    }

    /// The handles, one for each root at the same position.
    pub closed spec fn handles(&self) -> Seq<H> {
        self.handles@
    }

    /// One handle per root, and no root registered twice.
    pub open spec fn wf(&self) -> bool {
        &&& self.roots().len() == self.handles().len()
        &&& forall|i: int, j: int|
            0 <= i < j < self.roots().len() ==> #[trigger] self.roots()[i] != #[trigger] self.roots()[j]
    }

    /// A registry that watches nothing.
    pub fn new() -> (r: Self)
        ensures
            r.wf(),
            r.roots() == Seq::<Seq<Seq<char>>>::empty(),
            r.handles() == Seq::<H>::empty(),
    {
        let r = RepositoryRegistry { roots: Vec::new(), handles: Vec::new() };
        assert(r.roots() =~= Seq::<Seq<Seq<char>>>::empty());
        r
    }

    /// The number of registered roots.
    pub fn len(&self) -> (r: usize)
        requires
            self.wf(),
        ensures
            r == self.roots().len(),
    {
        self.roots.len()
    }

    /// The root registered at position `i`.
    pub fn root(&self, i: usize) -> (r: &WatchPath)
        requires
            self.wf(),
            i < self.roots().len(),
        ensures
            r@ == self.roots()[i as int],
    {
        &self.roots[i]
    }

    /// The handle registered at position `i`.
    pub fn handle(&self, i: usize) -> (r: &H)
        requires
            self.wf(),
            i < self.roots().len(),
        ensures
            *r == self.handles()[i as int],
    {
        &self.handles[i]
    }

    /// The position of `root` among the registered roots.
    pub fn position(&self, root: &WatchPath) -> (r: Option<usize>)
        requires
            self.wf(),
        ensures
            r is None <==> forall|i: int| 0 <= i < self.roots().len() ==> self.roots()[i] != root@,
            r is Some ==> r->0 < self.roots().len() && self.roots()[r->0 as int] == root@,
    {
        let mut i: usize = 0;
        while i < self.roots.len()
            invariant
                self.wf(),
                0 <= i <= self.roots().len(),
                forall|m: int| 0 <= m < i ==> self.roots()[m] != root@,
            decreases self.roots().len() - i,
        {
            let a = starts_with(&self.roots[i], root);
            let b = starts_with(root, &self.roots[i]);
            if a && b {
                assert(self.roots()[i as int] =~= root@);
                return Some(i);
            }
            proof {
                if self.roots()[i as int] == root@ {
                    assert(root@.subrange(0, root@.len() as int) =~= root@);
                }
            }
            i = i + 1;
        }
        None
    }

    /// Looks a handle up by its root path.
    pub fn get(&self, root: &WatchPath) -> (r: Option<&H>)
        requires
            self.wf(),
        ensures
            r is None <==> forall|i: int| 0 <= i < self.roots().len() ==> self.roots()[i] != root@,
            r is Some ==> exists|i: int|
                0 <= i < self.roots().len() && self.roots()[i] == root@ && *r->0 == self.handles()[i],
    {
        match self.position(root) {
            Some(i) => Some(&self.handles[i]),
            None => None,
        }
    }

    /// Registers `handle` under `root`. A root already registered keeps its
    /// first handle and the call returns false.
    pub fn register(&mut self, root: WatchPath, handle: H) -> (r: bool)
        requires
            old(self).wf(),
        ensures
            final(self).wf(),
            r == (forall|i: int| 0 <= i < old(self).roots().len() ==> old(self).roots()[i] != root@),
            r ==> final(self).roots() == old(self).roots().push(root@),
            r ==> final(self).handles() == old(self).handles().push(handle),
            !r ==> final(self).roots() == old(self).roots(),
            !r ==> final(self).handles() == old(self).handles(),
    {
        if self.position(&root).is_some() {
            return false;
        }
        let ghost old_roots = self.roots();
        let ghost new_root = root@;
        self.roots.push(root);
        self.handles.push(handle);
        assert(self.roots() =~= old_roots.push(new_root));
        true
    }

    /// The position of the repository that owns the event's path: the most
    /// specific root holding it, none for metadata paths or unwatched paths.
    pub fn route_index(&self, event: &ChangeEvent) -> (r: Option<usize>)
        requires
            self.wf(),
        ensures
            r is None <==> !routable(self.roots(), event.path@),
            r is Some ==> owns(self.roots(), event.path@, r->0 as int),
    {
        if contains_metadata(&event.path) {
            return None;
        }
        let mut best: Option<usize> = None;
        let mut i: usize = 0;
        while i < self.roots.len()
            invariant
                self.wf(),
                !in_metadata(event.path@),
                0 <= i <= self.roots().len(),
                best is None <==> forall|j: int| 0 <= j < i ==> !lies_under(event.path@, #[trigger] self.roots()[j]),
                best is Some ==> {
                    let b = best->0 as int;
                    &&& b < i
                    &&& lies_under(event.path@, self.roots()[b])
                    &&& forall|j: int| 0 <= j < i && lies_under(event.path@, #[trigger] self.roots()[j])
                        ==> self.roots()[j].len() <= self.roots()[b].len()
                    &&& forall|j: int| 0 <= j < b && lies_under(event.path@, #[trigger] self.roots()[j])
                        ==> self.roots()[j].len() < self.roots()[b].len()
                },
            decreases self.roots().len() - i,
        {
            if starts_with(&event.path, &self.roots[i]) {
                match best {
                    None => {
                        best = Some(i);
                    },
                    Some(b) => {
                        if self.roots[i].components.len() > self.roots[b].components.len() {
                            best = Some(i);
                        }
                    },
                }
            }
            i = i + 1;
        }
        proof {
            if best is None {
                assert(!routable(self.roots(), event.path@));
            }
        }
        best
    }

    /// The repository that owns the event's path, if any (see `route_index`).
    pub fn route(&self, event: &ChangeEvent) -> (r: Option<&H>)
        requires
            self.wf(),
        ensures
            r is None <==> !routable(self.roots(), event.path@),
            r is Some ==> exists|i: int|
                owns(self.roots(), event.path@, i) && *r->0 == self.handles()[i],
    {
        match self.route_index(event) {
            Some(i) => Some(&self.handles[i]),
            None => None,
        }
    }
}

} // verus!

verus! {

/// Of two watched roots where one lies strictly inside the other, an event
/// under the inner root is never routed to the outer one, and is routed.
pub proof fn lemma_inner_root_wins(
    roots: Seq<Seq<Seq<char>>>,
    path: Seq<Seq<char>>,
    outer: int,
    inner: int,
)
    requires
        0 <= outer < roots.len(),
        0 <= inner < roots.len(),
        lies_under(roots[inner], roots[outer]),
        roots[outer].len() < roots[inner].len(),
        lies_under(path, roots[inner]),
        !in_metadata(path),
    ensures
        routable(roots, path),
        !owns(roots, path, outer),
{
    assert(lies_under(path, roots[inner]));
}

/// Routing is deterministic: at most one root owns a path.
pub proof fn lemma_owner_unique(roots: Seq<Seq<Seq<char>>>, path: Seq<Seq<char>>, i: int, j: int)
    requires
        owns(roots, path, i),
        owns(roots, path, j),
    ensures
        i == j,
{
    if i < j {
        assert(lies_under(path, roots[i]));
    } else if j < i {
        assert(lies_under(path, roots[j]));
    }
}

} // verus!
