//! The two stores that outlive a class-load event: the registry of
//! containers already scanned and the cache of decrypted classes.
use vstd::prelude::*;
use vstd::hash_map::StringHashMap;
use vstd::hash_set::StringHashSet;

verus! {

/// The containers that have been handed to the scanner. Paths are only
/// ever added.
pub struct ScannedArchiveRegistry {
    paths: StringHashSet,
}

impl View for ScannedArchiveRegistry {
    type V = Set<Seq<char>>;

    closed spec fn view(&self) -> Set<Seq<char>> {
        self.paths@
    }
}

/// What marking `path` does to a registry: the registry afterwards, and
/// whether the path was new to it.
pub open spec fn mark_spec(registry: Set<Seq<char>>, path: Seq<char>) -> (Set<Seq<char>>, bool) {
    (registry.insert(path), !registry.contains(path))
}

impl ScannedArchiveRegistry {
    pub fn new() -> (r: Self)
        ensures
            r@ == Set::<Seq<char>>::empty(),
    {
        ScannedArchiveRegistry { paths: StringHashSet::new() }
    }

    /// Has the container been marked?
    pub fn is_scanned(&self, path: &str) -> (b: bool)
        ensures
            b == self@.contains(path@),
    {
        self.paths.contains(path)
    }

    /// Marks the container and says, in the same step, whether it was
    /// unmarked before: the caller that gets `true` is the one that scans.
    pub fn mark_scanned(&mut self, path: String) -> (fresh: bool)
        ensures
            (final(self)@, fresh) == mark_spec(old(self)@, path@),
    {
        self.paths.insert(path)
    }
}

/// Decrypted class bytes by dotted class name. A later insert under a name
/// replaces the earlier bytes whole.
pub struct DecryptedClassCache {
    classes: StringHashMap<Vec<u8>>,
}

impl View for DecryptedClassCache {
    type V = Map<Seq<char>, Seq<u8>>;

    closed spec fn view(&self) -> Map<Seq<char>, Seq<u8>> {
        Map::new(|k: Seq<char>| self.classes@.contains_key(k), |k: Seq<char>| self.classes@[k]@)
    }
}

impl DecryptedClassCache {
    pub fn new() -> (r: Self)
        ensures
            r@ == Map::<Seq<char>, Seq<u8>>::empty(),
    {
        let r = DecryptedClassCache { classes: StringHashMap::new() };
        assert(r@ =~= Map::<Seq<char>, Seq<u8>>::empty());
        r
    }

    /// Stores `bytes` under `name`, in place of whatever stood there.
    pub fn insert(&mut self, name: String, bytes: Vec<u8>)
        ensures
            final(self)@ == old(self)@.insert(name@, bytes@),
    {
        self.classes.insert(name, bytes);
        assert(self@ =~= old(self)@.insert(name@, bytes@));
    }

    pub fn contains(&self, name: &str) -> (b: bool)
        ensures
            b == self@.contains_key(name@),
    {
        self.classes.contains_key(name)
    }

    /// A copy of the bytes cached under `name`.
    pub fn lookup(&self, name: &str) -> (r: Option<Vec<u8>>)
        ensures
            match r {
                Some(bytes) => self@.contains_key(name@) && self@[name@] == bytes@,
                None => !self@.contains_key(name@),
            },
    {
        match self.classes.get(name) {
            Some(bytes) => Some(vstd::slice::slice_to_vec(bytes.as_slice())),
            None => None,
        }
    }

    /// The number of classes cached.
    pub fn len(&self) -> (n: usize)
        ensures
            n == self@.dom().len(),
    {
        assert(self@.dom() =~= self.classes@.dom());
        self.classes.len()
    }
}

/// A container is scanned at most once: whoever marks a path second is told
/// that it was marked, and the registry is as the first marking left it.
pub proof fn lemma_marked_once(registry: Set<Seq<char>>, path: Seq<char>)
    ensures
        !mark_spec(mark_spec(registry, path).0, path).1,
        mark_spec(mark_spec(registry, path).0, path).0 == mark_spec(registry, path).0,
        mark_spec(registry, path).1 <==> !registry.contains(path),
{
    assert(registry.insert(path).insert(path) =~= registry.insert(path));
}

/// Marking never unmarks: every path of the registry is still in it, and
/// the marked path is in it too.
pub proof fn lemma_registry_grows(registry: Set<Seq<char>>, path: Seq<char>)
    ensures
        registry.subset_of(mark_spec(registry, path).0),
        mark_spec(registry, path).0.contains(path),
{
}

} // verus!
