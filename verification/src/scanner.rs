//! The archive scanner: walks a container's entries, follows nested
//! containers down to a bounded depth, and caches every protected class.
use vstd::prelude::*;
use crate::archive::{archive_entries, archive_len, entry_bytes, entry_info, open_archive,
    parsed_archive, EntryModel};
use crate::entry::{decrypt_payload, has_magic_spec, payload_spec, plan_entry, plan_spec,
    EntryError, EntryPlan, EntryPlanView};
use crate::store::DecryptedClassCache;
use crate::strategy::DecryptionStrategy;

verus! {

/// Why a scan did not take place.
#[derive(Clone, Copy, Debug, PartialEq, Eq, Structural)]
pub enum ScanError {
    /// The bytes handed over are no archive that the reader can open.
    ContainerOpenFailure,
}

/// How many levels of containers within containers a scan follows when the
/// caller names no other bound.
pub const DEFAULT_MAX_DEPTH: usize = 16;

/// The cache after the bytes of one protected entry were handed over for
/// `class_name`: the name now maps to the transformed payload, or the
/// cache is as before where the bytes could not be read or do not open
/// with the marker.
pub open spec fn store_class_spec<S: DecryptionStrategy>(
    strategy: &S,
    class_name: Seq<char>,
    data: Option<Seq<u8>>,
    cache: Map<Seq<char>, Seq<u8>>,
) -> Map<Seq<char>, Seq<u8>> {
    match data {
        Some(d) => match payload_spec(strategy, d) {
            Some(p) => cache.insert(class_name, p),
            None => cache,
        },
        None => cache,
    }
}

/// What handing over the bytes of one protected entry comes to.
pub open spec fn store_result_spec(data: Option<Seq<u8>>) -> Result<(), EntryError> {
    match data {
        Some(d) => if has_magic_spec(d) {
            Ok(())
        } else {
            Err(EntryError::MagicMismatch)
        },
        None => Err(EntryError::EntryReadFailure),
    }
}

/// The cache after the entries have been visited in order, starting from
/// `cache`, with `depth` levels of nesting left to follow. A nested
/// container is scanned in full at the place where it stands, one level
/// further down.
pub open spec fn scan_entries_spec<S: DecryptionStrategy>(
    strategy: &S,
    entries: Seq<EntryModel>,
    depth: nat,
    cache: Map<Seq<char>, Seq<u8>>,
) -> Map<Seq<char>, Seq<u8>>
    decreases depth, entries.len(),
{
    if entries.len() == 0 {
        cache
    } else {
        let before = scan_entries_spec(strategy, entries.drop_last(), depth, cache);
        let e = entries.last();
        match plan_spec(e.info, depth) {
            EntryPlanView::Skip => before,
            EntryPlanView::Store(class_name) => store_class_spec(
                strategy,
                class_name,
                e.data,
                before,
            ),
            EntryPlanView::Follow => if depth > 0 && e.data is Some && parsed_archive(e.data->0)
                is Some {
                scan_entries_spec(
                    strategy,
                    parsed_archive(e.data->0)->0,
                    (depth - 1) as nat,
                    before,
                )
            } else {
                before
            },
        }
    }
}

/// The cache after a scan of the container held in `bytes`.
pub open spec fn scan_spec<S: DecryptionStrategy>(
    strategy: &S,
    bytes: Seq<u8>,
    depth: nat,
    cache: Map<Seq<char>, Seq<u8>>,
) -> Map<Seq<char>, Seq<u8>> {
    match parsed_archive(bytes) {
        Some(entries) => scan_entries_spec(strategy, entries, depth, cache),
        None => cache,
    }
}

/// Caches one protected class from the bytes of its entry as read, where
/// `data` is `None` for an entry that could not be read. The class is
/// cached exactly when the bytes open with the marker; otherwise the
/// cache stays as it is and the reason is returned.
pub fn store_class<S: DecryptionStrategy>(
    cache: &mut DecryptedClassCache,
    strategy: &S,
    class_name: String,
    data: Option<&[u8]>,
) -> (r: Result<(), EntryError>)
    ensures
        final(cache)@ == store_class_spec(
            strategy,
            class_name@,
            match data {
                Some(d) => Some(d@),
                None => None,
            },
            old(cache)@,
        ),
        r == store_result_spec(
            match data {
                Some(d) => Some(d@),
                None => None,
            },
        ),
{
    match data {
        Some(d) => match decrypt_payload(strategy, d) {
            Some(plain) => {
                cache.insert(class_name, plain);
                Ok(())
            },
            None => Err(EntryError::MagicMismatch),
        },
        None => Err(EntryError::EntryReadFailure),
    }
}

/// Visits the entries of an opened archive in order, with `depth` levels
/// of nesting left to follow.
fn scan_opened<S: DecryptionStrategy>(
    cache: &mut DecryptedClassCache,
    strategy: &S,
    archive: &mut zip::ZipArchive<std::io::Cursor<Vec<u8>>>,
    depth: usize,
)
    ensures
        archive_entries(*final(archive)) == archive_entries(*old(archive)),
        final(cache)@ == scan_entries_spec(
            strategy,
            archive_entries(*old(archive)),
            depth as nat,
            old(cache)@,
        ),
    decreases depth,
{
    let ghost entries = archive_entries(*archive);
    let ghost start = cache@;
    let n: usize = archive_len(archive);
    let mut i: usize = 0;
    assert(entries.take(0) =~= Seq::<EntryModel>::empty());
    while i < n
        invariant
            n == entries.len(),
            i <= n,
            archive_entries(*archive) == entries,
            cache@ == scan_entries_spec(strategy, entries.take(i as int), depth as nat, start),
        decreases n - i,
    {
        let ghost e = entries[i as int];
        proof {
            let next = entries.take(i + 1);
            assert(next.drop_last() =~= entries.take(i as int));
            assert(next.last() == e);
        }
        let info = entry_info(archive, i);
        match plan_entry(info.as_ref(), depth) {
            EntryPlan::Skip => {},
            EntryPlan::Store(class_name) => {
                let _ = match entry_bytes(archive, i) {
                    Some(data) => store_class(cache, strategy, class_name, Some(data.as_slice())),
                    None => store_class(cache, strategy, class_name, None),
                };
            },
            EntryPlan::Follow => {
                match entry_bytes(archive, i) {
                    Some(inner) => {
                        match open_archive(inner.as_slice()) {
                            Ok(mut nested) => {
                                scan_opened(cache, strategy, &mut nested, depth - 1);
                            },
                            Err(_) => {},
                        }
                    },
                    None => {},
                }
            },
        }
        i += 1;
    }
    assert(entries.take(n as int) =~= entries);
}

/// Scans the container held in `container`: every protected entry in it,
/// and in the containers nested in it down to `max_depth` levels, is
/// transformed and cached under its class name, a later entry replacing an
/// earlier one of the same name. Fails, with the cache untouched, exactly
/// when the bytes cannot be opened as an archive; what goes wrong with a
/// single entry only skips that entry.
pub fn read_and_decrypt_jar_files<S: DecryptionStrategy>(
    cache: &mut DecryptedClassCache,
    strategy: &S,
    container: &[u8],
    max_depth: usize,
) -> (r: Result<(), ScanError>)
    ensures
        r is Ok <==> parsed_archive(container@) is Some,
        r matches Err(e) ==> e == ScanError::ContainerOpenFailure,
        final(cache)@ == scan_spec(strategy, container@, max_depth as nat, old(cache)@),
{
    match open_archive(container) {
        Ok(mut archive) => {
            scan_opened(cache, strategy, &mut archive, max_depth);
            Ok(())
        },
        Err(_) => Err(ScanError::ContainerOpenFailure),
    }
}

/// With `depth` levels left, the entry is cached under `name`: it is a
/// protected copy of that class which can be read and opens with the
/// marker.
pub open spec fn caches_as(e: EntryModel, depth: nat, name: Seq<char>) -> bool {
    &&& plan_spec(e.info, depth) == EntryPlanView::Store(name)
    &&& e.data is Some
    &&& has_magic_spec(e.data->0)
}

/// Some entry among `entries`, or in a nested container that the scan
/// follows from them, is cached under `name`.
pub open spec fn writes_name(entries: Seq<EntryModel>, depth: nat, name: Seq<char>) -> bool
    decreases depth, entries.len(),
{
    if entries.len() == 0 {
        false
    } else {
        let e = entries.last();
        writes_name(entries.drop_last(), depth, name) || caches_as(e, depth, name) || (plan_spec(
            e.info,
            depth,
        ) is Follow && depth > 0 && e.data is Some && parsed_archive(e.data->0) is Some
            && writes_name(parsed_archive(e.data->0)->0, (depth - 1) as nat, name))
    }
}

/// Scanning one run of entries after another is scanning the two runs as
/// one: no entry's effect depends on what follows it.
pub proof fn lemma_scan_in_sequence<S: DecryptionStrategy>(
    strategy: &S,
    first: Seq<EntryModel>,
    second: Seq<EntryModel>,
    depth: nat,
    cache: Map<Seq<char>, Seq<u8>>,
)
    ensures
        scan_entries_spec(strategy, first + second, depth, cache) == scan_entries_spec(
            strategy,
            second,
            depth,
            scan_entries_spec(strategy, first, depth, cache),
        ),
    decreases second.len(),
{
    if second.len() == 0 {
        assert(first + second =~= first);
    } else {
        lemma_scan_in_sequence(strategy, first, second.drop_last(), depth, cache);
        assert((first + second).drop_last() =~= first + second.drop_last());
        assert((first + second).last() == second.last());
    }
}

/// A scan only adds classes or replaces their bytes: every name cached
/// before is cached after.
pub proof fn lemma_scan_keeps_names<S: DecryptionStrategy>(
    strategy: &S,
    entries: Seq<EntryModel>,
    depth: nat,
    cache: Map<Seq<char>, Seq<u8>>,
    name: Seq<char>,
)
    requires
        cache.contains_key(name),
    ensures
        scan_entries_spec(strategy, entries, depth, cache).contains_key(name),
    decreases depth, entries.len(),
{
    if entries.len() > 0 {
        let before = scan_entries_spec(strategy, entries.drop_last(), depth, cache);
        lemma_scan_keeps_names(strategy, entries.drop_last(), depth, cache, name);
        let e = entries.last();
        if plan_spec(e.info, depth) is Follow && depth > 0 && e.data is Some && parsed_archive(
            e.data->0,
        ) is Some {
            lemma_scan_keeps_names(
                strategy,
                parsed_archive(e.data->0)->0,
                (depth - 1) as nat,
                before,
                name,
            );
        }
    }
}

/// A name that no entry is cached under stands after the scan as it stood
/// before it.
pub proof fn lemma_scan_leaves_other_names<S: DecryptionStrategy>(
    strategy: &S,
    entries: Seq<EntryModel>,
    depth: nat,
    cache: Map<Seq<char>, Seq<u8>>,
    name: Seq<char>,
)
    requires
        !writes_name(entries, depth, name),
    ensures
        scan_entries_spec(strategy, entries, depth, cache).contains_key(name)
            == cache.contains_key(name),
        cache.contains_key(name) ==> scan_entries_spec(strategy, entries, depth, cache)[name]
            == cache[name],
    decreases depth, entries.len(),
{
    if entries.len() > 0 {
        let before = scan_entries_spec(strategy, entries.drop_last(), depth, cache);
        lemma_scan_leaves_other_names(strategy, entries.drop_last(), depth, cache, name);
        let e = entries.last();
        if plan_spec(e.info, depth) is Follow && depth > 0 && e.data is Some && parsed_archive(
            e.data->0,
        ) is Some {
            lemma_scan_leaves_other_names(
                strategy,
                parsed_archive(e.data->0)->0,
                (depth - 1) as nat,
                before,
                name,
            );
        }
    }
}

/// After a scan, the class of a protected entry that was read and opens
/// with the marker is cached with the transform of the bytes behind the
/// marker, unless an entry further on is cached under the same name.
pub proof fn lemma_scanned_class_is_cached<S: DecryptionStrategy>(
    strategy: &S,
    entries: Seq<EntryModel>,
    i: int,
    name: Seq<char>,
    depth: nat,
    cache: Map<Seq<char>, Seq<u8>>,
)
    requires
        0 <= i < entries.len(),
        caches_as(entries[i], depth, name),
        !writes_name(entries.skip(i + 1), depth, name),
    ensures
        scan_entries_spec(strategy, entries, depth, cache).contains_key(name),
        scan_entries_spec(strategy, entries, depth, cache)[name] == strategy.plain(
            entries[i].data->0.skip(4),
        ),
{
    let head = entries.take(i + 1);
    let tail = entries.skip(i + 1);
    let mid = scan_entries_spec(strategy, head, depth, cache);
    assert(head + tail =~= entries);
    lemma_scan_in_sequence(strategy, head, tail, depth, cache);
    assert(head.last() == entries[i]);
    assert(mid.contains_key(name) && mid[name] == strategy.plain(entries[i].data->0.skip(4)));
    lemma_scan_leaves_other_names(strategy, tail, depth, mid, name);
}

/// For every buffer that opens as an archive: after its scan, a lookup of
/// the class of a protected entry that was read and opens with the marker
/// gives the transform of the bytes behind the marker, unless an entry
/// further on is cached under the same name.
pub proof fn lemma_scan_then_lookup<S: DecryptionStrategy>(
    strategy: &S,
    container: Seq<u8>,
    i: int,
    name: Seq<char>,
    depth: nat,
    cache: Map<Seq<char>, Seq<u8>>,
)
    requires
        parsed_archive(container) is Some,
        0 <= i < parsed_archive(container)->0.len(),
        caches_as(parsed_archive(container)->0[i], depth, name),
        !writes_name(parsed_archive(container)->0.skip(i + 1), depth, name),
    ensures
        scan_spec(strategy, container, depth, cache).contains_key(name),
        scan_spec(strategy, container, depth, cache)[name] == strategy.plain(
            parsed_archive(container)->0[i].data->0.skip(4),
        ),
{
    lemma_scanned_class_is_cached(strategy, parsed_archive(container)->0, i, name, depth, cache);
}

/// A protected entry that cannot be read, or that does not open with the
/// marker, is passed over and the scan goes on: the outcome is that of the
/// same container without the entry.
pub proof fn lemma_damaged_entry_is_passed_over<S: DecryptionStrategy>(
    strategy: &S,
    first: Seq<EntryModel>,
    damaged: EntryModel,
    second: Seq<EntryModel>,
    depth: nat,
    cache: Map<Seq<char>, Seq<u8>>,
)
    requires
        plan_spec(damaged.info, depth) is Store,
        damaged.data is None || !has_magic_spec(damaged.data->0),
    ensures
        scan_entries_spec(strategy, first.push(damaged) + second, depth, cache)
            == scan_entries_spec(strategy, first + second, depth, cache),
{
    lemma_scan_in_sequence(strategy, first.push(damaged), second, depth, cache);
    lemma_scan_in_sequence(strategy, first, second, depth, cache);
    assert(first.push(damaged).drop_last() =~= first);
    assert(first.push(damaged).last() == damaged);
}

/// An entry that is neither a protected copy nor a nested container to
/// follow changes nothing, wherever it stands.
pub proof fn lemma_skipped_entry_changes_nothing<S: DecryptionStrategy>(
    strategy: &S,
    first: Seq<EntryModel>,
    skipped: EntryModel,
    second: Seq<EntryModel>,
    depth: nat,
    cache: Map<Seq<char>, Seq<u8>>,
)
    requires
        plan_spec(skipped.info, depth) is Skip,
    ensures
        scan_entries_spec(strategy, first.push(skipped) + second, depth, cache)
            == scan_entries_spec(strategy, first + second, depth, cache),
{
    lemma_scan_in_sequence(strategy, first.push(skipped), second, depth, cache);
    lemma_scan_in_sequence(strategy, first, second, depth, cache);
    assert(first.push(skipped).drop_last() =~= first);
    assert(first.push(skipped).last() == skipped);
}

/// What a nested container holds is found from the outer one: where the
/// last entry is a container that is followed and can be opened, the scan
/// of the outer entries ends with the scan of the inner ones, one level
/// down.
pub proof fn lemma_nested_container_is_scanned<S: DecryptionStrategy>(
    strategy: &S,
    outer: Seq<EntryModel>,
    nested: EntryModel,
    depth: nat,
    cache: Map<Seq<char>, Seq<u8>>,
)
    requires
        plan_spec(nested.info, depth) is Follow,
        nested.data is Some,
        parsed_archive(nested.data->0) is Some,
    ensures
        depth > 0,
        scan_entries_spec(strategy, outer.push(nested), depth, cache) == scan_entries_spec(
            strategy,
            parsed_archive(nested.data->0)->0,
            (depth - 1) as nat,
            scan_entries_spec(strategy, outer, depth, cache),
        ),
{
    assert(outer.push(nested).drop_last() =~= outer);
    assert(outer.push(nested).last() == nested);
}

} // verus!
