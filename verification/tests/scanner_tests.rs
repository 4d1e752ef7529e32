use classgate::entry::EntryError;
use classgate::scanner::{
    read_and_decrypt_jar_files, store_class, ScanError, DEFAULT_MAX_DEPTH,
};
use classgate::store::DecryptedClassCache;
use classgate::strategy::{Identity, XorCipher};
use std::io::Write;

const XOR: XorCipher = XorCipher { key: 0x5A };

fn archive_with(method: zip::CompressionMethod, entries: &[(&str, Vec<u8>)]) -> Vec<u8> {
    let mut writer = zip::ZipWriter::new(std::io::Cursor::new(Vec::new()));
    let options = zip::write::SimpleFileOptions::default().compression_method(method);
    for (name, data) in entries {
        if name.ends_with('/') {
            writer.add_directory(name.to_string(), options).unwrap();
        } else {
            writer.start_file(name.to_string(), options).unwrap();
            writer.write_all(data).unwrap();
        }
    }
    writer.finish().unwrap().into_inner()
}

fn archive(entries: &[(&str, Vec<u8>)]) -> Vec<u8> {
    archive_with(zip::CompressionMethod::Stored, entries)
}

fn protected(payload: &[u8]) -> Vec<u8> {
    let mut data = vec![0xDE, 0xC0, 0xAD, 0xDE];
    data.extend_from_slice(payload);
    data
}

#[test]
fn scan_caches_protected_entries() {
    let jar = archive(&[
        ("META-INF/MANIFEST.MF", b"Manifest-Version: 1.0\n".to_vec()),
        ("META-INF/.classes/pkg/Foo", protected(&[1, 2, 3, 4, 5])),
        ("pkg/Foo.class", vec![0xCA, 0xFE, 0xBA, 0xBE, 0]),
        ("META-INF/.classes/pkg/sub/Bar", protected(&[])),
    ]);
    let mut cache = DecryptedClassCache::new();
    assert_eq!(read_and_decrypt_jar_files(&mut cache, &Identity, &jar, DEFAULT_MAX_DEPTH), Ok(()));
    assert_eq!(cache.len(), 2);
    assert_eq!(cache.lookup("pkg.Foo"), Some(vec![1, 2, 3, 4, 5]));
    assert_eq!(cache.lookup("pkg.sub.Bar"), Some(vec![]));
    assert_eq!(cache.lookup("pkg.Foo.class"), None);
}

#[test]
fn scan_applies_the_strategy_to_the_payload() {
    let jar = archive(&[("META-INF/.classes/pkg/Foo", protected(&[1, 2, 3]))]);
    let mut cache = DecryptedClassCache::new();
    assert_eq!(read_and_decrypt_jar_files(&mut cache, &XOR, &jar, 0), Ok(()));
    assert_eq!(cache.lookup("pkg.Foo"), Some(vec![0x5B, 0x58, 0x59]));
}

#[test]
fn scan_reads_deflated_entries() {
    let payload: Vec<u8> = (0..2000u32).map(|i| (i % 7) as u8).collect();
    let jar = archive_with(
        zip::CompressionMethod::Deflated,
        &[("META-INF/.classes/pkg/Big", protected(&payload))],
    );
    let mut cache = DecryptedClassCache::new();
    assert_eq!(read_and_decrypt_jar_files(&mut cache, &Identity, &jar, 0), Ok(()));
    assert_eq!(cache.lookup("pkg.Big"), Some(payload));
}

#[test]
fn nested_archive_is_discovered() {
    let inner = archive(&[("META-INF/.classes/pkg/Foo.class", protected(&[7, 7, 7]))]);
    let outer = archive(&[("README.txt", b"hello".to_vec()), ("lib/inner.jar", inner)]);
    let mut cache = DecryptedClassCache::new();
    assert_eq!(read_and_decrypt_jar_files(&mut cache, &Identity, &outer, DEFAULT_MAX_DEPTH), Ok(()));
    assert_eq!(cache.len(), 1);
    assert_eq!(cache.lookup("pkg.Foo.class"), Some(vec![7, 7, 7]));
}

#[test]
fn nested_archive_without_extension_in_entry_name() {
    let inner = archive(&[("META-INF/.classes/pkg/Foo", protected(&[7, 7, 7]))]);
    let outer = archive(&[("inner.jar", inner)]);
    let mut cache = DecryptedClassCache::new();
    assert_eq!(read_and_decrypt_jar_files(&mut cache, &Identity, &outer, 1), Ok(()));
    assert_eq!(cache.lookup("pkg.Foo"), Some(vec![7, 7, 7]));
}

#[test]
fn nesting_is_followed_to_the_depth_given() {
    let level2 = archive(&[("META-INF/.classes/deep/Two", protected(&[2]))]);
    let level1 = archive(&[
        ("META-INF/.classes/deep/One", protected(&[1])),
        ("two.jar", level2),
    ]);
    let top = archive(&[("META-INF/.classes/deep/Zero", protected(&[0])), ("one.jar", level1)]);

    let mut cache = DecryptedClassCache::new();
    assert_eq!(read_and_decrypt_jar_files(&mut cache, &Identity, &top, 0), Ok(()));
    assert_eq!(cache.len(), 1);
    assert_eq!(cache.lookup("deep.Zero"), Some(vec![0]));

    let mut cache = DecryptedClassCache::new();
    assert_eq!(read_and_decrypt_jar_files(&mut cache, &Identity, &top, 1), Ok(()));
    assert_eq!(cache.len(), 2);
    assert_eq!(cache.lookup("deep.One"), Some(vec![1]));
    assert_eq!(cache.lookup("deep.Two"), None);

    let mut cache = DecryptedClassCache::new();
    assert_eq!(read_and_decrypt_jar_files(&mut cache, &Identity, &top, 2), Ok(()));
    assert_eq!(cache.len(), 3);
    assert_eq!(cache.lookup("deep.Two"), Some(vec![2]));
}

#[test]
fn magic_mismatch_skips_only_that_entry() {
    let jar = archive(&[
        ("META-INF/.classes/pkg/Broken", vec![0xCA, 0xFE, 0xBA, 0xBE, 1, 2, 3]),
        ("META-INF/.classes/pkg/Good", protected(&[4, 5, 6])),
    ]);
    let mut cache = DecryptedClassCache::new();
    assert_eq!(read_and_decrypt_jar_files(&mut cache, &Identity, &jar, DEFAULT_MAX_DEPTH), Ok(()));
    assert_eq!(cache.len(), 1);
    assert_eq!(cache.lookup("pkg.Broken"), None);
    assert_eq!(cache.lookup("pkg.Good"), Some(vec![4, 5, 6]));
}

#[test]
fn short_entries_are_skipped() {
    let jar = archive(&[
        ("META-INF/.classes/pkg/Empty", vec![]),
        ("META-INF/.classes/pkg/Three", vec![0xDE, 0xC0, 0xAD]),
        ("META-INF/.classes/pkg/Four", vec![0xDE, 0xC0, 0xAD, 0xDE]),
    ]);
    let mut cache = DecryptedClassCache::new();
    assert_eq!(read_and_decrypt_jar_files(&mut cache, &Identity, &jar, 0), Ok(()));
    assert_eq!(cache.len(), 1);
    assert_eq!(cache.lookup("pkg.Four"), Some(vec![]));
}

#[test]
fn directories_and_ordinary_files_are_skipped() {
    let jar = archive(&[
        ("META-INF/", vec![]),
        ("META-INF/.classes/", vec![]),
        ("META-INF/.classes/pkg/", vec![]),
        ("other/.classes/pkg/Foo", protected(&[1])),
        ("pkg/Foo.class", protected(&[2])),
    ]);
    let mut cache = DecryptedClassCache::new();
    assert_eq!(read_and_decrypt_jar_files(&mut cache, &Identity, &jar, 0), Ok(()));
    assert_eq!(cache.len(), 0);
}

#[test]
fn later_container_overwrites_earlier_class() {
    let inner = archive(&[("META-INF/.classes/pkg/Foo", protected(&[2, 2]))]);
    let before = archive(&[
        ("META-INF/.classes/pkg/Foo", protected(&[1])),
        ("lib/inner.jar", inner.clone()),
    ]);
    let mut cache = DecryptedClassCache::new();
    assert_eq!(read_and_decrypt_jar_files(&mut cache, &Identity, &before, 1), Ok(()));
    assert_eq!(cache.lookup("pkg.Foo"), Some(vec![2, 2]));

    let after = archive(&[
        ("lib/inner.jar", inner),
        ("META-INF/.classes/pkg/Foo", protected(&[1])),
    ]);
    let mut cache = DecryptedClassCache::new();
    assert_eq!(read_and_decrypt_jar_files(&mut cache, &Identity, &after, 1), Ok(()));
    assert_eq!(cache.lookup("pkg.Foo"), Some(vec![1]));
}

#[test]
fn scan_overwrites_what_the_cache_held() {
    let jar = archive(&[("META-INF/.classes/pkg/Foo", protected(&[9]))]);
    let mut cache = DecryptedClassCache::new();
    cache.insert("pkg.Foo".to_string(), vec![1, 1, 1]);
    cache.insert("pkg.Other".to_string(), vec![5]);
    assert_eq!(read_and_decrypt_jar_files(&mut cache, &Identity, &jar, 0), Ok(()));
    assert_eq!(cache.lookup("pkg.Foo"), Some(vec![9]));
    assert_eq!(cache.lookup("pkg.Other"), Some(vec![5]));
}

#[test]
fn unreadable_container_fails_the_scan() {
    let mut cache = DecryptedClassCache::new();
    cache.insert("pkg.Kept".to_string(), vec![1]);
    assert_eq!(
        read_and_decrypt_jar_files(&mut cache, &Identity, b"this is no archive", 4),
        Err(ScanError::ContainerOpenFailure)
    );
    assert_eq!(read_and_decrypt_jar_files(&mut cache, &Identity, &[], 4), Err(ScanError::ContainerOpenFailure));
    assert_eq!(cache.len(), 1);
    assert_eq!(cache.lookup("pkg.Kept"), Some(vec![1]));
}

#[test]
fn unreadable_nested_container_is_skipped() {
    let jar = archive(&[
        ("META-INF/.classes/pkg/First", protected(&[1])),
        ("lib/broken.jar", b"not an archive at all".to_vec()),
        ("META-INF/.classes/pkg/Last", protected(&[3])),
    ]);
    let mut cache = DecryptedClassCache::new();
    assert_eq!(read_and_decrypt_jar_files(&mut cache, &Identity, &jar, 3), Ok(()));
    assert_eq!(cache.len(), 2);
    assert_eq!(cache.lookup("pkg.First"), Some(vec![1]));
    assert_eq!(cache.lookup("pkg.Last"), Some(vec![3]));
}

#[test]
fn empty_archive_scans_to_nothing() {
    let jar = archive(&[]);
    let mut cache = DecryptedClassCache::new();
    assert_eq!(read_and_decrypt_jar_files(&mut cache, &Identity, &jar, 0), Ok(()));
    assert_eq!(cache.len(), 0);
}

#[test]
fn store_class_takes_marked_bytes() {
    let mut cache = DecryptedClassCache::new();
    let data = protected(&[1, 2, 3]);
    assert_eq!(store_class(&mut cache, &XOR, "pkg.sub.Foo".to_string(), Some(&data[..])), Ok(()));
    assert_eq!(cache.lookup("pkg.sub.Foo"), Some(vec![0x5B, 0x58, 0x59]));
}

#[test]
fn store_class_reports_damage() {
    let mut cache = DecryptedClassCache::new();
    cache.insert("pkg.Foo".to_string(), vec![9]);
    assert_eq!(
        store_class(&mut cache, &Identity, "pkg.Foo".to_string(), None),
        Err(EntryError::EntryReadFailure)
    );
    assert_eq!(
        store_class(&mut cache, &Identity, "pkg.Foo".to_string(), Some(&[1, 2, 3, 4, 5][..])),
        Err(EntryError::MagicMismatch)
    );
    assert_eq!(
        store_class(&mut cache, &Identity, "pkg.Foo".to_string(), Some(&[0xDE, 0xC0][..])),
        Err(EntryError::MagicMismatch)
    );
    assert_eq!(cache.len(), 1);
    assert_eq!(cache.lookup("pkg.Foo"), Some(vec![9]));
}
