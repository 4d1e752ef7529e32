use classgate::gate::{
    class_hook_event, needs_code_source, ClassGate, GateError, GateStep, Outcome,
};
use classgate::strategy::{Identity, XorCipher};
use std::io::Write;

const XOR: XorCipher = XorCipher { key: 0x5A };

fn archive(entries: &[(&str, Vec<u8>)]) -> Vec<u8> {
    let mut writer = zip::ZipWriter::new(std::io::Cursor::new(Vec::new()));
    let options = zip::write::SimpleFileOptions::default()
        .compression_method(zip::CompressionMethod::Stored);
    for (name, data) in entries {
        writer.start_file(name.to_string(), options).unwrap();
        writer.write_all(data).unwrap();
    }
    writer.finish().unwrap().into_inner()
}

fn protected(payload: &[u8]) -> Vec<u8> {
    let mut data = vec![0xDE, 0xC0, 0xAD, 0xDE];
    data.extend_from_slice(payload);
    data
}

const PLAIN_CLASS: [u8; 6] = [0xCA, 0xFE, 0xBA, 0xBE, 0, 0];

#[test]
fn unreadable_name_aborts() {
    let mut handler = ClassGate::new(4);
    let step = class_hook_event(&mut handler, &Identity, None, &PLAIN_CLASS, Some("file:/opt/app.jar"));
    assert!(matches!(step, GateStep::Done(Outcome::Abort)));
    assert!(!handler.is_scanned("opt/app.jar"));
}

#[test]
fn unreadable_name_aborts_even_with_marker() {
    let mut handler = ClassGate::new(4);
    let step = class_hook_event(&mut handler, &Identity, None, &protected(&[1]), None);
    assert!(matches!(step, GateStep::Done(Outcome::Abort)));
}

#[test]
fn whole_class_is_replaced_without_code_source() {
    let mut handler = ClassGate::new(4);
    let data = protected(&[1, 2, 3]);
    let step = class_hook_event(&mut handler, &XOR, Some("pkg/Foo"), &data, None);
    match step {
        GateStep::Done(Outcome::WholeClassEncrypted(bytes)) => {
            assert_eq!(bytes, vec![0x84, 0x9A, 0xF7, 0x84, 0x5B, 0x58, 0x59]);
        }
        other => panic!("unexpected step {:?}", other),
    }
}

#[test]
fn whole_class_is_replaced_with_code_source() {
    let mut handler = ClassGate::new(4);
    let data = protected(&[1, 2, 3]);
    let step = class_hook_event(&mut handler, &Identity, Some("pkg/Foo"), &data, Some("file:/opt/app.jar"));
    match step {
        GateStep::Done(Outcome::WholeClassEncrypted(bytes)) => assert_eq!(bytes, data),
        other => panic!("unexpected step {:?}", other),
    }
    assert!(!handler.is_scanned("opt/app.jar"));
}

#[test]
fn class_without_code_source_is_ignored() {
    let mut handler = ClassGate::new(4);
    let step = class_hook_event(&mut handler, &Identity, Some("java/lang/String"), &PLAIN_CLASS, None);
    assert!(matches!(step, GateStep::Done(Outcome::Ignore)));
}

#[test]
fn short_buffer_is_not_whole_class() {
    let mut handler = ClassGate::new(4);
    let step = class_hook_event(&mut handler, &Identity, Some("pkg/Foo"), &[0xDE, 0xC0], None);
    assert!(matches!(step, GateStep::Done(Outcome::Ignore)));
}

#[test]
fn locator_without_container_is_ignored() {
    let mut handler = ClassGate::new(4);
    let step =
        class_hook_event(&mut handler, &Identity, Some("pkg/Foo"), &PLAIN_CLASS, Some("file:/opt/classes/"));
    assert!(matches!(step, GateStep::Done(Outcome::Ignore)));
    let step = class_hook_event(&mut handler, &Identity, Some("pkg/Foo"), &PLAIN_CLASS, Some(""));
    assert!(matches!(step, GateStep::Done(Outcome::Ignore)));
}

#[test]
fn new_container_is_marked_and_scanned_first() {
    let mut handler = ClassGate::new(4);
    let step = class_hook_event(&mut handler, 
        &Identity,
        Some("pkg/sub/Foo"),
        &PLAIN_CLASS,
        Some("file:/opt/my%20apps/app.jar!/pkg/sub/"),
    );
    match step {
        GateStep::ScanFirst { container, class_name } => {
            assert_eq!(container, "opt/my apps/app.jar");
            assert_eq!(class_name, "pkg.sub.Foo");
        }
        other => panic!("unexpected step {:?}", other),
    }
    assert!(handler.is_scanned("opt/my apps/app.jar"));
}

#[test]
fn container_is_scanned_at_most_once() {
    let mut handler = ClassGate::new(4);
    let mut scans = 0;
    for i in 0..40 {
        let name = format!("pkg/Class{}", i);
        let locator = if i % 2 == 0 { "file:/opt/app.jar" } else { "file:/opt/app.jar!/pkg/" };
        match class_hook_event(&mut handler, &Identity, Some(&name), &PLAIN_CLASS, Some(locator)) {
            GateStep::ScanFirst { container, .. } => {
                assert_eq!(container, "opt/app.jar");
                scans += 1;
            }
            GateStep::Done(outcome) => assert!(matches!(outcome, Outcome::Plain)),
        }
    }
    assert_eq!(scans, 1);
}

#[test]
fn each_container_is_scanned_once() {
    let mut handler = ClassGate::new(4);
    let first = class_hook_event(&mut handler, &Identity, Some("a/A"), &PLAIN_CLASS, Some("file:/a.jar"));
    let second = class_hook_event(&mut handler, &Identity, Some("b/B"), &PLAIN_CLASS, Some("file:/b.jar"));
    let third = class_hook_event(&mut handler, &Identity, Some("a/C"), &PLAIN_CLASS, Some("file:/a.jar"));
    assert!(matches!(first, GateStep::ScanFirst { .. }));
    assert!(matches!(second, GateStep::ScanFirst { .. }));
    assert!(matches!(third, GateStep::Done(Outcome::Plain)));
}

#[test]
fn split_copy_is_served_after_the_scan() {
    let jar = archive(&[
        ("META-INF/.classes/pkg/Foo", protected(&[1, 2, 3])),
        ("pkg/Foo.class", PLAIN_CLASS.to_vec()),
        ("pkg/Bar.class", PLAIN_CLASS.to_vec()),
    ]);
    let mut handler = ClassGate::new(4);
    let step =
        class_hook_event(&mut handler, &XOR, Some("pkg/Foo"), &PLAIN_CLASS, Some("file:/opt/app.jar"));
    let class_name = match step {
        GateStep::ScanFirst { class_name, .. } => class_name,
        other => panic!("unexpected step {:?}", other),
    };
    match handler.on_container_read(&XOR, &class_name, Some(&jar[..])) {
        Ok(Outcome::SplitCopyEncrypted(bytes)) => assert_eq!(bytes, vec![0x5B, 0x58, 0x59]),
        other => panic!("unexpected result {:?}", other),
    }
    let again =
        class_hook_event(&mut handler, &XOR, Some("pkg/Foo"), &PLAIN_CLASS, Some("file:/opt/app.jar"));
    match again {
        GateStep::Done(Outcome::SplitCopyEncrypted(bytes)) => {
            assert_eq!(bytes, vec![0x5B, 0x58, 0x59])
        }
        other => panic!("unexpected step {:?}", other),
    }
    let other =
        class_hook_event(&mut handler, &XOR, Some("pkg/Bar"), &PLAIN_CLASS, Some("file:/opt/app.jar"));
    assert!(matches!(other, GateStep::Done(Outcome::Plain)));
}

#[test]
fn class_without_copy_stays_plain_after_the_scan() {
    let jar = archive(&[("META-INF/.classes/pkg/Foo", protected(&[1]))]);
    let mut handler = ClassGate::new(4);
    let result = handler.on_container_read(&Identity, "pkg.Bar", Some(&jar[..]));
    assert!(matches!(result, Ok(Outcome::Plain)));
    assert!(matches!(handler.lookup("pkg.Foo"), Outcome::SplitCopyEncrypted(_)));
}

#[test]
fn unreadable_container_fails_the_event_only() {
    let mut handler = ClassGate::new(4);
    let step =
        class_hook_event(&mut handler, &Identity, Some("pkg/Foo"), &PLAIN_CLASS, Some("file:/gone.jar"));
    assert!(matches!(step, GateStep::ScanFirst { .. }));
    let result = handler.on_container_read(&Identity, "pkg.Foo", None);
    assert!(matches!(result, Err(GateError::ContainerOpenFailure)));
    let result = handler.on_container_read(&Identity, "pkg.Foo", Some(&b"garbage"[..]));
    assert!(matches!(result, Err(GateError::ContainerOpenFailure)));
    let next =
        class_hook_event(&mut handler, &Identity, Some("pkg/Bar"), &PLAIN_CLASS, Some("file:/gone.jar"));
    assert!(matches!(next, GateStep::Done(Outcome::Plain)));
}

#[test]
fn nesting_depth_is_the_handlers() {
    let inner = archive(&[("META-INF/.classes/pkg/Foo", protected(&[5]))]);
    let outer = archive(&[("lib/inner.jar", inner)]);
    let mut shallow = ClassGate::new(0);
    assert!(matches!(
        shallow.on_container_read(&Identity, "pkg.Foo", Some(&outer[..])),
        Ok(Outcome::Plain)
    ));
    let mut deep = ClassGate::new(1);
    assert!(matches!(
        deep.on_container_read(&Identity, "pkg.Foo", Some(&outer[..])),
        Ok(Outcome::SplitCopyEncrypted(_))
    ));
}

#[test]
fn replacement_length_is_reported() {
    assert_eq!(Outcome::Abort.replacement_len(), None);
    assert_eq!(Outcome::Ignore.replacement_len(), None);
    assert_eq!(Outcome::Plain.replacement_len(), None);
    assert_eq!(Outcome::WholeClassEncrypted(vec![1, 2, 3]).replacement_len(), Some(3));
    assert_eq!(Outcome::SplitCopyEncrypted(vec![]).replacement_len(), Some(0));
}

#[test]
fn delivery_needs_a_granted_buffer() {
    assert_eq!(Outcome::Plain.deliver(false), Ok(None));
    assert_eq!(Outcome::Ignore.deliver(true), Ok(None));
    assert_eq!(Outcome::Abort.deliver(false), Ok(None));
    assert_eq!(Outcome::SplitCopyEncrypted(vec![1, 2]).deliver(true), Ok(Some(vec![1, 2])));
    assert_eq!(Outcome::WholeClassEncrypted(vec![3]).deliver(true), Ok(Some(vec![3])));
    assert_eq!(
        Outcome::SplitCopyEncrypted(vec![1, 2]).deliver(false),
        Err(GateError::AllocationFailure)
    );
    assert_eq!(
        Outcome::WholeClassEncrypted(vec![]).deliver(false),
        Err(GateError::AllocationFailure)
    );
}

#[test]
fn code_source_is_asked_for_only_when_it_matters() {
    assert!(needs_code_source(Some("pkg/Foo"), &PLAIN_CLASS));
    assert!(needs_code_source(Some("pkg/Foo"), &[]));
    assert!(!needs_code_source(None, &PLAIN_CLASS));
    assert!(!needs_code_source(Some("pkg/Foo"), &protected(&[1])));
    assert!(!needs_code_source(None, &protected(&[1])));
}
