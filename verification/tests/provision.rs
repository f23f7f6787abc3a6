use nebula_tower::archive::{read_archive, Entry, Slot};
use nebula_tower::errors::{ProvisionError, StartError};
use nebula_tower::launch::Launcher;
use nebula_tower::provision::{
    check_redeem_status, extraction_plan, plan_extraction, redeem_url, ExtractStep,
    ExtractionPlan,
};
use std::io::{Cursor, Write};
use zip::write::FileOptions;
use zip::{CompressionMethod, ZipWriter};

fn archive_of(entries: &[(&str, Option<&[u8]>)], method: CompressionMethod) -> Vec<u8> {
    let mut writer = ZipWriter::new(Cursor::new(Vec::new()));
    let options = FileOptions::default().compression_method(method);
    for (name, content) in entries {
        match content {
            Some(bytes) => {
                writer.start_file(*name, options).unwrap();
                writer.write_all(bytes).unwrap();
            }
            None => writer.add_directory(*name, options).unwrap(),
        }
    }
    writer.finish().unwrap().into_inner()
}

fn le16(out: &mut Vec<u8>, v: u16) {
    out.extend_from_slice(&v.to_le_bytes());
}

fn le32(out: &mut Vec<u8>, v: u32) {
    out.extend_from_slice(&v.to_le_bytes());
}

struct RawEntry<'a> {
    name: &'a str,
    data: &'a [u8],
    flags: u16,
    crc: u32,
    central_extra: &'a [u8],
    offset_shift: u32,
}

fn raw_archive(entries: &[RawEntry]) -> Vec<u8> {
    let mut out = Vec::new();
    let mut offsets = Vec::new();
    for e in entries {
        offsets.push(out.len() as u32);
        le32(&mut out, 0x04034b50);
        le16(&mut out, 20);
        le16(&mut out, e.flags);
        le16(&mut out, 0);
        le16(&mut out, 0);
        le16(&mut out, 0x21);
        le32(&mut out, e.crc);
        le32(&mut out, e.data.len() as u32);
        le32(&mut out, e.data.len() as u32);
        le16(&mut out, e.name.len() as u16);
        le16(&mut out, 0);
        out.extend_from_slice(e.name.as_bytes());
        out.extend_from_slice(e.data);
    }
    let directory_start = out.len() as u32;
    for (e, offset) in entries.iter().zip(offsets.iter()) {
        le32(&mut out, 0x02014b50);
        le16(&mut out, 0x031e);
        le16(&mut out, 20);
        le16(&mut out, e.flags | 0x0800);
        le16(&mut out, 0);
        le16(&mut out, 0);
        le16(&mut out, 0x21);
        le32(&mut out, e.crc);
        le32(&mut out, e.data.len() as u32);
        le32(&mut out, e.data.len() as u32);
        le16(&mut out, e.name.len() as u16);
        le16(&mut out, e.central_extra.len() as u16);
        le16(&mut out, 0);
        le16(&mut out, 0);
        le16(&mut out, 0);
        le32(&mut out, 0);
        le32(&mut out, *offset + e.offset_shift);
        out.extend_from_slice(e.name.as_bytes());
        out.extend_from_slice(e.central_extra);
    }
    let directory_size = out.len() as u32 - directory_start;
    le32(&mut out, 0x06054b50);
    le16(&mut out, 0);
    le16(&mut out, 0);
    le16(&mut out, entries.len() as u16);
    le16(&mut out, entries.len() as u16);
    le32(&mut out, directory_size);
    le32(&mut out, directory_start);
    le16(&mut out, 0);
    out
}

const CRC_OF_HELLO: u32 = 0x3610a686;

fn plain(name: &str) -> RawEntry<'_> {
    RawEntry { name, data: b"hello", flags: 0, crc: CRC_OF_HELLO, central_extra: &[], offset_shift: 0 }
}

fn steps_of(plan: &ExtractionPlan) -> Vec<(usize, String, Option<Vec<u8>>)> {
    let mut out = Vec::new();
    for step in &plan.steps {
        match step {
            ExtractStep::CreateDir { index, path } => out.push((*index, path.clone(), None)),
            ExtractStep::WriteFile { index, path, content } => {
                out.push((*index, path.clone(), Some(content.clone())))
            }
        }
    }
    out
}

#[test]
fn redeem_url_names_peer_and_code() {
    assert_eq!(
        redeem_url("10.0.0.1:8080", "abc123"),
        "http://10.0.0.1:8080/client/api/redeem_invite?invite_code=abc123"
    );
    assert_eq!(redeem_url("", ""), "http:///client/api/redeem_invite?invite_code=");
}

#[test]
fn status_outside_the_success_class_is_rejected() {
    assert_eq!(check_redeem_status(404), Err(ProvisionError::RedeemRejected(404)));
    assert_eq!(check_redeem_status(500), Err(ProvisionError::RedeemRejected(500)));
    assert_eq!(check_redeem_status(199), Err(ProvisionError::RedeemRejected(199)));
    assert_eq!(check_redeem_status(300), Err(ProvisionError::RedeemRejected(300)));
    assert_eq!(check_redeem_status(0), Err(ProvisionError::RedeemRejected(0)));
    assert_eq!(check_redeem_status(200), Ok(()));
    assert_eq!(check_redeem_status(204), Ok(()));
    assert_eq!(check_redeem_status(299), Ok(()));
}

#[test]
fn error_messages() {
    assert_eq!(ProvisionError::RedeemRejected(404).message(), "Redeem request failed: 404");
    assert_eq!(ProvisionError::ExtractionFailure(3).message(), "Could not extract archive entry 3");
    assert_eq!(ProvisionError::MalformedArchive.message(), "The response is not a readable archive");
    assert_eq!(ProvisionError::NetworkFailure.message(), "Redeem request could not be completed");
    assert_eq!(ProvisionError::PersistFailure.message(), "Could not store the response");
    assert_eq!(
        StartError::BinaryNotFound.message(),
        "nebula binary not found (install via tray or scripts/install_nebula.sh)"
    );
    assert_eq!(StartError::SpawnFailure(Launcher::Direct).message(), "failed to spawn nebula");
    assert_eq!(
        StartError::SpawnFailure(Launcher::Elevated).message(),
        "failed to spawn nebula with sudo"
    );
}

#[test]
fn provisioning_round_trip() {
    let files: [(&str, Option<&[u8]>); 4] = [
        ("config.yaml", Some(b"pki:\n  ca: ca.crt\n")),
        ("host.key", Some(b"-----BEGIN KEY-----\n\x00\x01\xff")),
        ("host.crt", Some(b"-----BEGIN CERT-----")),
        ("ca.crt", Some(b"")),
    ];
    for method in [CompressionMethod::Stored, CompressionMethod::Deflated] {
        for overwrite in [false, true] {
            let plan = extraction_plan(archive_of(&files, method), overwrite).unwrap();
            assert_eq!(plan.failed_at, None);
            assert_eq!(plan.outcome(), Ok(()));
            assert_eq!(
                steps_of(&plan),
                vec![
                    (0, "config.yaml".to_string(), Some(b"pki:\n  ca: ca.crt\n".to_vec())),
                    (1, "host.key".to_string(), Some(b"-----BEGIN KEY-----\n\x00\x01\xff".to_vec())),
                    (2, "host.crt".to_string(), Some(b"-----BEGIN CERT-----".to_vec())),
                    (3, "ca.crt".to_string(), Some(Vec::new())),
                ]
            );
        }
    }
}

#[test]
fn directories_and_nested_files() {
    let entries: [(&str, Option<&[u8]>); 3] =
        [("certs/", None), ("certs/host.crt", Some(b"crt")), ("a/b/c.txt", Some(b"c"))];
    let plan = extraction_plan(archive_of(&entries, CompressionMethod::Stored), true).unwrap();
    assert_eq!(
        steps_of(&plan),
        vec![
            (0, "certs/".to_string(), None),
            (1, "certs/host.crt".to_string(), Some(b"crt".to_vec())),
            (2, "a/b/c.txt".to_string(), Some(b"c".to_vec())),
        ]
    );
    assert_eq!(plan.failed_at, None);
}

#[test]
fn traversing_entries_are_skipped() {
    let entries: [(&str, Option<&[u8]>); 5] = [
        ("config.yaml", Some(b"one")),
        ("../evil.txt", Some(b"two")),
        ("/etc/passwd", Some(b"three")),
        ("a/../../evil", Some(b"four")),
        ("ca.crt", Some(b"five")),
    ];
    let plan = extraction_plan(archive_of(&entries, CompressionMethod::Deflated), false).unwrap();
    assert_eq!(
        steps_of(&plan),
        vec![
            (0, "config.yaml".to_string(), Some(b"one".to_vec())),
            (4, "ca.crt".to_string(), Some(b"five".to_vec())),
        ]
    );
    assert_eq!(plan.outcome(), Ok(()));
}

#[test]
fn archive_slots_show_names_and_enclosure() {
    let entries: [(&str, Option<&[u8]>); 2] = [("../x", Some(b"1")), ("ok/y", Some(b"22"))];
    let slots = read_archive(archive_of(&entries, CompressionMethod::Stored)).unwrap();
    assert_eq!(slots.len(), 2);
    match &slots[0] {
        Slot::File(e) => {
            assert_eq!(e.name, "../x");
            assert_eq!(e.enclosed, None);
            assert_eq!(e.content, Some(b"1".to_vec()));
        }
        other => panic!("unexpected slot {:?}", other),
    }
    match &slots[1] {
        Slot::File(e) => {
            assert_eq!(e.name, "ok/y");
            assert_eq!(e.enclosed, Some("ok/y".to_string()));
            assert_eq!(e.content, Some(b"22".to_vec()));
        }
        other => panic!("unexpected slot {:?}", other),
    }
}

#[test]
fn bytes_that_are_no_archive_are_malformed() {
    assert_eq!(read_archive(Vec::new()).err(), Some(ProvisionError::MalformedArchive));
    assert_eq!(
        extraction_plan(b"<html>not found</html>".to_vec(), true).err(),
        Some(ProvisionError::MalformedArchive)
    );
    let mut cut = archive_of(&[("config.yaml", Some(b"x"))], CompressionMethod::Stored);
    cut.truncate(cut.len() - 10);
    assert_eq!(extraction_plan(cut, true).err(), Some(ProvisionError::MalformedArchive));
}

#[test]
fn an_empty_archive_plans_nothing() {
    let plan = extraction_plan(archive_of(&[], CompressionMethod::Stored), true).unwrap();
    assert!(plan.steps.is_empty());
    assert_eq!(plan.outcome(), Ok(()));
}

#[test]
fn hand_made_archive_is_read() {
    let plan = extraction_plan(raw_archive(&[plain("a.txt"), plain("b.txt")]), true).unwrap();
    assert_eq!(
        steps_of(&plan),
        vec![
            (0, "a.txt".to_string(), Some(b"hello".to_vec())),
            (1, "b.txt".to_string(), Some(b"hello".to_vec())),
        ]
    );
}

#[test]
fn an_entry_with_a_wrong_checksum_fails_the_plan_there() {
    let bad = RawEntry { crc: 1, ..plain("b.txt") };
    let bytes = raw_archive(&[plain("a.txt"), bad, plain("c.txt")]);
    let slots = read_archive(bytes.clone()).unwrap();
    assert!(matches!(&slots[1], Slot::File(e) if e.content.is_none() && e.name == "b.txt"));
    let plan = extraction_plan(bytes, true).unwrap();
    assert_eq!(steps_of(&plan), vec![(0, "a.txt".to_string(), Some(b"hello".to_vec()))]);
    assert_eq!(plan.failed_at, Some(1));
    assert_eq!(plan.outcome(), Err(ProvisionError::ExtractionFailure(1)));
}

#[test]
fn an_entry_that_cannot_be_reached_fails_the_plan_there() {
    let lost = RawEntry { offset_shift: 3, ..plain("b.txt") };
    let bytes = raw_archive(&[plain("a.txt"), lost]);
    let slots = read_archive(bytes.clone()).unwrap();
    assert!(matches!(slots[1], Slot::Unreadable));
    let plan = extraction_plan(bytes, false).unwrap();
    assert_eq!(plan.steps.len(), 1);
    assert_eq!(plan.outcome(), Err(ProvisionError::ExtractionFailure(1)));
}

#[test]
fn an_entry_marked_for_a_cipher_without_being_encrypted_is_locked() {
    let extra = [0x01, 0x99, 0x07, 0x00, 0x02, 0x00, 0x41, 0x45, 0x03, 0x00, 0x00];
    let odd = RawEntry { central_extra: &extra, ..plain("host.key") };
    let bytes = raw_archive(&[odd, plain("ca.crt")]);
    let slots = read_archive(bytes.clone()).unwrap();
    assert!(matches!(slots[0], Slot::Locked));
    assert!(matches!(slots[1], Slot::File(_)));
    let plan = extraction_plan(bytes, true).unwrap();
    assert!(plan.steps.is_empty());
    assert_eq!(plan.outcome(), Err(ProvisionError::ExtractionFailure(0)));
}

#[test]
fn an_encrypted_entry_fails_the_plan() {
    let secret = RawEntry { flags: 1, data: b"0123456789abcdef", crc: 0, ..plain("host.key") };
    let bytes = raw_archive(&[plain("config.yaml"), secret]);
    let slots = read_archive(bytes.clone()).unwrap();
    assert!(matches!(slots[1], Slot::Locked | Slot::Unreadable));
    let plan = extraction_plan(bytes, true).unwrap();
    assert_eq!(steps_of(&plan), vec![(0, "config.yaml".to_string(), Some(b"hello".to_vec()))]);
    assert_eq!(plan.outcome(), Err(ProvisionError::ExtractionFailure(1)));
}

fn file(name: &str, enclosed: Option<&str>, content: Option<&[u8]>) -> Slot {
    Slot::File(Entry {
        name: name.to_string(),
        enclosed: enclosed.map(|p| p.to_string()),
        content: content.map(|c| c.to_vec()),
    })
}

#[test]
fn plan_of_given_slots() {
    let slots = vec![
        file("../x", None, Some(b"1")),
        file("../dir/", None, None),
        file("d/", Some("d/"), None),
        file("d/f", Some("d/f"), Some(b"2")),
        Slot::Unreadable,
        file("late", Some("late"), Some(b"3")),
    ];
    let plan = plan_extraction(&slots);
    assert_eq!(
        steps_of(&plan),
        vec![(2, "d/".to_string(), None), (3, "d/f".to_string(), Some(b"2".to_vec()))]
    );
    assert_eq!(plan.failed_at, Some(4));
    assert_eq!(plan.steps[0].index(), 2);
    assert_eq!(plan.steps[1].index(), 3);

    let locked = plan_extraction(&vec![Slot::Locked, file("a", Some("a"), Some(b"1"))]);
    assert!(locked.steps.is_empty());
    assert_eq!(locked.failed_at, Some(0));

    let unread = plan_extraction(&vec![file("a", Some("a"), None)]);
    assert!(unread.steps.is_empty());
    assert_eq!(unread.failed_at, Some(0));

    let none = plan_extraction(&Vec::new());
    assert!(none.steps.is_empty());
    assert_eq!(none.failed_at, None);
}
