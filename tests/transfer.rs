use libcnb::transfer::to_hex;
use libcnb::{compress_tar, entry_target, prepare_archive, sha256, EntryTarget};
use std::collections::BTreeMap;
use std::path::Path;

#[test]
fn sha256_of_known_inputs() {
    assert_eq!(sha256(b""), "e3b0c44298fc1c149afbf4c8996fb92427ae41e4649b934ca495991b7852b855");
    assert_eq!(sha256(b"abc").len(), 64);
    assert_eq!(sha256(b"abc"), "ba7816bf8f01cfea414140de5dae2223b00361a396177a9cb410ff61f20015ad");
}

#[test]
fn hash_is_of_the_downloaded_bytes() {
    let packed = compress_tar(b"not really a tar, still bytes").unwrap();
    let a = prepare_archive(&packed).unwrap();
    assert_eq!(a.hash, sha256(&packed));
    assert_ne!(a.hash, sha256(&a.tar));
    assert_eq!(a.tar, b"not really a tar, still bytes".to_vec());
}

#[test]
fn undecodable_download_is_an_error() {
    assert!(prepare_archive(b"plain text, no xz here").is_err());
}

#[test]
fn entry_targets_under_a_prefix() {
    assert_eq!(entry_target("app", "app"), Some(EntryTarget::Skip));
    assert_eq!(entry_target("app/", "app"), Some(EntryTarget::Skip));
    assert_eq!(entry_target("app/src/main.rs", "app"), Some(EntryTarget::Write("src/main.rs".to_string())));
    assert_eq!(entry_target("app/src/", "app"), Some(EntryTarget::Write("src/".to_string())));
    assert_eq!(entry_target("app/x", "app/"), Some(EntryTarget::Write("x".to_string())));
    assert_eq!(entry_target("apple/x", "app"), None);
    assert_eq!(entry_target("other/x", "app"), None);
    assert_eq!(entry_target("ap", "app"), None);
    assert_eq!(entry_target("app//x", "app"), Some(EntryTarget::Write("x".to_string())));
    assert_eq!(entry_target("app/", "app/"), Some(EntryTarget::Skip));
    assert_eq!(entry_target("app//", "app"), Some(EntryTarget::Skip));
}

fn tar_of(entries: &[(&str, Option<&[u8]>)]) -> Vec<u8> {
    let mut b = tar::Builder::new(Vec::new());
    for (path, data) in entries {
        let mut h = tar::Header::new_gnu();
        match data {
            Some(d) => {
                h.set_entry_type(tar::EntryType::Regular);
                h.set_size(d.len() as u64);
                h.set_mode(0o644);
                b.append_data(&mut h, path, *d).unwrap();
            }
            None => {
                h.set_entry_type(tar::EntryType::Directory);
                h.set_size(0);
                h.set_mode(0o755);
                b.append_data(&mut h, path, std::io::empty()).unwrap();
            }
        }
    }
    b.into_inner().unwrap()
}

fn unpack_with_prefix(tar_bytes: &[u8], dst: &Path, prefix: &str) {
    let mut archive = tar::Archive::new(tar_bytes);
    for entry in archive.entries().unwrap().filter_map(|e| e.ok()) {
        let mut entry = entry;
        let path = entry.path().unwrap().to_string_lossy().into_owned();
        match entry_target(&path, prefix).expect("entry outside the prefix") {
            EntryTarget::Skip => {}
            EntryTarget::Write(rel) => {
                entry.unpack(dst.join(rel)).unwrap();
            }
        }
    }
}

fn files_under(root: &Path) -> BTreeMap<String, Vec<u8>> {
    let mut builder = tar::Builder::new(Vec::new());
    builder.append_dir_all(".", root).unwrap();
    let bytes = builder.into_inner().unwrap();
    let mut out = BTreeMap::new();
    let mut archive = tar::Archive::new(bytes.as_slice());
    for entry in archive.entries().unwrap() {
        let mut entry = entry.unwrap();
        if entry.header().entry_type().is_file() {
            let path = entry.path().unwrap().to_string_lossy().into_owned();
            let mut data = Vec::new();
            std::io::Read::read_to_end(&mut entry, &mut data).unwrap();
            out.insert(path, data);
        }
    }
    out
}

#[test]
fn prefix_equal_to_top_directory_is_stripped() {
    let tar_bytes = tar_of(&[
        ("app/", None),
        ("app/src/", None),
        ("app/src/lib.rs", Some(b"fn f() {}")),
        ("app/README", Some(b"hello")),
    ]);
    let packed = compress_tar(&tar_bytes).unwrap();
    let a = prepare_archive(&packed).unwrap();
    let dst = tempfile::tempdir().unwrap();
    unpack_with_prefix(&a.tar, dst.path(), "app");
    assert!(!dst.path().join("app").exists());
    let files = files_under(dst.path());
    assert_eq!(files.len(), 2);
    assert_eq!(files["src/lib.rs"], b"fn f() {}".to_vec());
    assert_eq!(files["README"], b"hello".to_vec());
}

#[test]
fn compressed_tree_extracts_to_the_same_files() {
    let src = tempfile::tempdir().unwrap();
    let seed = tar_of(&[
        ("src/", None),
        ("src/nested/", None),
        ("top.txt", Some(b"top")),
        ("src/a.cls", Some(b"class A {}")),
        ("src/nested/b.bin", Some(&[0u8, 1, 2, 255])),
    ]);
    tar::Archive::new(seed.as_slice()).unpack(src.path()).unwrap();
    let mut builder = tar::Builder::new(Vec::new());
    builder.append_dir_all(".", src.path()).unwrap();
    let tar_bytes = builder.into_inner().unwrap();
    let packed = compress_tar(&tar_bytes).unwrap();
    let a = prepare_archive(&packed).unwrap();
    let dst = tempfile::tempdir().unwrap();
    tar::Archive::new(a.tar.as_slice()).unpack(dst.path()).unwrap();
    let before = files_under(src.path());
    assert_eq!(before.len(), 3);
    assert_eq!(before["src/nested/b.bin"], vec![0u8, 1, 2, 255]);
    assert_eq!(before, files_under(dst.path()));
}

#[test]
fn hex_is_lower_case_two_digits_per_byte() {
    assert_eq!(to_hex(&[]), "");
    assert_eq!(to_hex(&[0x00, 0x0f, 0xa0, 0xff]), "000fa0ff");
}

#[test]
fn compression_uses_the_fixed_preset() {
    let data = b"some tar bytes, repeated repeated repeated".to_vec();
    let mut enc = xz::write::XzEncoder::new(Vec::new(), 6);
    std::io::Write::write_all(&mut enc, &data).unwrap();
    let expected = enc.finish().unwrap();
    assert_eq!(compress_tar(&data).unwrap(), expected);
}
