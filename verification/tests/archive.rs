use apk_decompiler::archive::error_of;
use apk_decompiler::archive::read_archive;
use apk_decompiler::archive::ArchiveFault;
use apk_decompiler::error::ErrorKind;
use std::io::Cursor;
use std::io::Write;
use zip::write::FileOptions;
use zip::CompressionMethod;
use zip::ZipWriter;

fn sample_archive() -> Vec<u8> {
    let mut writer = ZipWriter::new(Cursor::new(Vec::new()));
    writer.start_file("AndroidManifest.xml", FileOptions::default()).unwrap();
    writer.write_all(b"<manifest/>").unwrap();
    writer.add_directory("res/", FileOptions::default()).unwrap();
    writer
        .start_file(
            "res/values/strings.xml",
            FileOptions::default().compression_method(CompressionMethod::Stored),
        )
        .unwrap();
    writer.write_all(b"<resources></resources>").unwrap();
    writer.start_file("classes.dex", FileOptions::default()).unwrap();
    writer.write_all(&[0u8; 4096]).unwrap();
    writer.finish().unwrap().into_inner()
}

#[test]
fn reads_members_in_index_order() {
    let listing = read_archive(sample_archive());
    assert_eq!(listing.failure, None);
    let names: Vec<&str> = listing.entries.iter().map(|e| e.name.as_str()).collect();
    assert_eq!(names, vec!["AndroidManifest.xml", "res/", "res/values/strings.xml", "classes.dex"]);
}

#[test]
fn reads_the_bytes_and_sizes_of_members() {
    let listing = read_archive(sample_archive());
    assert_eq!(listing.entries[0].data, b"<manifest/>".to_vec());
    assert_eq!(listing.entries[0].size, 11);
    assert_eq!(listing.entries[1].data, Vec::<u8>::new());
    assert_eq!(listing.entries[1].size, 0);
    assert_eq!(listing.entries[2].data, b"<resources></resources>".to_vec());
    assert_eq!(listing.entries[2].size, 23);
    assert_eq!(listing.entries[3].data, vec![0u8; 4096]);
    assert_eq!(listing.entries[3].size, 4096);
}

#[test]
fn sanitized_names_of_plain_members_are_their_names() {
    let listing = read_archive(sample_archive());
    assert_eq!(listing.entries[0].sanitized, "AndroidManifest.xml");
    assert_eq!(listing.entries[1].sanitized, "res");
    assert_eq!(listing.entries[2].sanitized, "res/values/strings.xml");
    assert_eq!(listing.entries[0].comment, "");
}

#[test]
fn sanitized_names_drop_traversal_and_roots() {
    let mut writer = ZipWriter::new(Cursor::new(Vec::new()));
    for name in vec!["../../etc/passwd", "/abs/file", "a/../b", "./c", "..", "d\\..\\e"] {
        writer.start_file(name, FileOptions::default()).unwrap();
        writer.write_all(b"x").unwrap();
    }
    let listing = read_archive(writer.finish().unwrap().into_inner());
    assert_eq!(listing.failure, None);
    let sanitized: Vec<&str> = listing.entries.iter().map(|e| e.sanitized.as_str()).collect();
    assert_eq!(sanitized, vec!["etc/passwd", "abs/file", "a/b", "c", "", "d/e"]);
    let names: Vec<&str> = listing.entries.iter().map(|e| e.name.as_str()).collect();
    assert_eq!(names, vec!["../../etc/passwd", "/abs/file", "a/../b", "./c", "..", "d\\..\\e"]);
}

#[test]
fn an_empty_container_has_no_members() {
    let writer = ZipWriter::new(Cursor::new(Vec::new()));
    let mut writer = writer;
    let listing = read_archive(writer.finish().unwrap().into_inner());
    assert_eq!(listing.entries.len(), 0);
    assert_eq!(listing.failure, None);
}

#[test]
fn bytes_that_are_no_container_are_refused() {
    let listing = read_archive(b"this is certainly not a zip container".to_vec());
    assert_eq!(listing.entries.len(), 0);
    assert_eq!(
        listing.failure,
        Some(ArchiveFault {
            message: "invalid Zip archive: Could not find central directory end".to_owned()
        })
    );
}

#[test]
fn no_bytes_at_all_are_refused() {
    let listing = read_archive(Vec::new());
    assert_eq!(listing.entries.len(), 0);
    assert!(listing.failure.is_some());
}

#[test]
fn a_damaged_member_ends_the_listing() {
    let mut bytes = sample_archive();
    let at = bytes.windows(23).position(|w| w == b"<resources></resources>").unwrap();
    bytes[at] = b'!';
    let listing = read_archive(bytes);
    assert_eq!(listing.entries.len(), 2);
    assert_eq!(listing.entries[0].name, "AndroidManifest.xml");
    assert_eq!(listing.entries[1].name, "res/");
    assert_eq!(listing.failure, Some(ArchiveFault { message: "Invalid checksum".to_owned() }));
}

#[test]
fn a_fault_of_the_reader_is_a_corrupt_archive() {
    let error = error_of(ArchiveFault { message: "invalid Zip archive".to_owned() });
    assert_eq!(error.kind, ErrorKind::ArchiveCorrupt);
    assert_eq!(error.cause, "invalid Zip archive");
}

#[test]
fn the_declared_size_is_what_the_container_says() {
    let mut writer = ZipWriter::new(Cursor::new(Vec::new()));
    let stored = FileOptions::default().compression_method(CompressionMethod::Stored);
    writer.start_file("a", stored).unwrap();
    writer.write_all(b"12345").unwrap();
    let mut bytes = writer.finish().unwrap().into_inner();
    let central = bytes.windows(4).position(|w| w == [0x50, 0x4b, 0x01, 0x02]).unwrap();
    bytes[central + 24] = 7;
    let listing = read_archive(bytes);
    assert_eq!(listing.failure, None);
    assert_eq!(listing.entries[0].size, 7);
    assert_eq!(listing.entries[0].data, b"12345".to_vec());
}

fn put16(bytes: &mut Vec<u8>, value: u16) {
    bytes.extend_from_slice(&value.to_le_bytes());
}

fn put32(bytes: &mut Vec<u8>, value: u32) {
    bytes.extend_from_slice(&value.to_le_bytes());
}

fn central_header(name: &[u8], extra: &[u8], offset: u32) -> Vec<u8> {
    let mut bytes = Vec::new();
    put32(&mut bytes, 0x02014b50);
    put16(&mut bytes, 20);
    put16(&mut bytes, 20);
    put16(&mut bytes, 0);
    put16(&mut bytes, 0);
    put16(&mut bytes, 0);
    put16(&mut bytes, 0x21);
    put32(&mut bytes, 0);
    put32(&mut bytes, 0);
    put32(&mut bytes, 0);
    put16(&mut bytes, name.len() as u16);
    put16(&mut bytes, extra.len() as u16);
    put16(&mut bytes, 0);
    put16(&mut bytes, 0);
    put16(&mut bytes, 0);
    put32(&mut bytes, 0);
    put32(&mut bytes, offset);
    bytes.extend_from_slice(name);
    bytes.extend_from_slice(extra);
    bytes
}

fn local_header(name: &[u8]) -> Vec<u8> {
    let mut bytes = Vec::new();
    put32(&mut bytes, 0x04034b50);
    put16(&mut bytes, 20);
    put16(&mut bytes, 0);
    put16(&mut bytes, 0);
    put16(&mut bytes, 0);
    put16(&mut bytes, 0x21);
    put32(&mut bytes, 0);
    put32(&mut bytes, 0);
    put32(&mut bytes, 0);
    put16(&mut bytes, name.len() as u16);
    put16(&mut bytes, 0);
    bytes.extend_from_slice(name);
    bytes
}

fn end_record(entries: u16, size: u32, offset: u32) -> Vec<u8> {
    let mut bytes = Vec::new();
    put32(&mut bytes, 0x06054b50);
    put16(&mut bytes, 0);
    put16(&mut bytes, 0);
    put16(&mut bytes, entries);
    put16(&mut bytes, entries);
    put32(&mut bytes, size);
    put32(&mut bytes, offset);
    put16(&mut bytes, 0);
    bytes
}

#[test]
fn an_offset_beyond_all_bounds_is_refused() {
    let mut extra = vec![0x01, 0x00, 0x08, 0x00];
    extra.extend_from_slice(&u64::MAX.to_le_bytes());
    let directory = central_header(b"a", &extra, 0xFFFF_FFFF);
    let mut bytes = vec![0u8];
    bytes.extend_from_slice(&directory);
    bytes.extend_from_slice(&end_record(1, directory.len() as u32, 0));
    assert_eq!(bytes.len(), 82);
    let listing = read_archive(bytes);
    assert_eq!(listing.entries.len(), 0);
    assert_eq!(
        listing.failure,
        Some(ArchiveFault {
            message: "invalid Zip archive: Archive header is too large".to_owned()
        })
    );
}

#[test]
fn a_member_with_encryption_data_but_no_mark_is_a_fault() {
    let extra = vec![0x01, 0x99, 0x07, 0x00, 0x02, 0x00, 0x41, 0x45, 0x03, 0x00, 0x00];
    let mut bytes = local_header(b"plain");
    bytes.extend_from_slice(&local_header(b"sealed"));
    let offset = bytes.len() as u32;
    let mut directory = central_header(b"plain", &[], 0);
    directory.extend_from_slice(&central_header(b"sealed", &extra, 35));
    bytes.extend_from_slice(&directory);
    bytes.extend_from_slice(&end_record(2, directory.len() as u32, offset));
    let listing = read_archive(bytes);
    assert_eq!(listing.entries.len(), 1);
    assert_eq!(listing.entries[0].name, "plain");
    assert_eq!(listing.entries[0].data, Vec::<u8>::new());
    assert_eq!(
        listing.failure,
        Some(ArchiveFault { message: "invalid password for file in archive".to_owned() })
    );
}

#[test]
fn the_stream_of_a_directory_marker_is_not_read() {
    let mut writer = ZipWriter::new(Cursor::new(Vec::new()));
    writer.add_directory("res/", FileOptions::default()).unwrap();
    writer.start_file("res/a.txt", FileOptions::default()).unwrap();
    writer.write_all(b"a").unwrap();
    let mut bytes = writer.finish().unwrap().into_inner();
    let central = bytes.windows(4).position(|w| w == [0x50, 0x4b, 0x01, 0x02]).unwrap();
    bytes[central + 16] ^= 0xff;
    let listing = read_archive(bytes);
    assert_eq!(listing.failure, None);
    assert_eq!(listing.entries.len(), 2);
    assert_eq!(listing.entries[0].name, "res/");
    assert_eq!(listing.entries[0].data, Vec::<u8>::new());
    assert_eq!(listing.entries[1].data, b"a".to_vec());
}

#[test]
fn a_damaged_checksum_of_a_file_is_a_fault() {
    let mut writer = ZipWriter::new(Cursor::new(Vec::new()));
    writer.start_file("a.txt", FileOptions::default()).unwrap();
    writer.write_all(b"a").unwrap();
    let mut bytes = writer.finish().unwrap().into_inner();
    let central = bytes.windows(4).position(|w| w == [0x50, 0x4b, 0x01, 0x02]).unwrap();
    bytes[central + 16] ^= 0xff;
    let listing = read_archive(bytes);
    assert_eq!(listing.entries.len(), 0);
    assert_eq!(listing.failure, Some(ArchiveFault { message: "Invalid checksum".to_owned() }));
}
