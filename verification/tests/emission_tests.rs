use source_emission::config::{identity_key, FileName};
use source_emission::emitter::{EmitError, RecordingSink, SinkCall};
use source_emission::file_system::{FileSystem, MemFileSystem, ReadErrorKind};
use source_emission::source_cache::SourceCache;
use source_emission::source_file::{
    append_newline, must_bypass_cache, resolve, write_all_files, write_file,
};
use source_emission::NewlineStyle;

fn real_path(path: &str) -> FileName {
    FileName::Real(path.to_owned())
}

#[test]
fn append_newline_appends() {
    let mut s = "fn main() {}".to_owned();
    append_newline(&mut s);
    assert_eq!(s, "fn main() {}\n");
}

#[test]
fn append_newline_on_empty() {
    let mut s = String::new();
    append_newline(&mut s);
    assert_eq!(s, "\n");
}

#[test]
fn bypass_decision_table() {
    let file = real_path("a.txt");
    assert!(!must_bypass_cache(NewlineStyle::Auto, &file));
    assert!(must_bypass_cache(NewlineStyle::Unix, &file));
    assert!(must_bypass_cache(NewlineStyle::Windows, &file));
    assert!(must_bypass_cache(NewlineStyle::Native, &file));
    assert!(!must_bypass_cache(NewlineStyle::Auto, &FileName::Stdin));
    assert!(!must_bypass_cache(NewlineStyle::Unix, &FileName::Stdin));
    assert!(!must_bypass_cache(NewlineStyle::Windows, &FileName::Stdin));
    assert!(!must_bypass_cache(NewlineStyle::Native, &FileName::Stdin));
}

#[test]
fn cache_hit_reads_nothing() {
    let mut cache = SourceCache::new();
    cache.insert("a.txt".to_owned(), "cached\n".to_owned());
    let mut fs = MemFileSystem::new();
    fs.insert_text("a.txt".to_owned(), "on disk\n".to_owned());
    let file = real_path("a.txt");
    let bypass = must_bypass_cache(NewlineStyle::Auto, &file);
    let r = resolve(&file, Some(&cache), &mut fs, bypass);
    assert_eq!(r, Ok("cached\n".to_owned()));
    assert_eq!(fs.read_count(), 0);
}

#[test]
fn non_auto_style_reads_the_disk_not_the_cache() {
    for style in [NewlineStyle::Unix, NewlineStyle::Windows, NewlineStyle::Native] {
        let mut cache = SourceCache::new();
        cache.insert("a.txt".to_owned(), "cached\n".to_owned());
        let mut fs = MemFileSystem::new();
        fs.insert_text("a.txt".to_owned(), "on disk\r\n".to_owned());
        let file = real_path("a.txt");
        let bypass = must_bypass_cache(style, &file);
        let r = resolve(&file, Some(&cache), &mut fs, bypass);
        assert_eq!(r, Ok("on disk\r\n".to_owned()));
        assert_eq!(fs.read_count(), 1);
    }
}

#[test]
fn stdin_is_resolved_from_the_cache() {
    let mut cache = SourceCache::new();
    cache.insert("stdin".to_owned(), "piped\n".to_owned());
    let mut fs = MemFileSystem::new();
    let bypass = must_bypass_cache(NewlineStyle::Auto, &FileName::Stdin);
    let r = resolve(&FileName::Stdin, Some(&cache), &mut fs, bypass);
    assert_eq!(r, Ok("piped\n".to_owned()));
    assert_eq!(fs.read_count(), 0);
}

#[test]
fn stdin_without_a_cache_is_rejected() {
    let mut fs = MemFileSystem::new();
    let r = resolve(&FileName::Stdin, None, &mut fs, false);
    assert_eq!(r, Err(EmitError::InvalidTarget));
    assert_eq!(fs.read_count(), 0);
}

#[test]
fn stdin_on_a_cache_miss_is_rejected() {
    let cache = SourceCache::new();
    let mut fs = MemFileSystem::new();
    let r = resolve(&FileName::Stdin, Some(&cache), &mut fs, false);
    assert_eq!(r, Err(EmitError::InvalidTarget));
    assert_eq!(fs.read_count(), 0);
}

#[test]
fn identity_keys() {
    assert_eq!(identity_key(&real_path("src/lib.rs")), "src/lib.rs");
    assert_eq!(identity_key(&FileName::Stdin), "stdin");
}

#[test]
fn missing_file_error_is_propagated() {
    let mut fs = MemFileSystem::new();
    let mut sink = RecordingSink::new();
    let mut out: Vec<u8> = Vec::new();
    let file = real_path("gone.txt");
    let text = "x\n".to_owned();
    let r = write_file(None, &file, &text, &mut out, &mut sink, &mut fs, NewlineStyle::Auto);
    assert_eq!(r, Err(EmitError::Io(ReadErrorKind::NotFound)));
    assert!(sink.calls().is_empty());
}

#[test]
fn permission_error_is_propagated() {
    let mut fs = MemFileSystem::new();
    fs.insert_error("locked.txt".to_owned(), ReadErrorKind::PermissionDenied);
    let mut sink = RecordingSink::new();
    let mut out: Vec<u8> = Vec::new();
    let file = real_path("locked.txt");
    let text = "x\n".to_owned();
    let r = write_file(None, &file, &text, &mut out, &mut sink, &mut fs, NewlineStyle::Auto);
    assert_eq!(r, Err(EmitError::Io(ReadErrorKind::PermissionDenied)));
    assert!(sink.calls().is_empty());
}

#[test]
fn invalid_encoding_error_is_propagated() {
    let mut fs = MemFileSystem::new();
    fs.insert_error("binary.bin".to_owned(), ReadErrorKind::InvalidData);
    let mut sink = RecordingSink::new();
    let mut out: Vec<u8> = Vec::new();
    let file = real_path("binary.bin");
    let text = "x\n".to_owned();
    let r = write_file(None, &file, &text, &mut out, &mut sink, &mut fs, NewlineStyle::Auto);
    assert_eq!(r, Err(EmitError::Io(ReadErrorKind::InvalidData)));
    assert!(sink.calls().is_empty());
}

#[test]
fn write_file_reports_a_diff() {
    let mut fs = MemFileSystem::new();
    fs.insert_text("a.txt".to_owned(), "old\n".to_owned());
    let mut sink = RecordingSink::new();
    let mut out: Vec<u8> = Vec::new();
    let file = real_path("a.txt");
    let text = "new\n".to_owned();
    let r = write_file(None, &file, &text, &mut out, &mut sink, &mut fs, NewlineStyle::Auto);
    assert!(r.is_ok());
    assert!(r.unwrap().has_diff);
    assert_eq!(
        sink.calls().as_slice(),
        &[SinkCall::File {
            filename: real_path("a.txt"),
            original: "old\n".to_owned(),
            formatted: "new\n".to_owned(),
        }]
    );
}

#[test]
fn write_file_uses_the_cache_under_auto_style() {
    let mut cache = SourceCache::new();
    cache.insert("a.txt".to_owned(), "cached\n".to_owned());
    let mut fs = MemFileSystem::new();
    fs.insert_text("a.txt".to_owned(), "on disk\n".to_owned());
    let mut sink = RecordingSink::new();
    let mut out: Vec<u8> = Vec::new();
    let file = real_path("a.txt");
    let text = "cached\n".to_owned();
    let r = write_file(
        Some(&cache),
        &file,
        &text,
        &mut out,
        &mut sink,
        &mut fs,
        NewlineStyle::Auto,
    );
    assert!(r.is_ok());
    assert!(!r.unwrap().has_diff);
    assert_eq!(fs.read_count(), 0);
    assert_eq!(
        sink.calls().as_slice(),
        &[SinkCall::File {
            filename: real_path("a.txt"),
            original: "cached\n".to_owned(),
            formatted: "cached\n".to_owned(),
        }]
    );
}

#[test]
fn batch_brackets_every_entry_in_order() {
    let mut fs = MemFileSystem::new();
    fs.insert_text("a.txt".to_owned(), "1\n".to_owned());
    fs.insert_text("b.txt".to_owned(), "2\n".to_owned());
    fs.insert_text("c.txt".to_owned(), "3\n".to_owned());
    let entries = vec![
        (real_path("a.txt"), "one\n".to_owned()),
        (real_path("b.txt"), "two\n".to_owned()),
        (real_path("c.txt"), "three\n".to_owned()),
    ];
    let mut sink = RecordingSink::new();
    let mut out: Vec<u8> = Vec::new();
    let r = write_all_files(&entries, &mut out, &mut sink, &mut fs, NewlineStyle::Auto);
    assert_eq!(r, Ok(()));
    let calls = sink.calls();
    assert_eq!(calls.len(), 5);
    assert_eq!(calls[0], SinkCall::Header);
    assert_eq!(
        calls[1],
        SinkCall::File {
            filename: real_path("a.txt"),
            original: "1\n".to_owned(),
            formatted: "one\n".to_owned(),
        }
    );
    assert_eq!(
        calls[2],
        SinkCall::File {
            filename: real_path("b.txt"),
            original: "2\n".to_owned(),
            formatted: "two\n".to_owned(),
        }
    );
    assert_eq!(
        calls[3],
        SinkCall::File {
            filename: real_path("c.txt"),
            original: "3\n".to_owned(),
            formatted: "three\n".to_owned(),
        }
    );
    assert_eq!(calls[4], SinkCall::Footer);
    let header_calls = calls.iter().filter(|c| **c == SinkCall::Header).count();
    let footer_calls = calls.iter().filter(|c| **c == SinkCall::Footer).count();
    assert_eq!(header_calls, 1);
    assert_eq!(footer_calls, 1);
}

#[test]
fn batch_stops_at_the_first_failing_entry() {
    let mut fs = MemFileSystem::new();
    fs.insert_text("a.txt".to_owned(), "1\n".to_owned());
    fs.insert_error("b.txt".to_owned(), ReadErrorKind::PermissionDenied);
    fs.insert_text("c.txt".to_owned(), "3\n".to_owned());
    let entries = vec![
        (real_path("a.txt"), "one\n".to_owned()),
        (real_path("b.txt"), "two\n".to_owned()),
        (real_path("c.txt"), "three\n".to_owned()),
    ];
    let mut sink = RecordingSink::new();
    let mut out: Vec<u8> = Vec::new();
    let r = write_all_files(&entries, &mut out, &mut sink, &mut fs, NewlineStyle::Auto);
    assert_eq!(r, Err(EmitError::Io(ReadErrorKind::PermissionDenied)));
    let calls = sink.calls();
    assert_eq!(calls.len(), 2);
    assert_eq!(calls[0], SinkCall::Header);
    assert_eq!(
        calls[1],
        SinkCall::File {
            filename: real_path("a.txt"),
            original: "1\n".to_owned(),
            formatted: "one\n".to_owned(),
        }
    );
    assert_eq!(fs.read_count(), 2);
}

#[test]
fn batch_of_two_identical_files() {
    let mut fs = MemFileSystem::new();
    fs.insert_text("a.txt".to_owned(), "x\n".to_owned());
    fs.insert_text("b.txt".to_owned(), "y\n".to_owned());
    let entries = vec![
        (real_path("a.txt"), "x\n".to_owned()),
        (real_path("b.txt"), "y\n".to_owned()),
    ];
    let mut sink = RecordingSink::new();
    let mut out: Vec<u8> = Vec::new();
    let r = write_all_files(&entries, &mut out, &mut sink, &mut fs, NewlineStyle::Auto);
    assert_eq!(r, Ok(()));
    let calls = sink.calls();
    assert_eq!(calls.len(), 4);
    assert_eq!(calls[0], SinkCall::Header);
    assert_eq!(
        calls[1],
        SinkCall::File {
            filename: real_path("a.txt"),
            original: "x\n".to_owned(),
            formatted: "x\n".to_owned(),
        }
    );
    assert_eq!(
        calls[2],
        SinkCall::File {
            filename: real_path("b.txt"),
            original: "y\n".to_owned(),
            formatted: "y\n".to_owned(),
        }
    );
    assert_eq!(calls[3], SinkCall::Footer);
}

#[test]
fn batch_of_nothing_still_brackets() {
    let mut fs = MemFileSystem::new();
    let entries: Vec<(FileName, String)> = Vec::new();
    let mut sink = RecordingSink::new();
    let mut out: Vec<u8> = Vec::new();
    let r = write_all_files(&entries, &mut out, &mut sink, &mut fs, NewlineStyle::Auto);
    assert_eq!(r, Ok(()));
    assert_eq!(sink.calls().as_slice(), &[SinkCall::Header, SinkCall::Footer]);
    assert_eq!(fs.read_count(), 0);
}

#[test]
fn cache_lookup_returns_a_copy() {
    let mut cache = SourceCache::new();
    assert_eq!(cache.lookup(&"k".to_owned()), None);
    cache.insert("k".to_owned(), "v".to_owned());
    assert_eq!(cache.lookup(&"k".to_owned()), Some("v".to_owned()));
    assert_eq!(cache.lookup(&"other".to_owned()), None);
    cache.insert("k".to_owned(), "w".to_owned());
    assert_eq!(cache.lookup(&"k".to_owned()), Some("w".to_owned()));
}

#[test]
fn mem_file_system_logs_reads() {
    let mut fs = MemFileSystem::new();
    fs.insert_text("a.txt".to_owned(), "x".to_owned());
    assert_eq!(fs.read_count(), 0);
    assert_eq!(fs.read_to_string(&"a.txt".to_owned()), Ok("x".to_owned()));
    assert_eq!(
        fs.read_to_string(&"missing".to_owned()),
        Err(ReadErrorKind::NotFound)
    );
    assert_eq!(fs.read_count(), 2);
}
