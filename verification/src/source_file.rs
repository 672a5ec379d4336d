//! The emission core: decide whether the cache may serve a file's original
//! text, retrieve that text from the cache or the filesystem, and hand the
//! (original, formatted) pair to the sink — per file, and for whole batches
//! bracketed by the sink's header and footer hooks.
use crate::config::FileName;
use crate::config::FileNameV;
use crate::config::identity_key;
use crate::config::spec_identity_key;
use crate::emitter::EmitError;
use crate::emitter::EmitEvent;
use crate::emitter::Emitter;
use crate::emitter::EmitterResult;
use crate::emitter::FormattedFile;
use crate::emitter::spec_file_event;
use crate::file_system::FileSystem;
use crate::source_cache::SourceCache;
use crate::NewlineStyle;
use vstd::prelude::*;

verus! {

/// One batch entry: the file's identity and its formatted text.
pub type FileRecord = (FileName, String);

/// Append a newline to the end of a file's text.
pub fn append_newline(s: &mut String)
    ensures
        final(s)@ == old(s)@ + "\n"@,
{
    s.append("\n");
}

/// Whether original-text retrieval must bypass the cache and read the
/// filesystem: the cache holds line-ending-normalized text, so any
/// non-automatic newline style demands the on-disk bytes of a real path. The
/// virtual stream has no on-disk bytes and is never read, whatever the style.
pub open spec fn spec_must_bypass_cache(style: NewlineStyle, id: FileNameV) -> bool {
    style != NewlineStyle::Auto && id is Real
}

/// Decide whether the cache must be bypassed, following
/// [`spec_must_bypass_cache`].
pub fn must_bypass_cache(newline_style: NewlineStyle, filename: &FileName) -> (bypass: bool)
    ensures
        bypass == spec_must_bypass_cache(newline_style, filename@),
{
    let is_real = match filename {
        FileName::Real(_) => true,
        FileName::Stdin => false,
    };
    newline_style != NewlineStyle::Auto && is_real
}

/// What the cache capability answers for `key`: `None` when the capability
/// itself is absent.
pub open spec fn spec_cache_hit(cache: Option<&SourceCache>, key: Seq<char>) -> Option<Seq<char>> {
    match cache {
        Some(c) => c.spec_lookup(key),
        None => None,
    }
}

/// The mathematical value of a resolution's outcome.
pub open spec fn resolve_view(r: Result<String, EmitError>) -> Result<Seq<char>, EmitError> {
    match r {
        Ok(text) => Ok(text@),
        Err(e) => Err(e),
    }
}

/// The text that resolving `id` yields: the cache's copy when the cache may
/// be used and holds one; otherwise the filesystem's content for a real path,
/// and a contract violation for the virtual stream, which has no filesystem
/// fallback.
pub open spec fn spec_resolve<F: FileSystem>(
    fs: &F,
    cache: Option<&SourceCache>,
    id: FileNameV,
    bypass_cache: bool,
) -> Result<Seq<char>, EmitError> {
    let hit = if bypass_cache {
        None
    } else {
        spec_cache_hit(cache, spec_identity_key(id))
    };
    match hit {
        Some(text) => Ok(text),
        None => match id {
            FileNameV::Real(path) => match fs.content(path) {
                Ok(text) => Ok(text),
                Err(kind) => Err(EmitError::Io(kind)),
            },
            FileNameV::Stdin => Err(EmitError::InvalidTarget),
        },
    }
}

/// The filesystem reads that resolving `id` performs: none on a cache hit and
/// none for the virtual stream, exactly one otherwise.
pub open spec fn spec_resolve_reads<F: FileSystem>(
    fs: &F,
    cache: Option<&SourceCache>,
    id: FileNameV,
    bypass_cache: bool,
) -> Seq<Seq<char>> {
    let hit = if bypass_cache {
        None
    } else {
        spec_cache_hit(cache, spec_identity_key(id))
    };
    match hit {
        Some(_) => Seq::empty(),
        None => match id {
            FileNameV::Real(path) => seq![path],
            FileNameV::Stdin => Seq::empty(),
        },
    }
}

/// Retrieve the verbatim pre-formatting text of `filename`.
///
/// With `bypass_cache` false, a cache hit is answered with a copy of the
/// cached text and no filesystem access. Otherwise a real path is read from
/// the filesystem and any read failure propagated unchanged; resolving the
/// virtual stream without a cached text is a contract violation, rejected
/// with [`EmitError::InvalidTarget`].
pub fn resolve<F: FileSystem>(
    filename: &FileName,
    cache: Option<&SourceCache>,
    fs: &mut F,
    bypass_cache: bool,
) -> (r: Result<String, EmitError>)
    ensures
        resolve_view(r) == spec_resolve(old(fs), cache, filename@, bypass_cache),
        final(fs).log() == old(fs).log() + spec_resolve_reads(
            old(fs),
            cache,
            filename@,
            bypass_cache,
        ),
        forall|p: Seq<char>| final(fs).content(p) == old(fs).content(p),
{
    if !bypass_cache {
        match cache {
            Some(c) => {
                let key = identity_key(filename);
                match c.lookup(&key) {
                    Some(text) => {
                        proof {
                            assert(fs.log() + spec_resolve_reads(
                                fs,
                                cache,
                                filename@,
                                bypass_cache,
                            ) =~= fs.log());
                        }
                        return Ok(text);
                    },
                    None => {},
                }
            },
            None => {},
        }
    }
    match filename {
        FileName::Real(path) => {
            let r = match fs.read_to_string(path) {
                Ok(text) => Ok(text),
                Err(kind) => Err(EmitError::Io(kind)),
            };
            proof {
                assert(final(fs).log() =~= old(fs).log() + spec_resolve_reads(
                    old(fs),
                    cache,
                    filename@,
                    bypass_cache,
                ));
            }
            r
        },
        FileName::Stdin => {
            proof {
                assert(fs.log() + spec_resolve_reads(fs, cache, filename@, bypass_cache)
                    =~= fs.log());
            }
            Err(EmitError::InvalidTarget)
        },
    }
}

/// Reconcile one file and hand it to the sink: decide the bypass, resolve the
/// original text, and — unless resolution failed, in which case its error is
/// propagated and the sink is not called — pass the (original, formatted)
/// pair to the sink's per-file operation and return that call's answer
/// verbatim.
pub fn write_file<F: FileSystem, E: Emitter>(
    cache: Option<&SourceCache>,
    filename: &FileName,
    formatted_text: &String,
    out: &mut Vec<u8>,
    emitter: &mut E,
    fs: &mut F,
    newline_style: NewlineStyle,
) -> (r: Result<EmitterResult, EmitError>)
    ensures
        forall|p: Seq<char>| final(fs).content(p) == old(fs).content(p),
        final(fs).log() == old(fs).log() + spec_resolve_reads(
            old(fs),
            cache,
            filename@,
            spec_must_bypass_cache(newline_style, filename@),
        ),
        match spec_resolve(
            old(fs),
            cache,
            filename@,
            spec_must_bypass_cache(newline_style, filename@),
        ) {
            Err(e) => r == Err::<EmitterResult, EmitError>(e) && final(emitter).events() == old(
                emitter,
            ).events(),
            Ok(original) => final(emitter).events() == old(emitter).events().push(
                spec_file_event(filename@, original, formatted_text@),
            ) && r == E::file_outcome(
                old(emitter).events(),
                spec_file_event(filename@, original, formatted_text@),
            ),
        },
{
    let bypass_cache = must_bypass_cache(newline_style, filename);
    let original_text = match resolve(filename, cache, fs, bypass_cache) {
        Ok(text) => text,
        Err(e) => {
            return Err(e);
        },
    };
    let formatted_file = FormattedFile { filename, original_text: &original_text, formatted_text };
    emitter.emit_formatted_file(out, formatted_file)
}

/// The tail of a batch, from entry `i` on: the sink's event log, the
/// filesystem's read log, and the batch's result, starting from the given
/// logs. Each entry is resolved with no cache capability; the first failure —
/// of resolution or of the sink — stops the batch, skipping the remaining
/// entries and the footer. When every entry succeeds the footer is called
/// last.
pub open spec fn spec_batch<E: Emitter, F: FileSystem>(
    fs: &F,
    style: NewlineStyle,
    entries: Seq<(FileName, String)>,
    i: int,
    events: Seq<EmitEvent>,
    reads: Seq<Seq<char>>,
) -> (Seq<EmitEvent>, Seq<Seq<char>>, Result<(), EmitError>)
    decreases entries.len() - i,
{
    if i < 0 || i >= entries.len() {
        let r = match E::footer_outcome(events) {
            Ok(_) => Ok(()),
            Err(e) => Err(e),
        };
        (events.push(EmitEvent::Footer), reads, r)
    } else {
        let id = entries[i].0@;
        let bypass = spec_must_bypass_cache(style, id);
        let reads2 = reads + spec_resolve_reads(fs, None, id, bypass);
        match spec_resolve(fs, None, id, bypass) {
            Err(e) => (events, reads2, Err(e)),
            Ok(original) => {
                let ev = spec_file_event(id, original, entries[i].1@);
                match E::file_outcome(events, ev) {
                    Err(e) => (events.push(ev), reads2, Err(e)),
                    Ok(_) => spec_batch::<E, F>(fs, style, entries, i + 1, events.push(ev), reads2),
                }
            },
        }
    }
}

/// A whole batch: the header is called first; if it fails nothing else
/// happens, otherwise the entries and footer follow as [`spec_batch`] says.
pub open spec fn spec_write_all<E: Emitter, F: FileSystem>(
    fs: &F,
    style: NewlineStyle,
    entries: Seq<(FileName, String)>,
    events: Seq<EmitEvent>,
    reads: Seq<Seq<char>>,
) -> (Seq<EmitEvent>, Seq<Seq<char>>, Result<(), EmitError>) {
    match E::header_outcome(events) {
        Err(e) => (events.push(EmitEvent::Header), reads, Err(e)),
        Ok(_) => spec_batch::<E, F>(fs, style, entries, 0, events.push(EmitEvent::Header), reads),
    }
}

/// Emit a whole batch of (identity, formatted text) entries: the sink's
/// header hook, then one emission per entry in input order — each resolved
/// with no cache capability — then the footer hook. The first error stops the
/// batch and is propagated unchanged; the remaining entries, and the footer,
/// are not attempted.
#[verifier::loop_isolation(false)]
pub fn write_all_files<E: Emitter, F: FileSystem>(
    source_file: &Vec<FileRecord>,
    out: &mut Vec<u8>,
    emitter: &mut E,
    fs: &mut F,
    newline_style: NewlineStyle,
) -> (r: Result<(), EmitError>)
    ensures
        forall|p: Seq<char>| final(fs).content(p) == old(fs).content(p),
        ({
            let outcome = spec_write_all::<E, F>(
                old(fs),
                newline_style,
                source_file@,
                old(emitter).events(),
                old(fs).log(),
            );
            final(emitter).events() == outcome.0 && final(fs).log() == outcome.1 && r == outcome.2
        }),
{
    let ghost outcome = spec_write_all::<E, F>(
        old(fs),
        newline_style,
        source_file@,
        old(emitter).events(),
        old(fs).log(),
    );
    match emitter.emit_header(out) {
        Ok(_) => {},
        Err(e) => {
            return Err(e);
        },
    }
    let mut i: usize = 0;
    while i < source_file.len()
        invariant
            0 <= i <= source_file.len(),
            forall|p: Seq<char>| fs.content(p) == old(fs).content(p),
            outcome == spec_batch::<E, F>(
                old(fs),
                newline_style,
                source_file@,
                i as int,
                emitter.events(),
                fs.log(),
            ),
        decreases source_file.len() - i,
    {
        let entry = &source_file[i];
        let ghost id = entry.0@;
        let ghost bypass = spec_must_bypass_cache(newline_style, id);
        proof {
            assert(spec_resolve(fs, None, id, bypass) == spec_resolve(old(fs), None, id, bypass));
            assert(spec_resolve_reads(fs, None, id, bypass) == spec_resolve_reads(
                old(fs),
                None,
                id,
                bypass,
            ));
        }
        let r = write_file(None, &entry.0, &entry.1, out, emitter, fs, newline_style);
        match r {
            Ok(_) => {},
            Err(e) => {
                return Err(e);
            },
        }
        i = i + 1;
    }
    let r = emitter.emit_footer(out);
    match r {
        Ok(_) => Ok(()),
        Err(e) => Err(e),
    }
}

/// Under the automatic newline style, a real path whose text the cache holds
/// is resolved from the cache: the cached text is returned byte for byte and
/// no filesystem read is performed.
pub proof fn lemma_resolve_prefers_cache<F: FileSystem>(
    fs: &F,
    cache: &SourceCache,
    id: FileNameV,
    text: Seq<char>,
)
    requires
        id is Real,
        cache.spec_lookup(spec_identity_key(id)) == Some(text),
    ensures
        spec_resolve(fs, Some(cache), id, spec_must_bypass_cache(NewlineStyle::Auto, id)) == Ok::<
            Seq<char>,
            EmitError,
        >(text),
        spec_resolve_reads(fs, Some(cache), id, spec_must_bypass_cache(NewlineStyle::Auto, id))
            == Seq::<Seq<char>>::empty(),
{
}

/// Under any non-automatic newline style, a real path is always read from the
/// filesystem — exactly one read — and the filesystem's content is returned,
/// never the cache's, whatever the cache holds.
pub proof fn lemma_resolve_bypasses_cache<F: FileSystem>(
    fs: &F,
    cache: Option<&SourceCache>,
    path: Seq<char>,
    style: NewlineStyle,
)
    requires
        style != NewlineStyle::Auto,
    ensures
        ({
            let id = FileNameV::Real(path);
            let bypass = spec_must_bypass_cache(style, id);
            &&& spec_resolve(fs, cache, id, bypass) == (match fs.content(path) {
                Ok(text) => Ok::<Seq<char>, EmitError>(text),
                Err(kind) => Err::<Seq<char>, EmitError>(EmitError::Io(kind)),
            })
            &&& spec_resolve_reads(fs, cache, id, bypass) == seq![path]
        }),
{
}

/// The virtual stream is satisfied from the cache alone: no filesystem read
/// ever happens for it, a cache hit returns the cached text, and a missing
/// capability or a miss is a contract violation, answered with
/// [`EmitError::InvalidTarget`] rather than with silently empty text.
pub proof fn lemma_resolve_stdin_cache_only<F: FileSystem>(
    fs: &F,
    cache: Option<&SourceCache>,
    bypass_cache: bool,
)
    ensures
        spec_resolve_reads(fs, cache, FileNameV::Stdin, bypass_cache) == Seq::<Seq<char>>::empty(),
        spec_resolve(fs, cache, FileNameV::Stdin, bypass_cache) == (match (if bypass_cache {
            None
        } else {
            spec_cache_hit(cache, spec_identity_key(FileNameV::Stdin))
        }) {
            Some(text) => Ok::<Seq<char>, EmitError>(text),
            None => Err::<Seq<char>, EmitError>(EmitError::InvalidTarget),
        }),
{
}

/// The text of a successfully resolved batch entry: the outcome of resolving
/// it with no cache capability.
pub open spec fn spec_entry_text<F: FileSystem>(
    fs: &F,
    style: NewlineStyle,
    entry: (FileName, String),
) -> Seq<char> {
    match spec_resolve(fs, None, entry.0@, spec_must_bypass_cache(style, entry.0@)) {
        Ok(text) => text,
        Err(e) => Seq::empty(),
    }
}

/// The sink event a successful batch records for one entry.
pub open spec fn spec_entry_event<F: FileSystem>(
    fs: &F,
    style: NewlineStyle,
    entry: (FileName, String),
) -> EmitEvent {
    spec_file_event(entry.0@, spec_entry_text(fs, style, entry), entry.1@)
}

/// The shape of a successful batch tail from entry `i` on: the prior events
/// are kept, each remaining entry resolves successfully and appends exactly
/// its file event, in input order, and a single footer event comes last.
pub proof fn lemma_batch_tail_shape<E: Emitter, F: FileSystem>(
    fs: &F,
    style: NewlineStyle,
    entries: Seq<(FileName, String)>,
    i: int,
    events: Seq<EmitEvent>,
    reads: Seq<Seq<char>>,
)
    requires
        0 <= i <= entries.len(),
        spec_batch::<E, F>(fs, style, entries, i, events, reads).2 is Ok,
    ensures
        ({
            let evs = spec_batch::<E, F>(fs, style, entries, i, events, reads).0;
            &&& evs.len() == events.len() + (entries.len() - i) + 1
            &&& forall|j: int| 0 <= j < events.len() ==> #[trigger] evs[j] == events[j]
            &&& forall|j: int|
                i <= j < entries.len() ==> spec_resolve(
                    fs,
                    None,
                    (#[trigger] entries[j]).0@,
                    spec_must_bypass_cache(style, entries[j].0@),
                ) is Ok && evs[events.len() + (j - i)] == spec_entry_event(fs, style, entries[j])
            &&& evs[evs.len() - 1] == EmitEvent::Footer
        }),
    decreases entries.len() - i,
{
    if i < entries.len() {
        let id = entries[i].0@;
        let bypass = spec_must_bypass_cache(style, id);
        let reads2 = reads + spec_resolve_reads(fs, None, id, bypass);
        match spec_resolve(fs, None, id, bypass) {
            Err(_) => {
                assert(false);
            },
            Ok(original) => {
                let ev = spec_file_event(id, original, entries[i].1@);
                match E::file_outcome(events, ev) {
                    Err(_) => {
                        assert(false);
                    },
                    Ok(_) => {
                        lemma_batch_tail_shape::<E, F>(
                            fs,
                            style,
                            entries,
                            i + 1,
                            events.push(ev),
                            reads2,
                        );
                        let evs = spec_batch::<E, F>(fs, style, entries, i, events, reads).0;
                        assert(evs[events.len() as int] == events.push(ev)[events.len() as int]);
                        assert(ev == spec_entry_event(fs, style, entries[i]));
                    },
                }
            },
        }
    }
}

/// An entry whose resolution fails stops the batch at once: its error is the
/// batch's result, no file event is recorded for it, no later entry is
/// attempted, and the footer is never called. The read the failing resolution
/// performed is the last one.
pub proof fn lemma_batch_resolver_failure_aborts<E: Emitter, F: FileSystem>(
    fs: &F,
    style: NewlineStyle,
    entries: Seq<(FileName, String)>,
    i: int,
    events: Seq<EmitEvent>,
    reads: Seq<Seq<char>>,
    e: EmitError,
)
    requires
        0 <= i < entries.len(),
        spec_resolve(fs, None, entries[i].0@, spec_must_bypass_cache(style, entries[i].0@))
            == Err::<Seq<char>, EmitError>(e),
    ensures
        spec_batch::<E, F>(fs, style, entries, i, events, reads) == (
            events,
            reads + spec_resolve_reads(
                fs,
                None,
                entries[i].0@,
                spec_must_bypass_cache(style, entries[i].0@),
            ),
            Err::<(), EmitError>(e),
        ),
{
}

/// An entry the sink refuses stops the batch at once: the sink's error is the
/// batch's result, the refused call is the last event recorded, no later
/// entry is attempted, and the footer is never called.
pub proof fn lemma_batch_sink_failure_aborts<E: Emitter, F: FileSystem>(
    fs: &F,
    style: NewlineStyle,
    entries: Seq<(FileName, String)>,
    i: int,
    events: Seq<EmitEvent>,
    reads: Seq<Seq<char>>,
    e: EmitError,
)
    requires
        0 <= i < entries.len(),
        spec_resolve(fs, None, entries[i].0@, spec_must_bypass_cache(style, entries[i].0@)) is Ok,
        E::file_outcome(events, spec_entry_event(fs, style, entries[i])) == Err::<
            EmitterResult,
            EmitError,
        >(e),
    ensures
        spec_batch::<E, F>(fs, style, entries, i, events, reads) == (
            events.push(spec_entry_event(fs, style, entries[i])),
            reads + spec_resolve_reads(
                fs,
                None,
                entries[i].0@,
                spec_must_bypass_cache(style, entries[i].0@),
            ),
            Err::<(), EmitError>(e),
        ),
{
}

/// Batch emission of `n` entries that ends successfully makes exactly one
/// header call, then `n` per-file calls in input order — each carrying the
/// entry's identity, its resolved original text and its formatted text — then
/// one footer call, and nothing else.
pub proof fn lemma_batch_calls<E: Emitter, F: FileSystem>(
    fs: &F,
    style: NewlineStyle,
    entries: Seq<(FileName, String)>,
    events0: Seq<EmitEvent>,
    reads0: Seq<Seq<char>>,
)
    requires
        spec_write_all::<E, F>(fs, style, entries, events0, reads0).2 is Ok,
    ensures
        ({
            let evs = spec_write_all::<E, F>(fs, style, entries, events0, reads0).0;
            &&& evs.len() == events0.len() + entries.len() + 2
            &&& forall|j: int| 0 <= j < events0.len() ==> #[trigger] evs[j] == events0[j]
            &&& evs[events0.len() as int] == EmitEvent::Header
            &&& forall|j: int|
                0 <= j < entries.len() ==> evs[events0.len() + 1 + j] == spec_entry_event(
                    fs,
                    style,
                    #[trigger] entries[j],
                )
            &&& evs[evs.len() - 1] == EmitEvent::Footer
        }),
{
    match E::header_outcome(events0) {
        Err(_) => {
            assert(false);
        },
        Ok(_) => {
            lemma_batch_tail_shape::<E, F>(
                fs,
                style,
                entries,
                0,
                events0.push(EmitEvent::Header),
                reads0,
            );
            let evs = spec_write_all::<E, F>(fs, style, entries, events0, reads0).0;
            assert(evs[events0.len() as int] == events0.push(EmitEvent::Header)[events0.len() as int]);
            assert(forall|j: int|
                0 <= j < entries.len() ==> evs[events0.len() + 1 + j] == spec_entry_event(
                    fs,
                    style,
                    #[trigger] entries[j],
                ));
        },
    }
}

} // verus!
