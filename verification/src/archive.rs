//! Decoding of the transcoder release archives.  The release comes either as
//! an xz-compressed tar stream or as a single-volume 7z archive; the decoder
//! turns the raw bytes into a list of named entries, and verified code then
//! selects the one entry whose name marks it as the transcoder executable —
//! the last such entry, since later occurrences overwrite earlier ones.

use vstd::prelude::*;

use crate::provision::ProvisionError;
use crate::text::{has_substring, str_has_substring};

verus! {

/// Which decoder a release archive needs.
#[derive(Clone, Copy, Debug, PartialEq, Eq, Structural)]
pub enum ArchiveKind {
    TarXz,
    SevenZ,
}

/// One archive entry, reduced to plain values: its path inside the archive
/// and its raw content.
#[derive(Debug)]
pub struct ArchiveEntry {
    pub name: String,
    pub data: Vec<u8>,
}

/// The plain-value shape of a decoded entry list.
pub open spec fn entries_view(v: Seq<ArchiveEntry>) -> Seq<(Seq<char>, Seq<u8>)> {
    v.map_values(|e: ArchiveEntry| (e.name@, e.data@))
}

/// What decoding an xz-compressed tar stream yields: the entries in archive
/// order as (path, content) pairs, or nothing if the bytes do not decode.  A
/// function of the bytes alone.
pub uninterp spec fn tar_xz_archive_entries(b: Seq<u8>) -> Option<Seq<(Seq<char>, Seq<u8>)>>;

/// What decoding a single-volume 7z archive yields, in the same shape.  A
/// function of the bytes alone.
pub uninterp spec fn sevenz_archive_entries(b: Seq<u8>) -> Option<Seq<(Seq<char>, Seq<u8>)>>;

/// The decoded entry list of `b` under the given decoder.
pub open spec fn spec_archive_entries(kind: ArchiveKind, b: Seq<u8>) -> Option<
    Seq<(Seq<char>, Seq<u8>)>,
> {
    match kind {
        ArchiveKind::TarXz => tar_xz_archive_entries(b),
        ArchiveKind::SevenZ => sevenz_archive_entries(b),
    }
}

/// Relies on xz2::read::XzDecoder and tar::Archive: decodes the bytes as an
/// xz-compressed tar stream and hands each entry out as its path and its
/// content, in archive order; `None` on any decode fault.
#[verifier::external_body]
fn tar_xz_entry_list(archive: &[u8]) -> (r: Option<Vec<ArchiveEntry>>)
    ensures
        match r {
            Some(v) => tar_xz_archive_entries(archive@) == Some(entries_view(v@)),
            None => tar_xz_archive_entries(archive@) is None,
        },
{
    let mut out = Vec::new();
    let mut ar = tar::Archive::new(xz2::read::XzDecoder::new(archive));
    for entry in ar.entries().ok()? {
        let mut entry = entry.ok()?;
        let name = entry.path().ok()?.to_string_lossy().into_owned();
        let mut data = Vec::new();
        std::io::Read::read_to_end(&mut entry, &mut data).ok()?;
        out.push(ArchiveEntry { name, data });
    }
    Some(out)
}

/// Relies on sevenz_rust::SevenZReader: decodes the bytes as a single-volume
/// 7z archive and hands each entry out as its name and its content, in
/// archive order; `None` on any decode fault.
#[verifier::external_body]
fn sevenz_entry_list(archive: &[u8]) -> (r: Option<Vec<ArchiveEntry>>)
    ensures
        match r {
            Some(v) => sevenz_archive_entries(archive@) == Some(entries_view(v@)),
            None => sevenz_archive_entries(archive@) is None,
        },
{
    let cursor = std::io::Cursor::new(archive);
    let mut rd = sevenz_rust::SevenZReader::new(
        cursor,
        archive.len() as u64,
        sevenz_rust::Password::empty(),
    ).ok()?;
    let mut out = Vec::new();
    let res = rd.for_each_entries(|entry, reader| {
        let mut data = Vec::new();
        std::io::Read::read_to_end(reader, &mut data)?;
        out.push(ArchiveEntry { name: entry.name().to_string(), data });
        Ok(true)
    });
    res.ok().map(|_| out)
}

/// The position of the last entry whose name contains `needle`, if any.
pub open spec fn spec_find_last_matching(
    entries: Seq<(Seq<char>, Seq<u8>)>,
    needle: Seq<char>,
) -> Option<int>
    decreases entries.len(),
{
    if entries.len() == 0 {
        None
    } else if has_substring(entries.last().0, needle) {
        Some(entries.len() - 1)
    } else {
        spec_find_last_matching(entries.drop_last(), needle)
    }
}

/// The content of the selected transcoder entry: that of the last entry
/// whose name contains `needle`, or nothing if no name matches.
pub open spec fn spec_extract(entries: Seq<(Seq<char>, Seq<u8>)>, needle: Seq<char>) -> Option<
    Seq<u8>,
> {
    match spec_find_last_matching(entries, needle) {
        Some(i) => Some(entries[i].1),
        None => None,
    }
}

/// The position of the last entry whose name contains `needle`.
pub fn select_transcoder_entry(entries: &Vec<ArchiveEntry>, needle: &str) -> (r: Option<usize>)
    ensures
        match r {
            Some(i) => i < entries@.len() && spec_find_last_matching(
                entries_view(entries@),
                needle@,
            ) == Some(i as int),
            None => spec_find_last_matching(entries_view(entries@), needle@) is None,
        },
{
    let ghost all = entries_view(entries@);
    let mut i: usize = entries.len();
    proof {
        assert(all.take(i as int) =~= all);
    }
    while i > 0
        invariant
            i <= entries@.len(),
            all == entries_view(entries@),
            all.len() == entries@.len(),
            spec_find_last_matching(all, needle@) == spec_find_last_matching(
                all.take(i as int),
                needle@,
            ),
        decreases i,
    {
        i -= 1;
        assert(all.take(i + 1).last() == all[i as int]);
        assert(all.take(i + 1).drop_last() =~= all.take(i as int));
        if str_has_substring(entries[i].name.as_str(), needle) {
            assert(all[i as int].0 == entries@[i as int].name@);
            return Some(i);
        }
        assert(all[i as int].0 == entries@[i as int].name@);
    }
    assert(all.take(0) =~= Seq::<(Seq<char>, Seq<u8>)>::empty());
    None
}

/// Decodes a release archive and returns the content of the transcoder
/// entry: the last entry whose name contains `needle`.  Fails with
/// `ArchiveDecodeFailure` when the bytes do not decode and with
/// `MissingArchiveEntry` when no entry name matches.
pub fn extract_transcoder(archive: &[u8], kind: ArchiveKind, needle: &str) -> (r: Result<
    Vec<u8>,
    ProvisionError,
>)
    ensures
        ({
            let m = spec_archive_entries(kind, archive@);
            match r {
                Ok(d) => m is Some && spec_extract(m->0, needle@) == Some(d@),
                Err(e) => (m is None && e == ProvisionError::ArchiveDecodeFailure) || (m is Some
                    && spec_extract(m->0, needle@) is None
                    && e == ProvisionError::MissingArchiveEntry),
            }
        }),
{
    let entries_opt = match kind {
        ArchiveKind::TarXz => tar_xz_entry_list(archive),
        ArchiveKind::SevenZ => sevenz_entry_list(archive),
    };
    let mut entries = match entries_opt {
        Some(v) => v,
        None => {
            return Err(ProvisionError::ArchiveDecodeFailure);
        },
    };
    match select_transcoder_entry(&entries, needle) {
        Some(i) => {
            let ghost all = entries_view(entries@);
            let picked = entries.remove(i);
            assert(all[i as int].1 == picked.data@);
            Ok(picked.data)
        },
        None => Err(ProvisionError::MissingArchiveEntry),
    }
}

} // verus!
