//! The archive installer: which kind of artifact was downloaded, where it is
//! kept meanwhile, and what unpacking each entry of a zip archive means.
//!
//! Nothing here touches the file system. The caller hands in the bytes of
//! the downloaded archive and carries out the steps it gets back.

use crate::events::{ProgressModel, ProgressPayload};
use crate::text::{decimal, push_decimal, text_ends_with, text_of_range, to_chars};
use std::io::Read;
use vstd::prelude::*;
use vstd::string::*;

verus! {

/// The kind of artifact behind a URL, told by its ending.
#[derive(Clone, Copy, Debug, PartialEq, Eq, Structural)]
pub enum ArchiveFormat {
    /// A zip archive, unpacked entry by entry.
    Zip,
    /// A gzip-compressed tarball, unpacked in one pass.
    Tgz,
    /// A disk image, kept as it is.
    Dmg,
    /// Anything else, left where it was downloaded.
    Unknown,
}

/// The format that the ending of `url` stands for.
pub open spec fn format_of(url: Seq<char>) -> ArchiveFormat {
    if ".zip"@.is_suffix_of(url) {
        ArchiveFormat::Zip
    } else if ".tgz"@.is_suffix_of(url) || ".tar.gz"@.is_suffix_of(url) {
        ArchiveFormat::Tgz
    } else if ".dmg"@.is_suffix_of(url) {
        ArchiveFormat::Dmg
    } else {
        ArchiveFormat::Unknown
    }
}

/// Tells the format of the artifact behind `url`.
pub fn archive_format(url: &str) -> (format: ArchiveFormat)
    ensures
        format == format_of(url@),
{
    if text_ends_with(url, ".zip") {
        ArchiveFormat::Zip
    } else if text_ends_with(url, ".tgz") || text_ends_with(url, ".tar.gz") {
        ArchiveFormat::Tgz
    } else if text_ends_with(url, ".dmg") {
        ArchiveFormat::Dmg
    } else {
        ArchiveFormat::Unknown
    }
}

impl ArchiveFormat {
    /// The ending of the temp file of an artifact of this format.
    pub open spec fn extension_of(self) -> Seq<char> {
        match self {
            ArchiveFormat::Zip => ".zip"@,
            ArchiveFormat::Tgz => ".tgz"@,
            ArchiveFormat::Dmg => ".dmg"@,
            ArchiveFormat::Unknown => ".bin"@,
        }
    }

    /// The ending of the temp file of an artifact of this format.
    pub fn extension(self) -> (ext: &'static str)
        ensures
            ext@ == self.extension_of(),
    {
        match self {
            ArchiveFormat::Zip => ".zip",
            ArchiveFormat::Tgz => ".tgz",
            ArchiveFormat::Dmg => ".dmg",
            ArchiveFormat::Unknown => ".bin",
        }
    }

    /// The last progress report of a successful installation.
    pub open spec fn completion_of(self) -> ProgressModel {
        ProgressModel {
            progress: 100,
            message: match self {
                ArchiveFormat::Zip | ArchiveFormat::Tgz => "Extraction completed"@,
                ArchiveFormat::Dmg => "DMG file saved"@,
                ArchiveFormat::Unknown => "Download completed"@,
            },
        }
    }

    /// The report that closes a successful installation of an artifact of
    /// this format; it is the only one that carries 100 percent.
    pub fn completion(self) -> (p: ProgressPayload)
        ensures
            p@ == self.completion_of(),
            p.wf(),
    {
        match self {
            ArchiveFormat::Zip | ArchiveFormat::Tgz => ProgressPayload::new(
                100,
                "Extraction completed",
            ),
            ArchiveFormat::Dmg => ProgressPayload::new(100, "DMG file saved"),
            ArchiveFormat::Unknown => ProgressPayload::new(100, "Download completed"),
        }
    }
}

/// Name of the temp file of a download, relative to the data directory. It
/// depends on nothing but the engine, the variant and the format, so that a
/// later installation finds what an earlier one left behind.
pub open spec fn temp_name_of(server: Seq<char>, variant: Seq<char>, format: ArchiveFormat) -> Seq<
    char,
> {
    server + "_"@ + variant + "_temp"@ + format.extension_of()
}

/// Name of the temp file for the download of `server` in `variant`.
pub fn temp_file_name(server: &str, variant: &str, format: ArchiveFormat) -> (name: String)
    ensures
        name@ == temp_name_of(server@, variant@, format),
{
    let mut name = String::from_str(server);
    name.append("_");
    name.append(variant);
    name.append("_temp");
    name.append(format.extension());
    name
}

/// The install directory of an engine and variant, relative to the data
/// directory.
pub open spec fn runtime_dir_of(server: Seq<char>, variant: Seq<char>) -> Seq<char> {
    "runtime/"@ + server + "/"@ + variant + "/"@
}

/// The directory, relative to the data directory, that holds the files of
/// `server` in `variant` and nothing else.
pub fn runtime_dir(server: &str, variant: &str) -> (dir: String)
    ensures
        dir@ == runtime_dir_of(server@, variant@),
{
    let mut dir = String::from_str("runtime/");
    dir.append(server);
    dir.append("/");
    dir.append(variant);
    dir.append("/");
    dir
}

/// What follows the last `/` of `s`; all of `s` when it has none.
pub open spec fn last_segment(s: Seq<char>) -> Seq<char>
    decreases s.len(),
{
    if s.len() == 0 {
        s
    } else if s.last() == '/' {
        Seq::empty()
    } else {
        last_segment(s.drop_last()).push(s.last())
    }
}

proof fn last_segment_is_tail(s: Seq<char>, from: int)
    requires
        0 <= from <= s.len(),
        from == 0 || s[from - 1] == '/',
        forall|k: int| from <= k < s.len() ==> s[k] != '/',
    ensures
        last_segment(s) == s.skip(from),
    decreases s.len(),
{
    if s.len() == 0 {
        assert(s.skip(0) =~= s);
    } else if from == s.len() {
        assert(s.skip(from) =~= Seq::<char>::empty());
    } else {
        last_segment_is_tail(s.drop_last(), from);
        assert(s.drop_last().skip(from).push(s.last()) =~= s.skip(from));
    }
}

/// The file name under which an installer artifact is kept: the last path
/// segment of its URL.
pub fn installer_file_name(url: &str) -> (name: String)
    ensures
        name@ == last_segment(url@),
{
    let v = to_chars(url);
    let mut from: usize = v.len();
    while from > 0 && v[from - 1] != '/'
        invariant
            from <= v.len(),
            forall|k: int| from <= k < v.len() ==> v@[k] != '/',
        decreases from,
    {
        from = from - 1;
    }
    proof {
        last_segment_is_tail(v@, from as int);
        assert(v@.subrange(from as int, v.len() as int) =~= v@.skip(from as int));
    }
    text_of_range(&v, from, v.len())
}

/// The archive could not be read.
#[derive(Clone, Debug)]
pub struct ArchiveError {
    pub message: String,
}

/// The in-memory reader that the archive reads its bytes from.
#[verifier::external_type_specification]
#[verifier::external_body]
#[verifier::reject_recursive_types(T)]
pub struct ExCursor<T>(std::io::Cursor<T>);

/// An opened zip archive of the `zip` crate.
#[verifier::external_type_specification]
#[verifier::external_body]
#[verifier::reject_recursive_types(R)]
pub struct ExZipArchive<R>(zip::ZipArchive<R>);

/// What the `zip` crate finds in an archive held in `bytes`: its entries in
/// the order of the central directory, as `archive_entries` describes them,
/// or the text of its error where it finds no readable directory.
pub uninterp spec fn zip_listing(bytes: Seq<u8>) -> Result<
    Seq<Option<(Seq<char>, Result<Seq<u8>, Seq<char>>)>>,
    Seq<char>,
>;

/// The entries that an opened archive holds, in the order of its central
/// directory. An entry that the `zip` crate cannot open is `None`. Of every
/// other entry there is its name and what reading it to its end gives: its
/// bytes, or the text of the error where its data is damaged or fails its
/// checksum.
pub uninterp spec fn archive_entries(archive: zip::ZipArchive<std::io::Cursor<Vec<u8>>>) -> Seq<
    Option<(Seq<char>, Result<Seq<u8>, Seq<char>>)>,
>;

/// Calls `zip::ZipArchive::new` on a cursor over the bytes. Whether it
/// succeeds and what the archive holds depend on `bytes` alone; the contract
/// names the outcome and claims nothing else about it.
#[verifier::external_body]
fn open_archive(bytes: Vec<u8>) -> (r: Result<zip::ZipArchive<std::io::Cursor<Vec<u8>>>, String>)
    ensures
        match r {
            Ok(archive) => zip_listing(bytes@) == Ok::<
                Seq<Option<(Seq<char>, Result<Seq<u8>, Seq<char>>)>>,
                Seq<char>,
            >(archive_entries(archive)),
            Err(e) => zip_listing(bytes@) == Err::<
                Seq<Option<(Seq<char>, Result<Seq<u8>, Seq<char>>)>>,
                Seq<char>,
            >(e@),
        },
{
    match zip::ZipArchive::new(std::io::Cursor::new(bytes)) {
        Ok(archive) => Ok(archive),
        Err(e) => Err(e.to_string()),
    }
}

/// Calls `zip::ZipArchive::len`: the number of entries in the central
/// directory.
#[verifier::external_body]
fn archive_len(archive: &zip::ZipArchive<std::io::Cursor<Vec<u8>>>) -> (n: usize)
    ensures
        n == archive_entries(*archive).len(),
{
    archive.len()
}

/// Opens entry `index` with `zip::ZipArchive::by_index_decrypt` and an empty
/// password, takes `ZipFile::name` and reads the entry to its end. For an
/// entry that is not encrypted this is `by_index` without the `unwrap` that
/// `by_index` has. An encrypted entry cannot be opened, except that about
/// one legacy-encrypted entry in 256 passes the one-byte check of the empty
/// password; its data then fails the checksum and comes back as an error.
/// Opening seeks to the entry each time, so reading one entry changes
/// nothing of what the archive holds. An index beyond the directory opens
/// nothing.
#[verifier::external_body]
fn read_archive_entry(
    archive: &mut zip::ZipArchive<std::io::Cursor<Vec<u8>>>,
    index: usize,
) -> (r: Option<(String, Result<Vec<u8>, String>)>)
    ensures
        archive_entries(*final(archive)) == archive_entries(*old(archive)),
        index < archive_entries(*old(archive)).len() ==> entry_view(r) == archive_entries(
            *old(archive),
        )[index as int],
        index >= archive_entries(*old(archive)).len() ==> r is None,
{
    let mut entry = archive.by_index_decrypt(index, &[]).ok()?.ok()?;
    let name = entry.name().to_string();
    let mut data = Vec::new();
    match entry.read_to_end(&mut data) {
        Ok(_) => Some((name, Ok(data))),
        Err(e) => Some((name, Err(e.to_string()))),
    }
}

/// The mathematical form of what was read of an entry.
pub open spec fn entry_view(entry: Option<(String, Result<Vec<u8>, String>)>) -> Option<
    (Seq<char>, Result<Seq<u8>, Seq<char>>),
> {
    match entry {
        Some((name, Ok(data))) => Some((name@, Ok(data@))),
        Some((name, Err(e))) => Some((name@, Err(e@))),
        None => None,
    }
}

/// Position of entry `index` of `total` on the progress scale: extraction
/// fills the second half, in proportion to the entries already passed.
pub open spec fn unpack_percent_of(index: nat, total: nat) -> u32 {
    if index < total {
        (50 + (index * 50) / total) as u32
    } else {
        100
    }
}

/// The percentage to report after entry `index` of `total`.
pub fn unpack_percent(index: usize, total: usize) -> (percent: u32)
    ensures
        percent == unpack_percent_of(index as nat, total as nat),
        50 <= percent <= 100,
{
    if index < total {
        let scaled: u128 = (index as u128) * 50;
        let q: u128 = scaled / (total as u128);
        assert(q < 50) by (nonlinear_arith)
            requires
                q == (index * 50) / (total as int),
                0 <= index < total,
        ;
        50 + (q as u32)
    } else {
        100
    }
}

/// Later entries never report less than earlier ones, and no report leaves
/// the second half of the scale.
pub proof fn unpack_percent_is_monotonic(earlier: nat, later: nat, total: nat)
    requires
        earlier <= later,
    ensures
        50 <= unpack_percent_of(earlier, total) <= unpack_percent_of(later, total) <= 100,
{
    if later < total {
        assert(0 <= (earlier * 50) / total <= (later * 50) / total < 50) by (nonlinear_arith)
            requires
                0 <= earlier <= later < total,
        ;
    } else if earlier < total {
        assert(0 <= (earlier * 50) / total < 50) by (nonlinear_arith)
            requires
                0 <= earlier < total,
        ;
    }
}

/// Before an installation is complete no report reaches 100 percent: the
/// download stays in the first half and every entry of an archive below the
/// end of the second.
pub proof fn only_completion_reaches_one_hundred(done: u64, size: u64, index: nat, total: nat)
    requires
        index < total,
    ensures
        crate::transfer::download_percent_of(done, size) <= 50,
        unpack_percent_of(index, total) < 100,
{
    crate::transfer::download_percent_is_monotonic(done, done, size);
    assert((index * 50) / total < 50) by (nonlinear_arith)
        requires
            0 <= index < total,
    ;
}

/// What to do with one entry of a zip archive.
#[derive(Clone, Debug)]
pub enum EntryAction {
    /// The entry cannot be opened; it is passed over.
    Skip,
    /// Create the directory `path`, with its parents, below the target.
    CreateDir { path: String },
    /// Write `data` to the file `path` below the target, creating its parent
    /// directories.
    WriteFile { path: String, data: Vec<u8> },
}

/// What to do with one entry, and the report that follows it.
#[derive(Clone, Debug)]
pub struct EntryPlan {
    pub action: EntryAction,
    /// The report to emit once the action is done; only files are reported.
    pub progress: Option<ProgressPayload>,
}

/// Mathematical form of an [`EntryAction`].
pub enum EntryActionModel {
    Skip,
    CreateDir { path: Seq<char> },
    WriteFile { path: Seq<char>, data: Seq<u8> },
}

/// Mathematical form of an [`EntryPlan`].
pub struct EntryPlanModel {
    pub action: EntryActionModel,
    pub progress: Option<ProgressModel>,
}

impl View for EntryAction {
    type V = EntryActionModel;

    open spec fn view(&self) -> EntryActionModel {
        match *self {
            EntryAction::Skip => EntryActionModel::Skip,
            EntryAction::CreateDir { path } => EntryActionModel::CreateDir { path: path@ },
            EntryAction::WriteFile { path, data } => EntryActionModel::WriteFile {
                path: path@,
                data: data@,
            },
        }
    }
}

impl View for EntryPlan {
    type V = EntryPlanModel;

    open spec fn view(&self) -> EntryPlanModel {
        EntryPlanModel {
            action: self.action@,
            progress: match self.progress {
                Some(p) => Some(p@),
                None => None,
            },
        }
    }
}

/// The message of the report that follows entry `index` of `total`.
pub open spec fn unpack_text(index: nat, total: nat) -> Seq<char> {
    "Unpacking "@ + decimal(index + 1) + "/"@ + decimal(total)
}

/// The plan for entry `index` of `total`: an entry that cannot be opened is
/// passed over, a name that ends in `/` is a directory to create, and every
/// other entry is a file that is written under its own relative path with
/// exactly the bytes read from the archive, followed by a progress report.
/// A file whose data cannot be read to its end makes the archive corrupt:
/// there is no plan then, only the text of the error.
pub open spec fn entry_plan_of(
    entry: Option<(Seq<char>, Result<Seq<u8>, Seq<char>>)>,
    index: nat,
    total: nat,
) -> Result<EntryPlanModel, Seq<char>> {
    match entry {
        None => Ok(EntryPlanModel { action: EntryActionModel::Skip, progress: None }),
        Some((name, outcome)) => if "/"@.is_suffix_of(name) {
            Ok(EntryPlanModel { action: EntryActionModel::CreateDir { path: name }, progress: None })
        } else {
            match outcome {
                Ok(data) => Ok(
                    EntryPlanModel {
                        action: EntryActionModel::WriteFile { path: name, data },
                        progress: Some(
                            ProgressModel {
                                progress: unpack_percent_of(index, total),
                                message: unpack_text(index, total),
                            },
                        ),
                    },
                ),
                Err(text) => Err("ZIP error: "@ + text),
            }
        },
    }
}

/// Whether `r` is the plan, or the error, that `planned` calls for.
pub open spec fn plan_result_is(
    r: Result<EntryPlan, ArchiveError>,
    planned: Result<EntryPlanModel, Seq<char>>,
) -> bool {
    match r {
        Ok(plan) => planned == Ok::<EntryPlanModel, Seq<char>>(plan@),
        Err(e) => planned == Err::<EntryPlanModel, Seq<char>>(e.message@),
    }
}

/// Plans the unpacking of one entry from what was read of it.
pub fn plan_entry(
    entry: Option<(String, Result<Vec<u8>, String>)>,
    index: usize,
    total: usize,
) -> (r: Result<EntryPlan, ArchiveError>)
    requires
        index < usize::MAX,
    ensures
        plan_result_is(r, entry_plan_of(entry_view(entry), index as nat, total as nat)),
{
    match entry {
        None => Ok(EntryPlan { action: EntryAction::Skip, progress: None }),
        Some((name, outcome)) => {
            if text_ends_with(name.as_str(), "/") {
                Ok(EntryPlan { action: EntryAction::CreateDir { path: name }, progress: None })
            } else {
                match outcome {
                    Ok(data) => {
                        let mut message = String::from_str("Unpacking ");
                        push_decimal(&mut message, (index + 1) as u64);
                        message.append("/");
                        push_decimal(&mut message, total as u64);
                        Ok(
                            EntryPlan {
                                action: EntryAction::WriteFile { path: name, data },
                                progress: Some(
                                    ProgressPayload {
                                        progress: unpack_percent(index, total),
                                        message,
                                    },
                                ),
                            },
                        )
                    },
                    Err(text) => {
                        let mut message = String::from_str("ZIP error: ");
                        message.append(text.as_str());
                        Err(ArchiveError { message })
                    },
                }
            }
        },
    }
}

/// Walks the entries of one zip archive in order. The archive is opened
/// once and kept.
#[derive(Debug)]
pub struct ZipUnpacker {
    /// The opened archive.
    pub archive: zip::ZipArchive<std::io::Cursor<Vec<u8>>>,
    /// Number of entries in the archive.
    pub total: usize,
    /// Index of the entry to unpack next.
    pub next: usize,
}

impl ZipUnpacker {
    /// The entries of the archive.
    pub open spec fn entries(&self) -> Seq<Option<(Seq<char>, Result<Seq<u8>, Seq<char>>)>> {
        archive_entries(self.archive)
    }

    /// The count is that of the archive, and no entry beyond the last has
    /// been passed.
    pub open spec fn wf(&self) -> bool {
        self.total == self.entries().len() && self.next <= self.total
    }

    /// Opens the archive held in `bytes` and stands before its first entry.
    /// Bytes that hold no readable archive give the error that the install
    /// fails with.
    pub fn begin(bytes: Vec<u8>) -> (r: Result<ZipUnpacker, ArchiveError>)
        ensures
            match r {
                Ok(u) => u.wf() && u.next == 0 && zip_listing(bytes@) == Ok::<
                    Seq<Option<(Seq<char>, Result<Seq<u8>, Seq<char>>)>>,
                    Seq<char>,
                >(u.entries()),
                Err(e) => zip_listing(bytes@) matches Err(text) && e.message@ == "ZIP error: "@
                    + text,
            },
    {
        match open_archive(bytes) {
            Ok(archive) => {
                let total = archive_len(&archive);
                Ok(ZipUnpacker { archive, total, next: 0 })
            },
            Err(text) => {
                let mut message = String::from_str("ZIP error: ");
                message.append(text.as_str());
                Err(ArchiveError { message })
            },
        }
    }

    /// Plans the next entry and moves past it. `Ok(None)` once every entry
    /// has been passed; an entry whose data is damaged gives the error that
    /// the install fails with. In both cases the walker stays where it is.
    pub fn advance(&mut self) -> (r: Result<Option<EntryPlan>, ArchiveError>)
        requires
            old(self).wf(),
        ensures
            final(self).wf(),
            final(self).total == old(self).total,
            final(self).entries() == old(self).entries(),
            match r {
                Ok(Some(plan)) => old(self).next < old(self).total && final(self).next == old(
                    self,
                ).next + 1 && entry_plan_of(
                    old(self).entries()[old(self).next as int],
                    old(self).next as nat,
                    old(self).total as nat,
                ) == Ok::<EntryPlanModel, Seq<char>>(plan@),
                Ok(None) => old(self).next == old(self).total && final(self).next == old(
                    self,
                ).next,
                Err(e) => old(self).next < old(self).total && final(self).next == old(self).next
                    && entry_plan_of(
                    old(self).entries()[old(self).next as int],
                    old(self).next as nat,
                    old(self).total as nat,
                ) == Err::<EntryPlanModel, Seq<char>>(e.message@),
            },
    {
        if self.next < self.total {
            let entry = read_archive_entry(&mut self.archive, self.next);
            match plan_entry(entry, self.next, self.total) {
                Ok(plan) => {
                    self.next = self.next + 1;
                    Ok(Some(plan))
                },
                Err(e) => Err(e),
            }
        } else {
            Ok(None)
        }
    }
}

} // verus!
