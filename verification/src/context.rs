//! Assembling text context from the files of a folder.
//!
//! The caller walks the folder and reads the files; this module says which
//! directories to pass over, which files are candidates, when to stop and
//! what the assembled text looks like.

use crate::text::{
    byte_prefix, floor_boundary, lowercase, same_text, text_ends_with, to_chars, unicode_lowercase,
};
use vstd::prelude::*;
use vstd::string::*;
use vstd::utf8::{decode_utf8, encode_utf8};

verus! {

/// The result of a scan.
#[derive(Clone, Debug)]
pub struct ScanResult {
    pub content: String,
}

/// Largest size of a single file, unless the caller says otherwise.
pub const DEFAULT_FILE_LIMIT: u64 = 256 * 1024;

/// Largest size of all files together, unless the caller says otherwise.
pub const DEFAULT_TOTAL_LIMIT: u64 = 1024 * 1024;

/// Largest number of files, unless the caller says otherwise.
pub const DEFAULT_MAX_FILES: usize = 200;

/// Whether a directory of this name holds build output, dependencies or
/// tool state rather than sources.
pub open spec fn skip_dir(name: Seq<char>) -> bool {
    ||| name == "node_modules"@
    ||| name == "dist"@
    ||| name == "build"@
    ||| name == "out"@
    ||| name == "target"@
    ||| name == ".git"@
    ||| name == ".next"@
    ||| name == ".turbo"@
    ||| name == "vendor"@
    ||| name == ".idea"@
    ||| name == ".vscode"@
}

/// Whether the walk passes over the directory called `name`.
pub fn is_skip_dir(name: &str) -> (skip: bool)
    ensures
        skip == skip_dir(name@),
{
    same_text(name, "node_modules") || same_text(name, "dist") || same_text(name, "build")
        || same_text(name, "out") || same_text(name, "target") || same_text(name, ".git")
        || same_text(name, ".next") || same_text(name, ".turbo") || same_text(name, "vendor")
        || same_text(name, ".idea") || same_text(name, ".vscode")
}

/// Whether files with this extension, given in lowercase, hold text:
/// documents and configuration first, then sources, then web, shell and
/// build files.
pub open spec fn text_ext(ext: Seq<char>) -> bool {
    ||| document_ext(ext)
    ||| source_ext(ext)
    ||| tooling_ext(ext)
}

/// Extensions of documents and configuration files.
pub open spec fn document_ext(ext: Seq<char>) -> bool {
    ||| ext == "txt"@
    ||| ext == "md"@
    ||| ext == "markdown"@
    ||| ext == "json"@
    ||| ext == "jsonc"@
    ||| ext == "yml"@
    ||| ext == "yaml"@
    ||| ext == "toml"@
    ||| ext == "ini"@
    ||| ext == "cfg"@
    ||| ext == "conf"@
}

/// Extensions of program sources.
pub open spec fn source_ext(ext: Seq<char>) -> bool {
    ||| ext == "js"@
    ||| ext == "ts"@
    ||| ext == "tsx"@
    ||| ext == "jsx"@
    ||| ext == "mjs"@
    ||| ext == "cjs"@
    ||| ext == "c"@
    ||| ext == "cc"@
    ||| ext == "cpp"@
    ||| ext == "h"@
    ||| ext == "hpp"@
    ||| ext == "hh"@
    ||| ext == "cs"@
    ||| ext == "java"@
    ||| ext == "kt"@
    ||| ext == "kts"@
    ||| ext == "go"@
    ||| ext == "rs"@
    ||| ext == "py"@
    ||| ext == "rb"@
    ||| ext == "php"@
    ||| ext == "swift"@
}

/// Extensions of database, web, shell and build files.
pub open spec fn tooling_ext(ext: Seq<char>) -> bool {
    ||| ext == "sql"@
    ||| ext == "html"@
    ||| ext == "xml"@
    ||| ext == "svg"@
    ||| ext == "css"@
    ||| ext == "scss"@
    ||| ext == "less"@
    ||| ext == "sh"@
    ||| ext == "bash"@
    ||| ext == "bat"@
    ||| ext == "ps1"@
    ||| ext == "gradle"@
    ||| ext == "properties"@
    ||| ext == "gitignore"@
    ||| ext == "gitattributes"@
    ||| ext == "env"@
    ||| ext == "dockerfile"@
    ||| ext == "makefile"@
    ||| ext == "cmake"@
}

fn is_document_ext(ext: &str) -> (r: bool)
    ensures
        r == document_ext(ext@),
{
    same_text(ext, "txt") || same_text(ext, "md") || same_text(ext, "markdown") || same_text(
        ext,
        "json",
    ) || same_text(ext, "jsonc") || same_text(ext, "yml") || same_text(ext, "yaml") || same_text(
        ext,
        "toml",
    ) || same_text(ext, "ini") || same_text(ext, "cfg") || same_text(ext, "conf")
}

fn is_source_ext(ext: &str) -> (r: bool)
    ensures
        r == source_ext(ext@),
{
    same_text(ext, "js") || same_text(ext, "ts") || same_text(ext, "tsx") || same_text(ext, "jsx")
        || same_text(ext, "mjs") || same_text(ext, "cjs") || same_text(ext, "c") || same_text(
        ext,
        "cc",
    ) || same_text(ext, "cpp") || same_text(ext, "h") || same_text(ext, "hpp") || same_text(
        ext,
        "hh",
    ) || same_text(ext, "cs") || same_text(ext, "java") || same_text(ext, "kt") || same_text(
        ext,
        "kts",
    ) || same_text(ext, "go") || same_text(ext, "rs") || same_text(ext, "py") || same_text(
        ext,
        "rb",
    ) || same_text(ext, "php") || same_text(ext, "swift")
}

fn is_tooling_ext(ext: &str) -> (r: bool)
    ensures
        r == tooling_ext(ext@),
{
    same_text(ext, "sql") || same_text(ext, "html") || same_text(ext, "xml") || same_text(
        ext,
        "svg",
    ) || same_text(ext, "css") || same_text(ext, "scss") || same_text(ext, "less") || same_text(
        ext,
        "sh",
    ) || same_text(ext, "bash") || same_text(ext, "bat") || same_text(ext, "ps1") || same_text(
        ext,
        "gradle",
    ) || same_text(ext, "properties") || same_text(ext, "gitignore") || same_text(
        ext,
        "gitattributes",
    ) || same_text(ext, "env") || same_text(ext, "dockerfile") || same_text(ext, "makefile")
        || same_text(ext, "cmake")
}

/// Whether files with the extension `ext`, given in lowercase, hold text.
pub fn is_text_ext(ext: &str) -> (text: bool)
    ensures
        text == text_ext(ext@),
{
    is_document_ext(ext) || is_source_ext(ext) || is_tooling_ext(ext)
}

/// Whether a file is a candidate for the context: one without an extension
/// always is, one with an extension when its lowercase form is a text
/// extension.
pub fn is_candidate(extension: Option<&str>) -> (candidate: bool)
    ensures
        candidate == match extension {
            Some(e) => text_ext(unicode_lowercase(e@)),
            None => true,
        },
{
    match extension {
        Some(e) => {
            let lower = lowercase(e);
            is_text_ext(lower.as_str())
        },
        None => true,
    }
}

/// `s` with every backslash turned into a forward slash.
pub open spec fn forward_slashes_of(s: Seq<char>) -> Seq<char> {
    Seq::new(
        s.len(),
        |i: int|
            if s[i] == '\\' {
                '/'
            } else {
                s[i]
            },
    )
}

/// Turns every backslash of `s` into a forward slash.
pub fn forward_slashes(s: &str) -> (r: String)
    ensures
        r@ == forward_slashes_of(s@),
{
    let v = to_chars(s);
    let mut r = String::new();
    let mut i: usize = 0;
    while i < v.len()
        invariant
            i <= v.len(),
            v@ == s@,
            r@ == forward_slashes_of(s@).take(i as int),
        decreases v.len() - i,
    {
        if v[i] == '\\' {
            r.push('/');
        } else {
            r.push(v[i]);
        }
        i = i + 1;
        assert(r@ =~= forward_slashes_of(s@).take(i as int));
    }
    assert(forward_slashes_of(s@).take(v.len() as int) =~= forward_slashes_of(s@));
    r
}

/// Calls `Path::strip_prefix` to take `root` off the front of `path`, keeps
/// `path` whole where `root` is not a prefix of it, and turns what is left
/// into text with `Path::to_string_lossy`. How a path divides into
/// components differs between platforms, so nothing is claimed of the result.
#[verifier::external_body]
fn strip_root(root: &str, path: &str) -> (r: String) {
    let whole = std::path::Path::new(path);
    whole.strip_prefix(std::path::Path::new(root)).unwrap_or(whole).to_string_lossy().into_owned()
}

/// The path of a file relative to the scanned folder, written with forward
/// slashes on every platform.
pub fn rel_path(root: &str, path: &str) -> (r: String)
    ensures
        forall|i: int| 0 <= i < r@.len() ==> r@[i] != '\\',
{
    let below = strip_root(root, path);
    forward_slashes(below.as_str())
}

/// The limits of a scan.
#[derive(Clone, Copy, Debug, PartialEq, Eq, Structural)]
pub struct ContextLimits {
    /// Files larger than this are passed over.
    pub file_limit: u64,
    /// The scan ends before the files taken together exceed this.
    pub total_limit: u64,
    /// The scan ends once this many files have been taken.
    pub max_files: usize,
}

impl ContextLimits {
    /// The limits that the caller gave, each with its default where the
    /// caller gave none.
    pub fn new(
        file_size_limit: Option<u64>,
        total_size_limit: Option<u64>,
        max_files: Option<usize>,
    ) -> (limits: ContextLimits)
        ensures
            limits.file_limit == match file_size_limit {
                Some(n) => n,
                None => DEFAULT_FILE_LIMIT,
            },
            limits.total_limit == match total_size_limit {
                Some(n) => n,
                None => DEFAULT_TOTAL_LIMIT,
            },
            limits.max_files == match max_files {
                Some(n) => n,
                None => DEFAULT_MAX_FILES,
            },
    {
        ContextLimits {
            file_limit: match file_size_limit {
                Some(n) => n,
                None => DEFAULT_FILE_LIMIT,
            },
            total_limit: match total_size_limit {
                Some(n) => n,
                None => DEFAULT_TOTAL_LIMIT,
            },
            max_files: match max_files {
                Some(n) => n,
                None => DEFAULT_MAX_FILES,
            },
        }
    }
}

/// What to do with the next candidate file.
#[derive(Clone, Copy, Debug, PartialEq, Eq, Structural)]
pub enum FileDecision {
    /// End the scan.
    Stop,
    /// Pass over the file.
    Skip,
    /// Read the file and add it.
    Read,
}

/// The decision for a file of `size` bytes, `None` standing for a file
/// whose size cannot be had, when `used` files with `total` bytes have been
/// taken already. The file count is looked at first, then the file's own
/// size, then the room that is left.
pub open spec fn decision_for(limits: ContextLimits, used: usize, total: u64, size: Option<u64>) -> FileDecision {
    if used >= limits.max_files {
        FileDecision::Stop
    } else {
        match size {
            None => FileDecision::Skip,
            Some(n) => if n > limits.file_limit {
                FileDecision::Skip
            } else if total + n > limits.total_limit {
                FileDecision::Stop
            } else {
                FileDecision::Read
            },
        }
    }
}

/// The body of a file's section: the whole text, closed by a line feed if
/// it has none, or, for a text longer than `file_limit` bytes, its beginning
/// up to the last whole character within the limit and a note that it was
/// trimmed.
pub open spec fn body_of(content: Seq<char>, file_limit: u64) -> Seq<char> {
    let bytes = encode_utf8(content);
    if bytes.len() > file_limit {
        decode_utf8(bytes.subrange(0, floor_boundary(bytes, file_limit as int)))
            + "\n... [trimmed]\n"@
    } else if "\n"@.is_suffix_of(content) {
        content
    } else {
        content + "\n"@
    }
}

/// The label of a section's code fence: the extension in lowercase, or
/// `text` for a file without one.
pub open spec fn fence_label(extension: Option<Seq<char>>) -> Seq<char> {
    match extension {
        Some(e) => unicode_lowercase(e),
        None => "text"@,
    }
}

/// The section of one file: its relative path in brackets, then its body in
/// a code fence.
pub open spec fn section_of(
    rel: Seq<char>,
    extension: Option<Seq<char>>,
    content: Seq<char>,
    file_limit: u64,
) -> Seq<char> {
    "["@ + rel + "]\n```"@ + fence_label(extension) + "\n"@ + body_of(content, file_limit)
        + "```\n\n"@
}

/// The heading that every context starts with.
pub open spec fn heading() -> Seq<char> {
    "### Context from folder\n\n"@
}

/// Assembles the context, one file at a time.
pub struct ContextBuilder {
    pub limits: ContextLimits,
    /// The text assembled so far.
    pub out: String,
    /// Bytes of the files taken so far.
    pub total: u64,
    /// Number of files taken so far.
    pub used: usize,
}

fn label_text(extension: Option<&str>) -> (label: String)
    ensures
        label@ == fence_label(
            match extension {
                Some(e) => Some(e@),
                None => None,
            },
        ),
{
    match extension {
        Some(e) => lowercase(e),
        None => String::from_str("text"),
    }
}

fn body_text(content: &str, file_limit: u64) -> (body: String)
    ensures
        body@ == body_of(content@, file_limit),
{
    let len = content.as_bytes().len();
    if len as u64 > file_limit {
        let mut body = byte_prefix(content, file_limit as usize);
        body.append("\n... [trimmed]\n");
        body
    } else {
        let mut body = String::from_str(content);
        if !text_ends_with(content, "\n") {
            body.append("\n");
        }
        body
    }
}

impl ContextBuilder {
    /// Starts a context that holds the heading and nothing else.
    pub fn new(limits: ContextLimits) -> (b: ContextBuilder)
        ensures
            b.limits == limits,
            b.out@ == heading(),
            b.total == 0,
            b.used == 0,
    {
        ContextBuilder {
            limits,
            out: String::from_str("### Context from folder\n\n"),
            total: 0,
            used: 0,
        }
    }

    /// Decides what to do with the next candidate, a file of `size` bytes.
    pub fn decide(&self, size: Option<u64>) -> (d: FileDecision)
        ensures
            d == decision_for(self.limits, self.used, self.total, size),
    {
        if self.used >= self.limits.max_files {
            return FileDecision::Stop;
        }
        match size {
            None => FileDecision::Skip,
            Some(n) => {
                if n > self.limits.file_limit {
                    FileDecision::Skip
                } else {
                    match self.total.checked_add(n) {
                        Some(sum) => {
                            if sum > self.limits.total_limit {
                                FileDecision::Stop
                            } else {
                                FileDecision::Read
                            }
                        },
                        None => FileDecision::Stop,
                    }
                }
            },
        }
    }

    /// Adds the section of a file that was read. `rel` is its relative path,
    /// `extension` its extension if it has one, `content` its text. The byte
    /// count stops at the largest 64-bit value and the file count at the
    /// largest index.
    pub fn add(&mut self, rel: &str, extension: Option<&str>, content: &str)
        ensures
            final(self).limits == old(self).limits,
            final(self).out@ == old(self).out@ + section_of(
                rel@,
                match extension {
                    Some(e) => Some(e@),
                    None => None,
                },
                content@,
                old(self).limits.file_limit,
            ),
            final(self).total == if old(self).total + encode_utf8(content@).len() > u64::MAX {
                u64::MAX
            } else {
                (old(self).total + encode_utf8(content@).len()) as u64
            },
            final(self).used == if old(self).used < usize::MAX {
                (old(self).used + 1) as usize
            } else {
                usize::MAX
            },
    {
        let len = content.as_bytes().len();
        assert(len == encode_utf8(content@).len());
        self.total = self.total.saturating_add(len as u64);
        if self.used < usize::MAX {
            self.used = self.used + 1;
        }
        let label = label_text(extension);
        let body = body_text(content, self.limits.file_limit);
        self.out.append("[");
        self.out.append(rel);
        self.out.append("]\n```");
        self.out.append(label.as_str());
        self.out.append("\n");
        self.out.append(body.as_str());
        self.out.append("```\n\n");
    }

    /// The assembled context.
    pub fn finish(self) -> (r: ScanResult)
        ensures
            r.content@ == self.out@,
    {
        ScanResult { content: self.out }
    }
}

/// Every decision respects the limits: a file is read only while the file
/// count is below its limit, the file is within the size limit and the
/// total stays within its limit.
pub proof fn decisions_respect_the_limits(
    limits: ContextLimits,
    used: usize,
    total: u64,
    size: Option<u64>,
)
    ensures
        decision_for(limits, used, total, size) == FileDecision::Read <==> (used < limits.max_files
            && size is Some && size->0 <= limits.file_limit && total + size->0
            <= limits.total_limit),
{
}

} // verus!
