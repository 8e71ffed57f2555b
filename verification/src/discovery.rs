//! Where algorithm libraries are looked for. The host lists directories; the
//! rules here pick the library out of what it found.

use crate::text::same_text;
use vstd::prelude::*;

verus! {

/// The family of platform, which decides the extension of a dynamic library.
#[derive(Clone, Copy, Debug, PartialEq, Eq, Structural)]
pub enum Platform {
    Windows,
    /// Linux and macOS.
    Unix,
}

impl Platform {
    /// The extension of a dynamic library on this platform, without the dot.
    pub open spec fn extension_text(self) -> Seq<char> {
        match self {
            Platform::Windows => "dll"@,
            Platform::Unix => "so"@,
        }
    }

    /// The extension of a dynamic library on this platform, without the dot.
    pub fn library_extension(&self) -> (extension: &'static str)
        ensures
            extension@ == self.extension_text(),
    {
        match self {
            Platform::Windows => "dll",
            Platform::Unix => "so",
        }
    }
}

/// What kind of thing a directory entry is.
#[derive(Clone, Copy, Debug, PartialEq, Eq, Structural)]
pub enum EntryKind {
    File,
    Directory,
    /// Neither a file nor a directory.
    Other,
}

/// One entry of a directory as the host read it: its path, the extension of
/// its file name if it has one, and its kind.
#[derive(Clone, Debug)]
pub struct DirEntry {
    pub path: String,
    pub extension: Option<String>,
    pub kind: EntryKind,
}

impl DirEntry {
    /// The entry is a file with the platform's library extension.
    pub open spec fn is_library(&self, platform: Platform) -> bool {
        &&& self.kind is File
        &&& self.extension matches Some(extension)
        &&& extension@ == platform.extension_text()
    }

    /// Decides [`DirEntry::is_library`].
    pub fn is_dynamic_library(&self, platform: Platform) -> (library: bool)
        ensures
            library == self.is_library(platform),
    {
        match self.kind {
            EntryKind::File => match &self.extension {
                Some(extension) => same_text(extension.as_str(), platform.library_extension()),
                None => false,
            },
            _ => false,
        }
    }
}

/// `index` is the first place in `entries` that holds a library.
pub open spec fn first_library_at(entries: Seq<DirEntry>, platform: Platform, index: int) -> bool {
    &&& 0 <= index < entries.len()
    &&& entries[index].is_library(platform)
    &&& forall|k: int| 0 <= k < index ==> !entries[k].is_library(platform)
}

/// No entry of `entries` is a library.
pub open spec fn no_library_in(entries: Seq<DirEntry>, platform: Platform) -> bool {
    forall|k: int| 0 <= k < entries.len() ==> !entries[k].is_library(platform)
}

/// `found` is the path of the first library in `entries`, or nothing where
/// there is none.
pub open spec fn first_library_is(
    entries: Seq<DirEntry>,
    platform: Platform,
    found: Option<Seq<char>>,
) -> bool {
    match found {
        Some(path) => exists|index: int|
            first_library_at(entries, platform, index) && path == (#[trigger] entries[index]).path@,
        None => no_library_in(entries, platform),
    }
}

/// The path of the first dynamic library among the entries of a directory.
/// A directory that could not be read has no entries.
pub fn find_dynamic_library_in_dir<'a>(entries: &'a [DirEntry], platform: Platform) -> (found:
    Option<&'a str>)
    ensures
        first_library_is(
            entries@,
            platform,
            match found {
                Some(path) => Some(path@),
                None => None,
            },
        ),
{
    let mut index: usize = 0;
    while index < entries.len()
        invariant
            index <= entries@.len(),
            forall|k: int| 0 <= k < index ==> !entries@[k].is_library(platform),
        decreases entries@.len() - index,
    {
        if entries[index].is_dynamic_library(platform) {
            assert(first_library_at(entries@, platform, index as int));
            return Some(entries[index].path.as_str());
        }
        index += 1;
    }
    None
}

/// The library that a crate directory has built: the first under its
/// `target/release`, else the first under its `target/debug`. What is not a
/// directory has none.
pub open spec fn crate_library_is(
    is_dir: bool,
    release: Seq<DirEntry>,
    debug: Seq<DirEntry>,
    platform: Platform,
    found: Option<Seq<char>>,
) -> bool {
    if !is_dir {
        found is None
    } else if !no_library_in(release, platform) {
        found is Some && first_library_is(release, platform, found)
    } else {
        first_library_is(debug, platform, found)
    }
}

/// Looks for a dynamic library in a crate directory: first among the entries
/// of its release folder, then among those of its debug folder.
pub fn find_dynamic_library_in_crate<'a>(
    is_dir: bool,
    release: &'a [DirEntry],
    debug: &'a [DirEntry],
    platform: Platform,
) -> (found: Option<&'a str>)
    ensures
        crate_library_is(
            is_dir,
            release@,
            debug@,
            platform,
            match found {
                Some(path) => Some(path@),
                None => None,
            },
        ),
{
    if is_dir {
        if let Some(library) = find_dynamic_library_in_dir(release, platform) {
            return Some(library);
        }
        if let Some(library) = find_dynamic_library_in_dir(debug, platform) {
            return Some(library);
        }
    }
    None
}

/// What the search makes of one entry of the root directory.
#[derive(Clone, Copy, Debug, PartialEq, Eq)]
pub enum Discovery<'a> {
    /// Load the library at this path.
    Library(&'a str),
    /// A directory without a library: skipped, with a warning.
    EmptyDirectory,
    /// Not a library and not a directory: skipped, with a warning.
    NotAnAlgorithm,
}

/// The rule for one entry of the root directory. A library file is taken as it
/// is. For a directory the first library directly inside it is taken, else the
/// first in its release folder, else the first in its debug folder. Anything
/// else is skipped.
pub open spec fn discovery_is(
    entry: DirEntry,
    inside: Seq<DirEntry>,
    release: Seq<DirEntry>,
    debug: Seq<DirEntry>,
    platform: Platform,
    found: Discovery<'_>,
) -> bool {
    match entry.kind {
        EntryKind::File => if entry.is_library(platform) {
            found matches Discovery::Library(path) && path@ == entry.path@
        } else {
            found is NotAnAlgorithm
        },
        EntryKind::Directory => if !no_library_in(inside, platform) {
            found matches Discovery::Library(path) && first_library_is(
                inside,
                platform,
                Some(path@),
            )
        } else if !no_library_in(release, platform) {
            found matches Discovery::Library(path) && first_library_is(
                release,
                platform,
                Some(path@),
            )
        } else if !no_library_in(debug, platform) {
            found matches Discovery::Library(path) && first_library_is(debug, platform, Some(path@))
        } else {
            found is EmptyDirectory
        },
        EntryKind::Other => found is NotAnAlgorithm,
    }
}

/// Applies the search rule to one entry of the root directory, given the
/// entries of the directory itself and of its release and debug folders.
pub fn select_library<'a>(
    entry: &'a DirEntry,
    inside: &'a [DirEntry],
    release: &'a [DirEntry],
    debug: &'a [DirEntry],
    platform: Platform,
) -> (found: Discovery<'a>)
    ensures
        discovery_is(*entry, inside@, release@, debug@, platform, found),
{
    match entry.kind {
        EntryKind::File => {
            if entry.is_dynamic_library(platform) {
                Discovery::Library(entry.path.as_str())
            } else {
                Discovery::NotAnAlgorithm
            }
        },
        EntryKind::Directory => {
            if let Some(library) = find_dynamic_library_in_dir(inside, platform) {
                return Discovery::Library(library);
            }
            if let Some(library) = find_dynamic_library_in_crate(true, release, debug, platform) {
                return Discovery::Library(library);
            }
            Discovery::EmptyDirectory
        },
        EntryKind::Other => Discovery::NotAnAlgorithm,
    }
}

} // verus!
