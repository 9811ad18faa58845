use vstd::prelude::*;
use vstd::string::*;

use vstd::utf8::*;

use crate::error::{NDIError, NDIResult};
use crate::marshal::{string_from_c_bytes, text_of_c_bytes};

verus! {

/// The operating-system families that the native SDK ships for, and the rest.
#[derive(Clone, Copy, Debug, PartialEq, Eq, Structural)]
pub enum Os {
    MacOs,
    OtherUnix,
    Windows,
    Other,
}

/// What library selection needs to know of the target.
#[derive(Clone, Copy, Debug, PartialEq, Eq, Structural)]
pub struct Platform {
    pub os: Os,
    pub pointer_width: u32,
}

/// The shared-library file that the SDK ships for the platform, if it ships one.
pub open spec fn library_name_spec(p: Platform) -> Option<Seq<char>> {
    match p.os {
        Os::MacOs => Some("libndi.dylib"@),
        Os::OtherUnix => Some("libndi.so.6"@),
        Os::Windows => if p.pointer_width == 64 {
            Some("Processing.NDI.Lib.x64.dll"@)
        } else if p.pointer_width == 32 {
            Some("Processing.NDI.Lib.x86.dll"@)
        } else {
            None
        },
        Os::Other => None,
    }
}

/// Selects the library file for the platform; `None` for a platform that the
/// SDK does not ship for, which the loader must refuse rather than guess.
pub fn library_file_name(p: Platform) -> (r: Option<&'static str>)
    ensures
        r is Some <==> library_name_spec(p) is Some,
        r is Some ==> r->Some_0@ == library_name_spec(p)->Some_0,
        r is Some ==> {
            ||| r->Some_0@ == "libndi.dylib"@
            ||| r->Some_0@ == "libndi.so.6"@
            ||| r->Some_0@ == "Processing.NDI.Lib.x64.dll"@
            ||| r->Some_0@ == "Processing.NDI.Lib.x86.dll"@
        },
{
    match p.os {
        Os::MacOs => Some("libndi.dylib"),
        Os::OtherUnix => Some("libndi.so.6"),
        Os::Windows => {
            if p.pointer_width == 64 {
                Some("Processing.NDI.Lib.x64.dll")
            } else if p.pointer_width == 32 {
                Some("Processing.NDI.Lib.x86.dll")
            } else {
                None
            }
        },
        Os::Other => None,
    }
}

/// A directory in which to look for the library file: `base`, joined with
/// `subdir` where there is one.
#[derive(Clone, Debug)]
pub struct SearchDir {
    pub base: String,
    pub subdir: Option<&'static str>,
}

impl View for SearchDir {
    type V = (Seq<char>, Option<Seq<char>>);

    open spec fn view(&self) -> (Seq<char>, Option<Seq<char>>) {
        (
            self.base@,
            match self.subdir {
                Some(d) => Some(d@),
                None => None,
            },
        )
    }
}

/// The runtime directory, where one is configured.
pub open spec fn runtime_dirs(runtime_dir: Option<Seq<char>>, p: Platform) -> Seq<
    (Seq<char>, Option<Seq<char>>),
> {
    match runtime_dir {
        Some(d) => if p.os is Windows {
            seq![(d, Some("lib"@))]
        } else {
            seq![(d, None)]
        },
        None => seq![],
    }
}

/// The platform's conventional system library directories.
pub open spec fn system_dirs(p: Platform) -> Seq<(Seq<char>, Option<Seq<char>>)> {
    if p.os is OtherUnix {
        seq![("/usr/local/lib"@, None), ("/usr/lib"@, None)]
    } else if p.os is MacOs {
        seq![("/usr/local/lib"@, None)]
    } else {
        seq![]
    }
}

/// The directories searched for the library file, in order: the runtime
/// directory first, then the system directories.
pub open spec fn search_dirs_spec(runtime_dir: Option<Seq<char>>, p: Platform) -> Seq<
    (Seq<char>, Option<Seq<char>>),
> {
    runtime_dirs(runtime_dir, p) + system_dirs(p)
}

pub open spec fn opt_view(o: Option<String>) -> Option<Seq<char>> {
    match o {
        Some(d) => Some(d@),
        None => None,
    }
}

/// Lists the directories to search for the library file, in the order in which
/// they are tried. Where none holds the file, the OS's own resolution is left.
pub fn search_directories(runtime_dir: Option<String>, p: Platform) -> (r: Vec<SearchDir>)
    ensures
        r@.map_values(|d: SearchDir| d@) == search_dirs_spec(opt_view(runtime_dir), p),
{
    let ghost rt = opt_view(runtime_dir);
    let mut dirs: Vec<SearchDir> = Vec::new();
    match runtime_dir {
        Some(d) => {
            if p.os == Os::Windows {
                dirs.push(SearchDir { base: d, subdir: Some("lib") });
            } else {
                dirs.push(SearchDir { base: d, subdir: None });
            }
        },
        None => {},
    }
    assert(dirs@.map_values(|d: SearchDir| d@) =~= runtime_dirs(rt, p));
    if p.os == Os::OtherUnix || p.os == Os::MacOs {
        dirs.push(SearchDir { base: String::from_str("/usr/local/lib"), subdir: None });
    }
    if p.os == Os::OtherUnix {
        dirs.push(SearchDir { base: String::from_str("/usr/lib"), subdir: None });
    }
    assert(dirs@.map_values(|d: SearchDir| d@) =~= search_dirs_spec(rt, p));
    dirs
}

/// The index of the first `true`, if any.
pub open spec fn first_true(s: Seq<bool>) -> Option<int>
    decreases s.len(),
{
    if s.len() == 0 {
        None
    } else if s[0] {
        Some(0)
    } else {
        match first_true(s.drop_first()) {
            Some(i) => Some(i + 1),
            None => None,
        }
    }
}

proof fn lemma_first_true(s: Seq<bool>, i: int)
    requires
        0 <= i <= s.len(),
        forall|j: int| 0 <= j < i ==> !s[j],
    ensures
        i < s.len() && s[i] ==> first_true(s) == Some(i),
        i == s.len() ==> first_true(s) is None,
    decreases s.len(),
{
    if s.len() > 0 && i > 0 {
        assert forall|j: int| 0 <= j < i - 1 implies !s.drop_first()[j] by {
            assert(!s[j + 1]);
        }
        lemma_first_true(s.drop_first(), i - 1);
    }
}

/// Picks the directory to load from: the first whose candidate file exists.
/// `None` leaves the choice to the OS's own library resolution.
pub fn first_existing(exists: &[bool]) -> (r: Option<usize>)
    ensures
        match r {
            Some(i) => first_true(exists@) == Some(i as int),
            None => first_true(exists@) is None,
        },
{
    let mut i: usize = 0;
    while i < exists.len()
        invariant
            i <= exists@.len(),
            forall|j: int| 0 <= j < i ==> !exists@[j],
        decreases exists@.len() - i,
    {
        if exists[i] {
            proof {
                lemma_first_true(exists@, i as int);
            }
            return Some(i);
        }
        i = i + 1;
    }
    proof {
        lemma_first_true(exists@, i as int);
    }
    None
}

/// Where a runtime directory is configured and holds the library file, it is
/// the directory loaded from, ahead of every system directory.
pub proof fn lemma_runtime_dir_preferred(
    runtime_dir: Seq<char>,
    p: Platform,
    exists: Seq<bool>,
)
    requires
        exists.len() == search_dirs_spec(Some(runtime_dir), p).len(),
        exists[0],
    ensures
        first_true(exists) == Some(0int),
        search_dirs_spec(Some(runtime_dir), p)[0].0 == runtime_dir,
{
}

/// Decides the outcome of bringing the library up, from what the native side
/// gave: whether the entry symbol returned a function table, and what the
/// table's `initialize` returned (`None` where the table has no such entry).
pub fn check_initialize(table_found: bool, initialized: Option<bool>) -> (r: NDIResult<()>)
    ensures
        r is Ok <==> table_found && initialized == Some(true),
        !table_found ==> r matches Err(NDIError::LoadV5Failed),
        table_found && initialized is None ==> (r matches Err(NDIError::MissingSymbolV5(n))
            && n@ == "initialize"@),
        table_found && initialized == Some(false) ==> r matches Err(NDIError::InitializeFailed),
{
    if !table_found {
        return Err(NDIError::LoadV5Failed);
    }
    match initialized {
        None => Err(NDIError::MissingSymbolV5("initialize")),
        Some(false) => Err(NDIError::InitializeFailed),
        Some(true) => Ok(()),
    }
}

/// Takes what the native version call gave back (`None` where the function
/// table lacks it; `Some(None)` for a null pointer; else the bytes of the C
/// string) and reads it, strictly, as text.
pub fn version(reply: Option<Option<Vec<u8>>>) -> (r: NDIResult<String>)
    ensures
        reply is None ==> (r matches Err(NDIError::MissingSymbolV5(n)) && n@ == "version"@),
        reply == Some(None::<Vec<u8>>) ==> (r matches Err(NDIError::UnexpectedNullPointer(n))
            && n@ == "version"@),
        reply is Some && reply->Some_0 is Some ==> {
            &&& r is Ok <==> valid_utf8(text_of_c_bytes(reply->Some_0->Some_0@))
            &&& r is Ok ==> r->Ok_0@ == decode_utf8(text_of_c_bytes(reply->Some_0->Some_0@))
            &&& r is Err ==> r->Err_0 is Utf8Error
        },
{
    match reply {
        None => Err(NDIError::MissingSymbolV5("version")),
        Some(None) => Err(NDIError::UnexpectedNullPointer("version")),
        Some(Some(bytes)) => string_from_c_bytes(bytes.as_slice()),
    }
}

} // verus!
