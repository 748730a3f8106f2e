//! Selection of the produced media file to distribute.
//!
//! When no usable path is named explicitly, the program scans the immediate
//! entries of the working directory, keeps the files whose extension is on a
//! fixed allow-list of media extensions, and picks the one with the latest
//! modification timestamp; among entries sharing that timestamp, the one
//! enumerated last wins (enumeration order is platform-defined, so the
//! tie-break is deliberately stated over the given order, not over names).
//! The caller enumerates the directory and hands the entries in here as plain
//! values; the selection itself is verified.

use vstd::prelude::*;

verus! {

/// ASCII byte values used in extension matching.
pub const B_DOT: u8 = 46;

pub const B_M: u8 = 109;

pub const B_P: u8 = 112;

pub const B_3: u8 = 51;

pub const B_4: u8 = 52;

pub const B_A: u8 = 97;

pub const B_W: u8 = 119;

pub const B_E: u8 = 101;

pub const B_B: u8 = 98;

pub const B_O: u8 = 111;

pub const B_U: u8 = 117;

pub const B_S: u8 = 115;

/// Failure of output selection.
#[derive(Clone, Copy, Debug, PartialEq, Eq, Structural)]
pub enum LocateError {
    /// No explicit hint resolved and no allow-listed file exists.
    NotFound,
}

/// One immediate directory entry, as plain values: its file name bytes,
/// whether it is a regular file, and its modification timestamp (any fixed
/// unit; only the order matters).
pub struct ScanEntry {
    pub name: Vec<u8>,
    pub is_file: bool,
    pub mtime: u64,
}

/// How an explicit hint resolves: use it verbatim, use it joined to the
/// working directory, or fall back to scanning the directory.
#[derive(Clone, Copy, Debug, PartialEq, Eq, Structural)]
pub enum HintChoice {
    UseGiven,
    UseJoined,
    ScanDirectory,
}

/// `i` marks the extension of `s`: the byte at `i` is the last dot, and it
/// is not the leading byte (a name that is nothing but a dotted suffix has
/// no extension).
pub open spec fn ext_split_at(s: Seq<u8>, i: int) -> bool {
    &&& 1 <= i < s.len()
    &&& s[i] == B_DOT
    &&& forall|j: int| i < j < s.len() ==> s[j] != B_DOT
}

/// Whether the name has an extension at all.
pub open spec fn has_ext(s: Seq<u8>) -> bool {
    exists|i: int| ext_split_at(s, i)
}

/// The extension bytes of the name (everything after the last dot).
pub open spec fn ext_of(s: Seq<u8>) -> Seq<u8>
    recommends
        has_ext(s),
{
    let i = choose|i: int| ext_split_at(s, i);
    s.subrange(i + 1, s.len() as int)
}

/// The fixed allow-list of media extensions.
pub open spec fn allowed_ext(e: Seq<u8>) -> bool {
    ||| e == seq![B_M, B_P, B_3]
    ||| e == seq![B_M, B_P, B_4]
    ||| e == seq![B_M, B_4, B_A]
    ||| e == seq![B_W, B_E, B_B, B_M]
    ||| e == seq![B_O, B_P, B_U, B_S]
}

/// An entry is a candidate for distribution: a regular file whose extension
/// is on the allow-list.
pub open spec fn candidate(e: ScanEntry) -> bool {
    e.is_file && has_ext(e.name@) && allowed_ext(ext_of(e.name@))
}

/// At most one index marks the extension.
proof fn lemma_ext_split_unique(s: Seq<u8>, i: int, j: int)
    requires
        ext_split_at(s, i),
        ext_split_at(s, j),
    ensures
        i == j,
{
    if i < j {
        assert(s[j] != B_DOT);
    } else if j < i {
        assert(s[i] != B_DOT);
    }
}

/// Whether this entry is a candidate for distribution (runtime form).
pub fn is_candidate(e: &ScanEntry) -> (r: bool)
    ensures
        r == candidate(*e),
{
    if !e.is_file {
        return false;
    }
    let n = e.name.len();
    let mut i: usize = 0;
    let mut dot: Option<usize> = None;
    while i < n
        invariant
            i <= n,
            n == e.name@.len(),
            match dot {
                Some(d) => d < i && e.name@[d as int] == B_DOT && (forall|j: int|
                    d < j < i ==> e.name@[j] != B_DOT),
                None => forall|j: int| 0 <= j < i ==> e.name@[j] != B_DOT,
            },
        decreases n - i,
    {
        if e.name[i] == B_DOT {
            dot = Some(i);
        }
        i += 1;
    }
    match dot {
        None => {
            assert(!has_ext(e.name@));
            false
        },
        Some(d) => {
            if d == 0 {
                assert(forall|k: int| ext_split_at(e.name@, k) ==> k == 0) by {
                    assert forall|k: int| ext_split_at(e.name@, k) implies k == 0 by {
                        if k != 0 {
                            assert(e.name@[0] == B_DOT);
                        }
                    }
                }
                assert(!has_ext(e.name@));
                false
            } else {
                proof {
                    assert(ext_split_at(e.name@, d as int));
                    let w = choose|w: int| ext_split_at(e.name@, w);
                    lemma_ext_split_unique(e.name@, w, d as int);
                }
                let ext_len = n - d - 1;
                let ghost ext = ext_of(e.name@);
                proof {
                    assert(ext =~= e.name@.subrange(d + 1, n as int));
                }
                if ext_len == 3 {
                    let a = e.name[d + 1];
                    let b = e.name[d + 2];
                    let c = e.name[d + 3];
                    let hit = (a == B_M && b == B_P && c == B_3) || (a == B_M && b == B_P && c
                        == B_4) || (a == B_M && b == B_4 && c == B_A);
                    proof {
                        if hit {
                            if c == B_3 {
                                assert(ext =~= seq![B_M, B_P, B_3]);
                            } else if b == B_P {
                                assert(ext =~= seq![B_M, B_P, B_4]);
                            } else {
                                assert(ext =~= seq![B_M, B_4, B_A]);
                            }
                        } else {
                            assert(ext.len() == 3);
                            assert(ext[0] == a && ext[1] == b && ext[2] == c);
                        }
                    }
                    hit
                } else if ext_len == 4 {
                    let a = e.name[d + 1];
                    let b = e.name[d + 2];
                    let c = e.name[d + 3];
                    let g = e.name[d + 4];
                    let hit = (a == B_W && b == B_E && c == B_B && g == B_M) || (a == B_O && b
                        == B_P && c == B_U && g == B_S);
                    proof {
                        if hit {
                            if a == B_W {
                                assert(ext =~= seq![B_W, B_E, B_B, B_M]);
                            } else {
                                assert(ext =~= seq![B_O, B_P, B_U, B_S]);
                            }
                        } else {
                            assert(ext.len() == 4);
                            assert(ext[0] == a && ext[1] == b && ext[2] == c && ext[3] == g);
                        }
                    }
                    hit
                } else {
                    proof {
                        assert(ext.len() == ext_len);
                    }
                    false
                }
            }
        },
    }
}

/// Select, among the scanned entries, the allow-listed file with the latest
/// modification timestamp; on ties, the entry enumerated last wins. Fails
/// with `NotFound` exactly when no entry is a candidate.
pub fn resolve_scan(entries: &Vec<ScanEntry>) -> (r: Result<usize, LocateError>)
    ensures
        r is Ok <==> exists|j: int| 0 <= j < entries@.len() && candidate(entries@[j]),
        r matches Ok(i) ==> {
            &&& i < entries@.len()
            &&& candidate(entries@[i as int])
            &&& forall|j: int|
                0 <= j < entries@.len() && candidate(entries@[j]) ==> entries@[j].mtime
                    <= entries@[i as int].mtime
            &&& forall|j: int|
                i < j < entries@.len() && candidate(entries@[j]) ==> entries@[j].mtime
                    < entries@[i as int].mtime
        },
        r is Err ==> r == Err::<usize, LocateError>(LocateError::NotFound),
{
    let n = entries.len();
    let mut best: Option<usize> = None;
    let mut i: usize = 0;
    while i < n
        invariant
            i <= n,
            n == entries@.len(),
            match best {
                Some(b) => {
                    &&& b < i
                    &&& candidate(entries@[b as int])
                    &&& forall|j: int|
                        0 <= j < i && candidate(entries@[j]) ==> entries@[j].mtime
                            <= entries@[b as int].mtime
                    &&& forall|j: int|
                        b < j < i && candidate(entries@[j]) ==> entries@[j].mtime
                            < entries@[b as int].mtime
                },
                None => forall|j: int| 0 <= j < i ==> !candidate(entries@[j]),
            },
        decreases n - i,
    {
        if is_candidate(&entries[i]) {
            match best {
                None => {
                    best = Some(i);
                },
                Some(b) => {
                    if entries[i].mtime >= entries[b].mtime {
                        best = Some(i);
                    }
                },
            }
        }
        i += 1;
    }
    match best {
        Some(b) => Ok(b),
        None => Err(LocateError::NotFound),
    }
}

/// How an explicit hint resolves: the hint verbatim when a file exists at
/// it, else the hint joined to the working directory when a file exists
/// there, else fall back to scanning the directory. With no hint, scan.
pub open spec fn hint_choice_of(
    hint_given: bool,
    given_exists: bool,
    joined_exists: bool,
) -> HintChoice {
    if hint_given && given_exists {
        HintChoice::UseGiven
    } else if hint_given && joined_exists {
        HintChoice::UseJoined
    } else {
        HintChoice::ScanDirectory
    }
}

/// Decide how an explicit hint resolves (runtime form). The caller reports
/// whether a file exists at the hint verbatim and at the hint joined to the
/// working directory.
pub fn choose_hint(hint_given: bool, given_exists: bool, joined_exists: bool) -> (r: HintChoice)
    ensures
        r == hint_choice_of(hint_given, given_exists, joined_exists),
{
    if hint_given && given_exists {
        HintChoice::UseGiven
    } else if hint_given && joined_exists {
        HintChoice::UseJoined
    } else {
        HintChoice::ScanDirectory
    }
}

/// A hint that names an existing file is returned verbatim, whatever the
/// working directory holds: the directory is never scanned for it.
pub proof fn lemma_existing_hint_wins(joined_exists: bool)
    ensures
        hint_choice_of(true, true, joined_exists) == HintChoice::UseGiven,
{
}

} // verus!
