//! Classification of archive containers by file name.

use crate::text::{chars_of, has_suffix};
use vstd::prelude::*;

verus! {

/// A container or compression format that an asset may be packaged in.
#[derive(Debug, Clone, Copy, PartialEq, Eq, Structural)]
pub enum ArchiveFormat {
    Z,
    Zip,
    Gzip,
    Bzip2,
    Lz,
    Xz,
    Lzma,
    P7z,
    Tar,
    TarZ,
    TarGzip,
    TarBzip2,
    TarLz,
    TarXz,
    TarLzma,
    Tar7z,
    TarZstd,
    Rar,
    Zstd,
}

/// What `from_filename` reports for a name that ends in no known suffix.
pub const UNKNOWN_FORMAT: &'static str = "Unknown archive format.";

/// The recognised suffixes and the format each one stands for, longer suffixes first.
pub open spec fn suffix_table() -> Seq<(Seq<char>, ArchiveFormat)> {
    seq![
        (".tar.7z.001"@, ArchiveFormat::Tar7z),
        (".tar.lzma"@, ArchiveFormat::TarLzma),
        (".tar.bz2"@, ArchiveFormat::TarBzip2),
        (".tar.zst"@, ArchiveFormat::TarZstd),
        (".tar.gz"@, ArchiveFormat::TarGzip),
        (".tar.lz"@, ArchiveFormat::TarLz),
        (".tar.xz"@, ArchiveFormat::TarXz),
        (".tar.7z"@, ArchiveFormat::Tar7z),
        (".7z.001"@, ArchiveFormat::P7z),
        ("tar.z"@, ArchiveFormat::TarZ),
        (".tbz2"@, ArchiveFormat::TarBzip2),
        (".lzma"@, ArchiveFormat::Lzma),
        (".tgz"@, ArchiveFormat::TarGzip),
        (".txz"@, ArchiveFormat::TarXz),
        (".tlz"@, ArchiveFormat::TarLzma),
        (".t7z"@, ArchiveFormat::Tar7z),
        (".tar"@, ArchiveFormat::Tar),
        (".zip"@, ArchiveFormat::Zip),
        (".bz2"@, ArchiveFormat::Bzip2),
        (".rar"@, ArchiveFormat::Rar),
        (".zst"@, ArchiveFormat::Zstd),
        (".gz"@, ArchiveFormat::Gzip),
        (".lz"@, ArchiveFormat::Lz),
        (".xz"@, ArchiveFormat::Xz),
        (".7z"@, ArchiveFormat::P7z),
        (".z"@, ArchiveFormat::Z),
    ]
}

/// The format of the first table entry, from entry `from` on, whose suffix ends `name`.
pub open spec fn classify_from(name: Seq<char>, from: int) -> Option<ArchiveFormat>
    decreases suffix_table().len() - from,
{
    if from < 0 || from >= suffix_table().len() {
        None
    } else if suffix_table()[from].0.is_suffix_of(name) {
        Some(suffix_table()[from].1)
    } else {
        classify_from(name, from + 1)
    }
}

/// The format that a file name stands for: that of the longest known suffix it ends in.
pub open spec fn classify(name: Seq<char>) -> Option<ArchiveFormat> {
    classify_from(name, 0)
}

/// Entry `i` of the table is a suffix of `name`.
pub open spec fn ends_in_entry(name: Seq<char>, i: int) -> bool {
    0 <= i < suffix_table().len() && suffix_table()[i].0.is_suffix_of(name)
}

/// Entry `i` ends `name`, and no entry that ends `name` is longer.
pub open spec fn longest_entry(name: Seq<char>, i: int) -> bool {
    &&& ends_in_entry(name, i)
    &&& forall|j: int| #[trigger]
        ends_in_entry(name, j) ==> suffix_table()[j].0.len() <= suffix_table()[i].0.len()
}

proof fn lemma_suffix_lengths()
    ensures
        suffix_table().len() == 26,
        forall|i: int, j: int|
            0 <= i <= j < 26 ==> suffix_table()[j].0.len() <= suffix_table()[i].0.len(),
{
    reveal_strlit(".tar.7z.001");
    reveal_strlit(".tar.lzma");
    reveal_strlit(".tar.bz2");
    reveal_strlit(".tar.zst");
    reveal_strlit(".tar.gz");
    reveal_strlit(".tar.lz");
    reveal_strlit(".tar.xz");
    reveal_strlit(".tar.7z");
    reveal_strlit(".7z.001");
    reveal_strlit("tar.z");
    reveal_strlit(".tbz2");
    reveal_strlit(".lzma");
    reveal_strlit(".tgz");
    reveal_strlit(".txz");
    reveal_strlit(".tlz");
    reveal_strlit(".t7z");
    reveal_strlit(".tar");
    reveal_strlit(".zip");
    reveal_strlit(".bz2");
    reveal_strlit(".rar");
    reveal_strlit(".zst");
    reveal_strlit(".gz");
    reveal_strlit(".lz");
    reveal_strlit(".xz");
    reveal_strlit(".7z");
    reveal_strlit(".z");
}

proof fn lemma_suffixes_distinct(i: int, j: int)
    requires
        0 <= i < suffix_table().len(),
        0 <= j < suffix_table().len(),
        suffix_table()[i].0 == suffix_table()[j].0,
    ensures
        suffix_table()[i].1 == suffix_table()[j].1,
{
    reveal_strlit(".tar.7z.001");
    reveal_strlit(".tar.lzma");
    reveal_strlit(".tar.bz2");
    reveal_strlit(".tar.zst");
    reveal_strlit(".tar.gz");
    reveal_strlit(".tar.lz");
    reveal_strlit(".tar.xz");
    reveal_strlit(".tar.7z");
    reveal_strlit(".7z.001");
    reveal_strlit("tar.z");
    reveal_strlit(".tbz2");
    reveal_strlit(".lzma");
    reveal_strlit(".tgz");
    reveal_strlit(".txz");
    reveal_strlit(".tlz");
    reveal_strlit(".t7z");
    reveal_strlit(".tar");
    reveal_strlit(".zip");
    reveal_strlit(".bz2");
    reveal_strlit(".rar");
    reveal_strlit(".zst");
    reveal_strlit(".gz");
    reveal_strlit(".lz");
    reveal_strlit(".xz");
    reveal_strlit(".7z");
    reveal_strlit(".z");
    let a = suffix_table()[i].0;
    let b = suffix_table()[j].0;
    assert(a.len() == b.len());
    assert(a[0] == b[0] && a[1] == b[1] && a[2] == b[2] && a[3] == b[3] && a[5] == b[5]);
}

proof fn lemma_classify_from(name: Seq<char>, from: int)
    requires
        0 <= from <= suffix_table().len(),
        forall|j: int| 0 <= j < from ==> !ends_in_entry(name, j),
    ensures
        match classify_from(name, from) {
            Some(format) => exists|i: int|
                #[trigger] longest_entry(name, i) && suffix_table()[i].1 == format,
            None => forall|i: int| !ends_in_entry(name, i),
        },
    decreases suffix_table().len() - from,
{
    lemma_suffix_lengths();
    if from < suffix_table().len() {
        if suffix_table()[from].0.is_suffix_of(name) {
            assert(longest_entry(name, from));
        } else {
            lemma_classify_from(name, from + 1);
        }
    }
}

/// Classification is the longest match: a recognised name gets the format of a suffix that ends
/// it and is at least as long as every other known suffix that ends it, and a name is refused
/// only when no known suffix ends it.
pub proof fn lemma_classify_longest_match(name: Seq<char>)
    ensures
        match classify(name) {
            Some(format) => exists|i: int|
                #[trigger] longest_entry(name, i) && suffix_table()[i].1 == format,
            None => forall|i: int| !ends_in_entry(name, i),
        },
{
    lemma_classify_from(name, 0);
}

/// The longest match decides the format: whichever longest entry is taken, `classify` gives
/// its format.
pub proof fn lemma_longest_match_decides(name: Seq<char>, i: int)
    requires
        longest_entry(name, i),
    ensures
        classify(name) == Some(suffix_table()[i].1),
{
    lemma_suffix_lengths();
    lemma_classify_longest_match(name);
    let k = choose|k: int| #[trigger] longest_entry(name, k) && Some(suffix_table()[k].1) == classify(name);
    assert(ends_in_entry(name, i));
    assert(ends_in_entry(name, k));
    let a = suffix_table()[i].0;
    let b = suffix_table()[k].0;
    assert(a.len() == b.len());
    assert(a =~= b);
    lemma_suffixes_distinct(i, k);
}

fn table_entry(i: usize) -> (r: (&'static str, ArchiveFormat))
    requires
        i < suffix_table().len(),
    ensures
        r.0@ == suffix_table()[i as int].0,
        r.1 == suffix_table()[i as int].1,
{
    match i {
        0 => (".tar.7z.001", ArchiveFormat::Tar7z),
        1 => (".tar.lzma", ArchiveFormat::TarLzma),
        2 => (".tar.bz2", ArchiveFormat::TarBzip2),
        3 => (".tar.zst", ArchiveFormat::TarZstd),
        4 => (".tar.gz", ArchiveFormat::TarGzip),
        5 => (".tar.lz", ArchiveFormat::TarLz),
        6 => (".tar.xz", ArchiveFormat::TarXz),
        7 => (".tar.7z", ArchiveFormat::Tar7z),
        8 => (".7z.001", ArchiveFormat::P7z),
        9 => ("tar.z", ArchiveFormat::TarZ),
        10 => (".tbz2", ArchiveFormat::TarBzip2),
        11 => (".lzma", ArchiveFormat::Lzma),
        12 => (".tgz", ArchiveFormat::TarGzip),
        13 => (".txz", ArchiveFormat::TarXz),
        14 => (".tlz", ArchiveFormat::TarLzma),
        15 => (".t7z", ArchiveFormat::Tar7z),
        16 => (".tar", ArchiveFormat::Tar),
        17 => (".zip", ArchiveFormat::Zip),
        18 => (".bz2", ArchiveFormat::Bzip2),
        19 => (".rar", ArchiveFormat::Rar),
        20 => (".zst", ArchiveFormat::Zstd),
        21 => (".gz", ArchiveFormat::Gzip),
        22 => (".lz", ArchiveFormat::Lz),
        23 => (".xz", ArchiveFormat::Xz),
        24 => (".7z", ArchiveFormat::P7z),
        _ => (".z", ArchiveFormat::Z),
    }
}

impl ArchiveFormat {
    /// Classifies a file by the suffix of its name. Every name is answered: with the format
    /// of the longest known suffix that it ends in, or with `UNKNOWN_FORMAT` if there is none.
    pub fn from_filename(filename: &str) -> (r: Result<ArchiveFormat, &'static str>)
        ensures
            match r {
                Ok(format) => classify(filename@) == Some(format),
                Err(message) => classify(filename@) is None && message@ == UNKNOWN_FORMAT@,
            },
    {
        let name = chars_of(filename);
        let mut i: usize = 0;
        while i < 26
            invariant
                i <= 26,
                suffix_table().len() == 26,
                name@ == filename@,
                classify(filename@) == classify_from(filename@, i as int),
            decreases 26 - i,
        {
            let (suffix, format) = table_entry(i);
            let suffix = chars_of(suffix);
            if has_suffix(&name, &suffix) {
                return Ok(format);
            }
            i += 1;
        }
        Err(UNKNOWN_FORMAT)
    }
}

} // verus!
