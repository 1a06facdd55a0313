//! Library scanner: keeps, in order, the plain files of a directory listing
//! whose name carries the audio extension.

use vstd::prelude::*;
use vstd::string::*;

verus! {

/// One entry of a directory listing, as the host hands it over: the entry's
/// file name and whether it is a plain file (as opposed to a subdirectory
/// or anything else).
pub struct FileEntry {
    pub name: String,
    pub is_file: bool,
}

/// The audio format marker: the name ends in `.mp3` and has a non-empty
/// stem before the final dot, exactly the names whose path extension is
/// `mp3`. The check is case-sensitive.
pub open spec fn is_mp3_seq(name: Seq<char>) -> bool {
    &&& name.len() >= 5
    &&& name[name.len() - 4] == '.'
    &&& name[name.len() - 3] == 'm'
    &&& name[name.len() - 2] == 'p'
    &&& name[name.len() - 1] == '3'
}

/// Whether a scan keeps this entry: a plain file with the audio extension.
pub open spec fn keeps_entry(e: FileEntry) -> bool {
    e.is_file && is_mp3_seq(e.name@)
}

/// The tracks a scan of this listing yields: the names of the kept entries,
/// in the order the listing gives them.
pub open spec fn scan_spec(entries: Seq<FileEntry>) -> Seq<Seq<char>> {
    entries.filter(|e: FileEntry| keeps_entry(e)).map_values(|e: FileEntry| e.name@)
}

/// Does this file name carry the audio extension?
pub fn is_mp3_name(name: &str) -> (r: bool)
    ensures
        r == is_mp3_seq(name@),
{
    let n = name.unicode_len();
    if n < 5 {
        return false;
    }
    name.get_char(n - 4) == '.' && name.get_char(n - 3) == 'm' && name.get_char(n - 2) == 'p'
        && name.get_char(n - 1) == '3'
}

/// Scan a directory listing: keep exactly the plain files whose name carries
/// the audio extension, in the order the listing yields them.
pub fn scan(entries: &Vec<FileEntry>) -> (songs: Vec<String>)
    ensures
        songs@.map_values(|s: String| s@) == scan_spec(entries@),
{
    let mut songs: Vec<String> = Vec::new();
    let mut i: usize = 0;
    proof {
        assert(entries@.take(0int) =~= Seq::<FileEntry>::empty());
        reveal(Seq::filter);
    }
    while i < entries.len()
        invariant
            i <= entries.len(),
            songs@.map_values(|s: String| s@) == scan_spec(entries@.take(i as int)),
        decreases entries.len() - i,
    {
        let keep = entries[i].is_file && is_mp3_name(entries[i].name.as_str());
        proof {
            reveal(Seq::filter);
            assert(entries@.take(i + 1).drop_last() =~= entries@.take(i as int));
            assert(entries@.take(i + 1).last() == entries@[i as int]);
        }
        if keep {
            songs.push(entries[i].name.clone());
            proof {
                assert(songs@.map_values(|s: String| s@) =~= scan_spec(
                    entries@.take(i as int),
                ).push(entries@[i as int].name@));
                assert(scan_spec(entries@.take(i + 1)) =~= scan_spec(entries@.take(i as int)).push(
                    entries@[i as int].name@,
                ));
            }
        } else {
            proof {
                assert(scan_spec(entries@.take(i + 1)) =~= scan_spec(entries@.take(i as int)));
            }
        }
        i = i + 1;
    }
    proof {
        assert(entries@.take(entries@.len() as int) =~= entries@);
    }
    songs
}

} // verus!
