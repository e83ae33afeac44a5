//! Pair discovery: turning a directory listing into the ordered pair set.
//!
//! The listing itself is read at the boundary; this module builds the
//! pairs from the file names, in the order the listing handed them over,
//! so that each pair's position is its sequence index. A name missing on
//! the distorted side is not checked here: scoring that pair fails later
//! and is recorded as that pair's failure, never the batch's.

use vstd::prelude::*;

use crate::structs::FilePair;
use crate::text::append_char;
use crate::text::append_str;

verus! {

/// The path of `name` inside `dir`: the directory, a separator, the name.
pub open spec fn joined(dir: Seq<char>, name: Seq<char>) -> Seq<char> {
    dir + seq!['/'] + name
}

/// Whether `pairs` is exactly the pair set of `names` over the two
/// directories, in listing order.
pub open spec fn pairs_match(
    pairs: Seq<FilePair>,
    source_dir: Seq<char>,
    distorted_dir: Seq<char>,
    names: Seq<Seq<char>>,
) -> bool {
    &&& pairs.len() == names.len()
    &&& forall|i: int| 0 <= i < pairs.len() ==> {
        &&& (#[trigger] pairs[i]).identifier@ == names[i]
        &&& pairs[i].source_path@ == joined(source_dir, names[i])
        &&& pairs[i].distorted_path@ == joined(distorted_dir, names[i])
    }
}

/// Joins a directory path and a file name with a separator.
pub fn join_path(dir: &str, name: &str) -> (p: String)
    ensures
        p@ == joined(dir@, name@),
{
    let mut p = String::new();
    append_str(&mut p, dir);
    append_char(&mut p, '/');
    append_str(&mut p, name);
    assert(p@ =~= joined(dir@, name@));
    p
}

/// Builds one pair per listed file name, in listing order, so that the
/// pair at position `i` carries sequence index `i`.
pub fn make_pairs(source_dir: &str, distorted_dir: &str, names: &Vec<String>)
    -> (pairs: Vec<FilePair>)
    ensures
        pairs_match(pairs@, source_dir@, distorted_dir@, names@.map_values(|n: String| n@)),
{
    let ghost name_views = names@.map_values(|n: String| n@);
    let mut pairs: Vec<FilePair> = Vec::new();
    for i in 0..names.len()
        invariant
            name_views == names@.map_values(|n: String| n@),
            pairs_match(pairs@, source_dir@, distorted_dir@, name_views.take(i as int)),
    {
        let name = &names[i];
        let pair = FilePair {
            identifier: name.clone(),
            source_path: join_path(source_dir, name.as_str()),
            distorted_path: join_path(distorted_dir, name.as_str()),
        };
        pairs.push(pair);
        assert(name_views.take(i + 1) =~= name_views.take(i as int).push(name@));
    }
    assert(name_views.take(names.len() as int) =~= name_views);
    pairs
}

} // verus!
