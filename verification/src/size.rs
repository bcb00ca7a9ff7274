//! The size of a directory tree.
//!
//! A tree is handed over as it was read: each directory with the entries that
//! its listing gave, each other entry with the length that its metadata gave.
//! What could not be read is marked as such and counts as nothing.

use vstd::prelude::*;

verus! {

/// One entry of a directory listing.
#[derive(Debug)]
pub enum Entry {
    /// Anything that is not a directory. `len` is its length in bytes, or
    /// `None` where its metadata could not be read. Its name plays no part:
    /// only directories are left out by name.
    File { len: Option<u64> },
    /// A directory. `name` is its file name in bytes, as the file system
    /// gives it, whether or not it is valid Unicode. `listing` holds its
    /// entries, or `None` where the directory could not be listed.
    Dir { name: Vec<u8>, listing: Option<Vec<Entry>> },
}

/// The byte that a hidden name starts with: a dot.
pub const HIDDEN_MARKER: u8 = 0x2e;

/// Whether a directory of this name is left out of the walk: its name starts
/// with a dot.
pub open spec fn is_hidden(name: Seq<u8>) -> bool {
    name.len() > 0 && name[0] == HIDDEN_MARKER
}

/// The bytes that one entry adds to the size of the directory that lists it.
pub open spec fn entry_size(entry: Entry) -> nat
    decreases entry, 0nat,
{
    match entry {
        Entry::File { len: Some(len) } => len as nat,
        Entry::File { len: None } => 0,
        Entry::Dir { name, listing: Some(entries) } => if is_hidden(name@) {
            0
        } else {
            entries_size(entries@, entries@.len())
        },
        Entry::Dir { name, listing: None } => 0,
    }
}

/// The bytes that the first `upto` entries of a listing add up to.
pub open spec fn entries_size(entries: Seq<Entry>, upto: nat) -> nat
    decreases entries, upto,
{
    if upto == 0 || upto > entries.len() {
        0
    } else {
        entries_size(entries, (upto - 1) as nat) + entry_size(entries[upto - 1])
    }
}

/// The size of a directory, given its listing: nothing where the directory
/// could not be listed, else the sum over its entries.
pub open spec fn folder_size(listing: Option<Vec<Entry>>) -> nat {
    match listing {
        Some(entries) => entries_size(entries@, entries@.len()),
        None => 0,
    }
}

/// The size of a listing: the sum over all of its entries.
pub open spec fn listing_size(entries: Seq<Entry>) -> nat {
    entries_size(entries, entries.len())
}

/// Every known length that stands in an entry's tree, hidden or not.
pub open spec fn entry_lengths(entry: Entry) -> Seq<nat>
    decreases entry, 0nat,
{
    match entry {
        Entry::File { len: Some(len) } => seq![len as nat],
        Entry::File { len: None } => Seq::empty(),
        Entry::Dir { name, listing: Some(entries) } => entries_lengths(entries@, entries@.len()),
        Entry::Dir { name, listing: None } => Seq::empty(),
    }
}

/// Every known length that stands in the trees of the first `upto` entries.
pub open spec fn entries_lengths(entries: Seq<Entry>, upto: nat) -> Seq<nat>
    decreases entries, upto,
{
    if upto == 0 || upto > entries.len() {
        Seq::empty()
    } else {
        entries_lengths(entries, (upto - 1) as nat) + entry_lengths(entries[upto - 1])
    }
}

/// The sum of a sequence of lengths.
pub open spec fn total(lengths: Seq<nat>) -> nat
    decreases lengths.len(),
{
    if lengths.len() == 0 {
        0
    } else {
        total(lengths.drop_last()) + lengths.last()
    }
}

/// Whether an entry's tree is free of hidden directories, at every depth.
pub open spec fn shows_all(entry: Entry) -> bool
    decreases entry,
{
    match entry {
        Entry::File { len } => true,
        Entry::Dir { name, listing: Some(entries) } => {
            &&& !is_hidden(name@)
            &&& forall|i: int| 0 <= i < entries@.len() ==> shows_all(#[trigger] entries@[i])
        },
        Entry::Dir { name, listing: None } => !is_hidden(name@),
    }
}

/// Every known length that stands in the tree of a directory.
pub open spec fn folder_lengths(listing: Option<Vec<Entry>>) -> Seq<nat> {
    match listing {
        Some(entries) => entries_lengths(entries@, entries@.len()),
        None => Seq::empty(),
    }
}

/// Whether the tree of a directory is free of hidden directories.
pub open spec fn folder_shows_all(listing: Option<Vec<Entry>>) -> bool {
    match listing {
        Some(entries) => forall|i: int|
            0 <= i < entries@.len() ==> shows_all(#[trigger] entries@[i]),
        None => true,
    }
}

/// Tells whether a directory of this name is left out of the walk.
pub fn is_hidden_name(name: &Vec<u8>) -> (hidden: bool)
    ensures
        hidden == is_hidden(name@),
{
    name.len() > 0 && name[0] == HIDDEN_MARKER
}

/// A sum over a listing never shrinks when more of its entries are counted.
pub proof fn lemma_entries_size_grows(entries: Seq<Entry>, fewer: nat, more: nat)
    requires
        fewer <= more <= entries.len(),
    ensures
        entries_size(entries, fewer) <= entries_size(entries, more),
    decreases more,
{
    if fewer < more {
        lemma_entries_size_grows(entries, fewer, (more - 1) as nat);
    }
}

/// A sum over a listing reads no entry beyond those it counts.
pub proof fn lemma_entries_size_of_prefix(a: Seq<Entry>, b: Seq<Entry>, upto: nat)
    requires
        upto <= a.len(),
        upto <= b.len(),
        forall|i: int| 0 <= i < upto ==> a[i] == b[i],
    ensures
        entries_size(a, upto) == entries_size(b, upto),
    decreases upto,
{
    if upto > 0 {
        lemma_entries_size_of_prefix(a, b, (upto - 1) as nat);
    }
}

/// An entry added at the end of a listing adds its own size.
pub proof fn lemma_listing_size_push(entries: Seq<Entry>, entry: Entry)
    ensures
        listing_size(entries.push(entry)) == listing_size(entries) + entry_size(entry),
{
    lemma_entries_size_of_prefix(entries.push(entry), entries, entries.len());
}

/// An entry taken out of a listing takes its own size with it.
pub proof fn lemma_listing_size_remove(entries: Seq<Entry>, i: int)
    requires
        0 <= i < entries.len(),
    ensures
        listing_size(entries) == listing_size(entries.remove(i)) + entry_size(entries[i]),
    decreases entries.len(),
{
    let front = entries.drop_last();
    lemma_entries_size_of_prefix(entries, front, front.len());
    if i == entries.len() - 1 {
    } else {
        lemma_listing_size_remove(front, i);
        assert(entries.remove(i) =~= front.remove(i).push(entries.last()));
        lemma_listing_size_push(front.remove(i), entries.last());
    }
}

/// The order of a listing does not matter: two listings that hold the same
/// entries, each as often as the other, have the same size.
pub proof fn lemma_listing_size_of_permutation(a: Seq<Entry>, b: Seq<Entry>)
    requires
        a.to_multiset() == b.to_multiset(),
    ensures
        listing_size(a) == listing_size(b),
    decreases a.len(),
{
    a.to_multiset_ensures();
    b.to_multiset_ensures();
    if a.len() > 0 {
        let last = a.last();
        let front = a.drop_last();
        assert(b.to_multiset().count(last) > 0);
        let j = choose|j: int| 0 <= j < b.len() && b[j] == last;
        assert(front =~= a.remove(a.len() - 1));
        lemma_listing_size_of_permutation(front, b.remove(j));
        lemma_listing_size_remove(a, a.len() - 1);
        lemma_listing_size_remove(b, j);
    }
}

/// A hidden directory counts as nothing, whatever it holds.
pub proof fn lemma_hidden_dir_counts_nothing(name: Vec<u8>, listing: Option<Vec<Entry>>)
    requires
        is_hidden(name@),
    ensures
        entry_size(Entry::Dir { name, listing }) == 0,
{
}

/// A listing has the same size with and without a hidden directory in it.
pub proof fn lemma_hidden_dir_can_be_left_out(entries: Seq<Entry>, i: int)
    requires
        0 <= i < entries.len(),
        entries[i] matches Entry::Dir { name, .. } && is_hidden(name@),
    ensures
        listing_size(entries) == listing_size(entries.remove(i)),
{
    lemma_listing_size_remove(entries, i);
}

/// The sum of two sequences of lengths, one after the other.
pub proof fn lemma_total_concat(a: Seq<nat>, b: Seq<nat>)
    ensures
        total(a + b) == total(a) + total(b),
    decreases b.len(),
{
    if b.len() == 0 {
    } else {
        assert((a + b).drop_last() =~= a + b.drop_last());
        lemma_total_concat(a, b.drop_last());
    }
}

/// In a tree without hidden directories an entry's size is the sum of every
/// known length in its tree.
pub proof fn lemma_entry_size_is_total(entry: Entry)
    requires
        shows_all(entry),
    ensures
        entry_size(entry) == total(entry_lengths(entry)),
    decreases entry, 0nat,
{
    match entry {
        Entry::File { len: Some(len) } => {
            assert(seq![len as nat].drop_last() =~= Seq::<nat>::empty());
            assert(total(seq![len as nat]) == total(Seq::<nat>::empty()) + len as nat);
        },
        Entry::Dir { name, listing: Some(entries) } => {
            lemma_entries_size_is_total(entries@, entries@.len());
        },
        _ => {},
    }
}

/// In a listing whose trees hold no hidden directory, the size of the first
/// `upto` entries is the sum of every known length in their trees.
pub proof fn lemma_entries_size_is_total(entries: Seq<Entry>, upto: nat)
    requires
        upto <= entries.len(),
        forall|i: int| 0 <= i < entries.len() ==> shows_all(#[trigger] entries[i]),
    ensures
        entries_size(entries, upto) == total(entries_lengths(entries, upto)),
    decreases entries, upto,
{
    if upto > 0 {
        lemma_entries_size_is_total(entries, (upto - 1) as nat);
        lemma_entry_size_is_total(entries[upto - 1]);
        lemma_total_concat(
            entries_lengths(entries, (upto - 1) as nat),
            entry_lengths(entries[upto - 1]),
        );
    }
}

/// The size of a directory without hidden directories in its tree is the sum
/// of the lengths of all files in the tree, at whatever depth they lie.
pub proof fn lemma_size_is_sum_of_lengths(listing: Option<Vec<Entry>>)
    requires
        folder_shows_all(listing),
    ensures
        folder_size(listing) == total(folder_lengths(listing)),
{
    if let Some(entries) = listing {
        lemma_entries_size_is_total(entries@, entries@.len());
    }
}

/// The size of a directory, or `None` where it does not fit in 64 bits.
pub fn checked_folder_size(listing: &Option<Vec<Entry>>) -> (total: Option<u64>)
    ensures
        match total {
            Some(n) => n == folder_size(*listing),
            None => folder_size(*listing) > u64::MAX,
        },
    decreases *listing,
{
    let entries = match listing {
        Some(entries) => entries,
        None => {
            return Some(0);
        },
    };
    let mut sum: u64 = 0;
    let mut i: usize = 0;
    while i < entries.len()
        invariant
            i <= entries.len(),
            *listing is Some,
            *entries == listing->0,
            sum == entries_size(entries@, i as nat),
        decreases entries.len() - i,
    {
        let added: u64 = match &entries[i] {
            Entry::File { len: Some(len) } => *len,
            Entry::File { len: None } => 0,
            Entry::Dir { name, listing: inner } => {
                if is_hidden_name(name) {
                    0
                } else {
                    match checked_folder_size(inner) {
                        Some(n) => n,
                        None => {
                            proof {
                                assert(entry_size(entries@[i as int]) > u64::MAX);
                                lemma_entries_size_grows(
                                    entries@,
                                    (i + 1) as nat,
                                    entries@.len(),
                                );
                            }
                            return None;
                        },
                    }
                }
            },
        };
        assert(added == entry_size(entries@[i as int]));
        match sum.checked_add(added) {
            Some(next) => {
                sum = next;
            },
            None => {
                proof {
                    lemma_entries_size_grows(entries@, (i + 1) as nat, entries@.len());
                }
                return None;
            },
        }
        i = i + 1;
    }
    Some(sum)
}

/// The size of a directory: the lengths of all that its tree holds, leaving
/// out what lies under a hidden directory.
pub fn calculate_folder_size(listing: &Option<Vec<Entry>>) -> (total: u64)
    requires
        folder_size(*listing) <= u64::MAX,
    ensures
        total == folder_size(*listing),
    decreases *listing,
{
    let mut total: u64 = 0;
    if let Some(entries) = listing {
        let mut i: usize = 0;
        while i < entries.len()
            invariant
                i <= entries.len(),
                *listing is Some,
                *entries == listing->0,
                total == entries_size(entries@, i as nat),
                entries_size(entries@, entries@.len()) <= u64::MAX,
            decreases entries.len() - i,
        {
            proof {
                lemma_entries_size_grows(entries@, (i + 1) as nat, entries@.len());
                assert(entries_size(entries@, (i + 1) as nat) == total + entry_size(
                    entries@[i as int],
                ));
            }
            match &entries[i] {
                Entry::File { len: Some(len) } => {
                    total += *len;
                },
                Entry::File { len: None } => {},
                Entry::Dir { name, listing: inner } => {
                    if !is_hidden_name(name) {
                        total += calculate_folder_size(inner);
                    }
                },
            }
            i = i + 1;
        }
    }
    total
}

} // verus!
