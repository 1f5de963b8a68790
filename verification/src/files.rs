//! Enumeration of the audio files of one directory.
//!
//! Reading the directory is left to the caller, who passes what it found as a
//! list of [`DirEntry`] values.  Everything that decides which entries count
//! and in which order they are shown lives here.

use vstd::prelude::*;
use vstd::string::*;

verus! {

/// One entry of a directory listing, as the caller found it on disk.
#[derive(Debug)]
pub struct DirEntry {
    /// The entry's file name, without any directory part.
    pub name: String,
    /// Whether the entry is a regular file.
    pub is_file: bool,
}

/// How two file names stand to each other in the display order.
#[derive(Clone, Copy, Debug, PartialEq, Eq, Structural)]
pub enum NameOrder {
    Before,
    Same,
    After,
}

/// The extension that marks an audio file, with its leading dot.
pub open spec fn mp3_suffix() -> Seq<char> {
    seq!['.', 'm', 'p', '3']
}

/// A name counts as an audio file when it ends in `.mp3` and has at least one
/// character before the dot: a bare `.mp3` is a hidden file without extension.
pub open spec fn is_mp3_name(name: Seq<char>) -> bool {
    name.len() > 4 && name.subrange(name.len() - 4, name.len() as int) == mp3_suffix()
}

/// Lexicographic order by code point on the parts of `a` and `b` from index
/// `k` on.
pub open spec fn name_lt_from(a: Seq<char>, b: Seq<char>, k: int) -> bool
    decreases a.len() - k,
{
    if k < 0 || k >= b.len() {
        false
    } else if k >= a.len() {
        true
    } else if a[k] != b[k] {
        (a[k] as u32) < (b[k] as u32)
    } else {
        name_lt_from(a, b, k + 1)
    }
}

/// The display order of file names: strict lexicographic order by code point.
pub open spec fn name_lt(a: Seq<char>, b: Seq<char>) -> bool {
    name_lt_from(a, b, 0)
}

/// Every name stands strictly before each later one.
pub open spec fn strictly_sorted(names: Seq<Seq<char>>) -> bool {
    forall|i: int, j: int| 0 <= i < j < names.len() ==> name_lt(#[trigger] names[i], #[trigger] names[j])
}

/// The names held by a list of strings.
pub open spec fn names_of(files: Seq<String>) -> Seq<Seq<char>> {
    Seq::new(files.len(), |i: int| files[i]@)
}

/// Whether `name` is the name of a regular file with the audio extension among
/// the first `n` entries.
pub open spec fn eligible_within(entries: Seq<DirEntry>, n: int, name: Seq<char>) -> bool {
    exists|i: int|
        0 <= i < n && i < entries.len() && (#[trigger] entries[i]).is_file && entries[i].name@ == name
            && is_mp3_name(name)
}

/// Whether `name` is the name of a regular file with the audio extension in
/// the listing.
pub open spec fn eligible(entries: Seq<DirEntry>, name: Seq<char>) -> bool {
    eligible_within(entries, entries.len() as int, name)
}

/// `names` is the file list of the listing `entries`: exactly the eligible
/// names, each once, in display order.
pub open spec fn is_file_list(entries: Seq<DirEntry>, names: Seq<Seq<char>>) -> bool {
    &&& strictly_sorted(names)
    &&& forall|name: Seq<char>| names.contains(name) <==> eligible(entries, name)
}

/// The order is transitive.
pub proof fn lemma_name_lt_transitive(a: Seq<char>, b: Seq<char>, c: Seq<char>)
    requires
        name_lt(a, b),
        name_lt(b, c),
    ensures
        name_lt(a, c),
{
    lemma_name_lt_from_transitive(a, b, c, 0);
}

proof fn lemma_name_lt_from_transitive(a: Seq<char>, b: Seq<char>, c: Seq<char>, k: int)
    requires
        0 <= k,
        name_lt_from(a, b, k),
        name_lt_from(b, c, k),
    ensures
        name_lt_from(a, c, k),
    decreases a.len() - k,
{
    if k < a.len() && a[k] == b[k] && b[k] == c[k] {
        lemma_name_lt_from_transitive(a, b, c, k + 1);
    }
}

/// No name stands before itself.
pub proof fn lemma_name_lt_irreflexive(a: Seq<char>)
    ensures
        !name_lt(a, a),
{
    lemma_name_lt_from_irreflexive(a, 0);
}

proof fn lemma_name_lt_from_irreflexive(a: Seq<char>, k: int)
    requires
        0 <= k,
    ensures
        !name_lt_from(a, a, k),
    decreases a.len() - k,
{
    if k < a.len() {
        lemma_name_lt_from_irreflexive(a, k + 1);
    }
}

/// Two names cannot each stand before the other.
pub proof fn lemma_name_lt_asymmetric(a: Seq<char>, b: Seq<char>)
    requires
        name_lt(a, b),
    ensures
        !name_lt(b, a),
{
    if name_lt(b, a) {
        lemma_name_lt_transitive(a, b, a);
        lemma_name_lt_irreflexive(a);
    }
}

/// A strictly sorted list holds no name twice.
pub proof fn lemma_sorted_is_duplicate_free(names: Seq<Seq<char>>)
    requires
        strictly_sorted(names),
    ensures
        names.no_duplicates(),
{
    assert forall|i: int, j: int| 0 <= i < names.len() && 0 <= j < names.len() && i != j implies names[i]
        != names[j] by {
        if i < j {
            lemma_name_lt_irreflexive(names[i]);
        } else {
            lemma_name_lt_irreflexive(names[j]);
        }
    }
}

/// A listing has one file list only: whatever order the entries were found
/// in, and however often the listing is enumerated, the same list comes out.
pub proof fn lemma_file_list_is_unique(
    first: Seq<DirEntry>,
    second: Seq<DirEntry>,
    a: Seq<Seq<char>>,
    b: Seq<Seq<char>>,
)
    requires
        is_file_list(first, a),
        is_file_list(second, b),
        forall|name: Seq<char>| eligible(first, name) <==> eligible(second, name),
    ensures
        a == b,
{
    lemma_sorted_same_members_equal(a, b);
}

/// Two strictly sorted lists with the same members are the same list.
pub proof fn lemma_sorted_same_members_equal(a: Seq<Seq<char>>, b: Seq<Seq<char>>)
    requires
        strictly_sorted(a),
        strictly_sorted(b),
        forall|name: Seq<char>| a.contains(name) <==> b.contains(name),
    ensures
        a == b,
    decreases a.len(),
{
    if a.len() == 0 {
        if b.len() > 0 {
            assert(b.contains(b[0]));
            assert(a.contains(b[0]));
        }
        assert(a =~= b);
    } else if b.len() == 0 {
        assert(a.contains(a[0]));
        assert(b.contains(a[0]));
    } else {
        // The two heads are each the least member, so they agree.
        assert(a.contains(a[0]));
        assert(b.contains(a[0]));
        let ib = choose|i: int| 0 <= i < b.len() && b[i] == a[0];
        assert(b.contains(b[0]));
        assert(a.contains(b[0]));
        let ia = choose|i: int| 0 <= i < a.len() && a[i] == b[0];
        if ib > 0 {
            // b[0] < b[ib] == a[0] <= a[ia] == b[0]
            assert(name_lt(b[0], b[ib]));
            if ia > 0 {
                assert(name_lt(a[0], a[ia]));
                lemma_name_lt_asymmetric(a[0], b[0]);
            } else {
                lemma_name_lt_irreflexive(a[0]);
            }
        }
        assert(a[0] == b[0]);
        let ta = a.drop_first();
        let tb = b.drop_first();
        assert forall|name: Seq<char>| ta.contains(name) <==> tb.contains(name) by {
            if ta.contains(name) {
                let i = choose|i: int| 0 <= i < ta.len() && ta[i] == name;
                assert(a[i + 1] == name);
                assert(name_lt(a[0], a[i + 1]));
                assert(a.contains(name));
                let j = choose|j: int| 0 <= j < b.len() && b[j] == name;
                if j == 0 {
                    lemma_name_lt_irreflexive(name);
                }
                assert(tb[j - 1] == name);
            }
            if tb.contains(name) {
                let i = choose|i: int| 0 <= i < tb.len() && tb[i] == name;
                assert(b[i + 1] == name);
                assert(name_lt(b[0], b[i + 1]));
                assert(b.contains(name));
                let j = choose|j: int| 0 <= j < a.len() && a[j] == name;
                if j == 0 {
                    lemma_name_lt_irreflexive(name);
                }
                assert(ta[j - 1] == name);
            }
        }
        assert(strictly_sorted(ta)) by {
            assert forall|i: int, j: int| 0 <= i < j < ta.len() implies name_lt(
                #[trigger] ta[i],
                #[trigger] ta[j],
            ) by {
                assert(name_lt(a[i + 1], a[j + 1]));
            }
        }
        assert(strictly_sorted(tb)) by {
            assert forall|i: int, j: int| 0 <= i < j < tb.len() implies name_lt(
                #[trigger] tb[i],
                #[trigger] tb[j],
            ) by {
                assert(name_lt(b[i + 1], b[j + 1]));
            }
        }
        lemma_sorted_same_members_equal(ta, tb);
        assert(a =~= seq![a[0]] + ta);
        assert(b =~= seq![b[0]] + tb);
    }
}

/// Tells whether a file name carries the audio extension.
pub fn has_mp3_extension(name: &str) -> (r: bool)
    ensures
        r == is_mp3_name(name@),
{
    let n = name.unicode_len();
    if n <= 4 {
        return false;
    }
    let c0 = name.get_char(n - 4);
    let c1 = name.get_char(n - 3);
    let c2 = name.get_char(n - 2);
    let c3 = name.get_char(n - 1);
    let r = c0 == '.' && c1 == 'm' && c2 == 'p' && c3 == '3';
    proof {
        let tail = name@.subrange(n - 4, n as int);
        assert(tail.len() == 4);
        assert(tail[0] == c0 && tail[1] == c1 && tail[2] == c2 && tail[3] == c3);
        if r {
            assert(tail =~= mp3_suffix());
        }
    }
    r
}

/// Compares two file names in the display order.
pub fn name_order(a: &str, b: &str) -> (r: NameOrder)
    ensures
        r == NameOrder::Before <==> name_lt(a@, b@),
        r == NameOrder::Same <==> a@ == b@,
        r == NameOrder::After <==> name_lt(b@, a@),
{
    let la = a.unicode_len();
    let lb = b.unicode_len();
    let mut k: usize = 0;
    proof {
        lemma_name_lt_irreflexive(a@);
    }
    while k < la && k < lb
        invariant
            k <= la,
            k <= lb,
            la == a@.len(),
            lb == b@.len(),
            forall|i: int| 0 <= i < k ==> a@[i] == b@[i],
            name_lt(a@, b@) == name_lt_from(a@, b@, k as int),
            name_lt(b@, a@) == name_lt_from(b@, a@, k as int),
        decreases la - k,
    {
        let ca = a.get_char(k);
        let cb = b.get_char(k);
        if ca != cb {
            let ua = ca as u32;
            let ub = cb as u32;
            assert(ua != ub) by {
                assert(ua as char == ca);
                assert(ub as char == cb);
            }
            if ua < ub {
                return NameOrder::Before;
            } else {
                return NameOrder::After;
            }
        }
        k = k + 1;
    }
    if la == lb {
        assert(a@ =~= b@);
        NameOrder::Same
    } else if la < lb {
        assert(a@ != b@);
        NameOrder::Before
    } else {
        assert(a@ != b@);
        NameOrder::After
    }
}

/// Puts `name` at its place in a sorted list, unless the list holds it
/// already.
fn insert_sorted(list: &mut Vec<String>, name: String)
    requires
        strictly_sorted(names_of(old(list)@)),
    ensures
        strictly_sorted(names_of(final(list)@)),
        forall|other: Seq<char>|
            names_of(final(list)@).contains(other) <==> (names_of(old(list)@).contains(other) || other
                == name@),
{
    let ghost before = names_of(list@);
    let ghost wanted = name@;
    let mut p: usize = 0;
    let mut end: usize = list.len();
    // Every name before `p` stands before the new one, every name from `end`
    // on stands after it.
    while p < end
        invariant
            p <= end <= list.len(),
            list@ == old(list)@,
            before == names_of(list@),
            wanted == name@,
            strictly_sorted(before),
            forall|i: int| 0 <= i < p ==> name_lt(#[trigger] before[i], wanted),
            forall|i: int| end <= i < before.len() ==> name_lt(wanted, #[trigger] before[i]),
        decreases end - p,
    {
        let middle = p + (end - p) / 2;
        assert(before[middle as int] == list@[middle as int]@);
        match name_order(list[middle].as_str(), name.as_str()) {
            NameOrder::Before => {
                assert forall|i: int| 0 <= i < middle + 1 implies name_lt(
                    #[trigger] before[i],
                    wanted,
                ) by {
                    if i < middle {
                        assert(name_lt(before[i], before[middle as int]));
                        lemma_name_lt_transitive(before[i], before[middle as int], wanted);
                    }
                }
                p = middle + 1;
            },
            NameOrder::Same => {
                return ;
            },
            NameOrder::After => {
                assert forall|i: int| middle <= i < before.len() implies name_lt(
                    wanted,
                    #[trigger] before[i],
                ) by {
                    if i > middle {
                        assert(name_lt(before[middle as int], before[i]));
                        lemma_name_lt_transitive(wanted, before[middle as int], before[i]);
                    }
                }
                end = middle;
            },
        }
    }
    list.insert(p, name);
    proof {
        let after = names_of(list@);
        assert(after =~= before.insert(p as int, wanted));
        assert forall|i: int, j: int| 0 <= i < j < after.len() implies name_lt(
            #[trigger] after[i],
            #[trigger] after[j],
        ) by {
            if j < p {
                assert(name_lt(before[i], before[j]));
            } else if j == p {
            } else if i == p {
                assert(name_lt(wanted, before[j - 1]));
            } else if i < p {
                assert(name_lt(before[i], before[j - 1]));
            } else {
                assert(name_lt(before[i - 1], before[j - 1]));
            }
        }
        assert forall|other: Seq<char>|
            after.contains(other) <==> (before.contains(other) || other == wanted) by {
            if after.contains(other) {
                let i = choose|i: int| 0 <= i < after.len() && after[i] == other;
                if i < p {
                    assert(before[i] == other);
                } else if i > p {
                    assert(before[i - 1] == other);
                }
            }
            if before.contains(other) {
                let i = choose|i: int| 0 <= i < before.len() && before[i] == other;
                if i < p {
                    assert(after[i] == other);
                } else {
                    assert(after[i + 1] == other);
                }
            }
            if other == wanted {
                assert(after[p as int] == other);
            }
        }
    }
}

/// Lists the audio files of a directory listing: the names of the regular
/// files that carry the audio extension, each once, in display order.  A
/// listing without such files gives the empty list.
pub fn get_mp3_files(entries: &Vec<DirEntry>) -> (files: Vec<String>)
    ensures
        is_file_list(entries@, names_of(files@)),
        names_of(files@).no_duplicates(),
{
    let mut files: Vec<String> = Vec::new();
    let mut i: usize = 0;
    while i < entries.len()
        invariant
            i <= entries.len(),
            strictly_sorted(names_of(files@)),
            forall|name: Seq<char>|
                names_of(files@).contains(name) <==> eligible_within(entries@, i as int, name),
        decreases entries.len() - i,
    {
        let entry = &entries[i];
        let ghost before = names_of(files@);
        if entry.is_file && has_mp3_extension(entry.name.as_str()) {
            insert_sorted(&mut files, entry.name.clone());
        }
        proof {
            let after = names_of(files@);
            assert forall|name: Seq<char>|
                after.contains(name) <==> eligible_within(entries@, i + 1, name) by {
                let taken = entry.is_file && is_mp3_name(entry.name@);
                assert(after.contains(name) <==> (before.contains(name) || (taken && name
                    == entry.name@)));
                if eligible_within(entries@, i + 1, name) {
                    let w = choose|w: int|
                        0 <= w < i + 1 && w < entries@.len() && (#[trigger] entries@[w]).is_file
                            && entries@[w].name@ == name && is_mp3_name(name);
                    if w < i {
                        assert(eligible_within(entries@, i as int, name));
                    }
                }
                if before.contains(name) {
                    let w = choose|w: int|
                        0 <= w < i && w < entries@.len() && (#[trigger] entries@[w]).is_file
                            && entries@[w].name@ == name && is_mp3_name(name);
                    assert(eligible_within(entries@, i + 1, name));
                }
                if taken && name == entry.name@ {
                    assert(entries@[i as int].is_file);
                    assert(eligible_within(entries@, i + 1, name));
                }
            }
        }
        i = i + 1;
    }
    proof {
        lemma_sorted_is_duplicate_free(names_of(files@));
    }
    files
}

} // verus!
