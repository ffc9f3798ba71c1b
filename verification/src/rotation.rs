//! Rotation of saved outputs: which files leave a directory that holds too many.
//!
//! A file name is the sequence of its bytes, so that names that are not UTF-8 count too.
use vstd::prelude::*;

verus! {

/// The bytes of ".log".
pub open spec fn log_suffix() -> Seq<u8> {
    seq![0x2eu8, 0x6cu8, 0x6fu8, 0x67u8]
}

/// Whether a file name has the extension `log`: it ends with ".log", and that is not all of it.
pub open spec fn is_log_name(name: Seq<u8>) -> bool {
    name.len() > 4 && name.skip(name.len() - 4) == log_suffix()
}

/// Whether `a` comes before `b` in the order of file names, which goes by the first byte in which
/// they differ; a name comes before every longer name that begins with it.
pub open spec fn name_before(a: Seq<u8>, b: Seq<u8>) -> bool
    decreases a.len(),
{
    if b.len() == 0 {
        false
    } else if a.len() == 0 {
        true
    } else if a[0] != b[0] {
        a[0] < b[0]
    } else {
        name_before(a.drop_first(), b.drop_first())
    }
}

/// The bytes of the names of a directory.
pub open spec fn names_of(names: Seq<Vec<u8>>) -> Seq<Seq<u8>> {
    names.map_values(|name: Vec<u8>| name@)
}

/// Whether file `i` leaves before file `j`: the one whose name comes first, and of two with the
/// same name the one listed first.
pub open spec fn older(names: Seq<Seq<u8>>, i: int, j: int) -> bool {
    name_before(names[i], names[j]) || (names[i] == names[j] && i < j)
}

/// How many of `names` have the extension `log`.
pub open spec fn log_count(names: Seq<Seq<u8>>) -> nat
    decreases names.len(),
{
    if names.len() == 0 {
        0
    } else {
        log_count(names.drop_last()) + (if is_log_name(names.last()) {
            1nat
        } else {
            0
        })
    }
}

/// Whether `i` is the index of a log file.
pub open spec fn is_log_index(names: Seq<Seq<u8>>, i: int) -> bool {
    0 <= i < names.len() && is_log_name(names[i])
}

/// Whether `removed` are the log files that leave a directory where `max_files` may stay: as many
/// as there are too many, from the oldest on, the oldest first.
pub open spec fn rotates_out(names: Seq<Seq<u8>>, max_files: nat, removed: Seq<usize>) -> bool {
    &&& removed.len() == (if log_count(names) > max_files {
        log_count(names) - max_files
    } else {
        0
    })
    &&& forall|k: int| 0 <= k < removed.len() ==> is_log_index(names, #[trigger] removed[k] as int)
    &&& forall|j: int, k: int|
        0 <= j < k < removed.len() ==> older(
            names,
            #[trigger] removed[j] as int,
            #[trigger] removed[k] as int,
        )
    &&& forall|k: int, i: usize|
        #![trigger removed[k], removed.contains(i)]
        0 <= k < removed.len() && is_log_index(names, i as int) && !removed.contains(i) ==> older(
            names,
            removed[k] as int,
            i as int,
        )
}

// ---------------------------------------------------------------------------
// The order of names
// ---------------------------------------------------------------------------

/// No name comes before itself.
pub proof fn lemma_name_order_irreflexive(a: Seq<u8>)
    ensures
        !name_before(a, a),
    decreases a.len(),
{
    if a.len() > 0 {
        lemma_name_order_irreflexive(a.drop_first());
    }
}

/// Of two different names, one comes before the other.
pub proof fn lemma_name_order_total(a: Seq<u8>, b: Seq<u8>)
    ensures
        name_before(a, b) || name_before(b, a) || a == b,
    decreases a.len(),
{
    if a.len() == 0 || b.len() == 0 {
        if a.len() == b.len() {
            assert(a =~= b);
        }
    } else if a[0] == b[0] {
        lemma_name_order_total(a.drop_first(), b.drop_first());
        if a.drop_first() == b.drop_first() {
            assert(a =~= seq![a[0]] + a.drop_first());
            assert(b =~= seq![b[0]] + b.drop_first());
        }
    }
}

/// The order of names is transitive.
pub proof fn lemma_name_order_transitive(a: Seq<u8>, b: Seq<u8>, c: Seq<u8>)
    requires
        name_before(a, b),
        name_before(b, c),
    ensures
        name_before(a, c),
    decreases a.len(),
{
    if a.len() > 0 && a[0] == b[0] && b[0] == c[0] {
        lemma_name_order_transitive(a.drop_first(), b.drop_first(), c.drop_first());
    }
}

/// The order in which files leave is transitive.
proof fn lemma_older_transitive(names: Seq<Seq<u8>>, i: int, j: int, k: int)
    requires
        older(names, i, j),
        older(names, j, k),
    ensures
        older(names, i, k),
{
    if name_before(names[i], names[j]) && name_before(names[j], names[k]) {
        lemma_name_order_transitive(names[i], names[j], names[k]);
    }
}

/// Of two different files, one leaves before the other.
proof fn lemma_older_total(names: Seq<Seq<u8>>, i: int, j: int)
    requires
        i != j,
    ensures
        older(names, i, j) || older(names, j, i),
{
    lemma_name_order_total(names[i], names[j]);
}

/// Whether `a` comes before `b` in the order of file names.
pub fn comes_before(a: &Vec<u8>, b: &Vec<u8>) -> (res: bool)
    ensures
        res == name_before(a@, b@),
{
    let mut i: usize = 0;
    assert(a@.skip(0) =~= a@);
    assert(b@.skip(0) =~= b@);
    while i < a.len() && i < b.len()
        invariant
            i <= a.len(),
            i <= b.len(),
            name_before(a@, b@) == name_before(a@.skip(i as int), b@.skip(i as int)),
        decreases a.len() - i,
    {
        if a[i] != b[i] {
            return a[i] < b[i];
        }
        assert(a@.skip(i as int).drop_first() =~= a@.skip(i + 1));
        assert(b@.skip(i as int).drop_first() =~= b@.skip(i + 1));
        i = i + 1;
    }
    i < b.len()
}

/// Whether a file name has the extension `log`.
pub fn has_log_extension(name: &Vec<u8>) -> (res: bool)
    ensures
        res == is_log_name(name@),
{
    let len: usize = name.len();
    if len <= 4 {
        return false;
    }
    let ghost tail = name@.skip(len - 4);
    let res: bool = name[len - 4] == 0x2eu8 && name[len - 3] == 0x6cu8 && name[len - 2] == 0x6fu8
        && name[len - 1] == 0x67u8;
    assert(tail.len() == 4);
    if res {
        assert(tail =~= log_suffix());
    } else {
        assert(tail[0] == name@[len - 4] && tail[1] == name@[len - 3] && tail[2] == name@[len - 2]
            && tail[3] == name@[len - 1]);
        assert(log_suffix()[0] == 0x2eu8 && log_suffix()[1] == 0x6cu8 && log_suffix()[2] == 0x6fu8
            && log_suffix()[3] == 0x67u8);
    }
    res
}

// ---------------------------------------------------------------------------
// Rotation
// ---------------------------------------------------------------------------

/// How many log files have not been chosen.
spec fn staying_count(names: Seq<Seq<u8>>, staying: Seq<bool>) -> nat
    decreases names.len(),
{
    if names.len() == 0 {
        0
    } else {
        staying_count(names.drop_last(), staying) + (if staying[names.len() - 1] {
            1nat
        } else {
            0
        })
    }
}

/// At first every log file stays.
proof fn lemma_all_stay(names: Seq<Seq<u8>>, staying: Seq<bool>)
    requires
        names.len() <= staying.len(),
        forall|i: int| 0 <= i < names.len() ==> staying[i] == is_log_name(names[i]),
    ensures
        staying_count(names, staying) == log_count(names),
    decreases names.len(),
{
    if names.len() > 0 {
        lemma_all_stay(names.drop_last(), staying);
    }
}

/// Choosing one file leaves one less.
proof fn lemma_one_leaves(names: Seq<Seq<u8>>, staying: Seq<bool>, i: int)
    requires
        0 <= i < staying.len(),
        names.len() <= staying.len(),
        staying[i],
    ensures
        staying_count(names, staying.update(i, false)) == staying_count(names, staying) - (if i
            < names.len() {
            1int
        } else {
            0
        }),
    decreases names.len(),
{
    if names.len() > 0 {
        lemma_one_leaves(names.drop_last(), staying, i);
    }
}

/// Where files stay, there is one.
proof fn lemma_some_stays(names: Seq<Seq<u8>>, staying: Seq<bool>)
    requires
        staying_count(names, staying) > 0,
    ensures
        exists|i: int| 0 <= i < names.len() && staying[i],
    decreases names.len(),
{
    if !staying[names.len() - 1] {
        lemma_some_stays(names.drop_last(), staying);
    }
}

/// The oldest file that stays.
fn oldest_staying(names: &Vec<Vec<u8>>, staying: &Vec<bool>) -> (best: usize)
    requires
        names.len() == staying.len(),
        exists|i: int| 0 <= i < staying.len() && staying[i],
    ensures
        best < names.len(),
        staying[best as int],
        forall|j: int|
            0 <= j < names.len() && j != best && #[trigger] staying[j] ==> older(
                names_of(names@),
                best as int,
                j,
            ),
{
    let ghost all = names_of(names@);
    let mut best: usize = 0;
    while !staying[best]
        invariant
            best < staying.len(),
            exists|i: int| best <= i < staying.len() && staying[i],
            forall|j: int| 0 <= j < best ==> !staying[j],
        decreases staying.len() - best,
    {
        best = best + 1;
    }
    let mut i: usize = best + 1;
    while i < names.len()
        invariant
            best < i <= names.len(),
            names.len() == staying.len(),
            all == names_of(names@),
            staying[best as int],
            forall|j: int|
                0 <= j < i && j != best && #[trigger] staying[j] ==> older(all, best as int, j),
        decreases names.len() - i,
    {
        if staying[i] {
            if comes_before(&names[i], &names[best]) {
                proof {
                    assert(older(all, i as int, best as int));
                    assert forall|j: int|
                        0 <= j < i + 1 && j != i && #[trigger] staying[j] implies older(
                        all,
                        i as int,
                        j,
                    ) by {
                        if j != best {
                            lemma_older_transitive(all, i as int, best as int, j);
                        }
                    }
                }
                best = i;
            } else {
                proof {
                    lemma_older_total(all, best as int, i as int);
                }
            }
        }
        i = i + 1;
    }
    best
}

/// Rotates old tee files: given the names of the files of a directory, chooses the log files to
/// delete so that only the last `max_files` are kept, by their indices, oldest first.
pub fn cleanup_old_files(names: &Vec<Vec<u8>>, max_files: usize) -> (removed: Vec<usize>)
    ensures
        rotates_out(names_of(names@), max_files as nat, removed@),
{
    let ghost all = names_of(names@);
    let mut staying: Vec<bool> = Vec::new();
    let mut logs: usize = 0;
    let mut i: usize = 0;
    while i < names.len()
        invariant
            i <= names.len(),
            all == names_of(names@),
            staying.len() == i,
            logs <= i,
            logs == log_count(all.take(i as int)),
            forall|j: int| 0 <= j < i ==> #[trigger] staying[j] == is_log_name(all[j]),
        decreases names.len() - i,
    {
        let is_log: bool = has_log_extension(&names[i]);
        assert(all.take(i + 1).drop_last() =~= all.take(i as int));
        if is_log {
            logs = logs + 1;
        }
        staying.push(is_log);
        i = i + 1;
    }
    assert(all.take(i as int) =~= all);
    let mut removed: Vec<usize> = Vec::new();
    proof {
        lemma_all_stay(all, staying@);
    }
    while logs > max_files
        invariant
            all == names_of(names@),
            staying.len() == names.len(),
            logs == staying_count(all, staying@),
            logs + removed.len() == log_count(all),
            log_count(all) > max_files ==> logs >= max_files,
            log_count(all) <= max_files ==> removed.len() == 0,
            forall|j: int|
                0 <= j < all.len() ==> #[trigger] staying[j] == (is_log_name(all[j])
                    && !removed@.contains(j as usize)),
            forall|k: int|
                0 <= k < removed.len() ==> is_log_index(all, #[trigger] removed[k] as int),
            forall|j: int, k: int|
                0 <= j < k < removed.len() ==> older(
                    all,
                    #[trigger] removed[j] as int,
                    #[trigger] removed[k] as int,
                ),
            forall|k: int, j: int|
                #![trigger removed[k], staying[j]]
                0 <= k < removed.len() && 0 <= j < all.len() && staying[j] ==> older(
                    all,
                    removed[k] as int,
                    j,
                ),
        decreases logs,
    {
        proof {
            lemma_some_stays(all, staying@);
        }
        let next: usize = oldest_staying(names, &staying);
        proof {
            lemma_one_leaves(all, staying@, next as int);
        }
        let ghost staying_before = staying@;
        let ghost removed_before = removed@;
        staying.set(next, false);
        removed.push(next);
        logs = logs - 1;
        proof {
            assert forall|j: int| 0 <= j < all.len() implies #[trigger] staying[j] == (is_log_name(
                all[j],
            ) && !removed@.contains(j as usize)) by {
                if j == next {
                    assert(removed@[removed@.len() - 1] == next);
                    assert(removed@.contains(j as usize));
                } else {
                    assert(staying_before[j] == staying[j]);
                    if removed_before.contains(j as usize) {
                        let k = choose|k: int|
                            0 <= k < removed_before.len() && removed_before[k] == j as usize;
                        assert(removed@[k] == j as usize);
                    }
                    if removed@.contains(j as usize) {
                        let k = choose|k: int| 0 <= k < removed@.len() && removed@[k] == j as usize;
                        assert(removed_before[k] == j as usize);
                    }
                }
            }
            assert forall|k: int, j: int|
                #![trigger removed[k], staying[j]]
                0 <= k < removed.len() && 0 <= j < all.len() && staying[j] implies older(
                all,
                removed[k] as int,
                j,
            ) by {
                assert(staying_before[j]);
                if k < removed_before.len() {
                    assert(removed[k] == removed_before[k]);
                }
            }
            assert forall|j: int, k: int| 0 <= j < k < removed.len() implies older(
                all,
                #[trigger] removed[j] as int,
                #[trigger] removed[k] as int,
            ) by {
                assert(removed[j] == removed_before[j]);
                if k < removed_before.len() {
                    assert(removed[k] == removed_before[k]);
                } else {
                    assert(staying_before[next as int]);
                }
            }
        }
    }
    proof {
        assert forall|k: int, i: usize|
            #![trigger removed@[k], removed@.contains(i)]
            0 <= k < removed@.len() && is_log_index(all, i as int) && !removed@.contains(
                i,
            ) implies older(all, removed@[k] as int, i as int) by {
            assert(staying[i as int]);
            assert(removed[k] == removed@[k]);
        }
    }
    removed
}

} // verus!
