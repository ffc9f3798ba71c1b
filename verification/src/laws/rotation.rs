//! Laws on the rotation of saved outputs.
use crate::chronology::{file_name_bytes, law_names_sort_by_time, law_rotation_removes_distinct_logs};
use crate::chronology::{law_names_sort_by_time_of_equal_digits, law_saved_outputs_rotate, leading};
use crate::rotation::{cleanup_old_files, comes_before, has_log_extension, is_log_name, log_count};
use crate::rotation::{lemma_name_order_irreflexive, lemma_name_order_transitive};
use crate::rotation::{log_suffix, name_before, names_of, older};
use crate::tee::tee_file_name;
use crate::text::decimal;
use vstd::prelude::*;
use vstd::utf8::encode_utf8;

verus! {

/// Whether a name ends with the bytes of ".log" and is longer than that.
pub open spec fn ends_with_log(name: Seq<u8>) -> bool {
    &&& name.len() > 4
    &&& name[name.len() - 4] == '.' as u8
    &&& name[name.len() - 3] == 'l' as u8
    &&& name[name.len() - 2] == 'o' as u8
    &&& name[name.len() - 1] == 'g' as u8
}

/// Whether `a` sorts before `b` because of what stands at `at`: up to there they agree, and there
/// `a` ends or has the smaller byte.
pub open spec fn sorts_before_at(a: Seq<u8>, b: Seq<u8>, at: int) -> bool {
    &&& 0 <= at <= a.len()
    &&& at < b.len()
    &&& forall|i: int| 0 <= i < at ==> a[i] == b[i]
    &&& at == a.len() || a[at] < b[at]
}

proof fn lemma_log_name(name: Seq<u8>)
    ensures
        is_log_name(name) == ends_with_log(name),
{
    if name.len() > 4 {
        let tail = name.skip(name.len() - 4);
        assert(tail.len() == 4);
        assert(tail[0] == name[name.len() - 4] && tail[1] == name[name.len() - 3] && tail[2]
            == name[name.len() - 2] && tail[3] == name[name.len() - 1]);
        assert(log_suffix() =~= seq!['.' as u8, 'l' as u8, 'o' as u8, 'g' as u8]);
        if ends_with_log(name) {
            assert(tail =~= log_suffix());
        } else {
            assert(log_suffix()[0] == '.' as u8 && log_suffix()[1] == 'l' as u8 && log_suffix()[2]
                == 'o' as u8 && log_suffix()[3] == 'g' as u8);
        }
    }
}

proof fn lemma_sorts_before(a: Seq<u8>, b: Seq<u8>)
    ensures
        name_before(a, b) ==> exists|at: int| sorts_before_at(a, b, at),
    decreases a.len(),
{
    if name_before(a, b) {
        if a.len() == 0 || a[0] != b[0] {
            assert(sorts_before_at(a, b, 0));
        } else {
            let a1 = a.drop_first();
            let b1 = b.drop_first();
            lemma_sorts_before(a1, b1);
            let at = choose|at: int| sorts_before_at(a1, b1, at);
            assert forall|i: int| 0 <= i < at + 1 implies a[i] == b[i] by {
                if i > 0 {
                    assert(a1[i - 1] == b1[i - 1]);
                }
            }
            assert(sorts_before_at(a, b, at + 1));
        }
    }
}

proof fn lemma_before_by_difference(a: Seq<u8>, b: Seq<u8>, at: int)
    requires
        sorts_before_at(a, b, at),
    ensures
        name_before(a, b),
    decreases at,
{
    if at > 0 {
        assert(a[0] == b[0]);
        let a1 = a.drop_first();
        let b1 = b.drop_first();
        assert forall|i: int| 0 <= i < at - 1 implies a1[i] == b1[i] by {
            assert(a[i + 1] == b[i + 1]);
        }
        assert(sorts_before_at(a1, b1, at - 1));
        lemma_before_by_difference(a1, b1, at - 1);
    }
}

/// Names compare by the first byte in which they differ, and a name comes before its extensions.
pub proof fn law_comes_before(a: &Vec<u8>, b: &Vec<u8>, res: bool)
    requires
        call_ensures(comes_before, (a, b), res),
    ensures
        res <==> exists|at: int| sorts_before_at(a@, b@, at),
{
    lemma_sorts_before(a@, b@);
    if exists|at: int| sorts_before_at(a@, b@, at) {
        let at = choose|at: int| sorts_before_at(a@, b@, at);
        lemma_before_by_difference(a@, b@, at);
    }
}

/// A file is a log file by the end of its name alone.
pub proof fn law_has_log_extension(name: &Vec<u8>, res: bool)
    requires
        call_ensures(has_log_extension, (name,), res),
    ensures
        res == ends_with_log(name@),
{
    lemma_log_name(name@);
}

proof fn lemma_log_count(names: Seq<Vec<u8>>)
    ensures
        log_count(names_of(names)) == names.filter(
            |name: Vec<u8>| ends_with_log(name@),
        ).len(),
    decreases names.len(),
{
    reveal(Seq::filter);
    if names.len() > 0 {
        lemma_log_count(names.drop_last());
        assert(names_of(names).drop_last() =~= names_of(names.drop_last()));
        lemma_log_name(names.last()@);
    }
}

/// As many files leave as there are log files beyond the maximum; they are log files, each named
/// once.
pub proof fn law_cleanup_removes_the_surplus(
    names: &Vec<Vec<u8>>,
    max_files: usize,
    removed: Vec<usize>,
)
    requires
        call_ensures(cleanup_old_files, (names, max_files), removed),
    ensures
        ({
            let logs = names@.filter(|name: Vec<u8>| ends_with_log(name@)).len();
            &&& logs <= max_files ==> removed@.len() == 0
            &&& logs > max_files ==> removed@.len() == logs - max_files
        }),
        forall|k: int|
            0 <= k < removed@.len() ==> {
                &&& (#[trigger] removed@[k]) < names@.len()
                &&& ends_with_log(names@[removed@[k] as int]@)
            },
        removed@.no_duplicates(),
{
    lemma_log_count(names@);
    law_rotation_removes_distinct_logs(names_of(names@), max_files as nat, removed@);
    assert forall|k: int| 0 <= k < removed@.len() implies {
        &&& (#[trigger] removed@[k]) < names@.len()
        &&& ends_with_log(names@[removed@[k] as int]@)
    } by {
        assert(crate::rotation::is_log_index(names_of(names@), removed@[k] as int));
        lemma_log_name(names@[removed@[k] as int]@);
    }
}

/// Of two log files of which one leaves and the other stays, the one that leaves has the name that
/// sorts first; of two with one name, the one that was listed first leaves.
pub proof fn law_cleanup_removes_the_oldest(
    names: &Vec<Vec<u8>>,
    max_files: usize,
    removed: Vec<usize>,
    gone: usize,
    left: usize,
)
    requires
        call_ensures(cleanup_old_files, (names, max_files), removed),
        removed@.contains(gone),
        left < names@.len(),
        ends_with_log(names@[left as int]@),
        !removed@.contains(left),
    ensures
        (names@[gone as int]@ == names@[left as int]@ && gone < left) || exists|at: int|
            sorts_before_at(names@[gone as int]@, names@[left as int]@, at),
{
    let all = names_of(names@);
    let k = choose|k: int| 0 <= k < removed@.len() && removed@[k] == gone;
    assert(crate::rotation::is_log_index(all, removed@[k] as int));
    lemma_log_name(names@[left as int]@);
    assert(crate::rotation::is_log_index(all, left as int));
    assert(older(all, removed@[k] as int, left as int));
    lemma_sorts_before(names@[gone as int]@, names@[left as int]@);
}

/// The files that leave are named from the one whose name sorts first on.
pub proof fn law_cleanup_goes_by_name(
    names: &Vec<Vec<u8>>,
    max_files: usize,
    removed: Vec<usize>,
    j: int,
    k: int,
)
    requires
        call_ensures(cleanup_old_files, (names, max_files), removed),
        0 <= j < k < removed@.len(),
    ensures
        (names@[removed@[j] as int]@ == names@[removed@[k] as int]@ && removed@[j] < removed@[k])
            || exists|at: int|
            sorts_before_at(
                names@[removed@[j] as int]@,
                names@[removed@[k] as int]@,
                at,
            ),
{
    let all = names_of(names@);
    assert(crate::rotation::is_log_index(all, removed@[j] as int));
    assert(crate::rotation::is_log_index(all, removed@[k] as int));
    assert(older(all, removed@[j] as int, removed@[k] as int));
    lemma_sorts_before(names@[removed@[j] as int]@, names@[removed@[k] as int]@);
}

/// Rotation never removes a later saved output while an earlier one stays, whatever the commands.
///
/// The times must not be so far apart that the earlier one, with fewer digits, does not come before
/// the leading digits of the later one.
pub proof fn law_later_output_stays_longer(
    names: &Vec<Vec<u8>>,
    max_files: usize,
    removed: Vec<usize>,
    i: usize,
    j: usize,
    earlier: u64,
    later: u64,
    earlier_slug: &str,
    later_slug: &str,
    earlier_name: String,
    later_name: String,
)
    requires
        call_ensures(cleanup_old_files, (names, max_files), removed),
        call_ensures(tee_file_name, (earlier, earlier_slug), earlier_name),
        call_ensures(tee_file_name, (later, later_slug), later_name),
        i < names@.len(),
        j < names@.len(),
        names@[i as int]@ == encode_utf8(earlier_name@),
        names@[j as int]@ == encode_utf8(later_name@),
        decimal(earlier as nat).len() <= decimal(later as nat).len(),
        earlier < leading(later as nat, decimal(earlier as nat).len()),
        removed@.contains(j),
    ensures
        removed@.contains(i),
{
    let all = names_of(names@);
    law_names_sort_by_time(earlier as nat, later as nat, earlier_slug@, later_slug@);
    law_saved_outputs_rotate(earlier as nat, earlier_slug@);
    assert(all[i as int] == file_name_bytes(earlier as nat, earlier_slug@));
    assert(all[j as int] == file_name_bytes(later as nat, later_slug@));
    if !removed@.contains(i) {
        let k = choose|k: int| 0 <= k < removed@.len() && removed@[k] == j;
        assert(crate::rotation::is_log_index(all, i as int));
        assert(older(all, removed@[k] as int, i as int));
        lemma_name_order_irreflexive(all[i as int]);
        if name_before(all[j as int], all[i as int]) {
            lemma_name_order_transitive(all[i as int], all[j as int], all[i as int]);
        }
    }
}

proof fn lemma_ten_digits(n: nat)
    requires
        1_000_000_000 <= n < 10_000_000_000,
    ensures
        decimal(n).len() == 10,
{
    reveal_with_fuel(decimal, 10);
}

proof fn lemma_leading_of_all_digits(n: nat)
    ensures
        leading(n, decimal(n).len()) == n,
{
}

/// Of outputs saved between 2001 and 2286, rotation never removes a later one while an earlier one
/// stays, whatever the commands.
pub proof fn law_rotation_goes_by_time(
    names: &Vec<Vec<u8>>,
    max_files: usize,
    removed: Vec<usize>,
    i: usize,
    j: usize,
    earlier: u64,
    later: u64,
    earlier_slug: &str,
    later_slug: &str,
    earlier_name: String,
    later_name: String,
)
    requires
        call_ensures(cleanup_old_files, (names, max_files), removed),
        call_ensures(tee_file_name, (earlier, earlier_slug), earlier_name),
        call_ensures(tee_file_name, (later, later_slug), later_name),
        i < names@.len(),
        j < names@.len(),
        names@[i as int]@ == encode_utf8(earlier_name@),
        names@[j as int]@ == encode_utf8(later_name@),
        1_000_000_000 <= earlier < later < 10_000_000_000,
        removed@.contains(j),
    ensures
        removed@.contains(i),
{
    lemma_ten_digits(earlier as nat);
    lemma_ten_digits(later as nat);
    lemma_leading_of_all_digits(later as nat);
    law_later_output_stays_longer(
        names,
        max_files,
        removed,
        i,
        j,
        earlier,
        later,
        earlier_slug,
        later_slug,
        earlier_name,
        later_name,
    );
}

/// Of outputs saved at times with equally many digits, rotation never removes a later one while an
/// earlier one stays, whatever the commands.
pub proof fn law_rotation_goes_by_age(
    names: &Vec<Vec<u8>>,
    max_files: usize,
    removed: Vec<usize>,
    i: usize,
    j: usize,
    earlier: nat,
    later: nat,
    earlier_slug: Seq<char>,
    later_slug: Seq<char>,
)
    requires
        call_ensures(cleanup_old_files, (names, max_files), removed),
        i < names@.len(),
        j < names@.len(),
        names@[i as int]@ == file_name_bytes(earlier, earlier_slug),
        names@[j as int]@ == file_name_bytes(later, later_slug),
        earlier < later,
        decimal(earlier).len() == decimal(later).len(),
        removed@.contains(j),
    ensures
        removed@.contains(i),
{
    let all = names_of(names@);
    law_names_sort_by_time_of_equal_digits(earlier, later, earlier_slug, later_slug);
    law_saved_outputs_rotate(earlier, earlier_slug);
    assert(all[i as int] == names@[i as int]@);
    assert(all[j as int] == names@[j as int]@);
    if !removed@.contains(i) {
        let k = choose|k: int| 0 <= k < removed@.len() && removed@[k] == j;
        assert(crate::rotation::is_log_index(all, i as int));
        assert(older(all, removed@[k] as int, i as int));
        lemma_name_order_irreflexive(all[i as int]);
        if name_before(all[j as int], all[i as int]) {
            lemma_name_order_transitive(all[i as int], all[j as int], all[i as int]);
        }
    }
}

/// The newest of the listed log files stays, as long as one may stay at all.
pub proof fn law_newest_output_stays(
    names: &Vec<Vec<u8>>,
    max_files: usize,
    removed: Vec<usize>,
    newest: usize,
)
    requires
        call_ensures(cleanup_old_files, (names, max_files), removed),
        max_files > 0,
        newest < names@.len(),
        ends_with_log(names@[newest as int]@),
        forall|i: int|
            0 <= i < names@.len() && i != newest && ends_with_log(#[trigger] names@[i]@)
                ==> exists|at: int| sorts_before_at(names@[i]@, names@[newest as int]@, at),
    ensures
        !removed@.contains(newest),
{
    let all = names_of(names@);
    assert(names.len() == names@.len());
    if removed@.contains(newest) {
        let k = choose|k: int| 0 <= k < removed@.len() && removed@[k] == newest;
        assert forall|i: int| 0 <= i < names@.len() && ends_with_log(
            #[trigger] names@[i]@,
        ) implies removed@.contains(i as usize) by {
            if !removed@.contains(i as usize) {
                lemma_log_name(names@[i]@);
                assert(crate::rotation::is_log_index(all, i));
                assert(older(all, removed@[k] as int, (i as usize) as int));
                let at = choose|at: int| sorts_before_at(names@[i]@, names@[newest as int]@, at);
                lemma_before_by_difference(names@[i]@, names@[newest as int]@, at);
                assert(all[i] == names@[i]@ && all[newest as int] == names@[newest as int]@);
                lemma_name_order_irreflexive(all[i]);
                if name_before(all[newest as int], all[i]) {
                    lemma_name_order_transitive(all[i], all[newest as int], all[i]);
                }
            }
        }
        law_cleanup_removes_the_surplus(names, max_files, removed);
        lemma_removed_by_filter(names@, removed@);
    }
}

/// Where every log file is among `removed`, there are no more log files than removed ones.
proof fn lemma_removed_by_filter(names: Seq<Vec<u8>>, removed: Seq<usize>)
    requires
        forall|i: int|
            0 <= i < names.len() && ends_with_log(#[trigger] names[i]@) ==> removed.contains(
                i as usize,
            ),
        names.len() <= usize::MAX,
        removed.no_duplicates(),
    ensures
        names.filter(|name: Vec<u8>| ends_with_log(name@)).len() <= removed.len(),
    decreases names.len(),
{
    reveal(Seq::filter);
    if names.len() > 0 {
        let shorter = names.drop_last();
        let last = (names.len() - 1) as usize;
        if ends_with_log(names.last()@) {
            assert(ends_with_log(names[names.len() - 1]@));
            let k = choose|k: int| 0 <= k < removed.len() && removed[k] == last;
            let fewer = removed.remove(k);
            assert forall|i: int| 0 <= i < shorter.len() && ends_with_log(
                #[trigger] shorter[i]@,
            ) implies fewer.contains(i as usize) by {
                assert(shorter[i] == names[i]);
                let at = choose|at: int| 0 <= at < removed.len() && removed[at] == i as usize;
                if at < k {
                    assert(fewer[at] == removed[at]);
                } else {
                    assert(fewer[at - 1] == removed[at]);
                }
            }
            lemma_removed_by_filter(shorter, fewer);
        } else {
            assert forall|i: int| 0 <= i < shorter.len() && ends_with_log(
                #[trigger] shorter[i]@,
            ) implies removed.contains(i as usize) by {
                assert(shorter[i] == names[i]);
            }
            lemma_removed_by_filter(shorter, removed);
        }
    }
}

} // verus!
