//! Why rotation by name is rotation by age: the names of saved outputs sort by time.
use crate::rotation::{is_log_index, is_log_name, log_count, log_suffix, name_before, older};
use crate::rotation::{lemma_name_order_irreflexive, lemma_name_order_transitive, rotates_out};
use crate::tee::{file_name_of, law_slug_is_safe};
use crate::text::decimal;
use vstd::prelude::*;
use vstd::utf8::{encode_utf8, is_ascii_chars, is_ascii_chars_encode_utf8};

verus! {

/// The number that the first `digits` decimal digits of `n` denote.
pub open spec fn leading(n: nat, digits: nat) -> nat
    decreases n,
{
    if n < 10 || decimal(n).len() <= digits {
        n
    } else {
        leading(n / 10, digits)
    }
}

/// The bytes of the name of a saved output.
pub open spec fn file_name_bytes(epoch: nat, command_slug: Seq<char>) -> Seq<u8> {
    encode_utf8(file_name_of(epoch, command_slug))
}

/// Decimal notation is ASCII and not empty.
proof fn lemma_decimal_ascii(n: nat)
    ensures
        decimal(n).len() >= 1,
        is_ascii_chars(decimal(n)),
    decreases n,
{
    if n >= 10 {
        lemma_decimal_ascii(n / 10);
    }
}

/// The leading digits of a number are the first characters of its notation.
proof fn lemma_leading(n: nat, digits: nat)
    requires
        1 <= digits <= decimal(n).len(),
    ensures
        decimal(leading(n, digits)) == decimal(n).take(digits as int),
    decreases n,
{
    if n < 10 || decimal(n).len() <= digits {
        assert(decimal(n).take(digits as int) =~= decimal(n));
    } else {
        lemma_leading(n / 10, digits);
        assert(decimal(n).take(digits as int) =~= decimal(n / 10).take(digits as int));
    }
}

/// Of two numbers with equally many digits, the smaller has the smaller digit where their
/// notations first differ.
proof fn lemma_decimal_order(a: nat, b: nat) -> (at: int)
    requires
        a < b,
        decimal(a).len() == decimal(b).len(),
    ensures
        0 <= at < decimal(a).len(),
        forall|i: int| 0 <= i < at ==> decimal(a)[i] == decimal(b)[i],
        decimal(a)[at] < decimal(b)[at],
    decreases b,
{
    lemma_decimal_ascii(a / 10);
    lemma_decimal_ascii(b / 10);
    if b < 10 {
        0
    } else if a / 10 == b / 10 {
        decimal(a).len() - 1
    } else {
        lemma_decimal_order(a / 10, b / 10)
    }
}

/// A name comes before another if it has the smaller byte where they first differ.
proof fn lemma_first_difference(a: Seq<u8>, b: Seq<u8>, at: int)
    requires
        0 <= at < a.len(),
        at < b.len(),
        forall|i: int| 0 <= i < at ==> a[i] == b[i],
        a[at] < b[at],
    ensures
        name_before(a, b),
    decreases at,
{
    if at > 0 {
        let a1 = a.drop_first();
        let b1 = b.drop_first();
        assert forall|i: int| 0 <= i < at - 1 implies a1[i] == b1[i] by {
            assert(a[i + 1] == b[i + 1]);
        }
        lemma_first_difference(a1, b1, at - 1);
    }
}

/// The name of a saved output is ASCII, so its bytes are its characters.
proof fn lemma_file_name_bytes(epoch: nat, command_slug: Seq<char>)
    ensures
        file_name_bytes(epoch, command_slug).len() == file_name_of(epoch, command_slug).len(),
        forall|i: int|
            0 <= i < file_name_of(epoch, command_slug).len() ==> #[trigger] file_name_bytes(
                epoch,
                command_slug,
            )[i] == file_name_of(epoch, command_slug)[i] as u8,
        is_ascii_chars(file_name_of(epoch, command_slug)),
{
    reveal_strlit("_");
    reveal_strlit(".log");
    lemma_decimal_ascii(epoch);
    law_slug_is_safe(command_slug);
    is_ascii_chars_encode_utf8(file_name_of(epoch, command_slug));
}

// ---------------------------------------------------------------------------
// Laws
// ---------------------------------------------------------------------------

/// Every saved output has the extension by which rotation finds it.
pub proof fn law_saved_outputs_rotate(epoch: nat, command_slug: Seq<char>)
    ensures
        is_log_name(file_name_bytes(epoch, command_slug)),
{
    reveal_strlit("_");
    reveal_strlit(".log");
    lemma_decimal_ascii(epoch);
    lemma_file_name_bytes(epoch, command_slug);
    let name = file_name_of(epoch, command_slug);
    let bytes = file_name_bytes(epoch, command_slug);
    let n = bytes.len() as int;
    assert(name[n - 4] == '.' && name[n - 3] == 'l' && name[n - 2] == 'o' && name[n - 1] == 'g');
    assert(bytes.skip(n - 4) =~= log_suffix());
}

/// The names of saved outputs sort by time, whatever the commands: the earlier one comes first.
///
/// The times must not be so far apart that the earlier one, with fewer digits, does not come
/// before the leading digits of the later one. Times with equally many digits never are.
pub proof fn law_names_sort_by_time(
    earlier: nat,
    later: nat,
    earlier_slug: Seq<char>,
    later_slug: Seq<char>,
)
    requires
        decimal(earlier).len() <= decimal(later).len(),
        earlier < leading(later, decimal(earlier).len()),
    ensures
        name_before(
            file_name_bytes(earlier, earlier_slug),
            file_name_bytes(later, later_slug),
        ),
{
    let digits = decimal(earlier).len();
    lemma_decimal_ascii(earlier);
    lemma_leading(later, digits);
    let at = lemma_decimal_order(earlier, leading(later, digits));
    let a = file_name_of(earlier, earlier_slug);
    let b = file_name_of(later, later_slug);
    lemma_file_name_bytes(earlier, earlier_slug);
    lemma_file_name_bytes(later, later_slug);
    assert forall|i: int| 0 <= i < digits implies a[i] == decimal(earlier)[i] && b[i] == decimal(
        leading(later, digits),
    )[i] by {
        assert(decimal(leading(later, digits))[i] == decimal(later)[i]);
    }
    lemma_first_difference(
        file_name_bytes(earlier, earlier_slug),
        file_name_bytes(later, later_slug),
        at,
    );
}

/// Of two times with equally many digits (such as any two between 2001 and 2286) the names sort by
/// time.
pub proof fn law_names_sort_by_time_of_equal_digits(
    earlier: nat,
    later: nat,
    earlier_slug: Seq<char>,
    later_slug: Seq<char>,
)
    requires
        earlier < later,
        decimal(earlier).len() == decimal(later).len(),
    ensures
        name_before(
            file_name_bytes(earlier, earlier_slug),
            file_name_bytes(later, later_slug),
        ),
{
    law_names_sort_by_time(earlier, later, earlier_slug, later_slug);
}

/// After rotation at most `max_files` log files are left, and all of them where no more were there.
pub proof fn law_rotation_leaves_max(names: Seq<Seq<u8>>, max_files: nat, removed: Seq<usize>)
    requires
        rotates_out(names, max_files, removed),
    ensures
        log_count(names) - removed.len() == (if log_count(names) < max_files {
            log_count(names)
        } else {
            max_files
        }),
{
}

/// Rotation touches log files only, each once.
pub proof fn law_rotation_removes_distinct_logs(
    names: Seq<Seq<u8>>,
    max_files: nat,
    removed: Seq<usize>,
)
    requires
        rotates_out(names, max_files, removed),
    ensures
        forall|k: int| 0 <= k < removed.len() ==> is_log_index(names, #[trigger] removed[k] as int),
        removed.no_duplicates(),
{
    assert forall|j: int, k: int|
        0 <= j < removed.len() && 0 <= k < removed.len() && j != k implies removed[j]
        != removed[k] by {
        lemma_name_order_irreflexive(names[removed[j] as int]);
        if j < k {
            assert(older(names, removed[j] as int, removed[k] as int));
        } else {
            assert(older(names, removed[k] as int, removed[j] as int));
        }
    }
}

/// No file leaves before an older one: where a log file leaves, every log file that stays is newer.
pub proof fn law_rotation_removes_oldest(
    names: Seq<Seq<u8>>,
    max_files: nat,
    removed: Seq<usize>,
    gone: usize,
    left: usize,
)
    requires
        rotates_out(names, max_files, removed),
        removed.contains(gone),
        is_log_index(names, left as int),
        !removed.contains(left),
    ensures
        older(names, gone as int, left as int),
{
    let k = choose|k: int| 0 <= k < removed.len() && removed[k] == gone;
    assert(older(names, removed[k] as int, left as int));
}

/// The listing alone decides which files leave, and in which order.
pub proof fn law_rotation_is_determined(
    names: Seq<Seq<u8>>,
    max_files: nat,
    one: Seq<usize>,
    other: Seq<usize>,
)
    requires
        rotates_out(names, max_files, one),
        rotates_out(names, max_files, other),
    ensures
        one == other,
{
    lemma_rotation_prefix(names, max_files, one, other, one.len() as int);
    assert(one =~= other);
}

/// Of two files, at most one leaves before the other.
proof fn lemma_older_asymmetric(names: Seq<Seq<u8>>, i: int, j: int)
    ensures
        older(names, i, j) ==> !older(names, j, i),
{
    lemma_name_order_irreflexive(names[i]);
    if name_before(names[i], names[j]) && name_before(names[j], names[i]) {
        lemma_name_order_transitive(names[i], names[j], names[i]);
    }
}

/// Two rotations of the same listing agree on their first `n` files.
proof fn lemma_rotation_prefix(
    names: Seq<Seq<u8>>,
    max_files: nat,
    one: Seq<usize>,
    other: Seq<usize>,
    n: int,
)
    requires
        rotates_out(names, max_files, one),
        rotates_out(names, max_files, other),
        0 <= n <= one.len(),
    ensures
        forall|k: int| 0 <= k < n ==> one[k] == other[k],
    decreases n,
{
    if n > 0 {
        lemma_rotation_prefix(names, max_files, one, other, n - 1);
        let at = n - 1;
        let a = one[at];
        let b = other[at];
        if a != b {
            lemma_not_later(names, max_files, one, other, at);
            lemma_not_later(names, max_files, other, one, at);
            lemma_older_asymmetric(names, a as int, b as int);
        }
    }
}

/// Where two rotations first differ, the file of the first is older than that of the second.
proof fn lemma_not_later(
    names: Seq<Seq<u8>>,
    max_files: nat,
    one: Seq<usize>,
    other: Seq<usize>,
    at: int,
)
    requires
        rotates_out(names, max_files, one),
        rotates_out(names, max_files, other),
        0 <= at < one.len(),
        forall|k: int| 0 <= k < at ==> one[k] == other[k],
        one[at] != other[at],
    ensures
        older(names, one[at] as int, other[at] as int),
{
    let b = other[at];
    if one.contains(b) {
        let j = choose|j: int| 0 <= j < one.len() && one[j] == b;
        if j < at {
            law_rotation_removes_distinct_logs(names, max_files, other);
            assert(other[j] == other[at]);
        }
        assert(older(names, one[at] as int, one[j] as int));
    } else {
        assert(is_log_index(names, b as int));
        assert(older(names, one[at] as int, b as int));
    }
}

} // verus!
