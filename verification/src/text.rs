//! Text: the searches, the order and the number formatting that names and
//! messages need, over the characters of a string.

use vstd::prelude::*;

verus! {

/// `suffix` stands at the end of `text`.
pub open spec fn is_suffix(suffix: Seq<char>, text: Seq<char>) -> bool {
    &&& suffix.len() <= text.len()
    &&& text.subrange(text.len() - suffix.len(), text.len() as int) == suffix
}

/// `prefix` stands at the start of `text`.
pub open spec fn is_prefix(prefix: Seq<char>, text: Seq<char>) -> bool {
    &&& prefix.len() <= text.len()
    &&& text.subrange(0, prefix.len() as int) == prefix
}

/// `part` stands in `text` from index `at` on.
pub open spec fn occurs_at(part: Seq<char>, text: Seq<char>, at: int) -> bool {
    &&& 0 <= at <= text.len() - part.len()
    &&& text.subrange(at, at + part.len()) == part
}

/// `part` stands somewhere in `text`.
pub open spec fn is_infix(part: Seq<char>, text: Seq<char>) -> bool {
    exists|at: int| occurs_at(part, text, at)
}

/// `left` and `right` agree before index `at`, and there `left` ends or has
/// the smaller character.
pub open spec fn first_difference(left: Seq<char>, right: Seq<char>, at: int) -> bool {
    &&& 0 <= at <= left.len()
    &&& at < right.len()
    &&& forall|j: int| 0 <= j < at ==> left[j] == right[j]
    &&& at == left.len() || left[at] < right[at]
}

/// The order of strings: by code point, the first difference decides, and a
/// proper prefix comes first.
pub open spec fn text_lt(left: Seq<char>, right: Seq<char>) -> bool {
    exists|at: int| first_difference(left, right, at)
}

/// The decimal digit of a number below ten.
pub open spec fn digit(n: nat) -> char {
    ('0' as nat + n) as char
}

/// A number in decimal, without leading zeros.
pub open spec fn decimal(n: nat) -> Seq<char>
    decreases n,
{
    if n < 10 {
        seq![digit(n)]
    } else {
        decimal(n / 10).push(digit(n % 10))
    }
}

/// Numbers in decimal, separated by a comma and a space.
pub open spec fn decimal_entries(list: Seq<usize>) -> Seq<char>
    decreases list.len(),
{
    if list.len() == 0 {
        Seq::empty()
    } else if list.len() == 1 {
        decimal(list[0] as nat)
    } else {
        decimal_entries(list.drop_last()) + ", "@ + decimal(list.last() as nat)
    }
}

/// A list of numbers as it is printed: in square brackets.
pub open spec fn decimal_list(list: Seq<usize>) -> Seq<char> {
    "["@ + decimal_entries(list) + "]"@
}

/// A string as `{:?}` prints it: in double quotes, with escapes.
pub uninterp spec fn quoted(text: Seq<char>) -> Seq<char>;

/// The text is made of printable ASCII characters that are printed as they
/// are, without an escape.
pub open spec fn is_plain(text: Seq<char>) -> bool {
    forall|i: int|
        0 <= i < text.len() ==> ' ' <= #[trigger] text[i] <= '~' && text[i] != '"' && text[i] != '\''
            && text[i] != '\\'
}

/// A string as `{:?}` prints it, by `std::fmt::Debug` of `str`: in double
/// quotes, with escapes for what is not printable. A text of plain characters
/// has no escapes.
#[verifier::external_body]
pub(crate) fn quote(text: &str) -> (printed: String)
    ensures
        printed@ == quoted(text@),
        is_plain(text@) ==> printed@ == "\""@ + text@ + "\""@,
{
    format!("{text:?}")
}

/// The characters of a string.
pub fn chars_of(text: &str) -> (chars: Vec<char>)
    ensures
        chars@ == text@,
{
    let mut chars: Vec<char> = Vec::new();
    for c in it: text.chars()
        invariant
            chars@ == text@.take(it.index() as int),
            it.seq() == text@,
    {
        chars.push(c);
    }
    chars
}

/// Whether two strings hold the same characters.
pub fn same_text(left: &str, right: &str) -> (same: bool)
    ensures
        same == (left@ == right@),
{
    let a = chars_of(left);
    let b = chars_of(right);
    if a.len() != b.len() {
        return false;
    }
    matches_at(&b, &a, 0)
}

/// Whether `part` stands in `text` from index `at` on.
fn matches_at(part: &Vec<char>, text: &Vec<char>, at: usize) -> (found: bool)
    requires
        at + part@.len() <= text@.len(),
    ensures
        found == occurs_at(part@, text@, at as int),
        part@.len() == text@.len() ==> found == (text@ == part@),
{
    let total: usize = text.len();
    let mut i: usize = 0;
    while i < part.len()
        invariant
            i <= part@.len(),
            at + part@.len() <= text@.len(),
            total == text@.len(),
            forall|j: int| 0 <= j < i ==> text@[at + j] == part@[j],
        decreases part@.len() - i,
    {
        if text[at + i] != part[i] {
            assert(text@.subrange(at as int, at + part@.len())[i as int] != part@[i as int]);
            return false;
        }
        i = i + 1;
    }
    assert(text@.subrange(at as int, at + part@.len()) =~= part@);
    proof {
        if part@.len() == text@.len() {
            assert(text@ =~= part@);
        }
    }
    true
}

/// Whether `text` ends with `suffix`.
pub fn ends_with(text: &str, suffix: &str) -> (found: bool)
    ensures
        found == is_suffix(suffix@, text@),
{
    let a = chars_of(text);
    let b = chars_of(suffix);
    if b.len() > a.len() {
        return false;
    }
    matches_at(&b, &a, a.len() - b.len())
}

/// Whether `text` starts with `prefix`.
pub fn starts_with(text: &str, prefix: &str) -> (found: bool)
    ensures
        found == is_prefix(prefix@, text@),
{
    let a = chars_of(text);
    let b = chars_of(prefix);
    if b.len() > a.len() {
        return false;
    }
    matches_at(&b, &a, 0)
}

/// Whether `part` stands somewhere in `text`.
pub fn contains(text: &str, part: &str) -> (found: bool)
    ensures
        found == is_infix(part@, text@),
{
    let a = chars_of(text);
    let b = chars_of(part);
    if b.len() > a.len() {
        return false;
    }
    let last: usize = a.len() - b.len();
    let mut at: usize = 0;
    while at <= last
        invariant
            at <= last + 1,
            last == a@.len() - b@.len(),
            a@ == text@,
            b@ == part@,
            forall|k: int| 0 <= k < at ==> !occurs_at(b@, a@, k),
        decreases last + 1 - at,
    {
        if matches_at(&b, &a, at) {
            return true;
        }
        if at == last {
            return false;
        }
        at = at + 1;
    }
    false
}

/// Whether `left` comes before `right`.
pub fn comes_before(left: &str, right: &str) -> (before: bool)
    ensures
        before == text_lt(left@, right@),
{
    let a = chars_of(left);
    let b = chars_of(right);
    let mut at: usize = 0;
    while at < a.len() && at < b.len()
        invariant
            at <= a@.len(),
            at <= b@.len(),
            a@ == left@,
            b@ == right@,
            forall|j: int| 0 <= j < at ==> a@[j] == b@[j],
        decreases a@.len() - at,
    {
        if a[at] < b[at] {
            assert(first_difference(left@, right@, at as int));
            return true;
        }
        if b[at] < a[at] {
            proof {
                if text_lt(left@, right@) {
                    let k = choose|k: int| first_difference(left@, right@, k);
                    assert(left@[at as int] == a@[at as int]);
                    assert(k == at);
                }
            }
            return false;
        }
        at = at + 1;
    }
    proof {
        if at < b@.len() {
            assert(first_difference(left@, right@, at as int));
        } else if text_lt(left@, right@) {
            let k = choose|k: int| first_difference(left@, right@, k);
            assert(k < at);
            assert(left@[k] == a@[k]);
        }
    }
    at < b.len()
}

/// The order is total: two different strings are ordered one way.
pub proof fn lemma_text_lt_total(left: Seq<char>, right: Seq<char>)
    ensures
        left == right || text_lt(left, right) || text_lt(right, left),
{
    lemma_text_lt_total_from(left, right, 0);
}

proof fn lemma_text_lt_total_from(left: Seq<char>, right: Seq<char>, at: int)
    requires
        0 <= at <= left.len(),
        at <= right.len(),
        forall|j: int| 0 <= j < at ==> left[j] == right[j],
    ensures
        left == right || text_lt(left, right) || text_lt(right, left),
    decreases left.len() - at,
{
    if at == left.len() && at == right.len() {
        assert(left =~= right);
    } else if at == left.len() {
        assert(first_difference(left, right, at));
    } else if at == right.len() {
        assert(first_difference(right, left, at));
    } else if left[at] < right[at] {
        assert(first_difference(left, right, at));
    } else if right[at] < left[at] {
        assert(first_difference(right, left, at));
    } else {
        lemma_text_lt_total_from(left, right, at + 1);
    }
}

/// The order is irreflexive and asymmetric.
pub proof fn lemma_text_lt_strict(left: Seq<char>, right: Seq<char>)
    requires
        text_lt(left, right),
    ensures
        left != right,
        !text_lt(right, left),
{
    let k = choose|k: int| first_difference(left, right, k);
    if text_lt(right, left) {
        let m = choose|m: int| first_difference(right, left, m);
        if m < k {
            assert(left[m] == right[m]);
        } else if k < m {
            assert(right[k] == left[k]);
        }
    }
}

/// The order is transitive.
pub proof fn lemma_text_lt_trans(a: Seq<char>, b: Seq<char>, c: Seq<char>)
    requires
        text_lt(a, b),
        text_lt(b, c),
    ensures
        text_lt(a, c),
{
    let k = choose|k: int| first_difference(a, b, k);
    let m = choose|m: int| first_difference(b, c, m);
    let n = if k < m { k } else { m };
    assert(first_difference(a, c, n));
}

/// The decimal digit of `n`, as a string.
fn digit_text(n: u64) -> (text: &'static str)
    requires
        n < 10,
    ensures
        text@ == seq![digit(n as nat)],
{
    proof {
        reveal_strlit("0");
        reveal_strlit("1");
        reveal_strlit("2");
        reveal_strlit("3");
        reveal_strlit("4");
        reveal_strlit("5");
        reveal_strlit("6");
        reveal_strlit("7");
        reveal_strlit("8");
        reveal_strlit("9");
    }
    let text = if n == 0 {
        "0"
    } else if n == 1 {
        "1"
    } else if n == 2 {
        "2"
    } else if n == 3 {
        "3"
    } else if n == 4 {
        "4"
    } else if n == 5 {
        "5"
    } else if n == 6 {
        "6"
    } else if n == 7 {
        "7"
    } else if n == 8 {
        "8"
    } else {
        "9"
    };
    assert(text@ =~= seq![digit(n as nat)]);
    text
}

/// A number in decimal.
pub fn decimal_text(n: u64) -> (text: String)
    ensures
        text@ == decimal(n as nat),
    decreases n,
{
    if n < 10 {
        digit_text(n).to_owned()
    } else {
        let mut text = decimal_text(n / 10);
        let ghost head = text@;
        text.append(digit_text(n % 10));
        assert(text@ =~= head.push(digit((n % 10) as nat)));
        text
    }
}

/// Numbers separated by a comma and a space.
pub fn entries_text(list: &Vec<usize>) -> (text: String)
    ensures
        text@ == decimal_entries(list@),
{
    let mut text = "".to_owned();
    let mut i: usize = 0;
    proof {
        reveal_strlit("");
        assert(text@ =~= decimal_entries(list@.take(0)));
    }
    while i < list.len()
        invariant
            i <= list@.len(),
            text@ == decimal_entries(list@.take(i as int)),
        decreases list@.len() - i,
    {
        if i > 0 {
            text.append(", ");
        }
        text.append(decimal_text(list[i] as u64).as_str());
        proof {
            let grown = list@.take(i + 1);
            assert(grown.drop_last() =~= list@.take(i as int));
            assert(grown.last() == list@[i as int]);
            assert(text@ =~= decimal_entries(grown));
        }
        i = i + 1;
    }
    assert(list@.take(i as int) =~= list@);
    text
}

/// A list of numbers in square brackets.
pub fn list_text(list: &Vec<usize>) -> (text: String)
    ensures
        text@ == decimal_list(list@),
{
    let mut text = "[".to_owned();
    text.append(entries_text(list).as_str());
    text.append("]");
    text
}

/// A text ends with another exactly where the other completes some text to it.
pub proof fn law_ends_with_means_completed_by(text: &str, suffix: &str, found: bool)
    requires
        call_ensures(ends_with, (text, suffix), found),
    ensures
        found <==> exists|head: Seq<char>| text@ == #[trigger] (head + suffix@),
{
    if is_suffix(suffix@, text@) {
        let head = text@.take(text@.len() - suffix@.len());
        assert(text@ =~= head + suffix@);
    }
    if exists|head: Seq<char>| text@ == #[trigger] (head + suffix@) {
        let head = choose|head: Seq<char>| text@ == #[trigger] (head + suffix@);
        assert(text@.subrange(text@.len() - suffix@.len(), text@.len() as int) =~= suffix@);
    }
}

/// A text starts with another exactly where some text completes the other to it.
pub proof fn law_starts_with_means_continued_by(text: &str, prefix: &str, found: bool)
    requires
        call_ensures(starts_with, (text, prefix), found),
    ensures
        found <==> exists|tail: Seq<char>| text@ == #[trigger] (prefix@ + tail),
{
    if is_prefix(prefix@, text@) {
        let tail = text@.skip(prefix@.len() as int);
        assert(text@ =~= prefix@ + tail);
    }
    if exists|tail: Seq<char>| text@ == #[trigger] (prefix@ + tail) {
        let tail = choose|tail: Seq<char>| text@ == #[trigger] (prefix@ + tail);
        assert(text@.subrange(0, prefix@.len() as int) =~= prefix@);
    }
}

/// A text stands in another exactly where two texts around it complete it to
/// the other.
pub proof fn lemma_infix_means_surrounded(part: Seq<char>, text: Seq<char>)
    ensures
        is_infix(part, text) <==> exists|head: Seq<char>, tail: Seq<char>|
            text == #[trigger] (head + part + tail),
{
    if is_infix(part, text) {
        let at = choose|at: int| occurs_at(part, text, at);
        let head = text.take(at);
        let tail = text.skip(at + part.len());
        assert(text =~= head + part + tail) by {
            assert forall|i: int| 0 <= i < text.len() implies text[i] == (head + part + tail)[i] by {
                if at <= i < at + part.len() {
                    assert(text.subrange(at, at + part.len())[i - at] == part[i - at]);
                }
            }
        }
    }
    if exists|head: Seq<char>, tail: Seq<char>| text == #[trigger] (head + part + tail) {
        let (head, tail) = choose|head: Seq<char>, tail: Seq<char>|
            text == #[trigger] (head + part + tail);
        let at = head.len() as int;
        assert(text.subrange(at, at + part.len()) =~= part);
        assert(occurs_at(part, text, at));
    }
}

/// A text is found in another exactly where two texts around it complete it to
/// the other.
pub proof fn law_contains_means_surrounded_by(text: &str, part: &str, found: bool)
    requires
        call_ensures(contains, (text, part), found),
    ensures
        found <==> exists|head: Seq<char>, tail: Seq<char>|
            text@ == #[trigger] (head + part@ + tail),
{
    lemma_infix_means_surrounded(part@, text@);
}

/// The order is that of dictionaries: behind a common start the smaller
/// character decides, and a text comes before all that it starts.
pub proof fn law_order_is_that_of_dictionaries(
    start: Seq<char>,
    a: char,
    b: char,
    x: Seq<char>,
    y: Seq<char>,
)
    ensures
        a < b ==> text_lt(start + seq![a] + x, start + seq![b] + y),
        a < b ==> !text_lt(start + seq![b] + y, start + seq![a] + x),
        text_lt(start, start + seq![a] + x),
        !text_lt(start + seq![a] + x, start),
        !text_lt(start, start),
{
    let left = start + seq![a] + x;
    let right = start + seq![b] + y;
    let at = start.len() as int;
    assert(left[at] == a && right[at] == b);
    if a < b {
        assert forall|j: int| 0 <= j < at implies left[j] == right[j] by {
            assert(left[j] == start[j] && right[j] == start[j]);
        }
        assert(first_difference(left, right, at));
        lemma_text_lt_strict(left, right);
    }
    assert(first_difference(start, left, at));
    lemma_text_lt_strict(start, left);
    if text_lt(start, start) {
        lemma_text_lt_strict(start, start);
    }
}

/// The number that a run of decimal digits stands for.
pub open spec fn number_of(digits: Seq<char>) -> int
    decreases digits.len(),
{
    if digits.len() == 0 {
        0
    } else {
        10 * number_of(digits.drop_last()) + (digits.last() as int - '0' as int)
    }
}

/// Numbers are printed in decimal: digits only, no zero in front, and read back
/// they are the number.
pub proof fn law_decimal_reads_back(n: nat)
    ensures
        number_of(decimal(n)) == n,
        decimal(n).len() > 0,
        forall|i: int| 0 <= i < decimal(n).len() ==> '0' <= #[trigger] decimal(n)[i] <= '9',
        decimal(n).len() > 1 ==> decimal(n)[0] != '0',
    decreases n,
{
    if n < 10 {
        assert(decimal(n).drop_last() =~= Seq::<char>::empty());
        reveal_with_fuel(number_of, 2);
    } else {
        law_decimal_reads_back(n / 10);
        let head = decimal(n / 10);
        let all = head.push(digit(n % 10));
        assert(all.drop_last() =~= head);
        assert(all.last() == digit(n % 10));
        assert(head[0] == all[0]);
        if n / 10 < 10 {
            assert(head[0] == digit(n / 10));
            assert(digit(n / 10) as int == '0' as int + n / 10);
        } else {
            law_decimal_reads_back(n / 10 / 10);
        }
    }
}

/// A list of numbers is printed in brackets, its numbers in their order with a
/// comma and a space between them.
pub proof fn law_lists_are_printed_in_order(list: Seq<usize>, last: usize)
    ensures
        decimal_list(Seq::empty()) == "[]"@,
        decimal_list(seq![last]) == "["@ + decimal(last as nat) + "]"@,
        list.len() > 0 ==> decimal_list(list.push(last)) == decimal_list(list).drop_last() + ", "@
            + decimal(last as nat) + "]"@,
{
    reveal_strlit("[");
    reveal_strlit("]");
    reveal_strlit("[]");
    assert("["@ + Seq::<char>::empty() + "]"@ =~= "[]"@);
    if list.len() > 0 {
        let grown = list.push(last);
        assert(grown.drop_last() =~= list);
        assert(decimal_list(list).drop_last() =~= "["@ + decimal_entries(list));
        assert(decimal_list(grown) =~= "["@ + decimal_entries(list) + ", "@ + decimal(last as nat)
            + "]"@);
    }
}

} // verus!
