//! String predicates and conversions, stated over sequences of characters.

use vstd::prelude::*;

verus! {

/// `part` occurs somewhere in `whole`.
pub open spec fn occurs_in(part: Seq<char>, whole: Seq<char>) -> bool {
    exists|at: int| occurs_at(part, whole, at)
}

/// `part` occurs in `whole` starting at position `at`.
pub open spec fn occurs_at(part: Seq<char>, whole: Seq<char>, at: int) -> bool {
    &&& 0 <= at <= whole.len() - part.len()
    &&& part == whole.subrange(at, at + part.len())
}

/// The contents of a list of strings.
pub open spec fn texts(list: Seq<String>) -> Seq<Seq<char>> {
    list.map_values(|s: String| s@)
}

/// The characters of `s`, in order.
pub fn chars_of(s: &str) -> (out: Vec<char>)
    ensures
        out@ == s@,
{
    let mut out: Vec<char> = Vec::new();
    for c in it: s.chars()
        invariant
            out@ == s@.take(it.index() as int),
            it.seq() == s@,
    {
        out.push(c);
        assert(s@.take(it.index() + 1) == s@.take(it.index() as int).push(c));
    }
    assert(s@.take(s@.len() as int) == s@);
    out
}

/// Whether `part` stands at position `at` of `whole`.
fn matches_at(whole: &Vec<char>, part: &Vec<char>, at: usize) -> (r: bool)
    ensures
        r == occurs_at(part@, whole@, at as int),
{
    if part.len() > whole.len() || at > whole.len() - part.len() {
        return false;
    }
    for i in 0..part.len()
        invariant
            at + part.len() <= whole.len(),
            forall|j: int| 0 <= j < i ==> part@[j] == whole@[at + j],
    {
        if part[i] != whole[at + i] {
            assert(part@[i as int] != whole@.subrange(at as int, at + part@.len())[i as int]);
            return false;
        }
    }
    assert(part@ =~= whole@.subrange(at as int, at + part@.len()));
    true
}

/// Whether `a` and `b` hold the same characters.
pub fn same_text(a: &str, b: &str) -> (r: bool)
    ensures
        r == (a@ == b@),
{
    let x: Vec<char> = chars_of(a);
    let y: Vec<char> = chars_of(b);
    assert(x@.len() == y@.len() ==> y@.subrange(0, x@.len() as int) == y@);
    x.len() == y.len() && matches_at(&y, &x, 0)
}

/// Whether `s` begins with `prefix`.
pub fn starts_with(s: &str, prefix: &str) -> (r: bool)
    ensures
        r == prefix@.is_prefix_of(s@),
{
    matches_at(&chars_of(s), &chars_of(prefix), 0)
}

/// Whether `s` ends with `suffix`.
pub fn ends_with(s: &str, suffix: &str) -> (r: bool)
    ensures
        r == suffix@.is_suffix_of(s@),
{
    let x: Vec<char> = chars_of(s);
    let y: Vec<char> = chars_of(suffix);
    y.len() <= x.len() && matches_at(&x, &y, x.len() - y.len())
}

/// The character of a decimal digit.
pub open spec fn digit(d: int) -> char
    recommends
        0 <= d < 10,
{
    (48 + d) as char
}

/// The decimal notation of `n`, without leading zeros.
pub open spec fn decimal(n: nat) -> Seq<char>
    decreases n,
{
    if n < 10 {
        seq![digit(n as int)]
    } else {
        decimal(n / 10).push(digit((n % 10) as int))
    }
}

/// Appends the character of the digit `d` to `s`.
fn push_digit(s: &mut String, d: u32)
    requires
        d < 10,
    ensures
        final(s)@ == old(s)@.push(digit(d as int)),
{
    let text: &str = match d {
        0 => "0",
        1 => "1",
        2 => "2",
        3 => "3",
        4 => "4",
        5 => "5",
        6 => "6",
        7 => "7",
        8 => "8",
        _ => "9",
    };
    proof {
        reveal_strlit("0");
        reveal_strlit("1");
        reveal_strlit("2");
        reveal_strlit("3");
        reveal_strlit("4");
        reveal_strlit("5");
        reveal_strlit("6");
        reveal_strlit("7");
        reveal_strlit("8");
        reveal_strlit("9");
        assert(text@ =~= seq![digit(d as int)]);
        assert(s@ + text@ =~= s@.push(digit(d as int)));
    }
    s.append(text);
}

/// Appends the decimal notation of `n` to `s`.
pub fn push_decimal(s: &mut String, n: u32)
    ensures
        final(s)@ == old(s)@ + decimal(n as nat),
    decreases n,
{
    let ghost before = s@;
    if n < 10 {
        push_digit(s, n);
        assert(before.push(digit(n as int)) =~= before + decimal(n as nat));
    } else {
        push_decimal(s, n / 10);
        push_digit(s, n % 10);
        assert((before + decimal((n / 10) as nat)).push(digit((n % 10) as int)) =~= before
            + decimal(n as nat));
    }
}

/// Two numbers with the same decimal notation are equal.
pub proof fn lemma_decimal_injective(a: nat, b: nat)
    requires
        decimal(a) == decimal(b),
    ensures
        a == b,
    decreases a,
{
    if a < 10 && b < 10 {
        assert(decimal(a)[0] == digit(a as int));
        assert(decimal(b)[0] == digit(b as int));
    } else if a < 10 {
        lemma_decimal_nonempty(b / 10);
        assert(decimal(a).len() == 1);
        assert(decimal(b).len() > 1);
    } else if b < 10 {
        lemma_decimal_nonempty(a / 10);
        assert(decimal(b).len() == 1);
        assert(decimal(a).len() > 1);
    } else {
        assert(decimal(a).last() == digit((a % 10) as int));
        assert(decimal(b).last() == digit((b % 10) as int));
        assert(a % 10 == b % 10);
        assert(decimal(a).drop_last() =~= decimal(a / 10));
        assert(decimal(b).drop_last() =~= decimal(b / 10));
        lemma_decimal_injective(a / 10, b / 10);
    }
}

proof fn lemma_decimal_nonempty(n: nat)
    ensures
        decimal(n).len() > 0,
    decreases n,
{
    if n >= 10 {
        lemma_decimal_nonempty(n / 10);
    }
}

/// The first position of `text` in `list`.
pub fn position(list: &Vec<String>, text: &str) -> (r: Option<usize>)
    ensures
        match r {
            Some(i) => i < list@.len() && texts(list@).index_of_first(text@) == Some(i as int),
            None => !texts(list@).contains(text@),
        },
{
    for i in 0..list.len()
        invariant
            forall|j: int| 0 <= j < i ==> texts(list@)[j] != text@,
    {
        if same_text(list[i].as_str(), text) {
            proof {
                assert(texts(list@)[i as int] == text@);
                texts(list@).index_of_first_ensures(text@);
            }
            return Some(i);
        }
    }
    None
}

/// Whether `text` is one of `list`.
pub fn is_listed(list: &Vec<String>, text: &str) -> (r: bool)
    ensures
        r == texts(list@).contains(text@),
{
    match position(list, text) {
        Some(i) => {
            proof {
                texts(list@).index_of_first_ensures(text@);
            }
            true
        },
        None => false,
    }
}

/// The number that a row of decimal digits stands for.
pub open spec fn number_read(text: Seq<char>) -> int
    decreases text.len(),
{
    if text.len() == 0 {
        0
    } else {
        number_read(text.drop_last()) * 10 + (text.last() as int - 48)
    }
}

/// The decimal notation of a number is made of digits, has no zero in front unless the
/// number is zero, and reads back as that number.
pub proof fn law_decimal_reads_back(n: nat)
    ensures
        decimal(n).len() > 0,
        number_read(decimal(n)) == n,
        forall|i: int| 0 <= i < decimal(n).len() ==> 48 <= (#[trigger] decimal(n)[i]) as int <= 57,
        decimal(n)[0] as int == 48 ==> n == 0 && decimal(n).len() == 1,
    decreases n,
{
    if n < 10 {
        assert(decimal(n).drop_last() =~= Seq::empty());
        assert(decimal(n).last() == digit(n as int));
        assert(number_read(decimal(n).drop_last()) == 0);
    } else {
        let init = decimal(n / 10);
        law_decimal_reads_back(n / 10);
        assert(decimal(n).drop_last() =~= init);
        assert(decimal(n).last() == digit((n % 10) as int));
        assert(decimal(n)[0] == init[0]);
        assert forall|i: int| 0 <= i < decimal(n).len() implies 48 <= (#[trigger] decimal(
            n,
        )[i]) as int <= 57 by {
            if i < init.len() {
                assert(decimal(n)[i] == init[i]);
            }
        }
    }
}

/// What is appended for a number is a row of digits that reads back as that number,
/// without a zero in front unless it is the number zero; what stood there before is
/// kept.
pub proof fn law_appended_number_reads_back(s: &mut String, n: u32)
    requires
        call_ensures(push_decimal, (s, n), ()),
    ensures
        old(s)@.is_prefix_of(final(s)@),
        ({
            let digits = final(s)@.skip(old(s)@.len() as int);
            &&& digits.len() > 0
            &&& number_read(digits) == n
            &&& forall|i: int| 0 <= i < digits.len() ==> '0' <= #[trigger] digits[i] <= '9'
            &&& digits[0] == '0' ==> n == 0 && digits.len() == 1
        }),
{
    law_decimal_reads_back(n as nat);
    let whole = old(s)@ + decimal(n as nat);
    assert(whole.skip(old(s)@.len() as int) =~= decimal(n as nat));
    assert(whole.take(old(s)@.len() as int) =~= old(s)@);
}

/// The text predicates say of the texts what their names say: equal texts, a text with
/// something behind its beginning, and a text with something before its end.
pub proof fn law_beginnings_and_ends(whole: &str, part: &str, rest: Seq<char>, r: bool)
    ensures
        call_ensures(same_text, (whole, part), r) ==> (r <==> whole@ == part@),
        call_ensures(starts_with, (whole, part), r) && whole@ == part@ + rest ==> r,
        call_ensures(starts_with, (whole, part), r) && r ==> whole@ == part@ + whole@.skip(
            part@.len() as int,
        ),
        call_ensures(ends_with, (whole, part), r) && whole@ == rest + part@ ==> r,
        call_ensures(ends_with, (whole, part), r) && r ==> whole@ == whole@.take(
            whole@.len() - part@.len(),
        ) + part@,
{
    assert((part@ + rest).subrange(0, part@.len() as int) =~= part@);
    assert((rest + part@).subrange(rest.len() as int, (rest + part@).len() as int) =~= part@);
    if part@.is_prefix_of(whole@) {
        assert(whole@ =~= part@ + whole@.skip(part@.len() as int));
    }
    if part@.is_suffix_of(whole@) {
        assert(whole@ =~= whole@.take(whole@.len() - part@.len()) + part@);
    }
}

/// A position is the first one at which the list holds the text, and there is none
/// exactly where the list does not hold it.
pub proof fn law_position_is_the_first(list: &Vec<String>, text: &str, r: Option<usize>, listed: bool)
    requires
        call_ensures(position, (list, text), r),
        call_ensures(is_listed, (list, text), listed),
    ensures
        r matches Some(i) ==> i < list@.len() && list@[i as int]@ == text@ && forall|j: int|
            0 <= j < i ==> (#[trigger] list@[j])@ != text@,
        r is None ==> forall|j: int| 0 <= j < list@.len() ==> (#[trigger] list@[j])@ != text@,
        listed <==> r is Some,
{
    let all = texts(list@);
    all.index_of_first_ensures(text@);
    assert(all.len() == list@.len());
    assert forall|j: int| 0 <= j < list@.len() implies all[j] == (#[trigger] list@[j])@ by {}
    if let Some(i) = r {
        assert(all[i as int] == text@);
        assert(all.contains(text@));
        assert forall|j: int| 0 <= j < i implies (#[trigger] list@[j])@ != text@ by {
            assert(all[j] != text@);
        }
    } else {
        assert forall|j: int| 0 <= j < list@.len() implies (#[trigger] list@[j])@ != text@ by {
            assert(all.contains(all[j]));
        }
    }
}

} // verus!
