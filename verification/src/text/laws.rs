//! What the text building blocks do, character by character.

use vstd::prelude::*;

verus! {

/// The number that a row of decimal digits stands for.
pub open spec fn number(digits: Seq<char>) -> int
    decreases digits.len(),
{
    if digits.len() == 0 {
        0
    } else {
        10 * number(digits.drop_last()) + (digits.last() as int - 48)
    }
}

proof fn lemma_decimal(n: nat)
    ensures
        crate::text::decimal(n).len() > 0,
        forall|i: int|
            0 <= i < crate::text::decimal(n).len() ==> '0' <= #[trigger] crate::text::decimal(n)[i]
                && crate::text::decimal(n)[i] <= '9',
        number(crate::text::decimal(n)) == n,
        crate::text::decimal(n)[0] == '0' ==> n == 0 && crate::text::decimal(n).len() == 1,
    decreases n,
{
    reveal_with_fuel(number, 2);
    let d = crate::text::decimal(n);
    if n < 10 {
        assert(d =~= seq![crate::text::digit_char(n)]);
        assert(d.drop_last() =~= Seq::<char>::empty());
    } else {
        lemma_decimal(n / 10);
        let head = crate::text::decimal(n / 10);
        assert(d.drop_last() =~= head);
        assert(d[0] == head[0]);
        assert forall|i: int| 0 <= i < d.len() implies '0' <= #[trigger] d[i] && d[i] <= '9' by {
            if i < head.len() {
                assert(d[i] == head[i]);
            }
        }
    }
}

/// A number is written with decimal digits that stand for it, without leading
/// zeros.
pub proof fn law_decimal_text_stands_for_the_number(n: u64, r: String)
    requires
        call_ensures(crate::text::decimal_text, (n,), r),
    ensures
        number(r@) == n,
        r@.len() > 0,
        forall|i: int| 0 <= i < r@.len() ==> '0' <= #[trigger] r@[i] && r@[i] <= '9',
        r@[0] == '0' ==> n == 0 && r@.len() == 1,
{
    lemma_decimal(n as nat);
}

/// Two numbers that are written the same are the same.
pub proof fn law_decimal_is_unambiguous(a: nat, b: nat)
    ensures
        crate::text::decimal(a) == crate::text::decimal(b) ==> a == b,
        number(crate::text::decimal(a)) == a,
{
    lemma_decimal(a);
    lemma_decimal(b);
}

/// The characters that count as white space, by their numbers: tab to carriage
/// return, space, next line, no-break space and Unicode's other spaces and
/// separators.
pub proof fn law_white_space_by_number(c: char)
    ensures
        crate::text::is_white_space(c) <==> {
            let n = c as int;
            ||| 9 <= n <= 13
            ||| n == 32 || n == 133 || n == 160 || n == 5760
            ||| 8192 <= n <= 8202
            ||| n == 8232 || n == 8233 || n == 8239 || n == 8287 || n == 12288
        },
{
}

proof fn lemma_trimmed(s: Seq<char>) -> (cut: (int, int))
    ensures
        0 <= cut.0 <= cut.1 <= s.len(),
        crate::text::trimmed(s) == s.subrange(cut.0, cut.1),
        forall|i: int| 0 <= i < cut.0 ==> crate::text::is_white_space(#[trigger] s[i]),
        forall|i: int| cut.1 <= i < s.len() ==> crate::text::is_white_space(#[trigger] s[i]),
        cut.0 < cut.1 ==> !crate::text::is_white_space(s[cut.0]) && !crate::text::is_white_space(
            s[cut.1 - 1],
        ),
    decreases s.len(),
{
    if s.len() > 0 && crate::text::is_white_space(s[0]) {
        let rest = s.drop_first();
        let cut = lemma_trimmed(rest);
        assert(rest.subrange(cut.0, cut.1) =~= s.subrange(cut.0 + 1, cut.1 + 1));
        assert forall|i: int| 0 <= i < cut.0 + 1 implies crate::text::is_white_space(
            #[trigger] s[i],
        ) by {
            if i > 0 {
                assert(rest[i - 1] == s[i]);
            }
        }
        assert forall|i: int| cut.1 + 1 <= i < s.len() implies crate::text::is_white_space(
            #[trigger] s[i],
        ) by {
            assert(rest[i - 1] == s[i]);
        }
        (cut.0 + 1, cut.1 + 1)
    } else if s.len() > 0 && crate::text::is_white_space(s.last()) {
        let rest = s.drop_last();
        let cut = lemma_trimmed(rest);
        assert(rest.subrange(cut.0, cut.1) =~= s.subrange(cut.0, cut.1));
        assert forall|i: int| 0 <= i < cut.0 implies crate::text::is_white_space(
            #[trigger] s[i],
        ) by {
            assert(rest[i] == s[i]);
        }
        assert forall|i: int| cut.1 <= i < s.len() implies crate::text::is_white_space(
            #[trigger] s[i],
        ) by {
            if i < rest.len() {
                assert(rest[i] == s[i]);
            }
        }
        cut
    } else {
        assert(s.subrange(0, s.len() as int) =~= s);
        (0, s.len() as int)
    }
}

/// To trim takes white space off both ends and nothing else: what is left
/// neither begins nor ends with any, and all that is gone was white space.
pub proof fn law_trim_takes_white_space_off_the_ends(s: &str, r: String) -> (cut: (int, int))
    requires
        call_ensures(crate::text::trim, (s,), r),
    ensures
        0 <= cut.0 <= cut.1 <= s@.len(),
        r@ == s@.subrange(cut.0, cut.1),
        forall|i: int| 0 <= i < cut.0 ==> crate::text::is_white_space(#[trigger] s@[i]),
        forall|i: int| cut.1 <= i < s@.len() ==> crate::text::is_white_space(#[trigger] s@[i]),
        r@.len() > 0 ==> !crate::text::is_white_space(r@[0]) && !crate::text::is_white_space(
            r@.last(),
        ),
{
    lemma_trimmed(s@)
}

proof fn lemma_slashes(s: Seq<char>)
    ensures
        ({
            let r = crate::text::without_trailing_slashes(s);
            &&& r.len() <= s.len()
            &&& r == s.take(r.len() as int)
            &&& forall|i: int| r.len() <= i < s.len() ==> #[trigger] s[i] == '/'
            &&& r.len() > 0 ==> r.last() != '/'
        }),
    decreases s.len(),
{
    if s.len() > 0 && s.last() == '/' {
        let rest = s.drop_last();
        lemma_slashes(rest);
        let r = crate::text::without_trailing_slashes(rest);
        assert(rest.take(r.len() as int) =~= s.take(r.len() as int));
        assert forall|i: int| r.len() <= i < s.len() implies #[trigger] s[i] == '/' by {
            if i < rest.len() {
                assert(rest[i] == s[i]);
            }
        }
    } else {
        assert(s.take(s.len() as int) =~= s);
    }
}

/// What is dropped of the end of a text are slashes, and all of them.
pub proof fn law_only_trailing_slashes_are_dropped(s: Seq<char>)
    ensures
        ({
            let r = crate::text::without_trailing_slashes(s);
            &&& r.len() <= s.len()
            &&& r == s.take(r.len() as int)
            &&& forall|i: int| r.len() <= i < s.len() ==> #[trigger] s[i] == '/'
            &&& r.len() > 0 ==> r.last() != '/'
        }),
{
    lemma_slashes(s);
}

/// A joined text is the one piece and then the other.
pub proof fn law_joined_text_is_both(a: &str, b: &str, r: String)
    requires
        call_ensures(crate::text::joined, (a, b), r),
    ensures
        r@.len() == a@.len() + b@.len(),
        r@.take(a@.len() as int) == a@,
        r@.skip(a@.len() as int) == b@,
{
    assert(r@.take(a@.len() as int) =~= a@);
    assert(r@.skip(a@.len() as int) =~= b@);
}

/// The texts of a list are those of its items, in their order.
pub proof fn law_texts_are_those_of_the_items(list: Seq<String>, i: int)
    ensures
        crate::text::texts(list).len() == list.len(),
        0 <= i < list.len() ==> crate::text::texts(list)[i] == list[i]@,
{
}

/// Upper case changes the letters a to z, each into its capital.
pub proof fn law_ascii_upper_by_number(c: char)
    ensures
        97 <= c as int && c as int <= 122 ==> crate::text::ascii_upper(c) as int == c as int - 32,
        c as int <= 96 || 123 <= c as int ==> crate::text::ascii_upper(c) == c,
{
}

/// Two texts are the same exactly when they have the same characters at the same
/// places; where there may be none, two that are missing are the same too.
pub proof fn law_same_text_is_the_same_characters(
    a: &str,
    b: &str,
    same: bool,
    x: Option<String>,
    y: Option<String>,
    same_opt: bool,
)
    requires
        call_ensures(crate::text::same_text, (a, b), same),
        call_ensures(crate::text::same_opt_text, (&x, &y), same_opt),
    ensures
        same <==> a@.len() == b@.len() && forall|i: int| 0 <= i < a@.len() ==> a@[i] == b@[i],
        same_opt <==> (x is None && y is None) || (x is Some && y is Some && x->0@ == y->0@),
{
    if a@.len() == b@.len() && forall|i: int| 0 <= i < a@.len() ==> a@[i] == b@[i] {
        assert(a@ =~= b@);
    }
}

/// A copy has the same texts at the same places, and a list holds a text exactly
/// when it has it at some place.
pub proof fn law_copies_and_lists(
    list: Vec<String>,
    copy: Vec<String>,
    opt: Option<String>,
    opt_copy: Option<String>,
    text: &str,
    held: bool,
)
    requires
        call_ensures(crate::text::clone_list, (&list,), copy),
        call_ensures(crate::text::clone_opt, (&opt,), opt_copy),
        call_ensures(crate::text::holds_text, (&list, text), held),
    ensures
        copy@.len() == list@.len(),
        forall|i: int| 0 <= i < list@.len() ==> (#[trigger] copy@[i])@ == list@[i]@,
        opt_copy is Some <==> opt is Some,
        opt is Some ==> opt_copy->0@ == opt->0@,
        held <==> exists|i: int| 0 <= i < list@.len() && (#[trigger] list@[i])@ == text@,
{
    let texts = crate::text::texts(list@);
    assert(texts == crate::text::texts(copy@));
    assert(texts.len() == list@.len() && crate::text::texts(copy@).len() == copy@.len());
    assert forall|i: int| 0 <= i < list@.len() implies (#[trigger] copy@[i])@ == list@[i]@ by {
        assert(texts[i] == list@[i]@);
        assert(crate::text::texts(copy@)[i] == copy@[i]@);
    }
    if texts.contains(text@) {
        let i = choose|i: int| 0 <= i < texts.len() && texts[i] == text@;
        assert(list@[i]@ == text@);
    }
    if exists|i: int| 0 <= i < list@.len() && (#[trigger] list@[i])@ == text@ {
        let i = choose|i: int| 0 <= i < list@.len() && (#[trigger] list@[i])@ == text@;
        assert(texts[i] == text@);
    }
}

} // verus!
