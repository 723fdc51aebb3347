//! Text as sequences of characters: the lexicographic order by character
//! code, comparison that ignores the case of ASCII letters, and the extension
//! of a file name.

use vstd::prelude::*;
use vstd::relations::total_ordering;
use vstd::std_specs::iter::IteratorSpec;

verus! {

/// The view of a text that may be absent.
pub open spec fn text_view(text: Option<String>) -> Option<Seq<char>> {
    match text {
        Some(t) => Some(t@),
        None => None,
    }
}

/// How one text stands to another in the lexicographic order.
#[derive(Clone, Copy, Debug, PartialEq, Eq)]
pub enum TextOrder {
    Before,
    Same,
    After,
}

/// The lexicographic comparison of two texts by character code: the first
/// position at which they differ decides, and a proper prefix comes first.
pub open spec fn text_order_of(a: Seq<char>, b: Seq<char>) -> TextOrder
    decreases a.len(),
{
    if a.len() == 0 {
        if b.len() == 0 {
            TextOrder::Same
        } else {
            TextOrder::Before
        }
    } else if b.len() == 0 {
        TextOrder::After
    } else if a[0] == b[0] {
        text_order_of(a.drop_first(), b.drop_first())
    } else if (a[0] as u32) < (b[0] as u32) {
        TextOrder::Before
    } else {
        TextOrder::After
    }
}

/// `a` comes no later than `b` in the lexicographic order.
pub open spec fn text_le(a: Seq<char>, b: Seq<char>) -> bool {
    text_order_of(a, b) !is After
}

/// The code of a character with the ASCII capital letters folded onto the
/// small ones.
pub open spec fn folded_code(c: char) -> int {
    let n = c as int;
    if 65 <= n <= 90 {
        n + 32
    } else {
        n
    }
}

/// Two texts are the same up to the case of their ASCII letters.
pub open spec fn same_ignoring_ascii_case(a: Seq<char>, b: Seq<char>) -> bool {
    &&& a.len() == b.len()
    &&& forall|i: int| 0 <= i < a.len() ==> folded_code(#[trigger] a[i]) == folded_code(b[i])
}

/// The position of the last dot of `name`, if it has one.
pub open spec fn last_dot(name: Seq<char>) -> Option<int>
    decreases name.len(),
{
    if name.len() == 0 {
        None
    } else if name.last() == '.' {
        Some(name.len() - 1)
    } else {
        last_dot(name.drop_last())
    }
}

/// The extension of a file name: what follows its last dot. A name without a
/// dot has none, and neither has a name whose only dot is its first character.
pub open spec fn extension_of(name: Seq<char>) -> Option<Seq<char>> {
    match last_dot(name) {
        Some(p) => if p > 0 {
            Some(name.skip(p + 1))
        } else {
            None
        },
        None => None,
    }
}

/// `name` has an extension, and it is `wanted` up to the case of ASCII letters.
pub open spec fn has_extension(name: Seq<char>, wanted: Seq<char>) -> bool {
    match extension_of(name) {
        Some(found) => same_ignoring_ascii_case(found, wanted),
        None => false,
    }
}

/// Comparing a text with itself, and only that, gives `Same`.
pub proof fn lemma_same_iff_equal(a: Seq<char>, b: Seq<char>)
    ensures
        text_order_of(a, b) is Same <==> a == b,
    decreases a.len(),
{
    if a.len() == 0 || b.len() == 0 {
        if a.len() == 0 && b.len() == 0 {
            assert(a =~= b);
        }
    } else if a[0] == b[0] {
        lemma_same_iff_equal(a.drop_first(), b.drop_first());
        if a.drop_first() == b.drop_first() {
            assert(a =~= seq![a[0]] + a.drop_first());
            assert(b =~= seq![b[0]] + b.drop_first());
        }
    } else {
    }
}

/// Swapping the two texts swaps `Before` and `After`.
pub proof fn lemma_order_flips(a: Seq<char>, b: Seq<char>)
    ensures
        text_order_of(a, b) is Before <==> text_order_of(b, a) is After,
        text_order_of(a, b) is After <==> text_order_of(b, a) is Before,
        text_order_of(a, b) is Same <==> text_order_of(b, a) is Same,
    decreases a.len(),
{
    if a.len() > 0 && b.len() > 0 {
        if a[0] == b[0] {
            lemma_order_flips(a.drop_first(), b.drop_first());
        } else {
            lemma_codes_differ(a[0], b[0]);
        }
    }
}

/// Different characters have different codes.
proof fn lemma_codes_differ(c: char, d: char)
    requires
        c != d,
    ensures
        c as u32 != d as u32,
{
    assert(c as u32 as char == c);
    assert(d as u32 as char == d);
}

/// What comes no later than a text that comes no later than a third comes no
/// later than the third.
pub proof fn lemma_text_le_transitive(a: Seq<char>, b: Seq<char>, c: Seq<char>)
    requires
        text_le(a, b),
        text_le(b, c),
    ensures
        text_le(a, c),
        text_order_of(a, b) is Before || text_order_of(b, c) is Before ==> text_order_of(a, c) is Before,
    decreases a.len(),
{
    if a.len() > 0 && b.len() > 0 && c.len() > 0 {
        if a[0] == b[0] && b[0] == c[0] {
            lemma_text_le_transitive(a.drop_first(), b.drop_first(), c.drop_first());
        }
    }
}

/// The lexicographic order is a total order on texts.
pub proof fn lemma_text_le_total()
    ensures
        total_ordering(|a: Seq<char>, b: Seq<char>| text_le(a, b)),
{
    let le = |a: Seq<char>, b: Seq<char>| text_le(a, b);
    assert forall|a: Seq<char>| #[trigger] le(a, a) by {
        lemma_same_iff_equal(a, a);
    }
    assert forall|a: Seq<char>, b: Seq<char>| #[trigger] le(a, b) && #[trigger] le(b, a) implies a
        == b by {
        lemma_order_flips(a, b);
        lemma_same_iff_equal(a, b);
    }
    assert forall|a: Seq<char>, b: Seq<char>, c: Seq<char>| #[trigger] le(a, b) && #[trigger] le(
        b,
        c,
    ) implies le(a, c) by {
        lemma_text_le_transitive(a, b, c);
    }
    assert forall|a: Seq<char>, b: Seq<char>| #[trigger] le(a, b) || #[trigger] le(b, a) by {
        lemma_order_flips(a, b);
    }
}

/// Dropping a common first character leaves the comparison unchanged.
proof fn lemma_order_of_tails(a: Seq<char>, b: Seq<char>, k: int)
    requires
        0 <= k < a.len(),
        k < b.len(),
        a[k] == b[k],
    ensures
        text_order_of(a.skip(k), b.skip(k)) == text_order_of(a.skip(k + 1), b.skip(k + 1)),
{
    assert(a.skip(k).drop_first() =~= a.skip(k + 1));
    assert(b.skip(k).drop_first() =~= b.skip(k + 1));
}

/// Compares two texts lexicographically by character code.
pub fn text_order(a: &str, b: &str) -> (r: TextOrder)
    ensures
        r == text_order_of(a@, b@),
{
    let mut xs = a.chars();
    let mut ys = b.chars();
    let ghost mut k: int = 0;
    assert(a@.skip(0) =~= a@);
    assert(b@.skip(0) =~= b@);
    loop
        invariant
            0 <= k <= a@.len(),
            k <= b@.len(),
            xs.remaining() == a@.skip(k),
            ys.remaining() == b@.skip(k),
            text_order_of(a@, b@) == text_order_of(a@.skip(k), b@.skip(k)),
        decreases a@.len() - k,
    {
        let x = xs.next();
        let y = ys.next();
        match (x, y) {
            (None, None) => {
                return TextOrder::Same;
            },
            (None, Some(_)) => {
                return TextOrder::Before;
            },
            (Some(_), None) => {
                return TextOrder::After;
            },
            (Some(c), Some(d)) => {
                if c != d {
                    if (c as u32) < (d as u32) {
                        return TextOrder::Before;
                    } else {
                        return TextOrder::After;
                    }
                }
                proof {
                    lemma_order_of_tails(a@, b@, k);
                    assert(a@.skip(k).drop_first() =~= a@.skip(k + 1));
                    assert(b@.skip(k).drop_first() =~= b@.skip(k + 1));
                    k = k + 1;
                }
            },
        }
    }
}

/// The characters of a text, in order.
pub fn chars_of(s: &str) -> (v: Vec<char>)
    ensures
        v@ == s@,
{
    let mut v: Vec<char> = Vec::new();
    let mut rest = s.chars();
    let ghost mut k: int = 0;
    assert(s@.skip(0) =~= s@);
    loop
        invariant
            0 <= k <= s@.len(),
            rest.remaining() == s@.skip(k),
            v@ == s@.take(k),
        decreases s@.len() - k,
    {
        match rest.next() {
            None => {
                assert(s@.take(k) =~= s@);
                return v;
            },
            Some(c) => {
                v.push(c);
                proof {
                    assert(s@.skip(k).drop_first() =~= s@.skip(k + 1));
                    assert(s@.take(k).push(s@[k]) =~= s@.take(k + 1));
                    k = k + 1;
                }
            },
        }
    }
}

/// The code of a character, with an ASCII capital letter folded onto its
/// small letter.
pub fn fold_code(c: char) -> (n: u32)
    ensures
        n == folded_code(c),
{
    let n: u32 = c as u32;
    if 65 <= n && n <= 90 {
        n + 32
    } else {
        n
    }
}

/// Finds the last dot among the characters of a name.
fn find_last_dot(name: &Vec<char>) -> (found: Option<usize>)
    ensures
        match found {
            Some(p) => last_dot(name@) == Some(p as int) && p < name.len(),
            None => last_dot(name@) is None,
        },
{
    let mut found: Option<usize> = None;
    let mut i: usize = 0;
    assert(name@.take(0) =~= Seq::<char>::empty());
    while i < name.len()
        invariant
            0 <= i <= name.len(),
            match found {
                Some(p) => last_dot(name@.take(i as int)) == Some(p as int) && p < i,
                None => last_dot(name@.take(i as int)) is None,
            },
        decreases name.len() - i,
    {
        proof {
            let upto = name@.take(i + 1);
            assert(upto.drop_last() =~= name@.take(i as int));
            assert(upto.last() == name@[i as int]);
        }
        if name[i] == '.' {
            found = Some(i);
        }
        i = i + 1;
    }
    assert(name@.take(i as int) =~= name@);
    found
}

/// Whether a file name has the wanted extension, up to the case of ASCII
/// letters.
pub fn name_has_extension(name: &str, wanted: &str) -> (r: bool)
    ensures
        r == has_extension(name@, wanted@),
{
    let letters = chars_of(name);
    let want = chars_of(wanted);
    match find_last_dot(&letters) {
        None => false,
        Some(p) => {
            if p == 0 {
                return false;
            }
            let start: usize = p + 1;
            let ghost found = letters@.skip(start as int);
            if letters.len() - start != want.len() {
                return false;
            }
            let mut j: usize = 0;
            while j < want.len()
                invariant
                    0 <= j <= want.len(),
                    start + want.len() == letters.len(),
                    letters@ == name@,
                    want@ == wanted@,
                    last_dot(letters@) == Some(p as int),
                    p > 0,
                    start == p + 1,
                    found == letters@.skip(start as int),
                    forall|i: int| 0 <= i < j ==> folded_code(#[trigger] found[i]) == folded_code(want@[i]),
                decreases want.len() - j,
            {
                assert(found[j as int] == letters@[start + j]);
                if fold_code(letters[start + j]) != fold_code(want[j]) {
                    assert(folded_code(found[j as int]) != folded_code(want@[j as int]));
                    return false;
                }
                j = j + 1;
            }
            true
        },
    }
}

} // verus!
