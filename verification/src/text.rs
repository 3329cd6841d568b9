use vstd::prelude::*;

verus! {

/// An ASCII decimal digit.
pub open spec fn is_digit(c: char) -> bool {
    '0' <= c && c <= '9'
}

/// The number that a non-empty run of decimal digits denotes.
pub open spec fn digits_value(s: Seq<char>) -> nat
    decreases s.len(),
{
    if s.len() == 0 {
        0
    } else {
        digits_value(s.drop_last()) * 10 + ((s.last() as int - '0' as int) as nat)
    }
}

/// The digits of an unsigned decimal number: an optional leading `+`
/// stripped off.
pub open spec fn unsigned_digits(s: Seq<char>) -> Seq<char> {
    if s.len() > 0 && s[0] == '+' {
        s.drop_first()
    } else {
        s
    }
}

/// The value of `s` read as an unsigned decimal number (an optional `+`
/// followed by one or more ASCII digits, nothing else), or `None`.
pub open spec fn unsigned_decimal(s: Seq<char>) -> Option<nat> {
    let d = unsigned_digits(s);
    if d.len() > 0 && forall|i: int| 0 <= i < d.len() ==> is_digit(#[trigger] d[i]) {
        Some(digits_value(d))
    } else {
        None
    }
}

/// `str::parse::<u8>`: by its documentation the text must be an optional `+`
/// followed by ASCII digits only, and the value must fit in a `u8`; otherwise
/// a `ParseIntError` comes back. Which kind of `ParseIntError` is left unsaid.
#[verifier::external_body]
pub(crate) fn parse_u8(s: &str) -> (r: Result<u8, core::num::ParseIntError>)
    ensures
        r is Ok <==> (unsigned_decimal(s@) matches Some(v) && v <= u8::MAX),
        r matches Ok(v) ==> unsigned_decimal(s@) == Some(v as nat),
{
    s.parse::<u8>()
}

/// `str::parse::<usize>`: by its documentation the text must be an optional
/// `+` followed by ASCII digits only, and the value must fit in a `usize`;
/// otherwise a `ParseIntError` comes back. Which kind is left unsaid.
#[verifier::external_body]
pub(crate) fn parse_usize(s: &str) -> (r: Result<usize, core::num::ParseIntError>)
    ensures
        r is Ok <==> (unsigned_decimal(s@) matches Some(v) && v <= usize::MAX),
        r matches Ok(v) ==> unsigned_decimal(s@) == Some(v as nat),
{
    s.parse::<usize>()
}

/// `String::push`: appends one character to the end of the string.
#[verifier::external_body]
pub(crate) fn push_char(s: &mut String, c: char)
    ensures
        final(s)@ == old(s)@.push(c),
{
    s.push(c)
}

/// The string made of the given characters, in order.
pub fn string_from_chars(chars: &Vec<char>) -> (r: String)
    ensures
        r@ == chars@,
{
    let mut s = String::new();
    let mut i: usize = 0;
    while i < chars.len()
        invariant
            i <= chars.len(),
            s@ == chars@.subrange(0, i as int),
        decreases chars.len() - i,
    {
        push_char(&mut s, chars[i]);
        i = i + 1;
        assert(s@ =~= chars@.subrange(0, i as int));
    }
    assert(chars@.subrange(0, chars.len() as int) =~= chars@);
    s
}


/// The number of bytes that a character takes in UTF-8.
pub open spec fn char_width(c: char) -> nat {
    if (c as u32) < 0x80 {
        1
    } else if (c as u32) < 0x800 {
        2
    } else if (c as u32) < 0x10000 {
        3
    } else {
        4
    }
}

/// The number of bytes that a text takes in UTF-8.
pub open spec fn text_width(s: Seq<char>) -> nat
    decreases s.len(),
{
    if s.len() == 0 {
        0
    } else {
        text_width(s.drop_last()) + char_width(s.last())
    }
}

/// The number of bytes that the first `k` characters of a text take.
pub open spec fn prefix_width(s: Seq<char>, k: int) -> nat {
    text_width(s.take(k))
}

/// Byte offset `b` falls between two characters of the text (or at an end).
pub open spec fn is_boundary(s: Seq<char>, b: int) -> bool {
    exists|k: int| 0 <= k <= s.len() && #[trigger] prefix_width(s, k) == b
}

/// The number of characters before byte offset `b`, when it is a boundary.
pub open spec fn boundary_index(s: Seq<char>, b: int) -> int {
    choose|k: int| 0 <= k <= s.len() && #[trigger] prefix_width(s, k) == b
}

/// Widths add up over concatenation.
pub proof fn lemma_text_width_concat(a: Seq<char>, b: Seq<char>)
    ensures
        text_width(a + b) == text_width(a) + text_width(b),
    decreases b.len(),
{
    if b.len() == 0 {
        assert(a + b =~= a);
    } else {
        lemma_text_width_concat(a, b.drop_last());
        assert((a + b).drop_last() =~= a + b.drop_last());
        assert((a + b).last() == b.last());
    }
}

proof fn lemma_single_width(c: char)
    ensures
        text_width(seq![c]) == char_width(c),
{
    assert(seq![c].drop_last() =~= Seq::<char>::empty());
    assert(text_width(Seq::<char>::empty()) == 0);
    assert(text_width(seq![c]) == text_width(seq![c].drop_last()) + char_width(seq![c].last()));
}

pub(crate) proof fn lemma_prefix_width_step(s: Seq<char>, k: int)
    requires
        0 <= k < s.len(),
    ensures
        prefix_width(s, k + 1) == prefix_width(s, k) + char_width(s[k]),
{
    assert(s.take(k + 1).drop_last() =~= s.take(k));
}

/// Longer prefixes take strictly more bytes.
pub proof fn lemma_prefix_width_grows(s: Seq<char>, i: int, j: int)
    requires
        0 <= i < j <= s.len(),
    ensures
        prefix_width(s, i) < prefix_width(s, j),
    decreases j - i,
{
    lemma_prefix_width_step(s, j - 1);
    if i < j - 1 {
        lemma_prefix_width_grows(s, i, j - 1);
    }
}

pub(crate) proof fn lemma_prefix_width_whole(s: Seq<char>, k: int)
    requires
        0 <= k <= s.len(),
    ensures
        prefix_width(s, k) <= text_width(s),
        prefix_width(s, s.len() as int) == text_width(s),
{
    assert(s.take(s.len() as int) =~= s);
    if k < s.len() {
        lemma_prefix_width_grows(s, k, s.len() as int);
    }
}

/// A boundary belongs to exactly one character count.
pub proof fn lemma_boundary_unique(s: Seq<char>, b: int, k: int)
    requires
        0 <= k <= s.len(),
        prefix_width(s, k) == b,
    ensures
        is_boundary(s, b),
        boundary_index(s, b) == k,
{
    let j = boundary_index(s, b);
    if j < k {
        lemma_prefix_width_grows(s, j, k);
    } else if k < j {
        lemma_prefix_width_grows(s, k, j);
    }
}

/// Inserting a character at a boundary adds its width and leaves the
/// bytes before it in place.
pub proof fn lemma_insert_width(s: Seq<char>, k: int, c: char)
    requires
        0 <= k <= s.len(),
    ensures
        text_width(s.insert(k, c)) == text_width(s) + char_width(c),
        prefix_width(s.insert(k, c), k) == prefix_width(s, k),
{
    assert(s.insert(k, c) =~= s.take(k) + seq![c] + s.skip(k));
    assert(s =~= s.take(k) + s.skip(k));
    lemma_text_width_concat(s.take(k) + seq![c], s.skip(k));
    lemma_text_width_concat(s.take(k), seq![c]);
    lemma_text_width_concat(s.take(k), s.skip(k));
    lemma_single_width(c);
    assert(s.insert(k, c).take(k) =~= s.take(k));
}

/// Removing a character takes its width away and leaves the bytes before
/// it in place.
pub proof fn lemma_remove_width(s: Seq<char>, j: int)
    requires
        0 <= j < s.len(),
    ensures
        text_width(s.remove(j)) + char_width(s[j]) == text_width(s),
        prefix_width(s.remove(j), j) == prefix_width(s, j),
{
    assert(s.remove(j) =~= s.take(j) + s.skip(j + 1));
    assert(s =~= s.take(j) + seq![s[j]] + s.skip(j + 1));
    lemma_text_width_concat(s.take(j) + seq![s[j]], s.skip(j + 1));
    lemma_text_width_concat(s.take(j), seq![s[j]]);
    lemma_text_width_concat(s.take(j), s.skip(j + 1));
    lemma_single_width(s[j]);
    assert(s.remove(j).take(j) =~= s.take(j));
}

/// `char::len_utf8`, computed from the code point.
pub fn char_width_of(c: char) -> (w: usize)
    ensures
        w == char_width(c),
        1 <= w <= 4,
{
    let v: u32 = c as u32;
    if v < 0x80 {
        1
    } else if v < 0x800 {
        2
    } else if v < 0x10000 {
        3
    } else {
        4
    }
}

/// The number of bytes that the text takes in UTF-8.
pub fn text_width_of(s: &Vec<char>) -> (w: usize)
    requires
        text_width(s@) <= usize::MAX,
    ensures
        w == text_width(s@),
{
    let mut acc: usize = 0;
    let mut i: usize = 0;
    proof {
        assert(s@.take(0) =~= Seq::<char>::empty());
    }
    while i < s.len()
        invariant
            i <= s.len(),
            acc == prefix_width(s@, i as int),
            text_width(s@) <= usize::MAX,
        decreases s.len() - i,
    {
        proof {
            lemma_prefix_width_step(s@, i as int);
            lemma_prefix_width_whole(s@, i + 1);
        }
        acc = acc + char_width_of(s[i]);
        i = i + 1;
    }
    proof {
        lemma_prefix_width_whole(s@, i as int);
    }
    acc
}

/// Whether byte offset `b` falls between two characters of the text.
pub fn is_boundary_at(s: &Vec<char>, b: usize) -> (r: bool)
    ensures
        r == is_boundary(s@, b as int),
{
    let mut acc: u128 = 0;
    let mut i: usize = 0;
    proof {
        assert(s@.take(0) =~= Seq::<char>::empty());
    }
    while i < s.len() && acc < b as u128
        invariant
            i <= s.len(),
            acc == prefix_width(s@, i as int),
            acc <= 4 * i,
            forall|k: int| 0 <= k < i ==> #[trigger] prefix_width(s@, k) < b,
        decreases s.len() - i,
    {
        proof {
            lemma_prefix_width_step(s@, i as int);
        }
        acc = acc + char_width_of(s[i]) as u128;
        i = i + 1;
    }
    if acc == b as u128 {
        proof {
            lemma_boundary_unique(s@, b as int, i as int);
        }
        true
    } else {
        proof {
            assert forall|k: int| 0 <= k <= s@.len() implies #[trigger] prefix_width(s@, k)
                != b by {
                if k > i {
                    lemma_prefix_width_grows(s@, i as int, k);
                }
            }
        }
        false
    }
}

/// The number of characters before byte offset `b`, which must be a boundary.
pub fn boundary_index_at(s: &Vec<char>, b: usize) -> (k: usize)
    requires
        is_boundary(s@, b as int),
    ensures
        k <= s@.len(),
        k == boundary_index(s@, b as int),
        prefix_width(s@, k as int) == b,
{
    let ghost target = boundary_index(s@, b as int);
    let mut acc: usize = 0;
    let mut i: usize = 0;
    proof {
        assert(s@.take(0) =~= Seq::<char>::empty());
    }
    while acc < b
        invariant
            i <= target,
            0 <= target <= s@.len(),
            prefix_width(s@, target) == b,
            acc == prefix_width(s@, i as int),
        decreases target - i,
    {
        proof {
            if target <= i {
                if target < i {
                    lemma_prefix_width_grows(s@, target, i as int);
                }
            }
            lemma_prefix_width_step(s@, i as int);
            if i + 1 < target {
                lemma_prefix_width_grows(s@, i + 1, target);
            }
        }
        let len = s.len();
        assert(i < len);
        acc = acc + char_width_of(s[i]);
        i = i + 1;
    }
    proof {
        if i < target {
            lemma_prefix_width_grows(s@, i as int, target);
        }
        lemma_boundary_unique(s@, b as int, i as int);
    }
    i
}

} // verus!
