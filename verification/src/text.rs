//! Character-level helpers on strings: equality, search, labels and numbers.

use vstd::prelude::*;
use vstd::string::StrSliceExecFns;
use vstd::string::StringExecFns;

verus! {

broadcast use vstd::string::group_string_axioms;

/// The characters of `s`, in order.
pub fn chars_of(s: &str) -> (v: Vec<char>)
    ensures
        v@ == s@,
{
    let mut v: Vec<char> = Vec::new();
    for c in it: s.chars()
        invariant
            v@ == it.seq().take(it.index() as int),
    {
        v.push(c);
    }
    assert(v@ =~= s@);
    v
}

/// Whether two strings hold the same characters.
pub fn str_eq(a: &str, b: &str) -> (r: bool)
    ensures
        r == (a@ == b@),
{
    let x = chars_of(a);
    let y = chars_of(b);
    if x.len() != y.len() {
        return false;
    }
    let mut i: usize = 0;
    while i < x.len()
        invariant
            x@ == a@,
            y@ == b@,
            x.len() == y.len(),
            0 <= i <= x.len(),
            forall|j: int| 0 <= j < i ==> x@[j] == y@[j],
        decreases x.len() - i,
    {
        if x[i] != y[i] {
            return false;
        }
        i = i + 1;
    }
    assert(a@ =~= b@);
    true
}

/// Whether `needle` occurs in `haystack` starting at position `i`.
pub open spec fn occurs_at(haystack: Seq<char>, needle: Seq<char>, i: int) -> bool {
    0 <= i && i + needle.len() <= haystack.len() && haystack.subrange(i, i + needle.len())
        == needle
}

/// Whether `needle` occurs anywhere in `haystack` (the empty needle always does).
pub open spec fn contains_text(haystack: Seq<char>, needle: Seq<char>) -> bool {
    exists|i: int| occurs_at(haystack, needle, i)
}

/// Whether `needle` occurs in `haystack`.
pub fn str_contains(haystack: &str, needle: &str) -> (r: bool)
    ensures
        r == contains_text(haystack@, needle@),
{
    let h = chars_of(haystack);
    let n = chars_of(needle);
    if n.len() > h.len() {
        proof {
            assert forall|i: int| !occurs_at(haystack@, needle@, i) by {}
        }
        return false;
    }
    let last = h.len() - n.len();
    let mut i: usize = 0;
    while i <= last
        invariant
            h@ == haystack@,
            n@ == needle@,
            n.len() <= h.len(),
            last == h.len() - n.len(),
            0 <= i <= last + 1,
            forall|j: int| 0 <= j < i ==> !occurs_at(haystack@, needle@, j),
        decreases last + 1 - i,
    {
        let mut k: usize = 0;
        while k < n.len() && h[i + k] == n[k]
            invariant
                h@ == haystack@,
                n@ == needle@,
                i <= last,
                last == h.len() - n.len(),
                0 <= k <= n.len(),
                forall|m: int| 0 <= m < k ==> h@[i + m] == n@[m],
            decreases n.len() - k,
        {
            k = k + 1;
        }
        if k == n.len() {
            assert(haystack@.subrange(i as int, i + needle@.len()) =~= needle@);
            assert(occurs_at(haystack@, needle@, i as int));
            return true;
        }
        assert(!occurs_at(haystack@, needle@, i as int)) by {
            if occurs_at(haystack@, needle@, i as int) {
                assert(haystack@.subrange(i as int, i + needle@.len())[k as int] == h@[i + k]);
            }
        }
        i = i + 1;
    }
    proof {
        assert forall|j: int| !occurs_at(haystack@, needle@, j) by {
            if occurs_at(haystack@, needle@, j) {
                assert(j < i);
            }
        }
    }
    false
}

/// The label of the webview that shows a service.
pub open spec fn service_label_view(service_id: Seq<char>) -> Seq<char> {
    "service-"@ + service_id
}

/// The label of the webview that shows the service `service_id`.
pub fn service_label(service_id: &str) -> (label: String)
    ensures
        label@ == service_label_view(service_id@),
{
    let mut label = String::from_str("service-");
    label.append(service_id);
    label
}

/// The character that writes the decimal digit `d`.
pub open spec fn decimal_digit(d: int) -> char {
    "0123456789"@[d]
}

/// The decimal numeral of `n`, most significant digit first, without leading zeros.
pub open spec fn decimal_view(n: nat) -> Seq<char>
    decreases n,
{
    if n < 10 {
        seq![decimal_digit(n as int)]
    } else {
        decimal_view(n / 10).push(decimal_digit((n % 10) as int))
    }
}

proof fn lemma_decimal_digits_distinct(d1: int, d2: int)
    requires
        0 <= d1 < 10,
        0 <= d2 < 10,
        decimal_digit(d1) == decimal_digit(d2),
    ensures
        d1 == d2,
{
    reveal_strlit("0123456789");
}

proof fn lemma_decimal_len(n: nat)
    ensures
        decimal_view(n).len() >= 1,
        n < 10 <==> decimal_view(n).len() == 1,
    decreases n,
{
    if n >= 10 {
        lemma_decimal_len(n / 10);
    }
}

/// Different numbers have different numerals.
pub proof fn lemma_decimal_injective(a: nat, b: nat)
    requires
        decimal_view(a) == decimal_view(b),
    ensures
        a == b,
    decreases a,
{
    lemma_decimal_len(a);
    lemma_decimal_len(b);
    if a < 10 {
        assert(b < 10);
        assert(decimal_view(a)[0] == decimal_digit(a as int));
        assert(decimal_view(b)[0] == decimal_digit(b as int));
        lemma_decimal_digits_distinct(a as int, b as int);
    } else {
        let (va, vb) = (decimal_view(a), decimal_view(b));
        assert(va.last() == vb.last());
        lemma_decimal_digits_distinct((a % 10) as int, (b % 10) as int);
        assert(va.drop_last() =~= decimal_view(a / 10));
        assert(vb.drop_last() =~= decimal_view(b / 10));
        lemma_decimal_injective(a / 10, b / 10);
    }
}

/// The decimal numeral of `n`.
pub fn decimal_string(n: u64) -> (s: String)
    ensures
        s@ == decimal_view(n as nat),
    decreases n,
{
    let d = (n % 10) as usize;
    proof {
        reveal_strlit("0123456789");
    }
    let digit = "0123456789".substring_char(d, d + 1);
    assert(digit@ =~= seq![decimal_digit(d as int)]);
    if n < 10 {
        String::from_str(digit)
    } else {
        let mut s = decimal_string(n / 10);
        s.append(digit);
        s
    }
}

} // verus!
