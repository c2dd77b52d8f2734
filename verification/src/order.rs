//! The order of system calls by name.

use vstd::prelude::*;

verus! {

/// `a` stands before `b` in a dictionary of byte strings.
pub open spec fn bytes_less(a: Seq<u8>, b: Seq<u8>) -> bool
    decreases b.len(),
{
    b.len() > 0 && (a.len() == 0 || a[0] < b[0] || (a[0] == b[0] && bytes_less(
        a.drop_first(),
        b.drop_first(),
    )))
}

/// The name `a` is listed before the name `b`: names are ordered by their bytes.
pub open spec fn name_less(a: Seq<char>, b: Seq<char>) -> bool {
    bytes_less(vstd::utf8::encode_utf8(a), vstd::utf8::encode_utf8(b))
}

/// The call `i` with the name `a` is listed before the call `j` with the name `b`: by name, and
/// by number where both have the same name.
pub open spec fn precedes(a: Seq<char>, i: u32, b: Seq<char>, j: u32) -> bool {
    name_less(a, b) || (vstd::utf8::encode_utf8(a) == vstd::utf8::encode_utf8(b) && i < j)
}

proof fn lemma_bytes_less_irreflexive(a: Seq<u8>)
    ensures
        !bytes_less(a, a),
    decreases a.len(),
{
    if a.len() > 0 {
        lemma_bytes_less_irreflexive(a.drop_first());
    }
}

proof fn lemma_bytes_less_transitive(a: Seq<u8>, b: Seq<u8>, c: Seq<u8>)
    requires
        bytes_less(a, b),
        bytes_less(b, c),
    ensures
        bytes_less(a, c),
    decreases c.len(),
{
    if a.len() > 0 && a[0] == b[0] && b[0] == c[0] {
        lemma_bytes_less_transitive(a.drop_first(), b.drop_first(), c.drop_first());
    }
}

proof fn lemma_bytes_less_total(a: Seq<u8>, b: Seq<u8>)
    requires
        a != b,
    ensures
        bytes_less(a, b) || bytes_less(b, a),
    decreases b.len(),
{
    if a.len() == 0 || b.len() == 0 {
        if a.len() == 0 && b.len() == 0 {
            assert(a =~= b);
        }
    } else if a[0] == b[0] {
        if a.drop_first() == b.drop_first() {
            assert(seq![a[0]] + a.drop_first() =~= a);
            assert(seq![b[0]] + b.drop_first() =~= b);
        } else {
            lemma_bytes_less_total(a.drop_first(), b.drop_first());
        }
    }
}

/// No call is listed before itself.
pub proof fn precedes_irreflexive(a: Seq<char>, i: u32)
    ensures
        !precedes(a, i, a, i),
{
    lemma_bytes_less_irreflexive(vstd::utf8::encode_utf8(a));
}

/// What is listed before a call that is listed before another is listed before that other too.
pub proof fn precedes_transitive(
    a: Seq<char>,
    i: u32,
    b: Seq<char>,
    j: u32,
    c: Seq<char>,
    k: u32,
)
    requires
        precedes(a, i, b, j),
        precedes(b, j, c, k),
    ensures
        precedes(a, i, c, k),
{
    if name_less(a, b) && name_less(b, c) {
        lemma_bytes_less_transitive(
            vstd::utf8::encode_utf8(a),
            vstd::utf8::encode_utf8(b),
            vstd::utf8::encode_utf8(c),
        );
    }
}

/// Of two calls one is listed before the other.
pub proof fn precedes_total(a: Seq<char>, i: u32, b: Seq<char>, j: u32)
    requires
        i != j,
    ensures
        precedes(a, i, b, j) || precedes(b, j, a, i),
{
    if vstd::utf8::encode_utf8(a) != vstd::utf8::encode_utf8(b) {
        lemma_bytes_less_total(vstd::utf8::encode_utf8(a), vstd::utf8::encode_utf8(b));
    }
}

/// How two byte strings stand to each other.
enum Place {
    Before,
    Same,
    After,
}

/// Compares two byte strings from their first difference on.
fn compare_bytes(a: &[u8], b: &[u8]) -> (place: Place)
    ensures
        match place {
            Place::Before => bytes_less(a@, b@),
            Place::Same => a@ == b@,
            Place::After => bytes_less(b@, a@),
        },
{
    let mut i: usize = 0;
    assert(a@.skip(0) =~= a@);
    assert(b@.skip(0) =~= b@);
    while i < a.len() && i < b.len() && a[i] == b[i]
        invariant
            i <= a@.len(),
            i <= b@.len(),
            forall|j: int| 0 <= j < i ==> a@[j] == b@[j],
            bytes_less(a@, b@) == bytes_less(a@.skip(i as int), b@.skip(i as int)),
            bytes_less(b@, a@) == bytes_less(b@.skip(i as int), a@.skip(i as int)),
        decreases a.len() - i,
    {
        assert(a@.skip(i as int).drop_first() =~= a@.skip(i + 1));
        assert(b@.skip(i as int).drop_first() =~= b@.skip(i + 1));
        i += 1;
    }
    if i == b.len() {
        if i == a.len() {
            assert(a@ =~= b@);
            Place::Same
        } else {
            Place::After
        }
    } else if i == a.len() || a[i] < b[i] {
        Place::Before
    } else {
        Place::After
    }
}

/// Tells whether the call `i` with the name `a` is listed before the call `j` with the name
/// `b`.
pub fn comes_before(a: &str, i: u32, b: &str, j: u32) -> (before: bool)
    ensures
        before == precedes(a@, i, b@, j),
{
    let place = compare_bytes(a.as_bytes(), b.as_bytes());
    proof {
        let a = vstd::utf8::encode_utf8(a@);
        let b = vstd::utf8::encode_utf8(b@);
        lemma_bytes_less_irreflexive(a);
        if bytes_less(a, b) && bytes_less(b, a) {
            lemma_bytes_less_transitive(a, b, a);
        }
    }
    match place {
        Place::Before => true,
        Place::Same => i < j,
        Place::After => false,
    }
}

/// Two byte strings are ordered by their first difference: the one with the smaller byte there
/// comes first, and one that ends there comes before one that goes on.
pub proof fn first_difference_decides(a: Seq<u8>, b: Seq<u8>, k: int)
    requires
        0 <= k <= a.len(),
        k <= b.len(),
        forall|i: int| 0 <= i < k ==> a[i] == b[i],
        k == a.len() || k == b.len() || a[k] != b[k],
    ensures
        bytes_less(a, b) <==> k < b.len() && (k == a.len() || a[k] < b[k]),
    decreases k,
{
    if k > 0 {
        let rest_a = a.drop_first();
        let rest_b = b.drop_first();
        assert forall|i: int| 0 <= i < k - 1 implies rest_a[i] == rest_b[i] by {
            assert(a[i + 1] == b[i + 1]);
        }
        assert(a[0] == b[0]);
        first_difference_decides(rest_a, rest_b, k - 1);
    }
}

/// A call is listed before another by the first byte in which their names differ, the shorter
/// name first where one begins the other; and by number where the names are the same.
pub proof fn calls_are_listed_by_name(a: Seq<char>, i: u32, b: Seq<char>, j: u32, k: int)
    requires
        ({
            let x = vstd::utf8::encode_utf8(a);
            let y = vstd::utf8::encode_utf8(b);
            &&& 0 <= k <= x.len()
            &&& k <= y.len()
            &&& forall|n: int| 0 <= n < k ==> x[n] == y[n]
            &&& k == x.len() || k == y.len() || x[k] != y[k]
        }),
    ensures
        ({
            let x = vstd::utf8::encode_utf8(a);
            let y = vstd::utf8::encode_utf8(b);
            precedes(a, i, b, j) <==> if k == x.len() && k == y.len() {
                i < j
            } else {
                k < y.len() && (k == x.len() || x[k] < y[k])
            }
        }),
{
    let x = vstd::utf8::encode_utf8(a);
    let y = vstd::utf8::encode_utf8(b);
    first_difference_decides(x, y, k);
    if k == x.len() && k == y.len() {
        assert(x =~= y);
    } else if k < x.len() && k < y.len() {
        assert(x[k] != y[k]);
    }
}

} // verus!
