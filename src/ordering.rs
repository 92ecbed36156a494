//! The order the collection is kept in after loading: by company name, then
//! by contact name, with missing names last.
use crate::customer::{Customer, CustomerView};
use crate::filter::customers_view;
use crate::text::chars_of;
use vstd::prelude::*;

verus! {

/// Lexicographic order on character sequences, character by character by
/// code point, a proper prefix first: `a` comes strictly before `b`.
pub open spec fn seq_lt(a: Seq<char>, b: Seq<char>) -> bool
    decreases a.len(),
{
    if a.len() == 0 {
        b.len() > 0
    } else if b.len() == 0 {
        false
    } else if a[0] != b[0] {
        a[0] < b[0]
    } else {
        seq_lt(a.drop_first(), b.drop_first())
    }
}

/// The company name a record sorts by; an empty name sorts after every
/// other.
pub open spec fn name_key(c: CustomerView) -> Seq<char> {
    if c.name.len() == 0 {
        seq!['\u{10FFFF}']
    } else {
        c.name
    }
}

/// The contact name a record sorts by; a missing one sorts after every other.
pub open spec fn contact_key(c: CustomerView) -> Seq<char> {
    match c.contact_name {
        Some(s) => s,
        None => seq!['\u{10FFFF}'],
    }
}

/// `a` sorts strictly before `b`: by company name, then by contact name.
pub open spec fn customer_lt(a: CustomerView, b: CustomerView) -> bool {
    ||| seq_lt(name_key(a), name_key(b))
    ||| (name_key(a) == name_key(b) && seq_lt(contact_key(a), contact_key(b)))
}

/// `x` placed into `s` before the first record that does not sort strictly
/// before it.
pub open spec fn insert_in_order(s: Seq<CustomerView>, x: CustomerView) -> Seq<CustomerView>
    decreases s.len(),
{
    if s.len() == 0 {
        seq![x]
    } else if customer_lt(s[0], x) {
        seq![s[0]] + insert_in_order(s.drop_first(), x)
    } else {
        seq![x] + s
    }
}

/// The records of `s` in order, records that sort alike keeping their order
/// in `s`.
pub open spec fn sorted_records(s: Seq<CustomerView>) -> Seq<CustomerView>
    decreases s.len(),
{
    if s.len() == 0 {
        Seq::empty()
    } else {
        insert_in_order(sorted_records(s.drop_first()), s[0])
    }
}

/// No record of `s` sorts strictly before one that comes earlier.
pub open spec fn in_order(s: Seq<CustomerView>) -> bool {
    forall|i: int, j: int| 0 <= i < j < s.len() ==> !customer_lt(#[trigger] s[j], #[trigger] s[i])
}

proof fn lemma_seq_lt_irreflexive(a: Seq<char>)
    ensures
        !seq_lt(a, a),
    decreases a.len(),
{
    if a.len() > 0 {
        lemma_seq_lt_irreflexive(a.drop_first());
    }
}

proof fn lemma_seq_lt_transitive(a: Seq<char>, b: Seq<char>, c: Seq<char>)
    requires
        seq_lt(a, b),
        seq_lt(b, c),
    ensures
        seq_lt(a, c),
    decreases a.len(),
{
    if a.len() > 0 && b.len() > 0 && c.len() > 0 && a[0] == b[0] && b[0] == c[0] {
        lemma_seq_lt_transitive(a.drop_first(), b.drop_first(), c.drop_first());
    }
}

proof fn lemma_seq_lt_total(a: Seq<char>, b: Seq<char>)
    requires
        a != b,
    ensures
        seq_lt(a, b) || seq_lt(b, a),
    decreases a.len(),
{
    if a.len() > 0 && b.len() > 0 && a[0] == b[0] {
        if a.drop_first() == b.drop_first() {
            assert(a =~= seq![a[0]] + a.drop_first());
            assert(b =~= seq![b[0]] + b.drop_first());
        }
        lemma_seq_lt_total(a.drop_first(), b.drop_first());
    } else if a.len() > 0 && b.len() > 0 {
        assert(a[0] != b[0]);
    } else if a.len() == 0 && b.len() == 0 {
        assert(a =~= b);
    }
}

proof fn lemma_seq_lt_asymmetric(a: Seq<char>, b: Seq<char>)
    requires
        seq_lt(a, b),
    ensures
        !seq_lt(b, a),
{
    if seq_lt(b, a) {
        lemma_seq_lt_transitive(a, b, a);
        lemma_seq_lt_irreflexive(a);
    }
}

proof fn lemma_customer_lt_asymmetric(a: CustomerView, b: CustomerView)
    requires
        customer_lt(a, b),
    ensures
        !customer_lt(b, a),
{
    if seq_lt(name_key(a), name_key(b)) {
        lemma_seq_lt_asymmetric(name_key(a), name_key(b));
        lemma_seq_lt_irreflexive(name_key(a));
    } else {
        lemma_seq_lt_asymmetric(contact_key(a), contact_key(b));
        lemma_seq_lt_irreflexive(name_key(a));
    }
}

/// Not sorting before is transitive: `c` is no earlier than `b`, which is
/// no earlier than `a`.
proof fn lemma_customer_le_transitive(a: CustomerView, b: CustomerView, c: CustomerView)
    requires
        !customer_lt(b, a),
        !customer_lt(c, b),
    ensures
        !customer_lt(c, a),
{
    let (na, nb, nc) = (name_key(a), name_key(b), name_key(c));
    let (ca, cb, cc) = (contact_key(a), contact_key(b), contact_key(c));
    if na != nb {
        lemma_seq_lt_total(na, nb);
    }
    if nb != nc {
        lemma_seq_lt_total(nb, nc);
    }
    if ca != cb {
        lemma_seq_lt_total(ca, cb);
    }
    if cb != cc {
        lemma_seq_lt_total(cb, cc);
    }
    if customer_lt(c, a) {
        if seq_lt(nc, na) {
            if seq_lt(na, nb) {
                lemma_seq_lt_transitive(nc, na, nb);
                lemma_seq_lt_asymmetric(nc, nb);
            } else if na == nb {
                lemma_seq_lt_asymmetric(nc, nb);
            }
        } else {
            if seq_lt(na, nb) {
                lemma_seq_lt_asymmetric(nc, nb);
            } else if seq_lt(ca, cb) {
                lemma_seq_lt_transitive(cc, ca, cb);
                lemma_seq_lt_asymmetric(cc, cb);
            } else {
                lemma_seq_lt_asymmetric(cc, cb);
            }
        }
    }
}

proof fn lemma_insert_in_order(s: Seq<CustomerView>, x: CustomerView)
    requires
        in_order(s),
    ensures
        in_order(insert_in_order(s, x)),
        insert_in_order(s, x).to_multiset() == s.to_multiset().insert(x),
        forall|k: int|
            0 <= k < insert_in_order(s, x).len() ==> #[trigger] insert_in_order(s, x)[k] == x
                || s.contains(insert_in_order(s, x)[k]),
        insert_in_order(s, x).len() == s.len() + 1,
    decreases s.len(),
{
    let r = insert_in_order(s, x);
    if s.len() == 0 {
        assert(r.to_multiset() =~= s.to_multiset().insert(x)) by {
            broadcast use vstd::seq_lib::group_to_multiset_ensures, vstd::multiset::group_multiset_properties;
        }
    } else if customer_lt(s[0], x) {
        let rest = s.drop_first();
        let t = insert_in_order(rest, x);
        assert(in_order(rest)) by {
            assert forall|i: int, j: int| 0 <= i < j < rest.len() implies !customer_lt(
                #[trigger] rest[j],
                #[trigger] rest[i],
            ) by {
                assert(rest[i] == s[i + 1] && rest[j] == s[j + 1]);
            }
        }
        lemma_insert_in_order(rest, x);
        assert(r == seq![s[0]] + t);
        assert forall|k: int| 0 <= k < t.len() implies !customer_lt(#[trigger] t[k], s[0]) by {
            if t[k] == x {
                lemma_customer_lt_asymmetric(s[0], x);
            } else {
                let m = choose|m: int| 0 <= m < rest.len() && rest[m] == t[k];
                assert(s[m + 1] == t[k]);
            }
        }
        assert forall|i: int, j: int| 0 <= i < j < r.len() implies !customer_lt(
            #[trigger] r[j],
            #[trigger] r[i],
        ) by {
            if i == 0 {
                assert(r[j] == t[j - 1]);
            } else {
                assert(r[i] == t[i - 1] && r[j] == t[j - 1]);
            }
        }
        assert forall|k: int| 0 <= k < r.len() implies #[trigger] r[k] == x || s.contains(r[k]) by {
            if k == 0 {
                assert(s[0] == r[k]);
            } else {
                assert(r[k] == t[k - 1]);
                if t[k - 1] != x {
                    let m = choose|m: int| 0 <= m < rest.len() && rest[m] == t[k - 1];
                    assert(s[m + 1] == r[k]);
                }
            }
        }
        vstd::seq_lib::lemma_multiset_commutative(seq![s[0]], t);
        vstd::seq_lib::lemma_multiset_commutative(seq![s[0]], rest);
        assert(s =~= seq![s[0]] + rest);
        assert(r.to_multiset() =~= s.to_multiset().insert(x));
    } else {
        assert(r == seq![x] + s);
        assert forall|i: int, j: int| 0 <= i < j < r.len() implies !customer_lt(
            #[trigger] r[j],
            #[trigger] r[i],
        ) by {
            if i == 0 {
                assert(r[j] == s[j - 1]);
                if j - 1 > 0 {
                    lemma_customer_le_transitive(x, s[0], s[j - 1]);
                }
            } else {
                assert(r[i] == s[i - 1] && r[j] == s[j - 1]);
            }
        }
        assert forall|k: int| 0 <= k < r.len() implies #[trigger] r[k] == x || s.contains(r[k]) by {
            if k > 0 {
                assert(r[k] == s[k - 1]);
            }
        }
        vstd::seq_lib::lemma_multiset_commutative(seq![x], s);
        assert(r.to_multiset() =~= s.to_multiset().insert(x)) by {
            broadcast use vstd::seq_lib::group_to_multiset_ensures, vstd::multiset::group_multiset_properties;
        }
    }
}

/// The sorted records are in order and are the records of `s`, each as
/// often as in `s`.
pub proof fn lemma_sorted_records(s: Seq<CustomerView>)
    ensures
        in_order(sorted_records(s)),
        sorted_records(s).to_multiset() == s.to_multiset(),
    decreases s.len(),
{
    if s.len() == 0 {
        assert(sorted_records(s).to_multiset() =~= s.to_multiset()) by {
            broadcast use vstd::seq_lib::group_to_multiset_ensures, vstd::multiset::group_multiset_properties;
        }
    } else {
        let rest = s.drop_first();
        lemma_sorted_records(rest);
        lemma_insert_in_order(sorted_records(rest), s[0]);
        vstd::seq_lib::lemma_multiset_commutative(seq![s[0]], rest);
        assert(s =~= seq![s[0]] + rest);
        assert(sorted_records(s).to_multiset() =~= s.to_multiset()) by {
            broadcast use vstd::seq_lib::group_to_multiset_ensures, vstd::multiset::group_multiset_properties;
        }
    }
}

/// Whether `a` comes strictly before `b`; see [`seq_lt`].
fn chars_lt(a: &Vec<char>, b: &Vec<char>) -> (r: bool)
    ensures
        r == seq_lt(a@, b@),
{
    let mut i: usize = 0;
    assert(a@.subrange(0, a@.len() as int) =~= a@);
    assert(b@.subrange(0, b@.len() as int) =~= b@);
    while i < a.len() && i < b.len() && a[i] == b[i]
        invariant
            i <= a@.len(),
            i <= b@.len(),
            seq_lt(a@, b@) == seq_lt(
                a@.subrange(i as int, a@.len() as int),
                b@.subrange(i as int, b@.len() as int),
            ),
        decreases a@.len() - i,
    {
        let ghost sa = a@.subrange(i as int, a@.len() as int);
        let ghost sb = b@.subrange(i as int, b@.len() as int);
        assert(sa.drop_first() =~= a@.subrange(i + 1, a@.len() as int));
        assert(sb.drop_first() =~= b@.subrange(i + 1, b@.len() as int));
        i = i + 1;
    }
    let ghost sa = a@.subrange(i as int, a@.len() as int);
    let ghost sb = b@.subrange(i as int, b@.len() as int);
    if i == a.len() {
        assert(sa.len() == 0);
        i < b.len()
    } else if i == b.len() {
        assert(sb.len() == 0);
        false
    } else {
        assert(sa[0] == a@[i as int] && sb[0] == b@[i as int]);
        a[i] < b[i]
    }
}

/// Whether `a` and `b` hold the same characters.
fn chars_eq(a: &Vec<char>, b: &Vec<char>) -> (r: bool)
    ensures
        r == (a@ == b@),
{
    if a.len() != b.len() {
        return false;
    }
    let mut i: usize = 0;
    while i < a.len()
        invariant
            a@.len() == b@.len(),
            i <= a@.len(),
            forall|k: int| 0 <= k < i ==> a@[k] == b@[k],
        decreases a@.len() - i,
    {
        if a[i] != b[i] {
            return false;
        }
        i = i + 1;
    }
    assert(a@ =~= b@);
    true
}

/// The company name `c` sorts by, as characters.
fn name_key_of(c: &Customer) -> (r: Vec<char>)
    ensures
        r@ == name_key(c@),
{
    if c.name.unicode_len() == 0 {
        vec!['\u{10FFFF}']
    } else {
        chars_of(c.name.as_str())
    }
}

/// The contact name `c` sorts by, as characters.
fn contact_key_of(c: &Customer) -> (r: Vec<char>)
    ensures
        r@ == contact_key(c@),
{
    match &c.contact_name {
        Some(s) => chars_of(s.as_str()),
        None => vec!['\u{10FFFF}'],
    }
}

/// Inserting before position `j` is inserting in order, where every record
/// before `j` sorts strictly before `x` and the one at `j` does not.
proof fn lemma_insert_at(s: Seq<CustomerView>, x: CustomerView, j: int)
    requires
        0 <= j <= s.len(),
        forall|k: int| 0 <= k < j ==> customer_lt(#[trigger] s[k], x),
        j < s.len() ==> !customer_lt(s[j], x),
    ensures
        insert_in_order(s, x) == s.insert(j, x),
    decreases j,
{
    if j == 0 {
        assert(s.insert(0, x) =~= seq![x] + s);
    } else {
        let t = s.drop_first();
        assert forall|k: int| 0 <= k < j - 1 implies customer_lt(#[trigger] t[k], x) by {
            assert(t[k] == s[k + 1]);
        }
        lemma_insert_at(t, x, j - 1);
        assert(s.insert(j, x) =~= seq![s[0]] + t.insert(j - 1, x));
    }
}

impl Customer {
    /// The records in order: by company name, then by contact name, each
    /// compared character by character; an empty company name and a missing
    /// contact name sort last. Records that sort alike keep their order.
    pub fn sort_customers(customers: Vec<Customer>) -> (r: Vec<Customer>)
        ensures
            customers_view(r@) == sorted_records(customers_view(customers@)),
            in_order(customers_view(r@)),
            customers_view(r@).to_multiset() == customers_view(customers@).to_multiset(),
    {
        let ghost all = customers_view(customers@);
        let mut rest = customers;
        let mut r: Vec<Customer> = Vec::new();
        let mut name_keys: Vec<Vec<char>> = Vec::new();
        let mut contact_keys: Vec<Vec<char>> = Vec::new();
        while rest.len() > 0
            invariant
                rest@.len() <= all.len(),
                customers_view(rest@) == all.subrange(0, rest@.len() as int),
                customers_view(r@) == sorted_records(all.subrange(rest@.len() as int, all.len() as int)),
                name_keys@.len() == r@.len(),
                contact_keys@.len() == r@.len(),
                forall|k: int| 0 <= k < r@.len() ==> (#[trigger] name_keys@[k])@ == name_key(r@[k]@),
                forall|k: int| 0 <= k < r@.len() ==> (#[trigger] contact_keys@[k])@ == contact_key(r@[k]@),
            decreases rest@.len(),
        {
            let ghost before = customers_view(r@);
            let ghost n = rest@.len();
            let ghost old_rest = rest@;
            let x = rest.pop().unwrap();
            assert(customers_view(old_rest)[n - 1] == old_rest[n - 1]@);
            assert(customers_view(rest@) =~= all.subrange(0, rest@.len() as int));
            assert(x@ == all[rest@.len() as int]);
            let xn = name_key_of(&x);
            let xc = contact_key_of(&x);
            let mut j: usize = 0;
            while j < r.len() && (chars_lt(&name_keys[j], &xn) || (chars_eq(&name_keys[j], &xn)
                && chars_lt(&contact_keys[j], &xc)))
                invariant
                    j <= r@.len(),
                    name_keys@.len() == r@.len(),
                    contact_keys@.len() == r@.len(),
                    forall|k: int| 0 <= k < r@.len() ==> (#[trigger] name_keys@[k])@ == name_key(r@[k]@),
                    forall|k: int| 0 <= k < r@.len() ==> (#[trigger] contact_keys@[k])@ == contact_key(r@[k]@),
                    xn@ == name_key(x@),
                    xc@ == contact_key(x@),
                    forall|k: int| 0 <= k < j ==> customer_lt(#[trigger] before[k], x@),
                    before == customers_view(r@),
                decreases r@.len() - j,
            {
                assert(before[j as int] == r@[j as int]@);
                j = j + 1;
            }
            proof {
                if j < r@.len() {
                    assert(before[j as int] == r@[j as int]@);
                }
                lemma_insert_at(before, x@, j as int);
                let tail = all.subrange(rest@.len() as int, all.len() as int);
                assert(tail.drop_first() =~= all.subrange(n as int, all.len() as int));
                assert(tail[0] == x@);
            }
            r.insert(j, x);
            name_keys.insert(j, xn);
            contact_keys.insert(j, xc);
            assert(customers_view(r@) =~= before.insert(j as int, x@));
        }
        assert(all.subrange(0, all.len() as int) =~= all);
        proof {
            lemma_sorted_records(all);
        }
        r
    }
}

} // verus!
