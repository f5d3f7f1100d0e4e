//! Composite keys of configuration items.
//!
//! An item is identified by its data id, its group and its tenant. The cache
//! is keyed by one string made of the three: each part is escaped so that it
//! holds no `+`, and the parts are joined by `+`. Different triples therefore
//! never share a key.

use vstd::prelude::*;
use vstd::string::*;

verus! {

/// What one character of a part becomes in a key.
pub open spec fn escape_char(c: char) -> Seq<char> {
    if c == '%' {
        seq!['%', '2', '5']
    } else if c == '+' {
        seq!['%', '2', 'B']
    } else {
        seq![c]
    }
}

/// A part of a key with `%` and `+` escaped.
pub open spec fn escape(s: Seq<char>) -> Seq<char>
    decreases s.len(),
{
    if s.len() == 0 {
        Seq::empty()
    } else {
        escape_char(s[0]) + escape(s.drop_first())
    }
}

/// The key of the item `(data_id, group, tenant)`.
pub open spec fn spec_group_key(data_id: Seq<char>, group: Seq<char>, tenant: Seq<char>) -> Seq<
    char,
> {
    escape(data_id) + seq!['+'] + escape(group) + seq!['+'] + escape(tenant)
}

/// Escaping distributes over appending one character.
pub proof fn lemma_escape_push(s: Seq<char>, c: char)
    ensures
        escape(s.push(c)) == escape(s) + escape_char(c),
    decreases s.len(),
{
    if s.len() == 0 {
        assert(s.push(c).drop_first() =~= Seq::<char>::empty());
        assert(escape(s.push(c)) =~= escape_char(c) + escape(Seq::<char>::empty()));
        assert(escape(s.push(c)) =~= escape(s) + escape_char(c));
    } else {
        lemma_escape_push(s.drop_first(), c);
        assert(s.push(c).drop_first() =~= s.drop_first().push(c));
        assert(s.push(c)[0] == s[0]);
        assert(escape(s.push(c)) =~= escape(s) + escape_char(c));
    }
}

/// An escaped part holds no `+`.
pub proof fn lemma_escape_no_plus(s: Seq<char>)
    ensures
        forall|i: int| 0 <= i < escape(s).len() ==> escape(s)[i] != '+',
    decreases s.len(),
{
    if s.len() > 0 {
        lemma_escape_no_plus(s.drop_first());
        let head = escape_char(s[0]);
        let tail = escape(s.drop_first());
        assert forall|i: int| 0 <= i < escape(s).len() implies escape(s)[i] != '+' by {
            if i < head.len() {
                assert(escape(s)[i] == head[i]);
            } else {
                assert(escape(s)[i] == tail[i - head.len()]);
            }
        }
    }
}

/// Escaping loses nothing: parts with the same escaped form are the same.
pub proof fn lemma_escape_injective(a: Seq<char>, b: Seq<char>)
    requires
        escape(a) == escape(b),
    ensures
        a == b,
    decreases a.len(),
{
    if a.len() == 0 {
        if b.len() > 0 {
            assert(escape(b).len() >= escape_char(b[0]).len());
        }
        assert(a =~= b);
    } else {
        let ha = escape_char(a[0]);
        let ta = escape(a.drop_first());
        assert(escape(a) == ha + ta);
        assert(escape(a).len() > 0);
        assert(b.len() > 0);
        let hb = escape_char(b[0]);
        let tb = escape(b.drop_first());
        assert(escape(b) == hb + tb);
        assert((ha + ta)[0] == ha[0]);
        assert((hb + tb)[0] == hb[0]);
        if ha.len() == 3 {
            assert(hb.len() == 3);
            assert((ha + ta)[2] == ha[2]);
            assert((hb + tb)[2] == hb[2]);
        }
        assert(a[0] == b[0]);
        assert(ta =~= (ha + ta).subrange(ha.len() as int, (ha + ta).len() as int));
        assert(tb =~= (hb + tb).subrange(hb.len() as int, (hb + tb).len() as int));
        lemma_escape_injective(a.drop_first(), b.drop_first());
        assert(a =~= seq![a[0]] + a.drop_first());
        assert(b =~= seq![b[0]] + b.drop_first());
    }
}

/// Two strings that are split at their first `+` in the same way agree on
/// both sides of it.
proof fn lemma_split_at_plus(x: Seq<char>, r: Seq<char>, y: Seq<char>, s: Seq<char>)
    requires
        forall|i: int| 0 <= i < x.len() ==> x[i] != '+',
        forall|i: int| 0 <= i < y.len() ==> y[i] != '+',
        x + seq!['+'] + r == y + seq!['+'] + s,
    ensures
        x == y,
        r == s,
{
    let lhs = x + seq!['+'] + r;
    let rhs = y + seq!['+'] + s;
    assert(lhs[x.len() as int] == '+');
    assert(rhs[y.len() as int] == '+');
    if x.len() < y.len() {
        assert(rhs[x.len() as int] == y[x.len() as int]);
    }
    if y.len() < x.len() {
        assert(lhs[y.len() as int] == x[y.len() as int]);
    }
    assert(x.len() == y.len());
    assert(x =~= lhs.subrange(0, x.len() as int));
    assert(y =~= rhs.subrange(0, y.len() as int));
    assert(r =~= lhs.subrange(x.len() as int + 1, lhs.len() as int));
    assert(s =~= rhs.subrange(y.len() as int + 1, rhs.len() as int));
}

/// Items with the same key are the same item: the key of a triple
/// determines its data id, its group and its tenant.
pub proof fn lemma_group_key_injective(
    data_id1: Seq<char>,
    group1: Seq<char>,
    tenant1: Seq<char>,
    data_id2: Seq<char>,
    group2: Seq<char>,
    tenant2: Seq<char>,
)
    requires
        spec_group_key(data_id1, group1, tenant1) == spec_group_key(data_id2, group2, tenant2),
    ensures
        data_id1 == data_id2,
        group1 == group2,
        tenant1 == tenant2,
{
    lemma_escape_no_plus(data_id1);
    lemma_escape_no_plus(data_id2);
    lemma_escape_no_plus(group1);
    lemma_escape_no_plus(group2);
    let r1 = escape(group1) + seq!['+'] + escape(tenant1);
    let r2 = escape(group2) + seq!['+'] + escape(tenant2);
    assert(spec_group_key(data_id1, group1, tenant1) =~= escape(data_id1) + seq!['+'] + r1);
    assert(spec_group_key(data_id2, group2, tenant2) =~= escape(data_id2) + seq!['+'] + r2);
    lemma_split_at_plus(escape(data_id1), r1, escape(data_id2), r2);
    lemma_split_at_plus(escape(group1), escape(tenant1), escape(group2), escape(tenant2));
    lemma_escape_injective(data_id1, data_id2);
    lemma_escape_injective(group1, group2);
    lemma_escape_injective(tenant1, tenant2);
}

/// Items that differ in any part have different keys.
pub proof fn lemma_group_key_distinct(
    data_id1: Seq<char>,
    group1: Seq<char>,
    tenant1: Seq<char>,
    data_id2: Seq<char>,
    group2: Seq<char>,
    tenant2: Seq<char>,
)
    requires
        data_id1 != data_id2 || group1 != group2 || tenant1 != tenant2,
    ensures
        spec_group_key(data_id1, group1, tenant1) != spec_group_key(data_id2, group2, tenant2),
{
    if spec_group_key(data_id1, group1, tenant1) == spec_group_key(data_id2, group2, tenant2) {
        lemma_group_key_injective(data_id1, group1, tenant1, data_id2, group2, tenant2);
    }
}

/// Appends the escaped form of `part` to `key`.
fn push_escaped(key: &mut String, part: &str)
    ensures
        final(key)@ == old(key)@ + escape(part@),
{
    let n = part.unicode_len();
    let mut i: usize = 0;
    proof {
        assert(part@.subrange(0, 0) =~= Seq::<char>::empty());
        assert(key@ =~= old(key)@ + escape(part@.subrange(0, 0)));
    }
    while i < n
        invariant
            n == part@.len(),
            i <= n,
            key@ == old(key)@ + escape(part@.subrange(0, i as int)),
        decreases n - i,
    {
        let c = part.get_char(i);
        proof {
            reveal_strlit("%25");
            reveal_strlit("%2B");
            lemma_escape_push(part@.subrange(0, i as int), c);
            assert(part@.subrange(0, i + 1) =~= part@.subrange(0, i as int).push(c));
        }
        if c == '%' {
            key.append("%25");
            assert("%25"@ =~= escape_char(c));
        } else if c == '+' {
            key.append("%2B");
            assert("%2B"@ =~= escape_char(c));
        } else {
            let one = part.substring_char(i, i + 1);
            assert(one@ =~= escape_char(c));
            key.append(one);
        }
        assert(key@ =~= old(key)@ + escape(part@.subrange(0, i + 1)));
        i = i + 1;
    }
    assert(part@.subrange(0, n as int) =~= part@);
}

/// The key under which the item `(data_id, group, tenant)` is cached.
///
/// The result depends on the three parts alone, and no two items share a
/// key (see [`lemma_group_key_injective`]).
pub fn group_key(data_id: &str, group: &str, tenant: &str) -> (key: String)
    ensures
        key@ == spec_group_key(data_id@, group@, tenant@),
{
    let mut key = String::new();
    push_escaped(&mut key, data_id);
    key.append("+");
    push_escaped(&mut key, group);
    key.append("+");
    push_escaped(&mut key, tenant);
    proof {
        reveal_strlit("+");
        assert("+"@ =~= seq!['+']);
        assert(key@ =~= spec_group_key(data_id@, group@, tenant@));
    }
    key
}

/// Whether two strings hold the same text.
pub fn same_text(a: &str, b: &str) -> (r: bool)
    ensures
        r == (a@ == b@),
{
    String::from_str(a) == String::from_str(b)
}

} // verus!
