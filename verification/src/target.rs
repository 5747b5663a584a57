//! What is being deployed: the site's public name, and the names derived
//! from it.

use vstd::prelude::*;
use vstd::string::StringExecFns;
use crate::text::{chars_of, push_char};

verus! {

/// The fully-qualified domain name of a site: the zone itself when the host
/// label is empty (the apex), `<host>.<zone>` otherwise.
pub open spec fn fqdn_of(host: Seq<char>, zone: Seq<char>) -> Seq<char> {
    if host.len() == 0 {
        zone
    } else {
        host.push('.') + zone
    }
}

/// Whether `name` is a well-formed domain name: its labels, the pieces
/// between the dots, are not empty, and none begins or ends with a hyphen.
/// In terms of single characters: a dot or a hyphen is neither first nor
/// last, and has no dot beside it.
pub open spec fn is_domain_name(name: Seq<char>) -> bool {
    forall|i: int|
        0 <= i < name.len() && (#[trigger] name[i] == '.' || name[i] == '-') ==> {
            &&& 0 < i < name.len() - 1
            &&& name[i - 1] != '.'
            &&& name[i + 1] != '.'
        }
}

/// How one character of a domain name is written in a stack name, where no
/// dot may stand: a dot as one hyphen, a hyphen as two, any other character
/// as itself.
pub open spec fn dashed_char(c: char) -> Seq<char> {
    if c == '.' {
        seq!['-']
    } else if c == '-' {
        seq!['-', '-']
    } else {
        seq![c]
    }
}

/// A domain name with each character written as in a stack name.
pub open spec fn dashed(name: Seq<char>) -> Seq<char>
    decreases name.len(),
{
    if name.len() == 0 {
        Seq::empty()
    } else {
        dashed(name.drop_last()) + dashed_char(name.last())
    }
}

/// The name of the one infrastructure stack that serves `fqdn`.
pub open spec fn stack_name_of(fqdn: Seq<char>) -> Seq<char> {
    "StaticSite--"@ + dashed(fqdn)
}

/// The address under which the deployed site answers.
pub open spec fn site_url_of(fqdn: Seq<char>) -> Seq<char> {
    "https://"@ + fqdn
}

/// Joins an optional host label and a zone name into the site's domain name.
pub fn fqdn(domain_name: &str, domain_zone: &str) -> (r: String)
    ensures
        r@ == fqdn_of(domain_name@, domain_zone@),
{
    if domain_name.is_empty() {
        domain_zone.to_owned()
    } else {
        let mut r = domain_name.to_owned();
        push_char(&mut r, '.');
        r.append(domain_zone);
        r
    }
}

/// Tells whether `name` is a well-formed domain name.
pub fn check_domain_name(name: &str) -> (r: bool)
    ensures
        r == is_domain_name(name@),
{
    let chars = chars_of(name);
    let len: usize = chars.len();
    let mut i: usize = 0;
    while i < len
        invariant
            i <= len == chars@.len(),
            chars@ == name@,
            forall|k: int|
                0 <= k < i && (#[trigger] chars@[k] == '.' || chars@[k] == '-') ==> {
                    &&& 0 < k < len - 1
                    &&& chars@[k - 1] != '.'
                    &&& chars@[k + 1] != '.'
                },
        decreases len - i,
    {
        let c = chars[i];
        if c == '.' || c == '-' {
            if i == 0 || i + 1 >= len {
                return false;
            }
            if chars[i - 1] == '.' || chars[i + 1] == '.' {
                return false;
            }
        }
        i += 1;
    }
    true
}

/// Derives the stack's name from the site's domain name.
pub fn stack_name(fqdn: &str) -> (r: String)
    ensures
        r@ == stack_name_of(fqdn@),
{
    let chars = chars_of(fqdn);
    let mut r = "StaticSite--".to_owned();
    let mut i: usize = 0;
    assert(chars@.take(0) =~= Seq::<char>::empty());
    assert(r@ =~= "StaticSite--"@ + dashed(chars@.take(0)));
    while i < chars.len()
        invariant
            i <= chars@.len(),
            chars@ == fqdn@,
            r@ == "StaticSite--"@ + dashed(chars@.take(i as int)),
        decreases chars@.len() - i,
    {
        let c = chars[i];
        proof {
            let now = chars@.take(i + 1);
            assert(now.drop_last() =~= chars@.take(i as int));
            assert(now.last() == c);
        }
        if c == '.' {
            push_char(&mut r, '-');
        } else if c == '-' {
            push_char(&mut r, '-');
            push_char(&mut r, '-');
        } else {
            push_char(&mut r, c);
        }
        i += 1;
        assert(r@ =~= "StaticSite--"@ + dashed(chars@.take(i as int)));
    }
    assert(chars@.take(chars@.len() as int) =~= chars@);
    r
}

/// The address to report once the site is live.
pub fn site_url(fqdn: &str) -> (r: String)
    ensures
        r@ == site_url_of(fqdn@),
{
    let mut r = "https://".to_owned();
    r.append(fqdn);
    r
}

/// What the beginning of a well-formed domain name looks like: a dot stands
/// only after a character that is neither dot nor hyphen, and a hyphen never
/// first nor after a dot.
spec fn is_domain_prefix(name: Seq<char>) -> bool {
    forall|i: int|
        0 <= i < name.len() ==> {
            &&& #[trigger] name[i] == '.' ==> i > 0 && name[i - 1] != '.' && name[i - 1] != '-'
            &&& name[i] == '-' ==> i > 0 && name[i - 1] != '.'
        }
}

proof fn lemma_same_tail(x: Seq<char>, y: Seq<char>, p: Seq<char>, q: Seq<char>)
    requires
        x + p == y + q,
        p.len() == q.len(),
    ensures
        x == y,
        p == q,
{
    assert((x + p).len() == x.len() + p.len());
    assert((y + q).len() == y.len() + q.len());
    assert(x.len() == y.len());
    assert forall|i: int| 0 <= i < x.len() implies x[i] == y[i] by {
        assert((x + p)[i] == x[i]);
        assert((y + q)[i] == y[i]);
    }
    assert(x =~= y);
    assert forall|i: int| 0 <= i < p.len() implies p[i] == q[i] by {
        assert((x + p)[x.len() + i] == p[i]);
        assert((y + q)[y.len() + i] == q[i]);
    }
    assert(p =~= q);
}

proof fn lemma_dashed_len(name: Seq<char>)
    ensures
        dashed(name).len() >= name.len(),
    decreases name.len(),
{
    if name.len() > 0 {
        lemma_dashed_len(name.drop_last());
    }
}

/// A name that ends in a dot and one that ends in a hyphen are written
/// differently.
proof fn lemma_dot_is_no_hyphen(p: Seq<char>, q: Seq<char>)
    requires
        is_domain_prefix(p.push('.')),
    ensures
        dashed(p) + seq!['-'] != dashed(q) + seq!['-', '-'],
{
    if dashed(p) + seq!['-'] == dashed(q) + seq!['-', '-'] {
        let whole = p.push('.');
        assert(whole[p.len() as int] == '.');
        assert(p.len() > 0);
        assert(whole[p.len() - 1] == p.last());
        let x = p.last();
        assert(x != '.' && x != '-');
        assert(dashed(p) == dashed(p.drop_last()) + seq![x]);
        assert(dashed(p).last() == x);
        assert(dashed(q) + seq!['-', '-'] =~= (dashed(q) + seq!['-']) + seq!['-']);
        lemma_same_tail(dashed(p), dashed(q) + seq!['-'], seq!['-'], seq!['-']);
        assert((dashed(q) + seq!['-']).last() == '-');
    }
}

proof fn lemma_dashed_injective(a: Seq<char>, b: Seq<char>)
    requires
        is_domain_prefix(a),
        is_domain_prefix(b),
        dashed(a) == dashed(b),
    ensures
        a == b,
    decreases a.len() + b.len(),
{
    lemma_dashed_len(a);
    lemma_dashed_len(b);
    if a.len() == 0 || b.len() == 0 {
        assert(a =~= b);
    } else {
        let a0 = a.drop_last();
        let b0 = b.drop_last();
        let x = a.last();
        let y = b.last();
        assert(a =~= a0.push(x));
        assert(b =~= b0.push(y));
        assert forall|i: int| 0 <= i < a0.len() implies {
            &&& #[trigger] a0[i] == '.' ==> i > 0 && a0[i - 1] != '.' && a0[i - 1] != '-'
            &&& a0[i] == '-' ==> i > 0 && a0[i - 1] != '.'
        } by {
            assert(a0[i] == a[i]);
        }
        assert forall|i: int| 0 <= i < b0.len() implies {
            &&& #[trigger] b0[i] == '.' ==> i > 0 && b0[i - 1] != '.' && b0[i - 1] != '-'
            &&& b0[i] == '-' ==> i > 0 && b0[i - 1] != '.'
        } by {
            assert(b0[i] == b[i]);
        }
        let written = dashed(a);
        assert(written == dashed(a0) + dashed_char(x));
        assert(written == dashed(b0) + dashed_char(y));
        assert(written.last() == dashed_char(x).last());
        assert(written.last() == dashed_char(y).last());
        if x == y {
            lemma_same_tail(dashed(a0), dashed(b0), dashed_char(x), dashed_char(y));
            lemma_dashed_injective(a0, b0);
        } else if x == '.' && y == '-' {
            lemma_dot_is_no_hyphen(a0, b0);
        } else if x == '-' && y == '.' {
            lemma_dot_is_no_hyphen(b0, a0);
        } else {
            assert(false);
        }
    }
}

/// Two different well-formed domain names never share a stack: if their
/// stack names are equal, so are they.
pub proof fn lemma_stack_name_injective(a: Seq<char>, b: Seq<char>)
    requires
        is_domain_name(a),
        is_domain_name(b),
        stack_name_of(a) == stack_name_of(b),
    ensures
        a == b,
{
    let prefix = "StaticSite--"@;
    assert forall|i: int| 0 <= i < dashed(a).len() || 0 <= i < dashed(b).len() implies dashed(
        a,
    )[i] == dashed(b)[i] && dashed(a).len() == dashed(b).len() by {
        assert((prefix + dashed(a)).len() == prefix.len() + dashed(a).len());
        assert((prefix + dashed(b)).len() == prefix.len() + dashed(b).len());
        assert((prefix + dashed(a))[prefix.len() + i] == dashed(a)[i]);
        assert((prefix + dashed(b))[prefix.len() + i] == dashed(b)[i]);
    }
    assert((prefix + dashed(a)).len() == prefix.len() + dashed(a).len());
    assert((prefix + dashed(b)).len() == prefix.len() + dashed(b).len());
    assert(dashed(a) =~= dashed(b));
    lemma_domain_name_prefix(a);
    lemma_domain_name_prefix(b);
    lemma_dashed_injective(a, b);
}

proof fn lemma_domain_name_prefix(name: Seq<char>)
    requires
        is_domain_name(name),
    ensures
        is_domain_prefix(name),
{
    assert forall|i: int| 0 <= i < name.len() implies {
        &&& #[trigger] name[i] == '.' ==> i > 0 && name[i - 1] != '.' && name[i - 1] != '-'
        &&& name[i] == '-' ==> i > 0 && name[i - 1] != '.'
    } by {
        if name[i] == '.' && i > 0 && name[i - 1] == '-' {
            assert(name[i - 1 + 1] == name[i]);
        }
    }
}

} // verus!
