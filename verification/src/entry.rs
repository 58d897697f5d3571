//! The name under which a secret is kept.
//!
//! A secret is identified by a service and a key. The platform store knows
//! one string per entry, so the two are joined by a separator. The joined
//! name does not say where the service ends: two pairs can share a name when
//! the separator occurs in them, and the store cannot tell such pairs apart.

use vstd::prelude::*;
use vstd::string::*;

verus! {

/// The character that stands between service and key in an entry name.
pub const SEPARATOR: char = ':';

/// The account under which every entry of this library is kept.
pub const ACCOUNT: &'static str = "epitelos_user";

/// The entry name of a service and a key: the service, the separator, the key.
pub open spec fn entry_name_of(service: Seq<char>, key: Seq<char>) -> Seq<char> {
    service + seq![SEPARATOR] + key
}

/// Builds the entry name of `service` and `key`.
pub fn entry_name(service: &str, key: &str) -> (name: String)
    ensures
        name@ == entry_name_of(service@, key@),
{
    proof {
        reveal_strlit(":");
    }
    let mut name = String::from_str(service);
    name.append(":");
    name.append(key);
    assert(":"@ =~= seq![SEPARATOR]);
    name
}

/// Two pairs with one entry name are one pair, when neither service holds
/// the separator, or neither key does.
pub proof fn lemma_entry_name_tells_pairs_apart(
    service_a: Seq<char>,
    key_a: Seq<char>,
    service_b: Seq<char>,
    key_b: Seq<char>,
)
    requires
        entry_name_of(service_a, key_a) == entry_name_of(service_b, key_b),
        (!service_a.contains(SEPARATOR) && !service_b.contains(SEPARATOR)) || (!key_a.contains(
            SEPARATOR,
        ) && !key_b.contains(SEPARATOR)),
    ensures
        service_a == service_b,
        key_a == key_b,
{
    let name = entry_name_of(service_a, key_a);
    let cut_a = service_a.len() as int;
    let cut_b = service_b.len() as int;
    assert(name.len() == cut_a + 1 + key_a.len());
    assert(name.len() == cut_b + 1 + key_b.len());
    assert(name[cut_a] == SEPARATOR);
    assert(entry_name_of(service_b, key_b)[cut_b] == SEPARATOR);
    if cut_a < cut_b {
        assert(service_b[cut_a] == name[cut_a]);
        assert(key_a[cut_b - cut_a - 1] == name[cut_b]);
    }
    if cut_b < cut_a {
        assert(service_a[cut_b] == name[cut_b]);
        assert(key_b[cut_a - cut_b - 1] == name[cut_a]);
    }
    assert(cut_a == cut_b);
    assert(service_a =~= name.subrange(0, cut_a));
    assert(service_b =~= name.subrange(0, cut_b));
    assert(key_a =~= name.subrange(cut_a + 1, name.len() as int));
    assert(key_b =~= name.subrange(cut_b + 1, name.len() as int));
}

/// Where the separator may occur in a service or a key, two pairs can share
/// an entry name: moving the text after a separator from the service to the
/// key leaves the name as it was.
pub proof fn lemma_entry_name_collision(head: Seq<char>, middle: Seq<char>, tail: Seq<char>)
    ensures
        entry_name_of(head + seq![SEPARATOR] + middle, tail) == entry_name_of(
            head,
            middle + seq![SEPARATOR] + tail,
        ),
        (head + seq![SEPARATOR] + middle, tail) != (head, middle + seq![SEPARATOR] + tail),
{
    assert(entry_name_of(head + seq![SEPARATOR] + middle, tail) =~= entry_name_of(
        head,
        middle + seq![SEPARATOR] + tail,
    ));
    assert((head + seq![SEPARATOR] + middle).len() != head.len());
}

} // verus!
