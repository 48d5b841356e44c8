//! The shape of names that stand for an address, such as `vitalik.eth`.

use vstd::prelude::*;

use crate::text::chars_of;
use crate::text::is_white;
use crate::text::white;

verus! {

/// A text in the shape of a name: labels with points between them, and no white
/// space.
pub open spec fn name_shaped(s: Seq<char>) -> bool {
    &&& s.contains('.')
    &&& s[0] != '.'
    &&& s.last() != '.'
    &&& forall|i: int| 0 <= i < s.len() ==> !is_white(#[trigger] s[i])
}

/// Tells whether `s` is in the shape of a name.
pub fn looks_like_name(s: &str) -> (b: bool)
    ensures
        b == name_shaped(s@),
{
    let v = chars_of(s);
    let mut dot = false;
    let mut i: usize = 0;
    while i < v.len()
        invariant
            i <= v.len(),
            v@ == s@,
            dot == exists|j: int| 0 <= j < i && v@[j] == '.',
            forall|j: int| 0 <= j < i ==> !is_white(#[trigger] v@[j]),
        decreases v.len() - i,
    {
        if white(v[i]) {
            assert(is_white(s@[i as int]));
            return false;
        }
        if v[i] == '.' {
            dot = true;
        }
        i += 1;
    }
    if !dot {
        assert(!s@.contains('.'));
        return false;
    }
    let ghost j = choose|j: int| 0 <= j < v@.len() && v@[j] == '.';
    assert(s@[j] == '.');
    assert(s@.contains('.'));
    v[0] != '.' && v[v.len() - 1] != '.'
}

/// The services that resolve names.
#[derive(Debug, Clone, Copy, PartialEq, Eq, Structural)]
pub enum NameService {
    Ens,
    Gns,
    Wns,
    Xns,
}

/// `s` ends in `t`.
pub open spec fn ends_in(s: Seq<char>, t: Seq<char>) -> bool {
    s.len() >= t.len() && s.subrange(s.len() - t.len(), s.len() as int) == t
}

/// The service that a name belongs to, by its last label; there has to be
/// something in front of it.
pub open spec fn service_of(s: Seq<char>) -> Option<NameService> {
    if ends_in(s, ".eth"@) && s.len() > 4 {
        Some(NameService::Ens)
    } else if ends_in(s, ".gwei"@) && s.len() > 5 {
        Some(NameService::Gns)
    } else if ends_in(s, ".wei"@) && s.len() > 4 {
        Some(NameService::Wns)
    } else if ends_in(s, ".xns"@) && s.len() > 4 {
        Some(NameService::Xns)
    } else {
        None
    }
}

/// Tells whether `s` ends in `t`.
fn ends_with(s: &str, t: &str) -> (b: bool)
    ensures
        b == ends_in(s@, t@),
{
    let v = chars_of(s);
    let w = chars_of(t);
    if v.len() < w.len() {
        return false;
    }
    let off: usize = v.len() - w.len();
    let mut i: usize = 0;
    while i < w.len()
        invariant
            i <= w.len(),
            v@ == s@,
            w@ == t@,
            off == v.len() - w.len(),
            v.len() >= w.len(),
            forall|j: int| 0 <= j < i ==> v@[off + j] == w@[j],
        decreases w.len() - i,
    {
        if v[off + i] != w[i] {
            assert(s@.subrange(off as int, s@.len() as int)[i as int] != t@[i as int]);
            return false;
        }
        i += 1;
    }
    assert(s@.subrange(off as int, s@.len() as int) =~= t@);
    true
}

/// The service that a name belongs to, by its last label.
pub fn name_service(s: &str) -> (r: Option<NameService>)
    ensures
        r == service_of(s@),
{
    let v = chars_of(s);
    if ends_with(s, ".eth") && v.len() > 4 {
        Some(NameService::Ens)
    } else if ends_with(s, ".gwei") && v.len() > 5 {
        Some(NameService::Gns)
    } else if ends_with(s, ".wei") && v.len() > 4 {
        Some(NameService::Wns)
    } else if ends_with(s, ".xns") && v.len() > 4 {
        Some(NameService::Xns)
    } else {
        None
    }
}

/// A text in the shape of a name of a service that the wallet knows.
pub open spec fn known_name(s: Seq<char>) -> bool {
    name_shaped(s) && service_of(s) is Some
}

/// Tells whether `s` is in the shape of a name of a service that the wallet
/// knows.
pub fn looks_like_known_name(s: &str) -> (b: bool)
    ensures
        b == known_name(s@),
{
    looks_like_name(s) && name_service(s).is_some()
}

/// The label of the service that vouches for a name.
pub open spec fn service_label(s: Seq<char>) -> Seq<char> {
    match service_of(s) {
        Some(NameService::Gns) => "GNS"@,
        Some(NameService::Wns) => "WNS"@,
        Some(NameService::Xns) => "XNS"@,
        _ => "ENS"@,
    }
}

/// The label of the service that vouches for a name.
pub fn namespace_label(s: &str) -> (r: &'static str)
    ensures
        r@ == service_label(s@),
{
    match name_service(s) {
        Some(NameService::Gns) => "GNS",
        Some(NameService::Wns) => "WNS",
        Some(NameService::Xns) => "XNS",
        _ => "ENS",
    }
}

} // verus!
