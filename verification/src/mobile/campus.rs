//! Campus detection on the phone: which local IPv4 address logins are sent
//! from (never a mobile-data interface), and the decision from the probes.

use vstd::prelude::*;
use crate::text::{has_prefix, starts_with, str_eq};
use crate::net::IpValue;

verus! {

/// Mobile-data interfaces (Qualcomm `rmnet*`, MediaTek `ccmni*`).
pub open spec fn is_cellular_name(name: Seq<char>) -> bool {
    has_prefix(name, "rmnet"@) || has_prefix(name, "ccmni"@)
}

/// An address logins may come from: IPv4, not link-local (169.254/16), not
/// loopback (127/8), not unspecified, on a non-cellular interface.
pub open spec fn is_usable_source(name: Seq<char>, ip: IpValue) -> bool {
    match ip {
        IpValue::V4(a, b, c, d) => !(a == 169 && b == 254) && a != 127 && !(a == 0 && b == 0 && c == 0
            && d == 0) && !is_cellular_name(name),
        IpValue::V6(..) => false,
    }
}

/// The chosen source: the first usable address of `wlan0` if there is one,
/// else the first usable address.
pub open spec fn is_picked_source(ifs: Seq<(Seq<char>, IpValue)>, r: Option<IpValue>) -> bool {
    if exists|i: int| 0 <= i < ifs.len() && is_usable_source(ifs[i].0, ifs[i].1) && ifs[i].0 == "wlan0"@ {
        exists|i: int|
            0 <= i < ifs.len() && is_usable_source(ifs[i].0, ifs[i].1) && ifs[i].0 == "wlan0"@ && r == Some(
                ifs[i].1,
            ) && forall|k: int|
                0 <= k < i ==> !(is_usable_source(ifs[k].0, ifs[k].1) && ifs[k].0 == "wlan0"@)
    } else if exists|i: int| 0 <= i < ifs.len() && is_usable_source(ifs[i].0, ifs[i].1) {
        exists|i: int|
            0 <= i < ifs.len() && is_usable_source(ifs[i].0, ifs[i].1) && r == Some(ifs[i].1) && forall|k: int|
                0 <= k < i ==> !is_usable_source(ifs[k].0, ifs[k].1)
    } else {
        r is None
    }
}

pub open spec fn interfaces_view(v: Seq<(String, IpValue)>) -> Seq<(Seq<char>, IpValue)> {
    v.map_values(|x: (String, IpValue)| (x.0@, x.1))
}

fn usable_source(name: &str, ip: IpValue) -> (r: bool)
    ensures
        r == is_usable_source(name@, ip),
{
    match ip {
        IpValue::V4(a, b, c, d) => !(a == 169 && b == 254) && a != 127 && !(a == 0 && b == 0 && c == 0
            && d == 0) && !(starts_with(name, "rmnet") || starts_with(name, "ccmni")),
        IpValue::V6(..) => false,
    }
}

/// Chooses the address logins are sent from (see `is_picked_source`).
pub fn pick_campus_source_ip(interfaces: &Vec<(String, IpValue)>) -> (r: Option<IpValue>)
    ensures
        is_picked_source(interfaces_view(interfaces@), r),
{
    let ghost ifs = interfaces_view(interfaces@);
    let mut first: Option<usize> = None;
    let mut i: usize = 0;
    while i < interfaces.len()
        invariant
            ifs == interfaces_view(interfaces@),
            i <= interfaces.len(),
            forall|k: int| 0 <= k < i ==> !(is_usable_source(ifs[k].0, ifs[k].1) && ifs[k].0 == "wlan0"@),
            match first {
                Some(f) => f < i && is_usable_source(ifs[f as int].0, ifs[f as int].1) && forall|k: int|
                    0 <= k < f ==> !is_usable_source(ifs[k].0, ifs[k].1),
                None => forall|k: int| 0 <= k < i ==> !is_usable_source(ifs[k].0, ifs[k].1),
            },
        decreases interfaces.len() - i,
    {
        let (name, ip) = (&interfaces[i].0, interfaces[i].1);
        assert(ifs[i as int] == (name@, ip));
        let usable = usable_source(name.as_str(), ip);
        if usable && str_eq(name.as_str(), "wlan0") {
            return Some(ip);
        }
        if usable && first.is_none() {
            first = Some(i);
        }
        i = i + 1;
    }
    match first {
        Some(f) => {
            assert(ifs[f as int] == (interfaces@[f as int].0@, interfaces@[f as int].1));
            Some(interfaces[f].1)
        },
        None => None,
    }
}

/// The campus decision: the same /18 subnet as the campus gateway, or that gateway
/// reachable, or the portal reachable.
pub fn campus_decision(on_campus_by_subnet: bool, gateway_ok: bool, portal_ok: bool) -> (r: bool)
    ensures
        r == (on_campus_by_subnet || gateway_ok || portal_ok),
{
    on_campus_by_subnet || gateway_ok || portal_ok
}

} // verus!
