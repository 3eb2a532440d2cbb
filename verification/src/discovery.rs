//! Advertising the host on the local network.
//!
//! The responder itself, and asking for the host's name and interfaces, is
//! left to the caller.
use vstd::prelude::*;

use crate::text;
use crate::webserver::addresses::{Interface, Ip};

verus! {

/// Which addresses are advertised.
#[derive(Clone, Copy, Debug, PartialEq, Eq, Structural)]
pub enum Advertise {
    /// All of the host, as they change.
    All,
    /// All of version 4 of the host, as they change.
    Ipv4Only,
    /// Exactly this one.
    Fixed(Ip),
}

/// Which addresses are advertised, by the address to which the host binds:
/// `None` stands for a name, of which it cannot be told what it stands for.
pub open spec fn mode_of(address: Option<Ip>) -> Advertise {
    match address {
        None => Advertise::All,
        Some(ip) => if ip == Ip::V4(0) {
            Advertise::Ipv4Only
        } else if ip == Ip::V6(0) {
            Advertise::All
        } else {
            Advertise::Fixed(ip)
        },
    }
}

/// Which addresses are advertised; see [`mode_of`].
pub fn advertise_mode(address: Option<Ip>) -> (r: Advertise)
    ensures
        r == mode_of(address),
{
    match address {
        None => Advertise::All,
        Some(ip) => if ip.is_unspecified() {
            if ip.is_ipv4() {
                Advertise::Ipv4Only
            } else {
                Advertise::All
            }
        } else {
            Advertise::Fixed(ip)
        },
    }
}

/// The name under which the host is advertised, which is not its own: what its
/// name has before the first dot, and a mark.
pub open spec fn advertised_name(machine: Seq<char>) -> Seq<char> {
    text::split_on(machine, '.')[0] + "-moonshine.local."@
}

/// The name under which the host is advertised; see [`advertised_name`].
pub fn hostname(machine: &str) -> (r: String)
    ensures
        r@ == advertised_name(machine@),
{
    let chars = text::chars_of(machine);
    let pieces = text::split_chars(chars.as_slice(), '.');
    proof {
        text::split_then_join(machine@, '.');
        assert(text::split_on(machine@, '.').len() == pieces@.len());
        assert(text::split_on(machine@, '.')[0] == pieces@[0]@);
    }
    let first = text::string_of(pieces[0].as_slice());
    text::joined(first.as_str(), "-moonshine.local.")
}

/// An interface on which the host is advertised.
#[derive(Clone, Copy, Debug, PartialEq, Eq, Structural)]
pub enum ServiceInterface {
    /// All of them.
    All,
    /// All with version 4.
    Ipv4,
    /// The one with this index, for version 4.
    IndexV4(u32),
    /// The one with this index, for version 6.
    IndexV6(u32),
}

/// An address of the version that leads elsewhere.
pub open spec fn leads_out(ip: Ip, v6: bool) -> bool {
    (ip is V6) == v6 && !ip.loops_back()
}

/// One of the addresses leads elsewhere.
pub open spec fn has_way_out(addresses: Seq<Ip>, v6: bool) -> bool
    decreases addresses.len(),
{
    addresses.len() > 0 && (has_way_out(addresses.drop_last(), v6) || leads_out(
        addresses.last(),
        v6,
    ))
}

/// The indexes of the interfaces that lead elsewhere over the version, each
/// once, in their order. Internal ones do not count.
pub open spec fn outward(interfaces: Seq<Interface>, v6: bool) -> Seq<u32>
    decreases interfaces.len(),
{
    if interfaces.len() == 0 {
        Seq::empty()
    } else {
        let before = outward(interfaces.drop_last(), v6);
        let i = interfaces.last();
        if !i.internal && has_way_out(i.addresses@, v6) && !before.contains(i.index) {
            before.push(i.index)
        } else {
            before
        }
    }
}

/// Whether one of the addresses leads elsewhere; see [`has_way_out`].
fn leads_anywhere(addresses: &Vec<Ip>, v6: bool) -> (r: bool)
    ensures
        r == has_way_out(addresses@, v6),
{
    let mut r: bool = false;
    let mut i: usize = 0;
    while i < addresses.len()
        invariant
            i <= addresses@.len(),
            r == has_way_out(addresses@.take(i as int), v6),
        decreases addresses@.len() - i,
    {
        assert(addresses@.take(i + 1).drop_last() == addresses@.take(i as int));
        let ip = addresses[i];
        if ip.is_ipv4() != v6 && !ip.is_loopback() {
            r = true;
        }
        i = i + 1;
    }
    assert(addresses@.take(addresses@.len() as int) == addresses@);
    r
}

/// Whether `index` is among `indexes`.
fn is_among(indexes: &Vec<u32>, index: u32) -> (r: bool)
    ensures
        r == indexes@.contains(index),
{
    let mut i: usize = 0;
    while i < indexes.len()
        invariant
            i <= indexes@.len(),
            forall|j: int| #![trigger indexes@[j]] 0 <= j < i ==> indexes@[j] != index,
        decreases indexes@.len() - i,
    {
        if indexes[i] == index {
            assert(indexes@[i as int] == index);
            return true;
        }
        i = i + 1;
    }
    false
}

/// The indexes of the interfaces that lead elsewhere; see [`outward`].
fn outward_indexes(interfaces: &Vec<Interface>, v6: bool) -> (r: Vec<u32>)
    ensures
        r@ == outward(interfaces@, v6),
{
    let mut r: Vec<u32> = Vec::new();
    let mut i: usize = 0;
    while i < interfaces.len()
        invariant
            i <= interfaces@.len(),
            r@ == outward(interfaces@.take(i as int), v6),
        decreases interfaces@.len() - i,
    {
        assert(interfaces@.take(i + 1).drop_last() == interfaces@.take(i as int));
        let interface = &interfaces[i];
        if !interface.internal && leads_anywhere(&interface.addresses, v6) && !is_among(
            &r,
            interface.index,
        ) {
            r.push(interface.index);
        }
        i = i + 1;
    }
    assert(interfaces@.take(interfaces@.len() as int) == interfaces@);
    r
}

/// No index is there twice.
pub proof fn outward_has_no_doubles(interfaces: Seq<Interface>, v6: bool)
    ensures
        outward(interfaces, v6).no_duplicates(),
    decreases interfaces.len(),
{
    if interfaces.len() > 0 {
        outward_has_no_doubles(interfaces.drop_last(), v6);
    }
}

/// The interfaces on which the host is advertised: those that lead elsewhere,
/// version 4 first; where there is none, or they are not known, all that the
/// version allows.
pub open spec fn service_interfaces(
    interfaces: Option<Seq<Interface>>,
    include_ipv6: bool,
) -> Seq<ServiceInterface> {
    let known = match interfaces {
        Some(i) => i,
        None => Seq::empty(),
    };
    let v4 = outward(known, false);
    let v6 = if include_ipv6 {
        outward(known, true)
    } else {
        Seq::empty()
    };
    if v4.len() == 0 && v6.len() == 0 {
        seq![
            if include_ipv6 {
                ServiceInterface::All
            } else {
                ServiceInterface::Ipv4
            },
        ]
    } else {
        v4.map_values(|i: u32| ServiceInterface::IndexV4(i)) + v6.map_values(
            |i: u32| ServiceInterface::IndexV6(i),
        )
    }
}

/// The interfaces on which the host is advertised; see [`service_interfaces`].
pub fn auto_service_interfaces(interfaces: Option<&Vec<Interface>>, include_ipv6: bool) -> (r: Vec<
    ServiceInterface,
>)
    ensures
        r@ == service_interfaces(
            match interfaces {
                Some(i) => Some(i@),
                None => None,
            },
            include_ipv6,
        ),
{
    let none: Vec<Interface> = Vec::new();
    let known: &Vec<Interface> = match interfaces {
        Some(i) => i,
        None => &none,
    };
    let v4 = outward_indexes(known, false);
    let v6: Vec<u32> = if include_ipv6 {
        outward_indexes(known, true)
    } else {
        Vec::new()
    };
    let mut r: Vec<ServiceInterface> = Vec::new();
    if v4.len() == 0 && v6.len() == 0 {
        if include_ipv6 {
            r.push(ServiceInterface::All);
        } else {
            r.push(ServiceInterface::Ipv4);
        }
        return r;
    }
    let ghost four = |i: u32| ServiceInterface::IndexV4(i);
    let ghost six = |i: u32| ServiceInterface::IndexV6(i);
    let mut i: usize = 0;
    while i < v4.len()
        invariant
            i <= v4@.len(),
            four == (|i: u32| ServiceInterface::IndexV4(i)),
            r@ == v4@.take(i as int).map_values(four),
        decreases v4@.len() - i,
    {
        r.push(ServiceInterface::IndexV4(v4[i]));
        i = i + 1;
    }
    assert(v4@.take(v4@.len() as int) == v4@);
    let mut k: usize = 0;
    assert(r@ == v4@.map_values(four) + v6@.take(0).map_values(six));
    while k < v6.len()
        invariant
            k <= v6@.len(),
            six == (|i: u32| ServiceInterface::IndexV6(i)),
            r@ == v4@.map_values(four) + v6@.take(k as int).map_values(six),
        decreases v6@.len() - k,
    {
        r.push(ServiceInterface::IndexV6(v6[k]));
        k = k + 1;
    }
    assert(v6@.take(v6@.len() as int) == v6@);
    r
}

/// The host is always advertised somewhere.
pub proof fn always_advertised(interfaces: Option<Seq<Interface>>, include_ipv6: bool)
    ensures
        service_interfaces(interfaces, include_ipv6).len() > 0,
{
}

/// A host that binds to one address advertises that address; one that binds to
/// all addresses of version 4 advertises these; and any other advertises all.
pub proof fn bound_addresses_are_advertised(address: Option<Ip>)
    ensures
        mode_of(address) == Advertise::Ipv4Only <==> address == Some(Ip::V4(0)),
        mode_of(address) == Advertise::All <==> address is None || address == Some(Ip::V6(0)),
        address matches Some(ip) ==> (ip != Ip::V4(0) && ip != Ip::V6(0) ==> mode_of(address)
            == Advertise::Fixed(ip)),
{
}

/// A name is advertised up to its first dot, with a mark behind it: a name
/// without a dot as a whole.
pub proof fn names_go_up_to_the_first_dot(machine: Seq<char>, first: int)
    requires
        0 <= first <= machine.len(),
        forall|i: int| #![trigger machine[i]] 0 <= i < first ==> machine[i] != '.',
        first < machine.len() ==> machine[first] == '.',
    ensures
        advertised_name(machine) == machine.take(first) + "-moonshine.local."@,
{
    text::first_piece_ends_at_the_mark(machine, '.', first);
}

/// One of the addresses leads elsewhere exactly if some address of the version
/// is not the host itself.
pub proof fn ways_out_are_found(addresses: Seq<Ip>, v6: bool)
    ensures
        has_way_out(addresses, v6) <==> exists|i: int|
            {
                &&& 0 <= i < addresses.len()
                &&& v6 ==> #[trigger] addresses[i] is V6
                &&& !v6 ==> addresses[i] is V4
                &&& !addresses[i].loops_back()
            },
    decreases addresses.len(),
{
    if addresses.len() > 0 {
        let rest = addresses.drop_last();
        let last = addresses.len() - 1;
        ways_out_are_found(rest, v6);
        assert(addresses[last] == addresses.last());
        if has_way_out(rest, v6) {
            let i = choose|i: int|
                {
                    &&& 0 <= i < rest.len()
                    &&& v6 ==> #[trigger] rest[i] is V6
                    &&& !v6 ==> rest[i] is V4
                    &&& !rest[i].loops_back()
                };
            assert(addresses[i] == rest[i]);
        }
        assert forall|i: int|
            #![trigger addresses[i]]
            0 <= i < addresses.len() && (v6 ==> addresses[i] is V6) && (!v6 ==> addresses[i] is V4)
                && !addresses[i].loops_back() implies has_way_out(addresses, v6) by {
            if i < last {
                assert(rest[i] == addresses[i]);
            }
        }
    }
}

/// The host is advertised over a version on an interface exactly if one of that
/// index is not internal and leads elsewhere over it.
pub proof fn outward_interfaces_are_found(interfaces: Seq<Interface>, v6: bool, index: u32)
    ensures
        outward(interfaces, v6).contains(index) <==> exists|i: int|
            {
                &&& 0 <= i < interfaces.len()
                &&& (#[trigger] interfaces[i]).index == index
                &&& !interfaces[i].internal
                &&& has_way_out(interfaces[i].addresses@, v6)
            },
    decreases interfaces.len(),
{
    if interfaces.len() > 0 {
        let rest = interfaces.drop_last();
        let last = interfaces.len() - 1;
        let before = outward(rest, v6);
        outward_interfaces_are_found(rest, v6, index);
        assert(interfaces[last] == interfaces.last());
        if before.contains(index) {
            let i = choose|i: int|
                {
                    &&& 0 <= i < rest.len()
                    &&& (#[trigger] rest[i]).index == index
                    &&& !rest[i].internal
                    &&& has_way_out(rest[i].addresses@, v6)
                };
            assert(interfaces[i] == rest[i]);
            let k = choose|k: int| 0 <= k < before.len() && before[k] == index;
            assert(outward(interfaces, v6)[k] == index);
        } else {
            assert forall|i: int| #![trigger interfaces[i]] 0 <= i < last implies !(
            interfaces[i].index == index && !interfaces[i].internal && has_way_out(
                interfaces[i].addresses@,
                v6,
            )) by {
                assert(rest[i] == interfaces[i]);
            }
            if outward(interfaces, v6) != before {
                assert(outward(interfaces, v6) == before.push(interfaces.last().index));
                assert(outward(interfaces, v6)[before.len() as int] == interfaces.last().index);
                if outward(interfaces, v6).contains(index) {
                    let k = choose|k: int|
                        0 <= k < outward(interfaces, v6).len() && outward(interfaces, v6)[k] == index;
                    assert(k < before.len() ==> before[k] == index);
                }
            }
        }
    }
}

/// Where some interface leads elsewhere, exactly those are used, version 4
/// before version 6, which is left out unless it is asked for; where none does,
/// all are.
pub proof fn interfaces_are_used(interfaces: Seq<Interface>, index: u32)
    ensures
        ({
            let four = outward(interfaces, false);
            let six = outward(interfaces, true);
            let both = service_interfaces(Some(interfaces), true);
            let one = service_interfaces(Some(interfaces), false);
            &&& both.contains(ServiceInterface::IndexV4(index)) <==> four.contains(index)
            &&& both.contains(ServiceInterface::IndexV6(index)) <==> six.contains(index)
            &&& one.contains(ServiceInterface::IndexV4(index)) <==> four.contains(index)
            &&& !one.contains(ServiceInterface::IndexV6(index))
            &&& four.len() == 0 && six.len() == 0 ==> both == seq![ServiceInterface::All]
            &&& four.len() == 0 ==> one == seq![ServiceInterface::Ipv4]
            &&& four.len() > 0 ==> one.len() == four.len() && !one.contains(ServiceInterface::Ipv4)
            &&& four.len() + six.len() > 0 ==> both.len() == four.len() + six.len()
            &&& forall|i: int|
                0 <= i < four.len() ==> #[trigger] both[i] == ServiceInterface::IndexV4(four[i])
        }),
        service_interfaces(None, true) == seq![ServiceInterface::All],
        service_interfaces(None, false) == seq![ServiceInterface::Ipv4],
{
    let four = outward(interfaces, false);
    let six = outward(interfaces, true);
    let both = service_interfaces(Some(interfaces), true);
    let one = service_interfaces(Some(interfaces), false);
    if four.contains(index) {
        let k = choose|k: int| 0 <= k < four.len() && four[k] == index;
        assert(both[k] == ServiceInterface::IndexV4(index));
        assert(one[k] == ServiceInterface::IndexV4(index));
    }
    if six.contains(index) {
        let k = choose|k: int| 0 <= k < six.len() && six[k] == index;
        assert(both[four.len() + k] == ServiceInterface::IndexV6(index));
    }
    if both.contains(ServiceInterface::IndexV4(index)) {
        let k = choose|k: int| 0 <= k < both.len() && both[k] == ServiceInterface::IndexV4(index);
        assert(k < four.len());
        assert(four[k] == index);
    }
    if both.contains(ServiceInterface::IndexV6(index)) {
        let k = choose|k: int| 0 <= k < both.len() && both[k] == ServiceInterface::IndexV6(index);
        assert(six[k - four.len()] == index);
    }
    if one.contains(ServiceInterface::IndexV4(index)) {
        let k = choose|k: int| 0 <= k < one.len() && one[k] == ServiceInterface::IndexV4(index);
        assert(four[k] == index);
    }
}

} // verus!
