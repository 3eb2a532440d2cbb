//! Addresses: which of the host's own a client is told.
use vstd::prelude::*;

use crate::text;

verus! {

/// An address.
#[derive(Clone, Copy, Debug, PartialEq, Eq, Structural)]
pub enum Ip {
    /// Version 4, as its number.
    V4(u32),
    /// Version 6, as its number.
    V6(u128),
}

impl Ip {
    /// It stands for the host itself: 127.0.0.0/8 and ::1.
    pub open spec fn loops_back(self) -> bool {
        match self {
            Ip::V4(n) => n as int / 0x100_0000 == 127,
            Ip::V6(n) => n == 1,
        }
    }

    /// It stands for no address in particular.
    pub open spec fn unspecified(self) -> bool {
        self == Ip::V4(0) || self == Ip::V6(0)
    }

    /// It is of version 4.
    pub fn is_ipv4(self) -> (r: bool)
        ensures
            r == (self is V4),
    {
        match self {
            Ip::V4(_) => true,
            Ip::V6(_) => false,
        }
    }

    /// It stands for the host itself; see [`Ip::loops_back`].
    pub fn is_loopback(self) -> (r: bool)
        ensures
            r == self.loops_back(),
    {
        match self {
            Ip::V4(n) => n / 0x100_0000 == 127,
            Ip::V6(n) => n == 1,
        }
    }

    /// It stands for no address in particular.
    pub fn is_unspecified(self) -> (r: bool)
        ensures
            r == self.unspecified(),
    {
        match self {
            Ip::V4(n) => n == 0,
            Ip::V6(n) => n == 0,
        }
    }
}

/// An address of version 4 that is written as one of version 6
/// (`::ffff:a.b.c.d`), as version 4; any other as it is.
pub open spec fn unmapped(ip: Ip) -> Ip {
    match ip {
        Ip::V4(_) => ip,
        Ip::V6(n) => if n as int / 0x1_0000_0000 == 0xffff {
            Ip::V4((n as int % 0x1_0000_0000) as u32)
        } else {
            ip
        },
    }
}

/// An address of version 4 that is written as one of version 6, as version 4;
/// see [`unmapped`].
pub fn unmap_v4_mapped(ip: Ip) -> (r: Ip)
    ensures
        r == unmapped(ip),
{
    match ip {
        Ip::V4(_) => ip,
        Ip::V6(n) => if n / 0x1_0000_0000 == 0xffff {
            Ip::V4((n % 0x1_0000_0000) as u32)
        } else {
            ip
        },
    }
}

/// An address of version 4 comes back from the form of version 6, and
/// unmapping twice is unmapping once.
pub proof fn unmapping_undoes_mapping(v4: u32, ip: Ip)
    ensures
        unmapped(Ip::V6((0xffff_0000_0000 + v4) as u128)) == Ip::V4(v4),
        unmapped(unmapped(ip)) == unmapped(ip),
{
}

/// The host part of a URL: addresses of version 6 stand in brackets. `shown`
/// is the address as text.
pub fn rtsp_host(ip: Ip, shown: &str) -> (r: String)
    ensures
        r@ == if ip is V4 {
            shown@
        } else {
            "["@ + shown@ + "]"@
        },
{
    if ip.is_ipv4() {
        return shown.to_owned();
    }
    let mut r = text::joined("[", shown);
    r.append("]");
    r
}

/// Which version streams use.
#[derive(Clone, Copy, Debug, PartialEq, Eq, Structural)]
pub enum StreamUseIpv6 {
    /// The version over which the client came.
    Auto,
    /// Version 6.
    Yes,
    /// Version 4.
    No,
}

/// An interface of the host.
#[derive(Debug)]
pub struct Interface {
    /// Its addresses.
    pub addresses: Vec<Ip>,
    /// Its hardware address.
    pub mac: Option<String>,
    /// Its index.
    pub index: u32,
    /// It does not leave the host.
    pub internal: bool,
}

/// The address is of the version that streams use.
pub open spec fn suits(ip: Ip, setting: StreamUseIpv6) -> bool {
    (ip is V4 && setting == StreamUseIpv6::No) || (ip is V6 && setting == StreamUseIpv6::Yes)
}

/// The address is of the version that streams use; see [`suits`].
pub fn ip_matches_stream_ipv6(ip: Ip, setting: StreamUseIpv6) -> (r: bool)
    ensures
        r == suits(ip, setting),
{
    match (ip, setting) {
        (Ip::V4(_), StreamUseIpv6::No) => true,
        (Ip::V6(_), StreamUseIpv6::Yes) => true,
        _ => false,
    }
}

/// The first address that suits and leads elsewhere.
pub open spec fn first_suiting(addresses: Seq<Ip>, setting: StreamUseIpv6) -> Option<Ip>
    decreases addresses.len(),
{
    if addresses.len() == 0 {
        None
    } else {
        match first_suiting(addresses.drop_last(), setting) {
            Some(ip) => Some(ip),
            None => if suits(addresses.last(), setting) && !addresses.last().loops_back() {
                Some(addresses.last())
            } else {
                None
            },
        }
    }
}

/// The first address that suits and leads elsewhere; see [`first_suiting`].
fn find_suiting(addresses: &Vec<Ip>, setting: StreamUseIpv6) -> (r: Option<Ip>)
    ensures
        r == first_suiting(addresses@, setting),
{
    let mut r: Option<Ip> = None;
    let mut i: usize = 0;
    while i < addresses.len()
        invariant
            i <= addresses@.len(),
            r == first_suiting(addresses@.take(i as int), setting),
        decreases addresses@.len() - i,
    {
        assert(addresses@.take(i + 1).drop_last() == addresses@.take(i as int));
        if let None = r {
            let ip = addresses[i];
            if ip_matches_stream_ipv6(ip, setting) && !ip.is_loopback() {
                r = Some(ip);
            }
        }
        i = i + 1;
    }
    assert(addresses@.take(addresses@.len() as int) == addresses@);
    r
}

/// An address that was found suits and leads elsewhere.
pub proof fn suiting_address_suits(addresses: Seq<Ip>, setting: StreamUseIpv6)
    ensures
        first_suiting(addresses, setting) matches Some(ip) ==> addresses.contains(ip) && suits(
            ip,
            setting,
        ) && !ip.loops_back(),
        first_suiting(addresses, setting) is None ==> forall|i: int|
            #![trigger addresses[i]]
            0 <= i < addresses.len() ==> !suits(addresses[i], setting) || addresses[i].loops_back(),
    decreases addresses.len(),
{
    if addresses.len() > 0 {
        let rest = addresses.drop_last();
        suiting_address_suits(rest, setting);
        assert(addresses == rest.push(addresses.last()));
        if let Some(ip) = first_suiting(rest, setting) {
            let k = choose|k: int| 0 <= k < rest.len() && rest[k] == ip;
            assert(addresses[k] == ip);
        } else {
            assert(addresses[addresses.len() - 1] == addresses.last());
            assert forall|i: int|
                #![trigger addresses[i]]
                first_suiting(addresses, setting) is None && 0 <= i < addresses.len() implies !suits(
                addresses[i],
                setting,
            ) || addresses[i].loops_back() by {
                if i < rest.len() {
                    assert(rest[i] == addresses[i]);
                }
            }
        }
    }
}

/// Index of the first interface that has the address, the number of
/// interfaces if none has.
pub open spec fn owner(interfaces: Seq<Interface>, ip: Ip) -> int
    decreases interfaces.len(),
{
    if interfaces.len() == 0 {
        0
    } else if owner(interfaces.drop_last(), ip) < interfaces.len() - 1 {
        owner(interfaces.drop_last(), ip)
    } else if interfaces.last().addresses@.contains(ip) {
        interfaces.len() - 1
    } else {
        interfaces.len() as int
    }
}

/// Where the owner lies.
pub proof fn owner_has_address(interfaces: Seq<Interface>, ip: Ip)
    ensures
        0 <= owner(interfaces, ip) <= interfaces.len(),
        owner(interfaces, ip) < interfaces.len() ==> interfaces[owner(interfaces, ip)].addresses@.contains(
            ip,
        ),
    decreases interfaces.len(),
{
    if interfaces.len() > 0 {
        owner_has_address(interfaces.drop_last(), ip);
    }
}

/// Whether the interface has the address.
fn has_address(interface: &Interface, ip: Ip) -> (r: bool)
    ensures
        r == interface.addresses@.contains(ip),
{
    let mut i: usize = 0;
    while i < interface.addresses.len()
        invariant
            i <= interface.addresses@.len(),
            forall|j: int| #![trigger interface.addresses@[j]] 0 <= j < i ==> interface.addresses@[j] != ip,
        decreases interface.addresses@.len() - i,
    {
        if interface.addresses[i] == ip {
            assert(interface.addresses@[i as int] == ip);
            return true;
        }
        i = i + 1;
    }
    false
}

/// Index of the first interface that has the address; see [`owner`].
fn find_owner(interfaces: &Vec<Interface>, ip: Ip) -> (r: usize)
    ensures
        r == owner(interfaces@, ip),
        r <= interfaces@.len(),
{
    let mut r: usize = 0;
    let mut i: usize = 0;
    while i < interfaces.len()
        invariant
            i <= interfaces@.len(),
            r <= i,
            r == owner(interfaces@.take(i as int), ip),
        decreases interfaces@.len() - i,
    {
        assert(interfaces@.take(i + 1).drop_last() == interfaces@.take(i as int));
        if r == i && !has_address(&interfaces[i], ip) {
            r = i + 1;
        }
        i = i + 1;
    }
    assert(interfaces@.take(interfaces@.len() as int) == interfaces@);
    r
}

/// All addresses, interface by interface.
pub open spec fn all_addresses(interfaces: Seq<Interface>) -> Seq<Ip>
    decreases interfaces.len(),
{
    if interfaces.len() == 0 {
        Seq::empty()
    } else {
        all_addresses(interfaces.drop_last()) + interfaces.last().addresses@
    }
}

/// What suits in a row of addresses is what suits in its first part, or else
/// in its second.
proof fn first_suiting_splits(a: Seq<Ip>, b: Seq<Ip>, setting: StreamUseIpv6)
    ensures
        first_suiting(a + b, setting) == match first_suiting(a, setting) {
            Some(ip) => Some(ip),
            None => first_suiting(b, setting),
        },
    decreases b.len(),
{
    if b.len() == 0 {
        assert(a + b == a);
    } else {
        first_suiting_splits(a, b.drop_last(), setting);
        assert((a + b).drop_last() == a + b.drop_last());
    }
}

/// The address of the interface that has `local` which suits; see
/// [`first_suiting`]. Nothing where the interfaces are not known.
pub fn interface_ip_for_family(
    interfaces: Option<&Vec<Interface>>,
    local: Ip,
    setting: StreamUseIpv6,
) -> (r: Option<Ip>)
    ensures
        r == match interfaces {
            None => None,
            Some(all) => if owner(all@, local) < all@.len() {
                first_suiting(all@[owner(all@, local)].addresses@, setting)
            } else {
                None
            },
        },
{
    match interfaces {
        None => None,
        Some(all) => {
            let n = find_owner(all, local);
            if n < all.len() {
                find_suiting(&all[n].addresses, setting)
            } else {
                None
            }
        },
    }
}

/// The first address of all interfaces which suits; see [`first_suiting`].
/// Nothing where the interfaces are not known.
pub fn first_interface_ip(interfaces: Option<&Vec<Interface>>, setting: StreamUseIpv6) -> (r: Option<
    Ip,
>)
    ensures
        r == match interfaces {
            None => None,
            Some(all) => first_suiting(all_addresses(all@), setting),
        },
{
    let all = match interfaces {
        None => return None,
        Some(all) => all,
    };
    let mut r: Option<Ip> = None;
    let mut i: usize = 0;
    while i < all.len()
        invariant
            i <= all@.len(),
            r == first_suiting(all_addresses(all@.take(i as int)), setting),
        decreases all@.len() - i,
    {
        proof {
            assert(all@.take(i + 1).drop_last() == all@.take(i as int));
            first_suiting_splits(
                all_addresses(all@.take(i as int)),
                all@[i as int].addresses@,
                setting,
            );
        }
        if let None = r {
            r = find_suiting(&all[i].addresses, setting);
        }
        i = i + 1;
    }
    assert(all@.take(all@.len() as int) == all@);
    r
}

/// The address at which a client finds the stream: its own way in where the
/// version is right, else an address of the same interface, else of any, else
/// its own way in after all.
pub open spec fn session_ip(
    setting: StreamUseIpv6,
    local: Ip,
    same_interface: Option<Ip>,
    any_interface: Option<Ip>,
) -> Ip {
    if setting == StreamUseIpv6::Auto || suits(local, setting) {
        local
    } else {
        match same_interface {
            Some(ip) => ip,
            None => match any_interface {
                Some(ip) => ip,
                None => local,
            },
        }
    }
}

/// The address at which a client finds the stream; see [`session_ip`].
pub fn session_url_ip(
    setting: StreamUseIpv6,
    local: Ip,
    interfaces: Option<&Vec<Interface>>,
) -> (r: Ip)
    ensures
        r == session_ip(
            setting,
            local,
            match interfaces {
                None => None,
                Some(all) => if owner(all@, local) < all@.len() {
                    first_suiting(all@[owner(all@, local)].addresses@, setting)
                } else {
                    None
                },
            },
            match interfaces {
                None => None,
                Some(all) => first_suiting(all_addresses(all@), setting),
            },
        ),
{
    if let StreamUseIpv6::Auto = setting {
        return local;
    }
    if ip_matches_stream_ipv6(local, setting) {
        return local;
    }
    match interface_ip_for_family(interfaces, local, setting) {
        Some(ip) => ip,
        None => match first_interface_ip(interfaces, setting) {
            Some(ip) => ip,
            None => local,
        },
    }
}

/// A client is told an address of the version that streams use wherever the
/// host has one that leads elsewhere.
pub proof fn session_address_suits(
    setting: StreamUseIpv6,
    local: Ip,
    interfaces: Seq<Interface>,
    same_interface: Option<Ip>,
)
    requires
        setting != StreamUseIpv6::Auto,
        same_interface matches Some(ip) ==> suits(ip, setting),
        exists|i: int|
            #![trigger all_addresses(interfaces)[i]]
            0 <= i < all_addresses(interfaces).len() && suits(all_addresses(interfaces)[i], setting)
                && !all_addresses(interfaces)[i].loops_back(),
    ensures
        suits(
            session_ip(
                setting,
                local,
                same_interface,
                first_suiting(all_addresses(interfaces), setting),
            ),
            setting,
        ),
{
    suiting_address_suits(all_addresses(interfaces), setting);
}

/// The hardware address of the interface that has `address`; an error where
/// the interfaces are not known.
pub fn get_mac_address(interfaces: Option<&Vec<Interface>>, address: Ip) -> (r: Result<
    Option<String>,
    (),
>)
    ensures
        match interfaces {
            None => r is Err,
            Some(all) => r == Ok::<Option<String>, ()>(
                if owner(all@, address) < all@.len() {
                    all@[owner(all@, address)].mac
                } else {
                    None
                },
            ),
        },
{
    match interfaces {
        None => Err(()),
        Some(all) => {
            let n = find_owner(all, address);
            if n < all.len() {
                match &all[n].mac {
                    Some(mac) => Ok(Some(mac.clone())),
                    None => Ok(None),
                }
            } else {
                Ok(None)
            }
        },
    }
}

/// The addresses from 127.0.0.0 to 127.255.255.255 and ::1 lead to the host
/// itself, and no others; 0.0.0.0 and :: stand for none, and no others.
pub proof fn special_addresses_are_known(v4: u32, v6: u128)
    ensures
        Ip::V4(v4).loops_back() <==> 0x7f00_0000 <= v4 <= 0x7fff_ffff,
        Ip::V6(v6).loops_back() <==> v6 == 1,
        Ip::V4(v4).unspecified() <==> v4 == 0,
        Ip::V6(v6).unspecified() <==> v6 == 0,
        unmapped(Ip::V4(v4)) == Ip::V4(v4),
        !(0xffff_0000_0000 <= v6 <= 0xffff_ffff_ffff) ==> unmapped(Ip::V6(v6)) == Ip::V6(v6),
{
}

/// Of several addresses that would do, the first is taken: none before it is of
/// the version that is asked for and leads elsewhere.
pub proof fn first_address_that_does(addresses: Seq<Ip>, setting: StreamUseIpv6)
    ensures
        first_suiting(addresses, setting) matches Some(ip) ==> exists|i: int|
            {
                &&& 0 <= i < addresses.len()
                &&& #[trigger] addresses[i] == ip
                &&& !ip.loops_back()
                &&& (ip is V4 && setting == StreamUseIpv6::No) || (ip is V6 && setting
                    == StreamUseIpv6::Yes)
                &&& forall|j: int|
                    #![trigger addresses[j]]
                    0 <= j < i && !addresses[j].loops_back() ==> {
                        &&& setting == StreamUseIpv6::No ==> addresses[j] is V6
                        &&& setting == StreamUseIpv6::Yes ==> addresses[j] is V4
                    }
            },
        first_suiting(addresses, setting) is None ==> forall|j: int|
            #![trigger addresses[j]]
            0 <= j < addresses.len() && !addresses[j].loops_back() ==> {
                &&& setting == StreamUseIpv6::No ==> addresses[j] is V6
                &&& setting == StreamUseIpv6::Yes ==> addresses[j] is V4
            },
    decreases addresses.len(),
{
    if addresses.len() > 0 {
        let rest = addresses.drop_last();
        let last = addresses.len() - 1;
        first_address_that_does(rest, setting);
        assert(forall|j: int| #![trigger addresses[j]] 0 <= j < last ==> addresses[j] == rest[j]);
        assert(addresses[last] == addresses.last());
        if let Some(ip) = first_suiting(rest, setting) {
            let i = choose|i: int|
                {
                    &&& 0 <= i < rest.len()
                    &&& #[trigger] rest[i] == ip
                    &&& !ip.loops_back()
                    &&& (ip is V4 && setting == StreamUseIpv6::No) || (ip is V6 && setting
                        == StreamUseIpv6::Yes)
                    &&& forall|j: int|
                        #![trigger rest[j]]
                        0 <= j < i && !rest[j].loops_back() ==> {
                            &&& setting == StreamUseIpv6::No ==> rest[j] is V6
                            &&& setting == StreamUseIpv6::Yes ==> rest[j] is V4
                        }
                };
            assert(addresses[i] == ip);
        }
    }
}

/// The first interface with the address is its owner, and there is an owner
/// wherever some interface has the address.
pub proof fn owner_is_the_first(interfaces: Seq<Interface>, ip: Ip, i: int)
    requires
        0 <= i < interfaces.len(),
        interfaces[i].addresses@.contains(ip),
    ensures
        0 <= owner(interfaces, ip) <= i,
        interfaces[owner(interfaces, ip)].addresses@.contains(ip),
    decreases interfaces.len(),
{
    owner_has_address(interfaces, ip);
    owner_has_address(interfaces.drop_last(), ip);
    if i < interfaces.len() - 1 {
        owner_is_the_first(interfaces.drop_last(), ip, i);
    }
}

/// An address is one of the host's exactly if some interface has it.
pub proof fn addresses_are_those_of_interfaces(interfaces: Seq<Interface>, ip: Ip)
    ensures
        all_addresses(interfaces).contains(ip) <==> exists|i: int|
            0 <= i < interfaces.len() && (#[trigger] interfaces[i]).addresses@.contains(ip),
    decreases interfaces.len(),
{
    if interfaces.len() > 0 {
        let rest = interfaces.drop_last();
        let own = interfaces.last().addresses@;
        let last = interfaces.len() - 1;
        addresses_are_those_of_interfaces(rest, ip);
        assert(interfaces[last] == interfaces.last());
        if all_addresses(interfaces).contains(ip) {
            let k = choose|k: int|
                0 <= k < all_addresses(interfaces).len() && all_addresses(interfaces)[k] == ip;
            if k < all_addresses(rest).len() {
                assert(all_addresses(rest)[k] == ip);
                let i = choose|i: int|
                    0 <= i < rest.len() && (#[trigger] rest[i]).addresses@.contains(ip);
                assert(interfaces[i] == rest[i]);
            } else {
                assert(own[k - all_addresses(rest).len()] == ip);
            }
        }
        if exists|i: int|
            0 <= i < interfaces.len() && (#[trigger] interfaces[i]).addresses@.contains(ip) {
            let i = choose|i: int|
                0 <= i < interfaces.len() && (#[trigger] interfaces[i]).addresses@.contains(ip);
            if i < last {
                assert(rest[i] == interfaces[i]);
                let k = choose|k: int|
                    0 <= k < all_addresses(rest).len() && all_addresses(rest)[k] == ip;
                assert(all_addresses(interfaces)[k] == ip);
            } else {
                let k = choose|k: int| 0 <= k < own.len() && own[k] == ip;
                assert(all_addresses(interfaces)[all_addresses(rest).len() + k] == ip);
            }
        }
    }
}

/// A client finds the stream where it came in, unless the version is wrong;
/// then at the same interface, then at any, and where all fails at where it
/// came in after all.
pub proof fn streams_are_found(
    setting: StreamUseIpv6,
    local: Ip,
    same: Option<Ip>,
    any: Option<Ip>,
)
    ensures
        session_ip(StreamUseIpv6::Auto, local, same, any) == local,
        local is V6 ==> session_ip(StreamUseIpv6::Yes, local, same, any) == local,
        local is V4 ==> session_ip(StreamUseIpv6::No, local, same, any) == local,
        ({
            let wrong = (local is V4 && setting == StreamUseIpv6::Yes) || (local is V6 && setting
                == StreamUseIpv6::No);
            let told = session_ip(setting, local, same, any);
            &&& wrong && same is Some ==> told == same->0
            &&& wrong && same is None && any is Some ==> told == any->0
            &&& wrong && same is None && any is None ==> told == local
        }),
{
}

} // verus!
