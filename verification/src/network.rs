//! The addresses of the machine that the display shows.

use crate::decimal;
use crate::text;
use vstd::prelude::*;

verus! {

/// The address of a network interface.
#[derive(Clone, Copy, Debug)]
pub enum Address {
    /// The four octets of an IPv4 address.
    V4([u8; 4]),
    /// The eight segments of an IPv6 address.
    V6([u16; 8]),
}

/// An IPv4 address in dotted decimal.
pub open spec fn dotted(octets: Seq<u8>) -> Seq<char> {
    decimal::digits(octets[0] as nat) + seq!['.'] + decimal::digits(octets[1] as nat) + seq!['.']
        + decimal::digits(octets[2] as nat) + seq!['.'] + decimal::digits(octets[3] as nat)
}

/// The text of an IPv6 address.
pub uninterp spec fn ipv6_text(segments: Seq<u16>) -> Seq<char>;

impl Address {
    /// An IPv4 address that begins with 127, or the IPv6 address 1.
    pub open spec fn loopback(self) -> bool {
        match self {
            Address::V4(octets) => octets@[0] == 127,
            Address::V6(segments) => segments@ == seq![0u16, 0, 0, 0, 0, 0, 0, 1],
        }
    }

    /// The address as text.
    pub open spec fn text(self) -> Seq<char> {
        match self {
            Address::V4(octets) => dotted(octets@),
            Address::V6(segments) => ipv6_text(segments@),
        }
    }

    /// Whether the address is a loopback address.
    pub fn is_loopback(&self) -> (b: bool)
        ensures
            b == self.loopback(),
    {
        match self {
            Address::V4(octets) => v4_is_loopback(*octets),
            Address::V6(segments) => v6_is_loopback(*segments),
        }
    }

    /// The address as text.
    pub fn ip_text(&self) -> (text: String)
        ensures
            text@ == self.text(),
    {
        match self {
            Address::V4(octets) => v4_text(*octets),
            Address::V6(segments) => v6_text(*segments),
        }
    }
}

/// Calls `is_loopback` of `get_if_addrs::Ifv4Addr`, which looks at the first octet only.
#[verifier::external_body]
fn v4_is_loopback(octets: [u8; 4]) -> (b: bool)
    ensures
        b == (octets@[0] == 127),
{
    let ip = octets.into();
    get_if_addrs::Ifv4Addr { ip, netmask: ip, broadcast: None }.is_loopback()
}

/// Calls `is_loopback` of `get_if_addrs::Ifv6Addr`, which knows one loopback address.
#[verifier::external_body]
fn v6_is_loopback(segments: [u16; 8]) -> (b: bool)
    ensures
        b == (segments@ == seq![0u16, 0, 0, 0, 0, 0, 0, 1]),
{
    let ip = segments.into();
    get_if_addrs::Ifv6Addr { ip, netmask: ip, broadcast: None }.is_loopback()
}

/// Calls `ip` of `get_if_addrs::IfAddr` and the `to_string` of the IPv4 address that it
/// gives, which is in dotted decimal.
#[verifier::external_body]
fn v4_text(octets: [u8; 4]) -> (text: String)
    ensures
        text@ == dotted(octets@),
{
    let ip = octets.into();
    let address = get_if_addrs::Ifv4Addr { ip, netmask: ip, broadcast: None };
    get_if_addrs::IfAddr::V4(address).ip().to_string()
}

/// Calls `ip` of `get_if_addrs::IfAddr` and the `to_string` of the IPv6 address that it
/// gives. The text depends on the segments alone; which text it is is left unsaid.
#[verifier::external_body]
fn v6_text(segments: [u16; 8]) -> (text: String)
    ensures
        text@ == ipv6_text(segments@),
{
    let ip = segments.into();
    let address = get_if_addrs::Ifv6Addr { ip, netmask: ip, broadcast: None };
    get_if_addrs::IfAddr::V6(address).ip().to_string()
}

/// The texts of all addresses but the loopback ones, in order.
pub open spec fn shown(addresses: Seq<Address>) -> Seq<Seq<char>>
    decreases addresses.len(),
{
    if addresses.len() == 0 {
        Seq::empty()
    } else if addresses.last().loopback() {
        shown(addresses.drop_last())
    } else {
        shown(addresses.drop_last()).push(addresses.last().text())
    }
}

/// The texts of all addresses but the loopback ones, in order.
pub fn shown_addresses(addresses: &Vec<Address>) -> (found: Vec<String>)
    ensures
        text::texts(found@) == shown(addresses@),
{
    let mut found: Vec<String> = Vec::new();
    let mut i: usize = 0;
    assert(text::texts(found@) =~= shown(addresses@.take(0)));
    while i < addresses.len()
        invariant
            i <= addresses.len(),
            text::texts(found@) == shown(addresses@.take(i as int)),
        decreases addresses.len() - i,
    {
        assert(addresses@.take(i + 1).drop_last() =~= addresses@.take(i as int));
        if !addresses[i].is_loopback() {
            let ghost before = found@;
            found.push(addresses[i].ip_text());
            assert(text::texts(found@) =~= text::texts(before).push(addresses@[i as int].text()));
        }
        i = i + 1;
    }
    assert(addresses@.take(i as int) =~= addresses@);
    found
}

/// What is shown of two rows of addresses, one behind the other, is what is shown of each.
pub proof fn shown_of_both(first: Seq<Address>, second: Seq<Address>)
    ensures
        shown(first + second) == shown(first) + shown(second),
    decreases second.len(),
{
    if second.len() == 0 {
        assert(first + second =~= first);
        assert(shown(first) + shown(second) =~= shown(first));
    } else {
        shown_of_both(first, second.drop_last());
        assert((first + second).drop_last() =~= first + second.drop_last());
        assert(shown(first + second) =~= shown(first) + shown(second));
    }
}

/// A loopback address is never shown, and every other address is.
pub proof fn all_but_loopback_shown(addresses: Seq<Address>, i: int)
    requires
        0 <= i < addresses.len(),
    ensures
        shown(seq![addresses[i]]) == (if addresses[i].loopback() {
            Seq::empty()
        } else {
            seq![addresses[i].text()]
        }),
        shown(addresses) == shown(addresses.take(i)) + shown(seq![addresses[i]]) + shown(
            addresses.skip(i + 1),
        ),
{
    let one = seq![addresses[i]];
    assert(one.drop_last() =~= Seq::empty());
    assert(shown(one.drop_last()) =~= Seq::empty());
    assert(shown(one) =~= (if addresses[i].loopback() {
        Seq::empty()
    } else {
        seq![addresses[i].text()]
    }));
    shown_of_both(addresses.take(i), one);
    shown_of_both(addresses.take(i) + one, addresses.skip(i + 1));
    assert(addresses.take(i) + one + addresses.skip(i + 1) =~= addresses);
}

/// The loopback addresses are those of IPv4 that begin with 127, and one of IPv6.
pub proof fn what_is_loopback(octets: [u8; 4], segments: [u16; 8])
    ensures
        Address::V4(octets).loopback() <==> octets@[0] == 127,
        Address::V6(segments).loopback() <==> segments@[7] == 1 && forall|i: int|
            0 <= i < 7 ==> #[trigger] segments@[i] == 0,
{
    let one = seq![0u16, 0, 0, 0, 0, 0, 0, 1];
    if segments@[7] == 1 && (forall|i: int| 0 <= i < 7 ==> #[trigger] segments@[i] == 0) {
        assert(segments@ =~= one);
    }
    if Address::V6(segments).loopback() {
        assert forall|i: int| 0 <= i < 7 implies #[trigger] segments@[i] == 0 by {
            assert(segments@[i] == one[i]);
        }
        assert(segments@[7] == one[7]);
    }
}

/// The text of an IPv4 address is its four octets in decimal, in order, with dots between.
pub proof fn text_of_v4(octets: [u8; 4])
    ensures
        Address::V4(octets).text() == text::joined(
            Seq::new(4, |i: int| decimal::digits(octets@[i] as nat)),
            seq!['.'],
        ),
{
    let parts = Seq::new(4, |i: int| decimal::digits(octets@[i] as nat));
    let dot = seq!['.'];
    assert(parts.drop_last().drop_last().drop_last().drop_last() =~= Seq::empty());
    reveal_with_fuel(text::joined, 5);
    assert(Address::V4(octets).text() =~= text::joined(parts, dot));
}

/// The text of an IPv6 address is the text of its segments.
pub proof fn text_of_v6(segments: [u16; 8])
    ensures
        Address::V6(segments).text() == ipv6_text(segments@),
{
}

/// One more address is shown behind the others, unless it is a loopback address.
pub proof fn one_more_address(addresses: Seq<Address>, more: Address)
    ensures
        shown(Seq::empty()) == Seq::<Seq<char>>::empty(),
        shown(addresses.push(more)) == (if more.loopback() {
            shown(addresses)
        } else {
            shown(addresses).push(more.text())
        }),
{
    assert(addresses.push(more).drop_last() =~= addresses);
}

} // verus!
