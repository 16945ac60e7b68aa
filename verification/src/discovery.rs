//! Discovery of hubs on the local network: what a hub advertises, and how
//! the answers to a scan become the list of hubs shown to the user.
//!
//! The network session itself belongs to the program; this module decides
//! what is advertised and what a scan yields from the events it received.

use crate::text::{
    chars_of, decimal, hyphenate, hyphenated, lowercase, matches_at, push_decimal, string_of,
    to_lowercase,
};
use vstd::prelude::*;

verus! {

/// The service type under which hubs advertise themselves.
pub const SERVICE_TYPE: &'static str = "_openbio._tcp.local.";

/// How long a scan listens, in milliseconds.
pub const SCAN_TIMEOUT_MS: u64 = 5000;

/// How long one poll for an event may wait, in milliseconds.
pub const POLL_INTERVAL_MS: u64 = 100;

/// Whether a scan that has run for `elapsed_ms` polls once more.
pub fn scan_continues(elapsed_ms: u64) -> (go_on: bool)
    ensures
        go_on == (elapsed_ms < SCAN_TIMEOUT_MS),
{
    elapsed_ms < SCAN_TIMEOUT_MS
}

/// What a hub registers on the network. The record carries no attributes.
#[derive(Debug)]
pub struct Advertisement {
    pub service_type: String,
    pub instance_name: String,
    pub host_name: String,
    pub port: u16,
}

/// The model of an [`Advertisement`].
pub struct AdvertisementView {
    pub service_type: Seq<char>,
    pub instance_name: Seq<char>,
    pub host_name: Seq<char>,
    pub port: u16,
}

impl View for Advertisement {
    type V = AdvertisementView;

    open spec fn view(&self) -> AdvertisementView {
        AdvertisementView {
            service_type: self.service_type@,
            instance_name: self.instance_name@,
            host_name: self.host_name@,
            port: self.port,
        }
    }
}

/// The name under which a lab is advertised: its name with hyphens for
/// spaces, in lower case.
pub open spec fn advertised_name(lab_name: Seq<char>) -> Seq<char> {
    lowercase(hyphenated(lab_name))
}

/// The host name a lab advertises: its advertised name in the `local` domain.
pub open spec fn host_name_of(lab_name: Seq<char>) -> Seq<char> {
    advertised_name(lab_name) + ".local."@
}

/// What a hub named `lab_name` advertises for its service on `port`: its
/// advertised name as instance, under the fixed service type, at the host
/// derived from the same name.
pub open spec fn advertisement_of(lab_name: Seq<char>, port: u16) -> AdvertisementView {
    AdvertisementView {
        service_type: SERVICE_TYPE@,
        instance_name: advertised_name(lab_name),
        host_name: host_name_of(lab_name),
        port,
    }
}

/// The record of a hub advertised as `name`, its host being `name` in the
/// `local` domain, for its service on `port`.
pub fn advertisement_at(name: String, port: u16) -> (ad: Advertisement)
    ensures
        ad@ == (AdvertisementView {
            service_type: SERVICE_TYPE@,
            instance_name: name@,
            host_name: name@ + ".local."@,
            port,
        }),
{
    let mut host_name = name.clone();
    host_name.append(".local.");
    Advertisement {
        service_type: String::from_str(SERVICE_TYPE),
        instance_name: name,
        host_name,
        port,
    }
}

/// The record that a hub named `lab_name` registers for its service on `port`.
pub fn advertisement(lab_name: &str, port: u16) -> (ad: Advertisement)
    ensures
        ad@ == advertisement_of(lab_name@, port),
{
    let hyphens = hyphenate(lab_name);
    let name = to_lowercase(hyphens.as_str());
    advertisement_at(name, port)
}

/// An address that a resolved service advertises. Only IPv4 addresses are
/// ever used, so nothing is kept of the others.
#[derive(Clone, Copy, Debug, PartialEq, Eq, Structural)]
pub enum PeerAddress {
    V4(u8, u8, u8, u8),
    V6,
}

/// A service that a scan resolved: its full name, its addresses in the
/// order they were handed over, and its port.
#[derive(Debug)]
pub struct ResolvedService {
    pub fullname: String,
    pub addresses: Vec<PeerAddress>,
    pub port: u16,
}

/// What a scan can receive while it listens.
#[derive(Debug)]
pub enum ScanEvent {
    SearchStarted,
    ServiceFound,
    ServiceResolved(ResolvedService),
    Other,
}

/// A hub found by a scan: the name it shows and its address as host and port.
#[derive(Debug)]
pub struct DiscoveredHub {
    pub name: String,
    pub address: String,
}

/// The model of a [`DiscoveredHub`].
pub struct HubView {
    pub name: Seq<char>,
    pub address: Seq<char>,
}

impl View for DiscoveredHub {
    type V = HubView;

    open spec fn view(&self) -> HubView {
        HubView { name: self.name@, address: self.address@ }
    }
}

impl Clone for DiscoveredHub {
    fn clone(&self) -> (hub: Self)
        ensures
            hub@ == self@,
    {
        DiscoveredHub { name: self.name.clone(), address: self.address.clone() }
    }
}

/// The models of a sequence of hubs.
pub open spec fn views(hubs: Seq<DiscoveredHub>) -> Seq<HubView> {
    hubs.map_values(|h: DiscoveredHub| h@)
}

/// The suffix that the service type adds to an instance name.
pub open spec fn service_suffix() -> Seq<char> {
    "."@ + SERVICE_TYPE@
}

/// The name shown for a service: its full name without the service-type suffix.
pub open spec fn display_name(fullname: Seq<char>) -> Seq<char> {
    let cut = fullname.len() - service_suffix().len();
    if cut >= 0 && fullname.skip(cut) == service_suffix() {
        fullname.take(cut)
    } else {
        fullname
    }
}

/// The address of a hub at the IPv4 address `a.b.c.d` and `port`, as host and port.
pub open spec fn hub_address(a: u8, b: u8, c: u8, d: u8, port: u16) -> Seq<char> {
    decimal(a as nat) + "."@ + decimal(b as nat) + "."@ + decimal(c as nat) + "."@ + decimal(
        d as nat,
    ) + ":"@ + decimal(port as nat)
}

/// The first IPv4 address among `addresses`.
pub open spec fn first_v4(addresses: Seq<PeerAddress>) -> Option<PeerAddress>
    decreases addresses.len(),
{
    if addresses.len() == 0 {
        None
    } else if addresses[0] is V4 {
        Some(addresses[0])
    } else {
        first_v4(addresses.drop_first())
    }
}

/// The hub that a resolved service stands for; none where it has no IPv4 address.
pub open spec fn hub_of(fullname: Seq<char>, addresses: Seq<PeerAddress>, port: u16) -> Option<
    HubView,
> {
    match first_v4(addresses) {
        Some(PeerAddress::V4(a, b, c, d)) => Some(
            HubView { name: display_name(fullname), address: hub_address(a, b, c, d, port) },
        ),
        _ => None,
    }
}

impl ResolvedService {
    /// The hub this service stands for.
    pub open spec fn hub(&self) -> Option<HubView> {
        hub_of(self.fullname@, self.addresses@, self.port)
    }

    /// Computes [`Self::hub`].
    pub fn to_hub(&self) -> (r: Option<DiscoveredHub>)
        ensures
            r is Some <==> self.hub() is Some,
            r matches Some(h) ==> Some(h@) == self.hub(),
    {
        let mut i: usize = 0;
        assert(self.addresses@.skip(0) == self.addresses@);
        while i < self.addresses.len()
            invariant
                i <= self.addresses.len(),
                first_v4(self.addresses@) == first_v4(self.addresses@.skip(i as int)),
            decreases self.addresses.len() - i,
        {
            let ghost rest = self.addresses@.skip(i as int);
            assert(rest[0] == self.addresses@[i as int]);
            if let PeerAddress::V4(a, b, c, d) = self.addresses[i] {
                let hub = DiscoveredHub {
                    name: shown_name(self.fullname.as_str()),
                    address: address_text(a, b, c, d, self.port),
                };
                return Some(hub);
            }
            assert(rest.drop_first() == self.addresses@.skip(i + 1));
            i += 1;
        }
        None
    }
}

/// Computes [`display_name`].
pub fn shown_name(fullname: &str) -> (name: String)
    ensures
        name@ == display_name(fullname@),
{
    let full = chars_of(fullname);
    let mut suffix = chars_of(".");
    let mut kind = chars_of(SERVICE_TYPE);
    suffix.append(&mut kind);
    if suffix.len() <= full.len() {
        let cut = full.len() - suffix.len();
        if matches_at(&full, &suffix, cut) {
            assert(full@.skip(cut as int) == full@.subrange(cut as int, cut + suffix.len()));
            assert(full@.take(cut as int) == full@.subrange(0, cut as int));
            return string_of(&full, 0, cut);
        }
        assert(full@.skip(cut as int) == full@.subrange(cut as int, cut + suffix.len()));
    }
    assert(full@ == full@.subrange(0, full.len() as int));
    string_of(&full, 0, full.len())
}

/// Computes [`hub_address`].
pub fn address_text(a: u8, b: u8, c: u8, d: u8, port: u16) -> (text: String)
    ensures
        text@ == hub_address(a, b, c, d, port),
{
    let mut text = String::new();
    push_decimal(&mut text, a as u32);
    text.append(".");
    push_decimal(&mut text, b as u32);
    text.append(".");
    push_decimal(&mut text, c as u32);
    text.append(".");
    push_decimal(&mut text, d as u32);
    text.append(":");
    push_decimal(&mut text, port as u32);
    text
}

/// Whether the name `a` sorts strictly before the name `b`: the order of
/// strings, character by character, a prefix before what extends it.
pub open spec fn name_before(a: Seq<char>, b: Seq<char>) -> bool
    decreases a.len(),
{
    if b.len() == 0 {
        false
    } else if a.len() == 0 {
        true
    } else if a[0] != b[0] {
        (a[0] as u32) < (b[0] as u32)
    } else {
        name_before(a.drop_first(), b.drop_first())
    }
}

proof fn lemma_code_points_differ(x: char, y: char)
    ensures
        x != y ==> (x as u32) != (y as u32),
{
    vstd::utf8::char_u32_cast(x, x as u32);
    vstd::utf8::char_u32_cast(y, y as u32);
}

/// No name sorts before itself.
pub proof fn lemma_name_order_irreflexive(a: Seq<char>)
    ensures
        !name_before(a, a),
    decreases a.len(),
{
    if a.len() > 0 {
        lemma_name_order_irreflexive(a.drop_first());
    }
}

/// Of two names at most one sorts before the other.
pub proof fn lemma_name_order_asymmetric(a: Seq<char>, b: Seq<char>)
    requires
        name_before(a, b),
    ensures
        !name_before(b, a),
    decreases a.len(),
{
    if a.len() > 0 && b.len() > 0 && a[0] == b[0] {
        lemma_name_order_asymmetric(a.drop_first(), b.drop_first());
    }
}

/// Of two different names one sorts before the other.
pub proof fn lemma_name_order_total(a: Seq<char>, b: Seq<char>)
    requires
        !name_before(a, b),
        !name_before(b, a),
    ensures
        a == b,
    decreases a.len(),
{
    if a.len() > 0 && b.len() > 0 {
        lemma_code_points_differ(a[0], b[0]);
        lemma_name_order_total(a.drop_first(), b.drop_first());
        assert(a =~= seq![a[0]] + a.drop_first());
        assert(b =~= seq![b[0]] + b.drop_first());
    } else {
        assert(a =~= b);
    }
}

/// Where `b` does not sort before `a`, nor `c` before `b`, `c` does not sort before `a`.
pub proof fn lemma_name_order_transitive(a: Seq<char>, b: Seq<char>, c: Seq<char>)
    requires
        !name_before(b, a),
        !name_before(c, b),
    ensures
        !name_before(c, a),
    decreases a.len(),
{
    if a.len() > 0 && b.len() > 0 && c.len() > 0 {
        lemma_code_points_differ(a[0], b[0]);
        lemma_code_points_differ(b[0], c[0]);
        lemma_code_points_differ(a[0], c[0]);
        if a[0] == b[0] && b[0] == c[0] {
            lemma_name_order_transitive(a.drop_first(), b.drop_first(), c.drop_first());
        }
    }
}

/// Tests [`name_before`].
pub fn sorts_before(a: &str, b: &str) -> (r: bool)
    ensures
        r == name_before(a@, b@),
{
    let x = chars_of(a);
    let y = chars_of(b);
    let mut i: usize = 0;
    assert(x@.skip(0) == x@ && y@.skip(0) == y@);
    while i < x.len() && i < y.len() && x[i] == y[i]
        invariant
            i <= x.len(),
            i <= y.len(),
            name_before(x@, y@) == name_before(x@.skip(i as int), y@.skip(i as int)),
        decreases x.len() - i,
    {
        assert(x@.skip(i as int)[0] == x@[i as int] && y@.skip(i as int)[0] == y@[i as int]);
        assert(x@.skip(i as int).drop_first() == x@.skip(i + 1));
        assert(y@.skip(i as int).drop_first() == y@.skip(i + 1));
        i += 1;
    }
    if i >= y.len() {
        false
    } else if i >= x.len() {
        true
    } else {
        assert(x@.skip(i as int)[0] == x@[i as int] && y@.skip(i as int)[0] == y@[i as int]);
        (x[i] as u32) < (y[i] as u32)
    }
}

/// Whether the names in `hubs` never descend.
pub open spec fn in_name_order(hubs: Seq<HubView>) -> bool {
    forall|i: int, j: int| 0 <= i < j < hubs.len() ==> !name_before(hubs[j].name, hubs[i].name)
}

/// Where a hub named `name` goes into `sorted`: behind the last hub that
/// `name` does not sort before.
pub open spec fn insert_position(sorted: Seq<HubView>, name: Seq<char>) -> int
    decreases sorted.len(),
{
    if sorted.len() > 0 && name_before(name, sorted.last().name) {
        insert_position(sorted.drop_last(), name)
    } else {
        sorted.len() as int
    }
}

/// `sorted` with `hub` put in by name, behind the hubs of the same name.
pub open spec fn insert_by_name(sorted: Seq<HubView>, hub: HubView) -> Seq<HubView> {
    sorted.insert(insert_position(sorted, hub.name), hub)
}

/// `hubs` sorted by name, hubs of one name in the order they had.
pub open spec fn sorted_by_name(hubs: Seq<HubView>) -> Seq<HubView>
    decreases hubs.len(),
{
    if hubs.len() == 0 {
        hubs
    } else {
        insert_by_name(sorted_by_name(hubs.drop_last()), hubs.last())
    }
}

/// Whether some hub in `hubs` has the address `address`.
pub open spec fn holds_address(hubs: Seq<HubView>, address: Seq<char>) -> bool {
    exists|i: int| 0 <= i < hubs.len() && #[trigger] hubs[i].address == address
}

/// `hubs` without every hub whose address an earlier hub has.
pub open spec fn first_per_address(hubs: Seq<HubView>) -> Seq<HubView>
    decreases hubs.len(),
{
    if hubs.len() == 0 {
        hubs
    } else if holds_address(hubs.drop_last(), hubs.last().address) {
        first_per_address(hubs.drop_last())
    } else {
        first_per_address(hubs.drop_last()).push(hubs.last())
    }
}

/// What `insert_position` picks: every hub from there on sorts after
/// `name`, and the hub before does not.
pub proof fn lemma_insert_position(sorted: Seq<HubView>, name: Seq<char>)
    ensures
        0 <= insert_position(sorted, name) <= sorted.len(),
        forall|k: int|
            insert_position(sorted, name) <= k < sorted.len() ==> name_before(
                name,
                #[trigger] sorted[k].name,
            ),
        insert_position(sorted, name) > 0 ==> !name_before(
            name,
            sorted[insert_position(sorted, name) - 1].name,
        ),
    decreases sorted.len(),
{
    if sorted.len() > 0 && name_before(name, sorted.last().name) {
        let shorter = sorted.drop_last();
        lemma_insert_position(shorter, name);
        assert forall|k: int| insert_position(sorted, name) <= k < sorted.len() implies name_before(
            name,
            #[trigger] sorted[k].name,
        ) by {
            if k < shorter.len() {
                assert(shorter[k] == sorted[k]);
            }
        }
        if insert_position(sorted, name) > 0 {
            assert(shorter[insert_position(sorted, name) - 1] == sorted[insert_position(
                sorted,
                name,
            ) - 1]);
        }
    }
}

/// A position with the two properties of `lemma_insert_position` is the
/// one that `insert_position` picks.
pub proof fn lemma_insert_position_unique(sorted: Seq<HubView>, name: Seq<char>, p: int)
    requires
        0 <= p <= sorted.len(),
        forall|k: int| p <= k < sorted.len() ==> name_before(name, #[trigger] sorted[k].name),
        p > 0 ==> !name_before(name, sorted[p - 1].name),
    ensures
        insert_position(sorted, name) == p,
    decreases sorted.len(),
{
    if sorted.len() > 0 && name_before(name, sorted.last().name) {
        assert(p < sorted.len());
        let shorter = sorted.drop_last();
        assert forall|k: int| p <= k < shorter.len() implies name_before(
            name,
            #[trigger] shorter[k].name,
        ) by {
            assert(shorter[k] == sorted[k]);
        }
        lemma_insert_position_unique(shorter, name, p);
    } else if sorted.len() > 0 {
        if p < sorted.len() {
            assert(name_before(name, sorted[sorted.len() - 1].name));
        }
    }
}

/// Putting a hub in by name keeps the names in order.
pub proof fn lemma_insert_keeps_order(sorted: Seq<HubView>, hub: HubView)
    requires
        in_name_order(sorted),
    ensures
        in_name_order(insert_by_name(sorted, hub)),
{
    let p = insert_position(sorted, hub.name);
    let r = insert_by_name(sorted, hub);
    lemma_insert_position(sorted, hub.name);
    assert forall|i: int, j: int| 0 <= i < j < r.len() implies !name_before(
        r[j].name,
        r[i].name,
    ) by {
        if j == p {
            assert(r[i] == sorted[i]);
            if i < p - 1 {
                lemma_name_order_transitive(sorted[i].name, sorted[p - 1].name, hub.name);
            }
        } else if i == p {
            assert(r[j] == sorted[j - 1]);
            assert(name_before(hub.name, sorted[j - 1].name));
            lemma_name_order_asymmetric(hub.name, sorted[j - 1].name);
        } else {
            let i0 = if i < p { i } else { i - 1 };
            let j0 = if j < p { j } else { j - 1 };
            assert(r[i] == sorted[i0] && r[j] == sorted[j0]);
        }
    }
}

/// Sorting by name puts the names in order.
pub proof fn lemma_sorted_in_order(hubs: Seq<HubView>)
    ensures
        in_name_order(sorted_by_name(hubs)),
        sorted_by_name(hubs).len() == hubs.len(),
    decreases hubs.len(),
{
    if hubs.len() > 0 {
        lemma_sorted_in_order(hubs.drop_last());
        lemma_insert_position(sorted_by_name(hubs.drop_last()), hubs.last().name);
        lemma_insert_keeps_order(sorted_by_name(hubs.drop_last()), hubs.last());
    }
}

proof fn lemma_insert_adds_one(s: Seq<HubView>, p: int, hub: HubView)
    requires
        0 <= p <= s.len(),
    ensures
        s.insert(p, hub).to_multiset() == s.to_multiset().insert(hub),
{
    broadcast use vstd::seq_lib::group_to_multiset_ensures;

    let longer = s.insert(p, hub);
    assert(longer.remove(p) == s);
    assert(longer[p] == hub);
    assert(longer.to_multiset().count(hub) > 0);
    assert(longer.to_multiset().remove(hub).insert(hub) == longer.to_multiset());
}

/// Sorting by name keeps every hub, as often as it came.
pub proof fn lemma_sorted_is_permutation(hubs: Seq<HubView>)
    ensures
        sorted_by_name(hubs).to_multiset() == hubs.to_multiset(),
    decreases hubs.len(),
{
    broadcast use vstd::seq_lib::group_to_multiset_ensures;

    if hubs.len() > 0 {
        let shorter = hubs.drop_last();
        let sorted = sorted_by_name(shorter);
        lemma_sorted_is_permutation(shorter);
        lemma_insert_position(sorted, hubs.last().name);
        assert(hubs == shorter.push(hubs.last()));
        lemma_insert_adds_one(sorted, insert_position(sorted, hubs.last().name), hubs.last());
    }
}

/// The test for the hubs that are named `name`.
pub open spec fn has_name(name: Seq<char>) -> spec_fn(HubView) -> bool {
    |hub: HubView| hub.name == name
}

proof fn lemma_none_has_name(hubs: Seq<HubView>, name: Seq<char>)
    requires
        forall|i: int| 0 <= i < hubs.len() ==> (#[trigger] hubs[i]).name != name,
    ensures
        hubs.filter(has_name(name)) == Seq::<HubView>::empty(),
    decreases hubs.len(),
{
    reveal(Seq::filter);
    if hubs.len() > 0 {
        let shorter = hubs.drop_last();
        assert forall|i: int| 0 <= i < shorter.len() implies (#[trigger] shorter[i]).name
            != name by {
            assert(shorter[i] == hubs[i]);
        }
        lemma_none_has_name(shorter, name);
        assert(hubs[hubs.len() - 1].name != name);
    }
}

/// Sorting by name leaves the hubs of one name in the order they had.
pub proof fn lemma_sorted_is_stable(hubs: Seq<HubView>, name: Seq<char>)
    ensures
        sorted_by_name(hubs).filter(has_name(name)) == hubs.filter(has_name(name)),
    decreases hubs.len(),
{
    reveal(Seq::filter);
    if hubs.len() > 0 {
        let shorter = hubs.drop_last();
        let last = hubs.last();
        let sorted = sorted_by_name(shorter);
        let p = insert_position(sorted, last.name);
        let test = has_name(name);
        lemma_sorted_is_stable(shorter, name);
        lemma_insert_position(sorted, last.name);
        let front = sorted.take(p);
        let back = sorted.skip(p);
        assert(sorted == front + back);
        assert(sorted.insert(p, last) == (front + seq![last]) + back);
        Seq::filter_distributes_over_add(front, back, test);
        Seq::filter_distributes_over_add(front + seq![last], back, test);
        Seq::filter_distributes_over_add(front, seq![last], test);
        assert(seq![last].drop_last() == Seq::<HubView>::empty());
        if last.name == name {
            assert forall|i: int| 0 <= i < back.len() implies (#[trigger] back[i]).name
                != name by {
                assert(back[i] == sorted[p + i]);
                lemma_name_order_irreflexive(name);
            }
            lemma_none_has_name(back, name);
            assert(seq![last].filter(test) == seq![last]);
            assert(front.filter(test) + seq![last] + Seq::<HubView>::empty() == front.filter(
                test,
            ).push(last));
            assert(front.filter(test) + Seq::<HubView>::empty() == front.filter(test));
        } else {
            lemma_none_has_name(seq![last], name);
            assert(front.filter(test) + Seq::<HubView>::empty() == front.filter(test));
        }
    }
}

/// A full name made of a name and the service-type suffix shows as that name.
pub proof fn lemma_display_name_of_full_name(name: Seq<char>)
    ensures
        display_name(name + service_suffix()) == name,
{
    let full = name + service_suffix();
    assert(full.skip(full.len() - service_suffix().len()) == service_suffix());
    assert(full.take(full.len() - service_suffix().len()) == name);
}

/// Whether no two hubs in `hubs` have the same address.
pub open spec fn addresses_distinct(hubs: Seq<HubView>) -> bool {
    forall|i: int, j: int| 0 <= i < j < hubs.len() ==> hubs[i].address != hubs[j].address
}

/// What `first_per_address` keeps: each kept hub is the first of `hubs`
/// with its address, and none is kept twice.
pub proof fn lemma_first_per_address(hubs: Seq<HubView>)
    ensures
        first_per_address(hubs).len() <= hubs.len(),
        addresses_distinct(first_per_address(hubs)),
        forall|i: int|
            0 <= i < first_per_address(hubs).len() ==> exists|k: int|
                0 <= k < hubs.len() && hubs[k] == #[trigger] first_per_address(hubs)[i]
                    && !holds_address(hubs.take(k), hubs[k].address),
        forall|k: int|
            0 <= k < hubs.len() ==> holds_address(
                first_per_address(hubs),
                #[trigger] hubs[k].address,
            ),
    decreases hubs.len(),
{
    let kept = first_per_address(hubs);
    if hubs.len() > 0 {
        let shorter = hubs.drop_last();
        let before = first_per_address(shorter);
        let last = hubs.last();
        lemma_first_per_address(shorter);
        assert forall|i: int| 0 <= i < before.len() implies exists|k: int|
            0 <= k < hubs.len() && hubs[k] == #[trigger] before[i] && !holds_address(
                hubs.take(k),
                hubs[k].address,
            ) by {
            let k = choose|k: int|
                0 <= k < shorter.len() && shorter[k] == before[i] && !holds_address(
                    shorter.take(k),
                    shorter[k].address,
                );
            assert(shorter.take(k) == hubs.take(k));
            assert(hubs[k] == shorter[k]);
        }
        if holds_address(shorter, last.address) {
            let m = choose|m: int| 0 <= m < shorter.len() && shorter[m].address == last.address;
            assert(holds_address(before, shorter[m].address));
            assert forall|k: int| 0 <= k < hubs.len() implies holds_address(
                kept,
                #[trigger] hubs[k].address,
            ) by {
                if k < shorter.len() {
                    assert(shorter[k] == hubs[k]);
                }
            }
        } else {
            assert(hubs.take(hubs.len() - 1) == shorter);
            assert forall|i: int, j: int| 0 <= i < j < kept.len() implies kept[i].address
                != kept[j].address by {
                if j == before.len() {
                    let k = choose|k: int|
                        0 <= k < hubs.len() && hubs[k] == before[i] && !holds_address(
                            hubs.take(k),
                            hubs[k].address,
                        );
                    if k < shorter.len() {
                        assert(shorter[k].address == before[i].address);
                    }
                }
            }
            assert forall|k: int| 0 <= k < hubs.len() implies holds_address(
                kept,
                #[trigger] hubs[k].address,
            ) by {
                if k < shorter.len() {
                    assert(shorter[k] == hubs[k]);
                    let i = choose|i: int|
                        0 <= i < before.len() && before[i].address == shorter[k].address;
                    assert(kept[i].address == hubs[k].address);
                } else {
                    assert(kept[kept.len() - 1].address == hubs[k].address);
                }
            }
        }
    }
}

/// Dropping hubs with a known address keeps the names in order.
pub proof fn lemma_first_per_address_keeps_order(hubs: Seq<HubView>)
    requires
        in_name_order(hubs),
    ensures
        in_name_order(first_per_address(hubs)),
    decreases hubs.len(),
{
    if hubs.len() > 0 {
        let shorter = hubs.drop_last();
        let before = first_per_address(shorter);
        assert forall|i: int, j: int| 0 <= i < j < shorter.len() implies !name_before(
            shorter[j].name,
            shorter[i].name,
        ) by {
            assert(shorter[i] == hubs[i] && shorter[j] == hubs[j]);
        }
        lemma_first_per_address_keeps_order(shorter);
        lemma_first_per_address(shorter);
        if !holds_address(shorter, hubs.last().address) {
            let kept = first_per_address(hubs);
            assert forall|i: int, j: int| 0 <= i < j < kept.len() implies !name_before(
                kept[j].name,
                kept[i].name,
            ) by {
                if j == before.len() {
                    let k = choose|k: int|
                        0 <= k < shorter.len() && shorter[k] == before[i] && !holds_address(
                            shorter.take(k),
                            shorter[k].address,
                        );
                    assert(shorter[k] == hubs[k]);
                }
            }
        }
    }
}

/// What a scan yields from the hubs it resolved, in the order they arrived:
/// the hubs sorted by name, the first one kept of each address.
pub open spec fn scan_result(arrived: Seq<HubView>) -> Seq<HubView> {
    first_per_address(sorted_by_name(arrived))
}

/// The result of a scan is in name order, holds no address twice, holds
/// only hubs that arrived, and holds the address of every hub that arrived.
pub proof fn lemma_scan_result(arrived: Seq<HubView>)
    ensures
        in_name_order(scan_result(arrived)),
        addresses_distinct(scan_result(arrived)),
        scan_result(arrived).len() <= arrived.len(),
        forall|i: int|
            0 <= i < scan_result(arrived).len() ==> arrived.contains(
                #[trigger] scan_result(arrived)[i],
            ),
        forall|k: int|
            0 <= k < arrived.len() ==> holds_address(
                scan_result(arrived),
                #[trigger] arrived[k].address,
            ),
{
    broadcast use vstd::seq_lib::group_to_multiset_ensures;

    let sorted = sorted_by_name(arrived);
    let kept = scan_result(arrived);
    lemma_sorted_in_order(arrived);
    lemma_sorted_is_permutation(arrived);
    lemma_first_per_address(sorted);
    lemma_first_per_address_keeps_order(sorted);
    assert forall|i: int| 0 <= i < kept.len() implies arrived.contains(#[trigger] kept[i]) by {
        let k = choose|k: int| 0 <= k < sorted.len() && sorted[k] == kept[i];
        assert(sorted.contains(kept[i]));
        assert(sorted.to_multiset().count(kept[i]) > 0);
    }
    assert forall|k: int| 0 <= k < arrived.len() implies holds_address(
        kept,
        #[trigger] arrived[k].address,
    ) by {
        assert(arrived.contains(arrived[k]));
        assert(arrived.to_multiset().count(arrived[k]) > 0);
        assert(sorted.contains(arrived[k]));
        let m = choose|m: int| 0 <= m < sorted.len() && sorted[m] == arrived[k];
        assert(holds_address(kept, sorted[m].address));
    }
}

/// The hub that an event brings; none unless it resolves a service with an
/// IPv4 address.
pub open spec fn event_hub(event: ScanEvent) -> Option<HubView> {
    match event {
        ScanEvent::ServiceResolved(service) => service.hub(),
        _ => None,
    }
}

/// The hubs that `events` bring, in the order of the events.
pub open spec fn resolved_hubs(events: Seq<ScanEvent>) -> Seq<HubView>
    decreases events.len(),
{
    if events.len() == 0 {
        Seq::empty()
    } else {
        match event_hub(events.last()) {
            Some(hub) => resolved_hubs(events.drop_last()).push(hub),
            None => resolved_hubs(events.drop_last()),
        }
    }
}

/// A scan in progress: the hubs resolved so far.
pub struct HubScan {
    found: Vec<DiscoveredHub>,
    arrivals: Ghost<Seq<HubView>>,
}

impl HubScan {
    /// The hubs are kept sorted by name as they arrive.
    pub closed spec fn well_formed(&self) -> bool {
        views(self.found@) == sorted_by_name(self.arrivals@)
    }

    /// The hubs resolved so far, in the order they arrived.
    pub closed spec fn arrived(&self) -> Seq<HubView> {
        self.arrivals@
    }

    /// A scan that has resolved nothing yet.
    pub fn new() -> (scan: Self)
        ensures
            scan.well_formed(),
            scan.arrived() == Seq::<HubView>::empty(),
    {
        let scan = HubScan { found: Vec::new(), arrivals: Ghost(Seq::empty()) };
        assert(views(scan.found@) == Seq::<HubView>::empty());
        scan
    }

    /// Takes note of one event: a resolved service with an IPv4 address
    /// adds its hub, any other event changes nothing.
    pub fn record(&mut self, event: &ScanEvent)
        requires
            old(self).well_formed(),
        ensures
            final(self).well_formed(),
            final(self).arrived() == match event_hub(*event) {
                Some(hub) => old(self).arrived().push(hub),
                None => old(self).arrived(),
            },
    {
        if let ScanEvent::ServiceResolved(service) = event {
            if let Some(hub) = service.to_hub() {
                let ghost sorted = views(self.found@);
                let mut j: usize = self.found.len();
                while j > 0 && sorts_before(hub.name.as_str(), self.found[j - 1].name.as_str())
                    invariant
                        j <= self.found.len(),
                        sorted == views(self.found@),
                        forall|k: int|
                            j <= k < sorted.len() ==> name_before(
                                hub.name@,
                                #[trigger] sorted[k].name,
                            ),
                    decreases j,
                {
                    j -= 1;
                }
                proof {
                    lemma_insert_position_unique(sorted, hub.name@, j as int);
                    let longer = self.arrivals@.push(hub@);
                    assert(longer.drop_last() =~= self.arrivals@);
                    assert(views(self.found@.insert(j as int, hub)) == sorted.insert(
                        j as int,
                        hub@,
                    ));
                }
                self.arrivals = Ghost(self.arrivals@.push(hub@));
                self.found.insert(j, hub);
            }
        }
    }

    /// Ends the scan and gives its result.
    pub fn finish(self) -> (hubs: Vec<DiscoveredHub>)
        requires
            self.well_formed(),
        ensures
            views(hubs@) == scan_result(self.arrived()),
            in_name_order(views(hubs@)),
            addresses_distinct(views(hubs@)),
    {
        proof {
            lemma_scan_result(self.arrivals@);
        }
        first_of_each_address(self.found)
    }
}

/// Whether a hub before position `last` has the address of the hub at `last`.
fn address_seen_before(hubs: &Vec<DiscoveredHub>, last: usize) -> (seen: bool)
    requires
        last < hubs.len(),
    ensures
        seen == holds_address(views(hubs@).take(last as int), hubs[last as int].address@),
{
    let mut i: usize = 0;
    let ghost earlier = views(hubs@).take(last as int);
    while i < last
        invariant
            i <= last < hubs.len(),
            earlier == views(hubs@).take(last as int),
            forall|k: int| 0 <= k < i ==> (#[trigger] earlier[k]).address != hubs[last as int].address@,
        decreases last - i,
    {
        if hubs[i].address == hubs[last].address {
            assert(earlier[i as int].address == hubs[last as int].address@);
            return true;
        }
        i += 1;
    }
    false
}

/// Computes [`first_per_address`].
pub fn first_of_each_address(hubs: Vec<DiscoveredHub>) -> (kept: Vec<DiscoveredHub>)
    ensures
        views(kept@) == first_per_address(views(hubs@)),
{
    let ghost all = views(hubs@);
    let mut rest = hubs;
    let mut backwards: Vec<DiscoveredHub> = Vec::new();
    assert(views(backwards@).reverse() =~= Seq::<HubView>::empty());
    while rest.len() > 0
        invariant
            first_per_address(all) == first_per_address(views(rest@)) + views(
                backwards@,
            ).reverse(),
        decreases rest.len(),
    {
        let ghost shown = views(rest@);
        let ghost turned = views(backwards@).reverse();
        let seen = address_seen_before(&rest, rest.len() - 1);
        let hub = rest.pop().unwrap();
        assert(views(rest@) == shown.drop_last());
        assert(shown.take(shown.len() - 1) == shown.drop_last());
        assert(hub@ == shown.last());
        if !seen {
            backwards.push(hub);
            assert(views(backwards@).reverse() =~= seq![hub@] + turned);
            assert(first_per_address(shown.drop_last()).push(hub@) + turned =~= first_per_address(
                shown.drop_last(),
            ) + (seq![hub@] + turned));
        }
    }
    let mut kept: Vec<DiscoveredHub> = Vec::new();
    assert(views(kept@) =~= Seq::<HubView>::empty());
    assert(first_per_address(views(rest@)) =~= Seq::<HubView>::empty());
    while backwards.len() > 0
        invariant
            first_per_address(all) =~= views(kept@) + views(backwards@).reverse(),
        decreases backwards.len(),
    {
        let ghost before = views(kept@);
        let ghost turned = views(backwards@).reverse();
        let hub = backwards.pop().unwrap();
        kept.push(hub);
        assert(turned =~= seq![hub@] + views(backwards@).reverse());
        assert(views(kept@) =~= before.push(hub@));
    }
    assert(views(backwards@).reverse() =~= Seq::<HubView>::empty());
    kept
}

/// What a scan yields from the events it received while it listened.
pub fn scan_for_hubs(events: &Vec<ScanEvent>) -> (hubs: Vec<DiscoveredHub>)
    ensures
        views(hubs@) == scan_result(resolved_hubs(events@)),
        in_name_order(views(hubs@)),
        addresses_distinct(views(hubs@)),
{
    let mut scan = HubScan::new();
    let mut i: usize = 0;
    assert(events@.take(0) =~= Seq::<ScanEvent>::empty());
    while i < events.len()
        invariant
            i <= events.len(),
            scan.well_formed(),
            scan.arrived() == resolved_hubs(events@.take(i as int)),
        decreases events.len() - i,
    {
        scan.record(&events[i]);
        assert(events@.take(i + 1).drop_last() == events@.take(i as int));
        assert(events@.take(i + 1).last() == events@[i as int]);
        i += 1;
    }
    assert(events@.take(events.len() as int) == events@);
    scan.finish()
}

} // verus!
