use vstd::prelude::*;

use crate::identity::{is_supported, supported, DeviceIdentity};

verus! {

/// One entry of the host's device enumeration. `path` is `None` when the
/// device reported an address that cannot be used as text.
#[derive(Clone, Debug)]
pub struct DeviceDescriptor {
    pub vendor_id: u16,
    pub product_id: u16,
    pub path: Option<String>,
}

/// A descriptor designates a supported device: its identity is in the set and
/// its address is present.
pub open spec fn designates(identities: Seq<DeviceIdentity>, d: DeviceDescriptor) -> bool {
    &&& supported(identities, d.vendor_id, d.product_id)
    &&& d.path is Some
}

/// Addresses of all supported devices among `devices`, in enumeration order.
pub open spec fn matching_paths(
    identities: Seq<DeviceIdentity>,
    devices: Seq<DeviceDescriptor>,
) -> Seq<Seq<char>> {
    devices.filter(designated_by(identities)).map_values(address_of())
}

pub open spec fn designated_by(identities: Seq<DeviceIdentity>) -> spec_fn(DeviceDescriptor) -> bool {
    |d: DeviceDescriptor| designates(identities, d)
}

/// The address a designated device is reached by.
pub open spec fn address_of() -> spec_fn(DeviceDescriptor) -> Seq<char> {
    |d: DeviceDescriptor| d.path->Some_0@
}

/// What the locator yields: the known address alone when there is one,
/// otherwise every match of the enumeration.
pub open spec fn located(
    known: Option<Seq<char>>,
    identities: Seq<DeviceIdentity>,
    devices: Seq<DeviceDescriptor>,
) -> Seq<Seq<char>> {
    match known {
        Some(a) => seq![a],
        None => matching_paths(identities, devices),
    }
}

pub open spec fn texts(v: Seq<String>) -> Seq<Seq<char>> {
    v.map_values(|s: String| s@)
}

pub open spec fn opt_text(o: Option<String>) -> Option<Seq<char>> {
    match o {
        Some(s) => Some(s@),
        None => None,
    }
}

/// Device locator over an enumeration already taken. A known address is
/// returned as the only result and `devices` is not looked at; otherwise all
/// designated devices are returned in the order of `devices`. No match gives
/// an empty result.
pub fn locate_in(
    known: &Option<String>,
    identities: &Vec<DeviceIdentity>,
    devices: &Vec<DeviceDescriptor>,
) -> (r: Vec<String>)
    ensures
        texts(r@) == located(opt_text(*known), identities@, devices@),
{
    match known {
        Some(a) => {
            let r = vec![a.clone()];
            assert(texts(r@) =~= seq![a@]);
            r
        },
        None => {
            let mut r: Vec<String> = Vec::new();
            let mut i: usize = 0;
            while i < devices.len()
                invariant
                    i <= devices@.len(),
                    texts(r@) == matching_paths(identities@, devices@.take(i as int)),
                decreases devices@.len() - i,
            {
                let d = &devices[i];
                let ghost pred = designated_by(identities@);
                let ghost before = devices@.take(i as int).filter(pred);
                let ghost next = devices@.take(i + 1);
                proof {
                    reveal(Seq::filter);
                    assert(next.drop_last() =~= devices@.take(i as int));
                    assert(next.last() == *d);
                    assert(pred(*d) ==> next.filter(pred) == before.push(*d));
                    assert(!pred(*d) ==> next.filter(pred) == before);
                }
                if is_supported(identities, d.vendor_id, d.product_id) {
                    match &d.path {
                        Some(p) => {
                            r.push(p.clone());
                            assert(texts(r@) =~= texts(r@.drop_last()).push(p@));
                            assert(before.push(*d).map_values(address_of()) =~= before.map_values(
                                address_of(),
                            ).push(p@));
                        },
                        None => {},
                    }
                }
                i = i + 1;
            }
            assert(devices@.take(devices@.len() as int) =~= devices@);
            r
        },
    }
}

/// The disambiguation heuristic for a peripheral that shows several logical
/// devices under one identity: on the platform where this was observed, the
/// control endpoint is the last match. It is a heuristic, kept explicit here.
pub fn select_target(matches: &Vec<String>) -> (r: Option<String>)
    ensures
        matches@.len() == 0 ==> r is None,
        matches@.len() > 0 ==> r == Some(matches@.last()),
{
    if matches.len() == 0 {
        None
    } else {
        Some(matches[matches.len() - 1].clone())
    }
}

} // verus!

verus! {

proof fn lemma_none_designated(identities: Seq<DeviceIdentity>, devices: Seq<DeviceDescriptor>)
    requires
        forall|i: int| 0 <= i < devices.len() ==> !designates(identities, #[trigger] devices[i]),
    ensures
        devices.filter(designated_by(identities)).len() == 0,
    decreases devices.len(),
{
    reveal(Seq::filter);
    if devices.len() > 0 {
        let rest = devices.drop_last();
        assert forall|i: int| 0 <= i < rest.len() implies !designates(identities, #[trigger] rest[i]) by {
            assert(rest[i] == devices[i]);
        }
        lemma_none_designated(identities, rest);
        assert(!designates(identities, devices[devices.len() - 1]));
    }
}

proof fn lemma_one_designated(identities: Seq<DeviceIdentity>, devices: Seq<DeviceDescriptor>, k: int)
    requires
        0 <= k < devices.len(),
        designates(identities, devices[k]),
        forall|i: int| 0 <= i < devices.len() && i != k ==> !designates(identities, #[trigger] devices[i]),
    ensures
        devices.filter(designated_by(identities)) == seq![devices[k]],
    decreases devices.len(),
{
    reveal(Seq::filter);
    let rest = devices.drop_last();
    if k == devices.len() - 1 {
        assert forall|i: int| 0 <= i < rest.len() implies !designates(identities, #[trigger] rest[i]) by {
            assert(rest[i] == devices[i]);
        }
        lemma_none_designated(identities, rest);
        assert(rest.filter(designated_by(identities)) =~= Seq::<DeviceDescriptor>::empty());
        assert(devices.filter(designated_by(identities)) =~= seq![devices[k]]);
    } else {
        assert forall|i: int| 0 <= i < rest.len() && i != k implies !designates(
            identities,
            #[trigger] rest[i],
        ) by {
            assert(rest[i] == devices[i]);
        }
        assert(rest[k] == devices[k]);
        lemma_one_designated(identities, rest, k);
        assert(!designates(identities, devices[devices.len() - 1]));
    }
}

/// A known address is the locator's one result, whatever an enumeration
/// would have listed and whatever the identity set.
pub proof fn lemma_locate_known(
    address: Seq<char>,
    identities: Seq<DeviceIdentity>,
    devices: Seq<DeviceDescriptor>,
)
    ensures
        located(Some(address), identities, devices) == seq![address],
{
}

/// Locating without a known address over a list with no designated device
/// yields nothing; over a list with exactly one, at index `k`, it yields
/// that device's address alone.
pub proof fn lemma_locate_none_or_one(
    identities: Seq<DeviceIdentity>,
    devices: Seq<DeviceDescriptor>,
    k: int,
)
    ensures
        (forall|i: int| 0 <= i < devices.len() ==> !designates(identities, #[trigger] devices[i]))
            ==> located(None, identities, devices) == Seq::<Seq<char>>::empty(),
        (0 <= k < devices.len() && designates(identities, devices[k]) && forall|i: int|
            0 <= i < devices.len() && i != k ==> !designates(identities, #[trigger] devices[i]))
            ==> located(None, identities, devices) == seq![devices[k].path->Some_0@],
{
    if forall|i: int| 0 <= i < devices.len() ==> !designates(identities, #[trigger] devices[i]) {
        lemma_none_designated(identities, devices);
        assert(located(None, identities, devices) =~= Seq::<Seq<char>>::empty());
    }
    if 0 <= k < devices.len() && designates(identities, devices[k]) && forall|i: int|
        0 <= i < devices.len() && i != k ==> !designates(identities, #[trigger] devices[i]) {
        lemma_one_designated(identities, devices, k);
        assert(located(None, identities, devices) =~= seq![devices[k].path->Some_0@]);
    }
}

/// Locating without a known address keeps list order: the matches of a
/// list made of two parts are the matches of the first part followed by
/// those of the second.
pub proof fn lemma_locate_keeps_order(
    identities: Seq<DeviceIdentity>,
    front: Seq<DeviceDescriptor>,
    back: Seq<DeviceDescriptor>,
)
    ensures
        located(None, identities, front + back) == located(None, identities, front) + located(
            None,
            identities,
            back,
        ),
{
    Seq::filter_distributes_over_add(front, back, designated_by(identities));
    let a = front.filter(designated_by(identities));
    let b = back.filter(designated_by(identities));
    assert((a + b).map_values(address_of()) =~= a.map_values(address_of()) + b.map_values(address_of()));
}

} // verus!

verus! {

pub open spec fn identity_in(identities: Seq<DeviceIdentity>) -> spec_fn(DeviceDescriptor) -> bool {
    |d: DeviceDescriptor| supported(identities, d.vendor_id, d.product_id)
}

proof fn lemma_filter_by_identity(identities: Seq<DeviceIdentity>, devices: Seq<DeviceDescriptor>)
    requires
        forall|i: int| 0 <= i < devices.len() ==> (#[trigger] devices[i]).path is Some,
    ensures
        devices.filter(designated_by(identities)) == devices.filter(identity_in(identities)),
    decreases devices.len(),
{
    reveal(Seq::filter);
    if devices.len() > 0 {
        let rest = devices.drop_last();
        assert forall|i: int| 0 <= i < rest.len() implies (#[trigger] rest[i]).path is Some by {
            assert(rest[i] == devices[i]);
        }
        lemma_filter_by_identity(identities, rest);
        assert(devices.last().path is Some);
    }
}

/// Where every enumerated device reports a usable address, locating without
/// a known address yields the address of every device whose identity is in
/// the set, only those, in list order and with repetitions kept.
pub proof fn lemma_locate_every_match(identities: Seq<DeviceIdentity>, devices: Seq<DeviceDescriptor>)
    requires
        forall|i: int| 0 <= i < devices.len() ==> (#[trigger] devices[i]).path is Some,
    ensures
        located(None, identities, devices) == devices.filter(identity_in(identities)).map_values(
            address_of(),
        ),
{
    lemma_filter_by_identity(identities, devices);
}

} // verus!
