use vstd::prelude::*;

verus! {

/// The vendor/product pair that a USB device reports about itself.
#[derive(Clone, Copy, Debug, PartialEq, Eq, Structural)]
pub struct DeviceIdentity {
    pub vendor_id: u16,
    pub product_id: u16,
}

/// Whether `(vendor_id, product_id)` is one of the supported identities.
pub open spec fn supported(identities: Seq<DeviceIdentity>, vendor_id: u16, product_id: u16) -> bool {
    exists|i: int|
        0 <= i < identities.len() && #[trigger] identities[i] == (DeviceIdentity { vendor_id, product_id })
}

/// Identity matcher: true iff the reported pair equals a member of `identities`.
pub fn is_supported(identities: &Vec<DeviceIdentity>, vendor_id: u16, product_id: u16) -> (r: bool)
    ensures
        r == supported(identities@, vendor_id, product_id),
{
    let mut i: usize = 0;
    while i < identities.len()
        invariant
            i <= identities@.len(),
            forall|j: int|
                0 <= j < i ==> #[trigger] identities@[j] != (DeviceIdentity { vendor_id, product_id }),
        decreases identities@.len() - i,
    {
        let id = identities[i];
        if id.vendor_id == vendor_id && id.product_id == product_id {
            return true;
        }
        i = i + 1;
    }
    false
}

} // verus!
