//! The capability contract any concrete SAU implementation satisfies.
//!
//! Higher-level security-configuration code is written once against this
//! trait: it builds and reworks a status through the pure operations, and
//! pushes a finished status to the hardware through the one mutating
//! operation, `load_status`.

use vstd::prelude::*;

use crate::region::{unused_region, SauRegion, SauRegionAttribute};

verus! {

/// A security attribution unit: a fixed table of logical slots cached in a
/// status value, and a hardware unit the status is committed to.
///
/// The spec functions name what the contract speaks of: the logical slot
/// count the status tracks, the region count the hardware implements, and
/// the two views of a status. Only `enable_sau`, `disable_sau` and
/// `load_status` touch the hardware; the status operations are pure.
pub trait SAU: Sized {
    /// The software-side cache of a desired region configuration.
    type SauStatus;

    /// The number of logical slots a status tracks.
    spec fn slot_count(&self) -> nat;

    /// The number of regions the hardware implements.
    spec fn capacity(&self) -> nat;

    /// Whether the unit enforces its configured regions.
    spec fn sau_enabled(&self) -> bool;

    /// Well-formedness of the driver's view of the hardware.
    spec fn hw_wf(&self) -> bool;

    /// Well-formedness of a status value.
    spec fn status_wf(&self, status: &Self::SauStatus) -> bool;

    /// The region description each slot of a status caches.
    spec fn status_regions(&self, status: &Self::SauStatus) -> Seq<SauRegion>;

    /// Which slots of a status carry an intentional configuration.
    spec fn status_used(&self, status: &Self::SauStatus) -> Seq<bool>;

    /// Turns enforcement on.
    fn enable_sau(&mut self)
        requires
            old(self).hw_wf(),
        ensures
            final(self).hw_wf(),
            final(self).sau_enabled(),
            final(self).slot_count() == old(self).slot_count(),
            final(self).capacity() == old(self).capacity(),
    ;

    /// Turns enforcement off; the default security state of memory is then
    /// ruled by a separate control bit.
    fn disable_sau(&mut self)
        requires
            old(self).hw_wf(),
        ensures
            final(self).hw_wf(),
            !final(self).sau_enabled(),
            final(self).slot_count() == old(self).slot_count(),
            final(self).capacity() == old(self).capacity(),
    ;

    /// Reads the implemented region count from the hardware.
    fn number_total_regions(&self) -> (r: usize)
        requires
            self.hw_wf(),
        ensures
            r as nat == self.capacity(),
    ;

    /// A status with every slot unused and holding the default region.
    fn new_status(&self) -> (s: Self::SauStatus)
        ensures
            self.status_wf(&s),
            self.status_used(&s).len() == self.slot_count(),
            self.status_regions(&s).len() == self.slot_count(),
            forall|i: int| 0 <= i < self.slot_count() ==> !(#[trigger] self.status_used(&s)[i]),
            forall|i: int|
                0 <= i < self.slot_count() ==> #[trigger] self.status_regions(&s)[i]
                    == unused_region(),
    ;

    /// Marks every slot unused. The cached region values are left as they
    /// were: only the markers are cleared.
    fn reset_status(&self, status: &mut Self::SauStatus)
        requires
            self.status_wf(old(status)),
        ensures
            self.status_wf(final(status)),
            self.status_used(final(status)).len() == self.slot_count(),
            forall|i: int|
                0 <= i < self.slot_count() ==> !(#[trigger] self.status_used(final(status))[i]),
            self.status_regions(final(status)) == self.status_regions(old(status)),
    ;

    /// Whether a slot carries an intentional configuration; `None` when the
    /// index is not below the slot count.
    fn region_is_used(&self, status: &Self::SauStatus, region_number: usize) -> (r: Option<bool>)
        requires
            self.status_wf(status),
        ensures
            region_number < self.slot_count() ==> r == Some(
                self.status_used(status)[region_number as int],
            ),
            region_number >= self.slot_count() ==> r is None,
    ;

    /// Overwrites a slot with the given region, whether or not it was used,
    /// and marks it used; `None` when the index is not below the slot
    /// count. The addresses are not validated here: alignment is enforced
    /// by the hardware write path at commit time.
    fn set_region(
        &self,
        status: &mut Self::SauStatus,
        base_address: u32,
        limit_address: u32,
        attribute: SauRegionAttribute,
        region_number: usize,
    ) -> (r: Option<usize>)
        requires
            self.status_wf(old(status)),
        ensures
            self.status_wf(final(status)),
            region_number < self.slot_count() ==> {
                &&& r == Some(region_number)
                &&& self.status_regions(final(status)) == self.status_regions(old(status)).update(
                    region_number as int,
                    (SauRegion { base_address, limit_address, attribute }),
                )
                &&& self.status_used(final(status)) == self.status_used(old(status)).update(
                    region_number as int,
                    true,
                )
            },
            region_number >= self.slot_count() ==> {
                &&& r is None
                &&& self.status_regions(final(status)) == self.status_regions(old(status))
                &&& self.status_used(final(status)) == self.status_used(old(status))
            },
    ;

    /// Marks a slot unused and resets it to the default region; `None` when
    /// the index is not below the slot count.
    fn reset_region(&self, status: &mut Self::SauStatus, region_number: usize) -> (r: Option<
        usize,
    >)
        requires
            self.status_wf(old(status)),
        ensures
            self.status_wf(final(status)),
            region_number < self.slot_count() ==> {
                &&& r == Some(region_number)
                &&& self.status_regions(final(status)) == self.status_regions(old(status)).update(
                    region_number as int,
                    unused_region(),
                )
                &&& self.status_used(final(status)) == self.status_used(old(status)).update(
                    region_number as int,
                    false,
                )
            },
            region_number >= self.slot_count() ==> {
                &&& r is None
                &&& self.status_regions(final(status)) == self.status_regions(old(status))
                &&& self.status_used(final(status)) == self.status_used(old(status))
            },
    ;

    /// Commits a status to the hardware and hands back a fresh status
    /// holding exactly what the commit attempted to apply: the used slots
    /// with their values as given, every other slot at the default.
    fn load_status(&mut self, status: &Self::SauStatus) -> (r: Self::SauStatus)
        requires
            old(self).hw_wf(),
            old(self).status_wf(status),
            old(self).status_used(status).len() == old(self).slot_count(),
            old(self).status_regions(status).len() == old(self).slot_count(),
        ensures
            final(self).hw_wf(),
            final(self).slot_count() == old(self).slot_count(),
            final(self).capacity() == old(self).capacity(),
            final(self).sau_enabled() == old(self).sau_enabled(),
            final(self).status_wf(&r),
            final(self).status_used(&r) == old(self).status_used(status),
            final(self).status_regions(&r).len() == old(self).slot_count(),
            forall|j: int|
                0 <= j < old(self).slot_count() ==> #[trigger] final(self).status_regions(&r)[j]
                    == (if old(self).status_used(status)[j] {
                    old(self).status_regions(status)[j]
                } else {
                    unused_region()
                }),
    ;
}

} // verus!
