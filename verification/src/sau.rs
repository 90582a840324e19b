//! The hardware-facing driver: the register model, the status cache and
//! the commit path.

use vstd::prelude::*;

use crate::interface::SAU;
use crate::region::{
    valid_base, valid_limit, valid_region, unused_region, SauError, SauRegion, SauRegionAttribute,
};

verus! {

/// Model of the SAU memory-mapped register block.
///
/// The physical unit banks one base/limit register pair per implemented
/// region behind the region-number selector `sau_rnr`: a write to `sau_rbar`
/// or `sau_rlar` lands in the bank entry the selector names. The model holds
/// the banks directly, one entry per implemented region, and keeps the
/// selector as the last value written to it.
pub struct SauRegisters {
    /// Control register: bit 0 enables the unit; bit 1 picks the default
    /// security state of memory while the unit is disabled.
    pub sau_ctrl: u32,
    /// Type register, read-only in hardware: bits 0 to 7 give the number of
    /// implemented regions.
    pub sau_type: u32,
    /// Region-number selector.
    pub sau_rnr: u32,
    /// Banked base-address registers, one per implemented region.
    pub sau_rbar: Vec<u32>,
    /// Banked limit-address registers, one per implemented region; bit 1 is
    /// the non-secure-callable flag and bit 0 the region-enable flag.
    pub sau_rlar: Vec<u32>,
    /// Fault-status register: sticky violation flags, read-only here.
    pub sau_sfsr: u32,
    /// Fault-address register, valid only while the matching status bit is set.
    pub sau_sfar: u32,
}

impl SauRegisters {
    /// The number of regions the hardware implements.
    pub open spec fn spec_capacity(&self) -> nat {
        (self.sau_type & 0xFF) as nat
    }

    /// The banks hold exactly one entry per implemented region.
    pub open spec fn wf(&self) -> bool {
        &&& self.sau_rbar@.len() == self.spec_capacity()
        &&& self.sau_rlar@.len() == self.spec_capacity()
    }

    /// A register block in its power-on state, for a unit implementing
    /// `region_count` regions: every register and every bank entry zero.
    pub fn new(region_count: u8) -> (r: SauRegisters)
        ensures
            r.wf(),
            r.spec_capacity() == region_count as nat,
            r.sau_ctrl == 0,
            r.sau_rnr == 0,
            r.sau_sfsr == 0,
            r.sau_sfar == 0,
            forall|i: int| 0 <= i < region_count as nat ==> #[trigger] r.sau_rbar@[i] == 0,
            forall|i: int| 0 <= i < region_count as nat ==> #[trigger] r.sau_rlar@[i] == 0,
    {
        let sau_type: u32 = region_count as u32;
        proof {
            let t = sau_type;
            assert(t < 256 ==> t & 0xFF == t) by (bit_vector);
        }
        let mut sau_rbar: Vec<u32> = Vec::new();
        let mut sau_rlar: Vec<u32> = Vec::new();
        let mut i: usize = 0;
        while i < region_count as usize
            invariant
                i <= region_count as usize,
                sau_rbar@.len() == i,
                sau_rlar@.len() == i,
                forall|j: int| 0 <= j < i ==> #[trigger] sau_rbar@[j] == 0,
                forall|j: int| 0 <= j < i ==> #[trigger] sau_rlar@[j] == 0,
            decreases region_count as int - i,
        {
            sau_rbar.push(0);
            sau_rlar.push(0);
            i += 1;
        }
        SauRegisters {
            sau_ctrl: 0,
            sau_type,
            sau_rnr: 0,
            sau_rbar,
            sau_rlar,
            sau_sfsr: 0,
            sau_sfar: 0,
        }
    }
}

/// The bank image of a region's base address: the upper 27 bits, placed at
/// bit 5, the low 5 bits discarded.
pub open spec fn encode_rbar(region: SauRegion) -> u32 {
    (region.base_address >> 5) << 5
}

/// The two packed control bits of the limit register: bit 0 enables the
/// region in hardware, which marks it Secure; bit 1 is the
/// non-secure-callable flag. Non-Secure and Non-Secure-Callable regions are
/// both hardware-disabled and differ only in bit 1.
pub open spec fn attribute_bits(attribute: SauRegionAttribute) -> u32 {
    match attribute {
        SauRegionAttribute::Secure => 1,
        SauRegionAttribute::NonSecureCallable => 2,
        SauRegionAttribute::NonSecure => 0,
    }
}

/// The bank image of a region's limit address and attribute: the upper 27
/// bits of the limit, with the two control bits packed below.
pub open spec fn encode_rlar(region: SauRegion) -> u32 {
    ((region.limit_address >> 5) << 5) | attribute_bits(region.attribute)
}

/// The attribute a limit-register image carries, decoded from the same two
/// bits the encoder packs.
pub open spec fn decode_attribute(rlar: u32) -> SauRegionAttribute {
    if rlar & 1 == 1 {
        SauRegionAttribute::Secure
    } else if (rlar >> 1) & 1 == 1 {
        SauRegionAttribute::NonSecureCallable
    } else {
        SauRegionAttribute::NonSecure
    }
}

/// The region a pair of bank entries describes: the base zero-extended, the
/// limit extended with ones, the attribute decoded from the control bits.
pub open spec fn decode_region(rbar: u32, rlar: u32) -> SauRegion {
    SauRegion {
        base_address: (rbar >> 5) << 5,
        limit_address: ((rlar >> 5) << 5) | 0x1F,
        attribute: decode_attribute(rlar),
    }
}

/// Writing a valid region to the bank and decoding the bank entries gives
/// the region back: the encode/decode table round-trips exactly.
pub proof fn lemma_encode_decode_roundtrip(region: SauRegion)
    requires
        valid_region(region),
    ensures
        decode_region(encode_rbar(region), encode_rlar(region)) == region,
{
    let b = region.base_address;
    let l = region.limit_address;
    let bits = attribute_bits(region.attribute);
    assert(b & 0x1F == 0 ==> ((((b >> 5) << 5) >> 5) << 5) == b) by (bit_vector);
    assert(l & 0x1F == 0x1F && bits < 4 ==> ((((((l >> 5) << 5) | bits) >> 5) << 5) | 0x1F)
        == l) by (bit_vector);
    assert((((l >> 5) << 5) | bits) & 1 == bits & 1) by (bit_vector);
    assert(((((l >> 5) << 5) | bits) >> 1) & 1 == (bits >> 1) & 1) by (bit_vector);
    assert(bits < 4 && bits & 1 == 1 ==> bits == 1 || bits == 3) by (bit_vector);
    assert(bits < 4 && bits & 1 == 0 && (bits >> 1) & 1 == 1 ==> bits == 2) by (bit_vector);
    assert(1u32 & 1 == 1 && (1u32 >> 1) & 1 == 0) by (bit_vector);
    assert(2u32 & 1 == 0 && (2u32 >> 1) & 1 == 1) by (bit_vector);
    assert(0u32 & 1 == 0 && (0u32 >> 1) & 1 == 0) by (bit_vector);
}

/// State related to the physical SAU.
///
/// The handle owns the register block outright, so at most one handle to a
/// given unit can exist: whoever reconfigures regions must hold this one.
/// `NUM_REGIONS` is the number of logical slots the software status tracks;
/// the hardware's own region count is read from the type register and may
/// differ.
pub struct Sau<const NUM_REGIONS: usize> {
    /// The unit's register block.
    pub registers: SauRegisters,
}

impl<const NUM_REGIONS: usize> Sau<NUM_REGIONS> {
    /// The register banks match the implemented region count.
    pub open spec fn wf(&self) -> bool {
        self.registers.wf()
    }

    /// The number of regions the hardware implements.
    pub open spec fn spec_capacity(&self) -> nat {
        self.registers.spec_capacity()
    }

    /// Takes ownership of a unit's register block.
    pub fn new(registers: SauRegisters) -> (r: Sau<NUM_REGIONS>)
        ensures
            r.registers == registers,
    {
        Sau { registers }
    }

    /// Reads the number of implemented regions from the type register.
    pub fn region_numbers(&self) -> (r: u8)
        ensures
            r as nat == self.spec_capacity(),
    {
        let t = self.registers.sau_type;
        proof {
            assert(t & 0xFF < 256) by (bit_vector);
        }
        (t & 0xFF) as u8
    }

    /// Turns the unit on: from now on the configured regions are enforced.
    pub fn enable(&mut self)
        ensures
            final(self).registers == (SauRegisters { sau_ctrl: 1, ..old(self).registers }),
    {
        self.registers.sau_ctrl = 1;
    }

    /// Writes one region into the hardware bank.
    ///
    /// Checks, in order: the region number against the implemented region
    /// count, then the alignment of the two addresses. On success the
    /// selector is set to the region number and the bank entry receives the
    /// encoded base and limit images; on any error nothing changes.
    pub fn set_region_intern(&mut self, region_number: u8, region: SauRegion) -> (r: Result<
        (),
        SauError,
    >)
        requires
            old(self).wf(),
        ensures
            final(self).wf(),
            ({
                if region_number as nat >= old(self).spec_capacity() {
                    r == Err::<(), SauError>(SauError::RegionNumberTooBig) && *final(self) == *old(self)
                } else if !valid_base(region.base_address) {
                    r == Err::<(), SauError>(SauError::WrongBaseAddress) && *final(self) == *old(self)
                } else if !valid_limit(region.limit_address) {
                    r == Err::<(), SauError>(SauError::WrongLimitAddress) && *final(self) == *old(self)
                } else {
                    &&& r == Ok::<(), SauError>(())
                    &&& final(self).registers.sau_rnr == region_number as u32
                    &&& final(self).registers.sau_rbar@ == old(self).registers.sau_rbar@.update(
                        region_number as int,
                        encode_rbar(region),
                    )
                    &&& final(self).registers.sau_rlar@ == old(self).registers.sau_rlar@.update(
                        region_number as int,
                        encode_rlar(region),
                    )
                    &&& final(self).registers.sau_ctrl == old(self).registers.sau_ctrl
                    &&& final(self).registers.sau_type == old(self).registers.sau_type
                    &&& final(self).registers.sau_sfsr == old(self).registers.sau_sfsr
                    &&& final(self).registers.sau_sfar == old(self).registers.sau_sfar
                }
            }),
    {
        if region_number >= self.region_numbers() {
            Err(SauError::RegionNumberTooBig)
        } else if region.base_address & 0x1F != 0 {
            Err(SauError::WrongBaseAddress)
        } else if region.limit_address & 0x1F != 0x1F {
            Err(SauError::WrongLimitAddress)
        } else {
            self.registers.sau_rnr = region_number as u32;
            let index = region_number as usize;
            let rbar_image: u32 = (region.base_address >> 5) << 5;
            self.registers.sau_rbar.set(index, rbar_image);
            let attribute_image: u32 = match region.attribute {
                SauRegionAttribute::Secure => 1,
                SauRegionAttribute::NonSecureCallable => 2,
                SauRegionAttribute::NonSecure => 0,
            };
            let rlar_image: u32 = ((region.limit_address >> 5) << 5) | attribute_image;
            self.registers.sau_rlar.set(index, rlar_image);
            Ok(())
        }
    }

    /// Reads one region back from the hardware bank and decodes it.
    ///
    /// Fails only when the region number is not below the implemented
    /// region count; otherwise it sets the selector and decodes whatever
    /// the bank holds, written or not.
    pub fn get_region(&mut self, region_number: u8) -> (r: Result<SauRegion, SauError>)
        requires
            old(self).wf(),
        ensures
            final(self).wf(),
            final(self).registers.sau_ctrl == old(self).registers.sau_ctrl,
            final(self).registers.sau_type == old(self).registers.sau_type,
            final(self).registers.sau_rbar@ == old(self).registers.sau_rbar@,
            final(self).registers.sau_rlar@ == old(self).registers.sau_rlar@,
            final(self).registers.sau_sfsr == old(self).registers.sau_sfsr,
            final(self).registers.sau_sfar == old(self).registers.sau_sfar,
            ({
                if region_number as nat >= old(self).spec_capacity() {
                    r == Err::<SauRegion, SauError>(SauError::RegionNumberTooBig) && *final(self) == *old(self)
                } else {
                    &&& r == Ok::<SauRegion, SauError>(decode_region(
                        old(self).registers.sau_rbar@[region_number as int],
                        old(self).registers.sau_rlar@[region_number as int],
                    ))
                    &&& final(self).registers.sau_rnr == region_number as u32
                }
            }),
    {
        if region_number >= self.region_numbers() {
            return Err(SauError::RegionNumberTooBig);
        }
        self.registers.sau_rnr = region_number as u32;
        let index = region_number as usize;
        let rbar = self.registers.sau_rbar[index];
        let rlar = self.registers.sau_rlar[index];
        proof {
            assert(rlar & 1 == 0 || rlar & 1 == 1) by (bit_vector);
            assert((rlar >> 1) & 1 == 0 || (rlar >> 1) & 1 == 1) by (bit_vector);
        }
        let callable = (rlar >> 1) & 1 == 1;
        let disabled = rlar & 1 == 0;
        let attribute = match (callable, disabled) {
            (_, false) => SauRegionAttribute::Secure,
            (true, true) => SauRegionAttribute::NonSecureCallable,
            (false, true) => SauRegionAttribute::NonSecure,
        };
        Ok(
            SauRegion {
                base_address: (rbar >> 5) << 5,
                limit_address: ((rlar >> 5) << 5) | 0x1F,
                attribute,
            },
        )
    }
}

/// The software abstraction of the operational status of the SAU.
///
/// It caches the desired configuration of `NUM_REGIONS` logical slots: a
/// region description per slot, and a marker telling whether the slot
/// carries an intentional configuration. A status is built and reworked
/// freely, with no hardware access, and applied as a whole by the commit
/// path.
pub struct SauStatus<const NUM_REGIONS: usize> {
    /// The cached region description of each slot.
    pub regions: Vec<SauRegion>,
    /// Which slots carry an intentional configuration.
    pub used: Vec<bool>,
}

impl<const NUM_REGIONS: usize> SauStatus<NUM_REGIONS> {
    /// Both tables hold exactly one entry per logical slot.
    pub open spec fn wf(&self) -> bool {
        &&& self.regions@.len() == NUM_REGIONS
        &&& self.used@.len() == NUM_REGIONS
    }

    /// A status with every slot unused and holding the default region.
    pub fn new() -> (r: SauStatus<NUM_REGIONS>)
        ensures
            r.wf(),
            forall|i: int| 0 <= i < NUM_REGIONS ==> !(#[trigger] r.used@[i]),
            forall|i: int| 0 <= i < NUM_REGIONS ==> #[trigger] r.regions@[i] == unused_region(),
    {
        let mut regions: Vec<SauRegion> = Vec::new();
        let mut used: Vec<bool> = Vec::new();
        let mut i: usize = 0;
        while i < NUM_REGIONS
            invariant
                i <= NUM_REGIONS,
                regions@.len() == i,
                used@.len() == i,
                forall|j: int| 0 <= j < i ==> !(#[trigger] used@[j]),
                forall|j: int| 0 <= j < i ==> #[trigger] regions@[j] == unused_region(),
            decreases NUM_REGIONS - i,
        {
            regions.push(
                SauRegion {
                    base_address: 0,
                    limit_address: 0,
                    attribute: SauRegionAttribute::NonSecure,
                },
            );
            used.push(false);
            i += 1;
        }
        SauStatus { regions, used }
    }
}

/// Whether committing a status touches hardware region `j`: the slot exists,
/// carries a configuration, lies below the implemented region count, and its
/// region passes validation. Every other bank entry is left as it was.
pub open spec fn slot_written(
    regions: Seq<SauRegion>,
    used: Seq<bool>,
    capacity: nat,
    j: int,
) -> bool {
    &&& 0 <= j < used.len()
    &&& used[j]
    &&& j < capacity
    &&& valid_region(regions[j])
}

/// The value the region-number selector holds after committing the first
/// `n` slots of a status: the index of the last slot whose write went
/// through, or the initial value when none did.
pub open spec fn commit_rnr(
    initial: u32,
    regions: Seq<SauRegion>,
    used: Seq<bool>,
    capacity: nat,
    n: int,
) -> u32
    decreases n,
{
    if n <= 0 {
        initial
    } else if slot_written(regions, used, capacity, n - 1) {
        (n - 1) as u32
    } else {
        commit_rnr(initial, regions, used, capacity, n - 1)
    }
}

impl<const NUM_REGIONS: usize> Sau<NUM_REGIONS> {
    /// Commits a status to the hardware.
    ///
    /// Every used slot is written through the hardware write path; a write
    /// that the hardware path rejects, for its index or its alignment, is
    /// skipped and not surfaced. The returned status repopulates exactly
    /// the used slots of the input, with the values as given, and leaves
    /// the rest at the default: what the commit attempted to apply.
    pub fn commit(&mut self, status: &SauStatus<NUM_REGIONS>) -> (r: SauStatus<NUM_REGIONS>)
        requires
            old(self).wf(),
            status.wf(),
        ensures
            final(self).wf(),
            final(self).registers.sau_ctrl == old(self).registers.sau_ctrl,
            final(self).registers.sau_type == old(self).registers.sau_type,
            final(self).registers.sau_sfsr == old(self).registers.sau_sfsr,
            final(self).registers.sau_sfar == old(self).registers.sau_sfar,
            final(self).registers.sau_rnr == commit_rnr(
                old(self).registers.sau_rnr,
                status.regions@,
                status.used@,
                old(self).spec_capacity(),
                NUM_REGIONS as int,
            ),
            forall|j: int|
                0 <= j < old(self).spec_capacity() ==> #[trigger] final(self).registers.sau_rbar@[j]
                    == (if slot_written(status.regions@, status.used@, old(self).spec_capacity(), j) {
                    encode_rbar(status.regions@[j])
                } else {
                    old(self).registers.sau_rbar@[j]
                }),
            forall|j: int|
                0 <= j < old(self).spec_capacity() ==> #[trigger] final(self).registers.sau_rlar@[j]
                    == (if slot_written(status.regions@, status.used@, old(self).spec_capacity(), j) {
                    encode_rlar(status.regions@[j])
                } else {
                    old(self).registers.sau_rlar@[j]
                }),
            r.wf(),
            r.used@ == status.used@,
            forall|j: int|
                0 <= j < NUM_REGIONS ==> #[trigger] r.regions@[j] == (if status.used@[j] {
                    status.regions@[j]
                } else {
                    unused_region()
                }),
    {
        let ghost capacity = old(self).spec_capacity();
        let ghost initial_rnr = old(self).registers.sau_rnr;
        let mut retstatus = SauStatus::<NUM_REGIONS>::new();
        let mut i: usize = 0;
        while i < NUM_REGIONS
            invariant
                old(self).wf(),
                status.wf(),
                self.wf(),
                i <= NUM_REGIONS,
                capacity == old(self).spec_capacity(),
                initial_rnr == old(self).registers.sau_rnr,
                self.registers.sau_ctrl == old(self).registers.sau_ctrl,
                self.registers.sau_type == old(self).registers.sau_type,
                self.registers.sau_sfsr == old(self).registers.sau_sfsr,
                self.registers.sau_sfar == old(self).registers.sau_sfar,
                self.registers.sau_rnr == commit_rnr(
                    initial_rnr,
                    status.regions@,
                    status.used@,
                    capacity,
                    i as int,
                ),
                forall|j: int|
                    0 <= j < capacity ==> #[trigger] self.registers.sau_rbar@[j] == (if j < i
                        && slot_written(status.regions@, status.used@, capacity, j) {
                        encode_rbar(status.regions@[j])
                    } else {
                        old(self).registers.sau_rbar@[j]
                    }),
                forall|j: int|
                    0 <= j < capacity ==> #[trigger] self.registers.sau_rlar@[j] == (if j < i
                        && slot_written(status.regions@, status.used@, capacity, j) {
                        encode_rlar(status.regions@[j])
                    } else {
                        old(self).registers.sau_rlar@[j]
                    }),
                retstatus.wf(),
                forall|j: int|
                    0 <= j < i ==> #[trigger] retstatus.used@[j] == status.used@[j],
                forall|j: int|
                    i <= j < NUM_REGIONS ==> !(#[trigger] retstatus.used@[j]),
                forall|j: int|
                    0 <= j < NUM_REGIONS ==> #[trigger] retstatus.regions@[j] == (if j < i
                        && status.used@[j] {
                        status.regions@[j]
                    } else {
                        unused_region()
                    }),
            decreases NUM_REGIONS - i,
        {
            if status.used[i] {
                if i <= 0xFF {
                    let _ = self.set_region_intern(i as u8, status.regions[i]);
                } else {
                    // The selector is an 8-bit field, so the hardware cannot
                    // implement this many regions: the write path would
                    // reject the index anyway.
                    proof {
                        let t = self.registers.sau_type;
                        assert(t & 0xFF < 256) by (bit_vector);
                    }
                }
                retstatus.regions.set(i, status.regions[i]);
                retstatus.used.set(i, true);
            }
            i += 1;
        }
        retstatus
    }
}

impl<const NUM_REGIONS: usize> SAU for Sau<NUM_REGIONS> {
    type SauStatus = SauStatus<NUM_REGIONS>;

    open spec fn slot_count(&self) -> nat {
        NUM_REGIONS as nat
    }

    open spec fn capacity(&self) -> nat {
        self.spec_capacity()
    }

    open spec fn sau_enabled(&self) -> bool {
        self.registers.sau_ctrl & 1 == 1
    }

    open spec fn hw_wf(&self) -> bool {
        self.wf()
    }

    open spec fn status_wf(&self, status: &SauStatus<NUM_REGIONS>) -> bool {
        status.wf()
    }

    open spec fn status_regions(&self, status: &SauStatus<NUM_REGIONS>) -> Seq<SauRegion> {
        status.regions@
    }

    open spec fn status_used(&self, status: &SauStatus<NUM_REGIONS>) -> Seq<bool> {
        status.used@
    }

    fn enable_sau(&mut self) {
        self.registers.sau_ctrl = 1;
        proof {
            assert(1u32 & 1 == 1) by (bit_vector);
        }
    }

    fn disable_sau(&mut self) {
        self.registers.sau_ctrl = 0;
        proof {
            assert(0u32 & 1 == 0) by (bit_vector);
        }
    }

    fn number_total_regions(&self) -> (r: usize) {
        self.region_numbers() as usize
    }

    fn new_status(&self) -> (s: SauStatus<NUM_REGIONS>) {
        SauStatus::<NUM_REGIONS>::new()
    }

    fn reset_status(&self, status: &mut SauStatus<NUM_REGIONS>) {
        let mut i: usize = 0;
        while i < NUM_REGIONS
            invariant
                status.regions@ == old(status).regions@,
                status.used@.len() == NUM_REGIONS,
                i <= NUM_REGIONS,
                forall|j: int| 0 <= j < i ==> !(#[trigger] status.used@[j]),
                forall|j: int| i <= j < NUM_REGIONS ==> status.used@[j] == old(status).used@[j],
            decreases NUM_REGIONS - i,
        {
            status.used.set(i, false);
            i += 1;
        }
    }

    fn region_is_used(&self, status: &SauStatus<NUM_REGIONS>, region_number: usize) -> (r: Option<
        bool,
    >) {
        if region_number < NUM_REGIONS {
            Some(status.used[region_number])
        } else {
            None
        }
    }

    fn set_region(
        &self,
        status: &mut SauStatus<NUM_REGIONS>,
        base_address: u32,
        limit_address: u32,
        attribute: SauRegionAttribute,
        region_number: usize,
    ) -> (r: Option<usize>) {
        if region_number < NUM_REGIONS {
            status.regions.set(
                region_number,
                SauRegion { base_address, limit_address, attribute },
            );
            status.used.set(region_number, true);
            Some(region_number)
        } else {
            None
        }
    }

    fn reset_region(&self, status: &mut SauStatus<NUM_REGIONS>, region_number: usize) -> (r:
        Option<usize>) {
        if region_number < NUM_REGIONS {
            status.used.set(region_number, false);
            status.regions.set(
                region_number,
                SauRegion {
                    base_address: 0,
                    limit_address: 0,
                    attribute: SauRegionAttribute::NonSecure,
                },
            );
            Some(region_number)
        } else {
            None
        }
    }

    fn load_status(&mut self, status: &SauStatus<NUM_REGIONS>) -> (r: SauStatus<NUM_REGIONS>)
        // Beyond the trait's contract, the concrete driver states the
        // register effect of the commit.
        ensures
            final(self).registers.sau_ctrl == old(self).registers.sau_ctrl,
            final(self).registers.sau_type == old(self).registers.sau_type,
            final(self).registers.sau_sfsr == old(self).registers.sau_sfsr,
            final(self).registers.sau_sfar == old(self).registers.sau_sfar,
            final(self).registers.sau_rnr == commit_rnr(
                old(self).registers.sau_rnr,
                status.regions@,
                status.used@,
                old(self).spec_capacity(),
                NUM_REGIONS as int,
            ),
            forall|j: int|
                0 <= j < old(self).spec_capacity() ==> #[trigger] final(self).registers.sau_rbar@[j]
                    == (if slot_written(status.regions@, status.used@, old(self).spec_capacity(), j) {
                    encode_rbar(status.regions@[j])
                } else {
                    old(self).registers.sau_rbar@[j]
                }),
            forall|j: int|
                0 <= j < old(self).spec_capacity() ==> #[trigger] final(self).registers.sau_rlar@[j]
                    == (if slot_written(status.regions@, status.used@, old(self).spec_capacity(), j) {
                    encode_rlar(status.regions@[j])
                } else {
                    old(self).registers.sau_rlar@[j]
                }),
    {
        self.commit(status)
    }
}

/// Marking a slot used is what the usage query reports: after a slot's
/// marker is set it reads back true, and after it is cleared it reads back
/// false.
pub proof fn lemma_marker_read_back(used: Seq<bool>, region_number: int)
    requires
        0 <= region_number < used.len(),
    ensures
        used.update(region_number, true)[region_number],
        !used.update(region_number, false)[region_number],
{
}

} // verus!
