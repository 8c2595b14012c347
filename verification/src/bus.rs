//! The address space: which range of guest addresses belongs to which raw
//! memory region or peripheral, and where inside it an address falls.

use vstd::prelude::*;

verus! {

/// What lies behind a mapped range.
#[derive(Clone, Copy, Debug, PartialEq, Eq, Structural)]
pub enum Backing {
    /// Raw bytes: the boot ROM or main RAM.
    Memory,
    /// The register window of a peripheral.
    Device,
}

/// A range of guest addresses: `length` bytes from `base` on.
#[derive(Clone, Copy, Debug, PartialEq, Eq, Structural)]
pub struct Mapping {
    pub base: u32,
    pub length: u32,
    pub backing: Backing,
}

impl Mapping {
    /// Whether the range is not empty and ends within the 32-bit address
    /// space.
    pub open spec fn valid(self) -> bool {
        self.length > 0 && self.base + self.length <= 0x1_0000_0000
    }

    /// Whether `addr` lies in the range.
    pub open spec fn contains(self, addr: u32) -> bool {
        self.base <= addr < self.base + self.length
    }

    /// Whether the two ranges have an address in common.
    pub open spec fn overlaps(self, other: Mapping) -> bool {
        self.base < other.base + other.length && other.base < self.base + self.length
    }
}

/// Why a range could not be mapped.
#[derive(Clone, Copy, Debug, PartialEq, Eq, Structural)]
pub enum MapError {
    /// The range has no bytes.
    Empty,
    /// The range ends beyond the 32-bit address space.
    OutOfRange,
    /// The range has an address in common with one that is mapped already.
    Overlap,
}

/// Where a guest address leads.
#[derive(Clone, Copy, Debug, PartialEq, Eq, Structural)]
pub enum Route {
    /// No mapping holds the address.
    Unmapped,
    /// Byte `offset` of the raw region mapped as number `mapping`.
    Memory { mapping: usize, offset: u32 },
    /// Register `index` of the peripheral mapped as number `mapping`.
    Register { mapping: usize, index: u32 },
}

/// The register of a peripheral that guest address `addr` names, where the
/// peripheral's window is `length` bytes long: the address is cut down to
/// the window and counted in 32-bit registers.
pub open spec fn register_slot(addr: u64, length: u32) -> u32 {
    ((addr & ((length - 1) as u64)) >> 2) as u32
}

/// The byte of a raw region of `length` bytes that guest address `addr`
/// names: the address modulo the size of the region.
pub open spec fn region_offset(addr: u32, length: u32) -> u32 {
    addr % length
}

/// Finds the index of the register that a guest address names in a peripheral's
/// window of `length` bytes.
pub fn register_index(addr: u64, length: u32) -> (index: u32)
    requires
        length > 0,
    ensures
        index == register_slot(addr, length),
{
    let mask: u64 = (length - 1) as u64;
    let slot: u64 = (addr & mask) >> 2;
    assert(slot <= 0xFFFF_FFFF) by (bit_vector)
        requires
            slot == (addr & mask) >> 2,
            mask <= 0xFFFF_FFFF,
    ;
    slot as u32
}

/// Whether no two of the mappings have an address in common.
pub open spec fn disjoint(mappings: Seq<Mapping>) -> bool {
    forall|i: int, j: int|
        0 <= i < j < mappings.len() ==> !(#[trigger] mappings[i]).overlaps(#[trigger] mappings[j])
}

/// Whether a new mapping is free of every mapping in `mappings`.
pub open spec fn free_of(mappings: Seq<Mapping>, m: Mapping) -> bool {
    forall|i: int| 0 <= i < mappings.len() ==> !(#[trigger] mappings[i]).overlaps(m)
}

/// The outcome of mapping `m` into `mappings`: the number under which it is
/// mapped, which is its place in the list, or the reason why it cannot be.
pub open spec fn map_outcome(mappings: Seq<Mapping>, m: Mapping) -> Result<usize, MapError> {
    if m.length == 0 {
        Err(MapError::Empty)
    } else if m.base + m.length > 0x1_0000_0000 {
        Err(MapError::OutOfRange)
    } else if !free_of(mappings, m) {
        Err(MapError::Overlap)
    } else {
        Ok(mappings.len() as usize)
    }
}

/// Where `addr` leads in `mappings`: into the first mapping that contains
/// it.
pub open spec fn route_of(mappings: Seq<Mapping>, addr: u32) -> Route
    decreases mappings.len(),
{
    if mappings.len() == 0 {
        Route::Unmapped
    } else if route_of(mappings.drop_last(), addr) != Route::Unmapped {
        route_of(mappings.drop_last(), addr)
    } else if mappings.last().contains(addr) {
        route_within(mappings.last(), (mappings.len() - 1) as usize, addr)
    } else {
        Route::Unmapped
    }
}

/// Where `addr` leads inside mapping number `number`.
pub open spec fn route_within(m: Mapping, number: usize, addr: u32) -> Route {
    match m.backing {
        Backing::Memory => Route::Memory { mapping: number, offset: region_offset(addr, m.length) },
        Backing::Device => Route::Register {
            mapping: number,
            index: register_slot(addr as u64, m.length),
        },
    }
}

/// The address space of the machine. Its view is the list of its mappings
/// in the order in which they were made.
pub struct AddressSpace {
    mappings: Vec<Mapping>,
}

impl View for AddressSpace {
    type V = Seq<Mapping>;

    closed spec fn view(&self) -> Seq<Mapping> {
        self.mappings@
    }
}

impl AddressSpace {
    /// Whether every mapping is valid and no two have an address in common.
    pub open spec fn wf(&self) -> bool {
        &&& forall|i: int| 0 <= i < self@.len() ==> (#[trigger] self@[i]).valid()
        &&& disjoint(self@)
    }

    /// An address space with nothing mapped.
    pub fn new() -> (space: AddressSpace)
        ensures
            space@ == Seq::<Mapping>::empty(),
            space.wf(),
    {
        AddressSpace { mappings: Vec::new() }
    }

    fn map(&mut self, m: Mapping) -> (r: Result<usize, MapError>)
        ensures
            r == map_outcome(old(self)@, m),
            r is Ok ==> final(self)@ == old(self)@.push(m),
            r is Err ==> final(self)@ == old(self)@,
            old(self).wf() ==> final(self).wf(),
    {
        if m.length == 0 {
            return Err(MapError::Empty);
        }
        if m.base as u64 + m.length as u64 > 0x1_0000_0000 {
            return Err(MapError::OutOfRange);
        }
        let end: u64 = m.base as u64 + m.length as u64;
        let mut i: usize = 0;
        while i < self.mappings.len()
            invariant
                i <= self.mappings@.len(),
                self.mappings@ == old(self).mappings@,
                end == m.base + m.length,
                end <= 0x1_0000_0000,
                m.length > 0,
                forall|k: int| 0 <= k < i ==> !(#[trigger] self.mappings@[k]).overlaps(m),
            decreases self.mappings@.len() - i,
        {
            let other: Mapping = self.mappings[i];
            if (other.base as u64) < end && (m.base as u64) < other.base as u64 + other.length as u64 {
                return Err(MapError::Overlap);
            }
            i += 1;
        }
        let number: usize = self.mappings.len();
        self.mappings.push(m);
        Ok(number)
    }

    /// Maps `bytes` bytes of raw memory at `base`.
    pub fn map_region(&mut self, base: u32, bytes: u32) -> (r: Result<usize, MapError>)
        ensures
            r == map_outcome(old(self)@, Mapping { base, length: bytes, backing: Backing::Memory }),
            r is Ok ==> final(self)@ == old(self)@.push(
                Mapping { base, length: bytes, backing: Backing::Memory },
            ),
            r is Err ==> final(self)@ == old(self)@,
            old(self).wf() ==> final(self).wf(),
    {
        self.map(Mapping { base, length: bytes, backing: Backing::Memory })
    }

    /// Maps the register window of a peripheral, `length` bytes at `base`.
    pub fn map_peripheral(&mut self, base: u32, length: u32) -> (r: Result<usize, MapError>)
        ensures
            r == map_outcome(old(self)@, Mapping { base, length, backing: Backing::Device }),
            r is Ok ==> final(self)@ == old(self)@.push(
                Mapping { base, length, backing: Backing::Device },
            ),
            r is Err ==> final(self)@ == old(self)@,
            old(self).wf() ==> final(self).wf(),
    {
        self.map(Mapping { base, length, backing: Backing::Device })
    }

    /// Finds where a guest address leads.
    pub fn resolve(&self, addr: u32) -> (route: Route)
        ensures
            route == route_of(self@, addr),
    {
        let mut i: usize = 0;
        while i < self.mappings.len()
            invariant
                i <= self.mappings@.len(),
                route_of(self.mappings@.take(i as int), addr) == Route::Unmapped,
            decreases self.mappings@.len() - i,
        {
            let m: Mapping = self.mappings[i];
            proof {
                assert(self.mappings@.take(i + 1).drop_last() =~= self.mappings@.take(i as int));
            }
            if m.base <= addr && (addr as u64) < m.base as u64 + m.length as u64 {
                let route = match m.backing {
                    Backing::Memory => Route::Memory { mapping: i, offset: addr % m.length },
                    Backing::Device => Route::Register {
                        mapping: i,
                        index: register_index(addr as u64, m.length),
                    },
                };
                proof {
                    lemma_route_found(self.mappings@, i as int + 1, addr);
                }
                return route;
            }
            i += 1;
        }
        assert(self.mappings@.take(i as int) =~= self.mappings@);
        Route::Unmapped
    }
    /// The number of mappings.
    pub fn len(&self) -> (n: usize)
        ensures
            n == self@.len(),
    {
        self.mappings.len()
    }

    /// Mapping number `number`, if there is one.
    pub fn mapping(&self, number: usize) -> (m: Option<Mapping>)
        ensures
            m == if number < self@.len() {
                Some(self@[number as int])
            } else {
                None
            },
    {
        if number < self.mappings.len() {
            Some(self.mappings[number])
        } else {
            None
        }
    }
}

proof fn lemma_route_found(mappings: Seq<Mapping>, n: int, addr: u32)
    requires
        0 <= n <= mappings.len(),
        route_of(mappings.take(n), addr) != Route::Unmapped,
    ensures
        route_of(mappings, addr) == route_of(mappings.take(n), addr),
    decreases mappings.len() - n,
{
    if n == mappings.len() {
        assert(mappings.take(n) =~= mappings);
    } else {
        assert(mappings.take(n + 1).drop_last() =~= mappings.take(n));
        lemma_route_found(mappings, n + 1, addr);
    }
}

/// The mapping into which an address is routed contains the address, and no
/// mapping contains an address that is routed nowhere.
pub proof fn lemma_route_is_sound(mappings: Seq<Mapping>, addr: u32)
    requires
        mappings.len() <= usize::MAX,
    ensures
        match route_of(mappings, addr) {
            Route::Unmapped => forall|i: int|
                0 <= i < mappings.len() ==> !(#[trigger] mappings[i]).contains(addr),
            Route::Memory { mapping, offset } => {
                &&& mapping < mappings.len()
                &&& mappings[mapping as int].contains(addr)
                &&& mappings[mapping as int].backing == Backing::Memory
                &&& offset == region_offset(addr, mappings[mapping as int].length)
            },
            Route::Register { mapping, index } => {
                &&& mapping < mappings.len()
                &&& mappings[mapping as int].contains(addr)
                &&& mappings[mapping as int].backing == Backing::Device
                &&& index == register_slot(addr as u64, mappings[mapping as int].length)
            },
        },
    decreases mappings.len(),
{
    if mappings.len() > 0 {
        lemma_route_is_sound(mappings.drop_last(), addr);
        if route_of(mappings.drop_last(), addr) == Route::Unmapped {
            assert forall|i: int| 0 <= i < mappings.len() - 1 implies !(#[trigger] mappings[i]).contains(
                addr,
            ) by {
                assert(mappings.drop_last()[i] == mappings[i]);
            }
        }
    }
}

/// At most one mapping claims any address: where no two mappings have an
/// address in common, two mappings that contain the same address are one.
pub proof fn lemma_one_mapping_per_address(mappings: Seq<Mapping>, i: int, j: int, addr: u32)
    requires
        disjoint(mappings),
        0 <= i < mappings.len(),
        0 <= j < mappings.len(),
        mappings[i].contains(addr),
        mappings[j].contains(addr),
    ensures
        i == j,
{
}

/// Routing finds the one mapping that claims an address: where no two
/// mappings have an address in common, an address that mapping `i` contains
/// is routed into mapping `i`.
pub proof fn lemma_route_finds_the_mapping(mappings: Seq<Mapping>, i: int, addr: u32)
    requires
        mappings.len() <= usize::MAX,
        disjoint(mappings),
        0 <= i < mappings.len(),
        mappings[i].contains(addr),
    ensures
        route_of(mappings, addr) == route_within(mappings[i], i as usize, addr),
{
    lemma_route_is_sound(mappings, addr);
    match route_of(mappings, addr) {
        Route::Unmapped => {},
        Route::Memory { mapping, offset } => {
            lemma_one_mapping_per_address(mappings, i, mapping as int, addr);
        },
        Route::Register { mapping, index } => {
            lemma_one_mapping_per_address(mappings, i, mapping as int, addr);
        },
    }
}

} // verus!
