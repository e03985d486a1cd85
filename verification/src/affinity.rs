//! Which processor cores a thread should run on: bit masks over the first
//! 64 cores, bit `i` standing for core `i`.

use vstd::prelude::*;

verus! {

/// The mask of the four cores 4 to 7.
pub const UPPER_FOUR_CORES: u64 = 0xF0;

/// The mask of the four cores 0 to 3.
pub const LOWER_FOUR_CORES: u64 = 0x0F;

/// A choice of processor cores.
#[derive(Clone, Copy, Debug, PartialEq, Eq, Structural)]
pub enum CpuAffinity {
    /// No choice: the thread runs where the system puts it.
    Unpinned,
    /// The fast cores, taken to be cores 4 to 7.
    BigCores,
    /// The frugal cores, taken to be cores 0 to 3.
    LittleCores,
    /// The cores of the given mask.
    Custom(u64),
}

impl CpuAffinity {
    /// The mask that a choice stands for; none for no choice.
    pub open spec fn spec_mask(self) -> Option<u64> {
        match self {
            CpuAffinity::Unpinned => None,
            CpuAffinity::BigCores => Some(UPPER_FOUR_CORES),
            CpuAffinity::LittleCores => Some(LOWER_FOUR_CORES),
            CpuAffinity::Custom(mask) => Some(mask),
        }
    }

    /// The mask of the cores that this choice names, or `None` where it
    /// names none.
    pub fn mask(self) -> (r: Option<u64>)
        ensures
            r == self.spec_mask(),
    {
        match self {
            CpuAffinity::Unpinned => None,
            CpuAffinity::BigCores => Some(UPPER_FOUR_CORES),
            CpuAffinity::LittleCores => Some(LOWER_FOUR_CORES),
            CpuAffinity::Custom(mask) => Some(mask),
        }
    }
}

/// The mask of the first `count` cores, for a count below 64.
pub open spec fn first_cores(count: usize) -> u64
    recommends
        count < 64,
{
    ((1u64 << (count as u64)) - 1) as u64
}

/// The mask of the fast cores of a machine with `num_cpus` cores: with four
/// cores or more, the four cores from the middle one upward, as far as they
/// lie among the first 64; with fewer, all of them.
pub open spec fn spec_big_cores_mask(num_cpus: usize) -> u64 {
    if num_cpus >= 128 {
        0
    } else if num_cpus >= 4 {
        LOWER_FOUR_CORES << ((num_cpus / 2) as u64)
    } else {
        first_cores(num_cpus)
    }
}

/// The mask of the frugal cores of a machine with `num_cpus` cores: with
/// four cores or more, the first four; with fewer, all of them.
pub open spec fn spec_little_cores_mask(num_cpus: usize) -> u64 {
    if num_cpus >= 4 {
        LOWER_FOUR_CORES
    } else {
        first_cores(num_cpus)
    }
}

/// Masks of processor cores, by the number of cores of this machine.
pub struct CpuUtils;

impl CpuUtils {
    /// The number of processor cores that this process can use, as
    /// `num_cpus::get` reports it. Nothing is claimed of the value: it
    /// depends on the machine and on what the process is allowed.
    #[verifier::external_body]
    pub fn get_num_cpus() -> (n: usize) {
        num_cpus::get()
    }

    /// The mask of the fast cores of a machine with `num_cpus` cores.
    pub fn big_cores_mask(num_cpus: usize) -> (mask: u64)
        ensures
            mask == spec_big_cores_mask(num_cpus),
            num_cpus == 8 ==> mask == UPPER_FOUR_CORES,
    {
        assert(0x0Fu64 << 4u64 == 0xF0u64) by (bit_vector);
        if num_cpus >= 128 {
            0
        } else if num_cpus >= 4 {
            let shift: u64 = (num_cpus / 2) as u64;
            LOWER_FOUR_CORES << shift
        } else {
            let count: u64 = num_cpus as u64;
            assert((1u64 << count) >= 1) by (bit_vector)
                requires
                    count < 4,
            ;
            (1u64 << count) - 1
        }
    }

    /// The mask of the frugal cores of a machine with `num_cpus` cores.
    pub fn little_cores_mask(num_cpus: usize) -> (mask: u64)
        ensures
            mask == spec_little_cores_mask(num_cpus),
    {
        if num_cpus >= 4 {
            LOWER_FOUR_CORES
        } else {
            let count: u64 = num_cpus as u64;
            assert((1u64 << count) >= 1) by (bit_vector)
                requires
                    count < 4,
            ;
            (1u64 << count) - 1
        }
    }

    /// The mask of the fast cores of this machine: the mask that
    /// [`CpuUtils::big_cores_mask`] gives for the number of cores that the
    /// machine reports. Which number that is, is the machine's to say.
    pub fn get_big_cores_mask() -> (mask: u64)
        ensures
            exists|num_cpus: usize| mask == #[trigger] spec_big_cores_mask(num_cpus),
    {
        let num_cpus: usize = CpuUtils::get_num_cpus();
        CpuUtils::big_cores_mask(num_cpus)
    }

    /// The mask of the frugal cores of this machine: the mask that
    /// [`CpuUtils::little_cores_mask`] gives for the number of cores that
    /// the machine reports. Which number that is, is the machine's to say.
    pub fn get_little_cores_mask() -> (mask: u64)
        ensures
            exists|num_cpus: usize| mask == #[trigger] spec_little_cores_mask(num_cpus),
    {
        let num_cpus: usize = CpuUtils::get_num_cpus();
        CpuUtils::little_cores_mask(num_cpus)
    }
}

} // verus!
