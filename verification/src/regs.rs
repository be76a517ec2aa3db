//! Register images, taken from the bit-field definitions of `aarch64_cpu`.

use aarch64_cpu::registers::{
    CurrentEL, CNTHCTL_EL2, CPACR_EL1, DAIF, HCR_EL2, MAIR_EL1, SCR_EL3, SCTLR_EL1, SPSR_EL2,
    SPSR_EL3, SPSel, TCR_EL1,
};
use vstd::prelude::*;

verus! {

/// Memory attribute indirection image that matches the descriptor attributes:
/// device-nGnRE in slot 0, normal write-back in slot 1, non-cacheable in slot 2.
pub const MAIR_VALUE: u64 = 0x44_ff_04;

/// Image of the translation control register: 48-bit physical addresses,
/// both table walks enabled, 4 KiB granules, 48-bit virtual halves.
pub const TCR_VALUE: u64 = 0x5_b510_3510;

/// The `MAIR_EL1` fields of `aarch64_cpu` for the three attribute slots,
/// joined with tock-registers' `FieldValue` addition (a bitwise or of the
/// field values): device nGnRE in slot 0 (4 at offset 0), normal write-back
/// inner and outer in slot 1 (15 at 8, 15 at 12), normal non-cacheable inner
/// and outer in slot 2 (4 at 16, 4 at 20).
#[verifier::external_body]
pub(crate) fn mair_attributes() -> (v: u64)
    ensures
        v == 0x44_ff_04,
{
    (MAIR_EL1::Attr0_Device::nonGathering_nonReordering_EarlyWriteAck
        + MAIR_EL1::Attr1_Normal_Inner::WriteBack_NonTransient_ReadWriteAlloc
        + MAIR_EL1::Attr1_Normal_Outer::WriteBack_NonTransient_ReadWriteAlloc
        + MAIR_EL1::Attr2_Normal_Inner::NonCacheable
        + MAIR_EL1::Attr2_Normal_Outer::NonCacheable).value
}

/// `aarch64_cpu::registers::DAIF::I::Masked` applied with tock-registers'
/// `FieldValue::matches_all`: true exactly when bit 7 of `raw` is set.
#[verifier::external_body]
pub(crate) fn daif_irq_masked(raw: u64) -> (masked: bool)
    ensures
        masked == (raw & 0x80 == 0x80),
{
    DAIF::I::Masked.matches_all(raw)
}

/// `aarch64_cpu::registers::CurrentEL::EL` applied with tock-registers'
/// `Field::read`: the two-bit field at offset 2 of `raw`.
#[verifier::external_body]
pub(crate) fn current_el_field(raw: u64) -> (el: u64)
    ensures
        el == (raw & 0xc) >> 2,
{
    CurrentEL::EL.read(raw)
}

/// `SPSel::SP::ELx` of `aarch64_cpu`: the value 1 in the one-bit field at offset 0.
#[verifier::external_body]
pub(crate) fn spsel_elx() -> (v: u64)
    ensures
        v == 1,
{
    SPSel::SP::ELx.value
}

/// The `TCR_EL1` fields of `aarch64_cpu` for the lower half, joined with
/// tock-registers' `FieldValue` addition (a bitwise or of the field values):
/// walks enabled (bit 7 clear), 4 KiB granule (0 at 14), inner shareable
/// (3 at 12), write-back caches (1 at 10, 1 at 8), size offset 16 (at 0).
#[verifier::external_body]
pub(crate) fn tcr_ttbr0_flags() -> (v: u64)
    ensures
        v == 0x3510,
{
    (TCR_EL1::EPD0::EnableTTBR0Walks + TCR_EL1::TG0::KiB_4 + TCR_EL1::SH0::Inner
        + TCR_EL1::ORGN0::WriteBack_ReadAlloc_WriteAlloc_Cacheable
        + TCR_EL1::IRGN0::WriteBack_ReadAlloc_WriteAlloc_Cacheable
        + TCR_EL1::T0SZ.val(16)).value
}

/// The `TCR_EL1` fields of `aarch64_cpu` for the upper half, joined the same
/// way: walks enabled (bit 23 clear), 4 KiB granule (2 at 30), inner shareable
/// (3 at 28), write-back caches (1 at 26, 1 at 24), size offset 16 (at 16).
#[verifier::external_body]
pub(crate) fn tcr_ttbr1_flags() -> (v: u64)
    ensures
        v == 0xb510_0000,
{
    (TCR_EL1::EPD1::EnableTTBR1Walks + TCR_EL1::TG1::KiB_4 + TCR_EL1::SH1::Inner
        + TCR_EL1::ORGN1::WriteBack_ReadAlloc_WriteAlloc_Cacheable
        + TCR_EL1::IRGN1::WriteBack_ReadAlloc_WriteAlloc_Cacheable
        + TCR_EL1::T1SZ.val(16)).value
}

/// `TCR_EL1::IPS::Bits_48` of `aarch64_cpu`: the value 5 in the field at offset 32.
#[verifier::external_body]
pub(crate) fn tcr_ips_48() -> (v: u64)
    ensures
        v == 0x5_0000_0000,
{
    TCR_EL1::IPS::Bits_48.value
}

/// `SCTLR_EL1`'s M, C and I enable values of `aarch64_cpu` (bits 0, 2 and 12),
/// applied to `old` with tock-registers' `FieldValue::modify`: the three bits
/// are set and every other bit of `old` is kept.
#[verifier::external_body]
pub(crate) fn sctlr_with_mmu_and_caches(old: u64) -> (v: u64)
    ensures
        v == old | 0x1005,
{
    (SCTLR_EL1::M::Enable + SCTLR_EL1::C::Cacheable + SCTLR_EL1::I::Cacheable).modify(old)
}

/// `CNTHCTL_EL2`'s `EL1PCEN::SET` and `EL1PCTEN::SET` of `aarch64_cpu` (bits 1
/// and 0), applied to `old` with `FieldValue::modify`: both bits are set and
/// every other bit of `old` is kept.
#[verifier::external_body]
pub(crate) fn cnthctl_with_el1_timer(old: u64) -> (v: u64)
    ensures
        v == old | 0x3,
{
    (CNTHCTL_EL2::EL1PCEN::SET + CNTHCTL_EL2::EL1PCTEN::SET).modify(old)
}

/// `SCR_EL3`'s `NS::NonSecure`, `HCE::HvcEnabled` and `RW::NextELIsAarch64` of
/// `aarch64_cpu`, joined: bits 0, 8 and 10.
#[verifier::external_body]
pub(crate) fn scr_el3_image() -> (v: u64)
    ensures
        v == 0x501,
{
    (SCR_EL3::NS::NonSecure + SCR_EL3::HCE::HvcEnabled + SCR_EL3::RW::NextELIsAarch64).value
}

/// `HCR_EL2::RW::EL1IsAarch64` of `aarch64_cpu`: bit 31.
#[verifier::external_body]
pub(crate) fn hcr_el2_image() -> (v: u64)
    ensures
        v == 0x8000_0000,
{
    HCR_EL2::RW::EL1IsAarch64.value
}

/// `SPSR_EL2`'s `M::EL1h` (5 at offset 0) with D, A, I and F masked (bits 9
/// to 6) of `aarch64_cpu`, joined.
#[verifier::external_body]
pub(crate) fn spsr_el2_image() -> (v: u64)
    ensures
        v == 0x3c5,
{
    (SPSR_EL2::M::EL1h + SPSR_EL2::D::Masked + SPSR_EL2::A::Masked + SPSR_EL2::I::Masked
        + SPSR_EL2::F::Masked).value
}

/// `SPSR_EL3`'s `M::EL1h` (5 at offset 0) with D, A, I and F masked (bits 9
/// to 6) of `aarch64_cpu`, joined.
#[verifier::external_body]
pub(crate) fn spsr_el3_image() -> (v: u64)
    ensures
        v == 0x3c5,
{
    (SPSR_EL3::M::EL1h + SPSR_EL3::D::Masked + SPSR_EL3::A::Masked + SPSR_EL3::I::Masked
        + SPSR_EL3::F::Masked).value
}

/// `CPACR_EL1::FPEN::TrapNothing` of `aarch64_cpu`: the value 3 in the field at offset 20.
#[verifier::external_body]
pub(crate) fn cpacr_fp_enabled() -> (v: u64)
    ensures
        v == 0x30_0000,
{
    CPACR_EL1::FPEN::TrapNothing.value
}

/// The image written to the memory attribute register when translation is
/// switched on.
pub fn mair_image() -> (v: u64)
    ensures
        v == MAIR_VALUE,
{
    mair_attributes()
}

/// The image written to the translation control register when translation
/// is switched on.
pub fn tcr_image() -> (v: u64)
    ensures
        v == TCR_VALUE,
{
    let lo: u64 = tcr_ttbr0_flags();
    let hi: u64 = tcr_ttbr1_flags();
    let ips: u64 = tcr_ips_48();
    assert(0x5_0000_0000u64 | 0x3510u64 | 0xb510_0000u64 == 0x5_b510_3510u64) by (bit_vector);
    ips | lo | hi
}

} // verus!
