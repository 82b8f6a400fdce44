//! The layout of the system registers that the monitor programs for a
//! virtual CPU: where each field sits, and how a value is put in its place.

use aarch64_cpu::registers::{MPIDR_EL1, VTTBR_EL2};
use vstd::prelude::*;
use vstd::std_specs::bits::{axiom_u64_trailing_zeros, u64_trailing_zeros};

verus! {

/// A field of a 64-bit register: its mask before shifting, whose lowest bit
/// is set, and the position of its lowest bit in the register.
#[derive(Debug, Copy, Clone, PartialEq, Eq, Structural)]
pub struct Field {
    pub mask: u64,
    pub shift: usize,
}

/// The field `aarch64_cpu::registers::VTTBR_EL2::VMID`. Taken on trust
/// from that crate: the identifier of the translation context is the
/// sixteen bits from bit 48 up.
#[verifier::external_body]
fn vttbr_vmid() -> (field: Field)
    ensures
        field.mask == 0xffff,
        field.shift == 48,
{
    Field { mask: VTTBR_EL2::VMID.mask, shift: VTTBR_EL2::VMID.shift }
}

/// The field `aarch64_cpu::registers::VTTBR_EL2::BADDR`. Taken on trust
/// from that crate: the base address of the translation table is the
/// forty-seven bits from bit 1 up.
#[verifier::external_body]
fn vttbr_baddr() -> (field: Field)
    ensures
        field.mask == 0x7fff_ffff_ffff,
        field.shift == 1,
{
    Field { mask: VTTBR_EL2::BADDR.mask, shift: VTTBR_EL2::BADDR.shift }
}

/// The field `aarch64_cpu::registers::MPIDR_EL1::RES1`. Taken on trust from
/// that crate: the field is bit 31 alone.
#[verifier::external_body]
fn mpidr_res1() -> (field: Field)
    ensures
        field.mask == 1,
        field.shift == 31,
{
    Field { mask: MPIDR_EL1::RES1.mask, shift: MPIDR_EL1::RES1.shift }
}

/// The bits of `mask`, which selects one field of a register, set to `val`:
/// `val` moved up to the lowest bit of the mask and cut to the mask.
pub open spec fn spec_bits_in_reg(mask: u64, val: u64) -> u64 {
    (val << (u64_trailing_zeros(mask) as u64)) & mask
}

/// A field's mask in place has as many trailing zeros as the field is
/// shifted by.
pub proof fn lemma_trailing_zeros_of_field(mask: u64, shift: u64)
    requires
        mask & 1 == 1,
        shift < 64,
    ensures
        u64_trailing_zeros(mask << shift) == shift,
{
    let x = mask << shift;
    let t = u64_trailing_zeros(x) as u64;
    axiom_u64_trailing_zeros(x);
    assert(x != 0 && (x >> shift) & 1 == 1) by (bit_vector)
        requires
            x == mask << shift,
            mask & 1 == 1,
            shift < 64,
    ;
    assert(t < shift ==> (x >> t) & 1 == 0) by (bit_vector)
        requires
            x == mask << shift,
            shift < 64,
    ;
}

/// Puts `val` into the field of a register that `mask` selects.
#[verifier::when_used_as_spec(spec_bits_in_reg)]
pub fn bits_in_reg(mask: u64, val: u64) -> (bits: u64)
    requires
        mask != 0,
    ensures
        bits == spec_bits_in_reg(mask, val),
{
    proof {
        axiom_u64_trailing_zeros(mask);
    }
    (val << mask.trailing_zeros()) & mask
}

/// The stage-2 translation register of a realm: its identifier, cut to
/// sixteen bits, above the base address of its table, cut to bits 1 to 47.
pub open spec fn vttbr_of(id: u64, s2_table: u64) -> u64 {
    ((id & 0xffff) << 48) | (s2_table & 0x0000_ffff_ffff_fffe)
}

/// The identity register of a virtual CPU: the identity that the host chose,
/// with the bit that always reads as one.
pub open spec fn vmpidr_of(mpidr: u64) -> u64 {
    mpidr | 0x8000_0000
}

/// Computes [`vttbr_of`] from the field layout of the register.
pub fn vttbr(id: u64, s2_table: u64) -> (value: u64)
    ensures
        value == vttbr_of(id, s2_table),
{
    let vmid = vttbr_vmid();
    let baddr = vttbr_baddr();
    let vmid_mask = vmid.mask << vmid.shift;
    let baddr_mask = baddr.mask << baddr.shift;
    proof {
        assert(0xffffu64 & 1 == 1 && 0x7fff_ffff_ffffu64 & 1 == 1) by (bit_vector);
        lemma_trailing_zeros_of_field(0xffff, 48);
        lemma_trailing_zeros_of_field(0x7fff_ffff_ffff, 1);
        assert(vmid_mask != 0 && baddr_mask != 0) by (bit_vector)
            requires
                vmid_mask == 0xffffu64 << 48,
                baddr_mask == 0x7fff_ffff_ffffu64 << 1,
        ;
        assert(((id << 48) & (0xffffu64 << 48)) | (((s2_table >> 1) << 1) & (0x7fff_ffff_ffffu64
            << 1)) == ((id & 0xffff) << 48) | (s2_table & 0x0000_ffff_ffff_fffe)) by (bit_vector);
    }
    bits_in_reg(vmid_mask, id) | bits_in_reg(baddr_mask, s2_table >> 1)
}

/// Computes [`vmpidr_of`] from the field layout of the register.
pub fn vmpidr(mpidr: u64) -> (value: u64)
    ensures
        value == vmpidr_of(mpidr),
{
    let res1 = mpidr_res1();
    proof {
        assert(mpidr | (1u64 << 31) == mpidr | 0x8000_0000) by (bit_vector);
    }
    mpidr | (res1.mask << res1.shift)
}

} // verus!
