use vstd::prelude::*;

use crate::classfile::types::{ConstantPool, ConstantPoolInfo, CpInfoV, cp_info_view, pool_view};

verus! {

/// How many index slots one entry occupies: eight-byte literals take two, the
/// second of which stays vacant; everything else takes one.
pub open spec fn sp_slot_width(e: CpInfoV) -> nat {
    match e {
        CpInfoV::LongInfo { .. } => 2,
        CpInfoV::DoubleInfo { .. } => 2,
        _ => 1,
    }
}

/// Walks the pool from entry `j`, which sits at slot `slot`, looking for the
/// entry at slot `idx`. A slot that falls inside an eight-byte literal's
/// second half is skipped over, so the walk answers `None` for it.
pub open spec fn sp_slot_get_from(cp: Seq<CpInfoV>, j: int, slot: nat, idx: u16) -> Option<
    CpInfoV,
>
    decreases cp.len() - j,
{
    if j < 0 || j >= cp.len() {
        None
    } else if slot == idx {
        Some(cp[j])
    } else if slot > idx {
        None
    } else {
        sp_slot_get_from(cp, j + 1, slot + sp_slot_width(cp[j]), idx)
    }
}

/// Looks an entry up by its one-based slot index. Slot zero is reserved and
/// resolves to nothing, as does the vacant slot after a `Long` or `Double`.
pub open spec fn sp_slot_get(cp: Seq<CpInfoV>, idx: u16) -> Option<CpInfoV> {
    sp_slot_get_from(cp, 0, 1, idx)
}

impl ConstantPool {
    /// The number of entries actually stored (vacant slots not counted).
    pub fn len(&self) -> (n: usize)
        ensures
            n == self.items@.len(),
    {
        self.items.len()
    }

    /// The entry at position `i` of the underlying storage, in parse order.
    pub fn item(&self, i: usize) -> (r: &ConstantPoolInfo)
        requires
            i < self.items@.len(),
        ensures
            *r == self.items@[i as int],
    {
        &self.items[i]
    }

    /// Indexed lookup by one-based slot, replicating the two-slot convention
    /// for eight-byte literals that every pool consumer must observe.
    pub fn get(&self, index: u16) -> (r: Option<&ConstantPoolInfo>)
        ensures
            match r {
                Some(e) => sp_slot_get(pool_view(*self), index) == Some(cp_info_view(*e)),
                None => sp_slot_get(pool_view(*self), index) is None,
            },
    {
        let ghost cpv = pool_view(*self);
        let mut j: usize = 0;
        let mut slot: u32 = 1;
        while j < self.items.len()
            invariant
                j <= self.items@.len(),
                slot <= 0x10000,
                cpv == pool_view(*self),
                cpv.len() == self.items@.len(),
                forall|k: int| 0 <= k < cpv.len() ==> cpv[k] == cp_info_view(self.items@[k]),
                sp_slot_get(cpv, index) == sp_slot_get_from(cpv, j as int, slot as nat, index),
            decreases self.items@.len() - j,
        {
            if slot == index as u32 {
                return Some(&self.items[j]);
            }
            if slot > index as u32 {
                return None;
            }
            let wide = match &self.items[j] {
                ConstantPoolInfo::LongInfo { .. } => true,
                ConstantPoolInfo::DoubleInfo { .. } => true,
                _ => false,
            };
            proof {
                assert(sp_slot_width(cpv[j as int]) == if wide { 2nat } else { 1nat });
            }
            slot = slot + if wide { 2 } else { 1 };
            j = j + 1;
        }
        None
    }
}

/// The slot right after an eight-byte literal is vacant: looking it up from
/// any walk state that still finds the literal answers nothing.
proof fn lemma_slot_vacant_from(cp: Seq<CpInfoV>, j: int, slot: nat, idx: u16)
    requires
        idx < 0xffff,
        match sp_slot_get_from(cp, j, slot, idx) {
            Some(e) => sp_slot_width(e) == 2,
            None => false,
        },
    ensures
        sp_slot_get_from(cp, j, slot, (idx + 1) as u16) is None,
    decreases cp.len() - j,
{
    if j < 0 || j >= cp.len() {
    } else if slot == idx {
    } else if slot > idx {
    } else {
        lemma_slot_vacant_from(cp, j + 1, slot + sp_slot_width(cp[j]), idx);
    }
}

/// Eight-byte literals occupy two index slots: when slot `i` holds a `Long`
/// or `Double` entry, slot `i + 1` resolves to nothing, so every consumer
/// that walks the pool by slot index treats it as unusable.
pub proof fn lemma_double_slot_vacant(cp: Seq<CpInfoV>, i: u16)
    requires
        i < 0xffff,
        match sp_slot_get(cp, i) {
            Some(e) => sp_slot_width(e) == 2,
            None => false,
        },
    ensures
        sp_slot_get(cp, (i + 1) as u16) is None,
{
    lemma_slot_vacant_from(cp, 0, 1, i);
}

} // verus!
