//! FlexSPI lookup table.
//!
//! The lookup table holds sixteen [`Sequence`] slots, 256 bytes in all. The
//! boot ROM finds the sequence for a logical [`Command`] at that command's
//! fixed slot index; any slot that is never assigned keeps the all-STOP
//! sequence.

use vstd::prelude::*;

use super::sequence::{all_stop, sequence_bytes, Sequence};

verus! {

broadcast use vstd::array::group_array_axioms;

/// The default sequence definition lookup indices.
///
/// `Command`s are looked up by the processor when it needs to interact with
/// the flash chip. Each command has a fixed slot in the lookup table; the
/// gaps between the indices are reserved for multi-sequence commands.
#[derive(Debug, Clone, Copy, PartialEq, Eq)]
pub enum Command {
    Read,
    ReadStatus,
    WriteEnable,
    EraseSector,
    PageProgram,
    ChipErase,
    Dummy,
}

impl Command {
    /// The fixed lookup-table slot of this command.
    pub open spec fn spec_index(self) -> int {
        match self {
            Command::Read => 0,
            Command::ReadStatus => 1,
            Command::WriteEnable => 3,
            Command::EraseSector => 5,
            Command::PageProgram => 9,
            Command::ChipErase => 11,
            Command::Dummy => 15,
        }
    }

    /// The fixed lookup-table slot of this command.
    pub fn index(self) -> (i: usize)
        ensures
            i == self.spec_index(),
            i < 16,
    {
        match self {
            Command::Read => 0,
            Command::ReadStatus => 1,
            Command::WriteEnable => 3,
            Command::EraseSector => 5,
            Command::PageProgram => 9,
            Command::ChipErase => 11,
            Command::Dummy => 15,
        }
    }
}

/// A sequence lookup table, part of the general FlexSPI configuration block.
///
/// The contents of the sequences depend on what kind of flash device is
/// interfaced. Refer to your flash device manual for more information.
///
/// Any slot that is not assigned holds a sequence of STOPs.
#[derive(Clone, Copy)]
pub struct LookupTable(pub(crate) [Sequence; 16]);

impl View for LookupTable {
    type V = Seq<Sequence>;

    open(crate) spec fn view(&self) -> Seq<Sequence> {
        self.0@
    }
}

/// The 256-byte encoding of the lookup table: the 16-byte encoding of slot
/// `k` occupies bytes `16 * k` through `16 * k + 15`, in slot order.
pub open spec fn lut_bytes(t: Seq<Sequence>) -> Seq<u8> {
    Seq::new(256, |i: int| sequence_bytes(t[i / 16]@)[i % 16])
}

/// The bytes of slot `k` stand at offset `16 * k` of the encoded table: the
/// encoding of the table restricted to that slot's range is exactly the
/// encoding of the sequence the slot holds.
pub proof fn lemma_lut_slot_bytes(t: Seq<Sequence>, k: int)
    requires
        t.len() == 16,
        0 <= k < 16,
    ensures
        lut_bytes(t).subrange(16 * k, 16 * k + 16) == sequence_bytes(t[k]@),
{
    let slot = lut_bytes(t).subrange(16 * k, 16 * k + 16);
    assert forall|j: int| 0 <= j < 16 implies slot[j] == sequence_bytes(t[k]@)[j] by {
        let i = 16 * k + j;
        assert(i / 16 == k && i % 16 == j) by (nonlinear_arith)
            requires
                0 <= k < 16,
                0 <= j < 16,
                i == 16 * k + j,
        ;
    }
    assert(slot =~= sequence_bytes(t[k]@));
}

impl Default for LookupTable {
    /// The table with every slot holding the all-STOP sequence, as
    /// [`LookupTable::new`] builds it.
    fn default() -> (r: Self)
        ensures
            r@.len() == 16,
            forall|k: int| 0 <= k < 16 ==> (#[trigger] r@[k])@.len() == 8 && all_stop(r@[k]@),
    {
        Self::new()
    }
}

impl LookupTable {
    /// Create a new lookup table. Every slot holds the all-STOP sequence.
    pub fn new() -> (r: Self)
        ensures
            r@.len() == 16,
            forall|k: int| 0 <= k < 16 ==> (#[trigger] r@[k])@.len() == 8 && all_stop(r@[k]@),
    {
        let stopped = Sequence::stopped();
        let slots = [stopped; 16];
        proof {
            assert(slots == vstd::array::spec_array_fill_for_copy_type::<Sequence, 16>(stopped));
        }
        LookupTable(slots)
    }

    /// Assign the `sequence` to the slot associated with the command.
    pub fn command(self, cmd: Command, sequence: Sequence) -> (r: Self)
        ensures
            r@ == self@.update(cmd.spec_index(), sequence),
    {
        self.custom_command(cmd.index(), sequence)
    }

    /// Assign a sequence to one of the sixteen LUT slots by index.
    ///
    /// You're responsible for making sure this doesn't accidentally
    /// overwrite one of the standard [`Command`] sequences.
    pub fn custom_command(self, index: usize, sequence: Sequence) -> (r: Self)
        requires
            index < 16,
        ensures
            r@ == self@.update(index as int, sequence),
    {
        let mut slots = self.0;
        slots[index] = sequence;
        LookupTable(slots)
    }

    /// Byte `i` of the 256-byte encoding of this table.
    pub fn byte_at(&self, i: usize) -> (b: u8)
        requires
            i < 256,
        ensures
            b == lut_bytes(self@)[i as int],
    {
        let b = self.0[i / 16].byte_at(i % 16);
        proof {
            assert(lut_bytes(self@)[i as int] == sequence_bytes(self@[i as int / 16]@)[i as int
                % 16]);
        }
        b
    }

    /// The 256-byte encoding of this table.
    pub fn to_bytes(&self) -> (r: Vec<u8>)
        ensures
            r@ == lut_bytes(self@),
            r@.len() == 256,
    {
        let mut r: Vec<u8> = Vec::new();
        let mut i: usize = 0;
        while i < 256
            invariant
                i <= 256,
                r@.len() == i,
                forall|k: int| 0 <= k < i ==> r@[k] == lut_bytes(self@)[k],
            decreases 256 - i,
        {
            let b = self.byte_at(i);
            r.push(b);
            i += 1;
        }
        proof {
            assert(r@ =~= lut_bytes(self@));
        }
        r
    }
}

} // verus!
