//! FlexSPI lookup table (LUT) instructions and sequences.
//!
//! An [`Instr`] is a two-byte FlexSPI micro-instruction: an opcode, a pad
//! count, and an opcode-dependent operand. Byte 0 holds the operand; byte 1
//! packs the opcode and pad count as `(opcode << 2) | pads`. A [`Sequence`]
//! is a run of eight instructions, 16 bytes in all; unused trailing slots
//! hold the STOP instruction (two zero bytes), which halts the controller.
//! Use a [`SequenceBuilder`] to fill a sequence front to back.

use vstd::prelude::*;

verus! {

broadcast use vstd::array::group_array_axioms;

/// A FlexSPI opcode.
///
/// Available `Opcode`s are defined in the [`opcodes`](super::opcodes) module.
#[derive(Clone, Copy)]
pub struct Opcode {
    pub(crate) raw: u8,
}

impl Opcode {
    /// The numeric operation code.
    pub open(crate) spec fn spec_value(self) -> u8 {
        self.raw
    }
}

/// Number of pads to use to execute the instruction.
#[derive(Clone, Copy)]
pub enum Pads {
    /// Single mode
    One,
    /// Dual mode
    Two,
    /// Quad mode
    Four,
    /// Octal mode
    Eight,
}

impl Pads {
    /// The two-bit field encoding of this pad count.
    pub open spec fn spec_value(self) -> u8 {
        match self {
            Pads::One => 0,
            Pads::Two => 1,
            Pads::Four => 2,
            Pads::Eight => 3,
        }
    }

    /// The two-bit field encoding of this pad count.
    pub fn value(self) -> (v: u8)
        ensures
            v == self.spec_value(),
            v < 4,
    {
        match self {
            Pads::One => 0,
            Pads::Two => 1,
            Pads::Four => 2,
            Pads::Eight => 3,
        }
    }
}

/// The second byte of an encoded instruction: the low six bits of the opcode
/// shifted left by two, with the pad-count field in the low two bits.
pub open spec fn control_byte(opcode: u8, pads: u8) -> u8 {
    (((opcode % 64) * 4 + pads) as u8)
}

/// The opcode recovered from the second byte of an encoded instruction.
pub open spec fn control_opcode(control: u8) -> u8 {
    control / 4
}

/// The pad-count field recovered from the second byte of an encoded instruction.
pub open spec fn control_pads(control: u8) -> u8 {
    control % 4
}

/// Encoding an instruction and decoding it again recovers the opcode and the
/// pad count, for every opcode that fits the six-bit opcode field and every
/// two-bit pad count. (The operand byte is stored as given, so it always
/// round-trips.)
pub proof fn lemma_control_byte_round_trip(opcode: u8, pads: u8)
    requires
        opcode < 64,
        pads < 4,
    ensures
        control_opcode(control_byte(opcode, pads)) == opcode,
        control_pads(control_byte(opcode, pads)) == pads,
{
    assert((opcode * 4 + pads) / 4 == opcode && (opcode * 4 + pads) % 4 == pads) by (nonlinear_arith)
        requires
            opcode < 64,
            pads < 4,
    ;
}

/// A FlexSPI instruction.
///
/// An `Instr` has an opcode, a pad count, and an opcode-dependent operand.
/// Opcodes are available in the [`opcodes`](super::opcodes) module.
///
/// `Instr`s are used to create FlexSPI lookup table command [`Sequence`]s.
#[derive(Clone, Copy)]
pub struct Instr {
    pub(crate) operand: u8,
    pub(crate) control: u8,
}

/// Whether an instruction is the STOP instruction: both encoded bytes zero.
pub open spec fn is_stop(i: Instr) -> bool {
    i.spec_operand() == 0 && i.spec_control() == 0
}

impl Instr {
    /// The first encoded byte: the operand.
    pub open(crate) spec fn spec_operand(self) -> u8 {
        self.operand
    }

    /// The second encoded byte: opcode and pad count packed together.
    pub open(crate) spec fn spec_control(self) -> u8 {
        self.control
    }

    /// Create a new FlexSPI LUT instruction.
    ///
    /// Note that the `JUMP_ON_CS` and `STOP` opcodes are not available here.
    /// Use [`Instr::stop`] and [`Instr::jump_on_cs`] for those instructions.
    pub fn new(opcode: Opcode, pads: Pads, operand: u8) -> (r: Self)
        ensures
            r.spec_operand() == operand,
            r.spec_control() == control_byte(opcode.spec_value(), pads.spec_value()),
    {
        let control: u8 = (opcode.raw % 64) * 4 + pads.value();
        Instr { operand, control }
    }

    /// The STOP instruction: stop execution and deassert chip select.
    pub fn stop() -> (r: Self)
        ensures
            is_stop(r),
    {
        Instr { operand: 0, control: 0 }
    }

    /// The JUMP_ON_CS instruction: stop execution, deassert chip select, and
    /// save the operand as the start pointer for the next sequence.
    pub fn jump_on_cs() -> (r: Self)
        ensures
            r.spec_operand() == 0,
            r.spec_control() == 0x7C,
    {
        Instr { operand: 0, control: 0x7C }
    }
}

/// A collection of eight FlexSPI instructions, encoded in 16 bytes.
///
/// Use [`SequenceBuilder`] to create a `Sequence`. The sequences you'll
/// require are dependent on the specific flash memory that you're
/// interacting with.
///
/// `Sequence`s are used to create a [`LookupTable`](super::LookupTable).
#[derive(Clone, Copy)]
pub struct Sequence(pub(crate) [Instr; 8]);

impl View for Sequence {
    type V = Seq<Instr>;

    open(crate) spec fn view(&self) -> Seq<Instr> {
        self.0@
    }
}

/// The 16-byte encoding of a sequence: instruction `i` occupies bytes `2 * i`
/// (its operand) and `2 * i + 1` (its control byte).
pub open spec fn sequence_bytes(s: Seq<Instr>) -> Seq<u8> {
    Seq::new(
        16,
        |j: int|
            if j % 2 == 0 {
                s[j / 2].spec_operand()
            } else {
                s[j / 2].spec_control()
            },
    )
}

/// Whether every instruction of the sequence is the STOP instruction.
pub open spec fn all_stop(s: Seq<Instr>) -> bool {
    forall|j: int| 0 <= j < s.len() ==> is_stop(#[trigger] s[j])
}

/// In a sequence whose slots from `k` on hold the STOP instruction, every
/// byte of the serialized form from offset `2 * k` on is zero: a sequence
/// built from fewer than eight instructions ends in `0x0000` slots.
pub proof fn lemma_stop_slots_serialize_to_zero(s: Seq<Instr>, k: int)
    requires
        s.len() == 8,
        0 <= k <= 8,
        forall|j: int| k <= j < 8 ==> is_stop(#[trigger] s[j]),
    ensures
        forall|i: int| 2 * k <= i < 16 ==> sequence_bytes(s)[i] == 0,
{
    assert forall|i: int| 2 * k <= i < 16 implies sequence_bytes(s)[i] == 0 by {
        assert(k <= i / 2 < 8);
        assert(is_stop(s[i / 2]));
    }
}

impl Sequence {
    /// A sequence of eight STOP instructions.
    pub(crate) fn stopped() -> (r: Self)
        ensures
            r@.len() == 8,
            all_stop(r@),
    {
        let stop = Instr::stop();
        let slots = [stop; 8];
        proof {
            assert(slots == vstd::array::spec_array_fill_for_copy_type::<Instr, 8>(stop));
        }
        Sequence(slots)
    }

    /// Byte `j` of the 16-byte encoding of this sequence.
    pub fn byte_at(&self, j: usize) -> (b: u8)
        requires
            j < 16,
        ensures
            b == sequence_bytes(self@)[j as int],
    {
        let i = self.0[j / 2];
        if j % 2 == 0 {
            i.operand
        } else {
            i.control
        }
    }

    /// The 16-byte encoding of this sequence.
    pub fn to_bytes(&self) -> (r: Vec<u8>)
        ensures
            r@ == sequence_bytes(self@),
            r@.len() == 16,
    {
        let mut r: Vec<u8> = Vec::new();
        let mut j: usize = 0;
        while j < 16
            invariant
                j <= 16,
                r@.len() == j,
                forall|k: int| 0 <= k < j ==> r@[k] == sequence_bytes(self@)[k],
            decreases 16 - j,
        {
            let b = self.byte_at(j);
            r.push(b);
            j += 1;
        }
        proof {
            assert(r@ =~= sequence_bytes(self@));
        }
        r
    }
}

/// A [`Sequence`] builder.
///
/// Use `SequenceBuilder` to define a FlexSPI LUT sequence. A sequence holds
/// at most eight instructions, and the builder's contract rejects a ninth.
/// Any unspecified instructions are set to the STOP instruction.
pub struct SequenceBuilder {
    pub(crate) sequence: Sequence,
    pub(crate) offset: usize,
}

impl SequenceBuilder {
    /// The instructions accumulated so far, padded with STOP to length eight.
    pub open(crate) spec fn spec_instrs(self) -> Seq<Instr> {
        self.sequence@
    }

    /// How many instructions have been inserted.
    pub open(crate) spec fn spec_offset(self) -> int {
        self.offset as int
    }

    /// The builder holds eight slots, the next insertion point is in range,
    /// and every slot at or past the insertion point still holds STOP.
    pub open spec fn wf(self) -> bool {
        &&& self.spec_instrs().len() == 8
        &&& 0 <= self.spec_offset() <= 8
        &&& forall|j: int|
            self.spec_offset() <= j < 8 ==> is_stop(#[trigger] self.spec_instrs()[j])
    }

    /// Creates a new `SequenceBuilder` that can accept up to eight
    /// instructions.
    ///
    /// All unspecified instructions are set to STOP.
    pub fn new() -> (r: Self)
        ensures
            r.wf(),
            r.spec_offset() == 0,
            all_stop(r.spec_instrs()),
    {
        SequenceBuilder { sequence: Sequence::stopped(), offset: 0 }
    }

    /// Insert `instr` as the next sequence instruction.
    ///
    /// The sequence holds at most eight instructions, so this may be called
    /// at most eight times on one builder.
    pub fn instr(self, instr: Instr) -> (r: Self)
        requires
            self.wf(),
            self.spec_offset() < 8,
        ensures
            r.wf(),
            r.spec_offset() == self.spec_offset() + 1,
            r.spec_instrs() == self.spec_instrs().update(self.spec_offset(), instr),
    {
        let mut sequence = self.sequence;
        sequence.0[self.offset] = instr;
        SequenceBuilder { sequence, offset: self.offset + 1 }
    }

    /// Create the sequence.
    ///
    /// Every slot that was not filled holds the STOP instruction, so a
    /// sequence built from fewer than eight instructions ends in STOPs.
    pub fn build(self) -> (r: Sequence)
        requires
            self.wf(),
        ensures
            r@ == self.spec_instrs(),
            r@.len() == 8,
            forall|j: int| self.spec_offset() <= j < 8 ==> is_stop(#[trigger] r@[j]),
    {
        self.sequence
    }
}

} // verus!
