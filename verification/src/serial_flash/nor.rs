//! Serial NOR configuration blocks and fields.

use vstd::prelude::*;

use crate::bytes::{u32_le_byte, u32_le_byte_at};
use crate::flexspi;
use crate::flexspi::{fcb_byte, FcbView, FLEXSPI_CONFIGURATION_BLOCK_SIZE};
use crate::Imxrt;

verus! {

/// The serialized size of a serial NOR configuration block, in bytes.
pub const NOR_CONFIGURATION_BLOCK_SIZE: usize = 512;

/// The serial clock frequency for IP access.
///
/// The only constructors are [`Imxrt::try_ip_serial_clock_frequency`](crate::Imxrt::try_ip_serial_clock_frequency)
/// and [`Imxrt::ip_serial_clock_frequency`](crate::Imxrt::ip_serial_clock_frequency),
/// which only ever produce a non-zero, per-family code.
#[derive(Debug, Clone, Copy, PartialEq, Eq)]
pub struct IpSerialClockFrequency {
    pub(crate) raw: u8,
}

impl IpSerialClockFrequency {
    /// The encoded clock-frequency code.
    pub open(crate) spec fn spec_get(self) -> u8 {
        self.raw
    }

    /// Wrap a raw per-family clock code.
    pub(crate) fn from_raw(raw: u8) -> (r: Self)
        ensures
            r.spec_get() == raw,
    {
        IpSerialClockFrequency { raw }
    }

    /// Returns the raw value for this frequency selection.
    pub fn get(self) -> (v: u8)
        ensures
            v == self.spec_get(),
    {
        self.raw
    }
}

/// Whether the chip family defines the extra trailing fields of the serial
/// NOR configuration block (uniform-block-size flag, block size, and flash
/// state context).
pub open spec fn spec_has_extras(chip: Imxrt) -> bool {
    chip == Imxrt::Imxrt1160 || chip == Imxrt::Imxrt1170 || chip == Imxrt::Imxrt1180
}

/// Whether the chip family defines the extra trailing fields.
pub fn has_extras(chip: Imxrt) -> (r: bool)
    ensures
        r == spec_has_extras(chip),
{
    match chip {
        Imxrt::Imxrt1160 | Imxrt::Imxrt1170 | Imxrt::Imxrt1180 => true,
        _ => false,
    }
}

/// The meaningful fields of the extras tail.
pub struct ExtrasView {
    /// `isUniformBlockSize`, offset 0x1C9 of the NOR block.
    pub is_uniform_block_size: u8,
    /// `isDataOrderSwapped`, offset 0x1CA of the NOR block.
    pub is_data_order_swapped: u8,
    /// `blockSize`, offset 0x1D0 of the NOR block.
    pub block_size: u32,
    /// `flashStateCtx`, offset 0x1D4 of the NOR block.
    pub flash_state_ctx: u32,
}

/// Extra configurations available on some MCUs.
///
/// The byte span of these fields exists in every serialized block; the
/// fields are only meaningful on the families for which
/// [`spec_has_extras`] holds.
#[derive(Debug, Clone, Copy)]
pub struct Extras {
    pub(crate) is_uniform_block_size: u8,
    pub(crate) is_data_order_swapped: u8,
    pub(crate) block_size: u32,
    pub(crate) flash_state_ctx: u32,
}

impl View for Extras {
    type V = ExtrasView;

    open(crate) spec fn view(&self) -> ExtrasView {
        ExtrasView {
            is_uniform_block_size: self.is_uniform_block_size,
            is_data_order_swapped: self.is_data_order_swapped,
            block_size: self.block_size,
            flash_state_ctx: self.flash_state_ctx,
        }
    }
}

impl Extras {
    /// Set the serial NOR block size if it differs from the sector size.
    ///
    /// By default, the configuration block signals to the hardware that the
    /// sector size is the same as the block size. Calling this will override
    /// that setting, allowing you to configure a different block size.
    ///
    /// The behavior is unspecified if you call this with a block size that's
    /// equal to the sector size.
    pub fn block_size(&mut self, block_size: u32)
        ensures
            final(self)@ == (ExtrasView {
                is_uniform_block_size: 0,
                block_size,
                ..old(self)@
            }),
    {
        self.is_uniform_block_size = 0;
        self.block_size = block_size;
    }
}

/// The default extras tail for a chip family: on families with the extras
/// fields, the uniform-block-size flag starts raised; everything else is
/// zero.
fn extras(imxrt: Imxrt) -> (r: Extras)
    ensures
        r@ == (ExtrasView {
            is_uniform_block_size: if spec_has_extras(imxrt) {
                1u8
            } else {
                0u8
            },
            is_data_order_swapped: 0,
            block_size: 0,
            flash_state_ctx: 0,
        }),
{
    Extras {
        // By default, signal that block size equals sector size.
        // Only do this on supported chips.
        is_uniform_block_size: if has_extras(imxrt) {
            1
        } else {
            0
        },
        is_data_order_swapped: 0,
        block_size: 0,
        flash_state_ctx: 0,
    }
}

/// The fields of a serial NOR configuration block. Every byte of the
/// serialized block that no field covers is reserved and zero.
pub struct NorView {
    /// The embedded FlexSPI configuration block, offsets 0x000 through 0x1BF.
    pub mem_cfg: FcbView,
    /// `pageSize`, offset 0x1C0.
    pub page_size: u32,
    /// `sectorSize`, offset 0x1C4.
    pub sector_size: u32,
    /// `ipCmdSerialClkFreq`, offset 0x1C8; absent means zero, "no change".
    pub ip_cmd_serial_clk_freq: Option<IpSerialClockFrequency>,
    /// The extras tail, offsets 0x1C9 through 0x1FF.
    pub extras: ExtrasView,
}

/// Byte `i` of the serialized serial NOR configuration block: the embedded
/// FlexSPI block's byte for the first 448 offsets, then the NOR fields at
/// their fixed offsets, with zero in every reserved position.
pub open spec fn nor_byte(n: NorView, i: int) -> u8 {
    if i < 0x1C0 {
        fcb_byte(n.mem_cfg, i)
    } else if 0x1C0 <= i < 0x1C4 {
        u32_le_byte(n.page_size, i - 0x1C0)
    } else if 0x1C4 <= i < 0x1C8 {
        u32_le_byte(n.sector_size, i - 0x1C4)
    } else if i == 0x1C8 {
        match n.ip_cmd_serial_clk_freq {
            Option::Some(freq) => freq.spec_get(),
            Option::None => 0,
        }
    } else if i == 0x1C9 {
        n.extras.is_uniform_block_size
    } else if i == 0x1CA {
        n.extras.is_data_order_swapped
    } else if 0x1D0 <= i < 0x1D4 {
        u32_le_byte(n.extras.block_size, i - 0x1D0)
    } else if 0x1D4 <= i < 0x1D8 {
        u32_le_byte(n.extras.flash_state_ctx, i - 0x1D4)
    } else {
        0
    }
}

/// The full 512-byte serialization of a serial NOR configuration block.
pub open spec fn nor_bytes(n: NorView) -> Seq<u8> {
    Seq::new(NOR_CONFIGURATION_BLOCK_SIZE as nat, |i: int| nor_byte(n, i))
}

/// The serialized NOR block begins with the full serialization of its
/// embedded FlexSPI configuration block.
pub proof fn lemma_nor_bytes_prefix(n: NorView)
    ensures
        nor_bytes(n).subrange(0, 0x1C0) == crate::flexspi::fcb_bytes(n.mem_cfg),
{
    assert(nor_bytes(n).subrange(0, 0x1C0) =~= crate::flexspi::fcb_bytes(n.mem_cfg));
}

/// A serial NOR configuration block.
///
/// These are the bytes that you'll need to properly place in memory in order
/// to boot your i.MX RT system.
///
/// Unless otherwise specified, all unset fields serialize to a bit pattern
/// of zero.
///
/// ## 1160, 1170, and 1180 notes
///
/// By default, `isUniformBlockSize` is set to 1, indicating that the block
/// size and sector sizes are equal. Using [`Extras::block_size`] clears this
/// field and allows you to differentiate the block size from the sector
/// size.
#[derive(Clone, Copy)]
pub struct ConfigurationBlock {
    pub(crate) mem_cfg: flexspi::ConfigurationBlock,
    pub(crate) page_size: u32,
    pub(crate) sector_size: u32,
    pub(crate) ip_cmd_serial_clk_freq: Option<IpSerialClockFrequency>,
    pub(crate) extras: Extras,
}

impl View for ConfigurationBlock {
    type V = NorView;

    open(crate) spec fn view(&self) -> NorView {
        NorView {
            mem_cfg: self.mem_cfg@,
            page_size: self.page_size,
            sector_size: self.sector_size,
            ip_cmd_serial_clk_freq: self.ip_cmd_serial_clk_freq,
            extras: self.extras@,
        }
    }
}

impl ConfigurationBlock {
    /// Create a new serial NOR configuration block based on the FlexSPI
    /// configuration block.
    ///
    /// The embedded FlexSPI block's device type is forced to the serial NOR
    /// code, 1, regardless of what the caller set.
    pub fn new(imxrt: Imxrt, mem_cfg: flexspi::ConfigurationBlock) -> (r: Self)
        ensures
            r@.mem_cfg == (FcbView { device_type: 1, ..mem_cfg@ }),
            r@.page_size == 0,
            r@.sector_size == 0,
            r@.ip_cmd_serial_clk_freq is None,
            r@.extras == (ExtrasView {
                is_uniform_block_size: if spec_has_extras(imxrt) {
                    1u8
                } else {
                    0u8
                },
                is_data_order_swapped: 0,
                block_size: 0,
                flash_state_ctx: 0,
            }),
    {
        let mut mem_cfg = mem_cfg;
        mem_cfg.device_type = 1;
        ConfigurationBlock {
            mem_cfg,
            page_size: 0,
            sector_size: 0,
            ip_cmd_serial_clk_freq: None,
            extras: extras(imxrt),
        }
    }

    /// Set the serial NOR page size.
    pub fn page_size(self, page_size: u32) -> (r: Self)
        ensures
            r@ == (NorView { page_size, ..self@ }),
    {
        let mut block = self;
        block.page_size = page_size;
        block
    }

    /// Set the serial NOR sector size.
    pub fn sector_size(self, sector_size: u32) -> (r: Self)
        ensures
            r@ == (NorView { sector_size, ..self@ }),
    {
        let mut block = self;
        block.sector_size = sector_size;
        block
    }

    /// Set the serial clock frequency for IP access.
    ///
    /// Use `None` to indicate no change from the default frequency.
    pub fn ip_cmd_serial_clk_freq(
        self,
        serial_clock_frequency: Option<IpSerialClockFrequency>,
    ) -> (r: Self)
        ensures
            r@ == (NorView { ip_cmd_serial_clk_freq: serial_clock_frequency, ..self@ }),
    {
        let mut block = self;
        block.ip_cmd_serial_clk_freq = serial_clock_frequency;
        block
    }

    /// Return the extra configurations that are available on the "bigger"
    /// parts, or `None` on a family without them.
    ///
    /// Change the copy with [`Extras::block_size`], then store it back with
    /// [`ConfigurationBlock::set_extras`].
    pub fn extras(&self, imxrt: Imxrt) -> (r: Option<Extras>)
        ensures
            spec_has_extras(imxrt) ==> (r matches Some(e) && e@ == self@.extras),
            !spec_has_extras(imxrt) ==> r is None,
    {
        if has_extras(imxrt) {
            Some(self.extras)
        } else {
            None
        }
    }

    /// Store an extras tail, on a family that has one.
    ///
    /// On a family without the extras fields nothing changes and the result
    /// is `false`.
    pub fn set_extras(&mut self, imxrt: Imxrt, extras: Extras) -> (r: bool)
        ensures
            r == spec_has_extras(imxrt),
            spec_has_extras(imxrt) ==> final(self)@ == (NorView {
                extras: extras@,
                ..old(self)@
            }),
            !spec_has_extras(imxrt) ==> *final(self) == *old(self),
    {
        if has_extras(imxrt) {
            self.extras = extras;
            true
        } else {
            false
        }
    }

    /// Byte `i` of the serialized configuration block.
    pub fn byte_at(&self, i: usize) -> (b: u8)
        requires
            i < NOR_CONFIGURATION_BLOCK_SIZE,
        ensures
            b == nor_byte(self@, i as int),
    {
        if i < FLEXSPI_CONFIGURATION_BLOCK_SIZE {
            self.mem_cfg.byte_at(i)
        } else if i < 0x1C4 {
            u32_le_byte_at(self.page_size, i - 0x1C0)
        } else if i < 0x1C8 {
            u32_le_byte_at(self.sector_size, i - 0x1C4)
        } else if i == 0x1C8 {
            match self.ip_cmd_serial_clk_freq {
                Some(freq) => freq.get(),
                None => 0,
            }
        } else if i == 0x1C9 {
            self.extras.is_uniform_block_size
        } else if i == 0x1CA {
            self.extras.is_data_order_swapped
        } else if 0x1D0 <= i && i < 0x1D4 {
            u32_le_byte_at(self.extras.block_size, i - 0x1D0)
        } else if 0x1D4 <= i && i < 0x1D8 {
            u32_le_byte_at(self.extras.flash_state_ctx, i - 0x1D4)
        } else {
            0
        }
    }

    /// Serialize the configuration block.
    ///
    /// The result is always exactly 512 bytes, for every chip family and
    /// whether or not any optional field was set: every field at its fixed
    /// offset per [`nor_byte`], and zero in every reserved position.
    pub fn to_bytes(&self) -> (r: Vec<u8>)
        ensures
            r@ == nor_bytes(self@),
            r@.len() == NOR_CONFIGURATION_BLOCK_SIZE,
    {
        let mut r: Vec<u8> = Vec::new();
        let mut i: usize = 0;
        while i < NOR_CONFIGURATION_BLOCK_SIZE
            invariant
                i <= NOR_CONFIGURATION_BLOCK_SIZE,
                r@.len() == i,
                forall|k: int| 0 <= k < i ==> r@[k] == nor_byte(self@, k),
            decreases NOR_CONFIGURATION_BLOCK_SIZE - i,
        {
            let b = self.byte_at(i);
            r.push(b);
            i += 1;
        }
        proof {
            assert(r@ =~= nor_bytes(self@));
        }
        r
    }
}

} // verus!
