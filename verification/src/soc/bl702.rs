//! BL702/704/706 single-core BLE, Zigbee 3.0 IoT system-on-chip.
//!
//! The boot ROM reads a fixed-layout header from the image. Its clock section
//! is sealed by a magic number and by the CRC-32 of the eight configuration
//! bytes.

use vstd::prelude::*;

verus! {

/// Magic number that opens the clock section of the boot header.
pub const PLL_CONFIG_MAGIC: u32 = 0x47464350;

/// Miscellaneous image flags.
pub const BASIC_CONFIG_FLAGS: u32 = 0x00000310;

/// The CRC-32/ISO-HDLC checksum of a byte string.
pub uninterp spec fn crc32_iso_hdlc(bytes: Seq<u8>) -> u32;

/// Calls `crc::Crc::<u32>::checksum` with the catalogued algorithm
/// `CRC_32_ISO_HDLC`. The claim is that the result is the checksum of exactly
/// the bytes passed in: the algorithm starts from its fixed initial value and
/// reads nothing but the slice.
#[verifier::external_body]
fn checksum_iso_hdlc(bytes: &[u8]) -> (sum: u32)
    ensures
        sum == crc32_iso_hdlc(bytes@),
{
    crc::Crc::<u32>::new(&crc::CRC_32_ISO_HDLC).checksum(bytes)
}

/// The bytes of a word in the order of the header: least significant first.
pub open spec fn le_bytes(word: u32) -> Seq<u8> {
    seq![
        (word & 0xff) as u8,
        ((word >> 8) & 0xff) as u8,
        ((word >> 16) & 0xff) as u8,
        ((word >> 24) & 0xff) as u8,
    ]
}

/// Lays a word out as the header stores it.
pub fn word_bytes(word: u32) -> (buf: [u8; 4])
    ensures
        buf@ == le_bytes(word),
{
    let buf: [u8; 4] = [
        (word & 0xff) as u8,
        ((word >> 8) & 0xff) as u8,
        ((word >> 16) & 0xff) as u8,
        ((word >> 24) & 0xff) as u8,
    ];
    assert(buf@ =~= le_bytes(word));
    buf
}

/// Copies `src` into `buf` from the offset `at` on; the bytes before and
/// after stay.
fn put_bytes<const K: usize, const L: usize>(buf: &mut [u8; K], at: usize, src: &[u8; L])
    requires
        at + L <= K,
    ensures
        final(buf)@ == old(buf)@.subrange(0, at as int) + src@ + old(buf)@.subrange(
            at + L,
            K as int,
        ),
{
    let ghost start = buf@;
    let mut i: usize = 0;
    while i < L
        invariant
            i <= L,
            at + L <= K,
            buf@.len() == K,
            start.len() == K,
            src@.len() == L,
            forall|j: int|
                0 <= j < K ==> buf@[j] == if at <= j < at + i {
                    src@[j - at]
                } else {
                    start[j]
                },
        decreases L - i,
    {
        buf[at + i] = src[i];
        i += 1;
    }
    assert(buf@ =~= start.subrange(0, at as int) + src@ + start.subrange(at + L, K as int));
}

/// Flash configuration section of the boot header.
#[derive(Clone, Copy, Debug, PartialEq, Eq)]
pub struct HalFlashConfig {
    pub magic: u32,
    pub cfg: [u8; 84],
    pub crc32: u32,
}

impl HalFlashConfig {
    /// The 92 bytes of this section in the order of the header.
    pub open spec fn bytes(self) -> Seq<u8> {
        le_bytes(self.magic) + self.cfg@ + le_bytes(self.crc32)
    }

    /// Lays the section out as the header stores it.
    pub fn to_bytes(&self) -> (buf: [u8; 92])
        ensures
            buf@ == self.bytes(),
    {
        let mut buf: [u8; 92] = [0; 92];
        put_bytes(&mut buf, 0, &word_bytes(self.magic));
        put_bytes(&mut buf, 4, &self.cfg);
        put_bytes(&mut buf, 88, &word_bytes(self.crc32));
        assert(buf@ =~= self.bytes());
        buf
    }
}

/// Full ROM bootloading header.
#[derive(Clone, Copy, Debug, PartialEq, Eq)]
pub struct HalBootheader {
    pub magic: u32,
    pub revision: u32,
    pub flash_cfg: HalFlashConfig,
    pub clk_cfg: HalPllConfig,
    pub basic_cfg: HalBasicConfig,
    pub _reserved: [u32; 2],
    pub crc32: u32,
}

impl HalBootheader {
    /// The 176 bytes of the header: magic number at offset 0x00, revision at
    /// 0x04, flash section at 0x08, clock section at 0x64, basic section at
    /// 0x74, two reserved words at 0xa4 and the checksum at 0xac.
    pub open spec fn bytes(self) -> Seq<u8> {
        le_bytes(self.magic) + le_bytes(self.revision) + self.flash_cfg.bytes()
            + self.clk_cfg.bytes() + self.basic_cfg.bytes() + le_bytes(self._reserved@[0])
            + le_bytes(self._reserved@[1]) + le_bytes(self.crc32)
    }

    /// Lays the header out as the boot ROM reads it.
    pub fn to_bytes(&self) -> (buf: [u8; 176])
        ensures
            buf@ == self.bytes(),
            buf@.subrange(0x00, 0x04) == le_bytes(self.magic),
            buf@.subrange(0x04, 0x08) == le_bytes(self.revision),
            buf@.subrange(0x08, 0x64) == self.flash_cfg.bytes(),
            buf@.subrange(0x64, 0x74) == self.clk_cfg.bytes(),
            buf@.subrange(0x74, 0xa4) == self.basic_cfg.bytes(),
            buf@.subrange(0xac, 0xb0) == le_bytes(self.crc32),
    {
        let mut buf: [u8; 176] = [0; 176];
        put_bytes(&mut buf, 0x00, &word_bytes(self.magic));
        put_bytes(&mut buf, 0x04, &word_bytes(self.revision));
        put_bytes(&mut buf, 0x08, &self.flash_cfg.to_bytes());
        put_bytes(&mut buf, 0x64, &self.clk_cfg.to_bytes());
        put_bytes(&mut buf, 0x74, &self.basic_cfg.to_bytes());
        put_bytes(&mut buf, 0xa4, &word_bytes(self._reserved[0]));
        put_bytes(&mut buf, 0xa8, &word_bytes(self._reserved[1]));
        put_bytes(&mut buf, 0xac, &word_bytes(self.crc32));
        assert(buf@ =~= self.bytes());
        assert(buf@.subrange(0x00, 0x04) =~= le_bytes(self.magic));
        assert(buf@.subrange(0x04, 0x08) =~= le_bytes(self.revision));
        assert(buf@.subrange(0x08, 0x64) =~= self.flash_cfg.bytes());
        assert(buf@.subrange(0x64, 0x74) =~= self.clk_cfg.bytes());
        assert(buf@.subrange(0x74, 0xa4) =~= self.basic_cfg.bytes());
        assert(buf@.subrange(0xac, 0xb0) =~= le_bytes(self.crc32));
        buf
    }
}

/// Hardware system clock configuration.
#[derive(Clone, Copy, Debug, PartialEq, Eq)]
pub struct HalSysClkConfig {
    pub xtal_type: u8,
    pub pll_clk: u8,
    pub hclk_div: u8,
    pub bclk_div: u8,
    pub flash_clk_type: u8,
    pub flash_clk_div: u8,
    pub _reserved: [u8; 2],
}

impl HalSysClkConfig {
    /// The eight bytes of this record in the order of the header.
    pub open spec fn bytes(self) -> Seq<u8> {
        seq![
            self.xtal_type,
            self.pll_clk,
            self.hclk_div,
            self.bclk_div,
            self.flash_clk_type,
            self.flash_clk_div,
            self._reserved@[0],
            self._reserved@[1],
        ]
    }

    /// Lays the record out as the header stores it.
    pub fn to_bytes(&self) -> (buf: [u8; 8])
        ensures
            buf@ == self.bytes(),
    {
        let buf: [u8; 8] = [
            self.xtal_type,
            self.pll_clk,
            self.hclk_div,
            self.bclk_div,
            self.flash_clk_type,
            self.flash_clk_div,
            self._reserved[0],
            self._reserved[1],
        ];
        assert(buf@ =~= self.bytes());
        buf
    }

    /// The checksum that seals this record: the CRC-32/ISO-HDLC of its eight
    /// bytes.
    pub fn crc32(&self) -> (sum: u32)
        ensures
            sum == crc32_iso_hdlc(self.bytes()),
    {
        let buf: [u8; 8] = self.to_bytes();
        checksum_iso_hdlc(buf.as_slice())
    }
}

/// Clock configuration in ROM header.
#[derive(Clone, Copy, Debug, PartialEq, Eq)]
pub struct HalPllConfig {
    pub magic: u32,
    pub cfg: HalSysClkConfig,
    pub crc32: u32,
}

impl HalPllConfig {
    /// The section is one that the boot ROM accepts: it opens with the magic
    /// number and its checksum is that of its configuration.
    pub open spec fn sealed(self) -> bool {
        &&& self.magic == PLL_CONFIG_MAGIC
        &&& self.crc32 == crc32_iso_hdlc(self.cfg.bytes())
    }

    /// The sixteen bytes of this section in the order of the header: the
    /// magic number at offset 0, the configuration at offset 4, the checksum
    /// at offset 12.
    pub open spec fn bytes(self) -> Seq<u8> {
        le_bytes(self.magic) + self.cfg.bytes() + le_bytes(self.crc32)
    }

    /// Lays the section out as the header stores it.
    pub fn to_bytes(&self) -> (buf: [u8; 16])
        ensures
            buf@ == self.bytes(),
            buf@.subrange(0, 4) == le_bytes(self.magic),
            buf@.subrange(4, 12) == self.cfg.bytes(),
            buf@.subrange(12, 16) == le_bytes(self.crc32),
    {
        let magic: u32 = self.magic;
        let sum: u32 = self.crc32;
        let cfg: [u8; 8] = self.cfg.to_bytes();
        let buf: [u8; 16] = [
            (magic & 0xff) as u8,
            ((magic >> 8) & 0xff) as u8,
            ((magic >> 16) & 0xff) as u8,
            ((magic >> 24) & 0xff) as u8,
            cfg[0],
            cfg[1],
            cfg[2],
            cfg[3],
            cfg[4],
            cfg[5],
            cfg[6],
            cfg[7],
            (sum & 0xff) as u8,
            ((sum >> 8) & 0xff) as u8,
            ((sum >> 16) & 0xff) as u8,
            ((sum >> 24) & 0xff) as u8,
        ];
        assert(buf@ =~= self.bytes());
        assert(buf@.subrange(0, 4) =~= le_bytes(self.magic));
        assert(buf@.subrange(4, 12) =~= self.cfg.bytes());
        assert(buf@.subrange(12, 16) =~= le_bytes(self.crc32));
        buf
    }

    /// Create this structure with magic number and CRC32 filled in.
    pub fn new(cfg: HalSysClkConfig) -> (pll: Self)
        ensures
            pll.cfg == cfg,
            pll.magic == PLL_CONFIG_MAGIC,
            pll.crc32 == crc32_iso_hdlc(cfg.bytes()),
            pll.sealed(),
    {
        let crc32: u32 = cfg.crc32();
        HalPllConfig::with_checksum(cfg, crc32)
    }

    /// Create this structure from a configuration and a checksum computed
    /// elsewhere; the magic number is filled in.
    pub fn with_checksum(cfg: HalSysClkConfig, crc32: u32) -> (pll: Self)
        ensures
            pll == (HalPllConfig { magic: PLL_CONFIG_MAGIC, cfg, crc32 }),
            pll.sealed() <==> crc32 == crc32_iso_hdlc(cfg.bytes()),
    {
        HalPllConfig { magic: PLL_CONFIG_MAGIC, cfg, crc32 }
    }
}

/// The clock configuration that images for this chip carry: 32 MHz crystal,
/// PLL at 144 MHz, bus clock divided by two, flash clocked from the PLL.
pub fn clock_config() -> (pll: HalPllConfig)
    ensures
        pll.sealed(),
        pll.cfg == (HalSysClkConfig {
            xtal_type: 0x1,
            pll_clk: 0x4,
            hclk_div: 0,
            bclk_div: 0x1,
            flash_clk_type: 0x1,
            flash_clk_div: 0,
            _reserved: [0u8, 0u8],
        }),
{
    HalPllConfig::new(
        HalSysClkConfig {
            xtal_type: 0x1,
            pll_clk: 0x4,
            hclk_div: 0,
            bclk_div: 0x1,
            flash_clk_type: 0x1,
            flash_clk_div: 0,
            _reserved: [0, 0],
        },
    )
}

/// Clock frequencies of the running chip.
#[derive(Clone, Copy, Debug, PartialEq, Eq)]
pub struct Clocks {
    /// Frequency of the crystal oscillator in hertz.
    pub xtal: u32,
}

/// The clock frequencies of a chip that runs from a crystal of the given
/// frequency, in hertz.
#[inline(always)]
pub fn __new_clocks(xtal_hz: u32) -> (clocks: Clocks)
    ensures
        clocks == (Clocks { xtal: xtal_hz }),
{
    Clocks { xtal: xtal_hz }
}

/// Basic image section of the boot header.
#[derive(Clone, Copy, Debug, PartialEq, Eq)]
pub struct HalBasicConfig {
    /// Flags 4bytes
    ///
    /// 2bits  for sign
    /// 2bits  for encrypt
    /// 2bits  for key slot
    /// 2bits  for rsvd
    /// 1bit   for no segment info
    /// 1bit   for cache enable
    /// 1bit   for notload in bootrom
    /// 1bit   for aes region lock
    /// 4bits  for cache way disable
    /// 1bit   for ignore crc
    /// 1bit   for hash ignore
    /// 1bit   for halt cpu1
    /// 13bits for rsvd
    pub flag: u32,
    /// Image length or segment count.
    pub img_len_cnt: u32,
    /// Entry point of the image.
    pub boot_entry: u32,
    /// Ram address or flash offset of the image.
    pub img_start: u32,
    /// Hash of the image.
    pub hash: [u32; 8],
}

impl HalBasicConfig {
    /// The 48 bytes of this section in the order of the header.
    pub open spec fn bytes(self) -> Seq<u8> {
        le_bytes(self.flag) + le_bytes(self.img_len_cnt) + le_bytes(self.boot_entry) + le_bytes(
            self.img_start,
        ) + le_bytes(self.hash@[0]) + le_bytes(self.hash@[1]) + le_bytes(self.hash@[2]) + le_bytes(
            self.hash@[3],
        ) + le_bytes(self.hash@[4]) + le_bytes(self.hash@[5]) + le_bytes(self.hash@[6]) + le_bytes(
            self.hash@[7],
        )
    }

    /// Lays the section out as the header stores it.
    pub fn to_bytes(&self) -> (buf: [u8; 48])
        ensures
            buf@ == self.bytes(),
    {
        let mut buf: [u8; 48] = [0; 48];
        put_bytes(&mut buf, 0, &word_bytes(self.flag));
        put_bytes(&mut buf, 4, &word_bytes(self.img_len_cnt));
        put_bytes(&mut buf, 8, &word_bytes(self.boot_entry));
        put_bytes(&mut buf, 12, &word_bytes(self.img_start));
        put_bytes(&mut buf, 16, &word_bytes(self.hash[0]));
        put_bytes(&mut buf, 20, &word_bytes(self.hash[1]));
        put_bytes(&mut buf, 24, &word_bytes(self.hash[2]));
        put_bytes(&mut buf, 28, &word_bytes(self.hash[3]));
        put_bytes(&mut buf, 32, &word_bytes(self.hash[4]));
        put_bytes(&mut buf, 36, &word_bytes(self.hash[5]));
        put_bytes(&mut buf, 40, &word_bytes(self.hash[6]));
        put_bytes(&mut buf, 44, &word_bytes(self.hash[7]));
        assert(buf@ =~= self.bytes());
        buf
    }
}

} // verus!
