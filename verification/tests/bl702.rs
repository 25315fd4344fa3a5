use core::mem::size_of;

use bouffalo_hal::soc::bl702::{
    __new_clocks, clock_config, word_bytes, Clocks, HalBasicConfig, HalBootheader, HalFlashConfig,
    HalPllConfig, HalSysClkConfig,
    BASIC_CONFIG_FLAGS, PLL_CONFIG_MAGIC,
};

fn sample_config() -> HalSysClkConfig {
    HalSysClkConfig {
        xtal_type: 0x1,
        pll_clk: 0x4,
        hclk_div: 0,
        bclk_div: 0x1,
        flash_clk_type: 0x1,
        flash_clk_div: 0,
        _reserved: [0, 0],
    }
}

#[test]
fn struct_lengths() {
    assert_eq!(size_of::<HalPllConfig>(), 0x10);
    assert_eq!(size_of::<HalBootheader>(), 0xB0);
    assert_eq!(size_of::<HalBasicConfig>(), 0x30);
}

#[test]
fn magic_crc32_hal_pll_config() {
    let test_sys_clk_config = HalSysClkConfig {
        xtal_type: 0x1,
        pll_clk: 0x4,
        hclk_div: 0,
        bclk_div: 0x1,
        flash_clk_type: 0x1,
        flash_clk_div: 0,
        _reserved: [0, 0],
    };
    let test_config = HalPllConfig::new(test_sys_clk_config);
    assert_eq!(test_config.magic, 0x47464350);
    assert_eq!(test_config.crc32, 0xD81BB531);
}

#[test]
fn struct_hal_sys_clk_config_offset() {
    let config = HalSysClkConfig {
        xtal_type: 0x10,
        pll_clk: 0x11,
        hclk_div: 0x12,
        bclk_div: 0x13,
        flash_clk_type: 0x14,
        flash_clk_div: 0x15,
        _reserved: [0x16, 0x17],
    };
    let bytes = config.to_bytes();
    assert_eq!(bytes[0x00], config.xtal_type);
    assert_eq!(bytes[0x01], config.pll_clk);
    assert_eq!(bytes[0x02], config.hclk_div);
    assert_eq!(bytes[0x03], config.bclk_div);
    assert_eq!(bytes[0x04], config.flash_clk_type);
    assert_eq!(bytes[0x05], config.flash_clk_div);
    assert_eq!(bytes[0x06], config._reserved[0]);
    assert_eq!(bytes[0x07], config._reserved[1]);
}

#[test]
fn sys_clk_config_bytes_in_header_order() {
    assert_eq!(sample_config().to_bytes(), [1, 4, 0, 1, 1, 0, 0, 0]);
}

#[test]
fn sys_clk_config_crc32_is_that_of_its_bytes() {
    assert_eq!(sample_config().crc32(), 0xD81BB531);
    let zero = HalSysClkConfig {
        xtal_type: 0,
        pll_clk: 0,
        hclk_div: 0,
        bclk_div: 0,
        flash_clk_type: 0,
        flash_clk_div: 0,
        _reserved: [0, 0],
    };
    // CRC-32/ISO-HDLC of eight zero bytes.
    assert_eq!(zero.crc32(), 0x6522DF69);
    assert_ne!(zero.crc32(), sample_config().crc32());
}

#[test]
fn crc32_depends_on_every_byte() {
    let base = sample_config();
    let mut other = base;
    other._reserved = [0, 1];
    assert_ne!(base.crc32(), other.crc32());
    let mut other = base;
    other.xtal_type = 0;
    assert_ne!(base.crc32(), other.crc32());
}

#[test]
fn with_checksum_keeps_what_it_is_given() {
    let pll = HalPllConfig::with_checksum(sample_config(), 0x1234_5678);
    assert_eq!(pll.magic, PLL_CONFIG_MAGIC);
    assert_eq!(pll.cfg, sample_config());
    assert_eq!(pll.crc32, 0x1234_5678);
}

#[test]
fn new_keeps_the_configuration() {
    let pll = HalPllConfig::new(sample_config());
    assert_eq!(pll.cfg, sample_config());
    assert_eq!(pll, HalPllConfig::with_checksum(sample_config(), 0xD81BB531));
}

#[test]
fn clock_config_is_sealed() {
    let pll = clock_config();
    assert_eq!(pll.magic, 0x47464350);
    assert_eq!(pll.cfg, sample_config());
    assert_eq!(pll.crc32, 0xD81BB531);
    assert_eq!(BASIC_CONFIG_FLAGS, 0x0000_0310);
}

#[test]
fn struct_hal_pll_config_offset() {
    let config = HalPllConfig::with_checksum(sample_config(), 0xA1B2_C3D4);
    let bytes = config.to_bytes();
    assert_eq!(bytes.len(), 0x10);
    assert_eq!(bytes[0x00..0x04], config.magic.to_le_bytes());
    assert_eq!(bytes[0x04..0x0c], config.cfg.to_bytes());
    assert_eq!(bytes[0x0c..0x10], config.crc32.to_le_bytes());
}

#[test]
fn pll_config_bytes_of_the_stock_configuration() {
    assert_eq!(
        clock_config().to_bytes(),
        [0x50, 0x43, 0x46, 0x47, 1, 4, 0, 1, 1, 0, 0, 0, 0x31, 0xB5, 0x1B, 0xD8]
    );
}

#[test]
fn new_clocks_keeps_the_crystal_frequency() {
    assert_eq!(__new_clocks(32_000_000), Clocks { xtal: 32_000_000 });
    assert_eq!(__new_clocks(0).xtal, 0);
    assert_eq!(__new_clocks(u32::MAX).xtal, u32::MAX);
}

fn sample_header() -> HalBootheader {
    let mut flash = [0u8; 84];
    for (i, byte) in flash.iter_mut().enumerate() {
        *byte = 0x80 + i as u8;
    }
    HalBootheader {
        magic: 0x504E_4642,
        revision: 0x0000_0001,
        flash_cfg: HalFlashConfig { magic: 0x4746_4346, cfg: flash, crc32: 0x0102_0304 },
        clk_cfg: clock_config(),
        basic_cfg: HalBasicConfig {
            flag: BASIC_CONFIG_FLAGS,
            img_len_cnt: 0x0001_0000,
            boot_entry: 0x2300_0000,
            img_start: 0x0000_2000,
            hash: [0xdead_beef, 1, 2, 3, 4, 5, 6, 0x7777_7777],
        },
        _reserved: [0x1111_1111, 0x2222_2222],
        crc32: 0xCAFE_F00D,
    }
}

#[test]
fn struct_hal_bootheader_offset() {
    let header = sample_header();
    let bytes = header.to_bytes();
    assert_eq!(bytes.len(), 0xB0);
    assert_eq!(bytes[0x00..0x04], header.magic.to_le_bytes());
    assert_eq!(bytes[0x04..0x08], header.revision.to_le_bytes());
    assert_eq!(bytes[0x08..0x64], header.flash_cfg.to_bytes());
    assert_eq!(bytes[0x64..0x74], header.clk_cfg.to_bytes());
    assert_eq!(bytes[0x74..0xa4], header.basic_cfg.to_bytes());
    assert_eq!(bytes[0xa4..0xa8], [0x11, 0x11, 0x11, 0x11]);
    assert_eq!(bytes[0xa8..0xac], [0x22, 0x22, 0x22, 0x22]);
    assert_eq!(bytes[0xac..0xb0], header.crc32.to_le_bytes());
}

#[test]
fn word_bytes_are_little_endian() {
    assert_eq!(word_bytes(0x4746_4350), [0x50, 0x43, 0x46, 0x47]);
    assert_eq!(word_bytes(0), [0, 0, 0, 0]);
    assert_eq!(word_bytes(0xFF00_0001), [0x01, 0x00, 0x00, 0xFF]);
}

#[test]
fn flash_section_bytes() {
    let header = sample_header();
    let bytes = header.flash_cfg.to_bytes();
    assert_eq!(bytes.len(), 92);
    assert_eq!(bytes[0..4], [0x46, 0x43, 0x46, 0x47]);
    assert_eq!(bytes[4..88], header.flash_cfg.cfg);
    assert_eq!(bytes[4], 0x80);
    assert_eq!(bytes[87], 0x80 + 83);
    assert_eq!(bytes[88..92], [0x04, 0x03, 0x02, 0x01]);
}

#[test]
fn basic_section_bytes() {
    let bytes = sample_header().basic_cfg.to_bytes();
    assert_eq!(bytes.len(), 0x30);
    assert_eq!(bytes[0..4], [0x10, 0x03, 0x00, 0x00]);
    assert_eq!(bytes[4..8], [0x00, 0x00, 0x01, 0x00]);
    assert_eq!(bytes[8..12], [0x00, 0x00, 0x00, 0x23]);
    assert_eq!(bytes[12..16], [0x00, 0x20, 0x00, 0x00]);
    assert_eq!(bytes[16..20], [0xef, 0xbe, 0xad, 0xde]);
    assert_eq!(bytes[20..24], [1, 0, 0, 0]);
    assert_eq!(bytes[40..44], [6, 0, 0, 0]);
    assert_eq!(bytes[44..48], [0x77, 0x77, 0x77, 0x77]);
}
