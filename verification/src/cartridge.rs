//! The cartridge-header decoder: parses the fixed-offset metadata block of a
//! ROM image, computes the header checksum with the console's byte-wise
//! modulo-256 convolution, and classifies cartridge type, license and
//! destination from closed lookup tables with an "Unknown" fallback.

use vstd::arithmetic::div_mod::lemma_mod_add_multiples_vanish;
use vstd::arithmetic::power2::lemma2_to64;
use vstd::arithmetic::power2::pow2;
use vstd::prelude::*;

verus! {

/// Why a ROM image or a field of it is rejected.
#[derive(Clone, Copy, Debug, PartialEq, Eq, Structural)]
pub enum ParseError {
    /// The image is shorter than the 32 KiB header-bearing window.
    TooShort,
    /// The title field is not valid ASCII text.
    InvalidEncoding,
}

/// One step of the header-checksum recurrence: `acc - d - 1` under modulo-256
/// (8-bit wraparound) subtraction.
pub open spec fn checksum_step(acc: u8, d: u8) -> u8 {
    if acc - d - 1 >= 0 {
        (acc - d - 1) as u8
    } else {
        (acc - d - 1 + 256) as u8
    }
}

/// Folds the checksum recurrence over `data`, starting from `acc`.
pub open spec fn checksum_from(acc: u8, data: Seq<u8>) -> u8
    decreases data.len(),
{
    if data.len() == 0 {
        acc
    } else {
        checksum_from(checksum_step(acc, data[0]), data.drop_first())
    }
}

/// The header checksum of a ROM image: the recurrence folded over the bytes
/// at offsets `[0x134, 0x14C]`, starting from 0.
pub open spec fn header_checksum_of(rom: Seq<u8>) -> u8 {
    checksum_from(0, rom.subrange(0x134, 0x14D))
}

/// ASCII bytes read as the characters with the same code points.
pub open spec fn ascii_text(s: Seq<u8>) -> Seq<char> {
    s.map_values(|b: u8| b as char)
}

/// The length of the text in a NUL-padded field: the bytes before the first
/// zero byte.
pub open spec fn text_len(s: Seq<u8>) -> int
    decreases s.len(),
{
    if s.len() == 0 {
        0
    } else if s[0] == 0 {
        0
    } else {
        1 + text_len(s.drop_first())
    }
}

/// The destination/region label for a destination code.
pub open spec fn destination_label(code: u8) -> Seq<char> {
    match code {
        0 => "Japan"@,
        1 => "World"@,
        _ => "Unknown"@,
    }
}

/// The RAM size in bytes declared by a RAM-size code; unrecognized codes
/// mean no RAM.
pub open spec fn ram_size_of(code: u8) -> int {
    match code {
        0 => 0,
        1 => 0,
        2 => 8_000,
        3 => 32_000,
        4 => 128_000,
        5 => 64_000,
        _ => 0,
    }
}

/// The memory-controller label for a cartridge-type code.
pub open spec fn cartridge_type_label(code: u8) -> Seq<char> {
    match code {
        0x00 => "ROM ONLY"@,
        0x01 => "MBC1"@,
        0x02 => "MBC1+RAM"@,
        0x03 => "MBC1+RAM+BATTERY"@,
        0x05 => "MBC2"@,
        0x06 => "MBC2+BATTERY"@,
        0x08 => "ROM+RAM 11"@,
        0x09 => "ROM+RAM+BATTERY 11"@,
        0x0B => "MMM01"@,
        0x0C => "MMM01+RAM"@,
        0x0D => "MMM01+RAM+BATTERY"@,
        0x0F => "MBC3+TIMER+BATTERY"@,
        0x10 => "MBC3+TIMER+RAM+BATTERY 12"@,
        0x11 => "MBC3"@,
        0x12 => "MBC3+RAM 12"@,
        0x13 => "MBC3+RAM+BATTERY 12"@,
        0x19 => "MBC5"@,
        0x1A => "MBC5+RAM"@,
        0x1B => "MBC5+RAM+BATTERY"@,
        0x1C => "MBC5+RUMBLE"@,
        0x1D => "MBC5+RUMBLE+RAM"@,
        0x1E => "MBC5+RUMBLE+RAM+BATTERY"@,
        0x20 => "MBC6"@,
        0x22 => "MBC7+SENSOR+RUMBLE+RAM+BATTERY"@,
        0xFC => "POCKET CAMERA"@,
        0xFD => "BANDAI TAMA5"@,
        0xFE => "HuC3"@,
        0xFF => "HuC1+RAM+BATTERY"@,
        _ => "Unknown"@,
    }
}

/// The publisher label for a two-character new-license code.
pub open spec fn new_license_label(a: u8, b: u8) -> Seq<char> {
    match (a, b) {
        (0x30, 0x30) => "None"@,
        (0x30, 0x31) => "Nintendo Research & Development 1"@,
        (0x30, 0x38) => "Capcom"@,
        (0x31, 0x33) => "EA (Electronic Arts)"@,
        (0x31, 0x38) => "Hudson Soft"@,
        (0x31, 0x39) => "B-AI"@,
        (0x32, 0x30) => "KSS"@,
        (0x32, 0x32) => "Planning Office WADA"@,
        (0x32, 0x34) => "PCM Complete"@,
        (0x32, 0x35) => "San-X"@,
        (0x32, 0x38) => "Kemco"@,
        (0x32, 0x39) => "SETA Corporation"@,
        (0x33, 0x30) => "Viacom"@,
        (0x33, 0x31) => "Nintendo"@,
        (0x33, 0x32) => "Bandai"@,
        (0x33, 0x33) => "Ocean Software/Acclaim Entertainment"@,
        (0x33, 0x34) => "Konami"@,
        (0x33, 0x35) => "HectorSoft"@,
        (0x33, 0x37) => "Taito"@,
        (0x33, 0x38) => "Hudson Soft"@,
        (0x33, 0x39) => "Banpresto"@,
        (0x34, 0x31) => "Ubi Soft1"@,
        (0x34, 0x32) => "Atlus"@,
        (0x34, 0x34) => "Malibu Interactive"@,
        (0x34, 0x36) => "Angel"@,
        (0x34, 0x37) => "Bullet-Proof Software2"@,
        (0x34, 0x39) => "Irem"@,
        (0x35, 0x30) => "Absolute"@,
        (0x35, 0x31) => "Acclaim Entertainment"@,
        (0x35, 0x32) => "Activision"@,
        (0x35, 0x33) => "Sammy USA Corporation"@,
        (0x35, 0x34) => "Konami"@,
        (0x35, 0x35) => "Hi Tech Expressions"@,
        (0x35, 0x36) => "LJN"@,
        (0x35, 0x37) => "Matchbox"@,
        (0x35, 0x38) => "Mattel"@,
        (0x35, 0x39) => "Milton Bradley Company"@,
        (0x36, 0x30) => "Titus Interactive"@,
        (0x36, 0x31) => "Virgin Games Ltd.3"@,
        (0x36, 0x34) => "Lucasfilm Games4"@,
        (0x36, 0x37) => "Ocean Software"@,
        (0x36, 0x39) => "EA (Electronic Arts)"@,
        (0x37, 0x30) => "Infogrames5"@,
        (0x37, 0x31) => "Interplay Entertainment"@,
        (0x37, 0x32) => "Broderbund"@,
        (0x37, 0x33) => "Sculptured Software6"@,
        (0x37, 0x35) => "The Sales Curve Limited7"@,
        (0x37, 0x38) => "THQ"@,
        (0x37, 0x39) => "Accolade8"@,
        (0x38, 0x30) => "Misawa Entertainment"@,
        (0x38, 0x33) => "LOZC G."@,
        (0x38, 0x36) => "Tokuma Shoten"@,
        (0x38, 0x37) => "Tsukuda Original"@,
        (0x39, 0x31) => "Chunsoft Co.9"@,
        (0x39, 0x32) => "Video System"@,
        (0x39, 0x33) => "Ocean Software/Acclaim Entertainment"@,
        (0x39, 0x35) => "Varie"@,
        (0x39, 0x36) => "Yonezawa10/S’Pal"@,
        (0x39, 0x37) => "Kaneko"@,
        (0x39, 0x39) => "Pack-In-Video"@,
        (0x39, 0x48) => "Bottom Up"@,
        (0x41, 0x34) => "Konami (Yu-Gi-Oh!)"@,
        (0x42, 0x4C) => "MTO"@,
        (0x44, 0x4B) => "Kodansha"@,
        _ => "Unknown"@,
    }
}

/// The publisher label for a legacy license code.
pub open spec fn old_license_label(code: u8) -> Seq<char> {
    match code {
        0x00 => "None"@,
        0x01 => "Nintendo"@,
        0x08 => "Capcom"@,
        0x09 => "HOT-B"@,
        0x0A => "Jaleco"@,
        0x0B => "Coconuts Japan"@,
        0x0C => "Elite Systems"@,
        0x13 => "EA (Electronic Arts)"@,
        0x18 => "Hudson Soft"@,
        0x19 => "ITC Entertainment"@,
        0x1A => "Yanoman"@,
        0x1D => "Japan Clary"@,
        0x1F => "Virgin Games Ltd.3"@,
        0x24 => "PCM Complete"@,
        0x25 => "San-X"@,
        0x28 => "Kemco"@,
        0x29 => "SETA Corporation"@,
        0x30 => "Infogrames5"@,
        0x31 => "Nintendo"@,
        0x32 => "Bandai"@,
        0x33 => "New Liscense"@,
        0x34 => "Konami"@,
        0x35 => "HectorSoft"@,
        0x38 => "Capcom"@,
        0x39 => "Banpresto"@,
        0x3C => "Entertainment Interactive (stub)"@,
        0x3E => "Gremlin"@,
        0x41 => "Ubi Soft1"@,
        0x42 => "Atlus"@,
        0x44 => "Malibu Interactive"@,
        0x46 => "Angel"@,
        0x47 => "Spectrum HoloByte"@,
        0x49 => "Irem"@,
        0x4A => "Virgin Games Ltd.3"@,
        0x4D => "Malibu Interactive"@,
        0x4F => "U.S. Gold"@,
        0x50 => "Absolute"@,
        0x51 => "Acclaim Entertainment"@,
        0x52 => "Activision"@,
        0x53 => "Sammy USA Corporation"@,
        0x54 => "GameTek"@,
        0x55 => "Park Place15"@,
        0x56 => "LJN"@,
        0x57 => "Matchbox"@,
        0x59 => "Milton Bradley Company"@,
        0x5A => "Mindscape"@,
        0x5B => "Romstar"@,
        0x5C => "Naxat Soft16"@,
        0x5D => "Tradewest"@,
        0x60 => "Titus Interactive"@,
        0x61 => "Virgin Games Ltd.3"@,
        0x67 => "Ocean Software"@,
        0x69 => "EA (Electronic Arts)"@,
        0x6E => "Elite Systems"@,
        0x6F => "Electro Brain"@,
        0x70 => "Infogrames5"@,
        0x71 => "Interplay Entertainment"@,
        0x72 => "Broderbund"@,
        0x73 => "Sculptured Software6"@,
        0x75 => "The Sales Curve Limited7"@,
        0x78 => "THQ"@,
        0x79 => "Accolade8"@,
        0x7A => "Triffix Entertainment"@,
        0x7C => "MicroProse"@,
        0x7F => "Kemco"@,
        0x80 => "Misawa Entertainment"@,
        0x83 => "LOZC G."@,
        0x86 => "Tokuma Shoten"@,
        0x8B => "Bullet-Proof Software2"@,
        0x8C => "Vic Tokai Corp.17"@,
        0x8E => "Ape Inc.18"@,
        0x8F => "I’Max19"@,
        0x91 => "Chunsoft Co.9"@,
        0x92 => "Video System"@,
        0x93 => "Tsubaraya Productions"@,
        0x95 => "Varie"@,
        0x96 => "Yonezawa10/S’Pal"@,
        0x97 => "Kemco"@,
        0x99 => "Arc"@,
        0x9A => "Nihon Bussan"@,
        0x9B => "Tecmo"@,
        0x9C => "Imagineer"@,
        0x9D => "Banpresto"@,
        0x9F => "Nova"@,
        0xA1 => "Hori Electric"@,
        0xA2 => "Bandai"@,
        0xA4 => "Konami"@,
        0xA6 => "Kawada"@,
        0xA7 => "Takara"@,
        0xA9 => "Technos Japan"@,
        0xAA => "Broderbund"@,
        0xAC => "Toei Animation"@,
        0xAD => "Toho"@,
        0xAF => "Namco"@,
        0xB0 => "Acclaim Entertainment"@,
        0xB1 => "ASCII Corporation or Nexsoft"@,
        0xB2 => "Bandai"@,
        0xB4 => "Square Enix"@,
        0xB6 => "HAL Laboratory"@,
        0xB7 => "SNK"@,
        0xB9 => "Pony Canyon"@,
        0xBA => "Culture Brain"@,
        0xBB => "Sunsoft"@,
        0xBD => "Sony Imagesoft"@,
        0xBF => "Sammy Corporation"@,
        0xC0 => "Taito"@,
        0xC2 => "Kemco"@,
        0xC3 => "Square"@,
        0xC4 => "Tokuma Shoten"@,
        0xC5 => "Data East"@,
        0xC6 => "Tonkin House"@,
        0xC8 => "Koei"@,
        0xC9 => "UFL"@,
        0xCA => "Ultra Games"@,
        0xCB => "VAP, Inc."@,
        0xCC => "Use Corporation"@,
        0xCD => "Meldac"@,
        0xCE => "Pony Canyon"@,
        0xCF => "Angel"@,
        0xD0 => "Taito"@,
        0xD1 => "SOFEL (Software Engineering Lab)"@,
        0xD2 => "Quest"@,
        0xD3 => "Sigma Enterprises"@,
        0xD4 => "ASK Kodansha Co."@,
        0xD6 => "Naxat Soft16"@,
        0xD7 => "Copya System"@,
        0xD9 => "Banpresto"@,
        0xDA => "Tomy"@,
        0xDB => "LJN"@,
        0xDD => "Nippon Computer Systems"@,
        0xDE => "Human Ent."@,
        0xDF => "Altron"@,
        0xE0 => "Jaleco"@,
        0xE1 => "Towa Chiki"@,
        0xE2 => "Yutaka # Needs more info"@,
        0xE3 => "Varie"@,
        0xE5 => "Epoch"@,
        0xE7 => "Athena"@,
        0xE8 => "Asmik Ace Entertainment"@,
        0xE9 => "Natsume"@,
        0xEA => "King Records"@,
        0xEB => "Atlus"@,
        0xEC => "Epic/Sony Records"@,
        0xEE => "IGS"@,
        0xF0 => "A Wave"@,
        0xF3 => "Extreme Entertainment"@,
        0xFF => "LJN"@,
        _ => "Unknown"@,
    }
}

/// The license label: the sentinel legacy code 0x33 defers to the
/// two-character new-license field; any other legacy code is looked up
/// directly.
pub open spec fn license_label(old_code: u8, a: u8, b: u8) -> Seq<char> {
    if old_code == 0x33 {
        new_license_label(a, b)
    } else {
        old_license_label(old_code)
    }
}

/// The cartridge header: the raw ROM image, a 32 KiB snapshot of its first
/// bytes, and every header field copied verbatim from its fixed offset.
pub struct CartridgeHeader {
    /// Entry-point bytes, offsets `[0x100, 0x103]`.
    pub entry: Vec<u8>,
    /// Logo bitmap, offsets `[0x104, 0x133]`.
    pub logo: Vec<u8>,
    /// Title, offsets `[0x134, 0x143]`: 16 bytes of NUL-padded ASCII.
    pub title: Vec<u8>,
    /// Color-console flag, offset `0x143` (overlaps the title's last byte).
    pub gbc_flags: u8,
    /// Two-character new-license code, offsets `[0x144, 0x145]`.
    pub new_license: Vec<u8>,
    /// Super-console flag, offset `0x146`.
    pub sgb_flag: u8,
    /// Cartridge (memory-controller) type code, offset `0x147`.
    pub rom_type: u8,
    /// ROM-size code, offset `0x148`.
    pub cart_size: u8,
    /// RAM-size code, offset `0x149`.
    pub ram_type: u8,
    /// Destination/region code, offset `0x14A`.
    pub destination: u8,
    /// Legacy license code, offset `0x14B`.
    pub old_license: u8,
    /// Mask-ROM version, offset `0x14C`.
    pub mask_rom_version_number: u8,
    /// Declared header checksum, offset `0x14D`.
    pub header_checksum: u8,
    /// Declared global checksum, offsets `[0x14E, 0x14F]`, little-endian.
    pub global_checksum: u16,
    /// The complete raw ROM image.
    pub data: Vec<u8>,
    /// Snapshot of the first 32 KiB of the image.
    pub rom_0: Vec<u8>,
}

impl CartridgeHeader {
    /// Every field is the verbatim copy of its fixed offsets in the image,
    /// and the image covers the whole 32 KiB header-bearing window.
    pub open spec fn wf(self) -> bool {
        &&& self.data@.len() >= 0x8000
        &&& self.rom_0@ == self.data@.subrange(0, 0x8000)
        &&& self.entry@ == self.data@.subrange(0x100, 0x104)
        &&& self.logo@ == self.data@.subrange(0x104, 0x134)
        &&& self.title@ == self.data@.subrange(0x134, 0x144)
        &&& self.gbc_flags == self.data@[0x143]
        &&& self.new_license@ == self.data@.subrange(0x144, 0x146)
        &&& self.sgb_flag == self.data@[0x146]
        &&& self.rom_type == self.data@[0x147]
        &&& self.cart_size == self.data@[0x148]
        &&& self.ram_type == self.data@[0x149]
        &&& self.destination == self.data@[0x14A]
        &&& self.old_license == self.data@[0x14B]
        &&& self.mask_rom_version_number == self.data@[0x14C]
        &&& self.header_checksum == self.data@[0x14D]
        &&& self.global_checksum == self.data@[0x14F] * 256 + self.data@[0x14E]
    }

    /// The title text: the title bytes before the first NUL pad byte, read
    /// as ASCII characters.
    pub open spec fn spec_title(self) -> Seq<char> {
        ascii_text(self.title@.take(text_len(self.title@)))
    }

    /// The title text is decodable: every byte before the first NUL pad
    /// byte is ASCII.
    pub open spec fn title_valid(self) -> bool {
        forall|j: int| 0 <= j < text_len(self.title@) ==> self.title@[j] < 0x80
    }

    /// Parses a raw ROM image. An image shorter than the 32 KiB
    /// header-bearing window is rejected as too short; otherwise every
    /// header field is copied verbatim from its fixed offset.
    pub fn new(rom: Vec<u8>) -> (r: Result<CartridgeHeader, ParseError>)
        ensures
            rom@.len() >= 0x8000 <==> r is Ok,
            r is Ok ==> r->Ok_0.wf() && r->Ok_0.data@ == rom@,
            r is Err ==> r->Err_0 == ParseError::TooShort,
    {
        if rom.len() < 0x8000 {
            return Err(ParseError::TooShort);
        }
        let rom_0 = copy_range(&rom, 0x0, 0x8000);
        let entry = copy_range(&rom, 0x100, 4);
        let logo = copy_range(&rom, 0x104, 48);
        let title = copy_range(&rom, 0x134, 16);
        let gbc_flags = rom[0x143];
        let new_license = copy_range(&rom, 0x144, 2);
        let sgb_flag = rom[0x146];
        let rom_type = rom[0x147];
        let cart_size = rom[0x148];
        let ram_type = rom[0x149];
        let destination = rom[0x14A];
        let old_license = rom[0x14B];
        let mask_rom_version_number = rom[0x14C];
        let header_checksum = rom[0x14D];
        let global_checksum: u16 = (rom[0x14F] as u16) * 256 + (rom[0x14E] as u16);
        Ok(CartridgeHeader {
            entry,
            logo,
            title,
            gbc_flags,
            new_license,
            sgb_flag,
            rom_type,
            cart_size,
            ram_type,
            destination,
            old_license,
            mask_rom_version_number,
            header_checksum,
            global_checksum,
            data: rom,
            rom_0,
        })
    }

    /// The title text, or `InvalidEncoding` if a byte before the first NUL
    /// pad byte is not ASCII.
    pub fn get_title(&self) -> (r: Result<String, ParseError>)
        ensures
            self.title_valid() <==> r is Ok,
            r is Ok ==> r->Ok_0@ == self.spec_title(),
            r is Err ==> r->Err_0 == ParseError::InvalidEncoding,
    {
        proof {
            lemma_text_len(self.title@);
        }
        let mut cut: usize = 0;
        while cut < self.title.len() && self.title[cut] != 0
            invariant
                cut <= self.title@.len(),
                forall|j: int| 0 <= j < cut ==> self.title@[j] != 0,
            decreases self.title@.len() - cut,
        {
            cut += 1;
        }
        proof {
            lemma_text_len_unique(self.title@, cut as int);
        }
        let mut prefix: Vec<u8> = Vec::new();
        let mut i: usize = 0;
        while i < cut
            invariant
                i <= cut,
                cut <= self.title@.len(),
                cut == text_len(self.title@),
                prefix@ == self.title@.subrange(0, i as int),
                forall|j: int| 0 <= j < i ==> self.title@[j] < 0x80,
            decreases cut - i,
        {
            let b = self.title[i];
            if b >= 0x80 {
                return Err(ParseError::InvalidEncoding);
            }
            prefix.push(b);
            proof {
                assert(prefix@ =~= self.title@.subrange(0, i + 1));
            }
            i += 1;
        }
        proof {
            assert(prefix@ =~= self.title@.take(text_len(self.title@)));
        }
        Ok(ascii_bytes_to_string(prefix))
    }

    /// The computed header checksum: the console's recurrence folded over
    /// the image bytes at offsets `[0x134, 0x14C]`.
    pub fn get_checksum(&self) -> (r: u8)
        requires
            self.wf(),
        ensures
            r == header_checksum_of(self.data@),
    {
        let ghost window = self.data@.subrange(0x134, 0x14D);
        proof {
            assert(window.subrange(0, 25) =~= window);
        }
        let mut acc: u8 = 0;
        let mut i: usize = 0x134;
        while i < 0x14D
            invariant
                self.wf(),
                0x134 <= i <= 0x14D,
                window == self.data@.subrange(0x134, 0x14D),
                checksum_from(acc, window.subrange(i - 0x134, 25)) == checksum_from(0, window),
            decreases 0x14D - i,
        {
            let d = self.rom_0[i];
            proof {
                assert(self.rom_0@[i as int] == self.data@[i as int]);
                assert(window.subrange(i - 0x134, 25)[0] == self.data@[i as int]);
                assert(window.subrange(i - 0x134, 25).drop_first() =~= window.subrange(
                    i + 1 - 0x134,
                    25,
                ));
            }
            acc = acc.wrapping_sub(d).wrapping_sub(1);
            i += 1;
        }
        proof {
            assert(window.subrange(25, 25) =~= Seq::<u8>::empty());
        }
        acc
    }

    /// The header-declared checksum, for comparison against the computed
    /// one; the decoder itself never rejects a mismatch.
    pub fn declared_checksum(&self) -> (r: u8)
        ensures
            r == self.header_checksum,
    {
        self.header_checksum
    }

    /// The destination/region label for the header's destination code.
    pub fn get_destination(&self) -> (r: &'static str)
        ensures
            r@ == destination_label(self.destination),
    {
        match self.destination {
            0 => "Japan",
            1 => "World",
            _ => "Unknown",
        }
    }

    /// The declared RAM size in bytes; unrecognized codes mean no RAM.
    pub fn get_ram_size(&self) -> (r: usize)
        ensures
            r == ram_size_of(self.ram_type),
    {
        match self.ram_type {
            0 => 0,
            1 => 0,
            2 => 8_000,
            3 => 32_000,
            4 => 128_000,
            5 => 64_000,
            _ => 0,
        }
    }

    /// The declared ROM size: total bytes and bank count, decoded from the
    /// ROM-size code by the documented doubling formulas. Codes above 8 are
    /// not assigned and fall back to zero.
    pub fn get_rom_size(&self) -> (r: (usize, usize))
        ensures
            self.cart_size <= 8 ==> r.0 == 32_000 * pow2(self.cart_size as nat) && r.1 == 2 * pow2(
                self.cart_size as nat,
            ),
            self.cart_size > 8 ==> r.0 == 0 && r.1 == 0,
    {
        proof {
            lemma2_to64();
        }
        match self.cart_size {
            0 => (32_000, 2),
            1 => (64_000, 4),
            2 => (128_000, 8),
            3 => (256_000, 16),
            4 => (512_000, 32),
            5 => (1_024_000, 64),
            6 => (2_048_000, 128),
            7 => (4_096_000, 256),
            8 => (8_192_000, 512),
            _ => (0, 0),
        }
    }

    /// The memory-controller label for the header's cartridge-type code;
    /// codes absent from the table yield "Unknown", never an error.
    pub fn get_cartridge_type(&self) -> (r: &'static str)
        ensures
            r@ == cartridge_type_label(self.rom_type),
    {
        let code = self.rom_type;
        match code {
            0x00 => "ROM ONLY",
            0x01 => "MBC1",
            0x02 => "MBC1+RAM",
            0x03 => "MBC1+RAM+BATTERY",
            0x05 => "MBC2",
            0x06 => "MBC2+BATTERY",
            0x08 => "ROM+RAM 11",
            0x09 => "ROM+RAM+BATTERY 11",
            0x0B => "MMM01",
            0x0C => "MMM01+RAM",
            0x0D => "MMM01+RAM+BATTERY",
            0x0F => "MBC3+TIMER+BATTERY",
            0x10 => "MBC3+TIMER+RAM+BATTERY 12",
            0x11 => "MBC3",
            0x12 => "MBC3+RAM 12",
            0x13 => "MBC3+RAM+BATTERY 12",
            0x19 => "MBC5",
            0x1A => "MBC5+RAM",
            0x1B => "MBC5+RAM+BATTERY",
            0x1C => "MBC5+RUMBLE",
            0x1D => "MBC5+RUMBLE+RAM",
            0x1E => "MBC5+RUMBLE+RAM+BATTERY",
            0x20 => "MBC6",
            0x22 => "MBC7+SENSOR+RUMBLE+RAM+BATTERY",
            0xFC => "POCKET CAMERA",
            0xFD => "BANDAI TAMA5",
            0xFE => "HuC3",
            0xFF => "HuC1+RAM+BATTERY",
            _ => "Unknown",
        }
    }

    /// The license label. The sentinel legacy code 0x33 defers to the
    /// two-character new-license field; any other legacy code is looked up
    /// directly in the legacy table.
    pub fn get_license(&self) -> (r: &'static str)
        requires
            self.wf(),
        ensures
            r@ == license_label(self.old_license, self.new_license@[0], self.new_license@[1]),
    {
        if self.old_license == 0x33 {
            let a = self.new_license[0];
            let b = self.new_license[1];
            match (a, b) {
                (0x30, 0x30) => "None",
                (0x30, 0x31) => "Nintendo Research & Development 1",
                (0x30, 0x38) => "Capcom",
                (0x31, 0x33) => "EA (Electronic Arts)",
                (0x31, 0x38) => "Hudson Soft",
                (0x31, 0x39) => "B-AI",
                (0x32, 0x30) => "KSS",
                (0x32, 0x32) => "Planning Office WADA",
                (0x32, 0x34) => "PCM Complete",
                (0x32, 0x35) => "San-X",
                (0x32, 0x38) => "Kemco",
                (0x32, 0x39) => "SETA Corporation",
                (0x33, 0x30) => "Viacom",
                (0x33, 0x31) => "Nintendo",
                (0x33, 0x32) => "Bandai",
                (0x33, 0x33) => "Ocean Software/Acclaim Entertainment",
                (0x33, 0x34) => "Konami",
                (0x33, 0x35) => "HectorSoft",
                (0x33, 0x37) => "Taito",
                (0x33, 0x38) => "Hudson Soft",
                (0x33, 0x39) => "Banpresto",
                (0x34, 0x31) => "Ubi Soft1",
                (0x34, 0x32) => "Atlus",
                (0x34, 0x34) => "Malibu Interactive",
                (0x34, 0x36) => "Angel",
                (0x34, 0x37) => "Bullet-Proof Software2",
                (0x34, 0x39) => "Irem",
                (0x35, 0x30) => "Absolute",
                (0x35, 0x31) => "Acclaim Entertainment",
                (0x35, 0x32) => "Activision",
                (0x35, 0x33) => "Sammy USA Corporation",
                (0x35, 0x34) => "Konami",
                (0x35, 0x35) => "Hi Tech Expressions",
                (0x35, 0x36) => "LJN",
                (0x35, 0x37) => "Matchbox",
                (0x35, 0x38) => "Mattel",
                (0x35, 0x39) => "Milton Bradley Company",
                (0x36, 0x30) => "Titus Interactive",
                (0x36, 0x31) => "Virgin Games Ltd.3",
                (0x36, 0x34) => "Lucasfilm Games4",
                (0x36, 0x37) => "Ocean Software",
                (0x36, 0x39) => "EA (Electronic Arts)",
                (0x37, 0x30) => "Infogrames5",
                (0x37, 0x31) => "Interplay Entertainment",
                (0x37, 0x32) => "Broderbund",
                (0x37, 0x33) => "Sculptured Software6",
                (0x37, 0x35) => "The Sales Curve Limited7",
                (0x37, 0x38) => "THQ",
                (0x37, 0x39) => "Accolade8",
                (0x38, 0x30) => "Misawa Entertainment",
                (0x38, 0x33) => "LOZC G.",
                (0x38, 0x36) => "Tokuma Shoten",
                (0x38, 0x37) => "Tsukuda Original",
                (0x39, 0x31) => "Chunsoft Co.9",
                (0x39, 0x32) => "Video System",
                (0x39, 0x33) => "Ocean Software/Acclaim Entertainment",
                (0x39, 0x35) => "Varie",
                (0x39, 0x36) => "Yonezawa10/S’Pal",
                (0x39, 0x37) => "Kaneko",
                (0x39, 0x39) => "Pack-In-Video",
                (0x39, 0x48) => "Bottom Up",
                (0x41, 0x34) => "Konami (Yu-Gi-Oh!)",
                (0x42, 0x4C) => "MTO",
                (0x44, 0x4B) => "Kodansha",
                _ => "Unknown",
            }
        } else {
            let code = self.old_license;
            match code {
                0x00 => "None",
                0x01 => "Nintendo",
                0x08 => "Capcom",
                0x09 => "HOT-B",
                0x0A => "Jaleco",
                0x0B => "Coconuts Japan",
                0x0C => "Elite Systems",
                0x13 => "EA (Electronic Arts)",
                0x18 => "Hudson Soft",
                0x19 => "ITC Entertainment",
                0x1A => "Yanoman",
                0x1D => "Japan Clary",
                0x1F => "Virgin Games Ltd.3",
                0x24 => "PCM Complete",
                0x25 => "San-X",
                0x28 => "Kemco",
                0x29 => "SETA Corporation",
                0x30 => "Infogrames5",
                0x31 => "Nintendo",
                0x32 => "Bandai",
                0x33 => "New Liscense",
                0x34 => "Konami",
                0x35 => "HectorSoft",
                0x38 => "Capcom",
                0x39 => "Banpresto",
                0x3C => "Entertainment Interactive (stub)",
                0x3E => "Gremlin",
                0x41 => "Ubi Soft1",
                0x42 => "Atlus",
                0x44 => "Malibu Interactive",
                0x46 => "Angel",
                0x47 => "Spectrum HoloByte",
                0x49 => "Irem",
                0x4A => "Virgin Games Ltd.3",
                0x4D => "Malibu Interactive",
                0x4F => "U.S. Gold",
                0x50 => "Absolute",
                0x51 => "Acclaim Entertainment",
                0x52 => "Activision",
                0x53 => "Sammy USA Corporation",
                0x54 => "GameTek",
                0x55 => "Park Place15",
                0x56 => "LJN",
                0x57 => "Matchbox",
                0x59 => "Milton Bradley Company",
                0x5A => "Mindscape",
                0x5B => "Romstar",
                0x5C => "Naxat Soft16",
                0x5D => "Tradewest",
                0x60 => "Titus Interactive",
                0x61 => "Virgin Games Ltd.3",
                0x67 => "Ocean Software",
                0x69 => "EA (Electronic Arts)",
                0x6E => "Elite Systems",
                0x6F => "Electro Brain",
                0x70 => "Infogrames5",
                0x71 => "Interplay Entertainment",
                0x72 => "Broderbund",
                0x73 => "Sculptured Software6",
                0x75 => "The Sales Curve Limited7",
                0x78 => "THQ",
                0x79 => "Accolade8",
                0x7A => "Triffix Entertainment",
                0x7C => "MicroProse",
                0x7F => "Kemco",
                0x80 => "Misawa Entertainment",
                0x83 => "LOZC G.",
                0x86 => "Tokuma Shoten",
                0x8B => "Bullet-Proof Software2",
                0x8C => "Vic Tokai Corp.17",
                0x8E => "Ape Inc.18",
                0x8F => "I’Max19",
                0x91 => "Chunsoft Co.9",
                0x92 => "Video System",
                0x93 => "Tsubaraya Productions",
                0x95 => "Varie",
                0x96 => "Yonezawa10/S’Pal",
                0x97 => "Kemco",
                0x99 => "Arc",
                0x9A => "Nihon Bussan",
                0x9B => "Tecmo",
                0x9C => "Imagineer",
                0x9D => "Banpresto",
                0x9F => "Nova",
                0xA1 => "Hori Electric",
                0xA2 => "Bandai",
                0xA4 => "Konami",
                0xA6 => "Kawada",
                0xA7 => "Takara",
                0xA9 => "Technos Japan",
                0xAA => "Broderbund",
                0xAC => "Toei Animation",
                0xAD => "Toho",
                0xAF => "Namco",
                0xB0 => "Acclaim Entertainment",
                0xB1 => "ASCII Corporation or Nexsoft",
                0xB2 => "Bandai",
                0xB4 => "Square Enix",
                0xB6 => "HAL Laboratory",
                0xB7 => "SNK",
                0xB9 => "Pony Canyon",
                0xBA => "Culture Brain",
                0xBB => "Sunsoft",
                0xBD => "Sony Imagesoft",
                0xBF => "Sammy Corporation",
                0xC0 => "Taito",
                0xC2 => "Kemco",
                0xC3 => "Square",
                0xC4 => "Tokuma Shoten",
                0xC5 => "Data East",
                0xC6 => "Tonkin House",
                0xC8 => "Koei",
                0xC9 => "UFL",
                0xCA => "Ultra Games",
                0xCB => "VAP, Inc.",
                0xCC => "Use Corporation",
                0xCD => "Meldac",
                0xCE => "Pony Canyon",
                0xCF => "Angel",
                0xD0 => "Taito",
                0xD1 => "SOFEL (Software Engineering Lab)",
                0xD2 => "Quest",
                0xD3 => "Sigma Enterprises",
                0xD4 => "ASK Kodansha Co.",
                0xD6 => "Naxat Soft16",
                0xD7 => "Copya System",
                0xD9 => "Banpresto",
                0xDA => "Tomy",
                0xDB => "LJN",
                0xDD => "Nippon Computer Systems",
                0xDE => "Human Ent.",
                0xDF => "Altron",
                0xE0 => "Jaleco",
                0xE1 => "Towa Chiki",
                0xE2 => "Yutaka # Needs more info",
                0xE3 => "Varie",
                0xE5 => "Epoch",
                0xE7 => "Athena",
                0xE8 => "Asmik Ace Entertainment",
                0xE9 => "Natsume",
                0xEA => "King Records",
                0xEB => "Atlus",
                0xEC => "Epic/Sony Records",
                0xEE => "IGS",
                0xF0 => "A Wave",
                0xF3 => "Extreme Entertainment",
                0xFF => "LJN",
                _ => "Unknown",
            }
        }
    }
}

/// A copy of `len` bytes of `src` starting at `start`.
fn copy_range(src: &Vec<u8>, start: usize, len: usize) -> (r: Vec<u8>)
    requires
        start + len <= src@.len(),
    ensures
        r@ == src@.subrange(start as int, start + len),
{
    let n = src.len();
    let mut v: Vec<u8> = Vec::new();
    let mut i: usize = 0;
    while i < len
        invariant
            start + len <= n == src@.len(),
            i <= len,
            v@ == src@.subrange(start as int, start + i),
        decreases len - i,
    {
        v.push(src[start + i]);
        proof {
            assert(v@ =~= src@.subrange(start as int, start + i + 1));
        }
        i += 1;
    }
    v
}

/// Relies on `String::from_utf8`: ASCII bytes always decode, to the string
/// of the characters with the same code points.
#[verifier::external_body]
fn ascii_bytes_to_string(bytes: Vec<u8>) -> (r: String)
    requires
        forall|i: int| 0 <= i < bytes@.len() ==> bytes@[i] < 0x80,
    ensures
        r@ == ascii_text(bytes@),
{
    match String::from_utf8(bytes) {
        Ok(s) => s,
        Err(_) => String::new(),
    }
}

/// The text length of a NUL-padded field is within bounds, counts no zero
/// byte, and stops at one.
proof fn lemma_text_len(s: Seq<u8>)
    ensures
        0 <= text_len(s) <= s.len(),
        forall|j: int| 0 <= j < text_len(s) ==> s[j] != 0,
        text_len(s) < s.len() ==> s[text_len(s)] == 0,
    decreases s.len(),
{
    if s.len() == 0 {
    } else if s[0] == 0 {
    } else {
        lemma_text_len(s.drop_first());
        assert(forall|j: int| 0 <= j < text_len(s.drop_first()) ==> s.drop_first()[j] != 0);
        assert forall|j: int| 0 <= j < text_len(s) implies s[j] != 0 by {
            if j > 0 {
                assert(s.drop_first()[j - 1] != 0);
            }
        }
    }
}

/// Any cut that sits after only nonzero bytes and at a zero byte or the end
/// is the text length.
proof fn lemma_text_len_unique(s: Seq<u8>, n: int)
    requires
        0 <= n <= s.len(),
        forall|j: int| 0 <= j < n ==> s[j] != 0,
        n < s.len() ==> s[n] == 0,
    ensures
        text_len(s) == n,
    decreases s.len(),
{
    if s.len() == 0 {
    } else if n == 0 {
    } else {
        assert(s[0] != 0);
        assert forall|j: int| 0 <= j < n - 1 implies s.drop_first()[j] != 0 by {
            assert(s[j + 1] != 0);
        }
        lemma_text_len_unique(s.drop_first(), n - 1);
    }
}

/// The checksum recurrence over all-zero bytes subtracts one per byte,
/// modulo 256.
proof fn lemma_checksum_zeros(acc: u8, s: Seq<u8>)
    requires
        forall|i: int| 0 <= i < s.len() ==> s[i] == 0,
    ensures
        checksum_from(acc, s) == ((acc - s.len()) % 256) as u8,
    decreases s.len(),
{
    if s.len() == 0 {
        assert(acc as int % 256 == acc as int);
    } else {
        let acc1 = checksum_step(acc, 0);
        lemma_checksum_zeros(acc1, s.drop_first());
        if acc >= 1 {
            assert(acc1 == acc - 1);
        } else {
            assert(acc1 == acc + 255);
            lemma_mod_add_multiples_vanish(acc - s.len(), 256);
        }
    }
}

/// Law: over a header window whose 25 bytes at offsets `[0x134, 0x14C]` are
/// all zero, the computed checksum comes to `0xE7`: 25 iterations of
/// `0 - 0 - 1` under 8-bit wraparound.
pub proof fn lemma_zero_window_checksum(rom: Seq<u8>)
    requires
        rom.len() >= 0x8000,
        forall|i: int| 0x134 <= i < 0x14D ==> rom[i] == 0,
    ensures
        header_checksum_of(rom) == 0xE7,
{
    let window = rom.subrange(0x134, 0x14D);
    assert(forall|i: int| 0 <= i < window.len() ==> window[i] == 0);
    lemma_checksum_zeros(0, window);
}

/// Law: a parsed header's fields are exactly the image bytes at their fixed
/// offsets, so parsing a buffer with known header bytes round-trips them.
pub proof fn lemma_header_round_trip(h: CartridgeHeader, rom: Seq<u8>)
    requires
        h.wf(),
        h.data@ == rom,
    ensures
        h.entry@ == rom.subrange(0x100, 0x104),
        h.logo@ == rom.subrange(0x104, 0x134),
        h.title@ == rom.subrange(0x134, 0x144),
        h.gbc_flags == rom[0x143],
        h.new_license@ == rom.subrange(0x144, 0x146),
        h.sgb_flag == rom[0x146],
        h.rom_type == rom[0x147],
        h.cart_size == rom[0x148],
        h.ram_type == rom[0x149],
        h.destination == rom[0x14A],
        h.old_license == rom[0x14B],
        h.mask_rom_version_number == rom[0x14C],
        h.header_checksum == rom[0x14D],
        h.global_checksum == rom[0x14F] * 256 + rom[0x14E],
{
}

} // verus!
