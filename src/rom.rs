use vstd::arithmetic::power2::{
    lemma2_to64, lemma2_to64_rest, lemma_pow2_strictly_increases, lemma_pow2_unfold, pow2,
};
use vstd::prelude::*;

verus! {

/// A capability of a cartridge, as named by its header's type byte.
#[derive(Clone, Copy, Debug, PartialEq, Eq, Structural)]
pub enum CatridgeType {
    Rom,
    Mbc1,
    Mbc2,
    Mbc3,
    Ram,
    Battery,
    Timer,
    MMM01,
    Mbc5,
    Mbc6,
    Rumble,
    Sensor,
    Camera,
    Tama5,
    HuC3,
    HuC1,
    Mbc7,
}

/// A cartridge: its ROM image, its external RAM and its capability tags.
pub struct Catridge {
    pub data: Vec<u8>,
    pub ram: Vec<u8>,
    pub catridge_type: Vec<CatridgeType>,
}

impl Catridge {
    /// No cartridge: no ROM, no RAM, no capabilities.
    pub fn new_empty() -> (r: Catridge)
        ensures
            r.data@.len() == 0,
            r.ram@.len() == 0,
            r.catridge_type@.len() == 0,
    {
        Catridge { data: Vec::new(), ram: Vec::new(), catridge_type: Vec::new() }
    }

    /// A cartridge with the given ROM image, `ram_size` bytes of zeroed RAM and
    /// the given capabilities.
    pub fn new(data: Vec<u8>, ram_size: usize, catridge_type: Vec<CatridgeType>) -> (r: Catridge)
        ensures
            r.data@ == data@,
            r.ram@ == Seq::new(ram_size as nat, |i: int| 0u8),
            r.catridge_type@ == catridge_type@,
    {
        let ram = vec![0u8; ram_size];
        assert(ram@ =~= Seq::new(ram_size as nat, |i: int| 0u8));
        Catridge { data, ram, catridge_type }
    }

    /// Whether the cartridge carries capability `kind`.
    pub fn has_type(&self, kind: CatridgeType) -> (r: bool)
        ensures
            r == self.catridge_type@.contains(kind),
    {
        let mut i: usize = 0;
        while i < self.catridge_type.len()
            invariant
                0 <= i <= self.catridge_type@.len(),
                forall|j: int| 0 <= j < i ==> self.catridge_type@[j] != kind,
            decreases self.catridge_type@.len() - i,
        {
            if self.catridge_type[i] == kind {
                assert(self.catridge_type@[i as int] == kind);
                return true;
            }
            i = i + 1;
        }
        false
    }
}

/// Why a cartridge header was refused.
#[derive(Clone, Copy, Debug, PartialEq, Eq, Structural)]
pub enum RomError {
    Logo,
    Title,
    LicenseCode,
    CatridgeType,
    HeaderChecksum,
    RomSize,
    RamSize,
}

/// What the cartridge header holds.
pub struct CatridgeInfo {
    pub nintendo_logo: Vec<u8>,
    pub title: Vec<u8>,
    pub license_code: String,
    pub sgb: bool,
    pub catridge_type: Vec<CatridgeType>,
    pub rom_size: u64,
    pub ram_size: u8,
    pub japanese: bool,
    pub version_number: u8,
    pub header_checksum: bool,
    pub global_checksum: u16,
}

/// Length of an image that holds a whole header.
pub const HEADER_END: usize = 0x150;

/// Byte `i` of the logo that every cartridge header carries at 0x104..0x134.
pub open spec fn logo_at(i: u8) -> u8 {
    match i {
        0 => 0xCEu8,
        1 => 0xEDu8,
        2 => 0x66u8,
        3 => 0x66u8,
        4 => 0xCCu8,
        5 => 0x0Du8,
        6 => 0x00u8,
        7 => 0x0Bu8,
        8 => 0x03u8,
        9 => 0x73u8,
        10 => 0x00u8,
        11 => 0x83u8,
        12 => 0x00u8,
        13 => 0x0Cu8,
        14 => 0x00u8,
        15 => 0x0Du8,
        16 => 0x00u8,
        17 => 0x08u8,
        18 => 0x11u8,
        19 => 0x1Fu8,
        20 => 0x88u8,
        21 => 0x89u8,
        22 => 0x00u8,
        23 => 0x0Eu8,
        24 => 0xDCu8,
        25 => 0xCCu8,
        26 => 0x6Eu8,
        27 => 0xE6u8,
        28 => 0xDDu8,
        29 => 0xDDu8,
        30 => 0xD9u8,
        31 => 0x99u8,
        32 => 0xBBu8,
        33 => 0xBBu8,
        34 => 0x67u8,
        35 => 0x63u8,
        36 => 0x6Eu8,
        37 => 0x0Eu8,
        38 => 0xECu8,
        39 => 0xCCu8,
        40 => 0xDDu8,
        41 => 0xDCu8,
        42 => 0x99u8,
        43 => 0x9Fu8,
        44 => 0xBBu8,
        45 => 0xB9u8,
        46 => 0x33u8,
        _ => 0x3Eu8,
    }
}

pub open spec fn nintendo_logo() -> Seq<u8> {
    Seq::new(48, |i: int| logo_at(i as u8))
}

fn logo_byte(i: usize) -> (r: u8)
    requires
        i < 48,
    ensures
        r == nintendo_logo()[i as int],
{
    match i {
        0 => 0xCE,
        1 => 0xED,
        2 => 0x66,
        3 => 0x66,
        4 => 0xCC,
        5 => 0x0D,
        6 => 0x00,
        7 => 0x0B,
        8 => 0x03,
        9 => 0x73,
        10 => 0x00,
        11 => 0x83,
        12 => 0x00,
        13 => 0x0C,
        14 => 0x00,
        15 => 0x0D,
        16 => 0x00,
        17 => 0x08,
        18 => 0x11,
        19 => 0x1F,
        20 => 0x88,
        21 => 0x89,
        22 => 0x00,
        23 => 0x0E,
        24 => 0xDC,
        25 => 0xCC,
        26 => 0x6E,
        27 => 0xE6,
        28 => 0xDD,
        29 => 0xDD,
        30 => 0xD9,
        31 => 0x99,
        32 => 0xBB,
        33 => 0xBB,
        34 => 0x67,
        35 => 0x63,
        36 => 0x6E,
        37 => 0x0E,
        38 => 0xEC,
        39 => 0xCC,
        40 => 0xDD,
        41 => 0xDC,
        42 => 0x99,
        43 => 0x9F,
        44 => 0xBB,
        45 => 0xB9,
        46 => 0x33,
        _ => 0x3E,
    }
}

/// The capabilities that a cartridge type byte names; empty for an unknown byte.
pub open spec fn catridge_kinds(code: u8) -> Seq<CatridgeType> {
    match code {
        0x00 => seq![CatridgeType::Rom],
        0x01 => seq![CatridgeType::Mbc1],
        0x02 => seq![CatridgeType::Mbc1, CatridgeType::Ram],
        0x03 => seq![CatridgeType::Mbc1, CatridgeType::Ram, CatridgeType::Battery],
        0x05 => seq![CatridgeType::Mbc2],
        0x06 => seq![CatridgeType::Mbc2, CatridgeType::Battery],
        0x08 => seq![CatridgeType::Rom, CatridgeType::Ram],
        0x09 => seq![CatridgeType::Rom, CatridgeType::Ram, CatridgeType::Battery],
        0x0B => seq![CatridgeType::MMM01],
        0x0C => seq![CatridgeType::MMM01, CatridgeType::Ram],
        0x0D => seq![CatridgeType::MMM01, CatridgeType::Ram, CatridgeType::Battery],
        0x0F => seq![CatridgeType::Mbc3, CatridgeType::Timer, CatridgeType::Battery],
        0x10 => seq![CatridgeType::Mbc3, CatridgeType::Timer, CatridgeType::Ram, CatridgeType::Battery],
        0x11 => seq![CatridgeType::Mbc3],
        0x12 => seq![CatridgeType::Mbc3, CatridgeType::Ram],
        0x13 => seq![CatridgeType::Mbc3, CatridgeType::Ram, CatridgeType::Battery],
        0x19 => seq![CatridgeType::Mbc5],
        0x1A => seq![CatridgeType::Mbc5, CatridgeType::Ram],
        0x1B => seq![CatridgeType::Mbc5, CatridgeType::Ram, CatridgeType::Battery],
        0x1C => seq![CatridgeType::Mbc5, CatridgeType::Rumble],
        0x1D => seq![CatridgeType::Mbc5, CatridgeType::Rumble, CatridgeType::Ram],
        0x1E => seq![CatridgeType::Mbc5, CatridgeType::Rumble, CatridgeType::Ram, CatridgeType::Battery],
        0x20 => seq![CatridgeType::Mbc6],
        0x22 => seq![CatridgeType::Mbc7, CatridgeType::Rumble, CatridgeType::Ram, CatridgeType::Battery, CatridgeType::Sensor],
        0xFC => seq![CatridgeType::Camera],
        0xFD => seq![CatridgeType::Tama5],
        0xFE => seq![CatridgeType::HuC3],
        0xFF => seq![CatridgeType::HuC1, CatridgeType::Ram, CatridgeType::Battery],
        _ => Seq::empty(),
    }
}

/// The publisher that a licensee code names, or `None` for a code the table
/// does not hold.
pub open spec fn licensee_table(code: u8) -> Option<&'static str> {
    match code {
        0x01 => Some("Nintendo R&D1"),
        0x08 => Some("Capcom"),
        0x13 => Some("Electronic Arts"),
        0x18 => Some("Hudson Soft"),
        0x19 => Some("b-ai"),
        0x20 => Some("kss"),
        0x22 => Some("pow"),
        0x24 => Some("PCM Complete"),
        0x25 => Some("san-x"),
        0x28 => Some("Kemco Japan"),
        0x29 => Some("seta"),
        0x30 => Some("Viacom"),
        0x31 => Some("Nintendo"),
        0x32 => Some("Bandai"),
        0x33 => Some("Ocean/Acclaim"),
        0x34 => Some("Konami"),
        0x35 => Some("Hector"),
        0x37 => Some("Taito"),
        0x38 => Some("Hudson"),
        0x39 => Some("Banpresto"),
        0x41 => Some("Ubi Soft"),
        0x42 => Some("Atlus"),
        0x44 => Some("Malibu"),
        0x46 => Some("angel"),
        0x47 => Some("Bullet-Proof"),
        0x49 => Some("irem"),
        0x50 => Some("Absolute"),
        0x51 => Some("Acclaim"),
        0x52 => Some("Activision"),
        0x53 => Some("American sammy"),
        0x54 => Some("Konami"),
        0x55 => Some("Hi tech entertainment"),
        0x56 => Some("LJN"),
        0x57 => Some("Matchbox"),
        0x58 => Some("Mattel"),
        0x59 => Some("Milton Bradley"),
        0x60 => Some("Titus"),
        0x61 => Some("Virgin"),
        0x64 => Some("LucasArts"),
        0x67 => Some("Ocean"),
        0x69 => Some("Electronic Arts"),
        0x70 => Some("Infogrames"),
        0x71 => Some("Interplay"),
        0x72 => Some("Broderbund"),
        0x73 => Some("sculptured"),
        0x75 => Some("sci"),
        0x78 => Some("THQ"),
        0x79 => Some("Accolade"),
        0x80 => Some("misawa"),
        0x83 => Some("lozc"),
        0x86 => Some("Tokuma Shoten Intermedia"),
        0x87 => Some("Tsukuda Original"),
        0x91 => Some("Chunsoft"),
        0x92 => Some("Video system"),
        0x93 => Some("Ocean/Acclaim"),
        0x95 => Some("Varie"),
        0x96 => Some("Yonezawa/s`pal"),
        0x97 => Some("Kaneko"),
        0x99 => Some("Pack in soft"),
        0xAF => Some("Konami (Yu-Gi-Oh!)"),
        _ => None,
    }
}

/// The byte that keys the licensee table: the new code's first byte at 0x144
/// when the old code at 0x14B is 0x33, else the old code itself.
pub open spec fn licensee_key(data: Seq<u8>) -> u8 {
    if data[0x14B] == 0x33 {
        data[0x144]
    } else {
        data[0x14B]
    }
}

/// The publisher named by the header, if the table holds its code.
pub open spec fn licensee_code(data: Seq<u8>) -> Option<&'static str> {
    licensee_table(licensee_key(data))
}

/// The title bytes, with ASCII letters upper-cased.
pub open spec fn title_of(data: Seq<u8>) -> Seq<u8> {
    Seq::new(16, |i: int| ascii_upper(title_bytes(data)[i]))
}

/// The sixteen title bytes at 0x134..0x144.
pub open spec fn title_bytes(data: Seq<u8>) -> Seq<u8> {
    data.subrange(0x134, 0x144)
}

pub open spec fn ascii_upper(b: u8) -> u8 {
    if 0x61 <= b <= 0x7A {
        (b - 0x20) as u8
    } else {
        b
    }
}

/// A title is refused when it is all zero bytes or holds a non-ASCII byte.
pub open spec fn title_ok(data: Seq<u8>) -> bool {
    &&& exists|i: int| 0 <= i < 16 && #[trigger] title_bytes(data)[i] != 0
    &&& forall|i: int| 0 <= i < 16 ==> #[trigger] title_bytes(data)[i] < 0x80
}

/// RAM size in KiB of a RAM size code; `None` for an unknown code.
pub open spec fn ram_kib(code: u8) -> Option<u8> {
    if code == 0 {
        Some(0u8)
    } else if code == 2 {
        Some(8u8)
    } else if code == 3 {
        Some(32u8)
    } else if code == 4 {
        Some(128u8)
    } else if code == 5 {
        Some(64u8)
    } else {
        None
    }
}

/// `x = x - data[i] - 1` over 0x134..n, on 8 bits.
pub open spec fn checksum_upto(data: Seq<u8>, n: int) -> int
    decreases n - 0x134,
{
    if n <= 0x134 {
        0
    } else {
        (checksum_upto(data, n - 1) + 512 - data[n - 1] - 1) % 256
    }
}

/// The header check: `x = x - data[i] - 1` over 0x134..=0x14C passes when the
/// low eight bits of `x` are not zero.
pub open spec fn checksum_ok(data: Seq<u8>) -> bool {
    checksum_upto(data, 0x14D) != 0
}

/// The first check that a header fails, in the order the loader makes them.
pub open spec fn header_error(data: Seq<u8>) -> Option<RomError> {
    if data.len() < HEADER_END {
        Some(RomError::RomSize)
    } else if data.subrange(0x104, 0x134) != nintendo_logo() {
        Some(RomError::Logo)
    } else if !title_ok(data) {
        Some(RomError::Title)
    } else if licensee_code(data).is_none() {
        Some(RomError::LicenseCode)
    } else if catridge_kinds(data[0x147]).len() == 0 {
        Some(RomError::CatridgeType)
    } else if data[0x148] > MAX_ROM_EXPONENT {
        Some(RomError::RomSize)
    } else if ram_kib(data[0x149]).is_none() {
        Some(RomError::RamSize)
    } else if !checksum_ok(data) {
        Some(RomError::HeaderChecksum)
    } else {
        None
    }
}

/// The logo bytes, when they are the expected ones.
pub fn load_logo(data: &Vec<u8>) -> (r: Result<Vec<u8>, RomError>)
    requires
        data@.len() >= 0x134,
    ensures
        data@.subrange(0x104, 0x134) == nintendo_logo() ==> r == Ok::<Vec<u8>, RomError>(r->Ok_0)
            && r->Ok_0@ == nintendo_logo(),
        data@.subrange(0x104, 0x134) != nintendo_logo() ==> r == Err::<Vec<u8>, RomError>(
            RomError::Logo,
        ),
{
    let mut logo: Vec<u8> = Vec::new();
    let mut i: usize = 0;
    while i < 48
        invariant
            0 <= i <= 48,
            data@.len() >= 0x134,
            logo@ == nintendo_logo().subrange(0, i as int),
            logo@ == data@.subrange(0x104, 0x104 + i),
        decreases 48 - i,
    {
        let b = data[0x104 + i];
        if b != logo_byte(i) {
            assert(data@.subrange(0x104, 0x134)[i as int] != nintendo_logo()[i as int]);
            return Err(RomError::Logo);
        }
        logo.push(b);
        i = i + 1;
        assert(logo@ =~= nintendo_logo().subrange(0, i as int));
        assert(logo@ =~= data@.subrange(0x104, 0x104 + i));
    }
    assert(nintendo_logo().subrange(0, 48) =~= nintendo_logo());
    Ok(logo)
}

/// The title at 0x134..0x144, upper-cased. It is refused when all sixteen bytes
/// are zero, and when a byte is 0x80 or above: a title is ASCII text, so such a
/// byte is taken as a damaged header rather than decoded.
pub fn load_title(data: &Vec<u8>) -> (r: Result<Vec<u8>, RomError>)
    requires
        data@.len() >= 0x144,
    ensures
        title_ok(data@) ==> r == Ok::<Vec<u8>, RomError>(r->Ok_0) && r->Ok_0@ == title_of(data@),
        !title_ok(data@) ==> r == Err::<Vec<u8>, RomError>(RomError::Title),
{
    let mut title: Vec<u8> = Vec::new();
    let mut any_set = false;
    let mut i: usize = 0;
    while i < 16
        invariant
            0 <= i <= 16,
            data@.len() >= 0x144,
            title@ == title_of(data@).subrange(0, i as int),
            any_set == exists|j: int| 0 <= j < i && #[trigger] title_bytes(data@)[j] != 0,
            forall|j: int| 0 <= j < i ==> #[trigger] title_bytes(data@)[j] < 0x80,
        decreases 16 - i,
    {
        let b = data[0x134 + i];
        assert(title_bytes(data@)[i as int] == b);
        if b >= 0x80 {
            return Err(RomError::Title);
        }
        if b != 0 {
            any_set = true;
        }
        let u = if 0x61 <= b && b <= 0x7A {
            b - 0x20
        } else {
            b
        };
        title.push(u);
        i = i + 1;
        assert(title@ =~= title_of(data@).subrange(0, i as int));
    }
    assert(title@ =~= title_of(data@));
    if !any_set {
        return Err(RomError::Title);
    }
    Ok(title)
}

/// RAM size in KiB from the RAM size code at 0x149: codes 2, 3, 4 and 5 give
/// 8, 32, 128 and 64 KiB; code 0, a cartridge without RAM, gives 0 KiB rather
/// than an error, so that such cartridges load.
pub fn get_ram(data: &Vec<u8>) -> (r: Result<u8, RomError>)
    requires
        data@.len() > 0x149,
    ensures
        r == (match ram_kib(data@[0x149]) {
            Some(k) => Ok(k),
            None => Err(RomError::RamSize),
        }),
{
    let code = data[0x149];
    if code == 0 {
        Ok(0)
    } else if code == 2 {
        Ok(8)
    } else if code == 3 {
        Ok(32)
    } else if code == 4 {
        Ok(128)
    } else if code == 5 {
        Ok(64)
    } else {
        Err(RomError::RamSize)
    }
}

/// Checks the header: the checksum over 0x134..=0x14C must not be zero.
pub fn check_header_checksum(data: &Vec<u8>) -> (r: Result<bool, RomError>)
    requires
        data@.len() > 0x14C,
    ensures
        checksum_ok(data@) ==> r == Ok::<bool, RomError>(true),
        !checksum_ok(data@) ==> r == Err::<bool, RomError>(RomError::HeaderChecksum),
{
    let mut x: u16 = 0;
    let mut i: usize = 0x134;
    while i <= 0x14C
        invariant
            0x134 <= i <= 0x14D,
            data@.len() > 0x14C,
            x as int == checksum_upto(data@, i as int),
            x < 256,
        decreases 0x14D - i,
    {
        x = (x + 512 - data[i] as u16 - 1) % 256;
        i = i + 1;
    }
    if x != 0 {
        Ok(true)
    } else {
        Err(RomError::HeaderChecksum)
    }
}

/// The capabilities named by the cartridge type byte at 0x147.
pub fn load_catridge_type(data: &Vec<u8>) -> (r: Result<Vec<CatridgeType>, RomError>)
    requires
        data@.len() > 0x147,
    ensures
        catridge_kinds(data@[0x147]).len() > 0 ==> r == Ok::<Vec<CatridgeType>, RomError>(r->Ok_0)
            && r->Ok_0@ == catridge_kinds(data@[0x147]),
        catridge_kinds(data@[0x147]).len() == 0 ==> r == Err::<Vec<CatridgeType>, RomError>(
            RomError::CatridgeType,
        ),
{
    let result: Vec<CatridgeType> = match data[0x147] {
            0x00 => vec![CatridgeType::Rom],
            0x01 => vec![CatridgeType::Mbc1],
            0x02 => vec![CatridgeType::Mbc1, CatridgeType::Ram],
            0x03 => vec![CatridgeType::Mbc1, CatridgeType::Ram, CatridgeType::Battery],
            0x05 => vec![CatridgeType::Mbc2],
            0x06 => vec![CatridgeType::Mbc2, CatridgeType::Battery],
            0x08 => vec![CatridgeType::Rom, CatridgeType::Ram],
            0x09 => vec![CatridgeType::Rom, CatridgeType::Ram, CatridgeType::Battery],
            0x0B => vec![CatridgeType::MMM01],
            0x0C => vec![CatridgeType::MMM01, CatridgeType::Ram],
            0x0D => vec![CatridgeType::MMM01, CatridgeType::Ram, CatridgeType::Battery],
            0x0F => vec![CatridgeType::Mbc3, CatridgeType::Timer, CatridgeType::Battery],
            0x10 => vec![CatridgeType::Mbc3, CatridgeType::Timer, CatridgeType::Ram, CatridgeType::Battery],
            0x11 => vec![CatridgeType::Mbc3],
            0x12 => vec![CatridgeType::Mbc3, CatridgeType::Ram],
            0x13 => vec![CatridgeType::Mbc3, CatridgeType::Ram, CatridgeType::Battery],
            0x19 => vec![CatridgeType::Mbc5],
            0x1A => vec![CatridgeType::Mbc5, CatridgeType::Ram],
            0x1B => vec![CatridgeType::Mbc5, CatridgeType::Ram, CatridgeType::Battery],
            0x1C => vec![CatridgeType::Mbc5, CatridgeType::Rumble],
            0x1D => vec![CatridgeType::Mbc5, CatridgeType::Rumble, CatridgeType::Ram],
            0x1E => vec![CatridgeType::Mbc5, CatridgeType::Rumble, CatridgeType::Ram, CatridgeType::Battery],
            0x20 => vec![CatridgeType::Mbc6],
            0x22 => vec![CatridgeType::Mbc7, CatridgeType::Rumble, CatridgeType::Ram, CatridgeType::Battery, CatridgeType::Sensor],
            0xFC => vec![CatridgeType::Camera],
            0xFD => vec![CatridgeType::Tama5],
            0xFE => vec![CatridgeType::HuC3],
            0xFF => vec![CatridgeType::HuC1, CatridgeType::Ram, CatridgeType::Battery],
            _ => Vec::new(),
        };
    if result.len() == 0 {
        return Err(RomError::CatridgeType);
    }
    Ok(result)
}

/// The publisher named by the licensee code: the table is keyed by the byte
/// at 0x144 when the old code at 0x14B is 0x33, else by the old code itself.
pub fn load_license_code(data: &Vec<u8>) -> (r: Result<String, RomError>)
    requires
        data@.len() > 0x14B,
    ensures
        licensee_code(data@).is_some() ==> r is Ok && r->Ok_0@ == licensee_code(data@).unwrap()@,
        licensee_code(data@).is_none() ==> r == Err::<String, RomError>(RomError::LicenseCode),
{
    let old_code = data[0x14B];
    let key = if old_code == 0x33 {
        data[0x144]
    } else {
        old_code
    };
    match licensee_name(key) {
        Some(name) => Ok(name.to_owned()),
        None => Err(RomError::LicenseCode),
    }
}

/// The name of the publisher with licensee code `code`.
pub fn licensee_name(code: u8) -> (r: Option<&'static str>)
    ensures
        r == licensee_table(code),
{
    match code {
            0x01 => Some("Nintendo R&D1"),
            0x08 => Some("Capcom"),
            0x13 => Some("Electronic Arts"),
            0x18 => Some("Hudson Soft"),
            0x19 => Some("b-ai"),
            0x20 => Some("kss"),
            0x22 => Some("pow"),
            0x24 => Some("PCM Complete"),
            0x25 => Some("san-x"),
            0x28 => Some("Kemco Japan"),
            0x29 => Some("seta"),
            0x30 => Some("Viacom"),
            0x31 => Some("Nintendo"),
            0x32 => Some("Bandai"),
            0x33 => Some("Ocean/Acclaim"),
            0x34 => Some("Konami"),
            0x35 => Some("Hector"),
            0x37 => Some("Taito"),
            0x38 => Some("Hudson"),
            0x39 => Some("Banpresto"),
            0x41 => Some("Ubi Soft"),
            0x42 => Some("Atlus"),
            0x44 => Some("Malibu"),
            0x46 => Some("angel"),
            0x47 => Some("Bullet-Proof"),
            0x49 => Some("irem"),
            0x50 => Some("Absolute"),
            0x51 => Some("Acclaim"),
            0x52 => Some("Activision"),
            0x53 => Some("American sammy"),
            0x54 => Some("Konami"),
            0x55 => Some("Hi tech entertainment"),
            0x56 => Some("LJN"),
            0x57 => Some("Matchbox"),
            0x58 => Some("Mattel"),
            0x59 => Some("Milton Bradley"),
            0x60 => Some("Titus"),
            0x61 => Some("Virgin"),
            0x64 => Some("LucasArts"),
            0x67 => Some("Ocean"),
            0x69 => Some("Electronic Arts"),
            0x70 => Some("Infogrames"),
            0x71 => Some("Interplay"),
            0x72 => Some("Broderbund"),
            0x73 => Some("sculptured"),
            0x75 => Some("sci"),
            0x78 => Some("THQ"),
            0x79 => Some("Accolade"),
            0x80 => Some("misawa"),
            0x83 => Some("lozc"),
            0x86 => Some("Tokuma Shoten Intermedia"),
            0x87 => Some("Tsukuda Original"),
            0x91 => Some("Chunsoft"),
            0x92 => Some("Video system"),
            0x93 => Some("Ocean/Acclaim"),
            0x95 => Some("Varie"),
            0x96 => Some("Yonezawa/s`pal"),
            0x97 => Some("Kaneko"),
            0x99 => Some("Pack in soft"),
            0xAF => Some("Konami (Yu-Gi-Oh!)"),
            _ => None,
        }
}

/// Reads and checks a cartridge header.
pub fn load_rom(data: &Vec<u8>) -> (r: Result<CatridgeInfo, RomError>)
    ensures
        header_error(data@).is_some() ==> r == Err::<CatridgeInfo, RomError>(
            header_error(data@).unwrap(),
        ),
        header_error(data@).is_none() ==> r is Ok && ({
            let info = r->Ok_0;
            &&& info.nintendo_logo@ == nintendo_logo()
            &&& info.title@ == title_of(data@)
            &&& info.license_code@ == licensee_code(data@).unwrap()@
            &&& info.catridge_type@ == catridge_kinds(data@[0x147])
            &&& info.sgb == (data@[0x146] == 3)
            &&& info.rom_size == rom_kib(data@[0x148])
            &&& Some(info.ram_size) == ram_kib(data@[0x149])
            &&& info.japanese == (data@[0x14A] == 0)
            &&& info.version_number == data@[0x14C]
            &&& info.header_checksum
            &&& info.global_checksum as int == data@[0x14E] as int * 256 + data@[0x14F] as int
        }),
{
    if data.len() < HEADER_END {
        return Err(RomError::RomSize);
    }
    let nintendo_logo = load_logo(data)?;
    let title = load_title(data)?;
    let license_code = load_license_code(data)?;
    let catridge_type = load_catridge_type(data)?;
    let exponent = data[0x148];
    if exponent > MAX_ROM_EXPONENT {
        return Err(RomError::RomSize);
    }
    let ram_size = get_ram(data)?;
    let header_checksum = check_header_checksum(data)?;
    let rom_size = rom_size_kib(exponent);
    Ok(CatridgeInfo {
        nintendo_logo,
        title,
        license_code,
        sgb: data[0x146] == 3,
        catridge_type,
        rom_size,
        ram_size,
        japanese: data[0x14A] == 0,
        version_number: data[0x14C],
        header_checksum,
        global_checksum: (data[0x14E] as u16) * 256 + data[0x14F] as u16,
    })
}

/// The largest ROM size exponent whose size in KiB fits in 64 bits.
pub const MAX_ROM_EXPONENT: u8 = 58;

/// ROM size in KiB for a size exponent: 32 KiB shifted left by it.
pub open spec fn rom_kib(e: u8) -> int {
    32 * (pow2(e as nat) as int)
}

fn rom_size_kib(e: u8) -> (r: u64)
    requires
        e <= MAX_ROM_EXPONENT,
    ensures
        r as int == rom_kib(e),
{
    let mut r: u64 = 32;
    let mut i: u8 = 0;
    proof {
        lemma2_to64();
        lemma2_to64_rest();
    }
    while i < e
        invariant
            i <= e <= MAX_ROM_EXPONENT,
            r as int == 32 * pow2(i as nat),
            pow2(58) == 0x400000000000000,
        decreases e - i,
    {
        proof {
            lemma_pow2_unfold((i + 1) as nat);
            if i + 1 < 58 {
                lemma_pow2_strictly_increases((i + 1) as nat, 58);
            }
        }
        r = r * 2;
        i = i + 1;
    }
    r
}

} // verus!
