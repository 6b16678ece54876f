//! Cartridge images in the iNES format: a sixteen-byte header, an optional
//! 512-byte trainer, then the program image in 16 KiB banks and the
//! character image in 8 KiB banks.
use vstd::prelude::*;

verus! {

/// Length of the header.
pub const HEADER_LEN: usize = 16;
/// Length of the trainer block.
pub const TRAINER_LEN: usize = 512;
/// Bytes in one program bank.
pub const PRG_BANK: usize = 16384;
/// Bytes in one character bank.
pub const CHR_BANK: usize = 8192;

/// Flags byte 6: mirroring.
pub const MIRRORING: u8 = 0b0000_0001;
/// Flags byte 6: battery-backed RAM.
pub const PERSISTENT_RAM: u8 = 0b0000_0010;
/// Flags byte 6: a trainer follows the header.
pub const TRAINER_PRESENT: u8 = 0b0000_0100;
/// The bits of flags byte 6 that are kept.
pub const FLAGS_6_DEFINED: u8 = 0b0000_0111;

/// The header fields.
#[derive(Clone, Copy, Debug, PartialEq, Eq, Structural)]
pub struct Header {
    /// Program image size in 16 KiB banks.
    pub prg_rom_size: u8,
    /// Character image size in 8 KiB banks.
    pub chr_rom_size: u8,
    /// Mirroring, persistent RAM and trainer bits.
    pub flags_6: u8,
    pub flags_7: u8,
    pub flags_8: u8,
    pub flags_9: u8,
    pub flags_10: u8,
}

/// A decoded cartridge.
pub struct Cartridge {
    pub header: Header,
    /// The trainer block; zero when the image has none.
    pub trainer: Vec<u8>,
    pub prg_rom_data: Vec<u8>,
    pub chr_rom_data: Vec<u8>,
}

/// Why an image could not be decoded.
#[derive(Clone, Copy, Debug, PartialEq, Eq, Structural)]
pub enum CartridgeError {
    /// The image does not start with `NES` and the byte 0x1A.
    BadMagic,
    /// The image ends before the header, trainer or banks that it declares.
    Truncated,
}

/// The image starts with the format's four-byte tag.
pub open spec fn has_magic(d: Seq<u8>) -> bool {
    d.len() >= 4 && d[0] == 0x4e && d[1] == 0x45 && d[2] == 0x53 && d[3] == 0x1a
}

/// The header fields of an image that holds a whole header.
pub open spec fn header_of(d: Seq<u8>) -> Header {
    Header {
        prg_rom_size: d[4],
        chr_rom_size: d[5],
        flags_6: d[6] & FLAGS_6_DEFINED,
        flags_7: d[7],
        flags_8: d[8],
        flags_9: d[9],
        flags_10: d[10],
    }
}

/// Length of the trainer that the header declares.
pub open spec fn trainer_len(h: Header) -> int {
    if h.flags_6 & TRAINER_PRESENT != 0 { TRAINER_LEN as int } else { 0 }
}

/// Where the program image starts.
pub open spec fn prg_start(h: Header) -> int {
    HEADER_LEN + trainer_len(h)
}

/// Where the character image starts.
pub open spec fn chr_start(h: Header) -> int {
    prg_start(h) + h.prg_rom_size * PRG_BANK
}

/// Where the character image ends.
pub open spec fn image_end(h: Header) -> int {
    chr_start(h) + h.chr_rom_size * CHR_BANK
}

/// The error for an image, if any: a missing tag, or an image shorter than
/// its header and the parts that the header declares.
pub open spec fn image_error(d: Seq<u8>) -> Option<CartridgeError> {
    if !has_magic(d) {
        Some(CartridgeError::BadMagic)
    } else if d.len() < HEADER_LEN || d.len() < image_end(header_of(d)) {
        Some(CartridgeError::Truncated)
    } else {
        None
    }
}

/// A copy of `len` bytes of `data` from `start`.
fn copy_range(data: &[u8], start: usize, len: usize) -> (r: Vec<u8>)
    requires
        start + len <= data@.len(),
    ensures
        r@ == data@.subrange(start as int, start + len),
{
    let mut r: Vec<u8> = Vec::with_capacity(len);
    let n = data.len();
    let mut i: usize = 0;
    while i < len
        invariant
            n == data@.len(),
            start + len <= n,
            i <= len,
            r@ == data@.subrange(start as int, start + i),
        decreases len - i,
    {
        r.push(data[start + i]);
        i = i + 1;
        assert(r@ =~= data@.subrange(start as int, start + i));
    }
    r
}

/// The header error of an image, if any: a missing tag, or fewer bytes
/// than a header.
pub open spec fn header_error(d: Seq<u8>) -> Option<CartridgeError> {
    if !has_magic(d) {
        Some(CartridgeError::BadMagic)
    } else if d.len() < HEADER_LEN {
        Some(CartridgeError::Truncated)
    } else {
        None
    }
}

/// Decodes the header: the input after it, and its fields.
pub fn parse_header(input: &[u8]) -> (r: Result<(&[u8], Header), CartridgeError>)
    ensures
        match r {
            Ok((rest, h)) => {
                &&& header_error(input@) is None
                &&& h == header_of(input@)
                &&& rest@ == input@.subrange(HEADER_LEN as int, input@.len() as int)
            },
            Err(e) => header_error(input@) == Some(e),
        },
{
    if input.len() < 4 || input[0] != 0x4e || input[1] != 0x45 || input[2] != 0x53
        || input[3] != 0x1a {
        return Err(CartridgeError::BadMagic);
    }
    if input.len() < HEADER_LEN {
        return Err(CartridgeError::Truncated);
    }
    let header = Header {
        prg_rom_size: input[4],
        chr_rom_size: input[5],
        flags_6: input[6] & FLAGS_6_DEFINED,
        flags_7: input[7],
        flags_8: input[8],
        flags_9: input[9],
        flags_10: input[10],
    };
    let (_, rest) = input.split_at(HEADER_LEN);
    Ok((rest, header))
}

/// Decodes a whole image. Bytes after the character image are ignored.
pub fn parse_file(input: &[u8]) -> (r: Result<Cartridge, CartridgeError>)
    ensures
        match r {
            Ok(c) => {
                let h = header_of(input@);
                &&& image_error(input@) is None
                &&& c.header == h
                &&& c.trainer@ == if trainer_len(h) > 0 {
                    input@.subrange(HEADER_LEN as int, prg_start(h))
                } else {
                    Seq::new(TRAINER_LEN as nat, |i: int| 0u8)
                }
                &&& c.prg_rom_data@ == input@.subrange(prg_start(h), chr_start(h))
                &&& c.chr_rom_data@ == input@.subrange(chr_start(h), image_end(h))
            },
            Err(e) => image_error(input@) == Some(e),
        },
{
    let (body, header) = match parse_header(input) {
        Ok(parsed) => parsed,
        Err(e) => return Err(e),
    };
    let has_trainer = header.flags_6 & TRAINER_PRESENT != 0;
    let trainer_size: usize = if has_trainer { TRAINER_LEN } else { 0 };
    let prg_size: usize = header.prg_rom_size as usize * PRG_BANK;
    let chr_size: usize = header.chr_rom_size as usize * CHR_BANK;
    let chr_at = trainer_size + prg_size;
    if body.len() < chr_at || body.len() - chr_at < chr_size {
        return Err(CartridgeError::Truncated);
    }
    let trainer = if has_trainer {
        copy_range(body, 0, TRAINER_LEN)
    } else {
        crate::buffer::filled(TRAINER_LEN, 0)
    };
    let prg_rom_data = copy_range(body, trainer_size, prg_size);
    let chr_rom_data = copy_range(body, chr_at, chr_size);
    assert(trainer@ =~= if has_trainer {
        input@.subrange(HEADER_LEN as int, prg_start(header))
    } else {
        Seq::new(TRAINER_LEN as nat, |i: int| 0u8)
    });
    assert(prg_rom_data@ =~= input@.subrange(prg_start(header), chr_start(header)));
    assert(chr_rom_data@ =~= input@.subrange(chr_start(header), image_end(header)));
    Ok(Cartridge { header, trainer, prg_rom_data, chr_rom_data })
}

/// Holds the bytes of an image until it is decoded.
pub struct RomFileParser {
    pub data: Vec<u8>,
}

impl RomFileParser {
    pub fn new(data: Vec<u8>) -> (r: Self)
        ensures
            r.data@ == data@,
    {
        RomFileParser { data }
    }

    /// Decodes the held image.
    pub fn parse(&self) -> (r: Result<Cartridge, CartridgeError>)
        ensures
            match r {
                Ok(c) => {
                    let h = header_of(self.data@);
                    &&& image_error(self.data@) is None
                    &&& c.header == h
                    &&& c.trainer@ == if trainer_len(h) > 0 {
                        self.data@.subrange(HEADER_LEN as int, prg_start(h))
                    } else {
                        Seq::new(TRAINER_LEN as nat, |i: int| 0u8)
                    }
                    &&& c.prg_rom_data@ == self.data@.subrange(prg_start(h), chr_start(h))
                    &&& c.chr_rom_data@ == self.data@.subrange(chr_start(h), image_end(h))
                },
                Err(e) => image_error(self.data@) == Some(e),
            },
    {
        parse_file(self.data.as_slice())
    }
}

} // verus!
