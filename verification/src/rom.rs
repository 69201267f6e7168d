//! Cartridge image loading and validation for a Game-Boy-class emulator.
//!
//! A cartridge image carries a fixed-layout header at absolute offset 0x100:
//! a sequence of raw bytes and raw fixed-length byte fields, never a
//! multi-byte numeric value, so no endian interpretation is involved.
//! Loading drains a firmware stream into an owned buffer, decodes the header
//! field by field, and copies the cartridge-data region (everything from
//! offset 0x14C on) into an owned buffer.  Checksum verification and ROM-size
//! derivation are separate read-only queries over the loaded aggregate.

use vstd::prelude::*;
use vstd::slice::slice_subrange;
use vstd::slice::slice_to_vec;

verus! {

/// Absolute offset of the header record inside a cartridge image.
pub const HEADER_OFFSET: usize = 0x100;

/// Absolute offset at which the cartridge-data region begins.  The layout
/// convention places it four bytes before [`HEADER_END`], so the header's
/// trailing bytes (rom_version onward) open the data buffer as well.
pub const DATA_OFFSET: usize = 0x14C;

/// Absolute offset just past the last header field (the global checksum),
/// and so the least cartridge length that can hold a complete header.
pub const HEADER_END: usize = 0x150;

/// First byte of the range the header checksum is computed over.
pub const CHECKSUM_LO: usize = 0x134;

/// One past the last byte of the range the header checksum is computed over
/// (the range is inclusive of offset 0x14C).
pub const CHECKSUM_HI: usize = 0x14D;

/// The fixed-layout cartridge header, decoded field by field from the bytes
/// at [`HEADER_OFFSET`, `HEADER_END`) of the cartridge image, in this order
/// and with these exact widths.  Pure data: no behavior beyond field access.
pub struct ROMHeader {
    /// 4 bytes: initial code executed at boot.
    pub entry_point: Vec<u8>,
    /// 0x30 bytes: fixed bitmap compared against device firmware at real boot.
    pub nin_logo: Vec<u8>,
    /// 0x10 bytes: ASCII game title, zero-padded.
    pub title: Vec<u8>,
    /// 2 bytes: publisher code, new scheme.
    pub new_lic_code: Vec<u8>,
    /// Super-device support flag.
    pub sgb_flag: u8,
    /// Mapper/peripheral type code.
    pub ctdg_type: u8,
    /// Encodes the total ROM size; see [`ROM::rom_size_bytes`].
    pub rom_size: u8,
    /// Encodes the external RAM size.
    pub ram_size: u8,
    /// Region flag.
    pub dst_code: u8,
    /// Publisher code, legacy scheme.
    pub old_lic_code: u8,
    /// Mask ROM revision.
    pub rom_version: u8,
    /// Stored checksum over the header subrange; see [`ROM::hdr_chk`].
    pub hdr_chk: u8,
    /// 2 bytes: checksum over the whole cartridge image (not verified here).
    pub glob_chk: Vec<u8>,
}

impl ROMHeader {
    /// The header's fixed field widths.
    pub open spec fn wf(self) -> bool {
        &&& self.entry_point@.len() == 4
        &&& self.nin_logo@.len() == 0x30
        &&& self.title@.len() == 0x10
        &&& self.new_lic_code@.len() == 2
        &&& self.glob_chk@.len() == 2
    }

    /// The bytes the header checksum ranges over, in layout order: the
    /// fields stored at image offsets [`CHECKSUM_LO`, `CHECKSUM_HI`),
    /// title through rom_version.
    pub open spec fn checksum_bytes(self) -> Seq<u8> {
        self.title@ + self.new_lic_code@
            + seq![
                self.sgb_flag,
                self.ctdg_type,
                self.rom_size,
                self.ram_size,
                self.dst_code,
                self.old_lic_code,
                self.rom_version,
            ]
    }
}

/// The 8-bit accumulator after folding the first `i` bytes of `s` with the
/// update `acc = acc - b - 1` under unsigned 8-bit wraparound, starting
/// from 0.
pub open spec fn checksum_fold(s: Seq<u8>, i: int) -> u8
    decreases i,
{
    if i <= 0 {
        0u8
    } else {
        checksum_fold(s, i - 1).wrapping_sub(s[i - 1]).wrapping_sub(1)
    }
}

/// The header checksum: the fold of [`checksum_fold`] over the header's
/// checksum range, the fields stored at image offsets
/// [`CHECKSUM_LO`, `CHECKSUM_HI`) in ascending order.
pub open spec fn header_checksum_spec(h: ROMHeader) -> u8 {
    checksum_fold(h.checksum_bytes(), h.checksum_bytes().len() as int)
}

/// Appends every byte of `src` to `dst`, in order.
fn append_bytes(dst: &mut Vec<u8>, src: &Vec<u8>)
    ensures
        final(dst)@ == old(dst)@ + src@,
{
    let mut i: usize = 0;
    proof {
        assert(dst@ =~= dst@ + src@.take(0));
    }
    while i < src.len()
        invariant
            i <= src@.len(),
            dst@ == old(dst)@ + src@.take(i as int),
        decreases src@.len() - i,
    {
        dst.push(src[i]);
        proof {
            assert(old(dst)@ + src@.take(i as int + 1) =~= (old(dst)@ + src@.take(
                i as int,
            )).push(src@[i as int]));
        }
        i = i + 1;
    }
    proof {
        assert(old(dst)@ + src@.take(src@.len() as int) =~= old(dst)@ + src@);
    }
}

/// Why a load was aborted.  Checksum mismatches and unrecognized size codes
/// are not errors: they are query results the caller may act on.
#[derive(Clone, Copy, Debug, PartialEq, Eq, Structural)]
pub enum LoadError {
    /// An underlying read failed or ended before the requested bytes came.
    StreamReadError,
    /// The cartridge stream is too short to contain a header at the
    /// expected offset.
    SeekError,
}

/// The loaded aggregate: the firmware buffer, the decoded header, and the
/// cartridge-data buffer, each exclusively owned.  Constructed only by
/// [`ROM::load`], which never yields a partially populated value.
pub struct ROM {
    /// The firmware stream's entire contents.
    pub bios: Vec<u8>,
    /// The decoded cartridge header.
    pub header: ROMHeader,
    /// The cartridge-data region: the cartridge image from [`DATA_OFFSET`]
    /// to its end.
    pub dat: Vec<u8>,
}

impl ROM {
    /// Loads a ROM aggregate from the contents of a cartridge stream and a
    /// firmware stream.  The firmware may be of any length, the empty stream
    /// included; the cartridge must hold a complete header, so it must be at
    /// least [`HEADER_END`] bytes long, or the load fails with no partial
    /// aggregate observable.  On success every region mirrors the source
    /// bytes exactly: no truncation, reordering, or silent padding.
    pub fn load(cartridge: &[u8], firmware: &[u8]) -> (result: Result<ROM, LoadError>)
        ensures
            match result {
                Ok(rom) => {
                    &&& cartridge@.len() >= HEADER_END
                    &&& rom.header.wf()
                    &&& rom.bios@ == firmware@
                    &&& rom.header.entry_point@ == cartridge@.subrange(0x100, 0x104)
                    &&& rom.header.nin_logo@ == cartridge@.subrange(0x104, 0x134)
                    &&& rom.header.title@ == cartridge@.subrange(0x134, 0x144)
                    &&& rom.header.new_lic_code@ == cartridge@.subrange(0x144, 0x146)
                    &&& rom.header.sgb_flag == cartridge@[0x146]
                    &&& rom.header.ctdg_type == cartridge@[0x147]
                    &&& rom.header.rom_size == cartridge@[0x148]
                    &&& rom.header.ram_size == cartridge@[0x149]
                    &&& rom.header.dst_code == cartridge@[0x14A]
                    &&& rom.header.old_lic_code == cartridge@[0x14B]
                    &&& rom.header.rom_version == cartridge@[0x14C]
                    &&& rom.header.hdr_chk == cartridge@[0x14D]
                    &&& rom.header.glob_chk@ == cartridge@.subrange(0x14E, 0x150)
                    &&& rom.dat@ == cartridge@.subrange(
                        DATA_OFFSET as int,
                        cartridge@.len() as int,
                    )
                    &&& rom.dat@.len() == cartridge@.len() - DATA_OFFSET
                    &&& rom.header.checksum_bytes() == cartridge@.subrange(
                        CHECKSUM_LO as int,
                        CHECKSUM_HI as int,
                    )
                },
                Err(e) => {
                    &&& cartridge@.len() < HEADER_END
                    &&& e == LoadError::SeekError
                },
            },
    {
        if cartridge.len() < HEADER_END {
            return Err(LoadError::SeekError);
        }
        let header = ROMHeader {
            entry_point: slice_to_vec(slice_subrange(cartridge, 0x100, 0x104)),
            nin_logo: slice_to_vec(slice_subrange(cartridge, 0x104, 0x134)),
            title: slice_to_vec(slice_subrange(cartridge, 0x134, 0x144)),
            new_lic_code: slice_to_vec(slice_subrange(cartridge, 0x144, 0x146)),
            sgb_flag: cartridge[0x146],
            ctdg_type: cartridge[0x147],
            rom_size: cartridge[0x148],
            ram_size: cartridge[0x149],
            dst_code: cartridge[0x14A],
            old_lic_code: cartridge[0x14B],
            rom_version: cartridge[0x14C],
            hdr_chk: cartridge[0x14D],
            glob_chk: slice_to_vec(slice_subrange(cartridge, 0x14E, 0x150)),
        };
        let dat = slice_to_vec(slice_subrange(cartridge, DATA_OFFSET, cartridge.len()));
        let bios = slice_to_vec(firmware);
        proof {
            assert(header.checksum_bytes() =~= cartridge@.subrange(
                CHECKSUM_LO as int,
                CHECKSUM_HI as int,
            ));
        }
        Ok(ROM { bios, header, dat })
    }

    /// Recomputes the header checksum over the loaded aggregate: the bytes
    /// of the fields stored at image offsets [`CHECKSUM_LO`, `CHECKSUM_HI`)
    /// (title through rom_version), folded in ascending offset order with
    /// `acc = acc - b - 1` under unsigned 8-bit wraparound, from 0.  The
    /// caller compares the result against the stored `hdr_chk` field to
    /// judge cartridge integrity; a mismatch is deliberately not an error,
    /// so malformed or test images can still be loaded and inspected.
    pub fn hdr_chk(&self) -> (chk: u8)
        ensures
            chk == header_checksum_spec(self.header),
    {
        let mut bytes: Vec<u8> = Vec::new();
        append_bytes(&mut bytes, &self.header.title);
        append_bytes(&mut bytes, &self.header.new_lic_code);
        bytes.push(self.header.sgb_flag);
        bytes.push(self.header.ctdg_type);
        bytes.push(self.header.rom_size);
        bytes.push(self.header.ram_size);
        bytes.push(self.header.dst_code);
        bytes.push(self.header.old_lic_code);
        bytes.push(self.header.rom_version);
        proof {
            assert(bytes@ =~= self.header.checksum_bytes());
        }
        let mut chk: u8 = 0;
        let mut i: usize = 0;
        while i < bytes.len()
            invariant
                i <= bytes@.len(),
                bytes@ == self.header.checksum_bytes(),
                chk == checksum_fold(bytes@, i as int),
            decreases bytes@.len() - i,
        {
            chk = chk.wrapping_sub(bytes[i]).wrapping_sub(1);
            i = i + 1;
        }
        chk
    }

    /// Derives the cartridge's logical ROM size in bytes from the header's
    /// size code: 32 KiB times 2^code for codes 0 through 8.  Any other code
    /// is unrecognized and falls back to the minimum of 32 KiB; callers must
    /// treat that as "unknown, assume minimum", not an authoritative size.
    pub fn rom_size_bytes(&self) -> (size: u32)
        ensures
            self.header.rom_size <= 8 ==> size == 0x8000u32 << (self.header.rom_size as u32),
            self.header.rom_size > 8 ==> size == 0x8000u32,
    {
        if self.header.rom_size <= 8 {
            0x8000u32 << (self.header.rom_size as u32)
        } else {
            0x8000u32
        }
    }
}

} // verus!
