use vstd::prelude::*;

verus! {

/// The machine-type field value used for this target.
pub const EM_6502: u16 = 0x6502;

/// A 32-bit ELF executable header for the 6502 target. Every field is a
/// constant for this target; the header is written once, ahead of the
/// assembled section bytes.
#[derive(Debug, Clone, PartialEq, Eq)]
pub struct Elf32Ehdr {
    pub e_ident: [u8; 16],
    pub e_type: u16,
    pub e_machine: u16,
    pub e_version: u32,
    pub e_entry: u32,
    pub e_phoff: u32,
    pub e_shoff: u32,
    pub e_flags: u32,
    pub e_ehsize: u16,
    pub e_phentsize: u16,
    pub e_phnum: u16,
    pub e_shentsize: u16,
    pub e_shnum: u16,
    pub e_shstrndx: u16,
}

/// A 16-bit value as two little-endian bytes.
pub open spec fn spec_le16(v: u16) -> Seq<u8> {
    seq![(v & 0xFF) as u8, ((v >> 8) & 0xFF) as u8]
}

/// A 32-bit value as four little-endian bytes.
pub open spec fn spec_le32(v: u32) -> Seq<u8> {
    seq![
        (v & 0xFF) as u8,
        ((v >> 8) & 0xFF) as u8,
        ((v >> 16) & 0xFF) as u8,
        ((v >> 24) & 0xFF) as u8,
    ]
}

/// The 52-byte on-disk layout of the header: the identification bytes
/// followed by each field, little-endian.
pub open spec fn spec_header_bytes(h: Elf32Ehdr) -> Seq<u8> {
    h.e_ident@ + spec_le16(h.e_type) + spec_le16(h.e_machine) + spec_le32(h.e_version)
        + spec_le32(h.e_entry) + spec_le32(h.e_phoff) + spec_le32(h.e_shoff) + spec_le32(h.e_flags)
        + spec_le16(h.e_ehsize) + spec_le16(h.e_phentsize) + spec_le16(h.e_phnum) + spec_le16(
        h.e_shentsize,
    ) + spec_le16(h.e_shnum) + spec_le16(h.e_shstrndx)
}

fn push_le16(acc: &mut Vec<u8>, v: u16)
    ensures
        final(acc)@ == old(acc)@ + spec_le16(v),
{
    acc.push((v & 0xFF) as u8);
    acc.push(((v >> 8) & 0xFF) as u8);
    assert(acc@ =~= old(acc)@ + spec_le16(v));
}

fn push_le32(acc: &mut Vec<u8>, v: u32)
    ensures
        final(acc)@ == old(acc)@ + spec_le32(v),
{
    acc.push((v & 0xFF) as u8);
    acc.push(((v >> 8) & 0xFF) as u8);
    acc.push(((v >> 16) & 0xFF) as u8);
    acc.push(((v >> 24) & 0xFF) as u8);
    assert(acc@ =~= old(acc)@ + spec_le32(v));
}

impl Elf32Ehdr {
    /// The fixed header for a 6502 executable: ELF magic, 32-bit class,
    /// little-endian encoding, current version, executable type, and a
    /// 52-byte header with the program-header table directly after it.
    pub fn new() -> (h: Elf32Ehdr)
        ensures
            h.e_ident@ == seq![
                0x7Fu8, 0x45u8, 0x4Cu8, 0x46u8, 1u8, 1u8, 1u8, 0u8, 0u8, 0u8, 0u8, 0u8, 0u8, 0u8,
                0u8, 0u8,
            ],
            h.e_type == 2u16,
            h.e_machine == EM_6502,
            h.e_version == 1u32,
            h.e_entry == 0x08048000u32,
            h.e_phoff == 52u32,
            h.e_shoff == 0u32,
            h.e_flags == 0u32,
            h.e_ehsize == 52u16,
            h.e_phentsize == 0u16,
            h.e_phnum == 0u16,
            h.e_shentsize == 0u16,
            h.e_shnum == 0u16,
            h.e_shstrndx == 0u16,
    {
        let e_ident: [u8; 16] = [0x7F, 0x45, 0x4C, 0x46, 1, 1, 1, 0, 0, 0, 0, 0, 0, 0, 0, 0];
        assert(e_ident@ =~= seq![
            0x7Fu8, 0x45u8, 0x4Cu8, 0x46u8, 1u8, 1u8, 1u8, 0u8, 0u8, 0u8, 0u8, 0u8, 0u8, 0u8, 0u8,
            0u8,
        ]);
        Elf32Ehdr {
            e_ident,
            e_type: 2,
            e_machine: EM_6502,
            e_version: 1,
            e_entry: 0x08048000,
            e_phoff: 52,
            e_shoff: 0,
            e_flags: 0,
            e_ehsize: 52,
            e_phentsize: 0,
            e_phnum: 0,
            e_shentsize: 0,
            e_shnum: 0,
            e_shstrndx: 0,
        }
    }

    /// Serializes the header into its 52-byte on-disk form.
    #[verifier::loop_isolation(false)]
    pub fn header_bytes(&self) -> (r: Vec<u8>)
        ensures
            r@ == spec_header_bytes(*self),
            r@.len() == 52,
    {
        let mut acc: Vec<u8> = Vec::new();
        let mut i: usize = 0;
        assert(acc@ =~= self.e_ident@.take(0));
        while i < 16
            invariant
                i <= 16,
                acc@ == self.e_ident@.take(i as int),
            decreases 16 - i,
        {
            acc.push(self.e_ident[i]);
            assert(acc@ =~= self.e_ident@.take(i as int + 1));
            i = i + 1;
        }
        assert(acc@ =~= self.e_ident@);
        push_le16(&mut acc, self.e_type);
        push_le16(&mut acc, self.e_machine);
        push_le32(&mut acc, self.e_version);
        push_le32(&mut acc, self.e_entry);
        push_le32(&mut acc, self.e_phoff);
        push_le32(&mut acc, self.e_shoff);
        push_le32(&mut acc, self.e_flags);
        push_le16(&mut acc, self.e_ehsize);
        push_le16(&mut acc, self.e_phentsize);
        push_le16(&mut acc, self.e_phnum);
        push_le16(&mut acc, self.e_shentsize);
        push_le16(&mut acc, self.e_shnum);
        push_le16(&mut acc, self.e_shstrndx);
        assert(acc@ =~= spec_header_bytes(*self));
        acc
    }
}

} // verus!
