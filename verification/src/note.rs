//! The boot descriptor advertiser: the loader-discoverable note record that
//! names the binary's physical entry point.
//!
//! A note record is `namesz: u32, descsz: u32, type: u32`, then the
//! null-terminated owner name padded to 4-byte alignment, then the value
//! bytes padded to 4-byte alignment, all little-endian.  The loader locates
//! the entry point by scanning the image's notes for the entry-point type
//! code under the owner name "Xen", so the record must be byte-exact: any
//! length or alignment slip makes the binary unbootable.

use vstd::prelude::*;

use crate::bytes::{
    lemma_u32_le_round_trip, push_u32_le, push_u64_le, read_u32_le, u32_le_at, u32_le_bytes,
    u64_le_bytes,
};

verus! {

/// The note type code under which the loader looks for the physical entry
/// point of a PVH binary.
pub const XEN_ELFNOTE_PHYS32_ENTRY: u32 = 18;

/// The owner name of the boot notes: "Xen", null-terminated.  Four bytes,
/// so the name field needs no padding.
pub open spec fn spec_note_name() -> Seq<u8> {
    seq![0x58u8, 0x65u8, 0x6eu8, 0x00u8]
}

/// Bytes of padding that bring a field of `n` bytes to 4-byte alignment.
pub open spec fn spec_pad4(n: int) -> int {
    (4 - n % 4) % 4
}

/// `n` brought up to 4-byte alignment.
pub open spec fn spec_align4(n: int) -> int {
    n + spec_pad4(n)
}

/// `n` zero bytes.
pub open spec fn spec_zeros(n: int) -> Seq<u8> {
    Seq::new(n as nat, |i: int| 0u8)
}

/// The note record that advertises `desc` under type `note_type` and owner
/// name "Xen".
pub open spec fn spec_note(note_type: u32, desc: Seq<u8>) -> Seq<u8> {
    u32_le_bytes(4) + u32_le_bytes(desc.len() as u32) + u32_le_bytes(note_type)
        + spec_note_name() + desc + spec_zeros(spec_pad4(desc.len() as int))
}

/// Emits the note record that advertises `desc` under type `note_type`:
/// name length, value length, type code, the name "Xen" with its
/// terminator, then the value bytes padded to 4-byte alignment.
pub fn build_note(note_type: u32, desc: &Vec<u8>) -> (r: Vec<u8>)
    requires
        desc@.len() <= u32::MAX,
    ensures
        r@ == spec_note(note_type, desc@),
{
    let desc_len = desc.len();
    let mut out: Vec<u8> = Vec::new();
    push_u32_le(&mut out, 4);
    push_u32_le(&mut out, desc_len as u32);
    push_u32_le(&mut out, note_type);
    out.push(0x58);
    out.push(0x65);
    out.push(0x6e);
    out.push(0x00);
    let ghost header = out@;
    proof {
        assert(header =~= u32_le_bytes(4) + u32_le_bytes(desc@.len() as u32) + u32_le_bytes(
            note_type,
        ) + spec_note_name());
    }
    let mut i: usize = 0;
    while i < desc_len
        invariant
            i <= desc_len,
            desc_len == desc@.len(),
            out@ == header + desc@.subrange(0, i as int),
        decreases desc_len - i,
    {
        out.push(desc[i]);
        proof {
            assert(out@ =~= header + desc@.subrange(0, i + 1));
        }
        i = i + 1;
    }
    proof {
        assert(desc@.subrange(0, desc@.len() as int) =~= desc@);
    }
    let pad: usize = (4 - desc_len % 4) % 4;
    let ghost with_desc = out@;
    let mut j: usize = 0;
    while j < pad
        invariant
            j <= pad,
            out@ == with_desc + spec_zeros(j as int),
        decreases pad - j,
    {
        out.push(0x00);
        proof {
            assert(out@ =~= with_desc + spec_zeros(j + 1));
        }
        j = j + 1;
    }
    proof {
        assert(pad == spec_pad4(desc@.len() as int));
        assert(out@ =~= spec_note(note_type, desc@));
    }
    out
}

/// How wide the entry address is encoded in the note's value field: the
/// boot protocol takes a 4-byte or an 8-byte encoding.
#[derive(Clone, Copy, Debug, PartialEq, Eq, Structural)]
pub enum NoteValueWidth {
    Word32,
    Word64,
}

/// The value field of the entry-point note for `entry_addr` at `width`.
pub open spec fn spec_entry_point_desc(entry_addr: u64, width: NoteValueWidth) -> Seq<u8> {
    match width {
        NoteValueWidth::Word32 => u32_le_bytes(entry_addr as u32),
        NoteValueWidth::Word64 => u64_le_bytes(entry_addr),
    }
}

/// Emits the entry-point note: the record the loader scans for to find the
/// physical entry address of the binary.
pub fn entry_point_note(entry_addr: u64, width: NoteValueWidth) -> (r: Vec<u8>)
    requires
        width is Word32 ==> entry_addr <= u32::MAX,
    ensures
        r@ == spec_note(XEN_ELFNOTE_PHYS32_ENTRY, spec_entry_point_desc(entry_addr, width)),
{
    let mut desc: Vec<u8> = Vec::new();
    match width {
        NoteValueWidth::Word32 => push_u32_le(&mut desc, entry_addr as u32),
        NoteValueWidth::Word64 => push_u64_le(&mut desc, entry_addr),
    }
    proof {
        assert(desc@ =~= spec_entry_point_desc(entry_addr, width));
    }
    build_note(XEN_ELFNOTE_PHYS32_ENTRY, &desc)
}

/// A note record as a scanning reader sees it.
pub struct ParsedNote {
    pub namesz: u32,
    pub descsz: u32,
    pub note_type: u32,
    pub name: Vec<u8>,
    pub desc: Vec<u8>,
}

/// Whether `s` starts with a complete note record: the three length fields,
/// the name, and — after the name's alignment padding — the value bytes.
pub open spec fn spec_note_wf(s: Seq<u8>) -> bool {
    &&& s.len() >= 12
    &&& 12 + spec_align4(u32_le_at(s, 0) as int) + u32_le_at(s, 4) <= s.len()
}

/// The name field of the note record at the start of `s`.
pub open spec fn spec_parsed_name(s: Seq<u8>) -> Seq<u8> {
    s.subrange(12, 12 + u32_le_at(s, 0))
}

/// The value field of the note record at the start of `s`.
pub open spec fn spec_parsed_desc(s: Seq<u8>) -> Seq<u8> {
    let off = 12 + spec_align4(u32_le_at(s, 0) as int);
    s.subrange(off, off + u32_le_at(s, 4))
}

/// Reads the note record at the start of `bytes`, the way a loader's note
/// scanner does: the three length fields first, then the name, then the
/// value at the next 4-byte boundary.  Returns nothing when the buffer is
/// too short for the record it announces.
pub fn parse_note(bytes: &Vec<u8>) -> (r: Option<ParsedNote>)
    ensures
        r is Some <==> spec_note_wf(bytes@),
        r matches Some(p) ==> {
            &&& p.namesz == u32_le_at(bytes@, 0)
            &&& p.descsz == u32_le_at(bytes@, 4)
            &&& p.note_type == u32_le_at(bytes@, 8)
            &&& p.name@ == spec_parsed_name(bytes@)
            &&& p.desc@ == spec_parsed_desc(bytes@)
        },
{
    let len = bytes.len();
    if len < 12 {
        return None;
    }
    let namesz = read_u32_le(bytes, 0);
    let descsz = read_u32_le(bytes, 4);
    let note_type = read_u32_le(bytes, 8);
    let name_pad: u64 = (4 - (namesz as u64 % 4)) % 4;
    let desc_off: u64 = 12 + namesz as u64 + name_pad;
    if desc_off + descsz as u64 > len as u64 {
        return None;
    }
    let name_end: usize = 12 + namesz as usize;
    let mut name: Vec<u8> = Vec::new();
    let mut i: usize = 12;
    while i < name_end
        invariant
            12 <= i <= name_end,
            name_end == 12 + u32_le_at(bytes@, 0),
            name_end <= bytes@.len(),
            name@ == bytes@.subrange(12, i as int),
        decreases name_end - i,
    {
        name.push(bytes[i]);
        proof {
            assert(name@ =~= bytes@.subrange(12, i + 1));
        }
        i = i + 1;
    }
    let desc_start: usize = desc_off as usize;
    let desc_end: usize = desc_start + descsz as usize;
    let mut desc: Vec<u8> = Vec::new();
    let mut j: usize = desc_start;
    while j < desc_end
        invariant
            desc_start <= j <= desc_end,
            desc_end <= bytes@.len(),
            desc@ == bytes@.subrange(desc_start as int, j as int),
        decreases desc_end - j,
    {
        desc.push(bytes[j]);
        proof {
            assert(desc@ =~= bytes@.subrange(desc_start as int, j + 1));
        }
        j = j + 1;
    }
    proof {
        assert(desc_start == 12 + spec_align4(u32_le_at(bytes@, 0) as int));
    }
    Some(ParsedNote { namesz, descsz, note_type, name, desc })
}

/// A note record built by the advertiser reads back exactly: the name is
/// "Xen" with its terminator, the type code and the value bytes are the
/// ones given.
pub proof fn lemma_note_round_trip(note_type: u32, desc: Seq<u8>)
    requires
        desc.len() <= u32::MAX,
    ensures
        ({
            let s = spec_note(note_type, desc);
            &&& spec_note_wf(s)
            &&& u32_le_at(s, 0) == 4
            &&& u32_le_at(s, 4) == desc.len()
            &&& u32_le_at(s, 8) == note_type
            &&& spec_parsed_name(s) == spec_note_name()
            &&& spec_parsed_desc(s) == desc
        }),
{
    let s = spec_note(note_type, desc);
    let a = u32_le_bytes(4);
    let b = u32_le_bytes(desc.len() as u32);
    let c = u32_le_bytes(note_type);
    assert forall|k: int| 0 <= k < 4 implies s[k] == a[k] && s[4 + k] == b[k] && s[8 + k] == c[k]
        && s[12 + k] == spec_note_name()[k] by {}
    lemma_u32_le_round_trip(4);
    lemma_u32_le_round_trip(desc.len() as u32);
    lemma_u32_le_round_trip(note_type);
    assert(u32_le_at(s, 0) == u32_le_at(a, 0));
    assert(u32_le_at(s, 4) == u32_le_at(b, 0));
    assert(u32_le_at(s, 8) == u32_le_at(c, 0));
    assert(spec_parsed_name(s) =~= spec_note_name());
    assert(spec_parsed_desc(s) =~= desc);
}

} // verus!
