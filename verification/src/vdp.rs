//! The display processor driver: address-space selection, mode-register
//! shadow state, and the DMA transfer engine.
//!
//! The driver owns a shadow copy of the four mode registers and a log of port
//! operations. Every method appends the exact control-port and data-port
//! words the hardware protocol prescribes; an executor outside the verified
//! library performs them in order.

use vstd::prelude::*;

use crate::console::Version;
use crate::flags::TileFlags;
use crate::ops::PortOp;
use crate::ops::ctrl_word;
use crate::ops::word_be;
use crate::registers;
use crate::sprite::Sprite;

verus! {

/// A typedef for tile contents: 8 by 8 pixels, 4 bits each, packed two
/// pixels per byte.
pub type Tile = [u8; 32];

/// A struct representing the various segments of VRAM available on the VDP.
#[derive(Clone, Copy, Debug, PartialEq, Eq, Structural)]
pub enum AddrKind {
    VRAM,
    CRAM,
    VSRAM,
}

impl AddrKind {
    /// The 5-bit control code that selects this address space for writes.
    pub open spec fn code(self) -> u16 {
        match self {
            AddrKind::VRAM => 0b00001,
            AddrKind::CRAM => 0b00011,
            AddrKind::VSRAM => 0b00101,
        }
    }
}

/// A struct representing where the window is drawn instead of plane A for an
/// axis.
///
/// For example x: After(10), would make the window render to the right of
/// tile 10 onwards.
#[derive(Copy, Clone, Debug, PartialEq, Eq, Structural)]
pub enum WindowDivide {
    Before(u8),
    After(u8),
}

impl WindowDivide {
    /// The register byte for this divide: the tile coordinate in the low 5
    /// bits, with the direction flag on top for `After`.
    pub open spec fn reg_value(self) -> u8 {
        match self {
            WindowDivide::Before(v) => v & 0x1f,
            WindowDivide::After(v) => 0x80 | (v & 0x1f),
        }
    }
}

/// This enumeration is for configuring how vertical scrolling works.
#[derive(Clone, Copy, Debug, PartialEq, Eq, Structural)]
pub enum VScrollMode {
    FullScroll,
    DoubleCellScroll,
}

impl VScrollMode {
    /// The 1-bit register code of this mode.
    pub open spec fn spec_code(self) -> u8 {
        match self {
            VScrollMode::FullScroll => 0b0,
            VScrollMode::DoubleCellScroll => 0b1,
        }
    }

    /// The 1-bit register code of this mode.
    #[verifier::when_used_as_spec(spec_code)]
    pub fn code(self) -> (r: u8)
        ensures
            r == self.spec_code(),
    {
        match self {
            VScrollMode::FullScroll => 0b0,
            VScrollMode::DoubleCellScroll => 0b1,
        }
    }
}

/// This enumeration is for configuring how horizontal scrolling works.
#[derive(Clone, Copy, Debug, PartialEq, Eq, Structural)]
pub enum HScrollMode {
    FullScroll,
    CellScroll,
    LineScroll,
}

impl HScrollMode {
    /// The 2-bit register code of this mode.
    pub open spec fn spec_code(self) -> u8 {
        match self {
            HScrollMode::FullScroll => 0b00,
            HScrollMode::CellScroll => 0b10,
            HScrollMode::LineScroll => 0b11,
        }
    }

    /// The 2-bit register code of this mode.
    #[verifier::when_used_as_spec(spec_code)]
    pub fn code(self) -> (r: u8)
        ensures
            r == self.spec_code(),
    {
        match self {
            HScrollMode::FullScroll => 0b00,
            HScrollMode::CellScroll => 0b10,
            HScrollMode::LineScroll => 0b11,
        }
    }
}

/// The interlacing rendering mode.
#[derive(Clone, Copy, Debug, PartialEq, Eq, Structural)]
pub enum InterlaceMode {
    Off,
    Interlace,
    DoubleRes,
}

impl InterlaceMode {
    /// The 2-bit register code of this mode.
    pub open spec fn spec_code(self) -> u8 {
        match self {
            InterlaceMode::Off => 0b00,
            InterlaceMode::Interlace => 0b01,
            InterlaceMode::DoubleRes => 0b11,
        }
    }

    /// The 2-bit register code of this mode.
    #[verifier::when_used_as_spec(spec_code)]
    pub fn code(self) -> (r: u8)
        ensures
            r == self.spec_code(),
    {
        match self {
            InterlaceMode::Off => 0b00,
            InterlaceMode::Interlace => 0b01,
            InterlaceMode::DoubleRes => 0b11,
        }
    }
}

/// The size of the planes in tiles.
#[derive(Clone, Copy, Debug, PartialEq, Eq, Structural)]
pub enum ScrollSize {
    Cell32,
    Cell64,
    Cell128,
}

impl ScrollSize {
    /// The 2-bit register code of this plane size.
    pub open spec fn spec_code(self) -> u8 {
        match self {
            ScrollSize::Cell32 => 0b00,
            ScrollSize::Cell64 => 0b01,
            ScrollSize::Cell128 => 0b11,
        }
    }

    /// The 2-bit register code of this plane size.
    #[verifier::when_used_as_spec(spec_code)]
    pub fn code(self) -> (r: u8)
        ensures
            r == self.spec_code(),
    {
        match self {
            ScrollSize::Cell32 => 0b00,
            ScrollSize::Cell64 => 0b01,
            ScrollSize::Cell128 => 0b11,
        }
    }
}

/// The first of the two control-port words that position the write cursor:
/// the low 14 bits of the offset with the low 2 code bits on top.
pub open spec fn cursor_lo(kind: AddrKind, ptr: u16) -> u16 {
    (ptr & 0x3fff) | (kind.code() << 14)
}

/// The second of the two control-port words that position the write cursor:
/// the top 2 bits of the offset, the high code bits, and the DMA-enable bit.
/// The hardware latches the address when this word arrives.
pub open spec fn cursor_hi(kind: AddrKind, ptr: u16, dma: bool) -> u16 {
    ((ptr >> 14) & 3) | ((kind.code() >> 2) << 4) | (if dma { 0x80 } else { 0 })
}

/// The inverse of the cursor encoding: the address kind and offset that a
/// pair of control words selects.
pub open spec fn spec_decode_cursor(lo: u16, hi: u16) -> (AddrKind, u16) {
    let kind = if lo >> 14 == 3 {
        AddrKind::CRAM
    } else if hi & 0x10 != 0 {
        AddrKind::VSRAM
    } else {
        AddrKind::VRAM
    };
    (kind, (lo & 0x3fff) | ((hi & 3) << 14))
}

/// Recover the `(kind, offset)` pair from an encoded cursor word pair.
///
/// This is the test-only inverse of the encoding done by `set_address`: it
/// never touches hardware.
pub fn decode_cursor(lo: u16, hi: u16) -> (r: (AddrKind, u16))
    ensures
        r == spec_decode_cursor(lo, hi),
{
    let kind = if lo >> 14 == 3 {
        AddrKind::CRAM
    } else if hi & 0x10 != 0 {
        AddrKind::VSRAM
    } else {
        AddrKind::VRAM
    };
    (kind, (lo & 0x3fff) | ((hi & 3) << 14))
}

/// Decoding recovers exactly the kind and offset that were encoded, for
/// every offset and both the immediate and the DMA-triggering form.
pub proof fn lemma_cursor_round_trip(kind: AddrKind, ptr: u16, dma: bool)
    ensures
        spec_decode_cursor(cursor_lo(kind, ptr), cursor_hi(kind, ptr, dma)) == (kind, ptr),
{
    let d: u16 = if dma { 0x80 } else { 0 };
    let c = kind.code();
    lemma_cursor_bits(ptr, d);
    assert(cursor_hi(kind, ptr, dma) == (((ptr >> 14) & 3) | ((c >> 2) << 4)) | d);
}

/// The bit-level facts behind the cursor round trip, for each of the three
/// space codes.
proof fn lemma_cursor_bits(p: u16, d: u16)
    by (bit_vector)
    requires
        d == 0 || d == 0x80,
    ensures
        ((p & 0x3fff) | (1u16 << 14)) >> 14 == 1,
        ((p & 0x3fff) | (3u16 << 14)) >> 14 == 3,
        ((p & 0x3fff) | (5u16 << 14)) >> 14 == 1,
        ((((p >> 14) & 3) | ((1u16 >> 2) << 4)) | d) & 0x10 == 0,
        ((((p >> 14) & 3) | ((3u16 >> 2) << 4)) | d) & 0x10 == 0,
        ((((p >> 14) & 3) | ((5u16 >> 2) << 4)) | d) & 0x10 == 0x10,
        (((p & 0x3fff) | (1u16 << 14)) & 0x3fff) | ((((((p >> 14) & 3) | ((1u16 >> 2) << 4)) | d) & 3) << 14) == p,
        (((p & 0x3fff) | (3u16 << 14)) & 0x3fff) | ((((((p >> 14) & 3) | ((3u16 >> 2) << 4)) | d) & 3) << 14) == p,
        (((p & 0x3fff) | (5u16 << 14)) & 0x3fff) | ((((((p >> 14) & 3) | ((5u16 >> 2) << 4)) | d) & 3) << 14) == p,
{
}

/// The shadow mode value after a masked update: bits under the mask come
/// from `set`, the rest keep their old value.
pub open spec fn mode_after(mode: u32, mask: u32, set: u32) -> u32 {
    (mode & !mask) | (set & mask)
}

/// The control-port words a masked mode update issues: one write per 8-bit
/// register slice whose mask byte is non-zero, lowest register first, each
/// carrying that slice of the new shadow value.
pub open spec fn mode_reg_writes(mask: u32, mode: u32) -> Seq<PortOp> {
    let s1 = if mask & 0xff != 0 {
        seq![PortOp::Control(ctrl_word(registers::MODE_1, mode as u8))]
    } else {
        Seq::<PortOp>::empty()
    };
    let s2 = if mask & 0xff00 != 0 {
        seq![PortOp::Control(ctrl_word(registers::MODE_2, (mode >> 8) as u8))]
    } else {
        Seq::<PortOp>::empty()
    };
    let s3 = if mask & 0xff0000 != 0 {
        seq![PortOp::Control(ctrl_word(registers::MODE_3, (mode >> 16) as u8))]
    } else {
        Seq::<PortOp>::empty()
    };
    let s4 = if mask & 0xff000000 != 0 {
        seq![PortOp::Control(ctrl_word(registers::MODE_4, (mode >> 24) as u8))]
    } else {
        Seq::<PortOp>::empty()
    };
    s1 + s2 + s3 + s4
}

/// `v` when the flag is set, zero otherwise.
pub open spec fn spec_flag_32(v: u32, b: bool) -> u32 {
    if b {
        v
    } else {
        0
    }
}

fn flag_32(v: u32, b: bool) -> (r: u32)
    ensures
        r == spec_flag_32(v, b),
{
    if b {
        v
    } else {
        0
    }
}

/// The hardware cannot cross a naturally aligned 0x20000-word boundary of
/// the source address within one physical transfer: the first chunk of an
/// upload is the lesser of the remaining length and the distance from the
/// source address to the next boundary.
pub open spec fn chunk_len(src: u32, len: u32) -> u32
    recommends
        len > 0,
{
    if 0x20000 - (src & 0x1ffff) < len {
        (0x20000 - (src & 0x1ffff)) as u32
    } else {
        len
    }
}

/// The `(source, size)` pairs of the physical transfers that one logical
/// upload of `len` units starting at source address `src` is split into.
pub open spec fn upload_chunks(src: u32, len: u32) -> Seq<(u32, u32)>
    decreases len,
    via upload_chunks_decreases
{
    if len == 0 {
        Seq::empty()
    } else {
        let c = chunk_len(src, len);
        seq![(src, c)] + upload_chunks((src + c) as u32, (len - c) as u32)
    }
}

#[via_fn]
proof fn upload_chunks_decreases(src: u32, len: u32) {
    lemma_low_masks();
}

/// The register programming for one physical transfer: 16-bit length, 23-bit
/// source word address, then the DMA-triggering cursor pair and the
/// completion poll.
pub open spec fn chunk_ops(kind: AddrKind, dst: u32, src: u32, clen: u32) -> Seq<PortOp> {
    seq![
        PortOp::Control(ctrl_word(registers::DMA_LEN_L, clen as u8)),
        PortOp::Control(ctrl_word(registers::DMA_LEN_H, (clen >> 8) as u8)),
        PortOp::Control(ctrl_word(registers::DMA_SRC_L, src as u8)),
        PortOp::Control(ctrl_word(registers::DMA_SRC_M, (src >> 8) as u8)),
        PortOp::Control(ctrl_word(registers::DMA_SRC_H, (src >> 16) as u8)),
        PortOp::Control(cursor_lo(kind, dst as u16)),
        PortOp::Control(cursor_hi(kind, dst as u16, true)),
        PortOp::WaitDma,
    ]
}

/// The operations of a whole chunked upload: one register-program/trigger/
/// poll round per chunk, source and destination advancing together.
pub open spec fn upload_body_ops(kind: AddrKind, dst: u32, src: u32, len: u32) -> Seq<PortOp>
    decreases len,
    via upload_body_ops_decreases
{
    if len == 0 {
        Seq::empty()
    } else {
        let c = chunk_len(src, len);
        chunk_ops(kind, dst, src, c) + upload_body_ops(
            kind,
            (dst + c) as u32,
            (src + c) as u32,
            (len - c) as u32,
        )
    }
}

#[via_fn]
proof fn upload_body_ops_decreases(kind: AddrKind, dst: u32, src: u32, len: u32) {
    lemma_low_masks();
}

/// Masking by a low bit mask bounds the result by that mask.
proof fn lemma_low_masks()
    by (bit_vector)
    ensures
        forall|x: u32| #[trigger] (x & 0x1ffff) <= 0x1ffff,
        forall|x: u32| #[trigger] ((x >> 1) & 0x7fffff) <= 0x7fffff,
{
}

/// Entering and then leaving DMA mode leaves the shadow mode with the DMA
/// bit cleared and everything else untouched.
proof fn lemma_dma_mode_bits(m: u32)
    by (bit_vector)
    ensures
        mode_after(mode_after(m, 0x1000, 0x1000), 0x1000, 0) == m & !0x1000u32,
{
}

/// The full operation sequence of `dma_upload`: DMA mode on, the chunked
/// transfers over the word-address form of the source, DMA mode off.
pub open spec fn upload_ops(mode: u32, kind: AddrKind, dst: u16, src: u32, len: u16) -> Seq<
    PortOp,
> {
    mode_reg_writes(0x1000, mode_after(mode, 0x1000, 0x1000)) + upload_body_ops(
        kind,
        dst as u32,
        (src >> 1) & 0x7fffff,
        len as u32,
    ) + mode_reg_writes(0x1000, mode_after(mode_after(mode, 0x1000, 0x1000), 0x1000, 0))
}

/// The full operation sequence of `dma_set`: DMA mode on, increment forced
/// to one byte, length and the fill source marker programmed, the trigger
/// cursor, the single data write that starts the fill, the completion poll,
/// then DMA mode off and the increment restored.
pub open spec fn fill_ops(mode: u32, kind: AddrKind, dst: u16, fill: u8, len: u16) -> Seq<
    PortOp,
> {
    mode_reg_writes(0x1000, mode_after(mode, 0x1000, 0x1000)) + seq![
        PortOp::Control(ctrl_word(registers::INCR, 1)),
        PortOp::Control(ctrl_word(registers::DMA_LEN_L, len as u8)),
        PortOp::Control(ctrl_word(registers::DMA_LEN_H, (len >> 8) as u8)),
        PortOp::Control(ctrl_word(registers::DMA_SRC_H, 0x80)),
        PortOp::Control(cursor_lo(kind, dst)),
        PortOp::Control(cursor_hi(kind, dst, true)),
        PortOp::Data(fill as u16),
        PortOp::WaitDma,
    ] + mode_reg_writes(0x1000, mode_after(mode_after(mode, 0x1000, 0x1000), 0x1000, 0)) + seq![
        PortOp::Control(ctrl_word(registers::INCR, 2)),
    ]
}

/// The full operation sequence of `dma_copy`: DMA mode on, length and the
/// in-space source offset with the copy marker programmed, the trigger
/// cursor, the completion poll, then DMA mode off.
pub open spec fn copy_ops(mode: u32, kind: AddrKind, dst: u16, src: u16, len: u16) -> Seq<
    PortOp,
> {
    mode_reg_writes(0x1000, mode_after(mode, 0x1000, 0x1000)) + seq![
        PortOp::Control(ctrl_word(registers::DMA_LEN_L, len as u8)),
        PortOp::Control(ctrl_word(registers::DMA_LEN_H, (len >> 8) as u8)),
        PortOp::Control(ctrl_word(registers::DMA_SRC_L, src as u8)),
        PortOp::Control(ctrl_word(registers::DMA_SRC_M, (src >> 8) as u8)),
        PortOp::Control(ctrl_word(registers::DMA_SRC_H, 0xc0)),
        PortOp::Control(cursor_lo(kind, dst)),
        PortOp::Control(cursor_hi(kind, dst, true)),
        PortOp::WaitDma,
    ] + mode_reg_writes(0x1000, mode_after(mode_after(mode, 0x1000, 0x1000), 0x1000, 0))
}

/// The 16 data-port words of one tile, two packed pixel bytes per word in
/// the 68k's big-endian order.
pub open spec fn tile_data_ops(t: Tile) -> Seq<PortOp> {
    Seq::new(16, |j: int| PortOp::Data(word_be(t@[2 * j], t@[2 * j + 1])))
}

/// The data-port words of a run of tiles, in order.
pub open spec fn tiles_data_ops(ts: Seq<Tile>) -> Seq<PortOp>
    decreases ts.len(),
{
    if ts.len() == 0 {
        Seq::empty()
    } else {
        tiles_data_ops(ts.drop_last()) + tile_data_ops(ts.last())
    }
}

/// The 4 data-port words of one sprite descriptor, in the hardware order:
/// vertical position, size code over link, attribute flags, horizontal
/// position.
pub open spec fn sprite_data_ops(s: Sprite) -> Seq<PortOp> {
    seq![
        PortOp::Data(s.y),
        PortOp::Data(word_be(s.size.spec_code(), s.link)),
        PortOp::Data(s.flags.bits()),
        PortOp::Data(s.x),
    ]
}

/// The data-port words of a run of sprite descriptors, in order.
pub open spec fn sprites_data_ops(ss: Seq<Sprite>) -> Seq<PortOp>
    decreases ss.len(),
{
    if ss.len() == 0 {
        Seq::empty()
    } else {
        sprites_data_ops(ss.drop_last()) + sprite_data_ops(ss.last())
    }
}

/// Shifting a small value left is multiplication while the result fits.
proof fn lemma_low_shifts(f: u16)
    by (bit_vector)
    ensures
        f < 2048 ==> (f << 5) == f * 32,
        f < 8192 ==> (f << 3) == f * 8,
        f <= 0x7fff ==> (f << 1) == f * 2,
{
}

/// Relies on `<[T]>::as_ptr`: the numeric bus address of the first element
/// of a slice, which the DMA source registers are programmed with. The
/// address depends on where the value lives in memory, so nothing is
/// promised of the result.
#[verifier::external_body]
fn slice_addr<T>(data: &[T]) -> u32 {
    data.as_ptr() as usize as u32
}

/// The total number of units moved by a list of `(source, size)` chunks.
pub open spec fn chunks_total(cs: Seq<(u32, u32)>) -> int
    decreases cs.len(),
{
    if cs.len() == 0 {
        0
    } else {
        cs[0].1 + chunks_total(cs.drop_first())
    }
}

/// One register-program/trigger/poll round per chunk, the destination
/// advancing by each chunk's size.
pub open spec fn chunk_rounds(kind: AddrKind, dst: u32, cs: Seq<(u32, u32)>) -> Seq<PortOp>
    decreases cs.len(),
{
    if cs.len() == 0 {
        Seq::empty()
    } else {
        chunk_ops(kind, dst, cs[0].0, cs[0].1) + chunk_rounds(
            kind,
            (dst + cs[0].1) as u32,
            cs.drop_first(),
        )
    }
}

/// The bit-level facts about the first chunk of an upload: it is at least
/// one unit, it never leaves the naturally aligned block its source starts
/// in, and when it is boundary-limited it ends exactly on the boundary.
proof fn lemma_chunk_head_bits(src: u32, c: u32)
    by (bit_vector)
    requires
        1 <= c,
        c <= 0x20000 - (src & 0x1ffff),
        src + c <= 0xffffffff,
    ensures
        ((src + c - 1) as u32) & !0x1ffffu32 == src & !0x1ffffu32,
        c == 0x20000 - (src & 0x1ffff) ==> ((src + c) as u32) % 0x20000 == 0,
{
}

/// The chunking law: the chunk sizes of an upload sum to exactly its
/// length; every chunk is non-empty and stays within one naturally aligned
/// source block; the chunks are contiguous in source order; and every chunk
/// but the last ends exactly on an alignment boundary, so the split uses no
/// more transfers than the hardware's source-boundary rule forces and no
/// chunk is smaller than necessary except the final remainder.
pub proof fn lemma_upload_chunking(src: u32, len: u32)
    requires
        src + len <= 0xffffffff,
    ensures
        chunks_total(upload_chunks(src, len)) == len,
        len > 0 ==> upload_chunks(src, len).len() >= 1 && upload_chunks(src, len)[0].0 == src,
        forall|i: int|
            0 <= i < upload_chunks(src, len).len() ==> #[trigger] upload_chunks(src, len)[i].1
                >= 1,
        forall|i: int|
            0 <= i < upload_chunks(src, len).len() ==> ((#[trigger] upload_chunks(src, len)[i].0
                + upload_chunks(src, len)[i].1 - 1) as u32) & !0x1ffffu32 == upload_chunks(
                src,
                len,
            )[i].0 & !0x1ffffu32,
        forall|i: int|
            0 <= i < upload_chunks(src, len).len() - 1 ==> ((#[trigger] upload_chunks(
                src,
                len,
            )[i].0 + upload_chunks(src, len)[i].1) as u32) % 0x20000 == 0,
        forall|i: int|
            0 < i < upload_chunks(src, len).len() ==> #[trigger] upload_chunks(src, len)[i].0
                == upload_chunks(src, len)[i - 1].0 + upload_chunks(src, len)[i - 1].1,
    decreases len,
{
    lemma_low_masks();
    if len > 0 {
        let c = chunk_len(src, len);
        let cs = upload_chunks(src, len);
        let rest = upload_chunks((src + c) as u32, (len - c) as u32);
        lemma_chunk_head_bits(src, c);
        lemma_upload_chunking((src + c) as u32, (len - c) as u32);
        assert(cs =~= seq![(src, c)] + rest);
        assert(cs.drop_first() =~= rest);
        assert(chunks_total(cs) == c + chunks_total(rest));
        if (len - c) as u32 > 0 {
            assert(c < len);
            assert(rest[0].0 == (src + c) as u32);
        }
        assert forall|i: int| 0 < i < cs.len() implies #[trigger] cs[i].0 == cs[i - 1].0 + cs[i
            - 1].1 by {
            if i == 1 {
                assert(cs[1] == rest[0]);
            } else {
                assert(cs[i] == rest[i - 1]);
                assert(cs[i - 1] == rest[i - 2]);
            }
        }
    }
}

/// The op sequence of a chunked upload is exactly one program/trigger/poll
/// round per chunk of `upload_chunks`.
pub proof fn lemma_upload_ops_chunks(kind: AddrKind, dst: u32, src: u32, len: u32)
    ensures
        upload_body_ops(kind, dst, src, len) == chunk_rounds(kind, dst, upload_chunks(src, len)),
    decreases len,
{
    lemma_low_masks();
    if len > 0 {
        let c = chunk_len(src, len);
        let cs = upload_chunks(src, len);
        let rest = upload_chunks((src + c) as u32, (len - c) as u32);
        lemma_upload_ops_chunks(kind, (dst + c) as u32, (src + c) as u32, (len - c) as u32);
        assert(cs.drop_first() =~= rest);
        assert(upload_body_ops(kind, dst, src, len) =~= chunk_rounds(kind, dst, cs));
    }
}

/// The full initialization protocol: a latch-resetting status read, all
/// four mode registers written with the hardware-mandated defaults, the
/// five table-base registers, the increment, plane size, window, background
/// and h-blank-rate settings, a fill wipe of all three memory banks, and
/// the default palette upload, whose source address depends on where the
/// palette values sit in memory.
pub open spec fn init_ops(pal_src: u32) -> Seq<PortOp> {
    seq![PortOp::ReadStatus] + mode_reg_writes(0xffffffffu32, 0x81000404u32) + seq![
        PortOp::Control(ctrl_word(registers::PLANE_A, 0x30)),
        PortOp::Control(ctrl_word(registers::PLANE_B, 0x07)),
        PortOp::Control(ctrl_word(registers::SPRITE, 0x78)),
        PortOp::Control(ctrl_word(registers::WINDOW, 0x30)),
        PortOp::Control(ctrl_word(registers::HSCROLL, 0x3d)),
        PortOp::Control(ctrl_word(registers::INCR, 2)),
        PortOp::Control(ctrl_word(registers::SIZE, 0)),
        PortOp::Control(ctrl_word(registers::WINX, 0)),
        PortOp::Control(ctrl_word(registers::WINY, 0)),
        PortOp::Control(ctrl_word(registers::BG_COLOUR, 0)),
        PortOp::Control(ctrl_word(registers::HBLANK_RATE, 0xff)),
    ] + fill_ops(0x81000404u32, AddrKind::VRAM, 0, 0, 0xffff) + fill_ops(
        0x81000404u32,
        AddrKind::CRAM,
        0,
        0,
        registers::CRAM_SIZE,
    ) + fill_ops(0x81000404u32, AddrKind::VSRAM, 0, 0, registers::VSRAM_SIZE) + upload_ops(
        0x81000404u32,
        AddrKind::CRAM,
        0,
        pal_src,
        32,
    )
}

/// The literal register values of the initialization protocol.
proof fn lemma_init_values()
    by (bit_vector)
    ensures
        !0u32 == 0xffffffffu32,
        mode_after(0x81000404u32, 0xffffffffu32, 0x81000404u32) == 0x81000404u32,
        0x81000404u32 & !0x1000u32 == 0x81000404u32,
        ((0xc00u16 >> 6) & 0x38) as u8 == 0x30,
        (0xe00u16 >> 9) as u8 == 0x07,
        (0xf000u16 >> 9) as u8 == 0x78,
        ((0xd00u16 >> 6) & 0x38) as u8 == 0x30,
        (0xf40u16 >> 6) as u8 == 0x3d,
        0u8 & 0x1f == 0,
        0u8 | (0u8 << 4) == 0,
        ((0u8 & 3) << 4) | 0 == 0,
{
}

/// The hardware-mandated default colours loaded into palette bank 0 at
/// initialization.
fn default_palette() -> [u16; 16] {
    [
        0x000,
        0xFFF,
        0xF00,
        0x0F0,
        0x00B,
        0xFF0,
        0xF0F,
        0x0FF,
        0x666,
        0xBBB,
        0x800,
        0x080,
        0x008,
        0x880,
        0x808,
        0x088,
    ]
}

/// The driver handle for the display processor.
///
/// Exactly one instance should exist: every hardware access goes through
/// `&mut self`, so two handles would interleave register writes unchecked.
pub struct VDP {
    mode: u32,
    sprites_base: u16,
    plane_a_base: u16,
    plane_b_base: u16,
    scroll_h_base: u16,
    window_base: u16,
    version: Version,
    ops: Vec<PortOp>,
}

impl VDP {
    /// The cached aggregate of the four mode registers, register 4 in the
    /// highest 8 bits down to register 1 in the lowest.
    pub closed spec fn shadow_mode(self) -> u32 {
        self.mode
    }

    /// The port operations recorded and not yet handed to the executor.
    pub closed spec fn log(self) -> Seq<PortOp> {
        self.ops@
    }

    /// The recorded base offset of the sprite table in VRAM.
    pub closed spec fn base_sprites(self) -> u16 {
        self.sprites_base
    }

    /// The recorded base offset of the plane A tile map in VRAM.
    pub closed spec fn base_plane_a(self) -> u16 {
        self.plane_a_base
    }

    /// The recorded base offset of the plane B tile map in VRAM.
    pub closed spec fn base_plane_b(self) -> u16 {
        self.plane_b_base
    }

    /// The recorded base offset of the horizontal scroll table in VRAM.
    pub closed spec fn base_scroll_h(self) -> u16 {
        self.scroll_h_base
    }

    /// The recorded base offset of the window plane in VRAM.
    pub closed spec fn base_window(self) -> u16 {
        self.window_base
    }

    /// The console version the driver was initialised with.
    pub closed spec fn console_version(self) -> Version {
        self.version
    }

    /// The parts of the driver state that a plain register write leaves
    /// alone: everything but the operation log.
    pub open spec fn same_config(self, other: VDP) -> bool {
        &&& self.shadow_mode() == other.shadow_mode()
        &&& self.same_bases(other)
    }

    /// The recorded table bases and console version, all unchanged.
    pub open spec fn same_bases(self, other: VDP) -> bool {
        &&& self.base_sprites() == other.base_sprites()
        &&& self.base_plane_a() == other.base_plane_a()
        &&& self.base_plane_b() == other.base_plane_b()
        &&& self.base_scroll_h() == other.base_scroll_h()
        &&& self.base_window() == other.base_window()
        &&& self.console_version() == other.console_version()
    }

    /// Hand the recorded operations to the caller and clear the log.
    ///
    /// The unverified executor calls this after each batch of operations and
    /// performs them against the hardware ports in order.
    pub fn take_ops(&mut self) -> (r: Vec<PortOp>)
        ensures
            r@ == old(self).log(),
            final(self).log() == Seq::<PortOp>::empty(),
            final(self).same_config(*old(self)),
    {
        let mut out: Vec<PortOp> = Vec::new();
        core::mem::swap(&mut out, &mut self.ops);
        out
    }

    /// Set a single VDP register.
    ///
    /// This can cause the VDP to become out of sync with our state caching.
    /// Where possible it is best to use the specific methods in `VDP`.
    pub fn set_register(&mut self, reg: u8, value: u8)
        ensures
            final(self).log() == old(self).log().push(
                PortOp::Control(ctrl_word(reg, value)),
            ),
            final(self).same_config(*old(self)),
    {
        let v = ((reg as u16) << 8) | (value as u16);
        self.ops.push(PortOp::Control(v));
    }

    /// Write data to VRAM at the current write address.
    pub fn write_data(&mut self, data: u16)
        ensures
            final(self).log() == old(self).log().push(PortOp::Data(data)),
            final(self).same_config(*old(self)),
    {
        self.ops.push(PortOp::Data(data));
    }

    /// Record one completion poll: the executor reads the control port until
    /// the DMA-busy bit clears before performing the next operation.
    fn wait_for_dma(&mut self)
        ensures
            final(self).log() == old(self).log().push(PortOp::WaitDma),
            final(self).same_config(*old(self)),
    {
        self.ops.push(PortOp::WaitDma);
    }

    /// Issue the two cursor words, low half first; the hardware latches the
    /// address on the second write.
    fn set_addr_raw(&mut self, kind: AddrKind, ptr: u16, dma: bool)
        ensures
            final(self).log() == old(self).log() + seq![
                PortOp::Control(cursor_lo(kind, ptr)),
                PortOp::Control(cursor_hi(kind, ptr, dma)),
            ],
            final(self).same_config(*old(self)),
    {
        let ctrl: u16 = match kind {
            AddrKind::VRAM => 0b00001,
            AddrKind::CRAM => 0b00011,
            AddrKind::VSRAM => 0b00101,
        };
        let dma_flag: u16 = if dma {
            0x80
        } else {
            0
        };
        let hi = ((ptr >> 14) & 3) | ((ctrl >> 2) << 4) | dma_flag;
        let lo = (ptr & 0x3fff) | (ctrl << 14);

        self.ops.push(PortOp::Control(lo));
        self.ops.push(PortOp::Control(hi));
        proof {
            assert(final(self).log() =~= old(self).log() + seq![
                PortOp::Control(cursor_lo(kind, ptr)),
                PortOp::Control(cursor_hi(kind, ptr, dma)),
            ]);
        }
    }

    /// Set the VRAM write address.
    ///
    /// This will be incremented after every write via `write_data`.
    pub fn set_address(&mut self, kind: AddrKind, ptr: u16)
        ensures
            final(self).log() == old(self).log() + seq![
                PortOp::Control(cursor_lo(kind, ptr)),
                PortOp::Control(cursor_hi(kind, ptr, false)),
            ],
            final(self).same_config(*old(self)),
    {
        self.set_addr_raw(kind, ptr, false);
    }

    /// Modify the MODE registers.
    ///
    /// This takes a mask of bits to replace and their new values.
    /// The integer is formatted with MODE_4 being the highest 8 bits, down to
    /// MODE_1 being the lowest. Exactly the register slices whose mask byte
    /// is non-zero are rewritten, each with its slice of the new shadow
    /// value; slices the mask does not touch are not written at all.
    pub fn modify_mode(&mut self, mask: u32, set: u32)
        ensures
            final(self).shadow_mode() == mode_after(old(self).shadow_mode(), mask, set),
            final(self).log() == old(self).log() + mode_reg_writes(
                mask,
                mode_after(old(self).shadow_mode(), mask, set),
            ),
            final(self).same_bases(*old(self)),
    {
        self.mode = (self.mode & !mask) | (set & mask);

        if mask & 0xff != 0 {
            self.set_register(registers::MODE_1, self.mode as u8);
        }

        if mask & 0xff00 != 0 {
            self.set_register(registers::MODE_2, (self.mode >> 8) as u8);
        }

        if mask & 0xff0000 != 0 {
            self.set_register(registers::MODE_3, (self.mode >> 16) as u8);
        }

        if mask & 0xff000000 != 0 {
            self.set_register(registers::MODE_4, (self.mode >> 24) as u8);
        }

        proof {
            assert(final(self).log() =~= old(self).log() + mode_reg_writes(
                mask,
                mode_after(old(self).shadow_mode(), mask, set),
            ));
        }
    }

    /// Set the address increment on write.
    ///
    /// This can be used to configure how many bytes are written per
    /// data write.
    pub fn set_increment(&mut self, incr: u8)
        ensures
            final(self).log() == old(self).log().push(
                PortOp::Control(ctrl_word(registers::INCR, incr)),
            ),
            final(self).same_config(*old(self)),
    {
        self.set_register(registers::INCR, incr);
    }

    /// Enable or disable DMA transfer via the mode-2 DMA bit.
    fn enable_dma(&mut self, enabled: bool)
        ensures
            final(self).shadow_mode() == mode_after(
                old(self).shadow_mode(),
                0x1000,
                spec_flag_32(0x1000, enabled),
            ),
            final(self).log() == old(self).log() + mode_reg_writes(
                0x1000,
                mode_after(old(self).shadow_mode(), 0x1000, spec_flag_32(0x1000, enabled)),
            ),
            final(self).same_bases(*old(self)),
    {
        let f = flag_32(0x1000, enabled);
        self.modify_mode(0x1000, f);
    }

    /// Upload memory from ROM or RAM to VRAM.
    ///
    /// `src_addr` is the numeric bus address of the source bytes. The
    /// hardware cannot cross a naturally aligned source boundary within one
    /// transfer, so the request is split into successive sub-transfers,
    /// each programmed, triggered and polled to completion in turn.
    /// DMA mode is left disabled on return.
    pub fn dma_upload(&mut self, kind: AddrKind, dst_addr: u16, src_addr: u32, length: u16)
        requires
            length > 0,
        ensures
            final(self).shadow_mode() == old(self).shadow_mode() & !0x1000u32,
            final(self).log() == old(self).log() + upload_ops(
                old(self).shadow_mode(),
                kind,
                dst_addr,
                src_addr,
                length,
            ),
            final(self).same_bases(*old(self)),
    {
        proof {
            lemma_low_masks();
            lemma_dma_mode_bits(old(self).shadow_mode());
        }
        let mut remaining: u32 = length as u32;
        let mut src: u32 = (src_addr >> 1) & 0x7fffff;
        let mut dst: u32 = dst_addr as u32;

        self.enable_dma(true);

        let ghost m1 = self.shadow_mode();
        let ghost base = self.log();
        let ghost dst0 = dst;
        let ghost src0 = src;
        let ghost len0 = remaining;

        while remaining > 0
            invariant
                self.shadow_mode() == m1,
                self.same_bases(*old(self)),
                src0 <= 0x7fffff,
                dst0 <= 0xffff,
                len0 <= 0xffff,
                src <= src0 + (len0 - remaining),
                dst <= dst0 + (len0 - remaining),
                remaining <= len0,
                base + upload_body_ops(kind, dst0, src0, len0) == self.log() + upload_body_ops(
                    kind,
                    dst,
                    src,
                    remaining,
                ),
            decreases remaining,
        {
            proof {
                lemma_low_masks();
            }
            let ghost prev = self.log();
            let ghost dst_p = dst;
            let ghost src_p = src;
            let ghost len_p = remaining;

            let dist: u32 = 0x20000 - (src & 0x1ffff);
            let this_block: u32 = if dist < remaining {
                dist
            } else {
                remaining
            };

            self.set_register(registers::DMA_LEN_L, this_block as u8);
            self.set_register(registers::DMA_LEN_H, (this_block >> 8) as u8);
            self.set_register(registers::DMA_SRC_L, src as u8);
            self.set_register(registers::DMA_SRC_M, (src >> 8) as u8);
            self.set_register(registers::DMA_SRC_H, (src >> 16) as u8);
            self.set_addr_raw(kind, dst as u16, true);
            self.wait_for_dma();

            dst = dst + this_block;
            src = src + this_block;
            remaining = remaining - this_block;

            proof {
                assert(this_block == chunk_len(src_p, len_p));
                assert(self.log() =~= prev + chunk_ops(kind, dst_p, src_p, this_block));
                assert(upload_body_ops(kind, dst_p, src_p, len_p) == chunk_ops(
                    kind,
                    dst_p,
                    src_p,
                    this_block,
                ) + upload_body_ops(kind, dst, src, remaining));
                assert(base + upload_body_ops(kind, dst0, src0, len0) =~= self.log()
                    + upload_body_ops(kind, dst, src, remaining));
            }
        }

        let ghost mid = self.log();
        self.enable_dma(false);

        proof {
            assert(mid =~= base + upload_body_ops(kind, dst0, src0, len0));
            assert(final(self).log() =~= old(self).log() + upload_ops(
                old(self).shadow_mode(),
                kind,
                dst_addr,
                src_addr,
                length,
            ));
        }
    }

    /// Fill VRAM memory with the given byte.
    ///
    /// Technically the VDP supports doing this in both byte and word forms,
    /// but the word form seems to not work as expected. The fill reads no
    /// external source memory, so it is one hardware operation regardless of
    /// length. DMA mode is left disabled on return.
    pub fn dma_set(&mut self, kind: AddrKind, dst_addr: u16, fill: u8, length: u16)
        requires
            length > 0,
        ensures
            final(self).shadow_mode() == old(self).shadow_mode() & !0x1000u32,
            final(self).log() == old(self).log() + fill_ops(
                old(self).shadow_mode(),
                kind,
                dst_addr,
                fill,
                length,
            ),
            final(self).same_bases(*old(self)),
    {
        proof {
            lemma_dma_mode_bits(old(self).shadow_mode());
        }
        self.enable_dma(true);
        self.set_increment(1);
        self.set_register(registers::DMA_LEN_L, length as u8);
        self.set_register(registers::DMA_LEN_H, (length >> 8) as u8);
        self.set_register(registers::DMA_SRC_H, 0x80);
        self.set_addr_raw(kind, dst_addr, true);
        self.write_data(fill as u16);
        self.wait_for_dma();
        self.enable_dma(false);
        self.set_increment(2);
        proof {
            assert(final(self).log() =~= old(self).log() + fill_ops(
                old(self).shadow_mode(),
                kind,
                dst_addr,
                fill,
                length,
            ));
        }
    }

    /// Copy from VRAM to VRAM.
    ///
    /// Both offsets lie within the hardware's own addressable space, so no
    /// chunking is required. DMA mode is left disabled on return.
    pub fn dma_copy(&mut self, kind: AddrKind, dst_addr: u16, src_addr: u16, length: u16)
        requires
            length > 0,
        ensures
            final(self).shadow_mode() == old(self).shadow_mode() & !0x1000u32,
            final(self).log() == old(self).log() + copy_ops(
                old(self).shadow_mode(),
                kind,
                dst_addr,
                src_addr,
                length,
            ),
            final(self).same_bases(*old(self)),
    {
        proof {
            lemma_dma_mode_bits(old(self).shadow_mode());
        }
        self.enable_dma(true);
        self.set_register(registers::DMA_LEN_L, length as u8);
        self.set_register(registers::DMA_LEN_H, (length >> 8) as u8);
        self.set_register(registers::DMA_SRC_L, src_addr as u8);
        self.set_register(registers::DMA_SRC_M, (src_addr >> 8) as u8);
        self.set_register(registers::DMA_SRC_H, 0xc0);
        self.set_addr_raw(kind, dst_addr, true);
        self.wait_for_dma();
        self.enable_dma(false);
        proof {
            assert(final(self).log() =~= old(self).log() + copy_ops(
                old(self).shadow_mode(),
                kind,
                dst_addr,
                src_addr,
                length,
            ));
        }
    }

    /// Initialise and return the VDP, with the console version handed in
    /// as a plain value read from the version port.
    ///
    /// The returned handle carries the hardware-mandated default mode and
    /// table bases, and its log holds the whole initialization protocol.
    pub fn new(version: Version) -> (r: VDP)
        ensures
            r.shadow_mode() == 0x81000404u32,
            r.base_sprites() == 0xf000,
            r.base_plane_a() == 0xc00,
            r.base_plane_b() == 0xe00,
            r.base_scroll_h() == 0xf40,
            r.base_window() == 0xd00,
            r.console_version() == version,
            exists|pal_src: u32| r.log() == #[trigger] init_ops(pal_src),
    {
        let mut vdp = VDP {
            mode: 0x81000404,
            sprites_base: 0xf000,
            plane_a_base: 0xc00,
            plane_b_base: 0xe00,
            scroll_h_base: 0xf40,
            window_base: 0xd00,
            version,
            ops: Vec::new(),
        };
        vdp.init();
        vdp
    }

    /// Issue the whole initialization protocol.
    fn init(&mut self)
        requires
            old(self).log().len() == 0,
            old(self).shadow_mode() == 0x81000404u32,
            old(self).base_sprites() == 0xf000,
            old(self).base_plane_a() == 0xc00,
            old(self).base_plane_b() == 0xe00,
            old(self).base_scroll_h() == 0xf40,
            old(self).base_window() == 0xd00,
        ensures
            final(self).shadow_mode() == 0x81000404u32,
            final(self).same_bases(*old(self)),
            exists|pal_src: u32| final(self).log() == #[trigger] init_ops(pal_src),
    {
        proof {
            lemma_init_values();
        }
        self.read_state_raw();

        let m = self.mode;
        self.modify_mode(!0u32, m);
        let a = self.plane_a_base;
        self.set_plane_a_address(a);
        let b = self.plane_b_base;
        self.set_plane_b_address(b);
        let sp = self.sprites_base;
        self.set_sprite_address(sp);
        let w = self.window_base;
        self.set_window_base(w);
        let sc = self.scroll_h_base;
        self.set_scroll_base(sc);

        self.set_increment(2);
        self.set_plane_size(ScrollSize::Cell32, ScrollSize::Cell32);
        self.set_window(WindowDivide::Before(0), WindowDivide::Before(0));
        self.set_background(0, 0);
        self.set_h_interrupt_interval(0xff);

        self.dma_set(AddrKind::VRAM, 0, 0, 0xffff);
        self.dma_set(AddrKind::CRAM, 0, 0, registers::CRAM_SIZE);
        self.dma_set(AddrKind::VSRAM, 0, 0, registers::VSRAM_SIZE);

        let ghost mid = self.log();
        let pal = default_palette();
        self.set_palette(0, &pal);

        proof {
            let s0 = choose|s: u32|
                final(self).log() == mid + #[trigger] upload_ops(
                    0x81000404u32,
                    AddrKind::CRAM,
                    0,
                    s,
                    32,
                );
            assert(final(self).log() =~= init_ops(s0));
        }
    }

    /// Record the status-register read that resets the control port's
    /// two-write address latch.
    ///
    /// The executor performs the read and discards the value; decisions on
    /// the status word (the DMA-busy poll) go through `dma_busy`.
    pub fn read_state_raw(&mut self)
        ensures
            final(self).log() == old(self).log().push(PortOp::ReadStatus),
            final(self).same_config(*old(self)),
    {
        self.ops.push(PortOp::ReadStatus);
    }

    /// Set one of the 4 configurable palettes.
    ///
    /// The destination cursor is positioned 32 bytes per bank into colour
    /// memory and the 16 colour words are uploaded in one transfer.
    pub fn set_palette(&mut self, index: usize, palette: &[u16; 16])
        requires
            index < 4,
        ensures
            final(self).shadow_mode() == old(self).shadow_mode() & !0x1000u32,
            final(self).same_bases(*old(self)),
            exists|src: u32|
                final(self).log() == old(self).log() + #[trigger] upload_ops(
                    old(self).shadow_mode(),
                    AddrKind::CRAM,
                    (index * 32) as u16,
                    src,
                    32,
                ),
    {
        let src = slice_addr(vstd::array::array_as_slice(palette));
        proof {
            lemma_low_shifts(index as u16);
        }
        let dst = (index as u16) << 5;
        self.dma_upload(AddrKind::CRAM, dst, src, 32);
    }

    /// Set tiles using DMA.
    ///
    /// This can be faster than the data-port path but is slightly more
    /// restricted: it has to take a slice.
    pub fn set_tiles(&mut self, start_index: usize, tiles: &[Tile])
        requires
            start_index < 2048,
            tiles@.len() >= 1,
            tiles@.len() * 32 <= 0xffff,
        ensures
            final(self).shadow_mode() == old(self).shadow_mode() & !0x1000u32,
            final(self).same_bases(*old(self)),
            exists|src: u32|
                final(self).log() == old(self).log() + #[trigger] upload_ops(
                    old(self).shadow_mode(),
                    AddrKind::VRAM,
                    (start_index * 32) as u16,
                    src,
                    (tiles@.len() * 32) as u16,
                ),
    {
        let src = slice_addr(tiles);
        let len = (tiles.len() * 32) as u16;
        proof {
            lemma_low_shifts(start_index as u16);
        }
        let dst = (start_index as u16) << 5;
        self.dma_upload(AddrKind::VRAM, dst, src, len);
    }

    /// Load sprites into VRAM using DMA.
    ///
    /// This can be faster than the data-port path but is slightly more
    /// restricted: it has to take a slice. The destination is taken
    /// relative to the currently recorded sprite table base.
    pub fn set_sprites(&mut self, first_index: usize, sprites: &[Sprite])
        requires
            first_index * 8 + old(self).base_sprites() <= 0xffff,
            sprites@.len() >= 1,
            sprites@.len() * 8 <= 0xffff,
        ensures
            final(self).shadow_mode() == old(self).shadow_mode() & !0x1000u32,
            final(self).same_bases(*old(self)),
            exists|src: u32|
                final(self).log() == old(self).log() + #[trigger] upload_ops(
                    old(self).shadow_mode(),
                    AddrKind::VRAM,
                    (first_index * 8 + old(self).base_sprites()) as u16,
                    src,
                    (sprites@.len() * 8) as u16,
                ),
    {
        let src = slice_addr(sprites);
        let len = (sprites.len() * 8) as u16;
        proof {
            lemma_low_shifts(first_index as u16);
        }
        let dst = ((first_index as u16) << 3) + self.sprites_base;
        self.dma_upload(AddrKind::VRAM, dst, src, len);
    }

    /// Set the horizontal scroll for planes A and B.
    ///
    /// The destination is taken relative to the currently recorded scroll
    /// table base.
    pub fn set_h_scroll(&mut self, first_index: usize, values: &[u16])
        requires
            first_index * 2 + old(self).base_scroll_h() <= 0xffff,
            values@.len() >= 1,
            values@.len() * 2 <= 0xffff,
        ensures
            final(self).shadow_mode() == old(self).shadow_mode() & !0x1000u32,
            final(self).same_bases(*old(self)),
            exists|src: u32|
                final(self).log() == old(self).log() + #[trigger] upload_ops(
                    old(self).shadow_mode(),
                    AddrKind::VRAM,
                    (first_index * 2 + old(self).base_scroll_h()) as u16,
                    src,
                    (values@.len() * 2) as u16,
                ),
    {
        let src = slice_addr(values);
        let len = (values.len() * 2) as u16;
        proof {
            lemma_low_shifts(first_index as u16);
        }
        let dst = ((first_index as u16) << 1) + self.scroll_h_base;
        self.dma_upload(AddrKind::VRAM, dst, src, len);
    }

    /// Set the vertical scroll for planes A and B.
    pub fn set_v_scroll(&mut self, first_index: usize, values: &[u16])
        requires
            first_index * 2 <= 0xffff,
            values@.len() >= 1,
            values@.len() * 2 <= 0xffff,
        ensures
            final(self).shadow_mode() == old(self).shadow_mode() & !0x1000u32,
            final(self).same_bases(*old(self)),
            exists|src: u32|
                final(self).log() == old(self).log() + #[trigger] upload_ops(
                    old(self).shadow_mode(),
                    AddrKind::VSRAM,
                    (first_index * 2) as u16,
                    src,
                    (values@.len() * 2) as u16,
                ),
    {
        let src = slice_addr(values);
        let len = (values.len() * 2) as u16;
        proof {
            lemma_low_shifts(first_index as u16);
        }
        let dst = (first_index as u16) << 1;
        self.dma_upload(AddrKind::VSRAM, dst, src, len);
    }

    /// Set the tile flags for plane A.
    ///
    /// The destination is taken relative to the currently recorded plane A
    /// base.
    pub fn set_plane_a_flags(&mut self, first_index: usize, values: &[TileFlags])
        requires
            first_index * 2 + old(self).base_plane_a() <= 0xffff,
            values@.len() >= 1,
            values@.len() * 2 <= 0xffff,
        ensures
            final(self).shadow_mode() == old(self).shadow_mode() & !0x1000u32,
            final(self).same_bases(*old(self)),
            exists|src: u32|
                final(self).log() == old(self).log() + #[trigger] upload_ops(
                    old(self).shadow_mode(),
                    AddrKind::VRAM,
                    (first_index * 2 + old(self).base_plane_a()) as u16,
                    src,
                    (values@.len() * 2) as u16,
                ),
    {
        let src = slice_addr(values);
        let len = (values.len() * 2) as u16;
        proof {
            lemma_low_shifts(first_index as u16);
        }
        let dst = ((first_index as u16) << 1) + self.plane_a_base;
        self.dma_upload(AddrKind::VRAM, dst, src, len);
    }

    /// Set the tile flags for plane B.
    ///
    /// The destination is taken relative to the currently recorded plane B
    /// base.
    pub fn set_plane_b_flags(&mut self, first_index: usize, values: &[TileFlags])
        requires
            first_index * 2 + old(self).base_plane_b() <= 0xffff,
            values@.len() >= 1,
            values@.len() * 2 <= 0xffff,
        ensures
            final(self).shadow_mode() == old(self).shadow_mode() & !0x1000u32,
            final(self).same_bases(*old(self)),
            exists|src: u32|
                final(self).log() == old(self).log() + #[trigger] upload_ops(
                    old(self).shadow_mode(),
                    AddrKind::VRAM,
                    (first_index * 2 + old(self).base_plane_b()) as u16,
                    src,
                    (values@.len() * 2) as u16,
                ),
    {
        let src = slice_addr(values);
        let len = (values.len() * 2) as u16;
        proof {
            lemma_low_shifts(first_index as u16);
        }
        let dst = ((first_index as u16) << 1) + self.plane_b_base;
        self.dma_upload(AddrKind::VRAM, dst, src, len);
    }

    /// Set the tile flags for the window plane.
    ///
    /// The destination is taken relative to the currently recorded window
    /// base.
    pub fn set_window_flags(&mut self, first_index: usize, values: &[TileFlags])
        requires
            first_index * 2 + old(self).base_window() <= 0xffff,
            values@.len() >= 1,
            values@.len() * 2 <= 0xffff,
        ensures
            final(self).shadow_mode() == old(self).shadow_mode() & !0x1000u32,
            final(self).same_bases(*old(self)),
            exists|src: u32|
                final(self).log() == old(self).log() + #[trigger] upload_ops(
                    old(self).shadow_mode(),
                    AddrKind::VRAM,
                    (first_index * 2 + old(self).base_window()) as u16,
                    src,
                    (values@.len() * 2) as u16,
                ),
    {
        let src = slice_addr(values);
        let len = (values.len() * 2) as u16;
        proof {
            lemma_low_shifts(first_index as u16);
        }
        let dst = ((first_index as u16) << 1) + self.window_base;
        self.dma_upload(AddrKind::VRAM, dst, src, len);
    }

    /// Set the contents of some tiles in VRAM through the data port.
    pub fn set_tiles_iter(&mut self, start_index: usize, tiles: &[Tile])
        requires
            start_index < 2048,
        ensures
            final(self).same_config(*old(self)),
            final(self).log() == old(self).log() + seq![
                PortOp::Control(cursor_lo(AddrKind::VRAM, (start_index * 32) as u16)),
                PortOp::Control(cursor_hi(AddrKind::VRAM, (start_index * 32) as u16, false)),
            ] + tiles_data_ops(tiles@),
    {
        proof {
            lemma_low_shifts(start_index as u16);
        }
        self.set_address(AddrKind::VRAM, (start_index as u16) << 5);
        let ghost base = self.log();

        let mut i: usize = 0;
        while i < tiles.len()
            invariant
                i <= tiles@.len(),
                self.same_config(*old(self)),
                self.log() == base + tiles_data_ops(tiles@.take(i as int)),
            decreases tiles@.len() - i,
        {
            let ghost tbase = self.log();
            let mut j: usize = 0;
            while j < 16
                invariant
                    j <= 16,
                    i < tiles@.len(),
                    self.same_config(*old(self)),
                    self.log() == tbase + Seq::new(
                        j as nat,
                        |k: int|
                            PortOp::Data(
                                word_be(tiles@[i as int]@[2 * k], tiles@[i as int]@[2 * k + 1]),
                            ),
                    ),
                decreases 16 - j,
            {
                let hi = tiles[i][2 * j];
                let lo = tiles[i][2 * j + 1];
                self.write_data(((hi as u16) << 8) | (lo as u16));
                j += 1;
                proof {
                    assert(Seq::new(
                        j as nat,
                        |k: int|
                            PortOp::Data(
                                word_be(tiles@[i as int]@[2 * k], tiles@[i as int]@[2 * k + 1]),
                            ),
                    ) =~= Seq::new(
                        (j - 1) as nat,
                        |k: int|
                            PortOp::Data(
                                word_be(tiles@[i as int]@[2 * k], tiles@[i as int]@[2 * k + 1]),
                            ),
                    ).push(
                        PortOp::Data(
                            word_be(
                                tiles@[i as int]@[2 * (j - 1)],
                                tiles@[i as int]@[2 * (j - 1) + 1],
                            ),
                        ),
                    ));
                }
            }
            i += 1;
            proof {
                assert(Seq::new(
                    16,
                    |k: int|
                        PortOp::Data(
                            word_be(tiles@[i - 1]@[2 * k], tiles@[i - 1]@[2 * k + 1]),
                        ),
                ) =~= tile_data_ops(tiles@[i - 1]));
                assert(tiles@.take(i as int).drop_last() =~= tiles@.take(i - 1));
                assert(tiles@.take(i as int).last() == tiles@[i - 1]);
                assert(self.log() =~= base + tiles_data_ops(tiles@.take(i as int)));
            }
        }
        proof {
            assert(tiles@.take(tiles@.len() as int) =~= tiles@);
            assert(final(self).log() =~= old(self).log() + seq![
                PortOp::Control(cursor_lo(AddrKind::VRAM, (start_index * 32) as u16)),
                PortOp::Control(cursor_hi(AddrKind::VRAM, (start_index * 32) as u16, false)),
            ] + tiles_data_ops(tiles@));
        }
    }

    /// Set the contents of a single tile in VRAM through the data port.
    pub fn set_tile(&mut self, index: usize, tile: &Tile)
        requires
            index < 2048,
        ensures
            final(self).same_config(*old(self)),
            final(self).log() == old(self).log() + seq![
                PortOp::Control(cursor_lo(AddrKind::VRAM, (index * 32) as u16)),
                PortOp::Control(cursor_hi(AddrKind::VRAM, (index * 32) as u16, false)),
            ] + tile_data_ops(*tile),
    {
        proof {
            lemma_low_shifts(index as u16);
        }
        self.set_address(AddrKind::VRAM, (index as u16) << 5);
        let ghost base = self.log();

        let mut j: usize = 0;
        while j < 16
            invariant
                j <= 16,
                self.same_config(*old(self)),
                self.log() == base + Seq::new(
                    j as nat,
                    |k: int| PortOp::Data(word_be(tile@[2 * k], tile@[2 * k + 1])),
                ),
            decreases 16 - j,
        {
            let hi = tile[2 * j];
            let lo = tile[2 * j + 1];
            self.write_data(((hi as u16) << 8) | (lo as u16));
            j += 1;
            proof {
                assert(Seq::new(
                    j as nat,
                    |k: int| PortOp::Data(word_be(tile@[2 * k], tile@[2 * k + 1])),
                ) =~= Seq::new(
                    (j - 1) as nat,
                    |k: int| PortOp::Data(word_be(tile@[2 * k], tile@[2 * k + 1])),
                ).push(PortOp::Data(word_be(tile@[2 * (j - 1)], tile@[2 * (j - 1) + 1]))));
            }
        }
        proof {
            assert(Seq::new(
                16,
                |k: int| PortOp::Data(word_be(tile@[2 * k], tile@[2 * k + 1])),
            ) =~= tile_data_ops(*tile));
            assert(final(self).log() =~= old(self).log() + seq![
                PortOp::Control(cursor_lo(AddrKind::VRAM, (index * 32) as u16)),
                PortOp::Control(cursor_hi(AddrKind::VRAM, (index * 32) as u16, false)),
            ] + tile_data_ops(*tile));
        }
    }

    /// Set the contents of some sprites in the sprite table through the
    /// data port, relative to the currently recorded sprite table base.
    pub fn set_sprites_iter(&mut self, first_index: usize, sprites: &[Sprite])
        requires
            first_index * 8 + old(self).base_sprites() <= 0xffff,
        ensures
            final(self).same_config(*old(self)),
            final(self).log() == old(self).log() + seq![
                PortOp::Control(
                    cursor_lo(
                        AddrKind::VRAM,
                        (first_index * 8 + old(self).base_sprites()) as u16,
                    ),
                ),
                PortOp::Control(
                    cursor_hi(
                        AddrKind::VRAM,
                        (first_index * 8 + old(self).base_sprites()) as u16,
                        false,
                    ),
                ),
            ] + sprites_data_ops(sprites@),
    {
        proof {
            lemma_low_shifts(first_index as u16);
        }
        self.set_address(
            AddrKind::VRAM,
            ((first_index as u16) << 3) + self.sprites_base,
        );
        let ghost base = self.log();

        let mut i: usize = 0;
        while i < sprites.len()
            invariant
                i <= sprites@.len(),
                self.same_config(*old(self)),
                self.log() == base + sprites_data_ops(sprites@.take(i as int)),
            decreases sprites@.len() - i,
        {
            let ghost sbase = self.log();
            let s = &sprites[i];
            self.write_data(s.y);
            self.write_data(((s.size.code() as u16) << 8) | (s.link as u16));
            self.write_data(s.flags.raw_value());
            self.write_data(s.x);
            i += 1;
            proof {
                assert(self.log() =~= sbase + sprite_data_ops(sprites@[i - 1]));
                assert(sprites@.take(i as int).drop_last() =~= sprites@.take(i - 1));
                assert(sprites@.take(i as int).last() == sprites@[i - 1]);
                assert(self.log() =~= base + sprites_data_ops(sprites@.take(i as int)));
            }
        }
        proof {
            assert(sprites@.take(sprites@.len() as int) =~= sprites@);
            assert(final(self).log() =~= old(self).log() + seq![
                PortOp::Control(
                    cursor_lo(
                        AddrKind::VRAM,
                        (first_index * 8 + old(self).base_sprites()) as u16,
                    ),
                ),
                PortOp::Control(
                    cursor_hi(
                        AddrKind::VRAM,
                        (first_index * 8 + old(self).base_sprites()) as u16,
                        false,
                    ),
                ),
            ] + sprites_data_ops(sprites@));
        }
    }

    /// Fetch the framerate of the VDP.
    pub fn framerate(&self) -> (r: u8)
        ensures
            r == (if self.console_version().spec_is_pal() {
                50u8
            } else {
                60u8
            }),
    {
        if self.version.is_pal() {
            50
        } else {
            60
        }
    }

    /// Fetch the current operating resolution.
    pub fn resolution(&self) -> (r: (u16, u16))
        ensures
            r.0 == (if self.shadow_mode() & 0x1000000 != 0 {
                320u16
            } else {
                256u16
            }),
            r.1 == (if self.shadow_mode() & 0x800 != 0 {
                240u16
            } else {
                224u16
            }),
    {
        let w = if (self.mode & 0x1000000) != 0 {
            320
        } else {
            256
        };
        let h = if (self.mode & 0x800) != 0 {
            240
        } else {
            224
        };

        (w, h)
    }

    /// Enable the display.
    ///
    /// Without this set, the entire screen shows the background colour.
    pub fn enable_display(&mut self, enable: bool)
        ensures
            final(self).shadow_mode() == mode_after(
                old(self).shadow_mode(),
                0x4000,
                spec_flag_32(0x4000, enable),
            ),
            final(self).log() == old(self).log() + mode_reg_writes(
                0x4000,
                mode_after(old(self).shadow_mode(), 0x4000, spec_flag_32(0x4000, enable)),
            ),
            final(self).same_bases(*old(self)),
    {
        self.modify_mode(0x4000, flag_32(0x4000, enable));
    }

    /// Enable the interrupt sources.
    ///
    /// The IRQ level on the CPU still needs to be set accordingly to allow
    /// the interrupt to happen.
    ///
    /// `h` triggers an interrupt for every horizontal line drawn.
    /// `v` triggers an interrupt at the start of the vblank period.
    /// `x` triggers an interrupt on the external interrupt.
    pub fn enable_interrupts(&mut self, h: bool, v: bool, x: bool)
        ensures
            final(self).shadow_mode() == mode_after(
                old(self).shadow_mode(),
                0x82010,
                spec_flag_32(0x10, h) | spec_flag_32(0x2000, v) | spec_flag_32(0x80000, x),
            ),
            final(self).log() == old(self).log() + mode_reg_writes(
                0x82010,
                mode_after(
                    old(self).shadow_mode(),
                    0x82010,
                    spec_flag_32(0x10, h) | spec_flag_32(0x2000, v) | spec_flag_32(0x80000, x),
                ),
            ),
            final(self).same_bases(*old(self)),
    {
        self.modify_mode(
            0x82010,
            flag_32(0x10, h) | flag_32(0x2000, v) | flag_32(0x80000, x),
        );
    }

    /// Stop the HV counter.
    pub fn stop_hv_counter(&mut self, stopped: bool)
        ensures
            final(self).shadow_mode() == mode_after(
                old(self).shadow_mode(),
                2,
                spec_flag_32(2, stopped),
            ),
            final(self).log() == old(self).log() + mode_reg_writes(
                2,
                mode_after(old(self).shadow_mode(), 2, spec_flag_32(2, stopped)),
            ),
            final(self).same_bases(*old(self)),
    {
        self.modify_mode(2, flag_32(2, stopped));
    }

    /// Enable the increased resolution 40x30-cell mode.
    ///
    /// Vertical 30-cell mode is only available on PAL systems.
    pub fn set_resolution(&mut self, h: bool, v: bool)
        ensures
            final(self).shadow_mode() == mode_after(
                old(self).shadow_mode(),
                0x81000800,
                spec_flag_32(0x800, v) | spec_flag_32(0x81000000, h),
            ),
            final(self).log() == old(self).log() + mode_reg_writes(
                0x81000800,
                mode_after(
                    old(self).shadow_mode(),
                    0x81000800,
                    spec_flag_32(0x800, v) | spec_flag_32(0x81000000, h),
                ),
            ),
            final(self).same_bases(*old(self)),
    {
        self.modify_mode(0x81000800, flag_32(0x800, v) | flag_32(0x81000000, h));
    }

    /// Configure scrolling mode.
    pub fn set_scroll_mode(&mut self, h: HScrollMode, v: VScrollMode)
        ensures
            final(self).shadow_mode() == mode_after(
                old(self).shadow_mode(),
                0x30000,
                ((h.spec_code() as u32) << 16) | ((v.spec_code() as u32) << 18),
            ),
            final(self).log() == old(self).log() + mode_reg_writes(
                0x30000,
                mode_after(
                    old(self).shadow_mode(),
                    0x30000,
                    ((h.spec_code() as u32) << 16) | ((v.spec_code() as u32) << 18),
                ),
            ),
            final(self).same_bases(*old(self)),
    {
        self.modify_mode(0x30000, ((h.code() as u32) << 16) | ((v.code() as u32) << 18));
    }

    /// Enable shadow / highlight mode.
    pub fn enable_shadow_mode(&mut self, enable: bool)
        ensures
            final(self).shadow_mode() == mode_after(
                old(self).shadow_mode(),
                0x8000000,
                spec_flag_32(0x8000000, enable),
            ),
            final(self).log() == old(self).log() + mode_reg_writes(
                0x8000000,
                mode_after(old(self).shadow_mode(), 0x8000000, spec_flag_32(0x8000000, enable)),
            ),
            final(self).same_bases(*old(self)),
    {
        self.modify_mode(0x8000000, flag_32(0x8000000, enable));
    }

    /// Configure interlaced output.
    pub fn set_interlace(&mut self, mode: InterlaceMode)
        ensures
            final(self).shadow_mode() == mode_after(
                old(self).shadow_mode(),
                0x6000000,
                (mode.spec_code() as u32) << 25,
            ),
            final(self).log() == old(self).log() + mode_reg_writes(
                0x6000000,
                mode_after(old(self).shadow_mode(), 0x6000000, (mode.spec_code() as u32) << 25),
            ),
            final(self).same_bases(*old(self)),
    {
        self.modify_mode(0x6000000, (mode.code() as u32) << 25);
    }

    /// Configure how frequently the H-blank interrupt fires.
    ///
    /// This is a direct register write, not part of the mode aggregate.
    pub fn set_h_interrupt_interval(&mut self, interval: u8)
        ensures
            final(self).log() == old(self).log().push(
                PortOp::Control(ctrl_word(registers::HBLANK_RATE, interval)),
            ),
            final(self).same_config(*old(self)),
    {
        self.set_register(registers::HBLANK_RATE, interval);
    }

    /// Set the size of the tile planes (plane A, plane B and the window
    /// plane).
    pub fn set_plane_size(&mut self, x: ScrollSize, y: ScrollSize)
        ensures
            final(self).log() == old(self).log().push(
                PortOp::Control(
                    ctrl_word(registers::SIZE, x.spec_code() | (y.spec_code() << 4)),
                ),
            ),
            final(self).same_config(*old(self)),
    {
        let v = x.code() | (y.code() << 4);
        self.set_register(registers::SIZE, v);
    }

    /// Configure the address for the plane A tile map.
    ///
    /// This should ideally be set before the display is enabled if it is to
    /// be changed.
    pub fn set_plane_a_address(&mut self, address: u16)
        ensures
            final(self).base_plane_a() == address,
            final(self).log() == old(self).log().push(
                PortOp::Control(ctrl_word(registers::PLANE_A, ((address >> 6) & 0x38) as u8)),
            ),
            final(self).shadow_mode() == old(self).shadow_mode(),
            final(self).base_sprites() == old(self).base_sprites(),
            final(self).base_plane_b() == old(self).base_plane_b(),
            final(self).base_scroll_h() == old(self).base_scroll_h(),
            final(self).base_window() == old(self).base_window(),
            final(self).console_version() == old(self).console_version(),
    {
        self.plane_a_base = address;
        self.set_register(registers::PLANE_A, ((self.plane_a_base >> 6) & 0x38) as u8);
    }

    /// Configure the address for the plane B tile map.
    ///
    /// This should ideally be set before the display is enabled if it is to
    /// be changed.
    pub fn set_plane_b_address(&mut self, address: u16)
        ensures
            final(self).base_plane_b() == address,
            final(self).log() == old(self).log().push(
                PortOp::Control(ctrl_word(registers::PLANE_B, (address >> 9) as u8)),
            ),
            final(self).shadow_mode() == old(self).shadow_mode(),
            final(self).base_sprites() == old(self).base_sprites(),
            final(self).base_plane_a() == old(self).base_plane_a(),
            final(self).base_scroll_h() == old(self).base_scroll_h(),
            final(self).base_window() == old(self).base_window(),
            final(self).console_version() == old(self).console_version(),
    {
        self.plane_b_base = address;
        self.set_register(registers::PLANE_B, (self.plane_b_base >> 9) as u8);
    }

    /// Set the base address for the sprite table.
    pub fn set_sprite_address(&mut self, address: u16)
        ensures
            final(self).base_sprites() == address,
            final(self).log() == old(self).log().push(
                PortOp::Control(ctrl_word(registers::SPRITE, (address >> 9) as u8)),
            ),
            final(self).shadow_mode() == old(self).shadow_mode(),
            final(self).base_plane_a() == old(self).base_plane_a(),
            final(self).base_plane_b() == old(self).base_plane_b(),
            final(self).base_scroll_h() == old(self).base_scroll_h(),
            final(self).base_window() == old(self).base_window(),
            final(self).console_version() == old(self).console_version(),
    {
        self.sprites_base = address;
        self.set_register(registers::SPRITE, (self.sprites_base >> 9) as u8);
    }

    /// Set the base address for the window plane.
    pub fn set_window_base(&mut self, address: u16)
        ensures
            final(self).base_window() == address,
            final(self).log() == old(self).log().push(
                PortOp::Control(ctrl_word(registers::WINDOW, ((address >> 6) & 0x38) as u8)),
            ),
            final(self).shadow_mode() == old(self).shadow_mode(),
            final(self).base_sprites() == old(self).base_sprites(),
            final(self).base_plane_a() == old(self).base_plane_a(),
            final(self).base_plane_b() == old(self).base_plane_b(),
            final(self).base_scroll_h() == old(self).base_scroll_h(),
            final(self).console_version() == old(self).console_version(),
    {
        self.window_base = address;
        self.set_register(registers::WINDOW, ((self.window_base >> 6) & 0x38) as u8);
    }

    /// Set the base address for the scrolling matrix.
    pub fn set_scroll_base(&mut self, address: u16)
        ensures
            final(self).base_scroll_h() == address,
            final(self).log() == old(self).log().push(
                PortOp::Control(ctrl_word(registers::HSCROLL, (address >> 6) as u8)),
            ),
            final(self).shadow_mode() == old(self).shadow_mode(),
            final(self).base_sprites() == old(self).base_sprites(),
            final(self).base_plane_a() == old(self).base_plane_a(),
            final(self).base_plane_b() == old(self).base_plane_b(),
            final(self).base_window() == old(self).base_window(),
            final(self).console_version() == old(self).console_version(),
    {
        self.scroll_h_base = address;
        self.set_register(registers::HSCROLL, (self.scroll_h_base >> 6) as u8);
    }

    /// Configure where the window is drawn instead of plane A.
    pub fn set_window(&mut self, x: WindowDivide, y: WindowDivide)
        ensures
            final(self).log() == old(self).log() + seq![
                PortOp::Control(ctrl_word(registers::WINX, x.reg_value())),
                PortOp::Control(ctrl_word(registers::WINY, y.reg_value())),
            ],
            final(self).same_config(*old(self)),
    {
        let xv = match x {
            WindowDivide::Before(v) => v & 0x1f,
            WindowDivide::After(v) => 0x80 | (v & 0x1f),
        };
        let yv = match y {
            WindowDivide::Before(v) => v & 0x1f,
            WindowDivide::After(v) => 0x80 | (v & 0x1f),
        };
        self.set_register(registers::WINX, xv);
        self.set_register(registers::WINY, yv);
        proof {
            assert(final(self).log() =~= old(self).log() + seq![
                PortOp::Control(ctrl_word(registers::WINX, x.reg_value())),
                PortOp::Control(ctrl_word(registers::WINY, y.reg_value())),
            ]);
        }
    }

    /// Set the palette entry for the background colour.
    pub fn set_background(&mut self, palette: u8, colour: u8)
        ensures
            final(self).log() == old(self).log().push(
                PortOp::Control(
                    ctrl_word(registers::BG_COLOUR, ((palette & 3) << 4) | colour),
                ),
            ),
            final(self).same_config(*old(self)),
    {
        self.set_register(registers::BG_COLOUR, ((palette & 3) << 4) | colour);
    }
}

/// Applying the same masked update twice gives the same shadow value and
/// the same register-slice writes both times: the configuration operations,
/// which are all masked updates, have no hidden toggle semantics.
pub proof fn lemma_modify_idempotent(mode: u32, mask: u32, set: u32)
    ensures
        mode_after(mode_after(mode, mask, set), mask, set) == mode_after(mode, mask, set),
        mode_reg_writes(mask, mode_after(mode_after(mode, mask, set), mask, set))
            == mode_reg_writes(mask, mode_after(mode, mask, set)),
{
    lemma_mode_after_idempotent(mode, mask, set);
}

proof fn lemma_mode_after_idempotent(mode: u32, mask: u32, set: u32)
    by (bit_vector)
    ensures
        mode_after(mode_after(mode, mask, set), mask, set) == mode_after(mode, mask, set),
{
}

/// Masked updates whose masks do not overlap commute, and their combined
/// effect is the OR of each update's own masked bits over the untouched
/// rest: configuring one aspect never alters bits another aspect owns.
pub proof fn lemma_modify_disjoint_commutes(mode: u32, m1: u32, s1: u32, m2: u32, s2: u32)
    by (bit_vector)
    requires
        m1 & m2 == 0,
    ensures
        mode_after(mode_after(mode, m1, s1), m2, s2) == mode_after(
            mode_after(mode, m2, s2),
            m1,
            s1,
        ),
        mode_after(mode_after(mode, m1, s1), m2, s2) == (mode & !(m1 | m2)) | (s1 & m1) | (
        s2 & m2),
{
}

} // verus!
