//! The container of compressed meshes: a trailer that says where each mesh
//! block lies, and in each block a header and a compressed payload.
//!
//! Numbers in the payload are kept as the bits that the file holds: the 32
//! bits of a single-precision value, or the 64 bits of a double-precision
//! one. Whoever consumes a mesh turns them into numbers.
use byteorder::ByteOrder;
use crate::shape::SerializedShape;
use crate::value::{Error, ErrorView};
use vstd::prelude::*;
use vstd::slice::{slice_index_get, slice_subrange};

verus! {

/// The payload has normals.
pub const HAS_NORMALS: u32 = 0x0001;

/// The payload has texture coordinates.
pub const HAS_TEXCOORDS: u32 = 0x0002;

/// The payload has tangents.
pub const HAS_TANGENTS: u32 = 0x0004;

/// The payload has colours.
pub const HAS_COLORS: u32 = 0x0008;

/// Normals are to be taken per face.
pub const HAS_FACE_NORMAL: u32 = 0x0010;

/// Numbers are in single precision.
pub const SINGLE_PRECISION: u32 = 0x1000;

/// Numbers are in double precision.
pub const DOUBLE_PRECISION: u32 = 0x2000;

/// Every bit that is no flag.
pub const UNKNOWN_FLAGS: u32 = 0xFFFF_CFE0;

/// Three components: the bits of three numbers, or three indices.
#[derive(Clone, Copy, PartialEq, Eq, Structural, Debug)]
pub struct Triple {
    pub x: u64,
    pub y: u64,
    pub z: u64,
}

/// Two components: the bits of two numbers.
#[derive(Clone, Copy, PartialEq, Eq, Structural, Debug)]
pub struct Pair {
    pub x: u64,
    pub y: u64,
}

/// One mesh of a container.
#[derive(Debug, PartialEq)]
pub struct Serialized {
    pub name: String,
    /// Whether the components of positions, normals, texture coordinates
    /// and colours are the bits of double-precision numbers.
    pub double_precision: bool,
    pub vertices: Vec<Triple>,
    pub normals: Option<Vec<Triple>>,
    pub texcoords: Option<Vec<Pair>>,
    pub color: Option<Vec<Triple>>,
    pub indices: Vec<Triple>,
    pub face_normal: bool,
}

/// A [`Serialized`] as contracts see it: every text is the sequence of its
/// characters, and every list the sequence of its items.
pub struct SerializedView {
    pub name: Seq<char>,
    pub double_precision: bool,
    pub vertices: Seq<Triple>,
    pub normals: Option<Seq<Triple>>,
    pub texcoords: Option<Seq<Pair>>,
    pub color: Option<Seq<Triple>>,
    pub indices: Seq<Triple>,
    pub face_normal: bool,
}

/// What an optional list holds.
pub open spec fn list_view<T>(o: Option<Vec<T>>) -> Option<Seq<T>> {
    match o {
        Some(v) => Some(v@),
        None => None,
    }
}

impl View for Serialized {
    type V = SerializedView;

    open spec fn view(&self) -> SerializedView {
        SerializedView {
            name: self.name@,
            double_precision: self.double_precision,
            vertices: self.vertices@,
            normals: list_view(self.normals),
            texcoords: list_view(self.texcoords),
            color: list_view(self.color),
            indices: self.indices@,
            face_normal: self.face_normal,
        }
    }
}

/// The number that two bytes from `at` on denote, the low byte first.
pub open spec fn le16(s: Seq<u8>, at: int) -> int {
    s[at] + 0x100 * s[at + 1]
}

/// The number that four bytes from `at` on denote, the low byte first.
pub open spec fn le32(s: Seq<u8>, at: int) -> int {
    s[at] + 0x100 * s[at + 1] + 0x1_0000 * s[at + 2] + 0x100_0000 * s[at + 3]
}

/// The number that eight bytes from `at` on denote, the low byte first.
pub open spec fn le64(s: Seq<u8>, at: int) -> int {
    le32(s, at) + 0x1_0000_0000 * le32(s, at + 4)
}

/// What decompression makes of a compressed payload, if it accepts it.
pub uninterp spec fn zlib_inflate(data: Seq<u8>) -> Option<Seq<u8>>;

/// The text that bytes are read as, with a replacement character for each
/// part that is no UTF-8.
pub uninterp spec fn utf8_lossy(bytes: Seq<u8>) -> Seq<char>;

/// Calls `byteorder::LittleEndian::read_u16`, which reads the first two
/// bytes of `buf` as a number with the low byte first.
#[verifier::external_body]
fn read_u16(buf: &[u8]) -> (v: u16)
    requires
        buf@.len() >= 2,
    ensures
        v == le16(buf@, 0),
{
    byteorder::LittleEndian::read_u16(buf)
}

/// Calls `byteorder::LittleEndian::read_u32`, which reads the first four
/// bytes of `buf` as a number with the low byte first.
#[verifier::external_body]
fn read_u32(buf: &[u8]) -> (v: u32)
    requires
        buf@.len() >= 4,
    ensures
        v == le32(buf@, 0),
{
    byteorder::LittleEndian::read_u32(buf)
}

/// Calls `byteorder::LittleEndian::read_u64`, which reads the first eight
/// bytes of `buf` as a number with the low byte first.
#[verifier::external_body]
fn read_u64(buf: &[u8]) -> (v: u64)
    requires
        buf@.len() >= 8,
    ensures
        v == le64(buf@, 0),
{
    byteorder::LittleEndian::read_u64(buf)
}

#[verifier::external_type_specification]
#[verifier::external_body]
pub struct ExDecompressError(miniz_oxide::inflate::DecompressError);

/// Calls `miniz_oxide::inflate::decompress_to_vec_zlib`. What comes out
/// depends on the input alone; nothing more is claimed of it.
#[verifier::external_body]
fn decompress(data: &[u8]) -> (r: Result<Vec<u8>, miniz_oxide::inflate::DecompressError>)
    ensures
        match zlib_inflate(data@) {
            Some(out) => r matches Ok(v) && v@ == out,
            None => r is Err,
        },
{
    miniz_oxide::inflate::decompress_to_vec_zlib(data)
}

/// Calls `String::from_utf8_lossy`. What comes out depends on the bytes
/// alone; nothing more is claimed of it.
#[verifier::external_body]
fn lossy_string(bytes: &[u8]) -> (s: String)
    ensures
        s@ == utf8_lossy(bytes@),
{
    String::from_utf8_lossy(bytes).into_owned()
}

/// A container or a payload that breaks its layout.
pub open spec fn malformed(reason: Seq<char>) -> ErrorView {
    ErrorView::MalformedBinary(reason)
}

fn malformed_error(reason: &str) -> (e: Error)
    ensures
        e@ == malformed(reason@),
{
    Error::MalformedBinary(reason.to_owned())
}

/// The number of meshes that the trailer of a container gives.
pub open spec fn mesh_count(file: Seq<u8>) -> int {
    le32(file, file.len() - 4)
}

/// Where the table of offsets begins in a container of `n` meshes.
pub open spec fn table_start(file: Seq<u8>, n: int) -> int {
    file.len() - 4 - 8 * n
}

/// Where the block of mesh `k` begins.
pub open spec fn block_offset(file: Seq<u8>, n: int, k: int) -> int {
    le64(file, table_start(file, n) + 8 * k)
}

/// Where the block of mesh `k` begins and ends: it ends where the next
/// block begins or, for the last, where the table of offsets begins.
pub open spec fn block_range(file: Seq<u8>, k: int) -> Result<(int, int), ErrorView> {
    if file.len() < 4 {
        Err(malformed("trailer"@))
    } else {
        let n = mesh_count(file);
        if 4 + 8 * n > file.len() {
            Err(malformed("offsets"@))
        } else if k >= n {
            Err(malformed("shape index"@))
        } else {
            let start = block_offset(file, n, k);
            let end = if k + 1 < n {
                block_offset(file, n, k + 1)
            } else {
                table_start(file, n)
            };
            if start + 4 <= end <= table_start(file, n) {
                Ok((start, end))
            } else {
                Err(malformed("block"@))
            }
        }
    }
}

/// The compressed payload of the block of mesh `k`: all of the block behind
/// its four bytes of header, of which the second two have to give the
/// version 4.
pub open spec fn block_payload(file: Seq<u8>, k: int) -> Result<Seq<u8>, ErrorView> {
    match block_range(file, k) {
        Err(e) => Err(e),
        Ok((start, end)) => if le16(file, start + 2) != 4 {
            Err(ErrorView::ChecksumOrFormat)
        } else {
            Ok(file.subrange(start + 4, end))
        },
    }
}

/// The index of the first zero byte at or after `from`, or the length.
pub open spec fn first_zero(p: Seq<u8>, from: int) -> int
    decreases p.len() - from,
{
    if from < 0 || from >= p.len() {
        p.len() as int
    } else if p[from] == 0 {
        from
    } else {
        first_zero(p, from + 1)
    }
}

/// The bits of the number of width `w` at `at`.
pub open spec fn scalar(p: Seq<u8>, at: int, w: int) -> u64 {
    if w == 4 {
        le32(p, at) as u64
    } else {
        le64(p, at) as u64
    }
}

/// `count` triples of numbers of width `w` from `at` on.
pub open spec fn triples(p: Seq<u8>, at: int, count: int, w: int) -> Seq<Triple> {
    Seq::new(
        count as nat,
        |i: int|
            Triple {
                x: scalar(p, at + i * (3 * w), w),
                y: scalar(p, at + i * (3 * w) + w, w),
                z: scalar(p, at + i * (3 * w) + 2 * w, w),
            },
    )
}

/// `count` pairs of numbers of width `w` from `at` on.
pub open spec fn pairs(p: Seq<u8>, at: int, count: int, w: int) -> Seq<Pair> {
    Seq::new(
        count as nat,
        |i: int|
            Pair { x: scalar(p, at + i * (2 * w), w), y: scalar(p, at + i * (2 * w) + w, w) },
    )
}

/// The width in bytes of the numbers of a payload; the flags have to name
/// exactly one precision.
pub open spec fn float_width_of(flags: u32) -> Option<int> {
    let single = flags & SINGLE_PRECISION != 0;
    let double = flags & DOUBLE_PRECISION != 0;
    if single && !double {
        Some(4)
    } else if double && !single {
        Some(8)
    } else {
        None
    }
}

/// The width in bytes of the indices of a mesh of `triangles` triangles:
/// four while the count fits in 32 bits, and eight beyond.
pub open spec fn index_width_of(triangles: u64) -> int {
    if triangles > 0xFFFF_FFFF {
        8
    } else {
        4
    }
}

/// Where the parts of a payload lie.
pub struct Layout {
    pub flags: u32,
    pub name_end: int,
    pub vertices: int,
    pub triangles: int,
    pub width: int,
    pub index_width: int,
    pub positions: int,
    pub normals: int,
    pub texcoords: int,
    pub colors: int,
    pub indices: int,
    pub end: int,
}

/// The layout of a payload: the flags, the name up to its zero byte, the
/// two counts, and then positions, normals, texture coordinates, colours
/// and indices, each part only where its flag is set.
pub open spec fn layout_of(p: Seq<u8>) -> Result<Layout, ErrorView> {
    if p.len() < 4 {
        Err(malformed("flags"@))
    } else {
        let flags = le32(p, 0) as u32;
        if flags & UNKNOWN_FLAGS != 0 {
            Err(malformed("flags"@))
        } else {
            match float_width_of(flags) {
                None => Err(malformed("precision"@)),
                Some(w) => {
                    let z = first_zero(p, 4);
                    if z >= p.len() {
                        Err(malformed("name"@))
                    } else if p.len() - (z + 1) < 16 {
                        Err(malformed("counts"@))
                    } else {
                        let nv = le64(p, z + 1);
                        let nt = le64(p, z + 9);
                        let iw = index_width_of(nt as u64);
                        let positions = z + 17;
                        let normals = positions + nv * (3 * w);
                        let texcoords = normals + if flags & HAS_NORMALS != 0 {
                            nv * (3 * w)
                        } else {
                            0
                        };
                        let colors = texcoords + if flags & HAS_TEXCOORDS != 0 {
                            nv * (2 * w)
                        } else {
                            0
                        };
                        let indices = colors + if flags & HAS_COLORS != 0 {
                            nv * (3 * w)
                        } else {
                            0
                        };
                        let end = indices + nt * (3 * iw);
                        if end > p.len() {
                            Err(malformed("truncated"@))
                        } else {
                            Ok(
                                Layout {
                                    flags,
                                    name_end: z,
                                    vertices: nv,
                                    triangles: nt,
                                    width: w,
                                    index_width: iw,
                                    positions,
                                    normals,
                                    texcoords,
                                    colors,
                                    indices,
                                    end,
                                },
                            )
                        }
                    }
                },
            }
        }
    }
}

/// The mesh that a payload holds.
pub open spec fn mesh_of(p: Seq<u8>) -> Result<SerializedView, ErrorView> {
    match layout_of(p) {
        Err(e) => Err(e),
        Ok(l) => Ok(
            SerializedView {
                name: utf8_lossy(p.subrange(4, l.name_end)),
                double_precision: l.width == 8,
                vertices: triples(p, l.positions, l.vertices, l.width),
                normals: if l.flags & HAS_NORMALS != 0 {
                    Some(triples(p, l.normals, l.vertices, l.width))
                } else {
                    None
                },
                texcoords: if l.flags & HAS_TEXCOORDS != 0 {
                    Some(pairs(p, l.texcoords, l.vertices, l.width))
                } else {
                    None
                },
                color: if l.flags & HAS_COLORS != 0 {
                    Some(triples(p, l.colors, l.vertices, l.width))
                } else {
                    None
                },
                indices: triples(p, l.indices, l.triangles, l.index_width),
                face_normal: l.flags & HAS_FACE_NORMAL != 0,
            },
        ),
    }
}

/// Mesh `k` of a container.
pub open spec fn serialized_of(file: Seq<u8>, k: int) -> Result<SerializedView, ErrorView> {
    match block_payload(file, k) {
        Err(e) => Err(e),
        Ok(c) => match zlib_inflate(c) {
            None => Err(ErrorView::ChecksumOrFormat),
            Some(p) => mesh_of(p),
        },
    }
}

/// The compressed payload of a block is all of the block behind its four
/// bytes of header, and the block lies in the file before the table of
/// offsets.
pub proof fn lemma_payload_fills_block(file: Seq<u8>, k: int)
    requires
        0 <= k,
    ensures
        block_payload(file, k) matches Ok(c) ==> block_range(file, k) matches Ok((start, end))
            && c == file.subrange(start + 4, end) && c.len() == end - start - 4 && 0 <= start
            && end <= table_start(file, mesh_count(file)) <= file.len(),
{
    if block_payload(file, k) is Ok {
        let n = mesh_count(file);
        lemma_le32_bounds(file, file.len() - 4);
        lemma_le64_bounds(file, table_start(file, n) + 8 * k);
    }
}

/// A mesh has as many positions as its payload counts vertices and as many
/// index triples as it counts triangles, normals and the like for every
/// vertex where it has them, and all that is read of the payload lies in it.
pub proof fn lemma_mesh_counts(p: Seq<u8>)
    ensures
        mesh_of(p) matches Ok(m) ==> {
            let l = layout_of(p)->Ok_0;
            &&& m.vertices.len() == l.vertices
            &&& m.indices.len() == l.triangles
            &&& m.normals matches Some(n) ==> n.len() == l.vertices
            &&& m.texcoords matches Some(t) ==> t.len() == l.vertices
            &&& m.color matches Some(c) ==> c.len() == l.vertices
            &&& l.end <= p.len()
        },
{
    if mesh_of(p) is Ok {
        let l = layout_of(p)->Ok_0;
        lemma_le64_bounds(p, l.name_end + 1);
        lemma_le64_bounds(p, l.name_end + 9);
    }
}

/// What is read of one mesh does not depend on what was read before: two
/// meshes of a container come out the same in either order.
pub proof fn lemma_order_is_immaterial(file: Seq<u8>, j: int, k: int)
    ensures
        (serialized_of(file, j), serialized_of(file, k)) == ({
            let second = serialized_of(file, k);
            let first = serialized_of(file, j);
            (first, second)
        }),
{
}

/// Indices are four bytes wide up to 2^32 - 1 triangles, and eight from
/// 2^32 triangles on.
pub proof fn lemma_index_width_boundary(triangles: u64)
    ensures
        index_width_of(triangles) == 4 <==> triangles <= 0xFFFF_FFFF,
        index_width_of(triangles) == 8 <==> triangles >= 0x1_0000_0000,
{
}

/// Four bytes denote a number of 32 bits.
pub proof fn lemma_le32_bounds(s: Seq<u8>, at: int)
    ensures
        0 <= le32(s, at) <= 0xFFFF_FFFF,
{
}

/// Eight bytes denote a number of 64 bits.
pub proof fn lemma_le64_bounds(s: Seq<u8>, at: int)
    ensures
        0 <= le64(s, at) <= 0xFFFF_FFFF_FFFF_FFFF,
{
}

fn get_u16(p: &[u8], at: usize) -> (v: u16)
    requires
        at + 2 <= p@.len(),
    ensures
        v == le16(p@, at as int),
{
    let len = p.len();
    read_u16(slice_subrange(p, at, at + 2))
}

fn get_u32(p: &[u8], at: usize) -> (v: u32)
    requires
        at + 4 <= p@.len(),
    ensures
        v == le32(p@, at as int),
{
    let len = p.len();
    read_u32(slice_subrange(p, at, at + 4))
}

fn get_u64(p: &[u8], at: usize) -> (v: u64)
    requires
        at + 8 <= p@.len(),
    ensures
        v == le64(p@, at as int),
{
    let len = p.len();
    read_u64(slice_subrange(p, at, at + 8))
}

fn get_scalar(p: &[u8], at: usize, w: usize) -> (v: u64)
    requires
        w == 4 || w == 8,
        at + w <= p@.len(),
    ensures
        v == scalar(p@, at as int, w as int),
{
    if w == 4 {
        get_u32(p, at) as u64
    } else {
        get_u64(p, at)
    }
}

/// The width in bytes of the numbers of a payload with these flags, if they
/// name exactly one precision.
pub fn float_width(flags: u32) -> (r: Option<usize>)
    ensures
        match float_width_of(flags) {
            Some(w) => r == Some(w as usize) && (w == 4 || w == 8),
            None => r is None,
        },
{
    let single = flags & SINGLE_PRECISION != 0;
    let double = flags & DOUBLE_PRECISION != 0;
    if single && !double {
        Some(4)
    } else if double && !single {
        Some(8)
    } else {
        None
    }
}

/// The width in bytes of the indices of a mesh of `triangles` triangles.
pub fn index_width(triangles: u64) -> (r: usize)
    ensures
        r == index_width_of(triangles),
{
    if triangles > 0xFFFF_FFFF {
        8
    } else {
        4
    }
}

fn read_triples(p: &[u8], at: usize, count: usize, w: usize) -> (r: Vec<Triple>)
    requires
        w == 4 || w == 8,
        at + count * (3 * w) <= p@.len(),
    ensures
        r@ == triples(p@, at as int, count as int, w as int),
{
    let len = p.len();
    let stride: usize = 3 * w;
    let mut out: Vec<Triple> = Vec::new();
    let mut i: usize = 0;
    let mut o: usize = at;
    while i < count
        invariant
            w == 4 || w == 8,
            stride == 3 * w,
            i <= count,
            o == at + i * stride,
            len == p@.len(),
            at + count * stride <= p@.len(),
            out.len() == i,
            forall|j: int| 0 <= j < i ==> out@[j] == triples(p@, at as int, count as int, w as int)[j],
        decreases count - i,
    {
        assert((i + 1) * stride == i * stride + stride) by (nonlinear_arith);
        assert((i + 1) * stride <= count * stride) by (nonlinear_arith)
            requires
                i + 1 <= count,
        ;
        let x = get_scalar(p, o, w);
        let y = get_scalar(p, o + w, w);
        let z = get_scalar(p, o + 2 * w, w);
        out.push(Triple { x, y, z });
        o = o + stride;
        i += 1;
    }
    assert(out@ =~= triples(p@, at as int, count as int, w as int));
    out
}

fn read_pairs(p: &[u8], at: usize, count: usize, w: usize) -> (r: Vec<Pair>)
    requires
        w == 4 || w == 8,
        at + count * (2 * w) <= p@.len(),
    ensures
        r@ == pairs(p@, at as int, count as int, w as int),
{
    let len = p.len();
    let stride: usize = 2 * w;
    let mut out: Vec<Pair> = Vec::new();
    let mut i: usize = 0;
    let mut o: usize = at;
    while i < count
        invariant
            w == 4 || w == 8,
            stride == 2 * w,
            i <= count,
            o == at + i * stride,
            len == p@.len(),
            at + count * stride <= p@.len(),
            out.len() == i,
            forall|j: int| 0 <= j < i ==> out@[j] == pairs(p@, at as int, count as int, w as int)[j],
        decreases count - i,
    {
        assert((i + 1) * stride == i * stride + stride) by (nonlinear_arith);
        assert((i + 1) * stride <= count * stride) by (nonlinear_arith)
            requires
                i + 1 <= count,
        ;
        let x = get_scalar(p, o, w);
        let y = get_scalar(p, o + w, w);
        out.push(Pair { x, y });
        o = o + stride;
        i += 1;
    }
    assert(out@ =~= pairs(p@, at as int, count as int, w as int));
    out
}

fn find_zero(p: &[u8], from: usize) -> (r: usize)
    requires
        from <= p@.len(),
    ensures
        r == first_zero(p@, from as int),
        from <= r <= p@.len(),
{
    let mut i: usize = from;
    while i < p.len() && *slice_index_get(p, i) != 0
        invariant
            from <= i <= p@.len(),
            first_zero(p@, from as int) == first_zero(p@, i as int),
        decreases p@.len() - i,
    {
        i += 1;
    }
    i
}

/// The size in bytes of `count` rows of `per_row` bytes, where all of it
/// lies in `room` bytes.
fn section(count: u64, per_row: usize, room: usize) -> (r: Option<usize>)
    requires
        per_row <= 24,
    ensures
        match r {
            Some(s) => s == count * per_row && s <= room,
            None => count * per_row > room,
        },
{
    assert(0 <= count * per_row <= 24 * 0xFFFF_FFFF_FFFF_FFFF) by (nonlinear_arith)
        requires
            0 <= count <= 0xFFFF_FFFF_FFFF_FFFF,
            0 <= per_row <= 24,
    ;
    let total: u128 = (count as u128) * (per_row as u128);
    if total > room as u128 {
        None
    } else {
        Some(total as usize)
    }
}

/// Where the parts of a payload lie, in machine numbers.
struct Offsets {
    flags: u32,
    name_end: usize,
    vertices: usize,
    triangles: usize,
    width: usize,
    index_width: usize,
    positions: usize,
    normals: usize,
    texcoords: usize,
    colors: usize,
    indices: usize,
}

impl Offsets {
    spec fn is(&self, l: Layout) -> bool {
        &&& self.flags == l.flags
        &&& self.name_end == l.name_end
        &&& self.vertices == l.vertices
        &&& self.triangles == l.triangles
        &&& self.width == l.width
        &&& self.index_width == l.index_width
        &&& self.positions == l.positions
        &&& self.normals == l.normals
        &&& self.texcoords == l.texcoords
        &&& self.colors == l.colors
        &&& self.indices == l.indices
    }
}

/// One more part of a payload: `count` rows of `per_row` bytes from `from`
/// on, where the part is there at all.
fn after_part(present: bool, from: usize, count: u64, per_row: usize, len: usize) -> (r: Option<
    usize,
>)
    requires
        from <= len,
        2 <= per_row <= 24,
    ensures
        match r {
            Some(next) => next == from + (if present {
                count * per_row
            } else {
                0
            }) && next <= len && (present ==> count <= usize::MAX),
            None => present && from + count * per_row > len,
        },
{
    if present {
        match section(count, per_row, len - from) {
            None => None,
            Some(s) => {
                proof {
                    lemma_counts_fit(count as int, per_row as int, s as int);
                }
                Some(from + s)
            },
        }
    } else {
        Some(from)
    }
}

fn read_layout(payload: &[u8]) -> (r: Result<Offsets, Error>)
    ensures
        match layout_of(payload@) {
            Ok(l) => r matches Ok(x) && x.is(l) && l.end <= payload@.len() && (l.width == 4
                || l.width == 8) && (l.index_width == 4 || l.index_width == 8) && 4 <= l.name_end,
            Err(e) => r matches Err(x) && x@ == e,
        },
{
    let n = payload.len();
    if n < 4 {
        return Err(malformed_error("flags"));
    }
    let flags = get_u32(payload, 0);
    if flags & UNKNOWN_FLAGS != 0 {
        return Err(malformed_error("flags"));
    }
    let w = match float_width(flags) {
        None => {
            return Err(malformed_error("precision"));
        },
        Some(w) => w,
    };
    let z = find_zero(payload, 4);
    if z >= n {
        return Err(malformed_error("name"));
    }
    if n - (z + 1) < 16 {
        return Err(malformed_error("counts"));
    }
    let nv = get_u64(payload, z + 1);
    let nt = get_u64(payload, z + 9);
    let iw = index_width(nt);
    let positions = z + 17;
    let normals = match after_part(true, positions, nv, 3 * w, n) {
        None => {
            return Err(malformed_error("truncated"));
        },
        Some(x) => x,
    };
    let texcoords = match after_part(flags & HAS_NORMALS != 0, normals, nv, 3 * w, n) {
        None => {
            return Err(malformed_error("truncated"));
        },
        Some(x) => x,
    };
    let colors = match after_part(flags & HAS_TEXCOORDS != 0, texcoords, nv, 2 * w, n) {
        None => {
            return Err(malformed_error("truncated"));
        },
        Some(x) => x,
    };
    let indices = match after_part(flags & HAS_COLORS != 0, colors, nv, 3 * w, n) {
        None => {
            return Err(malformed_error("truncated"));
        },
        Some(x) => x,
    };
    let end = match after_part(true, indices, nt, 3 * iw, n) {
        None => {
            return Err(malformed_error("truncated"));
        },
        Some(x) => x,
    };
    Ok(
        Offsets {
            flags,
            name_end: z,
            vertices: nv as usize,
            triangles: nt as usize,
            width: w,
            index_width: iw,
            positions,
            normals,
            texcoords,
            colors,
            indices,
        },
    )
}

/// The mesh that a decompressed payload holds.
pub fn decode_mesh(payload: &[u8]) -> (r: Result<Serialized, Error>)
    ensures
        match mesh_of(payload@) {
            Ok(m) => r matches Ok(x) && x@ == m,
            Err(e) => r matches Err(x) && x@ == e,
        },
{
    let l = read_layout(payload)?;
    let flags = l.flags;
    let name = lossy_string(slice_subrange(payload, 4, l.name_end));
    let vertices = read_triples(payload, l.positions, l.vertices, l.width);
    let normals = if flags & HAS_NORMALS != 0 {
        Some(read_triples(payload, l.normals, l.vertices, l.width))
    } else {
        None
    };
    let texcoords = if flags & HAS_TEXCOORDS != 0 {
        Some(read_pairs(payload, l.texcoords, l.vertices, l.width))
    } else {
        None
    };
    let color = if flags & HAS_COLORS != 0 {
        Some(read_triples(payload, l.colors, l.vertices, l.width))
    } else {
        None
    };
    let indices = read_triples(payload, l.indices, l.triangles, l.index_width);
    Ok(
        Serialized {
            name,
            double_precision: l.width == 8,
            vertices,
            normals,
            texcoords,
            color,
            indices,
            face_normal: flags & HAS_FACE_NORMAL != 0,
        },
    )
}

/// Rows of at least two bytes that lie in a vector are no more than its length.
proof fn lemma_counts_fit(count: int, per_row: int, total: int)
    requires
        0 <= count,
        2 <= per_row,
        total == count * per_row,
        total <= usize::MAX,
    ensures
        count <= usize::MAX,
{
    assert(count <= count * per_row) by (nonlinear_arith)
        requires
            0 <= count,
            2 <= per_row,
    ;
}

/// The compressed payload of mesh `shape_index` of the container `file`.
pub fn mesh_block(file: &[u8], shape_index: u32) -> (r: Result<&[u8], Error>)
    ensures
        match block_payload(file@, shape_index as int) {
            Ok(c) => r matches Ok(x) && x@ == c,
            Err(e) => r matches Err(x) && x@ == e,
        },
{
    let len = file.len();
    if len < 4 {
        return Err(malformed_error("trailer"));
    }
    let n = get_u32(file, len - 4);
    let room = (len - 4) / 8;
    if n as u64 > room as u64 {
        return Err(malformed_error("offsets"));
    }
    if shape_index >= n {
        return Err(malformed_error("shape index"));
    }
    let table: usize = len - 4 - 8 * (n as usize);
    let k = shape_index as usize;
    let start = get_u64(file, table + 8 * k);
    let end: u64 = if shape_index + 1 < n {
        get_u64(file, table + 8 * (k + 1))
    } else {
        table as u64
    };
    if start > end || end - start < 4 || end > table as u64 {
        return Err(malformed_error("block"));
    }
    let start = start as usize;
    let end = end as usize;
    if get_u16(file, start + 2) != 4 {
        return Err(Error::ChecksumOrFormat);
    }
    Ok(slice_subrange(file, start + 4, end))
}

/// The mesh that the result of decompression holds, if decompression
/// accepted the block.
pub fn decode_inflated(inflated: Result<Vec<u8>, miniz_oxide::inflate::DecompressError>) -> (r:
    Result<Serialized, Error>)
    ensures
        match inflated {
            Ok(p) => match mesh_of(p@) {
                Ok(m) => r matches Ok(x) && x@ == m,
                Err(e) => r matches Err(x) && x@ == e,
            },
            Err(_) => r matches Err(x) && x@ == ErrorView::ChecksumOrFormat,
        },
{
    match inflated {
        Ok(p) => decode_mesh(p.as_slice()),
        Err(_) => Err(Error::ChecksumOrFormat),
    }
}

/// Reads the mesh that the shape `s` names out of the container `file`,
/// which is the content of the file that `s` names.
pub fn read_serialized(s: &SerializedShape, file: &[u8]) -> (r: Result<Serialized, Error>)
    ensures
        match serialized_of(file@, s.shape_index as int) {
            Ok(m) => r matches Ok(x) && x@ == m,
            Err(e) => r matches Err(x) && x@ == e,
        },
{
    let block = mesh_block(file, s.shape_index)?;
    decode_inflated(decompress(block))
}

} // verus!
