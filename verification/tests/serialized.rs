use miniz_oxide::deflate::compress_to_vec_zlib;
use miniz_oxide::inflate::{decompress_to_vec_zlib, DecompressError, TINFLStatus};
use mitsuba_rs::serialized::{
    decode_inflated, decode_mesh, float_width, index_width, mesh_block, Pair, Triple, DOUBLE_PRECISION,
    HAS_COLORS, HAS_FACE_NORMAL, HAS_NORMALS, HAS_TEXCOORDS, SINGLE_PRECISION,
};
use mitsuba_rs::{read_serialized, Error, Serialized, SerializedShape, ShapeOption};

struct Mesh {
    flags: u32,
    name: &'static str,
    positions: Vec<[f64; 3]>,
    normals: Vec<[f64; 3]>,
    texcoords: Vec<[f64; 2]>,
    colors: Vec<[f64; 3]>,
    triangles: Vec<[u32; 3]>,
}

fn put(out: &mut Vec<u8>, flags: u32, v: f64) {
    if flags & SINGLE_PRECISION != 0 {
        out.extend_from_slice(&(v as f32).to_le_bytes());
    } else {
        out.extend_from_slice(&v.to_le_bytes());
    }
}

fn payload(m: &Mesh) -> Vec<u8> {
    let mut out: Vec<u8> = Vec::new();
    out.extend_from_slice(&m.flags.to_le_bytes());
    out.extend_from_slice(m.name.as_bytes());
    out.push(0);
    out.extend_from_slice(&(m.positions.len() as u64).to_le_bytes());
    out.extend_from_slice(&(m.triangles.len() as u64).to_le_bytes());
    for p in &m.positions {
        for c in p {
            put(&mut out, m.flags, *c);
        }
    }
    for p in &m.normals {
        for c in p {
            put(&mut out, m.flags, *c);
        }
    }
    for p in &m.texcoords {
        for c in p {
            put(&mut out, m.flags, *c);
        }
    }
    for p in &m.colors {
        for c in p {
            put(&mut out, m.flags, *c);
        }
    }
    for t in &m.triangles {
        for i in t {
            out.extend_from_slice(&i.to_le_bytes());
        }
    }
    out
}

fn block(payload: &[u8], version: u16) -> Vec<u8> {
    let mut out: Vec<u8> = Vec::new();
    out.extend_from_slice(&0x041Cu16.to_le_bytes());
    out.extend_from_slice(&version.to_le_bytes());
    out.extend_from_slice(&compress_to_vec_zlib(payload, 6));
    out
}

fn container(blocks: &[Vec<u8>]) -> Vec<u8> {
    let mut out: Vec<u8> = Vec::new();
    let mut offsets: Vec<u64> = Vec::new();
    for b in blocks {
        offsets.push(out.len() as u64);
        out.extend_from_slice(b);
    }
    for o in &offsets {
        out.extend_from_slice(&o.to_le_bytes());
    }
    out.extend_from_slice(&(blocks.len() as u32).to_le_bytes());
    out
}

fn shape(shape_index: u32) -> SerializedShape {
    SerializedShape {
        filename: "./data/kitchen.serialized".to_string(),
        shape_index,
        face_normal: true,
        max_smooth_angle: None,
        option: ShapeOption {
            flip_normal: false,
            bsdf: None,
            to_world: None,
            emitter: None,
            interior: None,
            exterior: None,
        },
    }
}

fn single(t: &Triple) -> [f32; 3] {
    [f32::from_bits(t.x as u32), f32::from_bits(t.y as u32), f32::from_bits(t.z as u32)]
}

fn double(t: &Triple) -> [f64; 3] {
    [f64::from_bits(t.x), f64::from_bits(t.y), f64::from_bits(t.z)]
}

fn triangle_mesh(name: &'static str, shift: f64) -> Mesh {
    Mesh {
        flags: SINGLE_PRECISION | HAS_NORMALS,
        name,
        positions: vec![[shift, 0.0, 0.0], [1.0, shift, 0.0], [0.0, 1.0, shift]],
        normals: vec![[0.0, 0.0, 1.0], [0.0, 0.0, 1.0], [0.0, 0.0, 1.0]],
        texcoords: vec![],
        colors: vec![],
        triangles: vec![[0, 1, 2]],
    }
}

fn two_meshes() -> Vec<u8> {
    container(&[
        block(&payload(&triangle_mesh("first", 0.5)), 4),
        block(&payload(&triangle_mesh("second", 2.5)), 4),
    ])
}

#[test]
fn kitchen_serialized() {
    let file = two_meshes();
    let s = shape(0);
    read_serialized(&s, &file).unwrap();
}

#[test]
fn kitchen_serialized_all() {
    let mut blocks: Vec<Vec<u8>> = Vec::new();
    for _ in 0..1489 {
        blocks.push(block(&payload(&triangle_mesh("part", 1.0)), 4));
    }
    let file = container(&blocks);
    for shape_index in 0..1489 {
        let s = shape(shape_index);
        let mesh = read_serialized(&s, &file).unwrap();
        assert_eq!(mesh.vertices.len(), 3);
    }
    assert!(read_serialized(&shape(1489), &file).is_err());
}

#[test]
fn serialized_mesh() {
    let file = two_meshes();
    let mesh = read_serialized(&shape(0), &file).unwrap();
    assert_eq!(mesh.name, "first");
    assert!(!mesh.double_precision);
    assert_eq!(mesh.vertices.len(), 3);
    assert_eq!(single(&mesh.vertices[0]), [0.5, 0.0, 0.0]);
    assert_eq!(single(&mesh.vertices[1]), [1.0, 0.5, 0.0]);
    assert_eq!(single(&mesh.vertices[2]), [0.0, 1.0, 0.5]);
    let normals = mesh.normals.as_ref().unwrap();
    assert_eq!(normals.len(), 3);
    assert_eq!(single(&normals[2]), [0.0, 0.0, 1.0]);
    assert!(mesh.texcoords.is_none());
    assert!(mesh.color.is_none());
    assert_eq!(mesh.indices, vec![Triple { x: 0, y: 1, z: 2 }]);
    assert!(!mesh.face_normal);
}

#[test]
fn meshes_come_out_the_same_in_either_order() {
    let file = two_meshes();
    let a0 = read_serialized(&shape(0), &file).unwrap();
    let a1 = read_serialized(&shape(1), &file).unwrap();
    let b1 = read_serialized(&shape(1), &file).unwrap();
    let b0 = read_serialized(&shape(0), &file).unwrap();
    assert_eq!(a0, b0);
    assert_eq!(a1, b1);
    assert_ne!(a0, a1);
    assert_eq!(a1.name, "second");
    assert_eq!(single(&a1.vertices[0]), [2.5, 0.0, 0.0]);
}

#[test]
fn double_precision_and_every_part() {
    let m = Mesh {
        flags: DOUBLE_PRECISION | HAS_NORMALS | HAS_TEXCOORDS | HAS_COLORS | HAS_FACE_NORMAL,
        name: "all",
        positions: vec![[0.1, 0.2, 0.3], [1e300, -2.0, 3.0]],
        normals: vec![[1.0, 0.0, 0.0], [0.0, 1.0, 0.0]],
        texcoords: vec![[0.25, 0.75], [0.5, 0.125]],
        colors: vec![[1.0, 0.5, 0.25], [0.0, 0.0, 1.0]],
        triangles: vec![[0, 1, 0], [1, 0, 1]],
    };
    let mesh: Serialized = decode_mesh(&payload(&m)).unwrap();
    assert!(mesh.double_precision);
    assert!(mesh.face_normal);
    assert_eq!(double(&mesh.vertices[0]), [0.1, 0.2, 0.3]);
    assert_eq!(double(&mesh.vertices[1]), [1e300, -2.0, 3.0]);
    assert_eq!(double(&mesh.normals.as_ref().unwrap()[1]), [0.0, 1.0, 0.0]);
    let uv: &Vec<Pair> = mesh.texcoords.as_ref().unwrap();
    assert_eq!(uv.len(), 2);
    assert_eq!((f64::from_bits(uv[1].x), f64::from_bits(uv[1].y)), (0.5, 0.125));
    assert_eq!(double(&mesh.color.as_ref().unwrap()[0]), [1.0, 0.5, 0.25]);
    assert_eq!(mesh.indices, vec![Triple { x: 0, y: 1, z: 0 }, Triple { x: 1, y: 0, z: 1 }]);
    assert_eq!(mesh.indices.len() * 3, 3 * m.triangles.len());
}

#[test]
fn flags_select_the_width_of_numbers() {
    assert_eq!(float_width(SINGLE_PRECISION), Some(4));
    assert_eq!(float_width(DOUBLE_PRECISION | HAS_NORMALS), Some(8));
    assert_eq!(float_width(SINGLE_PRECISION | DOUBLE_PRECISION), None);
    assert_eq!(float_width(HAS_NORMALS), None);
    let same = |flags: u32| {
        let m = Mesh {
            flags,
            name: "w",
            positions: vec![[1.5, 2.5, 3.5]],
            normals: vec![],
            texcoords: vec![],
            colors: vec![],
            triangles: vec![],
        };
        let bytes = payload(&m);
        (bytes.len(), decode_mesh(&bytes).unwrap())
    };
    let (len4, m4) = same(SINGLE_PRECISION);
    let (len8, m8) = same(DOUBLE_PRECISION);
    assert_eq!(len8 - len4, 12);
    assert_eq!(single(&m4.vertices[0]), [1.5, 2.5, 3.5]);
    assert_eq!(double(&m8.vertices[0]), [1.5, 2.5, 3.5]);
}

#[test]
fn count_of_triangles_selects_the_width_of_indices() {
    assert_eq!(index_width(0), 4);
    assert_eq!(index_width(0xFFFF_FFFF), 4);
    assert_eq!(index_width(0x1_0000_0000), 8);
    assert_eq!(index_width(u64::MAX), 8);
    let mut bytes: Vec<u8> = Vec::new();
    bytes.extend_from_slice(&SINGLE_PRECISION.to_le_bytes());
    bytes.push(0);
    bytes.extend_from_slice(&0u64.to_le_bytes());
    bytes.extend_from_slice(&0x1_0000_0000u64.to_le_bytes());
    match decode_mesh(&bytes) {
        Err(Error::MalformedBinary(reason)) => assert_eq!(reason, "truncated"),
        other => panic!("{:?}", other),
    }
}

#[test]
fn malformed_payloads_are_refused() {
    let good = payload(&triangle_mesh("m", 0.0));
    assert!(decode_mesh(&good).is_ok());
    let reason = |bytes: &[u8]| match decode_mesh(bytes) {
        Err(Error::MalformedBinary(r)) => r,
        other => panic!("{:?}", other),
    };
    assert_eq!(reason(&good[..3]), "flags");
    assert_eq!(reason(&good[..good.len() - 1]), "truncated");
    assert_eq!(reason(&good[..5]), "name");
    assert_eq!(reason(&good[..10]), "counts");
    let mut unknown = good.clone();
    unknown[2] = 1;
    assert_eq!(reason(&unknown), "flags");
    let mut both = good.clone();
    both[1] = 0x30;
    assert_eq!(reason(&both), "precision");
    let mut neither = good.clone();
    neither[1] = 0;
    assert_eq!(reason(&neither), "precision");
    let mut huge = good.clone();
    for b in &mut huge[6..14] {
        *b = 0xff;
    }
    assert_eq!(reason(&huge), "truncated");
    let mut longer = good.clone();
    longer.extend_from_slice(&[1, 2, 3]);
    assert_eq!(decode_mesh(&longer).unwrap(), decode_mesh(&good).unwrap());
}

#[test]
fn malformed_containers_are_refused() {
    let file = two_meshes();
    let reason = |bytes: &[u8], k: u32| match read_serialized(&shape(k), bytes) {
        Err(Error::MalformedBinary(r)) => r,
        other => panic!("{:?}", other),
    };
    assert_eq!(reason(&file[..3], 0), "trailer");
    assert_eq!(reason(&file, 2), "shape index");
    assert_eq!(reason(&file[file.len() - 12..], 0), "offsets");
    let mut swapped = file.clone();
    let table = file.len() - 4 - 16;
    let second: [u8; 8] = file[table + 8..table + 16].try_into().unwrap();
    swapped[table..table + 8].copy_from_slice(&second);
    swapped[table + 8..table + 16].copy_from_slice(&0u64.to_le_bytes());
    assert_eq!(reason(&swapped, 0), "block");
    let mut beyond = file.clone();
    beyond[table + 8..table + 16].copy_from_slice(&(file.len() as u64).to_le_bytes());
    assert_eq!(reason(&beyond, 1), "block");
}

#[test]
fn other_versions_and_broken_compression_are_refused() {
    let p = payload(&triangle_mesh("m", 0.0));
    let old = container(&[block(&p, 3)]);
    assert!(matches!(read_serialized(&shape(0), &old), Err(Error::ChecksumOrFormat)));
    let mut broken = block(&p, 4);
    let n = broken.len();
    broken[n - 1] ^= 0xff;
    broken[6] ^= 0xff;
    let file = container(&[broken]);
    assert!(matches!(read_serialized(&shape(0), &file), Err(Error::ChecksumOrFormat)));
    let raw = container(&[{
        let mut b = vec![0x1c, 0x04, 4, 0];
        b.extend_from_slice(&p);
        b
    }]);
    assert!(matches!(read_serialized(&shape(0), &raw), Err(Error::ChecksumOrFormat)));
}

#[test]
fn the_compressed_payload_is_the_block_behind_its_header() {
    let p0 = payload(&triangle_mesh("first", 0.5));
    let p1 = payload(&triangle_mesh("second", 2.5));
    let b0 = block(&p0, 4);
    let b1 = block(&p1, 4);
    let file = container(&[b0.clone(), b1.clone()]);
    assert_eq!(mesh_block(&file, 0).unwrap(), &b0[4..]);
    assert_eq!(mesh_block(&file, 1).unwrap(), &b1[4..]);
    assert_eq!(mesh_block(&file, 0).unwrap().len(), b0.len() - 4);
}

#[test]
fn names_are_read_as_text() {
    let mut m = triangle_mesh("caf\u{e9} \u{4e16}", 0.0);
    assert_eq!(decode_mesh(&payload(&m)).unwrap().name, "caf\u{e9} \u{4e16}");
    m.name = "";
    assert_eq!(decode_mesh(&payload(&m)).unwrap().name, "");
    let mut bytes = payload(&triangle_mesh("ab", 0.0));
    bytes[4] = 0xff;
    assert_eq!(decode_mesh(&bytes).unwrap().name, "\u{fffd}b");
}

#[test]
fn what_decompression_gave_decides() {
    let p = payload(&triangle_mesh("m", 0.25));
    let good = decode_inflated(decompress_to_vec_zlib(&compress_to_vec_zlib(&p, 1))).unwrap();
    assert_eq!(good, decode_mesh(&p).unwrap());
    let failed = DecompressError { status: TINFLStatus::Failed, output: p.clone() };
    assert!(matches!(decode_inflated(Err(failed)), Err(Error::ChecksumOrFormat)));
    match decode_inflated(Ok(vec![1, 2])) {
        Err(Error::MalformedBinary(reason)) => assert_eq!(reason, "flags"),
        other => panic!("{:?}", other),
    }
}
