//! Binary STL triangle records.
//!
//! A binary STL body is a sequence of 50-byte records: the facet normal and
//! the three vertices as little-endian IEEE-754 single-precision values
//! (twelve 4-byte words), then a little-endian 16-bit attribute byte count.
//! The coordinates are kept as their 32-bit patterns.
use crate::io_mesh::mesh::MeshError;
use vstd::prelude::*;

verus! {

/// Size of one triangle record in bytes.
pub const TRIANGLE_RECORD_BYTES: usize = 50;

/// One binary STL triangle; each coordinate is the bit pattern of an
/// IEEE-754 single-precision value.
#[derive(Debug, Clone, Copy, PartialEq, Eq)]
pub struct Triangle {
    pub normal_bits: [u32; 3],
    pub vertex_bits: [[u32; 3]; 3],
    pub attribute: u16,
}

/// Little-endian 32-bit word at `off`.
pub open spec fn le_u32(s: Seq<u8>, off: int) -> u32 {
    (s[off] as int + s[off + 1] as int * 0x100 + s[off + 2] as int * 0x1_0000 + s[off + 3] as int
        * 0x100_0000) as u32
}

/// Little-endian 16-bit word at `off`.
pub open spec fn le_u16(s: Seq<u8>, off: int) -> u16 {
    (s[off] as int + s[off + 1] as int * 0x100) as u16
}

/// The triangle record that starts at `off`.
pub open spec fn triangle_at(s: Seq<u8>, off: int) -> Triangle {
    Triangle {
        normal_bits: [le_u32(s, off), le_u32(s, off + 4), le_u32(s, off + 8)],
        vertex_bits: [
            [le_u32(s, off + 12), le_u32(s, off + 16), le_u32(s, off + 20)],
            [le_u32(s, off + 24), le_u32(s, off + 28), le_u32(s, off + 32)],
            [le_u32(s, off + 36), le_u32(s, off + 40), le_u32(s, off + 44)],
        ],
        attribute: le_u16(s, off + 48),
    }
}

/// The little-endian value of the four bytes of `s` from `o`, as a number.
pub open spec fn word_value(s: Seq<u8>, o: int) -> int {
    s[o] + 256 * s[o + 1] + 65536 * s[o + 2] + 16777216 * s[o + 3]
}

/// A triangle record is read word by word in the order of the format: the
/// normal's `j`-th coordinate is the little-endian word at byte `4 j` of the
/// record, the `j`-th coordinate of vertex `k` the word at byte
/// `12 + 12 k + 4 j`, and the attribute the 16-bit word at byte 48.
pub proof fn lemma_triangle_record_layout(s: Seq<u8>, off: int)
    requires
        0 <= off,
        off + 50 <= s.len(),
    ensures
        forall|j: int|
            0 <= j < 3 ==> #[trigger] triangle_at(s, off).normal_bits@[j] as int == word_value(s, off + 4 * j),
        forall|k: int, j: int|
            0 <= k < 3 && 0 <= j < 3 ==> #[trigger] triangle_at(s, off).vertex_bits@[k]@[j] as int
                == word_value(s, off + 12 + 12 * k + 4 * j),
        triangle_at(s, off).attribute as int == s[off + 48] + 256 * s[off + 49],
{
    let t = triangle_at(s, off);
    assert forall|o: int| off <= o && o + 4 <= off + 50 implies #[trigger] le_u32(s, o) as int == word_value(s, o) by {
        assert(0 <= word_value(s, o) < 0x1_0000_0000);
    }
    assert forall|j: int| 0 <= j < 3 implies #[trigger] t.normal_bits@[j] as int == word_value(s, off + 4 * j) by {
        assert(le_u32(s, off + 4 * j) as int == word_value(s, off + 4 * j));
        if j == 0 {
        } else if j == 1 {
        } else {
        }
    }
    assert forall|k: int, j: int| 0 <= k < 3 && 0 <= j < 3 implies #[trigger] t.vertex_bits@[k]@[j] as int
        == word_value(s, off + 12 + 12 * k + 4 * j) by {
        assert(le_u32(s, off + 12 + 12 * k + 4 * j) as int == word_value(s, off + 12 + 12 * k + 4 * j));
        if k == 0 {
            if j == 0 {
            } else if j == 1 {
            } else {
            }
        } else if k == 1 {
            if j == 0 {
            } else if j == 1 {
            } else {
            }
        } else {
            if j == 0 {
            } else if j == 1 {
            } else {
            }
        }
    }
}

/// The message of a truncated triangle section.
pub open spec fn truncated_message() -> Seq<char> {
    "failed to parse binary STL triangle data: truncated triangle record"@
}

/// Little-endian 32-bit word at `off`.
fn read_u32(s: &[u8], off: usize) -> (r: u32)
    requires
        off + 4 <= s@.len(),
    ensures
        r == le_u32(s@, off as int),
{
    let v = s[off] as u32 + s[off + 1] as u32 * 0x100 + s[off + 2] as u32 * 0x1_0000 + s[off + 3]
        as u32 * 0x100_0000;
    v
}

/// Little-endian 16-bit word at `off`.
fn read_u16(s: &[u8], off: usize) -> (r: u16)
    requires
        off + 2 <= s@.len(),
    ensures
        r == le_u16(s@, off as int),
{
    s[off] as u16 + s[off + 1] as u16 * 0x100
}

/// The triangle record that starts at `off`.
fn read_triangle(s: &[u8], off: usize) -> (r: Triangle)
    requires
        off + 50 <= s@.len() <= usize::MAX,
    ensures
        r == triangle_at(s@, off as int),
{
    Triangle {
        normal_bits: [read_u32(s, off), read_u32(s, off + 4), read_u32(s, off + 8)],
        vertex_bits: [
            [read_u32(s, off + 12), read_u32(s, off + 16), read_u32(s, off + 20)],
            [read_u32(s, off + 24), read_u32(s, off + 28), read_u32(s, off + 32)],
            [read_u32(s, off + 36), read_u32(s, off + 40), read_u32(s, off + 44)],
        ],
        attribute: read_u16(s, off + 48),
    }
}

/// Parses `tri_count` consecutive triangle records from the start of `body`;
/// bytes after them are ignored.  Fails with a parse error at line 0 when
/// `body` is shorter than `50 * tri_count` bytes.
pub fn parse_stl_binary(body: &[u8], tri_count: usize) -> (r: Result<Vec<Triangle>, MeshError>)
    ensures
        r is Ok <==> 50 * tri_count <= body@.len(),
        r matches Ok(v) ==> v@.len() == tri_count && forall|k: int|
            0 <= k < tri_count ==> #[trigger] v@[k] == triangle_at(body@, 50 * k),
        r matches Err(e) ==> e matches MeshError::ParseError { line, message } && line == 0
            && message@ == truncated_message(),
{
    if tri_count > body.len() / TRIANGLE_RECORD_BYTES {
        return Err(
            MeshError::ParseError {
                line: 0,
                message: String::from_str(
                    "failed to parse binary STL triangle data: truncated triangle record",
                ),
            },
        );
    }
    let len = body.len();
    let mut out: Vec<Triangle> = Vec::new();
    let mut k: usize = 0;
    while k < tri_count
        invariant
            k <= tri_count,
            50 * tri_count <= body@.len(),
            body@.len() == len,
            out@.len() == k,
            forall|j: int| 0 <= j < k ==> #[trigger] out@[j] == triangle_at(body@, 50 * j),
        decreases tri_count - k,
    {
        assert(k * 50 + 50 <= 50 * tri_count) by (nonlinear_arith)
            requires
                k < tri_count,
        ;
        out.push(read_triangle(body, k * TRIANGLE_RECORD_BYTES));
        k = k + 1;
    }
    Ok(out)
}

} // verus!
