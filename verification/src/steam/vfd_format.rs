//! The binary key-value format in which the Steam client keeps what it
//! knows of applications.
//!
//! All numbers are little-endian. An object is a list of nodes, each a type
//! byte, a key and a value, closed by an end marker. Keys are indices into
//! a pool of strings where there is one, and strings that end with a zero
//! byte where there is none.

use byteorder::{ByteOrder, LittleEndian};
use vstd::bytes::{spec_u32_from_le_bytes, spec_u64_from_le_bytes};
use vstd::prelude::*;
use vstd::slice::slice_subrange;
use crate::number::{between, parse_signed, signed_value};
use crate::text::{chars_of, rows, split, split_exec, str_equal};
use vstd::utf8::{decode_utf8, valid_utf8};

verus! {

/// `ByteOrder::read_u32` of `LittleEndian`: the number that the first four
/// bytes write, lowest byte first. It panics on fewer bytes.
#[verifier::external_body]
fn read_u32_le(buf: &[u8]) -> (v: u32)
    requires
        buf@.len() >= 4,
    ensures
        v == spec_u32_from_le_bytes(buf@.subrange(0, 4)),
{
    LittleEndian::read_u32(buf)
}

/// `ByteOrder::read_u64` of `LittleEndian`: the number that the first
/// eight bytes write, lowest byte first. It panics on fewer bytes.
#[verifier::external_body]
fn read_u64_le(buf: &[u8]) -> (v: u64)
    requires
        buf@.len() >= 8,
    ensures
        v == spec_u64_from_le_bytes(buf@.subrange(0, 8)),
{
    LittleEndian::read_u64(buf)
}

/// `String::from_utf8`: the text that the bytes encode, where they are
/// valid UTF-8.
#[verifier::external_body]
fn text_of_bytes(bytes: Vec<u8>) -> (r: Option<String>)
    ensures
        match r {
            Some(s) => valid_utf8(bytes@) && s@ == decode_utf8(bytes@),
            None => !valid_utf8(bytes@),
        },
{
    match String::from_utf8(bytes) {
        Ok(s) => Some(s),
        Err(_) => None,
    }
}

/// The Steam universe of a database.
#[derive(Debug, Clone, Copy, PartialEq, Eq, Structural)]
pub enum EUniverse {
    Invalid,
    Public,
    Beta,
    Internal,
    Dev,
    Max,
}

/// The universe with the number `n`.
pub open spec fn universe_of(n: u32) -> Option<EUniverse> {
    if n == 0 {
        Some(EUniverse::Invalid)
    } else if n == 1 {
        Some(EUniverse::Public)
    } else if n == 2 {
        Some(EUniverse::Beta)
    } else if n == 3 {
        Some(EUniverse::Internal)
    } else if n == 4 {
        Some(EUniverse::Dev)
    } else if n == 5 {
        Some(EUniverse::Max)
    } else {
        None
    }
}

impl EUniverse {
    pub fn try_from(n: u32) -> (r: Option<EUniverse>)
        ensures
            r == universe_of(n),
    {
        if n == 0 {
            Some(EUniverse::Invalid)
        } else if n == 1 {
            Some(EUniverse::Public)
        } else if n == 2 {
            Some(EUniverse::Beta)
        } else if n == 3 {
            Some(EUniverse::Internal)
        } else if n == 4 {
            Some(EUniverse::Dev)
        } else if n == 5 {
            Some(EUniverse::Max)
        } else {
            None
        }
    }
}

/// The types of node.
#[derive(Debug, Clone, Copy, PartialEq, Eq, Structural)]
pub enum KV1BinaryNodeType {
    ChildObject,
    String,
    Int32,
    Float32,
    Pointer,
    WideString,
    Color,
    UInt64,
    End,
    ProbablyBinary,
    Int64,
    AlternateEnd,
}

/// The type of node that the byte `b` stands for.
pub open spec fn node_type_of(b: u8) -> Option<KV1BinaryNodeType> {
    if b == 0 {
        Some(KV1BinaryNodeType::ChildObject)
    } else if b == 1 {
        Some(KV1BinaryNodeType::String)
    } else if b == 2 {
        Some(KV1BinaryNodeType::Int32)
    } else if b == 3 {
        Some(KV1BinaryNodeType::Float32)
    } else if b == 4 {
        Some(KV1BinaryNodeType::Pointer)
    } else if b == 5 {
        Some(KV1BinaryNodeType::WideString)
    } else if b == 6 {
        Some(KV1BinaryNodeType::Color)
    } else if b == 7 {
        Some(KV1BinaryNodeType::UInt64)
    } else if b == 8 {
        Some(KV1BinaryNodeType::End)
    } else if b == 9 {
        Some(KV1BinaryNodeType::ProbablyBinary)
    } else if b == 10 {
        Some(KV1BinaryNodeType::Int64)
    } else if b == 11 {
        Some(KV1BinaryNodeType::AlternateEnd)
    } else {
        None
    }
}

impl KV1BinaryNodeType {
    pub fn try_from(b: u8) -> (r: Option<KV1BinaryNodeType>)
        ensures
            r == node_type_of(b),
    {
        if b == 0 {
            Some(KV1BinaryNodeType::ChildObject)
        } else if b == 1 {
            Some(KV1BinaryNodeType::String)
        } else if b == 2 {
            Some(KV1BinaryNodeType::Int32)
        } else if b == 3 {
            Some(KV1BinaryNodeType::Float32)
        } else if b == 4 {
            Some(KV1BinaryNodeType::Pointer)
        } else if b == 5 {
            Some(KV1BinaryNodeType::WideString)
        } else if b == 6 {
            Some(KV1BinaryNodeType::Color)
        } else if b == 7 {
            Some(KV1BinaryNodeType::UInt64)
        } else if b == 8 {
            Some(KV1BinaryNodeType::End)
        } else if b == 9 {
            Some(KV1BinaryNodeType::ProbablyBinary)
        } else if b == 10 {
            Some(KV1BinaryNodeType::Int64)
        } else if b == 11 {
            Some(KV1BinaryNodeType::AlternateEnd)
        } else {
            None
        }
    }
}

/// Why the bytes are no database.
#[derive(Debug, Clone, Copy, PartialEq, Eq, Structural)]
pub enum VdfError {
    /// The bytes end where more are needed.
    UnexpectedEof,
    /// The database does not begin with its magic number.
    BadMagic,
    /// The universe is none of the known ones.
    InvalidUniverse,
    /// A type byte stands for no type of node.
    InvalidNodeType,
    /// A key names a string that the pool does not have.
    StringIndexOutOfBounds,
    /// A string is not valid UTF-8.
    InvalidUtf8,
    /// A node of a type that is not read: a wide string, binary data, or an
    /// end marker where none belongs.
    UnsupportedNode,
    /// The data of an entry does not end where its size says.
    SizeMismatch,
}

/// A value.
#[derive(Debug, PartialEq, Eq)]
pub enum KVValue {
    String(String),
    Int32(i32),
    UInt64(u64),
    Int64(i64),
    /// A number of 32 bits in floating point, kept as its bits.
    Float32(u32),
    /// The nodes of an object, in the order of the file. Where a key comes
    /// twice, the later node counts.
    Object(Vec<(String, KVValue)>),
    /// No value.
    Empty,
}

/// What a value holds.
pub enum KVValueView {
    String(Seq<char>),
    Int32(i32),
    UInt64(u64),
    Int64(i64),
    Float32(u32),
    Object(Seq<(Seq<char>, KVValueView)>),
    Empty,
}

/// What the nodes of an object hold.
pub open spec fn nodes_view(nodes: Seq<(String, KVValue)>) -> Seq<(Seq<char>, KVValueView)>
    decreases nodes,
{
    Seq::new(
        nodes.len(),
        |i: int|
            if 0 <= i < nodes.len() {
                (nodes[i].0@, value_view(nodes[i].1))
            } else {
                (Seq::<char>::empty(), KVValueView::Empty)
            },
    )
}

/// What a value holds.
pub open spec fn value_view(v: KVValue) -> KVValueView
    decreases v,
{
    match v {
        KVValue::String(s) => KVValueView::String(s@),
        KVValue::Int32(n) => KVValueView::Int32(n),
        KVValue::UInt64(n) => KVValueView::UInt64(n),
        KVValue::Int64(n) => KVValueView::Int64(n),
        KVValue::Float32(n) => KVValueView::Float32(n),
        KVValue::Object(nodes) => KVValueView::Object(nodes_view(nodes@)),
        KVValue::Empty => KVValueView::Empty,
    }
}

/// The byte at `pos`, and the position after it.
pub open spec fn u8_at(b: Seq<u8>, pos: int) -> Result<(u8, int), VdfError> {
    if 0 <= pos < b.len() {
        Ok((b[pos], pos + 1))
    } else {
        Err(VdfError::UnexpectedEof)
    }
}

/// The number of four bytes at `pos`, and the position after it.
pub open spec fn u32_at(b: Seq<u8>, pos: int) -> Result<(u32, int), VdfError> {
    if 0 <= pos && pos + 4 <= b.len() {
        Ok((spec_u32_from_le_bytes(b.subrange(pos, pos + 4)), pos + 4))
    } else {
        Err(VdfError::UnexpectedEof)
    }
}

/// The number of eight bytes at `pos`, and the position after it.
pub open spec fn u64_at(b: Seq<u8>, pos: int) -> Result<(u64, int), VdfError> {
    if 0 <= pos && pos + 8 <= b.len() {
        Ok((spec_u64_from_le_bytes(b.subrange(pos, pos + 8)), pos + 8))
    } else {
        Err(VdfError::UnexpectedEof)
    }
}

/// The position of the first zero byte at or after `pos`, or the number of
/// bytes.
pub open spec fn zero_from(b: Seq<u8>, pos: int) -> int
    decreases b.len() - pos,
{
    if pos < 0 || pos >= b.len() || b[pos] == 0 {
        pos
    } else {
        zero_from(b, pos + 1)
    }
}

/// The string at `pos` that ends with a zero byte, and the position after
/// that byte.
pub open spec fn text_at(b: Seq<u8>, pos: int) -> Result<(Seq<char>, int), VdfError> {
    let z = zero_from(b, pos);
    if pos < 0 || z >= b.len() {
        Err(VdfError::UnexpectedEof)
    } else if !valid_utf8(b.subrange(pos, z)) {
        Err(VdfError::InvalidUtf8)
    } else {
        Ok((decode_utf8(b.subrange(pos, z)), z + 1))
    }
}

/// The key at `pos`: an index into the pool where the pool has strings,
/// a string otherwise.
pub open spec fn key_at(b: Seq<u8>, pool: Seq<Seq<char>>, pos: int) -> Result<
    (Seq<char>, int),
    VdfError,
> {
    if pool.len() > 0 {
        match u32_at(b, pos) {
            Ok((index, next)) => if index < pool.len() {
                Ok((pool[index as int], next))
            } else {
                Err(VdfError::StringIndexOutOfBounds)
            },
            Err(e) => Err(e),
        }
    } else {
        text_at(b, pos)
    }
}

/// The type of the node at `pos`.
pub open spec fn node_type_at(b: Seq<u8>, pos: int) -> Result<(KV1BinaryNodeType, int), VdfError> {
    match u8_at(b, pos) {
        Ok((byte, next)) => match node_type_of(byte) {
            Some(t) => Ok((t, next)),
            None => Err(VdfError::InvalidNodeType),
        },
        Err(e) => Err(e),
    }
}

/// The nodes of the object that begins at `pos`, up to the end marker, and
/// the position after the marker. Every node takes at least one byte, so
/// the position moves on with each.
pub open spec fn nodes_at(
    b: Seq<u8>,
    pool: Seq<Seq<char>>,
    end: KV1BinaryNodeType,
    pos: int,
) -> Result<(Seq<(Seq<char>, KVValueView)>, int), VdfError>
    decreases b.len() - pos, 1int,
{
    match node_type_at(b, pos) {
        Err(e) => Err(e),
        Ok((t, after_type)) => if t == end {
            Ok((Seq::empty(), after_type))
        } else {
            match node_at(b, pool, end, t, after_type) {
                Err(e) => Err(e),
                Ok((node, next)) => if next <= pos || next > b.len() {
                    Err(VdfError::UnexpectedEof)
                } else {
                    match nodes_at(b, pool, end, next) {
                        Err(e) => Err(e),
                        Ok((rest, after)) => Ok((seq![node] + rest, after)),
                    }
                },
            }
        },
    }
}

/// The node of type `t` whose key begins at `pos`, and the position after
/// its value.
pub open spec fn node_at(
    b: Seq<u8>,
    pool: Seq<Seq<char>>,
    end: KV1BinaryNodeType,
    t: KV1BinaryNodeType,
    pos: int,
) -> Result<((Seq<char>, KVValueView), int), VdfError>
    decreases b.len() - pos, 0int,
{
    match key_at(b, pool, pos) {
        Err(e) => Err(e),
        Ok((key, at)) => match t {
            KV1BinaryNodeType::ChildObject => if at <= pos || at > b.len() {
                Err(VdfError::UnexpectedEof)
            } else {
                match nodes_at(b, pool, end, at) {
                    Ok((nodes, next)) => Ok(((key, KVValueView::Object(nodes)), next)),
                    Err(e) => Err(e),
                }
            },
            KV1BinaryNodeType::String => match text_at(b, at) {
                Ok((text, next)) => Ok(((key, KVValueView::String(text)), next)),
                Err(e) => Err(e),
            },
            KV1BinaryNodeType::Int32 | KV1BinaryNodeType::Color | KV1BinaryNodeType::Pointer => match u32_at(
                b,
                at,
            ) {
                Ok((n, next)) => Ok(((key, KVValueView::Int32(n as i32)), next)),
                Err(e) => Err(e),
            },
            KV1BinaryNodeType::UInt64 => match u64_at(b, at) {
                Ok((n, next)) => Ok(((key, KVValueView::UInt64(n)), next)),
                Err(e) => Err(e),
            },
            KV1BinaryNodeType::Float32 => match u32_at(b, at) {
                Ok((n, next)) => Ok(((key, KVValueView::Float32(n)), next)),
                Err(e) => Err(e),
            },
            KV1BinaryNodeType::Int64 => match u64_at(b, at) {
                Ok((n, next)) => Ok(((key, KVValueView::Int64(n as i64)), next)),
                Err(e) => Err(e),
            },
            _ => Err(VdfError::UnsupportedNode),
        },
    }
}

/// The zero byte that is found lies at or after the place from which it
/// is looked for.
pub proof fn lemma_zero_from(b: Seq<u8>, pos: int)
    requires
        0 <= pos <= b.len(),
    ensures
        pos <= zero_from(b, pos) <= b.len(),
        zero_from(b, pos) < b.len() ==> b[zero_from(b, pos)] == 0,
    decreases b.len() - pos,
{
    if pos < b.len() && b[pos] != 0 {
        lemma_zero_from(b, pos + 1);
    }
}

/// Every node takes at least one byte, and none lies beyond the bytes: a
/// node that is read ends after the place where it began, within the
/// bytes. So the reading of an object never stands still, and the
/// positions that it is given always lie within the bytes.
pub proof fn law_node_advances(
    b: Seq<u8>,
    pool: Seq<Seq<char>>,
    end: KV1BinaryNodeType,
    t: KV1BinaryNodeType,
    pos: int,
)
    requires
        0 <= pos <= b.len(),
    ensures
        node_at(b, pool, end, t, pos) matches Ok(read) ==> pos < read.1 <= b.len(),
        key_at(b, pool, pos) matches Ok(key) ==> pos < key.1 <= b.len(),
    decreases b.len() - pos, 0int,
{
    lemma_zero_from(b, pos);
    match key_at(b, pool, pos) {
        Ok((key, at)) => {
            lemma_zero_from(b, at);
            if t == KV1BinaryNodeType::ChildObject {
                law_nodes_advance(b, pool, end, at);
            }
        },
        Err(_) => {},
    }
}

/// An object that is read ends after the place where it began, within the
/// bytes.
pub proof fn law_nodes_advance(b: Seq<u8>, pool: Seq<Seq<char>>, end: KV1BinaryNodeType, pos: int)
    requires
        0 <= pos <= b.len(),
    ensures
        nodes_at(b, pool, end, pos) matches Ok(read) ==> pos < read.1 <= b.len(),
    decreases b.len() - pos, 1int,
{
    match node_type_at(b, pos) {
        Ok((t, after_type)) => {
            if t != end {
                law_node_advances(b, pool, end, t, after_type);
                match node_at(b, pool, end, t, after_type) {
                    Ok((node, next)) => {
                        law_nodes_advance(b, pool, end, next);
                    },
                    Err(_) => {},
                }
            }
        },
        Err(_) => {},
    }
}

/// The magic number of an object with a header.
pub const BINARY_MAGIC_HEADER: u32 = 0x564B4256;

/// Where the nodes of an object begin, and which marker ends them: an
/// object of eight bytes or more that begins with the magic number has a
/// header of eight bytes and ends with the alternate marker.
pub open spec fn header_at(b: Seq<u8>, pos: int) -> (int, KV1BinaryNodeType) {
    if 0 <= pos && pos + 8 <= b.len() && spec_u32_from_le_bytes(b.subrange(pos, pos + 4))
        == BINARY_MAGIC_HEADER {
        (pos + 8, KV1BinaryNodeType::AlternateEnd)
    } else {
        (pos, KV1BinaryNodeType::End)
    }
}

/// The object at `pos`, header and all.
pub open spec fn object_at(b: Seq<u8>, pool: Seq<Seq<char>>, pos: int) -> Result<
    (Seq<(Seq<char>, KVValueView)>, int),
    VdfError,
> {
    nodes_at(b, pool, header_at(b, pos).1, header_at(b, pos).0)
}

/// Reads the byte at `pos`.
fn take_u8(bytes: &Vec<u8>, pos: usize) -> (r: Result<(u8, usize), VdfError>)
    ensures
        match r {
            Ok(v) => u8_at(bytes@, pos as int) == Ok::<(u8, int), VdfError>((v.0, v.1 as int)),
            Err(e) => u8_at(bytes@, pos as int) == Err::<(u8, int), VdfError>(e),
        },
{
    if pos < bytes.len() {
        Ok((bytes[pos], pos + 1))
    } else {
        Err(VdfError::UnexpectedEof)
    }
}

/// Reads the number of four bytes at `pos`.
fn take_u32(bytes: &Vec<u8>, pos: usize) -> (r: Result<(u32, usize), VdfError>)
    ensures
        match r {
            Ok(v) => u32_at(bytes@, pos as int) == Ok::<(u32, int), VdfError>((v.0, v.1 as int)),
            Err(e) => u32_at(bytes@, pos as int) == Err::<(u32, int), VdfError>(e),
        },
{
    if pos <= bytes.len() && bytes.len() - pos >= 4 {
        let part = slice_subrange(bytes.as_slice(), pos, pos + 4);
        assert(part@.subrange(0, 4) =~= bytes@.subrange(pos as int, pos + 4));
        Ok((read_u32_le(part), pos + 4))
    } else {
        Err(VdfError::UnexpectedEof)
    }
}

/// Reads the number of eight bytes at `pos`.
fn take_u64(bytes: &Vec<u8>, pos: usize) -> (r: Result<(u64, usize), VdfError>)
    ensures
        match r {
            Ok(v) => u64_at(bytes@, pos as int) == Ok::<(u64, int), VdfError>((v.0, v.1 as int)),
            Err(e) => u64_at(bytes@, pos as int) == Err::<(u64, int), VdfError>(e),
        },
{
    if pos <= bytes.len() && bytes.len() - pos >= 8 {
        let part = slice_subrange(bytes.as_slice(), pos, pos + 8);
        assert(part@.subrange(0, 8) =~= bytes@.subrange(pos as int, pos + 8));
        Ok((read_u64_le(part), pos + 8))
    } else {
        Err(VdfError::UnexpectedEof)
    }
}

/// A copy of `bytes[from..to]`.
fn copy_bytes(bytes: &Vec<u8>, from: usize, to: usize) -> (r: Vec<u8>)
    requires
        from <= to <= bytes.len(),
    ensures
        r@ == bytes@.subrange(from as int, to as int),
{
    let mut r: Vec<u8> = Vec::new();
    let mut i: usize = from;
    while i < to
        invariant
            from <= i <= to <= bytes.len(),
            r@ == bytes@.subrange(from as int, i as int),
        decreases to - i,
    {
        r.push(bytes[i]);
        i = i + 1;
    }
    r
}

/// Reads the string at `pos` that ends with a zero byte.
fn take_text(bytes: &Vec<u8>, pos: usize) -> (r: Result<(String, usize), VdfError>)
    ensures
        match r {
            Ok(v) => text_at(bytes@, pos as int) == Ok::<(Seq<char>, int), VdfError>(
                (v.0@, v.1 as int),
            ) && pos < v.1 <= bytes.len(),
            Err(e) => text_at(bytes@, pos as int) == Err::<(Seq<char>, int), VdfError>(e),
        },
{
    let mut z: usize = pos;
    while z < bytes.len() && bytes[z] != 0
        invariant
            pos <= z,
            zero_from(bytes@, z as int) == zero_from(bytes@, pos as int),
        decreases bytes.len() - z,
    {
        z = z + 1;
    }
    if z >= bytes.len() {
        return Err(VdfError::UnexpectedEof);
    }
    match text_of_bytes(copy_bytes(bytes, pos, z)) {
        Some(text) => Ok((text, z + 1)),
        None => Err(VdfError::InvalidUtf8),
    }
}

/// The texts of a pool of strings.
pub open spec fn pool_view(pool: Seq<String>) -> Seq<Seq<char>> {
    pool.map_values(|s: String| s@)
}

/// Reads the key at `pos`.
fn take_key(bytes: &Vec<u8>, pool: &Vec<String>, pos: usize) -> (r: Result<
    (String, usize),
    VdfError,
>)
    ensures
        match r {
            Ok(v) => key_at(bytes@, pool_view(pool@), pos as int) == Ok::<
                (Seq<char>, int),
                VdfError,
            >((v.0@, v.1 as int)) && pos < v.1 <= bytes.len(),
            Err(e) => key_at(bytes@, pool_view(pool@), pos as int) == Err::<
                (Seq<char>, int),
                VdfError,
            >(e),
        },
{
    if pool.len() > 0 {
        match take_u32(bytes, pos) {
            Ok((index, next)) => {
                if (index as usize) < pool.len() {
                    Ok((pool[index as usize].clone(), next))
                } else {
                    Err(VdfError::StringIndexOutOfBounds)
                }
            },
            Err(e) => Err(e),
        }
    } else {
        take_text(bytes, pos)
    }
}

/// Reads the type of the node at `pos`.
fn take_node_type(bytes: &Vec<u8>, pos: usize) -> (r: Result<(KV1BinaryNodeType, usize), VdfError>)
    ensures
        match r {
            Ok(v) => node_type_at(bytes@, pos as int) == Ok::<(KV1BinaryNodeType, int), VdfError>(
                (v.0, v.1 as int),
            ) && v.1 == pos + 1 && v.1 <= bytes.len(),
            Err(e) => node_type_at(bytes@, pos as int) == Err::<(KV1BinaryNodeType, int), VdfError>(
                e,
            ),
        },
{
    match take_u8(bytes, pos) {
        Ok((byte, next)) => match KV1BinaryNodeType::try_from(byte) {
            Some(t) => Ok((t, next)),
            None => Err(VdfError::InvalidNodeType),
        },
        Err(e) => Err(e),
    }
}

/// The nodes that were read, and the nodes that follow.
pub open spec fn after_nodes(
    read: Seq<(Seq<char>, KVValueView)>,
    rest: Result<(Seq<(Seq<char>, KVValueView)>, int), VdfError>,
) -> Result<(Seq<(Seq<char>, KVValueView)>, int), VdfError> {
    match rest {
        Ok((nodes, after)) => Ok((read + nodes, after)),
        Err(e) => Err(e),
    }
}

proof fn lemma_nodes_view_push(nodes: Seq<(String, KVValue)>, key: String, value: KVValue)
    ensures
        nodes_view(nodes.push((key, value))) == nodes_view(nodes).push((key@, value_view(value))),
{
    assert(nodes_view(nodes.push((key, value))) =~= nodes_view(nodes).push(
        (key@, value_view(value)),
    ));
}

/// Reads the nodes of the object that begins at `pos`.
fn take_nodes(bytes: &Vec<u8>, pool: &Vec<String>, end: KV1BinaryNodeType, pos: usize) -> (r: Result<
    (Vec<(String, KVValue)>, usize),
    VdfError,
>)
    ensures
        match r {
            Ok(v) => nodes_at(bytes@, pool_view(pool@), end, pos as int) == Ok::<
                (Seq<(Seq<char>, KVValueView)>, int),
                VdfError,
            >((nodes_view(v.0@), v.1 as int)) && pos < v.1 <= bytes.len(),
            Err(e) => nodes_at(bytes@, pool_view(pool@), end, pos as int) == Err::<
                (Seq<(Seq<char>, KVValueView)>, int),
                VdfError,
            >(e),
        },
    decreases bytes.len() - pos, 1int,
{
    let mut nodes: Vec<(String, KVValue)> = Vec::new();
    let mut at: usize = pos;
    if pos > bytes.len() {
        return Err(VdfError::UnexpectedEof);
    }
    assert(nodes_view(nodes@) =~= Seq::<(Seq<char>, KVValueView)>::empty());
    assert(after_nodes(nodes_view(nodes@), nodes_at(bytes@, pool_view(pool@), end, at as int))
        == nodes_at(bytes@, pool_view(pool@), end, pos as int)) by {
        let rest = nodes_at(bytes@, pool_view(pool@), end, at as int);
        if rest is Ok {
            assert(nodes_view(nodes@) + rest->Ok_0.0 =~= rest->Ok_0.0);
        }
    }
    loop
        invariant
            pos <= at <= bytes.len(),
            after_nodes(nodes_view(nodes@), nodes_at(bytes@, pool_view(pool@), end, at as int))
                == nodes_at(bytes@, pool_view(pool@), end, pos as int),
        decreases bytes.len() - at,
    {
        let (t, after_type) = match take_node_type(bytes, at) {
            Ok(v) => v,
            Err(e) => {
                return Err(e);
            },
        };
        if t == end {
            assert(nodes_view(nodes@) + Seq::<(Seq<char>, KVValueView)>::empty() =~= nodes_view(
                nodes@,
            ));
            return Ok((nodes, after_type));
        }
        let ((key, value), next) = match take_node(bytes, pool, end, t, after_type) {
            Ok(v) => v,
            Err(e) => {
                return Err(e);
            },
        };
        proof {
            lemma_nodes_view_push(nodes@, key, value);
            let rest = nodes_at(bytes@, pool_view(pool@), end, next as int);
            if rest is Ok {
                assert(nodes_view(nodes@).push((key@, value_view(value))) + rest->Ok_0.0
                    =~= nodes_view(nodes@) + (seq![(key@, value_view(value))] + rest->Ok_0.0));
            }
        }
        nodes.push((key, value));
        at = next;
    }
}

/// Reads the node of type `t` whose key begins at `pos`.
fn take_node(
    bytes: &Vec<u8>,
    pool: &Vec<String>,
    end: KV1BinaryNodeType,
    t: KV1BinaryNodeType,
    pos: usize,
) -> (r: Result<((String, KVValue), usize), VdfError>)
    ensures
        match r {
            Ok(v) => node_at(bytes@, pool_view(pool@), end, t, pos as int) == Ok::<
                ((Seq<char>, KVValueView), int),
                VdfError,
            >(((v.0.0@, value_view(v.0.1)), v.1 as int)) && pos < v.1 <= bytes.len(),
            Err(e) => node_at(bytes@, pool_view(pool@), end, t, pos as int) == Err::<
                ((Seq<char>, KVValueView), int),
                VdfError,
            >(e),
        },
    decreases bytes.len() - pos, 0int,
{
    let (key, at) = match take_key(bytes, pool, pos) {
        Ok(v) => v,
        Err(e) => {
            return Err(e);
        },
    };
    match t {
        KV1BinaryNodeType::ChildObject => match take_nodes(bytes, pool, end, at) {
            Ok((nodes, next)) => Ok(((key, KVValue::Object(nodes)), next)),
            Err(e) => Err(e),
        },
        KV1BinaryNodeType::String => match take_text(bytes, at) {
            Ok((text, next)) => Ok(((key, KVValue::String(text)), next)),
            Err(e) => Err(e),
        },
        KV1BinaryNodeType::Int32 | KV1BinaryNodeType::Color | KV1BinaryNodeType::Pointer => match take_u32(
            bytes,
            at,
        ) {
            Ok((n, next)) => Ok(((key, KVValue::Int32(#[verifier::truncate] (n as i32))), next)),
            Err(e) => Err(e),
        },
        KV1BinaryNodeType::UInt64 => match take_u64(bytes, at) {
            Ok((n, next)) => Ok(((key, KVValue::UInt64(n)), next)),
            Err(e) => Err(e),
        },
        KV1BinaryNodeType::Float32 => match take_u32(bytes, at) {
            Ok((n, next)) => Ok(((key, KVValue::Float32(n)), next)),
            Err(e) => Err(e),
        },
        KV1BinaryNodeType::Int64 => match take_u64(bytes, at) {
            Ok((n, next)) => Ok(((key, KVValue::Int64(#[verifier::truncate] (n as i64))), next)),
            Err(e) => Err(e),
        },
        _ => Err(VdfError::UnsupportedNode),
    }
}

/// Reads the object at `pos`, header and all.
pub fn read_object_at(bytes: &Vec<u8>, pool: &Vec<String>, pos: usize) -> (r: Result<
    (Vec<(String, KVValue)>, usize),
    VdfError,
>)
    ensures
        match r {
            Ok(v) => object_at(bytes@, pool_view(pool@), pos as int) == Ok::<
                (Seq<(Seq<char>, KVValueView)>, int),
                VdfError,
            >((nodes_view(v.0@), v.1 as int)) && pos < v.1 <= bytes.len(),
            Err(e) => object_at(bytes@, pool_view(pool@), pos as int) == Err::<
                (Seq<(Seq<char>, KVValueView)>, int),
                VdfError,
            >(e),
        },
{
    let mut start = pos;
    let mut end = KV1BinaryNodeType::End;
    if pos <= bytes.len() && bytes.len() - pos >= 8 {
        match take_u32(bytes, pos) {
            Ok((magic, _)) => {
                if magic == BINARY_MAGIC_HEADER {
                    start = pos + 8;
                    end = KV1BinaryNodeType::AlternateEnd;
                }
            },
            Err(_) => {},
        }
    }
    take_nodes(bytes, pool, end, start)
}

/// What is known of one application.
#[derive(Debug)]
pub struct AppInfoEntry {
    pub app_id: u32,
    pub info_state: u32,
    pub last_updated: u32,
    pub token: u64,
    /// Twenty bytes.
    pub text_hash: Vec<u8>,
    pub change_number: u32,
    /// Twenty bytes.
    pub binary_hash: Vec<u8>,
    pub data: Vec<(String, KVValue)>,
}

/// What an `AppInfoEntry` holds.
pub struct AppInfoEntryView {
    pub app_id: u32,
    pub info_state: u32,
    pub last_updated: u32,
    pub token: u64,
    pub text_hash: Seq<u8>,
    pub change_number: u32,
    pub binary_hash: Seq<u8>,
    pub data: Seq<(Seq<char>, KVValueView)>,
}

impl View for AppInfoEntry {
    type V = AppInfoEntryView;

    open spec fn view(&self) -> AppInfoEntryView {
        AppInfoEntryView {
            app_id: self.app_id,
            info_state: self.info_state,
            last_updated: self.last_updated,
            token: self.token,
            text_hash: self.text_hash@,
            change_number: self.change_number,
            binary_hash: self.binary_hash@,
            data: nodes_view(self.data@),
        }
    }
}

/// The database of applications.
#[derive(Debug)]
pub struct AppInfoDatabase {
    pub universe: EUniverse,
    pub entries: Vec<AppInfoEntry>,
}

/// The views of a list of entries.
pub open spec fn entry_views(entries: Seq<AppInfoEntry>) -> Seq<AppInfoEntryView> {
    entries.map_values(|e: AppInfoEntry| e@)
}

/// The magic number with which a database begins.
pub const APPINFO_MAGIC: u32 = 123094057;

/// `count` strings read from `pos` on, each up to its zero byte. Where the
/// bytes end before that, the string ends with them, and the strings after
/// it are empty.
pub open spec fn strings_from(b: Seq<u8>, pos: int, count: nat) -> Result<Seq<Seq<char>>, VdfError>
    decreases count,
{
    if count == 0 {
        Ok(Seq::empty())
    } else {
        let from = if pos < 0 || pos > b.len() {
            b.len() as int
        } else {
            pos
        };
        let z = zero_from(b, from);
        let next = if z < b.len() {
            z + 1
        } else {
            z
        };
        if !valid_utf8(b.subrange(from, z)) {
            Err(VdfError::InvalidUtf8)
        } else {
            match strings_from(b, next, (count - 1) as nat) {
                Ok(rest) => Ok(seq![decode_utf8(b.subrange(from, z))] + rest),
                Err(e) => Err(e),
            }
        }
    }
}

/// The bytes `b[pos..pos + n]`, and the position after them.
pub open spec fn bytes_at(b: Seq<u8>, pos: int, n: int) -> Result<(Seq<u8>, int), VdfError> {
    if 0 <= pos && pos + n <= b.len() {
        Ok((b.subrange(pos, pos + n), pos + n))
    } else {
        Err(VdfError::UnexpectedEof)
    }
}

/// The entry with the id `app_id` whose size stands at `pos`, and the
/// position after it. The size counts the bytes after itself, from the low
/// 32 bits of the position.
pub open spec fn entry_at(b: Seq<u8>, pool: Seq<Seq<char>>, app_id: u32, pos: int) -> Result<
    (AppInfoEntryView, int),
    VdfError,
> {
    match u32_at(b, pos) {
        Err(e) => Err(e),
        Ok((size, at_state)) => match u32_at(b, at_state) {
            Err(e) => Err(e),
            Ok((info_state, at_updated)) => match u32_at(b, at_updated) {
                Err(e) => Err(e),
                Ok((last_updated, at_token)) => match u64_at(b, at_token) {
                    Err(e) => Err(e),
                    Ok((token, at_text_hash)) => match bytes_at(b, at_text_hash, 20) {
                        Err(e) => Err(e),
                        Ok((text_hash, at_change)) => match u32_at(b, at_change) {
                            Err(e) => Err(e),
                            Ok((change_number, at_binary_hash)) => match bytes_at(b, at_binary_hash, 20) {
                                Err(e) => Err(e),
                                Ok((binary_hash, at_data)) => match object_at(b, pool, at_data) {
                                    Err(e) => Err(e),
                                    Ok((data, at_end)) => if at_end == (at_state as u32) + size {
                                        Ok(
                                            (
                                                AppInfoEntryView {
                                                    app_id,
                                                    info_state,
                                                    last_updated,
                                                    token,
                                                    text_hash,
                                                    change_number,
                                                    binary_hash,
                                                    data,
                                                },
                                                at_end,
                                            ),
                                        )
                                    } else {
                                        Err(VdfError::SizeMismatch)
                                    },
                                },
                            },
                        },
                    },
                },
            },
        },
    }
}

/// The entries from `pos` on, up to the id 0 that ends them.
pub open spec fn entries_at(b: Seq<u8>, pool: Seq<Seq<char>>, pos: int) -> Result<
    Seq<AppInfoEntryView>,
    VdfError,
>
    decreases b.len() - pos,
{
    match u32_at(b, pos) {
        Err(e) => Err(e),
        Ok((app_id, p)) => if app_id == 0 {
            Ok(Seq::empty())
        } else {
            match entry_at(b, pool, app_id, p) {
                Err(e) => Err(e),
                Ok((entry, next)) => if next <= pos || next > b.len() {
                    Err(VdfError::UnexpectedEof)
                } else {
                    match entries_at(b, pool, next) {
                        Ok(rest) => Ok(seq![entry] + rest),
                        Err(e) => Err(e),
                    }
                },
            }
        },
    }
}

/// The pool of strings of a database: it stands at the offset that the
/// header names, a count followed by the strings.
pub open spec fn pool_of(b: Seq<u8>) -> Result<Seq<Seq<char>>, VdfError> {
    match u64_at(b, 8) {
        Err(e) => Err(e),
        Ok((offset, _)) => match u32_at(b, offset as int) {
            Err(e) => Err(e),
            Ok((count, at)) => strings_from(b, at, count as nat),
        },
    }
}

/// What the bytes of a database hold: after the magic number, the
/// universe and the offset of the pool of strings come the entries.
pub open spec fn database_of(b: Seq<u8>) -> Result<(EUniverse, Seq<AppInfoEntryView>), VdfError> {
    match u32_at(b, 0) {
        Err(e) => Err(e),
        Ok((magic, _)) => if magic != APPINFO_MAGIC {
            Err(VdfError::BadMagic)
        } else {
            match u32_at(b, 4) {
                Err(e) => Err(e),
                Ok((universe, _)) => match universe_of(universe) {
                    None => Err(VdfError::InvalidUniverse),
                    Some(u) => match pool_of(b) {
                        Err(e) => Err(e),
                        Ok(pool) => match entries_at(b, pool, 16) {
                            Ok(entries) => Ok((u, entries)),
                            Err(e) => Err(e),
                        },
                    },
                },
            }
        },
    }
}

/// Reads `n` bytes at `pos`.
fn take_bytes(bytes: &Vec<u8>, pos: usize, n: usize) -> (r: Result<(Vec<u8>, usize), VdfError>)
    ensures
        match r {
            Ok(v) => bytes_at(bytes@, pos as int, n as int) == Ok::<(Seq<u8>, int), VdfError>(
                (v.0@, v.1 as int),
            ),
            Err(e) => bytes_at(bytes@, pos as int, n as int) == Err::<(Seq<u8>, int), VdfError>(e),
        },
{
    if pos <= bytes.len() && bytes.len() - pos >= n {
        Ok((copy_bytes(bytes, pos, pos + n), pos + n))
    } else {
        Err(VdfError::UnexpectedEof)
    }
}

/// Reads the pool of strings.
fn take_strings(bytes: &Vec<u8>, pos: usize, count: u32) -> (r: Result<Vec<String>, VdfError>)
    ensures
        match r {
            Ok(pool) => strings_from(bytes@, pos as int, count as nat) == Ok::<
                Seq<Seq<char>>,
                VdfError,
            >(pool_view(pool@)),
            Err(e) => strings_from(bytes@, pos as int, count as nat) == Err::<
                Seq<Seq<char>>,
                VdfError,
            >(e),
        },
{
    let mut pool: Vec<String> = Vec::new();
    let mut at: usize = pos;
    let mut done: u32 = 0;
    assert(pool_view(pool@) =~= Seq::<Seq<char>>::empty());
    assert(prepend(pool_view(pool@), strings_from(bytes@, at as int, count as nat))
        == strings_from(bytes@, pos as int, count as nat)) by {
        let rest = strings_from(bytes@, at as int, count as nat);
        if rest is Ok {
            assert(pool_view(pool@) + rest->Ok_0 =~= rest->Ok_0);
        }
    }
    while done < count
        invariant
            done <= count,
            prepend(
                pool_view(pool@),
                strings_from(bytes@, at as int, (count - done) as nat),
            ) == strings_from(bytes@, pos as int, count as nat),
        decreases count - done,
    {
        let from = if at > bytes.len() {
            bytes.len()
        } else {
            at
        };
        let mut z: usize = from;
        while z < bytes.len() && bytes[z] != 0
            invariant
                from <= z <= bytes.len(),
                zero_from(bytes@, z as int) == zero_from(bytes@, from as int),
            decreases bytes.len() - z,
        {
            z = z + 1;
        }
        let next = if z < bytes.len() {
            z + 1
        } else {
            z
        };
        match text_of_bytes(copy_bytes(bytes, from, z)) {
            Some(text) => {
                proof {
                    let rest = strings_from(bytes@, next as int, (count - done - 1) as nat);
                    assert(pool_view(pool@.push(text)) =~= pool_view(pool@).push(text@));
                    if rest is Ok {
                        assert(pool_view(pool@).push(text@) + rest->Ok_0 =~= pool_view(pool@) + (
                        seq![text@] + rest->Ok_0));
                    }
                }
                pool.push(text);
            },
            None => {
                return Err(VdfError::InvalidUtf8);
            },
        }
        at = next;
        done = done + 1;
    }
    assert(pool_view(pool@) + Seq::<Seq<char>>::empty() =~= pool_view(pool@));
    Ok(pool)
}

/// The strings that were read, and the strings that follow.
pub open spec fn prepend(read: Seq<Seq<char>>, rest: Result<Seq<Seq<char>>, VdfError>) -> Result<
    Seq<Seq<char>>,
    VdfError,
> {
    match rest {
        Ok(strings) => Ok(read + strings),
        Err(e) => Err(e),
    }
}

/// The entries that were read, and the entries that follow.
pub open spec fn after_entries(
    read: Seq<AppInfoEntryView>,
    rest: Result<Seq<AppInfoEntryView>, VdfError>,
) -> Result<Seq<AppInfoEntryView>, VdfError> {
    match rest {
        Ok(entries) => Ok(read + entries),
        Err(e) => Err(e),
    }
}

/// Reads the entry with the id `app_id` whose size stands at `pos`.
fn take_entry(bytes: &Vec<u8>, pool: &Vec<String>, app_id: u32, pos: usize) -> (r: Result<
    (AppInfoEntry, usize),
    VdfError,
>)
    ensures
        match r {
            Ok(v) => entry_at(bytes@, pool_view(pool@), app_id, pos as int) == Ok::<
                (AppInfoEntryView, int),
                VdfError,
            >((v.0@, v.1 as int)) && pos < v.1 <= bytes.len(),
            Err(e) => entry_at(bytes@, pool_view(pool@), app_id, pos as int) == Err::<
                (AppInfoEntryView, int),
                VdfError,
            >(e),
        },
{
    let (size, at_state) = match take_u32(bytes, pos) {
        Ok(v) => v,
        Err(e) => {
            return Err(e);
        },
    };
    let (info_state, at_updated) = match take_u32(bytes, at_state) {
        Ok(v) => v,
        Err(e) => {
            return Err(e);
        },
    };
    let (last_updated, at_token) = match take_u32(bytes, at_updated) {
        Ok(v) => v,
        Err(e) => {
            return Err(e);
        },
    };
    let (token, at_text_hash) = match take_u64(bytes, at_token) {
        Ok(v) => v,
        Err(e) => {
            return Err(e);
        },
    };
    let (text_hash, at_change) = match take_bytes(bytes, at_text_hash, 20) {
        Ok(v) => v,
        Err(e) => {
            return Err(e);
        },
    };
    let (change_number, at_binary_hash) = match take_u32(bytes, at_change) {
        Ok(v) => v,
        Err(e) => {
            return Err(e);
        },
    };
    let (binary_hash, at_data) = match take_bytes(bytes, at_binary_hash, 20) {
        Ok(v) => v,
        Err(e) => {
            return Err(e);
        },
    };
    let (data, at_end) = match read_object_at(bytes, pool, at_data) {
        Ok(v) => v,
        Err(e) => {
            return Err(e);
        },
    };
    let low: u32 = #[verifier::truncate] (at_state as u32);
    let data_end: u64 = low as u64 + size as u64;
    if at_end as u64 != data_end {
        return Err(VdfError::SizeMismatch);
    }
    Ok(
        (
            AppInfoEntry {
                app_id,
                info_state,
                last_updated,
                token,
                text_hash,
                change_number,
                binary_hash,
                data,
            },
            at_end,
        ),
    )
}

impl AppInfoDatabase {
    /// Reads a database from its bytes.
    pub fn load_from(bytes: &Vec<u8>) -> (r: Result<AppInfoDatabase, VdfError>)
        ensures
            match r {
                Ok(db) => database_of(bytes@) == Ok::<(EUniverse, Seq<AppInfoEntryView>), VdfError>(
                    (db.universe, entry_views(db.entries@)),
                ),
                Err(e) => database_of(bytes@) == Err::<
                    (EUniverse, Seq<AppInfoEntryView>),
                    VdfError,
                >(e),
            },
    {
        let magic = match take_u32(bytes, 0) {
            Ok(v) => v.0,
            Err(e) => {
                return Err(e);
            },
        };
        if magic != APPINFO_MAGIC {
            return Err(VdfError::BadMagic);
        }
        let universe = match take_u32(bytes, 4) {
            Ok(v) => match EUniverse::try_from(v.0) {
                Some(u) => u,
                None => {
                    return Err(VdfError::InvalidUniverse);
                },
            },
            Err(e) => {
                return Err(e);
            },
        };
        let offset = match take_u64(bytes, 8) {
            Ok(v) => v.0,
            Err(e) => {
                return Err(e);
            },
        };
        if offset > bytes.len() as u64 {
            return Err(VdfError::UnexpectedEof);
        }
        let pool = match take_u32(bytes, offset as usize) {
            Ok((count, at)) => match take_strings(bytes, at, count) {
                Ok(pool) => pool,
                Err(e) => {
                    return Err(e);
                },
            },
            Err(e) => {
                return Err(e);
            },
        };
        let mut entries: Vec<AppInfoEntry> = Vec::new();
        let mut at: usize = 16;
        assert(entry_views(entries@) =~= Seq::<AppInfoEntryView>::empty());
        assert(after_entries(entry_views(entries@), entries_at(bytes@, pool_view(pool@), 16))
            == entries_at(bytes@, pool_view(pool@), 16)) by {
            let rest = entries_at(bytes@, pool_view(pool@), 16);
            if rest is Ok {
                assert(entry_views(entries@) + rest->Ok_0 =~= rest->Ok_0);
            }
        }
        loop
            invariant
                at <= bytes.len(),
                database_of(bytes@) == (match after_entries(
                    entry_views(entries@),
                    entries_at(bytes@, pool_view(pool@), at as int),
                ) {
                    Ok(all) => Ok::<(EUniverse, Seq<AppInfoEntryView>), VdfError>((universe, all)),
                    Err(e) => Err::<(EUniverse, Seq<AppInfoEntryView>), VdfError>(e),
                }),
            decreases bytes.len() - at,
        {
            let (app_id, p) = match take_u32(bytes, at) {
                Ok(v) => v,
                Err(e) => {
                    return Err(e);
                },
            };
            if app_id == 0 {
                assert(entry_views(entries@) + Seq::<AppInfoEntryView>::empty() =~= entry_views(
                    entries@,
                ));
                return Ok(AppInfoDatabase { universe, entries });
            }
            let (entry, next) = match take_entry(bytes, &pool, app_id, p) {
                Ok(v) => v,
                Err(e) => {
                    return Err(e);
                },
            };
            proof {
                let rest = entries_at(bytes@, pool_view(pool@), next as int);
                assert(entry_views(entries@.push(entry)) =~= entry_views(entries@).push(entry@));
                if rest is Ok {
                    assert(entry_views(entries@).push(entry@) + rest->Ok_0 =~= entry_views(
                        entries@,
                    ) + (seq![entry@] + rest->Ok_0));
                }
            }
            entries.push(entry);
            at = next;
        }
    }

    /// The first entry with the id `app_id`.
    pub fn app_by_id(&self, app_id: u32) -> (r: Option<&AppInfoEntry>)
        ensures
            match r {
                Some(e) => e.app_id == app_id && exists|i: int|
                    0 <= i < self.entries@.len() && self.entries@[i] == *e && forall|j: int|
                        0 <= j < i ==> self.entries@[j].app_id != app_id,
                None => forall|i: int| 0 <= i < self.entries@.len() ==> self.entries@[i].app_id
                    != app_id,
            },
    {
        let mut i: usize = 0;
        while i < self.entries.len()
            invariant
                i <= self.entries.len(),
                forall|j: int| 0 <= j < i ==> self.entries@[j].app_id != app_id,
            decreases self.entries.len() - i,
        {
            if self.entries[i].app_id == app_id {
                return Some(&self.entries[i]);
            }
            i = i + 1;
        }
        None
    }
}

/// The position of the last node with the key `key` among the first `n`
/// nodes, or -1.
pub open spec fn node_position(nodes: Seq<(String, KVValue)>, key: Seq<char>, n: int) -> int
    decreases n,
{
    if n <= 0 || n > nodes.len() {
        -1
    } else if nodes[n - 1].0@ == key {
        n - 1
    } else {
        node_position(nodes, key, n - 1)
    }
}

/// The value that an object gives to `key`: that of the last node with
/// that key.
pub open spec fn member(v: KVValue, key: Seq<char>) -> Option<KVValue> {
    match v {
        KVValue::Object(nodes) => if node_position(nodes@, key, nodes@.len() as int) >= 0 {
            Some(nodes@[node_position(nodes@, key, nodes@.len() as int)].1)
        } else {
            None
        },
        _ => None,
    }
}

/// The value reached from `v` by the keys `parts[i..]`, one object deeper
/// with each.
pub open spec fn descend(v: KVValue, parts: Seq<Seq<char>>, i: int) -> Option<KVValue>
    decreases parts.len() - i,
{
    if i < 0 || i >= parts.len() {
        Some(v)
    } else {
        match member(v, parts[i]) {
            Some(inner) => descend(inner, parts, i + 1),
            None => None,
        }
    }
}

/// The whole number that a value holds or writes.
pub open spec fn as_number(v: KVValue) -> Option<i32> {
    match v {
        KVValue::Int32(n) => Some(n),
        KVValue::String(s) => match between(signed_value(s@), i32::MIN as int, i32::MAX as int) {
            Some(n) => Some(n as i32),
            None => None,
        },
        _ => None,
    }
}

impl KVValue {
    /// The nodes of an object.
    pub fn as_object(&self) -> (r: Option<&Vec<(String, KVValue)>>)
        ensures
            match r {
                Some(nodes) => *self == KVValue::Object(*nodes),
                None => !(self is Object),
            },
    {
        match self {
            KVValue::Object(nodes) => Some(nodes),
            _ => None,
        }
    }

    /// The text of a string.
    pub fn as_string(&self) -> (r: Option<&String>)
        ensures
            match r {
                Some(s) => *self == KVValue::String(*s),
                None => !(self is String),
            },
    {
        match self {
            KVValue::String(s) => Some(s),
            _ => None,
        }
    }

    /// The number of a 32-bit integer.
    pub fn as_i32(&self) -> (r: Option<i32>)
        ensures
            match r {
                Some(n) => *self == KVValue::Int32(n),
                None => !(self is Int32),
            },
    {
        match self {
            KVValue::Int32(n) => Some(*n),
            _ => None,
        }
    }

    /// Whether the value is a string of which `f` holds.
    pub fn is_string_and<F: Fn(&str) -> bool>(&self, f: F) -> (r: bool)
        requires
            forall|s: &str| call_requires(f, (s,)),
        ensures
            match self {
                KVValue::String(s) => exists|t: &str| t@ == s@ && call_ensures(f, (t,), r),
                _ => !r,
            },
    {
        match self {
            KVValue::String(s) => f(s.as_str()),
            _ => false,
        }
    }

    /// Whether the value is a 32-bit integer of which `f` holds.
    pub fn is_i32_and<F: Fn(i32) -> bool>(&self, f: F) -> (r: bool)
        requires
            forall|n: i32| call_requires(f, (n,)),
        ensures
            match self {
                KVValue::Int32(n) => call_ensures(f, (*n,), r),
                _ => !r,
            },
    {
        match self {
            KVValue::Int32(n) => f(*n),
            _ => false,
        }
    }

    /// The whole number that the value holds, or writes as a string.
    pub fn parse_i32(&self) -> (r: Option<i32>)
        ensures
            r == as_number(*self),
    {
        match self {
            KVValue::Int32(n) => Some(*n),
            KVValue::String(s) => {
                let chars = chars_of(s.as_str());
                match parse_signed(&chars, -2147483648, 2147483647) {
                    Some(n) => Some(n as i32),
                    None => None,
                }
            },
            _ => None,
        }
    }

    /// Whether the value holds or writes a whole number of which `f` holds.
    pub fn parse_i32_and<F: Fn(i32) -> bool>(&self, f: F) -> (r: bool)
        requires
            forall|n: i32| call_requires(f, (n,)),
        ensures
            match as_number(*self) {
                Some(n) => call_ensures(f, (n,), r),
                None => !r,
            },
    {
        match self.parse_i32() {
            Some(n) => f(n),
            None => false,
        }
    }

    /// Whether the value is no value.
    pub fn is_none(&self) -> (r: bool)
        ensures
            r == (self is Empty),
    {
        match self {
            KVValue::Empty => true,
            _ => false,
        }
    }

    /// The value that the object gives to `key`.
    pub fn get(&self, key: &str) -> (r: Option<&KVValue>)
        ensures
            match r {
                Some(v) => member(*self, key@) == Some(*v),
                None => member(*self, key@).is_none(),
            },
    {
        match self {
            KVValue::Object(nodes) => find_node(nodes, key),
            _ => None,
        }
    }

    /// The value reached by a path of keys with `.` between them, each key
    /// one object deeper; `None` where the path leads nowhere.
    pub fn index(&self, path: &str) -> (r: Option<&KVValue>)
        ensures
            match r {
                Some(v) => descend(*self, split(path@, seq!['.']), 0) == Some(*v),
                None => descend(*self, split(path@, seq!['.']), 0).is_none(),
            },
    {
        let chars = chars_of(path);
        let mut dot: Vec<char> = Vec::new();
        dot.push('.');
        assert(dot@ =~= seq!['.']);
        let parts = split_exec(&chars, &dot);
        let mut value: &KVValue = self;
        let mut i: usize = 0;
        while i < parts.len()
            invariant
                i <= parts.len(),
                rows(parts@) == split(path@, seq!['.']),
                descend(*value, rows(parts@), i as int) == descend(*self, rows(parts@), 0),
            decreases parts.len() - i,
        {
            assert(rows(parts@)[i as int] == parts@[i as int]@);
            let key = crate::text::string_of(&parts[i]);
            match value.get(key.as_str()) {
                Some(inner) => {
                    value = inner;
                },
                None => {
                    return None;
                },
            }
            i = i + 1;
        }
        Some(value)
    }
}

/// The value of the last node with the key `key`.
pub fn find_node<'a>(nodes: &'a Vec<(String, KVValue)>, key: &str) -> (r: Option<&'a KVValue>)
    ensures
        match r {
            Some(v) => node_position(nodes@, key@, nodes@.len() as int) >= 0 && *v
                == nodes@[node_position(nodes@, key@, nodes@.len() as int)].1,
            None => node_position(nodes@, key@, nodes@.len() as int) < 0,
        },
{
    let mut i: usize = nodes.len();
    while i > 0
        invariant
            i <= nodes.len(),
            node_position(nodes@, key@, i as int) == node_position(
                nodes@,
                key@,
                nodes@.len() as int,
            ),
        decreases i,
    {
        i = i - 1;
        if str_equal(nodes[i].0.as_str(), key) {
            return Some(&nodes[i].1);
        }
    }
    None
}

/// A reader of objects: the bytes, the position in them, the pool of
/// strings, and the marker that ends the object being read.
pub struct KV1BinaryDeserializer<'a> {
    bytes: &'a Vec<u8>,
    position: usize,
    string_pool: &'a Vec<String>,
    end_marker: KV1BinaryNodeType,
}

impl<'a> KV1BinaryDeserializer<'a> {
    /// The bytes that are read.
    pub closed spec fn bytes(&self) -> Seq<u8> {
        self.bytes@
    }

    /// The position of the next byte.
    pub closed spec fn position(&self) -> int {
        self.position as int
    }

    /// The pool of strings.
    pub closed spec fn pool(&self) -> Seq<Seq<char>> {
        pool_view(self.string_pool@)
    }

    /// A reader of `bytes` from `position` on.
    pub fn new(bytes: &'a Vec<u8>, position: usize, string_pool: &'a Vec<String>) -> (d: Self)
        ensures
            d.bytes() == bytes@,
            d.position() == position,
            d.pool() == pool_view(string_pool@),
    {
        KV1BinaryDeserializer { bytes, position, string_pool, end_marker: KV1BinaryNodeType::End }
    }

    /// The position of the next byte.
    pub fn current_position(&self) -> (p: usize)
        ensures
            p == self.position(),
    {
        self.position
    }

    /// Reads a string that ends with a zero byte. The position stays where
    /// it is on an error.
    pub fn read_null_terminated_utf8_string(&mut self) -> (r: Result<String, VdfError>)
        ensures
            final(self).bytes() == old(self).bytes(),
            final(self).pool() == old(self).pool(),
            match r {
                Ok(s) => text_at(old(self).bytes(), old(self).position()) == Ok::<
                    (Seq<char>, int),
                    VdfError,
                >((s@, final(self).position())),
                Err(e) => text_at(old(self).bytes(), old(self).position()) == Err::<
                    (Seq<char>, int),
                    VdfError,
                >(e) && final(self).position() == old(self).position(),
            },
    {
        match take_text(self.bytes, self.position) {
            Ok((text, next)) => {
                self.position = next;
                Ok(text)
            },
            Err(e) => Err(e),
        }
    }

    /// Reads the type of the next node. The position stays where it is on
    /// an error.
    pub fn read_next_node_type(&mut self) -> (r: Result<KV1BinaryNodeType, VdfError>)
        ensures
            final(self).bytes() == old(self).bytes(),
            final(self).pool() == old(self).pool(),
            match r {
                Ok(t) => node_type_at(old(self).bytes(), old(self).position()) == Ok::<
                    (KV1BinaryNodeType, int),
                    VdfError,
                >((t, final(self).position())),
                Err(e) => node_type_at(old(self).bytes(), old(self).position()) == Err::<
                    (KV1BinaryNodeType, int),
                    VdfError,
                >(e) && final(self).position() == old(self).position(),
            },
    {
        match take_node_type(self.bytes, self.position) {
            Ok((t, next)) => {
                self.position = next;
                Ok(t)
            },
            Err(e) => Err(e),
        }
    }

    /// Reads an object, header and all. The position stays where it is on
    /// an error.
    pub fn read_object(&mut self) -> (r: Result<Vec<(String, KVValue)>, VdfError>)
        ensures
            final(self).bytes() == old(self).bytes(),
            final(self).pool() == old(self).pool(),
            match r {
                Ok(nodes) => object_at(old(self).bytes(), old(self).pool(), old(self).position())
                    == Ok::<(Seq<(Seq<char>, KVValueView)>, int), VdfError>(
                    (nodes_view(nodes@), final(self).position()),
                ),
                Err(e) => object_at(old(self).bytes(), old(self).pool(), old(self).position())
                    == Err::<(Seq<(Seq<char>, KVValueView)>, int), VdfError>(e)
                    && final(self).position() == old(self).position(),
            },
    {
        match read_object_at(self.bytes, self.string_pool, self.position) {
            Ok((nodes, next)) => {
                self.position = next;
                Ok(nodes)
            },
            Err(e) => Err(e),
        }
    }
}

impl AppInfoEntry {
    /// Reads the data of the entry from `bytes` at `position`, and returns
    /// the position after it.
    pub fn deserialize_kv_data(
        &mut self,
        bytes: &Vec<u8>,
        position: usize,
        string_pool: &Vec<String>,
    ) -> (r: Result<usize, VdfError>)
        ensures
            match r {
                Ok(next) => object_at(bytes@, pool_view(string_pool@), position as int) == Ok::<
                    (Seq<(Seq<char>, KVValueView)>, int),
                    VdfError,
                >((final(self)@.data, next as int)) && final(self)@ == (AppInfoEntryView {
                    data: final(self)@.data,
                    ..old(self)@
                }),
                Err(e) => object_at(bytes@, pool_view(string_pool@), position as int) == Err::<
                    (Seq<(Seq<char>, KVValueView)>, int),
                    VdfError,
                >(e) && final(self)@ == old(self)@,
            },
    {
        let mut reader = KV1BinaryDeserializer::new(bytes, position, string_pool);
        match reader.read_object() {
            Ok(nodes) => {
                self.data = nodes;
                Ok(reader.current_position())
            },
            Err(e) => Err(e),
        }
    }
}

} // verus!
