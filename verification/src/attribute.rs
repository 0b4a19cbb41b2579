//! Attributes of geometry: per-element data that is read and written as one
//! flat buffer of `tuple_size * count` values. The storage type of an
//! attribute decides which native call moves the buffer; here it is the tag
//! of the buffer.

use crate::array::{check_sizes, size_mismatch, sizes_fit, DataArray, StringMultiArray};
use crate::errors::{classify, translate, ErrorModel, HapiError, HapiResult, Kind};
use crate::marshal::{capacity, capacity_of, room, F32Bits, F64Bits};
use crate::node::{HoudiniNode, NodeHandle};
use crate::parameter::non_negative;
use crate::session::NativeSession;
use crate::text::{has_nul, text_of, NativeString};
use vstd::prelude::*;
use vstd::slice::{slice_subrange, slice_to_vec};
use vstd::utf8::encode_utf8;

verus! {

/// How the values of an attribute are stored.
#[derive(Debug, Clone, Copy, PartialEq, Eq, Structural)]
pub enum StorageType {
    Invalid,
    Int,
    Int64,
    Float,
    Float64,
    String,
    Uint8,
    Int8,
    Int16,
    Array,
    Int64Array,
    FloatArray,
    Float64Array,
    StringArray,
    Uint8Array,
    Int8Array,
    Int16Array,
}

/// What an attribute belongs to.
#[derive(Debug, Clone, Copy, PartialEq, Eq, Structural)]
pub enum AttributeOwner {
    Invalid,
    Vertex,
    Point,
    Prim,
    Detail,
    Max,
}

/// The metadata of an attribute. `tuple_size * count` bounds every buffer
/// that is read or written for it.
#[derive(Debug, Clone, Copy, PartialEq, Eq, Structural)]
pub struct AttributeInfo {
    pub exists: bool,
    pub owner: AttributeOwner,
    pub storage: StorageType,
    pub original_owner: AttributeOwner,
    /// The number of elements.
    pub count: i32,
    /// The number of values of one element.
    pub tuple_size: i32,
    /// For an array attribute, the number of values of all elements.
    pub total_array_elements: i64,
}

impl Default for AttributeInfo {
    fn default() -> (info: AttributeInfo)
        ensures
            info == (AttributeInfo {
                exists: false,
                owner: AttributeOwner::Invalid,
                storage: StorageType::Invalid,
                original_owner: AttributeOwner::Invalid,
                count: 0,
                tuple_size: 0,
                total_array_elements: 0,
            }),
    {
        AttributeInfo {
            exists: false,
            owner: AttributeOwner::Invalid,
            storage: StorageType::Invalid,
            original_owner: AttributeOwner::Invalid,
            count: 0,
            tuple_size: 0,
            total_array_elements: 0,
        }
    }
}

impl AttributeInfo {
    pub fn count(&self) -> (n: i32)
        ensures
            n == self.count,
    {
        self.count
    }

    pub fn tuple_size(&self) -> (n: i32)
        ensures
            n == self.tuple_size,
    {
        self.tuple_size
    }

    pub fn storage(&self) -> (s: StorageType)
        ensures
            s == self.storage,
    {
        self.storage
    }

    pub fn owner(&self) -> (o: AttributeOwner)
        ensures
            o == self.owner,
    {
        self.owner
    }

    pub fn with_count(self, count: i32) -> (info: AttributeInfo)
        ensures
            info == (AttributeInfo { count, ..self }),
    {
        AttributeInfo { count, ..self }
    }

    pub fn with_tuple_size(self, tuple_size: i32) -> (info: AttributeInfo)
        ensures
            info == (AttributeInfo { tuple_size, ..self }),
    {
        AttributeInfo { tuple_size, ..self }
    }

    pub fn with_owner(self, owner: AttributeOwner) -> (info: AttributeInfo)
        ensures
            info == (AttributeInfo { owner, ..self }),
    {
        AttributeInfo { owner, ..self }
    }

    pub fn with_storage(self, storage: StorageType) -> (info: AttributeInfo)
        ensures
            info == (AttributeInfo { storage, ..self }),
    {
        AttributeInfo { storage, ..self }
    }

    /// The number of values in a buffer for this attribute, or `None` where
    /// it exceeds the engine's 32-bit lengths.
    pub fn capacity(&self) -> (n: Option<usize>)
        ensures
            n is Some <==> capacity_of(self.tuple_size as int, self.count as int) <= i32::MAX,
            n matches Some(c) ==> c == capacity_of(self.tuple_size as int, self.count as int),
    {
        capacity(self.tuple_size, self.count)
    }
}

/// A flat buffer of primitive values, tagged with their storage type.
/// Floats are held as their bit patterns.
#[derive(Debug)]
pub enum Buffer {
    Int8(Vec<i8>),
    Uint8(Vec<u8>),
    Int16(Vec<i16>),
    Int(Vec<i32>),
    Int64(Vec<i64>),
    Float(Vec<F32Bits>),
    Float64(Vec<F64Bits>),
}

impl Buffer {
    /// The storage type of the values.
    pub open spec fn storage(self) -> StorageType {
        match self {
            Buffer::Int8(_) => StorageType::Int8,
            Buffer::Uint8(_) => StorageType::Uint8,
            Buffer::Int16(_) => StorageType::Int16,
            Buffer::Int(_) => StorageType::Int,
            Buffer::Int64(_) => StorageType::Int64,
            Buffer::Float(_) => StorageType::Float,
            Buffer::Float64(_) => StorageType::Float64,
        }
    }

    /// The number of values.
    pub open spec fn len(self) -> nat {
        match self {
            Buffer::Int8(v) => v@.len(),
            Buffer::Uint8(v) => v@.len(),
            Buffer::Int16(v) => v@.len(),
            Buffer::Int(v) => v@.len(),
            Buffer::Int64(v) => v@.len(),
            Buffer::Float(v) => v@.len(),
            Buffer::Float64(v) => v@.len(),
        }
    }

    pub fn storage_type(&self) -> (s: StorageType)
        ensures
            s == self.storage(),
    {
        match self {
            Buffer::Int8(_) => StorageType::Int8,
            Buffer::Uint8(_) => StorageType::Uint8,
            Buffer::Int16(_) => StorageType::Int16,
            Buffer::Int(_) => StorageType::Int,
            Buffer::Int64(_) => StorageType::Int64,
            Buffer::Float(_) => StorageType::Float,
            Buffer::Float64(_) => StorageType::Float64,
        }
    }

    pub fn length(&self) -> (n: usize)
        ensures
            n == self.len(),
    {
        match self {
            Buffer::Int8(v) => v.len(),
            Buffer::Uint8(v) => v.len(),
            Buffer::Int16(v) => v.len(),
            Buffer::Int(v) => v.len(),
            Buffer::Int64(v) => v.len(),
            Buffer::Float(v) => v.len(),
            Buffer::Float64(v) => v.len(),
        }
    }
}

/// The array form of a storage type.
pub open spec fn array_of(storage: StorageType) -> StorageType {
    match storage {
        StorageType::Int => StorageType::Array,
        StorageType::Int64 => StorageType::Int64Array,
        StorageType::Float => StorageType::FloatArray,
        StorageType::Float64 => StorageType::Float64Array,
        StorageType::String => StorageType::StringArray,
        StorageType::Uint8 => StorageType::Uint8Array,
        StorageType::Int8 => StorageType::Int8Array,
        StorageType::Int16 => StorageType::Int16Array,
        other => other,
    }
}

/// The array form of a storage type.
pub fn array_storage(storage: StorageType) -> (s: StorageType)
    ensures
        s == array_of(storage),
{
    match storage {
        StorageType::Int => StorageType::Array,
        StorageType::Int64 => StorageType::Int64Array,
        StorageType::Float => StorageType::FloatArray,
        StorageType::Float64 => StorageType::Float64Array,
        StorageType::String => StorageType::StringArray,
        StorageType::Uint8 => StorageType::Uint8Array,
        StorageType::Int8 => StorageType::Int8Array,
        StorageType::Int16 => StorageType::Int16Array,
        other => other,
    }
}

/// A primitive type that an attribute can hold: it knows its storage type,
/// and how its values go into a tagged buffer and come out of one.
pub trait AttribType: Copy {
    /// The storage type of values of this type.
    spec fn storage_tag() -> StorageType;

    /// The values of a buffer, where the buffer holds values of this type.
    spec fn unpacked(buffer: Buffer) -> Option<Seq<Self>>;

    fn storage() -> (s: StorageType)
        ensures
            s == Self::storage_tag(),
    ;

    /// Tags the values with their storage type.
    fn pack(values: Vec<Self>) -> (buffer: Buffer)
        ensures
            Self::unpacked(buffer) == Some(values@),
            buffer.storage() == Self::storage_tag(),
            buffer.len() == values@.len(),
    ;

    /// The values of a buffer, or `None` where the buffer holds values of
    /// another type.
    fn unpack(buffer: Buffer) -> (values: Option<Vec<Self>>)
        ensures
            match values {
                Some(v) => Self::unpacked(buffer) == Some(v@) && buffer.len() == v@.len(),
                None => Self::unpacked(buffer) is None,
            },
    ;
}

impl AttribType for i8 {
    open spec fn storage_tag() -> StorageType {
        StorageType::Int8
    }

    open spec fn unpacked(buffer: Buffer) -> Option<Seq<i8>> {
        match buffer {
            Buffer::Int8(v) => Some(v@),
            _ => None,
        }
    }

    fn storage() -> (s: StorageType) {
        StorageType::Int8
    }

    fn pack(values: Vec<i8>) -> (buffer: Buffer) {
        Buffer::Int8(values)
    }

    fn unpack(buffer: Buffer) -> (values: Option<Vec<i8>>) {
        match buffer {
            Buffer::Int8(v) => Some(v),
            _ => None,
        }
    }
}

impl AttribType for u8 {
    open spec fn storage_tag() -> StorageType {
        StorageType::Uint8
    }

    open spec fn unpacked(buffer: Buffer) -> Option<Seq<u8>> {
        match buffer {
            Buffer::Uint8(v) => Some(v@),
            _ => None,
        }
    }

    fn storage() -> (s: StorageType) {
        StorageType::Uint8
    }

    fn pack(values: Vec<u8>) -> (buffer: Buffer) {
        Buffer::Uint8(values)
    }

    fn unpack(buffer: Buffer) -> (values: Option<Vec<u8>>) {
        match buffer {
            Buffer::Uint8(v) => Some(v),
            _ => None,
        }
    }
}

impl AttribType for i16 {
    open spec fn storage_tag() -> StorageType {
        StorageType::Int16
    }

    open spec fn unpacked(buffer: Buffer) -> Option<Seq<i16>> {
        match buffer {
            Buffer::Int16(v) => Some(v@),
            _ => None,
        }
    }

    fn storage() -> (s: StorageType) {
        StorageType::Int16
    }

    fn pack(values: Vec<i16>) -> (buffer: Buffer) {
        Buffer::Int16(values)
    }

    fn unpack(buffer: Buffer) -> (values: Option<Vec<i16>>) {
        match buffer {
            Buffer::Int16(v) => Some(v),
            _ => None,
        }
    }
}

impl AttribType for i32 {
    open spec fn storage_tag() -> StorageType {
        StorageType::Int
    }

    open spec fn unpacked(buffer: Buffer) -> Option<Seq<i32>> {
        match buffer {
            Buffer::Int(v) => Some(v@),
            _ => None,
        }
    }

    fn storage() -> (s: StorageType) {
        StorageType::Int
    }

    fn pack(values: Vec<i32>) -> (buffer: Buffer) {
        Buffer::Int(values)
    }

    fn unpack(buffer: Buffer) -> (values: Option<Vec<i32>>) {
        match buffer {
            Buffer::Int(v) => Some(v),
            _ => None,
        }
    }
}

impl AttribType for i64 {
    open spec fn storage_tag() -> StorageType {
        StorageType::Int64
    }

    open spec fn unpacked(buffer: Buffer) -> Option<Seq<i64>> {
        match buffer {
            Buffer::Int64(v) => Some(v@),
            _ => None,
        }
    }

    fn storage() -> (s: StorageType) {
        StorageType::Int64
    }

    fn pack(values: Vec<i64>) -> (buffer: Buffer) {
        Buffer::Int64(values)
    }

    fn unpack(buffer: Buffer) -> (values: Option<Vec<i64>>) {
        match buffer {
            Buffer::Int64(v) => Some(v),
            _ => None,
        }
    }
}

impl AttribType for F32Bits {
    open spec fn storage_tag() -> StorageType {
        StorageType::Float
    }

    open spec fn unpacked(buffer: Buffer) -> Option<Seq<F32Bits>> {
        match buffer {
            Buffer::Float(v) => Some(v@),
            _ => None,
        }
    }

    fn storage() -> (s: StorageType) {
        StorageType::Float
    }

    fn pack(values: Vec<F32Bits>) -> (buffer: Buffer) {
        Buffer::Float(values)
    }

    fn unpack(buffer: Buffer) -> (values: Option<Vec<F32Bits>>) {
        match buffer {
            Buffer::Float(v) => Some(v),
            _ => None,
        }
    }
}

impl AttribType for F64Bits {
    open spec fn storage_tag() -> StorageType {
        StorageType::Float64
    }

    open spec fn unpacked(buffer: Buffer) -> Option<Seq<F64Bits>> {
        match buffer {
            Buffer::Float64(v) => Some(v@),
            _ => None,
        }
    }

    fn storage() -> (s: StorageType) {
        StorageType::Float64
    }

    fn pack(values: Vec<F64Bits>) -> (buffer: Buffer) {
        Buffer::Float64(values)
    }

    fn unpack(buffer: Buffer) -> (values: Option<Vec<F64Bits>>) {
        match buffer {
            Buffer::Float64(v) => Some(v),
            _ => None,
        }
    }
}

/// A native call about attributes. `start` and `length` count elements;
/// the buffers hold `tuple_size` values for each.
#[derive(Debug)]
#[allow(inconsistent_fields)]
pub enum AttributeCall {
    GetAttributeInfo {
        session: NativeSession,
        node: NodeHandle,
        part_id: i32,
        name: NativeString,
        owner: AttributeOwner,
    },
    AddAttribute {
        session: NativeSession,
        node: NodeHandle,
        part_id: i32,
        name: NativeString,
        info: AttributeInfo,
    },
    /// Reads `length` elements into a buffer of `buffer_len` values of the
    /// given storage type.
    GetData {
        session: NativeSession,
        node: NodeHandle,
        part_id: i32,
        name: NativeString,
        info: AttributeInfo,
        storage: StorageType,
        stride: i32,
        start: i32,
        length: i32,
        buffer_len: usize,
    },
    /// Writes `length` elements from the buffer.
    SetData {
        session: NativeSession,
        node: NodeHandle,
        part_id: i32,
        name: NativeString,
        info: AttributeInfo,
        data: Buffer,
        start: i32,
        length: i32,
    },
    /// Reads an array attribute into a buffer of `data_len` values and one
    /// of `sizes_len` sizes.
    GetArrayData {
        session: NativeSession,
        node: NodeHandle,
        part_id: i32,
        name: NativeString,
        info: AttributeInfo,
        storage: StorageType,
        data_len: usize,
        sizes_len: usize,
    },
    SetArrayData {
        session: NativeSession,
        node: NodeHandle,
        part_id: i32,
        name: NativeString,
        info: AttributeInfo,
        data: Buffer,
        sizes: Vec<i32>,
    },
    /// Reads the string handles of `length` elements into a buffer of
    /// `buffer_len` handles.
    GetStringData {
        session: NativeSession,
        node: NodeHandle,
        part_id: i32,
        name: NativeString,
        info: AttributeInfo,
        start: i32,
        length: i32,
        buffer_len: usize,
    },
    SetStringData {
        session: NativeSession,
        node: NodeHandle,
        part_id: i32,
        name: NativeString,
        info: AttributeInfo,
        values: Vec<NativeString>,
        start: i32,
        length: i32,
    },
    GetStringArrayData {
        session: NativeSession,
        node: NodeHandle,
        part_id: i32,
        name: NativeString,
        info: AttributeInfo,
        data_len: usize,
        sizes_len: usize,
    },
    SetStringArrayData {
        session: NativeSession,
        node: NodeHandle,
        part_id: i32,
        name: NativeString,
        info: AttributeInfo,
        values: Vec<NativeString>,
        sizes: Vec<i32>,
    },
}

/// A write: the call, and the number of values that were dropped because
/// they did not fit the attribute. Whoever makes the call reports them.
#[derive(Debug)]
pub struct AttributeWrite {
    pub call: AttributeCall,
    pub dropped: usize,
}

/// The number of whole elements among `len` values that an attribute of
/// `count` elements of `tuple_size` values takes.
pub open spec fn whole_tuples(len: nat, tuple_size: int, count: int) -> nat {
    if tuple_size <= 0 || count <= 0 {
        0
    } else if len / (tuple_size as nat) <= count {
        len / (tuple_size as nat)
    } else {
        count as nat
    }
}

/// The values that are written of those given: whole elements, as many as
/// the attribute has room for, from the front.
pub open spec fn written<T>(values: Seq<T>, tuple_size: int, count: int) -> Seq<T> {
    values.take(whole_tuples(values.len(), tuple_size, count) * tuple_size)
}

/// What is written lies within what was given and within the attribute's
/// capacity; and where the values are exactly as many as the capacity, all
/// of them are written.
pub proof fn lemma_written_bounds(len: nat, tuple_size: int, count: int)
    ensures
        0 <= whole_tuples(len, tuple_size, count) * tuple_size <= len,
        whole_tuples(len, tuple_size, count) * tuple_size <= capacity_of(tuple_size, count),
        whole_tuples(len, tuple_size, count) <= room(count),
        len == capacity_of(tuple_size, count) ==> whole_tuples(len, tuple_size, count) * tuple_size
            == len,
        len > capacity_of(tuple_size, count) ==> whole_tuples(len, tuple_size, count) * tuple_size
            < len,
{
    let n = whole_tuples(len, tuple_size, count);
    if tuple_size <= 0 || count <= 0 {
        assert(n * tuple_size == 0) by (nonlinear_arith)
            requires
                n == 0,
        ;
        assert(capacity_of(tuple_size, count) == 0) by (nonlinear_arith)
            requires
                capacity_of(tuple_size, count) == room(tuple_size) * room(count),
                room(tuple_size) == 0 || room(count) == 0,
        ;
    } else {
        let t = tuple_size as nat;
        let q = len / t;
        assert(q * t <= len && len < (q + 1) * t) by (nonlinear_arith)
            requires
                q == len / t,
                t > 0,
        ;
        assert(capacity_of(tuple_size, count) == t * count);
        if q <= count {
            assert(q * t <= count * t) by (nonlinear_arith)
                requires
                    q <= count,
                    t > 0,
            ;
            assert(n * tuple_size == q * t);
            assert(t * count == count * t) by (nonlinear_arith);
            if len == t * count {
                assert(q == count) by (nonlinear_arith)
                    requires
                        len == t * count,
                        q * t <= len,
                        len < (q + 1) * t,
                        t > 0,
                ;
            }
        } else {
            assert(count * t <= q * t) by (nonlinear_arith)
                requires
                    count <= q,
                    t > 0,
            ;
            assert(n * tuple_size == count * t);
            assert(t * count == count * t) by (nonlinear_arith);
            assert((count + 1) * t <= q * t) by (nonlinear_arith)
                requires
                    count + 1 <= q,
                    t > 0,
            ;
            assert((count + 1) * t == count * t + t) by (nonlinear_arith);
        }
    }
}

/// Cuts values to whole elements within the attribute's room. Returns the
/// values to write and the number of elements they make.
fn cut<T: Copy>(values: &[T], info: &AttributeInfo) -> (r: (Vec<T>, i32))
    ensures
        r.0@ == written(values@, info.tuple_size as int, info.count as int),
        r.1 == whole_tuples(values@.len(), info.tuple_size as int, info.count as int),
        r.0@.len() <= capacity_of(info.tuple_size as int, info.count as int),
{
    proof {
        lemma_written_bounds(values@.len(), info.tuple_size as int, info.count as int);
    }
    let (length, keep) = cut_point(values.len(), info);
    let kept = slice_subrange(values, 0, keep);
    proof {
        assert(kept@ =~= values@.take(keep as int));
    }
    (slice_to_vec(kept), length)
}

/// Where a write of `len` values is cut: the number of whole elements that
/// the attribute takes, and the number of values they make.
fn cut_point(len: usize, info: &AttributeInfo) -> (r: (i32, usize))
    ensures
        r.0 == whole_tuples(len as nat, info.tuple_size as int, info.count as int),
        r.1 == whole_tuples(len as nat, info.tuple_size as int, info.count as int)
            * info.tuple_size,
        r.1 <= len,
{
    proof {
        lemma_written_bounds(len as nat, info.tuple_size as int, info.count as int);
    }
    if info.tuple_size <= 0 || info.count <= 0 {
        assert(0 * info.tuple_size == 0) by (nonlinear_arith);
        return (0, 0);
    }
    let t = info.tuple_size as usize;
    let c = info.count as usize;
    let q = len / t;
    let n = if q <= c {
        q
    } else {
        c
    };
    assert(n == whole_tuples(len as nat, info.tuple_size as int, info.count as int));
    assert(n * t == n * info.tuple_size);
    assert(n * t <= len);
    (n as i32, n * t)
}

/// A numeric attribute with one tuple of values per element.
#[derive(Debug)]
pub struct NumericAttr<T: AttribType> {
    pub info: AttributeInfo,
    pub name: NativeString,
    pub node: HoudiniNode,
    pub marker: core::marker::PhantomData<T>,
}

/// A numeric attribute whose elements each have their own number of values.
#[derive(Debug)]
pub struct NumericArrayAttr<T: AttribType> {
    pub info: AttributeInfo,
    pub name: NativeString,
    pub node: HoudiniNode,
    pub marker: core::marker::PhantomData<T>,
}

/// A string attribute with one tuple of strings per element.
#[derive(Debug)]
pub struct StringAttr {
    pub info: AttributeInfo,
    pub name: NativeString,
    pub node: HoudiniNode,
}

/// A string attribute whose elements each have their own number of strings.
#[derive(Debug)]
pub struct StringArrayAttr {
    pub info: AttributeInfo,
    pub name: NativeString,
    pub node: HoudiniNode,
}

/// The error for an attribute whose buffer would exceed the engine's
/// 32-bit lengths.
pub fn too_large() -> (e: HapiError)
    ensures
        e@ == (ErrorModel {
            kind: Kind::Hapi(HapiResult::InvalidArgument),
            message: Some("Attribute is larger than the engine can address"@),
            session: None,
        }),
{
    HapiError::local(HapiResult::InvalidArgument, "Attribute is larger than the engine can address")
}

/// The error for a buffer that holds another storage type than the attribute.
pub fn wrong_storage() -> (e: HapiError)
    ensures
        e@ == (ErrorModel {
            kind: Kind::Hapi(HapiResult::InvalidArgument),
            message: Some("Buffer holds another storage type"@),
            session: None,
        }),
{
    HapiError::local(HapiResult::InvalidArgument, "Buffer holds another storage type")
}

/// The error for a buffer whose length is not `tuple_size * count`.
pub fn wrong_length() -> (e: HapiError)
    ensures
        e@ == (ErrorModel {
            kind: Kind::Hapi(HapiResult::InvalidArgument),
            message: Some("Buffer length differs from tuple size times count"@),
            session: None,
        }),
{
    HapiError::local(HapiResult::InvalidArgument, "Buffer length differs from tuple size times count")
}

/// What reading a numeric attribute yields for an answer of the engine: the
/// engine's error; else the values of the buffer, provided that the buffer
/// holds the attribute's type and exactly `tuple_size * count` values, which
/// the engine's 32-bit lengths can count.
pub open spec fn read_back<T: AttribType>(
    info: AttributeInfo,
    session: NativeSession,
    code: int,
    buffer: Buffer,
) -> Result<Seq<T>, ErrorModel> {
    if code != 0 {
        Err(ErrorModel { kind: Kind::Hapi(classify(code)), message: None, session: Some(session) })
    } else {
        match T::unpacked(buffer) {
            None => Err(
                ErrorModel {
                    kind: Kind::Hapi(HapiResult::InvalidArgument),
                    message: Some("Buffer holds another storage type"@),
                    session: None,
                },
            ),
            Some(values) => if values.len() == capacity_of(
                info.tuple_size as int,
                info.count as int,
            ) && values.len() <= i32::MAX {
                Ok(values)
            } else {
                Err(
                    ErrorModel {
                        kind: Kind::Hapi(HapiResult::InvalidArgument),
                        message: Some("Buffer length differs from tuple size times count"@),
                        session: None,
                    },
                )
            },
        }
    }
}

impl<T: AttribType> NumericAttr<T> {
    pub fn new(name: NativeString, info: AttributeInfo, node: HoudiniNode) -> (attr: NumericAttr<T>)
        ensures
            attr.info == info,
            attr.name == name,
            attr.node == node,
    {
        NumericAttr { info, name, node, marker: core::marker::PhantomData }
    }

    /// The call that reads all elements of the attribute in part `part_id`,
    /// into a buffer of exactly `tuple_size * count` values. Refused where
    /// that exceeds the engine's lengths.
    pub fn get(&self, part_id: i32) -> (r: Result<AttributeCall, HapiError>)
        ensures
            r is Ok <==> capacity_of(self.info.tuple_size as int, self.info.count as int)
                <= i32::MAX,
            r matches Err(e) ==> e@ == (ErrorModel {
                kind: Kind::Hapi(HapiResult::InvalidArgument),
                message: Some("Attribute is larger than the engine can address"@),
                session: None,
            }),
            r matches Ok(call) ==> (call matches AttributeCall::GetData {
                session,
                node,
                part_id: part,
                name,
                info,
                storage,
                stride,
                start,
                length,
                buffer_len,
            } && session == self.node.session && node == self.node.handle && part == part_id
                && name@ == self.name@ && info == self.info && storage == T::storage_tag()
                && stride == -1 && start == 0 && length == room(self.info.count as int)
                && buffer_len == capacity_of(self.info.tuple_size as int, self.info.count as int)),
    {
        match self.info.capacity() {
            None => Err(too_large()),
            Some(buffer_len) => Ok(
                AttributeCall::GetData {
                    session: self.node.session,
                    node: self.node.handle,
                    part_id,
                    name: self.name.duplicate(),
                    info: self.info,
                    storage: T::storage(),
                    stride: -1,
                    start: 0,
                    length: non_negative(self.info.count),
                    buffer_len,
                },
            ),
        }
    }

    /// The values that the engine answered a read with.
    pub fn read(&self, code: i32, buffer: Buffer) -> (r: Result<Vec<T>, HapiError>)
        ensures
            match read_back::<T>(self.info, self.node.session, code as int, buffer) {
                Ok(values) => r matches Ok(v) && v@ == values,
                Err(error) => r matches Err(e) && e@ == error,
            },
    {
        match translate(code, Some(self.node.session), None) {
            Err(e) => Err(e),
            Ok(()) => match T::unpack(buffer) {
                None => Err(wrong_storage()),
                Some(values) => match self.info.capacity() {
                    Some(n) => if values.len() == n {
                        Ok(values)
                    } else {
                        Err(wrong_length())
                    },
                    None => Err(wrong_length()),
                },
            },
        }
    }

    /// The call that writes `values` to the attribute in part `part_id`.
    /// Only whole elements within the attribute's room are written; the
    /// other values are dropped and counted.
    pub fn set(&self, part_id: i32, values: &[T]) -> (w: AttributeWrite)
        ensures
            w.call matches AttributeCall::SetData {
                session,
                node,
                part_id: part,
                name,
                info,
                data,
                start,
                length,
            } && session == self.node.session && node == self.node.handle && part == part_id
                && name@ == self.name@ && info == self.info && start == 0 && length
                == whole_tuples(values@.len(), self.info.tuple_size as int, self.info.count as int)
                && T::unpacked(data) == Some(
                written(values@, self.info.tuple_size as int, self.info.count as int),
            ) && data.storage() == T::storage_tag() && data.len() <= capacity_of(
                self.info.tuple_size as int,
                self.info.count as int,
            ),
            w.dropped == values@.len() - written(
                values@,
                self.info.tuple_size as int,
                self.info.count as int,
            ).len(),
            values@.len() > capacity_of(self.info.tuple_size as int, self.info.count as int)
                ==> w.dropped > 0,
    {
        proof {
            lemma_written_bounds(
                values@.len(),
                self.info.tuple_size as int,
                self.info.count as int,
            );
        }
        let (kept, length) = cut(values, &self.info);
        let dropped = values.len() - kept.len();
        AttributeWrite {
            call: AttributeCall::SetData {
                session: self.node.session,
                node: self.node.handle,
                part_id,
                name: self.name.duplicate(),
                info: self.info,
                data: T::pack(kept),
                start: 0,
                length,
            },
            dropped,
        }
    }
}

/// Writing values that fill an attribute exactly and reading back what was
/// written yields those values, for every primitive type.
pub proof fn lemma_write_then_read<T: AttribType>(
    info: AttributeInfo,
    session: NativeSession,
    values: Seq<T>,
    buffer: Buffer,
)
    requires
        values.len() == capacity_of(info.tuple_size as int, info.count as int),
        values.len() <= i32::MAX,
        T::unpacked(buffer) == Some(written(values, info.tuple_size as int, info.count as int)),
    ensures
        written(values, info.tuple_size as int, info.count as int) == values,
        read_back::<T>(info, session, 0, buffer) == Ok::<Seq<T>, ErrorModel>(values),
{
    lemma_written_bounds(values.len(), info.tuple_size as int, info.count as int);
    assert(values.take(values.len() as int) =~= values);
}

/// Whatever is given to a write, what is written never exceeds
/// `tuple_size * count` values, and it is the front of what was given.
pub proof fn lemma_write_within_capacity<T>(values: Seq<T>, tuple_size: int, count: int)
    ensures
        written(values, tuple_size, count).len() <= capacity_of(tuple_size, count),
        written(values, tuple_size, count).len() <= values.len(),
        written(values, tuple_size, count) == values.take(
            written(values, tuple_size, count).len() as int,
        ),
        values.len() > capacity_of(tuple_size, count) ==> written(values, tuple_size, count).len()
            < values.len(),
{
    lemma_written_bounds(values.len(), tuple_size, count);
}

/// The bytes of each text, as the engine takes them.
pub open spec fn encoded(values: Seq<&str>) -> Seq<Seq<u8>> {
    values.map_values(|s: &str| encode_utf8(s@))
}

/// Whether one of the texts holds a zero byte.
pub open spec fn any_text_nul(values: Seq<&str>) -> bool {
    exists|i: int| 0 <= i < values.len() && has_nul(encode_utf8(#[trigger] values[i]@))
}

/// The views of a list of texts for the engine.
pub open spec fn byte_strings(values: Seq<NativeString>) -> Seq<Seq<u8>> {
    values.map_values(|s: NativeString| s@)
}

/// The texts as texts for the engine, or `NullByte` if one of them holds a
/// zero byte.
pub fn to_native(values: &[&str]) -> (r: Result<Vec<NativeString>, HapiError>)
    ensures
        r is Err <==> any_text_nul(values@),
        r matches Err(e) ==> e@ == (ErrorModel {
            kind: Kind::NullByte,
            message: None,
            session: None,
        }),
        r matches Ok(v) ==> byte_strings(v@) == encoded(values@),
{
    let mut out: Vec<NativeString> = Vec::new();
    let mut i: usize = 0;
    while i < values.len()
        invariant
            i <= values.len(),
            forall|j: int| 0 <= j < i ==> !has_nul(encode_utf8(#[trigger] values@[j]@)),
            byte_strings(out@) == encoded(values@.take(i as int)),
        decreases values.len() - i,
    {
        match NativeString::new(values[i]) {
            Err(e) => {
                return Err(e);
            },
            Ok(text) => {
                proof {
                    assert(byte_strings(out@.push(text)) =~= byte_strings(out@).push(text@));
                    assert(encoded(values@.take(i + 1)) =~= encoded(values@.take(i as int)).push(
                        encode_utf8(values@[i as int]@),
                    ));
                }
                out.push(text);
            },
        }
        i += 1;
    }
    proof {
        assert(values@.take(values@.len() as int) =~= values@);
    }
    Ok(out)
}

/// What reading an array attribute yields for an answer of the engine: the
/// engine's error; else the array of the buffer and the sizes, provided that
/// the buffer holds the attribute's type and the sizes describe it exactly.
pub open spec fn read_array_back<T: AttribType>(
    session: NativeSession,
    code: int,
    buffer: Buffer,
    sizes: Seq<i32>,
) -> Result<crate::array::ArrayModel<T>, ErrorModel> {
    if code != 0 {
        Err(ErrorModel { kind: Kind::Hapi(classify(code)), message: None, session: Some(session) })
    } else {
        match T::unpacked(buffer) {
            None => Err(
                ErrorModel {
                    kind: Kind::Hapi(HapiResult::InvalidArgument),
                    message: Some("Buffer holds another storage type"@),
                    session: None,
                },
            ),
            Some(values) => if sizes_fit(sizes, values.len()) {
                Ok(crate::array::ArrayModel { data: values, sizes })
            } else {
                Err(
                    ErrorModel {
                        kind: Kind::Hapi(HapiResult::InvalidArgument),
                        message: Some("Sizes do not add up to the number of values"@),
                        session: None,
                    },
                )
            },
        }
    }
}

/// A 64-bit count as a buffer length, or `None` where it exceeds the
/// engine's 32-bit lengths. A negative count is an empty buffer.
pub fn length_of(total: i64) -> (n: Option<usize>)
    ensures
        n is Some <==> total <= i32::MAX,
        n matches Some(len) ==> len == room(total as int),
{
    if total < 0 {
        Some(0)
    } else if total <= 0x7fff_ffff {
        Some(total as usize)
    } else {
        None
    }
}

impl<T: AttribType> NumericArrayAttr<T> {
    pub fn new(name: NativeString, info: AttributeInfo, node: HoudiniNode) -> (attr:
        NumericArrayAttr<T>)
        ensures
            attr.info == info,
            attr.name == name,
            attr.node == node,
    {
        NumericArrayAttr { info, name, node, marker: core::marker::PhantomData }
    }

    /// The call that reads the whole array attribute in part `part_id`: all
    /// values into one buffer, the size of each element into another.
    pub fn get(&self, part_id: i32) -> (r: Result<AttributeCall, HapiError>)
        ensures
            r is Ok <==> self.info.total_array_elements <= i32::MAX,
            r matches Err(e) ==> e@ == (ErrorModel {
                kind: Kind::Hapi(HapiResult::InvalidArgument),
                message: Some("Attribute is larger than the engine can address"@),
                session: None,
            }),
            r matches Ok(call) ==> (call matches AttributeCall::GetArrayData {
                session,
                node,
                part_id: part,
                name,
                info,
                storage,
                data_len,
                sizes_len,
            } && session == self.node.session && node == self.node.handle && part == part_id
                && name@ == self.name@ && info == self.info && storage == array_of(
                T::storage_tag(),
            ) && data_len == room(self.info.total_array_elements as int) && sizes_len == room(
                self.info.count as int,
            )),
    {
        match length_of(self.info.total_array_elements) {
            None => Err(too_large()),
            Some(data_len) => Ok(
                AttributeCall::GetArrayData {
                    session: self.node.session,
                    node: self.node.handle,
                    part_id,
                    name: self.name.duplicate(),
                    info: self.info,
                    storage: array_storage(T::storage()),
                    data_len,
                    sizes_len: crate::marshal::room_of(self.info.count),
                },
            ),
        }
    }

    /// The array that the engine answered a read with.
    pub fn read(&self, code: i32, buffer: Buffer, sizes: Vec<i32>) -> (r: Result<
        DataArray<T>,
        HapiError,
    >)
        ensures
            match read_array_back::<T>(self.node.session, code as int, buffer, sizes@) {
                Ok(array) => r matches Ok(a) && a@ == array,
                Err(error) => r matches Err(e) && e@ == error,
            },
    {
        match translate(code, Some(self.node.session), None) {
            Err(e) => Err(e),
            Ok(()) => match T::unpack(buffer) {
                None => Err(wrong_storage()),
                Some(values) => DataArray::new_owned(values, sizes),
            },
        }
    }

    /// The call that writes the array to the attribute in part `part_id`.
    pub fn set(&self, part_id: i32, values: &DataArray<T>) -> (call: AttributeCall)
        ensures
            call matches AttributeCall::SetArrayData {
                session,
                node,
                part_id: part,
                name,
                info,
                data,
                sizes,
            } && session == self.node.session && node == self.node.handle && part == part_id
                && name@ == self.name@ && info == self.info && T::unpacked(data) == Some(
                values@.data,
            ) && sizes@ == values@.sizes && sizes_fit(sizes@, data.len()),
    {
        let sizes = values.sizes();
        AttributeCall::SetArrayData {
            session: self.node.session,
            node: self.node.handle,
            part_id,
            name: self.name.duplicate(),
            info: self.info,
            data: T::pack(slice_to_vec(values.data())),
            sizes: slice_to_vec(sizes),
        }
    }
}

/// Writing an array and reading back what was written yields that array.
pub proof fn lemma_array_write_then_read<T: AttribType>(
    session: NativeSession,
    array: crate::array::ArrayModel<T>,
    buffer: Buffer,
)
    requires
        sizes_fit(array.sizes, array.data.len()),
        T::unpacked(buffer) == Some(array.data),
    ensures
        read_array_back::<T>(session, 0, buffer, array.sizes) == Ok::<
            crate::array::ArrayModel<T>,
            ErrorModel,
        >(array),
{
}

impl StringAttr {
    pub fn new(name: NativeString, info: AttributeInfo, node: HoudiniNode) -> (attr: StringAttr)
        ensures
            attr.info == info,
            attr.name == name,
            attr.node == node,
    {
        StringAttr { info, name, node }
    }

    /// The call that reads the string handles of all elements of the
    /// attribute in part `part_id`, into a buffer of exactly
    /// `tuple_size * count` handles.
    pub fn get(&self, part_id: i32) -> (r: Result<AttributeCall, HapiError>)
        ensures
            r is Ok <==> capacity_of(self.info.tuple_size as int, self.info.count as int)
                <= i32::MAX,
            r matches Err(e) ==> e@ == (ErrorModel {
                kind: Kind::Hapi(HapiResult::InvalidArgument),
                message: Some("Attribute is larger than the engine can address"@),
                session: None,
            }),
            r matches Ok(call) ==> (call matches AttributeCall::GetStringData {
                session,
                node,
                part_id: part,
                name,
                info,
                start,
                length,
                buffer_len,
            } && session == self.node.session && node == self.node.handle && part == part_id
                && name@ == self.name@ && info == self.info && start == 0 && length == room(
                self.info.count as int,
            ) && buffer_len == capacity_of(self.info.tuple_size as int, self.info.count as int)),
    {
        match self.info.capacity() {
            None => Err(too_large()),
            Some(buffer_len) => Ok(
                AttributeCall::GetStringData {
                    session: self.node.session,
                    node: self.node.handle,
                    part_id,
                    name: self.name.duplicate(),
                    info: self.info,
                    start: 0,
                    length: non_negative(self.info.count),
                    buffer_len,
                },
            ),
        }
    }

    /// The string handles that the engine answered a read with. They are
    /// resolved as one batch. Refused where their number is not
    /// `tuple_size * count`.
    pub fn read(&self, code: i32, handles: Vec<i32>) -> (r: Result<Vec<i32>, HapiError>)
        ensures
            code != 0 ==> (r matches Err(e) && e@ == (ErrorModel {
                kind: Kind::Hapi(classify(code as int)),
                message: None,
                session: Some(self.node.session),
            })),
            code == 0 && handles@.len() != capacity_of(
                self.info.tuple_size as int,
                self.info.count as int,
            ) ==> (r matches Err(e) && e@ == (ErrorModel {
                kind: Kind::Hapi(HapiResult::InvalidArgument),
                message: Some("Buffer length differs from tuple size times count"@),
                session: None,
            })),
            code == 0 && handles@.len() == capacity_of(
                self.info.tuple_size as int,
                self.info.count as int,
            ) ==> r == Ok::<Vec<i32>, HapiError>(handles),
    {
        match translate(code, Some(self.node.session), None) {
            Err(e) => Err(e),
            Ok(()) => {
                let t = crate::marshal::room_of(self.info.tuple_size);
                let c = crate::marshal::room_of(self.info.count);
                if fits(handles.len(), t, c) {
                    Ok(handles)
                } else {
                    Err(wrong_length())
                }
            },
        }
    }

    /// The call that writes `values` to the attribute in part `part_id`. A
    /// zero byte in any value fails the write with `NullByte` before a
    /// call is made. Only whole elements within the attribute's room are
    /// written; the other values are dropped and counted.
    pub fn set(&self, part_id: i32, values: &[&str]) -> (r: Result<AttributeWrite, HapiError>)
        ensures
            r is Err <==> any_text_nul(values@),
            r matches Err(e) ==> e@ == (ErrorModel {
                kind: Kind::NullByte,
                message: None,
                session: None,
            }),
            r matches Ok(w) ==> (w.call matches AttributeCall::SetStringData {
                session,
                node,
                part_id: part,
                name,
                info,
                values: texts,
                start,
                length,
            } && session == self.node.session && node == self.node.handle && part == part_id
                && name@ == self.name@ && info == self.info && start == 0 && length
                == whole_tuples(values@.len(), self.info.tuple_size as int, self.info.count as int)
                && byte_strings(texts@) == written(
                encoded(values@),
                self.info.tuple_size as int,
                self.info.count as int,
            ) && w.dropped == values@.len() - texts@.len()),
    {
        match to_native(values) {
            Err(e) => Err(e),
            Ok(texts) => {
                proof {
                    lemma_written_bounds(
                        values@.len(),
                        self.info.tuple_size as int,
                        self.info.count as int,
                    );
                }
                let mut texts = texts;
                let ghost all = texts@;
                let total = texts.len();
                proof {
                    assert(byte_strings(all).len() == all.len());
                    assert(encoded(values@).len() == values@.len());
                }
                let (length, keep) = cut_point(total, &self.info);
                texts.truncate(keep);
                proof {
                    assert(texts@ =~= all.take(keep as int));
                    assert(byte_strings(all.take(keep as int)) =~= byte_strings(all).take(
                        keep as int,
                    ));
                    assert(written(
                        encoded(values@),
                        self.info.tuple_size as int,
                        self.info.count as int,
                    ) == encoded(values@).take(keep as int));
                }
                Ok(
                    AttributeWrite {
                        call: AttributeCall::SetStringData {
                            session: self.node.session,
                            node: self.node.handle,
                            part_id,
                            name: self.name.duplicate(),
                            info: self.info,
                            values: texts,
                            start: 0,
                            length,
                        },
                        dropped: total - keep,
                    },
                )
            },
        }
    }
}

/// Whether `len` is `tuple_size * count`.
fn fits(len: usize, tuple_size: usize, count: usize) -> (ok: bool)
    requires
        tuple_size <= i32::MAX,
        count <= i32::MAX,
    ensures
        ok == (len == tuple_size * count),
{
    assert(tuple_size * count <= 0x7fff_ffff * 0x7fff_ffff) by (nonlinear_arith)
        requires
            tuple_size <= 0x7fff_ffff,
            count <= 0x7fff_ffff,
    ;
    let product: u64 = tuple_size as u64 * count as u64;
    len as u64 == product
}


impl StringArrayAttr {
    pub fn new(name: NativeString, info: AttributeInfo, node: HoudiniNode) -> (attr:
        StringArrayAttr)
        ensures
            attr.info == info,
            attr.name == name,
            attr.node == node,
    {
        StringArrayAttr { info, name, node }
    }

    /// The call that reads the whole string array attribute in part
    /// `part_id`: all string handles into one buffer, the size of each
    /// element into another.
    pub fn get(&self, part_id: i32) -> (r: Result<AttributeCall, HapiError>)
        ensures
            r is Ok <==> self.info.total_array_elements <= i32::MAX,
            r matches Err(e) ==> e@ == (ErrorModel {
                kind: Kind::Hapi(HapiResult::InvalidArgument),
                message: Some("Attribute is larger than the engine can address"@),
                session: None,
            }),
            r matches Ok(call) ==> (call matches AttributeCall::GetStringArrayData {
                session,
                node,
                part_id: part,
                name,
                info,
                data_len,
                sizes_len,
            } && session == self.node.session && node == self.node.handle && part == part_id
                && name@ == self.name@ && info == self.info && data_len == room(
                self.info.total_array_elements as int,
            ) && sizes_len == room(self.info.count as int)),
    {
        match length_of(self.info.total_array_elements) {
            None => Err(too_large()),
            Some(data_len) => Ok(
                AttributeCall::GetStringArrayData {
                    session: self.node.session,
                    node: self.node.handle,
                    part_id,
                    name: self.name.duplicate(),
                    info: self.info,
                    data_len,
                    sizes_len: crate::marshal::room_of(self.info.count),
                },
            ),
        }
    }

    /// The string array that the engine answered a read with. Sizes that do
    /// not describe the handles exactly are refused.
    pub fn read(&self, code: i32, handles: Vec<i32>, sizes: Vec<i32>) -> (r: Result<
        StringMultiArray,
        HapiError,
    >)
        ensures
            code != 0 ==> (r matches Err(e) && e@ == (ErrorModel {
                kind: Kind::Hapi(classify(code as int)),
                message: None,
                session: Some(self.node.session),
            })),
            code == 0 && !sizes_fit(sizes@, handles@.len()) ==> (r matches Err(e) && e@
                == (ErrorModel {
                kind: Kind::Hapi(HapiResult::InvalidArgument),
                message: Some("Sizes do not add up to the number of values"@),
                session: None,
            })),
            code == 0 && sizes_fit(sizes@, handles@.len()) ==> (r matches Ok(a) && a@.data
                == handles@ && a@.sizes == sizes@ && a.session_of() == self.node.session),
    {
        match translate(code, Some(self.node.session), None) {
            Err(e) => Err(e),
            Ok(()) => StringMultiArray::new(handles, sizes, self.node.session),
        }
    }

    /// The call that writes the strings and the size of each element to the
    /// attribute in part `part_id`. A zero byte in any value fails the write
    /// with `NullByte`; sizes that do not describe the values exactly fail it
    /// as an invalid argument. Either way no call is made.
    pub fn set(&self, part_id: i32, values: &[&str], sizes: &[i32]) -> (r: Result<
        AttributeCall,
        HapiError,
    >)
        ensures
            r is Ok <==> !any_text_nul(values@) && sizes_fit(sizes@, values@.len()),
            any_text_nul(values@) ==> (r matches Err(e) && e@ == (ErrorModel {
                kind: Kind::NullByte,
                message: None,
                session: None,
            })),
            !any_text_nul(values@) && !sizes_fit(sizes@, values@.len()) ==> (r matches Err(e) && e@
                == (ErrorModel {
                kind: Kind::Hapi(HapiResult::InvalidArgument),
                message: Some("Sizes do not add up to the number of values"@),
                session: None,
            })),
            r matches Ok(call) ==> (call matches AttributeCall::SetStringArrayData {
                session,
                node,
                part_id: part,
                name,
                info,
                values: texts,
                sizes: s,
            } && session == self.node.session && node == self.node.handle && part == part_id
                && name@ == self.name@ && info == self.info && byte_strings(texts@) == encoded(
                values@,
            ) && s@ == sizes@),
    {
        match to_native(values) {
            Err(e) => Err(e),
            Ok(texts) => {
                proof {
                    assert(byte_strings(texts@).len() == encoded(values@).len());
                }
                if !check_sizes(sizes, texts.len()) {
                    return Err(size_mismatch());
                }
                Ok(
                    AttributeCall::SetStringArrayData {
                        session: self.node.session,
                        node: self.node.handle,
                        part_id,
                        name: self.name.duplicate(),
                        info: self.info,
                        values: texts,
                        sizes: slice_to_vec(sizes),
                    },
                )
            },
        }
    }
}

/// Strings that are written, laid out as terminated byte strings, and read
/// back from such a buffer are the strings that were written, as many and
/// in their order, provided that none of them holds a zero byte.
pub proof fn lemma_strings_write_then_read(values: Seq<Seq<char>>)
    requires
        forall|i: int| 0 <= i < values.len() ==> !has_nul(encode_utf8(#[trigger] values[i])),
    ensures
        crate::stringhandle::split_terminated(
            crate::stringhandle::wire(values.map_values(|s: Seq<char>| encode_utf8(s))),
        ).map_values(|b: Seq<u8>| text_of(b)) == values,
{
    let bytes = values.map_values(|s: Seq<char>| encode_utf8(s));
    assert forall|i: int| 0 <= i < bytes.len() implies !has_nul(#[trigger] bytes[i]) by {
        assert(bytes[i] == encode_utf8(values[i]));
    }
    crate::stringhandle::lemma_split_of_wire(bytes);
    let back = bytes.map_values(|b: Seq<u8>| text_of(b));
    assert forall|i: int| 0 <= i < values.len() implies back[i] == values[i] by {
        vstd::utf8::encode_utf8_valid_utf8(values[i]);
        vstd::utf8::encode_utf8_decode_utf8(values[i]);
        assert(bytes[i] == encode_utf8(values[i]));
    }
    assert(back =~= values);
}

/// What every attribute can say of itself.
pub trait AsAttribute {
    spec fn info_of(&self) -> AttributeInfo;

    spec fn storage_of(&self) -> StorageType;

    spec fn name_of(&self) -> Seq<u8>;

    fn info(&self) -> (info: &AttributeInfo)
        ensures
            *info == self.info_of(),
    ;

    fn storage(&self) -> (s: StorageType)
        ensures
            s == self.storage_of(),
    ;

    fn name(&self) -> (text: String)
        ensures
            text@ == text_of(self.name_of()),
    ;
}

impl<T: AttribType> AsAttribute for NumericAttr<T> {
    open spec fn info_of(&self) -> AttributeInfo {
        self.info
    }

    open spec fn storage_of(&self) -> StorageType {
        T::storage_tag()
    }

    open spec fn name_of(&self) -> Seq<u8> {
        self.name@
    }

    fn info(&self) -> (info: &AttributeInfo) {
        &self.info
    }

    fn storage(&self) -> (s: StorageType) {
        T::storage()
    }

    fn name(&self) -> (text: String) {
        self.name.to_string_lossy()
    }
}

impl<T: AttribType> AsAttribute for NumericArrayAttr<T> {
    open spec fn info_of(&self) -> AttributeInfo {
        self.info
    }

    open spec fn storage_of(&self) -> StorageType {
        array_of(T::storage_tag())
    }

    open spec fn name_of(&self) -> Seq<u8> {
        self.name@
    }

    fn info(&self) -> (info: &AttributeInfo) {
        &self.info
    }

    fn storage(&self) -> (s: StorageType) {
        array_storage(T::storage())
    }

    fn name(&self) -> (text: String) {
        self.name.to_string_lossy()
    }
}

impl AsAttribute for StringAttr {
    open spec fn info_of(&self) -> AttributeInfo {
        self.info
    }

    open spec fn storage_of(&self) -> StorageType {
        StorageType::String
    }

    open spec fn name_of(&self) -> Seq<u8> {
        self.name@
    }

    fn info(&self) -> (info: &AttributeInfo) {
        &self.info
    }

    fn storage(&self) -> (s: StorageType) {
        StorageType::String
    }

    fn name(&self) -> (text: String) {
        self.name.to_string_lossy()
    }
}

impl AsAttribute for StringArrayAttr {
    open spec fn info_of(&self) -> AttributeInfo {
        self.info
    }

    open spec fn storage_of(&self) -> StorageType {
        StorageType::StringArray
    }

    open spec fn name_of(&self) -> Seq<u8> {
        self.name@
    }

    fn info(&self) -> (info: &AttributeInfo) {
        &self.info
    }

    fn storage(&self) -> (s: StorageType) {
        StorageType::StringArray
    }

    fn name(&self) -> (text: String) {
        self.name.to_string_lossy()
    }
}

/// An attribute of any storage type: one case for each primitive type, for
/// strings, and for the array form of each.
#[derive(Debug)]
pub enum Attribute {
    Int8(NumericAttr<i8>),
    Uint8(NumericAttr<u8>),
    Int16(NumericAttr<i16>),
    Int(NumericAttr<i32>),
    Int64(NumericAttr<i64>),
    Float(NumericAttr<F32Bits>),
    Float64(NumericAttr<F64Bits>),
    String(StringAttr),
    Int8Array(NumericArrayAttr<i8>),
    Uint8Array(NumericArrayAttr<u8>),
    Int16Array(NumericArrayAttr<i16>),
    Array(NumericArrayAttr<i32>),
    Int64Array(NumericArrayAttr<i64>),
    FloatArray(NumericArrayAttr<F32Bits>),
    Float64Array(NumericArrayAttr<F64Bits>),
    StringArray(StringArrayAttr),
}

impl AsAttribute for Attribute {
    open spec fn info_of(&self) -> AttributeInfo {
        match self {
            Attribute::Int8(a) => a.info,
            Attribute::Uint8(a) => a.info,
            Attribute::Int16(a) => a.info,
            Attribute::Int(a) => a.info,
            Attribute::Int64(a) => a.info,
            Attribute::Float(a) => a.info,
            Attribute::Float64(a) => a.info,
            Attribute::String(a) => a.info,
            Attribute::Int8Array(a) => a.info,
            Attribute::Uint8Array(a) => a.info,
            Attribute::Int16Array(a) => a.info,
            Attribute::Array(a) => a.info,
            Attribute::Int64Array(a) => a.info,
            Attribute::FloatArray(a) => a.info,
            Attribute::Float64Array(a) => a.info,
            Attribute::StringArray(a) => a.info,
        }
    }

    open spec fn storage_of(&self) -> StorageType {
        match self {
            Attribute::Int8(_) => StorageType::Int8,
            Attribute::Uint8(_) => StorageType::Uint8,
            Attribute::Int16(_) => StorageType::Int16,
            Attribute::Int(_) => StorageType::Int,
            Attribute::Int64(_) => StorageType::Int64,
            Attribute::Float(_) => StorageType::Float,
            Attribute::Float64(_) => StorageType::Float64,
            Attribute::String(_) => StorageType::String,
            Attribute::Int8Array(_) => StorageType::Int8Array,
            Attribute::Uint8Array(_) => StorageType::Uint8Array,
            Attribute::Int16Array(_) => StorageType::Int16Array,
            Attribute::Array(_) => StorageType::Array,
            Attribute::Int64Array(_) => StorageType::Int64Array,
            Attribute::FloatArray(_) => StorageType::FloatArray,
            Attribute::Float64Array(_) => StorageType::Float64Array,
            Attribute::StringArray(_) => StorageType::StringArray,
        }
    }

    open spec fn name_of(&self) -> Seq<u8> {
        match self {
            Attribute::Int8(a) => a.name@,
            Attribute::Uint8(a) => a.name@,
            Attribute::Int16(a) => a.name@,
            Attribute::Int(a) => a.name@,
            Attribute::Int64(a) => a.name@,
            Attribute::Float(a) => a.name@,
            Attribute::Float64(a) => a.name@,
            Attribute::String(a) => a.name@,
            Attribute::Int8Array(a) => a.name@,
            Attribute::Uint8Array(a) => a.name@,
            Attribute::Int16Array(a) => a.name@,
            Attribute::Array(a) => a.name@,
            Attribute::Int64Array(a) => a.name@,
            Attribute::FloatArray(a) => a.name@,
            Attribute::Float64Array(a) => a.name@,
            Attribute::StringArray(a) => a.name@,
        }
    }

    fn info(&self) -> (info: &AttributeInfo) {
        match self {
            Attribute::Int8(a) => &a.info,
            Attribute::Uint8(a) => &a.info,
            Attribute::Int16(a) => &a.info,
            Attribute::Int(a) => &a.info,
            Attribute::Int64(a) => &a.info,
            Attribute::Float(a) => &a.info,
            Attribute::Float64(a) => &a.info,
            Attribute::String(a) => &a.info,
            Attribute::Int8Array(a) => &a.info,
            Attribute::Uint8Array(a) => &a.info,
            Attribute::Int16Array(a) => &a.info,
            Attribute::Array(a) => &a.info,
            Attribute::Int64Array(a) => &a.info,
            Attribute::FloatArray(a) => &a.info,
            Attribute::Float64Array(a) => &a.info,
            Attribute::StringArray(a) => &a.info,
        }
    }

    fn storage(&self) -> (s: StorageType) {
        match self {
            Attribute::Int8(_) => StorageType::Int8,
            Attribute::Uint8(_) => StorageType::Uint8,
            Attribute::Int16(_) => StorageType::Int16,
            Attribute::Int(_) => StorageType::Int,
            Attribute::Int64(_) => StorageType::Int64,
            Attribute::Float(_) => StorageType::Float,
            Attribute::Float64(_) => StorageType::Float64,
            Attribute::String(_) => StorageType::String,
            Attribute::Int8Array(_) => StorageType::Int8Array,
            Attribute::Uint8Array(_) => StorageType::Uint8Array,
            Attribute::Int16Array(_) => StorageType::Int16Array,
            Attribute::Array(_) => StorageType::Array,
            Attribute::Int64Array(_) => StorageType::Int64Array,
            Attribute::FloatArray(_) => StorageType::FloatArray,
            Attribute::Float64Array(_) => StorageType::Float64Array,
            Attribute::StringArray(_) => StorageType::StringArray,
        }
    }

    fn name(&self) -> (text: String) {
        match self {
            Attribute::Int8(a) => a.name.to_string_lossy(),
            Attribute::Uint8(a) => a.name.to_string_lossy(),
            Attribute::Int16(a) => a.name.to_string_lossy(),
            Attribute::Int(a) => a.name.to_string_lossy(),
            Attribute::Int64(a) => a.name.to_string_lossy(),
            Attribute::Float(a) => a.name.to_string_lossy(),
            Attribute::Float64(a) => a.name.to_string_lossy(),
            Attribute::String(a) => a.name.to_string_lossy(),
            Attribute::Int8Array(a) => a.name.to_string_lossy(),
            Attribute::Uint8Array(a) => a.name.to_string_lossy(),
            Attribute::Int16Array(a) => a.name.to_string_lossy(),
            Attribute::Array(a) => a.name.to_string_lossy(),
            Attribute::Int64Array(a) => a.name.to_string_lossy(),
            Attribute::FloatArray(a) => a.name.to_string_lossy(),
            Attribute::Float64Array(a) => a.name.to_string_lossy(),
            Attribute::StringArray(a) => a.name.to_string_lossy(),
        }
    }
}

impl Attribute {
    /// The node that the attribute belongs to.
    pub open spec fn node_of(&self) -> HoudiniNode {
        match self {
            Attribute::Int8(a) => a.node,
            Attribute::Uint8(a) => a.node,
            Attribute::Int16(a) => a.node,
            Attribute::Int(a) => a.node,
            Attribute::Int64(a) => a.node,
            Attribute::Float(a) => a.node,
            Attribute::Float64(a) => a.node,
            Attribute::String(a) => a.node,
            Attribute::Int8Array(a) => a.node,
            Attribute::Uint8Array(a) => a.node,
            Attribute::Int16Array(a) => a.node,
            Attribute::Array(a) => a.node,
            Attribute::Int64Array(a) => a.node,
            Attribute::FloatArray(a) => a.node,
            Attribute::Float64Array(a) => a.node,
            Attribute::StringArray(a) => a.node,
        }
    }

    /// The attribute for metadata that the engine handed back, in the case
    /// that goes with the storage type that the metadata declares. `None`
    /// where it declares none.
    pub fn new(name: NativeString, info: AttributeInfo, node: HoudiniNode) -> (r: Option<
        Attribute,
    >)
        ensures
            r is None <==> info.storage == StorageType::Invalid,
            r matches Some(a) ==> a.storage_of() == info.storage && a.info_of() == info
                && a.name_of() == name@ && a.node_of() == node,
    {
        match info.storage {
            StorageType::Invalid => None,
            StorageType::Int8 => Some(Attribute::Int8(NumericAttr::new(name, info, node))),
            StorageType::Uint8 => Some(Attribute::Uint8(NumericAttr::new(name, info, node))),
            StorageType::Int16 => Some(Attribute::Int16(NumericAttr::new(name, info, node))),
            StorageType::Int => Some(Attribute::Int(NumericAttr::new(name, info, node))),
            StorageType::Int64 => Some(Attribute::Int64(NumericAttr::new(name, info, node))),
            StorageType::Float => Some(Attribute::Float(NumericAttr::new(name, info, node))),
            StorageType::Float64 => Some(Attribute::Float64(NumericAttr::new(name, info, node))),
            StorageType::String => Some(Attribute::String(StringAttr::new(name, info, node))),
            StorageType::Int8Array => Some(
                Attribute::Int8Array(NumericArrayAttr::new(name, info, node)),
            ),
            StorageType::Uint8Array => Some(
                Attribute::Uint8Array(NumericArrayAttr::new(name, info, node)),
            ),
            StorageType::Int16Array => Some(
                Attribute::Int16Array(NumericArrayAttr::new(name, info, node)),
            ),
            StorageType::Array => Some(Attribute::Array(NumericArrayAttr::new(name, info, node))),
            StorageType::Int64Array => Some(
                Attribute::Int64Array(NumericArrayAttr::new(name, info, node)),
            ),
            StorageType::FloatArray => Some(
                Attribute::FloatArray(NumericArrayAttr::new(name, info, node)),
            ),
            StorageType::Float64Array => Some(
                Attribute::Float64Array(NumericArrayAttr::new(name, info, node)),
            ),
            StorageType::StringArray => Some(
                Attribute::StringArray(StringArrayAttr::new(name, info, node)),
            ),
        }
    }

    /// The attribute that the engine answered a query by name with: an
    /// error where the query failed; `None` where the engine reports no
    /// such attribute, or one without a storage type.
    pub fn found(name: NativeString, node: HoudiniNode, code: i32, info: AttributeInfo) -> (r:
        Result<Option<Attribute>, HapiError>)
        ensures
            code != 0 ==> (r matches Err(e) && e@ == (ErrorModel {
                kind: Kind::Hapi(classify(code as int)),
                message: None,
                session: Some(node.session),
            })),
            code == 0 && (!info.exists || info.storage == StorageType::Invalid) ==> r matches Ok(
                None,
            ),
            code == 0 && info.exists && info.storage != StorageType::Invalid ==> (r matches Ok(
                Some(a),
            ) && a.storage_of() == info.storage && a.info_of() == info && a.name_of() == name@
                && a.node_of() == node),
    {
        match translate(code, Some(node.session), None) {
            Err(e) => Err(e),
            Ok(()) => {
                if info.exists {
                    Ok(Attribute::new(name, info, node))
                } else {
                    Ok(None)
                }
            },
        }
    }
}

} // verus!
