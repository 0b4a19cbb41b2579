use hapi_rs::array::{check_sizes, DataArray, StringMultiArray};
use hapi_rs::attribute::{
    array_storage, to_native, AsAttribute, AttribType, Attribute, AttributeCall, AttributeInfo,
    AttributeOwner, Buffer, NumericArrayAttr, NumericAttr, StorageType, StringArrayAttr, StringAttr,
};
use hapi_rs::errors::{HapiError, HapiResult, Kind};
use hapi_rs::geometry::{Geometry, GeometryCall, GeoInfo, PartInfo, PartType};
use hapi_rs::marshal::{capacity, clamp, keep, room_of, F32Bits, F64Bits, Reply, Step};
use hapi_rs::node::{HoudiniNode, NodeCall, NodeHandle, StringHandle};
use hapi_rs::session::{CookResult, CookStep, NativeSession, Session, SessionKind, SessionOptions, State, StatusType};
use hapi_rs::stringhandle::{get_string_buffer, StringBuffer, StringCall};
use hapi_rs::text::NativeString;

fn session() -> NativeSession {
    NativeSession { kind: SessionKind::InProcess, id: 1 }
}

fn node() -> HoudiniNode {
    HoudiniNode::new(NodeHandle(3), session())
}

fn info(storage: StorageType, tuple_size: i32, count: i32) -> AttributeInfo {
    AttributeInfo::default()
        .with_count(count)
        .with_tuple_size(tuple_size)
        .with_owner(AttributeOwner::Point)
        .with_storage(storage)
}

fn name(text: &str) -> NativeString {
    NativeString::new(text).unwrap()
}

/// A stand-in for the engine's attribute store. It keeps what is written,
/// hands it back when read, and counts the values it was handed.
struct Store {
    numeric: Vec<(Vec<u8>, Buffer)>,
    arrays: Vec<(Vec<u8>, Buffer, Vec<i32>)>,
    strings: Vec<(Vec<u8>, Vec<Vec<u8>>)>,
    table: Vec<Vec<u8>>,
    batch: Vec<u8>,
    calls: usize,
    values_written: usize,
}

fn copy(buffer: &Buffer) -> Buffer {
    match buffer {
        Buffer::Int8(v) => Buffer::Int8(v.clone()),
        Buffer::Uint8(v) => Buffer::Uint8(v.clone()),
        Buffer::Int16(v) => Buffer::Int16(v.clone()),
        Buffer::Int(v) => Buffer::Int(v.clone()),
        Buffer::Int64(v) => Buffer::Int64(v.clone()),
        Buffer::Float(v) => Buffer::Float(v.clone()),
        Buffer::Float64(v) => Buffer::Float64(v.clone()),
    }
}

enum Answer {
    Code(i32),
    Data(i32, Buffer),
    Array(i32, Buffer, Vec<i32>),
    Handles(i32, Vec<i32>),
}

impl Store {
    fn new() -> Store {
        Store {
            numeric: Vec::new(),
            arrays: Vec::new(),
            strings: Vec::new(),
            table: Vec::new(),
            batch: Vec::new(),
            calls: 0,
            values_written: 0,
        }
    }

    fn call(&mut self, call: &AttributeCall) -> Answer {
        self.calls += 1;
        match call {
            AttributeCall::AddAttribute { .. } => Answer::Code(0),
            AttributeCall::SetData { name, info, data, start, length, .. } => {
                assert_eq!(*start, 0);
                assert!(*length <= info.count);
                assert_eq!(data.length(), *length as usize * info.tuple_size as usize);
                self.values_written += data.length();
                self.numeric.push((name.as_bytes().to_vec(), copy(data)));
                Answer::Code(0)
            }
            AttributeCall::GetData { name, info, storage, buffer_len, length, .. } => {
                assert_eq!(*length, info.count);
                assert_eq!(*buffer_len, info.count as usize * info.tuple_size as usize);
                for (n, data) in self.numeric.iter().rev() {
                    if n == name.as_bytes() {
                        assert_eq!(data.storage_type(), *storage);
                        return Answer::Data(0, copy(data));
                    }
                }
                Answer::Code(6)
            }
            AttributeCall::SetArrayData { name, data, sizes, .. } => {
                self.arrays.push((name.as_bytes().to_vec(), copy(data), sizes.clone()));
                Answer::Code(0)
            }
            AttributeCall::GetArrayData { name, .. } => {
                for (n, data, sizes) in self.arrays.iter().rev() {
                    if n == name.as_bytes() {
                        return Answer::Array(0, copy(data), sizes.clone());
                    }
                }
                Answer::Code(6)
            }
            AttributeCall::SetStringData { name, values, .. } => {
                let values = values.iter().map(|v| v.as_bytes().to_vec()).collect();
                self.strings.push((name.as_bytes().to_vec(), values));
                Answer::Code(0)
            }
            AttributeCall::GetStringData { name, buffer_len, .. } => {
                for (n, values) in self.strings.iter().rev() {
                    if n == name.as_bytes() {
                        assert_eq!(values.len(), *buffer_len);
                        let mut handles = Vec::new();
                        for v in values {
                            handles.push(self.table.len() as i32);
                            self.table.push(v.clone());
                        }
                        return Answer::Handles(0, handles);
                    }
                }
                Answer::Code(6)
            }
            _ => panic!("call not modelled"),
        }
    }

    fn strings(&mut self, call: &StringCall) -> Reply<u8> {
        self.calls += 1;
        match call {
            StringCall::GetStringBatchSize { handles, .. } => {
                self.batch.clear();
                for h in handles {
                    self.batch.extend_from_slice(&self.table[*h as usize]);
                    self.batch.push(0);
                }
                Reply::Size { code: 0, length: self.batch.len() as i32 }
            }
            StringCall::GetStringBatch { length, .. } => {
                Reply::Data { code: 0, length: *length, values: self.batch.clone() }
            }
            _ => panic!("call not modelled"),
        }
    }
}

fn round_trip<T: AttribType + PartialEq + std::fmt::Debug>(values: Vec<T>, tuple_size: i32) {
    let mut store = Store::new();
    let count = values.len() as i32 / tuple_size;
    let attr = NumericAttr::<T>::new(name("a"), info(T::storage(), tuple_size, count), node());
    let write = attr.set(0, &values);
    assert_eq!(write.dropped, 0);
    assert!(matches!(store.call(&write.call), Answer::Code(0)));
    let read = attr.get(0).unwrap();
    match store.call(&read) {
        Answer::Data(code, buffer) => assert_eq!(attr.read(code, buffer).unwrap(), values),
        _ => panic!("no data"),
    }
}

#[test]
fn write_then_read_i8() {
    round_trip::<i8>(vec![-128, -1, 0, 1, 127, 5], 3);
}

#[test]
fn write_then_read_u8() {
    round_trip::<u8>(vec![0, 1, 254, 255], 1);
}

#[test]
fn write_then_read_i16() {
    round_trip::<i16>(vec![i16::MIN, -1, 0, i16::MAX], 2);
}

#[test]
fn write_then_read_i32() {
    round_trip::<i32>(vec![i32::MIN, -1, 0, 1, 2, i32::MAX], 2);
}

#[test]
fn write_then_read_i64() {
    round_trip::<i64>(vec![i64::MIN, 0, i64::MAX], 3);
}

#[test]
fn write_then_read_f32() {
    let values: Vec<F32Bits> =
        [0.0f32, -0.0, 1.5, f32::MAX, f32::MIN_POSITIVE, f32::INFINITY, f32::NAN, -2.25]
            .iter()
            .map(|x| F32Bits(x.to_bits()))
            .collect();
    round_trip::<F32Bits>(values, 4);
}

#[test]
fn write_then_read_f64() {
    let values: Vec<F64Bits> =
        [0.0f64, 1.0e-300, -3.75, f64::MAX].iter().map(|x| F64Bits(x.to_bits())).collect();
    round_trip::<F64Bits>(values, 2);
}

#[test]
fn write_then_read_strings() {
    let mut store = Store::new();
    let written = ["left", "", "r\u{ef}ght", "up", "down", "\u{4e2d}"];
    let attr = StringAttr::new(name("names"), info(StorageType::String, 2, 3), node());
    let write = attr.set(0, &written).unwrap();
    assert_eq!(write.dropped, 0);
    assert!(matches!(store.call(&write.call), Answer::Code(0)));
    let handles = match store.call(&attr.get(0).unwrap()) {
        Answer::Handles(code, handles) => attr.read(code, handles).unwrap(),
        _ => panic!("no handles"),
    };
    assert_eq!(handles.len(), 6);
    let mut reply = Reply::Start;
    let strings = loop {
        match get_string_buffer(&handles, session(), reply).unwrap() {
            Step::Done(buffer) => break buffer.to_strings(),
            Step::Call(call) => reply = store.strings(&call),
        }
    };
    assert_eq!(strings, written);
}

#[test]
fn storage_of_every_primitive() {
    assert_eq!(<i8 as AttribType>::storage(), StorageType::Int8);
    assert_eq!(<u8 as AttribType>::storage(), StorageType::Uint8);
    assert_eq!(<i16 as AttribType>::storage(), StorageType::Int16);
    assert_eq!(<i32 as AttribType>::storage(), StorageType::Int);
    assert_eq!(<i64 as AttribType>::storage(), StorageType::Int64);
    assert_eq!(<F32Bits as AttribType>::storage(), StorageType::Float);
    assert_eq!(<F64Bits as AttribType>::storage(), StorageType::Float64);
}

#[test]
fn array_storage_of_every_primitive() {
    assert_eq!(array_storage(StorageType::Int8), StorageType::Int8Array);
    assert_eq!(array_storage(StorageType::Uint8), StorageType::Uint8Array);
    assert_eq!(array_storage(StorageType::Int16), StorageType::Int16Array);
    assert_eq!(array_storage(StorageType::Int), StorageType::Array);
    assert_eq!(array_storage(StorageType::Int64), StorageType::Int64Array);
    assert_eq!(array_storage(StorageType::Float), StorageType::FloatArray);
    assert_eq!(array_storage(StorageType::Float64), StorageType::Float64Array);
    assert_eq!(array_storage(StorageType::String), StorageType::StringArray);
    assert_eq!(array_storage(StorageType::Array), StorageType::Array);
    assert_eq!(array_storage(StorageType::Invalid), StorageType::Invalid);
}

#[test]
fn buffers_are_tagged() {
    let b = <i16 as AttribType>::pack(vec![1, 2, 3]);
    assert_eq!(b.storage_type(), StorageType::Int16);
    assert_eq!(b.length(), 3);
    assert_eq!(<i16 as AttribType>::unpack(b), Some(vec![1, 2, 3]));
    assert_eq!(<i32 as AttribType>::unpack(Buffer::Int16(vec![1])), None);
    assert_eq!(<u8 as AttribType>::unpack(Buffer::Int8(vec![1])), None);
    assert_eq!(<F32Bits as AttribType>::unpack(Buffer::Float64(vec![])), None);
}

#[test]
fn write_longer_than_capacity_is_cut() {
    let mut store = Store::new();
    let attr = NumericAttr::<i32>::new(name("P"), info(StorageType::Int, 3, 2), node());
    let write = attr.set(7, &[1, 2, 3, 4, 5, 6, 7, 8, 9, 10]);
    assert_eq!(write.dropped, 4);
    match &write.call {
        AttributeCall::SetData { part_id, data, start, length, info, name, session: s, node: n } => {
            assert_eq!(*part_id, 7);
            assert_eq!(*start, 0);
            assert_eq!(*length, 2);
            assert_eq!(data.length(), 6);
            assert_eq!(*info, attr.info);
            assert_eq!(name.as_bytes(), b"P");
            assert_eq!(*s, session());
            assert_eq!(*n, NodeHandle(3));
            match data {
                Buffer::Int(v) => assert_eq!(v, &vec![1, 2, 3, 4, 5, 6]),
                _ => panic!("wrong tag"),
            }
        }
        _ => panic!("wrong call"),
    }
    store.call(&write.call);
    assert_eq!(store.values_written, 6);
}

#[test]
fn write_of_a_partial_tuple_drops_it() {
    let attr = NumericAttr::<u8>::new(name("Cd"), info(StorageType::Uint8, 3, 4), node());
    let write = attr.set(0, &[1, 2, 3, 4, 5, 6, 7]);
    assert_eq!(write.dropped, 1);
    match write.call {
        AttributeCall::SetData { data: Buffer::Uint8(v), length, .. } => {
            assert_eq!(v, vec![1, 2, 3, 4, 5, 6]);
            assert_eq!(length, 2);
        }
        _ => panic!("wrong call"),
    }
}

#[test]
fn write_to_an_attribute_without_room_writes_nothing() {
    for (tuple_size, count) in [(0, 5), (5, 0), (-1, 5), (5, -1), (0, 0)] {
        let attr = NumericAttr::<i64>::new(name("x"), info(StorageType::Int64, tuple_size, count), node());
        let write = attr.set(0, &[1, 2, 3]);
        assert_eq!(write.dropped, 3);
        match write.call {
            AttributeCall::SetData { data, length, .. } => {
                assert_eq!(data.length(), 0);
                assert_eq!(length, 0);
            }
            _ => panic!("wrong call"),
        }
    }
}

#[test]
fn write_of_nothing_drops_nothing() {
    let attr = NumericAttr::<i32>::new(name("x"), info(StorageType::Int, 3, 2), node());
    let write = attr.set(0, &[]);
    assert_eq!(write.dropped, 0);
    assert!(matches!(write.call, AttributeCall::SetData { length: 0, .. }));
}

#[test]
fn read_asks_for_tuple_size_times_count() {
    let attr = NumericAttr::<F32Bits>::new(name("P"), info(StorageType::Float, 3, 4), node());
    match attr.get(2).unwrap() {
        AttributeCall::GetData { part_id, storage, stride, start, length, buffer_len, .. } => {
            assert_eq!(part_id, 2);
            assert_eq!(storage, StorageType::Float);
            assert_eq!(stride, -1);
            assert_eq!(start, 0);
            assert_eq!(length, 4);
            assert_eq!(buffer_len, 12);
        }
        _ => panic!("wrong call"),
    }
    let negative = NumericAttr::<i32>::new(name("n"), info(StorageType::Int, 3, -4), node());
    assert!(matches!(negative.get(0).unwrap(), AttributeCall::GetData { length: 0, buffer_len: 0, .. }));
}

#[test]
fn read_of_an_attribute_too_large_is_refused() {
    let attr = NumericAttr::<i8>::new(name("big"), info(StorageType::Int8, 65536, 65536), node());
    let e = attr.get(0).unwrap_err();
    assert_eq!(e.kind, Kind::Hapi(HapiResult::InvalidArgument));
    assert_eq!(e.message.as_deref(), Some("Attribute is larger than the engine can address"));
    let fits = NumericAttr::<i8>::new(name("fits"), info(StorageType::Int8, i32::MAX, 1), node());
    assert!(fits.get(0).is_ok());
}

#[test]
fn read_refuses_what_the_attribute_cannot_be() {
    let attr = NumericAttr::<i32>::new(name("a"), info(StorageType::Int, 2, 2), node());
    let e = attr.read(0, Buffer::Int16(vec![1, 2, 3, 4])).unwrap_err();
    assert_eq!(e.kind, Kind::Hapi(HapiResult::InvalidArgument));
    assert_eq!(e.message.as_deref(), Some("Buffer holds another storage type"));
    let e = attr.read(0, Buffer::Int(vec![1, 2, 3])).unwrap_err();
    assert_eq!(e.message.as_deref(), Some("Buffer length differs from tuple size times count"));
    let e = attr.read(0, Buffer::Int(vec![1, 2, 3, 4, 5])).unwrap_err();
    assert_eq!(e.message.as_deref(), Some("Buffer length differs from tuple size times count"));
    let e = attr.read(210, Buffer::Int(vec![1, 2, 3, 4])).unwrap_err();
    assert_eq!(e.kind, Kind::Hapi(HapiResult::NodeInvalid));
    assert_eq!(e.session, Some(session()));
    assert_eq!(attr.read(0, Buffer::Int(vec![1, 2, 3, 4])).unwrap(), vec![1, 2, 3, 4]);
}

#[test]
fn string_write_refuses_zero_bytes_before_any_call() {
    let store = Store::new();
    let attr = StringAttr::new(name("names"), info(StorageType::String, 1, 3), node());
    let e = attr.set(0, &["fine", "bro\0ken", "fine"]).unwrap_err();
    assert_eq!(e.kind, Kind::NullByte);
    // Even a value that would have been dropped fails the write.
    let e = attr.set(0, &["a", "b", "c", "d\0"]).unwrap_err();
    assert_eq!(e.kind, Kind::NullByte);
    assert_eq!(store.calls, 0);
}

#[test]
fn string_write_is_cut_to_whole_tuples() {
    let attr = StringAttr::new(name("names"), info(StorageType::String, 2, 2), node());
    let write = attr.set(1, &["a", "b", "c", "d", "e"]).unwrap();
    assert_eq!(write.dropped, 1);
    match write.call {
        AttributeCall::SetStringData { values, length, start, part_id, .. } => {
            let values: Vec<&[u8]> = values.iter().map(|v| v.as_bytes()).collect();
            assert_eq!(values, vec![b"a", b"b", b"c", b"d"]);
            assert_eq!(length, 2);
            assert_eq!(start, 0);
            assert_eq!(part_id, 1);
        }
        _ => panic!("wrong call"),
    }
}

#[test]
fn string_read_checks_the_number_of_handles() {
    let attr = StringAttr::new(name("names"), info(StorageType::String, 2, 2), node());
    assert!(matches!(attr.get(0).unwrap(), AttributeCall::GetStringData { length: 2, buffer_len: 4, .. }));
    assert_eq!(attr.read(0, vec![5, 6, 7, 8]).unwrap(), vec![5, 6, 7, 8]);
    let e = attr.read(0, vec![5, 6, 7]).unwrap_err();
    assert_eq!(e.message.as_deref(), Some("Buffer length differs from tuple size times count"));
    let e = attr.read(1, vec![5, 6, 7, 8]).unwrap_err();
    assert_eq!(e.kind, Kind::Hapi(HapiResult::Failure));
}

#[test]
fn to_native_keeps_every_text() {
    let texts = to_native(&["a", "", "bc"]).unwrap();
    let bytes: Vec<&[u8]> = texts.iter().map(|t| t.as_bytes()).collect();
    assert_eq!(bytes, vec![&b"a"[..], &b""[..], &b"bc"[..]]);
    assert_eq!(to_native(&["a", "\0"]).unwrap_err().kind, Kind::NullByte);
    assert!(to_native(&[]).unwrap().is_empty());
}

#[test]
fn array_of_sizes_2_0_3() {
    let array = DataArray::new_owned(vec![10, 11, 12, 13, 14], vec![2, 0, 3]).unwrap();
    assert_eq!(array.len(), 3);
    let mut it = array.iter();
    assert_eq!(it.next(), Some(&[10, 11][..]));
    assert_eq!(it.next(), Some(&[][..]));
    assert_eq!(it.next(), Some(&[12, 13, 14][..]));
    assert_eq!(it.next(), None);
    assert_eq!(it.next(), None);
    assert_eq!(array.get(0), Some(&[10, 11][..]));
    assert_eq!(array.get(1), Some(&[][..]));
    assert_eq!(array.get(2), Some(&[12, 13, 14][..]));
    assert_eq!(array.get(3), None);
}

#[test]
fn array_refuses_sizes_that_do_not_fit() {
    let cases: [(&[i32], &[i32]); 5] = [
        (&[1, 2, 3], &[2, 2]),
        (&[1, 2, 3], &[1, 1]),
        (&[1, 2, 3], &[4, -1]),
        (&[1, 2, 3], &[]),
        (&[], &[1]),
    ];
    for (data, sizes) in cases {
        let e = DataArray::new(data, sizes).unwrap_err();
        assert_eq!(e.kind, Kind::Hapi(HapiResult::InvalidArgument));
        assert_eq!(e.message.as_deref(), Some("Sizes do not add up to the number of values"));
        assert!(!check_sizes(sizes, data.len()));
    }
    assert!(check_sizes(&[], 0));
    assert!(check_sizes(&[0, 0], 0));
    assert!(check_sizes(&[i32::MAX, i32::MAX], 2 * (i32::MAX as usize)));
    assert!(!check_sizes(&[i32::MAX, i32::MAX], 7));
}

#[test]
fn array_of_nothing() {
    let array = DataArray::<f64>::new_owned(Vec::new(), Vec::new()).unwrap();
    assert_eq!(array.len(), 0);
    assert_eq!(array.iter().next(), None);
    let empties = DataArray::<u8>::new(&[], &[0, 0, 0]).unwrap();
    let mut it = empties.iter_values();
    assert_eq!(it.next(), Some(&[][..]));
    assert_eq!(it.next(), Some(&[][..]));
    assert_eq!(it.next(), Some(&[][..]));
    assert_eq!(it.next(), None);
}

#[test]
fn array_keeps_data_and_sizes() {
    let mut array = DataArray::new(&[1.5f32, 2.5, 3.5], &[1, 2]).unwrap();
    assert_eq!(array.data(), &[1.5, 2.5, 3.5]);
    assert_eq!(array.sizes(), &[1, 2]);
    array.set(1, 9.0);
    assert_eq!(array.data(), &[1.5, 9.0, 3.5]);
    assert_eq!(array.sizes(), &[1, 2]);
    assert_eq!(array.get(1), Some(&[9.0, 3.5][..]));
}

#[test]
fn array_attribute_round_trip() {
    let mut store = Store::new();
    let mut i = info(StorageType::Array, 1, 3);
    i.total_array_elements = 5;
    let attr = NumericArrayAttr::<i32>::new(name("arr"), i, node());
    let array = DataArray::new_owned(vec![10, 11, 12, 13, 14], vec![2, 0, 3]).unwrap();
    store.call(&attr.set(0, &array));
    match attr.get(0).unwrap() {
        AttributeCall::GetArrayData { storage, data_len, sizes_len, .. } => {
            assert_eq!(storage, StorageType::Array);
            assert_eq!(data_len, 5);
            assert_eq!(sizes_len, 3);
        }
        _ => panic!("wrong call"),
    }
    match store.call(&attr.get(0).unwrap()) {
        Answer::Array(code, data, sizes) => {
            let back = attr.read(code, data, sizes).unwrap();
            assert_eq!(back.data(), array.data());
            assert_eq!(back.sizes(), array.sizes());
        }
        _ => panic!("no array"),
    }
}

#[test]
fn array_attribute_read_refuses_bad_answers() {
    let attr = NumericArrayAttr::<i32>::new(name("arr"), info(StorageType::Array, 1, 2), node());
    let e = attr.read(0, Buffer::Int(vec![1, 2, 3]), vec![1, 1]).unwrap_err();
    assert_eq!(e.message.as_deref(), Some("Sizes do not add up to the number of values"));
    let e = attr.read(0, Buffer::Float(vec![]), vec![]).unwrap_err();
    assert_eq!(e.message.as_deref(), Some("Buffer holds another storage type"));
    let e = attr.read(5, Buffer::Int(vec![1, 2]), vec![1, 1]).unwrap_err();
    assert_eq!(e.kind, Kind::Hapi(HapiResult::ParmSetFailed));
    let mut big = info(StorageType::Array, 1, 2);
    big.total_array_elements = i32::MAX as i64 + 1;
    let attr = NumericArrayAttr::<i32>::new(name("arr"), big, node());
    assert_eq!(attr.get(0).unwrap_err().kind, Kind::Hapi(HapiResult::InvalidArgument));
}

#[test]
fn string_array_walks_handles_by_element() {
    let array = StringMultiArray::new(vec![7, 8, 9, 10, 11], vec![2, 0, 3], session()).unwrap();
    assert_eq!(array.handles(), &[7, 8, 9, 10, 11]);
    assert_eq!(array.sizes(), &[2, 0, 3]);
    assert_eq!(array.session(), session());
    let mut it = array.iter();
    assert_eq!(it.session(), session());
    assert_eq!(it.next(), Some(&[7, 8][..]));
    assert_eq!(it.next(), Some(&[][..]));
    assert_eq!(it.next(), Some(&[9, 10, 11][..]));
    assert_eq!(it.next(), None);
    let e = StringMultiArray::new(vec![7, 8], vec![3], session()).unwrap_err();
    assert_eq!(e.kind, Kind::Hapi(HapiResult::InvalidArgument));
}

#[test]
fn string_array_attribute() {
    let mut i = info(StorageType::StringArray, 1, 2);
    i.total_array_elements = 3;
    let attr = StringArrayAttr::new(name("tags"), i, node());
    assert!(matches!(
        attr.get(0).unwrap(),
        AttributeCall::GetStringArrayData { data_len: 3, sizes_len: 2, .. }
    ));
    let array = attr.read(0, vec![1, 2, 3], vec![1, 2]).unwrap();
    assert_eq!(array.iter().next(), Some(&[1][..]));
    assert!(attr.read(0, vec![1, 2, 3], vec![1, 1]).is_err());
    assert_eq!(attr.read(400, vec![], vec![]).unwrap_err().kind, Kind::Hapi(HapiResult::InvalidSession));

    match attr.set(0, &["a", "b", "c"], &[1, 2]).unwrap() {
        AttributeCall::SetStringArrayData { values, sizes, .. } => {
            assert_eq!(values.len(), 3);
            assert_eq!(values[2].as_bytes(), b"c");
            assert_eq!(sizes, vec![1, 2]);
        }
        _ => panic!("wrong call"),
    }
    assert_eq!(attr.set(0, &["a", "\0", "c"], &[1, 2]).unwrap_err().kind, Kind::NullByte);
    assert_eq!(attr.set(0, &["a", "\0", "c"], &[9]).unwrap_err().kind, Kind::NullByte);
    let e = attr.set(0, &["a", "b", "c"], &[1, 1]).unwrap_err();
    assert_eq!(e.kind, Kind::Hapi(HapiResult::InvalidArgument));
}

#[test]
fn attributes_describe_themselves() {
    let numeric = NumericAttr::<i16>::new(name("n"), info(StorageType::Int16, 1, 1), node());
    assert_eq!(numeric.storage(), StorageType::Int16);
    assert_eq!(numeric.name(), "n");
    assert_eq!(numeric.info().count, 1);
    let array = NumericArrayAttr::<F64Bits>::new(name("arr"), info(StorageType::Float64Array, 1, 1), node());
    assert_eq!(array.storage(), StorageType::Float64Array);
    assert_eq!(array.name(), "arr");
    let string = StringAttr::new(name("s"), info(StorageType::String, 1, 1), node());
    assert_eq!(string.storage(), StorageType::String);
    let strings = StringArrayAttr::new(name("ss"), info(StorageType::StringArray, 1, 1), node());
    assert_eq!(strings.storage(), StorageType::StringArray);
    assert_eq!(strings.name(), "ss");
    assert_eq!(strings.info().tuple_size, 1);
}

#[test]
fn attribute_case_follows_the_declared_storage() {
    let all = [
        StorageType::Int,
        StorageType::Int64,
        StorageType::Float,
        StorageType::Float64,
        StorageType::String,
        StorageType::Uint8,
        StorageType::Int8,
        StorageType::Int16,
        StorageType::Array,
        StorageType::Int64Array,
        StorageType::FloatArray,
        StorageType::Float64Array,
        StorageType::StringArray,
        StorageType::Uint8Array,
        StorageType::Int8Array,
        StorageType::Int16Array,
    ];
    for storage in all {
        let i = info(storage, 2, 5);
        let attr = Attribute::new(name("any"), i, node()).unwrap();
        assert_eq!(attr.storage(), storage);
        assert_eq!(*attr.info(), i);
        assert_eq!(attr.name(), "any");
    }
    assert!(Attribute::new(name("none"), info(StorageType::Invalid, 1, 1), node()).is_none());
    assert!(matches!(
        Attribute::new(name("f"), info(StorageType::Float, 3, 1), node()),
        Some(Attribute::Float(_))
    ));
    assert!(matches!(
        Attribute::new(name("f"), info(StorageType::Int64Array, 3, 1), node()),
        Some(Attribute::Int64Array(_))
    ));
}

#[test]
fn attribute_that_does_not_exist_is_none() {
    let mut i = info(StorageType::Float, 3, 1);
    assert!(Attribute::found(name("nope"), node(), 0, i).unwrap().is_none());
    i.exists = true;
    assert!(Attribute::found(name("Cd"), node(), 0, i).unwrap().is_some());
    let e = Attribute::found(name("Cd"), node(), 210, i).unwrap_err();
    assert_eq!(e.kind, Kind::Hapi(HapiResult::NodeInvalid));
    i.storage = StorageType::Invalid;
    assert!(Attribute::found(name("Cd"), node(), 0, i).unwrap().is_none());
}

#[test]
fn capacity_is_tuple_size_times_count() {
    assert_eq!(capacity(3, 4), Some(12));
    assert_eq!(capacity(0, 4), Some(0));
    assert_eq!(capacity(-3, 4), Some(0));
    assert_eq!(capacity(3, -4), Some(0));
    assert_eq!(capacity(1, i32::MAX), Some(i32::MAX as usize));
    assert_eq!(capacity(2, i32::MAX), None);
    assert_eq!(capacity(i32::MAX, i32::MAX), None);
    assert_eq!(info(StorageType::Int, 3, 4).capacity(), Some(12));
    assert_eq!(room_of(-1), 0);
    assert_eq!(room_of(0), 0);
    assert_eq!(room_of(9), 9);
}

#[test]
fn clamp_drops_the_excess_and_counts_it() {
    let c = clamp(vec![1, 2, 3, 4, 5], 3);
    assert_eq!(c.kept, vec![1, 2, 3]);
    assert_eq!(c.dropped, 2);
    let c = clamp(vec![1, 2, 3], 3);
    assert_eq!(c.kept, vec![1, 2, 3]);
    assert_eq!(c.dropped, 0);
    let c = clamp(vec![1, 2], 3);
    assert_eq!(c.kept, vec![1, 2]);
    assert_eq!(c.dropped, 0);
    let c = clamp(vec!["a", "b"], 0);
    assert!(c.kept.is_empty());
    assert_eq!(c.dropped, 2);
    let c = clamp(Vec::<u8>::new(), 0);
    assert_eq!(c.dropped, 0);
}

#[test]
fn keep_keeps_what_was_asked_for() {
    assert_eq!(keep(vec![1, 2, 3], 2), vec![1, 2]);
    assert_eq!(keep(vec![1, 2, 3], 3), vec![1, 2, 3]);
    assert_eq!(keep(vec![1, 2, 3], 9), vec![1, 2, 3]);
    assert_eq!(keep(vec![1, 2, 3], 0), Vec::<i32>::new());
    assert_eq!(keep(vec![1, 2, 3], -1), Vec::<i32>::new());
}

/// A stand-in for the whole engine, as far as a triangle needs it.
struct World {
    store: Store,
    log: Vec<&'static str>,
    part: Option<PartInfo>,
    cooked: bool,
}

impl World {
    fn new() -> World {
        World { store: Store::new(), log: Vec::new(), part: None, cooked: false }
    }

    fn node(&mut self, call: &NodeCall) -> (i32, i32) {
        match call {
            NodeCall::CreateInputNode { .. } => {
                self.log.push("create_input_node");
                (0, 11)
            }
            NodeCall::CookNode { .. } => {
                self.log.push("cook");
                self.cooked = true;
                (0, 0)
            }
            _ => panic!("call not modelled"),
        }
    }

    fn geometry(&mut self, call: &GeometryCall) -> i32 {
        match call {
            GeometryCall::SetPartInfo { info, .. } => {
                self.log.push("set_part_info");
                self.part = Some(*info);
                0
            }
            GeometryCall::SetVertexList { list, length, .. } => {
                self.log.push("set_vertex_list");
                assert_eq!(list.len(), *length as usize);
                0
            }
            GeometryCall::SetFaceCounts { counts, length, .. } => {
                self.log.push("set_face_counts");
                assert_eq!(counts.len(), *length as usize);
                0
            }
            GeometryCall::CommitGeo { .. } => {
                self.log.push("commit");
                0
            }
            _ => panic!("call not modelled"),
        }
    }
}

fn expect(code: i32, what: &str) {
    if let Err(e) = hapi_rs::errors::translate(code, Some(session()), None) {
        panic!("{}: {}", what, e.render(None));
    }
}

fn cook_blocking(world: &mut World, session: &Session, node: &HoudiniNode) -> Result<CookResult, HapiError> {
    let (code, _) = world.node(&node.cook(None));
    hapi_rs::errors::translate(code, Some(session.ptr()), None)?;
    let mut observed = None;
    loop {
        match session.cook_result(observed) {
            CookStep::Done(result) => return Ok(result),
            CookStep::Poll => {
                let _ = session.get_status(StatusType::CookState)?;
                observed = Some(if world.cooked { State::Ready } else { State::Cooking });
            }
            CookStep::Interrupt => return session.cook_interrupted(0),
        }
    }
}

#[test]
fn geometry_triangle() {
    let mut world = World::new();
    let mut session = Session::connect(SessionKind::InProcess, 0, 1).unwrap();
    let _ = session.initialize(SessionOptions::default()).unwrap();
    session.initialize_reply(0).unwrap();

    let call = session.create_input_node("test").expect("input node");
    let (code, id) = world.node(&call);
    let node = HoudiniNode::created(session.ptr(), code, id).expect("input node");
    let geo_info = GeoInfo {
        node_id: node.handle,
        name_sh: StringHandle(0),
        is_editable: true,
        is_templated: false,
        is_display_geo: true,
        has_geo_changed: false,
        has_material_changed: false,
        point_group_count: 0,
        primitive_group_count: 0,
        part_count: 1,
    };
    let geo = Geometry::new(node, geo_info);

    let part = PartInfo::default()
        .with_part_type(PartType::Mesh)
        .with_face_count(1)
        .with_point_count(3)
        .with_vertex_count(3);
    expect(world.geometry(&geo.set_part_info(&part)), "part_info");
    let info = AttributeInfo::default()
        .with_count(part.point_count())
        .with_tuple_size(3)
        .with_owner(AttributeOwner::Point)
        .with_storage(StorageType::Float);
    let add = geo.add_attribute("P", part.part_id(), &info).unwrap();
    assert!(matches!(world.store.call(&add), Answer::Code(0)));
    let attr_p = NumericAttr::<F32Bits>::new(NativeString::new("P").unwrap(), info, node);
    let positions: Vec<F32Bits> = [0.0f32, 0.0, 0.0, 0.0, 1.0, 0.0, 1.0, 0.0, 0.0]
        .iter()
        .map(|x| F32Bits(x.to_bits()))
        .collect();
    let write = attr_p.set(part.part_id(), &positions);
    assert_eq!(write.dropped, 0);
    assert!(matches!(world.store.call(&write.call), Answer::Code(0)));
    expect(world.geometry(&geo.set_vertex_list(0, &[0, 1, 2]).unwrap()), "vertex list");
    expect(world.geometry(&geo.set_face_counts(0, &[3]).unwrap()), "face counts");
    expect(world.geometry(&geo.commit()), "commit");

    assert_eq!(cook_blocking(&mut world, &session, &node).expect("cook"), CookResult::Succeeded);

    let val: Vec<_> = match world.store.call(&attr_p.get(part.part_id()).unwrap()) {
        Answer::Data(code, buffer) => attr_p.read(code, buffer).expect("read_attribute"),
        _ => panic!("read_attribute"),
    };
    assert_eq!(val.len(), 9);
    assert_eq!(val, positions);
    assert_eq!(
        world.log,
        vec!["create_input_node", "set_part_info", "set_vertex_list", "set_face_counts", "commit", "cook"]
    );
    let _ = StringBuffer::new(Vec::new());
}
