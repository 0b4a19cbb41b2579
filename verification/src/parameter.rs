//! Parameters of a node. Their values live in three flat arrays that all
//! parameters of the node share (integers, floats, strings); a parameter's
//! metadata says where its values begin in the array of its type and how
//! many they are.

use crate::errors::{ErrorModel, HapiError, HapiResult, Kind};
use crate::marshal::{clamp, fitting, room, room_of, Clamped, F32Bits};
use crate::node::{HoudiniNode, NodeHandle, StringHandle};
use crate::session::NativeSession;
use crate::text::{has_nul, NativeString};
use vstd::prelude::*;
use vstd::utf8::encode_utf8;

verus! {

/// The engine's identifier of a parameter.
#[derive(Debug, Clone, Copy, PartialEq, Eq, Structural)]
pub struct ParmHandle(pub i32);

/// The type of a parameter, as far as this layer tells types apart.
#[derive(Debug, Clone, Copy, PartialEq, Eq, Structural)]
pub enum ParmType {
    Int,
    Multiparmlist,
    Toggle,
    Button,
    Float,
    Color,
    String,
    PathFile,
    PathFileGeo,
    PathFileImage,
    Node,
    Folderlist,
    FolderlistRadio,
    Folder,
    Label,
    Separator,
    PathFileDir,
}

/// The metadata of one parameter.
#[derive(Debug, Clone, Copy, PartialEq, Eq, Structural)]
pub struct ParmInfo {
    pub id: ParmHandle,
    pub parent_id: ParmHandle,
    pub child_index: i32,
    pub parm_type: ParmType,
    /// The number of values of the parameter (its tuple size).
    pub size: i32,
    pub choice_count: i32,
    pub int_values_index: i32,
    pub float_values_index: i32,
    pub string_values_index: i32,
    pub choice_index: i32,
    pub invisible: bool,
    pub disabled: bool,
    pub name_sh: StringHandle,
    pub label_sh: StringHandle,
    pub help_sh: StringHandle,
}

/// A native call about parameters. `start` and `length` address a range of
/// one of the node's flat value arrays.
#[derive(Debug)]
#[allow(inconsistent_fields)]
pub enum ParmCall {
    GetParmIdFromName { session: NativeSession, node: NodeHandle, name: NativeString },
    GetParmInfo { session: NativeSession, node: NodeHandle, parm: ParmHandle },
    GetParmInfoFromName { session: NativeSession, node: NodeHandle, name: NativeString },
    GetParmIntValue { session: NativeSession, node: NodeHandle, name: NativeString, index: i32 },
    GetParmFloatValue { session: NativeSession, node: NodeHandle, name: NativeString, index: i32 },
    GetParmStringValue {
        session: NativeSession,
        node: NodeHandle,
        name: NativeString,
        index: i32,
        evaluate: bool,
    },
    GetParmIntValues { session: NativeSession, node: NodeHandle, start: i32, length: i32 },
    GetParmFloatValues { session: NativeSession, node: NodeHandle, start: i32, length: i32 },
    GetParmStringValues {
        session: NativeSession,
        node: NodeHandle,
        evaluate: bool,
        start: i32,
        length: i32,
    },
    SetParmIntValues {
        session: NativeSession,
        node: NodeHandle,
        values: Vec<i32>,
        start: i32,
        length: i32,
    },
    SetParmFloatValues {
        session: NativeSession,
        node: NodeHandle,
        values: Vec<F32Bits>,
        start: i32,
        length: i32,
    },
    SetParmStringValue {
        session: NativeSession,
        node: NodeHandle,
        value: NativeString,
        parm: ParmHandle,
        index: i32,
    },
}

/// The value of a parameter, shaped by the number of its components.
#[derive(Debug)]
pub enum ParmValue<T> {
    Single(T),
    Tuple2((T, T)),
    Tuple3((T, T, T)),
    Tuple4((T, T, T, T)),
    Array(Vec<T>),
}

/// The components of a value, in order.
pub open spec fn flat<T>(value: ParmValue<T>) -> Seq<T> {
    match value {
        ParmValue::Single(a) => seq![a],
        ParmValue::Tuple2((a, b)) => seq![a, b],
        ParmValue::Tuple3((a, b, c)) => seq![a, b, c],
        ParmValue::Tuple4((a, b, c, d)) => seq![a, b, c, d],
        ParmValue::Array(v) => v@,
    }
}

/// Whether a value has the shape that goes with the number of its
/// components: a single value, a tuple of two to four, else an array.
pub open spec fn shaped<T>(value: ParmValue<T>) -> bool {
    match value {
        ParmValue::Array(v) => v@.len() == 0 || v@.len() > 4,
        _ => true,
    }
}

impl<T> ParmValue<T> {
    /// The components of the value as one flat list.
    pub fn into_vec(self) -> (values: Vec<T>)
        ensures
            values@ == flat(self),
    {
        match self {
            ParmValue::Single(a) => vec![a],
            ParmValue::Tuple2((a, b)) => vec![a, b],
            ParmValue::Tuple3((a, b, c)) => vec![a, b, c],
            ParmValue::Tuple4((a, b, c, d)) => vec![a, b, c, d],
            ParmValue::Array(v) => v,
        }
    }

    /// Shapes a flat list of components: one is a single value, two to four
    /// are a tuple, any other number stays an array.
    pub fn from_vec(values: Vec<T>) -> (value: ParmValue<T>)
        ensures
            flat(value) == values@,
            shaped(value),
    {
        let mut values = values;
        let n = values.len();
        if n == 1 {
            let ghost all = values@;
            let a = values.pop().unwrap();
            proof {
                assert(seq![a] =~= all);
            }
            ParmValue::Single(a)
        } else if n == 2 {
            let ghost all = values@;
            let b = values.pop().unwrap();
            let a = values.pop().unwrap();
            proof {
                assert(seq![a, b] =~= all);
            }
            ParmValue::Tuple2((a, b))
        } else if n == 3 {
            let ghost all = values@;
            let c = values.pop().unwrap();
            let b = values.pop().unwrap();
            let a = values.pop().unwrap();
            proof {
                assert(seq![a, b, c] =~= all);
            }
            ParmValue::Tuple3((a, b, c))
        } else if n == 4 {
            let ghost all = values@;
            let d = values.pop().unwrap();
            let c = values.pop().unwrap();
            let b = values.pop().unwrap();
            let a = values.pop().unwrap();
            proof {
                assert(seq![a, b, c, d] =~= all);
            }
            ParmValue::Tuple4((a, b, c, d))
        } else {
            ParmValue::Array(values)
        }
    }
}

/// Flattening a value and shaping the list again gives a value with the same
/// components; for a value in its proper shape it is the same value up to
/// the array's contents.
pub proof fn lemma_shape_of_flat<T>(value: ParmValue<T>, again: ParmValue<T>)
    requires
        shaped(value),
        shaped(again),
        flat(again) == flat(value),
    ensures
        value is Single <==> again is Single,
        value is Tuple2 <==> again is Tuple2,
        value is Tuple3 <==> again is Tuple3,
        value is Tuple4 <==> again is Tuple4,
        value is Array <==> again is Array,
        !(value is Array) ==> again == value,
{
    let f = flat(value);
    match value {
        ParmValue::Single(a) => {
            assert(f.len() == 1);
            assert(f[0] == a);
        },
        ParmValue::Tuple2((a, b)) => {
            assert(f.len() == 2);
            assert(f[0] == a && f[1] == b);
        },
        ParmValue::Tuple3((a, b, c)) => {
            assert(f.len() == 3);
            assert(f[0] == a && f[1] == b && f[2] == c);
        },
        ParmValue::Tuple4((a, b, c, d)) => {
            assert(f.len() == 4);
            assert(f[0] == a && f[1] == b && f[2] == c && f[3] == d);
        },
        ParmValue::Array(v) => {},
    }
    let g = flat(again);
    match again {
        ParmValue::Single(a) => {
            assert(g.len() == 1);
            assert(g[0] == a);
        },
        ParmValue::Tuple2((a, b)) => {
            assert(g.len() == 2);
            assert(g[0] == a && g[1] == b);
        },
        ParmValue::Tuple3((a, b, c)) => {
            assert(g.len() == 3);
            assert(g[0] == a && g[1] == b && g[2] == c);
        },
        ParmValue::Tuple4((a, b, c, d)) => {
            assert(g.len() == 4);
            assert(g[0] == a && g[1] == b && g[2] == c && g[3] == d);
        },
        ParmValue::Array(v) => {},
    }
}

/// What all parameters have: the metadata, the node, and the name where it
/// is known without asking the engine.
#[derive(Debug)]
pub struct ParameterBase {
    pub info: ParmInfo,
    pub node: HoudiniNode,
    pub name: Option<NativeString>,
}

#[derive(Debug)]
pub struct FloatParameter {
    pub base: ParameterBase,
}

#[derive(Debug)]
pub struct IntParameter {
    pub base: ParameterBase,
}

#[derive(Debug)]
pub struct StringParameter {
    pub base: ParameterBase,
}

/// A parameter by the type of its values.
#[derive(Debug)]
pub enum Parameter {
    Float(FloatParameter),
    Int(IntParameter),
    String(StringParameter),
    Other,
}

/// A write of numeric values: the call, and the number of values that did
/// not fit the parameter and were dropped.
#[derive(Debug)]
pub struct ParmWrite {
    pub call: ParmCall,
    pub dropped: usize,
}

/// A write of string values: one call per component, in order, and the
/// number of values that did not fit the parameter and were dropped.
#[derive(Debug)]
pub struct StringWrite {
    pub calls: Vec<ParmCall>,
    pub dropped: usize,
}

/// Where the values of a parameter lie in a flat array of `len` values, if
/// they lie within it: the first index and the one after the last.
pub open spec fn values_span(index: int, size: int, len: nat) -> Option<(int, int)> {
    if 0 <= index && 0 <= size && index + size <= len {
        Some((index, index + size))
    } else {
        None
    }
}

/// Locates the values of a parameter in a flat array of `len` values.
/// `None` where the metadata points outside the array.
pub fn locate(index: i32, size: i32, len: usize) -> (span: Option<(usize, usize)>)
    ensures
        span is Some <==> values_span(index as int, size as int, len as nat) is Some,
        span matches Some((start, end)) ==> values_span(index as int, size as int, len as nat)
            == Some((start as int, end as int)),
{
    if index < 0 || size < 0 {
        return None;
    }
    let start = index as usize;
    let count = size as usize;
    if start > len || count > len - start {
        return None;
    }
    Some((start, start + count))
}

impl ParmHandle {
    /// The call that looks a parameter up by name, or `NullByte` if the name
    /// holds a zero byte.
    pub fn from_name(name: &str, node: &HoudiniNode) -> (r: Result<ParmCall, HapiError>)
        ensures
            r is Err <==> has_nul(encode_utf8(name@)),
            r matches Err(e) ==> e@ == (ErrorModel {
                kind: Kind::NullByte,
                message: None,
                session: None,
            }),
            r is Ok ==> (r matches Ok(ParmCall::GetParmIdFromName { session, node: n, name: text })
                && session == node.session && n == node.handle && text@ == encode_utf8(name@)),
    {
        match NativeString::new(name) {
            Ok(text) => Ok(
                ParmCall::GetParmIdFromName { session: node.session, node: node.handle, name: text },
            ),
            Err(e) => Err(e),
        }
    }

    /// The call that fetches the metadata of this parameter.
    pub fn info(&self, node: &HoudiniNode) -> (call: ParmCall)
        ensures
            call matches ParmCall::GetParmInfo { session, node: n, parm } && session == node.session
                && n == node.handle && parm == *self,
    {
        ParmCall::GetParmInfo { session: node.session, node: node.handle, parm: *self }
    }
}

impl ParmInfo {
    /// The call that fetches the metadata of the parameter of that name.
    pub fn from_name(name: &NativeString, node: &HoudiniNode) -> (call: ParmCall)
        ensures
            call matches ParmCall::GetParmInfoFromName { session, node: n, name: text } && session
                == node.session && n == node.handle && text@ == name@,
    {
        ParmCall::GetParmInfoFromName {
            session: node.session,
            node: node.handle,
            name: name.duplicate(),
        }
    }

    pub fn id(&self) -> (id: ParmHandle)
        ensures
            id == self.id,
    {
        self.id
    }

    pub fn parm_type(&self) -> (t: ParmType)
        ensures
            t == self.parm_type,
    {
        self.parm_type
    }

    pub fn size(&self) -> (n: i32)
        ensures
            n == self.size,
    {
        self.size
    }

    pub fn int_values_index(&self) -> (i: i32)
        ensures
            i == self.int_values_index,
    {
        self.int_values_index
    }

    pub fn float_values_index(&self) -> (i: i32)
        ensures
            i == self.float_values_index,
    {
        self.float_values_index
    }

    pub fn string_values_index(&self) -> (i: i32)
        ensures
            i == self.string_values_index,
    {
        self.string_values_index
    }

    /// The handle of the parameter's name in the engine's string table.
    pub fn name(&self) -> (h: StringHandle)
        ensures
            h == self.name_sh,
    {
        self.name_sh
    }

    /// The handle of the parameter's label in the engine's string table.
    pub fn label(&self) -> (h: StringHandle)
        ensures
            h == self.label_sh,
    {
        self.label_sh
    }
}

impl Parameter {
    /// The parameter for a node's metadata: typed where its values are
    /// integers, floats or strings.
    pub fn new(node: HoudiniNode, info: ParmInfo, name: Option<NativeString>) -> (p: Parameter)
        ensures
            match info.parm_type {
                ParmType::Int => p matches Parameter::Int(q) && q.base.info == info && q.base.node
                    == node && q.base.name == name,
                ParmType::Float => p matches Parameter::Float(q) && q.base.info == info
                    && q.base.node == node && q.base.name == name,
                ParmType::String => p matches Parameter::String(q) && q.base.info == info
                    && q.base.node == node && q.base.name == name,
                _ => p is Other,
            },
    {
        let base = ParameterBase { info, name, node };
        match base.info.parm_type() {
            ParmType::Int => Parameter::Int(IntParameter { base }),
            ParmType::Float => Parameter::Float(FloatParameter { base }),
            ParmType::String => Parameter::String(StringParameter { base }),
            _ => Parameter::Other,
        }
    }
}

impl ParameterBase {
    /// The name of the parameter where it is known, else the handle under
    /// which the engine's string table holds it.
    pub fn c_name(&self) -> (r: Result<NativeString, StringHandle>)
        ensures
            match self.name {
                Some(n) => r matches Ok(text) && text@ == n@,
                None => r == Err::<NativeString, StringHandle>(self.info.name_sh),
            },
    {
        match &self.name {
            Some(n) => Ok(n.duplicate()),
            None => Err(self.info.name_sh),
        }
    }

    /// The name of the parameter as text, where it is known.
    pub fn name(&self) -> (r: Result<String, StringHandle>)
        ensures
            match self.name {
                Some(n) => r matches Ok(text) && text@ == crate::text::text_of(n@),
                None => r == Err::<String, StringHandle>(self.info.name_sh),
            },
    {
        match &self.name {
            Some(n) => Ok(n.to_string_lossy()),
            None => Err(self.info.name_sh),
        }
    }

    /// Shapes the values that the engine handed back for this parameter.
    /// They are refused where their number is not the parameter's size.
    pub fn get_value<T>(&self, values: Vec<T>) -> (r: Result<ParmValue<T>, HapiError>)
        ensures
            r is Ok <==> values@.len() == self.info.size,
            r matches Ok(v) ==> flat(v) == values@ && shaped(v),
            r matches Err(e) ==> e@ == (ErrorModel {
                kind: Kind::Hapi(HapiResult::InvalidArgument),
                message: Some("Number of values differs from the parameter's size"@),
                session: None,
            }),
    {
        if self.info.size < 0 || values.len() != self.info.size as usize {
            Err(
                HapiError::local(
                    HapiResult::InvalidArgument,
                    "Number of values differs from the parameter's size",
                ),
            )
        } else {
            Ok(ParmValue::from_vec(values))
        }
    }
}

impl FloatParameter {
    pub fn base(&self) -> (b: &ParameterBase)
        ensures
            *b == self.base,
    {
        &self.base
    }

    /// Where this parameter's values begin in the node's float values.
    pub fn array_index(&self) -> (i: i32)
        ensures
            i == self.base.info.float_values_index,
    {
        self.base.info.float_values_index
    }

    /// The call that fetches all values of this parameter.
    pub fn values_array(&self) -> (call: ParmCall)
        ensures
            call matches ParmCall::GetParmFloatValues { session, node, start, length } && session
                == self.base.node.session && node == self.base.node.handle && start
                == self.base.info.float_values_index && length == room(self.base.info.size as int),
    {
        ParmCall::GetParmFloatValues {
            session: self.base.node.session,
            node: self.base.node.handle,
            start: self.base.info.float_values_index,
            length: non_negative(self.base.info.size),
        }
    }

    /// The call that fetches the first value of this parameter by name.
    pub fn single_value(&self, name: &NativeString) -> (call: ParmCall)
        ensures
            call matches ParmCall::GetParmFloatValue { session, node, name: text, index } && session
                == self.base.node.session && node == self.base.node.handle && text@ == name@
                && index == 0,
    {
        ParmCall::GetParmFloatValue {
            session: self.base.node.session,
            node: self.base.node.handle,
            name: name.duplicate(),
            index: 0,
        }
    }

    /// The call that writes `val` to this parameter. Values beyond the
    /// parameter's size are dropped and counted.
    pub fn set_value(&self, val: ParmValue<F32Bits>) -> (w: ParmWrite)
        ensures
            w.call matches ParmCall::SetParmFloatValues { session, node, values, start, length }
                && session == self.base.node.session && node == self.base.node.handle && start
                == self.base.info.float_values_index && length == values@.len() && values@ == flat(
                val,
            ).take(fitting(flat(val).len(), room(self.base.info.size as int)) as int),
            w.dropped == flat(val).len() - fitting(
                flat(val).len(),
                room(self.base.info.size as int),
            ),
    {
        let Clamped { kept, dropped } = clamp(val.into_vec(), room_of(self.base.info.size));
        let length = kept.len() as i32;
        ParmWrite {
            call: ParmCall::SetParmFloatValues {
                session: self.base.node.session,
                node: self.base.node.handle,
                values: kept,
                start: self.base.info.float_values_index,
                length,
            },
            dropped,
        }
    }
}

impl IntParameter {
    pub fn base(&self) -> (b: &ParameterBase)
        ensures
            *b == self.base,
    {
        &self.base
    }

    /// Where this parameter's values begin in the node's integer values.
    pub fn array_index(&self) -> (i: i32)
        ensures
            i == self.base.info.int_values_index,
    {
        self.base.info.int_values_index
    }

    /// The call that fetches all values of this parameter.
    pub fn values_array(&self) -> (call: ParmCall)
        ensures
            call matches ParmCall::GetParmIntValues { session, node, start, length } && session
                == self.base.node.session && node == self.base.node.handle && start
                == self.base.info.int_values_index && length == room(self.base.info.size as int),
    {
        ParmCall::GetParmIntValues {
            session: self.base.node.session,
            node: self.base.node.handle,
            start: self.base.info.int_values_index,
            length: non_negative(self.base.info.size),
        }
    }

    /// The call that fetches the first value of this parameter by name.
    pub fn single_value(&self, name: &NativeString) -> (call: ParmCall)
        ensures
            call matches ParmCall::GetParmIntValue { session, node, name: text, index } && session
                == self.base.node.session && node == self.base.node.handle && text@ == name@
                && index == 0,
    {
        ParmCall::GetParmIntValue {
            session: self.base.node.session,
            node: self.base.node.handle,
            name: name.duplicate(),
            index: 0,
        }
    }

    /// The call that writes `val` to this parameter. Values beyond the
    /// parameter's size are dropped and counted.
    pub fn set_value(&self, val: ParmValue<i32>) -> (w: ParmWrite)
        ensures
            w.call matches ParmCall::SetParmIntValues { session, node, values, start, length }
                && session == self.base.node.session && node == self.base.node.handle && start
                == self.base.info.int_values_index && length == values@.len() && values@ == flat(
                val,
            ).take(fitting(flat(val).len(), room(self.base.info.size as int)) as int),
            w.dropped == flat(val).len() - fitting(
                flat(val).len(),
                room(self.base.info.size as int),
            ),
    {
        let Clamped { kept, dropped } = clamp(val.into_vec(), room_of(self.base.info.size));
        let length = kept.len() as i32;
        ParmWrite {
            call: ParmCall::SetParmIntValues {
                session: self.base.node.session,
                node: self.base.node.handle,
                values: kept,
                start: self.base.info.int_values_index,
                length,
            },
            dropped,
        }
    }
}

/// A size as a length for the engine: zero where it is negative.
pub fn non_negative(size: i32) -> (n: i32)
    ensures
        n == room(size as int),
{
    if size < 0 {
        0
    } else {
        size
    }
}

/// Whether one of the strings holds a zero byte.
pub open spec fn any_nul(values: Seq<String>) -> bool {
    exists|i: int| 0 <= i < values.len() && has_nul(encode_utf8(#[trigger] values[i]@))
}

/// Whether `call` sets component `index` of parameter `base` to `value`.
pub open spec fn sets_component(call: ParmCall, base: ParameterBase, index: int, value: String) -> bool {
    call matches ParmCall::SetParmStringValue { session, node, value: text, parm, index: i }
        && session == base.node.session && node == base.node.handle && parm == base.info.id && i
        == index && text@ == encode_utf8(value@)
}

impl StringParameter {
    pub fn base(&self) -> (b: &ParameterBase)
        ensures
            *b == self.base,
    {
        &self.base
    }

    /// Where this parameter's values begin in the node's string values.
    pub fn array_index(&self) -> (i: i32)
        ensures
            i == self.base.info.string_values_index,
    {
        self.base.info.string_values_index
    }

    /// The call that fetches the string handles of all values of this
    /// parameter; the handles are then resolved as one batch.
    pub fn values_array(&self) -> (call: ParmCall)
        ensures
            call matches ParmCall::GetParmStringValues { session, node, evaluate, start, length }
                && session == self.base.node.session && node == self.base.node.handle && evaluate
                && start == self.base.info.string_values_index && length == room(
                self.base.info.size as int,
            ),
    {
        ParmCall::GetParmStringValues {
            session: self.base.node.session,
            node: self.base.node.handle,
            evaluate: true,
            start: self.base.info.string_values_index,
            length: non_negative(self.base.info.size),
        }
    }

    /// The call that fetches the string handle of the first value of this
    /// parameter by name.
    pub fn single_value(&self, name: &NativeString) -> (call: ParmCall)
        ensures
            call matches ParmCall::GetParmStringValue { session, node, name: text, index, evaluate }
                && session == self.base.node.session && node == self.base.node.handle && text@
                == name@ && index == 0 && evaluate,
    {
        ParmCall::GetParmStringValue {
            session: self.base.node.session,
            node: self.base.node.handle,
            name: name.duplicate(),
            index: 0,
            evaluate: true,
        }
    }

    /// The calls that write `val` to this parameter, one per component and
    /// in their order. A zero byte in any of the values fails the whole
    /// write with `NullByte`, before a call is made. Values beyond the
    /// parameter's size are dropped and counted.
    pub fn set_value(&self, val: ParmValue<String>) -> (r: Result<StringWrite, HapiError>)
        ensures
            r is Err <==> any_nul(flat(val)),
            r matches Err(e) ==> e@ == (ErrorModel {
                kind: Kind::NullByte,
                message: None,
                session: None,
            }),
            r matches Ok(w) ==> {
                &&& w.calls@.len() == fitting(flat(val).len(), room(self.base.info.size as int))
                &&& w.dropped == flat(val).len() - w.calls@.len()
                &&& forall|i: int|
                    0 <= i < w.calls@.len() ==> sets_component(
                        #[trigger] w.calls@[i],
                        self.base,
                        i,
                        flat(val)[i],
                    )
            },
    {
        let values = val.into_vec();
        let cap = room_of(self.base.info.size);
        let kept = if values.len() <= cap {
            values.len()
        } else {
            cap
        };
        let mut calls: Vec<ParmCall> = Vec::new();
        let mut i: usize = 0;
        while i < values.len()
            invariant
                i <= values.len(),
                values@ == flat(val),
                kept == fitting(values@.len(), room(self.base.info.size as int)),
                kept <= i32::MAX,
                calls@.len() == fitting(i as nat, kept as nat),
                forall|j: int| 0 <= j < i ==> !has_nul(encode_utf8(#[trigger] values@[j]@)),
                forall|j: int|
                    0 <= j < calls@.len() ==> sets_component(
                        #[trigger] calls@[j],
                        self.base,
                        j,
                        values@[j],
                    ),
            decreases values.len() - i,
        {
            match NativeString::new(values[i].as_str()) {
                Err(e) => {
                    return Err(e);
                },
                Ok(text) => {
                    if i < kept {
                        calls.push(
                            ParmCall::SetParmStringValue {
                                session: self.base.node.session,
                                node: self.base.node.handle,
                                value: text,
                                parm: self.base.info.id,
                                index: i as i32,
                            },
                        );
                    }
                },
            }
            i += 1;
        }
        Ok(StringWrite { calls, dropped: values.len() - kept })
    }
}

} // verus!
