//! Libraries of assets: a file that defines operators, loaded into a
//! session, from which nodes are made.

use crate::errors::{classify, translate, ErrorModel, HapiError, HapiResult, Kind};
use crate::marshal::{keep, prefix, F32Bits, Reply, Step};
use crate::node::{HoudiniNode, NodeCall, NodeHandle, NO_NODE};
use crate::parameter::{locate, values_span, ParmInfo, ParmType};
use crate::session::NativeSession;
use crate::text::{has_nul, NativeString};
use vstd::prelude::*;
use vstd::slice::slice_subrange;
use vstd::utf8::encode_utf8;

verus! {

/// The numbers of parameters and of their values, by type, that an asset
/// definition declares.
#[derive(Debug, Clone, Copy, PartialEq, Eq, Structural)]
pub struct ParmValueCount {
    pub parm_count: i32,
    pub int_count: i32,
    pub float_count: i32,
    pub string_count: i32,
    pub choice_count: i32,
}

impl Default for ParmValueCount {
    fn default() -> (c: ParmValueCount)
        ensures
            c == (ParmValueCount {
                parm_count: 0,
                int_count: 0,
                float_count: 0,
                string_count: 0,
                choice_count: 0,
            }),
    {
        ParmValueCount { parm_count: 0, int_count: 0, float_count: 0, string_count: 0, choice_count: 0 }
    }
}

/// A native call about asset libraries.
#[derive(Debug)]
pub enum AssetCall {
    LoadAssetLibraryFromFile { session: NativeSession, path: NativeString, allow_overwrite: bool },
    GetAvailableAssetCount { session: NativeSession, library: i32 },
    GetAvailableAssets { session: NativeSession, library: i32, count: i32 },
    GetAssetInfo { session: NativeSession, node: NodeHandle },
    GetAssetDefinitionParmCounts { session: NativeSession, library: i32, asset: NativeString },
    GetAssetDefinitionParmInfos {
        session: NativeSession,
        library: i32,
        asset: NativeString,
        start: i32,
        count: i32,
    },
    GetAssetDefinitionParmValues {
        session: NativeSession,
        library: i32,
        asset: NativeString,
        counts: ParmValueCount,
    },
}

/// A library of assets that a session has loaded.
#[derive(Debug, Clone, Copy, PartialEq, Eq, Structural)]
pub struct AssetLibrary {
    pub lib_id: i32,
    pub session: NativeSession,
}

/// The metadata of the asset that a node was made from.
#[derive(Debug, Clone, Copy, PartialEq, Eq, Structural)]
pub struct AssetInfo {
    pub node: NodeHandle,
    pub object_node: NodeHandle,
    pub has_ever_cooked: bool,
    pub object_count: i32,
    pub handle_count: i32,
    pub transform_input_count: i32,
    pub geo_input_count: i32,
    pub geo_output_count: i32,
    pub session: NativeSession,
}

/// The error for a library that holds no asset.
pub open spec fn empty_library() -> ErrorModel {
    ErrorModel { kind: Kind::Other, message: Some("Empty AssetLibrary"@), session: None }
}

impl AssetLibrary {
    /// The call that loads a library from a file, replacing definitions
    /// that are loaded already, or `NullByte` if the path holds a zero byte.
    pub fn from_file(session: NativeSession, file: &str) -> (r: Result<AssetCall, HapiError>)
        ensures
            r is Err <==> has_nul(encode_utf8(file@)),
            r matches Err(e) ==> e@ == (ErrorModel {
                kind: Kind::NullByte,
                message: None,
                session: None,
            }),
            r matches Ok(call) ==> (call matches AssetCall::LoadAssetLibraryFromFile {
                session: s,
                path,
                allow_overwrite,
            } && s == session && path@ == encode_utf8(file@) && allow_overwrite),
    {
        match NativeString::new(file) {
            Err(e) => Err(e),
            Ok(path) => Ok(
                AssetCall::LoadAssetLibraryFromFile { session, path, allow_overwrite: true },
            ),
        }
    }

    /// The library that the engine loaded, from its answer.
    pub fn loaded(session: NativeSession, code: i32, lib_id: i32) -> (r: Result<
        AssetLibrary,
        HapiError,
    >)
        ensures
            code == 0 ==> r == Ok::<AssetLibrary, HapiError>(AssetLibrary { lib_id, session }),
            code != 0 ==> (r matches Err(e) && e@ == (ErrorModel {
                kind: Kind::Hapi(classify(code as int)),
                message: None,
                session: Some(session),
            })),
    {
        match translate(code, Some(session), None) {
            Err(e) => Err(e),
            Ok(()) => Ok(AssetLibrary { lib_id, session }),
        }
    }

    /// The call that asks for the number of assets in the library.
    pub fn get_asset_count(&self) -> (call: AssetCall)
        ensures
            call matches AssetCall::GetAvailableAssetCount { session, library } && session
                == self.session && library == self.lib_id,
    {
        AssetCall::GetAvailableAssetCount { session: self.session, library: self.lib_id }
    }

    /// One step of listing the names of the assets in the library, as
    /// string handles that are then resolved as one batch. The engine is
    /// asked for the number of assets first; a number that is not positive
    /// ends with no name and no fetch; any other number is fetched exactly.
    pub fn get_asset_names(&self, reply: Reply<i32>) -> (r: Result<
        Step<AssetCall, Vec<i32>>,
        HapiError,
    >)
        ensures
            match reply {
                Reply::Start => r matches Ok(
                    Step::Call(AssetCall::GetAvailableAssetCount { session, library }),
                ) && session == self.session && library == self.lib_id,
                Reply::Size { code, length } => if code != 0 {
                    r matches Err(e) && e@ == (ErrorModel {
                        kind: Kind::Hapi(classify(code as int)),
                        message: None,
                        session: Some(self.session),
                    })
                } else if length <= 0 {
                    r matches Ok(Step::Done(names)) && names@.len() == 0
                } else {
                    r matches Ok(
                        Step::Call(AssetCall::GetAvailableAssets { session, library, count }),
                    ) && session == self.session && library == self.lib_id && count == length
                },
                Reply::Data { code, length, values } => if code != 0 {
                    r matches Err(e) && e@ == (ErrorModel {
                        kind: Kind::Hapi(classify(code as int)),
                        message: None,
                        session: Some(self.session),
                    })
                } else {
                    r matches Ok(Step::Done(names)) && names@ == prefix(values@, length as int)
                },
            },
    {
        match reply {
            Reply::Start => Ok(Step::Call(self.get_asset_count())),
            Reply::Size { code, length } => {
                match translate(code, Some(self.session), None) {
                    Err(e) => Err(e),
                    Ok(()) => {
                        if length > 0 {
                            Ok(
                                Step::Call(
                                    AssetCall::GetAvailableAssets {
                                        session: self.session,
                                        library: self.lib_id,
                                        count: length,
                                    },
                                ),
                            )
                        } else {
                            Ok(Step::Done(Vec::new()))
                        }
                    },
                }
            },
            Reply::Data { code, length, values } => {
                match translate(code, Some(self.session), None) {
                    Err(e) => Err(e),
                    Ok(()) => Ok(Step::Done(keep(values, length))),
                }
            },
        }
    }

    /// The call that creates a node of the first asset of the library,
    /// given the names of its assets. A library without assets is an error,
    /// and so is a name with a zero byte.
    pub fn try_create_first(&self, names: &[String]) -> (r: Result<NodeCall, HapiError>)
        ensures
            names@.len() == 0 ==> (r matches Err(e) && e@ == empty_library()),
            names@.len() > 0 && has_nul(encode_utf8(names@[0]@)) ==> (r matches Err(e) && e@
                == (ErrorModel { kind: Kind::NullByte, message: None, session: None })),
            names@.len() > 0 && !has_nul(encode_utf8(names@[0]@)) ==> (r matches Ok(
                NodeCall::CreateNode { session, parent, name, label, cook },
            ) && session == self.session && parent == NO_NODE && name@ == encode_utf8(
                names@[0]@,
            ) && label is None && !cook),
    {
        if names.len() == 0 {
            return Err(
                HapiError::new(Kind::Other, None, Some(String::from_str("Empty AssetLibrary"))),
            );
        }
        match NativeString::new(names[0].as_str()) {
            Err(e) => Err(e),
            Ok(name) => Ok(
                NodeCall::CreateNode {
                    session: self.session,
                    parent: NO_NODE,
                    name,
                    label: None,
                    cook: false,
                },
            ),
        }
    }

    /// The call that asks how many parameters and values the definition of
    /// an asset declares, or `NullByte` if the name holds a zero byte.
    pub fn get_asset_parms(&self, asset: &str) -> (r: Result<AssetCall, HapiError>)
        ensures
            r is Err <==> has_nul(encode_utf8(asset@)),
            r matches Err(e) ==> e@ == (ErrorModel {
                kind: Kind::NullByte,
                message: None,
                session: None,
            }),
            r matches Ok(call) ==> (call matches AssetCall::GetAssetDefinitionParmCounts {
                session,
                library,
                asset: name,
            } && session == self.session && library == self.lib_id && name@ == encode_utf8(
                asset@,
            )),
    {
        match NativeString::new(asset) {
            Err(e) => Err(e),
            Ok(name) => Ok(
                AssetCall::GetAssetDefinitionParmCounts {
                    session: self.session,
                    library: self.lib_id,
                    asset: name,
                },
            ),
        }
    }
}

impl AssetLibrary {
    /// The two calls that follow the counts of an asset definition: the
    /// one that fetches the metadata of all its parameters, from the first,
    /// and the one that fetches their default values, as many of each type
    /// as the counts say. Fails where the engine failed to count.
    pub fn asset_parm_calls(&self, asset: &NativeString, code: i32, counts: ParmValueCount) -> (r:
        Result<(AssetCall, AssetCall), HapiError>)
        ensures
            r is Ok <==> code == 0,
            r matches Err(e) ==> e@ == (ErrorModel {
                kind: Kind::Hapi(classify(code as int)),
                message: None,
                session: Some(self.session),
            }),
            r matches Ok((infos, values)) ==> (infos matches AssetCall::GetAssetDefinitionParmInfos {
                session,
                library,
                asset: name,
                start,
                count,
            } && session == self.session && library == self.lib_id && name@ == asset@ && start
                == 0 && count == crate::marshal::room(counts.parm_count as int)) && (
            values matches AssetCall::GetAssetDefinitionParmValues {
                session,
                library,
                asset: name,
                counts: c,
            } && session == self.session && library == self.lib_id && name@ == asset@ && c
                == counts),
    {
        match translate(code, Some(self.session), None) {
            Err(e) => Err(e),
            Ok(()) => Ok(
                (
                    AssetCall::GetAssetDefinitionParmInfos {
                        session: self.session,
                        library: self.lib_id,
                        asset: asset.duplicate(),
                        start: 0,
                        count: crate::parameter::non_negative(counts.parm_count),
                    },
                    AssetCall::GetAssetDefinitionParmValues {
                        session: self.session,
                        library: self.lib_id,
                        asset: asset.duplicate(),
                        counts,
                    },
                ),
            ),
        }
    }
}

impl AssetParameters {
    /// The parameters of an asset definition, from what the engine handed
    /// back: the metadata of each parameter, and all default values by type.
    pub fn new(
        infos: Vec<ParmInfo>,
        ints: Vec<i32>,
        floats: Vec<F32Bits>,
        strings: Vec<String>,
    ) -> (p: AssetParameters)
        ensures
            p.infos == infos,
            p.values.ints == ints,
            p.values.floats == floats,
            p.values.strings == strings,
    {
        AssetParameters { infos, values: AssetParmValues { ints, floats, strings } }
    }
}

impl AssetInfo {
    /// The call that fetches the metadata of the asset of a node.
    pub fn new(node: &HoudiniNode) -> (call: AssetCall)
        ensures
            call matches AssetCall::GetAssetInfo { session, node: n } && session == node.session
                && n == node.handle,
    {
        AssetCall::GetAssetInfo { session: node.session, node: node.handle }
    }
}

/// The default values of all parameters of an asset definition, by type.
#[derive(Debug)]
pub struct AssetParmValues {
    pub ints: Vec<i32>,
    pub floats: Vec<F32Bits>,
    pub strings: Vec<String>,
}

/// The parameters of an asset definition and their default values.
#[derive(Debug)]
pub struct AssetParameters {
    pub infos: Vec<ParmInfo>,
    pub values: AssetParmValues,
}

/// One parameter of an asset definition.
pub struct AssetParm<'a> {
    pub info: &'a ParmInfo,
    pub values: &'a AssetParmValues,
}

/// Walks the parameters of an asset definition.
pub struct AssetParmIter<'a> {
    parms: &'a AssetParameters,
    index: usize,
}

/// The default values of a parameter of an asset definition.
#[derive(Debug)]
pub enum ParmValue<'a> {
    Int(&'a [i32]),
    Float(&'a [F32Bits]),
    String(&'a [String]),
    /// The parameter has a type without values of its own.
    Other(ParmType),
}

impl AssetParameters {
    /// Walks the parameters, from the first.
    pub fn iter(&self) -> (it: AssetParmIter<'_>)
        ensures
            it.position() == 0,
            it.parameters() == self,
    {
        AssetParmIter { parms: self, index: 0 }
    }

    /// The parameter at `index`.
    pub fn get(&self, index: usize) -> (p: Option<AssetParm<'_>>)
        ensures
            index < self.infos@.len() ==> (p matches Some(parm) && *parm.info
                == self.infos@[index as int] && parm.values == &self.values),
            index >= self.infos@.len() ==> p is None,
    {
        if index < self.infos.len() {
            Some(AssetParm { info: &self.infos[index], values: &self.values })
        } else {
            None
        }
    }
}

impl<'a> AssetParmIter<'a> {
    #[verifier::type_invariant]
    spec fn well_formed(self) -> bool {
        self.index <= self.parms.infos@.len()
    }

    /// The number of parameters handed out so far.
    pub closed spec fn position(&self) -> int {
        self.index as int
    }

    /// The parameters that are walked.
    pub closed spec fn parameters(&self) -> &AssetParameters {
        self.parms
    }

    /// The next parameter, or `None` after the last.
    pub fn next(&mut self) -> (p: Option<AssetParm<'a>>)
        ensures
            final(self).parameters() == old(self).parameters(),
            old(self).position() < old(self).parameters().infos@.len() ==> (p matches Some(parm)
                && *parm.info == old(self).parameters().infos@[old(self).position()]
                && parm.values == &old(self).parameters().values),
            old(self).position() < old(self).parameters().infos@.len() ==> final(self).position()
                == old(self).position() + 1,
            old(self).position() >= old(self).parameters().infos@.len() ==> p is None,
            old(self).position() >= old(self).parameters().infos@.len() ==> final(self).position()
                == old(self).position(),
    {
        proof {
            use_type_invariant(&*self);
        }
        if self.index < self.parms.infos.len() {
            let parm = AssetParm { info: &self.parms.infos[self.index], values: &self.parms.values };
            *self = AssetParmIter { parms: self.parms, index: self.index + 1 };
            Some(parm)
        } else {
            None
        }
    }
}

/// The error for a parameter whose values lie outside the values of the
/// definition.
pub open spec fn out_of_range() -> ErrorModel {
    ErrorModel {
        kind: Kind::Hapi(HapiResult::InvalidArgument),
        message: Some("Parameter values lie outside the value array"@),
        session: None,
    }
}

fn values_out_of_range() -> (e: HapiError)
    ensures
        e@ == out_of_range(),
{
    HapiError::local(HapiResult::InvalidArgument, "Parameter values lie outside the value array")
}

impl<'a> AssetParm<'a> {
    /// The default values of this parameter: the run of its size, from its
    /// index, in the values of its type. Metadata that points outside the
    /// values is refused; nothing is read there.
    pub fn default_values(&self) -> (r: Result<ParmValue<'a>, HapiError>)
        ensures
            match self.info.parm_type {
                ParmType::Int => match values_span(
                    self.info.int_values_index as int,
                    self.info.size as int,
                    self.values.ints@.len(),
                ) {
                    Some((start, end)) => r matches Ok(ParmValue::Int(v)) && v@
                        == self.values.ints@.subrange(start, end),
                    None => r matches Err(e) && e@ == out_of_range(),
                },
                ParmType::Float => match values_span(
                    self.info.float_values_index as int,
                    self.info.size as int,
                    self.values.floats@.len(),
                ) {
                    Some((start, end)) => r matches Ok(ParmValue::Float(v)) && v@
                        == self.values.floats@.subrange(start, end),
                    None => r matches Err(e) && e@ == out_of_range(),
                },
                ParmType::String | ParmType::PathFileGeo => match values_span(
                    self.info.string_values_index as int,
                    self.info.size as int,
                    self.values.strings@.len(),
                ) {
                    Some((start, end)) => r matches Ok(ParmValue::String(v)) && v@
                        == self.values.strings@.subrange(start, end),
                    None => r matches Err(e) && e@ == out_of_range(),
                },
                other => r matches Ok(ParmValue::Other(t)) && t == other,
            },
    {
        let info: &'a ParmInfo = self.info;
        let values: &'a AssetParmValues = self.values;
        match info.parm_type {
            ParmType::Int => {
                match locate(info.int_values_index, info.size, values.ints.len()) {
                    Some((start, end)) => Ok(
                        ParmValue::Int(slice_subrange(values.ints.as_slice(), start, end)),
                    ),
                    None => Err(values_out_of_range()),
                }
            },
            ParmType::Float => {
                match locate(info.float_values_index, info.size, values.floats.len()) {
                    Some((start, end)) => Ok(
                        ParmValue::Float(slice_subrange(values.floats.as_slice(), start, end)),
                    ),
                    None => Err(values_out_of_range()),
                }
            },
            ParmType::String | ParmType::PathFileGeo => {
                match locate(info.string_values_index, info.size, values.strings.len()) {
                    Some((start, end)) => Ok(
                        ParmValue::String(slice_subrange(values.strings.as_slice(), start, end)),
                    ),
                    None => Err(values_out_of_range()),
                }
            },
            other => Ok(ParmValue::Other(other)),
        }
    }
}

} // verus!
