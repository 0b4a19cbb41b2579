//! Geometry of a node: its parts, curves, groups and attributes. Everything
//! here either builds the call for the engine from checked arguments, or
//! reads a count off metadata that the engine handed back.

use crate::attribute::{AttributeCall, AttributeInfo, AttributeOwner};
use crate::errors::{ErrorModel, HapiError, HapiResult, Kind};
use crate::marshal::{room, F32Bits};
use crate::node::{HoudiniNode, NodeHandle, StringHandle};
use crate::parameter::non_negative;
use crate::session::NativeSession;
use crate::text::{has_nul, NativeString};
use vstd::prelude::*;
use vstd::slice::slice_to_vec;
use vstd::utf8::encode_utf8;

verus! {

/// What a group holds.
#[derive(Debug, Clone, Copy, PartialEq, Eq, Structural)]
pub enum GroupType {
    Invalid,
    Point,
    Prim,
    Max,
}

/// What a part is made of.
#[derive(Debug, Clone, Copy, PartialEq, Eq, Structural)]
pub enum PartType {
    Invalid,
    Mesh,
    Curve,
    Volume,
    Instancer,
    Box,
    Sphere,
    Max,
}

/// The kind of the curves of a part.
#[derive(Debug, Clone, Copy, PartialEq, Eq, Structural)]
pub enum CurveType {
    Invalid,
    Linear,
    Nurbs,
    Bezier,
    Max,
}

/// The metadata of the geometry of a node.
#[derive(Debug, Clone, Copy, PartialEq, Eq, Structural)]
pub struct GeoInfo {
    pub node_id: NodeHandle,
    pub name_sh: StringHandle,
    pub is_editable: bool,
    pub is_templated: bool,
    pub is_display_geo: bool,
    pub has_geo_changed: bool,
    pub has_material_changed: bool,
    pub point_group_count: i32,
    pub primitive_group_count: i32,
    pub part_count: i32,
}

/// The metadata of one part of a geometry.
#[derive(Debug, Clone, Copy, PartialEq, Eq, Structural)]
pub struct PartInfo {
    pub part_id: i32,
    pub name_sh: StringHandle,
    pub part_type: PartType,
    pub face_count: i32,
    pub vertex_count: i32,
    pub point_count: i32,
    pub vertex_attribute_count: i32,
    pub point_attribute_count: i32,
    pub prim_attribute_count: i32,
    pub detail_attribute_count: i32,
    pub is_instanced: bool,
    pub instanced_part_count: i32,
    pub instance_count: i32,
    pub has_changed: bool,
}

/// The metadata of the curves of a part.
#[derive(Debug, Clone, Copy, PartialEq, Eq, Structural)]
pub struct CurveInfo {
    pub curve_type: CurveType,
    pub curve_count: i32,
    pub vertex_count: i32,
    pub knot_count: i32,
    pub is_periodic: bool,
    pub is_rational: bool,
    pub order: i32,
    pub has_knots: bool,
}

/// A native call about geometry. `start` and `length` address a range of a
/// flat array of the engine; a buffer that goes with them has `length`
/// values.
#[derive(Debug)]
#[allow(inconsistent_fields)]
pub enum GeometryCall {
    GetGeoInfo { session: NativeSession, node: NodeHandle },
    GetPartInfo { session: NativeSession, node: NodeHandle, part_id: i32 },
    SetPartInfo { session: NativeSession, node: NodeHandle, part_id: i32, info: PartInfo },
    GetCurveInfo { session: NativeSession, node: NodeHandle, part_id: i32 },
    SetCurveInfo { session: NativeSession, node: NodeHandle, part_id: i32, info: CurveInfo },
    GetCurveCounts { session: NativeSession, node: NodeHandle, part_id: i32, start: i32, length: i32 },
    GetCurveOrders { session: NativeSession, node: NodeHandle, part_id: i32, start: i32, length: i32 },
    GetCurveKnots { session: NativeSession, node: NodeHandle, part_id: i32, start: i32, length: i32 },
    SetCurveCounts {
        session: NativeSession,
        node: NodeHandle,
        part_id: i32,
        counts: Vec<i32>,
        start: i32,
        length: i32,
    },
    SetCurveKnots {
        session: NativeSession,
        node: NodeHandle,
        part_id: i32,
        knots: Vec<F32Bits>,
        start: i32,
        length: i32,
    },
    SetVertexList {
        session: NativeSession,
        node: NodeHandle,
        part_id: i32,
        list: Vec<i32>,
        start: i32,
        length: i32,
    },
    SetFaceCounts {
        session: NativeSession,
        node: NodeHandle,
        part_id: i32,
        counts: Vec<i32>,
        start: i32,
        length: i32,
    },
    GetFaceCounts { session: NativeSession, node: NodeHandle, part_id: i32, start: i32, length: i32 },
    GetGroupNames { session: NativeSession, node: NodeHandle, group_type: GroupType, count: i32 },
    GetAttributeNames {
        session: NativeSession,
        node: NodeHandle,
        part_id: i32,
        owner: AttributeOwner,
        count: i32,
    },
    AddGroup {
        session: NativeSession,
        node: NodeHandle,
        part_id: i32,
        group_type: GroupType,
        name: NativeString,
    },
    SetGroupMembership {
        session: NativeSession,
        node: NodeHandle,
        part_id: i32,
        group_type: GroupType,
        name: NativeString,
        membership: Vec<i32>,
        start: i32,
        length: i32,
    },
    GetGroupMembership {
        session: NativeSession,
        node: NodeHandle,
        part_id: i32,
        group_type: GroupType,
        name: NativeString,
        start: i32,
        length: i32,
    },
    SaveGeoToFile { session: NativeSession, node: NodeHandle, path: NativeString },
    LoadGeoFromFile { session: NativeSession, node: NodeHandle, path: NativeString },
    CommitGeo { session: NativeSession, node: NodeHandle },
}

/// The geometry of a node.
#[derive(Debug, Clone, Copy, PartialEq, Eq, Structural)]
pub struct Geometry {
    pub node: HoudiniNode,
    pub info: GeoInfo,
}

/// The number of groups of a type that a geometry has: none for a type that
/// is neither points nor primitives.
pub open spec fn group_count(info: GeoInfo, group_type: GroupType) -> int {
    match group_type {
        GroupType::Point => info.point_group_count as int,
        GroupType::Prim => info.primitive_group_count as int,
        _ => 0,
    }
}

/// The number of elements of a part that a group of a type ranges over:
/// its points, or its faces; none for another type.
pub open spec fn element_count(info: PartInfo, group_type: GroupType) -> int {
    match group_type {
        GroupType::Point => info.point_count as int,
        GroupType::Prim => info.face_count as int,
        _ => 0,
    }
}

/// The number of attributes that a part has for an owner, if it is an
/// owner that has attributes.
pub open spec fn attribute_count(info: PartInfo, owner: AttributeOwner) -> Option<int> {
    match owner {
        AttributeOwner::Vertex => Some(info.vertex_attribute_count as int),
        AttributeOwner::Point => Some(info.point_attribute_count as int),
        AttributeOwner::Prim => Some(info.prim_attribute_count as int),
        AttributeOwner::Detail => Some(info.detail_attribute_count as int),
        _ => None,
    }
}

/// The error for an array that is longer than the engine can address.
pub open spec fn too_long() -> ErrorModel {
    ErrorModel {
        kind: Kind::Hapi(HapiResult::InvalidArgument),
        message: Some("Array is longer than the engine can address"@),
        session: None,
    }
}

/// The error for a kind of group or owner that has no elements.
pub open spec fn no_such_kind() -> ErrorModel {
    ErrorModel {
        kind: Kind::Hapi(HapiResult::InvalidArgument),
        message: Some("Neither a group type nor an attribute owner of geometry"@),
        session: None,
    }
}

/// The null byte error.
pub open spec fn null_byte() -> ErrorModel {
    ErrorModel { kind: Kind::NullByte, message: None, session: None }
}

/// The length of an array as the engine counts it, if it can.
fn engine_length<T>(values: &[T]) -> (r: Result<i32, HapiError>)
    ensures
        r is Ok <==> values@.len() <= i32::MAX,
        r matches Ok(n) ==> n == values@.len(),
        r matches Err(e) ==> e@ == too_long(),
{
    if values.len() <= 0x7fff_ffff {
        Ok(values.len() as i32)
    } else {
        Err(
            HapiError::local(
                HapiResult::InvalidArgument,
                "Array is longer than the engine can address",
            ),
        )
    }
}

impl Default for PartInfo {
    fn default() -> (info: PartInfo)
        ensures
            info == (PartInfo {
                part_id: 0,
                name_sh: StringHandle(0),
                part_type: PartType::Invalid,
                face_count: 0,
                vertex_count: 0,
                point_count: 0,
                vertex_attribute_count: 0,
                point_attribute_count: 0,
                prim_attribute_count: 0,
                detail_attribute_count: 0,
                is_instanced: false,
                instanced_part_count: 0,
                instance_count: 0,
                has_changed: true,
            }),
    {
        PartInfo {
            part_id: 0,
            name_sh: StringHandle(0),
            part_type: PartType::Invalid,
            face_count: 0,
            vertex_count: 0,
            point_count: 0,
            vertex_attribute_count: 0,
            point_attribute_count: 0,
            prim_attribute_count: 0,
            detail_attribute_count: 0,
            is_instanced: false,
            instanced_part_count: 0,
            instance_count: 0,
            has_changed: true,
        }
    }
}

impl PartInfo {
    pub fn part_id(&self) -> (id: i32)
        ensures
            id == self.part_id,
    {
        self.part_id
    }

    pub fn part_type(&self) -> (t: PartType)
        ensures
            t == self.part_type,
    {
        self.part_type
    }

    pub fn face_count(&self) -> (n: i32)
        ensures
            n == self.face_count,
    {
        self.face_count
    }

    pub fn vertex_count(&self) -> (n: i32)
        ensures
            n == self.vertex_count,
    {
        self.vertex_count
    }

    pub fn point_count(&self) -> (n: i32)
        ensures
            n == self.point_count,
    {
        self.point_count
    }

    /// The numbers of attributes by owner: of vertices, points, primitives
    /// and of the whole part.
    pub fn attribute_counts(&self) -> (counts: [i32; 4])
        ensures
            counts@ == seq![
                self.vertex_attribute_count,
                self.point_attribute_count,
                self.prim_attribute_count,
                self.detail_attribute_count,
            ],
    {
        let counts = [
            self.vertex_attribute_count,
            self.point_attribute_count,
            self.prim_attribute_count,
            self.detail_attribute_count,
        ];
        proof {
            assert(counts@ =~= seq![
                self.vertex_attribute_count,
                self.point_attribute_count,
                self.prim_attribute_count,
                self.detail_attribute_count,
            ]);
        }
        counts
    }

    pub fn with_part_type(self, part_type: PartType) -> (info: PartInfo)
        ensures
            info == (PartInfo { part_type, ..self }),
    {
        PartInfo { part_type, ..self }
    }

    pub fn with_face_count(self, face_count: i32) -> (info: PartInfo)
        ensures
            info == (PartInfo { face_count, ..self }),
    {
        PartInfo { face_count, ..self }
    }

    pub fn with_point_count(self, point_count: i32) -> (info: PartInfo)
        ensures
            info == (PartInfo { point_count, ..self }),
    {
        PartInfo { point_count, ..self }
    }

    pub fn with_vertex_count(self, vertex_count: i32) -> (info: PartInfo)
        ensures
            info == (PartInfo { vertex_count, ..self }),
    {
        PartInfo { vertex_count, ..self }
    }

    /// The number of elements of this part that a group of the given type
    /// ranges over.
    pub fn element_count_by_group(&self, group_type: GroupType) -> (n: i32)
        ensures
            n == element_count(*self, group_type),
    {
        match group_type {
            GroupType::Point => self.point_count,
            GroupType::Prim => self.face_count,
            _ => 0,
        }
    }
}

impl GeoInfo {
    pub fn part_count(&self) -> (n: i32)
        ensures
            n == self.part_count,
    {
        self.part_count
    }

    pub fn point_group_count(&self) -> (n: i32)
        ensures
            n == self.point_group_count,
    {
        self.point_group_count
    }

    pub fn primitive_group_count(&self) -> (n: i32)
        ensures
            n == self.primitive_group_count,
    {
        self.primitive_group_count
    }
}

/// Whether `call` asks for the metadata of part `part_id` of `node`.
pub open spec fn asks_part(call: GeometryCall, node: HoudiniNode, part_id: int) -> bool {
    call matches GeometryCall::GetPartInfo { session, node: n, part_id: id } && session
        == node.session && n == node.handle && id == part_id
}

impl Geometry {
    pub fn new(node: HoudiniNode, info: GeoInfo) -> (geo: Geometry)
        ensures
            geo.node == node,
            geo.info == info,
    {
        Geometry { node, info }
    }

    /// The call that fetches the metadata of a part.
    pub fn part_info(&self, id: i32) -> (call: GeometryCall)
        ensures
            asks_part(call, self.node, id as int),
    {
        GeometryCall::GetPartInfo { session: self.node.session, node: self.node.handle, part_id: id }
    }

    /// The call that sets the metadata of the part that the metadata names.
    pub fn set_part_info(&self, info: &PartInfo) -> (call: GeometryCall)
        ensures
            call matches GeometryCall::SetPartInfo { session, node, part_id, info: i } && session
                == self.node.session && node == self.node.handle && part_id == info.part_id && i
                == *info,
    {
        GeometryCall::SetPartInfo {
            session: self.node.session,
            node: self.node.handle,
            part_id: info.part_id,
            info: *info,
        }
    }

    /// The call that sets the metadata of the curves of a part.
    pub fn set_curve_info(&self, info: &CurveInfo, part_id: i32) -> (call: GeometryCall)
        ensures
            call matches GeometryCall::SetCurveInfo { session, node, part_id: id, info: i }
                && session == self.node.session && node == self.node.handle && id == part_id && i
                == *info,
    {
        GeometryCall::SetCurveInfo {
            session: self.node.session,
            node: self.node.handle,
            part_id,
            info: *info,
        }
    }

    /// The call that sets the number of vertices of each curve of a part.
    /// Refused where the counts are more than the engine can address.
    pub fn set_curve_counts(&self, part_id: i32, count: &[i32]) -> (r: Result<
        GeometryCall,
        HapiError,
    >)
        ensures
            r is Ok <==> count@.len() <= i32::MAX,
            r matches Err(e) ==> e@ == too_long(),
            r matches Ok(call) ==> (call matches GeometryCall::SetCurveCounts {
                session,
                node,
                part_id: id,
                counts,
                start,
                length,
            } && session == self.node.session && node == self.node.handle && id == part_id
                && counts@ == count@ && start == 0 && length == count@.len()),
    {
        match engine_length(count) {
            Err(e) => Err(e),
            Ok(length) => Ok(
                GeometryCall::SetCurveCounts {
                    session: self.node.session,
                    node: self.node.handle,
                    part_id,
                    counts: slice_to_vec(count),
                    start: 0,
                    length,
                },
            ),
        }
    }

    /// The call that sets the knots of the curves of a part. Refused where
    /// the knots are more than the engine can address.
    pub fn set_curve_knots(&self, part_id: i32, knots: &[F32Bits]) -> (r: Result<
        GeometryCall,
        HapiError,
    >)
        ensures
            r is Ok <==> knots@.len() <= i32::MAX,
            r matches Err(e) ==> e@ == too_long(),
            r matches Ok(call) ==> (call matches GeometryCall::SetCurveKnots {
                session,
                node,
                part_id: id,
                knots: k,
                start,
                length,
            } && session == self.node.session && node == self.node.handle && id == part_id && k@
                == knots@ && start == 0 && length == knots@.len()),
    {
        match engine_length(knots) {
            Err(e) => Err(e),
            Ok(length) => Ok(
                GeometryCall::SetCurveKnots {
                    session: self.node.session,
                    node: self.node.handle,
                    part_id,
                    knots: slice_to_vec(knots),
                    start: 0,
                    length,
                },
            ),
        }
    }

    /// The call that sets the vertex list of a part: for every vertex the
    /// point it lies on. Refused where the list is longer than the engine
    /// can address.
    pub fn set_vertex_list(&self, part_id: i32, list: &[i32]) -> (r: Result<
        GeometryCall,
        HapiError,
    >)
        ensures
            r is Ok <==> list@.len() <= i32::MAX,
            r matches Err(e) ==> e@ == too_long(),
            r matches Ok(call) ==> (call matches GeometryCall::SetVertexList {
                session,
                node,
                part_id: id,
                list: l,
                start,
                length,
            } && session == self.node.session && node == self.node.handle && id == part_id && l@
                == list@ && start == 0 && length == list@.len()),
    {
        match engine_length(list) {
            Err(e) => Err(e),
            Ok(length) => Ok(
                GeometryCall::SetVertexList {
                    session: self.node.session,
                    node: self.node.handle,
                    part_id,
                    list: slice_to_vec(list),
                    start: 0,
                    length,
                },
            ),
        }
    }

    /// The call that sets the number of vertices of each face of a part.
    /// Refused where the counts are more than the engine can address.
    pub fn set_face_counts(&self, part_id: i32, list: &[i32]) -> (r: Result<
        GeometryCall,
        HapiError,
    >)
        ensures
            r is Ok <==> list@.len() <= i32::MAX,
            r matches Err(e) ==> e@ == too_long(),
            r matches Ok(call) ==> (call matches GeometryCall::SetFaceCounts {
                session,
                node,
                part_id: id,
                counts,
                start,
                length,
            } && session == self.node.session && node == self.node.handle && id == part_id
                && counts@ == list@ && start == 0 && length == list@.len()),
    {
        match engine_length(list) {
            Err(e) => Err(e),
            Ok(length) => Ok(
                GeometryCall::SetFaceCounts {
                    session: self.node.session,
                    node: self.node.handle,
                    part_id,
                    counts: slice_to_vec(list),
                    start: 0,
                    length,
                },
            ),
        }
    }

    /// The call that fetches the metadata of the geometry anew.
    pub fn geo_info(&self) -> (call: GeometryCall)
        ensures
            call matches GeometryCall::GetGeoInfo { session, node } && session == self.node.session
                && node == self.node.handle,
    {
        GeometryCall::GetGeoInfo { session: self.node.session, node: self.node.handle }
    }

    /// The call that fetches the metadata of the curves of a part.
    pub fn curve_info(&self, part_id: i32) -> (call: GeometryCall)
        ensures
            call matches GeometryCall::GetCurveInfo { session, node, part_id: id } && session
                == self.node.session && node == self.node.handle && id == part_id,
    {
        GeometryCall::GetCurveInfo { session: self.node.session, node: self.node.handle, part_id }
    }

    /// The call that fetches the number of vertices of `length` curves of a
    /// part, from curve `start`. A negative length asks for none.
    pub fn curve_counts(&self, part_id: i32, start: i32, length: i32) -> (call: GeometryCall)
        ensures
            call matches GeometryCall::GetCurveCounts { session, node, part_id: id, start: s, length: n }
                && session == self.node.session && node == self.node.handle && id == part_id && s
                == start && n == room(length as int),
    {
        GeometryCall::GetCurveCounts {
            session: self.node.session,
            node: self.node.handle,
            part_id,
            start,
            length: non_negative(length),
        }
    }

    /// The call that fetches the orders of `length` curves of a part, from
    /// curve `start`. A negative length asks for none.
    pub fn curve_orders(&self, part_id: i32, start: i32, length: i32) -> (call: GeometryCall)
        ensures
            call matches GeometryCall::GetCurveOrders { session, node, part_id: id, start: s, length: n }
                && session == self.node.session && node == self.node.handle && id == part_id && s
                == start && n == room(length as int),
    {
        GeometryCall::GetCurveOrders {
            session: self.node.session,
            node: self.node.handle,
            part_id,
            start,
            length: non_negative(length),
        }
    }

    /// The call that fetches `length` knots of the curves of a part, from
    /// knot `start`. A negative length asks for none.
    pub fn curve_knots(&self, part_id: i32, start: i32, length: i32) -> (call: GeometryCall)
        ensures
            call matches GeometryCall::GetCurveKnots { session, node, part_id: id, start: s, length: n }
                && session == self.node.session && node == self.node.handle && id == part_id && s
                == start && n == room(length as int),
    {
        GeometryCall::GetCurveKnots {
            session: self.node.session,
            node: self.node.handle,
            part_id,
            start,
            length: non_negative(length),
        }
    }

    /// The calls that fetch the metadata of every part, one call for each
    /// part, in the order of the parts.
    pub fn partitions(&self) -> (calls: Vec<GeometryCall>)
        ensures
            calls@.len() == room(self.info.part_count as int),
            forall|i: int| 0 <= i < calls@.len() ==> asks_part(#[trigger] calls@[i], self.node, i),
    {
        let mut calls: Vec<GeometryCall> = Vec::new();
        let mut id: i32 = 0;
        while id < self.info.part_count
            invariant
                0 <= id,
                id <= room(self.info.part_count as int),
                calls@.len() == id,
                forall|i: int|
                    0 <= i < calls@.len() ==> asks_part(#[trigger] calls@[i], self.node, i),
            decreases self.info.part_count - id,
        {
            calls.push(self.part_info(id));
            id += 1;
        }
        calls
    }

    /// The call that fetches the number of vertices of each face of a part.
    pub fn get_face_counts(&self, info: &PartInfo) -> (call: GeometryCall)
        ensures
            call matches GeometryCall::GetFaceCounts { session, node, part_id, start, length }
                && session == self.node.session && node == self.node.handle && part_id
                == info.part_id && start == 0 && length == room(info.face_count as int),
    {
        GeometryCall::GetFaceCounts {
            session: self.node.session,
            node: self.node.handle,
            part_id: info.part_id,
            start: 0,
            length: non_negative(info.face_count),
        }
    }

    /// The number of groups of a type in this geometry.
    pub fn group_count_by_type(&self, group_type: GroupType) -> (n: i32)
        ensures
            n == group_count(self.info, group_type),
    {
        match group_type {
            GroupType::Point => self.info.point_group_count,
            GroupType::Prim => self.info.primitive_group_count,
            _ => 0,
        }
    }

    /// The call that fetches the names of all groups of a type, as string
    /// handles that are then resolved as one batch. Only points and
    /// primitives have groups.
    pub fn get_group_names(&self, group_type: GroupType) -> (r: Result<GeometryCall, HapiError>)
        ensures
            r is Ok <==> group_type == GroupType::Point || group_type == GroupType::Prim,
            r matches Err(e) ==> e@ == no_such_kind(),
            r matches Ok(call) ==> (call matches GeometryCall::GetGroupNames {
                session,
                node,
                group_type: t,
                count,
            } && session == self.node.session && node == self.node.handle && t == group_type
                && count == room(group_count(self.info, group_type))),
    {
        let count = match group_type {
            GroupType::Point => self.info.point_group_count,
            GroupType::Prim => self.info.primitive_group_count,
            _ => {
                return Err(
                    HapiError::local(
                        HapiResult::InvalidArgument,
                        "Neither a group type nor an attribute owner of geometry",
                    ),
                );
            },
        };
        Ok(
            GeometryCall::GetGroupNames {
                session: self.node.session,
                node: self.node.handle,
                group_type,
                count: non_negative(count),
            },
        )
    }

    /// The call that fetches the names of all attributes of an owner in a
    /// part, as string handles that are then resolved as one batch. Only
    /// vertices, points, primitives and the part as a whole own attributes.
    pub fn get_attribute_names(&self, owner: AttributeOwner, part: &PartInfo) -> (r: Result<
        GeometryCall,
        HapiError,
    >)
        ensures
            r is Ok <==> attribute_count(*part, owner) is Some,
            r matches Err(e) ==> e@ == no_such_kind(),
            r matches Ok(call) ==> (call matches GeometryCall::GetAttributeNames {
                session,
                node,
                part_id,
                owner: o,
                count,
            } && session == self.node.session && node == self.node.handle && part_id
                == part.part_id && o == owner && Some(count as int) == (match attribute_count(
                *part,
                owner,
            ) {
                Some(n) => Some(room(n) as int),
                None => None,
            })),
    {
        let counts = part.attribute_counts();
        let count = match owner {
            AttributeOwner::Vertex => counts[0],
            AttributeOwner::Point => counts[1],
            AttributeOwner::Prim => counts[2],
            AttributeOwner::Detail => counts[3],
            _ => {
                return Err(
                    HapiError::local(
                        HapiResult::InvalidArgument,
                        "Neither a group type nor an attribute owner of geometry",
                    ),
                );
            },
        };
        Ok(
            GeometryCall::GetAttributeNames {
                session: self.node.session,
                node: self.node.handle,
                part_id: part.part_id,
                owner,
                count: non_negative(count),
            },
        )
    }

    /// The call that asks for the metadata of an attribute by name, or
    /// `NullByte` if the name holds a zero byte.
    pub fn get_attribute(&self, part_id: i32, owner: AttributeOwner, name: &str) -> (r: Result<
        AttributeCall,
        HapiError,
    >)
        ensures
            r is Err <==> has_nul(encode_utf8(name@)),
            r matches Err(e) ==> e@ == null_byte(),
            r matches Ok(call) ==> (call matches AttributeCall::GetAttributeInfo {
                session,
                node,
                part_id: id,
                name: n,
                owner: o,
            } && session == self.node.session && node == self.node.handle && id == part_id && n@
                == encode_utf8(name@) && o == owner),
    {
        match NativeString::new(name) {
            Err(e) => Err(e),
            Ok(n) => Ok(
                AttributeCall::GetAttributeInfo {
                    session: self.node.session,
                    node: self.node.handle,
                    part_id,
                    name: n,
                    owner,
                },
            ),
        }
    }

    /// The call that adds an attribute to a part, or `NullByte` if the name
    /// holds a zero byte.
    pub fn add_attribute(&self, name: &str, part_id: i32, info: &AttributeInfo) -> (r: Result<
        AttributeCall,
        HapiError,
    >)
        ensures
            r is Err <==> has_nul(encode_utf8(name@)),
            r matches Err(e) ==> e@ == null_byte(),
            r matches Ok(call) ==> (call matches AttributeCall::AddAttribute {
                session,
                node,
                part_id: id,
                name: n,
                info: i,
            } && session == self.node.session && node == self.node.handle && id == part_id && n@
                == encode_utf8(name@) && i == *info),
    {
        match NativeString::new(name) {
            Err(e) => Err(e),
            Ok(n) => Ok(
                AttributeCall::AddAttribute {
                    session: self.node.session,
                    node: self.node.handle,
                    part_id,
                    name: n,
                    info: *info,
                },
            ),
        }
    }

    /// The call that adds a group to a part, or `NullByte` if the name holds
    /// a zero byte.
    pub fn add_group(&self, part_id: i32, group_name: &str, group_type: GroupType) -> (r: Result<
        GeometryCall,
        HapiError,
    >)
        ensures
            r is Err <==> has_nul(encode_utf8(group_name@)),
            r matches Err(e) ==> e@ == null_byte(),
            r matches Ok(call) ==> (call matches GeometryCall::AddGroup {
                session,
                node,
                part_id: id,
                group_type: t,
                name,
            } && session == self.node.session && node == self.node.handle && id == part_id && t
                == group_type && name@ == encode_utf8(group_name@)),
    {
        match NativeString::new(group_name) {
            Err(e) => Err(e),
            Ok(name) => Ok(
                GeometryCall::AddGroup {
                    session: self.node.session,
                    node: self.node.handle,
                    part_id,
                    group_type,
                    name,
                },
            ),
        }
    }

    /// The call that sets which elements of a part belong to a group: one
    /// flag for each element. A zero byte in the name is `NullByte`; flags
    /// that are more than the engine can address are refused.
    pub fn set_group_membership(
        &self,
        part_id: i32,
        group_type: GroupType,
        group_name: &str,
        array: &[i32],
    ) -> (r: Result<GeometryCall, HapiError>)
        ensures
            r is Err <==> has_nul(encode_utf8(group_name@)) || array@.len() > i32::MAX,
            has_nul(encode_utf8(group_name@)) ==> (r matches Err(e) && e@ == null_byte()),
            !has_nul(encode_utf8(group_name@)) && array@.len() > i32::MAX ==> (r matches Err(e)
                && e@ == too_long()),
            r matches Ok(call) ==> (call matches GeometryCall::SetGroupMembership {
                session,
                node,
                part_id: id,
                group_type: t,
                name,
                membership,
                start,
                length,
            } && session == self.node.session && node == self.node.handle && id == part_id && t
                == group_type && name@ == encode_utf8(group_name@) && membership@ == array@
                && start == 0 && length == array@.len()),
    {
        let name = match NativeString::new(group_name) {
            Err(e) => {
                return Err(e);
            },
            Ok(name) => name,
        };
        match engine_length(array) {
            Err(e) => Err(e),
            Ok(length) => Ok(
                GeometryCall::SetGroupMembership {
                    session: self.node.session,
                    node: self.node.handle,
                    part_id,
                    group_type,
                    name,
                    membership: slice_to_vec(array),
                    start: 0,
                    length,
                },
            ),
        }
    }

    /// The call that fetches which elements of a part belong to a group,
    /// one flag for each element that a group of that type ranges over.
    /// Where the part is not known yet, the call fetches the metadata of
    /// the first part instead, with which the caller comes back. A zero
    /// byte in the name is `NullByte`.
    pub fn get_group_membership(
        &self,
        part_info: Option<&PartInfo>,
        group_type: GroupType,
        group_name: &str,
    ) -> (r: Result<GeometryCall, HapiError>)
        ensures
            r is Err <==> has_nul(encode_utf8(group_name@)),
            r matches Err(e) ==> e@ == null_byte(),
            r matches Ok(call) ==> match part_info {
                None => asks_part(call, self.node, 0),
                Some(part) => call matches GeometryCall::GetGroupMembership {
                    session,
                    node,
                    part_id,
                    group_type: t,
                    name,
                    start,
                    length,
                } && session == self.node.session && node == self.node.handle && part_id
                    == part.part_id && t == group_type && name@ == encode_utf8(group_name@)
                    && start == 0 && length == room(element_count(*part, group_type)),
            },
    {
        let name = match NativeString::new(group_name) {
            Err(e) => {
                return Err(e);
            },
            Ok(name) => name,
        };
        match part_info {
            None => Ok(self.part_info(0)),
            Some(part) => Ok(
                GeometryCall::GetGroupMembership {
                    session: self.node.session,
                    node: self.node.handle,
                    part_id: part.part_id,
                    group_type,
                    name,
                    start: 0,
                    length: non_negative(part.element_count_by_group(group_type)),
                },
            ),
        }
    }

    /// The call that saves the geometry to a file, or `NullByte` if the
    /// path holds a zero byte.
    pub fn save_to_file(&self, filepath: &str) -> (r: Result<GeometryCall, HapiError>)
        ensures
            r is Err <==> has_nul(encode_utf8(filepath@)),
            r matches Err(e) ==> e@ == null_byte(),
            r matches Ok(call) ==> (call matches GeometryCall::SaveGeoToFile { session, node, path }
                && session == self.node.session && node == self.node.handle && path@
                == encode_utf8(filepath@)),
    {
        match NativeString::new(filepath) {
            Err(e) => Err(e),
            Ok(path) => Ok(
                GeometryCall::SaveGeoToFile {
                    session: self.node.session,
                    node: self.node.handle,
                    path,
                },
            ),
        }
    }

    /// The call that commits what was set on the geometry to the engine.
    pub fn commit(&self) -> (call: GeometryCall)
        ensures
            call matches GeometryCall::CommitGeo { session, node } && session == self.node.session
                && node == self.node.handle,
    {
        GeometryCall::CommitGeo { session: self.node.session, node: self.node.handle }
    }
}

} // verus!
