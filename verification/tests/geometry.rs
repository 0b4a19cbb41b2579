use hapi_rs::attribute::{AttributeCall, AttributeInfo, AttributeOwner, StorageType};
use hapi_rs::errors::{HapiResult, Kind};
use hapi_rs::geometry::{CurveInfo, CurveType, GeoInfo, Geometry, GeometryCall, GroupType, PartInfo, PartType};
use hapi_rs::marshal::F32Bits;
use hapi_rs::node::{HoudiniNode, NodeHandle, StringHandle};
use hapi_rs::session::{NativeSession, SessionKind};

fn session() -> NativeSession {
    NativeSession { kind: SessionKind::InProcess, id: 2 }
}

fn geo(part_count: i32) -> Geometry {
    let node = HoudiniNode::new(NodeHandle(6), session());
    Geometry::new(
        node,
        GeoInfo {
            node_id: NodeHandle(6),
            name_sh: StringHandle(1),
            is_editable: true,
            is_templated: false,
            is_display_geo: true,
            has_geo_changed: true,
            has_material_changed: false,
            point_group_count: 2,
            primitive_group_count: 5,
            part_count,
        },
    )
}

fn part() -> PartInfo {
    PartInfo {
        part_id: 4,
        vertex_attribute_count: 1,
        point_attribute_count: 2,
        prim_attribute_count: 3,
        detail_attribute_count: 4,
        ..PartInfo::default().with_face_count(12).with_point_count(8).with_vertex_count(24)
    }
}

#[test]
fn part_metadata() {
    let g = geo(1);
    assert!(matches!(g.part_info(3), GeometryCall::GetPartInfo { part_id: 3, node: NodeHandle(6), .. }));
    match g.set_part_info(&part()) {
        GeometryCall::SetPartInfo { part_id, info, session: s, .. } => {
            assert_eq!(part_id, 4);
            assert_eq!(info, part());
            assert_eq!(s, session());
        }
        _ => panic!("wrong call"),
    }
    assert!(matches!(g.geo_info(), GeometryCall::GetGeoInfo { .. }));
    assert!(matches!(g.commit(), GeometryCall::CommitGeo { node: NodeHandle(6), .. }));
    assert!(matches!(
        g.get_face_counts(&part()),
        GeometryCall::GetFaceCounts { part_id: 4, start: 0, length: 12, .. }
    ));
}

#[test]
fn part_info_builders() {
    let p = PartInfo::default()
        .with_part_type(PartType::Mesh)
        .with_face_count(1)
        .with_point_count(3)
        .with_vertex_count(3);
    assert_eq!(p.part_type(), PartType::Mesh);
    assert_eq!(p.face_count(), 1);
    assert_eq!(p.point_count(), 3);
    assert_eq!(p.vertex_count(), 3);
    assert_eq!(p.part_id(), 0);
    assert_eq!(part().attribute_counts(), [1, 2, 3, 4]);
}

#[test]
fn one_call_for_every_part() {
    let calls = geo(3).partitions();
    assert_eq!(calls.len(), 3);
    for (i, call) in calls.iter().enumerate() {
        match call {
            GeometryCall::GetPartInfo { part_id, .. } => assert_eq!(*part_id, i as i32),
            _ => panic!("wrong call"),
        }
    }
    assert!(geo(0).partitions().is_empty());
    assert!(geo(-2).partitions().is_empty());
}

#[test]
fn lists_carry_their_length() {
    let g = geo(1);
    match g.set_vertex_list(0, &[0, 1, 2]).unwrap() {
        GeometryCall::SetVertexList { list, start, length, part_id, .. } => {
            assert_eq!(list, vec![0, 1, 2]);
            assert_eq!(start, 0);
            assert_eq!(length, 3);
            assert_eq!(part_id, 0);
        }
        _ => panic!("wrong call"),
    }
    match g.set_face_counts(0, &[3]).unwrap() {
        GeometryCall::SetFaceCounts { counts, start, length, .. } => {
            assert_eq!(counts, vec![3]);
            assert_eq!(start, 0);
            assert_eq!(length, 1);
        }
        _ => panic!("wrong call"),
    }
    match g.set_curve_counts(2, &[4, 4]).unwrap() {
        GeometryCall::SetCurveCounts { counts, length, part_id, .. } => {
            assert_eq!(counts, vec![4, 4]);
            assert_eq!(length, 2);
            assert_eq!(part_id, 2);
        }
        _ => panic!("wrong call"),
    }
    match g.set_curve_knots(2, &[F32Bits(0), F32Bits(1.0f32.to_bits())]).unwrap() {
        GeometryCall::SetCurveKnots { knots, length, .. } => {
            assert_eq!(knots.len(), 2);
            assert_eq!(length, 2);
        }
        _ => panic!("wrong call"),
    }
    assert!(matches!(g.set_vertex_list(0, &[]).unwrap(), GeometryCall::SetVertexList { length: 0, .. }));
}

#[test]
fn curves() {
    let g = geo(1);
    let info = CurveInfo {
        curve_type: CurveType::Nurbs,
        curve_count: 2,
        vertex_count: 8,
        knot_count: 12,
        is_periodic: false,
        is_rational: false,
        order: 4,
        has_knots: true,
    };
    match g.set_curve_info(&info, 1) {
        GeometryCall::SetCurveInfo { part_id, info: i, .. } => {
            assert_eq!(part_id, 1);
            assert_eq!(i, info);
        }
        _ => panic!("wrong call"),
    }
    assert!(matches!(g.curve_info(1), GeometryCall::GetCurveInfo { part_id: 1, .. }));
    assert!(matches!(g.curve_counts(1, 0, 2), GeometryCall::GetCurveCounts { part_id: 1, start: 0, length: 2, .. }));
    assert!(matches!(g.curve_orders(1, 1, 1), GeometryCall::GetCurveOrders { start: 1, length: 1, .. }));
    assert!(matches!(g.curve_knots(1, 0, 12), GeometryCall::GetCurveKnots { length: 12, .. }));
    assert!(matches!(g.curve_counts(1, 0, -2), GeometryCall::GetCurveCounts { length: 0, .. }));
}

#[test]
fn groups_are_counted_by_type() {
    let g = geo(1);
    assert_eq!(g.group_count_by_type(GroupType::Point), 2);
    assert_eq!(g.group_count_by_type(GroupType::Prim), 5);
    assert_eq!(g.group_count_by_type(GroupType::Invalid), 0);
    assert_eq!(g.group_count_by_type(GroupType::Max), 0);
    assert_eq!(g.info.part_count(), 1);
    assert_eq!(g.info.point_group_count(), 2);
    assert_eq!(g.info.primitive_group_count(), 5);
    assert_eq!(part().element_count_by_group(GroupType::Point), 8);
    assert_eq!(part().element_count_by_group(GroupType::Prim), 12);
    assert_eq!(part().element_count_by_group(GroupType::Invalid), 0);
    assert_eq!(part().element_count_by_group(GroupType::Max), 0);
}

#[test]
fn group_names_by_type() {
    let g = geo(1);
    assert!(matches!(
        g.get_group_names(GroupType::Point).unwrap(),
        GeometryCall::GetGroupNames { group_type: GroupType::Point, count: 2, .. }
    ));
    assert!(matches!(
        g.get_group_names(GroupType::Prim).unwrap(),
        GeometryCall::GetGroupNames { group_type: GroupType::Prim, count: 5, .. }
    ));
    for other in [GroupType::Invalid, GroupType::Max] {
        let e = g.get_group_names(other).unwrap_err();
        assert_eq!(e.kind, Kind::Hapi(HapiResult::InvalidArgument));
    }
}

#[test]
fn attribute_names_by_owner() {
    let g = geo(1);
    let p = part();
    let expected = [
        (AttributeOwner::Vertex, 1),
        (AttributeOwner::Point, 2),
        (AttributeOwner::Prim, 3),
        (AttributeOwner::Detail, 4),
    ];
    for (owner, n) in expected {
        match g.get_attribute_names(owner, &p).unwrap() {
            GeometryCall::GetAttributeNames { owner: o, count, part_id, .. } => {
                assert_eq!(o, owner);
                assert_eq!(count, n);
                assert_eq!(part_id, 4);
            }
            _ => panic!("wrong call"),
        }
    }
    for other in [AttributeOwner::Invalid, AttributeOwner::Max] {
        let e = g.get_attribute_names(other, &p).unwrap_err();
        assert_eq!(e.kind, Kind::Hapi(HapiResult::InvalidArgument));
    }
}

#[test]
fn attributes_by_name() {
    let g = geo(1);
    match g.get_attribute(0, AttributeOwner::Point, "Cd").unwrap() {
        AttributeCall::GetAttributeInfo { name, owner, part_id, node, .. } => {
            assert_eq!(name.as_bytes(), b"Cd");
            assert_eq!(owner, AttributeOwner::Point);
            assert_eq!(part_id, 0);
            assert_eq!(node, NodeHandle(6));
        }
        _ => panic!("wrong call"),
    }
    assert_eq!(g.get_attribute(0, AttributeOwner::Point, "C\0d").unwrap_err().kind, Kind::NullByte);
    let info = AttributeInfo::default().with_count(3).with_tuple_size(3).with_storage(StorageType::Float);
    match g.add_attribute("P", 0, &info).unwrap() {
        AttributeCall::AddAttribute { name, info: i, .. } => {
            assert_eq!(name.as_bytes(), b"P");
            assert_eq!(i, info);
        }
        _ => panic!("wrong call"),
    }
    assert_eq!(g.add_attribute("\0", 0, &info).unwrap_err().kind, Kind::NullByte);
}

#[test]
fn group_membership() {
    let g = geo(1);
    match g.add_group(0, "selected", GroupType::Point).unwrap() {
        GeometryCall::AddGroup { name, group_type, .. } => {
            assert_eq!(name.as_bytes(), b"selected");
            assert_eq!(group_type, GroupType::Point);
        }
        _ => panic!("wrong call"),
    }
    match g.set_group_membership(0, GroupType::Point, "selected", &[1, 0, 1]).unwrap() {
        GeometryCall::SetGroupMembership { membership, start, length, .. } => {
            assert_eq!(membership, vec![1, 0, 1]);
            assert_eq!(start, 0);
            assert_eq!(length, 3);
        }
        _ => panic!("wrong call"),
    }
    // Without the part, its metadata is fetched first.
    assert!(matches!(
        g.get_group_membership(None, GroupType::Prim, "selected").unwrap(),
        GeometryCall::GetPartInfo { part_id: 0, .. }
    ));
    assert!(matches!(
        g.get_group_membership(Some(&part()), GroupType::Prim, "selected").unwrap(),
        GeometryCall::GetGroupMembership { part_id: 4, start: 0, length: 12, .. }
    ));
    assert!(matches!(
        g.get_group_membership(Some(&part()), GroupType::Point, "selected").unwrap(),
        GeometryCall::GetGroupMembership { length: 8, .. }
    ));
    assert_eq!(g.add_group(0, "\0", GroupType::Point).unwrap_err().kind, Kind::NullByte);
    assert_eq!(g.set_group_membership(0, GroupType::Point, "a\0", &[]).unwrap_err().kind, Kind::NullByte);
    assert_eq!(g.get_group_membership(None, GroupType::Point, "a\0").unwrap_err().kind, Kind::NullByte);
}

#[test]
fn geometry_is_saved_to_a_file() {
    let g = geo(1);
    match g.save_to_file("/tmp/out.bgeo").unwrap() {
        GeometryCall::SaveGeoToFile { path, .. } => assert_eq!(path.as_bytes(), b"/tmp/out.bgeo"),
        _ => panic!("wrong call"),
    }
    assert_eq!(g.save_to_file("/tmp/\0").unwrap_err().kind, Kind::NullByte);
}
