//! Handles: small integers that mean something only together with the
//! session that gave them out.

use crate::errors::{classify, translate, ErrorModel, HapiError, Kind};
use crate::marshal::{keep, prefix, Reply, Step};
use crate::session::{CookOptions, NativeSession};
use crate::text::NativeString;
use vstd::prelude::*;

verus! {

/// The engine's identifier of a node.
#[derive(Debug, Clone, Copy, PartialEq, Eq, Structural)]
pub struct NodeHandle(pub i32);

/// The engine's handle of an interned string.
#[derive(Debug, Clone, Copy, PartialEq, Eq, Structural)]
pub struct StringHandle(pub i32);

/// A node together with the session it lives in.
#[derive(Debug, Clone, Copy, PartialEq, Eq, Structural)]
pub struct HoudiniNode {
    pub handle: NodeHandle,
    pub session: NativeSession,
}

impl HoudiniNode {
    pub fn new(handle: NodeHandle, session: NativeSession) -> (node: HoudiniNode)
        ensures
            node.handle == handle,
            node.session == session,
    {
        HoudiniNode { handle, session }
    }
}

/// What the engine writes for "no node".
pub const NO_NODE: i32 = -1;

/// Reads a node identifier that the engine handed back where a node is
/// optional: the engine writes -1 for none.
pub fn optional_node(id: i32) -> (node: Option<NodeHandle>)
    ensures
        node == if id == NO_NODE {
            None
        } else {
            Some(NodeHandle(id))
        },
{
    if id == NO_NODE {
        None
    } else {
        Some(NodeHandle(id))
    }
}

/// The identifier to hand to the engine where a node is optional.
pub fn node_or_none(node: Option<NodeHandle>) -> (id: i32)
    ensures
        id == match node {
            Some(h) => h.0,
            None => NO_NODE,
        },
{
    match node {
        Some(h) => h.0,
        None => NO_NODE,
    }
}

/// A native call about nodes. Node types and flags are bit masks of the
/// engine, -1 for any.
#[derive(Debug)]
pub enum NodeCall {
    CreateNode {
        session: NativeSession,
        parent: i32,
        name: NativeString,
        label: Option<NativeString>,
        cook: bool,
    },
    CreateInputNode { session: NativeSession, name: NativeString },
    DeleteNode { session: NativeSession, node: NodeHandle },
    GetNodeInfo { session: NativeSession, node: NodeHandle },
    IsNodeValid { session: NativeSession, node: NodeHandle, unique_id: i32 },
    CookNode { session: NativeSession, node: NodeHandle, options: Option<CookOptions> },
    ComposeChildNodeList {
        session: NativeSession,
        node: NodeHandle,
        types: i32,
        flags: i32,
        recursive: bool,
    },
    GetComposedChildNodeList { session: NativeSession, node: NodeHandle, count: i32 },
}

/// The handles of a list of node identifiers.
pub open spec fn handles_of(ids: Seq<i32>) -> Seq<NodeHandle> {
    ids.map_values(|id: i32| NodeHandle(id))
}

impl HoudiniNode {
    /// The node that the engine created, from its answer.
    pub fn created(session: NativeSession, code: i32, id: i32) -> (r: Result<HoudiniNode, HapiError>)
        ensures
            code == 0 ==> r == Ok::<HoudiniNode, HapiError>(
                HoudiniNode { handle: NodeHandle(id), session },
            ),
            code != 0 ==> (r matches Err(e) && e@ == (ErrorModel {
                kind: Kind::Hapi(classify(code as int)),
                message: None,
                session: Some(session),
            })),
    {
        match translate(code, Some(session), None) {
            Err(e) => Err(e),
            Ok(()) => Ok(HoudiniNode { handle: NodeHandle(id), session }),
        }
    }

    /// The call that deletes this node. The handle is stale afterwards.
    pub fn delete(self) -> (call: NodeCall)
        ensures
            call matches NodeCall::DeleteNode { session, node } && session == self.session && node
                == self.handle,
    {
        NodeCall::DeleteNode { session: self.session, node: self.handle }
    }

    /// The call that cooks this node, with the given options or the
    /// engine's own.
    pub fn cook(&self, options: Option<CookOptions>) -> (call: NodeCall)
        ensures
            call matches NodeCall::CookNode { session, node, options: o } && session
                == self.session && node == self.handle && o == options,
    {
        NodeCall::CookNode { session: self.session, node: self.handle, options }
    }

    /// Whether the node is still valid, from the engine's answer.
    pub fn is_valid(&self, code: i32, answer: i32) -> (r: Result<bool, HapiError>)
        ensures
            code == 0 ==> r == Ok::<bool, HapiError>(answer == 1),
            code != 0 ==> (r matches Err(e) && e@ == (ErrorModel {
                kind: Kind::Hapi(classify(code as int)),
                message: None,
                session: Some(self.session),
            })),
    {
        match translate(code, Some(self.session), None) {
            Err(e) => Err(e),
            Ok(()) => Ok(answer == 1),
        }
    }

    /// One step of listing the children of this node. The engine first
    /// composes the list and tells its length; a length that is not
    /// positive ends with no children and no fetch; any other length is
    /// fetched exactly.
    pub fn get_children(&self, types: i32, flags: i32, recursive: bool, reply: Reply<i32>) -> (r:
        Result<Step<NodeCall, Vec<NodeHandle>>, HapiError>)
        ensures
            match reply {
                Reply::Start => r matches Ok(
                    Step::Call(
                        NodeCall::ComposeChildNodeList { session, node, types: t, flags: f, recursive: rec },
                    ),
                ) && session == self.session && node == self.handle && t == types && f == flags
                    && rec == recursive,
                Reply::Size { code, length } => if code != 0 {
                    r matches Err(e) && e@ == (ErrorModel {
                        kind: Kind::Hapi(classify(code as int)),
                        message: None,
                        session: Some(self.session),
                    })
                } else if length <= 0 {
                    r matches Ok(Step::Done(children)) && children@.len() == 0
                } else {
                    r matches Ok(
                        Step::Call(NodeCall::GetComposedChildNodeList { session, node, count }),
                    ) && session == self.session && node == self.handle && count == length
                },
                Reply::Data { code, length, values } => if code != 0 {
                    r matches Err(e) && e@ == (ErrorModel {
                        kind: Kind::Hapi(classify(code as int)),
                        message: None,
                        session: Some(self.session),
                    })
                } else {
                    r matches Ok(Step::Done(children)) && children@ == handles_of(
                        prefix(values@, length as int),
                    )
                },
            },
    {
        match reply {
            Reply::Start => Ok(
                Step::Call(
                    NodeCall::ComposeChildNodeList {
                        session: self.session,
                        node: self.handle,
                        types,
                        flags,
                        recursive,
                    },
                ),
            ),
            Reply::Size { code, length } => {
                match translate(code, Some(self.session), None) {
                    Err(e) => Err(e),
                    Ok(()) => {
                        if length > 0 {
                            Ok(
                                Step::Call(
                                    NodeCall::GetComposedChildNodeList {
                                        session: self.session,
                                        node: self.handle,
                                        count: length,
                                    },
                                ),
                            )
                        } else {
                            Ok(Step::Done(Vec::new()))
                        }
                    },
                }
            },
            Reply::Data { code, length, values } => {
                match translate(code, Some(self.session), None) {
                    Err(e) => Err(e),
                    Ok(()) => {
                        let ids = keep(values, length);
                        let mut children: Vec<NodeHandle> = Vec::new();
                        let mut i: usize = 0;
                        while i < ids.len()
                            invariant
                                i <= ids.len(),
                                children@ == handles_of(ids@.take(i as int)),
                            decreases ids.len() - i,
                        {
                            children.push(NodeHandle(ids[i]));
                            proof {
                                assert(handles_of(ids@.take(i + 1)) =~= handles_of(
                                    ids@.take(i as int),
                                ).push(NodeHandle(ids@[i as int])));
                            }
                            i += 1;
                        }
                        proof {
                            assert(ids@.take(ids@.len() as int) =~= ids@);
                        }
                        Ok(Step::Done(children))
                    },
                }
            },
        }
    }
}

} // verus!
