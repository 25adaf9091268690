//! The wire messages the controller hands to the host for delivery to the
//! out-of-process navigation coordinator, and the model of what each message
//! does to the joint session history's entry count.

use vstd::prelude::*;

use crate::urls::{Url, UrlView};

verus! {

/// How far and which way a traversal moves the joint session history pointer.
#[derive(Clone, Copy, PartialEq, Eq, Structural, Debug)]
pub enum TraversalDirection {
    Back(u64),
    Forward(u64),
}

/// A message to the navigation coordinator. All are fire-and-forget except
/// `JointSessionHistoryLength` (replied to with the entry count, a `u32`) and
/// `GetHistoryState` (replied to with the stored payload, if any).
pub enum CoordinatorMsg {
    TraverseHistory(TraversalDirection),
    PushHistoryState(u64, Url),
    ReplaceHistoryState(u64, Url),
    JointSessionHistoryLength,
    GetHistoryState(u64),
    RemoveHistoryStates(Vec<u64>),
    SetHistoryState(u64, Vec<u8>),
}

/// The mathematical model of a [`CoordinatorMsg`].
pub ghost enum MsgView {
    TraverseHistory(TraversalDirection),
    PushHistoryState(u64, UrlView),
    ReplaceHistoryState(u64, UrlView),
    JointSessionHistoryLength,
    GetHistoryState(u64),
    RemoveHistoryStates(Seq<u64>),
    SetHistoryState(u64, Seq<u8>),
}

impl View for CoordinatorMsg {
    type V = MsgView;

    open spec fn view(&self) -> MsgView {
        match self {
            CoordinatorMsg::TraverseHistory(d) => MsgView::TraverseHistory(*d),
            CoordinatorMsg::PushHistoryState(id, u) => MsgView::PushHistoryState(*id, u@),
            CoordinatorMsg::ReplaceHistoryState(id, u) => MsgView::ReplaceHistoryState(*id, u@),
            CoordinatorMsg::JointSessionHistoryLength => MsgView::JointSessionHistoryLength,
            CoordinatorMsg::GetHistoryState(id) => MsgView::GetHistoryState(*id),
            CoordinatorMsg::RemoveHistoryStates(ids) => MsgView::RemoveHistoryStates(ids@),
            CoordinatorMsg::SetHistoryState(id, b) => MsgView::SetHistoryState(*id, b@),
        }
    }
}

pub open spec fn views_of(msgs: Seq<CoordinatorMsg>) -> Seq<MsgView> {
    msgs.map(|i: int, m: CoordinatorMsg| m@)
}

/// How one message changes the number of entries the coordinator holds: a
/// push appends a new entry; every other message leaves the count alone.
pub open spec fn entry_count_delta(m: MsgView) -> int {
    match m {
        MsgView::PushHistoryState(_, _) => 1,
        _ => 0,
    }
}

/// The coordinator's entry count after it has applied `msgs` in order,
/// starting from `count` entries.
pub open spec fn entry_count_after(count: int, msgs: Seq<MsgView>) -> int
    decreases msgs.len(),
{
    if msgs.len() == 0 {
        count
    } else {
        entry_count_after(count + entry_count_delta(msgs[0]), msgs.drop_first())
    }
}

} // verus!
