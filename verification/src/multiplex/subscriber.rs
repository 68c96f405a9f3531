//! What the mux knows of an attached peer, and what it sends to one.

use crate::protocol::attach::ReplayOrder;
use vstd::prelude::*;

verus! {

/// An attached peer.
#[derive(Debug)]
pub struct Subscriber {
    pub peer_id: String,
    pub peer_name: Option<String>,
    pub role: Option<String>,
    pub replay_order: ReplayOrder,
    /// Whether the peer's outbound channel still takes messages.
    pub open: bool,
}

/// The model of [`Subscriber`].
#[verifier::ext_equal]
pub struct SubscriberView {
    pub peer_id: Seq<char>,
    pub peer_name: Option<Seq<char>>,
    pub role: Option<Seq<char>>,
    pub replay_order: ReplayOrder,
    pub open: bool,
}

impl View for Subscriber {
    type V = SubscriberView;

    open spec fn view(&self) -> SubscriberView {
        SubscriberView {
            peer_id: self.peer_id@,
            peer_name: self.peer_name.deep_view(),
            role: self.role.deep_view(),
            replay_order: self.replay_order,
            open: self.open,
        }
    }
}

impl DeepView for Subscriber {
    type V = SubscriberView;

    open spec fn deep_view(&self) -> SubscriberView {
        self@
    }
}

impl Subscriber {
    /// A peer whose channel is open.
    pub fn new(
        peer_id: String,
        peer_name: Option<String>,
        role: Option<String>,
        replay_order: ReplayOrder,
    ) -> (subscriber: Subscriber)
        ensures
            subscriber@ == (SubscriberView {
                peer_id: peer_id@,
                peer_name: peer_name.deep_view(),
                role: role.deep_view(),
                replay_order,
                open: true,
            }),
    {
        Subscriber { peer_id, peer_name, role, replay_order, open: true }
    }
}

impl Clone for Subscriber {
    fn clone(&self) -> (copy: Self)
        ensures
            copy@ == self@,
    {
        Subscriber {
            peer_id: self.peer_id.clone(),
            peer_name: self.peer_name.clone(),
            role: self.role.clone(),
            replay_order: self.replay_order,
            open: self.open,
        }
    }
}

/// A message to a peer: a frame, or the end of the connection.
#[derive(Debug, PartialEq, Eq)]
pub enum OutMsg {
    Frame(Vec<u8>),
    Close { code: u16, reason: String },
}

/// The model of [`OutMsg`].
#[verifier::ext_equal]
pub enum OutMsgView {
    Frame(Seq<u8>),
    Close { code: u16, reason: Seq<char> },
}

impl View for OutMsg {
    type V = OutMsgView;

    open spec fn view(&self) -> OutMsgView {
        match *self {
            OutMsg::Frame(frame) => OutMsgView::Frame(frame@),
            OutMsg::Close { code, reason } => OutMsgView::Close { code, reason: reason@ },
        }
    }
}

/// A message and the peer it goes to.
#[derive(Debug, PartialEq, Eq)]
pub struct Delivery {
    pub peer_id: String,
    pub message: OutMsg,
}

/// The model of [`Delivery`].
#[verifier::ext_equal]
pub struct DeliveryView {
    pub peer_id: Seq<char>,
    pub message: OutMsgView,
}

impl DeepView for Delivery {
    type V = DeliveryView;

    open spec fn deep_view(&self) -> DeliveryView {
        DeliveryView { peer_id: self.peer_id@, message: self.message@ }
    }
}

/// A copy of a frame.
pub fn copy_bytes(bytes: &Vec<u8>) -> (copy: Vec<u8>)
    ensures
        copy@ == bytes@,
{
    let copy = bytes.clone();
    assert(copy@ =~= bytes@);
    copy
}

} // verus!
