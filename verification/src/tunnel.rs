use vstd::prelude::*;

use crate::ctl::is_ctl_frame;
use crate::ctl::decode_ctl_message;

verus! {

/// Where the dispatcher hands an inbound frame: to the waiter of a
/// pending control request, or to the virtual serial byte stream.
#[derive(Clone, Copy, Debug, PartialEq, Eq, Structural)]
pub enum Route {
    ControlReply,
    SerialBytes,
}

/// Routes one inbound frame. A frame goes to the control waiter exactly
/// when a control request is pending and the frame parses as a control
/// message; every other frame carries serial bytes.
pub fn route_frame(frame: &Vec<u8>, ctl_pending: bool) -> (r: Route)
    ensures
        r == Route::ControlReply <==> (ctl_pending && is_ctl_frame(frame@)),
{
    if ctl_pending && decode_ctl_message(frame).is_some() {
        Route::ControlReply
    } else {
        Route::SerialBytes
    }
}

/// The dispatcher's bookkeeping: whether a control request is pending.
/// At most one control request may be outstanding at a time; the caller
/// must not begin a second one while this flag is set.
pub struct DispatcherState {
    pub ctl_pending: bool,
}

impl Default for DispatcherState {
    /// A dispatcher with no pending control request.
    fn default() -> (r: Self)
        ensures
            !r.ctl_pending,
    {
        DispatcherState { ctl_pending: false }
    }
}

impl DispatcherState {
    /// Registers the control-reply waiter for a new request. Beginning a
    /// request while another is outstanding is a programming error, so
    /// the caller must check `ctl_pending` first.
    pub fn begin_request(&mut self)
        requires
            !old(self).ctl_pending,
        ensures
            final(self).ctl_pending,
    {
        self.ctl_pending = true;
    }

    /// Clears the waiter once its reply was delivered or the request
    /// failed.
    pub fn end_request(&mut self)
        ensures
            !final(self).ctl_pending,
    {
        self.ctl_pending = false;
    }
}

/// The concatenation of a sequence of byte chunks, in order.
pub open spec fn concat_of(s: Seq<Seq<u8>>) -> Seq<u8>
    decreases s.len(),
{
    if s.len() == 0 {
        Seq::empty()
    } else {
        concat_of(s.drop_last()) + s.last()
    }
}

/// Splits an outbound write into frames of at most `mtu` bytes, in
/// order, so that a large serial write crosses the link transparently.
/// Every frame is non-empty and the frames concatenate back to `data`.
pub fn chunk_frames(data: &Vec<u8>, mtu: usize) -> (r: Vec<Vec<u8>>)
    requires
        mtu >= 1,
    ensures
        concat_of(r@.map_values(|v: Vec<u8>| v@)) == data@,
        forall|i: int| 0 <= i < r@.len() ==> 1 <= #[trigger] r@[i]@.len() <= mtu,
{
    let mut r: Vec<Vec<u8>> = Vec::new();
    let mut pos: usize = 0;
    proof {
        assert(r@.map_values(|v: Vec<u8>| v@) =~= Seq::<Seq<u8>>::empty());
        assert(data@.subrange(0, 0) =~= Seq::<u8>::empty());
    }
    while pos < data.len()
        invariant
            pos <= data@.len(),
            mtu >= 1,
            concat_of(r@.map_values(|v: Vec<u8>| v@)) == data@.subrange(0, pos as int),
            forall|i: int| 0 <= i < r@.len() ==> 1 <= #[trigger] r@[i]@.len() <= mtu,
        decreases data@.len() - pos,
    {
        let take: usize = if data.len() - pos < mtu {
            data.len() - pos
        } else {
            mtu
        };
        let end: usize = pos + take;
        let mut chunk: Vec<u8> = Vec::new();
        let mut idx: usize = pos;
        while idx < end
            invariant
                pos <= idx <= end,
                end <= data@.len(),
                chunk@ == data@.subrange(pos as int, idx as int),
            decreases end - idx,
        {
            chunk.push(data[idx]);
            proof {
                assert(data@.subrange(pos as int, idx as int + 1) =~= data@.subrange(
                    pos as int,
                    idx as int,
                ).push(data@[idx as int]));
            }
            idx = idx + 1;
        }
        proof {
            let f = |v: Vec<u8>| v@;
            assert(r@.push(chunk).map_values(f) =~= r@.map_values(f).push(chunk@));
            assert(r@.map_values(f).push(chunk@).drop_last() =~= r@.map_values(f));
            assert(concat_of(r@.map_values(f).push(chunk@)) == concat_of(r@.map_values(f))
                + chunk@);
            assert(data@.subrange(0, pos as int) + data@.subrange(
                pos as int,
                pos as int + take as int,
            ) =~= data@.subrange(0, pos as int + take as int));
        }
        r.push(chunk);
        pos = pos + take;
    }
    proof {
        assert(data@.subrange(0, data@.len() as int) =~= data@);
    }
    r
}

} // verus!
