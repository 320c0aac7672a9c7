//! The channel: what a transport that can transmit and receive frames must
//! do, under a blocking or a non-blocking policy. The channel decides; the
//! transport performs the transfer and reports what happened.
use vstd::prelude::*;
use crate::error::SocketError;
use crate::filter::{
    table_matches, Filter, FilterError, FilterGroup, FilterGroupView, FilterGroups,
    FilterGroupsView, FilterTable, FilterView, CAN_RAW_FILTER_MAX,
};
use crate::frame::{
    lemma_wire_round_trip, parse_image, wire_image, Frame, FrameView, FRAME_SIZE, MAX_DATA_LEN,
};

verus! {

/// How a channel behaves when a transfer cannot complete at once.
#[derive(Debug, Copy, Clone, PartialEq, Eq, Structural)]
pub enum BlockingMode {
    /// The transfer suspends the caller until it completes or fails.
    Blocking,
    /// The transfer returns at once and says that it would block.
    NonBlocking,
}

/// What the transport reports of one read or write.
#[derive(Debug, Copy, Clone, PartialEq, Eq, Structural)]
pub struct IoReport {
    /// The number of bytes moved, or a negative value where the call failed.
    pub count: isize,
    /// The operating system's error code of a failed call.
    pub os_error: i32,
    /// Whether a failed call failed because nothing could be moved right now.
    pub would_block: bool,
}

/// The error for a transfer that did not move one whole frame. A call that
/// moved some other number of bytes is truncated. A failed call on a
/// non-blocking channel that reports the would-block condition would block.
/// Any other failed call is an I/O error with the reported code.
pub open spec fn transfer_error(mode: BlockingMode, report: IoReport) -> SocketError {
    if report.count >= 0 {
        SocketError::Truncated(report.count as usize)
    } else if report.would_block && mode == BlockingMode::NonBlocking {
        SocketError::WouldBlock
    } else {
        SocketError::IOError(report.os_error)
    }
}

/// What a transmit returns for the transport's report of the write.
pub open spec fn transmit_result(mode: BlockingMode, report: IoReport) -> Result<(), SocketError> {
    if report.count == FRAME_SIZE {
        Ok(())
    } else {
        Err(transfer_error(mode, report))
    }
}

/// What a receive returns for the transport's report of the read and the
/// contents of the read buffer. A whole frame's worth of bytes is read as a
/// frame without judging what it says.
pub open spec fn receive_result(mode: BlockingMode, report: IoReport, buffer: Seq<u8>) -> Result<
    FrameView,
    SocketError,
> {
    if report.count == FRAME_SIZE {
        match parse_image(buffer) {
            Some(frame) => Ok(frame),
            None => Err(SocketError::Truncated(buffer.len() as usize)),
        }
    } else {
        Err(transfer_error(mode, report))
    }
}

/// The status flags to set on the transport for the requested policy: the
/// current flags with the non-blocking bits switched on or off.
pub open spec fn flags_for(nonblocking: bool, flags: i32, nonblocking_bits: i32) -> i32 {
    if nonblocking {
        flags | nonblocking_bits
    } else {
        flags & !nonblocking_bits
    }
}

/// The requested flags differ from the current ones in the non-blocking bits
/// alone, and those are all set or all clear as requested.
pub proof fn lemma_flags_for(nonblocking: bool, flags: i32, nonblocking_bits: i32)
    ensures
        flags_for(nonblocking, flags, nonblocking_bits) & !nonblocking_bits == flags
            & !nonblocking_bits,
        nonblocking ==> flags_for(nonblocking, flags, nonblocking_bits) & nonblocking_bits
            == nonblocking_bits,
        !nonblocking ==> flags_for(nonblocking, flags, nonblocking_bits) & nonblocking_bits == 0,
{
    assert((flags | nonblocking_bits) & !nonblocking_bits == flags & !nonblocking_bits && (flags
        | nonblocking_bits) & nonblocking_bits == nonblocking_bits && (flags & !nonblocking_bits)
        & !nonblocking_bits == flags & !nonblocking_bits && (flags & !nonblocking_bits)
        & nonblocking_bits == 0) by (bit_vector);
}

/// A frame that was written whole and read back whole is received as it was
/// sent, under either policy.
pub proof fn lemma_loopback(mode: BlockingMode, frame: FrameView, report: IoReport)
    requires
        frame.reserved.len() == 3,
        frame.data.len() == MAX_DATA_LEN,
        report.count == FRAME_SIZE,
    ensures
        transmit_result(mode, report) == Ok::<(), SocketError>(()),
        receive_result(mode, report, wire_image(frame)) == Ok::<FrameView, SocketError>(frame),
{
    lemma_wire_round_trip(frame);
}

/// The would-block signal belongs to the non-blocking policy alone. There, a
/// failed call that reports the condition gives it, on transmit and on
/// receive alike; a blocking channel never gives it.
pub proof fn lemma_would_block(mode: BlockingMode, report: IoReport, buffer: Seq<u8>)
    ensures
        mode == BlockingMode::Blocking ==> transfer_error(mode, report) != SocketError::WouldBlock,
        mode == BlockingMode::NonBlocking && report.count < 0 && report.would_block ==> {
            &&& transmit_result(mode, report) == Err::<(), SocketError>(SocketError::WouldBlock)
            &&& receive_result(mode, report, buffer) == Err::<FrameView, SocketError>(
                SocketError::WouldBlock,
            )
        },
{
}

/// What a channel holds.
pub struct ChannelView {
    /// The handle of the transport.
    pub fd: i32,
    /// The policy that every transfer follows.
    pub mode: BlockingMode,
    /// The filters installed on the channel, in order.
    pub filters: Seq<FilterView>,
}

/// One endpoint on the bus: a transport handle, the blocking policy in
/// force, and the one group of filters installed on it.
#[derive(Debug)]
pub struct Channel {
    mode: BlockingMode,
    filters: FilterGroup,
}

impl View for Channel {
    type V = ChannelView;

    closed spec fn view(&self) -> ChannelView {
        ChannelView { fd: self.filters@.fd, mode: self.mode, filters: self.filters@.filters }
    }
}

impl Channel {
    /// The channel on a freshly opened transport: blocking, with no filter
    /// of its own.
    pub fn new(fd: i32) -> (c: Channel)
        ensures
            c@ == (ChannelView { fd, mode: BlockingMode::Blocking, filters: Seq::empty() }),
    {
        Channel { mode: BlockingMode::Blocking, filters: FilterGroup::new(fd) }
    }

    /// The handle of the transport.
    pub fn fd(&self) -> (r: i32)
        ensures
            r == self@.fd,
    {
        self.filters.fd()
    }

    /// The policy in force.
    pub fn mode(&self) -> (r: BlockingMode)
        ensures
            r == self@.mode,
    {
        self.mode
    }

    /// The status flags that the transport must be given to switch to the
    /// requested policy, from its current `flags` and the bits that mean
    /// non-blocking there.
    pub fn status_flags(nonblocking: bool, flags: i32, nonblocking_bits: i32) -> (r: i32)
        ensures
            r == flags_for(nonblocking, flags, nonblocking_bits),
    {
        if nonblocking {
            flags | nonblocking_bits
        } else {
            flags & !nonblocking_bits
        }
    }

    /// Records the policy that the transport has been switched to. Every
    /// later transfer is judged by it.
    pub fn set_nonblocking(&mut self, nonblocking: bool)
        ensures
            final(self)@ == (ChannelView {
                mode: if nonblocking {
                    BlockingMode::NonBlocking
                } else {
                    BlockingMode::Blocking
                },
                ..old(self)@
            }),
    {
        self.mode = if nonblocking {
            BlockingMode::NonBlocking
        } else {
            BlockingMode::Blocking
        };
    }

    /// What a transmit returns, given the transport's report of writing one
    /// frame.
    pub fn transmit_outcome(&self, report: IoReport) -> (r: Result<(), SocketError>)
        ensures
            r == transmit_result(self@.mode, report),
    {
        if report.count == FRAME_SIZE as isize {
            Ok(())
        } else {
            Err(self.transfer_failure(report))
        }
    }

    /// What a receive returns, given the transport's report of reading one
    /// frame into `buffer`. A short read is an error of the transfer: it is
    /// never taken for a frame.
    pub fn receive_outcome(&self, report: IoReport, buffer: &[u8; 16]) -> (r: Result<
        Frame,
        SocketError,
    >)
        ensures
            match r {
                Ok(frame) => receive_result(self@.mode, report, buffer@) == Ok::<
                    FrameView,
                    SocketError,
                >(frame@),
                Err(e) => receive_result(self@.mode, report, buffer@) == Err::<
                    FrameView,
                    SocketError,
                >(e),
            },
    {
        if report.count == FRAME_SIZE as isize {
            match Frame::from_bytes(buffer.as_slice()) {
                Some(frame) => Ok(frame),
                None => Err(SocketError::Truncated(buffer.len())),
            }
        } else {
            Err(self.transfer_failure(report))
        }
    }

    /// Adds a filter to the channel's group. A full group refuses and the
    /// channel stays as it is; the transport's table is then left alone.
    pub fn add_filter(&mut self, filter: Filter) -> (r: Result<(), FilterError>)
        ensures
            old(self)@.filters.len() < CAN_RAW_FILTER_MAX ==> r is Ok && final(self)@ == (
            ChannelView { filters: old(self)@.filters.push(filter@), ..old(self)@ }),
            old(self)@.filters.len() >= CAN_RAW_FILTER_MAX ==> r == Err::<(), FilterError>(
                FilterError::CapacityExceeded,
            ) && final(self)@ == old(self)@,
            final(self)@.filters.len() <= CAN_RAW_FILTER_MAX,
    {
        self.filters.add_filter(filter)
    }

    /// Replaces the channel's filters by `filters`, in their order. A set
    /// larger than the group's capacity is refused and the channel stays as
    /// it is.
    pub fn set_filters(&mut self, filters: &[Filter]) -> (r: Result<(), FilterError>)
        ensures
            filters@.len() <= CAN_RAW_FILTER_MAX ==> r is Ok && final(self)@ == (ChannelView {
                filters: Seq::new(filters@.len(), |i: int| filters@[i]@),
                ..old(self)@
            }),
            filters@.len() > CAN_RAW_FILTER_MAX ==> r == Err::<(), FilterError>(
                FilterError::CapacityExceeded,
            ) && final(self)@ == old(self)@,
            final(self)@.filters.len() <= CAN_RAW_FILTER_MAX,
    {
        self.filters.set_filters(filters)
    }

    /// Removes every filter from the channel's group.
    pub fn clear_filters(&mut self)
        ensures
            final(self)@ == (ChannelView { filters: Seq::empty(), ..old(self)@ }),
    {
        self.filters.clear_filters();
    }

    /// What the transport is to be given so that its table holds the
    /// channel's filters.
    pub fn filter_table(&self) -> (t: FilterTable)
        ensures
            table_matches(t, self@.filters),
            t matches FilterTable::Install(bytes) ==> bytes@.len() == 8 * self@.filters.len()
                && bytes@.len() <= 8 * CAN_RAW_FILTER_MAX,
    {
        self.filters.table()
    }

    /// The channel's filter groups: this kind of channel has exactly one.
    pub fn filter_groups(&self) -> (r: FilterGroups)
        ensures
            r@ == (FilterGroupsView {
                groups: seq![FilterGroupView { fd: self@.fd, filters: self@.filters }],
                position: 0,
            }),
    {
        let mut groups: Vec<FilterGroup> = Vec::new();
        groups.push(self.filters.clone());
        let r = FilterGroups::new(groups);
        assert(r@.groups =~= seq![FilterGroupView { fd: self@.fd, filters: self@.filters }]);
        r
    }

    fn transfer_failure(&self, report: IoReport) -> (e: SocketError)
        requires
            report.count != FRAME_SIZE,
        ensures
            e == transfer_error(self@.mode, report),
    {
        if report.count >= 0 {
            SocketError::Truncated(report.count as usize)
        } else if report.would_block && matches!(self.mode, BlockingMode::NonBlocking) {
            SocketError::WouldBlock
        } else {
            SocketError::IOError(report.os_error)
        }
    }
}

} // verus!
