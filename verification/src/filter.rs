//! Acceptance filters: an identifier and a mask, and the bounded group of
//! filters that one channel installs together.
use vstd::prelude::*;
use crate::canid::{
    split_word, word_bytes, word_id, word_is_extended, word_is_remote, CAN_EFF_FLAG, CAN_EFF_MASK,
    CAN_RTR_FLAG, CAN_SFF_MASK,
};

verus! {

/// What a filter holds.
pub struct FilterView {
    /// The reference identifier word.
    pub id: u32,
    /// The bits of a word that take part in the comparison.
    pub mask: u32,
}

impl FilterView {
    /// The matching rule: a received identifier word is accepted when it
    /// agrees with the reference word on every bit of the mask.
    pub open spec fn accepts(self, candidate: u32) -> bool {
        candidate & self.mask == self.id & self.mask
    }
}

/// Filter
///
/// A filter matches, when
///     <received_can_id> & mask == can_id & mask
#[derive(Debug, Copy, Clone)]
pub struct Filter {
    id: u32,
    mask: u32,
}

impl View for Filter {
    type V = FilterView;

    closed spec fn view(&self) -> FilterView {
        FilterView { id: self.id, mask: self.mask }
    }
}

impl Filter {
    /// Construct a new CAN filter.
    pub fn new(id: u32, mask: u32) -> (f: Filter)
        ensures
            f@ == (FilterView { id, mask }),
    {
        Filter { id: id, mask: mask }
    }

    /// The filter that lets every identifier word through.
    pub fn accept_all() -> (f: Filter)
        ensures
            f@ == (FilterView { id: 0, mask: 0 }),
            forall|candidate: u32| f@.accepts(candidate),
    {
        proof {
            lemma_accept_all();
        }
        Filter { id: 0, mask: 0 }
    }

    /// A filter for the standard identifier `id`. Its mask covers the eleven
    /// identifier bits and the extended and remote flags.
    pub fn new_standard(id: u32) -> (f: Filter)
        ensures
            f@ == (FilterView { id, mask: CAN_EFF_FLAG | CAN_RTR_FLAG | CAN_SFF_MASK }),
    {
        Self::new(id, CAN_EFF_FLAG | CAN_RTR_FLAG | CAN_SFF_MASK)
    }

    /// A filter for the extended identifier `id`. Its reference word carries
    /// the extended flag, and its mask covers the 29 identifier bits and the
    /// extended and remote flags.
    pub fn new_extended(id: u32) -> (f: Filter)
        ensures
            f@ == (FilterView {
                id: id | CAN_EFF_FLAG,
                mask: CAN_EFF_FLAG | CAN_RTR_FLAG | CAN_EFF_MASK,
            }),
    {
        Self::new(id | CAN_EFF_FLAG, CAN_EFF_FLAG | CAN_RTR_FLAG | CAN_EFF_MASK)
    }

    /// Replaces the mask.
    pub fn with_mask(&mut self, mask: u32) -> (r: &mut Self)
        ensures
            r@ == (FilterView { id: old(self)@.id, mask }),
            *final(self) == *final(r),
    {
        self.mask = mask;
        self
    }

    /// Lets remote requests through: sets the remote flag in the reference
    /// word and leaves the mask alone.
    ///
    /// This is the rule this crate follows, and the only thing the call
    /// does. Where the mask covers the remote flag, as the masks of
    /// `new_standard` and `new_extended` do, the filter from then on accepts
    /// the remote requests for its identifier and no data frame. Where the
    /// mask leaves the flag out, the call changes nothing about matching.
    pub fn allow_remote(&mut self) -> (r: &mut Self)
        ensures
            r@ == (FilterView { id: old(self)@.id | CAN_RTR_FLAG, mask: old(self)@.mask }),
            *final(self) == *final(r),
    {
        self.id = self.id | CAN_RTR_FLAG;
        self
    }

    /// The reference identifier word.
    pub fn id(&self) -> (r: u32)
        ensures
            r == self@.id,
    {
        self.id
    }

    /// The mask.
    pub fn mask(&self) -> (r: u32)
        ensures
            r == self@.mask,
    {
        self.mask
    }

    /// Whether the filter accepts the received identifier word `candidate`.
    pub fn matches(&self, candidate: u32) -> (r: bool)
        ensures
            r == self@.accepts(candidate),
    {
        candidate & self.mask == self.id & self.mask
    }
}

/// The filter with an empty mask accepts every identifier word.
pub proof fn lemma_accept_all()
    ensures
        forall|candidate: u32| (FilterView { id: 0, mask: 0 }).accepts(candidate),
{
    assert forall|candidate: u32| (FilterView { id: 0, mask: 0 }).accepts(candidate) by {
        assert(candidate & 0u32 == 0u32 & 0u32) by (bit_vector);
    }
}

/// A standard filter accepts exactly the standard data frames that carry its
/// identifier, with or without the error flag.
pub proof fn lemma_standard_filter(id: u32, candidate: u32)
    requires
        id <= CAN_SFF_MASK,
    ensures
        (FilterView { id, mask: CAN_EFF_FLAG | CAN_RTR_FLAG | CAN_SFF_MASK }).accepts(candidate)
            <==> !word_is_extended(candidate) && !word_is_remote(candidate) && word_id(candidate)
            == id,
{
    let w: u32 = candidate;
    assert((w & (0x8000_0000u32 | 0x4000_0000u32 | 0x7FFu32) == id & (0x8000_0000u32
        | 0x4000_0000u32 | 0x7FFu32)) <==> (w & 0x8000_0000u32 == 0 && w & 0x4000_0000u32 == 0 && w
        & 0x7FFu32 == id)) by (bit_vector)
        requires
            id <= 0x7FFu32,
    ;
}

/// An extended filter accepts exactly the extended data frames that carry
/// its identifier, with or without the error flag.
pub proof fn lemma_extended_filter(id: u32, candidate: u32)
    requires
        id <= CAN_EFF_MASK,
    ensures
        (FilterView {
            id: id | CAN_EFF_FLAG,
            mask: CAN_EFF_FLAG | CAN_RTR_FLAG | CAN_EFF_MASK,
        }).accepts(candidate) <==> word_is_extended(candidate) && !word_is_remote(candidate)
            && word_id(candidate) == id,
{
    let w: u32 = candidate;
    assert((w & (0x8000_0000u32 | 0x4000_0000u32 | 0x1FFF_FFFFu32) == (id | 0x8000_0000u32) & (
    0x8000_0000u32 | 0x4000_0000u32 | 0x1FFF_FFFFu32)) <==> (w & 0x8000_0000u32 != 0 && w
        & 0x4000_0000u32 == 0 && w & 0x1FFF_FFFFu32 == id)) by (bit_vector)
        requires
            id <= 0x1FFF_FFFFu32,
    ;
}

/// What `allow_remote` does to matching. Where the mask covers the remote
/// flag and the reference word did not carry it, the filter afterwards
/// accepts a word exactly when the word is a remote request and the filter
/// accepted the same word without the remote flag before.
pub proof fn lemma_allow_remote(filter: FilterView, candidate: u32)
    requires
        filter.mask & CAN_RTR_FLAG != 0,
        filter.id & CAN_RTR_FLAG == 0,
    ensures
        (FilterView { id: filter.id | CAN_RTR_FLAG, mask: filter.mask }).accepts(candidate)
            <==> word_is_remote(candidate) && filter.accepts(candidate & !CAN_RTR_FLAG),
{
    let w: u32 = candidate;
    let id: u32 = filter.id;
    let m: u32 = filter.mask;
    assert((w & m == (id | 0x4000_0000u32) & m) <==> (w & 0x4000_0000u32 != 0 && (w
        & !0x4000_0000u32) & m == id & m)) by (bit_vector)
        requires
            m & 0x4000_0000u32 != 0,
            id & 0x4000_0000u32 == 0,
    ;
}

/// Where the mask leaves the remote flag out, `allow_remote` changes nothing
/// about what the filter accepts.
pub proof fn lemma_allow_remote_unmasked(filter: FilterView, candidate: u32)
    requires
        filter.mask & CAN_RTR_FLAG == 0,
    ensures
        (FilterView { id: filter.id | CAN_RTR_FLAG, mask: filter.mask }).accepts(candidate)
            <==> filter.accepts(candidate),
{
    let id: u32 = filter.id;
    let m: u32 = filter.mask;
    assert((id | 0x4000_0000u32) & m == id & m) by (bit_vector)
        requires
            m & 0x4000_0000u32 == 0,
    ;
}

/// The most filters one group holds: the limit of the kernel's filter table.
pub const CAN_RAW_FILTER_MAX: usize = 512;

/// Why a change to a filter group was refused.
#[derive(Debug, Copy, Clone, PartialEq, Eq, Structural)]
pub enum FilterError {
    /// The group would hold more filters than the transport's table takes.
    CapacityExceeded,
}

/// The eight bytes of one table entry: the reference word, then the mask,
/// each least significant byte first.
pub open spec fn filter_bytes(filter: FilterView) -> Seq<u8> {
    word_bytes(filter.id) + word_bytes(filter.mask)
}

/// The filter table as one contiguous array of entries, in order.
pub open spec fn table_bytes(filters: Seq<FilterView>) -> Seq<u8>
    decreases filters.len(),
{
    if filters.len() == 0 {
        Seq::empty()
    } else {
        table_bytes(filters.drop_last()) + filter_bytes(filters.last())
    }
}

/// The table takes eight bytes for each filter, and entry `i` stands at
/// bytes `8 * i` to `8 * i + 7`.
pub proof fn lemma_table_layout(filters: Seq<FilterView>)
    ensures
        table_bytes(filters).len() == 8 * filters.len(),
        forall|i: int|
            0 <= i < filters.len() ==> #[trigger] table_bytes(filters).subrange(8 * i, 8 * i + 8)
                == filter_bytes(filters[i]),
    decreases filters.len(),
{
    if filters.len() > 0 {
        let head = filters.drop_last();
        lemma_table_layout(head);
        let all = table_bytes(filters);
        assert forall|i: int| 0 <= i < filters.len() implies #[trigger] all.subrange(
            8 * i,
            8 * i + 8,
        ) == filter_bytes(filters[i]) by {
            if i < head.len() {
                assert(table_bytes(head).subrange(8 * i, 8 * i + 8) == filter_bytes(head[i]));
                assert(all.subrange(8 * i, 8 * i + 8) =~= table_bytes(head).subrange(
                    8 * i,
                    8 * i + 8,
                ));
            } else {
                assert(all.subrange(8 * i, 8 * i + 8) =~= filter_bytes(filters.last()));
            }
        }
    }
}

/// What a channel hands its transport to bring the transport's filter table
/// in line with a group.
#[derive(Debug)]
pub enum FilterTable {
    /// No filter is left: the transport is told to drop its table, with no
    /// entry to point at.
    Clear,
    /// The whole table, to be installed in one call.
    Install(Vec<u8>),
}

/// The table for a set of filters: the empty set is a case of its own.
pub open spec fn table_matches(table: FilterTable, filters: Seq<FilterView>) -> bool {
    match table {
        FilterTable::Clear => filters.len() == 0,
        FilterTable::Install(bytes) => filters.len() > 0 && bytes@ == table_bytes(filters),
    }
}

/// What a filter group holds.
pub struct FilterGroupView {
    /// The handle of the channel that the group is bound to.
    pub fd: i32,
    /// The filters, in the order in which they were added.
    pub filters: Seq<FilterView>,
}

/// The filters of one channel, at most `CAN_RAW_FILTER_MAX` of them.
#[derive(Debug)]
pub struct FilterGroup {
    fd: i32,
    filters: Vec<Filter>,
}

impl View for FilterGroup {
    type V = FilterGroupView;

    closed spec fn view(&self) -> FilterGroupView {
        FilterGroupView {
            fd: self.fd,
            filters: Seq::new(self.filters@.len(), |i: int| self.filters@[i]@),
        }
    }
}

impl FilterGroup {
    #[verifier::type_invariant]
    spec fn bounded(self) -> bool {
        self.filters@.len() <= CAN_RAW_FILTER_MAX
    }

    /// An empty group for the channel with handle `fd`.
    pub fn new(fd: i32) -> (g: FilterGroup)
        ensures
            g@ == (FilterGroupView { fd, filters: Seq::empty() }),
    {
        let g = FilterGroup { fd: fd, filters: Vec::new() };
        assert(g@.filters =~= Seq::empty());
        g
    }

    /// The handle of the channel that the group is bound to.
    pub fn fd(&self) -> (r: i32)
        ensures
            r == self@.fd,
    {
        self.fd
    }

    /// The number of filters in the group.
    pub fn len(&self) -> (r: usize)
        ensures
            r == self@.filters.len(),
            r <= CAN_RAW_FILTER_MAX,
    {
        proof {
            use_type_invariant(self);
        }
        self.filters.len()
    }

    /// The filter at `index`, where the group has one there.
    pub fn get(&self, index: usize) -> (r: Option<Filter>)
        ensures
            match r {
                Some(f) => index < self@.filters.len() && f@ == self@.filters[index as int],
                None => index >= self@.filters.len(),
            },
    {
        if index < self.filters.len() {
            Some(self.filters[index])
        } else {
            None
        }
    }

    /// Adds a filter at the end. A group that is full refuses and stays as
    /// it is.
    pub fn add_filter(&mut self, filter: Filter) -> (r: Result<(), FilterError>)
        ensures
            old(self)@.filters.len() < CAN_RAW_FILTER_MAX ==> r is Ok && final(self)@ == (
            FilterGroupView { fd: old(self)@.fd, filters: old(self)@.filters.push(filter@) }),
            old(self)@.filters.len() >= CAN_RAW_FILTER_MAX ==> r == Err::<(), FilterError>(
                FilterError::CapacityExceeded,
            ) && final(self)@ == old(self)@,
            final(self)@.filters.len() <= CAN_RAW_FILTER_MAX,
    {
        proof {
            use_type_invariant(&*self);
        }
        if self.filters.len() >= CAN_RAW_FILTER_MAX {
            return Err(FilterError::CapacityExceeded);
        }
        let mut filters: Vec<Filter> = Vec::new();
        std::mem::swap(&mut self.filters, &mut filters);
        filters.push(filter);
        std::mem::swap(&mut self.filters, &mut filters);
        assert(self@.filters =~= old(self)@.filters.push(filter@));
        Ok(())
    }

    /// Removes every filter.
    pub fn clear_filters(&mut self)
        ensures
            final(self)@ == (FilterGroupView { fd: old(self)@.fd, filters: Seq::empty() }),
    {
        self.filters = Vec::new();
        assert(self@.filters =~= Seq::empty());
    }

    /// Replaces the whole set by `filters`, in their order. A set larger
    /// than the group's capacity is refused and the group stays as it is.
    pub fn set_filters(&mut self, filters: &[Filter]) -> (r: Result<(), FilterError>)
        ensures
            filters@.len() <= CAN_RAW_FILTER_MAX ==> r is Ok && final(self)@ == (FilterGroupView {
                fd: old(self)@.fd,
                filters: Seq::new(filters@.len(), |i: int| filters@[i]@),
            }),
            filters@.len() > CAN_RAW_FILTER_MAX ==> r == Err::<(), FilterError>(
                FilterError::CapacityExceeded,
            ) && final(self)@ == old(self)@,
            final(self)@.filters.len() <= CAN_RAW_FILTER_MAX,
    {
        proof {
            use_type_invariant(&*self);
        }
        if filters.len() > CAN_RAW_FILTER_MAX {
            return Err(FilterError::CapacityExceeded);
        }
        let mut copy: Vec<Filter> = Vec::new();
        let mut i: usize = 0;
        while i < filters.len()
            invariant
                i <= filters@.len(),
                copy@ == filters@.subrange(0, i as int),
            decreases filters@.len() - i,
        {
            copy.push(filters[i]);
            assert(copy@ =~= filters@.subrange(0, i + 1));
            i = i + 1;
        }
        assert(copy@ =~= filters@);
        self.filters = copy;
        assert(self@.filters =~= Seq::new(filters@.len(), |i: int| filters@[i]@));
        Ok(())
    }

    /// What the transport is to be given so that its table holds this
    /// group's filters: every entry in one array, or the order to clear the
    /// table where the group is empty.
    pub fn table(&self) -> (t: FilterTable)
        ensures
            table_matches(t, self@.filters),
            t matches FilterTable::Install(bytes) ==> bytes@.len() == 8 * self@.filters.len()
                && bytes@.len() <= 8 * CAN_RAW_FILTER_MAX,
    {
        proof {
            use_type_invariant(self);
            lemma_table_layout(self@.filters);
        }
        if self.filters.len() == 0 {
            return FilterTable::Clear;
        }
        let mut bytes: Vec<u8> = Vec::new();
        let mut i: usize = 0;
        while i < self.filters.len()
            invariant
                i <= self.filters@.len(),
                bytes@ == table_bytes(self@.filters.subrange(0, i as int)),
            decreases self.filters@.len() - i,
        {
            let id = split_word(self.filters[i].id);
            let mask = split_word(self.filters[i].mask);
            bytes.push(id[0]);
            bytes.push(id[1]);
            bytes.push(id[2]);
            bytes.push(id[3]);
            bytes.push(mask[0]);
            bytes.push(mask[1]);
            bytes.push(mask[2]);
            bytes.push(mask[3]);
            proof {
                let done = self@.filters.subrange(0, i + 1);
                assert(done.drop_last() =~= self@.filters.subrange(0, i as int));
                assert(done.last() == self.filters@[i as int]@);
                assert(bytes@ =~= table_bytes(done.drop_last()) + filter_bytes(done.last()));
            }
            i = i + 1;
        }
        assert(self@.filters.subrange(0, i as int) =~= self@.filters);
        FilterTable::Install(bytes)
    }

    /// The number of filters that the group can hold.
    pub fn num_filters(&self) -> (r: usize)
        ensures
            r == CAN_RAW_FILTER_MAX,
    {
        CAN_RAW_FILTER_MAX
    }

    /// Whether the filters work on extended (29 bit) identifiers: they do.
    pub fn extended(&self) -> (r: bool)
        ensures
            r,
    {
        true
    }
}

impl Clone for FilterGroup {
    /// A group bound to the same handle, with the same filters.
    fn clone(&self) -> (r: FilterGroup)
        ensures
            r@ == self@,
    {
        proof {
            use_type_invariant(self);
        }
        let mut filters: Vec<Filter> = Vec::new();
        let mut i: usize = 0;
        while i < self.filters.len()
            invariant
                i <= self.filters@.len(),
                filters@ == self.filters@.subrange(0, i as int),
            decreases self.filters@.len() - i,
        {
            filters.push(self.filters[i]);
            assert(filters@ =~= self.filters@.subrange(0, i + 1));
            i = i + 1;
        }
        assert(filters@ =~= self.filters@);
        FilterGroup { fd: self.fd, filters }
    }
}

/// What an enumeration of filter groups holds.
pub struct FilterGroupsView {
    /// The groups, in the order in which they are handed out.
    pub groups: Seq<FilterGroupView>,
    /// How many of them have been handed out since the last restart.
    pub position: nat,
}

/// The filter groups of a channel as a finite sequence that is walked once
/// from the front and can be restarted.
#[derive(Debug)]
pub struct FilterGroups {
    groups: Vec<FilterGroup>,
    position: usize,
}

impl View for FilterGroups {
    type V = FilterGroupsView;

    closed spec fn view(&self) -> FilterGroupsView {
        FilterGroupsView {
            groups: Seq::new(self.groups@.len(), |i: int| self.groups@[i]@),
            position: self.position as nat,
        }
    }
}

impl FilterGroups {
    #[verifier::type_invariant]
    spec fn in_range(self) -> bool {
        self.position <= self.groups@.len()
    }

    /// The enumeration of `groups`, standing at the first.
    pub fn new(groups: Vec<FilterGroup>) -> (r: FilterGroups)
        ensures
            r@ == (FilterGroupsView {
                groups: Seq::new(groups@.len(), |i: int| groups@[i]@),
                position: 0,
            }),
    {
        FilterGroups { groups, position: 0 }
    }

    /// The number of groups, handed out or not.
    pub fn len(&self) -> (r: usize)
        ensures
            r == self@.groups.len(),
            self@.position <= self@.groups.len(),
    {
        proof {
            use_type_invariant(self);
        }
        self.groups.len()
    }

    /// Hands out the next group, or `None` once all have been handed out.
    pub fn next(&mut self) -> (r: Option<FilterGroup>)
        ensures
            final(self)@.groups == old(self)@.groups,
            match r {
                Some(g) => old(self)@.position < old(self)@.groups.len() && g@ == old(
                    self,
                )@.groups[old(self)@.position as int] && final(self)@.position == old(
                    self,
                )@.position + 1,
                None => old(self)@.position >= old(self)@.groups.len() && final(self)@.position
                    == old(self)@.position,
            },
    {
        proof {
            use_type_invariant(&*self);
        }
        if self.position < self.groups.len() {
            let g = self.groups[self.position].clone();
            self.position = self.position + 1;
            Some(g)
        } else {
            None
        }
    }

    /// Goes back to the first group.
    pub fn restart(&mut self)
        ensures
            final(self)@ == (FilterGroupsView { groups: old(self)@.groups, position: 0 }),
    {
        self.position = 0;
    }
}

} // verus!
