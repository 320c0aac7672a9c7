use candev::{
    Filter, FilterError, FilterGroup, FilterGroups, FilterTable, Frame, CAN_RAW_FILTER_MAX,
};

fn word_of(frame: &Frame) -> u32 {
    let image = frame.to_bytes();
    u32::from_le_bytes([image[0], image[1], image[2], image[3]])
}

#[test]
fn filter_compares_under_its_mask() {
    let filter = Filter::new(0x123, 0x7FF);
    assert!(filter.matches(0x123));
    assert!(!filter.matches(0x124));
    // bits outside the mask do not count
    assert!(filter.matches(0x123 | 0x8000_0000));
    assert!(filter.matches(0x123 | 0x0000_0800));
    assert_eq!(filter.id(), 0x123);
    assert_eq!(filter.mask(), 0x7FF);
}

#[test]
fn accept_all_accepts_every_candidate() {
    let filter = Filter::accept_all();
    assert_eq!(filter.id(), 0);
    assert_eq!(filter.mask(), 0);
    let mut candidate: u32 = 0;
    for _ in 0..100_000 {
        assert!(filter.matches(candidate));
        candidate = candidate.wrapping_mul(1_664_525).wrapping_add(1_013_904_223);
    }
    assert!(filter.matches(0));
    assert!(filter.matches(u32::MAX));
    assert!(Filter::new(0, 0).matches(0x1234_5678));
}

#[test]
fn standard_filter_has_the_default_mask() {
    let filter = Filter::new_standard(0x123);
    assert_eq!(filter.id(), 0x123);
    assert_eq!(filter.mask(), 0xC000_07FF);
    assert_eq!(filter.mask(), libc::CAN_EFF_FLAG | libc::CAN_RTR_FLAG | libc::CAN_SFF_MASK);
}

#[test]
fn extended_filter_has_the_default_mask_and_flag() {
    let filter = Filter::new_extended(0x1234_5678);
    assert_eq!(filter.id(), 0x9234_5678);
    assert_eq!(filter.mask(), 0xDFFF_FFFF);
    assert_eq!(filter.mask(), libc::CAN_EFF_FLAG | libc::CAN_RTR_FLAG | libc::CAN_EFF_MASK);
}

#[test]
fn standard_filter_takes_its_data_frames_only() {
    let filter = Filter::new_standard(0x123);
    let data = Frame::new(0x123, &[1], false, false).unwrap();
    let error = Frame::new(0x123, &[1], false, true).unwrap();
    let remote = Frame::new(0x123, &[], true, false).unwrap();
    let other = Frame::new(0x124, &[1], false, false).unwrap();
    let extended = Frame::new(0x0012_3123, &[1], false, false).unwrap();
    assert!(filter.matches(word_of(&data)));
    assert!(filter.matches(word_of(&error)));
    assert!(!filter.matches(word_of(&remote)));
    assert!(!filter.matches(word_of(&other)));
    assert!(!filter.matches(word_of(&extended)));
}

#[test]
fn extended_filter_takes_its_data_frames_only() {
    let filter = Filter::new_extended(0x1234_5678);
    let data = Frame::new(0x1234_5678, &[1], false, false).unwrap();
    let remote = Frame::new(0x1234_5678, &[], true, false).unwrap();
    let other = Frame::new(0x1234_5679, &[1], false, false).unwrap();
    let standard = Frame::new(0x678, &[1], false, false).unwrap();
    assert!(filter.matches(word_of(&data)));
    assert!(!filter.matches(word_of(&remote)));
    assert!(!filter.matches(word_of(&other)));
    assert!(!filter.matches(word_of(&standard)));
}

#[test]
fn allow_remote_sets_the_flag_in_the_reference_word() {
    let mut filter = Filter::new_standard(0x123);
    filter.allow_remote();
    assert_eq!(filter.id(), 0x4000_0123);
    assert_eq!(filter.mask(), 0xC000_07FF);
    let data = Frame::new(0x123, &[1], false, false).unwrap();
    let remote = Frame::new(0x123, &[], true, false).unwrap();
    let other_remote = Frame::new(0x124, &[], true, false).unwrap();
    assert!(filter.matches(word_of(&remote)));
    assert!(!filter.matches(word_of(&data)));
    assert!(!filter.matches(word_of(&other_remote)));
}

#[test]
fn allow_remote_without_the_flag_in_the_mask_changes_no_match() {
    let mut filter = Filter::new(0x123, 0x7FF);
    filter.allow_remote();
    assert_eq!(filter.id(), 0x4000_0123);
    assert!(filter.matches(0x123));
    assert!(filter.matches(0x4000_0123));
    assert!(!filter.matches(0x124));
}

#[test]
fn with_mask_replaces_the_mask_and_chains() {
    let mut filter = Filter::new_standard(0x123);
    filter.with_mask(0x7F0);
    assert_eq!(filter.id(), 0x123);
    assert_eq!(filter.mask(), 0x7F0);
    assert!(filter.matches(0x12F));
    assert!(!filter.matches(0x133));
    let mut chained = Filter::new_extended(0x800);
    chained.with_mask(0xFFFF_FFFF).allow_remote();
    assert_eq!(chained.id(), 0xC000_0800);
    assert_eq!(chained.mask(), 0xFFFF_FFFF);
}

#[test]
fn capacity_is_the_kernel_limit() {
    assert_eq!(CAN_RAW_FILTER_MAX, 512);
    assert_eq!(CAN_RAW_FILTER_MAX, libc::CAN_RAW_FILTER_MAX as usize);
    let group = FilterGroup::new(0);
    assert_eq!(group.num_filters(), 512);
    assert!(group.extended());
}

#[test]
fn new_group_is_empty_and_bound_to_its_handle() {
    let group = FilterGroup::new(7);
    assert_eq!(group.fd(), 7);
    assert_eq!(group.len(), 0);
    assert!(group.get(0).is_none());
    assert!(matches!(group.table(), FilterTable::Clear));
}

#[test]
fn add_filter_appends_in_order() {
    let mut group = FilterGroup::new(3);
    assert_eq!(group.add_filter(Filter::new(1, 2)), Ok(()));
    assert_eq!(group.add_filter(Filter::new(3, 4)), Ok(()));
    assert_eq!(group.len(), 2);
    assert_eq!(group.fd(), 3);
    let first = group.get(0).unwrap();
    let second = group.get(1).unwrap();
    assert_eq!((first.id(), first.mask()), (1, 2));
    assert_eq!((second.id(), second.mask()), (3, 4));
    assert!(group.get(2).is_none());
}

#[test]
fn add_filter_beyond_capacity_fails_and_changes_nothing() {
    let mut group = FilterGroup::new(3);
    for n in 0..CAN_RAW_FILTER_MAX {
        assert_eq!(group.add_filter(Filter::new(n as u32, 0x7FF)), Ok(()));
        assert_eq!(group.len(), n + 1);
    }
    assert_eq!(group.len(), CAN_RAW_FILTER_MAX);
    assert_eq!(
        group.add_filter(Filter::new(0x7FF, 0x7FF)),
        Err(FilterError::CapacityExceeded)
    );
    assert_eq!(group.len(), CAN_RAW_FILTER_MAX);
    let last = group.get(CAN_RAW_FILTER_MAX - 1).unwrap();
    assert_eq!(last.id(), (CAN_RAW_FILTER_MAX - 1) as u32);
    assert!(group.get(CAN_RAW_FILTER_MAX).is_none());
    // and it keeps failing
    assert_eq!(group.add_filter(Filter::accept_all()), Err(FilterError::CapacityExceeded));
    assert_eq!(group.len(), CAN_RAW_FILTER_MAX);
}

#[test]
fn clear_filters_empties_the_group() {
    let mut group = FilterGroup::new(5);
    group.add_filter(Filter::new(1, 2)).unwrap();
    group.add_filter(Filter::new(3, 4)).unwrap();
    group.clear_filters();
    assert_eq!(group.len(), 0);
    assert_eq!(group.fd(), 5);
    assert!(matches!(group.table(), FilterTable::Clear));
    assert_eq!(group.add_filter(Filter::new(9, 9)), Ok(()));
    assert_eq!(group.len(), 1);
}

#[test]
fn set_filters_replaces_the_whole_set() {
    let mut group = FilterGroup::new(5);
    group.add_filter(Filter::new(1, 2)).unwrap();
    let set = [Filter::new(10, 11), Filter::new(12, 13), Filter::new(14, 15)];
    assert_eq!(group.set_filters(&set), Ok(()));
    assert_eq!(group.len(), 3);
    assert_eq!(group.get(0).unwrap().id(), 10);
    assert_eq!(group.get(2).unwrap().mask(), 15);
    assert_eq!(group.set_filters(&[]), Ok(()));
    assert_eq!(group.len(), 0);
}

#[test]
fn set_filters_refuses_a_set_beyond_capacity() {
    let mut group = FilterGroup::new(5);
    group.add_filter(Filter::new(1, 2)).unwrap();
    let too_many = vec![Filter::accept_all(); CAN_RAW_FILTER_MAX + 1];
    assert_eq!(group.set_filters(&too_many), Err(FilterError::CapacityExceeded));
    assert_eq!(group.len(), 1);
    assert_eq!(group.get(0).unwrap().id(), 1);
    let full = vec![Filter::accept_all(); CAN_RAW_FILTER_MAX];
    assert_eq!(group.set_filters(&full), Ok(()));
    assert_eq!(group.len(), CAN_RAW_FILTER_MAX);
}

#[test]
fn table_is_one_array_of_word_pairs() {
    let mut group = FilterGroup::new(1);
    group.add_filter(Filter::new(0x0000_0123, 0xC000_07FF)).unwrap();
    group.add_filter(Filter::new(0x9234_5678, 0xDFFF_FFFF)).unwrap();
    match group.table() {
        FilterTable::Install(bytes) => assert_eq!(
            bytes,
            vec![
                0x23, 0x01, 0x00, 0x00, 0xFF, 0x07, 0x00, 0xC0, 0x78, 0x56, 0x34, 0x92, 0xFF,
                0xFF, 0xFF, 0xDF
            ]
        ),
        FilterTable::Clear => panic!("a group with filters has a table"),
    }
}

#[test]
fn table_has_the_layout_of_the_kernel_entries() {
    let mut group = FilterGroup::new(1);
    let entries = [
        libc::can_filter { can_id: 0x0000_0123, can_mask: 0xC000_07FF },
        libc::can_filter { can_id: 0x9234_5678, can_mask: 0xDFFF_FFFF },
        libc::can_filter { can_id: 0, can_mask: 0 },
    ];
    let mut expected: Vec<u8> = Vec::new();
    for entry in entries.iter() {
        group.add_filter(Filter::new(entry.can_id, entry.can_mask)).unwrap();
        expected.extend_from_slice(&entry.can_id.to_le_bytes());
        expected.extend_from_slice(&entry.can_mask.to_le_bytes());
    }
    assert_eq!(expected.len(), entries.len() * std::mem::size_of::<libc::can_filter>());
    match group.table() {
        FilterTable::Install(bytes) => assert_eq!(bytes, expected),
        FilterTable::Clear => panic!("a group with filters has a table"),
    }
}

#[test]
fn full_table_takes_eight_bytes_for_each_filter() {
    let full = vec![Filter::new(0xAABB_CCDD, 0x1122_3344); CAN_RAW_FILTER_MAX];
    let mut group = FilterGroup::new(1);
    group.set_filters(&full).unwrap();
    match group.table() {
        FilterTable::Install(bytes) => {
            assert_eq!(bytes.len(), 8 * CAN_RAW_FILTER_MAX);
            assert_eq!(&bytes[4088..], &[0xDD, 0xCC, 0xBB, 0xAA, 0x44, 0x33, 0x22, 0x11]);
        }
        FilterTable::Clear => panic!("a group with filters has a table"),
    }
}

#[test]
fn cloned_group_holds_the_same_filters() {
    let mut group = FilterGroup::new(4);
    group.add_filter(Filter::new(1, 2)).unwrap();
    group.add_filter(Filter::new(3, 4)).unwrap();
    let copy = group.clone();
    group.clear_filters();
    assert_eq!(copy.fd(), 4);
    assert_eq!(copy.len(), 2);
    assert_eq!(copy.get(1).unwrap().id(), 3);
    assert_eq!(copy.get(1).unwrap().mask(), 4);
}

#[test]
fn groups_are_walked_once_and_can_be_restarted() {
    let mut first = FilterGroup::new(1);
    first.add_filter(Filter::new(1, 1)).unwrap();
    let second = FilterGroup::new(2);
    let mut groups = FilterGroups::new(vec![first, second]);
    assert_eq!(groups.len(), 2);
    let a = groups.next().unwrap();
    assert_eq!((a.fd(), a.len()), (1, 1));
    let b = groups.next().unwrap();
    assert_eq!((b.fd(), b.len()), (2, 0));
    assert!(groups.next().is_none());
    assert!(groups.next().is_none());
    groups.restart();
    assert_eq!(groups.next().unwrap().fd(), 1);
    assert_eq!(groups.len(), 2);
}

#[test]
fn empty_enumeration_hands_out_nothing() {
    let mut groups = FilterGroups::new(Vec::new());
    assert_eq!(groups.len(), 0);
    assert!(groups.next().is_none());
    groups.restart();
    assert!(groups.next().is_none());
}
