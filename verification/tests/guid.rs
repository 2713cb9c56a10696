use wifu::win::guid::{to_string, Guid};

#[test]
fn guid_text_has_braces_hyphens_and_upper_case_digits() {
    let guid = Guid { value: 0x0123456789ABCDEF0123456789ABCDEF };
    assert_eq!(to_string(&guid), "{01234567-89AB-CDEF-0123-456789ABCDEF}");
}

#[test]
fn guid_text_of_zero_and_of_the_largest_value() {
    assert_eq!(to_string(&Guid { value: 0 }), "{00000000-0000-0000-0000-000000000000}");
    assert_eq!(
        to_string(&Guid { value: u128::MAX }),
        "{FFFFFFFF-FFFF-FFFF-FFFF-FFFFFFFFFFFF}"
    );
}

#[test]
fn guid_text_keeps_leading_zeros() {
    assert_eq!(to_string(&Guid { value: 0xA }), "{00000000-0000-0000-0000-00000000000A}");
    assert_eq!(
        to_string(&Guid { value: 0x1 << 124 }),
        "{10000000-0000-0000-0000-000000000000}"
    );
}

#[test]
fn guid_text_is_thirty_eight_characters_long() {
    for value in [0u128, 1, 0xDEADBEEF, u128::MAX / 3] {
        assert_eq!(to_string(&Guid { value }).chars().count(), 38);
    }
}

#[test]
fn guids_are_equal_exactly_when_their_values_are() {
    assert_eq!(Guid { value: 7 }, Guid { value: 7 });
    assert_ne!(Guid { value: 7 }, Guid { value: 8 });
    assert_ne!(to_string(&Guid { value: 7 }), to_string(&Guid { value: 8 }));
}
