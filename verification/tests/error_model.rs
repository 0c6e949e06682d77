use canberra::error::{describe, Error, Failure, Y};

const ALL_KINDS: [(i32, Error); 18] = [
    (-1, Error::NotSupported),
    (-2, Error::Invalid),
    (-3, Error::State),
    (-4, Error::Oom),
    (-5, Error::NoDriver),
    (-6, Error::System),
    (-7, Error::Corrupt),
    (-8, Error::TooBig),
    (-9, Error::NotFound),
    (-10, Error::Destroyed),
    (-11, Error::Canceled),
    (-12, Error::NotAvailable),
    (-13, Error::Access),
    (-14, Error::Io),
    (-15, Error::Internal),
    (-16, Error::Disabled),
    (-17, Error::Forked),
    (-18, Error::Disconnected),
];

#[test]
fn decode_known_codes() {
    for (code, kind) in ALL_KINDS {
        assert_eq!(Error::c(code), Some(kind));
    }
}

#[test]
fn decode_zero_is_success() {
    assert_eq!(Error::c(0), None);
}

#[test]
fn decode_unknown_codes() {
    for code in [1, 2, 42, i32::MAX, -19, -20, -100, i32::MIN] {
        assert_eq!(Error::c(code), None);
    }
}

#[test]
fn decode_scenarios() {
    assert_eq!(Error::c(-9), Some(Error::NotFound));
    assert_eq!(Error::c(-1), Some(Error::NotSupported));
    assert_eq!(Error::c(1), None);
}

#[test]
fn code_round_trips_through_decode() {
    for (code, kind) in ALL_KINDS {
        assert_eq!(kind.code(), code);
        assert_eq!(Error::c(kind.code()), Some(kind));
    }
}

#[test]
fn status_to_result() {
    assert_eq!(Y(0), Ok(()));
    assert_eq!(Y(-4), Err(Failure::Known(Error::Oom)));
    assert_eq!(Y(-18), Err(Failure::Known(Error::Disconnected)));
    assert_eq!(Y(-1), Err(Failure::Known(Error::NotSupported)));
    assert_eq!(Y(7), Ok(()));
    assert_eq!(Y(i32::MAX), Ok(()));
}

#[test]
fn unmapped_negative_codes_are_unknown_failures() {
    for code in [-19, -20, -99, i32::MIN] {
        match Y(code) {
            Err(Failure::Unknown(c)) => assert_eq!(c, code),
            Err(Failure::Known(_)) => panic!("an unmapped code must not become a named kind"),
            Ok(()) => panic!("an unmapped negative code must not pass as success"),
        }
    }
}

#[test]
fn describe_keeps_backend_message() {
    let rendered = describe(Some(String::from("Not found")));
    assert_eq!(rendered, "Not found");
    assert!(!rendered.is_empty());
}

#[test]
fn describe_without_message_is_empty() {
    let rendered = describe(None);
    assert_eq!(rendered, "");
}
