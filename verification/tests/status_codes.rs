//! The status-code domain: every raw integer decodes to exactly one
//! outcome, with table members mapping to their entries and everything
//! else landing on the reserved unknown failure.

use rxegy::error::{
    decode, xerr_is_bad, xerr_is_good, ExegyError, Success, XACCESS, XAPPROXIMATE, XBADFIELD,
    XBADHANDLE, XBADSIZE, XCAPACITY, XCOMPLETE, XFORCEOFF, XFOUND, XINTERBOUNDARY, XINTERR,
    XMODIFIED, XMOREDATA, XNOCHANGE, XNOENT, XPARTIALSUCCESS, XPERM, XRESUMED, XSUCCESS,
};

#[test]
fn decode_success_table() {
    assert_eq!(decode(XSUCCESS), Ok(Success::Success));
    assert_eq!(decode(XFOUND), Ok(Success::Found));
    assert_eq!(decode(XCOMPLETE), Ok(Success::Complete));
    assert_eq!(decode(XMOREDATA), Ok(Success::MoreData));
    assert_eq!(decode(XAPPROXIMATE), Ok(Success::Approximate));
    assert_eq!(decode(XMODIFIED), Ok(Success::Modified));
    assert_eq!(decode(XPARTIALSUCCESS), Ok(Success::PartialSuccess));
    assert_eq!(decode(XINTERBOUNDARY), Ok(Success::InterBoundary));
    assert_eq!(decode(XRESUMED), Ok(Success::Resumed));
    assert_eq!(decode(XNOCHANGE), Ok(Success::NoChange));
}

#[test]
fn decode_failure_table() {
    assert_eq!(decode(XPERM), Err(ExegyError::NotPermitted));
    assert_eq!(decode(XNOENT), Err(ExegyError::NoEntry));
    assert_eq!(decode(XACCESS), Err(ExegyError::Access));
    assert_eq!(decode(XBADHANDLE), Err(ExegyError::BadHandle));
    assert_eq!(decode(XBADFIELD), Err(ExegyError::BadField));
    assert_eq!(decode(XBADSIZE), Err(ExegyError::BadSize));
    assert_eq!(decode(XCAPACITY), Err(ExegyError::Capacity));
    assert_eq!(decode(XINTERR), Err(ExegyError::Internal));
    assert_eq!(decode(XFORCEOFF), Err(ExegyError::ForceOff));
}

#[test]
fn decode_unknown_codes_land_on_reserved_failure() {
    // The failure table ends well below these values.
    for raw in [1000u32, 0xDEAD_BEEF, u32::MAX, 500, 4097] {
        assert_eq!(decode(raw), Err(ExegyError::Error));
    }
}

#[test]
fn decode_is_total_over_a_sweep() {
    // No raw value panics, and each lands in exactly one outcome kind.
    for raw in 0u32..4096 {
        match decode(raw) {
            Ok(_) => assert!(xerr_is_good(raw)),
            Err(_) => {}
        }
    }
}

#[test]
fn parity_convention() {
    assert!(xerr_is_good(XSUCCESS));
    assert!(xerr_is_good(XFOUND));
    assert!(xerr_is_good(XNOCHANGE));
    assert!(xerr_is_bad(XPERM));
    assert!(xerr_is_bad(XFORCEOFF));
    assert!(!xerr_is_bad(XSUCCESS));
    assert!(!xerr_is_good(XPERM));
}

#[test]
fn error_lookup_matches_decode_on_failures() {
    assert_eq!(ExegyError::try_from_raw(XPERM), Some(ExegyError::NotPermitted));
    assert_eq!(ExegyError::try_from_raw(XSUCCESS), None);
    assert_eq!(ExegyError::try_from_raw(9999), None);
}
