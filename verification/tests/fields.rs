//! The field accessor: writes store exactly what they are given, reads
//! return it, and every failure mode is distinct.

use rxegy::appliance::Appliance;
use rxegy::error::{Error, ExegyError, XSUCCESS};
use rxegy::field::{
    get_fixedstring, get_string, get_u32, get_u64, get_u8, set_string, set_u32, set_u64, set_u8,
    XC_SESSION,
};
use rxegy::object::{wrap_checked, Kind, Wrapper};
use rxegy::session::{
    Field, XFLD_SESS_CLIENT_AFFINITY_MASK, XFLD_SESS_CLIENT_BUILD, XFLD_SESS_SERVER_NAME,
};

fn session() -> (Appliance, rxegy::session::TickerSession) {
    let mut plant = Appliance::new();
    let (_st, handle) = plant.create_object(Kind::SessionTicker.to_u16(), 0, 0);
    let session = wrap_checked(&plant, handle).unwrap();
    (plant, session)
}

#[test]
fn u8_round_trip() {
    let (mut plant, s) = session();
    set_u8(&mut plant, &s, XC_SESSION, Field::ServerMajorVersion, 0xAB).unwrap();
    assert_eq!(get_u8(&plant, &s, XC_SESSION, Field::ServerMajorVersion), Ok(0xAB));
}

#[test]
fn u32_round_trip() {
    let (mut plant, s) = session();
    set_u32(&mut plant, &s, XC_SESSION, Field::ClientBuild, 0xDEAD_BEEF).unwrap();
    assert_eq!(get_u32(&plant, &s, XC_SESSION, Field::ClientBuild), Ok(0xDEAD_BEEF));
}

#[test]
fn u64_round_trip() {
    let (mut plant, s) = session();
    set_u64(&mut plant, &s, XC_SESSION, Field::ClientAffinityMask, u64::MAX - 5).unwrap();
    assert_eq!(
        get_u64(&plant, &s, XC_SESSION, Field::ClientAffinityMask),
        Ok(u64::MAX - 5)
    );
}

#[test]
fn overwrite_keeps_the_last_value() {
    let (mut plant, s) = session();
    set_u32(&mut plant, &s, XC_SESSION, Field::ClientBuild, 1).unwrap();
    set_u32(&mut plant, &s, XC_SESSION, Field::ClientBuild, 2).unwrap();
    assert_eq!(get_u32(&plant, &s, XC_SESSION, Field::ClientBuild), Ok(2));
}

#[test]
fn distinct_slots_and_fields_do_not_interfere() {
    let (mut plant, s) = session();
    set_u32(&mut plant, &s, XC_SESSION, Field::ClientBuild, 7).unwrap();
    set_u32(&mut plant, &s, 3, Field::ClientBuild, 8).unwrap();
    set_u32(&mut plant, &s, XC_SESSION, Field::ClientMajorVersion, 9).unwrap();
    assert_eq!(get_u32(&plant, &s, XC_SESSION, Field::ClientBuild), Ok(7));
    assert_eq!(get_u32(&plant, &s, 3, Field::ClientBuild), Ok(8));
    assert_eq!(get_u32(&plant, &s, XC_SESSION, Field::ClientMajorVersion), Ok(9));
}

#[test]
fn missing_field_reports_bad_field() {
    let (plant, s) = session();
    assert_eq!(
        get_u32(&plant, &s, XC_SESSION, Field::ClientBuild),
        Err(Error::Exegy(ExegyError::BadField))
    );
}

#[test]
fn size_mismatch_reports_bad_size() {
    let (mut plant, s) = session();
    set_u32(&mut plant, &s, XC_SESSION, Field::ClientBuild, 1).unwrap();
    assert_eq!(
        get_u64(&plant, &s, XC_SESSION, Field::ClientBuild),
        Err(Error::Exegy(ExegyError::BadSize))
    );
}

#[test]
fn dead_handle_reports_bad_handle() {
    let (mut plant, s) = session();
    plant.destroy_object(s.as_xhandle());
    assert_eq!(
        set_u32(&mut plant, &s, XC_SESSION, Field::ClientBuild, 1),
        Err(Error::Exegy(ExegyError::BadHandle))
    );
    assert_eq!(
        get_u32(&plant, &s, XC_SESSION, Field::ClientBuild),
        Err(Error::Exegy(ExegyError::BadHandle))
    );
}

#[test]
fn string_round_trip() {
    let (mut plant, s) = session();
    set_string(&mut plant, &s, XC_SESSION, Field::ServerName, String::from("server-a")).unwrap();
    assert_eq!(
        get_string(&plant, &s, XC_SESSION, Field::ServerName),
        Ok(String::from("server-a"))
    );
}

#[test]
fn string_round_trip_keeps_multibyte_text() {
    let (mut plant, s) = session();
    set_string(&mut plant, &s, XC_SESSION, Field::ServerName, String::from("caf\u{e9}")).unwrap();
    assert_eq!(
        get_string(&plant, &s, XC_SESSION, Field::ServerName),
        Ok(String::from("caf\u{e9}"))
    );
}

#[test]
fn embedded_nul_is_rejected_before_any_write() {
    let (mut plant, s) = session();
    assert_eq!(
        set_string(&mut plant, &s, XC_SESSION, Field::ServerName, String::from("a\0b")),
        Err(Error::EmbeddedNull)
    );
    assert_eq!(
        get_string(&plant, &s, XC_SESSION, Field::ServerName),
        Err(Error::Exegy(ExegyError::BadField))
    );
}

#[test]
fn invalid_utf8_is_distinct_from_native_failure() {
    let (mut plant, s) = session();
    let st = plant.set_field(s.as_xhandle(), XC_SESSION, XFLD_SESS_SERVER_NAME, vec![0xFF, 0xFE]);
    assert_eq!(st, XSUCCESS);
    assert_eq!(
        get_string(&plant, &s, XC_SESSION, Field::ServerName),
        Err(Error::InvalidUtf8)
    );
}

#[test]
fn fixed_length_strings_read_exactly_their_size() {
    let (mut plant, s) = session();
    let st = plant.set_field(s.as_xhandle(), XC_SESSION, XFLD_SESS_SERVER_NAME, b"ABCD".to_vec());
    assert_eq!(st, XSUCCESS);
    assert_eq!(
        get_fixedstring(&plant, &s, XC_SESSION, Field::ServerName, 4),
        Ok(String::from("ABCD"))
    );
    assert_eq!(
        get_fixedstring(&plant, &s, XC_SESSION, Field::ServerName, 8),
        Err(Error::Exegy(ExegyError::BadSize))
    );
}

#[test]
fn raw_byte_writes_read_back_as_scalars() {
    let (mut plant, s) = session();
    let st = plant.set_field(
        s.as_xhandle(),
        XC_SESSION,
        XFLD_SESS_CLIENT_BUILD,
        0x01020304u32.to_le_bytes().to_vec(),
    );
    assert_eq!(st, XSUCCESS);
    assert_eq!(get_u32(&plant, &s, XC_SESSION, Field::ClientBuild), Ok(0x01020304));
    let st = plant.set_field(
        s.as_xhandle(),
        XC_SESSION,
        XFLD_SESS_CLIENT_AFFINITY_MASK,
        0xAABB_CCDD_EEFF_0011u64.to_le_bytes().to_vec(),
    );
    assert_eq!(st, XSUCCESS);
    assert_eq!(
        get_u64(&plant, &s, XC_SESSION, Field::ClientAffinityMask),
        Ok(0xAABB_CCDD_EEFF_0011)
    );
}

#[test]
fn empty_string_round_trip() {
    let (mut plant, s) = session();
    set_string(&mut plant, &s, XC_SESSION, Field::ServerName, String::new()).unwrap();
    assert_eq!(get_string(&plant, &s, XC_SESSION, Field::ServerName), Ok(String::new()));
}

#[test]
fn a_full_buffer_without_nul_is_not_terminated() {
    let (mut plant, s) = session();
    let st = plant.set_field(s.as_xhandle(), XC_SESSION, XFLD_SESS_SERVER_NAME, vec![b'a'; 512]);
    assert_eq!(st, XSUCCESS);
    assert_eq!(
        get_string(&plant, &s, XC_SESSION, Field::ServerName),
        Err(Error::NoNullTerm)
    );
}

#[test]
fn an_embedded_nul_in_storage_ends_the_string() {
    let (mut plant, s) = session();
    let st = plant.set_field(s.as_xhandle(), XC_SESSION, XFLD_SESS_SERVER_NAME, b"ab\0cd".to_vec());
    assert_eq!(st, XSUCCESS);
    assert_eq!(
        get_string(&plant, &s, XC_SESSION, Field::ServerName),
        Ok(String::from("ab"))
    );
}
