use fix_schema::envelope::{begin_string, check_envelope, EnvelopeError, MSG_TYPE_TAG};
use fix_schema::dictionary::Version;

// The begin-string builder alone, both families and a two-digit service pack.
#[test]
fn begin_string_literals() {
    let v44 = Version { major: 4, minor: 4, service_pack: 0 };
    assert_eq!(begin_string(true, &v44), b"FIXT.4.4".to_vec());
    assert_eq!(begin_string(false, &v44), b"FIX.4.4".to_vec());
    let v50sp2 = Version { major: 5, minor: 0, service_pack: 2 };
    assert_eq!(begin_string(true, &v50sp2), b"FIXT.5.0SP2".to_vec());
    let v_wide = Version { major: 12, minor: 10, service_pack: 15 };
    assert_eq!(begin_string(false, &v_wide), b"FIX.12.10SP15".to_vec());
}

// A matching envelope passes.
#[test]
fn envelope_accepts_well_formed_message() {
    let expected = b"FIXT.4.4".to_vec();
    assert_eq!(check_envelope(&expected, &expected.clone(), MSG_TYPE_TAG, true), Ok(()));
}

// A begin-string differing from the protocol literal is a garbled message.
#[test]
fn envelope_rejects_begin_string_mismatch() {
    let expected = b"FIXT.4.4".to_vec();
    let wire = b"FIX.4.2".to_vec();
    assert_eq!(
        check_envelope(&expected, &wire, MSG_TYPE_TAG, true),
        Err(EnvelopeError::BeginStringMismatch)
    );
}

// A third field other than the message-type field is a garbled message, and
// it outranks an unknown message type.
#[test]
fn envelope_rejects_msg_type_out_of_position() {
    let expected = b"FIXT.4.4".to_vec();
    assert_eq!(
        check_envelope(&expected, &expected.clone(), 34, false),
        Err(EnvelopeError::MsgTypeNotThird)
    );
}

// An unrecognized message type is its own, separately classified rejection.
#[test]
fn envelope_rejects_unknown_msg_type() {
    let expected = b"FIXT.4.4".to_vec();
    assert_eq!(
        check_envelope(&expected, &expected.clone(), MSG_TYPE_TAG, false),
        Err(EnvelopeError::UnknownMsgType)
    );
}
