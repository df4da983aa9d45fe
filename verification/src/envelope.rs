//! Protocol envelope rules: the begin-string literal derived from the
//! protocol version, and the fixed position of the message-type field.

use vstd::prelude::*;

use crate::dictionary::Version;

verus! {

/// The wire tag of the message-type field: it must be the third field of
/// every message, right after begin-string and body-length.
pub const MSG_TYPE_TAG: u16 = 35;

/// Decimal digits of `n`, most significant first.
pub open spec fn spec_decimal(n: nat) -> Seq<u8>
    decreases n,
{
    if n < 10 {
        seq![(48 + n) as u8]
    } else {
        spec_decimal(n / 10).push((48 + n % 10) as u8)
    }
}

/// The begin-string literal: `FIXT` for a transport dictionary, `FIX` for an
/// application dictionary, then `major.minor`, with an `SP` suffix only for a
/// non-zero service pack.
pub open spec fn spec_begin_string(transport: bool, v: Version) -> Seq<u8> {
    let prefix: Seq<u8> = if transport {
        seq![70u8, 73u8, 88u8, 84u8]
    } else {
        seq![70u8, 73u8, 88u8]
    };
    let base = prefix + seq![46u8] + spec_decimal(v.major as nat) + seq![46u8] + spec_decimal(
        v.minor as nat,
    );
    if v.service_pack == 0 {
        base
    } else {
        base + seq![83u8, 80u8] + spec_decimal(v.service_pack as nat)
    }
}

fn push_decimal(n: u32, out: &mut Vec<u8>)
    ensures
        final(out)@ == old(out)@ + spec_decimal(n as nat),
    decreases n,
{
    if n < 10 {
        out.push(48 + n as u8);
        assert(out@ =~= old(out)@ + spec_decimal(n as nat));
    } else {
        push_decimal(n / 10, out);
        out.push(48 + (n % 10) as u8);
        assert(out@ =~= old(out)@ + spec_decimal(n as nat));
    }
}

/// Builds the begin-string literal for the given protocol family and version.
pub fn begin_string(transport: bool, v: &Version) -> (r: Vec<u8>)
    ensures
        r@ == spec_begin_string(transport, *v),
{
    let mut out: Vec<u8> = Vec::new();
    out.push(70);  // F
    out.push(73);  // I
    out.push(88);  // X
    if transport {
        out.push(84);  // T
    }
    out.push(46);  // .
    push_decimal(v.major, &mut out);
    out.push(46);  // .
    push_decimal(v.minor, &mut out);
    if v.service_pack != 0 {
        out.push(83);  // S
        out.push(80);  // P
        push_decimal(v.service_pack, &mut out);
    }
    assert(out@ =~= spec_begin_string(transport, *v));
    out
}

/// How an inbound message's envelope fails, if it does. The first two are
/// non-recoverable garbled-message conditions; an unrecognized message type
/// is classified separately.
#[derive(Clone, Copy, Debug, PartialEq, Eq, Structural)]
pub enum EnvelopeError {
    BeginStringMismatch,
    MsgTypeNotThird,
    UnknownMsgType,
}

fn bytes_equal(a: &Vec<u8>, b: &Vec<u8>) -> (r: bool)
    ensures
        r == (a@ == b@),
{
    if a.len() != b.len() {
        assert(a@.len() != b@.len());
        return false;
    }
    let mut i: usize = 0;
    while i < a.len()
        invariant
            i <= a@.len(),
            a@.len() == b@.len(),
            forall|j: int| 0 <= j < i ==> a@[j] == b@[j],
        decreases a@.len() - i,
    {
        if a[i] != b[i] {
            return false;
        }
        i += 1;
    }
    assert(a@ =~= b@);
    true
}

/// Enforces the envelope rules on one inbound message, given the begin-string
/// it carries, the tag of its third wire field, and whether its message-type
/// value is one the schema knows. A begin-string that differs from the
/// protocol's literal, and a third field other than the message-type field,
/// are each garbled-message conditions; an unknown message type is the
/// separate, recoverable rejection.
pub fn check_envelope(
    expected_begin_string: &Vec<u8>,
    begin_string: &Vec<u8>,
    third_field_tag: u16,
    msg_type_known: bool,
) -> (r: Result<(), EnvelopeError>)
    ensures
        r == if begin_string@ != expected_begin_string@ {
            Err::<(), EnvelopeError>(EnvelopeError::BeginStringMismatch)
        } else if third_field_tag != MSG_TYPE_TAG {
            Err::<(), EnvelopeError>(EnvelopeError::MsgTypeNotThird)
        } else if !msg_type_known {
            Err::<(), EnvelopeError>(EnvelopeError::UnknownMsgType)
        } else {
            Ok::<(), EnvelopeError>(())
        },
{
    if !bytes_equal(begin_string, expected_begin_string) {
        Err(EnvelopeError::BeginStringMismatch)
    } else if third_field_tag != MSG_TYPE_TAG {
        Err(EnvelopeError::MsgTypeNotThird)
    } else if !msg_type_known {
        Err(EnvelopeError::UnknownMsgType)
    } else {
        Ok(())
    }
}

} // verus!
