//! The total mapping from parse-time reject reasons to session-level reject
//! reasons: identity by name, with dictionary-supplied overrides replacing
//! single entries.

use vstd::prelude::*;

use crate::dictionary::ParseRejectReason;
use crate::error::CompileError;

verus! {

/// Session-level reject reason, as sent to the counterparty.
#[derive(Clone, Copy, Debug, PartialEq, Eq, Structural)]
pub enum SessionRejectReason {
    ValueIsIncorrect,
    TagSpecifiedWithoutAValue,
    IncorrectDataFormatForValue,
    TagAppearsMoreThanOnce,
    TagSpecifiedOutOfRequiredOrder,
    RequiredTagMissing,
    IncorrectNumingroupCountForRepeatingGroup,
    TagNotDefinedForThisMessageType,
    UndefinedTag,
    RepeatingGroupFieldsOutOfOrder,
    InvalidTagNumber,
    InvalidMsgtype,
    SendingtimeAccuracyProblem,
    CompidProblem,
}

/// Every parse-time reject reason, in one fixed order: the full domain of the
/// mapping.
pub open spec fn spec_all_parse_reasons() -> Seq<ParseRejectReason> {
    seq![
        ParseRejectReason::ValueIsIncorrect,
        ParseRejectReason::TagSpecifiedWithoutAValue,
        ParseRejectReason::IncorrectDataFormatForValue,
        ParseRejectReason::TagAppearsMoreThanOnce,
        ParseRejectReason::TagSpecifiedOutOfRequiredOrder,
        ParseRejectReason::RequiredTagMissing,
        ParseRejectReason::IncorrectNumingroupCountForRepeatingGroup,
        ParseRejectReason::TagNotDefinedForThisMessageType,
        ParseRejectReason::UndefinedTag,
        ParseRejectReason::RepeatingGroupFieldsOutOfOrder,
        ParseRejectReason::InvalidTagNumber,
        ParseRejectReason::InvalidMsgtype,
        ParseRejectReason::SendingtimeAccuracyProblem,
        ParseRejectReason::CompidProblem,
    ]
}

/// Every parse-time reject reason appears in the fixed enumeration.
pub proof fn lemma_all_parse_reasons_total(p: ParseRejectReason)
    ensures
        exists|k: int|
            0 <= k < spec_all_parse_reasons().len() && #[trigger] spec_all_parse_reasons()[k] == p,
{
    let s = spec_all_parse_reasons();
    match p {
        ParseRejectReason::ValueIsIncorrect => assert(s[0] == p),
        ParseRejectReason::TagSpecifiedWithoutAValue => assert(s[1] == p),
        ParseRejectReason::IncorrectDataFormatForValue => assert(s[2] == p),
        ParseRejectReason::TagAppearsMoreThanOnce => assert(s[3] == p),
        ParseRejectReason::TagSpecifiedOutOfRequiredOrder => assert(s[4] == p),
        ParseRejectReason::RequiredTagMissing => assert(s[5] == p),
        ParseRejectReason::IncorrectNumingroupCountForRepeatingGroup => assert(s[6] == p),
        ParseRejectReason::TagNotDefinedForThisMessageType => assert(s[7] == p),
        ParseRejectReason::UndefinedTag => assert(s[8] == p),
        ParseRejectReason::RepeatingGroupFieldsOutOfOrder => assert(s[9] == p),
        ParseRejectReason::InvalidTagNumber => assert(s[10] == p),
        ParseRejectReason::InvalidMsgtype => assert(s[11] == p),
        ParseRejectReason::SendingtimeAccuracyProblem => assert(s[12] == p),
        ParseRejectReason::CompidProblem => assert(s[13] == p),
    }
}

/// The default mapping: each parse reason goes to the session reason of the
/// same symbolic name.
pub open spec fn spec_default_session_reason(p: ParseRejectReason) -> SessionRejectReason {
    match p {
        ParseRejectReason::ValueIsIncorrect => SessionRejectReason::ValueIsIncorrect,
        ParseRejectReason::TagSpecifiedWithoutAValue => SessionRejectReason::TagSpecifiedWithoutAValue,
        ParseRejectReason::IncorrectDataFormatForValue => SessionRejectReason::IncorrectDataFormatForValue,
        ParseRejectReason::TagAppearsMoreThanOnce => SessionRejectReason::TagAppearsMoreThanOnce,
        ParseRejectReason::TagSpecifiedOutOfRequiredOrder => SessionRejectReason::TagSpecifiedOutOfRequiredOrder,
        ParseRejectReason::RequiredTagMissing => SessionRejectReason::RequiredTagMissing,
        ParseRejectReason::IncorrectNumingroupCountForRepeatingGroup => SessionRejectReason::IncorrectNumingroupCountForRepeatingGroup,
        ParseRejectReason::TagNotDefinedForThisMessageType => SessionRejectReason::TagNotDefinedForThisMessageType,
        ParseRejectReason::UndefinedTag => SessionRejectReason::UndefinedTag,
        ParseRejectReason::RepeatingGroupFieldsOutOfOrder => SessionRejectReason::RepeatingGroupFieldsOutOfOrder,
        ParseRejectReason::InvalidTagNumber => SessionRejectReason::InvalidTagNumber,
        ParseRejectReason::InvalidMsgtype => SessionRejectReason::InvalidMsgtype,
        ParseRejectReason::SendingtimeAccuracyProblem => SessionRejectReason::SendingtimeAccuracyProblem,
        ParseRejectReason::CompidProblem => SessionRejectReason::CompidProblem,
    }
}

/// The session reason whose symbolic name is `s`, if any.
pub open spec fn spec_session_reason_of_name(s: Seq<char>) -> Option<SessionRejectReason> {
    if s == "ValueIsIncorrect"@ {
        Some(SessionRejectReason::ValueIsIncorrect)
    } else if s == "TagSpecifiedWithoutAValue"@ {
        Some(SessionRejectReason::TagSpecifiedWithoutAValue)
    } else if s == "IncorrectDataFormatForValue"@ {
        Some(SessionRejectReason::IncorrectDataFormatForValue)
    } else if s == "TagAppearsMoreThanOnce"@ {
        Some(SessionRejectReason::TagAppearsMoreThanOnce)
    } else if s == "TagSpecifiedOutOfRequiredOrder"@ {
        Some(SessionRejectReason::TagSpecifiedOutOfRequiredOrder)
    } else if s == "RequiredTagMissing"@ {
        Some(SessionRejectReason::RequiredTagMissing)
    } else if s == "IncorrectNumingroupCountForRepeatingGroup"@ {
        Some(SessionRejectReason::IncorrectNumingroupCountForRepeatingGroup)
    } else if s == "TagNotDefinedForThisMessageType"@ {
        Some(SessionRejectReason::TagNotDefinedForThisMessageType)
    } else if s == "UndefinedTag"@ {
        Some(SessionRejectReason::UndefinedTag)
    } else if s == "RepeatingGroupFieldsOutOfOrder"@ {
        Some(SessionRejectReason::RepeatingGroupFieldsOutOfOrder)
    } else if s == "InvalidTagNumber"@ {
        Some(SessionRejectReason::InvalidTagNumber)
    } else if s == "InvalidMsgtype"@ {
        Some(SessionRejectReason::InvalidMsgtype)
    } else if s == "SendingtimeAccuracyProblem"@ {
        Some(SessionRejectReason::SendingtimeAccuracyProblem)
    } else if s == "CompidProblem"@ {
        Some(SessionRejectReason::CompidProblem)
    } else {
        None
    }
}

/// Parses a session reason's symbolic name.
pub fn session_reason_of_name(name: &String) -> (r: Option<SessionRejectReason>)
    ensures
        r == spec_session_reason_of_name(name@),
{
    if *name == "ValueIsIncorrect".to_owned() {
        Some(SessionRejectReason::ValueIsIncorrect)
    } else if *name == "TagSpecifiedWithoutAValue".to_owned() {
        Some(SessionRejectReason::TagSpecifiedWithoutAValue)
    } else if *name == "IncorrectDataFormatForValue".to_owned() {
        Some(SessionRejectReason::IncorrectDataFormatForValue)
    } else if *name == "TagAppearsMoreThanOnce".to_owned() {
        Some(SessionRejectReason::TagAppearsMoreThanOnce)
    } else if *name == "TagSpecifiedOutOfRequiredOrder".to_owned() {
        Some(SessionRejectReason::TagSpecifiedOutOfRequiredOrder)
    } else if *name == "RequiredTagMissing".to_owned() {
        Some(SessionRejectReason::RequiredTagMissing)
    } else if *name == "IncorrectNumingroupCountForRepeatingGroup".to_owned() {
        Some(SessionRejectReason::IncorrectNumingroupCountForRepeatingGroup)
    } else if *name == "TagNotDefinedForThisMessageType".to_owned() {
        Some(SessionRejectReason::TagNotDefinedForThisMessageType)
    } else if *name == "UndefinedTag".to_owned() {
        Some(SessionRejectReason::UndefinedTag)
    } else if *name == "RepeatingGroupFieldsOutOfOrder".to_owned() {
        Some(SessionRejectReason::RepeatingGroupFieldsOutOfOrder)
    } else if *name == "InvalidTagNumber".to_owned() {
        Some(SessionRejectReason::InvalidTagNumber)
    } else if *name == "InvalidMsgtype".to_owned() {
        Some(SessionRejectReason::InvalidMsgtype)
    } else if *name == "SendingtimeAccuracyProblem".to_owned() {
        Some(SessionRejectReason::SendingtimeAccuracyProblem)
    } else if *name == "CompidProblem".to_owned() {
        Some(SessionRejectReason::CompidProblem)
    } else {
        None
    }
}

/// First override for `p` at or after position `i`, if any.
pub open spec fn spec_find_override(
    s: Seq<(ParseRejectReason, String)>,
    p: ParseRejectReason,
    i: int,
) -> Option<String>
    decreases s.len() - i
    when 0 <= i <= s.len()
{
    if i >= s.len() {
        None
    } else if s[i].0 == p {
        Some(s[i].1)
    } else {
        spec_find_override(s, p, i + 1)
    }
}

/// The session reason for `p` under `overrides`: the override's named reason
/// where one is given (unknown names abort compilation), else the default.
pub open spec fn spec_session_reason_for(
    overrides: Seq<(ParseRejectReason, String)>,
    p: ParseRejectReason,
) -> Result<SessionRejectReason, CompileError> {
    match spec_find_override(overrides, p, 0) {
        None => Ok(spec_default_session_reason(p)),
        Some(name) => match spec_session_reason_of_name(name@) {
            Some(s) => Ok(s),
            None => Err(CompileError::UnknownRejectReasonOverride),
        },
    }
}

/// Whether some override names no known session reason.
pub open spec fn spec_overrides_invalid(s: Seq<(ParseRejectReason, String)>) -> bool {
    exists|j: int|
        0 <= j < s.len() && #[trigger] spec_session_reason_of_name(s[j].1@) is None
}

fn find_override<'a>(
    s: &'a Vec<(ParseRejectReason, String)>,
    p: ParseRejectReason,
    i: usize,
) -> (r: Option<&'a String>)
    requires
        i <= s@.len(),
    ensures
        match r {
            Some(name) => spec_find_override(s@, p, i as int) == Some(*name),
            None => spec_find_override(s@, p, i as int) is None,
        },
    decreases s@.len() - i,
{
    if i == s.len() {
        None
    } else if s[i].0 == p {
        Some(&s[i].1)
    } else {
        find_override(s, p, i + 1)
    }
}

/// The session reason for `p` under `overrides`.
pub fn session_reason_for(
    overrides: &Vec<(ParseRejectReason, String)>,
    p: ParseRejectReason,
) -> (r: Result<SessionRejectReason, CompileError>)
    ensures
        r == spec_session_reason_for(overrides@, p),
{
    match find_override(overrides, p, 0) {
        None => {
            let d = match p {
                ParseRejectReason::ValueIsIncorrect => SessionRejectReason::ValueIsIncorrect,
                ParseRejectReason::TagSpecifiedWithoutAValue => SessionRejectReason::TagSpecifiedWithoutAValue,
                ParseRejectReason::IncorrectDataFormatForValue => SessionRejectReason::IncorrectDataFormatForValue,
                ParseRejectReason::TagAppearsMoreThanOnce => SessionRejectReason::TagAppearsMoreThanOnce,
                ParseRejectReason::TagSpecifiedOutOfRequiredOrder => SessionRejectReason::TagSpecifiedOutOfRequiredOrder,
                ParseRejectReason::RequiredTagMissing => SessionRejectReason::RequiredTagMissing,
                ParseRejectReason::IncorrectNumingroupCountForRepeatingGroup => SessionRejectReason::IncorrectNumingroupCountForRepeatingGroup,
                ParseRejectReason::TagNotDefinedForThisMessageType => SessionRejectReason::TagNotDefinedForThisMessageType,
                ParseRejectReason::UndefinedTag => SessionRejectReason::UndefinedTag,
                ParseRejectReason::RepeatingGroupFieldsOutOfOrder => SessionRejectReason::RepeatingGroupFieldsOutOfOrder,
                ParseRejectReason::InvalidTagNumber => SessionRejectReason::InvalidTagNumber,
                ParseRejectReason::InvalidMsgtype => SessionRejectReason::InvalidMsgtype,
                ParseRejectReason::SendingtimeAccuracyProblem => SessionRejectReason::SendingtimeAccuracyProblem,
                ParseRejectReason::CompidProblem => SessionRejectReason::CompidProblem,
            };
            Ok(d)
        },
        Some(name) => match session_reason_of_name(name) {
            Some(s) => Ok(s),
            None => Err(CompileError::UnknownRejectReasonOverride),
        },
    }
}

/// The resolved mapping: one `(parse reason, session reason)` entry per parse
/// reason, in the fixed domain order, or the error for an override whose name
/// is no session reason.
pub open spec fn spec_reject_reason_map(overrides: Seq<(ParseRejectReason, String)>) -> Result<
    Seq<(ParseRejectReason, SessionRejectReason)>,
    CompileError,
> {
    if exists|k: int|
        0 <= k < spec_all_parse_reasons().len() && #[trigger] spec_session_reason_for(
            overrides,
            spec_all_parse_reasons()[k],
        ) is Err {
        Err(CompileError::UnknownRejectReasonOverride)
    } else {
        Ok(
            spec_all_parse_reasons().map(
                |k: int, p: ParseRejectReason|
                    (p, spec_session_reason_for(overrides, p)->Ok_0),
            ),
        )
    }
}

/// Builds the total reject-reason mapping: the full parse-reason domain, each
/// mapped to its override where one is given and valid, else to its
/// name-identical default.
pub fn build_reject_reason_map(overrides: &Vec<(ParseRejectReason, String)>) -> (r: Result<
    Vec<(ParseRejectReason, SessionRejectReason)>,
    CompileError,
>)
    ensures
        match r {
            Ok(m) => spec_reject_reason_map(overrides@) == Ok::<_, CompileError>(m@),
            Err(e) => spec_reject_reason_map(overrides@) == Err::<
                Seq<(ParseRejectReason, SessionRejectReason)>,
                _,
            >(e),
        },
{
    let domain = all_parse_reasons();
    let mut out: Vec<(ParseRejectReason, SessionRejectReason)> = Vec::new();
    let mut i: usize = 0;
    while i < domain.len()
        invariant
            i <= domain@.len(),
            domain@ == spec_all_parse_reasons(),
            out@.len() == i,
            forall|k: int|
                0 <= k < i ==> spec_session_reason_for(overrides@, spec_all_parse_reasons()[k])
                    == Ok::<_, CompileError>(#[trigger] out@[k].1) && out@[k].0
                    == spec_all_parse_reasons()[k],
        decreases domain@.len() - i,
    {
        let p = domain[i];
        match session_reason_for(overrides, p) {
            Ok(s) => {
                out.push((p, s));
            },
            Err(e) => {
                proof {
                    assert(spec_session_reason_for(
                        overrides@,
                        spec_all_parse_reasons()[i as int],
                    ) is Err);
                }
                return Err(e);
            },
        }
        i += 1;
    }
    proof {
        let s = spec_all_parse_reasons();
        let expected = s.map(
            |k: int, p: ParseRejectReason| (p, spec_session_reason_for(overrides@, p)->Ok_0),
        );
        assert forall|k: int| 0 <= k < s.len() implies !(spec_session_reason_for(
            overrides@,
            #[trigger] s[k],
        ) is Err) by {
            assert(spec_session_reason_for(overrides@, s[k]) == Ok::<_, CompileError>(out@[k].1));
        }
        assert forall|k: int| 0 <= k < out@.len() implies out@[k] == expected[k] by {
            assert(spec_session_reason_for(overrides@, s[k]) == Ok::<_, CompileError>(out@[k].1));
            assert(expected[k] == (s[k], spec_session_reason_for(overrides@, s[k])->Ok_0));
        }
        assert(out@ =~= expected);
    }
    Ok(out)
}

/// The full parse-reason domain as a vector, in the fixed order.
pub fn all_parse_reasons() -> (r: Vec<ParseRejectReason>)
    ensures
        r@ == spec_all_parse_reasons(),
{
    let mut v: Vec<ParseRejectReason> = Vec::new();
    v.push(ParseRejectReason::ValueIsIncorrect);
    v.push(ParseRejectReason::TagSpecifiedWithoutAValue);
    v.push(ParseRejectReason::IncorrectDataFormatForValue);
    v.push(ParseRejectReason::TagAppearsMoreThanOnce);
    v.push(ParseRejectReason::TagSpecifiedOutOfRequiredOrder);
    v.push(ParseRejectReason::RequiredTagMissing);
    v.push(ParseRejectReason::IncorrectNumingroupCountForRepeatingGroup);
    v.push(ParseRejectReason::TagNotDefinedForThisMessageType);
    v.push(ParseRejectReason::UndefinedTag);
    v.push(ParseRejectReason::RepeatingGroupFieldsOutOfOrder);
    v.push(ParseRejectReason::InvalidTagNumber);
    v.push(ParseRejectReason::InvalidMsgtype);
    v.push(ParseRejectReason::SendingtimeAccuracyProblem);
    v.push(ParseRejectReason::CompidProblem);
    assert(v@ =~= spec_all_parse_reasons());
    v
}

} // verus!
