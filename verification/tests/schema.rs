use fix_schema::dictionary::{
    BasicType, Component, Dictionary, Field, Member, MemberKind, Message, MsgCat,
    ParseRejectReason, Value, Version,
};
use fix_schema::error::CompileError;
use fix_schema::gen::Generator;
use fix_schema::member::MemberDesc;
use fix_schema::reject::{build_reject_reason_map, SessionRejectReason};
use fix_schema::resolver::resolve_members;
use fix_schema::structure::Struct;

fn field_member(name: &str, required: bool) -> Member {
    Member { name: name.to_string(), required, kind: MemberKind::Field }
}

fn comp_member(name: &str, required: bool) -> Member {
    Member { name: name.to_string(), required, kind: MemberKind::Component }
}

fn field(name: &str, number: u16, type_: BasicType) -> Field {
    Field { name: name.to_string(), number, type_, values: None }
}

fn field_with_values(name: &str, number: u16, type_: BasicType, values: &[(&str, &str)]) -> Field {
    Field {
        name: name.to_string(),
        number,
        type_,
        values: Some(
            values
                .iter()
                .map(|(v, d)| Value { value: v.to_string(), description: d.to_string() })
                .collect(),
        ),
    }
}

fn plain_component(name: &str, members: Vec<Member>) -> Component {
    Component { name: name.to_string(), number_of_elements: None, members }
}

fn group_component(name: &str, count_field: &str, members: Vec<Member>) -> Component {
    Component {
        name: name.to_string(),
        number_of_elements: Some(field_member(count_field, false)),
        members,
    }
}

fn message(name: &str, msg_type: &str, members: Vec<Member>) -> Message {
    Message { name: name.to_string(), msg_cat: MsgCat::App, msg_type: msg_type.to_string(), members }
}

fn dict(fields: Vec<Field>, components: Vec<Component>, messages: Vec<Message>) -> Dictionary {
    Dictionary {
        fix_version: None,
        fixt_version: Some(Version { major: 4, minor: 4, service_pack: 0 }),
        header: Some(plain_component("Header", vec![field_member("BeginString", true)])),
        trailer: Some(plain_component("Trailer", vec![field_member("CheckSum", true)])),
        messages,
        components,
        fields,
        reject_reason_overrides: Vec::new(),
    }
}

fn base_fields() -> Vec<Field> {
    vec![
        field("BeginString", 8, BasicType::String),
        field("CheckSum", 10, BasicType::String),
    ]
}

fn party_fields() -> Vec<Field> {
    let mut fs = base_fields();
    fs.push(field("NoPartyIDs", 453, BasicType::NumInGroup));
    fs.push(field("PartyID", 448, BasicType::String));
    fs.push(field("PartyIDSource", 447, BasicType::Char));
    fs.push(field("PartyRole", 452, BasicType::Int));
    fs
}

fn parties_component() -> Component {
    group_component(
        "Parties",
        "NoPartyIDs",
        vec![
            field_member("PartyID", false),
            field_member("PartyIDSource", false),
            field_member("PartyRole", false),
        ],
    )
}

// Begin-string derivation: transport family, 4.4, no service pack.
#[test]
fn begin_string_transport_no_service_pack() {
    let d = dict(base_fields(), vec![], vec![]);
    let g = Generator::new(&d).unwrap();
    assert_eq!(g.begin_string, b"FIXT.4.4".to_vec());
}

// Begin-string derivation: a non-zero service pack appends the SP suffix.
#[test]
fn begin_string_transport_service_pack_two() {
    let mut d = dict(base_fields(), vec![], vec![]);
    d.fixt_version = Some(Version { major: 4, minor: 4, service_pack: 2 });
    let g = Generator::new(&d).unwrap();
    assert_eq!(g.begin_string, b"FIXT.4.4SP2".to_vec());
}

// Begin-string derivation: application family uses the FIX prefix.
#[test]
fn begin_string_application_family() {
    let mut d = dict(base_fields(), vec![], vec![]);
    d.fixt_version = None;
    d.fix_version = Some(Version { major: 4, minor: 2, service_pack: 0 });
    let g = Generator::new(&d).unwrap();
    assert_eq!(g.begin_string, b"FIX.4.2".to_vec());
}

// A message holding one repeating group: at the reference, exactly one Simple
// count descriptor (required, from the member's flag) directly followed by a
// Group descriptor whose element tags are the three scalar sub-fields.
#[test]
fn group_reference_emits_count_then_group() {
    let d = dict(
        party_fields(),
        vec![parties_component()],
        vec![message("TestMessage", "XX", vec![comp_member("Parties", true)])],
    );
    let g = Generator::new(&d).unwrap();
    let msg_struct = g.structs.iter().find(|s| s.name == "TestMessage").unwrap();
    assert_eq!(msg_struct.members.len(), 2);
    match &msg_struct.members[0] {
        MemberDesc::Simple(count) => {
            assert_eq!(count.name, "NoPartyIDs");
            assert_eq!(count.tag, 453);
            assert!(count.required);
            assert_eq!(count.type_, BasicType::NumInGroup);
        },
        other => panic!("expected Simple count descriptor, got {:?}", other),
    }
    match &msg_struct.members[1] {
        MemberDesc::Group { number_of_elements, group, element_tags } => {
            assert_eq!(number_of_elements.name, "NoPartyIDs");
            assert_eq!(group.name, "Parties");
            assert_eq!(group.tag, 453);
            assert_eq!(element_tags, &vec![448u16, 447, 452]);
        },
        other => panic!("expected Group descriptor, got {:?}", other),
    }
}

// The count field inherits requiredness from the component member, not from
// the count field's own declared flag (which is false here).
#[test]
fn group_count_required_flag_comes_from_member() {
    let d = dict(
        party_fields(),
        vec![parties_component()],
        vec![
            message("RequiredRef", "R1", vec![comp_member("Parties", true)]),
            message("OptionalRef", "R2", vec![comp_member("Parties", false)]),
        ],
    );
    let g = Generator::new(&d).unwrap();
    let required_ref = g.structs.iter().find(|s| s.name == "RequiredRef").unwrap();
    match &required_ref.members[0] {
        MemberDesc::Simple(count) => assert!(count.required),
        other => panic!("expected Simple count descriptor, got {:?}", other),
    }
    let optional_ref = g.structs.iter().find(|s| s.name == "OptionalRef").unwrap();
    match &optional_ref.members[0] {
        MemberDesc::Simple(count) => assert!(!count.required),
        other => panic!("expected Simple count descriptor, got {:?}", other),
    }
}

// Memoization: two references to one group component yield one group schema.
#[test]
fn group_schema_registered_once() {
    let d = dict(
        party_fields(),
        vec![parties_component()],
        vec![
            message("First", "A1", vec![comp_member("Parties", true)]),
            message("Second", "A2", vec![comp_member("Parties", false)]),
        ],
    );
    let g = Generator::new(&d).unwrap();
    let group_schemas: Vec<&Struct> = g.group_schemas();
    assert_eq!(group_schemas.len(), 1);
    assert_eq!(group_schemas[0].name, "Parties");
    assert_eq!(group_schemas[0].members.len(), 3);
}

// Inlining a plain component is transparent: the same descriptors come out as
// when its members stand directly in the list.
#[test]
fn plain_component_inlines_transparently() {
    let mut fields = base_fields();
    fields.push(field("Account", 1, BasicType::String));
    fields.push(field("ClOrdID", 11, BasicType::String));
    let block = plain_component(
        "OrderBlock",
        vec![field_member("Account", true), field_member("ClOrdID", false)],
    );
    let d = dict(
        fields,
        vec![block],
        vec![
            message("ViaComponent", "B1", vec![comp_member("OrderBlock", true)]),
            message(
                "Direct",
                "B2",
                vec![field_member("Account", true), field_member("ClOrdID", false)],
            ),
        ],
    );
    let g = Generator::new(&d).unwrap();
    let via = g.structs.iter().find(|s| s.name == "ViaComponent").unwrap();
    let direct = g.structs.iter().find(|s| s.name == "Direct").unwrap();
    assert_eq!(via.members, direct.members);
    assert_eq!(via.members.len(), 2);
}

// A Length field directly followed by a Data field becomes one LengthData
// pair; the Data member is consumed, not re-emitted.
#[test]
fn length_then_data_pairs_once() {
    let mut fields = base_fields();
    fields.push(field("RawDataLength", 95, BasicType::Length));
    fields.push(field("RawData", 96, BasicType::Data));
    fields.push(field("Account", 1, BasicType::String));
    let d = dict(
        fields,
        vec![],
        vec![message(
            "WithRaw",
            "C1",
            vec![
                field_member("RawDataLength", true),
                field_member("RawData", true),
                field_member("Account", false),
            ],
        )],
    );
    let g = Generator::new(&d).unwrap();
    let msg_struct = g.structs.iter().find(|s| s.name == "WithRaw").unwrap();
    assert_eq!(msg_struct.members.len(), 2);
    match &msg_struct.members[0] {
        MemberDesc::LengthData { length, data } => {
            assert_eq!(length.tag, 95);
            assert_eq!(length.type_, BasicType::Length);
            assert_eq!(data.tag, 96);
            assert_eq!(data.type_, BasicType::Data);
        },
        other => panic!("expected LengthData descriptor, got {:?}", other),
    }
    assert!(matches!(&msg_struct.members[1], MemberDesc::Simple(s) if s.tag == 1));
}

// A Length field whose successor is no Data/XmlData field stays a plain
// Simple member, and the successor is classified on its own.
#[test]
fn length_without_data_stays_simple() {
    let mut fields = base_fields();
    fields.push(field("RawDataLength", 95, BasicType::Length));
    fields.push(field("Account", 1, BasicType::String));
    let d = dict(
        fields,
        vec![],
        vec![message(
            "NoPayload",
            "C2",
            vec![field_member("RawDataLength", true), field_member("Account", false)],
        )],
    );
    let g = Generator::new(&d).unwrap();
    let msg_struct = g.structs.iter().find(|s| s.name == "NoPayload").unwrap();
    assert_eq!(msg_struct.members.len(), 2);
    assert!(matches!(&msg_struct.members[0], MemberDesc::Simple(s) if s.tag == 95 && s.type_ == BasicType::Length));
    assert!(matches!(&msg_struct.members[1], MemberDesc::Simple(s) if s.tag == 1));
}

// Policy pin: a Length field standing last in a member list is a
// configuration error, not a silent drop.
#[test]
fn trailing_length_field_is_an_error() {
    let mut fields = base_fields();
    fields.push(field("RawDataLength", 95, BasicType::Length));
    let d = dict(
        fields,
        vec![],
        vec![message("Dangling", "C3", vec![field_member("RawDataLength", true)])],
    );
    assert_eq!(Generator::new(&d).unwrap_err(), CompileError::TrailingLengthField);
}

// A boolean field with a declared value set still resolves to Simple, never
// to Enumeration, and yields no enumeration definition.
#[test]
fn boolean_with_values_stays_simple() {
    let mut fields = base_fields();
    fields.push(field_with_values(
        "PossDupFlag",
        43,
        BasicType::Boolean,
        &[("Y", "YES"), ("N", "NO")],
    ));
    let d = dict(
        fields,
        vec![],
        vec![message("Flagged", "D1", vec![field_member("PossDupFlag", false)])],
    );
    let g = Generator::new(&d).unwrap();
    let msg_struct = g.structs.iter().find(|s| s.name == "Flagged").unwrap();
    assert!(matches!(&msg_struct.members[0], MemberDesc::Simple(s) if s.tag == 43));
    assert!(g.enums.iter().all(|e| e.name != "PossDupFlag"));
    assert!(g.enums.is_empty());
}

// A non-boolean field with a closed value set resolves to Enumeration and
// yields one enumeration definition under its case-normalized name.
#[test]
fn value_set_yields_enumeration() {
    let mut fields = base_fields();
    fields.push(field_with_values(
        "exec_type",
        150,
        BasicType::Char,
        &[("0", "NEW"), ("4", "CANCELED")],
    ));
    let d = dict(
        fields,
        vec![],
        vec![message("Report", "D2", vec![field_member("exec_type", true)])],
    );
    let g = Generator::new(&d).unwrap();
    let msg_struct = g.structs.iter().find(|s| s.name == "Report").unwrap();
    assert!(matches!(&msg_struct.members[0], MemberDesc::Enumeration(s) if s.tag == 150));
    assert_eq!(g.enums.len(), 1);
    assert_eq!(g.enums[0].name, "ExecType");
    assert_eq!(g.enums[0].type_, BasicType::Char);
    assert_eq!(g.enums[0].values.len(), 2);
    assert_eq!(g.enums[0].values[0].value, "0");
}

// The field catalog comes out tag-ascending with case-normalized names; the
// names differ from the declared ones, so the normalization really ran.
#[test]
fn catalog_sorted_by_tag_with_normalized_names() {
    let fields = vec![
        field("SenderCompID", 49, BasicType::String),
        field("BeginString", 8, BasicType::String),
        field("test_field", 9999, BasicType::Int),
        field("MsgType", 35, BasicType::String),
    ];
    let mut d = dict(fields, vec![], vec![]);
    d.trailer = Some(plain_component("Trailer", vec![field_member("MsgType", true)]));
    let g = Generator::new(&d).unwrap();
    assert_eq!(g.fields_numbers, vec![8, 35, 49, 9999]);
    assert_eq!(g.fields_names, vec!["BeginString", "MsgType", "SenderCompId", "TestField"]);
}

// Errors: a member naming an undeclared component.
#[test]
fn unknown_component_reference_fails() {
    let d = dict(
        base_fields(),
        vec![],
        vec![message("Broken", "E1", vec![comp_member("NoSuchBlock", true)])],
    );
    assert_eq!(Generator::new(&d).unwrap_err(), CompileError::UnknownComponent);
}

// Errors: a member naming an undeclared field.
#[test]
fn unknown_field_reference_fails() {
    let d = dict(
        base_fields(),
        vec![],
        vec![message("Broken", "E2", vec![field_member("NoSuchField", true)])],
    );
    assert_eq!(Generator::new(&d).unwrap_err(), CompileError::UnknownField);
}

// Errors: a component that references itself can never finish resolving.
#[test]
fn cyclic_component_reference_fails() {
    let loop_block = plain_component("LoopBlock", vec![comp_member("LoopBlock", true)]);
    let d = dict(
        base_fields(),
        vec![loop_block],
        vec![message("Cyclic", "E3", vec![comp_member("LoopBlock", true)])],
    );
    assert_eq!(Generator::new(&d).unwrap_err(), CompileError::ComponentNestingTooDeep);
}

// Errors: no protocol version descriptor at all.
#[test]
fn missing_version_fails() {
    let mut d = dict(base_fields(), vec![], vec![]);
    d.fixt_version = None;
    d.fix_version = None;
    assert_eq!(Generator::new(&d).unwrap_err(), CompileError::MissingVersion);
}

// Errors: no header definition.
#[test]
fn missing_header_fails() {
    let mut d = dict(base_fields(), vec![], vec![]);
    d.header = None;
    assert_eq!(Generator::new(&d).unwrap_err(), CompileError::MissingHeader);
}

// Errors: no trailer definition.
#[test]
fn missing_trailer_fails() {
    let mut d = dict(base_fields(), vec![], vec![]);
    d.trailer = None;
    assert_eq!(Generator::new(&d).unwrap_err(), CompileError::MissingTrailer);
}

// Errors: two fields sharing one tag number.
#[test]
fn duplicate_field_number_fails() {
    let mut fields = base_fields();
    fields.push(field("Shadow", 8, BasicType::Int));
    let d = dict(fields, vec![], vec![]);
    assert_eq!(Generator::new(&d).unwrap_err(), CompileError::DuplicateFieldNumber);
}

// Errors: two field names normalizing to the same symbolic name.
#[test]
fn colliding_symbolic_names_fail() {
    let mut fields = base_fields();
    fields.push(field("order_id", 37, BasicType::String));
    fields.push(field("OrderID", 41, BasicType::String));
    let d = dict(fields, vec![], vec![]);
    assert_eq!(Generator::new(&d).unwrap_err(), CompileError::DuplicateSymbolicName);
}

// Errors: a reject-reason override naming no session reject reason.
#[test]
fn unknown_reject_reason_override_fails() {
    let mut d = dict(base_fields(), vec![], vec![]);
    d.reject_reason_overrides =
        vec![(ParseRejectReason::CompidProblem, "NoSuchReason".to_string())];
    assert_eq!(Generator::new(&d).unwrap_err(), CompileError::UnknownRejectReasonOverride);
}

// The reject-reason mapping is total: all parse reasons present exactly once,
// defaults identical by name, overrides strictly replacing.
#[test]
fn reject_reason_map_total_with_override() {
    let overrides = vec![(ParseRejectReason::ValueIsIncorrect, "CompidProblem".to_string())];
    let map = build_reject_reason_map(&overrides).unwrap();
    assert_eq!(map.len(), 14);
    let lookup = |p: ParseRejectReason| -> SessionRejectReason {
        map.iter().find(|(k, _)| *k == p).unwrap().1
    };
    assert_eq!(
        lookup(ParseRejectReason::ValueIsIncorrect),
        SessionRejectReason::CompidProblem
    );
    assert_eq!(
        lookup(ParseRejectReason::RequiredTagMissing),
        SessionRejectReason::RequiredTagMissing
    );
    assert_eq!(lookup(ParseRejectReason::UndefinedTag), SessionRejectReason::UndefinedTag);
    for p in [
        ParseRejectReason::ValueIsIncorrect,
        ParseRejectReason::TagSpecifiedWithoutAValue,
        ParseRejectReason::IncorrectDataFormatForValue,
        ParseRejectReason::TagAppearsMoreThanOnce,
        ParseRejectReason::TagSpecifiedOutOfRequiredOrder,
        ParseRejectReason::RequiredTagMissing,
        ParseRejectReason::IncorrectNumingroupCountForRepeatingGroup,
        ParseRejectReason::TagNotDefinedForThisMessageType,
        ParseRejectReason::UndefinedTag,
        ParseRejectReason::RepeatingGroupFieldsOutOfOrder,
        ParseRejectReason::InvalidTagNumber,
        ParseRejectReason::InvalidMsgtype,
        ParseRejectReason::SendingtimeAccuracyProblem,
        ParseRejectReason::CompidProblem,
    ] {
        assert_eq!(map.iter().filter(|(k, _)| *k == p).count(), 1);
    }
}

// The struct set comes out ordered: header, trailer, messages, then groups.
#[test]
fn struct_set_order_and_message_properties() {
    let d = dict(
        party_fields(),
        vec![parties_component()],
        vec![message("OnlyMessage", "F1", vec![comp_member("Parties", true)])],
    );
    let g = Generator::new(&d).unwrap();
    let names: Vec<&str> = g.structs.iter().map(|s| s.name.as_str()).collect();
    assert_eq!(names, vec!["Header", "Trailer", "OnlyMessage", "Parties"]);
    let msg_struct = &g.structs[2];
    let props = msg_struct.msg_props.as_ref().unwrap();
    assert_eq!(props.msg_type, "F1");
    assert_eq!(props.msg_cat, MsgCat::App);
    assert!(g.structs[0].msg_props.is_none());
    assert!(!g.structs[0].group);
    assert!(g.structs[3].group);
}

// Resolving members directly: a nested group inside a group registers both
// schemas, and the outer element tags include the inner count tag.
#[test]
fn nested_groups_register_both_schemas() {
    let mut fields = party_fields();
    fields.push(field("NoPartySubIDs", 802, BasicType::NumInGroup));
    fields.push(field("PartySubID", 523, BasicType::String));
    let sub_group = group_component("PtysSubGrp", "NoPartySubIDs", vec![field_member("PartySubID", false)]);
    let outer = group_component(
        "Parties",
        "NoPartyIDs",
        vec![field_member("PartyID", false), comp_member("PtysSubGrp", false)],
    );
    let d = dict(
        fields,
        vec![sub_group, outer],
        vec![message("Nested", "G1", vec![comp_member("Parties", true)])],
    );
    let g = Generator::new(&d).unwrap();
    let group_names: Vec<&str> =
        g.structs.iter().filter(|s| s.group).map(|s| s.name.as_str()).collect();
    assert!(group_names.contains(&"Parties"));
    assert!(group_names.contains(&"PtysSubGrp"));
    let parties = g.structs.iter().find(|s| s.group && s.name == "Parties").unwrap();
    assert_eq!(parties.members.len(), 3);
    assert!(matches!(&parties.members[1], MemberDesc::Simple(s) if s.tag == 802));
    match &parties.members[2] {
        MemberDesc::Group { element_tags, .. } => assert_eq!(element_tags, &vec![523u16]),
        other => panic!("expected inner Group descriptor, got {:?}", other),
    }
    // outer element tags: PartyID plus the inner count field
    let nested_msg = g.structs.iter().find(|s| s.name == "Nested").unwrap();
    match &nested_msg.members[1] {
        MemberDesc::Group { element_tags, .. } => assert_eq!(element_tags, &vec![448u16, 802]),
        other => panic!("expected outer Group descriptor, got {:?}", other),
    }
}

// resolve_members standalone: descriptors append to the given buffer and the
// group table fills as a side table.
#[test]
fn resolve_members_appends_descriptors() {
    let d = dict(party_fields(), vec![parties_component()], vec![]);
    let members = vec![comp_member("Parties", true)];
    let mut out: Vec<MemberDesc> = Vec::new();
    let mut groups: Vec<Struct> = Vec::new();
    let fuel = d.components.len();
    resolve_members(&d, &members, 0, fuel, &mut out, &mut groups).unwrap();
    assert_eq!(out.len(), 2);
    assert_eq!(groups.len(), 1);
    assert_eq!(groups[0].name, "Parties");
    assert!(groups[0].group);
}
