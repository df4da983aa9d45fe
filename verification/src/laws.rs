//! The laws the resolver and the reject-reason mapping obey, stated over the
//! same specification functions the executable contracts use.

use vstd::prelude::*;

use crate::dictionary::{
    spec_find_component, spec_find_field, BasicType, Component, Dictionary, Field, Member,
    MemberKind, ParseRejectReason,
};
use crate::error::CompileError;
use crate::member::{DescModel, SimpleMember};
use crate::reject::{
    lemma_all_parse_reasons_total, spec_all_parse_reasons, spec_find_override,
    spec_reject_reason_map, spec_session_reason_for, spec_session_reason_of_name,
    SessionRejectReason,
};
use crate::resolver::{
    spec_group_named, spec_groups_contain, spec_register_group, spec_resolve,
};
use crate::structure::StructModel;

verus! {

/// Inlining is transparent: resolving a lone reference to a component without
/// a cardinality field yields exactly what resolving the component's own
/// member list yields — the same descriptor sequence, the same group catalog,
/// or the same error. (The nesting allowance drops by one on entering the
/// component, as it does at every component reference.)
pub proof fn lemma_component_inlining_transparent(
    dict: Dictionary,
    m: Member,
    c: Component,
    fuel: nat,
    groups: Seq<StructModel>,
)
    requires
        m.kind == MemberKind::Component,
        spec_find_component(dict.components@, m.name@, 0) == Some(c),
        c.number_of_elements is None,
        fuel > 0,
    ensures
        spec_resolve(dict, seq![m], 0, fuel, groups) == spec_resolve(
            dict,
            c.members@,
            0,
            (fuel - 1) as nat,
            groups,
        ),
{
    let s = seq![m];
    assert(s[0] == m);
    match spec_resolve(dict, c.members@, 0, (fuel - 1) as nat, groups) {
        Err(_) => {},
        Ok(eg) => {
            assert(spec_resolve(dict, s, 1, fuel, eg.1) == Ok::<_, CompileError>((
                Seq::<DescModel>::empty(),
                eg.1,
            )));
            assert(eg.0 + Seq::<DescModel>::empty() =~= eg.0);
        },
    }
}

/// First registration wins under a push that does not shadow: pushing a new
/// schema at the end changes no already-present entry.
proof fn lemma_group_named_push(g: Seq<StructModel>, x: StructModel, name: Seq<char>, i: int)
    requires
        0 <= i <= g.len(),
        spec_groups_contain(g, name, i),
    ensures
        spec_groups_contain(g.push(x), name, i),
        spec_group_named(g.push(x), name, i) == spec_group_named(g, name, i),
    decreases g.len() - i,
{
    if g[i].name == name {
        assert(g.push(x)[i] == g[i]);
    } else {
        assert(g.push(x)[i] == g[i]);
        lemma_group_named_push(g, x, name, i + 1);
    }
}

/// Registration never overwrites: once a schema stands under `name`, any
/// later registration, under that name or another, leaves it unchanged.
pub proof fn lemma_register_preserves(
    g: Seq<StructModel>,
    other: Seq<char>,
    members: Seq<DescModel>,
    name: Seq<char>,
)
    requires
        spec_groups_contain(g, name, 0),
    ensures
        spec_groups_contain(spec_register_group(g, other, members), name, 0),
        spec_group_named(spec_register_group(g, other, members), name, 0) == spec_group_named(
            g,
            name,
            0,
        ),
{
    if !spec_groups_contain(g, other, 0) {
        lemma_group_named_push(
            g,
            StructModel { name: other, members, msg_cat: None, msg_type: None, group: true },
            name,
            0,
        );
    }
}

/// Memoization: once a group schema is registered under a name, resolving any
/// further member list — however often it references that same component —
/// leaves the registered schema exactly as it was. The first resolution of a
/// group component within one compilation wins; later references reuse it.
pub proof fn lemma_memoization_first_wins(
    dict: Dictionary,
    members: Seq<Member>,
    i: int,
    fuel: nat,
    groups: Seq<StructModel>,
    name: Seq<char>,
)
    requires
        0 <= i <= members.len(),
        spec_groups_contain(groups, name, 0),
    ensures
        match spec_resolve(dict, members, i, fuel, groups) {
            Ok(dg) => spec_groups_contain(dg.1, name, 0) && spec_group_named(dg.1, name, 0)
                == spec_group_named(groups, name, 0),
            Err(_) => true,
        },
    decreases fuel, members.len() - i,
{
    if i >= members.len() {
    } else {
        let m = members[i];
        match m.kind {
            MemberKind::Component => match spec_find_component(dict.components@, m.name@, 0) {
                None => {},
                Some(c) => {
                    if fuel == 0 {
                    } else {
                        match c.number_of_elements {
                            Some(noe) => match spec_find_field(dict.fields@, noe.name@, 0) {
                                None => {},
                                Some(_f) => match spec_resolve(
                                    dict,
                                    c.members@,
                                    0,
                                    (fuel - 1) as nat,
                                    groups,
                                ) {
                                    Err(_) => {},
                                    Ok(eg) => {
                                        lemma_memoization_first_wins(
                                            dict,
                                            c.members@,
                                            0,
                                            (fuel - 1) as nat,
                                            groups,
                                            name,
                                        );
                                        lemma_register_preserves(eg.1, m.name@, eg.0, name);
                                        lemma_memoization_first_wins(
                                            dict,
                                            members,
                                            i + 1,
                                            fuel,
                                            spec_register_group(eg.1, m.name@, eg.0),
                                            name,
                                        );
                                    },
                                },
                            },
                            None => match spec_resolve(dict, c.members@, 0, (fuel - 1) as nat, groups) {
                                Err(_) => {},
                                Ok(eg) => {
                                    lemma_memoization_first_wins(
                                        dict,
                                        c.members@,
                                        0,
                                        (fuel - 1) as nat,
                                        groups,
                                        name,
                                    );
                                    lemma_memoization_first_wins(
                                        dict,
                                        members,
                                        i + 1,
                                        fuel,
                                        eg.1,
                                        name,
                                    );
                                },
                            },
                        }
                    }
                },
            },
            MemberKind::Field => match spec_find_field(dict.fields@, m.name@, 0) {
                None => {},
                Some(f) => match f.type_ {
                    BasicType::Length => {
                        if i + 1 >= members.len() {
                        } else {
                            let next = members[i + 1];
                            if next.kind == MemberKind::Field {
                                match spec_find_field(dict.fields@, next.name@, 0) {
                                    None => {},
                                    Some(nf) => {
                                        if nf.type_ == BasicType::Data || nf.type_
                                            == BasicType::XmlData {
                                            lemma_memoization_first_wins(
                                                dict,
                                                members,
                                                i + 2,
                                                fuel,
                                                groups,
                                                name,
                                            );
                                        } else {
                                            lemma_memoization_first_wins(
                                                dict,
                                                members,
                                                i + 1,
                                                fuel,
                                                groups,
                                                name,
                                            );
                                        }
                                    },
                                }
                            } else {
                                lemma_memoization_first_wins(dict, members, i + 1, fuel, groups, name);
                            }
                        }
                    },
                    _ => {
                        lemma_memoization_first_wins(dict, members, i + 1, fuel, groups, name);
                    },
                },
            },
        }
    }
}

/// One position of lookahead, pairing case: a Length-typed field followed
/// directly by a Data or XmlData field yields exactly one `LengthData`
/// descriptor for the two of them, and resolution continues two positions
/// further on — the payload member is consumed by the pairing.
pub proof fn lemma_length_data_pairs(
    dict: Dictionary,
    members: Seq<Member>,
    i: int,
    fuel: nat,
    groups: Seq<StructModel>,
    f: Field,
    nf: Field,
)
    requires
        0 <= i,
        i + 1 < members.len(),
        members[i].kind == MemberKind::Field,
        spec_find_field(dict.fields@, members[i].name@, 0) == Some(f),
        f.type_ == BasicType::Length,
        members[i + 1].kind == MemberKind::Field,
        spec_find_field(dict.fields@, members[i + 1].name@, 0) == Some(nf),
        nf.type_ == BasicType::Data || nf.type_ == BasicType::XmlData,
    ensures
        spec_resolve(dict, members, i, fuel, groups) == match spec_resolve(
            dict,
            members,
            i + 2,
            fuel,
            groups,
        ) {
            Err(e) => Err::<(Seq<DescModel>, Seq<StructModel>), CompileError>(e),
            Ok(rg) => Ok((
                seq![
                    DescModel::LengthData {
                        length: SimpleMember {
                            name: members[i].name,
                            tag: f.number,
                            required: members[i].required,
                            type_: BasicType::Length,
                        },
                        data: SimpleMember {
                            name: members[i + 1].name,
                            tag: nf.number,
                            required: members[i + 1].required,
                            type_: nf.type_,
                        },
                    },
                ] + rg.0,
                rg.1,
            )),
        },
{
}

/// One position of lookahead, unpaired case: a Length-typed field whose
/// successor is no Data or XmlData field yields exactly one plain `Simple`
/// descriptor, and resolution continues at the very next position.
pub proof fn lemma_length_unpaired(
    dict: Dictionary,
    members: Seq<Member>,
    i: int,
    fuel: nat,
    groups: Seq<StructModel>,
    f: Field,
)
    requires
        0 <= i,
        i + 1 < members.len(),
        members[i].kind == MemberKind::Field,
        spec_find_field(dict.fields@, members[i].name@, 0) == Some(f),
        f.type_ == BasicType::Length,
        members[i + 1].kind == MemberKind::Field ==> match spec_find_field(
            dict.fields@,
            members[i + 1].name@,
            0,
        ) {
            Some(nf) => nf.type_ != BasicType::Data && nf.type_ != BasicType::XmlData,
            None => false,
        },
    ensures
        spec_resolve(dict, members, i, fuel, groups) == match spec_resolve(
            dict,
            members,
            i + 1,
            fuel,
            groups,
        ) {
            Err(e) => Err::<(Seq<DescModel>, Seq<StructModel>), CompileError>(e),
            Ok(rg) => Ok((
                seq![
                    DescModel::Simple(
                        SimpleMember {
                            name: members[i].name,
                            tag: f.number,
                            required: members[i].required,
                            type_: BasicType::Length,
                        },
                    ),
                ] + rg.0,
                rg.1,
            )),
        },
{
}

/// A boolean-typed field is always a plain `Simple` member, never an
/// `Enumeration`, even when the dictionary declares named values for it.
pub proof fn lemma_boolean_never_enumeration(
    dict: Dictionary,
    members: Seq<Member>,
    i: int,
    fuel: nat,
    groups: Seq<StructModel>,
    f: Field,
)
    requires
        0 <= i < members.len(),
        members[i].kind == MemberKind::Field,
        spec_find_field(dict.fields@, members[i].name@, 0) == Some(f),
        f.type_ == BasicType::Boolean,
        f.values is Some,
    ensures
        match spec_resolve(dict, members, i, fuel, groups) {
            Ok(dg) => dg.0.len() > 0 && dg.0[0] == DescModel::Simple(
                SimpleMember {
                    name: members[i].name,
                    tag: f.number,
                    required: members[i].required,
                    type_: BasicType::Boolean,
                },
            ) && !(dg.0[0] is Enumeration),
            Err(_) => true,
        },
{
}

/// The count field of a repeating group inherits requiredness from the
/// referencing member: when the component reference is required, the emitted
/// count descriptor is required, whatever the count field's own declared
/// flag says.
pub proof fn lemma_group_count_required(
    dict: Dictionary,
    members: Seq<Member>,
    i: int,
    fuel: nat,
    groups: Seq<StructModel>,
    c: Component,
    noe: Member,
    f: Field,
)
    requires
        0 <= i < members.len(),
        members[i].kind == MemberKind::Component,
        members[i].required,
        spec_find_component(dict.components@, members[i].name@, 0) == Some(c),
        c.number_of_elements == Some(noe),
        spec_find_field(dict.fields@, noe.name@, 0) == Some(f),
    ensures
        match spec_resolve(dict, members, i, fuel, groups) {
            Ok(dg) => dg.0.len() >= 2 && dg.0[0] == DescModel::Simple(
                SimpleMember {
                    name: noe.name,
                    tag: f.number,
                    required: true,
                    type_: BasicType::NumInGroup,
                },
            ) && (dg.0[0] matches DescModel::Simple(s) && s.required),
            Err(_) => true,
        },
{
    if fuel > 0 {
        match spec_resolve(dict, c.members@, 0, (fuel - 1) as nat, groups) {
            Err(_) => {},
            Ok(eg) => {
                match spec_resolve(
                    dict,
                    members,
                    i + 1,
                    fuel,
                    spec_register_group(eg.1, members[i].name@, eg.0),
                ) {
                    Err(_) => {},
                    Ok(_rg) => {},
                }
            },
        }
    }
}

/// The reject-reason mapping is total and injectively indexed: every parse
/// reason has exactly one entry, and that entry carries its override where
/// one is given, else its name-identical default.
pub proof fn lemma_reject_map_total(
    overrides: Seq<(ParseRejectReason, String)>,
    m: Seq<(ParseRejectReason, SessionRejectReason)>,
    p: ParseRejectReason,
)
    requires
        spec_reject_reason_map(overrides) == Ok::<_, CompileError>(m),
    ensures
        exists|k: int|
            0 <= k < m.len() && #[trigger] m[k] == (
                p,
                spec_session_reason_for(overrides, p)->Ok_0,
            ),
        forall|k: int, l: int| 0 <= k < l < m.len() ==> #[trigger] m[k].0 != #[trigger] m[l].0,
{
    lemma_all_parse_reasons_total(p);
    let s = spec_all_parse_reasons();
    let k = choose|k: int| 0 <= k < s.len() && #[trigger] s[k] == p;
    assert(m[k] == (p, spec_session_reason_for(overrides, p)->Ok_0));
    assert forall|a: int, b: int| 0 <= a < b < m.len() implies #[trigger] m[a].0
        != #[trigger] m[b].0 by {
        assert(m[a].0 == s[a]);
        assert(m[b].0 == s[b]);
    }
}

/// An override strictly replaces the default: where the dictionary maps a
/// parse reason to a valid session-reason name, the built mapping carries
/// exactly that session reason for it.
pub proof fn lemma_override_strictly_replaces(
    overrides: Seq<(ParseRejectReason, String)>,
    m: Seq<(ParseRejectReason, SessionRejectReason)>,
    p: ParseRejectReason,
    name: String,
    s: SessionRejectReason,
)
    requires
        spec_reject_reason_map(overrides) == Ok::<_, CompileError>(m),
        spec_find_override(overrides, p, 0) == Some(name),
        spec_session_reason_of_name(name@) == Some(s),
    ensures
        exists|k: int| 0 <= k < m.len() && #[trigger] m[k] == (p, s),
{
    lemma_reject_map_total(overrides, m, p);
}

} // verus!
