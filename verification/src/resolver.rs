//! The member resolver: recursively flattens component references, detects
//! and materializes repeating groups, pairs Length fields with their payload
//! field, and classifies every member into a descriptor shape.

use vstd::prelude::*;

use crate::dictionary::{
    spec_find_component, spec_find_field, BasicType, Dictionary, Member, MemberKind,
};
use crate::error::CompileError;
use crate::member::{descs_view, spec_simple_tags, simple_tags, DescModel, MemberDesc, SimpleMember};
use crate::structure::{structs_view, Struct, StructModel};

verus! {

/// Whether one of the group schemas at or after position `i` is named `name`.
pub open spec fn spec_groups_contain(g: Seq<StructModel>, name: Seq<char>, i: int) -> bool
    decreases g.len() - i
    when 0 <= i <= g.len()
{
    if i >= g.len() {
        false
    } else if g[i].name == name {
        true
    } else {
        spec_groups_contain(g, name, i + 1)
    }
}

/// The first group schema at or after position `i` named `name`, if any.
pub open spec fn spec_group_named(g: Seq<StructModel>, name: Seq<char>, i: int) -> Option<
    StructModel,
>
    decreases g.len() - i
    when 0 <= i <= g.len()
{
    if i >= g.len() {
        None
    } else if g[i].name == name {
        Some(g[i])
    } else {
        spec_group_named(g, name, i + 1)
    }
}

/// Registers a group schema under `name` unless one is already registered:
/// the first resolution of a group component wins.
pub open spec fn spec_register_group(
    g: Seq<StructModel>,
    name: Seq<char>,
    members: Seq<DescModel>,
) -> Seq<StructModel> {
    if spec_groups_contain(g, name, 0) {
        g
    } else {
        g.push(
            StructModel { name, members, msg_cat: None, msg_type: None, group: true },
        )
    }
}

/// What resolving `members[i..]` yields: the descriptor list in declaration
/// order and the group-schema catalog grown along the way, or the
/// configuration error that aborts compilation.
///
/// `fuel` bounds component nesting; the compiler passes the component count,
/// which only a cyclic component graph can exhaust. One position of lookahead
/// decides how a Length-typed field is classified: a Data or XmlData field
/// directly after it joins it in one `LengthData` pair and is consumed by the
/// pairing; any other successor leaves the Length field a plain `Simple`; no
/// successor at all is a configuration error.
pub open spec fn spec_resolve(
    dict: Dictionary,
    members: Seq<Member>,
    i: int,
    fuel: nat,
    groups: Seq<StructModel>,
) -> Result<(Seq<DescModel>, Seq<StructModel>), CompileError>
    decreases fuel, members.len() - i
    when 0 <= i <= members.len()
{
    if i >= members.len() {
        Ok((Seq::empty(), groups))
    } else {
        let m = members[i];
        match m.kind {
            MemberKind::Component => match spec_find_component(dict.components@, m.name@, 0) {
                None => Err(CompileError::UnknownComponent),
                Some(c) => if fuel == 0 {
                    Err(CompileError::ComponentNestingTooDeep)
                } else {
                    match c.number_of_elements {
                        Some(noe) => match spec_find_field(dict.fields@, noe.name@, 0) {
                            None => Err(CompileError::UnknownField),
                            Some(f) => match spec_resolve(
                                dict,
                                c.members@,
                                0,
                                (fuel - 1) as nat,
                                groups,
                            ) {
                                Err(e) => Err(e),
                                Ok(eg) => {
                                    let count = SimpleMember {
                                        name: noe.name,
                                        tag: f.number,
                                        required: m.required,
                                        type_: BasicType::NumInGroup,
                                    };
                                    let group_field = SimpleMember {
                                        name: m.name,
                                        tag: f.number,
                                        required: m.required,
                                        type_: BasicType::NumInGroup,
                                    };
                                    let head = seq![
                                        DescModel::Simple(count),
                                        DescModel::Group {
                                            number_of_elements: count,
                                            group: group_field,
                                            element_tags: spec_simple_tags(eg.0, 0),
                                        },
                                    ];
                                    match spec_resolve(
                                        dict,
                                        members,
                                        i + 1,
                                        fuel,
                                        spec_register_group(eg.1, m.name@, eg.0),
                                    ) {
                                        Err(e) => Err(e),
                                        Ok(rg) => Ok((head + rg.0, rg.1)),
                                    }
                                },
                            },
                        },
                        None => match spec_resolve(dict, c.members@, 0, (fuel - 1) as nat, groups) {
                            Err(e) => Err(e),
                            Ok(eg) => match spec_resolve(dict, members, i + 1, fuel, eg.1) {
                                Err(e) => Err(e),
                                Ok(rg) => Ok((eg.0 + rg.0, rg.1)),
                            },
                        },
                    }
                },
            },
            MemberKind::Field => match spec_find_field(dict.fields@, m.name@, 0) {
                None => Err(CompileError::UnknownField),
                Some(f) => match f.type_ {
                    BasicType::Length => if i + 1 >= members.len() {
                        Err(CompileError::TrailingLengthField)
                    } else {
                        let next = members[i + 1];
                        let length_member = SimpleMember {
                            name: m.name,
                            tag: f.number,
                            required: m.required,
                            type_: BasicType::Length,
                        };
                        if next.kind == MemberKind::Field {
                            match spec_find_field(dict.fields@, next.name@, 0) {
                                None => Err(CompileError::UnknownField),
                                Some(nf) => if nf.type_ == BasicType::Data || nf.type_
                                    == BasicType::XmlData {
                                    match spec_resolve(dict, members, i + 2, fuel, groups) {
                                        Err(e) => Err(e),
                                        Ok(rg) => Ok((
                                            seq![
                                                DescModel::LengthData {
                                                    length: length_member,
                                                    data: SimpleMember {
                                                        name: next.name,
                                                        tag: nf.number,
                                                        required: next.required,
                                                        type_: nf.type_,
                                                    },
                                                },
                                            ] + rg.0,
                                            rg.1,
                                        )),
                                    }
                                } else {
                                    match spec_resolve(dict, members, i + 1, fuel, groups) {
                                        Err(e) => Err(e),
                                        Ok(rg) => Ok((
                                            seq![DescModel::Simple(length_member)] + rg.0,
                                            rg.1,
                                        )),
                                    }
                                },
                            }
                        } else {
                            match spec_resolve(dict, members, i + 1, fuel, groups) {
                                Err(e) => Err(e),
                                Ok(rg) => Ok((seq![DescModel::Simple(length_member)] + rg.0, rg.1)),
                            }
                        }
                    },
                    BasicType::Boolean => match spec_resolve(dict, members, i + 1, fuel, groups) {
                        Err(e) => Err(e),
                        Ok(rg) => Ok((
                            seq![
                                DescModel::Simple(SimpleMember {
                                    name: m.name,
                                    tag: f.number,
                                    required: m.required,
                                    type_: BasicType::Boolean,
                                }),
                            ] + rg.0,
                            rg.1,
                        )),
                    },
                    other_type => {
                        let scalar = SimpleMember {
                            name: m.name,
                            tag: f.number,
                            required: m.required,
                            type_: other_type,
                        };
                        let head = if f.values is Some {
                            DescModel::Enumeration(scalar)
                        } else {
                            DescModel::Simple(scalar)
                        };
                        match spec_resolve(dict, members, i + 1, fuel, groups) {
                            Err(e) => Err(e),
                            Ok(rg) => Ok((seq![head] + rg.0, rg.1)),
                        }
                    },
                },
            },
        }
    }
}

/// Whether a group schema named `name` is already registered.
fn groups_contain(groups: &Vec<Struct>, name: &String, i: usize) -> (r: bool)
    requires
        i <= groups@.len(),
    ensures
        r == spec_groups_contain(structs_view(groups@), name@, i as int),
    decreases groups@.len() - i,
{
    if i == groups.len() {
        false
    } else if groups[i].name == *name {
        true
    } else {
        groups_contain(groups, name, i + 1)
    }
}

/// Registers `members` as the element schema of the group component `name`,
/// unless a schema of that name is already registered: first resolution wins.
fn register_group(groups: &mut Vec<Struct>, name: &String, members: Vec<MemberDesc>)
    ensures
        structs_view(final(groups)@) == spec_register_group(
            structs_view(old(groups)@),
            name@,
            descs_view(members@),
        ),
{
    if !groups_contain(groups, name, 0) {
        let entry = Struct { name: name.clone(), members, msg_props: None, group: true };
        groups.push(entry);
        assert(structs_view(groups@) =~= spec_register_group(
            structs_view(old(groups)@),
            name@,
            descs_view(members@),
        ));
    }
}

/// Resolves `members[i..]`, appending the descriptors to `out` and
/// registering every repeating-group schema discovered along the way in
/// `groups`. Returns exactly what `spec_resolve` states, with partial output
/// left behind only on error.
#[verifier::rlimit(100)]
pub fn resolve_members(
    dict: &Dictionary,
    members: &Vec<Member>,
    i: usize,
    fuel: usize,
    out: &mut Vec<MemberDesc>,
    groups: &mut Vec<Struct>,
) -> (r: Result<(), CompileError>)
    requires
        i <= members@.len(),
    ensures
        match spec_resolve(
            *dict,
            members@,
            i as int,
            fuel as nat,
            structs_view(old(groups)@),
        ) {
            Ok(dg) => r is Ok && descs_view(final(out)@) == descs_view(old(out)@) + dg.0
                && structs_view(final(groups)@) == dg.1,
            Err(e) => r == Err::<(), CompileError>(e),
        },
    decreases fuel, members@.len() - i,
{
    if i == members.len() {
        assert(descs_view(out@) =~= descs_view(out@) + Seq::<DescModel>::empty());
        return Ok(());
    }
    let m = &members[i];
    match m.kind {
        MemberKind::Component => {
            let c = match dict.component(&m.name) {
                Some(c) => c,
                None => {
                    return Err(CompileError::UnknownComponent);
                },
            };
            if fuel == 0 {
                return Err(CompileError::ComponentNestingTooDeep);
            }
            match &c.number_of_elements {
                Some(noe) => {
                    let f = match dict.field_by_name(&noe.name) {
                        Some(f) => f,
                        None => {
                            return Err(CompileError::UnknownField);
                        },
                    };
                    let mut element_descs: Vec<MemberDesc> = Vec::new();
                    match resolve_members(dict, &c.members, 0, fuel - 1, &mut element_descs, groups)
                    {
                        Ok(()) => {},
                        Err(e) => {
                            return Err(e);
                        },
                    }
                    let ghost eg0 = spec_resolve(
                        *dict,
                        c.members@,
                        0,
                        (fuel - 1) as nat,
                        structs_view(old(groups)@),
                    )->Ok_0;
                    assert(descs_view(element_descs@) =~= eg0.0);
                    let count = SimpleMember {
                        name: noe.name.clone(),
                        tag: f.number,
                        required: m.required,
                        type_: BasicType::NumInGroup,
                    };
                    let group_field = SimpleMember {
                        name: m.name.clone(),
                        tag: f.number,
                        required: m.required,
                        type_: BasicType::NumInGroup,
                    };
                    let element_tags = simple_tags(&element_descs);
                    let ghost out_before = out@;
                    out.push(MemberDesc::Simple(count.duplicate()));
                    let group_desc = MemberDesc::Group {
                        number_of_elements: count,
                        group: group_field,
                        element_tags,
                    };
                    let ghost head = seq![
                        DescModel::Simple(
                            SimpleMember {
                                name: noe.name,
                                tag: f.number,
                                required: m.required,
                                type_: BasicType::NumInGroup,
                            },
                        ),
                        group_desc@,
                    ];
                    out.push(group_desc);
                    assert(descs_view(out@) =~= descs_view(out_before) + head);
                    register_group(groups, &m.name, element_descs);
                    let r = resolve_members(dict, members, i + 1, fuel, out, groups);
                    proof {
                        match spec_resolve(
                            *dict,
                            members@,
                            i + 1,
                            fuel as nat,
                            spec_register_group(eg0.1, m.name@, eg0.0),
                        ) {
                            Ok(rg) => {
                                assert(descs_view(out@) =~= descs_view(out_before) + (head + rg.0));
                            },
                            Err(_) => {},
                        }
                    }
                    r
                },
                None => {
                    match resolve_members(dict, &c.members, 0, fuel - 1, out, groups) {
                        Ok(()) => {},
                        Err(e) => {
                            return Err(e);
                        },
                    }
                    let ghost eg0 = spec_resolve(
                        *dict,
                        c.members@,
                        0,
                        (fuel - 1) as nat,
                        structs_view(old(groups)@),
                    )->Ok_0;
                    let r = resolve_members(dict, members, i + 1, fuel, out, groups);
                    proof {
                        match spec_resolve(*dict, members@, i + 1, fuel as nat, eg0.1) {
                            Ok(rg) => {
                                assert(descs_view(out@) =~= descs_view(old(out)@) + (eg0.0 + rg.0));
                            },
                            Err(_) => {},
                        }
                    }
                    r
                },
            }
        },
        MemberKind::Field => {
            let f = match dict.field_by_name(&m.name) {
                Some(f) => f,
                None => {
                    return Err(CompileError::UnknownField);
                },
            };
            match f.type_ {
                BasicType::Length => {
                    if i + 1 == members.len() {
                        return Err(CompileError::TrailingLengthField);
                    }
                    let length_member = SimpleMember {
                        name: m.name.clone(),
                        tag: f.number,
                        required: m.required,
                        type_: BasicType::Length,
                    };
                    let next = &members[i + 1];
                    let paired: Option<SimpleMember> = match next.kind {
                        MemberKind::Field => {
                            let nf = match dict.field_by_name(&next.name) {
                                Some(nf) => nf,
                                None => {
                                    return Err(CompileError::UnknownField);
                                },
                            };
                            match nf.type_ {
                                BasicType::Data | BasicType::XmlData => Some(
                                    SimpleMember {
                                        name: next.name.clone(),
                                        tag: nf.number,
                                        required: next.required,
                                        type_: nf.type_,
                                    },
                                ),
                                _ => None,
                            }
                        },
                        MemberKind::Component => None,
                    };
                    match paired {
                        Some(data_member) => {
                            let desc = MemberDesc::LengthData {
                                length: length_member,
                                data: data_member,
                            };
                            let ghost head = seq![desc@];
                            out.push(desc);
                            let r = resolve_members(dict, members, i + 2, fuel, out, groups);
                            proof {
                                match spec_resolve(
                                    *dict,
                                    members@,
                                    i + 2,
                                    fuel as nat,
                                    structs_view(old(groups)@),
                                ) {
                                    Ok(rg) => {
                                        assert(descs_view(out@) =~= descs_view(old(out)@) + (head
                                            + rg.0));
                                    },
                                    Err(_) => {},
                                }
                            }
                            r
                        },
                        None => {
                            let desc = MemberDesc::Simple(length_member);
                            let ghost head = seq![desc@];
                            out.push(desc);
                            let r = resolve_members(dict, members, i + 1, fuel, out, groups);
                            proof {
                                match spec_resolve(
                                    *dict,
                                    members@,
                                    i + 1,
                                    fuel as nat,
                                    structs_view(old(groups)@),
                                ) {
                                    Ok(rg) => {
                                        assert(descs_view(out@) =~= descs_view(old(out)@) + (head
                                            + rg.0));
                                    },
                                    Err(_) => {},
                                }
                            }
                            r
                        },
                    }
                },
                BasicType::Boolean => {
                    let desc = MemberDesc::Simple(
                        SimpleMember {
                            name: m.name.clone(),
                            tag: f.number,
                            required: m.required,
                            type_: BasicType::Boolean,
                        },
                    );
                    let ghost head = seq![desc@];
                    out.push(desc);
                    let r = resolve_members(dict, members, i + 1, fuel, out, groups);
                    proof {
                        match spec_resolve(
                            *dict,
                            members@,
                            i + 1,
                            fuel as nat,
                            structs_view(old(groups)@),
                        ) {
                            Ok(rg) => {
                                assert(descs_view(out@) =~= descs_view(old(out)@) + (head + rg.0));
                            },
                            Err(_) => {},
                        }
                    }
                    r
                },
                _ => {
                    let scalar = SimpleMember {
                        name: m.name.clone(),
                        tag: f.number,
                        required: m.required,
                        type_: f.type_,
                    };
                    let desc = if f.values.is_some() {
                        MemberDesc::Enumeration(scalar)
                    } else {
                        MemberDesc::Simple(scalar)
                    };
                    let ghost head = seq![desc@];
                    out.push(desc);
                    let r = resolve_members(dict, members, i + 1, fuel, out, groups);
                    proof {
                        match spec_resolve(
                            *dict,
                            members@,
                            i + 1,
                            fuel as nat,
                            structs_view(old(groups)@),
                        ) {
                            Ok(rg) => {
                                assert(descs_view(out@) =~= descs_view(old(out)@) + (head + rg.0));
                            },
                            Err(_) => {},
                        }
                    }
                    r
                },
            }
        },
    }
}

} // verus!
