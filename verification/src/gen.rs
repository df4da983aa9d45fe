//! The schema compiler: one pass from a dictionary snapshot to the complete
//! schema artifact.

use vstd::prelude::*;

use crate::casing::{to_upper_camel, upper_camel_of};
use crate::catalog::{
    has_dup_number, has_dup_symbol, lemma_permutation_contains, sort_entries, spec_has_dup_number,
    spec_has_dup_symbol, CatalogEntry,
};
use crate::dictionary::{Dictionary, Message, ParseRejectReason, Version};
use crate::enumeration::{build_enums, enums_view, spec_build_enums, EnumDesc, EnumModel};
use crate::envelope::{begin_string, spec_begin_string};
use crate::error::CompileError;
use crate::member::{descs_view, MemberDesc};
use crate::reject::{
    build_reject_reason_map, spec_reject_reason_map, SessionRejectReason,
};
use crate::resolver::{resolve_members, spec_resolve};
use crate::structure::{structs_view, MessageProperties, Struct, StructModel};

verus! {

/// What resolving `msgs[i..]` yields: one message schema per message, in
/// table order, with the group catalog threaded through.
pub open spec fn spec_resolve_messages(
    dict: Dictionary,
    msgs: Seq<Message>,
    i: int,
    fuel: nat,
    groups: Seq<StructModel>,
) -> Result<(Seq<StructModel>, Seq<StructModel>), CompileError>
    decreases msgs.len() - i
    when 0 <= i <= msgs.len()
{
    if i >= msgs.len() {
        Ok((Seq::empty(), groups))
    } else {
        let msg = msgs[i];
        match spec_resolve(dict, msg.members@, 0, fuel, groups) {
            Err(e) => Err(e),
            Ok(dg) => {
                let schema = StructModel {
                    name: msg.name@,
                    members: dg.0,
                    msg_cat: Some(msg.msg_cat),
                    msg_type: Some(msg.msg_type@),
                    group: false,
                };
                match spec_resolve_messages(dict, msgs, i + 1, fuel, dg.1) {
                    Err(e) => Err(e),
                    Ok(rg) => Ok((seq![schema] + rg.0, rg.1)),
                }
            },
        }
    }
}

/// Mathematical shape of the compiled artifact, catalog aside.
pub struct GenModel {
    pub begin_string: Seq<u8>,
    pub structs: Seq<StructModel>,
    pub enums: Seq<EnumModel>,
    pub reject_reason_map: Seq<(ParseRejectReason, SessionRejectReason)>,
}

/// The whole compilation as one function of the dictionary: header, trailer,
/// every message, then the group schemas discovered along the way; the
/// enumerations; the begin-string; the reject-reason mapping. Errors come in
/// this order: missing version, missing header, missing trailer, resolution
/// errors (header, trailer, messages in table order), duplicate tag number,
/// colliding symbolic names, unknown reject-reason override.
pub open spec fn spec_compile(dict: Dictionary) -> Result<GenModel, CompileError> {
    if dict.fixt_version is None && dict.fix_version is None {
        Err(CompileError::MissingVersion)
    } else {
        let transport = dict.fixt_version is Some;
        let version = if transport {
            dict.fixt_version->Some_0
        } else {
            dict.fix_version->Some_0
        };
        match dict.header {
            None => Err(CompileError::MissingHeader),
            Some(header) => match dict.trailer {
                None => Err(CompileError::MissingTrailer),
                Some(trailer) => {
                    let fuel = dict.components@.len();
                    match spec_resolve(dict, header.members@, 0, fuel, Seq::empty()) {
                        Err(e) => Err(e),
                        Ok(hg) => match spec_resolve(dict, trailer.members@, 0, fuel, hg.1) {
                            Err(e) => Err(e),
                            Ok(tg) => match spec_resolve_messages(
                                dict,
                                dict.messages@,
                                0,
                                fuel,
                                tg.1,
                            ) {
                                Err(e) => Err(e),
                                Ok(mg) => if spec_has_dup_number(dict.fields@) {
                                    Err(CompileError::DuplicateFieldNumber)
                                } else if spec_has_dup_symbol(dict.fields@) {
                                    Err(CompileError::DuplicateSymbolicName)
                                } else {
                                    match spec_reject_reason_map(dict.reject_reason_overrides@) {
                                        Err(e) => Err(e),
                                        Ok(mp) => Ok(
                                            GenModel {
                                                begin_string: spec_begin_string(
                                                    transport,
                                                    version,
                                                ),
                                                structs: seq![
                                                    StructModel {
                                                        name: header.name@,
                                                        members: hg.0,
                                                        msg_cat: None,
                                                        msg_type: None,
                                                        group: false,
                                                    },
                                                    StructModel {
                                                        name: trailer.name@,
                                                        members: tg.0,
                                                        msg_cat: None,
                                                        msg_type: None,
                                                        group: false,
                                                    },
                                                ] + mg.0 + mg.1,
                                                enums: spec_build_enums(dict.fields@, 0),
                                                reject_reason_map: mp,
                                            },
                                        ),
                                    }
                                },
                            },
                        },
                    }
                },
            },
        }
    }
}

/// The compiled schema artifact: the ordered struct set (header, trailer,
/// messages, then one schema per distinct group component), the enumeration
/// definitions, the tag-ascending field catalog, the begin-string literal,
/// and the total reject-reason mapping.
#[derive(Debug)]
pub struct Generator {
    pub begin_string: Vec<u8>,
    pub structs: Vec<Struct>,
    pub enums: Vec<EnumDesc>,
    pub fields_names: Vec<String>,
    pub fields_numbers: Vec<u16>,
    pub reject_reason_map: Vec<(ParseRejectReason, SessionRejectReason)>,
}

fn resolve_messages_from(
    dict: &Dictionary,
    msgs: &Vec<Message>,
    i: usize,
    fuel: usize,
    structs: &mut Vec<Struct>,
    groups: &mut Vec<Struct>,
) -> (r: Result<(), CompileError>)
    requires
        i <= msgs@.len(),
    ensures
        match spec_resolve_messages(
            *dict,
            msgs@,
            i as int,
            fuel as nat,
            structs_view(old(groups)@),
        ) {
            Ok(sg) => r is Ok && structs_view(final(structs)@) == structs_view(old(structs)@)
                + sg.0 && structs_view(final(groups)@) == sg.1,
            Err(e) => r == Err::<(), CompileError>(e),
        },
    decreases msgs@.len() - i,
{
    if i == msgs.len() {
        assert(structs_view(structs@) =~= structs_view(structs@) + Seq::<StructModel>::empty());
        return Ok(());
    }
    let msg = &msgs[i];
    let mut members: Vec<MemberDesc> = Vec::new();
    assert(descs_view(members@) =~= Seq::<crate::member::DescModel>::empty());
    match resolve_members(dict, &msg.members, 0, fuel, &mut members, groups) {
        Ok(()) => {},
        Err(e) => {
            return Err(e);
        },
    }
    proof {
        match spec_resolve(*dict, msg.members@, 0, fuel as nat, structs_view(old(groups)@)) {
            Ok(dg) => {
                assert(descs_view(members@) =~= dg.0);
            },
            Err(_) => {},
        }
    }
    let schema = Struct {
        name: msg.name.clone(),
        members,
        msg_props: Some(MessageProperties { msg_cat: msg.msg_cat, msg_type: msg.msg_type.clone() }),
        group: false,
    };
    let ghost head = seq![schema@];
    structs.push(schema);
    let r = resolve_messages_from(dict, msgs, i + 1, fuel, structs, groups);
    proof {
        match spec_resolve_messages(*dict, msgs@, i as int, fuel as nat, structs_view(old(groups)@)) {
            Ok(sg) => {
                assert(structs_view(structs@) =~= structs_view(old(structs)@) + sg.0);
            },
            Err(_) => {},
        }
    }
    r
}

impl Generator {
    /// Compiles one dictionary snapshot into the schema artifact, or reports
    /// the configuration error that makes the dictionary inconsistent.
    ///
    /// Everything but the field catalog is pinned by `spec_compile`. The
    /// catalog is the tag-ascending table of all fields: strictly ascending
    /// tag numbers, each row the tag and case-normalized name of one
    /// dictionary field, every dictionary field represented.
    #[verifier::rlimit(100)]
    #[verifier::loop_isolation(false)]
    pub fn new(dict: &Dictionary) -> (r: Result<Generator, CompileError>)
        ensures
            match r {
                Ok(g) => {
                    &&& spec_compile(*dict) is Ok
                    &&& (spec_compile(*dict) matches Ok(m) ==> {
                        &&& g.begin_string@ == m.begin_string
                        &&& structs_view(g.structs@) == m.structs
                        &&& enums_view(g.enums@) == m.enums
                        &&& g.reject_reason_map@ == m.reject_reason_map
                    })
                    &&& g.fields_numbers@.len() == dict.fields@.len()
                    &&& g.fields_names@.len() == dict.fields@.len()
                    &&& (forall|j: int, k: int|
                        #![trigger g.fields_numbers@[j], g.fields_numbers@[k]]
                        0 <= j < k < g.fields_numbers@.len() ==> g.fields_numbers@[j]
                            < g.fields_numbers@[k])
                    &&& (forall|k: int|
                        #![trigger g.fields_numbers@[k]]
                        0 <= k < g.fields_numbers@.len() ==> exists|j: int|
                            0 <= j < dict.fields@.len() && g.fields_numbers@[k]
                                == #[trigger] dict.fields@[j].number && g.fields_names@[k]@
                                == upper_camel_of(dict.fields@[j].name@))
                    &&& (forall|j: int|
                        #![trigger dict.fields@[j]]
                        0 <= j < dict.fields@.len() ==> exists|k: int|
                            0 <= k < g.fields_numbers@.len() && #[trigger] g.fields_numbers@[k]
                                == dict.fields@[j].number)
                },
                Err(e) => spec_compile(*dict) == Err::<GenModel, CompileError>(e),
            },
    {
        let transport = dict.fixt_version.is_some();
        let version: Version = match &dict.fixt_version {
            Some(v) => *v,
            None => match &dict.fix_version {
                Some(v) => *v,
                None => {
                    return Err(CompileError::MissingVersion);
                },
            },
        };
        let begin = begin_string(transport, &version);
        let header = match &dict.header {
            Some(h) => h,
            None => {
                return Err(CompileError::MissingHeader);
            },
        };
        let trailer = match &dict.trailer {
            Some(t) => t,
            None => {
                return Err(CompileError::MissingTrailer);
            },
        };
        let fuel = dict.components.len();
        let mut groups: Vec<Struct> = Vec::new();
        let mut structs: Vec<Struct> = Vec::new();
        assert(structs_view(groups@) =~= Seq::<StructModel>::empty());

        let mut header_members: Vec<MemberDesc> = Vec::new();
        assert(descs_view(header_members@) =~= Seq::<crate::member::DescModel>::empty());
        match resolve_members(dict, &header.members, 0, fuel, &mut header_members, &mut groups) {
            Ok(()) => {},
            Err(e) => {
                return Err(e);
            },
        }
        let ghost hg = spec_resolve(*dict, header.members@, 0, fuel as nat, Seq::empty())->Ok_0;
        proof {
            assert(descs_view(header_members@) =~= hg.0);
        }
        structs.push(Struct { name: header.name.clone(), members: header_members, msg_props: None, group: false });

        let mut trailer_members: Vec<MemberDesc> = Vec::new();
        assert(descs_view(trailer_members@) =~= Seq::<crate::member::DescModel>::empty());
        match resolve_members(dict, &trailer.members, 0, fuel, &mut trailer_members, &mut groups) {
            Ok(()) => {},
            Err(e) => {
                return Err(e);
            },
        }
        let ghost tg = spec_resolve(*dict, trailer.members@, 0, fuel as nat, hg.1)->Ok_0;
        proof {
            assert(descs_view(trailer_members@) =~= tg.0);
        }
        structs.push(Struct { name: trailer.name.clone(), members: trailer_members, msg_props: None, group: false });

        let ghost base = structs_view(structs@);
        match resolve_messages_from(dict, &dict.messages, 0, fuel, &mut structs, &mut groups) {
            Ok(()) => {},
            Err(e) => {
                return Err(e);
            },
        }
        let ghost mg = spec_resolve_messages(*dict, dict.messages@, 0, fuel as nat, tg.1)->Ok_0;
        proof {
            assert(base =~= seq![
                StructModel {
                    name: header.name@,
                    members: hg.0,
                    msg_cat: None,
                    msg_type: None,
                    group: false,
                },
                StructModel {
                    name: trailer.name@,
                    members: tg.0,
                    msg_cat: None,
                    msg_type: None,
                    group: false,
                },
            ]);
        }
        structs.append(&mut groups);
        proof {
            assert(structs_view(structs@) =~= (base + mg.0) + mg.1);
            assert((base + mg.0) + mg.1 =~= base + mg.0 + mg.1);
        }

        let enums = build_enums(&dict.fields);

        if has_dup_number(&dict.fields) {
            return Err(CompileError::DuplicateFieldNumber);
        }
        let mut symbols: Vec<String> = Vec::new();
        let mut i: usize = 0;
        while i < dict.fields.len()
            invariant
                i <= dict.fields@.len(),
                symbols@.len() == i,
                forall|k: int|
                    0 <= k < i ==> #[trigger] symbols@[k]@ == upper_camel_of(
                        dict.fields@[k].name@,
                    ),
            decreases dict.fields@.len() - i,
        {
            symbols.push(to_upper_camel(&dict.fields[i].name));
            i += 1;
        }
        if has_dup_symbol(&dict.fields, &symbols) {
            return Err(CompileError::DuplicateSymbolicName);
        }

        let mut entries: Vec<CatalogEntry> = Vec::new();
        i = 0;
        while i < dict.fields.len()
            invariant
                i <= dict.fields@.len(),
                symbols@.len() == dict.fields@.len(),
                forall|k: int|
                    0 <= k < dict.fields@.len() ==> #[trigger] symbols@[k]@ == upper_camel_of(
                        dict.fields@[k].name@,
                    ),
                entries@.len() == i,
                forall|k: int|
                    0 <= k < i ==> #[trigger] entries@[k].number == dict.fields@[k].number
                        && entries@[k].name@ == upper_camel_of(dict.fields@[k].name@),
            decreases dict.fields@.len() - i,
        {
            entries.push(CatalogEntry { number: dict.fields[i].number, name: symbols[i].clone() });
            proof {
                assert(entries@[i as int].number == dict.fields@[i as int].number);
                assert(entries@[i as int].name@ == symbols@[i as int]@);
            }
            i += 1;
        }
        proof {
            assert forall|j: int, k: int|
                #![trigger entries@[j].number, entries@[k].number]
                0 <= j < k < entries@.len() implies entries@[j].number != entries@[k].number by {
                assert(dict.fields@[j].number != dict.fields@[k].number);
            }
        }
        let ghost entries_snapshot = entries@;
        let sorted = sort_entries(entries);

        let mut fields_numbers: Vec<u16> = Vec::new();
        let mut fields_names: Vec<String> = Vec::new();
        i = 0;
        while i < sorted.len()
            invariant
                i <= sorted@.len(),
                fields_numbers@.len() == i,
                fields_names@.len() == i,
                forall|k: int|
                    0 <= k < i ==> #[trigger] fields_numbers@[k] == sorted@[k].number
                        && fields_names@[k] == sorted@[k].name,
            decreases sorted@.len() - i,
        {
            fields_numbers.push(sorted[i].number);
            fields_names.push(sorted[i].name.clone());
            i += 1;
        }
        proof {
            assert forall|k: int| #![trigger fields_numbers@[k]] 0 <= k < fields_numbers@.len()
                implies exists|j: int|
                0 <= j < dict.fields@.len() && fields_numbers@[k] == #[trigger] dict.fields@[j].number
                    && fields_names@[k]@ == upper_camel_of(dict.fields@[j].name@) by {
                lemma_permutation_contains(sorted@, entries_snapshot, k);
                let j = choose|j: int|
                    0 <= j < entries_snapshot.len() && #[trigger] entries_snapshot[j] == sorted@[k];
                assert(entries_snapshot[j].number == dict.fields@[j].number);
                assert(fields_numbers@[k] == dict.fields@[j].number);
                assert(fields_names@[k]@ == upper_camel_of(dict.fields@[j].name@));
            }
            assert forall|j: int| #![trigger dict.fields@[j]] 0 <= j < dict.fields@.len()
                implies exists|k: int|
                0 <= k < fields_numbers@.len() && #[trigger] fields_numbers@[k]
                    == dict.fields@[j].number by {
                lemma_permutation_contains(entries_snapshot, sorted@, j);
                let k = choose|k: int|
                    0 <= k < sorted@.len() && #[trigger] sorted@[k] == entries_snapshot[j];
                assert(fields_numbers@[k] == dict.fields@[j].number);
            }
        }

        let reject_reason_map = match build_reject_reason_map(&dict.reject_reason_overrides) {
            Ok(m) => m,
            Err(e) => {
                return Err(e);
            },
        };

        proof {
            let m = spec_compile(*dict)->Ok_0;
            assert(spec_compile(*dict) is Ok);
            assert(begin@ == m.begin_string);
            assert(structs_view(structs@) == m.structs);
            assert(enums_view(enums@) == m.enums);
            assert(reject_reason_map@ == m.reject_reason_map);
        }
        Ok(
            Generator {
                begin_string: begin,
                structs,
                enums,
                fields_names,
                fields_numbers,
                reject_reason_map,
            },
        )
    }
}

/// Whether a schema is the element schema of a repeating group.
pub open spec fn is_group_schema() -> spec_fn(Struct) -> bool {
    |s: Struct| s.group
}

impl Generator {
    /// The group schemas of the artifact, in emission order: what stands
    /// after the header, trailer and message schemas.
    pub fn group_schemas(&self) -> (r: Vec<&Struct>)
        ensures
            r@.map_values(|s: &Struct| *s) == self.structs@.filter(is_group_schema()),
    {
        let mut out: Vec<&Struct> = Vec::new();
        let mut i: usize = 0;
        proof {
            reveal(Seq::filter);
            assert(out@.map_values(|s: &Struct| *s) =~= self.structs@.take(0).filter(
                is_group_schema(),
            ));
        }
        while i < self.structs.len()
            invariant
                i <= self.structs@.len(),
                out@.map_values(|s: &Struct| *s) == self.structs@.take(i as int).filter(
                    is_group_schema(),
                ),
            decreases self.structs@.len() - i,
        {
            if self.structs[i].group {
                out.push(&self.structs[i]);
            }
            proof {
                reveal(Seq::filter);
                assert(self.structs@.take(i + 1).drop_last() =~= self.structs@.take(i as int));
                assert(self.structs@.take(i + 1).last() == self.structs@[i as int]);
                assert(out@.map_values(|s: &Struct| *s) =~= self.structs@.take(i + 1).filter(
                    is_group_schema(),
                ));
            }
            i += 1;
        }
        proof {
            assert(self.structs@.take(self.structs@.len() as int) =~= self.structs@);
        }
        out
    }
}

} // verus!
