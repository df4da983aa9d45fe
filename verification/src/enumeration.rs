//! Enumeration definitions: one per field that carries a closed value set and
//! is not boolean-typed.

use vstd::prelude::*;

use crate::casing::upper_camel_of;
use crate::dictionary::{BasicType, Field, Value};

verus! {

/// One named enumeration: symbolic name, underlying primitive type, and the
/// closed value set, in declaration order.
#[derive(Debug, PartialEq, Eq)]
pub struct EnumDesc {
    pub name: String,
    pub type_: BasicType,
    pub values: Vec<Value>,
}

/// Mathematical shape of an `EnumDesc`.
pub struct EnumModel {
    pub name: Seq<char>,
    pub type_: BasicType,
    pub values: Seq<Value>,
}

impl View for EnumDesc {
    type V = EnumModel;

    open spec fn view(&self) -> EnumModel {
        EnumModel { name: self.name@, type_: self.type_, values: self.values@ }
    }
}

/// The enumeration sequence as its mathematical shape, element by element.
pub open spec fn enums_view(s: Seq<EnumDesc>) -> Seq<EnumModel> {
    s.map(|i: int, e: EnumDesc| e@)
}

/// The enumerations derived from `fields[i..]`: one per non-boolean field
/// with a closed value set, named by case-normalizing the field's name.
/// Boolean fields never yield an enumeration, named values or not.
pub open spec fn spec_build_enums(fields: Seq<Field>, i: int) -> Seq<EnumModel>
    decreases fields.len() - i
    when 0 <= i <= fields.len()
{
    if i >= fields.len() {
        Seq::empty()
    } else {
        let rest = spec_build_enums(fields, i + 1);
        let f = fields[i];
        match f.type_ {
            BasicType::Boolean => rest,
            _ => match f.values {
                Some(vs) => seq![
                    EnumModel { name: upper_camel_of(f.name@), type_: f.type_, values: vs@ },
                ] + rest,
                None => rest,
            },
        }
    }
}

fn clone_values(vs: &Vec<Value>) -> (r: Vec<Value>)
    ensures
        r@ == vs@,
{
    let mut out: Vec<Value> = Vec::new();
    let mut i: usize = 0;
    while i < vs.len()
        invariant
            i <= vs@.len(),
            out@ =~= vs@.subrange(0, i as int),
        decreases vs@.len() - i,
    {
        out.push(Value { value: vs[i].value.clone(), description: vs[i].description.clone() });
        assert(out@ =~= vs@.subrange(0, i + 1));
        i += 1;
    }
    assert(out@ =~= vs@);
    out
}

/// Builds the enumeration definitions for the whole field table, in
/// declaration order.
pub fn build_enums(fields: &Vec<Field>) -> (r: Vec<EnumDesc>)
    ensures
        enums_view(r@) == spec_build_enums(fields@, 0),
{
    let mut out: Vec<EnumDesc> = Vec::new();
    collect_enums(fields, 0, &mut out);
    out
}

fn collect_enums(fields: &Vec<Field>, i: usize, out: &mut Vec<EnumDesc>)
    requires
        i <= fields@.len(),
    ensures
        enums_view(final(out)@) == enums_view(old(out)@) + spec_build_enums(fields@, i as int),
    decreases fields@.len() - i,
{
    if i == fields.len() {
        assert(enums_view(out@) =~= enums_view(out@) + Seq::<EnumModel>::empty());
        return;
    }
    let f = &fields[i];
    let skip = match f.type_ {
        BasicType::Boolean => true,
        _ => f.values.is_none(),
    };
    if skip {
        collect_enums(fields, i + 1, out);
    } else {
        let vs = match &f.values {
            Some(vs) => clone_values(vs),
            None => {
                // unreachable: `skip` is false only when a value set is present
                Vec::new()
            },
        };
        let name = crate::casing::to_upper_camel(&f.name);
        let desc = EnumDesc { name, type_: f.type_, values: vs };
        let ghost head = seq![desc@];
        out.push(desc);
        collect_enums(fields, i + 1, out);
        assert(enums_view(out@) =~= enums_view(old(out)@) + (head + spec_build_enums(
            fields@,
            i + 1,
        )));
    }
}

} // verus!
