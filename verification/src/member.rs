//! Resolved member descriptors: the output shapes of the member resolver.

use vstd::prelude::*;

use crate::dictionary::BasicType;

verus! {

/// One resolved scalar member: canonical name, wire tag, requiredness and
/// primitive type.
#[derive(Debug, PartialEq, Eq)]
pub struct SimpleMember {
    pub name: String,
    pub tag: u16,
    pub required: bool,
    pub type_: BasicType,
}

impl SimpleMember {
    /// A fieldwise copy; spelled out so that the copy is known to equal the
    /// original.
    pub fn duplicate(&self) -> (r: SimpleMember)
        ensures
            r == *self,
    {
        SimpleMember {
            name: self.name.clone(),
            tag: self.tag,
            required: self.required,
            type_: self.type_,
        }
    }
}

/// A resolved member descriptor.
///
/// `LengthData` pairs a Length-typed field with the Data/XmlData field that
/// immediately follows it; the pair is always encoded and decoded together.
/// `Group` describes a repeating group: the count field, the group's own
/// field, and the tags of the scalar members directly inside one group
/// element.
#[derive(Debug, PartialEq, Eq)]
pub enum MemberDesc {
    Simple(SimpleMember),
    Enumeration(SimpleMember),
    LengthData { length: SimpleMember, data: SimpleMember },
    Group { number_of_elements: SimpleMember, group: SimpleMember, element_tags: Vec<u16> },
}

/// Mathematical shape of a `MemberDesc`: the element tags as a sequence.
pub enum DescModel {
    Simple(SimpleMember),
    Enumeration(SimpleMember),
    LengthData { length: SimpleMember, data: SimpleMember },
    Group { number_of_elements: SimpleMember, group: SimpleMember, element_tags: Seq<u16> },
}

impl View for MemberDesc {
    type V = DescModel;

    open spec fn view(&self) -> DescModel {
        match self {
            MemberDesc::Simple(s) => DescModel::Simple(*s),
            MemberDesc::Enumeration(s) => DescModel::Enumeration(*s),
            MemberDesc::LengthData { length, data } => DescModel::LengthData {
                length: *length,
                data: *data,
            },
            MemberDesc::Group { number_of_elements, group, element_tags } => DescModel::Group {
                number_of_elements: *number_of_elements,
                group: *group,
                element_tags: element_tags@,
            },
        }
    }
}

/// The descriptor sequence as its mathematical shape, element by element.
pub open spec fn descs_view(s: Seq<MemberDesc>) -> Seq<DescModel> {
    s.map(|i: int, d: MemberDesc| d@)
}

/// Tags of the `Simple` descriptors of `s`, in order, from position `i` on.
pub open spec fn spec_simple_tags(s: Seq<DescModel>, i: int) -> Seq<u16>
    decreases s.len() - i
    when 0 <= i <= s.len()
{
    if i >= s.len() {
        Seq::empty()
    } else {
        let rest = spec_simple_tags(s, i + 1);
        match s[i] {
            DescModel::Simple(m) => seq![m.tag] + rest,
            _ => rest,
        }
    }
}

/// Collects the tags of the `Simple` descriptors of `descs`, in order.
pub fn simple_tags(descs: &Vec<MemberDesc>) -> (r: Vec<u16>)
    ensures
        r@ == spec_simple_tags(descs_view(descs@), 0),
{
    let mut out: Vec<u16> = Vec::new();
    collect_simple_tags(descs, 0, &mut out);
    out
}

fn collect_simple_tags(descs: &Vec<MemberDesc>, i: usize, out: &mut Vec<u16>)
    requires
        i <= descs@.len(),
    ensures
        final(out)@ == old(out)@ + spec_simple_tags(descs_view(descs@), i as int),
    decreases descs@.len() - i,
{
    if i == descs.len() {
        assert(out@ =~= out@ + spec_simple_tags(descs_view(descs@), i as int));
        return;
    }
    match &descs[i] {
        MemberDesc::Simple(m) => {
            let tag = m.tag;
            out.push(tag);
            collect_simple_tags(descs, i + 1, out);
            assert(out@ =~= old(out)@ + spec_simple_tags(descs_view(descs@), i as int));
        },
        _ => {
            collect_simple_tags(descs, i + 1, out);
        },
    }
}

} // verus!
