//! Ordered schemas: one `Struct` per header, trailer, message and distinct
//! repeating-group element type.

use vstd::prelude::*;

use crate::dictionary::MsgCat;
use crate::member::{descs_view, DescModel, MemberDesc};

verus! {

/// Category and wire type code of a message schema. Every message shares the
/// one header and the one trailer schema of its artifact.
#[derive(Debug, PartialEq, Eq)]
pub struct MessageProperties {
    pub msg_cat: MsgCat,
    pub msg_type: String,
}

/// An ordered member-descriptor list under a name. `group` marks the element
/// schema of a repeating group; `msg_props` is present exactly on message
/// schemas.
#[derive(Debug, PartialEq, Eq)]
pub struct Struct {
    pub name: String,
    pub members: Vec<MemberDesc>,
    pub msg_props: Option<MessageProperties>,
    pub group: bool,
}

/// Mathematical shape of a `Struct`.
pub struct StructModel {
    pub name: Seq<char>,
    pub members: Seq<DescModel>,
    pub msg_cat: Option<MsgCat>,
    pub msg_type: Option<Seq<char>>,
    pub group: bool,
}

impl View for Struct {
    type V = StructModel;

    open spec fn view(&self) -> StructModel {
        StructModel {
            name: self.name@,
            members: descs_view(self.members@),
            msg_cat: match self.msg_props {
                Some(p) => Some(p.msg_cat),
                None => None,
            },
            msg_type: match self.msg_props {
                Some(p) => Some(p.msg_type@),
                None => None,
            },
            group: self.group,
        }
    }
}

/// The struct sequence as its mathematical shape, element by element.
pub open spec fn structs_view(s: Seq<Struct>) -> Seq<StructModel> {
    s.map(|i: int, st: Struct| st@)
}

} // verus!
