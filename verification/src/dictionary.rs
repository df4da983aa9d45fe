//! The in-memory dictionary model consumed by the compiler: fields,
//! components, messages, header, trailer and the protocol version, exactly as
//! an already-parsed protocol definition hands them over.

use vstd::prelude::*;

verus! {

/// Primitive wire type of a scalar field.
#[derive(Clone, Copy, Debug, PartialEq, Eq, Structural)]
pub enum BasicType {
    Amt,
    Boolean,
    Char,
    Country,
    Currency,
    Data,
    Exchange,
    Float,
    Int,
    Language,
    Length,
    LocalMktDate,
    MonthYear,
    MultipleCharValue,
    MultipleStringValue,
    NumInGroup,
    Percentage,
    Price,
    PriceOffset,
    Qty,
    SeqNum,
    String,
    TzTimeOnly,
    TzTimestamp,
    UtcDateOnly,
    UtcTimeOnly,
    UtcTimestamp,
    XmlData,
}

/// Whether a member reference names a scalar field or a component.
#[derive(Clone, Copy, Debug, PartialEq, Eq, Structural)]
pub enum MemberKind {
    Component,
    Field,
}

/// One raw member reference inside a component, message, header or trailer,
/// in declaration order.
#[derive(Debug, PartialEq, Eq)]
pub struct Member {
    pub name: String,
    pub required: bool,
    pub kind: MemberKind,
}

/// One entry of a field's closed value set: the wire value and its symbolic
/// description.
#[derive(Debug, PartialEq, Eq)]
pub struct Value {
    pub value: String,
    pub description: String,
}

/// A scalar field definition: unique tag number, canonical name, primitive
/// type, and an optional closed value set.
#[derive(Debug, PartialEq, Eq)]
pub struct Field {
    pub name: String,
    pub number: u16,
    pub type_: BasicType,
    pub values: Option<Vec<Value>>,
}

/// A named, reusable block of member references. A component that declares a
/// `number_of_elements` field is a repeating-group template; otherwise it is
/// spliced inline wherever it is referenced.
#[derive(Debug)]
pub struct Component {
    pub name: String,
    pub number_of_elements: Option<Member>,
    pub members: Vec<Member>,
}

/// Administrative (session-level) or application message.
#[derive(Clone, Copy, Debug, PartialEq, Eq, Structural)]
pub enum MsgCat {
    Admin,
    App,
}

/// A message definition: ordered member list, category and wire type code.
#[derive(Debug)]
pub struct Message {
    pub name: String,
    pub msg_cat: MsgCat,
    pub msg_type: String,
    pub members: Vec<Member>,
}

/// Protocol version descriptor; a service pack of zero means no suffix on the
/// begin-string.
#[derive(Clone, Copy, Debug, PartialEq, Eq, Structural)]
pub struct Version {
    pub major: u32,
    pub minor: u32,
    pub service_pack: u32,
}

/// Reject reason distinguished at parse time by the low-level decoder.
#[derive(Clone, Copy, Debug, PartialEq, Eq, Structural)]
pub enum ParseRejectReason {
    ValueIsIncorrect,
    TagSpecifiedWithoutAValue,
    IncorrectDataFormatForValue,
    TagAppearsMoreThanOnce,
    TagSpecifiedOutOfRequiredOrder,
    RequiredTagMissing,
    IncorrectNumingroupCountForRepeatingGroup,
    TagNotDefinedForThisMessageType,
    UndefinedTag,
    RepeatingGroupFieldsOutOfOrder,
    InvalidTagNumber,
    InvalidMsgtype,
    SendingtimeAccuracyProblem,
    CompidProblem,
}

/// One immutable dictionary snapshot: the input of a compilation run.
///
/// `fixt_version` marks a transport dictionary, `fix_version` an application
/// dictionary; at least one must be present. Reject-reason overrides map a
/// parse-reason to the symbolic name of the session-reason it should yield.
#[derive(Debug)]
pub struct Dictionary {
    pub fix_version: Option<Version>,
    pub fixt_version: Option<Version>,
    pub header: Option<Component>,
    pub trailer: Option<Component>,
    pub messages: Vec<Message>,
    pub components: Vec<Component>,
    pub fields: Vec<Field>,
    pub reject_reason_overrides: Vec<(ParseRejectReason, String)>,
}

/// First component at or after position `i` whose name is `name`.
pub open spec fn spec_find_component(s: Seq<Component>, name: Seq<char>, i: int) -> Option<Component>
    decreases s.len() - i
    when 0 <= i <= s.len()
{
    if i >= s.len() {
        None
    } else if s[i].name@ == name {
        Some(s[i])
    } else {
        spec_find_component(s, name, i + 1)
    }
}

/// First field at or after position `i` whose name is `name`.
pub open spec fn spec_find_field(s: Seq<Field>, name: Seq<char>, i: int) -> Option<Field>
    decreases s.len() - i
    when 0 <= i <= s.len()
{
    if i >= s.len() {
        None
    } else if s[i].name@ == name {
        Some(s[i])
    } else {
        spec_find_field(s, name, i + 1)
    }
}

impl Dictionary {
    /// The component registered under `name`, if any.
    pub open spec fn spec_component(&self, name: Seq<char>) -> Option<Component> {
        spec_find_component(self.components@, name, 0)
    }

    /// The field registered under `name`, if any.
    pub open spec fn spec_field(&self, name: Seq<char>) -> Option<Field> {
        spec_find_field(self.fields@, name, 0)
    }

    /// Looks a component up by name.
    pub fn component(&self, name: &String) -> (r: Option<&Component>)
        ensures
            match r {
                Some(c) => self.spec_component(name@) == Some(*c),
                None => self.spec_component(name@) is None,
            },
    {
        find_component(&self.components, name, 0)
    }

    /// Looks a field up by name.
    pub fn field_by_name(&self, name: &String) -> (r: Option<&Field>)
        ensures
            match r {
                Some(f) => self.spec_field(name@) == Some(*f),
                None => self.spec_field(name@) is None,
            },
    {
        find_field(&self.fields, name, 0)
    }
}

fn find_component<'a>(s: &'a Vec<Component>, name: &String, i: usize) -> (r: Option<&'a Component>)
    requires
        i <= s@.len(),
    ensures
        match r {
            Some(c) => spec_find_component(s@, name@, i as int) == Some(*c),
            None => spec_find_component(s@, name@, i as int) is None,
        },
    decreases s@.len() - i,
{
    if i == s.len() {
        None
    } else if s[i].name == *name {
        Some(&s[i])
    } else {
        find_component(s, name, i + 1)
    }
}

fn find_field<'a>(s: &'a Vec<Field>, name: &String, i: usize) -> (r: Option<&'a Field>)
    requires
        i <= s@.len(),
    ensures
        match r {
            Some(f) => spec_find_field(s@, name@, i as int) == Some(*f),
            None => spec_find_field(s@, name@, i as int) is None,
        },
    decreases s@.len() - i,
{
    if i == s.len() {
        None
    } else if s[i].name == *name {
        Some(&s[i])
    } else {
        find_field(s, name, i + 1)
    }
}

} // verus!
