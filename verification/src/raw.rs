//! The raw record: a weakly typed tree of values, as a generator hands it
//! over. Every access has a defined result on every shape of input, so the
//! code that reads a record cannot fail on a missing or mistyped field.

use vstd::prelude::*;

verus! {

/// A weakly typed value.
#[derive(Debug, PartialEq, Eq)]
pub enum RawValue {
    /// The absent value.
    Null,
    /// A truth value.
    Bool(bool),
    /// A whole number that is not negative.
    Unsigned(u64),
    /// A whole number in the signed range.
    Signed(i64),
    /// A number with a fraction or an exponent, kept as it is written.
    Decimal(String),
    /// A string.
    Text(String),
    /// An ordered list of values.
    Array(Vec<RawValue>),
    /// Named members, in order. A name is looked up from the front, so of
    /// two members with one name the first is the one that is found.
    Object(Vec<(String, RawValue)>),
}

/// What a `RawValue` stands for. The two ways of holding a whole number are
/// one here.
pub enum RawModel {
    Null,
    Bool(bool),
    Int(int),
    Decimal(Seq<char>),
    Text(Seq<char>),
    Array(Seq<RawModel>),
    Object(Seq<RawMember>),
}

/// A named member of an object.
pub struct RawMember {
    pub name: Seq<char>,
    pub value: RawModel,
}

/// The position of the first member named `key` at or behind `from`, or -1.
pub open spec fn find_member(members: Seq<RawMember>, key: Seq<char>, from: int) -> int
    decreases members.len() - from,
{
    if from < 0 || from >= members.len() {
        -1
    } else if members[from].name == key {
        from
    } else {
        find_member(members, key, from + 1)
    }
}

/// The strings among `items`, in order; what is not a string is left out.
pub open spec fn texts_in(items: Seq<RawModel>) -> Seq<Seq<char>>
    decreases items.len(),
{
    if items.len() == 0 {
        Seq::empty()
    } else {
        let head = texts_in(items.drop_last());
        match items.last() {
            RawModel::Text(s) => head.push(s),
            _ => head,
        }
    }
}

impl RawModel {
    /// Whether the value is an object with a member named `key`.
    pub open spec fn has_field(self, key: Seq<char>) -> bool {
        match self {
            RawModel::Object(members) => find_member(members, key, 0) >= 0,
            _ => false,
        }
    }

    /// The member named `key`; `Null` where the value is no object or has
    /// no such member.
    pub open spec fn field(self, key: Seq<char>) -> RawModel {
        match self {
            RawModel::Object(members) => {
                let at = find_member(members, key, 0);
                if at >= 0 {
                    members[at].value
                } else {
                    RawModel::Null
                }
            },
            _ => RawModel::Null,
        }
    }

    /// The string that the value is, if it is one.
    pub open spec fn as_text(self) -> Option<Seq<char>> {
        match self {
            RawModel::Text(s) => Some(s),
            _ => None,
        }
    }

    /// The items of the value, if it is a list.
    pub open spec fn as_items(self) -> Option<Seq<RawModel>> {
        match self {
            RawModel::Array(items) => Some(items),
            _ => None,
        }
    }

    /// The truth value that the value is, if it is one.
    pub open spec fn as_bool(self) -> Option<bool> {
        match self {
            RawModel::Bool(b) => Some(b),
            _ => None,
        }
    }

    /// The value as a signed 64-bit number, if it is a whole number in that
    /// range.
    pub open spec fn as_i64(self) -> Option<i64> {
        match self {
            RawModel::Int(n) => if i64::MIN <= n <= i64::MAX {
                Some(n as i64)
            } else {
                None
            },
            _ => None,
        }
    }

    /// The value as an unsigned 64-bit number, if it is a whole number in
    /// that range.
    pub open spec fn as_u64(self) -> Option<u64> {
        match self {
            RawModel::Int(n) => if 0 <= n <= u64::MAX {
                Some(n as u64)
            } else {
                None
            },
            _ => None,
        }
    }

    /// The string that the value is, or `default`.
    pub open spec fn text_or(self, default: Seq<char>) -> Seq<char> {
        match self {
            RawModel::Text(s) => s,
            _ => default,
        }
    }

    /// The strings in the list that the value is; empty where it is no
    /// list.
    pub open spec fn string_list(self) -> Seq<Seq<char>> {
        match self {
            RawModel::Array(items) => texts_in(items),
            _ => Seq::empty(),
        }
    }

    /// Whether the value can stand for a record: an object, or nothing at
    /// all.
    pub open spec fn is_record(self) -> bool {
        self is Object || self is Null
    }
}

impl View for RawValue {
    type V = RawModel;

    open spec fn view(&self) -> RawModel
        decreases self,
    {
        match self {
            RawValue::Null => RawModel::Null,
            RawValue::Bool(b) => RawModel::Bool(*b),
            RawValue::Unsigned(n) => RawModel::Int(*n as int),
            RawValue::Signed(n) => RawModel::Int(*n as int),
            RawValue::Decimal(s) => RawModel::Decimal(s@),
            RawValue::Text(s) => RawModel::Text(s@),
            RawValue::Array(items) => RawModel::Array(
                Seq::new(
                    items.len() as nat,
                    |i: int|
                        if 0 <= i < items.len() {
                            items[i]@
                        } else {
                            RawModel::Null
                        },
                ),
            ),
            RawValue::Object(members) => RawModel::Object(
                Seq::new(
                    members.len() as nat,
                    |i: int|
                        if 0 <= i < members.len() {
                            RawMember { name: members[i].0@, value: members[i].1@ }
                        } else {
                            RawMember { name: Seq::empty(), value: RawModel::Null }
                        },
                ),
            ),
        }
    }
}

impl DeepView for RawValue {
    type V = RawModel;

    open spec fn deep_view(&self) -> RawModel {
        self@
    }
}

/// What an optional value stands for: nothing is `Null`.
pub open spec fn model_of(v: Option<&RawValue>) -> RawModel {
    match v {
        Some(value) => value@,
        None => RawModel::Null,
    }
}

/// The members of an object, each with its name and what its value stands
/// for.
pub open spec fn members_model(members: Seq<(String, RawValue)>) -> Seq<RawMember> {
    Seq::new(members.len(), |i: int| RawMember { name: members[i].0@, value: members[i].1@ })
}

impl Clone for RawValue {
    fn clone(&self) -> (copy: Self)
        ensures
            copy@ == self@,
    {
        self.duplicate()
    }
}

impl RawValue {
    /// A copy of the value and of everything in it.
    pub fn duplicate(&self) -> (copy: RawValue)
        ensures
            copy@ == self@,
        decreases self,
    {
        match self {
            RawValue::Null => RawValue::Null,
            RawValue::Bool(b) => RawValue::Bool(*b),
            RawValue::Unsigned(n) => RawValue::Unsigned(*n),
            RawValue::Signed(n) => RawValue::Signed(*n),
            RawValue::Decimal(s) => RawValue::Decimal(s.clone()),
            RawValue::Text(s) => RawValue::Text(s.clone()),
            RawValue::Array(items) => {
                let mut copies: Vec<RawValue> = Vec::new();
                let mut i: usize = 0;
                while i < items.len()
                    invariant
                        i <= items.len(),
                        copies.len() == i,
                        self is Array && self->Array_0 == *items,
                        forall|k: int| 0 <= k < i ==> (#[trigger] copies[k])@ == items[k]@,
                    decreases items.len() - i,
                {
                    copies.push(items[i].duplicate());
                    i += 1;
                }
                let copy = RawValue::Array(copies);
                assert(copy@->Array_0 =~= self@->Array_0);
                copy
            },
            RawValue::Object(members) => {
                let mut copies: Vec<(String, RawValue)> = Vec::new();
                let mut i: usize = 0;
                while i < members.len()
                    invariant
                        i <= members.len(),
                        copies.len() == i,
                        self is Object && self->Object_0 == *members,
                        forall|k: int|
                            0 <= k < i ==> (#[trigger] copies[k]).0@ == members[k].0@ && copies[k].1@
                                == members[k].1@,
                    decreases members.len() - i,
                {
                    copies.push((members[i].0.clone(), members[i].1.duplicate()));
                    i += 1;
                }
                let copy = RawValue::Object(copies);
                assert(copy@->Object_0 =~= self@->Object_0);
                copy
            },
        }
    }

    /// A string.
    pub fn text(s: &str) -> (value: RawValue)
        ensures
            value@ == RawModel::Text(s@),
    {
        RawValue::Text(s.to_owned())
    }

    /// A whole number that is not negative.
    pub fn unsigned(n: u64) -> (value: RawValue)
        ensures
            value@ == RawModel::Int(n as int),
    {
        RawValue::Unsigned(n)
    }

    /// A whole number.
    pub fn signed(n: i64) -> (value: RawValue)
        ensures
            value@ == RawModel::Int(n as int),
    {
        RawValue::Signed(n)
    }

    /// A list of values.
    pub fn array(items: Vec<RawValue>) -> (value: RawValue)
        ensures
            value@ == RawModel::Array(items.deep_view()),
    {
        let value = RawValue::Array(items);
        assert(value@->Array_0 =~= items.deep_view());
        value
    }

    /// An object with the given members, in their order.
    pub fn object(members: Vec<(String, RawValue)>) -> (value: RawValue)
        ensures
            value@ == RawModel::Object(members_model(members@)),
    {
        let value = RawValue::Object(members);
        assert(value@->Object_0 =~= members_model(members@));
        value
    }

    /// The member named `key`, where the value is an object and has one.
    pub fn get(&self, key: &str) -> (r: Option<&RawValue>)
        ensures
            r is Some <==> self@.has_field(key@),
            model_of(r) == self@.field(key@),
    {
        match self {
            RawValue::Object(members) => {
                let wanted = key.to_owned();
                let ghost model = self@->Object_0;
                let mut i: usize = 0;
                while i < members.len()
                    invariant
                        i <= members.len(),
                        wanted@ == key@,
                        self@ == RawModel::Object(model),
                        model.len() == members.len(),
                        forall|k: int|
                            0 <= k < members.len() ==> #[trigger] model[k] == (RawMember {
                                name: members[k].0@,
                                value: members[k].1@,
                            }),
                        find_member(model, key@, 0) == find_member(model, key@, i as int),
                    decreases members.len() - i,
                {
                    if members[i].0 == wanted {
                        return Some(&members[i].1);
                    }
                    i += 1;
                }
                None
            },
            _ => None,
        }
    }

    /// The string that the value is, if it is one.
    pub fn as_str(&self) -> (r: Option<&str>)
        ensures
            r.deep_view() == self@.as_text(),
    {
        match self {
            RawValue::Text(s) => Some(s.as_str()),
            _ => None,
        }
    }

    /// The items of the value, if it is a list.
    pub fn as_array(&self) -> (r: Option<&Vec<RawValue>>)
        ensures
            r.deep_view() == self@.as_items(),
    {
        match self {
            RawValue::Array(items) => {
                Some(items)
            },
            _ => None,
        }
    }

    /// The truth value that the value is, if it is one.
    pub fn as_bool(&self) -> (r: Option<bool>)
        ensures
            r == self@.as_bool(),
    {
        match self {
            RawValue::Bool(b) => Some(*b),
            _ => None,
        }
    }

    /// The value as a signed 64-bit number, if it is a whole number in that
    /// range.
    pub fn as_i64(&self) -> (r: Option<i64>)
        ensures
            r == self@.as_i64(),
    {
        match self {
            RawValue::Unsigned(n) => if *n <= i64::MAX as u64 {
                Some(*n as i64)
            } else {
                None
            },
            RawValue::Signed(n) => Some(*n),
            _ => None,
        }
    }

    /// The value as an unsigned 64-bit number, if it is a whole number in
    /// that range.
    pub fn as_u64(&self) -> (r: Option<u64>)
        ensures
            r == self@.as_u64(),
    {
        match self {
            RawValue::Unsigned(n) => Some(*n),
            RawValue::Signed(n) => if *n >= 0 {
                Some(*n as u64)
            } else {
                None
            },
            _ => None,
        }
    }

    /// Whether the value is an object.
    pub fn is_object(&self) -> (b: bool)
        ensures
            b == (self@ is Object),
    {
        matches!(self, RawValue::Object(_))
    }

    /// Whether the value is the absent value.
    pub fn is_null(&self) -> (b: bool)
        ensures
            b == (self@ is Null),
    {
        matches!(self, RawValue::Null)
    }
}

/// The member `key` of an optional value.
pub fn member<'a>(v: Option<&'a RawValue>, key: &str) -> (r: Option<&'a RawValue>)
    ensures
        model_of(r) == model_of(v).field(key@),
{
    match v {
        Some(value) => value.get(key),
        None => None,
    }
}

/// The string that an optional value is, if it is one.
pub fn text_of<'a>(v: Option<&'a RawValue>) -> (r: Option<&'a str>)
    ensures
        r.deep_view() == model_of(v).as_text(),
{
    match v {
        Some(value) => value.as_str(),
        None => None,
    }
}

/// The string that an optional value is, or `default`.
pub fn text_or(v: Option<&RawValue>, default: &str) -> (r: String)
    ensures
        r@ == model_of(v).text_or(default@),
{
    match text_of(v) {
        Some(s) => s.to_owned(),
        None => default.to_owned(),
    }
}

/// The string that an optional value is, as an owned string.
pub fn owned_text(v: Option<&RawValue>) -> (r: Option<String>)
    ensures
        r.deep_view() == model_of(v).as_text(),
{
    match text_of(v) {
        Some(s) => Some(s.to_owned()),
        None => None,
    }
}

/// The items of an optional value, if it is a list.
pub fn items_of<'a>(v: Option<&'a RawValue>) -> (r: Option<&'a Vec<RawValue>>)
    ensures
        r.deep_view() == model_of(v).as_items(),
{
    match v {
        Some(value) => value.as_array(),
        None => None,
    }
}

/// The strings in the list that an optional value is. What is not a string
/// is left out; a value that is no list gives the empty list.
pub fn string_list(v: Option<&RawValue>) -> (r: Vec<String>)
    ensures
        r.deep_view() == model_of(v).string_list(),
{
    let mut out: Vec<String> = Vec::new();
    match items_of(v) {
        Some(items) => {
            let ghost model = items.deep_view();
            let mut i: usize = 0;
            while i < items.len()
                invariant
                    i <= items.len(),
                    model == items.deep_view(),
                    out.deep_view() == texts_in(model.take(i as int)),
                decreases items.len() - i,
            {
                assert(model.take(i + 1).drop_last() =~= model.take(i as int));
                match items[i].as_str() {
                    Some(s) => {
                        out.push(s.to_owned());
                    },
                    None => {},
                }
                i += 1;
            }
            assert(model.take(i as int) =~= model);
        },
        None => {},
    }
    out
}

} // verus!
