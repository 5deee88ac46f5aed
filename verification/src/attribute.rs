//! Attributes of elements.

use crate::decimal::write_decimal;
use crate::escape::encode_double_quoted_attribute;
use crate::model::{render_attribute, Attr, AttrValue};
use crate::names::valid_name;
use std::borrow::Cow;
use vstd::prelude::*;

verus! {

/// The value of an [`Attribute`].
#[derive(Debug)]
enum AttributeValue {
    Text(Cow<'static, str>),
    Int(i32),
    Flag,
    Omitted,
}

/// An attribute: a name with a string, an integer or no value at all.
///
/// The name is written as it is, the value escaped. The module
/// [`crate::attr`] holds the common attributes.
#[derive(Debug)]
pub struct Attribute {
    name: Cow<'static, str>,
    value: AttributeValue,
}

impl View for Attribute {
    type V = Attr;

    closed spec fn view(&self) -> Attr {
        Attr {
            name: self.name@,
            value: match self.value {
                AttributeValue::Text(v) => AttrValue::Text(v@),
                AttributeValue::Int(n) => AttrValue::Int(n as int),
                AttributeValue::Flag => AttrValue::Flag,
                AttributeValue::Omitted => AttrValue::Omitted,
            },
        }
    }
}

/// The models of the attributes of a list.
pub open spec fn attribute_views(attributes: Seq<Attribute>) -> Seq<Attr> {
    Seq::new(attributes.len(), |i: int| attributes[i]@)
}

/// The string that a `Cow` holds.
pub(crate) fn cow_str<'a, 'b>(s: &'a Cow<'b, str>) -> (r: &'a str)
    ensures
        r@ == s@,
{
    match s {
        Cow::Borrowed(b) => b,
        Cow::Owned(o) => o.as_str(),
    }
}

/// A copy of a string that is borrowed for good or owned.
pub(crate) fn clone_cow(s: &Cow<'static, str>) -> (r: Cow<'static, str>)
    ensures
        r@ == s@,
{
    match s {
        Cow::Borrowed(b) => Cow::Borrowed(*b),
        Cow::Owned(o) => Cow::Owned(o.clone()),
    }
}

impl Clone for Attribute {
    fn clone(&self) -> (a: Attribute)
        ensures
            a@ == self@,
    {
        let value = match &self.value {
            AttributeValue::Text(v) => AttributeValue::Text(clone_cow(v)),
            AttributeValue::Int(n) => AttributeValue::Int(*n),
            AttributeValue::Flag => AttributeValue::Flag,
            AttributeValue::Omitted => AttributeValue::Omitted,
        };
        Attribute { name: clone_cow(&self.name), value }
    }
}

impl Attribute {
    /// An attribute with a string value.
    pub fn new(name: &'static str, value: Cow<'static, str>) -> (a: Attribute)
        requires
            valid_name(name@),
        ensures
            a@ == (Attr { name: name@, value: AttrValue::Text(value@) }),
    {
        Attribute { name: Cow::Borrowed(name), value: AttributeValue::Text(value) }
    }

    /// An attribute with an integer value.
    pub fn new_int(name: &'static str, value: i32) -> (a: Attribute)
        requires
            valid_name(name@),
        ensures
            a@ == (Attr { name: name@, value: AttrValue::Int(value as int) }),
    {
        Attribute { name: Cow::Borrowed(name), value: AttributeValue::Int(value) }
    }

    /// A flag: an attribute that takes no value.
    pub fn new_flag(name: &'static str) -> (a: Attribute)
        requires
            valid_name(name@),
        ensures
            a@ == (Attr { name: name@, value: AttrValue::Flag }),
            render_attribute(a@) == name@,
    {
        Attribute { name: Cow::Borrowed(name), value: AttributeValue::Flag }
    }

    /// An attribute whose name was made at run time and is not checked.
    ///
    /// The name goes into the output as it is: whoever calls this has to make
    /// sure that it cannot carry markup. The value is escaped as usual.
    pub fn new_unsafe_name(name: Cow<'static, str>, value: Cow<'static, str>) -> (a: Attribute)
        ensures
            a@ == (Attr { name: name@, value: AttrValue::Text(value@) }),
    {
        Attribute { name, value: AttributeValue::Text(value) }
    }

    /// The attribute that is left out of the output.
    pub(crate) fn omitted() -> (a: Attribute)
        ensures
            a@ == (Attr { name: Seq::empty(), value: AttrValue::Omitted }),
    {
        proof {
            reveal_strlit("");
        }
        let a = Attribute { name: Cow::Borrowed(""), value: AttributeValue::Omitted };
        assert(a@.name =~= Seq::empty());
        a
    }

    /// Whether the attribute is left out of the output.
    pub fn is_omitted(&self) -> (b: bool)
        ensures
            b == (self@.value is Omitted),
    {
        match &self.value {
            AttributeValue::Omitted => true,
            _ => false,
        }
    }

    /// Appends the attribute's text to `f`.
    pub fn fmt(&self, f: &mut String)
        ensures
            final(f)@ == old(f)@ + render_attribute(self@),
    {
        match &self.value {
            AttributeValue::Text(value) => {
                f.append(cow_str(&self.name));
                f.append("=\"");
                let escaped = encode_double_quoted_attribute(cow_str(value));
                f.append(cow_str(&escaped));
                f.append("\"");
                proof {
                    reveal_strlit("=\"");
                    reveal_strlit("\"");
                    assert("=\""@ =~= seq!['=', '"']);
                    assert("\""@ =~= seq!['"']);
                    assert(final(f)@ =~= old(f)@ + render_attribute(self@));
                }
            },
            AttributeValue::Int(n) => {
                f.append(cow_str(&self.name));
                f.append("=\"");
                write_decimal(*n, f);
                f.append("\"");
                proof {
                    reveal_strlit("=\"");
                    reveal_strlit("\"");
                    assert("=\""@ =~= seq!['=', '"']);
                    assert("\""@ =~= seq!['"']);
                    assert(final(f)@ =~= old(f)@ + render_attribute(self@));
                }
            },
            AttributeValue::Flag => {
                f.append(cow_str(&self.name));
            },
            AttributeValue::Omitted => {
                assert(f@ =~= old(f)@ + render_attribute(self@));
            },
        }
    }

    /// The attribute's text.
    pub fn to_string(&self) -> (s: String)
        ensures
            s@ == render_attribute(self@),
    {
        let mut s = String::new();
        self.fmt(&mut s);
        assert(s@ =~= render_attribute(self@));
        s
    }
}

} // verus!
