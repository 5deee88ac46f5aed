//! Common attributes.
//!
//! Every function here binds a name to one of the constructors of
//! [`Attribute`]; an attribute that is not listed is made with
//! [`Attribute::new`], [`Attribute::new_int`] or [`Attribute::new_flag`].

use crate::attribute::{clone_cow, Attribute};
use crate::model::Attr;
use std::borrow::Cow;
use vstd::prelude::*;

verus! {

/// No attribute at all: nothing is written for it. For an attribute that is
/// there on a condition only.
pub fn none() -> (a: Attribute)
    ensures
        a@ == Attr::omitted(),
{
    Attribute::omitted()
}

/// The `id` attribute.
pub fn id(value: Cow<'static, str>) -> (a: Attribute)
    ensures
        a@ == Attr::text("id"@, value@),
{
    proof {
        reveal_strlit("id");
    }
    Attribute::new("id", value)
}

/// The classes of a list with a space between each two of them.
pub open spec fn joined_classes(classes: Seq<&str>) -> Seq<char>
    decreases classes.len(),
{
    if classes.len() == 0 {
        Seq::empty()
    } else if classes.len() == 1 {
        classes[0]@
    } else {
        joined_classes(classes.drop_last()) + seq![' '] + classes.last()@
    }
}

/// The `class` attribute, from a list of classes.
///
/// `class(vec!["foo", "bar"])` is written `class="foo bar"`.
pub fn class(classes: Vec<&str>) -> (a: Attribute)
    ensures
        a@ == Attr::text("class"@, joined_classes(classes@)),
{
    let mut values = String::new();
    let mut i: usize = 0;
    assert(classes@.take(0) =~= Seq::<&str>::empty());
    while i < classes.len()
        invariant
            i <= classes.len(),
            values@ == joined_classes(classes@.take(i as int)),
        decreases classes.len() - i,
    {
        let ghost before = values@;
        if i > 0 {
            values.append(" ");
        }
        values.append(classes[i]);
        proof {
            reveal_strlit(" ");
            let taken = classes@.take(i + 1);
            assert(taken.drop_last() =~= classes@.take(i as int));
            assert(taken.last() == classes@[i as int]);
            if i == 0 {
                assert(values@ =~= classes@[0]@);
            } else {
                assert(values@ =~= before + seq![' '] + classes@[i as int]@);
            }
        }
        i = i + 1;
    }
    proof {
        assert(classes@.take(i as int) =~= classes@);
        reveal_strlit("class");
    }
    Attribute::new("class", Cow::Owned(values))
}

/// The `lang` attribute (usually on the `html` element).
pub fn lang(value: Cow<'static, str>) -> (a: Attribute)
    ensures
        a@ == Attr::text("lang"@, value@),
{
    proof {
        reveal_strlit("lang");
    }
    Attribute::new("lang", value)
}

/// Where a link is opened.
#[derive(Debug)]
pub enum AnchorTarget {
    /// `_blank`
    Blank,
    /// `_self`
    Self_,
    /// `_parent`
    Parent,
    /// `_top`
    Top,
    /// The name of a frame.
    Frame(Cow<'static, str>),
}

impl AnchorTarget {
    /// The value of the `target` attribute.
    pub open spec fn value(self) -> Seq<char> {
        match self {
            AnchorTarget::Blank => "_blank"@,
            AnchorTarget::Self_ => "_self"@,
            AnchorTarget::Parent => "_parent"@,
            AnchorTarget::Top => "_top"@,
            AnchorTarget::Frame(name) => name@,
        }
    }
}

impl Clone for AnchorTarget {
    fn clone(&self) -> (t: AnchorTarget)
        ensures
            t.value() == self.value(),
    {
        match self {
            AnchorTarget::Blank => AnchorTarget::Blank,
            AnchorTarget::Self_ => AnchorTarget::Self_,
            AnchorTarget::Parent => AnchorTarget::Parent,
            AnchorTarget::Top => AnchorTarget::Top,
            AnchorTarget::Frame(name) => AnchorTarget::Frame(clone_cow(name)),
        }
    }
}

/// The `target` attribute of `<a>`.
pub fn target(anchor: AnchorTarget) -> (a: Attribute)
    ensures
        a@ == Attr::text("target"@, anchor.value()),
{
    proof {
        reveal_strlit("target");
    }
    let value: Cow<'static, str> = match anchor {
        AnchorTarget::Blank => Cow::Borrowed("_blank"),
        AnchorTarget::Self_ => Cow::Borrowed("_self"),
        AnchorTarget::Parent => Cow::Borrowed("_parent"),
        AnchorTarget::Top => Cow::Borrowed("_top"),
        AnchorTarget::Frame(name) => name,
    };
    Attribute::new("target", value)
}

/// `target="_blank"`
pub fn target_blank() -> (a: Attribute)
    ensures
        a@ == Attr::text("target"@, "_blank"@),
{
    target(AnchorTarget::Blank)
}

/// The `href` attribute.
pub fn href(value: Cow<'static, str>) -> (a: Attribute)
    ensures
        a@ == Attr::text("href"@, value@),
{
    proof {
        reveal_strlit("href");
    }
    Attribute::new("href", value)
}

/// The `rel` attribute.
pub fn rel(value: Cow<'static, str>) -> (a: Attribute)
    ensures
        a@ == Attr::text("rel"@, value@),
{
    proof {
        reveal_strlit("rel");
    }
    Attribute::new("rel", value)
}

/// The `src` attribute.
pub fn src(value: Cow<'static, str>) -> (a: Attribute)
    ensures
        a@ == Attr::text("src"@, value@),
{
    proof {
        reveal_strlit("src");
    }
    Attribute::new("src", value)
}

/// The `alt` attribute.
pub fn alt(value: Cow<'static, str>) -> (a: Attribute)
    ensures
        a@ == Attr::text("alt"@, value@),
{
    proof {
        reveal_strlit("alt");
    }
    Attribute::new("alt", value)
}

/// The `width` attribute.
pub fn width(value: Cow<'static, str>) -> (a: Attribute)
    ensures
        a@ == Attr::text("width"@, value@),
{
    proof {
        reveal_strlit("width");
    }
    Attribute::new("width", value)
}

/// The `height` attribute.
pub fn height(value: Cow<'static, str>) -> (a: Attribute)
    ensures
        a@ == Attr::text("height"@, value@),
{
    proof {
        reveal_strlit("height");
    }
    Attribute::new("height", value)
}

/// The `width` attribute with an integer value.
pub fn width_int(value: i32) -> (a: Attribute)
    ensures
        a@ == Attr::number("width"@, value as int),
{
    proof {
        reveal_strlit("width");
    }
    Attribute::new_int("width", value)
}

/// The `height` attribute with an integer value.
pub fn height_int(value: i32) -> (a: Attribute)
    ensures
        a@ == Attr::number("height"@, value as int),
{
    proof {
        reveal_strlit("height");
    }
    Attribute::new_int("height", value)
}

/// The `style` attribute.
pub fn style(value: Cow<'static, str>) -> (a: Attribute)
    ensures
        a@ == Attr::text("style"@, value@),
{
    proof {
        reveal_strlit("style");
    }
    Attribute::new("style", value)
}

/// The `cols` attribute.
pub fn cols(value: i32) -> (a: Attribute)
    ensures
        a@ == Attr::number("cols"@, value as int),
{
    proof {
        reveal_strlit("cols");
    }
    Attribute::new_int("cols", value)
}

/// The `rows` attribute.
pub fn rows(value: i32) -> (a: Attribute)
    ensures
        a@ == Attr::number("rows"@, value as int),
{
    proof {
        reveal_strlit("rows");
    }
    Attribute::new_int("rows", value)
}

/// The `type` attribute.
pub fn type_(value: Cow<'static, str>) -> (a: Attribute)
    ensures
        a@ == Attr::text("type"@, value@),
{
    proof {
        reveal_strlit("type");
    }
    Attribute::new("type", value)
}

/// `type="text"` (text input)
pub fn type_text() -> (a: Attribute)
    ensures
        a@ == Attr::text("type"@, "text"@),
{
    proof {
        reveal_strlit("type");
    }
    Attribute::new("type", Cow::Borrowed("text"))
}

/// `type="password"` (password input)
pub fn type_password() -> (a: Attribute)
    ensures
        a@ == Attr::text("type"@, "password"@),
{
    proof {
        reveal_strlit("type");
    }
    Attribute::new("type", Cow::Borrowed("password"))
}

/// `type="number"` (number input)
pub fn type_number() -> (a: Attribute)
    ensures
        a@ == Attr::text("type"@, "number"@),
{
    proof {
        reveal_strlit("type");
    }
    Attribute::new("type", Cow::Borrowed("number"))
}

/// `type="tel"` (phone number input)
pub fn type_tel() -> (a: Attribute)
    ensures
        a@ == Attr::text("type"@, "tel"@),
{
    proof {
        reveal_strlit("type");
    }
    Attribute::new("type", Cow::Borrowed("tel"))
}

/// `type="file"` (file input)
pub fn type_file() -> (a: Attribute)
    ensures
        a@ == Attr::text("type"@, "file"@),
{
    proof {
        reveal_strlit("type");
    }
    Attribute::new("type", Cow::Borrowed("file"))
}

/// `type="checkbox"` (checkbox input)
pub fn type_checkbox() -> (a: Attribute)
    ensures
        a@ == Attr::text("type"@, "checkbox"@),
{
    proof {
        reveal_strlit("type");
    }
    Attribute::new("type", Cow::Borrowed("checkbox"))
}

/// `type="radio"` (radio input)
pub fn type_radio() -> (a: Attribute)
    ensures
        a@ == Attr::text("type"@, "radio"@),
{
    proof {
        reveal_strlit("type");
    }
    Attribute::new("type", Cow::Borrowed("radio"))
}

/// `type="range"` (range input)
pub fn type_range() -> (a: Attribute)
    ensures
        a@ == Attr::text("type"@, "range"@),
{
    proof {
        reveal_strlit("type");
    }
    Attribute::new("type", Cow::Borrowed("range"))
}

/// `type="email"` (email input)
pub fn type_email() -> (a: Attribute)
    ensures
        a@ == Attr::text("type"@, "email"@),
{
    proof {
        reveal_strlit("type");
    }
    Attribute::new("type", Cow::Borrowed("email"))
}

/// `type="date"` (date input)
pub fn type_date() -> (a: Attribute)
    ensures
        a@ == Attr::text("type"@, "date"@),
{
    proof {
        reveal_strlit("type");
    }
    Attribute::new("type", Cow::Borrowed("date"))
}

/// `type="month"` (month input)
pub fn type_month() -> (a: Attribute)
    ensures
        a@ == Attr::text("type"@, "month"@),
{
    proof {
        reveal_strlit("type");
    }
    Attribute::new("type", Cow::Borrowed("month"))
}

/// `type="hidden"` (hidden input)
pub fn type_hidden() -> (a: Attribute)
    ensures
        a@ == Attr::text("type"@, "hidden"@),
{
    proof {
        reveal_strlit("type");
    }
    Attribute::new("type", Cow::Borrowed("hidden"))
}

/// `type="reset"` (reset button)
pub fn type_reset() -> (a: Attribute)
    ensures
        a@ == Attr::text("type"@, "reset"@),
{
    proof {
        reveal_strlit("type");
    }
    Attribute::new("type", Cow::Borrowed("reset"))
}

/// `type="submit"` (submit button)
pub fn type_submit() -> (a: Attribute)
    ensures
        a@ == Attr::text("type"@, "submit"@),
{
    proof {
        reveal_strlit("type");
    }
    Attribute::new("type", Cow::Borrowed("submit"))
}

/// The `integrity` attribute.
pub fn integrity(value: Cow<'static, str>) -> (a: Attribute)
    ensures
        a@ == Attr::text("integrity"@, value@),
{
    proof {
        reveal_strlit("integrity");
    }
    Attribute::new("integrity", value)
}

/// The `defer` attribute.
pub fn defer() -> (a: Attribute)
    ensures
        a@ == Attr::flag("defer"@),
{
    proof {
        reveal_strlit("defer");
    }
    Attribute::new_flag("defer")
}

/// The `async` attribute.
pub fn async_() -> (a: Attribute)
    ensures
        a@ == Attr::flag("async"@),
{
    proof {
        reveal_strlit("async");
    }
    Attribute::new_flag("async")
}

/// `crossorigin="anonymous"`
pub fn crossorigin_anonymous() -> (a: Attribute)
    ensures
        a@ == Attr::text("crossorigin"@, "anonymous"@),
{
    proof {
        reveal_strlit("crossorigin");
    }
    Attribute::new("crossorigin", Cow::Borrowed("anonymous"))
}

/// `crossorigin="use-credentials"`
pub fn crossorigin_use_credentials() -> (a: Attribute)
    ensures
        a@ == Attr::text("crossorigin"@, "use-credentials"@),
{
    proof {
        reveal_strlit("crossorigin");
    }
    Attribute::new("crossorigin", Cow::Borrowed("use-credentials"))
}

/// The `download` attribute, as a flag.
pub fn download() -> (a: Attribute)
    ensures
        a@ == Attr::flag("download"@),
{
    proof {
        reveal_strlit("download");
    }
    Attribute::new_flag("download")
}

/// The `download` attribute with the name of the file.
pub fn download_with_name(name: Cow<'static, str>) -> (a: Attribute)
    ensures
        a@ == Attr::text("download"@, name@),
{
    proof {
        reveal_strlit("download");
    }
    Attribute::new("download", name)
}

/// The `charset` attribute.
pub fn charset(value: Cow<'static, str>) -> (a: Attribute)
    ensures
        a@ == Attr::text("charset"@, value@),
{
    proof {
        reveal_strlit("charset");
    }
    Attribute::new("charset", value)
}

/// `charset="UTF-8"`; the earlier name of [`charset_utf8`].
pub fn charset_utf_8() -> (a: Attribute)
    ensures
        a@ == Attr::text("charset"@, "UTF-8"@),
{
    charset(Cow::Borrowed("UTF-8"))
}

/// `charset="UTF-8"`
pub fn charset_utf8() -> (a: Attribute)
    ensures
        a@ == Attr::text("charset"@, "UTF-8"@),
{
    charset(Cow::Borrowed("UTF-8"))
}

/// The `name` attribute.
pub fn name(value: Cow<'static, str>) -> (a: Attribute)
    ensures
        a@ == Attr::text("name"@, value@),
{
    proof {
        reveal_strlit("name");
    }
    Attribute::new("name", value)
}

/// The `content` attribute.
pub fn content(value: Cow<'static, str>) -> (a: Attribute)
    ensures
        a@ == Attr::text("content"@, value@),
{
    proof {
        reveal_strlit("content");
    }
    Attribute::new("content", value)
}

/// The `action` attribute.
pub fn action(value: Cow<'static, str>) -> (a: Attribute)
    ensures
        a@ == Attr::text("action"@, value@),
{
    proof {
        reveal_strlit("action");
    }
    Attribute::new("action", value)
}

/// `method="get"`
pub fn method_get() -> (a: Attribute)
    ensures
        a@ == Attr::text("method"@, "get"@),
{
    proof {
        reveal_strlit("method");
    }
    Attribute::new("method", Cow::Borrowed("get"))
}

/// `method="post"`
pub fn method_post() -> (a: Attribute)
    ensures
        a@ == Attr::text("method"@, "post"@),
{
    proof {
        reveal_strlit("method");
    }
    Attribute::new("method", Cow::Borrowed("post"))
}

/// The `for` attribute.
pub fn for_(value: Cow<'static, str>) -> (a: Attribute)
    ensures
        a@ == Attr::text("for"@, value@),
{
    proof {
        reveal_strlit("for");
    }
    Attribute::new("for", value)
}

/// The `value` attribute.
pub fn value(text: Cow<'static, str>) -> (a: Attribute)
    ensures
        a@ == Attr::text("value"@, text@),
{
    proof {
        reveal_strlit("value");
    }
    Attribute::new("value", text)
}

/// The `required` attribute.
pub fn required() -> (a: Attribute)
    ensures
        a@ == Attr::flag("required"@),
{
    proof {
        reveal_strlit("required");
    }
    Attribute::new_flag("required")
}

/// The `autofocus` attribute.
pub fn autofocus() -> (a: Attribute)
    ensures
        a@ == Attr::flag("autofocus"@),
{
    proof {
        reveal_strlit("autofocus");
    }
    Attribute::new_flag("autofocus")
}

/// The `autocomplete` attribute.
pub fn autocomplete(type_: Cow<'static, str>) -> (a: Attribute)
    ensures
        a@ == Attr::text("autocomplete"@, type_@),
{
    proof {
        reveal_strlit("autocomplete");
    }
    Attribute::new("autocomplete", type_)
}

/// `autocomplete="on"`
pub fn autocomplete_on() -> (a: Attribute)
    ensures
        a@ == Attr::text("autocomplete"@, "on"@),
{
    proof {
        reveal_strlit("autocomplete");
    }
    Attribute::new("autocomplete", Cow::Borrowed("on"))
}

/// `autocomplete="off"`
pub fn autocomplete_off() -> (a: Attribute)
    ensures
        a@ == Attr::text("autocomplete"@, "off"@),
{
    proof {
        reveal_strlit("autocomplete");
    }
    Attribute::new("autocomplete", Cow::Borrowed("off"))
}

/// The `disabled` attribute.
pub fn disabled() -> (a: Attribute)
    ensures
        a@ == Attr::flag("disabled"@),
{
    proof {
        reveal_strlit("disabled");
    }
    Attribute::new_flag("disabled")
}

/// The `pattern` attribute.
pub fn pattern(value: Cow<'static, str>) -> (a: Attribute)
    ensures
        a@ == Attr::text("pattern"@, value@),
{
    proof {
        reveal_strlit("pattern");
    }
    Attribute::new("pattern", value)
}

/// The `min` attribute.
pub fn min(value: Cow<'static, str>) -> (a: Attribute)
    ensures
        a@ == Attr::text("min"@, value@),
{
    proof {
        reveal_strlit("min");
    }
    Attribute::new("min", value)
}

/// The `max` attribute.
pub fn max(value: Cow<'static, str>) -> (a: Attribute)
    ensures
        a@ == Attr::text("max"@, value@),
{
    proof {
        reveal_strlit("max");
    }
    Attribute::new("max", value)
}

/// The `minlength` attribute.
pub fn minlength(value: Cow<'static, str>) -> (a: Attribute)
    ensures
        a@ == Attr::text("minlength"@, value@),
{
    proof {
        reveal_strlit("minlength");
    }
    Attribute::new("minlength", value)
}

/// The `minlength` attribute with a `u16` value.
pub fn minlength_u16(value: u16) -> (a: Attribute)
    ensures
        a@ == Attr::number("minlength"@, value as int),
{
    proof {
        reveal_strlit("minlength");
    }
    Attribute::new_int("minlength", value as i32)
}

/// The `maxlength` attribute.
pub fn maxlength(value: Cow<'static, str>) -> (a: Attribute)
    ensures
        a@ == Attr::text("maxlength"@, value@),
{
    proof {
        reveal_strlit("maxlength");
    }
    Attribute::new("maxlength", value)
}

/// The `maxlength` attribute with a `u16` value.
pub fn maxlength_u16(value: u16) -> (a: Attribute)
    ensures
        a@ == Attr::number("maxlength"@, value as int),
{
    proof {
        reveal_strlit("maxlength");
    }
    Attribute::new_int("maxlength", value as i32)
}

/// The `multiple` attribute.
pub fn multiple() -> (a: Attribute)
    ensures
        a@ == Attr::flag("multiple"@),
{
    proof {
        reveal_strlit("multiple");
    }
    Attribute::new_flag("multiple")
}

/// The `placeholder` attribute.
pub fn placeholder(value: Cow<'static, str>) -> (a: Attribute)
    ensures
        a@ == Attr::text("placeholder"@, value@),
{
    proof {
        reveal_strlit("placeholder");
    }
    Attribute::new("placeholder", value)
}

} // verus!
