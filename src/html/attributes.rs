use vstd::prelude::*;

use super::elements;
use super::elements::HtmlElement;

verus! {

/// Trait for the attribute `accept`
pub trait Accept: HtmlElement {
    /// The name of the attribute.
    fn attr() -> (r: &'static str)
        ensures
            r@ == "accept"@,
    {
        "accept"
    }
}

impl Accept for elements::Form {}
impl Accept for elements::Input {}

/// Trait for the attribute `accept-charset`
pub trait AcceptCharset: HtmlElement {
    /// The name of the attribute.
    fn attr() -> (r: &'static str)
        ensures
            r@ == "accept-charset"@,
    {
        "accept-charset"
    }
}

impl AcceptCharset for elements::Form {}

/// Trait for the attribute `accesskey`
pub trait Accesskey: HtmlElement {
    /// The name of the attribute.
    fn attr() -> (r: &'static str)
        ensures
            r@ == "accesskey"@,
    {
        "accesskey"
    }
}

impl<T: HtmlElement> Accesskey for T {}

/// Trait for the attribute `action`
pub trait Action: HtmlElement {
    /// The name of the attribute.
    fn attr() -> (r: &'static str)
        ensures
            r@ == "action"@,
    {
        "action"
    }
}

impl Action for elements::Form {}

/// Trait for the attribute `align`
pub trait Align: HtmlElement {
    /// The name of the attribute.
    fn attr() -> (r: &'static str)
        ensures
            r@ == "align"@,
    {
        "align"
    }
}

impl Align for elements::Caption {}
impl Align for elements::Col {}
impl Align for elements::Colgroup {}
impl Align for elements::Hr {}
impl Align for elements::Iframe {}
impl Align for elements::Img {}
impl Align for elements::Table {}
impl Align for elements::Tbody {}
impl Align for elements::Td {}
impl Align for elements::Tfoot {}
impl Align for elements::Th {}
impl Align for elements::Thead {}
impl Align for elements::Tr {}

/// Trait for the attribute `allow`
pub trait Allow: HtmlElement {
    /// The name of the attribute.
    fn attr() -> (r: &'static str)
        ensures
            r@ == "allow"@,
    {
        "allow"
    }
}

impl Allow for elements::Iframe {}

/// Trait for the attribute `alt`
pub trait Alt: HtmlElement {
    /// The name of the attribute.
    fn attr() -> (r: &'static str)
        ensures
            r@ == "alt"@,
    {
        "alt"
    }
}

impl Alt for elements::Area {}
impl Alt for elements::Img {}
impl Alt for elements::Input {}

/// Trait for the attribute `async`
pub trait Async: HtmlElement {
    /// The name of the attribute.
    fn attr() -> (r: &'static str)
        ensures
            r@ == "async"@,
    {
        "async"
    }
}

impl Async for elements::Script {}

/// Trait for the attribute `autocapitalize`
pub trait Autocapitalize: HtmlElement {
    /// The name of the attribute.
    fn attr() -> (r: &'static str)
        ensures
            r@ == "autocapitalize"@,
    {
        "autocapitalize"
    }
}

impl<T: HtmlElement> Autocapitalize for T {}

/// Trait for the attribute `autocomplete`
pub trait Autocomplete: HtmlElement {
    /// The name of the attribute.
    fn attr() -> (r: &'static str)
        ensures
            r@ == "autocomplete"@,
    {
        "autocomplete"
    }
}

impl Autocomplete for elements::Form {}
impl Autocomplete for elements::Input {}
impl Autocomplete for elements::Select {}
impl Autocomplete for elements::Textarea {}

/// Trait for the attribute `autofocus`
pub trait Autofocus: HtmlElement {
    /// The name of the attribute.
    fn attr() -> (r: &'static str)
        ensures
            r@ == "autofocus"@,
    {
        "autofocus"
    }
}

impl Autofocus for elements::Button {}
impl Autofocus for elements::Input {}
impl Autofocus for elements::Select {}
impl Autofocus for elements::Textarea {}

/// Trait for the attribute `autoplay`
pub trait Autoplay: HtmlElement {
    /// The name of the attribute.
    fn attr() -> (r: &'static str)
        ensures
            r@ == "autoplay"@,
    {
        "autoplay"
    }
}

impl Autoplay for elements::Audio {}
impl Autoplay for elements::Video {}

/// Trait for the attribute `background`
pub trait Background: HtmlElement {
    /// The name of the attribute.
    fn attr() -> (r: &'static str)
        ensures
            r@ == "background"@,
    {
        "background"
    }
}

impl Background for elements::Body {}
impl Background for elements::Table {}
impl Background for elements::Td {}
impl Background for elements::Th {}

/// Trait for the attribute `bgcolor`
pub trait Bgcolor: HtmlElement {
    /// The name of the attribute.
    fn attr() -> (r: &'static str)
        ensures
            r@ == "bgcolor"@,
    {
        "bgcolor"
    }
}

impl Bgcolor for elements::Body {}
impl Bgcolor for elements::Col {}
impl Bgcolor for elements::Colgroup {}
impl Bgcolor for elements::Table {}
impl Bgcolor for elements::Tbody {}
impl Bgcolor for elements::Tfoot {}
impl Bgcolor for elements::Td {}
impl Bgcolor for elements::Th {}
impl Bgcolor for elements::Tr {}

/// Trait for the attribute `border`
pub trait Border: HtmlElement {
    /// The name of the attribute.
    fn attr() -> (r: &'static str)
        ensures
            r@ == "border"@,
    {
        "border"
    }
}

impl Border for elements::Img {}
impl Border for elements::Object {}
impl Border for elements::Table {}

/// Trait for the attribute `buffered`
pub trait Buffered: HtmlElement {
    /// The name of the attribute.
    fn attr() -> (r: &'static str)
        ensures
            r@ == "buffered"@,
    {
        "buffered"
    }
}

impl Buffered for elements::Audio {}
impl Buffered for elements::Video {}

/// Trait for the attribute `capture`
pub trait Capture: HtmlElement {
    /// The name of the attribute.
    fn attr() -> (r: &'static str)
        ensures
            r@ == "capture"@,
    {
        "capture"
    }
}

impl Capture for elements::Input {}

/// Trait for the attribute `charset`
pub trait Charset: HtmlElement {
    /// The name of the attribute.
    fn attr() -> (r: &'static str)
        ensures
            r@ == "charset"@,
    {
        "charset"
    }
}

impl Charset for elements::Meta {}
impl Charset for elements::Script {}

/// Trait for the attribute `checked`
pub trait Checked: HtmlElement {
    /// The name of the attribute.
    fn attr() -> (r: &'static str)
        ensures
            r@ == "checked"@,
    {
        "checked"
    }
}

impl Checked for elements::Input {}

/// Trait for the attribute `cite`
pub trait Cite: HtmlElement {
    /// The name of the attribute.
    fn attr() -> (r: &'static str)
        ensures
            r@ == "cite"@,
    {
        "cite"
    }
}

impl Cite for elements::Blockquote {}
impl Cite for elements::Del {}
impl Cite for elements::Ins {}
impl Cite for elements::Q {}

/// Trait for the attribute `class`
pub trait Class: HtmlElement {
    /// The name of the attribute.
    fn attr() -> (r: &'static str)
        ensures
            r@ == "class"@,
    {
        "class"
    }
}

impl<T: HtmlElement> Class for T {}

/// Trait for the attribute `color`
pub trait Color: HtmlElement {
    /// The name of the attribute.
    fn attr() -> (r: &'static str)
        ensures
            r@ == "color"@,
    {
        "color"
    }
}

impl Color for elements::Hr {}

/// Trait for the attribute `cols`
pub trait Cols: HtmlElement {
    /// The name of the attribute.
    fn attr() -> (r: &'static str)
        ensures
            r@ == "cols"@,
    {
        "cols"
    }
}

impl Cols for elements::Textarea {}

/// Trait for the attribute `colspan`
pub trait Colspan: HtmlElement {
    /// The name of the attribute.
    fn attr() -> (r: &'static str)
        ensures
            r@ == "colspan"@,
    {
        "colspan"
    }
}

impl Colspan for elements::Td {}
impl Colspan for elements::Th {}

/// Trait for the attribute `content`
pub trait Content: HtmlElement {
    /// The name of the attribute.
    fn attr() -> (r: &'static str)
        ensures
            r@ == "content"@,
    {
        "content"
    }
}

impl Content for elements::Meta {}

/// Trait for the attribute `contenteditable`
pub trait Contenteditable: HtmlElement {
    /// The name of the attribute.
    fn attr() -> (r: &'static str)
        ensures
            r@ == "contenteditable"@,
    {
        "contenteditable"
    }
}

impl<T: HtmlElement> Contenteditable for T {}

/// Trait for the attribute `contextmenu`
pub trait Contextmenu: HtmlElement {
    /// The name of the attribute.
    fn attr() -> (r: &'static str)
        ensures
            r@ == "contextmenu"@,
    {
        "contextmenu"
    }
}

impl<T: HtmlElement> Contextmenu for T {}

/// Trait for the attribute `controls`
pub trait Controls: HtmlElement {
    /// The name of the attribute.
    fn attr() -> (r: &'static str)
        ensures
            r@ == "controls"@,
    {
        "controls"
    }
}

impl Controls for elements::Audio {}
impl Controls for elements::Video {}

/// Trait for the attribute `coords`
pub trait Coords: HtmlElement {
    /// The name of the attribute.
    fn attr() -> (r: &'static str)
        ensures
            r@ == "coords"@,
    {
        "coords"
    }
}

impl Coords for elements::Area {}

/// Trait for the attribute `crossorigin`
pub trait Crossorigin: HtmlElement {
    /// The name of the attribute.
    fn attr() -> (r: &'static str)
        ensures
            r@ == "crossorigin"@,
    {
        "crossorigin"
    }
}

impl Crossorigin for elements::Audio {}
impl Crossorigin for elements::Img {}
impl Crossorigin for elements::Link {}
impl Crossorigin for elements::Script {}
impl Crossorigin for elements::Video {}

/// Trait for the attribute `csp`
pub trait Csp: HtmlElement {
    /// The name of the attribute.
    fn attr() -> (r: &'static str)
        ensures
            r@ == "csp"@,
    {
        "csp"
    }
}

impl Csp for elements::Iframe {}

/// Trait for the attribute `data`
pub trait Data: HtmlElement {
    /// The name of the attribute.
    fn attr() -> (r: &'static str)
        ensures
            r@ == "data"@,
    {
        "data"
    }
}

impl Data for elements::Object {}

/// Trait for the attribute `datetime`
pub trait Datetime: HtmlElement {
    /// The name of the attribute.
    fn attr() -> (r: &'static str)
        ensures
            r@ == "datetime"@,
    {
        "datetime"
    }
}

impl Datetime for elements::Del {}
impl Datetime for elements::Ins {}
impl Datetime for elements::Time {}

/// Trait for the attribute `decoding`
pub trait Decoding: HtmlElement {
    /// The name of the attribute.
    fn attr() -> (r: &'static str)
        ensures
            r@ == "decoding"@,
    {
        "decoding"
    }
}

impl Decoding for elements::Img {}

/// Trait for the attribute `default`
pub trait Default: HtmlElement {
    /// The name of the attribute.
    fn attr() -> (r: &'static str)
        ensures
            r@ == "default"@,
    {
        "default"
    }
}

impl Default for elements::Track {}

/// Trait for the attribute `defer`
pub trait Defer: HtmlElement {
    /// The name of the attribute.
    fn attr() -> (r: &'static str)
        ensures
            r@ == "defer"@,
    {
        "defer"
    }
}

impl Defer for elements::Script {}

/// Trait for the attribute `dir`
pub trait Dir: HtmlElement {
    /// The name of the attribute.
    fn attr() -> (r: &'static str)
        ensures
            r@ == "dir"@,
    {
        "dir"
    }
}

impl<T: HtmlElement> Dir for T {}

/// Trait for the attribute `dirname`
pub trait Dirname: HtmlElement {
    /// The name of the attribute.
    fn attr() -> (r: &'static str)
        ensures
            r@ == "dirname"@,
    {
        "dirname"
    }
}

impl Dirname for elements::Input {}
impl Dirname for elements::Textarea {}

/// Trait for the attribute `disabled`
pub trait Disabled: HtmlElement {
    /// The name of the attribute.
    fn attr() -> (r: &'static str)
        ensures
            r@ == "disabled"@,
    {
        "disabled"
    }
}

impl Disabled for elements::Button {}
impl Disabled for elements::Fieldset {}
impl Disabled for elements::Input {}
impl Disabled for elements::Optgroup {}
impl Disabled for elements::Option {}
impl Disabled for elements::Select {}
impl Disabled for elements::Textarea {}

/// Trait for the attribute `download`
pub trait Download: HtmlElement {
    /// The name of the attribute.
    fn attr() -> (r: &'static str)
        ensures
            r@ == "download"@,
    {
        "download"
    }
}

impl Download for elements::A {}
impl Download for elements::Area {}

/// Trait for the attribute `draggable`
pub trait Draggable: HtmlElement {
    /// The name of the attribute.
    fn attr() -> (r: &'static str)
        ensures
            r@ == "draggable"@,
    {
        "draggable"
    }
}

impl<T: HtmlElement> Draggable for T {}

/// Trait for the attribute `dropzone`
pub trait Dropzone: HtmlElement {
    /// The name of the attribute.
    fn attr() -> (r: &'static str)
        ensures
            r@ == "dropzone"@,
    {
        "dropzone"
    }
}

impl<T: HtmlElement> Dropzone for T {}

/// Trait for the attribute `enctype`
pub trait Enctype: HtmlElement {
    /// The name of the attribute.
    fn attr() -> (r: &'static str)
        ensures
            r@ == "enctype"@,
    {
        "enctype"
    }
}

impl Enctype for elements::Form {}

/// Trait for the attribute `enterkeyhint`
pub trait Enterkeyhint: HtmlElement {
    /// The name of the attribute.
    fn attr() -> (r: &'static str)
        ensures
            r@ == "enterkeyhint"@,
    {
        "enterkeyhint"
    }
}

impl Enterkeyhint for elements::Textarea {}

/// Trait for the attribute `for`
pub trait For: HtmlElement {
    /// The name of the attribute.
    fn attr() -> (r: &'static str)
        ensures
            r@ == "for"@,
    {
        "for"
    }
}

impl For for elements::Label {}
impl For for elements::Output {}

/// Trait for the attribute `form`
pub trait Form: HtmlElement {
    /// The name of the attribute.
    fn attr() -> (r: &'static str)
        ensures
            r@ == "form"@,
    {
        "form"
    }
}

impl Form for elements::Button {}
impl Form for elements::Fieldset {}
impl Form for elements::Input {}
impl Form for elements::Label {}
impl Form for elements::Meter {}
impl Form for elements::Object {}
impl Form for elements::Output {}
impl Form for elements::Progress {}
impl Form for elements::Select {}
impl Form for elements::Textarea {}

/// Trait for the attribute `formaction`
pub trait Formaction: HtmlElement {
    /// The name of the attribute.
    fn attr() -> (r: &'static str)
        ensures
            r@ == "formaction"@,
    {
        "formaction"
    }
}

impl Formaction for elements::Input {}
impl Formaction for elements::Button {}

/// Trait for the attribute `formenctype`
pub trait Formenctype: HtmlElement {
    /// The name of the attribute.
    fn attr() -> (r: &'static str)
        ensures
            r@ == "formenctype"@,
    {
        "formenctype"
    }
}

impl Formenctype for elements::Button {}
impl Formenctype for elements::Input {}

/// Trait for the attribute `formmethod`
pub trait Formmethod: HtmlElement {
    /// The name of the attribute.
    fn attr() -> (r: &'static str)
        ensures
            r@ == "formmethod"@,
    {
        "formmethod"
    }
}

impl Formmethod for elements::Button {}
impl Formmethod for elements::Input {}

/// Trait for the attribute `formnovalidate`
pub trait Formnovalidate: HtmlElement {
    /// The name of the attribute.
    fn attr() -> (r: &'static str)
        ensures
            r@ == "formnovalidate"@,
    {
        "formnovalidate"
    }
}

impl Formnovalidate for elements::Button {}
impl Formnovalidate for elements::Input {}

/// Trait for the attribute `formtarget`
pub trait Formtarget: HtmlElement {
    /// The name of the attribute.
    fn attr() -> (r: &'static str)
        ensures
            r@ == "formtarget"@,
    {
        "formtarget"
    }
}

impl Formtarget for elements::Button {}
impl Formtarget for elements::Input {}

/// Trait for the attribute `headers`
pub trait Headers: HtmlElement {
    /// The name of the attribute.
    fn attr() -> (r: &'static str)
        ensures
            r@ == "headers"@,
    {
        "headers"
    }
}

impl Headers for elements::Td {}
impl Headers for elements::Th {}

/// Trait for the attribute `height`
pub trait Height: HtmlElement {
    /// The name of the attribute.
    fn attr() -> (r: &'static str)
        ensures
            r@ == "height"@,
    {
        "height"
    }
}

impl Height for elements::Canvas {}
impl Height for elements::Embed {}
impl Height for elements::Iframe {}
impl Height for elements::Img {}
impl Height for elements::Input {}
impl Height for elements::Object {}
impl Height for elements::Video {}

/// Trait for the attribute `hidden`
pub trait Hidden: HtmlElement {
    /// The name of the attribute.
    fn attr() -> (r: &'static str)
        ensures
            r@ == "hidden"@,
    {
        "hidden"
    }
}

impl<T: HtmlElement> Hidden for T {}

/// Trait for the attribute `high`
pub trait High: HtmlElement {
    /// The name of the attribute.
    fn attr() -> (r: &'static str)
        ensures
            r@ == "high"@,
    {
        "high"
    }
}

impl High for elements::Meter {}

/// Trait for the attribute `href`
pub trait Href: HtmlElement {
    /// The name of the attribute.
    fn attr() -> (r: &'static str)
        ensures
            r@ == "href"@,
    {
        "href"
    }
}

impl Href for elements::A {}
impl Href for elements::Area {}
impl Href for elements::Base {}
impl Href for elements::Link {}

/// Trait for the attribute `hreflang`
pub trait Hreflang: HtmlElement {
    /// The name of the attribute.
    fn attr() -> (r: &'static str)
        ensures
            r@ == "hreflang"@,
    {
        "hreflang"
    }
}

impl Hreflang for elements::A {}
impl Hreflang for elements::Area {}
impl Hreflang for elements::Link {}

/// Trait for the attribute `http-equiv`
pub trait HttpEquiv: HtmlElement {
    /// The name of the attribute.
    fn attr() -> (r: &'static str)
        ensures
            r@ == "http-equiv"@,
    {
        "http-equiv"
    }
}

impl HttpEquiv for elements::Meta {}

/// Trait for the attribute `id`
pub trait Id: HtmlElement {
    /// The name of the attribute.
    fn attr() -> (r: &'static str)
        ensures
            r@ == "id"@,
    {
        "id"
    }
}

impl<T: HtmlElement> Id for T {}

/// Trait for the attribute `importance`
pub trait Importance: HtmlElement {
    /// The name of the attribute.
    fn attr() -> (r: &'static str)
        ensures
            r@ == "importance"@,
    {
        "importance"
    }
}

impl Importance for elements::Iframe {}
impl Importance for elements::Img {}
impl Importance for elements::Link {}
impl Importance for elements::Script {}

/// Trait for the attribute `integrity`
pub trait Integrity: HtmlElement {
    /// The name of the attribute.
    fn attr() -> (r: &'static str)
        ensures
            r@ == "integrity"@,
    {
        "integrity"
    }
}

impl Integrity for elements::Link {}
impl Integrity for elements::Script {}

/// Trait for the attribute `intrinsicsize`
pub trait Intrinsicsize: HtmlElement {
    /// The name of the attribute.
    fn attr() -> (r: &'static str)
        ensures
            r@ == "intrinsicsize"@,
    {
        "intrinsicsize"
    }
}

impl Intrinsicsize for elements::Img {}

/// Trait for the attribute `inputmode`
pub trait Inputmode: HtmlElement {
    /// The name of the attribute.
    fn attr() -> (r: &'static str)
        ensures
            r@ == "inputmode"@,
    {
        "inputmode"
    }
}

impl Inputmode for elements::Textarea {}

/// Trait for the attribute `ismap`
pub trait Ismap: HtmlElement {
    /// The name of the attribute.
    fn attr() -> (r: &'static str)
        ensures
            r@ == "ismap"@,
    {
        "ismap"
    }
}

impl Ismap for elements::Img {}

/// Trait for the attribute `itemprop`
pub trait Itemprop: HtmlElement {
    /// The name of the attribute.
    fn attr() -> (r: &'static str)
        ensures
            r@ == "itemprop"@,
    {
        "itemprop"
    }
}

impl<T: HtmlElement> Itemprop for T {}

/// Trait for the attribute `kind`
pub trait Kind: HtmlElement {
    /// The name of the attribute.
    fn attr() -> (r: &'static str)
        ensures
            r@ == "kind"@,
    {
        "kind"
    }
}

impl Kind for elements::Track {}

/// Trait for the attribute `label`
pub trait Label: HtmlElement {
    /// The name of the attribute.
    fn attr() -> (r: &'static str)
        ensures
            r@ == "label"@,
    {
        "label"
    }
}

impl Label for elements::Optgroup {}
impl Label for elements::Option {}
impl Label for elements::Track {}

/// Trait for the attribute `lang`
pub trait Lang: HtmlElement {
    /// The name of the attribute.
    fn attr() -> (r: &'static str)
        ensures
            r@ == "lang"@,
    {
        "lang"
    }
}

impl<T: HtmlElement> Lang for T {}

/// Trait for the attribute `language`
pub trait Language: HtmlElement {
    /// The name of the attribute.
    fn attr() -> (r: &'static str)
        ensures
            r@ == "language"@,
    {
        "language"
    }
}

impl Language for elements::Script {}

/// Trait for the attribute `loading`
pub trait Loading: HtmlElement {
    /// The name of the attribute.
    fn attr() -> (r: &'static str)
        ensures
            r@ == "loading"@,
    {
        "loading"
    }
}

impl Loading for elements::Img {}
impl Loading for elements::Iframe {}

/// Trait for the attribute `list`
pub trait List: HtmlElement {
    /// The name of the attribute.
    fn attr() -> (r: &'static str)
        ensures
            r@ == "list"@,
    {
        "list"
    }
}

impl List for elements::Input {}

/// Trait for the attribute `loop`
pub trait Loop: HtmlElement {
    /// The name of the attribute.
    fn attr() -> (r: &'static str)
        ensures
            r@ == "loop"@,
    {
        "loop"
    }
}

impl Loop for elements::Audio {}
impl Loop for elements::Video {}

/// Trait for the attribute `low`
pub trait Low: HtmlElement {
    /// The name of the attribute.
    fn attr() -> (r: &'static str)
        ensures
            r@ == "low"@,
    {
        "low"
    }
}

impl Low for elements::Meter {}

/// Trait for the attribute `manifest`
pub trait Manifest: HtmlElement {
    /// The name of the attribute.
    fn attr() -> (r: &'static str)
        ensures
            r@ == "manifest"@,
    {
        "manifest"
    }
}

impl Manifest for elements::Html {}

/// Trait for the attribute `max`
pub trait Max: HtmlElement {
    /// The name of the attribute.
    fn attr() -> (r: &'static str)
        ensures
            r@ == "max"@,
    {
        "max"
    }
}

impl Max for elements::Input {}
impl Max for elements::Meter {}
impl Max for elements::Progress {}

/// Trait for the attribute `maxlength`
pub trait Maxlength: HtmlElement {
    /// The name of the attribute.
    fn attr() -> (r: &'static str)
        ensures
            r@ == "maxlength"@,
    {
        "maxlength"
    }
}

impl Maxlength for elements::Input {}
impl Maxlength for elements::Textarea {}

/// Trait for the attribute `minlength`
pub trait Minlength: HtmlElement {
    /// The name of the attribute.
    fn attr() -> (r: &'static str)
        ensures
            r@ == "minlength"@,
    {
        "minlength"
    }
}

impl Minlength for elements::Input {}
impl Minlength for elements::Textarea {}

/// Trait for the attribute `media`
pub trait Media: HtmlElement {
    /// The name of the attribute.
    fn attr() -> (r: &'static str)
        ensures
            r@ == "media"@,
    {
        "media"
    }
}

impl Media for elements::A {}
impl Media for elements::Area {}
impl Media for elements::Link {}
impl Media for elements::Source {}
impl Media for elements::Style {}

/// Trait for the attribute `method`
pub trait Method: HtmlElement {
    /// The name of the attribute.
    fn attr() -> (r: &'static str)
        ensures
            r@ == "method"@,
    {
        "method"
    }
}

impl Method for elements::Form {}

/// Trait for the attribute `min`
pub trait Min: HtmlElement {
    /// The name of the attribute.
    fn attr() -> (r: &'static str)
        ensures
            r@ == "min"@,
    {
        "min"
    }
}

impl Min for elements::Input {}
impl Min for elements::Meter {}

/// Trait for the attribute `multiple`
pub trait Multiple: HtmlElement {
    /// The name of the attribute.
    fn attr() -> (r: &'static str)
        ensures
            r@ == "multiple"@,
    {
        "multiple"
    }
}

impl Multiple for elements::Input {}
impl Multiple for elements::Select {}

/// Trait for the attribute `muted`
pub trait Muted: HtmlElement {
    /// The name of the attribute.
    fn attr() -> (r: &'static str)
        ensures
            r@ == "muted"@,
    {
        "muted"
    }
}

impl Muted for elements::Audio {}
impl Muted for elements::Video {}

/// Trait for the attribute `name`
pub trait Name: HtmlElement {
    /// The name of the attribute.
    fn attr() -> (r: &'static str)
        ensures
            r@ == "name"@,
    {
        "name"
    }
}

impl Name for elements::Button {}
impl Name for elements::Form {}
impl Name for elements::Fieldset {}
impl Name for elements::Iframe {}
impl Name for elements::Input {}
impl Name for elements::Object {}
impl Name for elements::Output {}
impl Name for elements::Select {}
impl Name for elements::Textarea {}
impl Name for elements::ImageMap {}
impl Name for elements::Meta {}
impl Name for elements::Param {}

/// Trait for the attribute `novalidate`
pub trait Novalidate: HtmlElement {
    /// The name of the attribute.
    fn attr() -> (r: &'static str)
        ensures
            r@ == "novalidate"@,
    {
        "novalidate"
    }
}

impl Novalidate for elements::Form {}

/// Trait for the attribute `open`
pub trait Open: HtmlElement {
    /// The name of the attribute.
    fn attr() -> (r: &'static str)
        ensures
            r@ == "open"@,
    {
        "open"
    }
}

impl Open for elements::Details {}

/// Trait for the attribute `optimum`
pub trait Optimum: HtmlElement {
    /// The name of the attribute.
    fn attr() -> (r: &'static str)
        ensures
            r@ == "optimum"@,
    {
        "optimum"
    }
}

impl Optimum for elements::Meter {}

/// Trait for the attribute `pattern`
pub trait Pattern: HtmlElement {
    /// The name of the attribute.
    fn attr() -> (r: &'static str)
        ensures
            r@ == "pattern"@,
    {
        "pattern"
    }
}

impl Pattern for elements::Input {}

/// Trait for the attribute `ping`
pub trait Ping: HtmlElement {
    /// The name of the attribute.
    fn attr() -> (r: &'static str)
        ensures
            r@ == "ping"@,
    {
        "ping"
    }
}

impl Ping for elements::A {}
impl Ping for elements::Area {}

/// Trait for the attribute `placeholder`
pub trait Placeholder: HtmlElement {
    /// The name of the attribute.
    fn attr() -> (r: &'static str)
        ensures
            r@ == "placeholder"@,
    {
        "placeholder"
    }
}

impl Placeholder for elements::Input {}
impl Placeholder for elements::Textarea {}

/// Trait for the attribute `poster`
pub trait Poster: HtmlElement {
    /// The name of the attribute.
    fn attr() -> (r: &'static str)
        ensures
            r@ == "poster"@,
    {
        "poster"
    }
}

impl Poster for elements::Video {}

/// Trait for the attribute `preload`
pub trait Preload: HtmlElement {
    /// The name of the attribute.
    fn attr() -> (r: &'static str)
        ensures
            r@ == "preload"@,
    {
        "preload"
    }
}

impl Preload for elements::Audio {}
impl Preload for elements::Video {}

/// Trait for the attribute `readonly`
pub trait Readonly: HtmlElement {
    /// The name of the attribute.
    fn attr() -> (r: &'static str)
        ensures
            r@ == "readonly"@,
    {
        "readonly"
    }
}

impl Readonly for elements::Input {}
impl Readonly for elements::Textarea {}

/// Trait for the attribute `referrerpolicy`
pub trait Referrerpolicy: HtmlElement {
    /// The name of the attribute.
    fn attr() -> (r: &'static str)
        ensures
            r@ == "referrerpolicy"@,
    {
        "referrerpolicy"
    }
}

impl Referrerpolicy for elements::A {}
impl Referrerpolicy for elements::Area {}
impl Referrerpolicy for elements::Iframe {}
impl Referrerpolicy for elements::Img {}
impl Referrerpolicy for elements::Link {}
impl Referrerpolicy for elements::Script {}

/// Trait for the attribute `rel`
pub trait Rel: HtmlElement {
    /// The name of the attribute.
    fn attr() -> (r: &'static str)
        ensures
            r@ == "rel"@,
    {
        "rel"
    }
}

impl Rel for elements::A {}
impl Rel for elements::Area {}
impl Rel for elements::Link {}

/// Trait for the attribute `required`
pub trait Required: HtmlElement {
    /// The name of the attribute.
    fn attr() -> (r: &'static str)
        ensures
            r@ == "required"@,
    {
        "required"
    }
}

impl Required for elements::Input {}
impl Required for elements::Select {}
impl Required for elements::Textarea {}

/// Trait for the attribute `reversed`
pub trait Reversed: HtmlElement {
    /// The name of the attribute.
    fn attr() -> (r: &'static str)
        ensures
            r@ == "reversed"@,
    {
        "reversed"
    }
}

impl Reversed for elements::Ol {}

/// Trait for the attribute `rows`
pub trait Rows: HtmlElement {
    /// The name of the attribute.
    fn attr() -> (r: &'static str)
        ensures
            r@ == "rows"@,
    {
        "rows"
    }
}

impl Rows for elements::Textarea {}

/// Trait for the attribute `rowspan`
pub trait Rowspan: HtmlElement {
    /// The name of the attribute.
    fn attr() -> (r: &'static str)
        ensures
            r@ == "rowspan"@,
    {
        "rowspan"
    }
}

impl Rowspan for elements::Td {}
impl Rowspan for elements::Th {}

/// Trait for the attribute `sandbox`
pub trait Sandbox: HtmlElement {
    /// The name of the attribute.
    fn attr() -> (r: &'static str)
        ensures
            r@ == "sandbox"@,
    {
        "sandbox"
    }
}

impl Sandbox for elements::Iframe {}

/// Trait for the attribute `scope`
pub trait Scope: HtmlElement {
    /// The name of the attribute.
    fn attr() -> (r: &'static str)
        ensures
            r@ == "scope"@,
    {
        "scope"
    }
}

impl Scope for elements::Th {}

/// Trait for the attribute `scoped`
pub trait Scoped: HtmlElement {
    /// The name of the attribute.
    fn attr() -> (r: &'static str)
        ensures
            r@ == "scoped"@,
    {
        "scoped"
    }
}

impl Scoped for elements::Style {}

/// Trait for the attribute `selected`
pub trait Selected: HtmlElement {
    /// The name of the attribute.
    fn attr() -> (r: &'static str)
        ensures
            r@ == "selected"@,
    {
        "selected"
    }
}

impl Selected for elements::Option {}

/// Trait for the attribute `shape`
pub trait Shape: HtmlElement {
    /// The name of the attribute.
    fn attr() -> (r: &'static str)
        ensures
            r@ == "shape"@,
    {
        "shape"
    }
}

impl Shape for elements::A {}
impl Shape for elements::Area {}

/// Trait for the attribute `size`
pub trait Size: HtmlElement {
    /// The name of the attribute.
    fn attr() -> (r: &'static str)
        ensures
            r@ == "size"@,
    {
        "size"
    }
}

impl Size for elements::Input {}
impl Size for elements::Select {}

/// Trait for the attribute `sizes`
pub trait Sizes: HtmlElement {
    /// The name of the attribute.
    fn attr() -> (r: &'static str)
        ensures
            r@ == "sizes"@,
    {
        "sizes"
    }
}

impl Sizes for elements::Link {}
impl Sizes for elements::Img {}
impl Sizes for elements::Source {}

/// Trait for the attribute `slot`
pub trait Slot: HtmlElement {
    /// The name of the attribute.
    fn attr() -> (r: &'static str)
        ensures
            r@ == "slot"@,
    {
        "slot"
    }
}

impl<T: HtmlElement> Slot for T {}

/// Trait for the attribute `span`
pub trait Span: HtmlElement {
    /// The name of the attribute.
    fn attr() -> (r: &'static str)
        ensures
            r@ == "span"@,
    {
        "span"
    }
}

impl Span for elements::Col {}
impl Span for elements::Colgroup {}

/// Trait for the attribute `spellcheck`
pub trait Spellcheck: HtmlElement {
    /// The name of the attribute.
    fn attr() -> (r: &'static str)
        ensures
            r@ == "spellcheck"@,
    {
        "spellcheck"
    }
}

impl<T: HtmlElement> Spellcheck for T {}

/// Trait for the attribute `src`
pub trait Src: HtmlElement {
    /// The name of the attribute.
    fn attr() -> (r: &'static str)
        ensures
            r@ == "src"@,
    {
        "src"
    }
}

impl Src for elements::Audio {}
impl Src for elements::Embed {}
impl Src for elements::Iframe {}
impl Src for elements::Img {}
impl Src for elements::Input {}
impl Src for elements::Script {}
impl Src for elements::Source {}
impl Src for elements::Track {}
impl Src for elements::Video {}

/// Trait for the attribute `srcdoc`
pub trait Srcdoc: HtmlElement {
    /// The name of the attribute.
    fn attr() -> (r: &'static str)
        ensures
            r@ == "srcdoc"@,
    {
        "srcdoc"
    }
}

impl Srcdoc for elements::Iframe {}

/// Trait for the attribute `srclang`
pub trait Srclang: HtmlElement {
    /// The name of the attribute.
    fn attr() -> (r: &'static str)
        ensures
            r@ == "srclang"@,
    {
        "srclang"
    }
}

impl Srclang for elements::Track {}

/// Trait for the attribute `srcset`
pub trait Srcset: HtmlElement {
    /// The name of the attribute.
    fn attr() -> (r: &'static str)
        ensures
            r@ == "srcset"@,
    {
        "srcset"
    }
}

impl Srcset for elements::Img {}
impl Srcset for elements::Source {}

/// Trait for the attribute `start`
pub trait Start: HtmlElement {
    /// The name of the attribute.
    fn attr() -> (r: &'static str)
        ensures
            r@ == "start"@,
    {
        "start"
    }
}

impl Start for elements::Ol {}

/// Trait for the attribute `step`
pub trait Step: HtmlElement {
    /// The name of the attribute.
    fn attr() -> (r: &'static str)
        ensures
            r@ == "step"@,
    {
        "step"
    }
}

impl Step for elements::Input {}

/// Trait for the attribute `style`
pub trait Style: HtmlElement {
    /// The name of the attribute.
    fn attr() -> (r: &'static str)
        ensures
            r@ == "style"@,
    {
        "style"
    }
}

impl<T: HtmlElement> Style for T {}

/// Trait for the attribute `summary`
pub trait Summary: HtmlElement {
    /// The name of the attribute.
    fn attr() -> (r: &'static str)
        ensures
            r@ == "summary"@,
    {
        "summary"
    }
}

impl Summary for elements::Table {}

/// Trait for the attribute `tabindex`
pub trait Tabindex: HtmlElement {
    /// The name of the attribute.
    fn attr() -> (r: &'static str)
        ensures
            r@ == "tabindex"@,
    {
        "tabindex"
    }
}

impl<T: HtmlElement> Tabindex for T {}

/// Trait for the attribute `target`
pub trait Target: HtmlElement {
    /// The name of the attribute.
    fn attr() -> (r: &'static str)
        ensures
            r@ == "target"@,
    {
        "target"
    }
}

impl Target for elements::A {}
impl Target for elements::Area {}
impl Target for elements::Base {}
impl Target for elements::Form {}

/// Trait for the attribute `title`
pub trait Title: HtmlElement {
    /// The name of the attribute.
    fn attr() -> (r: &'static str)
        ensures
            r@ == "title"@,
    {
        "title"
    }
}

impl<T: HtmlElement> Title for T {}

/// Trait for the attribute `translate`
pub trait Translate: HtmlElement {
    /// The name of the attribute.
    fn attr() -> (r: &'static str)
        ensures
            r@ == "translate"@,
    {
        "translate"
    }
}

impl<T: HtmlElement> Translate for T {}

/// Trait for the attribute `type`
pub trait Type: HtmlElement {
    /// The name of the attribute.
    fn attr() -> (r: &'static str)
        ensures
            r@ == "type"@,
    {
        "type"
    }
}

impl Type for elements::Button {}
impl Type for elements::Input {}
impl Type for elements::Embed {}
impl Type for elements::Object {}
impl Type for elements::Script {}
impl Type for elements::Source {}
impl Type for elements::Style {}
impl Type for elements::Menu {}

/// Trait for the attribute `usemap`
pub trait Usemap: HtmlElement {
    /// The name of the attribute.
    fn attr() -> (r: &'static str)
        ensures
            r@ == "usemap"@,
    {
        "usemap"
    }
}

impl Usemap for elements::Img {}
impl Usemap for elements::Input {}
impl Usemap for elements::Object {}

/// Trait for the attribute `value`
pub trait Value: HtmlElement {
    /// The name of the attribute.
    fn attr() -> (r: &'static str)
        ensures
            r@ == "value"@,
    {
        "value"
    }
}

impl Value for elements::Button {}
impl Value for elements::Data {}
impl Value for elements::Input {}
impl Value for elements::Li {}
impl Value for elements::Meter {}
impl Value for elements::Option {}
impl Value for elements::Progress {}
impl Value for elements::Param {}

/// Trait for the attribute `width`
pub trait Width: HtmlElement {
    /// The name of the attribute.
    fn attr() -> (r: &'static str)
        ensures
            r@ == "width"@,
    {
        "width"
    }
}

impl Width for elements::Canvas {}
impl Width for elements::Embed {}
impl Width for elements::Iframe {}
impl Width for elements::Img {}
impl Width for elements::Input {}
impl Width for elements::Object {}
impl Width for elements::Video {}

/// Trait for the attribute `wrap`
pub trait Wrap: HtmlElement {
    /// The name of the attribute.
    fn attr() -> (r: &'static str)
        ensures
            r@ == "wrap"@,
    {
        "wrap"
    }
}

impl Wrap for elements::Textarea {}

} // verus!
