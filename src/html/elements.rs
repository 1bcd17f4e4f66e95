use vstd::prelude::*;

verus! {

/// An HTML element kind, named by its tag.
pub trait HtmlElement {
    /// The tag name, as a sequence of characters.
    spec fn spec_tag() -> Seq<char>;

    /// The tag of the element.
    fn tag() -> (r: &'static str)
        ensures
            r@ == Self::spec_tag(),
    ;
}

// Main root

/// HTML <html> element
pub struct Html;

impl HtmlElement for Html {
    open spec fn spec_tag() -> Seq<char> {
        "html"@
    }

    fn tag() -> (r: &'static str) {
        "html"
    }
}

// Document metadata

/// HTML <base> element
pub struct Base;

impl HtmlElement for Base {
    open spec fn spec_tag() -> Seq<char> {
        "base"@
    }

    fn tag() -> (r: &'static str) {
        "base"
    }
}

/// HTML <head> element
pub struct Head;

impl HtmlElement for Head {
    open spec fn spec_tag() -> Seq<char> {
        "head"@
    }

    fn tag() -> (r: &'static str) {
        "head"
    }
}

/// HTML <link> element
pub struct Link;

impl HtmlElement for Link {
    open spec fn spec_tag() -> Seq<char> {
        "link"@
    }

    fn tag() -> (r: &'static str) {
        "link"
    }
}

/// HTML <meta> element
pub struct Meta;

impl HtmlElement for Meta {
    open spec fn spec_tag() -> Seq<char> {
        "meta"@
    }

    fn tag() -> (r: &'static str) {
        "meta"
    }
}

/// HTML <style> element
pub struct Style;

impl HtmlElement for Style {
    open spec fn spec_tag() -> Seq<char> {
        "style"@
    }

    fn tag() -> (r: &'static str) {
        "style"
    }
}

/// HTML <title> element
pub struct Title;

impl HtmlElement for Title {
    open spec fn spec_tag() -> Seq<char> {
        "title"@
    }

    fn tag() -> (r: &'static str) {
        "title"
    }
}

// Sectioning root

/// HTML <body> element
pub struct Body;

impl HtmlElement for Body {
    open spec fn spec_tag() -> Seq<char> {
        "body"@
    }

    fn tag() -> (r: &'static str) {
        "body"
    }
}

// Content sectioning

/// HTML <address> element
pub struct Address;

impl HtmlElement for Address {
    open spec fn spec_tag() -> Seq<char> {
        "address"@
    }

    fn tag() -> (r: &'static str) {
        "address"
    }
}

/// HTML <article> element
pub struct Article;

impl HtmlElement for Article {
    open spec fn spec_tag() -> Seq<char> {
        "article"@
    }

    fn tag() -> (r: &'static str) {
        "article"
    }
}

/// HTML <aside> element
pub struct Aside;

impl HtmlElement for Aside {
    open spec fn spec_tag() -> Seq<char> {
        "aside"@
    }

    fn tag() -> (r: &'static str) {
        "aside"
    }
}

/// HTML <footer> element
pub struct Footer;

impl HtmlElement for Footer {
    open spec fn spec_tag() -> Seq<char> {
        "footer"@
    }

    fn tag() -> (r: &'static str) {
        "footer"
    }
}

/// HTML <header> element
pub struct Header;

impl HtmlElement for Header {
    open spec fn spec_tag() -> Seq<char> {
        "header"@
    }

    fn tag() -> (r: &'static str) {
        "header"
    }
}

/// HTML <h1> element
pub struct H1;

impl HtmlElement for H1 {
    open spec fn spec_tag() -> Seq<char> {
        "h1"@
    }

    fn tag() -> (r: &'static str) {
        "h1"
    }
}

/// HTML <h2> element
pub struct H2;

impl HtmlElement for H2 {
    open spec fn spec_tag() -> Seq<char> {
        "h2"@
    }

    fn tag() -> (r: &'static str) {
        "h2"
    }
}

/// HTML <h3> element
pub struct H3;

impl HtmlElement for H3 {
    open spec fn spec_tag() -> Seq<char> {
        "h3"@
    }

    fn tag() -> (r: &'static str) {
        "h3"
    }
}

/// HTML <h4> element
pub struct H4;

impl HtmlElement for H4 {
    open spec fn spec_tag() -> Seq<char> {
        "h4"@
    }

    fn tag() -> (r: &'static str) {
        "h4"
    }
}

/// HTML <h5> element
pub struct H5;

impl HtmlElement for H5 {
    open spec fn spec_tag() -> Seq<char> {
        "h5"@
    }

    fn tag() -> (r: &'static str) {
        "h5"
    }
}

/// HTML <h6> element
pub struct H6;

impl HtmlElement for H6 {
    open spec fn spec_tag() -> Seq<char> {
        "h6"@
    }

    fn tag() -> (r: &'static str) {
        "h6"
    }
}

/// HTML <hgroup> element
pub struct Hgroup;

impl HtmlElement for Hgroup {
    open spec fn spec_tag() -> Seq<char> {
        "hgroup"@
    }

    fn tag() -> (r: &'static str) {
        "hgroup"
    }
}

/// HTML <main> element
pub struct Main;

impl HtmlElement for Main {
    open spec fn spec_tag() -> Seq<char> {
        "main"@
    }

    fn tag() -> (r: &'static str) {
        "main"
    }
}

/// HTML <nav> element
pub struct Nav;

impl HtmlElement for Nav {
    open spec fn spec_tag() -> Seq<char> {
        "nav"@
    }

    fn tag() -> (r: &'static str) {
        "nav"
    }
}

/// HTML <section> element
pub struct Section;

impl HtmlElement for Section {
    open spec fn spec_tag() -> Seq<char> {
        "section"@
    }

    fn tag() -> (r: &'static str) {
        "section"
    }
}

// Text content

/// HTML <blockquote> element
pub struct Blockquote;

impl HtmlElement for Blockquote {
    open spec fn spec_tag() -> Seq<char> {
        "blockquote"@
    }

    fn tag() -> (r: &'static str) {
        "blockquote"
    }
}

/// HTML <dd> element
pub struct Dd;

impl HtmlElement for Dd {
    open spec fn spec_tag() -> Seq<char> {
        "dd"@
    }

    fn tag() -> (r: &'static str) {
        "dd"
    }
}

/// HTML <div> element
pub struct Div;

impl HtmlElement for Div {
    open spec fn spec_tag() -> Seq<char> {
        "div"@
    }

    fn tag() -> (r: &'static str) {
        "div"
    }
}

/// HTML <dl> element
pub struct Dl;

impl HtmlElement for Dl {
    open spec fn spec_tag() -> Seq<char> {
        "dl"@
    }

    fn tag() -> (r: &'static str) {
        "dl"
    }
}

/// HTML <dt> element
pub struct Dt;

impl HtmlElement for Dt {
    open spec fn spec_tag() -> Seq<char> {
        "dt"@
    }

    fn tag() -> (r: &'static str) {
        "dt"
    }
}

/// HTML <figcaption> element
pub struct Figcaption;

impl HtmlElement for Figcaption {
    open spec fn spec_tag() -> Seq<char> {
        "figcaption"@
    }

    fn tag() -> (r: &'static str) {
        "figcaption"
    }
}

/// HTML <figure> element
pub struct Figure;

impl HtmlElement for Figure {
    open spec fn spec_tag() -> Seq<char> {
        "figure"@
    }

    fn tag() -> (r: &'static str) {
        "figure"
    }
}

/// HTML <hr> element
pub struct Hr;

impl HtmlElement for Hr {
    open spec fn spec_tag() -> Seq<char> {
        "hr"@
    }

    fn tag() -> (r: &'static str) {
        "hr"
    }
}

/// HTML <li> element
pub struct Li;

impl HtmlElement for Li {
    open spec fn spec_tag() -> Seq<char> {
        "li"@
    }

    fn tag() -> (r: &'static str) {
        "li"
    }
}

/// HTML <ol> element
pub struct Ol;

impl HtmlElement for Ol {
    open spec fn spec_tag() -> Seq<char> {
        "ol"@
    }

    fn tag() -> (r: &'static str) {
        "ol"
    }
}

/// HTML <p> element
pub struct P;

impl HtmlElement for P {
    open spec fn spec_tag() -> Seq<char> {
        "p"@
    }

    fn tag() -> (r: &'static str) {
        "p"
    }
}

/// HTML <pre> element
pub struct Pre;

impl HtmlElement for Pre {
    open spec fn spec_tag() -> Seq<char> {
        "pre"@
    }

    fn tag() -> (r: &'static str) {
        "pre"
    }
}

/// HTML <ul> element
pub struct Ul;

impl HtmlElement for Ul {
    open spec fn spec_tag() -> Seq<char> {
        "ul"@
    }

    fn tag() -> (r: &'static str) {
        "ul"
    }
}

// Inline text semantics

/// HTML <a> element
pub struct A;

impl HtmlElement for A {
    open spec fn spec_tag() -> Seq<char> {
        "a"@
    }

    fn tag() -> (r: &'static str) {
        "a"
    }
}

/// HTML <abbr> element
pub struct Abbr;

impl HtmlElement for Abbr {
    open spec fn spec_tag() -> Seq<char> {
        "abbr"@
    }

    fn tag() -> (r: &'static str) {
        "abbr"
    }
}

/// HTML <b> element
pub struct B;

impl HtmlElement for B {
    open spec fn spec_tag() -> Seq<char> {
        "b"@
    }

    fn tag() -> (r: &'static str) {
        "b"
    }
}

/// HTML <bdi> element
pub struct Bdi;

impl HtmlElement for Bdi {
    open spec fn spec_tag() -> Seq<char> {
        "bdi"@
    }

    fn tag() -> (r: &'static str) {
        "bdi"
    }
}

/// HTML <bdo> element
pub struct Bdo;

impl HtmlElement for Bdo {
    open spec fn spec_tag() -> Seq<char> {
        "bdo"@
    }

    fn tag() -> (r: &'static str) {
        "bdo"
    }
}

/// HTML <br> element
pub struct Br;

impl HtmlElement for Br {
    open spec fn spec_tag() -> Seq<char> {
        "br"@
    }

    fn tag() -> (r: &'static str) {
        "br"
    }
}

/// HTML <cite> element
pub struct Cite;

impl HtmlElement for Cite {
    open spec fn spec_tag() -> Seq<char> {
        "cite"@
    }

    fn tag() -> (r: &'static str) {
        "cite"
    }
}

/// HTML <code> element
pub struct Code;

impl HtmlElement for Code {
    open spec fn spec_tag() -> Seq<char> {
        "code"@
    }

    fn tag() -> (r: &'static str) {
        "code"
    }
}

/// HTML <data> element
pub struct Data;

impl HtmlElement for Data {
    open spec fn spec_tag() -> Seq<char> {
        "data"@
    }

    fn tag() -> (r: &'static str) {
        "data"
    }
}

/// HTML <dfn> element
pub struct Dfn;

impl HtmlElement for Dfn {
    open spec fn spec_tag() -> Seq<char> {
        "dfn"@
    }

    fn tag() -> (r: &'static str) {
        "dfn"
    }
}

/// HTML <em> element
pub struct Em;

impl HtmlElement for Em {
    open spec fn spec_tag() -> Seq<char> {
        "em"@
    }

    fn tag() -> (r: &'static str) {
        "em"
    }
}

/// HTML <i> element
pub struct I;

impl HtmlElement for I {
    open spec fn spec_tag() -> Seq<char> {
        "i"@
    }

    fn tag() -> (r: &'static str) {
        "i"
    }
}

/// HTML <kbd> element
pub struct Kbd;

impl HtmlElement for Kbd {
    open spec fn spec_tag() -> Seq<char> {
        "kbd"@
    }

    fn tag() -> (r: &'static str) {
        "kbd"
    }
}

/// HTML <mark> element
pub struct Mark;

impl HtmlElement for Mark {
    open spec fn spec_tag() -> Seq<char> {
        "mark"@
    }

    fn tag() -> (r: &'static str) {
        "mark"
    }
}

/// HTML <q> element
pub struct Q;

impl HtmlElement for Q {
    open spec fn spec_tag() -> Seq<char> {
        "q"@
    }

    fn tag() -> (r: &'static str) {
        "q"
    }
}

/// HTML <rb> element
pub struct Rb;

impl HtmlElement for Rb {
    open spec fn spec_tag() -> Seq<char> {
        "rb"@
    }

    fn tag() -> (r: &'static str) {
        "rb"
    }
}

/// HTML <rp> element
pub struct Rp;

impl HtmlElement for Rp {
    open spec fn spec_tag() -> Seq<char> {
        "rp"@
    }

    fn tag() -> (r: &'static str) {
        "rp"
    }
}

/// HTML <rt> element
pub struct Rt;

impl HtmlElement for Rt {
    open spec fn spec_tag() -> Seq<char> {
        "rt"@
    }

    fn tag() -> (r: &'static str) {
        "rt"
    }
}

/// HTML <rtc> element
pub struct Rtc;

impl HtmlElement for Rtc {
    open spec fn spec_tag() -> Seq<char> {
        "rtc"@
    }

    fn tag() -> (r: &'static str) {
        "rtc"
    }
}

/// HTML <ruby> element
pub struct Ruby;

impl HtmlElement for Ruby {
    open spec fn spec_tag() -> Seq<char> {
        "ruby"@
    }

    fn tag() -> (r: &'static str) {
        "ruby"
    }
}

/// HTML <s> element
pub struct S;

impl HtmlElement for S {
    open spec fn spec_tag() -> Seq<char> {
        "s"@
    }

    fn tag() -> (r: &'static str) {
        "s"
    }
}

/// HTML <samp> element
pub struct Samp;

impl HtmlElement for Samp {
    open spec fn spec_tag() -> Seq<char> {
        "samp"@
    }

    fn tag() -> (r: &'static str) {
        "samp"
    }
}

/// HTML <small> element
pub struct Small;

impl HtmlElement for Small {
    open spec fn spec_tag() -> Seq<char> {
        "small"@
    }

    fn tag() -> (r: &'static str) {
        "small"
    }
}

/// HTML <span> element
pub struct Span;

impl HtmlElement for Span {
    open spec fn spec_tag() -> Seq<char> {
        "span"@
    }

    fn tag() -> (r: &'static str) {
        "span"
    }
}

/// HTML <strong> element
pub struct Strong;

impl HtmlElement for Strong {
    open spec fn spec_tag() -> Seq<char> {
        "strong"@
    }

    fn tag() -> (r: &'static str) {
        "strong"
    }
}

/// HTML <sub> element
pub struct Sub;

impl HtmlElement for Sub {
    open spec fn spec_tag() -> Seq<char> {
        "sub"@
    }

    fn tag() -> (r: &'static str) {
        "sub"
    }
}

/// HTML <sup> element
pub struct Sup;

impl HtmlElement for Sup {
    open spec fn spec_tag() -> Seq<char> {
        "sup"@
    }

    fn tag() -> (r: &'static str) {
        "sup"
    }
}

/// HTML <time> element
pub struct Time;

impl HtmlElement for Time {
    open spec fn spec_tag() -> Seq<char> {
        "time"@
    }

    fn tag() -> (r: &'static str) {
        "time"
    }
}

/// HTML <u> element
pub struct U;

impl HtmlElement for U {
    open spec fn spec_tag() -> Seq<char> {
        "u"@
    }

    fn tag() -> (r: &'static str) {
        "u"
    }
}

/// HTML <var> element
pub struct Var;

impl HtmlElement for Var {
    open spec fn spec_tag() -> Seq<char> {
        "var"@
    }

    fn tag() -> (r: &'static str) {
        "var"
    }
}

/// HTML <wbr> element
pub struct Wbr;

impl HtmlElement for Wbr {
    open spec fn spec_tag() -> Seq<char> {
        "wbr"@
    }

    fn tag() -> (r: &'static str) {
        "wbr"
    }
}

// Image and multimedia

/// HTML <area> element
pub struct Area;

impl HtmlElement for Area {
    open spec fn spec_tag() -> Seq<char> {
        "area"@
    }

    fn tag() -> (r: &'static str) {
        "area"
    }
}

/// HTML <audio> element
pub struct Audio;

impl HtmlElement for Audio {
    open spec fn spec_tag() -> Seq<char> {
        "audio"@
    }

    fn tag() -> (r: &'static str) {
        "audio"
    }
}

/// HTML <img> element
pub struct Img;

impl HtmlElement for Img {
    open spec fn spec_tag() -> Seq<char> {
        "img"@
    }

    fn tag() -> (r: &'static str) {
        "img"
    }
}

/// HTML <map> element
pub struct ImageMap;

impl HtmlElement for ImageMap {
    open spec fn spec_tag() -> Seq<char> {
        "map"@
    }

    fn tag() -> (r: &'static str) {
        "map"
    }
}

/// HTML <track> element
pub struct Track;

impl HtmlElement for Track {
    open spec fn spec_tag() -> Seq<char> {
        "track"@
    }

    fn tag() -> (r: &'static str) {
        "track"
    }
}

/// HTML <video> element
pub struct Video;

impl HtmlElement for Video {
    open spec fn spec_tag() -> Seq<char> {
        "video"@
    }

    fn tag() -> (r: &'static str) {
        "video"
    }
}

// Embedded content

/// HTML <embed> element
pub struct Embed;

impl HtmlElement for Embed {
    open spec fn spec_tag() -> Seq<char> {
        "embed"@
    }

    fn tag() -> (r: &'static str) {
        "embed"
    }
}

/// HTML <iframe> element
pub struct Iframe;

impl HtmlElement for Iframe {
    open spec fn spec_tag() -> Seq<char> {
        "iframe"@
    }

    fn tag() -> (r: &'static str) {
        "iframe"
    }
}

/// HTML <object> element
pub struct Object;

impl HtmlElement for Object {
    open spec fn spec_tag() -> Seq<char> {
        "object"@
    }

    fn tag() -> (r: &'static str) {
        "object"
    }
}

/// HTML <param> element
pub struct Param;

impl HtmlElement for Param {
    open spec fn spec_tag() -> Seq<char> {
        "param"@
    }

    fn tag() -> (r: &'static str) {
        "param"
    }
}

/// HTML <picture> element
pub struct Picture;

impl HtmlElement for Picture {
    open spec fn spec_tag() -> Seq<char> {
        "picture"@
    }

    fn tag() -> (r: &'static str) {
        "picture"
    }
}

/// HTML <source> element
pub struct Source;

impl HtmlElement for Source {
    open spec fn spec_tag() -> Seq<char> {
        "source"@
    }

    fn tag() -> (r: &'static str) {
        "source"
    }
}

// Scripting

/// HTML <canvas> element
pub struct Canvas;

impl HtmlElement for Canvas {
    open spec fn spec_tag() -> Seq<char> {
        "canvas"@
    }

    fn tag() -> (r: &'static str) {
        "canvas"
    }
}

/// HTML <noscript> element
pub struct Noscript;

impl HtmlElement for Noscript {
    open spec fn spec_tag() -> Seq<char> {
        "noscript"@
    }

    fn tag() -> (r: &'static str) {
        "noscript"
    }
}

/// HTML <script> element
pub struct Script;

impl HtmlElement for Script {
    open spec fn spec_tag() -> Seq<char> {
        "script"@
    }

    fn tag() -> (r: &'static str) {
        "script"
    }
}

// Demarcating edits

/// HTML <del> element
pub struct Del;

impl HtmlElement for Del {
    open spec fn spec_tag() -> Seq<char> {
        "del"@
    }

    fn tag() -> (r: &'static str) {
        "del"
    }
}

/// HTML <ins> element
pub struct Ins;

impl HtmlElement for Ins {
    open spec fn spec_tag() -> Seq<char> {
        "ins"@
    }

    fn tag() -> (r: &'static str) {
        "ins"
    }
}

// Table content

/// HTML <caption> element
pub struct Caption;

impl HtmlElement for Caption {
    open spec fn spec_tag() -> Seq<char> {
        "caption"@
    }

    fn tag() -> (r: &'static str) {
        "caption"
    }
}

/// HTML <col> element
pub struct Col;

impl HtmlElement for Col {
    open spec fn spec_tag() -> Seq<char> {
        "col"@
    }

    fn tag() -> (r: &'static str) {
        "col"
    }
}

/// HTML <colgroup> element
pub struct Colgroup;

impl HtmlElement for Colgroup {
    open spec fn spec_tag() -> Seq<char> {
        "colgroup"@
    }

    fn tag() -> (r: &'static str) {
        "colgroup"
    }
}

/// HTML <table> element
pub struct Table;

impl HtmlElement for Table {
    open spec fn spec_tag() -> Seq<char> {
        "table"@
    }

    fn tag() -> (r: &'static str) {
        "table"
    }
}

/// HTML <tbody> element
pub struct Tbody;

impl HtmlElement for Tbody {
    open spec fn spec_tag() -> Seq<char> {
        "tbody"@
    }

    fn tag() -> (r: &'static str) {
        "tbody"
    }
}

/// HTML <td> element
pub struct Td;

impl HtmlElement for Td {
    open spec fn spec_tag() -> Seq<char> {
        "td"@
    }

    fn tag() -> (r: &'static str) {
        "td"
    }
}

/// HTML <tfoot> element
pub struct Tfoot;

impl HtmlElement for Tfoot {
    open spec fn spec_tag() -> Seq<char> {
        "tfoot"@
    }

    fn tag() -> (r: &'static str) {
        "tfoot"
    }
}

/// HTML <th> element
pub struct Th;

impl HtmlElement for Th {
    open spec fn spec_tag() -> Seq<char> {
        "th"@
    }

    fn tag() -> (r: &'static str) {
        "th"
    }
}

/// HTML <thead> element
pub struct Thead;

impl HtmlElement for Thead {
    open spec fn spec_tag() -> Seq<char> {
        "thead"@
    }

    fn tag() -> (r: &'static str) {
        "thead"
    }
}

/// HTML <tr> element
pub struct Tr;

impl HtmlElement for Tr {
    open spec fn spec_tag() -> Seq<char> {
        "tr"@
    }

    fn tag() -> (r: &'static str) {
        "tr"
    }
}

// Forms

/// HTML <button> element
pub struct Button;

impl HtmlElement for Button {
    open spec fn spec_tag() -> Seq<char> {
        "button"@
    }

    fn tag() -> (r: &'static str) {
        "button"
    }
}

/// HTML <datalist> element
pub struct Datalist;

impl HtmlElement for Datalist {
    open spec fn spec_tag() -> Seq<char> {
        "datalist"@
    }

    fn tag() -> (r: &'static str) {
        "datalist"
    }
}

/// HTML <fieldset> element
pub struct Fieldset;

impl HtmlElement for Fieldset {
    open spec fn spec_tag() -> Seq<char> {
        "fieldset"@
    }

    fn tag() -> (r: &'static str) {
        "fieldset"
    }
}

/// HTML <form> element
pub struct Form;

impl HtmlElement for Form {
    open spec fn spec_tag() -> Seq<char> {
        "form"@
    }

    fn tag() -> (r: &'static str) {
        "form"
    }
}

/// HTML <input> element
pub struct Input;

impl HtmlElement for Input {
    open spec fn spec_tag() -> Seq<char> {
        "input"@
    }

    fn tag() -> (r: &'static str) {
        "input"
    }
}

/// HTML <label> element
pub struct Label;

impl HtmlElement for Label {
    open spec fn spec_tag() -> Seq<char> {
        "label"@
    }

    fn tag() -> (r: &'static str) {
        "label"
    }
}

/// HTML <legend> element
pub struct Legend;

impl HtmlElement for Legend {
    open spec fn spec_tag() -> Seq<char> {
        "legend"@
    }

    fn tag() -> (r: &'static str) {
        "legend"
    }
}

/// HTML <meter> element
pub struct Meter;

impl HtmlElement for Meter {
    open spec fn spec_tag() -> Seq<char> {
        "meter"@
    }

    fn tag() -> (r: &'static str) {
        "meter"
    }
}

/// HTML <optgroup> element
pub struct Optgroup;

impl HtmlElement for Optgroup {
    open spec fn spec_tag() -> Seq<char> {
        "optgroup"@
    }

    fn tag() -> (r: &'static str) {
        "optgroup"
    }
}

/// HTML <option> element
pub struct Option;

impl HtmlElement for Option {
    open spec fn spec_tag() -> Seq<char> {
        "option"@
    }

    fn tag() -> (r: &'static str) {
        "option"
    }
}

/// HTML <output> element
pub struct Output;

impl HtmlElement for Output {
    open spec fn spec_tag() -> Seq<char> {
        "output"@
    }

    fn tag() -> (r: &'static str) {
        "output"
    }
}

/// HTML <progress> element
pub struct Progress;

impl HtmlElement for Progress {
    open spec fn spec_tag() -> Seq<char> {
        "progress"@
    }

    fn tag() -> (r: &'static str) {
        "progress"
    }
}

/// HTML <select> element
pub struct Select;

impl HtmlElement for Select {
    open spec fn spec_tag() -> Seq<char> {
        "select"@
    }

    fn tag() -> (r: &'static str) {
        "select"
    }
}

/// HTML <textarea> element
pub struct Textarea;

impl HtmlElement for Textarea {
    open spec fn spec_tag() -> Seq<char> {
        "textarea"@
    }

    fn tag() -> (r: &'static str) {
        "textarea"
    }
}

// Interactive elements

/// HTML <details> element
pub struct Details;

impl HtmlElement for Details {
    open spec fn spec_tag() -> Seq<char> {
        "details"@
    }

    fn tag() -> (r: &'static str) {
        "details"
    }
}

/// HTML <dialog> element
pub struct Dialog;

impl HtmlElement for Dialog {
    open spec fn spec_tag() -> Seq<char> {
        "dialog"@
    }

    fn tag() -> (r: &'static str) {
        "dialog"
    }
}

/// HTML <menu> element
pub struct Menu;

impl HtmlElement for Menu {
    open spec fn spec_tag() -> Seq<char> {
        "menu"@
    }

    fn tag() -> (r: &'static str) {
        "menu"
    }
}

/// HTML <summary> element
pub struct Summary;

impl HtmlElement for Summary {
    open spec fn spec_tag() -> Seq<char> {
        "summary"@
    }

    fn tag() -> (r: &'static str) {
        "summary"
    }
}

// Web Components

/// HTML <slot> element
pub struct Slot;

impl HtmlElement for Slot {
    open spec fn spec_tag() -> Seq<char> {
        "slot"@
    }

    fn tag() -> (r: &'static str) {
        "slot"
    }
}

/// HTML <template> element
pub struct Template;

impl HtmlElement for Template {
    open spec fn spec_tag() -> Seq<char> {
        "template"@
    }

    fn tag() -> (r: &'static str) {
        "template"
    }
}

} // verus!
