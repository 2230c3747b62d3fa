//! The schema data: every known tag, drawn from the table of elements of
//! the HTML standard ("Index" section,
//! <https://html.spec.whatwg.org/#elements-3>), simplified: no `svg`,
//! MathML or custom elements, special-rule footnotes dropped, and some
//! category and child entries reduced. Entries go in through the
//! sorted-insert operation, so the finished table carries the sortedness
//! invariant that lookup relies on, whatever order the lines below are
//! in.

use vstd::prelude::*;
use vstd::string::StrSliceExecFns;

use crate::schema::{ChildRule, ContentModel, Schema, TagInfo};

verus! {

/// The default global attribute allow-list: attributes accepted on every
/// tag. Which attributes count as global is a configuration decision;
/// this list covers the common ones. A caller with other needs builds a
/// `Schema` through `Schema::empty` with its own list.
pub fn default_globals() -> (r: Vec<Vec<u8>>) {
    vec![
        "accesskey".as_bytes_vec(),
        "autocapitalize".as_bytes_vec(),
        "autofocus".as_bytes_vec(),
        "class".as_bytes_vec(),
        "contenteditable".as_bytes_vec(),
        "dir".as_bytes_vec(),
        "draggable".as_bytes_vec(),
        "enterkeyhint".as_bytes_vec(),
        "hidden".as_bytes_vec(),
        "id".as_bytes_vec(),
        "inputmode".as_bytes_vec(),
        "is".as_bytes_vec(),
        "itemid".as_bytes_vec(),
        "itemprop".as_bytes_vec(),
        "itemref".as_bytes_vec(),
        "itemscope".as_bytes_vec(),
        "itemtype".as_bytes_vec(),
        "lang".as_bytes_vec(),
        "nonce".as_bytes_vec(),
        "slot".as_bytes_vec(),
        "spellcheck".as_bytes_vec(),
        "style".as_bytes_vec(),
        "tabindex".as_bytes_vec(),
        "title".as_bytes_vec(),
        "translate".as_bytes_vec(),
    ]
}

/// The full schema: the tag table under the default global allow-list.
pub fn standard_schema() -> (r: Schema)
    ensures
        r.wf(),
{
    let mut s = Schema::empty(default_globals());

    fill_tags_0(&mut s);
    fill_tags_1(&mut s);
    fill_tags_2(&mut s);
    fill_tags_3(&mut s);
    fill_tags_4(&mut s);
    fill_tags_5(&mut s);
    fill_tags_6(&mut s);
    s
}

/// The entries `a` through `canvas`.
fn fill_tags_0(s: &mut Schema)
    requires
        old(s).wf(),
    ensures
        final(s).wf(),
{
    s.insert_tag(TagInfo {
        name: "a".as_bytes_vec(),
        ty: "HtmlAnchorElement".as_bytes_vec(),
        categories: vec![ContentModel::Flow, ContentModel::Phrasing, ContentModel::Interactive],
        children: vec![ChildRule::Transparent],
        attributes: vec![
                        "href".as_bytes_vec(),
                        "target".as_bytes_vec(),
                        "download".as_bytes_vec(),
                        "ping".as_bytes_vec(),
                        "rel".as_bytes_vec(),
                        "hreflang".as_bytes_vec(),
                        "type".as_bytes_vec(),
                        "referrerpolicy".as_bytes_vec(),
                    ],
    });
    s.insert_tag(TagInfo {
        name: "abbr".as_bytes_vec(),
        ty: "HtmlElement".as_bytes_vec(),
        categories: vec![ContentModel::Flow, ContentModel::Phrasing],
        children: vec![ChildRule::Model { model: ContentModel::Phrasing }],
        attributes: Vec::new(),
    });
    s.insert_tag(TagInfo {
        name: "address".as_bytes_vec(),
        ty: "HtmlElement".as_bytes_vec(),
        categories: vec![ContentModel::Flow],
        children: vec![ChildRule::Model { model: ContentModel::Flow }],
        attributes: Vec::new(),
    });
    s.insert_tag(TagInfo {
        name: "area".as_bytes_vec(),
        ty: "HtmlAreaElement".as_bytes_vec(),
        categories: vec![ContentModel::Flow, ContentModel::Phrasing],
        children: Vec::new(),
        attributes: vec![
                        "alt".as_bytes_vec(),
                        "coords".as_bytes_vec(),
                        "shape".as_bytes_vec(),
                        "href".as_bytes_vec(),
                        "target".as_bytes_vec(),
                        "download".as_bytes_vec(),
                        "ping".as_bytes_vec(),
                        "rel".as_bytes_vec(),
                        "referrerpolicy".as_bytes_vec(),
                    ],
    });
    s.insert_tag(TagInfo {
        name: "article".as_bytes_vec(),
        ty: "HtmlElement".as_bytes_vec(),
        categories: vec![ContentModel::Flow, ContentModel::Sectioning],
        children: vec![ChildRule::Model { model: ContentModel::Flow }],
        attributes: Vec::new(),
    });
    s.insert_tag(TagInfo {
        name: "aside".as_bytes_vec(),
        ty: "HtmlElement".as_bytes_vec(),
        categories: vec![ContentModel::Flow, ContentModel::Sectioning],
        children: vec![ChildRule::Model { model: ContentModel::Flow }],
        attributes: Vec::new(),
    });
    s.insert_tag(TagInfo {
        name: "audio".as_bytes_vec(),
        ty: "HtmlAudioElement".as_bytes_vec(),
        categories: vec![
                        ContentModel::Flow,
                        ContentModel::Phrasing,
                        ContentModel::Embedded,
                        ContentModel::Interactive,
                    ],
        children: vec![
                      ChildRule::Tag { name: "source".as_bytes_vec() },
                      ChildRule::Tag { name: "track".as_bytes_vec() },
                      ChildRule::Transparent,
                  ],
        attributes: vec![
                        "src".as_bytes_vec(),
                        "crossorigin".as_bytes_vec(),
                        "preload".as_bytes_vec(),
                        "autoplay".as_bytes_vec(),
                        "loop".as_bytes_vec(),
                        "muted".as_bytes_vec(),
                        "controls".as_bytes_vec(),
                    ],
    });
    s.insert_tag(TagInfo {
        name: "b".as_bytes_vec(),
        ty: "HtmlElement".as_bytes_vec(),
        categories: vec![ContentModel::Flow, ContentModel::Phrasing],
        children: vec![ChildRule::Model { model: ContentModel::Phrasing }],
        attributes: Vec::new(),
    });
    s.insert_tag(TagInfo {
        name: "base".as_bytes_vec(),
        ty: "HtmlBaseElement".as_bytes_vec(),
        categories: vec![ContentModel::Metadata],
        children: Vec::new(),
        attributes: vec!["href".as_bytes_vec(), "target".as_bytes_vec()],
    });
    s.insert_tag(TagInfo {
        name: "bdi".as_bytes_vec(),
        ty: "HtmlElement".as_bytes_vec(),
        categories: vec![ContentModel::Flow, ContentModel::Phrasing],
        children: vec![ChildRule::Model { model: ContentModel::Phrasing }],
        attributes: Vec::new(),
    });
    s.insert_tag(TagInfo {
        name: "bdo".as_bytes_vec(),
        ty: "HtmlElement".as_bytes_vec(),
        categories: vec![ContentModel::Flow, ContentModel::Phrasing],
        children: vec![ChildRule::Model { model: ContentModel::Phrasing }],
        attributes: Vec::new(),
    });
    s.insert_tag(TagInfo {
        name: "blockquote".as_bytes_vec(),
        ty: "HtmlQuoteElement".as_bytes_vec(),
        categories: vec![ContentModel::Flow],
        children: vec![ChildRule::Model { model: ContentModel::Flow }],
        attributes: vec!["cite".as_bytes_vec()],
    });
    s.insert_tag(TagInfo {
        name: "body".as_bytes_vec(),
        ty: "HtmlBodyElement".as_bytes_vec(),
        categories: Vec::new(),
        children: vec![ChildRule::Model { model: ContentModel::Flow }],
        attributes: vec![
                        "onafterprint".as_bytes_vec(),
                        "onbeforeprint".as_bytes_vec(),
                        "onbeforeunload".as_bytes_vec(),
                        "onhashchange".as_bytes_vec(),
                        "onlanguagechange".as_bytes_vec(),
                        "onmessage".as_bytes_vec(),
                        "onmessageerror".as_bytes_vec(),
                        "onoffline".as_bytes_vec(),
                        "ononline".as_bytes_vec(),
                        "onpagehide".as_bytes_vec(),
                        "onpageshow".as_bytes_vec(),
                        "onpopstate".as_bytes_vec(),
                        "onrejectionhandled".as_bytes_vec(),
                        "onstorage".as_bytes_vec(),
                        "onunhandledrejection".as_bytes_vec(),
                        "onunload".as_bytes_vec(),
                    ],
    });
    s.insert_tag(TagInfo {
        name: "br".as_bytes_vec(),
        ty: "HtmlBRElement".as_bytes_vec(),
        categories: vec![ContentModel::Flow, ContentModel::Phrasing],
        children: Vec::new(),
        attributes: Vec::new(),
    });
    s.insert_tag(TagInfo {
        name: "button".as_bytes_vec(),
        ty: "HtmlButtonElement".as_bytes_vec(),
        categories: vec![ContentModel::Flow, ContentModel::Phrasing, ContentModel::Interactive],
        children: vec![ChildRule::Model { model: ContentModel::Phrasing }],
        attributes: vec![
                        "disabled".as_bytes_vec(),
                        "form".as_bytes_vec(),
                        "formaction".as_bytes_vec(),
                        "formenctype".as_bytes_vec(),
                        "formmethod".as_bytes_vec(),
                        "formnovalidate".as_bytes_vec(),
                        "formtarget".as_bytes_vec(),
                        "name".as_bytes_vec(),
                        "type".as_bytes_vec(),
                        "value".as_bytes_vec(),
                    ],
    });
    s.insert_tag(TagInfo {
        name: "canvas".as_bytes_vec(),
        ty: "HtmlCanvasElement".as_bytes_vec(),
        categories: vec![ContentModel::Flow, ContentModel::Phrasing, ContentModel::Embedded],
        children: vec![ChildRule::Transparent],
        attributes: vec!["width".as_bytes_vec(), "height".as_bytes_vec()],
    });
}

/// The entries `caption` through `em`.
fn fill_tags_1(s: &mut Schema)
    requires
        old(s).wf(),
    ensures
        final(s).wf(),
{
    s.insert_tag(TagInfo {
        name: "caption".as_bytes_vec(),
        ty: "HtmlTableCaptionElement".as_bytes_vec(),
        categories: Vec::new(),
        children: vec![ChildRule::Model { model: ContentModel::Flow }],
        attributes: Vec::new(),
    });
    s.insert_tag(TagInfo {
        name: "cite".as_bytes_vec(),
        ty: "HtmlElement".as_bytes_vec(),
        categories: vec![ContentModel::Flow, ContentModel::Phrasing],
        children: vec![ChildRule::Model { model: ContentModel::Phrasing }],
        attributes: Vec::new(),
    });
    s.insert_tag(TagInfo {
        name: "code".as_bytes_vec(),
        ty: "HtmlElement".as_bytes_vec(),
        categories: vec![ContentModel::Flow, ContentModel::Phrasing],
        children: vec![ChildRule::Model { model: ContentModel::Phrasing }],
        attributes: Vec::new(),
    });
    s.insert_tag(TagInfo {
        name: "col".as_bytes_vec(),
        ty: "HtmlTableColElement".as_bytes_vec(),
        categories: Vec::new(),
        children: Vec::new(),
        attributes: vec!["span".as_bytes_vec()],
    });
    s.insert_tag(TagInfo {
        name: "colgroup".as_bytes_vec(),
        ty: "HtmlTableColElement".as_bytes_vec(),
        categories: Vec::new(),
        children: vec![
                      ChildRule::Tag { name: "col".as_bytes_vec() },
                      ChildRule::Tag { name: "template".as_bytes_vec() },
                  ],
        attributes: vec!["span".as_bytes_vec()],
    });
    s.insert_tag(TagInfo {
        name: "data".as_bytes_vec(),
        ty: "HtmlDataElement".as_bytes_vec(),
        categories: vec![ContentModel::Flow, ContentModel::Phrasing],
        children: vec![ChildRule::Model { model: ContentModel::Phrasing }],
        attributes: vec!["value".as_bytes_vec()],
    });
    s.insert_tag(TagInfo {
        name: "datalist".as_bytes_vec(),
        ty: "HtmlDataListElement".as_bytes_vec(),
        categories: vec![ContentModel::Flow, ContentModel::Phrasing],
        children: vec![
                      ChildRule::Model { model: ContentModel::Phrasing },
                      ChildRule::Tag { name: "option".as_bytes_vec() },
                  ],
        attributes: Vec::new(),
    });
    s.insert_tag(TagInfo {
        name: "dd".as_bytes_vec(),
        ty: "HtmlElement".as_bytes_vec(),
        categories: Vec::new(),
        children: vec![ChildRule::Model { model: ContentModel::Flow }],
        attributes: Vec::new(),
    });
    s.insert_tag(TagInfo {
        name: "del".as_bytes_vec(),
        ty: "HtmlModElement".as_bytes_vec(),
        categories: vec![ContentModel::Flow, ContentModel::Phrasing],
        children: vec![ChildRule::Transparent],
        attributes: vec!["cite".as_bytes_vec(), "datetime".as_bytes_vec()],
    });
    s.insert_tag(TagInfo {
        name: "details".as_bytes_vec(),
        ty: "HtmlDetailsElement".as_bytes_vec(),
        categories: vec![ContentModel::Flow, ContentModel::Interactive],
        children: vec![
                      ChildRule::Tag { name: "summary".as_bytes_vec() },
                      ChildRule::Model { model: ContentModel::Flow },
                  ],
        attributes: vec!["open".as_bytes_vec()],
    });
    s.insert_tag(TagInfo {
        name: "dfn".as_bytes_vec(),
        ty: "HtmlElement".as_bytes_vec(),
        categories: vec![ContentModel::Flow, ContentModel::Phrasing],
        children: vec![ChildRule::Model { model: ContentModel::Phrasing }],
        attributes: Vec::new(),
    });
    s.insert_tag(TagInfo {
        name: "dialog".as_bytes_vec(),
        ty: "HtmlDialogElement".as_bytes_vec(),
        categories: vec![ContentModel::Flow],
        children: vec![ChildRule::Model { model: ContentModel::Flow }],
        attributes: vec!["open".as_bytes_vec()],
    });
    s.insert_tag(TagInfo {
        name: "div".as_bytes_vec(),
        ty: "HtmlDivElement".as_bytes_vec(),
        categories: vec![ContentModel::Flow],
        children: vec![ChildRule::Model { model: ContentModel::Flow }],
        attributes: Vec::new(),
    });
    s.insert_tag(TagInfo {
        name: "dl".as_bytes_vec(),
        ty: "HtmlDListElement".as_bytes_vec(),
        categories: vec![ContentModel::Flow],
        children: vec![
                      ChildRule::Tag { name: "dt".as_bytes_vec() },
                      ChildRule::Tag { name: "dd".as_bytes_vec() },
                      ChildRule::Tag { name: "div".as_bytes_vec() },
                  ],
        attributes: Vec::new(),
    });
    s.insert_tag(TagInfo {
        name: "dt".as_bytes_vec(),
        ty: "HtmlElement".as_bytes_vec(),
        categories: Vec::new(),
        children: vec![ChildRule::Model { model: ContentModel::Flow }],
        attributes: Vec::new(),
    });
    s.insert_tag(TagInfo {
        name: "em".as_bytes_vec(),
        ty: "HtmlElement".as_bytes_vec(),
        categories: vec![ContentModel::Flow, ContentModel::Phrasing],
        children: vec![ChildRule::Model { model: ContentModel::Phrasing }],
        attributes: Vec::new(),
    });
}

/// The entries `embed` through `hr`.
fn fill_tags_2(s: &mut Schema)
    requires
        old(s).wf(),
    ensures
        final(s).wf(),
{
    s.insert_tag(TagInfo {
        name: "embed".as_bytes_vec(),
        ty: "HtmlEmbedElement".as_bytes_vec(),
        categories: vec![
                        ContentModel::Flow,
                        ContentModel::Phrasing,
                        ContentModel::Embedded,
                        ContentModel::Interactive,
                    ],
        children: Vec::new(),
        attributes: vec![
                        "src".as_bytes_vec(),
                        "type".as_bytes_vec(),
                        "width".as_bytes_vec(),
                        "height".as_bytes_vec(),
                        "any".as_bytes_vec(),
                    ],
    });
    s.insert_tag(TagInfo {
        name: "fieldset".as_bytes_vec(),
        ty: "HtmlFieldSetElement".as_bytes_vec(),
        categories: vec![ContentModel::Flow],
        children: vec![
                      ChildRule::Tag { name: "legend".as_bytes_vec() },
                      ChildRule::Model { model: ContentModel::Flow },
                  ],
        attributes: vec![
                        "disabled".as_bytes_vec(),
                        "form".as_bytes_vec(),
                        "name".as_bytes_vec(),
                    ],
    });
    s.insert_tag(TagInfo {
        name: "figcaption".as_bytes_vec(),
        ty: "HtmlElement".as_bytes_vec(),
        categories: Vec::new(),
        children: vec![ChildRule::Model { model: ContentModel::Flow }],
        attributes: Vec::new(),
    });
    s.insert_tag(TagInfo {
        name: "figure".as_bytes_vec(),
        ty: "HtmlElement".as_bytes_vec(),
        categories: vec![ContentModel::Flow],
        children: vec![
                      ChildRule::Tag { name: "figcaption".as_bytes_vec() },
                      ChildRule::Model { model: ContentModel::Flow },
                  ],
        attributes: Vec::new(),
    });
    s.insert_tag(TagInfo {
        name: "footer".as_bytes_vec(),
        ty: "HtmlElement".as_bytes_vec(),
        categories: vec![ContentModel::Flow],
        children: vec![ChildRule::Model { model: ContentModel::Flow }],
        attributes: Vec::new(),
    });
    s.insert_tag(TagInfo {
        name: "form".as_bytes_vec(),
        ty: "HtmlFormElement".as_bytes_vec(),
        categories: vec![ContentModel::Flow],
        children: vec![ChildRule::Model { model: ContentModel::Flow }],
        attributes: vec![
                        "action".as_bytes_vec(),
                        "autocomplete".as_bytes_vec(),
                        "enctype".as_bytes_vec(),
                        "method".as_bytes_vec(),
                        "name".as_bytes_vec(),
                        "novalidate".as_bytes_vec(),
                        "target".as_bytes_vec(),
                    ],
    });
    s.insert_tag(TagInfo {
        name: "h1".as_bytes_vec(),
        ty: "HtmlHeadingElement".as_bytes_vec(),
        categories: vec![ContentModel::Flow, ContentModel::Heading],
        children: vec![ChildRule::Model { model: ContentModel::Phrasing }],
        attributes: Vec::new(),
    });
    s.insert_tag(TagInfo {
        name: "h2".as_bytes_vec(),
        ty: "HtmlHeadingElement".as_bytes_vec(),
        categories: vec![ContentModel::Flow, ContentModel::Heading],
        children: vec![ChildRule::Model { model: ContentModel::Phrasing }],
        attributes: Vec::new(),
    });
    s.insert_tag(TagInfo {
        name: "h3".as_bytes_vec(),
        ty: "HtmlHeadingElement".as_bytes_vec(),
        categories: vec![ContentModel::Flow, ContentModel::Heading],
        children: vec![ChildRule::Model { model: ContentModel::Phrasing }],
        attributes: Vec::new(),
    });
    s.insert_tag(TagInfo {
        name: "h4".as_bytes_vec(),
        ty: "HtmlHeadingElement".as_bytes_vec(),
        categories: vec![ContentModel::Flow, ContentModel::Heading],
        children: vec![ChildRule::Model { model: ContentModel::Phrasing }],
        attributes: Vec::new(),
    });
    s.insert_tag(TagInfo {
        name: "h5".as_bytes_vec(),
        ty: "HtmlHeadingElement".as_bytes_vec(),
        categories: vec![ContentModel::Flow, ContentModel::Heading],
        children: vec![ChildRule::Model { model: ContentModel::Phrasing }],
        attributes: Vec::new(),
    });
    s.insert_tag(TagInfo {
        name: "h6".as_bytes_vec(),
        ty: "HtmlHeadingElement".as_bytes_vec(),
        categories: vec![ContentModel::Flow, ContentModel::Heading],
        children: vec![ChildRule::Model { model: ContentModel::Phrasing }],
        attributes: Vec::new(),
    });
    s.insert_tag(TagInfo {
        name: "head".as_bytes_vec(),
        ty: "HtmlHeadElement".as_bytes_vec(),
        categories: Vec::new(),
        children: vec![ChildRule::Model { model: ContentModel::Metadata }],
        attributes: Vec::new(),
    });
    s.insert_tag(TagInfo {
        name: "header".as_bytes_vec(),
        ty: "HtmlElement".as_bytes_vec(),
        categories: vec![ContentModel::Flow],
        children: vec![ChildRule::Model { model: ContentModel::Flow }],
        attributes: Vec::new(),
    });
    s.insert_tag(TagInfo {
        name: "hgroup".as_bytes_vec(),
        ty: "HtmlElement".as_bytes_vec(),
        categories: vec![ContentModel::Flow, ContentModel::Heading],
        children: vec![
                      ChildRule::Tag { name: "h1".as_bytes_vec() },
                      ChildRule::Tag { name: "h2".as_bytes_vec() },
                      ChildRule::Tag { name: "h3".as_bytes_vec() },
                      ChildRule::Tag { name: "h4".as_bytes_vec() },
                      ChildRule::Tag { name: "h5".as_bytes_vec() },
                      ChildRule::Tag { name: "h6".as_bytes_vec() },
                  ],
        attributes: Vec::new(),
    });
    s.insert_tag(TagInfo {
        name: "hr".as_bytes_vec(),
        ty: "HtmlHRElement".as_bytes_vec(),
        categories: vec![ContentModel::Flow],
        children: Vec::new(),
        attributes: Vec::new(),
    });
}

/// The entries `html` through `meta`.
fn fill_tags_3(s: &mut Schema)
    requires
        old(s).wf(),
    ensures
        final(s).wf(),
{
    s.insert_tag(TagInfo {
        name: "html".as_bytes_vec(),
        ty: "HtmlHtmlElement".as_bytes_vec(),
        categories: Vec::new(),
        children: vec![
                      ChildRule::Tag { name: "head".as_bytes_vec() },
                      ChildRule::Tag { name: "body".as_bytes_vec() },
                  ],
        attributes: vec!["manifest".as_bytes_vec()],
    });
    s.insert_tag(TagInfo {
        name: "i".as_bytes_vec(),
        ty: "HtmlElement".as_bytes_vec(),
        categories: vec![ContentModel::Flow, ContentModel::Phrasing],
        children: vec![ChildRule::Model { model: ContentModel::Phrasing }],
        attributes: Vec::new(),
    });
    s.insert_tag(TagInfo {
        name: "iframe".as_bytes_vec(),
        ty: "HtmlIFrameElement".as_bytes_vec(),
        categories: vec![
                        ContentModel::Flow,
                        ContentModel::Phrasing,
                        ContentModel::Embedded,
                        ContentModel::Interactive,
                    ],
        children: Vec::new(),
        attributes: vec![
                        "src".as_bytes_vec(),
                        "srcdoc".as_bytes_vec(),
                        "name".as_bytes_vec(),
                        "sandbox".as_bytes_vec(),
                        "allow".as_bytes_vec(),
                        "allowfullscreen".as_bytes_vec(),
                        "allowpaymentrequest".as_bytes_vec(),
                        "width".as_bytes_vec(),
                        "height".as_bytes_vec(),
                        "referrerpolicy".as_bytes_vec(),
                    ],
    });
    s.insert_tag(TagInfo {
        name: "img".as_bytes_vec(),
        ty: "HtmlImageElement".as_bytes_vec(),
        categories: vec![
                        ContentModel::Flow,
                        ContentModel::Phrasing,
                        ContentModel::Embedded,
                        ContentModel::Interactive,
                    ],
        children: Vec::new(),
        attributes: vec![
                        "alt".as_bytes_vec(),
                        "src".as_bytes_vec(),
                        "srcset".as_bytes_vec(),
                        "crossorigin".as_bytes_vec(),
                        "usemap".as_bytes_vec(),
                        "ismap".as_bytes_vec(),
                        "width".as_bytes_vec(),
                        "height".as_bytes_vec(),
                        "decoding".as_bytes_vec(),
                        "referrerpolicy".as_bytes_vec(),
                    ],
    });
    s.insert_tag(TagInfo {
        name: "input".as_bytes_vec(),
        ty: "HtmlInputElement".as_bytes_vec(),
        categories: vec![ContentModel::Flow, ContentModel::Phrasing, ContentModel::Interactive],
        children: Vec::new(),
        attributes: vec![
                        "accept".as_bytes_vec(),
                        "alt".as_bytes_vec(),
                        "autocomplete".as_bytes_vec(),
                        "checked".as_bytes_vec(),
                        "dirname".as_bytes_vec(),
                        "disabled".as_bytes_vec(),
                        "form".as_bytes_vec(),
                        "formaction".as_bytes_vec(),
                        "formenctype".as_bytes_vec(),
                        "formmethod".as_bytes_vec(),
                        "formnovalidate".as_bytes_vec(),
                        "formtarget".as_bytes_vec(),
                        "height".as_bytes_vec(),
                        "list".as_bytes_vec(),
                        "max".as_bytes_vec(),
                        "maxlength".as_bytes_vec(),
                        "min".as_bytes_vec(),
                        "minlength".as_bytes_vec(),
                        "multiple".as_bytes_vec(),
                        "name".as_bytes_vec(),
                        "pattern".as_bytes_vec(),
                        "placeholder".as_bytes_vec(),
                        "readonly".as_bytes_vec(),
                        "required".as_bytes_vec(),
                        "size".as_bytes_vec(),
                        "src".as_bytes_vec(),
                        "step".as_bytes_vec(),
                        "type".as_bytes_vec(),
                        "value".as_bytes_vec(),
                        "width".as_bytes_vec(),
                    ],
    });
    s.insert_tag(TagInfo {
        name: "ins".as_bytes_vec(),
        ty: "HtmlModElement".as_bytes_vec(),
        categories: vec![ContentModel::Flow, ContentModel::Phrasing],
        children: vec![ChildRule::Transparent],
        attributes: vec!["cite".as_bytes_vec(), "datetime".as_bytes_vec()],
    });
    s.insert_tag(TagInfo {
        name: "kbd".as_bytes_vec(),
        ty: "HtmlElement".as_bytes_vec(),
        categories: vec![ContentModel::Flow, ContentModel::Phrasing],
        children: vec![ChildRule::Model { model: ContentModel::Phrasing }],
        attributes: Vec::new(),
    });
    s.insert_tag(TagInfo {
        name: "label".as_bytes_vec(),
        ty: "HtmlLabelElement".as_bytes_vec(),
        categories: vec![ContentModel::Flow, ContentModel::Phrasing, ContentModel::Interactive],
        children: vec![ChildRule::Model { model: ContentModel::Phrasing }],
        attributes: vec!["for".as_bytes_vec()],
    });
    s.insert_tag(TagInfo {
        name: "legend".as_bytes_vec(),
        ty: "HtmlLegendElement".as_bytes_vec(),
        categories: Vec::new(),
        children: vec![ChildRule::Model { model: ContentModel::Phrasing }],
        attributes: Vec::new(),
    });
    s.insert_tag(TagInfo {
        name: "li".as_bytes_vec(),
        ty: "HtmlLIElement".as_bytes_vec(),
        categories: Vec::new(),
        children: vec![ChildRule::Model { model: ContentModel::Flow }],
        attributes: vec!["value".as_bytes_vec()],
    });
    s.insert_tag(TagInfo {
        name: "link".as_bytes_vec(),
        ty: "HtmlLinkElement".as_bytes_vec(),
        categories: vec![ContentModel::Metadata, ContentModel::Flow, ContentModel::Phrasing],
        children: Vec::new(),
        attributes: vec![
                        "href".as_bytes_vec(),
                        "crossorigin".as_bytes_vec(),
                        "rel".as_bytes_vec(),
                        "as".as_bytes_vec(),
                        "media".as_bytes_vec(),
                        "hreflang".as_bytes_vec(),
                        "type".as_bytes_vec(),
                        "sizes".as_bytes_vec(),
                        "imagesrcset".as_bytes_vec(),
                        "imagesizes".as_bytes_vec(),
                        "referrerpolicy".as_bytes_vec(),
                        "integrity".as_bytes_vec(),
                    ],
    });
    s.insert_tag(TagInfo {
        name: "main".as_bytes_vec(),
        ty: "HtmlElement".as_bytes_vec(),
        categories: vec![ContentModel::Flow],
        children: vec![ChildRule::Model { model: ContentModel::Flow }],
        attributes: Vec::new(),
    });
    s.insert_tag(TagInfo {
        name: "map".as_bytes_vec(),
        ty: "HtmlMapElement".as_bytes_vec(),
        categories: vec![ContentModel::Flow, ContentModel::Phrasing],
        children: vec![ChildRule::Transparent, ChildRule::Tag { name: "area".as_bytes_vec() }],
        attributes: vec!["name".as_bytes_vec()],
    });
    s.insert_tag(TagInfo {
        name: "mark".as_bytes_vec(),
        ty: "HtmlElement".as_bytes_vec(),
        categories: vec![ContentModel::Flow, ContentModel::Phrasing],
        children: vec![ChildRule::Model { model: ContentModel::Phrasing }],
        attributes: Vec::new(),
    });
    s.insert_tag(TagInfo {
        name: "menu".as_bytes_vec(),
        ty: "HtmlMenuElement".as_bytes_vec(),
        categories: vec![ContentModel::Flow],
        children: vec![ChildRule::Tag { name: "li".as_bytes_vec() }],
        attributes: Vec::new(),
    });
    s.insert_tag(TagInfo {
        name: "meta".as_bytes_vec(),
        ty: "HtmlMetaElement".as_bytes_vec(),
        categories: vec![ContentModel::Metadata, ContentModel::Flow, ContentModel::Phrasing],
        children: Vec::new(),
        attributes: vec![
                        "name".as_bytes_vec(),
                        "content".as_bytes_vec(),
                        "charset".as_bytes_vec(),
                    ],
    });
}

/// The entries `meter` through `rt`.
fn fill_tags_4(s: &mut Schema)
    requires
        old(s).wf(),
    ensures
        final(s).wf(),
{
    s.insert_tag(TagInfo {
        name: "meter".as_bytes_vec(),
        ty: "HtmlMeterElement".as_bytes_vec(),
        categories: vec![ContentModel::Flow, ContentModel::Phrasing],
        children: vec![ChildRule::Model { model: ContentModel::Phrasing }],
        attributes: vec![
                        "value".as_bytes_vec(),
                        "min".as_bytes_vec(),
                        "max".as_bytes_vec(),
                        "low".as_bytes_vec(),
                        "high".as_bytes_vec(),
                        "optimum".as_bytes_vec(),
                    ],
    });
    s.insert_tag(TagInfo {
        name: "nav".as_bytes_vec(),
        ty: "HtmlElement".as_bytes_vec(),
        categories: vec![ContentModel::Flow, ContentModel::Sectioning],
        children: vec![ChildRule::Model { model: ContentModel::Flow }],
        attributes: Vec::new(),
    });
    s.insert_tag(TagInfo {
        name: "noscript".as_bytes_vec(),
        ty: "HtmlElement".as_bytes_vec(),
        categories: vec![ContentModel::Metadata, ContentModel::Flow, ContentModel::Phrasing],
        children: Vec::new(),
        attributes: Vec::new(),
    });
    s.insert_tag(TagInfo {
        name: "object".as_bytes_vec(),
        ty: "HtmlObjectElement".as_bytes_vec(),
        categories: vec![
                        ContentModel::Flow,
                        ContentModel::Phrasing,
                        ContentModel::Embedded,
                        ContentModel::Interactive,
                    ],
        children: vec![ChildRule::Tag { name: "param".as_bytes_vec() }, ChildRule::Transparent],
        attributes: vec![
                        "data".as_bytes_vec(),
                        "type".as_bytes_vec(),
                        "name".as_bytes_vec(),
                        "usemap".as_bytes_vec(),
                        "form".as_bytes_vec(),
                        "width".as_bytes_vec(),
                        "height".as_bytes_vec(),
                    ],
    });
    s.insert_tag(TagInfo {
        name: "ol".as_bytes_vec(),
        ty: "HtmlOListElement".as_bytes_vec(),
        categories: vec![ContentModel::Flow],
        children: vec![ChildRule::Tag { name: "li".as_bytes_vec() }],
        attributes: vec![
                        "reversed".as_bytes_vec(),
                        "start".as_bytes_vec(),
                        "type".as_bytes_vec(),
                    ],
    });
    s.insert_tag(TagInfo {
        name: "optgroup".as_bytes_vec(),
        ty: "HtmlOptGroupElement".as_bytes_vec(),
        categories: Vec::new(),
        children: vec![ChildRule::Tag { name: "option".as_bytes_vec() }],
        attributes: vec!["disabled".as_bytes_vec(), "label".as_bytes_vec()],
    });
    s.insert_tag(TagInfo {
        name: "option".as_bytes_vec(),
        ty: "HtmlOptionElement".as_bytes_vec(),
        categories: Vec::new(),
        children: vec![ChildRule::Text],
        attributes: vec![
                        "disabled".as_bytes_vec(),
                        "label".as_bytes_vec(),
                        "selected".as_bytes_vec(),
                        "value".as_bytes_vec(),
                    ],
    });
    s.insert_tag(TagInfo {
        name: "output".as_bytes_vec(),
        ty: "HtmlOutputElement".as_bytes_vec(),
        categories: vec![ContentModel::Flow, ContentModel::Phrasing],
        children: vec![ChildRule::Model { model: ContentModel::Phrasing }],
        attributes: vec!["for".as_bytes_vec(), "form".as_bytes_vec(), "name".as_bytes_vec()],
    });
    s.insert_tag(TagInfo {
        name: "p".as_bytes_vec(),
        ty: "HtmlParagraphElement".as_bytes_vec(),
        categories: vec![ContentModel::Flow],
        children: vec![ChildRule::Model { model: ContentModel::Phrasing }],
        attributes: Vec::new(),
    });
    s.insert_tag(TagInfo {
        name: "param".as_bytes_vec(),
        ty: "HtmlParamElement".as_bytes_vec(),
        categories: Vec::new(),
        children: Vec::new(),
        attributes: vec!["name".as_bytes_vec(), "value".as_bytes_vec()],
    });
    s.insert_tag(TagInfo {
        name: "picture".as_bytes_vec(),
        ty: "HtmlPictureElement".as_bytes_vec(),
        categories: vec![ContentModel::Flow, ContentModel::Phrasing, ContentModel::Embedded],
        children: vec![
                      ChildRule::Tag { name: "source".as_bytes_vec() },
                      ChildRule::Tag { name: "img".as_bytes_vec() },
                  ],
        attributes: Vec::new(),
    });
    s.insert_tag(TagInfo {
        name: "pre".as_bytes_vec(),
        ty: "HtmlPreElement".as_bytes_vec(),
        categories: vec![ContentModel::Flow],
        children: vec![ChildRule::Model { model: ContentModel::Phrasing }],
        attributes: Vec::new(),
    });
    s.insert_tag(TagInfo {
        name: "progress".as_bytes_vec(),
        ty: "HtmlProgressElement".as_bytes_vec(),
        categories: vec![ContentModel::Flow, ContentModel::Phrasing],
        children: vec![ChildRule::Model { model: ContentModel::Phrasing }],
        attributes: vec!["value".as_bytes_vec(), "max".as_bytes_vec()],
    });
    s.insert_tag(TagInfo {
        name: "q".as_bytes_vec(),
        ty: "HtmlQuoteElement".as_bytes_vec(),
        categories: vec![ContentModel::Flow, ContentModel::Phrasing],
        children: vec![ChildRule::Model { model: ContentModel::Phrasing }],
        attributes: vec!["cite".as_bytes_vec()],
    });
    s.insert_tag(TagInfo {
        name: "rp".as_bytes_vec(),
        ty: "HtmlElement".as_bytes_vec(),
        categories: Vec::new(),
        children: vec![ChildRule::Text],
        attributes: Vec::new(),
    });
    s.insert_tag(TagInfo {
        name: "rt".as_bytes_vec(),
        ty: "HtmlElement".as_bytes_vec(),
        categories: Vec::new(),
        children: vec![ChildRule::Model { model: ContentModel::Phrasing }],
        attributes: Vec::new(),
    });
}

/// The entries `ruby` through `table`.
fn fill_tags_5(s: &mut Schema)
    requires
        old(s).wf(),
    ensures
        final(s).wf(),
{
    s.insert_tag(TagInfo {
        name: "ruby".as_bytes_vec(),
        ty: "HtmlElement".as_bytes_vec(),
        categories: vec![ContentModel::Flow, ContentModel::Phrasing],
        children: vec![
                      ChildRule::Model { model: ContentModel::Phrasing },
                      ChildRule::Tag { name: "rt".as_bytes_vec() },
                      ChildRule::Tag { name: "rp".as_bytes_vec() },
                  ],
        attributes: Vec::new(),
    });
    s.insert_tag(TagInfo {
        name: "s".as_bytes_vec(),
        ty: "HtmlElement".as_bytes_vec(),
        categories: vec![ContentModel::Flow, ContentModel::Phrasing],
        children: vec![ChildRule::Model { model: ContentModel::Phrasing }],
        attributes: Vec::new(),
    });
    s.insert_tag(TagInfo {
        name: "samp".as_bytes_vec(),
        ty: "HtmlElement".as_bytes_vec(),
        categories: vec![ContentModel::Flow, ContentModel::Phrasing],
        children: vec![ChildRule::Model { model: ContentModel::Phrasing }],
        attributes: Vec::new(),
    });
    s.insert_tag(TagInfo {
        name: "script".as_bytes_vec(),
        ty: "HtmlScriptElement".as_bytes_vec(),
        categories: vec![ContentModel::Metadata, ContentModel::Flow, ContentModel::Phrasing],
        children: Vec::new(),
        attributes: vec![
                        "src".as_bytes_vec(),
                        "type".as_bytes_vec(),
                        "async".as_bytes_vec(),
                        "defer".as_bytes_vec(),
                        "crossorigin".as_bytes_vec(),
                        "integrity".as_bytes_vec(),
                        "referrerpolicy".as_bytes_vec(),
                    ],
    });
    s.insert_tag(TagInfo {
        name: "section".as_bytes_vec(),
        ty: "HtmlElement".as_bytes_vec(),
        categories: vec![ContentModel::Flow, ContentModel::Sectioning],
        children: vec![ChildRule::Model { model: ContentModel::Flow }],
        attributes: Vec::new(),
    });
    s.insert_tag(TagInfo {
        name: "select".as_bytes_vec(),
        ty: "HtmlSelectElement".as_bytes_vec(),
        categories: vec![ContentModel::Flow, ContentModel::Phrasing, ContentModel::Interactive],
        children: vec![
                      ChildRule::Tag { name: "option".as_bytes_vec() },
                      ChildRule::Tag { name: "optgroup".as_bytes_vec() },
                  ],
        attributes: vec![
                        "autocomplete".as_bytes_vec(),
                        "disabled".as_bytes_vec(),
                        "form".as_bytes_vec(),
                        "multiple".as_bytes_vec(),
                        "name".as_bytes_vec(),
                        "required".as_bytes_vec(),
                        "size".as_bytes_vec(),
                    ],
    });
    s.insert_tag(TagInfo {
        name: "slot".as_bytes_vec(),
        ty: "HtmlSlotElement".as_bytes_vec(),
        categories: vec![ContentModel::Flow, ContentModel::Phrasing],
        children: vec![ChildRule::Transparent],
        attributes: vec!["name".as_bytes_vec()],
    });
    s.insert_tag(TagInfo {
        name: "small".as_bytes_vec(),
        ty: "HtmlElement".as_bytes_vec(),
        categories: vec![ContentModel::Flow, ContentModel::Phrasing],
        children: vec![ChildRule::Model { model: ContentModel::Phrasing }],
        attributes: Vec::new(),
    });
    s.insert_tag(TagInfo {
        name: "source".as_bytes_vec(),
        ty: "HtmlSourceElement".as_bytes_vec(),
        categories: Vec::new(),
        children: Vec::new(),
        attributes: vec![
                        "src".as_bytes_vec(),
                        "type".as_bytes_vec(),
                        "srcset".as_bytes_vec(),
                        "sizes".as_bytes_vec(),
                        "media".as_bytes_vec(),
                    ],
    });
    s.insert_tag(TagInfo {
        name: "span".as_bytes_vec(),
        ty: "HtmlSpanElement".as_bytes_vec(),
        categories: vec![ContentModel::Flow, ContentModel::Phrasing],
        children: vec![ChildRule::Model { model: ContentModel::Phrasing }],
        attributes: Vec::new(),
    });
    s.insert_tag(TagInfo {
        name: "strong".as_bytes_vec(),
        ty: "HtmlElement".as_bytes_vec(),
        categories: vec![ContentModel::Flow, ContentModel::Phrasing],
        children: vec![ChildRule::Model { model: ContentModel::Phrasing }],
        attributes: Vec::new(),
    });
    s.insert_tag(TagInfo {
        name: "style".as_bytes_vec(),
        ty: "HtmlStyleElement".as_bytes_vec(),
        categories: vec![ContentModel::Metadata],
        children: vec![ChildRule::Text],
        attributes: vec!["media".as_bytes_vec()],
    });
    s.insert_tag(TagInfo {
        name: "sub".as_bytes_vec(),
        ty: "HtmlElement".as_bytes_vec(),
        categories: vec![ContentModel::Flow, ContentModel::Phrasing],
        children: vec![ChildRule::Model { model: ContentModel::Phrasing }],
        attributes: Vec::new(),
    });
    s.insert_tag(TagInfo {
        name: "summary".as_bytes_vec(),
        ty: "HtmlElement".as_bytes_vec(),
        categories: Vec::new(),
        children: vec![ChildRule::Model { model: ContentModel::Phrasing }],
        attributes: Vec::new(),
    });
    s.insert_tag(TagInfo {
        name: "sup".as_bytes_vec(),
        ty: "HtmlElement".as_bytes_vec(),
        categories: vec![ContentModel::Flow, ContentModel::Phrasing],
        children: vec![ChildRule::Model { model: ContentModel::Phrasing }],
        attributes: Vec::new(),
    });
    s.insert_tag(TagInfo {
        name: "table".as_bytes_vec(),
        ty: "HtmlTableElement".as_bytes_vec(),
        categories: vec![ContentModel::Flow],
        children: vec![
                      ChildRule::Tag { name: "caption".as_bytes_vec() },
                      ChildRule::Tag { name: "colgroup".as_bytes_vec() },
                      ChildRule::Tag { name: "thead".as_bytes_vec() },
                      ChildRule::Tag { name: "tbody".as_bytes_vec() },
                      ChildRule::Tag { name: "tfoot".as_bytes_vec() },
                      ChildRule::Tag { name: "tr".as_bytes_vec() },
                  ],
        attributes: Vec::new(),
    });
}

/// The entries `tbody` through `wbr`.
fn fill_tags_6(s: &mut Schema)
    requires
        old(s).wf(),
    ensures
        final(s).wf(),
{
    s.insert_tag(TagInfo {
        name: "tbody".as_bytes_vec(),
        ty: "HtmlTableSectionElement".as_bytes_vec(),
        categories: Vec::new(),
        children: vec![ChildRule::Tag { name: "tr".as_bytes_vec() }],
        attributes: Vec::new(),
    });
    s.insert_tag(TagInfo {
        name: "td".as_bytes_vec(),
        ty: "HtmlTableCellElement".as_bytes_vec(),
        categories: Vec::new(),
        children: vec![ChildRule::Model { model: ContentModel::Flow }],
        attributes: vec![
                        "colspan".as_bytes_vec(),
                        "rowspan".as_bytes_vec(),
                        "headers".as_bytes_vec(),
                    ],
    });
    s.insert_tag(TagInfo {
        name: "template".as_bytes_vec(),
        ty: "HtmlTemplateElement".as_bytes_vec(),
        categories: vec![ContentModel::Metadata, ContentModel::Flow, ContentModel::Phrasing],
        children: Vec::new(),
        attributes: Vec::new(),
    });
    s.insert_tag(TagInfo {
        name: "textarea".as_bytes_vec(),
        ty: "HtmlTextAreaElement".as_bytes_vec(),
        categories: vec![ContentModel::Flow, ContentModel::Phrasing, ContentModel::Interactive],
        children: vec![ChildRule::Text],
        attributes: vec![
                        "cols".as_bytes_vec(),
                        "dirname".as_bytes_vec(),
                        "disabled".as_bytes_vec(),
                        "form".as_bytes_vec(),
                        "maxlength".as_bytes_vec(),
                        "minlength".as_bytes_vec(),
                        "name".as_bytes_vec(),
                        "placeholder".as_bytes_vec(),
                        "readonly".as_bytes_vec(),
                        "required".as_bytes_vec(),
                        "rows".as_bytes_vec(),
                        "wrap".as_bytes_vec(),
                    ],
    });
    s.insert_tag(TagInfo {
        name: "tfoot".as_bytes_vec(),
        ty: "HtmlTableSectionElement".as_bytes_vec(),
        categories: Vec::new(),
        children: vec![ChildRule::Tag { name: "tr".as_bytes_vec() }],
        attributes: Vec::new(),
    });
    s.insert_tag(TagInfo {
        name: "th".as_bytes_vec(),
        ty: "HtmlTableCellElement".as_bytes_vec(),
        categories: vec![ContentModel::Interactive],
        children: vec![ChildRule::Model { model: ContentModel::Flow }],
        attributes: vec![
                        "colspan".as_bytes_vec(),
                        "rowspan".as_bytes_vec(),
                        "headers".as_bytes_vec(),
                        "scope".as_bytes_vec(),
                        "abbr".as_bytes_vec(),
                    ],
    });
    s.insert_tag(TagInfo {
        name: "thead".as_bytes_vec(),
        ty: "HtmlTableSectionElement".as_bytes_vec(),
        categories: Vec::new(),
        children: vec![ChildRule::Tag { name: "tr".as_bytes_vec() }],
        attributes: Vec::new(),
    });
    s.insert_tag(TagInfo {
        name: "time".as_bytes_vec(),
        ty: "HtmlTimeElement".as_bytes_vec(),
        categories: vec![ContentModel::Flow, ContentModel::Phrasing],
        children: vec![ChildRule::Model { model: ContentModel::Phrasing }],
        attributes: vec!["datetime".as_bytes_vec()],
    });
    s.insert_tag(TagInfo {
        name: "title".as_bytes_vec(),
        ty: "HtmlTitleElement".as_bytes_vec(),
        categories: vec![ContentModel::Metadata],
        children: vec![ChildRule::Text],
        attributes: Vec::new(),
    });
    s.insert_tag(TagInfo {
        name: "tr".as_bytes_vec(),
        ty: "HtmlTableRowElement".as_bytes_vec(),
        categories: Vec::new(),
        children: vec![
                      ChildRule::Tag { name: "th".as_bytes_vec() },
                      ChildRule::Tag { name: "td".as_bytes_vec() },
                  ],
        attributes: Vec::new(),
    });
    s.insert_tag(TagInfo {
        name: "track".as_bytes_vec(),
        ty: "HtmlTrackElement".as_bytes_vec(),
        categories: Vec::new(),
        children: Vec::new(),
        attributes: vec![
                        "default".as_bytes_vec(),
                        "kind".as_bytes_vec(),
                        "label".as_bytes_vec(),
                        "src".as_bytes_vec(),
                        "srclang".as_bytes_vec(),
                    ],
    });
    s.insert_tag(TagInfo {
        name: "u".as_bytes_vec(),
        ty: "HtmlElement".as_bytes_vec(),
        categories: vec![ContentModel::Flow, ContentModel::Phrasing],
        children: vec![ChildRule::Model { model: ContentModel::Phrasing }],
        attributes: Vec::new(),
    });
    s.insert_tag(TagInfo {
        name: "ul".as_bytes_vec(),
        ty: "HtmlUListElement".as_bytes_vec(),
        categories: vec![ContentModel::Flow],
        children: vec![ChildRule::Tag { name: "li".as_bytes_vec() }],
        attributes: Vec::new(),
    });
    s.insert_tag(TagInfo {
        name: "var".as_bytes_vec(),
        ty: "HtmlElement".as_bytes_vec(),
        categories: vec![ContentModel::Flow, ContentModel::Phrasing],
        children: vec![ChildRule::Model { model: ContentModel::Phrasing }],
        attributes: Vec::new(),
    });
    s.insert_tag(TagInfo {
        name: "video".as_bytes_vec(),
        ty: "HtmlVideoElement".as_bytes_vec(),
        categories: vec![
                        ContentModel::Flow,
                        ContentModel::Phrasing,
                        ContentModel::Embedded,
                        ContentModel::Interactive,
                    ],
        children: vec![
                      ChildRule::Tag { name: "source".as_bytes_vec() },
                      ChildRule::Tag { name: "track".as_bytes_vec() },
                      ChildRule::Transparent,
                  ],
        attributes: vec![
                        "src".as_bytes_vec(),
                        "crossorigin".as_bytes_vec(),
                        "poster".as_bytes_vec(),
                        "preload".as_bytes_vec(),
                        "autoplay".as_bytes_vec(),
                        "playsinline".as_bytes_vec(),
                        "loop".as_bytes_vec(),
                        "muted".as_bytes_vec(),
                        "controls".as_bytes_vec(),
                        "width".as_bytes_vec(),
                        "height".as_bytes_vec(),
                    ],
    });
    s.insert_tag(TagInfo {
        name: "wbr".as_bytes_vec(),
        ty: "HtmlElement".as_bytes_vec(),
        categories: vec![ContentModel::Flow, ContentModel::Phrasing],
        children: Vec::new(),
        attributes: Vec::new(),
    });
}

} // verus!
