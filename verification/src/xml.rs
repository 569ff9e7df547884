//! Reading XML: the events of a document, and what is looked for in them.

use vstd::prelude::*;
use vstd::string::*;
use quick_xml::events::Event::{Empty, End, Eof, Start, Text};
use std::borrow::Cow;
use quick_xml::events::attributes::Attributes;
use crate::text;

verus! {

/// An opening tag.
#[derive(Debug)]
pub struct XmlTag {
    /// The bytes between the angle brackets.
    pub content: Vec<u8>,
    /// How many bytes of it are the name.
    pub name_len: usize,
}

/// One event of a document.
#[derive(Debug)]
pub enum XmlEvent {
    Start(XmlTag),
    /// A tag that closes itself.
    Empty(XmlTag),
    /// A closing tag, by the bytes of its name.
    End(Vec<u8>),
    /// Text without the white space around it, or nothing if its escapes could
    /// not be resolved.
    Text(Option<String>),
    /// A comment, a declaration or the like.
    Other,
    /// The document ends here.
    Eof,
    /// The document is broken here.
    Bad(String),
}

/// One event and where it stands.
#[derive(Debug)]
pub struct XmlItem {
    pub event: XmlEvent,
    /// The byte where reading it started.
    pub from: u64,
    /// The byte behind it.
    pub to: u64,
}

/// An event, its texts as sequences.
pub enum XmlView {
    Start(Seq<u8>, nat),
    Empty(Seq<u8>, nat),
    End(Seq<u8>),
    Text(Option<Seq<char>>),
    Other,
    Eof,
    Bad(Seq<char>),
}

/// An event and where it stands, its texts as sequences.
pub struct XmlItemView {
    pub event: XmlView,
    pub from: nat,
    pub to: nat,
}

impl View for XmlItem {
    type V = XmlItemView;

    open spec fn view(&self) -> XmlItemView {
        XmlItemView {
            event: match self.event {
                XmlEvent::Start(tag) => XmlView::Start(tag.content@, tag.name_len as nat),
                XmlEvent::Empty(tag) => XmlView::Empty(tag.content@, tag.name_len as nat),
                XmlEvent::End(name) => XmlView::End(name@),
                XmlEvent::Text(t) => XmlView::Text(text::opt_view(t)),
                XmlEvent::Other => XmlView::Other,
                XmlEvent::Eof => XmlView::Eof,
                XmlEvent::Bad(error) => XmlView::Bad(error@),
            },
            from: self.from as nat,
            to: self.to as nat,
        }
    }
}

/// Whether an event is the last of its document.
pub open spec fn is_end(item: XmlItemView) -> bool {
    item.event is Eof || item.event is Bad
}

/// Whether a sequence of events is a whole document: it has an end, and nothing
/// behind it.
pub open spec fn whole(items: Seq<XmlItemView>) -> bool {
    &&& items.len() > 0
    &&& is_end(items.last())
    &&& forall|i: int| 0 <= i < items.len() - 1 ==> !is_end(#[trigger] items[i])
}

/// Whether the name of an opening tag lies within the tag.
pub open spec fn name_fits(item: XmlItemView) -> bool {
    match item.event {
        XmlView::Start(content, name_len) => name_len <= content.len(),
        XmlView::Empty(content, name_len) => name_len <= content.len(),
        _ => true,
    }
}

/// The `quick_xml` reader.
#[verifier::external_type_specification]
#[verifier::external_body]
#[verifier::reject_recursive_types(R)]
pub struct ExReader<R>(quick_xml::Reader<R>);

/// What successive reads of a reader give, up to and including the first end or
/// error among them.
pub uninterp spec fn events_left(reader: quick_xml::Reader<&[u8]>) -> Seq<XmlItemView>;

/// The events of a document, with the white space around its texts left out, up
/// to its end or the first error in it.
pub uninterp spec fn xml_events(document: Seq<char>) -> Seq<XmlItemView>;

/// `Reader::from_str` with `trim_text` set: the reader has all events of the
/// document still to give. There is an end among them, because every event
/// before it consumes input; and a tag's name is a part of the tag.
#[verifier::external_body]
fn open_reader(document: &str) -> (reader: quick_xml::Reader<&[u8]>)
    ensures
        events_left(reader) == xml_events(document@),
        whole(events_left(reader)),
        forall|i: int|
            0 <= i < events_left(reader).len() ==> name_fits(#[trigger] events_left(reader)[i]),
{
    let mut reader = quick_xml::Reader::from_str(document);
    reader.config_mut().trim_text(true);
    reader
}

/// `Reader::read_event`, with `Reader::buffer_position` before and after it: the
/// next event. Behind any event but an end or an error, the reader goes on with
/// the one that follows; what a read behind an end or an error gives is left
/// unsaid.
#[verifier::external_body]
fn next_event(reader: &mut quick_xml::Reader<&[u8]>) -> (item: XmlItem)
    requires
        events_left(*old(reader)).len() > 0,
    ensures
        item@ == events_left(*old(reader)).first(),
        !is_end(item@) ==> events_left(*final(reader)) == events_left(*old(reader)).drop_first(),
{
    let from = reader.buffer_position();
    let event = match reader.read_event() {
        Ok(Start(e)) => XmlEvent::Start(XmlTag { content: e.to_vec(), name_len: e.name().0.len() }),
        Ok(Empty(e)) => XmlEvent::Empty(XmlTag { content: e.to_vec(), name_len: e.name().0.len() }),
        Ok(End(e)) => XmlEvent::End(e.name().0.to_vec()),
        Ok(Text(t)) => XmlEvent::Text(t.unescape().ok().map(Cow::into_owned)),
        Ok(Eof) => XmlEvent::Eof,
        Ok(_) => XmlEvent::Other,
        Err(e) => XmlEvent::Bad(e.to_string()),
    };
    XmlItem { event, from, to: reader.buffer_position() }
}

/// The views of a list of events.
pub open spec fn items_view(items: Seq<XmlItem>) -> Seq<XmlItemView> {
    items.map_values(|item: XmlItem| item@)
}

/// Whether this is the last event of a document.
fn ends(item: &XmlItem) -> (yes: bool)
    ensures
        yes == is_end(item@),
{
    match &item.event {
        XmlEvent::Eof => true,
        XmlEvent::Bad(_) => true,
        _ => false,
    }
}

/// All events of a document, the last of which is its end.
pub fn read_events(document: &str) -> (items: Vec<XmlItem>)
    ensures
        items_view(items@) == xml_events(document@),
        whole(items_view(items@)),
        forall|i: int| 0 <= i < items@.len() ==> name_fits((#[trigger] items@[i])@),
{
    let mut reader = open_reader(document);
    let ghost all = events_left(reader);
    let mut items: Vec<XmlItem> = Vec::new();
    assert(items_view(items@) =~= all.take(0));
    assert(all.skip(0) =~= all);
    loop
        invariant_except_break
            items@.len() < all.len(),
            events_left(reader) == all.skip(items@.len() as int),
        invariant
            whole(all),
            forall|i: int| 0 <= i < all.len() ==> name_fits(#[trigger] all[i]),
            items_view(items@) == all.take(items@.len() as int),
        ensures
            items_view(items@) == all,
        decreases all.len() - items@.len(),
    {
        let ghost n = items@.len() as int;
        let item = next_event(&mut reader);
        let last: bool = ends(&item);
        assert(item@ == all[n]);
        items.push(item);
        assert(items_view(items@) =~= all.take(n + 1));
        assert(all.skip(n).drop_first() =~= all.skip(n + 1));
        if last {
            assert(n + 1 == all.len());
            assert(all.take(n + 1) =~= all);
            break;
        }
        assert(n + 1 < all.len());
    }
    assert forall|i: int| 0 <= i < items@.len() implies name_fits((#[trigger] items@[i])@) by {
        assert(items_view(items@)[i] == items@[i]@);
        assert(name_fits(all[i]));
    }
    items
}

/// An attribute: the bytes of its key, and its value unless its escapes could
/// not be resolved.
#[derive(Debug)]
pub struct XmlAttribute {
    pub key: Vec<u8>,
    pub value: Option<String>,
}

/// An attribute as sequences; `None` where the tag is malformed.
pub open spec fn attribute_view(attribute: Option<XmlAttribute>) -> Option<
    (Seq<u8>, Option<Seq<char>>),
> {
    match attribute {
        Some(a) => Some((a.key@, text::opt_view(a.value))),
        None => None,
    }
}

/// What the attribute iterator gives at position `k` of a tag whose name is
/// `name_len` bytes long: nothing, or an attribute, or an error (`None`).
pub uninterp spec fn tag_attribute(content: Seq<char>, name_len: nat, k: nat) -> Option<
    Option<(Seq<u8>, Option<Seq<char>>)>,
>;

/// `Attributes::new` and the `k`th item of that iterator. There is none at or
/// beyond the length of the tag, since each consumes some of it, and none
/// behind the last.
#[verifier::external_body]
fn attribute_at(content: &str, name_len: usize, k: usize) -> (item: Option<Option<XmlAttribute>>)
    requires
        name_len <= vstd::utf8::encode_utf8(content@).len(),
    ensures
        (match item {
            Some(a) => Some(attribute_view(a)),
            None => None,
        }) == tag_attribute(content@, name_len as nat, k as nat),
        item is Some ==> k < vstd::utf8::encode_utf8(content@).len(),
{
    match Attributes::new(content, name_len).nth(k) {
        None => None,
        Some(Err(_)) => Some(None),
        Some(Ok(a)) => Some(Some(XmlAttribute {
            key: a.key.into_inner().to_vec(),
            value: a.unescape_value().ok().map(Cow::into_owned),
        })),
    }
}

/// The attributes of a tag from position `k` on, without the malformed ones.
pub open spec fn attributes_from(content: Seq<char>, name_len: nat, k: nat) -> Seq<
    (Seq<u8>, Option<Seq<char>>),
>
    decreases vstd::utf8::encode_utf8(content).len() - k,
{
    if k >= vstd::utf8::encode_utf8(content).len() {
        Seq::empty()
    } else {
        match tag_attribute(content, name_len, k) {
            None => Seq::empty(),
            Some(item) => (match item {
                Some(a) => seq![a],
                None => Seq::empty(),
            }) + attributes_from(content, name_len, k + 1),
        }
    }
}

/// The well-formed attributes of a tag, in order.
pub open spec fn attributes_of(content: Seq<u8>, name_len: nat) -> Seq<
    (Seq<u8>, Option<Seq<char>>),
> {
    if vstd::utf8::valid_utf8(content) {
        attributes_from(vstd::utf8::decode_utf8(content), name_len, 0)
    } else {
        Seq::empty()
    }
}

/// The views of a list of attributes.
pub open spec fn attributes_view(list: Seq<XmlAttribute>) -> Seq<(Seq<u8>, Option<Seq<char>>)> {
    list.map_values(|a: XmlAttribute| (a.key@, text::opt_view(a.value)))
}

/// The well-formed attributes of a tag, in order.
pub fn read_attributes(tag: &XmlTag) -> (list: Vec<XmlAttribute>)
    requires
        tag.name_len <= tag.content@.len(),
    ensures
        attributes_view(list@) == attributes_of(tag.content@, tag.name_len as nat),
{
    let mut list: Vec<XmlAttribute> = Vec::new();
    let content = match utf8_text(tag.content.as_slice()) {
        Some(content) => content,
        None => {
            assert(attributes_view(list@) =~= Seq::empty());
            return list;
        },
    };
    proof {
        vstd::utf8::decode_utf8_encode_utf8(tag.content@);
    }
    let name_len: usize = tag.name_len;
    let size: usize = tag.content.len();
    let ghost written = content@;
    let ghost goal = attributes_from(written, name_len as nat, 0);
    let mut k: usize = 0;
    assert(attributes_view(list@) + goal =~= goal);
    loop
        invariant
            written == content@,
            size == vstd::utf8::encode_utf8(written).len(),
            name_len <= size,
            k <= size,
            attributes_view(list@) + attributes_from(written, name_len as nat, k as nat) == goal,
        ensures
            attributes_view(list@) == goal,
        decreases size - k,
    {
        let ghost before = attributes_view(list@);
        let ghost rest = attributes_from(written, name_len as nat, k as nat);
        match attribute_at(content.as_str(), name_len, k) {
            None => {
                assert(rest =~= Seq::empty());
                assert(before + rest =~= before);
                break;
            },
            Some(item) => {
                let ghost found = attribute_view(item);
                let ghost after = attributes_from(written, name_len as nat, (k + 1) as nat);
                if let Some(a) = item {
                    list.push(a);
                    assert(attributes_view(list@) =~= before.push(found->0));
                    assert(before + (seq![found->0] + after) =~= before.push(found->0) + after);
                } else {
                    assert(Seq::<(Seq<u8>, Option<Seq<char>>)>::empty() + after =~= after);
                }
                k += 1;
            },
        }
    }
    list
}

/// Decode bytes as UTF-8; `None` if they are not.
#[verifier::external_body]
pub(crate) fn utf8_text(bytes: &[u8]) -> (out: Option<String>)
    ensures
        match out {
            Some(t) => vstd::utf8::valid_utf8(bytes@) && t@ == vstd::utf8::decode_utf8(bytes@),
            None => !vstd::utf8::valid_utf8(bytes@),
        },
{
    match std::str::from_utf8(bytes) {
        Ok(t) => Some(t.to_owned()),
        Err(_) => None,
    }
}

/// The text of bytes, or nothing where they are not UTF-8.
pub open spec fn text_or_empty(bytes: Seq<u8>) -> Seq<char> {
    if vstd::utf8::valid_utf8(bytes) {
        vstd::utf8::decode_utf8(bytes)
    } else {
        Seq::empty()
    }
}

/// A qualified name without its prefix: what stands behind the last colon.
pub open spec fn without_prefix(name: Seq<char>) -> Seq<char>
    decreases name.len(),
{
    if name.len() == 0 || name.last() == ':' {
        Seq::empty()
    } else {
        without_prefix(name.drop_last()).push(name.last())
    }
}

/// The local part of the bytes of a qualified name.
pub open spec fn local_part(qname: Seq<u8>) -> Seq<char> {
    without_prefix(text_or_empty(qname))
}

proof fn lemma_without_prefix(name: Seq<char>, at: int)
    requires
        0 <= at <= name.len(),
        at > 0 ==> name[at - 1] == ':',
        forall|i: int| at <= i < name.len() ==> #[trigger] name[i] != ':',
    ensures
        without_prefix(name) == name.skip(at),
    decreases name.len(),
{
    if at == name.len() {
        assert(name.skip(at) =~= Seq::empty());
    } else {
        let shorter = name.drop_last();
        assert forall|i: int| at <= i < shorter.len() implies #[trigger] shorter[i] != ':' by {
            assert(name[i] != ':');
        }
        lemma_without_prefix(shorter, at);
        assert(name[name.len() - 1] != ':');
        assert(shorter.skip(at).push(name.last()) =~= name.skip(at));
    }
}

/// The text of a name, or nothing where it is not UTF-8.
pub fn name_text(bytes: &[u8]) -> (out: String)
    ensures
        out@ == text_or_empty(bytes@),
{
    match utf8_text(bytes) {
        Some(t) => t,
        None => String::new(),
    }
}

/// The local part of a qualified name.
pub fn local_name(qname: &[u8]) -> (local: String)
    ensures
        local@ == local_part(qname@),
{
    let name = name_text(qname);
    let chars = text::chars_of(name.as_str());
    let mut at: usize = chars.len();
    while at > 0 && chars[at - 1] != ':'
        invariant
            at <= chars@.len(),
            forall|i: int| at <= i < chars@.len() ==> #[trigger] chars@[i] != ':',
        decreases at,
    {
        at -= 1;
    }
    proof {
        lemma_without_prefix(chars@, at as int);
    }
    let local = text::text_of(chars.as_slice(), at, chars.len());
    assert(local@ =~= chars@.skip(at as int));
    local
}

/// The bytes of the name of a tag.
pub open spec fn tag_name(content: Seq<u8>, name_len: nat) -> Seq<u8> {
    content.take(name_len as int)
}

/// The local part of the name of a tag.
pub fn tag_local_name(tag: &XmlTag) -> (local: String)
    requires
        tag.name_len <= tag.content@.len(),
    ensures
        local@ == local_part(tag_name(tag.content@, tag.name_len as nat)),
{
    let name = vstd::slice::slice_subrange(tag.content.as_slice(), 0, tag.name_len);
    assert(name@ =~= tag_name(tag.content@, tag.name_len as nat));
    local_name(name)
}

/// The text that was read, or nothing if it could not be.
pub open spec fn text_of_event(t: Option<Seq<char>>) -> Seq<char> {
    match t {
        Some(text) => text,
        None => Seq::empty(),
    }
}

/// A copy of the text that was read, or nothing if it could not be.
pub fn event_text(t: &Option<String>) -> (out: String)
    ensures
        out@ == text_of_event(text::opt_view(*t)),
{
    match t {
        Some(text) => text.clone(),
        None => String::new(),
    }
}

/// The first text in front of the closing tag of the element that is open, where
/// this many elements are open down from it.
pub open spec fn text_before_close(items: Seq<XmlItemView>, open: nat) -> Option<Seq<char>>
    decreases items.len(),
{
    if items.len() == 0 {
        None
    } else {
        let rest = items.drop_first();
        match items[0].event {
            XmlView::Eof | XmlView::Bad(_) => None,
            XmlView::Start(_, _) => text_before_close(rest, open + 1),
            XmlView::End(_) => if open <= 1 {
                None
            } else {
                text_before_close(rest, (open - 1) as nat)
            },
            XmlView::Text(t) => Some(text_of_event(t)),
            _ => text_before_close(rest, open),
        }
    }
}

/// The inner text of the first element of a local name, among events. An
/// element without text has none, whatever follows it.
pub open spec fn first_text_from(items: Seq<XmlItemView>, local: Seq<char>) -> Option<Seq<char>>
    decreases items.len(),
{
    if items.len() == 0 {
        None
    } else {
        let rest = items.drop_first();
        match items[0].event {
            XmlView::Eof | XmlView::Bad(_) => None,
            XmlView::Start(content, name_len) => if local_part(tag_name(content, name_len))
                == local {
                text_before_close(rest, 1)
            } else {
                first_text_from(rest, local)
            },
            XmlView::Empty(content, name_len) => if local_part(tag_name(content, name_len))
                == local {
                None
            } else {
                first_text_from(rest, local)
            },
            _ => first_text_from(rest, local),
        }
    }
}

/// The inner text of the first element of a local name in a document.
pub open spec fn first_text(document: Seq<char>, local: Seq<char>) -> Option<Seq<char>> {
    first_text_from(xml_events(document), local)
}

/// The first text of the element whose opening tag stands in front of an event.
fn read_inner_text(items: &Vec<XmlItem>, from: usize) -> (found: Option<String>)
    requires
        1 <= from <= items@.len(),
    ensures
        text::opt_view(found) == text_before_close(items_view(items@).skip(from as int), 1),
{
    let ghost all = items_view(items@);
    let mut open: usize = 1;
    let mut i: usize = from;
    while i < items.len()
        invariant
            1 <= from <= i <= items@.len(),
            all == items_view(items@),
            1 <= open <= i - from + 1,
            text_before_close(all.skip(from as int), 1) == text_before_close(
                all.skip(i as int),
                open as nat,
            ),
        decreases items@.len() - i,
    {
        assert(all.skip(i as int).first() == items@[i as int]@);
        assert(all.skip(i as int).drop_first() =~= all.skip(i + 1));
        match &items[i].event {
            XmlEvent::Eof => {
                return None;
            },
            XmlEvent::Bad(_) => {
                return None;
            },
            XmlEvent::Start(_) => {
                open += 1;
            },
            XmlEvent::End(_) => {
                if open == 1 {
                    return None;
                }
                open -= 1;
            },
            XmlEvent::Text(t) => {
                return Some(event_text(t));
            },
            _ => {},
        }
        i += 1;
    }
    None
}

/// The inner text of the first element of a local name, among the events of a
/// document.
pub fn find_text(items: &Vec<XmlItem>, local: &str) -> (found: Option<String>)
    requires
        forall|i: int| 0 <= i < items@.len() ==> name_fits((#[trigger] items@[i])@),
    ensures
        text::opt_view(found) == first_text_from(items_view(items@), local@),
{
    let ghost all = items_view(items@);
    let mut i: usize = 0;
    assert(all.skip(0) =~= all);
    while i < items.len()
        invariant
            i <= items@.len(),
            all == items_view(items@),
            forall|j: int| 0 <= j < items@.len() ==> name_fits((#[trigger] items@[j])@),
            first_text_from(all, local@) == first_text_from(all.skip(i as int), local@),
        decreases items@.len() - i,
    {
        assert(all.skip(i as int).first() == items@[i as int]@);
        assert(all.skip(i as int).drop_first() =~= all.skip(i + 1));
        match &items[i].event {
            XmlEvent::Eof => {
                return None;
            },
            XmlEvent::Bad(_) => {
                return None;
            },
            XmlEvent::Start(tag) => {
                if text::same(tag_local_name(tag).as_str(), local) {
                    return read_inner_text(items, i + 1);
                }
            },
            XmlEvent::Empty(tag) => {
                if text::same(tag_local_name(tag).as_str(), local) {
                    return None;
                }
            },
            _ => {},
        }
        i += 1;
    }
    None
}

/// Pull the inner text of the first element with the given local name from a
/// SOAP body fragment. Tolerates namespace prefixes.
pub fn read_first_text_element(xml: &str, local: &str) -> (found: Option<String>)
    ensures
        text::opt_view(found) == first_text(xml@, local@),
{
    let items = read_events(xml);
    find_text(&items, local)
}

/// The inner text of the first element of a local name that stands inside an
/// element of the other name. `within` says whether such an element is open.
pub open spec fn text_within_from(
    items: Seq<XmlItemView>,
    wrapper: Seq<char>,
    local: Seq<char>,
    within: bool,
) -> Option<Seq<char>>
    decreases items.len(),
{
    if items.len() == 0 {
        None
    } else {
        let rest = items.drop_first();
        match items[0].event {
            XmlView::Eof | XmlView::Bad(_) => None,
            XmlView::Start(content, name_len) => {
                let name = local_part(tag_name(content, name_len));
                if within && name == local {
                    text_before_close(rest, 1)
                } else {
                    text_within_from(rest, wrapper, local, within || name == wrapper)
                }
            },
            XmlView::Empty(content, name_len) => if within && local_part(
                tag_name(content, name_len),
            ) == local {
                None
            } else {
                text_within_from(rest, wrapper, local, within)
            },
            XmlView::End(qname) => text_within_from(
                rest,
                wrapper,
                local,
                within && local_part(qname) != wrapper,
            ),
            _ => text_within_from(rest, wrapper, local, within),
        }
    }
}

/// Nothing is found inside an element that is not there.
pub proof fn lemma_nothing_within(
    items: Seq<XmlItemView>,
    wrapper: Seq<char>,
    local: Seq<char>,
)
    requires
        forall|i: int|
            0 <= i < items.len() ==> ((#[trigger] items[i]).event matches XmlView::Start(
                content,
                name_len,
            ) ==> local_part(tag_name(content, name_len)) != wrapper),
    ensures
        text_within_from(items, wrapper, local, false) is None,
    decreases items.len(),
{
    if items.len() > 0 {
        assert(items[0] == items.first());
        assert forall|i: int| 0 <= i < items.drop_first().len() implies ((
        #[trigger] items.drop_first()[i]).event matches XmlView::Start(content, name_len)
            ==> local_part(tag_name(content, name_len)) != wrapper) by {
            assert(items.drop_first()[i] == items[i + 1]);
        }
        lemma_nothing_within(items.drop_first(), wrapper, local);
    }
}

/// The inner text of the first element of a local name inside an element of
/// another name, among the events of a document.
pub fn find_text_within(items: &Vec<XmlItem>, wrapper: &str, local: &str) -> (found: Option<String>)
    requires
        forall|i: int| 0 <= i < items@.len() ==> name_fits((#[trigger] items@[i])@),
    ensures
        text::opt_view(found) == text_within_from(items_view(items@), wrapper@, local@, false),
{
    let ghost all = items_view(items@);
    let mut within: bool = false;
    let mut i: usize = 0;
    assert(all.skip(0) =~= all);
    while i < items.len()
        invariant
            i <= items@.len(),
            all == items_view(items@),
            forall|j: int| 0 <= j < items@.len() ==> name_fits((#[trigger] items@[j])@),
            text_within_from(all, wrapper@, local@, false) == text_within_from(
                all.skip(i as int),
                wrapper@,
                local@,
                within,
            ),
        decreases items@.len() - i,
    {
        assert(all.skip(i as int).first() == items@[i as int]@);
        assert(all.skip(i as int).drop_first() =~= all.skip(i + 1));
        match &items[i].event {
            XmlEvent::Eof => {
                return None;
            },
            XmlEvent::Bad(_) => {
                return None;
            },
            XmlEvent::Start(tag) => {
                let name = tag_local_name(tag);
                if within && text::same(name.as_str(), local) {
                    return read_inner_text(items, i + 1);
                }
                if text::same(name.as_str(), wrapper) {
                    within = true;
                }
            },
            XmlEvent::Empty(tag) => {
                if within && text::same(tag_local_name(tag).as_str(), local) {
                    return None;
                }
            },
            XmlEvent::End(qname) => {
                if text::same(local_name(qname.as_slice()).as_str(), wrapper) {
                    within = false;
                }
            },
            _ => {},
        }
        i += 1;
    }
    None
}

/// A name is what stands behind its last colon.
pub proof fn law_prefixes_do_not_matter(prefix: Seq<char>, local: Seq<char>)
    requires
        !local.contains(':'),
    ensures
        without_prefix(local) == local,
        without_prefix(prefix + seq![':'] + local) == local,
{
    assert forall|i: int| 0 <= i < local.len() implies #[trigger] local[i] != ':' by {
        assert(local.contains(local[i]));
    }
    lemma_without_prefix(local, 0);
    assert(local.skip(0) =~= local);
    let whole = prefix + seq![':'] + local;
    let at = prefix.len() as int + 1;
    assert forall|i: int| at <= i < whole.len() implies #[trigger] whole[i] != ':' by {
        assert(whole[i] == local[i - at]);
    }
    assert(whole[at - 1] == ':');
    lemma_without_prefix(whole, at);
    assert(whole.skip(at) =~= local);
}

/// The text of an element is the text right behind its opening tag. One that closes
/// itself, or closes at once, has none. Other tags and texts in front of it do not
/// matter, and nothing is read behind the end.
pub proof fn law_elements_are_found_by_name(
    items: Seq<XmlItemView>,
    local: Seq<char>,
    content: Seq<u8>,
    name_len: nat,
    t: Seq<char>,
)
    requires
        items.len() > 1,
    ensures
        items[0].event == XmlView::Start(content, name_len) && local_part(
            tag_name(content, name_len),
        ) == local && items[1].event == XmlView::Text(Some(t)) ==> first_text_from(items, local)
            == Some(t),
        items[0].event == XmlView::Start(content, name_len) && local_part(
            tag_name(content, name_len),
        ) == local && items[1].event is End ==> first_text_from(items, local) is None,
        items[0].event == XmlView::Empty(content, name_len) && local_part(
            tag_name(content, name_len),
        ) == local ==> first_text_from(items, local) is None,
        items[0].event == XmlView::Start(content, name_len) && local_part(
            tag_name(content, name_len),
        ) != local ==> first_text_from(items, local) == first_text_from(items.drop_first(), local),
        items[0].event == XmlView::Empty(content, name_len) && local_part(
            tag_name(content, name_len),
        ) != local ==> first_text_from(items, local) == first_text_from(items.drop_first(), local),
        items[0].event is Text || items[0].event is End || items[0].event is Other
            ==> first_text_from(items, local) == first_text_from(items.drop_first(), local),
        items[0].event is Eof || items[0].event is Bad ==> first_text_from(items, local) is None,
{
    assert(items.drop_first()[0] == items[1]);
    reveal_with_fuel(first_text_from, 2);
    reveal_with_fuel(text_before_close, 2);
}

/// An element counts only inside the one it is looked for in.
pub proof fn law_elements_are_found_inside_their_wrapper(
    items: Seq<XmlItemView>,
    wrapper: Seq<char>,
    local: Seq<char>,
    outer: (Seq<u8>, nat),
    inner: (Seq<u8>, nat),
    t: Seq<char>,
)
    requires
        items.len() > 2,
        wrapper != local,
        items[1].event == XmlView::Start(inner.0, inner.1),
        local_part(tag_name(inner.0, inner.1)) == local,
        items[2].event == XmlView::Text(Some(t)),
    ensures
        items[0].event == XmlView::Start(outer.0, outer.1) && local_part(
            tag_name(outer.0, outer.1),
        ) == wrapper ==> text_within_from(items, wrapper, local, false) == Some(t),
        items[0].event is Other ==> text_within_from(items, wrapper, local, false)
            == text_within_from(items.skip(3), wrapper, local, false),
{
    assert(items.drop_first()[0] == items[1]);
    assert(items.drop_first().drop_first()[0] == items[2]);
    assert(items.drop_first().drop_first().drop_first() =~= items.skip(3));
    reveal_with_fuel(text_within_from, 4);
    reveal_with_fuel(text_before_close, 2);
}

} // verus!
