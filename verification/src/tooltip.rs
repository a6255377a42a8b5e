//! The tooltip payload of a listing: base64 text that wraps a gzip stream
//! that wraps a tree of named tags. The three layers are read one after the
//! other, then the listed item is looked up in the tree.

use crate::error::TooltipCause;
use std::io::Read;
use vstd::prelude::*;

verus! {

/// A value of the tag tree, as `nbt` holds it.
#[verifier::external_type_specification]
#[verifier::external_body]
pub struct ExValue(nbt::Value);

/// What a tag holds, as far as this library reads it.
pub enum Tag {
    /// A byte, short, int or long.
    Integer(i64),
    /// A string.
    Text(Seq<char>),
    /// A list of unnamed tags.
    List(Seq<Tag>),
    /// Named tags.
    Compound(Map<Seq<char>, Tag>),
    /// An array of bytes, ints or longs, by its length.
    Array(nat),
    /// A float or a double.
    Other,
}

/// The bytes that a base64 text stands for, if it is standard base64.
pub uninterp spec fn base64_decoded(text: Seq<char>) -> Option<Seq<u8>>;

/// The content of a gzip stream, if the bytes are one.
pub uninterp spec fn gzip_inflated(bytes: Seq<u8>) -> Option<Seq<u8>>;

/// The root of the tag tree that the bytes encode, if they encode one.
pub uninterp spec fn nbt_parsed(bytes: Seq<u8>) -> Option<Tag>;

/// What a value of the tag tree holds.
pub uninterp spec fn value_tag(value: nbt::Value) -> Tag;

/// The tags of a run of values, in order.
pub open spec fn value_tags(values: Seq<nbt::Value>) -> Seq<Tag> {
    values.map_values(|v: nbt::Value| value_tag(v))
}

/// Decodes standard base64 with `base64::decode_config` and the `STANDARD`
/// configuration. The result is a function of the text alone. The outside
/// function adds up to 7 to the input's length in bytes and panics where
/// that overflows.
#[verifier::external_body]
fn base64_decode(text: &str) -> (r: Option<Vec<u8>>)
    requires
        text.len() + 7 <= usize::MAX,
    ensures
        match r {
            Some(bytes) => base64_decoded(text@) == Some(bytes@),
            None => base64_decoded(text@) is None,
        },
{
    base64::decode_config(text, base64::STANDARD).ok()
}

/// Inflates one gzip member with `flate2::read::GzDecoder`, read to its end:
/// header, deflate stream and checksum must all be right, bytes behind the
/// member are left alone. The result is a function of the bytes alone.
#[verifier::external_body]
fn gzip_inflate(bytes: &[u8]) -> (r: Option<Vec<u8>>)
    ensures
        match r {
            Some(content) => gzip_inflated(bytes@) == Some(content@),
            None => gzip_inflated(bytes@) is None,
        },
{
    let mut content = Vec::new();
    match flate2::read::GzDecoder::new(bytes).read_to_end(&mut content) {
        Ok(_) => Some(content),
        Err(_) => None,
    }
}

/// Reads a tag tree with `nbt::from_reader`, into the map that
/// `nbt::Value::Compound` holds: the bytes must start with a compound, whose
/// name is dropped, and what follows the compound's end is left alone. The
/// reader goes one call deeper for every level of nesting. The result is a
/// function of the bytes alone.
#[verifier::external_body]
fn nbt_parse(bytes: &[u8]) -> (r: Option<nbt::Value>)
    ensures
        match r {
            Some(root) => nbt_parsed(bytes@) == Some(value_tag(root)),
            None => nbt_parsed(bytes@) is None,
        },
{
    nbt::from_reader(bytes).ok().map(nbt::Value::Compound)
}

/// The tag named `name` of a compound, by `get` on the map that
/// `nbt::Value::Compound` holds; `None` for any other value.
#[verifier::external_body]
fn compound_field<'a>(value: &'a nbt::Value, name: &str) -> (r: Option<&'a nbt::Value>)
    ensures
        match r {
            Some(child) => field(value_tag(*value), name@) == Some(value_tag(*child)),
            None => field(value_tag(*value), name@) is None,
        },
{
    match value {
        nbt::Value::Compound(fields) => fields.get(name),
        _ => None,
    }
}

/// The items of an `nbt::Value::List`; `None` for any other value.
#[verifier::external_body]
fn list_items<'a>(value: &'a nbt::Value) -> (r: Option<&'a Vec<nbt::Value>>)
    ensures
        match r {
            Some(items) => value_tag(*value) == Tag::List(value_tags(items@)),
            None => !(value_tag(*value) is List),
        },
{
    match value {
        nbt::Value::List(items) => Some(items),
        _ => None,
    }
}

/// The number in an `nbt::Value::Byte`, `Short`, `Int` or `Long`; `None` for
/// any other value.
#[verifier::external_body]
fn integer_value(value: &nbt::Value) -> (r: Option<i64>)
    ensures
        match r {
            Some(n) => value_tag(*value) == Tag::Integer(n),
            None => !(value_tag(*value) is Integer),
        },
{
    match value {
        nbt::Value::Byte(n) => Some(i64::from(*n)),
        nbt::Value::Short(n) => Some(i64::from(*n)),
        nbt::Value::Int(n) => Some(i64::from(*n)),
        nbt::Value::Long(n) => Some(*n),
        _ => None,
    }
}

/// The text in an `nbt::Value::String`; `None` for any other value.
#[verifier::external_body]
fn text_value<'a>(value: &'a nbt::Value) -> (r: Option<&'a str>)
    ensures
        match r {
            Some(text) => value_tag(*value) == Tag::Text(text@),
            None => !(value_tag(*value) is Text),
        },
{
    match value {
        nbt::Value::String(text) => Some(text.as_str()),
        _ => None,
    }
}

/// The length of an `nbt::Value::ByteArray`, `IntArray` or `LongArray`;
/// `None` for any other value.
#[verifier::external_body]
fn array_len(value: &nbt::Value) -> (r: Option<usize>)
    ensures
        match r {
            Some(len) => value_tag(*value) == Tag::Array(len as nat),
            None => !(value_tag(*value) is Array),
        },
{
    match value {
        nbt::Value::ByteArray(items) => Some(items.len()),
        nbt::Value::IntArray(items) => Some(items.len()),
        nbt::Value::LongArray(items) => Some(items.len()),
        _ => None,
    }
}

/// The tag named `name` of a compound; nothing where `tag` is no compound or
/// has no such name.
pub open spec fn field(tag: Tag, name: Seq<char>) -> Option<Tag> {
    match tag {
        Tag::Compound(fields) => if fields.contains_key(name) {
            Some(fields[name])
        } else {
            None
        },
        _ => None,
    }
}

/// What a tooltip says of the listed item.
#[derive(Clone, Debug)]
pub struct Item {
    /// The item's type code.
    pub item_id: String,
    /// How many items the stack holds, at least one.
    pub quantity: u8,
}

/// The stack size that an entry of the item list gives under `Count`: an
/// integer from 1 to 255.
pub open spec fn quantity_of(entry: Tag) -> Option<u8> {
    match field(entry, "Count"@) {
        Some(Tag::Integer(n)) => if 1 <= n <= 255 {
            Some(n as u8)
        } else {
            None
        },
        _ => None,
    }
}

/// The type code that an entry of the item list gives under
/// `tag.ExtraAttributes.id`: a string.
pub open spec fn item_id_of(entry: Tag) -> Option<Seq<char>> {
    match field(entry, "tag"@) {
        Some(tag) => match field(tag, "ExtraAttributes"@) {
            Some(extra) => match field(extra, "id"@) {
                Some(Tag::Text(id)) => Some(id),
                _ => None,
            },
            None => None,
        },
        None => None,
    }
}

/// The item that a tag tree lists first under `i`, as type code and stack
/// size. An empty list or array fails without a cause; anything else that
/// does not fit fails with [`TooltipCause::Shape`].
pub open spec fn item_of(root: Tag) -> Result<(Seq<char>, u8), Option<TooltipCause>> {
    match field(root, "i"@) {
        Some(Tag::List(entries)) => if entries.len() == 0 {
            Err(None)
        } else {
            match (item_id_of(entries[0]), quantity_of(entries[0])) {
                (Some(id), Some(quantity)) => Ok((id, quantity)),
                _ => Err(Some(TooltipCause::Shape)),
            }
        },
        Some(Tag::Array(len)) => if len == 0 {
            Err(None)
        } else {
            Err(Some(TooltipCause::Shape))
        },
        _ => Err(Some(TooltipCause::Shape)),
    }
}

/// An entry of the item list that gives `id` as type code and `quantity` as
/// stack size, and nothing else.
pub open spec fn entry_of(id: Seq<char>, quantity: u8) -> Tag {
    Tag::Compound(
        map![
            "Count"@ => Tag::Integer(quantity as i64),
            "tag"@ => Tag::Compound(
                map!["ExtraAttributes"@ => Tag::Compound(map!["id"@ => Tag::Text(id)])],
            ),
        ],
    )
}

/// A tree that lists an item with a type code and a stack size of at least
/// one gives back exactly these, whatever else it lists behind the item and
/// whatever else it holds beside the list.
pub proof fn lemma_item_of_listed(
    id: Seq<char>,
    quantity: u8,
    others: Seq<Tag>,
    beside: Map<Seq<char>, Tag>,
)
    requires
        quantity >= 1,
    ensures
        ({
            let entries = seq![entry_of(id, quantity)] + others;
            let root = Tag::Compound(beside.insert("i"@, Tag::List(entries)));
            item_of(root) == Ok::<_, Option<TooltipCause>>((id, quantity))
        }),
{
    reveal_strlit("Count");
    reveal_strlit("tag");
    assert("Count"@ != "tag"@) by {
        assert("tag"@.len() == 3);
    }
}

/// Whether a text is short enough for the base64 layer: its length in bytes
/// plus 7 is a `usize`.
pub open spec fn fits_decoder(text: Seq<char>) -> bool {
    (vstd::utf8::encode_utf8(text).len() as usize) + 7 <= usize::MAX
}

/// The item that a tooltip payload lists, layer by layer: the first layer
/// that cannot be read gives the cause.
pub open spec fn tooltip_of(data: Seq<char>) -> Result<(Seq<char>, u8), Option<TooltipCause>> {
    if !fits_decoder(data) {
        Err(Some(TooltipCause::Base64))
    } else {
        match base64_decoded(data) {
            None => Err(Some(TooltipCause::Base64)),
            Some(zipped) => match gzip_inflated(zipped) {
                None => Err(Some(TooltipCause::Gzip)),
                Some(bytes) => match nbt_parsed(bytes) {
                    None => Err(Some(TooltipCause::Nbt)),
                    Some(root) => item_of(root),
                },
            },
        }
    }
}

/// An [`Item`] or a cause, with the type code as a sequence of characters.
pub open spec fn item_view(r: Result<Item, Option<TooltipCause>>) -> Result<
    (Seq<char>, u8),
    Option<TooltipCause>,
> {
    match r {
        Ok(item) => Ok((item.item_id@, item.quantity)),
        Err(cause) => Err(cause),
    }
}

/// Reads the stack size of an entry of the item list.
fn read_quantity(entry: &nbt::Value) -> (r: Option<u8>)
    ensures
        r == quantity_of(value_tag(*entry)),
{
    match compound_field(entry, "Count") {
        Some(count) => match integer_value(count) {
            Some(n) => if 1 <= n && n <= 255 {
                Some(n as u8)
            } else {
                None
            },
            None => None,
        },
        None => None,
    }
}

/// Reads the type code of an entry of the item list.
fn read_item_id<'a>(entry: &'a nbt::Value) -> (r: Option<&'a str>)
    ensures
        match r {
            Some(id) => item_id_of(value_tag(*entry)) == Some(id@),
            None => item_id_of(value_tag(*entry)) is None,
        },
{
    match compound_field(entry, "tag") {
        Some(tag) => match compound_field(tag, "ExtraAttributes") {
            Some(extra) => match compound_field(extra, "id") {
                Some(id) => text_value(id),
                None => None,
            },
            None => None,
        },
        None => None,
    }
}

/// Looks up the listed item in a parsed tag tree.
pub fn read_item(root: &nbt::Value) -> (r: Result<Item, Option<TooltipCause>>)
    ensures
        item_view(r) == item_of(value_tag(*root)),
{
    let list = match compound_field(root, "i") {
        Some(list) => list,
        None => {
            return Err(Some(TooltipCause::Shape));
        },
    };
    match list_items(list) {
        Some(entries) => {
            if entries.len() == 0 {
                return Err(None);
            }
            let first = &entries[0];
            match (read_item_id(first), read_quantity(first)) {
                (Some(id), Some(quantity)) => Ok(Item { item_id: id.to_owned(), quantity }),
                _ => Err(Some(TooltipCause::Shape)),
            }
        },
        None => match array_len(list) {
            Some(len) => if len == 0 {
                Err(None)
            } else {
                Err(Some(TooltipCause::Shape))
            },
            None => Err(Some(TooltipCause::Shape)),
        },
    }
}

/// The first layer: the bytes that a base64 text stands for, or nothing
/// where the text is not standard base64.
pub fn decode_base64(text: &str) -> (r: Option<Vec<u8>>)
    ensures
        match r {
            Some(bytes) => fits_decoder(text@) && base64_decoded(text@) == Some(bytes@),
            None => !fits_decoder(text@) || base64_decoded(text@) is None,
        },
{
    if text.len() > usize::MAX - 7 {
        None
    } else {
        base64_decode(text)
    }
}

/// The second layer: the content of a gzip stream, or nothing where the
/// bytes are no such stream.
pub fn inflate_gzip(bytes: &[u8]) -> (r: Option<Vec<u8>>)
    ensures
        match r {
            Some(content) => gzip_inflated(bytes@) == Some(content@),
            None => gzip_inflated(bytes@) is None,
        },
{
    gzip_inflate(bytes)
}

/// The third layer: the root of the tag tree that the bytes encode, or
/// nothing where they encode none.
pub fn parse_nbt(bytes: &[u8]) -> (r: Option<nbt::Value>)
    ensures
        match r {
            Some(root) => nbt_parsed(bytes@) == Some(value_tag(root)),
            None => nbt_parsed(bytes@) is None,
        },
{
    nbt_parse(bytes)
}

/// Decodes a tooltip payload: base64, then gzip, then the tag tree, then the
/// listed item.
pub fn decode_tooltip(data: &str) -> (r: Result<Item, Option<TooltipCause>>)
    ensures
        item_view(r) == tooltip_of(data@),
{
    let zipped = match decode_base64(data) {
        Some(zipped) => zipped,
        None => {
            return Err(Some(TooltipCause::Base64));
        },
    };
    let bytes = match inflate_gzip(zipped.as_slice()) {
        Some(bytes) => bytes,
        None => {
            return Err(Some(TooltipCause::Gzip));
        },
    };
    match parse_nbt(bytes.as_slice()) {
        Some(root) => read_item(&root),
        None => Err(Some(TooltipCause::Nbt)),
    }
}

} // verus!
