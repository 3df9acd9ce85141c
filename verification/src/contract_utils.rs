//! The metadata of a compiled contract: its code, and the selectors of its
//! constructors and messages by label.

use core::num::ParseIntError;
use impl_serde::serialize::{from_hex, FromHexError};
use vstd::prelude::*;
use vstd::string::StringSliceAdditionalSpecFns;
use vstd::utf8::is_char_boundary;

verus! {

/// The error of `impl_serde::serialize::from_hex`; nothing is read from it.
#[verifier::external_type_specification]
#[verifier::external_body]
pub struct ExFromHexError(FromHexError);

/// The error of `u32::from_str_radix`; nothing is read from it.
#[verifier::external_type_specification]
#[verifier::external_body]
pub struct ExParseIntError(ParseIntError);

/// The bytes that the hexadecimal text spells, with or without a leading
/// `0x`; `None` where the text holds a character that is no hex digit.
pub uninterp spec fn hex_decoded(text: Seq<char>) -> Option<Seq<u8>>;

/// The number that the UTF-8 text `digits` spells in base `radix`; `None`
/// where it spells none that fits 32 bits.
pub uninterp spec fn parsed_u32(digits: Seq<u8>, radix: u32) -> Option<u32>;

/// Calls `impl_serde::serialize::from_hex`.
///
/// Trusted: whether it succeeds, and with which bytes, depends on the text
/// alone.
#[verifier::external_body]
fn hex_into_bytes(text: &str) -> (r: Result<Vec<u8>, FromHexError>)
    ensures
        spec_hex_view(r) == hex_decoded(text@),
{
    from_hex(text)
}

/// Calls `u32::from_str_radix`, which panics on a radix outside `2..=36`.
///
/// Trusted: whether it succeeds, and with which number, depends on the text
/// and the radix alone.
#[verifier::external_body]
fn parse_u32_radix(digits: &str, radix: u32) -> (r: Result<u32, ParseIntError>)
    requires
        2 <= radix <= 36,
    ensures
        spec_parsed_view(r) == parsed_u32(digits.spec_bytes(), radix),
{
    u32::from_str_radix(digits, radix)
}

/// What a hex decoding holds, as plain values.
pub open spec fn spec_hex_view(r: Result<Vec<u8>, FromHexError>) -> Option<Seq<u8>> {
    match r {
        Ok(bytes) => Some(bytes@),
        Err(_) => None,
    }
}

/// What a parse holds, as plain values.
pub open spec fn spec_parsed_view(r: Result<u32, ParseIntError>) -> Option<u32> {
    match r {
        Ok(value) => Some(value),
        Err(_) => None,
    }
}

/// Why a piece of metadata was not taken.
#[derive(Clone, Copy, Debug, PartialEq, Eq, Structural)]
pub enum MetadataError {
    /// The code is no hexadecimal text.
    InvalidHex,
    /// The selector is no hexadecimal number of 32 bits.
    InvalidSelector,
}

/// The four bytes of `value`, highest byte first.
pub open spec fn spec_be_bytes(value: u32) -> Seq<u8> {
    seq![
        (value / 0x100_0000) as u8,
        (value / 0x1_0000 % 0x100) as u8,
        (value / 0x100 % 0x100) as u8,
        (value % 0x100) as u8,
    ]
}

/// The code that a hex decoding gives.
pub open spec fn spec_code_from_hex(decoded: Option<Seq<u8>>) -> Result<Seq<u8>, MetadataError> {
    match decoded {
        Some(bytes) => Ok(bytes),
        None => Err(MetadataError::InvalidHex),
    }
}

/// The selector that a parsed number gives: its four bytes, highest first.
pub open spec fn spec_selector_from_parsed(parsed: Option<u32>) -> Result<
    Seq<u8>,
    MetadataError,
> {
    match parsed {
        Some(value) => Ok(spec_be_bytes(value)),
        None => Err(MetadataError::InvalidSelector),
    }
}

/// What decoded code holds, as plain values.
pub open spec fn spec_code_view(r: Result<Vec<u8>, MetadataError>) -> Result<
    Seq<u8>,
    MetadataError,
> {
    match r {
        Ok(bytes) => Ok(bytes@),
        Err(e) => Err(e),
    }
}

/// What a decoded selector holds, as plain values.
pub open spec fn spec_selector_view(r: Result<[u8; 4], MetadataError>) -> Result<
    Seq<u8>,
    MetadataError,
> {
    match r {
        Ok(selector) => Ok(selector@),
        Err(e) => Err(e),
    }
}

/// Takes the outcome of a hex decoding: the bytes, or `InvalidHex`.
pub fn code_from_hex(decoded: Result<Vec<u8>, FromHexError>) -> (r: Result<Vec<u8>, MetadataError>)
    ensures
        spec_code_view(r) == spec_code_from_hex(spec_hex_view(decoded)),
{
    match decoded {
        Ok(bytes) => Ok(bytes),
        Err(_) => Err(MetadataError::InvalidHex),
    }
}

/// Takes the outcome of a parse: the number's four bytes, highest first, or
/// `InvalidSelector`.
pub fn selector_from_parsed(parsed: Result<u32, ParseIntError>) -> (r: Result<
    [u8; 4],
    MetadataError,
>)
    ensures
        spec_selector_view(r) == spec_selector_from_parsed(spec_parsed_view(parsed)),
{
    match parsed {
        Ok(value) => {
            let selector: [u8; 4] = [
                (value / 0x100_0000) as u8,
                (value / 0x1_0000 % 0x100) as u8,
                (value / 0x100 % 0x100) as u8,
                (value % 0x100) as u8,
            ];
            Ok(selector)
        },
        Err(_) => Err(MetadataError::InvalidSelector),
    }
}

/// Decodes contract code from hexadecimal text.
pub fn deserialize_from_hex(buf: &str) -> (r: Result<Vec<u8>, MetadataError>)
    ensures
        spec_code_view(r) == spec_code_from_hex(hex_decoded(buf@)),
{
    code_from_hex(hex_into_bytes(buf))
}

/// Decodes a selector from text of the form `0x` and hex digits: the first
/// two bytes of the text are passed over unread, and the rest is the number.
///
/// The text must be such that its third byte starts a character, or ends the
/// text.
pub fn deserialize_selector_from_str_radix(buf: &str) -> (r: Result<[u8; 4], MetadataError>)
    requires
        is_char_boundary(buf.spec_bytes(), 2),
    ensures
        spec_selector_view(r) == spec_selector_from_parsed(
            parsed_u32(buf.spec_bytes().subrange(2, buf.spec_bytes().len() as int), 16),
        ),
{
    let (_, digits) = buf.split_at(2);
    selector_from_parsed(parse_u32_radix(digits, 16))
}

/// A constructor or a message of a contract: how it is called, and its name.
#[derive(Debug)]
pub struct Invokable {
    pub selector: [u8; 4],
    pub label: String,
}

/// An invokable, as plain values.
pub struct InvokableView {
    pub selector: Seq<u8>,
    pub label: Seq<char>,
}

impl View for Invokable {
    type V = InvokableView;

    open spec fn view(&self) -> InvokableView {
        InvokableView { selector: self.selector@, label: self.label@ }
    }
}

/// The invokables of a list, as plain values.
pub open spec fn spec_views(items: Seq<Invokable>) -> Seq<InvokableView> {
    Seq::new(items.len(), |i: int| items[i]@)
}

/// The invokable that each label names: of two with one label, the later.
pub open spec fn spec_by_label(items: Seq<InvokableView>) -> Map<Seq<char>, InvokableView>
    decreases items.len(),
{
    if items.len() == 0 {
        Map::empty()
    } else {
        spec_by_label(items.drop_last()).insert(items.last().label, items.last())
    }
}

/// No two invokables of the list share a label.
pub open spec fn spec_distinct_labels(items: Seq<InvokableView>) -> bool {
    forall|i: int, j: int| 0 <= i < j < items.len() ==> items[i].label != items[j].label
}

proof fn lemma_by_label_push(items: Seq<InvokableView>, item: InvokableView)
    ensures
        spec_by_label(items.push(item)) == spec_by_label(items).insert(item.label, item),
{
    assert(items.push(item).drop_last() =~= items);
}

proof fn lemma_by_label_update(items: Seq<InvokableView>, at: int, item: InvokableView)
    requires
        0 <= at < items.len(),
        spec_distinct_labels(items),
        items[at].label == item.label,
    ensures
        spec_distinct_labels(items.update(at, item)),
        spec_by_label(items.update(at, item)) == spec_by_label(items).insert(item.label, item),
    decreases items.len(),
{
    let updated = items.update(at, item);
    if at == items.len() - 1 {
        assert(updated.drop_last() =~= items.drop_last());
    } else {
        lemma_by_label_update(items.drop_last(), at, item);
        assert(updated.drop_last() =~= items.drop_last().update(at, item));
    }
}

proof fn lemma_by_label_absent(items: Seq<InvokableView>, label: Seq<char>)
    requires
        forall|i: int| 0 <= i < items.len() ==> items[i].label != label,
    ensures
        !spec_by_label(items).dom().contains(label),
    decreases items.len(),
{
    if items.len() > 0 {
        lemma_by_label_absent(items.drop_last(), label);
    }
}

proof fn lemma_by_label_present(items: Seq<InvokableView>, at: int)
    requires
        0 <= at < items.len(),
        spec_distinct_labels(items),
    ensures
        spec_by_label(items).dom().contains(items[at].label),
        spec_by_label(items)[items[at].label] == items[at],
    decreases items.len(),
{
    if at < items.len() - 1 {
        lemma_by_label_present(items.drop_last(), at);
    }
}

/// Looks an invokable up by its label, in a list without repeated labels.
pub fn find_by_label<'a>(items: &'a Vec<Invokable>, label: &String) -> (found: Option<
    &'a Invokable,
>)
    requires
        spec_distinct_labels(spec_views(items@)),
    ensures
        match found {
            Some(item) => spec_by_label(spec_views(items@)).dom().contains(label@)
                && spec_by_label(spec_views(items@))[label@] == item@,
            None => !spec_by_label(spec_views(items@)).dom().contains(label@),
        },
{
    let mut at: usize = 0;
    while at < items.len()
        invariant
            at <= items.len(),
            spec_distinct_labels(spec_views(items@)),
            forall|i: int| 0 <= i < at ==> spec_views(items@)[i].label != label@,
        decreases items.len() - at,
    {
        if items[at].label == *label {
            proof {
                lemma_by_label_present(spec_views(items@), at as int);
            }
            return Some(&items[at]);
        }
        at += 1;
    }
    proof {
        lemma_by_label_absent(spec_views(items@), label@);
    }
    None
}

/// Indexes invokables by label: of several with one label the last is kept,
/// and each label is kept once.
pub fn deserialize_from_invokable_vec(items: Vec<Invokable>) -> (indexed: Vec<Invokable>)
    ensures
        spec_distinct_labels(spec_views(indexed@)),
        spec_by_label(spec_views(indexed@)) == spec_by_label(spec_views(items@)),
{
    let mut indexed: Vec<Invokable> = Vec::new();
    let mut next: usize = 0;
    while next < items.len()
        invariant
            next <= items.len(),
            spec_distinct_labels(spec_views(indexed@)),
            spec_by_label(spec_views(indexed@)) == spec_by_label(
                spec_views(items@).take(next as int),
            ),
        decreases items.len() - next,
    {
        let item = Invokable {
            selector: items[next].selector,
            label: items[next].label.clone(),
        };
        let ghost before = spec_views(indexed@);
        let ghost taken = spec_views(items@).take(next as int);
        proof {
            assert(spec_views(items@).take(next + 1) =~= taken.push(item@));
            lemma_by_label_push(taken, item@);
        }
        let mut at: usize = 0;
        while at < indexed.len() && !(indexed[at].label == item.label)
            invariant
                at <= indexed.len(),
                forall|i: int| 0 <= i < at ==> spec_views(indexed@)[i].label != item@.label,
            decreases indexed.len() - at,
        {
            at += 1;
        }
        if at < indexed.len() {
            proof {
                lemma_by_label_update(before, at as int, item@);
            }
            indexed.set(at, item);
            assert(spec_views(indexed@) =~= before.update(at as int, item@));
        } else {
            proof {
                lemma_by_label_push(before, item@);
            }
            indexed.push(item);
            assert(spec_views(indexed@) =~= before.push(item@));
        }
        next += 1;
    }
    assert(spec_views(items@).take(next as int) =~= spec_views(items@));
    indexed
}

/// The constructors and the messages of a contract, each list without
/// repeated labels.
#[derive(Debug)]
pub struct Spec {
    pub constructors: Vec<Invokable>,
    pub messages: Vec<Invokable>,
}

impl Spec {
    /// Neither list repeats a label.
    pub open spec fn wf(&self) -> bool {
        &&& spec_distinct_labels(spec_views(self.constructors@))
        &&& spec_distinct_labels(spec_views(self.messages@))
    }

    /// Indexes the two lists as they came from the metadata.
    pub fn new(constructors: Vec<Invokable>, messages: Vec<Invokable>) -> (spec: Spec)
        ensures
            spec.wf(),
            spec_by_label(spec_views(spec.constructors@)) == spec_by_label(
                spec_views(constructors@),
            ),
            spec_by_label(spec_views(spec.messages@)) == spec_by_label(spec_views(messages@)),
    {
        Spec {
            constructors: deserialize_from_invokable_vec(constructors),
            messages: deserialize_from_invokable_vec(messages),
        }
    }

    /// The constructor of the given label.
    pub fn constructor(&self, label: &String) -> (found: Option<&Invokable>)
        requires
            self.wf(),
        ensures
            match found {
                Some(item) => spec_by_label(spec_views(self.constructors@)).dom().contains(label@)
                    && spec_by_label(spec_views(self.constructors@))[label@] == item@,
                None => !spec_by_label(spec_views(self.constructors@)).dom().contains(label@),
            },
    {
        find_by_label(&self.constructors, label)
    }

    /// The message of the given label.
    pub fn message(&self, label: &String) -> (found: Option<&Invokable>)
        requires
            self.wf(),
        ensures
            match found {
                Some(item) => spec_by_label(spec_views(self.messages@)).dom().contains(label@)
                    && spec_by_label(spec_views(self.messages@))[label@] == item@,
                None => !spec_by_label(spec_views(self.messages@)).dom().contains(label@),
            },
    {
        find_by_label(&self.messages, label)
    }
}

/// The code of a contract and its hash.
#[derive(Debug)]
pub struct Source {
    pub wasm: Vec<u8>,
    pub hash: [u8; 32],
}

/// A compiled contract, as its metadata describes it.
#[derive(Debug)]
pub struct Contract {
    pub source: Source,
    pub spec: Spec,
}

} // verus!
