//! The panel that explains a call before it is signed: which panel applies, and
//! its lines.
//!
//! Values and labels that come from a contract, its calldata or a descriptor are made
//! safe to show. Names, intents and the formatter's remarks are shown as the decoder
//! gives them.
//!
//! Warnings that cast doubt on the title stand above it; those that only qualify
//! the call stand below the arguments.

use vstd::prelude::*;

use crate::sanitize::{
    all_safe, is_safe, law_shown_text_is_safe, law_stripped_text_is_safe, sanitize_display,
    sanitized, strip_display, stripped,
};
use crate::text::{chars_of, dec, decimal, join, join2, join3, join4, joined, texts};
use crate::types::{hex_char, short_address, short_address_of, Address};

verus! {

// ── types of arguments ──────────────────────────────────────────────────────

/// The type of an argument.
#[derive(Debug)]
pub enum SolType {
    Address,
    Bool,
    Str,
    Bytes,
    FixedBytes(u16),
    Uint(u16),
    Int(u16),
    Tuple(Vec<SolType>),
    Array(Box<SolType>),
    FixedArray(Box<SolType>, u64),
    Function,
    CustomStruct { name: String },
}

/// The canonical text of a type.
pub open spec fn type_text(t: SolType) -> Seq<char>
    decreases t,
{
    match t {
        SolType::Address => "address"@,
        SolType::Bool => "bool"@,
        SolType::Str => "string"@,
        SolType::Bytes => "bytes"@,
        SolType::FixedBytes(n) => "bytes"@ + dec(n as nat),
        SolType::Uint(n) => "uint"@ + dec(n as nat),
        SolType::Int(n) => "int"@ + dec(n as nat),
        SolType::Tuple(items) => "("@ + joined(type_texts(items@), ","@) + ")"@,
        SolType::Array(inner) => type_text(*inner) + "[]"@,
        SolType::FixedArray(inner, n) => type_text(*inner) + "["@ + dec(n as nat) + "]"@,
        SolType::Function => "function"@,
        SolType::CustomStruct { name } => name@,
    }
}

/// The canonical texts of some types.
pub open spec fn type_texts(ts: Seq<SolType>) -> Seq<Seq<char>>
    decreases ts,
{
    if ts.len() == 0 {
        Seq::empty()
    } else {
        type_texts(ts.drop_last()).push(type_text(ts.last()))
    }
}

/// The canonical text of a type.
pub fn ty_short(t: &SolType) -> (r: String)
    ensures
        r@ == type_text(*t),
    decreases *t,
{
    match t {
        SolType::Address => "address".to_owned(),
        SolType::Bool => "bool".to_owned(),
        SolType::Str => "string".to_owned(),
        SolType::Bytes => "bytes".to_owned(),
        SolType::FixedBytes(n) => {
            let d = decimal(*n as u64);
            join2("bytes", d.as_str())
        },
        SolType::Uint(n) => {
            let d = decimal(*n as u64);
            join2("uint", d.as_str())
        },
        SolType::Int(n) => {
            let d = decimal(*n as u64);
            join2("int", d.as_str())
        },
        SolType::Tuple(items) => {
            let mut parts: Vec<String> = Vec::new();
            let mut i: usize = 0;
            assert(texts(parts@) =~= Seq::<Seq<char>>::empty());
            while i < items.len()
                invariant
                    i <= items.len(),
                    *t == SolType::Tuple(*items),
                    texts(parts@) == type_texts(items@.take(i as int)),
                decreases items.len() - i,
            {
                let ghost before = parts@;
                assert(items@.take(i + 1).drop_last() =~= items@.take(i as int));
                assert(decreases_to!(*t => t->Tuple_0@[i as int]));
                let part = ty_short(&items[i]);
                parts.push(part);
                assert(texts(parts@) =~= texts(before).push(part@));
                i += 1;
            }
            assert(items@.take(items@.len() as int) =~= items@);
            let inner = join(&parts, ",");
            join3("(", inner.as_str(), ")")
        },
        SolType::Array(inner) => {
            let s = ty_short(inner);
            join2(s.as_str(), "[]")
        },
        SolType::FixedArray(inner, n) => {
            let s = ty_short(inner);
            let d = decimal(*n);
            join4(s.as_str(), "[", d.as_str(), "]")
        },
        SolType::Function => "function".to_owned(),
        SolType::CustomStruct { name } => name.clone(),
    }
}

// ── bytes ───────────────────────────────────────────────────────────────────

/// Two lower-case hexadecimal digits per byte.
pub open spec fn hex_of(b: Seq<u8>) -> Seq<char>
    decreases b.len(),
{
    if b.len() == 0 {
        Seq::empty()
    } else {
        hex_of(b.drop_last()).push(hex_char((b.last() / 16) as nat)).push(
            hex_char((b.last() % 16) as nat),
        )
    }
}

/// `alloy`'s `hex::encode`: two lower-case hexadecimal digits per byte, without
/// a prefix.
#[verifier::external_body]
pub(crate) fn hex_encode(b: &Vec<u8>) -> (r: String)
    ensures
        r@ == hex_of(b@),
{
    alloy::hex::encode(b)
}

/// Text from a contract or from calldata as it is shown: stripped of what could
/// mislead, and cut to `max` characters.
pub fn truncate(s: &str, max: usize) -> (r: String)
    ensures
        r@ == sanitized(s@, max as nat),
{
    sanitize_display(s, max)
}

// ── warnings ────────────────────────────────────────────────────────────────

/// What is suspicious about a call.
#[derive(Debug)]
pub enum Warning {
    InfiniteApproval { spender: Address },
    UnverifiedBytecode,
    AmbiguousSignature { candidates: Vec<String> },
    BytecodeMismatch { candidates: Vec<String> },
}

/// A warning that casts doubt on the title, so that it has to be read first.
pub open spec fn rides_above(w: Warning) -> bool {
    w is AmbiguousSignature || w is BytecodeMismatch
}

/// The line of a warning.
pub open spec fn warning_text(w: Warning) -> Seq<char> {
    match w {
        Warning::InfiniteApproval { spender } => "⚠ infinite approval to "@ + short_address_of(
            spender,
        ),
        Warning::UnverifiedBytecode => "⚠ bytecode read fell back to unverified RPC"@,
        Warning::AmbiguousSignature { candidates } => "⚠ ambiguous: "@ + sanitized(
            joined(texts(candidates@), ", "@),
            60,
        ),
        Warning::BytecodeMismatch { candidates } => {
            "⚠ possible spoof — on-chain code matches no known signature (claimed: "@ + sanitized(
                joined(texts(candidates@), ", "@),
                48,
            ) + ")"@
        },
    }
}

/// Tells whether a warning has to be read before the title.
fn is_above(w: &Warning) -> (b: bool)
    ensures
        b == rides_above(*w),
{
    match w {
        Warning::AmbiguousSignature { .. } => true,
        Warning::BytecodeMismatch { .. } => true,
        _ => false,
    }
}

/// The line of a warning.
pub fn warning_line(w: &Warning) -> (r: String)
    ensures
        r@ == warning_text(*w),
{
    match w {
        Warning::InfiniteApproval { spender } => {
            let s = short_address(*spender);
            join2("⚠ infinite approval to ", s.as_str())
        },
        Warning::UnverifiedBytecode => "⚠ bytecode read fell back to unverified RPC".to_owned(),
        Warning::AmbiguousSignature { candidates } => {
            let names = join(candidates, ", ");
            let t = truncate(names.as_str(), 60);
            join2("⚠ ambiguous: ", t.as_str())
        },
        Warning::BytecodeMismatch { candidates } => {
            let names = join(candidates, ", ");
            let t = truncate(names.as_str(), 48);
            join3(
                "⚠ possible spoof — on-chain code matches no known signature (claimed: ",
                t.as_str(),
                ")",
            )
        },
    }
}

/// The lines of those warnings that stand above the title, or of those that
/// stand below, in order.
pub open spec fn warning_texts(ws: Seq<Warning>, above: bool) -> Seq<Seq<char>>
    decreases ws.len(),
{
    if ws.len() == 0 {
        Seq::empty()
    } else {
        let before = warning_texts(ws.drop_last(), above);
        if rides_above(ws.last()) == above {
            before.push(warning_text(ws.last()))
        } else {
            before
        }
    }
}

/// The lines of those warnings that stand above the title, or of those that
/// stand below, in order.
pub fn warning_lines(ws: &Vec<Warning>, above: bool) -> (r: Vec<String>)
    ensures
        texts(r@) == warning_texts(ws@, above),
{
    let mut out: Vec<String> = Vec::new();
    let mut i: usize = 0;
    assert(texts(out@) =~= Seq::<Seq<char>>::empty());
    while i < ws.len()
        invariant
            i <= ws.len(),
            texts(out@) == warning_texts(ws@.take(i as int), above),
        decreases ws.len() - i,
    {
        let ghost before = out@;
        assert(ws@.take(i + 1).drop_last() =~= ws@.take(i as int));
        if is_above(&ws[i]) == above {
            let line = warning_line(&ws[i]);
            out.push(line);
            assert(texts(out@) =~= texts(before).push(line@));
        }
        i += 1;
    }
    assert(ws@.take(ws@.len() as int) =~= ws@);
    out
}

/// Every warning is shown once: above the title or below the arguments.
pub proof fn law_every_warning_is_shown(ws: Seq<Warning>)
    ensures
        warning_texts(ws, true).len() + warning_texts(ws, false).len() == ws.len(),
    decreases ws.len(),
{
    if ws.len() > 0 {
        law_every_warning_is_shown(ws.drop_last());
    }
}

// ── the heuristic panel ─────────────────────────────────────────────────────

/// How sure the decoding is.
#[derive(Debug, Clone, Copy, PartialEq, Eq, Structural)]
pub enum ResolutionState {
    Resolved,
    Ambiguous,
    TypesOnly,
    Unknown,
    Empty,
}

/// The value of an argument.
#[derive(Debug)]
pub enum ArgDisplay {
    Address { addr: Address, ens: Option<String> },
    Number(String),
    Bool(bool),
    Str(String),
    Bytes(Vec<u8>),
    Raw(String),
}

/// A decoded argument.
#[derive(Debug)]
pub struct DecodedArg {
    pub name: Option<String>,
    pub ty: SolType,
    pub display: ArgDisplay,
}

/// A call that was decoded without a descriptor.
#[derive(Debug)]
pub struct DecodedCall {
    pub function_name: Option<String>,
    pub selector: Vec<u8>,
    pub state: ResolutionState,
    pub args: Vec<DecodedArg>,
    pub warnings: Vec<Warning>,
    pub proxied: bool,
    pub all_verified: bool,
    pub raw_calldata: Vec<u8>,
}

/// The head of the heuristic panel.
#[derive(Debug)]
pub struct Header {
    pub title: String,
    /// The title is only one of several candidates.
    pub muted: bool,
    pub subtitle: Option<&'static str>,
    pub via_proxy: bool,
}

/// The title of a decoded call: its name, or its selector where it has none.
pub open spec fn call_title(d: DecodedCall) -> Seq<char> {
    match d.function_name {
        Some(name) => name@ + "(…)"@,
        None => "0x"@ + hex_of(d.selector@),
    }
}

/// The head of the heuristic panel.
pub fn header(d: &DecodedCall) -> (r: Header)
    ensures
        r.title@ == call_title(*d),
        r.muted == (d.state == ResolutionState::Ambiguous),
        match d.state {
            ResolutionState::TypesOnly => r.subtitle matches Some(s) && s@
                == "decoded from bytecode · no name"@,
            ResolutionState::Unknown => r.subtitle matches Some(s) && s@ == "unverified call"@,
            _ => r.subtitle is None,
        },
        r.via_proxy == d.proxied,
{
    let title = match &d.function_name {
        Some(name) => join2(name.as_str(), "(…)"),
        None => {
            let hex = hex_encode(&d.selector);
            join2("0x", hex.as_str())
        },
    };
    let subtitle = match d.state {
        ResolutionState::TypesOnly => Some("decoded from bytecode · no name"),
        ResolutionState::Unknown => Some("unverified call"),
        _ => None,
    };
    Header { title, muted: d.state == ResolutionState::Ambiguous, subtitle, via_proxy: d.proxied }
}

/// A label with its value.
#[derive(Debug)]
pub struct Row {
    pub label: String,
    pub value: String,
    /// The value stands on the label's line; a longer one gets lines of its own.
    pub inline: bool,
}

/// The longest value that fits behind its label.
pub const VALUE_INLINE_MAX: usize = 20;

/// A row, with texts as character sequences.
pub struct RowView {
    pub label: Seq<char>,
    pub value: Seq<char>,
    pub inline: bool,
}

impl View for Row {
    type V = RowView;

    open spec fn view(&self) -> RowView {
        RowView { label: self.label@, value: self.value@, inline: self.inline }
    }
}

/// A label with its value.
pub open spec fn row_of(label: Seq<char>, value: Seq<char>) -> RowView {
    RowView { label, value, inline: value.len() <= VALUE_INLINE_MAX }
}

/// A label with its value.
pub fn labeled_value(label: String, value: String) -> (r: Row)
    ensures
        r@ == row_of(label@, value@),
{
    let v = chars_of(value.as_str());
    let inline = v.len() <= VALUE_INLINE_MAX;
    Row { label, value, inline }
}

/// The text of an argument's value.
pub open spec fn value_text(d: ArgDisplay) -> Seq<char> {
    match d {
        ArgDisplay::Address { addr, ens } => match ens {
            Some(name) => name@ + "  "@ + short_address_of(addr),
            None => short_address_of(addr),
        },
        ArgDisplay::Number(s) => s@,
        ArgDisplay::Bool(b) => if b {
            "true"@
        } else {
            "false"@
        },
        ArgDisplay::Str(s) => "\""@ + sanitized(s@, 48) + "\""@,
        ArgDisplay::Bytes(b) => "0x"@ + sanitized(hex_of(b@), 32),
        ArgDisplay::Raw(s) => sanitized(s@, 48),
    }
}

/// The row of an argument.
pub open spec fn arg_view(a: DecodedArg) -> RowView {
    let unnamed = match a.name {
        Some(n) => n@.len() == 0,
        None => true,
    };
    row_of(
        if unnamed {
            "· "@ + type_text(a.ty)
        } else {
            "· "@ + a.name->0@ + ": "@ + type_text(a.ty)
        },
        value_text(a.display),
    )
}

/// The row of an argument.
pub fn arg_row(a: &DecodedArg) -> (r: Row)
    ensures
        r@ == arg_view(*a),
{
    let ty = ty_short(&a.ty);
    let label = match &a.name {
        Some(n) => if n.as_str().is_empty() {
            join2("· ", ty.as_str())
        } else {
            join4("· ", n.as_str(), ": ", ty.as_str())
        },
        None => join2("· ", ty.as_str()),
    };
    let value = match &a.display {
        ArgDisplay::Address { addr, ens } => {
            let s = short_address(*addr);
            match ens {
                Some(name) => join3(name.as_str(), "  ", s.as_str()),
                None => s,
            }
        },
        ArgDisplay::Number(s) => s.clone(),
        ArgDisplay::Bool(b) => if *b {
            "true".to_owned()
        } else {
            "false".to_owned()
        },
        ArgDisplay::Str(s) => {
            let t = truncate(s.as_str(), 48);
            join3("\"", t.as_str(), "\"")
        },
        ArgDisplay::Bytes(b) => {
            let hex = hex_encode(b);
            let t = truncate(hex.as_str(), 32);
            join2("0x", t.as_str())
        },
        ArgDisplay::Raw(s) => truncate(s.as_str(), 48),
    };
    labeled_value(label, value)
}

/// The row with the raw calldata, for a call that could not be decoded at all.
pub fn unknown_call_body(d: &DecodedCall) -> (r: Option<Row>)
    ensures
        r is Some <==> d.args@.len() == 0 && d.state == ResolutionState::Unknown,
        r matches Some(row) ==> row@ == row_of(
            "· raw"@,
            "0x"@ + sanitized(hex_of(d.raw_calldata@), 64),
        ),
{
    if d.args.len() == 0 && d.state == ResolutionState::Unknown {
        let hex = hex_encode(&d.raw_calldata);
        let t = truncate(hex.as_str(), 64);
        Some(labeled_value("· raw".to_owned(), join2("0x", t.as_str())))
    } else {
        None
    }
}

// ── the clear-signed panel ──────────────────────────────────────────────────

/// A labelled value of a clear-signing descriptor.
#[derive(Debug)]
pub struct DisplayItem {
    pub label: String,
    pub value: String,
}

/// An entry of a clear-signing descriptor.
#[derive(Debug)]
pub enum DisplayEntry {
    Item(DisplayItem),
    Group { label: String, items: Vec<DisplayItem> },
    Nested { label: String, intent: String, entries: Vec<DisplayEntry> },
}

/// What a clear-signing descriptor makes of a call.
#[derive(Debug)]
pub struct DisplayModel {
    pub intent: String,
    pub interpolated_intent: Option<String>,
    pub contract_name: Option<String>,
    pub entries: Vec<DisplayEntry>,
}

/// A remark of the descriptor's formatter.
#[derive(Debug)]
pub struct FormatDiagnostic {
    pub is_warning: bool,
    pub message: String,
}

/// A line of the clear-signed panel.
#[derive(Debug)]
pub struct EntryRow {
    /// How deep the entry is nested.
    pub depth: u16,
    pub kind: EntryKind,
}

/// What stands on a line of the clear-signed panel.
#[derive(Debug)]
pub enum EntryKind {
    /// A label with its value; inside a group it is set in.
    Item { row: Row, grouped: bool },
    GroupHead(String),
    NestedHead { label: String, intent: String },
}

/// What stands on a line, with texts as character sequences.
pub enum KindView {
    Item { row: RowView, grouped: bool },
    GroupHead(Seq<char>),
    NestedHead { label: Seq<char>, intent: Seq<char> },
}

/// A line, with texts as character sequences.
pub struct EntryView {
    pub depth: nat,
    pub kind: KindView,
}

impl View for EntryRow {
    type V = EntryView;

    open spec fn view(&self) -> EntryView {
        EntryView {
            depth: self.depth as nat,
            kind: match self.kind {
                EntryKind::Item { row, grouped } => KindView::Item { row: row@, grouped },
                EntryKind::GroupHead(s) => KindView::GroupHead(s@),
                EntryKind::NestedHead { label, intent } => KindView::NestedHead {
                    label: label@,
                    intent: intent@,
                },
            },
        }
    }
}

/// Some lines, viewed.
pub open spec fn entry_views(v: Seq<EntryRow>) -> Seq<EntryView> {
    v.map_values(|r: EntryRow| r@)
}

/// The line of an item.
pub open spec fn item_view(i: DisplayItem, depth: nat, grouped: bool) -> EntryView {
    EntryView {
        depth,
        kind: KindView::Item {
            row: row_of("· "@ + stripped(i.label@), sanitized(i.value@, 48)),
            grouped,
        },
    }
}

/// The lines of a group's items.
pub open spec fn item_views(items: Seq<DisplayItem>, depth: nat) -> Seq<EntryView>
    decreases items.len(),
{
    if items.len() == 0 {
        Seq::empty()
    } else {
        item_views(items.drop_last(), depth).push(item_view(items.last(), depth, true))
    }
}

/// The lines of an entry.
pub open spec fn lines_of(e: DisplayEntry, depth: nat) -> Seq<EntryView>
    decreases e,
{
    match e {
        DisplayEntry::Item(i) => seq![item_view(i, depth, false)],
        DisplayEntry::Group { label, items } => seq![
            EntryView { depth, kind: KindView::GroupHead(stripped(label@)) },
        ] + item_views(items@, depth),
        DisplayEntry::Nested { label, intent, entries } => seq![
            EntryView {
                depth,
                kind: KindView::NestedHead { label: stripped(label@), intent: intent@ },
            },
        ] + lines_of_all(entries@, depth + 1),
    }
}

/// The lines of some entries.
pub open spec fn lines_of_all(es: Seq<DisplayEntry>, depth: nat) -> Seq<EntryView>
    decreases es,
{
    if es.len() == 0 {
        Seq::empty()
    } else {
        lines_of_all(es.drop_last(), depth) + lines_of(es.last(), depth)
    }
}

/// How many levels an entry is nested below itself.
pub open spec fn levels(e: DisplayEntry) -> nat
    decreases e,
{
    match e {
        DisplayEntry::Nested { entries, .. } => 1 + levels_of_all(entries@),
        _ => 0,
    }
}

/// How many levels some entries are nested at most.
pub open spec fn levels_of_all(es: Seq<DisplayEntry>) -> nat
    decreases es,
{
    if es.len() == 0 {
        0
    } else {
        let rest = levels_of_all(es.drop_last());
        if levels(es.last()) > rest {
            levels(es.last())
        } else {
            rest
        }
    }
}

/// One entry is nested no deeper than all of them are.
proof fn lemma_levels(es: Seq<DisplayEntry>, i: int)
    requires
        0 <= i < es.len(),
    ensures
        levels(es[i]) <= levels_of_all(es),
    decreases es.len(),
{
    if i < es.len() - 1 {
        lemma_levels(es.drop_last(), i);
    }
}

fn item_row(i: &DisplayItem, depth: u16, grouped: bool) -> (r: EntryRow)
    ensures
        r@ == item_view(*i, depth as nat, grouped),
{
    let value = truncate(i.value.as_str(), 48);
    let label = strip_display(i.label.as_str());
    let row = labeled_value(join2("· ", label.as_str()), value);
    EntryRow { depth, kind: EntryKind::Item { row, grouped } }
}

fn push_row(out: &mut Vec<EntryRow>, r: EntryRow)
    ensures
        entry_views(final(out)@) == entry_views(old(out)@).push(r@),
{
    out.push(r);
    assert(entry_views(out@) =~= entry_views(old(out)@).push(r@));
}

/// Appends the lines of an entry.
fn push_display_entry(out: &mut Vec<EntryRow>, e: &DisplayEntry, depth: u16)
    requires
        depth + levels(*e) <= u16::MAX,
    ensures
        entry_views(final(out)@) == entry_views(old(out)@) + lines_of(*e, depth as nat),
    decreases *e,
{
    let ghost start = entry_views(out@);
    match e {
        DisplayEntry::Item(i) => {
            push_row(out, item_row(i, depth, false));
            assert(entry_views(out@) =~= start + lines_of(*e, depth as nat));
        },
        DisplayEntry::Group { label, items } => {
            let shown = strip_display(label.as_str());
            push_row(out, EntryRow { depth, kind: EntryKind::GroupHead(shown) });
            let ghost head = EntryView {
                depth: depth as nat,
                kind: KindView::GroupHead(stripped(label@)),
            };
            let mut i: usize = 0;
            assert(entry_views(out@) =~= start.push(head) + item_views(
                items@.take(0),
                depth as nat,
            ));
            while i < items.len()
                invariant
                    i <= items.len(),
                    entry_views(out@) == start.push(head) + item_views(
                        items@.take(i as int),
                        depth as nat,
                    ),
                decreases items.len() - i,
            {
                assert(items@.take(i + 1).drop_last() =~= items@.take(i as int));
                push_row(out, item_row(&items[i], depth, true));
                i += 1;
                assert(entry_views(out@) =~= start.push(head) + item_views(
                    items@.take(i as int),
                    depth as nat,
                ));
            }
            assert(items@.take(items@.len() as int) =~= items@);
            assert(entry_views(out@) =~= start + lines_of(*e, depth as nat));
        },
        DisplayEntry::Nested { label, intent, entries } => {
            let shown = strip_display(label.as_str());
            push_row(
                out,
                EntryRow {
                    depth,
                    kind: EntryKind::NestedHead { label: shown, intent: intent.clone() },
                },
            );
            let ghost head = EntryView {
                depth: depth as nat,
                kind: KindView::NestedHead { label: stripped(label@), intent: intent@ },
            };
            let mut i: usize = 0;
            assert(entry_views(out@) =~= start.push(head) + lines_of_all(
                entries@.take(0),
                (depth + 1) as nat,
            ));
            while i < entries.len()
                invariant
                    i <= entries.len(),
                    *e == (DisplayEntry::Nested {
                        label: *label,
                        intent: *intent,
                        entries: *entries,
                    }),
                    depth + levels(*e) <= u16::MAX,
                    entry_views(out@) == start.push(head) + lines_of_all(
                        entries@.take(i as int),
                        (depth + 1) as nat,
                    ),
                decreases entries.len() - i,
            {
                assert(entries@.take(i + 1).drop_last() =~= entries@.take(i as int));
                proof {
                    lemma_levels(entries@, i as int);
                }
                assert(decreases_to!(*e => entries@[i as int]));
                push_display_entry(out, &entries[i], depth + 1);
                i += 1;
                assert(entry_views(out@) =~= start.push(head) + lines_of_all(
                    entries@.take(i as int),
                    (depth + 1) as nat,
                ));
            }
            assert(entries@.take(entries@.len() as int) =~= entries@);
            assert(entry_views(out@) =~= start + lines_of(*e, depth as nat));
        },
    }
}

/// The lines of a descriptor's entries. They may be nested as deep as a depth
/// can be counted.
pub fn entry_rows(m: &DisplayModel) -> (r: Vec<EntryRow>)
    requires
        levels_of_all(m.entries@) <= u16::MAX,
    ensures
        entry_views(r@) == lines_of_all(m.entries@, 0),
{
    let mut out: Vec<EntryRow> = Vec::new();
    let mut i: usize = 0;
    assert(entry_views(out@) =~= Seq::<EntryView>::empty());
    while i < m.entries.len()
        invariant
            i <= m.entries.len(),
            levels_of_all(m.entries@) <= u16::MAX,
            entry_views(out@) == lines_of_all(m.entries@.take(i as int), 0),
        decreases m.entries.len() - i,
    {
        assert(m.entries@.take(i + 1).drop_last() =~= m.entries@.take(i as int));
        proof {
            lemma_levels(m.entries@, i as int);
        }
        push_display_entry(&mut out, &m.entries[i], 0);
        i += 1;
    }
    assert(m.entries@.take(m.entries@.len() as int) =~= m.entries@);
    out
}

/// The lines of the formatter's warnings; other remarks are not shown.
pub open spec fn diagnostic_texts(ds: Seq<FormatDiagnostic>) -> Seq<Seq<char>>
    decreases ds.len(),
{
    if ds.len() == 0 {
        Seq::empty()
    } else if ds.last().is_warning {
        diagnostic_texts(ds.drop_last()).push("⚠ "@ + ds.last().message@)
    } else {
        diagnostic_texts(ds.drop_last())
    }
}

/// The lines of the formatter's warnings.
pub fn diagnostic_lines(ds: &Vec<FormatDiagnostic>) -> (r: Vec<String>)
    ensures
        texts(r@) == diagnostic_texts(ds@),
{
    let mut out: Vec<String> = Vec::new();
    let mut i: usize = 0;
    assert(texts(out@) =~= Seq::<Seq<char>>::empty());
    while i < ds.len()
        invariant
            i <= ds.len(),
            texts(out@) == diagnostic_texts(ds@.take(i as int)),
        decreases ds.len() - i,
    {
        let ghost before = out@;
        assert(ds@.take(i + 1).drop_last() =~= ds@.take(i as int));
        if ds[i].is_warning {
            let line = join2("⚠ ", ds[i].message.as_str());
            out.push(line);
            assert(texts(out@) =~= texts(before).push(line@));
        }
        i += 1;
    }
    assert(ds@.take(ds@.len() as int) =~= ds@);
    out
}

/// The head of the clear-signed panel.
#[derive(Debug)]
pub struct IntentHead {
    pub intent: String,
    /// The intent rests on reads that were not verified.
    pub muted: bool,
    pub caution: Option<&'static str>,
    pub via_proxy: bool,
}

/// The head of the clear-signed panel. Where some read was not verified the
/// intent is muted, and a caution says so.
pub fn intent_head(m: &DisplayModel, proxied: bool, all_verified: bool) -> (r: IntentHead)
    ensures
        r.intent@ == match m.interpolated_intent {
            Some(s) => s@,
            None => m.intent@,
        },
        r.muted == !all_verified,
        r.caution is Some <==> !all_verified,
        r.caution matches Some(c) ==> c@
            == "⚠ Some on-chain reads fell back to unverified RPC — the intent, names and amounts below may be spoofed."@,
        r.via_proxy == proxied,
{
    let intent = match &m.interpolated_intent {
        Some(s) => s.clone(),
        None => m.intent.clone(),
    };
    let caution = if all_verified {
        None
    } else {
        Some(
            "⚠ Some on-chain reads fell back to unverified RPC — the intent, names and amounts below may be spoofed.",
        )
    };
    IntentHead { intent, muted: !all_verified, caution, via_proxy: proxied }
}

/// The label of a line, and the value where it has one, may be shown as they are.
pub open spec fn line_safe(k: KindView) -> bool {
    match k {
        KindView::Item { row, .. } => all_safe(row.label) && all_safe(row.value),
        KindView::GroupHead(label) => all_safe(label),
        KindView::NestedHead { label, .. } => all_safe(label),
    }
}

proof fn lemma_label_safe(s: Seq<char>)
    ensures
        all_safe(stripped(s)),
{
    assert forall|i: int| 0 <= i < stripped(s).len() implies is_safe(#[trigger] stripped(s)[i]) by {
        law_stripped_text_is_safe(s, i);
    }
}

proof fn lemma_item_safe(i: DisplayItem, depth: nat, grouped: bool)
    ensures
        line_safe(item_view(i, depth, grouped).kind),
{
    reveal_strlit("· ");
    lemma_label_safe(i.label@);
    assert(all_safe("· "@ + stripped(i.label@)));
    let value = sanitized(i.value@, 48);
    assert forall|j: int| 0 <= j < value.len() implies is_safe(#[trigger] value[j]) by {
        law_shown_text_is_safe(i.value@, 48, j);
    }
}

proof fn lemma_items_safe(items: Seq<DisplayItem>, depth: nat, i: int)
    requires
        0 <= i < item_views(items, depth).len(),
    ensures
        line_safe(item_views(items, depth)[i].kind),
    decreases items.len(),
{
    if i < item_views(items.drop_last(), depth).len() {
        lemma_items_safe(items.drop_last(), depth, i);
    } else {
        lemma_item_safe(items.last(), depth, true);
    }
}

proof fn lemma_lines_safe(e: DisplayEntry, depth: nat, i: int)
    requires
        0 <= i < lines_of(e, depth).len(),
    ensures
        line_safe(lines_of(e, depth)[i].kind),
    decreases e,
{
    match e {
        DisplayEntry::Item(item) => lemma_item_safe(item, depth, false),
        DisplayEntry::Group { label, items } => {
            if i == 0 {
                lemma_label_safe(label@);
            } else {
                lemma_items_safe(items@, depth, i - 1);
            }
        },
        DisplayEntry::Nested { label, entries, .. } => {
            if i == 0 {
                lemma_label_safe(label@);
            } else {
                law_clear_signed_lines_are_safe(entries@, depth + 1, i - 1);
            }
        },
    }
}

/// However hostile a descriptor's labels and a call's values are, no line of the
/// clear-signed panel holds a character in its label or its value that reorders, hides
/// or controls text.
pub proof fn law_clear_signed_lines_are_safe(es: Seq<DisplayEntry>, depth: nat, i: int)
    requires
        0 <= i < lines_of_all(es, depth).len(),
    ensures
        line_safe(lines_of_all(es, depth)[i].kind),
    decreases es,
{
    let before = lines_of_all(es.drop_last(), depth).len();
    if i < before {
        law_clear_signed_lines_are_safe(es.drop_last(), depth, i);
    } else {
        lemma_lines_safe(es.last(), depth, i - before);
    }
}

// ── which panel ─────────────────────────────────────────────────────────────

/// What the decoding of a call came to.
#[derive(Debug)]
pub enum DecodeResult {
    /// A descriptor matched.
    ClearSigned {
        model: DisplayModel,
        diagnostics: Vec<FormatDiagnostic>,
        proxied: bool,
        all_verified: bool,
    },
    /// A descriptor matched in part, and the heuristics ran beside it.
    Fallback {
        model: DisplayModel,
        diagnostics: Vec<FormatDiagnostic>,
        all_verified: bool,
        heuristic: DecodedCall,
    },
    /// No descriptor.
    Heuristic(DecodedCall),
    /// A plain transfer.
    Empty,
}

/// The panel to show.
#[derive(Debug, Clone, Copy, PartialEq, Eq, Structural)]
pub enum Panel {
    /// There is nothing to explain.
    Nothing,
    Loading,
    /// The descriptor's intent; `all_verified` says whether all that it rests on
    /// was verified, `partial` that the descriptor matched in part only, which calls
    /// for a hint.
    ClearSigned { partial: bool, proxied: bool, all_verified: bool },
    Heuristic,
}

/// The panel to show. Beside a partial descriptor the heuristics' doubts count
/// as well.
pub open spec fn panel_of(decoded: Option<&DecodeResult>, loading: bool) -> Panel {
    if loading {
        Panel::Loading
    } else {
        match decoded {
            None => Panel::Nothing,
            Some(DecodeResult::ClearSigned { proxied, all_verified, .. }) => Panel::ClearSigned {
                partial: false,
                proxied: *proxied,
                all_verified: *all_verified,
            },
            Some(DecodeResult::Fallback { all_verified, heuristic, .. }) => Panel::ClearSigned {
                partial: true,
                proxied: heuristic.proxied,
                all_verified: *all_verified && heuristic.all_verified,
            },
            Some(DecodeResult::Heuristic(d)) => if d.state == ResolutionState::Empty {
                Panel::Nothing
            } else {
                Panel::Heuristic
            },
            Some(DecodeResult::Empty) => Panel::Nothing,
        }
    }
}

/// The panel to show.
pub fn panel(decoded: Option<&DecodeResult>, loading: bool) -> (r: Panel)
    ensures
        r == panel_of(decoded, loading),
{
    if loading {
        return Panel::Loading;
    }
    match decoded {
        None => Panel::Nothing,
        Some(DecodeResult::ClearSigned { proxied, all_verified, .. }) => Panel::ClearSigned {
            partial: false,
            proxied: *proxied,
            all_verified: *all_verified,
        },
        Some(DecodeResult::Fallback { all_verified, heuristic, .. }) => Panel::ClearSigned {
            partial: true,
            proxied: heuristic.proxied,
            all_verified: *all_verified && heuristic.all_verified,
        },
        Some(DecodeResult::Heuristic(d)) => if d.state == ResolutionState::Empty {
            Panel::Nothing
        } else {
            Panel::Heuristic
        },
        Some(DecodeResult::Empty) => Panel::Nothing,
    }
}

/// The warnings that stand above the intent of the clear-signed panel: those of
/// the heuristics, where they ran beside a partial descriptor.
pub fn intent_warnings(d: &DecodeResult) -> (r: Vec<String>)
    ensures
        texts(r@) == match *d {
            DecodeResult::Fallback { heuristic, .. } => warning_texts(heuristic.warnings@, true),
            _ => Seq::empty(),
        },
{
    match d {
        DecodeResult::Fallback { heuristic, .. } => warning_lines(&heuristic.warnings, true),
        _ => {
            let v: Vec<String> = Vec::new();
            assert(texts(v@) =~= Seq::<Seq<char>>::empty());
            v
        },
    }
}

/// A call is shown as fully verified only where everything it rests on was,
/// the heuristics' reads among it.
pub proof fn law_doubts_survive_a_descriptor(d: &DecodeResult)
    ensures
        d matches DecodeResult::Fallback { heuristic, .. } && !heuristic.all_verified ==> (
        panel_of(Some(d), false) matches Panel::ClearSigned { all_verified, .. } && !all_verified),
{
}

} // verus!
