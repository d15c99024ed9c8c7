//! Bounded host-to-UI messages. A logical batch of patches is applied only
//! after all its fragments arrived; nothing is shortened to fit.
use vstd::prelude::*;

use crate::data;
use crate::data::Value;
use crate::patch::{SpecViewPatch, ViewPatch};
use crate::text;

verus! {

/// The whole text of a UI message stays below this.
pub const VIEW_MESSAGE_LIMIT: usize = 65536;

/// A frame leaves room for the host's own wrapper.
pub const FRAME_LIMIT: usize = 64512;

/// What a fragment may carry, in escaped bytes.
pub const DATA_LIMIT: usize = 63488;

/// Outside error: what `serde_json` reports.
#[verifier::external_type_specification]
#[verifier::external_body]
pub struct ExJsonError(serde_json::Error);

/// Ordered within one host session.
#[derive(Debug, Clone, Copy, PartialEq, Eq, Structural)]
pub struct ViewRevision(pub u32);

impl DeepView for ViewRevision {
    type V = ViewRevision;

    open spec fn deep_view(&self) -> ViewRevision {
        *self
    }
}

impl Value for ViewRevision {
    fn dup(&self) -> (r: Self) {
        *self
    }

    fn same(&self, other: &Self) -> (b: bool) {
        *self == *other
    }
}

/// A snapshot replaces the UI's model; a delta needs the revision before.
#[derive(Debug, Clone, Copy, PartialEq, Eq, Structural)]
pub enum ViewBatchKind {
    Snapshot,
    Delta,
}

impl DeepView for ViewBatchKind {
    type V = ViewBatchKind;

    open spec fn deep_view(&self) -> ViewBatchKind {
        *self
    }
}

impl Value for ViewBatchKind {
    fn dup(&self) -> (r: Self) {
        *self
    }

    fn same(&self, other: &Self) -> (b: bool) {
        *self == *other
    }
}

#[derive(Debug, PartialEq, Eq)]
pub enum ViewFragmentPosition {
    Start { bytes: ViewBatchBytes },
    More { index: ViewFragmentIndex },
    End { index: ViewFragmentIndex },
}

/// Model of [`ViewFragmentPosition`].
#[verifier::ext_equal]
pub enum SpecViewFragmentPosition {
    Start { bytes: u32 },
    More { index: u32 },
    End { index: u32 },
}

impl DeepView for ViewFragmentPosition {
    type V = SpecViewFragmentPosition;

    open spec fn deep_view(&self) -> SpecViewFragmentPosition {
        match self {
            ViewFragmentPosition::Start { bytes } => SpecViewFragmentPosition::Start {
                bytes: bytes.deep_view(),
            },
            ViewFragmentPosition::More { index } => SpecViewFragmentPosition::More {
                index: index.deep_view(),
            },
            ViewFragmentPosition::End { index } => SpecViewFragmentPosition::End {
                index: index.deep_view(),
            },
        }
    }
}

#[derive(Debug, PartialEq, Eq)]
pub enum ViewFrameBody {
    Complete { patches: Vec<ViewPatch> },
    /// A part of the text of the batch, not a partial patch.
    Fragment { position: ViewFragmentPosition, json: String },
}

/// Model of [`ViewFrameBody`].
#[verifier::ext_equal]
pub enum SpecViewFrameBody {
    Complete { patches: Seq<SpecViewPatch> },
    Fragment { position: SpecViewFragmentPosition, json: Seq<char> },
}

impl DeepView for ViewFrameBody {
    type V = SpecViewFrameBody;

    open spec fn deep_view(&self) -> SpecViewFrameBody {
        match self {
            ViewFrameBody::Complete { patches } => SpecViewFrameBody::Complete {
                patches: patches.deep_view(),
            },
            ViewFrameBody::Fragment { position, json } => SpecViewFrameBody::Fragment {
                position: position.deep_view(),
                json: json.deep_view(),
            },
        }
    }
}

/// One message. Revision and kind are those of the whole batch.
#[derive(Debug, PartialEq, Eq)]
pub struct ViewFrame {
    pub revision: ViewRevision,
    pub kind: ViewBatchKind,
    pub body: ViewFrameBody,
}

/// Model of [`ViewFrame`].
#[verifier::ext_equal]
pub struct SpecViewFrame {
    pub revision: ViewRevision,
    pub kind: ViewBatchKind,
    pub body: SpecViewFrameBody,
}

impl DeepView for ViewFrame {
    type V = SpecViewFrame;

    open spec fn deep_view(&self) -> SpecViewFrame {
        SpecViewFrame {
            revision: self.revision,
            kind: self.kind,
            body: self.body.deep_view(),
        }
    }
}

/// The whole group of a batch's frames.
#[derive(Debug, PartialEq, Eq)]
pub struct ViewDelivery {
    pub(crate) frames: Vec<ViewFrame>,
}

/// Model of [`ViewDelivery`].
#[verifier::ext_equal]
pub struct SpecViewDelivery {
    pub frames: Seq<SpecViewFrame>,
}

impl DeepView for ViewDelivery {
    type V = SpecViewDelivery;

    open(crate) spec fn deep_view(&self) -> SpecViewDelivery {
        SpecViewDelivery {
            frames: self.frames.deep_view(),
        }
    }
}

/// Numbers and frames batches.
#[derive(Debug, Clone, Copy, PartialEq, Eq, Structural)]
pub struct ViewEncoder {
    pub revision: ViewRevision,
}

impl DeepView for ViewEncoder {
    type V = ViewEncoder;

    open spec fn deep_view(&self) -> ViewEncoder {
        *self
    }
}

impl Value for ViewEncoder {
    fn dup(&self) -> (r: Self) {
        *self
    }

    fn same(&self, other: &Self) -> (b: bool) {
        *self == *other
    }
}


/// Position of a continuation; the first fragment is implicitly the zeroth.
#[derive(Debug, Clone, Copy, PartialEq, Eq)]
pub struct ViewFragmentIndex(u32);

impl DeepView for ViewFragmentIndex {
    type V = u32;

    closed spec fn deep_view(&self) -> u32 {
        self.0
    }
}

impl ViewFragmentIndex {
    #[verifier::type_invariant]
    spec fn follows(self) -> bool {
        self.0 > 0
    }

    /// A continuation is never at the start.
    pub fn new(index: u32) -> (r: Option<Self>)
        ensures
            r.deep_view() == (if index == 0 {
                None::<u32>
            } else {
                Some(index)
            }),
    {
        if index == 0 {
            None
        } else {
            Some(ViewFragmentIndex(index))
        }
    }

    pub fn get(self) -> (r: u32)
        ensures
            r == self.deep_view(),
            r > 0,
    {
        proof {
            use_type_invariant(&self);
        }
        self.0
    }
}

/// UTF-8 bytes of the whole batch; never none.
#[derive(Debug, Clone, Copy, PartialEq, Eq)]
pub struct ViewBatchBytes(u32);

impl DeepView for ViewBatchBytes {
    type V = u32;

    closed spec fn deep_view(&self) -> u32 {
        self.0
    }
}

impl ViewBatchBytes {
    #[verifier::type_invariant]
    spec fn counts(self) -> bool {
        self.0 > 0
    }

    /// A batch is never empty.
    pub fn new(bytes: u32) -> (r: Option<Self>)
        ensures
            r.deep_view() == (if bytes == 0 {
                None::<u32>
            } else {
                Some(bytes)
            }),
    {
        if bytes == 0 {
            None
        } else {
            Some(ViewBatchBytes(bytes))
        }
    }

    pub fn get(self) -> (r: u32)
        ensures
            r == self.deep_view(),
            r > 0,
    {
        proof {
            use_type_invariant(&self);
        }
        self.0
    }
}

#[derive(Debug)]
pub enum ViewDeliveryError {
    /// Revisions are used up; the UI must reconnect.
    RevisionExhausted,
    /// The batch has more bytes than can be counted.
    BatchTooLarge,
    /// A frame came out longer than it may.
    FrameTooLarge,
    /// The text could not be written.
    Json(serde_json::Error),
}

/// The text of a `serde_json::Error`, by its `to_string`. Nothing is claimed
/// of the wording.
#[verifier::external_body]
fn json_fault(e: &serde_json::Error) -> (r: String) {
    e.to_string()
}

impl ViewDeliveryError {
    /// What the message starts with, and all of it but for the outside fault.
    pub open spec fn spec_message(self) -> Seq<char> {
        match self {
            ViewDeliveryError::RevisionExhausted => "view delivery revision exhausted; reconnect the UI"@,
            ViewDeliveryError::BatchTooLarge => "view batch exceeds the supported UTF-8 byte count"@,
            ViewDeliveryError::FrameTooLarge => "serialized view frame exceeded its byte budget"@,
            ViewDeliveryError::Json(_) => "view serialization failed: "@,
        }
    }

    /// What to tell the user.
    pub fn message(&self) -> (r: String)
        ensures
            self is Json ==> self.spec_message().is_prefix_of(r@),
            !(self is Json) ==> r@ == self.spec_message(),
    {
        match self {
            ViewDeliveryError::RevisionExhausted => "view delivery revision exhausted; reconnect the UI".to_owned(),
            ViewDeliveryError::BatchTooLarge => "view batch exceeds the supported UTF-8 byte count".to_owned(),
            ViewDeliveryError::FrameTooLarge => "serialized view frame exceeded its byte budget".to_owned(),
            ViewDeliveryError::Json(e) => {
                let mut out = "view serialization failed: ".to_owned();
                out.append(json_fault(e).as_str());
                out
            },
        }
    }
}

// ---- texts ----------------------------------------------------------------

/// A hexadecimal digit, in lower case.
pub open spec fn hex(n: u32) -> char {
    if n < 10 {
        ((48 + n) as u8) as char
    } else {
        ((87 + n) as u8) as char
    }
}

/// A character inside a JSON string.
pub open spec fn escaped_char(c: char) -> Seq<char> {
    if c == '"' || c == '\\' {
        seq!['\\', c]
    } else if c == '\u{8}' {
        seq!['\\', 'b']
    } else if c == '\u{c}' {
        seq!['\\', 'f']
    } else if c == '\n' {
        seq!['\\', 'n']
    } else if c == '\r' {
        seq!['\\', 'r']
    } else if c == '\t' {
        seq!['\\', 't']
    } else if (c as u32) < 0x20 {
        seq!['\\', 'u', '0', '0', hex((c as u32 / 16) as u32), hex((c as u32 % 16) as u32)]
    } else {
        seq![c]
    }
}

/// Characters inside a JSON string.
pub open spec fn escaped(s: Seq<char>) -> Seq<char>
    decreases s.len(),
{
    if s.len() == 0 {
        Seq::empty()
    } else {
        escaped(s.drop_last()) + escaped_char(s.last())
    }
}

/// A JSON string.
pub open spec fn quoted(s: Seq<char>) -> Seq<char> {
    seq!['"'] + escaped(s) + seq!['"']
}

/// `serde_json::to_string` of a text: a JSON string in double quotes. A
/// quote and a backslash are escaped with a backslash, the control
/// characters with a short escape or `\u00` and two digits; anything else
/// stands as it is. Writing to memory does not fail.
#[verifier::external_body]
fn json_string(s: &str) -> (r: Result<String, serde_json::Error>)
    ensures
        r is Ok,
        r->Ok_0@ == quoted(s@),
{
    serde_json::to_string(s)
}

/// What a character costs inside a JSON string, in bytes.
pub open spec fn cost(c: char) -> nat {
    if c == '"' || c == '\\' || c == '\u{8}' || c == '\u{c}' || c == '\n' || c == '\r' || c == '\t' {
        2
    } else if (c as u32) < 0x20 {
        6
    } else {
        text::width(c)
    }
}

fn cost_of(c: char) -> (r: usize)
    ensures
        r == cost(c),
        1 <= r <= 6,
{
    if c == '"' || c == '\\' || c == '\u{8}' || c == '\u{c}' || c == '\n' || c == '\r' || c == '\t' {
        2
    } else if (c as u32) < 0x20 {
        6
    } else {
        text::width_of(c) as usize
    }
}

pub open spec fn costs(s: Seq<char>) -> nat
    decreases s.len(),
{
    if s.len() == 0 {
        0
    } else {
        costs(s.drop_last()) + cost(s.last())
    }
}

proof fn lemma_cost(c: char)
    ensures
        text::byte_len(escaped_char(c)) == cost(c),
{
    let e = escaped_char(c);
    reveal_with_fuel(text::byte_len, 7);
    if e.len() == 1 {
        assert(e.drop_last() =~= Seq::empty());
    } else if e.len() == 2 {
        assert(e.drop_last().drop_last() =~= Seq::empty());
    } else {
        assert(e.len() == 6);
        assert(e.drop_last().drop_last().drop_last().drop_last().drop_last().drop_last() =~= Seq::empty());
    }
}

/// A text costs what its characters cost, and is quoted in two bytes more.
proof fn lemma_costs(s: Seq<char>)
    ensures
        text::byte_len(escaped(s)) == costs(s),
    decreases s.len(),
{
    if s.len() > 0 {
        lemma_costs(s.drop_last());
        lemma_cost(s.last());
        text::lemma_byte_len_join(escaped(s.drop_last()), escaped_char(s.last()));
    }
}

proof fn lemma_quoted(s: Seq<char>)
    ensures
        text::byte_len(quoted(s)) == costs(s) + 2,
{
    lemma_costs(s);
    let q = seq!['"'];
    text::lemma_byte_len_join(q, escaped(s));
    text::lemma_byte_len_join(q + escaped(s), q);
    reveal_with_fuel(text::byte_len, 2);
    assert(q.drop_last() =~= Seq::empty());
}

// ---- frames ---------------------------------------------------------------

impl ViewBatchKind {
    pub open spec fn name(self) -> Seq<char> {
        match self {
            ViewBatchKind::Snapshot => "Snapshot"@,
            ViewBatchKind::Delta => "Delta"@,
        }
    }
}

impl SpecViewFragmentPosition {
    pub open spec fn json(self) -> Seq<char> {
        match self {
            SpecViewFragmentPosition::Start { bytes } => "{\"type\":\"Start\",\"bytes\":"@ + text::decimal(
                bytes as nat,
            ) + "}"@,
            SpecViewFragmentPosition::More { index } => "{\"type\":\"More\",\"index\":"@ + text::decimal(index as nat)
                + "}"@,
            SpecViewFragmentPosition::End { index } => "{\"type\":\"End\",\"index\":"@ + text::decimal(index as nat)
                + "}"@,
        }
    }
}

/// A frame's text up to its body.
pub open spec fn head_json(revision: ViewRevision, kind: ViewBatchKind) -> Seq<char> {
    "{\"revision\":"@ + text::decimal(revision.0 as nat) + ",\"kind\":\""@ + kind.name() + "\",\"body\":{\"type\":\""@
}

impl SpecViewFrame {
    /// The frame's text, given that of its patches.
    pub open spec fn json(self, patches: Seq<char>) -> Seq<char> {
        head_json(self.revision, self.kind) + (match self.body {
            SpecViewFrameBody::Complete { .. } => "Complete\",\"patches\":"@ + patches,
            SpecViewFrameBody::Fragment { position, json } => "Fragment\",\"position\":"@ + position.json()
                + ",\"json\":"@ + quoted(json),
        }) + "}}"@
    }
}

/// The text cut where the next character would cost too much: the full
/// pieces, and the one in progress.
pub open spec fn cut(s: Seq<char>) -> (Seq<Seq<char>>, Seq<char>)
    decreases s.len(),
{
    if s.len() == 0 {
        (Seq::empty(), Seq::empty())
    } else {
        let (full, last) = cut(s.drop_last());
        let c = s.last();
        if costs(last) + cost(c) > DATA_LIMIT {
            (full.push(last), seq![c])
        } else {
            (full, last.push(c))
        }
    }
}

pub open spec fn pieces(s: Seq<char>) -> Seq<Seq<char>> {
    cut(s).0.push(cut(s).1)
}

/// Where the `i`th of `n` fragments is.
pub open spec fn position(i: int, n: nat, bytes: nat) -> SpecViewFragmentPosition {
    if i == 0 {
        SpecViewFragmentPosition::Start { bytes: bytes as u32 }
    } else if i == n - 1 {
        SpecViewFragmentPosition::End { index: i as u32 }
    } else {
        SpecViewFragmentPosition::More { index: i as u32 }
    }
}

/// The frames of a text that is sent in fragments.
pub open spec fn fragments(revision: ViewRevision, kind: ViewBatchKind, json: Seq<char>) -> Seq<SpecViewFrame> {
    Seq::new(
        pieces(json).len(),
        |i: int|
            SpecViewFrame {
                revision,
                kind,
                body: SpecViewFrameBody::Fragment {
                    position: position(i, pieces(json).len(), text::byte_len(json)),
                    json: pieces(json)[i],
                },
            },
    )
}

/// The frame of a batch that is sent in one.
pub open spec fn complete(revision: ViewRevision, kind: ViewBatchKind, patches: Seq<SpecViewPatch>) -> SpecViewFrame {
    SpecViewFrame { revision, kind, body: SpecViewFrameBody::Complete { patches } }
}

impl ViewEncoder {
    pub open spec fn next(self) -> ViewRevision {
        ViewRevision((self.revision.0 + 1) as u32)
    }

    /// Whether a batch fits in one frame.
    pub open spec fn fits(self, kind: ViewBatchKind, patches: Seq<SpecViewPatch>, json: Seq<char>) -> bool {
        text::byte_len(complete(self.next(), kind, patches).json(json)) < FRAME_LIMIT
    }

    /// The frames of a batch, or why there are none.
    pub open spec fn delivered(
        self,
        kind: ViewBatchKind,
        patches: Seq<SpecViewPatch>,
        json: Seq<char>,
    ) -> Result<
        Seq<SpecViewFrame>,
        ViewDeliveryError,
    > {
        if self.revision.0 == u32::MAX {
            Err(ViewDeliveryError::RevisionExhausted)
        } else if self.fits(kind, patches, json) {
            Ok(seq![complete(self.next(), kind, patches)])
        } else if text::byte_len(json) > u32::MAX {
            Err(ViewDeliveryError::BatchTooLarge)
        } else {
            Ok(fragments(self.next(), kind, json))
        }
    }
}

// ---- facts about the pieces -----------------------------------------------

/// Pieces put together.
pub open spec fn joined(pieces: Seq<Seq<char>>) -> Seq<char>
    decreases pieces.len(),
{
    if pieces.len() == 0 {
        Seq::empty()
    } else {
        joined(pieces.drop_last()) + pieces.last()
    }
}

proof fn lemma_cut(s: Seq<char>)
    ensures
        joined(cut(s).0) + cut(s).1 == s,
        cut(s).0.len() + cut(s).1.len() <= s.len(),
        s.len() > 0 ==> cut(s).1.len() > 0,
        costs(cut(s).1) <= DATA_LIMIT,
        forall|i: int|
            0 <= i < cut(s).0.len() ==> 0 < (#[trigger] cut(s).0[i]).len() && costs(cut(s).0[i]) <= DATA_LIMIT,
    decreases s.len(),
{
    if s.len() > 0 {
        lemma_cut(s.drop_last());
        let (full, last) = cut(s.drop_last());
        let c = s.last();
        assert(cost(c) <= 6);
        assert(s =~= s.drop_last().push(c));
        if costs(last) + cost(c) > DATA_LIMIT {
            reveal_with_fuel(costs, 2);
            assert(seq![c].drop_last() =~= Seq::empty());
            assert(full.push(last).drop_last() =~= full);
            assert(joined(full.push(last)) =~= joined(full) + last);
            if last.len() == 0 {
                assert(costs(last) == 0);
            }
        } else {
            assert(last.push(c).drop_last() =~= last);
            assert(joined(full) + last.push(c) =~= (joined(full) + last).push(c));
        }
    } else {
        assert(joined(cut(s).0) + cut(s).1 =~= s);
    }
}

/// The pieces of a text put together are the text.
pub proof fn pieces_join_to_the_text(json: Seq<char>)
    ensures
        joined(pieces(json)) == json,
{
    lemma_cut(json);
    assert(pieces(json).drop_last() =~= cut(json).0);
}

/// No piece of a text is empty or costs more than a fragment may carry.
pub proof fn pieces_are_bounded(json: Seq<char>, i: int)
    requires
        json.len() > 0,
        0 <= i < pieces(json).len(),
    ensures
        0 < pieces(json)[i].len(),
        costs(pieces(json)[i]) <= DATA_LIMIT,
        pieces(json).len() <= json.len(),
{
    lemma_cut(json);
}

// ---- lengths --------------------------------------------------------------

/// UTF-8 takes as many bytes as its characters do.
proof fn lemma_utf8(s: Seq<char>)
    ensures
        vstd::utf8::encode_utf8(s).len() == text::byte_len(s),
    decreases s.len(),
{
    if s.len() > 0 {
        let rest = s.drop_first();
        lemma_utf8(rest);
        assert(s =~= seq![s[0]] + rest);
        text::lemma_byte_len_join(seq![s[0]], rest);
        assert(text::byte_len(seq![s[0]]) == text::width(s[0])) by {
            reveal_with_fuel(text::byte_len, 2);
            assert(seq![s[0]].drop_last() =~= Seq::empty());
        }
        vstd::utf8::char_is_scalar(s[0]);
    }
}

/// The bytes of a text.
fn bytes_of(s: &str) -> (r: usize)
    ensures
        r == text::byte_len(s@),
{
    proof {
        lemma_utf8(s@);
    }
    s.as_bytes().len()
}

proof fn lemma_decimal(n: nat, digits: nat)
    requires
        digits > 0,
        n < vstd::arithmetic::power::pow(10, digits),
    ensures
        text::byte_len(text::decimal(n)) <= digits,
    decreases digits,
{
    vstd::arithmetic::power::lemma_pow1(10);
    let d = text::decimal(n);
    if n < 10 {
        reveal_with_fuel(text::byte_len, 2);
        assert(d.drop_last() =~= Seq::empty());
    } else {
        if digits == 1 {
            assert(false);
        }
        let m = (digits - 1) as nat;
        assert(vstd::arithmetic::power::pow(10, digits) == 10 * vstd::arithmetic::power::pow(10, m)) by {
            reveal(vstd::arithmetic::power::pow);
        }
        assert(n / 10 < vstd::arithmetic::power::pow(10, m));
        lemma_decimal(n / 10, m);
        assert(d.drop_last() =~= text::decimal(n / 10));
    }
}

/// A count takes at most ten digits.
proof fn lemma_count(n: u32)
    ensures
        text::byte_len(text::decimal(n as nat)) <= 10,
{
    assert(vstd::arithmetic::power::pow(10, 10) == 10_000_000_000) by {
        reveal_with_fuel(vstd::arithmetic::power::pow, 11);
    }
    lemma_decimal(n as nat, 10);
}

proof fn lemma_ascii(s: Seq<char>)
    ensures
        text::byte_len(s) <= 4 * s.len(),
{
    text::lemma_byte_len(s);
}

/// What stands around a frame's data is short.
proof fn lemma_head(revision: ViewRevision, kind: ViewBatchKind)
    ensures
        text::byte_len(head_json(revision, kind)) <= 250,
{
    let a = "{\"revision\":"@;
    let d = text::decimal(revision.0 as nat);
    let b = ",\"kind\":\""@;
    let c = "\",\"body\":{\"type\":\""@;
    reveal_strlit("{\"revision\":");
    reveal_strlit(",\"kind\":\"");
    reveal_strlit("\",\"body\":{\"type\":\"");
    reveal_strlit("Snapshot");
    reveal_strlit("Delta");
    lemma_count(revision.0);
    lemma_ascii(a);
    lemma_ascii(b);
    lemma_ascii(c);
    lemma_ascii(kind.name());
    text::lemma_byte_len_join(a, d);
    text::lemma_byte_len_join(a + d, b);
    text::lemma_byte_len_join(a + d + b, kind.name());
    text::lemma_byte_len_join(a + d + b + kind.name(), c);
}

proof fn lemma_position(position: SpecViewFragmentPosition)
    ensures
        text::byte_len(position.json()) <= 150,
{
    reveal_strlit("{\"type\":\"Start\",\"bytes\":");
    reveal_strlit("{\"type\":\"More\",\"index\":");
    reveal_strlit("{\"type\":\"End\",\"index\":");
    reveal_strlit("}");
    let (a, n) = match position {
        SpecViewFragmentPosition::Start { bytes } => ("{\"type\":\"Start\",\"bytes\":"@, bytes),
        SpecViewFragmentPosition::More { index } => ("{\"type\":\"More\",\"index\":"@, index),
        SpecViewFragmentPosition::End { index } => ("{\"type\":\"End\",\"index\":"@, index),
    };
    lemma_count(n);
    lemma_ascii(a);
    lemma_ascii("}"@);
    text::lemma_byte_len_join(a, text::decimal(n as nat));
    text::lemma_byte_len_join(a + text::decimal(n as nat), "}"@);
}

/// A fragment whose data is within bounds makes a frame within bounds.
pub proof fn fragments_fit(
    revision: ViewRevision,
    kind: ViewBatchKind,
    position: SpecViewFragmentPosition,
    piece: Seq<char>,
    patches: Seq<char>,
)
    requires
        costs(piece) <= DATA_LIMIT,
    ensures
        text::byte_len(
            (SpecViewFrame {
                revision,
                kind,
                body: SpecViewFrameBody::Fragment { position, json: piece },
            }).json(patches),
        ) < FRAME_LIMIT,
{
    let h = head_json(revision, kind);
    let a = "Fragment\",\"position\":"@;
    let b = ",\"json\":"@;
    let z = "}}"@;
    let p = position.json();
    let q = quoted(piece);
    reveal_strlit("Fragment\",\"position\":");
    reveal_strlit(",\"json\":");
    reveal_strlit("}}");
    lemma_head(revision, kind);
    lemma_position(position);
    lemma_quoted(piece);
    lemma_ascii(a);
    lemma_ascii(b);
    lemma_ascii(z);
    text::lemma_byte_len_join(a, p);
    text::lemma_byte_len_join(a + p, b);
    text::lemma_byte_len_join(a + p + b, q);
    text::lemma_byte_len_join(h, a + p + b + q);
    text::lemma_byte_len_join(h + (a + p + b + q), z);
}

/// Every frame of a delivery stays within the frame limit.
pub proof fn frames_stay_within_the_limit(
    encoder: ViewEncoder,
    kind: ViewBatchKind,
    patches: Seq<SpecViewPatch>,
    json: Seq<char>,
    i: int,
)
    requires
        encoder.delivered(kind, patches, json) is Ok,
        0 <= i < encoder.delivered(kind, patches, json)->Ok_0.len(),
    ensures
        text::byte_len(encoder.delivered(kind, patches, json)->Ok_0[i].json(json)) < FRAME_LIMIT,
{
    if !encoder.fits(kind, patches, json) {
        lemma_cut(json);
        fragments_fit(
            encoder.next(),
            kind,
            position(i, pieces(json).len(), text::byte_len(json)),
            pieces(json)[i],
            json,
        );
    }
}

/// A batch that does not fit in one frame is not empty.
proof fn lemma_not_empty(
    encoder: ViewEncoder,
    kind: ViewBatchKind,
    patches: Seq<SpecViewPatch>,
    json: Seq<char>,
)
    requires
        !encoder.fits(kind, patches, json),
    ensures
        json.len() > 0,
        text::byte_len(json) > 0,
{
    let h = head_json(encoder.next(), kind);
    let a = "Complete\",\"patches\":"@;
    let z = "}}"@;
    reveal_strlit("Complete\",\"patches\":");
    reveal_strlit("}}");
    lemma_head(encoder.next(), kind);
    lemma_ascii(a);
    lemma_ascii(z);
    text::lemma_byte_len_join(a, json);
    text::lemma_byte_len_join(h, a + json);
    text::lemma_byte_len_join(h + (a + json), z);
    text::lemma_byte_len(json);
}

// ---- encoding -------------------------------------------------------------

fn number(out: &mut String, n: u32)
    ensures
        final(out)@ == old(out)@ + text::decimal(n as nat),
{
    out.append(text::number(n as u64).as_str());
}

fn write_head(revision: ViewRevision, kind: ViewBatchKind) -> (r: String)
    ensures
        r@ == head_json(revision, kind),
{
    let mut out = "{\"revision\":".to_owned();
    number(&mut out, revision.0);
    out.append(",\"kind\":\"");
    match kind {
        ViewBatchKind::Snapshot => out.append("Snapshot"),
        ViewBatchKind::Delta => out.append("Delta"),
    }
    out.append("\",\"body\":{\"type\":\"");
    out
}

fn write_position(position: &ViewFragmentPosition) -> (r: String)
    ensures
        r@ == position.deep_view().json(),
{
    match position {
        ViewFragmentPosition::Start { bytes } => {
            let mut out = "{\"type\":\"Start\",\"bytes\":".to_owned();
            number(&mut out, bytes.get());
            out.append("}");
            out
        },
        ViewFragmentPosition::More { index } => {
            let mut out = "{\"type\":\"More\",\"index\":".to_owned();
            number(&mut out, index.get());
            out.append("}");
            out
        },
        ViewFragmentPosition::End { index } => {
            let mut out = "{\"type\":\"End\",\"index\":".to_owned();
            number(&mut out, index.get());
            out.append("}");
            out
        },
    }
}

impl ViewFrame {
    /// The frame's text, given that of its patches.
    pub fn json(&self, patches: &str) -> (r: Result<String, ViewDeliveryError>)
        ensures
            r is Ok,
            r->Ok_0@ == self.deep_view().json(patches@),
    {
        let mut out = write_head(self.revision, self.kind);
        let ghost head = out@;
        match &self.body {
            ViewFrameBody::Complete { .. } => {
                out.append("Complete\",\"patches\":");
                out.append(patches);
                assert(out@ =~= head + ("Complete\",\"patches\":"@ + patches@));
            },
            ViewFrameBody::Fragment { position, json } => {
                let text = match json_string(json.as_str()) {
                    Ok(text) => text,
                    Err(e) => {
                        return Err(ViewDeliveryError::Json(e));
                    },
                };
                out.append("Fragment\",\"position\":");
                out.append(write_position(position).as_str());
                out.append(",\"json\":");
                out.append(text.as_str());
                assert(out@ =~= head + ("Fragment\",\"position\":"@ + position.deep_view().json() + ",\"json\":"@ + quoted(json@)));
            },
        }
        out.append("}}");
        Ok(out)
    }
}

impl ViewDelivery {
    pub fn frames(&self) -> (r: &[ViewFrame])
        ensures
            r@.map_values(|f: ViewFrame| f.deep_view()) == self.deep_view().frames,
    {
        self.frames.as_slice()
    }
}

fn cut_up(json: &str) -> (r: Vec<String>)
    ensures
        r.deep_view() == pieces(json@),
{
    let chars = text::chars(json);
    let n: usize = chars.len();
    let mut full: Vec<String> = data::empty();
    let mut last = String::new();
    let mut used: usize = 0;
    assert(json@.take(0) =~= Seq::empty());
    for i in 0..n
        invariant
            n == chars@.len(),
            chars@ == json@,
            full.deep_view() == cut(json@.take(i as int)).0,
            last@ == cut(json@.take(i as int)).1,
            used == costs(last@),
            used <= DATA_LIMIT,
    {
        assert(json@.take(i + 1).drop_last() =~= json@.take(i as int));
        let c = chars[i];
        let more: usize = cost_of(c);
        if used + more > DATA_LIMIT {
            data::push(&mut full, last);
            last = String::new();
            used = 0;
            assert(last@.push(c) =~= seq![c]);
        }
        let ghost before = last@;
        assert(used == costs(before));
        last.push(c);
        assert(last@.drop_last() =~= before);
        assert(last@.last() == c);
        assert(costs(last@) == costs(before) + cost(c));
        used = used + more;
    }
    assert(json@.take(n as int) =~= json@);
    data::push(&mut full, last);
    full
}

fn fragment(
    revision: ViewRevision,
    kind: ViewBatchKind,
    json: &str,
) -> (r: Result<Vec<ViewFrame>, ViewDeliveryError>)
    requires
        json@.len() > 0,
    ensures
        match r {
            Ok(frames) => text::byte_len(json@) <= u32::MAX && frames.deep_view() == fragments(revision, kind, json@),
            Err(e) => text::byte_len(json@) > u32::MAX && e == ViewDeliveryError::BatchTooLarge,
        },
{
    let len: usize = bytes_of(json);
    if len > 0xffff_ffff {
        return Err(ViewDeliveryError::BatchTooLarge);
    }
    let bytes = match ViewBatchBytes::new(len as u32) {
        Some(bytes) => bytes,
        None => {
            return Err(ViewDeliveryError::BatchTooLarge);
        },
    };
    let cut = cut_up(json);
    let n: usize = cut.len();
    proof {
        lemma_cut(json@);
        text::lemma_byte_len(json@);
        assert(cut.deep_view().len() == cut@.len());
    }
    let mut frames: Vec<ViewFrame> = data::empty();
    for i in 0..n
        invariant
            n == cut@.len(),
            n == pieces(json@).len(),
            n <= u32::MAX,
            cut.deep_view() == pieces(json@),
            bytes.deep_view() == text::byte_len(json@),
            frames.deep_view() =~= fragments(revision, kind, json@).take(i as int),
    {
        assert(cut.deep_view()[i as int] == cut@[i as int]@);
        let position = match ViewFragmentIndex::new(i as u32) {
            None => ViewFragmentPosition::Start { bytes },
            Some(index) => if i == n - 1 {
                ViewFragmentPosition::End { index }
            } else {
                ViewFragmentPosition::More { index }
            },
        };
        let frame = ViewFrame {
            revision,
            kind,
            body: ViewFrameBody::Fragment { position, json: cut[i].as_str().to_owned() },
        };
        assert(frame.deep_view() == fragments(revision, kind, json@)[i as int]);
        data::push(&mut frames, frame);
    }
    assert(fragments(revision, kind, json@).take(n as int) =~= fragments(revision, kind, json@));
    Ok(frames)
}

/// Whether every frame is within the limit, as its text shows.
fn all_fit(frames: &Vec<ViewFrame>, json: &str) -> (r: Result<(), ViewDeliveryError>)
    requires
        forall|i: int|
            0 <= i < frames@.len() ==> text::byte_len(
                (#[trigger] frames@[i]).deep_view().json(json@),
            ) < FRAME_LIMIT,
    ensures
        r is Ok,
{
    let n: usize = frames.len();
    for i in 0..n
        invariant
            n == frames@.len(),
            forall|i: int|
                0 <= i < frames@.len() ==> text::byte_len((#[trigger] frames@[i]).deep_view().json(json@))
                    < FRAME_LIMIT,
    {
        let text = match frames[i].json(json) {
            Ok(text) => text,
            Err(e) => {
                return Err(e);
            },
        };
        if bytes_of(text.as_str()) >= FRAME_LIMIT {
            return Err(ViewDeliveryError::FrameTooLarge);
        }
    }
    Ok(())
}

impl Default for ViewEncoder {
    fn default() -> (r: Self)
        ensures
            r.revision == ViewRevision(0),
    {
        ViewEncoder { revision: ViewRevision(0) }
    }
}

impl ViewEncoder {
    /// Frame a batch of patches, given the JSON array the host wrote of
    /// them. A batch that cannot be sent uses up no revision.
    pub fn encode(&mut self, kind: ViewBatchKind, patches: Vec<ViewPatch>, json: &str) -> (r: Result<
        ViewDelivery,
        ViewDeliveryError,
    >)
        ensures
            match r {
                Ok(delivery) => final(self).revision == old(self).next() && old(self).delivered(
                    kind,
                    patches.deep_view(),
                    json@,
                ) == Ok::<Seq<SpecViewFrame>, ViewDeliveryError>(delivery.deep_view().frames),
                Err(e) => *final(self) == *old(self) && old(self).delivered(kind, patches.deep_view(), json@)
                    == Err::<Seq<SpecViewFrame>, ViewDeliveryError>(e),
            },
    {
        if self.revision.0 == u32::MAX {
            return Err(ViewDeliveryError::RevisionExhausted);
        }
        let revision = ViewRevision(self.revision.0 + 1);
        let ghost all = patches.deep_view();
        let frame = ViewFrame { revision, kind, body: ViewFrameBody::Complete { patches } };
        let text = match frame.json(json) {
            Ok(text) => text,
            Err(e) => {
                return Err(e);
            },
        };
        let frames = if bytes_of(text.as_str()) < FRAME_LIMIT {
            let frames = data::one(frame);
            assert(frames.deep_view() =~= seq![complete(revision, kind, all)]);
            frames
        } else {
            proof {
                lemma_not_empty(*self, kind, all, json@);
            }
            match fragment(revision, kind, json) {
                Ok(frames) => frames,
                Err(e) => {
                    return Err(e);
                },
            }
        };
        proof {
            assert forall|i: int| 0 <= i < frames@.len() implies text::byte_len(
                (#[trigger] frames@[i]).deep_view().json(json@),
            ) < FRAME_LIMIT by {
                assert(frames.deep_view()[i] == frames@[i].deep_view());
                frames_stay_within_the_limit(*self, kind, all, json@, i);
            }
        }
        match all_fit(&frames, json) {
            Ok(()) => {},
            Err(e) => {
                return Err(e);
            },
        }
        self.revision = revision;
        Ok(ViewDelivery { frames })
    }
}

/// A delivery takes the next revision, and all its frames carry it.
pub proof fn revisions_follow_each_other(
    encoder: ViewEncoder,
    kind: ViewBatchKind,
    patches: Seq<SpecViewPatch>,
    json: Seq<char>,
    i: int,
)
    requires
        encoder.delivered(kind, patches, json) is Ok,
        0 <= i < encoder.delivered(kind, patches, json)->Ok_0.len(),
    ensures
        encoder.next().0 == encoder.revision.0 + 1,
        encoder.delivered(kind, patches, json)->Ok_0[i].revision == encoder.next(),
        encoder.delivered(kind, patches, json)->Ok_0[i].kind == kind,
{
}

/// The fragments of a batch are numbered from the start without a gap, and
/// their data put together is the text of the batch.
pub proof fn fragments_rebuild_the_batch(revision: ViewRevision, kind: ViewBatchKind, json: Seq<char>, i: int)
    requires
        0 < json.len(),
        text::byte_len(json) <= u32::MAX,
        0 < i < pieces(json).len(),
    ensures
        fragments(revision, kind, json).len() == pieces(json).len(),
        joined(pieces(json)) == json,
        fragments(revision, kind, json)[0].body == (SpecViewFrameBody::Fragment {
            position: SpecViewFragmentPosition::Start { bytes: text::byte_len(json) as u32 },
            json: pieces(json)[0],
        }),
        match fragments(revision, kind, json)[i].body {
            SpecViewFrameBody::Fragment { position, json: piece } => piece == pieces(json)[i] && match position {
                SpecViewFragmentPosition::Start { .. } => false,
                SpecViewFragmentPosition::More { index } => index == i && i + 1 < pieces(json).len(),
                SpecViewFragmentPosition::End { index } => index == i && i + 1 == pieces(json).len(),
            },
            SpecViewFrameBody::Complete { .. } => false,
        },
{
    pieces_join_to_the_text(json);
    lemma_cut(json);
    text::lemma_byte_len(json);
}

} // verus!
