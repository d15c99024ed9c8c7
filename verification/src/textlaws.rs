//! What texts, ids and errors say, said of their characters and fields.
use vstd::prelude::*;

use crate::creation::CreationRevision;
use crate::delivery::{cost, costs, escaped, escaped_char};
use crate::protocol::{
    base32, base32_text, commit_named, hex_digit, hex_number, hex_text, hex_value, id_text, pow16, CommitOid,
    SpecAuthor, SpecBaseRefSpec, SpecChangeKind, SpecMutation, SpecRefSpec, SpecRpcError,
};
use crate::ref_selector::SpecRefSelectorStatus;
use crate::text;

verus! {

// ---- texts ----------------------------------------------------------------

proof fn lemma_trim_start(s: Seq<char>) -> (n: int)
    ensures
        0 <= n <= s.len(),
        text::trim_start(s) == s.skip(n),
        forall|i: int| 0 <= i < n ==> text::is_space(#[trigger] s[i]),
        n < s.len() ==> !text::is_space(s[n]),
    decreases s.len(),
{
    if s.len() > 0 && text::is_space(s[0]) {
        let rest = s.drop_first();
        let n = lemma_trim_start(rest);
        assert(rest.skip(n) =~= s.skip(n + 1));
        assert forall|i: int| 0 <= i < n + 1 implies text::is_space(#[trigger] s[i]) by {
            if i > 0 {
                assert(rest[i - 1] == s[i]);
            }
        }
        if n < rest.len() {
            assert(rest[n] == s[n + 1]);
        }
        n + 1
    } else {
        assert(s.skip(0) =~= s);
        0
    }
}

proof fn lemma_trim_end(s: Seq<char>) -> (n: int)
    ensures
        0 <= n <= s.len(),
        text::trim_end(s) == s.take(n),
        forall|i: int| n <= i < s.len() ==> text::is_space(#[trigger] s[i]),
        n > 0 ==> !text::is_space(s[n - 1]),
    decreases s.len(),
{
    if s.len() > 0 && text::is_space(s.last()) {
        let rest = s.drop_last();
        let n = lemma_trim_end(rest);
        assert(rest.take(n) =~= s.take(n));
        assert forall|i: int| n <= i < s.len() implies text::is_space(#[trigger] s[i]) by {
            if i < rest.len() {
                assert(rest[i] == s[i]);
            }
        }
        n
    } else {
        assert(s.take(s.len() as int) =~= s);
        s.len() as int
    }
}

/// Trimming takes the whitespace off both ends and nothing else.
pub proof fn trimming_takes_off_the_space_around(s: Seq<char>) -> (r: (int, int))
    ensures
        0 <= r.0 <= r.1 <= s.len(),
        text::trimmed(s) == s.subrange(r.0, r.1),
        forall|i: int| 0 <= i < r.0 ==> text::is_space(#[trigger] s[i]),
        forall|i: int| r.1 <= i < s.len() ==> text::is_space(#[trigger] s[i]),
        r.0 < r.1 ==> !text::is_space(s[r.0]) && !text::is_space(s[r.1 - 1]),
{
    let a = lemma_trim_start(s);
    let rest = s.skip(a);
    let b = lemma_trim_end(rest);
    assert(rest.take(b) =~= s.subrange(a, a + b));
    assert forall|i: int| a + b <= i < s.len() implies text::is_space(#[trigger] s[i]) by {
        assert(rest[i - a] == s[i]);
    }
    if b > 0 {
        assert(rest[b - 1] == s[a + b - 1]);
        assert(rest[0] == s[a]);
    }
    (a, a + b)
}

/// The parts joined by the separator.
pub open spec fn rejoined(parts: Seq<Seq<char>>, c: char) -> Seq<char>
    decreases parts.len(),
{
    if parts.len() == 0 {
        Seq::empty()
    } else if parts.len() == 1 {
        parts[0]
    } else {
        parts[0] + seq![c] + rejoined(parts.drop_first(), c)
    }
}

/// The parts of a text hold no separator, and joined by it they are the text.
pub proof fn parts_join_to_the_text(s: Seq<char>, c: char)
    ensures
        text::parts(s, c).len() > 0,
        rejoined(text::parts(s, c), c) == s,
        forall|i: int, k: int|
            0 <= i < text::parts(s, c).len() && 0 <= k < text::parts(s, c)[i].len() ==> (#[trigger] text::parts(
                s,
                c,
            )[i][k]) != c,
    decreases s.len(),
{
    text::lemma_index_of(s, c);
    match text::index_of(s, c) {
        Some(n) => {
            let rest = s.skip(n + 1);
            parts_join_to_the_text(rest, c);
            let more = text::parts(rest, c);
            let all = text::parts(s, c);
            assert(all == seq![s.take(n)] + more);
            assert(all.drop_first() =~= more);
            assert(s =~= s.take(n) + seq![c] + rest);
            assert forall|i: int, k: int| 0 <= i < all.len() && 0 <= k < all[i].len() implies (
            #[trigger] all[i][k]) != c by {
                if i == 0 {
                    assert(all[0][k] == s[k]);
                } else {
                    assert(all[i] == more[i - 1]);
                    assert(more[i - 1][k] != c);
                }
            }
        },
        None => {},
    }
}

/// A text is split at the first separator, and joined there it is the text.
pub proof fn texts_split_at_the_first_separator(s: Seq<char>, c: char)
    ensures
        text::split_once(s, c) is None <==> !s.contains(c),
        text::split_once(s, c) matches Some(r) ==> s == r.0 + seq![c] + r.1 && !r.0.contains(c),
        text::before_last(s, c) is None <==> !s.contains(c),
        text::before_last(s, c) matches Some(head) ==> {
            &&& head.is_prefix_of(s)
            &&& head.len() < s.len()
            &&& s[head.len() as int] == c
            &&& forall|i: int| head.len() < i < s.len() ==> #[trigger] s[i] != c
        },
    decreases s.len(),
{
    text::lemma_index_of(s, c);
    if let Some(i) = text::index_of(s, c) {
        assert(s[i] == c);
        assert(s =~= s.take(i) + seq![c] + s.skip(i + 1));
        assert forall|j: int| 0 <= j < i implies s.take(i)[j] != c by {
            assert(s[j] != c);
        }
    }
    if s.len() > 0 {
        texts_split_at_the_first_separator(s.drop_last(), c);
        assert forall|i: int| 0 <= i < s.len() - 1 implies s[i] == #[trigger] s.drop_last()[i] by {}
        if s.last() == c {
            assert(s[s.len() - 1] == c);
        } else if s.contains(c) {
            let i = choose|i: int| 0 <= i < s.len() && s[i] == c;
            assert(s.drop_last()[i] == c);
        }
        if s.drop_last().contains(c) {
            let i = choose|i: int| 0 <= i < s.drop_last().len() && s.drop_last()[i] == c;
            assert(s[i] == c);
        }
        if let Some(head) = text::before_last(s, c) {
            if s.last() != c {
                let rest = s.drop_last();
                assert(head.is_prefix_of(rest));
                assert(rest[head.len() as int] == c);
                assert(head =~= s.take(head.len() as int));
                assert forall|i: int| head.len() < i < s.len() implies #[trigger] s[i] != c by {
                    if i < rest.len() {
                        assert(rest[i] != c);
                    }
                }
            }
        }
    }
}

/// A text that starts with a prefix is the prefix and what comes after it.
pub proof fn prefixes_are_taken_off(s: Seq<char>, prefix: Seq<char>, rest: Seq<char>)
    ensures
        text::after_prefix(s, prefix) == Some(rest) <==> s == prefix + rest,
{
    if s == prefix + rest {
        assert(s.skip(prefix.len() as int) =~= rest);
    }
    if text::after_prefix(s, prefix) == Some(rest) {
        assert(s =~= prefix + rest);
    }
}

proof fn lemma_word_len(s: Seq<char>)
    ensures
        text::word_len(s) <= s.len(),
        forall|i: int| 0 <= i < text::word_len(s) ==> !text::is_space(#[trigger] s[i]),
        text::word_len(s) < s.len() ==> text::is_space(s[text::word_len(s) as int]),
    decreases s.len(),
{
    if s.len() > 0 && !text::is_space(s[0]) {
        let rest = s.drop_first();
        lemma_word_len(rest);
        assert forall|i: int| 0 <= i < text::word_len(s) implies !text::is_space(#[trigger] s[i]) by {
            if i > 0 {
                assert(rest[i - 1] == s[i]);
            }
        }
        if text::word_len(s) < s.len() {
            assert(rest[text::word_len(rest) as int] == s[text::word_len(s) as int]);
        }
    }
}

/// The characters that are not whitespace, in order.
pub open spec fn solid(s: Seq<char>) -> Seq<char>
    decreases s.len(),
{
    if s.len() == 0 {
        Seq::empty()
    } else if text::is_space(s[0]) {
        solid(s.drop_first())
    } else {
        seq![s[0]] + solid(s.drop_first())
    }
}

/// The words one after the other.
pub open spec fn joined(words: Seq<Seq<char>>) -> Seq<char>
    decreases words.len(),
{
    if words.len() == 0 {
        Seq::empty()
    } else {
        words[0] + joined(words.drop_first())
    }
}

proof fn lemma_solid(s: Seq<char>, n: int)
    requires
        0 <= n <= s.len(),
    ensures
        (forall|i: int| 0 <= i < n ==> text::is_space(#[trigger] s[i])) ==> solid(s) == solid(s.skip(n)),
        (forall|i: int| 0 <= i < n ==> !text::is_space(#[trigger] s[i])) ==> solid(s) == s.take(n) + solid(s.skip(n)),
    decreases n,
{
    if n == 0 {
        assert(s.skip(0) =~= s);
        assert(s.take(0) + solid(s) =~= solid(s));
    } else {
        let rest = s.drop_first();
        lemma_solid(rest, n - 1);
        assert(rest.skip(n - 1) =~= s.skip(n));
        assert(s.take(n) =~= seq![s[0]] + rest.take(n - 1));
        if forall|i: int| 0 <= i < n ==> text::is_space(#[trigger] s[i]) {
            assert forall|i: int| 0 <= i < n - 1 implies text::is_space(#[trigger] rest[i]) by {
                assert(text::is_space(s[i + 1]));
            }
            assert(text::is_space(s[0]));
        }
        if forall|i: int| 0 <= i < n ==> !text::is_space(#[trigger] s[i]) {
            assert forall|i: int| 0 <= i < n - 1 implies !text::is_space(#[trigger] rest[i]) by {
                assert(!text::is_space(s[i + 1]));
            }
            assert(!text::is_space(s[0]));
            assert(solid(s) =~= s.take(n) + solid(s.skip(n)));
        }
    }
}

/// The words of a text are not empty, hold no whitespace, and together are
/// all the text holds otherwise.
pub proof fn words_are_what_is_between_the_spaces(s: Seq<char>)
    ensures
        forall|i: int| 0 <= i < text::words(s).len() ==> (#[trigger] text::words(s)[i]).len() > 0,
        forall|i: int|
            0 <= i < text::words(s).len() ==> text::without_space(#[trigger] text::words(s)[i]),
        joined(text::words(s)) == solid(s),
    decreases s.len(),
{
    let a = lemma_trim_start(s);
    lemma_solid(s, a);
    let t = text::trim_start(s);
    if t.len() > 0 {
        lemma_word_len(t);
        let n = text::word_len(t) as int;
        assert(!text::is_space(t[0]));
        let rest = t.skip(n);
        lemma_solid(t, n);
        words_are_what_is_between_the_spaces(rest);
        let more = text::words(rest);
        let all = text::words(s);
        assert(all == seq![t.take(n)] + more);
        assert(all.drop_first() =~= more);
        assert forall|i: int| 0 <= i < all.len() implies (#[trigger] all[i]).len() > 0 && text::without_space(
            all[i],
        ) by {
            if i > 0 {
                assert(all[i] == more[i - 1]);
            } else {
                assert forall|k: int| 0 <= k < t.take(n).len() implies !text::is_space(#[trigger] t.take(n)[k]) by {
                    assert(!text::is_space(t[k]));
                }
            }
        }
    } else {
        assert(solid(t) =~= Seq::empty());
    }
}

/// The number that decimal digits stand for.
pub open spec fn number(s: Seq<char>) -> int
    decreases s.len(),
{
    if s.len() == 0 {
        0
    } else {
        10 * number(s.drop_last()) + (s.last() as int - '0' as int)
    }
}

/// A number is written in digits that stand for it, without leading zeros.
pub proof fn numbers_read_back(n: nat)
    ensures
        number(text::decimal(n)) == n,
        text::decimal(n).len() > 0,
        n > 0 ==> text::decimal(n)[0] != '0',
        forall|i: int| 0 <= i < text::decimal(n).len() ==> '0' <= #[trigger] text::decimal(n)[i] <= '9',
    decreases n,
{
    let d = text::decimal(n);
    let unit = (n % 10) as nat;
    assert((48 + unit) as u8 == 48 + unit);
    if n < 10 {
        assert((48 + n) as u8 == 48 + n);
        assert(d.drop_last() =~= Seq::empty());
        assert(number(d.drop_last()) == 0);
    } else {
        numbers_read_back(n / 10);
        assert(d.drop_last() =~= text::decimal(n / 10));
        assert(d[0] == text::decimal(n / 10)[0]);
        assert forall|i: int| 0 <= i < d.len() implies '0' <= #[trigger] d[i] <= '9' by {
            if i < d.len() - 1 {
                assert(d[i] == text::decimal(n / 10)[i]);
            }
        }
    }
}

/// Letters of the alphabet lose their case; every other character stays.
pub proof fn letters_lose_their_case(c: char)
    ensures
        'A' <= c <= 'Z' ==> text::ascii_lower_char(c) as int == c as int + ('a' as int - 'A' as int),
        !('A' <= c <= 'Z') ==> text::ascii_lower_char(c) == c,
{
}

/// A text takes the bytes of its characters.
pub proof fn texts_take_the_bytes_of_their_characters(s: Seq<char>, c: char)
    ensures
        text::byte_len(Seq::empty()) == 0,
        text::byte_len(s.push(c)) == text::byte_len(s) + text::width(c),
        (c as u32) < 0x80 ==> text::width(c) == 1,
        0x80 <= (c as u32) < 0x800 ==> text::width(c) == 2,
        0x800 <= (c as u32) < 0x10000 ==> text::width(c) == 3,
        0x10000 <= (c as u32) ==> text::width(c) == 4,
{
    assert(s.push(c).drop_last() =~= s);
}

/// What a character costs in a frame is the bytes it is escaped to.
pub proof fn costs_are_the_bytes_escaped(s: Seq<char>)
    ensures
        costs(s) == text::byte_len(escaped(s)),
    decreases s.len(),
{
    if s.len() > 0 {
        costs_are_the_bytes_escaped(s.drop_last());
        let c = s.last();
        text::lemma_byte_len_join(escaped(s.drop_last()), escaped_char(c));
        lemma_escaped_char(c);
    }
}

proof fn lemma_bytes(s: Seq<char>)
    requires
        forall|i: int| 0 <= i < s.len() ==> (#[trigger] s[i] as u32) < 0x80,
    ensures
        text::byte_len(s) == s.len(),
    decreases s.len(),
{
    if s.len() > 0 {
        assert((s[s.len() - 1] as u32) < 0x80);
        assert forall|i: int| 0 <= i < s.drop_last().len() implies (#[trigger] s.drop_last()[i] as u32) < 0x80 by {
            assert((s[i] as u32) < 0x80);
        }
        lemma_bytes(s.drop_last());
    }
}

proof fn lemma_escaped_char(c: char)
    ensures
        text::byte_len(escaped_char(c)) == cost(c),
{
    let e = escaped_char(c);
    if e.len() > 1 {
        assert forall|i: int| 0 <= i < e.len() implies (#[trigger] e[i] as u32) < 0x80 by {}
        lemma_bytes(e);
    } else {
        reveal_with_fuel(text::byte_len, 2);
        assert(e.drop_last() =~= Seq::empty());
        assert(e.last() == c);
    }
}

// ---- ids ------------------------------------------------------------------

proof fn lemma_hex_digit(n: nat)
    requires
        n < 16,
    ensures
        hex_value(hex_digit(n)) == Some(n),
{
    if n < 10 {
        assert((48 + n) as u8 == 48 + n);
    } else {
        assert((87 + n) as u8 == 87 + n);
    }
}

proof fn lemma_hex_text(n: nat, digits: nat)
    requires
        n < pow16(digits),
    ensures
        hex_text(n, digits).len() == digits,
        hex_number(hex_text(n, digits)) == Some(n),
    decreases digits,
{
    if digits > 0 {
        let d = n % 16;
        let rest = n / 16;
        assert(pow16(digits) == 16 * pow16((digits - 1) as nat));
        assert(rest < pow16((digits - 1) as nat)) by (nonlinear_arith)
            requires
                n < 16 * pow16((digits - 1) as nat),
                rest == n / 16,
        ;
        lemma_hex_text(rest, (digits - 1) as nat);
        lemma_hex_digit(d);
        assert(hex_text(n, digits).drop_last() =~= hex_text(rest, (digits - 1) as nat));
        assert(16 * rest + d == n) by (nonlinear_arith)
            requires
                rest == n / 16,
                d == n % 16,
        ;
    }
}

proof fn lemma_pow16()
    ensures
        pow16(8) == 0x1_0000_0000,
        pow16(32) == 0x1_0000_0000_0000_0000_0000_0000_0000_0000int,
{
    reveal_with_fuel(pow16, 33);
}

/// A commit is named by its forty digits, and they read back as that commit.
pub proof fn commits_read_back(oid: CommitOid)
    ensures
        oid.spec_text().len() == 40,
        commit_named(oid.spec_text()) == Some(oid),
{
    lemma_pow16();
    lemma_hex_text(oid.high as nat, 8);
    lemma_hex_text(oid.low as nat, 32);
    let s = oid.spec_text();
    assert(s.subrange(0, 8) =~= hex_text(oid.high as nat, 8));
    assert(s.subrange(8, 40) =~= hex_text(oid.low as nat, 32));
}

/// Digits of the text of an id are told apart.
proof fn lemma_base32(a: nat, b: nat)
    requires
        a < 32,
        b < 32,
        base32(a) == base32(b),
    ensures
        a == b,
{
    assert forall|n: nat| n < 32 implies (48 + n) as u8 == 48 + n && (59 + n) as u8 == 59 + n && (55 + n) as u8 == 55
        + n && (56 + n) as u8 == 56 + n && (57 + n) as u8 == 57 + n && #[trigger] ((58 + n) as u8) == 58 + n by {}
    assert((58 + a) as u8 == 58 + a);
    assert((58 + b) as u8 == 58 + b);
}

spec fn pow32(digits: nat) -> nat
    decreases digits,
{
    if digits == 0 {
        1
    } else {
        32 * pow32((digits - 1) as nat)
    }
}

proof fn lemma_base32_text(a: nat, b: nat, digits: nat)
    requires
        a < pow32(digits),
        b < pow32(digits),
        base32_text(a, digits) == base32_text(b, digits),
    ensures
        a == b,
    decreases digits,
{
    if digits > 0 {
        let less = (digits - 1) as nat;
        let p = pow32(less);
        assert(a / 32 < p && b / 32 < p) by (nonlinear_arith)
            requires
                a < 32 * p,
                b < 32 * p,
        ;
        let x = base32_text(a, digits);
        let y = base32_text(b, digits);
        assert(x.drop_last() =~= base32_text(a / 32, less));
        assert(y.drop_last() =~= base32_text(b / 32, less));
        assert(x.last() == y.last());
        lemma_base32(a % 32, b % 32);
        lemma_base32_text(a / 32, b / 32, less);
    }
}

/// Ids that differ are written differently, in as many characters.
pub proof fn ids_are_told_apart(a: u128, b: u128)
    ensures
        id_text(a) == id_text(b) <==> a == b,
        id_text(a).len() == id_text(b).len(),
{
    reveal_with_fuel(pow32, 27);
    if id_text(a) == id_text(b) {
        lemma_base32_text(a as nat, b as nat, 26);
    }
    lemma_base32_len(a as nat, 26);
    lemma_base32_len(b as nat, 26);
}

proof fn lemma_base32_len(n: nat, digits: nat)
    ensures
        base32_text(n, digits).len() == digits,
    decreases digits,
{
    if digits > 0 {
        lemma_base32_len(n / 32, (digits - 1) as nat);
    }
}

/// A base is the same revision when it is read as any other.
pub proof fn bases_are_read_as_themselves(base: SpecBaseRefSpec)
    ensures
        match (base, base.to_ref()) {
            (SpecBaseRefSpec::Branch { name }, SpecRefSpec::Branch { name: n }) => n == name,
            (SpecBaseRefSpec::Commit { oid }, SpecRefSpec::Commit { oid: o }) => o == oid,
            (SpecBaseRefSpec::Tag { name }, SpecRefSpec::Tag { name: n }) => n == name,
            (
                SpecBaseRefSpec::Revision { expression },
                SpecRefSpec::Revision { expression: e },
            ) => e == expression,
            (SpecBaseRefSpec::Upstream, SpecRefSpec::Upstream) => true,
            (SpecBaseRefSpec::Head, SpecRefSpec::Head) => true,
            _ => false,
        },
{
}

/// What is deleted has an old blob, what is added a new one, and what is
/// changed both.
pub proof fn changes_have_the_blobs_of_their_sides(change: SpecChangeKind)
    ensures
        change.old_blob() is None <==> change is Added,
        change.new_blob() is None <==> change is Deleted,
        change matches SpecChangeKind::Added { new } ==> change.new_blob() == Some(new),
        change matches SpecChangeKind::Deleted { old } ==> change.old_blob() == Some(old),
        change matches SpecChangeKind::Modified { old, new, .. } ==> change.old_blob() == Some(old) && change.new_blob()
            == Some(new),
        change matches SpecChangeKind::Renamed { old, new, .. } ==> change.old_blob() == Some(old) && change.new_blob()
            == Some(new),
        change.kind() is Added <==> change is Added,
        change.kind() is Deleted <==> change is Deleted,
        change.kind() is Modified <==> change is Modified,
        change.kind() is Renamed <==> change is Renamed,
{
}

/// A mutation is of the kind it is called by.
pub proof fn mutations_are_of_their_kind(mutation: SpecMutation)
    ensures
        mutation is CreateWorkspace <==> mutation.kind() is CreateWorkspace,
        mutation is RenameWorkspace <==> mutation.kind() is RenameWorkspace,
        mutation is AttachRepo <==> mutation.kind() is AttachRepo,
        mutation is DetachRepo <==> mutation.kind() is DetachRepo,
        mutation is CreateReview <==> mutation.kind() is CreateReview,
        mutation is UpdateReview <==> mutation.kind() is UpdateReview,
        mutation is UpdateReviewTarget <==> mutation.kind() is UpdateReviewTarget,
        mutation is DeleteReview <==> mutation.kind() is DeleteReview,
        mutation is AddComment <==> mutation.kind() is AddComment,
        mutation is Reply <==> mutation.kind() is Reply,
        mutation is EditComment <==> mutation.kind() is EditComment,
        mutation is DeleteComment <==> mutation.kind() is DeleteComment,
        mutation is ResolveThread <==> mutation.kind() is ResolveThread,
        mutation is UnresolveThread <==> mutation.kind() is UnresolveThread,
        mutation is MarkViewed <==> mutation.kind() is MarkViewed,
        mutation is UnmarkViewed <==> mutation.kind() is UnmarkViewed,
        mutation is RequestReview <==> mutation.kind() is RequestReview,
        mutation is ApplySuggestion <==> mutation.kind() is ApplySuggestion,
{
}

/// A revision follows the one before it, and differs from it.
pub proof fn revisions_of_a_form_differ(r: CreationRevision)
    ensures
        r.next() != r,
        r.count() < u64::MAX ==> r.next().count() == r.count() + 1,
{
}

/// A person is themselves; an agent is no person.
pub proof fn only_people_are_human(author: SpecAuthor)
    ensures
        author matches SpecAuthor::Human { human } ==> author.as_human() == Some(human),
        author is Agent ==> author.as_human() is None,
{
}

// ---- errors ---------------------------------------------------------------

/// A selector says that a revision is wrong where the daemon does not know or
/// take it; anything else is the daemon's own error.
pub proof fn selectors_say_whose_error_it_is(error: SpecRpcError)
    ensures
        error is Invalid || error is NotFound <==> error.selector_status() is InvalidRef,
        !(error is Invalid) && !(error is NotFound) <==> error.selector_status() is DaemonError,
        error.selector_status() matches SpecRefSelectorStatus::InvalidRef { message } ==> message == error.message(),
        error.selector_status() matches SpecRefSelectorStatus::DaemonError { message } ==> message == error.message(),
        error matches SpecRpcError::Invalid { reason } ==> error.message() == reason,
        error matches SpecRpcError::Forbidden { reason } ==> error.message() == reason,
        error matches SpecRpcError::Internal { message } ==> error.message() == message,
        error.no_review() <==> (error matches SpecRpcError::NotFound { kind, .. } && kind is Review),
{
}

} // verus!
