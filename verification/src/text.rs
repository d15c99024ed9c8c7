//! Text: characters, order, case, numbers and paths.
use vstd::prelude::*;


verus! {

// ---- outside functions ----------------------------------------------------

/// `String::push` appends one character to the end of the string.
pub assume_specification[ String::push ](s: &mut String, c: char)
    ensures
        final(s)@ == old(s)@.push(c),
;

/// The characters `char::to_lowercase` yields for a character beyond ASCII.
pub uninterp spec fn lower_beyond_ascii(c: char) -> Seq<char>;

/// `char::to_lowercase`, collected: the lowercase mapping of one character,
/// which may be several. The mapping is the one of the Unicode tables std
/// was built with; it is only named here.
#[verifier::external_body]
fn lower_unicode(c: char) -> (r: Vec<char>)
    ensures
        r@ == lower_beyond_ascii(c),
{
    c.to_lowercase().collect()
}

/// What `str::to_lowercase` makes of a text that is not all ASCII.
pub uninterp spec fn lowercase_beyond_ascii(s: Seq<char>) -> Seq<char>;

pub open spec fn is_ascii(s: Seq<char>) -> bool {
    forall|i: int| 0 <= i < s.len() ==> (#[trigger] s[i] as u32) < 128
}

/// `str::to_lowercase`: the lowercase equivalent of a text. ASCII is lowered
/// character by character. Beyond, the result is not always that of the
/// characters taken one by one, and is only named.
#[verifier::external_body]
pub(crate) fn lowercase(s: &str) -> (r: String)
    ensures
        is_ascii(s@) ==> r@ == ascii_lower(s@),
        !is_ascii(s@) ==> r@ == lowercase_beyond_ascii(s@),
{
    s.to_lowercase()
}

/// A text in lower case.
pub open spec fn lowercased(s: Seq<char>) -> Seq<char> {
    if is_ascii(s) {
        ascii_lower(s)
    } else {
        lowercase_beyond_ascii(s)
    }
}

/// Whether a character beyond ASCII has the Unicode property `White_Space`.
pub open spec fn space_beyond_ascii(c: char) -> bool {
    let n = c as u32;
    n == 0x85 || n == 0xa0 || n == 0x1680 || 0x2000 <= n <= 0x200a || n == 0x2028 || n == 0x2029 || n == 0x202f
        || n == 0x205f || n == 0x3000
}

/// `char::is_whitespace` of a character beyond ASCII: whether it has the
/// Unicode property `White_Space`.
#[verifier::external_body]
fn space_unicode(c: char) -> (b: bool)
    requires
        c as u32 >= 0x80,
    ensures
        b == space_beyond_ascii(c),
{
    c.is_whitespace()
}

/// Whether a character is whitespace: the ASCII ones are the blank and tab
/// to carriage return.
pub open spec fn is_space(c: char) -> bool {
    if (c as u32) < 0x80 {
        c == ' ' || 9 <= c as u32 <= 13
    } else {
        space_beyond_ascii(c)
    }
}

pub(crate) fn space(c: char) -> (b: bool)
    ensures
        b == is_space(c),
{
    if (c as u32) < 0x80 {
        c == ' ' || (9 <= c as u32 && c as u32 <= 13)
    } else {
        space_unicode(c)
    }
}

// ---- characters -----------------------------------------------------------

/// The characters of a text.
pub fn chars(s: &str) -> (r: Vec<char>)
    ensures
        r@ == s@,
{
    let mut out: Vec<char> = Vec::new();
    for c in it: s.chars()
        invariant
            it.seq() == s@,
            out@ == s@.take(it.index() as int),
    {
        assert(s@.take(it.index() + 1) =~= s@.take(it.index() as int).push(c));
        out.push(c);
    }
    assert(s@.take(s@.len() as int) =~= s@);
    out
}

/// The text of the characters `from..to`.
pub fn slice(v: &Vec<char>, from: usize, to: usize) -> (r: String)
    requires
        from <= to <= v@.len(),
    ensures
        r@ == v@.subrange(from as int, to as int),
{
    let mut out = String::new();
    assert(v@.subrange(from as int, from as int) =~= Seq::<char>::empty());
    for i in from..to
        invariant
            from <= i <= to <= v@.len(),
            out@ == v@.subrange(from as int, i as int),
    {
        assert(v@.subrange(from as int, i + 1) =~= v@.subrange(from as int, i as int).push(v@[i as int]));
        out.push(v[i]);
    }
    out
}

/// The text of all the characters.
pub fn text(v: &Vec<char>) -> (r: String)
    ensures
        r@ == v@,
{
    assert(v@.subrange(0, v@.len() as int) =~= v@);
    slice(v, 0, v.len())
}

/// `a` followed by `b`.
pub fn join(a: &str, b: &str) -> (r: String)
    ensures
        r@ == a@ + b@,
{
    let mut r = a.to_owned();
    r.append(b);
    r
}

/// Whether a text reads `b`.
pub fn is(a: &str, b: &str) -> (r: bool)
    ensures
        r == (a@ == b@),
{
    a.to_owned() == b.to_owned()
}

// ---- order ----------------------------------------------------------------

/// Dictionary order by code point.
pub open spec fn le(a: Seq<char>, b: Seq<char>) -> bool
    decreases a.len(),
{
    if a.len() == 0 {
        true
    } else if b.len() == 0 {
        false
    } else if a[0] != b[0] {
        (a[0] as int) < (b[0] as int)
    } else {
        le(a.drop_first(), b.drop_first())
    }
}

/// One text comes before another where it is the beginning of it, or has the
/// smaller character where they first differ.
pub proof fn texts_are_ordered_by_their_first_difference(a: Seq<char>, b: Seq<char>)
    ensures
        le(a, b) <==> a.is_prefix_of(b) || exists|n: int|
            0 <= n < a.len() && n < b.len() && #[trigger] a[n] < b[n] && forall|i: int|
                0 <= i < n ==> #[trigger] a[i] == b[i],
    decreases a.len(),
{
    if a.len() == 0 {
        assert(a.is_prefix_of(b));
    } else if b.len() == 0 {
    } else if a[0] != b[0] {
        if a.is_prefix_of(b) {
            assert(b.subrange(0, a.len() as int)[0] == b[0]);
        }
    } else {
        let (x, y) = (a.drop_first(), b.drop_first());
        texts_are_ordered_by_their_first_difference(x, y);
        assert(a =~= seq![a[0]] + x);
        assert(b =~= seq![b[0]] + y);
        if x.is_prefix_of(y) {
            assert(a =~= b.subrange(0, a.len() as int)) by {
                assert forall|i: int| 0 < i < a.len() implies a[i] == b[i] by {
                    assert(x[i - 1] == y.subrange(0, x.len() as int)[i - 1]);
                }
            }
        }
        if a.is_prefix_of(b) {
            assert(x =~= y.subrange(0, x.len() as int)) by {
                assert forall|i: int| 0 <= i < x.len() implies x[i] == y[i] by {
                    assert(a[i + 1] == b.subrange(0, a.len() as int)[i + 1]);
                }
            }
        }
        if exists|n: int|
            0 <= n < x.len() && n < y.len() && #[trigger] x[n] < y[n] && forall|i: int|
                0 <= i < n ==> #[trigger] x[i] == y[i] {
            let n = choose|n: int|
                0 <= n < x.len() && n < y.len() && #[trigger] x[n] < y[n] && forall|i: int|
                    0 <= i < n ==> #[trigger] x[i] == y[i];
            assert(a[n + 1] < b[n + 1]);
            assert forall|i: int| 0 <= i < n + 1 implies #[trigger] a[i] == b[i] by {
                if i > 0 {
                    assert(x[i - 1] == y[i - 1]);
                }
            }
        }
        if exists|n: int|
            0 <= n < a.len() && n < b.len() && #[trigger] a[n] < b[n] && forall|i: int|
                0 <= i < n ==> #[trigger] a[i] == b[i] {
            let n = choose|n: int|
                0 <= n < a.len() && n < b.len() && #[trigger] a[n] < b[n] && forall|i: int|
                    0 <= i < n ==> #[trigger] a[i] == b[i];
            assert(x[n - 1] < y[n - 1]);
            assert forall|i: int| 0 <= i < n - 1 implies #[trigger] x[i] == y[i] by {
                assert(a[i + 1] == b[i + 1]);
            }
        }
    }
}

/// Any two texts can be ordered, and only equal ones both ways.
pub proof fn lemma_le_total(a: Seq<char>, b: Seq<char>)
    ensures
        le(a, b) || le(b, a),
        le(a, b) && le(b, a) ==> a == b,
    decreases a.len(),
{
    if a.len() > 0 && b.len() > 0 {
        if a[0] == b[0] {
            lemma_le_total(a.drop_first(), b.drop_first());
            if le(a, b) && le(b, a) {
                assert(a =~= seq![a[0]] + a.drop_first());
                assert(b =~= seq![b[0]] + b.drop_first());
            }
        } else {
            assert(a[0] as int != b[0] as int);
        }
    } else if a.len() == 0 && b.len() == 0 {
        assert(a =~= b);
    }
}

/// The order is transitive.
pub proof fn lemma_le_trans(a: Seq<char>, b: Seq<char>, c: Seq<char>)
    requires
        le(a, b),
        le(b, c),
    ensures
        le(a, c),
    decreases a.len(),
{
    if a.len() > 0 && b.len() > 0 && c.len() > 0 && a[0] == b[0] && b[0] == c[0] {
        lemma_le_trans(a.drop_first(), b.drop_first(), c.drop_first());
    }
}

fn le_chars(a: &Vec<char>, b: &Vec<char>) -> (r: bool)
    ensures
        r == le(a@, b@),
{
    let mut i: usize = 0;
    assert(a@.skip(0) =~= a@);
    assert(b@.skip(0) =~= b@);
    loop
        invariant
            i <= a@.len(),
            i <= b@.len(),
            le(a@, b@) == le(a@.skip(i as int), b@.skip(i as int)),
        decreases a@.len() - i,
    {
        if i == a.len() {
            return true;
        }
        if i == b.len() {
            return false;
        }
        if a[i] != b[i] {
            let x: char = a[i];
            let y: char = b[i];
            return x < y;
        }
        assert(a@.skip(i as int).drop_first() =~= a@.skip(i + 1));
        assert(b@.skip(i as int).drop_first() =~= b@.skip(i + 1));
        i = i + 1;
    }
}

/// Whether `a` comes before `b` or is equal to it.
pub fn in_order(a: &String, b: &String) -> (r: bool)
    ensures
        r == le(a@, b@),
{
    let a = chars(a.as_str());
    let b = chars(b.as_str());
    le_chars(&a, &b)
}

// ---- case and space -------------------------------------------------------

/// The lowercase characters of one character.
pub open spec fn lower(c: char) -> Seq<char> {
    if (c as u32) < 128 {
        seq![ascii_lower_char(c)]
    } else {
        lower_beyond_ascii(c)
    }
}

fn lower_of(c: char) -> (r: Vec<char>)
    ensures
        r@ == lower(c),
{
    if (c as u32) < 128 {
        if 'A' <= c && c <= 'Z' {
            let b: u8 = c as u8;
            vec![(b + 32) as char]
        } else {
            vec![c]
        }
    } else {
        lower_unicode(c)
    }
}

/// The lowercase characters of a text, character by character.
pub open spec fn folded(s: Seq<char>) -> Seq<char>
    decreases s.len(),
{
    if s.len() == 0 {
        Seq::empty()
    } else {
        folded(s.drop_last()) + lower(s.last())
    }
}

pub fn fold(s: &str) -> (r: Vec<char>)
    ensures
        r@ == folded(s@),
{
    let v = chars(s);
    let mut out: Vec<char> = Vec::new();
    let n: usize = v.len();
    assert(v@.take(0).len() == 0);
    for i in 0..n
        invariant
            n == v@.len(),
            out@ == folded(v@.take(i as int)),
    {
        assert(v@.take(i + 1).drop_last() =~= v@.take(i as int));
        let mut more = lower_of(v[i]);
        out.append(&mut more);
    }
    assert(v@.take(n as int) =~= v@);
    out
}

/// The first lowercase character of one character.
pub fn first_lower(c: char) -> (r: Option<char>)
    ensures
        r == if lower(c).len() > 0 {
            Some(lower(c)[0])
        } else {
            None
        },
{
    let v = lower_of(c);
    if v.len() > 0 {
        Some(v[0])
    } else {
        None
    }
}

pub open spec fn ascii_lower_char(c: char) -> char {
    if 'A' <= c <= 'Z' {
        ((c as u8 + 32) as u8) as char
    } else {
        c
    }
}

/// A text with its ASCII letters in lower case.
pub open spec fn ascii_lower(s: Seq<char>) -> Seq<char> {
    s.map_values(|c: char| ascii_lower_char(c))
}

pub fn ascii_lowercase(s: &str) -> (r: String)
    ensures
        r@ == ascii_lower(s@),
{
    let mut out = String::new();
    for c in it: s.chars()
        invariant
            it.seq() == s@,
            out@ == ascii_lower(s@.take(it.index() as int)),
    {
        assert(ascii_lower(s@.take(it.index() + 1)) =~= ascii_lower(s@.take(it.index() as int)).push(ascii_lower_char(c)));
        if 'A' <= c && c <= 'Z' {
            let b: u8 = c as u8;
            out.push((b + 32) as char);
        } else {
            out.push(c);
        }
    }
    assert(s@.take(s@.len() as int) =~= s@);
    out
}

/// The text from its first character that is not whitespace.
pub open spec fn trim_start(s: Seq<char>) -> Seq<char>
    decreases s.len(),
{
    if s.len() > 0 && is_space(s[0]) {
        trim_start(s.drop_first())
    } else {
        s
    }
}

/// The text up to its last character that is not whitespace.
pub open spec fn trim_end(s: Seq<char>) -> Seq<char>
    decreases s.len(),
{
    if s.len() > 0 && is_space(s.last()) {
        trim_end(s.drop_last())
    } else {
        s
    }
}

/// The text without whitespace at its ends.
pub open spec fn trimmed(s: Seq<char>) -> Seq<char> {
    trim_end(trim_start(s))
}

pub fn trim(s: &str) -> (r: String)
    ensures
        r@ == trimmed(s@),
{
    let v = chars(s);
    let n: usize = v.len();
    let mut from: usize = 0;
    assert(v@.skip(0) =~= v@);
    while from < n && space(v[from])
        invariant
            from <= n,
            n == v@.len(),
            trim_start(v@) == trim_start(v@.skip(from as int)),
        decreases n - from,
    {
        assert(v@.skip(from as int).drop_first() =~= v@.skip(from + 1));
        from = from + 1;
    }
    let mut to: usize = n;
    assert(v@.subrange(from as int, n as int) =~= v@.skip(from as int));
    while to > from && space(v[to - 1])
        invariant
            from <= to <= n,
            n == v@.len(),
            trim_end(v@.skip(from as int)) == trim_end(v@.subrange(from as int, to as int)),
        decreases to,
    {
        assert(v@.subrange(from as int, to as int).drop_last() =~= v@.subrange(from as int, to - 1));
        to = to - 1;
    }
    slice(&v, from, to)
}

/// Whether some character is whitespace.
pub fn has_space(s: &str) -> (b: bool)
    ensures
        b == (exists|i: int| 0 <= i < s@.len() && is_space(#[trigger] s@[i])),
{
    let v = chars(s);
    let n: usize = v.len();
    for i in 0..n
        invariant
            n == v@.len(),
            v@ == s@,
            forall|j: int| 0 <= j < i ==> !is_space(#[trigger] v@[j]),
    {
        if space(v[i]) {
            assert(is_space(s@[i as int]));
            return true;
        }
    }
    false
}

/// How many characters come before the first whitespace.
pub open spec fn word_len(s: Seq<char>) -> nat
    decreases s.len(),
{
    if s.len() == 0 || is_space(s[0]) {
        0
    } else {
        1 + word_len(s.drop_first())
    }
}

proof fn lemma_word_len(s: Seq<char>)
    ensures
        word_len(s) <= s.len(),
    decreases s.len(),
{
    if s.len() > 0 && !is_space(s[0]) {
        lemma_word_len(s.drop_first());
    }
}

proof fn lemma_trim_start(s: Seq<char>)
    ensures
        trim_start(s).len() <= s.len(),
        trim_start(s).len() > 0 ==> !is_space(trim_start(s)[0]),
    decreases s.len(),
{
    if s.len() > 0 && is_space(s[0]) {
        lemma_trim_start(s.drop_first());
    }
}

/// The words of a text: its stretches without whitespace.
pub open spec fn words(s: Seq<char>) -> Seq<Seq<char>>
    decreases s.len(),
{
    let t = trim_start(s);
    if t.len() == 0 {
        Seq::empty()
    } else {
        let n = word_len(t);
        let rest = t.skip(n as int);
        if rest.len() < s.len() {
            seq![t.take(n as int)] + words(rest)
        } else {
            Seq::empty()
        }
    }
}

pub fn split_words(s: &str) -> (r: Vec<String>)
    ensures
        r.deep_view() == words(s@),
{
    let v = chars(s);
    let n: usize = v.len();
    let mut out: Vec<String> = Vec::new();
    let mut from: usize = 0;
    assert(v@.skip(0) =~= v@);
    assert(out.deep_view() + words(v@) =~= words(v@));
    loop
        invariant
            from <= n,
            n == v@.len(),
            v@ == s@,
            words(v@) == out.deep_view() + words(v@.skip(from as int)),
        decreases n - from,
    {
        let ghost before = out.deep_view();
        let ghost start = v@.skip(from as int);
        let mut i: usize = from;
        while i < n && space(v[i])
            invariant
                from <= i <= n,
                n == v@.len(),
                trim_start(start) == trim_start(v@.skip(i as int)),
            decreases n - i,
        {
            assert(v@.skip(i as int).drop_first() =~= v@.skip(i + 1));
            i = i + 1;
        }
        let ghost t = v@.skip(i as int);
        if i == n {
            assert(words(start) =~= Seq::empty());
            assert(out.deep_view() + Seq::<Seq<char>>::empty() =~= out.deep_view());
            return out;
        }
        assert(trim_start(start) == t);
        let mut j: usize = i;
        assert(v@.skip(j as int) =~= t.skip(0));
        while j < n && !space(v[j])
            invariant
                i <= j <= n,
                n == v@.len(),
                t == v@.skip(i as int),
                word_len(t) == (j - i) + word_len(v@.skip(j as int)),
            decreases n - j,
        {
            assert(v@.skip(j as int).drop_first() =~= v@.skip(j + 1));
            j = j + 1;
        }
        let word = slice(&v, i, j);
        proof {
            lemma_word_len(t);
            assert(word@ =~= t.take(j - i));
            assert(t.skip(j - i) =~= v@.skip(j as int));
            assert(before + (seq![word@] + words(v@.skip(j as int))) =~= before.push(word@) + words(v@.skip(j as int)));
        }
        out.push(word);
        assert(out.deep_view() =~= before.push(word@));
        from = j;
    }
}

// ---- searching ------------------------------------------------------------

/// Where `c` first occurs.
pub open spec fn index_of(s: Seq<char>, c: char) -> Option<int>
    decreases s.len(),
{
    if s.len() == 0 {
        None
    } else if s[0] == c {
        Some(0)
    } else {
        match index_of(s.drop_first(), c) {
            Some(i) => Some(i + 1),
            None => None,
        }
    }
}

pub proof fn lemma_index_of(s: Seq<char>, c: char)
    ensures
        match index_of(s, c) {
            Some(i) => 0 <= i < s.len() && s[i] == c && forall|j: int| 0 <= j < i ==> s[j] != c,
            None => forall|j: int| 0 <= j < s.len() ==> s[j] != c,
        },
    decreases s.len(),
{
    if s.len() > 0 && s[0] != c {
        let rest = s.drop_first();
        lemma_index_of(rest, c);
        assert(forall|j: int| 0 < j < s.len() ==> #[trigger] s[j] == rest[j - 1]);
    }
}

/// Where `c` first occurs at or after `from`, counted from the start.
pub fn find_from(v: &Vec<char>, from: usize, c: char) -> (r: Option<usize>)
    requires
        from <= v@.len(),
    ensures
        match r {
            Some(i) => from <= i < v@.len() && index_of(v@.skip(from as int), c) == Some(i - from),
            None => index_of(v@.skip(from as int), c) is None,
        },
{
    let n: usize = v.len();
    proof {
        let rest = v@.skip(from as int);
        lemma_index_of(rest, c);
        assert(forall|j: int| from <= j < n ==> #[trigger] v@[j] == rest[j - from]);
    }
    for i in from..n
        invariant
            from <= i <= n,
            n == v@.len(),
            forall|j: int| from <= j < i ==> v@[j] != c,
            match index_of(v@.skip(from as int), c) {
                Some(k) => 0 <= k < n - from && v@[from + k] == c && forall|j: int| from <= j < from + k ==> v@[j] != c,
                None => forall|j: int| from <= j < n ==> v@[j] != c,
            },
    {
        if v[i] == c {
            return Some(i);
        }
    }
    None
}

/// The part before the first `c` and the part after it.
pub open spec fn split_once(s: Seq<char>, c: char) -> Option<(Seq<char>, Seq<char>)> {
    match index_of(s, c) {
        Some(i) => Some((s.take(i), s.skip(i + 1))),
        None => None,
    }
}

pub fn split(s: &str, c: char) -> (r: Option<(String, String)>)
    ensures
        match r {
            Some(p) => split_once(s@, c) == Some((p.0@, p.1@)),
            None => split_once(s@, c) is None,
        },
{
    let v = chars(s);
    assert(v@.skip(0) =~= v@);
    match find_from(&v, 0, c) {
        Some(i) => {
            assert(v@.subrange(0, i as int) =~= v@.take(i as int));
            assert(v@.subrange(i + 1, v@.len() as int) =~= v@.skip(i + 1));
            let n: usize = v.len();
            let next: usize = i + 1;
            Some((slice(&v, 0, i), slice(&v, next, n)))
        },
        None => None,
    }
}

/// The part before the last `c`.
pub open spec fn before_last(s: Seq<char>, c: char) -> Option<Seq<char>>
    decreases s.len(),
{
    if s.len() == 0 {
        None
    } else if s.last() == c {
        Some(s.drop_last())
    } else {
        before_last(s.drop_last(), c)
    }
}

pub fn split_last(s: &str, c: char) -> (r: Option<String>)
    ensures
        match r {
            Some(p) => before_last(s@, c) == Some(p@),
            None => before_last(s@, c) is None,
        },
{
    let v = chars(s);
    let mut n: usize = v.len();
    assert(v@.take(n as int) =~= v@);
    while n > 0
        invariant
            n <= v@.len(),
            v@ == s@,
            before_last(v@.take(n as int), c) == before_last(v@, c),
        decreases n,
    {
        assert(v@.take(n as int).drop_last() =~= v@.take(n - 1));
        if v[n - 1] == c {
            assert(v@.subrange(0, n - 1) =~= v@.take(n - 1));
            return Some(slice(&v, 0, n - 1));
        }
        n = n - 1;
    }
    None
}

/// The text up to its first line break; a carriage return before the break
/// belongs to the break.
pub open spec fn first_line(s: Seq<char>) -> Seq<char> {
    match index_of(s, '\n') {
        Some(i) => if i > 0 && s[i - 1] == '\r' {
            s.take(i - 1)
        } else {
            s.take(i)
        },
        None => s,
    }
}

/// The first line ends where the text or the line does.
pub proof fn lemma_first_line(s: Seq<char>)
    ensures
        first_line(s).is_prefix_of(s),
        forall|i: int| 0 <= i < first_line(s).len() ==> #[trigger] first_line(s)[i] != '\n',
        first_line(s).len() < s.len() ==> s[first_line(s).len() as int] == '\n' || (s[first_line(s).len() as int]
            == '\r' && first_line(s).len() + 1 < s.len() && s[first_line(s).len() as int + 1] == '\n'),
{
    lemma_index_of(s, '\n');
}

pub fn head_line(s: &str) -> (r: String)
    ensures
        r@ == first_line(s@),
{
    let v = chars(s);
    assert(v@.skip(0) =~= v@);
    match find_from(&v, 0, '\n') {
        Some(i) => if i > 0 && v[i - 1] == '\r' {
            assert(v@.subrange(0, i - 1) =~= v@.take(i - 1));
            slice(&v, 0, i - 1)
        } else {
            assert(v@.subrange(0, i as int) =~= v@.take(i as int));
            slice(&v, 0, i)
        },
        None => text(&v),
    }
}

/// The parts between the separators, of which there is one more than there
/// are separators.
pub open spec fn parts(s: Seq<char>, c: char) -> Seq<Seq<char>>
    decreases s.len(),
{
    match index_of(s, c) {
        Some(i) => if 0 <= i < s.len() {
            seq![s.take(i)] + parts(s.skip(i + 1), c)
        } else {
            seq![s]
        },
        None => seq![s],
    }
}

pub fn split_all(s: &str, c: char) -> (r: Vec<String>)
    ensures
        r.deep_view() == parts(s@, c),
{
    let v = chars(s);
    let n: usize = v.len();
    let mut out: Vec<String> = Vec::new();
    let mut from: usize = 0;
    assert(v@.skip(0) =~= v@);
    assert(out.deep_view() + parts(v@, c) =~= parts(v@, c));
    loop
        invariant
            from <= n,
            n == v@.len(),
            v@ == s@,
            parts(v@, c) == out.deep_view() + parts(v@.skip(from as int), c),
        decreases v@.len() - from,
    {
        let ghost rest = v@.skip(from as int);
        let ghost before = out.deep_view();
        match find_from(&v, from, c) {
            Some(i) => {
                let piece = slice(&v, from, i);
                proof {
                    assert(piece@ =~= rest.take(i - from));
                    assert(rest.skip(i - from + 1) =~= v@.skip(i + 1));
                    assert(before + (seq![piece@] + parts(v@.skip(i + 1), c)) =~= before.push(piece@) + parts(v@.skip(i + 1), c));
                }
                out.push(piece);
                assert(out.deep_view() =~= before.push(piece@));
                from = i + 1;
            },
            None => {
                let piece = slice(&v, from, n);
                assert(piece@ =~= rest);
                out.push(piece);
                assert(out.deep_view() =~= before + seq![rest]);
                return out;
            },
        }
    }
}

/// Whether the characters of `needle` occur in `haystack` in order.
pub open spec fn subsequence(haystack: Seq<char>, needle: Seq<char>) -> bool
    decreases haystack.len(),
{
    if needle.len() == 0 {
        true
    } else if haystack.len() == 0 {
        false
    } else if haystack[0] == needle[0] {
        subsequence(haystack.drop_first(), needle.drop_first())
    } else {
        subsequence(haystack.drop_first(), needle)
    }
}

/// `at` names characters of `haystack`, in order, that spell `needle`.
pub open spec fn spells(haystack: Seq<char>, needle: Seq<char>, at: Seq<int>) -> bool {
    &&& at.len() == needle.len()
    &&& forall|k: int| 0 <= k < at.len() ==> 0 <= #[trigger] at[k] < haystack.len() && haystack[at[k]] == needle[k]
    &&& forall|j: int, k: int| 0 <= j < k < at.len() ==> #[trigger] at[j] < #[trigger] at[k]
}

/// A needle is found exactly if some of the haystack's characters spell it
/// in order.
pub proof fn matches_are_ordered_subsequences(haystack: Seq<char>, needle: Seq<char>)
    ensures
        subsequence(haystack, needle) <==> exists|at: Seq<int>| #[trigger] spells(haystack, needle, at),
{
    if subsequence(haystack, needle) {
        lemma_found_is_spelt(haystack, needle);
    }
    if exists|at: Seq<int>| #[trigger] spells(haystack, needle, at) {
        let at = choose|at: Seq<int>| #[trigger] spells(haystack, needle, at);
        lemma_spelt_is_found(haystack, needle, at);
    }
}

proof fn lemma_found_is_spelt(haystack: Seq<char>, needle: Seq<char>)
    requires
        subsequence(haystack, needle),
    ensures
        exists|at: Seq<int>| #[trigger] spells(haystack, needle, at),
    decreases haystack.len(),
{
    if needle.len() == 0 {
        assert(spells(haystack, needle, Seq::empty()));
    } else {
        let taken = haystack[0] == needle[0];
        let rest = haystack.drop_first();
        let left = if taken { needle.drop_first() } else { needle };
        lemma_found_is_spelt(rest, left);
        let at = choose|at: Seq<int>| #[trigger] spells(rest, left, at);
        let moved = at.map_values(|i: int| i + 1);
        let all = if taken { seq![0int] + moved } else { moved };
        assert forall|k: int| 0 <= k < all.len() implies 0 <= #[trigger] all[k] < haystack.len()
            && haystack[all[k]] == needle[k] by {
            if taken && k > 0 {
                assert(all[k] == at[k - 1] + 1);
                assert(needle[k] == left[k - 1]);
            } else if !taken {
                assert(all[k] == at[k] + 1);
            }
        }
        assert forall|j: int, k: int| 0 <= j < k < all.len() implies #[trigger] all[j] < #[trigger] all[k] by {
            if taken {
                assert(all[k] == at[k - 1] + 1);
                if j > 0 {
                    assert(all[j] == at[j - 1] + 1);
                }
            } else {
                assert(all[j] == at[j] + 1 && all[k] == at[k] + 1);
            }
        }
        assert(spells(haystack, needle, all));
    }
}

proof fn lemma_spelt_is_found(haystack: Seq<char>, needle: Seq<char>, at: Seq<int>)
    requires
        spells(haystack, needle, at),
    ensures
        subsequence(haystack, needle),
    decreases haystack.len(),
{
    if needle.len() > 0 {
        let rest = haystack.drop_first();
        assert(0 <= at[0] < haystack.len());
        let taken = haystack[0] == needle[0];
        let kept = if taken { at.drop_first() } else { at };
        let left = if taken { needle.drop_first() } else { needle };
        let moved = kept.map_values(|i: int| i - 1);
        let by = if taken { 1int } else { 0int };
        assert forall|k: int| 0 <= k < moved.len() implies 0 <= #[trigger] moved[k] < rest.len()
            && rest[moved[k]] == left[k] by {
            assert(moved[k] == at[k + by] - 1);
            assert(k + by > 0 ==> at[0] < at[k + by]);
        }
        assert forall|j: int, k: int| 0 <= j < k < moved.len() implies #[trigger] moved[j] < #[trigger] moved[k] by {
            assert(moved[j] == at[j + by] - 1 && moved[k] == at[k + by] - 1);
        }
        lemma_spelt_is_found(rest, left, moved);
    }
}

// ---- numbers --------------------------------------------------------------

/// The decimal digits of a number.
pub open spec fn decimal(n: nat) -> Seq<char>
    decreases n,
{
    if n < 10 {
        seq![digit(n)]
    } else {
        decimal(n / 10).push(digit(n % 10))
    }
}

pub open spec fn digit(n: nat) -> char {
    ((48 + n) as u8) as char
}

pub fn number(n: u64) -> (r: String)
    ensures
        r@ == decimal(n as nat),
    decreases n,
{
    let d: u8 = (n % 10) as u8;
    let c: char = (48 + d) as char;
    if n < 10 {
        let mut r = String::new();
        r.push(c);
        assert(r@ =~= seq![digit(n as nat)]);
        r
    } else {
        let mut r = number(n / 10);
        r.push(c);
        r
    }
}

// ---- paths ----------------------------------------------------------------

/// Whether a text is a path: components separated by `/`, none of them empty.
pub open spec fn is_path(s: Seq<char>) -> bool {
    forall|i: int| 0 <= i < parts(s, '/').len() ==> #[trigger] parts(s, '/')[i].len() > 0
}

pub fn valid_path(s: &str) -> (b: bool)
    ensures
        b == is_path(s@),
{
    let all = split_all(s, '/');
    let n: usize = all.len();
    assert(all.deep_view().len() == all@.len());
    for i in 0..n
        invariant
            n == all@.len(),
            all.deep_view() == parts(s@, '/'),
            forall|j: int| 0 <= j < i ==> #[trigger] parts(s@, '/')[j].len() > 0,
    {
        assert(all.deep_view()[i as int] == all@[i as int]@);
        if all[i].as_str().is_empty() {
            return false;
        }
    }
    true
}

/// What follows `prefix`, if the text starts with it.
pub open spec fn after_prefix(s: Seq<char>, prefix: Seq<char>) -> Option<Seq<char>> {
    if prefix.is_prefix_of(s) {
        Some(s.skip(prefix.len() as int))
    } else {
        None
    }
}

pub fn strip_prefix(s: &str, prefix: &str) -> (r: Option<String>)
    ensures
        match r {
            Some(rest) => after_prefix(s@, prefix@) == Some(rest@),
            None => after_prefix(s@, prefix@) is None,
        },
{
    let v = chars(s);
    let p = chars(prefix);
    let n: usize = p.len();
    if n > v.len() {
        return None;
    }
    for i in 0..n
        invariant
            n == p@.len(),
            n <= v@.len(),
            v@ == s@,
            p@ == prefix@,
            forall|j: int| 0 <= j < i ==> p@[j] == v@[j],
    {
        if p[i] != v[i] {
            assert(prefix@[i as int] != s@.subrange(0, n as int)[i as int]);
            return None;
        }
    }
    assert(p@ =~= v@.subrange(0, n as int));
    assert(v@.subrange(n as int, v@.len() as int) =~= v@.skip(n as int));
    Some(slice(&v, n, v.len()))
}

/// Bytes a character takes in UTF-8.
pub open spec fn width(c: char) -> nat {
    if (c as u32) < 0x80 {
        1
    } else if (c as u32) < 0x800 {
        2
    } else if (c as u32) < 0x10000 {
        3
    } else {
        4
    }
}

pub fn width_of(c: char) -> (r: u8)
    ensures
        r == width(c),
        1 <= r <= 4,
{
    let n: u32 = c as u32;
    if n < 0x80 {
        1
    } else if n < 0x800 {
        2
    } else if n < 0x10000 {
        3
    } else {
        4
    }
}

/// Bytes a text takes in UTF-8.
pub open spec fn byte_len(s: Seq<char>) -> nat
    decreases s.len(),
{
    if s.len() == 0 {
        0
    } else {
        byte_len(s.drop_last()) + width(s.last())
    }
}

/// A text takes between one and four bytes per character.
pub proof fn lemma_byte_len(s: Seq<char>)
    ensures
        s.len() <= byte_len(s) <= 4 * s.len(),
    decreases s.len(),
{
    if s.len() > 0 {
        lemma_byte_len(s.drop_last());
    }
}

/// Texts joined take the bytes of both.
pub proof fn lemma_byte_len_join(a: Seq<char>, b: Seq<char>)
    ensures
        byte_len(a + b) == byte_len(a) + byte_len(b),
    decreases b.len(),
{
    if b.len() == 0 {
        assert(a + b =~= a);
    } else {
        lemma_byte_len_join(a, b.drop_last());
        assert((a + b).drop_last() =~= a + b.drop_last());
    }
}


// ---- splitting, from the other side ---------------------------------------

pub open spec fn without_space(s: Seq<char>) -> bool {
    forall|i: int| 0 <= i < s.len() ==> !is_space(#[trigger] s[i])
}

pub proof fn lemma_words_skip_space(s: Seq<char>)
    requires
        s.len() > 0,
        is_space(s[0]),
    ensures
        words(s) == words(s.drop_first()),
{
    let t = trim_start(s);
    lemma_trim_start(s.drop_first());
    if t.len() > 0 {
        lemma_word_len(t);
        assert(word_len(t) > 0);
    }
}

proof fn lemma_word_len_of(w: Seq<char>, rest: Seq<char>)
    requires
        without_space(w),
        rest.len() == 0 || is_space(rest[0]),
    ensures
        word_len(w + rest) == w.len(),
    decreases w.len(),
{
    if w.len() == 0 {
        assert(w + rest =~= rest);
    } else {
        assert((w + rest)[0] == w[0]);
        assert((w + rest).drop_first() =~= w.drop_first() + rest);
        lemma_word_len_of(w.drop_first(), rest);
    }
}

/// A word in front of whitespace is the first word.
pub proof fn lemma_words_first(w: Seq<char>, rest: Seq<char>)
    requires
        w.len() > 0,
        without_space(w),
        rest.len() == 0 || is_space(rest[0]),
    ensures
        words(w + rest) == seq![w] + words(rest),
{
    let s = w + rest;
    assert(s[0] == w[0]);
    assert(trim_start(s) == s);
    lemma_word_len_of(w, rest);
    assert(s.take(w.len() as int) =~= w);
    assert(s.skip(w.len() as int) =~= rest);
}

/// What comes before the first separator is the first part.
pub proof fn lemma_parts_first(w: Seq<char>, rest: Seq<char>, c: char)
    requires
        !w.contains(c),
    ensures
        parts(w + seq![c] + rest, c) == seq![w] + parts(rest, c),
{
    let s = w + seq![c] + rest;
    lemma_index_of(s, c);
    assert(s[w.len() as int] == c);
    let i = index_of(s, c)->0;
    if i < w.len() {
        assert(w[i] == s[i]);
        assert(w.contains(c));
    }
    assert(s.take(w.len() as int) =~= w);
    assert(s.skip(w.len() as int + 1) =~= rest);
}

/// A text without the separator is its only part.
pub proof fn lemma_parts_only(w: Seq<char>, c: char)
    requires
        !w.contains(c),
    ensures
        parts(w, c) == seq![w],
{
    lemma_index_of(w, c);
    if let Some(i) = index_of(w, c) {
        assert(w.contains(c));
    }
}

} // verus!
